use vstd::prelude::*;

use crate::model::{List, Plugin, Toast};
use crate::toast::toast_str;

verus! {

/// Why a session with a provider could not be had.
#[derive(Debug, PartialEq, Eq)]
pub enum ConnectError {
    /// No known provider has the identifier asked for.
    NotFound,
    /// The provider is known but its endpoint did not answer; the text says why.
    Unreachable(String),
}

impl ConnectError {
    /// The text shown to the user for this error.
    pub open spec fn spec_message(&self) -> Seq<char> {
        match self {
            ConnectError::NotFound => "Provider not found"@,
            ConnectError::Unreachable(why) => why@,
        }
    }

    pub fn message(&self) -> (r: String)
        ensures
            r@ == self.spec_message(),
    {
        match self {
            ConnectError::NotFound => String::from_str("Provider not found"),
            ConnectError::Unreachable(why) => why.clone(),
        }
    }

    /// The notification that reports this error.
    pub fn toast(&self) -> (r: Toast)
        ensures
            r.title@ == self.spec_message(),
            r.timeout == 1,
    {
        let text = self.message();
        toast_str(text.as_str())
    }
}

/// The providers that the application knows of, in a fixed order.
#[derive(Debug)]
pub struct PluginRegistry {
    pub plugins: Vec<Plugin>,
}

impl PluginRegistry {
    pub fn new(plugins: Vec<Plugin>) -> (r: PluginRegistry)
        ensures
            r.plugins == plugins,
    {
        PluginRegistry { plugins }
    }

    /// Some known provider has the identifier `id`.
    pub open spec fn knows(self, id: Seq<char>) -> bool {
        exists|i: int| 0 <= i < self.plugins@.len() && #[trigger] self.plugins@[i].id@ == id
    }

    /// A list is selected and some known provider has its provider's identifier.
    pub open spec fn knows_list_provider(self, list: Option<List>) -> bool {
        match list {
            Some(l) => self.knows(l.provider@),
            None => false,
        }
    }

    /// `i` is the first position of a provider with the identifier `id`.
    pub open spec fn first_with(self, id: Seq<char>, i: int) -> bool {
        &&& 0 <= i < self.plugins@.len()
        &&& self.plugins@[i].id@ == id
        &&& forall|j: int| 0 <= j < i ==> #[trigger] self.plugins@[j].id@ != id
    }

    /// Every known provider.
    pub fn list(&self) -> (r: &Vec<Plugin>)
        ensures
            r@ == self.plugins@,
    {
        &self.plugins
    }

    /// The position of the first provider with the identifier `id`.
    pub fn position(&self, id: &String) -> (r: Option<usize>)
        ensures
            match r {
                Some(i) => self.first_with(id@, i as int),
                None => !self.knows(id@),
            },
    {
        let mut i: usize = 0;
        while i < self.plugins.len()
            invariant
                i <= self.plugins@.len(),
                forall|j: int| 0 <= j < i ==> #[trigger] self.plugins@[j].id@ != id@,
            decreases self.plugins@.len() - i,
        {
            if self.plugins[i].id == *id {
                return Some(i);
            }
            i = i + 1;
        }
        None
    }

    /// The provider with the identifier `id`: the first such, or `NotFound` when no
    /// known provider has it.
    pub fn lookup(&self, id: &String) -> (r: Result<Plugin, ConnectError>)
        ensures
            match r {
                Ok(p) => exists|i: int| self.first_with(id@, i) && p == self.plugins@[i],
                Err(e) => e == ConnectError::NotFound && !self.knows(id@),
            },
    {
        match self.position(id) {
            Some(i) => Ok(self.plugins[i].clone()),
            None => Err(ConnectError::NotFound),
        }
    }
}

} // verus!
