use vstd::prelude::*;

use crate::content::accepted;
use crate::model::{Ack, List, Plugin};
use crate::registry::PluginRegistry;

verus! {

/// The lists that are not stored by a provider but computed from all tasks.
#[derive(Debug, Clone, Copy, PartialEq, Eq, Structural)]
pub enum SmartList {
    All,
    Today,
    Starred,
    Next7Days,
    Done,
}

/// The lists of one provider as the sidebar shows them.
#[derive(Debug)]
pub struct ProviderModel {
    pub plugin: Plugin,
    pub lists: Vec<List>,
    pub enabled: bool,
}

/// The sidebar: one entry per reachable provider, in the order they were added.
#[derive(Debug)]
pub struct SidebarModel {
    pub providers: Vec<ProviderModel>,
}

/// A command for the sidebar.
#[derive(Debug)]
pub enum SidebarInput {
    /// Create a list named by the last field for the provider at the position given
    /// first, whose identifier is the second field.
    AddListToProvider(usize, String, String),
    ListSelected(List),
    EnableService(Plugin),
    DisableService(Plugin),
    Forward,
    Notify(String),
    SelectSmartList(SmartList),
}

/// What the sidebar reports to its owner.
#[derive(Debug)]
pub enum SidebarOutput {
    ListSelected(List),
    Forward,
    Notify(String),
    DisablePlugin,
    SelectSmartList(SmartList),
}

/// What follows a sidebar command.
#[derive(Debug)]
pub enum SidebarStep {
    /// Report this to the owner.
    Output(SidebarOutput),
    /// Ask `plugin` to create a list named `name`, then hand its answer to
    /// `SidebarModel::list_created` with `index`.
    CreateList { index: usize, plugin: Plugin, name: String },
    /// The provider at this position is now shown.
    Enabled(usize),
    /// Nothing to do.
    Nothing,
}

impl SidebarModel {
    /// `i` is the first position of the entry of the provider with the identifier `id`.
    pub open spec fn first_with(self, id: Seq<char>, i: int) -> bool {
        &&& 0 <= i < self.providers@.len()
        &&& self.providers@[i].plugin.id@ == id
        &&& forall|j: int| 0 <= j < i ==> #[trigger] self.providers@[j].plugin.id@ != id
    }

    /// Some entry is that of the provider with the identifier `id`.
    pub open spec fn shows(self, id: Seq<char>) -> bool {
        exists|i: int| 0 <= i < self.providers@.len() && #[trigger] self.providers@[i].plugin.id@ == id
    }

    /// The entries are those of `old`, but the one at `i` is shown or hidden as `enabled` says.
    pub open spec fn toggled(self, old: SidebarModel, i: int, enabled: bool) -> bool {
        &&& self.providers@.len() == old.providers@.len()
        &&& self.providers@[i].enabled == enabled
        &&& self.providers@[i].plugin == old.providers@[i].plugin
        &&& self.providers@[i].lists@ == old.providers@[i].lists@
        &&& forall|j: int|
            0 <= j < self.providers@.len() && j != i ==> #[trigger] self.providers@[j]
                == old.providers@[j]
    }

    /// A sidebar with no provider.
    pub fn new() -> (r: SidebarModel)
        ensures
            r.providers@.len() == 0,
    {
        SidebarModel { providers: Vec::new() }
    }

    /// Adds a shown entry for a provider that answered, with the lists it holds.
    pub fn add_provider(&mut self, plugin: Plugin, lists: Vec<List>)
        ensures
            final(self).providers@.len() == old(self).providers@.len() + 1,
            final(self).providers@.drop_last() == old(self).providers@,
            final(self).providers@.last().plugin == plugin,
            final(self).providers@.last().lists == lists,
            final(self).providers@.last().enabled,
    {
        self.providers.push(ProviderModel { plugin, lists, enabled: true });
        proof {
            assert(self.providers@.drop_last() =~= old(self).providers@);
        }
    }

    /// The position of the entry of the provider with the identifier `id`.
    pub fn position(&self, id: &String) -> (r: Option<usize>)
        ensures
            match r {
                Some(i) => self.first_with(id@, i as int),
                None => !self.shows(id@),
            },
    {
        let mut i: usize = 0;
        while i < self.providers.len()
            invariant
                i <= self.providers@.len(),
                forall|j: int| 0 <= j < i ==> #[trigger] self.providers@[j].plugin.id@ != id@,
            decreases self.providers@.len() - i,
        {
            if self.providers[i].plugin.id == *id {
                return Some(i);
            }
            i = i + 1;
        }
        None
    }

    fn set_enabled(&mut self, i: usize, enabled: bool)
        requires
            i < old(self).providers@.len(),
        ensures
            final(self).toggled(*old(self), i as int, enabled),
    {
        let mut entry = self.providers.remove(i);
        entry.enabled = enabled;
        self.providers.insert(i, entry);
    }

    /// Routes one command. A command that names a provider no known provider matches
    /// is reported as not found and changes nothing. Enabling goes ahead only for a
    /// provider that reports itself running at that moment; disabling is always
    /// reported upward; creating a list changes nothing until the provider has answered.
    pub fn update(&mut self, registry: &PluginRegistry, message: SidebarInput) -> (r: SidebarStep)
        ensures
            match message {
                SidebarInput::AddListToProvider(index, provider_id, name) => {
                    &&& *final(self) == *old(self)
                    &&& if registry.knows(provider_id@) {
                        r matches SidebarStep::CreateList { index: k, plugin: p, name: n } && k
                            == index && n == name && exists|i: int|
                            registry.first_with(provider_id@, i) && p == registry.plugins@[i]
                    } else {
                        r matches SidebarStep::Output(SidebarOutput::Notify(text)) && text@
                            == "Provider not found"@
                    }
                },
                SidebarInput::EnableService(plugin) => if !registry.knows(plugin.id@) {
                    &&& *final(self) == *old(self)
                    &&& r matches SidebarStep::Output(SidebarOutput::Notify(text)) && text@
                        == "Provider not found"@
                } else if plugin.is_running && old(self).shows(plugin.id@) {
                    r matches SidebarStep::Enabled(i) && old(self).first_with(plugin.id@, i as int)
                        && final(self).toggled(*old(self), i as int, true)
                } else {
                    r is Nothing && *final(self) == *old(self)
                },
                SidebarInput::DisableService(plugin) => if !registry.knows(plugin.id@) {
                    &&& *final(self) == *old(self)
                    &&& r matches SidebarStep::Output(SidebarOutput::Notify(text)) && text@
                        == "Provider not found"@
                } else if old(self).shows(plugin.id@) {
                    r matches SidebarStep::Output(SidebarOutput::DisablePlugin) && exists|i: int|
                        old(self).first_with(plugin.id@, i) && final(self).toggled(*old(self), i, false)
                } else {
                    r matches SidebarStep::Output(SidebarOutput::DisablePlugin) && *final(self) == *old(self)
                },
                SidebarInput::ListSelected(list) => *final(self) == *old(self) && r == SidebarStep::Output(
                    SidebarOutput::ListSelected(list),
                ),
                SidebarInput::Forward => *final(self) == *old(self) && r == SidebarStep::Output(
                    SidebarOutput::Forward,
                ),
                SidebarInput::Notify(text) => *final(self) == *old(self) && r == SidebarStep::Output(
                    SidebarOutput::Notify(text),
                ),
                SidebarInput::SelectSmartList(list) => *final(self) == *old(self) && r
                    == SidebarStep::Output(SidebarOutput::SelectSmartList(list)),
            },
    {
        match message {
            SidebarInput::AddListToProvider(index, provider_id, name) => {
                match registry.lookup(&provider_id) {
                    Ok(plugin) => SidebarStep::CreateList { index, plugin, name },
                    Err(e) => SidebarStep::Output(SidebarOutput::Notify(e.message())),
                }
            },
            SidebarInput::EnableService(plugin) => {
                if let Err(e) = registry.lookup(&plugin.id) {
                    SidebarStep::Output(SidebarOutput::Notify(e.message()))
                } else if plugin.is_running {
                    match self.position(&plugin.id) {
                        Some(i) => {
                            self.set_enabled(i, true);
                            SidebarStep::Enabled(i)
                        },
                        None => SidebarStep::Nothing,
                    }
                } else {
                    SidebarStep::Nothing
                }
            },
            SidebarInput::DisableService(plugin) => {
                if let Err(e) = registry.lookup(&plugin.id) {
                    SidebarStep::Output(SidebarOutput::Notify(e.message()))
                } else {
                    if let Some(i) = self.position(&plugin.id) {
                        self.set_enabled(i, false);
                    }
                    SidebarStep::Output(SidebarOutput::DisablePlugin)
                }
            },
            SidebarInput::ListSelected(list) => SidebarStep::Output(SidebarOutput::ListSelected(list)),
            SidebarInput::Forward => SidebarStep::Output(SidebarOutput::Forward),
            SidebarInput::Notify(text) => SidebarStep::Output(SidebarOutput::Notify(text)),
            SidebarInput::SelectSmartList(list) => SidebarStep::Output(
                SidebarOutput::SelectSmartList(list),
            ),
        }
    }

    /// Takes in a provider's answer to creating `list` for the entry at `index`: when it
    /// accepted, the list joins the end of that entry. The provider's message, or the
    /// transport's error, is reported either way.
    pub fn list_created(&mut self, index: usize, list: List, outcome: Result<Ack, String>) -> (r:
        SidebarOutput)
        ensures
            match outcome {
                Ok(ack) => r == SidebarOutput::Notify(ack.message),
                Err(e) => r == SidebarOutput::Notify(e),
            },
            if accepted(outcome) && index < old(self).providers@.len() {
                let (o, n) = (old(self).providers@[index as int], final(self).providers@[index as int]);
                &&& final(self).providers@.len() == old(self).providers@.len()
                &&& n.lists@ == o.lists@.push(list)
                &&& n.plugin == o.plugin
                &&& n.enabled == o.enabled
                &&& forall|j: int|
                    0 <= j < final(self).providers@.len() && j != index ==> #[trigger] final(self).providers@[j]
                        == old(self).providers@[j]
            } else {
                *final(self) == *old(self)
            },
    {
        match outcome {
            Ok(ack) => {
                if ack.successful && index < self.providers.len() {
                    let mut entry = self.providers.remove(index);
                    entry.lists.push(list);
                    self.providers.insert(index, entry);
                }
                SidebarOutput::Notify(ack.message)
            },
            Err(e) => SidebarOutput::Notify(e),
        }
    }
}

} // verus!
