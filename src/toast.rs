use vstd::prelude::*;

use crate::model::Toast;

verus! {

/// A notification with the title `title`, shown for one second.
pub fn toast_str(title: &str) -> (r: Toast)
    ensures
        r.title@ == title@,
        r.timeout == 1,
{
    Toast { title: title.to_owned(), timeout: 1 }
}

/// A notification with the title `title`, shown for one second.
pub fn toast(title: String) -> (r: Toast)
    ensures
        r.title == title,
        r.timeout == 1,
{
    Toast { title, timeout: 1 }
}

} // verus!
