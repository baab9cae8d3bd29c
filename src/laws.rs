use vstd::prelude::*;

use crate::content::{delivered, receive_all};
use crate::model::Task;

verus! {

/// Selecting a list starts from no collected task (`ContentModel::begin_task_list`);
/// taking in every message of its stream in turn, each with the token of that
/// selection (`ContentModel::receive_task`), then collects exactly the tasks that the
/// stream delivered, in delivery order, and these are what the view shows once the
/// stream has ended (`ContentModel::finish_task_list`).
pub proof fn lemma_selection_collects_delivered(items: Seq<Option<Task>>)
    ensures
        receive_all(Some(Seq::<Task>::empty()), items) == Some(delivered(items)),
    decreases items.len(),
{
    if items.len() > 0 {
        let before = items.drop_last();
        lemma_selection_collects_delivered(before);
        reveal(Seq::filter);
        let kept = before.filter(|o: Option<Task>| o is Some);
        assert(items.filter(|o: Option<Task>| o is Some) == if items.last() is Some {
            kept.push(items.last())
        } else {
            kept
        });
        if items.last() is Some {
            assert(delivered(items) =~= delivered(before).push(items.last()->Some_0));
        }
    }
}

} // verus!
