use vstd::prelude::*;

use crate::model::Task;

verus! {

/// The rows of the local task table that belong to the list `list_id`, in table order.
pub open spec fn rows_of_list(rows: Seq<Task>, list_id: Seq<char>) -> Seq<Task> {
    rows.filter(|t: Task| t.parent@ == list_id)
}

/// The tasks of the list `list_id`: a copy of each row of the table that belongs to it,
/// in table order.
pub fn get_tasks(rows: &Vec<Task>, list_id: &String) -> (r: Vec<Task>)
    ensures
        r@.len() == rows_of_list(rows@, list_id@).len(),
        forall|k: int| 0 <= k < r@.len() ==> #[trigger] rows_of_list(rows@, list_id@)[k].same(r@[k]),
{
    let mut out: Vec<Task> = Vec::new();
    let mut i: usize = 0;
    while i < rows.len()
        invariant
            i <= rows@.len(),
            out@.len() == rows_of_list(rows@.subrange(0, i as int), list_id@).len(),
            forall|k: int|
                0 <= k < out@.len() ==> #[trigger] rows_of_list(
                    rows@.subrange(0, i as int),
                    list_id@,
                )[k].same(out@[k]),
        decreases rows@.len() - i,
    {
        let ghost before = rows@.subrange(0, i as int);
        let ghost next = rows@.subrange(0, i + 1);
        proof {
            reveal(Seq::filter);
            assert(next.drop_last() =~= before);
            assert(next.last() == rows@[i as int]);
        }
        if rows[i].parent == *list_id {
            let copy = rows[i].clone();
            out.push(copy);
            proof {
                assert(rows_of_list(next, list_id@) == rows_of_list(before, list_id@).push(
                    rows@[i as int],
                ));
            }
        } else {
            proof {
                assert(rows_of_list(next, list_id@) == rows_of_list(before, list_id@));
            }
        }
        i = i + 1;
    }
    proof {
        assert(rows@.subrange(0, rows@.len() as int) =~= rows@);
    }
    out
}

/// Why a change to the local task table was refused.
#[derive(Debug, Clone, Copy, PartialEq, Eq, Structural)]
pub enum TableError {
    /// A row already has the identifier of the new task.
    DuplicateId,
}

/// Some row of the table holds a task with the identifier `id`.
pub open spec fn has_row_with(rows: Seq<Task>, id: Seq<char>) -> bool {
    exists|i: int| 0 <= i < rows.len() && #[trigger] rows[i].id@ == id
}

/// Adds to the table a new task of the list `list_id` with the identifier `id` and the
/// title `name`, every other field empty. Identifiers are the table's key: when a row
/// already has `id`, the table stays as it was and the clash is reported.
pub fn post_task(rows: &mut Vec<Task>, id: String, list_id: String, name: String) -> (r: Result<
    (),
    TableError,
>)
    ensures
        has_row_with(old(rows)@, id@) ==> r == Err::<(), TableError>(TableError::DuplicateId)
            && *final(rows) == *old(rows),
        !has_row_with(old(rows)@, id@) ==> {
            &&& r is Ok
            &&& final(rows)@.len() == old(rows)@.len() + 1
            &&& final(rows)@.drop_last() == old(rows)@
            &&& final(rows)@.last() == (Task { id: id, parent: list_id, title: name, ..final(rows)@.last() })
            &&& final(rows)@.last().notes.is_none()
            &&& final(rows)@.last().due_date.is_none()
            &&& final(rows)@.last().reminder_date.is_none()
            &&& !final(rows)@.last().favorite
            &&& !final(rows)@.last().today
            &&& final(rows)@.last().sub_tasks@.len() == 0
        },
{
    if has_id(rows, &id) {
        return Err(TableError::DuplicateId);
    }
    rows.push(Task::new(id, list_id, name));
    proof {
        assert(rows@.drop_last() =~= old(rows)@);
    }
    Ok(())
}

/// Some row of the table holds a task with the identifier `id`.
fn has_id(rows: &Vec<Task>, id: &String) -> (r: bool)
    ensures
        r == has_row_with(rows@, id@),
{
    let mut i: usize = 0;
    while i < rows.len()
        invariant
            i <= rows@.len(),
            forall|j: int| 0 <= j < i ==> #[trigger] rows@[j].id@ != id@,
        decreases rows@.len() - i,
    {
        if rows[i].id == *id {
            return true;
        }
        i = i + 1;
    }
    false
}

/// Writes `task` over every row with its identifier. Returns whether there was one;
/// without one the table stays as it was.
pub fn patch_task(rows: &mut Vec<Task>, task: Task) -> (r: bool)
    ensures
        r == has_row_with(old(rows)@, task.id@),
        final(rows)@.len() == old(rows)@.len(),
        forall|j: int|
            #![trigger final(rows)@[j]]
            0 <= j < old(rows)@.len() ==> if old(rows)@[j].id@ == task.id@ {
                task.same(final(rows)@[j])
            } else {
                final(rows)@[j] == old(rows)@[j]
            },
        !r ==> *final(rows) == *old(rows),
{
    let mut found = false;
    let mut i: usize = 0;
    while i < rows.len()
        invariant
            i <= rows@.len(),
            rows@.len() == old(rows)@.len(),
            found == exists|j: int| 0 <= j < i && #[trigger] old(rows)@[j].id@ == task.id@,
            !found ==> *rows == *old(rows),
            forall|j: int|
                #![trigger rows@[j]]
                0 <= j < rows@.len() ==> if j < i && old(rows)@[j].id@ == task.id@ {
                    task.same(rows@[j])
                } else {
                    rows@[j] == old(rows)@[j]
                },
        decreases rows@.len() - i,
    {
        let ghost before = *rows;
        if rows[i].id == task.id {
            let copy = task.clone();
            rows.set(i, copy);
            found = true;
        }
        proof {
            assert(forall|j: int| 0 <= j < rows@.len() && j != i ==> rows@[j] == before@[j]);
        }
        i = i + 1;
    }
    found
}

} // verus!
