//! The task store's query side: the persisted collection, once parsed, is a
//! plain vector of tasks, and each query filters it to one column while
//! keeping the persisted order. Reading and parsing the backing file belong
//! to the surrounding program; everything here works on the parsed values.

use crate::task::{Todo, TodoStatus};
use vstd::prelude::*;

verus! {

/// The spec-level column filter: the subsequence of `tasks`, in order, whose
/// status equals `status`.
pub open spec fn by_status(tasks: Seq<Todo>, status: TodoStatus) -> Seq<Todo> {
    tasks.filter(|t: Todo| t.status == status)
}

/// Filter the parsed collection down to the tasks of one status, preserving
/// the persisted order and returning a fresh list.
pub fn list_by_status(tasks: &Vec<Todo>, status: TodoStatus) -> (res: Vec<Todo>)
    ensures
        res@ == by_status(tasks@, status),
{
    let mut res: Vec<Todo> = Vec::new();
    let mut i: usize = 0;
    proof {
        assert(tasks@.take(0int) =~= Seq::<Todo>::empty());
        reveal(Seq::filter);
    }
    while i < tasks.len()
        invariant
            i <= tasks.len(),
            res@ == tasks@.take(i as int).filter(|t: Todo| t.status == status),
        decreases tasks.len() - i,
    {
        proof {
            assert(tasks@.take(i + 1) =~= tasks@.take(i as int).push(tasks@[i as int]));
            tasks@.take(i as int).lemma_filter_push(
                tasks@[i as int],
                |t: Todo| t.status == status,
            );
        }
        if tasks[i].status == status {
            res.push(tasks[i].clone());
        }
        i += 1;
    }
    proof {
        assert(tasks@.take(tasks@.len() as int) =~= tasks@);
    }
    res
}

/// Status law: every task the column filter returns carries the status it
/// was filtered for — a task never shows up in a foreign column.
pub proof fn lemma_by_status_status(tasks: Seq<Todo>, status: TodoStatus, i: int)
    requires
        0 <= i < by_status(tasks, status).len(),
    ensures
        by_status(tasks, status)[i].status == status,
{
    tasks.lemma_filter_pred(|t: Todo| t.status == status, i);
}

} // verus!
