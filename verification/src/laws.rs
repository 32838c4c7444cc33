use crate::clock::Timestamp;
use crate::todo::{
    distinct_ids, first_at, first_index, has_id, lemma_first_at_unique, lemma_first_index,
    lemma_replaced_wf, with_status, ListState, Todo,
};
use vstd::prelude::*;

verus! {

/// One change to a list, as the operations of `TodoList` make it.
pub enum Change {
    Add { title: String, at: Timestamp },
    Remove { id: usize },
    Complete { id: usize, at: Timestamp },
    Uncomplete { id: usize },
}

/// The state after one change.
pub open spec fn step(state: ListState, change: Change) -> ListState {
    match change {
        Change::Add { title, at } => state.added(title, at),
        Change::Remove { id } => state.removed(id),
        Change::Complete { id, at } => state.completed(id, at),
        Change::Uncomplete { id } => state.uncompleted(id),
    }
}

/// The state after the changes were made one after the other.
pub open spec fn run(state: ListState, changes: Seq<Change>) -> ListState
    decreases changes.len(),
{
    if changes.len() == 0 {
        state
    } else {
        step(run(state, changes.drop_last()), changes.last())
    }
}

/// How many of the changes add a task.
pub open spec fn additions(changes: Seq<Change>) -> nat
    decreases changes.len(),
{
    if changes.len() == 0 {
        0
    } else {
        additions(changes.drop_last()) + if changes.last() is Add {
            1nat
        } else {
            0nat
        }
    }
}

/// The identifier that the change at position `i` hands out, if it adds a
/// task: the counter after the changes before it.
pub open spec fn issued(state: ListState, changes: Seq<Change>, i: int) -> usize {
    run(state, changes.take(i)).next_id
}

/// A prefix of the changes adds no more tasks than all of them.
pub proof fn lemma_additions_prefix(changes: Seq<Change>, i: int)
    requires
        0 <= i <= changes.len(),
    ensures
        additions(changes.take(i)) <= additions(changes),
        i < changes.len() && changes[i] is Add ==> additions(changes.take(i)) < additions(changes),
    decreases changes.len(),
{
    if i < changes.len() {
        let front = changes.drop_last();
        assert(front.take(i) =~= changes.take(i));
        if i < front.len() {
            lemma_additions_prefix(front, i);
        } else {
            assert(front.take(i) =~= front);
        }
    } else {
        assert(changes.take(i) =~= changes);
    }
}

/// Adding a task, taking one out, completing one and making one pending
/// each keep a list well-formed, as long as the counter does not run out.
pub proof fn lemma_step_wf(state: ListState, change: Change)
    requires
        state.wf(),
        change is Add ==> state.next_id < usize::MAX,
    ensures
        step(state, change).wf(),
        step(state, change).next_id == state.next_id + if change is Add {
            1int
        } else {
            0int
        },
{
    match change {
        Change::Add { title, at } => {},
        Change::Remove { id } => {
            if has_id(state.todos, id) {
                lemma_first_index(state.todos, id);
            }
        },
        Change::Complete { id, at } => {
            if has_id(state.todos, id) {
                lemma_first_index(state.todos, id);
                lemma_replaced_wf(state, id, state.todos[first_index(state.todos, id)].done_at(at));
            }
        },
        Change::Uncomplete { id } => {
            if has_id(state.todos, id) {
                lemma_first_index(state.todos, id);
                lemma_replaced_wf(state, id, state.todos[first_index(state.todos, id)].reopened());
            }
        },
    }
}

/// Whatever changes are made to a well-formed list, in whatever order, it
/// stays well-formed: no two tasks share an identifier, and every identifier
/// is below the counter. The counter has moved on by the number of tasks
/// that were added, so it never goes back.
pub proof fn lemma_run_wf(state: ListState, changes: Seq<Change>)
    requires
        state.wf(),
        state.next_id + additions(changes) <= usize::MAX,
    ensures
        run(state, changes).wf(),
        distinct_ids(run(state, changes).todos),
        run(state, changes).next_id == state.next_id + additions(changes),
    decreases changes.len(),
{
    if changes.len() > 0 {
        lemma_run_wf(state, changes.drop_last());
        lemma_step_wf(run(state, changes.drop_last()), changes.last());
    }
}

/// Of two additions in a run of changes, the later one hands out the larger
/// identifier, whatever was removed or completed in between.
pub proof fn lemma_issued_ids_increase(state: ListState, changes: Seq<Change>, i: int, j: int)
    requires
        state.wf(),
        state.next_id + additions(changes) <= usize::MAX,
        0 <= i < j < changes.len(),
        changes[i] is Add,
        changes[j] is Add,
    ensures
        issued(state, changes, i) < issued(state, changes, j),
{
    let upto_j = changes.take(j);
    lemma_additions_prefix(changes, j);
    lemma_additions_prefix(upto_j, i);
    assert(upto_j.take(i) =~= changes.take(i));
    assert(upto_j[i] == changes[i]);
    lemma_run_wf(state, upto_j);
    lemma_run_wf(state, changes.take(i));
}

/// A task that was added is the only one with its identifier, and a later
/// addition does not get that identifier again, even after the task left.
pub proof fn lemma_added_id_is_new(state: ListState, title: String, at: Timestamp)
    requires
        state.wf(),
        state.next_id < usize::MAX,
    ensures
        !has_id(state.todos, state.next_id),
        first_at(state.added(title, at).todos, state.next_id, state.todos.len() as int),
        state.added(title, at).removed(state.next_id).todos == state.todos,
        !has_id(state.added(title, at).removed(state.next_id).todos, state.next_id),
        state.added(title, at).removed(state.next_id).next_id == state.next_id + 1,
{
    let added = state.added(title, at);
    let last = state.todos.len() as int;
    assert(added.todos[last].id == state.next_id);
    assert forall|j: int| 0 <= j < last implies (#[trigger] added.todos[j]).id
        != state.next_id by {
        assert(added.todos[j] == state.todos[j]);
    }
    lemma_first_at_unique(added.todos, state.next_id, last);
    assert(added.todos.remove(last) =~= state.todos);
}

/// Completing a task and then making it pending leaves it pending and
/// without a completion time, with its other fields as they were; the list
/// is then as if the task had only been made pending.
pub proof fn lemma_complete_then_uncomplete(state: ListState, id: usize, at: Timestamp)
    requires
        has_id(state.todos, id),
    ensures
        ({
            let at_index = first_index(state.todos, id);
            let after = state.completed(id, at).uncompleted(id);
            &&& after.todos[at_index] == state.todos[at_index].reopened()
            &&& !after.todos[at_index].completed
            &&& after.todos[at_index].completed_at is None
            &&& after == state.uncompleted(id)
            &&& state.todos[at_index].wf() && !state.todos[at_index].completed ==> after == state
        }),
{
    lemma_first_index(state.todos, id);
    let at_index = first_index(state.todos, id);
    let between = state.completed(id, at);
    assert(between.todos[at_index].id == id);
    assert forall|j: int| 0 <= j < at_index implies (#[trigger] between.todos[j]).id != id by {
        assert(between.todos[j] == state.todos[j]);
    }
    lemma_first_at_unique(between.todos, id, at_index);
    let after = between.uncompleted(id);
    assert(after.todos =~= state.uncompleted(id).todos);
    if state.todos[at_index].wf() && !state.todos[at_index].completed {
        assert(state.todos[at_index].reopened() == state.todos[at_index]);
        assert(after.todos =~= state.todos);
    }
}

/// Making a task pending twice is the same as doing it once, and a
/// consistent pending task is left as it is.
pub proof fn lemma_uncomplete_idempotent(state: ListState, id: usize)
    ensures
        state.uncompleted(id).uncompleted(id) == state.uncompleted(id),
        has_id(state.todos, id) && state.todos[first_index(state.todos, id)].wf()
            && !state.todos[first_index(state.todos, id)].completed ==> state.uncompleted(id)
            == state,
{
    if has_id(state.todos, id) {
        lemma_first_index(state.todos, id);
        let at_index = first_index(state.todos, id);
        let once = state.uncompleted(id);
        assert(once.todos[at_index].id == id);
        assert forall|j: int| 0 <= j < at_index implies (#[trigger] once.todos[j]).id != id by {
            assert(once.todos[j] == state.todos[j]);
        }
        lemma_first_at_unique(once.todos, id, at_index);
        assert(once.uncompleted(id).todos =~= once.todos);
        if state.todos[at_index].wf() && !state.todos[at_index].completed {
            assert(state.todos[at_index].reopened() == state.todos[at_index]);
            assert(once.todos =~= state.todos);
        }
    }
}

/// The pending and the completed tasks together are the tasks of the list,
/// each of them once: no task is in both listings and none is left out.
pub proof fn lemma_status_partition(todos: Seq<Todo>)
    ensures
        with_status(todos, false).to_multiset().add(with_status(todos, true).to_multiset())
            == todos.to_multiset(),
        with_status(todos, false).len() + with_status(todos, true).len() == todos.len(),
        forall|i: int|
            0 <= i < with_status(todos, false).len() ==> !(#[trigger] with_status(
                todos,
                false,
            )[i]).completed,
        forall|i: int|
            0 <= i < with_status(todos, true).len() ==> (#[trigger] with_status(
                todos,
                true,
            )[i]).completed,
    decreases todos.len(),
{
    broadcast use vstd::seq_lib::group_to_multiset_ensures;

    let is_pending = |todo: Todo| todo.completed == false;
    let is_done = |todo: Todo| todo.completed == true;
    assert forall|i: int| 0 <= i < todos.filter(is_pending).len() implies is_pending(
        #[trigger] todos.filter(is_pending)[i],
    ) by {
        todos.lemma_filter_pred(is_pending, i);
    }
    assert forall|i: int| 0 <= i < todos.filter(is_done).len() implies is_done(
        #[trigger] todos.filter(is_done)[i],
    ) by {
        todos.lemma_filter_pred(is_done, i);
    }
    if todos.len() == 0 {
        reveal(Seq::filter);
        assert(with_status(todos, false) =~= todos);
        assert(with_status(todos, true) =~= todos);
        assert(todos.to_multiset().add(todos.to_multiset()) =~= todos.to_multiset());
    } else {
        let front = todos.drop_last();
        let last = todos.last();
        lemma_status_partition(front);
        assert(front.push(last) =~= todos);
        front.lemma_filter_push(last, is_pending);
        front.lemma_filter_push(last, is_done);
        let pending = with_status(front, false);
        let done = with_status(front, true);
        if last.completed {
            assert(pending.to_multiset().add(done.to_multiset().insert(last))
                =~= pending.to_multiset().add(done.to_multiset()).insert(last));
        } else {
            assert(pending.to_multiset().insert(last).add(done.to_multiset())
                =~= pending.to_multiset().add(done.to_multiset()).insert(last));
        }
    }
}

} // verus!
