use crate::clock::Timestamp;
use vstd::prelude::*;

verus! {

/// One task: its identifier, its text, and whether and when it was done.
#[derive(Debug, Clone, PartialEq, Eq)]
pub struct Todo {
    pub id: usize,
    pub title: String,
    pub completed: bool,
    pub created_at: Timestamp,
    pub completed_at: Option<Timestamp>,
}

impl Todo {
    /// A task carries a completion time exactly when it is completed.
    pub open spec fn wf(self) -> bool {
        self.completed_at is Some <==> self.completed
    }

    /// The pending task that `new_at` builds.
    pub open spec fn fresh(id: usize, title: String, created_at: Timestamp) -> Todo {
        Todo { id, title, completed: false, created_at, completed_at: None }
    }

    /// What `self` is once it was completed at `at`.
    pub open spec fn done_at(self, at: Timestamp) -> Todo {
        Todo { completed: true, completed_at: Some(at), ..self }
    }

    /// What `self` is once it was made pending again.
    pub open spec fn reopened(self) -> Todo {
        Todo { completed: false, completed_at: None, ..self }
    }

    /// A pending task created at the given instant.
    pub fn new_at(id: usize, title: String, created_at: Timestamp) -> (todo: Todo)
        ensures
            todo == Todo::fresh(id, title, created_at),
            todo.wf(),
    {
        Todo { id, title, completed: false, created_at, completed_at: None }
    }

    /// A pending task created now. The creation time is whatever the clock
    /// gives; the other fields are fixed.
    pub fn new(id: usize, title: String) -> (todo: Todo)
        ensures
            todo == Todo::fresh(id, title, todo.created_at),
            todo.wf(),
    {
        Todo::new_at(id, title, Timestamp::now())
    }

    /// Marks the task completed at the given instant. A task that was
    /// completed before gets the new completion time.
    pub fn complete_at(&mut self, at: Timestamp)
        ensures
            *final(self) == old(self).done_at(at),
            final(self).wf(),
    {
        self.completed = true;
        self.completed_at = Some(at);
    }

    /// Marks the task completed now.
    pub fn complete(&mut self)
        ensures
            final(self).completed_at is Some,
            *final(self) == old(self).done_at(final(self).completed_at->0),
            final(self).wf(),
    {
        self.complete_at(Timestamp::now());
    }

    /// Marks the task pending and drops its completion time.
    pub fn uncomplete(&mut self)
        ensures
            *final(self) == old(self).reopened(),
            final(self).wf(),
    {
        self.completed = false;
        self.completed_at = None;
    }
}

/// Why an operation on a list did nothing.
#[derive(Debug, Clone, Copy, PartialEq, Eq, Structural)]
pub enum TodoError {
    /// No task of the list has the identifier that was asked for.
    NotFound,
}

/// Whether some task of `todos` has the identifier `id`.
pub open spec fn has_id(todos: Seq<Todo>, id: usize) -> bool {
    exists|i: int| 0 <= i < todos.len() && (#[trigger] todos[i]).id == id
}

/// Whether `i` is the first position of `todos` whose task has the
/// identifier `id`.
pub open spec fn first_at(todos: Seq<Todo>, id: usize, i: int) -> bool {
    &&& 0 <= i < todos.len()
    &&& todos[i].id == id
    &&& forall|j: int| 0 <= j < i ==> (#[trigger] todos[j]).id != id
}

/// The first position of `todos` whose task has the identifier `id`, where
/// there is one.
pub open spec fn first_index(todos: Seq<Todo>, id: usize) -> int {
    choose|i: int| first_at(todos, id, i)
}

/// Whether no two tasks of `todos` share an identifier.
pub open spec fn distinct_ids(todos: Seq<Todo>) -> bool {
    forall|i: int, j: int|
        0 <= i < j < todos.len() ==> (#[trigger] todos[i]).id != (#[trigger] todos[j]).id
}

/// What holds of the tasks of a well-formed list, whatever its counter:
/// every task is consistent, and the identifiers are positive and pairwise
/// distinct.
pub open spec fn tasks_wf(todos: Seq<Todo>) -> bool {
    &&& distinct_ids(todos)
    &&& forall|i: int|
        0 <= i < todos.len() ==> (#[trigger] todos[i]).wf() && 1 <= todos[i].id
}

/// A list that holds an identifier holds it at a first position.
pub proof fn lemma_first_index(todos: Seq<Todo>, id: usize)
    requires
        has_id(todos, id),
    ensures
        first_at(todos, id, first_index(todos, id)),
    decreases todos.len(),
{
    let k = choose|i: int| 0 <= i < todos.len() && (#[trigger] todos[i]).id == id;
    if exists|j: int| 0 <= j < k && (#[trigger] todos[j]).id == id {
        let shorter = todos.take(k);
        let j = choose|j: int| 0 <= j < k && (#[trigger] todos[j]).id == id;
        assert(shorter[j].id == id);
        lemma_first_index(shorter, id);
        let f = first_index(shorter, id);
        assert(todos[f] == shorter[f]);
        assert forall|m: int| 0 <= m < f implies (#[trigger] todos[m]).id != id by {
            assert(shorter[m].id != id);
        }
        assert(first_at(todos, id, f));
    } else {
        assert(first_at(todos, id, k));
    }
}

/// There is only one first position.
pub proof fn lemma_first_at_unique(todos: Seq<Todo>, id: usize, i: int)
    requires
        first_at(todos, id, i),
    ensures
        has_id(todos, id),
        first_index(todos, id) == i,
{
    let f = first_index(todos, id);
    assert(first_at(todos, id, f));
    if f < i {
        assert(todos[f].id != id);
    }
    if i < f {
        assert(todos[i].id != id);
    }
}

/// The tasks of `todos` whose `completed` flag is `completed`, in the order
/// in which they stand in `todos`.
pub open spec fn with_status(todos: Seq<Todo>, completed: bool) -> Seq<Todo> {
    todos.filter(|todo: Todo| todo.completed == completed)
}

/// The tasks that a listing shows: the pending ones where `pending` is set,
/// else the completed ones where `completed` is set, else all of them.
pub open spec fn selection(todos: Seq<Todo>, pending: bool, completed: bool) -> Seq<Todo> {
    if pending {
        with_status(todos, false)
    } else if completed {
        with_status(todos, true)
    } else {
        todos
    }
}

/// The tasks that a sequence of references points to.
pub open spec fn values_of(refs: Seq<&Todo>) -> Seq<Todo> {
    refs.map_values(|todo: &Todo| *todo)
}

/// What a `TodoList` holds: its tasks in the order in which they came, and
/// the identifier that the next task gets.
pub struct ListState {
    pub todos: Seq<Todo>,
    pub next_id: usize,
}

impl ListState {
    /// Every task is consistent, the identifiers are positive, pairwise
    /// distinct and below `next_id`.
    pub open spec fn wf(self) -> bool {
        &&& 1 <= self.next_id
        &&& tasks_wf(self.todos)
        &&& forall|i: int| 0 <= i < self.todos.len() ==> (#[trigger] self.todos[i]).id < self.next_id
    }

    /// The state after a task with the given text, created at `at`, came in.
    pub open spec fn added(self, title: String, at: Timestamp) -> ListState {
        ListState {
            todos: self.todos.push(Todo::fresh(self.next_id, title, at)),
            next_id: (self.next_id + 1) as usize,
        }
    }

    /// The state after the first task with the identifier `id` left; the
    /// same state where there is none.
    pub open spec fn removed(self, id: usize) -> ListState {
        if has_id(self.todos, id) {
            ListState { todos: self.todos.remove(first_index(self.todos, id)), ..self }
        } else {
            self
        }
    }

    /// The state after the first task with the identifier `id` was replaced
    /// by `todo`; the same state where there is none.
    pub open spec fn replaced(self, id: usize, todo: Todo) -> ListState {
        if has_id(self.todos, id) {
            ListState { todos: self.todos.update(first_index(self.todos, id), todo), ..self }
        } else {
            self
        }
    }

    /// The state after the first task with the identifier `id` was completed
    /// at `at`.
    pub open spec fn completed(self, id: usize, at: Timestamp) -> ListState {
        self.replaced(id, self.todos[first_index(self.todos, id)].done_at(at))
    }

    /// The state after the first task with the identifier `id` was made
    /// pending.
    pub open spec fn uncompleted(self, id: usize) -> ListState {
        self.replaced(id, self.todos[first_index(self.todos, id)].reopened())
    }
}

/// Putting a consistent task with the same identifier in the place of a
/// task keeps a list well-formed.
pub proof fn lemma_replaced_wf(state: ListState, id: usize, todo: Todo)
    requires
        state.wf(),
        todo.wf(),
        todo.id == id,
    ensures
        state.replaced(id, todo).wf(),
{
    if has_id(state.todos, id) {
        lemma_first_index(state.todos, id);
        let at = first_index(state.todos, id);
        let after = state.replaced(id, todo);
        assert forall|i: int| 0 <= i < after.todos.len() implies {
            &&& (#[trigger] after.todos[i]).wf()
            &&& 1 <= after.todos[i].id < after.next_id
        } by {
            assert(after.todos[i].id == state.todos[i].id);
            assert(state.todos[i].wf());
            assert(state.todos[i].id < state.next_id);
        }
        assert forall|i: int, j: int| 0 <= i < j < after.todos.len() implies (
        #[trigger] after.todos[i]).id != (#[trigger] after.todos[j]).id by {
            assert(after.todos[i].id == state.todos[i].id);
            assert(after.todos[j].id == state.todos[j].id);
        }
    }
}

/// The tasks of one store, with the counter that numbers them.
#[derive(Debug)]
pub struct TodoList {
    pub todos: Vec<Todo>,
    pub next_id: usize,
}

impl View for TodoList {
    type V = ListState;

    open spec fn view(&self) -> ListState {
        ListState { todos: self.todos@, next_id: self.next_id }
    }
}

impl TodoList {
    /// The list's invariant: see `ListState::wf`.
    pub open spec fn wf(self) -> bool {
        self@.wf()
    }

    /// The position of the first task with the identifier `id`.
    fn position(&self, id: usize) -> (found: Option<usize>)
        ensures
            found is Some <==> has_id(self.todos@, id),
            found matches Some(i) ==> first_at(self.todos@, id, i as int) && i as int
                == first_index(self.todos@, id),
    {
        let mut i: usize = 0;
        while i < self.todos.len()
            invariant
                i <= self.todos.len(),
                forall|j: int| 0 <= j < i ==> (#[trigger] self.todos@[j]).id != id,
            decreases self.todos.len() - i,
        {
            if self.todos[i].id == id {
                proof {
                    lemma_first_at_unique(self.todos@, id, i as int);
                }
                return Some(i);
            }
            i += 1;
        }
        None
    }

    /// An empty list whose first task will get the identifier 1.
    pub fn new() -> (list: TodoList)
        ensures
            list@.todos == Seq::<Todo>::empty(),
            list@.next_id == 1,
            list.wf(),
    {
        TodoList { todos: Vec::new(), next_id: 1 }
    }

    /// Appends a pending task created at `at`, numbered with the counter,
    /// and moves the counter on by one.
    pub fn add_todo_at(&mut self, title: String, at: Timestamp) -> (todo: &Todo)
        requires
            old(self).next_id < usize::MAX,
        ensures
            *todo == Todo::fresh(old(self).next_id, title, at),
            final(self)@ == old(self)@.added(title, at),
            old(self).wf() ==> final(self).wf(),
    {
        let todo = Todo::new_at(self.next_id, title, at);
        self.next_id += 1;
        self.todos.push(todo);
        let last = self.todos.len() - 1;
        &self.todos[last]
    }

    /// Appends a pending task created now. The creation time is whatever the
    /// clock gives; everything else is fixed.
    pub fn add_todo(&mut self, title: String) -> (todo: &Todo)
        requires
            old(self).next_id < usize::MAX,
        ensures
            *todo == Todo::fresh(old(self).next_id, title, todo.created_at),
            final(self)@ == old(self)@.added(title, todo.created_at),
            old(self).wf() ==> final(self).wf(),
    {
        self.add_todo_at(title, Timestamp::now())
    }

    /// The first task with the identifier `id`.
    pub fn get_todo(&self, id: usize) -> (found: Option<&Todo>)
        ensures
            found is Some <==> has_id(self@.todos, id),
            found matches Some(todo) ==> *todo == self@.todos[first_index(self@.todos, id)],
    {
        match self.position(id) {
            Some(i) => Some(&self.todos[i]),
            None => None,
        }
    }

    /// The first task with the identifier `id`, to be changed in place. What
    /// the caller leaves in it is what the list then holds at that position.
    pub fn get_todo_mut(&mut self, id: usize) -> (found: Option<&mut Todo>)
        ensures
            found is Some <==> has_id(old(self)@.todos, id),
            found matches Some(todo) ==> {
                &&& *todo == old(self)@.todos[first_index(old(self)@.todos, id)]
                &&& final(self)@ == old(self)@.replaced(id, *final(todo))
            },
            found is None ==> *final(self) == *old(self),
    {
        match self.position(id) {
            Some(i) => Some(&mut self.todos[i]),
            None => None,
        }
    }

    /// Takes the first task with the identifier `id` out of the list and
    /// returns it. The other tasks keep their order and the counter stays.
    pub fn remove_todo(&mut self, id: usize) -> (removed: Option<Todo>)
        ensures
            removed is Some <==> has_id(old(self)@.todos, id),
            removed matches Some(todo) ==> todo == old(self)@.todos[first_index(
                old(self)@.todos,
                id,
            )],
            final(self)@ == old(self)@.removed(id),
            removed is None ==> *final(self) == *old(self),
            old(self).wf() ==> final(self).wf(),
    {
        match self.position(id) {
            Some(i) => Some(self.todos.remove(i)),
            None => None,
        }
    }

    /// Completes the first task with the identifier `id` at the instant
    /// `at`. A task that was completed before gets the new completion time.
    pub fn complete_at(&mut self, id: usize, at: Timestamp) -> (done: Result<(), TodoError>)
        ensures
            done is Ok <==> has_id(old(self)@.todos, id),
            done is Ok ==> final(self)@ == old(self)@.completed(id, at),
            done is Err ==> done == Err::<(), TodoError>(TodoError::NotFound) && *final(self)
                == *old(self),
            old(self).wf() ==> final(self).wf(),
    {
        let done = match self.get_todo_mut(id) {
            Some(todo) => {
                todo.complete_at(at);
                Ok(())
            },
            None => Err(TodoError::NotFound),
        };
        proof {
            if old(self).wf() && has_id(old(self)@.todos, id) {
                lemma_first_index(old(self)@.todos, id);
                let before = old(self)@.todos[first_index(old(self)@.todos, id)];
                lemma_replaced_wf(old(self)@, id, before.done_at(at));
            }
        }
        done
    }

    /// Completes the first task with the identifier `id` now. The completion
    /// time is whatever the clock gives; everything else is fixed.
    pub fn complete(&mut self, id: usize) -> (done: Result<(), TodoError>)
        ensures
            done is Ok <==> has_id(old(self)@.todos, id),
            done is Ok ==> {
                let at = final(self)@.todos[first_index(old(self)@.todos, id)].completed_at;
                at is Some && final(self)@ == old(self)@.completed(id, at->0)
            },
            done is Err ==> done == Err::<(), TodoError>(TodoError::NotFound) && *final(self)
                == *old(self),
            old(self).wf() ==> final(self).wf(),
    {
        let done = self.complete_at(id, Timestamp::now());
        proof {
            if has_id(old(self)@.todos, id) {
                lemma_first_index(old(self)@.todos, id);
            }
        }
        done
    }

    /// Makes the first task with the identifier `id` pending and drops its
    /// completion time.
    pub fn uncomplete(&mut self, id: usize) -> (done: Result<(), TodoError>)
        ensures
            done is Ok <==> has_id(old(self)@.todos, id),
            done is Ok ==> final(self)@ == old(self)@.uncompleted(id),
            done is Err ==> done == Err::<(), TodoError>(TodoError::NotFound) && *final(self)
                == *old(self),
            old(self).wf() ==> final(self).wf(),
    {
        let done = match self.get_todo_mut(id) {
            Some(todo) => {
                todo.uncomplete();
                Ok(())
            },
            None => Err(TodoError::NotFound),
        };
        proof {
            if old(self).wf() && has_id(old(self)@.todos, id) {
                lemma_first_index(old(self)@.todos, id);
                let before = old(self)@.todos[first_index(old(self)@.todos, id)];
                lemma_replaced_wf(old(self)@, id, before.reopened());
            }
        }
        done
    }

    /// All tasks, in the order in which they came.
    pub fn list_todos(&self) -> (todos: &Vec<Todo>)
        ensures
            todos@ == self@.todos,
    {
        &self.todos
    }

    /// The tasks whose `completed` flag is `completed`, in list order.
    fn list_with_status(&self, completed: bool) -> (found: Vec<&Todo>)
        ensures
            values_of(found@) == with_status(self@.todos, completed),
    {
        let mut found: Vec<&Todo> = Vec::new();
        let mut i: usize = 0;
        assert(self.todos@.take(0) =~= Seq::<Todo>::empty());
        assert(values_of(found@) =~= with_status(self.todos@.take(0), completed)) by {
            reveal(Seq::filter);
        }
        while i < self.todos.len()
            invariant
                i <= self.todos.len(),
                values_of(found@) == with_status(self.todos@.take(i as int), completed),
            decreases self.todos.len() - i,
        {
            let todo = &self.todos[i];
            proof {
                let seen = self.todos@.take(i as int);
                assert(self.todos@.take(i + 1) =~= seen.push(*todo));
                seen.lemma_filter_push(*todo, |todo: Todo| todo.completed == completed);
                assert(values_of(found@.push(todo)) =~= values_of(found@).push(*todo));
            }
            if todo.completed == completed {
                found.push(todo);
            }
            i += 1;
        }
        assert(self.todos@.take(i as int) =~= self.todos@);
        found
    }

    /// References to all tasks, in list order.
    fn list_refs(&self) -> (all: Vec<&Todo>)
        ensures
            values_of(all@) == self@.todos,
    {
        let mut all: Vec<&Todo> = Vec::new();
        let mut i: usize = 0;
        while i < self.todos.len()
            invariant
                i <= self.todos.len(),
                values_of(all@) =~= self.todos@.take(i as int),
            decreases self.todos.len() - i,
        {
            let todo = &self.todos[i];
            proof {
                assert(self.todos@.take(i + 1) =~= self.todos@.take(i as int).push(*todo));
                assert(values_of(all@.push(todo)) =~= values_of(all@).push(*todo));
            }
            all.push(todo);
            i += 1;
        }
        assert(self.todos@.take(i as int) =~= self.todos@);
        all
    }

    /// The tasks that a listing with the two flags shows, in list order:
    /// `pending` wins over `completed`, and with neither every task is shown.
    pub fn select(&self, pending: bool, completed: bool) -> (shown: Vec<&Todo>)
        ensures
            values_of(shown@) == selection(self@.todos, pending, completed),
    {
        if pending {
            self.list_pending()
        } else if completed {
            self.list_completed()
        } else {
            self.list_refs()
        }
    }

    /// The tasks that are not completed, in list order.
    pub fn list_pending(&self) -> (pending: Vec<&Todo>)
        ensures
            values_of(pending@) == with_status(self@.todos, false),
    {
        self.list_with_status(false)
    }

    /// The completed tasks, in list order.
    pub fn list_completed(&self) -> (completed: Vec<&Todo>)
        ensures
            values_of(completed@) == with_status(self@.todos, true),
    {
        self.list_with_status(true)
    }
}

} // verus!
