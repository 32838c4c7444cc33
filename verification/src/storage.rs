use crate::todo::{tasks_wf, ListState, Todo, TodoList};
use vstd::prelude::*;

verus! {

/// Whether `c` is white space as Unicode defines it (the property
/// `White_Space`), which is what `char::is_whitespace` tests.
pub open spec fn is_white_space(c: char) -> bool {
    let code = c as u32;
    ||| 0x09 <= code <= 0x0D
    ||| code == 0x20
    ||| code == 0x85
    ||| code == 0xA0
    ||| code == 0x1680
    ||| 0x2000 <= code <= 0x200A
    ||| code == 0x2028
    ||| code == 0x2029
    ||| code == 0x202F
    ||| code == 0x205F
    ||| code == 0x3000
}

/// Whether `text` holds nothing but white space.
pub open spec fn blank(text: Seq<char>) -> bool {
    forall|i: int| 0 <= i < text.len() ==> is_white_space(#[trigger] text[i])
}

/// Whether `c` is white space.
pub fn white_space(c: char) -> (white: bool)
    ensures
        white == is_white_space(c),
{
    let code = c as u32;
    (0x09 <= code && code <= 0x0D) || code == 0x20 || code == 0x85 || code == 0xA0 || code
        == 0x1680 || (0x2000 <= code && code <= 0x200A) || code == 0x2028 || code == 0x2029
        || code == 0x202F || code == 0x205F || code == 0x3000
}

/// Whether what was read from a store holds no data: nothing at all, or
/// white space only. Such a store stands for the empty list.
pub fn is_blank(contents: &str) -> (empty: bool)
    ensures
        empty == blank(contents@),
{
    let mut empty = true;
    for c in it: contents.chars()
        invariant
            it.seq() == contents@,
            empty == blank(contents@.take(it.index() as int)),
    {
        proof {
            let i = it.index() as int;
            let seen = contents@.take(i);
            let more = contents@.take(i + 1);
            assert(more[i] == c);
            if blank(seen) {
                assert forall|j: int| 0 <= j < i implies is_white_space(#[trigger] more[j]) by {
                    assert(more[j] == seen[j]);
                }
            } else {
                let j = choose|j: int| 0 <= j < seen.len() && !is_white_space(#[trigger] seen[j]);
                assert(more[j] == seen[j]);
            }
        }
        if !white_space(c) {
            empty = false;
        }
    }
    assert(contents@.take(contents@.len() as int) =~= contents@);
    empty
}

/// The largest identifier among `todos`; 0 where there is no task.
pub open spec fn max_id(todos: Seq<Todo>) -> nat
    decreases todos.len(),
{
    if todos.len() == 0 {
        0
    } else {
        let before = max_id(todos.drop_last());
        if todos.last().id > before {
            todos.last().id as nat
        } else {
            before
        }
    }
}

/// The counter that a list gets when it is read back: one more than the
/// largest identifier, held at `usize::MAX` where that would not fit.
pub open spec fn next_free_id(todos: Seq<Todo>) -> usize {
    if max_id(todos) >= usize::MAX {
        usize::MAX
    } else {
        (max_id(todos) + 1) as usize
    }
}

/// `max_id` is an upper bound of the identifiers, and one of them where
/// there is any.
pub proof fn lemma_max_id(todos: Seq<Todo>)
    ensures
        forall|i: int| 0 <= i < todos.len() ==> (#[trigger] todos[i]).id <= max_id(todos),
        todos.len() > 0 ==> exists|i: int|
            0 <= i < todos.len() && (#[trigger] todos[i]).id == max_id(todos),
        max_id(todos) <= usize::MAX,
    decreases todos.len(),
{
    if todos.len() > 0 {
        let front = todos.drop_last();
        lemma_max_id(front);
        assert forall|i: int| 0 <= i < todos.len() implies (#[trigger] todos[i]).id <= max_id(
            todos,
        ) by {
            if i < front.len() {
                assert(front[i] == todos[i]);
            }
        }
        if todos.last().id > max_id(front) || front.len() == 0 {
            assert(todos[todos.len() - 1].id == max_id(todos));
        } else {
            let i = choose|i: int| 0 <= i < front.len() && (#[trigger] front[i]).id == max_id(front);
            assert(todos[i].id == max_id(todos));
        }
    }
}

/// The counter that a list gets when it is read back is 1 for no tasks, and
/// else one more than some identifier and above all of them, unless the
/// largest identifier is the largest number there is. No smaller counter
/// makes the list well-formed.
pub proof fn lemma_next_free_id(todos: Seq<Todo>)
    ensures
        todos.len() == 0 ==> next_free_id(todos) == 1,
        todos.len() > 0 && max_id(todos) < usize::MAX ==> exists|i: int|
            0 <= i < todos.len() && (#[trigger] todos[i]).id + 1 == next_free_id(todos),
        max_id(todos) < usize::MAX ==> forall|i: int|
            0 <= i < todos.len() ==> (#[trigger] todos[i]).id < next_free_id(todos),
        tasks_wf(todos) && max_id(todos) < usize::MAX ==> (ListState {
            todos,
            next_id: next_free_id(todos),
        }).wf(),
        forall|next_id: usize|
            #![trigger (ListState { todos, next_id }).wf()]
            (ListState { todos, next_id }).wf() ==> max_id(todos) < usize::MAX && next_free_id(
                todos,
            ) <= next_id,
{
    lemma_max_id(todos);
    if todos.len() > 0 {
        let i = choose|i: int| 0 <= i < todos.len() && (#[trigger] todos[i]).id == max_id(todos);
        if max_id(todos) < usize::MAX {
            assert(todos[i].id + 1 == next_free_id(todos));
        }
        assert forall|next_id: usize|
            #![trigger (ListState { todos, next_id }).wf()]
            (ListState { todos, next_id }).wf() implies max_id(todos) < usize::MAX && next_free_id(
            todos,
        ) <= next_id by {
            assert(todos[i].id < next_id);
        }
    }
}

/// Makes a list that was read from a store ready for use: the tasks stay as
/// they are, and the counter is set from the identifiers in use, whatever
/// the store held for it. Sound tasks give a well-formed list, also where
/// the stored counter lagged behind.
pub fn restore(stored: TodoList) -> (list: TodoList)
    ensures
        list.todos == stored.todos,
        list.next_id == next_free_id(stored@.todos),
        tasks_wf(stored@.todos) && max_id(stored@.todos) < usize::MAX ==> list.wf(),
        stored.wf() ==> list.wf() && list.next_id <= stored.next_id,
{
    let mut largest: usize = 0;
    let mut i: usize = 0;
    assert(stored.todos@.take(0) =~= Seq::<Todo>::empty());
    while i < stored.todos.len()
        invariant
            i <= stored.todos.len(),
            largest == max_id(stored.todos@.take(i as int)),
        decreases stored.todos.len() - i,
    {
        proof {
            let seen = stored.todos@.take(i + 1);
            assert(seen.drop_last() =~= stored.todos@.take(i as int));
            assert(seen.last() == stored.todos@[i as int]);
        }
        if stored.todos[i].id > largest {
            largest = stored.todos[i].id;
        }
        i += 1;
    }
    assert(stored.todos@.take(i as int) =~= stored.todos@);
    let next_id = if largest == usize::MAX {
        usize::MAX
    } else {
        largest + 1
    };
    proof {
        lemma_max_id(stored.todos@);
        lemma_next_free_id(stored.todos@);
    }
    TodoList { todos: stored.todos, next_id }
}

} // verus!
