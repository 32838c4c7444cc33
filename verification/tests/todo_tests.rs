use todo_core::clock::Timestamp;
use todo_core::todo::{Todo, TodoError, TodoList};

fn instant(secs: i64) -> Timestamp {
    Timestamp::from_unix(secs, 0).unwrap()
}

#[test]
fn test_todo_creation() {
    let todo = Todo::new(1, "Test task".to_string());
    assert_eq!(todo.id, 1);
    assert_eq!(todo.title, "Test task");
    assert!(!todo.completed);
    assert!(todo.completed_at.is_none());
}

#[test]
fn test_todo_completion() {
    let mut todo = Todo::new(1, "Test task".to_string());
    todo.complete();
    assert!(todo.completed);
    assert!(todo.completed_at.is_some());
}

#[test]
fn test_todo_list_operations() {
    let mut todo_list = TodoList::new();

    let todo1 = todo_list.add_todo("Task 1".to_string());
    assert_eq!(todo1.id, 1);
    assert_eq!(todo_list.todos.len(), 1);

    let todo2 = todo_list.add_todo("Task 2".to_string());
    assert_eq!(todo2.id, 2);
    assert_eq!(todo_list.todos.len(), 2);

    assert!(todo_list.get_todo(1).is_some());
    assert!(todo_list.get_todo(3).is_none());

    if let Some(todo) = todo_list.get_todo_mut(1) {
        todo.complete();
    }

    assert_eq!(todo_list.list_pending().len(), 1);
    assert_eq!(todo_list.list_completed().len(), 1);

    let removed = todo_list.remove_todo(1);
    assert!(removed.is_some());
    assert_eq!(todo_list.todos.len(), 1);
}

#[test]
fn new_at_sets_every_field() {
    let todo = Todo::new_at(7, "Water plants".to_string(), instant(1_700_000_000));
    assert_eq!(todo.id, 7);
    assert_eq!(todo.title, "Water plants");
    assert!(!todo.completed);
    assert_eq!(todo.created_at, instant(1_700_000_000));
    assert_eq!(todo.completed_at, None);
}

#[test]
fn new_accepts_an_empty_title() {
    let todo = Todo::new(1, String::new());
    assert_eq!(todo.title, "");
    assert!(!todo.completed);
}

#[test]
fn new_takes_its_creation_time_from_the_clock() {
    let before = Timestamp::now();
    let todo = Todo::new(1, "Test task".to_string());
    let after = Timestamp::now();
    assert!(before.secs() <= todo.created_at.secs());
    assert!(todo.created_at.secs() <= after.secs());
}

#[test]
fn complete_at_sets_flag_and_time() {
    let mut todo = Todo::new_at(1, "Test task".to_string(), instant(100));
    todo.complete_at(instant(200));
    assert!(todo.completed);
    assert_eq!(todo.completed_at, Some(instant(200)));
    assert_eq!(todo.created_at, instant(100));
    assert_eq!(todo.id, 1);
    assert_eq!(todo.title, "Test task");
}

#[test]
fn completing_again_refreshes_the_time() {
    let mut todo = Todo::new_at(1, "Test task".to_string(), instant(100));
    todo.complete_at(instant(200));
    todo.complete_at(instant(300));
    assert!(todo.completed);
    assert_eq!(todo.completed_at, Some(instant(300)));
}

#[test]
fn uncomplete_clears_flag_and_time() {
    let mut todo = Todo::new_at(1, "Test task".to_string(), instant(100));
    todo.complete_at(instant(200));
    todo.uncomplete();
    assert!(!todo.completed);
    assert_eq!(todo.completed_at, None);
    assert_eq!(todo, Todo::new_at(1, "Test task".to_string(), instant(100)));
}

#[test]
fn uncomplete_on_a_pending_task_changes_nothing() {
    let mut todo = Todo::new_at(1, "Test task".to_string(), instant(100));
    todo.uncomplete();
    assert_eq!(todo, Todo::new_at(1, "Test task".to_string(), instant(100)));
    todo.uncomplete();
    assert_eq!(todo, Todo::new_at(1, "Test task".to_string(), instant(100)));
}

#[test]
fn new_list_is_empty_and_starts_at_one() {
    let list = TodoList::new();
    assert!(list.todos.is_empty());
    assert_eq!(list.next_id, 1);
    assert!(list.list_todos().is_empty());
}

#[test]
fn add_todo_at_appends_and_counts() {
    let mut list = TodoList::new();
    let first = list.add_todo_at("Buy milk".to_string(), instant(10)).clone();
    assert_eq!(first, Todo::new_at(1, "Buy milk".to_string(), instant(10)));
    let second = list.add_todo_at("Walk dog".to_string(), instant(20)).clone();
    assert_eq!(second, Todo::new_at(2, "Walk dog".to_string(), instant(20)));
    assert_eq!(list.next_id, 3);
    assert_eq!(list.todos, vec![first, second]);
}

#[test]
fn ids_grow_and_are_never_used_again() {
    let mut list = TodoList::new();
    let a = list.add_todo("a".to_string()).id;
    let b = list.add_todo("b".to_string()).id;
    let c = list.add_todo("c".to_string()).id;
    assert_eq!((a, b, c), (1, 2, 3));
    assert!(list.remove_todo(3).is_some());
    assert!(list.remove_todo(1).is_some());
    let d = list.add_todo("d".to_string()).id;
    assert_eq!(d, 4);
    let ids: Vec<usize> = list.list_todos().iter().map(|todo| todo.id).collect();
    assert_eq!(ids, vec![2, 4]);
    assert_eq!(list.next_id, 5);
}

#[test]
fn get_todo_finds_the_task_with_the_id() {
    let mut list = TodoList::new();
    list.add_todo_at("Buy milk".to_string(), instant(10));
    list.add_todo_at("Walk dog".to_string(), instant(20));
    assert_eq!(list.get_todo(2), Some(&Todo::new_at(2, "Walk dog".to_string(), instant(20))));
    assert_eq!(list.get_todo(0), None);
    assert_eq!(list.get_todo(3), None);
}

#[test]
fn get_todo_returns_the_first_of_two_with_one_id() {
    let list = TodoList {
        todos: vec![
            Todo::new_at(4, "first".to_string(), instant(1)),
            Todo::new_at(4, "second".to_string(), instant(2)),
        ],
        next_id: 5,
    };
    assert_eq!(list.get_todo(4).unwrap().title, "first");
}

#[test]
fn get_todo_mut_changes_the_task_in_the_list() {
    let mut list = TodoList::new();
    list.add_todo_at("Buy milk".to_string(), instant(10));
    list.add_todo_at("Walk dog".to_string(), instant(20));
    list.get_todo_mut(2).unwrap().complete_at(instant(30));
    assert!(list.get_todo_mut(9).is_none());
    assert!(!list.todos[0].completed);
    assert!(list.todos[1].completed);
    assert_eq!(list.todos[1].completed_at, Some(instant(30)));
    assert_eq!(list.next_id, 3);
}

#[test]
fn remove_todo_keeps_order_and_counter() {
    let mut list = TodoList::new();
    list.add_todo_at("a".to_string(), instant(1));
    list.add_todo_at("b".to_string(), instant(2));
    list.add_todo_at("c".to_string(), instant(3));
    let removed = list.remove_todo(2);
    assert_eq!(removed, Some(Todo::new_at(2, "b".to_string(), instant(2))));
    assert_eq!(
        list.todos,
        vec![
            Todo::new_at(1, "a".to_string(), instant(1)),
            Todo::new_at(3, "c".to_string(), instant(3)),
        ]
    );
    assert_eq!(list.next_id, 4);
}

#[test]
fn remove_todo_without_the_id_changes_nothing() {
    let mut list = TodoList::new();
    list.add_todo_at("a".to_string(), instant(1));
    list.add_todo_at("b".to_string(), instant(2));
    let before = list.todos.clone();
    assert_eq!(list.remove_todo(7), None);
    assert_eq!(list.todos, before);
    assert_eq!(list.next_id, 3);
    let mut empty = TodoList::new();
    assert_eq!(empty.remove_todo(1), None);
    assert!(empty.todos.is_empty());
    assert_eq!(empty.next_id, 1);
}

#[test]
fn complete_and_uncomplete_by_id() {
    let mut list = TodoList::new();
    list.add_todo_at("a".to_string(), instant(1));
    list.add_todo_at("b".to_string(), instant(2));
    let before = list.todos.clone();
    assert_eq!(list.complete_at(1, instant(50)), Ok(()));
    assert!(list.todos[0].completed);
    assert_eq!(list.todos[0].completed_at, Some(instant(50)));
    assert_eq!(list.todos[1], before[1]);
    assert_eq!(list.uncomplete(1), Ok(()));
    assert!(!list.todos[0].completed);
    assert_eq!(list.todos[0].completed_at, None);
    assert_eq!(list.todos, before);
    assert_eq!(list.uncomplete(1), Ok(()));
    assert_eq!(list.todos, before);
    assert_eq!(list.next_id, 3);
}

#[test]
fn complete_takes_its_time_from_the_clock() {
    let mut list = TodoList::new();
    list.add_todo("a".to_string());
    assert_eq!(list.complete(1), Ok(()));
    assert!(list.todos[0].completed);
    assert!(list.todos[0].completed_at.is_some());
    assert!(list.todos[0].completed_at.unwrap().secs() >= list.todos[0].created_at.secs());
}

#[test]
fn complete_without_the_id_is_not_found() {
    let mut list = TodoList::new();
    list.add_todo_at("a".to_string(), instant(1));
    let before = list.todos.clone();
    assert_eq!(list.complete(2), Err(TodoError::NotFound));
    assert_eq!(list.complete_at(2, instant(5)), Err(TodoError::NotFound));
    assert_eq!(list.uncomplete(2), Err(TodoError::NotFound));
    assert_eq!(list.todos, before);
    assert_eq!(list.next_id, 2);
}

#[test]
fn pending_and_completed_split_the_list() {
    let mut list = TodoList::new();
    for title in ["a", "b", "c", "d", "e"] {
        list.add_todo_at(title.to_string(), instant(1));
    }
    list.complete_at(2, instant(9)).unwrap();
    list.complete_at(5, instant(9)).unwrap();
    let pending: Vec<usize> = list.list_pending().iter().map(|todo| todo.id).collect();
    let completed: Vec<usize> = list.list_completed().iter().map(|todo| todo.id).collect();
    assert_eq!(pending, vec![1, 3, 4]);
    assert_eq!(completed, vec![2, 5]);
    let mut both: Vec<usize> = pending.iter().chain(completed.iter()).copied().collect();
    both.sort();
    let all: Vec<usize> = list.list_todos().iter().map(|todo| todo.id).collect();
    assert_eq!(both, all);
    assert!(list.list_pending().iter().all(|todo| !todo.completed));
    assert!(list.list_completed().iter().all(|todo| todo.completed));
}

#[test]
fn listings_of_an_empty_list_are_empty() {
    let list = TodoList::new();
    assert!(list.list_pending().is_empty());
    assert!(list.list_completed().is_empty());
    assert!(list.select(false, false).is_empty());
}

#[test]
fn select_follows_the_flags() {
    let mut list = TodoList::new();
    list.add_todo_at("a".to_string(), instant(1));
    list.add_todo_at("b".to_string(), instant(2));
    list.add_todo_at("c".to_string(), instant(3));
    list.complete_at(2, instant(9)).unwrap();
    let ids = |shown: Vec<&Todo>| -> Vec<usize> { shown.iter().map(|todo| todo.id).collect() };
    assert_eq!(ids(list.select(false, false)), vec![1, 2, 3]);
    assert_eq!(ids(list.select(true, false)), vec![1, 3]);
    assert_eq!(ids(list.select(false, true)), vec![2]);
    assert_eq!(ids(list.select(true, true)), vec![1, 3]);
}

#[test]
fn a_session_of_adding_completing_and_removing() {
    let mut list = TodoList::new();
    let milk = list.add_todo("Buy milk".to_string()).clone();
    assert_eq!(milk.id, 1);
    assert!(!milk.completed);
    let dog = list.add_todo("Walk dog".to_string()).clone();
    assert_eq!(dog.id, 2);
    assert!(!dog.completed);

    assert_eq!(list.complete(1), Ok(()));
    let done = list.get_todo(1).unwrap();
    assert!(done.completed);
    assert!(done.completed_at.is_some());

    let pending = list.list_pending();
    assert_eq!(pending.len(), 1);
    assert_eq!(*pending[0], dog);

    let removed = list.remove_todo(1).unwrap();
    assert_eq!(removed.id, 1);
    assert_eq!(removed.title, "Buy milk");
    assert_eq!(*list.list_todos(), vec![dog]);

    let book = list.add_todo("Read book".to_string());
    assert_eq!(book.id, 3);
}
