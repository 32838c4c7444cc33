use crate::clock::{rfc3339_text, Timestamp};
use crate::todo::{Todo, TodoList};
use vstd::prelude::*;

verus! {

/// The character that stands for the digit `d`.
pub open spec fn digit(d: nat) -> char {
    if d == 0 {
        '0'
    } else if d == 1 {
        '1'
    } else if d == 2 {
        '2'
    } else if d == 3 {
        '3'
    } else if d == 4 {
        '4'
    } else if d == 5 {
        '5'
    } else if d == 6 {
        '6'
    } else if d == 7 {
        '7'
    } else if d == 8 {
        '8'
    } else {
        '9'
    }
}

/// The number `n` in decimal digits, without leading zeros.
pub open spec fn decimal(n: nat) -> Seq<char>
    decreases n,
{
    if n < 10 {
        seq![digit(n)]
    } else {
        decimal(n / 10).push(digit(n % 10))
    }
}

/// The word for a flag: `true` or `false`.
pub open spec fn flag(b: bool) -> Seq<char> {
    if b {
        "true"@
    } else {
        "false"@
    }
}

/// The text for a time that may be absent: RFC 3339 where it is there, and
/// nothing where it is not.
pub open spec fn time_or_nothing(at: Option<Timestamp>) -> Seq<char> {
    match at {
        Some(at) => rfc3339_text(at.secs(), at.nanos()),
        None => Seq::empty(),
    }
}

/// The five text fields that stand for a task in an export: identifier,
/// title, completion flag, creation time and completion time.
pub open spec fn record(todo: Todo) -> Seq<Seq<char>> {
    seq![
        decimal(todo.id as nat),
        todo.title@,
        flag(todo.completed),
        rfc3339_text(todo.created_at.secs(), todo.created_at.nanos()),
        time_or_nothing(todo.completed_at),
    ]
}

/// The column titles of an export.
pub open spec fn header() -> Seq<Seq<char>> {
    seq!["ID"@, "Title"@, "completed"@, "created_at"@, "Completed At"@]
}

/// The text of one digit.
fn digit_text(d: usize) -> (text: &'static str)
    requires
        d < 10,
    ensures
        text@ == seq![digit(d as nat)],
{
    proof {
        reveal_strlit("0");
        reveal_strlit("1");
        reveal_strlit("2");
        reveal_strlit("3");
        reveal_strlit("4");
        reveal_strlit("5");
        reveal_strlit("6");
        reveal_strlit("7");
        reveal_strlit("8");
        reveal_strlit("9");
    }
    let text = if d == 0 {
        "0"
    } else if d == 1 {
        "1"
    } else if d == 2 {
        "2"
    } else if d == 3 {
        "3"
    } else if d == 4 {
        "4"
    } else if d == 5 {
        "5"
    } else if d == 6 {
        "6"
    } else if d == 7 {
        "7"
    } else if d == 8 {
        "8"
    } else {
        "9"
    };
    assert(text@ =~= seq![digit(d as nat)]);
    text
}

/// The number in decimal digits.
pub fn decimal_text(n: usize) -> (text: String)
    ensures
        text@ == decimal(n as nat),
    decreases n,
{
    if n < 10 {
        String::from_str(digit_text(n))
    } else {
        let mut text = decimal_text(n / 10);
        text.append(digit_text(n % 10));
        assert(text@ =~= decimal((n / 10) as nat).push(digit((n % 10) as nat)));
        text
    }
}

/// The word for a flag.
pub fn flag_text(b: bool) -> (text: String)
    ensures
        text@ == flag(b),
{
    if b {
        String::from_str("true")
    } else {
        String::from_str("false")
    }
}

/// The text fields of one task, in the order of `header`.
pub fn export_record(todo: &Todo) -> (fields: Vec<String>)
    ensures
        fields.deep_view() == record(*todo),
{
    let completed_at = match todo.completed_at {
        Some(at) => at.to_rfc3339(),
        None => String::new(),
    };
    let mut fields: Vec<String> = Vec::new();
    fields.push(decimal_text(todo.id));
    fields.push(todo.title.clone());
    fields.push(flag_text(todo.completed));
    fields.push(todo.created_at.to_rfc3339());
    fields.push(completed_at);
    assert(fields.deep_view() =~= record(*todo));
    fields
}

/// The column titles, one for each field of a record.
pub fn export_header() -> (titles: Vec<String>)
    ensures
        titles.deep_view() == header(),
{
    let mut titles: Vec<String> = Vec::new();
    titles.push(String::from_str("ID"));
    titles.push(String::from_str("Title"));
    titles.push(String::from_str("completed"));
    titles.push(String::from_str("created_at"));
    titles.push(String::from_str("Completed At"));
    assert(titles.deep_view() =~= header());
    titles
}

/// The records of all tasks, in list order.
pub fn export_records(list: &TodoList) -> (records: Vec<Vec<String>>)
    ensures
        records.deep_view() == list@.todos.map_values(|todo: Todo| record(todo)),
{
    let mut records: Vec<Vec<String>> = Vec::new();
    let mut i: usize = 0;
    while i < list.todos.len()
        invariant
            i <= list.todos.len(),
            records.len() == i,
            forall|j: int|
                0 <= j < i ==> (#[trigger] records@[j]).deep_view() == record(list.todos@[j]),
        decreases list.todos.len() - i,
    {
        records.push(export_record(&list.todos[i]));
        i += 1;
    }
    assert(records.deep_view() =~= list@.todos.map_values(|todo: Todo| record(todo)));
    records
}

} // verus!
