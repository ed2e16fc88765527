use vstd::prelude::*;
use vstd::string::StringExecFns;

verus! {

/// The parts, in order, with one space between each two.
pub open spec fn joined_with_spaces(parts: Seq<Seq<char>>) -> Seq<char>
    decreases parts.len(),
{
    if parts.len() == 0 {
        Seq::empty()
    } else if parts.len() == 1 {
        parts[0]
    } else {
        joined_with_spaces(parts.drop_last()) + " "@ + parts.last()
    }
}

/// How a console argument is turned into text: objects and arrays in their
/// JSON form, anything else by the default string conversion.
#[derive(Debug, Clone, Copy, PartialEq, Eq, Structural)]
pub enum ConsoleForm {
    Json,
    Plain,
}

/// The form in which an argument is written.
pub fn console_form(is_object: bool, is_array: bool) -> (r: ConsoleForm)
    ensures
        r == (if is_object || is_array {
            ConsoleForm::Json
        } else {
            ConsoleForm::Plain
        }),
{
    if is_object || is_array {
        ConsoleForm::Json
    } else {
        ConsoleForm::Plain
    }
}

/// The text of one argument: what its conversion gave, or nothing if the
/// conversion failed.
pub open spec fn part_text(part: Option<String>) -> Seq<char> {
    match part {
        Some(t) => t@,
        None => Seq::empty(),
    }
}

/// The text of each argument.
pub open spec fn part_texts(parts: Seq<Option<String>>) -> Seq<Seq<char>> {
    parts.map_values(|p: Option<String>| part_text(p))
}

/// The line that `console.log` and `console.error` write: the text of each
/// argument, as its conversion gave it (empty where it failed), with one
/// space between each two.
pub fn to_console_string(parts: &Vec<Option<String>>) -> (r: String)
    ensures
        r@ == joined_with_spaces(part_texts(parts@)),
{
    let mut line = String::new();
    let mut i: usize = 0;
    proof {
        reveal_strlit(" ");
    }
    while i < parts.len()
        invariant
            0 <= i <= parts@.len(),
            line@ == joined_with_spaces(part_texts(parts@).take(i as int)),
        decreases parts@.len() - i,
    {
        proof {
            let t = part_texts(parts@);
            assert(t.take(i + 1).drop_last() =~= t.take(i as int));
            assert(t.take(i + 1).last() == part_text(parts@[i as int]));
        }
        if i > 0 {
            line.append(" ");
        }
        match &parts[i] {
            Some(text) => line.append(text.as_str()),
            None => {},
        }
        proof {
            let t = part_texts(parts@);
            if i == 0 {
                assert(line@ =~= joined_with_spaces(t.take(1)));
            } else {
                assert(line@ =~= joined_with_spaces(t.take(i + 1)));
            }
        }
        i = i + 1;
    }
    assert(part_texts(parts@).take(i as int) =~= part_texts(parts@));
    line
}

} // verus!
