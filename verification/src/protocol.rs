//! The decoder for the lines that the interpreter writes.
//!
//! A line is classified by its prefix: `clicked`, `cb1b`, `cb1`, `exit`.
//! Whatever fits none of them, or fits one and lacks a part, decodes to
//! [`DecodedEvent::Unrecognized`].

use crate::chars::{
    chars_of, position_of, same_chars, starts_with, string_of, trim, trim_chars,
};
use vstd::prelude::*;
use vstd::string::*;

verus! {

/// What a line of the interpreter says.
#[derive(Debug)]
pub enum DecodedEvent {
    /// The widget of the given identifier was clicked.
    WidgetClicked(String),
    /// The widget of the given identifier changed to the given state.
    BooleanChanged(String, bool),
    /// The widget of the given identifier changed to the value that the
    /// text writes.
    NumericChanged(String, String),
    /// A font was chosen; the text describes it.
    FontChosen(String),
    /// The window's close button was pressed.
    Exit,
    /// The line says nothing that the bridge knows.
    Unrecognized,
}

/// A decoded event as contracts see it.
pub enum EventView {
    WidgetClicked(Seq<char>),
    BooleanChanged(Seq<char>, bool),
    NumericChanged(Seq<char>, Seq<char>),
    FontChosen(Seq<char>),
    Exit,
    Unrecognized,
}

impl View for DecodedEvent {
    type V = EventView;

    open spec fn view(&self) -> EventView {
        match self {
            DecodedEvent::WidgetClicked(id) => EventView::WidgetClicked(id@),
            DecodedEvent::BooleanChanged(id, on) => EventView::BooleanChanged(id@, *on),
            DecodedEvent::NumericChanged(id, value) => EventView::NumericChanged(id@, value@),
            DecodedEvent::FontChosen(value) => EventView::FontChosen(value@),
            DecodedEvent::Exit => EventView::Exit,
            DecodedEvent::Unrecognized => EventView::Unrecognized,
        }
    }
}

/// What follows the `k`-th occurrence of `sep` in `s`, counted from 1;
/// `s` itself for `k` 0, and `None` where `sep` occurs fewer times.
pub open spec fn after(s: Seq<char>, sep: char, k: nat) -> Option<Seq<char>>
    decreases k,
{
    if k == 0 {
        Some(s)
    } else {
        match s.index_of_first(sep) {
            Some(i) => after(s.skip(i + 1), sep, (k - 1) as nat),
            None => None,
        }
    }
}

/// `s` up to its first `sep`, or all of it where it holds none.
pub open spec fn up_to(s: Seq<char>, sep: char) -> Seq<char> {
    match s.index_of_first(sep) {
        Some(i) => s.take(i),
        None => s,
    }
}

/// The `k`-th field of `s`, counted from 0, where `sep` parts the fields.
pub open spec fn field(s: Seq<char>, sep: char, k: nat) -> Option<Seq<char>> {
    match after(s, sep, k) {
        Some(rest) => Some(up_to(rest, sep)),
        None => None,
    }
}

/// What the line `clicked?<id>\n...` says: the identifier stands between
/// the eighth character and the first line feed.
pub open spec fn decode_clicked(line: Seq<char>) -> EventView {
    match line.index_of_first('\n') {
        Some(n) => if n >= 8 {
            EventView::WidgetClicked(line.subrange(8, n))
        } else {
            EventView::Unrecognized
        },
        None => EventView::Unrecognized,
    }
}

/// What the line `cb1b-<id>-<0|1>` says: the state is on for `1` and off
/// for anything else.
pub open spec fn decode_boolean(line: Seq<char>) -> EventView {
    match (field(line, '-', 1), field(line, '-', 2)) {
        (Some(id), Some(state)) => EventView::BooleanChanged(trim(id), trim(state) == "1"@),
        _ => EventView::Unrecognized,
    }
}

/// What the line `cb1?-<id>[-<value>]` says: the value is all that
/// follows the second hyphen, and empty without one.
pub open spec fn decode_value(line: Seq<char>) -> EventView {
    match field(line, '-', 1) {
        Some(id) => EventView::NumericChanged(
            trim(id),
            match after(line, '-', 2) {
                Some(value) => trim(value),
                None => ""@,
            },
        ),
        None => EventView::Unrecognized,
    }
}

/// What a line of the interpreter says.
pub open spec fn decode(line: Seq<char>) -> EventView {
    if "clicked"@.is_prefix_of(line) {
        decode_clicked(line)
    } else if "cb1b"@.is_prefix_of(line) {
        decode_boolean(line)
    } else if "cb1"@.is_prefix_of(line) {
        decode_value(line)
    } else if "exit"@.is_prefix_of(line) {
        EventView::Exit
    } else {
        EventView::Unrecognized
    }
}

/// The logical event that the loop hands on: the identifier for a click
/// or a value, the identifier with `-cbsep-` and `true` or `false` for a
/// state, `Quit` for the exit, and nothing for the rest.
pub open spec fn logical_event(event: EventView) -> Option<Seq<char>> {
    match event {
        EventView::WidgetClicked(id) => Some(id),
        EventView::BooleanChanged(id, on) => Some(
            id + "-cbsep-"@ + (if on {
                "true"@
            } else {
                "false"@
            }),
        ),
        EventView::NumericChanged(id, value) => Some(id),
        EventView::Exit => Some("Quit"@),
        EventView::FontChosen(value) => None,
        EventView::Unrecognized => None,
    }
}

fn after_chars(s: &[char], sep: char, k: usize) -> (r: Option<&[char]>)
    ensures
        r is Some <==> after(s@, sep, k as nat) is Some,
        r matches Some(rest) ==> after(s@, sep, k as nat) == Some(rest@),
{
    let mut rest: &[char] = s;
    let mut done: usize = 0;
    while done < k
        invariant
            done <= k,
            after(s@, sep, k as nat) == after(rest@, sep, (k - done) as nat),
        decreases k - done,
    {
        match position_of(rest, sep) {
            Some(i) => {
                let ghost old_rest = rest@;
                rest = &rest[i + 1..rest.len()];
                assert(rest@ == old_rest.skip(i + 1));
            },
            None => {
                return None;
            },
        }
        done += 1;
    }
    Some(rest)
}

fn up_to_chars(s: &[char], sep: char) -> (r: &[char])
    ensures
        r@ == up_to(s@, sep),
{
    match position_of(s, sep) {
        Some(i) => {
            let r = &s[0..i];
            assert(r@ == s@.take(i as int));
            r
        },
        None => s,
    }
}

fn field_chars(s: &[char], sep: char, k: usize) -> (r: Option<&[char]>)
    ensures
        r is Some <==> field(s@, sep, k as nat) is Some,
        r matches Some(part) ==> field(s@, sep, k as nat) == Some(part@),
{
    match after_chars(s, sep, k) {
        Some(rest) => Some(up_to_chars(rest, sep)),
        None => None,
    }
}

fn decode_clicked_chars(line: &[char]) -> (r: DecodedEvent)
    ensures
        r@ == decode_clicked(line@),
{
    match position_of(line, '\n') {
        Some(n) => {
            if n >= 8 {
                DecodedEvent::WidgetClicked(string_of(&line[8..n]))
            } else {
                DecodedEvent::Unrecognized
            }
        },
        None => DecodedEvent::Unrecognized,
    }
}

fn decode_boolean_chars(line: &[char]) -> (r: DecodedEvent)
    ensures
        r@ == decode_boolean(line@),
{
    match field_chars(line, '-', 1) {
        Some(id) => match field_chars(line, '-', 2) {
            Some(state) => {
                let one = chars_of("1");
                let on = same_chars(trim_chars(state), one.as_slice());
                DecodedEvent::BooleanChanged(string_of(trim_chars(id)), on)
            },
            None => DecodedEvent::Unrecognized,
        },
        None => DecodedEvent::Unrecognized,
    }
}

fn decode_value_chars(line: &[char]) -> (r: DecodedEvent)
    ensures
        r@ == decode_value(line@),
{
    match field_chars(line, '-', 1) {
        Some(id) => {
            let value = match after_chars(line, '-', 2) {
                Some(rest) => string_of(trim_chars(rest)),
                None => String::from_str(""),
            };
            DecodedEvent::NumericChanged(string_of(trim_chars(id)), value)
        },
        None => DecodedEvent::Unrecognized,
    }
}

/// Decodes one line of the interpreter.
pub fn decode_line(line: &str) -> (r: DecodedEvent)
    ensures
        r@ == decode(line@),
{
    let chars = chars_of(line);
    let s = chars.as_slice();
    if starts_with(s, chars_of("clicked").as_slice()) {
        decode_clicked_chars(s)
    } else if starts_with(s, chars_of("cb1b").as_slice()) {
        decode_boolean_chars(s)
    } else if starts_with(s, chars_of("cb1").as_slice()) {
        decode_value_chars(s)
    } else if starts_with(s, chars_of("exit").as_slice()) {
        DecodedEvent::Exit
    } else {
        DecodedEvent::Unrecognized
    }
}

/// The logical event that the loop hands on for a decoded event.
pub fn event_id(event: DecodedEvent) -> (r: Option<String>)
    ensures
        r is Some <==> logical_event(event@) is Some,
        r matches Some(id) ==> logical_event(event@) == Some(id@),
{
    match event {
        DecodedEvent::WidgetClicked(id) => Some(id),
        DecodedEvent::BooleanChanged(id, on) => {
            let mut r = id;
            r.append("-cbsep-");
            if on {
                r.append("true");
            } else {
                r.append("false");
            }
            Some(r)
        },
        DecodedEvent::NumericChanged(id, value) => Some(id),
        DecodedEvent::Exit => Some(String::from_str("Quit")),
        DecodedEvent::FontChosen(value) => None,
        DecodedEvent::Unrecognized => None,
    }
}

} // verus!
