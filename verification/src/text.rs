//! Small helpers for texts that may be absent.

use vstd::prelude::*;

verus! {

/// An optional text as the contracts see it.
pub open spec fn opt_view(text: Option<String>) -> Option<Seq<char>> {
    match text {
        Some(t) => Some(t@),
        None => None,
    }
}

/// The text, or the empty text where none is given.
pub open spec fn or_empty(text: Option<String>) -> Seq<char> {
    match text {
        Some(t) => t@,
        None => Seq::empty(),
    }
}

/// The text that an update means to set: a text that is not given, or is
/// given empty, means "leave alone".
pub open spec fn meant_text(text: Option<String>) -> Option<String> {
    match text {
        Some(t) => if t@.len() > 0 {
            Some(t)
        } else {
            None
        },
        None => None,
    }
}

/// The number that an update means to set: a number that is not given, or
/// is given as zero, means "leave alone".
pub open spec fn meant_number(number: Option<i32>) -> Option<i32> {
    match number {
        Some(n) => if n != 0 {
            Some(n)
        } else {
            None
        },
        None => None,
    }
}

/// A copy of an optional text.
pub fn copy_opt(text: &Option<String>) -> (copy: Option<String>)
    ensures
        opt_view(copy) == opt_view(*text),
{
    match text {
        Some(t) => Some(t.clone()),
        None => None,
    }
}

/// The text, or the empty text where none is given.
pub fn unwrap_or_empty(text: Option<String>) -> (out: String)
    ensures
        out@ == or_empty(text),
{
    match text {
        Some(t) => t,
        None => String::new(),
    }
}

/// The text that an update means to set.
pub fn keep_text(text: Option<String>) -> (out: Option<String>)
    ensures
        out == meant_text(text),
{
    match text {
        Some(t) => if is_blank(&t) {
            None
        } else {
            Some(t)
        },
        None => None,
    }
}

/// The number that an update means to set.
pub fn keep_number(number: Option<i32>) -> (out: Option<i32>)
    ensures
        out == meant_number(number),
{
    match number {
        Some(n) => if n != 0 {
            Some(n)
        } else {
            None
        },
        None => None,
    }
}

/// Whether a text is empty.
pub fn is_blank(text: &String) -> (blank: bool)
    ensures
        blank == (text@.len() == 0),
{
    text.as_str().is_empty()
}

} // verus!
