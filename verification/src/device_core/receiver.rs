use vstd::prelude::*;

use crate::text::{chars_of, string_from_chars, trim_chars, trimmed};

verus! {

/// Takes the lines that phones send over TCP.
#[derive(Debug)]
pub struct MessageReceiver;

/// What a received line hands on: the line without surrounding white space,
/// unless nothing is left.
pub open spec fn framed_line(line: Seq<char>) -> Option<Seq<char>> {
    if trimmed(line).len() == 0 {
        None
    } else {
        Some(trimmed(line))
    }
}

/// The line to hand on for a received line, if any.
pub fn frame_line(line: &str) -> (r: Option<String>)
    ensures
        match r {
            Some(s) => framed_line(line@) == Some(s@),
            None => framed_line(line@) is None,
        },
{
    let cs = chars_of(line);
    let t = trim_chars(&cs);
    if t.len() == 0 {
        None
    } else {
        Some(string_from_chars(&t))
    }
}

} // verus!
