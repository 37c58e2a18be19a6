//! Byte spans of source text.

use vstd::prelude::*;

verus! {

/// A byte span of the source file: `start` inclusive, `end` exclusive.
#[derive(Clone, Copy, Debug, PartialEq, Eq, Structural)]
pub struct Pos {
    pub start: usize,
    pub end: usize,
}

/// The smallest span that covers both spans.
pub open spec fn merge_spec(a: Pos, b: Pos) -> Pos {
    Pos {
        start: if a.start <= b.start { a.start } else { b.start },
        end: if a.end >= b.end { a.end } else { b.end },
    }
}

impl Pos {
    pub fn new(start: usize, end: usize) -> (r: Pos)
        ensures
            r == (Pos { start, end }),
    {
        Pos { start, end }
    }

    /// The smallest span that covers both `a` and `b`.
    pub fn merge(a: &Pos, b: &Pos) -> (r: Pos)
        ensures
            r == merge_spec(*a, *b),
    {
        Pos {
            start: if a.start <= b.start { a.start } else { b.start },
            end: if a.end >= b.end { a.end } else { b.end },
        }
    }
}

} // verus!
