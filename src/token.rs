//! The tokens that the scanner hands to the extractor.

use vstd::prelude::*;
use crate::pos::Pos;

verus! {

/// The kinds of token that the extractor tells apart; every other kind is
/// `Other`.
#[derive(Clone, Copy, Debug, PartialEq, Eq, Structural)]
pub enum TokenKind {
    Name,
    Variable,
    XHPClassName,
    String,
    Int,
    Float,
    Double,
    Num,
    Bool,
    Boolean,
    Void,
    Backslash,
    LessThan,
    GreaterThan,
    As,
    Super,
    Async,
    Function,
    Yield,
    Namespace,
    LeftBrace,
    Semicolon,
    Other,
}

/// A token: its kind, its text without trivia, and the byte span of that text.
#[derive(Debug)]
pub struct Token {
    pub kind: TokenKind,
    pub text: String,
    pub start: usize,
    pub end: usize,
}

impl Token {
    pub fn new(kind: TokenKind, text: String, start: usize, end: usize) -> (r: Token)
        ensures
            r.kind == kind,
            r.text@ == text@,
            r.start == start,
            r.end == end,
    {
        Token { kind, text, start, end }
    }
}

pub open spec fn token_pos(t: Token) -> Pos {
    Pos { start: t.start, end: t.end }
}

} // verus!
