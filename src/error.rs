use vstd::prelude::*;

verus! {

/// What went wrong while reading a literal, as the contracts speak of it.
#[derive(Clone, Copy, Debug, PartialEq, Eq, Structural)]
pub enum FaultKind {
    EmptyInput,
    Malformed,
    InvalidChar,
}

/// What the parser looked for where it failed.
#[derive(Clone, Copy, Debug, PartialEq, Eq, Structural)]
pub enum Expected {
    Index,
    Integer,
    ValueType,
    Str,
    OpenParen,
    CloseParen,
    Keyword,
    EndOfInput,
    /// Exactly one expression, as an initializer or an offset.
    SingleExpression,
    /// The start of a section entry.
    Section,
}

/// Every failure of the library.
#[derive(Clone, Debug)]
pub enum Error {
    /// A numeric literal has no digits, e.g. a sign alone.
    MalformedPattern(String),
    /// A literal's source text was empty.
    EmptyExpr,
    /// A character that the literal's grammar does not allow, at a char index.
    InvalidChar { idx: usize, string: String },
    /// The token at `pos` starts no known instruction.
    UnknownInstruction { pos: usize },
    /// The input ended while a folded instruction was still open.
    UnterminatedExpr { pos: usize },
    /// The token at `pos` is not what the grammar asks for there.
    Unexpected { pos: usize, expected: Expected },
    /// The source text could not be split into tokens.
    Lex(String),
}

/// An error as the contracts see it.
pub enum ErrorV {
    MalformedPattern(Seq<char>),
    EmptyExpr,
    InvalidChar(int, Seq<char>),
    UnknownInstruction(int),
    UnterminatedExpr(int),
    Unexpected(int, Expected),
    Lex,
}

impl View for Error {
    type V = ErrorV;

    open spec fn view(&self) -> ErrorV {
        match self {
            Error::MalformedPattern(s) => ErrorV::MalformedPattern(s@),
            Error::EmptyExpr => ErrorV::EmptyExpr,
            Error::InvalidChar { idx, string } => ErrorV::InvalidChar(*idx as int, string@),
            Error::UnknownInstruction { pos } => ErrorV::UnknownInstruction(*pos as int),
            Error::UnterminatedExpr { pos } => ErrorV::UnterminatedExpr(*pos as int),
            Error::Unexpected { pos, expected } => ErrorV::Unexpected(*pos as int, *expected),
            Error::Lex(_) => ErrorV::Lex,
        }
    }
}

/// The error that a literal fault `f` on the input `s` is reported as.
pub open spec fn fault_error(f: (FaultKind, int), s: Seq<char>) -> ErrorV {
    match f.0 {
        FaultKind::EmptyInput => ErrorV::EmptyExpr,
        FaultKind::Malformed => ErrorV::MalformedPattern(s),
        FaultKind::InvalidChar => ErrorV::InvalidChar(f.1, s),
    }
}

impl Error {
    /// The error stands for the literal fault `f` on the input `s`.
    pub open spec fn is_fault(&self, f: (FaultKind, int), s: Seq<char>) -> bool {
        self@ == fault_error(f, s)
    }
}

/// An exec result of a parse step agrees with its spec: the same value and
/// next position on success, the same error on failure.
pub open spec fn agrees<T: View>(r: Result<(T, usize), Error>, s: Result<(T::V, int), ErrorV>) -> bool {
    match s {
        Ok(v) => r is Ok && r->Ok_0.0@ == v.0 && r->Ok_0.1 == v.1,
        Err(e) => r is Err && r->Err_0@ == e,
    }
}

} // verus!
