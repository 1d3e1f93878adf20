use vstd::prelude::*;

use crate::error::{agrees, fault_error, Error, ErrorV, Expected};
use crate::literal::{integer_spec, IntegerLiteral};
use crate::sexpr::{Atom, Expr, Sx};
use crate::token::{at_keyword, kind_is, keyword_is, tokens_view, Token, TokenKind};

verus! {

/// A reference to a declared entity: by number, or by `$name`.
#[derive(Clone, Debug)]
pub enum Index {
    Numeric(IntegerLiteral),
    /// The name, without the `$`.
    Symbolic(String),
}

/// An index as the contracts see it.
pub enum IndexV {
    /// The literal's source text.
    Numeric(Seq<char>),
    Symbolic(Seq<char>),
}

impl View for Index {
    type V = IndexV;

    open spec fn view(&self) -> IndexV {
        match self {
            Index::Numeric(i) => IndexV::Numeric(i@),
            Index::Symbolic(s) => IndexV::Symbolic(s@),
        }
    }
}

impl Index {
    pub open spec fn wf(&self) -> bool {
        match self {
            Index::Numeric(i) => i.wf(),
            Index::Symbolic(_) => true,
        }
    }

    /// The index as it is written: the literal, or `$` and the name.
    pub fn to_string(&self) -> (r: String)
        ensures
            r@ == index_text(self@),
    {
        match self {
            Index::Numeric(i) => i.src().clone(),
            Index::Symbolic(s) => {
                let mut r = String::new();
                let d = "$";
                proof {
                    reveal_strlit("$");
                }
                r.append(d);
                r.append(s.as_str());
                r
            },
        }
    }
}

pub open spec fn index_text(i: IndexV) -> Seq<char> {
    match i {
        IndexV::Numeric(s) => s,
        IndexV::Symbolic(n) => seq!['$'] + n,
    }
}

/// A well-formed index with the view `v`.
pub open spec fn index_wf_view(v: IndexV) -> bool {
    match v {
        IndexV::Numeric(s) => integer_spec(s) is Ok,
        IndexV::Symbolic(_) => true,
    }
}

/// An index to the entity named `$s`.
pub fn symbolic(s: &str) -> (r: Index)
    ensures
        r@ == IndexV::Symbolic(s@),
        r.wf(),
{
    Index::Symbolic(s.to_string())
}

/// The name that an identifier token carries after its `$`.
pub open spec fn id_name(t: Seq<char>) -> Seq<char> {
    if t.len() == 0 {
        t
    } else {
        t.drop_first()
    }
}

/// The token at `p` read as an index: an integer literal, or else an
/// identifier.
pub open spec fn index_spec(ts: Seq<(TokenKind, Seq<char>)>, p: int) -> Result<(IndexV, int), ErrorV> {
    if kind_is(ts, p, TokenKind::Integer) && integer_spec(ts[p].1) is Ok {
        Ok((IndexV::Numeric(ts[p].1), p + 1))
    } else if kind_is(ts, p, TokenKind::Id) {
        Ok((IndexV::Symbolic(id_name(ts[p].1)), p + 1))
    } else {
        Err(ErrorV::Unexpected(p, Expected::Index))
    }
}

/// Reads the token at `p` as an index.
pub fn parse_index(toks: &Vec<Token>, p: usize) -> (r: Result<(Index, usize), Error>)
    ensures
        agrees(r, index_spec(tokens_view(toks@), p as int)),
        r is Ok ==> r->Ok_0.0.wf(),
{
    let ghost ts = tokens_view(toks@);
    if p < toks.len() && toks[p].kind == TokenKind::Integer {
        match IntegerLiteral::new(toks[p].text.clone()) {
            Ok(i) => {
                return Ok((Index::Numeric(i), p + 1));
            },
            Err(_) => {},
        }
    }
    if p < toks.len() && toks[p].kind == TokenKind::Id {
        let t = toks[p].text.as_str();
        let n = t.unicode_len();
        if n >= 1 {
            let name = t.substring_char(1, n).to_string();
            assert(name@ =~= id_name(ts[p as int].1));
            return Ok((Index::Symbolic(name), p + 1));
        } else {
            let name = String::new();
            assert(name@ =~= id_name(ts[p as int].1));
            return Ok((Index::Symbolic(name), p + 1));
        }
    }
    Err(Error::Unexpected { pos: p, expected: Expected::Index })
}

/// The type of a value.
#[derive(Clone, Copy, Debug, PartialEq, Eq, Structural)]
pub enum ValueType {
    I32,
    I64,
    F32,
    F64,
}

impl View for ValueType {
    type V = ValueType;

    open spec fn view(&self) -> ValueType {
        *self
    }
}

pub open spec fn value_type_text(v: ValueType) -> Seq<char> {
    match v {
        ValueType::I32 => seq!['i', '3', '2'],
        ValueType::I64 => seq!['i', '6', '4'],
        ValueType::F32 => seq!['f', '3', '2'],
        ValueType::F64 => seq!['f', '6', '4'],
    }
}

impl ValueType {
    fn text(&self) -> (r: &'static str)
        ensures
            r@ == value_type_text(*self),
    {
        proof {
            reveal_strlit("i32");
            reveal_strlit("i64");
            reveal_strlit("f32");
            reveal_strlit("f64");
        }
        let r = match self {
            ValueType::I32 => "i32",
            ValueType::I64 => "i64",
            ValueType::F32 => "f32",
            ValueType::F64 => "f64",
        };
        assert(r@ =~= value_type_text(*self));
        r
    }

    /// The keyword of the type.
    pub fn to_string(&self) -> (r: String)
        ensures
            r@ == value_type_text(*self),
    {
        self.text().to_string()
    }

    /// The type as an atom of the tree.
    pub fn as_expr(&self) -> (r: Expr)
        ensures
            crate::sexpr::view_expr(r) == Sx::Atom(value_type_text(*self)),
    {
        Expr::Atom(Atom::new(self.to_string()))
    }
}

/// The token at `p` read as a value type keyword.
pub open spec fn value_type_spec(ts: Seq<(TokenKind, Seq<char>)>, p: int) -> Result<(ValueType, int), ErrorV> {
    if keyword_is(ts, p, value_type_text(ValueType::I32)) {
        Ok((ValueType::I32, p + 1))
    } else if keyword_is(ts, p, value_type_text(ValueType::I64)) {
        Ok((ValueType::I64, p + 1))
    } else if keyword_is(ts, p, value_type_text(ValueType::F32)) {
        Ok((ValueType::F32, p + 1))
    } else if keyword_is(ts, p, value_type_text(ValueType::F64)) {
        Ok((ValueType::F64, p + 1))
    } else {
        Err(ErrorV::Unexpected(p, Expected::ValueType))
    }
}

/// Reads the token at `p` as a value type.
pub fn parse_value_type(toks: &Vec<Token>, p: usize) -> (r: Result<(ValueType, usize), Error>)
    ensures
        agrees(r, value_type_spec(tokens_view(toks@), p as int)),
{
    proof {
        reveal_strlit("i32");
        reveal_strlit("i64");
        reveal_strlit("f32");
        reveal_strlit("f64");
        assert("i32"@ =~= value_type_text(ValueType::I32));
        assert("i64"@ =~= value_type_text(ValueType::I64));
        assert("f32"@ =~= value_type_text(ValueType::F32));
        assert("f64"@ =~= value_type_text(ValueType::F64));
    }
    if at_keyword(toks, p, "i32") {
        Ok((ValueType::I32, p + 1))
    } else if at_keyword(toks, p, "i64") {
        Ok((ValueType::I64, p + 1))
    } else if at_keyword(toks, p, "f32") {
        Ok((ValueType::F32, p + 1))
    } else if at_keyword(toks, p, "f64") {
        Ok((ValueType::F64, p + 1))
    } else {
        Err(Error::Unexpected { pos: p, expected: Expected::ValueType })
    }
}

/// Reads an integer literal token at `p`; a literal that the helpers reject
/// surfaces their error.
pub open spec fn integer_token_spec(ts: Seq<(TokenKind, Seq<char>)>, p: int) -> Result<(Seq<char>, int), ErrorV> {
    if kind_is(ts, p, TokenKind::Integer) {
        match integer_spec(ts[p].1) {
            Ok(_) => Ok((ts[p].1, p + 1)),
            Err(f) => Err(fault_error(f, ts[p].1)),
        }
    } else {
        Err(ErrorV::Unexpected(p, Expected::Integer))
    }
}

pub fn parse_integer(toks: &Vec<Token>, p: usize) -> (r: Result<(IntegerLiteral, usize), Error>)
    ensures
        agrees(r, integer_token_spec(tokens_view(toks@), p as int)),
        r is Ok ==> r->Ok_0.0.wf(),
{
    if p < toks.len() && toks[p].kind == TokenKind::Integer {
        match IntegerLiteral::new(toks[p].text.clone()) {
            Ok(i) => Ok((i, p + 1)),
            Err(e) => Err(e),
        }
    } else {
        Err(Error::Unexpected { pos: p, expected: Expected::Integer })
    }
}

} // verus!
