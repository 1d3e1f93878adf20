use vstd::prelude::*;

use crate::error::{Error, ErrorV, Expected};
use crate::index::{index_spec, index_text, parse_index, parse_value_type, value_type_spec, value_type_text, Index, ValueType};
use crate::sexpr::{node_sx, SExpr, Sx};
use crate::token::{at_keyword, at_kind, keyword_is, kind_is, tokens_view, Token, TokenKind};
use crate::types::{
    global_type_sx, limits_sx, opt_index_sx, opt_node_sx, type_atoms, type_use_sx, DataString, FuncType,
    GlobalType, GlobalTypeMut, InlineExport, Limits, MemType, Offset, Params, Results, Type, TypeUse,
};
use crate::folding::{fold_spec, parse_expressions};
use crate::instruction::{exprs_sx, expression_sx, view_expressions, ExpressionV};
use crate::index::{integer_token_spec, parse_integer};
use crate::module::{
    section_sx, sections_sx, DataSection, Document, FunctionSection, GlobalSection, ImportSection, MemorySection,
    Module, Section, TypeSection,
    body_sx, DataSectionEntry, FunctionSectionEntry, GlobalSectionEntry, ImportDesc, ImportDescFunc,
    ImportSectionEntry, MemorySectionEntry, TypeSectionEntry,
};
use crate::sexpr::quoted;

verus! {

pub type Toks = Seq<(TokenKind, Seq<char>)>;

/// A parse step that yields an entity printed as one node agrees with a
/// spec that yields that node.
pub open spec fn agrees_node<T: SExpr>(r: Result<(T, usize), Error>, s: Result<(Sx, int), ErrorV>) -> bool {
    match s {
        Ok(v) => r is Ok && node_sx(r->Ok_0.0) == v.0 && r->Ok_0.1 == v.1,
        Err(e) => r is Err && r->Err_0@ == e,
    }
}

pub open spec fn open_spec(ts: Toks, p: int) -> Result<int, ErrorV> {
    if kind_is(ts, p, TokenKind::LParen) {
        Ok(p + 1)
    } else {
        Err(ErrorV::Unexpected(p, Expected::OpenParen))
    }
}

pub open spec fn close_spec(ts: Toks, p: int) -> Result<int, ErrorV> {
    if kind_is(ts, p, TokenKind::RParen) {
        Ok(p + 1)
    } else {
        Err(ErrorV::Unexpected(p, Expected::CloseParen))
    }
}

pub open spec fn keyword_at_spec(ts: Toks, p: int, kw: Seq<char>) -> Result<int, ErrorV> {
    if keyword_is(ts, p, kw) {
        Ok(p + 1)
    } else {
        Err(ErrorV::Unexpected(p, Expected::Keyword))
    }
}

/// `(` and the keyword `kw` come next.
pub open spec fn peek2(ts: Toks, p: int, kw: Seq<char>) -> bool {
    kind_is(ts, p, TokenKind::LParen) && keyword_is(ts, p + 1, kw)
}

/// `(` and `kw`: the position after them.
pub open spec fn head_spec(ts: Toks, p: int, kw: Seq<char>) -> Result<int, ErrorV> {
    match open_spec(ts, p) {
        Err(e) => Err(e),
        Ok(q) => keyword_at_spec(ts, q, kw),
    }
}

fn expect_open(toks: &Vec<Token>, p: usize) -> (r: Result<usize, Error>)
    ensures
        match open_spec(tokens_view(toks@), p as int) {
            Ok(q) => r is Ok && r->Ok_0 == q,
            Err(e) => r is Err && r->Err_0@ == e,
        },
        r is Ok ==> p < r->Ok_0,
{
    if at_kind(toks, p, TokenKind::LParen) {
        Ok(p + 1)
    } else {
        Err(Error::Unexpected { pos: p, expected: Expected::OpenParen })
    }
}

fn expect_close(toks: &Vec<Token>, p: usize) -> (r: Result<usize, Error>)
    ensures
        match close_spec(tokens_view(toks@), p as int) {
            Ok(q) => r is Ok && r->Ok_0 == q,
            Err(e) => r is Err && r->Err_0@ == e,
        },
        r is Ok ==> p < r->Ok_0,
{
    if at_kind(toks, p, TokenKind::RParen) {
        Ok(p + 1)
    } else {
        Err(Error::Unexpected { pos: p, expected: Expected::CloseParen })
    }
}

/// Reads `(` and the keyword `kw`.
fn expect_head(toks: &Vec<Token>, p: usize, kw: &str) -> (r: Result<usize, Error>)
    ensures
        match head_spec(tokens_view(toks@), p as int, kw@) {
            Ok(q) => r is Ok && r->Ok_0 == q,
            Err(e) => r is Err && r->Err_0@ == e,
        },
        r is Ok ==> p < r->Ok_0,
{
    let q = match expect_open(toks, p) {
        Ok(q) => q,
        Err(e) => {
            return Err(e);
        },
    };
    if at_keyword(toks, q, kw) {
        Ok(q + 1)
    } else {
        Err(Error::Unexpected { pos: q, expected: Expected::Keyword })
    }
}

fn peek2_exec(toks: &Vec<Token>, p: usize, kw: &str) -> (r: bool)
    ensures
        r == peek2(tokens_view(toks@), p as int, kw@),
        r ==> p + 1 < toks.len(),
{
    at_kind(toks, p, TokenKind::LParen) && at_keyword(toks, p + 1, kw)
}

/// An optional index: read when an integer or an identifier comes next.
pub open spec fn opt_index_spec(ts: Toks, p: int) -> Result<(Option<crate::index::IndexV>, int), ErrorV> {
    if kind_is(ts, p, TokenKind::Integer) || kind_is(ts, p, TokenKind::Id) {
        match index_spec(ts, p) {
            Ok((x, q)) => Ok((Some(x), q)),
            Err(e) => Err(e),
        }
    } else {
        Ok((None, p))
    }
}

pub open spec fn opt_view(i: Option<Index>) -> Option<crate::index::IndexV> {
    match i {
        Some(x) => Some(x@),
        None => None,
    }
}

fn parse_opt_index(toks: &Vec<Token>, p: usize) -> (r: Result<(Option<Index>, usize), Error>)
    ensures
        match opt_index_spec(tokens_view(toks@), p as int) {
            Ok((x, q)) => r is Ok && opt_view(r->Ok_0.0) == x && r->Ok_0.1 == q,
            Err(e) => r is Err && r->Err_0@ == e,
        },
        r is Ok ==> p <= r->Ok_0.1,
{
    if at_kind(toks, p, TokenKind::Integer) || at_kind(toks, p, TokenKind::Id) {
        match parse_index(toks, p) {
            Ok((x, q)) => Ok((Some(x), q)),
            Err(e) => Err(e),
        }
    } else {
        Ok((None, p))
    }
}

/// The value types up to the closing paren, added to `acc`.
pub open spec fn value_types_from(ts: Toks, p: int, acc: Seq<ValueType>) -> Result<(Seq<ValueType>, int), ErrorV>
    decreases ts.len() - p,
{
    if p >= ts.len() || kind_is(ts, p, TokenKind::RParen) || p < 0 {
        Ok((acc, p))
    } else {
        match value_type_spec(ts, p) {
            Err(e) => Err(e),
            Ok((v, q)) => value_types_from(ts, q, acc.push(v)),
        }
    }
}

fn parse_value_types(toks: &Vec<Token>, p: usize) -> (r: Result<(Vec<ValueType>, usize), Error>)
    ensures
        match value_types_from(tokens_view(toks@), p as int, seq![]) {
            Ok((v, q)) => r is Ok && r->Ok_0.0@ == v && r->Ok_0.1 == q,
            Err(e) => r is Err && r->Err_0@ == e,
        },
        r is Ok ==> p <= r->Ok_0.1,
{
    let ghost ts = tokens_view(toks@);
    let mut v: Vec<ValueType> = Vec::new();
    let mut q = p;
    while q < toks.len() && !at_kind(toks, q, TokenKind::RParen)
        invariant
            ts == tokens_view(toks@),
            value_types_from(ts, p as int, seq![]) == value_types_from(ts, q as int, v@),
            p <= q,
        decreases toks.len() - q,
    {
        match parse_value_type(toks, q) {
            Err(e) => {
                return Err(e);
            },
            Ok((t, q1)) => {
                v.push(t);
                q = q1;
            },
        }
    }
    Ok((v, q))
}

/// `(param t ...)` or `(param $name t)`.
pub open spec fn param_spec(ts: Toks, p: int) -> Result<(Sx, int), ErrorV> {
    match head_spec(ts, p, "param"@) {
        Err(e) => Err(e),
        Ok(q) => if value_type_spec(ts, q) is Ok {
            match value_types_from(ts, q, seq![]) {
                Err(e) => Err(e),
                Ok((vs, q2)) => match close_spec(ts, q2) {
                    Err(e) => Err(e),
                    Ok(q3) => Ok((Sx::Node("param"@, type_atoms(vs)), q3)),
                },
            }
        } else if kind_is(ts, q, TokenKind::Id) {
            match value_type_spec(ts, q + 1) {
                Err(e) => Err(e),
                Ok((t, q2)) => match close_spec(ts, q2) {
                    Err(e) => Err(e),
                    Ok(q3) => Ok(
                        (
                            Sx::Node(
                                "param"@,
                                seq![Sx::Atom(index_text(crate::index::IndexV::Symbolic(crate::index::id_name(ts[q].1)))), Sx::Atom(value_type_text(t))],
                            ),
                            q3,
                        ),
                    ),
                },
            }
        } else {
            Err(ErrorV::Unexpected(q, Expected::Index))
        },
    }
}


fn parse_param(toks: &Vec<Token>, p: usize) -> (r: Result<(Params, usize), Error>)
    ensures
        agrees_node(r, param_spec(tokens_view(toks@), p as int)),
        r is Ok ==> p < r->Ok_0.1,
{
    let ghost ts = tokens_view(toks@);
    let q = match expect_head(toks, p, "param") {
        Ok(q) => q,
        Err(e) => {
            return Err(e);
        },
    };
    let anonymous = match parse_value_type(toks, q) {
        Ok(_) => true,
        Err(_) => false,
    };
    if anonymous {
        let (vs, q2) = match parse_value_types(toks, q) {
            Ok(x) => x,
            Err(e) => {
                return Err(e);
            },
        };
        let q3 = match expect_close(toks, q2) {
            Ok(q3) => q3,
            Err(e) => {
                return Err(e);
            },
        };
        Ok((Params::with_value_types(vs), q3))
    } else if at_kind(toks, q, TokenKind::Id) {
        let name = match parse_index(toks, q) {
            Ok((Index::Symbolic(n), _)) => n,
            _ => {
                return Err(Error::Unexpected { pos: q, expected: Expected::Index });
            },
        };
        let (t, q2) = match parse_value_type(toks, q + 1) {
            Ok(x) => x,
            Err(e) => {
                return Err(e);
            },
        };
        let q3 = match expect_close(toks, q2) {
            Ok(q3) => q3,
            Err(e) => {
                return Err(e);
            },
        };
        Ok((Params::Named(name, t), q3))
    } else {
        Err(Error::Unexpected { pos: q, expected: Expected::Index })
    }
}

/// `(result t ...)`.
pub open spec fn result_spec(ts: Toks, p: int) -> Result<(Sx, int), ErrorV> {
    match head_spec(ts, p, "result"@) {
        Err(e) => Err(e),
        Ok(q) => match value_types_from(ts, q, seq![]) {
            Err(e) => Err(e),
            Ok((vs, q2)) => match close_spec(ts, q2) {
                Err(e) => Err(e),
                Ok(q3) => Ok((Sx::Node("result"@, type_atoms(vs)), q3)),
            },
        },
    }
}

fn parse_result(toks: &Vec<Token>, p: usize) -> (r: Result<(Results, usize), Error>)
    ensures
        agrees_node(r, result_spec(tokens_view(toks@), p as int)),
        r is Ok ==> p < r->Ok_0.1,
{
    let q = match expect_head(toks, p, "result") {
        Ok(q) => q,
        Err(e) => {
            return Err(e);
        },
    };
    let (vs, q2) = match parse_value_types(toks, q) {
        Ok(x) => x,
        Err(e) => {
            return Err(e);
        },
    };
    let q3 = match expect_close(toks, q2) {
        Ok(q3) => q3,
        Err(e) => {
            return Err(e);
        },
    };
    Ok((Results::with_value_types(vs), q3))
}

/// The `(param ...)` nodes that follow, added to `acc`.
pub open spec fn params_from(ts: Toks, p: int, acc: Seq<Sx>) -> Result<(Seq<Sx>, int), ErrorV>
    decreases ts.len() - p,
{
    if !peek2(ts, p, "param"@) || p < 0 {
        Ok((acc, p))
    } else {
        match param_spec(ts, p) {
            Err(e) => Err(e),
            Ok((x, q)) => if p < q {
                params_from(ts, q, acc.push(x))
            } else {
                Ok((acc, p))
            },
        }
    }
}

/// The `(result ...)` nodes that follow, added to `acc`.
pub open spec fn results_from(ts: Toks, p: int, acc: Seq<Sx>) -> Result<(Seq<Sx>, int), ErrorV>
    decreases ts.len() - p,
{
    if !peek2(ts, p, "result"@) || p < 0 {
        Ok((acc, p))
    } else {
        match result_spec(ts, p) {
            Err(e) => Err(e),
            Ok((x, q)) => if p < q {
                results_from(ts, q, acc.push(x))
            } else {
                Ok((acc, p))
            },
        }
    }
}

proof fn lemma_param_progress(ts: Toks, p: int)
    requires
        0 <= p,
        param_spec(ts, p) is Ok,
    ensures
        p < param_spec(ts, p)->Ok_0.1 <= ts.len(),
{
    if value_type_spec(ts, p + 2) is Ok {
        lemma_value_types_progress(ts, p + 2, seq![]);
    }
}

proof fn lemma_result_progress(ts: Toks, p: int)
    requires
        0 <= p,
        result_spec(ts, p) is Ok,
    ensures
        p < result_spec(ts, p)->Ok_0.1 <= ts.len(),
{
    lemma_value_types_progress(ts, p + 2, seq![]);
}

proof fn lemma_value_types_progress(ts: Toks, p: int, acc: Seq<ValueType>)
    requires
        value_types_from(ts, p, acc) is Ok,
        0 <= p <= ts.len(),
    ensures
        p <= value_types_from(ts, p, acc)->Ok_0.1 <= ts.len(),
    decreases ts.len() - p,
{
    if !(p >= ts.len() || kind_is(ts, p, TokenKind::RParen)) {
        let (v, q) = value_type_spec(ts, p)->Ok_0;
        lemma_value_types_progress(ts, q, acc.push(v));
    }
}

fn parse_params(toks: &Vec<Token>, p: usize) -> (r: Result<(Vec<Params>, usize), Error>)
    ensures
        match params_from(tokens_view(toks@), p as int, seq![]) {
            Ok((v, q)) => r is Ok && r->Ok_0.0@.map_values(|x: Params| node_sx(x)) == v && r->Ok_0.1 == q,
            Err(e) => r is Err && r->Err_0@ == e,
        },
        r is Ok ==> p <= r->Ok_0.1,
{
    let ghost ts = tokens_view(toks@);
    let mut v: Vec<Params> = Vec::new();
    let mut q = p;
    assert(v@.map_values(|x: Params| node_sx(x)) =~= Seq::<Sx>::empty());
    while peek2_exec(toks, q, "param")
        invariant
            ts == tokens_view(toks@),
            params_from(ts, p as int, seq![]) == params_from(ts, q as int, v@.map_values(|x: Params| node_sx(x))),
            p <= q,
        decreases toks.len() - q,
    {
        match parse_param(toks, q) {
            Err(e) => {
                return Err(e);
            },
            Ok((x, q1)) => {
                proof {
                    lemma_param_progress(ts, q as int);
                }
                let ghost before = v@;
                v.push(x);
                assert(v@.map_values(|x: Params| node_sx(x)) =~= before.map_values(|x: Params| node_sx(x)).push(
                    node_sx(x),
                ));
                q = q1;
            },
        }
    }
    Ok((v, q))
}

fn parse_results(toks: &Vec<Token>, p: usize) -> (r: Result<(Vec<Results>, usize), Error>)
    ensures
        match results_from(tokens_view(toks@), p as int, seq![]) {
            Ok((v, q)) => r is Ok && r->Ok_0.0@.map_values(|x: Results| node_sx(x)) == v && r->Ok_0.1 == q,
            Err(e) => r is Err && r->Err_0@ == e,
        },
        r is Ok ==> p <= r->Ok_0.1,
{
    let ghost ts = tokens_view(toks@);
    let mut v: Vec<Results> = Vec::new();
    let mut q = p;
    assert(v@.map_values(|x: Results| node_sx(x)) =~= Seq::<Sx>::empty());
    while peek2_exec(toks, q, "result")
        invariant
            ts == tokens_view(toks@),
            results_from(ts, p as int, seq![]) == results_from(ts, q as int, v@.map_values(|x: Results| node_sx(x))),
            p <= q,
        decreases toks.len() - q,
    {
        match parse_result(toks, q) {
            Err(e) => {
                return Err(e);
            },
            Ok((x, q1)) => {
                proof {
                    lemma_result_progress(ts, q as int);
                }
                let ghost before = v@;
                v.push(x);
                assert(v@.map_values(|x: Results| node_sx(x)) =~= before.map_values(|x: Results| node_sx(x)).push(
                    node_sx(x),
                ));
                q = q1;
            },
        }
    }
    Ok((v, q))
}

/// `(type idx)`.
pub open spec fn type_ref_spec(ts: Toks, p: int) -> Result<(Sx, int), ErrorV> {
    match head_spec(ts, p, "type"@) {
        Err(e) => Err(e),
        Ok(q) => match index_spec(ts, q) {
            Err(e) => Err(e),
            Ok((x, q2)) => match close_spec(ts, q2) {
                Err(e) => Err(e),
                Ok(q3) => Ok((Sx::Node("type"@, seq![Sx::Atom(index_text(x))]), q3)),
            },
        },
    }
}

/// A type use: an optional `(type idx)`, then params, then results.
pub open spec fn type_use_spec(ts: Toks, p: int) -> Result<(Seq<Sx>, int), ErrorV> {
    let td = if peek2(ts, p, "type"@) {
        match type_ref_spec(ts, p) {
            Err(e) => Err(e),
            Ok((x, q)) => Ok((seq![x], q)),
        }
    } else {
        Ok((seq![], p))
    };
    match td {
        Err(e) => Err(e),
        Ok((t, q1)) => match params_from(ts, q1, seq![]) {
            Err(e) => Err(e),
            Ok((ps, q2)) => match results_from(ts, q2, seq![]) {
                Err(e) => Err(e),
                Ok((rs, q3)) => Ok((t + ps + rs, q3)),
            },
        },
    }
}

pub fn parse_type_use(toks: &Vec<Token>, p: usize) -> (r: Result<(TypeUse, usize), Error>)
    ensures
        match type_use_spec(tokens_view(toks@), p as int) {
            Ok((v, q)) => r is Ok && type_use_sx(r->Ok_0.0) == v && r->Ok_0.1 == q,
            Err(e) => r is Err && r->Err_0@ == e,
        },
        r is Ok ==> p <= r->Ok_0.1,
{
    let mut q = p;
    let mut type_def: Option<Type> = None;
    if peek2_exec(toks, p, "type") {
        let q1 = match expect_head(toks, p, "type") {
            Ok(q1) => q1,
            Err(e) => {
                return Err(e);
            },
        };
        let (idx, q2) = match parse_index(toks, q1) {
            Ok(x) => x,
            Err(e) => {
                return Err(e);
            },
        };
        q = match expect_close(toks, q2) {
            Ok(q3) => q3,
            Err(e) => {
                return Err(e);
            },
        };
        type_def = Some(Type { idx });
    }
    let (params, q2) = match parse_params(toks, q) {
        Ok(x) => x,
        Err(e) => {
            return Err(e);
        },
    };
    let (results, q3) = match parse_results(toks, q2) {
        Ok(x) => x,
        Err(e) => {
            return Err(e);
        },
    };
    let t = TypeUse { type_def, params, results };
    Ok((t, q3))
}

/// `(func param* result*)`: a function type.
pub open spec fn func_type_spec(ts: Toks, p: int) -> Result<(Sx, int), ErrorV> {
    match head_spec(ts, p, "func"@) {
        Err(e) => Err(e),
        Ok(q) => match params_from(ts, q, seq![]) {
            Err(e) => Err(e),
            Ok((ps, q2)) => match results_from(ts, q2, seq![]) {
                Err(e) => Err(e),
                Ok((rs, q3)) => match close_spec(ts, q3) {
                    Err(e) => Err(e),
                    Ok(q4) => Ok((Sx::Node("func"@, ps + rs), q4)),
                },
            },
        },
    }
}

fn parse_func_type(toks: &Vec<Token>, p: usize) -> (r: Result<(FuncType, usize), Error>)
    ensures
        agrees_node(r, func_type_spec(tokens_view(toks@), p as int)),
        r is Ok ==> p < r->Ok_0.1,
{
    let q = match expect_head(toks, p, "func") {
        Ok(q) => q,
        Err(e) => {
            return Err(e);
        },
    };
    let (params, q2) = match parse_params(toks, q) {
        Ok(x) => x,
        Err(e) => {
            return Err(e);
        },
    };
    let (results, q3) = match parse_results(toks, q2) {
        Ok(x) => x,
        Err(e) => {
            return Err(e);
        },
    };
    let q4 = match expect_close(toks, q3) {
        Ok(q4) => q4,
        Err(e) => {
            return Err(e);
        },
    };
    Ok((FuncType::new(params, results), q4))
}


/// The index atom, if there is one.
pub open spec fn opt_index_view_sx(x: Option<crate::index::IndexV>) -> Seq<Sx> {
    match x {
        Some(v) => seq![Sx::Atom(index_text(v))],
        None => seq![],
    }
}

/// `(type idx? (func ...))`.
pub open spec fn type_entry_spec(ts: Toks, p: int) -> Result<(Sx, int), ErrorV> {
    match head_spec(ts, p, "type"@) {
        Err(e) => Err(e),
        Ok(q) => match opt_index_spec(ts, q) {
            Err(e) => Err(e),
            Ok((x, q2)) => match func_type_spec(ts, q2) {
                Err(e) => Err(e),
                Ok((f, q3)) => match close_spec(ts, q3) {
                    Err(e) => Err(e),
                    Ok(q4) => Ok((Sx::Node("type"@, opt_index_view_sx(x) + seq![f]), q4)),
                },
            },
        },
    }
}

fn parse_type_entry(toks: &Vec<Token>, p: usize) -> (r: Result<(TypeSectionEntry, usize), Error>)
    ensures
        agrees_node(r, type_entry_spec(tokens_view(toks@), p as int)),
        r is Ok ==> p < r->Ok_0.1,
        r is Ok ==> r->Ok_0.1 <= toks.len(),
{
    let q = match expect_head(toks, p, "type") {
        Ok(q) => q,
        Err(e) => {
            return Err(e);
        },
    };
    let (idx, q2) = match parse_opt_index(toks, q) {
        Ok(x) => x,
        Err(e) => {
            return Err(e);
        },
    };
    let (f, q3) = match parse_func_type(toks, q2) {
        Ok(x) => x,
        Err(e) => {
            return Err(e);
        },
    };
    let q4 = match expect_close(toks, q3) {
        Ok(q4) => q4,
        Err(e) => {
            return Err(e);
        },
    };
    Ok((TypeSectionEntry::new(idx, f), q4))
}

/// What a string token holds between its quotes.
pub open spec fn unquote(t: Seq<char>) -> Seq<char> {
    if t.len() >= 2 {
        t.subrange(1, t.len() - 1)
    } else {
        seq![]
    }
}

pub open spec fn string_spec(ts: Toks, p: int) -> Result<(Seq<char>, int), ErrorV> {
    if kind_is(ts, p, TokenKind::Str) {
        Ok((unquote(ts[p].1), p + 1))
    } else {
        Err(ErrorV::Unexpected(p, Expected::Str))
    }
}

fn parse_string(toks: &Vec<Token>, p: usize) -> (r: Result<(String, usize), Error>)
    ensures
        match string_spec(tokens_view(toks@), p as int) {
            Ok((v, q)) => r is Ok && r->Ok_0.0@ == v && r->Ok_0.1 == q,
            Err(e) => r is Err && r->Err_0@ == e,
        },
        r is Ok ==> p < r->Ok_0.1,
{
    if at_kind(toks, p, TokenKind::Str) {
        let t = toks[p].text.as_str();
        let n = t.unicode_len();
        let s = if n >= 2 {
            t.substring_char(1, n - 1).to_string()
        } else {
            String::new()
        };
        proof {
            if n < 2 {
                assert(s@ =~= Seq::<char>::empty());
            }
        }
        Ok((s, p + 1))
    } else {
        Err(Error::Unexpected { pos: p, expected: Expected::Str })
    }
}

/// `(import "module" "name" (func idx? type-use))`.
pub open spec fn import_entry_spec(ts: Toks, p: int) -> Result<(Sx, int), ErrorV> {
    match head_spec(ts, p, "import"@) {
        Err(e) => Err(e),
        Ok(q) => match string_spec(ts, q) {
            Err(e) => Err(e),
            Ok((m, q2)) => match string_spec(ts, q2) {
                Err(e) => Err(e),
                Ok((n, q3)) => match head_spec(ts, q3, "func"@) {
                    Err(e) => Err(e),
                    Ok(q4) => match opt_index_spec(ts, q4) {
                        Err(e) => Err(e),
                        Ok((x, q5)) => match type_use_spec(ts, q5) {
                            Err(e) => Err(e),
                            Ok((tu, q6)) => match close_spec(ts, q6) {
                                Err(e) => Err(e),
                                Ok(q7) => match close_spec(ts, q7) {
                                    Err(e) => Err(e),
                                    Ok(q8) => Ok(
                                        (
                                            Sx::Node(
                                                "import"@,
                                                seq![
                                                    Sx::Atom(quoted(m)),
                                                    Sx::Atom(quoted(n)),
                                                    Sx::Node("func"@, opt_index_view_sx(x) + tu),
                                                ],
                                            ),
                                            q8,
                                        ),
                                    ),
                                },
                            },
                        },
                    },
                },
            },
        },
    }
}

fn parse_import_entry(toks: &Vec<Token>, p: usize) -> (r: Result<(ImportSectionEntry, usize), Error>)
    ensures
        agrees_node(r, import_entry_spec(tokens_view(toks@), p as int)),
        r is Ok ==> p < r->Ok_0.1,
        r is Ok ==> r->Ok_0.1 <= toks.len(),
{
    let q = match expect_head(toks, p, "import") {
        Ok(q) => q,
        Err(e) => {
            return Err(e);
        },
    };
    let (m, q2) = match parse_string(toks, q) {
        Ok(x) => x,
        Err(e) => {
            return Err(e);
        },
    };
    let (n, q3) = match parse_string(toks, q2) {
        Ok(x) => x,
        Err(e) => {
            return Err(e);
        },
    };
    let q4 = match expect_head(toks, q3, "func") {
        Ok(q4) => q4,
        Err(e) => {
            return Err(e);
        },
    };
    let (idx, q5) = match parse_opt_index(toks, q4) {
        Ok(x) => x,
        Err(e) => {
            return Err(e);
        },
    };
    let (type_use, q6) = match parse_type_use(toks, q5) {
        Ok(x) => x,
        Err(e) => {
            return Err(e);
        },
    };
    let q7 = match expect_close(toks, q6) {
        Ok(q7) => q7,
        Err(e) => {
            return Err(e);
        },
    };
    let q8 = match expect_close(toks, q7) {
        Ok(q8) => q8,
        Err(e) => {
            return Err(e);
        },
    };
    let entry = ImportSectionEntry::new(m, n, ImportDesc::Func(ImportDescFunc { idx, type_use }));
    Ok((entry, q8))
}

/// An optional `(export "name")`.
pub open spec fn opt_export_spec(ts: Toks, p: int) -> Result<(Seq<Sx>, int), ErrorV> {
    if peek2(ts, p, "export"@) {
        match string_spec(ts, p + 2) {
            Err(e) => Err(e),
            Ok((n, q)) => match close_spec(ts, q) {
                Err(e) => Err(e),
                Ok(q2) => Ok((seq![Sx::Node("export"@, seq![Sx::Atom(quoted(n))])], q2)),
            },
        }
    } else {
        Ok((seq![], p))
    }
}

fn parse_opt_export(toks: &Vec<Token>, p: usize) -> (r: Result<(Option<InlineExport>, usize), Error>)
    ensures
        match opt_export_spec(tokens_view(toks@), p as int) {
            Ok((v, q)) => r is Ok && opt_node_sx(r->Ok_0.0) == v && r->Ok_0.1 == q,
            Err(e) => r is Err && r->Err_0@ == e,
        },
        r is Ok ==> p <= r->Ok_0.1,
{
    if peek2_exec(toks, p, "export") {
        let (n, q) = match parse_string(toks, p + 2) {
            Ok(x) => x,
            Err(e) => {
                return Err(e);
            },
        };
        let q2 = match expect_close(toks, q) {
            Ok(q2) => q2,
            Err(e) => {
                return Err(e);
            },
        };
        Ok((Some(InlineExport::new(n)), q2))
    } else {
        Ok((None, p))
    }
}

/// `(func idx? (export ..)? type-use body)`.
pub open spec fn func_entry_spec(ts: Toks, p: int) -> Result<(Sx, int), ErrorV> {
    match head_spec(ts, p, "func"@) {
        Err(e) => Err(e),
        Ok(q) => match opt_index_spec(ts, q) {
            Err(e) => Err(e),
            Ok((x, q2)) => match opt_export_spec(ts, q2) {
                Err(e) => Err(e),
                Ok((ex, q3)) => match type_use_spec(ts, q3) {
                    Err(e) => Err(e),
                    Ok((tu, q4)) => if q4 > ts.len() {
                        Err(ErrorV::Unexpected(q4, Expected::CloseParen))
                    } else {
                        match fold_spec(ts, q4) {
                            Err(e) => Err(e),
                            Ok((xs, q5)) => match close_spec(ts, q5) {
                                Err(e) => Err(e),
                                Ok(q6) => Ok(
                                    (
                                        Sx::Node(
                                            "func"@,
                                            opt_index_view_sx(x) + ex + tu + exprs_sx(xs, xs.len() as int),
                                        ),
                                        q6,
                                    ),
                                ),
                            },
                        }
                    },
                },
            },
        },
    }
}

fn parse_func_entry(toks: &Vec<Token>, p: usize) -> (r: Result<(FunctionSectionEntry, usize), Error>)
    ensures
        agrees_node(r, func_entry_spec(tokens_view(toks@), p as int)),
        r is Ok ==> p < r->Ok_0.1,
        r is Ok ==> r->Ok_0.1 <= toks.len(),
{
    let q = match expect_head(toks, p, "func") {
        Ok(q) => q,
        Err(e) => {
            return Err(e);
        },
    };
    let (idx, q2) = match parse_opt_index(toks, q) {
        Ok(x) => x,
        Err(e) => {
            return Err(e);
        },
    };
    let (inline_export, q3) = match parse_opt_export(toks, q2) {
        Ok(x) => x,
        Err(e) => {
            return Err(e);
        },
    };
    let (type_use, q4) = match parse_type_use(toks, q3) {
        Ok(x) => x,
        Err(e) => {
            return Err(e);
        },
    };
    if q4 > toks.len() {
        return Err(Error::Unexpected { pos: q4, expected: Expected::CloseParen });
    }
    let (exprs, q5) = match parse_expressions(toks, q4) {
        Ok(x) => x,
        Err(e) => {
            return Err(e);
        },
    };
    let q6 = match expect_close(toks, q5) {
        Ok(q6) => q6,
        Err(e) => {
            return Err(e);
        },
    };
    proof {
        crate::instruction::lemma_view_expressions(exprs, exprs.len() as int);
    }
    Ok((FunctionSectionEntry::new(idx, inline_export, type_use, exprs), q6))
}


/// `(memory idx? (export ..)? min max?)`.
pub open spec fn memory_entry_spec(ts: Toks, p: int) -> Result<(Sx, int), ErrorV> {
    match head_spec(ts, p, "memory"@) {
        Err(e) => Err(e),
        Ok(q) => match opt_index_spec(ts, q) {
            Err(e) => Err(e),
            Ok((x, q2)) => match opt_export_spec(ts, q2) {
                Err(e) => Err(e),
                Ok((ex, q3)) => match integer_token_spec(ts, q3) {
                    Err(e) => Err(e),
                    Ok((min, q4)) => {
                        let max = if kind_is(ts, q4, TokenKind::Integer) {
                            match integer_token_spec(ts, q4) {
                                Err(e) => Err(e),
                                Ok((m, q5)) => Ok((seq![Sx::Atom(m)], q5)),
                            }
                        } else {
                            Ok((seq![], q4))
                        };
                        match max {
                            Err(e) => Err(e),
                            Ok((mx, q5)) => match close_spec(ts, q5) {
                                Err(e) => Err(e),
                                Ok(q6) => Ok(
                                    (Sx::Node("memory"@, opt_index_view_sx(x) + ex + seq![Sx::Atom(min)] + mx), q6),
                                ),
                            },
                        }
                    },
                },
            },
        },
    }
}

fn parse_memory_entry(toks: &Vec<Token>, p: usize) -> (r: Result<(MemorySectionEntry, usize), Error>)
    ensures
        agrees_node(r, memory_entry_spec(tokens_view(toks@), p as int)),
        r is Ok ==> p < r->Ok_0.1,
        r is Ok ==> r->Ok_0.1 <= toks.len(),
{
    let q = match expect_head(toks, p, "memory") {
        Ok(q) => q,
        Err(e) => {
            return Err(e);
        },
    };
    let (idx, q2) = match parse_opt_index(toks, q) {
        Ok(x) => x,
        Err(e) => {
            return Err(e);
        },
    };
    let (inline_export, q3) = match parse_opt_export(toks, q2) {
        Ok(x) => x,
        Err(e) => {
            return Err(e);
        },
    };
    let (min, q4) = match parse_integer(toks, q3) {
        Ok(x) => x,
        Err(e) => {
            return Err(e);
        },
    };
    let mut q5 = q4;
    let mut max = None;
    if at_kind(toks, q4, TokenKind::Integer) {
        match parse_integer(toks, q4) {
            Ok((m, q)) => {
                max = Some(m);
                q5 = q;
            },
            Err(e) => {
                return Err(e);
            },
        }
    }
    let q6 = match expect_close(toks, q5) {
        Ok(q6) => q6,
        Err(e) => {
            return Err(e);
        },
    };
    let entry = MemorySectionEntry::new(idx, inline_export, MemType::new(Limits::new(min, max)));
    proof {
        let ts = tokens_view(toks@);
        let mx = if kind_is(ts, q4 as int, TokenKind::Integer) {
            seq![Sx::Atom(integer_token_spec(ts, q4 as int)->Ok_0.0)]
        } else {
            Seq::<Sx>::empty()
        };
        assert(limits_sx(entry.mem_type.lim) =~= seq![Sx::Atom(integer_token_spec(ts, q3 as int)->Ok_0.0)] + mx);
        assert(entry.cdr_spec() =~= opt_index_sx(entry.idx) + opt_node_sx(entry.inline_export) + seq![
            Sx::Atom(integer_token_spec(ts, q3 as int)->Ok_0.0),
        ] + mx);
    }
    Ok((entry, q6))
}

/// A global's type: `(mut t)` or `t`.
pub open spec fn global_type_spec(ts: Toks, p: int) -> Result<(Sx, int), ErrorV> {
    if kind_is(ts, p, TokenKind::LParen) {
        match head_spec(ts, p, "mut"@) {
            Err(e) => Err(e),
            Ok(q) => match value_type_spec(ts, q) {
                Err(e) => Err(e),
                Ok((t, q2)) => match close_spec(ts, q2) {
                    Err(e) => Err(e),
                    Ok(q3) => Ok((Sx::Node("mut"@, seq![Sx::Atom(value_type_text(t))]), q3)),
                },
            },
        }
    } else {
        match value_type_spec(ts, p) {
            Err(e) => Err(e),
            Ok((t, q)) => Ok((Sx::Atom(value_type_text(t)), q)),
        }
    }
}

fn parse_global_type(toks: &Vec<Token>, p: usize) -> (r: Result<(GlobalType, usize), Error>)
    ensures
        match global_type_spec(tokens_view(toks@), p as int) {
            Ok((v, q)) => r is Ok && global_type_sx(r->Ok_0.0) == v && r->Ok_0.1 == q,
            Err(e) => r is Err && r->Err_0@ == e,
        },
        r is Ok ==> p < r->Ok_0.1,
{
    if at_kind(toks, p, TokenKind::LParen) {
        let q = match expect_head(toks, p, "mut") {
            Ok(q) => q,
            Err(e) => {
                return Err(e);
            },
        };
        let (t, q2) = match parse_value_type(toks, q) {
            Ok(x) => x,
            Err(e) => {
                return Err(e);
            },
        };
        let q3 = match expect_close(toks, q2) {
            Ok(q3) => q3,
            Err(e) => {
                return Err(e);
            },
        };
        Ok((GlobalType::Mut(GlobalTypeMut::new(t)), q3))
    } else {
        match parse_value_type(toks, p) {
            Ok((t, q)) => Ok((GlobalType::NonMut(t), q)),
            Err(e) => Err(e),
        }
    }
}

/// `(global idx? (export ..)? type init?)`: at most one initializer.
pub open spec fn global_entry_spec(ts: Toks, p: int) -> Result<(Sx, int), ErrorV> {
    match head_spec(ts, p, "global"@) {
        Err(e) => Err(e),
        Ok(q) => match opt_index_spec(ts, q) {
            Err(e) => Err(e),
            Ok((x, q2)) => match opt_export_spec(ts, q2) {
                Err(e) => Err(e),
                Ok((ex, q3)) => match global_type_spec(ts, q3) {
                    Err(e) => Err(e),
                    Ok((gt, q4)) => if q4 > ts.len() {
                        Err(ErrorV::Unexpected(q4, Expected::CloseParen))
                    } else {
                        match fold_spec(ts, q4) {
                            Err(e) => Err(e),
                            Ok((xs, q5)) => if xs.len() > 1 {
                                Err(ErrorV::Unexpected(q5, Expected::SingleExpression))
                            } else {
                                match close_spec(ts, q5) {
                                    Err(e) => Err(e),
                                    Ok(q6) => Ok(
                                        (
                                            Sx::Node(
                                                "global"@,
                                                opt_index_view_sx(x) + ex + seq![gt] + exprs_sx(xs, xs.len() as int),
                                            ),
                                            q6,
                                        ),
                                    ),
                                }
                            },
                        }
                    },
                },
            },
        },
    }
}

fn parse_global_entry(toks: &Vec<Token>, p: usize) -> (r: Result<(GlobalSectionEntry, usize), Error>)
    ensures
        agrees_node(r, global_entry_spec(tokens_view(toks@), p as int)),
        r is Ok ==> p < r->Ok_0.1,
        r is Ok ==> r->Ok_0.1 <= toks.len(),
{
    let q = match expect_head(toks, p, "global") {
        Ok(q) => q,
        Err(e) => {
            return Err(e);
        },
    };
    let (idx, q2) = match parse_opt_index(toks, q) {
        Ok(x) => x,
        Err(e) => {
            return Err(e);
        },
    };
    let (inline_export, q3) = match parse_opt_export(toks, q2) {
        Ok(x) => x,
        Err(e) => {
            return Err(e);
        },
    };
    let (global_type, q4) = match parse_global_type(toks, q3) {
        Ok(x) => x,
        Err(e) => {
            return Err(e);
        },
    };
    if q4 > toks.len() {
        return Err(Error::Unexpected { pos: q4, expected: Expected::CloseParen });
    }
    let (mut exprs, q5) = match parse_expressions(toks, q4) {
        Ok(x) => x,
        Err(e) => {
            return Err(e);
        },
    };
    proof {
        crate::instruction::lemma_view_expressions(exprs, exprs.len() as int);
    }
    if exprs.len() > 1 {
        return Err(Error::Unexpected { pos: q5, expected: Expected::SingleExpression });
    }
    let q6 = match expect_close(toks, q5) {
        Ok(q6) => q6,
        Err(e) => {
            return Err(e);
        },
    };
    let ghost before = exprs;
    proof {
        crate::instruction::lemma_view_expressions(exprs, exprs.len() as int);
    }
    let expr = exprs.pop();
    let entry = GlobalSectionEntry::new(idx, inline_export, global_type, expr);
    proof {
        let xs = view_expressions(before, before.len() as int);
        crate::instruction::lemma_exprs_sx(xs, xs.len() as int);
        if before.len() == 1 {
            assert(exprs_sx(xs, 1) =~= seq![expression_sx(xs[0])]);
        } else {
            assert(exprs_sx(xs, 0) =~= Seq::<Sx>::empty());
        }
    }
    Ok((entry, q6))
}

/// The string tokens that follow, added to `acc`.
pub open spec fn strings_from(ts: Toks, p: int, acc: Seq<Seq<char>>) -> (Seq<Seq<char>>, int)
    decreases ts.len() - p,
{
    if !kind_is(ts, p, TokenKind::Str) {
        (acc, p)
    } else {
        strings_from(ts, p + 1, acc.push(unquote(ts[p].1)))
    }
}

fn parse_strings(toks: &Vec<Token>, p: usize) -> (r: (Vec<String>, usize))
    ensures
        r.0@.map_values(|s: String| s@) == strings_from(tokens_view(toks@), p as int, seq![]).0,
        r.1 == strings_from(tokens_view(toks@), p as int, seq![]).1,
        p <= r.1,
{
    let ghost ts = tokens_view(toks@);
    let mut v: Vec<String> = Vec::new();
    let mut q = p;
    assert(v@.map_values(|s: String| s@) =~= Seq::<Seq<char>>::empty());
    while at_kind(toks, q, TokenKind::Str)
        invariant
            ts == tokens_view(toks@),
            strings_from(ts, p as int, seq![]) == strings_from(ts, q as int, v@.map_values(|s: String| s@)),
            p <= q,
        decreases toks.len() - q,
    {
        match parse_string(toks, q) {
            Ok((s, q1)) => {
                let ghost before = v@;
                v.push(s);
                assert(v@.map_values(|s: String| s@) =~= before.map_values(|s: String| s@).push(
                    unquote(ts[q as int].1),
                ));
                q = q1;
            },
            Err(_) => {
                return (v, q);
            },
        }
    }
    (v, q)
}

/// `(data idx? offset "string" ...)`: exactly one offset expression.
pub open spec fn data_entry_spec(ts: Toks, p: int) -> Result<(Sx, int), ErrorV> {
    match head_spec(ts, p, "data"@) {
        Err(e) => Err(e),
        Ok(q) => match opt_index_spec(ts, q) {
            Err(e) => Err(e),
            Ok((x, q2)) => if q2 > ts.len() {
                Err(ErrorV::Unexpected(q2, Expected::CloseParen))
            } else {
                match fold_spec(ts, q2) {
                    Err(e) => Err(e),
                    Ok((xs, q3)) => if xs.len() != 1 {
                        Err(ErrorV::Unexpected(q3, Expected::SingleExpression))
                    } else {
                        let (strs, q4) = strings_from(ts, q3, seq![]);
                        match close_spec(ts, q4) {
                            Err(e) => Err(e),
                            Ok(q5) => Ok(
                                (
                                    Sx::Node(
                                        "data"@,
                                        opt_index_view_sx(x) + seq![expression_sx(xs[0])] + strs.map_values(
                                            |t: Seq<char>| Sx::Atom(quoted(t)),
                                        ),
                                    ),
                                    q5,
                                ),
                            ),
                        }
                    },
                }
            },
        },
    }
}

fn parse_data_entry(toks: &Vec<Token>, p: usize) -> (r: Result<(DataSectionEntry, usize), Error>)
    ensures
        agrees_node(r, data_entry_spec(tokens_view(toks@), p as int)),
        r is Ok ==> p < r->Ok_0.1,
        r is Ok ==> r->Ok_0.1 <= toks.len(),
{
    let q = match expect_head(toks, p, "data") {
        Ok(q) => q,
        Err(e) => {
            return Err(e);
        },
    };
    let (idx, q2) = match parse_opt_index(toks, q) {
        Ok(x) => x,
        Err(e) => {
            return Err(e);
        },
    };
    if q2 > toks.len() {
        return Err(Error::Unexpected { pos: q2, expected: Expected::CloseParen });
    }
    let (mut exprs, q3) = match parse_expressions(toks, q2) {
        Ok(x) => x,
        Err(e) => {
            return Err(e);
        },
    };
    proof {
        crate::instruction::lemma_view_expressions(exprs, exprs.len() as int);
    }
    if exprs.len() != 1 {
        return Err(Error::Unexpected { pos: q3, expected: Expected::SingleExpression });
    }
    let ghost before = exprs;
    proof {
        crate::instruction::lemma_view_expressions(exprs, 1);
    }
    let offset = match exprs.pop() {
        Some(x) => x,
        None => {
            return Err(Error::Unexpected { pos: q3, expected: Expected::SingleExpression });
        },
    };
    let (strings, q4) = parse_strings(toks, q3);
    let q5 = match expect_close(toks, q4) {
        Ok(q5) => q5,
        Err(e) => {
            return Err(e);
        },
    };
    let entry = DataSectionEntry::new(idx, Offset::new(offset), DataString::with_strings(strings));
    proof {
        let ghost strs = strings_from(tokens_view(toks@), q3 as int, seq![]).0;
        assert(entry.data_string.strings@.map_values(|s: String| Sx::Atom(quoted(s@))) =~= strs.map_values(
            |t: Seq<char>| Sx::Atom(quoted(t)),
        ));
    }
    Ok((entry, q5))
}


/// One section entry of any kind.
#[verifier::opaque]
pub open spec fn entry_spec(ts: Toks, p: int) -> Result<(Sx, int), ErrorV> {
    if peek2(ts, p, "type"@) {
        type_entry_spec(ts, p)
    } else if peek2(ts, p, "import"@) {
        import_entry_spec(ts, p)
    } else if peek2(ts, p, "func"@) {
        func_entry_spec(ts, p)
    } else if peek2(ts, p, "memory"@) {
        memory_entry_spec(ts, p)
    } else if peek2(ts, p, "global"@) {
        global_entry_spec(ts, p)
    } else if peek2(ts, p, "data"@) {
        data_entry_spec(ts, p)
    } else {
        Err(ErrorV::Unexpected(p, Expected::Section))
    }
}

/// The entries up to the module's closing paren, added to `acc`.
pub open spec fn entries_from(ts: Toks, p: int, acc: Seq<Sx>) -> Result<(Seq<Sx>, int), ErrorV>
    decreases ts.len() - p,
{
    if p < 0 || p >= ts.len() || kind_is(ts, p, TokenKind::RParen) {
        Ok((acc, p))
    } else {
        match entry_spec(ts, p) {
            Err(e) => Err(e),
            Ok((x, q)) => if p < q <= ts.len() {
                entries_from(ts, q, acc.push(x))
            } else {
                Ok((acc, p))
            },
        }
    }
}

/// `(module entry ...)`: the module node, whose children are its entries.
pub open spec fn module_spec(ts: Toks, p: int) -> Result<(Sx, int), ErrorV> {
    match head_spec(ts, p, "module"@) {
        Err(e) => Err(e),
        Ok(q) => match entries_from(ts, q, seq![]) {
            Err(e) => Err(e),
            Ok((es, q2)) => match close_spec(ts, q2) {
                Err(e) => Err(e),
                Ok(q3) => Ok((Sx::Node("module"@, es), q3)),
            },
        },
    }
}

proof fn lemma_entries_step(ts: Toks, q: int, acc: Seq<Sx>, x: Sx, q1: int)
    requires
        0 <= q < ts.len(),
        !kind_is(ts, q, TokenKind::RParen),
        entry_spec(ts, q) == Ok::<(Sx, int), ErrorV>((x, q1)),
        q < q1 <= ts.len(),
    ensures
        entries_from(ts, q, acc) == entries_from(ts, q1, acc.push(x)),
{
}

proof fn lemma_entries_fail(ts: Toks, q: int, acc: Seq<Sx>, e: ErrorV)
    requires
        0 <= q < ts.len(),
        !kind_is(ts, q, TokenKind::RParen),
        entry_spec(ts, q) == Err::<(Sx, int), ErrorV>(e),
    ensures
        entries_from(ts, q, acc) == Err::<(Seq<Sx>, int), ErrorV>(e),
{
}

/// A parsed section entry of any kind.
enum Entry {
    Type(TypeSectionEntry),
    Import(ImportSectionEntry),
    Function(FunctionSectionEntry),
    Memory(MemorySectionEntry),
    Global(GlobalSectionEntry),
    Data(DataSectionEntry),
}

spec fn entry_sx(e: Entry) -> Sx {
    match e {
        Entry::Type(x) => node_sx(x),
        Entry::Import(x) => node_sx(x),
        Entry::Function(x) => node_sx(x),
        Entry::Memory(x) => node_sx(x),
        Entry::Global(x) => node_sx(x),
        Entry::Data(x) => node_sx(x),
    }
}

fn parse_entry(toks: &Vec<Token>, p: usize) -> (r: Result<(Entry, usize), Error>)
    ensures
        match entry_spec(tokens_view(toks@), p as int) {
            Ok((x, q)) => r is Ok && entry_sx(r->Ok_0.0) == x && r->Ok_0.1 == q,
            Err(e) => r is Err && r->Err_0@ == e,
        },
        r is Ok ==> p < r->Ok_0.1,
        r is Ok ==> r->Ok_0.1 <= toks.len(),
{
    proof {
        reveal(entry_spec);
    }
    if peek2_exec(toks, p, "type") {
        match parse_type_entry(toks, p) {
            Ok((x, q)) => Ok((Entry::Type(x), q)),
            Err(e) => Err(e),
        }
    } else if peek2_exec(toks, p, "import") {
        match parse_import_entry(toks, p) {
            Ok((x, q)) => Ok((Entry::Import(x), q)),
            Err(e) => Err(e),
        }
    } else if peek2_exec(toks, p, "func") {
        match parse_func_entry(toks, p) {
            Ok((x, q)) => Ok((Entry::Function(x), q)),
            Err(e) => Err(e),
        }
    } else if peek2_exec(toks, p, "memory") {
        match parse_memory_entry(toks, p) {
            Ok((x, q)) => Ok((Entry::Memory(x), q)),
            Err(e) => Err(e),
        }
    } else if peek2_exec(toks, p, "global") {
        match parse_global_entry(toks, p) {
            Ok((x, q)) => Ok((Entry::Global(x), q)),
            Err(e) => Err(e),
        }
    } else if peek2_exec(toks, p, "data") {
        match parse_data_entry(toks, p) {
            Ok((x, q)) => Ok((Entry::Data(x), q)),
            Err(e) => Err(e),
        }
    } else {
        Err(Error::Unexpected { pos: p, expected: Expected::Section })
    }
}

proof fn lemma_sections_push(v: Seq<Section>, s: Section, k: int)
    requires
        0 <= k <= v.len(),
    ensures
        sections_sx(v.push(s), k) == sections_sx(v, k),
        k == v.len() ==> sections_sx(v.push(s), k + 1) == sections_sx(v, k) + section_sx(s),
    decreases k,
{
    if k > 0 {
        lemma_sections_push(v, s, k - 1);
        assert(v.push(s)[k - 1] == v[k - 1]);
    }
    assert(sections_sx(v.push(s), k) == sections_sx(v, k));
    if k == v.len() {
        assert(v.push(s)[k] == s);
    }
}

/// A section that holds the one entry `e`.
fn single(e: Entry) -> (r: Section)
    ensures
        section_sx(r) == seq![entry_sx(e)],
{
    let r = match e {
        Entry::Type(x) => Section::Type(TypeSection::with_entries(vec![x])),
        Entry::Import(x) => Section::Import(ImportSection::with_entries(vec![x])),
        Entry::Function(x) => Section::Function(FunctionSection::with_entries(vec![x])),
        Entry::Memory(x) => Section::Memory(MemorySection::with_entries(vec![x])),
        Entry::Global(x) => Section::Global(GlobalSection::with_entries(vec![x])),
        Entry::Data(x) => Section::Data(DataSection::with_entries(vec![x])),
    };
    assert(section_sx(r) =~= seq![entry_sx(e)]);
    r
}

/// Adds `e` to the last section when it is of the same kind, else opens a
/// new section for it.
fn add_entry(sections: &mut Vec<Section>, e: Entry)
    ensures
        sections_sx(final(sections)@, final(sections).len() as int) == sections_sx(old(sections)@, old(sections).len() as int).push(
            entry_sx(e),
        ),
{
    let ghost x = entry_sx(e);
    let ghost old_v = sections@;
    if sections.len() > 0 {
        let last = sections.pop().unwrap();
        let ghost rest = sections@;
        let ghost before = section_sx(last);
        proof {
            lemma_sections_push(rest, last, rest.len() as int);
        }
        let ghost e0 = e;
        let ghost last0 = last;
        let merged = match (last, e) {
            (Section::Type(mut v), Entry::Type(y)) => {
                v.entries.push(y);
                Ok(Section::Type(v))
            },
            (Section::Import(mut v), Entry::Import(y)) => {
                v.entries.push(y);
                Ok(Section::Import(v))
            },
            (Section::Function(mut v), Entry::Function(y)) => {
                v.entries.push(y);
                Ok(Section::Function(v))
            },
            (Section::Memory(mut v), Entry::Memory(y)) => {
                v.entries.push(y);
                Ok(Section::Memory(v))
            },
            (Section::Global(mut v), Entry::Global(y)) => {
                v.entries.push(y);
                Ok(Section::Global(v))
            },
            (Section::Data(mut v), Entry::Data(y)) => {
                v.entries.push(y);
                Ok(Section::Data(v))
            },
            (l, y) => {
                assert(l == last0 && y == e0);
                Err((l, y))
            },
        };
        match merged {
            Ok(s) => {
                assert(section_sx(s) =~= before.push(x));
                sections.push(s);
                proof {
                    lemma_sections_push(rest, s, rest.len() as int);
                    assert(sections_sx(rest, rest.len() as int) + before.push(x) =~= (sections_sx(
                        rest,
                        rest.len() as int,
                    ) + before).push(x));
                    assert(old_v == rest.push(last0));
                    assert(sections@ == rest.push(s));
                    assert(sections_sx(sections@, sections.len() as int) == sections_sx(old_v, old_v.len() as int).push(x));
                }
            },
            Err((l, y)) => {
                assert(entry_sx(y) == x);
                sections.push(l);
                let ghost mid = sections@;
                proof {
                    lemma_sections_push(rest, l, rest.len() as int);
                }
                let s = single(y);
                sections.push(s);
                proof {
                    lemma_sections_push(mid, s, mid.len() as int);
                    assert(sections_sx(mid, mid.len() as int) + section_sx(s) =~= sections_sx(
                        mid,
                        mid.len() as int,
                    ).push(x));
                    assert(mid == old_v);
                    assert(sections_sx(sections@, sections.len() as int) == sections_sx(old_v, old_v.len() as int).push(x));
                }
            },
        }
    } else {
        let ghost rest = sections@;
        let s = single(e);
        sections.push(s);
        proof {
            lemma_sections_push(rest, s, 0);
            assert(sections_sx(rest, 0) =~= Seq::<Sx>::empty());
            assert(sections_sx(rest, 0) + section_sx(s) =~= sections_sx(rest, 0).push(x));
        }
    }
}

/// Reads `(module entry ...)` at `p`; runs of entries of one kind form one
/// section.
pub fn parse_module(toks: &Vec<Token>, p: usize) -> (r: Result<(Module, usize), Error>)
    ensures
        agrees_node(r, module_spec(tokens_view(toks@), p as int)),
{
    let ghost ts = tokens_view(toks@);
    let q0 = match expect_head(toks, p, "module") {
        Ok(q) => q,
        Err(e) => {
            return Err(e);
        },
    };
    let mut sections: Vec<Section> = Vec::new();
    let mut q = q0;
    assert(sections_sx(sections@, 0) =~= Seq::<Sx>::empty());
    while q < toks.len() && !at_kind(toks, q, TokenKind::RParen)
        invariant
            ts == tokens_view(toks@),
            entries_from(ts, q0 as int, seq![]) == entries_from(ts, q as int, sections_sx(sections@, sections.len() as int)),
            head_spec(ts, p as int, "module"@) is Ok,
            head_spec(ts, p as int, "module"@)->Ok_0 == q0,
        decreases toks.len() - q,
    {
        match parse_entry(toks, q) {
            Err(e) => {
                proof {
                    lemma_entries_fail(ts, q as int, sections_sx(sections@, sections.len() as int), e@);
                }
                return Err(e);
            },
            Ok((x, q1)) => {
                proof {
                    lemma_entries_step(ts, q as int, sections_sx(sections@, sections.len() as int), entry_sx(x), q1 as int);
                }
                add_entry(&mut sections, x);
                q = q1;
            },
        }
    }
    let q3 = match expect_close(toks, q) {
        Ok(q3) => q3,
        Err(e) => {
            return Err(e);
        },
    };
    Ok((Module::with_sections(sections), q3))
}

/// A whole document: one module and nothing after it.
pub open spec fn document_spec(ts: Toks) -> Result<Sx, ErrorV> {
    match module_spec(ts, 0) {
        Err(e) => Err(e),
        Ok((m, q)) => if q == ts.len() {
            Ok(m)
        } else {
            Err(ErrorV::Unexpected(q, Expected::EndOfInput))
        },
    }
}

/// Reads a document from source text: its module prints as the tree that
/// `document_spec` gives for the text's tokens.
pub fn parse_document(src: &str) -> (r: Result<Document, Error>)
    ensures
        match crate::lexer::tokenize_spec(src@) {
            None => r is Err && r->Err_0@ == ErrorV::Lex,
            Some(ts) => match document_spec(ts) {
                Ok(m) => r is Ok && node_sx(r->Ok_0.module) == m,
                Err(e) => r is Err && r->Err_0@ == e,
            },
        },
{
    let toks = match crate::lexer::tokenize(src) {
        Ok(t) => t,
        Err(e) => {
            return Err(e);
        },
    };
    match parse_module(&toks, 0) {
        Err(e) => Err(e),
        Ok((m, q)) => if q == toks.len() {
            Ok(Document::new(m))
        } else {
            Err(Error::Unexpected { pos: q, expected: Expected::EndOfInput })
        },
    }
}

} // verus!
