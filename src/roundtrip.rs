use vstd::prelude::*;

use crate::folding::{close, emit, fold_run, fold_spec, fold_step, region_done, LevelV};
use crate::index::{ValueType, id_name, index_spec, index_wf_view, integer_token_spec, value_type_spec, value_type_text, IndexV};
use crate::instruction::{
    index_field_spec, instr_spec, integer_field_spec, keyword_spec, lookup, lookup_from, opcode_at,
    schema_spec, value_type_field_spec, ExpressionV, IndexSlot, InstrV, Opcode,
};
use crate::literal::integer_spec;
use crate::token::{kind_is, TokenKind};

verus! {

broadcast use vstd::seq::axiom_seq_index_decreases;

pub type Tok = (TokenKind, Seq<char>);

/// The token that prints an index.
pub open spec fn index_token(x: IndexV) -> Tok {
    match x {
        IndexV::Numeric(s) => (TokenKind::Integer, s),
        IndexV::Symbolic(n) => (TokenKind::Id, seq!['$'] + n),
    }
}

/// The tokens that print an instruction without its nested expressions:
/// the keyword, then the operands in declared order.
pub open spec fn instr_tokens(i: InstrV) -> Seq<Tok> {
    seq![(TokenKind::Keyword, keyword_spec(i.op))] + (match i.idx {
        Some(x) => seq![index_token(x)],
        None => seq![],
    }) + (match i.integer {
        Some(s) => seq![(TokenKind::Integer, s)],
        None => seq![],
    }) + (match i.value_type {
        Some(v) => seq![(TokenKind::Keyword, value_type_text(v))],
        None => seq![],
    })
}

/// The tokens that the printer writes for an expression.
pub open spec fn expr_tokens(e: ExpressionV) -> Seq<Tok>
    decreases e, 1nat,
{
    match e {
        ExpressionV::Folded(i) => seq![(TokenKind::LParen, seq!['('])] + instr_tokens(i) + exprs_tokens(
            i.exprs,
            i.exprs.len() as int,
        ) + seq![(TokenKind::RParen, seq![')'])],
        ExpressionV::Unfolded(i) => instr_tokens(i),
    }
}

/// The tokens of the first `k` expressions, in order.
pub open spec fn exprs_tokens(s: Seq<ExpressionV>, k: int) -> Seq<Tok>
    decreases s, k,
{
    if k <= 0 || k > s.len() {
        seq![]
    } else {
        exprs_tokens(s, k - 1) + expr_tokens(s[k - 1])
    }
}

/// The instruction carries exactly the operands that its kind declares, each
/// of them valid.
pub open spec fn instr_wf(i: InstrV) -> bool {
    let sc = schema_spec(i.op);
    &&& (sc.index == IndexSlot::NoIndex ==> i.idx is None)
    &&& (sc.index == IndexSlot::Required ==> i.idx is Some)
    &&& (i.idx is Some ==> index_wf_view(i.idx->Some_0))
    &&& (sc.integer <==> i.integer is Some)
    &&& (i.integer is Some ==> integer_spec(i.integer->Some_0) is Ok)
    &&& (sc.value_type <==> i.value_type is Some)
}

/// A tree that the folding engine can give: valid instructions, and nothing
/// nested inside an unfolded one.
pub open spec fn expr_wf(e: ExpressionV) -> bool
    decreases e, 1nat,
{
    match e {
        ExpressionV::Folded(i) => instr_wf(i) && exprs_wf(i.exprs, i.exprs.len() as int),
        ExpressionV::Unfolded(i) => instr_wf(i) && i.exprs.len() == 0,
    }
}

pub open spec fn exprs_wf(s: Seq<ExpressionV>, k: int) -> bool
    decreases s, k,
{
    if k <= 0 || k > s.len() {
        true
    } else {
        exprs_wf(s, k - 1) && expr_wf(s[k - 1])
    }
}

/// No optional operand could be read from the token at `q`.
pub open spec fn follows_ok(ts: Seq<Tok>, q: int) -> bool {
    !kind_is(ts, q, TokenKind::Integer) && !kind_is(ts, q, TokenKind::Id)
}

/// Hands each of the first `k` expressions of `xs` to the machine state, in
/// order.
pub open spec fn emit_all(stack: Seq<LevelV>, out: Seq<ExpressionV>, xs: Seq<ExpressionV>, k: int) -> (
    Seq<LevelV>,
    Seq<ExpressionV>,
)
    decreases k,
{
    if k <= 0 || k > xs.len() {
        (stack, out)
    } else {
        let (st, o) = emit_all(stack, out, xs, k - 1);
        emit(st, o, xs[k - 1])
    }
}

/// Each kind's keyword looks up that kind.
proof fn lemma_lookup_keyword(op: Opcode)
    ensures
        lookup(keyword_spec(op)) == Some(op),
{
    reveal_with_fuel(lookup_from, 26);
    match op {
        Opcode::Block => {

            },
        Opcode::Br => {
                assert(keyword_spec(opcode_at(0)) != keyword_spec(Opcode::Br));
            },
        Opcode::BrIf => {
                assert(keyword_spec(Opcode::Block)[1] != keyword_spec(Opcode::BrIf)[1]);
                assert(keyword_spec(opcode_at(0)) != keyword_spec(Opcode::BrIf));
                assert(keyword_spec(Opcode::Br).len() != keyword_spec(Opcode::BrIf).len());
            assert(keyword_spec(opcode_at(1)) != keyword_spec(Opcode::BrIf));
            },
        Opcode::BrTable => {
                assert(keyword_spec(opcode_at(0)) != keyword_spec(Opcode::BrTable));
                assert(keyword_spec(Opcode::Br).len() != keyword_spec(Opcode::BrTable).len());
            assert(keyword_spec(opcode_at(1)) != keyword_spec(Opcode::BrTable));
                assert(keyword_spec(opcode_at(2)) != keyword_spec(Opcode::BrTable));
            },
        Opcode::Call => {
                assert(keyword_spec(opcode_at(0)) != keyword_spec(Opcode::Call));
                assert(keyword_spec(opcode_at(1)) != keyword_spec(Opcode::Call));
                assert(keyword_spec(opcode_at(2)) != keyword_spec(Opcode::Call));
                assert(keyword_spec(opcode_at(3)) != keyword_spec(Opcode::Call));
            },
        Opcode::Drop => {
                assert(keyword_spec(opcode_at(0)) != keyword_spec(Opcode::Drop));
                assert(keyword_spec(opcode_at(1)) != keyword_spec(Opcode::Drop));
                assert(keyword_spec(opcode_at(2)) != keyword_spec(Opcode::Drop));
                assert(keyword_spec(opcode_at(3)) != keyword_spec(Opcode::Drop));
                assert(keyword_spec(Opcode::Call)[0] != keyword_spec(Opcode::Drop)[0]);
                assert(keyword_spec(opcode_at(4)) != keyword_spec(Opcode::Drop));
            },
        Opcode::GlobalGet => {
                assert(keyword_spec(opcode_at(0)) != keyword_spec(Opcode::GlobalGet));
                assert(keyword_spec(opcode_at(1)) != keyword_spec(Opcode::GlobalGet));
                assert(keyword_spec(opcode_at(2)) != keyword_spec(Opcode::GlobalGet));
                assert(keyword_spec(opcode_at(3)) != keyword_spec(Opcode::GlobalGet));
                assert(keyword_spec(opcode_at(4)) != keyword_spec(Opcode::GlobalGet));
                assert(keyword_spec(opcode_at(5)) != keyword_spec(Opcode::GlobalGet));
            },
        Opcode::GlobalSet => {
                assert(keyword_spec(opcode_at(0)) != keyword_spec(Opcode::GlobalSet));
                assert(keyword_spec(opcode_at(1)) != keyword_spec(Opcode::GlobalSet));
                assert(keyword_spec(opcode_at(2)) != keyword_spec(Opcode::GlobalSet));
                assert(keyword_spec(opcode_at(3)) != keyword_spec(Opcode::GlobalSet));
                assert(keyword_spec(opcode_at(4)) != keyword_spec(Opcode::GlobalSet));
                assert(keyword_spec(opcode_at(5)) != keyword_spec(Opcode::GlobalSet));
                assert(keyword_spec(Opcode::GlobalGet)[7] != keyword_spec(Opcode::GlobalSet)[7]);
                assert(keyword_spec(opcode_at(6)) != keyword_spec(Opcode::GlobalSet));
            },
        Opcode::I32Add => {
                assert(keyword_spec(opcode_at(0)) != keyword_spec(Opcode::I32Add));
                assert(keyword_spec(opcode_at(1)) != keyword_spec(Opcode::I32Add));
                assert(keyword_spec(opcode_at(2)) != keyword_spec(Opcode::I32Add));
                assert(keyword_spec(opcode_at(3)) != keyword_spec(Opcode::I32Add));
                assert(keyword_spec(opcode_at(4)) != keyword_spec(Opcode::I32Add));
                assert(keyword_spec(opcode_at(5)) != keyword_spec(Opcode::I32Add));
                assert(keyword_spec(opcode_at(6)) != keyword_spec(Opcode::I32Add));
                assert(keyword_spec(opcode_at(7)) != keyword_spec(Opcode::I32Add));
            },
        Opcode::I32Const => {
                assert(keyword_spec(opcode_at(0)) != keyword_spec(Opcode::I32Const));
                assert(keyword_spec(opcode_at(1)) != keyword_spec(Opcode::I32Const));
                assert(keyword_spec(opcode_at(2)) != keyword_spec(Opcode::I32Const));
                assert(keyword_spec(opcode_at(3)) != keyword_spec(Opcode::I32Const));
                assert(keyword_spec(opcode_at(4)) != keyword_spec(Opcode::I32Const));
                assert(keyword_spec(opcode_at(5)) != keyword_spec(Opcode::I32Const));
                assert(keyword_spec(opcode_at(6)) != keyword_spec(Opcode::I32Const));
                assert(keyword_spec(opcode_at(7)) != keyword_spec(Opcode::I32Const));
                assert(keyword_spec(opcode_at(8)) != keyword_spec(Opcode::I32Const));
            },
        Opcode::I32Eq => {
                assert(keyword_spec(opcode_at(0)) != keyword_spec(Opcode::I32Eq));
                assert(keyword_spec(opcode_at(1)) != keyword_spec(Opcode::I32Eq));
                assert(keyword_spec(opcode_at(2)) != keyword_spec(Opcode::I32Eq));
                assert(keyword_spec(opcode_at(3)) != keyword_spec(Opcode::I32Eq));
                assert(keyword_spec(opcode_at(4)) != keyword_spec(Opcode::I32Eq));
                assert(keyword_spec(opcode_at(5)) != keyword_spec(Opcode::I32Eq));
                assert(keyword_spec(opcode_at(6)) != keyword_spec(Opcode::I32Eq));
                assert(keyword_spec(opcode_at(7)) != keyword_spec(Opcode::I32Eq));
                assert(keyword_spec(opcode_at(8)) != keyword_spec(Opcode::I32Eq));
                assert(keyword_spec(opcode_at(9)) != keyword_spec(Opcode::I32Eq));
            },
        Opcode::I32Eqz => {
                assert(keyword_spec(opcode_at(0)) != keyword_spec(Opcode::I32Eqz));
                assert(keyword_spec(opcode_at(1)) != keyword_spec(Opcode::I32Eqz));
                assert(keyword_spec(opcode_at(2)) != keyword_spec(Opcode::I32Eqz));
                assert(keyword_spec(opcode_at(3)) != keyword_spec(Opcode::I32Eqz));
                assert(keyword_spec(opcode_at(4)) != keyword_spec(Opcode::I32Eqz));
                assert(keyword_spec(opcode_at(5)) != keyword_spec(Opcode::I32Eqz));
                assert(keyword_spec(opcode_at(6)) != keyword_spec(Opcode::I32Eqz));
                assert(keyword_spec(opcode_at(7)) != keyword_spec(Opcode::I32Eqz));
                assert(keyword_spec(Opcode::I32Add)[4] != keyword_spec(Opcode::I32Eqz)[4]);
                assert(keyword_spec(opcode_at(8)) != keyword_spec(Opcode::I32Eqz));
                assert(keyword_spec(opcode_at(9)) != keyword_spec(Opcode::I32Eqz));
                assert(keyword_spec(Opcode::I32Eq).len() != keyword_spec(Opcode::I32Eqz).len());
            assert(keyword_spec(opcode_at(10)) != keyword_spec(Opcode::I32Eqz));
            },
        Opcode::I32GtU => {
                assert(keyword_spec(opcode_at(0)) != keyword_spec(Opcode::I32GtU));
                assert(keyword_spec(opcode_at(1)) != keyword_spec(Opcode::I32GtU));
                assert(keyword_spec(opcode_at(2)) != keyword_spec(Opcode::I32GtU));
                assert(keyword_spec(Opcode::BrTable)[0] != keyword_spec(Opcode::I32GtU)[0]);
                assert(keyword_spec(opcode_at(3)) != keyword_spec(Opcode::I32GtU));
                assert(keyword_spec(opcode_at(4)) != keyword_spec(Opcode::I32GtU));
                assert(keyword_spec(opcode_at(5)) != keyword_spec(Opcode::I32GtU));
                assert(keyword_spec(opcode_at(6)) != keyword_spec(Opcode::I32GtU));
                assert(keyword_spec(opcode_at(7)) != keyword_spec(Opcode::I32GtU));
                assert(keyword_spec(opcode_at(8)) != keyword_spec(Opcode::I32GtU));
                assert(keyword_spec(opcode_at(9)) != keyword_spec(Opcode::I32GtU));
                assert(keyword_spec(opcode_at(10)) != keyword_spec(Opcode::I32GtU));
                assert(keyword_spec(opcode_at(11)) != keyword_spec(Opcode::I32GtU));
            },
        Opcode::I32LtU => {
                assert(keyword_spec(opcode_at(0)) != keyword_spec(Opcode::I32LtU));
                assert(keyword_spec(opcode_at(1)) != keyword_spec(Opcode::I32LtU));
                assert(keyword_spec(opcode_at(2)) != keyword_spec(Opcode::I32LtU));
                assert(keyword_spec(Opcode::BrTable)[0] != keyword_spec(Opcode::I32LtU)[0]);
                assert(keyword_spec(opcode_at(3)) != keyword_spec(Opcode::I32LtU));
                assert(keyword_spec(opcode_at(4)) != keyword_spec(Opcode::I32LtU));
                assert(keyword_spec(opcode_at(5)) != keyword_spec(Opcode::I32LtU));
                assert(keyword_spec(opcode_at(6)) != keyword_spec(Opcode::I32LtU));
                assert(keyword_spec(opcode_at(7)) != keyword_spec(Opcode::I32LtU));
                assert(keyword_spec(opcode_at(8)) != keyword_spec(Opcode::I32LtU));
                assert(keyword_spec(opcode_at(9)) != keyword_spec(Opcode::I32LtU));
                assert(keyword_spec(opcode_at(10)) != keyword_spec(Opcode::I32LtU));
                assert(keyword_spec(opcode_at(11)) != keyword_spec(Opcode::I32LtU));
                assert(keyword_spec(Opcode::I32GtU)[4] != keyword_spec(Opcode::I32LtU)[4]);
                assert(keyword_spec(opcode_at(12)) != keyword_spec(Opcode::I32LtU));
            },
        Opcode::I32Ne => {
                assert(keyword_spec(opcode_at(0)) != keyword_spec(Opcode::I32Ne));
                assert(keyword_spec(opcode_at(1)) != keyword_spec(Opcode::I32Ne));
                assert(keyword_spec(opcode_at(2)) != keyword_spec(Opcode::I32Ne));
                assert(keyword_spec(opcode_at(3)) != keyword_spec(Opcode::I32Ne));
                assert(keyword_spec(opcode_at(4)) != keyword_spec(Opcode::I32Ne));
                assert(keyword_spec(opcode_at(5)) != keyword_spec(Opcode::I32Ne));
                assert(keyword_spec(opcode_at(6)) != keyword_spec(Opcode::I32Ne));
                assert(keyword_spec(opcode_at(7)) != keyword_spec(Opcode::I32Ne));
                assert(keyword_spec(opcode_at(8)) != keyword_spec(Opcode::I32Ne));
                assert(keyword_spec(opcode_at(9)) != keyword_spec(Opcode::I32Ne));
                assert(keyword_spec(Opcode::I32Eq)[4] != keyword_spec(Opcode::I32Ne)[4]);
                assert(keyword_spec(opcode_at(10)) != keyword_spec(Opcode::I32Ne));
                assert(keyword_spec(opcode_at(11)) != keyword_spec(Opcode::I32Ne));
                assert(keyword_spec(opcode_at(12)) != keyword_spec(Opcode::I32Ne));
                assert(keyword_spec(opcode_at(13)) != keyword_spec(Opcode::I32Ne));
            },
        Opcode::I32RemU => {
                assert(keyword_spec(opcode_at(0)) != keyword_spec(Opcode::I32RemU));
                assert(keyword_spec(opcode_at(1)) != keyword_spec(Opcode::I32RemU));
                assert(keyword_spec(opcode_at(2)) != keyword_spec(Opcode::I32RemU));
                assert(keyword_spec(opcode_at(3)) != keyword_spec(Opcode::I32RemU));
                assert(keyword_spec(opcode_at(4)) != keyword_spec(Opcode::I32RemU));
                assert(keyword_spec(opcode_at(5)) != keyword_spec(Opcode::I32RemU));
                assert(keyword_spec(opcode_at(6)) != keyword_spec(Opcode::I32RemU));
                assert(keyword_spec(opcode_at(7)) != keyword_spec(Opcode::I32RemU));
                assert(keyword_spec(opcode_at(8)) != keyword_spec(Opcode::I32RemU));
                assert(keyword_spec(Opcode::I32Const)[4] != keyword_spec(Opcode::I32RemU)[4]);
                assert(keyword_spec(opcode_at(9)) != keyword_spec(Opcode::I32RemU));
                assert(keyword_spec(opcode_at(10)) != keyword_spec(Opcode::I32RemU));
                assert(keyword_spec(opcode_at(11)) != keyword_spec(Opcode::I32RemU));
                assert(keyword_spec(opcode_at(12)) != keyword_spec(Opcode::I32RemU));
                assert(keyword_spec(opcode_at(13)) != keyword_spec(Opcode::I32RemU));
                assert(keyword_spec(opcode_at(14)) != keyword_spec(Opcode::I32RemU));
            },
        Opcode::I32Sub => {
                assert(keyword_spec(opcode_at(0)) != keyword_spec(Opcode::I32Sub));
                assert(keyword_spec(opcode_at(1)) != keyword_spec(Opcode::I32Sub));
                assert(keyword_spec(opcode_at(2)) != keyword_spec(Opcode::I32Sub));
                assert(keyword_spec(opcode_at(3)) != keyword_spec(Opcode::I32Sub));
                assert(keyword_spec(opcode_at(4)) != keyword_spec(Opcode::I32Sub));
                assert(keyword_spec(opcode_at(5)) != keyword_spec(Opcode::I32Sub));
                assert(keyword_spec(opcode_at(6)) != keyword_spec(Opcode::I32Sub));
                assert(keyword_spec(opcode_at(7)) != keyword_spec(Opcode::I32Sub));
                assert(keyword_spec(Opcode::I32Add)[4] != keyword_spec(Opcode::I32Sub)[4]);
                assert(keyword_spec(opcode_at(8)) != keyword_spec(Opcode::I32Sub));
                assert(keyword_spec(opcode_at(9)) != keyword_spec(Opcode::I32Sub));
                assert(keyword_spec(opcode_at(10)) != keyword_spec(Opcode::I32Sub));
                assert(keyword_spec(Opcode::I32Eqz)[4] != keyword_spec(Opcode::I32Sub)[4]);
                assert(keyword_spec(opcode_at(11)) != keyword_spec(Opcode::I32Sub));
                assert(keyword_spec(opcode_at(12)) != keyword_spec(Opcode::I32Sub));
                assert(keyword_spec(opcode_at(13)) != keyword_spec(Opcode::I32Sub));
                assert(keyword_spec(opcode_at(14)) != keyword_spec(Opcode::I32Sub));
                assert(keyword_spec(opcode_at(15)) != keyword_spec(Opcode::I32Sub));
            },
        Opcode::I64Const => {
                assert(keyword_spec(opcode_at(0)) != keyword_spec(Opcode::I64Const));
                assert(keyword_spec(opcode_at(1)) != keyword_spec(Opcode::I64Const));
                assert(keyword_spec(opcode_at(2)) != keyword_spec(Opcode::I64Const));
                assert(keyword_spec(opcode_at(3)) != keyword_spec(Opcode::I64Const));
                assert(keyword_spec(opcode_at(4)) != keyword_spec(Opcode::I64Const));
                assert(keyword_spec(opcode_at(5)) != keyword_spec(Opcode::I64Const));
                assert(keyword_spec(opcode_at(6)) != keyword_spec(Opcode::I64Const));
                assert(keyword_spec(opcode_at(7)) != keyword_spec(Opcode::I64Const));
                assert(keyword_spec(opcode_at(8)) != keyword_spec(Opcode::I64Const));
                assert(keyword_spec(Opcode::I32Const)[1] != keyword_spec(Opcode::I64Const)[1]);
                assert(keyword_spec(opcode_at(9)) != keyword_spec(Opcode::I64Const));
                assert(keyword_spec(opcode_at(10)) != keyword_spec(Opcode::I64Const));
                assert(keyword_spec(opcode_at(11)) != keyword_spec(Opcode::I64Const));
                assert(keyword_spec(opcode_at(12)) != keyword_spec(Opcode::I64Const));
                assert(keyword_spec(opcode_at(13)) != keyword_spec(Opcode::I64Const));
                assert(keyword_spec(opcode_at(14)) != keyword_spec(Opcode::I64Const));
                assert(keyword_spec(Opcode::I32RemU)[1] != keyword_spec(Opcode::I64Const)[1]);
                assert(keyword_spec(opcode_at(15)) != keyword_spec(Opcode::I64Const));
                assert(keyword_spec(opcode_at(16)) != keyword_spec(Opcode::I64Const));
            },
        Opcode::If => {
                assert(keyword_spec(opcode_at(0)) != keyword_spec(Opcode::If));
                assert(keyword_spec(Opcode::Br)[0] != keyword_spec(Opcode::If)[0]);
                assert(keyword_spec(opcode_at(1)) != keyword_spec(Opcode::If));
                assert(keyword_spec(opcode_at(2)) != keyword_spec(Opcode::If));
                assert(keyword_spec(opcode_at(3)) != keyword_spec(Opcode::If));
                assert(keyword_spec(opcode_at(4)) != keyword_spec(Opcode::If));
                assert(keyword_spec(opcode_at(5)) != keyword_spec(Opcode::If));
                assert(keyword_spec(opcode_at(6)) != keyword_spec(Opcode::If));
                assert(keyword_spec(opcode_at(7)) != keyword_spec(Opcode::If));
                assert(keyword_spec(opcode_at(8)) != keyword_spec(Opcode::If));
                assert(keyword_spec(opcode_at(9)) != keyword_spec(Opcode::If));
                assert(keyword_spec(opcode_at(10)) != keyword_spec(Opcode::If));
                assert(keyword_spec(opcode_at(11)) != keyword_spec(Opcode::If));
                assert(keyword_spec(opcode_at(12)) != keyword_spec(Opcode::If));
                assert(keyword_spec(opcode_at(13)) != keyword_spec(Opcode::If));
                assert(keyword_spec(opcode_at(14)) != keyword_spec(Opcode::If));
                assert(keyword_spec(opcode_at(15)) != keyword_spec(Opcode::If));
                assert(keyword_spec(opcode_at(16)) != keyword_spec(Opcode::If));
                assert(keyword_spec(opcode_at(17)) != keyword_spec(Opcode::If));
            },
        Opcode::Local => {
                assert(keyword_spec(Opcode::Block)[0] != keyword_spec(Opcode::Local)[0]);
                assert(keyword_spec(opcode_at(0)) != keyword_spec(Opcode::Local));
                assert(keyword_spec(opcode_at(1)) != keyword_spec(Opcode::Local));
                assert(keyword_spec(Opcode::BrIf)[0] != keyword_spec(Opcode::Local)[0]);
                assert(keyword_spec(opcode_at(2)) != keyword_spec(Opcode::Local));
                assert(keyword_spec(opcode_at(3)) != keyword_spec(Opcode::Local));
                assert(keyword_spec(opcode_at(4)) != keyword_spec(Opcode::Local));
                assert(keyword_spec(opcode_at(5)) != keyword_spec(Opcode::Local));
                assert(keyword_spec(opcode_at(6)) != keyword_spec(Opcode::Local));
                assert(keyword_spec(opcode_at(7)) != keyword_spec(Opcode::Local));
                assert(keyword_spec(opcode_at(8)) != keyword_spec(Opcode::Local));
                assert(keyword_spec(opcode_at(9)) != keyword_spec(Opcode::Local));
                assert(keyword_spec(opcode_at(10)) != keyword_spec(Opcode::Local));
                assert(keyword_spec(opcode_at(11)) != keyword_spec(Opcode::Local));
                assert(keyword_spec(opcode_at(12)) != keyword_spec(Opcode::Local));
                assert(keyword_spec(opcode_at(13)) != keyword_spec(Opcode::Local));
                assert(keyword_spec(opcode_at(14)) != keyword_spec(Opcode::Local));
                assert(keyword_spec(opcode_at(15)) != keyword_spec(Opcode::Local));
                assert(keyword_spec(opcode_at(16)) != keyword_spec(Opcode::Local));
                assert(keyword_spec(opcode_at(17)) != keyword_spec(Opcode::Local));
                assert(keyword_spec(opcode_at(18)) != keyword_spec(Opcode::Local));
            },
        Opcode::LocalGet => {
                assert(keyword_spec(opcode_at(0)) != keyword_spec(Opcode::LocalGet));
                assert(keyword_spec(opcode_at(1)) != keyword_spec(Opcode::LocalGet));
                assert(keyword_spec(opcode_at(2)) != keyword_spec(Opcode::LocalGet));
                assert(keyword_spec(opcode_at(3)) != keyword_spec(Opcode::LocalGet));
                assert(keyword_spec(opcode_at(4)) != keyword_spec(Opcode::LocalGet));
                assert(keyword_spec(opcode_at(5)) != keyword_spec(Opcode::LocalGet));
                assert(keyword_spec(opcode_at(6)) != keyword_spec(Opcode::LocalGet));
                assert(keyword_spec(opcode_at(7)) != keyword_spec(Opcode::LocalGet));
                assert(keyword_spec(opcode_at(8)) != keyword_spec(Opcode::LocalGet));
                assert(keyword_spec(Opcode::I32Const)[0] != keyword_spec(Opcode::LocalGet)[0]);
                assert(keyword_spec(opcode_at(9)) != keyword_spec(Opcode::LocalGet));
                assert(keyword_spec(opcode_at(10)) != keyword_spec(Opcode::LocalGet));
                assert(keyword_spec(opcode_at(11)) != keyword_spec(Opcode::LocalGet));
                assert(keyword_spec(opcode_at(12)) != keyword_spec(Opcode::LocalGet));
                assert(keyword_spec(opcode_at(13)) != keyword_spec(Opcode::LocalGet));
                assert(keyword_spec(opcode_at(14)) != keyword_spec(Opcode::LocalGet));
                assert(keyword_spec(Opcode::I32RemU)[0] != keyword_spec(Opcode::LocalGet)[0]);
                assert(keyword_spec(opcode_at(15)) != keyword_spec(Opcode::LocalGet));
                assert(keyword_spec(opcode_at(16)) != keyword_spec(Opcode::LocalGet));
                assert(keyword_spec(Opcode::I64Const)[0] != keyword_spec(Opcode::LocalGet)[0]);
                assert(keyword_spec(opcode_at(17)) != keyword_spec(Opcode::LocalGet));
                assert(keyword_spec(opcode_at(18)) != keyword_spec(Opcode::LocalGet));
                assert(keyword_spec(Opcode::Local).len() != keyword_spec(Opcode::LocalGet).len());
            assert(keyword_spec(opcode_at(19)) != keyword_spec(Opcode::LocalGet));
            },
        Opcode::LocalSet => {
                assert(keyword_spec(opcode_at(0)) != keyword_spec(Opcode::LocalSet));
                assert(keyword_spec(opcode_at(1)) != keyword_spec(Opcode::LocalSet));
                assert(keyword_spec(opcode_at(2)) != keyword_spec(Opcode::LocalSet));
                assert(keyword_spec(opcode_at(3)) != keyword_spec(Opcode::LocalSet));
                assert(keyword_spec(opcode_at(4)) != keyword_spec(Opcode::LocalSet));
                assert(keyword_spec(opcode_at(5)) != keyword_spec(Opcode::LocalSet));
                assert(keyword_spec(opcode_at(6)) != keyword_spec(Opcode::LocalSet));
                assert(keyword_spec(opcode_at(7)) != keyword_spec(Opcode::LocalSet));
                assert(keyword_spec(opcode_at(8)) != keyword_spec(Opcode::LocalSet));
                assert(keyword_spec(Opcode::I32Const)[0] != keyword_spec(Opcode::LocalSet)[0]);
                assert(keyword_spec(opcode_at(9)) != keyword_spec(Opcode::LocalSet));
                assert(keyword_spec(opcode_at(10)) != keyword_spec(Opcode::LocalSet));
                assert(keyword_spec(opcode_at(11)) != keyword_spec(Opcode::LocalSet));
                assert(keyword_spec(opcode_at(12)) != keyword_spec(Opcode::LocalSet));
                assert(keyword_spec(opcode_at(13)) != keyword_spec(Opcode::LocalSet));
                assert(keyword_spec(opcode_at(14)) != keyword_spec(Opcode::LocalSet));
                assert(keyword_spec(Opcode::I32RemU)[0] != keyword_spec(Opcode::LocalSet)[0]);
                assert(keyword_spec(opcode_at(15)) != keyword_spec(Opcode::LocalSet));
                assert(keyword_spec(opcode_at(16)) != keyword_spec(Opcode::LocalSet));
                assert(keyword_spec(Opcode::I64Const)[0] != keyword_spec(Opcode::LocalSet)[0]);
                assert(keyword_spec(opcode_at(17)) != keyword_spec(Opcode::LocalSet));
                assert(keyword_spec(opcode_at(18)) != keyword_spec(Opcode::LocalSet));
                assert(keyword_spec(Opcode::Local).len() != keyword_spec(Opcode::LocalSet).len());
            assert(keyword_spec(opcode_at(19)) != keyword_spec(Opcode::LocalSet));
                assert(keyword_spec(Opcode::LocalGet)[6] != keyword_spec(Opcode::LocalSet)[6]);
                assert(keyword_spec(opcode_at(20)) != keyword_spec(Opcode::LocalSet));
            },
        Opcode::LocalTee => {
                assert(keyword_spec(opcode_at(0)) != keyword_spec(Opcode::LocalTee));
                assert(keyword_spec(opcode_at(1)) != keyword_spec(Opcode::LocalTee));
                assert(keyword_spec(opcode_at(2)) != keyword_spec(Opcode::LocalTee));
                assert(keyword_spec(opcode_at(3)) != keyword_spec(Opcode::LocalTee));
                assert(keyword_spec(opcode_at(4)) != keyword_spec(Opcode::LocalTee));
                assert(keyword_spec(opcode_at(5)) != keyword_spec(Opcode::LocalTee));
                assert(keyword_spec(opcode_at(6)) != keyword_spec(Opcode::LocalTee));
                assert(keyword_spec(opcode_at(7)) != keyword_spec(Opcode::LocalTee));
                assert(keyword_spec(opcode_at(8)) != keyword_spec(Opcode::LocalTee));
                assert(keyword_spec(Opcode::I32Const)[0] != keyword_spec(Opcode::LocalTee)[0]);
                assert(keyword_spec(opcode_at(9)) != keyword_spec(Opcode::LocalTee));
                assert(keyword_spec(opcode_at(10)) != keyword_spec(Opcode::LocalTee));
                assert(keyword_spec(opcode_at(11)) != keyword_spec(Opcode::LocalTee));
                assert(keyword_spec(opcode_at(12)) != keyword_spec(Opcode::LocalTee));
                assert(keyword_spec(opcode_at(13)) != keyword_spec(Opcode::LocalTee));
                assert(keyword_spec(opcode_at(14)) != keyword_spec(Opcode::LocalTee));
                assert(keyword_spec(Opcode::I32RemU)[0] != keyword_spec(Opcode::LocalTee)[0]);
                assert(keyword_spec(opcode_at(15)) != keyword_spec(Opcode::LocalTee));
                assert(keyword_spec(opcode_at(16)) != keyword_spec(Opcode::LocalTee));
                assert(keyword_spec(Opcode::I64Const)[0] != keyword_spec(Opcode::LocalTee)[0]);
                assert(keyword_spec(opcode_at(17)) != keyword_spec(Opcode::LocalTee));
                assert(keyword_spec(opcode_at(18)) != keyword_spec(Opcode::LocalTee));
                assert(keyword_spec(Opcode::Local).len() != keyword_spec(Opcode::LocalTee).len());
            assert(keyword_spec(opcode_at(19)) != keyword_spec(Opcode::LocalTee));
                assert(keyword_spec(Opcode::LocalGet)[6] != keyword_spec(Opcode::LocalTee)[6]);
                assert(keyword_spec(opcode_at(20)) != keyword_spec(Opcode::LocalTee));
                assert(keyword_spec(Opcode::LocalSet)[6] != keyword_spec(Opcode::LocalTee)[6]);
                assert(keyword_spec(opcode_at(21)) != keyword_spec(Opcode::LocalTee));
            },
        Opcode::Loop => {
                assert(keyword_spec(opcode_at(0)) != keyword_spec(Opcode::Loop));
                assert(keyword_spec(opcode_at(1)) != keyword_spec(Opcode::Loop));
                assert(keyword_spec(opcode_at(2)) != keyword_spec(Opcode::Loop));
                assert(keyword_spec(opcode_at(3)) != keyword_spec(Opcode::Loop));
                assert(keyword_spec(Opcode::Call)[0] != keyword_spec(Opcode::Loop)[0]);
                assert(keyword_spec(opcode_at(4)) != keyword_spec(Opcode::Loop));
                assert(keyword_spec(Opcode::Drop)[0] != keyword_spec(Opcode::Loop)[0]);
                assert(keyword_spec(opcode_at(5)) != keyword_spec(Opcode::Loop));
                assert(keyword_spec(opcode_at(6)) != keyword_spec(Opcode::Loop));
                assert(keyword_spec(opcode_at(7)) != keyword_spec(Opcode::Loop));
                assert(keyword_spec(opcode_at(8)) != keyword_spec(Opcode::Loop));
                assert(keyword_spec(opcode_at(9)) != keyword_spec(Opcode::Loop));
                assert(keyword_spec(opcode_at(10)) != keyword_spec(Opcode::Loop));
                assert(keyword_spec(opcode_at(11)) != keyword_spec(Opcode::Loop));
                assert(keyword_spec(opcode_at(12)) != keyword_spec(Opcode::Loop));
                assert(keyword_spec(opcode_at(13)) != keyword_spec(Opcode::Loop));
                assert(keyword_spec(opcode_at(14)) != keyword_spec(Opcode::Loop));
                assert(keyword_spec(opcode_at(15)) != keyword_spec(Opcode::Loop));
                assert(keyword_spec(opcode_at(16)) != keyword_spec(Opcode::Loop));
                assert(keyword_spec(opcode_at(17)) != keyword_spec(Opcode::Loop));
                assert(keyword_spec(opcode_at(18)) != keyword_spec(Opcode::Loop));
                assert(keyword_spec(opcode_at(19)) != keyword_spec(Opcode::Loop));
                assert(keyword_spec(opcode_at(20)) != keyword_spec(Opcode::Loop));
                assert(keyword_spec(opcode_at(21)) != keyword_spec(Opcode::Loop));
                assert(keyword_spec(opcode_at(22)) != keyword_spec(Opcode::Loop));
            },
        Opcode::Then => {
                assert(keyword_spec(opcode_at(0)) != keyword_spec(Opcode::Then));
                assert(keyword_spec(opcode_at(1)) != keyword_spec(Opcode::Then));
                assert(keyword_spec(opcode_at(2)) != keyword_spec(Opcode::Then));
                assert(keyword_spec(opcode_at(3)) != keyword_spec(Opcode::Then));
                assert(keyword_spec(Opcode::Call)[0] != keyword_spec(Opcode::Then)[0]);
                assert(keyword_spec(opcode_at(4)) != keyword_spec(Opcode::Then));
                assert(keyword_spec(Opcode::Drop)[0] != keyword_spec(Opcode::Then)[0]);
                assert(keyword_spec(opcode_at(5)) != keyword_spec(Opcode::Then));
                assert(keyword_spec(opcode_at(6)) != keyword_spec(Opcode::Then));
                assert(keyword_spec(opcode_at(7)) != keyword_spec(Opcode::Then));
                assert(keyword_spec(opcode_at(8)) != keyword_spec(Opcode::Then));
                assert(keyword_spec(opcode_at(9)) != keyword_spec(Opcode::Then));
                assert(keyword_spec(opcode_at(10)) != keyword_spec(Opcode::Then));
                assert(keyword_spec(opcode_at(11)) != keyword_spec(Opcode::Then));
                assert(keyword_spec(opcode_at(12)) != keyword_spec(Opcode::Then));
                assert(keyword_spec(opcode_at(13)) != keyword_spec(Opcode::Then));
                assert(keyword_spec(opcode_at(14)) != keyword_spec(Opcode::Then));
                assert(keyword_spec(opcode_at(15)) != keyword_spec(Opcode::Then));
                assert(keyword_spec(opcode_at(16)) != keyword_spec(Opcode::Then));
                assert(keyword_spec(opcode_at(17)) != keyword_spec(Opcode::Then));
                assert(keyword_spec(opcode_at(18)) != keyword_spec(Opcode::Then));
                assert(keyword_spec(opcode_at(19)) != keyword_spec(Opcode::Then));
                assert(keyword_spec(opcode_at(20)) != keyword_spec(Opcode::Then));
                assert(keyword_spec(opcode_at(21)) != keyword_spec(Opcode::Then));
                assert(keyword_spec(opcode_at(22)) != keyword_spec(Opcode::Then));
                assert(keyword_spec(Opcode::Loop)[0] != keyword_spec(Opcode::Then)[0]);
                assert(keyword_spec(opcode_at(23)) != keyword_spec(Opcode::Then));
            },
    }
}

/// The value type keywords differ from each other.
proof fn lemma_value_types_distinct()
    ensures
        forall|a: ValueType, b: ValueType| value_type_text(a) == value_type_text(b) ==> a == b,
{
    assert(value_type_text(ValueType::I32)[1] != value_type_text(ValueType::I64)[1]);
    assert(value_type_text(ValueType::I32)[0] != value_type_text(ValueType::F32)[0]);
    assert(value_type_text(ValueType::I32)[0] != value_type_text(ValueType::F64)[0]);
    assert(value_type_text(ValueType::I64)[0] != value_type_text(ValueType::F32)[0]);
    assert(value_type_text(ValueType::I64)[0] != value_type_text(ValueType::F64)[0]);
    assert(value_type_text(ValueType::F32)[1] != value_type_text(ValueType::F64)[1]);
}

/// The tokens `x` stand in `ts` from `p` on.
pub open spec fn tokens_at(ts: Seq<Tok>, p: int, x: Seq<Tok>) -> bool {
    0 <= p && p + x.len() <= ts.len() && forall|j: int| 0 <= j < x.len() ==> #[trigger] ts[p + j] == x[j]
}

proof fn lemma_tokens_at_split(ts: Seq<Tok>, p: int, a: Seq<Tok>, b: Seq<Tok>)
    requires
        tokens_at(ts, p, a + b),
    ensures
        tokens_at(ts, p, a),
        tokens_at(ts, p + a.len(), b),
{
    assert forall|j: int| 0 <= j < a.len() implies #[trigger] ts[p + j] == a[j] by {
        assert((a + b)[j] == a[j]);
    }
    assert forall|j: int| 0 <= j < b.len() implies #[trigger] ts[p + a.len() + j] == b[j] by {
        assert(ts[p + (a.len() + j)] == (a + b)[a.len() + j]);
        assert(p + a.len() + j == p + (a.len() + j));
    }
}

/// An instruction is read back from the tokens that print it.
proof fn lemma_instr_read(ts: Seq<Tok>, p: int, i: InstrV)
    requires
        instr_wf(i),
        tokens_at(ts, p, instr_tokens(i)),
        follows_ok(ts, p + instr_tokens(i).len()),
    ensures
        instr_spec(ts, p) == Ok::<(InstrV, int), crate::error::ErrorV>(
            (InstrV { exprs: seq![], ..i }, p + instr_tokens(i).len()),
        ),
{
    lemma_lookup_keyword(i.op);
    lemma_value_types_distinct();
    let sc = schema_spec(i.op);
    let kw = seq![(TokenKind::Keyword, keyword_spec(i.op))];
    let ix: Seq<Tok> = match i.idx {
        Some(x) => seq![index_token(x)],
        None => seq![],
    };
    let it: Seq<Tok> = match i.integer {
        Some(t) => seq![(TokenKind::Integer, t)],
        None => seq![],
    };
    let vt: Seq<Tok> = match i.value_type {
        Some(v) => seq![(TokenKind::Keyword, value_type_text(v))],
        None => seq![],
    };
    assert(instr_tokens(i) == kw + ix + it + vt);
    lemma_tokens_at_split(ts, p, kw + ix + it, vt);
    lemma_tokens_at_split(ts, p, kw + ix, it);
    lemma_tokens_at_split(ts, p, kw, ix);
    assert(ts[p + 0] == kw[0]);
    let q1 = p + 1 + ix.len();
    let q2 = q1 + it.len();
    let q3 = q2 + vt.len();
    match i.idx {
        Some(x) => {
            assert(ts[p + 1 + 0] == ix[0]);
            match x {
                IndexV::Numeric(t) => {},
                IndexV::Symbolic(n) => {
                    assert((seq!['$'] + n).drop_first() =~= n);
                },
            }
            assert(index_field_spec(ts, p + 1, sc.index) == Ok::<(Option<IndexV>, int), crate::error::ErrorV>((i.idx, q1)));
        },
        None => {
            assert(index_field_spec(ts, p + 1, sc.index) == Ok::<(Option<IndexV>, int), crate::error::ErrorV>((i.idx, q1)));
        },
    }
    match i.integer {
        Some(t) => {
            assert(ts[q1 + 0] == it[0]);
        },
        None => {},
    }
    assert(integer_field_spec(ts, q1, sc.integer) == Ok::<(Option<Seq<char>>, int), crate::error::ErrorV>((i.integer, q2)));
    match i.value_type {
        Some(v) => {
            assert(ts[q2 + 0] == vt[0]);
        },
        None => {},
    }
    assert(value_type_field_spec(ts, q2, sc.value_type) == Ok::<(Option<ValueType>, int), crate::error::ErrorV>((i.value_type, q3)));
}


/// The printed tokens of an expression start with an open paren or a keyword.
proof fn lemma_expr_tokens_head(e: ExpressionV)
    ensures
        expr_tokens(e).len() > 0,
        expr_tokens(e)[0].0 == TokenKind::LParen || expr_tokens(e)[0].0 == TokenKind::Keyword,
{
}

proof fn lemma_exprs_tokens_head(xs: Seq<ExpressionV>, k: int)
    requires
        0 < k <= xs.len(),
    ensures
        exprs_tokens(xs, k).len() > 0,
        exprs_tokens(xs, k)[0].0 == TokenKind::LParen || exprs_tokens(xs, k)[0].0 == TokenKind::Keyword,
    decreases k,
{
    lemma_expr_tokens_head(xs[k - 1]);
    if k > 1 {
        lemma_exprs_tokens_head(xs, k - 1);
        assert(exprs_tokens(xs, k)[0] == exprs_tokens(xs, k - 1)[0]);
    } else {
        assert(exprs_tokens(xs, 0) == Seq::<Tok>::empty());
        assert(exprs_tokens(xs, k) =~= expr_tokens(xs[0]));
    }
}

proof fn lemma_emit_all_level(stack: Seq<LevelV>, l: LevelV, out: Seq<ExpressionV>, xs: Seq<ExpressionV>, k: int)
    requires
        0 <= k <= xs.len(),
    ensures
        emit_all(stack.push(l), out, xs, k) == (stack.push((l.0, l.1 + xs.subrange(0, k))), out),
    decreases k,
{
    if k > 0 {
        lemma_emit_all_level(stack, l, out, xs, k - 1);
        let st = stack.push((l.0, l.1 + xs.subrange(0, k - 1)));
        assert(st.update(st.len() - 1, (st.last().0, st.last().1.push(xs[k - 1]))) =~= stack.push(
            (l.0, l.1 + xs.subrange(0, k)),
        )) by {
            assert(l.1 + xs.subrange(0, k - 1).push(xs[k - 1]) =~= l.1 + xs.subrange(0, k));
            assert((l.1 + xs.subrange(0, k - 1)).push(xs[k - 1]) =~= l.1 + xs.subrange(0, k));
        }
    } else {
        assert(l.1 + xs.subrange(0, 0) =~= l.1);
        assert(stack.push((l.0, l.1 + xs.subrange(0, k))) =~= stack.push(l));
    }
}

proof fn lemma_emit_all_top(out: Seq<ExpressionV>, xs: Seq<ExpressionV>, k: int)
    requires
        0 <= k <= xs.len(),
    ensures
        emit_all(seq![], out, xs, k) == (Seq::<LevelV>::empty(), out + xs.subrange(0, k)),
    decreases k,
{
    if k > 0 {
        lemma_emit_all_top(out, xs, k - 1);
        assert((out + xs.subrange(0, k - 1)).push(xs[k - 1]) =~= out + xs.subrange(0, k));
    } else {
        assert(out + xs.subrange(0, 0) =~= out);
    }
}

/// Reading the printed tokens of one well-formed expression hands exactly
/// that expression to the machine.
proof fn lemma_expr_run(ts: Seq<Tok>, p: int, e: ExpressionV, stack: Seq<LevelV>, out: Seq<ExpressionV>)
    requires
        expr_wf(e),
        tokens_at(ts, p, expr_tokens(e)),
        follows_ok(ts, p + expr_tokens(e).len()),
    ensures
        fold_run(ts, p, stack, out) == fold_run(
            ts,
            p + expr_tokens(e).len(),
            emit(stack, out, e).0,
            emit(stack, out, e).1,
        ),
    decreases e, 0nat,
{
    match e {
        ExpressionV::Unfolded(i) => {
            lemma_instr_read(ts, p, i);
            assert(i.exprs =~= Seq::<ExpressionV>::empty());
            assert(ts[p + 0] == instr_tokens(i)[0]);
            assert(!region_done(ts, p, stack));
        },
        ExpressionV::Folded(i) => {
            let n = i.exprs.len() as int;
            let lp = seq![(TokenKind::LParen, seq!['('])];
            let rp = seq![(TokenKind::RParen, seq![')'])];
            let it = instr_tokens(i);
            let ct = exprs_tokens(i.exprs, n);
            assert(expr_tokens(e) == lp + it + ct + rp);
            lemma_tokens_at_split(ts, p, lp + it + ct, rp);
            lemma_tokens_at_split(ts, p, lp + it, ct);
            lemma_tokens_at_split(ts, p, lp, it);
            let q1 = p + 1 + it.len();
            let q2 = q1 + ct.len();
            assert(ts[p + 0] == lp[0]);
            assert(ts[q2 + 0] == rp[0]);
            if n > 0 {
                lemma_exprs_tokens_head(i.exprs, n);
                assert(ts[q1 + 0] == ct[0]);
            }
            lemma_instr_read(ts, p + 1, i);
            let i0 = InstrV { exprs: seq![], ..i };
            assert(!region_done(ts, p, stack));
            assert(fold_run(ts, p, stack, out) == fold_run(ts, q1, stack.push((i0, seq![])), out));
            lemma_list_run(ts, q1, i.exprs, n, stack.push((i0, seq![])), out);
            lemma_emit_all_level(stack, (i0, seq![]), out, i.exprs, n);
            let lv = (i0, Seq::<ExpressionV>::empty() + i.exprs.subrange(0, n));
            assert(i0.exprs + lv.1 =~= i.exprs);
            assert(crate::folding::close(lv) == e);
            assert(stack.push(lv).drop_last() =~= stack);
            assert(!region_done(ts, q2, stack.push(lv)));
        },
    }
}

/// Reading the printed tokens of well-formed expressions hands them, in
/// order, to the machine.
proof fn lemma_list_run(
    ts: Seq<Tok>,
    p: int,
    xs: Seq<ExpressionV>,
    k: int,
    stack: Seq<LevelV>,
    out: Seq<ExpressionV>,
)
    requires
        0 <= k <= xs.len(),
        exprs_wf(xs, k),
        tokens_at(ts, p, exprs_tokens(xs, k)),
        follows_ok(ts, p + exprs_tokens(xs, k).len()),
    ensures
        fold_run(ts, p, stack, out) == fold_run(
            ts,
            p + exprs_tokens(xs, k).len(),
            emit_all(stack, out, xs, k).0,
            emit_all(stack, out, xs, k).1,
        ),
    decreases xs, k,
{
    if k > 0 {
        let pre = exprs_tokens(xs, k - 1);
        let last = expr_tokens(xs[k - 1]);
        lemma_tokens_at_split(ts, p, pre, last);
        lemma_expr_tokens_head(xs[k - 1]);
        assert(ts[p + pre.len() + 0] == last[0]);
        lemma_list_run(ts, p, xs, k - 1, stack, out);
        let (st, o) = emit_all(stack, out, xs, k - 1);
        lemma_expr_run(ts, p + pre.len(), xs[k - 1], st, o);
    }
}

/// Round trip: reading back the tokens that the printer writes for
/// well-formed expressions gives the same expressions, and ends at the end
/// of those tokens; printing them again therefore gives the same text.
pub proof fn lemma_round_trip(xs: Seq<ExpressionV>)
    requires
        exprs_wf(xs, xs.len() as int),
    ensures
        fold_spec(exprs_tokens(xs, xs.len() as int), 0) == Ok::<(Seq<ExpressionV>, int), crate::error::ErrorV>(
            (xs, exprs_tokens(xs, xs.len() as int).len() as int),
        ),
{
    let n = xs.len() as int;
    let ts = exprs_tokens(xs, n);
    assert(tokens_at(ts, 0, ts));
    lemma_list_run(ts, 0, xs, n, seq![], seq![]);
    lemma_emit_all_top(seq![], xs, n);
    assert(Seq::<ExpressionV>::empty() + xs.subrange(0, n) =~= xs);
}


proof fn lemma_exprs_wf_push(s: Seq<ExpressionV>, x: ExpressionV, k: int)
    requires
        0 <= k <= s.len(),
    ensures
        exprs_wf(s.push(x), k) == exprs_wf(s, k),
        k == s.len() ==> (exprs_wf(s.push(x), k + 1) == (exprs_wf(s, k) && expr_wf(x))),
    decreases k,
{
    if k > 0 {
        lemma_exprs_wf_push(s, x, k - 1);
        assert(s.push(x)[k - 1] == s[k - 1]);
    }
    assert(exprs_wf(s.push(x), k) == exprs_wf(s, k));
    if k == s.len() {
        assert(s.push(x)[k] == x);
        assert(exprs_wf(s.push(x), k + 1) == (exprs_wf(s.push(x), k) && expr_wf(s.push(x)[k])));
    }
}

/// An instruction that the grammar reads is well-formed and has nothing
/// nested yet.
proof fn lemma_instr_spec_wf(ts: Seq<Tok>, p: int)
    requires
        instr_spec(ts, p) is Ok,
    ensures
        instr_wf(instr_spec(ts, p)->Ok_0.0),
        instr_spec(ts, p)->Ok_0.0.exprs.len() == 0,
{
}

/// The machine's state holds only well-formed trees: the output, what each
/// open level has read, and the open instructions, which have nothing nested.
pub open spec fn state_wf(stack: Seq<LevelV>, out: Seq<ExpressionV>) -> bool {
    &&& exprs_wf(out, out.len() as int)
    &&& forall|j: int|
        0 <= j < stack.len() ==> instr_wf(#[trigger] stack[j].0) && stack[j].0.exprs.len() == 0 && exprs_wf(
            stack[j].1,
            stack[j].1.len() as int,
        )
}

proof fn lemma_emit_wf(stack: Seq<LevelV>, out: Seq<ExpressionV>, x: ExpressionV)
    requires
        state_wf(stack, out),
        expr_wf(x),
    ensures
        state_wf(emit(stack, out, x).0, emit(stack, out, x).1),
{
    if stack.len() > 0 {
        let l = stack.last();
        lemma_exprs_wf_push(l.1, x, l.1.len() as int);
        let st = emit(stack, out, x).0;
        assert forall|j: int| 0 <= j < st.len() implies instr_wf(#[trigger] st[j].0) && st[j].0.exprs.len() == 0
            && exprs_wf(st[j].1, st[j].1.len() as int) by {
            if j < stack.len() - 1 {
                assert(st[j] == stack[j]);
            }
        }
    } else {
        lemma_exprs_wf_push(out, x, out.len() as int);
    }
}

/// Every expression that the folding machine gives is well-formed.
pub proof fn lemma_fold_wf(ts: Seq<Tok>, p: int, stack: Seq<LevelV>, out: Seq<ExpressionV>)
    requires
        state_wf(stack, out),
        fold_run(ts, p, stack, out) is Ok,
    ensures
        exprs_wf(fold_run(ts, p, stack, out)->Ok_0.0, fold_run(ts, p, stack, out)->Ok_0.0.len() as int),
    decreases ts.len() - p,
{
    if !region_done(ts, p, stack) {
        let (q, st, o) = fold_step(ts, p, stack, out)->Ok_0;
        if kind_is(ts, p, TokenKind::LParen) {
            lemma_instr_spec_wf(ts, p + 1);
            let i = instr_spec(ts, p + 1)->Ok_0.0;
            assert(exprs_wf(Seq::<ExpressionV>::empty(), 0));
            assert forall|j: int| 0 <= j < st.len() implies instr_wf(#[trigger] st[j].0) && st[j].0.exprs.len()
                == 0 && exprs_wf(st[j].1, st[j].1.len() as int) by {
                if j < stack.len() {
                    assert(st[j] == stack[j]);
                }
            }
        } else if stack.len() > 0 && kind_is(ts, p, TokenKind::RParen) {
            let l = stack.last();
            assert(stack[stack.len() - 1] == l);
            assert(l.0.exprs + l.1 =~= l.1);
            assert(expr_wf(close(l)));
            let rest = stack.drop_last();
            assert forall|j: int| 0 <= j < rest.len() implies instr_wf(#[trigger] rest[j].0) && rest[j].0.exprs.len()
                == 0 && exprs_wf(rest[j].1, rest[j].1.len() as int) by {
                assert(rest[j] == stack[j]);
            }
            lemma_emit_wf(rest, out, close(l));
        } else {
            lemma_instr_spec_wf(ts, p);
            let i = instr_spec(ts, p)->Ok_0.0;
            assert(expr_wf(ExpressionV::Unfolded(i)));
            lemma_emit_wf(stack, out, ExpressionV::Unfolded(i));
        }
        lemma_fold_wf(ts, q, st, o);
    }
}

/// Round trip for the engine's own output: whatever expressions the folding
/// engine reads, the tokens that print them read back as the same
/// expressions, so printing, reading and printing again gives the same text.
pub proof fn lemma_engine_round_trip(ts: Seq<Tok>, p: int)
    requires
        fold_spec(ts, p) is Ok,
    ensures
        fold_spec(
            exprs_tokens(fold_spec(ts, p)->Ok_0.0, fold_spec(ts, p)->Ok_0.0.len() as int),
            0,
        ) == Ok::<(Seq<ExpressionV>, int), crate::error::ErrorV>(
            (
                fold_spec(ts, p)->Ok_0.0,
                exprs_tokens(fold_spec(ts, p)->Ok_0.0, fold_spec(ts, p)->Ok_0.0.len() as int).len() as int,
            ),
        ),
{
    assert(exprs_wf(Seq::<ExpressionV>::empty(), 0));
    lemma_fold_wf(ts, p, seq![], seq![]);
    lemma_round_trip(fold_spec(ts, p)->Ok_0.0);
}

} // verus!
