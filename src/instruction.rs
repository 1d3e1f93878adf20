use vstd::prelude::*;

use crate::error::{agrees, Error, ErrorV};
use crate::index::{index_spec, index_text, parse_index, parse_integer, parse_value_type, value_type_spec, integer_token_spec, value_type_text, Index, IndexV, ValueType};
use crate::literal::IntegerLiteral;
use crate::sexpr::{lemma_view_exprs, view_expr, view_exprs, Atom, Expr, Node, SExpr, Sx};
use crate::token::{kind_is, tokens_view, str_eq, Token, TokenKind};

verus! {

broadcast use {vstd::std_specs::vec::axiom_vec_index_decreases, vstd::seq::axiom_seq_index_decreases};

/// The kinds of instruction that the grammar knows.
#[derive(Clone, Copy, Debug, PartialEq, Eq, Structural)]
pub enum Opcode {
    Block,
    Br,
    BrIf,
    BrTable,
    Call,
    Drop,
    GlobalGet,
    GlobalSet,
    I32Add,
    I32Const,
    I32Eq,
    I32Eqz,
    I32GtU,
    I32LtU,
    I32Ne,
    I32RemU,
    I32Sub,
    I64Const,
    If,
    Local,
    LocalGet,
    LocalSet,
    LocalTee,
    Loop,
    Then,
}

/// Whether an instruction takes an index operand.
#[derive(Clone, Copy, Debug, PartialEq, Eq, Structural)]
pub enum IndexSlot {
    NoIndex,
    Required,
    Optional,
}

/// The operands that an instruction kind declares, in this order: an index,
/// an integer literal, a value type.
#[derive(Clone, Copy, Debug, PartialEq, Eq, Structural)]
pub struct Schema {
    pub index: IndexSlot,
    pub integer: bool,
    pub value_type: bool,
}

/// How many kinds the table holds.
pub const OPCODE_COUNT: usize = 25;

pub open spec fn keyword_spec(op: Opcode) -> Seq<char> {
    match op {
        Opcode::Block => seq!['b', 'l', 'o', 'c', 'k'],
        Opcode::Br => seq!['b', 'r'],
        Opcode::BrIf => seq!['b', 'r', '_', 'i', 'f'],
        Opcode::BrTable => seq!['b', 'r', '_', 't', 'a', 'b', 'l', 'e'],
        Opcode::Call => seq!['c', 'a', 'l', 'l'],
        Opcode::Drop => seq!['d', 'r', 'o', 'p'],
        Opcode::GlobalGet => seq!['g', 'l', 'o', 'b', 'a', 'l', '.', 'g', 'e', 't'],
        Opcode::GlobalSet => seq!['g', 'l', 'o', 'b', 'a', 'l', '.', 's', 'e', 't'],
        Opcode::I32Add => seq!['i', '3', '2', '.', 'a', 'd', 'd'],
        Opcode::I32Const => seq!['i', '3', '2', '.', 'c', 'o', 'n', 's', 't'],
        Opcode::I32Eq => seq!['i', '3', '2', '.', 'e', 'q'],
        Opcode::I32Eqz => seq!['i', '3', '2', '.', 'e', 'q', 'z'],
        Opcode::I32GtU => seq!['i', '3', '2', '.', 'g', 't', '_', 'u'],
        Opcode::I32LtU => seq!['i', '3', '2', '.', 'l', 't', '_', 'u'],
        Opcode::I32Ne => seq!['i', '3', '2', '.', 'n', 'e'],
        Opcode::I32RemU => seq!['i', '3', '2', '.', 'r', 'e', 'm', '_', 'u'],
        Opcode::I32Sub => seq!['i', '3', '2', '.', 's', 'u', 'b'],
        Opcode::I64Const => seq!['i', '6', '4', '.', 'c', 'o', 'n', 's', 't'],
        Opcode::If => seq!['i', 'f'],
        Opcode::Local => seq!['l', 'o', 'c', 'a', 'l'],
        Opcode::LocalGet => seq!['l', 'o', 'c', 'a', 'l', '.', 'g', 'e', 't'],
        Opcode::LocalSet => seq!['l', 'o', 'c', 'a', 'l', '.', 's', 'e', 't'],
        Opcode::LocalTee => seq!['l', 'o', 'c', 'a', 'l', '.', 't', 'e', 'e'],
        Opcode::Loop => seq!['l', 'o', 'o', 'p'],
        Opcode::Then => seq!['t', 'h', 'e', 'n'],
    }
}

pub open spec fn schema_spec(op: Opcode) -> Schema {
    match op {
        Opcode::Block => Schema { index: IndexSlot::Optional, integer: false, value_type: false },
        Opcode::Br => Schema { index: IndexSlot::Required, integer: false, value_type: false },
        Opcode::BrIf => Schema { index: IndexSlot::Required, integer: false, value_type: false },
        Opcode::BrTable => Schema { index: IndexSlot::Required, integer: false, value_type: false },
        Opcode::Call => Schema { index: IndexSlot::Required, integer: false, value_type: false },
        Opcode::Drop => Schema { index: IndexSlot::NoIndex, integer: false, value_type: false },
        Opcode::GlobalGet => Schema { index: IndexSlot::Required, integer: false, value_type: false },
        Opcode::GlobalSet => Schema { index: IndexSlot::Required, integer: false, value_type: false },
        Opcode::I32Add => Schema { index: IndexSlot::NoIndex, integer: false, value_type: false },
        Opcode::I32Const => Schema { index: IndexSlot::NoIndex, integer: true, value_type: false },
        Opcode::I32Eq => Schema { index: IndexSlot::NoIndex, integer: false, value_type: false },
        Opcode::I32Eqz => Schema { index: IndexSlot::NoIndex, integer: false, value_type: false },
        Opcode::I32GtU => Schema { index: IndexSlot::NoIndex, integer: false, value_type: false },
        Opcode::I32LtU => Schema { index: IndexSlot::NoIndex, integer: false, value_type: false },
        Opcode::I32Ne => Schema { index: IndexSlot::NoIndex, integer: false, value_type: false },
        Opcode::I32RemU => Schema { index: IndexSlot::NoIndex, integer: false, value_type: false },
        Opcode::I32Sub => Schema { index: IndexSlot::NoIndex, integer: false, value_type: false },
        Opcode::I64Const => Schema { index: IndexSlot::NoIndex, integer: true, value_type: false },
        Opcode::If => Schema { index: IndexSlot::NoIndex, integer: false, value_type: false },
        Opcode::Local => Schema { index: IndexSlot::Required, integer: false, value_type: true },
        Opcode::LocalGet => Schema { index: IndexSlot::Required, integer: false, value_type: false },
        Opcode::LocalSet => Schema { index: IndexSlot::Required, integer: false, value_type: false },
        Opcode::LocalTee => Schema { index: IndexSlot::Required, integer: false, value_type: false },
        Opcode::Loop => Schema { index: IndexSlot::Optional, integer: false, value_type: false },
        Opcode::Then => Schema { index: IndexSlot::NoIndex, integer: false, value_type: false },
    }
}

/// The table's entry at `i`, in keyword lookup order.
pub open spec fn opcode_at(i: int) -> Opcode {
    if i == 0 {
        Opcode::Block
    }
    else if i == 1 {
        Opcode::Br
    }
    else if i == 2 {
        Opcode::BrIf
    }
    else if i == 3 {
        Opcode::BrTable
    }
    else if i == 4 {
        Opcode::Call
    }
    else if i == 5 {
        Opcode::Drop
    }
    else if i == 6 {
        Opcode::GlobalGet
    }
    else if i == 7 {
        Opcode::GlobalSet
    }
    else if i == 8 {
        Opcode::I32Add
    }
    else if i == 9 {
        Opcode::I32Const
    }
    else if i == 10 {
        Opcode::I32Eq
    }
    else if i == 11 {
        Opcode::I32Eqz
    }
    else if i == 12 {
        Opcode::I32GtU
    }
    else if i == 13 {
        Opcode::I32LtU
    }
    else if i == 14 {
        Opcode::I32Ne
    }
    else if i == 15 {
        Opcode::I32RemU
    }
    else if i == 16 {
        Opcode::I32Sub
    }
    else if i == 17 {
        Opcode::I64Const
    }
    else if i == 18 {
        Opcode::If
    }
    else if i == 19 {
        Opcode::Local
    }
    else if i == 20 {
        Opcode::LocalGet
    }
    else if i == 21 {
        Opcode::LocalSet
    }
    else if i == 22 {
        Opcode::LocalTee
    }
    else if i == 23 {
        Opcode::Loop
    }
    else if i == 24 {
        Opcode::Then
    } else {
        Opcode::Then
    }
}

/// The first kind at or after entry `i` whose keyword is `t`.
pub open spec fn lookup_from(t: Seq<char>, i: int) -> Option<Opcode>
    decreases OPCODE_COUNT - i,
{
    if i >= OPCODE_COUNT {
        None
    } else if keyword_spec(opcode_at(i)) == t {
        Some(opcode_at(i))
    } else {
        lookup_from(t, i + 1)
    }
}

/// The kind whose keyword is `t`, if any.
pub open spec fn lookup(t: Seq<char>) -> Option<Opcode> {
    lookup_from(t, 0)
}

impl Opcode {
    /// The keyword that names the kind.
    pub fn keyword(&self) -> (r: &'static str)
        ensures
            r@ == keyword_spec(*self),
    {
        proof {
            reveal_strlit("block");
            reveal_strlit("br");
            reveal_strlit("br_if");
            reveal_strlit("br_table");
            reveal_strlit("call");
            reveal_strlit("drop");
            reveal_strlit("global.get");
            reveal_strlit("global.set");
            reveal_strlit("i32.add");
            reveal_strlit("i32.const");
            reveal_strlit("i32.eq");
            reveal_strlit("i32.eqz");
            reveal_strlit("i32.gt_u");
            reveal_strlit("i32.lt_u");
            reveal_strlit("i32.ne");
            reveal_strlit("i32.rem_u");
            reveal_strlit("i32.sub");
            reveal_strlit("i64.const");
            reveal_strlit("if");
            reveal_strlit("local");
            reveal_strlit("local.get");
            reveal_strlit("local.set");
            reveal_strlit("local.tee");
            reveal_strlit("loop");
            reveal_strlit("then");
        }
        let r = match self {
            Opcode::Block => "block",
            Opcode::Br => "br",
            Opcode::BrIf => "br_if",
            Opcode::BrTable => "br_table",
            Opcode::Call => "call",
            Opcode::Drop => "drop",
            Opcode::GlobalGet => "global.get",
            Opcode::GlobalSet => "global.set",
            Opcode::I32Add => "i32.add",
            Opcode::I32Const => "i32.const",
            Opcode::I32Eq => "i32.eq",
            Opcode::I32Eqz => "i32.eqz",
            Opcode::I32GtU => "i32.gt_u",
            Opcode::I32LtU => "i32.lt_u",
            Opcode::I32Ne => "i32.ne",
            Opcode::I32RemU => "i32.rem_u",
            Opcode::I32Sub => "i32.sub",
            Opcode::I64Const => "i64.const",
            Opcode::If => "if",
            Opcode::Local => "local",
            Opcode::LocalGet => "local.get",
            Opcode::LocalSet => "local.set",
            Opcode::LocalTee => "local.tee",
            Opcode::Loop => "loop",
            Opcode::Then => "then",
        };
        assert(r@ =~= keyword_spec(*self));
        r
    }

    /// The operands that the kind declares.
    pub fn schema(&self) -> (r: Schema)
        ensures
            r == schema_spec(*self),
    {
        match self {
            Opcode::Block => Schema { index: IndexSlot::Optional, integer: false, value_type: false },
            Opcode::Br => Schema { index: IndexSlot::Required, integer: false, value_type: false },
            Opcode::BrIf => Schema { index: IndexSlot::Required, integer: false, value_type: false },
            Opcode::BrTable => Schema { index: IndexSlot::Required, integer: false, value_type: false },
            Opcode::Call => Schema { index: IndexSlot::Required, integer: false, value_type: false },
            Opcode::Drop => Schema { index: IndexSlot::NoIndex, integer: false, value_type: false },
            Opcode::GlobalGet => Schema { index: IndexSlot::Required, integer: false, value_type: false },
            Opcode::GlobalSet => Schema { index: IndexSlot::Required, integer: false, value_type: false },
            Opcode::I32Add => Schema { index: IndexSlot::NoIndex, integer: false, value_type: false },
            Opcode::I32Const => Schema { index: IndexSlot::NoIndex, integer: true, value_type: false },
            Opcode::I32Eq => Schema { index: IndexSlot::NoIndex, integer: false, value_type: false },
            Opcode::I32Eqz => Schema { index: IndexSlot::NoIndex, integer: false, value_type: false },
            Opcode::I32GtU => Schema { index: IndexSlot::NoIndex, integer: false, value_type: false },
            Opcode::I32LtU => Schema { index: IndexSlot::NoIndex, integer: false, value_type: false },
            Opcode::I32Ne => Schema { index: IndexSlot::NoIndex, integer: false, value_type: false },
            Opcode::I32RemU => Schema { index: IndexSlot::NoIndex, integer: false, value_type: false },
            Opcode::I32Sub => Schema { index: IndexSlot::NoIndex, integer: false, value_type: false },
            Opcode::I64Const => Schema { index: IndexSlot::NoIndex, integer: true, value_type: false },
            Opcode::If => Schema { index: IndexSlot::NoIndex, integer: false, value_type: false },
            Opcode::Local => Schema { index: IndexSlot::Required, integer: false, value_type: true },
            Opcode::LocalGet => Schema { index: IndexSlot::Required, integer: false, value_type: false },
            Opcode::LocalSet => Schema { index: IndexSlot::Required, integer: false, value_type: false },
            Opcode::LocalTee => Schema { index: IndexSlot::Required, integer: false, value_type: false },
            Opcode::Loop => Schema { index: IndexSlot::Optional, integer: false, value_type: false },
            Opcode::Then => Schema { index: IndexSlot::NoIndex, integer: false, value_type: false },
        }
    }

    fn at(i: usize) -> (r: Opcode)
        ensures
            r == opcode_at(i as int),
    {
        if i == 0 {
            Opcode::Block
        }
        else if i == 1 {
            Opcode::Br
        }
        else if i == 2 {
            Opcode::BrIf
        }
        else if i == 3 {
            Opcode::BrTable
        }
        else if i == 4 {
            Opcode::Call
        }
        else if i == 5 {
            Opcode::Drop
        }
        else if i == 6 {
            Opcode::GlobalGet
        }
        else if i == 7 {
            Opcode::GlobalSet
        }
        else if i == 8 {
            Opcode::I32Add
        }
        else if i == 9 {
            Opcode::I32Const
        }
        else if i == 10 {
            Opcode::I32Eq
        }
        else if i == 11 {
            Opcode::I32Eqz
        }
        else if i == 12 {
            Opcode::I32GtU
        }
        else if i == 13 {
            Opcode::I32LtU
        }
        else if i == 14 {
            Opcode::I32Ne
        }
        else if i == 15 {
            Opcode::I32RemU
        }
        else if i == 16 {
            Opcode::I32Sub
        }
        else if i == 17 {
            Opcode::I64Const
        }
        else if i == 18 {
            Opcode::If
        }
        else if i == 19 {
            Opcode::Local
        }
        else if i == 20 {
            Opcode::LocalGet
        }
        else if i == 21 {
            Opcode::LocalSet
        }
        else if i == 22 {
            Opcode::LocalTee
        }
        else if i == 23 {
            Opcode::Loop
        }
        else if i == 24 {
            Opcode::Then
        } else {
            Opcode::Then
        }
    }

    /// The kind whose keyword is `t`.
    pub fn lookup(t: &str) -> (r: Option<Opcode>)
        ensures
            r == lookup(t@),
    {
        let mut i: usize = 0;
        while i < OPCODE_COUNT
            invariant
                i <= OPCODE_COUNT,
                lookup(t@) == lookup_from(t@, i as int),
            decreases OPCODE_COUNT - i,
        {
            let op = Opcode::at(i);
            if str_eq(op.keyword(), t) {
                return Some(op);
            }
            i = i + 1;
        }
        None
    }
}

/// One instruction: its kind, the operands that the kind declares, and the
/// nested expressions that a folded form wrote inside its parens.
#[derive(Debug)]
pub struct Instruction {
    pub op: Opcode,
    pub idx: Option<Index>,
    pub integer: Option<IntegerLiteral>,
    pub value_type: Option<ValueType>,
    pub exprs: Vec<Expression>,
}

/// An instruction written in one of the two notations.
#[derive(Debug)]
pub enum Expression {
    /// A flat element of a sequence: `i32.const 1`.
    Unfolded(Instruction),
    /// Operands nested inside the instruction's parens: `(call $f (i32.const 1))`.
    Folded(Instruction),
}

/// An instruction as the contracts see it.
pub struct InstrV {
    pub op: Opcode,
    pub idx: Option<IndexV>,
    pub integer: Option<Seq<char>>,
    pub value_type: Option<ValueType>,
    pub exprs: Seq<ExpressionV>,
}

/// An expression as the contracts see it.
pub enum ExpressionV {
    Unfolded(InstrV),
    Folded(InstrV),
}

pub open spec fn view_instr(i: Instruction) -> InstrV
    decreases i, 0nat,
{
    InstrV {
        op: i.op,
        idx: match i.idx {
            Some(x) => Some(x@),
            None => None,
        },
        integer: match i.integer {
            Some(x) => Some(x@),
            None => None,
        },
        value_type: i.value_type,
        exprs: view_expressions(i.exprs, i.exprs.len() as int),
    }
}

pub open spec fn view_expression(e: Expression) -> ExpressionV
    decreases e, 1nat,
{
    match e {
        Expression::Unfolded(i) => ExpressionV::Unfolded(view_instr(i)),
        Expression::Folded(i) => ExpressionV::Folded(view_instr(i)),
    }
}

/// The views of the first `k` expressions of `v`.
pub open spec fn view_expressions(v: Vec<Expression>, k: int) -> Seq<ExpressionV>
    decreases v, k,
{
    if k <= 0 || k > v.len() {
        seq![]
    } else {
        view_expressions(v, k - 1).push(view_expression(v[k - 1]))
    }
}

pub proof fn lemma_view_expressions(v: Vec<Expression>, k: int)
    requires
        0 <= k <= v.len(),
    ensures
        view_expressions(v, k).len() == k,
        forall|i: int| 0 <= i < k ==> #[trigger] view_expressions(v, k)[i] == view_expression(v[i]),
    decreases k,
{
    if k > 0 {
        lemma_view_expressions(v, k - 1);
    }
}

impl View for Instruction {
    type V = InstrV;

    open spec fn view(&self) -> InstrV {
        view_instr(*self)
    }
}

impl View for Expression {
    type V = ExpressionV;

    open spec fn view(&self) -> ExpressionV {
        view_expression(*self)
    }
}

/// The instruction that `e` wraps.
pub open spec fn instr_of(e: ExpressionV) -> InstrV {
    match e {
        ExpressionV::Unfolded(i) => i,
        ExpressionV::Folded(i) => i,
    }
}

/// Reads the index operand that `slot` asks for at `p`. An optional one is
/// there when an integer or an identifier comes next.
pub open spec fn index_field_spec(ts: Seq<(TokenKind, Seq<char>)>, p: int, slot: IndexSlot) -> Result<(Option<IndexV>, int), ErrorV> {
    if slot == IndexSlot::NoIndex || (slot == IndexSlot::Optional && !kind_is(ts, p, TokenKind::Integer)
        && !kind_is(ts, p, TokenKind::Id)) {
        Ok((None, p))
    } else {
        match index_spec(ts, p) {
            Ok((x, q)) => Ok((Some(x), q)),
            Err(e) => Err(e),
        }
    }
}

pub open spec fn integer_field_spec(ts: Seq<(TokenKind, Seq<char>)>, p: int, present: bool) -> Result<(Option<Seq<char>>, int), ErrorV> {
    if !present {
        Ok((None, p))
    } else {
        match integer_token_spec(ts, p) {
            Ok((x, q)) => Ok((Some(x), q)),
            Err(e) => Err(e),
        }
    }
}

pub open spec fn value_type_field_spec(ts: Seq<(TokenKind, Seq<char>)>, p: int, present: bool) -> Result<(Option<ValueType>, int), ErrorV> {
    if !present {
        Ok((None, p))
    } else {
        match value_type_spec(ts, p) {
            Ok((x, q)) => Ok((Some(x), q)),
            Err(e) => Err(e),
        }
    }
}

/// One instruction read at `p`: its keyword, then each operand that its
/// kind declares, in order. The nested expressions start empty.
pub open spec fn instr_spec(ts: Seq<(TokenKind, Seq<char>)>, p: int) -> Result<(InstrV, int), ErrorV> {
    if kind_is(ts, p, TokenKind::Keyword) && lookup(ts[p].1) is Some {
        let op = lookup(ts[p].1)->Some_0;
        let sc = schema_spec(op);
        match index_field_spec(ts, p + 1, sc.index) {
            Err(e) => Err(e),
            Ok((idx, q1)) => match integer_field_spec(ts, q1, sc.integer) {
                Err(e) => Err(e),
                Ok((integer, q2)) => match value_type_field_spec(ts, q2, sc.value_type) {
                    Err(e) => Err(e),
                    Ok((value_type, q3)) => Ok(
                        (InstrV { op, idx, integer, value_type, exprs: seq![] }, q3),
                    ),
                },
            },
        }
    } else {
        Err(ErrorV::UnknownInstruction(p))
    }
}

impl Instruction {
    /// Reads one instruction at `p`, as `instr_spec` says; it always takes at
    /// least the keyword.
    pub fn parse(toks: &Vec<Token>, p: usize) -> (r: Result<(Instruction, usize), Error>)
        ensures
            agrees(r, instr_spec(tokens_view(toks@), p as int)),
            r is Ok ==> p < r->Ok_0.1 <= toks.len(),
    {
        if !(p < toks.len() && toks[p].kind == TokenKind::Keyword) {
            return Err(Error::UnknownInstruction { pos: p });
        }
        let op = match Opcode::lookup(toks[p].text.as_str()) {
            Some(op) => op,
            None => {
                return Err(Error::UnknownInstruction { pos: p });
            },
        };
        let sc = op.schema();
        let mut q = p + 1;
        let mut idx: Option<Index> = None;
        if sc.index == IndexSlot::Required || (sc.index == IndexSlot::Optional && (
        crate::token::at_kind(toks, q, TokenKind::Integer) || crate::token::at_kind(toks, q, TokenKind::Id))) {
            match parse_index(toks, q) {
                Ok((x, q1)) => {
                    idx = Some(x);
                    q = q1;
                },
                Err(e) => {
                    return Err(e);
                },
            }
        }
        let mut integer: Option<IntegerLiteral> = None;
        if sc.integer {
            match parse_integer(toks, q) {
                Ok((x, q1)) => {
                    integer = Some(x);
                    q = q1;
                },
                Err(e) => {
                    return Err(e);
                },
            }
        }
        let mut value_type: Option<ValueType> = None;
        if sc.value_type {
            match parse_value_type(toks, q) {
                Ok((x, q1)) => {
                    value_type = Some(x);
                    q = q1;
                },
                Err(e) => {
                    return Err(e);
                },
            }
        }
        let i = Instruction { op, idx, integer, value_type, exprs: Vec::new() };
        proof {
            lemma_view_expressions(i.exprs, 0);
            assert(view_instr(i).exprs =~= Seq::<ExpressionV>::empty());
        }
        Ok((i, q))
    }
}

/// The operands' texts in declared order: index, integer, value type.
pub open spec fn operand_texts(i: InstrV) -> Seq<Seq<char>> {
    (match i.idx {
        Some(x) => seq![index_text(x)],
        None => seq![],
    }) + (match i.integer {
        Some(t) => seq![t],
        None => seq![],
    }) + (match i.value_type {
        Some(v) => seq![value_type_text(v)],
        None => seq![],
    })
}

pub open spec fn atoms(ts: Seq<Seq<char>>) -> Seq<Sx> {
    ts.map_values(|t: Seq<char>| Sx::Atom(t))
}

/// A folded instruction as a node: the keyword heads it, the operands come
/// first, then the nested expressions.
pub open spec fn instr_node(i: InstrV) -> Sx
    decreases i, 1nat,
{
    Sx::Node(keyword_spec(i.op), children_sx(i))
}

/// A node's children for the instruction: operand atoms, then nested trees.
pub open spec fn children_sx(i: InstrV) -> Seq<Sx>
    decreases i, 0nat,
{
    atoms(operand_texts(i)) + exprs_sx(i.exprs, i.exprs.len() as int)
}

/// The tree of an expression: a folded one is a node, an unfolded one the
/// flat text of its keyword and operands.
pub open spec fn expression_sx(e: ExpressionV) -> Sx
    decreases e, 2nat,
{
    match e {
        ExpressionV::Folded(i) => instr_node(i),
        ExpressionV::Unfolded(i) => Sx::Atom(flat_text(i)),
    }
}

/// The trees of the first `k` expressions.
pub open spec fn exprs_sx(s: Seq<ExpressionV>, k: int) -> Seq<Sx>
    decreases s, k,
{
    if k <= 0 || k > s.len() {
        seq![]
    } else {
        exprs_sx(s, k - 1).push(expression_sx(s[k - 1]))
    }
}

pub proof fn lemma_exprs_sx(s: Seq<ExpressionV>, k: int)
    requires
        0 <= k <= s.len(),
    ensures
        exprs_sx(s, k).len() == k,
        forall|i: int| 0 <= i < k ==> #[trigger] exprs_sx(s, k)[i] == expression_sx(s[i]),
    decreases k,
{
    if k > 0 {
        lemma_exprs_sx(s, k - 1);
    }
}

/// The first `k` texts, each after one space.
pub open spec fn spaced(ts: Seq<Seq<char>>, k: int) -> Seq<char>
    decreases k,
{
    if k <= 0 || k > ts.len() {
        seq![]
    } else {
        spaced(ts, k - 1) + seq![' '] + ts[k - 1]
    }
}

/// An unfolded instruction as it is written: keyword, then operands.
pub open spec fn flat_text(i: InstrV) -> Seq<char> {
    keyword_spec(i.op) + spaced(operand_texts(i), operand_texts(i).len() as int)
}

impl Instruction {
    fn operand_strings(&self) -> (r: Vec<String>)
        ensures
            r@.map_values(|t: String| t@) == operand_texts(self@),
    {
        let mut r: Vec<String> = Vec::new();
        match &self.idx {
            Some(x) => r.push(x.to_string()),
            None => {},
        }
        match &self.integer {
            Some(x) => r.push(x.src().clone()),
            None => {},
        }
        match &self.value_type {
            Some(v) => r.push(v.to_string()),
            None => {},
        }
        assert(r@.map_values(|t: String| t@) =~= operand_texts(self@));
        r
    }

    /// The instruction in its flat form: `keyword operand ...`.
    pub fn as_atom(&self) -> (r: Atom)
        ensures
            r.0@ == flat_text(self@),
    {
        let ops = self.operand_strings();
        let ghost ts = operand_texts(self@);
        let mut s = self.op.keyword().to_string();
        let sp = " ";
        proof {
            reveal_strlit(" ");
        }
        let mut j: usize = 0;
        while j < ops.len()
            invariant
                j <= ops.len(),
                ops@.map_values(|t: String| t@) == ts,
                s@ == keyword_spec(self.op) + spaced(ts, j as int),
                sp@ == seq![' '],
            decreases ops.len() - j,
        {
            s.append(sp);
            s.append(ops[j].as_str());
            proof {
                assert(ts[j as int] == ops@[j as int]@);
            }
            j = j + 1;
            assert(s@ =~= keyword_spec(self.op) + spaced(ts, j as int));
        }
        Atom::new(s)
    }

    /// The operands as atoms, then the nested expressions' trees.
    fn children(&self) -> (r: Vec<Expr>)
        ensures
            view_exprs(r, r.len() as int) == children_sx(self@),
        decreases self, 0nat,
    {
        let ops = self.operand_strings();
        let ghost ts = operand_texts(self@);
        let ghost xs = view_expressions(self.exprs, self.exprs.len() as int);
        let ghost target = atoms(ts) + exprs_sx(xs, xs.len() as int);
        proof {
            lemma_view_expressions(self.exprs, self.exprs.len() as int);
            lemma_exprs_sx(xs, xs.len() as int);
        }
        let mut children: Vec<Expr> = Vec::new();
        let mut j: usize = 0;
        while j < ops.len()
            invariant
                j <= ops.len(),
                ops@.map_values(|t: String| t@) == ts,
                target == atoms(ts) + exprs_sx(xs, xs.len() as int),
                children.len() == j,
                forall|t: int| 0 <= t < j ==> #[trigger] view_expr(children[t]) == target[t],
            decreases ops.len() - j,
        {
            children.push(Expr::Atom(Atom::new(ops[j].clone())));
            proof {
                assert(ts[j as int] == ops@[j as int]@);
            }
            j = j + 1;
        }
        let m = ops.len();
        let mut k: usize = 0;
        while k < self.exprs.len()
            invariant
                k <= self.exprs.len(),
                m == ts.len(),
                target == atoms(ts) + exprs_sx(xs, xs.len() as int),
                xs == view_expressions(self.exprs, self.exprs.len() as int),
                xs.len() == self.exprs.len(),
                exprs_sx(xs, xs.len() as int).len() == xs.len(),
                forall|i: int| 0 <= i < xs.len() ==> #[trigger] xs[i] == view_expression(self.exprs[i]),
                forall|i: int| 0 <= i < xs.len() ==> #[trigger] exprs_sx(xs, xs.len() as int)[i] == expression_sx(xs[i]),
                children.len() == m + k,
                forall|t: int| 0 <= t < m + k ==> #[trigger] view_expr(children[t]) == target[t],
            decreases self.exprs.len() - k,
        {
            proof {
                assert(decreases_to!(self.exprs => self.exprs[k as int]));
            }
            let c = self.exprs[k].expr();
            children.push(c);
            k = k + 1;
        }
        proof {
            lemma_view_exprs(children, children.len() as int);
            assert(view_exprs(children, children.len() as int) =~= target);
        }
        children
    }

    /// The instruction as a node: `(keyword operand ... nested ...)`.
    pub fn to_expr(&self) -> (r: Expr)
        ensures
            view_expr(r) == instr_node(self@),
        decreases self, 1nat,
    {
        let n = Node { head: self.op.keyword().to_string(), children: self.children() };
        Expr::SExpr(n)
    }
}

impl SExpr for Instruction {
    open spec fn car_spec(&self) -> Seq<char> {
        keyword_spec(self.op)
    }

    open spec fn cdr_spec(&self) -> Seq<Sx> {
        children_sx(self@)
    }

    fn car(&self) -> (r: String) {
        self.op.keyword().to_string()
    }

    fn cdr(&self) -> (r: Vec<Expr>) {
        self.children()
    }
}

impl Expression {
    /// The tree that prints the expression in the notation it was written in.
    pub fn expr(&self) -> (r: Expr)
        ensures
            view_expr(r) == expression_sx(self@),
        decreases self, 2nat,
    {
        match self {
            Expression::Unfolded(i) => Expr::Atom(i.as_atom()),
            Expression::Folded(i) => {
                proof {
                    assert(decreases_to!(*self => (*self)->Folded_0));
                }
                i.to_expr()
            },
        }
    }
}

/// An instruction of kind `op` whose only operand is the index `$name`.
pub open spec fn with_symbol(op: Opcode, name: Seq<char>) -> InstrV {
    InstrV {
        op,
        idx: Some(IndexV::Symbolic(name)),
        integer: None,
        value_type: None,
        exprs: seq![],
    }
}

/// A constant instruction of kind `op` on the literal `lit`.
pub open spec fn with_literal(op: Opcode, lit: Seq<char>) -> InstrV {
    InstrV { op, idx: None, integer: Some(lit), value_type: None, exprs: seq![] }
}

fn symbol_instr(op: Opcode, s: &str) -> (r: Instruction)
    ensures
        r@ == with_symbol(op, s@),
{
    let r = Instruction {
        op,
        idx: Some(crate::index::symbolic(s)),
        integer: None,
        value_type: None,
        exprs: Vec::new(),
    };
    proof {
        lemma_view_expressions(r.exprs, 0);
        assert(r@.exprs =~= Seq::<ExpressionV>::empty());
    }
    r
}

fn literal_instr(op: Opcode, s: &str) -> (r: Result<Instruction, Error>)
    ensures
        match crate::literal::integer_spec(s@) {
            Ok(_) => r is Ok && r->Ok_0@ == with_literal(op, s@),
            Err(f) => r is Err && r->Err_0.is_fault(f, s@),
        },
{
    match IntegerLiteral::new(s.to_string()) {
        Ok(lit) => {
            let r = Instruction { op, idx: None, integer: Some(lit), value_type: None, exprs: Vec::new() };
            proof {
                lemma_view_expressions(r.exprs, 0);
                assert(r@.exprs =~= Seq::<ExpressionV>::empty());
            }
            Ok(r)
        },
        Err(e) => Err(e),
    }
}

/// Wraps an instruction in the folded notation.
pub fn fold(i: Instruction) -> (r: Expression)
    ensures
        r@ == ExpressionV::Folded(i@),
{
    Expression::Folded(i)
}

/// `global.get $name`.
pub fn global_get(name: &str) -> (r: Instruction)
    ensures
        r@ == with_symbol(Opcode::GlobalGet, name@),
{
    symbol_instr(Opcode::GlobalGet, name)
}

/// `local.get $name`.
pub fn local_get(name: &str) -> (r: Instruction)
    ensures
        r@ == with_symbol(Opcode::LocalGet, name@),
{
    symbol_instr(Opcode::LocalGet, name)
}

/// `call $name`.
pub fn call(name: &str) -> (r: Instruction)
    ensures
        r@ == with_symbol(Opcode::Call, name@),
{
    symbol_instr(Opcode::Call, name)
}

/// `i32.const` on an integer literal's text; the literal helpers' error if
/// the text is no literal.
pub fn i32_const(lit: &str) -> (r: Result<Instruction, Error>)
    ensures
        match crate::literal::integer_spec(lit@) {
            Ok(_) => r is Ok && r->Ok_0@ == with_literal(Opcode::I32Const, lit@),
            Err(f) => r is Err && r->Err_0.is_fault(f, lit@),
        },
{
    literal_instr(Opcode::I32Const, lit)
}

/// `i64.const` on an integer literal's text; the literal helpers' error if
/// the text is no literal.
pub fn i64_const(lit: &str) -> (r: Result<Instruction, Error>)
    ensures
        match crate::literal::integer_spec(lit@) {
            Ok(_) => r is Ok && r->Ok_0@ == with_literal(Opcode::I64Const, lit@),
            Err(f) => r is Err && r->Err_0.is_fault(f, lit@),
        },
{
    literal_instr(Opcode::I64Const, lit)
}

impl Instruction {
    /// Adds `x` as the last nested expression.
    pub fn push_expr(&mut self, x: Expression)
        ensures
            final(self)@ == (InstrV { exprs: old(self)@.exprs.push(x@), ..old(self)@ }),
    {
        let ghost before = self.exprs;
        self.exprs.push(x);
        proof {
            lemma_view_expressions(before, before.len() as int);
            lemma_view_expressions(self.exprs, self.exprs.len() as int);
            assert(view_expressions(self.exprs, self.exprs.len() as int) =~= view_expressions(
                before,
                before.len() as int,
            ).push(view_expression(x)));
        }
    }
}

} // verus!
