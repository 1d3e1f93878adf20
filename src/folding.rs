use vstd::prelude::*;

use crate::error::{Error, ErrorV, Expected};
use crate::lexer::{tokenize, tokenize_spec};
use crate::instruction::{
    index_field_spec, integer_field_spec, value_type_field_spec, instr_spec, lemma_view_expressions, view_expression, view_expressions, view_instr, ExpressionV,
    Expression, InstrV, Instruction,
};
use crate::index::{index_spec, integer_token_spec, value_type_spec};
use crate::token::{at_kind, kind_is, tokens_view, Token, TokenKind};

verus! {

/// An open folded instruction and the expressions read inside it so far.
#[derive(Debug)]
pub struct Level {
    pub instr: Instruction,
    pub subexprs: Vec<Expression>,
}

/// A level as the contracts see it.
pub type LevelV = (InstrV, Seq<ExpressionV>);

impl View for Level {
    type V = LevelV;

    open spec fn view(&self) -> LevelV {
        (view_instr(self.instr), view_expressions(self.subexprs, self.subexprs.len() as int))
    }
}

pub open spec fn stack_view(s: Seq<Level>) -> Seq<LevelV> {
    s.map_values(|l: Level| l@)
}

/// The instruction region is over: no level is open, and the input has
/// ended or a close paren that belongs to the surrounding form comes next.
pub open spec fn region_done(ts: Seq<(TokenKind, Seq<char>)>, p: int, stack: Seq<LevelV>) -> bool {
    stack.len() == 0 && (p >= ts.len() || ts[p].0 == TokenKind::RParen)
}

/// Hands `x` to the innermost open level, or to the output when none is open.
pub open spec fn emit(stack: Seq<LevelV>, out: Seq<ExpressionV>, x: ExpressionV) -> (Seq<LevelV>, Seq<ExpressionV>) {
    if stack.len() > 0 {
        (stack.update(stack.len() - 1, (stack.last().0, stack.last().1.push(x))), out)
    } else {
        (stack, out.push(x))
    }
}

/// A closed level: the folded instruction with what was read inside it.
pub open spec fn close(l: LevelV) -> ExpressionV {
    ExpressionV::Folded(InstrV { exprs: l.0.exprs + l.1, ..l.0 })
}

/// One transition of the folding machine at `p`: an open paren opens a
/// level on a freshly read instruction; a close paren closes the innermost
/// level; the end of input with a level open is an unterminated expression;
/// anything else is read as one unfolded instruction.
pub open spec fn fold_step(ts: Seq<(TokenKind, Seq<char>)>, p: int, stack: Seq<LevelV>, out: Seq<ExpressionV>)
    -> Result<(int, Seq<LevelV>, Seq<ExpressionV>), ErrorV>
{
    if kind_is(ts, p, TokenKind::LParen) {
        match instr_spec(ts, p + 1) {
            Err(e) => Err(e),
            Ok((i, q)) => Ok((q, stack.push((i, seq![])), out)),
        }
    } else if stack.len() > 0 && kind_is(ts, p, TokenKind::RParen) {
        let (st, o) = emit(stack.drop_last(), out, close(stack.last()));
        Ok((p + 1, st, o))
    } else if stack.len() > 0 && p >= ts.len() {
        Err(ErrorV::UnterminatedExpr(p))
    } else {
        match instr_spec(ts, p) {
            Err(e) => Err(e),
            Ok((i, q)) => {
                let (st, o) = emit(stack, out, ExpressionV::Unfolded(i));
                Ok((q, st, o))
            },
        }
    }
}

/// Runs the machine from `p` until the region is over: the top-level
/// expressions and the position where the region ends, or the first error.
pub open spec fn fold_run(ts: Seq<(TokenKind, Seq<char>)>, p: int, stack: Seq<LevelV>, out: Seq<ExpressionV>)
    -> Result<(Seq<ExpressionV>, int), ErrorV>
    decreases ts.len() - p,
{
    if region_done(ts, p, stack) {
        Ok((out, p))
    } else {
        match fold_step(ts, p, stack, out) {
            Err(e) => Err(e),
            Ok((q, st, o)) => if p < q <= ts.len() {
                fold_run(ts, q, st, o)
            } else {
                Err(ErrorV::UnterminatedExpr(p))
            },
        }
    }
}

/// The expressions of the region that starts at `p`.
pub open spec fn fold_spec(ts: Seq<(TokenKind, Seq<char>)>, p: int) -> Result<(Seq<ExpressionV>, int), ErrorV> {
    fold_run(ts, p, seq![], seq![])
}

proof fn lemma_view_expressions_push(old: Vec<Expression>, new: Vec<Expression>, x: Expression)
    requires
        new@ == old@.push(x),
    ensures
        view_expressions(new, new.len() as int) == view_expressions(old, old.len() as int).push(
            view_expression(x),
        ),
{
    lemma_view_expressions(old, old.len() as int);
    lemma_view_expressions(new, new.len() as int);
    assert(view_expressions(new, new.len() as int) =~= view_expressions(old, old.len() as int).push(
        view_expression(x),
    ));
}

proof fn lemma_view_expressions_append(a: Vec<Expression>, b: Vec<Expression>, ab: Vec<Expression>)
    requires
        ab@ == a@ + b@,
    ensures
        view_expressions(ab, ab.len() as int) == view_expressions(a, a.len() as int) + view_expressions(
            b,
            b.len() as int,
        ),
{
    lemma_view_expressions(a, a.len() as int);
    lemma_view_expressions(b, b.len() as int);
    lemma_view_expressions(ab, ab.len() as int);
    assert forall|i: int| 0 <= i < ab.len() implies #[trigger] view_expressions(ab, ab.len() as int)[i] == (
    view_expressions(a, a.len() as int) + view_expressions(b, b.len() as int))[i] by {
        if i >= a.len() {
            assert(ab@[i] == b@[i - a.len()]);
        }
    }
    assert(view_expressions(ab, ab.len() as int) =~= view_expressions(a, a.len() as int) + view_expressions(
        b,
        b.len() as int,
    ));
}

impl Level {
    /// Finishes the level: what was read inside becomes the instruction's
    /// nested expressions.
    fn close(self) -> (r: Expression)
        ensures
            view_expression(r) == close(self@),
    {
        let Level { mut instr, mut subexprs } = self;
        let ghost old_exprs = instr.exprs;
        let ghost subs = subexprs;
        instr.exprs.append(&mut subexprs);
        proof {
            lemma_view_expressions_append(old_exprs, subs, instr.exprs);
        }
        Expression::Folded(instr)
    }
}

/// The folding stack machine: the open levels, innermost last, and the
/// top-level expressions read so far.
pub struct ExpressionParser {
    exprs: Vec<Expression>,
    stack: Vec<Level>,
}

impl ExpressionParser {
    pub closed spec fn stack_v(&self) -> Seq<LevelV> {
        stack_view(self.stack@)
    }

    pub closed spec fn out_v(&self) -> Seq<ExpressionV> {
        view_expressions(self.exprs, self.exprs.len() as int)
    }

    /// A machine with no level open and nothing read.
    pub fn new() -> (r: ExpressionParser)
        ensures
            r.stack_v() == Seq::<LevelV>::empty(),
            r.out_v() == Seq::<ExpressionV>::empty(),
    {
        let r = ExpressionParser { exprs: Vec::new(), stack: Vec::new() };
        assert(r.stack_v() =~= Seq::<LevelV>::empty());
        r
    }

    /// Hands `x` to the innermost open level, or to the output.
    fn emit(&mut self, x: Expression)
        ensures
            (final(self).stack_v(), final(self).out_v()) == emit(old(self).stack_v(), old(self).out_v(), view_expression(x)),
    {
        let ghost old_stack = self.stack@;
        if self.stack.len() > 0 {
            let mut top = self.stack.pop().unwrap();
            let ghost old_subs = top.subexprs;
            top.subexprs.push(x);
            proof {
                lemma_view_expressions_push(old_subs, top.subexprs, x);
            }
            self.stack.push(top);
            assert(stack_view(self.stack@) =~= stack_view(old_stack).update(
                old_stack.len() - 1,
                (stack_view(old_stack).last().0, stack_view(old_stack).last().1.push(view_expression(x))),
            ));
        } else {
            let ghost old_exprs = self.exprs;
            self.exprs.push(x);
            proof {
                lemma_view_expressions_push(old_exprs, self.exprs, x);
            }
        }
    }

    /// Runs the machine over the region that starts at `pos`, as
    /// `fold_run` says: the top-level expressions and the position where the
    /// region ends (the input's end, or a close paren that the surrounding
    /// form owns), or the first error.
    pub fn parse(self, toks: &Vec<Token>, pos: usize) -> (r: Result<(Vec<Expression>, usize), Error>)
        requires
            pos <= toks.len(),
        ensures
            match fold_run(tokens_view(toks@), pos as int, self.stack_v(), self.out_v()) {
                Ok((xs, q)) => r is Ok && view_expressions(r->Ok_0.0, r->Ok_0.0.len() as int) == xs
                    && r->Ok_0.1 == q,
                Err(e) => r is Err && r->Err_0@ == e,
            },
            r is Ok ==> pos <= r->Ok_0.1,
    {
        let ghost ts = tokens_view(toks@);
        let ghost goal = fold_run(ts, pos as int, self.stack_v(), self.out_v());
        let mut m = self;
        let mut p = pos;
        while !(m.stack.len() == 0 && (p >= toks.len() || toks[p].kind == TokenKind::RParen))
            invariant
                p <= toks.len(),
                pos <= p,
                ts == tokens_view(toks@),
                goal == fold_run(ts, p as int, m.stack_v(), m.out_v()),
                goal == fold_run(ts, pos as int, self.stack_v(), self.out_v()),
            decreases toks.len() - p,
        {
            proof {
                assert(!region_done(ts, p as int, m.stack_v()));
            }
            if at_kind(toks, p, TokenKind::LParen) {
                match Instruction::parse(toks, p + 1) {
                    Err(e) => {
                        return Err(e);
                    },
                    Ok((i, q)) => {
                        let ghost old_stack = m.stack@;
                        let lv = Level { instr: i, subexprs: Vec::new() };
                        proof {
                            lemma_view_expressions(lv.subexprs, 0);
                            assert(lv@.1 =~= Seq::<ExpressionV>::empty());
                        }
                        m.stack.push(lv);
                        assert(stack_view(m.stack@) =~= stack_view(old_stack).push(lv@));
                        p = q;
                    },
                }
            } else if m.stack.len() > 0 && at_kind(toks, p, TokenKind::RParen) {
                let ghost old_stack = m.stack@;
                let lv = m.stack.pop().unwrap();
                assert(stack_view(m.stack@) =~= stack_view(old_stack).drop_last());
                let fin = lv.close();
                m.emit(fin);
                p = p + 1;
            } else if m.stack.len() > 0 && p >= toks.len() {
                return Err(Error::UnterminatedExpr { pos: p });
            } else {
                match Instruction::parse(toks, p) {
                    Err(e) => {
                        return Err(e);
                    },
                    Ok((i, q)) => {
                        m.emit(Expression::Unfolded(i));
                        p = q;
                    },
                }
            }
        }
        Ok((m.exprs, p))
    }
}

/// Reads the expressions of the instruction region that starts at `pos`.
pub fn parse_expressions(toks: &Vec<Token>, pos: usize) -> (r: Result<(Vec<Expression>, usize), Error>)
    requires
        pos <= toks.len(),
    ensures
        match fold_spec(tokens_view(toks@), pos as int) {
            Ok((xs, q)) => r is Ok && view_expressions(r->Ok_0.0, r->Ok_0.0.len() as int) == xs && r->Ok_0.1 == q,
            Err(e) => r is Err && r->Err_0@ == e,
        },
        r is Ok ==> pos <= r->Ok_0.1,
{
    let m = ExpressionParser::new();
    m.parse(toks, pos)
}

/// The expressions that the source text `src` holds as one instruction
/// region, read to its end. A close paren that no open level takes is an
/// error of its own.
pub open spec fn parse_text_spec(src: Seq<char>) -> Result<Seq<ExpressionV>, ErrorV> {
    match tokenize_spec(src) {
        None => Err(ErrorV::Lex),
        Some(ts) => match fold_spec(ts, 0) {
            Err(e) => Err(e),
            Ok((xs, q)) => if q == ts.len() {
                Ok(xs)
            } else {
                Err(ErrorV::Unexpected(q, Expected::EndOfInput))
            },
        },
    }
}

/// Reads source text as a sequence of folded and unfolded instructions.
pub fn parse_text(src: &str) -> (r: Result<Vec<Expression>, Error>)
    ensures
        match parse_text_spec(src@) {
            Ok(xs) => r is Ok && view_expressions(r->Ok_0, r->Ok_0.len() as int) == xs,
            Err(e) => r is Err && r->Err_0@ == e,
        },
{
    let toks = match tokenize(src) {
        Ok(t) => t,
        Err(e) => {
            return Err(e);
        },
    };
    match parse_expressions(&toks, 0) {
        Err(e) => Err(e),
        Ok((xs, q)) => if q == toks.len() {
            Ok(xs)
        } else {
            Err(Error::Unexpected { pos: q, expected: Expected::EndOfInput })
        },
    }
}

/// How many tokens of kind `k` stand in `ts[a..b]`.
pub open spec fn count_kind(ts: Seq<(TokenKind, Seq<char>)>, k: TokenKind, a: int, b: int) -> nat
    decreases b - a,
{
    if b <= a {
        0
    } else {
        count_kind(ts, k, a, b - 1) + if ts[b - 1].0 == k {
            1nat
        } else {
            0nat
        }
    }
}

proof fn lemma_count_split(ts: Seq<(TokenKind, Seq<char>)>, k: TokenKind, a: int, b: int, c: int)
    requires
        a <= b <= c,
    ensures
        count_kind(ts, k, a, c) == count_kind(ts, k, a, b) + count_kind(ts, k, b, c),
    decreases c - b,
{
    if c > b {
        lemma_count_split(ts, k, a, b, c - 1);
    }
}

/// A range of tokens that holds no paren of either kind.
pub open spec fn paren_free(ts: Seq<(TokenKind, Seq<char>)>, a: int, b: int) -> bool {
    forall|j: int| a <= j < b ==> #[trigger] ts[j].0 != TokenKind::LParen && ts[j].0 != TokenKind::RParen
}

proof fn lemma_paren_free_counts(ts: Seq<(TokenKind, Seq<char>)>, a: int, b: int)
    requires
        paren_free(ts, a, b),
    ensures
        count_kind(ts, TokenKind::LParen, a, b) == 0,
        count_kind(ts, TokenKind::RParen, a, b) == 0,
    decreases b - a,
{
    if b > a {
        lemma_paren_free_counts(ts, a, b - 1);
    }
}

/// One instruction takes at least its keyword, stays inside the input, and
/// reads no paren.
proof fn lemma_instr_extent(ts: Seq<(TokenKind, Seq<char>)>, p: int)
    requires
        0 <= p,
        instr_spec(ts, p) is Ok,
    ensures
        p < instr_spec(ts, p)->Ok_0.1 <= ts.len(),
        paren_free(ts, p, instr_spec(ts, p)->Ok_0.1),
{
    let op = crate::instruction::lookup(ts[p].1)->Some_0;
    let sc = crate::instruction::schema_spec(op);
    let (_, q1) = index_field_spec(ts, p + 1, sc.index)->Ok_0;
    let (_, q2) = integer_field_spec(ts, q1, sc.integer)->Ok_0;
    assert(q1 == p + 1 || q1 == p + 2);
    assert(q2 == q1 || q2 == q1 + 1);
    assert(paren_free(ts, p, instr_spec(ts, p)->Ok_0.1));
}

/// Whenever the machine finishes a region from a state with `stack` open,
/// the region it read closes exactly the levels that were open at the start
/// and every level it opened: its close parens number the open levels plus
/// its open parens.
pub proof fn lemma_fold_balance(
    ts: Seq<(TokenKind, Seq<char>)>,
    p: int,
    stack: Seq<LevelV>,
    out: Seq<ExpressionV>,
)
    requires
        0 <= p,
        fold_run(ts, p, stack, out) is Ok,
    ensures
        count_kind(ts, TokenKind::RParen, p, fold_run(ts, p, stack, out)->Ok_0.1) == stack.len() + count_kind(
            ts,
            TokenKind::LParen,
            p,
            fold_run(ts, p, stack, out)->Ok_0.1,
        ),
        p <= fold_run(ts, p, stack, out)->Ok_0.1,
    decreases ts.len() - p,
{
    if region_done(ts, p, stack) {
    } else {
        let (q, st, o) = fold_step(ts, p, stack, out)->Ok_0;
        let end = fold_run(ts, p, stack, out)->Ok_0.1;
        lemma_fold_balance(ts, q, st, o);
        lemma_count_split(ts, TokenKind::LParen, p, q, end);
        lemma_count_split(ts, TokenKind::RParen, p, q, end);
        if kind_is(ts, p, TokenKind::LParen) {
            lemma_instr_extent(ts, p + 1);
            lemma_paren_free_counts(ts, p + 1, q);
            lemma_count_split(ts, TokenKind::LParen, p, p + 1, q);
            lemma_count_split(ts, TokenKind::RParen, p, p + 1, q);
            assert(count_kind(ts, TokenKind::LParen, p, p + 1) == 1) by {
                reveal_with_fuel(count_kind, 2);
            }
            assert(count_kind(ts, TokenKind::RParen, p, p + 1) == 0) by {
                reveal_with_fuel(count_kind, 2);
            }
        } else if stack.len() > 0 && kind_is(ts, p, TokenKind::RParen) {
            assert(count_kind(ts, TokenKind::LParen, p, p + 1) == 0) by {
                reveal_with_fuel(count_kind, 2);
            }
            assert(count_kind(ts, TokenKind::RParen, p, p + 1) == 1) by {
                reveal_with_fuel(count_kind, 2);
            }
        } else {
            lemma_instr_extent(ts, p);
            lemma_paren_free_counts(ts, p, q);
        }
    }
}

/// An input with more open parens than close parens is never read whole as
/// an instruction region: some open paren is left unclosed.
pub proof fn lemma_unclosed_paren_rejected(src: Seq<char>)
    requires
        tokenize_spec(src) is Some,
        count_kind(tokenize_spec(src)->Some_0, TokenKind::LParen, 0, tokenize_spec(src)->Some_0.len() as int)
            > count_kind(tokenize_spec(src)->Some_0, TokenKind::RParen, 0, tokenize_spec(src)->Some_0.len() as int),
    ensures
        parse_text_spec(src) is Err,
{
    let ts = tokenize_spec(src)->Some_0;
    if fold_spec(ts, 0) is Ok {
        lemma_fold_balance(ts, 0, seq![], seq![]);
    }
}


/// A token that an optional operand could be read from.
pub open spec fn is_operand(ts: Seq<(TokenKind, Seq<char>)>, k: int) -> bool {
    kind_is(ts, k, TokenKind::Integer) || kind_is(ts, k, TokenKind::Id)
}

/// Reading an instruction looks at the tokens from `p` on only: the same
/// suffix elsewhere reads as the same instruction, as long.
proof fn lemma_instr_shift(
    ts: Seq<(TokenKind, Seq<char>)>,
    p: int,
    us: Seq<(TokenKind, Seq<char>)>,
    u: int,
)
    requires
        0 <= p <= ts.len(),
        0 <= u <= us.len(),
        ts.len() - p == us.len() - u,
        forall|k: int| 0 <= k < ts.len() - p ==> #[trigger] ts[p + k] == us[u + k],
        instr_spec(ts, p) is Ok,
    ensures
        instr_spec(us, u) is Ok,
        instr_spec(us, u)->Ok_0.0 == instr_spec(ts, p)->Ok_0.0,
        instr_spec(us, u)->Ok_0.1 - u == instr_spec(ts, p)->Ok_0.1 - p,
{
    let (_, q) = instr_spec(ts, p)->Ok_0;
    assert(ts[p + 0] == us[u + 0]);
    if p + 1 < ts.len() {
        assert(ts[p + 1] == us[u + 1]);
    }
    if p + 2 < ts.len() {
        assert(ts[p + 2] == us[u + 2]);
    }
    if p + 3 < ts.len() {
        assert(ts[p + 3] == us[u + 3]);
    }
}

/// Reading an instruction that ends by `j` looks at no token past `j`, and
/// at `j` itself only to see whether an operand stands there.
proof fn lemma_instr_prefix(ts: Seq<(TokenKind, Seq<char>)>, us: Seq<(TokenKind, Seq<char>)>, j: int, p: int)
    requires
        0 <= p <= j,
        j <= ts.len(),
        j <= us.len(),
        forall|k: int| 0 <= k < j ==> #[trigger] us[k] == ts[k],
        is_operand(ts, j) == is_operand(us, j),
        instr_spec(ts, p) is Ok,
        instr_spec(ts, p)->Ok_0.1 <= j,
    ensures
        instr_spec(us, p) == instr_spec(ts, p),
{
    lemma_instr_extent(ts, p);
    assert(us[p] == ts[p]);
    if p + 1 < j {
        assert(us[p + 1] == ts[p + 1]);
    }
    if p + 2 < j {
        assert(us[p + 2] == ts[p + 2]);
    }
    if p + 3 < j {
        assert(us[p + 3] == ts[p + 3]);
    }
}

/// In an input that the machine reads to its end, no operand token follows
/// a close paren that it reads.
proof fn lemma_after_close(
    ts: Seq<(TokenKind, Seq<char>)>,
    j: int,
    p: int,
    stack: Seq<LevelV>,
    out: Seq<ExpressionV>,
)
    requires
        0 <= p <= j < ts.len(),
        ts[j].0 == TokenKind::RParen,
        fold_run(ts, p, stack, out) is Ok,
        fold_run(ts, p, stack, out)->Ok_0.1 == ts.len(),
    ensures
        !is_operand(ts, j + 1),
    decreases j - p,
{
    assert(!region_done(ts, p, stack));
    let (q, st, o) = fold_step(ts, p, stack, out)->Ok_0;
    if p == j {
        if is_operand(ts, j + 1) {
            assert(!region_done(ts, j + 1, st));
            assert(fold_run(ts, j + 1, st, o) is Err);
        }
    } else {
        if kind_is(ts, p, TokenKind::LParen) {
            lemma_instr_extent(ts, p + 1);
            assert(q <= j) by {
                if q > j {
                    assert(ts[j].0 != TokenKind::RParen);
                }
            }
        } else if stack.len() > 0 && kind_is(ts, p, TokenKind::RParen) {
        } else {
            lemma_instr_extent(ts, p);
            assert(q <= j) by {
                if q > j {
                    assert(ts[j].0 != TokenKind::RParen);
                }
            }
        }
        lemma_after_close(ts, j, q, st, o);
    }
}

proof fn lemma_run_open(ts: Seq<(TokenKind, Seq<char>)>, p: int, stack: Seq<LevelV>, out: Seq<ExpressionV>)
    requires
        0 <= p,
        kind_is(ts, p, TokenKind::LParen),
        instr_spec(ts, p + 1) is Ok,
    ensures
        fold_run(ts, p, stack, out) == fold_run(
            ts,
            instr_spec(ts, p + 1)->Ok_0.1,
            stack.push((instr_spec(ts, p + 1)->Ok_0.0, seq![])),
            out,
        ),
{
    lemma_instr_extent(ts, p + 1);
}

proof fn lemma_run_close(ts: Seq<(TokenKind, Seq<char>)>, p: int, stack: Seq<LevelV>, out: Seq<ExpressionV>)
    requires
        0 <= p,
        stack.len() > 0,
        kind_is(ts, p, TokenKind::RParen),
    ensures
        fold_run(ts, p, stack, out) == fold_run(
            ts,
            p + 1,
            emit(stack.drop_last(), out, close(stack.last())).0,
            emit(stack.drop_last(), out, close(stack.last())).1,
        ),
{
}

proof fn lemma_run_instr(ts: Seq<(TokenKind, Seq<char>)>, p: int, stack: Seq<LevelV>, out: Seq<ExpressionV>)
    requires
        0 <= p < ts.len(),
        !kind_is(ts, p, TokenKind::LParen),
        !kind_is(ts, p, TokenKind::RParen),
        instr_spec(ts, p) is Ok,
    ensures
        fold_run(ts, p, stack, out) == fold_run(
            ts,
            instr_spec(ts, p)->Ok_0.1,
            emit(stack, out, ExpressionV::Unfolded(instr_spec(ts, p)->Ok_0.0)).0,
            emit(stack, out, ExpressionV::Unfolded(instr_spec(ts, p)->Ok_0.0)).1,
        ),
{
    lemma_instr_extent(ts, p);
}

/// After the removed close paren the shortened input runs one token behind
/// with one more level open, and so ends with a level still open.
proof fn lemma_shifted_run(
    ts: Seq<(TokenKind, Seq<char>)>,
    j: int,
    p: int,
    stack: Seq<LevelV>,
    out: Seq<ExpressionV>,
    stack2: Seq<LevelV>,
    out2: Seq<ExpressionV>,
)
    requires
        0 <= j < p <= ts.len(),
        fold_run(ts, p, stack, out) is Ok,
        fold_run(ts, p, stack, out)->Ok_0.1 == ts.len(),
        stack2.len() == stack.len() + 1,
    ensures
        fold_run(ts.remove(j), p - 1, stack2, out2) == Err::<(Seq<ExpressionV>, int), ErrorV>(
            ErrorV::UnterminatedExpr(ts.len() - 1),
        ),
    decreases ts.len() - p,
{
    let us = ts.remove(j);
    assert(us.len() == ts.len() - 1);
    assert forall|k: int| 0 <= k < ts.len() - p implies #[trigger] ts[p + k] == us[p - 1 + k] by {
        assert(us[p - 1 + k] == ts[p - 1 + k + 1]);
    }
    if region_done(ts, p, stack) {
        assert(p == ts.len());
        assert(!region_done(us, p - 1, stack2));
    } else {
        let (q, st, o) = fold_step(ts, p, stack, out)->Ok_0;
        assert(ts[p + 0] == us[p - 1 + 0]);
        if kind_is(ts, p, TokenKind::LParen) {
            lemma_instr_shift(ts, p + 1, us, p);
            let (i, _) = instr_spec(ts, p + 1)->Ok_0;
            lemma_run_open(us, p - 1, stack2, out2);
            lemma_shifted_run(ts, j, q, st, o, stack2.push((i, seq![])), out2);
        } else if stack.len() > 0 && kind_is(ts, p, TokenKind::RParen) {
            lemma_run_close(us, p - 1, stack2, out2);
            let (st2, o2) = emit(stack2.drop_last(), out2, close(stack2.last()));
            lemma_shifted_run(ts, j, q, st, o, st2, o2);
        } else {
            lemma_instr_shift(ts, p, us, p - 1);
            let (i, _) = instr_spec(ts, p)->Ok_0;
            lemma_run_instr(us, p - 1, stack2, out2);
            let (st2, o2) = emit(stack2, out2, ExpressionV::Unfolded(i));
            lemma_shifted_run(ts, j, q, st, o, st2, o2);
        }
    }
}

/// Up to the removed close paren the shortened input runs exactly as the
/// whole one.
proof fn lemma_prefix_run(
    ts: Seq<(TokenKind, Seq<char>)>,
    j: int,
    p: int,
    stack: Seq<LevelV>,
    out: Seq<ExpressionV>,
)
    requires
        0 <= p <= j < ts.len(),
        ts[j].0 == TokenKind::RParen,
        !is_operand(ts, j + 1),
        fold_run(ts, p, stack, out) is Ok,
        fold_run(ts, p, stack, out)->Ok_0.1 == ts.len(),
    ensures
        fold_run(ts.remove(j), p, stack, out) == Err::<(Seq<ExpressionV>, int), ErrorV>(
            ErrorV::UnterminatedExpr(ts.len() - 1),
        ),
    decreases j - p,
{
    let us = ts.remove(j);
    assert(us.len() == ts.len() - 1);
    assert forall|k: int| 0 <= k < j implies #[trigger] us[k] == ts[k] by {}
    assert(j < us.len() ==> us[j] == ts[j + 1]);
    assert(is_operand(us, j) == is_operand(ts, j + 1));
    assert(!region_done(ts, p, stack));
    let (q, st, o) = fold_step(ts, p, stack, out)->Ok_0;
    if p == j {
        lemma_shifted_run(ts, j, j + 1, st, o, stack, out);
    } else {
        assert(us[p] == ts[p]);
        assert(!region_done(us, p, stack));
        if kind_is(ts, p, TokenKind::LParen) {
            lemma_instr_extent(ts, p + 1);
            assert(q <= j) by {
                if q > j {
                    assert(ts[j].0 != TokenKind::RParen);
                }
            }
            lemma_instr_prefix(ts, us, j, p + 1);
        } else if stack.len() > 0 && kind_is(ts, p, TokenKind::RParen) {
        } else {
            lemma_instr_extent(ts, p);
            assert(q <= j) by {
                if q > j {
                    assert(ts[j].0 != TokenKind::RParen);
                }
            }
            lemma_instr_prefix(ts, us, j, p);
        }
        lemma_prefix_run(ts, j, q, st, o);
    }
}

/// Removing any one close paren from an input that the engine reads to its
/// end leaves a level open when the input runs out: the engine then reports
/// an unterminated expression at the end of the shortened input.
pub proof fn lemma_remove_close_paren(ts: Seq<(TokenKind, Seq<char>)>, j: int)
    requires
        fold_spec(ts, 0) is Ok,
        fold_spec(ts, 0)->Ok_0.1 == ts.len(),
        0 <= j < ts.len(),
        ts[j].0 == TokenKind::RParen,
    ensures
        fold_spec(ts.remove(j), 0) == Err::<(Seq<ExpressionV>, int), ErrorV>(
            ErrorV::UnterminatedExpr(ts.len() - 1),
        ),
{
    lemma_after_close(ts, j, 0, seq![], seq![]);
    lemma_prefix_run(ts, j, 0, seq![], seq![]);
}

} // verus!
