use vstd::prelude::*;

use crate::index::{index_text, value_type_text, Index, ValueType};
use crate::instruction::{expression_sx, view_expression, Expression};
use crate::literal::IntegerLiteral;
use crate::sexpr::{
    append_exprs, node, node_sx, nodes, push_atom, push_expr, quote, quoted, view_exprs, Expr, SExpr, Sx,
};

verus! {

/// The value types as atoms.
pub open spec fn type_atoms(v: Seq<ValueType>) -> Seq<Sx> {
    v.map_values(|t: ValueType| Sx::Atom(value_type_text(t)))
}

fn value_type_atoms(v: &Vec<ValueType>) -> (r: Vec<Expr>)
    ensures
        view_exprs(r, r.len() as int) == type_atoms(v@),
{
    let mut r: Vec<Expr> = Vec::new();
    let mut i: usize = 0;
    while i < v.len()
        invariant
            i <= v.len(),
            view_exprs(r, r.len() as int) == type_atoms(v@.subrange(0, i as int)),
        decreases v.len() - i,
    {
        let ghost before = view_exprs(r, r.len() as int);
        push_atom(&mut r, v[i].to_string());
        i = i + 1;
        assert(type_atoms(v@.subrange(0, i as int)) =~= before.push(Sx::Atom(value_type_text(v@[i - 1]))));
    }
    assert(v@.subrange(0, v.len() as int) =~= v@);
    r
}

/// The index as an atom, if there is one.
pub open spec fn opt_index_sx(i: Option<Index>) -> Seq<Sx> {
    match i {
        Some(x) => seq![Sx::Atom(index_text(x@))],
        None => seq![],
    }
}

pub fn push_opt_index(v: &mut Vec<Expr>, i: &Option<Index>)
    ensures
        view_exprs(*final(v), final(v).len() as int) == view_exprs(*old(v), old(v).len() as int) + opt_index_sx(*i),
{
    let ghost a = view_exprs(*v, v.len() as int);
    match i {
        Some(x) => {
            push_atom(v, x.to_string());
        },
        None => {},
    }
    assert(view_exprs(*v, v.len() as int) =~= a + opt_index_sx(*i));
}

/// An inline export: `(export "name")`.
#[derive(Clone, Debug)]
pub struct InlineExport {
    pub name: String,
}

impl InlineExport {
    pub fn new(name: String) -> (r: InlineExport)
        ensures
            r.name@ == name@,
    {
        InlineExport { name }
    }
}

impl SExpr for InlineExport {
    open spec fn car_spec(&self) -> Seq<char> {
        "export"@
    }

    open spec fn cdr_spec(&self) -> Seq<Sx> {
        seq![Sx::Atom(quoted(self.name@))]
    }

    fn car(&self) -> (r: String) {
        "export".to_string()
    }

    fn cdr(&self) -> (r: Vec<Expr>) {
        let mut r: Vec<Expr> = Vec::new();
        push_atom(&mut r, quote(self.name.as_str()));
        proof {
            crate::sexpr::lemma_view_exprs(r, 0);
            assert(view_exprs(r, 0) =~= Seq::<Sx>::empty());
        }
        r
    }
}

/// The export as a node, if there is one.
pub open spec fn opt_node_sx<T: SExpr>(x: Option<T>) -> Seq<Sx> {
    match x {
        Some(e) => seq![node_sx(e)],
        None => seq![],
    }
}

pub fn push_opt_node<T: SExpr>(v: &mut Vec<Expr>, x: &Option<T>)
    ensures
        view_exprs(*final(v), final(v).len() as int) == view_exprs(*old(v), old(v).len() as int) + opt_node_sx(*x),
{
    let ghost a = view_exprs(*v, v.len() as int);
    match x {
        Some(e) => {
            push_expr(v, node(e));
        },
        None => {},
    }
    assert(view_exprs(*v, v.len() as int) =~= a + opt_node_sx(*x));
}

/// `(result t ...)`: the types that a function returns.
#[derive(Clone, Debug)]
pub struct Results {
    pub value_types: Vec<ValueType>,
}

impl Results {
    pub fn with_value_types(value_types: Vec<ValueType>) -> (r: Results)
        ensures
            r.value_types@ == value_types@,
    {
        Results { value_types }
    }
}

impl SExpr for Results {
    open spec fn car_spec(&self) -> Seq<char> {
        "result"@
    }

    open spec fn cdr_spec(&self) -> Seq<Sx> {
        type_atoms(self.value_types@)
    }

    fn car(&self) -> (r: String) {
        "result".to_string()
    }

    fn cdr(&self) -> (r: Vec<Expr>) {
        value_type_atoms(&self.value_types)
    }
}

/// `(param ...)`: anonymous parameter types, or one named parameter.
#[derive(Clone, Debug)]
pub enum Params {
    Anonymous(Vec<ValueType>),
    /// The name without its `$`, and the type.
    Named(String, ValueType),
}

impl Params {
    pub fn with_value_types(value_types: Vec<ValueType>) -> (r: Params)
        ensures
            r matches Params::Anonymous(v) && v@ == value_types@,
    {
        Params::Anonymous(value_types)
    }

    pub fn named(name: &str, value_type: ValueType) -> (r: Params)
        ensures
            r matches Params::Named(n, t) && n@ == name@ && t == value_type,
    {
        Params::Named(name.to_string(), value_type)
    }
}

impl SExpr for Params {
    open spec fn car_spec(&self) -> Seq<char> {
        "param"@
    }

    open spec fn cdr_spec(&self) -> Seq<Sx> {
        match self {
            Params::Anonymous(v) => type_atoms(v@),
            Params::Named(n, t) => seq![Sx::Atom(seq!['$'] + n@), Sx::Atom(value_type_text(*t))],
        }
    }

    fn car(&self) -> (r: String) {
        "param".to_string()
    }

    fn cdr(&self) -> (r: Vec<Expr>) {
        match self {
            Params::Anonymous(v) => value_type_atoms(v),
            Params::Named(n, t) => {
                let mut r: Vec<Expr> = Vec::new();
                proof {
                    crate::sexpr::lemma_view_exprs(r, 0);
                }
                let id = crate::index::symbolic(n.as_str());
                push_atom(&mut r, id.to_string());
                push_atom(&mut r, t.to_string());
                assert(view_exprs(r, r.len() as int) =~= self.cdr_spec());
                r
            },
        }
    }
}

/// `(type idx)`: a reference to a declared function type.
#[derive(Clone, Debug)]
pub struct Type {
    pub idx: Index,
}

impl SExpr for Type {
    open spec fn car_spec(&self) -> Seq<char> {
        "type"@
    }

    open spec fn cdr_spec(&self) -> Seq<Sx> {
        seq![Sx::Atom(index_text(self.idx@))]
    }

    fn car(&self) -> (r: String) {
        "type".to_string()
    }

    fn cdr(&self) -> (r: Vec<Expr>) {
        let mut r: Vec<Expr> = Vec::new();
        proof {
            crate::sexpr::lemma_view_exprs(r, 0);
        }
        push_atom(&mut r, self.idx.to_string());
        assert(view_exprs(r, r.len() as int) =~= self.cdr_spec());
        r
    }
}

/// A function's signature as it is used: an optional type reference, then
/// its params and results.
#[derive(Clone, Debug)]
pub struct TypeUse {
    pub type_def: Option<Type>,
    pub params: Vec<Params>,
    pub results: Vec<Results>,
}

pub open spec fn type_use_sx(t: TypeUse) -> Seq<Sx> {
    opt_node_sx(t.type_def) + t.params@.map_values(|p: Params| node_sx(p)) + t.results@.map_values(
        |x: Results| node_sx(x),
    )
}

impl TypeUse {
    /// The signature's nodes, in order.
    pub fn exprs(&self) -> (r: Vec<Expr>)
        ensures
            view_exprs(r, r.len() as int) == type_use_sx(*self),
    {
        let mut r: Vec<Expr> = Vec::new();
        proof {
            crate::sexpr::lemma_view_exprs(r, 0);
            assert(view_exprs(r, 0) =~= Seq::<Sx>::empty());
        }
        push_opt_node(&mut r, &self.type_def);
        append_exprs(&mut r, nodes(&self.params));
        append_exprs(&mut r, nodes(&self.results));
        assert(view_exprs(r, r.len() as int) =~= type_use_sx(*self));
        r
    }
}

/// `(func (param ...) (result ...))`: a function type.
#[derive(Clone, Debug)]
pub struct FuncType {
    pub params: Vec<Params>,
    pub results: Vec<Results>,
}

impl FuncType {
    pub fn new(params: Vec<Params>, results: Vec<Results>) -> (r: FuncType)
        ensures
            r.params@ == params@,
            r.results@ == results@,
    {
        FuncType { params, results }
    }
}

impl SExpr for FuncType {
    open spec fn car_spec(&self) -> Seq<char> {
        "func"@
    }

    open spec fn cdr_spec(&self) -> Seq<Sx> {
        self.params@.map_values(|p: Params| node_sx(p)) + self.results@.map_values(|x: Results| node_sx(x))
    }

    fn car(&self) -> (r: String) {
        "func".to_string()
    }

    fn cdr(&self) -> (r: Vec<Expr>) {
        let mut r = nodes(&self.params);
        append_exprs(&mut r, nodes(&self.results));
        r
    }
}

/// A memory's size bounds: a minimum and an optional maximum.
#[derive(Clone, Debug)]
pub struct Limits {
    pub min: IntegerLiteral,
    pub max: Option<IntegerLiteral>,
}

pub open spec fn limits_sx(l: Limits) -> Seq<Sx> {
    seq![Sx::Atom(l.min@)] + match l.max {
        Some(m) => seq![Sx::Atom(m@)],
        None => seq![],
    }
}

impl Limits {
    pub fn new(min: IntegerLiteral, max: Option<IntegerLiteral>) -> (r: Limits)
        ensures
            r.min@ == min@,
            r.max == max,
    {
        Limits { min, max }
    }

    /// The bounds as atoms.
    pub fn exprs(&self) -> (r: Vec<Expr>)
        ensures
            view_exprs(r, r.len() as int) == limits_sx(*self),
    {
        let mut r: Vec<Expr> = Vec::new();
        proof {
            crate::sexpr::lemma_view_exprs(r, 0);
        }
        push_atom(&mut r, self.min.src().clone());
        match &self.max {
            Some(m) => {
                push_atom(&mut r, m.src().clone());
            },
            None => {},
        }
        assert(view_exprs(r, r.len() as int) =~= limits_sx(*self));
        r
    }
}

/// A memory's type: its limits.
#[derive(Clone, Debug)]
pub struct MemType {
    pub lim: Limits,
}

impl MemType {
    pub fn new(lim: Limits) -> (r: MemType)
        ensures
            r.lim.min@ == lim.min@,
            r.lim.max == lim.max,
    {
        MemType { lim }
    }

    pub fn exprs(&self) -> (r: Vec<Expr>)
        ensures
            view_exprs(r, r.len() as int) == limits_sx(self.lim),
    {
        self.lim.exprs()
    }
}

/// `(mut t)`: the type of a mutable global.
#[derive(Clone, Copy, Debug)]
pub struct GlobalTypeMut {
    pub val_type: ValueType,
}

impl GlobalTypeMut {
    pub fn new(val_type: ValueType) -> (r: GlobalTypeMut)
        ensures
            r.val_type == val_type,
    {
        GlobalTypeMut { val_type }
    }
}

impl SExpr for GlobalTypeMut {
    open spec fn car_spec(&self) -> Seq<char> {
        "mut"@
    }

    open spec fn cdr_spec(&self) -> Seq<Sx> {
        seq![Sx::Atom(value_type_text(self.val_type))]
    }

    fn car(&self) -> (r: String) {
        "mut".to_string()
    }

    fn cdr(&self) -> (r: Vec<Expr>) {
        let mut r: Vec<Expr> = Vec::new();
        proof {
            crate::sexpr::lemma_view_exprs(r, 0);
        }
        push_atom(&mut r, self.val_type.to_string());
        assert(view_exprs(r, r.len() as int) =~= self.cdr_spec());
        r
    }
}

/// The type of a global: mutable, or a bare value type.
#[derive(Clone, Copy, Debug)]
pub enum GlobalType {
    Mut(GlobalTypeMut),
    NonMut(ValueType),
}

pub open spec fn global_type_sx(g: GlobalType) -> Sx {
    match g {
        GlobalType::Mut(m) => node_sx(m),
        GlobalType::NonMut(v) => Sx::Atom(value_type_text(v)),
    }
}

impl GlobalType {
    pub fn expr(&self) -> (r: Expr)
        ensures
            crate::sexpr::view_expr(r) == global_type_sx(*self),
    {
        match self {
            GlobalType::Mut(m) => node(m),
            GlobalType::NonMut(v) => v.as_expr(),
        }
    }
}

/// The offset expression of a data segment.
#[derive(Debug)]
pub struct Offset(pub Expression);

impl Offset {
    pub fn new(expression: Expression) -> (r: Offset)
        ensures
            view_expression(r.0) == view_expression(expression),
    {
        Offset(expression)
    }

    pub fn expr(&self) -> (r: Expr)
        ensures
            crate::sexpr::view_expr(r) == expression_sx(view_expression(self.0)),
    {
        self.0.expr()
    }
}

/// The strings of a data segment.
#[derive(Clone, Debug)]
pub struct DataString {
    pub strings: Vec<String>,
}

pub open spec fn data_string_sx(d: DataString) -> Seq<Sx> {
    d.strings@.map_values(|s: String| Sx::Atom(quoted(s@)))
}

impl DataString {
    pub fn with_strings(strings: Vec<String>) -> (r: DataString)
        ensures
            r.strings@ == strings@,
    {
        DataString { strings }
    }

    /// Each string, quoted, as an atom.
    pub fn exprs(&self) -> (r: Vec<Expr>)
        ensures
            view_exprs(r, r.len() as int) == data_string_sx(*self),
    {
        let mut r: Vec<Expr> = Vec::new();
        let mut i: usize = 0;
        proof {
            crate::sexpr::lemma_view_exprs(r, 0);
        }
        while i < self.strings.len()
            invariant
                i <= self.strings.len(),
                view_exprs(r, r.len() as int) == self.strings@.subrange(0, i as int).map_values(
                    |s: String| Sx::Atom(quoted(s@)),
                ),
            decreases self.strings.len() - i,
        {
            let ghost before = view_exprs(r, r.len() as int);
            push_atom(&mut r, quote(self.strings[i].as_str()));
            i = i + 1;
            assert(self.strings@.subrange(0, i as int).map_values(|s: String| Sx::Atom(quoted(s@))) =~= before.push(
                Sx::Atom(quoted(self.strings@[i - 1]@)),
            ));
        }
        assert(self.strings@.subrange(0, self.strings.len() as int) =~= self.strings@);
        r
    }
}

} // verus!
