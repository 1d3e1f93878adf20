use vstd::prelude::*;

use crate::index::Index;
use crate::instruction::{expression_sx, exprs_sx, view_expression, view_expressions, Expression};
use crate::sexpr::{
    append_exprs, lemma_view_exprs, node, node_sx, nodes, push_atom, push_expr, quote, quoted, render,
    view_exprs, Expr, SExpr, Sx, ToWatParams,
};
use crate::types::{
    data_string_sx, global_type_sx, limits_sx, opt_index_sx, opt_node_sx, push_opt_index, push_opt_node,
    type_use_sx, DataString, FuncType, GlobalType, InlineExport, MemType, Offset, TypeUse,
};

verus! {

fn empty_exprs() -> (r: Vec<Expr>)
    ensures
        view_exprs(r, r.len() as int) == Seq::<Sx>::empty(),
{
    let r: Vec<Expr> = Vec::new();
    proof {
        lemma_view_exprs(r, 0);
        assert(view_exprs(r, 0) =~= Seq::<Sx>::empty());
    }
    r
}

/// The nested expressions' trees.
pub open spec fn body_sx(v: Vec<Expression>) -> Seq<Sx> {
    exprs_sx(view_expressions(v, v.len() as int), v.len() as int)
}

fn push_body(r: &mut Vec<Expr>, v: &Vec<Expression>)
    ensures
        view_exprs(*final(r), final(r).len() as int) == view_exprs(*old(r), old(r).len() as int) + body_sx(*v),
{
    let ghost xs = view_expressions(*v, v.len() as int);
    proof {
        crate::instruction::lemma_view_expressions(*v, v.len() as int);
        crate::instruction::lemma_exprs_sx(xs, v.len() as int);
    }
    let ghost a = view_exprs(*r, r.len() as int);
    let mut i: usize = 0;
    while i < v.len()
        invariant
            i <= v.len(),
            xs == view_expressions(*v, v.len() as int),
            xs.len() == v.len(),
            forall|j: int| 0 <= j < v.len() ==> #[trigger] xs[j] == view_expression(v[j]),
            exprs_sx(xs, v.len() as int).len() == v.len(),
            forall|j: int| 0 <= j < v.len() ==> #[trigger] exprs_sx(xs, v.len() as int)[j] == expression_sx(xs[j]),
            view_exprs(*r, r.len() as int) == a + exprs_sx(xs, v.len() as int).subrange(0, i as int),
        decreases v.len() - i,
    {
        push_expr(r, v[i].expr());
        i = i + 1;
        assert(exprs_sx(xs, v.len() as int).subrange(0, i as int) =~= exprs_sx(xs, v.len() as int).subrange(
            0,
            i - 1,
        ).push(expression_sx(xs[i - 1])));
    }
    assert(exprs_sx(xs, v.len() as int).subrange(0, v.len() as int) =~= exprs_sx(xs, v.len() as int));
}

/// `(type idx? (func ...))`: a declared function type.
#[derive(Clone, Debug)]
pub struct TypeSectionEntry {
    pub idx: Option<Index>,
    pub func_type: FuncType,
}

impl TypeSectionEntry {
    pub fn new(idx: Option<Index>, func_type: FuncType) -> (r: TypeSectionEntry)
        ensures
            r.idx == idx,
            r.func_type == func_type,
    {
        TypeSectionEntry { idx, func_type }
    }
}

impl SExpr for TypeSectionEntry {
    open spec fn car_spec(&self) -> Seq<char> {
        "type"@
    }

    open spec fn cdr_spec(&self) -> Seq<Sx> {
        opt_index_sx(self.idx) + seq![node_sx(self.func_type)]
    }

    fn car(&self) -> (r: String) {
        "type".to_string()
    }

    fn cdr(&self) -> (r: Vec<Expr>) {
        let mut r = empty_exprs();
        push_opt_index(&mut r, &self.idx);
        push_expr(&mut r, node(&self.func_type));
        assert(view_exprs(r, r.len() as int) =~= self.cdr_spec());
        r
    }
}

/// `(func idx? type-use)`: what an import brings in.
#[derive(Clone, Debug)]
pub struct ImportDescFunc {
    pub idx: Option<Index>,
    pub type_use: TypeUse,
}

impl SExpr for ImportDescFunc {
    open spec fn car_spec(&self) -> Seq<char> {
        "func"@
    }

    open spec fn cdr_spec(&self) -> Seq<Sx> {
        opt_index_sx(self.idx) + type_use_sx(self.type_use)
    }

    fn car(&self) -> (r: String) {
        "func".to_string()
    }

    fn cdr(&self) -> (r: Vec<Expr>) {
        let mut r = empty_exprs();
        push_opt_index(&mut r, &self.idx);
        append_exprs(&mut r, self.type_use.exprs());
        assert(view_exprs(r, r.len() as int) =~= self.cdr_spec());
        r
    }
}

/// The kinds of thing an import can bring in.
#[derive(Clone, Debug)]
pub enum ImportDesc {
    Func(ImportDescFunc),
}

impl SExpr for ImportDesc {
    open spec fn car_spec(&self) -> Seq<char> {
        match self {
            ImportDesc::Func(f) => f.car_spec(),
        }
    }

    open spec fn cdr_spec(&self) -> Seq<Sx> {
        match self {
            ImportDesc::Func(f) => f.cdr_spec(),
        }
    }

    fn car(&self) -> (r: String) {
        match self {
            ImportDesc::Func(f) => f.car(),
        }
    }

    fn cdr(&self) -> (r: Vec<Expr>) {
        match self {
            ImportDesc::Func(f) => f.cdr(),
        }
    }
}

/// `(import "module" "name" desc)`.
#[derive(Clone, Debug)]
pub struct ImportSectionEntry {
    pub module: String,
    pub name: String,
    pub desc: ImportDesc,
}

impl ImportSectionEntry {
    pub fn new(module: String, name: String, desc: ImportDesc) -> (r: ImportSectionEntry)
        ensures
            r.module@ == module@,
            r.name@ == name@,
            r.desc == desc,
    {
        ImportSectionEntry { module, name, desc }
    }
}

impl SExpr for ImportSectionEntry {
    open spec fn car_spec(&self) -> Seq<char> {
        "import"@
    }

    open spec fn cdr_spec(&self) -> Seq<Sx> {
        seq![Sx::Atom(quoted(self.module@)), Sx::Atom(quoted(self.name@)), node_sx(self.desc)]
    }

    fn car(&self) -> (r: String) {
        "import".to_string()
    }

    fn cdr(&self) -> (r: Vec<Expr>) {
        let mut r = empty_exprs();
        push_atom(&mut r, quote(self.module.as_str()));
        push_atom(&mut r, quote(self.name.as_str()));
        push_expr(&mut r, node(&self.desc));
        assert(view_exprs(r, r.len() as int) =~= self.cdr_spec());
        r
    }
}

/// `(func idx? (export ..)? type-use body)`: a function with its body.
#[derive(Debug)]
pub struct FunctionSectionEntry {
    pub idx: Option<Index>,
    pub inline_export: Option<InlineExport>,
    pub type_use: TypeUse,
    pub exprs: Vec<Expression>,
}

impl FunctionSectionEntry {
    pub fn new(
        idx: Option<Index>,
        inline_export: Option<InlineExport>,
        type_use: TypeUse,
        exprs: Vec<Expression>,
    ) -> (r: FunctionSectionEntry)
        ensures
            r.idx == idx,
            r.inline_export == inline_export,
            r.type_use == type_use,
            r.exprs == exprs,
    {
        FunctionSectionEntry { idx, inline_export, type_use, exprs }
    }
}

impl SExpr for FunctionSectionEntry {
    open spec fn car_spec(&self) -> Seq<char> {
        "func"@
    }

    open spec fn cdr_spec(&self) -> Seq<Sx> {
        opt_index_sx(self.idx) + opt_node_sx(self.inline_export) + type_use_sx(self.type_use) + body_sx(
            self.exprs,
        )
    }

    fn car(&self) -> (r: String) {
        "func".to_string()
    }

    fn cdr(&self) -> (r: Vec<Expr>) {
        let mut r = empty_exprs();
        push_opt_index(&mut r, &self.idx);
        push_opt_node(&mut r, &self.inline_export);
        append_exprs(&mut r, self.type_use.exprs());
        push_body(&mut r, &self.exprs);
        assert(view_exprs(r, r.len() as int) =~= self.cdr_spec());
        r
    }
}

/// `(memory idx? (export ..)? limits)`.
#[derive(Clone, Debug)]
pub struct MemorySectionEntry {
    pub idx: Option<Index>,
    pub inline_export: Option<InlineExport>,
    pub mem_type: MemType,
}

impl MemorySectionEntry {
    pub fn new(idx: Option<Index>, inline_export: Option<InlineExport>, mem_type: MemType) -> (r:
        MemorySectionEntry)
        ensures
            r.idx == idx,
            r.inline_export == inline_export,
            r.mem_type == mem_type,
    {
        MemorySectionEntry { idx, inline_export, mem_type }
    }
}

impl SExpr for MemorySectionEntry {
    open spec fn car_spec(&self) -> Seq<char> {
        "memory"@
    }

    open spec fn cdr_spec(&self) -> Seq<Sx> {
        opt_index_sx(self.idx) + opt_node_sx(self.inline_export) + limits_sx(self.mem_type.lim)
    }

    fn car(&self) -> (r: String) {
        "memory".to_string()
    }

    fn cdr(&self) -> (r: Vec<Expr>) {
        let mut r = empty_exprs();
        push_opt_index(&mut r, &self.idx);
        push_opt_node(&mut r, &self.inline_export);
        append_exprs(&mut r, self.mem_type.exprs());
        assert(view_exprs(r, r.len() as int) =~= self.cdr_spec());
        r
    }
}

/// `(global idx? (export ..)? type init?)`; an imported global has no
/// initializer.
#[derive(Debug)]
pub struct GlobalSectionEntry {
    pub idx: Option<Index>,
    pub inline_export: Option<InlineExport>,
    pub global_type: GlobalType,
    pub expr: Option<Expression>,
}

impl GlobalSectionEntry {
    pub fn new(
        idx: Option<Index>,
        inline_export: Option<InlineExport>,
        global_type: GlobalType,
        expr: Option<Expression>,
    ) -> (r: GlobalSectionEntry)
        ensures
            r.idx == idx,
            r.inline_export == inline_export,
            r.global_type == global_type,
            r.expr == expr,
    {
        GlobalSectionEntry { idx, inline_export, global_type, expr }
    }
}

impl SExpr for GlobalSectionEntry {
    open spec fn car_spec(&self) -> Seq<char> {
        "global"@
    }

    open spec fn cdr_spec(&self) -> Seq<Sx> {
        opt_index_sx(self.idx) + opt_node_sx(self.inline_export) + seq![global_type_sx(self.global_type)]
            + match self.expr {
            Some(x) => seq![expression_sx(view_expression(x))],
            None => seq![],
        }
    }

    fn car(&self) -> (r: String) {
        "global".to_string()
    }

    fn cdr(&self) -> (r: Vec<Expr>) {
        let mut r = empty_exprs();
        push_opt_index(&mut r, &self.idx);
        push_opt_node(&mut r, &self.inline_export);
        push_expr(&mut r, self.global_type.expr());
        match &self.expr {
            Some(x) => {
                push_expr(&mut r, x.expr());
            },
            None => {},
        }
        assert(view_exprs(r, r.len() as int) =~= self.cdr_spec());
        r
    }
}

/// `(data idx? offset "string" ...)`.
#[derive(Debug)]
pub struct DataSectionEntry {
    pub idx: Option<Index>,
    pub offset: Offset,
    pub data_string: DataString,
}

impl DataSectionEntry {
    pub fn new(idx: Option<Index>, offset: Offset, data_string: DataString) -> (r: DataSectionEntry)
        ensures
            r.idx == idx,
            r.offset == offset,
            r.data_string == data_string,
    {
        DataSectionEntry { idx, offset, data_string }
    }
}

impl SExpr for DataSectionEntry {
    open spec fn car_spec(&self) -> Seq<char> {
        "data"@
    }

    open spec fn cdr_spec(&self) -> Seq<Sx> {
        opt_index_sx(self.idx) + seq![expression_sx(view_expression(self.offset.0))] + data_string_sx(
            self.data_string,
        )
    }

    fn car(&self) -> (r: String) {
        "data".to_string()
    }

    fn cdr(&self) -> (r: Vec<Expr>) {
        let mut r = empty_exprs();
        push_opt_index(&mut r, &self.idx);
        push_expr(&mut r, self.offset.expr());
        append_exprs(&mut r, self.data_string.exprs());
        assert(view_exprs(r, r.len() as int) =~= self.cdr_spec());
        r
    }
}

/// A run of `TypeSectionEntry`s.
#[derive(Debug)]
pub struct TypeSection {
    pub entries: Vec<TypeSectionEntry>,
}

impl TypeSection {
    pub fn with_entries(entries: Vec<TypeSectionEntry>) -> (r: TypeSection)
        ensures
            r.entries == entries,
    {
        TypeSection { entries }
    }

    /// The entries, each as a node.
    pub fn exprs(&self) -> (r: Vec<Expr>)
        ensures
            view_exprs(r, r.len() as int) == self.entries@.map_values(|e: TypeSectionEntry| node_sx(e)),
    {
        nodes(&self.entries)
    }
}

/// A run of `ImportSectionEntry`s.
#[derive(Debug)]
pub struct ImportSection {
    pub entries: Vec<ImportSectionEntry>,
}

impl ImportSection {
    pub fn with_entries(entries: Vec<ImportSectionEntry>) -> (r: ImportSection)
        ensures
            r.entries == entries,
    {
        ImportSection { entries }
    }

    /// The entries, each as a node.
    pub fn exprs(&self) -> (r: Vec<Expr>)
        ensures
            view_exprs(r, r.len() as int) == self.entries@.map_values(|e: ImportSectionEntry| node_sx(e)),
    {
        nodes(&self.entries)
    }
}

/// A run of `FunctionSectionEntry`s.
#[derive(Debug)]
pub struct FunctionSection {
    pub entries: Vec<FunctionSectionEntry>,
}

impl FunctionSection {
    pub fn with_entries(entries: Vec<FunctionSectionEntry>) -> (r: FunctionSection)
        ensures
            r.entries == entries,
    {
        FunctionSection { entries }
    }

    /// The entries, each as a node.
    pub fn exprs(&self) -> (r: Vec<Expr>)
        ensures
            view_exprs(r, r.len() as int) == self.entries@.map_values(|e: FunctionSectionEntry| node_sx(e)),
    {
        nodes(&self.entries)
    }
}

/// A run of `MemorySectionEntry`s.
#[derive(Debug)]
pub struct MemorySection {
    pub entries: Vec<MemorySectionEntry>,
}

impl MemorySection {
    pub fn with_entries(entries: Vec<MemorySectionEntry>) -> (r: MemorySection)
        ensures
            r.entries == entries,
    {
        MemorySection { entries }
    }

    /// The entries, each as a node.
    pub fn exprs(&self) -> (r: Vec<Expr>)
        ensures
            view_exprs(r, r.len() as int) == self.entries@.map_values(|e: MemorySectionEntry| node_sx(e)),
    {
        nodes(&self.entries)
    }
}

/// A run of `GlobalSectionEntry`s.
#[derive(Debug)]
pub struct GlobalSection {
    pub entries: Vec<GlobalSectionEntry>,
}

impl GlobalSection {
    pub fn with_entries(entries: Vec<GlobalSectionEntry>) -> (r: GlobalSection)
        ensures
            r.entries == entries,
    {
        GlobalSection { entries }
    }

    /// The entries, each as a node.
    pub fn exprs(&self) -> (r: Vec<Expr>)
        ensures
            view_exprs(r, r.len() as int) == self.entries@.map_values(|e: GlobalSectionEntry| node_sx(e)),
    {
        nodes(&self.entries)
    }
}

/// A run of `DataSectionEntry`s.
#[derive(Debug)]
pub struct DataSection {
    pub entries: Vec<DataSectionEntry>,
}

impl DataSection {
    pub fn with_entries(entries: Vec<DataSectionEntry>) -> (r: DataSection)
        ensures
            r.entries == entries,
    {
        DataSection { entries }
    }

    /// The entries, each as a node.
    pub fn exprs(&self) -> (r: Vec<Expr>)
        ensures
            view_exprs(r, r.len() as int) == self.entries@.map_values(|e: DataSectionEntry| node_sx(e)),
    {
        nodes(&self.entries)
    }
}

/// A run of entries of one kind.
#[derive(Debug)]
pub enum Section {
    Type(TypeSection),
    Import(ImportSection),
    Function(FunctionSection),
    Memory(MemorySection),
    Global(GlobalSection),
    Data(DataSection),
}

/// The section's entries, each as a node.
pub open spec fn section_sx(s: Section) -> Seq<Sx> {
    match s {
        Section::Type(v) => v.entries@.map_values(|e: TypeSectionEntry| node_sx(e)),
        Section::Import(v) => v.entries@.map_values(|e: ImportSectionEntry| node_sx(e)),
        Section::Function(v) => v.entries@.map_values(|e: FunctionSectionEntry| node_sx(e)),
        Section::Memory(v) => v.entries@.map_values(|e: MemorySectionEntry| node_sx(e)),
        Section::Global(v) => v.entries@.map_values(|e: GlobalSectionEntry| node_sx(e)),
        Section::Data(v) => v.entries@.map_values(|e: DataSectionEntry| node_sx(e)),
    }
}

impl Section {
    pub fn exprs(&self) -> (r: Vec<Expr>)
        ensures
            view_exprs(r, r.len() as int) == section_sx(*self),
    {
        match self {
            Section::Type(v) => v.exprs(),
            Section::Import(v) => v.exprs(),
            Section::Function(v) => v.exprs(),
            Section::Memory(v) => v.exprs(),
            Section::Global(v) => v.exprs(),
            Section::Data(v) => v.exprs(),
        }
    }
}

/// The entries of the first `k` sections, in order.
pub open spec fn sections_sx(v: Seq<Section>, k: int) -> Seq<Sx>
    decreases k,
{
    if k <= 0 || k > v.len() {
        seq![]
    } else {
        sections_sx(v, k - 1) + section_sx(v[k - 1])
    }
}

/// `(module section ...)`.
#[derive(Debug)]
pub struct Module {
    pub sections: Vec<Section>,
}

impl Module {
    pub fn with_sections(sections: Vec<Section>) -> (r: Module)
        ensures
            r.sections == sections,
    {
        Module { sections }
    }
}

impl SExpr for Module {
    open spec fn car_spec(&self) -> Seq<char> {
        "module"@
    }

    open spec fn cdr_spec(&self) -> Seq<Sx> {
        sections_sx(self.sections@, self.sections.len() as int)
    }

    fn car(&self) -> (r: String) {
        "module".to_string()
    }

    fn cdr(&self) -> (r: Vec<Expr>) {
        let mut r = empty_exprs();
        let mut i: usize = 0;
        while i < self.sections.len()
            invariant
                i <= self.sections.len(),
                view_exprs(r, r.len() as int) == sections_sx(self.sections@, i as int),
            decreases self.sections.len() - i,
        {
            append_exprs(&mut r, self.sections[i].exprs());
            i = i + 1;
        }
        r
    }
}

/// A whole text-format document: one module.
#[derive(Debug)]
pub struct Document {
    pub module: Module,
}

impl Document {
    pub fn new(module: Module) -> (r: Document)
        ensures
            r.module == module,
    {
        Document { module }
    }

    /// The document as canonical text, indented by two spaces per level.
    pub fn to_string(&self) -> (r: String)
        ensures
            r@ == render(node_sx(self.module), 0, 2),
    {
        node(&self.module).to_wat(&ToWatParams { indent_size: 2, indent_level: 0 })
    }
}


/// What an export names.
#[derive(Debug)]
pub enum ExportDesc {
    Func(FunctionSectionEntry),
}

impl SExpr for ExportDesc {
    open spec fn car_spec(&self) -> Seq<char> {
        match self {
            ExportDesc::Func(f) => f.car_spec(),
        }
    }

    open spec fn cdr_spec(&self) -> Seq<Sx> {
        match self {
            ExportDesc::Func(f) => f.cdr_spec(),
        }
    }

    fn car(&self) -> (r: String) {
        match self {
            ExportDesc::Func(f) => f.car(),
        }
    }

    fn cdr(&self) -> (r: Vec<Expr>) {
        match self {
            ExportDesc::Func(f) => f.cdr(),
        }
    }
}

/// `(export "name" desc)`.
#[derive(Debug)]
pub struct Export {
    pub name: String,
    pub desc: ExportDesc,
}

impl Export {
    pub fn new(name: String, desc: ExportDesc) -> (r: Export)
        ensures
            r.name@ == name@,
            r.desc == desc,
    {
        Export { name, desc }
    }
}

impl SExpr for Export {
    open spec fn car_spec(&self) -> Seq<char> {
        "export"@
    }

    open spec fn cdr_spec(&self) -> Seq<Sx> {
        seq![Sx::Atom(quoted(self.name@)), node_sx(self.desc)]
    }

    fn car(&self) -> (r: String) {
        "export".to_string()
    }

    fn cdr(&self) -> (r: Vec<Expr>) {
        let mut r = empty_exprs();
        push_atom(&mut r, quote(self.name.as_str()));
        push_expr(&mut r, node(&self.desc));
        assert(view_exprs(r, r.len() as int) =~= self.cdr_spec());
        r
    }
}

} // verus!
