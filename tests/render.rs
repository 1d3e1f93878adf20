use wat_ast::{
    i32_const, node, symbolic, Atom, Document, Expr, FunctionSectionEntry, ImportDesc, ImportDescFunc,
    ImportSectionEntry, InlineExport, IntegerLiteral, Limits, MemType, Module, Node, Params, Results,
    Section, ToWatParams, TypeUse, ValueType, fold, call,
};

fn wat(e: &Expr) -> String {
    e.to_wat(&ToWatParams { indent_size: 2, indent_level: 0 })
}

#[test]
fn results_empty() {
    assert_eq!(node(&Results::with_value_types(Vec::new())).to_wat(&ToWatParams::default()), "(result)");
}

#[test]
fn one_value_type() {
    assert_eq!(
        node(&Results::with_value_types(vec![ValueType::I32])).to_wat(&ToWatParams::default()),
        "(result i32)",
    );
}

#[test]
fn multiple_value_types() {
    assert_eq!(
        node(&Results::with_value_types(vec![ValueType::I32, ValueType::I64, ValueType::F32, ValueType::F64]))
            .to_wat(&ToWatParams::default()),
        "(result i32 i64 f32 f64)",
    );
}

#[test]
fn module_empty() {
    assert_eq!(wat(&node(&Module::with_sections(Vec::new()))), "(module)");
}

#[test]
fn output_empty_module() {
    assert_eq!(Document::new(Module::with_sections(Vec::new())).to_string(), "(module)");
}

#[test]
fn with_import_section() {
    let import = ImportSectionEntry::new(
        "wasi_snapshot_preview1".to_string(),
        "proc_exit".to_string(),
        ImportDesc::Func(ImportDescFunc {
            idx: Some(symbolic("__wasi_snapshot_preview1_proc_exit")),
            type_use: TypeUse {
                type_def: None,
                params: vec![Params::with_value_types(vec![ValueType::I32])],
                results: vec![],
            },
        }),
    );
    let mut body = call("__wasi_snapshot_preview1_proc_exit");
    body.push_expr(fold(i32_const("0").unwrap()));
    let func = FunctionSectionEntry::new(
        Some(symbolic("_start")),
        Some(InlineExport::new("_start".to_string())),
        TypeUse { type_def: None, params: vec![], results: vec![] },
        vec![fold(body)],
    );
    let module = Module::with_sections(vec![Section::Import(wat_ast::ImportSection::with_entries(vec![import])), Section::Function(wat_ast::FunctionSection::with_entries(vec![func]))]);
    assert_eq!(
        Document::new(module).to_string(),
        r#"(module
  (import
    "wasi_snapshot_preview1"
    "proc_exit"
    (func $__wasi_snapshot_preview1_proc_exit (param i32))
  )
  (func
    $_start
    (export "_start")
    (call $__wasi_snapshot_preview1_proc_exit (i32.const 0))
  )
)"#
    );
}

#[test]
fn import_fits_on_one_line() {
    let import = ImportSectionEntry::new(
        "env".to_string(),
        "f".to_string(),
        ImportDesc::Func(ImportDescFunc {
            idx: Some(symbolic("f")),
            type_use: TypeUse {
                type_def: None,
                params: vec![Params::with_value_types(vec![ValueType::I32])],
                results: vec![],
            },
        }),
    );
    assert_eq!(wat(&node(&import)), r#"(import "env" "f" (func $f (param i32)))"#);
}

#[test]
fn atom_renders_with_indentation() {
    let a = Expr::Atom(Atom::new("i32".to_string()));
    assert_eq!(a.to_wat(&ToWatParams { indent_size: 2, indent_level: 3 }), "      i32");
    let p = ToWatParams { indent_size: 4, indent_level: 3 };
    assert_eq!(p.indent(), 12);
}

#[test]
fn empty_node_keeps_indentation() {
    let n = Expr::SExpr(Node { head: "module".to_string(), children: Vec::new() });
    assert_eq!(n.to_wat(&ToWatParams { indent_size: 2, indent_level: 1 }), "  (module)");
}

fn atoms_node(head: &str, atoms: &[&str]) -> Expr {
    Expr::SExpr(Node {
        head: head.to_string(),
        children: atoms.iter().map(|a| Expr::Atom(Atom::new(a.to_string()))).collect(),
    })
}

#[test]
fn width_rule_boundary() {
    // "(h " + 76 characters + ")" is exactly 80 wide.
    let a76 = "a".repeat(76);
    let fits = atoms_node("h", &[&a76]);
    assert_eq!(wat(&fits), format!("(h {})", a76));
    let a77 = "a".repeat(77);
    let breaks = atoms_node("h", &[&a77]);
    assert_eq!(wat(&breaks), format!("(h\n  {}\n)", a77));
}

#[test]
fn multi_line_children_rendered_one_level_deeper() {
    let long = "b".repeat(71);
    let inner = atoms_node("inner", &[&long]);
    let outer = Expr::SExpr(Node { head: "outer".to_string(), children: vec![inner, Expr::Atom(Atom::new("x".to_string()))] });
    assert_eq!(
        outer.to_wat(&ToWatParams { indent_size: 2, indent_level: 0 }),
        format!("(outer\n  (inner\n    {}\n  )\n  x\n)", long)
    );
}

#[test]
fn memory_limits_render() {
    let lim = Limits::new(IntegerLiteral::new("1".to_string()).unwrap(), Some(IntegerLiteral::new("0x10".to_string()).unwrap()));
    let e = wat_ast::MemorySectionEntry::new(Some(symbolic("m")), None, MemType::new(lim));
    assert_eq!(wat(&node(&e)), "(memory $m 1 0x10)");
}

#[test]
fn named_param_and_globals_render() {
    let p = Params::named("x", ValueType::I64);
    assert_eq!(wat(&node(&p)), "(param $x i64)");
    let g = wat_ast::GlobalSectionEntry::new(
        None,
        Some(InlineExport::new("g".to_string())),
        wat_ast::GlobalType::Mut(wat_ast::GlobalTypeMut::new(ValueType::I32)),
        Some(fold(i32_const("7").unwrap())),
    );
    assert_eq!(wat(&node(&g)), r#"(global (export "g") (mut i32) (i32.const 7))"#);
    let d = wat_ast::DataSectionEntry::new(
        None,
        wat_ast::Offset::new(fold(i32_const("8").unwrap())),
        wat_ast::DataString::with_strings(vec!["hi".to_string()]),
    );
    assert_eq!(wat(&node(&d)), r#"(data (i32.const 8) "hi")"#);
}

#[test]
fn value_type_as_expr() {
    assert_eq!(wat(&ValueType::F64.as_expr()), "f64");
}

#[test]
fn export_of_function_renders() {
    let f = FunctionSectionEntry::new(
        Some(symbolic("f")),
        None,
        TypeUse { type_def: None, params: vec![], results: vec![Results::with_value_types(vec![ValueType::I32])] },
        vec![fold(i32_const("1").unwrap())],
    );
    let e = wat_ast::Export::new("run".to_string(), wat_ast::ExportDesc::Func(f));
    assert_eq!(wat(&node(&e)), r#"(export "run" (func $f (result i32) (i32.const 1)))"#);
}
