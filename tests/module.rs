use wat_ast::{parse_document, Error, Expected, Section};

#[test]
fn empty_module() {
    let doc = parse_document("(module)").unwrap();
    assert!(doc.module.sections.is_empty());
    assert_eq!(doc.to_string(), "(module)");
}

#[test]
fn module_round_trip() {
    let src = r#"(module
  (import
    "wasi_snapshot_preview1"
    "proc_exit"
    (func $__wasi_snapshot_preview1_proc_exit (param i32))
  )
  (func
    $_start
    (export "_start")
    (call $__wasi_snapshot_preview1_proc_exit (i32.const 0))
  )
)"#;
    let doc = parse_document(src).unwrap();
    assert_eq!(doc.module.sections.len(), 2);
    assert_eq!(doc.to_string(), src);
}

#[test]
fn sections_group_runs_of_one_kind() {
    let src = "(module (type (func)) (type $t (func (param i32) (result i64))) (memory $m 1 2) (global $g (mut i32) (i32.const 0)) (global i64) (data (i32.const 8)))";
    let doc = parse_document(src).unwrap();
    let kinds: Vec<&str> = doc
        .module
        .sections
        .iter()
        .map(|s| match s {
            Section::Type(v) => if v.entries.len() == 2 { "types" } else { "type?" },
            Section::Memory(_) => "memory",
            Section::Global(v) => if v.entries.len() == 2 { "globals" } else { "global?" },
            Section::Data(_) => "data",
            _ => "other",
        })
        .collect();
    assert_eq!(kinds, vec!["types", "memory", "globals", "data"]);
    let again = parse_document(&doc.to_string()).unwrap();
    assert_eq!(again.to_string(), doc.to_string());
}

#[test]
fn import_description_renders_on_one_line() {
    let doc = parse_document(r#"(module (import "env" "f" (func $f (param i32))))"#).unwrap();
    assert_eq!(doc.to_string(), r#"(module (import "env" "f" (func $f (param i32))))"#);
}

#[test]
fn unknown_section_rejected() {
    match parse_document("(module (table 1))").unwrap_err() {
        Error::Unexpected { pos, expected } => {
            assert_eq!(pos, 2);
            assert_eq!(expected, Expected::Section);
        },
        other => panic!("unexpected {:?}", other),
    }
}

#[test]
fn global_with_two_initializers_rejected() {
    match parse_document("(module (global i32 (i32.const 0) (i32.const 1)))").unwrap_err() {
        Error::Unexpected { expected, .. } => assert_eq!(expected, Expected::SingleExpression),
        other => panic!("unexpected {:?}", other),
    }
}

#[test]
fn trailing_tokens_rejected() {
    match parse_document("(module) drop").unwrap_err() {
        Error::Unexpected { pos, expected } => {
            assert_eq!(pos, 3);
            assert_eq!(expected, Expected::EndOfInput);
        },
        other => panic!("unexpected {:?}", other),
    }
}

#[test]
fn function_body_unterminated() {
    match parse_document("(module (func $f (block (br 0)").unwrap_err() {
        Error::UnterminatedExpr { .. } => {},
        other => panic!("unexpected {:?}", other),
    }
}
