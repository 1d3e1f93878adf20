use wat_ast::{
    global_get, i32_const, i64_const, local_get, parse_expressions, parse_text, tokenize, Error, Expected,
    Expression, Index, Opcode, ToWatParams, TokenKind, call, fold,
};

fn render(x: &Expression) -> String {
    x.expr().to_wat(&ToWatParams { indent_size: 2, indent_level: 0 })
}

fn render_all(xs: &[Expression]) -> String {
    xs.iter().map(render).collect::<Vec<_>>().join("\n")
}

#[test]
fn folded_call_scenario() {
    let xs = parse_text("(call $g (i32.const 1))").unwrap();
    assert_eq!(xs.len(), 1);
    match &xs[0] {
        Expression::Folded(c) => {
            assert_eq!(c.op, Opcode::Call);
            match &c.idx {
                Some(Index::Symbolic(n)) => assert_eq!(n, "g"),
                other => panic!("unexpected {:?}", other),
            }
            assert_eq!(c.exprs.len(), 1);
            match &c.exprs[0] {
                Expression::Folded(k) => {
                    assert_eq!(k.op, Opcode::I32Const);
                    assert_eq!(k.integer.as_ref().unwrap().src(), "1");
                    assert!(k.exprs.is_empty());
                },
                other => panic!("unexpected {:?}", other),
            }
        },
        other => panic!("unexpected {:?}", other),
    }
    assert_eq!(render(&xs[0]), "(call $g (i32.const 1))");
}

#[test]
fn unfolded_sequence_scenario() {
    let xs = parse_text("i32.const 1 call $g").unwrap();
    assert_eq!(xs.len(), 2);
    match &xs[0] {
        Expression::Unfolded(k) => {
            assert_eq!(k.op, Opcode::I32Const);
            assert!(k.exprs.is_empty());
        },
        other => panic!("unexpected {:?}", other),
    }
    match &xs[1] {
        Expression::Unfolded(c) => {
            assert_eq!(c.op, Opcode::Call);
            assert!(c.exprs.is_empty());
        },
        other => panic!("unexpected {:?}", other),
    }
    assert_eq!(render_all(&xs), "i32.const 1\ncall $g");
}

#[test]
fn wide_call_breaks_into_lines() {
    let src = "(call $f (i32.const 1) (i32.const 2) (i32.const 3) (i32.const 4) (i32.const 5) (i32.const 6))";
    let xs = parse_text(src).unwrap();
    assert_eq!(xs.len(), 1);
    assert_eq!(
        render(&xs[0]),
        "(call\n  $f\n  (i32.const 1)\n  (i32.const 2)\n  (i32.const 3)\n  (i32.const 4)\n  (i32.const 5)\n  (i32.const 6)\n)"
    );
    let five = "(call $f (i32.const 1) (i32.const 2) (i32.const 3) (i32.const 4) (i32.const 5))";
    assert_eq!(render(&parse_text(five).unwrap()[0]), five);
}

#[test]
fn round_trip_is_stable() {
    let src = "(block $b (loop (br_if $b (i32.eqz (local.get $n))) local.get $n i32.const 0x10 i32.sub local.set $n (br 0)) (call $done (i64.const -1_000) (global.get 0)))";
    let first = render_all(&parse_text(src).unwrap());
    let second = render_all(&parse_text(&first).unwrap());
    assert_eq!(first, second);
}

#[test]
fn missing_close_paren_is_unterminated() {
    match parse_text("(call $f (i32.const 1)").unwrap_err() {
        Error::UnterminatedExpr { pos } => assert_eq!(pos, 7),
        other => panic!("unexpected {:?}", other),
    }
    assert!(parse_text("(call $f (i32.const 1))").is_ok());
}

#[test]
fn stray_close_paren_rejected() {
    match parse_text("drop)").unwrap_err() {
        Error::Unexpected { pos, expected } => {
            assert_eq!(pos, 1);
            assert_eq!(expected, Expected::EndOfInput);
        },
        other => panic!("unexpected {:?}", other),
    }
}

#[test]
fn unknown_keyword_rejected() {
    match parse_text("(i32.mul)").unwrap_err() {
        Error::UnknownInstruction { pos } => assert_eq!(pos, 1),
        other => panic!("unexpected {:?}", other),
    }
}

#[test]
fn missing_index_rejected() {
    match parse_text("call i32.add").unwrap_err() {
        Error::Unexpected { pos, expected } => {
            assert_eq!(pos, 1);
            assert_eq!(expected, Expected::Index);
        },
        other => panic!("unexpected {:?}", other),
    }
}

#[test]
fn missing_integer_and_value_type_rejected() {
    match parse_text("i32.const $x").unwrap_err() {
        Error::Unexpected { expected, .. } => assert_eq!(expected, Expected::Integer),
        other => panic!("unexpected {:?}", other),
    }
    match parse_text("local $x foo").unwrap_err() {
        Error::Unexpected { expected, .. } => assert_eq!(expected, Expected::ValueType),
        other => panic!("unexpected {:?}", other),
    }
    let xs = parse_text("local $x i64").unwrap();
    assert_eq!(render(&xs[0]), "local $x i64");
}

#[test]
fn lexer_error_reported() {
    match parse_text("\"open").unwrap_err() {
        Error::Lex(_) => {},
        other => panic!("unexpected {:?}", other),
    }
}

#[test]
fn optional_label_read_when_present() {
    let xs = parse_text("(block $l (br $l)) (loop)").unwrap();
    assert_eq!(xs.len(), 2);
    assert_eq!(render_all(&xs), "(block $l (br $l))\n(loop)");
}

#[test]
fn tokenize_drops_whitespace_and_comments() {
    let toks = tokenize("(i32.const 1) ;; note\n$x").unwrap();
    let kinds: Vec<TokenKind> = toks.iter().map(|t| t.kind).collect();
    assert_eq!(
        kinds,
        vec![TokenKind::LParen, TokenKind::Keyword, TokenKind::Integer, TokenKind::RParen, TokenKind::Id]
    );
    assert_eq!(toks[1].text, "i32.const");
    assert_eq!(toks[4].text, "$x");
}

#[test]
fn region_stops_at_enclosing_close_paren() {
    let toks = tokenize("i32.const 1 drop) tail").unwrap();
    let (xs, end) = parse_expressions(&toks, 0).unwrap();
    assert_eq!(xs.len(), 2);
    assert_eq!(end, 3);
}

#[test]
fn constructors_build_expected_trees() {
    assert_eq!(render(&fold(global_get("g"))), "(global.get $g)");
    assert_eq!(render(&Expression::Unfolded(local_get("l"))), "local.get $l");
    assert_eq!(render(&fold(i64_const("-5").unwrap())), "(i64.const -5)");
    assert!(i32_const("_1").is_err());
    let mut c = call("f");
    c.push_expr(fold(i32_const("2").unwrap()));
    assert_eq!(render(&fold(c)), "(call $f (i32.const 2))");
}

#[test]
fn invalid_literal_surfaces_helper_error() {
    let toks = vec![
        wat_ast::Token::new(TokenKind::Keyword, "i32.const".to_string()),
        wat_ast::Token::new(TokenKind::Integer, "1_".to_string()),
    ];
    match parse_expressions(&toks, 0).unwrap_err() {
        Error::InvalidChar { idx, string } => {
            assert_eq!(idx, 1);
            assert_eq!(string, "1_");
        },
        other => panic!("unexpected {:?}", other),
    }
}

#[test]
fn drop_trivia_keeps_significant_tokens_in_order() {
    let all = vec![
        wat_ast::Token::new(TokenKind::Trivia, " ".to_string()),
        wat_ast::Token::new(TokenKind::Keyword, "drop".to_string()),
        wat_ast::Token::new(TokenKind::Trivia, ";; note".to_string()),
        wat_ast::Token::new(TokenKind::RParen, ")".to_string()),
    ];
    let kept = wat_ast::drop_trivia(&all);
    assert_eq!(kept.len(), 2);
    assert_eq!(kept[0].text, "drop");
    assert_eq!(kept[1].kind, TokenKind::RParen);
}

#[test]
fn module_parses_from_given_tokens() {
    let toks = tokenize("(module (memory $m 1)) trailing").unwrap();
    let (m, end) = wat_ast::parse_module(&toks, 0).unwrap();
    assert_eq!(end, 8);
    assert_eq!(
        wat_ast::node(&m).to_wat(&ToWatParams { indent_size: 2, indent_level: 0 }),
        "(module (memory $m 1))"
    );
}

#[test]
fn removing_an_inner_close_paren_is_unterminated() {
    assert!(parse_text("(block (br 0) drop)").is_ok());
    match parse_text("(block (br 0 drop)").unwrap_err() {
        Error::UnterminatedExpr { pos } => assert_eq!(pos, 7),
        other => panic!("unexpected {:?}", other),
    }
}

#[test]
fn engine_output_reprints_identically() {
    let src = "(loop $l local.get 0 (if (then (br $l))) (local.tee $t (i32.rem_u (local.get $a) (i32.const 3))) drop)";
    let first = render_all(&parse_text(src).unwrap());
    let reread = parse_text(&first).unwrap();
    assert_eq!(render_all(&reread), first);
}
