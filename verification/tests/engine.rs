use frugurt::ast::{Ast, ExprNode, StmtNode};
use frugurt::cst::{Cst, CstEdge, CstKind, CstLabel, CstNode};
use frugurt::engine::{AnyOperator, BuiltinOp, Engine};
use frugurt::error::FruError;
use frugurt::eval::{EvalOut, Signal};
use frugurt::fru_type::EvaluatedArgumentList;
use frugurt::identifier::{Identifier, Interner, OperatorIdentifier};
use frugurt::value::{FruField, FruType, FruValue};

fn leaf(cst: &mut Cst, kind: CstKind, text: &str) -> usize {
    cst.push_node(CstNode { kind, text: text.to_string(), children: vec![] })
}

#[test]
fn intern_twice_same_handle_and_display_round_trips() {
    let mut itn = Interner::new();
    let a = Identifier::new(&mut itn, "melon");
    let b = Identifier::new(&mut itn, "melon");
    assert_eq!(a, b);
    assert_eq!(itn.display(a).unwrap(), "melon");
    let plus = Identifier::new(&mut itn, "+");
    assert_eq!(plus, Identifier::for_plus());
}

#[test]
fn precedence_two_bands_and_left_associativity() {
    // 2 + 3 * 4 - 1 lowers to (2 + (3*4)) - 1 and evaluates to 13.
    let mut cst = Cst::new();
    let n2 = leaf(&mut cst, CstKind::NumberLiteral, "2");
    let n3 = leaf(&mut cst, CstKind::NumberLiteral, "3");
    let n4 = leaf(&mut cst, CstKind::NumberLiteral, "4");
    let n1 = leaf(&mut cst, CstKind::NumberLiteral, "1");
    let p = leaf(&mut cst, CstKind::OperatorToken, "+");
    let m = leaf(&mut cst, CstKind::OperatorToken, "*");
    let mn = leaf(&mut cst, CstKind::OperatorToken, "-");
    let bin = cst.push_node(CstNode {
        kind: CstKind::BinariesExpression,
        text: String::new(),
        children: vec![n2, p, n3, m, n4, mn, n1]
            .into_iter()
            .map(|node| CstEdge { label: None, node })
            .collect(),
    });
    let mut e = Engine::new();
    e.install_builtin_operators();
    let mut ast = Ast::new();
    let root = frugurt::parser::parse_expression(&cst, &mut e.interner, &mut ast, bin, 100).unwrap();
    match e.evaluate_expression(&ast, 0, root, 10000).unwrap() {
        EvalOut::Val(FruValue::Number(n)) => assert_eq!(n, 13),
        other => panic!("unexpected {:?}", other),
    }
    // 10 - 3 - 2 is left-associative: 5.
    let mut cst2 = Cst::new();
    let a = leaf(&mut cst2, CstKind::NumberLiteral, "10");
    let b = leaf(&mut cst2, CstKind::NumberLiteral, "3");
    let c = leaf(&mut cst2, CstKind::NumberLiteral, "2");
    let m1 = leaf(&mut cst2, CstKind::OperatorToken, "-");
    let m2 = leaf(&mut cst2, CstKind::OperatorToken, "-");
    let bin2 = cst2.push_node(CstNode {
        kind: CstKind::BinariesExpression,
        text: String::new(),
        children: vec![a, m1, b, m2, c]
            .into_iter()
            .map(|node| CstEdge { label: None, node })
            .collect(),
    });
    let mut ast2 = Ast::new();
    let root2 =
        frugurt::parser::parse_expression(&cst2, &mut e.interner, &mut ast2, bin2, 100).unwrap();
    match e.evaluate_expression(&ast2, 0, root2, 10000).unwrap() {
        EvalOut::Val(FruValue::Number(n)) => assert_eq!(n, 5),
        other => panic!("unexpected {:?}", other),
    }
}

#[test]
fn duplicate_operator_registration_fails_and_commutative_swaps() {
    let mut e = Engine::new();
    let num = Identifier::for_number();
    let txt = Identifier::for_string();
    let plus = Identifier::for_plus();
    let number_type = FruType { idx: 1 };
    let key = OperatorIdentifier::new(plus, num, num);
    let imp = AnyOperator::Builtin(BuiltinOp::NumPlus);
    assert!(number_type.set_operator(&mut e, key, false, imp).is_ok());
    assert_eq!(
        number_type.set_operator(&mut e, key, false, imp),
        Err(FruError::OperatorAlreadySet(plus))
    );
    // Commutative (+, Number, Text) on Number serves Text + Number swapped.
    let key2 = OperatorIdentifier::new(plus, num, txt);
    assert!(number_type.set_operator(&mut e, key2, true, imp).is_ok());
    let r = e.resolve_operator(plus, txt, 3, num, 1).unwrap();
    assert_eq!(r.1, true);
}

fn two_field_type(e: &mut Engine) -> FruType {
    let mut itn_a = Identifier::for_nah();
    let _ = &mut itn_a;
    let a = Identifier::new(&mut e.interner, "a");
    let b = Identifier::new(&mut e.interner, "b");
    let fields = vec![
        FruField { is_public: true, ident: a, type_ident: None },
        FruField { is_public: true, ident: b, type_ident: None },
    ];
    let tv = FruType::new_value(
        e,
        Identifier::new(&mut Interner::new(), "Pair"),
        frugurt::value::TypeFlavor::Struct,
        fields,
        vec![],
        vec![],
        vec![],
        vec![],
        vec![],
        vec![],
        0,
    );
    match tv {
        FruValue::Type(t) => t,
        _ => panic!(),
    }
}

#[test]
fn instantiation_positional_named_duplicate_missing_unknown() {
    let mut e = Engine::new();
    let t = two_field_type(&mut e);
    let a = Identifier::new(&mut e.interner, "a");
    let b = Identifier::new(&mut e.interner, "b");
    let c = Identifier::new(&mut e.interner, "c");
    let one = FruValue::Number(1);
    let two = FruValue::Number(2);
    // positional [1, 2] gives a=1, b=2
    let r = t
        .instantiate(&mut e, EvaluatedArgumentList { args: vec![(None, one), (None, two)] })
        .unwrap();
    let oidx = match r {
        FruValue::Object(o) => o.idx,
        _ => panic!(),
    };
    assert_eq!(e.objects[oidx].fields, vec![one, two]);
    // named {b: 2, a: 1} gives the same
    let r2 = t
        .instantiate(
            &mut e,
            EvaluatedArgumentList { args: vec![(Some(b), two), (Some(a), one)] },
        )
        .unwrap();
    let oidx2 = match r2 {
        FruValue::Object(o) => o.idx,
        _ => panic!(),
    };
    assert_eq!(e.objects[oidx2].fields, vec![one, two]);
    // duplicate
    assert_eq!(
        t.instantiate(
            &mut e,
            EvaluatedArgumentList { args: vec![(Some(a), one), (Some(a), two)] },
        ),
        Err(FruError::DuplicateField(a))
    );
    // missing b
    assert_eq!(
        t.instantiate(&mut e, EvaluatedArgumentList { args: vec![(Some(a), one)] }),
        Err(FruError::MissingField(b))
    );
    // unknown c
    assert_eq!(
        t.instantiate(
            &mut e,
            EvaluatedArgumentList {
                args: vec![(Some(c), one), (Some(a), one), (Some(b), two)]
            },
        ),
        Err(FruError::UnknownField(c))
    );
}

#[test]
fn while_break_terminates_and_continue_rechecks() {
    // let i = 0; while true { break; }  -> terminates normally
    let mut e = Engine::new();
    e.install_builtin_operators();
    let mut ast = Ast::new();
    let t = ast.push_expr(ExprNode::Literal { value: FruValue::Bool(true) });
    let brk = ast.push_stmt(StmtNode::Break);
    let body = ast.push_stmt(StmtNode::Block { body: vec![brk] });
    let w = ast.push_stmt(StmtNode::While { cond: t, body });
    assert_eq!(e.execute_statement(&ast, 0, w, 1000), Ok(Signal::Normal));
    // while cond { set cond = false; continue; set tail = true; } re-checks cond,
    // and the statement after continue never runs.
    let mut e2 = Engine::new();
    let mut ast2 = Ast::new();
    let cond = Identifier::new(&mut e2.interner, "cond");
    let tail = Identifier::new(&mut e2.interner, "tail");
    let tlit = ast2.push_expr(ExprNode::Literal { value: FruValue::Bool(true) });
    let flit = ast2.push_expr(ExprNode::Literal { value: FruValue::Bool(false) });
    let dl1 = ast2.push_stmt(StmtNode::Let { ident: cond, value: tlit });
    let dl2 = ast2.push_stmt(StmtNode::Let { ident: tail, value: flit });
    let set_false = ast2.push_stmt(StmtNode::SetVar { ident: cond, value: flit });
    let cont = ast2.push_stmt(StmtNode::Continue);
    let set_tail = ast2.push_stmt(StmtNode::SetVar { ident: tail, value: tlit });
    let body2 = ast2.push_stmt(StmtNode::Block { body: vec![set_false, cont, set_tail] });
    let condref = ast2.push_expr(ExprNode::Variable { ident: cond });
    let w2 = ast2.push_stmt(StmtNode::While { cond: condref, body: body2 });
    let prog = ast2.push_stmt(StmtNode::Block { body: vec![dl1, dl2, w2] });
    assert_eq!(e2.execute_statement(&ast2, 0, prog, 1000), Ok(Signal::Normal));
    assert_eq!(e2.get_variable(1, tail), Ok(FruValue::Bool(false)));
}

#[test]
fn return_propagates_through_two_nested_blocks() {
    // fn f() { { { return 7; set missing = 1; } set missing = 2; } } => 7,
    // and the statements after the return never run (they would error).
    let mut e = Engine::new();
    let mut ast = Ast::new();
    let missing = Identifier::new(&mut e.interner, "missing");
    let seven = ast.push_expr(ExprNode::Literal { value: FruValue::Number(7) });
    let one = ast.push_expr(ExprNode::Literal { value: FruValue::Number(1) });
    let ret = ast.push_stmt(StmtNode::Return { value: seven });
    let bad1 = ast.push_stmt(StmtNode::SetVar { ident: missing, value: one });
    let bad2 = ast.push_stmt(StmtNode::SetVar { ident: missing, value: one });
    let inner = ast.push_stmt(StmtNode::Block { body: vec![ret, bad1] });
    let outer = ast.push_stmt(StmtNode::Block { body: vec![inner, bad2] });
    let f = ast.push_expr(ExprNode::Function { args: vec![], body: outer });
    let call = ast.push_expr(ExprNode::Call { what: f, args: vec![] });
    assert_eq!(
        e.evaluate_expression(&ast, 0, call, 1000),
        Ok(EvalOut::Val(FruValue::Number(7)))
    );
}

#[test]
fn shadowing_is_scope_local_and_set_undeclared_fails() {
    // let x = 1; { let x = 2; }; x == 1
    let mut e = Engine::new();
    let mut ast = Ast::new();
    let x = Identifier::new(&mut e.interner, "x");
    let one = ast.push_expr(ExprNode::Literal { value: FruValue::Number(1) });
    let two = ast.push_expr(ExprNode::Literal { value: FruValue::Number(2) });
    let l1 = ast.push_stmt(StmtNode::Let { ident: x, value: one });
    let l2 = ast.push_stmt(StmtNode::Let { ident: x, value: two });
    let inner = ast.push_stmt(StmtNode::Block { body: vec![l2] });
    let outer = ast.push_stmt(StmtNode::Block { body: vec![l1, inner] });
    assert_eq!(e.execute_statement(&ast, 0, outer, 1000), Ok(Signal::Normal));
    // outer x (frame 1, the block's own frame) still holds 1
    assert_eq!(e.get_variable(1, x), Ok(FruValue::Number(1)));
    // set of an undeclared name fails with undefined-variable
    let y = Identifier::new(&mut e.interner, "y");
    assert_eq!(
        e.set_variable(0, y, FruValue::Number(3)),
        Err(FruError::UndefinedVariable(y))
    );
}

#[test]
fn scope_value_reads_and_writes_variables() {
    let mut e = Engine::new();
    let v = Identifier::new(&mut e.interner, "v");
    e.let_variable(0, v, FruValue::Number(9)).unwrap();
    let nv = frugurt::native::BuiltinScopeInstance::new_value(0);
    match nv {
        FruValue::Native(n) => {
            assert_eq!(n.get_prop(&e, v), Ok(FruValue::Number(9)));
            n.set_prop(&mut e, v, FruValue::Number(10)).unwrap();
            assert_eq!(e.get_variable(0, v), Ok(FruValue::Number(10)));
        }
        _ => panic!(),
    }
}

#[test]
fn lowering_statements_and_numbers() {
    // let n = 41; set n = -41;
    let mut cst = Cst::new();
    let id1 = leaf(&mut cst, CstKind::Token, "n");
    let v1 = leaf(&mut cst, CstKind::NumberLiteral, "41");
    let letn = cst.push_node(CstNode {
        kind: CstKind::LetStatement,
        text: String::new(),
        children: vec![
            CstEdge { label: Some(CstLabel::Ident), node: id1 },
            CstEdge { label: Some(CstLabel::Value), node: v1 },
        ],
    });
    let id2 = leaf(&mut cst, CstKind::Token, "n");
    let v2 = leaf(&mut cst, CstKind::NumberLiteral, "-41");
    let setn = cst.push_node(CstNode {
        kind: CstKind::SetStatement,
        text: String::new(),
        children: vec![
            CstEdge { label: Some(CstLabel::Ident), node: id2 },
            CstEdge { label: Some(CstLabel::Value), node: v2 },
        ],
    });
    let root = cst.push_node(CstNode {
        kind: CstKind::SourceFile,
        text: String::new(),
        children: vec![
            CstEdge { label: Some(CstLabel::Body), node: letn },
            CstEdge { label: Some(CstLabel::Body), node: setn },
        ],
    });
    let mut e = Engine::new();
    let mut ast = Ast::new();
    let prog = frugurt::parser::parse_statement(&cst, &mut e.interner, &mut ast, root, 100).unwrap();
    assert_eq!(e.execute_statement(&ast, 0, prog, 1000), Ok(Signal::Normal));
    let n = Identifier::new(&mut e.interner, "n");
    assert_eq!(e.get_variable(1, n), Ok(FruValue::Number(-41)));
    // a bad numeral is a fatal lowering fault
    let mut cst2 = Cst::new();
    let bad = leaf(&mut cst2, CstKind::NumberLiteral, "4x");
    let mut ast2 = Ast::new();
    assert_eq!(
        frugurt::parser::parse_expression(&cst2, &mut e.interner, &mut ast2, bad, 100),
        Err(frugurt::parser::LowerFault::BadNumberLiteral)
    );
}

#[test]
fn division_is_truncated_and_div_by_zero_errors() {
    let mut e = Engine::new();
    e.install_builtin_operators();
    let mut ast = Ast::new();
    let a = ast.push_expr(ExprNode::Literal { value: FruValue::Number(-7) });
    let b = ast.push_expr(ExprNode::Literal { value: FruValue::Number(2) });
    let div = Identifier::for_divide();
    let bin = ast.push_expr(ExprNode::Binary { operator: div, left: a, right: b });
    assert_eq!(
        e.evaluate_expression(&ast, 0, bin, 100),
        Ok(EvalOut::Val(FruValue::Number(-3)))
    );
    let z = ast.push_expr(ExprNode::Literal { value: FruValue::Number(0) });
    let bin2 = ast.push_expr(ExprNode::Binary { operator: div, left: a, right: z });
    assert_eq!(e.evaluate_expression(&ast, 0, bin2, 100), Err(FruError::DivisionByZero));
}

#[test]
fn static_prop_get_and_not_found() {
    let mut e = Engine::new();
    let s = Identifier::new(&mut e.interner, "count");
    let box_name = Identifier::new(&mut e.interner, "Box");
    let tv = FruType::new_value(
        &mut e,
        box_name,
        frugurt::value::TypeFlavor::Struct,
        vec![],
        vec![(s, FruValue::Number(5))],
        vec![],
        vec![],
        vec![],
        vec![],
        vec![],
        0,
    );
    let t = match tv {
        FruValue::Type(t) => t,
        _ => panic!(),
    };
    let ast = Ast::new();
    assert_eq!(
        t.get_prop(&mut e, &ast, s, 100),
        Ok(EvalOut::Val(FruValue::Number(5)))
    );
    let other = Identifier::new(&mut e.interner, "other");
    match t.get_prop(&mut e, &ast, other, 100) {
        Err(FruError::PropNotFound { ident, .. }) => assert_eq!(ident, other),
        r => panic!("unexpected {:?}", r),
    }
}
