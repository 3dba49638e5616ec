use ink_fmt::syntax::{ExtraOr, IncorrectKind, SyntaxChild, SyntaxNode};
use ink_fmt::type_sitter::ink::anon_unions::{
    Add_Add__Sub_Sub_, Add_Eq__Sub_Eq__Eq_, Const_Var, Cycle_Once_Shuffle_Stopping,
    LParen__RParen_, Not__Sub__Not,
    Not_Eq__Not_Question__Mod__And_And__Mul__Add__Sub__Div__Lt__Lt_Eq__Eq_Eq__Gt__Gt_Eq__Question__BitXor__And_Has_Hasnt_Mod_Or_Or_Or_ as BinaryOp,
};
use ink_fmt::type_sitter::ink::{symbols, unnamed};
use ink_fmt::type_sitter::ink::{Assignment, Binary, Choice, Global, Identifier, Number, Text, Unary};

fn leaf(kind: &'static str, named: bool) -> SyntaxNode {
    SyntaxNode {
        id: 0,
        kind,
        named,
        extra: false,
        missing: false,
        error: false,
        start_byte: 0,
        end_byte: 0,
        children: Vec::new(),
    }
}

fn with_field(field: &'static str, node: SyntaxNode) -> SyntaxChild {
    SyntaxChild { field: Some(field), node }
}

fn plain(node: SyntaxNode) -> SyntaxChild {
    SyntaxChild { field: None, node }
}

fn branch(kind: &'static str, children: Vec<SyntaxChild>) -> SyntaxNode {
    SyntaxNode { children, ..leaf(kind, true) }
}

fn binary(op: &'static str) -> SyntaxNode {
    branch(
        "binary",
        vec![plain(leaf("identifier", true)), with_field("op", leaf(op, false)), plain(leaf("number", true))],
    )
}

fn assign_ids(node: &mut SyntaxNode, next: &mut usize) {
    node.id = *next;
    *next += 1;
    for c in node.children.iter_mut() {
        assign_ids(&mut c.node, next);
    }
}

/// Gives every node of the tree its own identity, in preorder.
fn numbered(mut root: SyntaxNode) -> SyntaxNode {
    let mut next = 1;
    assign_ids(&mut root, &mut next);
    root
}

#[test]
fn try_from_checks_the_kind() {
    let n = numbered(leaf("identifier", true));
    let ok = Identifier::try_from(&n).unwrap();
    assert!(std::ptr::eq(ok.into_node(), &n));
    assert_eq!(Identifier::KIND, "identifier");
    let err = Number::try_from(&n).unwrap_err();
    assert_eq!(err.kind, "number");
    assert!(std::ptr::eq(err.node, &n));
    let e: IncorrectKind = Binary::try_from(&n).unwrap_err();
    assert_eq!(e.kind, Binary::KIND);
}

#[test]
fn assignment_fields() {
    let n = numbered(branch(
        "assignment",
        vec![
            with_field("name", leaf("identifier", true)),
            with_field("op", leaf("+=", false)),
            with_field("value", leaf("number", true)),
        ],
    ));
    let a = Assignment::try_from(&n).unwrap();
    assert_eq!(a.name().unwrap().into_node().kind, "identifier");
    let op: Add_Eq__Sub_Eq__Eq_ = a.op().unwrap();
    assert!(op.add_eq_().is_some());
    assert!(op.sub_eq_().is_none());
    assert!(op.eq_().is_none());
    assert_eq!(op.into_node().kind, "+=");
    assert!(a.value().unwrap().number().is_some());
    assert!(a.value().unwrap().identifier().is_none());
}

#[test]
fn assignment_op_variants() {
    for (kind, which) in [("+=", 0), ("-=", 1), ("=", 2)] {
        let n = numbered(leaf(kind, false));
        let op = Add_Eq__Sub_Eq__Eq_::try_from(&n).unwrap();
        assert_eq!(op.add_eq_().is_some(), which == 0);
        assert_eq!(op.sub_eq_().is_some(), which == 1);
        assert_eq!(op.eq_().is_some(), which == 2);
    }
    let n = numbered(leaf("==", false));
    let err = Add_Eq__Sub_Eq__Eq_::try_from(&n).unwrap_err();
    assert_eq!(err.kind, "{+= | -= | =}");
}

#[test]
fn binary_operators() {
    let cases: Vec<(&str, fn(BinaryOp) -> bool)> = vec![
        ("!=", |o| o.not_eq_().is_some()),
        ("!?", |o| o.not_question_().is_some()),
        ("%", |o| o.mod_().is_some()),
        ("&&", |o| o.and_and_().is_some()),
        ("*", |o| o.mul_().is_some()),
        ("+", |o| o.add_().is_some()),
        ("-", |o| o.sub_().is_some()),
        ("/", |o| o.div_().is_some()),
        ("<", |o| o.lt_().is_some()),
        ("<=", |o| o.lt_eq_().is_some()),
        ("==", |o| o.eq_eq_().is_some()),
        (">", |o| o.gt_().is_some()),
        (">=", |o| o.gt_eq_().is_some()),
        ("?", |o| o.question_().is_some()),
        ("^", |o| o.bit_xor_().is_some()),
        ("and", |o| o.and().is_some()),
        ("has", |o| o.has().is_some()),
        ("hasnt", |o| o.hasnt().is_some()),
        ("mod", |o| o.mod_node().is_some()),
        ("or", |o| o.or().is_some()),
        ("||", |o| o.or_or_().is_some()),
    ];
    for (kind, check) in cases.iter() {
        let n = numbered(binary(kind));
        let b = Binary::try_from(&n).unwrap();
        let op = b.op().unwrap();
        assert!(check(op), "operator {}", kind);
        assert_eq!(op.node().kind, *kind);
        // every other accessor answers None
        let hits = cases.iter().filter(|(_, c)| c(op)).count();
        assert_eq!(hits, 1);
    }
    let n = numbered(binary("+"));
    let op = Binary::try_from(&n).unwrap().op().unwrap();
    assert!(matches!(op, BinaryOp::Add_(symbols::Add_(_))));
    assert!(op.mod_node().is_none());
}

#[test]
fn binary_children_skip_anonymous_tokens() {
    let n = numbered(binary("*"));
    let b = Binary::try_from(&n).unwrap();
    let children = b.children();
    assert_eq!(children.len(), 2);
    match children[0] {
        Ok(ExtraOr::Regular(x)) => assert!(x.identifier().is_some()),
        _ => panic!("expected an identifier"),
    }
    match children[1] {
        Ok(ExtraOr::Regular(x)) => assert!(x.number().is_some()),
        _ => panic!("expected a number"),
    }
    assert!(b.child(2).is_none());
    assert!(b.child(1).is_some());
}

#[test]
fn extra_nodes_are_passed_through() {
    let comment = SyntaxNode { extra: true, ..leaf("comment", true) };
    let n = numbered(branch(
        "binary",
        vec![plain(leaf("identifier", true)), plain(comment), with_field("op", leaf("+", false)), plain(leaf("boolean", true))],
    ));
    let b = Binary::try_from(&n).unwrap();
    let children = b.children();
    assert_eq!(children.len(), 3);
    match children[1] {
        Ok(ExtraOr::Extra(node)) => assert_eq!(node.kind, "comment"),
        _ => panic!("expected the comment"),
    }
    // an unexpected kind among the children is reported, not hidden
    let m = numbered(branch("binary", vec![plain(leaf("knot", true))]));
    let c = Binary::try_from(&m).unwrap().children();
    assert_eq!(c[0].unwrap_err().kind.starts_with("{binary"), true);
}

#[test]
fn optional_and_repeated_fields() {
    let n = numbered(branch(
        "choice",
        vec![
            with_field("label", leaf("(", false)),
            with_field("label", leaf("identifier", true)),
            with_field("label", leaf(")", false)),
            with_field("main", leaf("content", true)),
        ],
    ));
    let c = Choice::try_from(&n).unwrap();
    assert!(c.main().unwrap().is_ok());
    assert!(c.final_().is_none());
    assert!(c.temporary().is_none());
    assert!(c.conditions().is_empty());
    let labels = c.labels();
    assert_eq!(labels.len(), 3);
    match labels[0] {
        Ok(ExtraOr::Regular(l)) => assert!(l.l_paren_().is_some()),
        _ => panic!("expected `(`"),
    }
    match labels[1] {
        Ok(ExtraOr::Regular(l)) => assert!(l.identifier().is_some()),
        _ => panic!("expected an identifier"),
    }
    match labels[2] {
        Ok(ExtraOr::Regular(l)) => assert!(l.r_paren_().is_some()),
        _ => panic!("expected `)`"),
    }
}

#[test]
fn global_declaration() {
    for (kw, is_const) in [("CONST", true), ("VAR", false)] {
        let n = numbered(branch(
            "global",
            vec![
                with_field("type", leaf(kw, false)),
                with_field("name", leaf("identifier", true)),
                with_field("op", leaf("=", false)),
                with_field("value", leaf("number", true)),
            ],
        ));
        let g = Global::try_from(&n).unwrap();
        let t: Const_Var = g.type_node().unwrap();
        assert_eq!(t.const_node().is_some(), is_const);
        assert_eq!(t.var().is_some(), !is_const);
        assert!(g.op().is_ok());
        assert!(g.value().unwrap().number().is_some());
    }
    let k = numbered(leaf("CONST", false));
    assert!(matches!(Const_Var::try_from(&k), Ok(Const_Var::Const(unnamed::Const(_)))));
}

#[test]
fn small_unions() {
    let open = numbered(leaf("(", false));
    let close = numbered(leaf(")", false));
    assert!(LParen__RParen_::try_from(&open).unwrap().l_paren_().is_some());
    assert!(LParen__RParen_::try_from(&open).unwrap().r_paren_().is_none());
    assert!(LParen__RParen_::try_from(&close).unwrap().r_paren_().is_some());
    for (kind, which) in [("cycle", 0), ("once", 1), ("shuffle", 2), ("stopping", 3)] {
        let n = numbered(leaf(kind, false));
        let u = Cycle_Once_Shuffle_Stopping::try_from(&n).unwrap();
        assert_eq!(u.cycle().is_some(), which == 0);
        assert_eq!(u.once().is_some(), which == 1);
        assert_eq!(u.shuffle().is_some(), which == 2);
        assert_eq!(u.stopping().is_some(), which == 3);
    }
    let inc = numbered(leaf("++", false));
    let dec = numbered(leaf("--", false));
    assert!(Add_Add__Sub_Sub_::try_from(&inc).unwrap().add_add_().is_some());
    assert!(Add_Add__Sub_Sub_::try_from(&dec).unwrap().sub_sub_().is_some());
    assert!(Add_Add__Sub_Sub_::try_from(&dec).unwrap().add_add_().is_none());
    for (kind, which) in [("!", 0), ("-", 1), ("not", 2)] {
        let n = numbered(branch("unary", vec![with_field("op", leaf(kind, false)), plain(leaf("boolean", true))]));
        let u = Unary::try_from(&n).unwrap();
        let op: Not__Sub__Not = u.op().unwrap();
        assert_eq!(op.not_().is_some(), which == 0);
        assert_eq!(op.sub_().is_some(), which == 1);
        assert_eq!(op.not().is_some(), which == 2);
    }
}

#[test]
fn node_access_and_replacement() {
    let a = SyntaxNode { id: 1, ..leaf("identifier", true) };
    let b = SyntaxNode { id: 2, ..leaf("identifier", true) };
    let mut id = Identifier::try_from(&a).unwrap();
    assert!(std::ptr::eq(*id.node(), &a));
    *id.node_mut() = &b;
    assert!(std::ptr::eq(id.into_node(), &b));
    let forced = Number::from_node_unchecked(&a);
    assert_eq!(forced.into_node().kind, "identifier");
}

#[test]
fn text_operator_fields() {
    let n = numbered(branch(
        "text",
        vec![
            with_field("args", leaf(",", false)),
            with_field("args", leaf("->", false)),
            with_field("op", leaf("++", false)),
            with_field("op", leaf("not", false)),
            with_field("target", leaf("true", false)),
            with_field("target", leaf(".", false)),
            with_field("args", leaf("false", false)),
            with_field("op", leaf("!", false)),
        ],
    ));
    let t = Text::try_from(&n).unwrap();
    let args = t.argss();
    assert_eq!(args.len(), 3);
    let arg = |i: usize| match args[i] {
        Ok(ExtraOr::Regular(a)) => a,
        _ => panic!("expected an operator"),
    };
    assert!(arg(0).comma_().is_some());
    assert!(arg(0).sub_gt_().is_none());
    assert!(arg(1).sub_gt_().is_some());
    assert!(arg(2).false_node().is_some());
    assert!(arg(2).true_node().is_none());
    let ops = t.ops();
    assert_eq!(ops.len(), 3);
    let op = |i: usize| match ops[i] {
        Ok(ExtraOr::Regular(o)) => o,
        _ => panic!("expected an operator"),
    };
    assert!(op(0).add_add_().is_some());
    assert!(op(1).not().is_some());
    assert!(op(1).not_().is_none());
    assert!(op(2).not_().is_some());
    let targets = t.targets();
    assert_eq!(targets.len(), 2);
    match (targets[0], targets[1]) {
        (Ok(ExtraOr::Regular(a)), Ok(ExtraOr::Regular(b))) => {
            assert!(a.true_node().is_some());
            assert!(b.dot_().is_some());
            assert!(b.comma_().is_none());
        },
        _ => panic!("expected two operators"),
    }
    // a comma is not an operator of the `op` field
    let bad = numbered(branch("text", vec![with_field("op", leaf(",", false))]));
    let bad_ops = Text::try_from(&bad).unwrap().ops();
    assert!(bad_ops[0].is_err());
}

#[test]
fn typed_nodes_compare_by_node_identity() {
    let a = SyntaxNode { id: 1, ..leaf("identifier", true) };
    let b = SyntaxNode { id: 2, ..leaf("identifier", true) };
    let a_again = SyntaxNode { id: 1, ..leaf("number", true) };
    // same contents, different nodes
    assert!(Identifier::try_from(&a).unwrap() != Identifier::try_from(&b).unwrap());
    // the same node, viewed twice
    assert!(Identifier::try_from(&a).unwrap() == Identifier::try_from(&a).unwrap());
    assert!(a == a_again);
    assert!(a != b);
    let mut seen = std::collections::HashSet::new();
    assert!(seen.insert(Identifier::try_from(&a).unwrap()));
    assert!(!seen.insert(Identifier::try_from(&a).unwrap()));
    assert!(seen.insert(Identifier::try_from(&b).unwrap()));
}

#[test]
fn source_positions_and_flags_are_kept() {
    let n = SyntaxNode { start_byte: 4, end_byte: 9, missing: true, error: false, ..leaf("identifier", true) };
    let id = Identifier::try_from(&n).unwrap();
    let node = id.into_node();
    assert_eq!((node.start_byte, node.end_byte), (4, 9));
    assert!(node.missing);
    assert!(!node.error);
    let err = Number::try_from(&n).unwrap_err();
    assert_eq!(err.node.start_byte, 4);
}
