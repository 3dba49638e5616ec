use ink_fmt::syntax::{SyntaxChild, SyntaxNode};

fn leaf(kind: &'static str, named: bool) -> SyntaxNode {
    SyntaxNode {
        id: 0,
        kind,
        named,
        extra: false,
        missing: false,
        error: false,
        start_byte: 0,
        end_byte: 0,
        children: Vec::new(),
    }
}

fn comment() -> SyntaxNode {
    SyntaxNode { extra: true, ..leaf("comment", true) }
}

fn with_field(field: &'static str, node: SyntaxNode) -> SyntaxChild {
    SyntaxChild { field: Some(field), node }
}

fn plain(node: SyntaxNode) -> SyntaxChild {
    SyntaxChild { field: None, node }
}

/// `(x, y)` with a comment: labels `(`, `x`, `y`, `)` under the field `label`.
fn sample() -> SyntaxNode {
    SyntaxNode {
        children: vec![
            with_field("label", leaf("(", false)),
            with_field("label", leaf("identifier", true)),
            plain(comment()),
            with_field("main", leaf("content", true)),
            with_field("label", leaf("identifier", true)),
            with_field("label", leaf(")", false)),
        ],
        ..leaf("choice", true)
    }
}

fn assign_ids(node: &mut SyntaxNode, next: &mut usize) {
    node.id = *next;
    *next += 1;
    for c in node.children.iter_mut() {
        assign_ids(&mut c.node, next);
    }
}

/// Gives every node of the tree its own identity, in preorder.
fn numbered(mut root: SyntaxNode) -> SyntaxNode {
    let mut next = 1;
    assign_ids(&mut root, &mut next);
    root
}

#[test]
fn child_by_field_name_finds_first() {
    let n = numbered(sample());
    assert_eq!(n.child_by_field_name("label").map(|c| c.kind), Some("("));
    assert_eq!(n.child_by_field_name("main").map(|c| c.kind), Some("content"));
    assert!(n.child_by_field_name("final").is_none());
}

#[test]
fn children_by_field_name_keeps_order_and_anonymous_nodes() {
    let n = numbered(sample());
    let kinds: Vec<&str> = n.children_by_field_name("label").iter().map(|c| c.kind).collect();
    assert_eq!(kinds, vec!["(", "identifier", "identifier", ")"]);
    assert!(n.children_by_field_name("condition").is_empty());
}

#[test]
fn named_children_skip_anonymous_nodes() {
    let n = numbered(sample());
    let kinds: Vec<&str> = n.named_children().iter().map(|c| c.kind).collect();
    assert_eq!(kinds, vec!["identifier", "comment", "content", "identifier"]);
    assert_eq!(n.named_child(1).map(|c| c.kind), Some("comment"));
    assert_eq!(n.named_child(2).map(|c| c.kind), Some("content"));
    assert!(n.named_child(4).is_none());
}

#[test]
fn leaf_has_no_children() {
    let n = numbered(leaf("number", true));
    assert!(n.named_children().is_empty());
    assert!(n.named_child(0).is_none());
    assert!(n.child_by_field_name("value").is_none());
}
