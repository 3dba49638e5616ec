//! A concrete syntax tree, as a parser hands it over, and the results of viewing its nodes
//! as typed nodes.
use vstd::prelude::*;
use vstd::std_specs::cmp::PartialEqSpecImpl;
use vstd::std_specs::convert::{TryFromSpec, TryFromSpecImpl};

verus! {

/// A node of a concrete syntax tree: an identity that no other node of the tree shares, its
/// kind, whether it is named (a grammar rule rather than a literal token), whether it is
/// extra (such as a comment, allowed anywhere), whether the parser inserted it in place of
/// something missing, whether it stands for a syntax error, the byte range of the source
/// that it covers, and its children in order.
///
/// Two nodes are equal when they have the same identity, whatever they hold.
#[derive(Debug)]
pub struct SyntaxNode {
    pub id: usize,
    pub kind: &'static str,
    pub named: bool,
    pub extra: bool,
    pub missing: bool,
    pub error: bool,
    pub start_byte: usize,
    pub end_byte: usize,
    pub children: Vec<SyntaxChild>,
}

impl PartialEq for SyntaxNode {
    fn eq(&self, other: &SyntaxNode) -> (r: bool)
        ensures
            r == (self.id == other.id),
    {
        self.id == other.id
    }
}

impl PartialEqSpecImpl for SyntaxNode {
    open spec fn obeys_eq_spec() -> bool {
        true
    }

    open spec fn eq_spec(&self, other: &SyntaxNode) -> bool {
        self.id == other.id
    }
}

impl Eq for SyntaxNode {
}

impl core::hash::Hash for SyntaxNode {
    /// Feeds the identity of the node, and nothing else, to `state`, through std's
    /// `<usize as Hash>::hash`. No contract is claimed of it.
    #[verifier::external_body]
    fn hash<H: core::hash::Hasher>(&self, state: &mut H) {
        self.id.hash(state)
    }
}

/// A child of a [`SyntaxNode`], with the name of the field that holds it, if any.
#[derive(Debug, PartialEq, Eq, Hash)]
pub struct SyntaxChild {
    pub field: Option<&'static str>,
    pub node: SyntaxNode,
}

/// The nodes among `cs` that the field `name` holds, in order.
pub open spec fn nodes_in_field(cs: Seq<SyntaxChild>, name: Seq<char>) -> Seq<SyntaxNode>
    decreases cs.len(),
{
    if cs.len() == 0 {
        Seq::empty()
    } else {
        let rest = nodes_in_field(cs.drop_last(), name);
        if cs.last().field matches Some(f) && f@ == name {
            rest.push(cs.last().node)
        } else {
            rest
        }
    }
}

/// The named nodes among `cs`, in order.
pub open spec fn named_nodes(cs: Seq<SyntaxChild>) -> Seq<SyntaxNode>
    decreases cs.len(),
{
    if cs.len() == 0 {
        Seq::empty()
    } else {
        let rest = named_nodes(cs.drop_last());
        if cs.last().node.named {
            rest.push(cs.last().node)
        } else {
            rest
        }
    }
}

impl SyntaxNode {
    /// The children that the field `name` holds, in order.
    pub open spec fn field_children(self, name: Seq<char>) -> Seq<SyntaxNode> {
        nodes_in_field(self.children@, name)
    }

    /// The named children, in order.
    pub open spec fn named_children_spec(self) -> Seq<SyntaxNode> {
        named_nodes(self.children@)
    }

    /// The first child that the field `field_name` holds.
    pub fn child_by_field_name(&self, field_name: &str) -> (r: Option<&SyntaxNode>)
        ensures
            r is Some <==> self.field_children(field_name@).len() > 0,
            r matches Some(n) ==> *n == self.field_children(field_name@)[0],
    {
        let all = self.children_by_field_name(field_name);
        if all.len() > 0 {
            Some(all[0])
        } else {
            None
        }
    }

    /// The children that the field `field_name` holds, in order.
    pub fn children_by_field_name(&self, field_name: &str) -> (r: Vec<&SyntaxNode>)
        ensures
            r.len() == self.field_children(field_name@).len(),
            forall|i: int| 0 <= i < r.len() ==> *r[i] == self.field_children(field_name@)[i],
    {
        let mut out: Vec<&SyntaxNode> = Vec::new();
        let mut k: usize = 0;
        while k < self.children.len()
            invariant
                k <= self.children.len(),
                out.len() == nodes_in_field(self.children@.take(k as int), field_name@).len(),
                forall|i: int|
                    0 <= i < out.len() ==> *out[i] == nodes_in_field(
                        self.children@.take(k as int),
                        field_name@,
                    )[i],
            decreases self.children.len() - k,
        {
            let child = &self.children[k];
            assert(self.children@.take(k + 1).drop_last() == self.children@.take(k as int));
            match child.field {
                Some(f) => {
                    if str_eq(f, field_name) {
                        out.push(&child.node);
                    }
                },
                None => {},
            }
            k += 1;
        }
        assert(self.children@.take(self.children.len() as int) == self.children@);
        out
    }

    /// The named children, in order.
    pub fn named_children(&self) -> (r: Vec<&SyntaxNode>)
        ensures
            r.len() == self.named_children_spec().len(),
            forall|i: int| 0 <= i < r.len() ==> *r[i] == self.named_children_spec()[i],
    {
        let mut out: Vec<&SyntaxNode> = Vec::new();
        let mut k: usize = 0;
        while k < self.children.len()
            invariant
                k <= self.children.len(),
                out.len() == named_nodes(self.children@.take(k as int)).len(),
                forall|i: int|
                    0 <= i < out.len() ==> *out[i] == named_nodes(self.children@.take(k as int))[i],
            decreases self.children.len() - k,
        {
            let child = &self.children[k];
            assert(self.children@.take(k + 1).drop_last() == self.children@.take(k as int));
            if child.node.named {
                out.push(&child.node);
            }
            k += 1;
        }
        assert(self.children@.take(self.children.len() as int) == self.children@);
        out
    }

    /// The named child at index `i` among the named children.
    pub fn named_child(&self, i: usize) -> (r: Option<&SyntaxNode>)
        ensures
            r is Some <==> i < self.named_children_spec().len(),
            r matches Some(n) ==> *n == self.named_children_spec()[i as int],
    {
        let all = self.named_children();
        if i < all.len() {
            Some(all[i])
        } else {
            None
        }
    }
}

/// The error of viewing a node as a typed node of another kind: the node, and the kind
/// that was expected.
#[derive(Debug, Clone, Copy, PartialEq, Eq, Hash)]
pub struct IncorrectKind<'tree> {
    pub node: &'tree SyntaxNode,
    pub kind: &'static str,
}

/// A node viewed as a typed node, or the reason why it is not one.
pub type NodeResult<'tree, T> = Result<T, IncorrectKind<'tree>>;

/// A child that is either an extra node (such as a comment) or a typed node.
#[derive(Debug, Clone, Copy, PartialEq, Eq, Hash)]
pub enum ExtraOr<'tree, T> {
    Extra(&'tree SyntaxNode),
    Regular(T),
}

/// Whether two strings are equal, compared byte by byte.
pub(crate) fn str_eq(a: &str, b: &str) -> (r: bool)
    ensures
        r == (a@ == b@),
{
    let x = a.as_bytes();
    let y = b.as_bytes();
    proof {
        vstd::utf8::encode_utf8_decode_utf8(a@);
        vstd::utf8::encode_utf8_decode_utf8(b@);
    }
    if x.len() != y.len() {
        return false;
    }
    let mut k: usize = 0;
    while k < x.len()
        invariant
            x@ == vstd::utf8::encode_utf8(a@),
            y@ == vstd::utf8::encode_utf8(b@),
            x.len() == y.len(),
            k <= x.len(),
            forall|i: int| 0 <= i < k ==> x@[i] == y@[i],
        decreases x.len() - k,
    {
        if x[k] != y[k] {
            return false;
        }
        k += 1;
    }
    assert(x@ =~= y@);
    true
}

impl<'tree, T: TryFrom<&'tree SyntaxNode, Error = IncorrectKind<'tree>>> TryFrom<
    &'tree SyntaxNode,
> for ExtraOr<'tree, T> {
    type Error = IncorrectKind<'tree>;

    fn try_from(node: &'tree SyntaxNode) -> (r: Result<Self, IncorrectKind<'tree>>) {
        if node.extra {
            Ok(ExtraOr::Extra(node))
        } else {
            match T::try_from(node) {
                Ok(t) => Ok(ExtraOr::Regular(t)),
                Err(e) => Err(e),
            }
        }
    }
}

impl<'tree, T: TryFrom<&'tree SyntaxNode, Error = IncorrectKind<'tree>>> TryFromSpecImpl<
    &'tree SyntaxNode,
> for ExtraOr<'tree, T> {
    open spec fn obeys_try_from_spec() -> bool {
        typed_view_holds::<T>()
    }

    open spec fn try_from_spec(node: &'tree SyntaxNode) -> Result<Self, IncorrectKind<'tree>> {
        if node.extra {
            Ok(ExtraOr::Extra(node))
        } else {
            match typed::<T>(node) {
                Ok(t) => Ok(ExtraOr::Regular(t)),
                Err(e) => Err(e),
            }
        }
    }
}

/// `node` viewed as a typed node `T`.
pub open spec fn typed<'tree, T: TryFrom<&'tree SyntaxNode, Error = IncorrectKind<'tree>>>(
    node: &'tree SyntaxNode,
) -> NodeResult<'tree, T> {
    <T as TryFromSpec<&'tree SyntaxNode>>::try_from_spec(node)
}

/// Whether viewing nodes as `T` follows [`typed`].
pub open spec fn typed_view_holds<'tree, T: TryFrom<&'tree SyntaxNode, Error = IncorrectKind<'tree>>>() -> bool {
    <T as TryFromSpec<&'tree SyntaxNode>>::obeys_try_from_spec()
}

/// Each of `nodes` viewed as a `T`.
pub fn typed_all<'tree, T: TryFrom<&'tree SyntaxNode, Error = IncorrectKind<'tree>>>(
    nodes: Vec<&'tree SyntaxNode>,
) -> (r: Vec<NodeResult<'tree, T>>)
    requires
        typed_view_holds::<T>(),
    ensures
        r.len() == nodes.len(),
        forall|i: int| 0 <= i < r.len() ==> r[i] == typed::<T>(nodes[i]),
{
    let mut out: Vec<NodeResult<'tree, T>> = Vec::new();
    let mut k: usize = 0;
    while k < nodes.len()
        invariant
            typed_view_holds::<T>(),
            k <= nodes.len(),
            out.len() == k,
            forall|i: int| 0 <= i < k ==> out[i] == typed::<T>(nodes[i]),
        decreases nodes.len() - k,
    {
        out.push(T::try_from(nodes[k]));
        k += 1;
    }
    out
}

/// A node that may be absent, viewed as a `T`.
pub fn typed_opt<'tree, T: TryFrom<&'tree SyntaxNode, Error = IncorrectKind<'tree>>>(
    node: Option<&'tree SyntaxNode>,
) -> (r: Option<NodeResult<'tree, T>>)
    requires
        typed_view_holds::<T>(),
    ensures
        r is Some <==> node is Some,
        node matches Some(n) ==> r == Some(typed::<T>(n)),
{
    match node {
        Some(n) => Some(T::try_from(n)),
        None => None,
    }
}

/// The named children are named, and there are no more of them than children.
pub proof fn law_named_children_are_named(cs: Seq<SyntaxChild>)
    ensures
        named_nodes(cs).len() <= cs.len(),
        forall|i: int| 0 <= i < named_nodes(cs).len() ==> #[trigger] named_nodes(cs)[i].named,
    decreases cs.len(),
{
    if cs.len() > 0 {
        law_named_children_are_named(cs.drop_last());
    }
}

/// There are no more children under a field than children.
pub proof fn law_field_children_are_children(cs: Seq<SyntaxChild>, name: Seq<char>)
    ensures
        nodes_in_field(cs, name).len() <= cs.len(),
    decreases cs.len(),
{
    if cs.len() > 0 {
        law_field_children_are_children(cs.drop_last(), name);
    }
}

/// The named children are the nodes of the children that are named, in order.
pub proof fn law_named_children_are_the_named_nodes(cs: Seq<SyntaxChild>)
    ensures
        named_nodes(cs) == cs.filter_map(
            |c: SyntaxChild|
                if c.node.named {
                    Some(c.node)
                } else {
                    None
                },
        ),
    decreases cs.len(),
{
    if cs.len() > 0 {
        law_named_children_are_the_named_nodes(cs.drop_last());
        assert(named_nodes(cs) =~= cs.filter_map(
            |c: SyntaxChild|
                if c.node.named {
                    Some(c.node)
                } else {
                    None
                },
        ));
    }
}

/// The children under a field are the nodes of the children whose field has that name, in
/// order.
pub proof fn law_field_children_are_the_nodes_in_the_field(cs: Seq<SyntaxChild>, name: Seq<char>)
    ensures
        nodes_in_field(cs, name) == cs.filter_map(
            |c: SyntaxChild|
                if c.field is Some && c.field.unwrap()@ == name {
                    Some(c.node)
                } else {
                    None
                },
        ),
    decreases cs.len(),
{
    if cs.len() > 0 {
        law_field_children_are_the_nodes_in_the_field(cs.drop_last(), name);
        assert(nodes_in_field(cs, name) =~= cs.filter_map(
            |c: SyntaxChild|
                if c.field is Some && c.field.unwrap()@ == name {
                    Some(c.node)
                } else {
                    None
                },
        ));
    }
}

/// Wherever a list of children of some type is expected, an extra node (such as a comment)
/// is accepted as it is, and any other node is viewed as that type.
pub proof fn law_extra_nodes_pass_through<
    'tree,
    T: TryFrom<&'tree SyntaxNode, Error = IncorrectKind<'tree>>,
>(node: &'tree SyntaxNode)
    ensures
        node.extra ==> typed::<ExtraOr<'tree, T>>(node) == Ok::<ExtraOr<'tree, T>, IncorrectKind<'tree>>(
            ExtraOr::Extra(node),
        ),
        !node.extra ==> typed::<ExtraOr<'tree, T>>(node) == match typed::<T>(node) {
            Ok(t) => Ok::<ExtraOr<'tree, T>, IncorrectKind<'tree>>(ExtraOr::Regular(t)),
            Err(e) => Err(e),
        },
{
}

} // verus!
