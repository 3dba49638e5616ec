//! Typed views of keyword tokens of the ink grammar.

use vstd::prelude::*;
use vstd::std_specs::convert::TryFromSpecImpl;
#[allow(unused_imports)]
use crate::syntax::{
    str_eq, typed, typed_all, typed_opt, ExtraOr, IncorrectKind, NodeResult, SyntaxNode,
};

verus! {

/// Typed node `textrest`
///
/// This node has no children
#[derive(Debug, Clone, Copy, PartialEq, Eq, Hash)]
#[allow(non_camel_case_types)]
pub struct Textrest<'tree>(pub &'tree SyntaxNode);

impl<'tree> Textrest<'tree> {
    /// The kind of the nodes of this type.
    pub const KIND: &'static str = "textrest";

    /// The underlying node.
    pub fn node(&self) -> (r: &&'tree SyntaxNode)
        ensures
            *r == self.0,
    {
        &self.0
    }

    /// The underlying node, to replace in place.
    pub fn node_mut(&mut self) -> (r: &mut &'tree SyntaxNode)
        ensures
            *r == old(self).0,
            final(self).0 == *final(r),
    {
        &mut self.0
    }

    /// The underlying node, giving up the typed view.
    pub fn into_node(self) -> (r: &'tree SyntaxNode)
        ensures
            r == self.0,
    {
        self.0
    }

    /// Views `node` as this type without checking its kind.
    pub fn from_node_unchecked(node: &'tree SyntaxNode) -> (r: Self)
        ensures
            r.0 == node,
    {
        Self(node)
    }
}

impl<'tree> TryFrom<&'tree SyntaxNode> for Textrest<'tree> {
    type Error = IncorrectKind<'tree>;

    /// Views `node` as this type if it has this type's kind.
    fn try_from(node: &'tree SyntaxNode) -> (r: NodeResult<'tree, Self>)
        ensures
            node.kind@ == "textrest"@ ==> r == Ok::<Self, IncorrectKind<'tree>>(Self(node)),
            node.kind@ != "textrest"@ ==> r == Err::<Self, IncorrectKind<'tree>>(IncorrectKind { node, kind: Self::KIND }),
    {
        if str_eq(node.kind, Self::KIND) {
            Ok(Self(node))
        } else {
            Err(IncorrectKind { node, kind: Self::KIND })
        }
    }
}

impl<'tree> TryFromSpecImpl<&'tree SyntaxNode> for Textrest<'tree> {
    open spec fn obeys_try_from_spec() -> bool {
        true
    }

    open spec fn try_from_spec(node: &'tree SyntaxNode) -> NodeResult<'tree, Self> {
        if node.kind@ == "textrest"@ {
            Ok(Self(node))
        } else {
            Err(IncorrectKind { node, kind: Self::KIND })
        }
    }
}

/// Typed node `CONST`
///
/// This node has no children
#[derive(Debug, Clone, Copy, PartialEq, Eq, Hash)]
#[allow(non_camel_case_types)]
pub struct Const<'tree>(pub &'tree SyntaxNode);

impl<'tree> Const<'tree> {
    /// The kind of the nodes of this type.
    pub const KIND: &'static str = "CONST";

    /// The underlying node.
    pub fn node(&self) -> (r: &&'tree SyntaxNode)
        ensures
            *r == self.0,
    {
        &self.0
    }

    /// The underlying node, to replace in place.
    pub fn node_mut(&mut self) -> (r: &mut &'tree SyntaxNode)
        ensures
            *r == old(self).0,
            final(self).0 == *final(r),
    {
        &mut self.0
    }

    /// The underlying node, giving up the typed view.
    pub fn into_node(self) -> (r: &'tree SyntaxNode)
        ensures
            r == self.0,
    {
        self.0
    }

    /// Views `node` as this type without checking its kind.
    pub fn from_node_unchecked(node: &'tree SyntaxNode) -> (r: Self)
        ensures
            r.0 == node,
    {
        Self(node)
    }
}

impl<'tree> TryFrom<&'tree SyntaxNode> for Const<'tree> {
    type Error = IncorrectKind<'tree>;

    /// Views `node` as this type if it has this type's kind.
    fn try_from(node: &'tree SyntaxNode) -> (r: NodeResult<'tree, Self>)
        ensures
            node.kind@ == "CONST"@ ==> r == Ok::<Self, IncorrectKind<'tree>>(Self(node)),
            node.kind@ != "CONST"@ ==> r == Err::<Self, IncorrectKind<'tree>>(IncorrectKind { node, kind: Self::KIND }),
    {
        if str_eq(node.kind, Self::KIND) {
            Ok(Self(node))
        } else {
            Err(IncorrectKind { node, kind: Self::KIND })
        }
    }
}

impl<'tree> TryFromSpecImpl<&'tree SyntaxNode> for Const<'tree> {
    open spec fn obeys_try_from_spec() -> bool {
        true
    }

    open spec fn try_from_spec(node: &'tree SyntaxNode) -> NodeResult<'tree, Self> {
        if node.kind@ == "CONST"@ {
            Ok(Self(node))
        } else {
            Err(IncorrectKind { node, kind: Self::KIND })
        }
    }
}

/// Typed node `EXTERNAL`
///
/// This node has no children
#[derive(Debug, Clone, Copy, PartialEq, Eq, Hash)]
#[allow(non_camel_case_types)]
pub struct External<'tree>(pub &'tree SyntaxNode);

impl<'tree> External<'tree> {
    /// The kind of the nodes of this type.
    pub const KIND: &'static str = "EXTERNAL";

    /// The underlying node.
    pub fn node(&self) -> (r: &&'tree SyntaxNode)
        ensures
            *r == self.0,
    {
        &self.0
    }

    /// The underlying node, to replace in place.
    pub fn node_mut(&mut self) -> (r: &mut &'tree SyntaxNode)
        ensures
            *r == old(self).0,
            final(self).0 == *final(r),
    {
        &mut self.0
    }

    /// The underlying node, giving up the typed view.
    pub fn into_node(self) -> (r: &'tree SyntaxNode)
        ensures
            r == self.0,
    {
        self.0
    }

    /// Views `node` as this type without checking its kind.
    pub fn from_node_unchecked(node: &'tree SyntaxNode) -> (r: Self)
        ensures
            r.0 == node,
    {
        Self(node)
    }
}

impl<'tree> TryFrom<&'tree SyntaxNode> for External<'tree> {
    type Error = IncorrectKind<'tree>;

    /// Views `node` as this type if it has this type's kind.
    fn try_from(node: &'tree SyntaxNode) -> (r: NodeResult<'tree, Self>)
        ensures
            node.kind@ == "EXTERNAL"@ ==> r == Ok::<Self, IncorrectKind<'tree>>(Self(node)),
            node.kind@ != "EXTERNAL"@ ==> r == Err::<Self, IncorrectKind<'tree>>(IncorrectKind { node, kind: Self::KIND }),
    {
        if str_eq(node.kind, Self::KIND) {
            Ok(Self(node))
        } else {
            Err(IncorrectKind { node, kind: Self::KIND })
        }
    }
}

impl<'tree> TryFromSpecImpl<&'tree SyntaxNode> for External<'tree> {
    open spec fn obeys_try_from_spec() -> bool {
        true
    }

    open spec fn try_from_spec(node: &'tree SyntaxNode) -> NodeResult<'tree, Self> {
        if node.kind@ == "EXTERNAL"@ {
            Ok(Self(node))
        } else {
            Err(IncorrectKind { node, kind: Self::KIND })
        }
    }
}

/// Typed node `INCLUDE`
///
/// This node has no children
#[derive(Debug, Clone, Copy, PartialEq, Eq, Hash)]
#[allow(non_camel_case_types)]
pub struct Include<'tree>(pub &'tree SyntaxNode);

impl<'tree> Include<'tree> {
    /// The kind of the nodes of this type.
    pub const KIND: &'static str = "INCLUDE";

    /// The underlying node.
    pub fn node(&self) -> (r: &&'tree SyntaxNode)
        ensures
            *r == self.0,
    {
        &self.0
    }

    /// The underlying node, to replace in place.
    pub fn node_mut(&mut self) -> (r: &mut &'tree SyntaxNode)
        ensures
            *r == old(self).0,
            final(self).0 == *final(r),
    {
        &mut self.0
    }

    /// The underlying node, giving up the typed view.
    pub fn into_node(self) -> (r: &'tree SyntaxNode)
        ensures
            r == self.0,
    {
        self.0
    }

    /// Views `node` as this type without checking its kind.
    pub fn from_node_unchecked(node: &'tree SyntaxNode) -> (r: Self)
        ensures
            r.0 == node,
    {
        Self(node)
    }
}

impl<'tree> TryFrom<&'tree SyntaxNode> for Include<'tree> {
    type Error = IncorrectKind<'tree>;

    /// Views `node` as this type if it has this type's kind.
    fn try_from(node: &'tree SyntaxNode) -> (r: NodeResult<'tree, Self>)
        ensures
            node.kind@ == "INCLUDE"@ ==> r == Ok::<Self, IncorrectKind<'tree>>(Self(node)),
            node.kind@ != "INCLUDE"@ ==> r == Err::<Self, IncorrectKind<'tree>>(IncorrectKind { node, kind: Self::KIND }),
    {
        if str_eq(node.kind, Self::KIND) {
            Ok(Self(node))
        } else {
            Err(IncorrectKind { node, kind: Self::KIND })
        }
    }
}

impl<'tree> TryFromSpecImpl<&'tree SyntaxNode> for Include<'tree> {
    open spec fn obeys_try_from_spec() -> bool {
        true
    }

    open spec fn try_from_spec(node: &'tree SyntaxNode) -> NodeResult<'tree, Self> {
        if node.kind@ == "INCLUDE"@ {
            Ok(Self(node))
        } else {
            Err(IncorrectKind { node, kind: Self::KIND })
        }
    }
}

/// Typed node `LIST`
///
/// This node has no children
#[derive(Debug, Clone, Copy, PartialEq, Eq, Hash)]
#[allow(non_camel_case_types)]
pub struct List<'tree>(pub &'tree SyntaxNode);

impl<'tree> List<'tree> {
    /// The kind of the nodes of this type.
    pub const KIND: &'static str = "LIST";

    /// The underlying node.
    pub fn node(&self) -> (r: &&'tree SyntaxNode)
        ensures
            *r == self.0,
    {
        &self.0
    }

    /// The underlying node, to replace in place.
    pub fn node_mut(&mut self) -> (r: &mut &'tree SyntaxNode)
        ensures
            *r == old(self).0,
            final(self).0 == *final(r),
    {
        &mut self.0
    }

    /// The underlying node, giving up the typed view.
    pub fn into_node(self) -> (r: &'tree SyntaxNode)
        ensures
            r == self.0,
    {
        self.0
    }

    /// Views `node` as this type without checking its kind.
    pub fn from_node_unchecked(node: &'tree SyntaxNode) -> (r: Self)
        ensures
            r.0 == node,
    {
        Self(node)
    }
}

impl<'tree> TryFrom<&'tree SyntaxNode> for List<'tree> {
    type Error = IncorrectKind<'tree>;

    /// Views `node` as this type if it has this type's kind.
    fn try_from(node: &'tree SyntaxNode) -> (r: NodeResult<'tree, Self>)
        ensures
            node.kind@ == "LIST"@ ==> r == Ok::<Self, IncorrectKind<'tree>>(Self(node)),
            node.kind@ != "LIST"@ ==> r == Err::<Self, IncorrectKind<'tree>>(IncorrectKind { node, kind: Self::KIND }),
    {
        if str_eq(node.kind, Self::KIND) {
            Ok(Self(node))
        } else {
            Err(IncorrectKind { node, kind: Self::KIND })
        }
    }
}

impl<'tree> TryFromSpecImpl<&'tree SyntaxNode> for List<'tree> {
    open spec fn obeys_try_from_spec() -> bool {
        true
    }

    open spec fn try_from_spec(node: &'tree SyntaxNode) -> NodeResult<'tree, Self> {
        if node.kind@ == "LIST"@ {
            Ok(Self(node))
        } else {
            Err(IncorrectKind { node, kind: Self::KIND })
        }
    }
}

/// Typed node `TODO`
///
/// This node has no children
#[derive(Debug, Clone, Copy, PartialEq, Eq, Hash)]
#[allow(non_camel_case_types)]
pub struct Todo<'tree>(pub &'tree SyntaxNode);

impl<'tree> Todo<'tree> {
    /// The kind of the nodes of this type.
    pub const KIND: &'static str = "TODO";

    /// The underlying node.
    pub fn node(&self) -> (r: &&'tree SyntaxNode)
        ensures
            *r == self.0,
    {
        &self.0
    }

    /// The underlying node, to replace in place.
    pub fn node_mut(&mut self) -> (r: &mut &'tree SyntaxNode)
        ensures
            *r == old(self).0,
            final(self).0 == *final(r),
    {
        &mut self.0
    }

    /// The underlying node, giving up the typed view.
    pub fn into_node(self) -> (r: &'tree SyntaxNode)
        ensures
            r == self.0,
    {
        self.0
    }

    /// Views `node` as this type without checking its kind.
    pub fn from_node_unchecked(node: &'tree SyntaxNode) -> (r: Self)
        ensures
            r.0 == node,
    {
        Self(node)
    }
}

impl<'tree> TryFrom<&'tree SyntaxNode> for Todo<'tree> {
    type Error = IncorrectKind<'tree>;

    /// Views `node` as this type if it has this type's kind.
    fn try_from(node: &'tree SyntaxNode) -> (r: NodeResult<'tree, Self>)
        ensures
            node.kind@ == "TODO"@ ==> r == Ok::<Self, IncorrectKind<'tree>>(Self(node)),
            node.kind@ != "TODO"@ ==> r == Err::<Self, IncorrectKind<'tree>>(IncorrectKind { node, kind: Self::KIND }),
    {
        if str_eq(node.kind, Self::KIND) {
            Ok(Self(node))
        } else {
            Err(IncorrectKind { node, kind: Self::KIND })
        }
    }
}

impl<'tree> TryFromSpecImpl<&'tree SyntaxNode> for Todo<'tree> {
    open spec fn obeys_try_from_spec() -> bool {
        true
    }

    open spec fn try_from_spec(node: &'tree SyntaxNode) -> NodeResult<'tree, Self> {
        if node.kind@ == "TODO"@ {
            Ok(Self(node))
        } else {
            Err(IncorrectKind { node, kind: Self::KIND })
        }
    }
}

/// Typed node `VAR`
///
/// This node has no children
#[derive(Debug, Clone, Copy, PartialEq, Eq, Hash)]
#[allow(non_camel_case_types)]
pub struct Var<'tree>(pub &'tree SyntaxNode);

impl<'tree> Var<'tree> {
    /// The kind of the nodes of this type.
    pub const KIND: &'static str = "VAR";

    /// The underlying node.
    pub fn node(&self) -> (r: &&'tree SyntaxNode)
        ensures
            *r == self.0,
    {
        &self.0
    }

    /// The underlying node, to replace in place.
    pub fn node_mut(&mut self) -> (r: &mut &'tree SyntaxNode)
        ensures
            *r == old(self).0,
            final(self).0 == *final(r),
    {
        &mut self.0
    }

    /// The underlying node, giving up the typed view.
    pub fn into_node(self) -> (r: &'tree SyntaxNode)
        ensures
            r == self.0,
    {
        self.0
    }

    /// Views `node` as this type without checking its kind.
    pub fn from_node_unchecked(node: &'tree SyntaxNode) -> (r: Self)
        ensures
            r.0 == node,
    {
        Self(node)
    }
}

impl<'tree> TryFrom<&'tree SyntaxNode> for Var<'tree> {
    type Error = IncorrectKind<'tree>;

    /// Views `node` as this type if it has this type's kind.
    fn try_from(node: &'tree SyntaxNode) -> (r: NodeResult<'tree, Self>)
        ensures
            node.kind@ == "VAR"@ ==> r == Ok::<Self, IncorrectKind<'tree>>(Self(node)),
            node.kind@ != "VAR"@ ==> r == Err::<Self, IncorrectKind<'tree>>(IncorrectKind { node, kind: Self::KIND }),
    {
        if str_eq(node.kind, Self::KIND) {
            Ok(Self(node))
        } else {
            Err(IncorrectKind { node, kind: Self::KIND })
        }
    }
}

impl<'tree> TryFromSpecImpl<&'tree SyntaxNode> for Var<'tree> {
    open spec fn obeys_try_from_spec() -> bool {
        true
    }

    open spec fn try_from_spec(node: &'tree SyntaxNode) -> NodeResult<'tree, Self> {
        if node.kind@ == "VAR"@ {
            Ok(Self(node))
        } else {
            Err(IncorrectKind { node, kind: Self::KIND })
        }
    }
}

/// Typed node `and`
///
/// This node has no children
#[derive(Debug, Clone, Copy, PartialEq, Eq, Hash)]
#[allow(non_camel_case_types)]
pub struct And<'tree>(pub &'tree SyntaxNode);

impl<'tree> And<'tree> {
    /// The kind of the nodes of this type.
    pub const KIND: &'static str = "and";

    /// The underlying node.
    pub fn node(&self) -> (r: &&'tree SyntaxNode)
        ensures
            *r == self.0,
    {
        &self.0
    }

    /// The underlying node, to replace in place.
    pub fn node_mut(&mut self) -> (r: &mut &'tree SyntaxNode)
        ensures
            *r == old(self).0,
            final(self).0 == *final(r),
    {
        &mut self.0
    }

    /// The underlying node, giving up the typed view.
    pub fn into_node(self) -> (r: &'tree SyntaxNode)
        ensures
            r == self.0,
    {
        self.0
    }

    /// Views `node` as this type without checking its kind.
    pub fn from_node_unchecked(node: &'tree SyntaxNode) -> (r: Self)
        ensures
            r.0 == node,
    {
        Self(node)
    }
}

impl<'tree> TryFrom<&'tree SyntaxNode> for And<'tree> {
    type Error = IncorrectKind<'tree>;

    /// Views `node` as this type if it has this type's kind.
    fn try_from(node: &'tree SyntaxNode) -> (r: NodeResult<'tree, Self>)
        ensures
            node.kind@ == "and"@ ==> r == Ok::<Self, IncorrectKind<'tree>>(Self(node)),
            node.kind@ != "and"@ ==> r == Err::<Self, IncorrectKind<'tree>>(IncorrectKind { node, kind: Self::KIND }),
    {
        if str_eq(node.kind, Self::KIND) {
            Ok(Self(node))
        } else {
            Err(IncorrectKind { node, kind: Self::KIND })
        }
    }
}

impl<'tree> TryFromSpecImpl<&'tree SyntaxNode> for And<'tree> {
    open spec fn obeys_try_from_spec() -> bool {
        true
    }

    open spec fn try_from_spec(node: &'tree SyntaxNode) -> NodeResult<'tree, Self> {
        if node.kind@ == "and"@ {
            Ok(Self(node))
        } else {
            Err(IncorrectKind { node, kind: Self::KIND })
        }
    }
}

/// Typed node `cycle`
///
/// This node has no children
#[derive(Debug, Clone, Copy, PartialEq, Eq, Hash)]
#[allow(non_camel_case_types)]
pub struct Cycle<'tree>(pub &'tree SyntaxNode);

impl<'tree> Cycle<'tree> {
    /// The kind of the nodes of this type.
    pub const KIND: &'static str = "cycle";

    /// The underlying node.
    pub fn node(&self) -> (r: &&'tree SyntaxNode)
        ensures
            *r == self.0,
    {
        &self.0
    }

    /// The underlying node, to replace in place.
    pub fn node_mut(&mut self) -> (r: &mut &'tree SyntaxNode)
        ensures
            *r == old(self).0,
            final(self).0 == *final(r),
    {
        &mut self.0
    }

    /// The underlying node, giving up the typed view.
    pub fn into_node(self) -> (r: &'tree SyntaxNode)
        ensures
            r == self.0,
    {
        self.0
    }

    /// Views `node` as this type without checking its kind.
    pub fn from_node_unchecked(node: &'tree SyntaxNode) -> (r: Self)
        ensures
            r.0 == node,
    {
        Self(node)
    }
}

impl<'tree> TryFrom<&'tree SyntaxNode> for Cycle<'tree> {
    type Error = IncorrectKind<'tree>;

    /// Views `node` as this type if it has this type's kind.
    fn try_from(node: &'tree SyntaxNode) -> (r: NodeResult<'tree, Self>)
        ensures
            node.kind@ == "cycle"@ ==> r == Ok::<Self, IncorrectKind<'tree>>(Self(node)),
            node.kind@ != "cycle"@ ==> r == Err::<Self, IncorrectKind<'tree>>(IncorrectKind { node, kind: Self::KIND }),
    {
        if str_eq(node.kind, Self::KIND) {
            Ok(Self(node))
        } else {
            Err(IncorrectKind { node, kind: Self::KIND })
        }
    }
}

impl<'tree> TryFromSpecImpl<&'tree SyntaxNode> for Cycle<'tree> {
    open spec fn obeys_try_from_spec() -> bool {
        true
    }

    open spec fn try_from_spec(node: &'tree SyntaxNode) -> NodeResult<'tree, Self> {
        if node.kind@ == "cycle"@ {
            Ok(Self(node))
        } else {
            Err(IncorrectKind { node, kind: Self::KIND })
        }
    }
}

/// Typed node `false`
///
/// This node has no children
#[derive(Debug, Clone, Copy, PartialEq, Eq, Hash)]
#[allow(non_camel_case_types)]
pub struct False<'tree>(pub &'tree SyntaxNode);

impl<'tree> False<'tree> {
    /// The kind of the nodes of this type.
    pub const KIND: &'static str = "false";

    /// The underlying node.
    pub fn node(&self) -> (r: &&'tree SyntaxNode)
        ensures
            *r == self.0,
    {
        &self.0
    }

    /// The underlying node, to replace in place.
    pub fn node_mut(&mut self) -> (r: &mut &'tree SyntaxNode)
        ensures
            *r == old(self).0,
            final(self).0 == *final(r),
    {
        &mut self.0
    }

    /// The underlying node, giving up the typed view.
    pub fn into_node(self) -> (r: &'tree SyntaxNode)
        ensures
            r == self.0,
    {
        self.0
    }

    /// Views `node` as this type without checking its kind.
    pub fn from_node_unchecked(node: &'tree SyntaxNode) -> (r: Self)
        ensures
            r.0 == node,
    {
        Self(node)
    }
}

impl<'tree> TryFrom<&'tree SyntaxNode> for False<'tree> {
    type Error = IncorrectKind<'tree>;

    /// Views `node` as this type if it has this type's kind.
    fn try_from(node: &'tree SyntaxNode) -> (r: NodeResult<'tree, Self>)
        ensures
            node.kind@ == "false"@ ==> r == Ok::<Self, IncorrectKind<'tree>>(Self(node)),
            node.kind@ != "false"@ ==> r == Err::<Self, IncorrectKind<'tree>>(IncorrectKind { node, kind: Self::KIND }),
    {
        if str_eq(node.kind, Self::KIND) {
            Ok(Self(node))
        } else {
            Err(IncorrectKind { node, kind: Self::KIND })
        }
    }
}

impl<'tree> TryFromSpecImpl<&'tree SyntaxNode> for False<'tree> {
    open spec fn obeys_try_from_spec() -> bool {
        true
    }

    open spec fn try_from_spec(node: &'tree SyntaxNode) -> NodeResult<'tree, Self> {
        if node.kind@ == "false"@ {
            Ok(Self(node))
        } else {
            Err(IncorrectKind { node, kind: Self::KIND })
        }
    }
}

/// Typed node `function`
///
/// This node has no children
#[derive(Debug, Clone, Copy, PartialEq, Eq, Hash)]
#[allow(non_camel_case_types)]
pub struct Function<'tree>(pub &'tree SyntaxNode);

impl<'tree> Function<'tree> {
    /// The kind of the nodes of this type.
    pub const KIND: &'static str = "function";

    /// The underlying node.
    pub fn node(&self) -> (r: &&'tree SyntaxNode)
        ensures
            *r == self.0,
    {
        &self.0
    }

    /// The underlying node, to replace in place.
    pub fn node_mut(&mut self) -> (r: &mut &'tree SyntaxNode)
        ensures
            *r == old(self).0,
            final(self).0 == *final(r),
    {
        &mut self.0
    }

    /// The underlying node, giving up the typed view.
    pub fn into_node(self) -> (r: &'tree SyntaxNode)
        ensures
            r == self.0,
    {
        self.0
    }

    /// Views `node` as this type without checking its kind.
    pub fn from_node_unchecked(node: &'tree SyntaxNode) -> (r: Self)
        ensures
            r.0 == node,
    {
        Self(node)
    }
}

impl<'tree> TryFrom<&'tree SyntaxNode> for Function<'tree> {
    type Error = IncorrectKind<'tree>;

    /// Views `node` as this type if it has this type's kind.
    fn try_from(node: &'tree SyntaxNode) -> (r: NodeResult<'tree, Self>)
        ensures
            node.kind@ == "function"@ ==> r == Ok::<Self, IncorrectKind<'tree>>(Self(node)),
            node.kind@ != "function"@ ==> r == Err::<Self, IncorrectKind<'tree>>(IncorrectKind { node, kind: Self::KIND }),
    {
        if str_eq(node.kind, Self::KIND) {
            Ok(Self(node))
        } else {
            Err(IncorrectKind { node, kind: Self::KIND })
        }
    }
}

impl<'tree> TryFromSpecImpl<&'tree SyntaxNode> for Function<'tree> {
    open spec fn obeys_try_from_spec() -> bool {
        true
    }

    open spec fn try_from_spec(node: &'tree SyntaxNode) -> NodeResult<'tree, Self> {
        if node.kind@ == "function"@ {
            Ok(Self(node))
        } else {
            Err(IncorrectKind { node, kind: Self::KIND })
        }
    }
}

/// Typed node `has`
///
/// This node has no children
#[derive(Debug, Clone, Copy, PartialEq, Eq, Hash)]
#[allow(non_camel_case_types)]
pub struct Has<'tree>(pub &'tree SyntaxNode);

impl<'tree> Has<'tree> {
    /// The kind of the nodes of this type.
    pub const KIND: &'static str = "has";

    /// The underlying node.
    pub fn node(&self) -> (r: &&'tree SyntaxNode)
        ensures
            *r == self.0,
    {
        &self.0
    }

    /// The underlying node, to replace in place.
    pub fn node_mut(&mut self) -> (r: &mut &'tree SyntaxNode)
        ensures
            *r == old(self).0,
            final(self).0 == *final(r),
    {
        &mut self.0
    }

    /// The underlying node, giving up the typed view.
    pub fn into_node(self) -> (r: &'tree SyntaxNode)
        ensures
            r == self.0,
    {
        self.0
    }

    /// Views `node` as this type without checking its kind.
    pub fn from_node_unchecked(node: &'tree SyntaxNode) -> (r: Self)
        ensures
            r.0 == node,
    {
        Self(node)
    }
}

impl<'tree> TryFrom<&'tree SyntaxNode> for Has<'tree> {
    type Error = IncorrectKind<'tree>;

    /// Views `node` as this type if it has this type's kind.
    fn try_from(node: &'tree SyntaxNode) -> (r: NodeResult<'tree, Self>)
        ensures
            node.kind@ == "has"@ ==> r == Ok::<Self, IncorrectKind<'tree>>(Self(node)),
            node.kind@ != "has"@ ==> r == Err::<Self, IncorrectKind<'tree>>(IncorrectKind { node, kind: Self::KIND }),
    {
        if str_eq(node.kind, Self::KIND) {
            Ok(Self(node))
        } else {
            Err(IncorrectKind { node, kind: Self::KIND })
        }
    }
}

impl<'tree> TryFromSpecImpl<&'tree SyntaxNode> for Has<'tree> {
    open spec fn obeys_try_from_spec() -> bool {
        true
    }

    open spec fn try_from_spec(node: &'tree SyntaxNode) -> NodeResult<'tree, Self> {
        if node.kind@ == "has"@ {
            Ok(Self(node))
        } else {
            Err(IncorrectKind { node, kind: Self::KIND })
        }
    }
}

/// Typed node `hasnt`
///
/// This node has no children
#[derive(Debug, Clone, Copy, PartialEq, Eq, Hash)]
#[allow(non_camel_case_types)]
pub struct Hasnt<'tree>(pub &'tree SyntaxNode);

impl<'tree> Hasnt<'tree> {
    /// The kind of the nodes of this type.
    pub const KIND: &'static str = "hasnt";

    /// The underlying node.
    pub fn node(&self) -> (r: &&'tree SyntaxNode)
        ensures
            *r == self.0,
    {
        &self.0
    }

    /// The underlying node, to replace in place.
    pub fn node_mut(&mut self) -> (r: &mut &'tree SyntaxNode)
        ensures
            *r == old(self).0,
            final(self).0 == *final(r),
    {
        &mut self.0
    }

    /// The underlying node, giving up the typed view.
    pub fn into_node(self) -> (r: &'tree SyntaxNode)
        ensures
            r == self.0,
    {
        self.0
    }

    /// Views `node` as this type without checking its kind.
    pub fn from_node_unchecked(node: &'tree SyntaxNode) -> (r: Self)
        ensures
            r.0 == node,
    {
        Self(node)
    }
}

impl<'tree> TryFrom<&'tree SyntaxNode> for Hasnt<'tree> {
    type Error = IncorrectKind<'tree>;

    /// Views `node` as this type if it has this type's kind.
    fn try_from(node: &'tree SyntaxNode) -> (r: NodeResult<'tree, Self>)
        ensures
            node.kind@ == "hasnt"@ ==> r == Ok::<Self, IncorrectKind<'tree>>(Self(node)),
            node.kind@ != "hasnt"@ ==> r == Err::<Self, IncorrectKind<'tree>>(IncorrectKind { node, kind: Self::KIND }),
    {
        if str_eq(node.kind, Self::KIND) {
            Ok(Self(node))
        } else {
            Err(IncorrectKind { node, kind: Self::KIND })
        }
    }
}

impl<'tree> TryFromSpecImpl<&'tree SyntaxNode> for Hasnt<'tree> {
    open spec fn obeys_try_from_spec() -> bool {
        true
    }

    open spec fn try_from_spec(node: &'tree SyntaxNode) -> NodeResult<'tree, Self> {
        if node.kind@ == "hasnt"@ {
            Ok(Self(node))
        } else {
            Err(IncorrectKind { node, kind: Self::KIND })
        }
    }
}

/// Typed node `mod`
///
/// This node has no children
#[derive(Debug, Clone, Copy, PartialEq, Eq, Hash)]
#[allow(non_camel_case_types)]
pub struct Mod<'tree>(pub &'tree SyntaxNode);

impl<'tree> Mod<'tree> {
    /// The kind of the nodes of this type.
    pub const KIND: &'static str = "mod";

    /// The underlying node.
    pub fn node(&self) -> (r: &&'tree SyntaxNode)
        ensures
            *r == self.0,
    {
        &self.0
    }

    /// The underlying node, to replace in place.
    pub fn node_mut(&mut self) -> (r: &mut &'tree SyntaxNode)
        ensures
            *r == old(self).0,
            final(self).0 == *final(r),
    {
        &mut self.0
    }

    /// The underlying node, giving up the typed view.
    pub fn into_node(self) -> (r: &'tree SyntaxNode)
        ensures
            r == self.0,
    {
        self.0
    }

    /// Views `node` as this type without checking its kind.
    pub fn from_node_unchecked(node: &'tree SyntaxNode) -> (r: Self)
        ensures
            r.0 == node,
    {
        Self(node)
    }
}

impl<'tree> TryFrom<&'tree SyntaxNode> for Mod<'tree> {
    type Error = IncorrectKind<'tree>;

    /// Views `node` as this type if it has this type's kind.
    fn try_from(node: &'tree SyntaxNode) -> (r: NodeResult<'tree, Self>)
        ensures
            node.kind@ == "mod"@ ==> r == Ok::<Self, IncorrectKind<'tree>>(Self(node)),
            node.kind@ != "mod"@ ==> r == Err::<Self, IncorrectKind<'tree>>(IncorrectKind { node, kind: Self::KIND }),
    {
        if str_eq(node.kind, Self::KIND) {
            Ok(Self(node))
        } else {
            Err(IncorrectKind { node, kind: Self::KIND })
        }
    }
}

impl<'tree> TryFromSpecImpl<&'tree SyntaxNode> for Mod<'tree> {
    open spec fn obeys_try_from_spec() -> bool {
        true
    }

    open spec fn try_from_spec(node: &'tree SyntaxNode) -> NodeResult<'tree, Self> {
        if node.kind@ == "mod"@ {
            Ok(Self(node))
        } else {
            Err(IncorrectKind { node, kind: Self::KIND })
        }
    }
}

/// Typed node `not`
///
/// This node has no children
#[derive(Debug, Clone, Copy, PartialEq, Eq, Hash)]
#[allow(non_camel_case_types)]
pub struct Not<'tree>(pub &'tree SyntaxNode);

impl<'tree> Not<'tree> {
    /// The kind of the nodes of this type.
    pub const KIND: &'static str = "not";

    /// The underlying node.
    pub fn node(&self) -> (r: &&'tree SyntaxNode)
        ensures
            *r == self.0,
    {
        &self.0
    }

    /// The underlying node, to replace in place.
    pub fn node_mut(&mut self) -> (r: &mut &'tree SyntaxNode)
        ensures
            *r == old(self).0,
            final(self).0 == *final(r),
    {
        &mut self.0
    }

    /// The underlying node, giving up the typed view.
    pub fn into_node(self) -> (r: &'tree SyntaxNode)
        ensures
            r == self.0,
    {
        self.0
    }

    /// Views `node` as this type without checking its kind.
    pub fn from_node_unchecked(node: &'tree SyntaxNode) -> (r: Self)
        ensures
            r.0 == node,
    {
        Self(node)
    }
}

impl<'tree> TryFrom<&'tree SyntaxNode> for Not<'tree> {
    type Error = IncorrectKind<'tree>;

    /// Views `node` as this type if it has this type's kind.
    fn try_from(node: &'tree SyntaxNode) -> (r: NodeResult<'tree, Self>)
        ensures
            node.kind@ == "not"@ ==> r == Ok::<Self, IncorrectKind<'tree>>(Self(node)),
            node.kind@ != "not"@ ==> r == Err::<Self, IncorrectKind<'tree>>(IncorrectKind { node, kind: Self::KIND }),
    {
        if str_eq(node.kind, Self::KIND) {
            Ok(Self(node))
        } else {
            Err(IncorrectKind { node, kind: Self::KIND })
        }
    }
}

impl<'tree> TryFromSpecImpl<&'tree SyntaxNode> for Not<'tree> {
    open spec fn obeys_try_from_spec() -> bool {
        true
    }

    open spec fn try_from_spec(node: &'tree SyntaxNode) -> NodeResult<'tree, Self> {
        if node.kind@ == "not"@ {
            Ok(Self(node))
        } else {
            Err(IncorrectKind { node, kind: Self::KIND })
        }
    }
}

/// Typed node `once`
///
/// This node has no children
#[derive(Debug, Clone, Copy, PartialEq, Eq, Hash)]
#[allow(non_camel_case_types)]
pub struct Once<'tree>(pub &'tree SyntaxNode);

impl<'tree> Once<'tree> {
    /// The kind of the nodes of this type.
    pub const KIND: &'static str = "once";

    /// The underlying node.
    pub fn node(&self) -> (r: &&'tree SyntaxNode)
        ensures
            *r == self.0,
    {
        &self.0
    }

    /// The underlying node, to replace in place.
    pub fn node_mut(&mut self) -> (r: &mut &'tree SyntaxNode)
        ensures
            *r == old(self).0,
            final(self).0 == *final(r),
    {
        &mut self.0
    }

    /// The underlying node, giving up the typed view.
    pub fn into_node(self) -> (r: &'tree SyntaxNode)
        ensures
            r == self.0,
    {
        self.0
    }

    /// Views `node` as this type without checking its kind.
    pub fn from_node_unchecked(node: &'tree SyntaxNode) -> (r: Self)
        ensures
            r.0 == node,
    {
        Self(node)
    }
}

impl<'tree> TryFrom<&'tree SyntaxNode> for Once<'tree> {
    type Error = IncorrectKind<'tree>;

    /// Views `node` as this type if it has this type's kind.
    fn try_from(node: &'tree SyntaxNode) -> (r: NodeResult<'tree, Self>)
        ensures
            node.kind@ == "once"@ ==> r == Ok::<Self, IncorrectKind<'tree>>(Self(node)),
            node.kind@ != "once"@ ==> r == Err::<Self, IncorrectKind<'tree>>(IncorrectKind { node, kind: Self::KIND }),
    {
        if str_eq(node.kind, Self::KIND) {
            Ok(Self(node))
        } else {
            Err(IncorrectKind { node, kind: Self::KIND })
        }
    }
}

impl<'tree> TryFromSpecImpl<&'tree SyntaxNode> for Once<'tree> {
    open spec fn obeys_try_from_spec() -> bool {
        true
    }

    open spec fn try_from_spec(node: &'tree SyntaxNode) -> NodeResult<'tree, Self> {
        if node.kind@ == "once"@ {
            Ok(Self(node))
        } else {
            Err(IncorrectKind { node, kind: Self::KIND })
        }
    }
}

/// Typed node `or`
///
/// This node has no children
#[derive(Debug, Clone, Copy, PartialEq, Eq, Hash)]
#[allow(non_camel_case_types)]
pub struct Or<'tree>(pub &'tree SyntaxNode);

impl<'tree> Or<'tree> {
    /// The kind of the nodes of this type.
    pub const KIND: &'static str = "or";

    /// The underlying node.
    pub fn node(&self) -> (r: &&'tree SyntaxNode)
        ensures
            *r == self.0,
    {
        &self.0
    }

    /// The underlying node, to replace in place.
    pub fn node_mut(&mut self) -> (r: &mut &'tree SyntaxNode)
        ensures
            *r == old(self).0,
            final(self).0 == *final(r),
    {
        &mut self.0
    }

    /// The underlying node, giving up the typed view.
    pub fn into_node(self) -> (r: &'tree SyntaxNode)
        ensures
            r == self.0,
    {
        self.0
    }

    /// Views `node` as this type without checking its kind.
    pub fn from_node_unchecked(node: &'tree SyntaxNode) -> (r: Self)
        ensures
            r.0 == node,
    {
        Self(node)
    }
}

impl<'tree> TryFrom<&'tree SyntaxNode> for Or<'tree> {
    type Error = IncorrectKind<'tree>;

    /// Views `node` as this type if it has this type's kind.
    fn try_from(node: &'tree SyntaxNode) -> (r: NodeResult<'tree, Self>)
        ensures
            node.kind@ == "or"@ ==> r == Ok::<Self, IncorrectKind<'tree>>(Self(node)),
            node.kind@ != "or"@ ==> r == Err::<Self, IncorrectKind<'tree>>(IncorrectKind { node, kind: Self::KIND }),
    {
        if str_eq(node.kind, Self::KIND) {
            Ok(Self(node))
        } else {
            Err(IncorrectKind { node, kind: Self::KIND })
        }
    }
}

impl<'tree> TryFromSpecImpl<&'tree SyntaxNode> for Or<'tree> {
    open spec fn obeys_try_from_spec() -> bool {
        true
    }

    open spec fn try_from_spec(node: &'tree SyntaxNode) -> NodeResult<'tree, Self> {
        if node.kind@ == "or"@ {
            Ok(Self(node))
        } else {
            Err(IncorrectKind { node, kind: Self::KIND })
        }
    }
}

/// Typed node `ref`
///
/// This node has no children
#[derive(Debug, Clone, Copy, PartialEq, Eq, Hash)]
#[allow(non_camel_case_types)]
pub struct Ref<'tree>(pub &'tree SyntaxNode);

impl<'tree> Ref<'tree> {
    /// The kind of the nodes of this type.
    pub const KIND: &'static str = "ref";

    /// The underlying node.
    pub fn node(&self) -> (r: &&'tree SyntaxNode)
        ensures
            *r == self.0,
    {
        &self.0
    }

    /// The underlying node, to replace in place.
    pub fn node_mut(&mut self) -> (r: &mut &'tree SyntaxNode)
        ensures
            *r == old(self).0,
            final(self).0 == *final(r),
    {
        &mut self.0
    }

    /// The underlying node, giving up the typed view.
    pub fn into_node(self) -> (r: &'tree SyntaxNode)
        ensures
            r == self.0,
    {
        self.0
    }

    /// Views `node` as this type without checking its kind.
    pub fn from_node_unchecked(node: &'tree SyntaxNode) -> (r: Self)
        ensures
            r.0 == node,
    {
        Self(node)
    }
}

impl<'tree> TryFrom<&'tree SyntaxNode> for Ref<'tree> {
    type Error = IncorrectKind<'tree>;

    /// Views `node` as this type if it has this type's kind.
    fn try_from(node: &'tree SyntaxNode) -> (r: NodeResult<'tree, Self>)
        ensures
            node.kind@ == "ref"@ ==> r == Ok::<Self, IncorrectKind<'tree>>(Self(node)),
            node.kind@ != "ref"@ ==> r == Err::<Self, IncorrectKind<'tree>>(IncorrectKind { node, kind: Self::KIND }),
    {
        if str_eq(node.kind, Self::KIND) {
            Ok(Self(node))
        } else {
            Err(IncorrectKind { node, kind: Self::KIND })
        }
    }
}

impl<'tree> TryFromSpecImpl<&'tree SyntaxNode> for Ref<'tree> {
    open spec fn obeys_try_from_spec() -> bool {
        true
    }

    open spec fn try_from_spec(node: &'tree SyntaxNode) -> NodeResult<'tree, Self> {
        if node.kind@ == "ref"@ {
            Ok(Self(node))
        } else {
            Err(IncorrectKind { node, kind: Self::KIND })
        }
    }
}

/// Typed node `return`
///
/// This node has no children
#[derive(Debug, Clone, Copy, PartialEq, Eq, Hash)]
#[allow(non_camel_case_types)]
pub struct Return<'tree>(pub &'tree SyntaxNode);

impl<'tree> Return<'tree> {
    /// The kind of the nodes of this type.
    pub const KIND: &'static str = "return";

    /// The underlying node.
    pub fn node(&self) -> (r: &&'tree SyntaxNode)
        ensures
            *r == self.0,
    {
        &self.0
    }

    /// The underlying node, to replace in place.
    pub fn node_mut(&mut self) -> (r: &mut &'tree SyntaxNode)
        ensures
            *r == old(self).0,
            final(self).0 == *final(r),
    {
        &mut self.0
    }

    /// The underlying node, giving up the typed view.
    pub fn into_node(self) -> (r: &'tree SyntaxNode)
        ensures
            r == self.0,
    {
        self.0
    }

    /// Views `node` as this type without checking its kind.
    pub fn from_node_unchecked(node: &'tree SyntaxNode) -> (r: Self)
        ensures
            r.0 == node,
    {
        Self(node)
    }
}

impl<'tree> TryFrom<&'tree SyntaxNode> for Return<'tree> {
    type Error = IncorrectKind<'tree>;

    /// Views `node` as this type if it has this type's kind.
    fn try_from(node: &'tree SyntaxNode) -> (r: NodeResult<'tree, Self>)
        ensures
            node.kind@ == "return"@ ==> r == Ok::<Self, IncorrectKind<'tree>>(Self(node)),
            node.kind@ != "return"@ ==> r == Err::<Self, IncorrectKind<'tree>>(IncorrectKind { node, kind: Self::KIND }),
    {
        if str_eq(node.kind, Self::KIND) {
            Ok(Self(node))
        } else {
            Err(IncorrectKind { node, kind: Self::KIND })
        }
    }
}

impl<'tree> TryFromSpecImpl<&'tree SyntaxNode> for Return<'tree> {
    open spec fn obeys_try_from_spec() -> bool {
        true
    }

    open spec fn try_from_spec(node: &'tree SyntaxNode) -> NodeResult<'tree, Self> {
        if node.kind@ == "return"@ {
            Ok(Self(node))
        } else {
            Err(IncorrectKind { node, kind: Self::KIND })
        }
    }
}

/// Typed node `shuffle`
///
/// This node has no children
#[derive(Debug, Clone, Copy, PartialEq, Eq, Hash)]
#[allow(non_camel_case_types)]
pub struct Shuffle<'tree>(pub &'tree SyntaxNode);

impl<'tree> Shuffle<'tree> {
    /// The kind of the nodes of this type.
    pub const KIND: &'static str = "shuffle";

    /// The underlying node.
    pub fn node(&self) -> (r: &&'tree SyntaxNode)
        ensures
            *r == self.0,
    {
        &self.0
    }

    /// The underlying node, to replace in place.
    pub fn node_mut(&mut self) -> (r: &mut &'tree SyntaxNode)
        ensures
            *r == old(self).0,
            final(self).0 == *final(r),
    {
        &mut self.0
    }

    /// The underlying node, giving up the typed view.
    pub fn into_node(self) -> (r: &'tree SyntaxNode)
        ensures
            r == self.0,
    {
        self.0
    }

    /// Views `node` as this type without checking its kind.
    pub fn from_node_unchecked(node: &'tree SyntaxNode) -> (r: Self)
        ensures
            r.0 == node,
    {
        Self(node)
    }
}

impl<'tree> TryFrom<&'tree SyntaxNode> for Shuffle<'tree> {
    type Error = IncorrectKind<'tree>;

    /// Views `node` as this type if it has this type's kind.
    fn try_from(node: &'tree SyntaxNode) -> (r: NodeResult<'tree, Self>)
        ensures
            node.kind@ == "shuffle"@ ==> r == Ok::<Self, IncorrectKind<'tree>>(Self(node)),
            node.kind@ != "shuffle"@ ==> r == Err::<Self, IncorrectKind<'tree>>(IncorrectKind { node, kind: Self::KIND }),
    {
        if str_eq(node.kind, Self::KIND) {
            Ok(Self(node))
        } else {
            Err(IncorrectKind { node, kind: Self::KIND })
        }
    }
}

impl<'tree> TryFromSpecImpl<&'tree SyntaxNode> for Shuffle<'tree> {
    open spec fn obeys_try_from_spec() -> bool {
        true
    }

    open spec fn try_from_spec(node: &'tree SyntaxNode) -> NodeResult<'tree, Self> {
        if node.kind@ == "shuffle"@ {
            Ok(Self(node))
        } else {
            Err(IncorrectKind { node, kind: Self::KIND })
        }
    }
}

/// Typed node `stopping`
///
/// This node has no children
#[derive(Debug, Clone, Copy, PartialEq, Eq, Hash)]
#[allow(non_camel_case_types)]
pub struct Stopping<'tree>(pub &'tree SyntaxNode);

impl<'tree> Stopping<'tree> {
    /// The kind of the nodes of this type.
    pub const KIND: &'static str = "stopping";

    /// The underlying node.
    pub fn node(&self) -> (r: &&'tree SyntaxNode)
        ensures
            *r == self.0,
    {
        &self.0
    }

    /// The underlying node, to replace in place.
    pub fn node_mut(&mut self) -> (r: &mut &'tree SyntaxNode)
        ensures
            *r == old(self).0,
            final(self).0 == *final(r),
    {
        &mut self.0
    }

    /// The underlying node, giving up the typed view.
    pub fn into_node(self) -> (r: &'tree SyntaxNode)
        ensures
            r == self.0,
    {
        self.0
    }

    /// Views `node` as this type without checking its kind.
    pub fn from_node_unchecked(node: &'tree SyntaxNode) -> (r: Self)
        ensures
            r.0 == node,
    {
        Self(node)
    }
}

impl<'tree> TryFrom<&'tree SyntaxNode> for Stopping<'tree> {
    type Error = IncorrectKind<'tree>;

    /// Views `node` as this type if it has this type's kind.
    fn try_from(node: &'tree SyntaxNode) -> (r: NodeResult<'tree, Self>)
        ensures
            node.kind@ == "stopping"@ ==> r == Ok::<Self, IncorrectKind<'tree>>(Self(node)),
            node.kind@ != "stopping"@ ==> r == Err::<Self, IncorrectKind<'tree>>(IncorrectKind { node, kind: Self::KIND }),
    {
        if str_eq(node.kind, Self::KIND) {
            Ok(Self(node))
        } else {
            Err(IncorrectKind { node, kind: Self::KIND })
        }
    }
}

impl<'tree> TryFromSpecImpl<&'tree SyntaxNode> for Stopping<'tree> {
    open spec fn obeys_try_from_spec() -> bool {
        true
    }

    open spec fn try_from_spec(node: &'tree SyntaxNode) -> NodeResult<'tree, Self> {
        if node.kind@ == "stopping"@ {
            Ok(Self(node))
        } else {
            Err(IncorrectKind { node, kind: Self::KIND })
        }
    }
}

/// Typed node `temp`
///
/// This node has no children
#[derive(Debug, Clone, Copy, PartialEq, Eq, Hash)]
#[allow(non_camel_case_types)]
pub struct Temp<'tree>(pub &'tree SyntaxNode);

impl<'tree> Temp<'tree> {
    /// The kind of the nodes of this type.
    pub const KIND: &'static str = "temp";

    /// The underlying node.
    pub fn node(&self) -> (r: &&'tree SyntaxNode)
        ensures
            *r == self.0,
    {
        &self.0
    }

    /// The underlying node, to replace in place.
    pub fn node_mut(&mut self) -> (r: &mut &'tree SyntaxNode)
        ensures
            *r == old(self).0,
            final(self).0 == *final(r),
    {
        &mut self.0
    }

    /// The underlying node, giving up the typed view.
    pub fn into_node(self) -> (r: &'tree SyntaxNode)
        ensures
            r == self.0,
    {
        self.0
    }

    /// Views `node` as this type without checking its kind.
    pub fn from_node_unchecked(node: &'tree SyntaxNode) -> (r: Self)
        ensures
            r.0 == node,
    {
        Self(node)
    }
}

impl<'tree> TryFrom<&'tree SyntaxNode> for Temp<'tree> {
    type Error = IncorrectKind<'tree>;

    /// Views `node` as this type if it has this type's kind.
    fn try_from(node: &'tree SyntaxNode) -> (r: NodeResult<'tree, Self>)
        ensures
            node.kind@ == "temp"@ ==> r == Ok::<Self, IncorrectKind<'tree>>(Self(node)),
            node.kind@ != "temp"@ ==> r == Err::<Self, IncorrectKind<'tree>>(IncorrectKind { node, kind: Self::KIND }),
    {
        if str_eq(node.kind, Self::KIND) {
            Ok(Self(node))
        } else {
            Err(IncorrectKind { node, kind: Self::KIND })
        }
    }
}

impl<'tree> TryFromSpecImpl<&'tree SyntaxNode> for Temp<'tree> {
    open spec fn obeys_try_from_spec() -> bool {
        true
    }

    open spec fn try_from_spec(node: &'tree SyntaxNode) -> NodeResult<'tree, Self> {
        if node.kind@ == "temp"@ {
            Ok(Self(node))
        } else {
            Err(IncorrectKind { node, kind: Self::KIND })
        }
    }
}

/// Typed node `true`
///
/// This node has no children
#[derive(Debug, Clone, Copy, PartialEq, Eq, Hash)]
#[allow(non_camel_case_types)]
pub struct True<'tree>(pub &'tree SyntaxNode);

impl<'tree> True<'tree> {
    /// The kind of the nodes of this type.
    pub const KIND: &'static str = "true";

    /// The underlying node.
    pub fn node(&self) -> (r: &&'tree SyntaxNode)
        ensures
            *r == self.0,
    {
        &self.0
    }

    /// The underlying node, to replace in place.
    pub fn node_mut(&mut self) -> (r: &mut &'tree SyntaxNode)
        ensures
            *r == old(self).0,
            final(self).0 == *final(r),
    {
        &mut self.0
    }

    /// The underlying node, giving up the typed view.
    pub fn into_node(self) -> (r: &'tree SyntaxNode)
        ensures
            r == self.0,
    {
        self.0
    }

    /// Views `node` as this type without checking its kind.
    pub fn from_node_unchecked(node: &'tree SyntaxNode) -> (r: Self)
        ensures
            r.0 == node,
    {
        Self(node)
    }
}

impl<'tree> TryFrom<&'tree SyntaxNode> for True<'tree> {
    type Error = IncorrectKind<'tree>;

    /// Views `node` as this type if it has this type's kind.
    fn try_from(node: &'tree SyntaxNode) -> (r: NodeResult<'tree, Self>)
        ensures
            node.kind@ == "true"@ ==> r == Ok::<Self, IncorrectKind<'tree>>(Self(node)),
            node.kind@ != "true"@ ==> r == Err::<Self, IncorrectKind<'tree>>(IncorrectKind { node, kind: Self::KIND }),
    {
        if str_eq(node.kind, Self::KIND) {
            Ok(Self(node))
        } else {
            Err(IncorrectKind { node, kind: Self::KIND })
        }
    }
}

impl<'tree> TryFromSpecImpl<&'tree SyntaxNode> for True<'tree> {
    open spec fn obeys_try_from_spec() -> bool {
        true
    }

    open spec fn try_from_spec(node: &'tree SyntaxNode) -> NodeResult<'tree, Self> {
        if node.kind@ == "true"@ {
            Ok(Self(node))
        } else {
            Err(IncorrectKind { node, kind: Self::KIND })
        }
    }
}

/// Typed node `word`
///
/// This node has no children
#[derive(Debug, Clone, Copy, PartialEq, Eq, Hash)]
#[allow(non_camel_case_types)]
pub struct Word<'tree>(pub &'tree SyntaxNode);

impl<'tree> Word<'tree> {
    /// The kind of the nodes of this type.
    pub const KIND: &'static str = "word";

    /// The underlying node.
    pub fn node(&self) -> (r: &&'tree SyntaxNode)
        ensures
            *r == self.0,
    {
        &self.0
    }

    /// The underlying node, to replace in place.
    pub fn node_mut(&mut self) -> (r: &mut &'tree SyntaxNode)
        ensures
            *r == old(self).0,
            final(self).0 == *final(r),
    {
        &mut self.0
    }

    /// The underlying node, giving up the typed view.
    pub fn into_node(self) -> (r: &'tree SyntaxNode)
        ensures
            r == self.0,
    {
        self.0
    }

    /// Views `node` as this type without checking its kind.
    pub fn from_node_unchecked(node: &'tree SyntaxNode) -> (r: Self)
        ensures
            r.0 == node,
    {
        Self(node)
    }
}

impl<'tree> TryFrom<&'tree SyntaxNode> for Word<'tree> {
    type Error = IncorrectKind<'tree>;

    /// Views `node` as this type if it has this type's kind.
    fn try_from(node: &'tree SyntaxNode) -> (r: NodeResult<'tree, Self>)
        ensures
            node.kind@ == "word"@ ==> r == Ok::<Self, IncorrectKind<'tree>>(Self(node)),
            node.kind@ != "word"@ ==> r == Err::<Self, IncorrectKind<'tree>>(IncorrectKind { node, kind: Self::KIND }),
    {
        if str_eq(node.kind, Self::KIND) {
            Ok(Self(node))
        } else {
            Err(IncorrectKind { node, kind: Self::KIND })
        }
    }
}

impl<'tree> TryFromSpecImpl<&'tree SyntaxNode> for Word<'tree> {
    open spec fn obeys_try_from_spec() -> bool {
        true
    }

    open spec fn try_from_spec(node: &'tree SyntaxNode) -> NodeResult<'tree, Self> {
        if node.kind@ == "word"@ {
            Ok(Self(node))
        } else {
            Err(IncorrectKind { node, kind: Self::KIND })
        }
    }
}

} // verus!
