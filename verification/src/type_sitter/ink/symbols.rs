//! Typed views of punctuation tokens of the ink grammar.

use vstd::prelude::*;
use vstd::std_specs::convert::TryFromSpecImpl;
#[allow(unused_imports)]
use crate::syntax::{
    str_eq, typed, typed_all, typed_opt, ExtraOr, IncorrectKind, NodeResult, SyntaxNode,
};

verus! {

/// Typed node `!`
///
/// This node has no children
#[derive(Debug, Clone, Copy, PartialEq, Eq, Hash)]
#[allow(non_camel_case_types)]
pub struct Not_<'tree>(pub &'tree SyntaxNode);

impl<'tree> Not_<'tree> {
    /// The kind of the nodes of this type.
    pub const KIND: &'static str = "!";

    /// The underlying node.
    pub fn node(&self) -> (r: &&'tree SyntaxNode)
        ensures
            *r == self.0,
    {
        &self.0
    }

    /// The underlying node, to replace in place.
    pub fn node_mut(&mut self) -> (r: &mut &'tree SyntaxNode)
        ensures
            *r == old(self).0,
            final(self).0 == *final(r),
    {
        &mut self.0
    }

    /// The underlying node, giving up the typed view.
    pub fn into_node(self) -> (r: &'tree SyntaxNode)
        ensures
            r == self.0,
    {
        self.0
    }

    /// Views `node` as this type without checking its kind.
    pub fn from_node_unchecked(node: &'tree SyntaxNode) -> (r: Self)
        ensures
            r.0 == node,
    {
        Self(node)
    }
}

impl<'tree> TryFrom<&'tree SyntaxNode> for Not_<'tree> {
    type Error = IncorrectKind<'tree>;

    /// Views `node` as this type if it has this type's kind.
    fn try_from(node: &'tree SyntaxNode) -> (r: NodeResult<'tree, Self>)
        ensures
            node.kind@ == "!"@ ==> r == Ok::<Self, IncorrectKind<'tree>>(Self(node)),
            node.kind@ != "!"@ ==> r == Err::<Self, IncorrectKind<'tree>>(IncorrectKind { node, kind: Self::KIND }),
    {
        if str_eq(node.kind, Self::KIND) {
            Ok(Self(node))
        } else {
            Err(IncorrectKind { node, kind: Self::KIND })
        }
    }
}

impl<'tree> TryFromSpecImpl<&'tree SyntaxNode> for Not_<'tree> {
    open spec fn obeys_try_from_spec() -> bool {
        true
    }

    open spec fn try_from_spec(node: &'tree SyntaxNode) -> NodeResult<'tree, Self> {
        if node.kind@ == "!"@ {
            Ok(Self(node))
        } else {
            Err(IncorrectKind { node, kind: Self::KIND })
        }
    }
}

/// Typed node `!=`
///
/// This node has no children
#[derive(Debug, Clone, Copy, PartialEq, Eq, Hash)]
#[allow(non_camel_case_types)]
pub struct Not_Eq_<'tree>(pub &'tree SyntaxNode);

impl<'tree> Not_Eq_<'tree> {
    /// The kind of the nodes of this type.
    pub const KIND: &'static str = "!=";

    /// The underlying node.
    pub fn node(&self) -> (r: &&'tree SyntaxNode)
        ensures
            *r == self.0,
    {
        &self.0
    }

    /// The underlying node, to replace in place.
    pub fn node_mut(&mut self) -> (r: &mut &'tree SyntaxNode)
        ensures
            *r == old(self).0,
            final(self).0 == *final(r),
    {
        &mut self.0
    }

    /// The underlying node, giving up the typed view.
    pub fn into_node(self) -> (r: &'tree SyntaxNode)
        ensures
            r == self.0,
    {
        self.0
    }

    /// Views `node` as this type without checking its kind.
    pub fn from_node_unchecked(node: &'tree SyntaxNode) -> (r: Self)
        ensures
            r.0 == node,
    {
        Self(node)
    }
}

impl<'tree> TryFrom<&'tree SyntaxNode> for Not_Eq_<'tree> {
    type Error = IncorrectKind<'tree>;

    /// Views `node` as this type if it has this type's kind.
    fn try_from(node: &'tree SyntaxNode) -> (r: NodeResult<'tree, Self>)
        ensures
            node.kind@ == "!="@ ==> r == Ok::<Self, IncorrectKind<'tree>>(Self(node)),
            node.kind@ != "!="@ ==> r == Err::<Self, IncorrectKind<'tree>>(IncorrectKind { node, kind: Self::KIND }),
    {
        if str_eq(node.kind, Self::KIND) {
            Ok(Self(node))
        } else {
            Err(IncorrectKind { node, kind: Self::KIND })
        }
    }
}

impl<'tree> TryFromSpecImpl<&'tree SyntaxNode> for Not_Eq_<'tree> {
    open spec fn obeys_try_from_spec() -> bool {
        true
    }

    open spec fn try_from_spec(node: &'tree SyntaxNode) -> NodeResult<'tree, Self> {
        if node.kind@ == "!="@ {
            Ok(Self(node))
        } else {
            Err(IncorrectKind { node, kind: Self::KIND })
        }
    }
}

/// Typed node `!?`
///
/// This node has no children
#[derive(Debug, Clone, Copy, PartialEq, Eq, Hash)]
#[allow(non_camel_case_types)]
pub struct Not_Question_<'tree>(pub &'tree SyntaxNode);

impl<'tree> Not_Question_<'tree> {
    /// The kind of the nodes of this type.
    pub const KIND: &'static str = "!?";

    /// The underlying node.
    pub fn node(&self) -> (r: &&'tree SyntaxNode)
        ensures
            *r == self.0,
    {
        &self.0
    }

    /// The underlying node, to replace in place.
    pub fn node_mut(&mut self) -> (r: &mut &'tree SyntaxNode)
        ensures
            *r == old(self).0,
            final(self).0 == *final(r),
    {
        &mut self.0
    }

    /// The underlying node, giving up the typed view.
    pub fn into_node(self) -> (r: &'tree SyntaxNode)
        ensures
            r == self.0,
    {
        self.0
    }

    /// Views `node` as this type without checking its kind.
    pub fn from_node_unchecked(node: &'tree SyntaxNode) -> (r: Self)
        ensures
            r.0 == node,
    {
        Self(node)
    }
}

impl<'tree> TryFrom<&'tree SyntaxNode> for Not_Question_<'tree> {
    type Error = IncorrectKind<'tree>;

    /// Views `node` as this type if it has this type's kind.
    fn try_from(node: &'tree SyntaxNode) -> (r: NodeResult<'tree, Self>)
        ensures
            node.kind@ == "!?"@ ==> r == Ok::<Self, IncorrectKind<'tree>>(Self(node)),
            node.kind@ != "!?"@ ==> r == Err::<Self, IncorrectKind<'tree>>(IncorrectKind { node, kind: Self::KIND }),
    {
        if str_eq(node.kind, Self::KIND) {
            Ok(Self(node))
        } else {
            Err(IncorrectKind { node, kind: Self::KIND })
        }
    }
}

impl<'tree> TryFromSpecImpl<&'tree SyntaxNode> for Not_Question_<'tree> {
    open spec fn obeys_try_from_spec() -> bool {
        true
    }

    open spec fn try_from_spec(node: &'tree SyntaxNode) -> NodeResult<'tree, Self> {
        if node.kind@ == "!?"@ {
            Ok(Self(node))
        } else {
            Err(IncorrectKind { node, kind: Self::KIND })
        }
    }
}

/// Typed node `#`
///
/// This node has no children
#[derive(Debug, Clone, Copy, PartialEq, Eq, Hash)]
#[allow(non_camel_case_types)]
pub struct Hash_<'tree>(pub &'tree SyntaxNode);

impl<'tree> Hash_<'tree> {
    /// The kind of the nodes of this type.
    pub const KIND: &'static str = "#";

    /// The underlying node.
    pub fn node(&self) -> (r: &&'tree SyntaxNode)
        ensures
            *r == self.0,
    {
        &self.0
    }

    /// The underlying node, to replace in place.
    pub fn node_mut(&mut self) -> (r: &mut &'tree SyntaxNode)
        ensures
            *r == old(self).0,
            final(self).0 == *final(r),
    {
        &mut self.0
    }

    /// The underlying node, giving up the typed view.
    pub fn into_node(self) -> (r: &'tree SyntaxNode)
        ensures
            r == self.0,
    {
        self.0
    }

    /// Views `node` as this type without checking its kind.
    pub fn from_node_unchecked(node: &'tree SyntaxNode) -> (r: Self)
        ensures
            r.0 == node,
    {
        Self(node)
    }
}

impl<'tree> TryFrom<&'tree SyntaxNode> for Hash_<'tree> {
    type Error = IncorrectKind<'tree>;

    /// Views `node` as this type if it has this type's kind.
    fn try_from(node: &'tree SyntaxNode) -> (r: NodeResult<'tree, Self>)
        ensures
            node.kind@ == "#"@ ==> r == Ok::<Self, IncorrectKind<'tree>>(Self(node)),
            node.kind@ != "#"@ ==> r == Err::<Self, IncorrectKind<'tree>>(IncorrectKind { node, kind: Self::KIND }),
    {
        if str_eq(node.kind, Self::KIND) {
            Ok(Self(node))
        } else {
            Err(IncorrectKind { node, kind: Self::KIND })
        }
    }
}

impl<'tree> TryFromSpecImpl<&'tree SyntaxNode> for Hash_<'tree> {
    open spec fn obeys_try_from_spec() -> bool {
        true
    }

    open spec fn try_from_spec(node: &'tree SyntaxNode) -> NodeResult<'tree, Self> {
        if node.kind@ == "#"@ {
            Ok(Self(node))
        } else {
            Err(IncorrectKind { node, kind: Self::KIND })
        }
    }
}

/// Typed node `$`
///
/// This node has no children
#[derive(Debug, Clone, Copy, PartialEq, Eq, Hash)]
#[allow(non_camel_case_types)]
pub struct Dollar_<'tree>(pub &'tree SyntaxNode);

impl<'tree> Dollar_<'tree> {
    /// The kind of the nodes of this type.
    pub const KIND: &'static str = "$";

    /// The underlying node.
    pub fn node(&self) -> (r: &&'tree SyntaxNode)
        ensures
            *r == self.0,
    {
        &self.0
    }

    /// The underlying node, to replace in place.
    pub fn node_mut(&mut self) -> (r: &mut &'tree SyntaxNode)
        ensures
            *r == old(self).0,
            final(self).0 == *final(r),
    {
        &mut self.0
    }

    /// The underlying node, giving up the typed view.
    pub fn into_node(self) -> (r: &'tree SyntaxNode)
        ensures
            r == self.0,
    {
        self.0
    }

    /// Views `node` as this type without checking its kind.
    pub fn from_node_unchecked(node: &'tree SyntaxNode) -> (r: Self)
        ensures
            r.0 == node,
    {
        Self(node)
    }
}

impl<'tree> TryFrom<&'tree SyntaxNode> for Dollar_<'tree> {
    type Error = IncorrectKind<'tree>;

    /// Views `node` as this type if it has this type's kind.
    fn try_from(node: &'tree SyntaxNode) -> (r: NodeResult<'tree, Self>)
        ensures
            node.kind@ == "$"@ ==> r == Ok::<Self, IncorrectKind<'tree>>(Self(node)),
            node.kind@ != "$"@ ==> r == Err::<Self, IncorrectKind<'tree>>(IncorrectKind { node, kind: Self::KIND }),
    {
        if str_eq(node.kind, Self::KIND) {
            Ok(Self(node))
        } else {
            Err(IncorrectKind { node, kind: Self::KIND })
        }
    }
}

impl<'tree> TryFromSpecImpl<&'tree SyntaxNode> for Dollar_<'tree> {
    open spec fn obeys_try_from_spec() -> bool {
        true
    }

    open spec fn try_from_spec(node: &'tree SyntaxNode) -> NodeResult<'tree, Self> {
        if node.kind@ == "$"@ {
            Ok(Self(node))
        } else {
            Err(IncorrectKind { node, kind: Self::KIND })
        }
    }
}

/// Typed node `%`
///
/// This node has no children
#[derive(Debug, Clone, Copy, PartialEq, Eq, Hash)]
#[allow(non_camel_case_types)]
pub struct Mod_<'tree>(pub &'tree SyntaxNode);

impl<'tree> Mod_<'tree> {
    /// The kind of the nodes of this type.
    pub const KIND: &'static str = "%";

    /// The underlying node.
    pub fn node(&self) -> (r: &&'tree SyntaxNode)
        ensures
            *r == self.0,
    {
        &self.0
    }

    /// The underlying node, to replace in place.
    pub fn node_mut(&mut self) -> (r: &mut &'tree SyntaxNode)
        ensures
            *r == old(self).0,
            final(self).0 == *final(r),
    {
        &mut self.0
    }

    /// The underlying node, giving up the typed view.
    pub fn into_node(self) -> (r: &'tree SyntaxNode)
        ensures
            r == self.0,
    {
        self.0
    }

    /// Views `node` as this type without checking its kind.
    pub fn from_node_unchecked(node: &'tree SyntaxNode) -> (r: Self)
        ensures
            r.0 == node,
    {
        Self(node)
    }
}

impl<'tree> TryFrom<&'tree SyntaxNode> for Mod_<'tree> {
    type Error = IncorrectKind<'tree>;

    /// Views `node` as this type if it has this type's kind.
    fn try_from(node: &'tree SyntaxNode) -> (r: NodeResult<'tree, Self>)
        ensures
            node.kind@ == "%"@ ==> r == Ok::<Self, IncorrectKind<'tree>>(Self(node)),
            node.kind@ != "%"@ ==> r == Err::<Self, IncorrectKind<'tree>>(IncorrectKind { node, kind: Self::KIND }),
    {
        if str_eq(node.kind, Self::KIND) {
            Ok(Self(node))
        } else {
            Err(IncorrectKind { node, kind: Self::KIND })
        }
    }
}

impl<'tree> TryFromSpecImpl<&'tree SyntaxNode> for Mod_<'tree> {
    open spec fn obeys_try_from_spec() -> bool {
        true
    }

    open spec fn try_from_spec(node: &'tree SyntaxNode) -> NodeResult<'tree, Self> {
        if node.kind@ == "%"@ {
            Ok(Self(node))
        } else {
            Err(IncorrectKind { node, kind: Self::KIND })
        }
    }
}

/// Typed node `&`
///
/// This node has no children
#[derive(Debug, Clone, Copy, PartialEq, Eq, Hash)]
#[allow(non_camel_case_types)]
pub struct And_<'tree>(pub &'tree SyntaxNode);

impl<'tree> And_<'tree> {
    /// The kind of the nodes of this type.
    pub const KIND: &'static str = "&";

    /// The underlying node.
    pub fn node(&self) -> (r: &&'tree SyntaxNode)
        ensures
            *r == self.0,
    {
        &self.0
    }

    /// The underlying node, to replace in place.
    pub fn node_mut(&mut self) -> (r: &mut &'tree SyntaxNode)
        ensures
            *r == old(self).0,
            final(self).0 == *final(r),
    {
        &mut self.0
    }

    /// The underlying node, giving up the typed view.
    pub fn into_node(self) -> (r: &'tree SyntaxNode)
        ensures
            r == self.0,
    {
        self.0
    }

    /// Views `node` as this type without checking its kind.
    pub fn from_node_unchecked(node: &'tree SyntaxNode) -> (r: Self)
        ensures
            r.0 == node,
    {
        Self(node)
    }
}

impl<'tree> TryFrom<&'tree SyntaxNode> for And_<'tree> {
    type Error = IncorrectKind<'tree>;

    /// Views `node` as this type if it has this type's kind.
    fn try_from(node: &'tree SyntaxNode) -> (r: NodeResult<'tree, Self>)
        ensures
            node.kind@ == "&"@ ==> r == Ok::<Self, IncorrectKind<'tree>>(Self(node)),
            node.kind@ != "&"@ ==> r == Err::<Self, IncorrectKind<'tree>>(IncorrectKind { node, kind: Self::KIND }),
    {
        if str_eq(node.kind, Self::KIND) {
            Ok(Self(node))
        } else {
            Err(IncorrectKind { node, kind: Self::KIND })
        }
    }
}

impl<'tree> TryFromSpecImpl<&'tree SyntaxNode> for And_<'tree> {
    open spec fn obeys_try_from_spec() -> bool {
        true
    }

    open spec fn try_from_spec(node: &'tree SyntaxNode) -> NodeResult<'tree, Self> {
        if node.kind@ == "&"@ {
            Ok(Self(node))
        } else {
            Err(IncorrectKind { node, kind: Self::KIND })
        }
    }
}

/// Typed node `&&`
///
/// This node has no children
#[derive(Debug, Clone, Copy, PartialEq, Eq, Hash)]
#[allow(non_camel_case_types)]
pub struct And_And_<'tree>(pub &'tree SyntaxNode);

impl<'tree> And_And_<'tree> {
    /// The kind of the nodes of this type.
    pub const KIND: &'static str = "&&";

    /// The underlying node.
    pub fn node(&self) -> (r: &&'tree SyntaxNode)
        ensures
            *r == self.0,
    {
        &self.0
    }

    /// The underlying node, to replace in place.
    pub fn node_mut(&mut self) -> (r: &mut &'tree SyntaxNode)
        ensures
            *r == old(self).0,
            final(self).0 == *final(r),
    {
        &mut self.0
    }

    /// The underlying node, giving up the typed view.
    pub fn into_node(self) -> (r: &'tree SyntaxNode)
        ensures
            r == self.0,
    {
        self.0
    }

    /// Views `node` as this type without checking its kind.
    pub fn from_node_unchecked(node: &'tree SyntaxNode) -> (r: Self)
        ensures
            r.0 == node,
    {
        Self(node)
    }
}

impl<'tree> TryFrom<&'tree SyntaxNode> for And_And_<'tree> {
    type Error = IncorrectKind<'tree>;

    /// Views `node` as this type if it has this type's kind.
    fn try_from(node: &'tree SyntaxNode) -> (r: NodeResult<'tree, Self>)
        ensures
            node.kind@ == "&&"@ ==> r == Ok::<Self, IncorrectKind<'tree>>(Self(node)),
            node.kind@ != "&&"@ ==> r == Err::<Self, IncorrectKind<'tree>>(IncorrectKind { node, kind: Self::KIND }),
    {
        if str_eq(node.kind, Self::KIND) {
            Ok(Self(node))
        } else {
            Err(IncorrectKind { node, kind: Self::KIND })
        }
    }
}

impl<'tree> TryFromSpecImpl<&'tree SyntaxNode> for And_And_<'tree> {
    open spec fn obeys_try_from_spec() -> bool {
        true
    }

    open spec fn try_from_spec(node: &'tree SyntaxNode) -> NodeResult<'tree, Self> {
        if node.kind@ == "&&"@ {
            Ok(Self(node))
        } else {
            Err(IncorrectKind { node, kind: Self::KIND })
        }
    }
}

/// Typed node `(`
///
/// This node has no children
#[derive(Debug, Clone, Copy, PartialEq, Eq, Hash)]
#[allow(non_camel_case_types)]
pub struct LParen_<'tree>(pub &'tree SyntaxNode);

impl<'tree> LParen_<'tree> {
    /// The kind of the nodes of this type.
    pub const KIND: &'static str = "(";

    /// The underlying node.
    pub fn node(&self) -> (r: &&'tree SyntaxNode)
        ensures
            *r == self.0,
    {
        &self.0
    }

    /// The underlying node, to replace in place.
    pub fn node_mut(&mut self) -> (r: &mut &'tree SyntaxNode)
        ensures
            *r == old(self).0,
            final(self).0 == *final(r),
    {
        &mut self.0
    }

    /// The underlying node, giving up the typed view.
    pub fn into_node(self) -> (r: &'tree SyntaxNode)
        ensures
            r == self.0,
    {
        self.0
    }

    /// Views `node` as this type without checking its kind.
    pub fn from_node_unchecked(node: &'tree SyntaxNode) -> (r: Self)
        ensures
            r.0 == node,
    {
        Self(node)
    }
}

impl<'tree> TryFrom<&'tree SyntaxNode> for LParen_<'tree> {
    type Error = IncorrectKind<'tree>;

    /// Views `node` as this type if it has this type's kind.
    fn try_from(node: &'tree SyntaxNode) -> (r: NodeResult<'tree, Self>)
        ensures
            node.kind@ == "("@ ==> r == Ok::<Self, IncorrectKind<'tree>>(Self(node)),
            node.kind@ != "("@ ==> r == Err::<Self, IncorrectKind<'tree>>(IncorrectKind { node, kind: Self::KIND }),
    {
        if str_eq(node.kind, Self::KIND) {
            Ok(Self(node))
        } else {
            Err(IncorrectKind { node, kind: Self::KIND })
        }
    }
}

impl<'tree> TryFromSpecImpl<&'tree SyntaxNode> for LParen_<'tree> {
    open spec fn obeys_try_from_spec() -> bool {
        true
    }

    open spec fn try_from_spec(node: &'tree SyntaxNode) -> NodeResult<'tree, Self> {
        if node.kind@ == "("@ {
            Ok(Self(node))
        } else {
            Err(IncorrectKind { node, kind: Self::KIND })
        }
    }
}

/// Typed node `)`
///
/// This node has no children
#[derive(Debug, Clone, Copy, PartialEq, Eq, Hash)]
#[allow(non_camel_case_types)]
pub struct RParen_<'tree>(pub &'tree SyntaxNode);

impl<'tree> RParen_<'tree> {
    /// The kind of the nodes of this type.
    pub const KIND: &'static str = ")";

    /// The underlying node.
    pub fn node(&self) -> (r: &&'tree SyntaxNode)
        ensures
            *r == self.0,
    {
        &self.0
    }

    /// The underlying node, to replace in place.
    pub fn node_mut(&mut self) -> (r: &mut &'tree SyntaxNode)
        ensures
            *r == old(self).0,
            final(self).0 == *final(r),
    {
        &mut self.0
    }

    /// The underlying node, giving up the typed view.
    pub fn into_node(self) -> (r: &'tree SyntaxNode)
        ensures
            r == self.0,
    {
        self.0
    }

    /// Views `node` as this type without checking its kind.
    pub fn from_node_unchecked(node: &'tree SyntaxNode) -> (r: Self)
        ensures
            r.0 == node,
    {
        Self(node)
    }
}

impl<'tree> TryFrom<&'tree SyntaxNode> for RParen_<'tree> {
    type Error = IncorrectKind<'tree>;

    /// Views `node` as this type if it has this type's kind.
    fn try_from(node: &'tree SyntaxNode) -> (r: NodeResult<'tree, Self>)
        ensures
            node.kind@ == ")"@ ==> r == Ok::<Self, IncorrectKind<'tree>>(Self(node)),
            node.kind@ != ")"@ ==> r == Err::<Self, IncorrectKind<'tree>>(IncorrectKind { node, kind: Self::KIND }),
    {
        if str_eq(node.kind, Self::KIND) {
            Ok(Self(node))
        } else {
            Err(IncorrectKind { node, kind: Self::KIND })
        }
    }
}

impl<'tree> TryFromSpecImpl<&'tree SyntaxNode> for RParen_<'tree> {
    open spec fn obeys_try_from_spec() -> bool {
        true
    }

    open spec fn try_from_spec(node: &'tree SyntaxNode) -> NodeResult<'tree, Self> {
        if node.kind@ == ")"@ {
            Ok(Self(node))
        } else {
            Err(IncorrectKind { node, kind: Self::KIND })
        }
    }
}

/// Typed node `*`
///
/// This node has no children
#[derive(Debug, Clone, Copy, PartialEq, Eq, Hash)]
#[allow(non_camel_case_types)]
pub struct Mul_<'tree>(pub &'tree SyntaxNode);

impl<'tree> Mul_<'tree> {
    /// The kind of the nodes of this type.
    pub const KIND: &'static str = "*";

    /// The underlying node.
    pub fn node(&self) -> (r: &&'tree SyntaxNode)
        ensures
            *r == self.0,
    {
        &self.0
    }

    /// The underlying node, to replace in place.
    pub fn node_mut(&mut self) -> (r: &mut &'tree SyntaxNode)
        ensures
            *r == old(self).0,
            final(self).0 == *final(r),
    {
        &mut self.0
    }

    /// The underlying node, giving up the typed view.
    pub fn into_node(self) -> (r: &'tree SyntaxNode)
        ensures
            r == self.0,
    {
        self.0
    }

    /// Views `node` as this type without checking its kind.
    pub fn from_node_unchecked(node: &'tree SyntaxNode) -> (r: Self)
        ensures
            r.0 == node,
    {
        Self(node)
    }
}

impl<'tree> TryFrom<&'tree SyntaxNode> for Mul_<'tree> {
    type Error = IncorrectKind<'tree>;

    /// Views `node` as this type if it has this type's kind.
    fn try_from(node: &'tree SyntaxNode) -> (r: NodeResult<'tree, Self>)
        ensures
            node.kind@ == "*"@ ==> r == Ok::<Self, IncorrectKind<'tree>>(Self(node)),
            node.kind@ != "*"@ ==> r == Err::<Self, IncorrectKind<'tree>>(IncorrectKind { node, kind: Self::KIND }),
    {
        if str_eq(node.kind, Self::KIND) {
            Ok(Self(node))
        } else {
            Err(IncorrectKind { node, kind: Self::KIND })
        }
    }
}

impl<'tree> TryFromSpecImpl<&'tree SyntaxNode> for Mul_<'tree> {
    open spec fn obeys_try_from_spec() -> bool {
        true
    }

    open spec fn try_from_spec(node: &'tree SyntaxNode) -> NodeResult<'tree, Self> {
        if node.kind@ == "*"@ {
            Ok(Self(node))
        } else {
            Err(IncorrectKind { node, kind: Self::KIND })
        }
    }
}

/// Typed node `+`
///
/// This node has no children
#[derive(Debug, Clone, Copy, PartialEq, Eq, Hash)]
#[allow(non_camel_case_types)]
pub struct Add_<'tree>(pub &'tree SyntaxNode);

impl<'tree> Add_<'tree> {
    /// The kind of the nodes of this type.
    pub const KIND: &'static str = "+";

    /// The underlying node.
    pub fn node(&self) -> (r: &&'tree SyntaxNode)
        ensures
            *r == self.0,
    {
        &self.0
    }

    /// The underlying node, to replace in place.
    pub fn node_mut(&mut self) -> (r: &mut &'tree SyntaxNode)
        ensures
            *r == old(self).0,
            final(self).0 == *final(r),
    {
        &mut self.0
    }

    /// The underlying node, giving up the typed view.
    pub fn into_node(self) -> (r: &'tree SyntaxNode)
        ensures
            r == self.0,
    {
        self.0
    }

    /// Views `node` as this type without checking its kind.
    pub fn from_node_unchecked(node: &'tree SyntaxNode) -> (r: Self)
        ensures
            r.0 == node,
    {
        Self(node)
    }
}

impl<'tree> TryFrom<&'tree SyntaxNode> for Add_<'tree> {
    type Error = IncorrectKind<'tree>;

    /// Views `node` as this type if it has this type's kind.
    fn try_from(node: &'tree SyntaxNode) -> (r: NodeResult<'tree, Self>)
        ensures
            node.kind@ == "+"@ ==> r == Ok::<Self, IncorrectKind<'tree>>(Self(node)),
            node.kind@ != "+"@ ==> r == Err::<Self, IncorrectKind<'tree>>(IncorrectKind { node, kind: Self::KIND }),
    {
        if str_eq(node.kind, Self::KIND) {
            Ok(Self(node))
        } else {
            Err(IncorrectKind { node, kind: Self::KIND })
        }
    }
}

impl<'tree> TryFromSpecImpl<&'tree SyntaxNode> for Add_<'tree> {
    open spec fn obeys_try_from_spec() -> bool {
        true
    }

    open spec fn try_from_spec(node: &'tree SyntaxNode) -> NodeResult<'tree, Self> {
        if node.kind@ == "+"@ {
            Ok(Self(node))
        } else {
            Err(IncorrectKind { node, kind: Self::KIND })
        }
    }
}

/// Typed node `++`
///
/// This node has no children
#[derive(Debug, Clone, Copy, PartialEq, Eq, Hash)]
#[allow(non_camel_case_types)]
pub struct Add_Add_<'tree>(pub &'tree SyntaxNode);

impl<'tree> Add_Add_<'tree> {
    /// The kind of the nodes of this type.
    pub const KIND: &'static str = "++";

    /// The underlying node.
    pub fn node(&self) -> (r: &&'tree SyntaxNode)
        ensures
            *r == self.0,
    {
        &self.0
    }

    /// The underlying node, to replace in place.
    pub fn node_mut(&mut self) -> (r: &mut &'tree SyntaxNode)
        ensures
            *r == old(self).0,
            final(self).0 == *final(r),
    {
        &mut self.0
    }

    /// The underlying node, giving up the typed view.
    pub fn into_node(self) -> (r: &'tree SyntaxNode)
        ensures
            r == self.0,
    {
        self.0
    }

    /// Views `node` as this type without checking its kind.
    pub fn from_node_unchecked(node: &'tree SyntaxNode) -> (r: Self)
        ensures
            r.0 == node,
    {
        Self(node)
    }
}

impl<'tree> TryFrom<&'tree SyntaxNode> for Add_Add_<'tree> {
    type Error = IncorrectKind<'tree>;

    /// Views `node` as this type if it has this type's kind.
    fn try_from(node: &'tree SyntaxNode) -> (r: NodeResult<'tree, Self>)
        ensures
            node.kind@ == "++"@ ==> r == Ok::<Self, IncorrectKind<'tree>>(Self(node)),
            node.kind@ != "++"@ ==> r == Err::<Self, IncorrectKind<'tree>>(IncorrectKind { node, kind: Self::KIND }),
    {
        if str_eq(node.kind, Self::KIND) {
            Ok(Self(node))
        } else {
            Err(IncorrectKind { node, kind: Self::KIND })
        }
    }
}

impl<'tree> TryFromSpecImpl<&'tree SyntaxNode> for Add_Add_<'tree> {
    open spec fn obeys_try_from_spec() -> bool {
        true
    }

    open spec fn try_from_spec(node: &'tree SyntaxNode) -> NodeResult<'tree, Self> {
        if node.kind@ == "++"@ {
            Ok(Self(node))
        } else {
            Err(IncorrectKind { node, kind: Self::KIND })
        }
    }
}

/// Typed node `+=`
///
/// This node has no children
#[derive(Debug, Clone, Copy, PartialEq, Eq, Hash)]
#[allow(non_camel_case_types)]
pub struct Add_Eq_<'tree>(pub &'tree SyntaxNode);

impl<'tree> Add_Eq_<'tree> {
    /// The kind of the nodes of this type.
    pub const KIND: &'static str = "+=";

    /// The underlying node.
    pub fn node(&self) -> (r: &&'tree SyntaxNode)
        ensures
            *r == self.0,
    {
        &self.0
    }

    /// The underlying node, to replace in place.
    pub fn node_mut(&mut self) -> (r: &mut &'tree SyntaxNode)
        ensures
            *r == old(self).0,
            final(self).0 == *final(r),
    {
        &mut self.0
    }

    /// The underlying node, giving up the typed view.
    pub fn into_node(self) -> (r: &'tree SyntaxNode)
        ensures
            r == self.0,
    {
        self.0
    }

    /// Views `node` as this type without checking its kind.
    pub fn from_node_unchecked(node: &'tree SyntaxNode) -> (r: Self)
        ensures
            r.0 == node,
    {
        Self(node)
    }
}

impl<'tree> TryFrom<&'tree SyntaxNode> for Add_Eq_<'tree> {
    type Error = IncorrectKind<'tree>;

    /// Views `node` as this type if it has this type's kind.
    fn try_from(node: &'tree SyntaxNode) -> (r: NodeResult<'tree, Self>)
        ensures
            node.kind@ == "+="@ ==> r == Ok::<Self, IncorrectKind<'tree>>(Self(node)),
            node.kind@ != "+="@ ==> r == Err::<Self, IncorrectKind<'tree>>(IncorrectKind { node, kind: Self::KIND }),
    {
        if str_eq(node.kind, Self::KIND) {
            Ok(Self(node))
        } else {
            Err(IncorrectKind { node, kind: Self::KIND })
        }
    }
}

impl<'tree> TryFromSpecImpl<&'tree SyntaxNode> for Add_Eq_<'tree> {
    open spec fn obeys_try_from_spec() -> bool {
        true
    }

    open spec fn try_from_spec(node: &'tree SyntaxNode) -> NodeResult<'tree, Self> {
        if node.kind@ == "+="@ {
            Ok(Self(node))
        } else {
            Err(IncorrectKind { node, kind: Self::KIND })
        }
    }
}

/// Typed node `,`
///
/// This node has no children
#[derive(Debug, Clone, Copy, PartialEq, Eq, Hash)]
#[allow(non_camel_case_types)]
pub struct Comma_<'tree>(pub &'tree SyntaxNode);

impl<'tree> Comma_<'tree> {
    /// The kind of the nodes of this type.
    pub const KIND: &'static str = ",";

    /// The underlying node.
    pub fn node(&self) -> (r: &&'tree SyntaxNode)
        ensures
            *r == self.0,
    {
        &self.0
    }

    /// The underlying node, to replace in place.
    pub fn node_mut(&mut self) -> (r: &mut &'tree SyntaxNode)
        ensures
            *r == old(self).0,
            final(self).0 == *final(r),
    {
        &mut self.0
    }

    /// The underlying node, giving up the typed view.
    pub fn into_node(self) -> (r: &'tree SyntaxNode)
        ensures
            r == self.0,
    {
        self.0
    }

    /// Views `node` as this type without checking its kind.
    pub fn from_node_unchecked(node: &'tree SyntaxNode) -> (r: Self)
        ensures
            r.0 == node,
    {
        Self(node)
    }
}

impl<'tree> TryFrom<&'tree SyntaxNode> for Comma_<'tree> {
    type Error = IncorrectKind<'tree>;

    /// Views `node` as this type if it has this type's kind.
    fn try_from(node: &'tree SyntaxNode) -> (r: NodeResult<'tree, Self>)
        ensures
            node.kind@ == ","@ ==> r == Ok::<Self, IncorrectKind<'tree>>(Self(node)),
            node.kind@ != ","@ ==> r == Err::<Self, IncorrectKind<'tree>>(IncorrectKind { node, kind: Self::KIND }),
    {
        if str_eq(node.kind, Self::KIND) {
            Ok(Self(node))
        } else {
            Err(IncorrectKind { node, kind: Self::KIND })
        }
    }
}

impl<'tree> TryFromSpecImpl<&'tree SyntaxNode> for Comma_<'tree> {
    open spec fn obeys_try_from_spec() -> bool {
        true
    }

    open spec fn try_from_spec(node: &'tree SyntaxNode) -> NodeResult<'tree, Self> {
        if node.kind@ == ","@ {
            Ok(Self(node))
        } else {
            Err(IncorrectKind { node, kind: Self::KIND })
        }
    }
}

/// Typed node `-`
///
/// This node has no children
#[derive(Debug, Clone, Copy, PartialEq, Eq, Hash)]
#[allow(non_camel_case_types)]
pub struct Sub_<'tree>(pub &'tree SyntaxNode);

impl<'tree> Sub_<'tree> {
    /// The kind of the nodes of this type.
    pub const KIND: &'static str = "-";

    /// The underlying node.
    pub fn node(&self) -> (r: &&'tree SyntaxNode)
        ensures
            *r == self.0,
    {
        &self.0
    }

    /// The underlying node, to replace in place.
    pub fn node_mut(&mut self) -> (r: &mut &'tree SyntaxNode)
        ensures
            *r == old(self).0,
            final(self).0 == *final(r),
    {
        &mut self.0
    }

    /// The underlying node, giving up the typed view.
    pub fn into_node(self) -> (r: &'tree SyntaxNode)
        ensures
            r == self.0,
    {
        self.0
    }

    /// Views `node` as this type without checking its kind.
    pub fn from_node_unchecked(node: &'tree SyntaxNode) -> (r: Self)
        ensures
            r.0 == node,
    {
        Self(node)
    }
}

impl<'tree> TryFrom<&'tree SyntaxNode> for Sub_<'tree> {
    type Error = IncorrectKind<'tree>;

    /// Views `node` as this type if it has this type's kind.
    fn try_from(node: &'tree SyntaxNode) -> (r: NodeResult<'tree, Self>)
        ensures
            node.kind@ == "-"@ ==> r == Ok::<Self, IncorrectKind<'tree>>(Self(node)),
            node.kind@ != "-"@ ==> r == Err::<Self, IncorrectKind<'tree>>(IncorrectKind { node, kind: Self::KIND }),
    {
        if str_eq(node.kind, Self::KIND) {
            Ok(Self(node))
        } else {
            Err(IncorrectKind { node, kind: Self::KIND })
        }
    }
}

impl<'tree> TryFromSpecImpl<&'tree SyntaxNode> for Sub_<'tree> {
    open spec fn obeys_try_from_spec() -> bool {
        true
    }

    open spec fn try_from_spec(node: &'tree SyntaxNode) -> NodeResult<'tree, Self> {
        if node.kind@ == "-"@ {
            Ok(Self(node))
        } else {
            Err(IncorrectKind { node, kind: Self::KIND })
        }
    }
}

/// Typed node `--`
///
/// This node has no children
#[derive(Debug, Clone, Copy, PartialEq, Eq, Hash)]
#[allow(non_camel_case_types)]
pub struct Sub_Sub_<'tree>(pub &'tree SyntaxNode);

impl<'tree> Sub_Sub_<'tree> {
    /// The kind of the nodes of this type.
    pub const KIND: &'static str = "--";

    /// The underlying node.
    pub fn node(&self) -> (r: &&'tree SyntaxNode)
        ensures
            *r == self.0,
    {
        &self.0
    }

    /// The underlying node, to replace in place.
    pub fn node_mut(&mut self) -> (r: &mut &'tree SyntaxNode)
        ensures
            *r == old(self).0,
            final(self).0 == *final(r),
    {
        &mut self.0
    }

    /// The underlying node, giving up the typed view.
    pub fn into_node(self) -> (r: &'tree SyntaxNode)
        ensures
            r == self.0,
    {
        self.0
    }

    /// Views `node` as this type without checking its kind.
    pub fn from_node_unchecked(node: &'tree SyntaxNode) -> (r: Self)
        ensures
            r.0 == node,
    {
        Self(node)
    }
}

impl<'tree> TryFrom<&'tree SyntaxNode> for Sub_Sub_<'tree> {
    type Error = IncorrectKind<'tree>;

    /// Views `node` as this type if it has this type's kind.
    fn try_from(node: &'tree SyntaxNode) -> (r: NodeResult<'tree, Self>)
        ensures
            node.kind@ == "--"@ ==> r == Ok::<Self, IncorrectKind<'tree>>(Self(node)),
            node.kind@ != "--"@ ==> r == Err::<Self, IncorrectKind<'tree>>(IncorrectKind { node, kind: Self::KIND }),
    {
        if str_eq(node.kind, Self::KIND) {
            Ok(Self(node))
        } else {
            Err(IncorrectKind { node, kind: Self::KIND })
        }
    }
}

impl<'tree> TryFromSpecImpl<&'tree SyntaxNode> for Sub_Sub_<'tree> {
    open spec fn obeys_try_from_spec() -> bool {
        true
    }

    open spec fn try_from_spec(node: &'tree SyntaxNode) -> NodeResult<'tree, Self> {
        if node.kind@ == "--"@ {
            Ok(Self(node))
        } else {
            Err(IncorrectKind { node, kind: Self::KIND })
        }
    }
}

/// Typed node `-=`
///
/// This node has no children
#[derive(Debug, Clone, Copy, PartialEq, Eq, Hash)]
#[allow(non_camel_case_types)]
pub struct Sub_Eq_<'tree>(pub &'tree SyntaxNode);

impl<'tree> Sub_Eq_<'tree> {
    /// The kind of the nodes of this type.
    pub const KIND: &'static str = "-=";

    /// The underlying node.
    pub fn node(&self) -> (r: &&'tree SyntaxNode)
        ensures
            *r == self.0,
    {
        &self.0
    }

    /// The underlying node, to replace in place.
    pub fn node_mut(&mut self) -> (r: &mut &'tree SyntaxNode)
        ensures
            *r == old(self).0,
            final(self).0 == *final(r),
    {
        &mut self.0
    }

    /// The underlying node, giving up the typed view.
    pub fn into_node(self) -> (r: &'tree SyntaxNode)
        ensures
            r == self.0,
    {
        self.0
    }

    /// Views `node` as this type without checking its kind.
    pub fn from_node_unchecked(node: &'tree SyntaxNode) -> (r: Self)
        ensures
            r.0 == node,
    {
        Self(node)
    }
}

impl<'tree> TryFrom<&'tree SyntaxNode> for Sub_Eq_<'tree> {
    type Error = IncorrectKind<'tree>;

    /// Views `node` as this type if it has this type's kind.
    fn try_from(node: &'tree SyntaxNode) -> (r: NodeResult<'tree, Self>)
        ensures
            node.kind@ == "-="@ ==> r == Ok::<Self, IncorrectKind<'tree>>(Self(node)),
            node.kind@ != "-="@ ==> r == Err::<Self, IncorrectKind<'tree>>(IncorrectKind { node, kind: Self::KIND }),
    {
        if str_eq(node.kind, Self::KIND) {
            Ok(Self(node))
        } else {
            Err(IncorrectKind { node, kind: Self::KIND })
        }
    }
}

impl<'tree> TryFromSpecImpl<&'tree SyntaxNode> for Sub_Eq_<'tree> {
    open spec fn obeys_try_from_spec() -> bool {
        true
    }

    open spec fn try_from_spec(node: &'tree SyntaxNode) -> NodeResult<'tree, Self> {
        if node.kind@ == "-="@ {
            Ok(Self(node))
        } else {
            Err(IncorrectKind { node, kind: Self::KIND })
        }
    }
}

/// Typed node `->`
///
/// This node has no children
#[derive(Debug, Clone, Copy, PartialEq, Eq, Hash)]
#[allow(non_camel_case_types)]
pub struct Sub_Gt_<'tree>(pub &'tree SyntaxNode);

impl<'tree> Sub_Gt_<'tree> {
    /// The kind of the nodes of this type.
    pub const KIND: &'static str = "->";

    /// The underlying node.
    pub fn node(&self) -> (r: &&'tree SyntaxNode)
        ensures
            *r == self.0,
    {
        &self.0
    }

    /// The underlying node, to replace in place.
    pub fn node_mut(&mut self) -> (r: &mut &'tree SyntaxNode)
        ensures
            *r == old(self).0,
            final(self).0 == *final(r),
    {
        &mut self.0
    }

    /// The underlying node, giving up the typed view.
    pub fn into_node(self) -> (r: &'tree SyntaxNode)
        ensures
            r == self.0,
    {
        self.0
    }

    /// Views `node` as this type without checking its kind.
    pub fn from_node_unchecked(node: &'tree SyntaxNode) -> (r: Self)
        ensures
            r.0 == node,
    {
        Self(node)
    }
}

impl<'tree> TryFrom<&'tree SyntaxNode> for Sub_Gt_<'tree> {
    type Error = IncorrectKind<'tree>;

    /// Views `node` as this type if it has this type's kind.
    fn try_from(node: &'tree SyntaxNode) -> (r: NodeResult<'tree, Self>)
        ensures
            node.kind@ == "->"@ ==> r == Ok::<Self, IncorrectKind<'tree>>(Self(node)),
            node.kind@ != "->"@ ==> r == Err::<Self, IncorrectKind<'tree>>(IncorrectKind { node, kind: Self::KIND }),
    {
        if str_eq(node.kind, Self::KIND) {
            Ok(Self(node))
        } else {
            Err(IncorrectKind { node, kind: Self::KIND })
        }
    }
}

impl<'tree> TryFromSpecImpl<&'tree SyntaxNode> for Sub_Gt_<'tree> {
    open spec fn obeys_try_from_spec() -> bool {
        true
    }

    open spec fn try_from_spec(node: &'tree SyntaxNode) -> NodeResult<'tree, Self> {
        if node.kind@ == "->"@ {
            Ok(Self(node))
        } else {
            Err(IncorrectKind { node, kind: Self::KIND })
        }
    }
}

/// Typed node `->->`
///
/// This node has no children
#[derive(Debug, Clone, Copy, PartialEq, Eq, Hash)]
#[allow(non_camel_case_types)]
pub struct Sub_Gt_Sub_Gt_<'tree>(pub &'tree SyntaxNode);

impl<'tree> Sub_Gt_Sub_Gt_<'tree> {
    /// The kind of the nodes of this type.
    pub const KIND: &'static str = "->->";

    /// The underlying node.
    pub fn node(&self) -> (r: &&'tree SyntaxNode)
        ensures
            *r == self.0,
    {
        &self.0
    }

    /// The underlying node, to replace in place.
    pub fn node_mut(&mut self) -> (r: &mut &'tree SyntaxNode)
        ensures
            *r == old(self).0,
            final(self).0 == *final(r),
    {
        &mut self.0
    }

    /// The underlying node, giving up the typed view.
    pub fn into_node(self) -> (r: &'tree SyntaxNode)
        ensures
            r == self.0,
    {
        self.0
    }

    /// Views `node` as this type without checking its kind.
    pub fn from_node_unchecked(node: &'tree SyntaxNode) -> (r: Self)
        ensures
            r.0 == node,
    {
        Self(node)
    }
}

impl<'tree> TryFrom<&'tree SyntaxNode> for Sub_Gt_Sub_Gt_<'tree> {
    type Error = IncorrectKind<'tree>;

    /// Views `node` as this type if it has this type's kind.
    fn try_from(node: &'tree SyntaxNode) -> (r: NodeResult<'tree, Self>)
        ensures
            node.kind@ == "->->"@ ==> r == Ok::<Self, IncorrectKind<'tree>>(Self(node)),
            node.kind@ != "->->"@ ==> r == Err::<Self, IncorrectKind<'tree>>(IncorrectKind { node, kind: Self::KIND }),
    {
        if str_eq(node.kind, Self::KIND) {
            Ok(Self(node))
        } else {
            Err(IncorrectKind { node, kind: Self::KIND })
        }
    }
}

impl<'tree> TryFromSpecImpl<&'tree SyntaxNode> for Sub_Gt_Sub_Gt_<'tree> {
    open spec fn obeys_try_from_spec() -> bool {
        true
    }

    open spec fn try_from_spec(node: &'tree SyntaxNode) -> NodeResult<'tree, Self> {
        if node.kind@ == "->->"@ {
            Ok(Self(node))
        } else {
            Err(IncorrectKind { node, kind: Self::KIND })
        }
    }
}

/// Typed node `.`
///
/// This node has no children
#[derive(Debug, Clone, Copy, PartialEq, Eq, Hash)]
#[allow(non_camel_case_types)]
pub struct Dot_<'tree>(pub &'tree SyntaxNode);

impl<'tree> Dot_<'tree> {
    /// The kind of the nodes of this type.
    pub const KIND: &'static str = ".";

    /// The underlying node.
    pub fn node(&self) -> (r: &&'tree SyntaxNode)
        ensures
            *r == self.0,
    {
        &self.0
    }

    /// The underlying node, to replace in place.
    pub fn node_mut(&mut self) -> (r: &mut &'tree SyntaxNode)
        ensures
            *r == old(self).0,
            final(self).0 == *final(r),
    {
        &mut self.0
    }

    /// The underlying node, giving up the typed view.
    pub fn into_node(self) -> (r: &'tree SyntaxNode)
        ensures
            r == self.0,
    {
        self.0
    }

    /// Views `node` as this type without checking its kind.
    pub fn from_node_unchecked(node: &'tree SyntaxNode) -> (r: Self)
        ensures
            r.0 == node,
    {
        Self(node)
    }
}

impl<'tree> TryFrom<&'tree SyntaxNode> for Dot_<'tree> {
    type Error = IncorrectKind<'tree>;

    /// Views `node` as this type if it has this type's kind.
    fn try_from(node: &'tree SyntaxNode) -> (r: NodeResult<'tree, Self>)
        ensures
            node.kind@ == "."@ ==> r == Ok::<Self, IncorrectKind<'tree>>(Self(node)),
            node.kind@ != "."@ ==> r == Err::<Self, IncorrectKind<'tree>>(IncorrectKind { node, kind: Self::KIND }),
    {
        if str_eq(node.kind, Self::KIND) {
            Ok(Self(node))
        } else {
            Err(IncorrectKind { node, kind: Self::KIND })
        }
    }
}

impl<'tree> TryFromSpecImpl<&'tree SyntaxNode> for Dot_<'tree> {
    open spec fn obeys_try_from_spec() -> bool {
        true
    }

    open spec fn try_from_spec(node: &'tree SyntaxNode) -> NodeResult<'tree, Self> {
        if node.kind@ == "."@ {
            Ok(Self(node))
        } else {
            Err(IncorrectKind { node, kind: Self::KIND })
        }
    }
}

/// Typed node `/`
///
/// This node has no children
#[derive(Debug, Clone, Copy, PartialEq, Eq, Hash)]
#[allow(non_camel_case_types)]
pub struct Div_<'tree>(pub &'tree SyntaxNode);

impl<'tree> Div_<'tree> {
    /// The kind of the nodes of this type.
    pub const KIND: &'static str = "/";

    /// The underlying node.
    pub fn node(&self) -> (r: &&'tree SyntaxNode)
        ensures
            *r == self.0,
    {
        &self.0
    }

    /// The underlying node, to replace in place.
    pub fn node_mut(&mut self) -> (r: &mut &'tree SyntaxNode)
        ensures
            *r == old(self).0,
            final(self).0 == *final(r),
    {
        &mut self.0
    }

    /// The underlying node, giving up the typed view.
    pub fn into_node(self) -> (r: &'tree SyntaxNode)
        ensures
            r == self.0,
    {
        self.0
    }

    /// Views `node` as this type without checking its kind.
    pub fn from_node_unchecked(node: &'tree SyntaxNode) -> (r: Self)
        ensures
            r.0 == node,
    {
        Self(node)
    }
}

impl<'tree> TryFrom<&'tree SyntaxNode> for Div_<'tree> {
    type Error = IncorrectKind<'tree>;

    /// Views `node` as this type if it has this type's kind.
    fn try_from(node: &'tree SyntaxNode) -> (r: NodeResult<'tree, Self>)
        ensures
            node.kind@ == "/"@ ==> r == Ok::<Self, IncorrectKind<'tree>>(Self(node)),
            node.kind@ != "/"@ ==> r == Err::<Self, IncorrectKind<'tree>>(IncorrectKind { node, kind: Self::KIND }),
    {
        if str_eq(node.kind, Self::KIND) {
            Ok(Self(node))
        } else {
            Err(IncorrectKind { node, kind: Self::KIND })
        }
    }
}

impl<'tree> TryFromSpecImpl<&'tree SyntaxNode> for Div_<'tree> {
    open spec fn obeys_try_from_spec() -> bool {
        true
    }

    open spec fn try_from_spec(node: &'tree SyntaxNode) -> NodeResult<'tree, Self> {
        if node.kind@ == "/"@ {
            Ok(Self(node))
        } else {
            Err(IncorrectKind { node, kind: Self::KIND })
        }
    }
}

/// Typed node `:`
///
/// This node has no children
#[derive(Debug, Clone, Copy, PartialEq, Eq, Hash)]
#[allow(non_camel_case_types)]
pub struct Colon_<'tree>(pub &'tree SyntaxNode);

impl<'tree> Colon_<'tree> {
    /// The kind of the nodes of this type.
    pub const KIND: &'static str = ":";

    /// The underlying node.
    pub fn node(&self) -> (r: &&'tree SyntaxNode)
        ensures
            *r == self.0,
    {
        &self.0
    }

    /// The underlying node, to replace in place.
    pub fn node_mut(&mut self) -> (r: &mut &'tree SyntaxNode)
        ensures
            *r == old(self).0,
            final(self).0 == *final(r),
    {
        &mut self.0
    }

    /// The underlying node, giving up the typed view.
    pub fn into_node(self) -> (r: &'tree SyntaxNode)
        ensures
            r == self.0,
    {
        self.0
    }

    /// Views `node` as this type without checking its kind.
    pub fn from_node_unchecked(node: &'tree SyntaxNode) -> (r: Self)
        ensures
            r.0 == node,
    {
        Self(node)
    }
}

impl<'tree> TryFrom<&'tree SyntaxNode> for Colon_<'tree> {
    type Error = IncorrectKind<'tree>;

    /// Views `node` as this type if it has this type's kind.
    fn try_from(node: &'tree SyntaxNode) -> (r: NodeResult<'tree, Self>)
        ensures
            node.kind@ == ":"@ ==> r == Ok::<Self, IncorrectKind<'tree>>(Self(node)),
            node.kind@ != ":"@ ==> r == Err::<Self, IncorrectKind<'tree>>(IncorrectKind { node, kind: Self::KIND }),
    {
        if str_eq(node.kind, Self::KIND) {
            Ok(Self(node))
        } else {
            Err(IncorrectKind { node, kind: Self::KIND })
        }
    }
}

impl<'tree> TryFromSpecImpl<&'tree SyntaxNode> for Colon_<'tree> {
    open spec fn obeys_try_from_spec() -> bool {
        true
    }

    open spec fn try_from_spec(node: &'tree SyntaxNode) -> NodeResult<'tree, Self> {
        if node.kind@ == ":"@ {
            Ok(Self(node))
        } else {
            Err(IncorrectKind { node, kind: Self::KIND })
        }
    }
}

/// Typed node `<`
///
/// This node has no children
#[derive(Debug, Clone, Copy, PartialEq, Eq, Hash)]
#[allow(non_camel_case_types)]
pub struct Lt_<'tree>(pub &'tree SyntaxNode);

impl<'tree> Lt_<'tree> {
    /// The kind of the nodes of this type.
    pub const KIND: &'static str = "<";

    /// The underlying node.
    pub fn node(&self) -> (r: &&'tree SyntaxNode)
        ensures
            *r == self.0,
    {
        &self.0
    }

    /// The underlying node, to replace in place.
    pub fn node_mut(&mut self) -> (r: &mut &'tree SyntaxNode)
        ensures
            *r == old(self).0,
            final(self).0 == *final(r),
    {
        &mut self.0
    }

    /// The underlying node, giving up the typed view.
    pub fn into_node(self) -> (r: &'tree SyntaxNode)
        ensures
            r == self.0,
    {
        self.0
    }

    /// Views `node` as this type without checking its kind.
    pub fn from_node_unchecked(node: &'tree SyntaxNode) -> (r: Self)
        ensures
            r.0 == node,
    {
        Self(node)
    }
}

impl<'tree> TryFrom<&'tree SyntaxNode> for Lt_<'tree> {
    type Error = IncorrectKind<'tree>;

    /// Views `node` as this type if it has this type's kind.
    fn try_from(node: &'tree SyntaxNode) -> (r: NodeResult<'tree, Self>)
        ensures
            node.kind@ == "<"@ ==> r == Ok::<Self, IncorrectKind<'tree>>(Self(node)),
            node.kind@ != "<"@ ==> r == Err::<Self, IncorrectKind<'tree>>(IncorrectKind { node, kind: Self::KIND }),
    {
        if str_eq(node.kind, Self::KIND) {
            Ok(Self(node))
        } else {
            Err(IncorrectKind { node, kind: Self::KIND })
        }
    }
}

impl<'tree> TryFromSpecImpl<&'tree SyntaxNode> for Lt_<'tree> {
    open spec fn obeys_try_from_spec() -> bool {
        true
    }

    open spec fn try_from_spec(node: &'tree SyntaxNode) -> NodeResult<'tree, Self> {
        if node.kind@ == "<"@ {
            Ok(Self(node))
        } else {
            Err(IncorrectKind { node, kind: Self::KIND })
        }
    }
}

/// Typed node `<-`
///
/// This node has no children
#[derive(Debug, Clone, Copy, PartialEq, Eq, Hash)]
#[allow(non_camel_case_types)]
pub struct Lt_Sub_<'tree>(pub &'tree SyntaxNode);

impl<'tree> Lt_Sub_<'tree> {
    /// The kind of the nodes of this type.
    pub const KIND: &'static str = "<-";

    /// The underlying node.
    pub fn node(&self) -> (r: &&'tree SyntaxNode)
        ensures
            *r == self.0,
    {
        &self.0
    }

    /// The underlying node, to replace in place.
    pub fn node_mut(&mut self) -> (r: &mut &'tree SyntaxNode)
        ensures
            *r == old(self).0,
            final(self).0 == *final(r),
    {
        &mut self.0
    }

    /// The underlying node, giving up the typed view.
    pub fn into_node(self) -> (r: &'tree SyntaxNode)
        ensures
            r == self.0,
    {
        self.0
    }

    /// Views `node` as this type without checking its kind.
    pub fn from_node_unchecked(node: &'tree SyntaxNode) -> (r: Self)
        ensures
            r.0 == node,
    {
        Self(node)
    }
}

impl<'tree> TryFrom<&'tree SyntaxNode> for Lt_Sub_<'tree> {
    type Error = IncorrectKind<'tree>;

    /// Views `node` as this type if it has this type's kind.
    fn try_from(node: &'tree SyntaxNode) -> (r: NodeResult<'tree, Self>)
        ensures
            node.kind@ == "<-"@ ==> r == Ok::<Self, IncorrectKind<'tree>>(Self(node)),
            node.kind@ != "<-"@ ==> r == Err::<Self, IncorrectKind<'tree>>(IncorrectKind { node, kind: Self::KIND }),
    {
        if str_eq(node.kind, Self::KIND) {
            Ok(Self(node))
        } else {
            Err(IncorrectKind { node, kind: Self::KIND })
        }
    }
}

impl<'tree> TryFromSpecImpl<&'tree SyntaxNode> for Lt_Sub_<'tree> {
    open spec fn obeys_try_from_spec() -> bool {
        true
    }

    open spec fn try_from_spec(node: &'tree SyntaxNode) -> NodeResult<'tree, Self> {
        if node.kind@ == "<-"@ {
            Ok(Self(node))
        } else {
            Err(IncorrectKind { node, kind: Self::KIND })
        }
    }
}

/// Typed node `<=`
///
/// This node has no children
#[derive(Debug, Clone, Copy, PartialEq, Eq, Hash)]
#[allow(non_camel_case_types)]
pub struct Lt_Eq_<'tree>(pub &'tree SyntaxNode);

impl<'tree> Lt_Eq_<'tree> {
    /// The kind of the nodes of this type.
    pub const KIND: &'static str = "<=";

    /// The underlying node.
    pub fn node(&self) -> (r: &&'tree SyntaxNode)
        ensures
            *r == self.0,
    {
        &self.0
    }

    /// The underlying node, to replace in place.
    pub fn node_mut(&mut self) -> (r: &mut &'tree SyntaxNode)
        ensures
            *r == old(self).0,
            final(self).0 == *final(r),
    {
        &mut self.0
    }

    /// The underlying node, giving up the typed view.
    pub fn into_node(self) -> (r: &'tree SyntaxNode)
        ensures
            r == self.0,
    {
        self.0
    }

    /// Views `node` as this type without checking its kind.
    pub fn from_node_unchecked(node: &'tree SyntaxNode) -> (r: Self)
        ensures
            r.0 == node,
    {
        Self(node)
    }
}

impl<'tree> TryFrom<&'tree SyntaxNode> for Lt_Eq_<'tree> {
    type Error = IncorrectKind<'tree>;

    /// Views `node` as this type if it has this type's kind.
    fn try_from(node: &'tree SyntaxNode) -> (r: NodeResult<'tree, Self>)
        ensures
            node.kind@ == "<="@ ==> r == Ok::<Self, IncorrectKind<'tree>>(Self(node)),
            node.kind@ != "<="@ ==> r == Err::<Self, IncorrectKind<'tree>>(IncorrectKind { node, kind: Self::KIND }),
    {
        if str_eq(node.kind, Self::KIND) {
            Ok(Self(node))
        } else {
            Err(IncorrectKind { node, kind: Self::KIND })
        }
    }
}

impl<'tree> TryFromSpecImpl<&'tree SyntaxNode> for Lt_Eq_<'tree> {
    open spec fn obeys_try_from_spec() -> bool {
        true
    }

    open spec fn try_from_spec(node: &'tree SyntaxNode) -> NodeResult<'tree, Self> {
        if node.kind@ == "<="@ {
            Ok(Self(node))
        } else {
            Err(IncorrectKind { node, kind: Self::KIND })
        }
    }
}

/// Typed node `=`
///
/// This node has no children
#[derive(Debug, Clone, Copy, PartialEq, Eq, Hash)]
#[allow(non_camel_case_types)]
pub struct Eq_<'tree>(pub &'tree SyntaxNode);

impl<'tree> Eq_<'tree> {
    /// The kind of the nodes of this type.
    pub const KIND: &'static str = "=";

    /// The underlying node.
    pub fn node(&self) -> (r: &&'tree SyntaxNode)
        ensures
            *r == self.0,
    {
        &self.0
    }

    /// The underlying node, to replace in place.
    pub fn node_mut(&mut self) -> (r: &mut &'tree SyntaxNode)
        ensures
            *r == old(self).0,
            final(self).0 == *final(r),
    {
        &mut self.0
    }

    /// The underlying node, giving up the typed view.
    pub fn into_node(self) -> (r: &'tree SyntaxNode)
        ensures
            r == self.0,
    {
        self.0
    }

    /// Views `node` as this type without checking its kind.
    pub fn from_node_unchecked(node: &'tree SyntaxNode) -> (r: Self)
        ensures
            r.0 == node,
    {
        Self(node)
    }
}

impl<'tree> TryFrom<&'tree SyntaxNode> for Eq_<'tree> {
    type Error = IncorrectKind<'tree>;

    /// Views `node` as this type if it has this type's kind.
    fn try_from(node: &'tree SyntaxNode) -> (r: NodeResult<'tree, Self>)
        ensures
            node.kind@ == "="@ ==> r == Ok::<Self, IncorrectKind<'tree>>(Self(node)),
            node.kind@ != "="@ ==> r == Err::<Self, IncorrectKind<'tree>>(IncorrectKind { node, kind: Self::KIND }),
    {
        if str_eq(node.kind, Self::KIND) {
            Ok(Self(node))
        } else {
            Err(IncorrectKind { node, kind: Self::KIND })
        }
    }
}

impl<'tree> TryFromSpecImpl<&'tree SyntaxNode> for Eq_<'tree> {
    open spec fn obeys_try_from_spec() -> bool {
        true
    }

    open spec fn try_from_spec(node: &'tree SyntaxNode) -> NodeResult<'tree, Self> {
        if node.kind@ == "="@ {
            Ok(Self(node))
        } else {
            Err(IncorrectKind { node, kind: Self::KIND })
        }
    }
}

/// Typed node `==`
///
/// This node has no children
#[derive(Debug, Clone, Copy, PartialEq, Eq, Hash)]
#[allow(non_camel_case_types)]
pub struct Eq_Eq_<'tree>(pub &'tree SyntaxNode);

impl<'tree> Eq_Eq_<'tree> {
    /// The kind of the nodes of this type.
    pub const KIND: &'static str = "==";

    /// The underlying node.
    pub fn node(&self) -> (r: &&'tree SyntaxNode)
        ensures
            *r == self.0,
    {
        &self.0
    }

    /// The underlying node, to replace in place.
    pub fn node_mut(&mut self) -> (r: &mut &'tree SyntaxNode)
        ensures
            *r == old(self).0,
            final(self).0 == *final(r),
    {
        &mut self.0
    }

    /// The underlying node, giving up the typed view.
    pub fn into_node(self) -> (r: &'tree SyntaxNode)
        ensures
            r == self.0,
    {
        self.0
    }

    /// Views `node` as this type without checking its kind.
    pub fn from_node_unchecked(node: &'tree SyntaxNode) -> (r: Self)
        ensures
            r.0 == node,
    {
        Self(node)
    }
}

impl<'tree> TryFrom<&'tree SyntaxNode> for Eq_Eq_<'tree> {
    type Error = IncorrectKind<'tree>;

    /// Views `node` as this type if it has this type's kind.
    fn try_from(node: &'tree SyntaxNode) -> (r: NodeResult<'tree, Self>)
        ensures
            node.kind@ == "=="@ ==> r == Ok::<Self, IncorrectKind<'tree>>(Self(node)),
            node.kind@ != "=="@ ==> r == Err::<Self, IncorrectKind<'tree>>(IncorrectKind { node, kind: Self::KIND }),
    {
        if str_eq(node.kind, Self::KIND) {
            Ok(Self(node))
        } else {
            Err(IncorrectKind { node, kind: Self::KIND })
        }
    }
}

impl<'tree> TryFromSpecImpl<&'tree SyntaxNode> for Eq_Eq_<'tree> {
    open spec fn obeys_try_from_spec() -> bool {
        true
    }

    open spec fn try_from_spec(node: &'tree SyntaxNode) -> NodeResult<'tree, Self> {
        if node.kind@ == "=="@ {
            Ok(Self(node))
        } else {
            Err(IncorrectKind { node, kind: Self::KIND })
        }
    }
}

/// Typed node `>`
///
/// This node has no children
#[derive(Debug, Clone, Copy, PartialEq, Eq, Hash)]
#[allow(non_camel_case_types)]
pub struct Gt_<'tree>(pub &'tree SyntaxNode);

impl<'tree> Gt_<'tree> {
    /// The kind of the nodes of this type.
    pub const KIND: &'static str = ">";

    /// The underlying node.
    pub fn node(&self) -> (r: &&'tree SyntaxNode)
        ensures
            *r == self.0,
    {
        &self.0
    }

    /// The underlying node, to replace in place.
    pub fn node_mut(&mut self) -> (r: &mut &'tree SyntaxNode)
        ensures
            *r == old(self).0,
            final(self).0 == *final(r),
    {
        &mut self.0
    }

    /// The underlying node, giving up the typed view.
    pub fn into_node(self) -> (r: &'tree SyntaxNode)
        ensures
            r == self.0,
    {
        self.0
    }

    /// Views `node` as this type without checking its kind.
    pub fn from_node_unchecked(node: &'tree SyntaxNode) -> (r: Self)
        ensures
            r.0 == node,
    {
        Self(node)
    }
}

impl<'tree> TryFrom<&'tree SyntaxNode> for Gt_<'tree> {
    type Error = IncorrectKind<'tree>;

    /// Views `node` as this type if it has this type's kind.
    fn try_from(node: &'tree SyntaxNode) -> (r: NodeResult<'tree, Self>)
        ensures
            node.kind@ == ">"@ ==> r == Ok::<Self, IncorrectKind<'tree>>(Self(node)),
            node.kind@ != ">"@ ==> r == Err::<Self, IncorrectKind<'tree>>(IncorrectKind { node, kind: Self::KIND }),
    {
        if str_eq(node.kind, Self::KIND) {
            Ok(Self(node))
        } else {
            Err(IncorrectKind { node, kind: Self::KIND })
        }
    }
}

impl<'tree> TryFromSpecImpl<&'tree SyntaxNode> for Gt_<'tree> {
    open spec fn obeys_try_from_spec() -> bool {
        true
    }

    open spec fn try_from_spec(node: &'tree SyntaxNode) -> NodeResult<'tree, Self> {
        if node.kind@ == ">"@ {
            Ok(Self(node))
        } else {
            Err(IncorrectKind { node, kind: Self::KIND })
        }
    }
}

/// Typed node `>=`
///
/// This node has no children
#[derive(Debug, Clone, Copy, PartialEq, Eq, Hash)]
#[allow(non_camel_case_types)]
pub struct Gt_Eq_<'tree>(pub &'tree SyntaxNode);

impl<'tree> Gt_Eq_<'tree> {
    /// The kind of the nodes of this type.
    pub const KIND: &'static str = ">=";

    /// The underlying node.
    pub fn node(&self) -> (r: &&'tree SyntaxNode)
        ensures
            *r == self.0,
    {
        &self.0
    }

    /// The underlying node, to replace in place.
    pub fn node_mut(&mut self) -> (r: &mut &'tree SyntaxNode)
        ensures
            *r == old(self).0,
            final(self).0 == *final(r),
    {
        &mut self.0
    }

    /// The underlying node, giving up the typed view.
    pub fn into_node(self) -> (r: &'tree SyntaxNode)
        ensures
            r == self.0,
    {
        self.0
    }

    /// Views `node` as this type without checking its kind.
    pub fn from_node_unchecked(node: &'tree SyntaxNode) -> (r: Self)
        ensures
            r.0 == node,
    {
        Self(node)
    }
}

impl<'tree> TryFrom<&'tree SyntaxNode> for Gt_Eq_<'tree> {
    type Error = IncorrectKind<'tree>;

    /// Views `node` as this type if it has this type's kind.
    fn try_from(node: &'tree SyntaxNode) -> (r: NodeResult<'tree, Self>)
        ensures
            node.kind@ == ">="@ ==> r == Ok::<Self, IncorrectKind<'tree>>(Self(node)),
            node.kind@ != ">="@ ==> r == Err::<Self, IncorrectKind<'tree>>(IncorrectKind { node, kind: Self::KIND }),
    {
        if str_eq(node.kind, Self::KIND) {
            Ok(Self(node))
        } else {
            Err(IncorrectKind { node, kind: Self::KIND })
        }
    }
}

impl<'tree> TryFromSpecImpl<&'tree SyntaxNode> for Gt_Eq_<'tree> {
    open spec fn obeys_try_from_spec() -> bool {
        true
    }

    open spec fn try_from_spec(node: &'tree SyntaxNode) -> NodeResult<'tree, Self> {
        if node.kind@ == ">="@ {
            Ok(Self(node))
        } else {
            Err(IncorrectKind { node, kind: Self::KIND })
        }
    }
}

/// Typed node `?`
///
/// This node has no children
#[derive(Debug, Clone, Copy, PartialEq, Eq, Hash)]
#[allow(non_camel_case_types)]
pub struct Question_<'tree>(pub &'tree SyntaxNode);

impl<'tree> Question_<'tree> {
    /// The kind of the nodes of this type.
    pub const KIND: &'static str = "?";

    /// The underlying node.
    pub fn node(&self) -> (r: &&'tree SyntaxNode)
        ensures
            *r == self.0,
    {
        &self.0
    }

    /// The underlying node, to replace in place.
    pub fn node_mut(&mut self) -> (r: &mut &'tree SyntaxNode)
        ensures
            *r == old(self).0,
            final(self).0 == *final(r),
    {
        &mut self.0
    }

    /// The underlying node, giving up the typed view.
    pub fn into_node(self) -> (r: &'tree SyntaxNode)
        ensures
            r == self.0,
    {
        self.0
    }

    /// Views `node` as this type without checking its kind.
    pub fn from_node_unchecked(node: &'tree SyntaxNode) -> (r: Self)
        ensures
            r.0 == node,
    {
        Self(node)
    }
}

impl<'tree> TryFrom<&'tree SyntaxNode> for Question_<'tree> {
    type Error = IncorrectKind<'tree>;

    /// Views `node` as this type if it has this type's kind.
    fn try_from(node: &'tree SyntaxNode) -> (r: NodeResult<'tree, Self>)
        ensures
            node.kind@ == "?"@ ==> r == Ok::<Self, IncorrectKind<'tree>>(Self(node)),
            node.kind@ != "?"@ ==> r == Err::<Self, IncorrectKind<'tree>>(IncorrectKind { node, kind: Self::KIND }),
    {
        if str_eq(node.kind, Self::KIND) {
            Ok(Self(node))
        } else {
            Err(IncorrectKind { node, kind: Self::KIND })
        }
    }
}

impl<'tree> TryFromSpecImpl<&'tree SyntaxNode> for Question_<'tree> {
    open spec fn obeys_try_from_spec() -> bool {
        true
    }

    open spec fn try_from_spec(node: &'tree SyntaxNode) -> NodeResult<'tree, Self> {
        if node.kind@ == "?"@ {
            Ok(Self(node))
        } else {
            Err(IncorrectKind { node, kind: Self::KIND })
        }
    }
}

/// Typed node `[`
///
/// This node has no children
#[derive(Debug, Clone, Copy, PartialEq, Eq, Hash)]
#[allow(non_camel_case_types)]
pub struct LBracket_<'tree>(pub &'tree SyntaxNode);

impl<'tree> LBracket_<'tree> {
    /// The kind of the nodes of this type.
    pub const KIND: &'static str = "[";

    /// The underlying node.
    pub fn node(&self) -> (r: &&'tree SyntaxNode)
        ensures
            *r == self.0,
    {
        &self.0
    }

    /// The underlying node, to replace in place.
    pub fn node_mut(&mut self) -> (r: &mut &'tree SyntaxNode)
        ensures
            *r == old(self).0,
            final(self).0 == *final(r),
    {
        &mut self.0
    }

    /// The underlying node, giving up the typed view.
    pub fn into_node(self) -> (r: &'tree SyntaxNode)
        ensures
            r == self.0,
    {
        self.0
    }

    /// Views `node` as this type without checking its kind.
    pub fn from_node_unchecked(node: &'tree SyntaxNode) -> (r: Self)
        ensures
            r.0 == node,
    {
        Self(node)
    }
}

impl<'tree> TryFrom<&'tree SyntaxNode> for LBracket_<'tree> {
    type Error = IncorrectKind<'tree>;

    /// Views `node` as this type if it has this type's kind.
    fn try_from(node: &'tree SyntaxNode) -> (r: NodeResult<'tree, Self>)
        ensures
            node.kind@ == "["@ ==> r == Ok::<Self, IncorrectKind<'tree>>(Self(node)),
            node.kind@ != "["@ ==> r == Err::<Self, IncorrectKind<'tree>>(IncorrectKind { node, kind: Self::KIND }),
    {
        if str_eq(node.kind, Self::KIND) {
            Ok(Self(node))
        } else {
            Err(IncorrectKind { node, kind: Self::KIND })
        }
    }
}

impl<'tree> TryFromSpecImpl<&'tree SyntaxNode> for LBracket_<'tree> {
    open spec fn obeys_try_from_spec() -> bool {
        true
    }

    open spec fn try_from_spec(node: &'tree SyntaxNode) -> NodeResult<'tree, Self> {
        if node.kind@ == "["@ {
            Ok(Self(node))
        } else {
            Err(IncorrectKind { node, kind: Self::KIND })
        }
    }
}

/// Typed node `\`
///
/// This node has no children
#[derive(Debug, Clone, Copy, PartialEq, Eq, Hash)]
#[allow(non_camel_case_types)]
pub struct Backslash_<'tree>(pub &'tree SyntaxNode);

impl<'tree> Backslash_<'tree> {
    /// The kind of the nodes of this type.
    pub const KIND: &'static str = "\\";

    /// The underlying node.
    pub fn node(&self) -> (r: &&'tree SyntaxNode)
        ensures
            *r == self.0,
    {
        &self.0
    }

    /// The underlying node, to replace in place.
    pub fn node_mut(&mut self) -> (r: &mut &'tree SyntaxNode)
        ensures
            *r == old(self).0,
            final(self).0 == *final(r),
    {
        &mut self.0
    }

    /// The underlying node, giving up the typed view.
    pub fn into_node(self) -> (r: &'tree SyntaxNode)
        ensures
            r == self.0,
    {
        self.0
    }

    /// Views `node` as this type without checking its kind.
    pub fn from_node_unchecked(node: &'tree SyntaxNode) -> (r: Self)
        ensures
            r.0 == node,
    {
        Self(node)
    }
}

impl<'tree> TryFrom<&'tree SyntaxNode> for Backslash_<'tree> {
    type Error = IncorrectKind<'tree>;

    /// Views `node` as this type if it has this type's kind.
    fn try_from(node: &'tree SyntaxNode) -> (r: NodeResult<'tree, Self>)
        ensures
            node.kind@ == "\\"@ ==> r == Ok::<Self, IncorrectKind<'tree>>(Self(node)),
            node.kind@ != "\\"@ ==> r == Err::<Self, IncorrectKind<'tree>>(IncorrectKind { node, kind: Self::KIND }),
    {
        if str_eq(node.kind, Self::KIND) {
            Ok(Self(node))
        } else {
            Err(IncorrectKind { node, kind: Self::KIND })
        }
    }
}

impl<'tree> TryFromSpecImpl<&'tree SyntaxNode> for Backslash_<'tree> {
    open spec fn obeys_try_from_spec() -> bool {
        true
    }

    open spec fn try_from_spec(node: &'tree SyntaxNode) -> NodeResult<'tree, Self> {
        if node.kind@ == "\\"@ {
            Ok(Self(node))
        } else {
            Err(IncorrectKind { node, kind: Self::KIND })
        }
    }
}

/// Typed node `\#`
///
/// This node has no children
#[derive(Debug, Clone, Copy, PartialEq, Eq, Hash)]
#[allow(non_camel_case_types)]
pub struct Backslash_Hash_<'tree>(pub &'tree SyntaxNode);

impl<'tree> Backslash_Hash_<'tree> {
    /// The kind of the nodes of this type.
    pub const KIND: &'static str = "\\#";

    /// The underlying node.
    pub fn node(&self) -> (r: &&'tree SyntaxNode)
        ensures
            *r == self.0,
    {
        &self.0
    }

    /// The underlying node, to replace in place.
    pub fn node_mut(&mut self) -> (r: &mut &'tree SyntaxNode)
        ensures
            *r == old(self).0,
            final(self).0 == *final(r),
    {
        &mut self.0
    }

    /// The underlying node, giving up the typed view.
    pub fn into_node(self) -> (r: &'tree SyntaxNode)
        ensures
            r == self.0,
    {
        self.0
    }

    /// Views `node` as this type without checking its kind.
    pub fn from_node_unchecked(node: &'tree SyntaxNode) -> (r: Self)
        ensures
            r.0 == node,
    {
        Self(node)
    }
}

impl<'tree> TryFrom<&'tree SyntaxNode> for Backslash_Hash_<'tree> {
    type Error = IncorrectKind<'tree>;

    /// Views `node` as this type if it has this type's kind.
    fn try_from(node: &'tree SyntaxNode) -> (r: NodeResult<'tree, Self>)
        ensures
            node.kind@ == "\\#"@ ==> r == Ok::<Self, IncorrectKind<'tree>>(Self(node)),
            node.kind@ != "\\#"@ ==> r == Err::<Self, IncorrectKind<'tree>>(IncorrectKind { node, kind: Self::KIND }),
    {
        if str_eq(node.kind, Self::KIND) {
            Ok(Self(node))
        } else {
            Err(IncorrectKind { node, kind: Self::KIND })
        }
    }
}

impl<'tree> TryFromSpecImpl<&'tree SyntaxNode> for Backslash_Hash_<'tree> {
    open spec fn obeys_try_from_spec() -> bool {
        true
    }

    open spec fn try_from_spec(node: &'tree SyntaxNode) -> NodeResult<'tree, Self> {
        if node.kind@ == "\\#"@ {
            Ok(Self(node))
        } else {
            Err(IncorrectKind { node, kind: Self::KIND })
        }
    }
}

/// Typed node `\[`
///
/// This node has no children
#[derive(Debug, Clone, Copy, PartialEq, Eq, Hash)]
#[allow(non_camel_case_types)]
pub struct Backslash_LBracket_<'tree>(pub &'tree SyntaxNode);

impl<'tree> Backslash_LBracket_<'tree> {
    /// The kind of the nodes of this type.
    pub const KIND: &'static str = "\\[";

    /// The underlying node.
    pub fn node(&self) -> (r: &&'tree SyntaxNode)
        ensures
            *r == self.0,
    {
        &self.0
    }

    /// The underlying node, to replace in place.
    pub fn node_mut(&mut self) -> (r: &mut &'tree SyntaxNode)
        ensures
            *r == old(self).0,
            final(self).0 == *final(r),
    {
        &mut self.0
    }

    /// The underlying node, giving up the typed view.
    pub fn into_node(self) -> (r: &'tree SyntaxNode)
        ensures
            r == self.0,
    {
        self.0
    }

    /// Views `node` as this type without checking its kind.
    pub fn from_node_unchecked(node: &'tree SyntaxNode) -> (r: Self)
        ensures
            r.0 == node,
    {
        Self(node)
    }
}

impl<'tree> TryFrom<&'tree SyntaxNode> for Backslash_LBracket_<'tree> {
    type Error = IncorrectKind<'tree>;

    /// Views `node` as this type if it has this type's kind.
    fn try_from(node: &'tree SyntaxNode) -> (r: NodeResult<'tree, Self>)
        ensures
            node.kind@ == "\\["@ ==> r == Ok::<Self, IncorrectKind<'tree>>(Self(node)),
            node.kind@ != "\\["@ ==> r == Err::<Self, IncorrectKind<'tree>>(IncorrectKind { node, kind: Self::KIND }),
    {
        if str_eq(node.kind, Self::KIND) {
            Ok(Self(node))
        } else {
            Err(IncorrectKind { node, kind: Self::KIND })
        }
    }
}

impl<'tree> TryFromSpecImpl<&'tree SyntaxNode> for Backslash_LBracket_<'tree> {
    open spec fn obeys_try_from_spec() -> bool {
        true
    }

    open spec fn try_from_spec(node: &'tree SyntaxNode) -> NodeResult<'tree, Self> {
        if node.kind@ == "\\["@ {
            Ok(Self(node))
        } else {
            Err(IncorrectKind { node, kind: Self::KIND })
        }
    }
}

/// Typed node `\]`
///
/// This node has no children
#[derive(Debug, Clone, Copy, PartialEq, Eq, Hash)]
#[allow(non_camel_case_types)]
pub struct Backslash_RBracket_<'tree>(pub &'tree SyntaxNode);

impl<'tree> Backslash_RBracket_<'tree> {
    /// The kind of the nodes of this type.
    pub const KIND: &'static str = "\\]";

    /// The underlying node.
    pub fn node(&self) -> (r: &&'tree SyntaxNode)
        ensures
            *r == self.0,
    {
        &self.0
    }

    /// The underlying node, to replace in place.
    pub fn node_mut(&mut self) -> (r: &mut &'tree SyntaxNode)
        ensures
            *r == old(self).0,
            final(self).0 == *final(r),
    {
        &mut self.0
    }

    /// The underlying node, giving up the typed view.
    pub fn into_node(self) -> (r: &'tree SyntaxNode)
        ensures
            r == self.0,
    {
        self.0
    }

    /// Views `node` as this type without checking its kind.
    pub fn from_node_unchecked(node: &'tree SyntaxNode) -> (r: Self)
        ensures
            r.0 == node,
    {
        Self(node)
    }
}

impl<'tree> TryFrom<&'tree SyntaxNode> for Backslash_RBracket_<'tree> {
    type Error = IncorrectKind<'tree>;

    /// Views `node` as this type if it has this type's kind.
    fn try_from(node: &'tree SyntaxNode) -> (r: NodeResult<'tree, Self>)
        ensures
            node.kind@ == "\\]"@ ==> r == Ok::<Self, IncorrectKind<'tree>>(Self(node)),
            node.kind@ != "\\]"@ ==> r == Err::<Self, IncorrectKind<'tree>>(IncorrectKind { node, kind: Self::KIND }),
    {
        if str_eq(node.kind, Self::KIND) {
            Ok(Self(node))
        } else {
            Err(IncorrectKind { node, kind: Self::KIND })
        }
    }
}

impl<'tree> TryFromSpecImpl<&'tree SyntaxNode> for Backslash_RBracket_<'tree> {
    open spec fn obeys_try_from_spec() -> bool {
        true
    }

    open spec fn try_from_spec(node: &'tree SyntaxNode) -> NodeResult<'tree, Self> {
        if node.kind@ == "\\]"@ {
            Ok(Self(node))
        } else {
            Err(IncorrectKind { node, kind: Self::KIND })
        }
    }
}

/// Typed node `\{`
///
/// This node has no children
#[derive(Debug, Clone, Copy, PartialEq, Eq, Hash)]
#[allow(non_camel_case_types)]
pub struct Backslash_LBrace_<'tree>(pub &'tree SyntaxNode);

impl<'tree> Backslash_LBrace_<'tree> {
    /// The kind of the nodes of this type.
    pub const KIND: &'static str = "\\{";

    /// The underlying node.
    pub fn node(&self) -> (r: &&'tree SyntaxNode)
        ensures
            *r == self.0,
    {
        &self.0
    }

    /// The underlying node, to replace in place.
    pub fn node_mut(&mut self) -> (r: &mut &'tree SyntaxNode)
        ensures
            *r == old(self).0,
            final(self).0 == *final(r),
    {
        &mut self.0
    }

    /// The underlying node, giving up the typed view.
    pub fn into_node(self) -> (r: &'tree SyntaxNode)
        ensures
            r == self.0,
    {
        self.0
    }

    /// Views `node` as this type without checking its kind.
    pub fn from_node_unchecked(node: &'tree SyntaxNode) -> (r: Self)
        ensures
            r.0 == node,
    {
        Self(node)
    }
}

impl<'tree> TryFrom<&'tree SyntaxNode> for Backslash_LBrace_<'tree> {
    type Error = IncorrectKind<'tree>;

    /// Views `node` as this type if it has this type's kind.
    fn try_from(node: &'tree SyntaxNode) -> (r: NodeResult<'tree, Self>)
        ensures
            node.kind@ == "\\{"@ ==> r == Ok::<Self, IncorrectKind<'tree>>(Self(node)),
            node.kind@ != "\\{"@ ==> r == Err::<Self, IncorrectKind<'tree>>(IncorrectKind { node, kind: Self::KIND }),
    {
        if str_eq(node.kind, Self::KIND) {
            Ok(Self(node))
        } else {
            Err(IncorrectKind { node, kind: Self::KIND })
        }
    }
}

impl<'tree> TryFromSpecImpl<&'tree SyntaxNode> for Backslash_LBrace_<'tree> {
    open spec fn obeys_try_from_spec() -> bool {
        true
    }

    open spec fn try_from_spec(node: &'tree SyntaxNode) -> NodeResult<'tree, Self> {
        if node.kind@ == "\\{"@ {
            Ok(Self(node))
        } else {
            Err(IncorrectKind { node, kind: Self::KIND })
        }
    }
}

/// Typed node `\|`
///
/// This node has no children
#[derive(Debug, Clone, Copy, PartialEq, Eq, Hash)]
#[allow(non_camel_case_types)]
pub struct Backslash_Or_<'tree>(pub &'tree SyntaxNode);

impl<'tree> Backslash_Or_<'tree> {
    /// The kind of the nodes of this type.
    pub const KIND: &'static str = "\\|";

    /// The underlying node.
    pub fn node(&self) -> (r: &&'tree SyntaxNode)
        ensures
            *r == self.0,
    {
        &self.0
    }

    /// The underlying node, to replace in place.
    pub fn node_mut(&mut self) -> (r: &mut &'tree SyntaxNode)
        ensures
            *r == old(self).0,
            final(self).0 == *final(r),
    {
        &mut self.0
    }

    /// The underlying node, giving up the typed view.
    pub fn into_node(self) -> (r: &'tree SyntaxNode)
        ensures
            r == self.0,
    {
        self.0
    }

    /// Views `node` as this type without checking its kind.
    pub fn from_node_unchecked(node: &'tree SyntaxNode) -> (r: Self)
        ensures
            r.0 == node,
    {
        Self(node)
    }
}

impl<'tree> TryFrom<&'tree SyntaxNode> for Backslash_Or_<'tree> {
    type Error = IncorrectKind<'tree>;

    /// Views `node` as this type if it has this type's kind.
    fn try_from(node: &'tree SyntaxNode) -> (r: NodeResult<'tree, Self>)
        ensures
            node.kind@ == "\\|"@ ==> r == Ok::<Self, IncorrectKind<'tree>>(Self(node)),
            node.kind@ != "\\|"@ ==> r == Err::<Self, IncorrectKind<'tree>>(IncorrectKind { node, kind: Self::KIND }),
    {
        if str_eq(node.kind, Self::KIND) {
            Ok(Self(node))
        } else {
            Err(IncorrectKind { node, kind: Self::KIND })
        }
    }
}

impl<'tree> TryFromSpecImpl<&'tree SyntaxNode> for Backslash_Or_<'tree> {
    open spec fn obeys_try_from_spec() -> bool {
        true
    }

    open spec fn try_from_spec(node: &'tree SyntaxNode) -> NodeResult<'tree, Self> {
        if node.kind@ == "\\|"@ {
            Ok(Self(node))
        } else {
            Err(IncorrectKind { node, kind: Self::KIND })
        }
    }
}

/// Typed node `\}`
///
/// This node has no children
#[derive(Debug, Clone, Copy, PartialEq, Eq, Hash)]
#[allow(non_camel_case_types)]
pub struct Backslash_RBrace_<'tree>(pub &'tree SyntaxNode);

impl<'tree> Backslash_RBrace_<'tree> {
    /// The kind of the nodes of this type.
    pub const KIND: &'static str = "\\}";

    /// The underlying node.
    pub fn node(&self) -> (r: &&'tree SyntaxNode)
        ensures
            *r == self.0,
    {
        &self.0
    }

    /// The underlying node, to replace in place.
    pub fn node_mut(&mut self) -> (r: &mut &'tree SyntaxNode)
        ensures
            *r == old(self).0,
            final(self).0 == *final(r),
    {
        &mut self.0
    }

    /// The underlying node, giving up the typed view.
    pub fn into_node(self) -> (r: &'tree SyntaxNode)
        ensures
            r == self.0,
    {
        self.0
    }

    /// Views `node` as this type without checking its kind.
    pub fn from_node_unchecked(node: &'tree SyntaxNode) -> (r: Self)
        ensures
            r.0 == node,
    {
        Self(node)
    }
}

impl<'tree> TryFrom<&'tree SyntaxNode> for Backslash_RBrace_<'tree> {
    type Error = IncorrectKind<'tree>;

    /// Views `node` as this type if it has this type's kind.
    fn try_from(node: &'tree SyntaxNode) -> (r: NodeResult<'tree, Self>)
        ensures
            node.kind@ == "\\}"@ ==> r == Ok::<Self, IncorrectKind<'tree>>(Self(node)),
            node.kind@ != "\\}"@ ==> r == Err::<Self, IncorrectKind<'tree>>(IncorrectKind { node, kind: Self::KIND }),
    {
        if str_eq(node.kind, Self::KIND) {
            Ok(Self(node))
        } else {
            Err(IncorrectKind { node, kind: Self::KIND })
        }
    }
}

impl<'tree> TryFromSpecImpl<&'tree SyntaxNode> for Backslash_RBrace_<'tree> {
    open spec fn obeys_try_from_spec() -> bool {
        true
    }

    open spec fn try_from_spec(node: &'tree SyntaxNode) -> NodeResult<'tree, Self> {
        if node.kind@ == "\\}"@ {
            Ok(Self(node))
        } else {
            Err(IncorrectKind { node, kind: Self::KIND })
        }
    }
}

/// Typed node `]`
///
/// This node has no children
#[derive(Debug, Clone, Copy, PartialEq, Eq, Hash)]
#[allow(non_camel_case_types)]
pub struct RBracket_<'tree>(pub &'tree SyntaxNode);

impl<'tree> RBracket_<'tree> {
    /// The kind of the nodes of this type.
    pub const KIND: &'static str = "]";

    /// The underlying node.
    pub fn node(&self) -> (r: &&'tree SyntaxNode)
        ensures
            *r == self.0,
    {
        &self.0
    }

    /// The underlying node, to replace in place.
    pub fn node_mut(&mut self) -> (r: &mut &'tree SyntaxNode)
        ensures
            *r == old(self).0,
            final(self).0 == *final(r),
    {
        &mut self.0
    }

    /// The underlying node, giving up the typed view.
    pub fn into_node(self) -> (r: &'tree SyntaxNode)
        ensures
            r == self.0,
    {
        self.0
    }

    /// Views `node` as this type without checking its kind.
    pub fn from_node_unchecked(node: &'tree SyntaxNode) -> (r: Self)
        ensures
            r.0 == node,
    {
        Self(node)
    }
}

impl<'tree> TryFrom<&'tree SyntaxNode> for RBracket_<'tree> {
    type Error = IncorrectKind<'tree>;

    /// Views `node` as this type if it has this type's kind.
    fn try_from(node: &'tree SyntaxNode) -> (r: NodeResult<'tree, Self>)
        ensures
            node.kind@ == "]"@ ==> r == Ok::<Self, IncorrectKind<'tree>>(Self(node)),
            node.kind@ != "]"@ ==> r == Err::<Self, IncorrectKind<'tree>>(IncorrectKind { node, kind: Self::KIND }),
    {
        if str_eq(node.kind, Self::KIND) {
            Ok(Self(node))
        } else {
            Err(IncorrectKind { node, kind: Self::KIND })
        }
    }
}

impl<'tree> TryFromSpecImpl<&'tree SyntaxNode> for RBracket_<'tree> {
    open spec fn obeys_try_from_spec() -> bool {
        true
    }

    open spec fn try_from_spec(node: &'tree SyntaxNode) -> NodeResult<'tree, Self> {
        if node.kind@ == "]"@ {
            Ok(Self(node))
        } else {
            Err(IncorrectKind { node, kind: Self::KIND })
        }
    }
}

/// Typed node `^`
///
/// This node has no children
#[derive(Debug, Clone, Copy, PartialEq, Eq, Hash)]
#[allow(non_camel_case_types)]
pub struct BitXor_<'tree>(pub &'tree SyntaxNode);

impl<'tree> BitXor_<'tree> {
    /// The kind of the nodes of this type.
    pub const KIND: &'static str = "^";

    /// The underlying node.
    pub fn node(&self) -> (r: &&'tree SyntaxNode)
        ensures
            *r == self.0,
    {
        &self.0
    }

    /// The underlying node, to replace in place.
    pub fn node_mut(&mut self) -> (r: &mut &'tree SyntaxNode)
        ensures
            *r == old(self).0,
            final(self).0 == *final(r),
    {
        &mut self.0
    }

    /// The underlying node, giving up the typed view.
    pub fn into_node(self) -> (r: &'tree SyntaxNode)
        ensures
            r == self.0,
    {
        self.0
    }

    /// Views `node` as this type without checking its kind.
    pub fn from_node_unchecked(node: &'tree SyntaxNode) -> (r: Self)
        ensures
            r.0 == node,
    {
        Self(node)
    }
}

impl<'tree> TryFrom<&'tree SyntaxNode> for BitXor_<'tree> {
    type Error = IncorrectKind<'tree>;

    /// Views `node` as this type if it has this type's kind.
    fn try_from(node: &'tree SyntaxNode) -> (r: NodeResult<'tree, Self>)
        ensures
            node.kind@ == "^"@ ==> r == Ok::<Self, IncorrectKind<'tree>>(Self(node)),
            node.kind@ != "^"@ ==> r == Err::<Self, IncorrectKind<'tree>>(IncorrectKind { node, kind: Self::KIND }),
    {
        if str_eq(node.kind, Self::KIND) {
            Ok(Self(node))
        } else {
            Err(IncorrectKind { node, kind: Self::KIND })
        }
    }
}

impl<'tree> TryFromSpecImpl<&'tree SyntaxNode> for BitXor_<'tree> {
    open spec fn obeys_try_from_spec() -> bool {
        true
    }

    open spec fn try_from_spec(node: &'tree SyntaxNode) -> NodeResult<'tree, Self> {
        if node.kind@ == "^"@ {
            Ok(Self(node))
        } else {
            Err(IncorrectKind { node, kind: Self::KIND })
        }
    }
}

/// Typed node `{`
///
/// This node has no children
#[derive(Debug, Clone, Copy, PartialEq, Eq, Hash)]
#[allow(non_camel_case_types)]
pub struct LBrace_<'tree>(pub &'tree SyntaxNode);

impl<'tree> LBrace_<'tree> {
    /// The kind of the nodes of this type.
    pub const KIND: &'static str = "{";

    /// The underlying node.
    pub fn node(&self) -> (r: &&'tree SyntaxNode)
        ensures
            *r == self.0,
    {
        &self.0
    }

    /// The underlying node, to replace in place.
    pub fn node_mut(&mut self) -> (r: &mut &'tree SyntaxNode)
        ensures
            *r == old(self).0,
            final(self).0 == *final(r),
    {
        &mut self.0
    }

    /// The underlying node, giving up the typed view.
    pub fn into_node(self) -> (r: &'tree SyntaxNode)
        ensures
            r == self.0,
    {
        self.0
    }

    /// Views `node` as this type without checking its kind.
    pub fn from_node_unchecked(node: &'tree SyntaxNode) -> (r: Self)
        ensures
            r.0 == node,
    {
        Self(node)
    }
}

impl<'tree> TryFrom<&'tree SyntaxNode> for LBrace_<'tree> {
    type Error = IncorrectKind<'tree>;

    /// Views `node` as this type if it has this type's kind.
    fn try_from(node: &'tree SyntaxNode) -> (r: NodeResult<'tree, Self>)
        ensures
            node.kind@ == "{"@ ==> r == Ok::<Self, IncorrectKind<'tree>>(Self(node)),
            node.kind@ != "{"@ ==> r == Err::<Self, IncorrectKind<'tree>>(IncorrectKind { node, kind: Self::KIND }),
    {
        if str_eq(node.kind, Self::KIND) {
            Ok(Self(node))
        } else {
            Err(IncorrectKind { node, kind: Self::KIND })
        }
    }
}

impl<'tree> TryFromSpecImpl<&'tree SyntaxNode> for LBrace_<'tree> {
    open spec fn obeys_try_from_spec() -> bool {
        true
    }

    open spec fn try_from_spec(node: &'tree SyntaxNode) -> NodeResult<'tree, Self> {
        if node.kind@ == "{"@ {
            Ok(Self(node))
        } else {
            Err(IncorrectKind { node, kind: Self::KIND })
        }
    }
}

/// Typed node `|`
///
/// This node has no children
#[derive(Debug, Clone, Copy, PartialEq, Eq, Hash)]
#[allow(non_camel_case_types)]
pub struct Or_<'tree>(pub &'tree SyntaxNode);

impl<'tree> Or_<'tree> {
    /// The kind of the nodes of this type.
    pub const KIND: &'static str = "|";

    /// The underlying node.
    pub fn node(&self) -> (r: &&'tree SyntaxNode)
        ensures
            *r == self.0,
    {
        &self.0
    }

    /// The underlying node, to replace in place.
    pub fn node_mut(&mut self) -> (r: &mut &'tree SyntaxNode)
        ensures
            *r == old(self).0,
            final(self).0 == *final(r),
    {
        &mut self.0
    }

    /// The underlying node, giving up the typed view.
    pub fn into_node(self) -> (r: &'tree SyntaxNode)
        ensures
            r == self.0,
    {
        self.0
    }

    /// Views `node` as this type without checking its kind.
    pub fn from_node_unchecked(node: &'tree SyntaxNode) -> (r: Self)
        ensures
            r.0 == node,
    {
        Self(node)
    }
}

impl<'tree> TryFrom<&'tree SyntaxNode> for Or_<'tree> {
    type Error = IncorrectKind<'tree>;

    /// Views `node` as this type if it has this type's kind.
    fn try_from(node: &'tree SyntaxNode) -> (r: NodeResult<'tree, Self>)
        ensures
            node.kind@ == "|"@ ==> r == Ok::<Self, IncorrectKind<'tree>>(Self(node)),
            node.kind@ != "|"@ ==> r == Err::<Self, IncorrectKind<'tree>>(IncorrectKind { node, kind: Self::KIND }),
    {
        if str_eq(node.kind, Self::KIND) {
            Ok(Self(node))
        } else {
            Err(IncorrectKind { node, kind: Self::KIND })
        }
    }
}

impl<'tree> TryFromSpecImpl<&'tree SyntaxNode> for Or_<'tree> {
    open spec fn obeys_try_from_spec() -> bool {
        true
    }

    open spec fn try_from_spec(node: &'tree SyntaxNode) -> NodeResult<'tree, Self> {
        if node.kind@ == "|"@ {
            Ok(Self(node))
        } else {
            Err(IncorrectKind { node, kind: Self::KIND })
        }
    }
}

/// Typed node `||`
///
/// This node has no children
#[derive(Debug, Clone, Copy, PartialEq, Eq, Hash)]
#[allow(non_camel_case_types)]
pub struct Or_Or_<'tree>(pub &'tree SyntaxNode);

impl<'tree> Or_Or_<'tree> {
    /// The kind of the nodes of this type.
    pub const KIND: &'static str = "||";

    /// The underlying node.
    pub fn node(&self) -> (r: &&'tree SyntaxNode)
        ensures
            *r == self.0,
    {
        &self.0
    }

    /// The underlying node, to replace in place.
    pub fn node_mut(&mut self) -> (r: &mut &'tree SyntaxNode)
        ensures
            *r == old(self).0,
            final(self).0 == *final(r),
    {
        &mut self.0
    }

    /// The underlying node, giving up the typed view.
    pub fn into_node(self) -> (r: &'tree SyntaxNode)
        ensures
            r == self.0,
    {
        self.0
    }

    /// Views `node` as this type without checking its kind.
    pub fn from_node_unchecked(node: &'tree SyntaxNode) -> (r: Self)
        ensures
            r.0 == node,
    {
        Self(node)
    }
}

impl<'tree> TryFrom<&'tree SyntaxNode> for Or_Or_<'tree> {
    type Error = IncorrectKind<'tree>;

    /// Views `node` as this type if it has this type's kind.
    fn try_from(node: &'tree SyntaxNode) -> (r: NodeResult<'tree, Self>)
        ensures
            node.kind@ == "||"@ ==> r == Ok::<Self, IncorrectKind<'tree>>(Self(node)),
            node.kind@ != "||"@ ==> r == Err::<Self, IncorrectKind<'tree>>(IncorrectKind { node, kind: Self::KIND }),
    {
        if str_eq(node.kind, Self::KIND) {
            Ok(Self(node))
        } else {
            Err(IncorrectKind { node, kind: Self::KIND })
        }
    }
}

impl<'tree> TryFromSpecImpl<&'tree SyntaxNode> for Or_Or_<'tree> {
    open spec fn obeys_try_from_spec() -> bool {
        true
    }

    open spec fn try_from_spec(node: &'tree SyntaxNode) -> NodeResult<'tree, Self> {
        if node.kind@ == "||"@ {
            Ok(Self(node))
        } else {
            Err(IncorrectKind { node, kind: Self::KIND })
        }
    }
}

/// Typed node `}`
///
/// This node has no children
#[derive(Debug, Clone, Copy, PartialEq, Eq, Hash)]
#[allow(non_camel_case_types)]
pub struct RBrace_<'tree>(pub &'tree SyntaxNode);

impl<'tree> RBrace_<'tree> {
    /// The kind of the nodes of this type.
    pub const KIND: &'static str = "}";

    /// The underlying node.
    pub fn node(&self) -> (r: &&'tree SyntaxNode)
        ensures
            *r == self.0,
    {
        &self.0
    }

    /// The underlying node, to replace in place.
    pub fn node_mut(&mut self) -> (r: &mut &'tree SyntaxNode)
        ensures
            *r == old(self).0,
            final(self).0 == *final(r),
    {
        &mut self.0
    }

    /// The underlying node, giving up the typed view.
    pub fn into_node(self) -> (r: &'tree SyntaxNode)
        ensures
            r == self.0,
    {
        self.0
    }

    /// Views `node` as this type without checking its kind.
    pub fn from_node_unchecked(node: &'tree SyntaxNode) -> (r: Self)
        ensures
            r.0 == node,
    {
        Self(node)
    }
}

impl<'tree> TryFrom<&'tree SyntaxNode> for RBrace_<'tree> {
    type Error = IncorrectKind<'tree>;

    /// Views `node` as this type if it has this type's kind.
    fn try_from(node: &'tree SyntaxNode) -> (r: NodeResult<'tree, Self>)
        ensures
            node.kind@ == "}"@ ==> r == Ok::<Self, IncorrectKind<'tree>>(Self(node)),
            node.kind@ != "}"@ ==> r == Err::<Self, IncorrectKind<'tree>>(IncorrectKind { node, kind: Self::KIND }),
    {
        if str_eq(node.kind, Self::KIND) {
            Ok(Self(node))
        } else {
            Err(IncorrectKind { node, kind: Self::KIND })
        }
    }
}

impl<'tree> TryFromSpecImpl<&'tree SyntaxNode> for RBrace_<'tree> {
    open spec fn obeys_try_from_spec() -> bool {
        true
    }

    open spec fn try_from_spec(node: &'tree SyntaxNode) -> NodeResult<'tree, Self> {
        if node.kind@ == "}"@ {
            Ok(Self(node))
        } else {
            Err(IncorrectKind { node, kind: Self::KIND })
        }
    }
}

/// Typed node `~`
///
/// This node has no children
#[derive(Debug, Clone, Copy, PartialEq, Eq, Hash)]
#[allow(non_camel_case_types)]
pub struct BitNot_<'tree>(pub &'tree SyntaxNode);

impl<'tree> BitNot_<'tree> {
    /// The kind of the nodes of this type.
    pub const KIND: &'static str = "~";

    /// The underlying node.
    pub fn node(&self) -> (r: &&'tree SyntaxNode)
        ensures
            *r == self.0,
    {
        &self.0
    }

    /// The underlying node, to replace in place.
    pub fn node_mut(&mut self) -> (r: &mut &'tree SyntaxNode)
        ensures
            *r == old(self).0,
            final(self).0 == *final(r),
    {
        &mut self.0
    }

    /// The underlying node, giving up the typed view.
    pub fn into_node(self) -> (r: &'tree SyntaxNode)
        ensures
            r == self.0,
    {
        self.0
    }

    /// Views `node` as this type without checking its kind.
    pub fn from_node_unchecked(node: &'tree SyntaxNode) -> (r: Self)
        ensures
            r.0 == node,
    {
        Self(node)
    }
}

impl<'tree> TryFrom<&'tree SyntaxNode> for BitNot_<'tree> {
    type Error = IncorrectKind<'tree>;

    /// Views `node` as this type if it has this type's kind.
    fn try_from(node: &'tree SyntaxNode) -> (r: NodeResult<'tree, Self>)
        ensures
            node.kind@ == "~"@ ==> r == Ok::<Self, IncorrectKind<'tree>>(Self(node)),
            node.kind@ != "~"@ ==> r == Err::<Self, IncorrectKind<'tree>>(IncorrectKind { node, kind: Self::KIND }),
    {
        if str_eq(node.kind, Self::KIND) {
            Ok(Self(node))
        } else {
            Err(IncorrectKind { node, kind: Self::KIND })
        }
    }
}

impl<'tree> TryFromSpecImpl<&'tree SyntaxNode> for BitNot_<'tree> {
    open spec fn obeys_try_from_spec() -> bool {
        true
    }

    open spec fn try_from_spec(node: &'tree SyntaxNode) -> NodeResult<'tree, Self> {
        if node.kind@ == "~"@ {
            Ok(Self(node))
        } else {
            Err(IncorrectKind { node, kind: Self::KIND })
        }
    }
}

} // verus!
