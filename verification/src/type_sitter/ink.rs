//! Typed views of the nodes of an ink syntax tree: one type per named node kind, with
//! accessors for the node's fields and children.

pub mod anon_unions;
pub mod symbols;
pub mod unnamed;

use vstd::prelude::*;
use vstd::std_specs::convert::TryFromSpecImpl;
#[allow(unused_imports)]
use crate::syntax::{
    str_eq, typed, typed_all, typed_opt, ExtraOr, IncorrectKind, NodeResult, SyntaxNode,
};

verus! {

/// Typed node `alt_arm`
///
/// This node has children: `{choice_block | code | content | external | global | include | list | todo_comment}*`:
/// - [ChoiceBlock]
/// - [Code]
/// - [Content]
/// - [External]
/// - [Global]
/// - [Include]
/// - [List]
/// - [TodoComment]
#[derive(Debug, Clone, Copy, PartialEq, Eq, Hash)]
#[allow(non_camel_case_types)]
pub struct AltArm<'tree>(pub &'tree SyntaxNode);

impl<'tree> AltArm<'tree> {
    /// The kind of the nodes of this type.
    pub const KIND: &'static str = "alt_arm";

    /// Get the node's named children
    pub fn children(&self) -> (r: Vec<NodeResult<'tree, ExtraOr<'tree, anon_unions::ChoiceBlock_Code_Content_External_Global_Include_List_TodoComment<'tree>>>>)
        ensures
            r.len() == self.0.named_children_spec().len(),
            forall|i: int|
                0 <= i < r.len() ==> r[i] == typed::<ExtraOr<'tree, anon_unions::ChoiceBlock_Code_Content_External_Global_Include_List_TodoComment<'tree>>>(&self.0.named_children_spec()[i]),
    {
        typed_all::<ExtraOr<'tree, anon_unions::ChoiceBlock_Code_Content_External_Global_Include_List_TodoComment<'tree>>>(self.0.named_children())
    }

    /// Get the node's named child #i
    pub fn child(&self, i: usize) -> (r: Option<NodeResult<'tree, ExtraOr<'tree, anon_unions::ChoiceBlock_Code_Content_External_Global_Include_List_TodoComment<'tree>>>>)
        ensures
            i < self.0.named_children_spec().len() ==> r == Some(typed::<ExtraOr<'tree, anon_unions::ChoiceBlock_Code_Content_External_Global_Include_List_TodoComment<'tree>>>(&self.0.named_children_spec()[i as int])),
            i >= self.0.named_children_spec().len() ==> r is None,
    {
        typed_opt::<ExtraOr<'tree, anon_unions::ChoiceBlock_Code_Content_External_Global_Include_List_TodoComment<'tree>>>(self.0.named_child(i))
    }

    /// The underlying node.
    pub fn node(&self) -> (r: &&'tree SyntaxNode)
        ensures
            *r == self.0,
    {
        &self.0
    }

    /// The underlying node, to replace in place.
    pub fn node_mut(&mut self) -> (r: &mut &'tree SyntaxNode)
        ensures
            *r == old(self).0,
            final(self).0 == *final(r),
    {
        &mut self.0
    }

    /// The underlying node, giving up the typed view.
    pub fn into_node(self) -> (r: &'tree SyntaxNode)
        ensures
            r == self.0,
    {
        self.0
    }

    /// Views `node` as this type without checking its kind.
    pub fn from_node_unchecked(node: &'tree SyntaxNode) -> (r: Self)
        ensures
            r.0 == node,
    {
        Self(node)
    }
}

impl<'tree> TryFrom<&'tree SyntaxNode> for AltArm<'tree> {
    type Error = IncorrectKind<'tree>;

    /// Views `node` as this type if it has this type's kind.
    fn try_from(node: &'tree SyntaxNode) -> (r: NodeResult<'tree, Self>)
        ensures
            node.kind@ == "alt_arm"@ ==> r == Ok::<Self, IncorrectKind<'tree>>(Self(node)),
            node.kind@ != "alt_arm"@ ==> r == Err::<Self, IncorrectKind<'tree>>(IncorrectKind { node, kind: Self::KIND }),
    {
        if str_eq(node.kind, Self::KIND) {
            Ok(Self(node))
        } else {
            Err(IncorrectKind { node, kind: Self::KIND })
        }
    }
}

impl<'tree> TryFromSpecImpl<&'tree SyntaxNode> for AltArm<'tree> {
    open spec fn obeys_try_from_spec() -> bool {
        true
    }

    open spec fn try_from_spec(node: &'tree SyntaxNode) -> NodeResult<'tree, Self> {
        if node.kind@ == "alt_arm"@ {
            Ok(Self(node))
        } else {
            Err(IncorrectKind { node, kind: Self::KIND })
        }
    }
}

/// Typed node `alternatives`
///
/// This node has children: `{alternatives | cond_block | conditional_text | content | eval | glue | multiline_alternatives | text}*`:
/// - [Alternatives]
/// - [CondBlock]
/// - [ConditionalText]
/// - [Content]
/// - [Eval]
/// - [Glue]
/// - [MultilineAlternatives]
/// - [Text]
#[derive(Debug, Clone, Copy, PartialEq, Eq, Hash)]
#[allow(non_camel_case_types)]
pub struct Alternatives<'tree>(pub &'tree SyntaxNode);

impl<'tree> Alternatives<'tree> {
    /// The kind of the nodes of this type.
    pub const KIND: &'static str = "alternatives";

    /// Get the node's named children
    pub fn children(&self) -> (r: Vec<NodeResult<'tree, ExtraOr<'tree, anon_unions::Alternatives_CondBlock_ConditionalText_Content_Eval_Glue_MultilineAlternatives_Text<'tree>>>>)
        ensures
            r.len() == self.0.named_children_spec().len(),
            forall|i: int|
                0 <= i < r.len() ==> r[i] == typed::<ExtraOr<'tree, anon_unions::Alternatives_CondBlock_ConditionalText_Content_Eval_Glue_MultilineAlternatives_Text<'tree>>>(&self.0.named_children_spec()[i]),
    {
        typed_all::<ExtraOr<'tree, anon_unions::Alternatives_CondBlock_ConditionalText_Content_Eval_Glue_MultilineAlternatives_Text<'tree>>>(self.0.named_children())
    }

    /// Get the node's named child #i
    pub fn child(&self, i: usize) -> (r: Option<NodeResult<'tree, ExtraOr<'tree, anon_unions::Alternatives_CondBlock_ConditionalText_Content_Eval_Glue_MultilineAlternatives_Text<'tree>>>>)
        ensures
            i < self.0.named_children_spec().len() ==> r == Some(typed::<ExtraOr<'tree, anon_unions::Alternatives_CondBlock_ConditionalText_Content_Eval_Glue_MultilineAlternatives_Text<'tree>>>(&self.0.named_children_spec()[i as int])),
            i >= self.0.named_children_spec().len() ==> r is None,
    {
        typed_opt::<ExtraOr<'tree, anon_unions::Alternatives_CondBlock_ConditionalText_Content_Eval_Glue_MultilineAlternatives_Text<'tree>>>(self.0.named_child(i))
    }

    /// The underlying node.
    pub fn node(&self) -> (r: &&'tree SyntaxNode)
        ensures
            *r == self.0,
    {
        &self.0
    }

    /// The underlying node, to replace in place.
    pub fn node_mut(&mut self) -> (r: &mut &'tree SyntaxNode)
        ensures
            *r == old(self).0,
            final(self).0 == *final(r),
    {
        &mut self.0
    }

    /// The underlying node, giving up the typed view.
    pub fn into_node(self) -> (r: &'tree SyntaxNode)
        ensures
            r == self.0,
    {
        self.0
    }

    /// Views `node` as this type without checking its kind.
    pub fn from_node_unchecked(node: &'tree SyntaxNode) -> (r: Self)
        ensures
            r.0 == node,
    {
        Self(node)
    }
}

impl<'tree> TryFrom<&'tree SyntaxNode> for Alternatives<'tree> {
    type Error = IncorrectKind<'tree>;

    /// Views `node` as this type if it has this type's kind.
    fn try_from(node: &'tree SyntaxNode) -> (r: NodeResult<'tree, Self>)
        ensures
            node.kind@ == "alternatives"@ ==> r == Ok::<Self, IncorrectKind<'tree>>(Self(node)),
            node.kind@ != "alternatives"@ ==> r == Err::<Self, IncorrectKind<'tree>>(IncorrectKind { node, kind: Self::KIND }),
    {
        if str_eq(node.kind, Self::KIND) {
            Ok(Self(node))
        } else {
            Err(IncorrectKind { node, kind: Self::KIND })
        }
    }
}

impl<'tree> TryFromSpecImpl<&'tree SyntaxNode> for Alternatives<'tree> {
    open spec fn obeys_try_from_spec() -> bool {
        true
    }

    open spec fn try_from_spec(node: &'tree SyntaxNode) -> NodeResult<'tree, Self> {
        if node.kind@ == "alternatives"@ {
            Ok(Self(node))
        } else {
            Err(IncorrectKind { node, kind: Self::KIND })
        }
    }
}

/// Typed node `args`
///
/// This node has children: `{binary | boolean | call | divert | identifier | list_values | number | paren | postfix | qualified_name | string | unary}+`:
/// - [Binary]
/// - [Boolean]
/// - [Call]
/// - [Divert]
/// - [Identifier]
/// - [ListValues]
/// - [Number]
/// - [Paren]
/// - [Postfix]
/// - [QualifiedName]
/// - [String]
/// - [Unary]
#[derive(Debug, Clone, Copy, PartialEq, Eq, Hash)]
#[allow(non_camel_case_types)]
pub struct Args<'tree>(pub &'tree SyntaxNode);

impl<'tree> Args<'tree> {
    /// The kind of the nodes of this type.
    pub const KIND: &'static str = "args";

    /// Get the node's named children
    /// For a node that the ink grammar produced, there is at least one child.
    pub fn children(&self) -> (r: Vec<NodeResult<'tree, ExtraOr<'tree, anon_unions::Binary_Boolean_Call_Divert_Identifier_ListValues_Number_Paren_Postfix_QualifiedName_String_Unary<'tree>>>>)
        ensures
            r.len() == self.0.named_children_spec().len(),
            forall|i: int|
                0 <= i < r.len() ==> r[i] == typed::<ExtraOr<'tree, anon_unions::Binary_Boolean_Call_Divert_Identifier_ListValues_Number_Paren_Postfix_QualifiedName_String_Unary<'tree>>>(&self.0.named_children_spec()[i]),
    {
        typed_all::<ExtraOr<'tree, anon_unions::Binary_Boolean_Call_Divert_Identifier_ListValues_Number_Paren_Postfix_QualifiedName_String_Unary<'tree>>>(self.0.named_children())
    }

    /// Get the node's named child #i
    pub fn child(&self, i: usize) -> (r: Option<NodeResult<'tree, ExtraOr<'tree, anon_unions::Binary_Boolean_Call_Divert_Identifier_ListValues_Number_Paren_Postfix_QualifiedName_String_Unary<'tree>>>>)
        ensures
            i < self.0.named_children_spec().len() ==> r == Some(typed::<ExtraOr<'tree, anon_unions::Binary_Boolean_Call_Divert_Identifier_ListValues_Number_Paren_Postfix_QualifiedName_String_Unary<'tree>>>(&self.0.named_children_spec()[i as int])),
            i >= self.0.named_children_spec().len() ==> r is None,
    {
        typed_opt::<ExtraOr<'tree, anon_unions::Binary_Boolean_Call_Divert_Identifier_ListValues_Number_Paren_Postfix_QualifiedName_String_Unary<'tree>>>(self.0.named_child(i))
    }

    /// The underlying node.
    pub fn node(&self) -> (r: &&'tree SyntaxNode)
        ensures
            *r == self.0,
    {
        &self.0
    }

    /// The underlying node, to replace in place.
    pub fn node_mut(&mut self) -> (r: &mut &'tree SyntaxNode)
        ensures
            *r == old(self).0,
            final(self).0 == *final(r),
    {
        &mut self.0
    }

    /// The underlying node, giving up the typed view.
    pub fn into_node(self) -> (r: &'tree SyntaxNode)
        ensures
            r == self.0,
    {
        self.0
    }

    /// Views `node` as this type without checking its kind.
    pub fn from_node_unchecked(node: &'tree SyntaxNode) -> (r: Self)
        ensures
            r.0 == node,
    {
        Self(node)
    }
}

impl<'tree> TryFrom<&'tree SyntaxNode> for Args<'tree> {
    type Error = IncorrectKind<'tree>;

    /// Views `node` as this type if it has this type's kind.
    fn try_from(node: &'tree SyntaxNode) -> (r: NodeResult<'tree, Self>)
        ensures
            node.kind@ == "args"@ ==> r == Ok::<Self, IncorrectKind<'tree>>(Self(node)),
            node.kind@ != "args"@ ==> r == Err::<Self, IncorrectKind<'tree>>(IncorrectKind { node, kind: Self::KIND }),
    {
        if str_eq(node.kind, Self::KIND) {
            Ok(Self(node))
        } else {
            Err(IncorrectKind { node, kind: Self::KIND })
        }
    }
}

impl<'tree> TryFromSpecImpl<&'tree SyntaxNode> for Args<'tree> {
    open spec fn obeys_try_from_spec() -> bool {
        true
    }

    open spec fn try_from_spec(node: &'tree SyntaxNode) -> NodeResult<'tree, Self> {
        if node.kind@ == "args"@ {
            Ok(Self(node))
        } else {
            Err(IncorrectKind { node, kind: Self::KIND })
        }
    }
}

/// Typed node `assignment`
///
/// This node has these fields:
/// - `name`: `identifier` ([Identifier])
/// - `op`: `{+= | -= | =}` ([anon_unions::Add_Eq__Sub_Eq__Eq_])
/// - `value`: `{binary | boolean | call | divert | identifier | list_values | number | paren | postfix | qualified_name | string | unary}` ([anon_unions::Binary_Boolean_Call_Divert_Identifier_ListValues_Number_Paren_Postfix_QualifiedName_String_Unary])
#[derive(Debug, Clone, Copy, PartialEq, Eq, Hash)]
#[allow(non_camel_case_types)]
pub struct Assignment<'tree>(pub &'tree SyntaxNode);

impl<'tree> Assignment<'tree> {
    /// The kind of the nodes of this type.
    pub const KIND: &'static str = "assignment";

    /// Get the field `name` which has kind `identifier` ([Identifier])
    pub fn name(&self) -> (r: NodeResult<'tree, Identifier<'tree>>)
        requires
            self.0.field_children("name"@).len() > 0,
        ensures
            r == typed::<Identifier<'tree>>(&self.0.field_children("name"@)[0]),
    {
        typed_opt::<Identifier<'tree>>(self.0.child_by_field_name("name")).expect(
            "tree-sitter node missing its required child, there should at least be a MISSING node in its place",
        )
    }

    /// Get the field `op` which has kind `{+= | -= | =}` ([anon_unions::Add_Eq__Sub_Eq__Eq_])
    pub fn op(&self) -> (r: NodeResult<'tree, anon_unions::Add_Eq__Sub_Eq__Eq_<'tree>>)
        requires
            self.0.field_children("op"@).len() > 0,
        ensures
            r == typed::<anon_unions::Add_Eq__Sub_Eq__Eq_<'tree>>(&self.0.field_children("op"@)[0]),
    {
        typed_opt::<anon_unions::Add_Eq__Sub_Eq__Eq_<'tree>>(self.0.child_by_field_name("op")).expect(
            "tree-sitter node missing its required child, there should at least be a MISSING node in its place",
        )
    }

    /// Get the field `value` which has kind `{binary | boolean | call | divert | identifier | list_values | number | paren | postfix | qualified_name | string | unary}` ([anon_unions::Binary_Boolean_Call_Divert_Identifier_ListValues_Number_Paren_Postfix_QualifiedName_String_Unary])
    pub fn value(&self) -> (r: NodeResult<'tree, anon_unions::Binary_Boolean_Call_Divert_Identifier_ListValues_Number_Paren_Postfix_QualifiedName_String_Unary<'tree>>)
        requires
            self.0.field_children("value"@).len() > 0,
        ensures
            r == typed::<anon_unions::Binary_Boolean_Call_Divert_Identifier_ListValues_Number_Paren_Postfix_QualifiedName_String_Unary<'tree>>(&self.0.field_children("value"@)[0]),
    {
        typed_opt::<anon_unions::Binary_Boolean_Call_Divert_Identifier_ListValues_Number_Paren_Postfix_QualifiedName_String_Unary<'tree>>(self.0.child_by_field_name("value")).expect(
            "tree-sitter node missing its required child, there should at least be a MISSING node in its place",
        )
    }

    /// The underlying node.
    pub fn node(&self) -> (r: &&'tree SyntaxNode)
        ensures
            *r == self.0,
    {
        &self.0
    }

    /// The underlying node, to replace in place.
    pub fn node_mut(&mut self) -> (r: &mut &'tree SyntaxNode)
        ensures
            *r == old(self).0,
            final(self).0 == *final(r),
    {
        &mut self.0
    }

    /// The underlying node, giving up the typed view.
    pub fn into_node(self) -> (r: &'tree SyntaxNode)
        ensures
            r == self.0,
    {
        self.0
    }

    /// Views `node` as this type without checking its kind.
    pub fn from_node_unchecked(node: &'tree SyntaxNode) -> (r: Self)
        ensures
            r.0 == node,
    {
        Self(node)
    }
}

impl<'tree> TryFrom<&'tree SyntaxNode> for Assignment<'tree> {
    type Error = IncorrectKind<'tree>;

    /// Views `node` as this type if it has this type's kind.
    fn try_from(node: &'tree SyntaxNode) -> (r: NodeResult<'tree, Self>)
        ensures
            node.kind@ == "assignment"@ ==> r == Ok::<Self, IncorrectKind<'tree>>(Self(node)),
            node.kind@ != "assignment"@ ==> r == Err::<Self, IncorrectKind<'tree>>(IncorrectKind { node, kind: Self::KIND }),
    {
        if str_eq(node.kind, Self::KIND) {
            Ok(Self(node))
        } else {
            Err(IncorrectKind { node, kind: Self::KIND })
        }
    }
}

impl<'tree> TryFromSpecImpl<&'tree SyntaxNode> for Assignment<'tree> {
    open spec fn obeys_try_from_spec() -> bool {
        true
    }

    open spec fn try_from_spec(node: &'tree SyntaxNode) -> NodeResult<'tree, Self> {
        if node.kind@ == "assignment"@ {
            Ok(Self(node))
        } else {
            Err(IncorrectKind { node, kind: Self::KIND })
        }
    }
}

/// Typed node `binary`
///
/// This node has these fields:
/// - `op`: `{!= | !? | % | && | * | + | - | / | < | <= | == | > | >= | ? | ^ | and | has | hasnt | mod | or | ||}` ([anon_unions::Not_Eq__Not_Question__Mod__And_And__Mul__Add__Sub__Div__Lt__Lt_Eq__Eq_Eq__Gt__Gt_Eq__Question__BitXor__And_Has_Hasnt_Mod_Or_Or_Or_])
///
/// And additional children: `{binary | boolean | call | divert | identifier | list_values | number | paren | postfix | qualified_name | string | unary}+`:
/// - [Binary]
/// - [Boolean]
/// - [Call]
/// - [Divert]
/// - [Identifier]
/// - [ListValues]
/// - [Number]
/// - [Paren]
/// - [Postfix]
/// - [QualifiedName]
/// - [String]
/// - [Unary]
#[derive(Debug, Clone, Copy, PartialEq, Eq, Hash)]
#[allow(non_camel_case_types)]
pub struct Binary<'tree>(pub &'tree SyntaxNode);

impl<'tree> Binary<'tree> {
    /// The kind of the nodes of this type.
    pub const KIND: &'static str = "binary";

    /// Get the field `op` which has kind `{!= | !? | % | && | * | + | - | / | < | <= | == | > | >= | ? | ^ | and | has | hasnt | mod | or | ||}` ([anon_unions::Not_Eq__Not_Question__Mod__And_And__Mul__Add__Sub__Div__Lt__Lt_Eq__Eq_Eq__Gt__Gt_Eq__Question__BitXor__And_Has_Hasnt_Mod_Or_Or_Or_])
    pub fn op(&self) -> (r: NodeResult<'tree, anon_unions::Not_Eq__Not_Question__Mod__And_And__Mul__Add__Sub__Div__Lt__Lt_Eq__Eq_Eq__Gt__Gt_Eq__Question__BitXor__And_Has_Hasnt_Mod_Or_Or_Or_<'tree>>)
        requires
            self.0.field_children("op"@).len() > 0,
        ensures
            r == typed::<anon_unions::Not_Eq__Not_Question__Mod__And_And__Mul__Add__Sub__Div__Lt__Lt_Eq__Eq_Eq__Gt__Gt_Eq__Question__BitXor__And_Has_Hasnt_Mod_Or_Or_Or_<'tree>>(&self.0.field_children("op"@)[0]),
    {
        typed_opt::<anon_unions::Not_Eq__Not_Question__Mod__And_And__Mul__Add__Sub__Div__Lt__Lt_Eq__Eq_Eq__Gt__Gt_Eq__Question__BitXor__And_Has_Hasnt_Mod_Or_Or_Or_<'tree>>(self.0.child_by_field_name("op")).expect(
            "tree-sitter node missing its required child, there should at least be a MISSING node in its place",
        )
    }

    /// Get the node's named children
    /// For a node that the ink grammar produced, there is at least one child.
    pub fn children(&self) -> (r: Vec<NodeResult<'tree, ExtraOr<'tree, anon_unions::Binary_Boolean_Call_Divert_Identifier_ListValues_Number_Paren_Postfix_QualifiedName_String_Unary_Not_Eq__Not_Question__Mod__And_And__Mul__Add__Sub__Div__Lt__Lt_Eq__Eq_Eq__Gt__Gt_Eq__Question__BitXor__And_Has_Hasnt_Mod_Or_Or_Or_<'tree>>>>)
        ensures
            r.len() == self.0.named_children_spec().len(),
            forall|i: int|
                0 <= i < r.len() ==> r[i] == typed::<ExtraOr<'tree, anon_unions::Binary_Boolean_Call_Divert_Identifier_ListValues_Number_Paren_Postfix_QualifiedName_String_Unary_Not_Eq__Not_Question__Mod__And_And__Mul__Add__Sub__Div__Lt__Lt_Eq__Eq_Eq__Gt__Gt_Eq__Question__BitXor__And_Has_Hasnt_Mod_Or_Or_Or_<'tree>>>(&self.0.named_children_spec()[i]),
    {
        typed_all::<ExtraOr<'tree, anon_unions::Binary_Boolean_Call_Divert_Identifier_ListValues_Number_Paren_Postfix_QualifiedName_String_Unary_Not_Eq__Not_Question__Mod__And_And__Mul__Add__Sub__Div__Lt__Lt_Eq__Eq_Eq__Gt__Gt_Eq__Question__BitXor__And_Has_Hasnt_Mod_Or_Or_Or_<'tree>>>(self.0.named_children())
    }

    /// Get the node's named child #i
    pub fn child(&self, i: usize) -> (r: Option<NodeResult<'tree, ExtraOr<'tree, anon_unions::Binary_Boolean_Call_Divert_Identifier_ListValues_Number_Paren_Postfix_QualifiedName_String_Unary_Not_Eq__Not_Question__Mod__And_And__Mul__Add__Sub__Div__Lt__Lt_Eq__Eq_Eq__Gt__Gt_Eq__Question__BitXor__And_Has_Hasnt_Mod_Or_Or_Or_<'tree>>>>)
        ensures
            i < self.0.named_children_spec().len() ==> r == Some(typed::<ExtraOr<'tree, anon_unions::Binary_Boolean_Call_Divert_Identifier_ListValues_Number_Paren_Postfix_QualifiedName_String_Unary_Not_Eq__Not_Question__Mod__And_And__Mul__Add__Sub__Div__Lt__Lt_Eq__Eq_Eq__Gt__Gt_Eq__Question__BitXor__And_Has_Hasnt_Mod_Or_Or_Or_<'tree>>>(&self.0.named_children_spec()[i as int])),
            i >= self.0.named_children_spec().len() ==> r is None,
    {
        typed_opt::<ExtraOr<'tree, anon_unions::Binary_Boolean_Call_Divert_Identifier_ListValues_Number_Paren_Postfix_QualifiedName_String_Unary_Not_Eq__Not_Question__Mod__And_And__Mul__Add__Sub__Div__Lt__Lt_Eq__Eq_Eq__Gt__Gt_Eq__Question__BitXor__And_Has_Hasnt_Mod_Or_Or_Or_<'tree>>>(self.0.named_child(i))
    }

    /// The underlying node.
    pub fn node(&self) -> (r: &&'tree SyntaxNode)
        ensures
            *r == self.0,
    {
        &self.0
    }

    /// The underlying node, to replace in place.
    pub fn node_mut(&mut self) -> (r: &mut &'tree SyntaxNode)
        ensures
            *r == old(self).0,
            final(self).0 == *final(r),
    {
        &mut self.0
    }

    /// The underlying node, giving up the typed view.
    pub fn into_node(self) -> (r: &'tree SyntaxNode)
        ensures
            r == self.0,
    {
        self.0
    }

    /// Views `node` as this type without checking its kind.
    pub fn from_node_unchecked(node: &'tree SyntaxNode) -> (r: Self)
        ensures
            r.0 == node,
    {
        Self(node)
    }
}

impl<'tree> TryFrom<&'tree SyntaxNode> for Binary<'tree> {
    type Error = IncorrectKind<'tree>;

    /// Views `node` as this type if it has this type's kind.
    fn try_from(node: &'tree SyntaxNode) -> (r: NodeResult<'tree, Self>)
        ensures
            node.kind@ == "binary"@ ==> r == Ok::<Self, IncorrectKind<'tree>>(Self(node)),
            node.kind@ != "binary"@ ==> r == Err::<Self, IncorrectKind<'tree>>(IncorrectKind { node, kind: Self::KIND }),
    {
        if str_eq(node.kind, Self::KIND) {
            Ok(Self(node))
        } else {
            Err(IncorrectKind { node, kind: Self::KIND })
        }
    }
}

impl<'tree> TryFromSpecImpl<&'tree SyntaxNode> for Binary<'tree> {
    open spec fn obeys_try_from_spec() -> bool {
        true
    }

    open spec fn try_from_spec(node: &'tree SyntaxNode) -> NodeResult<'tree, Self> {
        if node.kind@ == "binary"@ {
            Ok(Self(node))
        } else {
            Err(IncorrectKind { node, kind: Self::KIND })
        }
    }
}

/// Typed node `boolean`
///
/// This node has no children
#[derive(Debug, Clone, Copy, PartialEq, Eq, Hash)]
#[allow(non_camel_case_types)]
pub struct Boolean<'tree>(pub &'tree SyntaxNode);

impl<'tree> Boolean<'tree> {
    /// The kind of the nodes of this type.
    pub const KIND: &'static str = "boolean";

    /// The underlying node.
    pub fn node(&self) -> (r: &&'tree SyntaxNode)
        ensures
            *r == self.0,
    {
        &self.0
    }

    /// The underlying node, to replace in place.
    pub fn node_mut(&mut self) -> (r: &mut &'tree SyntaxNode)
        ensures
            *r == old(self).0,
            final(self).0 == *final(r),
    {
        &mut self.0
    }

    /// The underlying node, giving up the typed view.
    pub fn into_node(self) -> (r: &'tree SyntaxNode)
        ensures
            r == self.0,
    {
        self.0
    }

    /// Views `node` as this type without checking its kind.
    pub fn from_node_unchecked(node: &'tree SyntaxNode) -> (r: Self)
        ensures
            r.0 == node,
    {
        Self(node)
    }
}

impl<'tree> TryFrom<&'tree SyntaxNode> for Boolean<'tree> {
    type Error = IncorrectKind<'tree>;

    /// Views `node` as this type if it has this type's kind.
    fn try_from(node: &'tree SyntaxNode) -> (r: NodeResult<'tree, Self>)
        ensures
            node.kind@ == "boolean"@ ==> r == Ok::<Self, IncorrectKind<'tree>>(Self(node)),
            node.kind@ != "boolean"@ ==> r == Err::<Self, IncorrectKind<'tree>>(IncorrectKind { node, kind: Self::KIND }),
    {
        if str_eq(node.kind, Self::KIND) {
            Ok(Self(node))
        } else {
            Err(IncorrectKind { node, kind: Self::KIND })
        }
    }
}

impl<'tree> TryFromSpecImpl<&'tree SyntaxNode> for Boolean<'tree> {
    open spec fn obeys_try_from_spec() -> bool {
        true
    }

    open spec fn try_from_spec(node: &'tree SyntaxNode) -> NodeResult<'tree, Self> {
        if node.kind@ == "boolean"@ {
            Ok(Self(node))
        } else {
            Err(IncorrectKind { node, kind: Self::KIND })
        }
    }
}

/// Typed node `call`
///
/// This node has these fields:
/// - `args`: `args?` ([Args])
/// - `name`: `{identifier | qualified_name}` ([anon_unions::Identifier_QualifiedName])
#[derive(Debug, Clone, Copy, PartialEq, Eq, Hash)]
#[allow(non_camel_case_types)]
pub struct Call<'tree>(pub &'tree SyntaxNode);

impl<'tree> Call<'tree> {
    /// The kind of the nodes of this type.
    pub const KIND: &'static str = "call";

    /// Get the field `args` which has kind `args?` ([Args])
    pub fn args(&self) -> (r: Option<NodeResult<'tree, Args<'tree>>>)
        ensures
            self.0.field_children("args"@).len() > 0 ==> r == Some(typed::<Args<'tree>>(&self.0.field_children("args"@)[0])),
            self.0.field_children("args"@).len() == 0 ==> r is None,
    {
        typed_opt::<Args<'tree>>(self.0.child_by_field_name("args"))
    }

    /// Get the field `name` which has kind `{identifier | qualified_name}` ([anon_unions::Identifier_QualifiedName])
    pub fn name(&self) -> (r: NodeResult<'tree, anon_unions::Identifier_QualifiedName<'tree>>)
        requires
            self.0.field_children("name"@).len() > 0,
        ensures
            r == typed::<anon_unions::Identifier_QualifiedName<'tree>>(&self.0.field_children("name"@)[0]),
    {
        typed_opt::<anon_unions::Identifier_QualifiedName<'tree>>(self.0.child_by_field_name("name")).expect(
            "tree-sitter node missing its required child, there should at least be a MISSING node in its place",
        )
    }

    /// The underlying node.
    pub fn node(&self) -> (r: &&'tree SyntaxNode)
        ensures
            *r == self.0,
    {
        &self.0
    }

    /// The underlying node, to replace in place.
    pub fn node_mut(&mut self) -> (r: &mut &'tree SyntaxNode)
        ensures
            *r == old(self).0,
            final(self).0 == *final(r),
    {
        &mut self.0
    }

    /// The underlying node, giving up the typed view.
    pub fn into_node(self) -> (r: &'tree SyntaxNode)
        ensures
            r == self.0,
    {
        self.0
    }

    /// Views `node` as this type without checking its kind.
    pub fn from_node_unchecked(node: &'tree SyntaxNode) -> (r: Self)
        ensures
            r.0 == node,
    {
        Self(node)
    }
}

impl<'tree> TryFrom<&'tree SyntaxNode> for Call<'tree> {
    type Error = IncorrectKind<'tree>;

    /// Views `node` as this type if it has this type's kind.
    fn try_from(node: &'tree SyntaxNode) -> (r: NodeResult<'tree, Self>)
        ensures
            node.kind@ == "call"@ ==> r == Ok::<Self, IncorrectKind<'tree>>(Self(node)),
            node.kind@ != "call"@ ==> r == Err::<Self, IncorrectKind<'tree>>(IncorrectKind { node, kind: Self::KIND }),
    {
        if str_eq(node.kind, Self::KIND) {
            Ok(Self(node))
        } else {
            Err(IncorrectKind { node, kind: Self::KIND })
        }
    }
}

impl<'tree> TryFromSpecImpl<&'tree SyntaxNode> for Call<'tree> {
    open spec fn obeys_try_from_spec() -> bool {
        true
    }

    open spec fn try_from_spec(node: &'tree SyntaxNode) -> NodeResult<'tree, Self> {
        if node.kind@ == "call"@ {
            Ok(Self(node))
        } else {
            Err(IncorrectKind { node, kind: Self::KIND })
        }
    }
}

/// Typed node `choice`
///
/// This node has these fields:
/// - `condition`: `{binary | boolean | call | divert | identifier | list_values | number | paren | postfix | qualified_name | string | unary | { | }}*` ([anon_unions::Binary_Boolean_Call_Divert_Identifier_ListValues_Number_Paren_Postfix_QualifiedName_String_Unary_LBrace__RBrace_])
/// - `final`: `content?` ([Content])
/// - `label`: `{( | ) | identifier}*` ([anon_unions::LParen__RParen__Identifier])
/// - `main`: `content?` ([Content])
/// - `temporary`: `content?` ([Content])
#[derive(Debug, Clone, Copy, PartialEq, Eq, Hash)]
#[allow(non_camel_case_types)]
pub struct Choice<'tree>(pub &'tree SyntaxNode);

impl<'tree> Choice<'tree> {
    /// The kind of the nodes of this type.
    pub const KIND: &'static str = "choice";

    /// Get the field `condition` which has kind `{binary | boolean | call | divert | identifier | list_values | number | paren | postfix | qualified_name | string | unary | { | }}*` ([anon_unions::Binary_Boolean_Call_Divert_Identifier_ListValues_Number_Paren_Postfix_QualifiedName_String_Unary_LBrace__RBrace_])
    pub fn conditions(&self) -> (r: Vec<NodeResult<'tree, ExtraOr<'tree, anon_unions::Binary_Boolean_Call_Divert_Identifier_ListValues_Number_Paren_Postfix_QualifiedName_String_Unary_LBrace__RBrace_<'tree>>>>)
        ensures
            r.len() == self.0.field_children("condition"@).len(),
            forall|i: int|
                0 <= i < r.len() ==> r[i] == typed::<ExtraOr<'tree, anon_unions::Binary_Boolean_Call_Divert_Identifier_ListValues_Number_Paren_Postfix_QualifiedName_String_Unary_LBrace__RBrace_<'tree>>>(&self.0.field_children("condition"@)[i]),
    {
        typed_all::<ExtraOr<'tree, anon_unions::Binary_Boolean_Call_Divert_Identifier_ListValues_Number_Paren_Postfix_QualifiedName_String_Unary_LBrace__RBrace_<'tree>>>(self.0.children_by_field_name("condition"))
    }

    /// Get the field `final` which has kind `content?` ([Content])
    pub fn final_(&self) -> (r: Option<NodeResult<'tree, Content<'tree>>>)
        ensures
            self.0.field_children("final"@).len() > 0 ==> r == Some(typed::<Content<'tree>>(&self.0.field_children("final"@)[0])),
            self.0.field_children("final"@).len() == 0 ==> r is None,
    {
        typed_opt::<Content<'tree>>(self.0.child_by_field_name("final"))
    }

    /// Get the field `label` which has kind `{( | ) | identifier}*` ([anon_unions::LParen__RParen__Identifier])
    pub fn labels(&self) -> (r: Vec<NodeResult<'tree, ExtraOr<'tree, anon_unions::LParen__RParen__Identifier<'tree>>>>)
        ensures
            r.len() == self.0.field_children("label"@).len(),
            forall|i: int|
                0 <= i < r.len() ==> r[i] == typed::<ExtraOr<'tree, anon_unions::LParen__RParen__Identifier<'tree>>>(&self.0.field_children("label"@)[i]),
    {
        typed_all::<ExtraOr<'tree, anon_unions::LParen__RParen__Identifier<'tree>>>(self.0.children_by_field_name("label"))
    }

    /// Get the field `main` which has kind `content?` ([Content])
    pub fn main(&self) -> (r: Option<NodeResult<'tree, Content<'tree>>>)
        ensures
            self.0.field_children("main"@).len() > 0 ==> r == Some(typed::<Content<'tree>>(&self.0.field_children("main"@)[0])),
            self.0.field_children("main"@).len() == 0 ==> r is None,
    {
        typed_opt::<Content<'tree>>(self.0.child_by_field_name("main"))
    }

    /// Get the field `temporary` which has kind `content?` ([Content])
    pub fn temporary(&self) -> (r: Option<NodeResult<'tree, Content<'tree>>>)
        ensures
            self.0.field_children("temporary"@).len() > 0 ==> r == Some(typed::<Content<'tree>>(&self.0.field_children("temporary"@)[0])),
            self.0.field_children("temporary"@).len() == 0 ==> r is None,
    {
        typed_opt::<Content<'tree>>(self.0.child_by_field_name("temporary"))
    }

    /// The underlying node.
    pub fn node(&self) -> (r: &&'tree SyntaxNode)
        ensures
            *r == self.0,
    {
        &self.0
    }

    /// The underlying node, to replace in place.
    pub fn node_mut(&mut self) -> (r: &mut &'tree SyntaxNode)
        ensures
            *r == old(self).0,
            final(self).0 == *final(r),
    {
        &mut self.0
    }

    /// The underlying node, giving up the typed view.
    pub fn into_node(self) -> (r: &'tree SyntaxNode)
        ensures
            r == self.0,
    {
        self.0
    }

    /// Views `node` as this type without checking its kind.
    pub fn from_node_unchecked(node: &'tree SyntaxNode) -> (r: Self)
        ensures
            r.0 == node,
    {
        Self(node)
    }
}

impl<'tree> TryFrom<&'tree SyntaxNode> for Choice<'tree> {
    type Error = IncorrectKind<'tree>;

    /// Views `node` as this type if it has this type's kind.
    fn try_from(node: &'tree SyntaxNode) -> (r: NodeResult<'tree, Self>)
        ensures
            node.kind@ == "choice"@ ==> r == Ok::<Self, IncorrectKind<'tree>>(Self(node)),
            node.kind@ != "choice"@ ==> r == Err::<Self, IncorrectKind<'tree>>(IncorrectKind { node, kind: Self::KIND }),
    {
        if str_eq(node.kind, Self::KIND) {
            Ok(Self(node))
        } else {
            Err(IncorrectKind { node, kind: Self::KIND })
        }
    }
}

impl<'tree> TryFromSpecImpl<&'tree SyntaxNode> for Choice<'tree> {
    open spec fn obeys_try_from_spec() -> bool {
        true
    }

    open spec fn try_from_spec(node: &'tree SyntaxNode) -> NodeResult<'tree, Self> {
        if node.kind@ == "choice"@ {
            Ok(Self(node))
        } else {
            Err(IncorrectKind { node, kind: Self::KIND })
        }
    }
}

/// Typed node `choice_block`
///
/// This node has children: `{choice | choice_block | code | comment | content | external | gather_block | global | include | list | todo_comment}+`:
/// - [Choice]
/// - [ChoiceBlock]
/// - [Code]
/// - [Comment]
/// - [Content]
/// - [External]
/// - [GatherBlock]
/// - [Global]
/// - [Include]
/// - [List]
/// - [TodoComment]
#[derive(Debug, Clone, Copy, PartialEq, Eq, Hash)]
#[allow(non_camel_case_types)]
pub struct ChoiceBlock<'tree>(pub &'tree SyntaxNode);

impl<'tree> ChoiceBlock<'tree> {
    /// The kind of the nodes of this type.
    pub const KIND: &'static str = "choice_block";

    /// Get the node's named children
    /// For a node that the ink grammar produced, there is at least one child.
    pub fn children(&self) -> (r: Vec<NodeResult<'tree, ExtraOr<'tree, anon_unions::Choice_ChoiceBlock_Code_Comment_Content_External_GatherBlock_Global_Include_List_TodoComment<'tree>>>>)
        ensures
            r.len() == self.0.named_children_spec().len(),
            forall|i: int|
                0 <= i < r.len() ==> r[i] == typed::<ExtraOr<'tree, anon_unions::Choice_ChoiceBlock_Code_Comment_Content_External_GatherBlock_Global_Include_List_TodoComment<'tree>>>(&self.0.named_children_spec()[i]),
    {
        typed_all::<ExtraOr<'tree, anon_unions::Choice_ChoiceBlock_Code_Comment_Content_External_GatherBlock_Global_Include_List_TodoComment<'tree>>>(self.0.named_children())
    }

    /// Get the node's named child #i
    pub fn child(&self, i: usize) -> (r: Option<NodeResult<'tree, ExtraOr<'tree, anon_unions::Choice_ChoiceBlock_Code_Comment_Content_External_GatherBlock_Global_Include_List_TodoComment<'tree>>>>)
        ensures
            i < self.0.named_children_spec().len() ==> r == Some(typed::<ExtraOr<'tree, anon_unions::Choice_ChoiceBlock_Code_Comment_Content_External_GatherBlock_Global_Include_List_TodoComment<'tree>>>(&self.0.named_children_spec()[i as int])),
            i >= self.0.named_children_spec().len() ==> r is None,
    {
        typed_opt::<ExtraOr<'tree, anon_unions::Choice_ChoiceBlock_Code_Comment_Content_External_GatherBlock_Global_Include_List_TodoComment<'tree>>>(self.0.named_child(i))
    }

    /// The underlying node.
    pub fn node(&self) -> (r: &&'tree SyntaxNode)
        ensures
            *r == self.0,
    {
        &self.0
    }

    /// The underlying node, to replace in place.
    pub fn node_mut(&mut self) -> (r: &mut &'tree SyntaxNode)
        ensures
            *r == old(self).0,
            final(self).0 == *final(r),
    {
        &mut self.0
    }

    /// The underlying node, giving up the typed view.
    pub fn into_node(self) -> (r: &'tree SyntaxNode)
        ensures
            r == self.0,
    {
        self.0
    }

    /// Views `node` as this type without checking its kind.
    pub fn from_node_unchecked(node: &'tree SyntaxNode) -> (r: Self)
        ensures
            r.0 == node,
    {
        Self(node)
    }
}

impl<'tree> TryFrom<&'tree SyntaxNode> for ChoiceBlock<'tree> {
    type Error = IncorrectKind<'tree>;

    /// Views `node` as this type if it has this type's kind.
    fn try_from(node: &'tree SyntaxNode) -> (r: NodeResult<'tree, Self>)
        ensures
            node.kind@ == "choice_block"@ ==> r == Ok::<Self, IncorrectKind<'tree>>(Self(node)),
            node.kind@ != "choice_block"@ ==> r == Err::<Self, IncorrectKind<'tree>>(IncorrectKind { node, kind: Self::KIND }),
    {
        if str_eq(node.kind, Self::KIND) {
            Ok(Self(node))
        } else {
            Err(IncorrectKind { node, kind: Self::KIND })
        }
    }
}

impl<'tree> TryFromSpecImpl<&'tree SyntaxNode> for ChoiceBlock<'tree> {
    open spec fn obeys_try_from_spec() -> bool {
        true
    }

    open spec fn try_from_spec(node: &'tree SyntaxNode) -> NodeResult<'tree, Self> {
        if node.kind@ == "choice_block"@ {
            Ok(Self(node))
        } else {
            Err(IncorrectKind { node, kind: Self::KIND })
        }
    }
}

/// Typed node `code`
///
/// This node has a child: `{assignment | binary | boolean | call | divert | identifier | list_values | number | paren | postfix | qualified_name | return | string | temp | unary}`:
/// - [Assignment]
/// - [Binary]
/// - [Boolean]
/// - [Call]
/// - [Divert]
/// - [Identifier]
/// - [ListValues]
/// - [Number]
/// - [Paren]
/// - [Postfix]
/// - [QualifiedName]
/// - [Return]
/// - [String]
/// - [Temp]
/// - [Unary]
#[derive(Debug, Clone, Copy, PartialEq, Eq, Hash)]
#[allow(non_camel_case_types)]
pub struct Code<'tree>(pub &'tree SyntaxNode);

impl<'tree> Code<'tree> {
    /// The kind of the nodes of this type.
    pub const KIND: &'static str = "code";

    /// Get the node's only named child
    pub fn child(&self) -> (r: NodeResult<'tree, anon_unions::Assignment_Binary_Boolean_Call_Divert_Identifier_ListValues_Number_Paren_Postfix_QualifiedName_Return_String_Temp_Unary<'tree>>)
        requires
            self.0.named_children_spec().len() > 0,
        ensures
            r == typed::<anon_unions::Assignment_Binary_Boolean_Call_Divert_Identifier_ListValues_Number_Paren_Postfix_QualifiedName_Return_String_Temp_Unary<'tree>>(&self.0.named_children_spec()[0]),
    {
        typed_opt::<anon_unions::Assignment_Binary_Boolean_Call_Divert_Identifier_ListValues_Number_Paren_Postfix_QualifiedName_Return_String_Temp_Unary<'tree>>(self.0.named_child(0)).expect(
            "tree-sitter node missing its required child, there should at least be a MISSING node in its place",
        )
    }

    /// The underlying node.
    pub fn node(&self) -> (r: &&'tree SyntaxNode)
        ensures
            *r == self.0,
    {
        &self.0
    }

    /// The underlying node, to replace in place.
    pub fn node_mut(&mut self) -> (r: &mut &'tree SyntaxNode)
        ensures
            *r == old(self).0,
            final(self).0 == *final(r),
    {
        &mut self.0
    }

    /// The underlying node, giving up the typed view.
    pub fn into_node(self) -> (r: &'tree SyntaxNode)
        ensures
            r == self.0,
    {
        self.0
    }

    /// Views `node` as this type without checking its kind.
    pub fn from_node_unchecked(node: &'tree SyntaxNode) -> (r: Self)
        ensures
            r.0 == node,
    {
        Self(node)
    }
}

impl<'tree> TryFrom<&'tree SyntaxNode> for Code<'tree> {
    type Error = IncorrectKind<'tree>;

    /// Views `node` as this type if it has this type's kind.
    fn try_from(node: &'tree SyntaxNode) -> (r: NodeResult<'tree, Self>)
        ensures
            node.kind@ == "code"@ ==> r == Ok::<Self, IncorrectKind<'tree>>(Self(node)),
            node.kind@ != "code"@ ==> r == Err::<Self, IncorrectKind<'tree>>(IncorrectKind { node, kind: Self::KIND }),
    {
        if str_eq(node.kind, Self::KIND) {
            Ok(Self(node))
        } else {
            Err(IncorrectKind { node, kind: Self::KIND })
        }
    }
}

impl<'tree> TryFromSpecImpl<&'tree SyntaxNode> for Code<'tree> {
    open spec fn obeys_try_from_spec() -> bool {
        true
    }

    open spec fn try_from_spec(node: &'tree SyntaxNode) -> NodeResult<'tree, Self> {
        if node.kind@ == "code"@ {
            Ok(Self(node))
        } else {
            Err(IncorrectKind { node, kind: Self::KIND })
        }
    }
}

/// Typed node `cond_arm`
///
/// This node has these fields:
/// - `condition`: `{binary | boolean | call | divert | else | identifier | list_values | number | paren | postfix | qualified_name | string | unary}` ([anon_unions::Binary_Boolean_Call_Divert_Else_Identifier_ListValues_Number_Paren_Postfix_QualifiedName_String_Unary])
///
/// And additional children: `{choice_block | code | content | external | global | include | list | todo_comment}*`:
/// - [ChoiceBlock]
/// - [Code]
/// - [Content]
/// - [External]
/// - [Global]
/// - [Include]
/// - [List]
/// - [TodoComment]
#[derive(Debug, Clone, Copy, PartialEq, Eq, Hash)]
#[allow(non_camel_case_types)]
pub struct CondArm<'tree>(pub &'tree SyntaxNode);

impl<'tree> CondArm<'tree> {
    /// The kind of the nodes of this type.
    pub const KIND: &'static str = "cond_arm";

    /// Get the field `condition` which has kind `{binary | boolean | call | divert | else | identifier | list_values | number | paren | postfix | qualified_name | string | unary}` ([anon_unions::Binary_Boolean_Call_Divert_Else_Identifier_ListValues_Number_Paren_Postfix_QualifiedName_String_Unary])
    pub fn condition(&self) -> (r: NodeResult<'tree, anon_unions::Binary_Boolean_Call_Divert_Else_Identifier_ListValues_Number_Paren_Postfix_QualifiedName_String_Unary<'tree>>)
        requires
            self.0.field_children("condition"@).len() > 0,
        ensures
            r == typed::<anon_unions::Binary_Boolean_Call_Divert_Else_Identifier_ListValues_Number_Paren_Postfix_QualifiedName_String_Unary<'tree>>(&self.0.field_children("condition"@)[0]),
    {
        typed_opt::<anon_unions::Binary_Boolean_Call_Divert_Else_Identifier_ListValues_Number_Paren_Postfix_QualifiedName_String_Unary<'tree>>(self.0.child_by_field_name("condition")).expect(
            "tree-sitter node missing its required child, there should at least be a MISSING node in its place",
        )
    }

    /// Get the node's named children
    /// For a node that the ink grammar produced, there is at least one child.
    pub fn children(&self) -> (r: Vec<NodeResult<'tree, ExtraOr<'tree, anon_unions::ChoiceBlock_Code_Content_External_Global_Include_List_TodoComment_Binary_Boolean_Call_Divert_Else_Identifier_ListValues_Number_Paren_Postfix_QualifiedName_String_Unary<'tree>>>>)
        ensures
            r.len() == self.0.named_children_spec().len(),
            forall|i: int|
                0 <= i < r.len() ==> r[i] == typed::<ExtraOr<'tree, anon_unions::ChoiceBlock_Code_Content_External_Global_Include_List_TodoComment_Binary_Boolean_Call_Divert_Else_Identifier_ListValues_Number_Paren_Postfix_QualifiedName_String_Unary<'tree>>>(&self.0.named_children_spec()[i]),
    {
        typed_all::<ExtraOr<'tree, anon_unions::ChoiceBlock_Code_Content_External_Global_Include_List_TodoComment_Binary_Boolean_Call_Divert_Else_Identifier_ListValues_Number_Paren_Postfix_QualifiedName_String_Unary<'tree>>>(self.0.named_children())
    }

    /// Get the node's named child #i
    pub fn child(&self, i: usize) -> (r: Option<NodeResult<'tree, ExtraOr<'tree, anon_unions::ChoiceBlock_Code_Content_External_Global_Include_List_TodoComment_Binary_Boolean_Call_Divert_Else_Identifier_ListValues_Number_Paren_Postfix_QualifiedName_String_Unary<'tree>>>>)
        ensures
            i < self.0.named_children_spec().len() ==> r == Some(typed::<ExtraOr<'tree, anon_unions::ChoiceBlock_Code_Content_External_Global_Include_List_TodoComment_Binary_Boolean_Call_Divert_Else_Identifier_ListValues_Number_Paren_Postfix_QualifiedName_String_Unary<'tree>>>(&self.0.named_children_spec()[i as int])),
            i >= self.0.named_children_spec().len() ==> r is None,
    {
        typed_opt::<ExtraOr<'tree, anon_unions::ChoiceBlock_Code_Content_External_Global_Include_List_TodoComment_Binary_Boolean_Call_Divert_Else_Identifier_ListValues_Number_Paren_Postfix_QualifiedName_String_Unary<'tree>>>(self.0.named_child(i))
    }

    /// The underlying node.
    pub fn node(&self) -> (r: &&'tree SyntaxNode)
        ensures
            *r == self.0,
    {
        &self.0
    }

    /// The underlying node, to replace in place.
    pub fn node_mut(&mut self) -> (r: &mut &'tree SyntaxNode)
        ensures
            *r == old(self).0,
            final(self).0 == *final(r),
    {
        &mut self.0
    }

    /// The underlying node, giving up the typed view.
    pub fn into_node(self) -> (r: &'tree SyntaxNode)
        ensures
            r == self.0,
    {
        self.0
    }

    /// Views `node` as this type without checking its kind.
    pub fn from_node_unchecked(node: &'tree SyntaxNode) -> (r: Self)
        ensures
            r.0 == node,
    {
        Self(node)
    }
}

impl<'tree> TryFrom<&'tree SyntaxNode> for CondArm<'tree> {
    type Error = IncorrectKind<'tree>;

    /// Views `node` as this type if it has this type's kind.
    fn try_from(node: &'tree SyntaxNode) -> (r: NodeResult<'tree, Self>)
        ensures
            node.kind@ == "cond_arm"@ ==> r == Ok::<Self, IncorrectKind<'tree>>(Self(node)),
            node.kind@ != "cond_arm"@ ==> r == Err::<Self, IncorrectKind<'tree>>(IncorrectKind { node, kind: Self::KIND }),
    {
        if str_eq(node.kind, Self::KIND) {
            Ok(Self(node))
        } else {
            Err(IncorrectKind { node, kind: Self::KIND })
        }
    }
}

impl<'tree> TryFromSpecImpl<&'tree SyntaxNode> for CondArm<'tree> {
    open spec fn obeys_try_from_spec() -> bool {
        true
    }

    open spec fn try_from_spec(node: &'tree SyntaxNode) -> NodeResult<'tree, Self> {
        if node.kind@ == "cond_arm"@ {
            Ok(Self(node))
        } else {
            Err(IncorrectKind { node, kind: Self::KIND })
        }
    }
}

/// Typed node `cond_block`
///
/// This node has children: `cond_arm*` ([CondArm])
#[derive(Debug, Clone, Copy, PartialEq, Eq, Hash)]
#[allow(non_camel_case_types)]
pub struct CondBlock<'tree>(pub &'tree SyntaxNode);

impl<'tree> CondBlock<'tree> {
    /// The kind of the nodes of this type.
    pub const KIND: &'static str = "cond_block";

    /// Get the node's named children
    pub fn children(&self) -> (r: Vec<NodeResult<'tree, ExtraOr<'tree, CondArm<'tree>>>>)
        ensures
            r.len() == self.0.named_children_spec().len(),
            forall|i: int|
                0 <= i < r.len() ==> r[i] == typed::<ExtraOr<'tree, CondArm<'tree>>>(&self.0.named_children_spec()[i]),
    {
        typed_all::<ExtraOr<'tree, CondArm<'tree>>>(self.0.named_children())
    }

    /// Get the node's named child #i
    pub fn child(&self, i: usize) -> (r: Option<NodeResult<'tree, ExtraOr<'tree, CondArm<'tree>>>>)
        ensures
            i < self.0.named_children_spec().len() ==> r == Some(typed::<ExtraOr<'tree, CondArm<'tree>>>(&self.0.named_children_spec()[i as int])),
            i >= self.0.named_children_spec().len() ==> r is None,
    {
        typed_opt::<ExtraOr<'tree, CondArm<'tree>>>(self.0.named_child(i))
    }

    /// The underlying node.
    pub fn node(&self) -> (r: &&'tree SyntaxNode)
        ensures
            *r == self.0,
    {
        &self.0
    }

    /// The underlying node, to replace in place.
    pub fn node_mut(&mut self) -> (r: &mut &'tree SyntaxNode)
        ensures
            *r == old(self).0,
            final(self).0 == *final(r),
    {
        &mut self.0
    }

    /// The underlying node, giving up the typed view.
    pub fn into_node(self) -> (r: &'tree SyntaxNode)
        ensures
            r == self.0,
    {
        self.0
    }

    /// Views `node` as this type without checking its kind.
    pub fn from_node_unchecked(node: &'tree SyntaxNode) -> (r: Self)
        ensures
            r.0 == node,
    {
        Self(node)
    }
}

impl<'tree> TryFrom<&'tree SyntaxNode> for CondBlock<'tree> {
    type Error = IncorrectKind<'tree>;

    /// Views `node` as this type if it has this type's kind.
    fn try_from(node: &'tree SyntaxNode) -> (r: NodeResult<'tree, Self>)
        ensures
            node.kind@ == "cond_block"@ ==> r == Ok::<Self, IncorrectKind<'tree>>(Self(node)),
            node.kind@ != "cond_block"@ ==> r == Err::<Self, IncorrectKind<'tree>>(IncorrectKind { node, kind: Self::KIND }),
    {
        if str_eq(node.kind, Self::KIND) {
            Ok(Self(node))
        } else {
            Err(IncorrectKind { node, kind: Self::KIND })
        }
    }
}

impl<'tree> TryFromSpecImpl<&'tree SyntaxNode> for CondBlock<'tree> {
    open spec fn obeys_try_from_spec() -> bool {
        true
    }

    open spec fn try_from_spec(node: &'tree SyntaxNode) -> NodeResult<'tree, Self> {
        if node.kind@ == "cond_block"@ {
            Ok(Self(node))
        } else {
            Err(IncorrectKind { node, kind: Self::KIND })
        }
    }
}

/// Typed node `conditional_text`
///
/// This node has these fields:
/// - `condition`: `{binary | boolean | call | divert | identifier | list_values | number | paren | postfix | qualified_name | string | unary}` ([anon_unions::Binary_Boolean_Call_Divert_Identifier_ListValues_Number_Paren_Postfix_QualifiedName_String_Unary])
///
/// And additional children: `content+` ([Content])
#[derive(Debug, Clone, Copy, PartialEq, Eq, Hash)]
#[allow(non_camel_case_types)]
pub struct ConditionalText<'tree>(pub &'tree SyntaxNode);

impl<'tree> ConditionalText<'tree> {
    /// The kind of the nodes of this type.
    pub const KIND: &'static str = "conditional_text";

    /// Get the field `condition` which has kind `{binary | boolean | call | divert | identifier | list_values | number | paren | postfix | qualified_name | string | unary}` ([anon_unions::Binary_Boolean_Call_Divert_Identifier_ListValues_Number_Paren_Postfix_QualifiedName_String_Unary])
    pub fn condition(&self) -> (r: NodeResult<'tree, anon_unions::Binary_Boolean_Call_Divert_Identifier_ListValues_Number_Paren_Postfix_QualifiedName_String_Unary<'tree>>)
        requires
            self.0.field_children("condition"@).len() > 0,
        ensures
            r == typed::<anon_unions::Binary_Boolean_Call_Divert_Identifier_ListValues_Number_Paren_Postfix_QualifiedName_String_Unary<'tree>>(&self.0.field_children("condition"@)[0]),
    {
        typed_opt::<anon_unions::Binary_Boolean_Call_Divert_Identifier_ListValues_Number_Paren_Postfix_QualifiedName_String_Unary<'tree>>(self.0.child_by_field_name("condition")).expect(
            "tree-sitter node missing its required child, there should at least be a MISSING node in its place",
        )
    }

    /// Get the node's named children
    /// For a node that the ink grammar produced, there is at least one child.
    pub fn children(&self) -> (r: Vec<NodeResult<'tree, ExtraOr<'tree, anon_unions::Content_Binary_Boolean_Call_Divert_Identifier_ListValues_Number_Paren_Postfix_QualifiedName_String_Unary<'tree>>>>)
        ensures
            r.len() == self.0.named_children_spec().len(),
            forall|i: int|
                0 <= i < r.len() ==> r[i] == typed::<ExtraOr<'tree, anon_unions::Content_Binary_Boolean_Call_Divert_Identifier_ListValues_Number_Paren_Postfix_QualifiedName_String_Unary<'tree>>>(&self.0.named_children_spec()[i]),
    {
        typed_all::<ExtraOr<'tree, anon_unions::Content_Binary_Boolean_Call_Divert_Identifier_ListValues_Number_Paren_Postfix_QualifiedName_String_Unary<'tree>>>(self.0.named_children())
    }

    /// Get the node's named child #i
    pub fn child(&self, i: usize) -> (r: Option<NodeResult<'tree, ExtraOr<'tree, anon_unions::Content_Binary_Boolean_Call_Divert_Identifier_ListValues_Number_Paren_Postfix_QualifiedName_String_Unary<'tree>>>>)
        ensures
            i < self.0.named_children_spec().len() ==> r == Some(typed::<ExtraOr<'tree, anon_unions::Content_Binary_Boolean_Call_Divert_Identifier_ListValues_Number_Paren_Postfix_QualifiedName_String_Unary<'tree>>>(&self.0.named_children_spec()[i as int])),
            i >= self.0.named_children_spec().len() ==> r is None,
    {
        typed_opt::<ExtraOr<'tree, anon_unions::Content_Binary_Boolean_Call_Divert_Identifier_ListValues_Number_Paren_Postfix_QualifiedName_String_Unary<'tree>>>(self.0.named_child(i))
    }

    /// The underlying node.
    pub fn node(&self) -> (r: &&'tree SyntaxNode)
        ensures
            *r == self.0,
    {
        &self.0
    }

    /// The underlying node, to replace in place.
    pub fn node_mut(&mut self) -> (r: &mut &'tree SyntaxNode)
        ensures
            *r == old(self).0,
            final(self).0 == *final(r),
    {
        &mut self.0
    }

    /// The underlying node, giving up the typed view.
    pub fn into_node(self) -> (r: &'tree SyntaxNode)
        ensures
            r == self.0,
    {
        self.0
    }

    /// Views `node` as this type without checking its kind.
    pub fn from_node_unchecked(node: &'tree SyntaxNode) -> (r: Self)
        ensures
            r.0 == node,
    {
        Self(node)
    }
}

impl<'tree> TryFrom<&'tree SyntaxNode> for ConditionalText<'tree> {
    type Error = IncorrectKind<'tree>;

    /// Views `node` as this type if it has this type's kind.
    fn try_from(node: &'tree SyntaxNode) -> (r: NodeResult<'tree, Self>)
        ensures
            node.kind@ == "conditional_text"@ ==> r == Ok::<Self, IncorrectKind<'tree>>(Self(node)),
            node.kind@ != "conditional_text"@ ==> r == Err::<Self, IncorrectKind<'tree>>(IncorrectKind { node, kind: Self::KIND }),
    {
        if str_eq(node.kind, Self::KIND) {
            Ok(Self(node))
        } else {
            Err(IncorrectKind { node, kind: Self::KIND })
        }
    }
}

impl<'tree> TryFromSpecImpl<&'tree SyntaxNode> for ConditionalText<'tree> {
    open spec fn obeys_try_from_spec() -> bool {
        true
    }

    open spec fn try_from_spec(node: &'tree SyntaxNode) -> NodeResult<'tree, Self> {
        if node.kind@ == "conditional_text"@ {
            Ok(Self(node))
        } else {
            Err(IncorrectKind { node, kind: Self::KIND })
        }
    }
}

/// Typed node `content`
///
/// This node has children: `{alternatives | cond_block | conditional_text | divert | eval | glue | multiline_alternatives | tag | text | thread | tunnel}+`:
/// - [Alternatives]
/// - [CondBlock]
/// - [ConditionalText]
/// - [Divert]
/// - [Eval]
/// - [Glue]
/// - [MultilineAlternatives]
/// - [Tag]
/// - [Text]
/// - [Thread]
/// - [Tunnel]
#[derive(Debug, Clone, Copy, PartialEq, Eq, Hash)]
#[allow(non_camel_case_types)]
pub struct Content<'tree>(pub &'tree SyntaxNode);

impl<'tree> Content<'tree> {
    /// The kind of the nodes of this type.
    pub const KIND: &'static str = "content";

    /// Get the node's named children
    /// For a node that the ink grammar produced, there is at least one child.
    pub fn children(&self) -> (r: Vec<NodeResult<'tree, ExtraOr<'tree, anon_unions::Alternatives_CondBlock_ConditionalText_Divert_Eval_Glue_MultilineAlternatives_Tag_Text_Thread_Tunnel<'tree>>>>)
        ensures
            r.len() == self.0.named_children_spec().len(),
            forall|i: int|
                0 <= i < r.len() ==> r[i] == typed::<ExtraOr<'tree, anon_unions::Alternatives_CondBlock_ConditionalText_Divert_Eval_Glue_MultilineAlternatives_Tag_Text_Thread_Tunnel<'tree>>>(&self.0.named_children_spec()[i]),
    {
        typed_all::<ExtraOr<'tree, anon_unions::Alternatives_CondBlock_ConditionalText_Divert_Eval_Glue_MultilineAlternatives_Tag_Text_Thread_Tunnel<'tree>>>(self.0.named_children())
    }

    /// Get the node's named child #i
    pub fn child(&self, i: usize) -> (r: Option<NodeResult<'tree, ExtraOr<'tree, anon_unions::Alternatives_CondBlock_ConditionalText_Divert_Eval_Glue_MultilineAlternatives_Tag_Text_Thread_Tunnel<'tree>>>>)
        ensures
            i < self.0.named_children_spec().len() ==> r == Some(typed::<ExtraOr<'tree, anon_unions::Alternatives_CondBlock_ConditionalText_Divert_Eval_Glue_MultilineAlternatives_Tag_Text_Thread_Tunnel<'tree>>>(&self.0.named_children_spec()[i as int])),
            i >= self.0.named_children_spec().len() ==> r is None,
    {
        typed_opt::<ExtraOr<'tree, anon_unions::Alternatives_CondBlock_ConditionalText_Divert_Eval_Glue_MultilineAlternatives_Tag_Text_Thread_Tunnel<'tree>>>(self.0.named_child(i))
    }

    /// The underlying node.
    pub fn node(&self) -> (r: &&'tree SyntaxNode)
        ensures
            *r == self.0,
    {
        &self.0
    }

    /// The underlying node, to replace in place.
    pub fn node_mut(&mut self) -> (r: &mut &'tree SyntaxNode)
        ensures
            *r == old(self).0,
            final(self).0 == *final(r),
    {
        &mut self.0
    }

    /// The underlying node, giving up the typed view.
    pub fn into_node(self) -> (r: &'tree SyntaxNode)
        ensures
            r == self.0,
    {
        self.0
    }

    /// Views `node` as this type without checking its kind.
    pub fn from_node_unchecked(node: &'tree SyntaxNode) -> (r: Self)
        ensures
            r.0 == node,
    {
        Self(node)
    }
}

impl<'tree> TryFrom<&'tree SyntaxNode> for Content<'tree> {
    type Error = IncorrectKind<'tree>;

    /// Views `node` as this type if it has this type's kind.
    fn try_from(node: &'tree SyntaxNode) -> (r: NodeResult<'tree, Self>)
        ensures
            node.kind@ == "content"@ ==> r == Ok::<Self, IncorrectKind<'tree>>(Self(node)),
            node.kind@ != "content"@ ==> r == Err::<Self, IncorrectKind<'tree>>(IncorrectKind { node, kind: Self::KIND }),
    {
        if str_eq(node.kind, Self::KIND) {
            Ok(Self(node))
        } else {
            Err(IncorrectKind { node, kind: Self::KIND })
        }
    }
}

impl<'tree> TryFromSpecImpl<&'tree SyntaxNode> for Content<'tree> {
    open spec fn obeys_try_from_spec() -> bool {
        true
    }

    open spec fn try_from_spec(node: &'tree SyntaxNode) -> NodeResult<'tree, Self> {
        if node.kind@ == "content"@ {
            Ok(Self(node))
        } else {
            Err(IncorrectKind { node, kind: Self::KIND })
        }
    }
}

/// Typed node `content_block`
///
/// This node has children: `{choice_block | code | comment | content | external | gather_block | global | include | list | todo_comment}+`:
/// - [ChoiceBlock]
/// - [Code]
/// - [Comment]
/// - [Content]
/// - [External]
/// - [GatherBlock]
/// - [Global]
/// - [Include]
/// - [List]
/// - [TodoComment]
#[derive(Debug, Clone, Copy, PartialEq, Eq, Hash)]
#[allow(non_camel_case_types)]
pub struct ContentBlock<'tree>(pub &'tree SyntaxNode);

impl<'tree> ContentBlock<'tree> {
    /// The kind of the nodes of this type.
    pub const KIND: &'static str = "content_block";

    /// Get the node's named children
    /// For a node that the ink grammar produced, there is at least one child.
    pub fn children(&self) -> (r: Vec<NodeResult<'tree, ExtraOr<'tree, anon_unions::ChoiceBlock_Code_Comment_Content_External_GatherBlock_Global_Include_List_TodoComment<'tree>>>>)
        ensures
            r.len() == self.0.named_children_spec().len(),
            forall|i: int|
                0 <= i < r.len() ==> r[i] == typed::<ExtraOr<'tree, anon_unions::ChoiceBlock_Code_Comment_Content_External_GatherBlock_Global_Include_List_TodoComment<'tree>>>(&self.0.named_children_spec()[i]),
    {
        typed_all::<ExtraOr<'tree, anon_unions::ChoiceBlock_Code_Comment_Content_External_GatherBlock_Global_Include_List_TodoComment<'tree>>>(self.0.named_children())
    }

    /// Get the node's named child #i
    pub fn child(&self, i: usize) -> (r: Option<NodeResult<'tree, ExtraOr<'tree, anon_unions::ChoiceBlock_Code_Comment_Content_External_GatherBlock_Global_Include_List_TodoComment<'tree>>>>)
        ensures
            i < self.0.named_children_spec().len() ==> r == Some(typed::<ExtraOr<'tree, anon_unions::ChoiceBlock_Code_Comment_Content_External_GatherBlock_Global_Include_List_TodoComment<'tree>>>(&self.0.named_children_spec()[i as int])),
            i >= self.0.named_children_spec().len() ==> r is None,
    {
        typed_opt::<ExtraOr<'tree, anon_unions::ChoiceBlock_Code_Comment_Content_External_GatherBlock_Global_Include_List_TodoComment<'tree>>>(self.0.named_child(i))
    }

    /// The underlying node.
    pub fn node(&self) -> (r: &&'tree SyntaxNode)
        ensures
            *r == self.0,
    {
        &self.0
    }

    /// The underlying node, to replace in place.
    pub fn node_mut(&mut self) -> (r: &mut &'tree SyntaxNode)
        ensures
            *r == old(self).0,
            final(self).0 == *final(r),
    {
        &mut self.0
    }

    /// The underlying node, giving up the typed view.
    pub fn into_node(self) -> (r: &'tree SyntaxNode)
        ensures
            r == self.0,
    {
        self.0
    }

    /// Views `node` as this type without checking its kind.
    pub fn from_node_unchecked(node: &'tree SyntaxNode) -> (r: Self)
        ensures
            r.0 == node,
    {
        Self(node)
    }
}

impl<'tree> TryFrom<&'tree SyntaxNode> for ContentBlock<'tree> {
    type Error = IncorrectKind<'tree>;

    /// Views `node` as this type if it has this type's kind.
    fn try_from(node: &'tree SyntaxNode) -> (r: NodeResult<'tree, Self>)
        ensures
            node.kind@ == "content_block"@ ==> r == Ok::<Self, IncorrectKind<'tree>>(Self(node)),
            node.kind@ != "content_block"@ ==> r == Err::<Self, IncorrectKind<'tree>>(IncorrectKind { node, kind: Self::KIND }),
    {
        if str_eq(node.kind, Self::KIND) {
            Ok(Self(node))
        } else {
            Err(IncorrectKind { node, kind: Self::KIND })
        }
    }
}

impl<'tree> TryFromSpecImpl<&'tree SyntaxNode> for ContentBlock<'tree> {
    open spec fn obeys_try_from_spec() -> bool {
        true
    }

    open spec fn try_from_spec(node: &'tree SyntaxNode) -> NodeResult<'tree, Self> {
        if node.kind@ == "content_block"@ {
            Ok(Self(node))
        } else {
            Err(IncorrectKind { node, kind: Self::KIND })
        }
    }
}

/// Typed node `divert`
///
/// This node has these fields:
/// - `target`: `{call | identifier | qualified_name}` ([anon_unions::Call_Identifier_QualifiedName])
#[derive(Debug, Clone, Copy, PartialEq, Eq, Hash)]
#[allow(non_camel_case_types)]
pub struct Divert<'tree>(pub &'tree SyntaxNode);

impl<'tree> Divert<'tree> {
    /// The kind of the nodes of this type.
    pub const KIND: &'static str = "divert";

    /// Get the field `target` which has kind `{call | identifier | qualified_name}` ([anon_unions::Call_Identifier_QualifiedName])
    pub fn target(&self) -> (r: NodeResult<'tree, anon_unions::Call_Identifier_QualifiedName<'tree>>)
        requires
            self.0.field_children("target"@).len() > 0,
        ensures
            r == typed::<anon_unions::Call_Identifier_QualifiedName<'tree>>(&self.0.field_children("target"@)[0]),
    {
        typed_opt::<anon_unions::Call_Identifier_QualifiedName<'tree>>(self.0.child_by_field_name("target")).expect(
            "tree-sitter node missing its required child, there should at least be a MISSING node in its place",
        )
    }

    /// The underlying node.
    pub fn node(&self) -> (r: &&'tree SyntaxNode)
        ensures
            *r == self.0,
    {
        &self.0
    }

    /// The underlying node, to replace in place.
    pub fn node_mut(&mut self) -> (r: &mut &'tree SyntaxNode)
        ensures
            *r == old(self).0,
            final(self).0 == *final(r),
    {
        &mut self.0
    }

    /// The underlying node, giving up the typed view.
    pub fn into_node(self) -> (r: &'tree SyntaxNode)
        ensures
            r == self.0,
    {
        self.0
    }

    /// Views `node` as this type without checking its kind.
    pub fn from_node_unchecked(node: &'tree SyntaxNode) -> (r: Self)
        ensures
            r.0 == node,
    {
        Self(node)
    }
}

impl<'tree> TryFrom<&'tree SyntaxNode> for Divert<'tree> {
    type Error = IncorrectKind<'tree>;

    /// Views `node` as this type if it has this type's kind.
    fn try_from(node: &'tree SyntaxNode) -> (r: NodeResult<'tree, Self>)
        ensures
            node.kind@ == "divert"@ ==> r == Ok::<Self, IncorrectKind<'tree>>(Self(node)),
            node.kind@ != "divert"@ ==> r == Err::<Self, IncorrectKind<'tree>>(IncorrectKind { node, kind: Self::KIND }),
    {
        if str_eq(node.kind, Self::KIND) {
            Ok(Self(node))
        } else {
            Err(IncorrectKind { node, kind: Self::KIND })
        }
    }
}

impl<'tree> TryFromSpecImpl<&'tree SyntaxNode> for Divert<'tree> {
    open spec fn obeys_try_from_spec() -> bool {
        true
    }

    open spec fn try_from_spec(node: &'tree SyntaxNode) -> NodeResult<'tree, Self> {
        if node.kind@ == "divert"@ {
            Ok(Self(node))
        } else {
            Err(IncorrectKind { node, kind: Self::KIND })
        }
    }
}

/// Typed node `eval`
///
/// This node has a child: `{binary | boolean | call | divert | identifier | list_values | number | paren | postfix | qualified_name | string | unary}`:
/// - [Binary]
/// - [Boolean]
/// - [Call]
/// - [Divert]
/// - [Identifier]
/// - [ListValues]
/// - [Number]
/// - [Paren]
/// - [Postfix]
/// - [QualifiedName]
/// - [String]
/// - [Unary]
#[derive(Debug, Clone, Copy, PartialEq, Eq, Hash)]
#[allow(non_camel_case_types)]
pub struct Eval<'tree>(pub &'tree SyntaxNode);

impl<'tree> Eval<'tree> {
    /// The kind of the nodes of this type.
    pub const KIND: &'static str = "eval";

    /// Get the node's only named child
    pub fn child(&self) -> (r: NodeResult<'tree, anon_unions::Binary_Boolean_Call_Divert_Identifier_ListValues_Number_Paren_Postfix_QualifiedName_String_Unary<'tree>>)
        requires
            self.0.named_children_spec().len() > 0,
        ensures
            r == typed::<anon_unions::Binary_Boolean_Call_Divert_Identifier_ListValues_Number_Paren_Postfix_QualifiedName_String_Unary<'tree>>(&self.0.named_children_spec()[0]),
    {
        typed_opt::<anon_unions::Binary_Boolean_Call_Divert_Identifier_ListValues_Number_Paren_Postfix_QualifiedName_String_Unary<'tree>>(self.0.named_child(0)).expect(
            "tree-sitter node missing its required child, there should at least be a MISSING node in its place",
        )
    }

    /// The underlying node.
    pub fn node(&self) -> (r: &&'tree SyntaxNode)
        ensures
            *r == self.0,
    {
        &self.0
    }

    /// The underlying node, to replace in place.
    pub fn node_mut(&mut self) -> (r: &mut &'tree SyntaxNode)
        ensures
            *r == old(self).0,
            final(self).0 == *final(r),
    {
        &mut self.0
    }

    /// The underlying node, giving up the typed view.
    pub fn into_node(self) -> (r: &'tree SyntaxNode)
        ensures
            r == self.0,
    {
        self.0
    }

    /// Views `node` as this type without checking its kind.
    pub fn from_node_unchecked(node: &'tree SyntaxNode) -> (r: Self)
        ensures
            r.0 == node,
    {
        Self(node)
    }
}

impl<'tree> TryFrom<&'tree SyntaxNode> for Eval<'tree> {
    type Error = IncorrectKind<'tree>;

    /// Views `node` as this type if it has this type's kind.
    fn try_from(node: &'tree SyntaxNode) -> (r: NodeResult<'tree, Self>)
        ensures
            node.kind@ == "eval"@ ==> r == Ok::<Self, IncorrectKind<'tree>>(Self(node)),
            node.kind@ != "eval"@ ==> r == Err::<Self, IncorrectKind<'tree>>(IncorrectKind { node, kind: Self::KIND }),
    {
        if str_eq(node.kind, Self::KIND) {
            Ok(Self(node))
        } else {
            Err(IncorrectKind { node, kind: Self::KIND })
        }
    }
}

impl<'tree> TryFromSpecImpl<&'tree SyntaxNode> for Eval<'tree> {
    open spec fn obeys_try_from_spec() -> bool {
        true
    }

    open spec fn try_from_spec(node: &'tree SyntaxNode) -> NodeResult<'tree, Self> {
        if node.kind@ == "eval"@ {
            Ok(Self(node))
        } else {
            Err(IncorrectKind { node, kind: Self::KIND })
        }
    }
}

/// Typed node `external`
///
/// This node has these fields:
/// - `name`: `identifier` ([Identifier])
/// - `params`: `{( | ) | params}+` ([anon_unions::LParen__RParen__Params])
#[derive(Debug, Clone, Copy, PartialEq, Eq, Hash)]
#[allow(non_camel_case_types)]
pub struct External<'tree>(pub &'tree SyntaxNode);

impl<'tree> External<'tree> {
    /// The kind of the nodes of this type.
    pub const KIND: &'static str = "external";

    /// Get the field `name` which has kind `identifier` ([Identifier])
    pub fn name(&self) -> (r: NodeResult<'tree, Identifier<'tree>>)
        requires
            self.0.field_children("name"@).len() > 0,
        ensures
            r == typed::<Identifier<'tree>>(&self.0.field_children("name"@)[0]),
    {
        typed_opt::<Identifier<'tree>>(self.0.child_by_field_name("name")).expect(
            "tree-sitter node missing its required child, there should at least be a MISSING node in its place",
        )
    }

    /// Get the field `params` which has kind `{( | ) | params}+` ([anon_unions::LParen__RParen__Params])
    /// For a node that the ink grammar produced, there is at least one child.
    pub fn paramss(&self) -> (r: Vec<NodeResult<'tree, ExtraOr<'tree, anon_unions::LParen__RParen__Params<'tree>>>>)
        ensures
            r.len() == self.0.field_children("params"@).len(),
            forall|i: int|
                0 <= i < r.len() ==> r[i] == typed::<ExtraOr<'tree, anon_unions::LParen__RParen__Params<'tree>>>(&self.0.field_children("params"@)[i]),
    {
        typed_all::<ExtraOr<'tree, anon_unions::LParen__RParen__Params<'tree>>>(self.0.children_by_field_name("params"))
    }

    /// The underlying node.
    pub fn node(&self) -> (r: &&'tree SyntaxNode)
        ensures
            *r == self.0,
    {
        &self.0
    }

    /// The underlying node, to replace in place.
    pub fn node_mut(&mut self) -> (r: &mut &'tree SyntaxNode)
        ensures
            *r == old(self).0,
            final(self).0 == *final(r),
    {
        &mut self.0
    }

    /// The underlying node, giving up the typed view.
    pub fn into_node(self) -> (r: &'tree SyntaxNode)
        ensures
            r == self.0,
    {
        self.0
    }

    /// Views `node` as this type without checking its kind.
    pub fn from_node_unchecked(node: &'tree SyntaxNode) -> (r: Self)
        ensures
            r.0 == node,
    {
        Self(node)
    }
}

impl<'tree> TryFrom<&'tree SyntaxNode> for External<'tree> {
    type Error = IncorrectKind<'tree>;

    /// Views `node` as this type if it has this type's kind.
    fn try_from(node: &'tree SyntaxNode) -> (r: NodeResult<'tree, Self>)
        ensures
            node.kind@ == "external"@ ==> r == Ok::<Self, IncorrectKind<'tree>>(Self(node)),
            node.kind@ != "external"@ ==> r == Err::<Self, IncorrectKind<'tree>>(IncorrectKind { node, kind: Self::KIND }),
    {
        if str_eq(node.kind, Self::KIND) {
            Ok(Self(node))
        } else {
            Err(IncorrectKind { node, kind: Self::KIND })
        }
    }
}

impl<'tree> TryFromSpecImpl<&'tree SyntaxNode> for External<'tree> {
    open spec fn obeys_try_from_spec() -> bool {
        true
    }

    open spec fn try_from_spec(node: &'tree SyntaxNode) -> NodeResult<'tree, Self> {
        if node.kind@ == "external"@ {
            Ok(Self(node))
        } else {
            Err(IncorrectKind { node, kind: Self::KIND })
        }
    }
}

/// Typed node `gather`
///
/// This node has these fields:
/// - `label`: `{( | ) | identifier}*` ([anon_unions::LParen__RParen__Identifier])
///
/// And additional children: `{content | divert | thread | tunnel}*`:
/// - [Content]
/// - [Divert]
/// - [Thread]
/// - [Tunnel]
#[derive(Debug, Clone, Copy, PartialEq, Eq, Hash)]
#[allow(non_camel_case_types)]
pub struct Gather<'tree>(pub &'tree SyntaxNode);

impl<'tree> Gather<'tree> {
    /// The kind of the nodes of this type.
    pub const KIND: &'static str = "gather";

    /// Get the field `label` which has kind `{( | ) | identifier}*` ([anon_unions::LParen__RParen__Identifier])
    pub fn labels(&self) -> (r: Vec<NodeResult<'tree, ExtraOr<'tree, anon_unions::LParen__RParen__Identifier<'tree>>>>)
        ensures
            r.len() == self.0.field_children("label"@).len(),
            forall|i: int|
                0 <= i < r.len() ==> r[i] == typed::<ExtraOr<'tree, anon_unions::LParen__RParen__Identifier<'tree>>>(&self.0.field_children("label"@)[i]),
    {
        typed_all::<ExtraOr<'tree, anon_unions::LParen__RParen__Identifier<'tree>>>(self.0.children_by_field_name("label"))
    }

    /// Get the node's named children
    pub fn children(&self) -> (r: Vec<NodeResult<'tree, ExtraOr<'tree, anon_unions::Content_Divert_Thread_Tunnel_LParen__RParen__Identifier<'tree>>>>)
        ensures
            r.len() == self.0.named_children_spec().len(),
            forall|i: int|
                0 <= i < r.len() ==> r[i] == typed::<ExtraOr<'tree, anon_unions::Content_Divert_Thread_Tunnel_LParen__RParen__Identifier<'tree>>>(&self.0.named_children_spec()[i]),
    {
        typed_all::<ExtraOr<'tree, anon_unions::Content_Divert_Thread_Tunnel_LParen__RParen__Identifier<'tree>>>(self.0.named_children())
    }

    /// Get the node's named child #i
    pub fn child(&self, i: usize) -> (r: Option<NodeResult<'tree, ExtraOr<'tree, anon_unions::Content_Divert_Thread_Tunnel_LParen__RParen__Identifier<'tree>>>>)
        ensures
            i < self.0.named_children_spec().len() ==> r == Some(typed::<ExtraOr<'tree, anon_unions::Content_Divert_Thread_Tunnel_LParen__RParen__Identifier<'tree>>>(&self.0.named_children_spec()[i as int])),
            i >= self.0.named_children_spec().len() ==> r is None,
    {
        typed_opt::<ExtraOr<'tree, anon_unions::Content_Divert_Thread_Tunnel_LParen__RParen__Identifier<'tree>>>(self.0.named_child(i))
    }

    /// The underlying node.
    pub fn node(&self) -> (r: &&'tree SyntaxNode)
        ensures
            *r == self.0,
    {
        &self.0
    }

    /// The underlying node, to replace in place.
    pub fn node_mut(&mut self) -> (r: &mut &'tree SyntaxNode)
        ensures
            *r == old(self).0,
            final(self).0 == *final(r),
    {
        &mut self.0
    }

    /// The underlying node, giving up the typed view.
    pub fn into_node(self) -> (r: &'tree SyntaxNode)
        ensures
            r == self.0,
    {
        self.0
    }

    /// Views `node` as this type without checking its kind.
    pub fn from_node_unchecked(node: &'tree SyntaxNode) -> (r: Self)
        ensures
            r.0 == node,
    {
        Self(node)
    }
}

impl<'tree> TryFrom<&'tree SyntaxNode> for Gather<'tree> {
    type Error = IncorrectKind<'tree>;

    /// Views `node` as this type if it has this type's kind.
    fn try_from(node: &'tree SyntaxNode) -> (r: NodeResult<'tree, Self>)
        ensures
            node.kind@ == "gather"@ ==> r == Ok::<Self, IncorrectKind<'tree>>(Self(node)),
            node.kind@ != "gather"@ ==> r == Err::<Self, IncorrectKind<'tree>>(IncorrectKind { node, kind: Self::KIND }),
    {
        if str_eq(node.kind, Self::KIND) {
            Ok(Self(node))
        } else {
            Err(IncorrectKind { node, kind: Self::KIND })
        }
    }
}

impl<'tree> TryFromSpecImpl<&'tree SyntaxNode> for Gather<'tree> {
    open spec fn obeys_try_from_spec() -> bool {
        true
    }

    open spec fn try_from_spec(node: &'tree SyntaxNode) -> NodeResult<'tree, Self> {
        if node.kind@ == "gather"@ {
            Ok(Self(node))
        } else {
            Err(IncorrectKind { node, kind: Self::KIND })
        }
    }
}

/// Typed node `gather_block`
///
/// This node has children: `{choice_block | code | comment | content | external | gather | gather_block | global | include | list | todo_comment}+`:
/// - [ChoiceBlock]
/// - [Code]
/// - [Comment]
/// - [Content]
/// - [External]
/// - [Gather]
/// - [GatherBlock]
/// - [Global]
/// - [Include]
/// - [List]
/// - [TodoComment]
#[derive(Debug, Clone, Copy, PartialEq, Eq, Hash)]
#[allow(non_camel_case_types)]
pub struct GatherBlock<'tree>(pub &'tree SyntaxNode);

impl<'tree> GatherBlock<'tree> {
    /// The kind of the nodes of this type.
    pub const KIND: &'static str = "gather_block";

    /// Get the node's named children
    /// For a node that the ink grammar produced, there is at least one child.
    pub fn children(&self) -> (r: Vec<NodeResult<'tree, ExtraOr<'tree, anon_unions::ChoiceBlock_Code_Comment_Content_External_Gather_GatherBlock_Global_Include_List_TodoComment<'tree>>>>)
        ensures
            r.len() == self.0.named_children_spec().len(),
            forall|i: int|
                0 <= i < r.len() ==> r[i] == typed::<ExtraOr<'tree, anon_unions::ChoiceBlock_Code_Comment_Content_External_Gather_GatherBlock_Global_Include_List_TodoComment<'tree>>>(&self.0.named_children_spec()[i]),
    {
        typed_all::<ExtraOr<'tree, anon_unions::ChoiceBlock_Code_Comment_Content_External_Gather_GatherBlock_Global_Include_List_TodoComment<'tree>>>(self.0.named_children())
    }

    /// Get the node's named child #i
    pub fn child(&self, i: usize) -> (r: Option<NodeResult<'tree, ExtraOr<'tree, anon_unions::ChoiceBlock_Code_Comment_Content_External_Gather_GatherBlock_Global_Include_List_TodoComment<'tree>>>>)
        ensures
            i < self.0.named_children_spec().len() ==> r == Some(typed::<ExtraOr<'tree, anon_unions::ChoiceBlock_Code_Comment_Content_External_Gather_GatherBlock_Global_Include_List_TodoComment<'tree>>>(&self.0.named_children_spec()[i as int])),
            i >= self.0.named_children_spec().len() ==> r is None,
    {
        typed_opt::<ExtraOr<'tree, anon_unions::ChoiceBlock_Code_Comment_Content_External_Gather_GatherBlock_Global_Include_List_TodoComment<'tree>>>(self.0.named_child(i))
    }

    /// The underlying node.
    pub fn node(&self) -> (r: &&'tree SyntaxNode)
        ensures
            *r == self.0,
    {
        &self.0
    }

    /// The underlying node, to replace in place.
    pub fn node_mut(&mut self) -> (r: &mut &'tree SyntaxNode)
        ensures
            *r == old(self).0,
            final(self).0 == *final(r),
    {
        &mut self.0
    }

    /// The underlying node, giving up the typed view.
    pub fn into_node(self) -> (r: &'tree SyntaxNode)
        ensures
            r == self.0,
    {
        self.0
    }

    /// Views `node` as this type without checking its kind.
    pub fn from_node_unchecked(node: &'tree SyntaxNode) -> (r: Self)
        ensures
            r.0 == node,
    {
        Self(node)
    }
}

impl<'tree> TryFrom<&'tree SyntaxNode> for GatherBlock<'tree> {
    type Error = IncorrectKind<'tree>;

    /// Views `node` as this type if it has this type's kind.
    fn try_from(node: &'tree SyntaxNode) -> (r: NodeResult<'tree, Self>)
        ensures
            node.kind@ == "gather_block"@ ==> r == Ok::<Self, IncorrectKind<'tree>>(Self(node)),
            node.kind@ != "gather_block"@ ==> r == Err::<Self, IncorrectKind<'tree>>(IncorrectKind { node, kind: Self::KIND }),
    {
        if str_eq(node.kind, Self::KIND) {
            Ok(Self(node))
        } else {
            Err(IncorrectKind { node, kind: Self::KIND })
        }
    }
}

impl<'tree> TryFromSpecImpl<&'tree SyntaxNode> for GatherBlock<'tree> {
    open spec fn obeys_try_from_spec() -> bool {
        true
    }

    open spec fn try_from_spec(node: &'tree SyntaxNode) -> NodeResult<'tree, Self> {
        if node.kind@ == "gather_block"@ {
            Ok(Self(node))
        } else {
            Err(IncorrectKind { node, kind: Self::KIND })
        }
    }
}

/// Typed node `global`
///
/// This node has these fields:
/// - `name`: `identifier` ([Identifier])
/// - `op`: `=` ([symbols::Eq_])
/// - `type`: `{CONST | VAR}` ([anon_unions::Const_Var])
/// - `value`: `{binary | boolean | call | divert | identifier | list_values | number | paren | postfix | qualified_name | string | unary}` ([anon_unions::Binary_Boolean_Call_Divert_Identifier_ListValues_Number_Paren_Postfix_QualifiedName_String_Unary])
#[derive(Debug, Clone, Copy, PartialEq, Eq, Hash)]
#[allow(non_camel_case_types)]
pub struct Global<'tree>(pub &'tree SyntaxNode);

impl<'tree> Global<'tree> {
    /// The kind of the nodes of this type.
    pub const KIND: &'static str = "global";

    /// Get the field `name` which has kind `identifier` ([Identifier])
    pub fn name(&self) -> (r: NodeResult<'tree, Identifier<'tree>>)
        requires
            self.0.field_children("name"@).len() > 0,
        ensures
            r == typed::<Identifier<'tree>>(&self.0.field_children("name"@)[0]),
    {
        typed_opt::<Identifier<'tree>>(self.0.child_by_field_name("name")).expect(
            "tree-sitter node missing its required child, there should at least be a MISSING node in its place",
        )
    }

    /// Get the field `op` which has kind `=` ([symbols::Eq_])
    pub fn op(&self) -> (r: NodeResult<'tree, symbols::Eq_<'tree>>)
        requires
            self.0.field_children("op"@).len() > 0,
        ensures
            r == typed::<symbols::Eq_<'tree>>(&self.0.field_children("op"@)[0]),
    {
        typed_opt::<symbols::Eq_<'tree>>(self.0.child_by_field_name("op")).expect(
            "tree-sitter node missing its required child, there should at least be a MISSING node in its place",
        )
    }

    /// Get the field `type` which has kind `{CONST | VAR}` ([anon_unions::Const_Var])
    pub fn type_node(&self) -> (r: NodeResult<'tree, anon_unions::Const_Var<'tree>>)
        requires
            self.0.field_children("type"@).len() > 0,
        ensures
            r == typed::<anon_unions::Const_Var<'tree>>(&self.0.field_children("type"@)[0]),
    {
        typed_opt::<anon_unions::Const_Var<'tree>>(self.0.child_by_field_name("type")).expect(
            "tree-sitter node missing its required child, there should at least be a MISSING node in its place",
        )
    }

    /// Get the field `value` which has kind `{binary | boolean | call | divert | identifier | list_values | number | paren | postfix | qualified_name | string | unary}` ([anon_unions::Binary_Boolean_Call_Divert_Identifier_ListValues_Number_Paren_Postfix_QualifiedName_String_Unary])
    pub fn value(&self) -> (r: NodeResult<'tree, anon_unions::Binary_Boolean_Call_Divert_Identifier_ListValues_Number_Paren_Postfix_QualifiedName_String_Unary<'tree>>)
        requires
            self.0.field_children("value"@).len() > 0,
        ensures
            r == typed::<anon_unions::Binary_Boolean_Call_Divert_Identifier_ListValues_Number_Paren_Postfix_QualifiedName_String_Unary<'tree>>(&self.0.field_children("value"@)[0]),
    {
        typed_opt::<anon_unions::Binary_Boolean_Call_Divert_Identifier_ListValues_Number_Paren_Postfix_QualifiedName_String_Unary<'tree>>(self.0.child_by_field_name("value")).expect(
            "tree-sitter node missing its required child, there should at least be a MISSING node in its place",
        )
    }

    /// The underlying node.
    pub fn node(&self) -> (r: &&'tree SyntaxNode)
        ensures
            *r == self.0,
    {
        &self.0
    }

    /// The underlying node, to replace in place.
    pub fn node_mut(&mut self) -> (r: &mut &'tree SyntaxNode)
        ensures
            *r == old(self).0,
            final(self).0 == *final(r),
    {
        &mut self.0
    }

    /// The underlying node, giving up the typed view.
    pub fn into_node(self) -> (r: &'tree SyntaxNode)
        ensures
            r == self.0,
    {
        self.0
    }

    /// Views `node` as this type without checking its kind.
    pub fn from_node_unchecked(node: &'tree SyntaxNode) -> (r: Self)
        ensures
            r.0 == node,
    {
        Self(node)
    }
}

impl<'tree> TryFrom<&'tree SyntaxNode> for Global<'tree> {
    type Error = IncorrectKind<'tree>;

    /// Views `node` as this type if it has this type's kind.
    fn try_from(node: &'tree SyntaxNode) -> (r: NodeResult<'tree, Self>)
        ensures
            node.kind@ == "global"@ ==> r == Ok::<Self, IncorrectKind<'tree>>(Self(node)),
            node.kind@ != "global"@ ==> r == Err::<Self, IncorrectKind<'tree>>(IncorrectKind { node, kind: Self::KIND }),
    {
        if str_eq(node.kind, Self::KIND) {
            Ok(Self(node))
        } else {
            Err(IncorrectKind { node, kind: Self::KIND })
        }
    }
}

impl<'tree> TryFromSpecImpl<&'tree SyntaxNode> for Global<'tree> {
    open spec fn obeys_try_from_spec() -> bool {
        true
    }

    open spec fn try_from_spec(node: &'tree SyntaxNode) -> NodeResult<'tree, Self> {
        if node.kind@ == "global"@ {
            Ok(Self(node))
        } else {
            Err(IncorrectKind { node, kind: Self::KIND })
        }
    }
}

/// Typed node `identifier`
///
/// This node has no children
#[derive(Debug, Clone, Copy, PartialEq, Eq, Hash)]
#[allow(non_camel_case_types)]
pub struct Identifier<'tree>(pub &'tree SyntaxNode);

impl<'tree> Identifier<'tree> {
    /// The kind of the nodes of this type.
    pub const KIND: &'static str = "identifier";

    /// The underlying node.
    pub fn node(&self) -> (r: &&'tree SyntaxNode)
        ensures
            *r == self.0,
    {
        &self.0
    }

    /// The underlying node, to replace in place.
    pub fn node_mut(&mut self) -> (r: &mut &'tree SyntaxNode)
        ensures
            *r == old(self).0,
            final(self).0 == *final(r),
    {
        &mut self.0
    }

    /// The underlying node, giving up the typed view.
    pub fn into_node(self) -> (r: &'tree SyntaxNode)
        ensures
            r == self.0,
    {
        self.0
    }

    /// Views `node` as this type without checking its kind.
    pub fn from_node_unchecked(node: &'tree SyntaxNode) -> (r: Self)
        ensures
            r.0 == node,
    {
        Self(node)
    }
}

impl<'tree> TryFrom<&'tree SyntaxNode> for Identifier<'tree> {
    type Error = IncorrectKind<'tree>;

    /// Views `node` as this type if it has this type's kind.
    fn try_from(node: &'tree SyntaxNode) -> (r: NodeResult<'tree, Self>)
        ensures
            node.kind@ == "identifier"@ ==> r == Ok::<Self, IncorrectKind<'tree>>(Self(node)),
            node.kind@ != "identifier"@ ==> r == Err::<Self, IncorrectKind<'tree>>(IncorrectKind { node, kind: Self::KIND }),
    {
        if str_eq(node.kind, Self::KIND) {
            Ok(Self(node))
        } else {
            Err(IncorrectKind { node, kind: Self::KIND })
        }
    }
}

impl<'tree> TryFromSpecImpl<&'tree SyntaxNode> for Identifier<'tree> {
    open spec fn obeys_try_from_spec() -> bool {
        true
    }

    open spec fn try_from_spec(node: &'tree SyntaxNode) -> NodeResult<'tree, Self> {
        if node.kind@ == "identifier"@ {
            Ok(Self(node))
        } else {
            Err(IncorrectKind { node, kind: Self::KIND })
        }
    }
}

/// Typed node `include`
///
/// This node has a child: `path` ([Path])
#[derive(Debug, Clone, Copy, PartialEq, Eq, Hash)]
#[allow(non_camel_case_types)]
pub struct Include<'tree>(pub &'tree SyntaxNode);

impl<'tree> Include<'tree> {
    /// The kind of the nodes of this type.
    pub const KIND: &'static str = "include";

    /// Get the node's only named child
    pub fn child(&self) -> (r: NodeResult<'tree, Path<'tree>>)
        requires
            self.0.named_children_spec().len() > 0,
        ensures
            r == typed::<Path<'tree>>(&self.0.named_children_spec()[0]),
    {
        typed_opt::<Path<'tree>>(self.0.named_child(0)).expect(
            "tree-sitter node missing its required child, there should at least be a MISSING node in its place",
        )
    }

    /// The underlying node.
    pub fn node(&self) -> (r: &&'tree SyntaxNode)
        ensures
            *r == self.0,
    {
        &self.0
    }

    /// The underlying node, to replace in place.
    pub fn node_mut(&mut self) -> (r: &mut &'tree SyntaxNode)
        ensures
            *r == old(self).0,
            final(self).0 == *final(r),
    {
        &mut self.0
    }

    /// The underlying node, giving up the typed view.
    pub fn into_node(self) -> (r: &'tree SyntaxNode)
        ensures
            r == self.0,
    {
        self.0
    }

    /// Views `node` as this type without checking its kind.
    pub fn from_node_unchecked(node: &'tree SyntaxNode) -> (r: Self)
        ensures
            r.0 == node,
    {
        Self(node)
    }
}

impl<'tree> TryFrom<&'tree SyntaxNode> for Include<'tree> {
    type Error = IncorrectKind<'tree>;

    /// Views `node` as this type if it has this type's kind.
    fn try_from(node: &'tree SyntaxNode) -> (r: NodeResult<'tree, Self>)
        ensures
            node.kind@ == "include"@ ==> r == Ok::<Self, IncorrectKind<'tree>>(Self(node)),
            node.kind@ != "include"@ ==> r == Err::<Self, IncorrectKind<'tree>>(IncorrectKind { node, kind: Self::KIND }),
    {
        if str_eq(node.kind, Self::KIND) {
            Ok(Self(node))
        } else {
            Err(IncorrectKind { node, kind: Self::KIND })
        }
    }
}

impl<'tree> TryFromSpecImpl<&'tree SyntaxNode> for Include<'tree> {
    open spec fn obeys_try_from_spec() -> bool {
        true
    }

    open spec fn try_from_spec(node: &'tree SyntaxNode) -> NodeResult<'tree, Self> {
        if node.kind@ == "include"@ {
            Ok(Self(node))
        } else {
            Err(IncorrectKind { node, kind: Self::KIND })
        }
    }
}

/// Typed node `ink`
///
/// This node has children: `{content_block | knot_block | stitch_block}*`:
/// - [ContentBlock]
/// - [KnotBlock]
/// - [StitchBlock]
#[derive(Debug, Clone, Copy, PartialEq, Eq, Hash)]
#[allow(non_camel_case_types)]
pub struct Ink<'tree>(pub &'tree SyntaxNode);

impl<'tree> Ink<'tree> {
    /// The kind of the nodes of this type.
    pub const KIND: &'static str = "ink";

    /// Get the node's named children
    pub fn children(&self) -> (r: Vec<NodeResult<'tree, ExtraOr<'tree, anon_unions::ContentBlock_KnotBlock_StitchBlock<'tree>>>>)
        ensures
            r.len() == self.0.named_children_spec().len(),
            forall|i: int|
                0 <= i < r.len() ==> r[i] == typed::<ExtraOr<'tree, anon_unions::ContentBlock_KnotBlock_StitchBlock<'tree>>>(&self.0.named_children_spec()[i]),
    {
        typed_all::<ExtraOr<'tree, anon_unions::ContentBlock_KnotBlock_StitchBlock<'tree>>>(self.0.named_children())
    }

    /// Get the node's named child #i
    pub fn child(&self, i: usize) -> (r: Option<NodeResult<'tree, ExtraOr<'tree, anon_unions::ContentBlock_KnotBlock_StitchBlock<'tree>>>>)
        ensures
            i < self.0.named_children_spec().len() ==> r == Some(typed::<ExtraOr<'tree, anon_unions::ContentBlock_KnotBlock_StitchBlock<'tree>>>(&self.0.named_children_spec()[i as int])),
            i >= self.0.named_children_spec().len() ==> r is None,
    {
        typed_opt::<ExtraOr<'tree, anon_unions::ContentBlock_KnotBlock_StitchBlock<'tree>>>(self.0.named_child(i))
    }

    /// The underlying node.
    pub fn node(&self) -> (r: &&'tree SyntaxNode)
        ensures
            *r == self.0,
    {
        &self.0
    }

    /// The underlying node, to replace in place.
    pub fn node_mut(&mut self) -> (r: &mut &'tree SyntaxNode)
        ensures
            *r == old(self).0,
            final(self).0 == *final(r),
    {
        &mut self.0
    }

    /// The underlying node, giving up the typed view.
    pub fn into_node(self) -> (r: &'tree SyntaxNode)
        ensures
            r == self.0,
    {
        self.0
    }

    /// Views `node` as this type without checking its kind.
    pub fn from_node_unchecked(node: &'tree SyntaxNode) -> (r: Self)
        ensures
            r.0 == node,
    {
        Self(node)
    }
}

impl<'tree> TryFrom<&'tree SyntaxNode> for Ink<'tree> {
    type Error = IncorrectKind<'tree>;

    /// Views `node` as this type if it has this type's kind.
    fn try_from(node: &'tree SyntaxNode) -> (r: NodeResult<'tree, Self>)
        ensures
            node.kind@ == "ink"@ ==> r == Ok::<Self, IncorrectKind<'tree>>(Self(node)),
            node.kind@ != "ink"@ ==> r == Err::<Self, IncorrectKind<'tree>>(IncorrectKind { node, kind: Self::KIND }),
    {
        if str_eq(node.kind, Self::KIND) {
            Ok(Self(node))
        } else {
            Err(IncorrectKind { node, kind: Self::KIND })
        }
    }
}

impl<'tree> TryFromSpecImpl<&'tree SyntaxNode> for Ink<'tree> {
    open spec fn obeys_try_from_spec() -> bool {
        true
    }

    open spec fn try_from_spec(node: &'tree SyntaxNode) -> NodeResult<'tree, Self> {
        if node.kind@ == "ink"@ {
            Ok(Self(node))
        } else {
            Err(IncorrectKind { node, kind: Self::KIND })
        }
    }
}

/// Typed node `knot`
///
/// This node has these fields:
/// - `end_mark`: `==?` ([symbols::Eq_Eq_])
/// - `function`: `function?` ([unnamed::Function])
/// - `name`: `identifier` ([Identifier])
/// - `params`: `{( | ) | params}*` ([anon_unions::LParen__RParen__Params])
/// - `start_mark`: `==` ([symbols::Eq_Eq_])
#[derive(Debug, Clone, Copy, PartialEq, Eq, Hash)]
#[allow(non_camel_case_types)]
pub struct Knot<'tree>(pub &'tree SyntaxNode);

impl<'tree> Knot<'tree> {
    /// The kind of the nodes of this type.
    pub const KIND: &'static str = "knot";

    /// Get the field `end_mark` which has kind `==?` ([symbols::Eq_Eq_])
    pub fn end_mark(&self) -> (r: Option<NodeResult<'tree, symbols::Eq_Eq_<'tree>>>)
        ensures
            self.0.field_children("end_mark"@).len() > 0 ==> r == Some(typed::<symbols::Eq_Eq_<'tree>>(&self.0.field_children("end_mark"@)[0])),
            self.0.field_children("end_mark"@).len() == 0 ==> r is None,
    {
        typed_opt::<symbols::Eq_Eq_<'tree>>(self.0.child_by_field_name("end_mark"))
    }

    /// Get the field `function` which has kind `function?` ([unnamed::Function])
    pub fn function(&self) -> (r: Option<NodeResult<'tree, unnamed::Function<'tree>>>)
        ensures
            self.0.field_children("function"@).len() > 0 ==> r == Some(typed::<unnamed::Function<'tree>>(&self.0.field_children("function"@)[0])),
            self.0.field_children("function"@).len() == 0 ==> r is None,
    {
        typed_opt::<unnamed::Function<'tree>>(self.0.child_by_field_name("function"))
    }

    /// Get the field `name` which has kind `identifier` ([Identifier])
    pub fn name(&self) -> (r: NodeResult<'tree, Identifier<'tree>>)
        requires
            self.0.field_children("name"@).len() > 0,
        ensures
            r == typed::<Identifier<'tree>>(&self.0.field_children("name"@)[0]),
    {
        typed_opt::<Identifier<'tree>>(self.0.child_by_field_name("name")).expect(
            "tree-sitter node missing its required child, there should at least be a MISSING node in its place",
        )
    }

    /// Get the field `params` which has kind `{( | ) | params}*` ([anon_unions::LParen__RParen__Params])
    pub fn paramss(&self) -> (r: Vec<NodeResult<'tree, ExtraOr<'tree, anon_unions::LParen__RParen__Params<'tree>>>>)
        ensures
            r.len() == self.0.field_children("params"@).len(),
            forall|i: int|
                0 <= i < r.len() ==> r[i] == typed::<ExtraOr<'tree, anon_unions::LParen__RParen__Params<'tree>>>(&self.0.field_children("params"@)[i]),
    {
        typed_all::<ExtraOr<'tree, anon_unions::LParen__RParen__Params<'tree>>>(self.0.children_by_field_name("params"))
    }

    /// Get the field `start_mark` which has kind `==` ([symbols::Eq_Eq_])
    pub fn start_mark(&self) -> (r: NodeResult<'tree, symbols::Eq_Eq_<'tree>>)
        requires
            self.0.field_children("start_mark"@).len() > 0,
        ensures
            r == typed::<symbols::Eq_Eq_<'tree>>(&self.0.field_children("start_mark"@)[0]),
    {
        typed_opt::<symbols::Eq_Eq_<'tree>>(self.0.child_by_field_name("start_mark")).expect(
            "tree-sitter node missing its required child, there should at least be a MISSING node in its place",
        )
    }

    /// The underlying node.
    pub fn node(&self) -> (r: &&'tree SyntaxNode)
        ensures
            *r == self.0,
    {
        &self.0
    }

    /// The underlying node, to replace in place.
    pub fn node_mut(&mut self) -> (r: &mut &'tree SyntaxNode)
        ensures
            *r == old(self).0,
            final(self).0 == *final(r),
    {
        &mut self.0
    }

    /// The underlying node, giving up the typed view.
    pub fn into_node(self) -> (r: &'tree SyntaxNode)
        ensures
            r == self.0,
    {
        self.0
    }

    /// Views `node` as this type without checking its kind.
    pub fn from_node_unchecked(node: &'tree SyntaxNode) -> (r: Self)
        ensures
            r.0 == node,
    {
        Self(node)
    }
}

impl<'tree> TryFrom<&'tree SyntaxNode> for Knot<'tree> {
    type Error = IncorrectKind<'tree>;

    /// Views `node` as this type if it has this type's kind.
    fn try_from(node: &'tree SyntaxNode) -> (r: NodeResult<'tree, Self>)
        ensures
            node.kind@ == "knot"@ ==> r == Ok::<Self, IncorrectKind<'tree>>(Self(node)),
            node.kind@ != "knot"@ ==> r == Err::<Self, IncorrectKind<'tree>>(IncorrectKind { node, kind: Self::KIND }),
    {
        if str_eq(node.kind, Self::KIND) {
            Ok(Self(node))
        } else {
            Err(IncorrectKind { node, kind: Self::KIND })
        }
    }
}

impl<'tree> TryFromSpecImpl<&'tree SyntaxNode> for Knot<'tree> {
    open spec fn obeys_try_from_spec() -> bool {
        true
    }

    open spec fn try_from_spec(node: &'tree SyntaxNode) -> NodeResult<'tree, Self> {
        if node.kind@ == "knot"@ {
            Ok(Self(node))
        } else {
            Err(IncorrectKind { node, kind: Self::KIND })
        }
    }
}

/// Typed node `knot_block`
///
/// This node has children: `{content_block | knot | stitch_block}+`:
/// - [ContentBlock]
/// - [Knot]
/// - [StitchBlock]
#[derive(Debug, Clone, Copy, PartialEq, Eq, Hash)]
#[allow(non_camel_case_types)]
pub struct KnotBlock<'tree>(pub &'tree SyntaxNode);

impl<'tree> KnotBlock<'tree> {
    /// The kind of the nodes of this type.
    pub const KIND: &'static str = "knot_block";

    /// Get the node's named children
    /// For a node that the ink grammar produced, there is at least one child.
    pub fn children(&self) -> (r: Vec<NodeResult<'tree, ExtraOr<'tree, anon_unions::ContentBlock_Knot_StitchBlock<'tree>>>>)
        ensures
            r.len() == self.0.named_children_spec().len(),
            forall|i: int|
                0 <= i < r.len() ==> r[i] == typed::<ExtraOr<'tree, anon_unions::ContentBlock_Knot_StitchBlock<'tree>>>(&self.0.named_children_spec()[i]),
    {
        typed_all::<ExtraOr<'tree, anon_unions::ContentBlock_Knot_StitchBlock<'tree>>>(self.0.named_children())
    }

    /// Get the node's named child #i
    pub fn child(&self, i: usize) -> (r: Option<NodeResult<'tree, ExtraOr<'tree, anon_unions::ContentBlock_Knot_StitchBlock<'tree>>>>)
        ensures
            i < self.0.named_children_spec().len() ==> r == Some(typed::<ExtraOr<'tree, anon_unions::ContentBlock_Knot_StitchBlock<'tree>>>(&self.0.named_children_spec()[i as int])),
            i >= self.0.named_children_spec().len() ==> r is None,
    {
        typed_opt::<ExtraOr<'tree, anon_unions::ContentBlock_Knot_StitchBlock<'tree>>>(self.0.named_child(i))
    }

    /// The underlying node.
    pub fn node(&self) -> (r: &&'tree SyntaxNode)
        ensures
            *r == self.0,
    {
        &self.0
    }

    /// The underlying node, to replace in place.
    pub fn node_mut(&mut self) -> (r: &mut &'tree SyntaxNode)
        ensures
            *r == old(self).0,
            final(self).0 == *final(r),
    {
        &mut self.0
    }

    /// The underlying node, giving up the typed view.
    pub fn into_node(self) -> (r: &'tree SyntaxNode)
        ensures
            r == self.0,
    {
        self.0
    }

    /// Views `node` as this type without checking its kind.
    pub fn from_node_unchecked(node: &'tree SyntaxNode) -> (r: Self)
        ensures
            r.0 == node,
    {
        Self(node)
    }
}

impl<'tree> TryFrom<&'tree SyntaxNode> for KnotBlock<'tree> {
    type Error = IncorrectKind<'tree>;

    /// Views `node` as this type if it has this type's kind.
    fn try_from(node: &'tree SyntaxNode) -> (r: NodeResult<'tree, Self>)
        ensures
            node.kind@ == "knot_block"@ ==> r == Ok::<Self, IncorrectKind<'tree>>(Self(node)),
            node.kind@ != "knot_block"@ ==> r == Err::<Self, IncorrectKind<'tree>>(IncorrectKind { node, kind: Self::KIND }),
    {
        if str_eq(node.kind, Self::KIND) {
            Ok(Self(node))
        } else {
            Err(IncorrectKind { node, kind: Self::KIND })
        }
    }
}

impl<'tree> TryFromSpecImpl<&'tree SyntaxNode> for KnotBlock<'tree> {
    open spec fn obeys_try_from_spec() -> bool {
        true
    }

    open spec fn try_from_spec(node: &'tree SyntaxNode) -> NodeResult<'tree, Self> {
        if node.kind@ == "knot_block"@ {
            Ok(Self(node))
        } else {
            Err(IncorrectKind { node, kind: Self::KIND })
        }
    }
}

/// Typed node `list`
///
/// This node has these fields:
/// - `name`: `identifier` ([Identifier])
/// - `op`: `=` ([symbols::Eq_])
/// - `values`: `list_value_defs` ([ListValueDefs])
#[derive(Debug, Clone, Copy, PartialEq, Eq, Hash)]
#[allow(non_camel_case_types)]
pub struct List<'tree>(pub &'tree SyntaxNode);

impl<'tree> List<'tree> {
    /// The kind of the nodes of this type.
    pub const KIND: &'static str = "list";

    /// Get the field `name` which has kind `identifier` ([Identifier])
    pub fn name(&self) -> (r: NodeResult<'tree, Identifier<'tree>>)
        requires
            self.0.field_children("name"@).len() > 0,
        ensures
            r == typed::<Identifier<'tree>>(&self.0.field_children("name"@)[0]),
    {
        typed_opt::<Identifier<'tree>>(self.0.child_by_field_name("name")).expect(
            "tree-sitter node missing its required child, there should at least be a MISSING node in its place",
        )
    }

    /// Get the field `op` which has kind `=` ([symbols::Eq_])
    pub fn op(&self) -> (r: NodeResult<'tree, symbols::Eq_<'tree>>)
        requires
            self.0.field_children("op"@).len() > 0,
        ensures
            r == typed::<symbols::Eq_<'tree>>(&self.0.field_children("op"@)[0]),
    {
        typed_opt::<symbols::Eq_<'tree>>(self.0.child_by_field_name("op")).expect(
            "tree-sitter node missing its required child, there should at least be a MISSING node in its place",
        )
    }

    /// Get the field `values` which has kind `list_value_defs` ([ListValueDefs])
    pub fn values(&self) -> (r: NodeResult<'tree, ListValueDefs<'tree>>)
        requires
            self.0.field_children("values"@).len() > 0,
        ensures
            r == typed::<ListValueDefs<'tree>>(&self.0.field_children("values"@)[0]),
    {
        typed_opt::<ListValueDefs<'tree>>(self.0.child_by_field_name("values")).expect(
            "tree-sitter node missing its required child, there should at least be a MISSING node in its place",
        )
    }

    /// The underlying node.
    pub fn node(&self) -> (r: &&'tree SyntaxNode)
        ensures
            *r == self.0,
    {
        &self.0
    }

    /// The underlying node, to replace in place.
    pub fn node_mut(&mut self) -> (r: &mut &'tree SyntaxNode)
        ensures
            *r == old(self).0,
            final(self).0 == *final(r),
    {
        &mut self.0
    }

    /// The underlying node, giving up the typed view.
    pub fn into_node(self) -> (r: &'tree SyntaxNode)
        ensures
            r == self.0,
    {
        self.0
    }

    /// Views `node` as this type without checking its kind.
    pub fn from_node_unchecked(node: &'tree SyntaxNode) -> (r: Self)
        ensures
            r.0 == node,
    {
        Self(node)
    }
}

impl<'tree> TryFrom<&'tree SyntaxNode> for List<'tree> {
    type Error = IncorrectKind<'tree>;

    /// Views `node` as this type if it has this type's kind.
    fn try_from(node: &'tree SyntaxNode) -> (r: NodeResult<'tree, Self>)
        ensures
            node.kind@ == "list"@ ==> r == Ok::<Self, IncorrectKind<'tree>>(Self(node)),
            node.kind@ != "list"@ ==> r == Err::<Self, IncorrectKind<'tree>>(IncorrectKind { node, kind: Self::KIND }),
    {
        if str_eq(node.kind, Self::KIND) {
            Ok(Self(node))
        } else {
            Err(IncorrectKind { node, kind: Self::KIND })
        }
    }
}

impl<'tree> TryFromSpecImpl<&'tree SyntaxNode> for List<'tree> {
    open spec fn obeys_try_from_spec() -> bool {
        true
    }

    open spec fn try_from_spec(node: &'tree SyntaxNode) -> NodeResult<'tree, Self> {
        if node.kind@ == "list"@ {
            Ok(Self(node))
        } else {
            Err(IncorrectKind { node, kind: Self::KIND })
        }
    }
}

/// Typed node `list_value_def`
///
/// This node has these fields:
/// - `name`: `identifier` ([Identifier])
/// - `op`: `=?` ([symbols::Eq_])
/// - `paren`: `{( | )}*` ([anon_unions::LParen__RParen_])
/// - `value`: `number?` ([Number])
#[derive(Debug, Clone, Copy, PartialEq, Eq, Hash)]
#[allow(non_camel_case_types)]
pub struct ListValueDef<'tree>(pub &'tree SyntaxNode);

impl<'tree> ListValueDef<'tree> {
    /// The kind of the nodes of this type.
    pub const KIND: &'static str = "list_value_def";

    /// Get the field `name` which has kind `identifier` ([Identifier])
    pub fn name(&self) -> (r: NodeResult<'tree, Identifier<'tree>>)
        requires
            self.0.field_children("name"@).len() > 0,
        ensures
            r == typed::<Identifier<'tree>>(&self.0.field_children("name"@)[0]),
    {
        typed_opt::<Identifier<'tree>>(self.0.child_by_field_name("name")).expect(
            "tree-sitter node missing its required child, there should at least be a MISSING node in its place",
        )
    }

    /// Get the field `op` which has kind `=?` ([symbols::Eq_])
    pub fn op(&self) -> (r: Option<NodeResult<'tree, symbols::Eq_<'tree>>>)
        ensures
            self.0.field_children("op"@).len() > 0 ==> r == Some(typed::<symbols::Eq_<'tree>>(&self.0.field_children("op"@)[0])),
            self.0.field_children("op"@).len() == 0 ==> r is None,
    {
        typed_opt::<symbols::Eq_<'tree>>(self.0.child_by_field_name("op"))
    }

    /// Get the field `paren` which has kind `{( | )}*` ([anon_unions::LParen__RParen_])
    pub fn parens(&self) -> (r: Vec<NodeResult<'tree, ExtraOr<'tree, anon_unions::LParen__RParen_<'tree>>>>)
        ensures
            r.len() == self.0.field_children("paren"@).len(),
            forall|i: int|
                0 <= i < r.len() ==> r[i] == typed::<ExtraOr<'tree, anon_unions::LParen__RParen_<'tree>>>(&self.0.field_children("paren"@)[i]),
    {
        typed_all::<ExtraOr<'tree, anon_unions::LParen__RParen_<'tree>>>(self.0.children_by_field_name("paren"))
    }

    /// Get the field `value` which has kind `number?` ([Number])
    pub fn value(&self) -> (r: Option<NodeResult<'tree, Number<'tree>>>)
        ensures
            self.0.field_children("value"@).len() > 0 ==> r == Some(typed::<Number<'tree>>(&self.0.field_children("value"@)[0])),
            self.0.field_children("value"@).len() == 0 ==> r is None,
    {
        typed_opt::<Number<'tree>>(self.0.child_by_field_name("value"))
    }

    /// The underlying node.
    pub fn node(&self) -> (r: &&'tree SyntaxNode)
        ensures
            *r == self.0,
    {
        &self.0
    }

    /// The underlying node, to replace in place.
    pub fn node_mut(&mut self) -> (r: &mut &'tree SyntaxNode)
        ensures
            *r == old(self).0,
            final(self).0 == *final(r),
    {
        &mut self.0
    }

    /// The underlying node, giving up the typed view.
    pub fn into_node(self) -> (r: &'tree SyntaxNode)
        ensures
            r == self.0,
    {
        self.0
    }

    /// Views `node` as this type without checking its kind.
    pub fn from_node_unchecked(node: &'tree SyntaxNode) -> (r: Self)
        ensures
            r.0 == node,
    {
        Self(node)
    }
}

impl<'tree> TryFrom<&'tree SyntaxNode> for ListValueDef<'tree> {
    type Error = IncorrectKind<'tree>;

    /// Views `node` as this type if it has this type's kind.
    fn try_from(node: &'tree SyntaxNode) -> (r: NodeResult<'tree, Self>)
        ensures
            node.kind@ == "list_value_def"@ ==> r == Ok::<Self, IncorrectKind<'tree>>(Self(node)),
            node.kind@ != "list_value_def"@ ==> r == Err::<Self, IncorrectKind<'tree>>(IncorrectKind { node, kind: Self::KIND }),
    {
        if str_eq(node.kind, Self::KIND) {
            Ok(Self(node))
        } else {
            Err(IncorrectKind { node, kind: Self::KIND })
        }
    }
}

impl<'tree> TryFromSpecImpl<&'tree SyntaxNode> for ListValueDef<'tree> {
    open spec fn obeys_try_from_spec() -> bool {
        true
    }

    open spec fn try_from_spec(node: &'tree SyntaxNode) -> NodeResult<'tree, Self> {
        if node.kind@ == "list_value_def"@ {
            Ok(Self(node))
        } else {
            Err(IncorrectKind { node, kind: Self::KIND })
        }
    }
}

/// Typed node `list_value_defs`
///
/// This node has children: `list_value_def+` ([ListValueDef])
#[derive(Debug, Clone, Copy, PartialEq, Eq, Hash)]
#[allow(non_camel_case_types)]
pub struct ListValueDefs<'tree>(pub &'tree SyntaxNode);

impl<'tree> ListValueDefs<'tree> {
    /// The kind of the nodes of this type.
    pub const KIND: &'static str = "list_value_defs";

    /// Get the node's named children
    /// For a node that the ink grammar produced, there is at least one child.
    pub fn children(&self) -> (r: Vec<NodeResult<'tree, ExtraOr<'tree, ListValueDef<'tree>>>>)
        ensures
            r.len() == self.0.named_children_spec().len(),
            forall|i: int|
                0 <= i < r.len() ==> r[i] == typed::<ExtraOr<'tree, ListValueDef<'tree>>>(&self.0.named_children_spec()[i]),
    {
        typed_all::<ExtraOr<'tree, ListValueDef<'tree>>>(self.0.named_children())
    }

    /// Get the node's named child #i
    pub fn child(&self, i: usize) -> (r: Option<NodeResult<'tree, ExtraOr<'tree, ListValueDef<'tree>>>>)
        ensures
            i < self.0.named_children_spec().len() ==> r == Some(typed::<ExtraOr<'tree, ListValueDef<'tree>>>(&self.0.named_children_spec()[i as int])),
            i >= self.0.named_children_spec().len() ==> r is None,
    {
        typed_opt::<ExtraOr<'tree, ListValueDef<'tree>>>(self.0.named_child(i))
    }

    /// The underlying node.
    pub fn node(&self) -> (r: &&'tree SyntaxNode)
        ensures
            *r == self.0,
    {
        &self.0
    }

    /// The underlying node, to replace in place.
    pub fn node_mut(&mut self) -> (r: &mut &'tree SyntaxNode)
        ensures
            *r == old(self).0,
            final(self).0 == *final(r),
    {
        &mut self.0
    }

    /// The underlying node, giving up the typed view.
    pub fn into_node(self) -> (r: &'tree SyntaxNode)
        ensures
            r == self.0,
    {
        self.0
    }

    /// Views `node` as this type without checking its kind.
    pub fn from_node_unchecked(node: &'tree SyntaxNode) -> (r: Self)
        ensures
            r.0 == node,
    {
        Self(node)
    }
}

impl<'tree> TryFrom<&'tree SyntaxNode> for ListValueDefs<'tree> {
    type Error = IncorrectKind<'tree>;

    /// Views `node` as this type if it has this type's kind.
    fn try_from(node: &'tree SyntaxNode) -> (r: NodeResult<'tree, Self>)
        ensures
            node.kind@ == "list_value_defs"@ ==> r == Ok::<Self, IncorrectKind<'tree>>(Self(node)),
            node.kind@ != "list_value_defs"@ ==> r == Err::<Self, IncorrectKind<'tree>>(IncorrectKind { node, kind: Self::KIND }),
    {
        if str_eq(node.kind, Self::KIND) {
            Ok(Self(node))
        } else {
            Err(IncorrectKind { node, kind: Self::KIND })
        }
    }
}

impl<'tree> TryFromSpecImpl<&'tree SyntaxNode> for ListValueDefs<'tree> {
    open spec fn obeys_try_from_spec() -> bool {
        true
    }

    open spec fn try_from_spec(node: &'tree SyntaxNode) -> NodeResult<'tree, Self> {
        if node.kind@ == "list_value_defs"@ {
            Ok(Self(node))
        } else {
            Err(IncorrectKind { node, kind: Self::KIND })
        }
    }
}

/// Typed node `list_values`
///
/// This node has children: `{identifier | qualified_name}*`:
/// - [Identifier]
/// - [QualifiedName]
#[derive(Debug, Clone, Copy, PartialEq, Eq, Hash)]
#[allow(non_camel_case_types)]
pub struct ListValues<'tree>(pub &'tree SyntaxNode);

impl<'tree> ListValues<'tree> {
    /// The kind of the nodes of this type.
    pub const KIND: &'static str = "list_values";

    /// Get the node's named children
    pub fn children(&self) -> (r: Vec<NodeResult<'tree, ExtraOr<'tree, anon_unions::Identifier_QualifiedName<'tree>>>>)
        ensures
            r.len() == self.0.named_children_spec().len(),
            forall|i: int|
                0 <= i < r.len() ==> r[i] == typed::<ExtraOr<'tree, anon_unions::Identifier_QualifiedName<'tree>>>(&self.0.named_children_spec()[i]),
    {
        typed_all::<ExtraOr<'tree, anon_unions::Identifier_QualifiedName<'tree>>>(self.0.named_children())
    }

    /// Get the node's named child #i
    pub fn child(&self, i: usize) -> (r: Option<NodeResult<'tree, ExtraOr<'tree, anon_unions::Identifier_QualifiedName<'tree>>>>)
        ensures
            i < self.0.named_children_spec().len() ==> r == Some(typed::<ExtraOr<'tree, anon_unions::Identifier_QualifiedName<'tree>>>(&self.0.named_children_spec()[i as int])),
            i >= self.0.named_children_spec().len() ==> r is None,
    {
        typed_opt::<ExtraOr<'tree, anon_unions::Identifier_QualifiedName<'tree>>>(self.0.named_child(i))
    }

    /// The underlying node.
    pub fn node(&self) -> (r: &&'tree SyntaxNode)
        ensures
            *r == self.0,
    {
        &self.0
    }

    /// The underlying node, to replace in place.
    pub fn node_mut(&mut self) -> (r: &mut &'tree SyntaxNode)
        ensures
            *r == old(self).0,
            final(self).0 == *final(r),
    {
        &mut self.0
    }

    /// The underlying node, giving up the typed view.
    pub fn into_node(self) -> (r: &'tree SyntaxNode)
        ensures
            r == self.0,
    {
        self.0
    }

    /// Views `node` as this type without checking its kind.
    pub fn from_node_unchecked(node: &'tree SyntaxNode) -> (r: Self)
        ensures
            r.0 == node,
    {
        Self(node)
    }
}

impl<'tree> TryFrom<&'tree SyntaxNode> for ListValues<'tree> {
    type Error = IncorrectKind<'tree>;

    /// Views `node` as this type if it has this type's kind.
    fn try_from(node: &'tree SyntaxNode) -> (r: NodeResult<'tree, Self>)
        ensures
            node.kind@ == "list_values"@ ==> r == Ok::<Self, IncorrectKind<'tree>>(Self(node)),
            node.kind@ != "list_values"@ ==> r == Err::<Self, IncorrectKind<'tree>>(IncorrectKind { node, kind: Self::KIND }),
    {
        if str_eq(node.kind, Self::KIND) {
            Ok(Self(node))
        } else {
            Err(IncorrectKind { node, kind: Self::KIND })
        }
    }
}

impl<'tree> TryFromSpecImpl<&'tree SyntaxNode> for ListValues<'tree> {
    open spec fn obeys_try_from_spec() -> bool {
        true
    }

    open spec fn try_from_spec(node: &'tree SyntaxNode) -> NodeResult<'tree, Self> {
        if node.kind@ == "list_values"@ {
            Ok(Self(node))
        } else {
            Err(IncorrectKind { node, kind: Self::KIND })
        }
    }
}

/// Typed node `multiline_alternatives`
///
/// This node has these fields:
/// - `type`: `{cycle | once | shuffle | stopping}+` ([anon_unions::Cycle_Once_Shuffle_Stopping])
///
/// And additional children: `alt_arm*` ([AltArm])
#[derive(Debug, Clone, Copy, PartialEq, Eq, Hash)]
#[allow(non_camel_case_types)]
pub struct MultilineAlternatives<'tree>(pub &'tree SyntaxNode);

impl<'tree> MultilineAlternatives<'tree> {
    /// The kind of the nodes of this type.
    pub const KIND: &'static str = "multiline_alternatives";

    /// Get the field `type` which has kind `{cycle | once | shuffle | stopping}+` ([anon_unions::Cycle_Once_Shuffle_Stopping])
    /// For a node that the ink grammar produced, there is at least one child.
    pub fn types(&self) -> (r: Vec<NodeResult<'tree, ExtraOr<'tree, anon_unions::Cycle_Once_Shuffle_Stopping<'tree>>>>)
        ensures
            r.len() == self.0.field_children("type"@).len(),
            forall|i: int|
                0 <= i < r.len() ==> r[i] == typed::<ExtraOr<'tree, anon_unions::Cycle_Once_Shuffle_Stopping<'tree>>>(&self.0.field_children("type"@)[i]),
    {
        typed_all::<ExtraOr<'tree, anon_unions::Cycle_Once_Shuffle_Stopping<'tree>>>(self.0.children_by_field_name("type"))
    }

    /// Get the node's named children
    /// For a node that the ink grammar produced, there is at least one child.
    pub fn children(&self) -> (r: Vec<NodeResult<'tree, ExtraOr<'tree, anon_unions::AltArm_Cycle_Once_Shuffle_Stopping<'tree>>>>)
        ensures
            r.len() == self.0.named_children_spec().len(),
            forall|i: int|
                0 <= i < r.len() ==> r[i] == typed::<ExtraOr<'tree, anon_unions::AltArm_Cycle_Once_Shuffle_Stopping<'tree>>>(&self.0.named_children_spec()[i]),
    {
        typed_all::<ExtraOr<'tree, anon_unions::AltArm_Cycle_Once_Shuffle_Stopping<'tree>>>(self.0.named_children())
    }

    /// Get the node's named child #i
    pub fn child(&self, i: usize) -> (r: Option<NodeResult<'tree, ExtraOr<'tree, anon_unions::AltArm_Cycle_Once_Shuffle_Stopping<'tree>>>>)
        ensures
            i < self.0.named_children_spec().len() ==> r == Some(typed::<ExtraOr<'tree, anon_unions::AltArm_Cycle_Once_Shuffle_Stopping<'tree>>>(&self.0.named_children_spec()[i as int])),
            i >= self.0.named_children_spec().len() ==> r is None,
    {
        typed_opt::<ExtraOr<'tree, anon_unions::AltArm_Cycle_Once_Shuffle_Stopping<'tree>>>(self.0.named_child(i))
    }

    /// The underlying node.
    pub fn node(&self) -> (r: &&'tree SyntaxNode)
        ensures
            *r == self.0,
    {
        &self.0
    }

    /// The underlying node, to replace in place.
    pub fn node_mut(&mut self) -> (r: &mut &'tree SyntaxNode)
        ensures
            *r == old(self).0,
            final(self).0 == *final(r),
    {
        &mut self.0
    }

    /// The underlying node, giving up the typed view.
    pub fn into_node(self) -> (r: &'tree SyntaxNode)
        ensures
            r == self.0,
    {
        self.0
    }

    /// Views `node` as this type without checking its kind.
    pub fn from_node_unchecked(node: &'tree SyntaxNode) -> (r: Self)
        ensures
            r.0 == node,
    {
        Self(node)
    }
}

impl<'tree> TryFrom<&'tree SyntaxNode> for MultilineAlternatives<'tree> {
    type Error = IncorrectKind<'tree>;

    /// Views `node` as this type if it has this type's kind.
    fn try_from(node: &'tree SyntaxNode) -> (r: NodeResult<'tree, Self>)
        ensures
            node.kind@ == "multiline_alternatives"@ ==> r == Ok::<Self, IncorrectKind<'tree>>(Self(node)),
            node.kind@ != "multiline_alternatives"@ ==> r == Err::<Self, IncorrectKind<'tree>>(IncorrectKind { node, kind: Self::KIND }),
    {
        if str_eq(node.kind, Self::KIND) {
            Ok(Self(node))
        } else {
            Err(IncorrectKind { node, kind: Self::KIND })
        }
    }
}

impl<'tree> TryFromSpecImpl<&'tree SyntaxNode> for MultilineAlternatives<'tree> {
    open spec fn obeys_try_from_spec() -> bool {
        true
    }

    open spec fn try_from_spec(node: &'tree SyntaxNode) -> NodeResult<'tree, Self> {
        if node.kind@ == "multiline_alternatives"@ {
            Ok(Self(node))
        } else {
            Err(IncorrectKind { node, kind: Self::KIND })
        }
    }
}

/// Typed node `number`
///
/// This node has no children
#[derive(Debug, Clone, Copy, PartialEq, Eq, Hash)]
#[allow(non_camel_case_types)]
pub struct Number<'tree>(pub &'tree SyntaxNode);

impl<'tree> Number<'tree> {
    /// The kind of the nodes of this type.
    pub const KIND: &'static str = "number";

    /// The underlying node.
    pub fn node(&self) -> (r: &&'tree SyntaxNode)
        ensures
            *r == self.0,
    {
        &self.0
    }

    /// The underlying node, to replace in place.
    pub fn node_mut(&mut self) -> (r: &mut &'tree SyntaxNode)
        ensures
            *r == old(self).0,
            final(self).0 == *final(r),
    {
        &mut self.0
    }

    /// The underlying node, giving up the typed view.
    pub fn into_node(self) -> (r: &'tree SyntaxNode)
        ensures
            r == self.0,
    {
        self.0
    }

    /// Views `node` as this type without checking its kind.
    pub fn from_node_unchecked(node: &'tree SyntaxNode) -> (r: Self)
        ensures
            r.0 == node,
    {
        Self(node)
    }
}

impl<'tree> TryFrom<&'tree SyntaxNode> for Number<'tree> {
    type Error = IncorrectKind<'tree>;

    /// Views `node` as this type if it has this type's kind.
    fn try_from(node: &'tree SyntaxNode) -> (r: NodeResult<'tree, Self>)
        ensures
            node.kind@ == "number"@ ==> r == Ok::<Self, IncorrectKind<'tree>>(Self(node)),
            node.kind@ != "number"@ ==> r == Err::<Self, IncorrectKind<'tree>>(IncorrectKind { node, kind: Self::KIND }),
    {
        if str_eq(node.kind, Self::KIND) {
            Ok(Self(node))
        } else {
            Err(IncorrectKind { node, kind: Self::KIND })
        }
    }
}

impl<'tree> TryFromSpecImpl<&'tree SyntaxNode> for Number<'tree> {
    open spec fn obeys_try_from_spec() -> bool {
        true
    }

    open spec fn try_from_spec(node: &'tree SyntaxNode) -> NodeResult<'tree, Self> {
        if node.kind@ == "number"@ {
            Ok(Self(node))
        } else {
            Err(IncorrectKind { node, kind: Self::KIND })
        }
    }
}

/// Typed node `params`
///
/// This node has these fields:
/// - `ref`: `ref*` ([unnamed::Ref])
///
/// And additional children: `{divert | identifier}+`:
/// - [Divert]
/// - [Identifier]
#[derive(Debug, Clone, Copy, PartialEq, Eq, Hash)]
#[allow(non_camel_case_types)]
pub struct Params<'tree>(pub &'tree SyntaxNode);

impl<'tree> Params<'tree> {
    /// The kind of the nodes of this type.
    pub const KIND: &'static str = "params";

    /// Get the field `ref` which has kind `ref*` ([unnamed::Ref])
    pub fn refs(&self) -> (r: Vec<NodeResult<'tree, ExtraOr<'tree, unnamed::Ref<'tree>>>>)
        ensures
            r.len() == self.0.field_children("ref"@).len(),
            forall|i: int|
                0 <= i < r.len() ==> r[i] == typed::<ExtraOr<'tree, unnamed::Ref<'tree>>>(&self.0.field_children("ref"@)[i]),
    {
        typed_all::<ExtraOr<'tree, unnamed::Ref<'tree>>>(self.0.children_by_field_name("ref"))
    }

    /// Get the node's named children
    /// For a node that the ink grammar produced, there is at least one child.
    pub fn children(&self) -> (r: Vec<NodeResult<'tree, ExtraOr<'tree, anon_unions::Divert_Identifier_Ref<'tree>>>>)
        ensures
            r.len() == self.0.named_children_spec().len(),
            forall|i: int|
                0 <= i < r.len() ==> r[i] == typed::<ExtraOr<'tree, anon_unions::Divert_Identifier_Ref<'tree>>>(&self.0.named_children_spec()[i]),
    {
        typed_all::<ExtraOr<'tree, anon_unions::Divert_Identifier_Ref<'tree>>>(self.0.named_children())
    }

    /// Get the node's named child #i
    pub fn child(&self, i: usize) -> (r: Option<NodeResult<'tree, ExtraOr<'tree, anon_unions::Divert_Identifier_Ref<'tree>>>>)
        ensures
            i < self.0.named_children_spec().len() ==> r == Some(typed::<ExtraOr<'tree, anon_unions::Divert_Identifier_Ref<'tree>>>(&self.0.named_children_spec()[i as int])),
            i >= self.0.named_children_spec().len() ==> r is None,
    {
        typed_opt::<ExtraOr<'tree, anon_unions::Divert_Identifier_Ref<'tree>>>(self.0.named_child(i))
    }

    /// The underlying node.
    pub fn node(&self) -> (r: &&'tree SyntaxNode)
        ensures
            *r == self.0,
    {
        &self.0
    }

    /// The underlying node, to replace in place.
    pub fn node_mut(&mut self) -> (r: &mut &'tree SyntaxNode)
        ensures
            *r == old(self).0,
            final(self).0 == *final(r),
    {
        &mut self.0
    }

    /// The underlying node, giving up the typed view.
    pub fn into_node(self) -> (r: &'tree SyntaxNode)
        ensures
            r == self.0,
    {
        self.0
    }

    /// Views `node` as this type without checking its kind.
    pub fn from_node_unchecked(node: &'tree SyntaxNode) -> (r: Self)
        ensures
            r.0 == node,
    {
        Self(node)
    }
}

impl<'tree> TryFrom<&'tree SyntaxNode> for Params<'tree> {
    type Error = IncorrectKind<'tree>;

    /// Views `node` as this type if it has this type's kind.
    fn try_from(node: &'tree SyntaxNode) -> (r: NodeResult<'tree, Self>)
        ensures
            node.kind@ == "params"@ ==> r == Ok::<Self, IncorrectKind<'tree>>(Self(node)),
            node.kind@ != "params"@ ==> r == Err::<Self, IncorrectKind<'tree>>(IncorrectKind { node, kind: Self::KIND }),
    {
        if str_eq(node.kind, Self::KIND) {
            Ok(Self(node))
        } else {
            Err(IncorrectKind { node, kind: Self::KIND })
        }
    }
}

impl<'tree> TryFromSpecImpl<&'tree SyntaxNode> for Params<'tree> {
    open spec fn obeys_try_from_spec() -> bool {
        true
    }

    open spec fn try_from_spec(node: &'tree SyntaxNode) -> NodeResult<'tree, Self> {
        if node.kind@ == "params"@ {
            Ok(Self(node))
        } else {
            Err(IncorrectKind { node, kind: Self::KIND })
        }
    }
}

/// Typed node `paren`
///
/// This node has a child: `{binary | boolean | call | divert | identifier | list_values | number | paren | postfix | qualified_name | string | unary}`:
/// - [Binary]
/// - [Boolean]
/// - [Call]
/// - [Divert]
/// - [Identifier]
/// - [ListValues]
/// - [Number]
/// - [Paren]
/// - [Postfix]
/// - [QualifiedName]
/// - [String]
/// - [Unary]
#[derive(Debug, Clone, Copy, PartialEq, Eq, Hash)]
#[allow(non_camel_case_types)]
pub struct Paren<'tree>(pub &'tree SyntaxNode);

impl<'tree> Paren<'tree> {
    /// The kind of the nodes of this type.
    pub const KIND: &'static str = "paren";

    /// Get the node's only named child
    pub fn child(&self) -> (r: NodeResult<'tree, anon_unions::Binary_Boolean_Call_Divert_Identifier_ListValues_Number_Paren_Postfix_QualifiedName_String_Unary<'tree>>)
        requires
            self.0.named_children_spec().len() > 0,
        ensures
            r == typed::<anon_unions::Binary_Boolean_Call_Divert_Identifier_ListValues_Number_Paren_Postfix_QualifiedName_String_Unary<'tree>>(&self.0.named_children_spec()[0]),
    {
        typed_opt::<anon_unions::Binary_Boolean_Call_Divert_Identifier_ListValues_Number_Paren_Postfix_QualifiedName_String_Unary<'tree>>(self.0.named_child(0)).expect(
            "tree-sitter node missing its required child, there should at least be a MISSING node in its place",
        )
    }

    /// The underlying node.
    pub fn node(&self) -> (r: &&'tree SyntaxNode)
        ensures
            *r == self.0,
    {
        &self.0
    }

    /// The underlying node, to replace in place.
    pub fn node_mut(&mut self) -> (r: &mut &'tree SyntaxNode)
        ensures
            *r == old(self).0,
            final(self).0 == *final(r),
    {
        &mut self.0
    }

    /// The underlying node, giving up the typed view.
    pub fn into_node(self) -> (r: &'tree SyntaxNode)
        ensures
            r == self.0,
    {
        self.0
    }

    /// Views `node` as this type without checking its kind.
    pub fn from_node_unchecked(node: &'tree SyntaxNode) -> (r: Self)
        ensures
            r.0 == node,
    {
        Self(node)
    }
}

impl<'tree> TryFrom<&'tree SyntaxNode> for Paren<'tree> {
    type Error = IncorrectKind<'tree>;

    /// Views `node` as this type if it has this type's kind.
    fn try_from(node: &'tree SyntaxNode) -> (r: NodeResult<'tree, Self>)
        ensures
            node.kind@ == "paren"@ ==> r == Ok::<Self, IncorrectKind<'tree>>(Self(node)),
            node.kind@ != "paren"@ ==> r == Err::<Self, IncorrectKind<'tree>>(IncorrectKind { node, kind: Self::KIND }),
    {
        if str_eq(node.kind, Self::KIND) {
            Ok(Self(node))
        } else {
            Err(IncorrectKind { node, kind: Self::KIND })
        }
    }
}

impl<'tree> TryFromSpecImpl<&'tree SyntaxNode> for Paren<'tree> {
    open spec fn obeys_try_from_spec() -> bool {
        true
    }

    open spec fn try_from_spec(node: &'tree SyntaxNode) -> NodeResult<'tree, Self> {
        if node.kind@ == "paren"@ {
            Ok(Self(node))
        } else {
            Err(IncorrectKind { node, kind: Self::KIND })
        }
    }
}

/// Typed node `postfix`
///
/// This node has these fields:
/// - `op`: `{++ | --}` ([anon_unions::Add_Add__Sub_Sub_])
///
/// And an additional child: `identifier` ([Identifier])
#[derive(Debug, Clone, Copy, PartialEq, Eq, Hash)]
#[allow(non_camel_case_types)]
pub struct Postfix<'tree>(pub &'tree SyntaxNode);

impl<'tree> Postfix<'tree> {
    /// The kind of the nodes of this type.
    pub const KIND: &'static str = "postfix";

    /// Get the field `op` which has kind `{++ | --}` ([anon_unions::Add_Add__Sub_Sub_])
    pub fn op(&self) -> (r: NodeResult<'tree, anon_unions::Add_Add__Sub_Sub_<'tree>>)
        requires
            self.0.field_children("op"@).len() > 0,
        ensures
            r == typed::<anon_unions::Add_Add__Sub_Sub_<'tree>>(&self.0.field_children("op"@)[0]),
    {
        typed_opt::<anon_unions::Add_Add__Sub_Sub_<'tree>>(self.0.child_by_field_name("op")).expect(
            "tree-sitter node missing its required child, there should at least be a MISSING node in its place",
        )
    }

    /// Get the node's named children
    /// For a node that the ink grammar produced, there is at least one child.
    pub fn children(&self) -> (r: Vec<NodeResult<'tree, ExtraOr<'tree, anon_unions::Identifier_Add_Add__Sub_Sub_<'tree>>>>)
        ensures
            r.len() == self.0.named_children_spec().len(),
            forall|i: int|
                0 <= i < r.len() ==> r[i] == typed::<ExtraOr<'tree, anon_unions::Identifier_Add_Add__Sub_Sub_<'tree>>>(&self.0.named_children_spec()[i]),
    {
        typed_all::<ExtraOr<'tree, anon_unions::Identifier_Add_Add__Sub_Sub_<'tree>>>(self.0.named_children())
    }

    /// Get the node's named child #i
    pub fn child(&self, i: usize) -> (r: Option<NodeResult<'tree, ExtraOr<'tree, anon_unions::Identifier_Add_Add__Sub_Sub_<'tree>>>>)
        ensures
            i < self.0.named_children_spec().len() ==> r == Some(typed::<ExtraOr<'tree, anon_unions::Identifier_Add_Add__Sub_Sub_<'tree>>>(&self.0.named_children_spec()[i as int])),
            i >= self.0.named_children_spec().len() ==> r is None,
    {
        typed_opt::<ExtraOr<'tree, anon_unions::Identifier_Add_Add__Sub_Sub_<'tree>>>(self.0.named_child(i))
    }

    /// The underlying node.
    pub fn node(&self) -> (r: &&'tree SyntaxNode)
        ensures
            *r == self.0,
    {
        &self.0
    }

    /// The underlying node, to replace in place.
    pub fn node_mut(&mut self) -> (r: &mut &'tree SyntaxNode)
        ensures
            *r == old(self).0,
            final(self).0 == *final(r),
    {
        &mut self.0
    }

    /// The underlying node, giving up the typed view.
    pub fn into_node(self) -> (r: &'tree SyntaxNode)
        ensures
            r == self.0,
    {
        self.0
    }

    /// Views `node` as this type without checking its kind.
    pub fn from_node_unchecked(node: &'tree SyntaxNode) -> (r: Self)
        ensures
            r.0 == node,
    {
        Self(node)
    }
}

impl<'tree> TryFrom<&'tree SyntaxNode> for Postfix<'tree> {
    type Error = IncorrectKind<'tree>;

    /// Views `node` as this type if it has this type's kind.
    fn try_from(node: &'tree SyntaxNode) -> (r: NodeResult<'tree, Self>)
        ensures
            node.kind@ == "postfix"@ ==> r == Ok::<Self, IncorrectKind<'tree>>(Self(node)),
            node.kind@ != "postfix"@ ==> r == Err::<Self, IncorrectKind<'tree>>(IncorrectKind { node, kind: Self::KIND }),
    {
        if str_eq(node.kind, Self::KIND) {
            Ok(Self(node))
        } else {
            Err(IncorrectKind { node, kind: Self::KIND })
        }
    }
}

impl<'tree> TryFromSpecImpl<&'tree SyntaxNode> for Postfix<'tree> {
    open spec fn obeys_try_from_spec() -> bool {
        true
    }

    open spec fn try_from_spec(node: &'tree SyntaxNode) -> NodeResult<'tree, Self> {
        if node.kind@ == "postfix"@ {
            Ok(Self(node))
        } else {
            Err(IncorrectKind { node, kind: Self::KIND })
        }
    }
}

/// Typed node `qualified_name`
///
/// This node has children: `identifier+` ([Identifier])
#[derive(Debug, Clone, Copy, PartialEq, Eq, Hash)]
#[allow(non_camel_case_types)]
pub struct QualifiedName<'tree>(pub &'tree SyntaxNode);

impl<'tree> QualifiedName<'tree> {
    /// The kind of the nodes of this type.
    pub const KIND: &'static str = "qualified_name";

    /// Get the node's named children
    /// For a node that the ink grammar produced, there is at least one child.
    pub fn children(&self) -> (r: Vec<NodeResult<'tree, ExtraOr<'tree, Identifier<'tree>>>>)
        ensures
            r.len() == self.0.named_children_spec().len(),
            forall|i: int|
                0 <= i < r.len() ==> r[i] == typed::<ExtraOr<'tree, Identifier<'tree>>>(&self.0.named_children_spec()[i]),
    {
        typed_all::<ExtraOr<'tree, Identifier<'tree>>>(self.0.named_children())
    }

    /// Get the node's named child #i
    pub fn child(&self, i: usize) -> (r: Option<NodeResult<'tree, ExtraOr<'tree, Identifier<'tree>>>>)
        ensures
            i < self.0.named_children_spec().len() ==> r == Some(typed::<ExtraOr<'tree, Identifier<'tree>>>(&self.0.named_children_spec()[i as int])),
            i >= self.0.named_children_spec().len() ==> r is None,
    {
        typed_opt::<ExtraOr<'tree, Identifier<'tree>>>(self.0.named_child(i))
    }

    /// The underlying node.
    pub fn node(&self) -> (r: &&'tree SyntaxNode)
        ensures
            *r == self.0,
    {
        &self.0
    }

    /// The underlying node, to replace in place.
    pub fn node_mut(&mut self) -> (r: &mut &'tree SyntaxNode)
        ensures
            *r == old(self).0,
            final(self).0 == *final(r),
    {
        &mut self.0
    }

    /// The underlying node, giving up the typed view.
    pub fn into_node(self) -> (r: &'tree SyntaxNode)
        ensures
            r == self.0,
    {
        self.0
    }

    /// Views `node` as this type without checking its kind.
    pub fn from_node_unchecked(node: &'tree SyntaxNode) -> (r: Self)
        ensures
            r.0 == node,
    {
        Self(node)
    }
}

impl<'tree> TryFrom<&'tree SyntaxNode> for QualifiedName<'tree> {
    type Error = IncorrectKind<'tree>;

    /// Views `node` as this type if it has this type's kind.
    fn try_from(node: &'tree SyntaxNode) -> (r: NodeResult<'tree, Self>)
        ensures
            node.kind@ == "qualified_name"@ ==> r == Ok::<Self, IncorrectKind<'tree>>(Self(node)),
            node.kind@ != "qualified_name"@ ==> r == Err::<Self, IncorrectKind<'tree>>(IncorrectKind { node, kind: Self::KIND }),
    {
        if str_eq(node.kind, Self::KIND) {
            Ok(Self(node))
        } else {
            Err(IncorrectKind { node, kind: Self::KIND })
        }
    }
}

impl<'tree> TryFromSpecImpl<&'tree SyntaxNode> for QualifiedName<'tree> {
    open spec fn obeys_try_from_spec() -> bool {
        true
    }

    open spec fn try_from_spec(node: &'tree SyntaxNode) -> NodeResult<'tree, Self> {
        if node.kind@ == "qualified_name"@ {
            Ok(Self(node))
        } else {
            Err(IncorrectKind { node, kind: Self::KIND })
        }
    }
}

/// Typed node `return`
///
/// This node has a child: `{binary | boolean | call | divert | identifier | list_values | number | paren | postfix | qualified_name | string | unary}`:
/// - [Binary]
/// - [Boolean]
/// - [Call]
/// - [Divert]
/// - [Identifier]
/// - [ListValues]
/// - [Number]
/// - [Paren]
/// - [Postfix]
/// - [QualifiedName]
/// - [String]
/// - [Unary]
#[derive(Debug, Clone, Copy, PartialEq, Eq, Hash)]
#[allow(non_camel_case_types)]
pub struct Return<'tree>(pub &'tree SyntaxNode);

impl<'tree> Return<'tree> {
    /// The kind of the nodes of this type.
    pub const KIND: &'static str = "return";

    /// Get the node's only named child
    pub fn child(&self) -> (r: NodeResult<'tree, anon_unions::Binary_Boolean_Call_Divert_Identifier_ListValues_Number_Paren_Postfix_QualifiedName_String_Unary<'tree>>)
        requires
            self.0.named_children_spec().len() > 0,
        ensures
            r == typed::<anon_unions::Binary_Boolean_Call_Divert_Identifier_ListValues_Number_Paren_Postfix_QualifiedName_String_Unary<'tree>>(&self.0.named_children_spec()[0]),
    {
        typed_opt::<anon_unions::Binary_Boolean_Call_Divert_Identifier_ListValues_Number_Paren_Postfix_QualifiedName_String_Unary<'tree>>(self.0.named_child(0)).expect(
            "tree-sitter node missing its required child, there should at least be a MISSING node in its place",
        )
    }

    /// The underlying node.
    pub fn node(&self) -> (r: &&'tree SyntaxNode)
        ensures
            *r == self.0,
    {
        &self.0
    }

    /// The underlying node, to replace in place.
    pub fn node_mut(&mut self) -> (r: &mut &'tree SyntaxNode)
        ensures
            *r == old(self).0,
            final(self).0 == *final(r),
    {
        &mut self.0
    }

    /// The underlying node, giving up the typed view.
    pub fn into_node(self) -> (r: &'tree SyntaxNode)
        ensures
            r == self.0,
    {
        self.0
    }

    /// Views `node` as this type without checking its kind.
    pub fn from_node_unchecked(node: &'tree SyntaxNode) -> (r: Self)
        ensures
            r.0 == node,
    {
        Self(node)
    }
}

impl<'tree> TryFrom<&'tree SyntaxNode> for Return<'tree> {
    type Error = IncorrectKind<'tree>;

    /// Views `node` as this type if it has this type's kind.
    fn try_from(node: &'tree SyntaxNode) -> (r: NodeResult<'tree, Self>)
        ensures
            node.kind@ == "return"@ ==> r == Ok::<Self, IncorrectKind<'tree>>(Self(node)),
            node.kind@ != "return"@ ==> r == Err::<Self, IncorrectKind<'tree>>(IncorrectKind { node, kind: Self::KIND }),
    {
        if str_eq(node.kind, Self::KIND) {
            Ok(Self(node))
        } else {
            Err(IncorrectKind { node, kind: Self::KIND })
        }
    }
}

impl<'tree> TryFromSpecImpl<&'tree SyntaxNode> for Return<'tree> {
    open spec fn obeys_try_from_spec() -> bool {
        true
    }

    open spec fn try_from_spec(node: &'tree SyntaxNode) -> NodeResult<'tree, Self> {
        if node.kind@ == "return"@ {
            Ok(Self(node))
        } else {
            Err(IncorrectKind { node, kind: Self::KIND })
        }
    }
}

/// Typed node `stitch`
///
/// This node has these fields:
/// - `name`: `identifier` ([Identifier])
/// - `params`: `{( | ) | params}*` ([anon_unions::LParen__RParen__Params])
/// - `start_mark`: `=` ([symbols::Eq_])
#[derive(Debug, Clone, Copy, PartialEq, Eq, Hash)]
#[allow(non_camel_case_types)]
pub struct Stitch<'tree>(pub &'tree SyntaxNode);

impl<'tree> Stitch<'tree> {
    /// The kind of the nodes of this type.
    pub const KIND: &'static str = "stitch";

    /// Get the field `name` which has kind `identifier` ([Identifier])
    pub fn name(&self) -> (r: NodeResult<'tree, Identifier<'tree>>)
        requires
            self.0.field_children("name"@).len() > 0,
        ensures
            r == typed::<Identifier<'tree>>(&self.0.field_children("name"@)[0]),
    {
        typed_opt::<Identifier<'tree>>(self.0.child_by_field_name("name")).expect(
            "tree-sitter node missing its required child, there should at least be a MISSING node in its place",
        )
    }

    /// Get the field `params` which has kind `{( | ) | params}*` ([anon_unions::LParen__RParen__Params])
    pub fn paramss(&self) -> (r: Vec<NodeResult<'tree, ExtraOr<'tree, anon_unions::LParen__RParen__Params<'tree>>>>)
        ensures
            r.len() == self.0.field_children("params"@).len(),
            forall|i: int|
                0 <= i < r.len() ==> r[i] == typed::<ExtraOr<'tree, anon_unions::LParen__RParen__Params<'tree>>>(&self.0.field_children("params"@)[i]),
    {
        typed_all::<ExtraOr<'tree, anon_unions::LParen__RParen__Params<'tree>>>(self.0.children_by_field_name("params"))
    }

    /// Get the field `start_mark` which has kind `=` ([symbols::Eq_])
    pub fn start_mark(&self) -> (r: NodeResult<'tree, symbols::Eq_<'tree>>)
        requires
            self.0.field_children("start_mark"@).len() > 0,
        ensures
            r == typed::<symbols::Eq_<'tree>>(&self.0.field_children("start_mark"@)[0]),
    {
        typed_opt::<symbols::Eq_<'tree>>(self.0.child_by_field_name("start_mark")).expect(
            "tree-sitter node missing its required child, there should at least be a MISSING node in its place",
        )
    }

    /// The underlying node.
    pub fn node(&self) -> (r: &&'tree SyntaxNode)
        ensures
            *r == self.0,
    {
        &self.0
    }

    /// The underlying node, to replace in place.
    pub fn node_mut(&mut self) -> (r: &mut &'tree SyntaxNode)
        ensures
            *r == old(self).0,
            final(self).0 == *final(r),
    {
        &mut self.0
    }

    /// The underlying node, giving up the typed view.
    pub fn into_node(self) -> (r: &'tree SyntaxNode)
        ensures
            r == self.0,
    {
        self.0
    }

    /// Views `node` as this type without checking its kind.
    pub fn from_node_unchecked(node: &'tree SyntaxNode) -> (r: Self)
        ensures
            r.0 == node,
    {
        Self(node)
    }
}

impl<'tree> TryFrom<&'tree SyntaxNode> for Stitch<'tree> {
    type Error = IncorrectKind<'tree>;

    /// Views `node` as this type if it has this type's kind.
    fn try_from(node: &'tree SyntaxNode) -> (r: NodeResult<'tree, Self>)
        ensures
            node.kind@ == "stitch"@ ==> r == Ok::<Self, IncorrectKind<'tree>>(Self(node)),
            node.kind@ != "stitch"@ ==> r == Err::<Self, IncorrectKind<'tree>>(IncorrectKind { node, kind: Self::KIND }),
    {
        if str_eq(node.kind, Self::KIND) {
            Ok(Self(node))
        } else {
            Err(IncorrectKind { node, kind: Self::KIND })
        }
    }
}

impl<'tree> TryFromSpecImpl<&'tree SyntaxNode> for Stitch<'tree> {
    open spec fn obeys_try_from_spec() -> bool {
        true
    }

    open spec fn try_from_spec(node: &'tree SyntaxNode) -> NodeResult<'tree, Self> {
        if node.kind@ == "stitch"@ {
            Ok(Self(node))
        } else {
            Err(IncorrectKind { node, kind: Self::KIND })
        }
    }
}

/// Typed node `stitch_block`
///
/// This node has children: `{content_block | stitch}+`:
/// - [ContentBlock]
/// - [Stitch]
#[derive(Debug, Clone, Copy, PartialEq, Eq, Hash)]
#[allow(non_camel_case_types)]
pub struct StitchBlock<'tree>(pub &'tree SyntaxNode);

impl<'tree> StitchBlock<'tree> {
    /// The kind of the nodes of this type.
    pub const KIND: &'static str = "stitch_block";

    /// Get the node's named children
    /// For a node that the ink grammar produced, there is at least one child.
    pub fn children(&self) -> (r: Vec<NodeResult<'tree, ExtraOr<'tree, anon_unions::ContentBlock_Stitch<'tree>>>>)
        ensures
            r.len() == self.0.named_children_spec().len(),
            forall|i: int|
                0 <= i < r.len() ==> r[i] == typed::<ExtraOr<'tree, anon_unions::ContentBlock_Stitch<'tree>>>(&self.0.named_children_spec()[i]),
    {
        typed_all::<ExtraOr<'tree, anon_unions::ContentBlock_Stitch<'tree>>>(self.0.named_children())
    }

    /// Get the node's named child #i
    pub fn child(&self, i: usize) -> (r: Option<NodeResult<'tree, ExtraOr<'tree, anon_unions::ContentBlock_Stitch<'tree>>>>)
        ensures
            i < self.0.named_children_spec().len() ==> r == Some(typed::<ExtraOr<'tree, anon_unions::ContentBlock_Stitch<'tree>>>(&self.0.named_children_spec()[i as int])),
            i >= self.0.named_children_spec().len() ==> r is None,
    {
        typed_opt::<ExtraOr<'tree, anon_unions::ContentBlock_Stitch<'tree>>>(self.0.named_child(i))
    }

    /// The underlying node.
    pub fn node(&self) -> (r: &&'tree SyntaxNode)
        ensures
            *r == self.0,
    {
        &self.0
    }

    /// The underlying node, to replace in place.
    pub fn node_mut(&mut self) -> (r: &mut &'tree SyntaxNode)
        ensures
            *r == old(self).0,
            final(self).0 == *final(r),
    {
        &mut self.0
    }

    /// The underlying node, giving up the typed view.
    pub fn into_node(self) -> (r: &'tree SyntaxNode)
        ensures
            r == self.0,
    {
        self.0
    }

    /// Views `node` as this type without checking its kind.
    pub fn from_node_unchecked(node: &'tree SyntaxNode) -> (r: Self)
        ensures
            r.0 == node,
    {
        Self(node)
    }
}

impl<'tree> TryFrom<&'tree SyntaxNode> for StitchBlock<'tree> {
    type Error = IncorrectKind<'tree>;

    /// Views `node` as this type if it has this type's kind.
    fn try_from(node: &'tree SyntaxNode) -> (r: NodeResult<'tree, Self>)
        ensures
            node.kind@ == "stitch_block"@ ==> r == Ok::<Self, IncorrectKind<'tree>>(Self(node)),
            node.kind@ != "stitch_block"@ ==> r == Err::<Self, IncorrectKind<'tree>>(IncorrectKind { node, kind: Self::KIND }),
    {
        if str_eq(node.kind, Self::KIND) {
            Ok(Self(node))
        } else {
            Err(IncorrectKind { node, kind: Self::KIND })
        }
    }
}

impl<'tree> TryFromSpecImpl<&'tree SyntaxNode> for StitchBlock<'tree> {
    open spec fn obeys_try_from_spec() -> bool {
        true
    }

    open spec fn try_from_spec(node: &'tree SyntaxNode) -> NodeResult<'tree, Self> {
        if node.kind@ == "stitch_block"@ {
            Ok(Self(node))
        } else {
            Err(IncorrectKind { node, kind: Self::KIND })
        }
    }
}

/// Typed node `string`
///
/// This node has no children
#[derive(Debug, Clone, Copy, PartialEq, Eq, Hash)]
#[allow(non_camel_case_types)]
pub struct String<'tree>(pub &'tree SyntaxNode);

impl<'tree> String<'tree> {
    /// The kind of the nodes of this type.
    pub const KIND: &'static str = "string";

    /// The underlying node.
    pub fn node(&self) -> (r: &&'tree SyntaxNode)
        ensures
            *r == self.0,
    {
        &self.0
    }

    /// The underlying node, to replace in place.
    pub fn node_mut(&mut self) -> (r: &mut &'tree SyntaxNode)
        ensures
            *r == old(self).0,
            final(self).0 == *final(r),
    {
        &mut self.0
    }

    /// The underlying node, giving up the typed view.
    pub fn into_node(self) -> (r: &'tree SyntaxNode)
        ensures
            r == self.0,
    {
        self.0
    }

    /// Views `node` as this type without checking its kind.
    pub fn from_node_unchecked(node: &'tree SyntaxNode) -> (r: Self)
        ensures
            r.0 == node,
    {
        Self(node)
    }
}

impl<'tree> TryFrom<&'tree SyntaxNode> for String<'tree> {
    type Error = IncorrectKind<'tree>;

    /// Views `node` as this type if it has this type's kind.
    fn try_from(node: &'tree SyntaxNode) -> (r: NodeResult<'tree, Self>)
        ensures
            node.kind@ == "string"@ ==> r == Ok::<Self, IncorrectKind<'tree>>(Self(node)),
            node.kind@ != "string"@ ==> r == Err::<Self, IncorrectKind<'tree>>(IncorrectKind { node, kind: Self::KIND }),
    {
        if str_eq(node.kind, Self::KIND) {
            Ok(Self(node))
        } else {
            Err(IncorrectKind { node, kind: Self::KIND })
        }
    }
}

impl<'tree> TryFromSpecImpl<&'tree SyntaxNode> for String<'tree> {
    open spec fn obeys_try_from_spec() -> bool {
        true
    }

    open spec fn try_from_spec(node: &'tree SyntaxNode) -> NodeResult<'tree, Self> {
        if node.kind@ == "string"@ {
            Ok(Self(node))
        } else {
            Err(IncorrectKind { node, kind: Self::KIND })
        }
    }
}

/// Typed node `tag`
///
/// This node has children: `{alternatives | cond_block | conditional_text | eval | glue | multiline_alternatives | text}*`:
/// - [Alternatives]
/// - [CondBlock]
/// - [ConditionalText]
/// - [Eval]
/// - [Glue]
/// - [MultilineAlternatives]
/// - [Text]
#[derive(Debug, Clone, Copy, PartialEq, Eq, Hash)]
#[allow(non_camel_case_types)]
pub struct Tag<'tree>(pub &'tree SyntaxNode);

impl<'tree> Tag<'tree> {
    /// The kind of the nodes of this type.
    pub const KIND: &'static str = "tag";

    /// Get the node's named children
    pub fn children(&self) -> (r: Vec<NodeResult<'tree, ExtraOr<'tree, anon_unions::Alternatives_CondBlock_ConditionalText_Eval_Glue_MultilineAlternatives_Text<'tree>>>>)
        ensures
            r.len() == self.0.named_children_spec().len(),
            forall|i: int|
                0 <= i < r.len() ==> r[i] == typed::<ExtraOr<'tree, anon_unions::Alternatives_CondBlock_ConditionalText_Eval_Glue_MultilineAlternatives_Text<'tree>>>(&self.0.named_children_spec()[i]),
    {
        typed_all::<ExtraOr<'tree, anon_unions::Alternatives_CondBlock_ConditionalText_Eval_Glue_MultilineAlternatives_Text<'tree>>>(self.0.named_children())
    }

    /// Get the node's named child #i
    pub fn child(&self, i: usize) -> (r: Option<NodeResult<'tree, ExtraOr<'tree, anon_unions::Alternatives_CondBlock_ConditionalText_Eval_Glue_MultilineAlternatives_Text<'tree>>>>)
        ensures
            i < self.0.named_children_spec().len() ==> r == Some(typed::<ExtraOr<'tree, anon_unions::Alternatives_CondBlock_ConditionalText_Eval_Glue_MultilineAlternatives_Text<'tree>>>(&self.0.named_children_spec()[i as int])),
            i >= self.0.named_children_spec().len() ==> r is None,
    {
        typed_opt::<ExtraOr<'tree, anon_unions::Alternatives_CondBlock_ConditionalText_Eval_Glue_MultilineAlternatives_Text<'tree>>>(self.0.named_child(i))
    }

    /// The underlying node.
    pub fn node(&self) -> (r: &&'tree SyntaxNode)
        ensures
            *r == self.0,
    {
        &self.0
    }

    /// The underlying node, to replace in place.
    pub fn node_mut(&mut self) -> (r: &mut &'tree SyntaxNode)
        ensures
            *r == old(self).0,
            final(self).0 == *final(r),
    {
        &mut self.0
    }

    /// The underlying node, giving up the typed view.
    pub fn into_node(self) -> (r: &'tree SyntaxNode)
        ensures
            r == self.0,
    {
        self.0
    }

    /// Views `node` as this type without checking its kind.
    pub fn from_node_unchecked(node: &'tree SyntaxNode) -> (r: Self)
        ensures
            r.0 == node,
    {
        Self(node)
    }
}

impl<'tree> TryFrom<&'tree SyntaxNode> for Tag<'tree> {
    type Error = IncorrectKind<'tree>;

    /// Views `node` as this type if it has this type's kind.
    fn try_from(node: &'tree SyntaxNode) -> (r: NodeResult<'tree, Self>)
        ensures
            node.kind@ == "tag"@ ==> r == Ok::<Self, IncorrectKind<'tree>>(Self(node)),
            node.kind@ != "tag"@ ==> r == Err::<Self, IncorrectKind<'tree>>(IncorrectKind { node, kind: Self::KIND }),
    {
        if str_eq(node.kind, Self::KIND) {
            Ok(Self(node))
        } else {
            Err(IncorrectKind { node, kind: Self::KIND })
        }
    }
}

impl<'tree> TryFromSpecImpl<&'tree SyntaxNode> for Tag<'tree> {
    open spec fn obeys_try_from_spec() -> bool {
        true
    }

    open spec fn try_from_spec(node: &'tree SyntaxNode) -> NodeResult<'tree, Self> {
        if node.kind@ == "tag"@ {
            Ok(Self(node))
        } else {
            Err(IncorrectKind { node, kind: Self::KIND })
        }
    }
}

/// Typed node `temp`
///
/// This node has these fields:
/// - `name`: `identifier` ([Identifier])
/// - `op`: `=` ([symbols::Eq_])
/// - `value`: `{binary | boolean | call | divert | identifier | list_values | number | paren | postfix | qualified_name | string | unary}` ([anon_unions::Binary_Boolean_Call_Divert_Identifier_ListValues_Number_Paren_Postfix_QualifiedName_String_Unary])
#[derive(Debug, Clone, Copy, PartialEq, Eq, Hash)]
#[allow(non_camel_case_types)]
pub struct Temp<'tree>(pub &'tree SyntaxNode);

impl<'tree> Temp<'tree> {
    /// The kind of the nodes of this type.
    pub const KIND: &'static str = "temp";

    /// Get the field `name` which has kind `identifier` ([Identifier])
    pub fn name(&self) -> (r: NodeResult<'tree, Identifier<'tree>>)
        requires
            self.0.field_children("name"@).len() > 0,
        ensures
            r == typed::<Identifier<'tree>>(&self.0.field_children("name"@)[0]),
    {
        typed_opt::<Identifier<'tree>>(self.0.child_by_field_name("name")).expect(
            "tree-sitter node missing its required child, there should at least be a MISSING node in its place",
        )
    }

    /// Get the field `op` which has kind `=` ([symbols::Eq_])
    pub fn op(&self) -> (r: NodeResult<'tree, symbols::Eq_<'tree>>)
        requires
            self.0.field_children("op"@).len() > 0,
        ensures
            r == typed::<symbols::Eq_<'tree>>(&self.0.field_children("op"@)[0]),
    {
        typed_opt::<symbols::Eq_<'tree>>(self.0.child_by_field_name("op")).expect(
            "tree-sitter node missing its required child, there should at least be a MISSING node in its place",
        )
    }

    /// Get the field `value` which has kind `{binary | boolean | call | divert | identifier | list_values | number | paren | postfix | qualified_name | string | unary}` ([anon_unions::Binary_Boolean_Call_Divert_Identifier_ListValues_Number_Paren_Postfix_QualifiedName_String_Unary])
    pub fn value(&self) -> (r: NodeResult<'tree, anon_unions::Binary_Boolean_Call_Divert_Identifier_ListValues_Number_Paren_Postfix_QualifiedName_String_Unary<'tree>>)
        requires
            self.0.field_children("value"@).len() > 0,
        ensures
            r == typed::<anon_unions::Binary_Boolean_Call_Divert_Identifier_ListValues_Number_Paren_Postfix_QualifiedName_String_Unary<'tree>>(&self.0.field_children("value"@)[0]),
    {
        typed_opt::<anon_unions::Binary_Boolean_Call_Divert_Identifier_ListValues_Number_Paren_Postfix_QualifiedName_String_Unary<'tree>>(self.0.child_by_field_name("value")).expect(
            "tree-sitter node missing its required child, there should at least be a MISSING node in its place",
        )
    }

    /// The underlying node.
    pub fn node(&self) -> (r: &&'tree SyntaxNode)
        ensures
            *r == self.0,
    {
        &self.0
    }

    /// The underlying node, to replace in place.
    pub fn node_mut(&mut self) -> (r: &mut &'tree SyntaxNode)
        ensures
            *r == old(self).0,
            final(self).0 == *final(r),
    {
        &mut self.0
    }

    /// The underlying node, giving up the typed view.
    pub fn into_node(self) -> (r: &'tree SyntaxNode)
        ensures
            r == self.0,
    {
        self.0
    }

    /// Views `node` as this type without checking its kind.
    pub fn from_node_unchecked(node: &'tree SyntaxNode) -> (r: Self)
        ensures
            r.0 == node,
    {
        Self(node)
    }
}

impl<'tree> TryFrom<&'tree SyntaxNode> for Temp<'tree> {
    type Error = IncorrectKind<'tree>;

    /// Views `node` as this type if it has this type's kind.
    fn try_from(node: &'tree SyntaxNode) -> (r: NodeResult<'tree, Self>)
        ensures
            node.kind@ == "temp"@ ==> r == Ok::<Self, IncorrectKind<'tree>>(Self(node)),
            node.kind@ != "temp"@ ==> r == Err::<Self, IncorrectKind<'tree>>(IncorrectKind { node, kind: Self::KIND }),
    {
        if str_eq(node.kind, Self::KIND) {
            Ok(Self(node))
        } else {
            Err(IncorrectKind { node, kind: Self::KIND })
        }
    }
}

impl<'tree> TryFromSpecImpl<&'tree SyntaxNode> for Temp<'tree> {
    open spec fn obeys_try_from_spec() -> bool {
        true
    }

    open spec fn try_from_spec(node: &'tree SyntaxNode) -> NodeResult<'tree, Self> {
        if node.kind@ == "temp"@ {
            Ok(Self(node))
        } else {
            Err(IncorrectKind { node, kind: Self::KIND })
        }
    }
}

/// Typed node `text`
///
/// This node has these fields:
/// - `args`: `{! | != | !? | % | && | ( | ) | * | + | ++ | , | - | -- | -> | . | / | < | <= | == | > | >= | ? | ^ | and | false | has | hasnt | mod | not | or | true | ||}*` ([anon_unions::Not__Not_Eq__Not_Question__Mod__And_And__LParen__RParen__Mul__Add__Add_Add__Comma__Sub__Sub_Sub__Sub_Gt__Dot__Div__Lt__Lt_Eq__Eq_Eq__Gt__Gt_Eq__Question__BitXor__And_False_Has_Hasnt_Mod_Not_Or_True_Or_Or_])
/// - `name`: `.*` ([symbols::Dot_])
/// - `op`: `{! | != | !? | % | && | * | + | ++ | - | -- | / | < | <= | == | > | >= | ? | ^ | and | has | hasnt | mod | not | or | ||}*` ([anon_unions::Not__Not_Eq__Not_Question__Mod__And_And__Mul__Add__Add_Add__Sub__Sub_Sub__Div__Lt__Lt_Eq__Eq_Eq__Gt__Gt_Eq__Question__BitXor__And_Has_Hasnt_Mod_Not_Or_Or_Or_])
/// - `target`: `{! | != | !? | % | && | ( | ) | * | + | ++ | , | - | -- | -> | . | / | < | <= | == | > | >= | ? | ^ | and | false | has | hasnt | mod | not | or | true | ||}*` ([anon_unions::Not__Not_Eq__Not_Question__Mod__And_And__LParen__RParen__Mul__Add__Add_Add__Comma__Sub__Sub_Sub__Sub_Gt__Dot__Div__Lt__Lt_Eq__Eq_Eq__Gt__Gt_Eq__Question__BitXor__And_False_Has_Hasnt_Mod_Not_Or_True_Or_Or_])
#[derive(Debug, Clone, Copy, PartialEq, Eq, Hash)]
#[allow(non_camel_case_types)]
pub struct Text<'tree>(pub &'tree SyntaxNode);

impl<'tree> Text<'tree> {
    /// The kind of the nodes of this type.
    pub const KIND: &'static str = "text";

    /// Get the field `args` which has kind `{! | != | !? | % | && | ( | ) | * | + | ++ | , | - | -- | -> | . | / | < | <= | == | > | >= | ? | ^ | and | false | has | hasnt | mod | not | or | true | ||}*` ([anon_unions::Not__Not_Eq__Not_Question__Mod__And_And__LParen__RParen__Mul__Add__Add_Add__Comma__Sub__Sub_Sub__Sub_Gt__Dot__Div__Lt__Lt_Eq__Eq_Eq__Gt__Gt_Eq__Question__BitXor__And_False_Has_Hasnt_Mod_Not_Or_True_Or_Or_])
    pub fn argss(&self) -> (r: Vec<NodeResult<'tree, ExtraOr<'tree, anon_unions::Not__Not_Eq__Not_Question__Mod__And_And__LParen__RParen__Mul__Add__Add_Add__Comma__Sub__Sub_Sub__Sub_Gt__Dot__Div__Lt__Lt_Eq__Eq_Eq__Gt__Gt_Eq__Question__BitXor__And_False_Has_Hasnt_Mod_Not_Or_True_Or_Or_<'tree>>>>)
        ensures
            r.len() == self.0.field_children("args"@).len(),
            forall|i: int|
                0 <= i < r.len() ==> r[i] == typed::<ExtraOr<'tree, anon_unions::Not__Not_Eq__Not_Question__Mod__And_And__LParen__RParen__Mul__Add__Add_Add__Comma__Sub__Sub_Sub__Sub_Gt__Dot__Div__Lt__Lt_Eq__Eq_Eq__Gt__Gt_Eq__Question__BitXor__And_False_Has_Hasnt_Mod_Not_Or_True_Or_Or_<'tree>>>(&self.0.field_children("args"@)[i]),
    {
        typed_all::<ExtraOr<'tree, anon_unions::Not__Not_Eq__Not_Question__Mod__And_And__LParen__RParen__Mul__Add__Add_Add__Comma__Sub__Sub_Sub__Sub_Gt__Dot__Div__Lt__Lt_Eq__Eq_Eq__Gt__Gt_Eq__Question__BitXor__And_False_Has_Hasnt_Mod_Not_Or_True_Or_Or_<'tree>>>(self.0.children_by_field_name("args"))
    }

    /// Get the field `name` which has kind `.*` ([symbols::Dot_])
    pub fn names(&self) -> (r: Vec<NodeResult<'tree, ExtraOr<'tree, symbols::Dot_<'tree>>>>)
        ensures
            r.len() == self.0.field_children("name"@).len(),
            forall|i: int|
                0 <= i < r.len() ==> r[i] == typed::<ExtraOr<'tree, symbols::Dot_<'tree>>>(&self.0.field_children("name"@)[i]),
    {
        typed_all::<ExtraOr<'tree, symbols::Dot_<'tree>>>(self.0.children_by_field_name("name"))
    }

    /// Get the field `op` which has kind `{! | != | !? | % | && | * | + | ++ | - | -- | / | < | <= | == | > | >= | ? | ^ | and | has | hasnt | mod | not | or | ||}*` ([anon_unions::Not__Not_Eq__Not_Question__Mod__And_And__Mul__Add__Add_Add__Sub__Sub_Sub__Div__Lt__Lt_Eq__Eq_Eq__Gt__Gt_Eq__Question__BitXor__And_Has_Hasnt_Mod_Not_Or_Or_Or_])
    pub fn ops(&self) -> (r: Vec<NodeResult<'tree, ExtraOr<'tree, anon_unions::Not__Not_Eq__Not_Question__Mod__And_And__Mul__Add__Add_Add__Sub__Sub_Sub__Div__Lt__Lt_Eq__Eq_Eq__Gt__Gt_Eq__Question__BitXor__And_Has_Hasnt_Mod_Not_Or_Or_Or_<'tree>>>>)
        ensures
            r.len() == self.0.field_children("op"@).len(),
            forall|i: int|
                0 <= i < r.len() ==> r[i] == typed::<ExtraOr<'tree, anon_unions::Not__Not_Eq__Not_Question__Mod__And_And__Mul__Add__Add_Add__Sub__Sub_Sub__Div__Lt__Lt_Eq__Eq_Eq__Gt__Gt_Eq__Question__BitXor__And_Has_Hasnt_Mod_Not_Or_Or_Or_<'tree>>>(&self.0.field_children("op"@)[i]),
    {
        typed_all::<ExtraOr<'tree, anon_unions::Not__Not_Eq__Not_Question__Mod__And_And__Mul__Add__Add_Add__Sub__Sub_Sub__Div__Lt__Lt_Eq__Eq_Eq__Gt__Gt_Eq__Question__BitXor__And_Has_Hasnt_Mod_Not_Or_Or_Or_<'tree>>>(self.0.children_by_field_name("op"))
    }

    /// Get the field `target` which has kind `{! | != | !? | % | && | ( | ) | * | + | ++ | , | - | -- | -> | . | / | < | <= | == | > | >= | ? | ^ | and | false | has | hasnt | mod | not | or | true | ||}*` ([anon_unions::Not__Not_Eq__Not_Question__Mod__And_And__LParen__RParen__Mul__Add__Add_Add__Comma__Sub__Sub_Sub__Sub_Gt__Dot__Div__Lt__Lt_Eq__Eq_Eq__Gt__Gt_Eq__Question__BitXor__And_False_Has_Hasnt_Mod_Not_Or_True_Or_Or_])
    pub fn targets(&self) -> (r: Vec<NodeResult<'tree, ExtraOr<'tree, anon_unions::Not__Not_Eq__Not_Question__Mod__And_And__LParen__RParen__Mul__Add__Add_Add__Comma__Sub__Sub_Sub__Sub_Gt__Dot__Div__Lt__Lt_Eq__Eq_Eq__Gt__Gt_Eq__Question__BitXor__And_False_Has_Hasnt_Mod_Not_Or_True_Or_Or_<'tree>>>>)
        ensures
            r.len() == self.0.field_children("target"@).len(),
            forall|i: int|
                0 <= i < r.len() ==> r[i] == typed::<ExtraOr<'tree, anon_unions::Not__Not_Eq__Not_Question__Mod__And_And__LParen__RParen__Mul__Add__Add_Add__Comma__Sub__Sub_Sub__Sub_Gt__Dot__Div__Lt__Lt_Eq__Eq_Eq__Gt__Gt_Eq__Question__BitXor__And_False_Has_Hasnt_Mod_Not_Or_True_Or_Or_<'tree>>>(&self.0.field_children("target"@)[i]),
    {
        typed_all::<ExtraOr<'tree, anon_unions::Not__Not_Eq__Not_Question__Mod__And_And__LParen__RParen__Mul__Add__Add_Add__Comma__Sub__Sub_Sub__Sub_Gt__Dot__Div__Lt__Lt_Eq__Eq_Eq__Gt__Gt_Eq__Question__BitXor__And_False_Has_Hasnt_Mod_Not_Or_True_Or_Or_<'tree>>>(self.0.children_by_field_name("target"))
    }

    /// The underlying node.
    pub fn node(&self) -> (r: &&'tree SyntaxNode)
        ensures
            *r == self.0,
    {
        &self.0
    }

    /// The underlying node, to replace in place.
    pub fn node_mut(&mut self) -> (r: &mut &'tree SyntaxNode)
        ensures
            *r == old(self).0,
            final(self).0 == *final(r),
    {
        &mut self.0
    }

    /// The underlying node, giving up the typed view.
    pub fn into_node(self) -> (r: &'tree SyntaxNode)
        ensures
            r == self.0,
    {
        self.0
    }

    /// Views `node` as this type without checking its kind.
    pub fn from_node_unchecked(node: &'tree SyntaxNode) -> (r: Self)
        ensures
            r.0 == node,
    {
        Self(node)
    }
}

impl<'tree> TryFrom<&'tree SyntaxNode> for Text<'tree> {
    type Error = IncorrectKind<'tree>;

    /// Views `node` as this type if it has this type's kind.
    fn try_from(node: &'tree SyntaxNode) -> (r: NodeResult<'tree, Self>)
        ensures
            node.kind@ == "text"@ ==> r == Ok::<Self, IncorrectKind<'tree>>(Self(node)),
            node.kind@ != "text"@ ==> r == Err::<Self, IncorrectKind<'tree>>(IncorrectKind { node, kind: Self::KIND }),
    {
        if str_eq(node.kind, Self::KIND) {
            Ok(Self(node))
        } else {
            Err(IncorrectKind { node, kind: Self::KIND })
        }
    }
}

impl<'tree> TryFromSpecImpl<&'tree SyntaxNode> for Text<'tree> {
    open spec fn obeys_try_from_spec() -> bool {
        true
    }

    open spec fn try_from_spec(node: &'tree SyntaxNode) -> NodeResult<'tree, Self> {
        if node.kind@ == "text"@ {
            Ok(Self(node))
        } else {
            Err(IncorrectKind { node, kind: Self::KIND })
        }
    }
}

/// Typed node `thread`
///
/// This node has these fields:
/// - `target`: `{call | identifier}` ([anon_unions::Call_Identifier])
#[derive(Debug, Clone, Copy, PartialEq, Eq, Hash)]
#[allow(non_camel_case_types)]
pub struct Thread<'tree>(pub &'tree SyntaxNode);

impl<'tree> Thread<'tree> {
    /// The kind of the nodes of this type.
    pub const KIND: &'static str = "thread";

    /// Get the field `target` which has kind `{call | identifier}` ([anon_unions::Call_Identifier])
    pub fn target(&self) -> (r: NodeResult<'tree, anon_unions::Call_Identifier<'tree>>)
        requires
            self.0.field_children("target"@).len() > 0,
        ensures
            r == typed::<anon_unions::Call_Identifier<'tree>>(&self.0.field_children("target"@)[0]),
    {
        typed_opt::<anon_unions::Call_Identifier<'tree>>(self.0.child_by_field_name("target")).expect(
            "tree-sitter node missing its required child, there should at least be a MISSING node in its place",
        )
    }

    /// The underlying node.
    pub fn node(&self) -> (r: &&'tree SyntaxNode)
        ensures
            *r == self.0,
    {
        &self.0
    }

    /// The underlying node, to replace in place.
    pub fn node_mut(&mut self) -> (r: &mut &'tree SyntaxNode)
        ensures
            *r == old(self).0,
            final(self).0 == *final(r),
    {
        &mut self.0
    }

    /// The underlying node, giving up the typed view.
    pub fn into_node(self) -> (r: &'tree SyntaxNode)
        ensures
            r == self.0,
    {
        self.0
    }

    /// Views `node` as this type without checking its kind.
    pub fn from_node_unchecked(node: &'tree SyntaxNode) -> (r: Self)
        ensures
            r.0 == node,
    {
        Self(node)
    }
}

impl<'tree> TryFrom<&'tree SyntaxNode> for Thread<'tree> {
    type Error = IncorrectKind<'tree>;

    /// Views `node` as this type if it has this type's kind.
    fn try_from(node: &'tree SyntaxNode) -> (r: NodeResult<'tree, Self>)
        ensures
            node.kind@ == "thread"@ ==> r == Ok::<Self, IncorrectKind<'tree>>(Self(node)),
            node.kind@ != "thread"@ ==> r == Err::<Self, IncorrectKind<'tree>>(IncorrectKind { node, kind: Self::KIND }),
    {
        if str_eq(node.kind, Self::KIND) {
            Ok(Self(node))
        } else {
            Err(IncorrectKind { node, kind: Self::KIND })
        }
    }
}

impl<'tree> TryFromSpecImpl<&'tree SyntaxNode> for Thread<'tree> {
    open spec fn obeys_try_from_spec() -> bool {
        true
    }

    open spec fn try_from_spec(node: &'tree SyntaxNode) -> NodeResult<'tree, Self> {
        if node.kind@ == "thread"@ {
            Ok(Self(node))
        } else {
            Err(IncorrectKind { node, kind: Self::KIND })
        }
    }
}

/// Typed node `todo_comment`
///
/// This node has no children
#[derive(Debug, Clone, Copy, PartialEq, Eq, Hash)]
#[allow(non_camel_case_types)]
pub struct TodoComment<'tree>(pub &'tree SyntaxNode);

impl<'tree> TodoComment<'tree> {
    /// The kind of the nodes of this type.
    pub const KIND: &'static str = "todo_comment";

    /// The underlying node.
    pub fn node(&self) -> (r: &&'tree SyntaxNode)
        ensures
            *r == self.0,
    {
        &self.0
    }

    /// The underlying node, to replace in place.
    pub fn node_mut(&mut self) -> (r: &mut &'tree SyntaxNode)
        ensures
            *r == old(self).0,
            final(self).0 == *final(r),
    {
        &mut self.0
    }

    /// The underlying node, giving up the typed view.
    pub fn into_node(self) -> (r: &'tree SyntaxNode)
        ensures
            r == self.0,
    {
        self.0
    }

    /// Views `node` as this type without checking its kind.
    pub fn from_node_unchecked(node: &'tree SyntaxNode) -> (r: Self)
        ensures
            r.0 == node,
    {
        Self(node)
    }
}

impl<'tree> TryFrom<&'tree SyntaxNode> for TodoComment<'tree> {
    type Error = IncorrectKind<'tree>;

    /// Views `node` as this type if it has this type's kind.
    fn try_from(node: &'tree SyntaxNode) -> (r: NodeResult<'tree, Self>)
        ensures
            node.kind@ == "todo_comment"@ ==> r == Ok::<Self, IncorrectKind<'tree>>(Self(node)),
            node.kind@ != "todo_comment"@ ==> r == Err::<Self, IncorrectKind<'tree>>(IncorrectKind { node, kind: Self::KIND }),
    {
        if str_eq(node.kind, Self::KIND) {
            Ok(Self(node))
        } else {
            Err(IncorrectKind { node, kind: Self::KIND })
        }
    }
}

impl<'tree> TryFromSpecImpl<&'tree SyntaxNode> for TodoComment<'tree> {
    open spec fn obeys_try_from_spec() -> bool {
        true
    }

    open spec fn try_from_spec(node: &'tree SyntaxNode) -> NodeResult<'tree, Self> {
        if node.kind@ == "todo_comment"@ {
            Ok(Self(node))
        } else {
            Err(IncorrectKind { node, kind: Self::KIND })
        }
    }
}

/// Typed node `tunnel`
///
/// This node has these fields:
/// - `target`: `{call | identifier}?` ([anon_unions::Call_Identifier])
///
/// And additional children: `divert*` ([Divert])
#[derive(Debug, Clone, Copy, PartialEq, Eq, Hash)]
#[allow(non_camel_case_types)]
pub struct Tunnel<'tree>(pub &'tree SyntaxNode);

impl<'tree> Tunnel<'tree> {
    /// The kind of the nodes of this type.
    pub const KIND: &'static str = "tunnel";

    /// Get the field `target` which has kind `{call | identifier}?` ([anon_unions::Call_Identifier])
    pub fn target(&self) -> (r: Option<NodeResult<'tree, anon_unions::Call_Identifier<'tree>>>)
        ensures
            self.0.field_children("target"@).len() > 0 ==> r == Some(typed::<anon_unions::Call_Identifier<'tree>>(&self.0.field_children("target"@)[0])),
            self.0.field_children("target"@).len() == 0 ==> r is None,
    {
        typed_opt::<anon_unions::Call_Identifier<'tree>>(self.0.child_by_field_name("target"))
    }

    /// Get the node's named children
    pub fn children(&self) -> (r: Vec<NodeResult<'tree, ExtraOr<'tree, anon_unions::Divert_Call_Identifier<'tree>>>>)
        ensures
            r.len() == self.0.named_children_spec().len(),
            forall|i: int|
                0 <= i < r.len() ==> r[i] == typed::<ExtraOr<'tree, anon_unions::Divert_Call_Identifier<'tree>>>(&self.0.named_children_spec()[i]),
    {
        typed_all::<ExtraOr<'tree, anon_unions::Divert_Call_Identifier<'tree>>>(self.0.named_children())
    }

    /// Get the node's named child #i
    pub fn child(&self, i: usize) -> (r: Option<NodeResult<'tree, ExtraOr<'tree, anon_unions::Divert_Call_Identifier<'tree>>>>)
        ensures
            i < self.0.named_children_spec().len() ==> r == Some(typed::<ExtraOr<'tree, anon_unions::Divert_Call_Identifier<'tree>>>(&self.0.named_children_spec()[i as int])),
            i >= self.0.named_children_spec().len() ==> r is None,
    {
        typed_opt::<ExtraOr<'tree, anon_unions::Divert_Call_Identifier<'tree>>>(self.0.named_child(i))
    }

    /// The underlying node.
    pub fn node(&self) -> (r: &&'tree SyntaxNode)
        ensures
            *r == self.0,
    {
        &self.0
    }

    /// The underlying node, to replace in place.
    pub fn node_mut(&mut self) -> (r: &mut &'tree SyntaxNode)
        ensures
            *r == old(self).0,
            final(self).0 == *final(r),
    {
        &mut self.0
    }

    /// The underlying node, giving up the typed view.
    pub fn into_node(self) -> (r: &'tree SyntaxNode)
        ensures
            r == self.0,
    {
        self.0
    }

    /// Views `node` as this type without checking its kind.
    pub fn from_node_unchecked(node: &'tree SyntaxNode) -> (r: Self)
        ensures
            r.0 == node,
    {
        Self(node)
    }
}

impl<'tree> TryFrom<&'tree SyntaxNode> for Tunnel<'tree> {
    type Error = IncorrectKind<'tree>;

    /// Views `node` as this type if it has this type's kind.
    fn try_from(node: &'tree SyntaxNode) -> (r: NodeResult<'tree, Self>)
        ensures
            node.kind@ == "tunnel"@ ==> r == Ok::<Self, IncorrectKind<'tree>>(Self(node)),
            node.kind@ != "tunnel"@ ==> r == Err::<Self, IncorrectKind<'tree>>(IncorrectKind { node, kind: Self::KIND }),
    {
        if str_eq(node.kind, Self::KIND) {
            Ok(Self(node))
        } else {
            Err(IncorrectKind { node, kind: Self::KIND })
        }
    }
}

impl<'tree> TryFromSpecImpl<&'tree SyntaxNode> for Tunnel<'tree> {
    open spec fn obeys_try_from_spec() -> bool {
        true
    }

    open spec fn try_from_spec(node: &'tree SyntaxNode) -> NodeResult<'tree, Self> {
        if node.kind@ == "tunnel"@ {
            Ok(Self(node))
        } else {
            Err(IncorrectKind { node, kind: Self::KIND })
        }
    }
}

/// Typed node `unary`
///
/// This node has these fields:
/// - `op`: `{! | - | not}` ([anon_unions::Not__Sub__Not])
///
/// And an additional child: `{binary | boolean | call | divert | identifier | list_values | number | paren | postfix | qualified_name | string | unary}`:
/// - [Binary]
/// - [Boolean]
/// - [Call]
/// - [Divert]
/// - [Identifier]
/// - [ListValues]
/// - [Number]
/// - [Paren]
/// - [Postfix]
/// - [QualifiedName]
/// - [String]
/// - [Unary]
#[derive(Debug, Clone, Copy, PartialEq, Eq, Hash)]
#[allow(non_camel_case_types)]
pub struct Unary<'tree>(pub &'tree SyntaxNode);

impl<'tree> Unary<'tree> {
    /// The kind of the nodes of this type.
    pub const KIND: &'static str = "unary";

    /// Get the field `op` which has kind `{! | - | not}` ([anon_unions::Not__Sub__Not])
    pub fn op(&self) -> (r: NodeResult<'tree, anon_unions::Not__Sub__Not<'tree>>)
        requires
            self.0.field_children("op"@).len() > 0,
        ensures
            r == typed::<anon_unions::Not__Sub__Not<'tree>>(&self.0.field_children("op"@)[0]),
    {
        typed_opt::<anon_unions::Not__Sub__Not<'tree>>(self.0.child_by_field_name("op")).expect(
            "tree-sitter node missing its required child, there should at least be a MISSING node in its place",
        )
    }

    /// Get the node's named children
    /// For a node that the ink grammar produced, there is at least one child.
    pub fn children(&self) -> (r: Vec<NodeResult<'tree, ExtraOr<'tree, anon_unions::Binary_Boolean_Call_Divert_Identifier_ListValues_Number_Paren_Postfix_QualifiedName_String_Unary_Not__Sub__Not<'tree>>>>)
        ensures
            r.len() == self.0.named_children_spec().len(),
            forall|i: int|
                0 <= i < r.len() ==> r[i] == typed::<ExtraOr<'tree, anon_unions::Binary_Boolean_Call_Divert_Identifier_ListValues_Number_Paren_Postfix_QualifiedName_String_Unary_Not__Sub__Not<'tree>>>(&self.0.named_children_spec()[i]),
    {
        typed_all::<ExtraOr<'tree, anon_unions::Binary_Boolean_Call_Divert_Identifier_ListValues_Number_Paren_Postfix_QualifiedName_String_Unary_Not__Sub__Not<'tree>>>(self.0.named_children())
    }

    /// Get the node's named child #i
    pub fn child(&self, i: usize) -> (r: Option<NodeResult<'tree, ExtraOr<'tree, anon_unions::Binary_Boolean_Call_Divert_Identifier_ListValues_Number_Paren_Postfix_QualifiedName_String_Unary_Not__Sub__Not<'tree>>>>)
        ensures
            i < self.0.named_children_spec().len() ==> r == Some(typed::<ExtraOr<'tree, anon_unions::Binary_Boolean_Call_Divert_Identifier_ListValues_Number_Paren_Postfix_QualifiedName_String_Unary_Not__Sub__Not<'tree>>>(&self.0.named_children_spec()[i as int])),
            i >= self.0.named_children_spec().len() ==> r is None,
    {
        typed_opt::<ExtraOr<'tree, anon_unions::Binary_Boolean_Call_Divert_Identifier_ListValues_Number_Paren_Postfix_QualifiedName_String_Unary_Not__Sub__Not<'tree>>>(self.0.named_child(i))
    }

    /// The underlying node.
    pub fn node(&self) -> (r: &&'tree SyntaxNode)
        ensures
            *r == self.0,
    {
        &self.0
    }

    /// The underlying node, to replace in place.
    pub fn node_mut(&mut self) -> (r: &mut &'tree SyntaxNode)
        ensures
            *r == old(self).0,
            final(self).0 == *final(r),
    {
        &mut self.0
    }

    /// The underlying node, giving up the typed view.
    pub fn into_node(self) -> (r: &'tree SyntaxNode)
        ensures
            r == self.0,
    {
        self.0
    }

    /// Views `node` as this type without checking its kind.
    pub fn from_node_unchecked(node: &'tree SyntaxNode) -> (r: Self)
        ensures
            r.0 == node,
    {
        Self(node)
    }
}

impl<'tree> TryFrom<&'tree SyntaxNode> for Unary<'tree> {
    type Error = IncorrectKind<'tree>;

    /// Views `node` as this type if it has this type's kind.
    fn try_from(node: &'tree SyntaxNode) -> (r: NodeResult<'tree, Self>)
        ensures
            node.kind@ == "unary"@ ==> r == Ok::<Self, IncorrectKind<'tree>>(Self(node)),
            node.kind@ != "unary"@ ==> r == Err::<Self, IncorrectKind<'tree>>(IncorrectKind { node, kind: Self::KIND }),
    {
        if str_eq(node.kind, Self::KIND) {
            Ok(Self(node))
        } else {
            Err(IncorrectKind { node, kind: Self::KIND })
        }
    }
}

impl<'tree> TryFromSpecImpl<&'tree SyntaxNode> for Unary<'tree> {
    open spec fn obeys_try_from_spec() -> bool {
        true
    }

    open spec fn try_from_spec(node: &'tree SyntaxNode) -> NodeResult<'tree, Self> {
        if node.kind@ == "unary"@ {
            Ok(Self(node))
        } else {
            Err(IncorrectKind { node, kind: Self::KIND })
        }
    }
}

/// Typed node `comment`
///
/// This node has no children
#[derive(Debug, Clone, Copy, PartialEq, Eq, Hash)]
#[allow(non_camel_case_types)]
pub struct Comment<'tree>(pub &'tree SyntaxNode);

impl<'tree> Comment<'tree> {
    /// The kind of the nodes of this type.
    pub const KIND: &'static str = "comment";

    /// The underlying node.
    pub fn node(&self) -> (r: &&'tree SyntaxNode)
        ensures
            *r == self.0,
    {
        &self.0
    }

    /// The underlying node, to replace in place.
    pub fn node_mut(&mut self) -> (r: &mut &'tree SyntaxNode)
        ensures
            *r == old(self).0,
            final(self).0 == *final(r),
    {
        &mut self.0
    }

    /// The underlying node, giving up the typed view.
    pub fn into_node(self) -> (r: &'tree SyntaxNode)
        ensures
            r == self.0,
    {
        self.0
    }

    /// Views `node` as this type without checking its kind.
    pub fn from_node_unchecked(node: &'tree SyntaxNode) -> (r: Self)
        ensures
            r.0 == node,
    {
        Self(node)
    }
}

impl<'tree> TryFrom<&'tree SyntaxNode> for Comment<'tree> {
    type Error = IncorrectKind<'tree>;

    /// Views `node` as this type if it has this type's kind.
    fn try_from(node: &'tree SyntaxNode) -> (r: NodeResult<'tree, Self>)
        ensures
            node.kind@ == "comment"@ ==> r == Ok::<Self, IncorrectKind<'tree>>(Self(node)),
            node.kind@ != "comment"@ ==> r == Err::<Self, IncorrectKind<'tree>>(IncorrectKind { node, kind: Self::KIND }),
    {
        if str_eq(node.kind, Self::KIND) {
            Ok(Self(node))
        } else {
            Err(IncorrectKind { node, kind: Self::KIND })
        }
    }
}

impl<'tree> TryFromSpecImpl<&'tree SyntaxNode> for Comment<'tree> {
    open spec fn obeys_try_from_spec() -> bool {
        true
    }

    open spec fn try_from_spec(node: &'tree SyntaxNode) -> NodeResult<'tree, Self> {
        if node.kind@ == "comment"@ {
            Ok(Self(node))
        } else {
            Err(IncorrectKind { node, kind: Self::KIND })
        }
    }
}

/// Typed node `else`
///
/// This node has no children
#[derive(Debug, Clone, Copy, PartialEq, Eq, Hash)]
#[allow(non_camel_case_types)]
pub struct Else<'tree>(pub &'tree SyntaxNode);

impl<'tree> Else<'tree> {
    /// The kind of the nodes of this type.
    pub const KIND: &'static str = "else";

    /// The underlying node.
    pub fn node(&self) -> (r: &&'tree SyntaxNode)
        ensures
            *r == self.0,
    {
        &self.0
    }

    /// The underlying node, to replace in place.
    pub fn node_mut(&mut self) -> (r: &mut &'tree SyntaxNode)
        ensures
            *r == old(self).0,
            final(self).0 == *final(r),
    {
        &mut self.0
    }

    /// The underlying node, giving up the typed view.
    pub fn into_node(self) -> (r: &'tree SyntaxNode)
        ensures
            r == self.0,
    {
        self.0
    }

    /// Views `node` as this type without checking its kind.
    pub fn from_node_unchecked(node: &'tree SyntaxNode) -> (r: Self)
        ensures
            r.0 == node,
    {
        Self(node)
    }
}

impl<'tree> TryFrom<&'tree SyntaxNode> for Else<'tree> {
    type Error = IncorrectKind<'tree>;

    /// Views `node` as this type if it has this type's kind.
    fn try_from(node: &'tree SyntaxNode) -> (r: NodeResult<'tree, Self>)
        ensures
            node.kind@ == "else"@ ==> r == Ok::<Self, IncorrectKind<'tree>>(Self(node)),
            node.kind@ != "else"@ ==> r == Err::<Self, IncorrectKind<'tree>>(IncorrectKind { node, kind: Self::KIND }),
    {
        if str_eq(node.kind, Self::KIND) {
            Ok(Self(node))
        } else {
            Err(IncorrectKind { node, kind: Self::KIND })
        }
    }
}

impl<'tree> TryFromSpecImpl<&'tree SyntaxNode> for Else<'tree> {
    open spec fn obeys_try_from_spec() -> bool {
        true
    }

    open spec fn try_from_spec(node: &'tree SyntaxNode) -> NodeResult<'tree, Self> {
        if node.kind@ == "else"@ {
            Ok(Self(node))
        } else {
            Err(IncorrectKind { node, kind: Self::KIND })
        }
    }
}

/// Typed node `glue`
///
/// This node has no children
#[derive(Debug, Clone, Copy, PartialEq, Eq, Hash)]
#[allow(non_camel_case_types)]
pub struct Glue<'tree>(pub &'tree SyntaxNode);

impl<'tree> Glue<'tree> {
    /// The kind of the nodes of this type.
    pub const KIND: &'static str = "glue";

    /// The underlying node.
    pub fn node(&self) -> (r: &&'tree SyntaxNode)
        ensures
            *r == self.0,
    {
        &self.0
    }

    /// The underlying node, to replace in place.
    pub fn node_mut(&mut self) -> (r: &mut &'tree SyntaxNode)
        ensures
            *r == old(self).0,
            final(self).0 == *final(r),
    {
        &mut self.0
    }

    /// The underlying node, giving up the typed view.
    pub fn into_node(self) -> (r: &'tree SyntaxNode)
        ensures
            r == self.0,
    {
        self.0
    }

    /// Views `node` as this type without checking its kind.
    pub fn from_node_unchecked(node: &'tree SyntaxNode) -> (r: Self)
        ensures
            r.0 == node,
    {
        Self(node)
    }
}

impl<'tree> TryFrom<&'tree SyntaxNode> for Glue<'tree> {
    type Error = IncorrectKind<'tree>;

    /// Views `node` as this type if it has this type's kind.
    fn try_from(node: &'tree SyntaxNode) -> (r: NodeResult<'tree, Self>)
        ensures
            node.kind@ == "glue"@ ==> r == Ok::<Self, IncorrectKind<'tree>>(Self(node)),
            node.kind@ != "glue"@ ==> r == Err::<Self, IncorrectKind<'tree>>(IncorrectKind { node, kind: Self::KIND }),
    {
        if str_eq(node.kind, Self::KIND) {
            Ok(Self(node))
        } else {
            Err(IncorrectKind { node, kind: Self::KIND })
        }
    }
}

impl<'tree> TryFromSpecImpl<&'tree SyntaxNode> for Glue<'tree> {
    open spec fn obeys_try_from_spec() -> bool {
        true
    }

    open spec fn try_from_spec(node: &'tree SyntaxNode) -> NodeResult<'tree, Self> {
        if node.kind@ == "glue"@ {
            Ok(Self(node))
        } else {
            Err(IncorrectKind { node, kind: Self::KIND })
        }
    }
}

/// Typed node `path`
///
/// This node has no children
#[derive(Debug, Clone, Copy, PartialEq, Eq, Hash)]
#[allow(non_camel_case_types)]
pub struct Path<'tree>(pub &'tree SyntaxNode);

impl<'tree> Path<'tree> {
    /// The kind of the nodes of this type.
    pub const KIND: &'static str = "path";

    /// The underlying node.
    pub fn node(&self) -> (r: &&'tree SyntaxNode)
        ensures
            *r == self.0,
    {
        &self.0
    }

    /// The underlying node, to replace in place.
    pub fn node_mut(&mut self) -> (r: &mut &'tree SyntaxNode)
        ensures
            *r == old(self).0,
            final(self).0 == *final(r),
    {
        &mut self.0
    }

    /// The underlying node, giving up the typed view.
    pub fn into_node(self) -> (r: &'tree SyntaxNode)
        ensures
            r == self.0,
    {
        self.0
    }

    /// Views `node` as this type without checking its kind.
    pub fn from_node_unchecked(node: &'tree SyntaxNode) -> (r: Self)
        ensures
            r.0 == node,
    {
        Self(node)
    }
}

impl<'tree> TryFrom<&'tree SyntaxNode> for Path<'tree> {
    type Error = IncorrectKind<'tree>;

    /// Views `node` as this type if it has this type's kind.
    fn try_from(node: &'tree SyntaxNode) -> (r: NodeResult<'tree, Self>)
        ensures
            node.kind@ == "path"@ ==> r == Ok::<Self, IncorrectKind<'tree>>(Self(node)),
            node.kind@ != "path"@ ==> r == Err::<Self, IncorrectKind<'tree>>(IncorrectKind { node, kind: Self::KIND }),
    {
        if str_eq(node.kind, Self::KIND) {
            Ok(Self(node))
        } else {
            Err(IncorrectKind { node, kind: Self::KIND })
        }
    }
}

impl<'tree> TryFromSpecImpl<&'tree SyntaxNode> for Path<'tree> {
    open spec fn obeys_try_from_spec() -> bool {
        true
    }

    open spec fn try_from_spec(node: &'tree SyntaxNode) -> NodeResult<'tree, Self> {
        if node.kind@ == "path"@ {
            Ok(Self(node))
        } else {
            Err(IncorrectKind { node, kind: Self::KIND })
        }
    }
}

} // verus!
