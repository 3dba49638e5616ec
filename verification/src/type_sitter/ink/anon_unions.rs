//! Typed views of nodes that may be one of several kinds, as fields and children hold them.

use super::{symbols, unnamed};
use super::{
    AltArm, Alternatives, Assignment, Binary, Boolean, Call, Choice, ChoiceBlock, Code, Comment,
    CondBlock, ConditionalText, Content, ContentBlock, Divert, Else, Eval, External, Gather,
    GatherBlock, Global, Glue, Identifier, Include, Knot, KnotBlock, List, ListValues,
    MultilineAlternatives, Number, Params, Paren, Postfix, QualifiedName, Return, Stitch,
    StitchBlock, String, Tag, Temp, Text, Thread, TodoComment, Tunnel, Unary,
};
use vstd::prelude::*;
use vstd::std_specs::convert::TryFromSpecImpl;
#[allow(unused_imports)]
use crate::syntax::{
    str_eq, typed, typed_all, typed_opt, ExtraOr, IncorrectKind, NodeResult, SyntaxNode,
};

verus! {

/// one of `{choice_block | code | content | external | global | include | list | todo_comment}`:
/// - [ChoiceBlock]
/// - [Code]
/// - [Content]
/// - [External]
/// - [Global]
/// - [Include]
/// - [List]
/// - [TodoComment]
#[derive(Debug, Clone, Copy, PartialEq, Eq, Hash)]
#[allow(non_camel_case_types)]
pub enum ChoiceBlock_Code_Content_External_Global_Include_List_TodoComment<'tree> {
    ChoiceBlock(ChoiceBlock<'tree>),
    Code(Code<'tree>),
    Content(Content<'tree>),
    External(External<'tree>),
    Global(Global<'tree>),
    Include(Include<'tree>),
    List(List<'tree>),
    TodoComment(TodoComment<'tree>),
}

impl<'tree> ChoiceBlock_Code_Content_External_Global_Include_List_TodoComment<'tree> {
    /// The kinds of the nodes of this type.
    pub const KIND: &'static str = "{choice_block | code | content | external | global | include | list | todo_comment}";

    /// Returns the node if it is of kind `choice_block` ([ChoiceBlock]), otherwise returns None
    pub fn choice_block(self) -> (r: Option<ChoiceBlock<'tree>>)
        ensures
            match self {
                Self::ChoiceBlock(x) => r == Some(x),
                _ => r is None,
            },
    {
        match self {
            Self::ChoiceBlock(x) => Some(x),
            _ => None,
        }
    }

    /// Returns the node if it is of kind `code` ([Code]), otherwise returns None
    pub fn code(self) -> (r: Option<Code<'tree>>)
        ensures
            match self {
                Self::Code(x) => r == Some(x),
                _ => r is None,
            },
    {
        match self {
            Self::Code(x) => Some(x),
            _ => None,
        }
    }

    /// Returns the node if it is of kind `content` ([Content]), otherwise returns None
    pub fn content(self) -> (r: Option<Content<'tree>>)
        ensures
            match self {
                Self::Content(x) => r == Some(x),
                _ => r is None,
            },
    {
        match self {
            Self::Content(x) => Some(x),
            _ => None,
        }
    }

    /// Returns the node if it is of kind `external` ([External]), otherwise returns None
    pub fn external(self) -> (r: Option<External<'tree>>)
        ensures
            match self {
                Self::External(x) => r == Some(x),
                _ => r is None,
            },
    {
        match self {
            Self::External(x) => Some(x),
            _ => None,
        }
    }

    /// Returns the node if it is of kind `global` ([Global]), otherwise returns None
    pub fn global(self) -> (r: Option<Global<'tree>>)
        ensures
            match self {
                Self::Global(x) => r == Some(x),
                _ => r is None,
            },
    {
        match self {
            Self::Global(x) => Some(x),
            _ => None,
        }
    }

    /// Returns the node if it is of kind `include` ([Include]), otherwise returns None
    pub fn include_node(self) -> (r: Option<Include<'tree>>)
        ensures
            match self {
                Self::Include(x) => r == Some(x),
                _ => r is None,
            },
    {
        match self {
            Self::Include(x) => Some(x),
            _ => None,
        }
    }

    /// Returns the node if it is of kind `list` ([List]), otherwise returns None
    pub fn list(self) -> (r: Option<List<'tree>>)
        ensures
            match self {
                Self::List(x) => r == Some(x),
                _ => r is None,
            },
    {
        match self {
            Self::List(x) => Some(x),
            _ => None,
        }
    }

    /// Returns the node if it is of kind `todo_comment` ([TodoComment]), otherwise returns None
    pub fn todo_comment(self) -> (r: Option<TodoComment<'tree>>)
        ensures
            match self {
                Self::TodoComment(x) => r == Some(x),
                _ => r is None,
            },
    {
        match self {
            Self::TodoComment(x) => Some(x),
            _ => None,
        }
    }

    /// The underlying node, whichever the variant.
    pub open spec fn spec_node(self) -> &'tree SyntaxNode {
        match self {
            Self::ChoiceBlock(x) => x.0,
            Self::Code(x) => x.0,
            Self::Content(x) => x.0,
            Self::External(x) => x.0,
            Self::Global(x) => x.0,
            Self::Include(x) => x.0,
            Self::List(x) => x.0,
            Self::TodoComment(x) => x.0,
        }
    }

    /// The underlying node.
    pub fn node(&self) -> (r: &&'tree SyntaxNode)
        ensures
            *r == self.spec_node(),
    {
        match self {
            Self::ChoiceBlock(x) => x.node(),
            Self::Code(x) => x.node(),
            Self::Content(x) => x.node(),
            Self::External(x) => x.node(),
            Self::Global(x) => x.node(),
            Self::Include(x) => x.node(),
            Self::List(x) => x.node(),
            Self::TodoComment(x) => x.node(),
        }
    }

    /// The underlying node, to replace in place.
    pub fn node_mut(&mut self) -> (r: &mut &'tree SyntaxNode)
        ensures
            *r == old(self).spec_node(),
            final(self).spec_node() == *final(r),
            (*old(self)) is ChoiceBlock ==> (*final(self)) is ChoiceBlock,
            (*old(self)) is Code ==> (*final(self)) is Code,
            (*old(self)) is Content ==> (*final(self)) is Content,
            (*old(self)) is External ==> (*final(self)) is External,
            (*old(self)) is Global ==> (*final(self)) is Global,
            (*old(self)) is Include ==> (*final(self)) is Include,
            (*old(self)) is List ==> (*final(self)) is List,
            (*old(self)) is TodoComment ==> (*final(self)) is TodoComment,
    {
        match self {
            Self::ChoiceBlock(x) => x.node_mut(),
            Self::Code(x) => x.node_mut(),
            Self::Content(x) => x.node_mut(),
            Self::External(x) => x.node_mut(),
            Self::Global(x) => x.node_mut(),
            Self::Include(x) => x.node_mut(),
            Self::List(x) => x.node_mut(),
            Self::TodoComment(x) => x.node_mut(),
        }
    }

    /// The underlying node, giving up the typed view.
    pub fn into_node(self) -> (r: &'tree SyntaxNode)
        ensures
            r == self.spec_node(),
    {
        match self {
            Self::ChoiceBlock(x) => x.into_node(),
            Self::Code(x) => x.into_node(),
            Self::Content(x) => x.into_node(),
            Self::External(x) => x.into_node(),
            Self::Global(x) => x.into_node(),
            Self::Include(x) => x.into_node(),
            Self::List(x) => x.into_node(),
            Self::TodoComment(x) => x.into_node(),
        }
    }
}

impl<'tree> TryFrom<&'tree SyntaxNode> for ChoiceBlock_Code_Content_External_Global_Include_List_TodoComment<'tree> {
    type Error = IncorrectKind<'tree>;

    /// Views `node` as the variant for its kind, if it has one of this type's kinds.
    fn try_from(node: &'tree SyntaxNode) -> (r: NodeResult<'tree, Self>)
        ensures
            r is Ok <==> (
                node.kind@ == "choice_block"@
                || node.kind@ == "code"@
                || node.kind@ == "content"@
                || node.kind@ == "external"@
                || node.kind@ == "global"@
                || node.kind@ == "include"@
                || node.kind@ == "list"@
                || node.kind@ == "todo_comment"@
            ),
            r matches Ok(Self::ChoiceBlock(x)) ==> node.kind@ == "choice_block"@ && x == ChoiceBlock(node),
            r matches Ok(Self::Code(x)) ==> node.kind@ == "code"@ && x == Code(node),
            r matches Ok(Self::Content(x)) ==> node.kind@ == "content"@ && x == Content(node),
            r matches Ok(Self::External(x)) ==> node.kind@ == "external"@ && x == External(node),
            r matches Ok(Self::Global(x)) ==> node.kind@ == "global"@ && x == Global(node),
            r matches Ok(Self::Include(x)) ==> node.kind@ == "include"@ && x == Include(node),
            r matches Ok(Self::List(x)) ==> node.kind@ == "list"@ && x == List(node),
            r matches Ok(Self::TodoComment(x)) ==> node.kind@ == "todo_comment"@ && x == TodoComment(node),
            r is Err ==> r == Err::<Self, IncorrectKind<'tree>>(IncorrectKind { node, kind: Self::KIND }),
    {
        if str_eq(node.kind, "choice_block") {
            Ok(Self::ChoiceBlock(ChoiceBlock::from_node_unchecked(node)))
        } else if str_eq(node.kind, "code") {
            Ok(Self::Code(Code::from_node_unchecked(node)))
        } else if str_eq(node.kind, "content") {
            Ok(Self::Content(Content::from_node_unchecked(node)))
        } else if str_eq(node.kind, "external") {
            Ok(Self::External(External::from_node_unchecked(node)))
        } else if str_eq(node.kind, "global") {
            Ok(Self::Global(Global::from_node_unchecked(node)))
        } else if str_eq(node.kind, "include") {
            Ok(Self::Include(Include::from_node_unchecked(node)))
        } else if str_eq(node.kind, "list") {
            Ok(Self::List(List::from_node_unchecked(node)))
        } else if str_eq(node.kind, "todo_comment") {
            Ok(Self::TodoComment(TodoComment::from_node_unchecked(node)))
        } else {
            Err(IncorrectKind { node, kind: Self::KIND })
        }
    }
}

impl<'tree> TryFromSpecImpl<&'tree SyntaxNode> for ChoiceBlock_Code_Content_External_Global_Include_List_TodoComment<'tree> {
    open spec fn obeys_try_from_spec() -> bool {
        true
    }

    open spec fn try_from_spec(node: &'tree SyntaxNode) -> NodeResult<'tree, Self> {
        if node.kind@ == "choice_block"@ {
            Ok(Self::ChoiceBlock(ChoiceBlock(node)))
        } else if node.kind@ == "code"@ {
            Ok(Self::Code(Code(node)))
        } else if node.kind@ == "content"@ {
            Ok(Self::Content(Content(node)))
        } else if node.kind@ == "external"@ {
            Ok(Self::External(External(node)))
        } else if node.kind@ == "global"@ {
            Ok(Self::Global(Global(node)))
        } else if node.kind@ == "include"@ {
            Ok(Self::Include(Include(node)))
        } else if node.kind@ == "list"@ {
            Ok(Self::List(List(node)))
        } else if node.kind@ == "todo_comment"@ {
            Ok(Self::TodoComment(TodoComment(node)))
        } else {
            Err(IncorrectKind { node, kind: Self::KIND })
        }
    }
}

/// one of `{alternatives | cond_block | conditional_text | content | eval | glue | multiline_alternatives | text}`:
/// - [Alternatives]
/// - [CondBlock]
/// - [ConditionalText]
/// - [Content]
/// - [Eval]
/// - [Glue]
/// - [MultilineAlternatives]
/// - [Text]
#[derive(Debug, Clone, Copy, PartialEq, Eq, Hash)]
#[allow(non_camel_case_types)]
pub enum Alternatives_CondBlock_ConditionalText_Content_Eval_Glue_MultilineAlternatives_Text<'tree> {
    Alternatives(Alternatives<'tree>),
    CondBlock(CondBlock<'tree>),
    ConditionalText(ConditionalText<'tree>),
    Content(Content<'tree>),
    Eval(Eval<'tree>),
    Glue(Glue<'tree>),
    MultilineAlternatives(MultilineAlternatives<'tree>),
    Text(Text<'tree>),
}

impl<'tree> Alternatives_CondBlock_ConditionalText_Content_Eval_Glue_MultilineAlternatives_Text<'tree> {
    /// The kinds of the nodes of this type.
    pub const KIND: &'static str = "{alternatives | cond_block | conditional_text | content | eval | glue | multiline_alternatives | text}";

    /// Returns the node if it is of kind `alternatives` ([Alternatives]), otherwise returns None
    pub fn alternatives(self) -> (r: Option<Alternatives<'tree>>)
        ensures
            match self {
                Self::Alternatives(x) => r == Some(x),
                _ => r is None,
            },
    {
        match self {
            Self::Alternatives(x) => Some(x),
            _ => None,
        }
    }

    /// Returns the node if it is of kind `cond_block` ([CondBlock]), otherwise returns None
    pub fn cond_block(self) -> (r: Option<CondBlock<'tree>>)
        ensures
            match self {
                Self::CondBlock(x) => r == Some(x),
                _ => r is None,
            },
    {
        match self {
            Self::CondBlock(x) => Some(x),
            _ => None,
        }
    }

    /// Returns the node if it is of kind `conditional_text` ([ConditionalText]), otherwise returns None
    pub fn conditional_text(self) -> (r: Option<ConditionalText<'tree>>)
        ensures
            match self {
                Self::ConditionalText(x) => r == Some(x),
                _ => r is None,
            },
    {
        match self {
            Self::ConditionalText(x) => Some(x),
            _ => None,
        }
    }

    /// Returns the node if it is of kind `content` ([Content]), otherwise returns None
    pub fn content(self) -> (r: Option<Content<'tree>>)
        ensures
            match self {
                Self::Content(x) => r == Some(x),
                _ => r is None,
            },
    {
        match self {
            Self::Content(x) => Some(x),
            _ => None,
        }
    }

    /// Returns the node if it is of kind `eval` ([Eval]), otherwise returns None
    pub fn eval(self) -> (r: Option<Eval<'tree>>)
        ensures
            match self {
                Self::Eval(x) => r == Some(x),
                _ => r is None,
            },
    {
        match self {
            Self::Eval(x) => Some(x),
            _ => None,
        }
    }

    /// Returns the node if it is of kind `glue` ([Glue]), otherwise returns None
    pub fn glue(self) -> (r: Option<Glue<'tree>>)
        ensures
            match self {
                Self::Glue(x) => r == Some(x),
                _ => r is None,
            },
    {
        match self {
            Self::Glue(x) => Some(x),
            _ => None,
        }
    }

    /// Returns the node if it is of kind `multiline_alternatives` ([MultilineAlternatives]), otherwise returns None
    pub fn multiline_alternatives(self) -> (r: Option<MultilineAlternatives<'tree>>)
        ensures
            match self {
                Self::MultilineAlternatives(x) => r == Some(x),
                _ => r is None,
            },
    {
        match self {
            Self::MultilineAlternatives(x) => Some(x),
            _ => None,
        }
    }

    /// Returns the node if it is of kind `text` ([Text]), otherwise returns None
    pub fn text(self) -> (r: Option<Text<'tree>>)
        ensures
            match self {
                Self::Text(x) => r == Some(x),
                _ => r is None,
            },
    {
        match self {
            Self::Text(x) => Some(x),
            _ => None,
        }
    }

    /// The underlying node, whichever the variant.
    pub open spec fn spec_node(self) -> &'tree SyntaxNode {
        match self {
            Self::Alternatives(x) => x.0,
            Self::CondBlock(x) => x.0,
            Self::ConditionalText(x) => x.0,
            Self::Content(x) => x.0,
            Self::Eval(x) => x.0,
            Self::Glue(x) => x.0,
            Self::MultilineAlternatives(x) => x.0,
            Self::Text(x) => x.0,
        }
    }

    /// The underlying node.
    pub fn node(&self) -> (r: &&'tree SyntaxNode)
        ensures
            *r == self.spec_node(),
    {
        match self {
            Self::Alternatives(x) => x.node(),
            Self::CondBlock(x) => x.node(),
            Self::ConditionalText(x) => x.node(),
            Self::Content(x) => x.node(),
            Self::Eval(x) => x.node(),
            Self::Glue(x) => x.node(),
            Self::MultilineAlternatives(x) => x.node(),
            Self::Text(x) => x.node(),
        }
    }

    /// The underlying node, to replace in place.
    pub fn node_mut(&mut self) -> (r: &mut &'tree SyntaxNode)
        ensures
            *r == old(self).spec_node(),
            final(self).spec_node() == *final(r),
            (*old(self)) is Alternatives ==> (*final(self)) is Alternatives,
            (*old(self)) is CondBlock ==> (*final(self)) is CondBlock,
            (*old(self)) is ConditionalText ==> (*final(self)) is ConditionalText,
            (*old(self)) is Content ==> (*final(self)) is Content,
            (*old(self)) is Eval ==> (*final(self)) is Eval,
            (*old(self)) is Glue ==> (*final(self)) is Glue,
            (*old(self)) is MultilineAlternatives ==> (*final(self)) is MultilineAlternatives,
            (*old(self)) is Text ==> (*final(self)) is Text,
    {
        match self {
            Self::Alternatives(x) => x.node_mut(),
            Self::CondBlock(x) => x.node_mut(),
            Self::ConditionalText(x) => x.node_mut(),
            Self::Content(x) => x.node_mut(),
            Self::Eval(x) => x.node_mut(),
            Self::Glue(x) => x.node_mut(),
            Self::MultilineAlternatives(x) => x.node_mut(),
            Self::Text(x) => x.node_mut(),
        }
    }

    /// The underlying node, giving up the typed view.
    pub fn into_node(self) -> (r: &'tree SyntaxNode)
        ensures
            r == self.spec_node(),
    {
        match self {
            Self::Alternatives(x) => x.into_node(),
            Self::CondBlock(x) => x.into_node(),
            Self::ConditionalText(x) => x.into_node(),
            Self::Content(x) => x.into_node(),
            Self::Eval(x) => x.into_node(),
            Self::Glue(x) => x.into_node(),
            Self::MultilineAlternatives(x) => x.into_node(),
            Self::Text(x) => x.into_node(),
        }
    }
}

impl<'tree> TryFrom<&'tree SyntaxNode> for Alternatives_CondBlock_ConditionalText_Content_Eval_Glue_MultilineAlternatives_Text<'tree> {
    type Error = IncorrectKind<'tree>;

    /// Views `node` as the variant for its kind, if it has one of this type's kinds.
    fn try_from(node: &'tree SyntaxNode) -> (r: NodeResult<'tree, Self>)
        ensures
            r is Ok <==> (
                node.kind@ == "alternatives"@
                || node.kind@ == "cond_block"@
                || node.kind@ == "conditional_text"@
                || node.kind@ == "content"@
                || node.kind@ == "eval"@
                || node.kind@ == "glue"@
                || node.kind@ == "multiline_alternatives"@
                || node.kind@ == "text"@
            ),
            r matches Ok(Self::Alternatives(x)) ==> node.kind@ == "alternatives"@ && x == Alternatives(node),
            r matches Ok(Self::CondBlock(x)) ==> node.kind@ == "cond_block"@ && x == CondBlock(node),
            r matches Ok(Self::ConditionalText(x)) ==> node.kind@ == "conditional_text"@ && x == ConditionalText(node),
            r matches Ok(Self::Content(x)) ==> node.kind@ == "content"@ && x == Content(node),
            r matches Ok(Self::Eval(x)) ==> node.kind@ == "eval"@ && x == Eval(node),
            r matches Ok(Self::Glue(x)) ==> node.kind@ == "glue"@ && x == Glue(node),
            r matches Ok(Self::MultilineAlternatives(x)) ==> node.kind@ == "multiline_alternatives"@ && x == MultilineAlternatives(node),
            r matches Ok(Self::Text(x)) ==> node.kind@ == "text"@ && x == Text(node),
            r is Err ==> r == Err::<Self, IncorrectKind<'tree>>(IncorrectKind { node, kind: Self::KIND }),
    {
        if str_eq(node.kind, "alternatives") {
            Ok(Self::Alternatives(Alternatives::from_node_unchecked(node)))
        } else if str_eq(node.kind, "cond_block") {
            Ok(Self::CondBlock(CondBlock::from_node_unchecked(node)))
        } else if str_eq(node.kind, "conditional_text") {
            Ok(Self::ConditionalText(ConditionalText::from_node_unchecked(node)))
        } else if str_eq(node.kind, "content") {
            Ok(Self::Content(Content::from_node_unchecked(node)))
        } else if str_eq(node.kind, "eval") {
            Ok(Self::Eval(Eval::from_node_unchecked(node)))
        } else if str_eq(node.kind, "glue") {
            Ok(Self::Glue(Glue::from_node_unchecked(node)))
        } else if str_eq(node.kind, "multiline_alternatives") {
            Ok(Self::MultilineAlternatives(MultilineAlternatives::from_node_unchecked(node)))
        } else if str_eq(node.kind, "text") {
            Ok(Self::Text(Text::from_node_unchecked(node)))
        } else {
            Err(IncorrectKind { node, kind: Self::KIND })
        }
    }
}

impl<'tree> TryFromSpecImpl<&'tree SyntaxNode> for Alternatives_CondBlock_ConditionalText_Content_Eval_Glue_MultilineAlternatives_Text<'tree> {
    open spec fn obeys_try_from_spec() -> bool {
        true
    }

    open spec fn try_from_spec(node: &'tree SyntaxNode) -> NodeResult<'tree, Self> {
        if node.kind@ == "alternatives"@ {
            Ok(Self::Alternatives(Alternatives(node)))
        } else if node.kind@ == "cond_block"@ {
            Ok(Self::CondBlock(CondBlock(node)))
        } else if node.kind@ == "conditional_text"@ {
            Ok(Self::ConditionalText(ConditionalText(node)))
        } else if node.kind@ == "content"@ {
            Ok(Self::Content(Content(node)))
        } else if node.kind@ == "eval"@ {
            Ok(Self::Eval(Eval(node)))
        } else if node.kind@ == "glue"@ {
            Ok(Self::Glue(Glue(node)))
        } else if node.kind@ == "multiline_alternatives"@ {
            Ok(Self::MultilineAlternatives(MultilineAlternatives(node)))
        } else if node.kind@ == "text"@ {
            Ok(Self::Text(Text(node)))
        } else {
            Err(IncorrectKind { node, kind: Self::KIND })
        }
    }
}

/// one of `{binary | boolean | call | divert | identifier | list_values | number | paren | postfix | qualified_name | string | unary}`:
/// - [Binary]
/// - [Boolean]
/// - [Call]
/// - [Divert]
/// - [Identifier]
/// - [ListValues]
/// - [Number]
/// - [Paren]
/// - [Postfix]
/// - [QualifiedName]
/// - [String]
/// - [Unary]
#[derive(Debug, Clone, Copy, PartialEq, Eq, Hash)]
#[allow(non_camel_case_types)]
pub enum Binary_Boolean_Call_Divert_Identifier_ListValues_Number_Paren_Postfix_QualifiedName_String_Unary<'tree> {
    Binary(Binary<'tree>),
    Boolean(Boolean<'tree>),
    Call(Call<'tree>),
    Divert(Divert<'tree>),
    Identifier(Identifier<'tree>),
    ListValues(ListValues<'tree>),
    Number(Number<'tree>),
    Paren(Paren<'tree>),
    Postfix(Postfix<'tree>),
    QualifiedName(QualifiedName<'tree>),
    String(String<'tree>),
    Unary(Unary<'tree>),
}

impl<'tree> Binary_Boolean_Call_Divert_Identifier_ListValues_Number_Paren_Postfix_QualifiedName_String_Unary<'tree> {
    /// The kinds of the nodes of this type.
    pub const KIND: &'static str = "{binary | boolean | call | divert | identifier | list_values | number | paren | postfix | qualified_name | string | unary}";

    /// Returns the node if it is of kind `binary` ([Binary]), otherwise returns None
    pub fn binary(self) -> (r: Option<Binary<'tree>>)
        ensures
            match self {
                Self::Binary(x) => r == Some(x),
                _ => r is None,
            },
    {
        match self {
            Self::Binary(x) => Some(x),
            _ => None,
        }
    }

    /// Returns the node if it is of kind `boolean` ([Boolean]), otherwise returns None
    pub fn boolean(self) -> (r: Option<Boolean<'tree>>)
        ensures
            match self {
                Self::Boolean(x) => r == Some(x),
                _ => r is None,
            },
    {
        match self {
            Self::Boolean(x) => Some(x),
            _ => None,
        }
    }

    /// Returns the node if it is of kind `call` ([Call]), otherwise returns None
    pub fn call(self) -> (r: Option<Call<'tree>>)
        ensures
            match self {
                Self::Call(x) => r == Some(x),
                _ => r is None,
            },
    {
        match self {
            Self::Call(x) => Some(x),
            _ => None,
        }
    }

    /// Returns the node if it is of kind `divert` ([Divert]), otherwise returns None
    pub fn divert(self) -> (r: Option<Divert<'tree>>)
        ensures
            match self {
                Self::Divert(x) => r == Some(x),
                _ => r is None,
            },
    {
        match self {
            Self::Divert(x) => Some(x),
            _ => None,
        }
    }

    /// Returns the node if it is of kind `identifier` ([Identifier]), otherwise returns None
    pub fn identifier(self) -> (r: Option<Identifier<'tree>>)
        ensures
            match self {
                Self::Identifier(x) => r == Some(x),
                _ => r is None,
            },
    {
        match self {
            Self::Identifier(x) => Some(x),
            _ => None,
        }
    }

    /// Returns the node if it is of kind `list_values` ([ListValues]), otherwise returns None
    pub fn list_values(self) -> (r: Option<ListValues<'tree>>)
        ensures
            match self {
                Self::ListValues(x) => r == Some(x),
                _ => r is None,
            },
    {
        match self {
            Self::ListValues(x) => Some(x),
            _ => None,
        }
    }

    /// Returns the node if it is of kind `number` ([Number]), otherwise returns None
    pub fn number(self) -> (r: Option<Number<'tree>>)
        ensures
            match self {
                Self::Number(x) => r == Some(x),
                _ => r is None,
            },
    {
        match self {
            Self::Number(x) => Some(x),
            _ => None,
        }
    }

    /// Returns the node if it is of kind `paren` ([Paren]), otherwise returns None
    pub fn paren(self) -> (r: Option<Paren<'tree>>)
        ensures
            match self {
                Self::Paren(x) => r == Some(x),
                _ => r is None,
            },
    {
        match self {
            Self::Paren(x) => Some(x),
            _ => None,
        }
    }

    /// Returns the node if it is of kind `postfix` ([Postfix]), otherwise returns None
    pub fn postfix(self) -> (r: Option<Postfix<'tree>>)
        ensures
            match self {
                Self::Postfix(x) => r == Some(x),
                _ => r is None,
            },
    {
        match self {
            Self::Postfix(x) => Some(x),
            _ => None,
        }
    }

    /// Returns the node if it is of kind `qualified_name` ([QualifiedName]), otherwise returns None
    pub fn qualified_name(self) -> (r: Option<QualifiedName<'tree>>)
        ensures
            match self {
                Self::QualifiedName(x) => r == Some(x),
                _ => r is None,
            },
    {
        match self {
            Self::QualifiedName(x) => Some(x),
            _ => None,
        }
    }

    /// Returns the node if it is of kind `string` ([String]), otherwise returns None
    pub fn string(self) -> (r: Option<String<'tree>>)
        ensures
            match self {
                Self::String(x) => r == Some(x),
                _ => r is None,
            },
    {
        match self {
            Self::String(x) => Some(x),
            _ => None,
        }
    }

    /// Returns the node if it is of kind `unary` ([Unary]), otherwise returns None
    pub fn unary(self) -> (r: Option<Unary<'tree>>)
        ensures
            match self {
                Self::Unary(x) => r == Some(x),
                _ => r is None,
            },
    {
        match self {
            Self::Unary(x) => Some(x),
            _ => None,
        }
    }

    /// The underlying node, whichever the variant.
    pub open spec fn spec_node(self) -> &'tree SyntaxNode {
        match self {
            Self::Binary(x) => x.0,
            Self::Boolean(x) => x.0,
            Self::Call(x) => x.0,
            Self::Divert(x) => x.0,
            Self::Identifier(x) => x.0,
            Self::ListValues(x) => x.0,
            Self::Number(x) => x.0,
            Self::Paren(x) => x.0,
            Self::Postfix(x) => x.0,
            Self::QualifiedName(x) => x.0,
            Self::String(x) => x.0,
            Self::Unary(x) => x.0,
        }
    }

    /// The underlying node.
    pub fn node(&self) -> (r: &&'tree SyntaxNode)
        ensures
            *r == self.spec_node(),
    {
        match self {
            Self::Binary(x) => x.node(),
            Self::Boolean(x) => x.node(),
            Self::Call(x) => x.node(),
            Self::Divert(x) => x.node(),
            Self::Identifier(x) => x.node(),
            Self::ListValues(x) => x.node(),
            Self::Number(x) => x.node(),
            Self::Paren(x) => x.node(),
            Self::Postfix(x) => x.node(),
            Self::QualifiedName(x) => x.node(),
            Self::String(x) => x.node(),
            Self::Unary(x) => x.node(),
        }
    }

    /// The underlying node, to replace in place.
    pub fn node_mut(&mut self) -> (r: &mut &'tree SyntaxNode)
        ensures
            *r == old(self).spec_node(),
            final(self).spec_node() == *final(r),
            (*old(self)) is Binary ==> (*final(self)) is Binary,
            (*old(self)) is Boolean ==> (*final(self)) is Boolean,
            (*old(self)) is Call ==> (*final(self)) is Call,
            (*old(self)) is Divert ==> (*final(self)) is Divert,
            (*old(self)) is Identifier ==> (*final(self)) is Identifier,
            (*old(self)) is ListValues ==> (*final(self)) is ListValues,
            (*old(self)) is Number ==> (*final(self)) is Number,
            (*old(self)) is Paren ==> (*final(self)) is Paren,
            (*old(self)) is Postfix ==> (*final(self)) is Postfix,
            (*old(self)) is QualifiedName ==> (*final(self)) is QualifiedName,
            (*old(self)) is String ==> (*final(self)) is String,
            (*old(self)) is Unary ==> (*final(self)) is Unary,
    {
        match self {
            Self::Binary(x) => x.node_mut(),
            Self::Boolean(x) => x.node_mut(),
            Self::Call(x) => x.node_mut(),
            Self::Divert(x) => x.node_mut(),
            Self::Identifier(x) => x.node_mut(),
            Self::ListValues(x) => x.node_mut(),
            Self::Number(x) => x.node_mut(),
            Self::Paren(x) => x.node_mut(),
            Self::Postfix(x) => x.node_mut(),
            Self::QualifiedName(x) => x.node_mut(),
            Self::String(x) => x.node_mut(),
            Self::Unary(x) => x.node_mut(),
        }
    }

    /// The underlying node, giving up the typed view.
    pub fn into_node(self) -> (r: &'tree SyntaxNode)
        ensures
            r == self.spec_node(),
    {
        match self {
            Self::Binary(x) => x.into_node(),
            Self::Boolean(x) => x.into_node(),
            Self::Call(x) => x.into_node(),
            Self::Divert(x) => x.into_node(),
            Self::Identifier(x) => x.into_node(),
            Self::ListValues(x) => x.into_node(),
            Self::Number(x) => x.into_node(),
            Self::Paren(x) => x.into_node(),
            Self::Postfix(x) => x.into_node(),
            Self::QualifiedName(x) => x.into_node(),
            Self::String(x) => x.into_node(),
            Self::Unary(x) => x.into_node(),
        }
    }
}

impl<'tree> TryFrom<&'tree SyntaxNode> for Binary_Boolean_Call_Divert_Identifier_ListValues_Number_Paren_Postfix_QualifiedName_String_Unary<'tree> {
    type Error = IncorrectKind<'tree>;

    /// Views `node` as the variant for its kind, if it has one of this type's kinds.
    fn try_from(node: &'tree SyntaxNode) -> (r: NodeResult<'tree, Self>)
        ensures
            r is Ok <==> (
                node.kind@ == "binary"@
                || node.kind@ == "boolean"@
                || node.kind@ == "call"@
                || node.kind@ == "divert"@
                || node.kind@ == "identifier"@
                || node.kind@ == "list_values"@
                || node.kind@ == "number"@
                || node.kind@ == "paren"@
                || node.kind@ == "postfix"@
                || node.kind@ == "qualified_name"@
                || node.kind@ == "string"@
                || node.kind@ == "unary"@
            ),
            r matches Ok(Self::Binary(x)) ==> node.kind@ == "binary"@ && x == Binary(node),
            r matches Ok(Self::Boolean(x)) ==> node.kind@ == "boolean"@ && x == Boolean(node),
            r matches Ok(Self::Call(x)) ==> node.kind@ == "call"@ && x == Call(node),
            r matches Ok(Self::Divert(x)) ==> node.kind@ == "divert"@ && x == Divert(node),
            r matches Ok(Self::Identifier(x)) ==> node.kind@ == "identifier"@ && x == Identifier(node),
            r matches Ok(Self::ListValues(x)) ==> node.kind@ == "list_values"@ && x == ListValues(node),
            r matches Ok(Self::Number(x)) ==> node.kind@ == "number"@ && x == Number(node),
            r matches Ok(Self::Paren(x)) ==> node.kind@ == "paren"@ && x == Paren(node),
            r matches Ok(Self::Postfix(x)) ==> node.kind@ == "postfix"@ && x == Postfix(node),
            r matches Ok(Self::QualifiedName(x)) ==> node.kind@ == "qualified_name"@ && x == QualifiedName(node),
            r matches Ok(Self::String(x)) ==> node.kind@ == "string"@ && x == String(node),
            r matches Ok(Self::Unary(x)) ==> node.kind@ == "unary"@ && x == Unary(node),
            r is Err ==> r == Err::<Self, IncorrectKind<'tree>>(IncorrectKind { node, kind: Self::KIND }),
    {
        if str_eq(node.kind, "binary") {
            Ok(Self::Binary(Binary::from_node_unchecked(node)))
        } else if str_eq(node.kind, "boolean") {
            Ok(Self::Boolean(Boolean::from_node_unchecked(node)))
        } else if str_eq(node.kind, "call") {
            Ok(Self::Call(Call::from_node_unchecked(node)))
        } else if str_eq(node.kind, "divert") {
            Ok(Self::Divert(Divert::from_node_unchecked(node)))
        } else if str_eq(node.kind, "identifier") {
            Ok(Self::Identifier(Identifier::from_node_unchecked(node)))
        } else if str_eq(node.kind, "list_values") {
            Ok(Self::ListValues(ListValues::from_node_unchecked(node)))
        } else if str_eq(node.kind, "number") {
            Ok(Self::Number(Number::from_node_unchecked(node)))
        } else if str_eq(node.kind, "paren") {
            Ok(Self::Paren(Paren::from_node_unchecked(node)))
        } else if str_eq(node.kind, "postfix") {
            Ok(Self::Postfix(Postfix::from_node_unchecked(node)))
        } else if str_eq(node.kind, "qualified_name") {
            Ok(Self::QualifiedName(QualifiedName::from_node_unchecked(node)))
        } else if str_eq(node.kind, "string") {
            Ok(Self::String(String::from_node_unchecked(node)))
        } else if str_eq(node.kind, "unary") {
            Ok(Self::Unary(Unary::from_node_unchecked(node)))
        } else {
            Err(IncorrectKind { node, kind: Self::KIND })
        }
    }
}

impl<'tree> TryFromSpecImpl<&'tree SyntaxNode> for Binary_Boolean_Call_Divert_Identifier_ListValues_Number_Paren_Postfix_QualifiedName_String_Unary<'tree> {
    open spec fn obeys_try_from_spec() -> bool {
        true
    }

    open spec fn try_from_spec(node: &'tree SyntaxNode) -> NodeResult<'tree, Self> {
        if node.kind@ == "binary"@ {
            Ok(Self::Binary(Binary(node)))
        } else if node.kind@ == "boolean"@ {
            Ok(Self::Boolean(Boolean(node)))
        } else if node.kind@ == "call"@ {
            Ok(Self::Call(Call(node)))
        } else if node.kind@ == "divert"@ {
            Ok(Self::Divert(Divert(node)))
        } else if node.kind@ == "identifier"@ {
            Ok(Self::Identifier(Identifier(node)))
        } else if node.kind@ == "list_values"@ {
            Ok(Self::ListValues(ListValues(node)))
        } else if node.kind@ == "number"@ {
            Ok(Self::Number(Number(node)))
        } else if node.kind@ == "paren"@ {
            Ok(Self::Paren(Paren(node)))
        } else if node.kind@ == "postfix"@ {
            Ok(Self::Postfix(Postfix(node)))
        } else if node.kind@ == "qualified_name"@ {
            Ok(Self::QualifiedName(QualifiedName(node)))
        } else if node.kind@ == "string"@ {
            Ok(Self::String(String(node)))
        } else if node.kind@ == "unary"@ {
            Ok(Self::Unary(Unary(node)))
        } else {
            Err(IncorrectKind { node, kind: Self::KIND })
        }
    }
}

/// one of `{+= | -= | =}`:
/// - [symbols::Add_Eq_]
/// - [symbols::Sub_Eq_]
/// - [symbols::Eq_]
#[derive(Debug, Clone, Copy, PartialEq, Eq, Hash)]
#[allow(non_camel_case_types)]
pub enum Add_Eq__Sub_Eq__Eq_<'tree> {
    Add_Eq_(symbols::Add_Eq_<'tree>),
    Sub_Eq_(symbols::Sub_Eq_<'tree>),
    Eq_(symbols::Eq_<'tree>),
}

impl<'tree> Add_Eq__Sub_Eq__Eq_<'tree> {
    /// The kinds of the nodes of this type.
    pub const KIND: &'static str = "{+= | -= | =}";

    /// Returns the node if it is of kind `+=` ([symbols::Add_Eq_]), otherwise returns None
    pub fn add_eq_(self) -> (r: Option<symbols::Add_Eq_<'tree>>)
        ensures
            match self {
                Self::Add_Eq_(x) => r == Some(x),
                _ => r is None,
            },
    {
        match self {
            Self::Add_Eq_(x) => Some(x),
            _ => None,
        }
    }

    /// Returns the node if it is of kind `-=` ([symbols::Sub_Eq_]), otherwise returns None
    pub fn sub_eq_(self) -> (r: Option<symbols::Sub_Eq_<'tree>>)
        ensures
            match self {
                Self::Sub_Eq_(x) => r == Some(x),
                _ => r is None,
            },
    {
        match self {
            Self::Sub_Eq_(x) => Some(x),
            _ => None,
        }
    }

    /// Returns the node if it is of kind `=` ([symbols::Eq_]), otherwise returns None
    pub fn eq_(self) -> (r: Option<symbols::Eq_<'tree>>)
        ensures
            match self {
                Self::Eq_(x) => r == Some(x),
                _ => r is None,
            },
    {
        match self {
            Self::Eq_(x) => Some(x),
            _ => None,
        }
    }

    /// The underlying node, whichever the variant.
    pub open spec fn spec_node(self) -> &'tree SyntaxNode {
        match self {
            Self::Add_Eq_(x) => x.0,
            Self::Sub_Eq_(x) => x.0,
            Self::Eq_(x) => x.0,
        }
    }

    /// The underlying node.
    pub fn node(&self) -> (r: &&'tree SyntaxNode)
        ensures
            *r == self.spec_node(),
    {
        match self {
            Self::Add_Eq_(x) => x.node(),
            Self::Sub_Eq_(x) => x.node(),
            Self::Eq_(x) => x.node(),
        }
    }

    /// The underlying node, to replace in place.
    pub fn node_mut(&mut self) -> (r: &mut &'tree SyntaxNode)
        ensures
            *r == old(self).spec_node(),
            final(self).spec_node() == *final(r),
            (*old(self)) is Add_Eq_ ==> (*final(self)) is Add_Eq_,
            (*old(self)) is Sub_Eq_ ==> (*final(self)) is Sub_Eq_,
            (*old(self)) is Eq_ ==> (*final(self)) is Eq_,
    {
        match self {
            Self::Add_Eq_(x) => x.node_mut(),
            Self::Sub_Eq_(x) => x.node_mut(),
            Self::Eq_(x) => x.node_mut(),
        }
    }

    /// The underlying node, giving up the typed view.
    pub fn into_node(self) -> (r: &'tree SyntaxNode)
        ensures
            r == self.spec_node(),
    {
        match self {
            Self::Add_Eq_(x) => x.into_node(),
            Self::Sub_Eq_(x) => x.into_node(),
            Self::Eq_(x) => x.into_node(),
        }
    }
}

impl<'tree> TryFrom<&'tree SyntaxNode> for Add_Eq__Sub_Eq__Eq_<'tree> {
    type Error = IncorrectKind<'tree>;

    /// Views `node` as the variant for its kind, if it has one of this type's kinds.
    fn try_from(node: &'tree SyntaxNode) -> (r: NodeResult<'tree, Self>)
        ensures
            r is Ok <==> (
                node.kind@ == "+="@
                || node.kind@ == "-="@
                || node.kind@ == "="@
            ),
            r matches Ok(Self::Add_Eq_(x)) ==> node.kind@ == "+="@ && x == symbols::Add_Eq_(node),
            r matches Ok(Self::Sub_Eq_(x)) ==> node.kind@ == "-="@ && x == symbols::Sub_Eq_(node),
            r matches Ok(Self::Eq_(x)) ==> node.kind@ == "="@ && x == symbols::Eq_(node),
            r is Err ==> r == Err::<Self, IncorrectKind<'tree>>(IncorrectKind { node, kind: Self::KIND }),
    {
        if str_eq(node.kind, "+=") {
            Ok(Self::Add_Eq_(symbols::Add_Eq_::from_node_unchecked(node)))
        } else if str_eq(node.kind, "-=") {
            Ok(Self::Sub_Eq_(symbols::Sub_Eq_::from_node_unchecked(node)))
        } else if str_eq(node.kind, "=") {
            Ok(Self::Eq_(symbols::Eq_::from_node_unchecked(node)))
        } else {
            Err(IncorrectKind { node, kind: Self::KIND })
        }
    }
}

impl<'tree> TryFromSpecImpl<&'tree SyntaxNode> for Add_Eq__Sub_Eq__Eq_<'tree> {
    open spec fn obeys_try_from_spec() -> bool {
        true
    }

    open spec fn try_from_spec(node: &'tree SyntaxNode) -> NodeResult<'tree, Self> {
        if node.kind@ == "+="@ {
            Ok(Self::Add_Eq_(symbols::Add_Eq_(node)))
        } else if node.kind@ == "-="@ {
            Ok(Self::Sub_Eq_(symbols::Sub_Eq_(node)))
        } else if node.kind@ == "="@ {
            Ok(Self::Eq_(symbols::Eq_(node)))
        } else {
            Err(IncorrectKind { node, kind: Self::KIND })
        }
    }
}

/// one of `{binary | boolean | call | divert | identifier | list_values | number | paren | postfix | qualified_name | string | unary | != | !? | % | && | * | + | - | / | < | <= | == | > | >= | ? | ^ | and | has | hasnt | mod | or | ||}`:
/// - [Binary]
/// - [Boolean]
/// - [Call]
/// - [Divert]
/// - [Identifier]
/// - [ListValues]
/// - [Number]
/// - [Paren]
/// - [Postfix]
/// - [QualifiedName]
/// - [String]
/// - [Unary]
/// - [symbols::Not_Eq_]
/// - [symbols::Not_Question_]
/// - [symbols::Mod_]
/// - [symbols::And_And_]
/// - [symbols::Mul_]
/// - [symbols::Add_]
/// - [symbols::Sub_]
/// - [symbols::Div_]
/// - [symbols::Lt_]
/// - [symbols::Lt_Eq_]
/// - [symbols::Eq_Eq_]
/// - [symbols::Gt_]
/// - [symbols::Gt_Eq_]
/// - [symbols::Question_]
/// - [symbols::BitXor_]
/// - [unnamed::And]
/// - [unnamed::Has]
/// - [unnamed::Hasnt]
/// - [unnamed::Mod]
/// - [unnamed::Or]
/// - [symbols::Or_Or_]
#[derive(Debug, Clone, Copy, PartialEq, Eq, Hash)]
#[allow(non_camel_case_types)]
pub enum Binary_Boolean_Call_Divert_Identifier_ListValues_Number_Paren_Postfix_QualifiedName_String_Unary_Not_Eq__Not_Question__Mod__And_And__Mul__Add__Sub__Div__Lt__Lt_Eq__Eq_Eq__Gt__Gt_Eq__Question__BitXor__And_Has_Hasnt_Mod_Or_Or_Or_<'tree> {
    Binary(Binary<'tree>),
    Boolean(Boolean<'tree>),
    Call(Call<'tree>),
    Divert(Divert<'tree>),
    Identifier(Identifier<'tree>),
    ListValues(ListValues<'tree>),
    Number(Number<'tree>),
    Paren(Paren<'tree>),
    Postfix(Postfix<'tree>),
    QualifiedName(QualifiedName<'tree>),
    String(String<'tree>),
    Unary(Unary<'tree>),
    Not_Eq_(symbols::Not_Eq_<'tree>),
    Not_Question_(symbols::Not_Question_<'tree>),
    Mod_(symbols::Mod_<'tree>),
    And_And_(symbols::And_And_<'tree>),
    Mul_(symbols::Mul_<'tree>),
    Add_(symbols::Add_<'tree>),
    Sub_(symbols::Sub_<'tree>),
    Div_(symbols::Div_<'tree>),
    Lt_(symbols::Lt_<'tree>),
    Lt_Eq_(symbols::Lt_Eq_<'tree>),
    Eq_Eq_(symbols::Eq_Eq_<'tree>),
    Gt_(symbols::Gt_<'tree>),
    Gt_Eq_(symbols::Gt_Eq_<'tree>),
    Question_(symbols::Question_<'tree>),
    BitXor_(symbols::BitXor_<'tree>),
    And(unnamed::And<'tree>),
    Has(unnamed::Has<'tree>),
    Hasnt(unnamed::Hasnt<'tree>),
    Mod(unnamed::Mod<'tree>),
    Or(unnamed::Or<'tree>),
    Or_Or_(symbols::Or_Or_<'tree>),
}

impl<'tree> Binary_Boolean_Call_Divert_Identifier_ListValues_Number_Paren_Postfix_QualifiedName_String_Unary_Not_Eq__Not_Question__Mod__And_And__Mul__Add__Sub__Div__Lt__Lt_Eq__Eq_Eq__Gt__Gt_Eq__Question__BitXor__And_Has_Hasnt_Mod_Or_Or_Or_<'tree> {
    /// The kinds of the nodes of this type.
    pub const KIND: &'static str = "{binary | boolean | call | divert | identifier | list_values | number | paren | postfix | qualified_name | string | unary | != | !? | % | && | * | + | - | / | < | <= | == | > | >= | ? | ^ | and | has | hasnt | mod | or | ||}";

    /// Returns the node if it is of kind `binary` ([Binary]), otherwise returns None
    pub fn binary(self) -> (r: Option<Binary<'tree>>)
        ensures
            match self {
                Self::Binary(x) => r == Some(x),
                _ => r is None,
            },
    {
        match self {
            Self::Binary(x) => Some(x),
            _ => None,
        }
    }

    /// Returns the node if it is of kind `boolean` ([Boolean]), otherwise returns None
    pub fn boolean(self) -> (r: Option<Boolean<'tree>>)
        ensures
            match self {
                Self::Boolean(x) => r == Some(x),
                _ => r is None,
            },
    {
        match self {
            Self::Boolean(x) => Some(x),
            _ => None,
        }
    }

    /// Returns the node if it is of kind `call` ([Call]), otherwise returns None
    pub fn call(self) -> (r: Option<Call<'tree>>)
        ensures
            match self {
                Self::Call(x) => r == Some(x),
                _ => r is None,
            },
    {
        match self {
            Self::Call(x) => Some(x),
            _ => None,
        }
    }

    /// Returns the node if it is of kind `divert` ([Divert]), otherwise returns None
    pub fn divert(self) -> (r: Option<Divert<'tree>>)
        ensures
            match self {
                Self::Divert(x) => r == Some(x),
                _ => r is None,
            },
    {
        match self {
            Self::Divert(x) => Some(x),
            _ => None,
        }
    }

    /// Returns the node if it is of kind `identifier` ([Identifier]), otherwise returns None
    pub fn identifier(self) -> (r: Option<Identifier<'tree>>)
        ensures
            match self {
                Self::Identifier(x) => r == Some(x),
                _ => r is None,
            },
    {
        match self {
            Self::Identifier(x) => Some(x),
            _ => None,
        }
    }

    /// Returns the node if it is of kind `list_values` ([ListValues]), otherwise returns None
    pub fn list_values(self) -> (r: Option<ListValues<'tree>>)
        ensures
            match self {
                Self::ListValues(x) => r == Some(x),
                _ => r is None,
            },
    {
        match self {
            Self::ListValues(x) => Some(x),
            _ => None,
        }
    }

    /// Returns the node if it is of kind `number` ([Number]), otherwise returns None
    pub fn number(self) -> (r: Option<Number<'tree>>)
        ensures
            match self {
                Self::Number(x) => r == Some(x),
                _ => r is None,
            },
    {
        match self {
            Self::Number(x) => Some(x),
            _ => None,
        }
    }

    /// Returns the node if it is of kind `paren` ([Paren]), otherwise returns None
    pub fn paren(self) -> (r: Option<Paren<'tree>>)
        ensures
            match self {
                Self::Paren(x) => r == Some(x),
                _ => r is None,
            },
    {
        match self {
            Self::Paren(x) => Some(x),
            _ => None,
        }
    }

    /// Returns the node if it is of kind `postfix` ([Postfix]), otherwise returns None
    pub fn postfix(self) -> (r: Option<Postfix<'tree>>)
        ensures
            match self {
                Self::Postfix(x) => r == Some(x),
                _ => r is None,
            },
    {
        match self {
            Self::Postfix(x) => Some(x),
            _ => None,
        }
    }

    /// Returns the node if it is of kind `qualified_name` ([QualifiedName]), otherwise returns None
    pub fn qualified_name(self) -> (r: Option<QualifiedName<'tree>>)
        ensures
            match self {
                Self::QualifiedName(x) => r == Some(x),
                _ => r is None,
            },
    {
        match self {
            Self::QualifiedName(x) => Some(x),
            _ => None,
        }
    }

    /// Returns the node if it is of kind `string` ([String]), otherwise returns None
    pub fn string(self) -> (r: Option<String<'tree>>)
        ensures
            match self {
                Self::String(x) => r == Some(x),
                _ => r is None,
            },
    {
        match self {
            Self::String(x) => Some(x),
            _ => None,
        }
    }

    /// Returns the node if it is of kind `unary` ([Unary]), otherwise returns None
    pub fn unary(self) -> (r: Option<Unary<'tree>>)
        ensures
            match self {
                Self::Unary(x) => r == Some(x),
                _ => r is None,
            },
    {
        match self {
            Self::Unary(x) => Some(x),
            _ => None,
        }
    }

    /// Returns the node if it is of kind `!=` ([symbols::Not_Eq_]), otherwise returns None
    pub fn not_eq_(self) -> (r: Option<symbols::Not_Eq_<'tree>>)
        ensures
            match self {
                Self::Not_Eq_(x) => r == Some(x),
                _ => r is None,
            },
    {
        match self {
            Self::Not_Eq_(x) => Some(x),
            _ => None,
        }
    }

    /// Returns the node if it is of kind `!?` ([symbols::Not_Question_]), otherwise returns None
    pub fn not_question_(self) -> (r: Option<symbols::Not_Question_<'tree>>)
        ensures
            match self {
                Self::Not_Question_(x) => r == Some(x),
                _ => r is None,
            },
    {
        match self {
            Self::Not_Question_(x) => Some(x),
            _ => None,
        }
    }

    /// Returns the node if it is of kind `%` ([symbols::Mod_]), otherwise returns None
    pub fn mod_(self) -> (r: Option<symbols::Mod_<'tree>>)
        ensures
            match self {
                Self::Mod_(x) => r == Some(x),
                _ => r is None,
            },
    {
        match self {
            Self::Mod_(x) => Some(x),
            _ => None,
        }
    }

    /// Returns the node if it is of kind `&&` ([symbols::And_And_]), otherwise returns None
    pub fn and_and_(self) -> (r: Option<symbols::And_And_<'tree>>)
        ensures
            match self {
                Self::And_And_(x) => r == Some(x),
                _ => r is None,
            },
    {
        match self {
            Self::And_And_(x) => Some(x),
            _ => None,
        }
    }

    /// Returns the node if it is of kind `*` ([symbols::Mul_]), otherwise returns None
    pub fn mul_(self) -> (r: Option<symbols::Mul_<'tree>>)
        ensures
            match self {
                Self::Mul_(x) => r == Some(x),
                _ => r is None,
            },
    {
        match self {
            Self::Mul_(x) => Some(x),
            _ => None,
        }
    }

    /// Returns the node if it is of kind `+` ([symbols::Add_]), otherwise returns None
    pub fn add_(self) -> (r: Option<symbols::Add_<'tree>>)
        ensures
            match self {
                Self::Add_(x) => r == Some(x),
                _ => r is None,
            },
    {
        match self {
            Self::Add_(x) => Some(x),
            _ => None,
        }
    }

    /// Returns the node if it is of kind `-` ([symbols::Sub_]), otherwise returns None
    pub fn sub_(self) -> (r: Option<symbols::Sub_<'tree>>)
        ensures
            match self {
                Self::Sub_(x) => r == Some(x),
                _ => r is None,
            },
    {
        match self {
            Self::Sub_(x) => Some(x),
            _ => None,
        }
    }

    /// Returns the node if it is of kind `/` ([symbols::Div_]), otherwise returns None
    pub fn div_(self) -> (r: Option<symbols::Div_<'tree>>)
        ensures
            match self {
                Self::Div_(x) => r == Some(x),
                _ => r is None,
            },
    {
        match self {
            Self::Div_(x) => Some(x),
            _ => None,
        }
    }

    /// Returns the node if it is of kind `<` ([symbols::Lt_]), otherwise returns None
    pub fn lt_(self) -> (r: Option<symbols::Lt_<'tree>>)
        ensures
            match self {
                Self::Lt_(x) => r == Some(x),
                _ => r is None,
            },
    {
        match self {
            Self::Lt_(x) => Some(x),
            _ => None,
        }
    }

    /// Returns the node if it is of kind `<=` ([symbols::Lt_Eq_]), otherwise returns None
    pub fn lt_eq_(self) -> (r: Option<symbols::Lt_Eq_<'tree>>)
        ensures
            match self {
                Self::Lt_Eq_(x) => r == Some(x),
                _ => r is None,
            },
    {
        match self {
            Self::Lt_Eq_(x) => Some(x),
            _ => None,
        }
    }

    /// Returns the node if it is of kind `==` ([symbols::Eq_Eq_]), otherwise returns None
    pub fn eq_eq_(self) -> (r: Option<symbols::Eq_Eq_<'tree>>)
        ensures
            match self {
                Self::Eq_Eq_(x) => r == Some(x),
                _ => r is None,
            },
    {
        match self {
            Self::Eq_Eq_(x) => Some(x),
            _ => None,
        }
    }

    /// Returns the node if it is of kind `>` ([symbols::Gt_]), otherwise returns None
    pub fn gt_(self) -> (r: Option<symbols::Gt_<'tree>>)
        ensures
            match self {
                Self::Gt_(x) => r == Some(x),
                _ => r is None,
            },
    {
        match self {
            Self::Gt_(x) => Some(x),
            _ => None,
        }
    }

    /// Returns the node if it is of kind `>=` ([symbols::Gt_Eq_]), otherwise returns None
    pub fn gt_eq_(self) -> (r: Option<symbols::Gt_Eq_<'tree>>)
        ensures
            match self {
                Self::Gt_Eq_(x) => r == Some(x),
                _ => r is None,
            },
    {
        match self {
            Self::Gt_Eq_(x) => Some(x),
            _ => None,
        }
    }

    /// Returns the node if it is of kind `?` ([symbols::Question_]), otherwise returns None
    pub fn question_(self) -> (r: Option<symbols::Question_<'tree>>)
        ensures
            match self {
                Self::Question_(x) => r == Some(x),
                _ => r is None,
            },
    {
        match self {
            Self::Question_(x) => Some(x),
            _ => None,
        }
    }

    /// Returns the node if it is of kind `^` ([symbols::BitXor_]), otherwise returns None
    pub fn bit_xor_(self) -> (r: Option<symbols::BitXor_<'tree>>)
        ensures
            match self {
                Self::BitXor_(x) => r == Some(x),
                _ => r is None,
            },
    {
        match self {
            Self::BitXor_(x) => Some(x),
            _ => None,
        }
    }

    /// Returns the node if it is of kind `and` ([unnamed::And]), otherwise returns None
    pub fn and(self) -> (r: Option<unnamed::And<'tree>>)
        ensures
            match self {
                Self::And(x) => r == Some(x),
                _ => r is None,
            },
    {
        match self {
            Self::And(x) => Some(x),
            _ => None,
        }
    }

    /// Returns the node if it is of kind `has` ([unnamed::Has]), otherwise returns None
    pub fn has(self) -> (r: Option<unnamed::Has<'tree>>)
        ensures
            match self {
                Self::Has(x) => r == Some(x),
                _ => r is None,
            },
    {
        match self {
            Self::Has(x) => Some(x),
            _ => None,
        }
    }

    /// Returns the node if it is of kind `hasnt` ([unnamed::Hasnt]), otherwise returns None
    pub fn hasnt(self) -> (r: Option<unnamed::Hasnt<'tree>>)
        ensures
            match self {
                Self::Hasnt(x) => r == Some(x),
                _ => r is None,
            },
    {
        match self {
            Self::Hasnt(x) => Some(x),
            _ => None,
        }
    }

    /// Returns the node if it is of kind `mod` ([unnamed::Mod]), otherwise returns None
    pub fn mod_node(self) -> (r: Option<unnamed::Mod<'tree>>)
        ensures
            match self {
                Self::Mod(x) => r == Some(x),
                _ => r is None,
            },
    {
        match self {
            Self::Mod(x) => Some(x),
            _ => None,
        }
    }

    /// Returns the node if it is of kind `or` ([unnamed::Or]), otherwise returns None
    pub fn or(self) -> (r: Option<unnamed::Or<'tree>>)
        ensures
            match self {
                Self::Or(x) => r == Some(x),
                _ => r is None,
            },
    {
        match self {
            Self::Or(x) => Some(x),
            _ => None,
        }
    }

    /// Returns the node if it is of kind `||` ([symbols::Or_Or_]), otherwise returns None
    pub fn or_or_(self) -> (r: Option<symbols::Or_Or_<'tree>>)
        ensures
            match self {
                Self::Or_Or_(x) => r == Some(x),
                _ => r is None,
            },
    {
        match self {
            Self::Or_Or_(x) => Some(x),
            _ => None,
        }
    }

    /// The underlying node, whichever the variant.
    pub open spec fn spec_node(self) -> &'tree SyntaxNode {
        match self {
            Self::Binary(x) => x.0,
            Self::Boolean(x) => x.0,
            Self::Call(x) => x.0,
            Self::Divert(x) => x.0,
            Self::Identifier(x) => x.0,
            Self::ListValues(x) => x.0,
            Self::Number(x) => x.0,
            Self::Paren(x) => x.0,
            Self::Postfix(x) => x.0,
            Self::QualifiedName(x) => x.0,
            Self::String(x) => x.0,
            Self::Unary(x) => x.0,
            Self::Not_Eq_(x) => x.0,
            Self::Not_Question_(x) => x.0,
            Self::Mod_(x) => x.0,
            Self::And_And_(x) => x.0,
            Self::Mul_(x) => x.0,
            Self::Add_(x) => x.0,
            Self::Sub_(x) => x.0,
            Self::Div_(x) => x.0,
            Self::Lt_(x) => x.0,
            Self::Lt_Eq_(x) => x.0,
            Self::Eq_Eq_(x) => x.0,
            Self::Gt_(x) => x.0,
            Self::Gt_Eq_(x) => x.0,
            Self::Question_(x) => x.0,
            Self::BitXor_(x) => x.0,
            Self::And(x) => x.0,
            Self::Has(x) => x.0,
            Self::Hasnt(x) => x.0,
            Self::Mod(x) => x.0,
            Self::Or(x) => x.0,
            Self::Or_Or_(x) => x.0,
        }
    }

    /// The underlying node.
    pub fn node(&self) -> (r: &&'tree SyntaxNode)
        ensures
            *r == self.spec_node(),
    {
        match self {
            Self::Binary(x) => x.node(),
            Self::Boolean(x) => x.node(),
            Self::Call(x) => x.node(),
            Self::Divert(x) => x.node(),
            Self::Identifier(x) => x.node(),
            Self::ListValues(x) => x.node(),
            Self::Number(x) => x.node(),
            Self::Paren(x) => x.node(),
            Self::Postfix(x) => x.node(),
            Self::QualifiedName(x) => x.node(),
            Self::String(x) => x.node(),
            Self::Unary(x) => x.node(),
            Self::Not_Eq_(x) => x.node(),
            Self::Not_Question_(x) => x.node(),
            Self::Mod_(x) => x.node(),
            Self::And_And_(x) => x.node(),
            Self::Mul_(x) => x.node(),
            Self::Add_(x) => x.node(),
            Self::Sub_(x) => x.node(),
            Self::Div_(x) => x.node(),
            Self::Lt_(x) => x.node(),
            Self::Lt_Eq_(x) => x.node(),
            Self::Eq_Eq_(x) => x.node(),
            Self::Gt_(x) => x.node(),
            Self::Gt_Eq_(x) => x.node(),
            Self::Question_(x) => x.node(),
            Self::BitXor_(x) => x.node(),
            Self::And(x) => x.node(),
            Self::Has(x) => x.node(),
            Self::Hasnt(x) => x.node(),
            Self::Mod(x) => x.node(),
            Self::Or(x) => x.node(),
            Self::Or_Or_(x) => x.node(),
        }
    }

    /// The underlying node, to replace in place.
    pub fn node_mut(&mut self) -> (r: &mut &'tree SyntaxNode)
        ensures
            *r == old(self).spec_node(),
            final(self).spec_node() == *final(r),
            (*old(self)) is Binary ==> (*final(self)) is Binary,
            (*old(self)) is Boolean ==> (*final(self)) is Boolean,
            (*old(self)) is Call ==> (*final(self)) is Call,
            (*old(self)) is Divert ==> (*final(self)) is Divert,
            (*old(self)) is Identifier ==> (*final(self)) is Identifier,
            (*old(self)) is ListValues ==> (*final(self)) is ListValues,
            (*old(self)) is Number ==> (*final(self)) is Number,
            (*old(self)) is Paren ==> (*final(self)) is Paren,
            (*old(self)) is Postfix ==> (*final(self)) is Postfix,
            (*old(self)) is QualifiedName ==> (*final(self)) is QualifiedName,
            (*old(self)) is String ==> (*final(self)) is String,
            (*old(self)) is Unary ==> (*final(self)) is Unary,
            (*old(self)) is Not_Eq_ ==> (*final(self)) is Not_Eq_,
            (*old(self)) is Not_Question_ ==> (*final(self)) is Not_Question_,
            (*old(self)) is Mod_ ==> (*final(self)) is Mod_,
            (*old(self)) is And_And_ ==> (*final(self)) is And_And_,
            (*old(self)) is Mul_ ==> (*final(self)) is Mul_,
            (*old(self)) is Add_ ==> (*final(self)) is Add_,
            (*old(self)) is Sub_ ==> (*final(self)) is Sub_,
            (*old(self)) is Div_ ==> (*final(self)) is Div_,
            (*old(self)) is Lt_ ==> (*final(self)) is Lt_,
            (*old(self)) is Lt_Eq_ ==> (*final(self)) is Lt_Eq_,
            (*old(self)) is Eq_Eq_ ==> (*final(self)) is Eq_Eq_,
            (*old(self)) is Gt_ ==> (*final(self)) is Gt_,
            (*old(self)) is Gt_Eq_ ==> (*final(self)) is Gt_Eq_,
            (*old(self)) is Question_ ==> (*final(self)) is Question_,
            (*old(self)) is BitXor_ ==> (*final(self)) is BitXor_,
            (*old(self)) is And ==> (*final(self)) is And,
            (*old(self)) is Has ==> (*final(self)) is Has,
            (*old(self)) is Hasnt ==> (*final(self)) is Hasnt,
            (*old(self)) is Mod ==> (*final(self)) is Mod,
            (*old(self)) is Or ==> (*final(self)) is Or,
            (*old(self)) is Or_Or_ ==> (*final(self)) is Or_Or_,
    {
        match self {
            Self::Binary(x) => x.node_mut(),
            Self::Boolean(x) => x.node_mut(),
            Self::Call(x) => x.node_mut(),
            Self::Divert(x) => x.node_mut(),
            Self::Identifier(x) => x.node_mut(),
            Self::ListValues(x) => x.node_mut(),
            Self::Number(x) => x.node_mut(),
            Self::Paren(x) => x.node_mut(),
            Self::Postfix(x) => x.node_mut(),
            Self::QualifiedName(x) => x.node_mut(),
            Self::String(x) => x.node_mut(),
            Self::Unary(x) => x.node_mut(),
            Self::Not_Eq_(x) => x.node_mut(),
            Self::Not_Question_(x) => x.node_mut(),
            Self::Mod_(x) => x.node_mut(),
            Self::And_And_(x) => x.node_mut(),
            Self::Mul_(x) => x.node_mut(),
            Self::Add_(x) => x.node_mut(),
            Self::Sub_(x) => x.node_mut(),
            Self::Div_(x) => x.node_mut(),
            Self::Lt_(x) => x.node_mut(),
            Self::Lt_Eq_(x) => x.node_mut(),
            Self::Eq_Eq_(x) => x.node_mut(),
            Self::Gt_(x) => x.node_mut(),
            Self::Gt_Eq_(x) => x.node_mut(),
            Self::Question_(x) => x.node_mut(),
            Self::BitXor_(x) => x.node_mut(),
            Self::And(x) => x.node_mut(),
            Self::Has(x) => x.node_mut(),
            Self::Hasnt(x) => x.node_mut(),
            Self::Mod(x) => x.node_mut(),
            Self::Or(x) => x.node_mut(),
            Self::Or_Or_(x) => x.node_mut(),
        }
    }

    /// The underlying node, giving up the typed view.
    pub fn into_node(self) -> (r: &'tree SyntaxNode)
        ensures
            r == self.spec_node(),
    {
        match self {
            Self::Binary(x) => x.into_node(),
            Self::Boolean(x) => x.into_node(),
            Self::Call(x) => x.into_node(),
            Self::Divert(x) => x.into_node(),
            Self::Identifier(x) => x.into_node(),
            Self::ListValues(x) => x.into_node(),
            Self::Number(x) => x.into_node(),
            Self::Paren(x) => x.into_node(),
            Self::Postfix(x) => x.into_node(),
            Self::QualifiedName(x) => x.into_node(),
            Self::String(x) => x.into_node(),
            Self::Unary(x) => x.into_node(),
            Self::Not_Eq_(x) => x.into_node(),
            Self::Not_Question_(x) => x.into_node(),
            Self::Mod_(x) => x.into_node(),
            Self::And_And_(x) => x.into_node(),
            Self::Mul_(x) => x.into_node(),
            Self::Add_(x) => x.into_node(),
            Self::Sub_(x) => x.into_node(),
            Self::Div_(x) => x.into_node(),
            Self::Lt_(x) => x.into_node(),
            Self::Lt_Eq_(x) => x.into_node(),
            Self::Eq_Eq_(x) => x.into_node(),
            Self::Gt_(x) => x.into_node(),
            Self::Gt_Eq_(x) => x.into_node(),
            Self::Question_(x) => x.into_node(),
            Self::BitXor_(x) => x.into_node(),
            Self::And(x) => x.into_node(),
            Self::Has(x) => x.into_node(),
            Self::Hasnt(x) => x.into_node(),
            Self::Mod(x) => x.into_node(),
            Self::Or(x) => x.into_node(),
            Self::Or_Or_(x) => x.into_node(),
        }
    }
}

impl<'tree> TryFrom<&'tree SyntaxNode> for Binary_Boolean_Call_Divert_Identifier_ListValues_Number_Paren_Postfix_QualifiedName_String_Unary_Not_Eq__Not_Question__Mod__And_And__Mul__Add__Sub__Div__Lt__Lt_Eq__Eq_Eq__Gt__Gt_Eq__Question__BitXor__And_Has_Hasnt_Mod_Or_Or_Or_<'tree> {
    type Error = IncorrectKind<'tree>;

    /// Views `node` as the variant for its kind, if it has one of this type's kinds.
    fn try_from(node: &'tree SyntaxNode) -> (r: NodeResult<'tree, Self>)
        ensures
            r is Ok <==> (
                node.kind@ == "binary"@
                || node.kind@ == "boolean"@
                || node.kind@ == "call"@
                || node.kind@ == "divert"@
                || node.kind@ == "identifier"@
                || node.kind@ == "list_values"@
                || node.kind@ == "number"@
                || node.kind@ == "paren"@
                || node.kind@ == "postfix"@
                || node.kind@ == "qualified_name"@
                || node.kind@ == "string"@
                || node.kind@ == "unary"@
                || node.kind@ == "!="@
                || node.kind@ == "!?"@
                || node.kind@ == "%"@
                || node.kind@ == "&&"@
                || node.kind@ == "*"@
                || node.kind@ == "+"@
                || node.kind@ == "-"@
                || node.kind@ == "/"@
                || node.kind@ == "<"@
                || node.kind@ == "<="@
                || node.kind@ == "=="@
                || node.kind@ == ">"@
                || node.kind@ == ">="@
                || node.kind@ == "?"@
                || node.kind@ == "^"@
                || node.kind@ == "and"@
                || node.kind@ == "has"@
                || node.kind@ == "hasnt"@
                || node.kind@ == "mod"@
                || node.kind@ == "or"@
                || node.kind@ == "||"@
            ),
            r matches Ok(Self::Binary(x)) ==> node.kind@ == "binary"@ && x == Binary(node),
            r matches Ok(Self::Boolean(x)) ==> node.kind@ == "boolean"@ && x == Boolean(node),
            r matches Ok(Self::Call(x)) ==> node.kind@ == "call"@ && x == Call(node),
            r matches Ok(Self::Divert(x)) ==> node.kind@ == "divert"@ && x == Divert(node),
            r matches Ok(Self::Identifier(x)) ==> node.kind@ == "identifier"@ && x == Identifier(node),
            r matches Ok(Self::ListValues(x)) ==> node.kind@ == "list_values"@ && x == ListValues(node),
            r matches Ok(Self::Number(x)) ==> node.kind@ == "number"@ && x == Number(node),
            r matches Ok(Self::Paren(x)) ==> node.kind@ == "paren"@ && x == Paren(node),
            r matches Ok(Self::Postfix(x)) ==> node.kind@ == "postfix"@ && x == Postfix(node),
            r matches Ok(Self::QualifiedName(x)) ==> node.kind@ == "qualified_name"@ && x == QualifiedName(node),
            r matches Ok(Self::String(x)) ==> node.kind@ == "string"@ && x == String(node),
            r matches Ok(Self::Unary(x)) ==> node.kind@ == "unary"@ && x == Unary(node),
            r matches Ok(Self::Not_Eq_(x)) ==> node.kind@ == "!="@ && x == symbols::Not_Eq_(node),
            r matches Ok(Self::Not_Question_(x)) ==> node.kind@ == "!?"@ && x == symbols::Not_Question_(node),
            r matches Ok(Self::Mod_(x)) ==> node.kind@ == "%"@ && x == symbols::Mod_(node),
            r matches Ok(Self::And_And_(x)) ==> node.kind@ == "&&"@ && x == symbols::And_And_(node),
            r matches Ok(Self::Mul_(x)) ==> node.kind@ == "*"@ && x == symbols::Mul_(node),
            r matches Ok(Self::Add_(x)) ==> node.kind@ == "+"@ && x == symbols::Add_(node),
            r matches Ok(Self::Sub_(x)) ==> node.kind@ == "-"@ && x == symbols::Sub_(node),
            r matches Ok(Self::Div_(x)) ==> node.kind@ == "/"@ && x == symbols::Div_(node),
            r matches Ok(Self::Lt_(x)) ==> node.kind@ == "<"@ && x == symbols::Lt_(node),
            r matches Ok(Self::Lt_Eq_(x)) ==> node.kind@ == "<="@ && x == symbols::Lt_Eq_(node),
            r matches Ok(Self::Eq_Eq_(x)) ==> node.kind@ == "=="@ && x == symbols::Eq_Eq_(node),
            r matches Ok(Self::Gt_(x)) ==> node.kind@ == ">"@ && x == symbols::Gt_(node),
            r matches Ok(Self::Gt_Eq_(x)) ==> node.kind@ == ">="@ && x == symbols::Gt_Eq_(node),
            r matches Ok(Self::Question_(x)) ==> node.kind@ == "?"@ && x == symbols::Question_(node),
            r matches Ok(Self::BitXor_(x)) ==> node.kind@ == "^"@ && x == symbols::BitXor_(node),
            r matches Ok(Self::And(x)) ==> node.kind@ == "and"@ && x == unnamed::And(node),
            r matches Ok(Self::Has(x)) ==> node.kind@ == "has"@ && x == unnamed::Has(node),
            r matches Ok(Self::Hasnt(x)) ==> node.kind@ == "hasnt"@ && x == unnamed::Hasnt(node),
            r matches Ok(Self::Mod(x)) ==> node.kind@ == "mod"@ && x == unnamed::Mod(node),
            r matches Ok(Self::Or(x)) ==> node.kind@ == "or"@ && x == unnamed::Or(node),
            r matches Ok(Self::Or_Or_(x)) ==> node.kind@ == "||"@ && x == symbols::Or_Or_(node),
            r is Err ==> r == Err::<Self, IncorrectKind<'tree>>(IncorrectKind { node, kind: Self::KIND }),
    {
        if str_eq(node.kind, "binary") {
            Ok(Self::Binary(Binary::from_node_unchecked(node)))
        } else if str_eq(node.kind, "boolean") {
            Ok(Self::Boolean(Boolean::from_node_unchecked(node)))
        } else if str_eq(node.kind, "call") {
            Ok(Self::Call(Call::from_node_unchecked(node)))
        } else if str_eq(node.kind, "divert") {
            Ok(Self::Divert(Divert::from_node_unchecked(node)))
        } else if str_eq(node.kind, "identifier") {
            Ok(Self::Identifier(Identifier::from_node_unchecked(node)))
        } else if str_eq(node.kind, "list_values") {
            Ok(Self::ListValues(ListValues::from_node_unchecked(node)))
        } else if str_eq(node.kind, "number") {
            Ok(Self::Number(Number::from_node_unchecked(node)))
        } else if str_eq(node.kind, "paren") {
            Ok(Self::Paren(Paren::from_node_unchecked(node)))
        } else if str_eq(node.kind, "postfix") {
            Ok(Self::Postfix(Postfix::from_node_unchecked(node)))
        } else if str_eq(node.kind, "qualified_name") {
            Ok(Self::QualifiedName(QualifiedName::from_node_unchecked(node)))
        } else if str_eq(node.kind, "string") {
            Ok(Self::String(String::from_node_unchecked(node)))
        } else if str_eq(node.kind, "unary") {
            Ok(Self::Unary(Unary::from_node_unchecked(node)))
        } else if str_eq(node.kind, "!=") {
            Ok(Self::Not_Eq_(symbols::Not_Eq_::from_node_unchecked(node)))
        } else if str_eq(node.kind, "!?") {
            Ok(Self::Not_Question_(symbols::Not_Question_::from_node_unchecked(node)))
        } else if str_eq(node.kind, "%") {
            Ok(Self::Mod_(symbols::Mod_::from_node_unchecked(node)))
        } else if str_eq(node.kind, "&&") {
            Ok(Self::And_And_(symbols::And_And_::from_node_unchecked(node)))
        } else if str_eq(node.kind, "*") {
            Ok(Self::Mul_(symbols::Mul_::from_node_unchecked(node)))
        } else if str_eq(node.kind, "+") {
            Ok(Self::Add_(symbols::Add_::from_node_unchecked(node)))
        } else if str_eq(node.kind, "-") {
            Ok(Self::Sub_(symbols::Sub_::from_node_unchecked(node)))
        } else if str_eq(node.kind, "/") {
            Ok(Self::Div_(symbols::Div_::from_node_unchecked(node)))
        } else if str_eq(node.kind, "<") {
            Ok(Self::Lt_(symbols::Lt_::from_node_unchecked(node)))
        } else if str_eq(node.kind, "<=") {
            Ok(Self::Lt_Eq_(symbols::Lt_Eq_::from_node_unchecked(node)))
        } else if str_eq(node.kind, "==") {
            Ok(Self::Eq_Eq_(symbols::Eq_Eq_::from_node_unchecked(node)))
        } else if str_eq(node.kind, ">") {
            Ok(Self::Gt_(symbols::Gt_::from_node_unchecked(node)))
        } else if str_eq(node.kind, ">=") {
            Ok(Self::Gt_Eq_(symbols::Gt_Eq_::from_node_unchecked(node)))
        } else if str_eq(node.kind, "?") {
            Ok(Self::Question_(symbols::Question_::from_node_unchecked(node)))
        } else if str_eq(node.kind, "^") {
            Ok(Self::BitXor_(symbols::BitXor_::from_node_unchecked(node)))
        } else if str_eq(node.kind, "and") {
            Ok(Self::And(unnamed::And::from_node_unchecked(node)))
        } else if str_eq(node.kind, "has") {
            Ok(Self::Has(unnamed::Has::from_node_unchecked(node)))
        } else if str_eq(node.kind, "hasnt") {
            Ok(Self::Hasnt(unnamed::Hasnt::from_node_unchecked(node)))
        } else if str_eq(node.kind, "mod") {
            Ok(Self::Mod(unnamed::Mod::from_node_unchecked(node)))
        } else if str_eq(node.kind, "or") {
            Ok(Self::Or(unnamed::Or::from_node_unchecked(node)))
        } else if str_eq(node.kind, "||") {
            Ok(Self::Or_Or_(symbols::Or_Or_::from_node_unchecked(node)))
        } else {
            Err(IncorrectKind { node, kind: Self::KIND })
        }
    }
}

impl<'tree> TryFromSpecImpl<&'tree SyntaxNode> for Binary_Boolean_Call_Divert_Identifier_ListValues_Number_Paren_Postfix_QualifiedName_String_Unary_Not_Eq__Not_Question__Mod__And_And__Mul__Add__Sub__Div__Lt__Lt_Eq__Eq_Eq__Gt__Gt_Eq__Question__BitXor__And_Has_Hasnt_Mod_Or_Or_Or_<'tree> {
    open spec fn obeys_try_from_spec() -> bool {
        true
    }

    open spec fn try_from_spec(node: &'tree SyntaxNode) -> NodeResult<'tree, Self> {
        if node.kind@ == "binary"@ {
            Ok(Self::Binary(Binary(node)))
        } else if node.kind@ == "boolean"@ {
            Ok(Self::Boolean(Boolean(node)))
        } else if node.kind@ == "call"@ {
            Ok(Self::Call(Call(node)))
        } else if node.kind@ == "divert"@ {
            Ok(Self::Divert(Divert(node)))
        } else if node.kind@ == "identifier"@ {
            Ok(Self::Identifier(Identifier(node)))
        } else if node.kind@ == "list_values"@ {
            Ok(Self::ListValues(ListValues(node)))
        } else if node.kind@ == "number"@ {
            Ok(Self::Number(Number(node)))
        } else if node.kind@ == "paren"@ {
            Ok(Self::Paren(Paren(node)))
        } else if node.kind@ == "postfix"@ {
            Ok(Self::Postfix(Postfix(node)))
        } else if node.kind@ == "qualified_name"@ {
            Ok(Self::QualifiedName(QualifiedName(node)))
        } else if node.kind@ == "string"@ {
            Ok(Self::String(String(node)))
        } else if node.kind@ == "unary"@ {
            Ok(Self::Unary(Unary(node)))
        } else if node.kind@ == "!="@ {
            Ok(Self::Not_Eq_(symbols::Not_Eq_(node)))
        } else if node.kind@ == "!?"@ {
            Ok(Self::Not_Question_(symbols::Not_Question_(node)))
        } else if node.kind@ == "%"@ {
            Ok(Self::Mod_(symbols::Mod_(node)))
        } else if node.kind@ == "&&"@ {
            Ok(Self::And_And_(symbols::And_And_(node)))
        } else if node.kind@ == "*"@ {
            Ok(Self::Mul_(symbols::Mul_(node)))
        } else if node.kind@ == "+"@ {
            Ok(Self::Add_(symbols::Add_(node)))
        } else if node.kind@ == "-"@ {
            Ok(Self::Sub_(symbols::Sub_(node)))
        } else if node.kind@ == "/"@ {
            Ok(Self::Div_(symbols::Div_(node)))
        } else if node.kind@ == "<"@ {
            Ok(Self::Lt_(symbols::Lt_(node)))
        } else if node.kind@ == "<="@ {
            Ok(Self::Lt_Eq_(symbols::Lt_Eq_(node)))
        } else if node.kind@ == "=="@ {
            Ok(Self::Eq_Eq_(symbols::Eq_Eq_(node)))
        } else if node.kind@ == ">"@ {
            Ok(Self::Gt_(symbols::Gt_(node)))
        } else if node.kind@ == ">="@ {
            Ok(Self::Gt_Eq_(symbols::Gt_Eq_(node)))
        } else if node.kind@ == "?"@ {
            Ok(Self::Question_(symbols::Question_(node)))
        } else if node.kind@ == "^"@ {
            Ok(Self::BitXor_(symbols::BitXor_(node)))
        } else if node.kind@ == "and"@ {
            Ok(Self::And(unnamed::And(node)))
        } else if node.kind@ == "has"@ {
            Ok(Self::Has(unnamed::Has(node)))
        } else if node.kind@ == "hasnt"@ {
            Ok(Self::Hasnt(unnamed::Hasnt(node)))
        } else if node.kind@ == "mod"@ {
            Ok(Self::Mod(unnamed::Mod(node)))
        } else if node.kind@ == "or"@ {
            Ok(Self::Or(unnamed::Or(node)))
        } else if node.kind@ == "||"@ {
            Ok(Self::Or_Or_(symbols::Or_Or_(node)))
        } else {
            Err(IncorrectKind { node, kind: Self::KIND })
        }
    }
}

/// one of `{!= | !? | % | && | * | + | - | / | < | <= | == | > | >= | ? | ^ | and | has | hasnt | mod | or | ||}`:
/// - [symbols::Not_Eq_]
/// - [symbols::Not_Question_]
/// - [symbols::Mod_]
/// - [symbols::And_And_]
/// - [symbols::Mul_]
/// - [symbols::Add_]
/// - [symbols::Sub_]
/// - [symbols::Div_]
/// - [symbols::Lt_]
/// - [symbols::Lt_Eq_]
/// - [symbols::Eq_Eq_]
/// - [symbols::Gt_]
/// - [symbols::Gt_Eq_]
/// - [symbols::Question_]
/// - [symbols::BitXor_]
/// - [unnamed::And]
/// - [unnamed::Has]
/// - [unnamed::Hasnt]
/// - [unnamed::Mod]
/// - [unnamed::Or]
/// - [symbols::Or_Or_]
#[derive(Debug, Clone, Copy, PartialEq, Eq, Hash)]
#[allow(non_camel_case_types)]
pub enum Not_Eq__Not_Question__Mod__And_And__Mul__Add__Sub__Div__Lt__Lt_Eq__Eq_Eq__Gt__Gt_Eq__Question__BitXor__And_Has_Hasnt_Mod_Or_Or_Or_<'tree> {
    Not_Eq_(symbols::Not_Eq_<'tree>),
    Not_Question_(symbols::Not_Question_<'tree>),
    Mod_(symbols::Mod_<'tree>),
    And_And_(symbols::And_And_<'tree>),
    Mul_(symbols::Mul_<'tree>),
    Add_(symbols::Add_<'tree>),
    Sub_(symbols::Sub_<'tree>),
    Div_(symbols::Div_<'tree>),
    Lt_(symbols::Lt_<'tree>),
    Lt_Eq_(symbols::Lt_Eq_<'tree>),
    Eq_Eq_(symbols::Eq_Eq_<'tree>),
    Gt_(symbols::Gt_<'tree>),
    Gt_Eq_(symbols::Gt_Eq_<'tree>),
    Question_(symbols::Question_<'tree>),
    BitXor_(symbols::BitXor_<'tree>),
    And(unnamed::And<'tree>),
    Has(unnamed::Has<'tree>),
    Hasnt(unnamed::Hasnt<'tree>),
    Mod(unnamed::Mod<'tree>),
    Or(unnamed::Or<'tree>),
    Or_Or_(symbols::Or_Or_<'tree>),
}

impl<'tree> Not_Eq__Not_Question__Mod__And_And__Mul__Add__Sub__Div__Lt__Lt_Eq__Eq_Eq__Gt__Gt_Eq__Question__BitXor__And_Has_Hasnt_Mod_Or_Or_Or_<'tree> {
    /// The kinds of the nodes of this type.
    pub const KIND: &'static str = "{!= | !? | % | && | * | + | - | / | < | <= | == | > | >= | ? | ^ | and | has | hasnt | mod | or | ||}";

    /// Returns the node if it is of kind `!=` ([symbols::Not_Eq_]), otherwise returns None
    pub fn not_eq_(self) -> (r: Option<symbols::Not_Eq_<'tree>>)
        ensures
            match self {
                Self::Not_Eq_(x) => r == Some(x),
                _ => r is None,
            },
    {
        match self {
            Self::Not_Eq_(x) => Some(x),
            _ => None,
        }
    }

    /// Returns the node if it is of kind `!?` ([symbols::Not_Question_]), otherwise returns None
    pub fn not_question_(self) -> (r: Option<symbols::Not_Question_<'tree>>)
        ensures
            match self {
                Self::Not_Question_(x) => r == Some(x),
                _ => r is None,
            },
    {
        match self {
            Self::Not_Question_(x) => Some(x),
            _ => None,
        }
    }

    /// Returns the node if it is of kind `%` ([symbols::Mod_]), otherwise returns None
    pub fn mod_(self) -> (r: Option<symbols::Mod_<'tree>>)
        ensures
            match self {
                Self::Mod_(x) => r == Some(x),
                _ => r is None,
            },
    {
        match self {
            Self::Mod_(x) => Some(x),
            _ => None,
        }
    }

    /// Returns the node if it is of kind `&&` ([symbols::And_And_]), otherwise returns None
    pub fn and_and_(self) -> (r: Option<symbols::And_And_<'tree>>)
        ensures
            match self {
                Self::And_And_(x) => r == Some(x),
                _ => r is None,
            },
    {
        match self {
            Self::And_And_(x) => Some(x),
            _ => None,
        }
    }

    /// Returns the node if it is of kind `*` ([symbols::Mul_]), otherwise returns None
    pub fn mul_(self) -> (r: Option<symbols::Mul_<'tree>>)
        ensures
            match self {
                Self::Mul_(x) => r == Some(x),
                _ => r is None,
            },
    {
        match self {
            Self::Mul_(x) => Some(x),
            _ => None,
        }
    }

    /// Returns the node if it is of kind `+` ([symbols::Add_]), otherwise returns None
    pub fn add_(self) -> (r: Option<symbols::Add_<'tree>>)
        ensures
            match self {
                Self::Add_(x) => r == Some(x),
                _ => r is None,
            },
    {
        match self {
            Self::Add_(x) => Some(x),
            _ => None,
        }
    }

    /// Returns the node if it is of kind `-` ([symbols::Sub_]), otherwise returns None
    pub fn sub_(self) -> (r: Option<symbols::Sub_<'tree>>)
        ensures
            match self {
                Self::Sub_(x) => r == Some(x),
                _ => r is None,
            },
    {
        match self {
            Self::Sub_(x) => Some(x),
            _ => None,
        }
    }

    /// Returns the node if it is of kind `/` ([symbols::Div_]), otherwise returns None
    pub fn div_(self) -> (r: Option<symbols::Div_<'tree>>)
        ensures
            match self {
                Self::Div_(x) => r == Some(x),
                _ => r is None,
            },
    {
        match self {
            Self::Div_(x) => Some(x),
            _ => None,
        }
    }

    /// Returns the node if it is of kind `<` ([symbols::Lt_]), otherwise returns None
    pub fn lt_(self) -> (r: Option<symbols::Lt_<'tree>>)
        ensures
            match self {
                Self::Lt_(x) => r == Some(x),
                _ => r is None,
            },
    {
        match self {
            Self::Lt_(x) => Some(x),
            _ => None,
        }
    }

    /// Returns the node if it is of kind `<=` ([symbols::Lt_Eq_]), otherwise returns None
    pub fn lt_eq_(self) -> (r: Option<symbols::Lt_Eq_<'tree>>)
        ensures
            match self {
                Self::Lt_Eq_(x) => r == Some(x),
                _ => r is None,
            },
    {
        match self {
            Self::Lt_Eq_(x) => Some(x),
            _ => None,
        }
    }

    /// Returns the node if it is of kind `==` ([symbols::Eq_Eq_]), otherwise returns None
    pub fn eq_eq_(self) -> (r: Option<symbols::Eq_Eq_<'tree>>)
        ensures
            match self {
                Self::Eq_Eq_(x) => r == Some(x),
                _ => r is None,
            },
    {
        match self {
            Self::Eq_Eq_(x) => Some(x),
            _ => None,
        }
    }

    /// Returns the node if it is of kind `>` ([symbols::Gt_]), otherwise returns None
    pub fn gt_(self) -> (r: Option<symbols::Gt_<'tree>>)
        ensures
            match self {
                Self::Gt_(x) => r == Some(x),
                _ => r is None,
            },
    {
        match self {
            Self::Gt_(x) => Some(x),
            _ => None,
        }
    }

    /// Returns the node if it is of kind `>=` ([symbols::Gt_Eq_]), otherwise returns None
    pub fn gt_eq_(self) -> (r: Option<symbols::Gt_Eq_<'tree>>)
        ensures
            match self {
                Self::Gt_Eq_(x) => r == Some(x),
                _ => r is None,
            },
    {
        match self {
            Self::Gt_Eq_(x) => Some(x),
            _ => None,
        }
    }

    /// Returns the node if it is of kind `?` ([symbols::Question_]), otherwise returns None
    pub fn question_(self) -> (r: Option<symbols::Question_<'tree>>)
        ensures
            match self {
                Self::Question_(x) => r == Some(x),
                _ => r is None,
            },
    {
        match self {
            Self::Question_(x) => Some(x),
            _ => None,
        }
    }

    /// Returns the node if it is of kind `^` ([symbols::BitXor_]), otherwise returns None
    pub fn bit_xor_(self) -> (r: Option<symbols::BitXor_<'tree>>)
        ensures
            match self {
                Self::BitXor_(x) => r == Some(x),
                _ => r is None,
            },
    {
        match self {
            Self::BitXor_(x) => Some(x),
            _ => None,
        }
    }

    /// Returns the node if it is of kind `and` ([unnamed::And]), otherwise returns None
    pub fn and(self) -> (r: Option<unnamed::And<'tree>>)
        ensures
            match self {
                Self::And(x) => r == Some(x),
                _ => r is None,
            },
    {
        match self {
            Self::And(x) => Some(x),
            _ => None,
        }
    }

    /// Returns the node if it is of kind `has` ([unnamed::Has]), otherwise returns None
    pub fn has(self) -> (r: Option<unnamed::Has<'tree>>)
        ensures
            match self {
                Self::Has(x) => r == Some(x),
                _ => r is None,
            },
    {
        match self {
            Self::Has(x) => Some(x),
            _ => None,
        }
    }

    /// Returns the node if it is of kind `hasnt` ([unnamed::Hasnt]), otherwise returns None
    pub fn hasnt(self) -> (r: Option<unnamed::Hasnt<'tree>>)
        ensures
            match self {
                Self::Hasnt(x) => r == Some(x),
                _ => r is None,
            },
    {
        match self {
            Self::Hasnt(x) => Some(x),
            _ => None,
        }
    }

    /// Returns the node if it is of kind `mod` ([unnamed::Mod]), otherwise returns None
    pub fn mod_node(self) -> (r: Option<unnamed::Mod<'tree>>)
        ensures
            match self {
                Self::Mod(x) => r == Some(x),
                _ => r is None,
            },
    {
        match self {
            Self::Mod(x) => Some(x),
            _ => None,
        }
    }

    /// Returns the node if it is of kind `or` ([unnamed::Or]), otherwise returns None
    pub fn or(self) -> (r: Option<unnamed::Or<'tree>>)
        ensures
            match self {
                Self::Or(x) => r == Some(x),
                _ => r is None,
            },
    {
        match self {
            Self::Or(x) => Some(x),
            _ => None,
        }
    }

    /// Returns the node if it is of kind `||` ([symbols::Or_Or_]), otherwise returns None
    pub fn or_or_(self) -> (r: Option<symbols::Or_Or_<'tree>>)
        ensures
            match self {
                Self::Or_Or_(x) => r == Some(x),
                _ => r is None,
            },
    {
        match self {
            Self::Or_Or_(x) => Some(x),
            _ => None,
        }
    }

    /// The underlying node, whichever the variant.
    pub open spec fn spec_node(self) -> &'tree SyntaxNode {
        match self {
            Self::Not_Eq_(x) => x.0,
            Self::Not_Question_(x) => x.0,
            Self::Mod_(x) => x.0,
            Self::And_And_(x) => x.0,
            Self::Mul_(x) => x.0,
            Self::Add_(x) => x.0,
            Self::Sub_(x) => x.0,
            Self::Div_(x) => x.0,
            Self::Lt_(x) => x.0,
            Self::Lt_Eq_(x) => x.0,
            Self::Eq_Eq_(x) => x.0,
            Self::Gt_(x) => x.0,
            Self::Gt_Eq_(x) => x.0,
            Self::Question_(x) => x.0,
            Self::BitXor_(x) => x.0,
            Self::And(x) => x.0,
            Self::Has(x) => x.0,
            Self::Hasnt(x) => x.0,
            Self::Mod(x) => x.0,
            Self::Or(x) => x.0,
            Self::Or_Or_(x) => x.0,
        }
    }

    /// The underlying node.
    pub fn node(&self) -> (r: &&'tree SyntaxNode)
        ensures
            *r == self.spec_node(),
    {
        match self {
            Self::Not_Eq_(x) => x.node(),
            Self::Not_Question_(x) => x.node(),
            Self::Mod_(x) => x.node(),
            Self::And_And_(x) => x.node(),
            Self::Mul_(x) => x.node(),
            Self::Add_(x) => x.node(),
            Self::Sub_(x) => x.node(),
            Self::Div_(x) => x.node(),
            Self::Lt_(x) => x.node(),
            Self::Lt_Eq_(x) => x.node(),
            Self::Eq_Eq_(x) => x.node(),
            Self::Gt_(x) => x.node(),
            Self::Gt_Eq_(x) => x.node(),
            Self::Question_(x) => x.node(),
            Self::BitXor_(x) => x.node(),
            Self::And(x) => x.node(),
            Self::Has(x) => x.node(),
            Self::Hasnt(x) => x.node(),
            Self::Mod(x) => x.node(),
            Self::Or(x) => x.node(),
            Self::Or_Or_(x) => x.node(),
        }
    }

    /// The underlying node, to replace in place.
    pub fn node_mut(&mut self) -> (r: &mut &'tree SyntaxNode)
        ensures
            *r == old(self).spec_node(),
            final(self).spec_node() == *final(r),
            (*old(self)) is Not_Eq_ ==> (*final(self)) is Not_Eq_,
            (*old(self)) is Not_Question_ ==> (*final(self)) is Not_Question_,
            (*old(self)) is Mod_ ==> (*final(self)) is Mod_,
            (*old(self)) is And_And_ ==> (*final(self)) is And_And_,
            (*old(self)) is Mul_ ==> (*final(self)) is Mul_,
            (*old(self)) is Add_ ==> (*final(self)) is Add_,
            (*old(self)) is Sub_ ==> (*final(self)) is Sub_,
            (*old(self)) is Div_ ==> (*final(self)) is Div_,
            (*old(self)) is Lt_ ==> (*final(self)) is Lt_,
            (*old(self)) is Lt_Eq_ ==> (*final(self)) is Lt_Eq_,
            (*old(self)) is Eq_Eq_ ==> (*final(self)) is Eq_Eq_,
            (*old(self)) is Gt_ ==> (*final(self)) is Gt_,
            (*old(self)) is Gt_Eq_ ==> (*final(self)) is Gt_Eq_,
            (*old(self)) is Question_ ==> (*final(self)) is Question_,
            (*old(self)) is BitXor_ ==> (*final(self)) is BitXor_,
            (*old(self)) is And ==> (*final(self)) is And,
            (*old(self)) is Has ==> (*final(self)) is Has,
            (*old(self)) is Hasnt ==> (*final(self)) is Hasnt,
            (*old(self)) is Mod ==> (*final(self)) is Mod,
            (*old(self)) is Or ==> (*final(self)) is Or,
            (*old(self)) is Or_Or_ ==> (*final(self)) is Or_Or_,
    {
        match self {
            Self::Not_Eq_(x) => x.node_mut(),
            Self::Not_Question_(x) => x.node_mut(),
            Self::Mod_(x) => x.node_mut(),
            Self::And_And_(x) => x.node_mut(),
            Self::Mul_(x) => x.node_mut(),
            Self::Add_(x) => x.node_mut(),
            Self::Sub_(x) => x.node_mut(),
            Self::Div_(x) => x.node_mut(),
            Self::Lt_(x) => x.node_mut(),
            Self::Lt_Eq_(x) => x.node_mut(),
            Self::Eq_Eq_(x) => x.node_mut(),
            Self::Gt_(x) => x.node_mut(),
            Self::Gt_Eq_(x) => x.node_mut(),
            Self::Question_(x) => x.node_mut(),
            Self::BitXor_(x) => x.node_mut(),
            Self::And(x) => x.node_mut(),
            Self::Has(x) => x.node_mut(),
            Self::Hasnt(x) => x.node_mut(),
            Self::Mod(x) => x.node_mut(),
            Self::Or(x) => x.node_mut(),
            Self::Or_Or_(x) => x.node_mut(),
        }
    }

    /// The underlying node, giving up the typed view.
    pub fn into_node(self) -> (r: &'tree SyntaxNode)
        ensures
            r == self.spec_node(),
    {
        match self {
            Self::Not_Eq_(x) => x.into_node(),
            Self::Not_Question_(x) => x.into_node(),
            Self::Mod_(x) => x.into_node(),
            Self::And_And_(x) => x.into_node(),
            Self::Mul_(x) => x.into_node(),
            Self::Add_(x) => x.into_node(),
            Self::Sub_(x) => x.into_node(),
            Self::Div_(x) => x.into_node(),
            Self::Lt_(x) => x.into_node(),
            Self::Lt_Eq_(x) => x.into_node(),
            Self::Eq_Eq_(x) => x.into_node(),
            Self::Gt_(x) => x.into_node(),
            Self::Gt_Eq_(x) => x.into_node(),
            Self::Question_(x) => x.into_node(),
            Self::BitXor_(x) => x.into_node(),
            Self::And(x) => x.into_node(),
            Self::Has(x) => x.into_node(),
            Self::Hasnt(x) => x.into_node(),
            Self::Mod(x) => x.into_node(),
            Self::Or(x) => x.into_node(),
            Self::Or_Or_(x) => x.into_node(),
        }
    }
}

impl<'tree> TryFrom<&'tree SyntaxNode> for Not_Eq__Not_Question__Mod__And_And__Mul__Add__Sub__Div__Lt__Lt_Eq__Eq_Eq__Gt__Gt_Eq__Question__BitXor__And_Has_Hasnt_Mod_Or_Or_Or_<'tree> {
    type Error = IncorrectKind<'tree>;

    /// Views `node` as the variant for its kind, if it has one of this type's kinds.
    fn try_from(node: &'tree SyntaxNode) -> (r: NodeResult<'tree, Self>)
        ensures
            r is Ok <==> (
                node.kind@ == "!="@
                || node.kind@ == "!?"@
                || node.kind@ == "%"@
                || node.kind@ == "&&"@
                || node.kind@ == "*"@
                || node.kind@ == "+"@
                || node.kind@ == "-"@
                || node.kind@ == "/"@
                || node.kind@ == "<"@
                || node.kind@ == "<="@
                || node.kind@ == "=="@
                || node.kind@ == ">"@
                || node.kind@ == ">="@
                || node.kind@ == "?"@
                || node.kind@ == "^"@
                || node.kind@ == "and"@
                || node.kind@ == "has"@
                || node.kind@ == "hasnt"@
                || node.kind@ == "mod"@
                || node.kind@ == "or"@
                || node.kind@ == "||"@
            ),
            r matches Ok(Self::Not_Eq_(x)) ==> node.kind@ == "!="@ && x == symbols::Not_Eq_(node),
            r matches Ok(Self::Not_Question_(x)) ==> node.kind@ == "!?"@ && x == symbols::Not_Question_(node),
            r matches Ok(Self::Mod_(x)) ==> node.kind@ == "%"@ && x == symbols::Mod_(node),
            r matches Ok(Self::And_And_(x)) ==> node.kind@ == "&&"@ && x == symbols::And_And_(node),
            r matches Ok(Self::Mul_(x)) ==> node.kind@ == "*"@ && x == symbols::Mul_(node),
            r matches Ok(Self::Add_(x)) ==> node.kind@ == "+"@ && x == symbols::Add_(node),
            r matches Ok(Self::Sub_(x)) ==> node.kind@ == "-"@ && x == symbols::Sub_(node),
            r matches Ok(Self::Div_(x)) ==> node.kind@ == "/"@ && x == symbols::Div_(node),
            r matches Ok(Self::Lt_(x)) ==> node.kind@ == "<"@ && x == symbols::Lt_(node),
            r matches Ok(Self::Lt_Eq_(x)) ==> node.kind@ == "<="@ && x == symbols::Lt_Eq_(node),
            r matches Ok(Self::Eq_Eq_(x)) ==> node.kind@ == "=="@ && x == symbols::Eq_Eq_(node),
            r matches Ok(Self::Gt_(x)) ==> node.kind@ == ">"@ && x == symbols::Gt_(node),
            r matches Ok(Self::Gt_Eq_(x)) ==> node.kind@ == ">="@ && x == symbols::Gt_Eq_(node),
            r matches Ok(Self::Question_(x)) ==> node.kind@ == "?"@ && x == symbols::Question_(node),
            r matches Ok(Self::BitXor_(x)) ==> node.kind@ == "^"@ && x == symbols::BitXor_(node),
            r matches Ok(Self::And(x)) ==> node.kind@ == "and"@ && x == unnamed::And(node),
            r matches Ok(Self::Has(x)) ==> node.kind@ == "has"@ && x == unnamed::Has(node),
            r matches Ok(Self::Hasnt(x)) ==> node.kind@ == "hasnt"@ && x == unnamed::Hasnt(node),
            r matches Ok(Self::Mod(x)) ==> node.kind@ == "mod"@ && x == unnamed::Mod(node),
            r matches Ok(Self::Or(x)) ==> node.kind@ == "or"@ && x == unnamed::Or(node),
            r matches Ok(Self::Or_Or_(x)) ==> node.kind@ == "||"@ && x == symbols::Or_Or_(node),
            r is Err ==> r == Err::<Self, IncorrectKind<'tree>>(IncorrectKind { node, kind: Self::KIND }),
    {
        if str_eq(node.kind, "!=") {
            Ok(Self::Not_Eq_(symbols::Not_Eq_::from_node_unchecked(node)))
        } else if str_eq(node.kind, "!?") {
            Ok(Self::Not_Question_(symbols::Not_Question_::from_node_unchecked(node)))
        } else if str_eq(node.kind, "%") {
            Ok(Self::Mod_(symbols::Mod_::from_node_unchecked(node)))
        } else if str_eq(node.kind, "&&") {
            Ok(Self::And_And_(symbols::And_And_::from_node_unchecked(node)))
        } else if str_eq(node.kind, "*") {
            Ok(Self::Mul_(symbols::Mul_::from_node_unchecked(node)))
        } else if str_eq(node.kind, "+") {
            Ok(Self::Add_(symbols::Add_::from_node_unchecked(node)))
        } else if str_eq(node.kind, "-") {
            Ok(Self::Sub_(symbols::Sub_::from_node_unchecked(node)))
        } else if str_eq(node.kind, "/") {
            Ok(Self::Div_(symbols::Div_::from_node_unchecked(node)))
        } else if str_eq(node.kind, "<") {
            Ok(Self::Lt_(symbols::Lt_::from_node_unchecked(node)))
        } else if str_eq(node.kind, "<=") {
            Ok(Self::Lt_Eq_(symbols::Lt_Eq_::from_node_unchecked(node)))
        } else if str_eq(node.kind, "==") {
            Ok(Self::Eq_Eq_(symbols::Eq_Eq_::from_node_unchecked(node)))
        } else if str_eq(node.kind, ">") {
            Ok(Self::Gt_(symbols::Gt_::from_node_unchecked(node)))
        } else if str_eq(node.kind, ">=") {
            Ok(Self::Gt_Eq_(symbols::Gt_Eq_::from_node_unchecked(node)))
        } else if str_eq(node.kind, "?") {
            Ok(Self::Question_(symbols::Question_::from_node_unchecked(node)))
        } else if str_eq(node.kind, "^") {
            Ok(Self::BitXor_(symbols::BitXor_::from_node_unchecked(node)))
        } else if str_eq(node.kind, "and") {
            Ok(Self::And(unnamed::And::from_node_unchecked(node)))
        } else if str_eq(node.kind, "has") {
            Ok(Self::Has(unnamed::Has::from_node_unchecked(node)))
        } else if str_eq(node.kind, "hasnt") {
            Ok(Self::Hasnt(unnamed::Hasnt::from_node_unchecked(node)))
        } else if str_eq(node.kind, "mod") {
            Ok(Self::Mod(unnamed::Mod::from_node_unchecked(node)))
        } else if str_eq(node.kind, "or") {
            Ok(Self::Or(unnamed::Or::from_node_unchecked(node)))
        } else if str_eq(node.kind, "||") {
            Ok(Self::Or_Or_(symbols::Or_Or_::from_node_unchecked(node)))
        } else {
            Err(IncorrectKind { node, kind: Self::KIND })
        }
    }
}

impl<'tree> TryFromSpecImpl<&'tree SyntaxNode> for Not_Eq__Not_Question__Mod__And_And__Mul__Add__Sub__Div__Lt__Lt_Eq__Eq_Eq__Gt__Gt_Eq__Question__BitXor__And_Has_Hasnt_Mod_Or_Or_Or_<'tree> {
    open spec fn obeys_try_from_spec() -> bool {
        true
    }

    open spec fn try_from_spec(node: &'tree SyntaxNode) -> NodeResult<'tree, Self> {
        if node.kind@ == "!="@ {
            Ok(Self::Not_Eq_(symbols::Not_Eq_(node)))
        } else if node.kind@ == "!?"@ {
            Ok(Self::Not_Question_(symbols::Not_Question_(node)))
        } else if node.kind@ == "%"@ {
            Ok(Self::Mod_(symbols::Mod_(node)))
        } else if node.kind@ == "&&"@ {
            Ok(Self::And_And_(symbols::And_And_(node)))
        } else if node.kind@ == "*"@ {
            Ok(Self::Mul_(symbols::Mul_(node)))
        } else if node.kind@ == "+"@ {
            Ok(Self::Add_(symbols::Add_(node)))
        } else if node.kind@ == "-"@ {
            Ok(Self::Sub_(symbols::Sub_(node)))
        } else if node.kind@ == "/"@ {
            Ok(Self::Div_(symbols::Div_(node)))
        } else if node.kind@ == "<"@ {
            Ok(Self::Lt_(symbols::Lt_(node)))
        } else if node.kind@ == "<="@ {
            Ok(Self::Lt_Eq_(symbols::Lt_Eq_(node)))
        } else if node.kind@ == "=="@ {
            Ok(Self::Eq_Eq_(symbols::Eq_Eq_(node)))
        } else if node.kind@ == ">"@ {
            Ok(Self::Gt_(symbols::Gt_(node)))
        } else if node.kind@ == ">="@ {
            Ok(Self::Gt_Eq_(symbols::Gt_Eq_(node)))
        } else if node.kind@ == "?"@ {
            Ok(Self::Question_(symbols::Question_(node)))
        } else if node.kind@ == "^"@ {
            Ok(Self::BitXor_(symbols::BitXor_(node)))
        } else if node.kind@ == "and"@ {
            Ok(Self::And(unnamed::And(node)))
        } else if node.kind@ == "has"@ {
            Ok(Self::Has(unnamed::Has(node)))
        } else if node.kind@ == "hasnt"@ {
            Ok(Self::Hasnt(unnamed::Hasnt(node)))
        } else if node.kind@ == "mod"@ {
            Ok(Self::Mod(unnamed::Mod(node)))
        } else if node.kind@ == "or"@ {
            Ok(Self::Or(unnamed::Or(node)))
        } else if node.kind@ == "||"@ {
            Ok(Self::Or_Or_(symbols::Or_Or_(node)))
        } else {
            Err(IncorrectKind { node, kind: Self::KIND })
        }
    }
}

/// one of `{identifier | qualified_name}`:
/// - [Identifier]
/// - [QualifiedName]
#[derive(Debug, Clone, Copy, PartialEq, Eq, Hash)]
#[allow(non_camel_case_types)]
pub enum Identifier_QualifiedName<'tree> {
    Identifier(Identifier<'tree>),
    QualifiedName(QualifiedName<'tree>),
}

impl<'tree> Identifier_QualifiedName<'tree> {
    /// The kinds of the nodes of this type.
    pub const KIND: &'static str = "{identifier | qualified_name}";

    /// Returns the node if it is of kind `identifier` ([Identifier]), otherwise returns None
    pub fn identifier(self) -> (r: Option<Identifier<'tree>>)
        ensures
            match self {
                Self::Identifier(x) => r == Some(x),
                _ => r is None,
            },
    {
        match self {
            Self::Identifier(x) => Some(x),
            _ => None,
        }
    }

    /// Returns the node if it is of kind `qualified_name` ([QualifiedName]), otherwise returns None
    pub fn qualified_name(self) -> (r: Option<QualifiedName<'tree>>)
        ensures
            match self {
                Self::QualifiedName(x) => r == Some(x),
                _ => r is None,
            },
    {
        match self {
            Self::QualifiedName(x) => Some(x),
            _ => None,
        }
    }

    /// The underlying node, whichever the variant.
    pub open spec fn spec_node(self) -> &'tree SyntaxNode {
        match self {
            Self::Identifier(x) => x.0,
            Self::QualifiedName(x) => x.0,
        }
    }

    /// The underlying node.
    pub fn node(&self) -> (r: &&'tree SyntaxNode)
        ensures
            *r == self.spec_node(),
    {
        match self {
            Self::Identifier(x) => x.node(),
            Self::QualifiedName(x) => x.node(),
        }
    }

    /// The underlying node, to replace in place.
    pub fn node_mut(&mut self) -> (r: &mut &'tree SyntaxNode)
        ensures
            *r == old(self).spec_node(),
            final(self).spec_node() == *final(r),
            (*old(self)) is Identifier ==> (*final(self)) is Identifier,
            (*old(self)) is QualifiedName ==> (*final(self)) is QualifiedName,
    {
        match self {
            Self::Identifier(x) => x.node_mut(),
            Self::QualifiedName(x) => x.node_mut(),
        }
    }

    /// The underlying node, giving up the typed view.
    pub fn into_node(self) -> (r: &'tree SyntaxNode)
        ensures
            r == self.spec_node(),
    {
        match self {
            Self::Identifier(x) => x.into_node(),
            Self::QualifiedName(x) => x.into_node(),
        }
    }
}

impl<'tree> TryFrom<&'tree SyntaxNode> for Identifier_QualifiedName<'tree> {
    type Error = IncorrectKind<'tree>;

    /// Views `node` as the variant for its kind, if it has one of this type's kinds.
    fn try_from(node: &'tree SyntaxNode) -> (r: NodeResult<'tree, Self>)
        ensures
            r is Ok <==> (
                node.kind@ == "identifier"@
                || node.kind@ == "qualified_name"@
            ),
            r matches Ok(Self::Identifier(x)) ==> node.kind@ == "identifier"@ && x == Identifier(node),
            r matches Ok(Self::QualifiedName(x)) ==> node.kind@ == "qualified_name"@ && x == QualifiedName(node),
            r is Err ==> r == Err::<Self, IncorrectKind<'tree>>(IncorrectKind { node, kind: Self::KIND }),
    {
        if str_eq(node.kind, "identifier") {
            Ok(Self::Identifier(Identifier::from_node_unchecked(node)))
        } else if str_eq(node.kind, "qualified_name") {
            Ok(Self::QualifiedName(QualifiedName::from_node_unchecked(node)))
        } else {
            Err(IncorrectKind { node, kind: Self::KIND })
        }
    }
}

impl<'tree> TryFromSpecImpl<&'tree SyntaxNode> for Identifier_QualifiedName<'tree> {
    open spec fn obeys_try_from_spec() -> bool {
        true
    }

    open spec fn try_from_spec(node: &'tree SyntaxNode) -> NodeResult<'tree, Self> {
        if node.kind@ == "identifier"@ {
            Ok(Self::Identifier(Identifier(node)))
        } else if node.kind@ == "qualified_name"@ {
            Ok(Self::QualifiedName(QualifiedName(node)))
        } else {
            Err(IncorrectKind { node, kind: Self::KIND })
        }
    }
}

/// one of `{binary | boolean | call | divert | identifier | list_values | number | paren | postfix | qualified_name | string | unary | { | }}`:
/// - [Binary]
/// - [Boolean]
/// - [Call]
/// - [Divert]
/// - [Identifier]
/// - [ListValues]
/// - [Number]
/// - [Paren]
/// - [Postfix]
/// - [QualifiedName]
/// - [String]
/// - [Unary]
/// - [symbols::LBrace_]
/// - [symbols::RBrace_]
#[derive(Debug, Clone, Copy, PartialEq, Eq, Hash)]
#[allow(non_camel_case_types)]
pub enum Binary_Boolean_Call_Divert_Identifier_ListValues_Number_Paren_Postfix_QualifiedName_String_Unary_LBrace__RBrace_<'tree> {
    Binary(Binary<'tree>),
    Boolean(Boolean<'tree>),
    Call(Call<'tree>),
    Divert(Divert<'tree>),
    Identifier(Identifier<'tree>),
    ListValues(ListValues<'tree>),
    Number(Number<'tree>),
    Paren(Paren<'tree>),
    Postfix(Postfix<'tree>),
    QualifiedName(QualifiedName<'tree>),
    String(String<'tree>),
    Unary(Unary<'tree>),
    LBrace_(symbols::LBrace_<'tree>),
    RBrace_(symbols::RBrace_<'tree>),
}

impl<'tree> Binary_Boolean_Call_Divert_Identifier_ListValues_Number_Paren_Postfix_QualifiedName_String_Unary_LBrace__RBrace_<'tree> {
    /// The kinds of the nodes of this type.
    pub const KIND: &'static str = "{binary | boolean | call | divert | identifier | list_values | number | paren | postfix | qualified_name | string | unary | { | }}";

    /// Returns the node if it is of kind `binary` ([Binary]), otherwise returns None
    pub fn binary(self) -> (r: Option<Binary<'tree>>)
        ensures
            match self {
                Self::Binary(x) => r == Some(x),
                _ => r is None,
            },
    {
        match self {
            Self::Binary(x) => Some(x),
            _ => None,
        }
    }

    /// Returns the node if it is of kind `boolean` ([Boolean]), otherwise returns None
    pub fn boolean(self) -> (r: Option<Boolean<'tree>>)
        ensures
            match self {
                Self::Boolean(x) => r == Some(x),
                _ => r is None,
            },
    {
        match self {
            Self::Boolean(x) => Some(x),
            _ => None,
        }
    }

    /// Returns the node if it is of kind `call` ([Call]), otherwise returns None
    pub fn call(self) -> (r: Option<Call<'tree>>)
        ensures
            match self {
                Self::Call(x) => r == Some(x),
                _ => r is None,
            },
    {
        match self {
            Self::Call(x) => Some(x),
            _ => None,
        }
    }

    /// Returns the node if it is of kind `divert` ([Divert]), otherwise returns None
    pub fn divert(self) -> (r: Option<Divert<'tree>>)
        ensures
            match self {
                Self::Divert(x) => r == Some(x),
                _ => r is None,
            },
    {
        match self {
            Self::Divert(x) => Some(x),
            _ => None,
        }
    }

    /// Returns the node if it is of kind `identifier` ([Identifier]), otherwise returns None
    pub fn identifier(self) -> (r: Option<Identifier<'tree>>)
        ensures
            match self {
                Self::Identifier(x) => r == Some(x),
                _ => r is None,
            },
    {
        match self {
            Self::Identifier(x) => Some(x),
            _ => None,
        }
    }

    /// Returns the node if it is of kind `list_values` ([ListValues]), otherwise returns None
    pub fn list_values(self) -> (r: Option<ListValues<'tree>>)
        ensures
            match self {
                Self::ListValues(x) => r == Some(x),
                _ => r is None,
            },
    {
        match self {
            Self::ListValues(x) => Some(x),
            _ => None,
        }
    }

    /// Returns the node if it is of kind `number` ([Number]), otherwise returns None
    pub fn number(self) -> (r: Option<Number<'tree>>)
        ensures
            match self {
                Self::Number(x) => r == Some(x),
                _ => r is None,
            },
    {
        match self {
            Self::Number(x) => Some(x),
            _ => None,
        }
    }

    /// Returns the node if it is of kind `paren` ([Paren]), otherwise returns None
    pub fn paren(self) -> (r: Option<Paren<'tree>>)
        ensures
            match self {
                Self::Paren(x) => r == Some(x),
                _ => r is None,
            },
    {
        match self {
            Self::Paren(x) => Some(x),
            _ => None,
        }
    }

    /// Returns the node if it is of kind `postfix` ([Postfix]), otherwise returns None
    pub fn postfix(self) -> (r: Option<Postfix<'tree>>)
        ensures
            match self {
                Self::Postfix(x) => r == Some(x),
                _ => r is None,
            },
    {
        match self {
            Self::Postfix(x) => Some(x),
            _ => None,
        }
    }

    /// Returns the node if it is of kind `qualified_name` ([QualifiedName]), otherwise returns None
    pub fn qualified_name(self) -> (r: Option<QualifiedName<'tree>>)
        ensures
            match self {
                Self::QualifiedName(x) => r == Some(x),
                _ => r is None,
            },
    {
        match self {
            Self::QualifiedName(x) => Some(x),
            _ => None,
        }
    }

    /// Returns the node if it is of kind `string` ([String]), otherwise returns None
    pub fn string(self) -> (r: Option<String<'tree>>)
        ensures
            match self {
                Self::String(x) => r == Some(x),
                _ => r is None,
            },
    {
        match self {
            Self::String(x) => Some(x),
            _ => None,
        }
    }

    /// Returns the node if it is of kind `unary` ([Unary]), otherwise returns None
    pub fn unary(self) -> (r: Option<Unary<'tree>>)
        ensures
            match self {
                Self::Unary(x) => r == Some(x),
                _ => r is None,
            },
    {
        match self {
            Self::Unary(x) => Some(x),
            _ => None,
        }
    }

    /// Returns the node if it is of kind `{` ([symbols::LBrace_]), otherwise returns None
    pub fn l_brace_(self) -> (r: Option<symbols::LBrace_<'tree>>)
        ensures
            match self {
                Self::LBrace_(x) => r == Some(x),
                _ => r is None,
            },
    {
        match self {
            Self::LBrace_(x) => Some(x),
            _ => None,
        }
    }

    /// Returns the node if it is of kind `}` ([symbols::RBrace_]), otherwise returns None
    pub fn r_brace_(self) -> (r: Option<symbols::RBrace_<'tree>>)
        ensures
            match self {
                Self::RBrace_(x) => r == Some(x),
                _ => r is None,
            },
    {
        match self {
            Self::RBrace_(x) => Some(x),
            _ => None,
        }
    }

    /// The underlying node, whichever the variant.
    pub open spec fn spec_node(self) -> &'tree SyntaxNode {
        match self {
            Self::Binary(x) => x.0,
            Self::Boolean(x) => x.0,
            Self::Call(x) => x.0,
            Self::Divert(x) => x.0,
            Self::Identifier(x) => x.0,
            Self::ListValues(x) => x.0,
            Self::Number(x) => x.0,
            Self::Paren(x) => x.0,
            Self::Postfix(x) => x.0,
            Self::QualifiedName(x) => x.0,
            Self::String(x) => x.0,
            Self::Unary(x) => x.0,
            Self::LBrace_(x) => x.0,
            Self::RBrace_(x) => x.0,
        }
    }

    /// The underlying node.
    pub fn node(&self) -> (r: &&'tree SyntaxNode)
        ensures
            *r == self.spec_node(),
    {
        match self {
            Self::Binary(x) => x.node(),
            Self::Boolean(x) => x.node(),
            Self::Call(x) => x.node(),
            Self::Divert(x) => x.node(),
            Self::Identifier(x) => x.node(),
            Self::ListValues(x) => x.node(),
            Self::Number(x) => x.node(),
            Self::Paren(x) => x.node(),
            Self::Postfix(x) => x.node(),
            Self::QualifiedName(x) => x.node(),
            Self::String(x) => x.node(),
            Self::Unary(x) => x.node(),
            Self::LBrace_(x) => x.node(),
            Self::RBrace_(x) => x.node(),
        }
    }

    /// The underlying node, to replace in place.
    pub fn node_mut(&mut self) -> (r: &mut &'tree SyntaxNode)
        ensures
            *r == old(self).spec_node(),
            final(self).spec_node() == *final(r),
            (*old(self)) is Binary ==> (*final(self)) is Binary,
            (*old(self)) is Boolean ==> (*final(self)) is Boolean,
            (*old(self)) is Call ==> (*final(self)) is Call,
            (*old(self)) is Divert ==> (*final(self)) is Divert,
            (*old(self)) is Identifier ==> (*final(self)) is Identifier,
            (*old(self)) is ListValues ==> (*final(self)) is ListValues,
            (*old(self)) is Number ==> (*final(self)) is Number,
            (*old(self)) is Paren ==> (*final(self)) is Paren,
            (*old(self)) is Postfix ==> (*final(self)) is Postfix,
            (*old(self)) is QualifiedName ==> (*final(self)) is QualifiedName,
            (*old(self)) is String ==> (*final(self)) is String,
            (*old(self)) is Unary ==> (*final(self)) is Unary,
            (*old(self)) is LBrace_ ==> (*final(self)) is LBrace_,
            (*old(self)) is RBrace_ ==> (*final(self)) is RBrace_,
    {
        match self {
            Self::Binary(x) => x.node_mut(),
            Self::Boolean(x) => x.node_mut(),
            Self::Call(x) => x.node_mut(),
            Self::Divert(x) => x.node_mut(),
            Self::Identifier(x) => x.node_mut(),
            Self::ListValues(x) => x.node_mut(),
            Self::Number(x) => x.node_mut(),
            Self::Paren(x) => x.node_mut(),
            Self::Postfix(x) => x.node_mut(),
            Self::QualifiedName(x) => x.node_mut(),
            Self::String(x) => x.node_mut(),
            Self::Unary(x) => x.node_mut(),
            Self::LBrace_(x) => x.node_mut(),
            Self::RBrace_(x) => x.node_mut(),
        }
    }

    /// The underlying node, giving up the typed view.
    pub fn into_node(self) -> (r: &'tree SyntaxNode)
        ensures
            r == self.spec_node(),
    {
        match self {
            Self::Binary(x) => x.into_node(),
            Self::Boolean(x) => x.into_node(),
            Self::Call(x) => x.into_node(),
            Self::Divert(x) => x.into_node(),
            Self::Identifier(x) => x.into_node(),
            Self::ListValues(x) => x.into_node(),
            Self::Number(x) => x.into_node(),
            Self::Paren(x) => x.into_node(),
            Self::Postfix(x) => x.into_node(),
            Self::QualifiedName(x) => x.into_node(),
            Self::String(x) => x.into_node(),
            Self::Unary(x) => x.into_node(),
            Self::LBrace_(x) => x.into_node(),
            Self::RBrace_(x) => x.into_node(),
        }
    }
}

impl<'tree> TryFrom<&'tree SyntaxNode> for Binary_Boolean_Call_Divert_Identifier_ListValues_Number_Paren_Postfix_QualifiedName_String_Unary_LBrace__RBrace_<'tree> {
    type Error = IncorrectKind<'tree>;

    /// Views `node` as the variant for its kind, if it has one of this type's kinds.
    fn try_from(node: &'tree SyntaxNode) -> (r: NodeResult<'tree, Self>)
        ensures
            r is Ok <==> (
                node.kind@ == "binary"@
                || node.kind@ == "boolean"@
                || node.kind@ == "call"@
                || node.kind@ == "divert"@
                || node.kind@ == "identifier"@
                || node.kind@ == "list_values"@
                || node.kind@ == "number"@
                || node.kind@ == "paren"@
                || node.kind@ == "postfix"@
                || node.kind@ == "qualified_name"@
                || node.kind@ == "string"@
                || node.kind@ == "unary"@
                || node.kind@ == "{"@
                || node.kind@ == "}"@
            ),
            r matches Ok(Self::Binary(x)) ==> node.kind@ == "binary"@ && x == Binary(node),
            r matches Ok(Self::Boolean(x)) ==> node.kind@ == "boolean"@ && x == Boolean(node),
            r matches Ok(Self::Call(x)) ==> node.kind@ == "call"@ && x == Call(node),
            r matches Ok(Self::Divert(x)) ==> node.kind@ == "divert"@ && x == Divert(node),
            r matches Ok(Self::Identifier(x)) ==> node.kind@ == "identifier"@ && x == Identifier(node),
            r matches Ok(Self::ListValues(x)) ==> node.kind@ == "list_values"@ && x == ListValues(node),
            r matches Ok(Self::Number(x)) ==> node.kind@ == "number"@ && x == Number(node),
            r matches Ok(Self::Paren(x)) ==> node.kind@ == "paren"@ && x == Paren(node),
            r matches Ok(Self::Postfix(x)) ==> node.kind@ == "postfix"@ && x == Postfix(node),
            r matches Ok(Self::QualifiedName(x)) ==> node.kind@ == "qualified_name"@ && x == QualifiedName(node),
            r matches Ok(Self::String(x)) ==> node.kind@ == "string"@ && x == String(node),
            r matches Ok(Self::Unary(x)) ==> node.kind@ == "unary"@ && x == Unary(node),
            r matches Ok(Self::LBrace_(x)) ==> node.kind@ == "{"@ && x == symbols::LBrace_(node),
            r matches Ok(Self::RBrace_(x)) ==> node.kind@ == "}"@ && x == symbols::RBrace_(node),
            r is Err ==> r == Err::<Self, IncorrectKind<'tree>>(IncorrectKind { node, kind: Self::KIND }),
    {
        if str_eq(node.kind, "binary") {
            Ok(Self::Binary(Binary::from_node_unchecked(node)))
        } else if str_eq(node.kind, "boolean") {
            Ok(Self::Boolean(Boolean::from_node_unchecked(node)))
        } else if str_eq(node.kind, "call") {
            Ok(Self::Call(Call::from_node_unchecked(node)))
        } else if str_eq(node.kind, "divert") {
            Ok(Self::Divert(Divert::from_node_unchecked(node)))
        } else if str_eq(node.kind, "identifier") {
            Ok(Self::Identifier(Identifier::from_node_unchecked(node)))
        } else if str_eq(node.kind, "list_values") {
            Ok(Self::ListValues(ListValues::from_node_unchecked(node)))
        } else if str_eq(node.kind, "number") {
            Ok(Self::Number(Number::from_node_unchecked(node)))
        } else if str_eq(node.kind, "paren") {
            Ok(Self::Paren(Paren::from_node_unchecked(node)))
        } else if str_eq(node.kind, "postfix") {
            Ok(Self::Postfix(Postfix::from_node_unchecked(node)))
        } else if str_eq(node.kind, "qualified_name") {
            Ok(Self::QualifiedName(QualifiedName::from_node_unchecked(node)))
        } else if str_eq(node.kind, "string") {
            Ok(Self::String(String::from_node_unchecked(node)))
        } else if str_eq(node.kind, "unary") {
            Ok(Self::Unary(Unary::from_node_unchecked(node)))
        } else if str_eq(node.kind, "{") {
            Ok(Self::LBrace_(symbols::LBrace_::from_node_unchecked(node)))
        } else if str_eq(node.kind, "}") {
            Ok(Self::RBrace_(symbols::RBrace_::from_node_unchecked(node)))
        } else {
            Err(IncorrectKind { node, kind: Self::KIND })
        }
    }
}

impl<'tree> TryFromSpecImpl<&'tree SyntaxNode> for Binary_Boolean_Call_Divert_Identifier_ListValues_Number_Paren_Postfix_QualifiedName_String_Unary_LBrace__RBrace_<'tree> {
    open spec fn obeys_try_from_spec() -> bool {
        true
    }

    open spec fn try_from_spec(node: &'tree SyntaxNode) -> NodeResult<'tree, Self> {
        if node.kind@ == "binary"@ {
            Ok(Self::Binary(Binary(node)))
        } else if node.kind@ == "boolean"@ {
            Ok(Self::Boolean(Boolean(node)))
        } else if node.kind@ == "call"@ {
            Ok(Self::Call(Call(node)))
        } else if node.kind@ == "divert"@ {
            Ok(Self::Divert(Divert(node)))
        } else if node.kind@ == "identifier"@ {
            Ok(Self::Identifier(Identifier(node)))
        } else if node.kind@ == "list_values"@ {
            Ok(Self::ListValues(ListValues(node)))
        } else if node.kind@ == "number"@ {
            Ok(Self::Number(Number(node)))
        } else if node.kind@ == "paren"@ {
            Ok(Self::Paren(Paren(node)))
        } else if node.kind@ == "postfix"@ {
            Ok(Self::Postfix(Postfix(node)))
        } else if node.kind@ == "qualified_name"@ {
            Ok(Self::QualifiedName(QualifiedName(node)))
        } else if node.kind@ == "string"@ {
            Ok(Self::String(String(node)))
        } else if node.kind@ == "unary"@ {
            Ok(Self::Unary(Unary(node)))
        } else if node.kind@ == "{"@ {
            Ok(Self::LBrace_(symbols::LBrace_(node)))
        } else if node.kind@ == "}"@ {
            Ok(Self::RBrace_(symbols::RBrace_(node)))
        } else {
            Err(IncorrectKind { node, kind: Self::KIND })
        }
    }
}

/// one of `{( | ) | identifier}`:
/// - [symbols::LParen_]
/// - [symbols::RParen_]
/// - [Identifier]
#[derive(Debug, Clone, Copy, PartialEq, Eq, Hash)]
#[allow(non_camel_case_types)]
pub enum LParen__RParen__Identifier<'tree> {
    LParen_(symbols::LParen_<'tree>),
    RParen_(symbols::RParen_<'tree>),
    Identifier(Identifier<'tree>),
}

impl<'tree> LParen__RParen__Identifier<'tree> {
    /// The kinds of the nodes of this type.
    pub const KIND: &'static str = "{( | ) | identifier}";

    /// Returns the node if it is of kind `(` ([symbols::LParen_]), otherwise returns None
    pub fn l_paren_(self) -> (r: Option<symbols::LParen_<'tree>>)
        ensures
            match self {
                Self::LParen_(x) => r == Some(x),
                _ => r is None,
            },
    {
        match self {
            Self::LParen_(x) => Some(x),
            _ => None,
        }
    }

    /// Returns the node if it is of kind `)` ([symbols::RParen_]), otherwise returns None
    pub fn r_paren_(self) -> (r: Option<symbols::RParen_<'tree>>)
        ensures
            match self {
                Self::RParen_(x) => r == Some(x),
                _ => r is None,
            },
    {
        match self {
            Self::RParen_(x) => Some(x),
            _ => None,
        }
    }

    /// Returns the node if it is of kind `identifier` ([Identifier]), otherwise returns None
    pub fn identifier(self) -> (r: Option<Identifier<'tree>>)
        ensures
            match self {
                Self::Identifier(x) => r == Some(x),
                _ => r is None,
            },
    {
        match self {
            Self::Identifier(x) => Some(x),
            _ => None,
        }
    }

    /// The underlying node, whichever the variant.
    pub open spec fn spec_node(self) -> &'tree SyntaxNode {
        match self {
            Self::LParen_(x) => x.0,
            Self::RParen_(x) => x.0,
            Self::Identifier(x) => x.0,
        }
    }

    /// The underlying node.
    pub fn node(&self) -> (r: &&'tree SyntaxNode)
        ensures
            *r == self.spec_node(),
    {
        match self {
            Self::LParen_(x) => x.node(),
            Self::RParen_(x) => x.node(),
            Self::Identifier(x) => x.node(),
        }
    }

    /// The underlying node, to replace in place.
    pub fn node_mut(&mut self) -> (r: &mut &'tree SyntaxNode)
        ensures
            *r == old(self).spec_node(),
            final(self).spec_node() == *final(r),
            (*old(self)) is LParen_ ==> (*final(self)) is LParen_,
            (*old(self)) is RParen_ ==> (*final(self)) is RParen_,
            (*old(self)) is Identifier ==> (*final(self)) is Identifier,
    {
        match self {
            Self::LParen_(x) => x.node_mut(),
            Self::RParen_(x) => x.node_mut(),
            Self::Identifier(x) => x.node_mut(),
        }
    }

    /// The underlying node, giving up the typed view.
    pub fn into_node(self) -> (r: &'tree SyntaxNode)
        ensures
            r == self.spec_node(),
    {
        match self {
            Self::LParen_(x) => x.into_node(),
            Self::RParen_(x) => x.into_node(),
            Self::Identifier(x) => x.into_node(),
        }
    }
}

impl<'tree> TryFrom<&'tree SyntaxNode> for LParen__RParen__Identifier<'tree> {
    type Error = IncorrectKind<'tree>;

    /// Views `node` as the variant for its kind, if it has one of this type's kinds.
    fn try_from(node: &'tree SyntaxNode) -> (r: NodeResult<'tree, Self>)
        ensures
            r is Ok <==> (
                node.kind@ == "("@
                || node.kind@ == ")"@
                || node.kind@ == "identifier"@
            ),
            r matches Ok(Self::LParen_(x)) ==> node.kind@ == "("@ && x == symbols::LParen_(node),
            r matches Ok(Self::RParen_(x)) ==> node.kind@ == ")"@ && x == symbols::RParen_(node),
            r matches Ok(Self::Identifier(x)) ==> node.kind@ == "identifier"@ && x == Identifier(node),
            r is Err ==> r == Err::<Self, IncorrectKind<'tree>>(IncorrectKind { node, kind: Self::KIND }),
    {
        if str_eq(node.kind, "(") {
            Ok(Self::LParen_(symbols::LParen_::from_node_unchecked(node)))
        } else if str_eq(node.kind, ")") {
            Ok(Self::RParen_(symbols::RParen_::from_node_unchecked(node)))
        } else if str_eq(node.kind, "identifier") {
            Ok(Self::Identifier(Identifier::from_node_unchecked(node)))
        } else {
            Err(IncorrectKind { node, kind: Self::KIND })
        }
    }
}

impl<'tree> TryFromSpecImpl<&'tree SyntaxNode> for LParen__RParen__Identifier<'tree> {
    open spec fn obeys_try_from_spec() -> bool {
        true
    }

    open spec fn try_from_spec(node: &'tree SyntaxNode) -> NodeResult<'tree, Self> {
        if node.kind@ == "("@ {
            Ok(Self::LParen_(symbols::LParen_(node)))
        } else if node.kind@ == ")"@ {
            Ok(Self::RParen_(symbols::RParen_(node)))
        } else if node.kind@ == "identifier"@ {
            Ok(Self::Identifier(Identifier(node)))
        } else {
            Err(IncorrectKind { node, kind: Self::KIND })
        }
    }
}

/// one of `{choice | choice_block | code | comment | content | external | gather_block | global | include | list | todo_comment}`:
/// - [Choice]
/// - [ChoiceBlock]
/// - [Code]
/// - [Comment]
/// - [Content]
/// - [External]
/// - [GatherBlock]
/// - [Global]
/// - [Include]
/// - [List]
/// - [TodoComment]
#[derive(Debug, Clone, Copy, PartialEq, Eq, Hash)]
#[allow(non_camel_case_types)]
pub enum Choice_ChoiceBlock_Code_Comment_Content_External_GatherBlock_Global_Include_List_TodoComment<'tree> {
    Choice(Choice<'tree>),
    ChoiceBlock(ChoiceBlock<'tree>),
    Code(Code<'tree>),
    Comment(Comment<'tree>),
    Content(Content<'tree>),
    External(External<'tree>),
    GatherBlock(GatherBlock<'tree>),
    Global(Global<'tree>),
    Include(Include<'tree>),
    List(List<'tree>),
    TodoComment(TodoComment<'tree>),
}

impl<'tree> Choice_ChoiceBlock_Code_Comment_Content_External_GatherBlock_Global_Include_List_TodoComment<'tree> {
    /// The kinds of the nodes of this type.
    pub const KIND: &'static str = "{choice | choice_block | code | comment | content | external | gather_block | global | include | list | todo_comment}";

    /// Returns the node if it is of kind `choice` ([Choice]), otherwise returns None
    pub fn choice(self) -> (r: Option<Choice<'tree>>)
        ensures
            match self {
                Self::Choice(x) => r == Some(x),
                _ => r is None,
            },
    {
        match self {
            Self::Choice(x) => Some(x),
            _ => None,
        }
    }

    /// Returns the node if it is of kind `choice_block` ([ChoiceBlock]), otherwise returns None
    pub fn choice_block(self) -> (r: Option<ChoiceBlock<'tree>>)
        ensures
            match self {
                Self::ChoiceBlock(x) => r == Some(x),
                _ => r is None,
            },
    {
        match self {
            Self::ChoiceBlock(x) => Some(x),
            _ => None,
        }
    }

    /// Returns the node if it is of kind `code` ([Code]), otherwise returns None
    pub fn code(self) -> (r: Option<Code<'tree>>)
        ensures
            match self {
                Self::Code(x) => r == Some(x),
                _ => r is None,
            },
    {
        match self {
            Self::Code(x) => Some(x),
            _ => None,
        }
    }

    /// Returns the node if it is of kind `comment` ([Comment]), otherwise returns None
    pub fn comment(self) -> (r: Option<Comment<'tree>>)
        ensures
            match self {
                Self::Comment(x) => r == Some(x),
                _ => r is None,
            },
    {
        match self {
            Self::Comment(x) => Some(x),
            _ => None,
        }
    }

    /// Returns the node if it is of kind `content` ([Content]), otherwise returns None
    pub fn content(self) -> (r: Option<Content<'tree>>)
        ensures
            match self {
                Self::Content(x) => r == Some(x),
                _ => r is None,
            },
    {
        match self {
            Self::Content(x) => Some(x),
            _ => None,
        }
    }

    /// Returns the node if it is of kind `external` ([External]), otherwise returns None
    pub fn external(self) -> (r: Option<External<'tree>>)
        ensures
            match self {
                Self::External(x) => r == Some(x),
                _ => r is None,
            },
    {
        match self {
            Self::External(x) => Some(x),
            _ => None,
        }
    }

    /// Returns the node if it is of kind `gather_block` ([GatherBlock]), otherwise returns None
    pub fn gather_block(self) -> (r: Option<GatherBlock<'tree>>)
        ensures
            match self {
                Self::GatherBlock(x) => r == Some(x),
                _ => r is None,
            },
    {
        match self {
            Self::GatherBlock(x) => Some(x),
            _ => None,
        }
    }

    /// Returns the node if it is of kind `global` ([Global]), otherwise returns None
    pub fn global(self) -> (r: Option<Global<'tree>>)
        ensures
            match self {
                Self::Global(x) => r == Some(x),
                _ => r is None,
            },
    {
        match self {
            Self::Global(x) => Some(x),
            _ => None,
        }
    }

    /// Returns the node if it is of kind `include` ([Include]), otherwise returns None
    pub fn include_node(self) -> (r: Option<Include<'tree>>)
        ensures
            match self {
                Self::Include(x) => r == Some(x),
                _ => r is None,
            },
    {
        match self {
            Self::Include(x) => Some(x),
            _ => None,
        }
    }

    /// Returns the node if it is of kind `list` ([List]), otherwise returns None
    pub fn list(self) -> (r: Option<List<'tree>>)
        ensures
            match self {
                Self::List(x) => r == Some(x),
                _ => r is None,
            },
    {
        match self {
            Self::List(x) => Some(x),
            _ => None,
        }
    }

    /// Returns the node if it is of kind `todo_comment` ([TodoComment]), otherwise returns None
    pub fn todo_comment(self) -> (r: Option<TodoComment<'tree>>)
        ensures
            match self {
                Self::TodoComment(x) => r == Some(x),
                _ => r is None,
            },
    {
        match self {
            Self::TodoComment(x) => Some(x),
            _ => None,
        }
    }

    /// The underlying node, whichever the variant.
    pub open spec fn spec_node(self) -> &'tree SyntaxNode {
        match self {
            Self::Choice(x) => x.0,
            Self::ChoiceBlock(x) => x.0,
            Self::Code(x) => x.0,
            Self::Comment(x) => x.0,
            Self::Content(x) => x.0,
            Self::External(x) => x.0,
            Self::GatherBlock(x) => x.0,
            Self::Global(x) => x.0,
            Self::Include(x) => x.0,
            Self::List(x) => x.0,
            Self::TodoComment(x) => x.0,
        }
    }

    /// The underlying node.
    pub fn node(&self) -> (r: &&'tree SyntaxNode)
        ensures
            *r == self.spec_node(),
    {
        match self {
            Self::Choice(x) => x.node(),
            Self::ChoiceBlock(x) => x.node(),
            Self::Code(x) => x.node(),
            Self::Comment(x) => x.node(),
            Self::Content(x) => x.node(),
            Self::External(x) => x.node(),
            Self::GatherBlock(x) => x.node(),
            Self::Global(x) => x.node(),
            Self::Include(x) => x.node(),
            Self::List(x) => x.node(),
            Self::TodoComment(x) => x.node(),
        }
    }

    /// The underlying node, to replace in place.
    pub fn node_mut(&mut self) -> (r: &mut &'tree SyntaxNode)
        ensures
            *r == old(self).spec_node(),
            final(self).spec_node() == *final(r),
            (*old(self)) is Choice ==> (*final(self)) is Choice,
            (*old(self)) is ChoiceBlock ==> (*final(self)) is ChoiceBlock,
            (*old(self)) is Code ==> (*final(self)) is Code,
            (*old(self)) is Comment ==> (*final(self)) is Comment,
            (*old(self)) is Content ==> (*final(self)) is Content,
            (*old(self)) is External ==> (*final(self)) is External,
            (*old(self)) is GatherBlock ==> (*final(self)) is GatherBlock,
            (*old(self)) is Global ==> (*final(self)) is Global,
            (*old(self)) is Include ==> (*final(self)) is Include,
            (*old(self)) is List ==> (*final(self)) is List,
            (*old(self)) is TodoComment ==> (*final(self)) is TodoComment,
    {
        match self {
            Self::Choice(x) => x.node_mut(),
            Self::ChoiceBlock(x) => x.node_mut(),
            Self::Code(x) => x.node_mut(),
            Self::Comment(x) => x.node_mut(),
            Self::Content(x) => x.node_mut(),
            Self::External(x) => x.node_mut(),
            Self::GatherBlock(x) => x.node_mut(),
            Self::Global(x) => x.node_mut(),
            Self::Include(x) => x.node_mut(),
            Self::List(x) => x.node_mut(),
            Self::TodoComment(x) => x.node_mut(),
        }
    }

    /// The underlying node, giving up the typed view.
    pub fn into_node(self) -> (r: &'tree SyntaxNode)
        ensures
            r == self.spec_node(),
    {
        match self {
            Self::Choice(x) => x.into_node(),
            Self::ChoiceBlock(x) => x.into_node(),
            Self::Code(x) => x.into_node(),
            Self::Comment(x) => x.into_node(),
            Self::Content(x) => x.into_node(),
            Self::External(x) => x.into_node(),
            Self::GatherBlock(x) => x.into_node(),
            Self::Global(x) => x.into_node(),
            Self::Include(x) => x.into_node(),
            Self::List(x) => x.into_node(),
            Self::TodoComment(x) => x.into_node(),
        }
    }
}

impl<'tree> TryFrom<&'tree SyntaxNode> for Choice_ChoiceBlock_Code_Comment_Content_External_GatherBlock_Global_Include_List_TodoComment<'tree> {
    type Error = IncorrectKind<'tree>;

    /// Views `node` as the variant for its kind, if it has one of this type's kinds.
    fn try_from(node: &'tree SyntaxNode) -> (r: NodeResult<'tree, Self>)
        ensures
            r is Ok <==> (
                node.kind@ == "choice"@
                || node.kind@ == "choice_block"@
                || node.kind@ == "code"@
                || node.kind@ == "comment"@
                || node.kind@ == "content"@
                || node.kind@ == "external"@
                || node.kind@ == "gather_block"@
                || node.kind@ == "global"@
                || node.kind@ == "include"@
                || node.kind@ == "list"@
                || node.kind@ == "todo_comment"@
            ),
            r matches Ok(Self::Choice(x)) ==> node.kind@ == "choice"@ && x == Choice(node),
            r matches Ok(Self::ChoiceBlock(x)) ==> node.kind@ == "choice_block"@ && x == ChoiceBlock(node),
            r matches Ok(Self::Code(x)) ==> node.kind@ == "code"@ && x == Code(node),
            r matches Ok(Self::Comment(x)) ==> node.kind@ == "comment"@ && x == Comment(node),
            r matches Ok(Self::Content(x)) ==> node.kind@ == "content"@ && x == Content(node),
            r matches Ok(Self::External(x)) ==> node.kind@ == "external"@ && x == External(node),
            r matches Ok(Self::GatherBlock(x)) ==> node.kind@ == "gather_block"@ && x == GatherBlock(node),
            r matches Ok(Self::Global(x)) ==> node.kind@ == "global"@ && x == Global(node),
            r matches Ok(Self::Include(x)) ==> node.kind@ == "include"@ && x == Include(node),
            r matches Ok(Self::List(x)) ==> node.kind@ == "list"@ && x == List(node),
            r matches Ok(Self::TodoComment(x)) ==> node.kind@ == "todo_comment"@ && x == TodoComment(node),
            r is Err ==> r == Err::<Self, IncorrectKind<'tree>>(IncorrectKind { node, kind: Self::KIND }),
    {
        if str_eq(node.kind, "choice") {
            Ok(Self::Choice(Choice::from_node_unchecked(node)))
        } else if str_eq(node.kind, "choice_block") {
            Ok(Self::ChoiceBlock(ChoiceBlock::from_node_unchecked(node)))
        } else if str_eq(node.kind, "code") {
            Ok(Self::Code(Code::from_node_unchecked(node)))
        } else if str_eq(node.kind, "comment") {
            Ok(Self::Comment(Comment::from_node_unchecked(node)))
        } else if str_eq(node.kind, "content") {
            Ok(Self::Content(Content::from_node_unchecked(node)))
        } else if str_eq(node.kind, "external") {
            Ok(Self::External(External::from_node_unchecked(node)))
        } else if str_eq(node.kind, "gather_block") {
            Ok(Self::GatherBlock(GatherBlock::from_node_unchecked(node)))
        } else if str_eq(node.kind, "global") {
            Ok(Self::Global(Global::from_node_unchecked(node)))
        } else if str_eq(node.kind, "include") {
            Ok(Self::Include(Include::from_node_unchecked(node)))
        } else if str_eq(node.kind, "list") {
            Ok(Self::List(List::from_node_unchecked(node)))
        } else if str_eq(node.kind, "todo_comment") {
            Ok(Self::TodoComment(TodoComment::from_node_unchecked(node)))
        } else {
            Err(IncorrectKind { node, kind: Self::KIND })
        }
    }
}

impl<'tree> TryFromSpecImpl<&'tree SyntaxNode> for Choice_ChoiceBlock_Code_Comment_Content_External_GatherBlock_Global_Include_List_TodoComment<'tree> {
    open spec fn obeys_try_from_spec() -> bool {
        true
    }

    open spec fn try_from_spec(node: &'tree SyntaxNode) -> NodeResult<'tree, Self> {
        if node.kind@ == "choice"@ {
            Ok(Self::Choice(Choice(node)))
        } else if node.kind@ == "choice_block"@ {
            Ok(Self::ChoiceBlock(ChoiceBlock(node)))
        } else if node.kind@ == "code"@ {
            Ok(Self::Code(Code(node)))
        } else if node.kind@ == "comment"@ {
            Ok(Self::Comment(Comment(node)))
        } else if node.kind@ == "content"@ {
            Ok(Self::Content(Content(node)))
        } else if node.kind@ == "external"@ {
            Ok(Self::External(External(node)))
        } else if node.kind@ == "gather_block"@ {
            Ok(Self::GatherBlock(GatherBlock(node)))
        } else if node.kind@ == "global"@ {
            Ok(Self::Global(Global(node)))
        } else if node.kind@ == "include"@ {
            Ok(Self::Include(Include(node)))
        } else if node.kind@ == "list"@ {
            Ok(Self::List(List(node)))
        } else if node.kind@ == "todo_comment"@ {
            Ok(Self::TodoComment(TodoComment(node)))
        } else {
            Err(IncorrectKind { node, kind: Self::KIND })
        }
    }
}

/// one of `{assignment | binary | boolean | call | divert | identifier | list_values | number | paren | postfix | qualified_name | return | string | temp | unary}`:
/// - [Assignment]
/// - [Binary]
/// - [Boolean]
/// - [Call]
/// - [Divert]
/// - [Identifier]
/// - [ListValues]
/// - [Number]
/// - [Paren]
/// - [Postfix]
/// - [QualifiedName]
/// - [Return]
/// - [String]
/// - [Temp]
/// - [Unary]
#[derive(Debug, Clone, Copy, PartialEq, Eq, Hash)]
#[allow(non_camel_case_types)]
pub enum Assignment_Binary_Boolean_Call_Divert_Identifier_ListValues_Number_Paren_Postfix_QualifiedName_Return_String_Temp_Unary<'tree> {
    Assignment(Assignment<'tree>),
    Binary(Binary<'tree>),
    Boolean(Boolean<'tree>),
    Call(Call<'tree>),
    Divert(Divert<'tree>),
    Identifier(Identifier<'tree>),
    ListValues(ListValues<'tree>),
    Number(Number<'tree>),
    Paren(Paren<'tree>),
    Postfix(Postfix<'tree>),
    QualifiedName(QualifiedName<'tree>),
    Return(Return<'tree>),
    String(String<'tree>),
    Temp(Temp<'tree>),
    Unary(Unary<'tree>),
}

impl<'tree> Assignment_Binary_Boolean_Call_Divert_Identifier_ListValues_Number_Paren_Postfix_QualifiedName_Return_String_Temp_Unary<'tree> {
    /// The kinds of the nodes of this type.
    pub const KIND: &'static str = "{assignment | binary | boolean | call | divert | identifier | list_values | number | paren | postfix | qualified_name | return | string | temp | unary}";

    /// Returns the node if it is of kind `assignment` ([Assignment]), otherwise returns None
    pub fn assignment(self) -> (r: Option<Assignment<'tree>>)
        ensures
            match self {
                Self::Assignment(x) => r == Some(x),
                _ => r is None,
            },
    {
        match self {
            Self::Assignment(x) => Some(x),
            _ => None,
        }
    }

    /// Returns the node if it is of kind `binary` ([Binary]), otherwise returns None
    pub fn binary(self) -> (r: Option<Binary<'tree>>)
        ensures
            match self {
                Self::Binary(x) => r == Some(x),
                _ => r is None,
            },
    {
        match self {
            Self::Binary(x) => Some(x),
            _ => None,
        }
    }

    /// Returns the node if it is of kind `boolean` ([Boolean]), otherwise returns None
    pub fn boolean(self) -> (r: Option<Boolean<'tree>>)
        ensures
            match self {
                Self::Boolean(x) => r == Some(x),
                _ => r is None,
            },
    {
        match self {
            Self::Boolean(x) => Some(x),
            _ => None,
        }
    }

    /// Returns the node if it is of kind `call` ([Call]), otherwise returns None
    pub fn call(self) -> (r: Option<Call<'tree>>)
        ensures
            match self {
                Self::Call(x) => r == Some(x),
                _ => r is None,
            },
    {
        match self {
            Self::Call(x) => Some(x),
            _ => None,
        }
    }

    /// Returns the node if it is of kind `divert` ([Divert]), otherwise returns None
    pub fn divert(self) -> (r: Option<Divert<'tree>>)
        ensures
            match self {
                Self::Divert(x) => r == Some(x),
                _ => r is None,
            },
    {
        match self {
            Self::Divert(x) => Some(x),
            _ => None,
        }
    }

    /// Returns the node if it is of kind `identifier` ([Identifier]), otherwise returns None
    pub fn identifier(self) -> (r: Option<Identifier<'tree>>)
        ensures
            match self {
                Self::Identifier(x) => r == Some(x),
                _ => r is None,
            },
    {
        match self {
            Self::Identifier(x) => Some(x),
            _ => None,
        }
    }

    /// Returns the node if it is of kind `list_values` ([ListValues]), otherwise returns None
    pub fn list_values(self) -> (r: Option<ListValues<'tree>>)
        ensures
            match self {
                Self::ListValues(x) => r == Some(x),
                _ => r is None,
            },
    {
        match self {
            Self::ListValues(x) => Some(x),
            _ => None,
        }
    }

    /// Returns the node if it is of kind `number` ([Number]), otherwise returns None
    pub fn number(self) -> (r: Option<Number<'tree>>)
        ensures
            match self {
                Self::Number(x) => r == Some(x),
                _ => r is None,
            },
    {
        match self {
            Self::Number(x) => Some(x),
            _ => None,
        }
    }

    /// Returns the node if it is of kind `paren` ([Paren]), otherwise returns None
    pub fn paren(self) -> (r: Option<Paren<'tree>>)
        ensures
            match self {
                Self::Paren(x) => r == Some(x),
                _ => r is None,
            },
    {
        match self {
            Self::Paren(x) => Some(x),
            _ => None,
        }
    }

    /// Returns the node if it is of kind `postfix` ([Postfix]), otherwise returns None
    pub fn postfix(self) -> (r: Option<Postfix<'tree>>)
        ensures
            match self {
                Self::Postfix(x) => r == Some(x),
                _ => r is None,
            },
    {
        match self {
            Self::Postfix(x) => Some(x),
            _ => None,
        }
    }

    /// Returns the node if it is of kind `qualified_name` ([QualifiedName]), otherwise returns None
    pub fn qualified_name(self) -> (r: Option<QualifiedName<'tree>>)
        ensures
            match self {
                Self::QualifiedName(x) => r == Some(x),
                _ => r is None,
            },
    {
        match self {
            Self::QualifiedName(x) => Some(x),
            _ => None,
        }
    }

    /// Returns the node if it is of kind `return` ([Return]), otherwise returns None
    pub fn return_node(self) -> (r: Option<Return<'tree>>)
        ensures
            match self {
                Self::Return(x) => r == Some(x),
                _ => r is None,
            },
    {
        match self {
            Self::Return(x) => Some(x),
            _ => None,
        }
    }

    /// Returns the node if it is of kind `string` ([String]), otherwise returns None
    pub fn string(self) -> (r: Option<String<'tree>>)
        ensures
            match self {
                Self::String(x) => r == Some(x),
                _ => r is None,
            },
    {
        match self {
            Self::String(x) => Some(x),
            _ => None,
        }
    }

    /// Returns the node if it is of kind `temp` ([Temp]), otherwise returns None
    pub fn temp(self) -> (r: Option<Temp<'tree>>)
        ensures
            match self {
                Self::Temp(x) => r == Some(x),
                _ => r is None,
            },
    {
        match self {
            Self::Temp(x) => Some(x),
            _ => None,
        }
    }

    /// Returns the node if it is of kind `unary` ([Unary]), otherwise returns None
    pub fn unary(self) -> (r: Option<Unary<'tree>>)
        ensures
            match self {
                Self::Unary(x) => r == Some(x),
                _ => r is None,
            },
    {
        match self {
            Self::Unary(x) => Some(x),
            _ => None,
        }
    }

    /// The underlying node, whichever the variant.
    pub open spec fn spec_node(self) -> &'tree SyntaxNode {
        match self {
            Self::Assignment(x) => x.0,
            Self::Binary(x) => x.0,
            Self::Boolean(x) => x.0,
            Self::Call(x) => x.0,
            Self::Divert(x) => x.0,
            Self::Identifier(x) => x.0,
            Self::ListValues(x) => x.0,
            Self::Number(x) => x.0,
            Self::Paren(x) => x.0,
            Self::Postfix(x) => x.0,
            Self::QualifiedName(x) => x.0,
            Self::Return(x) => x.0,
            Self::String(x) => x.0,
            Self::Temp(x) => x.0,
            Self::Unary(x) => x.0,
        }
    }

    /// The underlying node.
    pub fn node(&self) -> (r: &&'tree SyntaxNode)
        ensures
            *r == self.spec_node(),
    {
        match self {
            Self::Assignment(x) => x.node(),
            Self::Binary(x) => x.node(),
            Self::Boolean(x) => x.node(),
            Self::Call(x) => x.node(),
            Self::Divert(x) => x.node(),
            Self::Identifier(x) => x.node(),
            Self::ListValues(x) => x.node(),
            Self::Number(x) => x.node(),
            Self::Paren(x) => x.node(),
            Self::Postfix(x) => x.node(),
            Self::QualifiedName(x) => x.node(),
            Self::Return(x) => x.node(),
            Self::String(x) => x.node(),
            Self::Temp(x) => x.node(),
            Self::Unary(x) => x.node(),
        }
    }

    /// The underlying node, to replace in place.
    pub fn node_mut(&mut self) -> (r: &mut &'tree SyntaxNode)
        ensures
            *r == old(self).spec_node(),
            final(self).spec_node() == *final(r),
            (*old(self)) is Assignment ==> (*final(self)) is Assignment,
            (*old(self)) is Binary ==> (*final(self)) is Binary,
            (*old(self)) is Boolean ==> (*final(self)) is Boolean,
            (*old(self)) is Call ==> (*final(self)) is Call,
            (*old(self)) is Divert ==> (*final(self)) is Divert,
            (*old(self)) is Identifier ==> (*final(self)) is Identifier,
            (*old(self)) is ListValues ==> (*final(self)) is ListValues,
            (*old(self)) is Number ==> (*final(self)) is Number,
            (*old(self)) is Paren ==> (*final(self)) is Paren,
            (*old(self)) is Postfix ==> (*final(self)) is Postfix,
            (*old(self)) is QualifiedName ==> (*final(self)) is QualifiedName,
            (*old(self)) is Return ==> (*final(self)) is Return,
            (*old(self)) is String ==> (*final(self)) is String,
            (*old(self)) is Temp ==> (*final(self)) is Temp,
            (*old(self)) is Unary ==> (*final(self)) is Unary,
    {
        match self {
            Self::Assignment(x) => x.node_mut(),
            Self::Binary(x) => x.node_mut(),
            Self::Boolean(x) => x.node_mut(),
            Self::Call(x) => x.node_mut(),
            Self::Divert(x) => x.node_mut(),
            Self::Identifier(x) => x.node_mut(),
            Self::ListValues(x) => x.node_mut(),
            Self::Number(x) => x.node_mut(),
            Self::Paren(x) => x.node_mut(),
            Self::Postfix(x) => x.node_mut(),
            Self::QualifiedName(x) => x.node_mut(),
            Self::Return(x) => x.node_mut(),
            Self::String(x) => x.node_mut(),
            Self::Temp(x) => x.node_mut(),
            Self::Unary(x) => x.node_mut(),
        }
    }

    /// The underlying node, giving up the typed view.
    pub fn into_node(self) -> (r: &'tree SyntaxNode)
        ensures
            r == self.spec_node(),
    {
        match self {
            Self::Assignment(x) => x.into_node(),
            Self::Binary(x) => x.into_node(),
            Self::Boolean(x) => x.into_node(),
            Self::Call(x) => x.into_node(),
            Self::Divert(x) => x.into_node(),
            Self::Identifier(x) => x.into_node(),
            Self::ListValues(x) => x.into_node(),
            Self::Number(x) => x.into_node(),
            Self::Paren(x) => x.into_node(),
            Self::Postfix(x) => x.into_node(),
            Self::QualifiedName(x) => x.into_node(),
            Self::Return(x) => x.into_node(),
            Self::String(x) => x.into_node(),
            Self::Temp(x) => x.into_node(),
            Self::Unary(x) => x.into_node(),
        }
    }
}

impl<'tree> TryFrom<&'tree SyntaxNode> for Assignment_Binary_Boolean_Call_Divert_Identifier_ListValues_Number_Paren_Postfix_QualifiedName_Return_String_Temp_Unary<'tree> {
    type Error = IncorrectKind<'tree>;

    /// Views `node` as the variant for its kind, if it has one of this type's kinds.
    fn try_from(node: &'tree SyntaxNode) -> (r: NodeResult<'tree, Self>)
        ensures
            r is Ok <==> (
                node.kind@ == "assignment"@
                || node.kind@ == "binary"@
                || node.kind@ == "boolean"@
                || node.kind@ == "call"@
                || node.kind@ == "divert"@
                || node.kind@ == "identifier"@
                || node.kind@ == "list_values"@
                || node.kind@ == "number"@
                || node.kind@ == "paren"@
                || node.kind@ == "postfix"@
                || node.kind@ == "qualified_name"@
                || node.kind@ == "return"@
                || node.kind@ == "string"@
                || node.kind@ == "temp"@
                || node.kind@ == "unary"@
            ),
            r matches Ok(Self::Assignment(x)) ==> node.kind@ == "assignment"@ && x == Assignment(node),
            r matches Ok(Self::Binary(x)) ==> node.kind@ == "binary"@ && x == Binary(node),
            r matches Ok(Self::Boolean(x)) ==> node.kind@ == "boolean"@ && x == Boolean(node),
            r matches Ok(Self::Call(x)) ==> node.kind@ == "call"@ && x == Call(node),
            r matches Ok(Self::Divert(x)) ==> node.kind@ == "divert"@ && x == Divert(node),
            r matches Ok(Self::Identifier(x)) ==> node.kind@ == "identifier"@ && x == Identifier(node),
            r matches Ok(Self::ListValues(x)) ==> node.kind@ == "list_values"@ && x == ListValues(node),
            r matches Ok(Self::Number(x)) ==> node.kind@ == "number"@ && x == Number(node),
            r matches Ok(Self::Paren(x)) ==> node.kind@ == "paren"@ && x == Paren(node),
            r matches Ok(Self::Postfix(x)) ==> node.kind@ == "postfix"@ && x == Postfix(node),
            r matches Ok(Self::QualifiedName(x)) ==> node.kind@ == "qualified_name"@ && x == QualifiedName(node),
            r matches Ok(Self::Return(x)) ==> node.kind@ == "return"@ && x == Return(node),
            r matches Ok(Self::String(x)) ==> node.kind@ == "string"@ && x == String(node),
            r matches Ok(Self::Temp(x)) ==> node.kind@ == "temp"@ && x == Temp(node),
            r matches Ok(Self::Unary(x)) ==> node.kind@ == "unary"@ && x == Unary(node),
            r is Err ==> r == Err::<Self, IncorrectKind<'tree>>(IncorrectKind { node, kind: Self::KIND }),
    {
        if str_eq(node.kind, "assignment") {
            Ok(Self::Assignment(Assignment::from_node_unchecked(node)))
        } else if str_eq(node.kind, "binary") {
            Ok(Self::Binary(Binary::from_node_unchecked(node)))
        } else if str_eq(node.kind, "boolean") {
            Ok(Self::Boolean(Boolean::from_node_unchecked(node)))
        } else if str_eq(node.kind, "call") {
            Ok(Self::Call(Call::from_node_unchecked(node)))
        } else if str_eq(node.kind, "divert") {
            Ok(Self::Divert(Divert::from_node_unchecked(node)))
        } else if str_eq(node.kind, "identifier") {
            Ok(Self::Identifier(Identifier::from_node_unchecked(node)))
        } else if str_eq(node.kind, "list_values") {
            Ok(Self::ListValues(ListValues::from_node_unchecked(node)))
        } else if str_eq(node.kind, "number") {
            Ok(Self::Number(Number::from_node_unchecked(node)))
        } else if str_eq(node.kind, "paren") {
            Ok(Self::Paren(Paren::from_node_unchecked(node)))
        } else if str_eq(node.kind, "postfix") {
            Ok(Self::Postfix(Postfix::from_node_unchecked(node)))
        } else if str_eq(node.kind, "qualified_name") {
            Ok(Self::QualifiedName(QualifiedName::from_node_unchecked(node)))
        } else if str_eq(node.kind, "return") {
            Ok(Self::Return(Return::from_node_unchecked(node)))
        } else if str_eq(node.kind, "string") {
            Ok(Self::String(String::from_node_unchecked(node)))
        } else if str_eq(node.kind, "temp") {
            Ok(Self::Temp(Temp::from_node_unchecked(node)))
        } else if str_eq(node.kind, "unary") {
            Ok(Self::Unary(Unary::from_node_unchecked(node)))
        } else {
            Err(IncorrectKind { node, kind: Self::KIND })
        }
    }
}

impl<'tree> TryFromSpecImpl<&'tree SyntaxNode> for Assignment_Binary_Boolean_Call_Divert_Identifier_ListValues_Number_Paren_Postfix_QualifiedName_Return_String_Temp_Unary<'tree> {
    open spec fn obeys_try_from_spec() -> bool {
        true
    }

    open spec fn try_from_spec(node: &'tree SyntaxNode) -> NodeResult<'tree, Self> {
        if node.kind@ == "assignment"@ {
            Ok(Self::Assignment(Assignment(node)))
        } else if node.kind@ == "binary"@ {
            Ok(Self::Binary(Binary(node)))
        } else if node.kind@ == "boolean"@ {
            Ok(Self::Boolean(Boolean(node)))
        } else if node.kind@ == "call"@ {
            Ok(Self::Call(Call(node)))
        } else if node.kind@ == "divert"@ {
            Ok(Self::Divert(Divert(node)))
        } else if node.kind@ == "identifier"@ {
            Ok(Self::Identifier(Identifier(node)))
        } else if node.kind@ == "list_values"@ {
            Ok(Self::ListValues(ListValues(node)))
        } else if node.kind@ == "number"@ {
            Ok(Self::Number(Number(node)))
        } else if node.kind@ == "paren"@ {
            Ok(Self::Paren(Paren(node)))
        } else if node.kind@ == "postfix"@ {
            Ok(Self::Postfix(Postfix(node)))
        } else if node.kind@ == "qualified_name"@ {
            Ok(Self::QualifiedName(QualifiedName(node)))
        } else if node.kind@ == "return"@ {
            Ok(Self::Return(Return(node)))
        } else if node.kind@ == "string"@ {
            Ok(Self::String(String(node)))
        } else if node.kind@ == "temp"@ {
            Ok(Self::Temp(Temp(node)))
        } else if node.kind@ == "unary"@ {
            Ok(Self::Unary(Unary(node)))
        } else {
            Err(IncorrectKind { node, kind: Self::KIND })
        }
    }
}

/// one of `{choice_block | code | content | external | global | include | list | todo_comment | binary | boolean | call | divert | else | identifier | list_values | number | paren | postfix | qualified_name | string | unary}`:
/// - [ChoiceBlock]
/// - [Code]
/// - [Content]
/// - [External]
/// - [Global]
/// - [Include]
/// - [List]
/// - [TodoComment]
/// - [Binary]
/// - [Boolean]
/// - [Call]
/// - [Divert]
/// - [Else]
/// - [Identifier]
/// - [ListValues]
/// - [Number]
/// - [Paren]
/// - [Postfix]
/// - [QualifiedName]
/// - [String]
/// - [Unary]
#[derive(Debug, Clone, Copy, PartialEq, Eq, Hash)]
#[allow(non_camel_case_types)]
pub enum ChoiceBlock_Code_Content_External_Global_Include_List_TodoComment_Binary_Boolean_Call_Divert_Else_Identifier_ListValues_Number_Paren_Postfix_QualifiedName_String_Unary<'tree> {
    ChoiceBlock(ChoiceBlock<'tree>),
    Code(Code<'tree>),
    Content(Content<'tree>),
    External(External<'tree>),
    Global(Global<'tree>),
    Include(Include<'tree>),
    List(List<'tree>),
    TodoComment(TodoComment<'tree>),
    Binary(Binary<'tree>),
    Boolean(Boolean<'tree>),
    Call(Call<'tree>),
    Divert(Divert<'tree>),
    Else(Else<'tree>),
    Identifier(Identifier<'tree>),
    ListValues(ListValues<'tree>),
    Number(Number<'tree>),
    Paren(Paren<'tree>),
    Postfix(Postfix<'tree>),
    QualifiedName(QualifiedName<'tree>),
    String(String<'tree>),
    Unary(Unary<'tree>),
}

impl<'tree> ChoiceBlock_Code_Content_External_Global_Include_List_TodoComment_Binary_Boolean_Call_Divert_Else_Identifier_ListValues_Number_Paren_Postfix_QualifiedName_String_Unary<'tree> {
    /// The kinds of the nodes of this type.
    pub const KIND: &'static str = "{choice_block | code | content | external | global | include | list | todo_comment | binary | boolean | call | divert | else | identifier | list_values | number | paren | postfix | qualified_name | string | unary}";

    /// Returns the node if it is of kind `choice_block` ([ChoiceBlock]), otherwise returns None
    pub fn choice_block(self) -> (r: Option<ChoiceBlock<'tree>>)
        ensures
            match self {
                Self::ChoiceBlock(x) => r == Some(x),
                _ => r is None,
            },
    {
        match self {
            Self::ChoiceBlock(x) => Some(x),
            _ => None,
        }
    }

    /// Returns the node if it is of kind `code` ([Code]), otherwise returns None
    pub fn code(self) -> (r: Option<Code<'tree>>)
        ensures
            match self {
                Self::Code(x) => r == Some(x),
                _ => r is None,
            },
    {
        match self {
            Self::Code(x) => Some(x),
            _ => None,
        }
    }

    /// Returns the node if it is of kind `content` ([Content]), otherwise returns None
    pub fn content(self) -> (r: Option<Content<'tree>>)
        ensures
            match self {
                Self::Content(x) => r == Some(x),
                _ => r is None,
            },
    {
        match self {
            Self::Content(x) => Some(x),
            _ => None,
        }
    }

    /// Returns the node if it is of kind `external` ([External]), otherwise returns None
    pub fn external(self) -> (r: Option<External<'tree>>)
        ensures
            match self {
                Self::External(x) => r == Some(x),
                _ => r is None,
            },
    {
        match self {
            Self::External(x) => Some(x),
            _ => None,
        }
    }

    /// Returns the node if it is of kind `global` ([Global]), otherwise returns None
    pub fn global(self) -> (r: Option<Global<'tree>>)
        ensures
            match self {
                Self::Global(x) => r == Some(x),
                _ => r is None,
            },
    {
        match self {
            Self::Global(x) => Some(x),
            _ => None,
        }
    }

    /// Returns the node if it is of kind `include` ([Include]), otherwise returns None
    pub fn include_node(self) -> (r: Option<Include<'tree>>)
        ensures
            match self {
                Self::Include(x) => r == Some(x),
                _ => r is None,
            },
    {
        match self {
            Self::Include(x) => Some(x),
            _ => None,
        }
    }

    /// Returns the node if it is of kind `list` ([List]), otherwise returns None
    pub fn list(self) -> (r: Option<List<'tree>>)
        ensures
            match self {
                Self::List(x) => r == Some(x),
                _ => r is None,
            },
    {
        match self {
            Self::List(x) => Some(x),
            _ => None,
        }
    }

    /// Returns the node if it is of kind `todo_comment` ([TodoComment]), otherwise returns None
    pub fn todo_comment(self) -> (r: Option<TodoComment<'tree>>)
        ensures
            match self {
                Self::TodoComment(x) => r == Some(x),
                _ => r is None,
            },
    {
        match self {
            Self::TodoComment(x) => Some(x),
            _ => None,
        }
    }

    /// Returns the node if it is of kind `binary` ([Binary]), otherwise returns None
    pub fn binary(self) -> (r: Option<Binary<'tree>>)
        ensures
            match self {
                Self::Binary(x) => r == Some(x),
                _ => r is None,
            },
    {
        match self {
            Self::Binary(x) => Some(x),
            _ => None,
        }
    }

    /// Returns the node if it is of kind `boolean` ([Boolean]), otherwise returns None
    pub fn boolean(self) -> (r: Option<Boolean<'tree>>)
        ensures
            match self {
                Self::Boolean(x) => r == Some(x),
                _ => r is None,
            },
    {
        match self {
            Self::Boolean(x) => Some(x),
            _ => None,
        }
    }

    /// Returns the node if it is of kind `call` ([Call]), otherwise returns None
    pub fn call(self) -> (r: Option<Call<'tree>>)
        ensures
            match self {
                Self::Call(x) => r == Some(x),
                _ => r is None,
            },
    {
        match self {
            Self::Call(x) => Some(x),
            _ => None,
        }
    }

    /// Returns the node if it is of kind `divert` ([Divert]), otherwise returns None
    pub fn divert(self) -> (r: Option<Divert<'tree>>)
        ensures
            match self {
                Self::Divert(x) => r == Some(x),
                _ => r is None,
            },
    {
        match self {
            Self::Divert(x) => Some(x),
            _ => None,
        }
    }

    /// Returns the node if it is of kind `else` ([Else]), otherwise returns None
    pub fn else_node(self) -> (r: Option<Else<'tree>>)
        ensures
            match self {
                Self::Else(x) => r == Some(x),
                _ => r is None,
            },
    {
        match self {
            Self::Else(x) => Some(x),
            _ => None,
        }
    }

    /// Returns the node if it is of kind `identifier` ([Identifier]), otherwise returns None
    pub fn identifier(self) -> (r: Option<Identifier<'tree>>)
        ensures
            match self {
                Self::Identifier(x) => r == Some(x),
                _ => r is None,
            },
    {
        match self {
            Self::Identifier(x) => Some(x),
            _ => None,
        }
    }

    /// Returns the node if it is of kind `list_values` ([ListValues]), otherwise returns None
    pub fn list_values(self) -> (r: Option<ListValues<'tree>>)
        ensures
            match self {
                Self::ListValues(x) => r == Some(x),
                _ => r is None,
            },
    {
        match self {
            Self::ListValues(x) => Some(x),
            _ => None,
        }
    }

    /// Returns the node if it is of kind `number` ([Number]), otherwise returns None
    pub fn number(self) -> (r: Option<Number<'tree>>)
        ensures
            match self {
                Self::Number(x) => r == Some(x),
                _ => r is None,
            },
    {
        match self {
            Self::Number(x) => Some(x),
            _ => None,
        }
    }

    /// Returns the node if it is of kind `paren` ([Paren]), otherwise returns None
    pub fn paren(self) -> (r: Option<Paren<'tree>>)
        ensures
            match self {
                Self::Paren(x) => r == Some(x),
                _ => r is None,
            },
    {
        match self {
            Self::Paren(x) => Some(x),
            _ => None,
        }
    }

    /// Returns the node if it is of kind `postfix` ([Postfix]), otherwise returns None
    pub fn postfix(self) -> (r: Option<Postfix<'tree>>)
        ensures
            match self {
                Self::Postfix(x) => r == Some(x),
                _ => r is None,
            },
    {
        match self {
            Self::Postfix(x) => Some(x),
            _ => None,
        }
    }

    /// Returns the node if it is of kind `qualified_name` ([QualifiedName]), otherwise returns None
    pub fn qualified_name(self) -> (r: Option<QualifiedName<'tree>>)
        ensures
            match self {
                Self::QualifiedName(x) => r == Some(x),
                _ => r is None,
            },
    {
        match self {
            Self::QualifiedName(x) => Some(x),
            _ => None,
        }
    }

    /// Returns the node if it is of kind `string` ([String]), otherwise returns None
    pub fn string(self) -> (r: Option<String<'tree>>)
        ensures
            match self {
                Self::String(x) => r == Some(x),
                _ => r is None,
            },
    {
        match self {
            Self::String(x) => Some(x),
            _ => None,
        }
    }

    /// Returns the node if it is of kind `unary` ([Unary]), otherwise returns None
    pub fn unary(self) -> (r: Option<Unary<'tree>>)
        ensures
            match self {
                Self::Unary(x) => r == Some(x),
                _ => r is None,
            },
    {
        match self {
            Self::Unary(x) => Some(x),
            _ => None,
        }
    }

    /// The underlying node, whichever the variant.
    pub open spec fn spec_node(self) -> &'tree SyntaxNode {
        match self {
            Self::ChoiceBlock(x) => x.0,
            Self::Code(x) => x.0,
            Self::Content(x) => x.0,
            Self::External(x) => x.0,
            Self::Global(x) => x.0,
            Self::Include(x) => x.0,
            Self::List(x) => x.0,
            Self::TodoComment(x) => x.0,
            Self::Binary(x) => x.0,
            Self::Boolean(x) => x.0,
            Self::Call(x) => x.0,
            Self::Divert(x) => x.0,
            Self::Else(x) => x.0,
            Self::Identifier(x) => x.0,
            Self::ListValues(x) => x.0,
            Self::Number(x) => x.0,
            Self::Paren(x) => x.0,
            Self::Postfix(x) => x.0,
            Self::QualifiedName(x) => x.0,
            Self::String(x) => x.0,
            Self::Unary(x) => x.0,
        }
    }

    /// The underlying node.
    pub fn node(&self) -> (r: &&'tree SyntaxNode)
        ensures
            *r == self.spec_node(),
    {
        match self {
            Self::ChoiceBlock(x) => x.node(),
            Self::Code(x) => x.node(),
            Self::Content(x) => x.node(),
            Self::External(x) => x.node(),
            Self::Global(x) => x.node(),
            Self::Include(x) => x.node(),
            Self::List(x) => x.node(),
            Self::TodoComment(x) => x.node(),
            Self::Binary(x) => x.node(),
            Self::Boolean(x) => x.node(),
            Self::Call(x) => x.node(),
            Self::Divert(x) => x.node(),
            Self::Else(x) => x.node(),
            Self::Identifier(x) => x.node(),
            Self::ListValues(x) => x.node(),
            Self::Number(x) => x.node(),
            Self::Paren(x) => x.node(),
            Self::Postfix(x) => x.node(),
            Self::QualifiedName(x) => x.node(),
            Self::String(x) => x.node(),
            Self::Unary(x) => x.node(),
        }
    }

    /// The underlying node, to replace in place.
    pub fn node_mut(&mut self) -> (r: &mut &'tree SyntaxNode)
        ensures
            *r == old(self).spec_node(),
            final(self).spec_node() == *final(r),
            (*old(self)) is ChoiceBlock ==> (*final(self)) is ChoiceBlock,
            (*old(self)) is Code ==> (*final(self)) is Code,
            (*old(self)) is Content ==> (*final(self)) is Content,
            (*old(self)) is External ==> (*final(self)) is External,
            (*old(self)) is Global ==> (*final(self)) is Global,
            (*old(self)) is Include ==> (*final(self)) is Include,
            (*old(self)) is List ==> (*final(self)) is List,
            (*old(self)) is TodoComment ==> (*final(self)) is TodoComment,
            (*old(self)) is Binary ==> (*final(self)) is Binary,
            (*old(self)) is Boolean ==> (*final(self)) is Boolean,
            (*old(self)) is Call ==> (*final(self)) is Call,
            (*old(self)) is Divert ==> (*final(self)) is Divert,
            (*old(self)) is Else ==> (*final(self)) is Else,
            (*old(self)) is Identifier ==> (*final(self)) is Identifier,
            (*old(self)) is ListValues ==> (*final(self)) is ListValues,
            (*old(self)) is Number ==> (*final(self)) is Number,
            (*old(self)) is Paren ==> (*final(self)) is Paren,
            (*old(self)) is Postfix ==> (*final(self)) is Postfix,
            (*old(self)) is QualifiedName ==> (*final(self)) is QualifiedName,
            (*old(self)) is String ==> (*final(self)) is String,
            (*old(self)) is Unary ==> (*final(self)) is Unary,
    {
        match self {
            Self::ChoiceBlock(x) => x.node_mut(),
            Self::Code(x) => x.node_mut(),
            Self::Content(x) => x.node_mut(),
            Self::External(x) => x.node_mut(),
            Self::Global(x) => x.node_mut(),
            Self::Include(x) => x.node_mut(),
            Self::List(x) => x.node_mut(),
            Self::TodoComment(x) => x.node_mut(),
            Self::Binary(x) => x.node_mut(),
            Self::Boolean(x) => x.node_mut(),
            Self::Call(x) => x.node_mut(),
            Self::Divert(x) => x.node_mut(),
            Self::Else(x) => x.node_mut(),
            Self::Identifier(x) => x.node_mut(),
            Self::ListValues(x) => x.node_mut(),
            Self::Number(x) => x.node_mut(),
            Self::Paren(x) => x.node_mut(),
            Self::Postfix(x) => x.node_mut(),
            Self::QualifiedName(x) => x.node_mut(),
            Self::String(x) => x.node_mut(),
            Self::Unary(x) => x.node_mut(),
        }
    }

    /// The underlying node, giving up the typed view.
    pub fn into_node(self) -> (r: &'tree SyntaxNode)
        ensures
            r == self.spec_node(),
    {
        match self {
            Self::ChoiceBlock(x) => x.into_node(),
            Self::Code(x) => x.into_node(),
            Self::Content(x) => x.into_node(),
            Self::External(x) => x.into_node(),
            Self::Global(x) => x.into_node(),
            Self::Include(x) => x.into_node(),
            Self::List(x) => x.into_node(),
            Self::TodoComment(x) => x.into_node(),
            Self::Binary(x) => x.into_node(),
            Self::Boolean(x) => x.into_node(),
            Self::Call(x) => x.into_node(),
            Self::Divert(x) => x.into_node(),
            Self::Else(x) => x.into_node(),
            Self::Identifier(x) => x.into_node(),
            Self::ListValues(x) => x.into_node(),
            Self::Number(x) => x.into_node(),
            Self::Paren(x) => x.into_node(),
            Self::Postfix(x) => x.into_node(),
            Self::QualifiedName(x) => x.into_node(),
            Self::String(x) => x.into_node(),
            Self::Unary(x) => x.into_node(),
        }
    }
}

impl<'tree> TryFrom<&'tree SyntaxNode> for ChoiceBlock_Code_Content_External_Global_Include_List_TodoComment_Binary_Boolean_Call_Divert_Else_Identifier_ListValues_Number_Paren_Postfix_QualifiedName_String_Unary<'tree> {
    type Error = IncorrectKind<'tree>;

    /// Views `node` as the variant for its kind, if it has one of this type's kinds.
    fn try_from(node: &'tree SyntaxNode) -> (r: NodeResult<'tree, Self>)
        ensures
            r is Ok <==> (
                node.kind@ == "choice_block"@
                || node.kind@ == "code"@
                || node.kind@ == "content"@
                || node.kind@ == "external"@
                || node.kind@ == "global"@
                || node.kind@ == "include"@
                || node.kind@ == "list"@
                || node.kind@ == "todo_comment"@
                || node.kind@ == "binary"@
                || node.kind@ == "boolean"@
                || node.kind@ == "call"@
                || node.kind@ == "divert"@
                || node.kind@ == "else"@
                || node.kind@ == "identifier"@
                || node.kind@ == "list_values"@
                || node.kind@ == "number"@
                || node.kind@ == "paren"@
                || node.kind@ == "postfix"@
                || node.kind@ == "qualified_name"@
                || node.kind@ == "string"@
                || node.kind@ == "unary"@
            ),
            r matches Ok(Self::ChoiceBlock(x)) ==> node.kind@ == "choice_block"@ && x == ChoiceBlock(node),
            r matches Ok(Self::Code(x)) ==> node.kind@ == "code"@ && x == Code(node),
            r matches Ok(Self::Content(x)) ==> node.kind@ == "content"@ && x == Content(node),
            r matches Ok(Self::External(x)) ==> node.kind@ == "external"@ && x == External(node),
            r matches Ok(Self::Global(x)) ==> node.kind@ == "global"@ && x == Global(node),
            r matches Ok(Self::Include(x)) ==> node.kind@ == "include"@ && x == Include(node),
            r matches Ok(Self::List(x)) ==> node.kind@ == "list"@ && x == List(node),
            r matches Ok(Self::TodoComment(x)) ==> node.kind@ == "todo_comment"@ && x == TodoComment(node),
            r matches Ok(Self::Binary(x)) ==> node.kind@ == "binary"@ && x == Binary(node),
            r matches Ok(Self::Boolean(x)) ==> node.kind@ == "boolean"@ && x == Boolean(node),
            r matches Ok(Self::Call(x)) ==> node.kind@ == "call"@ && x == Call(node),
            r matches Ok(Self::Divert(x)) ==> node.kind@ == "divert"@ && x == Divert(node),
            r matches Ok(Self::Else(x)) ==> node.kind@ == "else"@ && x == Else(node),
            r matches Ok(Self::Identifier(x)) ==> node.kind@ == "identifier"@ && x == Identifier(node),
            r matches Ok(Self::ListValues(x)) ==> node.kind@ == "list_values"@ && x == ListValues(node),
            r matches Ok(Self::Number(x)) ==> node.kind@ == "number"@ && x == Number(node),
            r matches Ok(Self::Paren(x)) ==> node.kind@ == "paren"@ && x == Paren(node),
            r matches Ok(Self::Postfix(x)) ==> node.kind@ == "postfix"@ && x == Postfix(node),
            r matches Ok(Self::QualifiedName(x)) ==> node.kind@ == "qualified_name"@ && x == QualifiedName(node),
            r matches Ok(Self::String(x)) ==> node.kind@ == "string"@ && x == String(node),
            r matches Ok(Self::Unary(x)) ==> node.kind@ == "unary"@ && x == Unary(node),
            r is Err ==> r == Err::<Self, IncorrectKind<'tree>>(IncorrectKind { node, kind: Self::KIND }),
    {
        if str_eq(node.kind, "choice_block") {
            Ok(Self::ChoiceBlock(ChoiceBlock::from_node_unchecked(node)))
        } else if str_eq(node.kind, "code") {
            Ok(Self::Code(Code::from_node_unchecked(node)))
        } else if str_eq(node.kind, "content") {
            Ok(Self::Content(Content::from_node_unchecked(node)))
        } else if str_eq(node.kind, "external") {
            Ok(Self::External(External::from_node_unchecked(node)))
        } else if str_eq(node.kind, "global") {
            Ok(Self::Global(Global::from_node_unchecked(node)))
        } else if str_eq(node.kind, "include") {
            Ok(Self::Include(Include::from_node_unchecked(node)))
        } else if str_eq(node.kind, "list") {
            Ok(Self::List(List::from_node_unchecked(node)))
        } else if str_eq(node.kind, "todo_comment") {
            Ok(Self::TodoComment(TodoComment::from_node_unchecked(node)))
        } else if str_eq(node.kind, "binary") {
            Ok(Self::Binary(Binary::from_node_unchecked(node)))
        } else if str_eq(node.kind, "boolean") {
            Ok(Self::Boolean(Boolean::from_node_unchecked(node)))
        } else if str_eq(node.kind, "call") {
            Ok(Self::Call(Call::from_node_unchecked(node)))
        } else if str_eq(node.kind, "divert") {
            Ok(Self::Divert(Divert::from_node_unchecked(node)))
        } else if str_eq(node.kind, "else") {
            Ok(Self::Else(Else::from_node_unchecked(node)))
        } else if str_eq(node.kind, "identifier") {
            Ok(Self::Identifier(Identifier::from_node_unchecked(node)))
        } else if str_eq(node.kind, "list_values") {
            Ok(Self::ListValues(ListValues::from_node_unchecked(node)))
        } else if str_eq(node.kind, "number") {
            Ok(Self::Number(Number::from_node_unchecked(node)))
        } else if str_eq(node.kind, "paren") {
            Ok(Self::Paren(Paren::from_node_unchecked(node)))
        } else if str_eq(node.kind, "postfix") {
            Ok(Self::Postfix(Postfix::from_node_unchecked(node)))
        } else if str_eq(node.kind, "qualified_name") {
            Ok(Self::QualifiedName(QualifiedName::from_node_unchecked(node)))
        } else if str_eq(node.kind, "string") {
            Ok(Self::String(String::from_node_unchecked(node)))
        } else if str_eq(node.kind, "unary") {
            Ok(Self::Unary(Unary::from_node_unchecked(node)))
        } else {
            Err(IncorrectKind { node, kind: Self::KIND })
        }
    }
}

impl<'tree> TryFromSpecImpl<&'tree SyntaxNode> for ChoiceBlock_Code_Content_External_Global_Include_List_TodoComment_Binary_Boolean_Call_Divert_Else_Identifier_ListValues_Number_Paren_Postfix_QualifiedName_String_Unary<'tree> {
    open spec fn obeys_try_from_spec() -> bool {
        true
    }

    open spec fn try_from_spec(node: &'tree SyntaxNode) -> NodeResult<'tree, Self> {
        if node.kind@ == "choice_block"@ {
            Ok(Self::ChoiceBlock(ChoiceBlock(node)))
        } else if node.kind@ == "code"@ {
            Ok(Self::Code(Code(node)))
        } else if node.kind@ == "content"@ {
            Ok(Self::Content(Content(node)))
        } else if node.kind@ == "external"@ {
            Ok(Self::External(External(node)))
        } else if node.kind@ == "global"@ {
            Ok(Self::Global(Global(node)))
        } else if node.kind@ == "include"@ {
            Ok(Self::Include(Include(node)))
        } else if node.kind@ == "list"@ {
            Ok(Self::List(List(node)))
        } else if node.kind@ == "todo_comment"@ {
            Ok(Self::TodoComment(TodoComment(node)))
        } else if node.kind@ == "binary"@ {
            Ok(Self::Binary(Binary(node)))
        } else if node.kind@ == "boolean"@ {
            Ok(Self::Boolean(Boolean(node)))
        } else if node.kind@ == "call"@ {
            Ok(Self::Call(Call(node)))
        } else if node.kind@ == "divert"@ {
            Ok(Self::Divert(Divert(node)))
        } else if node.kind@ == "else"@ {
            Ok(Self::Else(Else(node)))
        } else if node.kind@ == "identifier"@ {
            Ok(Self::Identifier(Identifier(node)))
        } else if node.kind@ == "list_values"@ {
            Ok(Self::ListValues(ListValues(node)))
        } else if node.kind@ == "number"@ {
            Ok(Self::Number(Number(node)))
        } else if node.kind@ == "paren"@ {
            Ok(Self::Paren(Paren(node)))
        } else if node.kind@ == "postfix"@ {
            Ok(Self::Postfix(Postfix(node)))
        } else if node.kind@ == "qualified_name"@ {
            Ok(Self::QualifiedName(QualifiedName(node)))
        } else if node.kind@ == "string"@ {
            Ok(Self::String(String(node)))
        } else if node.kind@ == "unary"@ {
            Ok(Self::Unary(Unary(node)))
        } else {
            Err(IncorrectKind { node, kind: Self::KIND })
        }
    }
}

/// one of `{binary | boolean | call | divert | else | identifier | list_values | number | paren | postfix | qualified_name | string | unary}`:
/// - [Binary]
/// - [Boolean]
/// - [Call]
/// - [Divert]
/// - [Else]
/// - [Identifier]
/// - [ListValues]
/// - [Number]
/// - [Paren]
/// - [Postfix]
/// - [QualifiedName]
/// - [String]
/// - [Unary]
#[derive(Debug, Clone, Copy, PartialEq, Eq, Hash)]
#[allow(non_camel_case_types)]
pub enum Binary_Boolean_Call_Divert_Else_Identifier_ListValues_Number_Paren_Postfix_QualifiedName_String_Unary<'tree> {
    Binary(Binary<'tree>),
    Boolean(Boolean<'tree>),
    Call(Call<'tree>),
    Divert(Divert<'tree>),
    Else(Else<'tree>),
    Identifier(Identifier<'tree>),
    ListValues(ListValues<'tree>),
    Number(Number<'tree>),
    Paren(Paren<'tree>),
    Postfix(Postfix<'tree>),
    QualifiedName(QualifiedName<'tree>),
    String(String<'tree>),
    Unary(Unary<'tree>),
}

impl<'tree> Binary_Boolean_Call_Divert_Else_Identifier_ListValues_Number_Paren_Postfix_QualifiedName_String_Unary<'tree> {
    /// The kinds of the nodes of this type.
    pub const KIND: &'static str = "{binary | boolean | call | divert | else | identifier | list_values | number | paren | postfix | qualified_name | string | unary}";

    /// Returns the node if it is of kind `binary` ([Binary]), otherwise returns None
    pub fn binary(self) -> (r: Option<Binary<'tree>>)
        ensures
            match self {
                Self::Binary(x) => r == Some(x),
                _ => r is None,
            },
    {
        match self {
            Self::Binary(x) => Some(x),
            _ => None,
        }
    }

    /// Returns the node if it is of kind `boolean` ([Boolean]), otherwise returns None
    pub fn boolean(self) -> (r: Option<Boolean<'tree>>)
        ensures
            match self {
                Self::Boolean(x) => r == Some(x),
                _ => r is None,
            },
    {
        match self {
            Self::Boolean(x) => Some(x),
            _ => None,
        }
    }

    /// Returns the node if it is of kind `call` ([Call]), otherwise returns None
    pub fn call(self) -> (r: Option<Call<'tree>>)
        ensures
            match self {
                Self::Call(x) => r == Some(x),
                _ => r is None,
            },
    {
        match self {
            Self::Call(x) => Some(x),
            _ => None,
        }
    }

    /// Returns the node if it is of kind `divert` ([Divert]), otherwise returns None
    pub fn divert(self) -> (r: Option<Divert<'tree>>)
        ensures
            match self {
                Self::Divert(x) => r == Some(x),
                _ => r is None,
            },
    {
        match self {
            Self::Divert(x) => Some(x),
            _ => None,
        }
    }

    /// Returns the node if it is of kind `else` ([Else]), otherwise returns None
    pub fn else_node(self) -> (r: Option<Else<'tree>>)
        ensures
            match self {
                Self::Else(x) => r == Some(x),
                _ => r is None,
            },
    {
        match self {
            Self::Else(x) => Some(x),
            _ => None,
        }
    }

    /// Returns the node if it is of kind `identifier` ([Identifier]), otherwise returns None
    pub fn identifier(self) -> (r: Option<Identifier<'tree>>)
        ensures
            match self {
                Self::Identifier(x) => r == Some(x),
                _ => r is None,
            },
    {
        match self {
            Self::Identifier(x) => Some(x),
            _ => None,
        }
    }

    /// Returns the node if it is of kind `list_values` ([ListValues]), otherwise returns None
    pub fn list_values(self) -> (r: Option<ListValues<'tree>>)
        ensures
            match self {
                Self::ListValues(x) => r == Some(x),
                _ => r is None,
            },
    {
        match self {
            Self::ListValues(x) => Some(x),
            _ => None,
        }
    }

    /// Returns the node if it is of kind `number` ([Number]), otherwise returns None
    pub fn number(self) -> (r: Option<Number<'tree>>)
        ensures
            match self {
                Self::Number(x) => r == Some(x),
                _ => r is None,
            },
    {
        match self {
            Self::Number(x) => Some(x),
            _ => None,
        }
    }

    /// Returns the node if it is of kind `paren` ([Paren]), otherwise returns None
    pub fn paren(self) -> (r: Option<Paren<'tree>>)
        ensures
            match self {
                Self::Paren(x) => r == Some(x),
                _ => r is None,
            },
    {
        match self {
            Self::Paren(x) => Some(x),
            _ => None,
        }
    }

    /// Returns the node if it is of kind `postfix` ([Postfix]), otherwise returns None
    pub fn postfix(self) -> (r: Option<Postfix<'tree>>)
        ensures
            match self {
                Self::Postfix(x) => r == Some(x),
                _ => r is None,
            },
    {
        match self {
            Self::Postfix(x) => Some(x),
            _ => None,
        }
    }

    /// Returns the node if it is of kind `qualified_name` ([QualifiedName]), otherwise returns None
    pub fn qualified_name(self) -> (r: Option<QualifiedName<'tree>>)
        ensures
            match self {
                Self::QualifiedName(x) => r == Some(x),
                _ => r is None,
            },
    {
        match self {
            Self::QualifiedName(x) => Some(x),
            _ => None,
        }
    }

    /// Returns the node if it is of kind `string` ([String]), otherwise returns None
    pub fn string(self) -> (r: Option<String<'tree>>)
        ensures
            match self {
                Self::String(x) => r == Some(x),
                _ => r is None,
            },
    {
        match self {
            Self::String(x) => Some(x),
            _ => None,
        }
    }

    /// Returns the node if it is of kind `unary` ([Unary]), otherwise returns None
    pub fn unary(self) -> (r: Option<Unary<'tree>>)
        ensures
            match self {
                Self::Unary(x) => r == Some(x),
                _ => r is None,
            },
    {
        match self {
            Self::Unary(x) => Some(x),
            _ => None,
        }
    }

    /// The underlying node, whichever the variant.
    pub open spec fn spec_node(self) -> &'tree SyntaxNode {
        match self {
            Self::Binary(x) => x.0,
            Self::Boolean(x) => x.0,
            Self::Call(x) => x.0,
            Self::Divert(x) => x.0,
            Self::Else(x) => x.0,
            Self::Identifier(x) => x.0,
            Self::ListValues(x) => x.0,
            Self::Number(x) => x.0,
            Self::Paren(x) => x.0,
            Self::Postfix(x) => x.0,
            Self::QualifiedName(x) => x.0,
            Self::String(x) => x.0,
            Self::Unary(x) => x.0,
        }
    }

    /// The underlying node.
    pub fn node(&self) -> (r: &&'tree SyntaxNode)
        ensures
            *r == self.spec_node(),
    {
        match self {
            Self::Binary(x) => x.node(),
            Self::Boolean(x) => x.node(),
            Self::Call(x) => x.node(),
            Self::Divert(x) => x.node(),
            Self::Else(x) => x.node(),
            Self::Identifier(x) => x.node(),
            Self::ListValues(x) => x.node(),
            Self::Number(x) => x.node(),
            Self::Paren(x) => x.node(),
            Self::Postfix(x) => x.node(),
            Self::QualifiedName(x) => x.node(),
            Self::String(x) => x.node(),
            Self::Unary(x) => x.node(),
        }
    }

    /// The underlying node, to replace in place.
    pub fn node_mut(&mut self) -> (r: &mut &'tree SyntaxNode)
        ensures
            *r == old(self).spec_node(),
            final(self).spec_node() == *final(r),
            (*old(self)) is Binary ==> (*final(self)) is Binary,
            (*old(self)) is Boolean ==> (*final(self)) is Boolean,
            (*old(self)) is Call ==> (*final(self)) is Call,
            (*old(self)) is Divert ==> (*final(self)) is Divert,
            (*old(self)) is Else ==> (*final(self)) is Else,
            (*old(self)) is Identifier ==> (*final(self)) is Identifier,
            (*old(self)) is ListValues ==> (*final(self)) is ListValues,
            (*old(self)) is Number ==> (*final(self)) is Number,
            (*old(self)) is Paren ==> (*final(self)) is Paren,
            (*old(self)) is Postfix ==> (*final(self)) is Postfix,
            (*old(self)) is QualifiedName ==> (*final(self)) is QualifiedName,
            (*old(self)) is String ==> (*final(self)) is String,
            (*old(self)) is Unary ==> (*final(self)) is Unary,
    {
        match self {
            Self::Binary(x) => x.node_mut(),
            Self::Boolean(x) => x.node_mut(),
            Self::Call(x) => x.node_mut(),
            Self::Divert(x) => x.node_mut(),
            Self::Else(x) => x.node_mut(),
            Self::Identifier(x) => x.node_mut(),
            Self::ListValues(x) => x.node_mut(),
            Self::Number(x) => x.node_mut(),
            Self::Paren(x) => x.node_mut(),
            Self::Postfix(x) => x.node_mut(),
            Self::QualifiedName(x) => x.node_mut(),
            Self::String(x) => x.node_mut(),
            Self::Unary(x) => x.node_mut(),
        }
    }

    /// The underlying node, giving up the typed view.
    pub fn into_node(self) -> (r: &'tree SyntaxNode)
        ensures
            r == self.spec_node(),
    {
        match self {
            Self::Binary(x) => x.into_node(),
            Self::Boolean(x) => x.into_node(),
            Self::Call(x) => x.into_node(),
            Self::Divert(x) => x.into_node(),
            Self::Else(x) => x.into_node(),
            Self::Identifier(x) => x.into_node(),
            Self::ListValues(x) => x.into_node(),
            Self::Number(x) => x.into_node(),
            Self::Paren(x) => x.into_node(),
            Self::Postfix(x) => x.into_node(),
            Self::QualifiedName(x) => x.into_node(),
            Self::String(x) => x.into_node(),
            Self::Unary(x) => x.into_node(),
        }
    }
}

impl<'tree> TryFrom<&'tree SyntaxNode> for Binary_Boolean_Call_Divert_Else_Identifier_ListValues_Number_Paren_Postfix_QualifiedName_String_Unary<'tree> {
    type Error = IncorrectKind<'tree>;

    /// Views `node` as the variant for its kind, if it has one of this type's kinds.
    fn try_from(node: &'tree SyntaxNode) -> (r: NodeResult<'tree, Self>)
        ensures
            r is Ok <==> (
                node.kind@ == "binary"@
                || node.kind@ == "boolean"@
                || node.kind@ == "call"@
                || node.kind@ == "divert"@
                || node.kind@ == "else"@
                || node.kind@ == "identifier"@
                || node.kind@ == "list_values"@
                || node.kind@ == "number"@
                || node.kind@ == "paren"@
                || node.kind@ == "postfix"@
                || node.kind@ == "qualified_name"@
                || node.kind@ == "string"@
                || node.kind@ == "unary"@
            ),
            r matches Ok(Self::Binary(x)) ==> node.kind@ == "binary"@ && x == Binary(node),
            r matches Ok(Self::Boolean(x)) ==> node.kind@ == "boolean"@ && x == Boolean(node),
            r matches Ok(Self::Call(x)) ==> node.kind@ == "call"@ && x == Call(node),
            r matches Ok(Self::Divert(x)) ==> node.kind@ == "divert"@ && x == Divert(node),
            r matches Ok(Self::Else(x)) ==> node.kind@ == "else"@ && x == Else(node),
            r matches Ok(Self::Identifier(x)) ==> node.kind@ == "identifier"@ && x == Identifier(node),
            r matches Ok(Self::ListValues(x)) ==> node.kind@ == "list_values"@ && x == ListValues(node),
            r matches Ok(Self::Number(x)) ==> node.kind@ == "number"@ && x == Number(node),
            r matches Ok(Self::Paren(x)) ==> node.kind@ == "paren"@ && x == Paren(node),
            r matches Ok(Self::Postfix(x)) ==> node.kind@ == "postfix"@ && x == Postfix(node),
            r matches Ok(Self::QualifiedName(x)) ==> node.kind@ == "qualified_name"@ && x == QualifiedName(node),
            r matches Ok(Self::String(x)) ==> node.kind@ == "string"@ && x == String(node),
            r matches Ok(Self::Unary(x)) ==> node.kind@ == "unary"@ && x == Unary(node),
            r is Err ==> r == Err::<Self, IncorrectKind<'tree>>(IncorrectKind { node, kind: Self::KIND }),
    {
        if str_eq(node.kind, "binary") {
            Ok(Self::Binary(Binary::from_node_unchecked(node)))
        } else if str_eq(node.kind, "boolean") {
            Ok(Self::Boolean(Boolean::from_node_unchecked(node)))
        } else if str_eq(node.kind, "call") {
            Ok(Self::Call(Call::from_node_unchecked(node)))
        } else if str_eq(node.kind, "divert") {
            Ok(Self::Divert(Divert::from_node_unchecked(node)))
        } else if str_eq(node.kind, "else") {
            Ok(Self::Else(Else::from_node_unchecked(node)))
        } else if str_eq(node.kind, "identifier") {
            Ok(Self::Identifier(Identifier::from_node_unchecked(node)))
        } else if str_eq(node.kind, "list_values") {
            Ok(Self::ListValues(ListValues::from_node_unchecked(node)))
        } else if str_eq(node.kind, "number") {
            Ok(Self::Number(Number::from_node_unchecked(node)))
        } else if str_eq(node.kind, "paren") {
            Ok(Self::Paren(Paren::from_node_unchecked(node)))
        } else if str_eq(node.kind, "postfix") {
            Ok(Self::Postfix(Postfix::from_node_unchecked(node)))
        } else if str_eq(node.kind, "qualified_name") {
            Ok(Self::QualifiedName(QualifiedName::from_node_unchecked(node)))
        } else if str_eq(node.kind, "string") {
            Ok(Self::String(String::from_node_unchecked(node)))
        } else if str_eq(node.kind, "unary") {
            Ok(Self::Unary(Unary::from_node_unchecked(node)))
        } else {
            Err(IncorrectKind { node, kind: Self::KIND })
        }
    }
}

impl<'tree> TryFromSpecImpl<&'tree SyntaxNode> for Binary_Boolean_Call_Divert_Else_Identifier_ListValues_Number_Paren_Postfix_QualifiedName_String_Unary<'tree> {
    open spec fn obeys_try_from_spec() -> bool {
        true
    }

    open spec fn try_from_spec(node: &'tree SyntaxNode) -> NodeResult<'tree, Self> {
        if node.kind@ == "binary"@ {
            Ok(Self::Binary(Binary(node)))
        } else if node.kind@ == "boolean"@ {
            Ok(Self::Boolean(Boolean(node)))
        } else if node.kind@ == "call"@ {
            Ok(Self::Call(Call(node)))
        } else if node.kind@ == "divert"@ {
            Ok(Self::Divert(Divert(node)))
        } else if node.kind@ == "else"@ {
            Ok(Self::Else(Else(node)))
        } else if node.kind@ == "identifier"@ {
            Ok(Self::Identifier(Identifier(node)))
        } else if node.kind@ == "list_values"@ {
            Ok(Self::ListValues(ListValues(node)))
        } else if node.kind@ == "number"@ {
            Ok(Self::Number(Number(node)))
        } else if node.kind@ == "paren"@ {
            Ok(Self::Paren(Paren(node)))
        } else if node.kind@ == "postfix"@ {
            Ok(Self::Postfix(Postfix(node)))
        } else if node.kind@ == "qualified_name"@ {
            Ok(Self::QualifiedName(QualifiedName(node)))
        } else if node.kind@ == "string"@ {
            Ok(Self::String(String(node)))
        } else if node.kind@ == "unary"@ {
            Ok(Self::Unary(Unary(node)))
        } else {
            Err(IncorrectKind { node, kind: Self::KIND })
        }
    }
}

/// one of `{content | binary | boolean | call | divert | identifier | list_values | number | paren | postfix | qualified_name | string | unary}`:
/// - [Content]
/// - [Binary]
/// - [Boolean]
/// - [Call]
/// - [Divert]
/// - [Identifier]
/// - [ListValues]
/// - [Number]
/// - [Paren]
/// - [Postfix]
/// - [QualifiedName]
/// - [String]
/// - [Unary]
#[derive(Debug, Clone, Copy, PartialEq, Eq, Hash)]
#[allow(non_camel_case_types)]
pub enum Content_Binary_Boolean_Call_Divert_Identifier_ListValues_Number_Paren_Postfix_QualifiedName_String_Unary<'tree> {
    Content(Content<'tree>),
    Binary(Binary<'tree>),
    Boolean(Boolean<'tree>),
    Call(Call<'tree>),
    Divert(Divert<'tree>),
    Identifier(Identifier<'tree>),
    ListValues(ListValues<'tree>),
    Number(Number<'tree>),
    Paren(Paren<'tree>),
    Postfix(Postfix<'tree>),
    QualifiedName(QualifiedName<'tree>),
    String(String<'tree>),
    Unary(Unary<'tree>),
}

impl<'tree> Content_Binary_Boolean_Call_Divert_Identifier_ListValues_Number_Paren_Postfix_QualifiedName_String_Unary<'tree> {
    /// The kinds of the nodes of this type.
    pub const KIND: &'static str = "{content | binary | boolean | call | divert | identifier | list_values | number | paren | postfix | qualified_name | string | unary}";

    /// Returns the node if it is of kind `content` ([Content]), otherwise returns None
    pub fn content(self) -> (r: Option<Content<'tree>>)
        ensures
            match self {
                Self::Content(x) => r == Some(x),
                _ => r is None,
            },
    {
        match self {
            Self::Content(x) => Some(x),
            _ => None,
        }
    }

    /// Returns the node if it is of kind `binary` ([Binary]), otherwise returns None
    pub fn binary(self) -> (r: Option<Binary<'tree>>)
        ensures
            match self {
                Self::Binary(x) => r == Some(x),
                _ => r is None,
            },
    {
        match self {
            Self::Binary(x) => Some(x),
            _ => None,
        }
    }

    /// Returns the node if it is of kind `boolean` ([Boolean]), otherwise returns None
    pub fn boolean(self) -> (r: Option<Boolean<'tree>>)
        ensures
            match self {
                Self::Boolean(x) => r == Some(x),
                _ => r is None,
            },
    {
        match self {
            Self::Boolean(x) => Some(x),
            _ => None,
        }
    }

    /// Returns the node if it is of kind `call` ([Call]), otherwise returns None
    pub fn call(self) -> (r: Option<Call<'tree>>)
        ensures
            match self {
                Self::Call(x) => r == Some(x),
                _ => r is None,
            },
    {
        match self {
            Self::Call(x) => Some(x),
            _ => None,
        }
    }

    /// Returns the node if it is of kind `divert` ([Divert]), otherwise returns None
    pub fn divert(self) -> (r: Option<Divert<'tree>>)
        ensures
            match self {
                Self::Divert(x) => r == Some(x),
                _ => r is None,
            },
    {
        match self {
            Self::Divert(x) => Some(x),
            _ => None,
        }
    }

    /// Returns the node if it is of kind `identifier` ([Identifier]), otherwise returns None
    pub fn identifier(self) -> (r: Option<Identifier<'tree>>)
        ensures
            match self {
                Self::Identifier(x) => r == Some(x),
                _ => r is None,
            },
    {
        match self {
            Self::Identifier(x) => Some(x),
            _ => None,
        }
    }

    /// Returns the node if it is of kind `list_values` ([ListValues]), otherwise returns None
    pub fn list_values(self) -> (r: Option<ListValues<'tree>>)
        ensures
            match self {
                Self::ListValues(x) => r == Some(x),
                _ => r is None,
            },
    {
        match self {
            Self::ListValues(x) => Some(x),
            _ => None,
        }
    }

    /// Returns the node if it is of kind `number` ([Number]), otherwise returns None
    pub fn number(self) -> (r: Option<Number<'tree>>)
        ensures
            match self {
                Self::Number(x) => r == Some(x),
                _ => r is None,
            },
    {
        match self {
            Self::Number(x) => Some(x),
            _ => None,
        }
    }

    /// Returns the node if it is of kind `paren` ([Paren]), otherwise returns None
    pub fn paren(self) -> (r: Option<Paren<'tree>>)
        ensures
            match self {
                Self::Paren(x) => r == Some(x),
                _ => r is None,
            },
    {
        match self {
            Self::Paren(x) => Some(x),
            _ => None,
        }
    }

    /// Returns the node if it is of kind `postfix` ([Postfix]), otherwise returns None
    pub fn postfix(self) -> (r: Option<Postfix<'tree>>)
        ensures
            match self {
                Self::Postfix(x) => r == Some(x),
                _ => r is None,
            },
    {
        match self {
            Self::Postfix(x) => Some(x),
            _ => None,
        }
    }

    /// Returns the node if it is of kind `qualified_name` ([QualifiedName]), otherwise returns None
    pub fn qualified_name(self) -> (r: Option<QualifiedName<'tree>>)
        ensures
            match self {
                Self::QualifiedName(x) => r == Some(x),
                _ => r is None,
            },
    {
        match self {
            Self::QualifiedName(x) => Some(x),
            _ => None,
        }
    }

    /// Returns the node if it is of kind `string` ([String]), otherwise returns None
    pub fn string(self) -> (r: Option<String<'tree>>)
        ensures
            match self {
                Self::String(x) => r == Some(x),
                _ => r is None,
            },
    {
        match self {
            Self::String(x) => Some(x),
            _ => None,
        }
    }

    /// Returns the node if it is of kind `unary` ([Unary]), otherwise returns None
    pub fn unary(self) -> (r: Option<Unary<'tree>>)
        ensures
            match self {
                Self::Unary(x) => r == Some(x),
                _ => r is None,
            },
    {
        match self {
            Self::Unary(x) => Some(x),
            _ => None,
        }
    }

    /// The underlying node, whichever the variant.
    pub open spec fn spec_node(self) -> &'tree SyntaxNode {
        match self {
            Self::Content(x) => x.0,
            Self::Binary(x) => x.0,
            Self::Boolean(x) => x.0,
            Self::Call(x) => x.0,
            Self::Divert(x) => x.0,
            Self::Identifier(x) => x.0,
            Self::ListValues(x) => x.0,
            Self::Number(x) => x.0,
            Self::Paren(x) => x.0,
            Self::Postfix(x) => x.0,
            Self::QualifiedName(x) => x.0,
            Self::String(x) => x.0,
            Self::Unary(x) => x.0,
        }
    }

    /// The underlying node.
    pub fn node(&self) -> (r: &&'tree SyntaxNode)
        ensures
            *r == self.spec_node(),
    {
        match self {
            Self::Content(x) => x.node(),
            Self::Binary(x) => x.node(),
            Self::Boolean(x) => x.node(),
            Self::Call(x) => x.node(),
            Self::Divert(x) => x.node(),
            Self::Identifier(x) => x.node(),
            Self::ListValues(x) => x.node(),
            Self::Number(x) => x.node(),
            Self::Paren(x) => x.node(),
            Self::Postfix(x) => x.node(),
            Self::QualifiedName(x) => x.node(),
            Self::String(x) => x.node(),
            Self::Unary(x) => x.node(),
        }
    }

    /// The underlying node, to replace in place.
    pub fn node_mut(&mut self) -> (r: &mut &'tree SyntaxNode)
        ensures
            *r == old(self).spec_node(),
            final(self).spec_node() == *final(r),
            (*old(self)) is Content ==> (*final(self)) is Content,
            (*old(self)) is Binary ==> (*final(self)) is Binary,
            (*old(self)) is Boolean ==> (*final(self)) is Boolean,
            (*old(self)) is Call ==> (*final(self)) is Call,
            (*old(self)) is Divert ==> (*final(self)) is Divert,
            (*old(self)) is Identifier ==> (*final(self)) is Identifier,
            (*old(self)) is ListValues ==> (*final(self)) is ListValues,
            (*old(self)) is Number ==> (*final(self)) is Number,
            (*old(self)) is Paren ==> (*final(self)) is Paren,
            (*old(self)) is Postfix ==> (*final(self)) is Postfix,
            (*old(self)) is QualifiedName ==> (*final(self)) is QualifiedName,
            (*old(self)) is String ==> (*final(self)) is String,
            (*old(self)) is Unary ==> (*final(self)) is Unary,
    {
        match self {
            Self::Content(x) => x.node_mut(),
            Self::Binary(x) => x.node_mut(),
            Self::Boolean(x) => x.node_mut(),
            Self::Call(x) => x.node_mut(),
            Self::Divert(x) => x.node_mut(),
            Self::Identifier(x) => x.node_mut(),
            Self::ListValues(x) => x.node_mut(),
            Self::Number(x) => x.node_mut(),
            Self::Paren(x) => x.node_mut(),
            Self::Postfix(x) => x.node_mut(),
            Self::QualifiedName(x) => x.node_mut(),
            Self::String(x) => x.node_mut(),
            Self::Unary(x) => x.node_mut(),
        }
    }

    /// The underlying node, giving up the typed view.
    pub fn into_node(self) -> (r: &'tree SyntaxNode)
        ensures
            r == self.spec_node(),
    {
        match self {
            Self::Content(x) => x.into_node(),
            Self::Binary(x) => x.into_node(),
            Self::Boolean(x) => x.into_node(),
            Self::Call(x) => x.into_node(),
            Self::Divert(x) => x.into_node(),
            Self::Identifier(x) => x.into_node(),
            Self::ListValues(x) => x.into_node(),
            Self::Number(x) => x.into_node(),
            Self::Paren(x) => x.into_node(),
            Self::Postfix(x) => x.into_node(),
            Self::QualifiedName(x) => x.into_node(),
            Self::String(x) => x.into_node(),
            Self::Unary(x) => x.into_node(),
        }
    }
}

impl<'tree> TryFrom<&'tree SyntaxNode> for Content_Binary_Boolean_Call_Divert_Identifier_ListValues_Number_Paren_Postfix_QualifiedName_String_Unary<'tree> {
    type Error = IncorrectKind<'tree>;

    /// Views `node` as the variant for its kind, if it has one of this type's kinds.
    fn try_from(node: &'tree SyntaxNode) -> (r: NodeResult<'tree, Self>)
        ensures
            r is Ok <==> (
                node.kind@ == "content"@
                || node.kind@ == "binary"@
                || node.kind@ == "boolean"@
                || node.kind@ == "call"@
                || node.kind@ == "divert"@
                || node.kind@ == "identifier"@
                || node.kind@ == "list_values"@
                || node.kind@ == "number"@
                || node.kind@ == "paren"@
                || node.kind@ == "postfix"@
                || node.kind@ == "qualified_name"@
                || node.kind@ == "string"@
                || node.kind@ == "unary"@
            ),
            r matches Ok(Self::Content(x)) ==> node.kind@ == "content"@ && x == Content(node),
            r matches Ok(Self::Binary(x)) ==> node.kind@ == "binary"@ && x == Binary(node),
            r matches Ok(Self::Boolean(x)) ==> node.kind@ == "boolean"@ && x == Boolean(node),
            r matches Ok(Self::Call(x)) ==> node.kind@ == "call"@ && x == Call(node),
            r matches Ok(Self::Divert(x)) ==> node.kind@ == "divert"@ && x == Divert(node),
            r matches Ok(Self::Identifier(x)) ==> node.kind@ == "identifier"@ && x == Identifier(node),
            r matches Ok(Self::ListValues(x)) ==> node.kind@ == "list_values"@ && x == ListValues(node),
            r matches Ok(Self::Number(x)) ==> node.kind@ == "number"@ && x == Number(node),
            r matches Ok(Self::Paren(x)) ==> node.kind@ == "paren"@ && x == Paren(node),
            r matches Ok(Self::Postfix(x)) ==> node.kind@ == "postfix"@ && x == Postfix(node),
            r matches Ok(Self::QualifiedName(x)) ==> node.kind@ == "qualified_name"@ && x == QualifiedName(node),
            r matches Ok(Self::String(x)) ==> node.kind@ == "string"@ && x == String(node),
            r matches Ok(Self::Unary(x)) ==> node.kind@ == "unary"@ && x == Unary(node),
            r is Err ==> r == Err::<Self, IncorrectKind<'tree>>(IncorrectKind { node, kind: Self::KIND }),
    {
        if str_eq(node.kind, "content") {
            Ok(Self::Content(Content::from_node_unchecked(node)))
        } else if str_eq(node.kind, "binary") {
            Ok(Self::Binary(Binary::from_node_unchecked(node)))
        } else if str_eq(node.kind, "boolean") {
            Ok(Self::Boolean(Boolean::from_node_unchecked(node)))
        } else if str_eq(node.kind, "call") {
            Ok(Self::Call(Call::from_node_unchecked(node)))
        } else if str_eq(node.kind, "divert") {
            Ok(Self::Divert(Divert::from_node_unchecked(node)))
        } else if str_eq(node.kind, "identifier") {
            Ok(Self::Identifier(Identifier::from_node_unchecked(node)))
        } else if str_eq(node.kind, "list_values") {
            Ok(Self::ListValues(ListValues::from_node_unchecked(node)))
        } else if str_eq(node.kind, "number") {
            Ok(Self::Number(Number::from_node_unchecked(node)))
        } else if str_eq(node.kind, "paren") {
            Ok(Self::Paren(Paren::from_node_unchecked(node)))
        } else if str_eq(node.kind, "postfix") {
            Ok(Self::Postfix(Postfix::from_node_unchecked(node)))
        } else if str_eq(node.kind, "qualified_name") {
            Ok(Self::QualifiedName(QualifiedName::from_node_unchecked(node)))
        } else if str_eq(node.kind, "string") {
            Ok(Self::String(String::from_node_unchecked(node)))
        } else if str_eq(node.kind, "unary") {
            Ok(Self::Unary(Unary::from_node_unchecked(node)))
        } else {
            Err(IncorrectKind { node, kind: Self::KIND })
        }
    }
}

impl<'tree> TryFromSpecImpl<&'tree SyntaxNode> for Content_Binary_Boolean_Call_Divert_Identifier_ListValues_Number_Paren_Postfix_QualifiedName_String_Unary<'tree> {
    open spec fn obeys_try_from_spec() -> bool {
        true
    }

    open spec fn try_from_spec(node: &'tree SyntaxNode) -> NodeResult<'tree, Self> {
        if node.kind@ == "content"@ {
            Ok(Self::Content(Content(node)))
        } else if node.kind@ == "binary"@ {
            Ok(Self::Binary(Binary(node)))
        } else if node.kind@ == "boolean"@ {
            Ok(Self::Boolean(Boolean(node)))
        } else if node.kind@ == "call"@ {
            Ok(Self::Call(Call(node)))
        } else if node.kind@ == "divert"@ {
            Ok(Self::Divert(Divert(node)))
        } else if node.kind@ == "identifier"@ {
            Ok(Self::Identifier(Identifier(node)))
        } else if node.kind@ == "list_values"@ {
            Ok(Self::ListValues(ListValues(node)))
        } else if node.kind@ == "number"@ {
            Ok(Self::Number(Number(node)))
        } else if node.kind@ == "paren"@ {
            Ok(Self::Paren(Paren(node)))
        } else if node.kind@ == "postfix"@ {
            Ok(Self::Postfix(Postfix(node)))
        } else if node.kind@ == "qualified_name"@ {
            Ok(Self::QualifiedName(QualifiedName(node)))
        } else if node.kind@ == "string"@ {
            Ok(Self::String(String(node)))
        } else if node.kind@ == "unary"@ {
            Ok(Self::Unary(Unary(node)))
        } else {
            Err(IncorrectKind { node, kind: Self::KIND })
        }
    }
}

/// one of `{alternatives | cond_block | conditional_text | divert | eval | glue | multiline_alternatives | tag | text | thread | tunnel}`:
/// - [Alternatives]
/// - [CondBlock]
/// - [ConditionalText]
/// - [Divert]
/// - [Eval]
/// - [Glue]
/// - [MultilineAlternatives]
/// - [Tag]
/// - [Text]
/// - [Thread]
/// - [Tunnel]
#[derive(Debug, Clone, Copy, PartialEq, Eq, Hash)]
#[allow(non_camel_case_types)]
pub enum Alternatives_CondBlock_ConditionalText_Divert_Eval_Glue_MultilineAlternatives_Tag_Text_Thread_Tunnel<'tree> {
    Alternatives(Alternatives<'tree>),
    CondBlock(CondBlock<'tree>),
    ConditionalText(ConditionalText<'tree>),
    Divert(Divert<'tree>),
    Eval(Eval<'tree>),
    Glue(Glue<'tree>),
    MultilineAlternatives(MultilineAlternatives<'tree>),
    Tag(Tag<'tree>),
    Text(Text<'tree>),
    Thread(Thread<'tree>),
    Tunnel(Tunnel<'tree>),
}

impl<'tree> Alternatives_CondBlock_ConditionalText_Divert_Eval_Glue_MultilineAlternatives_Tag_Text_Thread_Tunnel<'tree> {
    /// The kinds of the nodes of this type.
    pub const KIND: &'static str = "{alternatives | cond_block | conditional_text | divert | eval | glue | multiline_alternatives | tag | text | thread | tunnel}";

    /// Returns the node if it is of kind `alternatives` ([Alternatives]), otherwise returns None
    pub fn alternatives(self) -> (r: Option<Alternatives<'tree>>)
        ensures
            match self {
                Self::Alternatives(x) => r == Some(x),
                _ => r is None,
            },
    {
        match self {
            Self::Alternatives(x) => Some(x),
            _ => None,
        }
    }

    /// Returns the node if it is of kind `cond_block` ([CondBlock]), otherwise returns None
    pub fn cond_block(self) -> (r: Option<CondBlock<'tree>>)
        ensures
            match self {
                Self::CondBlock(x) => r == Some(x),
                _ => r is None,
            },
    {
        match self {
            Self::CondBlock(x) => Some(x),
            _ => None,
        }
    }

    /// Returns the node if it is of kind `conditional_text` ([ConditionalText]), otherwise returns None
    pub fn conditional_text(self) -> (r: Option<ConditionalText<'tree>>)
        ensures
            match self {
                Self::ConditionalText(x) => r == Some(x),
                _ => r is None,
            },
    {
        match self {
            Self::ConditionalText(x) => Some(x),
            _ => None,
        }
    }

    /// Returns the node if it is of kind `divert` ([Divert]), otherwise returns None
    pub fn divert(self) -> (r: Option<Divert<'tree>>)
        ensures
            match self {
                Self::Divert(x) => r == Some(x),
                _ => r is None,
            },
    {
        match self {
            Self::Divert(x) => Some(x),
            _ => None,
        }
    }

    /// Returns the node if it is of kind `eval` ([Eval]), otherwise returns None
    pub fn eval(self) -> (r: Option<Eval<'tree>>)
        ensures
            match self {
                Self::Eval(x) => r == Some(x),
                _ => r is None,
            },
    {
        match self {
            Self::Eval(x) => Some(x),
            _ => None,
        }
    }

    /// Returns the node if it is of kind `glue` ([Glue]), otherwise returns None
    pub fn glue(self) -> (r: Option<Glue<'tree>>)
        ensures
            match self {
                Self::Glue(x) => r == Some(x),
                _ => r is None,
            },
    {
        match self {
            Self::Glue(x) => Some(x),
            _ => None,
        }
    }

    /// Returns the node if it is of kind `multiline_alternatives` ([MultilineAlternatives]), otherwise returns None
    pub fn multiline_alternatives(self) -> (r: Option<MultilineAlternatives<'tree>>)
        ensures
            match self {
                Self::MultilineAlternatives(x) => r == Some(x),
                _ => r is None,
            },
    {
        match self {
            Self::MultilineAlternatives(x) => Some(x),
            _ => None,
        }
    }

    /// Returns the node if it is of kind `tag` ([Tag]), otherwise returns None
    pub fn tag(self) -> (r: Option<Tag<'tree>>)
        ensures
            match self {
                Self::Tag(x) => r == Some(x),
                _ => r is None,
            },
    {
        match self {
            Self::Tag(x) => Some(x),
            _ => None,
        }
    }

    /// Returns the node if it is of kind `text` ([Text]), otherwise returns None
    pub fn text(self) -> (r: Option<Text<'tree>>)
        ensures
            match self {
                Self::Text(x) => r == Some(x),
                _ => r is None,
            },
    {
        match self {
            Self::Text(x) => Some(x),
            _ => None,
        }
    }

    /// Returns the node if it is of kind `thread` ([Thread]), otherwise returns None
    pub fn thread(self) -> (r: Option<Thread<'tree>>)
        ensures
            match self {
                Self::Thread(x) => r == Some(x),
                _ => r is None,
            },
    {
        match self {
            Self::Thread(x) => Some(x),
            _ => None,
        }
    }

    /// Returns the node if it is of kind `tunnel` ([Tunnel]), otherwise returns None
    pub fn tunnel(self) -> (r: Option<Tunnel<'tree>>)
        ensures
            match self {
                Self::Tunnel(x) => r == Some(x),
                _ => r is None,
            },
    {
        match self {
            Self::Tunnel(x) => Some(x),
            _ => None,
        }
    }

    /// The underlying node, whichever the variant.
    pub open spec fn spec_node(self) -> &'tree SyntaxNode {
        match self {
            Self::Alternatives(x) => x.0,
            Self::CondBlock(x) => x.0,
            Self::ConditionalText(x) => x.0,
            Self::Divert(x) => x.0,
            Self::Eval(x) => x.0,
            Self::Glue(x) => x.0,
            Self::MultilineAlternatives(x) => x.0,
            Self::Tag(x) => x.0,
            Self::Text(x) => x.0,
            Self::Thread(x) => x.0,
            Self::Tunnel(x) => x.0,
        }
    }

    /// The underlying node.
    pub fn node(&self) -> (r: &&'tree SyntaxNode)
        ensures
            *r == self.spec_node(),
    {
        match self {
            Self::Alternatives(x) => x.node(),
            Self::CondBlock(x) => x.node(),
            Self::ConditionalText(x) => x.node(),
            Self::Divert(x) => x.node(),
            Self::Eval(x) => x.node(),
            Self::Glue(x) => x.node(),
            Self::MultilineAlternatives(x) => x.node(),
            Self::Tag(x) => x.node(),
            Self::Text(x) => x.node(),
            Self::Thread(x) => x.node(),
            Self::Tunnel(x) => x.node(),
        }
    }

    /// The underlying node, to replace in place.
    pub fn node_mut(&mut self) -> (r: &mut &'tree SyntaxNode)
        ensures
            *r == old(self).spec_node(),
            final(self).spec_node() == *final(r),
            (*old(self)) is Alternatives ==> (*final(self)) is Alternatives,
            (*old(self)) is CondBlock ==> (*final(self)) is CondBlock,
            (*old(self)) is ConditionalText ==> (*final(self)) is ConditionalText,
            (*old(self)) is Divert ==> (*final(self)) is Divert,
            (*old(self)) is Eval ==> (*final(self)) is Eval,
            (*old(self)) is Glue ==> (*final(self)) is Glue,
            (*old(self)) is MultilineAlternatives ==> (*final(self)) is MultilineAlternatives,
            (*old(self)) is Tag ==> (*final(self)) is Tag,
            (*old(self)) is Text ==> (*final(self)) is Text,
            (*old(self)) is Thread ==> (*final(self)) is Thread,
            (*old(self)) is Tunnel ==> (*final(self)) is Tunnel,
    {
        match self {
            Self::Alternatives(x) => x.node_mut(),
            Self::CondBlock(x) => x.node_mut(),
            Self::ConditionalText(x) => x.node_mut(),
            Self::Divert(x) => x.node_mut(),
            Self::Eval(x) => x.node_mut(),
            Self::Glue(x) => x.node_mut(),
            Self::MultilineAlternatives(x) => x.node_mut(),
            Self::Tag(x) => x.node_mut(),
            Self::Text(x) => x.node_mut(),
            Self::Thread(x) => x.node_mut(),
            Self::Tunnel(x) => x.node_mut(),
        }
    }

    /// The underlying node, giving up the typed view.
    pub fn into_node(self) -> (r: &'tree SyntaxNode)
        ensures
            r == self.spec_node(),
    {
        match self {
            Self::Alternatives(x) => x.into_node(),
            Self::CondBlock(x) => x.into_node(),
            Self::ConditionalText(x) => x.into_node(),
            Self::Divert(x) => x.into_node(),
            Self::Eval(x) => x.into_node(),
            Self::Glue(x) => x.into_node(),
            Self::MultilineAlternatives(x) => x.into_node(),
            Self::Tag(x) => x.into_node(),
            Self::Text(x) => x.into_node(),
            Self::Thread(x) => x.into_node(),
            Self::Tunnel(x) => x.into_node(),
        }
    }
}

impl<'tree> TryFrom<&'tree SyntaxNode> for Alternatives_CondBlock_ConditionalText_Divert_Eval_Glue_MultilineAlternatives_Tag_Text_Thread_Tunnel<'tree> {
    type Error = IncorrectKind<'tree>;

    /// Views `node` as the variant for its kind, if it has one of this type's kinds.
    fn try_from(node: &'tree SyntaxNode) -> (r: NodeResult<'tree, Self>)
        ensures
            r is Ok <==> (
                node.kind@ == "alternatives"@
                || node.kind@ == "cond_block"@
                || node.kind@ == "conditional_text"@
                || node.kind@ == "divert"@
                || node.kind@ == "eval"@
                || node.kind@ == "glue"@
                || node.kind@ == "multiline_alternatives"@
                || node.kind@ == "tag"@
                || node.kind@ == "text"@
                || node.kind@ == "thread"@
                || node.kind@ == "tunnel"@
            ),
            r matches Ok(Self::Alternatives(x)) ==> node.kind@ == "alternatives"@ && x == Alternatives(node),
            r matches Ok(Self::CondBlock(x)) ==> node.kind@ == "cond_block"@ && x == CondBlock(node),
            r matches Ok(Self::ConditionalText(x)) ==> node.kind@ == "conditional_text"@ && x == ConditionalText(node),
            r matches Ok(Self::Divert(x)) ==> node.kind@ == "divert"@ && x == Divert(node),
            r matches Ok(Self::Eval(x)) ==> node.kind@ == "eval"@ && x == Eval(node),
            r matches Ok(Self::Glue(x)) ==> node.kind@ == "glue"@ && x == Glue(node),
            r matches Ok(Self::MultilineAlternatives(x)) ==> node.kind@ == "multiline_alternatives"@ && x == MultilineAlternatives(node),
            r matches Ok(Self::Tag(x)) ==> node.kind@ == "tag"@ && x == Tag(node),
            r matches Ok(Self::Text(x)) ==> node.kind@ == "text"@ && x == Text(node),
            r matches Ok(Self::Thread(x)) ==> node.kind@ == "thread"@ && x == Thread(node),
            r matches Ok(Self::Tunnel(x)) ==> node.kind@ == "tunnel"@ && x == Tunnel(node),
            r is Err ==> r == Err::<Self, IncorrectKind<'tree>>(IncorrectKind { node, kind: Self::KIND }),
    {
        if str_eq(node.kind, "alternatives") {
            Ok(Self::Alternatives(Alternatives::from_node_unchecked(node)))
        } else if str_eq(node.kind, "cond_block") {
            Ok(Self::CondBlock(CondBlock::from_node_unchecked(node)))
        } else if str_eq(node.kind, "conditional_text") {
            Ok(Self::ConditionalText(ConditionalText::from_node_unchecked(node)))
        } else if str_eq(node.kind, "divert") {
            Ok(Self::Divert(Divert::from_node_unchecked(node)))
        } else if str_eq(node.kind, "eval") {
            Ok(Self::Eval(Eval::from_node_unchecked(node)))
        } else if str_eq(node.kind, "glue") {
            Ok(Self::Glue(Glue::from_node_unchecked(node)))
        } else if str_eq(node.kind, "multiline_alternatives") {
            Ok(Self::MultilineAlternatives(MultilineAlternatives::from_node_unchecked(node)))
        } else if str_eq(node.kind, "tag") {
            Ok(Self::Tag(Tag::from_node_unchecked(node)))
        } else if str_eq(node.kind, "text") {
            Ok(Self::Text(Text::from_node_unchecked(node)))
        } else if str_eq(node.kind, "thread") {
            Ok(Self::Thread(Thread::from_node_unchecked(node)))
        } else if str_eq(node.kind, "tunnel") {
            Ok(Self::Tunnel(Tunnel::from_node_unchecked(node)))
        } else {
            Err(IncorrectKind { node, kind: Self::KIND })
        }
    }
}

impl<'tree> TryFromSpecImpl<&'tree SyntaxNode> for Alternatives_CondBlock_ConditionalText_Divert_Eval_Glue_MultilineAlternatives_Tag_Text_Thread_Tunnel<'tree> {
    open spec fn obeys_try_from_spec() -> bool {
        true
    }

    open spec fn try_from_spec(node: &'tree SyntaxNode) -> NodeResult<'tree, Self> {
        if node.kind@ == "alternatives"@ {
            Ok(Self::Alternatives(Alternatives(node)))
        } else if node.kind@ == "cond_block"@ {
            Ok(Self::CondBlock(CondBlock(node)))
        } else if node.kind@ == "conditional_text"@ {
            Ok(Self::ConditionalText(ConditionalText(node)))
        } else if node.kind@ == "divert"@ {
            Ok(Self::Divert(Divert(node)))
        } else if node.kind@ == "eval"@ {
            Ok(Self::Eval(Eval(node)))
        } else if node.kind@ == "glue"@ {
            Ok(Self::Glue(Glue(node)))
        } else if node.kind@ == "multiline_alternatives"@ {
            Ok(Self::MultilineAlternatives(MultilineAlternatives(node)))
        } else if node.kind@ == "tag"@ {
            Ok(Self::Tag(Tag(node)))
        } else if node.kind@ == "text"@ {
            Ok(Self::Text(Text(node)))
        } else if node.kind@ == "thread"@ {
            Ok(Self::Thread(Thread(node)))
        } else if node.kind@ == "tunnel"@ {
            Ok(Self::Tunnel(Tunnel(node)))
        } else {
            Err(IncorrectKind { node, kind: Self::KIND })
        }
    }
}

/// one of `{choice_block | code | comment | content | external | gather_block | global | include | list | todo_comment}`:
/// - [ChoiceBlock]
/// - [Code]
/// - [Comment]
/// - [Content]
/// - [External]
/// - [GatherBlock]
/// - [Global]
/// - [Include]
/// - [List]
/// - [TodoComment]
#[derive(Debug, Clone, Copy, PartialEq, Eq, Hash)]
#[allow(non_camel_case_types)]
pub enum ChoiceBlock_Code_Comment_Content_External_GatherBlock_Global_Include_List_TodoComment<'tree> {
    ChoiceBlock(ChoiceBlock<'tree>),
    Code(Code<'tree>),
    Comment(Comment<'tree>),
    Content(Content<'tree>),
    External(External<'tree>),
    GatherBlock(GatherBlock<'tree>),
    Global(Global<'tree>),
    Include(Include<'tree>),
    List(List<'tree>),
    TodoComment(TodoComment<'tree>),
}

impl<'tree> ChoiceBlock_Code_Comment_Content_External_GatherBlock_Global_Include_List_TodoComment<'tree> {
    /// The kinds of the nodes of this type.
    pub const KIND: &'static str = "{choice_block | code | comment | content | external | gather_block | global | include | list | todo_comment}";

    /// Returns the node if it is of kind `choice_block` ([ChoiceBlock]), otherwise returns None
    pub fn choice_block(self) -> (r: Option<ChoiceBlock<'tree>>)
        ensures
            match self {
                Self::ChoiceBlock(x) => r == Some(x),
                _ => r is None,
            },
    {
        match self {
            Self::ChoiceBlock(x) => Some(x),
            _ => None,
        }
    }

    /// Returns the node if it is of kind `code` ([Code]), otherwise returns None
    pub fn code(self) -> (r: Option<Code<'tree>>)
        ensures
            match self {
                Self::Code(x) => r == Some(x),
                _ => r is None,
            },
    {
        match self {
            Self::Code(x) => Some(x),
            _ => None,
        }
    }

    /// Returns the node if it is of kind `comment` ([Comment]), otherwise returns None
    pub fn comment(self) -> (r: Option<Comment<'tree>>)
        ensures
            match self {
                Self::Comment(x) => r == Some(x),
                _ => r is None,
            },
    {
        match self {
            Self::Comment(x) => Some(x),
            _ => None,
        }
    }

    /// Returns the node if it is of kind `content` ([Content]), otherwise returns None
    pub fn content(self) -> (r: Option<Content<'tree>>)
        ensures
            match self {
                Self::Content(x) => r == Some(x),
                _ => r is None,
            },
    {
        match self {
            Self::Content(x) => Some(x),
            _ => None,
        }
    }

    /// Returns the node if it is of kind `external` ([External]), otherwise returns None
    pub fn external(self) -> (r: Option<External<'tree>>)
        ensures
            match self {
                Self::External(x) => r == Some(x),
                _ => r is None,
            },
    {
        match self {
            Self::External(x) => Some(x),
            _ => None,
        }
    }

    /// Returns the node if it is of kind `gather_block` ([GatherBlock]), otherwise returns None
    pub fn gather_block(self) -> (r: Option<GatherBlock<'tree>>)
        ensures
            match self {
                Self::GatherBlock(x) => r == Some(x),
                _ => r is None,
            },
    {
        match self {
            Self::GatherBlock(x) => Some(x),
            _ => None,
        }
    }

    /// Returns the node if it is of kind `global` ([Global]), otherwise returns None
    pub fn global(self) -> (r: Option<Global<'tree>>)
        ensures
            match self {
                Self::Global(x) => r == Some(x),
                _ => r is None,
            },
    {
        match self {
            Self::Global(x) => Some(x),
            _ => None,
        }
    }

    /// Returns the node if it is of kind `include` ([Include]), otherwise returns None
    pub fn include_node(self) -> (r: Option<Include<'tree>>)
        ensures
            match self {
                Self::Include(x) => r == Some(x),
                _ => r is None,
            },
    {
        match self {
            Self::Include(x) => Some(x),
            _ => None,
        }
    }

    /// Returns the node if it is of kind `list` ([List]), otherwise returns None
    pub fn list(self) -> (r: Option<List<'tree>>)
        ensures
            match self {
                Self::List(x) => r == Some(x),
                _ => r is None,
            },
    {
        match self {
            Self::List(x) => Some(x),
            _ => None,
        }
    }

    /// Returns the node if it is of kind `todo_comment` ([TodoComment]), otherwise returns None
    pub fn todo_comment(self) -> (r: Option<TodoComment<'tree>>)
        ensures
            match self {
                Self::TodoComment(x) => r == Some(x),
                _ => r is None,
            },
    {
        match self {
            Self::TodoComment(x) => Some(x),
            _ => None,
        }
    }

    /// The underlying node, whichever the variant.
    pub open spec fn spec_node(self) -> &'tree SyntaxNode {
        match self {
            Self::ChoiceBlock(x) => x.0,
            Self::Code(x) => x.0,
            Self::Comment(x) => x.0,
            Self::Content(x) => x.0,
            Self::External(x) => x.0,
            Self::GatherBlock(x) => x.0,
            Self::Global(x) => x.0,
            Self::Include(x) => x.0,
            Self::List(x) => x.0,
            Self::TodoComment(x) => x.0,
        }
    }

    /// The underlying node.
    pub fn node(&self) -> (r: &&'tree SyntaxNode)
        ensures
            *r == self.spec_node(),
    {
        match self {
            Self::ChoiceBlock(x) => x.node(),
            Self::Code(x) => x.node(),
            Self::Comment(x) => x.node(),
            Self::Content(x) => x.node(),
            Self::External(x) => x.node(),
            Self::GatherBlock(x) => x.node(),
            Self::Global(x) => x.node(),
            Self::Include(x) => x.node(),
            Self::List(x) => x.node(),
            Self::TodoComment(x) => x.node(),
        }
    }

    /// The underlying node, to replace in place.
    pub fn node_mut(&mut self) -> (r: &mut &'tree SyntaxNode)
        ensures
            *r == old(self).spec_node(),
            final(self).spec_node() == *final(r),
            (*old(self)) is ChoiceBlock ==> (*final(self)) is ChoiceBlock,
            (*old(self)) is Code ==> (*final(self)) is Code,
            (*old(self)) is Comment ==> (*final(self)) is Comment,
            (*old(self)) is Content ==> (*final(self)) is Content,
            (*old(self)) is External ==> (*final(self)) is External,
            (*old(self)) is GatherBlock ==> (*final(self)) is GatherBlock,
            (*old(self)) is Global ==> (*final(self)) is Global,
            (*old(self)) is Include ==> (*final(self)) is Include,
            (*old(self)) is List ==> (*final(self)) is List,
            (*old(self)) is TodoComment ==> (*final(self)) is TodoComment,
    {
        match self {
            Self::ChoiceBlock(x) => x.node_mut(),
            Self::Code(x) => x.node_mut(),
            Self::Comment(x) => x.node_mut(),
            Self::Content(x) => x.node_mut(),
            Self::External(x) => x.node_mut(),
            Self::GatherBlock(x) => x.node_mut(),
            Self::Global(x) => x.node_mut(),
            Self::Include(x) => x.node_mut(),
            Self::List(x) => x.node_mut(),
            Self::TodoComment(x) => x.node_mut(),
        }
    }

    /// The underlying node, giving up the typed view.
    pub fn into_node(self) -> (r: &'tree SyntaxNode)
        ensures
            r == self.spec_node(),
    {
        match self {
            Self::ChoiceBlock(x) => x.into_node(),
            Self::Code(x) => x.into_node(),
            Self::Comment(x) => x.into_node(),
            Self::Content(x) => x.into_node(),
            Self::External(x) => x.into_node(),
            Self::GatherBlock(x) => x.into_node(),
            Self::Global(x) => x.into_node(),
            Self::Include(x) => x.into_node(),
            Self::List(x) => x.into_node(),
            Self::TodoComment(x) => x.into_node(),
        }
    }
}

impl<'tree> TryFrom<&'tree SyntaxNode> for ChoiceBlock_Code_Comment_Content_External_GatherBlock_Global_Include_List_TodoComment<'tree> {
    type Error = IncorrectKind<'tree>;

    /// Views `node` as the variant for its kind, if it has one of this type's kinds.
    fn try_from(node: &'tree SyntaxNode) -> (r: NodeResult<'tree, Self>)
        ensures
            r is Ok <==> (
                node.kind@ == "choice_block"@
                || node.kind@ == "code"@
                || node.kind@ == "comment"@
                || node.kind@ == "content"@
                || node.kind@ == "external"@
                || node.kind@ == "gather_block"@
                || node.kind@ == "global"@
                || node.kind@ == "include"@
                || node.kind@ == "list"@
                || node.kind@ == "todo_comment"@
            ),
            r matches Ok(Self::ChoiceBlock(x)) ==> node.kind@ == "choice_block"@ && x == ChoiceBlock(node),
            r matches Ok(Self::Code(x)) ==> node.kind@ == "code"@ && x == Code(node),
            r matches Ok(Self::Comment(x)) ==> node.kind@ == "comment"@ && x == Comment(node),
            r matches Ok(Self::Content(x)) ==> node.kind@ == "content"@ && x == Content(node),
            r matches Ok(Self::External(x)) ==> node.kind@ == "external"@ && x == External(node),
            r matches Ok(Self::GatherBlock(x)) ==> node.kind@ == "gather_block"@ && x == GatherBlock(node),
            r matches Ok(Self::Global(x)) ==> node.kind@ == "global"@ && x == Global(node),
            r matches Ok(Self::Include(x)) ==> node.kind@ == "include"@ && x == Include(node),
            r matches Ok(Self::List(x)) ==> node.kind@ == "list"@ && x == List(node),
            r matches Ok(Self::TodoComment(x)) ==> node.kind@ == "todo_comment"@ && x == TodoComment(node),
            r is Err ==> r == Err::<Self, IncorrectKind<'tree>>(IncorrectKind { node, kind: Self::KIND }),
    {
        if str_eq(node.kind, "choice_block") {
            Ok(Self::ChoiceBlock(ChoiceBlock::from_node_unchecked(node)))
        } else if str_eq(node.kind, "code") {
            Ok(Self::Code(Code::from_node_unchecked(node)))
        } else if str_eq(node.kind, "comment") {
            Ok(Self::Comment(Comment::from_node_unchecked(node)))
        } else if str_eq(node.kind, "content") {
            Ok(Self::Content(Content::from_node_unchecked(node)))
        } else if str_eq(node.kind, "external") {
            Ok(Self::External(External::from_node_unchecked(node)))
        } else if str_eq(node.kind, "gather_block") {
            Ok(Self::GatherBlock(GatherBlock::from_node_unchecked(node)))
        } else if str_eq(node.kind, "global") {
            Ok(Self::Global(Global::from_node_unchecked(node)))
        } else if str_eq(node.kind, "include") {
            Ok(Self::Include(Include::from_node_unchecked(node)))
        } else if str_eq(node.kind, "list") {
            Ok(Self::List(List::from_node_unchecked(node)))
        } else if str_eq(node.kind, "todo_comment") {
            Ok(Self::TodoComment(TodoComment::from_node_unchecked(node)))
        } else {
            Err(IncorrectKind { node, kind: Self::KIND })
        }
    }
}

impl<'tree> TryFromSpecImpl<&'tree SyntaxNode> for ChoiceBlock_Code_Comment_Content_External_GatherBlock_Global_Include_List_TodoComment<'tree> {
    open spec fn obeys_try_from_spec() -> bool {
        true
    }

    open spec fn try_from_spec(node: &'tree SyntaxNode) -> NodeResult<'tree, Self> {
        if node.kind@ == "choice_block"@ {
            Ok(Self::ChoiceBlock(ChoiceBlock(node)))
        } else if node.kind@ == "code"@ {
            Ok(Self::Code(Code(node)))
        } else if node.kind@ == "comment"@ {
            Ok(Self::Comment(Comment(node)))
        } else if node.kind@ == "content"@ {
            Ok(Self::Content(Content(node)))
        } else if node.kind@ == "external"@ {
            Ok(Self::External(External(node)))
        } else if node.kind@ == "gather_block"@ {
            Ok(Self::GatherBlock(GatherBlock(node)))
        } else if node.kind@ == "global"@ {
            Ok(Self::Global(Global(node)))
        } else if node.kind@ == "include"@ {
            Ok(Self::Include(Include(node)))
        } else if node.kind@ == "list"@ {
            Ok(Self::List(List(node)))
        } else if node.kind@ == "todo_comment"@ {
            Ok(Self::TodoComment(TodoComment(node)))
        } else {
            Err(IncorrectKind { node, kind: Self::KIND })
        }
    }
}

/// one of `{call | identifier | qualified_name}`:
/// - [Call]
/// - [Identifier]
/// - [QualifiedName]
#[derive(Debug, Clone, Copy, PartialEq, Eq, Hash)]
#[allow(non_camel_case_types)]
pub enum Call_Identifier_QualifiedName<'tree> {
    Call(Call<'tree>),
    Identifier(Identifier<'tree>),
    QualifiedName(QualifiedName<'tree>),
}

impl<'tree> Call_Identifier_QualifiedName<'tree> {
    /// The kinds of the nodes of this type.
    pub const KIND: &'static str = "{call | identifier | qualified_name}";

    /// Returns the node if it is of kind `call` ([Call]), otherwise returns None
    pub fn call(self) -> (r: Option<Call<'tree>>)
        ensures
            match self {
                Self::Call(x) => r == Some(x),
                _ => r is None,
            },
    {
        match self {
            Self::Call(x) => Some(x),
            _ => None,
        }
    }

    /// Returns the node if it is of kind `identifier` ([Identifier]), otherwise returns None
    pub fn identifier(self) -> (r: Option<Identifier<'tree>>)
        ensures
            match self {
                Self::Identifier(x) => r == Some(x),
                _ => r is None,
            },
    {
        match self {
            Self::Identifier(x) => Some(x),
            _ => None,
        }
    }

    /// Returns the node if it is of kind `qualified_name` ([QualifiedName]), otherwise returns None
    pub fn qualified_name(self) -> (r: Option<QualifiedName<'tree>>)
        ensures
            match self {
                Self::QualifiedName(x) => r == Some(x),
                _ => r is None,
            },
    {
        match self {
            Self::QualifiedName(x) => Some(x),
            _ => None,
        }
    }

    /// The underlying node, whichever the variant.
    pub open spec fn spec_node(self) -> &'tree SyntaxNode {
        match self {
            Self::Call(x) => x.0,
            Self::Identifier(x) => x.0,
            Self::QualifiedName(x) => x.0,
        }
    }

    /// The underlying node.
    pub fn node(&self) -> (r: &&'tree SyntaxNode)
        ensures
            *r == self.spec_node(),
    {
        match self {
            Self::Call(x) => x.node(),
            Self::Identifier(x) => x.node(),
            Self::QualifiedName(x) => x.node(),
        }
    }

    /// The underlying node, to replace in place.
    pub fn node_mut(&mut self) -> (r: &mut &'tree SyntaxNode)
        ensures
            *r == old(self).spec_node(),
            final(self).spec_node() == *final(r),
            (*old(self)) is Call ==> (*final(self)) is Call,
            (*old(self)) is Identifier ==> (*final(self)) is Identifier,
            (*old(self)) is QualifiedName ==> (*final(self)) is QualifiedName,
    {
        match self {
            Self::Call(x) => x.node_mut(),
            Self::Identifier(x) => x.node_mut(),
            Self::QualifiedName(x) => x.node_mut(),
        }
    }

    /// The underlying node, giving up the typed view.
    pub fn into_node(self) -> (r: &'tree SyntaxNode)
        ensures
            r == self.spec_node(),
    {
        match self {
            Self::Call(x) => x.into_node(),
            Self::Identifier(x) => x.into_node(),
            Self::QualifiedName(x) => x.into_node(),
        }
    }
}

impl<'tree> TryFrom<&'tree SyntaxNode> for Call_Identifier_QualifiedName<'tree> {
    type Error = IncorrectKind<'tree>;

    /// Views `node` as the variant for its kind, if it has one of this type's kinds.
    fn try_from(node: &'tree SyntaxNode) -> (r: NodeResult<'tree, Self>)
        ensures
            r is Ok <==> (
                node.kind@ == "call"@
                || node.kind@ == "identifier"@
                || node.kind@ == "qualified_name"@
            ),
            r matches Ok(Self::Call(x)) ==> node.kind@ == "call"@ && x == Call(node),
            r matches Ok(Self::Identifier(x)) ==> node.kind@ == "identifier"@ && x == Identifier(node),
            r matches Ok(Self::QualifiedName(x)) ==> node.kind@ == "qualified_name"@ && x == QualifiedName(node),
            r is Err ==> r == Err::<Self, IncorrectKind<'tree>>(IncorrectKind { node, kind: Self::KIND }),
    {
        if str_eq(node.kind, "call") {
            Ok(Self::Call(Call::from_node_unchecked(node)))
        } else if str_eq(node.kind, "identifier") {
            Ok(Self::Identifier(Identifier::from_node_unchecked(node)))
        } else if str_eq(node.kind, "qualified_name") {
            Ok(Self::QualifiedName(QualifiedName::from_node_unchecked(node)))
        } else {
            Err(IncorrectKind { node, kind: Self::KIND })
        }
    }
}

impl<'tree> TryFromSpecImpl<&'tree SyntaxNode> for Call_Identifier_QualifiedName<'tree> {
    open spec fn obeys_try_from_spec() -> bool {
        true
    }

    open spec fn try_from_spec(node: &'tree SyntaxNode) -> NodeResult<'tree, Self> {
        if node.kind@ == "call"@ {
            Ok(Self::Call(Call(node)))
        } else if node.kind@ == "identifier"@ {
            Ok(Self::Identifier(Identifier(node)))
        } else if node.kind@ == "qualified_name"@ {
            Ok(Self::QualifiedName(QualifiedName(node)))
        } else {
            Err(IncorrectKind { node, kind: Self::KIND })
        }
    }
}

/// one of `{( | ) | params}`:
/// - [symbols::LParen_]
/// - [symbols::RParen_]
/// - [Params]
#[derive(Debug, Clone, Copy, PartialEq, Eq, Hash)]
#[allow(non_camel_case_types)]
pub enum LParen__RParen__Params<'tree> {
    LParen_(symbols::LParen_<'tree>),
    RParen_(symbols::RParen_<'tree>),
    Params(Params<'tree>),
}

impl<'tree> LParen__RParen__Params<'tree> {
    /// The kinds of the nodes of this type.
    pub const KIND: &'static str = "{( | ) | params}";

    /// Returns the node if it is of kind `(` ([symbols::LParen_]), otherwise returns None
    pub fn l_paren_(self) -> (r: Option<symbols::LParen_<'tree>>)
        ensures
            match self {
                Self::LParen_(x) => r == Some(x),
                _ => r is None,
            },
    {
        match self {
            Self::LParen_(x) => Some(x),
            _ => None,
        }
    }

    /// Returns the node if it is of kind `)` ([symbols::RParen_]), otherwise returns None
    pub fn r_paren_(self) -> (r: Option<symbols::RParen_<'tree>>)
        ensures
            match self {
                Self::RParen_(x) => r == Some(x),
                _ => r is None,
            },
    {
        match self {
            Self::RParen_(x) => Some(x),
            _ => None,
        }
    }

    /// Returns the node if it is of kind `params` ([Params]), otherwise returns None
    pub fn params(self) -> (r: Option<Params<'tree>>)
        ensures
            match self {
                Self::Params(x) => r == Some(x),
                _ => r is None,
            },
    {
        match self {
            Self::Params(x) => Some(x),
            _ => None,
        }
    }

    /// The underlying node, whichever the variant.
    pub open spec fn spec_node(self) -> &'tree SyntaxNode {
        match self {
            Self::LParen_(x) => x.0,
            Self::RParen_(x) => x.0,
            Self::Params(x) => x.0,
        }
    }

    /// The underlying node.
    pub fn node(&self) -> (r: &&'tree SyntaxNode)
        ensures
            *r == self.spec_node(),
    {
        match self {
            Self::LParen_(x) => x.node(),
            Self::RParen_(x) => x.node(),
            Self::Params(x) => x.node(),
        }
    }

    /// The underlying node, to replace in place.
    pub fn node_mut(&mut self) -> (r: &mut &'tree SyntaxNode)
        ensures
            *r == old(self).spec_node(),
            final(self).spec_node() == *final(r),
            (*old(self)) is LParen_ ==> (*final(self)) is LParen_,
            (*old(self)) is RParen_ ==> (*final(self)) is RParen_,
            (*old(self)) is Params ==> (*final(self)) is Params,
    {
        match self {
            Self::LParen_(x) => x.node_mut(),
            Self::RParen_(x) => x.node_mut(),
            Self::Params(x) => x.node_mut(),
        }
    }

    /// The underlying node, giving up the typed view.
    pub fn into_node(self) -> (r: &'tree SyntaxNode)
        ensures
            r == self.spec_node(),
    {
        match self {
            Self::LParen_(x) => x.into_node(),
            Self::RParen_(x) => x.into_node(),
            Self::Params(x) => x.into_node(),
        }
    }
}

impl<'tree> TryFrom<&'tree SyntaxNode> for LParen__RParen__Params<'tree> {
    type Error = IncorrectKind<'tree>;

    /// Views `node` as the variant for its kind, if it has one of this type's kinds.
    fn try_from(node: &'tree SyntaxNode) -> (r: NodeResult<'tree, Self>)
        ensures
            r is Ok <==> (
                node.kind@ == "("@
                || node.kind@ == ")"@
                || node.kind@ == "params"@
            ),
            r matches Ok(Self::LParen_(x)) ==> node.kind@ == "("@ && x == symbols::LParen_(node),
            r matches Ok(Self::RParen_(x)) ==> node.kind@ == ")"@ && x == symbols::RParen_(node),
            r matches Ok(Self::Params(x)) ==> node.kind@ == "params"@ && x == Params(node),
            r is Err ==> r == Err::<Self, IncorrectKind<'tree>>(IncorrectKind { node, kind: Self::KIND }),
    {
        if str_eq(node.kind, "(") {
            Ok(Self::LParen_(symbols::LParen_::from_node_unchecked(node)))
        } else if str_eq(node.kind, ")") {
            Ok(Self::RParen_(symbols::RParen_::from_node_unchecked(node)))
        } else if str_eq(node.kind, "params") {
            Ok(Self::Params(Params::from_node_unchecked(node)))
        } else {
            Err(IncorrectKind { node, kind: Self::KIND })
        }
    }
}

impl<'tree> TryFromSpecImpl<&'tree SyntaxNode> for LParen__RParen__Params<'tree> {
    open spec fn obeys_try_from_spec() -> bool {
        true
    }

    open spec fn try_from_spec(node: &'tree SyntaxNode) -> NodeResult<'tree, Self> {
        if node.kind@ == "("@ {
            Ok(Self::LParen_(symbols::LParen_(node)))
        } else if node.kind@ == ")"@ {
            Ok(Self::RParen_(symbols::RParen_(node)))
        } else if node.kind@ == "params"@ {
            Ok(Self::Params(Params(node)))
        } else {
            Err(IncorrectKind { node, kind: Self::KIND })
        }
    }
}

/// one of `{content | divert | thread | tunnel | ( | ) | identifier}`:
/// - [Content]
/// - [Divert]
/// - [Thread]
/// - [Tunnel]
/// - [symbols::LParen_]
/// - [symbols::RParen_]
/// - [Identifier]
#[derive(Debug, Clone, Copy, PartialEq, Eq, Hash)]
#[allow(non_camel_case_types)]
pub enum Content_Divert_Thread_Tunnel_LParen__RParen__Identifier<'tree> {
    Content(Content<'tree>),
    Divert(Divert<'tree>),
    Thread(Thread<'tree>),
    Tunnel(Tunnel<'tree>),
    LParen_(symbols::LParen_<'tree>),
    RParen_(symbols::RParen_<'tree>),
    Identifier(Identifier<'tree>),
}

impl<'tree> Content_Divert_Thread_Tunnel_LParen__RParen__Identifier<'tree> {
    /// The kinds of the nodes of this type.
    pub const KIND: &'static str = "{content | divert | thread | tunnel | ( | ) | identifier}";

    /// Returns the node if it is of kind `content` ([Content]), otherwise returns None
    pub fn content(self) -> (r: Option<Content<'tree>>)
        ensures
            match self {
                Self::Content(x) => r == Some(x),
                _ => r is None,
            },
    {
        match self {
            Self::Content(x) => Some(x),
            _ => None,
        }
    }

    /// Returns the node if it is of kind `divert` ([Divert]), otherwise returns None
    pub fn divert(self) -> (r: Option<Divert<'tree>>)
        ensures
            match self {
                Self::Divert(x) => r == Some(x),
                _ => r is None,
            },
    {
        match self {
            Self::Divert(x) => Some(x),
            _ => None,
        }
    }

    /// Returns the node if it is of kind `thread` ([Thread]), otherwise returns None
    pub fn thread(self) -> (r: Option<Thread<'tree>>)
        ensures
            match self {
                Self::Thread(x) => r == Some(x),
                _ => r is None,
            },
    {
        match self {
            Self::Thread(x) => Some(x),
            _ => None,
        }
    }

    /// Returns the node if it is of kind `tunnel` ([Tunnel]), otherwise returns None
    pub fn tunnel(self) -> (r: Option<Tunnel<'tree>>)
        ensures
            match self {
                Self::Tunnel(x) => r == Some(x),
                _ => r is None,
            },
    {
        match self {
            Self::Tunnel(x) => Some(x),
            _ => None,
        }
    }

    /// Returns the node if it is of kind `(` ([symbols::LParen_]), otherwise returns None
    pub fn l_paren_(self) -> (r: Option<symbols::LParen_<'tree>>)
        ensures
            match self {
                Self::LParen_(x) => r == Some(x),
                _ => r is None,
            },
    {
        match self {
            Self::LParen_(x) => Some(x),
            _ => None,
        }
    }

    /// Returns the node if it is of kind `)` ([symbols::RParen_]), otherwise returns None
    pub fn r_paren_(self) -> (r: Option<symbols::RParen_<'tree>>)
        ensures
            match self {
                Self::RParen_(x) => r == Some(x),
                _ => r is None,
            },
    {
        match self {
            Self::RParen_(x) => Some(x),
            _ => None,
        }
    }

    /// Returns the node if it is of kind `identifier` ([Identifier]), otherwise returns None
    pub fn identifier(self) -> (r: Option<Identifier<'tree>>)
        ensures
            match self {
                Self::Identifier(x) => r == Some(x),
                _ => r is None,
            },
    {
        match self {
            Self::Identifier(x) => Some(x),
            _ => None,
        }
    }

    /// The underlying node, whichever the variant.
    pub open spec fn spec_node(self) -> &'tree SyntaxNode {
        match self {
            Self::Content(x) => x.0,
            Self::Divert(x) => x.0,
            Self::Thread(x) => x.0,
            Self::Tunnel(x) => x.0,
            Self::LParen_(x) => x.0,
            Self::RParen_(x) => x.0,
            Self::Identifier(x) => x.0,
        }
    }

    /// The underlying node.
    pub fn node(&self) -> (r: &&'tree SyntaxNode)
        ensures
            *r == self.spec_node(),
    {
        match self {
            Self::Content(x) => x.node(),
            Self::Divert(x) => x.node(),
            Self::Thread(x) => x.node(),
            Self::Tunnel(x) => x.node(),
            Self::LParen_(x) => x.node(),
            Self::RParen_(x) => x.node(),
            Self::Identifier(x) => x.node(),
        }
    }

    /// The underlying node, to replace in place.
    pub fn node_mut(&mut self) -> (r: &mut &'tree SyntaxNode)
        ensures
            *r == old(self).spec_node(),
            final(self).spec_node() == *final(r),
            (*old(self)) is Content ==> (*final(self)) is Content,
            (*old(self)) is Divert ==> (*final(self)) is Divert,
            (*old(self)) is Thread ==> (*final(self)) is Thread,
            (*old(self)) is Tunnel ==> (*final(self)) is Tunnel,
            (*old(self)) is LParen_ ==> (*final(self)) is LParen_,
            (*old(self)) is RParen_ ==> (*final(self)) is RParen_,
            (*old(self)) is Identifier ==> (*final(self)) is Identifier,
    {
        match self {
            Self::Content(x) => x.node_mut(),
            Self::Divert(x) => x.node_mut(),
            Self::Thread(x) => x.node_mut(),
            Self::Tunnel(x) => x.node_mut(),
            Self::LParen_(x) => x.node_mut(),
            Self::RParen_(x) => x.node_mut(),
            Self::Identifier(x) => x.node_mut(),
        }
    }

    /// The underlying node, giving up the typed view.
    pub fn into_node(self) -> (r: &'tree SyntaxNode)
        ensures
            r == self.spec_node(),
    {
        match self {
            Self::Content(x) => x.into_node(),
            Self::Divert(x) => x.into_node(),
            Self::Thread(x) => x.into_node(),
            Self::Tunnel(x) => x.into_node(),
            Self::LParen_(x) => x.into_node(),
            Self::RParen_(x) => x.into_node(),
            Self::Identifier(x) => x.into_node(),
        }
    }
}

impl<'tree> TryFrom<&'tree SyntaxNode> for Content_Divert_Thread_Tunnel_LParen__RParen__Identifier<'tree> {
    type Error = IncorrectKind<'tree>;

    /// Views `node` as the variant for its kind, if it has one of this type's kinds.
    fn try_from(node: &'tree SyntaxNode) -> (r: NodeResult<'tree, Self>)
        ensures
            r is Ok <==> (
                node.kind@ == "content"@
                || node.kind@ == "divert"@
                || node.kind@ == "thread"@
                || node.kind@ == "tunnel"@
                || node.kind@ == "("@
                || node.kind@ == ")"@
                || node.kind@ == "identifier"@
            ),
            r matches Ok(Self::Content(x)) ==> node.kind@ == "content"@ && x == Content(node),
            r matches Ok(Self::Divert(x)) ==> node.kind@ == "divert"@ && x == Divert(node),
            r matches Ok(Self::Thread(x)) ==> node.kind@ == "thread"@ && x == Thread(node),
            r matches Ok(Self::Tunnel(x)) ==> node.kind@ == "tunnel"@ && x == Tunnel(node),
            r matches Ok(Self::LParen_(x)) ==> node.kind@ == "("@ && x == symbols::LParen_(node),
            r matches Ok(Self::RParen_(x)) ==> node.kind@ == ")"@ && x == symbols::RParen_(node),
            r matches Ok(Self::Identifier(x)) ==> node.kind@ == "identifier"@ && x == Identifier(node),
            r is Err ==> r == Err::<Self, IncorrectKind<'tree>>(IncorrectKind { node, kind: Self::KIND }),
    {
        if str_eq(node.kind, "content") {
            Ok(Self::Content(Content::from_node_unchecked(node)))
        } else if str_eq(node.kind, "divert") {
            Ok(Self::Divert(Divert::from_node_unchecked(node)))
        } else if str_eq(node.kind, "thread") {
            Ok(Self::Thread(Thread::from_node_unchecked(node)))
        } else if str_eq(node.kind, "tunnel") {
            Ok(Self::Tunnel(Tunnel::from_node_unchecked(node)))
        } else if str_eq(node.kind, "(") {
            Ok(Self::LParen_(symbols::LParen_::from_node_unchecked(node)))
        } else if str_eq(node.kind, ")") {
            Ok(Self::RParen_(symbols::RParen_::from_node_unchecked(node)))
        } else if str_eq(node.kind, "identifier") {
            Ok(Self::Identifier(Identifier::from_node_unchecked(node)))
        } else {
            Err(IncorrectKind { node, kind: Self::KIND })
        }
    }
}

impl<'tree> TryFromSpecImpl<&'tree SyntaxNode> for Content_Divert_Thread_Tunnel_LParen__RParen__Identifier<'tree> {
    open spec fn obeys_try_from_spec() -> bool {
        true
    }

    open spec fn try_from_spec(node: &'tree SyntaxNode) -> NodeResult<'tree, Self> {
        if node.kind@ == "content"@ {
            Ok(Self::Content(Content(node)))
        } else if node.kind@ == "divert"@ {
            Ok(Self::Divert(Divert(node)))
        } else if node.kind@ == "thread"@ {
            Ok(Self::Thread(Thread(node)))
        } else if node.kind@ == "tunnel"@ {
            Ok(Self::Tunnel(Tunnel(node)))
        } else if node.kind@ == "("@ {
            Ok(Self::LParen_(symbols::LParen_(node)))
        } else if node.kind@ == ")"@ {
            Ok(Self::RParen_(symbols::RParen_(node)))
        } else if node.kind@ == "identifier"@ {
            Ok(Self::Identifier(Identifier(node)))
        } else {
            Err(IncorrectKind { node, kind: Self::KIND })
        }
    }
}

/// one of `{choice_block | code | comment | content | external | gather | gather_block | global | include | list | todo_comment}`:
/// - [ChoiceBlock]
/// - [Code]
/// - [Comment]
/// - [Content]
/// - [External]
/// - [Gather]
/// - [GatherBlock]
/// - [Global]
/// - [Include]
/// - [List]
/// - [TodoComment]
#[derive(Debug, Clone, Copy, PartialEq, Eq, Hash)]
#[allow(non_camel_case_types)]
pub enum ChoiceBlock_Code_Comment_Content_External_Gather_GatherBlock_Global_Include_List_TodoComment<'tree> {
    ChoiceBlock(ChoiceBlock<'tree>),
    Code(Code<'tree>),
    Comment(Comment<'tree>),
    Content(Content<'tree>),
    External(External<'tree>),
    Gather(Gather<'tree>),
    GatherBlock(GatherBlock<'tree>),
    Global(Global<'tree>),
    Include(Include<'tree>),
    List(List<'tree>),
    TodoComment(TodoComment<'tree>),
}

impl<'tree> ChoiceBlock_Code_Comment_Content_External_Gather_GatherBlock_Global_Include_List_TodoComment<'tree> {
    /// The kinds of the nodes of this type.
    pub const KIND: &'static str = "{choice_block | code | comment | content | external | gather | gather_block | global | include | list | todo_comment}";

    /// Returns the node if it is of kind `choice_block` ([ChoiceBlock]), otherwise returns None
    pub fn choice_block(self) -> (r: Option<ChoiceBlock<'tree>>)
        ensures
            match self {
                Self::ChoiceBlock(x) => r == Some(x),
                _ => r is None,
            },
    {
        match self {
            Self::ChoiceBlock(x) => Some(x),
            _ => None,
        }
    }

    /// Returns the node if it is of kind `code` ([Code]), otherwise returns None
    pub fn code(self) -> (r: Option<Code<'tree>>)
        ensures
            match self {
                Self::Code(x) => r == Some(x),
                _ => r is None,
            },
    {
        match self {
            Self::Code(x) => Some(x),
            _ => None,
        }
    }

    /// Returns the node if it is of kind `comment` ([Comment]), otherwise returns None
    pub fn comment(self) -> (r: Option<Comment<'tree>>)
        ensures
            match self {
                Self::Comment(x) => r == Some(x),
                _ => r is None,
            },
    {
        match self {
            Self::Comment(x) => Some(x),
            _ => None,
        }
    }

    /// Returns the node if it is of kind `content` ([Content]), otherwise returns None
    pub fn content(self) -> (r: Option<Content<'tree>>)
        ensures
            match self {
                Self::Content(x) => r == Some(x),
                _ => r is None,
            },
    {
        match self {
            Self::Content(x) => Some(x),
            _ => None,
        }
    }

    /// Returns the node if it is of kind `external` ([External]), otherwise returns None
    pub fn external(self) -> (r: Option<External<'tree>>)
        ensures
            match self {
                Self::External(x) => r == Some(x),
                _ => r is None,
            },
    {
        match self {
            Self::External(x) => Some(x),
            _ => None,
        }
    }

    /// Returns the node if it is of kind `gather` ([Gather]), otherwise returns None
    pub fn gather(self) -> (r: Option<Gather<'tree>>)
        ensures
            match self {
                Self::Gather(x) => r == Some(x),
                _ => r is None,
            },
    {
        match self {
            Self::Gather(x) => Some(x),
            _ => None,
        }
    }

    /// Returns the node if it is of kind `gather_block` ([GatherBlock]), otherwise returns None
    pub fn gather_block(self) -> (r: Option<GatherBlock<'tree>>)
        ensures
            match self {
                Self::GatherBlock(x) => r == Some(x),
                _ => r is None,
            },
    {
        match self {
            Self::GatherBlock(x) => Some(x),
            _ => None,
        }
    }

    /// Returns the node if it is of kind `global` ([Global]), otherwise returns None
    pub fn global(self) -> (r: Option<Global<'tree>>)
        ensures
            match self {
                Self::Global(x) => r == Some(x),
                _ => r is None,
            },
    {
        match self {
            Self::Global(x) => Some(x),
            _ => None,
        }
    }

    /// Returns the node if it is of kind `include` ([Include]), otherwise returns None
    pub fn include_node(self) -> (r: Option<Include<'tree>>)
        ensures
            match self {
                Self::Include(x) => r == Some(x),
                _ => r is None,
            },
    {
        match self {
            Self::Include(x) => Some(x),
            _ => None,
        }
    }

    /// Returns the node if it is of kind `list` ([List]), otherwise returns None
    pub fn list(self) -> (r: Option<List<'tree>>)
        ensures
            match self {
                Self::List(x) => r == Some(x),
                _ => r is None,
            },
    {
        match self {
            Self::List(x) => Some(x),
            _ => None,
        }
    }

    /// Returns the node if it is of kind `todo_comment` ([TodoComment]), otherwise returns None
    pub fn todo_comment(self) -> (r: Option<TodoComment<'tree>>)
        ensures
            match self {
                Self::TodoComment(x) => r == Some(x),
                _ => r is None,
            },
    {
        match self {
            Self::TodoComment(x) => Some(x),
            _ => None,
        }
    }

    /// The underlying node, whichever the variant.
    pub open spec fn spec_node(self) -> &'tree SyntaxNode {
        match self {
            Self::ChoiceBlock(x) => x.0,
            Self::Code(x) => x.0,
            Self::Comment(x) => x.0,
            Self::Content(x) => x.0,
            Self::External(x) => x.0,
            Self::Gather(x) => x.0,
            Self::GatherBlock(x) => x.0,
            Self::Global(x) => x.0,
            Self::Include(x) => x.0,
            Self::List(x) => x.0,
            Self::TodoComment(x) => x.0,
        }
    }

    /// The underlying node.
    pub fn node(&self) -> (r: &&'tree SyntaxNode)
        ensures
            *r == self.spec_node(),
    {
        match self {
            Self::ChoiceBlock(x) => x.node(),
            Self::Code(x) => x.node(),
            Self::Comment(x) => x.node(),
            Self::Content(x) => x.node(),
            Self::External(x) => x.node(),
            Self::Gather(x) => x.node(),
            Self::GatherBlock(x) => x.node(),
            Self::Global(x) => x.node(),
            Self::Include(x) => x.node(),
            Self::List(x) => x.node(),
            Self::TodoComment(x) => x.node(),
        }
    }

    /// The underlying node, to replace in place.
    pub fn node_mut(&mut self) -> (r: &mut &'tree SyntaxNode)
        ensures
            *r == old(self).spec_node(),
            final(self).spec_node() == *final(r),
            (*old(self)) is ChoiceBlock ==> (*final(self)) is ChoiceBlock,
            (*old(self)) is Code ==> (*final(self)) is Code,
            (*old(self)) is Comment ==> (*final(self)) is Comment,
            (*old(self)) is Content ==> (*final(self)) is Content,
            (*old(self)) is External ==> (*final(self)) is External,
            (*old(self)) is Gather ==> (*final(self)) is Gather,
            (*old(self)) is GatherBlock ==> (*final(self)) is GatherBlock,
            (*old(self)) is Global ==> (*final(self)) is Global,
            (*old(self)) is Include ==> (*final(self)) is Include,
            (*old(self)) is List ==> (*final(self)) is List,
            (*old(self)) is TodoComment ==> (*final(self)) is TodoComment,
    {
        match self {
            Self::ChoiceBlock(x) => x.node_mut(),
            Self::Code(x) => x.node_mut(),
            Self::Comment(x) => x.node_mut(),
            Self::Content(x) => x.node_mut(),
            Self::External(x) => x.node_mut(),
            Self::Gather(x) => x.node_mut(),
            Self::GatherBlock(x) => x.node_mut(),
            Self::Global(x) => x.node_mut(),
            Self::Include(x) => x.node_mut(),
            Self::List(x) => x.node_mut(),
            Self::TodoComment(x) => x.node_mut(),
        }
    }

    /// The underlying node, giving up the typed view.
    pub fn into_node(self) -> (r: &'tree SyntaxNode)
        ensures
            r == self.spec_node(),
    {
        match self {
            Self::ChoiceBlock(x) => x.into_node(),
            Self::Code(x) => x.into_node(),
            Self::Comment(x) => x.into_node(),
            Self::Content(x) => x.into_node(),
            Self::External(x) => x.into_node(),
            Self::Gather(x) => x.into_node(),
            Self::GatherBlock(x) => x.into_node(),
            Self::Global(x) => x.into_node(),
            Self::Include(x) => x.into_node(),
            Self::List(x) => x.into_node(),
            Self::TodoComment(x) => x.into_node(),
        }
    }
}

impl<'tree> TryFrom<&'tree SyntaxNode> for ChoiceBlock_Code_Comment_Content_External_Gather_GatherBlock_Global_Include_List_TodoComment<'tree> {
    type Error = IncorrectKind<'tree>;

    /// Views `node` as the variant for its kind, if it has one of this type's kinds.
    fn try_from(node: &'tree SyntaxNode) -> (r: NodeResult<'tree, Self>)
        ensures
            r is Ok <==> (
                node.kind@ == "choice_block"@
                || node.kind@ == "code"@
                || node.kind@ == "comment"@
                || node.kind@ == "content"@
                || node.kind@ == "external"@
                || node.kind@ == "gather"@
                || node.kind@ == "gather_block"@
                || node.kind@ == "global"@
                || node.kind@ == "include"@
                || node.kind@ == "list"@
                || node.kind@ == "todo_comment"@
            ),
            r matches Ok(Self::ChoiceBlock(x)) ==> node.kind@ == "choice_block"@ && x == ChoiceBlock(node),
            r matches Ok(Self::Code(x)) ==> node.kind@ == "code"@ && x == Code(node),
            r matches Ok(Self::Comment(x)) ==> node.kind@ == "comment"@ && x == Comment(node),
            r matches Ok(Self::Content(x)) ==> node.kind@ == "content"@ && x == Content(node),
            r matches Ok(Self::External(x)) ==> node.kind@ == "external"@ && x == External(node),
            r matches Ok(Self::Gather(x)) ==> node.kind@ == "gather"@ && x == Gather(node),
            r matches Ok(Self::GatherBlock(x)) ==> node.kind@ == "gather_block"@ && x == GatherBlock(node),
            r matches Ok(Self::Global(x)) ==> node.kind@ == "global"@ && x == Global(node),
            r matches Ok(Self::Include(x)) ==> node.kind@ == "include"@ && x == Include(node),
            r matches Ok(Self::List(x)) ==> node.kind@ == "list"@ && x == List(node),
            r matches Ok(Self::TodoComment(x)) ==> node.kind@ == "todo_comment"@ && x == TodoComment(node),
            r is Err ==> r == Err::<Self, IncorrectKind<'tree>>(IncorrectKind { node, kind: Self::KIND }),
    {
        if str_eq(node.kind, "choice_block") {
            Ok(Self::ChoiceBlock(ChoiceBlock::from_node_unchecked(node)))
        } else if str_eq(node.kind, "code") {
            Ok(Self::Code(Code::from_node_unchecked(node)))
        } else if str_eq(node.kind, "comment") {
            Ok(Self::Comment(Comment::from_node_unchecked(node)))
        } else if str_eq(node.kind, "content") {
            Ok(Self::Content(Content::from_node_unchecked(node)))
        } else if str_eq(node.kind, "external") {
            Ok(Self::External(External::from_node_unchecked(node)))
        } else if str_eq(node.kind, "gather") {
            Ok(Self::Gather(Gather::from_node_unchecked(node)))
        } else if str_eq(node.kind, "gather_block") {
            Ok(Self::GatherBlock(GatherBlock::from_node_unchecked(node)))
        } else if str_eq(node.kind, "global") {
            Ok(Self::Global(Global::from_node_unchecked(node)))
        } else if str_eq(node.kind, "include") {
            Ok(Self::Include(Include::from_node_unchecked(node)))
        } else if str_eq(node.kind, "list") {
            Ok(Self::List(List::from_node_unchecked(node)))
        } else if str_eq(node.kind, "todo_comment") {
            Ok(Self::TodoComment(TodoComment::from_node_unchecked(node)))
        } else {
            Err(IncorrectKind { node, kind: Self::KIND })
        }
    }
}

impl<'tree> TryFromSpecImpl<&'tree SyntaxNode> for ChoiceBlock_Code_Comment_Content_External_Gather_GatherBlock_Global_Include_List_TodoComment<'tree> {
    open spec fn obeys_try_from_spec() -> bool {
        true
    }

    open spec fn try_from_spec(node: &'tree SyntaxNode) -> NodeResult<'tree, Self> {
        if node.kind@ == "choice_block"@ {
            Ok(Self::ChoiceBlock(ChoiceBlock(node)))
        } else if node.kind@ == "code"@ {
            Ok(Self::Code(Code(node)))
        } else if node.kind@ == "comment"@ {
            Ok(Self::Comment(Comment(node)))
        } else if node.kind@ == "content"@ {
            Ok(Self::Content(Content(node)))
        } else if node.kind@ == "external"@ {
            Ok(Self::External(External(node)))
        } else if node.kind@ == "gather"@ {
            Ok(Self::Gather(Gather(node)))
        } else if node.kind@ == "gather_block"@ {
            Ok(Self::GatherBlock(GatherBlock(node)))
        } else if node.kind@ == "global"@ {
            Ok(Self::Global(Global(node)))
        } else if node.kind@ == "include"@ {
            Ok(Self::Include(Include(node)))
        } else if node.kind@ == "list"@ {
            Ok(Self::List(List(node)))
        } else if node.kind@ == "todo_comment"@ {
            Ok(Self::TodoComment(TodoComment(node)))
        } else {
            Err(IncorrectKind { node, kind: Self::KIND })
        }
    }
}

/// one of `{CONST | VAR}`:
/// - [unnamed::Const]
/// - [unnamed::Var]
#[derive(Debug, Clone, Copy, PartialEq, Eq, Hash)]
#[allow(non_camel_case_types)]
pub enum Const_Var<'tree> {
    Const(unnamed::Const<'tree>),
    Var(unnamed::Var<'tree>),
}

impl<'tree> Const_Var<'tree> {
    /// The kinds of the nodes of this type.
    pub const KIND: &'static str = "{CONST | VAR}";

    /// Returns the node if it is of kind `CONST` ([unnamed::Const]), otherwise returns None
    pub fn const_node(self) -> (r: Option<unnamed::Const<'tree>>)
        ensures
            match self {
                Self::Const(x) => r == Some(x),
                _ => r is None,
            },
    {
        match self {
            Self::Const(x) => Some(x),
            _ => None,
        }
    }

    /// Returns the node if it is of kind `VAR` ([unnamed::Var]), otherwise returns None
    pub fn var(self) -> (r: Option<unnamed::Var<'tree>>)
        ensures
            match self {
                Self::Var(x) => r == Some(x),
                _ => r is None,
            },
    {
        match self {
            Self::Var(x) => Some(x),
            _ => None,
        }
    }

    /// The underlying node, whichever the variant.
    pub open spec fn spec_node(self) -> &'tree SyntaxNode {
        match self {
            Self::Const(x) => x.0,
            Self::Var(x) => x.0,
        }
    }

    /// The underlying node.
    pub fn node(&self) -> (r: &&'tree SyntaxNode)
        ensures
            *r == self.spec_node(),
    {
        match self {
            Self::Const(x) => x.node(),
            Self::Var(x) => x.node(),
        }
    }

    /// The underlying node, to replace in place.
    pub fn node_mut(&mut self) -> (r: &mut &'tree SyntaxNode)
        ensures
            *r == old(self).spec_node(),
            final(self).spec_node() == *final(r),
            (*old(self)) is Const ==> (*final(self)) is Const,
            (*old(self)) is Var ==> (*final(self)) is Var,
    {
        match self {
            Self::Const(x) => x.node_mut(),
            Self::Var(x) => x.node_mut(),
        }
    }

    /// The underlying node, giving up the typed view.
    pub fn into_node(self) -> (r: &'tree SyntaxNode)
        ensures
            r == self.spec_node(),
    {
        match self {
            Self::Const(x) => x.into_node(),
            Self::Var(x) => x.into_node(),
        }
    }
}

impl<'tree> TryFrom<&'tree SyntaxNode> for Const_Var<'tree> {
    type Error = IncorrectKind<'tree>;

    /// Views `node` as the variant for its kind, if it has one of this type's kinds.
    fn try_from(node: &'tree SyntaxNode) -> (r: NodeResult<'tree, Self>)
        ensures
            r is Ok <==> (
                node.kind@ == "CONST"@
                || node.kind@ == "VAR"@
            ),
            r matches Ok(Self::Const(x)) ==> node.kind@ == "CONST"@ && x == unnamed::Const(node),
            r matches Ok(Self::Var(x)) ==> node.kind@ == "VAR"@ && x == unnamed::Var(node),
            r is Err ==> r == Err::<Self, IncorrectKind<'tree>>(IncorrectKind { node, kind: Self::KIND }),
    {
        if str_eq(node.kind, "CONST") {
            Ok(Self::Const(unnamed::Const::from_node_unchecked(node)))
        } else if str_eq(node.kind, "VAR") {
            Ok(Self::Var(unnamed::Var::from_node_unchecked(node)))
        } else {
            Err(IncorrectKind { node, kind: Self::KIND })
        }
    }
}

impl<'tree> TryFromSpecImpl<&'tree SyntaxNode> for Const_Var<'tree> {
    open spec fn obeys_try_from_spec() -> bool {
        true
    }

    open spec fn try_from_spec(node: &'tree SyntaxNode) -> NodeResult<'tree, Self> {
        if node.kind@ == "CONST"@ {
            Ok(Self::Const(unnamed::Const(node)))
        } else if node.kind@ == "VAR"@ {
            Ok(Self::Var(unnamed::Var(node)))
        } else {
            Err(IncorrectKind { node, kind: Self::KIND })
        }
    }
}

/// one of `{content_block | knot_block | stitch_block}`:
/// - [ContentBlock]
/// - [KnotBlock]
/// - [StitchBlock]
#[derive(Debug, Clone, Copy, PartialEq, Eq, Hash)]
#[allow(non_camel_case_types)]
pub enum ContentBlock_KnotBlock_StitchBlock<'tree> {
    ContentBlock(ContentBlock<'tree>),
    KnotBlock(KnotBlock<'tree>),
    StitchBlock(StitchBlock<'tree>),
}

impl<'tree> ContentBlock_KnotBlock_StitchBlock<'tree> {
    /// The kinds of the nodes of this type.
    pub const KIND: &'static str = "{content_block | knot_block | stitch_block}";

    /// Returns the node if it is of kind `content_block` ([ContentBlock]), otherwise returns None
    pub fn content_block(self) -> (r: Option<ContentBlock<'tree>>)
        ensures
            match self {
                Self::ContentBlock(x) => r == Some(x),
                _ => r is None,
            },
    {
        match self {
            Self::ContentBlock(x) => Some(x),
            _ => None,
        }
    }

    /// Returns the node if it is of kind `knot_block` ([KnotBlock]), otherwise returns None
    pub fn knot_block(self) -> (r: Option<KnotBlock<'tree>>)
        ensures
            match self {
                Self::KnotBlock(x) => r == Some(x),
                _ => r is None,
            },
    {
        match self {
            Self::KnotBlock(x) => Some(x),
            _ => None,
        }
    }

    /// Returns the node if it is of kind `stitch_block` ([StitchBlock]), otherwise returns None
    pub fn stitch_block(self) -> (r: Option<StitchBlock<'tree>>)
        ensures
            match self {
                Self::StitchBlock(x) => r == Some(x),
                _ => r is None,
            },
    {
        match self {
            Self::StitchBlock(x) => Some(x),
            _ => None,
        }
    }

    /// The underlying node, whichever the variant.
    pub open spec fn spec_node(self) -> &'tree SyntaxNode {
        match self {
            Self::ContentBlock(x) => x.0,
            Self::KnotBlock(x) => x.0,
            Self::StitchBlock(x) => x.0,
        }
    }

    /// The underlying node.
    pub fn node(&self) -> (r: &&'tree SyntaxNode)
        ensures
            *r == self.spec_node(),
    {
        match self {
            Self::ContentBlock(x) => x.node(),
            Self::KnotBlock(x) => x.node(),
            Self::StitchBlock(x) => x.node(),
        }
    }

    /// The underlying node, to replace in place.
    pub fn node_mut(&mut self) -> (r: &mut &'tree SyntaxNode)
        ensures
            *r == old(self).spec_node(),
            final(self).spec_node() == *final(r),
            (*old(self)) is ContentBlock ==> (*final(self)) is ContentBlock,
            (*old(self)) is KnotBlock ==> (*final(self)) is KnotBlock,
            (*old(self)) is StitchBlock ==> (*final(self)) is StitchBlock,
    {
        match self {
            Self::ContentBlock(x) => x.node_mut(),
            Self::KnotBlock(x) => x.node_mut(),
            Self::StitchBlock(x) => x.node_mut(),
        }
    }

    /// The underlying node, giving up the typed view.
    pub fn into_node(self) -> (r: &'tree SyntaxNode)
        ensures
            r == self.spec_node(),
    {
        match self {
            Self::ContentBlock(x) => x.into_node(),
            Self::KnotBlock(x) => x.into_node(),
            Self::StitchBlock(x) => x.into_node(),
        }
    }
}

impl<'tree> TryFrom<&'tree SyntaxNode> for ContentBlock_KnotBlock_StitchBlock<'tree> {
    type Error = IncorrectKind<'tree>;

    /// Views `node` as the variant for its kind, if it has one of this type's kinds.
    fn try_from(node: &'tree SyntaxNode) -> (r: NodeResult<'tree, Self>)
        ensures
            r is Ok <==> (
                node.kind@ == "content_block"@
                || node.kind@ == "knot_block"@
                || node.kind@ == "stitch_block"@
            ),
            r matches Ok(Self::ContentBlock(x)) ==> node.kind@ == "content_block"@ && x == ContentBlock(node),
            r matches Ok(Self::KnotBlock(x)) ==> node.kind@ == "knot_block"@ && x == KnotBlock(node),
            r matches Ok(Self::StitchBlock(x)) ==> node.kind@ == "stitch_block"@ && x == StitchBlock(node),
            r is Err ==> r == Err::<Self, IncorrectKind<'tree>>(IncorrectKind { node, kind: Self::KIND }),
    {
        if str_eq(node.kind, "content_block") {
            Ok(Self::ContentBlock(ContentBlock::from_node_unchecked(node)))
        } else if str_eq(node.kind, "knot_block") {
            Ok(Self::KnotBlock(KnotBlock::from_node_unchecked(node)))
        } else if str_eq(node.kind, "stitch_block") {
            Ok(Self::StitchBlock(StitchBlock::from_node_unchecked(node)))
        } else {
            Err(IncorrectKind { node, kind: Self::KIND })
        }
    }
}

impl<'tree> TryFromSpecImpl<&'tree SyntaxNode> for ContentBlock_KnotBlock_StitchBlock<'tree> {
    open spec fn obeys_try_from_spec() -> bool {
        true
    }

    open spec fn try_from_spec(node: &'tree SyntaxNode) -> NodeResult<'tree, Self> {
        if node.kind@ == "content_block"@ {
            Ok(Self::ContentBlock(ContentBlock(node)))
        } else if node.kind@ == "knot_block"@ {
            Ok(Self::KnotBlock(KnotBlock(node)))
        } else if node.kind@ == "stitch_block"@ {
            Ok(Self::StitchBlock(StitchBlock(node)))
        } else {
            Err(IncorrectKind { node, kind: Self::KIND })
        }
    }
}

/// one of `{content_block | knot | stitch_block}`:
/// - [ContentBlock]
/// - [Knot]
/// - [StitchBlock]
#[derive(Debug, Clone, Copy, PartialEq, Eq, Hash)]
#[allow(non_camel_case_types)]
pub enum ContentBlock_Knot_StitchBlock<'tree> {
    ContentBlock(ContentBlock<'tree>),
    Knot(Knot<'tree>),
    StitchBlock(StitchBlock<'tree>),
}

impl<'tree> ContentBlock_Knot_StitchBlock<'tree> {
    /// The kinds of the nodes of this type.
    pub const KIND: &'static str = "{content_block | knot | stitch_block}";

    /// Returns the node if it is of kind `content_block` ([ContentBlock]), otherwise returns None
    pub fn content_block(self) -> (r: Option<ContentBlock<'tree>>)
        ensures
            match self {
                Self::ContentBlock(x) => r == Some(x),
                _ => r is None,
            },
    {
        match self {
            Self::ContentBlock(x) => Some(x),
            _ => None,
        }
    }

    /// Returns the node if it is of kind `knot` ([Knot]), otherwise returns None
    pub fn knot(self) -> (r: Option<Knot<'tree>>)
        ensures
            match self {
                Self::Knot(x) => r == Some(x),
                _ => r is None,
            },
    {
        match self {
            Self::Knot(x) => Some(x),
            _ => None,
        }
    }

    /// Returns the node if it is of kind `stitch_block` ([StitchBlock]), otherwise returns None
    pub fn stitch_block(self) -> (r: Option<StitchBlock<'tree>>)
        ensures
            match self {
                Self::StitchBlock(x) => r == Some(x),
                _ => r is None,
            },
    {
        match self {
            Self::StitchBlock(x) => Some(x),
            _ => None,
        }
    }

    /// The underlying node, whichever the variant.
    pub open spec fn spec_node(self) -> &'tree SyntaxNode {
        match self {
            Self::ContentBlock(x) => x.0,
            Self::Knot(x) => x.0,
            Self::StitchBlock(x) => x.0,
        }
    }

    /// The underlying node.
    pub fn node(&self) -> (r: &&'tree SyntaxNode)
        ensures
            *r == self.spec_node(),
    {
        match self {
            Self::ContentBlock(x) => x.node(),
            Self::Knot(x) => x.node(),
            Self::StitchBlock(x) => x.node(),
        }
    }

    /// The underlying node, to replace in place.
    pub fn node_mut(&mut self) -> (r: &mut &'tree SyntaxNode)
        ensures
            *r == old(self).spec_node(),
            final(self).spec_node() == *final(r),
            (*old(self)) is ContentBlock ==> (*final(self)) is ContentBlock,
            (*old(self)) is Knot ==> (*final(self)) is Knot,
            (*old(self)) is StitchBlock ==> (*final(self)) is StitchBlock,
    {
        match self {
            Self::ContentBlock(x) => x.node_mut(),
            Self::Knot(x) => x.node_mut(),
            Self::StitchBlock(x) => x.node_mut(),
        }
    }

    /// The underlying node, giving up the typed view.
    pub fn into_node(self) -> (r: &'tree SyntaxNode)
        ensures
            r == self.spec_node(),
    {
        match self {
            Self::ContentBlock(x) => x.into_node(),
            Self::Knot(x) => x.into_node(),
            Self::StitchBlock(x) => x.into_node(),
        }
    }
}

impl<'tree> TryFrom<&'tree SyntaxNode> for ContentBlock_Knot_StitchBlock<'tree> {
    type Error = IncorrectKind<'tree>;

    /// Views `node` as the variant for its kind, if it has one of this type's kinds.
    fn try_from(node: &'tree SyntaxNode) -> (r: NodeResult<'tree, Self>)
        ensures
            r is Ok <==> (
                node.kind@ == "content_block"@
                || node.kind@ == "knot"@
                || node.kind@ == "stitch_block"@
            ),
            r matches Ok(Self::ContentBlock(x)) ==> node.kind@ == "content_block"@ && x == ContentBlock(node),
            r matches Ok(Self::Knot(x)) ==> node.kind@ == "knot"@ && x == Knot(node),
            r matches Ok(Self::StitchBlock(x)) ==> node.kind@ == "stitch_block"@ && x == StitchBlock(node),
            r is Err ==> r == Err::<Self, IncorrectKind<'tree>>(IncorrectKind { node, kind: Self::KIND }),
    {
        if str_eq(node.kind, "content_block") {
            Ok(Self::ContentBlock(ContentBlock::from_node_unchecked(node)))
        } else if str_eq(node.kind, "knot") {
            Ok(Self::Knot(Knot::from_node_unchecked(node)))
        } else if str_eq(node.kind, "stitch_block") {
            Ok(Self::StitchBlock(StitchBlock::from_node_unchecked(node)))
        } else {
            Err(IncorrectKind { node, kind: Self::KIND })
        }
    }
}

impl<'tree> TryFromSpecImpl<&'tree SyntaxNode> for ContentBlock_Knot_StitchBlock<'tree> {
    open spec fn obeys_try_from_spec() -> bool {
        true
    }

    open spec fn try_from_spec(node: &'tree SyntaxNode) -> NodeResult<'tree, Self> {
        if node.kind@ == "content_block"@ {
            Ok(Self::ContentBlock(ContentBlock(node)))
        } else if node.kind@ == "knot"@ {
            Ok(Self::Knot(Knot(node)))
        } else if node.kind@ == "stitch_block"@ {
            Ok(Self::StitchBlock(StitchBlock(node)))
        } else {
            Err(IncorrectKind { node, kind: Self::KIND })
        }
    }
}

/// one of `{( | )}`:
/// - [symbols::LParen_]
/// - [symbols::RParen_]
#[derive(Debug, Clone, Copy, PartialEq, Eq, Hash)]
#[allow(non_camel_case_types)]
pub enum LParen__RParen_<'tree> {
    LParen_(symbols::LParen_<'tree>),
    RParen_(symbols::RParen_<'tree>),
}

impl<'tree> LParen__RParen_<'tree> {
    /// The kinds of the nodes of this type.
    pub const KIND: &'static str = "{( | )}";

    /// Returns the node if it is of kind `(` ([symbols::LParen_]), otherwise returns None
    pub fn l_paren_(self) -> (r: Option<symbols::LParen_<'tree>>)
        ensures
            match self {
                Self::LParen_(x) => r == Some(x),
                _ => r is None,
            },
    {
        match self {
            Self::LParen_(x) => Some(x),
            _ => None,
        }
    }

    /// Returns the node if it is of kind `)` ([symbols::RParen_]), otherwise returns None
    pub fn r_paren_(self) -> (r: Option<symbols::RParen_<'tree>>)
        ensures
            match self {
                Self::RParen_(x) => r == Some(x),
                _ => r is None,
            },
    {
        match self {
            Self::RParen_(x) => Some(x),
            _ => None,
        }
    }

    /// The underlying node, whichever the variant.
    pub open spec fn spec_node(self) -> &'tree SyntaxNode {
        match self {
            Self::LParen_(x) => x.0,
            Self::RParen_(x) => x.0,
        }
    }

    /// The underlying node.
    pub fn node(&self) -> (r: &&'tree SyntaxNode)
        ensures
            *r == self.spec_node(),
    {
        match self {
            Self::LParen_(x) => x.node(),
            Self::RParen_(x) => x.node(),
        }
    }

    /// The underlying node, to replace in place.
    pub fn node_mut(&mut self) -> (r: &mut &'tree SyntaxNode)
        ensures
            *r == old(self).spec_node(),
            final(self).spec_node() == *final(r),
            (*old(self)) is LParen_ ==> (*final(self)) is LParen_,
            (*old(self)) is RParen_ ==> (*final(self)) is RParen_,
    {
        match self {
            Self::LParen_(x) => x.node_mut(),
            Self::RParen_(x) => x.node_mut(),
        }
    }

    /// The underlying node, giving up the typed view.
    pub fn into_node(self) -> (r: &'tree SyntaxNode)
        ensures
            r == self.spec_node(),
    {
        match self {
            Self::LParen_(x) => x.into_node(),
            Self::RParen_(x) => x.into_node(),
        }
    }
}

impl<'tree> TryFrom<&'tree SyntaxNode> for LParen__RParen_<'tree> {
    type Error = IncorrectKind<'tree>;

    /// Views `node` as the variant for its kind, if it has one of this type's kinds.
    fn try_from(node: &'tree SyntaxNode) -> (r: NodeResult<'tree, Self>)
        ensures
            r is Ok <==> (
                node.kind@ == "("@
                || node.kind@ == ")"@
            ),
            r matches Ok(Self::LParen_(x)) ==> node.kind@ == "("@ && x == symbols::LParen_(node),
            r matches Ok(Self::RParen_(x)) ==> node.kind@ == ")"@ && x == symbols::RParen_(node),
            r is Err ==> r == Err::<Self, IncorrectKind<'tree>>(IncorrectKind { node, kind: Self::KIND }),
    {
        if str_eq(node.kind, "(") {
            Ok(Self::LParen_(symbols::LParen_::from_node_unchecked(node)))
        } else if str_eq(node.kind, ")") {
            Ok(Self::RParen_(symbols::RParen_::from_node_unchecked(node)))
        } else {
            Err(IncorrectKind { node, kind: Self::KIND })
        }
    }
}

impl<'tree> TryFromSpecImpl<&'tree SyntaxNode> for LParen__RParen_<'tree> {
    open spec fn obeys_try_from_spec() -> bool {
        true
    }

    open spec fn try_from_spec(node: &'tree SyntaxNode) -> NodeResult<'tree, Self> {
        if node.kind@ == "("@ {
            Ok(Self::LParen_(symbols::LParen_(node)))
        } else if node.kind@ == ")"@ {
            Ok(Self::RParen_(symbols::RParen_(node)))
        } else {
            Err(IncorrectKind { node, kind: Self::KIND })
        }
    }
}

/// one of `{alt_arm | cycle | once | shuffle | stopping}`:
/// - [AltArm]
/// - [unnamed::Cycle]
/// - [unnamed::Once]
/// - [unnamed::Shuffle]
/// - [unnamed::Stopping]
#[derive(Debug, Clone, Copy, PartialEq, Eq, Hash)]
#[allow(non_camel_case_types)]
pub enum AltArm_Cycle_Once_Shuffle_Stopping<'tree> {
    AltArm(AltArm<'tree>),
    Cycle(unnamed::Cycle<'tree>),
    Once(unnamed::Once<'tree>),
    Shuffle(unnamed::Shuffle<'tree>),
    Stopping(unnamed::Stopping<'tree>),
}

impl<'tree> AltArm_Cycle_Once_Shuffle_Stopping<'tree> {
    /// The kinds of the nodes of this type.
    pub const KIND: &'static str = "{alt_arm | cycle | once | shuffle | stopping}";

    /// Returns the node if it is of kind `alt_arm` ([AltArm]), otherwise returns None
    pub fn alt_arm(self) -> (r: Option<AltArm<'tree>>)
        ensures
            match self {
                Self::AltArm(x) => r == Some(x),
                _ => r is None,
            },
    {
        match self {
            Self::AltArm(x) => Some(x),
            _ => None,
        }
    }

    /// Returns the node if it is of kind `cycle` ([unnamed::Cycle]), otherwise returns None
    pub fn cycle(self) -> (r: Option<unnamed::Cycle<'tree>>)
        ensures
            match self {
                Self::Cycle(x) => r == Some(x),
                _ => r is None,
            },
    {
        match self {
            Self::Cycle(x) => Some(x),
            _ => None,
        }
    }

    /// Returns the node if it is of kind `once` ([unnamed::Once]), otherwise returns None
    pub fn once(self) -> (r: Option<unnamed::Once<'tree>>)
        ensures
            match self {
                Self::Once(x) => r == Some(x),
                _ => r is None,
            },
    {
        match self {
            Self::Once(x) => Some(x),
            _ => None,
        }
    }

    /// Returns the node if it is of kind `shuffle` ([unnamed::Shuffle]), otherwise returns None
    pub fn shuffle(self) -> (r: Option<unnamed::Shuffle<'tree>>)
        ensures
            match self {
                Self::Shuffle(x) => r == Some(x),
                _ => r is None,
            },
    {
        match self {
            Self::Shuffle(x) => Some(x),
            _ => None,
        }
    }

    /// Returns the node if it is of kind `stopping` ([unnamed::Stopping]), otherwise returns None
    pub fn stopping(self) -> (r: Option<unnamed::Stopping<'tree>>)
        ensures
            match self {
                Self::Stopping(x) => r == Some(x),
                _ => r is None,
            },
    {
        match self {
            Self::Stopping(x) => Some(x),
            _ => None,
        }
    }

    /// The underlying node, whichever the variant.
    pub open spec fn spec_node(self) -> &'tree SyntaxNode {
        match self {
            Self::AltArm(x) => x.0,
            Self::Cycle(x) => x.0,
            Self::Once(x) => x.0,
            Self::Shuffle(x) => x.0,
            Self::Stopping(x) => x.0,
        }
    }

    /// The underlying node.
    pub fn node(&self) -> (r: &&'tree SyntaxNode)
        ensures
            *r == self.spec_node(),
    {
        match self {
            Self::AltArm(x) => x.node(),
            Self::Cycle(x) => x.node(),
            Self::Once(x) => x.node(),
            Self::Shuffle(x) => x.node(),
            Self::Stopping(x) => x.node(),
        }
    }

    /// The underlying node, to replace in place.
    pub fn node_mut(&mut self) -> (r: &mut &'tree SyntaxNode)
        ensures
            *r == old(self).spec_node(),
            final(self).spec_node() == *final(r),
            (*old(self)) is AltArm ==> (*final(self)) is AltArm,
            (*old(self)) is Cycle ==> (*final(self)) is Cycle,
            (*old(self)) is Once ==> (*final(self)) is Once,
            (*old(self)) is Shuffle ==> (*final(self)) is Shuffle,
            (*old(self)) is Stopping ==> (*final(self)) is Stopping,
    {
        match self {
            Self::AltArm(x) => x.node_mut(),
            Self::Cycle(x) => x.node_mut(),
            Self::Once(x) => x.node_mut(),
            Self::Shuffle(x) => x.node_mut(),
            Self::Stopping(x) => x.node_mut(),
        }
    }

    /// The underlying node, giving up the typed view.
    pub fn into_node(self) -> (r: &'tree SyntaxNode)
        ensures
            r == self.spec_node(),
    {
        match self {
            Self::AltArm(x) => x.into_node(),
            Self::Cycle(x) => x.into_node(),
            Self::Once(x) => x.into_node(),
            Self::Shuffle(x) => x.into_node(),
            Self::Stopping(x) => x.into_node(),
        }
    }
}

impl<'tree> TryFrom<&'tree SyntaxNode> for AltArm_Cycle_Once_Shuffle_Stopping<'tree> {
    type Error = IncorrectKind<'tree>;

    /// Views `node` as the variant for its kind, if it has one of this type's kinds.
    fn try_from(node: &'tree SyntaxNode) -> (r: NodeResult<'tree, Self>)
        ensures
            r is Ok <==> (
                node.kind@ == "alt_arm"@
                || node.kind@ == "cycle"@
                || node.kind@ == "once"@
                || node.kind@ == "shuffle"@
                || node.kind@ == "stopping"@
            ),
            r matches Ok(Self::AltArm(x)) ==> node.kind@ == "alt_arm"@ && x == AltArm(node),
            r matches Ok(Self::Cycle(x)) ==> node.kind@ == "cycle"@ && x == unnamed::Cycle(node),
            r matches Ok(Self::Once(x)) ==> node.kind@ == "once"@ && x == unnamed::Once(node),
            r matches Ok(Self::Shuffle(x)) ==> node.kind@ == "shuffle"@ && x == unnamed::Shuffle(node),
            r matches Ok(Self::Stopping(x)) ==> node.kind@ == "stopping"@ && x == unnamed::Stopping(node),
            r is Err ==> r == Err::<Self, IncorrectKind<'tree>>(IncorrectKind { node, kind: Self::KIND }),
    {
        if str_eq(node.kind, "alt_arm") {
            Ok(Self::AltArm(AltArm::from_node_unchecked(node)))
        } else if str_eq(node.kind, "cycle") {
            Ok(Self::Cycle(unnamed::Cycle::from_node_unchecked(node)))
        } else if str_eq(node.kind, "once") {
            Ok(Self::Once(unnamed::Once::from_node_unchecked(node)))
        } else if str_eq(node.kind, "shuffle") {
            Ok(Self::Shuffle(unnamed::Shuffle::from_node_unchecked(node)))
        } else if str_eq(node.kind, "stopping") {
            Ok(Self::Stopping(unnamed::Stopping::from_node_unchecked(node)))
        } else {
            Err(IncorrectKind { node, kind: Self::KIND })
        }
    }
}

impl<'tree> TryFromSpecImpl<&'tree SyntaxNode> for AltArm_Cycle_Once_Shuffle_Stopping<'tree> {
    open spec fn obeys_try_from_spec() -> bool {
        true
    }

    open spec fn try_from_spec(node: &'tree SyntaxNode) -> NodeResult<'tree, Self> {
        if node.kind@ == "alt_arm"@ {
            Ok(Self::AltArm(AltArm(node)))
        } else if node.kind@ == "cycle"@ {
            Ok(Self::Cycle(unnamed::Cycle(node)))
        } else if node.kind@ == "once"@ {
            Ok(Self::Once(unnamed::Once(node)))
        } else if node.kind@ == "shuffle"@ {
            Ok(Self::Shuffle(unnamed::Shuffle(node)))
        } else if node.kind@ == "stopping"@ {
            Ok(Self::Stopping(unnamed::Stopping(node)))
        } else {
            Err(IncorrectKind { node, kind: Self::KIND })
        }
    }
}

/// one of `{cycle | once | shuffle | stopping}`:
/// - [unnamed::Cycle]
/// - [unnamed::Once]
/// - [unnamed::Shuffle]
/// - [unnamed::Stopping]
#[derive(Debug, Clone, Copy, PartialEq, Eq, Hash)]
#[allow(non_camel_case_types)]
pub enum Cycle_Once_Shuffle_Stopping<'tree> {
    Cycle(unnamed::Cycle<'tree>),
    Once(unnamed::Once<'tree>),
    Shuffle(unnamed::Shuffle<'tree>),
    Stopping(unnamed::Stopping<'tree>),
}

impl<'tree> Cycle_Once_Shuffle_Stopping<'tree> {
    /// The kinds of the nodes of this type.
    pub const KIND: &'static str = "{cycle | once | shuffle | stopping}";

    /// Returns the node if it is of kind `cycle` ([unnamed::Cycle]), otherwise returns None
    pub fn cycle(self) -> (r: Option<unnamed::Cycle<'tree>>)
        ensures
            match self {
                Self::Cycle(x) => r == Some(x),
                _ => r is None,
            },
    {
        match self {
            Self::Cycle(x) => Some(x),
            _ => None,
        }
    }

    /// Returns the node if it is of kind `once` ([unnamed::Once]), otherwise returns None
    pub fn once(self) -> (r: Option<unnamed::Once<'tree>>)
        ensures
            match self {
                Self::Once(x) => r == Some(x),
                _ => r is None,
            },
    {
        match self {
            Self::Once(x) => Some(x),
            _ => None,
        }
    }

    /// Returns the node if it is of kind `shuffle` ([unnamed::Shuffle]), otherwise returns None
    pub fn shuffle(self) -> (r: Option<unnamed::Shuffle<'tree>>)
        ensures
            match self {
                Self::Shuffle(x) => r == Some(x),
                _ => r is None,
            },
    {
        match self {
            Self::Shuffle(x) => Some(x),
            _ => None,
        }
    }

    /// Returns the node if it is of kind `stopping` ([unnamed::Stopping]), otherwise returns None
    pub fn stopping(self) -> (r: Option<unnamed::Stopping<'tree>>)
        ensures
            match self {
                Self::Stopping(x) => r == Some(x),
                _ => r is None,
            },
    {
        match self {
            Self::Stopping(x) => Some(x),
            _ => None,
        }
    }

    /// The underlying node, whichever the variant.
    pub open spec fn spec_node(self) -> &'tree SyntaxNode {
        match self {
            Self::Cycle(x) => x.0,
            Self::Once(x) => x.0,
            Self::Shuffle(x) => x.0,
            Self::Stopping(x) => x.0,
        }
    }

    /// The underlying node.
    pub fn node(&self) -> (r: &&'tree SyntaxNode)
        ensures
            *r == self.spec_node(),
    {
        match self {
            Self::Cycle(x) => x.node(),
            Self::Once(x) => x.node(),
            Self::Shuffle(x) => x.node(),
            Self::Stopping(x) => x.node(),
        }
    }

    /// The underlying node, to replace in place.
    pub fn node_mut(&mut self) -> (r: &mut &'tree SyntaxNode)
        ensures
            *r == old(self).spec_node(),
            final(self).spec_node() == *final(r),
            (*old(self)) is Cycle ==> (*final(self)) is Cycle,
            (*old(self)) is Once ==> (*final(self)) is Once,
            (*old(self)) is Shuffle ==> (*final(self)) is Shuffle,
            (*old(self)) is Stopping ==> (*final(self)) is Stopping,
    {
        match self {
            Self::Cycle(x) => x.node_mut(),
            Self::Once(x) => x.node_mut(),
            Self::Shuffle(x) => x.node_mut(),
            Self::Stopping(x) => x.node_mut(),
        }
    }

    /// The underlying node, giving up the typed view.
    pub fn into_node(self) -> (r: &'tree SyntaxNode)
        ensures
            r == self.spec_node(),
    {
        match self {
            Self::Cycle(x) => x.into_node(),
            Self::Once(x) => x.into_node(),
            Self::Shuffle(x) => x.into_node(),
            Self::Stopping(x) => x.into_node(),
        }
    }
}

impl<'tree> TryFrom<&'tree SyntaxNode> for Cycle_Once_Shuffle_Stopping<'tree> {
    type Error = IncorrectKind<'tree>;

    /// Views `node` as the variant for its kind, if it has one of this type's kinds.
    fn try_from(node: &'tree SyntaxNode) -> (r: NodeResult<'tree, Self>)
        ensures
            r is Ok <==> (
                node.kind@ == "cycle"@
                || node.kind@ == "once"@
                || node.kind@ == "shuffle"@
                || node.kind@ == "stopping"@
            ),
            r matches Ok(Self::Cycle(x)) ==> node.kind@ == "cycle"@ && x == unnamed::Cycle(node),
            r matches Ok(Self::Once(x)) ==> node.kind@ == "once"@ && x == unnamed::Once(node),
            r matches Ok(Self::Shuffle(x)) ==> node.kind@ == "shuffle"@ && x == unnamed::Shuffle(node),
            r matches Ok(Self::Stopping(x)) ==> node.kind@ == "stopping"@ && x == unnamed::Stopping(node),
            r is Err ==> r == Err::<Self, IncorrectKind<'tree>>(IncorrectKind { node, kind: Self::KIND }),
    {
        if str_eq(node.kind, "cycle") {
            Ok(Self::Cycle(unnamed::Cycle::from_node_unchecked(node)))
        } else if str_eq(node.kind, "once") {
            Ok(Self::Once(unnamed::Once::from_node_unchecked(node)))
        } else if str_eq(node.kind, "shuffle") {
            Ok(Self::Shuffle(unnamed::Shuffle::from_node_unchecked(node)))
        } else if str_eq(node.kind, "stopping") {
            Ok(Self::Stopping(unnamed::Stopping::from_node_unchecked(node)))
        } else {
            Err(IncorrectKind { node, kind: Self::KIND })
        }
    }
}

impl<'tree> TryFromSpecImpl<&'tree SyntaxNode> for Cycle_Once_Shuffle_Stopping<'tree> {
    open spec fn obeys_try_from_spec() -> bool {
        true
    }

    open spec fn try_from_spec(node: &'tree SyntaxNode) -> NodeResult<'tree, Self> {
        if node.kind@ == "cycle"@ {
            Ok(Self::Cycle(unnamed::Cycle(node)))
        } else if node.kind@ == "once"@ {
            Ok(Self::Once(unnamed::Once(node)))
        } else if node.kind@ == "shuffle"@ {
            Ok(Self::Shuffle(unnamed::Shuffle(node)))
        } else if node.kind@ == "stopping"@ {
            Ok(Self::Stopping(unnamed::Stopping(node)))
        } else {
            Err(IncorrectKind { node, kind: Self::KIND })
        }
    }
}

/// one of `{divert | identifier | ref}`:
/// - [Divert]
/// - [Identifier]
/// - [unnamed::Ref]
#[derive(Debug, Clone, Copy, PartialEq, Eq, Hash)]
#[allow(non_camel_case_types)]
pub enum Divert_Identifier_Ref<'tree> {
    Divert(Divert<'tree>),
    Identifier(Identifier<'tree>),
    Ref(unnamed::Ref<'tree>),
}

impl<'tree> Divert_Identifier_Ref<'tree> {
    /// The kinds of the nodes of this type.
    pub const KIND: &'static str = "{divert | identifier | ref}";

    /// Returns the node if it is of kind `divert` ([Divert]), otherwise returns None
    pub fn divert(self) -> (r: Option<Divert<'tree>>)
        ensures
            match self {
                Self::Divert(x) => r == Some(x),
                _ => r is None,
            },
    {
        match self {
            Self::Divert(x) => Some(x),
            _ => None,
        }
    }

    /// Returns the node if it is of kind `identifier` ([Identifier]), otherwise returns None
    pub fn identifier(self) -> (r: Option<Identifier<'tree>>)
        ensures
            match self {
                Self::Identifier(x) => r == Some(x),
                _ => r is None,
            },
    {
        match self {
            Self::Identifier(x) => Some(x),
            _ => None,
        }
    }

    /// Returns the node if it is of kind `ref` ([unnamed::Ref]), otherwise returns None
    pub fn ref_node(self) -> (r: Option<unnamed::Ref<'tree>>)
        ensures
            match self {
                Self::Ref(x) => r == Some(x),
                _ => r is None,
            },
    {
        match self {
            Self::Ref(x) => Some(x),
            _ => None,
        }
    }

    /// The underlying node, whichever the variant.
    pub open spec fn spec_node(self) -> &'tree SyntaxNode {
        match self {
            Self::Divert(x) => x.0,
            Self::Identifier(x) => x.0,
            Self::Ref(x) => x.0,
        }
    }

    /// The underlying node.
    pub fn node(&self) -> (r: &&'tree SyntaxNode)
        ensures
            *r == self.spec_node(),
    {
        match self {
            Self::Divert(x) => x.node(),
            Self::Identifier(x) => x.node(),
            Self::Ref(x) => x.node(),
        }
    }

    /// The underlying node, to replace in place.
    pub fn node_mut(&mut self) -> (r: &mut &'tree SyntaxNode)
        ensures
            *r == old(self).spec_node(),
            final(self).spec_node() == *final(r),
            (*old(self)) is Divert ==> (*final(self)) is Divert,
            (*old(self)) is Identifier ==> (*final(self)) is Identifier,
            (*old(self)) is Ref ==> (*final(self)) is Ref,
    {
        match self {
            Self::Divert(x) => x.node_mut(),
            Self::Identifier(x) => x.node_mut(),
            Self::Ref(x) => x.node_mut(),
        }
    }

    /// The underlying node, giving up the typed view.
    pub fn into_node(self) -> (r: &'tree SyntaxNode)
        ensures
            r == self.spec_node(),
    {
        match self {
            Self::Divert(x) => x.into_node(),
            Self::Identifier(x) => x.into_node(),
            Self::Ref(x) => x.into_node(),
        }
    }
}

impl<'tree> TryFrom<&'tree SyntaxNode> for Divert_Identifier_Ref<'tree> {
    type Error = IncorrectKind<'tree>;

    /// Views `node` as the variant for its kind, if it has one of this type's kinds.
    fn try_from(node: &'tree SyntaxNode) -> (r: NodeResult<'tree, Self>)
        ensures
            r is Ok <==> (
                node.kind@ == "divert"@
                || node.kind@ == "identifier"@
                || node.kind@ == "ref"@
            ),
            r matches Ok(Self::Divert(x)) ==> node.kind@ == "divert"@ && x == Divert(node),
            r matches Ok(Self::Identifier(x)) ==> node.kind@ == "identifier"@ && x == Identifier(node),
            r matches Ok(Self::Ref(x)) ==> node.kind@ == "ref"@ && x == unnamed::Ref(node),
            r is Err ==> r == Err::<Self, IncorrectKind<'tree>>(IncorrectKind { node, kind: Self::KIND }),
    {
        if str_eq(node.kind, "divert") {
            Ok(Self::Divert(Divert::from_node_unchecked(node)))
        } else if str_eq(node.kind, "identifier") {
            Ok(Self::Identifier(Identifier::from_node_unchecked(node)))
        } else if str_eq(node.kind, "ref") {
            Ok(Self::Ref(unnamed::Ref::from_node_unchecked(node)))
        } else {
            Err(IncorrectKind { node, kind: Self::KIND })
        }
    }
}

impl<'tree> TryFromSpecImpl<&'tree SyntaxNode> for Divert_Identifier_Ref<'tree> {
    open spec fn obeys_try_from_spec() -> bool {
        true
    }

    open spec fn try_from_spec(node: &'tree SyntaxNode) -> NodeResult<'tree, Self> {
        if node.kind@ == "divert"@ {
            Ok(Self::Divert(Divert(node)))
        } else if node.kind@ == "identifier"@ {
            Ok(Self::Identifier(Identifier(node)))
        } else if node.kind@ == "ref"@ {
            Ok(Self::Ref(unnamed::Ref(node)))
        } else {
            Err(IncorrectKind { node, kind: Self::KIND })
        }
    }
}

/// one of `{identifier | ++ | --}`:
/// - [Identifier]
/// - [symbols::Add_Add_]
/// - [symbols::Sub_Sub_]
#[derive(Debug, Clone, Copy, PartialEq, Eq, Hash)]
#[allow(non_camel_case_types)]
pub enum Identifier_Add_Add__Sub_Sub_<'tree> {
    Identifier(Identifier<'tree>),
    Add_Add_(symbols::Add_Add_<'tree>),
    Sub_Sub_(symbols::Sub_Sub_<'tree>),
}

impl<'tree> Identifier_Add_Add__Sub_Sub_<'tree> {
    /// The kinds of the nodes of this type.
    pub const KIND: &'static str = "{identifier | ++ | --}";

    /// Returns the node if it is of kind `identifier` ([Identifier]), otherwise returns None
    pub fn identifier(self) -> (r: Option<Identifier<'tree>>)
        ensures
            match self {
                Self::Identifier(x) => r == Some(x),
                _ => r is None,
            },
    {
        match self {
            Self::Identifier(x) => Some(x),
            _ => None,
        }
    }

    /// Returns the node if it is of kind `++` ([symbols::Add_Add_]), otherwise returns None
    pub fn add_add_(self) -> (r: Option<symbols::Add_Add_<'tree>>)
        ensures
            match self {
                Self::Add_Add_(x) => r == Some(x),
                _ => r is None,
            },
    {
        match self {
            Self::Add_Add_(x) => Some(x),
            _ => None,
        }
    }

    /// Returns the node if it is of kind `--` ([symbols::Sub_Sub_]), otherwise returns None
    pub fn sub_sub_(self) -> (r: Option<symbols::Sub_Sub_<'tree>>)
        ensures
            match self {
                Self::Sub_Sub_(x) => r == Some(x),
                _ => r is None,
            },
    {
        match self {
            Self::Sub_Sub_(x) => Some(x),
            _ => None,
        }
    }

    /// The underlying node, whichever the variant.
    pub open spec fn spec_node(self) -> &'tree SyntaxNode {
        match self {
            Self::Identifier(x) => x.0,
            Self::Add_Add_(x) => x.0,
            Self::Sub_Sub_(x) => x.0,
        }
    }

    /// The underlying node.
    pub fn node(&self) -> (r: &&'tree SyntaxNode)
        ensures
            *r == self.spec_node(),
    {
        match self {
            Self::Identifier(x) => x.node(),
            Self::Add_Add_(x) => x.node(),
            Self::Sub_Sub_(x) => x.node(),
        }
    }

    /// The underlying node, to replace in place.
    pub fn node_mut(&mut self) -> (r: &mut &'tree SyntaxNode)
        ensures
            *r == old(self).spec_node(),
            final(self).spec_node() == *final(r),
            (*old(self)) is Identifier ==> (*final(self)) is Identifier,
            (*old(self)) is Add_Add_ ==> (*final(self)) is Add_Add_,
            (*old(self)) is Sub_Sub_ ==> (*final(self)) is Sub_Sub_,
    {
        match self {
            Self::Identifier(x) => x.node_mut(),
            Self::Add_Add_(x) => x.node_mut(),
            Self::Sub_Sub_(x) => x.node_mut(),
        }
    }

    /// The underlying node, giving up the typed view.
    pub fn into_node(self) -> (r: &'tree SyntaxNode)
        ensures
            r == self.spec_node(),
    {
        match self {
            Self::Identifier(x) => x.into_node(),
            Self::Add_Add_(x) => x.into_node(),
            Self::Sub_Sub_(x) => x.into_node(),
        }
    }
}

impl<'tree> TryFrom<&'tree SyntaxNode> for Identifier_Add_Add__Sub_Sub_<'tree> {
    type Error = IncorrectKind<'tree>;

    /// Views `node` as the variant for its kind, if it has one of this type's kinds.
    fn try_from(node: &'tree SyntaxNode) -> (r: NodeResult<'tree, Self>)
        ensures
            r is Ok <==> (
                node.kind@ == "identifier"@
                || node.kind@ == "++"@
                || node.kind@ == "--"@
            ),
            r matches Ok(Self::Identifier(x)) ==> node.kind@ == "identifier"@ && x == Identifier(node),
            r matches Ok(Self::Add_Add_(x)) ==> node.kind@ == "++"@ && x == symbols::Add_Add_(node),
            r matches Ok(Self::Sub_Sub_(x)) ==> node.kind@ == "--"@ && x == symbols::Sub_Sub_(node),
            r is Err ==> r == Err::<Self, IncorrectKind<'tree>>(IncorrectKind { node, kind: Self::KIND }),
    {
        if str_eq(node.kind, "identifier") {
            Ok(Self::Identifier(Identifier::from_node_unchecked(node)))
        } else if str_eq(node.kind, "++") {
            Ok(Self::Add_Add_(symbols::Add_Add_::from_node_unchecked(node)))
        } else if str_eq(node.kind, "--") {
            Ok(Self::Sub_Sub_(symbols::Sub_Sub_::from_node_unchecked(node)))
        } else {
            Err(IncorrectKind { node, kind: Self::KIND })
        }
    }
}

impl<'tree> TryFromSpecImpl<&'tree SyntaxNode> for Identifier_Add_Add__Sub_Sub_<'tree> {
    open spec fn obeys_try_from_spec() -> bool {
        true
    }

    open spec fn try_from_spec(node: &'tree SyntaxNode) -> NodeResult<'tree, Self> {
        if node.kind@ == "identifier"@ {
            Ok(Self::Identifier(Identifier(node)))
        } else if node.kind@ == "++"@ {
            Ok(Self::Add_Add_(symbols::Add_Add_(node)))
        } else if node.kind@ == "--"@ {
            Ok(Self::Sub_Sub_(symbols::Sub_Sub_(node)))
        } else {
            Err(IncorrectKind { node, kind: Self::KIND })
        }
    }
}

/// one of `{++ | --}`:
/// - [symbols::Add_Add_]
/// - [symbols::Sub_Sub_]
#[derive(Debug, Clone, Copy, PartialEq, Eq, Hash)]
#[allow(non_camel_case_types)]
pub enum Add_Add__Sub_Sub_<'tree> {
    Add_Add_(symbols::Add_Add_<'tree>),
    Sub_Sub_(symbols::Sub_Sub_<'tree>),
}

impl<'tree> Add_Add__Sub_Sub_<'tree> {
    /// The kinds of the nodes of this type.
    pub const KIND: &'static str = "{++ | --}";

    /// Returns the node if it is of kind `++` ([symbols::Add_Add_]), otherwise returns None
    pub fn add_add_(self) -> (r: Option<symbols::Add_Add_<'tree>>)
        ensures
            match self {
                Self::Add_Add_(x) => r == Some(x),
                _ => r is None,
            },
    {
        match self {
            Self::Add_Add_(x) => Some(x),
            _ => None,
        }
    }

    /// Returns the node if it is of kind `--` ([symbols::Sub_Sub_]), otherwise returns None
    pub fn sub_sub_(self) -> (r: Option<symbols::Sub_Sub_<'tree>>)
        ensures
            match self {
                Self::Sub_Sub_(x) => r == Some(x),
                _ => r is None,
            },
    {
        match self {
            Self::Sub_Sub_(x) => Some(x),
            _ => None,
        }
    }

    /// The underlying node, whichever the variant.
    pub open spec fn spec_node(self) -> &'tree SyntaxNode {
        match self {
            Self::Add_Add_(x) => x.0,
            Self::Sub_Sub_(x) => x.0,
        }
    }

    /// The underlying node.
    pub fn node(&self) -> (r: &&'tree SyntaxNode)
        ensures
            *r == self.spec_node(),
    {
        match self {
            Self::Add_Add_(x) => x.node(),
            Self::Sub_Sub_(x) => x.node(),
        }
    }

    /// The underlying node, to replace in place.
    pub fn node_mut(&mut self) -> (r: &mut &'tree SyntaxNode)
        ensures
            *r == old(self).spec_node(),
            final(self).spec_node() == *final(r),
            (*old(self)) is Add_Add_ ==> (*final(self)) is Add_Add_,
            (*old(self)) is Sub_Sub_ ==> (*final(self)) is Sub_Sub_,
    {
        match self {
            Self::Add_Add_(x) => x.node_mut(),
            Self::Sub_Sub_(x) => x.node_mut(),
        }
    }

    /// The underlying node, giving up the typed view.
    pub fn into_node(self) -> (r: &'tree SyntaxNode)
        ensures
            r == self.spec_node(),
    {
        match self {
            Self::Add_Add_(x) => x.into_node(),
            Self::Sub_Sub_(x) => x.into_node(),
        }
    }
}

impl<'tree> TryFrom<&'tree SyntaxNode> for Add_Add__Sub_Sub_<'tree> {
    type Error = IncorrectKind<'tree>;

    /// Views `node` as the variant for its kind, if it has one of this type's kinds.
    fn try_from(node: &'tree SyntaxNode) -> (r: NodeResult<'tree, Self>)
        ensures
            r is Ok <==> (
                node.kind@ == "++"@
                || node.kind@ == "--"@
            ),
            r matches Ok(Self::Add_Add_(x)) ==> node.kind@ == "++"@ && x == symbols::Add_Add_(node),
            r matches Ok(Self::Sub_Sub_(x)) ==> node.kind@ == "--"@ && x == symbols::Sub_Sub_(node),
            r is Err ==> r == Err::<Self, IncorrectKind<'tree>>(IncorrectKind { node, kind: Self::KIND }),
    {
        if str_eq(node.kind, "++") {
            Ok(Self::Add_Add_(symbols::Add_Add_::from_node_unchecked(node)))
        } else if str_eq(node.kind, "--") {
            Ok(Self::Sub_Sub_(symbols::Sub_Sub_::from_node_unchecked(node)))
        } else {
            Err(IncorrectKind { node, kind: Self::KIND })
        }
    }
}

impl<'tree> TryFromSpecImpl<&'tree SyntaxNode> for Add_Add__Sub_Sub_<'tree> {
    open spec fn obeys_try_from_spec() -> bool {
        true
    }

    open spec fn try_from_spec(node: &'tree SyntaxNode) -> NodeResult<'tree, Self> {
        if node.kind@ == "++"@ {
            Ok(Self::Add_Add_(symbols::Add_Add_(node)))
        } else if node.kind@ == "--"@ {
            Ok(Self::Sub_Sub_(symbols::Sub_Sub_(node)))
        } else {
            Err(IncorrectKind { node, kind: Self::KIND })
        }
    }
}

/// one of `{content_block | stitch}`:
/// - [ContentBlock]
/// - [Stitch]
#[derive(Debug, Clone, Copy, PartialEq, Eq, Hash)]
#[allow(non_camel_case_types)]
pub enum ContentBlock_Stitch<'tree> {
    ContentBlock(ContentBlock<'tree>),
    Stitch(Stitch<'tree>),
}

impl<'tree> ContentBlock_Stitch<'tree> {
    /// The kinds of the nodes of this type.
    pub const KIND: &'static str = "{content_block | stitch}";

    /// Returns the node if it is of kind `content_block` ([ContentBlock]), otherwise returns None
    pub fn content_block(self) -> (r: Option<ContentBlock<'tree>>)
        ensures
            match self {
                Self::ContentBlock(x) => r == Some(x),
                _ => r is None,
            },
    {
        match self {
            Self::ContentBlock(x) => Some(x),
            _ => None,
        }
    }

    /// Returns the node if it is of kind `stitch` ([Stitch]), otherwise returns None
    pub fn stitch(self) -> (r: Option<Stitch<'tree>>)
        ensures
            match self {
                Self::Stitch(x) => r == Some(x),
                _ => r is None,
            },
    {
        match self {
            Self::Stitch(x) => Some(x),
            _ => None,
        }
    }

    /// The underlying node, whichever the variant.
    pub open spec fn spec_node(self) -> &'tree SyntaxNode {
        match self {
            Self::ContentBlock(x) => x.0,
            Self::Stitch(x) => x.0,
        }
    }

    /// The underlying node.
    pub fn node(&self) -> (r: &&'tree SyntaxNode)
        ensures
            *r == self.spec_node(),
    {
        match self {
            Self::ContentBlock(x) => x.node(),
            Self::Stitch(x) => x.node(),
        }
    }

    /// The underlying node, to replace in place.
    pub fn node_mut(&mut self) -> (r: &mut &'tree SyntaxNode)
        ensures
            *r == old(self).spec_node(),
            final(self).spec_node() == *final(r),
            (*old(self)) is ContentBlock ==> (*final(self)) is ContentBlock,
            (*old(self)) is Stitch ==> (*final(self)) is Stitch,
    {
        match self {
            Self::ContentBlock(x) => x.node_mut(),
            Self::Stitch(x) => x.node_mut(),
        }
    }

    /// The underlying node, giving up the typed view.
    pub fn into_node(self) -> (r: &'tree SyntaxNode)
        ensures
            r == self.spec_node(),
    {
        match self {
            Self::ContentBlock(x) => x.into_node(),
            Self::Stitch(x) => x.into_node(),
        }
    }
}

impl<'tree> TryFrom<&'tree SyntaxNode> for ContentBlock_Stitch<'tree> {
    type Error = IncorrectKind<'tree>;

    /// Views `node` as the variant for its kind, if it has one of this type's kinds.
    fn try_from(node: &'tree SyntaxNode) -> (r: NodeResult<'tree, Self>)
        ensures
            r is Ok <==> (
                node.kind@ == "content_block"@
                || node.kind@ == "stitch"@
            ),
            r matches Ok(Self::ContentBlock(x)) ==> node.kind@ == "content_block"@ && x == ContentBlock(node),
            r matches Ok(Self::Stitch(x)) ==> node.kind@ == "stitch"@ && x == Stitch(node),
            r is Err ==> r == Err::<Self, IncorrectKind<'tree>>(IncorrectKind { node, kind: Self::KIND }),
    {
        if str_eq(node.kind, "content_block") {
            Ok(Self::ContentBlock(ContentBlock::from_node_unchecked(node)))
        } else if str_eq(node.kind, "stitch") {
            Ok(Self::Stitch(Stitch::from_node_unchecked(node)))
        } else {
            Err(IncorrectKind { node, kind: Self::KIND })
        }
    }
}

impl<'tree> TryFromSpecImpl<&'tree SyntaxNode> for ContentBlock_Stitch<'tree> {
    open spec fn obeys_try_from_spec() -> bool {
        true
    }

    open spec fn try_from_spec(node: &'tree SyntaxNode) -> NodeResult<'tree, Self> {
        if node.kind@ == "content_block"@ {
            Ok(Self::ContentBlock(ContentBlock(node)))
        } else if node.kind@ == "stitch"@ {
            Ok(Self::Stitch(Stitch(node)))
        } else {
            Err(IncorrectKind { node, kind: Self::KIND })
        }
    }
}

/// one of `{alternatives | cond_block | conditional_text | eval | glue | multiline_alternatives | text}`:
/// - [Alternatives]
/// - [CondBlock]
/// - [ConditionalText]
/// - [Eval]
/// - [Glue]
/// - [MultilineAlternatives]
/// - [Text]
#[derive(Debug, Clone, Copy, PartialEq, Eq, Hash)]
#[allow(non_camel_case_types)]
pub enum Alternatives_CondBlock_ConditionalText_Eval_Glue_MultilineAlternatives_Text<'tree> {
    Alternatives(Alternatives<'tree>),
    CondBlock(CondBlock<'tree>),
    ConditionalText(ConditionalText<'tree>),
    Eval(Eval<'tree>),
    Glue(Glue<'tree>),
    MultilineAlternatives(MultilineAlternatives<'tree>),
    Text(Text<'tree>),
}

impl<'tree> Alternatives_CondBlock_ConditionalText_Eval_Glue_MultilineAlternatives_Text<'tree> {
    /// The kinds of the nodes of this type.
    pub const KIND: &'static str = "{alternatives | cond_block | conditional_text | eval | glue | multiline_alternatives | text}";

    /// Returns the node if it is of kind `alternatives` ([Alternatives]), otherwise returns None
    pub fn alternatives(self) -> (r: Option<Alternatives<'tree>>)
        ensures
            match self {
                Self::Alternatives(x) => r == Some(x),
                _ => r is None,
            },
    {
        match self {
            Self::Alternatives(x) => Some(x),
            _ => None,
        }
    }

    /// Returns the node if it is of kind `cond_block` ([CondBlock]), otherwise returns None
    pub fn cond_block(self) -> (r: Option<CondBlock<'tree>>)
        ensures
            match self {
                Self::CondBlock(x) => r == Some(x),
                _ => r is None,
            },
    {
        match self {
            Self::CondBlock(x) => Some(x),
            _ => None,
        }
    }

    /// Returns the node if it is of kind `conditional_text` ([ConditionalText]), otherwise returns None
    pub fn conditional_text(self) -> (r: Option<ConditionalText<'tree>>)
        ensures
            match self {
                Self::ConditionalText(x) => r == Some(x),
                _ => r is None,
            },
    {
        match self {
            Self::ConditionalText(x) => Some(x),
            _ => None,
        }
    }

    /// Returns the node if it is of kind `eval` ([Eval]), otherwise returns None
    pub fn eval(self) -> (r: Option<Eval<'tree>>)
        ensures
            match self {
                Self::Eval(x) => r == Some(x),
                _ => r is None,
            },
    {
        match self {
            Self::Eval(x) => Some(x),
            _ => None,
        }
    }

    /// Returns the node if it is of kind `glue` ([Glue]), otherwise returns None
    pub fn glue(self) -> (r: Option<Glue<'tree>>)
        ensures
            match self {
                Self::Glue(x) => r == Some(x),
                _ => r is None,
            },
    {
        match self {
            Self::Glue(x) => Some(x),
            _ => None,
        }
    }

    /// Returns the node if it is of kind `multiline_alternatives` ([MultilineAlternatives]), otherwise returns None
    pub fn multiline_alternatives(self) -> (r: Option<MultilineAlternatives<'tree>>)
        ensures
            match self {
                Self::MultilineAlternatives(x) => r == Some(x),
                _ => r is None,
            },
    {
        match self {
            Self::MultilineAlternatives(x) => Some(x),
            _ => None,
        }
    }

    /// Returns the node if it is of kind `text` ([Text]), otherwise returns None
    pub fn text(self) -> (r: Option<Text<'tree>>)
        ensures
            match self {
                Self::Text(x) => r == Some(x),
                _ => r is None,
            },
    {
        match self {
            Self::Text(x) => Some(x),
            _ => None,
        }
    }

    /// The underlying node, whichever the variant.
    pub open spec fn spec_node(self) -> &'tree SyntaxNode {
        match self {
            Self::Alternatives(x) => x.0,
            Self::CondBlock(x) => x.0,
            Self::ConditionalText(x) => x.0,
            Self::Eval(x) => x.0,
            Self::Glue(x) => x.0,
            Self::MultilineAlternatives(x) => x.0,
            Self::Text(x) => x.0,
        }
    }

    /// The underlying node.
    pub fn node(&self) -> (r: &&'tree SyntaxNode)
        ensures
            *r == self.spec_node(),
    {
        match self {
            Self::Alternatives(x) => x.node(),
            Self::CondBlock(x) => x.node(),
            Self::ConditionalText(x) => x.node(),
            Self::Eval(x) => x.node(),
            Self::Glue(x) => x.node(),
            Self::MultilineAlternatives(x) => x.node(),
            Self::Text(x) => x.node(),
        }
    }

    /// The underlying node, to replace in place.
    pub fn node_mut(&mut self) -> (r: &mut &'tree SyntaxNode)
        ensures
            *r == old(self).spec_node(),
            final(self).spec_node() == *final(r),
            (*old(self)) is Alternatives ==> (*final(self)) is Alternatives,
            (*old(self)) is CondBlock ==> (*final(self)) is CondBlock,
            (*old(self)) is ConditionalText ==> (*final(self)) is ConditionalText,
            (*old(self)) is Eval ==> (*final(self)) is Eval,
            (*old(self)) is Glue ==> (*final(self)) is Glue,
            (*old(self)) is MultilineAlternatives ==> (*final(self)) is MultilineAlternatives,
            (*old(self)) is Text ==> (*final(self)) is Text,
    {
        match self {
            Self::Alternatives(x) => x.node_mut(),
            Self::CondBlock(x) => x.node_mut(),
            Self::ConditionalText(x) => x.node_mut(),
            Self::Eval(x) => x.node_mut(),
            Self::Glue(x) => x.node_mut(),
            Self::MultilineAlternatives(x) => x.node_mut(),
            Self::Text(x) => x.node_mut(),
        }
    }

    /// The underlying node, giving up the typed view.
    pub fn into_node(self) -> (r: &'tree SyntaxNode)
        ensures
            r == self.spec_node(),
    {
        match self {
            Self::Alternatives(x) => x.into_node(),
            Self::CondBlock(x) => x.into_node(),
            Self::ConditionalText(x) => x.into_node(),
            Self::Eval(x) => x.into_node(),
            Self::Glue(x) => x.into_node(),
            Self::MultilineAlternatives(x) => x.into_node(),
            Self::Text(x) => x.into_node(),
        }
    }
}

impl<'tree> TryFrom<&'tree SyntaxNode> for Alternatives_CondBlock_ConditionalText_Eval_Glue_MultilineAlternatives_Text<'tree> {
    type Error = IncorrectKind<'tree>;

    /// Views `node` as the variant for its kind, if it has one of this type's kinds.
    fn try_from(node: &'tree SyntaxNode) -> (r: NodeResult<'tree, Self>)
        ensures
            r is Ok <==> (
                node.kind@ == "alternatives"@
                || node.kind@ == "cond_block"@
                || node.kind@ == "conditional_text"@
                || node.kind@ == "eval"@
                || node.kind@ == "glue"@
                || node.kind@ == "multiline_alternatives"@
                || node.kind@ == "text"@
            ),
            r matches Ok(Self::Alternatives(x)) ==> node.kind@ == "alternatives"@ && x == Alternatives(node),
            r matches Ok(Self::CondBlock(x)) ==> node.kind@ == "cond_block"@ && x == CondBlock(node),
            r matches Ok(Self::ConditionalText(x)) ==> node.kind@ == "conditional_text"@ && x == ConditionalText(node),
            r matches Ok(Self::Eval(x)) ==> node.kind@ == "eval"@ && x == Eval(node),
            r matches Ok(Self::Glue(x)) ==> node.kind@ == "glue"@ && x == Glue(node),
            r matches Ok(Self::MultilineAlternatives(x)) ==> node.kind@ == "multiline_alternatives"@ && x == MultilineAlternatives(node),
            r matches Ok(Self::Text(x)) ==> node.kind@ == "text"@ && x == Text(node),
            r is Err ==> r == Err::<Self, IncorrectKind<'tree>>(IncorrectKind { node, kind: Self::KIND }),
    {
        if str_eq(node.kind, "alternatives") {
            Ok(Self::Alternatives(Alternatives::from_node_unchecked(node)))
        } else if str_eq(node.kind, "cond_block") {
            Ok(Self::CondBlock(CondBlock::from_node_unchecked(node)))
        } else if str_eq(node.kind, "conditional_text") {
            Ok(Self::ConditionalText(ConditionalText::from_node_unchecked(node)))
        } else if str_eq(node.kind, "eval") {
            Ok(Self::Eval(Eval::from_node_unchecked(node)))
        } else if str_eq(node.kind, "glue") {
            Ok(Self::Glue(Glue::from_node_unchecked(node)))
        } else if str_eq(node.kind, "multiline_alternatives") {
            Ok(Self::MultilineAlternatives(MultilineAlternatives::from_node_unchecked(node)))
        } else if str_eq(node.kind, "text") {
            Ok(Self::Text(Text::from_node_unchecked(node)))
        } else {
            Err(IncorrectKind { node, kind: Self::KIND })
        }
    }
}

impl<'tree> TryFromSpecImpl<&'tree SyntaxNode> for Alternatives_CondBlock_ConditionalText_Eval_Glue_MultilineAlternatives_Text<'tree> {
    open spec fn obeys_try_from_spec() -> bool {
        true
    }

    open spec fn try_from_spec(node: &'tree SyntaxNode) -> NodeResult<'tree, Self> {
        if node.kind@ == "alternatives"@ {
            Ok(Self::Alternatives(Alternatives(node)))
        } else if node.kind@ == "cond_block"@ {
            Ok(Self::CondBlock(CondBlock(node)))
        } else if node.kind@ == "conditional_text"@ {
            Ok(Self::ConditionalText(ConditionalText(node)))
        } else if node.kind@ == "eval"@ {
            Ok(Self::Eval(Eval(node)))
        } else if node.kind@ == "glue"@ {
            Ok(Self::Glue(Glue(node)))
        } else if node.kind@ == "multiline_alternatives"@ {
            Ok(Self::MultilineAlternatives(MultilineAlternatives(node)))
        } else if node.kind@ == "text"@ {
            Ok(Self::Text(Text(node)))
        } else {
            Err(IncorrectKind { node, kind: Self::KIND })
        }
    }
}

/// one of `{! | != | !? | % | && | ( | ) | * | + | ++ | , | - | -- | -> | . | / | < | <= | == | > | >= | ? | ^ | and | false | has | hasnt | mod | not | or | true | ||}`:
/// - [symbols::Not_]
/// - [symbols::Not_Eq_]
/// - [symbols::Not_Question_]
/// - [symbols::Mod_]
/// - [symbols::And_And_]
/// - [symbols::LParen_]
/// - [symbols::RParen_]
/// - [symbols::Mul_]
/// - [symbols::Add_]
/// - [symbols::Add_Add_]
/// - [symbols::Comma_]
/// - [symbols::Sub_]
/// - [symbols::Sub_Sub_]
/// - [symbols::Sub_Gt_]
/// - [symbols::Dot_]
/// - [symbols::Div_]
/// - [symbols::Lt_]
/// - [symbols::Lt_Eq_]
/// - [symbols::Eq_Eq_]
/// - [symbols::Gt_]
/// - [symbols::Gt_Eq_]
/// - [symbols::Question_]
/// - [symbols::BitXor_]
/// - [unnamed::And]
/// - [unnamed::False]
/// - [unnamed::Has]
/// - [unnamed::Hasnt]
/// - [unnamed::Mod]
/// - [unnamed::Not]
/// - [unnamed::Or]
/// - [unnamed::True]
/// - [symbols::Or_Or_]
#[derive(Debug, Clone, Copy, PartialEq, Eq, Hash)]
#[allow(non_camel_case_types)]
pub enum Not__Not_Eq__Not_Question__Mod__And_And__LParen__RParen__Mul__Add__Add_Add__Comma__Sub__Sub_Sub__Sub_Gt__Dot__Div__Lt__Lt_Eq__Eq_Eq__Gt__Gt_Eq__Question__BitXor__And_False_Has_Hasnt_Mod_Not_Or_True_Or_Or_<'tree> {
    Not_(symbols::Not_<'tree>),
    Not_Eq_(symbols::Not_Eq_<'tree>),
    Not_Question_(symbols::Not_Question_<'tree>),
    Mod_(symbols::Mod_<'tree>),
    And_And_(symbols::And_And_<'tree>),
    LParen_(symbols::LParen_<'tree>),
    RParen_(symbols::RParen_<'tree>),
    Mul_(symbols::Mul_<'tree>),
    Add_(symbols::Add_<'tree>),
    Add_Add_(symbols::Add_Add_<'tree>),
    Comma_(symbols::Comma_<'tree>),
    Sub_(symbols::Sub_<'tree>),
    Sub_Sub_(symbols::Sub_Sub_<'tree>),
    Sub_Gt_(symbols::Sub_Gt_<'tree>),
    Dot_(symbols::Dot_<'tree>),
    Div_(symbols::Div_<'tree>),
    Lt_(symbols::Lt_<'tree>),
    Lt_Eq_(symbols::Lt_Eq_<'tree>),
    Eq_Eq_(symbols::Eq_Eq_<'tree>),
    Gt_(symbols::Gt_<'tree>),
    Gt_Eq_(symbols::Gt_Eq_<'tree>),
    Question_(symbols::Question_<'tree>),
    BitXor_(symbols::BitXor_<'tree>),
    And(unnamed::And<'tree>),
    False(unnamed::False<'tree>),
    Has(unnamed::Has<'tree>),
    Hasnt(unnamed::Hasnt<'tree>),
    Mod(unnamed::Mod<'tree>),
    Not(unnamed::Not<'tree>),
    Or(unnamed::Or<'tree>),
    True(unnamed::True<'tree>),
    Or_Or_(symbols::Or_Or_<'tree>),
}

impl<'tree> Not__Not_Eq__Not_Question__Mod__And_And__LParen__RParen__Mul__Add__Add_Add__Comma__Sub__Sub_Sub__Sub_Gt__Dot__Div__Lt__Lt_Eq__Eq_Eq__Gt__Gt_Eq__Question__BitXor__And_False_Has_Hasnt_Mod_Not_Or_True_Or_Or_<'tree> {
    /// The kinds of the nodes of this type.
    pub const KIND: &'static str = "{! | != | !? | % | && | ( | ) | * | + | ++ | , | - | -- | -> | . | / | < | <= | == | > | >= | ? | ^ | and | false | has | hasnt | mod | not | or | true | ||}";

    /// Returns the node if it is of kind `!` ([symbols::Not_]), otherwise returns None
    pub fn not_(self) -> (r: Option<symbols::Not_<'tree>>)
        ensures
            match self {
                Self::Not_(x) => r == Some(x),
                _ => r is None,
            },
    {
        match self {
            Self::Not_(x) => Some(x),
            _ => None,
        }
    }

    /// Returns the node if it is of kind `!=` ([symbols::Not_Eq_]), otherwise returns None
    pub fn not_eq_(self) -> (r: Option<symbols::Not_Eq_<'tree>>)
        ensures
            match self {
                Self::Not_Eq_(x) => r == Some(x),
                _ => r is None,
            },
    {
        match self {
            Self::Not_Eq_(x) => Some(x),
            _ => None,
        }
    }

    /// Returns the node if it is of kind `!?` ([symbols::Not_Question_]), otherwise returns None
    pub fn not_question_(self) -> (r: Option<symbols::Not_Question_<'tree>>)
        ensures
            match self {
                Self::Not_Question_(x) => r == Some(x),
                _ => r is None,
            },
    {
        match self {
            Self::Not_Question_(x) => Some(x),
            _ => None,
        }
    }

    /// Returns the node if it is of kind `%` ([symbols::Mod_]), otherwise returns None
    pub fn mod_(self) -> (r: Option<symbols::Mod_<'tree>>)
        ensures
            match self {
                Self::Mod_(x) => r == Some(x),
                _ => r is None,
            },
    {
        match self {
            Self::Mod_(x) => Some(x),
            _ => None,
        }
    }

    /// Returns the node if it is of kind `&&` ([symbols::And_And_]), otherwise returns None
    pub fn and_and_(self) -> (r: Option<symbols::And_And_<'tree>>)
        ensures
            match self {
                Self::And_And_(x) => r == Some(x),
                _ => r is None,
            },
    {
        match self {
            Self::And_And_(x) => Some(x),
            _ => None,
        }
    }

    /// Returns the node if it is of kind `(` ([symbols::LParen_]), otherwise returns None
    pub fn l_paren_(self) -> (r: Option<symbols::LParen_<'tree>>)
        ensures
            match self {
                Self::LParen_(x) => r == Some(x),
                _ => r is None,
            },
    {
        match self {
            Self::LParen_(x) => Some(x),
            _ => None,
        }
    }

    /// Returns the node if it is of kind `)` ([symbols::RParen_]), otherwise returns None
    pub fn r_paren_(self) -> (r: Option<symbols::RParen_<'tree>>)
        ensures
            match self {
                Self::RParen_(x) => r == Some(x),
                _ => r is None,
            },
    {
        match self {
            Self::RParen_(x) => Some(x),
            _ => None,
        }
    }

    /// Returns the node if it is of kind `*` ([symbols::Mul_]), otherwise returns None
    pub fn mul_(self) -> (r: Option<symbols::Mul_<'tree>>)
        ensures
            match self {
                Self::Mul_(x) => r == Some(x),
                _ => r is None,
            },
    {
        match self {
            Self::Mul_(x) => Some(x),
            _ => None,
        }
    }

    /// Returns the node if it is of kind `+` ([symbols::Add_]), otherwise returns None
    pub fn add_(self) -> (r: Option<symbols::Add_<'tree>>)
        ensures
            match self {
                Self::Add_(x) => r == Some(x),
                _ => r is None,
            },
    {
        match self {
            Self::Add_(x) => Some(x),
            _ => None,
        }
    }

    /// Returns the node if it is of kind `++` ([symbols::Add_Add_]), otherwise returns None
    pub fn add_add_(self) -> (r: Option<symbols::Add_Add_<'tree>>)
        ensures
            match self {
                Self::Add_Add_(x) => r == Some(x),
                _ => r is None,
            },
    {
        match self {
            Self::Add_Add_(x) => Some(x),
            _ => None,
        }
    }

    /// Returns the node if it is of kind `,` ([symbols::Comma_]), otherwise returns None
    pub fn comma_(self) -> (r: Option<symbols::Comma_<'tree>>)
        ensures
            match self {
                Self::Comma_(x) => r == Some(x),
                _ => r is None,
            },
    {
        match self {
            Self::Comma_(x) => Some(x),
            _ => None,
        }
    }

    /// Returns the node if it is of kind `-` ([symbols::Sub_]), otherwise returns None
    pub fn sub_(self) -> (r: Option<symbols::Sub_<'tree>>)
        ensures
            match self {
                Self::Sub_(x) => r == Some(x),
                _ => r is None,
            },
    {
        match self {
            Self::Sub_(x) => Some(x),
            _ => None,
        }
    }

    /// Returns the node if it is of kind `--` ([symbols::Sub_Sub_]), otherwise returns None
    pub fn sub_sub_(self) -> (r: Option<symbols::Sub_Sub_<'tree>>)
        ensures
            match self {
                Self::Sub_Sub_(x) => r == Some(x),
                _ => r is None,
            },
    {
        match self {
            Self::Sub_Sub_(x) => Some(x),
            _ => None,
        }
    }

    /// Returns the node if it is of kind `->` ([symbols::Sub_Gt_]), otherwise returns None
    pub fn sub_gt_(self) -> (r: Option<symbols::Sub_Gt_<'tree>>)
        ensures
            match self {
                Self::Sub_Gt_(x) => r == Some(x),
                _ => r is None,
            },
    {
        match self {
            Self::Sub_Gt_(x) => Some(x),
            _ => None,
        }
    }

    /// Returns the node if it is of kind `.` ([symbols::Dot_]), otherwise returns None
    pub fn dot_(self) -> (r: Option<symbols::Dot_<'tree>>)
        ensures
            match self {
                Self::Dot_(x) => r == Some(x),
                _ => r is None,
            },
    {
        match self {
            Self::Dot_(x) => Some(x),
            _ => None,
        }
    }

    /// Returns the node if it is of kind `/` ([symbols::Div_]), otherwise returns None
    pub fn div_(self) -> (r: Option<symbols::Div_<'tree>>)
        ensures
            match self {
                Self::Div_(x) => r == Some(x),
                _ => r is None,
            },
    {
        match self {
            Self::Div_(x) => Some(x),
            _ => None,
        }
    }

    /// Returns the node if it is of kind `<` ([symbols::Lt_]), otherwise returns None
    pub fn lt_(self) -> (r: Option<symbols::Lt_<'tree>>)
        ensures
            match self {
                Self::Lt_(x) => r == Some(x),
                _ => r is None,
            },
    {
        match self {
            Self::Lt_(x) => Some(x),
            _ => None,
        }
    }

    /// Returns the node if it is of kind `<=` ([symbols::Lt_Eq_]), otherwise returns None
    pub fn lt_eq_(self) -> (r: Option<symbols::Lt_Eq_<'tree>>)
        ensures
            match self {
                Self::Lt_Eq_(x) => r == Some(x),
                _ => r is None,
            },
    {
        match self {
            Self::Lt_Eq_(x) => Some(x),
            _ => None,
        }
    }

    /// Returns the node if it is of kind `==` ([symbols::Eq_Eq_]), otherwise returns None
    pub fn eq_eq_(self) -> (r: Option<symbols::Eq_Eq_<'tree>>)
        ensures
            match self {
                Self::Eq_Eq_(x) => r == Some(x),
                _ => r is None,
            },
    {
        match self {
            Self::Eq_Eq_(x) => Some(x),
            _ => None,
        }
    }

    /// Returns the node if it is of kind `>` ([symbols::Gt_]), otherwise returns None
    pub fn gt_(self) -> (r: Option<symbols::Gt_<'tree>>)
        ensures
            match self {
                Self::Gt_(x) => r == Some(x),
                _ => r is None,
            },
    {
        match self {
            Self::Gt_(x) => Some(x),
            _ => None,
        }
    }

    /// Returns the node if it is of kind `>=` ([symbols::Gt_Eq_]), otherwise returns None
    pub fn gt_eq_(self) -> (r: Option<symbols::Gt_Eq_<'tree>>)
        ensures
            match self {
                Self::Gt_Eq_(x) => r == Some(x),
                _ => r is None,
            },
    {
        match self {
            Self::Gt_Eq_(x) => Some(x),
            _ => None,
        }
    }

    /// Returns the node if it is of kind `?` ([symbols::Question_]), otherwise returns None
    pub fn question_(self) -> (r: Option<symbols::Question_<'tree>>)
        ensures
            match self {
                Self::Question_(x) => r == Some(x),
                _ => r is None,
            },
    {
        match self {
            Self::Question_(x) => Some(x),
            _ => None,
        }
    }

    /// Returns the node if it is of kind `^` ([symbols::BitXor_]), otherwise returns None
    pub fn bit_xor_(self) -> (r: Option<symbols::BitXor_<'tree>>)
        ensures
            match self {
                Self::BitXor_(x) => r == Some(x),
                _ => r is None,
            },
    {
        match self {
            Self::BitXor_(x) => Some(x),
            _ => None,
        }
    }

    /// Returns the node if it is of kind `and` ([unnamed::And]), otherwise returns None
    pub fn and(self) -> (r: Option<unnamed::And<'tree>>)
        ensures
            match self {
                Self::And(x) => r == Some(x),
                _ => r is None,
            },
    {
        match self {
            Self::And(x) => Some(x),
            _ => None,
        }
    }

    /// Returns the node if it is of kind `false` ([unnamed::False]), otherwise returns None
    pub fn false_node(self) -> (r: Option<unnamed::False<'tree>>)
        ensures
            match self {
                Self::False(x) => r == Some(x),
                _ => r is None,
            },
    {
        match self {
            Self::False(x) => Some(x),
            _ => None,
        }
    }

    /// Returns the node if it is of kind `has` ([unnamed::Has]), otherwise returns None
    pub fn has(self) -> (r: Option<unnamed::Has<'tree>>)
        ensures
            match self {
                Self::Has(x) => r == Some(x),
                _ => r is None,
            },
    {
        match self {
            Self::Has(x) => Some(x),
            _ => None,
        }
    }

    /// Returns the node if it is of kind `hasnt` ([unnamed::Hasnt]), otherwise returns None
    pub fn hasnt(self) -> (r: Option<unnamed::Hasnt<'tree>>)
        ensures
            match self {
                Self::Hasnt(x) => r == Some(x),
                _ => r is None,
            },
    {
        match self {
            Self::Hasnt(x) => Some(x),
            _ => None,
        }
    }

    /// Returns the node if it is of kind `mod` ([unnamed::Mod]), otherwise returns None
    pub fn mod_node(self) -> (r: Option<unnamed::Mod<'tree>>)
        ensures
            match self {
                Self::Mod(x) => r == Some(x),
                _ => r is None,
            },
    {
        match self {
            Self::Mod(x) => Some(x),
            _ => None,
        }
    }

    /// Returns the node if it is of kind `not` ([unnamed::Not]), otherwise returns None
    pub fn not(self) -> (r: Option<unnamed::Not<'tree>>)
        ensures
            match self {
                Self::Not(x) => r == Some(x),
                _ => r is None,
            },
    {
        match self {
            Self::Not(x) => Some(x),
            _ => None,
        }
    }

    /// Returns the node if it is of kind `or` ([unnamed::Or]), otherwise returns None
    pub fn or(self) -> (r: Option<unnamed::Or<'tree>>)
        ensures
            match self {
                Self::Or(x) => r == Some(x),
                _ => r is None,
            },
    {
        match self {
            Self::Or(x) => Some(x),
            _ => None,
        }
    }

    /// Returns the node if it is of kind `true` ([unnamed::True]), otherwise returns None
    pub fn true_node(self) -> (r: Option<unnamed::True<'tree>>)
        ensures
            match self {
                Self::True(x) => r == Some(x),
                _ => r is None,
            },
    {
        match self {
            Self::True(x) => Some(x),
            _ => None,
        }
    }

    /// Returns the node if it is of kind `||` ([symbols::Or_Or_]), otherwise returns None
    pub fn or_or_(self) -> (r: Option<symbols::Or_Or_<'tree>>)
        ensures
            match self {
                Self::Or_Or_(x) => r == Some(x),
                _ => r is None,
            },
    {
        match self {
            Self::Or_Or_(x) => Some(x),
            _ => None,
        }
    }

    /// The underlying node, whichever the variant.
    pub open spec fn spec_node(self) -> &'tree SyntaxNode {
        match self {
            Self::Not_(x) => x.0,
            Self::Not_Eq_(x) => x.0,
            Self::Not_Question_(x) => x.0,
            Self::Mod_(x) => x.0,
            Self::And_And_(x) => x.0,
            Self::LParen_(x) => x.0,
            Self::RParen_(x) => x.0,
            Self::Mul_(x) => x.0,
            Self::Add_(x) => x.0,
            Self::Add_Add_(x) => x.0,
            Self::Comma_(x) => x.0,
            Self::Sub_(x) => x.0,
            Self::Sub_Sub_(x) => x.0,
            Self::Sub_Gt_(x) => x.0,
            Self::Dot_(x) => x.0,
            Self::Div_(x) => x.0,
            Self::Lt_(x) => x.0,
            Self::Lt_Eq_(x) => x.0,
            Self::Eq_Eq_(x) => x.0,
            Self::Gt_(x) => x.0,
            Self::Gt_Eq_(x) => x.0,
            Self::Question_(x) => x.0,
            Self::BitXor_(x) => x.0,
            Self::And(x) => x.0,
            Self::False(x) => x.0,
            Self::Has(x) => x.0,
            Self::Hasnt(x) => x.0,
            Self::Mod(x) => x.0,
            Self::Not(x) => x.0,
            Self::Or(x) => x.0,
            Self::True(x) => x.0,
            Self::Or_Or_(x) => x.0,
        }
    }

    /// The underlying node.
    pub fn node(&self) -> (r: &&'tree SyntaxNode)
        ensures
            *r == self.spec_node(),
    {
        match self {
            Self::Not_(x) => x.node(),
            Self::Not_Eq_(x) => x.node(),
            Self::Not_Question_(x) => x.node(),
            Self::Mod_(x) => x.node(),
            Self::And_And_(x) => x.node(),
            Self::LParen_(x) => x.node(),
            Self::RParen_(x) => x.node(),
            Self::Mul_(x) => x.node(),
            Self::Add_(x) => x.node(),
            Self::Add_Add_(x) => x.node(),
            Self::Comma_(x) => x.node(),
            Self::Sub_(x) => x.node(),
            Self::Sub_Sub_(x) => x.node(),
            Self::Sub_Gt_(x) => x.node(),
            Self::Dot_(x) => x.node(),
            Self::Div_(x) => x.node(),
            Self::Lt_(x) => x.node(),
            Self::Lt_Eq_(x) => x.node(),
            Self::Eq_Eq_(x) => x.node(),
            Self::Gt_(x) => x.node(),
            Self::Gt_Eq_(x) => x.node(),
            Self::Question_(x) => x.node(),
            Self::BitXor_(x) => x.node(),
            Self::And(x) => x.node(),
            Self::False(x) => x.node(),
            Self::Has(x) => x.node(),
            Self::Hasnt(x) => x.node(),
            Self::Mod(x) => x.node(),
            Self::Not(x) => x.node(),
            Self::Or(x) => x.node(),
            Self::True(x) => x.node(),
            Self::Or_Or_(x) => x.node(),
        }
    }

    /// The underlying node, to replace in place.
    pub fn node_mut(&mut self) -> (r: &mut &'tree SyntaxNode)
        ensures
            *r == old(self).spec_node(),
            final(self).spec_node() == *final(r),
            (*old(self)) is Not_ ==> (*final(self)) is Not_,
            (*old(self)) is Not_Eq_ ==> (*final(self)) is Not_Eq_,
            (*old(self)) is Not_Question_ ==> (*final(self)) is Not_Question_,
            (*old(self)) is Mod_ ==> (*final(self)) is Mod_,
            (*old(self)) is And_And_ ==> (*final(self)) is And_And_,
            (*old(self)) is LParen_ ==> (*final(self)) is LParen_,
            (*old(self)) is RParen_ ==> (*final(self)) is RParen_,
            (*old(self)) is Mul_ ==> (*final(self)) is Mul_,
            (*old(self)) is Add_ ==> (*final(self)) is Add_,
            (*old(self)) is Add_Add_ ==> (*final(self)) is Add_Add_,
            (*old(self)) is Comma_ ==> (*final(self)) is Comma_,
            (*old(self)) is Sub_ ==> (*final(self)) is Sub_,
            (*old(self)) is Sub_Sub_ ==> (*final(self)) is Sub_Sub_,
            (*old(self)) is Sub_Gt_ ==> (*final(self)) is Sub_Gt_,
            (*old(self)) is Dot_ ==> (*final(self)) is Dot_,
            (*old(self)) is Div_ ==> (*final(self)) is Div_,
            (*old(self)) is Lt_ ==> (*final(self)) is Lt_,
            (*old(self)) is Lt_Eq_ ==> (*final(self)) is Lt_Eq_,
            (*old(self)) is Eq_Eq_ ==> (*final(self)) is Eq_Eq_,
            (*old(self)) is Gt_ ==> (*final(self)) is Gt_,
            (*old(self)) is Gt_Eq_ ==> (*final(self)) is Gt_Eq_,
            (*old(self)) is Question_ ==> (*final(self)) is Question_,
            (*old(self)) is BitXor_ ==> (*final(self)) is BitXor_,
            (*old(self)) is And ==> (*final(self)) is And,
            (*old(self)) is False ==> (*final(self)) is False,
            (*old(self)) is Has ==> (*final(self)) is Has,
            (*old(self)) is Hasnt ==> (*final(self)) is Hasnt,
            (*old(self)) is Mod ==> (*final(self)) is Mod,
            (*old(self)) is Not ==> (*final(self)) is Not,
            (*old(self)) is Or ==> (*final(self)) is Or,
            (*old(self)) is True ==> (*final(self)) is True,
            (*old(self)) is Or_Or_ ==> (*final(self)) is Or_Or_,
    {
        match self {
            Self::Not_(x) => x.node_mut(),
            Self::Not_Eq_(x) => x.node_mut(),
            Self::Not_Question_(x) => x.node_mut(),
            Self::Mod_(x) => x.node_mut(),
            Self::And_And_(x) => x.node_mut(),
            Self::LParen_(x) => x.node_mut(),
            Self::RParen_(x) => x.node_mut(),
            Self::Mul_(x) => x.node_mut(),
            Self::Add_(x) => x.node_mut(),
            Self::Add_Add_(x) => x.node_mut(),
            Self::Comma_(x) => x.node_mut(),
            Self::Sub_(x) => x.node_mut(),
            Self::Sub_Sub_(x) => x.node_mut(),
            Self::Sub_Gt_(x) => x.node_mut(),
            Self::Dot_(x) => x.node_mut(),
            Self::Div_(x) => x.node_mut(),
            Self::Lt_(x) => x.node_mut(),
            Self::Lt_Eq_(x) => x.node_mut(),
            Self::Eq_Eq_(x) => x.node_mut(),
            Self::Gt_(x) => x.node_mut(),
            Self::Gt_Eq_(x) => x.node_mut(),
            Self::Question_(x) => x.node_mut(),
            Self::BitXor_(x) => x.node_mut(),
            Self::And(x) => x.node_mut(),
            Self::False(x) => x.node_mut(),
            Self::Has(x) => x.node_mut(),
            Self::Hasnt(x) => x.node_mut(),
            Self::Mod(x) => x.node_mut(),
            Self::Not(x) => x.node_mut(),
            Self::Or(x) => x.node_mut(),
            Self::True(x) => x.node_mut(),
            Self::Or_Or_(x) => x.node_mut(),
        }
    }

    /// The underlying node, giving up the typed view.
    pub fn into_node(self) -> (r: &'tree SyntaxNode)
        ensures
            r == self.spec_node(),
    {
        match self {
            Self::Not_(x) => x.into_node(),
            Self::Not_Eq_(x) => x.into_node(),
            Self::Not_Question_(x) => x.into_node(),
            Self::Mod_(x) => x.into_node(),
            Self::And_And_(x) => x.into_node(),
            Self::LParen_(x) => x.into_node(),
            Self::RParen_(x) => x.into_node(),
            Self::Mul_(x) => x.into_node(),
            Self::Add_(x) => x.into_node(),
            Self::Add_Add_(x) => x.into_node(),
            Self::Comma_(x) => x.into_node(),
            Self::Sub_(x) => x.into_node(),
            Self::Sub_Sub_(x) => x.into_node(),
            Self::Sub_Gt_(x) => x.into_node(),
            Self::Dot_(x) => x.into_node(),
            Self::Div_(x) => x.into_node(),
            Self::Lt_(x) => x.into_node(),
            Self::Lt_Eq_(x) => x.into_node(),
            Self::Eq_Eq_(x) => x.into_node(),
            Self::Gt_(x) => x.into_node(),
            Self::Gt_Eq_(x) => x.into_node(),
            Self::Question_(x) => x.into_node(),
            Self::BitXor_(x) => x.into_node(),
            Self::And(x) => x.into_node(),
            Self::False(x) => x.into_node(),
            Self::Has(x) => x.into_node(),
            Self::Hasnt(x) => x.into_node(),
            Self::Mod(x) => x.into_node(),
            Self::Not(x) => x.into_node(),
            Self::Or(x) => x.into_node(),
            Self::True(x) => x.into_node(),
            Self::Or_Or_(x) => x.into_node(),
        }
    }
}

impl<'tree> TryFrom<&'tree SyntaxNode> for Not__Not_Eq__Not_Question__Mod__And_And__LParen__RParen__Mul__Add__Add_Add__Comma__Sub__Sub_Sub__Sub_Gt__Dot__Div__Lt__Lt_Eq__Eq_Eq__Gt__Gt_Eq__Question__BitXor__And_False_Has_Hasnt_Mod_Not_Or_True_Or_Or_<'tree> {
    type Error = IncorrectKind<'tree>;

    /// Views `node` as the variant for its kind, if it has one of this type's kinds.
    fn try_from(node: &'tree SyntaxNode) -> (r: NodeResult<'tree, Self>)
        ensures
            r is Ok <==> (
                node.kind@ == "!"@
                || node.kind@ == "!="@
                || node.kind@ == "!?"@
                || node.kind@ == "%"@
                || node.kind@ == "&&"@
                || node.kind@ == "("@
                || node.kind@ == ")"@
                || node.kind@ == "*"@
                || node.kind@ == "+"@
                || node.kind@ == "++"@
                || node.kind@ == ","@
                || node.kind@ == "-"@
                || node.kind@ == "--"@
                || node.kind@ == "->"@
                || node.kind@ == "."@
                || node.kind@ == "/"@
                || node.kind@ == "<"@
                || node.kind@ == "<="@
                || node.kind@ == "=="@
                || node.kind@ == ">"@
                || node.kind@ == ">="@
                || node.kind@ == "?"@
                || node.kind@ == "^"@
                || node.kind@ == "and"@
                || node.kind@ == "false"@
                || node.kind@ == "has"@
                || node.kind@ == "hasnt"@
                || node.kind@ == "mod"@
                || node.kind@ == "not"@
                || node.kind@ == "or"@
                || node.kind@ == "true"@
                || node.kind@ == "||"@
            ),
            r matches Ok(Self::Not_(x)) ==> node.kind@ == "!"@ && x == symbols::Not_(node),
            r matches Ok(Self::Not_Eq_(x)) ==> node.kind@ == "!="@ && x == symbols::Not_Eq_(node),
            r matches Ok(Self::Not_Question_(x)) ==> node.kind@ == "!?"@ && x == symbols::Not_Question_(node),
            r matches Ok(Self::Mod_(x)) ==> node.kind@ == "%"@ && x == symbols::Mod_(node),
            r matches Ok(Self::And_And_(x)) ==> node.kind@ == "&&"@ && x == symbols::And_And_(node),
            r matches Ok(Self::LParen_(x)) ==> node.kind@ == "("@ && x == symbols::LParen_(node),
            r matches Ok(Self::RParen_(x)) ==> node.kind@ == ")"@ && x == symbols::RParen_(node),
            r matches Ok(Self::Mul_(x)) ==> node.kind@ == "*"@ && x == symbols::Mul_(node),
            r matches Ok(Self::Add_(x)) ==> node.kind@ == "+"@ && x == symbols::Add_(node),
            r matches Ok(Self::Add_Add_(x)) ==> node.kind@ == "++"@ && x == symbols::Add_Add_(node),
            r matches Ok(Self::Comma_(x)) ==> node.kind@ == ","@ && x == symbols::Comma_(node),
            r matches Ok(Self::Sub_(x)) ==> node.kind@ == "-"@ && x == symbols::Sub_(node),
            r matches Ok(Self::Sub_Sub_(x)) ==> node.kind@ == "--"@ && x == symbols::Sub_Sub_(node),
            r matches Ok(Self::Sub_Gt_(x)) ==> node.kind@ == "->"@ && x == symbols::Sub_Gt_(node),
            r matches Ok(Self::Dot_(x)) ==> node.kind@ == "."@ && x == symbols::Dot_(node),
            r matches Ok(Self::Div_(x)) ==> node.kind@ == "/"@ && x == symbols::Div_(node),
            r matches Ok(Self::Lt_(x)) ==> node.kind@ == "<"@ && x == symbols::Lt_(node),
            r matches Ok(Self::Lt_Eq_(x)) ==> node.kind@ == "<="@ && x == symbols::Lt_Eq_(node),
            r matches Ok(Self::Eq_Eq_(x)) ==> node.kind@ == "=="@ && x == symbols::Eq_Eq_(node),
            r matches Ok(Self::Gt_(x)) ==> node.kind@ == ">"@ && x == symbols::Gt_(node),
            r matches Ok(Self::Gt_Eq_(x)) ==> node.kind@ == ">="@ && x == symbols::Gt_Eq_(node),
            r matches Ok(Self::Question_(x)) ==> node.kind@ == "?"@ && x == symbols::Question_(node),
            r matches Ok(Self::BitXor_(x)) ==> node.kind@ == "^"@ && x == symbols::BitXor_(node),
            r matches Ok(Self::And(x)) ==> node.kind@ == "and"@ && x == unnamed::And(node),
            r matches Ok(Self::False(x)) ==> node.kind@ == "false"@ && x == unnamed::False(node),
            r matches Ok(Self::Has(x)) ==> node.kind@ == "has"@ && x == unnamed::Has(node),
            r matches Ok(Self::Hasnt(x)) ==> node.kind@ == "hasnt"@ && x == unnamed::Hasnt(node),
            r matches Ok(Self::Mod(x)) ==> node.kind@ == "mod"@ && x == unnamed::Mod(node),
            r matches Ok(Self::Not(x)) ==> node.kind@ == "not"@ && x == unnamed::Not(node),
            r matches Ok(Self::Or(x)) ==> node.kind@ == "or"@ && x == unnamed::Or(node),
            r matches Ok(Self::True(x)) ==> node.kind@ == "true"@ && x == unnamed::True(node),
            r matches Ok(Self::Or_Or_(x)) ==> node.kind@ == "||"@ && x == symbols::Or_Or_(node),
            r is Err ==> r == Err::<Self, IncorrectKind<'tree>>(IncorrectKind { node, kind: Self::KIND }),
    {
        if str_eq(node.kind, "!") {
            Ok(Self::Not_(symbols::Not_::from_node_unchecked(node)))
        } else if str_eq(node.kind, "!=") {
            Ok(Self::Not_Eq_(symbols::Not_Eq_::from_node_unchecked(node)))
        } else if str_eq(node.kind, "!?") {
            Ok(Self::Not_Question_(symbols::Not_Question_::from_node_unchecked(node)))
        } else if str_eq(node.kind, "%") {
            Ok(Self::Mod_(symbols::Mod_::from_node_unchecked(node)))
        } else if str_eq(node.kind, "&&") {
            Ok(Self::And_And_(symbols::And_And_::from_node_unchecked(node)))
        } else if str_eq(node.kind, "(") {
            Ok(Self::LParen_(symbols::LParen_::from_node_unchecked(node)))
        } else if str_eq(node.kind, ")") {
            Ok(Self::RParen_(symbols::RParen_::from_node_unchecked(node)))
        } else if str_eq(node.kind, "*") {
            Ok(Self::Mul_(symbols::Mul_::from_node_unchecked(node)))
        } else if str_eq(node.kind, "+") {
            Ok(Self::Add_(symbols::Add_::from_node_unchecked(node)))
        } else if str_eq(node.kind, "++") {
            Ok(Self::Add_Add_(symbols::Add_Add_::from_node_unchecked(node)))
        } else if str_eq(node.kind, ",") {
            Ok(Self::Comma_(symbols::Comma_::from_node_unchecked(node)))
        } else if str_eq(node.kind, "-") {
            Ok(Self::Sub_(symbols::Sub_::from_node_unchecked(node)))
        } else if str_eq(node.kind, "--") {
            Ok(Self::Sub_Sub_(symbols::Sub_Sub_::from_node_unchecked(node)))
        } else if str_eq(node.kind, "->") {
            Ok(Self::Sub_Gt_(symbols::Sub_Gt_::from_node_unchecked(node)))
        } else if str_eq(node.kind, ".") {
            Ok(Self::Dot_(symbols::Dot_::from_node_unchecked(node)))
        } else if str_eq(node.kind, "/") {
            Ok(Self::Div_(symbols::Div_::from_node_unchecked(node)))
        } else if str_eq(node.kind, "<") {
            Ok(Self::Lt_(symbols::Lt_::from_node_unchecked(node)))
        } else if str_eq(node.kind, "<=") {
            Ok(Self::Lt_Eq_(symbols::Lt_Eq_::from_node_unchecked(node)))
        } else if str_eq(node.kind, "==") {
            Ok(Self::Eq_Eq_(symbols::Eq_Eq_::from_node_unchecked(node)))
        } else if str_eq(node.kind, ">") {
            Ok(Self::Gt_(symbols::Gt_::from_node_unchecked(node)))
        } else if str_eq(node.kind, ">=") {
            Ok(Self::Gt_Eq_(symbols::Gt_Eq_::from_node_unchecked(node)))
        } else if str_eq(node.kind, "?") {
            Ok(Self::Question_(symbols::Question_::from_node_unchecked(node)))
        } else if str_eq(node.kind, "^") {
            Ok(Self::BitXor_(symbols::BitXor_::from_node_unchecked(node)))
        } else if str_eq(node.kind, "and") {
            Ok(Self::And(unnamed::And::from_node_unchecked(node)))
        } else if str_eq(node.kind, "false") {
            Ok(Self::False(unnamed::False::from_node_unchecked(node)))
        } else if str_eq(node.kind, "has") {
            Ok(Self::Has(unnamed::Has::from_node_unchecked(node)))
        } else if str_eq(node.kind, "hasnt") {
            Ok(Self::Hasnt(unnamed::Hasnt::from_node_unchecked(node)))
        } else if str_eq(node.kind, "mod") {
            Ok(Self::Mod(unnamed::Mod::from_node_unchecked(node)))
        } else if str_eq(node.kind, "not") {
            Ok(Self::Not(unnamed::Not::from_node_unchecked(node)))
        } else if str_eq(node.kind, "or") {
            Ok(Self::Or(unnamed::Or::from_node_unchecked(node)))
        } else if str_eq(node.kind, "true") {
            Ok(Self::True(unnamed::True::from_node_unchecked(node)))
        } else if str_eq(node.kind, "||") {
            Ok(Self::Or_Or_(symbols::Or_Or_::from_node_unchecked(node)))
        } else {
            Err(IncorrectKind { node, kind: Self::KIND })
        }
    }
}

impl<'tree> TryFromSpecImpl<&'tree SyntaxNode> for Not__Not_Eq__Not_Question__Mod__And_And__LParen__RParen__Mul__Add__Add_Add__Comma__Sub__Sub_Sub__Sub_Gt__Dot__Div__Lt__Lt_Eq__Eq_Eq__Gt__Gt_Eq__Question__BitXor__And_False_Has_Hasnt_Mod_Not_Or_True_Or_Or_<'tree> {
    open spec fn obeys_try_from_spec() -> bool {
        true
    }

    open spec fn try_from_spec(node: &'tree SyntaxNode) -> NodeResult<'tree, Self> {
        if node.kind@ == "!"@ {
            Ok(Self::Not_(symbols::Not_(node)))
        } else if node.kind@ == "!="@ {
            Ok(Self::Not_Eq_(symbols::Not_Eq_(node)))
        } else if node.kind@ == "!?"@ {
            Ok(Self::Not_Question_(symbols::Not_Question_(node)))
        } else if node.kind@ == "%"@ {
            Ok(Self::Mod_(symbols::Mod_(node)))
        } else if node.kind@ == "&&"@ {
            Ok(Self::And_And_(symbols::And_And_(node)))
        } else if node.kind@ == "("@ {
            Ok(Self::LParen_(symbols::LParen_(node)))
        } else if node.kind@ == ")"@ {
            Ok(Self::RParen_(symbols::RParen_(node)))
        } else if node.kind@ == "*"@ {
            Ok(Self::Mul_(symbols::Mul_(node)))
        } else if node.kind@ == "+"@ {
            Ok(Self::Add_(symbols::Add_(node)))
        } else if node.kind@ == "++"@ {
            Ok(Self::Add_Add_(symbols::Add_Add_(node)))
        } else if node.kind@ == ","@ {
            Ok(Self::Comma_(symbols::Comma_(node)))
        } else if node.kind@ == "-"@ {
            Ok(Self::Sub_(symbols::Sub_(node)))
        } else if node.kind@ == "--"@ {
            Ok(Self::Sub_Sub_(symbols::Sub_Sub_(node)))
        } else if node.kind@ == "->"@ {
            Ok(Self::Sub_Gt_(symbols::Sub_Gt_(node)))
        } else if node.kind@ == "."@ {
            Ok(Self::Dot_(symbols::Dot_(node)))
        } else if node.kind@ == "/"@ {
            Ok(Self::Div_(symbols::Div_(node)))
        } else if node.kind@ == "<"@ {
            Ok(Self::Lt_(symbols::Lt_(node)))
        } else if node.kind@ == "<="@ {
            Ok(Self::Lt_Eq_(symbols::Lt_Eq_(node)))
        } else if node.kind@ == "=="@ {
            Ok(Self::Eq_Eq_(symbols::Eq_Eq_(node)))
        } else if node.kind@ == ">"@ {
            Ok(Self::Gt_(symbols::Gt_(node)))
        } else if node.kind@ == ">="@ {
            Ok(Self::Gt_Eq_(symbols::Gt_Eq_(node)))
        } else if node.kind@ == "?"@ {
            Ok(Self::Question_(symbols::Question_(node)))
        } else if node.kind@ == "^"@ {
            Ok(Self::BitXor_(symbols::BitXor_(node)))
        } else if node.kind@ == "and"@ {
            Ok(Self::And(unnamed::And(node)))
        } else if node.kind@ == "false"@ {
            Ok(Self::False(unnamed::False(node)))
        } else if node.kind@ == "has"@ {
            Ok(Self::Has(unnamed::Has(node)))
        } else if node.kind@ == "hasnt"@ {
            Ok(Self::Hasnt(unnamed::Hasnt(node)))
        } else if node.kind@ == "mod"@ {
            Ok(Self::Mod(unnamed::Mod(node)))
        } else if node.kind@ == "not"@ {
            Ok(Self::Not(unnamed::Not(node)))
        } else if node.kind@ == "or"@ {
            Ok(Self::Or(unnamed::Or(node)))
        } else if node.kind@ == "true"@ {
            Ok(Self::True(unnamed::True(node)))
        } else if node.kind@ == "||"@ {
            Ok(Self::Or_Or_(symbols::Or_Or_(node)))
        } else {
            Err(IncorrectKind { node, kind: Self::KIND })
        }
    }
}

/// one of `{! | != | !? | % | && | * | + | ++ | - | -- | / | < | <= | == | > | >= | ? | ^ | and | has | hasnt | mod | not | or | ||}`:
/// - [symbols::Not_]
/// - [symbols::Not_Eq_]
/// - [symbols::Not_Question_]
/// - [symbols::Mod_]
/// - [symbols::And_And_]
/// - [symbols::Mul_]
/// - [symbols::Add_]
/// - [symbols::Add_Add_]
/// - [symbols::Sub_]
/// - [symbols::Sub_Sub_]
/// - [symbols::Div_]
/// - [symbols::Lt_]
/// - [symbols::Lt_Eq_]
/// - [symbols::Eq_Eq_]
/// - [symbols::Gt_]
/// - [symbols::Gt_Eq_]
/// - [symbols::Question_]
/// - [symbols::BitXor_]
/// - [unnamed::And]
/// - [unnamed::Has]
/// - [unnamed::Hasnt]
/// - [unnamed::Mod]
/// - [unnamed::Not]
/// - [unnamed::Or]
/// - [symbols::Or_Or_]
#[derive(Debug, Clone, Copy, PartialEq, Eq, Hash)]
#[allow(non_camel_case_types)]
pub enum Not__Not_Eq__Not_Question__Mod__And_And__Mul__Add__Add_Add__Sub__Sub_Sub__Div__Lt__Lt_Eq__Eq_Eq__Gt__Gt_Eq__Question__BitXor__And_Has_Hasnt_Mod_Not_Or_Or_Or_<'tree> {
    Not_(symbols::Not_<'tree>),
    Not_Eq_(symbols::Not_Eq_<'tree>),
    Not_Question_(symbols::Not_Question_<'tree>),
    Mod_(symbols::Mod_<'tree>),
    And_And_(symbols::And_And_<'tree>),
    Mul_(symbols::Mul_<'tree>),
    Add_(symbols::Add_<'tree>),
    Add_Add_(symbols::Add_Add_<'tree>),
    Sub_(symbols::Sub_<'tree>),
    Sub_Sub_(symbols::Sub_Sub_<'tree>),
    Div_(symbols::Div_<'tree>),
    Lt_(symbols::Lt_<'tree>),
    Lt_Eq_(symbols::Lt_Eq_<'tree>),
    Eq_Eq_(symbols::Eq_Eq_<'tree>),
    Gt_(symbols::Gt_<'tree>),
    Gt_Eq_(symbols::Gt_Eq_<'tree>),
    Question_(symbols::Question_<'tree>),
    BitXor_(symbols::BitXor_<'tree>),
    And(unnamed::And<'tree>),
    Has(unnamed::Has<'tree>),
    Hasnt(unnamed::Hasnt<'tree>),
    Mod(unnamed::Mod<'tree>),
    Not(unnamed::Not<'tree>),
    Or(unnamed::Or<'tree>),
    Or_Or_(symbols::Or_Or_<'tree>),
}

impl<'tree> Not__Not_Eq__Not_Question__Mod__And_And__Mul__Add__Add_Add__Sub__Sub_Sub__Div__Lt__Lt_Eq__Eq_Eq__Gt__Gt_Eq__Question__BitXor__And_Has_Hasnt_Mod_Not_Or_Or_Or_<'tree> {
    /// The kinds of the nodes of this type.
    pub const KIND: &'static str = "{! | != | !? | % | && | * | + | ++ | - | -- | / | < | <= | == | > | >= | ? | ^ | and | has | hasnt | mod | not | or | ||}";

    /// Returns the node if it is of kind `!` ([symbols::Not_]), otherwise returns None
    pub fn not_(self) -> (r: Option<symbols::Not_<'tree>>)
        ensures
            match self {
                Self::Not_(x) => r == Some(x),
                _ => r is None,
            },
    {
        match self {
            Self::Not_(x) => Some(x),
            _ => None,
        }
    }

    /// Returns the node if it is of kind `!=` ([symbols::Not_Eq_]), otherwise returns None
    pub fn not_eq_(self) -> (r: Option<symbols::Not_Eq_<'tree>>)
        ensures
            match self {
                Self::Not_Eq_(x) => r == Some(x),
                _ => r is None,
            },
    {
        match self {
            Self::Not_Eq_(x) => Some(x),
            _ => None,
        }
    }

    /// Returns the node if it is of kind `!?` ([symbols::Not_Question_]), otherwise returns None
    pub fn not_question_(self) -> (r: Option<symbols::Not_Question_<'tree>>)
        ensures
            match self {
                Self::Not_Question_(x) => r == Some(x),
                _ => r is None,
            },
    {
        match self {
            Self::Not_Question_(x) => Some(x),
            _ => None,
        }
    }

    /// Returns the node if it is of kind `%` ([symbols::Mod_]), otherwise returns None
    pub fn mod_(self) -> (r: Option<symbols::Mod_<'tree>>)
        ensures
            match self {
                Self::Mod_(x) => r == Some(x),
                _ => r is None,
            },
    {
        match self {
            Self::Mod_(x) => Some(x),
            _ => None,
        }
    }

    /// Returns the node if it is of kind `&&` ([symbols::And_And_]), otherwise returns None
    pub fn and_and_(self) -> (r: Option<symbols::And_And_<'tree>>)
        ensures
            match self {
                Self::And_And_(x) => r == Some(x),
                _ => r is None,
            },
    {
        match self {
            Self::And_And_(x) => Some(x),
            _ => None,
        }
    }

    /// Returns the node if it is of kind `*` ([symbols::Mul_]), otherwise returns None
    pub fn mul_(self) -> (r: Option<symbols::Mul_<'tree>>)
        ensures
            match self {
                Self::Mul_(x) => r == Some(x),
                _ => r is None,
            },
    {
        match self {
            Self::Mul_(x) => Some(x),
            _ => None,
        }
    }

    /// Returns the node if it is of kind `+` ([symbols::Add_]), otherwise returns None
    pub fn add_(self) -> (r: Option<symbols::Add_<'tree>>)
        ensures
            match self {
                Self::Add_(x) => r == Some(x),
                _ => r is None,
            },
    {
        match self {
            Self::Add_(x) => Some(x),
            _ => None,
        }
    }

    /// Returns the node if it is of kind `++` ([symbols::Add_Add_]), otherwise returns None
    pub fn add_add_(self) -> (r: Option<symbols::Add_Add_<'tree>>)
        ensures
            match self {
                Self::Add_Add_(x) => r == Some(x),
                _ => r is None,
            },
    {
        match self {
            Self::Add_Add_(x) => Some(x),
            _ => None,
        }
    }

    /// Returns the node if it is of kind `-` ([symbols::Sub_]), otherwise returns None
    pub fn sub_(self) -> (r: Option<symbols::Sub_<'tree>>)
        ensures
            match self {
                Self::Sub_(x) => r == Some(x),
                _ => r is None,
            },
    {
        match self {
            Self::Sub_(x) => Some(x),
            _ => None,
        }
    }

    /// Returns the node if it is of kind `--` ([symbols::Sub_Sub_]), otherwise returns None
    pub fn sub_sub_(self) -> (r: Option<symbols::Sub_Sub_<'tree>>)
        ensures
            match self {
                Self::Sub_Sub_(x) => r == Some(x),
                _ => r is None,
            },
    {
        match self {
            Self::Sub_Sub_(x) => Some(x),
            _ => None,
        }
    }

    /// Returns the node if it is of kind `/` ([symbols::Div_]), otherwise returns None
    pub fn div_(self) -> (r: Option<symbols::Div_<'tree>>)
        ensures
            match self {
                Self::Div_(x) => r == Some(x),
                _ => r is None,
            },
    {
        match self {
            Self::Div_(x) => Some(x),
            _ => None,
        }
    }

    /// Returns the node if it is of kind `<` ([symbols::Lt_]), otherwise returns None
    pub fn lt_(self) -> (r: Option<symbols::Lt_<'tree>>)
        ensures
            match self {
                Self::Lt_(x) => r == Some(x),
                _ => r is None,
            },
    {
        match self {
            Self::Lt_(x) => Some(x),
            _ => None,
        }
    }

    /// Returns the node if it is of kind `<=` ([symbols::Lt_Eq_]), otherwise returns None
    pub fn lt_eq_(self) -> (r: Option<symbols::Lt_Eq_<'tree>>)
        ensures
            match self {
                Self::Lt_Eq_(x) => r == Some(x),
                _ => r is None,
            },
    {
        match self {
            Self::Lt_Eq_(x) => Some(x),
            _ => None,
        }
    }

    /// Returns the node if it is of kind `==` ([symbols::Eq_Eq_]), otherwise returns None
    pub fn eq_eq_(self) -> (r: Option<symbols::Eq_Eq_<'tree>>)
        ensures
            match self {
                Self::Eq_Eq_(x) => r == Some(x),
                _ => r is None,
            },
    {
        match self {
            Self::Eq_Eq_(x) => Some(x),
            _ => None,
        }
    }

    /// Returns the node if it is of kind `>` ([symbols::Gt_]), otherwise returns None
    pub fn gt_(self) -> (r: Option<symbols::Gt_<'tree>>)
        ensures
            match self {
                Self::Gt_(x) => r == Some(x),
                _ => r is None,
            },
    {
        match self {
            Self::Gt_(x) => Some(x),
            _ => None,
        }
    }

    /// Returns the node if it is of kind `>=` ([symbols::Gt_Eq_]), otherwise returns None
    pub fn gt_eq_(self) -> (r: Option<symbols::Gt_Eq_<'tree>>)
        ensures
            match self {
                Self::Gt_Eq_(x) => r == Some(x),
                _ => r is None,
            },
    {
        match self {
            Self::Gt_Eq_(x) => Some(x),
            _ => None,
        }
    }

    /// Returns the node if it is of kind `?` ([symbols::Question_]), otherwise returns None
    pub fn question_(self) -> (r: Option<symbols::Question_<'tree>>)
        ensures
            match self {
                Self::Question_(x) => r == Some(x),
                _ => r is None,
            },
    {
        match self {
            Self::Question_(x) => Some(x),
            _ => None,
        }
    }

    /// Returns the node if it is of kind `^` ([symbols::BitXor_]), otherwise returns None
    pub fn bit_xor_(self) -> (r: Option<symbols::BitXor_<'tree>>)
        ensures
            match self {
                Self::BitXor_(x) => r == Some(x),
                _ => r is None,
            },
    {
        match self {
            Self::BitXor_(x) => Some(x),
            _ => None,
        }
    }

    /// Returns the node if it is of kind `and` ([unnamed::And]), otherwise returns None
    pub fn and(self) -> (r: Option<unnamed::And<'tree>>)
        ensures
            match self {
                Self::And(x) => r == Some(x),
                _ => r is None,
            },
    {
        match self {
            Self::And(x) => Some(x),
            _ => None,
        }
    }

    /// Returns the node if it is of kind `has` ([unnamed::Has]), otherwise returns None
    pub fn has(self) -> (r: Option<unnamed::Has<'tree>>)
        ensures
            match self {
                Self::Has(x) => r == Some(x),
                _ => r is None,
            },
    {
        match self {
            Self::Has(x) => Some(x),
            _ => None,
        }
    }

    /// Returns the node if it is of kind `hasnt` ([unnamed::Hasnt]), otherwise returns None
    pub fn hasnt(self) -> (r: Option<unnamed::Hasnt<'tree>>)
        ensures
            match self {
                Self::Hasnt(x) => r == Some(x),
                _ => r is None,
            },
    {
        match self {
            Self::Hasnt(x) => Some(x),
            _ => None,
        }
    }

    /// Returns the node if it is of kind `mod` ([unnamed::Mod]), otherwise returns None
    pub fn mod_node(self) -> (r: Option<unnamed::Mod<'tree>>)
        ensures
            match self {
                Self::Mod(x) => r == Some(x),
                _ => r is None,
            },
    {
        match self {
            Self::Mod(x) => Some(x),
            _ => None,
        }
    }

    /// Returns the node if it is of kind `not` ([unnamed::Not]), otherwise returns None
    pub fn not(self) -> (r: Option<unnamed::Not<'tree>>)
        ensures
            match self {
                Self::Not(x) => r == Some(x),
                _ => r is None,
            },
    {
        match self {
            Self::Not(x) => Some(x),
            _ => None,
        }
    }

    /// Returns the node if it is of kind `or` ([unnamed::Or]), otherwise returns None
    pub fn or(self) -> (r: Option<unnamed::Or<'tree>>)
        ensures
            match self {
                Self::Or(x) => r == Some(x),
                _ => r is None,
            },
    {
        match self {
            Self::Or(x) => Some(x),
            _ => None,
        }
    }

    /// Returns the node if it is of kind `||` ([symbols::Or_Or_]), otherwise returns None
    pub fn or_or_(self) -> (r: Option<symbols::Or_Or_<'tree>>)
        ensures
            match self {
                Self::Or_Or_(x) => r == Some(x),
                _ => r is None,
            },
    {
        match self {
            Self::Or_Or_(x) => Some(x),
            _ => None,
        }
    }

    /// The underlying node, whichever the variant.
    pub open spec fn spec_node(self) -> &'tree SyntaxNode {
        match self {
            Self::Not_(x) => x.0,
            Self::Not_Eq_(x) => x.0,
            Self::Not_Question_(x) => x.0,
            Self::Mod_(x) => x.0,
            Self::And_And_(x) => x.0,
            Self::Mul_(x) => x.0,
            Self::Add_(x) => x.0,
            Self::Add_Add_(x) => x.0,
            Self::Sub_(x) => x.0,
            Self::Sub_Sub_(x) => x.0,
            Self::Div_(x) => x.0,
            Self::Lt_(x) => x.0,
            Self::Lt_Eq_(x) => x.0,
            Self::Eq_Eq_(x) => x.0,
            Self::Gt_(x) => x.0,
            Self::Gt_Eq_(x) => x.0,
            Self::Question_(x) => x.0,
            Self::BitXor_(x) => x.0,
            Self::And(x) => x.0,
            Self::Has(x) => x.0,
            Self::Hasnt(x) => x.0,
            Self::Mod(x) => x.0,
            Self::Not(x) => x.0,
            Self::Or(x) => x.0,
            Self::Or_Or_(x) => x.0,
        }
    }

    /// The underlying node.
    pub fn node(&self) -> (r: &&'tree SyntaxNode)
        ensures
            *r == self.spec_node(),
    {
        match self {
            Self::Not_(x) => x.node(),
            Self::Not_Eq_(x) => x.node(),
            Self::Not_Question_(x) => x.node(),
            Self::Mod_(x) => x.node(),
            Self::And_And_(x) => x.node(),
            Self::Mul_(x) => x.node(),
            Self::Add_(x) => x.node(),
            Self::Add_Add_(x) => x.node(),
            Self::Sub_(x) => x.node(),
            Self::Sub_Sub_(x) => x.node(),
            Self::Div_(x) => x.node(),
            Self::Lt_(x) => x.node(),
            Self::Lt_Eq_(x) => x.node(),
            Self::Eq_Eq_(x) => x.node(),
            Self::Gt_(x) => x.node(),
            Self::Gt_Eq_(x) => x.node(),
            Self::Question_(x) => x.node(),
            Self::BitXor_(x) => x.node(),
            Self::And(x) => x.node(),
            Self::Has(x) => x.node(),
            Self::Hasnt(x) => x.node(),
            Self::Mod(x) => x.node(),
            Self::Not(x) => x.node(),
            Self::Or(x) => x.node(),
            Self::Or_Or_(x) => x.node(),
        }
    }

    /// The underlying node, to replace in place.
    pub fn node_mut(&mut self) -> (r: &mut &'tree SyntaxNode)
        ensures
            *r == old(self).spec_node(),
            final(self).spec_node() == *final(r),
            (*old(self)) is Not_ ==> (*final(self)) is Not_,
            (*old(self)) is Not_Eq_ ==> (*final(self)) is Not_Eq_,
            (*old(self)) is Not_Question_ ==> (*final(self)) is Not_Question_,
            (*old(self)) is Mod_ ==> (*final(self)) is Mod_,
            (*old(self)) is And_And_ ==> (*final(self)) is And_And_,
            (*old(self)) is Mul_ ==> (*final(self)) is Mul_,
            (*old(self)) is Add_ ==> (*final(self)) is Add_,
            (*old(self)) is Add_Add_ ==> (*final(self)) is Add_Add_,
            (*old(self)) is Sub_ ==> (*final(self)) is Sub_,
            (*old(self)) is Sub_Sub_ ==> (*final(self)) is Sub_Sub_,
            (*old(self)) is Div_ ==> (*final(self)) is Div_,
            (*old(self)) is Lt_ ==> (*final(self)) is Lt_,
            (*old(self)) is Lt_Eq_ ==> (*final(self)) is Lt_Eq_,
            (*old(self)) is Eq_Eq_ ==> (*final(self)) is Eq_Eq_,
            (*old(self)) is Gt_ ==> (*final(self)) is Gt_,
            (*old(self)) is Gt_Eq_ ==> (*final(self)) is Gt_Eq_,
            (*old(self)) is Question_ ==> (*final(self)) is Question_,
            (*old(self)) is BitXor_ ==> (*final(self)) is BitXor_,
            (*old(self)) is And ==> (*final(self)) is And,
            (*old(self)) is Has ==> (*final(self)) is Has,
            (*old(self)) is Hasnt ==> (*final(self)) is Hasnt,
            (*old(self)) is Mod ==> (*final(self)) is Mod,
            (*old(self)) is Not ==> (*final(self)) is Not,
            (*old(self)) is Or ==> (*final(self)) is Or,
            (*old(self)) is Or_Or_ ==> (*final(self)) is Or_Or_,
    {
        match self {
            Self::Not_(x) => x.node_mut(),
            Self::Not_Eq_(x) => x.node_mut(),
            Self::Not_Question_(x) => x.node_mut(),
            Self::Mod_(x) => x.node_mut(),
            Self::And_And_(x) => x.node_mut(),
            Self::Mul_(x) => x.node_mut(),
            Self::Add_(x) => x.node_mut(),
            Self::Add_Add_(x) => x.node_mut(),
            Self::Sub_(x) => x.node_mut(),
            Self::Sub_Sub_(x) => x.node_mut(),
            Self::Div_(x) => x.node_mut(),
            Self::Lt_(x) => x.node_mut(),
            Self::Lt_Eq_(x) => x.node_mut(),
            Self::Eq_Eq_(x) => x.node_mut(),
            Self::Gt_(x) => x.node_mut(),
            Self::Gt_Eq_(x) => x.node_mut(),
            Self::Question_(x) => x.node_mut(),
            Self::BitXor_(x) => x.node_mut(),
            Self::And(x) => x.node_mut(),
            Self::Has(x) => x.node_mut(),
            Self::Hasnt(x) => x.node_mut(),
            Self::Mod(x) => x.node_mut(),
            Self::Not(x) => x.node_mut(),
            Self::Or(x) => x.node_mut(),
            Self::Or_Or_(x) => x.node_mut(),
        }
    }

    /// The underlying node, giving up the typed view.
    pub fn into_node(self) -> (r: &'tree SyntaxNode)
        ensures
            r == self.spec_node(),
    {
        match self {
            Self::Not_(x) => x.into_node(),
            Self::Not_Eq_(x) => x.into_node(),
            Self::Not_Question_(x) => x.into_node(),
            Self::Mod_(x) => x.into_node(),
            Self::And_And_(x) => x.into_node(),
            Self::Mul_(x) => x.into_node(),
            Self::Add_(x) => x.into_node(),
            Self::Add_Add_(x) => x.into_node(),
            Self::Sub_(x) => x.into_node(),
            Self::Sub_Sub_(x) => x.into_node(),
            Self::Div_(x) => x.into_node(),
            Self::Lt_(x) => x.into_node(),
            Self::Lt_Eq_(x) => x.into_node(),
            Self::Eq_Eq_(x) => x.into_node(),
            Self::Gt_(x) => x.into_node(),
            Self::Gt_Eq_(x) => x.into_node(),
            Self::Question_(x) => x.into_node(),
            Self::BitXor_(x) => x.into_node(),
            Self::And(x) => x.into_node(),
            Self::Has(x) => x.into_node(),
            Self::Hasnt(x) => x.into_node(),
            Self::Mod(x) => x.into_node(),
            Self::Not(x) => x.into_node(),
            Self::Or(x) => x.into_node(),
            Self::Or_Or_(x) => x.into_node(),
        }
    }
}

impl<'tree> TryFrom<&'tree SyntaxNode> for Not__Not_Eq__Not_Question__Mod__And_And__Mul__Add__Add_Add__Sub__Sub_Sub__Div__Lt__Lt_Eq__Eq_Eq__Gt__Gt_Eq__Question__BitXor__And_Has_Hasnt_Mod_Not_Or_Or_Or_<'tree> {
    type Error = IncorrectKind<'tree>;

    /// Views `node` as the variant for its kind, if it has one of this type's kinds.
    fn try_from(node: &'tree SyntaxNode) -> (r: NodeResult<'tree, Self>)
        ensures
            r is Ok <==> (
                node.kind@ == "!"@
                || node.kind@ == "!="@
                || node.kind@ == "!?"@
                || node.kind@ == "%"@
                || node.kind@ == "&&"@
                || node.kind@ == "*"@
                || node.kind@ == "+"@
                || node.kind@ == "++"@
                || node.kind@ == "-"@
                || node.kind@ == "--"@
                || node.kind@ == "/"@
                || node.kind@ == "<"@
                || node.kind@ == "<="@
                || node.kind@ == "=="@
                || node.kind@ == ">"@
                || node.kind@ == ">="@
                || node.kind@ == "?"@
                || node.kind@ == "^"@
                || node.kind@ == "and"@
                || node.kind@ == "has"@
                || node.kind@ == "hasnt"@
                || node.kind@ == "mod"@
                || node.kind@ == "not"@
                || node.kind@ == "or"@
                || node.kind@ == "||"@
            ),
            r matches Ok(Self::Not_(x)) ==> node.kind@ == "!"@ && x == symbols::Not_(node),
            r matches Ok(Self::Not_Eq_(x)) ==> node.kind@ == "!="@ && x == symbols::Not_Eq_(node),
            r matches Ok(Self::Not_Question_(x)) ==> node.kind@ == "!?"@ && x == symbols::Not_Question_(node),
            r matches Ok(Self::Mod_(x)) ==> node.kind@ == "%"@ && x == symbols::Mod_(node),
            r matches Ok(Self::And_And_(x)) ==> node.kind@ == "&&"@ && x == symbols::And_And_(node),
            r matches Ok(Self::Mul_(x)) ==> node.kind@ == "*"@ && x == symbols::Mul_(node),
            r matches Ok(Self::Add_(x)) ==> node.kind@ == "+"@ && x == symbols::Add_(node),
            r matches Ok(Self::Add_Add_(x)) ==> node.kind@ == "++"@ && x == symbols::Add_Add_(node),
            r matches Ok(Self::Sub_(x)) ==> node.kind@ == "-"@ && x == symbols::Sub_(node),
            r matches Ok(Self::Sub_Sub_(x)) ==> node.kind@ == "--"@ && x == symbols::Sub_Sub_(node),
            r matches Ok(Self::Div_(x)) ==> node.kind@ == "/"@ && x == symbols::Div_(node),
            r matches Ok(Self::Lt_(x)) ==> node.kind@ == "<"@ && x == symbols::Lt_(node),
            r matches Ok(Self::Lt_Eq_(x)) ==> node.kind@ == "<="@ && x == symbols::Lt_Eq_(node),
            r matches Ok(Self::Eq_Eq_(x)) ==> node.kind@ == "=="@ && x == symbols::Eq_Eq_(node),
            r matches Ok(Self::Gt_(x)) ==> node.kind@ == ">"@ && x == symbols::Gt_(node),
            r matches Ok(Self::Gt_Eq_(x)) ==> node.kind@ == ">="@ && x == symbols::Gt_Eq_(node),
            r matches Ok(Self::Question_(x)) ==> node.kind@ == "?"@ && x == symbols::Question_(node),
            r matches Ok(Self::BitXor_(x)) ==> node.kind@ == "^"@ && x == symbols::BitXor_(node),
            r matches Ok(Self::And(x)) ==> node.kind@ == "and"@ && x == unnamed::And(node),
            r matches Ok(Self::Has(x)) ==> node.kind@ == "has"@ && x == unnamed::Has(node),
            r matches Ok(Self::Hasnt(x)) ==> node.kind@ == "hasnt"@ && x == unnamed::Hasnt(node),
            r matches Ok(Self::Mod(x)) ==> node.kind@ == "mod"@ && x == unnamed::Mod(node),
            r matches Ok(Self::Not(x)) ==> node.kind@ == "not"@ && x == unnamed::Not(node),
            r matches Ok(Self::Or(x)) ==> node.kind@ == "or"@ && x == unnamed::Or(node),
            r matches Ok(Self::Or_Or_(x)) ==> node.kind@ == "||"@ && x == symbols::Or_Or_(node),
            r is Err ==> r == Err::<Self, IncorrectKind<'tree>>(IncorrectKind { node, kind: Self::KIND }),
    {
        if str_eq(node.kind, "!") {
            Ok(Self::Not_(symbols::Not_::from_node_unchecked(node)))
        } else if str_eq(node.kind, "!=") {
            Ok(Self::Not_Eq_(symbols::Not_Eq_::from_node_unchecked(node)))
        } else if str_eq(node.kind, "!?") {
            Ok(Self::Not_Question_(symbols::Not_Question_::from_node_unchecked(node)))
        } else if str_eq(node.kind, "%") {
            Ok(Self::Mod_(symbols::Mod_::from_node_unchecked(node)))
        } else if str_eq(node.kind, "&&") {
            Ok(Self::And_And_(symbols::And_And_::from_node_unchecked(node)))
        } else if str_eq(node.kind, "*") {
            Ok(Self::Mul_(symbols::Mul_::from_node_unchecked(node)))
        } else if str_eq(node.kind, "+") {
            Ok(Self::Add_(symbols::Add_::from_node_unchecked(node)))
        } else if str_eq(node.kind, "++") {
            Ok(Self::Add_Add_(symbols::Add_Add_::from_node_unchecked(node)))
        } else if str_eq(node.kind, "-") {
            Ok(Self::Sub_(symbols::Sub_::from_node_unchecked(node)))
        } else if str_eq(node.kind, "--") {
            Ok(Self::Sub_Sub_(symbols::Sub_Sub_::from_node_unchecked(node)))
        } else if str_eq(node.kind, "/") {
            Ok(Self::Div_(symbols::Div_::from_node_unchecked(node)))
        } else if str_eq(node.kind, "<") {
            Ok(Self::Lt_(symbols::Lt_::from_node_unchecked(node)))
        } else if str_eq(node.kind, "<=") {
            Ok(Self::Lt_Eq_(symbols::Lt_Eq_::from_node_unchecked(node)))
        } else if str_eq(node.kind, "==") {
            Ok(Self::Eq_Eq_(symbols::Eq_Eq_::from_node_unchecked(node)))
        } else if str_eq(node.kind, ">") {
            Ok(Self::Gt_(symbols::Gt_::from_node_unchecked(node)))
        } else if str_eq(node.kind, ">=") {
            Ok(Self::Gt_Eq_(symbols::Gt_Eq_::from_node_unchecked(node)))
        } else if str_eq(node.kind, "?") {
            Ok(Self::Question_(symbols::Question_::from_node_unchecked(node)))
        } else if str_eq(node.kind, "^") {
            Ok(Self::BitXor_(symbols::BitXor_::from_node_unchecked(node)))
        } else if str_eq(node.kind, "and") {
            Ok(Self::And(unnamed::And::from_node_unchecked(node)))
        } else if str_eq(node.kind, "has") {
            Ok(Self::Has(unnamed::Has::from_node_unchecked(node)))
        } else if str_eq(node.kind, "hasnt") {
            Ok(Self::Hasnt(unnamed::Hasnt::from_node_unchecked(node)))
        } else if str_eq(node.kind, "mod") {
            Ok(Self::Mod(unnamed::Mod::from_node_unchecked(node)))
        } else if str_eq(node.kind, "not") {
            Ok(Self::Not(unnamed::Not::from_node_unchecked(node)))
        } else if str_eq(node.kind, "or") {
            Ok(Self::Or(unnamed::Or::from_node_unchecked(node)))
        } else if str_eq(node.kind, "||") {
            Ok(Self::Or_Or_(symbols::Or_Or_::from_node_unchecked(node)))
        } else {
            Err(IncorrectKind { node, kind: Self::KIND })
        }
    }
}

impl<'tree> TryFromSpecImpl<&'tree SyntaxNode> for Not__Not_Eq__Not_Question__Mod__And_And__Mul__Add__Add_Add__Sub__Sub_Sub__Div__Lt__Lt_Eq__Eq_Eq__Gt__Gt_Eq__Question__BitXor__And_Has_Hasnt_Mod_Not_Or_Or_Or_<'tree> {
    open spec fn obeys_try_from_spec() -> bool {
        true
    }

    open spec fn try_from_spec(node: &'tree SyntaxNode) -> NodeResult<'tree, Self> {
        if node.kind@ == "!"@ {
            Ok(Self::Not_(symbols::Not_(node)))
        } else if node.kind@ == "!="@ {
            Ok(Self::Not_Eq_(symbols::Not_Eq_(node)))
        } else if node.kind@ == "!?"@ {
            Ok(Self::Not_Question_(symbols::Not_Question_(node)))
        } else if node.kind@ == "%"@ {
            Ok(Self::Mod_(symbols::Mod_(node)))
        } else if node.kind@ == "&&"@ {
            Ok(Self::And_And_(symbols::And_And_(node)))
        } else if node.kind@ == "*"@ {
            Ok(Self::Mul_(symbols::Mul_(node)))
        } else if node.kind@ == "+"@ {
            Ok(Self::Add_(symbols::Add_(node)))
        } else if node.kind@ == "++"@ {
            Ok(Self::Add_Add_(symbols::Add_Add_(node)))
        } else if node.kind@ == "-"@ {
            Ok(Self::Sub_(symbols::Sub_(node)))
        } else if node.kind@ == "--"@ {
            Ok(Self::Sub_Sub_(symbols::Sub_Sub_(node)))
        } else if node.kind@ == "/"@ {
            Ok(Self::Div_(symbols::Div_(node)))
        } else if node.kind@ == "<"@ {
            Ok(Self::Lt_(symbols::Lt_(node)))
        } else if node.kind@ == "<="@ {
            Ok(Self::Lt_Eq_(symbols::Lt_Eq_(node)))
        } else if node.kind@ == "=="@ {
            Ok(Self::Eq_Eq_(symbols::Eq_Eq_(node)))
        } else if node.kind@ == ">"@ {
            Ok(Self::Gt_(symbols::Gt_(node)))
        } else if node.kind@ == ">="@ {
            Ok(Self::Gt_Eq_(symbols::Gt_Eq_(node)))
        } else if node.kind@ == "?"@ {
            Ok(Self::Question_(symbols::Question_(node)))
        } else if node.kind@ == "^"@ {
            Ok(Self::BitXor_(symbols::BitXor_(node)))
        } else if node.kind@ == "and"@ {
            Ok(Self::And(unnamed::And(node)))
        } else if node.kind@ == "has"@ {
            Ok(Self::Has(unnamed::Has(node)))
        } else if node.kind@ == "hasnt"@ {
            Ok(Self::Hasnt(unnamed::Hasnt(node)))
        } else if node.kind@ == "mod"@ {
            Ok(Self::Mod(unnamed::Mod(node)))
        } else if node.kind@ == "not"@ {
            Ok(Self::Not(unnamed::Not(node)))
        } else if node.kind@ == "or"@ {
            Ok(Self::Or(unnamed::Or(node)))
        } else if node.kind@ == "||"@ {
            Ok(Self::Or_Or_(symbols::Or_Or_(node)))
        } else {
            Err(IncorrectKind { node, kind: Self::KIND })
        }
    }
}

/// one of `{call | identifier}`:
/// - [Call]
/// - [Identifier]
#[derive(Debug, Clone, Copy, PartialEq, Eq, Hash)]
#[allow(non_camel_case_types)]
pub enum Call_Identifier<'tree> {
    Call(Call<'tree>),
    Identifier(Identifier<'tree>),
}

impl<'tree> Call_Identifier<'tree> {
    /// The kinds of the nodes of this type.
    pub const KIND: &'static str = "{call | identifier}";

    /// Returns the node if it is of kind `call` ([Call]), otherwise returns None
    pub fn call(self) -> (r: Option<Call<'tree>>)
        ensures
            match self {
                Self::Call(x) => r == Some(x),
                _ => r is None,
            },
    {
        match self {
            Self::Call(x) => Some(x),
            _ => None,
        }
    }

    /// Returns the node if it is of kind `identifier` ([Identifier]), otherwise returns None
    pub fn identifier(self) -> (r: Option<Identifier<'tree>>)
        ensures
            match self {
                Self::Identifier(x) => r == Some(x),
                _ => r is None,
            },
    {
        match self {
            Self::Identifier(x) => Some(x),
            _ => None,
        }
    }

    /// The underlying node, whichever the variant.
    pub open spec fn spec_node(self) -> &'tree SyntaxNode {
        match self {
            Self::Call(x) => x.0,
            Self::Identifier(x) => x.0,
        }
    }

    /// The underlying node.
    pub fn node(&self) -> (r: &&'tree SyntaxNode)
        ensures
            *r == self.spec_node(),
    {
        match self {
            Self::Call(x) => x.node(),
            Self::Identifier(x) => x.node(),
        }
    }

    /// The underlying node, to replace in place.
    pub fn node_mut(&mut self) -> (r: &mut &'tree SyntaxNode)
        ensures
            *r == old(self).spec_node(),
            final(self).spec_node() == *final(r),
            (*old(self)) is Call ==> (*final(self)) is Call,
            (*old(self)) is Identifier ==> (*final(self)) is Identifier,
    {
        match self {
            Self::Call(x) => x.node_mut(),
            Self::Identifier(x) => x.node_mut(),
        }
    }

    /// The underlying node, giving up the typed view.
    pub fn into_node(self) -> (r: &'tree SyntaxNode)
        ensures
            r == self.spec_node(),
    {
        match self {
            Self::Call(x) => x.into_node(),
            Self::Identifier(x) => x.into_node(),
        }
    }
}

impl<'tree> TryFrom<&'tree SyntaxNode> for Call_Identifier<'tree> {
    type Error = IncorrectKind<'tree>;

    /// Views `node` as the variant for its kind, if it has one of this type's kinds.
    fn try_from(node: &'tree SyntaxNode) -> (r: NodeResult<'tree, Self>)
        ensures
            r is Ok <==> (
                node.kind@ == "call"@
                || node.kind@ == "identifier"@
            ),
            r matches Ok(Self::Call(x)) ==> node.kind@ == "call"@ && x == Call(node),
            r matches Ok(Self::Identifier(x)) ==> node.kind@ == "identifier"@ && x == Identifier(node),
            r is Err ==> r == Err::<Self, IncorrectKind<'tree>>(IncorrectKind { node, kind: Self::KIND }),
    {
        if str_eq(node.kind, "call") {
            Ok(Self::Call(Call::from_node_unchecked(node)))
        } else if str_eq(node.kind, "identifier") {
            Ok(Self::Identifier(Identifier::from_node_unchecked(node)))
        } else {
            Err(IncorrectKind { node, kind: Self::KIND })
        }
    }
}

impl<'tree> TryFromSpecImpl<&'tree SyntaxNode> for Call_Identifier<'tree> {
    open spec fn obeys_try_from_spec() -> bool {
        true
    }

    open spec fn try_from_spec(node: &'tree SyntaxNode) -> NodeResult<'tree, Self> {
        if node.kind@ == "call"@ {
            Ok(Self::Call(Call(node)))
        } else if node.kind@ == "identifier"@ {
            Ok(Self::Identifier(Identifier(node)))
        } else {
            Err(IncorrectKind { node, kind: Self::KIND })
        }
    }
}

/// one of `{divert | call | identifier}`:
/// - [Divert]
/// - [Call]
/// - [Identifier]
#[derive(Debug, Clone, Copy, PartialEq, Eq, Hash)]
#[allow(non_camel_case_types)]
pub enum Divert_Call_Identifier<'tree> {
    Divert(Divert<'tree>),
    Call(Call<'tree>),
    Identifier(Identifier<'tree>),
}

impl<'tree> Divert_Call_Identifier<'tree> {
    /// The kinds of the nodes of this type.
    pub const KIND: &'static str = "{divert | call | identifier}";

    /// Returns the node if it is of kind `divert` ([Divert]), otherwise returns None
    pub fn divert(self) -> (r: Option<Divert<'tree>>)
        ensures
            match self {
                Self::Divert(x) => r == Some(x),
                _ => r is None,
            },
    {
        match self {
            Self::Divert(x) => Some(x),
            _ => None,
        }
    }

    /// Returns the node if it is of kind `call` ([Call]), otherwise returns None
    pub fn call(self) -> (r: Option<Call<'tree>>)
        ensures
            match self {
                Self::Call(x) => r == Some(x),
                _ => r is None,
            },
    {
        match self {
            Self::Call(x) => Some(x),
            _ => None,
        }
    }

    /// Returns the node if it is of kind `identifier` ([Identifier]), otherwise returns None
    pub fn identifier(self) -> (r: Option<Identifier<'tree>>)
        ensures
            match self {
                Self::Identifier(x) => r == Some(x),
                _ => r is None,
            },
    {
        match self {
            Self::Identifier(x) => Some(x),
            _ => None,
        }
    }

    /// The underlying node, whichever the variant.
    pub open spec fn spec_node(self) -> &'tree SyntaxNode {
        match self {
            Self::Divert(x) => x.0,
            Self::Call(x) => x.0,
            Self::Identifier(x) => x.0,
        }
    }

    /// The underlying node.
    pub fn node(&self) -> (r: &&'tree SyntaxNode)
        ensures
            *r == self.spec_node(),
    {
        match self {
            Self::Divert(x) => x.node(),
            Self::Call(x) => x.node(),
            Self::Identifier(x) => x.node(),
        }
    }

    /// The underlying node, to replace in place.
    pub fn node_mut(&mut self) -> (r: &mut &'tree SyntaxNode)
        ensures
            *r == old(self).spec_node(),
            final(self).spec_node() == *final(r),
            (*old(self)) is Divert ==> (*final(self)) is Divert,
            (*old(self)) is Call ==> (*final(self)) is Call,
            (*old(self)) is Identifier ==> (*final(self)) is Identifier,
    {
        match self {
            Self::Divert(x) => x.node_mut(),
            Self::Call(x) => x.node_mut(),
            Self::Identifier(x) => x.node_mut(),
        }
    }

    /// The underlying node, giving up the typed view.
    pub fn into_node(self) -> (r: &'tree SyntaxNode)
        ensures
            r == self.spec_node(),
    {
        match self {
            Self::Divert(x) => x.into_node(),
            Self::Call(x) => x.into_node(),
            Self::Identifier(x) => x.into_node(),
        }
    }
}

impl<'tree> TryFrom<&'tree SyntaxNode> for Divert_Call_Identifier<'tree> {
    type Error = IncorrectKind<'tree>;

    /// Views `node` as the variant for its kind, if it has one of this type's kinds.
    fn try_from(node: &'tree SyntaxNode) -> (r: NodeResult<'tree, Self>)
        ensures
            r is Ok <==> (
                node.kind@ == "divert"@
                || node.kind@ == "call"@
                || node.kind@ == "identifier"@
            ),
            r matches Ok(Self::Divert(x)) ==> node.kind@ == "divert"@ && x == Divert(node),
            r matches Ok(Self::Call(x)) ==> node.kind@ == "call"@ && x == Call(node),
            r matches Ok(Self::Identifier(x)) ==> node.kind@ == "identifier"@ && x == Identifier(node),
            r is Err ==> r == Err::<Self, IncorrectKind<'tree>>(IncorrectKind { node, kind: Self::KIND }),
    {
        if str_eq(node.kind, "divert") {
            Ok(Self::Divert(Divert::from_node_unchecked(node)))
        } else if str_eq(node.kind, "call") {
            Ok(Self::Call(Call::from_node_unchecked(node)))
        } else if str_eq(node.kind, "identifier") {
            Ok(Self::Identifier(Identifier::from_node_unchecked(node)))
        } else {
            Err(IncorrectKind { node, kind: Self::KIND })
        }
    }
}

impl<'tree> TryFromSpecImpl<&'tree SyntaxNode> for Divert_Call_Identifier<'tree> {
    open spec fn obeys_try_from_spec() -> bool {
        true
    }

    open spec fn try_from_spec(node: &'tree SyntaxNode) -> NodeResult<'tree, Self> {
        if node.kind@ == "divert"@ {
            Ok(Self::Divert(Divert(node)))
        } else if node.kind@ == "call"@ {
            Ok(Self::Call(Call(node)))
        } else if node.kind@ == "identifier"@ {
            Ok(Self::Identifier(Identifier(node)))
        } else {
            Err(IncorrectKind { node, kind: Self::KIND })
        }
    }
}

/// one of `{binary | boolean | call | divert | identifier | list_values | number | paren | postfix | qualified_name | string | unary | ! | - | not}`:
/// - [Binary]
/// - [Boolean]
/// - [Call]
/// - [Divert]
/// - [Identifier]
/// - [ListValues]
/// - [Number]
/// - [Paren]
/// - [Postfix]
/// - [QualifiedName]
/// - [String]
/// - [Unary]
/// - [symbols::Not_]
/// - [symbols::Sub_]
/// - [unnamed::Not]
#[derive(Debug, Clone, Copy, PartialEq, Eq, Hash)]
#[allow(non_camel_case_types)]
pub enum Binary_Boolean_Call_Divert_Identifier_ListValues_Number_Paren_Postfix_QualifiedName_String_Unary_Not__Sub__Not<'tree> {
    Binary(Binary<'tree>),
    Boolean(Boolean<'tree>),
    Call(Call<'tree>),
    Divert(Divert<'tree>),
    Identifier(Identifier<'tree>),
    ListValues(ListValues<'tree>),
    Number(Number<'tree>),
    Paren(Paren<'tree>),
    Postfix(Postfix<'tree>),
    QualifiedName(QualifiedName<'tree>),
    String(String<'tree>),
    Unary(Unary<'tree>),
    Not_(symbols::Not_<'tree>),
    Sub_(symbols::Sub_<'tree>),
    Not(unnamed::Not<'tree>),
}

impl<'tree> Binary_Boolean_Call_Divert_Identifier_ListValues_Number_Paren_Postfix_QualifiedName_String_Unary_Not__Sub__Not<'tree> {
    /// The kinds of the nodes of this type.
    pub const KIND: &'static str = "{binary | boolean | call | divert | identifier | list_values | number | paren | postfix | qualified_name | string | unary | ! | - | not}";

    /// Returns the node if it is of kind `binary` ([Binary]), otherwise returns None
    pub fn binary(self) -> (r: Option<Binary<'tree>>)
        ensures
            match self {
                Self::Binary(x) => r == Some(x),
                _ => r is None,
            },
    {
        match self {
            Self::Binary(x) => Some(x),
            _ => None,
        }
    }

    /// Returns the node if it is of kind `boolean` ([Boolean]), otherwise returns None
    pub fn boolean(self) -> (r: Option<Boolean<'tree>>)
        ensures
            match self {
                Self::Boolean(x) => r == Some(x),
                _ => r is None,
            },
    {
        match self {
            Self::Boolean(x) => Some(x),
            _ => None,
        }
    }

    /// Returns the node if it is of kind `call` ([Call]), otherwise returns None
    pub fn call(self) -> (r: Option<Call<'tree>>)
        ensures
            match self {
                Self::Call(x) => r == Some(x),
                _ => r is None,
            },
    {
        match self {
            Self::Call(x) => Some(x),
            _ => None,
        }
    }

    /// Returns the node if it is of kind `divert` ([Divert]), otherwise returns None
    pub fn divert(self) -> (r: Option<Divert<'tree>>)
        ensures
            match self {
                Self::Divert(x) => r == Some(x),
                _ => r is None,
            },
    {
        match self {
            Self::Divert(x) => Some(x),
            _ => None,
        }
    }

    /// Returns the node if it is of kind `identifier` ([Identifier]), otherwise returns None
    pub fn identifier(self) -> (r: Option<Identifier<'tree>>)
        ensures
            match self {
                Self::Identifier(x) => r == Some(x),
                _ => r is None,
            },
    {
        match self {
            Self::Identifier(x) => Some(x),
            _ => None,
        }
    }

    /// Returns the node if it is of kind `list_values` ([ListValues]), otherwise returns None
    pub fn list_values(self) -> (r: Option<ListValues<'tree>>)
        ensures
            match self {
                Self::ListValues(x) => r == Some(x),
                _ => r is None,
            },
    {
        match self {
            Self::ListValues(x) => Some(x),
            _ => None,
        }
    }

    /// Returns the node if it is of kind `number` ([Number]), otherwise returns None
    pub fn number(self) -> (r: Option<Number<'tree>>)
        ensures
            match self {
                Self::Number(x) => r == Some(x),
                _ => r is None,
            },
    {
        match self {
            Self::Number(x) => Some(x),
            _ => None,
        }
    }

    /// Returns the node if it is of kind `paren` ([Paren]), otherwise returns None
    pub fn paren(self) -> (r: Option<Paren<'tree>>)
        ensures
            match self {
                Self::Paren(x) => r == Some(x),
                _ => r is None,
            },
    {
        match self {
            Self::Paren(x) => Some(x),
            _ => None,
        }
    }

    /// Returns the node if it is of kind `postfix` ([Postfix]), otherwise returns None
    pub fn postfix(self) -> (r: Option<Postfix<'tree>>)
        ensures
            match self {
                Self::Postfix(x) => r == Some(x),
                _ => r is None,
            },
    {
        match self {
            Self::Postfix(x) => Some(x),
            _ => None,
        }
    }

    /// Returns the node if it is of kind `qualified_name` ([QualifiedName]), otherwise returns None
    pub fn qualified_name(self) -> (r: Option<QualifiedName<'tree>>)
        ensures
            match self {
                Self::QualifiedName(x) => r == Some(x),
                _ => r is None,
            },
    {
        match self {
            Self::QualifiedName(x) => Some(x),
            _ => None,
        }
    }

    /// Returns the node if it is of kind `string` ([String]), otherwise returns None
    pub fn string(self) -> (r: Option<String<'tree>>)
        ensures
            match self {
                Self::String(x) => r == Some(x),
                _ => r is None,
            },
    {
        match self {
            Self::String(x) => Some(x),
            _ => None,
        }
    }

    /// Returns the node if it is of kind `unary` ([Unary]), otherwise returns None
    pub fn unary(self) -> (r: Option<Unary<'tree>>)
        ensures
            match self {
                Self::Unary(x) => r == Some(x),
                _ => r is None,
            },
    {
        match self {
            Self::Unary(x) => Some(x),
            _ => None,
        }
    }

    /// Returns the node if it is of kind `!` ([symbols::Not_]), otherwise returns None
    pub fn not_(self) -> (r: Option<symbols::Not_<'tree>>)
        ensures
            match self {
                Self::Not_(x) => r == Some(x),
                _ => r is None,
            },
    {
        match self {
            Self::Not_(x) => Some(x),
            _ => None,
        }
    }

    /// Returns the node if it is of kind `-` ([symbols::Sub_]), otherwise returns None
    pub fn sub_(self) -> (r: Option<symbols::Sub_<'tree>>)
        ensures
            match self {
                Self::Sub_(x) => r == Some(x),
                _ => r is None,
            },
    {
        match self {
            Self::Sub_(x) => Some(x),
            _ => None,
        }
    }

    /// Returns the node if it is of kind `not` ([unnamed::Not]), otherwise returns None
    pub fn not(self) -> (r: Option<unnamed::Not<'tree>>)
        ensures
            match self {
                Self::Not(x) => r == Some(x),
                _ => r is None,
            },
    {
        match self {
            Self::Not(x) => Some(x),
            _ => None,
        }
    }

    /// The underlying node, whichever the variant.
    pub open spec fn spec_node(self) -> &'tree SyntaxNode {
        match self {
            Self::Binary(x) => x.0,
            Self::Boolean(x) => x.0,
            Self::Call(x) => x.0,
            Self::Divert(x) => x.0,
            Self::Identifier(x) => x.0,
            Self::ListValues(x) => x.0,
            Self::Number(x) => x.0,
            Self::Paren(x) => x.0,
            Self::Postfix(x) => x.0,
            Self::QualifiedName(x) => x.0,
            Self::String(x) => x.0,
            Self::Unary(x) => x.0,
            Self::Not_(x) => x.0,
            Self::Sub_(x) => x.0,
            Self::Not(x) => x.0,
        }
    }

    /// The underlying node.
    pub fn node(&self) -> (r: &&'tree SyntaxNode)
        ensures
            *r == self.spec_node(),
    {
        match self {
            Self::Binary(x) => x.node(),
            Self::Boolean(x) => x.node(),
            Self::Call(x) => x.node(),
            Self::Divert(x) => x.node(),
            Self::Identifier(x) => x.node(),
            Self::ListValues(x) => x.node(),
            Self::Number(x) => x.node(),
            Self::Paren(x) => x.node(),
            Self::Postfix(x) => x.node(),
            Self::QualifiedName(x) => x.node(),
            Self::String(x) => x.node(),
            Self::Unary(x) => x.node(),
            Self::Not_(x) => x.node(),
            Self::Sub_(x) => x.node(),
            Self::Not(x) => x.node(),
        }
    }

    /// The underlying node, to replace in place.
    pub fn node_mut(&mut self) -> (r: &mut &'tree SyntaxNode)
        ensures
            *r == old(self).spec_node(),
            final(self).spec_node() == *final(r),
            (*old(self)) is Binary ==> (*final(self)) is Binary,
            (*old(self)) is Boolean ==> (*final(self)) is Boolean,
            (*old(self)) is Call ==> (*final(self)) is Call,
            (*old(self)) is Divert ==> (*final(self)) is Divert,
            (*old(self)) is Identifier ==> (*final(self)) is Identifier,
            (*old(self)) is ListValues ==> (*final(self)) is ListValues,
            (*old(self)) is Number ==> (*final(self)) is Number,
            (*old(self)) is Paren ==> (*final(self)) is Paren,
            (*old(self)) is Postfix ==> (*final(self)) is Postfix,
            (*old(self)) is QualifiedName ==> (*final(self)) is QualifiedName,
            (*old(self)) is String ==> (*final(self)) is String,
            (*old(self)) is Unary ==> (*final(self)) is Unary,
            (*old(self)) is Not_ ==> (*final(self)) is Not_,
            (*old(self)) is Sub_ ==> (*final(self)) is Sub_,
            (*old(self)) is Not ==> (*final(self)) is Not,
    {
        match self {
            Self::Binary(x) => x.node_mut(),
            Self::Boolean(x) => x.node_mut(),
            Self::Call(x) => x.node_mut(),
            Self::Divert(x) => x.node_mut(),
            Self::Identifier(x) => x.node_mut(),
            Self::ListValues(x) => x.node_mut(),
            Self::Number(x) => x.node_mut(),
            Self::Paren(x) => x.node_mut(),
            Self::Postfix(x) => x.node_mut(),
            Self::QualifiedName(x) => x.node_mut(),
            Self::String(x) => x.node_mut(),
            Self::Unary(x) => x.node_mut(),
            Self::Not_(x) => x.node_mut(),
            Self::Sub_(x) => x.node_mut(),
            Self::Not(x) => x.node_mut(),
        }
    }

    /// The underlying node, giving up the typed view.
    pub fn into_node(self) -> (r: &'tree SyntaxNode)
        ensures
            r == self.spec_node(),
    {
        match self {
            Self::Binary(x) => x.into_node(),
            Self::Boolean(x) => x.into_node(),
            Self::Call(x) => x.into_node(),
            Self::Divert(x) => x.into_node(),
            Self::Identifier(x) => x.into_node(),
            Self::ListValues(x) => x.into_node(),
            Self::Number(x) => x.into_node(),
            Self::Paren(x) => x.into_node(),
            Self::Postfix(x) => x.into_node(),
            Self::QualifiedName(x) => x.into_node(),
            Self::String(x) => x.into_node(),
            Self::Unary(x) => x.into_node(),
            Self::Not_(x) => x.into_node(),
            Self::Sub_(x) => x.into_node(),
            Self::Not(x) => x.into_node(),
        }
    }
}

impl<'tree> TryFrom<&'tree SyntaxNode> for Binary_Boolean_Call_Divert_Identifier_ListValues_Number_Paren_Postfix_QualifiedName_String_Unary_Not__Sub__Not<'tree> {
    type Error = IncorrectKind<'tree>;

    /// Views `node` as the variant for its kind, if it has one of this type's kinds.
    fn try_from(node: &'tree SyntaxNode) -> (r: NodeResult<'tree, Self>)
        ensures
            r is Ok <==> (
                node.kind@ == "binary"@
                || node.kind@ == "boolean"@
                || node.kind@ == "call"@
                || node.kind@ == "divert"@
                || node.kind@ == "identifier"@
                || node.kind@ == "list_values"@
                || node.kind@ == "number"@
                || node.kind@ == "paren"@
                || node.kind@ == "postfix"@
                || node.kind@ == "qualified_name"@
                || node.kind@ == "string"@
                || node.kind@ == "unary"@
                || node.kind@ == "!"@
                || node.kind@ == "-"@
                || node.kind@ == "not"@
            ),
            r matches Ok(Self::Binary(x)) ==> node.kind@ == "binary"@ && x == Binary(node),
            r matches Ok(Self::Boolean(x)) ==> node.kind@ == "boolean"@ && x == Boolean(node),
            r matches Ok(Self::Call(x)) ==> node.kind@ == "call"@ && x == Call(node),
            r matches Ok(Self::Divert(x)) ==> node.kind@ == "divert"@ && x == Divert(node),
            r matches Ok(Self::Identifier(x)) ==> node.kind@ == "identifier"@ && x == Identifier(node),
            r matches Ok(Self::ListValues(x)) ==> node.kind@ == "list_values"@ && x == ListValues(node),
            r matches Ok(Self::Number(x)) ==> node.kind@ == "number"@ && x == Number(node),
            r matches Ok(Self::Paren(x)) ==> node.kind@ == "paren"@ && x == Paren(node),
            r matches Ok(Self::Postfix(x)) ==> node.kind@ == "postfix"@ && x == Postfix(node),
            r matches Ok(Self::QualifiedName(x)) ==> node.kind@ == "qualified_name"@ && x == QualifiedName(node),
            r matches Ok(Self::String(x)) ==> node.kind@ == "string"@ && x == String(node),
            r matches Ok(Self::Unary(x)) ==> node.kind@ == "unary"@ && x == Unary(node),
            r matches Ok(Self::Not_(x)) ==> node.kind@ == "!"@ && x == symbols::Not_(node),
            r matches Ok(Self::Sub_(x)) ==> node.kind@ == "-"@ && x == symbols::Sub_(node),
            r matches Ok(Self::Not(x)) ==> node.kind@ == "not"@ && x == unnamed::Not(node),
            r is Err ==> r == Err::<Self, IncorrectKind<'tree>>(IncorrectKind { node, kind: Self::KIND }),
    {
        if str_eq(node.kind, "binary") {
            Ok(Self::Binary(Binary::from_node_unchecked(node)))
        } else if str_eq(node.kind, "boolean") {
            Ok(Self::Boolean(Boolean::from_node_unchecked(node)))
        } else if str_eq(node.kind, "call") {
            Ok(Self::Call(Call::from_node_unchecked(node)))
        } else if str_eq(node.kind, "divert") {
            Ok(Self::Divert(Divert::from_node_unchecked(node)))
        } else if str_eq(node.kind, "identifier") {
            Ok(Self::Identifier(Identifier::from_node_unchecked(node)))
        } else if str_eq(node.kind, "list_values") {
            Ok(Self::ListValues(ListValues::from_node_unchecked(node)))
        } else if str_eq(node.kind, "number") {
            Ok(Self::Number(Number::from_node_unchecked(node)))
        } else if str_eq(node.kind, "paren") {
            Ok(Self::Paren(Paren::from_node_unchecked(node)))
        } else if str_eq(node.kind, "postfix") {
            Ok(Self::Postfix(Postfix::from_node_unchecked(node)))
        } else if str_eq(node.kind, "qualified_name") {
            Ok(Self::QualifiedName(QualifiedName::from_node_unchecked(node)))
        } else if str_eq(node.kind, "string") {
            Ok(Self::String(String::from_node_unchecked(node)))
        } else if str_eq(node.kind, "unary") {
            Ok(Self::Unary(Unary::from_node_unchecked(node)))
        } else if str_eq(node.kind, "!") {
            Ok(Self::Not_(symbols::Not_::from_node_unchecked(node)))
        } else if str_eq(node.kind, "-") {
            Ok(Self::Sub_(symbols::Sub_::from_node_unchecked(node)))
        } else if str_eq(node.kind, "not") {
            Ok(Self::Not(unnamed::Not::from_node_unchecked(node)))
        } else {
            Err(IncorrectKind { node, kind: Self::KIND })
        }
    }
}

impl<'tree> TryFromSpecImpl<&'tree SyntaxNode> for Binary_Boolean_Call_Divert_Identifier_ListValues_Number_Paren_Postfix_QualifiedName_String_Unary_Not__Sub__Not<'tree> {
    open spec fn obeys_try_from_spec() -> bool {
        true
    }

    open spec fn try_from_spec(node: &'tree SyntaxNode) -> NodeResult<'tree, Self> {
        if node.kind@ == "binary"@ {
            Ok(Self::Binary(Binary(node)))
        } else if node.kind@ == "boolean"@ {
            Ok(Self::Boolean(Boolean(node)))
        } else if node.kind@ == "call"@ {
            Ok(Self::Call(Call(node)))
        } else if node.kind@ == "divert"@ {
            Ok(Self::Divert(Divert(node)))
        } else if node.kind@ == "identifier"@ {
            Ok(Self::Identifier(Identifier(node)))
        } else if node.kind@ == "list_values"@ {
            Ok(Self::ListValues(ListValues(node)))
        } else if node.kind@ == "number"@ {
            Ok(Self::Number(Number(node)))
        } else if node.kind@ == "paren"@ {
            Ok(Self::Paren(Paren(node)))
        } else if node.kind@ == "postfix"@ {
            Ok(Self::Postfix(Postfix(node)))
        } else if node.kind@ == "qualified_name"@ {
            Ok(Self::QualifiedName(QualifiedName(node)))
        } else if node.kind@ == "string"@ {
            Ok(Self::String(String(node)))
        } else if node.kind@ == "unary"@ {
            Ok(Self::Unary(Unary(node)))
        } else if node.kind@ == "!"@ {
            Ok(Self::Not_(symbols::Not_(node)))
        } else if node.kind@ == "-"@ {
            Ok(Self::Sub_(symbols::Sub_(node)))
        } else if node.kind@ == "not"@ {
            Ok(Self::Not(unnamed::Not(node)))
        } else {
            Err(IncorrectKind { node, kind: Self::KIND })
        }
    }
}

/// one of `{! | - | not}`:
/// - [symbols::Not_]
/// - [symbols::Sub_]
/// - [unnamed::Not]
#[derive(Debug, Clone, Copy, PartialEq, Eq, Hash)]
#[allow(non_camel_case_types)]
pub enum Not__Sub__Not<'tree> {
    Not_(symbols::Not_<'tree>),
    Sub_(symbols::Sub_<'tree>),
    Not(unnamed::Not<'tree>),
}

impl<'tree> Not__Sub__Not<'tree> {
    /// The kinds of the nodes of this type.
    pub const KIND: &'static str = "{! | - | not}";

    /// Returns the node if it is of kind `!` ([symbols::Not_]), otherwise returns None
    pub fn not_(self) -> (r: Option<symbols::Not_<'tree>>)
        ensures
            match self {
                Self::Not_(x) => r == Some(x),
                _ => r is None,
            },
    {
        match self {
            Self::Not_(x) => Some(x),
            _ => None,
        }
    }

    /// Returns the node if it is of kind `-` ([symbols::Sub_]), otherwise returns None
    pub fn sub_(self) -> (r: Option<symbols::Sub_<'tree>>)
        ensures
            match self {
                Self::Sub_(x) => r == Some(x),
                _ => r is None,
            },
    {
        match self {
            Self::Sub_(x) => Some(x),
            _ => None,
        }
    }

    /// Returns the node if it is of kind `not` ([unnamed::Not]), otherwise returns None
    pub fn not(self) -> (r: Option<unnamed::Not<'tree>>)
        ensures
            match self {
                Self::Not(x) => r == Some(x),
                _ => r is None,
            },
    {
        match self {
            Self::Not(x) => Some(x),
            _ => None,
        }
    }

    /// The underlying node, whichever the variant.
    pub open spec fn spec_node(self) -> &'tree SyntaxNode {
        match self {
            Self::Not_(x) => x.0,
            Self::Sub_(x) => x.0,
            Self::Not(x) => x.0,
        }
    }

    /// The underlying node.
    pub fn node(&self) -> (r: &&'tree SyntaxNode)
        ensures
            *r == self.spec_node(),
    {
        match self {
            Self::Not_(x) => x.node(),
            Self::Sub_(x) => x.node(),
            Self::Not(x) => x.node(),
        }
    }

    /// The underlying node, to replace in place.
    pub fn node_mut(&mut self) -> (r: &mut &'tree SyntaxNode)
        ensures
            *r == old(self).spec_node(),
            final(self).spec_node() == *final(r),
            (*old(self)) is Not_ ==> (*final(self)) is Not_,
            (*old(self)) is Sub_ ==> (*final(self)) is Sub_,
            (*old(self)) is Not ==> (*final(self)) is Not,
    {
        match self {
            Self::Not_(x) => x.node_mut(),
            Self::Sub_(x) => x.node_mut(),
            Self::Not(x) => x.node_mut(),
        }
    }

    /// The underlying node, giving up the typed view.
    pub fn into_node(self) -> (r: &'tree SyntaxNode)
        ensures
            r == self.spec_node(),
    {
        match self {
            Self::Not_(x) => x.into_node(),
            Self::Sub_(x) => x.into_node(),
            Self::Not(x) => x.into_node(),
        }
    }
}

impl<'tree> TryFrom<&'tree SyntaxNode> for Not__Sub__Not<'tree> {
    type Error = IncorrectKind<'tree>;

    /// Views `node` as the variant for its kind, if it has one of this type's kinds.
    fn try_from(node: &'tree SyntaxNode) -> (r: NodeResult<'tree, Self>)
        ensures
            r is Ok <==> (
                node.kind@ == "!"@
                || node.kind@ == "-"@
                || node.kind@ == "not"@
            ),
            r matches Ok(Self::Not_(x)) ==> node.kind@ == "!"@ && x == symbols::Not_(node),
            r matches Ok(Self::Sub_(x)) ==> node.kind@ == "-"@ && x == symbols::Sub_(node),
            r matches Ok(Self::Not(x)) ==> node.kind@ == "not"@ && x == unnamed::Not(node),
            r is Err ==> r == Err::<Self, IncorrectKind<'tree>>(IncorrectKind { node, kind: Self::KIND }),
    {
        if str_eq(node.kind, "!") {
            Ok(Self::Not_(symbols::Not_::from_node_unchecked(node)))
        } else if str_eq(node.kind, "-") {
            Ok(Self::Sub_(symbols::Sub_::from_node_unchecked(node)))
        } else if str_eq(node.kind, "not") {
            Ok(Self::Not(unnamed::Not::from_node_unchecked(node)))
        } else {
            Err(IncorrectKind { node, kind: Self::KIND })
        }
    }
}

impl<'tree> TryFromSpecImpl<&'tree SyntaxNode> for Not__Sub__Not<'tree> {
    open spec fn obeys_try_from_spec() -> bool {
        true
    }

    open spec fn try_from_spec(node: &'tree SyntaxNode) -> NodeResult<'tree, Self> {
        if node.kind@ == "!"@ {
            Ok(Self::Not_(symbols::Not_(node)))
        } else if node.kind@ == "-"@ {
            Ok(Self::Sub_(symbols::Sub_(node)))
        } else if node.kind@ == "not"@ {
            Ok(Self::Not(unnamed::Not(node)))
        } else {
            Err(IncorrectKind { node, kind: Self::KIND })
        }
    }
}

} // verus!
