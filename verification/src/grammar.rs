//! The grammar of an element literal, as functions of a token sequence and
//! a position in it.
//!
//! ```text
//! Node     := tag ( "(" Group ")" )? ( "(" Children ")" )?
//! Group    := Fields | Children
//! Fields   := ( Field ( "," Field )* ","? )?
//! Field    := "class" "=" ClassValue | "style" "=" Expr | name "=" Expr
//! Children := ( Expr ( "," Expr )* )?
//! ```
//!
//! A group behind the tag is a field list if it can be read as one, and the
//! child list otherwise; only behind a field list a second group is read.

use vstd::prelude::*;
use crate::cursor::{
    expr_at, failure, group_at, ident_at, is_keyword, is_punct, keyword_at, punct_at, tuple_at,
    Parsed,
};
use crate::error::{DiagnosticView, ErrorKindView, Keyword, ParseErrorView};
use crate::node::{
    AttrView, ChildView, ClassValueView, ClassView, FieldView, NodeView, StyleView,
};
use crate::token::{tokens_of, TokenView};

verus! {

/// `name = value`.
pub open spec fn attr_at(tokens: Seq<TokenView>, pos: int) -> Parsed<AttrView> {
    match ident_at(tokens, pos) {
        Err(error) => Err(error),
        Ok((name, equals)) => match punct_at(tokens, equals, '=') {
            Err(error) => Err(error),
            Ok((_, start)) => match expr_at(tokens, start) {
                Err(error) => Err(error),
                Ok((value, end)) => Ok((AttrView { name, value }, end)),
            },
        },
    }
}

/// The class value that a tuple of `items`, read at `at`, stands for: a
/// pair is a condition and a class, and no other tuple is accepted.
pub open spec fn class_value_of(items: Seq<Seq<char>>, at: int) -> Result<
    ClassValueView,
    DiagnosticView,
> {
    if items.len() == 2 {
        Ok(ClassValueView::Dynamic(items[0], items[1]))
    } else {
        Err(DiagnosticView { kind: ErrorKindView::TupleArity(items.len()), at })
    }
}

/// A class value: a tuple where `syn` reads one, and any other expression
/// as a static class.
pub open spec fn class_value_at(tokens: Seq<TokenView>, pos: int) -> Parsed<ClassValueView> {
    match tuple_at(tokens, pos) {
        Ok((items, end)) => match class_value_of(items, pos) {
            Ok(value) => Ok((value, end)),
            Err(error) => Err(error),
        },
        Err(_) => match expr_at(tokens, pos) {
            Ok((text, end)) => Ok((ClassValueView::Static(text), end)),
            Err(error) => Err(error),
        },
    }
}

/// `class = value`.
pub open spec fn class_at(tokens: Seq<TokenView>, pos: int) -> Parsed<ClassView> {
    match keyword_at(tokens, pos, Keyword::Class) {
        Err(error) => Err(error),
        Ok((_, equals)) => match punct_at(tokens, equals, '=') {
            Err(error) => Err(error),
            Ok((_, start)) => match class_value_at(tokens, start) {
                Err(error) => Err(error),
                Ok((value, end)) => Ok((ClassView { value }, end)),
            },
        },
    }
}

/// `style = value`.
pub open spec fn style_at(tokens: Seq<TokenView>, pos: int) -> Parsed<StyleView> {
    match keyword_at(tokens, pos, Keyword::Style) {
        Err(error) => Err(error),
        Ok((_, equals)) => match punct_at(tokens, equals, '=') {
            Err(error) => Err(error),
            Ok((_, start)) => match expr_at(tokens, start) {
                Err(error) => Err(error),
                Ok((value, end)) => Ok((StyleView { value }, end)),
            },
        },
    }
}

/// One field: the shape that its leading keyword selects, and a plain
/// attribute where it leads with neither keyword.
pub open spec fn field_at(tokens: Seq<TokenView>, pos: int) -> Parsed<FieldView> {
    if is_keyword(tokens, pos, Keyword::Class) {
        match class_at(tokens, pos) {
            Ok((class, end)) => Ok((FieldView::Class(class), end)),
            Err(error) => Err(error),
        }
    } else if is_keyword(tokens, pos, Keyword::Style) {
        match style_at(tokens, pos) {
            Ok((style, end)) => Ok((FieldView::Style(style), end)),
            Err(error) => Err(error),
        }
    } else {
        match attr_at(tokens, pos) {
            Ok((attr, end)) => Ok((FieldView::Attr(attr), end)),
            Err(error) => Err(error),
        }
    }
}

/// A list read so far, followed by what the rest of the input gives.
pub open spec fn prepend<T>(head: Seq<T>, tail: Parsed<Seq<T>>) -> Parsed<Seq<T>> {
    match tail {
        Ok((items, end)) => Ok((head + items, end)),
        Err(error) => Err(error),
    }
}

/// The fields from `pos` to the end of the input, separated by commas; a
/// comma may follow the last.
pub open spec fn fields_at(tokens: Seq<TokenView>, pos: int) -> Parsed<Seq<FieldView>>
    decreases tokens.len() - pos,
{
    if pos >= tokens.len() {
        Ok((seq![], pos))
    } else {
        match field_at(tokens, pos) {
            Err(error) => Err(error),
            Ok((field, end)) => {
                if end >= tokens.len() {
                    Ok((seq![field], end))
                } else if is_punct(tokens, end, ',') {
                    prepend(seq![field], fields_at(tokens, end + 1))
                } else {
                    failure(ErrorKindView::ExpectedPunct(','), end)
                }
            },
        }
    }
}

/// One child: an expression.
pub open spec fn child_at(tokens: Seq<TokenView>, pos: int) -> Parsed<ChildView> {
    match expr_at(tokens, pos) {
        Ok((expr, end)) => Ok((ChildView { expr }, end)),
        Err(error) => Err(error),
    }
}

/// One child and, behind each comma that follows, one more.
pub open spec fn children_from(tokens: Seq<TokenView>, pos: int) -> Parsed<Seq<ChildView>>
    decreases tokens.len() - pos,
{
    match child_at(tokens, pos) {
        Err(error) => Err(error),
        Ok((child, end)) => {
            if end >= tokens.len() {
                Ok((seq![child], end))
            } else if is_punct(tokens, end, ',') {
                prepend(seq![child], children_from(tokens, end + 1))
            } else {
                failure(ErrorKindView::ExpectedPunct(','), end)
            }
        },
    }
}

/// The children from `pos` to the end of the input: none where nothing is
/// left, else expressions separated by commas, with none behind the last.
pub open spec fn children_at(tokens: Seq<TokenView>, pos: int) -> Parsed<Seq<ChildView>> {
    if pos >= tokens.len() {
        Ok((seq![], pos))
    } else {
        children_from(tokens, pos)
    }
}

/// A group's content read as a field list.
pub open spec fn group_fields(content: Seq<char>) -> Result<Seq<FieldView>, DiagnosticView> {
    match tokens_of(content) {
        Err(error) => Err(error),
        Ok(tokens) => match fields_at(tokens, 0) {
            Ok((fields, _)) => Ok(fields),
            Err(error) => Err(error),
        },
    }
}

/// A group's content read as a child list.
pub open spec fn group_children(content: Seq<char>) -> Result<Seq<ChildView>, DiagnosticView> {
    match tokens_of(content) {
        Err(error) => Err(error),
        Ok(tokens) => match children_at(tokens, 0) {
            Ok((children, _)) => Ok(children),
            Err(error) => Err(error),
        },
    }
}

/// What the group at index `group`, with the text `content` between its
/// parentheses, makes of an element that so far is `node`: its fields if
/// the content is a field list, else its children, else a failure that
/// holds the causes of both.
pub open spec fn with_first_group(node: NodeView, group: int, content: Seq<char>) -> Result<
    NodeView,
    ParseErrorView,
> {
    match group_fields(content) {
        Ok(fields) => Ok(NodeView { fields_paren_token: Some(group), fields, ..node }),
        Err(fields_error) => match group_children(content) {
            Ok(children) => Ok(NodeView { children_paren_token: Some(group), children, ..node }),
            Err(children_error) => Err(
                ParseErrorView::Ambiguous {
                    group,
                    fields: fields_error,
                    children: children_error,
                },
            ),
        },
    }
}

/// What the group at index `group` makes of an element whose first group
/// held its fields: the element's children, with no other reading.
pub open spec fn with_second_group(node: NodeView, group: int, content: Seq<char>) -> Result<
    NodeView,
    ParseErrorView,
> {
    match group_children(content) {
        Ok(children) => Ok(NodeView { children_paren_token: Some(group), children, ..node }),
        Err(error) => Err(ParseErrorView::Single { within: Some(group), cause: error }),
    }
}

/// One element: its tag and up to two groups.
pub open spec fn node_at(tokens: Seq<TokenView>, pos: int) -> Result<
    (NodeView, int),
    ParseErrorView,
> {
    match ident_at(tokens, pos) {
        Err(error) => Err(ParseErrorView::Single { within: None, cause: error }),
        Ok((tag, first)) => match group_at(tokens, first) {
            None => Ok((NodeView::bare(tag), first)),
            Some(content) => match with_first_group(NodeView::bare(tag), first, content) {
                Err(error) => Err(error),
                Ok(node) => if node.children_paren_token is Some {
                    Ok((node, first + 1))
                } else {
                    match group_at(tokens, first + 1) {
                        None => Ok((node, first + 1)),
                        Some(second) => match with_second_group(node, first + 1, second) {
                            Ok(node) => Ok((node, first + 2)),
                            Err(error) => Err(error),
                        },
                    }
                },
            },
        },
    }
}

} // verus!
