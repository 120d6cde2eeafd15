//! What holds of every literal: how the parse of an element and the chain
//! that is written for it relate.

use vstd::prelude::*;
use crate::call::{chain_text, lemma_chain_text_concat, CallView};
use crate::cursor::{group_at, ident_at, is_keyword, tuple_at};
use crate::error::{decimal, DiagnosticView, ErrorKindView, Keyword, ParseErrorView};
use crate::expansion;
use crate::grammar::{
    class_value_at, class_value_of, field_at, group_children, group_fields, node_at,
};
use crate::node::{child_calls, field_calls, ChildView, ClassValueView, FieldView, NodeView};
use crate::oracle::{lexed, syn_ident_refusal};
use crate::token::TokenView;

verus! {

/// A literal that is a tag and nothing else becomes the call that
/// constructs the element, with no call behind it.
pub proof fn lemma_tag_alone(literal: Seq<char>, tag: Seq<char>)
    requires
        lexed(literal) == Some(seq![TokenView::Ident(tag)]),
        syn_ident_refusal(tag) is None,
    ensures
        node_at(seq![TokenView::Ident(tag)], 0) == Ok::<_, ParseErrorView>(
            (NodeView::bare(tag), 1int),
        ),
        NodeView::bare(tag).calls() == seq![CallView::Construct { tag }],
        expansion(literal) == Ok::<_, ParseErrorView>("leptos::html::"@ + tag + "()"@),
{
    let calls = NodeView::bare(tag).calls();
    assert(chain_text(calls) =~= "leptos::html::"@ + tag + "()"@) by {
        assert(chain_text(calls.drop_last()) =~= Seq::<char>::empty());
    }
}

/// An element without a group behind its tag has no fields and no
/// children, wherever in a token sequence it stands.
pub proof fn lemma_no_group(tokens: Seq<TokenView>, pos: int)
    requires
        ident_at(tokens, pos) is Ok,
        group_at(tokens, pos + 1) is None,
    ensures
        node_at(tokens, pos) is Ok,
        ({
            let (node, end) = node_at(tokens, pos)->Ok_0;
            &&& end == pos + 1
            &&& node.fields.len() == 0
            &&& node.children.len() == 0
            &&& node.calls() == seq![CallView::Construct { tag: node.tag }]
        }),
{
}

/// The chain of an element holds one call for each field, in the order of
/// the fields, directly behind the call that constructs the element.
pub proof fn lemma_fields_in_order(node: NodeView)
    ensures
        node.calls().len() == 1 + node.fields.len() + node.children.len(),
        node.calls()[0] == (CallView::Construct { tag: node.tag }),
        forall|i: int|
            0 <= i < node.fields.len() ==> #[trigger] node.calls()[1 + i] == node.fields[i].call(),
{
}

/// The chain of an element holds one `child` call for each child, in the
/// order of the children, behind the calls for the fields.
pub proof fn lemma_children_in_order(node: NodeView)
    ensures
        forall|i: int|
            0 <= i < node.children.len() ==> #[trigger] node.calls()[1 + node.fields.len() + i]
                == (CallView::Child { value: node.children[i].expr }),
{
}

/// The text of an element's chain is the text of the call that constructs
/// it, then the texts of the calls for its fields, then the texts of the
/// calls for its children.
pub proof fn lemma_chain_text_in_order(node: NodeView)
    ensures
        chain_text(node.calls()) == (CallView::Construct { tag: node.tag }).text() + chain_text(
            field_calls(node.fields),
        ) + chain_text(child_calls(node.children)),
{
    let construct = seq![CallView::Construct { tag: node.tag }];
    lemma_chain_text_concat(construct + field_calls(node.fields), child_calls(node.children));
    lemma_chain_text_concat(construct, field_calls(node.fields));
    assert(chain_text(construct) =~= construct[0].text()) by {
        assert(construct.drop_last() =~= Seq::<CallView>::empty());
        assert(chain_text(construct.drop_last()) =~= Seq::<char>::empty());
        assert(construct.last() == construct[0]);
    }
}

/// The fields and children of a parsed element are those of its groups,
/// in the order in which they are written there: the field list is the
/// content of the group that `fields_paren_token` names, the child list
/// the content of the group that `children_paren_token` names, and a list
/// without a group is empty.
pub proof fn lemma_lists_are_the_groups(tokens: Seq<TokenView>, pos: int)
    requires
        node_at(tokens, pos) is Ok,
    ensures
        ({
            let node = node_at(tokens, pos)->Ok_0.0;
            &&& node.fields_paren_token matches Some(group) ==> {
                &&& group_at(tokens, group) matches Some(content)
                &&& group_fields(content) == Ok::<_, DiagnosticView>(node.fields)
            }
            &&& node.fields_paren_token is None ==> node.fields.len() == 0
            &&& node.children_paren_token matches Some(group) ==> {
                &&& group_at(tokens, group) matches Some(content)
                &&& group_children(content) == Ok::<_, DiagnosticView>(node.children)
            }
            &&& node.children_paren_token is None ==> node.children.len() == 0
        }),
{
}

/// A parsed element is well formed.
pub proof fn lemma_parsed_node_is_well_formed(tokens: Seq<TokenView>, pos: int)
    requires
        node_at(tokens, pos) is Ok,
    ensures
        node_at(tokens, pos)->Ok_0.0.well_formed(),
{
}

/// A field that is read as a plain attribute is named by neither keyword:
/// the keywords come first.
pub proof fn lemma_keywords_come_first(tokens: Seq<TokenView>, pos: int)
    requires
        field_at(tokens, pos) is Ok,
    ensures
        field_at(tokens, pos)->Ok_0.0 matches FieldView::Attr(attr) ==> attr.name
            != Keyword::Class.text() && attr.name != Keyword::Style.text(),
        is_keyword(tokens, pos, Keyword::Class) <==> field_at(tokens, pos)->Ok_0.0 is Class,
        is_keyword(tokens, pos, Keyword::Style) && !is_keyword(tokens, pos, Keyword::Class)
            <==> field_at(tokens, pos)->Ok_0.0 is Style,
{
}

/// The group behind the tag is taken one way and never both: as the field
/// list exactly if its content can be read as one, and as the child list
/// exactly if it cannot.
pub proof fn lemma_group_is_taken_one_way(tokens: Seq<TokenView>, pos: int, content: Seq<char>)
    requires
        node_at(tokens, pos) is Ok,
        group_at(tokens, pos + 1) == Some(content),
    ensures
        ({
            let node = node_at(tokens, pos)->Ok_0.0;
            &&& group_fields(content) is Ok <==> node.fields_paren_token == Some(pos + 1)
            &&& group_fields(content) is Err <==> node.children_paren_token == Some(pos + 1)
            &&& node.fields_paren_token == Some(pos + 1) <==> node.children_paren_token != Some(
                pos + 1,
            )
            &&& group_fields(content) matches Ok(fields) ==> node.fields == fields
            &&& group_fields(content) is Err ==> node.fields_paren_token is None
                && node.fields.len() == 0 && group_children(content) == Ok::<_, DiagnosticView>(
                node.children,
            )
        }),
{
}

/// A tuple of two components is a condition and its class; a tuple of any
/// other number of components is rejected, and the failure holds that
/// number and says it.
pub proof fn lemma_class_tuple_arity(items: Seq<Seq<char>>, at: int)
    ensures
        items.len() == 2 ==> class_value_of(items, at) == Ok::<_, DiagnosticView>(
            ClassValueView::Dynamic(items[0], items[1]),
        ),
        items.len() != 2 ==> class_value_of(items, at) == Err::<ClassValueView, _>(
            DiagnosticView { kind: ErrorKindView::TupleArity(items.len()), at },
        ),
        ErrorKindView::TupleArity(items.len()).message() == "tuple has "@ + decimal(items.len())
            + " items, expected 2"@,
{
}

/// Where a class value is written as a tuple, the number of the tuple's
/// components alone decides whether it is accepted.
pub proof fn lemma_class_tuple_decides(tokens: Seq<TokenView>, pos: int)
    requires
        tuple_at(tokens, pos) is Ok,
    ensures
        ({
            let (items, end) = tuple_at(tokens, pos)->Ok_0;
            &&& items.len() == 2 ==> class_value_at(tokens, pos) == Ok::<_, DiagnosticView>(
                (ClassValueView::Dynamic(items[0], items[1]), end),
            )
            &&& items.len() != 2 ==> class_value_at(tokens, pos) == Err::<
                (ClassValueView, int),
                _,
            >(DiagnosticView { kind: ErrorKindView::TupleArity(items.len()), at: pos })
        }),
{
}

/// A group without a token between its parentheses is an empty field list
/// and an empty child list, and never a failure.
pub proof fn lemma_empty_group(content: Seq<char>)
    requires
        lexed(content) == Some(Seq::<TokenView>::empty()),
    ensures
        group_fields(content) == Ok::<_, DiagnosticView>(Seq::<FieldView>::empty()),
        group_children(content) == Ok::<_, DiagnosticView>(Seq::<ChildView>::empty()),
{
}

/// An element with empty groups is accepted: an empty group behind the
/// tag is its field list, an empty group behind that its child list, and
/// both lists are empty.
pub proof fn lemma_empty_groups_are_accepted(tokens: Seq<TokenView>, pos: int)
    requires
        ident_at(tokens, pos) is Ok,
        group_at(tokens, pos + 1) matches Some(content) && lexed(content) == Some(
            Seq::<TokenView>::empty(),
        ),
        group_at(tokens, pos + 2) matches Some(content) ==> lexed(content) == Some(
            Seq::<TokenView>::empty(),
        ),
    ensures
        node_at(tokens, pos) is Ok,
        ({
            let (node, end) = node_at(tokens, pos)->Ok_0;
            &&& node.fields_paren_token == Some(pos + 1)
            &&& node.fields.len() == 0
            &&& node.children.len() == 0
            &&& group_at(tokens, pos + 2) is None ==> node.children_paren_token is None && end
                == pos + 2
            &&& group_at(tokens, pos + 2) is Some ==> node.children_paren_token == Some(pos + 2)
                && end == pos + 3
        }),
{
    lemma_empty_group(group_at(tokens, pos + 1)->Some_0);
    if group_at(tokens, pos + 2) is Some {
        lemma_empty_group(group_at(tokens, pos + 2)->Some_0);
    }
}

} // verus!
