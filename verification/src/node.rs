//! The syntax tree of an element literal, and the parser of each of its
//! parts.
//!
//! Expressions are opaque here: an attribute's value, a class, a style and
//! a child are each the text of what `syn` read as one expression.

use vstd::prelude::*;
use crate::call::{call_views, Call, CallView};
use crate::cursor::{outcome, reads, Cursor};
use crate::error::{Diagnostic, DiagnosticView, ErrorKind, Keyword, ParseError};
use crate::grammar::{
    attr_at, child_at, children_at, children_from, class_at, class_value_at, class_value_of,
    field_at, fields_at, group_children, group_fields, node_at, prepend, style_at,
    with_first_group, with_second_group,
};
use crate::oracle::texts;
use crate::token::tokenize;

verus! {

/// A generic attribute: `name = value`.
#[derive(Clone, Debug, PartialEq, Eq)]
pub struct Attr {
    pub name: String,
    pub value: String,
}

/// The mathematical value of an [`Attr`].
pub struct AttrView {
    pub name: Seq<char>,
    pub value: Seq<char>,
}

impl View for Attr {
    type V = AttrView;

    open spec fn view(&self) -> AttrView {
        AttrView { name: self.name@, value: self.value@ }
    }
}

/// The value of a `class` field: a class that is always set, or a
/// condition and the class that it switches.
#[derive(Clone, Debug, PartialEq, Eq)]
pub enum ClassValue {
    Static(String),
    Dynamic(String, String),
}

/// The mathematical value of a [`ClassValue`].
pub enum ClassValueView {
    Static(Seq<char>),
    Dynamic(Seq<char>, Seq<char>),
}

impl View for ClassValue {
    type V = ClassValueView;

    open spec fn view(&self) -> ClassValueView {
        match *self {
            ClassValue::Static(class) => ClassValueView::Static(class@),
            ClassValue::Dynamic(condition, class) => ClassValueView::Dynamic(condition@, class@),
        }
    }
}

/// A class field: `class = value`.
#[derive(Clone, Debug, PartialEq, Eq)]
pub struct Class {
    pub value: ClassValue,
}

/// The mathematical value of a [`Class`].
pub struct ClassView {
    pub value: ClassValueView,
}

impl View for Class {
    type V = ClassView;

    open spec fn view(&self) -> ClassView {
        ClassView { value: self.value@ }
    }
}

/// A style field: `style = value`.
#[derive(Clone, Debug, PartialEq, Eq)]
pub struct Style {
    pub value: String,
}

/// The mathematical value of a [`Style`].
pub struct StyleView {
    pub value: Seq<char>,
}

impl View for Style {
    type V = StyleView;

    open spec fn view(&self) -> StyleView {
        StyleView { value: self.value@ }
    }
}

/// One entry of an element's first group.
#[derive(Clone, Debug, PartialEq, Eq)]
pub enum Field {
    Attr(Attr),
    Class(Class),
    Style(Style),
}

/// The mathematical value of a [`Field`].
pub enum FieldView {
    Attr(AttrView),
    Class(ClassView),
    Style(StyleView),
}

impl View for Field {
    type V = FieldView;

    open spec fn view(&self) -> FieldView {
        match *self {
            Field::Attr(attr) => FieldView::Attr(attr@),
            Field::Class(class) => FieldView::Class(class@),
            Field::Style(style) => FieldView::Style(style@),
        }
    }
}

/// The values of a sequence of fields.
pub open spec fn field_views(fields: Seq<Field>) -> Seq<FieldView> {
    Seq::new(fields.len(), |i: int| fields[i]@)
}

/// The value of a result that holds a field list.
pub open spec fn fields_outcome(result: Result<Vec<Field>, Diagnostic>) -> Result<
    Seq<FieldView>,
    DiagnosticView,
> {
    match result {
        Ok(fields) => Ok(field_views(fields@)),
        Err(error) => Err(error@),
    }
}

/// One child of an element.
#[derive(Clone, Debug, PartialEq, Eq)]
pub struct Child {
    pub expr: String,
}

/// The mathematical value of a [`Child`].
pub struct ChildView {
    pub expr: Seq<char>,
}

impl View for Child {
    type V = ChildView;

    open spec fn view(&self) -> ChildView {
        ChildView { expr: self.expr@ }
    }
}

/// The values of a sequence of children.
pub open spec fn child_views(children: Seq<Child>) -> Seq<ChildView> {
    Seq::new(children.len(), |i: int| children[i]@)
}

/// The children of an element, in the order in which they were written.
#[derive(Clone, Debug, PartialEq, Eq)]
pub struct Children(pub Vec<Child>);

impl View for Children {
    type V = Seq<ChildView>;

    open spec fn view(&self) -> Seq<ChildView> {
        child_views(self.0@)
    }
}

impl Default for Children {
    fn default() -> (children: Children)
        ensures
            children@ == Seq::<ChildView>::empty(),
    {
        let children = Children(Vec::new());
        children
    }
}

/// One element: its tag, its fields and its children. A paren token holds
/// the index of the group that the list was read from, counted in the token
/// sequence that the element stands in, and is `None` where no group was
/// written for the list.
#[derive(Clone, Debug, PartialEq, Eq)]
pub struct Node {
    pub tag: String,
    pub fields_paren_token: Option<usize>,
    pub fields: Vec<Field>,
    pub children_paren_token: Option<usize>,
    pub children: Children,
}

/// The mathematical value of a [`Node`].
pub struct NodeView {
    pub tag: Seq<char>,
    pub fields_paren_token: Option<int>,
    pub fields: Seq<FieldView>,
    pub children_paren_token: Option<int>,
    pub children: Seq<ChildView>,
}

/// The value of a paren token.
pub open spec fn paren_view(token: Option<usize>) -> Option<int> {
    match token {
        Some(index) => Some(index as int),
        None => None,
    }
}

impl View for Node {
    type V = NodeView;

    open spec fn view(&self) -> NodeView {
        NodeView {
            tag: self.tag@,
            fields_paren_token: paren_view(self.fields_paren_token),
            fields: field_views(self.fields@),
            children_paren_token: paren_view(self.children_paren_token),
            children: self.children@,
        }
    }
}

impl NodeView {
    /// Whether the lists agree with the paren tokens: a list for which no
    /// group was written is empty, and the group of the fields stands
    /// before the group of the children.
    pub open spec fn well_formed(self) -> bool {
        &&& self.fields_paren_token is None ==> self.fields.len() == 0
        &&& self.children_paren_token is None ==> self.children.len() == 0
        &&& self.fields_paren_token is Some && self.children_paren_token is Some
            ==> self.fields_paren_token->Some_0 < self.children_paren_token->Some_0
    }

    /// The element that is written as the tag alone.
    pub open spec fn bare(tag: Seq<char>) -> NodeView {
        NodeView {
            tag,
            fields_paren_token: None,
            fields: seq![],
            children_paren_token: None,
            children: seq![],
        }
    }
}

impl Attr {
    /// Reads `name = value`.
    pub fn parse(input: &mut Cursor) -> (result: Result<Attr, Diagnostic>)
        ensures
            reads(
                *old(input),
                *final(input),
                outcome(result),
                attr_at(old(input).tokens(), old(input).position()),
            ),
    {
        let mut fork = input.fork();
        let name = fork.ident()?;
        fork.punct('=')?;
        let value = fork.expr()?;
        input.advance_to(&fork);
        Ok(Attr { name, value })
    }
}

impl ClassValue {
    /// The class value that a tuple of `items`, read at `at`, stands for.
    pub fn from_tuple(items: Vec<String>, at: usize) -> (result: Result<ClassValue, Diagnostic>)
        ensures
            outcome(result) == class_value_of(texts(items@), at as int),
    {
        if items.len() == 2 {
            Ok(ClassValue::Dynamic(items[0].clone(), items[1].clone()))
        } else {
            Err(Diagnostic { kind: ErrorKind::TupleArity(items.len()), at })
        }
    }

    /// Reads a class value: a pair of condition and class where a tuple is
    /// written, else one expression.
    pub fn parse(input: &mut Cursor) -> (result: Result<ClassValue, Diagnostic>)
        ensures
            reads(
                *old(input),
                *final(input),
                outcome(result),
                class_value_at(old(input).tokens(), old(input).position()),
            ),
    {
        let mut fork = input.fork();
        match fork.tuple() {
            Ok(items) => {
                let value = ClassValue::from_tuple(items, input.index())?;
                input.advance_to(&fork);
                Ok(value)
            },
            Err(_) => {
                let class = input.expr()?;
                Ok(ClassValue::Static(class))
            },
        }
    }
}

impl Class {
    /// Reads `class = value`.
    pub fn parse(input: &mut Cursor) -> (result: Result<Class, Diagnostic>)
        ensures
            reads(
                *old(input),
                *final(input),
                outcome(result),
                class_at(old(input).tokens(), old(input).position()),
            ),
    {
        let mut fork = input.fork();
        fork.keyword(Keyword::Class)?;
        fork.punct('=')?;
        let value = ClassValue::parse(&mut fork)?;
        input.advance_to(&fork);
        Ok(Class { value })
    }
}

impl Style {
    /// Reads `style = value`.
    pub fn parse(input: &mut Cursor) -> (result: Result<Style, Diagnostic>)
        ensures
            reads(
                *old(input),
                *final(input),
                outcome(result),
                style_at(old(input).tokens(), old(input).position()),
            ),
    {
        let mut fork = input.fork();
        fork.keyword(Keyword::Style)?;
        fork.punct('=')?;
        let value = fork.expr()?;
        input.advance_to(&fork);
        Ok(Style { value })
    }
}

impl Field {
    /// Reads one field, of the shape that its leading keyword selects.
    pub fn parse(input: &mut Cursor) -> (result: Result<Field, Diagnostic>)
        ensures
            reads(
                *old(input),
                *final(input),
                outcome(result),
                field_at(old(input).tokens(), old(input).position()),
            ),
    {
        if input.peek_keyword(Keyword::Class) {
            Ok(Field::Class(Class::parse(input)?))
        } else if input.peek_keyword(Keyword::Style) {
            Ok(Field::Style(Style::parse(input)?))
        } else {
            Ok(Field::Attr(Attr::parse(input)?))
        }
    }
}

impl Child {
    /// Reads one child: an expression.
    pub fn parse(input: &mut Cursor) -> (result: Result<Child, Diagnostic>)
        ensures
            reads(
                *old(input),
                *final(input),
                outcome(result),
                child_at(old(input).tokens(), old(input).position()),
            ),
    {
        Ok(Child { expr: input.expr()? })
    }
}

impl Field {
    /// Reads the fields that are left in `input`, separated by commas; a
    /// comma may follow the last.
    pub fn parse_terminated(input: &mut Cursor) -> (result: Result<Vec<Field>, Diagnostic>)
        ensures
            reads(
                *old(input),
                *final(input),
                fields_outcome(result),
                fields_at(old(input).tokens(), old(input).position()),
            ),
    {
        let mut fork = input.fork();
        let mut fields: Vec<Field> = Vec::new();
        let ghost tokens = input.tokens();
        let ghost start = input.position();
        let mut done = fork.is_empty();
        while !done
            invariant
                fork.tokens() == tokens,
                input.tokens() == tokens,
                input.position() == start,
                start <= fork.position() <= tokens.len(),
                done ==> fields_at(tokens, start) == Ok::<_, DiagnosticView>(
                    (field_views(fields@), fork.position()),
                ),
                !done ==> fork.position() < tokens.len() && fields_at(tokens, start) == prepend(
                    field_views(fields@),
                    fields_at(tokens, fork.position()),
                ),
            decreases tokens.len() - fork.position() + if done { 0int } else { 1 },
        {
            let ghost before = field_views(fields@);
            let field = Field::parse(&mut fork)?;
            fields.push(field);
            assert(field_views(fields@) =~= before + seq![field@]);
            if fork.is_empty() {
                done = true;
            } else {
                let ghost comma = fork.position();
                fork.punct(',')?;
                done = fork.is_empty();
                proof {
                    match fields_at(tokens, comma + 1) {
                        Ok((rest, _)) => {
                            assert((before + seq![field@]) + rest =~= before + (seq![field@]
                                + rest));
                        },
                        Err(_) => {},
                    }
                }
            }
        }
        input.advance_to(&fork);
        Ok(fields)
    }

    /// Reads the text between a group's parentheses as a field list.
    pub fn parse_group(content: &str) -> (result: Result<Vec<Field>, Diagnostic>)
        ensures
            fields_outcome(result) == group_fields(content@),
    {
        let tokens = tokenize(content)?;
        let mut input = Cursor::new(&tokens);
        Field::parse_terminated(&mut input)
    }
}

impl Children {
    /// Reads the children that are left in `input`: none where nothing is
    /// left, else expressions separated by commas, with none behind the
    /// last.
    pub fn parse(input: &mut Cursor) -> (result: Result<Children, Diagnostic>)
        ensures
            reads(
                *old(input),
                *final(input),
                outcome(result),
                children_at(old(input).tokens(), old(input).position()),
            ),
    {
        let mut children: Vec<Child> = Vec::new();
        assert(child_views(children@) =~= Seq::<ChildView>::empty());
        if input.is_empty() {
            return Ok(Children(children));
        }
        let mut fork = input.fork();
        let ghost tokens = input.tokens();
        let ghost start = input.position();
        let mut done = false;
        while !done
            invariant
                fork.tokens() == tokens,
                input.tokens() == tokens,
                input.position() == start,
                start <= fork.position() <= tokens.len(),
                start < tokens.len(),
                done ==> children_from(tokens, start) == Ok::<_, DiagnosticView>(
                    (child_views(children@), fork.position()),
                ),
                !done ==> children_from(tokens, start) == prepend(
                    child_views(children@),
                    children_from(tokens, fork.position()),
                ),
            decreases tokens.len() - fork.position() + if done { 0int } else { 1 },
        {
            let ghost before = child_views(children@);
            let child = Child::parse(&mut fork)?;
            children.push(child);
            assert(child_views(children@) =~= before + seq![child@]);
            if fork.is_empty() {
                done = true;
            } else {
                let ghost comma = fork.position();
                fork.punct(',')?;
                proof {
                    match children_from(tokens, comma + 1) {
                        Ok((rest, _)) => {
                            assert((before + seq![child@]) + rest =~= before + (seq![child@]
                                + rest));
                        },
                        Err(_) => {},
                    }
                }
            }
        }
        input.advance_to(&fork);
        Ok(Children(children))
    }

    /// Reads the text between a group's parentheses as a child list.
    pub fn parse_group(content: &str) -> (result: Result<Children, Diagnostic>)
        ensures
            outcome(result) == group_children(content@),
    {
        let tokens = tokenize(content)?;
        let mut input = Cursor::new(&tokens);
        Children::parse(&mut input)
    }
}

impl Node {
    /// The element that is written as the tag alone.
    pub fn bare(tag: String) -> (node: Node)
        ensures
            node@ == NodeView::bare(tag@),
            node@.well_formed(),
    {
        let node = Node {
            tag,
            fields_paren_token: None,
            fields: Vec::new(),
            children_paren_token: None,
            children: Children::default(),
        };
        assert(node@.fields =~= Seq::<FieldView>::empty());
        node
    }

    /// Resolves the group behind the tag, at index `group` and with the
    /// text `content` between its parentheses: it gives the element its
    /// fields if it can be read as a field list, else its children, and
    /// else fails with the causes of both failures.
    pub fn with_first_group(self, group: usize, content: &str) -> (result: Result<
        Node,
        ParseError,
    >)
        ensures
            outcome(result) == with_first_group(self@, group as int, content@),
    {
        let mut node = self;
        match Field::parse_group(content) {
            Ok(fields) => {
                node.fields_paren_token = Some(group);
                node.fields = fields;
                Ok(node)
            },
            Err(fields_error) => match Children::parse_group(content) {
                Ok(children) => {
                    node.children_paren_token = Some(group);
                    node.children = children;
                    Ok(node)
                },
                Err(children_error) => Err(
                    ParseError::Ambiguous {
                        group,
                        fields: fields_error,
                        children: children_error,
                    },
                ),
            },
        }
    }

    /// Reads the group behind a field list, at index `group` and with the
    /// text `content` between its parentheses, as the element's children.
    pub fn with_second_group(self, group: usize, content: &str) -> (result: Result<
        Node,
        ParseError,
    >)
        ensures
            outcome(result) == with_second_group(self@, group as int, content@),
    {
        let mut node = self;
        match Children::parse_group(content) {
            Ok(children) => {
                node.children_paren_token = Some(group);
                node.children = children;
                Ok(node)
            },
            Err(error) => Err(ParseError::Single { within: Some(group), cause: error }),
        }
    }

    /// Reads one element: its tag and up to two parenthesized groups.
    pub fn parse(input: &mut Cursor) -> (result: Result<Node, ParseError>)
        ensures
            reads(
                *old(input),
                *final(input),
                outcome(result),
                node_at(old(input).tokens(), old(input).position()),
            ),
            result matches Ok(node) ==> node@.well_formed(),
    {
        let mut fork = input.fork();
        let tag = match fork.ident() {
            Ok(tag) => tag,
            Err(error) => {
                return Err(ParseError::Single { within: None, cause: error });
            },
        };
        let mut node = Node::bare(tag);
        let first = fork.index();
        if let Some(content) = fork.parenthesized() {
            node = node.with_first_group(first, content.as_str())?;
            if node.children_paren_token.is_none() {
                let second = fork.index();
                if let Some(content) = fork.parenthesized() {
                    node = node.with_second_group(second, content.as_str())?;
                }
            }
        }
        input.advance_to(&fork);
        Ok(node)
    }
}

impl AttrView {
    /// The call that sets the attribute.
    pub open spec fn call(self) -> CallView {
        CallView::Attr { name: self.name, value: self.value }
    }
}

impl ClassView {
    /// The call that sets the class: one call form for a static class,
    /// another for a condition and its class.
    pub open spec fn call(self) -> CallView {
        match self.value {
            ClassValueView::Static(value) => CallView::Classes { value },
            ClassValueView::Dynamic(condition, value) => CallView::Class { condition, value },
        }
    }
}

impl StyleView {
    /// The call that sets the style.
    pub open spec fn call(self) -> CallView {
        CallView::Style { value: self.value }
    }
}

impl FieldView {
    /// The call that configures the element with this field.
    pub open spec fn call(self) -> CallView {
        match self {
            FieldView::Attr(attr) => attr.call(),
            FieldView::Class(class) => class.call(),
            FieldView::Style(style) => style.call(),
        }
    }
}

impl ChildView {
    /// The call that appends the child.
    pub open spec fn call(self) -> CallView {
        CallView::Child { value: self.expr }
    }
}

/// The calls that append `children`, in their order.
pub open spec fn child_calls(children: Seq<ChildView>) -> Seq<CallView> {
    Seq::new(children.len(), |i: int| children[i].call())
}

/// The calls that configure an element with `fields`, in their order.
pub open spec fn field_calls(fields: Seq<FieldView>) -> Seq<CallView> {
    Seq::new(fields.len(), |i: int| fields[i].call())
}

impl NodeView {
    /// The builder chain of the element: the call that constructs it, a
    /// call for each field and a call for each child.
    pub open spec fn calls(self) -> Seq<CallView> {
        seq![CallView::Construct { tag: self.tag }] + field_calls(self.fields) + child_calls(
            self.children,
        )
    }
}

impl Attr {
    /// Appends the call that sets the attribute.
    pub fn to_tokens(&self, chain: &mut Vec<Call>)
        ensures
            call_views(final(chain)@) == call_views(old(chain)@).push(self@.call()),
    {
        chain.push(Call::Attr { name: self.name.clone(), value: self.value.clone() });
    }
}

impl Class {
    /// Appends the call that sets the class.
    pub fn to_tokens(&self, chain: &mut Vec<Call>)
        ensures
            call_views(final(chain)@) == call_views(old(chain)@).push(self@.call()),
    {
        let expanded = match &self.value {
            ClassValue::Static(value) => Call::Classes { value: value.clone() },
            ClassValue::Dynamic(condition, value) => Call::Class {
                condition: condition.clone(),
                value: value.clone(),
            },
        };
        chain.push(expanded);
    }
}

impl Style {
    /// Appends the call that sets the style.
    pub fn to_tokens(&self, chain: &mut Vec<Call>)
        ensures
            call_views(final(chain)@) == call_views(old(chain)@).push(self@.call()),
    {
        chain.push(Call::Style { value: self.value.clone() });
    }
}

impl Field {
    /// Appends the call that configures the element with this field.
    pub fn to_tokens(&self, chain: &mut Vec<Call>)
        ensures
            call_views(final(chain)@) == call_views(old(chain)@).push(self@.call()),
    {
        match self {
            Field::Attr(attr) => attr.to_tokens(chain),
            Field::Class(class) => class.to_tokens(chain),
            Field::Style(style) => style.to_tokens(chain),
        }
    }
}

impl Child {
    /// Appends the call that appends the child.
    pub fn to_tokens(&self, chain: &mut Vec<Call>)
        ensures
            call_views(final(chain)@) == call_views(old(chain)@).push(self@.call()),
    {
        chain.push(Call::Child { value: self.expr.clone() });
    }
}

impl Children {
    /// Appends one call for each child, in the children's order.
    pub fn to_tokens(&self, chain: &mut Vec<Call>)
        ensures
            call_views(final(chain)@) == call_views(old(chain)@) + child_calls(self@),
    {
        let ghost before = call_views(chain@);
        for i in 0..self.0.len()
            invariant
                call_views(chain@) == before + child_calls(self@.subrange(0, i as int)),
        {
            self.0[i].to_tokens(chain);
        }
    }
}

impl Node {
    /// Appends the element's builder chain: the call that constructs it,
    /// then one call for each field, then one call for each child, each
    /// list in the order in which it was written.
    pub fn to_tokens(&self, chain: &mut Vec<Call>)
        ensures
            call_views(final(chain)@) == call_views(old(chain)@) + self@.calls(),
    {
        let ghost before = call_views(chain@);
        let ghost construct = seq![CallView::Construct { tag: self.tag@ }];
        chain.push(Call::Construct { tag: self.tag.clone() });
        for i in 0..self.fields.len()
            invariant
                call_views(chain@) == before + construct + field_calls(
                    self@.fields.subrange(0, i as int),
                ),
        {
            self.fields[i].to_tokens(chain);
        }
        self.children.to_tokens(chain);
    }

    /// The element's builder chain.
    pub fn calls(&self) -> (calls: Vec<Call>)
        ensures
            call_views(calls@) == self@.calls(),
    {
        let mut calls: Vec<Call> = Vec::new();
        self.to_tokens(&mut calls);
        calls
    }
}

} // verus!
