use view_literal::call::Call;
use view_literal::cursor::Cursor;
use view_literal::error::{Diagnostic, ErrorKind, ParseError};
use view_literal::node::{Attr, Child, Children, Class, ClassValue, Field, Node, Style};
use view_literal::token::tokenize;
use view_literal::view;

fn parse(literal: &str) -> (Result<Node, ParseError>, usize) {
    let tokens = tokenize(literal).unwrap();
    let mut input = Cursor::new(&tokens);
    let result = Node::parse(&mut input);
    (result, input.index())
}

fn child(expr: &str) -> Child {
    Child { expr: expr.to_string() }
}

fn attr(name: &str, value: &str) -> Field {
    Field::Attr(Attr { name: name.to_string(), value: value.to_string() })
}

#[test]
fn bare_tag_becomes_the_constructor_call() {
    assert_eq!(view("div"), Ok("leptos::html::div()".to_string()));
}

#[test]
fn static_class_becomes_classes_call() {
    assert_eq!(
        view("div(class=\"card\")"),
        Ok("leptos::html::div().classes(\"card\")".to_string())
    );
}

#[test]
fn class_pair_becomes_class_call() {
    assert_eq!(
        view("div(class=(is_on, \"active\"))"),
        Ok("leptos::html::div().class(is_on, \"active\")".to_string())
    );
}

#[test]
fn style_becomes_style_call() {
    assert_eq!(
        view("div(style=my_style)"),
        Ok("leptos::html::div().style(my_style)".to_string())
    );
}

#[test]
fn id_is_an_ordinary_attribute() {
    assert_eq!(
        view("div(id=\"x\")"),
        Ok("leptos::html::div().attr(\"id\", \"x\")".to_string())
    );
}

#[test]
fn ref_is_an_ordinary_attribute() {
    assert_eq!(
        view("input(_ref=node)"),
        Ok("leptos::html::input().attr(\"_ref\", node)".to_string())
    );
}

#[test]
fn empty_fields_then_children() {
    assert_eq!(
        view("div()(span_node, \"text\")"),
        Ok("leptos::html::div().child(span_node).child(\"text\")".to_string())
    );
}

#[test]
fn single_group_without_attribute_shape_is_children() {
    assert_eq!(
        view("div(span_node)"),
        Ok("leptos::html::div().child(span_node)".to_string())
    );
}

#[test]
fn tag_alone_has_no_fields_and_no_children() {
    let (result, end) = parse("section");
    let node = result.unwrap();
    assert_eq!(
        node,
        Node {
            tag: "section".to_string(),
            fields_paren_token: None,
            fields: vec![],
            children_paren_token: None,
            children: Children(vec![]),
        }
    );
    assert_eq!(end, 1);
    assert_eq!(node.calls(), vec![Call::Construct { tag: "section".to_string() }]);
}

#[test]
fn calls_follow_the_order_of_fields_and_children() {
    let literal =
        "div(id=\"x\", class=(on, \"a\"), style = s, class = \"b\")(first, second, third)";
    let (result, end) = parse(literal);
    let node = result.unwrap();
    assert_eq!(end, 3);
    assert_eq!(
        node.fields,
        vec![
            attr("id", "\"x\""),
            Field::Class(Class {
                value: ClassValue::Dynamic("on".to_string(), "\"a\"".to_string())
            }),
            Field::Style(Style { value: "s".to_string() }),
            Field::Class(Class { value: ClassValue::Static("\"b\"".to_string()) }),
        ]
    );
    assert_eq!(
        node.children,
        Children(vec![child("first"), child("second"), child("third")])
    );
    assert_eq!(
        node.calls(),
        vec![
            Call::Construct { tag: "div".to_string() },
            Call::Attr { name: "id".to_string(), value: "\"x\"".to_string() },
            Call::Class { condition: "on".to_string(), value: "\"a\"".to_string() },
            Call::Style { value: "s".to_string() },
            Call::Classes { value: "\"b\"".to_string() },
            Call::Child { value: "first".to_string() },
            Call::Child { value: "second".to_string() },
            Call::Child { value: "third".to_string() },
        ]
    );
    assert_eq!(
        view(literal),
        Ok(
            "leptos::html::div().attr(\"id\", \"x\").class(on, \"a\").style(s).classes(\"b\")\
             .child(first).child(second).child(third)"
                .to_string()
        )
    );
}

#[test]
fn repeated_fields_are_all_kept() {
    assert_eq!(
        view("p(id = a, id = b, id = a)"),
        Ok("leptos::html::p().attr(\"id\", a).attr(\"id\", b).attr(\"id\", a)".to_string())
    );
}

#[test]
fn empty_group_is_an_empty_field_list() {
    let (result, end) = parse("div()");
    let node = result.unwrap();
    assert_eq!(node.fields_paren_token, Some(1));
    assert_eq!(node.fields, vec![]);
    assert_eq!(node.children_paren_token, None);
    assert_eq!(node.children, Children(vec![]));
    assert_eq!(end, 2);
    assert_eq!(view("div()"), Ok("leptos::html::div()".to_string()));
}

#[test]
fn two_empty_groups_are_empty_fields_and_empty_children() {
    let (result, end) = parse("div()()");
    let node = result.unwrap();
    assert_eq!(node.fields_paren_token, Some(1));
    assert_eq!(node.fields, vec![]);
    assert_eq!(node.children_paren_token, Some(2));
    assert_eq!(node.children, Children(vec![]));
    assert_eq!(end, 3);
    assert_eq!(view("div()()"), Ok("leptos::html::div()".to_string()));
}

#[test]
fn group_with_only_spaces_is_empty() {
    assert_eq!(view("div(  )( )"), Ok("leptos::html::div()".to_string()));
}

#[test]
fn group_read_as_fields_is_not_read_as_children() {
    let (result, end) = parse("div(a = b)");
    let node = result.unwrap();
    assert_eq!(node.fields_paren_token, Some(1));
    assert_eq!(node.fields, vec![attr("a", "b")]);
    assert_eq!(node.children_paren_token, None);
    assert_eq!(node.children, Children(vec![]));
    assert_eq!(end, 2);
}

#[test]
fn group_that_is_no_field_list_is_the_child_list() {
    let (result, end) = parse("div(span_node)");
    let node = result.unwrap();
    assert_eq!(node.fields_paren_token, None);
    assert_eq!(node.fields, vec![]);
    assert_eq!(node.children_paren_token, Some(1));
    assert_eq!(node.children, Children(vec![child("span_node")]));
    assert_eq!(end, 2);
}

#[test]
fn children_come_from_the_group_that_failed_as_fields() {
    let (result, end) = parse("div(first, second) trailing");
    let node = result.unwrap();
    assert_eq!(node.children, Children(vec![child("first"), child("second")]));
    assert_eq!(node.children_paren_token, Some(1));
    assert_eq!(end, 2);
}

#[test]
fn group_behind_a_child_list_is_left_unread() {
    let (result, end) = parse("div(span_node)(other)");
    let node = result.unwrap();
    assert_eq!(node.children, Children(vec![child("span_node")]));
    assert_eq!(node.children_paren_token, Some(1));
    assert_eq!(end, 2);
    assert_eq!(
        view("div(span_node)(other)"),
        Err(ParseError::Single {
            within: None,
            cause: Diagnostic { kind: ErrorKind::UnexpectedToken, at: 2 },
        })
    );
}

#[test]
fn tokens_behind_the_element_are_rejected() {
    assert_eq!(
        view("div(span_node) trailing"),
        Err(ParseError::Single {
            within: None,
            cause: Diagnostic { kind: ErrorKind::UnexpectedToken, at: 2 },
        })
    );
    assert_eq!(
        view("div(a = 1)(b)(c)"),
        Err(ParseError::Single {
            within: None,
            cause: Diagnostic { kind: ErrorKind::UnexpectedToken, at: 3 },
        })
    );
    assert_eq!(
        view("div span"),
        Err(ParseError::Single {
            within: None,
            cause: Diagnostic { kind: ErrorKind::UnexpectedToken, at: 1 },
        })
    );
}

#[test]
fn malformed_field_list_that_is_an_expression_list_becomes_children() {
    assert_eq!(
        view("div(class=(a, b, c))"),
        Ok("leptos::html::div().child(class = (a , b , c))".to_string())
    );
    assert_eq!(view("div(class)"), Ok("leptos::html::div().child(class)".to_string()));
}

#[test]
fn group_that_fails_both_ways_reports_both_causes() {
    assert_eq!(
        view("div(class=(a, b, c), x y)"),
        Err(ParseError::Ambiguous {
            group: 1,
            fields: Diagnostic { kind: ErrorKind::TupleArity(3), at: 2 },
            children: Diagnostic { kind: ErrorKind::ExpectedPunct(','), at: 5 },
        })
    );
    assert_eq!(
        view("div(a b)"),
        Err(ParseError::Ambiguous {
            group: 1,
            fields: Diagnostic { kind: ErrorKind::ExpectedPunct('='), at: 1 },
            children: Diagnostic { kind: ErrorKind::ExpectedPunct(','), at: 1 },
        })
    );
}

#[test]
fn children_group_behind_fields_has_no_other_reading() {
    assert_eq!(
        view("div(a = 1)(b c)"),
        Err(ParseError::Single {
            within: Some(2),
            cause: Diagnostic { kind: ErrorKind::ExpectedPunct(','), at: 1 },
        })
    );
    assert_eq!(
        view("div()(x = 1)"),
        Ok("leptos::html::div().child(x = 1)".to_string())
    );
}

#[test]
fn comma_inside_an_expression_does_not_end_it() {
    assert_eq!(
        view("div(x = foo::<A, B>(1), y = a == b)(|p, q| p + q, [1, 2])"),
        Ok(
            "leptos::html::div().attr(\"x\", foo :: < A , B > (1)).attr(\"y\", a == b)\
             .child(| p , q | p + q).child([1 , 2])"
                .to_string()
        )
    );
}

#[test]
fn comma_behind_the_last_field_is_accepted() {
    assert_eq!(
        view("div(id = a, style = b,)"),
        Ok("leptos::html::div().attr(\"id\", a).style(b)".to_string())
    );
}

#[test]
fn comma_behind_the_last_child_is_rejected() {
    let error = view("div()(c, d,)").unwrap_err();
    match error {
        ParseError::Single { within, cause } => {
            assert_eq!(within, Some(2));
            assert_eq!(cause.at, 4);
            assert!(matches!(cause.kind, ErrorKind::Expression(_)));
        }
        other => panic!("{:?}", other),
    }
}

#[test]
fn keywords_are_ordinary_names_outside_the_leading_position() {
    assert_eq!(
        view("class(style)"),
        Ok("leptos::html::class().child(style)".to_string())
    );
    assert_eq!(
        view("style(id = class)(class, style)"),
        Ok("leptos::html::style().attr(\"id\", class).child(class).child(style)".to_string())
    );
}

#[test]
fn nested_literal_is_an_opaque_child() {
    assert_eq!(
        view("div()(view!(span(\"x\")), other(1)(2))"),
        Ok("leptos::html::div().child(view ! (span (\"x\"))).child(other (1) (2))".to_string())
    );
}

#[test]
fn attribute_name_is_passed_as_a_string_literal() {
    assert_eq!(
        view("div(r#type = 1)"),
        Ok("leptos::html::div().attr(\"r#type\", 1)".to_string())
    );
}

#[test]
fn reserved_word_is_no_tag() {
    assert_eq!(
        view("fn"),
        Err(ParseError::Single {
            within: None,
            cause: Diagnostic {
                kind: ErrorKind::Identifier(
                    "expected identifier, found keyword `fn`".to_string()
                ),
                at: 0,
            },
        })
    );
}

#[test]
fn literal_without_a_tag_is_rejected() {
    assert_eq!(
        view(""),
        Err(ParseError::Single {
            within: None,
            cause: Diagnostic { kind: ErrorKind::ExpectedIdent, at: 0 },
        })
    );
    assert_eq!(
        view("(a = 1)"),
        Err(ParseError::Single {
            within: None,
            cause: Diagnostic { kind: ErrorKind::ExpectedIdent, at: 0 },
        })
    );
}

#[test]
fn text_that_is_no_token_sequence_is_rejected() {
    assert_eq!(
        view("div(\"x"),
        Err(ParseError::Single {
            within: None,
            cause: Diagnostic { kind: ErrorKind::Lex, at: 0 },
        })
    );
}

#[test]
fn failed_parse_leaves_the_cursor_in_place() {
    let (result, end) = parse("div(a b)");
    assert!(result.is_err());
    assert_eq!(end, 0);
}
