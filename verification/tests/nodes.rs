use view_literal::call::{write_chain, Call};
use view_literal::cursor::Cursor;
use view_literal::error::{Diagnostic, ErrorKind, ParseError};
use view_literal::node::{Attr, Child, Children, Class, ClassValue, Field, Node, Style};
use view_literal::token::{tokenize, Token};

fn text(call: &Call) -> String {
    let mut text = String::new();
    call.write(&mut text);
    text
}

fn s(text: &str) -> String {
    text.to_string()
}

#[test]
fn attr_parser() {
    let tokens = tokenize("title = \"a\" + b, next").unwrap();
    let mut input = Cursor::new(&tokens);
    assert_eq!(Attr::parse(&mut input), Ok(Attr { name: s("title"), value: s("\"a\" + b") }));
    assert_eq!(input.index(), 5);
}

#[test]
fn attr_parser_takes_the_keywords_as_names() {
    let tokens = tokenize("class = (a, b, c)").unwrap();
    let mut input = Cursor::new(&tokens);
    assert_eq!(
        Attr::parse(&mut input),
        Ok(Attr { name: s("class"), value: s("(a , b , c)") })
    );
}

#[test]
fn attr_parser_fails_in_place() {
    let tokens = tokenize("x, title = ").unwrap();
    let mut input = Cursor::new(&tokens);
    assert_eq!(input.leave(2), Ok(()));
    assert!(matches!(
        Attr::parse(&mut input),
        Err(Diagnostic { kind: ErrorKind::Expression(_), at: 4 })
    ));
    assert_eq!(input.index(), 2);
}

#[test]
fn class_value_parser_reads_a_pair_as_condition_and_class() {
    let tokens = tokenize("(is_on, \"active\"), x").unwrap();
    let mut input = Cursor::new(&tokens);
    assert_eq!(
        ClassValue::parse(&mut input),
        Ok(ClassValue::Dynamic(s("is_on"), s("\"active\"")))
    );
    assert_eq!(input.index(), 1);
}

#[test]
fn class_value_parser_reads_any_other_expression_as_static() {
    for (source, class, end) in [
        ("\"card\"", "\"card\"", 1),
        ("(a)", "(a)", 1),
        ("(a, b).0", "(a , b) . 0", 3),
        ("(a, b) + 1, c", "(a , b) + 1", 3),
        ("names.join(\" \")", "names . join (\" \")", 4),
    ] {
        let tokens = tokenize(source).unwrap();
        let mut input = Cursor::new(&tokens);
        assert_eq!(ClassValue::parse(&mut input), Ok(ClassValue::Static(s(class))));
        assert_eq!(input.index(), end);
    }
}

#[test]
fn class_value_parser_rejects_other_tuples_in_place() {
    let tokens = tokenize("class = (a, b, c)").unwrap();
    let mut input = Cursor::new(&tokens);
    assert_eq!(input.leave(1), Ok(()));
    assert_eq!(
        ClassValue::parse(&mut input),
        Err(Diagnostic { kind: ErrorKind::TupleArity(3), at: 2 })
    );
    assert_eq!(input.index(), 2);
}

#[test]
fn class_value_parser_passes_the_expression_parsers_failure_on() {
    let tokens = tokenize(", a").unwrap();
    let mut input = Cursor::new(&tokens);
    assert_eq!(
        ClassValue::parse(&mut input),
        Err(Diagnostic { kind: ErrorKind::Expression(s("expected an expression")), at: 0 })
    );
}

#[test]
fn class_parser() {
    let tokens = tokenize("class = \"card\", id = 1").unwrap();
    let mut input = Cursor::new(&tokens);
    assert_eq!(
        Class::parse(&mut input),
        Ok(Class { value: ClassValue::Static(s("\"card\"")) })
    );
    assert_eq!(input.index(), 3);
}

#[test]
fn style_parser() {
    let tokens = tokenize("style = (a, b)").unwrap();
    let mut input = Cursor::new(&tokens);
    assert_eq!(Style::parse(&mut input), Ok(Style { value: s("(a , b)") }));
    assert_eq!(input.index(), 3);
}

#[test]
fn field_parser_goes_by_the_leading_keyword() {
    let tokens = tokenize("class = a").unwrap();
    let mut input = Cursor::new(&tokens);
    assert_eq!(
        Field::parse(&mut input),
        Ok(Field::Class(Class { value: ClassValue::Static(s("a")) }))
    );
    let tokens = tokenize("style = a").unwrap();
    let mut input = Cursor::new(&tokens);
    assert_eq!(Field::parse(&mut input), Ok(Field::Style(Style { value: s("a") })));
    let tokens = tokenize("classes = a").unwrap();
    let mut input = Cursor::new(&tokens);
    assert_eq!(
        Field::parse(&mut input),
        Ok(Field::Attr(Attr { name: s("classes"), value: s("a") }))
    );
    let tokens = tokenize("id = class").unwrap();
    let mut input = Cursor::new(&tokens);
    assert_eq!(
        Field::parse(&mut input),
        Ok(Field::Attr(Attr { name: s("id"), value: s("class") }))
    );
}

#[test]
fn field_parser_does_not_take_a_keyword_literal_for_the_keyword() {
    let tokens = vec![
        Token::Literal(s("class")),
        Token::Punct('=', false),
        Token::Ident(s("a")),
    ];
    let mut input = Cursor::new(&tokens);
    assert_eq!(
        Field::parse(&mut input),
        Err(Diagnostic { kind: ErrorKind::ExpectedIdent, at: 0 })
    );
}

#[test]
fn field_list_parser() {
    let tokens = tokenize("a = 1, class = (b, c), style = d").unwrap();
    let mut input = Cursor::new(&tokens);
    assert_eq!(
        Field::parse_terminated(&mut input),
        Ok(vec![
            Field::Attr(Attr { name: s("a"), value: s("1") }),
            Field::Class(Class { value: ClassValue::Dynamic(s("b"), s("c")) }),
            Field::Style(Style { value: s("d") }),
        ])
    );
    assert!(input.is_empty());
}

#[test]
fn field_list_parser_reads_from_the_cursor_on() {
    let tokens = tokenize("skipped a = 1,").unwrap();
    let mut input = Cursor::new(&tokens);
    assert_eq!(input.leave(4), Ok(()));
    assert_eq!(
        Field::parse_terminated(&mut input),
        Ok(vec![Field::Attr(Attr { name: s("a"), value: s("1") })])
    );
    assert_eq!(input.index(), 5);
}

#[test]
fn field_list_parser_of_nothing() {
    let tokens = vec![];
    let mut input = Cursor::new(&tokens);
    assert_eq!(Field::parse_terminated(&mut input), Ok(vec![]));
    assert_eq!(Field::parse_group(""), Ok(vec![]));
}

#[test]
fn field_list_parser_fails_in_place() {
    let tokens = tokenize("a = 1, b").unwrap();
    let mut input = Cursor::new(&tokens);
    assert_eq!(
        Field::parse_terminated(&mut input),
        Err(Diagnostic { kind: ErrorKind::ExpectedPunct('='), at: 5 })
    );
    assert_eq!(input.index(), 0);
}

#[test]
fn child_parser() {
    let tokens = tokenize("a.b(c), d").unwrap();
    let mut input = Cursor::new(&tokens);
    assert_eq!(Child::parse(&mut input), Ok(Child { expr: s("a . b (c)") }));
    assert_eq!(input.index(), 4);
}

#[test]
fn children_parser() {
    let tokens = tokenize("a, \"b\", c(d)").unwrap();
    let mut input = Cursor::new(&tokens);
    assert_eq!(
        Children::parse(&mut input),
        Ok(Children(vec![
            Child { expr: s("a") },
            Child { expr: s("\"b\"") },
            Child { expr: s("c (d)") },
        ]))
    );
    assert!(input.is_empty());
}

#[test]
fn children_parser_of_nothing() {
    let tokens = vec![];
    let mut input = Cursor::new(&tokens);
    assert_eq!(Children::parse(&mut input), Ok(Children(vec![])));
    assert_eq!(Children::parse_group(""), Ok(Children(vec![])));
}

#[test]
fn children_parser_wants_an_expression_behind_each_comma() {
    let tokens = tokenize("a,").unwrap();
    let mut input = Cursor::new(&tokens);
    assert_eq!(
        Children::parse(&mut input),
        Err(Diagnostic {
            kind: ErrorKind::Expression(s("unexpected end of input, expected an expression")),
            at: 2,
        })
    );
    assert_eq!(input.index(), 0);
}

#[test]
fn children_default_is_empty() {
    assert_eq!(Children::default(), Children(vec![]));
}

#[test]
fn bare_node() {
    assert_eq!(
        Node::bare(s("ul")),
        Node {
            tag: s("ul"),
            fields_paren_token: None,
            fields: vec![],
            children_paren_token: None,
            children: Children(vec![]),
        }
    );
}

#[test]
fn first_group_is_fields_where_it_can_be() {
    let node = Node::bare(s("a")).with_first_group(1, "href = url").unwrap();
    assert_eq!(node.fields_paren_token, Some(1));
    assert_eq!(node.fields, vec![Field::Attr(Attr { name: s("href"), value: s("url") })]);
    assert_eq!(node.children_paren_token, None);
    assert_eq!(node.children, Children(vec![]));
}

#[test]
fn first_group_is_children_where_it_is_no_field_list() {
    let node = Node::bare(s("a")).with_first_group(1, "\"text\", more").unwrap();
    assert_eq!(node.fields_paren_token, None);
    assert_eq!(node.fields, vec![]);
    assert_eq!(node.children_paren_token, Some(1));
    assert_eq!(
        node.children,
        Children(vec![Child { expr: s("\"text\"") }, Child { expr: s("more") }])
    );
}

#[test]
fn first_group_fails_with_both_causes() {
    assert_eq!(
        Node::bare(s("a")).with_first_group(7, "x = 1 2"),
        Err(ParseError::Ambiguous {
            group: 7,
            fields: Diagnostic { kind: ErrorKind::ExpectedPunct(','), at: 3 },
            children: Diagnostic { kind: ErrorKind::ExpectedPunct(','), at: 3 },
        })
    );
}

#[test]
fn second_group_is_children() {
    let first = Node::bare(s("a")).with_first_group(1, "href = url").unwrap();
    let node = first.with_second_group(2, "x = 1").unwrap();
    assert_eq!(node.fields, vec![Field::Attr(Attr { name: s("href"), value: s("url") })]);
    assert_eq!(node.children_paren_token, Some(2));
    assert_eq!(node.children, Children(vec![Child { expr: s("x = 1") }]));
}

#[test]
fn second_group_fails_with_the_childrens_cause() {
    assert_eq!(
        Node::bare(s("a")).with_second_group(2, "x y"),
        Err(ParseError::Single {
            within: Some(2),
            cause: Diagnostic { kind: ErrorKind::ExpectedPunct(','), at: 1 },
        })
    );
}

#[test]
fn node_parser_reads_from_the_cursor_on() {
    let tokens = tokenize("skip div(a = 1)(b) rest").unwrap();
    let mut input = Cursor::new(&tokens);
    assert_eq!(input.leave(4), Ok(()));
    let node = Node::parse(&mut input).unwrap();
    assert_eq!(node.tag, "div");
    assert_eq!(node.fields_paren_token, Some(2));
    assert_eq!(node.children_paren_token, Some(3));
    assert_eq!(input.index(), 4);
}

#[test]
fn node_parser_takes_only_parentheses_for_groups() {
    let tokens = tokenize("div[a = 1]").unwrap();
    let mut input = Cursor::new(&tokens);
    assert_eq!(Node::parse(&mut input), Ok(Node::bare(s("div"))));
    assert_eq!(input.index(), 1);
}

#[test]
fn text_of_each_call() {
    assert_eq!(text(&Call::Construct { tag: s("div") }), "leptos::html::div()");
    assert_eq!(text(&Call::Attr { name: s("id"), value: s("x") }), ".attr(\"id\", x)");
    assert_eq!(text(&Call::Classes { value: s("c") }), ".classes(c)");
    assert_eq!(text(&Call::Class { condition: s("on"), value: s("c") }), ".class(on, c)");
    assert_eq!(text(&Call::Style { value: s("st") }), ".style(st)");
    assert_eq!(text(&Call::Child { value: s("ch") }), ".child(ch)");
}

#[test]
fn attribute_name_is_escaped_as_a_string_literal() {
    assert_eq!(
        text(&Call::Attr { name: s("a\"b\\c"), value: s("1") }),
        ".attr(\"a\\\"b\\\\c\", 1)"
    );
}

#[test]
fn call_is_appended() {
    let mut chain = s("x");
    Call::Child { value: s("y") }.write(&mut chain);
    assert_eq!(chain, "x.child(y)");
}

#[test]
fn text_of_a_chain() {
    assert_eq!(write_chain(&vec![]), "");
    assert_eq!(
        write_chain(&vec![
            Call::Construct { tag: s("p") },
            Call::Style { value: s("a") },
            Call::Child { value: s("b") },
            Call::Style { value: s("c") },
        ]),
        "leptos::html::p().style(a).child(b).style(c)"
    );
}

#[test]
fn to_tokens_of_each_part_appends_its_call() {
    let mut calls = vec![Call::Construct { tag: s("div") }];
    Attr { name: s("id"), value: s("x") }.to_tokens(&mut calls);
    Class { value: ClassValue::Static(s("c")) }.to_tokens(&mut calls);
    Class { value: ClassValue::Dynamic(s("on"), s("d")) }.to_tokens(&mut calls);
    Style { value: s("st") }.to_tokens(&mut calls);
    Child { expr: s("ch") }.to_tokens(&mut calls);
    assert_eq!(
        calls,
        vec![
            Call::Construct { tag: s("div") },
            Call::Attr { name: s("id"), value: s("x") },
            Call::Classes { value: s("c") },
            Call::Class { condition: s("on"), value: s("d") },
            Call::Style { value: s("st") },
            Call::Child { value: s("ch") },
        ]
    );
}

#[test]
fn to_tokens_of_a_field_is_that_of_its_shape() {
    let mut calls = vec![];
    Field::Attr(Attr { name: s("id"), value: s("x") }).to_tokens(&mut calls);
    Field::Class(Class { value: ClassValue::Static(s("c")) }).to_tokens(&mut calls);
    Field::Style(Style { value: s("st") }).to_tokens(&mut calls);
    assert_eq!(
        calls,
        vec![
            Call::Attr { name: s("id"), value: s("x") },
            Call::Classes { value: s("c") },
            Call::Style { value: s("st") },
        ]
    );
}

#[test]
fn to_tokens_of_children_keeps_their_order() {
    let mut calls = vec![Call::Style { value: s("kept") }];
    Children(vec![Child { expr: s("b") }, Child { expr: s("a") }, Child { expr: s("b") }])
        .to_tokens(&mut calls);
    assert_eq!(
        calls,
        vec![
            Call::Style { value: s("kept") },
            Call::Child { value: s("b") },
            Call::Child { value: s("a") },
            Call::Child { value: s("b") },
        ]
    );
    Children(vec![]).to_tokens(&mut calls);
    assert_eq!(calls.len(), 4);
}

#[test]
fn to_tokens_of_a_node_appends_its_chain() {
    let node = Node {
        tag: s("li"),
        fields_paren_token: Some(1),
        fields: vec![
            Field::Style(Style { value: s("z") }),
            Field::Attr(Attr { name: s("a"), value: s("1") }),
        ],
        children_paren_token: Some(2),
        children: Children(vec![Child { expr: s("y") }, Child { expr: s("x") }]),
    };
    let mut calls = vec![Call::Child { value: s("before") }];
    node.to_tokens(&mut calls);
    assert_eq!(
        calls,
        vec![
            Call::Child { value: s("before") },
            Call::Construct { tag: s("li") },
            Call::Style { value: s("z") },
            Call::Attr { name: s("a"), value: s("1") },
            Call::Child { value: s("y") },
            Call::Child { value: s("x") },
        ]
    );
    assert_eq!(node.calls(), calls[1..].to_vec());
}
