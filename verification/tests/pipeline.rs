use fluent_js_entries::{
    deserialize_json, parse, parse_syntax, serialize_json, AdapterError, CodecError, Entry,
    Expression, Identifier, JsonFailure, Message, ParseError, ParseErrorKind, ParseFailure,
    Pattern, PatternElement, Resource, SyntaxElement, SyntaxEntry, SyntaxExpression,
    SyntaxMessage,
};

fn errors_of(source: &str) -> Vec<ParseError> {
    match parse_syntax(source) {
        Err(errors) => errors,
        other => panic!("{:?}", other),
    }
}

fn text_message(id: &str, text: &str) -> Entry {
    Entry::Message(Message {
        id: id.to_string(),
        value: Some(Pattern { elements: vec![PatternElement::Text(text.to_string())] }),
        traits: None,
    })
}

#[test]
fn parse_empty_input_gives_no_entries() {
    assert_eq!(parse(""), Ok(Resource(vec![])));
}

#[test]
fn parse_blank_lines_give_no_entries() {
    assert_eq!(parse("\n\n  \n"), Ok(Resource(vec![])));
}

#[test]
fn parse_minimal_message() {
    assert_eq!(parse("foo = Bar"), Ok(Resource(vec![text_message("foo", "Bar")])));
}

#[test]
fn serialize_minimal_message() {
    let resource = parse("foo = Bar").unwrap();
    let text = serialize_json(&resource).unwrap();
    let found: serde_json::Value = serde_json::from_str(&text).unwrap();
    let mut object = serde_json::Map::new();
    object.insert("foo".to_string(), serde_json::Value::String("Bar".to_string()));
    assert_eq!(found, serde_json::Value::Object(object));
}

#[test]
fn serialize_pretty_prints_one_pair_per_line() {
    let resource = Resource(vec![text_message("foo", "Bar"), text_message("baz", "Qux")]);
    assert_eq!(
        serialize_json(&resource),
        Ok("{\n  \"foo\": \"Bar\",\n  \"baz\": \"Qux\"\n}".to_string())
    );
}

#[test]
fn serialize_empty_resource_gives_empty_object() {
    assert_eq!(serialize_json(&Resource(vec![])), Ok("{}".to_string()));
}

#[test]
fn serialize_keeps_declaration_order_in_text() {
    let resource = Resource(vec![
        text_message("zebra", "1"),
        text_message("apple", "2"),
        text_message("mango", "3"),
    ]);
    let text = serialize_json(&resource).unwrap();
    let zebra = text.find("\"zebra\"").unwrap();
    let apple = text.find("\"apple\"").unwrap();
    let mango = text.find("\"mango\"").unwrap();
    assert!(zebra < apple && apple < mango);
}

#[test]
fn serialize_escapes_as_json() {
    let resource = Resource(vec![text_message("quote", "say \"hi\"\n")]);
    assert_eq!(
        serialize_json(&resource),
        Ok("{\n  \"quote\": \"say \\\"hi\\\"\\n\"\n}".to_string())
    );
}

#[test]
fn serialize_fails_with_error_of_encoder() {
    let resource = Resource(vec![
        text_message("fine", "x"),
        Entry::Message(Message {
            id: "rich".to_string(),
            value: Some(Pattern {
                elements: vec![PatternElement::Placeable(vec![Expression::EntityReference(
                    Identifier("fine".to_string()),
                )])],
            }),
            traits: None,
        }),
    ]);
    assert_eq!(
        serialize_json(&resource),
        Err(CodecError::UnsupportedPatternShape { id: "rich".to_string() })
    );
}

#[test]
fn deserialize_reads_pairs_in_order_of_text() {
    let text = "{ \"zebra\": \"1\", \"apple\": \"2\", \"mango\": \"3\" }";
    assert_eq!(
        deserialize_json(text),
        Ok(Resource(vec![
            text_message("zebra", "1"),
            text_message("apple", "2"),
            text_message("mango", "3"),
        ]))
    );
}

#[test]
fn deserialize_rejects_value_that_is_no_string() {
    assert_eq!(
        deserialize_json("{ \"a\": \"x\", \"b\": 3 }"),
        Err(JsonFailure::Codec(CodecError::UnexpectedValueType { id: "b".to_string() }))
    );
    assert_eq!(
        deserialize_json("{ \"n\": null }"),
        Err(JsonFailure::Codec(CodecError::UnexpectedValueType { id: "n".to_string() }))
    );
    assert_eq!(
        deserialize_json("{ \"o\": {\"k\": \"v\"} }"),
        Err(JsonFailure::Codec(CodecError::UnexpectedValueType { id: "o".to_string() }))
    );
}

#[test]
fn deserialize_rejects_text_that_is_no_object() {
    assert!(matches!(deserialize_json("[1, 2]"), Err(JsonFailure::Json(_))));
    assert!(matches!(deserialize_json("{ \"a\": "), Err(JsonFailure::Json(_))));
    assert!(matches!(deserialize_json(""), Err(JsonFailure::Json(_))));
}

#[test]
fn deserialize_of_serialize_gives_resource_back() {
    let resource = Resource(vec![
        text_message("title", "Zażółć gęślą jaźń"),
        text_message("about", "line\nbreak \"quoted\""),
    ]);
    let text = serialize_json(&resource).unwrap();
    assert_eq!(deserialize_json(&text), Ok(resource));
}

#[test]
fn parse_matches_decoded_entries() {
    let source = "title = Hello\nabout = About this\n";
    let json = "{ \"title\": \"Hello\", \"about\": \"About this\" }";
    assert_eq!(parse(source).unwrap(), deserialize_json(json).unwrap());
}

#[test]
fn parse_reads_messages_in_declaration_order() {
    let resource = parse("b = Two\na = One\nc = Three\n").unwrap();
    assert_eq!(
        resource,
        Resource(vec![
            text_message("b", "Two"),
            text_message("a", "One"),
            text_message("c", "Three"),
        ])
    );
}

#[test]
fn parse_passes_over_comments_and_sections() {
    let source = "# About the file\n\nfoo = A\n\n[[ menu ]]\n\n# About bar\nbar = B\n";
    assert_eq!(
        parse(source),
        Ok(Resource(vec![text_message("foo", "A"), text_message("bar", "B")]))
    );
}

#[test]
fn parse_carries_referenced_identifier_through() {
    let expected = Resource(vec![Entry::Message(Message {
        id: "foo".to_string(),
        value: Some(Pattern {
            elements: vec![
                PatternElement::Text("Hello ".to_string()),
                PatternElement::Placeable(vec![Expression::EntityReference(Identifier(
                    "bar".to_string(),
                ))]),
            ],
        }),
        traits: None,
    })]);
    assert_eq!(parse("foo = Hello { bar }"), Ok(expected));
}

#[test]
fn parse_rejects_message_without_pattern() {
    let source = "foo =\n  [one] One\n *[other] Other\n";
    assert_eq!(
        parse(source),
        Err(ParseFailure::Adapter(AdapterError::MissingValue { id: "foo".to_string() }))
    );
}

#[test]
fn parse_rejects_argument_in_placeable() {
    assert_eq!(
        parse("foo = Hello { $user }"),
        Err(ParseFailure::Adapter(AdapterError::UnsupportedExpression { id: "foo".to_string() }))
    );
}

#[test]
fn parse_returns_errors_of_parser() {
    match parse("foo") {
        Err(ParseFailure::Syntax(errors)) => {
            assert_eq!(errors.len(), 1);
            assert_eq!(errors[0].kind, ParseErrorKind::ExpectedToken { token: '=' });
            let info = errors[0].info.clone().unwrap();
            assert_eq!(info.line, 0);
            assert_eq!(info.pos, 3);
            assert_eq!(info.slice, "foo");
        }
        other => panic!("{:?}", other),
    }
}

#[test]
fn parse_returns_every_error_in_order() {
    match parse("ok = fine\n?\nfoo\n") {
        Err(ParseFailure::Syntax(errors)) => {
            assert_eq!(errors.len(), 2);
            assert_eq!(errors[0].kind, ParseErrorKind::ExpectedEntry);
            assert_eq!(errors[0].info.clone().unwrap().line, 1);
            assert_eq!(errors[1].kind, ParseErrorKind::ExpectedToken { token: '=' });
            assert_eq!(errors[1].info.clone().unwrap().line, 2);
        }
        other => panic!("{:?}", other),
    }
}

#[test]
fn parse_takes_text_beyond_one_byte_characters() {
    assert_eq!(parse("foo = é"), Ok(Resource(vec![text_message("foo", "é")])));
    assert_eq!(
        parse("title = Zażółć gęślą jaźń\n"),
        Ok(Resource(vec![text_message("title", "Zażółć gęślą jaźń")]))
    );
}

#[test]
fn parse_reports_rejected_entry_of_wide_characters() {
    match parse("é") {
        Err(ParseFailure::Syntax(errors)) => {
            assert_eq!(errors.len(), 1);
            assert_eq!(errors[0].kind, ParseErrorKind::ExpectedEntry);
            let info = errors[0].info.clone().unwrap();
            assert_eq!(info.line, 0);
            assert_eq!(info.pos, 0);
            assert_eq!(info.slice, "é");
        }
        other => panic!("{:?}", other),
    }
}

#[test]
fn parse_counts_lines_alike_for_wide_and_narrow_text() {
    let narrow = errors_of("a = b\n?e\nfoo = x");
    let wide = errors_of("a = b\n?é\nfoo = x");
    assert_eq!(narrow.len(), 1);
    assert_eq!(wide.len(), 1);
    assert_eq!(narrow[0].kind, wide[0].kind);
    let narrow = narrow[0].info.clone().unwrap();
    let wide = wide[0].info.clone().unwrap();
    assert_eq!(narrow.line, 1);
    assert_eq!(wide.line, 1);
    assert_eq!(narrow.pos, wide.pos);
}

#[test]
fn parse_syntax_lifts_every_kind_of_entry() {
    let source = "foo = A { bar } { $arg }\n# note\n\n[[ part ]]\nbaz = { 3 }{ \"s\" }\n";
    let tree = parse_syntax(source).unwrap();
    assert_eq!(
        tree,
        vec![
            SyntaxEntry::Message(SyntaxMessage {
                id: "foo".to_string(),
                value: Some(vec![
                    SyntaxElement::Text("A ".to_string()),
                    SyntaxElement::Placeable(vec![SyntaxExpression::MessageReference(
                        "bar".to_string()
                    )]),
                    SyntaxElement::Text(" ".to_string()),
                    SyntaxElement::Placeable(vec![SyntaxExpression::ExternalArgument(
                        "arg".to_string()
                    )]),
                ]),
            }),
            SyntaxEntry::Comment,
            SyntaxEntry::Section,
            SyntaxEntry::Message(SyntaxMessage {
                id: "baz".to_string(),
                value: Some(vec![
                    SyntaxElement::Placeable(vec![SyntaxExpression::Number("3".to_string())]),
                    SyntaxElement::Placeable(vec![SyntaxExpression::Text("s".to_string())]),
                ]),
            }),
        ]
    );
}

#[test]
fn parse_syntax_tells_compound_expressions_apart() {
    let tree = parse_syntax("a = { f(x, k: 1) }\nb = { m[key] }\n").unwrap();
    assert_eq!(
        tree,
        vec![
            SyntaxEntry::Message(SyntaxMessage {
                id: "a".to_string(),
                value: Some(vec![SyntaxElement::Placeable(vec![SyntaxExpression::Call])]),
            }),
            SyntaxEntry::Message(SyntaxMessage {
                id: "b".to_string(),
                value: Some(vec![SyntaxElement::Placeable(vec![SyntaxExpression::Member])]),
            }),
        ]
    );
}

#[test]
fn parse_syntax_copies_fields_of_error_kinds() {
    let errors = errors_of("foo = { 1x }");
    assert_eq!(
        errors[0].kind,
        ParseErrorKind::ExpectedCharRange { range: "'}', ','".to_string() }
    );
    let errors = errors_of("foo = { \"a");
    assert_eq!(errors[0].kind, ParseErrorKind::ExpectedToken { token: '"' });
    let errors = errors_of("foo = \n");
    assert_eq!(
        errors[0].kind,
        ParseErrorKind::MissingField { fields: vec!["Value".to_string(), "Traits".to_string()] }
    );
    let errors = errors_of("foo = { \"\" }");
    assert_eq!(errors[0].kind, ParseErrorKind::ExpectedField { field: "String".to_string() });
    let errors = errors_of("foo = { $x() }");
    assert_eq!(errors[0].kind, ParseErrorKind::ForbiddenCallee);
    let errors = errors_of("foo = { f($k: 1) }");
    assert_eq!(errors[0].kind, ParseErrorKind::ForbiddenKey);
    let errors = errors_of("foo = x\n [ns/key ] y");
    assert_eq!(errors[0].kind, ParseErrorKind::ForbiddenWhitespace);
    let errors = errors_of("?");
    assert_eq!(errors[0].kind, ParseErrorKind::ExpectedEntry);
}

#[test]
fn parse_takes_many_placeables_side_by_side() {
    let source = format!("a={}", "{b}".repeat(65));
    let resource = parse(&source).unwrap();
    match &resource.0[0] {
        Entry::Message(message) => {
            assert_eq!(message.id, "a");
            assert_eq!(message.value.as_ref().unwrap().elements.len(), 65);
        }
    }
}

#[test]
fn parse_reports_error_of_parser_on_run_of_braces() {
    let errors = errors_of(&"{".repeat(65));
    assert_eq!(errors.len(), 1);
    assert_eq!(errors[0].kind, ParseErrorKind::ExpectedEntry);
}

#[test]
fn parse_reports_missing_value_behind_many_placeables() {
    let source = format!("a={}\nb =\n [one] One\n", "{c}".repeat(65));
    assert_eq!(
        parse(&source),
        Err(ParseFailure::Adapter(AdapterError::MissingValue { id: "b".to_string() }))
    );
}

#[test]
fn parse_takes_nesting_of_calls_and_literals() {
    let source = format!("a = {{ {}x{} }}", "f(".repeat(40), ")".repeat(40));
    assert_eq!(
        parse_syntax(&source),
        Ok(vec![SyntaxEntry::Message(SyntaxMessage {
            id: "a".to_string(),
            value: Some(vec![SyntaxElement::Placeable(vec![SyntaxExpression::Call])]),
        })])
    );
    let source = format!("a = {{ x{} }}", "[k]".repeat(1_000));
    assert_eq!(
        parse_syntax(&source),
        Ok(vec![SyntaxEntry::Message(SyntaxMessage {
            id: "a".to_string(),
            value: Some(vec![SyntaxElement::Placeable(vec![SyntaxExpression::Member])]),
        })])
    );
}

#[test]
fn parse_syntax_returns_no_junk_in_a_tree() {
    for source in sample_sources(20_000, 24) {
        if let Ok(tree) = parse_syntax(&source) {
            assert!(tree.iter().all(|entry| !matches!(entry, SyntaxEntry::Junk(_))));
        }
    }
}

#[test]
fn deserialize_reports_message_of_reader() {
    match deserialize_json("{ \"a\": ") {
        Err(JsonFailure::Json(error)) => assert!(error.message.contains("line 1")),
        other => panic!("{:?}", other),
    }
}

fn sample_sources(count: usize, longest: usize) -> Vec<String> {
    let alphabet: Vec<char> = "ab_ =\n\n\t{}\"\\[]*|#$(),:->./19é€Z".chars().collect();
    let mut state: u64 = 0x2545_f491_4f6c_dd1d;
    let mut sources = Vec::new();
    for _ in 0..count {
        let mut source = String::new();
        state = state.wrapping_mul(6364136223846793005).wrapping_add(1442695040888963407);
        let length = (state >> 33) as usize % (longest + 1);
        for _ in 0..length {
            state = state.wrapping_mul(6364136223846793005).wrapping_add(1442695040888963407);
            source.push(alphabet[(state >> 33) as usize % alphabet.len()]);
        }
        sources.push(source);
    }
    sources
}

#[test]
fn parse_returns_for_every_sample_source() {
    for source in sample_sources(40_000, 24) {
        match parse(&source) {
            Ok(resource) => {
                for entry in &resource.0 {
                    match entry {
                        Entry::Message(message) => {
                            assert!(message.value.is_some());
                            assert!(message.traits.is_none());
                        }
                    }
                }
            }
            Err(ParseFailure::Syntax(errors)) => assert!(!errors.is_empty()),
            Err(ParseFailure::Adapter(error)) => assert!(error.message_id().is_some()),
        }
    }
}

#[test]
fn parse_returns_for_long_sample_sources() {
    for source in sample_sources(2_000, 400) {
        let _ = parse(&source);
    }
}

#[test]
fn parse_gives_the_same_behind_a_line_feed() {
    for source in sample_sources(20_000, 24) {
        let behind = format!("\n{}", source);
        match (parse(&source), parse(&behind)) {
            (Err(ParseFailure::Syntax(plain)), Err(ParseFailure::Syntax(shifted))) => {
                assert_eq!(plain.len(), shifted.len(), "{:?}", source);
                for (one, other) in plain.iter().zip(shifted.iter()) {
                    assert_eq!(one.kind, other.kind, "{:?}", source);
                    let one = one.info.clone().unwrap();
                    let other = other.info.clone().unwrap();
                    assert_eq!(one.line + 1, other.line, "{:?}", source);
                    assert_eq!(one.pos, other.pos, "{:?}", source);
                    assert_eq!(one.slice, other.slice, "{:?}", source);
                }
            }
            (plain, shifted) => assert_eq!(plain, shifted, "{:?}", source),
        }
    }
}
