use unlatex::ast::{node_from_dyn, nodes_from_val, Node};
use unlatex::dynvalue::{get_bool, get_string, get_usize, Dyn};
use unlatex::error::UnlatexError;
use unlatex::info::{info_from_dyn, render_info_from_dyn};
use unlatex::json::parse_dyn;

fn obj(fields: Vec<(&str, Dyn)>) -> Dyn {
    Dyn::Obj(fields.into_iter().map(|(k, v)| (String::from(k), v)).collect())
}

fn tagged(tag: &str, mut fields: Vec<(&str, Dyn)>) -> Dyn {
    fields.insert(0, ("type", Dyn::Str(String::from(tag))));
    obj(fields)
}

#[test]
fn omitted_fields_yield_defaults() {
    let d = tagged("macro", vec![]);
    match node_from_dyn(&d).unwrap() {
        Node::Macro { content, args, escape_token, position, render_info } => {
            assert_eq!(content, "");
            assert!(args.is_empty());
            assert!(escape_token.is_none());
            assert_eq!(position.start.line, 0);
            assert_eq!(position.end.column, 0);
            assert!(render_info.is_none());
        }
        other => panic!("expected a macro node, got {:?}", other),
    }
}

#[test]
fn explicit_null_yields_the_same_defaults() {
    let d = tagged(
        "macro",
        vec![
            ("content", Dyn::Null),
            ("args", Dyn::Null),
            ("escapeToken", Dyn::Null),
            ("position", Dyn::Null),
            ("_renderInfo", Dyn::Null),
        ],
    );
    match node_from_dyn(&d).unwrap() {
        Node::Macro { content, args, escape_token, render_info, .. } => {
            assert_eq!(content, "");
            assert!(args.is_empty());
            assert!(escape_token.is_none());
            assert!(render_info.is_none());
        }
        other => panic!("expected a macro node, got {:?}", other),
    }
}

#[test]
fn wrongly_typed_field_is_a_conversion_error() {
    let d = tagged("string", vec![("content", Dyn::Int(5))]);
    match node_from_dyn(&d) {
        Err(UnlatexError::FromJs { from, to, .. }) => {
            assert_eq!(from, "int");
            assert_eq!(to, "string");
        }
        other => panic!("expected a conversion error, got {:?}", other),
    }
}

#[test]
fn a_node_must_be_tagged() {
    let d = obj(vec![("content", Dyn::Str(String::from("x")))]);
    match node_from_dyn(&d) {
        Err(UnlatexError::FromJs { to, .. }) => assert_eq!(to, "string"),
        other => panic!("expected a conversion error, got {:?}", other),
    }
    let not_an_object = Dyn::Int(3);
    match node_from_dyn(&not_an_object) {
        Err(UnlatexError::FromJs { from, to, .. }) => {
            assert_eq!(from, "int");
            assert_eq!(to, "object");
        }
        other => panic!("expected a conversion error, got {:?}", other),
    }
}

#[test]
fn sequences_preserve_input_order() {
    let children = Dyn::Arr(vec![
        tagged("string", vec![("content", Dyn::Str(String::from("A")))]),
        tagged("string", vec![("content", Dyn::Str(String::from("B")))]),
        tagged("string", vec![("content", Dyn::Str(String::from("C")))]),
    ]);
    let d = tagged("group", vec![("content", children)]);
    match node_from_dyn(&d).unwrap() {
        Node::Group { content, .. } => {
            let texts: Vec<&str> = content
                .iter()
                .map(|n| match n {
                    Node::String { content, .. } => content.as_str(),
                    other => panic!("expected a string node, got {:?}", other),
                })
                .collect();
            assert_eq!(texts, vec!["A", "B", "C"]);
        }
        other => panic!("expected a group node, got {:?}", other),
    }
}

#[test]
fn unrecognized_tag_degrades_locally() {
    let children = Dyn::Arr(vec![
        tagged("string", vec![("content", Dyn::Str(String::from("A")))]),
        tagged("somethingNew", vec![("payload", Dyn::Int(1))]),
        tagged("parbreak", vec![]),
    ]);
    let d = tagged("root", vec![("content", children)]);
    match node_from_dyn(&d).unwrap() {
        Node::Root { content, .. } => {
            assert_eq!(content.len(), 3);
            assert!(matches!(content[0], Node::String { .. }));
            assert!(matches!(content[1], Node::Error));
            assert!(matches!(content[2], Node::Parbreak { .. }));
        }
        other => panic!("expected a root node, got {:?}", other),
    }
}

#[test]
fn a_structurally_wrong_element_aborts_the_sequence() {
    let children = Dyn::Arr(vec![
        tagged("string", vec![("content", Dyn::Str(String::from("A")))]),
        Dyn::Int(7),
    ]);
    match nodes_from_val(&children) {
        Err(UnlatexError::FromJs { from, to, .. }) => {
            assert_eq!(from, "int");
            assert_eq!(to, "object");
        }
        other => panic!("expected a conversion error, got {:?}", other),
    }
}

#[test]
fn environment_nodes_carry_args_and_content() {
    let d = tagged(
        "environment",
        vec![
            ("env", Dyn::Str(String::from("enumerate"))),
            (
                "args",
                Dyn::Arr(vec![tagged(
                    "argument",
                    vec![
                        ("openMark", Dyn::Str(String::from("["))),
                        ("closeMark", Dyn::Str(String::from("]"))),
                    ],
                )]),
            ),
            (
                "content",
                Dyn::Arr(vec![tagged("string", vec![("content", Dyn::Str(String::from("hi")))])]),
            ),
        ],
    );
    match node_from_dyn(&d).unwrap() {
        Node::Environment { env, args, content, .. } => {
            assert_eq!(env, "enumerate");
            assert_eq!(args.len(), 1);
            assert!(matches!(&args[0], Node::Argument { .. }));
            assert_eq!(content.len(), 1);
        }
        other => panic!("expected an environment node, got {:?}", other),
    }
}

#[test]
fn verbatim_environments_carry_raw_text() {
    let d = tagged(
        "verbatim",
        vec![
            ("env", Dyn::Str(String::from("lstlisting"))),
            ("content", Dyn::Str(String::from("let x = 1;"))),
        ],
    );
    match node_from_dyn(&d).unwrap() {
        Node::VerbatimEnvironment { env, content, .. } => {
            assert_eq!(env, "lstlisting");
            assert_eq!(content, "let x = 1;");
        }
        other => panic!("expected a verbatim node, got {:?}", other),
    }
}

#[test]
fn positions_are_read_field_by_field() {
    let d = tagged(
        "whitespace",
        vec![(
            "position",
            obj(vec![
                (
                    "start",
                    obj(vec![
                        ("line", Dyn::Int(3)),
                        ("offset", Dyn::Int(17)),
                        ("column", Dyn::Int(5)),
                    ]),
                ),
                ("end", obj(vec![("line", Dyn::Int(3)), ("column", Dyn::Int(9))])),
            ]),
        )],
    );
    match node_from_dyn(&d).unwrap() {
        Node::WhiteSpace { position, .. } => {
            assert_eq!(position.start.line, 3);
            assert_eq!(position.start.offset, 17);
            assert_eq!(position.start.column, 5);
            assert_eq!(position.end.line, 3);
            assert_eq!(position.end.offset, 0);
            assert_eq!(position.end.column, 9);
        }
        other => panic!("expected a whitespace node, got {:?}", other),
    }
}

#[test]
fn negative_counts_do_not_convert() {
    let d = obj(vec![("line", Dyn::Int(-1))]);
    match &d {
        Dyn::Obj(fields) => match get_usize(fields, &String::from("line")) {
            Err(UnlatexError::FromJs { from, to, .. }) => {
                assert_eq!(from, "int");
                assert_eq!(to, "int");
            }
            other => panic!("expected a conversion error, got {:?}", other),
        },
        _ => unreachable!(),
    }
}

#[test]
fn scalar_extraction_reads_any_field_by_name() {
    match &obj(vec![("sameline", Dyn::Bool(true))]) {
        Dyn::Obj(fields) => {
            assert_eq!(get_bool(fields, &String::from("sameline")).unwrap(), true);
            assert_eq!(get_bool(fields, &String::from("absent")).unwrap(), false);
            assert_eq!(get_string(fields, &String::from("absent")).unwrap(), "");
            assert_eq!(get_usize(fields, &String::from("absent")).unwrap(), 0);
        }
        _ => unreachable!(),
    }
}

#[test]
fn render_hints_are_transported_without_interpretation() {
    let d = obj(vec![
        ("alignContent", Dyn::Bool(true)),
        ("breakAround", Dyn::Bool(true)),
        (
            "namedArguments",
            Dyn::Arr(vec![Dyn::Null, Dyn::Str(String::from("label")), Dyn::Null]),
        ),
    ]);
    let r = render_info_from_dyn(&d).unwrap();
    assert!(r.align_content);
    assert!(r.break_around);
    assert!(!r.in_par_mode);
    assert!(!r.pgfkeys_args);
    assert!(!r.in_math_mode);
    assert!(!r.hanging_indent);
    assert_eq!(
        r.named_arguments,
        vec![None, Some(String::from("label")), None]
    );
}

#[test]
fn signature_metadata_is_read_field_by_field() {
    let d = obj(vec![
        ("signature", Dyn::Str(String::from("m o"))),
        (
            "processContent",
            Dyn::Arr(vec![tagged("string", vec![("content", Dyn::Str(String::from("x")))])]),
        ),
    ]);
    let info = info_from_dyn(&d).unwrap();
    assert_eq!(info.signature.as_deref(), Some("m o"));
    assert_eq!(info.process_content.as_ref().map(|ns| ns.len()), Some(1));
    assert!(info.render_info.is_none());
    assert!(info.escape_token.is_none());
}

#[test]
fn describe_names_the_variant() {
    let d = tagged("macro", vec![("content", Dyn::Str(String::from("section")))]);
    let n = node_from_dyn(&d).unwrap();
    assert_eq!(n.describe(), "Macro: [\\section]");

    let root = tagged(
        "root",
        vec![(
            "content",
            Dyn::Arr(vec![tagged("parbreak", vec![]), tagged("whitespace", vec![])]),
        )],
    );
    let n = node_from_dyn(&root).unwrap();
    assert_eq!(n.describe(), "Root: [2]\n");
    match n {
        Node::Root { content, .. } => {
            assert_eq!(content[0].describe(), "Parbreak: [\\par]");
            assert_eq!(content[1].describe(), "WhiteSpace");
        }
        _ => unreachable!(),
    }
    assert_eq!(Node::Error.describe(), "[Error]");
}

#[test]
fn serialized_replies_parse_to_value_graphs() {
    let d = parse_dyn(r#"{"type":"group","content":[{"type":"string","content":"A"}],"n":-42}"#)
        .unwrap();
    match node_from_dyn(&d).unwrap() {
        Node::Group { content, .. } => assert_eq!(content.len(), 1),
        other => panic!("expected a group node, got {:?}", other),
    }
    match &d {
        Dyn::Obj(fields) => {
            assert!(fields.iter().any(|(k, v)| k == "n" && matches!(v, Dyn::Int(-42))));
        }
        _ => unreachable!(),
    }
}

#[test]
fn string_escapes_decode() {
    let d = parse_dyn(r#""a\nb\t\"q\" \\ \u0041 \ud83d\ude00""#).unwrap();
    match d {
        Dyn::Str(s) => assert_eq!(s, "a\nb\t\"q\" \\ A \u{1F600}"),
        other => panic!("expected a string, got {:?}", other),
    }
}

#[test]
fn malformed_replies_do_not_convert() {
    assert!(parse_dyn("").is_err());
    assert!(parse_dyn("{").is_err());
    assert!(parse_dyn("[1,]").is_err());
    assert!(parse_dyn("1.").is_err());
    assert!(parse_dyn("1e").is_err());
    assert!(parse_dyn("1e+").is_err());
    assert!(parse_dyn("-").is_err());
    assert!(parse_dyn("truely").is_err());
    assert!(parse_dyn(r#"{"a":1"#).is_err());
    assert!(parse_dyn(r#""\ud800x""#).is_err());
}

#[test]
fn non_integral_numbers_are_carried_as_lexemes() {
    assert!(matches!(parse_dyn("1.5").unwrap(), Dyn::Float(s) if s == "1.5"));
    assert!(matches!(parse_dyn("-12.5e-3").unwrap(), Dyn::Float(s) if s == "-12.5e-3"));
    assert!(matches!(parse_dyn("2E8").unwrap(), Dyn::Float(s) if s == "2E8"));
    assert!(matches!(
        parse_dyn("12345678901234567890123").unwrap(),
        Dyn::Float(s) if s == "12345678901234567890123"
    ));
}

#[test]
fn unread_non_integral_fields_degrade_locally() {
    let d = parse_dyn(r#"{"type":"whitespace","weight":1.5}"#).unwrap();
    assert!(matches!(node_from_dyn(&d).unwrap(), Node::WhiteSpace { .. }));

    let tree = parse_dyn(
        r#"{"type":"root","content":[{"type":"parbreak","score":2e9},{"type":"string","content":"A"}]}"#,
    )
    .unwrap();
    match node_from_dyn(&tree).unwrap() {
        Node::Root { content, .. } => {
            assert!(matches!(content[0], Node::Parbreak { .. }));
            assert!(matches!(&content[1], Node::String { .. }));
        }
        other => panic!("expected a root node, got {:?}", other),
    }
}

#[test]
fn reading_a_non_integral_field_is_a_conversion_error() {
    let d = parse_dyn(r#"{"type":"string","content":1.5}"#).unwrap();
    match node_from_dyn(&d) {
        Err(UnlatexError::FromJs { from, to, .. }) => {
            assert_eq!(from, "float");
            assert_eq!(to, "string");
        }
        other => panic!("expected a conversion error, got {:?}", other),
    }
}

#[test]
fn literals_and_nesting_parse() {
    assert!(matches!(parse_dyn("null").unwrap(), Dyn::Null));
    assert!(matches!(parse_dyn("true").unwrap(), Dyn::Bool(true)));
    assert!(matches!(parse_dyn("false").unwrap(), Dyn::Bool(false)));
    assert!(matches!(parse_dyn("0").unwrap(), Dyn::Int(0)));
    match parse_dyn("[[],[1,2],{}]").unwrap() {
        Dyn::Arr(xs) => {
            assert_eq!(xs.len(), 3);
            assert!(matches!(&xs[0], Dyn::Arr(inner) if inner.is_empty()));
            assert!(matches!(&xs[1], Dyn::Arr(inner) if inner.len() == 2));
            assert!(matches!(&xs[2], Dyn::Obj(fs) if fs.is_empty()));
        }
        other => panic!("expected an array, got {:?}", other),
    }
}

#[test]
fn clones_carry_the_same_tree() {
    let d = tagged(
        "root",
        vec![(
            "content",
            Dyn::Arr(vec![
                tagged(
                    "macro",
                    vec![
                        ("content", Dyn::Str(String::from("section"))),
                        (
                            "_renderInfo",
                            obj(vec![
                                ("breakAround", Dyn::Bool(true)),
                                ("namedArguments", Dyn::Arr(vec![Dyn::Null])),
                            ]),
                        ),
                    ],
                ),
                tagged("parbreak", vec![]),
            ]),
        )],
    );
    let n = node_from_dyn(&d).unwrap();
    let c = n.clone();
    assert_eq!(format!("{:?}", n), format!("{:?}", c));

    let info = info_from_dyn(&obj(vec![("signature", Dyn::Str(String::from("m o")))])).unwrap();
    let info2 = info.clone();
    assert_eq!(format!("{:?}", info), format!("{:?}", info2));
}

#[test]
fn every_tag_defaults_the_same_way() {
    match node_from_dyn(&tagged("environment", vec![])).unwrap() {
        Node::Environment { env, args, content, render_info, .. } => {
            assert_eq!(env, "");
            assert!(args.is_empty());
            assert!(content.is_empty());
            assert!(render_info.is_none());
        }
        other => panic!("expected an environment node, got {:?}", other),
    }
    match node_from_dyn(&tagged("verb", vec![])).unwrap() {
        Node::Verb { env, escape, content, .. } => {
            assert_eq!(env, "");
            assert_eq!(escape, "");
            assert_eq!(content, "");
        }
        other => panic!("expected a verb node, got {:?}", other),
    }
    match node_from_dyn(&tagged("comment", vec![])).unwrap() {
        Node::Comment { content, sameline, suffix_parbreak, leading_whitespace, .. } => {
            assert_eq!(content, "");
            assert!(!sameline);
            assert!(!suffix_parbreak);
            assert!(!leading_whitespace);
        }
        other => panic!("expected a comment node, got {:?}", other),
    }
    match node_from_dyn(&tagged("argument", vec![])).unwrap() {
        Node::Argument { open_mark, close_mark, content, .. } => {
            assert_eq!(open_mark, "");
            assert_eq!(close_mark, "");
            assert!(content.is_empty());
        }
        other => panic!("expected an argument node, got {:?}", other),
    }
}
