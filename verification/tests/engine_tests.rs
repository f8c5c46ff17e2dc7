use unlatex::ast::Node;
use unlatex::error::UnlatexError;
use unlatex::dynvalue::Dyn;
use unlatex::{format_with_args, format_with_opts, jparse, parse, Engine};

/// A small bootstrap defining the three callables the engine must expose.
/// The parse callable wraps the source in a one-string document; the format
/// callable returns its input unchanged.
const STUB: &str = r#"
globalThis.latexParse = (src) => ({
    type: "root",
    content: [ { type: "string", content: src } ],
    position: { start: { line: 1, offset: 0, column: 1 },
                end: { line: 1, offset: src.length, column: 1 + src.length } }
});
globalThis.latexJParse = (src) => JSON.stringify({ type: "root", content: [] });
globalThis.latexFormat = (src, printWidth, useTabs, tabWidth, documentOnly) =>
    src + "|" + printWidth + "|" + useTabs + "|" + tabWidth + "|" + documentOnly;
"#;

#[test]
fn test_parse() {
    let engine = Engine::boot(STUB);
    let ast = parse(
        &engine,
        r#"\section*{Really Cool Math}
Below you'll find some really cool math.

Check it out!
\begin{enumerate}
  \item[(a)] Hi there

  \item $e^{2}$ is math mode!
    \[
      \begin{bmatrix}
        12  & 3^{e} \\
        \pi & 0
      \end{bmatrix}
    \]
\end{enumerate}"#,
    )
    .unwrap();

    println!("{:?}", ast);
}

#[test]
fn test_jparse() {
    let engine = Engine::boot(STUB);
    let ast = jparse(
        &engine,
        r#"\section*{Really Cool Math}
Below you'll find some really cool math.

Check it out!
\begin{enumerate}
  \item[(a)] Hi there

  \item $e^{2}$ is math mode!
    \[
      \begin{bmatrix}
        12  & 3^{e} \\
        \pi & 0
      \end{bmatrix}
    \]
\end{enumerate}"#,
    )
    .unwrap();

    println!("{}", ast);
}

#[test]
fn parse_builds_typed_tree() {
    let engine = Engine::boot(STUB);
    let ast = parse(&engine, "E = mc^2").unwrap();
    match ast {
        Node::Root { content, position, .. } => {
            assert_eq!(content.len(), 1);
            match &content[0] {
                Node::String { content, .. } => assert_eq!(content, "E = mc^2"),
                other => panic!("expected a string node, got {:?}", other),
            }
            assert_eq!(position.start.line, 1);
            assert_eq!(position.end.offset, 8);
        }
        other => panic!("expected a root node, got {:?}", other),
    }
}

#[test]
fn jparse_passes_the_reply_through() {
    let engine = Engine::boot(STUB);
    let text = jparse(&engine, "x").unwrap();
    assert_eq!(text, r#"{"type":"root","content":[]}"#);
}

#[test]
fn format_calls_the_engine_with_five_arguments() {
    let engine = Engine::boot(STUB);
    assert_eq!(
        unlatex::format(&engine, "E = mc^2").unwrap(),
        "E = mc^2|80|false|2|true"
    );
    assert_eq!(
        format_with_opts(&engine, "E = mc^2", 120, true, 4, false).unwrap(),
        "E = mc^2|120|true|4|false"
    );
}

#[test]
fn wrong_argument_count_is_num_args() {
    let engine = Engine::boot(STUB);
    let args = vec![Dyn::Str(String::from("x")), Dyn::Int(80)];
    match format_with_args(&engine, &args) {
        Err(UnlatexError::NumArgs { expected_min, expected_max, given }) => {
            assert_eq!(expected_min, 5);
            assert_eq!(expected_max, 6);
            assert_eq!(given, 2);
        }
        other => panic!("expected an argument-count error, got {:?}", other),
    }
}

#[test]
fn wrongly_typed_argument_is_conversion() {
    let engine = Engine::boot(STUB);
    let args = vec![
        Dyn::Str(String::from("x")),
        Dyn::Bool(true),
        Dyn::Bool(false),
        Dyn::Int(2),
        Dyn::Bool(true),
    ];
    match format_with_args(&engine, &args) {
        Err(UnlatexError::FromJs { from, to, .. }) => {
            assert_eq!(from, "bool");
            assert_eq!(to, "int");
        }
        other => panic!("expected a conversion error, got {:?}", other),
    }
}

#[test]
fn well_typed_arguments_invoke_the_engine() {
    let engine = Engine::boot(STUB);
    let args = vec![
        Dyn::Str(String::from("E = mc^2")),
        Dyn::Int(80),
        Dyn::Bool(false),
        Dyn::Int(2),
        Dyn::Bool(true),
    ];
    assert_eq!(
        format_with_args(&engine, &args).unwrap(),
        "E = mc^2|80|false|2|true"
    );
}

#[test]
fn boot_failure_is_cached_and_resurfaced() {
    let engine = Engine::boot("throw new Error('no engine here');");
    assert!(engine.failed());
    let first = unlatex::format(&engine, "x").unwrap_err();
    let second = parse(&engine, "x").unwrap_err();
    let third = jparse(&engine, "x").unwrap_err();
    assert!(matches!(first, UnlatexError::Exception { .. }));
    assert_eq!(format!("{:?}", first), format!("{:?}", second));
    assert_eq!(format!("{:?}", first), format!("{:?}", third));
}

#[test]
fn missing_callable_is_an_error_not_a_panic() {
    let engine = Engine::boot("globalThis.somethingElse = 1;");
    assert!(!engine.failed());
    assert!(unlatex::format(&engine, "x").is_err());
}

#[test]
fn thrown_strings_surface_as_exceptions() {
    let engine = Engine::boot("throw 'not an error object';");
    assert!(engine.failed());
    match unlatex::format(&engine, "x") {
        Err(UnlatexError::Exception { message, .. }) => {
            assert!(message.contains("not an error object"));
        }
        other => panic!("expected an exception, got {:?}", other),
    }
}

#[test]
fn thrown_numbers_and_objects_surface_as_exceptions() {
    let engine = Engine::boot(
        "globalThis.latexFormat = () => { throw 42; };
         globalThis.latexJParse = () => { throw { code: 3 }; };
         globalThis.latexParse = () => { throw { toString: () => { throw 'nested'; } }; };",
    );
    assert!(!engine.failed());
    match unlatex::format(&engine, "x") {
        Err(UnlatexError::Exception { message, .. }) => assert!(message.contains("42")),
        other => panic!("expected an exception, got {:?}", other),
    }
    assert!(matches!(
        jparse(&engine, "x"),
        Err(UnlatexError::Exception { .. })
    ));
    assert!(matches!(
        parse(&engine, "x"),
        Err(UnlatexError::Exception { .. })
    ));
}

#[test]
fn bootstraps_cannot_replace_the_guards() {
    let engine = Engine::boot(
        "globalThis.latexFormatGuarded = () => { throw 'hijacked'; };
         globalThis.latexFormat = (src) => src;",
    );
    assert!(!engine.failed());
    assert_eq!(unlatex::format(&engine, "x").unwrap(), "x");
}

#[test]
fn parse_rejects_a_non_root_reply() {
    let engine = Engine::boot(
        "globalThis.latexParse = (src) => ({ type: 'string', content: src });",
    );
    match parse(&engine, "x") {
        Err(UnlatexError::FromJs { from, to, .. }) => {
            assert_eq!(from, "object");
            assert_eq!(to, "root");
        }
        other => panic!("expected a conversion error, got {:?}", other),
    }
}

#[test]
fn errors_describe_their_kind_and_details() {
    assert_eq!(
        UnlatexError::Allocation.describe(),
        "failed to allocate memory"
    );
    assert_eq!(
        UnlatexError::NumArgs { expected_min: 5, expected_max: 6, given: 2 }.describe(),
        "error matching of function arguments (details: expected 5..6 arguments, but got 2)"
    );
    let e = UnlatexError::Exception {
        message: String::from("boom"),
        file: String::from("doc.js"),
        line: -1,
        stack: String::new(),
    };
    assert_eq!(
        e.describe(),
        "an exception raised by quickjs itself (details: boom at doc.js:-1)"
    );
    let engine = Engine::boot("throw new Error('no engine here');");
    let err = unlatex::format(&engine, "x").unwrap_err();
    assert!(err.describe().contains("no engine here"));
}

#[test]
fn spoofed_error_objects_surface_as_exceptions() {
    let engine = Engine::boot(
        "globalThis.latexFormat = () => {
             var fake = Object.create(Error.prototype);
             fake.message = 'spoofed';
             throw fake;
         };",
    );
    assert!(!engine.failed());
    match unlatex::format(&engine, "x") {
        Err(UnlatexError::Exception { message, .. }) => assert!(message.contains("spoofed")),
        other => panic!("expected an exception, got {:?}", other),
    }
    let engine2 = Engine::boot("throw Object.create(Error.prototype);");
    assert!(engine2.failed());
    assert!(matches!(
        unlatex::format(&engine2, "x"),
        Err(UnlatexError::Exception { .. })
    ));
}

#[test]
fn genuine_errors_keep_their_message() {
    let engine = Engine::boot(
        "globalThis.latexFormat = () => { throw new TypeError('wrong shape'); };",
    );
    match unlatex::format(&engine, "x") {
        Err(UnlatexError::Exception { message, .. }) => {
            assert!(message.contains("wrong shape"));
        }
        other => panic!("expected an exception, got {:?}", other),
    }
}
