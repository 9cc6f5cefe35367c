use function_call::argument::FunctionArgument;
use function_call::builder::{Builder, ClosureBinding};
use function_call::constant::Constant;
use function_call::diagnostic::{Diagnostic, Label, Note};
use function_call::error::Error;
use function_call::expression::{Atom, Expression};
use function_call::function::{Definition, Example, Input, Parameter, Variable, VariableKind};
use function_call::ident::Ident;
use function_call::kind::Kind;
use function_call::span::{Node, Span};
use function_call::state::{Details, ExternalEnv, LocalEnv, Value};
use function_call::type_def::TypeDef;

fn parameter(keyword: &'static str, kind: Kind, required: bool) -> Parameter {
    Parameter { keyword, kind, required }
}

fn function(identifier: &'static str, parameters: Vec<Parameter>) -> Constant {
    Constant { identifier, parameters, closure: None, examples: vec![], outcome: Ok(Atom::Literal(Value::Null)) }
}

fn test_fn() -> Constant {
    function(
        "test",
        vec![
            parameter("one", Kind::integer(), false),
            parameter("two", Kind::integer(), false),
            parameter("three", Kind::integer(), false),
        ],
    )
}

fn slice_fn() -> Constant {
    function(
        "slice",
        vec![
            parameter("value", Kind::bytes().or(Kind::array(Kind::any())), true),
            parameter("start", Kind::integer(), true),
            parameter("end", Kind::integer(), false),
        ],
    )
}

fn example() -> Example {
    Example { title: "iterate", source: "for_each(.) -> |k, v| { . }", result: Ok("null") }
}

fn for_each_fn(output: Kind) -> Constant {
    Constant {
        identifier: "for_each",
        parameters: vec![parameter(
            "value",
            Kind::array(Kind::any()).or(Kind::object(Kind::any())),
            true,
        )],
        closure: Some(Definition {
            inputs: vec![Input {
                parameter_keyword: "value",
                kind: Kind::array(Kind::any()).or(Kind::object(Kind::any())),
                variables: vec![
                    Variable { kind: VariableKind::TargetInnerKey },
                    Variable { kind: VariableKind::TargetInnerValue },
                ],
                output,
                example: example(),
            }],
        }),
        examples: vec![],
        outcome: Ok(Atom::Literal(Value::Null)),
    }
}

fn ident(name: &str, start: usize, end: usize) -> Node<Ident> {
    Node::new(Span::new(start, end), Ident::new(name))
}

fn positional(expr: Atom, start: usize, end: usize) -> Node<FunctionArgument<Atom>> {
    let span = Span::new(start, end);
    Node::new(span, FunctionArgument::new(None, Node::new(span, expr)))
}

fn keyword(
    name: &str,
    expr: Atom,
    start: usize,
    middle: usize,
    end: usize,
) -> Node<FunctionArgument<Atom>> {
    Node::new(
        Span::new(start, end),
        FunctionArgument::new(
            Some(ident(name, start, middle - 1)),
            Node::new(Span::new(middle, end), expr),
        ),
    )
}

fn integer(value: i64) -> Atom {
    Atom::Literal(Value::Integer(value))
}

fn var(name: &str) -> Atom {
    Atom::Variable(Ident::new(name))
}

fn declare(local: &mut LocalEnv, name: &str, kind: Kind, fallible: bool) {
    local.insert_variable(
        Ident::new(name),
        Details { type_def: TypeDef::new(kind).with_fallibility(fallible), value: None },
    );
}

fn texts(labels: &[Label]) -> Vec<String> {
    labels.iter().map(|label| label.message.clone()).collect()
}

#[test]
fn undefined_function_suggests_the_nearest_name() {
    let funcs = vec![function("teest", vec![])];
    let mut local = LocalEnv::new();
    let mut external = ExternalEnv::new();
    let result = Builder::new(
        Span::new(0, 6),
        ident("test", 0, 4),
        false,
        vec![],
        &funcs,
        &mut local,
        &mut external,
        None,
    );
    let error = result.err().unwrap();
    assert_eq!(
        error,
        Error::Undefined {
            ident_span: Span::new(0, 4),
            ident: Ident::new("test"),
            idents: vec!["teest"],
        }
    );
    assert_eq!(error.code(), 105);
    assert_eq!(error.message(), "call to undefined function");
    let labels = error.labels();
    assert_eq!(texts(&labels), vec!["undefined function", "did you mean \"teest\"?"]);
    assert!(labels[0].primary);
    assert!(!labels[1].primary);
    assert_eq!(labels[1].span, Span::new(0, 4));
    assert!(error.notes().is_empty());
}

#[test]
fn undefined_function_picks_the_first_of_the_closest() {
    let funcs = vec![
        function("upcase", vec![]),
        function("tesa", vec![]),
        function("tesb", vec![]),
        function("test_all", vec![]),
    ];
    let mut local = LocalEnv::new();
    let mut external = ExternalEnv::new();
    let error = Builder::new(
        Span::new(0, 6),
        ident("test", 0, 4),
        false,
        vec![],
        &funcs,
        &mut local,
        &mut external,
        None,
    )
    .err()
    .unwrap();
    assert_eq!(texts(&error.labels())[1], "did you mean \"tesa\"?");
}

#[test]
fn undefined_function_in_an_empty_registry_has_no_suggestion() {
    let funcs: Vec<Constant> = vec![];
    let mut local = LocalEnv::new();
    let mut external = ExternalEnv::new();
    let error = Builder::new(
        Span::new(0, 6),
        ident("test", 0, 4),
        false,
        vec![],
        &funcs,
        &mut local,
        &mut external,
        None,
    )
    .err()
    .unwrap();
    assert_eq!(texts(&error.labels()), vec!["undefined function"]);
}

#[test]
fn the_first_function_of_a_name_is_called() {
    let funcs = vec![function("other", vec![]), test_fn(), function("test", vec![])];
    let mut local = LocalEnv::new();
    let mut external = ExternalEnv::new();
    let builder = Builder::new(
        Span::new(0, 7),
        ident("test", 0, 4),
        false,
        vec![positional(integer(1), 5, 6)],
        &funcs,
        &mut local,
        &mut external,
        None,
    )
    .unwrap();
    assert_eq!(builder.function_id, 1);
    assert_eq!(builder.call_span, Span::new(0, 7));
    assert_eq!(builder.ident_span, Span::new(0, 4));
    assert!(!builder.abort_on_error);
    assert!(!builder.maybe_fallible_arguments);
    assert_eq!(builder.arguments.len(), 1);
    assert_eq!(builder.closure, None);
    assert_eq!(builder.list.get("one"), Some(&integer(1)));
    assert_eq!(builder.list.get("two"), None);
}

#[test]
fn too_many_arguments_are_refused() {
    let funcs = vec![test_fn()];
    let mut local = LocalEnv::new();
    let mut external = ExternalEnv::new();
    let error = Builder::new(
        Span::new(0, 17),
        ident("test", 0, 4),
        false,
        vec![
            positional(integer(1), 5, 6),
            positional(integer(2), 8, 9),
            positional(integer(3), 11, 12),
            positional(integer(4), 14, 16),
        ],
        &funcs,
        &mut local,
        &mut external,
        None,
    )
    .err()
    .unwrap();
    assert_eq!(error, Error::WrongNumberOfArgs { arguments_span: Span::new(5, 16), max: 3 });
    assert_eq!(error.code(), 106);
    assert_eq!(error.message(), "wrong number of function arguments");
    assert_eq!(
        texts(&error.labels()),
        vec!["too many function arguments", "this function takes a maximum of 3 arguments"]
    );
    assert_eq!(
        error.notes(),
        vec![Note::SeeDocs(
            "function arguments".to_string(),
            "https://vrl.dev/expressions/#arguments".to_string()
        )]
    );
}

#[test]
fn a_single_parameter_is_named_in_the_singular() {
    let error = Error::WrongNumberOfArgs { arguments_span: Span::new(1, 2), max: 1 };
    assert_eq!(texts(&error.labels())[1], "this function takes a maximum of 1 argument");
}

#[test]
fn unknown_keywords_are_refused() {
    let funcs = vec![test_fn()];
    let mut local = LocalEnv::new();
    let mut external = ExternalEnv::new();
    let error = Builder::new(
        Span::new(0, 12),
        ident("test", 0, 4),
        false,
        vec![keyword("four", integer(4), 5, 10, 11)],
        &funcs,
        &mut local,
        &mut external,
        None,
    )
    .err()
    .unwrap();
    assert_eq!(
        error,
        Error::UnknownKeyword {
            keyword_span: Span::new(5, 9),
            ident_span: Span::new(0, 4),
            keywords: vec!["one", "two", "three"],
        }
    );
    assert_eq!(error.code(), 108);
    assert_eq!(error.message(), "unknown function argument keyword");
    let labels = error.labels();
    assert_eq!(
        texts(&labels),
        vec![
            "unknown keyword",
            "this function accepts the following keywords: \"one\", \"two\", \"three\""
        ]
    );
    assert_eq!(labels[0].span, Span::new(5, 9));
    assert_eq!(labels[1].span, Span::new(0, 4));
}

#[test]
fn a_missing_required_argument_is_reported_with_its_position() {
    let funcs = vec![slice_fn()];
    let mut local = LocalEnv::new();
    let mut external = ExternalEnv::new();
    declare(&mut local, "text", Kind::bytes(), false);
    let error = Builder::new(
        Span::new(0, 11),
        ident("slice", 0, 5),
        false,
        vec![positional(var("text"), 6, 10)],
        &funcs,
        &mut local,
        &mut external,
        None,
    )
    .err()
    .unwrap();
    assert_eq!(
        error,
        Error::MissingArgument { call_span: Span::new(0, 11), keyword: "start", position: 1 }
    );
    assert_eq!(error.code(), 107);
    assert_eq!(error.message(), "missing function argument");
    assert_eq!(
        texts(&error.labels()),
        vec!["required argument missing: \"start\" (position 1)"]
    );
}

#[test]
fn the_first_missing_argument_is_reported() {
    let funcs = vec![slice_fn()];
    let mut local = LocalEnv::new();
    let mut external = ExternalEnv::new();
    let error = Builder::new(
        Span::new(0, 7),
        ident("slice", 0, 5),
        false,
        vec![],
        &funcs,
        &mut local,
        &mut external,
        None,
    )
    .err()
    .unwrap();
    assert_eq!(
        error,
        Error::MissingArgument { call_span: Span::new(0, 7), keyword: "value", position: 0 }
    );
}

#[test]
fn an_argument_of_an_impossible_kind_is_refused() {
    let funcs = vec![slice_fn()];
    let mut local = LocalEnv::new();
    let mut external = ExternalEnv::new();
    let error = Builder::new(
        Span::new(0, 12),
        ident("slice", 0, 5),
        false,
        vec![positional(integer(10), 6, 8), positional(integer(1), 10, 11)],
        &funcs,
        &mut local,
        &mut external,
        None,
    )
    .err()
    .unwrap();
    assert_eq!(
        error,
        Error::InvalidArgumentKind {
            function_ident: "slice",
            abort_on_error: false,
            arguments_fmt: vec!["10".to_string(), "1".to_string()],
            parameter: parameter("value", Kind::bytes().or(Kind::array(Kind::any())), true),
            got: Kind::integer(),
            argument: "10".to_string(),
            expr_span: Span::new(6, 8),
            argument_span: Span::new(6, 8),
        }
    );
    assert_eq!(error.code(), 110);
    assert_eq!(error.message(), "invalid argument type");
    let labels = error.labels();
    assert_eq!(labels.len(), 2);
    assert_eq!(
        texts(&labels),
        vec![
            "this expression resolves to the exact type integer",
            "but the parameter \"value\" expects one of string or array"
        ]
    );
    // The parameter takes more than one shape, so no conversion is suggested.
    assert!(error.notes().is_empty());
}

#[test]
fn an_argument_of_the_wrong_scalar_kind_comes_with_solutions() {
    let funcs = vec![function("upcase", vec![parameter("value", Kind::bytes(), true)])];
    let mut local = LocalEnv::new();
    let mut external = ExternalEnv::new();
    let error = Builder::new(
        Span::new(0, 11),
        ident("upcase", 0, 6),
        true,
        vec![positional(integer(7), 8, 9)],
        &funcs,
        &mut local,
        &mut external,
        None,
    )
    .err()
    .unwrap();
    let basic = |line: &str| Note::Basic(line.to_string());
    assert_eq!(
        error.notes(),
        vec![
            basic("try: ensuring an appropriate type at runtime"),
            basic(" "),
            basic("    7 = string!(7)"),
            basic("    upcase!(7)"),
            basic(" "),
            basic(
                "try: coercing to an appropriate type and specifying a default value as a fallback in case coercion fails"
            ),
            basic(" "),
            basic("    7 = to_string(7) ?? \"default\""),
            basic("    upcase!(7)"),
            basic(" "),
            Note::SeeErrorDocs,
        ]
    );
    assert_eq!(
        texts(&error.labels()),
        vec![
            "this expression resolves to the exact type integer",
            "but the parameter \"value\" expects the exact type string"
        ]
    );
}

#[test]
fn a_collection_parameter_gets_a_guard_and_no_coercion() {
    let error = Error::InvalidArgumentKind {
        function_ident: "keys",
        abort_on_error: false,
        arguments_fmt: vec!["1".to_string(), "x".to_string()],
        parameter: parameter("value", Kind::object(Kind::any()), true),
        got: Kind::integer(),
        argument: "1".to_string(),
        expr_span: Span::new(5, 6),
        argument_span: Span::new(5, 6),
    };
    let basic = |line: &str| Note::Basic(line.to_string());
    assert_eq!(
        error.notes(),
        vec![
            basic("try: ensuring an appropriate type at runtime"),
            basic(" "),
            basic("    1 = object!(1)"),
            basic("    keys(1, x)"),
            basic(" "),
            Note::SeeErrorDocs,
        ]
    );
}

#[test]
fn guards_and_coercions_follow_the_kind_of_the_parameter() {
    let notes_for = |kind: Kind| {
        Error::InvalidArgumentKind {
            function_ident: "f",
            abort_on_error: false,
            arguments_fmt: vec!["x".to_string()],
            parameter: parameter("value", kind, true),
            got: Kind::null(),
            argument: "x".to_string(),
            expr_span: Span::new(2, 3),
            argument_span: Span::new(2, 3),
        }
        .notes()
    };
    let line = |notes: &Vec<Note>, at: usize| match &notes[at] {
        Note::Basic(text) => text.clone(),
        other => panic!("unexpected note {:?}", other),
    };
    let integer = notes_for(Kind::integer());
    assert_eq!(line(&integer, 2), "    x = int!(x)");
    assert_eq!(line(&integer, 7), "    x = to_int(x) ?? 0");
    let float = notes_for(Kind::float());
    assert_eq!(line(&float, 2), "    x = float!(x)");
    assert_eq!(line(&float, 7), "    x = to_float(x) ?? 0");
    let boolean = notes_for(Kind::boolean());
    assert_eq!(line(&boolean, 2), "    x = bool!(x)");
    assert_eq!(line(&boolean, 7), "    x = to_bool(x) ?? false");
    let timestamp = notes_for(Kind::timestamp());
    assert_eq!(line(&timestamp, 2), "    x = timestamp!(x)");
    assert_eq!(line(&timestamp, 7), "    x = to_timestamp(x) ?? now()");
    let array = notes_for(Kind::array(Kind::any()));
    assert_eq!(line(&array, 2), "    x = array!(x)");
    assert_eq!(array.len(), 6);
    assert!(notes_for(Kind::regex()).is_empty());
    assert!(notes_for(Kind::any()).is_empty());
}

#[test]
fn a_fallible_argument_is_refused() {
    let funcs = vec![test_fn()];
    let mut local = LocalEnv::new();
    let mut external = ExternalEnv::new();
    declare(&mut local, "risky", Kind::integer(), true);
    let error = Builder::new(
        Span::new(0, 12),
        ident("test", 0, 4),
        false,
        vec![keyword("two", var("risky"), 5, 9, 14)],
        &funcs,
        &mut local,
        &mut external,
        None,
    )
    .err()
    .unwrap();
    assert_eq!(error, Error::FallibleArgument { expr_span: Span::new(9, 14) });
    assert_eq!(error.code(), 630);
    assert_eq!(error.message(), "fallible argument");
    assert_eq!(
        texts(&error.labels()),
        vec![
            "this expression can fail",
            "handle the error before passing it in as an argument"
        ]
    );
    assert_eq!(error.notes(), vec![Note::SeeErrorDocs]);
}

#[test]
fn fallibility_is_reported_before_an_impossible_kind() {
    let funcs = vec![test_fn()];
    let mut local = LocalEnv::new();
    let mut external = ExternalEnv::new();
    declare(&mut local, "risky", Kind::bytes(), true);
    let error = Builder::new(
        Span::new(0, 12),
        ident("test", 0, 4),
        false,
        vec![positional(var("risky"), 5, 10)],
        &funcs,
        &mut local,
        &mut external,
        None,
    )
    .err()
    .unwrap();
    assert_eq!(error.code(), 630);
}

#[test]
fn a_partial_match_marks_the_call() {
    let funcs = vec![test_fn()];
    let mut local = LocalEnv::new();
    let mut external = ExternalEnv::new();
    declare(&mut local, "unknown", Kind::any(), false);
    declare(&mut local, "count", Kind::integer(), false);
    let exact = Builder::new(
        Span::new(0, 12),
        ident("test", 0, 4),
        false,
        vec![positional(var("count"), 5, 10)],
        &funcs,
        &mut local,
        &mut external,
        None,
    )
    .unwrap();
    assert!(!exact.maybe_fallible_arguments);
    let partial = Builder::new(
        Span::new(0, 20),
        ident("test", 0, 4),
        false,
        vec![positional(var("count"), 5, 10), positional(var("unknown"), 12, 19)],
        &funcs,
        &mut local,
        &mut external,
        None,
    )
    .unwrap();
    assert!(partial.maybe_fallible_arguments);
}

#[test]
fn a_keyword_moves_the_cursor_only_from_where_it_stands() {
    let funcs = vec![test_fn()];
    let mut local = LocalEnv::new();
    let mut external = ExternalEnv::new();
    // `one` stands at the cursor, so the argument after it goes to `two`.
    let builder = Builder::new(
        Span::new(0, 20),
        ident("test", 0, 4),
        false,
        vec![keyword("one", integer(1), 5, 9, 10), positional(integer(2), 12, 13)],
        &funcs,
        &mut local,
        &mut external,
        None,
    )
    .unwrap();
    assert_eq!(builder.list.get("one"), Some(&integer(1)));
    assert_eq!(builder.list.get("two"), Some(&integer(2)));
    assert!(!builder.list.contains("three"));
    // `three` does not stand at the cursor, so the argument after it goes to
    // `one`, and the keyword that follows replaces it there.
    let builder = Builder::new(
        Span::new(0, 30),
        ident("test", 0, 4),
        false,
        vec![
            keyword("three", integer(3), 5, 11, 12),
            positional(integer(2), 14, 15),
            keyword("one", integer(1), 17, 21, 22),
        ],
        &funcs,
        &mut local,
        &mut external,
        None,
    )
    .unwrap();
    assert_eq!(builder.list.get("one"), Some(&integer(1)));
    assert_eq!(builder.list.get("two"), None);
    assert_eq!(builder.list.get("three"), Some(&integer(3)));
}

#[test]
fn a_repeated_keyword_keeps_the_last_argument() {
    let funcs = vec![test_fn()];
    let mut local = LocalEnv::new();
    let mut external = ExternalEnv::new();
    let builder = Builder::new(
        Span::new(0, 30),
        ident("test", 0, 4),
        false,
        vec![keyword("two", integer(1), 5, 9, 10), keyword("two", integer(2), 12, 16, 17)],
        &funcs,
        &mut local,
        &mut external,
        None,
    )
    .unwrap();
    assert_eq!(builder.list.get("two"), Some(&integer(2)));
}

#[test]
fn a_closure_where_none_is_taken_is_refused() {
    let funcs = vec![test_fn()];
    let mut local = LocalEnv::new();
    let mut external = ExternalEnv::new();
    let error = Builder::new(
        Span::new(0, 20),
        ident("test", 0, 4),
        false,
        vec![],
        &funcs,
        &mut local,
        &mut external,
        Some(Node::new(Span::new(10, 15), vec![ident("x", 11, 12)])),
    )
    .err()
    .unwrap();
    assert_eq!(
        error,
        Error::UnexpectedClosure { call_span: Span::new(0, 20), closure_span: Span::new(10, 15) }
    );
    assert_eq!(error.code(), 109);
    assert_eq!(error.message(), "unexpected closure");
    let labels = error.labels();
    assert_eq!(
        texts(&labels),
        vec!["unexpected closure", "this function does not accept a closure"]
    );
    assert_eq!(labels[0].span, Span::new(10, 15));
    assert_eq!(labels[1].span, Span::new(0, 20));
}

#[test]
fn a_missing_closure_is_reported_with_an_example() {
    let funcs = vec![for_each_fn(Kind::any())];
    let mut local = LocalEnv::new();
    let mut external = ExternalEnv::new();
    declare(&mut local, "items", Kind::array(Kind::integer()), false);
    let error = Builder::new(
        Span::new(0, 20),
        ident("for_each", 0, 8),
        false,
        vec![positional(var("items"), 9, 14)],
        &funcs,
        &mut local,
        &mut external,
        None,
    )
    .err()
    .unwrap();
    assert_eq!(
        error,
        Error::MissingClosure { call_span: Span::new(0, 20), example: Some(example()) }
    );
    assert_eq!(error.code(), 111);
    assert_eq!(error.message(), "missing closure");
    assert_eq!(texts(&error.labels()), vec!["this function expects a closure"]);
    assert_eq!(error.notes(), vec![Note::Example("for_each(.) -> |k, v| { . }".to_string())]);
    let bare = Error::MissingClosure { call_span: Span::new(0, 20), example: None };
    assert!(bare.notes().is_empty());
}

#[test]
fn a_definition_without_signatures_gives_no_example() {
    let mut plain = for_each_fn(Kind::any());
    plain.closure = Some(Definition { inputs: vec![] });
    let funcs = vec![plain];
    let mut local = LocalEnv::new();
    let mut external = ExternalEnv::new();
    declare(&mut local, "items", Kind::array(Kind::integer()), false);
    let error = Builder::new(
        Span::new(0, 20),
        ident("for_each", 0, 8),
        false,
        vec![positional(var("items"), 9, 14)],
        &funcs,
        &mut local,
        &mut external,
        None,
    )
    .err()
    .unwrap();
    assert_eq!(error, Error::MissingClosure { call_span: Span::new(0, 20), example: None });
}

#[test]
fn closure_variables_are_bound_from_the_target() {
    let funcs = vec![for_each_fn(Kind::any())];
    let mut local = LocalEnv::new();
    let mut external = ExternalEnv::new();
    declare(&mut local, "event", Kind::object(Kind::bytes()), false);
    let snapshot = local.snapshot();
    let builder = Builder::new(
        Span::new(0, 40),
        ident("for_each", 0, 8),
        false,
        vec![positional(var("event"), 9, 14)],
        &funcs,
        &mut local,
        &mut external,
        Some(Node::new(Span::new(19, 25), vec![ident("k", 20, 21), ident("v", 23, 24)])),
    )
    .unwrap();
    assert_eq!(
        builder.closure,
        Some(ClosureBinding {
            variables: vec![Ident::new("k"), Ident::new("v")],
            input: 0,
            output: Kind::any(),
        })
    );
    // The block sees both variables.
    let bytes = Details { type_def: TypeDef::new(Kind::bytes()), value: None };
    assert_eq!(local.variable(&Ident::new("k")), Some(bytes));
    assert_eq!(local.variable(&Ident::new("v")), Some(bytes));
    let block = var("v");
    assert_eq!(block.type_def(&local, &external), TypeDef::new(Kind::bytes()));

    let call = builder
        .compile(&mut local, &mut external, Some(Node::new(Span::new(26, 31), block)), snapshot)
        .unwrap();
    // After the call is compiled both are gone again.
    assert_eq!(local.variable(&Ident::new("k")), None);
    assert_eq!(local.variable(&Ident::new("v")), None);
    assert!(local.variable(&Ident::new("event")).is_some());
    assert!(!call.closure_fallible);
    let closure = call.closure.unwrap();
    assert_eq!(closure.variables, vec![Ident::new("k"), Ident::new("v")]);
    assert_eq!(closure.block, var("v"));
}

#[test]
fn closure_keys_follow_the_kind_of_the_target() {
    let key_kind = |target: Kind| {
        let funcs = vec![for_each_fn(Kind::any())];
        let mut local = LocalEnv::new();
        let mut external = ExternalEnv::new();
        declare(&mut local, "target", target, false);
        Builder::new(
            Span::new(0, 40),
            ident("for_each", 0, 8),
            false,
            vec![positional(var("target"), 9, 15)],
            &funcs,
            &mut local,
            &mut external,
            Some(Node::new(Span::new(19, 25), vec![ident("k", 20, 21), ident("v", 23, 24)])),
        )
        .unwrap();
        (
            local.variable(&Ident::new("k")).unwrap().type_def.kind,
            local.variable(&Ident::new("v")).unwrap().type_def.kind,
        )
    };
    assert_eq!(key_kind(Kind::array(Kind::integer())), (Kind::integer(), Kind::integer()));
    assert_eq!(key_kind(Kind::object(Kind::boolean())), (Kind::bytes(), Kind::boolean()));
    assert_eq!(
        key_kind(Kind::array(Kind::integer()).or(Kind::object(Kind::boolean()))),
        (Kind::bytes().or(Kind::integer()), Kind::boolean())
    );
}

fn variable_fn(kinds: Vec<VariableKind>, input_kind: Kind) -> Constant {
    Constant {
        identifier: "each",
        parameters: vec![parameter("value", Kind::any(), true)],
        closure: Some(Definition {
            inputs: vec![Input {
                parameter_keyword: "value",
                kind: input_kind,
                variables: kinds.into_iter().map(|kind| Variable { kind }).collect(),
                output: Kind::any(),
                example: example(),
            }],
        }),
        examples: vec![],
        outcome: Ok(Atom::Literal(Value::Null)),
    }
}

#[test]
fn closure_variables_of_every_kind() {
    let funcs = vec![variable_fn(
        vec![
            VariableKind::Exact(Kind::timestamp()),
            VariableKind::Target,
            VariableKind::TargetInnerValue,
            VariableKind::TargetInnerKey,
        ],
        Kind::any(),
    )];
    let mut local = LocalEnv::new();
    let mut external = ExternalEnv::new();
    Builder::new(
        Span::new(0, 40),
        ident("each", 0, 4),
        false,
        vec![positional(integer(5), 5, 6)],
        &funcs,
        &mut local,
        &mut external,
        Some(Node::new(
            Span::new(10, 30),
            vec![ident("a", 11, 12), ident("b", 14, 15), ident("c", 17, 18), ident("d", 20, 21)],
        )),
    )
    .unwrap();
    let details = |name: &str| local.variable(&Ident::new(name)).unwrap();
    assert_eq!(details("a"), Details { type_def: TypeDef::new(Kind::timestamp()), value: None });
    assert_eq!(
        details("b"),
        Details { type_def: TypeDef::new(Kind::integer()), value: Some(Value::Integer(5)) }
    );
    // An integer holds nothing, so nothing is known of what it holds.
    assert_eq!(details("c"), Details { type_def: TypeDef::new(Kind::any()), value: None });
    assert_eq!(details("d"), Details { type_def: TypeDef::new(Kind::any()), value: None });
}

#[test]
fn a_closure_of_the_wrong_arity_is_refused() {
    let funcs = vec![for_each_fn(Kind::any())];
    let mut local = LocalEnv::new();
    let mut external = ExternalEnv::new();
    declare(&mut local, "items", Kind::array(Kind::integer()), false);
    let error = Builder::new(
        Span::new(0, 40),
        ident("for_each", 0, 8),
        false,
        vec![positional(var("items"), 9, 14)],
        &funcs,
        &mut local,
        &mut external,
        Some(Node::new(
            Span::new(19, 30),
            vec![ident("a", 20, 21), ident("b", 23, 24), ident("c", 26, 27)],
        )),
    )
    .err()
    .unwrap();
    assert_eq!(
        error,
        Error::ClosureArityMismatch {
            ident_span: Span::new(0, 8),
            closure_arguments_span: Span::new(20, 27),
            expected: 2,
            supplied: 3,
        }
    );
    assert_eq!(error.code(), 120);
    assert_eq!(error.message(), "invalid closure arity");
    assert_eq!(
        texts(&error.labels()),
        vec![
            "this function requires a closure with 2 argument(s)",
            "but 3 argument(s) are supplied"
        ]
    );
    // Nothing was brought into scope.
    assert_eq!(local.variable(&Ident::new("a")), None);
}

#[test]
fn a_closure_without_variables_points_at_the_call() {
    let funcs = vec![for_each_fn(Kind::any())];
    let mut local = LocalEnv::new();
    let mut external = ExternalEnv::new();
    declare(&mut local, "items", Kind::array(Kind::integer()), false);
    let error = Builder::new(
        Span::new(0, 40),
        ident("for_each", 0, 8),
        false,
        vec![positional(var("items"), 9, 14)],
        &funcs,
        &mut local,
        &mut external,
        Some(Node::new(Span::new(19, 21), vec![])),
    )
    .err()
    .unwrap();
    assert_eq!(
        error,
        Error::ClosureArityMismatch {
            ident_span: Span::new(0, 8),
            closure_arguments_span: Span::new(0, 40),
            expected: 2,
            supplied: 0,
        }
    );
}

#[test]
fn a_closure_over_the_wrong_kind_is_refused() {
    let funcs = vec![variable_fn(vec![VariableKind::Target], Kind::array(Kind::any()))];
    let mut local = LocalEnv::new();
    let mut external = ExternalEnv::new();
    let error = Builder::new(
        Span::new(0, 40),
        ident("each", 0, 4),
        false,
        vec![positional(integer(5), 5, 6)],
        &funcs,
        &mut local,
        &mut external,
        Some(Node::new(Span::new(10, 15), vec![ident("x", 11, 12)])),
    )
    .err()
    .unwrap();
    assert_eq!(
        error,
        Error::ClosureParameterTypeMismatch {
            call_span: Span::new(0, 40),
            found_kind: Kind::integer(),
        }
    );
    assert_eq!(error.code(), 121);
    assert_eq!(error.message(), "type mismatch in closure parameter");
    assert_eq!(
        texts(&error.labels()),
        vec![
            "the closure tied to this function call expects a different input value",
            "expression has an inferred type of integer where an array or object was expected"
        ]
    );
}

#[test]
fn a_closure_over_an_unset_parameter_finds_any() {
    let mut each = variable_fn(vec![VariableKind::Target], Kind::array(Kind::any()));
    each.parameters = vec![parameter("value", Kind::any(), false)];
    let funcs = vec![each];
    let mut local = LocalEnv::new();
    let mut external = ExternalEnv::new();
    let error = Builder::new(
        Span::new(0, 40),
        ident("each", 0, 4),
        false,
        vec![],
        &funcs,
        &mut local,
        &mut external,
        Some(Node::new(Span::new(10, 15), vec![ident("x", 11, 12)])),
    )
    .err()
    .unwrap();
    assert_eq!(
        error,
        Error::ClosureParameterTypeMismatch { call_span: Span::new(0, 40), found_kind: Kind::any() }
    );
}

#[test]
fn the_first_signature_that_applies_is_taken() {
    let input = |kind: Kind, output: Kind| Input {
        parameter_keyword: "value",
        kind,
        variables: vec![Variable { kind: VariableKind::Target }],
        output,
        example: example(),
    };
    let mut each = variable_fn(vec![], Kind::any());
    each.closure = Some(Definition {
        inputs: vec![
            input(Kind::bytes(), Kind::bytes()),
            input(Kind::integer(), Kind::integer()),
            input(Kind::any(), Kind::any()),
        ],
    });
    let funcs = vec![each];
    let mut local = LocalEnv::new();
    let mut external = ExternalEnv::new();
    let builder = Builder::new(
        Span::new(0, 40),
        ident("each", 0, 4),
        false,
        vec![positional(integer(5), 5, 6)],
        &funcs,
        &mut local,
        &mut external,
        Some(Node::new(Span::new(10, 15), vec![ident("x", 11, 12)])),
    )
    .unwrap();
    let closure = builder.closure.unwrap();
    assert_eq!(closure.input, 1);
    assert_eq!(closure.output, Kind::integer());
}

#[test]
fn a_block_of_the_wrong_kind_is_refused() {
    let funcs = vec![for_each_fn(Kind::integer())];
    let mut local = LocalEnv::new();
    let mut external = ExternalEnv::new();
    declare(&mut local, "event", Kind::object(Kind::bytes()), false);
    let snapshot = local.snapshot();
    let builder = Builder::new(
        Span::new(0, 40),
        ident("for_each", 0, 8),
        false,
        vec![positional(var("event"), 9, 14)],
        &funcs,
        &mut local,
        &mut external,
        Some(Node::new(Span::new(19, 25), vec![ident("k", 20, 21), ident("v", 23, 24)])),
    )
    .unwrap();
    let error = builder
        .compile(
            &mut local,
            &mut external,
            Some(Node::new(Span::new(26, 33), var("event"))),
            snapshot,
        )
        .err()
        .unwrap();
    assert_eq!(
        error,
        Error::ReturnTypeMismatch {
            block_span: Span::new(26, 33),
            found_kind: Kind::object(Kind::bytes()),
            expected_kind: Kind::integer(),
        }
    );
    assert_eq!(error.code(), 122);
    assert_eq!(error.message(), "type mismatch in closure return type");
    assert_eq!(
        texts(&error.labels()),
        vec!["block returns invalid value type", "expected: integer", "received: object"]
    );
    // The variables of the closure have left the scope all the same.
    assert_eq!(local.variable(&Ident::new("k")), None);
}

#[test]
fn a_shadowed_variable_comes_back_after_the_closure() {
    let funcs = vec![for_each_fn(Kind::any())];
    let mut local = LocalEnv::new();
    let mut external = ExternalEnv::new();
    declare(&mut local, "event", Kind::object(Kind::bytes()), false);
    declare(&mut local, "k", Kind::timestamp(), false);
    let before = local.variable(&Ident::new("k"));
    let snapshot = local.snapshot();
    let builder = Builder::new(
        Span::new(0, 40),
        ident("for_each", 0, 8),
        false,
        vec![positional(var("event"), 9, 14)],
        &funcs,
        &mut local,
        &mut external,
        Some(Node::new(Span::new(19, 25), vec![ident("k", 20, 21), ident("v", 23, 24)])),
    )
    .unwrap();
    assert_eq!(local.variable(&Ident::new("k")).unwrap().type_def.kind, Kind::bytes());
    builder
        .compile(
            &mut local,
            &mut external,
            Some(Node::new(Span::new(26, 31), integer(1))),
            snapshot,
        )
        .unwrap();
    assert_eq!(local.variable(&Ident::new("k")), before);
    assert_eq!(local.variable(&Ident::new("v")), None);
}

#[test]
fn aborting_on_an_error_that_cannot_happen_is_refused() {
    let funcs = vec![test_fn()];
    let mut local = LocalEnv::new();
    let mut external = ExternalEnv::new();
    let builder = Builder::new(
        Span::new(0, 8),
        ident("test", 0, 4),
        true,
        vec![positional(integer(1), 6, 7)],
        &funcs,
        &mut local,
        &mut external,
        None,
    )
    .unwrap();
    let error = builder.compile(&mut local, &mut external, None, LocalEnv::new()).err().unwrap();
    assert_eq!(
        error,
        Error::AbortInfallible { ident_span: Span::new(0, 4), abort_span: Span::new(4, 5) }
    );
    assert_eq!(error.code(), 620);
    assert_eq!(error.message(), "can't abort infallible function");
    let labels = error.labels();
    assert_eq!(texts(&labels), vec!["this function can't fail", "remove this abort-instruction"]);
    assert_eq!(labels[1].span, Span::new(4, 5));
    assert_eq!(error.notes(), vec![Note::SeeErrorDocs]);
}

#[test]
fn aborting_is_accepted_where_an_argument_matches_in_part() {
    let funcs = vec![test_fn()];
    let mut local = LocalEnv::new();
    let mut external = ExternalEnv::new();
    declare(&mut local, "unknown", Kind::any(), false);
    let builder = Builder::new(
        Span::new(0, 14),
        ident("test", 0, 4),
        true,
        vec![positional(var("unknown"), 6, 13)],
        &funcs,
        &mut local,
        &mut external,
        None,
    )
    .unwrap();
    let call = builder.compile(&mut local, &mut external, None, LocalEnv::new()).unwrap();
    assert!(call.abort_on_error);
    assert!(call.maybe_fallible_arguments);
    assert!(!call.type_def(&local, &external).is_fallible());
    assert_eq!(call.ident, "test");
    assert_eq!(call.function_id, 0);
    assert_eq!(call.span, Span::new(0, 14));
}

#[test]
fn aborting_is_accepted_where_the_function_may_fail() {
    let mut risky = test_fn();
    risky.outcome = Ok(var("state"));
    let funcs = vec![risky];
    let mut local = LocalEnv::new();
    let mut external = ExternalEnv::new();
    declare(&mut local, "state", Kind::bytes(), true);
    let builder = Builder::new(
        Span::new(0, 8),
        ident("test", 0, 4),
        true,
        vec![],
        &funcs,
        &mut local,
        &mut external,
        None,
    )
    .unwrap();
    let snapshot = local.snapshot();
    let call = builder.compile(&mut local, &mut external, None, snapshot).unwrap();
    assert_eq!(call.expr, var("state"));
    assert_eq!(call.type_def(&local, &external), TypeDef::new(Kind::bytes()));
}

#[test]
fn a_refusal_of_the_function_is_handed_on() {
    let mut refusing = test_fn();
    refusing.outcome = Err(Diagnostic {
        code: 42,
        message: "boom".to_string(),
        labels: vec![
            Label::primary("inside".to_string(), Span::new(100, 200)),
            Label::context("around".to_string(), Span::new(300, 400)),
        ],
        notes: vec![Note::Basic("see there".to_string()), Note::SeeErrorDocs],
    });
    let funcs = vec![refusing];
    let mut local = LocalEnv::new();
    let mut external = ExternalEnv::new();
    let builder = Builder::new(
        Span::new(0, 8),
        ident("test", 0, 4),
        false,
        vec![],
        &funcs,
        &mut local,
        &mut external,
        None,
    )
    .unwrap();
    let error = builder.compile(&mut local, &mut external, None, LocalEnv::new()).err().unwrap();
    assert_eq!(error.code(), 610);
    assert_eq!(error.message(), "function compilation error: error[E42] boom");
    // The labels point at the call, not at places inside the function.
    assert_eq!(
        error.labels(),
        vec![
            Label::primary("inside".to_string(), Span::new(0, 8)),
            Label::context("around".to_string(), Span::new(0, 8)),
        ]
    );
    assert_eq!(error.notes(), vec![Note::Basic("see there".to_string()), Note::SeeErrorDocs]);
    match error {
        Error::Compilation { call_span, error } => {
            assert_eq!(call_span, Span::new(0, 8));
            assert_eq!(error.code, 42);
        }
        other => panic!("unexpected error {:?}", other),
    }
    // The host's bag is back in its place.
    assert!(external.context_is_empty());
}

#[test]
fn a_failed_state_update_is_reported() {
    let error = Error::UpdateState { call_span: Span::new(2, 9), error: "no target".to_string() };
    assert_eq!(error.code(), 640);
    assert_eq!(error.message(), "error updating state no target");
    assert_eq!(
        error.labels(),
        vec![Label::primary(
            "an error occurred updating the compiler state: no target".to_string(),
            Span::new(2, 9)
        )]
    );
    assert!(error.notes().is_empty());
}

#[test]
fn error_codes_are_fixed() {
    let span = Span::new(0, 1);
    let codes = vec![
        Error::Undefined { ident_span: span, ident: Ident::new("f"), idents: vec![] }.code(),
        Error::WrongNumberOfArgs { arguments_span: span, max: 0 }.code(),
        Error::MissingArgument { call_span: span, keyword: "k", position: 0 }.code(),
        Error::UnknownKeyword { keyword_span: span, ident_span: span, keywords: vec![] }.code(),
        Error::UnexpectedClosure { call_span: span, closure_span: span }.code(),
        Error::MissingClosure { call_span: span, example: None }.code(),
        Error::ClosureArityMismatch {
            ident_span: span,
            closure_arguments_span: span,
            expected: 1,
            supplied: 2,
        }
        .code(),
        Error::ClosureParameterTypeMismatch { call_span: span, found_kind: Kind::any() }.code(),
        Error::ReturnTypeMismatch {
            block_span: span,
            found_kind: Kind::any(),
            expected_kind: Kind::null(),
        }
        .code(),
        Error::AbortInfallible { ident_span: span, abort_span: span }.code(),
        Error::FallibleArgument { expr_span: span }.code(),
        Error::UpdateState { call_span: span, error: String::new() }.code(),
    ];
    assert_eq!(codes, vec![105, 106, 107, 108, 109, 111, 120, 121, 122, 620, 630, 640]);
}
