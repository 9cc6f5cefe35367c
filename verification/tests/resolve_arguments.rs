use function_call::argument::FunctionArgument;
use function_call::builder::Builder;
use function_call::call::FunctionCall;
use function_call::constant::Constant;
use function_call::expression::Atom;
use function_call::function::Parameter;
use function_call::ident::Ident;
use function_call::kind::Kind;
use function_call::span::{Node, Span};
use function_call::state::{ExternalEnv, LocalEnv, Value};

fn test_fn() -> Constant {
    Constant {
        identifier: "test",
        parameters: vec![
            Parameter { keyword: "one", kind: Kind::integer(), required: false },
            Parameter { keyword: "two", kind: Kind::integer(), required: false },
            Parameter { keyword: "three", kind: Kind::integer(), required: false },
        ],
        closure: None,
        examples: vec![],
        outcome: Ok(Atom::Literal(Value::Null)),
    }
}

fn create_node<T>(inner: T) -> Node<T> {
    Node::new(Span::new(0, 0), inner)
}

fn create_argument(ident: Option<&str>, value: i64) -> FunctionArgument<Atom> {
    FunctionArgument::new(
        ident.map(|ident| create_node(Ident::new(ident))),
        create_node(Atom::Literal(Value::Integer(value))),
    )
}

fn create_function_call(arguments: Vec<Node<FunctionArgument<Atom>>>) -> FunctionCall<Atom> {
    let mut local = LocalEnv::default();
    let mut external = ExternalEnv::default();
    let funcs = vec![test_fn()];

    Builder::new(
        Span::new(0, 0),
        Node::new(Span::new(0, 0), Ident::new("test")),
        false,
        arguments,
        &funcs,
        &mut local,
        &mut external,
        None,
    )
    .unwrap()
    .compile(&mut local, &mut external, None, LocalEnv::default())
    .unwrap()
}

#[test]
fn resolve_arguments_simple() {
    let call = create_function_call(vec![
        create_node(create_argument(None, 1)),
        create_node(create_argument(None, 2)),
        create_node(create_argument(None, 3)),
    ]);

    let params = call.resolve_arguments(&test_fn());
    let expected: Vec<(&'static str, Option<FunctionArgument<Atom>>)> = vec![
        ("one", Some(create_argument(None, 1))),
        ("two", Some(create_argument(None, 2))),
        ("three", Some(create_argument(None, 3))),
    ];

    assert_eq!(Ok(expected), params);
}

#[test]
fn resolve_arguments_named() {
    let call = create_function_call(vec![
        create_node(create_argument(Some("one"), 1)),
        create_node(create_argument(Some("two"), 2)),
        create_node(create_argument(Some("three"), 3)),
    ]);

    let params = call.resolve_arguments(&test_fn());
    let expected: Vec<(&'static str, Option<FunctionArgument<Atom>>)> = vec![
        ("one", Some(create_argument(Some("one"), 1))),
        ("two", Some(create_argument(Some("two"), 2))),
        ("three", Some(create_argument(Some("three"), 3))),
    ];

    assert_eq!(Ok(expected), params);
}

#[test]
fn resolve_arguments_named_unordered() {
    let call = create_function_call(vec![
        create_node(create_argument(Some("three"), 3)),
        create_node(create_argument(Some("two"), 2)),
        create_node(create_argument(Some("one"), 1)),
    ]);

    let params = call.resolve_arguments(&test_fn());
    let expected: Vec<(&'static str, Option<FunctionArgument<Atom>>)> = vec![
        ("one", Some(create_argument(Some("one"), 1))),
        ("two", Some(create_argument(Some("two"), 2))),
        ("three", Some(create_argument(Some("three"), 3))),
    ];

    assert_eq!(Ok(expected), params);
}

#[test]
fn resolve_arguments_unnamed_unordered_one() {
    let call = create_function_call(vec![
        create_node(create_argument(Some("three"), 3)),
        create_node(create_argument(None, 2)),
        create_node(create_argument(Some("one"), 1)),
    ]);

    let params = call.resolve_arguments(&test_fn());
    let expected: Vec<(&'static str, Option<FunctionArgument<Atom>>)> = vec![
        ("one", Some(create_argument(Some("one"), 1))),
        ("two", Some(create_argument(None, 2))),
        ("three", Some(create_argument(Some("three"), 3))),
    ];

    assert_eq!(Ok(expected), params);
}

#[test]
fn resolve_arguments_unnamed_unordered_two() {
    let call = create_function_call(vec![
        create_node(create_argument(Some("three"), 3)),
        create_node(create_argument(None, 1)),
        create_node(create_argument(None, 2)),
    ]);

    let params = call.resolve_arguments(&test_fn());
    let expected: Vec<(&'static str, Option<FunctionArgument<Atom>>)> = vec![
        ("one", Some(create_argument(None, 1))),
        ("two", Some(create_argument(None, 2))),
        ("three", Some(create_argument(Some("three"), 3))),
    ];

    assert_eq!(Ok(expected), params);
}
