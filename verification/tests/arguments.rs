use function_call::argument::FunctionArgument;
use function_call::constant::Constant;
use function_call::expression::{Atom, Expression};
use function_call::function::{Example, Function, Parameter};
use function_call::ident::Ident;
use function_call::kind::Kind;
use function_call::span::{Node, Span};
use function_call::state::{Details, ExternalEnv, LocalEnv, Value};
use function_call::type_def::TypeDef;
use function_call::{Builder, Error, FunctionCall};

fn named(keyword: &str) -> FunctionArgument<Atom> {
    FunctionArgument::new(
        Some(Node::new(Span::new(2, 7), Ident::new(keyword))),
        Node::new(Span::new(9, 12), Atom::Variable(Ident::new("x"))),
    )
}

#[test]
fn an_argument_knows_its_keyword_and_its_places() {
    let argument = named("value");
    assert_eq!(argument.keyword(), Some("value"));
    assert_eq!(argument.keyword_span(), Some(Span::new(2, 7)));
    assert_eq!(argument.span(), Span::new(9, 12));
    assert_eq!(argument.to_string(), "x");
    assert_eq!(argument.to_debug_string(), "Variable(x)");
    assert_eq!(argument.duplicate(), argument);
    assert_eq!(argument.into_inner(), Atom::Variable(Ident::new("x")));
    let bare = FunctionArgument::new(
        None,
        Node::new(Span::new(1, 2), Atom::Literal(Value::Integer(4))),
    );
    assert_eq!(bare.keyword(), None);
    assert_eq!(bare.keyword_span(), None);
    assert_eq!(bare.span(), Span::new(1, 2));
}

#[test]
fn an_argument_has_the_type_of_its_expression() {
    let mut local = LocalEnv::new();
    let external = ExternalEnv::new();
    let argument = named("value");
    assert_eq!(argument.type_def(&local, &external), TypeDef::new(Kind::null()));
    local.insert_variable(
        Ident::new("x"),
        Details { type_def: TypeDef::new(Kind::regex()).fallible(), value: None },
    );
    assert_eq!(argument.type_def(&local, &external), TypeDef::new(Kind::regex()).fallible());
    assert_eq!(argument.expr.node.type_def(&local, &external).kind(), Kind::regex());
}

#[test]
fn a_function_of_data_answers_with_its_data() {
    let example = Example { title: "one", source: "one()", result: Ok("1") };
    let one = Constant {
        identifier: "one",
        parameters: vec![Parameter { keyword: "value", kind: Kind::any(), required: false }],
        closure: None,
        examples: vec![example],
        outcome: Ok(Atom::Literal(Value::Integer(1))),
    };
    assert_eq!(one.identifier(), "one");
    assert_eq!(one.parameters().len(), 1);
    assert_eq!(one.parameters()[0].kind(), Kind::any());
    assert!(one.closure().is_none());
    assert_eq!(one.examples(), &[example]);
}

#[test]
fn a_call_from_start_to_end() {
    let funcs = vec![Constant {
        identifier: "one",
        parameters: vec![Parameter { keyword: "value", kind: Kind::any(), required: false }],
        closure: None,
        examples: vec![],
        outcome: Ok(Atom::Literal(Value::Integer(1))),
    }];
    let mut local = LocalEnv::new();
    let mut external = ExternalEnv::new();
    let snapshot = local.snapshot();
    let builder: Result<Builder<Atom, Constant>, Error> = Builder::new(
        Span::new(0, 14),
        Node::new(Span::new(0, 3), Ident::new("one")),
        false,
        vec![Node::new(Span::new(4, 13), named("value"))],
        &funcs,
        &mut local,
        &mut external,
        None,
    );
    let call: FunctionCall<Atom> =
        builder.unwrap().compile(&mut local, &mut external, None, snapshot).unwrap();
    assert_eq!(call.to_string(), "one(x)");
    assert_eq!(call.expr, Atom::Literal(Value::Integer(1)));
    assert_eq!(call.type_def(&local, &external), TypeDef::new(Kind::integer()));
    assert!(!call.maybe_fallible_arguments);
    assert!(call.closure.is_none());
    assert_eq!(call.arguments.len(), 1);
}
