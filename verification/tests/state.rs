use function_call::expression::{value_to_string, Atom, Expression};
use function_call::function::{ArgumentList, FunctionClosure, FunctionCompileContext};
use function_call::ident::Ident;
use function_call::kind::Kind;
use function_call::builder::{
    accept_compiled, accept_state_update, check_abort, check_return_type, unbind_variables,
};
use function_call::diagnostic::Diagnostic;
use function_call::error::Error;
use function_call::span::{Node, Span};
use function_call::state::{Context, ContextBag, Details, ExternalEnv, LocalEnv, Value};
use function_call::table::Table;
use function_call::type_def::TypeDef;

fn details(kind: Kind) -> Details {
    Details { type_def: TypeDef::new(kind), value: None }
}

#[test]
fn a_table_keeps_one_value_for_each_key() {
    let mut table: Table<u32> = Table::new();
    assert_eq!(table.len(), 0);
    assert_eq!(table.get("a"), None);
    assert!(!table.contains_key("a"));
    table.insert("a", 1);
    table.insert("b", 2);
    table.insert("a", 3);
    assert_eq!(table.len(), 2);
    assert_eq!(table.get("a"), Some(&3));
    assert_eq!(table.get("b"), Some(&2));
    assert!(table.contains_key("b"));
    let copy = table.duplicate();
    assert_eq!(table.remove("a"), Some(3));
    assert_eq!(table.remove("a"), None);
    assert_eq!(table.len(), 1);
    assert_eq!(table.get("b"), Some(&2));
    assert_eq!(copy.get("a"), Some(&3));
    assert_eq!(copy.len(), 2);
    assert_eq!(copy.keys(), vec!["a", "b"]);
}

#[test]
fn variables_come_and_go() {
    let mut local = LocalEnv::default();
    let x = Ident::new("x");
    assert_eq!(local.variable(&x), None);
    local.insert_variable(x.clone(), details(Kind::bytes()));
    assert_eq!(local.variable(&x), Some(details(Kind::bytes())));
    local.insert_variable(x.clone(), details(Kind::integer()));
    assert_eq!(local.variable(&x), Some(details(Kind::integer())));
    let snapshot = local.snapshot();
    assert_eq!(local.remove_variable(&x), Some(details(Kind::integer())));
    assert_eq!(local.remove_variable(&x), None);
    assert_eq!(local.variable(&x), None);
    assert_eq!(snapshot.variable(&x), Some(details(Kind::integer())));
    local.restore(snapshot);
    assert_eq!(local.variable(&x), Some(details(Kind::integer())));
    assert_eq!(x.as_str(), "x");
}

#[test]
fn unbinding_restores_what_the_snapshot_holds() {
    let mut snapshot = LocalEnv::new();
    snapshot.insert_variable(Ident::new("kept"), details(Kind::bytes()));
    snapshot.insert_variable(Ident::new("shadowed"), details(Kind::integer()));
    let mut local = snapshot.snapshot();
    local.insert_variable(Ident::new("shadowed"), details(Kind::null()));
    local.insert_variable(Ident::new("fresh"), details(Kind::null()));
    unbind_variables(
        &mut local,
        &snapshot,
        &vec![Ident::new("shadowed"), Ident::new("fresh"), Ident::new("shadowed")],
    );
    assert_eq!(local.variable(&Ident::new("kept")), Some(details(Kind::bytes())));
    assert_eq!(local.variable(&Ident::new("shadowed")), Some(details(Kind::integer())));
    assert_eq!(local.variable(&Ident::new("fresh")), None);
}

#[test]
fn the_bag_of_the_host_is_swapped() {
    let mut external = ExternalEnv::default();
    assert!(external.context_is_empty());
    assert!(ContextBag::new().is_empty());
    let prior = external.swap_external_context(ContextBag::new());
    assert!(prior.is_empty());
    assert!(external.context_is_empty());
    assert_eq!(external.target(), None);
    external.update_target(details(Kind::object(Kind::any())));
    assert_eq!(external.target(), Some(details(Kind::object(Kind::any()))));
    let ctx = FunctionCompileContext::new(Span::new(1, 2)).with_external_context(prior);
    assert_eq!(ctx.span(), Span::new(1, 2));
    assert!(ctx.into_external_context().is_empty());
}

#[test]
fn argument_lists() {
    let mut list: ArgumentList<Atom> = ArgumentList::new();
    assert!(!list.contains("value"));
    assert!(list.closure().is_none());
    list.insert("value", Atom::Literal(Value::Integer(1)));
    list.insert("value", Atom::Literal(Value::Integer(2)));
    assert_eq!(list.get("value"), Some(&Atom::Literal(Value::Integer(2))));
    assert_eq!(list.get("other"), None);
    list.set_closure(FunctionClosure {
        variables: vec![Ident::new("x")],
        block: Atom::Variable(Ident::new("x")),
    });
    assert_eq!(list.closure().unwrap().variables, vec![Ident::new("x")]);
    assert!(list.contains("value"));
    list.insert("other", Atom::Literal(Value::Null));
    assert_eq!(list.keywords(), vec!["value", "other"]);
    let empty: ArgumentList<Atom> = ArgumentList::default();
    assert!(empty.keywords().is_empty());
}

#[test]
fn atoms() {
    let mut local = LocalEnv::new();
    let mut external = ExternalEnv::new();
    let literal = Atom::Literal(Value::Boolean(false));
    assert_eq!(literal.type_def(&local, &external), TypeDef::new(Kind::boolean()));
    assert_eq!(literal.as_value(), Some(Value::Boolean(false)));
    assert_eq!(literal.to_string(), "false");
    assert_eq!(literal.to_debug_string(), "Literal(false)");
    let mut variable = Atom::Variable(Ident::new("x"));
    assert_eq!(variable.type_def(&local, &external), TypeDef::new(Kind::null()));
    local.insert_variable(Ident::new("x"), details(Kind::float()));
    assert_eq!(variable.type_def(&local, &external), TypeDef::new(Kind::float()));
    assert_eq!(variable.as_value(), None);
    assert_eq!(variable.to_string(), "x");
    assert_eq!(variable.to_debug_string(), "Variable(x)");
    assert_eq!(variable.duplicate(), variable);
    assert_eq!(variable.update_state(&mut local, &mut external), Ok(()));
    let mut ctx = Context::new();
    assert_eq!(ctx.variable(&Ident::new("x")), None);
    assert_eq!(variable.resolve(&mut ctx), Ok(Value::Null));
    ctx.set_variable(&Ident::new("x"), Value::Integer(-3));
    assert_eq!(variable.resolve(&mut ctx), Ok(Value::Integer(-3)));
    assert_eq!(value_to_string(Value::Integer(-3)), "-3");
    assert_eq!(value_to_string(Value::Null), "null");
    assert_eq!(value_to_string(Value::Boolean(true)), "true");
}

#[test]
fn nodes_and_spans() {
    let span = Span::new(3, 8);
    assert_eq!((span.start(), span.end()), (3, 8));
    let node = Node::new(span, 'x');
    assert_eq!(node.span(), span);
    assert_eq!((node.start(), node.end()), (3, 8));
    assert_eq!(*node.inner(), 'x');
    assert_eq!(Node::new(span, 'y').take(), (span, 'y'));
    assert_eq!(node.into_inner(), 'x');
}

#[test]
fn the_checks_after_compilation() {
    let span = Span::new(4, 9);
    assert_eq!(check_abort(false, false, false, span), Ok(()));
    assert_eq!(check_abort(true, true, false, span), Ok(()));
    assert_eq!(check_abort(true, false, true, span), Ok(()));
    assert_eq!(
        check_abort(true, false, false, span),
        Err(Error::AbortInfallible { ident_span: span, abort_span: Span::new(9, 10) })
    );
    assert_eq!(check_return_type(span, Kind::bytes(), Kind::any()), Ok(()));
    assert_eq!(check_return_type(span, Kind::bytes(), Kind::bytes()), Ok(()));
    assert_eq!(
        check_return_type(span, Kind::any(), Kind::bytes()),
        Err(Error::ReturnTypeMismatch {
            block_span: span,
            found_kind: Kind::any(),
            expected_kind: Kind::bytes(),
        })
    );
}

#[test]
fn the_answer_of_the_function_decides() {
    let mut local = LocalEnv::new();
    let external = ExternalEnv::new();
    local.insert_variable(
        Ident::new("risky"),
        Details { type_def: TypeDef::new(Kind::bytes()).fallible(), value: None },
    );
    let call_span = Span::new(0, 20);
    let ident_span = Span::new(0, 4);
    let safe = || Atom::Literal(Value::Integer(1));
    let risky = || Atom::Variable(Ident::new("risky"));
    let refusal = || Diagnostic { code: 7, message: "no".to_string(), labels: vec![], notes: vec![] };
    assert_eq!(
        accept_compiled(Ok(safe()), false, false, call_span, ident_span, &local, &external),
        Ok(safe())
    );
    assert_eq!(
        accept_compiled(Ok(safe()), true, false, call_span, ident_span, &local, &external),
        Err(Error::AbortInfallible { ident_span, abort_span: Span::new(4, 5) })
    );
    assert_eq!(
        accept_compiled(Ok(safe()), true, true, call_span, ident_span, &local, &external),
        Ok(safe())
    );
    assert_eq!(
        accept_compiled(Ok(risky()), true, false, call_span, ident_span, &local, &external),
        Ok(risky())
    );
    assert_eq!(
        accept_compiled::<Atom>(
            Err(refusal()),
            true,
            false,
            call_span,
            ident_span,
            &local,
            &external
        ),
        Err(Error::Compilation { call_span, error: refusal() })
    );
    assert_eq!(accept_state_update(Ok(()), call_span), Ok(()));
    let error = accept_state_update(Err("read only".to_string()), call_span).err().unwrap();
    assert_eq!(error, Error::UpdateState { call_span, error: "read only".to_string() });
    assert_eq!(error.code(), 640);
}
