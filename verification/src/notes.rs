//! The notes that follow the labels of an error, and its headline.

use vstd::prelude::*;
use crate::diagnostic::{
    clone_notes, expression_docs_text, expression_docs_url, note_views, solution, Note, NoteView,
};
use crate::error::{Error, ErrorView};
use crate::kind::Kind;
use crate::text::{concat2, concat3, decimal, decimal_text, join, joined, texts};

verus! {

/// The call that asserts at run time that `argument` has the one shape that
/// `kind` admits, where such a call exists.
pub open spec fn guard_text(kind: Kind, argument: Seq<char>) -> Option<Seq<char>> {
    if kind.spec_is_bytes() {
        Some("string!("@ + argument + ")"@)
    } else if kind.spec_is_integer() {
        Some("int!("@ + argument + ")"@)
    } else if kind.spec_is_float() {
        Some("float!("@ + argument + ")"@)
    } else if kind.spec_is_boolean() {
        Some("bool!("@ + argument + ")"@)
    } else if kind.spec_is_object() {
        Some("object!("@ + argument + ")"@)
    } else if kind.spec_is_array() {
        Some("array!("@ + argument + ")"@)
    } else if kind.spec_is_timestamp() {
        Some("timestamp!("@ + argument + ")"@)
    } else {
        None
    }
}

/// The expression that converts `argument` to the one shape that `kind`
/// admits and falls back on a default, where the shape is a scalar that
/// values can be converted to.
pub open spec fn coerce_text(kind: Kind, argument: Seq<char>) -> Option<Seq<char>> {
    if kind.spec_is_bytes() {
        Some("to_string("@ + argument + ") ?? \"default\""@)
    } else if kind.spec_is_integer() {
        Some("to_int("@ + argument + ") ?? 0"@)
    } else if kind.spec_is_float() {
        Some("to_float("@ + argument + ") ?? 0"@)
    } else if kind.spec_is_boolean() {
        Some("to_bool("@ + argument + ") ?? false"@)
    } else if kind.spec_is_timestamp() {
        Some("to_timestamp("@ + argument + ") ?? now()"@)
    } else {
        None
    }
}

/// The call as it reads in the source.
pub open spec fn call_text(
    function_ident: Seq<char>,
    abort_on_error: bool,
    arguments: Seq<Seq<char>>,
) -> Seq<char> {
    function_ident + (if abort_on_error {
        "!"@
    } else {
        ""@
    }) + "("@ + joined(arguments, ", "@) + ")"@
}

/// The notes for an argument of the wrong kind: how to make sure of the kind
/// at run time, how to convert to it where that can be done, and where to
/// read on. There are none where the parameter admits more than one shape.
pub open spec fn invalid_kind_notes(
    function_ident: Seq<char>,
    abort_on_error: bool,
    arguments: Seq<Seq<char>>,
    kind: Kind,
    argument: Seq<char>,
) -> Seq<NoteView> {
    match guard_text(kind, argument) {
        None => Seq::empty(),
        Some(guard) => {
            let call = call_text(function_ident, abort_on_error, arguments);
            let ensuring = solution(
                "ensuring an appropriate type at runtime"@,
                seq![argument + " = "@ + guard, call],
            );
            let coercing = match coerce_text(kind, argument) {
                Some(coerce) => solution(
                    "coercing to an appropriate type and specifying a default value as a fallback in case coercion fails"@,
                    seq![argument + " = "@ + coerce, call],
                ),
                None => Seq::empty(),
            };
            ensuring + coercing + seq![NoteView::SeeErrorDocs]
        },
    }
}

impl ErrorView {
    /// The notes of the error.
    pub open spec fn notes(self) -> Seq<NoteView> {
        match self {
            ErrorView::WrongNumberOfArgs { .. } => seq![
                NoteView::SeeDocs("function arguments"@, expression_docs_text("#arguments"@)),
            ],
            ErrorView::AbortInfallible { .. } => seq![NoteView::SeeErrorDocs],
            ErrorView::FallibleArgument { .. } => seq![NoteView::SeeErrorDocs],
            ErrorView::InvalidArgumentKind {
                function_ident,
                abort_on_error,
                arguments_fmt,
                parameter,
                argument,
                ..
            } => invalid_kind_notes(
                function_ident,
                abort_on_error,
                arguments_fmt,
                parameter.kind,
                argument,
            ),
            ErrorView::Compilation { error, .. } => error.notes,
            ErrorView::MissingClosure { example, .. } => match example {
                Some(example) => seq![NoteView::Example(example.source@)],
                None => Seq::empty(),
            },
            _ => Seq::empty(),
        }
    }

    /// The headline of the error.
    pub open spec fn message(self) -> Seq<char> {
        match self {
            ErrorView::Undefined { .. } => "call to undefined function"@,
            ErrorView::WrongNumberOfArgs { .. } => "wrong number of function arguments"@,
            ErrorView::UnknownKeyword { .. } => "unknown function argument keyword"@,
            ErrorView::MissingArgument { .. } => "missing function argument"@,
            ErrorView::Compilation { error, .. } => "function compilation error: error[E"@
                + decimal_text(error.code as nat) + "] "@ + error.message,
            ErrorView::AbortInfallible { .. } => "can't abort infallible function"@,
            ErrorView::InvalidArgumentKind { .. } => "invalid argument type"@,
            ErrorView::FallibleArgument { .. } => "fallible argument"@,
            ErrorView::UpdateState { error, .. } => "error updating state "@ + error,
            ErrorView::UnexpectedClosure { .. } => "unexpected closure"@,
            ErrorView::MissingClosure { .. } => "missing closure"@,
            ErrorView::ClosureArityMismatch { .. } => "invalid closure arity"@,
            ErrorView::ClosureParameterTypeMismatch { .. } => "type mismatch in closure parameter"@,
            ErrorView::ReturnTypeMismatch { .. } => "type mismatch in closure return type"@,
        }
    }
}

fn guard(kind: &Kind, argument: &str) -> (text: Option<String>)
    ensures
        match text {
            Some(t) => guard_text(*kind, argument@) == Some(t@),
            None => guard_text(*kind, argument@) is None,
        },
{
    if kind.is_bytes() {
        Some(concat3("string!(", argument, ")"))
    } else if kind.is_integer() {
        Some(concat3("int!(", argument, ")"))
    } else if kind.is_float() {
        Some(concat3("float!(", argument, ")"))
    } else if kind.is_boolean() {
        Some(concat3("bool!(", argument, ")"))
    } else if kind.is_object() {
        Some(concat3("object!(", argument, ")"))
    } else if kind.is_array() {
        Some(concat3("array!(", argument, ")"))
    } else if kind.is_timestamp() {
        Some(concat3("timestamp!(", argument, ")"))
    } else {
        None
    }
}

fn coerce(kind: &Kind, argument: &str) -> (text: Option<String>)
    ensures
        match text {
            Some(t) => coerce_text(*kind, argument@) == Some(t@),
            None => coerce_text(*kind, argument@) is None,
        },
{
    if kind.is_bytes() {
        Some(concat3("to_string(", argument, ") ?? \"default\""))
    } else if kind.is_integer() {
        Some(concat3("to_int(", argument, ") ?? 0"))
    } else if kind.is_float() {
        Some(concat3("to_float(", argument, ") ?? 0"))
    } else if kind.is_boolean() {
        Some(concat3("to_bool(", argument, ") ?? false"))
    } else if kind.is_timestamp() {
        Some(concat3("to_timestamp(", argument, ") ?? now()"))
    } else {
        None
    }
}

fn pair(first: String, second: String) -> (lines: Vec<String>)
    ensures
        texts(lines@) == seq![first@, second@],
{
    let mut lines: Vec<String> = Vec::new();
    lines.push(first);
    lines.push(second);
    lines
}

fn append_notes(notes: &mut Vec<Note>, more: Vec<Note>)
    ensures
        note_views(final(notes)@) == note_views(old(notes)@) + note_views(more@),
{
    let mut more = more;
    notes.append(&mut more);
}

fn single(note: Note) -> (notes: Vec<Note>)
    ensures
        note_views(notes@) == seq![note@],
{
    let mut notes: Vec<Note> = Vec::new();
    notes.push(note);
    notes
}

fn none() -> (notes: Vec<Note>)
    ensures
        note_views(notes@) == Seq::<NoteView>::empty(),
{
    let notes: Vec<Note> = Vec::new();
    notes
}

impl Error {
    /// The notes of the error.
    pub fn notes(&self) -> (notes: Vec<Note>)
        ensures
            note_views(notes@) == self@.notes(),
    {
        match self {
            Error::WrongNumberOfArgs { .. } => single(
                Note::SeeDocs(
                    String::from_str("function arguments"),
                    expression_docs_url("#arguments"),
                ),
            ),
            Error::AbortInfallible { .. } => single(Note::SeeErrorDocs),
            Error::FallibleArgument { .. } => single(Note::SeeErrorDocs),
            Error::InvalidArgumentKind {
                function_ident,
                abort_on_error,
                arguments_fmt,
                parameter,
                argument,
                ..
            } => {
                let kind = parameter.kind();
                let guard = match guard(&kind, argument.as_str()) {
                    Some(guard) => guard,
                    None => {
                        return none();
                    },
                };
                let coerce = coerce(&kind, argument.as_str());

                let args = join(arguments_fmt, ", ");
                let abort = if *abort_on_error {
                    "!"
                } else {
                    ""
                };

                let mut call = String::from_str(function_ident);
                call.append(abort);
                call.append("(");
                call.append(args.as_str());
                call.append(")");

                let mut notes = Note::solution(
                    "ensuring an appropriate type at runtime",
                    pair(concat3(argument.as_str(), " = ", guard.as_str()), call.clone()),
                );

                if let Some(coerce) = coerce {
                    append_notes(
                        &mut notes,
                        Note::solution(
                            "coercing to an appropriate type and specifying a default value as a fallback in case coercion fails",
                            pair(concat3(argument.as_str(), " = ", coerce.as_str()), call),
                        ),
                    );
                }

                append_notes(&mut notes, single(Note::SeeErrorDocs));
                notes
            },
            Error::Compilation { error, .. } => clone_notes(&error.notes),
            Error::MissingClosure { example, .. } => match example {
                Some(example) => single(Note::Example(String::from_str(example.source))),
                None => none(),
            },
            _ => none(),
        }
    }

    /// The headline of the error.
    pub fn message(&self) -> (text: String)
        ensures
            text@ == self@.message(),
    {
        match self {
            Error::Undefined { .. } => String::from_str("call to undefined function"),
            Error::WrongNumberOfArgs { .. } => String::from_str(
                "wrong number of function arguments",
            ),
            Error::UnknownKeyword { .. } => String::from_str("unknown function argument keyword"),
            Error::MissingArgument { .. } => String::from_str("missing function argument"),
            Error::Compilation { error, .. } => {
                let mut text = String::from_str("function compilation error: error[E");
                let code = decimal(error.code as u64);
                text.append(code.as_str());
                text.append("] ");
                text.append(error.message.as_str());
                text
            },
            Error::AbortInfallible { .. } => String::from_str("can't abort infallible function"),
            Error::InvalidArgumentKind { .. } => String::from_str("invalid argument type"),
            Error::FallibleArgument { .. } => String::from_str("fallible argument"),
            Error::UpdateState { error, .. } => concat2("error updating state ", error.as_str()),
            Error::UnexpectedClosure { .. } => String::from_str("unexpected closure"),
            Error::MissingClosure { .. } => String::from_str("missing closure"),
            Error::ClosureArityMismatch { .. } => String::from_str("invalid closure arity"),
            Error::ClosureParameterTypeMismatch { .. } => String::from_str(
                "type mismatch in closure parameter",
            ),
            Error::ReturnTypeMismatch { .. } => String::from_str(
                "type mismatch in closure return type",
            ),
        }
    }
}

} // verus!
