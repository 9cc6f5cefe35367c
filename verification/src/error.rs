//! The ways in which resolving a call can fail.

use vstd::prelude::*;
use crate::diagnostic::{Diagnostic, DiagnosticView};
use crate::function::{Example, Parameter};
use crate::ident::Ident;
use crate::kind::Kind;
use crate::span::Span;

verus! {

/// Why a call was refused.
#[derive(Debug, PartialEq, Eq)]
#[allow(inconsistent_fields)]
pub enum Error {
    /// No function of that name is installed.
    Undefined { ident_span: Span, ident: Ident, idents: Vec<&'static str> },
    /// The call has more arguments than the function has parameters.
    WrongNumberOfArgs { arguments_span: Span, max: usize },
    /// An argument names a parameter that the function does not have.
    UnknownKeyword { keyword_span: Span, ident_span: Span, keywords: Vec<&'static str> },
    /// A required parameter is not set.
    MissingArgument { call_span: Span, keyword: &'static str, position: usize },
    /// The function refused to compile the call.
    Compilation { call_span: Span, error: Diagnostic },
    /// The call asks to abort on an error that cannot happen.
    AbortInfallible { ident_span: Span, abort_span: Span },
    /// An argument can never have a kind that its parameter accepts.
    InvalidArgumentKind {
        function_ident: &'static str,
        abort_on_error: bool,
        /// All arguments of the call as they read in the source.
        arguments_fmt: Vec<String>,
        parameter: Parameter,
        /// The kind of the argument.
        got: Kind,
        /// The argument as it reads in the source.
        argument: String,
        /// The place of the argument's expression.
        expr_span: Span,
        /// The place of the argument with its keyword.
        argument_span: Span,
    },
    /// An argument may fail.
    FallibleArgument { expr_span: Span },
    /// The compiled expression could not record its effect on the environment.
    UpdateState { call_span: Span, error: String },
    /// The call has a closure and the function takes none.
    UnexpectedClosure { call_span: Span, closure_span: Span },
    /// The function takes a closure and the call has none.
    MissingClosure { call_span: Span, example: Option<Example> },
    /// The closure binds another number of variables than the function expects.
    ClosureArityMismatch {
        ident_span: Span,
        closure_arguments_span: Span,
        expected: usize,
        supplied: usize,
    },
    /// No signature of the closure accepts the argument it would run over.
    ClosureParameterTypeMismatch { call_span: Span, found_kind: Kind },
    /// The closure's block returns a kind that the function does not accept.
    ReturnTypeMismatch { block_span: Span, found_kind: Kind, expected_kind: Kind },
}

/// An error with its texts as plain text.
#[allow(inconsistent_fields)]
pub enum ErrorView {
    Undefined { ident_span: Span, ident: Seq<char>, idents: Seq<Seq<char>> },
    WrongNumberOfArgs { arguments_span: Span, max: usize },
    UnknownKeyword { keyword_span: Span, ident_span: Span, keywords: Seq<Seq<char>> },
    MissingArgument { call_span: Span, keyword: Seq<char>, position: usize },
    Compilation { call_span: Span, error: DiagnosticView },
    AbortInfallible { ident_span: Span, abort_span: Span },
    InvalidArgumentKind {
        function_ident: Seq<char>,
        abort_on_error: bool,
        arguments_fmt: Seq<Seq<char>>,
        parameter: Parameter,
        got: Kind,
        argument: Seq<char>,
        expr_span: Span,
        argument_span: Span,
    },
    FallibleArgument { expr_span: Span },
    UpdateState { call_span: Span, error: Seq<char> },
    UnexpectedClosure { call_span: Span, closure_span: Span },
    MissingClosure { call_span: Span, example: Option<Example> },
    ClosureArityMismatch {
        ident_span: Span,
        closure_arguments_span: Span,
        expected: usize,
        supplied: usize,
    },
    ClosureParameterTypeMismatch { call_span: Span, found_kind: Kind },
    ReturnTypeMismatch { block_span: Span, found_kind: Kind, expected_kind: Kind },
}

/// The texts of a sequence of string slices.
pub open spec fn slices(items: Seq<&'static str>) -> Seq<Seq<char>> {
    Seq::new(items.len(), |i: int| items[i]@)
}

impl View for Error {
    type V = ErrorView;

    open spec fn view(&self) -> ErrorView {
        match self {
            Error::Undefined { ident_span, ident, idents } => ErrorView::Undefined {
                ident_span: *ident_span,
                ident: ident@,
                idents: slices(idents@),
            },
            Error::WrongNumberOfArgs { arguments_span, max } => ErrorView::WrongNumberOfArgs {
                arguments_span: *arguments_span,
                max: *max,
            },
            Error::UnknownKeyword { keyword_span, ident_span, keywords } => ErrorView::UnknownKeyword {
                keyword_span: *keyword_span,
                ident_span: *ident_span,
                keywords: slices(keywords@),
            },
            Error::MissingArgument { call_span, keyword, position } => ErrorView::MissingArgument {
                call_span: *call_span,
                keyword: keyword@,
                position: *position,
            },
            Error::Compilation { call_span, error } => ErrorView::Compilation {
                call_span: *call_span,
                error: error@,
            },
            Error::AbortInfallible { ident_span, abort_span } => ErrorView::AbortInfallible {
                ident_span: *ident_span,
                abort_span: *abort_span,
            },
            Error::InvalidArgumentKind {
                function_ident,
                abort_on_error,
                arguments_fmt,
                parameter,
                got,
                argument,
                expr_span,
                argument_span,
            } => ErrorView::InvalidArgumentKind {
                function_ident: function_ident@,
                abort_on_error: *abort_on_error,
                arguments_fmt: crate::text::texts(arguments_fmt@),
                parameter: *parameter,
                got: *got,
                argument: argument@,
                expr_span: *expr_span,
                argument_span: *argument_span,
            },
            Error::FallibleArgument { expr_span } => ErrorView::FallibleArgument {
                expr_span: *expr_span,
            },
            Error::UpdateState { call_span, error } => ErrorView::UpdateState {
                call_span: *call_span,
                error: error@,
            },
            Error::UnexpectedClosure { call_span, closure_span } => ErrorView::UnexpectedClosure {
                call_span: *call_span,
                closure_span: *closure_span,
            },
            Error::MissingClosure { call_span, example } => ErrorView::MissingClosure {
                call_span: *call_span,
                example: *example,
            },
            Error::ClosureArityMismatch {
                ident_span,
                closure_arguments_span,
                expected,
                supplied,
            } => ErrorView::ClosureArityMismatch {
                ident_span: *ident_span,
                closure_arguments_span: *closure_arguments_span,
                expected: *expected,
                supplied: *supplied,
            },
            Error::ClosureParameterTypeMismatch {
                call_span,
                found_kind,
            } => ErrorView::ClosureParameterTypeMismatch {
                call_span: *call_span,
                found_kind: *found_kind,
            },
            Error::ReturnTypeMismatch {
                block_span,
                found_kind,
                expected_kind,
            } => ErrorView::ReturnTypeMismatch {
                block_span: *block_span,
                found_kind: *found_kind,
                expected_kind: *expected_kind,
            },
        }
    }
}

impl ErrorView {
    /// The number under which tools know the error. Numbers below 200 are
    /// errors of binding, those from 600 on errors of meaning.
    pub open spec fn code(self) -> nat {
        match self {
            ErrorView::Undefined { .. } => 105,
            ErrorView::WrongNumberOfArgs { .. } => 106,
            ErrorView::MissingArgument { .. } => 107,
            ErrorView::UnknownKeyword { .. } => 108,
            ErrorView::UnexpectedClosure { .. } => 109,
            ErrorView::InvalidArgumentKind { .. } => 110,
            ErrorView::MissingClosure { .. } => 111,
            ErrorView::ClosureArityMismatch { .. } => 120,
            ErrorView::ClosureParameterTypeMismatch { .. } => 121,
            ErrorView::ReturnTypeMismatch { .. } => 122,
            ErrorView::Compilation { .. } => 610,
            ErrorView::AbortInfallible { .. } => 620,
            ErrorView::FallibleArgument { .. } => 630,
            ErrorView::UpdateState { .. } => 640,
        }
    }
}

impl Error {
    /// The number under which tools know the error.
    pub fn code(&self) -> (code: usize)
        ensures
            code == self@.code(),
    {
        match self {
            Error::Undefined { .. } => 105,
            Error::WrongNumberOfArgs { .. } => 106,
            Error::UnknownKeyword { .. } => 108,
            Error::Compilation { .. } => 610,
            Error::MissingArgument { .. } => 107,
            Error::AbortInfallible { .. } => 620,
            Error::InvalidArgumentKind { .. } => 110,
            Error::FallibleArgument { .. } => 630,
            Error::UpdateState { .. } => 640,
            Error::UnexpectedClosure { .. } => 109,
            Error::MissingClosure { .. } => 111,
            Error::ClosureArityMismatch { .. } => 120,
            Error::ClosureParameterTypeMismatch { .. } => 121,
            Error::ReturnTypeMismatch { .. } => 122,
        }
    }
}

/// Errors of binding have numbers up to 199, errors of meaning numbers in
/// the six hundreds.
pub proof fn lemma_code_ranges(error: ErrorView)
    ensures
        match error {
            ErrorView::Compilation { .. }
            | ErrorView::AbortInfallible { .. }
            | ErrorView::FallibleArgument { .. }
            | ErrorView::UpdateState { .. } => 600 <= error.code() <= 699,
            _ => error.code() <= 199,
        },
{
}

} // verus!
