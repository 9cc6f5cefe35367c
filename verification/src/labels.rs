//! The labels that point out an error in the source.

use vstd::prelude::*;
use crate::diagnostic::{label_views, Label, LabelView};
use crate::error::{slices, Error, ErrorView};
use crate::kind::Kind;
use crate::levenshtein::{distance, spec_distance};
use crate::span::Span;
use crate::text::{
    chars_of, concat2, concat3, decimal, decimal_text, join, joined, texts,
};

verus! {

/// `i` is the first of the candidates that is as close to `name` as any.
pub open spec fn is_closest(candidates: Seq<Seq<char>>, name: Seq<char>, i: int) -> bool {
    &&& 0 <= i < candidates.len()
    &&& forall|j: int|
        0 <= j < candidates.len() ==> spec_distance(name, candidates[i]) <= spec_distance(
            name,
            #[trigger] candidates[j],
        )
    &&& forall|j: int|
        0 <= j < i ==> spec_distance(name, candidates[i]) < spec_distance(
            name,
            #[trigger] candidates[j],
        )
}

/// The first of the candidates at the least edit distance from `name`.
pub open spec fn closest(candidates: Seq<Seq<char>>, name: Seq<char>) -> Option<int> {
    if candidates.len() == 0 {
        None
    } else {
        Some(choose|i: int| is_closest(candidates, name, i))
    }
}

/// Among candidates that are equally close the first is the closest, so
/// there is one closest candidate at most.
pub proof fn lemma_closest_unique(candidates: Seq<Seq<char>>, name: Seq<char>, i: int, j: int)
    requires
        is_closest(candidates, name, i),
        is_closest(candidates, name, j),
    ensures
        i == j,
{
    if j < i {
        assert(spec_distance(name, candidates[i]) < spec_distance(name, candidates[j]));
    }
}

/// Finds the candidate that is closest to `name`.
pub fn find_closest(candidates: &Vec<&'static str>, name: &str) -> (found: Option<usize>)
    ensures
        match found {
            Some(i) => is_closest(slices(candidates@), name@, i as int) && closest(
                slices(candidates@),
                name@,
            ) == Some(i as int),
            None => candidates@.len() == 0 && closest(slices(candidates@), name@) is None,
        },
{
    if candidates.len() == 0 {
        return None;
    }
    let name_chars = chars_of(name);
    let first = chars_of(candidates[0]);
    let mut best: usize = 0;
    let mut score = distance(&name_chars, &first);
    let mut i: usize = 1;
    while i < candidates.len()
        invariant
            1 <= i <= candidates@.len(),
            name_chars@ == name@,
            best < i,
            score == spec_distance(name@, slices(candidates@)[best as int]),
            forall|j: int|
                0 <= j < i ==> score <= spec_distance(name@, #[trigger] slices(candidates@)[j]),
            forall|j: int|
                0 <= j < best ==> score < spec_distance(name@, #[trigger] slices(candidates@)[j]),
        decreases candidates@.len() - i,
    {
        let possible = chars_of(candidates[i]);
        let d = distance(&name_chars, &possible);
        if d < score {
            best = i;
            score = d;
        }
        i += 1;
    }
    proof {
        let c = choose|c: int| is_closest(slices(candidates@), name@, c);
        lemma_closest_unique(slices(candidates@), name@, best as int, c);
    }
    Some(best)
}

/// How a kind reads in a sentence about an argument.
pub open spec fn kind_phrase(kind: Kind) -> Seq<char> {
    if kind.spec_is_any() {
        kind.text()
    } else if kind.spec_is_exact() {
        "the exact type "@ + kind.text()
    } else {
        "one of "@ + kind.text()
    }
}

/// Writes a kind as it reads in a sentence about an argument.
pub fn kind_str(kind: &Kind) -> (text: String)
    ensures
        text@ == kind_phrase(*kind),
{
    let name = kind.to_string();
    if kind.is_any() {
        name
    } else if kind.is_exact() {
        concat2("the exact type ", name.as_str())
    } else {
        concat2("one of ", name.as_str())
    }
}

/// Each text between double quotes.
pub open spec fn quoted(items: Seq<Seq<char>>) -> Seq<Seq<char>> {
    Seq::new(items.len(), |i: int| "\""@ + items[i] + "\""@)
}

/// The labels of a function's own diagnostic, moved to the place of the call.
pub open spec fn moved(labels: Seq<LabelView>, span: Span) -> Seq<LabelView> {
    Seq::new(
        labels.len(),
        |i: int| LabelView { message: labels[i].message, primary: labels[i].primary, span },
    )
}

impl ErrorView {
    /// The labels of the error. The first is the primary one.
    pub open spec fn labels(self) -> Seq<LabelView> {
        match self {
            ErrorView::Undefined { ident_span, ident, idents } => {
                let head = seq![Label::spec_primary("undefined function"@, ident_span)];
                match closest(idents, ident) {
                    Some(i) => head.push(
                        Label::spec_context(
                            "did you mean \""@ + idents[i] + "\"?"@,
                            ident_span,
                        ),
                    ),
                    None => head,
                }
            },
            ErrorView::WrongNumberOfArgs { arguments_span, max } => seq![
                Label::spec_primary("too many function arguments"@, arguments_span),
                Label::spec_context(
                    "this function takes a maximum of "@ + decimal_text(max as nat) + " "@ + (if max
                        == 1 {
                        "argument"@
                    } else {
                        "arguments"@
                    }),
                    arguments_span,
                ),
            ],
            ErrorView::UnknownKeyword { keyword_span, ident_span, keywords } => seq![
                Label::spec_primary("unknown keyword"@, keyword_span),
                Label::spec_context(
                    "this function accepts the following keywords: "@ + joined(
                        quoted(keywords),
                        ", "@,
                    ),
                    ident_span,
                ),
            ],
            ErrorView::Compilation { call_span, error } => moved(error.labels, call_span),
            ErrorView::MissingArgument { call_span, keyword, position } => seq![
                Label::spec_primary(
                    "required argument missing: \""@ + keyword + "\" (position "@ + decimal_text(
                        position as nat,
                    ) + ")"@,
                    call_span,
                ),
            ],
            ErrorView::AbortInfallible { ident_span, abort_span } => seq![
                Label::spec_primary("this function can't fail"@, ident_span),
                Label::spec_context("remove this abort-instruction"@, abort_span),
            ],
            ErrorView::InvalidArgumentKind { parameter, got, expr_span, argument_span, .. } => seq![
                Label::spec_primary("this expression resolves to "@ + kind_phrase(got), expr_span),
                Label::spec_context(
                    "but the parameter \""@ + parameter.keyword@ + "\" expects "@ + kind_phrase(
                        parameter.kind,
                    ),
                    argument_span,
                ),
            ],
            ErrorView::FallibleArgument { expr_span } => seq![
                Label::spec_primary("this expression can fail"@, expr_span),
                Label::spec_context(
                    "handle the error before passing it in as an argument"@,
                    expr_span,
                ),
            ],
            ErrorView::UpdateState { call_span, error } => seq![
                Label::spec_primary(
                    "an error occurred updating the compiler state: "@ + error,
                    call_span,
                ),
            ],
            ErrorView::UnexpectedClosure { call_span, closure_span } => seq![
                Label::spec_primary("unexpected closure"@, closure_span),
                Label::spec_context("this function does not accept a closure"@, call_span),
            ],
            ErrorView::MissingClosure { call_span, .. } => seq![
                Label::spec_primary("this function expects a closure"@, call_span),
            ],
            ErrorView::ClosureArityMismatch {
                ident_span,
                closure_arguments_span,
                expected,
                supplied,
            } => seq![
                Label::spec_primary(
                    "this function requires a closure with "@ + decimal_text(expected as nat)
                        + " argument(s)"@,
                    ident_span,
                ),
                Label::spec_context(
                    "but "@ + decimal_text(supplied as nat) + " argument(s) are supplied"@,
                    closure_arguments_span,
                ),
            ],
            ErrorView::ClosureParameterTypeMismatch { call_span, found_kind } => seq![
                Label::spec_primary(
                    "the closure tied to this function call expects a different input value"@,
                    call_span,
                ),
                Label::spec_context(
                    "expression has an inferred type of "@ + found_kind.text()
                        + " where an array or object was expected"@,
                    call_span,
                ),
            ],
            ErrorView::ReturnTypeMismatch { block_span, found_kind, expected_kind } => seq![
                Label::spec_primary("block returns invalid value type"@, block_span),
                Label::spec_context("expected: "@ + expected_kind.text(), block_span),
                Label::spec_context("received: "@ + found_kind.text(), block_span),
            ],
        }
    }
}

fn one(first: Label) -> (labels: Vec<Label>)
    ensures
        label_views(labels@) == seq![first@],
{
    let mut labels: Vec<Label> = Vec::new();
    labels.push(first);
    labels
}

fn two(first: Label, second: Label) -> (labels: Vec<Label>)
    ensures
        label_views(labels@) == seq![first@, second@],
{
    let mut labels: Vec<Label> = Vec::new();
    labels.push(first);
    labels.push(second);
    labels
}

fn quote_all(items: &Vec<&'static str>) -> (out: Vec<String>)
    ensures
        texts(out@) == quoted(slices(items@)),
{
    let mut out: Vec<String> = Vec::new();
    let mut i: usize = 0;
    while i < items.len()
        invariant
            i <= items@.len(),
            out@.len() == i,
            forall|j: int| 0 <= j < i ==> (#[trigger] out@[j])@ == "\""@ + items@[j]@ + "\""@,
        decreases items@.len() - i,
    {
        out.push(concat3("\"", items[i], "\""));
        i += 1;
    }
    out
}

fn move_labels(labels: &Vec<Label>, span: Span) -> (out: Vec<Label>)
    ensures
        label_views(out@) == moved(label_views(labels@), span),
{
    let mut out: Vec<Label> = Vec::new();
    let mut i: usize = 0;
    while i < labels.len()
        invariant
            i <= labels@.len(),
            out@.len() == i,
            forall|j: int|
                0 <= j < i ==> (#[trigger] out@[j])@ == (LabelView {
                    message: labels@[j].message@,
                    primary: labels@[j].primary,
                    span,
                }),
        decreases labels@.len() - i,
    {
        out.push(Label { message: labels[i].message.clone(), primary: labels[i].primary, span });
        i += 1;
    }
    out
}

impl Error {
    /// The labels of the error. The first is the primary one.
    pub fn labels(&self) -> (labels: Vec<Label>)
        ensures
            label_views(labels@) == self@.labels(),
    {
        match self {
            Error::Undefined { ident_span, ident, idents } => {
                let mut vec = one(Label::primary(String::from_str("undefined function"), *ident_span));
                if let Some(idx) = find_closest(idents, ident.as_str()) {
                    let guessed: &str = idents[idx];
                    vec.push(
                        Label::context(concat3("did you mean \"", guessed, "\"?"), *ident_span),
                    );
                }
                vec
            },
            Error::WrongNumberOfArgs { arguments_span, max } => {
                let arg = if *max == 1 {
                    "argument"
                } else {
                    "arguments"
                };
                let mut message = String::from_str("this function takes a maximum of ");
                let count = decimal(*max as u64);
                message.append(count.as_str());
                message.append(" ");
                message.append(arg);
                two(
                    Label::primary(String::from_str("too many function arguments"), *arguments_span),
                    Label::context(message, *arguments_span),
                )
            },
            Error::UnknownKeyword { keyword_span, ident_span, keywords } => {
                let list = join(&quote_all(keywords), ", ");
                two(
                    Label::primary(String::from_str("unknown keyword"), *keyword_span),
                    Label::context(
                        concat2("this function accepts the following keywords: ", list.as_str()),
                        *ident_span,
                    ),
                )
            },
            Error::Compilation { call_span, error } => move_labels(&error.labels, *call_span),
            Error::MissingArgument { call_span, keyword, position } => {
                let mut message = String::from_str("required argument missing: \"");
                message.append(keyword);
                message.append("\" (position ");
                let place = decimal(*position as u64);
                message.append(place.as_str());
                message.append(")");
                one(Label::primary(message, *call_span))
            },
            Error::AbortInfallible { ident_span, abort_span } => two(
                Label::primary(String::from_str("this function can't fail"), *ident_span),
                Label::context(String::from_str("remove this abort-instruction"), *abort_span),
            ),
            Error::InvalidArgumentKind { parameter, got, expr_span, argument_span, .. } => {
                let keyword = parameter.keyword;
                let expected = parameter.kind();
                let resolves = kind_str(got);
                let expects = kind_str(&expected);
                let mut second = String::from_str("but the parameter \"");
                second.append(keyword);
                second.append("\" expects ");
                second.append(expects.as_str());
                two(
                    Label::primary(
                        concat2("this expression resolves to ", resolves.as_str()),
                        *expr_span,
                    ),
                    Label::context(second, *argument_span),
                )
            },
            Error::FallibleArgument { expr_span } => two(
                Label::primary(String::from_str("this expression can fail"), *expr_span),
                Label::context(
                    String::from_str("handle the error before passing it in as an argument"),
                    *expr_span,
                ),
            ),
            Error::UpdateState { call_span, error } => one(
                Label::primary(
                    concat2("an error occurred updating the compiler state: ", error.as_str()),
                    *call_span,
                ),
            ),
            Error::UnexpectedClosure { call_span, closure_span } => two(
                Label::primary(String::from_str("unexpected closure"), *closure_span),
                Label::context(
                    String::from_str("this function does not accept a closure"),
                    *call_span,
                ),
            ),
            Error::MissingClosure { call_span, .. } => one(
                Label::primary(String::from_str("this function expects a closure"), *call_span),
            ),
            Error::ClosureArityMismatch {
                ident_span,
                closure_arguments_span,
                expected,
                supplied,
            } => {
                let expected = decimal(*expected as u64);
                let supplied = decimal(*supplied as u64);
                two(
                    Label::primary(
                        concat3(
                            "this function requires a closure with ",
                            expected.as_str(),
                            " argument(s)",
                        ),
                        *ident_span,
                    ),
                    Label::context(
                        concat3("but ", supplied.as_str(), " argument(s) are supplied"),
                        *closure_arguments_span,
                    ),
                )
            },
            Error::ClosureParameterTypeMismatch { call_span, found_kind } => {
                let found = found_kind.to_string();
                two(
                    Label::primary(
                        String::from_str(
                            "the closure tied to this function call expects a different input value",
                        ),
                        *call_span,
                    ),
                    Label::context(
                        concat3(
                            "expression has an inferred type of ",
                            found.as_str(),
                            " where an array or object was expected",
                        ),
                        *call_span,
                    ),
                )
            },
            Error::ReturnTypeMismatch { block_span, found_kind, expected_kind } => {
                let expected = expected_kind.to_string();
                let found = found_kind.to_string();
                let mut labels = two(
                    Label::primary(
                        String::from_str("block returns invalid value type"),
                        *block_span,
                    ),
                    Label::context(concat2("expected: ", expected.as_str()), *block_span),
                );
                let ghost before = label_views(labels@);
                labels.push(Label::context(concat2("received: ", found.as_str()), *block_span));
                assert(label_views(labels@) =~= before.push(
                    Label::spec_context("received: "@ + found_kind.text(), *block_span),
                ));
                labels
            },
        }
    }
}

} // verus!
