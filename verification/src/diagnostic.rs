//! What a diagnostic is made of: labels that point into the source, and notes.

use vstd::prelude::*;
use crate::span::Span;

verus! {

/// A message attached to a place in the source.
#[derive(Debug, PartialEq, Eq)]
pub struct Label {
    pub message: String,
    /// Whether this label marks the cause; the others give context.
    pub primary: bool,
    pub span: Span,
}

/// A label with its message as plain text.
pub struct LabelView {
    pub message: Seq<char>,
    pub primary: bool,
    pub span: Span,
}

impl View for Label {
    type V = LabelView;

    open spec fn view(&self) -> LabelView {
        LabelView { message: self.message@, primary: self.primary, span: self.span }
    }
}

impl Label {
    /// The label of a primary place.
    pub open spec fn spec_primary(message: Seq<char>, span: Span) -> LabelView {
        LabelView { message, primary: true, span }
    }

    /// The label of a place that gives context.
    pub open spec fn spec_context(message: Seq<char>, span: Span) -> LabelView {
        LabelView { message, primary: false, span }
    }

    pub fn primary(message: String, span: Span) -> (label: Label)
        ensures
            label@ == Label::spec_primary(message@, span),
    {
        Label { message, primary: true, span }
    }

    pub fn context(message: String, span: Span) -> (label: Label)
        ensures
            label@ == Label::spec_context(message@, span),
    {
        Label { message, primary: false, span }
    }

    pub fn duplicate(&self) -> (copy: Label)
        ensures
            copy == *self,
    {
        Label { message: self.message.clone(), primary: self.primary, span: self.span }
    }
}

/// The labels of a sequence as plain text.
pub open spec fn label_views(labels: Seq<Label>) -> Seq<LabelView> {
    Seq::new(labels.len(), |i: int| labels[i]@)
}

/// A remark that follows the labels of a diagnostic.
#[derive(Debug, PartialEq, Eq)]
pub enum Note {
    /// A pointer to documentation: what it is about, and where it is.
    SeeDocs(String, String),
    /// A pointer to the documentation on handling errors.
    SeeErrorDocs,
    /// A piece of source that shows a correct use.
    Example(String),
    /// A line of plain text.
    Basic(String),
}

/// A note with its texts as plain text.
pub enum NoteView {
    SeeDocs(Seq<char>, Seq<char>),
    SeeErrorDocs,
    Example(Seq<char>),
    Basic(Seq<char>),
}

impl View for Note {
    type V = NoteView;

    open spec fn view(&self) -> NoteView {
        match self {
            Note::SeeDocs(what, url) => NoteView::SeeDocs(what@, url@),
            Note::SeeErrorDocs => NoteView::SeeErrorDocs,
            Note::Example(source) => NoteView::Example(source@),
            Note::Basic(line) => NoteView::Basic(line@),
        }
    }
}

/// The notes of a sequence as plain text.
pub open spec fn note_views(notes: Seq<Note>) -> Seq<NoteView> {
    Seq::new(notes.len(), |i: int| notes[i]@)
}

/// The lines of a suggested solution, each indented by four spaces.
pub open spec fn solution_lines(content: Seq<Seq<char>>) -> Seq<NoteView> {
    Seq::new(content.len(), |i: int| NoteView::Basic("    "@ + content[i]))
}

/// The notes that suggest a solution: a title, a blank line, the indented
/// lines, and another blank line.
pub open spec fn solution(title: Seq<char>, content: Seq<Seq<char>>) -> Seq<NoteView> {
    seq![NoteView::Basic("try: "@ + title), NoteView::Basic(" "@)] + solution_lines(content)
        + seq![NoteView::Basic(" "@)]
}

impl Note {
    pub fn duplicate(&self) -> (copy: Note)
        ensures
            copy@ == self@,
    {
        match self {
            Note::SeeDocs(what, url) => Note::SeeDocs(what.clone(), url.clone()),
            Note::SeeErrorDocs => Note::SeeErrorDocs,
            Note::Example(source) => Note::Example(source.clone()),
            Note::Basic(line) => Note::Basic(line.clone()),
        }
    }

    /// The notes that suggest a solution under the given title.
    pub fn solution(title: &str, content: Vec<String>) -> (notes: Vec<Note>)
        ensures
            note_views(notes@) == solution(title@, crate::text::texts(content@)),
    {
        let mut notes: Vec<Note> = Vec::new();
        let mut head = String::from_str("try: ");
        head.append(title);
        notes.push(Note::Basic(head));
        notes.push(Note::Basic(String::from_str(" ")));
        let mut i: usize = 0;
        while i < content.len()
            invariant
                i <= content@.len(),
                notes@.len() == 2 + i,
                notes@[0]@ == NoteView::Basic("try: "@ + title@),
                notes@[1]@ == NoteView::Basic(" "@),
                forall|j: int|
                    0 <= j < i ==> (#[trigger] notes@[2 + j])@ == NoteView::Basic(
                        "    "@ + content@[j]@,
                    ),
            decreases content@.len() - i,
        {
            let mut line = String::from_str("    ");
            line.append(content[i].as_str());
            notes.push(Note::Basic(line));
            i += 1;
        }
        notes.push(Note::Basic(String::from_str(" ")));
        proof {
            let want = solution(title@, crate::text::texts(content@));
            assert forall|j: int| 0 <= j < want.len() implies note_views(notes@)[j] == want[j] by {
                if 2 <= j < 2 + content@.len() {
                    assert(notes@[2 + (j - 2)]@ == NoteView::Basic("    "@ + content@[j - 2]@));
                }
            }
        }
        notes
    }
}

/// Where the documentation of expressions lives.
pub open spec fn expression_docs_text(fragment: Seq<char>) -> Seq<char> {
    "https://vrl.dev/expressions/"@ + fragment
}

/// The address of the documentation of expressions, at the given fragment.
pub fn expression_docs_url(fragment: &str) -> (url: String)
    ensures
        url@ == expression_docs_text(fragment@),
{
    let mut url = String::from_str("https://vrl.dev/expressions/");
    url.append(fragment);
    url
}

/// What an installed function reports when it refuses to compile a call.
#[derive(Debug, PartialEq, Eq)]
pub struct Diagnostic {
    pub code: usize,
    pub message: String,
    pub labels: Vec<Label>,
    pub notes: Vec<Note>,
}

/// A function's own diagnostic with its texts as plain text.
pub struct DiagnosticView {
    pub code: usize,
    pub message: Seq<char>,
    pub labels: Seq<LabelView>,
    pub notes: Seq<NoteView>,
}

impl View for Diagnostic {
    type V = DiagnosticView;

    open spec fn view(&self) -> DiagnosticView {
        DiagnosticView {
            code: self.code,
            message: self.message@,
            labels: label_views(self.labels@),
            notes: note_views(self.notes@),
        }
    }
}

/// A copy of the notes.
pub fn clone_notes(notes: &Vec<Note>) -> (copy: Vec<Note>)
    ensures
        note_views(copy@) == note_views(notes@),
{
    let mut copy: Vec<Note> = Vec::new();
    let mut i: usize = 0;
    while i < notes.len()
        invariant
            i <= notes@.len(),
            copy@.len() == i,
            forall|j: int| 0 <= j < i ==> (#[trigger] copy@[j])@ == notes@[j]@,
        decreases notes@.len() - i,
    {
        copy.push(notes[i].duplicate());
        i += 1;
    }
    copy
}

/// A copy of the labels.
pub fn clone_labels(labels: &Vec<Label>) -> (copy: Vec<Label>)
    ensures
        label_views(copy@) == label_views(labels@),
{
    let mut copy: Vec<Label> = Vec::new();
    let mut i: usize = 0;
    while i < labels.len()
        invariant
            i <= labels@.len(),
            copy@.len() == i,
            forall|j: int| 0 <= j < i ==> (#[trigger] copy@[j])@ == labels@[j]@,
        decreases labels@.len() - i,
    {
        copy.push(labels[i].duplicate());
        i += 1;
    }
    copy
}

impl Diagnostic {
    pub fn duplicate(&self) -> (copy: Diagnostic)
        ensures
            copy@ == self@,
    {
        Diagnostic {
            code: self.code,
            message: self.message.clone(),
            labels: clone_labels(&self.labels),
            notes: clone_notes(&self.notes),
        }
    }
}

} // verus!
