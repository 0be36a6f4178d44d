//! The per-call execution status that a script's entry point reads and
//! writes, the replacement it resolves to, and the engine's errors.

use vstd::prelude::*;
use vstd::string::{StringExecFns, StringSliceAdditionalSpecFns};
use crate::text::{decimal, push_decimal};

verus! {

/// A text value seeded at the start of a call. It counts as changed when
/// the script leaves it holding something other than its seed: writing the
/// seed back is no change.
#[derive(Clone, Debug)]
pub struct DirtyText {
    pub seed: String,
    pub value: String,
}

impl DirtyText {
    pub open spec fn spec_dirty(&self) -> bool {
        self.value@ != self.seed@
    }

    /// A value seeded with `s`, not yet written.
    pub fn new(s: &str) -> (r: DirtyText)
        ensures
            r.seed@ == s@,
            r.value@ == s@,
            !r.spec_dirty(),
    {
        DirtyText { seed: String::from_str(s), value: String::from_str(s) }
    }

    /// Whether the value now differs from its seed.
    pub fn dirty(&self) -> (r: bool)
        ensures
            r == self.spec_dirty(),
    {
        !(self.value == self.seed)
    }

    /// The current value.
    pub fn read(&self) -> (r: String)
        ensures
            r@ == self.value@,
    {
        self.value.clone()
    }

    /// Overwrites the current value; the seed is kept.
    pub fn write(&mut self, v: String)
        ensures
            final(self).value@ == v@,
            final(self).seed@ == old(self).seed@,
    {
        self.value = v;
    }
}

/// What one call of a script's entry point produced.
#[derive(Clone, Debug)]
pub struct ExecutionStatus {
    /// Whether a selection was active when the call began.
    pub is_text_selected: bool,
    pub info: Option<String>,
    pub error: Option<String>,
    /// Insertions in the order the script made them.
    pub insert: Vec<String>,
    pub full_text: DirtyText,
    pub text: DirtyText,
    pub selection: DirtyText,
}

/// The text that `text` is seeded with: the selection when there is one,
/// else the full text.
pub open spec fn text_seed(full_text: Seq<char>, selection: Option<Seq<char>>) -> Seq<char> {
    match selection {
        Some(s) => s,
        None => full_text,
    }
}

/// The text that `selection` is seeded with.
pub open spec fn selection_seed(selection: Option<Seq<char>>) -> Seq<char> {
    match selection {
        Some(s) => s,
        None => Seq::empty(),
    }
}

pub open spec fn opt_view(s: Option<&str>) -> Option<Seq<char>> {
    match s {
        Some(t) => Some(t@),
        None => None,
    }
}

/// The one outcome of a call.
#[derive(Debug, PartialEq)]
pub enum TextReplacement {
    Full(String),
    Selection(String),
    Insert(Vec<String>),
    Unchanged,
}

impl ExecutionStatus {
    /// The status at the start of a call: nothing posted, nothing inserted,
    /// each text seeded from the buffer and not changed.
    pub open spec fn is_fresh(&self, full_text: Seq<char>, selection: Option<Seq<char>>) -> bool {
        &&& self.is_text_selected == selection.is_some()
        &&& self.info.is_none()
        &&& self.error.is_none()
        &&& self.insert@.len() == 0
        &&& self.full_text.seed@ == full_text
        &&& self.full_text.value@ == full_text
        &&& self.text.seed@ == text_seed(full_text, selection)
        &&& self.text.value@ == text_seed(full_text, selection)
        &&& self.selection.seed@ == selection_seed(selection)
        &&& self.selection.value@ == selection_seed(selection)
    }

    /// A fresh status for a call on `full_text` with an optional selection.
    pub fn begin(full_text: &str, selection: Option<&str>) -> (r: ExecutionStatus)
        ensures
            r.is_fresh(full_text@, opt_view(selection)),
    {
        let text = match selection {
            Some(s) => DirtyText::new(s),
            None => DirtyText::new(full_text),
        };
        let sel = match selection {
            Some(s) => DirtyText::new(s),
            None => {
                proof {
                    reveal_strlit("");
                    assert(""@ =~= Seq::<char>::empty());
                }
                DirtyText::new("")
            },
        };
        ExecutionStatus {
            is_text_selected: selection.is_some(),
            info: None,
            error: None,
            insert: Vec::new(),
            full_text: DirtyText::new(full_text),
            text,
            selection: sel,
        }
    }

    pub fn info(&self) -> (r: Option<&String>)
        ensures
            r.is_some() == self.info.is_some(),
            r.is_some() ==> *r.unwrap() == self.info.unwrap(),
    {
        self.info.as_ref()
    }

    pub fn error(&self) -> (r: Option<&String>)
        ensures
            r.is_some() == self.error.is_some(),
            r.is_some() ==> *r.unwrap() == self.error.unwrap(),
    {
        self.error.as_ref()
    }

    /// Records an info message, replacing any earlier one of this call.
    pub fn post_info(&mut self, msg: String)
        ensures
            *final(self) == (ExecutionStatus { info: Some(msg), ..*old(self) }),
    {
        self.info = Some(msg);
    }

    /// Records an error message, replacing any earlier one of this call.
    pub fn post_error(&mut self, msg: String)
        ensures
            *final(self) == (ExecutionStatus { error: Some(msg), ..*old(self) }),
    {
        self.error = Some(msg);
    }

    /// Appends an insertion after those already made.
    pub fn insert(&mut self, fragment: String)
        ensures
            final(self).insert@ == old(self).insert@.push(fragment),
            *final(self) == (ExecutionStatus { insert: final(self).insert, ..*old(self) }),
    {
        self.insert.push(fragment);
    }

    pub fn full_text(&self) -> (r: String)
        ensures
            r@ == self.full_text.value@,
    {
        self.full_text.read()
    }

    pub fn set_full_text(&mut self, v: String)
        ensures
            final(self).full_text.value@ == v@,
            final(self).full_text.seed@ == old(self).full_text.seed@,
            *final(self) == (ExecutionStatus { full_text: final(self).full_text, ..*old(self) }),
    {
        self.full_text.write(v);
    }

    pub fn text(&self) -> (r: String)
        ensures
            r@ == self.text.value@,
    {
        self.text.read()
    }

    pub fn set_text(&mut self, v: String)
        ensures
            final(self).text.value@ == v@,
            final(self).text.seed@ == old(self).text.seed@,
            *final(self) == (ExecutionStatus { text: final(self).text, ..*old(self) }),
    {
        self.text.write(v);
    }

    pub fn selection(&self) -> (r: String)
        ensures
            r@ == self.selection.value@,
    {
        self.selection.read()
    }

    pub fn set_selection(&mut self, v: String)
        ensures
            final(self).selection.value@ == v@,
            final(self).selection.seed@ == old(self).selection.seed@,
            *final(self) == (ExecutionStatus { selection: final(self).selection, ..*old(self) }),
    {
        self.selection.write(v);
    }

    /// The one replacement this status stands for. Checked in order, the
    /// first that applies wins: any insertion; a changed full text; a changed
    /// selection; a changed text with a selection active (it replaces the
    /// selection); a changed text without one (it replaces the full text);
    /// else nothing.
    pub open spec fn resolves_to(&self, r: TextReplacement) -> bool {
        if self.insert@.len() > 0 {
            r == TextReplacement::Insert(self.insert)
        } else if self.full_text.spec_dirty() {
            r matches TextReplacement::Full(t) && t@ == self.full_text.value@
        } else if self.selection.spec_dirty() {
            r matches TextReplacement::Selection(t) && t@ == self.selection.value@
        } else if self.is_text_selected && self.text.spec_dirty() {
            r matches TextReplacement::Selection(t) && t@ == self.text.value@
        } else if self.text.spec_dirty() {
            r matches TextReplacement::Full(t) && t@ == self.text.value@
        } else {
            r == TextReplacement::Unchanged
        }
    }

    pub fn into_replacement(self) -> (r: TextReplacement)
        ensures
            self.resolves_to(r),
    {
        if self.insert.len() > 0 {
            TextReplacement::Insert(self.insert)
        } else if self.full_text.dirty() {
            TextReplacement::Full(self.full_text.value)
        } else if self.selection.dirty() {
            TextReplacement::Selection(self.selection.value)
        } else if self.is_text_selected && self.text.dirty() {
            TextReplacement::Selection(self.text.value)
        } else if self.text.dirty() {
            TextReplacement::Full(self.text.value)
        } else {
            TextReplacement::Unchanged
        }
    }
}

/// The replacement rules in force once nothing was inserted: a changed
/// full text wins over everything else, whatever happened to `text` or
/// `selection`; a changed selection wins over `text`; and a changed `text`
/// alone replaces the selection when one was active and the full text
/// otherwise.
pub proof fn lemma_replacement_precedence(s: ExecutionStatus, r: TextReplacement)
    requires
        s.insert@.len() == 0,
        s.resolves_to(r),
    ensures
        s.full_text.spec_dirty() ==> (r matches TextReplacement::Full(t) && t@
            == s.full_text.value@),
        !s.full_text.spec_dirty() && s.selection.spec_dirty() ==> (
        r matches TextReplacement::Selection(t) && t@ == s.selection.value@),
        !s.full_text.spec_dirty() && !s.selection.spec_dirty() && s.text.spec_dirty()
            && s.is_text_selected ==> (r matches TextReplacement::Selection(t) && t@
            == s.text.value@),
        !s.full_text.spec_dirty() && !s.selection.spec_dirty() && s.text.spec_dirty()
            && !s.is_text_selected ==> (r matches TextReplacement::Full(t) && t@
            == s.text.value@),
        !s.full_text.spec_dirty() && !s.selection.spec_dirty() && !s.text.spec_dirty() ==> r
            == TextReplacement::Unchanged,
{
}

/// A script that writes both `text` and `fullText` in one call, each to
/// something other than its seed, yields the full text it wrote, with or
/// without a selection.
pub proof fn lemma_full_text_over_text(
    full_text: Seq<char>,
    selection: Option<Seq<char>>,
    fresh: ExecutionStatus,
    new_text: String,
    new_full_text: String,
    r: TextReplacement,
)
    requires
        fresh.is_fresh(full_text, selection),
        new_full_text@ != full_text,
        new_text@ != text_seed(full_text, selection),
        (ExecutionStatus {
            text: DirtyText { seed: fresh.text.seed, value: new_text },
            full_text: DirtyText { seed: fresh.full_text.seed, value: new_full_text },
            ..fresh
        }).resolves_to(r),
    ensures
        r matches TextReplacement::Full(t) && t@ == new_full_text@,
{
}

/// Sources of this many UTF-8 bytes or more exceed the longest string the
/// scripting engine can hold, and are refused before compilation.
pub const SOURCE_LENGTH_LIMIT: usize = 536870889;

/// A thrown value, with the place in the source it came from when the
/// engine knows it.
#[derive(Clone, Debug, Default, PartialEq)]
pub struct JSException {
    pub exception_str: String,
    pub resource_name: Option<String>,
    pub source_line: Option<String>,
    pub line_number: Option<usize>,
    pub columns: Option<(usize, usize)>,
}

/// Where the engine says a thrown value came from.
#[derive(Clone, Debug, PartialEq)]
pub struct ExceptionMessage {
    pub resource_name: String,
    pub source_line: String,
    /// Counted from one.
    pub line_number: usize,
    pub start_column: usize,
    pub end_column: usize,
}

impl JSException {
    /// Either all four positional fields are present or none is.
    pub open spec fn well_formed(&self) -> bool {
        self.resource_name.is_some() == self.source_line.is_some()
            && self.source_line.is_some() == self.line_number.is_some()
            && self.line_number.is_some() == self.columns.is_some()
    }

    /// The exception for a thrown value whose string form is
    /// `exception_str`, placed by `message` when the engine gave one.
    pub fn from_caught(exception_str: String, message: Option<ExceptionMessage>) -> (r: JSException)
        ensures
            r.well_formed(),
            r.exception_str == exception_str,
            match message {
                Some(m) => r.resource_name == Some(m.resource_name) && r.source_line == Some(
                    m.source_line,
                ) && r.line_number == Some(m.line_number) && r.columns == Some(
                    (m.start_column, m.end_column),
                ),
                None => r.resource_name.is_none(),
            },
    {
        match message {
            Some(m) => JSException {
                exception_str,
                resource_name: Some(m.resource_name),
                source_line: Some(m.source_line),
                line_number: Some(m.line_number),
                columns: Some((m.start_column, m.end_column)),
            },
            None => JSException {
                exception_str,
                resource_name: None,
                source_line: None,
                line_number: None,
                columns: None,
            },
        }
    }
}

#[derive(Clone, Debug, PartialEq)]
pub enum ExecutorError {
    SourceExceedsMaxLength,
    Compile(JSException),
    Execute(JSException),
    NoMain,
}

/// The length in UTF-8 bytes that `str::len` reports.
pub open spec fn byte_len(s: &str) -> usize {
    s.spec_bytes().len() as usize
}

/// Refuses a source too long for the engine; nothing is compiled here.
pub fn check_source_length(source: &str) -> (r: Result<(), ExecutorError>)
    ensures
        r is Err <==> byte_len(source) >= SOURCE_LENGTH_LIMIT,
        r is Err ==> r == Err::<(), ExecutorError>(ExecutorError::SourceExceedsMaxLength),
{
    if source.len() >= SOURCE_LENGTH_LIMIT {
        Err(ExecutorError::SourceExceedsMaxLength)
    } else {
        Ok(())
    }
}

/// How setting up a script's context went, stage by stage, as the engine
/// reported it: the compile, the top-level run, the lookup of `main`.
#[derive(Clone, Debug, PartialEq)]
pub enum SetupStage {
    CompileFailed(JSException),
    RunFailed(JSException),
    MainMissing,
    Ready,
}

/// The outcome of setting up a context for `source`: too long a source is
/// refused before any stage runs; else the first failed stage decides.
pub open spec fn setup_outcome(source: &str, stage: SetupStage) -> Result<(), ExecutorError> {
    if byte_len(source) >= SOURCE_LENGTH_LIMIT {
        Err(ExecutorError::SourceExceedsMaxLength)
    } else {
        match stage {
            SetupStage::CompileFailed(e) => Err(ExecutorError::Compile(e)),
            SetupStage::RunFailed(e) => Err(ExecutorError::Execute(e)),
            SetupStage::MainMissing => Err(ExecutorError::NoMain),
            SetupStage::Ready => Ok(()),
        }
    }
}

/// An oversized source is refused as such, whatever compiling or running it
/// would have done: it never reaches the compiler, so it is never reported
/// as a compile error, a run error or a missing `main`.
pub proof fn lemma_oversized_source_refused(source: &str, stage: SetupStage)
    requires
        byte_len(source) >= SOURCE_LENGTH_LIMIT,
    ensures
        setup_outcome(source, stage) == Err::<(), ExecutorError>(
            ExecutorError::SourceExceedsMaxLength,
        ),
{
}

/// The outcome of setting up a context for `source`, given what the engine
/// reported for the stages after the length check.
pub fn setup_result(source: &str, stage: SetupStage) -> (r: Result<(), ExecutorError>)
    ensures
        r == setup_outcome(source, stage),
{
    match check_source_length(source) {
        Err(e) => Err(e),
        Ok(()) => match stage {
            SetupStage::CompileFailed(e) => Err(ExecutorError::Compile(e)),
            SetupStage::RunFailed(e) => Err(ExecutorError::Execute(e)),
            SetupStage::MainMissing => Err(ExecutorError::NoMain),
            SetupStage::Ready => Ok(()),
        },
    }
}

/// The notification text of an exception: its message, and where it was
/// thrown when both the line and the columns are known.
pub open spec fn exception_notification(e: JSException) -> Seq<char> {
    match (e.line_number, e.columns) {
        (Some(l), Some((a, b))) => "<span foreground=\"red\" weight=\"bold\">EXCEPTION:</span> "@
            + e.exception_str@ + " ("@ + decimal(l as nat) + ":"@ + decimal(a as nat) + " - "@
            + decimal(l as nat) + ":"@ + decimal(b as nat) + ")"@,
        _ => "<span foreground=\"red\" weight=\"bold\">EXCEPTION:</span> "@ + e.exception_str@,
    }
}

/// The notification text of an error.
pub open spec fn error_notification(e: ExecutorError) -> Seq<char> {
    match e {
        ExecutorError::SourceExceedsMaxLength =>
            "<span foreground=\"red\">ERROR:</span> Script exceeds max length"@,
        ExecutorError::Compile(x) => exception_notification(x),
        ExecutorError::Execute(x) => exception_notification(x),
        ExecutorError::NoMain => "<span foreground=\"red\">ERROR:</span> No main function"@,
    }
}

impl ExecutorError {
    pub fn format_exception(exception: JSException) -> (r: String)
        ensures
            r@ == exception_notification(exception),
    {
        let mut out = String::from_str("<span foreground=\"red\" weight=\"bold\">EXCEPTION:</span> ");
        out.append(exception.exception_str.as_str());
        match (exception.line_number, exception.columns) {
            (Some(l), Some((a, b))) => {
                out.append(" (");
                push_decimal(&mut out, l);
                out.append(":");
                push_decimal(&mut out, a);
                out.append(" - ");
                push_decimal(&mut out, l);
                out.append(":");
                push_decimal(&mut out, b);
                out.append(")");
            },
            _ => {},
        }
        out
    }

    pub fn into_notification_string(self) -> (r: String)
        ensures
            r@ == error_notification(self),
    {
        match self {
            ExecutorError::SourceExceedsMaxLength => String::from_str(
                "<span foreground=\"red\">ERROR:</span> Script exceeds max length",
            ),
            ExecutorError::Compile(exception) => ExecutorError::format_exception(exception),
            ExecutorError::Execute(exception) => ExecutorError::format_exception(exception),
            ExecutorError::NoMain => String::from_str(
                "<span foreground=\"red\">ERROR:</span> No main function",
            ),
        }
    }
}

} // verus!
