//! Acquisition orchestrator.
//!
//! The orchestrator sequences the components into a fallback chain. The
//! accessibility query comes first, because it touches nothing. Only when it
//! yields no text is the clipboard used: its payload is captured, the focused
//! application is made to copy, the copied text is read, and the captured
//! payload is written back, whatever happened in between. Every path ends with
//! a result that collapses to a plain string.

use crate::accessibility::AccessError;
use crate::clipboard::{restore, ClipboardSnapshot, Payload, RestoreOp};
use crate::focus::{focus_owner, resolve_focus, ProcessId};
use crate::text::{trim, trimmed};
use vstd::prelude::*;

verus! {

/// Why an acquisition yields no text.
#[derive(Debug, Clone, Copy, PartialEq, Eq, Structural)]
pub enum FailureReason {
    NoFocusedElement,
    NoSelection,
    ClipboardReadFailure,
    ClipboardWriteFailure,
    CopyNotDetected,
    SubprocessFailure,
}

impl FailureReason {
    /// The reason that a failed query is reported under.
    pub open spec fn of_access_error(error: AccessError) -> FailureReason {
        match error {
            AccessError::NoFocusedElement => FailureReason::NoFocusedElement,
            AccessError::NoSelection => FailureReason::NoSelection,
        }
    }

    /// The reason that a failed query is reported under.
    pub fn from_access_error(error: AccessError) -> (reason: FailureReason)
        ensures
            reason == FailureReason::of_access_error(error),
    {
        match error {
            AccessError::NoFocusedElement => FailureReason::NoFocusedElement,
            AccessError::NoSelection => FailureReason::NoSelection,
        }
    }
}

/// How an acquisition ended. `Text` holds text that is not empty.
#[derive(Debug, PartialEq, Eq)]
pub enum AcquisitionResult {
    Text(String),
    Empty,
    Failure(FailureReason),
}

/// What an [`AcquisitionResult`] stands for.
pub enum Outcome {
    Text(Seq<char>),
    Empty,
    Failure(FailureReason),
}

impl Outcome {
    /// The outcome of having obtained `text`: empty text is no text.
    pub open spec fn of_text(text: Seq<char>) -> Outcome {
        if text.len() == 0 {
            Outcome::Empty
        } else {
            Outcome::Text(text)
        }
    }

    /// `Text` never holds empty text.
    pub open spec fn well_formed(self) -> bool {
        self matches Outcome::Text(text) ==> text.len() > 0
    }

    /// The string that the caller sees: the text, or the empty string for
    /// every other outcome.
    pub open spec fn text(self) -> Seq<char> {
        match self {
            Outcome::Text(text) => text,
            _ => Seq::empty(),
        }
    }
}

impl View for AcquisitionResult {
    type V = Outcome;

    open spec fn view(&self) -> Outcome {
        match self {
            AcquisitionResult::Text(text) => Outcome::Text(text@),
            AcquisitionResult::Empty => Outcome::Empty,
            AcquisitionResult::Failure(reason) => Outcome::Failure(*reason),
        }
    }
}

impl AcquisitionResult {
    /// The result of having obtained `text`.
    pub fn from_text(text: String) -> (result: AcquisitionResult)
        ensures
            result@ == Outcome::of_text(text@),
            result@.well_formed(),
    {
        if text.as_str().is_empty() {
            AcquisitionResult::Empty
        } else {
            AcquisitionResult::Text(text)
        }
    }

    /// Collapses the result to the string that the caller sees. A failure and
    /// an empty selection both give the empty string.
    pub fn into_text(self) -> (text: String)
        ensures
            text@ == self@.text(),
    {
        match self {
            AcquisitionResult::Text(text) => text,
            _ => String::new(),
        }
    }
}

/// One thing that the host does for the orchestrator.
#[derive(Debug, PartialEq, Eq)]
pub enum Action {
    /// Report the frontmost application's process, if there is one, and the
    /// calling process.
    ResolveFocus,
    /// Run the accessibility query on the process and report its result.
    QuerySelection { pid: ProcessId },
    /// Run the snapshot probe and report the snapshot.
    TakeSnapshot,
    /// Run the copy trigger and report whether a copy was detected.
    ForceCopy,
    /// Read the clipboard's text and report it.
    ReadNewText,
    /// Perform the write and report whether it succeeded.
    Restore(RestoreOp),
}

/// What an [`Action`] stands for.
pub enum Request {
    ResolveFocus,
    QuerySelection { pid: ProcessId },
    TakeSnapshot,
    ForceCopy,
    ReadNewText,
    /// Write the payload to the clipboard.
    Restore(Payload),
}

impl View for Action {
    type V = Request;

    open spec fn view(&self) -> Request {
        match self {
            Action::ResolveFocus => Request::ResolveFocus,
            Action::QuerySelection { pid } => Request::QuerySelection { pid: *pid },
            Action::TakeSnapshot => Request::TakeSnapshot,
            Action::ForceCopy => Request::ForceCopy,
            Action::ReadNewText => Request::ReadNewText,
            Action::Restore(op) => Request::Restore(op@),
        }
    }
}

impl Request {
    /// Whether the request reads or writes the clipboard, or makes another
    /// application write it.
    pub open spec fn touches_clipboard(self) -> bool {
        self is TakeSnapshot || self is ForceCopy || self is ReadNewText || self is Restore
    }

    /// Whether the request changes what the clipboard holds, by itself or
    /// through the focused application.
    pub open spec fn mutates_clipboard(self) -> bool {
        self is ForceCopy || self is Restore
    }
}

/// What the host reports to the orchestrator.
#[derive(Debug, PartialEq, Eq)]
pub enum Event {
    Begin,
    /// The frontmost application's process, if there is one, and the calling
    /// process.
    Focus { frontmost: Option<ProcessId>, current: ProcessId },
    /// The result of the accessibility query.
    Selection(Result<String, AccessError>),
    /// The snapshot that the probe ended with.
    Snapshot(ClipboardSnapshot),
    /// Whether the copy trigger detected a copy.
    Copied(bool),
    /// The clipboard's text; `None` when it holds none or cannot be read.
    NewText(Option<String>),
    /// Whether the write succeeded.
    Restored(bool),
}

/// What an [`Event`] stands for.
pub enum Signal {
    Begin,
    Focus { frontmost: Option<ProcessId>, current: ProcessId },
    Selection(Result<Seq<char>, AccessError>),
    Snapshot(Payload),
    Copied(bool),
    NewText(Option<Seq<char>>),
    Restored(bool),
}

impl View for Event {
    type V = Signal;

    open spec fn view(&self) -> Signal {
        match self {
            Event::Begin => Signal::Begin,
            Event::Focus { frontmost, current } => Signal::Focus {
                frontmost: *frontmost,
                current: *current,
            },
            Event::Selection(Ok(text)) => Signal::Selection(Ok(text@)),
            Event::Selection(Err(error)) => Signal::Selection(Err(*error)),
            Event::Snapshot(snapshot) => Signal::Snapshot(snapshot@),
            Event::Copied(detected) => Signal::Copied(*detected),
            Event::NewText(Some(text)) => Signal::NewText(Some(text@)),
            Event::NewText(None) => Signal::NewText(None),
            Event::Restored(written) => Signal::Restored(*written),
        }
    }
}

/// Where an acquisition stands.
#[derive(Debug, PartialEq, Eq)]
pub enum Acquisition {
    /// Nothing has been asked for yet.
    Start,
    /// The focus owner has been asked for.
    AwaitFocus,
    /// The accessibility query has been asked for. The clipboard is untouched.
    TryAccessibility,
    /// The fallback has begun: the snapshot has been asked for. The clipboard
    /// is untouched.
    AwaitSnapshot,
    /// The copy has been asked for. The snapshot is owed to the clipboard.
    AwaitCopy { snapshot: ClipboardSnapshot },
    /// The copied text has been asked for. The snapshot is owed to the
    /// clipboard.
    AwaitNewText { snapshot: ClipboardSnapshot },
    /// The snapshot's write has been asked for; `outcome` is how the
    /// acquisition ends if the write succeeds.
    AwaitRestore { outcome: AcquisitionResult },
}

/// What an [`Acquisition`] stands for.
pub enum Stage {
    Start,
    AwaitFocus,
    TryAccessibility,
    AwaitSnapshot,
    AwaitCopy { snapshot: Payload },
    AwaitNewText { snapshot: Payload },
    AwaitRestore { outcome: Outcome },
}

impl View for Acquisition {
    type V = Stage;

    open spec fn view(&self) -> Stage {
        match self {
            Acquisition::Start => Stage::Start,
            Acquisition::AwaitFocus => Stage::AwaitFocus,
            Acquisition::TryAccessibility => Stage::TryAccessibility,
            Acquisition::AwaitSnapshot => Stage::AwaitSnapshot,
            Acquisition::AwaitCopy { snapshot } => Stage::AwaitCopy { snapshot: snapshot@ },
            Acquisition::AwaitNewText { snapshot } => Stage::AwaitNewText { snapshot: snapshot@ },
            Acquisition::AwaitRestore { outcome } => Stage::AwaitRestore { outcome: outcome@ },
        }
    }
}

impl Stage {
    /// The payload that is owed to the clipboard: the snapshot that has been
    /// taken and not yet handed out for writing.
    pub open spec fn owes(self) -> Option<Payload> {
        match self {
            Stage::AwaitCopy { snapshot } => Some(snapshot),
            Stage::AwaitNewText { snapshot } => Some(snapshot),
            _ => None,
        }
    }

    /// Every result held is well formed.
    pub open spec fn well_formed(self) -> bool {
        self matches Stage::AwaitRestore { outcome } ==> outcome.well_formed()
    }
}

/// The orchestrator's answer to an event: one more action, or the result.
#[derive(Debug, PartialEq, Eq)]
pub enum Step {
    Perform(Acquisition, Action),
    Done(AcquisitionResult),
}

/// What a [`Step`] stands for.
pub enum Move {
    Perform(Stage, Request),
    Done(Outcome),
}

impl View for Step {
    type V = Move;

    open spec fn view(&self) -> Move {
        match self {
            Step::Perform(state, action) => Move::Perform(state@, action@),
            Step::Done(result) => Move::Done(result@),
        }
    }
}

/// How the acquisition ends once the copied text has been read, provided the
/// snapshot can be written back: the text is trimmed, and text that is empty
/// after trimming is no text.
pub open spec fn outcome_of_new_text(signal: Signal) -> Outcome {
    match signal {
        Signal::NewText(Some(text)) => Outcome::of_text(trimmed(text)),
        _ => Outcome::Failure(FailureReason::ClipboardReadFailure),
    }
}

/// The orchestrator's transition relation.
///
/// Text from the accessibility query ends the acquisition at once, unless it
/// is empty. Everything else leads into the fallback. A stage that owes a
/// snapshot to the clipboard can only be left through the write that puts it
/// back. A write that failed overrules the outcome reached before it. An
/// event that does not answer the pending action counts as that action
/// having failed.
pub open spec fn acquisition_move(stage: Stage, signal: Signal) -> Move {
    match stage {
        Stage::Start => Move::Perform(Stage::AwaitFocus, Request::ResolveFocus),
        Stage::AwaitFocus => match signal {
            Signal::Focus { frontmost, current } => Move::Perform(
                Stage::TryAccessibility,
                Request::QuerySelection { pid: focus_owner(frontmost, current) },
            ),
            _ => Move::Perform(Stage::AwaitSnapshot, Request::TakeSnapshot),
        },
        Stage::TryAccessibility => match signal {
            Signal::Selection(Ok(text)) if text.len() > 0 => Move::Done(Outcome::Text(text)),
            _ => Move::Perform(Stage::AwaitSnapshot, Request::TakeSnapshot),
        },
        Stage::AwaitSnapshot => match signal {
            Signal::Snapshot(snapshot) => Move::Perform(
                Stage::AwaitCopy { snapshot },
                Request::ForceCopy,
            ),
            _ => Move::Done(Outcome::Failure(FailureReason::ClipboardReadFailure)),
        },
        Stage::AwaitCopy { snapshot } => match signal {
            Signal::Copied(true) => Move::Perform(
                Stage::AwaitNewText { snapshot },
                Request::ReadNewText,
            ),
            _ => Move::Perform(
                Stage::AwaitRestore { outcome: Outcome::Failure(FailureReason::CopyNotDetected) },
                Request::Restore(snapshot),
            ),
        },
        Stage::AwaitNewText { snapshot } => Move::Perform(
            Stage::AwaitRestore { outcome: outcome_of_new_text(signal) },
            Request::Restore(snapshot),
        ),
        Stage::AwaitRestore { outcome } => match signal {
            Signal::Restored(true) => Move::Done(outcome),
            _ => Move::Done(Outcome::Failure(FailureReason::ClipboardWriteFailure)),
        },
    }
}

/// How the acquisition ends once the copied text has been read.
fn result_of_new_text(event: Event) -> (result: AcquisitionResult)
    ensures
        result@ == outcome_of_new_text(event@),
        result@.well_formed(),
{
    match event {
        Event::NewText(Some(text)) => AcquisitionResult::from_text(trim(text.as_str())),
        _ => AcquisitionResult::Failure(FailureReason::ClipboardReadFailure),
    }
}

/// Advances the acquisition of the selected text by one event.
///
/// An acquisition begins with [`Acquisition::Start`] and [`Event::Begin`].
/// The host performs the action that comes back and calls again with what
/// happened, until the result comes back;
/// [`into_text`](AcquisitionResult::into_text) turns it into the selected
/// text.
pub fn get_text(state: Acquisition, event: Event) -> (step: Step)
    ensures
        step@ == acquisition_move(state@, event@),
        state@.well_formed() ==> (match step@ {
            Move::Perform(next, _) => next.well_formed(),
            Move::Done(outcome) => outcome.well_formed(),
        }),
{
    match state {
        Acquisition::Start => Step::Perform(Acquisition::AwaitFocus, Action::ResolveFocus),
        Acquisition::AwaitFocus => match event {
            Event::Focus { frontmost, current } => Step::Perform(
                Acquisition::TryAccessibility,
                Action::QuerySelection { pid: resolve_focus(frontmost, current) },
            ),
            _ => Step::Perform(Acquisition::AwaitSnapshot, Action::TakeSnapshot),
        },
        Acquisition::TryAccessibility => match event {
            Event::Selection(Ok(text)) => {
                if text.as_str().is_empty() {
                    Step::Perform(Acquisition::AwaitSnapshot, Action::TakeSnapshot)
                } else {
                    Step::Done(AcquisitionResult::Text(text))
                }
            },
            _ => Step::Perform(Acquisition::AwaitSnapshot, Action::TakeSnapshot),
        },
        Acquisition::AwaitSnapshot => match event {
            Event::Snapshot(snapshot) => Step::Perform(
                Acquisition::AwaitCopy { snapshot },
                Action::ForceCopy,
            ),
            _ => Step::Done(AcquisitionResult::Failure(FailureReason::ClipboardReadFailure)),
        },
        Acquisition::AwaitCopy { snapshot } => match event {
            Event::Copied(true) => Step::Perform(
                Acquisition::AwaitNewText { snapshot },
                Action::ReadNewText,
            ),
            _ => Step::Perform(
                Acquisition::AwaitRestore {
                    outcome: AcquisitionResult::Failure(FailureReason::CopyNotDetected),
                },
                Action::Restore(restore(snapshot)),
            ),
        },
        Acquisition::AwaitNewText { snapshot } => Step::Perform(
            Acquisition::AwaitRestore { outcome: result_of_new_text(event) },
            Action::Restore(restore(snapshot)),
        ),
        Acquisition::AwaitRestore { outcome } => match event {
            Event::Restored(true) => Step::Done(outcome),
            _ => Step::Done(AcquisitionResult::Failure(FailureReason::ClipboardWriteFailure)),
        },
    }
}

/// Text from the accessibility query that is not empty is the result, exactly
/// as it came, and ends the acquisition: no clipboard action follows it.
pub proof fn accessibility_text_ends_the_acquisition(text: Seq<char>)
    requires
        text.len() > 0,
    ensures
        acquisition_move(Stage::TryAccessibility, Signal::Selection(Ok(text))) == Move::Done(
            Outcome::Text(text),
        ),
{
}

/// Up to the accessibility query nothing touches the clipboard, and nothing
/// is owed to it.
pub proof fn clipboard_is_untouched_before_the_fallback(stage: Stage, signal: Signal)
    requires
        stage is Start || stage is AwaitFocus || stage is TryAccessibility,
    ensures
        stage.owes() is None,
        match acquisition_move(stage, signal) {
            Move::Perform(next, request) => {
                &&& next.owes() is None
                &&& !request.mutates_clipboard()
                &&& request.touches_clipboard() ==> next is AwaitSnapshot
            },
            Move::Done(_) => true,
        },
{
}

/// A snapshot, once taken, is owed to the clipboard until it is handed out
/// for writing. This holds of every stage and of every event:
///
/// - the focused application is made to copy only in exchange for a snapshot,
///   which is then owed;
/// - a stage that owes a snapshot either keeps owing the same snapshot or
///   hands out the write of exactly that snapshot;
/// - no write is handed out by a stage that owes nothing;
/// - the acquisition never ends while a snapshot is owed.
///
/// So on every path the clipboard is changed only between the snapshot and
/// its write, and the write is handed out exactly once, whatever the host
/// reports.
pub proof fn snapshot_is_owed_until_restored(stage: Stage, signal: Signal)
    ensures
        match acquisition_move(stage, signal) {
            Move::Perform(next, request) => {
                &&& request is ForceCopy <==> signal is Snapshot && stage is AwaitSnapshot
                &&& request is ForceCopy ==> next.owes() == Some(signal->Snapshot_0)
                &&& stage.owes() is Some ==> if request is Restore {
                    request->Restore_0 == stage.owes()->Some_0 && next.owes() is None
                } else {
                    next.owes() == stage.owes()
                }
                &&& stage.owes() is None ==> !(request is Restore)
                &&& stage.owes() is None && next.owes() is Some ==> request is ForceCopy
                &&& request is ReadNewText ==> stage.owes() is Some
            },
            Move::Done(_) => stage.owes() is None,
        },
{
}

/// A write that fails overrules whatever was reached before it, and a copy
/// that was not detected yields no text: either way the caller sees the
/// empty string.
pub proof fn failures_collapse_to_the_empty_string(stage: Stage, signal: Signal)
    ensures
        stage is AwaitCopy && signal != Signal::Copied(true) ==> (acquisition_move(
            stage,
            signal,
        ) matches Move::Perform(Stage::AwaitRestore { outcome }, _) && outcome.text().len() == 0),
        stage is AwaitRestore && signal != Signal::Restored(true) ==> (acquisition_move(
            stage,
            signal,
        ) matches Move::Done(outcome) && outcome.text().len() == 0),
{
}

} // verus!
