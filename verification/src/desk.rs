//! A desk: what surrounds one acquisition, and what holds of acquisitions
//! that run on it.
//!
//! The desk is a model for proofs. It answers every action the way a host does
//! that performs it faithfully: the accessibility query through the query's
//! own machine, the snapshot through the probe, the copy through the copy
//! trigger. What is proved of it is proved of the orchestrator and of the
//! components together.

use crate::accessibility::{
    query_follows_protocol, query_run, AccessError, Introspection, QuerySignal, QueryState,
};
use crate::clipboard::{probe_result, snapshot_captures_payload, text_read, Payload};
use crate::copy_trigger::{
    copy_detected_iff_counter_changed, copy_run, ChangeCount, CopyEvent, CopyState,
};
use crate::focus::{focus_owner, ProcessId};
use crate::orchestrator::{
    acquisition_move, FailureReason, Move, Outcome, Request, Signal, Stage,
};
use crate::text::trimmed;
use vstd::prelude::*;

verus! {

/// The focused application and the clipboard, as one acquisition meets them.
pub struct Desk {
    /// The frontmost application's process, if there is one.
    pub frontmost: Option<ProcessId>,
    /// The calling process.
    pub current: ProcessId,
    /// What the introspection service answers for the focused application.
    pub service: Introspection,
    /// What the focused application writes to the clipboard when the copy
    /// chord reaches it; `None` if it ignores the chord.
    pub copies: Option<Payload>,
    /// What the clipboard holds.
    pub clipboard: Payload,
    /// The clipboard's change counter.
    pub change_count: ChangeCount,
}

/// The counter after one more write: a value that differs from `count`.
pub open spec fn next_count(count: ChangeCount) -> ChangeCount {
    if count < i64::MAX {
        (count + 1) as ChangeCount
    } else {
        i64::MIN
    }
}

impl Desk {
    /// The desk after `payload` has been written to the clipboard.
    pub open spec fn written(self, payload: Payload) -> Desk {
        Desk { clipboard: payload, change_count: next_count(self.change_count), ..self }
    }

    /// The desk after the copy chord has reached the focused application.
    pub open spec fn after_chord(self) -> Desk {
        match self.copies {
            Some(payload) => self.written(payload),
            None => self,
        }
    }

    /// What the accessibility query yields on this desk.
    pub open spec fn selection(self, pid: ProcessId) -> Result<Seq<char>, AccessError> {
        query_run(QueryState::Start { pid }, QuerySignal::Begin, self.service, 6).1
    }

    /// Whether the copy trigger detects a copy on this desk.
    pub open spec fn copy_detected(self) -> bool {
        copy_run(
            CopyState::Start,
            CopyEvent::Begin,
            self.change_count,
            self.after_chord().change_count,
            15,
        ).1
    }

    /// The desk after a host has performed `request` on it, and what that
    /// host reports.
    pub open spec fn reply(self, request: Request) -> (Desk, Signal) {
        match request {
            Request::ResolveFocus => (
                self,
                Signal::Focus { frontmost: self.frontmost, current: self.current },
            ),
            Request::QuerySelection { pid } => (self, Signal::Selection(self.selection(pid))),
            Request::TakeSnapshot => (self, Signal::Snapshot(probe_result(self.clipboard))),
            Request::ForceCopy => (self.after_chord(), Signal::Copied(self.copy_detected())),
            Request::ReadNewText => (self, Signal::NewText(text_read(self.clipboard))),
            Request::Restore(payload) => (self.written(payload), Signal::Restored(true)),
        }
    }

    /// Whether the accessibility query yields text that can be used.
    pub open spec fn has_accessible_text(self) -> bool {
        self.service.selection() matches Ok(text) && text.len() > 0
    }

    /// How an acquisition on this desk is meant to end.
    pub open spec fn expected_outcome(self) -> Outcome {
        if self.has_accessible_text() {
            Outcome::Text(self.service.selection()->Ok_0)
        } else {
            match self.copies {
                None => Outcome::Failure(FailureReason::CopyNotDetected),
                Some(Payload::Text(text)) => Outcome::of_text(trimmed(text)),
                Some(_) => Outcome::Failure(FailureReason::ClipboardReadFailure),
            }
        }
    }

    /// What an acquisition on this desk is meant to ask for, in order.
    pub open spec fn expected_requests(self) -> Seq<Request> {
        let query = seq![
            Request::ResolveFocus,
            Request::QuerySelection { pid: focus_owner(self.frontmost, self.current) },
        ];
        if self.has_accessible_text() {
            query
        } else if self.copies is None {
            query + seq![
                Request::TakeSnapshot,
                Request::ForceCopy,
                Request::Restore(self.clipboard),
            ]
        } else {
            query + seq![
                Request::TakeSnapshot,
                Request::ForceCopy,
                Request::ReadNewText,
                Request::Restore(self.clipboard),
            ]
        }
    }
}

/// One acquisition as it ran: the desk it left, how it ended, and what it
/// asked for.
pub struct Run {
    pub desk: Desk,
    pub outcome: Outcome,
    pub requests: Seq<Request>,
}

impl Run {
    /// The string that the caller sees.
    pub open spec fn text(self) -> Seq<char> {
        self.outcome.text()
    }

    /// Whether the run reached the clipboard fallback.
    pub open spec fn reached_fallback(self) -> bool {
        exists|i: int| 0 <= i < self.requests.len() && #[trigger] self.requests[i] is TakeSnapshot
    }
}

/// The acquisition from `stage` on, on `desk`, within `fuel` steps.
pub open spec fn acquire_from(desk: Desk, stage: Stage, signal: Signal, fuel: nat) -> Run
    decreases fuel,
{
    if fuel == 0 {
        Run {
            desk,
            outcome: Outcome::Failure(FailureReason::ClipboardWriteFailure),
            requests: Seq::empty(),
        }
    } else {
        match acquisition_move(stage, signal) {
            Move::Done(outcome) => Run { desk, outcome, requests: Seq::empty() },
            Move::Perform(next, request) => {
                let answered = desk.reply(request);
                let rest = acquire_from(answered.0, next, answered.1, (fuel - 1) as nat);
                Run { requests: seq![request] + rest.requests, ..rest }
            },
        }
    }
}

/// One whole acquisition on `desk`.
pub open spec fn acquire(desk: Desk) -> Run {
    acquire_from(desk, Stage::Start, Signal::Begin, 8)
}

impl Desk {
    /// How the fallback ends on this desk, once the snapshot has been taken.
    pub open spec fn fallback_outcome(self) -> Outcome {
        match self.copies {
            None => Outcome::Failure(FailureReason::CopyNotDetected),
            Some(Payload::Text(text)) => Outcome::of_text(trimmed(text)),
            Some(_) => Outcome::Failure(FailureReason::ClipboardReadFailure),
        }
    }

    /// What the fallback asks for on this desk, once it holds `snapshot`.
    pub open spec fn fallback_requests(self, snapshot: Payload) -> Seq<Request> {
        if self.copies is None {
            seq![Request::ForceCopy, Request::Restore(snapshot)]
        } else {
            seq![Request::ForceCopy, Request::ReadNewText, Request::Restore(snapshot)]
        }
    }
}

proof fn restore_ends_the_run(desk: Desk, outcome: Outcome, snapshot: Payload, fuel: nat)
    requires
        fuel >= 1,
    ensures
        acquire_from(
            desk.written(snapshot),
            Stage::AwaitRestore { outcome },
            Signal::Restored(true),
            fuel,
        ) == (Run { desk: desk.written(snapshot), outcome, requests: Seq::empty() }),
{
}

proof fn new_text_is_followed_by_restore(desk: Desk, snapshot: Payload, fuel: nat)
    requires
        fuel >= 2,
    ensures
        acquire_from(
            desk,
            Stage::AwaitNewText { snapshot },
            Signal::NewText(text_read(desk.clipboard)),
            fuel,
        ) == (Run {
            desk: desk.written(snapshot),
            outcome: crate::orchestrator::outcome_of_new_text(
                Signal::NewText(text_read(desk.clipboard)),
            ),
            requests: seq![Request::Restore(snapshot)],
        }),
{
    let signal = Signal::NewText(text_read(desk.clipboard));
    let outcome = crate::orchestrator::outcome_of_new_text(signal);
    restore_ends_the_run(desk, outcome, snapshot, (fuel - 1) as nat);
    let run = acquire_from(desk, Stage::AwaitNewText { snapshot }, signal, fuel);
    assert(acquisition_move(Stage::AwaitNewText { snapshot }, signal) == Move::Perform(
        Stage::AwaitRestore { outcome },
        Request::Restore(snapshot),
    ));
    assert(desk.reply(Request::Restore(snapshot)) == (
        desk.written(snapshot),
        Signal::Restored(true),
    ));
    assert(run.requests =~= seq![Request::Restore(snapshot)]);
}

proof fn fallback_runs_as_expected(desk: Desk, snapshot: Payload, fuel: nat)
    requires
        fuel >= 4,
    ensures
        acquire_from(desk, Stage::AwaitSnapshot, Signal::Snapshot(snapshot), fuel) == (Run {
            desk: desk.after_chord().written(snapshot),
            outcome: desk.fallback_outcome(),
            requests: desk.fallback_requests(snapshot),
        }),
{
    copy_detected_iff_counter_changed(desk.change_count, desk.after_chord().change_count);
    let detected = desk.copy_detected();
    assert(detected == (desk.copies is Some));
    let copied = desk.after_chord();
    let holding = Stage::AwaitCopy { snapshot };
    assert(acquisition_move(Stage::AwaitSnapshot, Signal::Snapshot(snapshot)) == Move::Perform(
        holding,
        Request::ForceCopy,
    ));
    assert(desk.reply(Request::ForceCopy) == (copied, Signal::Copied(detected)));
    let after_copy = acquire_from(copied, holding, Signal::Copied(detected), (fuel - 1) as nat);
    let run = acquire_from(desk, Stage::AwaitSnapshot, Signal::Snapshot(snapshot), fuel);
    assert(run == (Run { requests: seq![Request::ForceCopy] + after_copy.requests, ..after_copy }));
    if detected {
        let reading = Signal::NewText(text_read(copied.clipboard));
        assert(acquisition_move(holding, Signal::Copied(true)) == Move::Perform(
            Stage::AwaitNewText { snapshot },
            Request::ReadNewText,
        ));
        assert(copied.reply(Request::ReadNewText) == (copied, reading));
        new_text_is_followed_by_restore(copied, snapshot, (fuel - 2) as nat);
        let after_read = acquire_from(
            copied,
            Stage::AwaitNewText { snapshot },
            reading,
            (fuel - 2) as nat,
        );
        assert(after_copy == (Run {
            requests: seq![Request::ReadNewText] + after_read.requests,
            ..after_read
        }));
        assert(run.requests =~= desk.fallback_requests(snapshot));
        assert(run.outcome == desk.fallback_outcome());
    } else {
        let outcome = Outcome::Failure(FailureReason::CopyNotDetected);
        assert(acquisition_move(holding, Signal::Copied(false)) == Move::Perform(
            Stage::AwaitRestore { outcome },
            Request::Restore(snapshot),
        ));
        assert(copied.reply(Request::Restore(snapshot)) == (
            copied.written(snapshot),
            Signal::Restored(true),
        ));
        restore_ends_the_run(copied, outcome, snapshot, (fuel - 2) as nat);
        let after_write = acquire_from(
            copied.written(snapshot),
            Stage::AwaitRestore { outcome },
            Signal::Restored(true),
            (fuel - 2) as nat,
        );
        assert(after_copy == (Run {
            requests: seq![Request::Restore(snapshot)] + after_write.requests,
            ..after_write
        }));
        assert(run.requests =~= desk.fallback_requests(snapshot));
    }
}

/// An acquisition on a desk ends as it is meant to, asks for what it is meant
/// to and for nothing else, and leaves the desk as it found it, but for the
/// change counter.
pub proof fn acquisition_runs_as_expected(desk: Desk)
    ensures
        acquire(desk).outcome == desk.expected_outcome(),
        acquire(desk).requests == desk.expected_requests(),
        acquire(desk).desk == (Desk { change_count: acquire(desk).desk.change_count, ..desk }),
        desk.has_accessible_text() ==> acquire(desk).desk == desk,
{
    let pid = focus_owner(desk.frontmost, desk.current);
    query_follows_protocol(pid, desk.service);
    snapshot_captures_payload(desk.clipboard);
    assert(desk.selection(pid) == desk.service.selection());
    assert(probe_result(desk.clipboard) == desk.clipboard);
    let focus = Signal::Focus { frontmost: desk.frontmost, current: desk.current };
    let selection = Signal::Selection(desk.service.selection());
    let query = Request::QuerySelection { pid };
    assert(acquisition_move(Stage::Start, Signal::Begin) == Move::Perform(
        Stage::AwaitFocus,
        Request::ResolveFocus,
    ));
    assert(desk.reply(Request::ResolveFocus) == (desk, focus));
    assert(acquisition_move(Stage::AwaitFocus, focus) == Move::Perform(
        Stage::TryAccessibility,
        query,
    ));
    assert(desk.reply(query) == (desk, selection));
    let run = acquire(desk);
    let after_focus = acquire_from(desk, Stage::AwaitFocus, focus, 7);
    let after_query = acquire_from(desk, Stage::TryAccessibility, selection, 6);
    assert(run == (Run {
        requests: seq![Request::ResolveFocus] + after_focus.requests,
        ..after_focus
    }));
    assert(after_focus == (Run { requests: seq![query] + after_query.requests, ..after_query }));
    if desk.has_accessible_text() {
        assert(after_query == (Run {
            desk,
            outcome: Outcome::Text(desk.service.selection()->Ok_0),
            requests: Seq::empty(),
        }));
        assert(run.requests =~= desk.expected_requests());
    } else {
        let snapshot = Signal::Snapshot(desk.clipboard);
        assert(acquisition_move(Stage::TryAccessibility, selection) == Move::Perform(
            Stage::AwaitSnapshot,
            Request::TakeSnapshot,
        ));
        assert(desk.reply(Request::TakeSnapshot) == (desk, snapshot));
        fallback_runs_as_expected(desk, desk.clipboard, 5);
        let fallback = acquire_from(desk, Stage::AwaitSnapshot, snapshot, 5);
        assert(after_query == (Run {
            requests: seq![Request::TakeSnapshot] + fallback.requests,
            ..fallback
        }));
        assert(run.requests =~= desk.expected_requests());
    }
}

/// Where the accessibility query yields text that is not empty, the result is
/// exactly that text, nothing that was asked for touches the clipboard, and
/// the desk is left as it was found.
pub proof fn accessible_text_is_returned_untouched(desk: Desk)
    requires
        desk.has_accessible_text(),
    ensures
        acquire(desk).text() == desk.service.selection()->Ok_0,
        !acquire(desk).reached_fallback(),
        forall|i: int|
            0 <= i < acquire(desk).requests.len() ==> !(
            #[trigger] acquire(desk).requests[i]).touches_clipboard(),
        acquire(desk).desk == desk,
{
    acquisition_runs_as_expected(desk);
}

/// Whatever the clipboard holds before an acquisition, text, an image or
/// nothing, it holds the same afterwards. Where the fallback was reached, the
/// write that puts the payload back is the last thing asked for, and the only
/// write.
pub proof fn clipboard_is_restored(desk: Desk)
    ensures
        acquire(desk).desk.clipboard == desk.clipboard,
        acquire(desk).reached_fallback() <==> !desk.has_accessible_text(),
        acquire(desk).reached_fallback() ==> {
            let requests = acquire(desk).requests;
            &&& requests.last() == Request::Restore(desk.clipboard)
            &&& forall|i: int|
                0 <= i < requests.len() - 1 ==> !(#[trigger] requests[i] is Restore)
        },
{
    acquisition_runs_as_expected(desk);
    let requests = acquire(desk).requests;
    if !desk.has_accessible_text() {
        assert(requests[2] is TakeSnapshot);
    }
}

/// Where the accessibility query yields nothing and the focused application
/// ignores the copy chord, so that the change counter stays as it was, the
/// caller sees the empty string, and the clipboard is written back all the
/// same.
pub proof fn undetected_copy_yields_nothing(desk: Desk)
    requires
        !desk.has_accessible_text(),
        desk.copies is None,
    ensures
        !desk.copy_detected(),
        acquire(desk).text() == Seq::<char>::empty(),
        acquire(desk).requests.last() == Request::Restore(desk.clipboard),
        acquire(desk).desk.clipboard == desk.clipboard,
{
    acquisition_runs_as_expected(desk);
    copy_detected_iff_counter_changed(desk.change_count, desk.after_chord().change_count);
}

/// Acquiring twice in a row, with the selection unchanged in between, gives
/// the same string both times, and the clipboard holds after the second
/// acquisition what it held before the first.
pub proof fn acquisition_is_idempotent(desk: Desk)
    ensures
        acquire(acquire(desk).desk).text() == acquire(desk).text(),
        acquire(acquire(desk).desk).outcome == acquire(desk).outcome,
        acquire(acquire(desk).desk).desk.clipboard == desk.clipboard,
{
    acquisition_runs_as_expected(desk);
    acquisition_runs_as_expected(acquire(desk).desk);
}

/// Every acquisition on a desk ends with a well-formed result: text that is
/// reported is never empty.
pub proof fn acquired_text_is_never_empty(desk: Desk)
    ensures
        acquire(desk).outcome.well_formed(),
{
    acquisition_runs_as_expected(desk);
}

} // verus!
