//! Runs of the orchestrator under any host.
//!
//! Nothing is assumed here of what the host reports: reads may fail, writes
//! may fail, events may come that answer nothing. What is proved holds of
//! every sequence of events.

use crate::clipboard::Payload;
use crate::orchestrator::{acquisition_move, Move, Outcome, Request, Signal, Stage};
use vstd::prelude::*;

verus! {

/// What the orchestrator asked for while the host reported some events, and
/// how the acquisition ended, if it did.
pub struct Trace {
    pub requests: Seq<Request>,
    pub outcome: Option<Outcome>,
}

/// The trace of the events `signals`, reported one after the other from
/// `stage` on. The request at an index is the answer to the event at that
/// index. Events that come after the end are not looked at.
pub open spec fn trace_from(stage: Stage, signals: Seq<Signal>) -> Trace
    decreases signals.len(),
{
    if signals.len() == 0 {
        Trace { requests: Seq::empty(), outcome: None }
    } else {
        match acquisition_move(stage, signals.first()) {
            Move::Done(outcome) => Trace { requests: Seq::empty(), outcome: Some(outcome) },
            Move::Perform(next, request) => {
                let rest = trace_from(next, signals.drop_first());
                Trace { requests: seq![request] + rest.requests, outcome: rest.outcome }
            },
        }
    }
}

/// The trace of a whole run.
pub open spec fn trace(signals: Seq<Signal>) -> Trace {
    trace_from(Stage::Start, signals)
}

proof fn nothing_is_asked_after_the_write(stage: Stage, signals: Seq<Signal>)
    requires
        stage is AwaitRestore,
    ensures
        trace_from(stage, signals).requests.len() == 0,
{
}

proof fn owed_snapshot_is_written_last(stage: Stage, signals: Seq<Signal>, owed: Payload)
    requires
        stage.owes() == Some(owed),
    ensures
        ({
            let run = trace_from(stage, signals);
            &&& run.requests.len() <= signals.len()
            &&& forall|i: int|
                0 <= i < run.requests.len() ==> !(#[trigger] run.requests[i] is ForceCopy)
            &&& forall|i: int|
                0 <= i < run.requests.len() && #[trigger] run.requests[i] is Restore ==> i
                    == run.requests.len() - 1 && run.requests[i] == Request::Restore(owed)
            &&& run.outcome is Some ==> run.requests.len() > 0 && run.requests.last()
                == Request::Restore(owed)
        }),
    decreases signals.len(),
{
    if signals.len() > 0 {
        match acquisition_move(stage, signals.first()) {
            Move::Done(_) => {},
            Move::Perform(next, request) => {
                let rest = trace_from(next, signals.drop_first());
                let run = trace_from(stage, signals);
                assert(run.requests == seq![request] + rest.requests);
                if request is Restore {
                    nothing_is_asked_after_the_write(next, signals.drop_first());
                    assert(run.requests =~= seq![request]);
                } else {
                    owed_snapshot_is_written_last(next, signals.drop_first(), owed);
                    assert forall|i: int|
                        0 <= i < run.requests.len() && #[trigger] run.requests[i]
                            is Restore implies i == run.requests.len() - 1 && run.requests[i]
                        == Request::Restore(owed) by {
                        assert(i > 0);
                        assert(run.requests[i] == rest.requests[i - 1]);
                    }
                    assert forall|i: int| 0 <= i < run.requests.len() implies !(
                    #[trigger] run.requests[i] is ForceCopy) by {
                        if i > 0 {
                            assert(run.requests[i] == rest.requests[i - 1]);
                        }
                    }
                    if run.outcome is Some {
                        assert(run.requests.last() == rest.requests.last());
                    }
                }
            },
        }
    }
}

/// Whether the run, from a stage that owes nothing yet, keeps the clipboard's
/// account: see [`every_run_settles_with_the_clipboard`].
pub open spec fn settles(run: Trace, signals: Seq<Signal>) -> bool {
    &&& run.requests.len() <= signals.len()
    &&& forall|i: int, j: int|
        0 <= i < run.requests.len() && 0 <= j < run.requests.len()
            && #[trigger] run.requests[i] is ForceCopy && #[trigger] run.requests[j]
            is ForceCopy ==> i == j
    &&& forall|i: int|
        0 <= i < run.requests.len() && #[trigger] run.requests[i] is ForceCopy ==> {
            &&& signals[i] is Snapshot
            &&& run.outcome is Some ==> run.requests.last() == Request::Restore(
                signals[i]->Snapshot_0,
            )
        }
    &&& forall|i: int|
        0 <= i < run.requests.len() && #[trigger] run.requests[i] is Restore ==> {
            &&& i == run.requests.len() - 1
            &&& exists|j: int|
                0 <= j < i && #[trigger] run.requests[j] is ForceCopy && run.requests[i]
                    == Request::Restore(signals[j]->Snapshot_0)
        }
}

proof fn runs_settle_from_before_the_snapshot(stage: Stage, signals: Seq<Signal>)
    requires
        stage is Start || stage is AwaitFocus || stage is TryAccessibility || stage
            is AwaitSnapshot,
    ensures
        settles(trace_from(stage, signals), signals),
    decreases signals.len(),
{
    if signals.len() > 0 {
        match acquisition_move(stage, signals.first()) {
            Move::Done(_) => {},
            Move::Perform(next, request) => {
                let later = signals.drop_first();
                let rest = trace_from(next, later);
                let run = trace_from(stage, signals);
                assert(run.requests == seq![request] + rest.requests);
                if request is ForceCopy {
                    let taken = signals[0]->Snapshot_0;
                    owed_snapshot_is_written_last(next, later, taken);
                    assert forall|i: int|
                        0 <= i < run.requests.len() && #[trigger] run.requests[i]
                            is ForceCopy implies i == 0 by {
                        if i > 0 {
                            assert(run.requests[i] == rest.requests[i - 1]);
                        }
                    }
                    if run.outcome is Some {
                        assert(run.requests.last() == rest.requests.last());
                    }
                    assert forall|i: int|
                        0 <= i < run.requests.len() && #[trigger] run.requests[i]
                            is Restore implies i == run.requests.len() - 1 && exists|j: int|
                        0 <= j < i && #[trigger] run.requests[j] is ForceCopy && run.requests[i]
                            == Request::Restore(signals[j]->Snapshot_0) by {
                        assert(i > 0);
                        assert(run.requests[i] == rest.requests[i - 1]);
                        assert(run.requests[0] is ForceCopy);
                    }
                    assert(settles(run, signals));
                } else {
                    runs_settle_from_before_the_snapshot(next, later);
                    assert(settles(rest, later));
                    assert forall|i: int, j: int|
                        0 <= i < run.requests.len() && 0 <= j < run.requests.len()
                            && #[trigger] run.requests[i] is ForceCopy
                            && #[trigger] run.requests[j] is ForceCopy implies i == j by {
                        assert(run.requests[i] == rest.requests[i - 1]);
                        assert(run.requests[j] == rest.requests[j - 1]);
                    }
                    assert forall|i: int|
                        0 <= i < run.requests.len() && #[trigger] run.requests[i]
                            is ForceCopy implies signals[i] is Snapshot && (run.outcome is Some
                        ==> run.requests.last() == Request::Restore(signals[i]->Snapshot_0)) by {
                        assert(run.requests[i] == rest.requests[i - 1]);
                        assert(signals[i] == later[i - 1]);
                        if run.outcome is Some {
                            assert(run.requests.last() == rest.requests.last());
                        }
                    }
                    assert forall|i: int|
                        0 <= i < run.requests.len() && #[trigger] run.requests[i]
                            is Restore implies i == run.requests.len() - 1 && exists|j: int|
                        0 <= j < i && #[trigger] run.requests[j] is ForceCopy && run.requests[i]
                            == Request::Restore(signals[j]->Snapshot_0) by {
                        assert(run.requests[i] == rest.requests[i - 1]);
                        let k = choose|k: int|
                            0 <= k < i - 1 && #[trigger] rest.requests[k] is ForceCopy
                                && rest.requests[i - 1] == Request::Restore(
                                later[k]->Snapshot_0,
                            );
                        assert(run.requests[k + 1] == rest.requests[k]);
                        assert(signals[k + 1] == later[k]);
                        assert(run.requests[k + 1] is ForceCopy);
                    }
                    assert(settles(run, signals));
                }
            },
        }
    }
}

/// Whatever the host reports, a run keeps the clipboard's account:
///
/// - the focused application is made to copy at most once, and only in
///   answer to a snapshot;
/// - a write is asked for only after that copy, it is the write of that very
///   snapshot, and nothing is asked for after it;
/// - a run that made the application copy does not end before that write has
///   been asked for.
///
/// So the clipboard is changed at most once by the copy and at most once by
/// the write that undoes it, on every path.
pub proof fn every_run_settles_with_the_clipboard(signals: Seq<Signal>)
    ensures
        settles(trace(signals), signals),
{
    runs_settle_from_before_the_snapshot(Stage::Start, signals);
}

/// A run that has not reached the fallback has asked for nothing that touches
/// the clipboard.
pub proof fn runs_without_fallback_leave_the_clipboard_alone(signals: Seq<Signal>)
    ensures
        ({
            let run = trace(signals);
            (forall|i: int|
                0 <= i < run.requests.len() ==> !(#[trigger] run.requests[i] is TakeSnapshot))
                ==> forall|i: int|
                0 <= i < run.requests.len() ==> !(#[trigger] run.requests[i]).touches_clipboard()
        }),
{
    let run = trace(signals);
    every_run_settles_with_the_clipboard(signals);
    if forall|i: int| 0 <= i < run.requests.len() ==> !(#[trigger] run.requests[i] is TakeSnapshot) {
        snapshot_comes_first(Stage::Start, signals);
    }
}

proof fn snapshot_comes_first(stage: Stage, signals: Seq<Signal>)
    requires
        stage is Start || stage is AwaitFocus || stage is TryAccessibility,
    ensures
        ({
            let run = trace_from(stage, signals);
            forall|i: int|
                0 <= i < run.requests.len() && (#[trigger] run.requests[i]).touches_clipboard()
                    ==> exists|j: int|
                    0 <= j <= i && #[trigger] run.requests[j] is TakeSnapshot
        }),
    decreases signals.len(),
{
    if signals.len() > 0 {
        match acquisition_move(stage, signals.first()) {
            Move::Done(_) => {},
            Move::Perform(next, request) => {
                let rest = trace_from(next, signals.drop_first());
                let run = trace_from(stage, signals);
                assert(run.requests == seq![request] + rest.requests);
                if request is TakeSnapshot {
                    assert forall|i: int|
                        0 <= i < run.requests.len() && (
                        #[trigger] run.requests[i]).touches_clipboard() implies exists|j: int|
                        0 <= j <= i && #[trigger] run.requests[j] is TakeSnapshot by {
                        assert(run.requests[0] is TakeSnapshot);
                    }
                } else {
                    snapshot_comes_first(next, signals.drop_first());
                    assert forall|i: int|
                        0 <= i < run.requests.len() && (
                        #[trigger] run.requests[i]).touches_clipboard() implies exists|j: int|
                        0 <= j <= i && #[trigger] run.requests[j] is TakeSnapshot by {
                        assert(i > 0);
                        assert(run.requests[i] == rest.requests[i - 1]);
                        let k = choose|k: int|
                            0 <= k <= i - 1 && #[trigger] rest.requests[k] is TakeSnapshot;
                        assert(run.requests[k + 1] == rest.requests[k]);
                    }
                }
            },
        }
    }
}

} // verus!
