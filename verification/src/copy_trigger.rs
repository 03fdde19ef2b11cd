//! Synthetic copy trigger.
//!
//! The trigger makes the focused application copy its selection: it reads the
//! clipboard's change counter, releases every modifier that may still be held,
//! injects the copy chord, lets the application settle, and reads the counter
//! again. The copy is detected when the two readings differ. The counter is
//! compared for equality only.

use vstd::prelude::*;

verus! {

/// The clipboard's change counter as the operating system reports it.
pub type ChangeCount = i64;

/// How long the focused application is given to act on the chord.
pub const SETTLE_MILLIS: u64 = 100;

/// A key that the trigger touches.
#[derive(Debug, Clone, Copy, PartialEq, Eq, Structural)]
pub enum Key {
    Control,
    Alt,
    Shift,
    Space,
    Meta,
    Tab,
    Escape,
    CapsLock,
    /// The key that produces this character on the current layout.
    Layout(char),
}

/// One thing that the host does for the trigger.
#[derive(Debug, Clone, Copy, PartialEq, Eq, Structural)]
pub enum CopyAction {
    /// Read the clipboard's change counter and report it.
    ReadChangeCount,
    /// Release the key, whether or not it is held.
    Release(Key),
    /// Press the key and keep it down.
    Press(Key),
    /// Press and release the key.
    Click(Key),
    /// Block for this many milliseconds.
    Settle(u64),
}

/// What the host reports to the trigger.
#[derive(Debug, Clone, Copy, PartialEq, Eq, Structural)]
pub enum CopyEvent {
    Begin,
    /// The counter that was read.
    ChangeCount(ChangeCount),
    /// An action without a result has been performed.
    Performed,
}

/// Where the trigger stands.
#[derive(Debug, Clone, Copy, PartialEq, Eq, Structural)]
pub enum CopyState {
    Start,
    /// The first reading of the counter has been asked for.
    AwaitBefore,
    /// The first `asked` actions of the injection have been asked for.
    Injecting { before: ChangeCount, asked: usize },
    /// The second reading of the counter has been asked for.
    AwaitAfter { before: ChangeCount },
}

/// The trigger's answer to an event: one more action, or whether the copy
/// was detected.
#[derive(Debug, Clone, Copy, PartialEq, Eq, Structural)]
pub enum CopyStep {
    Perform(CopyState, CopyAction),
    Finished(bool),
}

/// What is injected between the two readings, in order: every modifier is
/// released, the chord is played as press, click, release, and the
/// application is left to settle.
pub open spec fn injection() -> Seq<CopyAction> {
    seq![
        CopyAction::Release(Key::Control),
        CopyAction::Release(Key::Alt),
        CopyAction::Release(Key::Shift),
        CopyAction::Release(Key::Space),
        CopyAction::Release(Key::Meta),
        CopyAction::Release(Key::Tab),
        CopyAction::Release(Key::Escape),
        CopyAction::Release(Key::CapsLock),
        CopyAction::Press(Key::Meta),
        CopyAction::Click(Key::Layout('c')),
        CopyAction::Release(Key::Meta),
        CopyAction::Settle(SETTLE_MILLIS),
    ]
}

/// The number of actions in [`injection`].
pub const INJECTION_LEN: usize = 12;

/// The action at `index` of the injection.
pub fn injection_action(index: usize) -> (action: CopyAction)
    requires
        index < injection().len(),
    ensures
        action == injection()[index as int],
{
    if index == 0 {
        CopyAction::Release(Key::Control)
    } else if index == 1 {
        CopyAction::Release(Key::Alt)
    } else if index == 2 {
        CopyAction::Release(Key::Shift)
    } else if index == 3 {
        CopyAction::Release(Key::Space)
    } else if index == 4 {
        CopyAction::Release(Key::Meta)
    } else if index == 5 {
        CopyAction::Release(Key::Tab)
    } else if index == 6 {
        CopyAction::Release(Key::Escape)
    } else if index == 7 {
        CopyAction::Release(Key::CapsLock)
    } else if index == 8 {
        CopyAction::Press(Key::Meta)
    } else if index == 9 {
        CopyAction::Click(Key::Layout('c'))
    } else if index == 10 {
        CopyAction::Release(Key::Meta)
    } else {
        CopyAction::Settle(SETTLE_MILLIS)
    }
}

/// The trigger's transition relation. Without a first reading nothing is
/// injected and no copy is detected; without a second reading no copy is
/// detected either. The injected actions report nothing, so any event moves
/// the injection on.
pub open spec fn copy_move(state: CopyState, event: CopyEvent) -> CopyStep {
    match state {
        CopyState::Start => CopyStep::Perform(CopyState::AwaitBefore, CopyAction::ReadChangeCount),
        CopyState::AwaitBefore => match event {
            CopyEvent::ChangeCount(before) => CopyStep::Perform(
                CopyState::Injecting { before, asked: 1 },
                injection()[0],
            ),
            _ => CopyStep::Finished(false),
        },
        CopyState::Injecting { before, asked } => if asked < injection().len() {
            CopyStep::Perform(
                CopyState::Injecting { before, asked: (asked + 1) as usize },
                injection()[asked as int],
            )
        } else {
            CopyStep::Perform(CopyState::AwaitAfter { before }, CopyAction::ReadChangeCount)
        },
        CopyState::AwaitAfter { before } => match event {
            CopyEvent::ChangeCount(after) => CopyStep::Finished(after != before),
            _ => CopyStep::Finished(false),
        },
    }
}

/// Advances the copy trigger by one event.
pub fn force_copy(state: CopyState, event: CopyEvent) -> (step: CopyStep)
    ensures
        step == copy_move(state, event),
{
    match state {
        CopyState::Start => CopyStep::Perform(CopyState::AwaitBefore, CopyAction::ReadChangeCount),
        CopyState::AwaitBefore => match event {
            CopyEvent::ChangeCount(before) => CopyStep::Perform(
                CopyState::Injecting { before, asked: 1 },
                injection_action(0),
            ),
            _ => CopyStep::Finished(false),
        },
        CopyState::Injecting { before, asked } => {
            if asked < INJECTION_LEN {
                CopyStep::Perform(
                    CopyState::Injecting { before, asked: asked + 1 },
                    injection_action(asked),
                )
            } else {
                CopyStep::Perform(CopyState::AwaitAfter { before }, CopyAction::ReadChangeCount)
            }
        },
        CopyState::AwaitAfter { before } => match event {
            CopyEvent::ChangeCount(after) => CopyStep::Finished(after != before),
            _ => CopyStep::Finished(false),
        },
    }
}

/// What a host that performs every action reports back, on a clipboard whose
/// counter reads `before` ahead of the injection and `after` behind it.
pub open spec fn copy_reply(
    next: CopyState,
    action: CopyAction,
    before: ChangeCount,
    after: ChangeCount,
) -> CopyEvent {
    match action {
        CopyAction::ReadChangeCount => if next is AwaitBefore {
            CopyEvent::ChangeCount(before)
        } else {
            CopyEvent::ChangeCount(after)
        },
        _ => CopyEvent::Performed,
    }
}

/// The actions asked of such a host from `state` on, and the trigger's
/// verdict, within `fuel` steps.
pub open spec fn copy_run(
    state: CopyState,
    event: CopyEvent,
    before: ChangeCount,
    after: ChangeCount,
    fuel: nat,
) -> (Seq<CopyAction>, bool)
    decreases fuel,
{
    if fuel == 0 {
        (Seq::empty(), false)
    } else {
        match copy_move(state, event) {
            CopyStep::Finished(detected) => (Seq::empty(), detected),
            CopyStep::Perform(next, action) => {
                let rest = copy_run(
                    next,
                    copy_reply(next, action, before, after),
                    before,
                    after,
                    (fuel - 1) as nat,
                );
                (seq![action] + rest.0, rest.1)
            },
        }
    }
}

proof fn injection_runs_to_the_end(
    asked: usize,
    event: CopyEvent,
    before: ChangeCount,
    after: ChangeCount,
    fuel: nat,
)
    requires
        1 <= asked <= injection().len(),
        fuel >= injection().len() - asked + 2,
    ensures
        copy_run(CopyState::Injecting { before, asked }, event, before, after, fuel) == (
            injection().subrange(asked as int, injection().len() as int)
                + seq![CopyAction::ReadChangeCount],
            after != before,
        ),
    decreases injection().len() - asked,
{
    let state = CopyState::Injecting { before, asked };
    let run = copy_run(state, event, before, after, fuel);
    let rest_of_injection = injection().subrange(asked as int, injection().len() as int);
    if asked < injection().len() {
        let next = CopyState::Injecting { before, asked: (asked + 1) as usize };
        let action = injection()[asked as int];
        assert(copy_move(state, event) == CopyStep::Perform(next, action));
        injection_runs_to_the_end(
            (asked + 1) as usize,
            copy_reply(next, action, before, after),
            before,
            after,
            (fuel - 1) as nat,
        );
        assert(rest_of_injection == seq![action] + injection().subrange(
            asked + 1,
            injection().len() as int,
        ));
        assert(run.0 == rest_of_injection + seq![CopyAction::ReadChangeCount]);
    } else {
        let next = CopyState::AwaitAfter { before };
        assert(copy_move(state, event) == CopyStep::Perform(next, CopyAction::ReadChangeCount));
        let reply = copy_reply(next, CopyAction::ReadChangeCount, before, after);
        assert(reply == CopyEvent::ChangeCount(after));
        assert(copy_move(next, reply) == CopyStep::Finished(after != before));
        assert(copy_run(next, reply, before, after, (fuel - 1) as nat) == (
            Seq::<CopyAction>::empty(),
            after != before,
        ));
        assert(rest_of_injection == Seq::<CopyAction>::empty());
        assert(run.0 == rest_of_injection + seq![CopyAction::ReadChangeCount]);
    }
}

/// With a host that performs every action, the trigger reads the counter,
/// plays the whole injection in order, reads the counter again, and detects
/// a copy exactly when the two readings differ.
pub proof fn copy_detected_iff_counter_changed(before: ChangeCount, after: ChangeCount)
    ensures
        copy_run(CopyState::Start, CopyEvent::Begin, before, after, 15) == (
            seq![CopyAction::ReadChangeCount] + injection() + seq![CopyAction::ReadChangeCount],
            after != before,
        ),
{
    let first = CopyState::AwaitBefore;
    let reading = copy_reply(first, CopyAction::ReadChangeCount, before, after);
    assert(reading == CopyEvent::ChangeCount(before));
    let second = CopyState::Injecting { before, asked: 1 };
    let reply = copy_reply(second, injection()[0], before, after);
    injection_runs_to_the_end(1, reply, before, after, 13);
    let tail = copy_run(second, reply, before, after, 13);
    let middle = copy_run(first, reading, before, after, 14);
    assert(copy_move(first, reading) == CopyStep::Perform(second, injection()[0]));
    assert(middle == (seq![injection()[0]] + tail.0, tail.1));
    assert(seq![injection()[0]] + injection().subrange(1, injection().len() as int)
        == injection());
    assert(middle.0 == injection() + seq![CopyAction::ReadChangeCount]);
    let whole = copy_run(CopyState::Start, CopyEvent::Begin, before, after, 15);
    assert(whole == (seq![CopyAction::ReadChangeCount] + middle.0, middle.1));
    assert(whole.0 == seq![CopyAction::ReadChangeCount] + injection()
        + seq![CopyAction::ReadChangeCount]);
}

} // verus!
