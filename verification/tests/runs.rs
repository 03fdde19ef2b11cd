//! Runs under hosts that report anything at all.

use selection::accessibility::AccessError;
use selection::clipboard::{ClipboardSnapshot, Image, RestoreOp};
use selection::orchestrator::{get_text, Acquisition, AcquisitionResult, Action, Event, Step};

const EVENTS: usize = 9;

fn taken() -> ClipboardSnapshot {
    ClipboardSnapshot::Image(Image { width: 1, height: 1, bytes: vec![1, 2, 3, 4] })
}

fn event(index: usize) -> Event {
    match index {
        0 => Event::Begin,
        1 => Event::Focus { frontmost: Some(10), current: 20 },
        2 => Event::Selection(Ok("picked".to_string())),
        3 => Event::Selection(Err(AccessError::NoSelection)),
        4 => Event::Snapshot(taken()),
        5 => Event::Copied(true),
        6 => Event::NewText(Some(" new ".to_string())),
        7 => Event::Restored(true),
        _ => Event::Restored(false),
    }
}

struct Account {
    copies: usize,
    restores: usize,
    ended: usize,
    longest: usize,
}

fn walk(state: Acquisition, copied: bool, restored: bool, depth: usize, account: &mut Account) {
    assert!(depth <= 7);
    if depth > account.longest {
        account.longest = depth;
    }
    for index in 0..EVENTS {
        let from = match &state {
            Acquisition::Start => Acquisition::Start,
            Acquisition::AwaitFocus => Acquisition::AwaitFocus,
            Acquisition::TryAccessibility => Acquisition::TryAccessibility,
            Acquisition::AwaitSnapshot => Acquisition::AwaitSnapshot,
            Acquisition::AwaitCopy { .. } => Acquisition::AwaitCopy { snapshot: taken() },
            Acquisition::AwaitNewText { .. } => Acquisition::AwaitNewText { snapshot: taken() },
            Acquisition::AwaitRestore { outcome } => Acquisition::AwaitRestore {
                outcome: match outcome {
                    AcquisitionResult::Text(text) => AcquisitionResult::Text(text.to_string()),
                    AcquisitionResult::Empty => AcquisitionResult::Empty,
                    AcquisitionResult::Failure(reason) => AcquisitionResult::Failure(*reason),
                },
            },
        };
        match get_text(from, event(index)) {
            Step::Done(result) => {
                assert_eq!(copied, restored);
                if let AcquisitionResult::Text(text) = &result {
                    assert!(!text.is_empty());
                }
                account.ended += 1;
            }
            Step::Perform(next, action) => {
                assert!(!restored);
                match action {
                    Action::ForceCopy => {
                        assert!(!copied);
                        assert_eq!(index, 4);
                        account.copies += 1;
                        walk(next, true, false, depth + 1, account);
                    }
                    Action::Restore(op) => {
                        assert!(copied);
                        assert_eq!(
                            op,
                            RestoreOp::SetImage(Image {
                                width: 1,
                                height: 1,
                                bytes: vec![1, 2, 3, 4],
                            })
                        );
                        account.restores += 1;
                        walk(next, true, true, depth + 1, account);
                    }
                    Action::TakeSnapshot | Action::ReadNewText => {
                        walk(next, copied, false, depth + 1, account);
                    }
                    Action::ResolveFocus | Action::QuerySelection { .. } => {
                        assert!(!copied);
                        walk(next, false, false, depth + 1, account);
                    }
                }
            }
        }
    }
}

#[test]
fn every_run_restores_what_it_took_exactly_once() {
    let mut account = Account { copies: 0, restores: 0, ended: 0, longest: 0 };
    walk(Acquisition::Start, false, false, 0, &mut account);
    assert!(account.copies > 0);
    assert!(account.restores >= account.copies);
    assert!(account.ended > account.restores);
    assert_eq!(account.longest, 6);
}

#[test]
fn failed_write_ends_with_the_empty_string() {
    let mut state = Acquisition::Start;
    let mut asked = Vec::new();
    let reports = vec![
        Event::Begin,
        Event::Focus { frontmost: None, current: 3 },
        Event::Selection(Err(AccessError::NoFocusedElement)),
        Event::Snapshot(ClipboardSnapshot::Text("mine".to_string())),
        Event::Copied(true),
        Event::NewText(Some("copied".to_string())),
        Event::Restored(false),
    ];
    let mut text = None;
    for report in reports {
        match get_text(state, report) {
            Step::Done(result) => {
                text = Some(result.into_text());
                break;
            }
            Step::Perform(next, action) => {
                asked.push(action);
                state = next;
            }
        }
    }
    assert_eq!(text, Some(String::new()));
    assert_eq!(
        asked,
        vec![
            Action::ResolveFocus,
            Action::QuerySelection { pid: 3 },
            Action::TakeSnapshot,
            Action::ForceCopy,
            Action::ReadNewText,
            Action::Restore(RestoreOp::SetText("mine".to_string())),
        ]
    );
}
