//! Whole acquisitions, run against a desktop that lives in memory.

use selection::accessibility::{
    query_selection, AccessError, QueryAction, QueryEvent, QueryState, QueryStep,
};
use selection::clipboard::{
    snapshot, ClipboardSnapshot, Image, ProbeAction, ProbeEvent, ProbeState, ProbeStep, RestoreOp,
};
use selection::copy_trigger::{force_copy, CopyAction, CopyEvent, CopyState, CopyStep, Key};
use selection::orchestrator::{get_text, Acquisition, Action, Event, Step};

#[derive(Debug, PartialEq, Eq)]
enum Content {
    Text(String),
    Image(usize, usize, Vec<u8>),
    Empty,
}

fn same(content: &Content) -> Content {
    match content {
        Content::Text(text) => Content::Text(text.to_string()),
        Content::Image(width, height, bytes) => Content::Image(*width, *height, bytes.to_vec()),
        Content::Empty => Content::Empty,
    }
}

struct Desktop {
    frontmost: Option<i32>,
    current: i32,
    trusted: bool,
    focused_status: i32,
    selected_status: i32,
    selected_text: String,
    /// What the focused application copies when the chord reaches it.
    copies: Option<Content>,
    clipboard: Content,
    change_count: i64,
    meta_down: bool,
    slept_millis: u64,
    elements_held: i32,
    elements_released: i32,
    queried: Vec<i32>,
    clipboard_reads: usize,
    clipboard_writes: usize,
}

fn desktop(clipboard: Content) -> Desktop {
    Desktop {
        frontmost: Some(4711),
        current: 1,
        trusted: true,
        focused_status: 0,
        selected_status: 0,
        selected_text: String::new(),
        copies: None,
        clipboard,
        change_count: 17,
        meta_down: false,
        slept_millis: 0,
        elements_held: 0,
        elements_released: 0,
        queried: Vec::new(),
        clipboard_reads: 0,
        clipboard_writes: 0,
    }
}

fn img1() -> Content {
    Content::Image(2, 1, vec![1, 2, 3, 4, 250, 251, 252, 253])
}

fn run_query(desk: &mut Desktop, pid: i32) -> Result<String, AccessError> {
    desk.queried.push(pid);
    let mut state = QueryState::Start { pid };
    let mut event = QueryEvent::Begin;
    loop {
        match query_selection(state, event) {
            QueryStep::Finished(result) => return result,
            QueryStep::Perform(next, action) => {
                event = match action {
                    QueryAction::EnsureTrusted { prompt } => {
                        assert!(prompt);
                        QueryEvent::Trust(desk.trusted)
                    }
                    QueryAction::CopyFocusedElement { pid: asked } => {
                        assert_eq!(asked, pid);
                        if desk.focused_status == 0 {
                            desk.elements_held += 1;
                        }
                        QueryEvent::Status(desk.focused_status)
                    }
                    QueryAction::CopySelectedText => {
                        assert_eq!(desk.elements_held, 1);
                        QueryEvent::Status(desk.selected_status)
                    }
                    QueryAction::ReleaseElement => {
                        assert_eq!(desk.elements_held, 1);
                        desk.elements_held -= 1;
                        desk.elements_released += 1;
                        QueryEvent::Performed
                    }
                    QueryAction::ReadText => QueryEvent::Text(desk.selected_text.to_string()),
                };
                state = next;
            }
        }
    }
}

fn run_probe(desk: &mut Desktop) -> ClipboardSnapshot {
    let mut state = ProbeState::Start;
    let mut event = ProbeEvent::Begin;
    loop {
        match snapshot(state, event) {
            ProbeStep::Finished(taken) => return taken,
            ProbeStep::Perform(next, action) => {
                desk.clipboard_reads += 1;
                event = match action {
                    ProbeAction::ReadText => ProbeEvent::Text(match &desk.clipboard {
                        Content::Text(text) => Some(text.to_string()),
                        _ => None,
                    }),
                    ProbeAction::ReadImage => ProbeEvent::Image(match &desk.clipboard {
                        Content::Image(width, height, bytes) => Some(Image {
                            width: *width,
                            height: *height,
                            bytes: bytes.to_vec(),
                        }),
                        _ => None,
                    }),
                };
                state = next;
            }
        }
    }
}

fn run_copy(desk: &mut Desktop) -> bool {
    let mut state = CopyState::Start;
    let mut event = CopyEvent::Begin;
    loop {
        match force_copy(state, event) {
            CopyStep::Finished(detected) => return detected,
            CopyStep::Perform(next, action) => {
                event = match action {
                    CopyAction::ReadChangeCount => CopyEvent::ChangeCount(desk.change_count),
                    CopyAction::Press(key) => {
                        if key == Key::Meta {
                            desk.meta_down = true;
                        }
                        CopyEvent::Performed
                    }
                    CopyAction::Release(key) => {
                        if key == Key::Meta {
                            desk.meta_down = false;
                        }
                        CopyEvent::Performed
                    }
                    CopyAction::Click(key) => {
                        if key == Key::Layout('c') && desk.meta_down {
                            if let Some(copied) = &desk.copies {
                                desk.clipboard = same(copied);
                                desk.change_count += 1;
                            }
                        }
                        CopyEvent::Performed
                    }
                    CopyAction::Settle(millis) => {
                        desk.slept_millis += millis;
                        CopyEvent::Performed
                    }
                };
                state = next;
            }
        }
    }
}

fn acquire(desk: &mut Desktop) -> String {
    let mut state = Acquisition::Start;
    let mut event = Event::Begin;
    loop {
        match get_text(state, event) {
            Step::Done(result) => return result.into_text(),
            Step::Perform(next, action) => {
                event = match action {
                    Action::ResolveFocus => Event::Focus {
                        frontmost: desk.frontmost,
                        current: desk.current,
                    },
                    Action::QuerySelection { pid } => Event::Selection(run_query(desk, pid)),
                    Action::TakeSnapshot => Event::Snapshot(run_probe(desk)),
                    Action::ForceCopy => Event::Copied(run_copy(desk)),
                    Action::ReadNewText => {
                        desk.clipboard_reads += 1;
                        Event::NewText(match &desk.clipboard {
                            Content::Text(text) => Some(text.to_string()),
                            _ => None,
                        })
                    }
                    Action::Restore(op) => {
                        desk.clipboard_writes += 1;
                        desk.change_count += 1;
                        desk.clipboard = match op {
                            RestoreOp::SetText(text) => Content::Text(text),
                            RestoreOp::SetImage(image) => {
                                Content::Image(image.width, image.height, image.bytes)
                            }
                            RestoreOp::Clear => Content::Empty,
                        };
                        Event::Restored(true)
                    }
                };
                state = next;
            }
        }
    }
}

#[test]
fn scenario_accessible_text_leaves_clipboard_untouched() {
    let mut desk = desktop(Content::Text("mine".to_string()));
    desk.selected_text = "hello".to_string();
    desk.copies = Some(Content::Text("never".to_string()));
    assert_eq!(acquire(&mut desk), "hello");
    assert_eq!(desk.clipboard, Content::Text("mine".to_string()));
    assert_eq!(desk.change_count, 17);
    assert_eq!(desk.clipboard_reads, 0);
    assert_eq!(desk.clipboard_writes, 0);
    assert_eq!(desk.slept_millis, 0);
    assert_eq!(desk.queried, vec![4711]);
}

#[test]
fn scenario_image_is_restored_after_copy() {
    let mut desk = desktop(img1());
    desk.trusted = false;
    desk.focused_status = -25211;
    desk.copies = Some(Content::Text("world".to_string()));
    assert_eq!(acquire(&mut desk), "world");
    assert_eq!(desk.clipboard, img1());
    assert_eq!(desk.clipboard_writes, 1);
    assert_eq!(desk.slept_millis, 100);
}

#[test]
fn scenario_ignored_copy_keeps_text() {
    let mut desk = desktop(Content::Text("keep-me".to_string()));
    desk.selected_text = String::new();
    desk.copies = None;
    assert_eq!(acquire(&mut desk), "");
    assert_eq!(desk.clipboard, Content::Text("keep-me".to_string()));
    assert_eq!(desk.clipboard_writes, 1);
}

#[test]
fn scenario_empty_clipboard_is_cleared_again() {
    let mut desk = desktop(Content::Empty);
    desk.selected_status = -25212;
    desk.copies = Some(Content::Text("abc".to_string()));
    assert_eq!(acquire(&mut desk), "abc");
    assert_eq!(desk.clipboard, Content::Empty);
    assert_eq!(desk.clipboard_writes, 1);
}

#[test]
fn accessible_text_is_returned_exactly() {
    let mut desk = desktop(Content::Empty);
    desk.selected_text = "  spaced out \n".to_string();
    desk.copies = Some(Content::Text("other".to_string()));
    assert_eq!(acquire(&mut desk), "  spaced out \n");
    assert_eq!(desk.clipboard_reads + desk.clipboard_writes, 0);
}

#[test]
fn copied_text_is_trimmed() {
    let mut desk = desktop(Content::Empty);
    desk.focused_status = -25204;
    desk.copies = Some(Content::Text("\t copied text \r\n".to_string()));
    assert_eq!(acquire(&mut desk), "copied text");
    assert_eq!(desk.clipboard, Content::Empty);
}

#[test]
fn copied_white_space_is_no_text() {
    let mut desk = desktop(Content::Text("old".to_string()));
    desk.focused_status = -25204;
    desk.copies = Some(Content::Text(" \n\t ".to_string()));
    assert_eq!(acquire(&mut desk), "");
    assert_eq!(desk.clipboard, Content::Text("old".to_string()));
}

#[test]
fn copied_image_is_no_text_and_clipboard_is_restored() {
    let mut desk = desktop(Content::Text("old".to_string()));
    desk.focused_status = -25204;
    desk.copies = Some(img1());
    assert_eq!(acquire(&mut desk), "");
    assert_eq!(desk.clipboard, Content::Text("old".to_string()));
    assert_eq!(desk.clipboard_writes, 1);
}

#[test]
fn clipboard_is_restored_for_every_kind() {
    let kinds = vec![Content::Text("t".to_string()), img1(), Content::Empty];
    for before in kinds {
        for copies in vec![None, Some(Content::Text("sel".to_string())), Some(img1())] {
            let mut desk = desktop(same(&before));
            desk.selected_status = -25212;
            desk.copies = copies;
            acquire(&mut desk);
            assert_eq!(desk.clipboard, before);
            assert_eq!(desk.clipboard_writes, 1);
        }
    }
}

#[test]
fn undetected_copy_gives_empty_and_restores() {
    let mut desk = desktop(img1());
    desk.focused_status = -25204;
    desk.copies = None;
    assert_eq!(acquire(&mut desk), "");
    assert_eq!(desk.clipboard, img1());
    assert_eq!(desk.clipboard_writes, 1);
    assert_eq!(desk.change_count, 18);
}

#[test]
fn acquiring_twice_gives_the_same_text() {
    let mut desk = desktop(Content::Text("keep".to_string()));
    desk.selected_status = -25212;
    desk.copies = Some(Content::Text(" twice ".to_string()));
    let first = acquire(&mut desk);
    assert_eq!(desk.clipboard, Content::Text("keep".to_string()));
    let second = acquire(&mut desk);
    assert_eq!(first, "twice");
    assert_eq!(second, first);
    assert_eq!(desk.clipboard, Content::Text("keep".to_string()));
}

#[test]
fn acquiring_twice_through_accessibility_gives_the_same_text() {
    let mut desk = desktop(img1());
    desk.selected_text = "stable".to_string();
    let first = acquire(&mut desk);
    let second = acquire(&mut desk);
    assert_eq!(first, "stable");
    assert_eq!(second, "stable");
    assert_eq!(desk.clipboard, img1());
    assert_eq!(desk.change_count, 17);
}

#[test]
fn element_is_released_once_when_selection_is_missing() {
    let mut desk = desktop(Content::Empty);
    desk.selected_status = -25212;
    assert_eq!(run_query(&mut desk, 9), Err(AccessError::NoSelection));
    assert_eq!(desk.elements_held, 0);
    assert_eq!(desk.elements_released, 1);
}

#[test]
fn element_is_released_once_when_text_is_read() {
    let mut desk = desktop(Content::Empty);
    desk.selected_text = "picked".to_string();
    assert_eq!(run_query(&mut desk, 9), Ok("picked".to_string()));
    assert_eq!(desk.elements_held, 0);
    assert_eq!(desk.elements_released, 1);
}

#[test]
fn no_element_is_released_when_none_was_obtained() {
    let mut desk = desktop(Content::Empty);
    desk.focused_status = -25204;
    assert_eq!(run_query(&mut desk, 9), Err(AccessError::NoFocusedElement));
    assert_eq!(desk.elements_released, 0);
}

#[test]
fn untrusted_process_still_queries() {
    let mut desk = desktop(Content::Empty);
    desk.trusted = false;
    desk.selected_text = "seen anyway".to_string();
    assert_eq!(run_query(&mut desk, 9), Ok("seen anyway".to_string()));
}

#[test]
fn empty_selection_is_not_an_error_of_the_query() {
    let mut desk = desktop(Content::Empty);
    assert_eq!(run_query(&mut desk, 9), Ok(String::new()));
}

#[test]
fn current_process_is_queried_without_frontmost_application() {
    let mut desk = desktop(Content::Empty);
    desk.frontmost = None;
    desk.current = 77;
    desk.selected_text = "own".to_string();
    assert_eq!(acquire(&mut desk), "own");
    assert_eq!(desk.queried, vec![77]);
}

#[test]
fn focus_is_resolved_anew_for_every_acquisition() {
    let mut desk = desktop(Content::Empty);
    desk.selected_text = "a".to_string();
    acquire(&mut desk);
    desk.frontmost = Some(5000);
    acquire(&mut desk);
    assert_eq!(desk.queried, vec![4711, 5000]);
}

#[test]
fn probe_prefers_text_then_image_then_nothing() {
    let mut with_text = desktop(Content::Text("t".to_string()));
    assert_eq!(run_probe(&mut with_text), ClipboardSnapshot::Text("t".to_string()));
    assert_eq!(with_text.clipboard_reads, 1);
    let mut with_image = desktop(img1());
    assert_eq!(
        run_probe(&mut with_image),
        ClipboardSnapshot::Image(Image {
            width: 2,
            height: 1,
            bytes: vec![1, 2, 3, 4, 250, 251, 252, 253],
        })
    );
    assert_eq!(with_image.clipboard_reads, 2);
    let mut with_nothing = desktop(Content::Empty);
    assert_eq!(run_probe(&mut with_nothing), ClipboardSnapshot::Empty);
    assert_eq!(with_nothing.clipboard_reads, 2);
}

#[test]
fn copy_is_detected_by_the_counter_alone() {
    let mut desk = desktop(Content::Text("same".to_string()));
    desk.copies = Some(Content::Text("same".to_string()));
    assert!(run_copy(&mut desk));
    assert_eq!(desk.slept_millis, 100);
    assert!(!desk.meta_down);
    let mut idle = desktop(Content::Text("same".to_string()));
    assert!(!run_copy(&mut idle));
    assert_eq!(idle.slept_millis, 100);
}
