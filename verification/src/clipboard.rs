//! Clipboard snapshot and restore.
//!
//! A snapshot is taken before the clipboard is touched and written back
//! afterwards. Taking it is a priority-ordered probe: text first, then image,
//! then nothing. Exactly one of the three is captured.

use vstd::prelude::*;

verus! {

/// A pixel buffer as the clipboard hands it out. The library never looks
/// inside: it carries the buffer from the read to the write.
#[derive(Debug, PartialEq, Eq)]
pub struct Image {
    pub width: usize,
    pub height: usize,
    pub bytes: Vec<u8>,
}

/// What an [`Image`] stands for.
pub struct Picture {
    pub width: nat,
    pub height: nat,
    pub bytes: Seq<u8>,
}

impl View for Image {
    type V = Picture;

    open spec fn view(&self) -> Picture {
        Picture { width: self.width as nat, height: self.height as nat, bytes: self.bytes@ }
    }
}

/// What the clipboard holds: text, an image, or nothing.
pub enum Payload {
    Text(Seq<char>),
    Image(Picture),
    Empty,
}

/// The clipboard's payload as captured before any mutation.
#[derive(Debug, PartialEq, Eq)]
pub enum ClipboardSnapshot {
    Text(String),
    Image(Image),
    Empty,
}

impl View for ClipboardSnapshot {
    type V = Payload;

    open spec fn view(&self) -> Payload {
        match self {
            ClipboardSnapshot::Text(text) => Payload::Text(text@),
            ClipboardSnapshot::Image(image) => Payload::Image(image@),
            ClipboardSnapshot::Empty => Payload::Empty,
        }
    }
}

/// The write that puts a snapshot back: the setter that matches its kind.
#[derive(Debug, PartialEq, Eq)]
pub enum RestoreOp {
    SetText(String),
    SetImage(Image),
    Clear,
}

impl View for RestoreOp {
    type V = Payload;

    /// The payload that the clipboard holds once the write has been done.
    open spec fn view(&self) -> Payload {
        match self {
            RestoreOp::SetText(text) => Payload::Text(text@),
            RestoreOp::SetImage(image) => Payload::Image(image@),
            RestoreOp::Clear => Payload::Empty,
        }
    }
}

/// Turns a snapshot into the write that restores it. The snapshot is consumed:
/// it can be restored once.
pub fn restore(snapshot: ClipboardSnapshot) -> (op: RestoreOp)
    ensures
        op@ == snapshot@,
        op is SetText <==> snapshot is Text,
        op is SetImage <==> snapshot is Image,
        op is Clear <==> snapshot is Empty,
{
    match snapshot {
        ClipboardSnapshot::Text(text) => RestoreOp::SetText(text),
        ClipboardSnapshot::Image(image) => RestoreOp::SetImage(image),
        ClipboardSnapshot::Empty => RestoreOp::Clear,
    }
}

/// Where the probe stands.
#[derive(Debug, Clone, Copy, PartialEq, Eq, Structural)]
pub enum ProbeState {
    /// Nothing has been read yet.
    Start,
    /// The text read has been asked for.
    AwaitText,
    /// The text read failed and the image read has been asked for.
    AwaitImage,
}

/// A read that the host performs for the probe.
#[derive(Debug, Clone, Copy, PartialEq, Eq, Structural)]
pub enum ProbeAction {
    ReadText,
    ReadImage,
}

/// What the host reports to the probe. `None` is a read that failed.
#[derive(Debug, PartialEq, Eq)]
pub enum ProbeEvent {
    Begin,
    Text(Option<String>),
    Image(Option<Image>),
}

/// What a [`ProbeEvent`] stands for.
pub enum ProbeSignal {
    Begin,
    Text(Option<Seq<char>>),
    Image(Option<Picture>),
}

impl View for ProbeEvent {
    type V = ProbeSignal;

    open spec fn view(&self) -> ProbeSignal {
        match self {
            ProbeEvent::Begin => ProbeSignal::Begin,
            ProbeEvent::Text(Some(text)) => ProbeSignal::Text(Some(text@)),
            ProbeEvent::Text(None) => ProbeSignal::Text(None),
            ProbeEvent::Image(Some(image)) => ProbeSignal::Image(Some(image@)),
            ProbeEvent::Image(None) => ProbeSignal::Image(None),
        }
    }
}

/// The probe's answer to an event: one more read, or the snapshot.
#[derive(Debug, PartialEq, Eq)]
pub enum ProbeStep {
    Perform(ProbeState, ProbeAction),
    Finished(ClipboardSnapshot),
}

/// What a [`ProbeStep`] stands for.
pub enum ProbeMove {
    Perform(ProbeState, ProbeAction),
    Finished(Payload),
}

impl View for ProbeStep {
    type V = ProbeMove;

    open spec fn view(&self) -> ProbeMove {
        match self {
            ProbeStep::Perform(state, action) => ProbeMove::Perform(*state, *action),
            ProbeStep::Finished(snapshot) => ProbeMove::Finished(snapshot@),
        }
    }
}

/// The probe's transition relation. Text is asked for first; an image only
/// when no text came back; nothing is captured when neither did. An event
/// that does not answer the pending read counts as that read having failed.
pub open spec fn probe_move(state: ProbeState, signal: ProbeSignal) -> ProbeMove {
    match state {
        ProbeState::Start => ProbeMove::Perform(ProbeState::AwaitText, ProbeAction::ReadText),
        ProbeState::AwaitText => match signal {
            ProbeSignal::Text(Some(text)) => ProbeMove::Finished(Payload::Text(text)),
            _ => ProbeMove::Perform(ProbeState::AwaitImage, ProbeAction::ReadImage),
        },
        ProbeState::AwaitImage => match signal {
            ProbeSignal::Image(Some(image)) => ProbeMove::Finished(Payload::Image(image)),
            _ => ProbeMove::Finished(Payload::Empty),
        },
    }
}

/// Advances the snapshot probe by one event.
pub fn snapshot(state: ProbeState, event: ProbeEvent) -> (step: ProbeStep)
    ensures
        step@ == probe_move(state, event@),
{
    match state {
        ProbeState::Start => ProbeStep::Perform(ProbeState::AwaitText, ProbeAction::ReadText),
        ProbeState::AwaitText => match event {
            ProbeEvent::Text(Some(text)) => ProbeStep::Finished(ClipboardSnapshot::Text(text)),
            _ => ProbeStep::Perform(ProbeState::AwaitImage, ProbeAction::ReadImage),
        },
        ProbeState::AwaitImage => match event {
            ProbeEvent::Image(Some(image)) => ProbeStep::Finished(ClipboardSnapshot::Image(image)),
            _ => ProbeStep::Finished(ClipboardSnapshot::Empty),
        },
    }
}

/// What a text read yields on a clipboard that holds `content`.
pub open spec fn text_read(content: Payload) -> Option<Seq<char>> {
    match content {
        Payload::Text(text) => Some(text),
        _ => None,
    }
}

/// What an image read yields on a clipboard that holds `content`.
pub open spec fn image_read(content: Payload) -> Option<Picture> {
    match content {
        Payload::Image(image) => Some(image),
        _ => None,
    }
}

/// What the host reports for a read on a clipboard that holds `content`.
pub open spec fn read_signal(content: Payload, action: ProbeAction) -> ProbeSignal {
    match action {
        ProbeAction::ReadText => ProbeSignal::Text(text_read(content)),
        ProbeAction::ReadImage => ProbeSignal::Image(image_read(content)),
    }
}

/// The snapshot that the probe ends with when every read it asks for is
/// answered from a clipboard that holds `content`.
pub open spec fn probe_result(content: Payload) -> Payload {
    match probe_move(ProbeState::Start, ProbeSignal::Begin) {
        ProbeMove::Finished(captured) => captured,
        ProbeMove::Perform(first_state, first_read) => match probe_move(
            first_state,
            read_signal(content, first_read),
        ) {
            ProbeMove::Finished(captured) => captured,
            ProbeMove::Perform(second_state, second_read) => match probe_move(
                second_state,
                read_signal(content, second_read),
            ) {
                ProbeMove::Finished(captured) => captured,
                ProbeMove::Perform(_, _) => Payload::Empty,
            },
        },
    }
}

/// The probe captures what the clipboard holds, whatever its kind.
pub proof fn snapshot_captures_payload(content: Payload)
    ensures
        probe_result(content) == content,
{
}

/// The probe never asks for more than two reads, and never for an image
/// once text came back.
pub proof fn probe_is_priority_ordered(state: ProbeState, signal: ProbeSignal)
    ensures
        probe_move(state, signal) matches ProbeMove::Perform(next, action) ==> {
            &&& state != ProbeState::AwaitImage
            &&& (state == ProbeState::Start ==> next == ProbeState::AwaitText && action
                == ProbeAction::ReadText)
            &&& (state == ProbeState::AwaitText ==> next == ProbeState::AwaitImage && action
                == ProbeAction::ReadImage && !(signal matches ProbeSignal::Text(Some(_))))
        },
{
}

} // verus!
