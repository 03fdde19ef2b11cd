//! Accessibility query.
//!
//! The query asks the focused application's interface tree for its focused
//! element and for that element's selected text. It only observes: nothing it
//! asks for changes the clipboard or anything else the user can see. The
//! element handle lives for one query and is released on every path on which
//! it was obtained.

use crate::focus::ProcessId;
use vstd::prelude::*;

verus! {

/// A status code of the introspection service.
pub type Status = i32;

/// The status that the introspection service reports for a request it served.
pub const STATUS_SUCCESS: Status = 0;

/// Why a query yields no text.
#[derive(Debug, Clone, Copy, PartialEq, Eq, Structural)]
pub enum AccessError {
    /// The application reported no focused element.
    NoFocusedElement,
    /// The focused element reported no selected text.
    NoSelection,
}

/// One thing that the host does for the query.
#[derive(Debug, Clone, Copy, PartialEq, Eq, Structural)]
pub enum QueryAction {
    /// Ask whether this process may use the introspection service, letting
    /// the system prompt the user if `prompt` is set, and report the answer.
    EnsureTrusted { prompt: bool },
    /// Open the application `pid`, request its focused element, keep the
    /// handle, and report the status.
    CopyFocusedElement { pid: ProcessId },
    /// Request the selected text of the element that is held, keep the
    /// native string, and report the status.
    CopySelectedText,
    /// Release the element that is held.
    ReleaseElement,
    /// Convert the native string that is held, let go of it, and report the
    /// text.
    ReadText,
}

/// What the host reports to the query.
#[derive(Debug, PartialEq, Eq)]
pub enum QueryEvent {
    Begin,
    /// Whether the process is trusted.
    Trust(bool),
    /// The status of the request that was asked for.
    Status(Status),
    /// An action without a result has been performed.
    Performed,
    /// The text that was converted.
    Text(String),
}

/// What a [`QueryEvent`] stands for.
pub enum QuerySignal {
    Begin,
    Trust(bool),
    Status(Status),
    Performed,
    Text(Seq<char>),
}

impl View for QueryEvent {
    type V = QuerySignal;

    open spec fn view(&self) -> QuerySignal {
        match self {
            QueryEvent::Begin => QuerySignal::Begin,
            QueryEvent::Trust(trusted) => QuerySignal::Trust(*trusted),
            QueryEvent::Status(status) => QuerySignal::Status(*status),
            QueryEvent::Performed => QuerySignal::Performed,
            QueryEvent::Text(text) => QuerySignal::Text(text@),
        }
    }
}

/// Where the query stands.
#[derive(Debug, Clone, Copy, PartialEq, Eq, Structural)]
pub enum QueryState {
    /// Nothing has been asked for yet.
    Start { pid: ProcessId },
    /// The trust check has been asked for.
    AwaitTrust { pid: ProcessId },
    /// The focused element has been requested. No element is held.
    AwaitFocusedElement,
    /// The selected text has been requested. The element is held.
    AwaitSelectedText,
    /// The element's release has been asked for; `selected` tells whether
    /// the request for its selected text was served.
    Releasing { selected: bool },
    /// The conversion of the native string has been asked for.
    AwaitText,
}

/// The query's answer to an event: one more action, or its result.
#[derive(Debug, PartialEq, Eq)]
pub enum QueryStep {
    Perform(QueryState, QueryAction),
    Finished(Result<String, AccessError>),
}

/// What a [`QueryStep`] stands for.
pub enum QueryMove {
    Perform(QueryState, QueryAction),
    Finished(Result<Seq<char>, AccessError>),
}

impl View for QueryStep {
    type V = QueryMove;

    open spec fn view(&self) -> QueryMove {
        match self {
            QueryStep::Perform(state, action) => QueryMove::Perform(*state, *action),
            QueryStep::Finished(Ok(text)) => QueryMove::Finished(Ok(text@)),
            QueryStep::Finished(Err(error)) => QueryMove::Finished(Err(*error)),
        }
    }
}

/// The query's transition relation.
///
/// The trust check is asked for with the prompt allowed, and its answer is
/// not waited upon: the query goes on with whatever the trust state is. A
/// request that the service did not serve ends the query with the matching
/// error. The element is released as soon as its selected text has been
/// requested, served or not. An event that does not answer the pending
/// request counts as that request not having been served.
pub open spec fn query_move(state: QueryState, signal: QuerySignal) -> QueryMove {
    match state {
        QueryState::Start { pid } => QueryMove::Perform(
            QueryState::AwaitTrust { pid },
            QueryAction::EnsureTrusted { prompt: true },
        ),
        QueryState::AwaitTrust { pid } => QueryMove::Perform(
            QueryState::AwaitFocusedElement,
            QueryAction::CopyFocusedElement { pid },
        ),
        QueryState::AwaitFocusedElement => if signal == QuerySignal::Status(STATUS_SUCCESS) {
            QueryMove::Perform(QueryState::AwaitSelectedText, QueryAction::CopySelectedText)
        } else {
            QueryMove::Finished(Err(AccessError::NoFocusedElement))
        },
        QueryState::AwaitSelectedText => QueryMove::Perform(
            QueryState::Releasing { selected: signal == QuerySignal::Status(STATUS_SUCCESS) },
            QueryAction::ReleaseElement,
        ),
        QueryState::Releasing { selected } => if selected {
            QueryMove::Perform(QueryState::AwaitText, QueryAction::ReadText)
        } else {
            QueryMove::Finished(Err(AccessError::NoSelection))
        },
        QueryState::AwaitText => match signal {
            QuerySignal::Text(text) => QueryMove::Finished(Ok(text)),
            _ => QueryMove::Finished(Err(AccessError::NoSelection)),
        },
    }
}

/// Whether the event reports a request that the service served.
fn served(event: &QueryEvent) -> (yes: bool)
    ensures
        yes == (event@ == QuerySignal::Status(STATUS_SUCCESS)),
{
    match event {
        QueryEvent::Status(status) => *status == STATUS_SUCCESS,
        _ => false,
    }
}

/// Advances the accessibility query by one event.
pub fn query_selection(state: QueryState, event: QueryEvent) -> (step: QueryStep)
    ensures
        step@ == query_move(state, event@),
{
    match state {
        QueryState::Start { pid } => QueryStep::Perform(
            QueryState::AwaitTrust { pid },
            QueryAction::EnsureTrusted { prompt: true },
        ),
        QueryState::AwaitTrust { pid } => QueryStep::Perform(
            QueryState::AwaitFocusedElement,
            QueryAction::CopyFocusedElement { pid },
        ),
        QueryState::AwaitFocusedElement => {
            if served(&event) {
                QueryStep::Perform(QueryState::AwaitSelectedText, QueryAction::CopySelectedText)
            } else {
                QueryStep::Finished(Err(AccessError::NoFocusedElement))
            }
        },
        QueryState::AwaitSelectedText => QueryStep::Perform(
            QueryState::Releasing { selected: served(&event) },
            QueryAction::ReleaseElement,
        ),
        QueryState::Releasing { selected } => {
            if selected {
                QueryStep::Perform(QueryState::AwaitText, QueryAction::ReadText)
            } else {
                QueryStep::Finished(Err(AccessError::NoSelection))
            }
        },
        QueryState::AwaitText => match event {
            QueryEvent::Text(text) => QueryStep::Finished(Ok(text)),
            _ => QueryStep::Finished(Err(AccessError::NoSelection)),
        },
    }
}

impl QueryState {
    /// Whether the host holds the focused element's handle in this state.
    pub open spec fn holds_element(self) -> bool {
        self is AwaitSelectedText
    }
}

/// The element handle is obtained by one request only, released by the very
/// next action, and by no other; and the query never ends while the handle is
/// held. This holds of every state and of every event, so the handle is
/// released exactly once on every path on which it was obtained, whatever the
/// host reports.
pub proof fn element_is_released_on_every_path(state: QueryState, signal: QuerySignal)
    ensures
        match query_move(state, signal) {
            QueryMove::Perform(next, action) => {
                &&& action == QueryAction::ReleaseElement <==> state.holds_element()
                &&& next.holds_element() <==> action == QueryAction::CopySelectedText
                &&& next.holds_element() ==> !state.holds_element()
            },
            QueryMove::Finished(_) => !state.holds_element(),
        },
{
}

/// What the introspection service answers during one query.
pub struct Introspection {
    /// Whether the process is trusted.
    pub trusted: bool,
    /// The status of the request for the focused element.
    pub focused: Status,
    /// The status of the request for the element's selected text.
    pub selected: Status,
    /// The selected text, if that request is served.
    pub text: Seq<char>,
}

impl Introspection {
    /// What a host that performs every action reports back.
    pub open spec fn reply(self, action: QueryAction) -> QuerySignal {
        match action {
            QueryAction::EnsureTrusted { prompt } => QuerySignal::Trust(self.trusted),
            QueryAction::CopyFocusedElement { pid } => QuerySignal::Status(self.focused),
            QueryAction::CopySelectedText => QuerySignal::Status(self.selected),
            QueryAction::ReleaseElement => QuerySignal::Performed,
            QueryAction::ReadText => QuerySignal::Text(self.text),
        }
    }

    /// What a query yields against this service: the text when both requests
    /// are served, even if it is empty; otherwise the error of the first
    /// request that was not.
    pub open spec fn selection(self) -> Result<Seq<char>, AccessError> {
        if self.focused != STATUS_SUCCESS {
            Err(AccessError::NoFocusedElement)
        } else if self.selected != STATUS_SUCCESS {
            Err(AccessError::NoSelection)
        } else {
            Ok(self.text)
        }
    }

    /// The actions that a query asks for against this service, in order.
    pub open spec fn protocol(self, pid: ProcessId) -> Seq<QueryAction> {
        let opening = seq![
            QueryAction::EnsureTrusted { prompt: true },
            QueryAction::CopyFocusedElement { pid },
        ];
        if self.focused != STATUS_SUCCESS {
            opening
        } else if self.selected != STATUS_SUCCESS {
            opening + seq![QueryAction::CopySelectedText, QueryAction::ReleaseElement]
        } else {
            opening + seq![
                QueryAction::CopySelectedText,
                QueryAction::ReleaseElement,
                QueryAction::ReadText,
            ]
        }
    }
}

/// The actions asked of a host that performs every action against `service`,
/// from `state` on, and the query's result, within `fuel` steps.
pub open spec fn query_run(
    state: QueryState,
    signal: QuerySignal,
    service: Introspection,
    fuel: nat,
) -> (Seq<QueryAction>, Result<Seq<char>, AccessError>)
    decreases fuel,
{
    if fuel == 0 {
        (Seq::empty(), Err(AccessError::NoSelection))
    } else {
        match query_move(state, signal) {
            QueryMove::Finished(result) => (Seq::empty(), result),
            QueryMove::Perform(next, action) => {
                let rest = query_run(next, service.reply(action), service, (fuel - 1) as nat);
                (seq![action] + rest.0, rest.1)
            },
        }
    }
}

/// With a host that performs every action, a query asks for the trust check
/// and the focused element, goes on to the selected text only if the element
/// was obtained, releases the element whether or not the text was, and yields
/// what the service holds. The trust state changes nothing.
pub proof fn query_follows_protocol(pid: ProcessId, service: Introspection)
    ensures
        query_run(QueryState::Start { pid }, QuerySignal::Begin, service, 6) == (
            service.protocol(pid),
            service.selection(),
        ),
{
    reveal_with_fuel(query_run, 7);
    let run = query_run(QueryState::Start { pid }, QuerySignal::Begin, service, 6);
    assert(run.0 =~= service.protocol(pid));
}

} // verus!
