//! One attempt to read a device's serial number, as a machine that says
//! which system request comes next.
//!
//! The caller starts with [`Attempt::begin`], performs the action it is
//! given, and hands the system's answer to [`Attempt::step`], until the
//! action is [`Action::Finish`]. An answer that does not belong to the
//! request in flight changes nothing and asks for nothing.

use vstd::prelude::*;
use crate::error::QueryError;
use crate::request::{
    OpenMode, PropertyQueryRequest, IOCTL_STORAGE_QUERY_PROPERTY, RESPONSE_CAPACITY,
};
use crate::serial::{decode_serial, decoded_serial, outcome_view};

verus! {

/// The token by which the operating system knows an open device.
#[derive(Clone, Copy, Debug, PartialEq, Eq, Structural)]
pub struct DeviceHandle {
    /// The token as the system issued it.
    pub raw: usize,
}

/// A request that the caller performs for the attempt.
#[derive(Debug, PartialEq, Eq)]
pub enum Action {
    /// Open the device at `path`.
    Open { path: String, mode: OpenMode },
    /// Send `request` under `control_code` through `handle`, with a zeroed
    /// buffer of `capacity` bytes to receive the response.
    Query { handle: DeviceHandle, control_code: u32, request: PropertyQueryRequest, capacity: u32 },
    /// Release `handle`.
    Close { handle: DeviceHandle },
    /// Nothing is left to do: the attempt ended with `outcome`.
    Finish { outcome: Result<String, QueryError> },
}

/// What the operating system answered to a request.
#[derive(Debug, PartialEq, Eq)]
pub enum Event {
    /// The open was refused with this error code.
    OpenFailed { os_error: u32 },
    /// The open gave this handle.
    Opened { handle: DeviceHandle },
    /// The query was refused with this error code.
    QueryFailed { os_error: u32 },
    /// The query succeeded: `buffer` is the receiving buffer afterwards, and
    /// the system says it wrote `bytes_returned` bytes of it.
    QueryAnswered { buffer: Vec<u8>, bytes_returned: u32 },
    /// The handle is released.
    Closed,
}

/// Where an attempt stands.
#[derive(Debug, PartialEq, Eq)]
pub enum Attempt {
    /// The open is in flight.
    Opening,
    /// The device is open and the query is in flight.
    Querying { handle: DeviceHandle },
    /// The outcome is known and the release of the handle is in flight.
    Closing { handle: DeviceHandle, outcome: Result<String, QueryError> },
    /// The attempt is over and holds no handle.
    Finished,
}

/// An [`Action`] with its text as a sequence of characters.
pub enum ActionView {
    Open { path: Seq<char>, mode: OpenMode },
    Query { handle: DeviceHandle, control_code: u32, request: PropertyQueryRequest, capacity: u32 },
    Close { handle: DeviceHandle },
    Finish { outcome: Result<Seq<char>, QueryError> },
}

/// An [`Event`] with its buffer as a sequence of bytes.
pub enum EventView {
    OpenFailed { os_error: u32 },
    Opened { handle: DeviceHandle },
    QueryFailed { os_error: u32 },
    QueryAnswered { buffer: Seq<u8>, bytes_returned: u32 },
    Closed,
}

/// An [`Attempt`] with its text as a sequence of characters.
pub enum AttemptView {
    Opening,
    Querying { handle: DeviceHandle },
    Closing { handle: DeviceHandle, outcome: Result<Seq<char>, QueryError> },
    Finished,
}

impl View for Action {
    type V = ActionView;

    open spec fn view(&self) -> ActionView {
        match *self {
            Action::Open { path, mode } => ActionView::Open { path: path@, mode },
            Action::Query { handle, control_code, request, capacity } => ActionView::Query {
                handle,
                control_code,
                request,
                capacity,
            },
            Action::Close { handle } => ActionView::Close { handle },
            Action::Finish { outcome } => ActionView::Finish { outcome: outcome_view(outcome) },
        }
    }
}

impl View for Event {
    type V = EventView;

    open spec fn view(&self) -> EventView {
        match *self {
            Event::OpenFailed { os_error } => EventView::OpenFailed { os_error },
            Event::Opened { handle } => EventView::Opened { handle },
            Event::QueryFailed { os_error } => EventView::QueryFailed { os_error },
            Event::QueryAnswered { buffer, bytes_returned } => EventView::QueryAnswered {
                buffer: buffer@,
                bytes_returned,
            },
            Event::Closed => EventView::Closed,
        }
    }
}

impl View for Attempt {
    type V = AttemptView;

    open spec fn view(&self) -> AttemptView {
        match *self {
            Attempt::Opening => AttemptView::Opening,
            Attempt::Querying { handle } => AttemptView::Querying { handle },
            Attempt::Closing { handle, outcome } => AttemptView::Closing {
                handle,
                outcome: outcome_view(outcome),
            },
            Attempt::Finished => AttemptView::Finished,
        }
    }
}

/// The first action of an attempt on `path`.
pub open spec fn opening_action(path: Seq<char>) -> ActionView {
    ActionView::Open { path, mode: OpenMode::metadata_only() }
}

/// The query that follows a successful open.
pub open spec fn query_action(handle: DeviceHandle) -> ActionView {
    ActionView::Query {
        handle,
        control_code: IOCTL_STORAGE_QUERY_PROPERTY,
        request: PropertyQueryRequest::identity(),
        capacity: RESPONSE_CAPACITY,
    }
}

/// How an attempt in `state` reacts to `event`: the state it moves to and
/// the action it asks for, or nothing where the event does not answer the
/// request in flight.
pub open spec fn react(state: AttemptView, event: EventView) -> Option<(AttemptView, ActionView)> {
    match (state, event) {
        (AttemptView::Opening, EventView::OpenFailed { os_error }) => Some(
            (
                AttemptView::Finished,
                ActionView::Finish { outcome: Err(QueryError::OpenFailed(os_error)) },
            ),
        ),
        (AttemptView::Opening, EventView::Opened { handle }) => Some(
            (AttemptView::Querying { handle }, query_action(handle)),
        ),
        (AttemptView::Querying { handle }, EventView::QueryFailed { os_error }) => Some(
            (
                AttemptView::Closing { handle, outcome: Err(QueryError::QueryFailed(os_error)) },
                ActionView::Close { handle },
            ),
        ),
        (AttemptView::Querying { handle }, EventView::QueryAnswered { buffer, bytes_returned }) => {
            Some(
                (
                    AttemptView::Closing {
                        handle,
                        outcome: decoded_serial(buffer, bytes_returned),
                    },
                    ActionView::Close { handle },
                ),
            )
        },
        (AttemptView::Closing { handle, outcome }, EventView::Closed) => Some(
            (AttemptView::Finished, ActionView::Finish { outcome }),
        ),
        _ => None,
    }
}

/// The state that follows `state` when `event` arrives.
pub open spec fn next_state(state: AttemptView, event: EventView) -> AttemptView {
    match react(state, event) {
        Some((after, _)) => after,
        None => state,
    }
}

/// The action that `event` calls for in `state`, if any.
pub open spec fn next_action(state: AttemptView, event: EventView) -> Option<ActionView> {
    match react(state, event) {
        Some((_, action)) => Some(action),
        None => None,
    }
}

/// An action that may be missing, with its text as a sequence of characters.
pub open spec fn asked_view(asked: Option<Action>) -> Option<ActionView> {
    match asked {
        Some(action) => Some(action@),
        None => None,
    }
}

impl Attempt {
    /// Starts an attempt on the device at `path`. The path is passed on as
    /// it is; whether it names a device is for the system to say.
    pub fn begin(path: &str) -> (start: (Attempt, Action))
        ensures
            start.0@ == AttemptView::Opening,
            start.1@ == opening_action(path@),
    {
        (Attempt::Opening, Action::Open { path: path.to_owned(), mode: OpenMode::for_metadata() })
    }

    /// Takes the system's answer and says what to do next. An event that
    /// does not answer the request in flight leaves the attempt as it was
    /// and asks for nothing.
    pub fn step(self, event: Event) -> (next: (Attempt, Option<Action>))
        ensures
            next.0@ == next_state(self@, event@),
            asked_view(next.1) == next_action(self@, event@),
    {
        match self {
            Attempt::Opening => match event {
                Event::OpenFailed { os_error } => (
                    Attempt::Finished,
                    Some(Action::Finish { outcome: Err(QueryError::OpenFailed(os_error)) }),
                ),
                Event::Opened { handle } => (
                    Attempt::Querying { handle },
                    Some(
                        Action::Query {
                            handle,
                            control_code: IOCTL_STORAGE_QUERY_PROPERTY,
                            request: PropertyQueryRequest::device_identity(),
                            capacity: RESPONSE_CAPACITY,
                        },
                    ),
                ),
                _ => (Attempt::Opening, None),
            },
            Attempt::Querying { handle } => match event {
                Event::QueryFailed { os_error } => (
                    Attempt::Closing { handle, outcome: Err(QueryError::QueryFailed(os_error)) },
                    Some(Action::Close { handle }),
                ),
                Event::QueryAnswered { buffer, bytes_returned } => (
                    Attempt::Closing {
                        handle,
                        outcome: decode_serial(buffer.as_slice(), bytes_returned),
                    },
                    Some(Action::Close { handle }),
                ),
                _ => (Attempt::Querying { handle }, None),
            },
            Attempt::Closing { handle, outcome } => match event {
                Event::Closed => (Attempt::Finished, Some(Action::Finish { outcome })),
                _ => (Attempt::Closing { handle, outcome }, None),
            },
            Attempt::Finished => (Attempt::Finished, None),
        }
    }

    /// Whether the attempt is over.
    pub fn is_finished(&self) -> (over: bool)
        ensures
            over == (self@ is Finished),
    {
        match self {
            Attempt::Finished => true,
            _ => false,
        }
    }
}

} // verus!
