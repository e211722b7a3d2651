//! What an attempt does over a whole sequence of events, and what holds of
//! every such sequence.

use vstd::prelude::*;
use vstd::utf8::encode_utf8;
use crate::attempt::{
    next_action, next_state, opening_action, query_action, ActionView, AttemptView, DeviceHandle,
    EventView,
};
use crate::error::{QueryError, OS_ERROR_NOT_FOUND};
use crate::serial::{decoded_serial, holds_serial, law_held_serial_is_returned};
use crate::text::nul_free;

verus! {

/// The record of an attempt: where it stands, the actions it has asked for
/// in order, and the events it has taken as answers in order. Events that
/// answered nothing are not kept.
pub struct Trace {
    pub state: AttemptView,
    pub actions: Seq<ActionView>,
    pub answers: Seq<EventView>,
}

/// The record of an attempt on `path` that has only just begun.
pub open spec fn begun(path: Seq<char>) -> Trace {
    Trace { state: AttemptView::Opening, actions: seq![opening_action(path)], answers: seq![] }
}

/// The record after one more event.
pub open spec fn advance(trace: Trace, event: EventView) -> Trace {
    match next_action(trace.state, event) {
        Some(action) => Trace {
            state: next_state(trace.state, event),
            actions: trace.actions.push(action),
            answers: trace.answers.push(event),
        },
        None => trace,
    }
}

/// The record of an attempt on `path` to which `events` arrived in order.
pub open spec fn run(path: Seq<char>, events: Seq<EventView>) -> Trace
    decreases events.len(),
{
    if events.len() == 0 {
        begun(path)
    } else {
        advance(run(path, events.drop_last()), events.last())
    }
}

/// How many of `actions` release a handle.
pub open spec fn close_count(actions: Seq<ActionView>) -> nat
    decreases actions.len(),
{
    if actions.len() == 0 {
        0
    } else if actions.last() is Close {
        close_count(actions.drop_last()) + 1
    } else {
        close_count(actions.drop_last())
    }
}

/// How many of `answers` hand over a handle.
pub open spec fn opened_count(answers: Seq<EventView>) -> nat
    decreases answers.len(),
{
    if answers.len() == 0 {
        0
    } else if answers.last() is Opened {
        opened_count(answers.drop_last()) + 1
    } else {
        opened_count(answers.drop_last())
    }
}

/// What the answer to the query settles.
pub open spec fn query_outcome(answer: EventView) -> Option<Result<Seq<char>, QueryError>> {
    match answer {
        EventView::QueryFailed { os_error } => Some(Err(QueryError::QueryFailed(os_error))),
        EventView::QueryAnswered { buffer, bytes_returned } => Some(
            decoded_serial(buffer, bytes_returned),
        ),
        _ => None,
    }
}

/// The open is in flight and nothing has been answered.
pub open spec fn stands_opening(trace: Trace, path: Seq<char>) -> bool {
    &&& trace.state is Opening
    &&& trace.answers.len() == 0
    &&& trace.actions == seq![opening_action(path)]
}

/// The open gave a handle and the query through it is in flight.
pub open spec fn stands_querying(trace: Trace, path: Seq<char>) -> bool {
    &&& trace.answers.len() == 1
    &&& trace.answers[0] matches EventView::Opened { handle }
    &&& trace.state == AttemptView::Querying { handle }
    &&& trace.actions == seq![opening_action(path), query_action(handle)]
}

/// The query is answered and the release of the handle is in flight.
pub open spec fn stands_closing(trace: Trace, path: Seq<char>) -> bool {
    &&& trace.answers.len() == 2
    &&& trace.answers[0] matches EventView::Opened { handle }
    &&& query_outcome(trace.answers[1]) matches Some(outcome)
    &&& trace.state == AttemptView::Closing { handle, outcome }
    &&& trace.actions == seq![
        opening_action(path),
        query_action(handle),
        ActionView::Close { handle },
    ]
}

/// The attempt ended because the device could not be opened.
pub open spec fn ended_unopened(trace: Trace, path: Seq<char>) -> bool {
    &&& trace.state is Finished
    &&& trace.answers.len() == 1
    &&& trace.answers[0] matches EventView::OpenFailed { os_error }
    &&& trace.actions == seq![
        opening_action(path),
        ActionView::Finish { outcome: Err(QueryError::OpenFailed(os_error)) },
    ]
}

/// The attempt ended after the device was opened, queried and released.
pub open spec fn ended_released(trace: Trace, path: Seq<char>) -> bool {
    &&& trace.state is Finished
    &&& trace.answers.len() == 3
    &&& trace.answers[0] matches EventView::Opened { handle }
    &&& query_outcome(trace.answers[1]) matches Some(outcome)
    &&& trace.answers[2] is Closed
    &&& trace.actions == seq![
        opening_action(path),
        query_action(handle),
        ActionView::Close { handle },
        ActionView::Finish { outcome },
    ]
}

/// The five ways in which a record can stand.
pub open spec fn in_order(trace: Trace, path: Seq<char>) -> bool {
    ||| stands_opening(trace, path)
    ||| stands_querying(trace, path)
    ||| stands_closing(trace, path)
    ||| ended_unopened(trace, path)
    ||| ended_released(trace, path)
}

/// Whatever events arrive, and in whatever order, the attempt follows the
/// one course there is: open; then finish if the open failed, else query,
/// release and finish with what the query settled.
pub proof fn law_one_course(path: Seq<char>, events: Seq<EventView>)
    ensures
        in_order(run(path, events), path),
    decreases events.len(),
{
    if events.len() > 0 {
        law_one_course(path, events.drop_last());
        let before = run(path, events.drop_last());
        let after = run(path, events);
        let event = events.last();
        if next_action(before.state, event) is Some {
            assert(after.actions.len() == before.actions.len() + 1);
            assert(after.answers.last() == event);
            if stands_opening(before, path) {
                match event {
                    EventView::Opened { handle } => {
                        assert(after.actions =~= seq![opening_action(path), query_action(handle)]);
                        assert(stands_querying(after, path));
                    },
                    EventView::OpenFailed { os_error } => {
                        assert(after.actions =~= seq![
                            opening_action(path),
                            ActionView::Finish { outcome: Err(QueryError::OpenFailed(os_error)) },
                        ]);
                        assert(ended_unopened(after, path));
                    },
                    _ => {},
                }
            } else if stands_querying(before, path) {
                let handle = before.state->Querying_handle;
                assert(after.answers[0] == before.answers[0]);
                assert(after.actions =~= seq![
                    opening_action(path),
                    query_action(handle),
                    ActionView::Close { handle },
                ]);
                assert(stands_closing(after, path));
            } else if stands_closing(before, path) {
                let handle = before.state->Closing_handle;
                let outcome = before.state->Closing_outcome;
                assert(after.answers[0] == before.answers[0]);
                assert(after.answers[1] == before.answers[1]);
                assert(after.actions =~= seq![
                    opening_action(path),
                    query_action(handle),
                    ActionView::Close { handle },
                    ActionView::Finish { outcome },
                ]);
                assert(ended_released(after, path));
            }
        }
    }
}

/// Feeding one more event advances the record by that event.
pub proof fn lemma_run_push(path: Seq<char>, events: Seq<EventView>, event: EventView)
    ensures
        run(path, events.push(event)) == advance(run(path, events), event),
{
    assert(events.push(event).drop_last() =~= events);
}

/// Counting over a sequence that grew by one action.
pub proof fn lemma_close_count_push(actions: Seq<ActionView>, action: ActionView)
    ensures
        close_count(actions.push(action)) == close_count(actions) + if action is Close {
            1nat
        } else {
            0nat
        },
{
    assert(actions.push(action).drop_last() =~= actions);
}

/// Counting over a sequence that grew by one answer.
pub proof fn lemma_opened_count_push(answers: Seq<EventView>, answer: EventView)
    ensures
        opened_count(answers.push(answer)) == opened_count(answers) + if answer is Opened {
            1nat
        } else {
            0nat
        },
{
    assert(answers.push(answer).drop_last() =~= answers);
}

/// How the two counts stand in each state.
spec fn counts_match(trace: Trace) -> bool {
    let closed = close_count(trace.actions);
    let opened = opened_count(trace.answers);
    match trace.state {
        AttemptView::Opening => opened == 0 && closed == 0,
        AttemptView::Querying { .. } => opened == 1 && closed == 0,
        AttemptView::Closing { .. } => opened == 1 && closed == 1,
        AttemptView::Finished => opened <= 1 && closed == opened,
    }
}

proof fn lemma_counts_match(path: Seq<char>, events: Seq<EventView>)
    ensures
        counts_match(run(path, events)),
    decreases events.len(),
{
    if events.len() == 0 {
        assert(seq![opening_action(path)] =~= Seq::<ActionView>::empty().push(
            opening_action(path),
        ));
        lemma_close_count_push(Seq::empty(), opening_action(path));
    } else {
        lemma_counts_match(path, events.drop_last());
        let before = run(path, events.drop_last());
        let event = events.last();
        match next_action(before.state, event) {
            Some(action) => {
                lemma_close_count_push(before.actions, action);
                lemma_opened_count_push(before.answers, event);
            },
            None => {},
        }
    }
}

/// A handle is released exactly once. Whatever events arrive, the system
/// hands over at most one handle; no more handles are released than were
/// handed over, and none but the one that was; and once the attempt is
/// over, as many were released as were handed over: one where the device
/// opened, whether the query then succeeded, failed or gave a response that
/// does not decode, and none where it did not open.
pub proof fn law_handle_released_once(path: Seq<char>, events: Seq<EventView>)
    ensures
        ({
            let trace = run(path, events);
            &&& opened_count(trace.answers) <= 1
            &&& close_count(trace.actions) <= opened_count(trace.answers)
            &&& trace.state is Finished ==> close_count(trace.actions) == opened_count(
                trace.answers,
            )
            &&& forall|i: int|
                0 <= i < trace.actions.len() ==> (#[trigger] trace.actions[i] matches ActionView::Close {
                    handle,
                } ==> trace.answers.len() > 0 && trace.answers[0] == EventView::Opened { handle })
        }),
{
    lemma_counts_match(path, events);
    law_one_course(path, events);
}

/// The last action of a record, where it is the final one: the outcome
/// that the attempt ended with.
pub open spec fn outcome_of(trace: Trace) -> Option<Result<Seq<char>, QueryError>> {
    if trace.actions.len() > 0 && trace.actions.last() is Finish {
        Some(trace.actions.last()->outcome)
    } else {
        None
    }
}

/// An attempt is over exactly when it has given its outcome, and the
/// outcome is what the answers amount to: the open failure, or what the
/// answer to the query settled.
pub proof fn law_outcome_follows_answers(path: Seq<char>, events: Seq<EventView>)
    ensures
        ({
            let trace = run(path, events);
            &&& trace.state is Finished <==> outcome_of(trace) is Some
            &&& trace.state is Finished ==> outcome_of(trace) == Some(
                match trace.answers[0] {
                    EventView::OpenFailed { os_error } => Err(QueryError::OpenFailed(os_error)),
                    _ => query_outcome(trace.answers[1])->0,
                },
            )
        }),
{
    law_one_course(path, events);
}

/// A path that names no device: the open fails, the attempt ends at once
/// with that failure and releases nothing, and the failure counts as "not
/// found" exactly when the system's code says so.
pub proof fn law_absent_device(path: Seq<char>, os_error: u32)
    ensures
        ({
            let trace = run(path, seq![EventView::OpenFailed { os_error }]);
            &&& trace.state is Finished
            &&& outcome_of(trace) == Some(
                Err::<Seq<char>, QueryError>(QueryError::OpenFailed(os_error)),
            )
            &&& close_count(trace.actions) == 0
            &&& (QueryError::OpenFailed(os_error).not_found() <==> os_error
                == OS_ERROR_NOT_FOUND)
        }),
{
    let events = seq![EventView::OpenFailed { os_error }];
    assert(events =~= Seq::<EventView>::empty().push(EventView::OpenFailed { os_error }));
    lemma_run_push(path, Seq::empty(), EventView::OpenFailed { os_error });
    law_handle_released_once(path, events);
    assert(run(path, events).answers =~= events);
    assert(opened_count(events) == 0) by {
        lemma_opened_count_push(Seq::empty(), EventView::OpenFailed { os_error });
    }
}

/// A device that opens and answers the query: the attempt ends with what
/// the response decodes to, after releasing the handle once.
pub proof fn law_answered_query(
    path: Seq<char>,
    handle: DeviceHandle,
    buffer: Seq<u8>,
    bytes_returned: u32,
)
    ensures
        ({
            let trace = run(
                path,
                seq![
                    EventView::Opened { handle },
                    EventView::QueryAnswered { buffer, bytes_returned },
                    EventView::Closed,
                ],
            );
            &&& trace.state is Finished
            &&& outcome_of(trace) == Some(decoded_serial(buffer, bytes_returned))
            &&& close_count(trace.actions) == 1
        }),
{
    let first = EventView::Opened { handle };
    let second = EventView::QueryAnswered { buffer, bytes_returned };
    let third = EventView::Closed;
    let none = Seq::<EventView>::empty();
    assert(seq![first, second, third] =~= none.push(first).push(second).push(third));
    lemma_run_push(path, none, first);
    lemma_run_push(path, none.push(first), second);
    lemma_run_push(path, none.push(first).push(second), third);
    lemma_counts_match(path, seq![first, second, third]);
    let trace = run(path, seq![first, second, third]);
    lemma_opened_count_push(none, first);
    lemma_opened_count_push(none.push(first), second);
    lemma_opened_count_push(none.push(first).push(second), third);
    assert(trace.answers =~= none.push(first).push(second).push(third));
}

/// A device that exists gives its serial number. Where the device opens
/// and its response holds the UTF-8 bytes of `serial`, a text without NUL
/// characters, the attempt ends with `serial` itself, which is not empty
/// unless the device's serial number is.
pub proof fn law_existing_device_gives_its_serial(
    path: Seq<char>,
    handle: DeviceHandle,
    buffer: Seq<u8>,
    bytes_returned: u32,
    serial: Seq<char>,
)
    requires
        nul_free(serial),
        holds_serial(buffer, bytes_returned, encode_utf8(serial)),
    ensures
        outcome_of(
            run(
                path,
                seq![
                    EventView::Opened { handle },
                    EventView::QueryAnswered { buffer, bytes_returned },
                    EventView::Closed,
                ],
            ),
        ) == Some(Ok::<Seq<char>, QueryError>(serial)),
{
    law_answered_query(path, handle, buffer, bytes_returned);
    law_held_serial_is_returned(buffer, bytes_returned, serial);
}

/// A device that opens and refuses the query: the attempt ends with that
/// failure, after releasing the handle once.
pub proof fn law_refused_query(path: Seq<char>, handle: DeviceHandle, os_error: u32)
    ensures
        ({
            let trace = run(
                path,
                seq![
                    EventView::Opened { handle },
                    EventView::QueryFailed { os_error },
                    EventView::Closed,
                ],
            );
            &&& trace.state is Finished
            &&& outcome_of(trace) == Some(
                Err::<Seq<char>, QueryError>(QueryError::QueryFailed(os_error)),
            )
            &&& close_count(trace.actions) == 1
        }),
{
    let first = EventView::Opened { handle };
    let second = EventView::QueryFailed { os_error };
    let third = EventView::Closed;
    let none = Seq::<EventView>::empty();
    assert(seq![first, second, third] =~= none.push(first).push(second).push(third));
    lemma_run_push(path, none, first);
    lemma_run_push(path, none.push(first), second);
    lemma_run_push(path, none.push(first).push(second), third);
    lemma_counts_match(path, seq![first, second, third]);
    let trace = run(path, seq![first, second, third]);
    lemma_opened_count_push(none, first);
    lemma_opened_count_push(none.push(first), second);
    lemma_opened_count_push(none.push(first).push(second), third);
    assert(trace.answers =~= none.push(first).push(second).push(third));
}

} // verus!
