//! What each event leads to in a session, told by the stage and the event alone.

use crate::error::{CoordinatorManagerError, SessionError, SessionErrorView};
use crate::json::Meta;
use crate::manager::Job;
use crate::message::{
    Connected, ExecuteRequest, FeatureFlags, HandshakeMessage, MessageResponse, MessageView,
    WSMessageRequest,
};
use crate::message_laws::OutputText;
use crate::session::{
    Count, CountView, Effect, EffectView, Event, Outcome, PanicPayload, Received, SessionView,
    Stage, Step, StepView, Wait, WaitView, RESPONSE_CAPACITY,
};
use crate::session_laws::{Input, SessionTrace};
use std::sync::Arc;
use vstd::prelude::*;

verus! {

// What is done and waited for.

/// Three messages may be queued for the client.
pub proof fn law_queue_is_short()
    ensures
        RESPONSE_CAPACITY == 3,
{
}

/// A step tells what is counted, done and waited for, all three as they are.
pub proof fn law_steps_are_shown_as_they_are<C, H>(
    count: Count,
    effect: Effect<H>,
    wait: Wait<C>,
)
    ensures
        (Step::<C, H> { count: None, effect: None, wait })@ == (StepView::<C, H> {
            count: None,
            effect: None,
            wait: wait@,
        }),
        (Step::<C, H> { count: Some(count), effect: None, wait })@ == (StepView::<C, H> {
            count: Some(count@),
            effect: None,
            wait: wait@,
        }),
        (Step { count: None, effect: Some(effect), wait })@ == (StepView::<C, H> {
            count: None,
            effect: Some(effect@),
            wait: wait@,
        }),
        (Step { count: Some(count), effect: Some(effect), wait })@ == (StepView::<C, H> {
            count: Some(count@),
            effect: Some(effect@),
            wait: wait@,
        }),
        crate::session::step_view(None::<Step<C, H>>) is None,
        crate::session::step_view(Some(Step { count: Some(count), effect: Some(effect), wait }))
            == Some((Step { count: Some(count), effect: Some(effect), wait })@),
        crate::session::step_view(Some(Step { count: None, effect: Some(effect), wait })) == Some(
            (Step { count: None, effect: Some(effect), wait })@,
        ),
        crate::session::step_view(Some(Step::<C, H> { count: Some(count), effect: None, wait }))
            == Some((Step::<C, H> { count: Some(count), effect: None, wait })@),
        crate::session::step_view(Some(Step::<C, H> { count: None, effect: None, wait })) == Some(
            (Step::<C, H> { count: None, effect: None, wait })@,
        ),
{
}

/// What is counted and what is done at once are shown as they are.
pub proof fn law_effects_are_shown_as_they_are<H>(
    label: &'static str,
    text: String,
    handle: H,
    id: usize,
)
    ensures
        (Count::Incoming)@ == CountView::Incoming,
        (Count::Outgoing(label))@ == CountView::Outgoing(label@),
        (Effect::<H>::RecordError(text))@ == EffectView::<H>::RecordError(text@),
        (Effect::Abort(handle))@ == EffectView::Abort(handle),
        (Effect::<H>::StartJob(id))@ == EffectView::<H>::StartJob(id),
{
}

/// What is waited for is shown as it is.
pub proof fn law_waits_are_shown_as_they_are<C>(
    text: String,
    message: MessageResponse,
    error: SessionError,
    idle_counts: bool,
    id: usize,
    start: bool,
    shared: Arc<C>,
    request: ExecuteRequest,
    meta: Meta,
    coordinator: C,
    left: Option<CoordinatorManagerError>,
)
    ensures
        (Wait::<C>::Receive)@ == WaitView::<C>::Receive,
        (Wait::<C>::DecodeHandshake(text))@ == WaitView::<C>::DecodeHandshake(text@),
        (Wait::<C>::SendText(text))@ == WaitView::<C>::SendText(text@),
        (Wait::<C>::Queue(Ok(message)))@ == WaitView::<C>::Queue(Ok(message@)),
        (Wait::<C>::Queue(Err(error)))@ == WaitView::<C>::Queue(Err(error@)),
        (Wait::<C>::Select { idle_counts })@ == (WaitView::<C>::Select { idle_counts }),
        (Wait::<C>::DecodeRequest(text))@ == WaitView::<C>::DecodeRequest(text@),
        (Wait::<C>::CreateCoordinator)@ == WaitView::<C>::CreateCoordinator,
        (Wait::<C>::Spawn { job: Job { id, start, coordinator: shared }, request, meta })@ == (
        WaitView::<C>::Spawn { id, start, coordinator: *shared, request, meta }),
        (Wait::<C>::Disconnect)@ == WaitView::<C>::Disconnect,
        (Wait::<C>::ShutDownCoordinator(coordinator))@ == WaitView::<C>::ShutDownCoordinator(
            coordinator,
        ),
        (Wait::<C>::ShutDownJobs)@ == WaitView::<C>::ShutDownJobs,
        (Wait::<C>::Close(left))@ == WaitView::<C>::Close(left),
{
}

/// A session is as it should be exactly if its manager is.
pub proof fn law_session_is_as_sound_as_its_manager<C, H>(state: SessionView<C, H>)
    ensures
        state.wf() <==> state.manager.wf(),
{
}

/// An event that leads somewhere leads there; one that does not changes nothing.
pub proof fn law_event_leads_where_it_leads<C, H>(
    state: SessionView<C, H>,
    event: Event<C, H>,
    sole: bool,
    next: SessionView<C, H>,
    step: Option<StepView<C, H>>,
)
    ensures
        state.goes_to(event, sole, next, step) <==> match state.after(event, sole) {
            Some(led) => step is Some && led == (next, step->Some_0),
            None => step is None && next == state,
        },
{
}

// The opening.

/// A session begins by waiting for the client, with nothing of its own.
pub proof fn law_session_begins_with_nothing<C, H>(feature_flags: FeatureFlags)
    ensures
        SessionView::<C, H>::initial(feature_flags).stage == (Stage::Connecting { feature_flags }),
        SessionView::<C, H>::initial(feature_flags).manager.coordinator is None,
        SessionView::<C, H>::initial(feature_flags).manager.tasks.len() == 0,
        SessionView::<C, H>::initial(feature_flags).manager.abort_handles == seq![None::<H>],
{
}

/// The client's first message is read if it is text, and ends the session if it is
/// anything else.
pub proof fn law_first_message_is_read<C, H>(
    state: SessionView<C, H>,
    feature_flags: FeatureFlags,
    received: Received,
    sole: bool,
)
    requires
        state.stage == (Stage::Connecting { feature_flags }),
    ensures
        state.after(Event::Received(received), sole) == match received {
            Received::Text(text) => Some(
                (
                    SessionView {
                        stage: Stage::Greeting { text, feature_flags },
                        manager: state.manager,
                    },
                    StepView::<C, H> {
                        count: None,
                        effect: None,
                        wait: WaitView::DecodeHandshake(text@),
                    },
                ),
            ),
            _ => Some(
                (
                    SessionView { stage: Stage::Closed, manager: state.manager },
                    StepView::<C, H> { count: None, effect: None, wait: WaitView::Close(None) },
                ),
            ),
        },
{
}

/// A handshake is sent back, as it came, exactly if it accepts the API; its metadata
/// has no say in it. Otherwise, or if it is no handshake, the session is over.
pub proof fn law_accepting_the_api_is_all_it_takes<C, H>(
    state: SessionView<C, H>,
    text: String,
    feature_flags: FeatureFlags,
    payload: Connected,
    meta: Meta,
    sole: bool,
)
    requires
        state.stage == (Stage::Greeting { text, feature_flags }),
    ensures
        state.after(
            Event::HandshakeDecoded(Some(HandshakeMessage::Connected { payload, meta })),
            sole,
        ) == if payload.i_accept_this_is_an_unsupported_api {
            Some(
                (
                    SessionView {
                        stage: Stage::Echoing { feature_flags },
                        manager: state.manager,
                    },
                    StepView::<C, H> { count: None, effect: None, wait: WaitView::SendText(text@) },
                ),
            )
        } else {
            Some(
                (
                    SessionView { stage: Stage::Closed, manager: state.manager },
                    StepView::<C, H> { count: None, effect: None, wait: WaitView::Close(None) },
                ),
            )
        },
        state.after(Event::HandshakeDecoded(None), sole) == Some(
            (
                SessionView { stage: Stage::Closed, manager: state.manager },
                StepView::<C, H> { count: None, effect: None, wait: WaitView::Close(None) },
            ),
        ),
{
}

/// Once the handshake was sent back the feature flags are queued, as the session was
/// given them and under the server's own metadata. If it could not be sent the
/// session is over.
pub proof fn law_feature_flags_follow_the_handshake<C, H>(
    state: SessionView<C, H>,
    feature_flags: FeatureFlags,
    sole: bool,
)
    requires
        state.stage == (Stage::Echoing { feature_flags }),
    ensures
        state.after(Event::Sent(true), sole) == Some(
            (
                SessionView { stage: Stage::Welcoming, manager: state.manager },
                StepView::<C, H> {
                    count: None,
                    effect: None,
                    wait: WaitView::Queue(
                        Ok(
                            MessageView::FeatureFlags {
                                threshold: feature_flags.execute_via_websocket_threshold,
                                meta: crate::json::integer_member("sequenceNumber"@, -1),
                            },
                        ),
                    ),
                },
            ),
        ),
        state.after(Event::Sent(false), sole) == Some(
            (
                SessionView { stage: Stage::Closed, manager: state.manager },
                StepView::<C, H> { count: None, effect: None, wait: WaitView::Close(None) },
            ),
        ),
{
}

/// The session is open once the feature flags were queued, and over if they could not
/// be.
pub proof fn law_session_is_open_once_the_flags_are_queued<C, H>(
    state: SessionView<C, H>,
    sole: bool,
)
    requires
        state.stage is Welcoming,
    ensures
        state.after(Event::Queued(true), sole) == Some(
            (
                SessionView { stage: Stage::Open, manager: state.manager },
                StepView::<C, H> {
                    count: None,
                    effect: None,
                    wait: WaitView::Select { idle_counts: state.manager.tasks.len() == 0 },
                },
            ),
        ),
        state.after(Event::Queued(false), sole) == Some(
            (
                SessionView { stage: Stage::Closed, manager: state.manager },
                StepView::<C, H> { count: None, effect: None, wait: WaitView::Close(None) },
            ),
        ),
{
}

// The open session.

/// What is received on the open session is counted. When the client has gone the
/// connection is let go, whatever the session still has; a text is read; anything
/// else leaves the session as it was, and a fault of the connection is recorded.
pub proof fn law_session_ends_when_the_client_has_gone<C, H>(
    state: SessionView<C, H>,
    text: String,
    sole: bool,
)
    requires
        state.stage is Open,
    ensures
        state.after(Event::Received(Received::Closed), sole) == Some(
            (
                SessionView { stage: Stage::Leaving, manager: state.manager },
                StepView::<C, H> {
                    count: Some(CountView::Incoming),
                    effect: None,
                    wait: WaitView::Disconnect,
                },
            ),
        ),
        state.after(Event::Received(Received::Text(text)), sole) == Some(
            (
                SessionView { stage: Stage::Reading, manager: state.manager },
                StepView::<C, H> {
                    count: Some(CountView::Incoming),
                    effect: None,
                    wait: WaitView::DecodeRequest(text@),
                },
            ),
        ),
        state.after(Event::Received(Received::Other), sole) == Some(
            (
                state,
                StepView::<C, H> {
                    count: Some(CountView::Incoming),
                    effect: None,
                    wait: WaitView::Select { idle_counts: state.manager.tasks.len() == 0 },
                },
            ),
        ),
        state.after(Event::Received(Received::Failed(text)), sole) == Some(
            (
                state,
                StepView::<C, H> {
                    count: Some(CountView::Incoming),
                    effect: Some(EffectView::RecordError(text@)),
                    wait: WaitView::Select { idle_counts: state.manager.tasks.len() == 0 },
                },
            ),
        ),
{
}

/// A message that comes up in the queue is sent as its own text; in place of an error
/// a message is sent that holds its wording, under the server's own metadata.
pub proof fn law_what_comes_up_is_sent_as_it_is<C, H>(
    state: SessionView<C, H>,
    message: MessageResponse,
    error: String,
    sole: bool,
)
    requires
        state.stage is Open,
    ensures
        state.after(Event::Response(Ok(message)), sole) == Some(
            (
                SessionView { stage: Stage::Sending { success: true }, manager: state.manager },
                StepView::<C, H> {
                    count: None,
                    effect: None,
                    wait: WaitView::SendText(message@.text()),
                },
            ),
        ),
        state.after(Event::Response(Err(error)), sole) == Some(
            (
                SessionView { stage: Stage::Sending { success: false }, manager: state.manager },
                StepView::<C, H> {
                    count: None,
                    effect: None,
                    wait: WaitView::SendText(
                        (MessageView::Error {
                            error: error@,
                            meta: crate::json::integer_member("sequenceNumber"@, -1),
                        }).text(),
                    ),
                },
            ),
        ),
{
}

/// Output reaches the client as what it was: from the text that the session sends for
/// it the stream, the piece itself and the text of its metadata can be read.
pub proof fn law_output_reaches_the_client_as_it_was<C, H>(
    state: SessionView<C, H>,
    payload: String,
    meta: Meta,
    sole: bool,
)
    requires
        state.stage is Open,
    ensures
        match state.after(
            Event::Response(Ok(MessageResponse::ExecuteStdout { payload, meta })),
            sole,
        ) {
            Some((_, step)) => match step.wait {
                WaitView::SendText(text) => crate::message_laws::read_output(text) == Some(
                    OutputText {
                        tag: "output/execute/wsExecuteStdout"@,
                        payload: payload@,
                        meta: crate::json::json_text(*meta),
                    },
                ),
                _ => false,
            },
            None => false,
        },
        match state.after(
            Event::Response(Ok(MessageResponse::ExecuteStderr { payload, meta })),
            sole,
        ) {
            Some((_, step)) => match step.wait {
                WaitView::SendText(text) => crate::message_laws::read_output(text) == Some(
                    OutputText {
                        tag: "output/execute/wsExecuteStderr"@,
                        payload: payload@,
                        meta: crate::json::json_text(*meta),
                    },
                ),
                _ => false,
            },
            None => false,
        },
{
    crate::message_laws::law_output_reads_as_it_was(payload, meta);
}

/// A message that was sent is counted, by whether it was one or an error in its
/// place, and the session is open again; when one could not be sent the connection is
/// let go, and nothing is counted.
pub proof fn law_sending_is_counted_or_ends_the_session<C, H>(
    state: SessionView<C, H>,
    success: bool,
    sole: bool,
)
    requires
        state.stage == (Stage::Sending { success }),
    ensures
        state.after(Event::Sent(true), sole) == Some(
            (
                SessionView { stage: Stage::Open, manager: state.manager },
                StepView::<C, H> {
                    count: Some(
                        CountView::Outgoing(
                            if success {
                                "true"@
                            } else {
                                "false"@
                            },
                        ),
                    ),
                    effect: None,
                    wait: WaitView::Select { idle_counts: state.manager.tasks.len() == 0 },
                },
            ),
        ),
        state.after(Event::Sent(false), sole) == Some(
            (
                SessionView { stage: Stage::Leaving, manager: state.manager },
                StepView::<C, H> { count: None, effect: None, wait: WaitView::Disconnect },
            ),
        ),
{
}

// Requests.

/// A request for which there is a coordinator becomes a job on it: behind the others,
/// under the least number that is free, and at work at once while fewer than two are
/// live. Where there is none a coordinator is made first.
pub proof fn law_request_is_spawned_or_waits_for_a_coordinator<C, H>(
    state: SessionView<C, H>,
    request: ExecuteRequest,
    meta: Meta,
    sole: bool,
)
    requires
        state.stage is Reading,
        state.manager.tasks.len() <= usize::MAX,
    ensures
        ({
            let event = Event::RequestDecoded(
                Ok(WSMessageRequest::ExecuteRequest { payload: request, meta }),
            );
            match (state.manager.coordinator, state.after(event, sole)) {
                (Some(coordinator), Some((next, step))) => {
                    let id = next.manager.tasks.last();
                    &&& next.stage is Spawning
                    &&& next.manager.coordinator == Some(coordinator)
                    &&& next.manager.tasks == state.manager.tasks.push(id)
                    &&& next.manager.abort_handles == state.manager.abort_handles
                    &&& !state.manager.tasks.contains(id)
                    &&& forall|lesser: usize| lesser < id ==> state.manager.tasks.contains(lesser)
                    &&& step == (StepView::<C, H> {
                        count: None,
                        effect: None,
                        wait: WaitView::Spawn {
                            id,
                            start: state.manager.tasks.len() < 2,
                            coordinator,
                            request,
                            meta,
                        },
                    })
                },
                (None, Some((next, step))) => {
                    &&& next == (SessionView {
                        stage: Stage::Creating { request, meta },
                        manager: state.manager,
                    })
                    &&& step == (StepView::<C, H> {
                        count: None,
                        effect: None,
                        wait: WaitView::CreateCoordinator,
                    })
                },
                (_, None) => false,
            }
        }),
{
    crate::manager::lemma_fresh_id_exists(state.manager.tasks, 0);
}

/// Once a coordinator was made for it, the request that waited for it becomes a job on
/// that very coordinator; if none could be made it is answered with the reason.
pub proof fn law_waiting_request_gets_the_new_coordinator<C, H>(
    state: SessionView<C, H>,
    request: ExecuteRequest,
    meta: Meta,
    coordinator: C,
    source: String,
    sole: bool,
)
    requires
        state.stage == (Stage::Creating { request, meta }),
        state.manager.tasks.len() <= usize::MAX,
    ensures
        match state.after(Event::Created(Ok(coordinator)), sole) {
            Some((next, step)) => {
                let id = next.manager.tasks.last();
                &&& next.stage is Spawning
                &&& next.manager.coordinator == Some(coordinator)
                &&& next.manager.tasks == state.manager.tasks.push(id)
                &&& next.manager.abort_handles == state.manager.abort_handles
                &&& !state.manager.tasks.contains(id)
                &&& forall|lesser: usize| lesser < id ==> state.manager.tasks.contains(lesser)
                &&& step == (StepView::<C, H> {
                    count: None,
                    effect: None,
                    wait: WaitView::Spawn {
                        id,
                        start: state.manager.tasks.len() < 2,
                        coordinator,
                        request,
                        meta,
                    },
                })
            },
            None => false,
        },
        state.after(Event::Created(Err(source)), sole) == Some(
            (
                SessionView { stage: Stage::Answering, manager: state.manager },
                StepView::<C, H> {
                    count: None,
                    effect: None,
                    wait: WaitView::Queue(
                        Err(
                            SessionErrorView::StreamingCoordinatorSpawn {
                                source: CoordinatorManagerError::New { source },
                            },
                        ),
                    ),
                },
            ),
        ),
{
    crate::manager::lemma_fresh_id_exists(state.manager.tasks, 0);
}

/// Once a job was spawned its handle is kept, the job whose handle was kept before is
/// cancelled, and the session is open again.
pub proof fn law_new_job_cancels_the_older_one<C, H>(
    state: SessionView<C, H>,
    handle: H,
    sole: bool,
)
    requires
        state.stage is Spawning,
        state.manager.wf(),
    ensures
        match state.after(Event::Spawned(handle), sole) {
            Some((next, step)) => {
                &&& next.stage is Open
                &&& next.manager.coordinator == state.manager.coordinator
                &&& next.manager.tasks == state.manager.tasks
                &&& next.manager.abort_handles == seq![Some(handle)]
                &&& step == (StepView::<C, H> {
                    count: None,
                    effect: match state.manager.abort_handles[0] {
                        Some(older) => Some(EffectView::Abort(older)),
                        None => None,
                    },
                    wait: WaitView::Select { idle_counts: state.manager.tasks.len() == 0 },
                })
            },
            None => false,
        },
{
}

/// A text that is no request is answered with the reason, and nothing else is done.
pub proof fn law_text_that_is_no_request_is_answered<C, H>(
    state: SessionView<C, H>,
    source: String,
    sole: bool,
)
    requires
        state.stage is Reading,
    ensures
        state.after(Event::RequestDecoded(Err(source)), sole) == Some(
            (
                SessionView { stage: Stage::Answering, manager: state.manager },
                StepView::<C, H> {
                    count: None,
                    effect: None,
                    wait: WaitView::Queue(
                        Err(SessionErrorView::Deserialization { source: source@ }),
                    ),
                },
            ),
        ),
{
}

/// An answer to a request that nobody takes does not end the session; a report that
/// nobody takes does.
pub proof fn law_unheard_report_ends_the_session<C, H>(
    state: SessionView<C, H>,
    queued: bool,
    sole: bool,
)
    ensures
        state.stage is Answering || (state.stage is Reporting && queued) ==> state.after(
            Event::Queued(queued),
            sole,
        ) == Some(
            (
                SessionView { stage: Stage::Open, manager: state.manager },
                StepView::<C, H> {
                    count: None,
                    effect: None,
                    wait: WaitView::Select { idle_counts: state.manager.tasks.len() == 0 },
                },
            ),
        ),
        state.stage is Reporting && !queued ==> state.after(Event::Queued(queued), sole) == Some(
            (
                SessionView { stage: Stage::Leaving, manager: state.manager },
                StepView::<C, H> { count: None, effect: None, wait: WaitView::Disconnect },
            ),
        ),
{
}

// Jobs that end.

/// The words of a panic are those that it came with, if it came with any.
pub proof fn law_panic_speaks_for_itself(text: String, literal: &'static str)
    ensures
        (PanicPayload::Owned(text)).words() == text@,
        (PanicPayload::Literal(literal)).words() == literal@,
        (PanicPayload::Unknown).words() == "An unknown panic occurred"@,
{
}

/// A job that has ended is taken out. If it was one of the two oldest, the third goes
/// to work, if there is one. A panic is reported in the words it came with; any other
/// end is not.
pub proof fn law_job_that_ended_makes_room<C, H>(
    state: SessionView<C, H>,
    place: int,
    outcome: Outcome,
    sole: bool,
)
    requires
        state.stage is Open,
        state.manager.wf(),
        0 <= place < state.manager.tasks.len(),
    ensures
        ({
            let tasks = state.manager.tasks;
            match state.after(Event::Joined { id: tasks[place], outcome }, sole) {
                Some((next, step)) => {
                    &&& next.manager.coordinator == state.manager.coordinator
                    &&& next.manager.tasks == tasks.remove(place)
                    &&& next.manager.abort_handles == state.manager.abort_handles
                    &&& step.count is None
                    &&& step.effect == if place < 2 && tasks.len() > 2 {
                        Some(EffectView::<H>::StartJob(tasks[2]))
                    } else {
                        None
                    }
                    &&& match outcome {
                        Outcome::Panicked(payload) => {
                            &&& next.stage is Reporting
                            &&& step.wait == WaitView::<C>::Queue(
                                Err(
                                    SessionErrorView::WebSocketTaskPanic {
                                        text: match payload {
                                            PanicPayload::Owned(text) => text@,
                                            PanicPayload::Literal(text) => text@,
                                            PanicPayload::Unknown => "An unknown panic occurred"@,
                                        },
                                    },
                                ),
                            )
                        },
                        _ => {
                            &&& next.stage is Open
                            &&& step.wait == (WaitView::<C>::Select {
                                idle_counts: tasks.len() == 1,
                            })
                        },
                    }
                },
                None => false,
            }
        }),
{
    crate::manager_laws::law_turn_comes_when_an_older_job_leaves(state.manager, place);
    assert(state.manager.tasks.contains(state.manager.tasks[place]));
}

// Giving up the coordinator.

/// A session without jobs gives up its coordinator when it has been idle. Whether the
/// coordinator came back decides what follows: it is shut down if it did, and the
/// client is told that it is still in use if it did not. Without a coordinator
/// nothing happens.
pub proof fn law_idle_session_shuts_down_what_came_back<C, H>(
    state: SessionView<C, H>,
    coordinator: C,
    sole: bool,
)
    requires
        state.stage is Open,
        state.manager.tasks.len() == 0,
    ensures
        state.manager.coordinator is None ==> state.after(Event::IdleElapsed, sole) == Some(
            (
                state,
                StepView::<C, H> {
                    count: None,
                    effect: None,
                    wait: WaitView::Select { idle_counts: true },
                },
            ),
        ),
        state.manager.coordinator == Some(coordinator) ==> match state.after(
            Event::IdleElapsed,
            sole,
        ) {
            Some((next, step)) => {
                &&& next.manager.coordinator is None
                &&& next.manager.tasks == state.manager.tasks
                &&& next.manager.abort_handles == state.manager.abort_handles
                &&& step.count is None
                &&& step.effect is None
                &&& if sole {
                    next.stage is Idling && step.wait == WaitView::ShutDownCoordinator(coordinator)
                } else {
                    &&& next.stage is Reporting
                    &&& step.wait == WaitView::<C>::Queue(
                        Err(
                            SessionErrorView::StreamingCoordinatorIdle {
                                source: CoordinatorManagerError::OutstandingCoordinator,
                            },
                        ),
                    )
                }
            },
            None => false,
        },
{
    if state.manager.coordinator is None {
        assert(state.manager.without_coordinator() == state.manager);
        assert(SessionView { stage: Stage::Open, manager: state.manager } == state);
    }
}

/// An idle session is open again once its coordinator was shut down; if that failed
/// the client is told.
pub proof fn law_idle_session_is_open_again<C, H>(
    state: SessionView<C, H>,
    source: String,
    sole: bool,
)
    requires
        state.stage is Idling,
    ensures
        state.after(Event::CoordinatorShutDown(Ok(())), sole) == Some(
            (
                SessionView { stage: Stage::Open, manager: state.manager },
                StepView::<C, H> {
                    count: None,
                    effect: None,
                    wait: WaitView::Select { idle_counts: state.manager.tasks.len() == 0 },
                },
            ),
        ),
        state.after(Event::CoordinatorShutDown(Err(source)), sole) == Some(
            (
                SessionView { stage: Stage::Reporting, manager: state.manager },
                StepView::<C, H> {
                    count: None,
                    effect: None,
                    wait: WaitView::Queue(
                        Err(
                            SessionErrorView::StreamingCoordinatorIdle {
                                source: CoordinatorManagerError::Shutdown { source },
                            },
                        ),
                    ),
                },
            ),
        ),
{
}

/// Once the connection is gone the coordinator is given up. Whether it came back
/// decides what follows: it is shut down if it did; if it did not the session is over,
/// and that is left for the log. Without a coordinator the jobs are shut down.
pub proof fn law_coordinator_that_came_back_is_shut_down<C, H>(
    state: SessionView<C, H>,
    sole: bool,
)
    requires
        state.stage is Leaving,
    ensures
        match state.after(Event::Disconnected, sole) {
            Some((next, step)) => {
                &&& next.manager.coordinator is None
                &&& next.manager.tasks == state.manager.tasks
                &&& next.manager.abort_handles == state.manager.abort_handles
                &&& step.count is None
                &&& step.effect is None
                &&& match (state.manager.coordinator, sole) {
                    (None, _) => next.stage is Stopping && step.wait is ShutDownJobs,
                    (Some(coordinator), true) => {
                        &&& next.stage is Closing
                        &&& step.wait == WaitView::ShutDownCoordinator(coordinator)
                    },
                    (Some(_), false) => {
                        &&& next.stage is Closed
                        &&& step.wait == WaitView::<C>::Close(
                            Some(CoordinatorManagerError::OutstandingCoordinator),
                        )
                    },
                }
            },
            None => false,
        },
{
}

/// After the coordinator the jobs are shut down, and then the session is over. A
/// coordinator that could not be shut down ends the session at once, and that is left
/// for the log.
pub proof fn law_jobs_are_shut_down_after_the_coordinator<C, H>(
    state: SessionView<C, H>,
    source: String,
    sole: bool,
)
    ensures
        state.stage is Closing ==> state.after(Event::CoordinatorShutDown(Ok(())), sole) == Some(
            (
                SessionView { stage: Stage::Stopping, manager: state.manager },
                StepView::<C, H> { count: None, effect: None, wait: WaitView::ShutDownJobs },
            ),
        ),
        state.stage is Closing ==> state.after(Event::CoordinatorShutDown(Err(source)), sole)
            == Some(
            (
                SessionView { stage: Stage::Closed, manager: state.manager },
                StepView::<C, H> {
                    count: None,
                    effect: None,
                    wait: WaitView::Close(Some(CoordinatorManagerError::Shutdown { source })),
                },
            ),
        ),
        state.stage is Stopping ==> match state.after(Event::JobsShutDown, sole) {
            Some((next, step)) => {
                &&& next.stage is Closed
                &&& next.manager.coordinator == state.manager.coordinator
                &&& next.manager.tasks.len() == 0
                &&& next.manager.abort_handles == state.manager.abort_handles
                &&& step == (StepView::<C, H> {
                    count: None,
                    effect: None,
                    wait: WaitView::Close(None),
                })
            },
            None => false,
        },
{
}

/// What giving up the coordinator came to decides how a session that is left goes on,
/// and nothing else does.
pub proof fn law_left_session_follows_the_outcome<C, H>(
    state: SessionView<C, H>,
    coordinator: C,
    error: CoordinatorManagerError,
)
    ensures
        state.left(Ok(None)) == (
            SessionView { stage: Stage::Stopping, manager: state.manager },
            StepView::<C, H> { count: None, effect: None, wait: WaitView::ShutDownJobs },
        ),
        state.left(Ok(Some(coordinator))) == (
            SessionView { stage: Stage::Closing, manager: state.manager },
            StepView::<C, H> {
                count: None,
                effect: None,
                wait: WaitView::ShutDownCoordinator(coordinator),
            },
        ),
        state.left(Err(error)) == (
            SessionView { stage: Stage::Closed, manager: state.manager },
            StepView::<C, H> { count: None, effect: None, wait: WaitView::Close(Some(error)) },
        ),
{
}

/// What giving up the coordinator for want of jobs came to decides how the session
/// goes on, and nothing else does.
pub proof fn law_idle_session_follows_the_outcome<C, H>(
    state: SessionView<C, H>,
    coordinator: C,
    source: CoordinatorManagerError,
)
    ensures
        state.idled(Ok(None)) == (
            SessionView { stage: Stage::Open, manager: state.manager },
            StepView::<C, H> {
                count: None,
                effect: None,
                wait: WaitView::Select { idle_counts: state.manager.tasks.len() == 0 },
            },
        ),
        state.idled(Ok(Some(coordinator))) == (
            SessionView { stage: Stage::Idling, manager: state.manager },
            StepView::<C, H> {
                count: None,
                effect: None,
                wait: WaitView::ShutDownCoordinator(coordinator),
            },
        ),
        state.idled(Err(source)) == (
            SessionView { stage: Stage::Reporting, manager: state.manager },
            StepView::<C, H> {
                count: None,
                effect: None,
                wait: WaitView::Queue(
                    Err(SessionErrorView::StreamingCoordinatorIdle { source }),
                ),
            },
        ),
{
}

// What is taken.

/// What the stage says about what is waited for.
spec fn awaits<C, H>(state: SessionView<C, H>, wait: WaitView<C>) -> bool {
    match state.stage {
        Stage::Connecting { .. } => wait is Receive,
        Stage::Greeting { .. } => wait is DecodeHandshake,
        Stage::Echoing { .. } => wait is SendText,
        Stage::Welcoming => wait is Queue,
        Stage::Open => wait == (WaitView::<C>::Select {
            idle_counts: state.manager.tasks.len() == 0,
        }),
        Stage::Reading => wait is DecodeRequest,
        Stage::Creating { .. } => wait is CreateCoordinator,
        Stage::Spawning => wait is Spawn,
        Stage::Answering => wait is Queue,
        Stage::Reporting => wait is Queue,
        Stage::Sending { .. } => wait is SendText,
        Stage::Idling => wait is ShutDownCoordinator,
        Stage::Leaving => wait is Disconnect,
        Stage::Closing => wait is ShutDownCoordinator,
        Stage::Stopping => wait is ShutDownJobs,
        Stage::Closed => wait is Close,
    }
}

proof fn lemma_awaits<C, H>(feature_flags: FeatureFlags, inputs: Seq<Input<C, H>>)
    requires
        crate::session_laws::session_run(feature_flags, inputs) is Some,
    ensures
        ({
            let SessionTrace { state, steps } = crate::session_laws::session_run(
                feature_flags,
                inputs,
            )->Some_0;
            &&& steps.len() == inputs.len()
            &&& awaits(
                state,
                if inputs.len() == 0 {
                    WaitView::Receive
                } else {
                    steps.last().wait
                },
            )
        }),
    decreases inputs.len(),
{
    if inputs.len() > 0 {
        lemma_awaits(feature_flags, inputs.drop_last());
    }
}

/// A session takes every event that answers what it waits for, and no other; it first
/// waits for the client. While it waits for whatever comes next it takes what is
/// received, what comes up in the queue, the end of any live job, and the end of the
/// idle time if that counts. Once it is over it takes nothing.
pub proof fn law_session_takes_what_answers<C, H>(
    feature_flags: FeatureFlags,
    inputs: Seq<Input<C, H>>,
    event: Event<C, H>,
    sole: bool,
)
    requires
        crate::session_laws::session_run(feature_flags, inputs) is Some,
    ensures
        ({
            let SessionTrace { state, steps } = crate::session_laws::session_run(
                feature_flags,
                inputs,
            )->Some_0;
            let wait = if inputs.len() == 0 {
                WaitView::Receive
            } else {
                steps.last().wait
            };
            state.after(event, sole) is Some <==> match wait {
                WaitView::Receive => event is Received,
                WaitView::DecodeHandshake(_) => event is HandshakeDecoded,
                WaitView::SendText(_) => event is Sent,
                WaitView::Queue(_) => event is Queued,
                WaitView::Select { idle_counts } => match event {
                    Event::Received(_) => true,
                    Event::Response(_) => true,
                    Event::Joined { id, .. } => state.manager.tasks.contains(id),
                    Event::IdleElapsed => idle_counts,
                    _ => false,
                },
                WaitView::DecodeRequest(_) => event is RequestDecoded,
                WaitView::CreateCoordinator => event is Created,
                WaitView::Spawn { .. } => event is Spawned,
                WaitView::Disconnect => event is Disconnected,
                WaitView::ShutDownCoordinator(_) => event is CoordinatorShutDown,
                WaitView::ShutDownJobs => event is JobsShutDown,
                WaitView::Close(_) => false,
            }
        }),
{
    lemma_awaits(feature_flags, inputs);
}

} // verus!
