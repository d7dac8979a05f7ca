//! What holds of every session, whatever happens in it.

use crate::error::{CoordinatorManagerError, SessionErrorView};
use crate::json::Meta;
use crate::manager::{ManagerView, N_KINDS, N_PARALLEL};
use crate::message::{ExecuteRequest, FeatureFlags, MessageResponse, MessageView, WSMessageRequest};
use crate::session::{
    CountView, EffectView, Event, Outcome, Received, SessionView, Stage, StepView, WaitView,
};
use vstd::prelude::*;

verus! {

/// An event, and whether the manager's handle to the coordinator was the only
/// one left when it happened.
pub struct Input<C, H> {
    pub event: Event<C, H>,
    pub sole: bool,
}

/// Where a session stands, and all its steps on the way.
pub struct SessionTrace<C, H> {
    pub state: SessionView<C, H>,
    pub steps: Seq<StepView<C, H>>,
}

/// The course of a session through `inputs`. `None` where an event does not
/// answer what was waited for.
pub open spec fn session_run<C, H>(
    feature_flags: FeatureFlags,
    inputs: Seq<Input<C, H>>,
) -> Option<SessionTrace<C, H>>
    decreases inputs.len(),
{
    if inputs.len() == 0 {
        Some(SessionTrace { state: SessionView::initial(feature_flags), steps: seq![] })
    } else {
        match session_run(feature_flags, inputs.drop_last()) {
            Some(trace) => match trace.state.after(inputs.last().event, inputs.last().sole) {
                Some((state, step)) => Some(SessionTrace { state, steps: trace.steps.push(step) }),
                None => None,
            },
            None => None,
        }
    }
}

// The opening of a session.

/// The message that tells the client of the feature flags.
pub open spec fn welcome(feature_flags: FeatureFlags) -> MessageView {
    MessageView::FeatureFlags {
        threshold: feature_flags.execute_via_websocket_threshold,
        meta: crate::json::server_meta(),
    }
}

/// Whether a session opens as it should: the client's first message is read; if
/// it is text and accepts the API it is sent back as it came; if that succeeds
/// the feature flags are queued. Where one of these fails the session is over,
/// and the client has been sent nothing but its own message.
pub open spec fn opens_properly<C, H>(
    feature_flags: FeatureFlags,
    inputs: Seq<Input<C, H>>,
    steps: Seq<StepView<C, H>>,
) -> bool {
    &&& steps.len() >= 1 ==> match inputs[0].event {
        Event::Received(Received::Text(text)) => {
            &&& steps[0].wait == WaitView::<C>::DecodeHandshake(text@)
            &&& steps.len() >= 2 ==> if inputs[1].event matches Event::HandshakeDecoded(handshake)
                && crate::session::accepted(handshake) {
                &&& steps[1].wait == WaitView::<C>::SendText(text@)
                &&& steps.len() >= 3 ==> if inputs[2].event == Event::<C, H>::Sent(true) {
                    steps[2].wait == WaitView::<C>::Queue(Ok(welcome(feature_flags)))
                } else {
                    steps[2].wait == WaitView::<C>::Close(None) && steps.len() == 3
                }
            } else {
                steps[1].wait == WaitView::<C>::Close(None) && steps.len() == 2
            }
        },
        _ => steps[0].wait == WaitView::<C>::Close(None) && steps.len() == 1,
    }
}

/// What the stage says about the first inputs.
spec fn opening_stage<C, H>(
    feature_flags: FeatureFlags,
    inputs: Seq<Input<C, H>>,
    stage: Stage,
) -> bool {
    &&& inputs.len() == 0 ==> stage == (Stage::Connecting { feature_flags })
    &&& inputs.len() == 1 ==> match inputs[0].event {
        Event::Received(Received::Text(text)) => stage == (Stage::Greeting { text, feature_flags }),
        _ => stage is Closed,
    }
    &&& inputs.len() == 2 ==> if inputs[1].event matches Event::HandshakeDecoded(handshake)
        && crate::session::accepted(handshake) {
        stage == (Stage::Echoing { feature_flags })
    } else {
        stage is Closed
    }
    &&& inputs.len() == 3 ==> if inputs[2].event == Event::<C, H>::Sent(true) {
        stage is Welcoming
    } else {
        stage is Closed
    }
    &&& inputs.len() > 3 ==> !(stage is Connecting) && !(stage is Greeting) && !(stage is Echoing)
        && !(stage is Welcoming)
}

proof fn lemma_opening<C, H>(feature_flags: FeatureFlags, inputs: Seq<Input<C, H>>)
    requires
        session_run(feature_flags, inputs) is Some,
    ensures
        session_run(feature_flags, inputs)->Some_0.steps.len() == inputs.len(),
        opening_stage(
            feature_flags,
            inputs,
            session_run(feature_flags, inputs)->Some_0.state.stage,
        ),
        opens_properly(feature_flags, inputs, session_run(feature_flags, inputs)->Some_0.steps),
    decreases inputs.len(),
{
    if inputs.len() > 0 {
        let before = inputs.drop_last();
        lemma_opening(feature_flags, before);
        let SessionTrace { state, steps } = session_run(feature_flags, before)->Some_0;
        let (next, step) = state.after(inputs.last().event, inputs.last().sole)->Some_0;
        let all = steps.push(step);
        if before.len() > 0 {
            assert(inputs[0] == before[0]);
            assert(all[0] == steps[0]);
        }
        if before.len() > 1 {
            assert(inputs[1] == before[1]);
            assert(all[1] == steps[1]);
        }
        if before.len() > 2 {
            assert(inputs[2] == before[2]);
            assert(all[2] == steps[2]);
        }
    }
}

/// Every session opens properly: nothing is sent, queued or run for a client that
/// has not accepted the API, and the feature flags are the first message after
/// the handshake.
pub proof fn law_session_opens_properly<C, H>(
    feature_flags: FeatureFlags,
    inputs: Seq<Input<C, H>>,
)
    requires
        session_run(feature_flags, inputs) is Some,
    ensures
        opens_properly(feature_flags, inputs, session_run(feature_flags, inputs)->Some_0.steps),
{
    lemma_opening(feature_flags, inputs);
}

// What every event keeps.

/// What holds of a session at every stage.
spec fn consistent<C, H>(state: SessionView<C, H>) -> bool {
    &&& state.manager.abort_handles.len() == N_KINDS
    &&& match state.stage {
        Stage::Connecting { .. } => state.manager == ManagerView::<C, H>::initial(),
        Stage::Greeting { .. } => state.manager == ManagerView::<C, H>::initial(),
        Stage::Echoing { .. } => state.manager == ManagerView::<C, H>::initial(),
        Stage::Welcoming => state.manager == ManagerView::<C, H>::initial(),
        Stage::Creating { .. } => state.manager.coordinator is None,
        Stage::Idling => state.manager.coordinator is None,
        Stage::Closing => state.manager.coordinator is None,
        Stage::Stopping => state.manager.coordinator is None,
        Stage::Closed => state.manager.coordinator is None,
        _ => true,
    }
}

proof fn lemma_consistent<C, H>(feature_flags: FeatureFlags, inputs: Seq<Input<C, H>>)
    requires
        session_run(feature_flags, inputs) is Some,
    ensures
        consistent(session_run(feature_flags, inputs)->Some_0.state),
    decreases inputs.len(),
{
    if inputs.len() > 0 {
        lemma_consistent(feature_flags, inputs.drop_last());
    }
}

/// Whether a machine has numbers for the jobs that are live at any time on the way.
pub open spec fn jobs_fit<C, H>(feature_flags: FeatureFlags, inputs: Seq<Input<C, H>>) -> bool
    decreases inputs.len(),
{
    &&& session_run(feature_flags, inputs) matches Some(trace) && trace.state.manager.tasks.len()
        <= usize::MAX
    &&& inputs.len() > 0 ==> jobs_fit(feature_flags, inputs.drop_last())
}

/// Live jobs have numbers of their own.
pub proof fn law_live_jobs_are_distinct<C, H>(
    feature_flags: FeatureFlags,
    inputs: Seq<Input<C, H>>,
)
    requires
        jobs_fit(feature_flags, inputs),
    ensures
        session_run(feature_flags, inputs)->Some_0.state.wf(),
    decreases inputs.len(),
{
    lemma_consistent(feature_flags, inputs);
    if inputs.len() > 0 {
        let before = inputs.drop_last();
        law_live_jobs_are_distinct(feature_flags, before);
        let state = session_run(feature_flags, before)->Some_0.state;
        match inputs.last().event {
            Event::RequestDecoded(_) => {
                crate::manager::lemma_with_job_distinct(state.manager);
            },
            Event::Created(Ok(coordinator)) => {
                crate::manager::lemma_with_job_distinct(
                    state.manager.with_coordinator(coordinator),
                );
            },
            Event::Joined { id, .. } => {
                crate::manager::lemma_without_job(state.manager, id);
            },
            _ => {},
        }
    }
}

// One job of a kind at a time.

/// The handles of the jobs that were spawned, in order.
pub open spec fn spawned_handles<C, H>(inputs: Seq<Input<C, H>>) -> Seq<H>
    decreases inputs.len(),
{
    if inputs.len() == 0 {
        seq![]
    } else {
        match inputs.last().event {
            Event::Spawned(handle) => spawned_handles(inputs.drop_last()).push(handle),
            _ => spawned_handles(inputs.drop_last()),
        }
    }
}

/// The handles of the jobs that were cancelled, in order.
pub open spec fn cancelled_handles<C, H>(steps: Seq<StepView<C, H>>) -> Seq<H>
    decreases steps.len(),
{
    if steps.len() == 0 {
        seq![]
    } else {
        match steps.last().effect {
            Some(EffectView::Abort(handle)) => cancelled_handles(steps.drop_last()).push(handle),
            _ => cancelled_handles(steps.drop_last()),
        }
    }
}

/// All of a sequence but its last element.
pub open spec fn all_but_last<T>(s: Seq<T>) -> Seq<T> {
    if s.len() == 0 {
        s
    } else {
        s.drop_last()
    }
}

/// Only one job goes on at a time: whenever a job has been spawned, every job
/// before it has been cancelled, and no other.
pub proof fn law_older_jobs_are_cancelled<C, H>(
    feature_flags: FeatureFlags,
    inputs: Seq<Input<C, H>>,
)
    requires
        session_run(feature_flags, inputs) is Some,
    ensures
        cancelled_handles(session_run(feature_flags, inputs)->Some_0.steps) == all_but_last(
            spawned_handles(inputs),
        ),
        session_run(feature_flags, inputs)->Some_0.state.manager.handle() == if spawned_handles(
            inputs,
        ).len() == 0 {
            None
        } else {
            Some(spawned_handles(inputs).last())
        },
    decreases inputs.len(),
{
    if inputs.len() > 0 {
        let before = inputs.drop_last();
        law_older_jobs_are_cancelled(feature_flags, before);
        lemma_consistent(feature_flags, before);
        let SessionTrace { state, steps } = session_run(feature_flags, before)->Some_0;
        let (next, step) = state.after(inputs.last().event, inputs.last().sole)->Some_0;
        assert(steps.push(step).drop_last() =~= steps);
        match inputs.last().event {
            Event::Spawned(handle) => {
                assert(spawned_handles(inputs).drop_last() =~= spawned_handles(before));
                if spawned_handles(before).len() > 0 {
                    assert(all_but_last(spawned_handles(before)).push(
                        spawned_handles(before).last(),
                    ) =~= spawned_handles(before));
                }
            },
            _ => {},
        }
    }
}

// Limited parallelism.

/// The jobs that were told to go to work and have not ended: a job goes to work
/// when it is spawned with leave to start, or when its turn has come.
pub open spec fn at_work<C, H>(inputs: Seq<Input<C, H>>, steps: Seq<StepView<C, H>>) -> Set<usize>
    decreases inputs.len(),
{
    if inputs.len() == 0 {
        Set::empty()
    } else {
        let before = at_work(inputs.drop_last(), steps.drop_last());
        let left = match inputs.last().event {
            Event::Joined { id, .. } => before.remove(id),
            Event::JobsShutDown => Set::empty(),
            _ => before,
        };
        let turned = match steps.last().effect {
            Some(EffectView::StartJob(id)) => left.insert(id),
            _ => left,
        };
        match steps.last().wait {
            WaitView::Spawn { id, start, .. } => if start {
                turned.insert(id)
            } else {
                turned
            },
            _ => turned,
        }
    }
}

proof fn lemma_at_work<C, H>(feature_flags: FeatureFlags, inputs: Seq<Input<C, H>>)
    requires
        jobs_fit(feature_flags, inputs),
    ensures
        at_work(inputs, session_run(feature_flags, inputs)->Some_0.steps) == session_run(
            feature_flags,
            inputs,
        )->Some_0.state.manager.running().to_set(),
    decreases inputs.len(),
{
    let SessionTrace { state: last, steps: all } = session_run(feature_flags, inputs)->Some_0;
    if inputs.len() == 0 {
        assert(last.manager.running().to_set() =~= Set::empty());
    } else {
        let before = inputs.drop_last();
        lemma_at_work(feature_flags, before);
        law_live_jobs_are_distinct(feature_flags, before);
        let SessionTrace { state, steps } = session_run(feature_flags, before)->Some_0;
        let (next, step) = state.after(inputs.last().event, inputs.last().sole)->Some_0;
        assert(all.drop_last() =~= steps);
        match inputs.last().event {
            Event::Joined { id, .. } => {
                crate::manager::lemma_without_job(state.manager, id);
            },
            Event::JobsShutDown => {
                assert(next.manager.running().to_set() =~= Set::empty());
            },
            Event::RequestDecoded(_) => {
                crate::manager::lemma_with_job_running(state.manager);
            },
            Event::Created(Ok(coordinator)) => {
                crate::manager::lemma_with_job_running(state.manager.with_coordinator(coordinator));
            },
            _ => {},
        }
    }
}

/// Only the oldest of the live jobs are at work.
proof fn lemma_oldest_at_work<C, H>(feature_flags: FeatureFlags, inputs: Seq<Input<C, H>>)
    requires
        session_run(feature_flags, inputs) is Some,
    ensures
        at_work(inputs, session_run(feature_flags, inputs)->Some_0.steps).subset_of(
            session_run(feature_flags, inputs)->Some_0.state.manager.running().to_set(),
        ),
    decreases inputs.len(),
{
    if inputs.len() > 0 {
        let before = inputs.drop_last();
        lemma_oldest_at_work(feature_flags, before);
        let SessionTrace { state, steps } = session_run(feature_flags, before)->Some_0;
        let (next, step) = state.after(inputs.last().event, inputs.last().sole)->Some_0;
        assert(steps.push(step).drop_last() =~= steps);
        assert(steps.push(step).last() == step);
        match inputs.last().event {
            Event::Joined { id, .. } => {
                crate::manager::lemma_others_go_on(state.manager, id);
            },
            Event::RequestDecoded(_) => {
                crate::manager::lemma_with_job_running(state.manager);
            },
            Event::Created(Ok(coordinator)) => {
                crate::manager::lemma_with_job_running(state.manager.with_coordinator(coordinator));
            },
            _ => {},
        }
    }
}

/// At no time are more jobs at work than may run at once.
pub proof fn law_parallelism_is_limited<C, H>(
    feature_flags: FeatureFlags,
    inputs: Seq<Input<C, H>>,
)
    requires
        session_run(feature_flags, inputs) is Some,
    ensures
        at_work(inputs, session_run(feature_flags, inputs)->Some_0.steps).finite(),
        at_work(inputs, session_run(feature_flags, inputs)->Some_0.steps).len() <= N_PARALLEL,
{
    let SessionTrace { state, steps } = session_run(feature_flags, inputs)->Some_0;
    let running = state.manager.running();
    lemma_oldest_at_work(feature_flags, inputs);
    running.lemma_cardinality_of_set();
    vstd::seq_lib::seq_to_set_is_finite(running);
    vstd::set_lib::lemma_len_subset(at_work(inputs, steps), running.to_set());
}

/// The jobs at work are the oldest of the live jobs, and a job waits only while
/// as many are at work as may be.
pub proof fn law_jobs_start_in_order<C, H>(feature_flags: FeatureFlags, inputs: Seq<Input<C, H>>)
    requires
        jobs_fit(feature_flags, inputs),
    ensures
        ({
            let SessionTrace { state, steps } = session_run(feature_flags, inputs)->Some_0;
            forall|i: int|
                0 <= i < state.manager.tasks.len() ==> (at_work(inputs, steps).contains(
                    #[trigger] state.manager.tasks[i],
                ) <==> i < N_PARALLEL)
        }),
{
    let trace = session_run(feature_flags, inputs)->Some_0;
    lemma_at_work(feature_flags, inputs);
    law_live_jobs_are_distinct(feature_flags, inputs);
    let tasks = trace.state.manager.tasks;
    let running = trace.state.manager.running();
    assert forall|i: int| 0 <= i < tasks.len() implies (running.to_set().contains(
        #[trigger] tasks[i],
    ) <==> i < N_PARALLEL) by {
        if i < N_PARALLEL {
            assert(running[i] == tasks[i]);
        } else if running.contains(tasks[i]) {
            let j = choose|j: int| 0 <= j < running.len() && running[j] == tasks[i];
            assert(tasks[j] == tasks[i]);
        }
    }
}

// The coordinator.

/// How many coordinators were made.
pub open spec fn made<C, H>(inputs: Seq<Input<C, H>>) -> nat
    decreases inputs.len(),
{
    if inputs.len() == 0 {
        0
    } else {
        made(inputs.drop_last()) + if inputs.last().event matches Event::Created(Ok(_)) {
            1nat
        } else {
            0
        }
    }
}

/// Whether a step gives up a coordinator: it is to be shut down, or it cannot be
/// because it is still in use.
pub open spec fn gives_up<C, H>(step: StepView<C, H>) -> bool {
    match step.wait {
        WaitView::ShutDownCoordinator(_) => true,
        WaitView::Close(Some(CoordinatorManagerError::OutstandingCoordinator)) => true,
        WaitView::Queue(Err(SessionErrorView::StreamingCoordinatorIdle { source })) => source
            is OutstandingCoordinator,
        _ => false,
    }
}

/// How many coordinators were given up.
pub open spec fn given_up<C, H>(steps: Seq<StepView<C, H>>) -> nat
    decreases steps.len(),
{
    if steps.len() == 0 {
        0
    } else {
        given_up(steps.drop_last()) + if gives_up(steps.last()) {
            1nat
        } else {
            0
        }
    }
}

/// A session has at most one coordinator at a time, gives up each that it made
/// once, and has none left when it is over.
pub proof fn law_one_coordinator_at_a_time<C, H>(
    feature_flags: FeatureFlags,
    inputs: Seq<Input<C, H>>,
)
    requires
        session_run(feature_flags, inputs) is Some,
    ensures
        ({
            let SessionTrace { state, steps } = session_run(feature_flags, inputs)->Some_0;
            &&& made(inputs) == given_up(steps) + if state.manager.coordinator is Some {
                1nat
            } else {
                0
            }
            &&& state.stage is Closed ==> made(inputs) == given_up(steps)
        }),
    decreases inputs.len(),
{
    lemma_consistent(feature_flags, inputs);
    if inputs.len() > 0 {
        let before = inputs.drop_last();
        law_one_coordinator_at_a_time(feature_flags, before);
        lemma_consistent(feature_flags, before);
        let SessionTrace { state, steps } = session_run(feature_flags, before)->Some_0;
        let (next, step) = state.after(inputs.last().event, inputs.last().sole)->Some_0;
        assert(steps.push(step).drop_last() =~= steps);
        assert(steps.push(step).last() == step);
    }
}

/// A coordinator is made on demand: only for a request, and only if there is
/// none.
pub proof fn law_coordinator_is_made_on_demand<C, H>(
    state: SessionView<C, H>,
    event: Event<C, H>,
    sole: bool,
)
    requires
        state.after(event, sole) matches Some((_, step)) && step.wait is CreateCoordinator,
    ensures
        state.stage is Reading,
        event matches Event::RequestDecoded(Ok(_)),
        state.manager.coordinator is None,
{
}

/// A job always gets the coordinator that the session has.
pub proof fn law_job_gets_the_coordinator<C, H>(
    state: SessionView<C, H>,
    event: Event<C, H>,
    sole: bool,
)
    requires
        state.after(event, sole) matches Some((_, step)) && step.wait is Spawn,
    ensures
        match state.after(event, sole) {
            Some((next, step)) => step.wait matches WaitView::Spawn { coordinator, .. }
                && next.manager.coordinator == Some(coordinator),
            None => false,
        },
{
}

/// Only a session without live jobs gives up its coordinator for want of jobs:
/// the idle time counts exactly while no job is live.
pub proof fn law_idle_only_without_jobs<C, H>(
    state: SessionView<C, H>,
    event: Event<C, H>,
    sole: bool,
)
    ensures
        state.stage is Open ==> (state.after(Event::IdleElapsed, sole) is Some
            <==> state.manager.tasks.len() == 0),
        state.after(event, sole) matches Some((next, step)) ==> {
            step.wait matches WaitView::Select { idle_counts } ==> {
                &&& next.stage is Open
                &&& idle_counts == (next.manager.tasks.len() == 0)
            }
        },
{
}

/// When no other handle to the coordinator is left, giving it up for want of jobs
/// is never refused.
pub proof fn law_unused_coordinator_can_be_given_up<C, H>(state: SessionView<C, H>)
    requires
        state.stage is Open,
        state.manager.tasks.len() == 0,
    ensures
        match (state.manager.coordinator, state.after(Event::IdleElapsed, true)) {
            (Some(coordinator), Some((next, step))) => {
                &&& step.wait == WaitView::<C>::ShutDownCoordinator(coordinator)
                &&& next.manager.coordinator is None
            },
            (None, after) => after == Some(state.open(None)),
            _ => false,
        },
{
    if state.manager.coordinator is None {
        assert(state.manager.without_coordinator() == state.manager);
    }
}

/// How an idle session goes on follows what giving up the coordinator came to:
/// nothing is queued if the coordinator came back and was shut down, one error if
/// it did not come back or could not be shut down, and the session stays open
/// where that error could be queued.
pub proof fn law_idling_goes_on_as_giving_up_went<C, H>(
    state: SessionView<C, H>,
    idled: Result<Option<C>, CoordinatorManagerError>,
    result: Result<(), String>,
    sole: bool,
)
    ensures
        match idled {
            Ok(None) => state.idled(idled) == state.open(None),
            Ok(Some(coordinator)) => {
                let (idling, step) = state.idled(idled);
                &&& step.wait == WaitView::<C>::ShutDownCoordinator(coordinator)
                &&& match (idling.after(Event::CoordinatorShutDown(result), sole), result) {
                    (Some(next), Ok(_)) => next == state.open(None),
                    (Some((reporting, told)), Err(source)) => {
                        &&& told.wait == WaitView::<C>::Queue(
                            Err(
                                SessionErrorView::StreamingCoordinatorIdle {
                                    source: CoordinatorManagerError::Shutdown { source },
                                },
                            ),
                        )
                        &&& reporting.after(Event::Queued(true), sole) == Some(state.open(None))
                    },
                    _ => false,
                }
            },
            Err(source) => {
                let (reporting, told) = state.idled(idled);
                &&& told.wait == WaitView::<C>::Queue(
                    Err(SessionErrorView::StreamingCoordinatorIdle { source }),
                )
                &&& reporting.after(Event::Queued(true), sole) == Some(state.open(None))
            },
        },
{
}

// Requests and messages.

/// A request becomes a job as it came, with its own metadata, whether the
/// coordinator was there or had to be made; if that fails it is answered with the
/// reason.
pub proof fn law_request_becomes_a_job<C, H>(
    state: SessionView<C, H>,
    request: ExecuteRequest,
    meta: Meta,
    result: Result<C, String>,
    sole: bool,
)
    requires
        state.stage is Reading,
    ensures
        ({
            let decoded = Event::RequestDecoded(
                Ok(WSMessageRequest::ExecuteRequest { payload: request, meta }),
            );
            match state.after(decoded, sole) {
                Some((next, step)) => match state.manager.coordinator {
                    Some(held) => step.wait matches WaitView::Spawn {
                        coordinator,
                        request: spawned,
                        meta: attached,
                        ..
                    } && coordinator == held && spawned == request && attached == meta,
                    None => {
                        &&& step.wait is CreateCoordinator
                        &&& match (next.after(Event::Created(result), sole), result) {
                            (Some((_, step)), Ok(made)) => step.wait matches WaitView::Spawn {
                                coordinator,
                                request: spawned,
                                meta: attached,
                                ..
                            } && coordinator == made && spawned == request && attached == meta,
                            (Some((_, step)), Err(source)) => step.wait == WaitView::<C>::Queue(
                                Err(
                                    SessionErrorView::StreamingCoordinatorSpawn {
                                        source: CoordinatorManagerError::New { source },
                                    },
                                ),
                            ),
                            _ => false,
                        }
                    },
                },
                None => false,
            }
        }),
{
}

/// Jobs come from requests only.
pub proof fn law_jobs_come_from_requests<C, H>(
    state: SessionView<C, H>,
    event: Event<C, H>,
    sole: bool,
)
    requires
        state.after(event, sole) matches Some((_, step)) && step.wait is Spawn,
    ensures
        ({
            let wait = state.after(event, sole)->Some_0.1.wait;
            match (state.stage, event) {
                (
                    Stage::Reading,
                    Event::RequestDecoded(Ok(WSMessageRequest::ExecuteRequest { payload, meta })),
                ) => wait->Spawn_request == payload && wait->Spawn_meta == meta,
                (Stage::Creating { request, meta }, Event::Created(Ok(_))) => wait->Spawn_request
                    == request && wait->Spawn_meta == meta,
                _ => false,
            }
        }),
{
}

/// The client is sent nothing but its own handshake, once it is accepted, and
/// what comes up in the queue.
pub proof fn law_only_queued_messages_are_sent<C, H>(
    state: SessionView<C, H>,
    event: Event<C, H>,
    sole: bool,
)
    requires
        state.after(event, sole) matches Some((_, step)) && step.wait is SendText,
    ensures
        ({
            let wait = state.after(event, sole)->Some_0.1.wait;
            match (state.stage, event) {
                (Stage::Greeting { text, .. }, Event::HandshakeDecoded(handshake)) => {
                    &&& crate::session::accepted(handshake)
                    &&& wait == WaitView::<C>::SendText(text@)
                },
                (Stage::Open, Event::Response(response)) => wait == WaitView::<C>::SendText(
                    crate::session::response_text(response),
                ),
                _ => false,
            }
        }),
{
}

/// A text that is no request is answered with the reason, and the session goes on
/// whether or not the answer could be queued.
pub proof fn law_unreadable_request_is_answered<C, H>(
    state: SessionView<C, H>,
    text: String,
    source: String,
    queued: bool,
    sole: bool,
)
    requires
        state.stage is Open,
    ensures
        match state.after(Event::Received(Received::Text(text)), sole) {
            Some((reading, asked)) => {
                &&& asked.wait == WaitView::<C>::DecodeRequest(text@)
                &&& match reading.after(Event::RequestDecoded(Err(source)), sole) {
                    Some((answering, told)) => {
                        &&& told.wait == WaitView::<C>::Queue(
                            Err(SessionErrorView::Deserialization { source: source@ }),
                        )
                        &&& answering.after(Event::Queued(queued), sole) == Some(state.open(None))
                    },
                    None => false,
                }
            },
            None => false,
        },
{
    assert(SessionView { stage: Stage::Open, ..state } == state);
}

/// What comes up in the queue is sent as it reads, and counted when it was sent;
/// when it cannot be sent the connection is let go.
pub proof fn law_queued_message_is_sent<C, H>(
    state: SessionView<C, H>,
    response: Result<MessageResponse, String>,
    sole: bool,
)
    requires
        state.stage is Open,
    ensures
        match state.after(Event::Response(response), sole) {
            Some((sending, step)) => {
                &&& step.wait == WaitView::<C>::SendText(crate::session::response_text(response))
                &&& sending.after(Event::Sent(true), sole) == Some(
                    crate::session::counted(
                        state.open(None),
                        CountView::Outgoing(
                            if response is Ok {
                                "true"@
                            } else {
                                "false"@
                            },
                        ),
                    ),
                )
                &&& sending.after(Event::Sent(false), sole) == Some(state.leave())
            },
            None => false,
        },
{
}

/// The end of a job leads to a message only if the job panicked; then the client
/// is told what it panicked with.
pub proof fn law_only_panics_are_reported<C, H>(
    state: SessionView<C, H>,
    id: usize,
    outcome: Outcome,
    sole: bool,
)
    requires
        state.stage is Open,
        state.manager.tasks.contains(id),
    ensures
        match (state.after(Event::Joined { id, outcome }, sole), outcome) {
            (Some((_, step)), Outcome::Panicked(payload)) => step.wait == WaitView::<C>::Queue(
                Err(SessionErrorView::WebSocketTaskPanic { text: payload.words() }),
            ),
            (Some((_, step)), _) => step.wait is Select,
            (None, _) => false,
        },
{
}

/// The texts that were sent to the client, in order.
pub open spec fn texts<C, H>(steps: Seq<StepView<C, H>>) -> Seq<Seq<char>>
    decreases steps.len(),
{
    if steps.len() == 0 {
        seq![]
    } else {
        match steps.last().wait {
            WaitView::SendText(text) => texts(steps.drop_last()).push(text),
            _ => texts(steps.drop_last()),
        }
    }
}

/// The client's own handshake, once it was accepted.
pub open spec fn echo<C, H>(inputs: Seq<Input<C, H>>) -> Seq<Seq<char>> {
    if inputs.len() < 2 {
        seq![]
    } else {
        match (inputs[0].event, inputs[1].event) {
            (
                Event::Received(Received::Text(text)),
                Event::HandshakeDecoded(handshake),
            ) => if crate::session::accepted(handshake) {
                seq![text@]
            } else {
                seq![]
            },
            _ => seq![],
        }
    }
}

/// The texts of what came up in the queue, in order.
pub open spec fn queued_texts<C, H>(inputs: Seq<Input<C, H>>) -> Seq<Seq<char>>
    decreases inputs.len(),
{
    if inputs.len() == 0 {
        seq![]
    } else {
        match inputs.last().event {
            Event::Response(response) => queued_texts(inputs.drop_last()).push(
                crate::session::response_text(response),
            ),
            _ => queued_texts(inputs.drop_last()),
        }
    }
}

/// What is sent in a session is the client's own handshake and then what came up
/// in the queue, all of it and in order.
pub proof fn law_echo_then_the_queue_is_sent<C, H>(
    feature_flags: FeatureFlags,
    inputs: Seq<Input<C, H>>,
)
    requires
        session_run(feature_flags, inputs) is Some,
    ensures
        texts(session_run(feature_flags, inputs)->Some_0.steps) == echo(inputs) + queued_texts(
            inputs,
        ),
    decreases inputs.len(),
{
    if inputs.len() == 0 {
        assert(texts(Seq::<StepView<C, H>>::empty()) =~= echo(inputs) + queued_texts(inputs));
    } else {
        let before = inputs.drop_last();
        law_echo_then_the_queue_is_sent(feature_flags, before);
        lemma_opening(feature_flags, before);
        let SessionTrace { state, steps } = session_run(feature_flags, before)->Some_0;
        let (next, step) = state.after(inputs.last().event, inputs.last().sole)->Some_0;
        assert(steps.push(step).drop_last() =~= steps);
        assert(steps.push(step).last() == step);
        if before.len() >= 2 {
            assert(inputs[0] == before[0]);
            assert(inputs[1] == before[1]);
            assert(echo(inputs) == echo(before));
        } else if before.len() == 1 {
            assert(inputs[0] == before[0]);
            assert(before.last() == before[0]);
            assert(queued_texts(before.drop_last()) =~= seq![]);
        }
        match step.wait {
            WaitView::SendText(text) => {
                assert(echo(inputs) + queued_texts(inputs) =~= (echo(before) + queued_texts(
                    before,
                )).push(text));
            },
            _ => {
                assert(echo(inputs) =~= echo(before));
            },
        }
    }
}

/// The session itself queues one message only, the feature flags, and queues them
/// once: after the handshake was sent back.
pub proof fn law_feature_flags_are_queued_once<C, H>(
    feature_flags: FeatureFlags,
    inputs: Seq<Input<C, H>>,
    i: int,
)
    requires
        session_run(feature_flags, inputs) is Some,
        0 <= i < inputs.len(),
        session_run(feature_flags, inputs)->Some_0.steps[i].wait matches WaitView::Queue(Ok(_)),
    ensures
        i == 2,
        session_run(feature_flags, inputs)->Some_0.steps[i].wait == WaitView::<C>::Queue(
            Ok(welcome(feature_flags)),
        ),
    decreases inputs.len(),
{
    let before = inputs.drop_last();
    lemma_opening(feature_flags, inputs);
    lemma_opening(feature_flags, before);
    let SessionTrace { state, steps } = session_run(feature_flags, before)->Some_0;
    let (next, step) = state.after(inputs.last().event, inputs.last().sole)->Some_0;
    if i < before.len() {
        assert(steps.push(step)[i] == steps[i]);
        law_feature_flags_are_queued_once(feature_flags, before, i);
    }
}

/// What was queued first, a message or an error in its place.
pub open spec fn first_queued<C, H>(steps: Seq<StepView<C, H>>) -> Option<
    Result<MessageView, SessionErrorView>,
>
    decreases steps.len(),
{
    if steps.len() == 0 {
        None
    } else {
        match first_queued(steps.drop_last()) {
            Some(queued) => Some(queued),
            None => match steps.last().wait {
                WaitView::Queue(queued) => Some(queued),
                _ => None,
            },
        }
    }
}

/// What came up first in the queue, a message or the wording of an error.
pub open spec fn first_up<C, H>(inputs: Seq<Input<C, H>>) -> Option<
    Result<MessageResponse, String>,
>
    decreases inputs.len(),
{
    if inputs.len() == 0 {
        None
    } else {
        match first_up(inputs.drop_last()) {
            Some(response) => Some(response),
            None => match inputs.last().event {
                Event::Response(response) => Some(response),
                _ => None,
            },
        }
    }
}

/// Whether what came up in the queue can be what was queued. A message comes up as
/// it was queued; of an error only the wording comes up, whatever it is.
pub open spec fn comes_up_as(
    queued: Result<MessageView, SessionErrorView>,
    response: Result<MessageResponse, String>,
) -> bool {
    match (queued, response) {
        (Ok(message), Ok(response)) => response@ == message,
        (Err(_), Err(_)) => true,
        _ => false,
    }
}

/// The first text of what came up is that of what came up first.
proof fn lemma_first_up<C, H>(inputs: Seq<Input<C, H>>)
    ensures
        match first_up(inputs) {
            Some(response) => {
                &&& queued_texts(inputs).len() > 0
                &&& queued_texts(inputs)[0] == crate::session::response_text(response)
            },
            None => queued_texts(inputs).len() == 0,
        },
    decreases inputs.len(),
{
    if inputs.len() > 0 {
        lemma_first_up(inputs.drop_last());
    }
}

/// The feature flags are queued first, and nothing comes up before.
proof fn lemma_first_queued<C, H>(feature_flags: FeatureFlags, inputs: Seq<Input<C, H>>)
    requires
        session_run(feature_flags, inputs) is Some,
    ensures
        ({
            let SessionTrace { state, steps } = session_run(feature_flags, inputs)->Some_0;
            match first_queued(steps) {
                Some(queued) => {
                    &&& queued == Ok::<MessageView, SessionErrorView>(welcome(feature_flags))
                    &&& inputs.len() > 2
                },
                None => {
                    &&& first_up(inputs) is None
                    &&& state.stage is Connecting || state.stage is Greeting || state.stage
                        is Echoing || state.stage is Closed
                },
            }
        }),
    decreases inputs.len(),
{
    if inputs.len() > 0 {
        let before = inputs.drop_last();
        lemma_first_queued(feature_flags, before);
        lemma_opening(feature_flags, before);
        let SessionTrace { state, steps } = session_run(feature_flags, before)->Some_0;
        let (next, step) = state.after(inputs.last().event, inputs.last().sole)->Some_0;
        assert(steps.push(step).drop_last() =~= steps);
        assert(steps.push(step).last() == step);
    }
}

/// The client's own handshake is the first text that is sent, and the feature flags
/// are the second, before any error and before anything that a job has to say, if
/// what comes up first in the queue is what was queued first.
pub proof fn law_feature_flags_are_sent_first<C, H>(
    feature_flags: FeatureFlags,
    inputs: Seq<Input<C, H>>,
)
    requires
        session_run(feature_flags, inputs) is Some,
        match (
            first_queued(session_run(feature_flags, inputs)->Some_0.steps),
            first_up(inputs),
        ) {
            (Some(queued), Some(response)) => comes_up_as(queued, response),
            _ => true,
        },
    ensures
        ({
            let sent = texts(session_run(feature_flags, inputs)->Some_0.steps);
            &&& sent.len() >= 1 ==> (inputs[0].event matches Event::Received(Received::Text(text))
                && sent[0] == text@)
            &&& sent.len() >= 2 ==> sent[1] == welcome(feature_flags).text()
        }),
{
    lemma_opening(feature_flags, inputs);
    lemma_first_queued(feature_flags, inputs);
    lemma_first_up(inputs);
    law_echo_then_the_queue_is_sent(feature_flags, inputs);
}

/// How often the feature flags were queued.
pub open spec fn flags_queued<C, H>(steps: Seq<StepView<C, H>>) -> nat
    decreases steps.len(),
{
    if steps.len() == 0 {
        0
    } else {
        flags_queued(steps.drop_last()) + match steps.last().wait {
            WaitView::Queue(Ok(MessageView::FeatureFlags { .. })) => 1nat,
            _ => 0,
        }
    }
}

/// How often feature flags came up in the queue, to be sent.
pub open spec fn flags_up<C, H>(inputs: Seq<Input<C, H>>) -> nat
    decreases inputs.len(),
{
    if inputs.len() == 0 {
        0
    } else {
        flags_up(inputs.drop_last()) + match inputs.last().event {
            Event::Response(Ok(MessageResponse::FeatureFlags { .. })) => 1nat,
            _ => 0,
        }
    }
}

proof fn lemma_flags_queued<C, H>(feature_flags: FeatureFlags, inputs: Seq<Input<C, H>>)
    requires
        session_run(feature_flags, inputs) is Some,
    ensures
        flags_queued(session_run(feature_flags, inputs)->Some_0.steps) <= if inputs.len() > 2 {
            1nat
        } else {
            0
        },
    decreases inputs.len(),
{
    if inputs.len() > 0 {
        let before = inputs.drop_last();
        lemma_flags_queued(feature_flags, before);
        lemma_opening(feature_flags, before);
        let SessionTrace { state, steps } = session_run(feature_flags, before)->Some_0;
        let (next, step) = state.after(inputs.last().event, inputs.last().sole)->Some_0;
        assert(steps.push(step).drop_last() =~= steps);
        assert(steps.push(step).last() == step);
    }
}

/// The feature flags are sent at most once, if they do not come up more often than
/// the session has queued them.
pub proof fn law_feature_flags_are_sent_once<C, H>(
    feature_flags: FeatureFlags,
    inputs: Seq<Input<C, H>>,
)
    requires
        session_run(feature_flags, inputs) is Some,
        flags_up(inputs) <= flags_queued(session_run(feature_flags, inputs)->Some_0.steps),
    ensures
        flags_up(inputs) <= 1,
{
    lemma_flags_queued(feature_flags, inputs);
}

// Counting.

/// How many times something was received, the handshake included.
pub open spec fn received<C, H>(inputs: Seq<Input<C, H>>) -> nat
    decreases inputs.len(),
{
    if inputs.len() == 0 {
        0
    } else {
        received(inputs.drop_last()) + if inputs.last().event is Received {
            1nat
        } else {
            0
        }
    }
}

/// How many times something received was counted.
pub open spec fn incoming<C, H>(steps: Seq<StepView<C, H>>) -> nat
    decreases steps.len(),
{
    if steps.len() == 0 {
        0
    } else {
        incoming(steps.drop_last()) + if steps.last().count == Some(CountView::Incoming) {
            1nat
        } else {
            0
        }
    }
}

/// For each queued message that was sent, in order, the label that tells whether
/// it was one or an error in its place.
pub open spec fn delivered<C, H>(inputs: Seq<Input<C, H>>) -> Seq<Seq<char>>
    decreases inputs.len(),
{
    if inputs.len() < 2 {
        seq![]
    } else {
        match (inputs[inputs.len() - 2].event, inputs.last().event) {
            (Event::Response(response), Event::Sent(true)) => delivered(inputs.drop_last()).push(
                crate::session::success_label(response is Ok),
            ),
            _ => delivered(inputs.drop_last()),
        }
    }
}

/// The labels that sent messages were counted under, in order.
pub open spec fn outgoing<C, H>(steps: Seq<StepView<C, H>>) -> Seq<Seq<char>>
    decreases steps.len(),
{
    if steps.len() == 0 {
        seq![]
    } else {
        match steps.last().count {
            Some(CountView::Outgoing(label)) => outgoing(steps.drop_last()).push(label),
            _ => outgoing(steps.drop_last()),
        }
    }
}

/// A message is being sent exactly after one came up in the queue.
proof fn lemma_sending<C, H>(feature_flags: FeatureFlags, inputs: Seq<Input<C, H>>)
    requires
        session_run(feature_flags, inputs) is Some,
        inputs.len() > 0,
    ensures
        match (session_run(feature_flags, inputs)->Some_0.state.stage, inputs.last().event) {
            (Stage::Sending { success }, Event::Response(response)) => success == (response is Ok),
            (Stage::Sending { .. }, _) => false,
            (_, Event::Response(_)) => false,
            _ => true,
        },
{
    let before = inputs.drop_last();
    assert(session_run(feature_flags, before) is Some);
}

/// Everything received after the handshake is counted once, and so is every queued
/// message that was sent, under its label, and nothing else: not the handshake,
/// and no message that could not be sent.
pub proof fn law_traffic_is_counted<C, H>(feature_flags: FeatureFlags, inputs: Seq<Input<C, H>>)
    requires
        session_run(feature_flags, inputs) is Some,
    ensures
        received(inputs) == incoming(session_run(feature_flags, inputs)->Some_0.steps) + (
        if inputs.len() == 0 {
            0nat
        } else {
            1
        }),
        outgoing(session_run(feature_flags, inputs)->Some_0.steps) == delivered(inputs),
    decreases inputs.len(),
{
    if inputs.len() > 0 {
        let before = inputs.drop_last();
        law_traffic_is_counted(feature_flags, before);
        lemma_opening(feature_flags, before);
        let SessionTrace { state, steps } = session_run(feature_flags, before)->Some_0;
        let (next, step) = state.after(inputs.last().event, inputs.last().sole)->Some_0;
        assert(steps.push(step).drop_last() =~= steps);
        assert(steps.push(step).last() == step);
        if before.len() > 0 {
            lemma_sending(feature_flags, before);
            assert(inputs[inputs.len() - 2] == before.last());
        }
    }
}

// The end of a session.

/// Whether the connection is let go, or has been.
pub open spec fn winding_up(stage: Stage) -> bool {
    stage is Leaving || stage is Closing || stage is Stopping || stage is Closed
}

/// Once the connection is to be let go nothing more is sent, queued, counted or
/// run: the session only winds up. The connection is let go once, and a session
/// that is over stays over.
pub proof fn law_winding_up_is_final<C, H>(
    state: SessionView<C, H>,
    event: Event<C, H>,
    sole: bool,
)
    requires
        winding_up(state.stage),
    ensures
        state.after(event, sole) matches Some((next, step)) ==> {
            &&& winding_up(next.stage) && !(next.stage is Leaving)
            &&& step.count is None
            &&& step.effect is None
            &&& step.wait is ShutDownCoordinator || step.wait is ShutDownJobs || step.wait is Close
        },
        state.stage is Closed ==> state.after(event, sole) is None,
{
}

/// An open session ends by letting go of the connection, and has its coordinator
/// until that has happened.
pub proof fn law_connection_is_let_go_first<C, H>(
    state: SessionView<C, H>,
    event: Event<C, H>,
    later: Event<C, H>,
    sole: bool,
)
    requires
        !winding_up(state.stage),
        !(state.stage is Connecting),
        !(state.stage is Greeting),
        !(state.stage is Echoing),
        !(state.stage is Welcoming),
    ensures
        state.after(event, sole) matches Some((next, step)) ==> {
            &&& winding_up(next.stage) <==> next.stage is Leaving
            &&& next.stage is Leaving <==> step.wait is Disconnect
            &&& next.stage is Leaving ==> next.manager == state.manager
            &&& next.stage is Leaving ==> (next.after(later, sole) is Some <==> later
                is Disconnected)
        },
{
}

/// How a session that is left winds up follows what giving up the coordinator
/// came to: a coordinator that came back is shut down, then the jobs are, and only
/// a coordinator that did not come back, or could not be shut down, leaves an
/// error for the log.
pub proof fn law_session_ends_as_giving_up_went<C, H>(
    state: SessionView<C, H>,
    idled: Result<Option<C>, CoordinatorManagerError>,
    result: Result<(), String>,
    sole: bool,
)
    ensures
        match idled {
            Ok(None) => {
                let (stopping, step) = state.left(idled);
                &&& step.wait is ShutDownJobs
                &&& stopping.after(Event::JobsShutDown, sole) matches Some((closed, last))
                    && closed.stage is Closed && last.wait == WaitView::<C>::Close(None)
            },
            Ok(Some(coordinator)) => {
                let (closing, step) = state.left(idled);
                &&& step.wait == WaitView::<C>::ShutDownCoordinator(coordinator)
                &&& match (closing.after(Event::CoordinatorShutDown(result), sole), result) {
                    (Some((stopping, next)), Ok(_)) => {
                        &&& next.wait is ShutDownJobs
                        &&& stopping.after(Event::JobsShutDown, sole) matches Some((closed, last))
                            && closed.stage is Closed && last.wait == WaitView::<C>::Close(None)
                    },
                    (Some((closed, last)), Err(source)) => {
                        &&& closed.stage is Closed
                        &&& last.wait == WaitView::<C>::Close(
                            Some(CoordinatorManagerError::Shutdown { source }),
                        )
                    },
                    _ => false,
                }
            },
            Err(error) => {
                let (closed, last) = state.left(idled);
                closed.stage is Closed && last.wait == WaitView::<C>::Close(Some(error))
            },
        },
{
}

} // verus!
