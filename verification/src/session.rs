//! One session: from the handshake of a client to the end of its connection.

use crate::error::{CoordinatorManagerError, SessionError};
use crate::json::{create_server_meta, Meta};
use crate::manager::{shut_down, CoordinatorManager, Job};
use crate::message::{
    error_to_response, response_to_message, ExecuteRequest, FeatureFlags, HandshakeMessage,
    MessageResponse, WSMessageRequest,
};
use vstd::prelude::*;

verus! {

/// How many messages may be queued for the client.
pub const RESPONSE_CAPACITY: usize = 3;

/// What was received on the connection.
#[derive(Debug)]
pub enum Received {
    /// Nothing: the client has gone.
    Closed,
    Text(String),
    /// A message that is not text.
    Other,
    /// A fault of the connection, in words.
    Failed(String),
}

/// What a job panicked with.
#[derive(Debug)]
pub enum PanicPayload {
    Owned(String),
    Literal(&'static str),
    Unknown,
}

impl PanicPayload {
    /// The words of a panic.
    pub open spec fn words(self) -> Seq<char> {
        match self {
            PanicPayload::Owned(text) => text@,
            PanicPayload::Literal(text) => text@,
            PanicPayload::Unknown => "An unknown panic occurred"@,
        }
    }

    /// Takes the words of a panic.
    pub fn into_text(self) -> (text: String)
        ensures
            text@ == self.words(),
    {
        match self {
            PanicPayload::Owned(text) => text,
            PanicPayload::Literal(text) => text.to_owned(),
            PanicPayload::Unknown => "An unknown panic occurred".to_owned(),
        }
    }
}

/// How a job has ended.
#[derive(Debug)]
pub enum Outcome {
    Returned(Result<(), SessionError>),
    Cancelled,
    Panicked(PanicPayload),
}

/// How far a session has come.
#[derive(Debug)]
pub enum Stage {
    /// The client's first message is awaited.
    Connecting { feature_flags: FeatureFlags },
    /// The client's first message is read.
    Greeting { text: String, feature_flags: FeatureFlags },
    /// The client's first message is sent back.
    Echoing { feature_flags: FeatureFlags },
    /// The feature flags are queued for the client.
    Welcoming,
    /// The session waits for whatever comes next.
    Open,
    /// A message of the client is read.
    Reading,
    /// A request waits for the coordinator that it needs.
    Creating { request: ExecuteRequest, meta: Meta },
    /// The job of a request is spawned.
    Spawning,
    /// A request is answered with an error.
    Answering,
    /// An error that answers no request is queued for the client.
    Reporting,
    /// A message is sent to the client.
    Sending { success: bool },
    /// The coordinator is shut down for want of jobs.
    Idling,
    /// The connection is let go.
    Leaving,
    /// The connection is gone; the coordinator is shut down.
    Closing,
    /// The connection is gone; the jobs are shut down.
    Stopping,
    Closed,
}

/// What has happened.
#[derive(Debug)]
pub enum Event<C, H> {
    Received(Received),
    /// What the client's first message says, `None` if it cannot be read.
    HandshakeDecoded(Option<HandshakeMessage>),
    /// What a message of the client says, or why it cannot be read.
    RequestDecoded(Result<WSMessageRequest, String>),
    /// A text was sent, or could not be.
    Sent(bool),
    /// A message was queued, or there is nobody left to take it.
    Queued(bool),
    /// A message has come up in the queue; an error is given by its wording.
    Response(Result<MessageResponse, String>),
    /// A job has ended.
    Joined { id: usize, outcome: Outcome },
    /// Nothing has happened for as long as an idle session keeps its coordinator.
    IdleElapsed,
    /// A coordinator was made, or could not be.
    Created(Result<C, String>),
    /// A job was spawned; it can be cancelled by this handle.
    Spawned(H),
    /// The connection and the queue were let go.
    Disconnected,
    /// The coordinator was shut down, or could not be.
    CoordinatorShutDown(Result<(), String>),
    /// All jobs were cancelled and have ended.
    JobsShutDown,
}

/// What is to be counted.
#[derive(Debug)]
pub enum Count {
    /// Something was received on the open session.
    Incoming,
    /// A message was sent. The label tells whether it was one, or an error in its
    /// place.
    Outgoing(&'static str),
}

/// What is to be done at once, without a result.
#[derive(Debug)]
pub enum Effect<H> {
    /// Record a fault of the connection.
    RecordError(String),
    /// Cancel the job that this handle belongs to.
    Abort(H),
    /// Let a job go to work: its turn has come.
    StartJob(usize),
}

/// What a session waits for.
#[derive(Debug)]
pub enum Wait<C> {
    /// The next message of the client.
    Receive,
    /// What a text says, read as a handshake.
    DecodeHandshake(String),
    /// That a text is sent to the client.
    SendText(String),
    /// That a message, or an error in its place, is queued for the client.
    Queue(Result<MessageResponse, SessionError>),
    /// The first to come of a message from the client, a message in the queue
    /// and the end of a job; and of the idle time, where it counts.
    Select { idle_counts: bool },
    /// What a text says, read as a request.
    DecodeRequest(String),
    /// A new coordinator.
    CreateCoordinator,
    /// The handle of a job that executes a request.
    Spawn { job: Job<C>, request: ExecuteRequest, meta: Meta },
    /// That the connection and the queue are let go.
    Disconnect,
    /// That the coordinator is shut down.
    ShutDownCoordinator(C),
    /// That all jobs are cancelled and have ended.
    ShutDownJobs,
    /// Nothing: the session is over. An error is left for the log.
    Close(Option<CoordinatorManagerError>),
}

/// What a session does next.
#[derive(Debug)]
pub struct Step<C, H> {
    pub count: Option<Count>,
    pub effect: Option<Effect<H>>,
    pub wait: Wait<C>,
}

/// The content of a [`Count`].
pub enum CountView {
    Incoming,
    Outgoing(Seq<char>),
}

/// The content of an [`Effect`].
pub enum EffectView<H> {
    RecordError(Seq<char>),
    Abort(H),
    StartJob(usize),
}

/// The content of a [`Wait`].
pub enum WaitView<C> {
    Receive,
    DecodeHandshake(Seq<char>),
    SendText(Seq<char>),
    Queue(Result<crate::message::MessageView, crate::error::SessionErrorView>),
    Select { idle_counts: bool },
    DecodeRequest(Seq<char>),
    CreateCoordinator,
    Spawn { id: usize, start: bool, coordinator: C, request: ExecuteRequest, meta: Meta },
    Disconnect,
    ShutDownCoordinator(C),
    ShutDownJobs,
    Close(Option<CoordinatorManagerError>),
}

/// The content of a [`Step`].
pub struct StepView<C, H> {
    pub count: Option<CountView>,
    pub effect: Option<EffectView<H>>,
    pub wait: WaitView<C>,
}

impl View for Count {
    type V = CountView;

    open spec fn view(&self) -> CountView {
        match self {
            Count::Incoming => CountView::Incoming,
            Count::Outgoing(label) => CountView::Outgoing(label@),
        }
    }
}

impl<H> View for Effect<H> {
    type V = EffectView<H>;

    open spec fn view(&self) -> EffectView<H> {
        match self {
            Effect::RecordError(text) => EffectView::RecordError(text@),
            Effect::Abort(handle) => EffectView::Abort(*handle),
            Effect::StartJob(id) => EffectView::StartJob(*id),
        }
    }
}

impl<C> View for Wait<C> {
    type V = WaitView<C>;

    open spec fn view(&self) -> WaitView<C> {
        match self {
            Wait::Receive => WaitView::Receive,
            Wait::DecodeHandshake(text) => WaitView::DecodeHandshake(text@),
            Wait::SendText(text) => WaitView::SendText(text@),
            Wait::Queue(Ok(message)) => WaitView::Queue(Ok(message@)),
            Wait::Queue(Err(error)) => WaitView::Queue(Err(error@)),
            Wait::Select { idle_counts } => WaitView::Select { idle_counts: *idle_counts },
            Wait::DecodeRequest(text) => WaitView::DecodeRequest(text@),
            Wait::CreateCoordinator => WaitView::CreateCoordinator,
            Wait::Spawn { job, request, meta } => WaitView::Spawn {
                id: job.id,
                start: job.start,
                coordinator: *job.coordinator,
                request: *request,
                meta: *meta,
            },
            Wait::Disconnect => WaitView::Disconnect,
            Wait::ShutDownCoordinator(coordinator) => WaitView::ShutDownCoordinator(*coordinator),
            Wait::ShutDownJobs => WaitView::ShutDownJobs,
            Wait::Close(error) => WaitView::Close(*error),
        }
    }
}

impl<C, H> View for Step<C, H> {
    type V = StepView<C, H>;

    open spec fn view(&self) -> StepView<C, H> {
        StepView {
            count: match self.count {
                Some(count) => Some(count@),
                None => None,
            },
            effect: match self.effect {
                Some(effect) => Some(effect@),
                None => None,
            },
            wait: self.wait@,
        }
    }
}

/// The state of a [`Session`].
#[verifier::ext_equal]
pub struct SessionView<C, H> {
    pub stage: Stage,
    pub manager: crate::manager::ManagerView<C, H>,
}

/// The text that is sent for what has come up in the queue.
pub open spec fn response_text(response: Result<MessageResponse, String>) -> Seq<char> {
    match response {
        Ok(message) => message@.text(),
        Err(error) => (crate::message::MessageView::Error {
            error: error@,
            meta: crate::json::server_meta(),
        }).text(),
    }
}

/// The label that a message is counted under.
pub open spec fn success_label(success: bool) -> Seq<char> {
    if success {
        "true"@
    } else {
        "false"@
    }
}

/// A step that also counts something.
pub open spec fn counted<C, H>(
    next: (SessionView<C, H>, StepView<C, H>),
    count: CountView,
) -> (SessionView<C, H>, StepView<C, H>) {
    (next.0, StepView { count: Some(count), ..next.1 })
}

/// Whether a handshake opens the session.
pub open spec fn accepted(handshake: Option<HandshakeMessage>) -> bool {
    match handshake {
        Some(HandshakeMessage::Connected { payload, .. }) =>
            payload.i_accept_this_is_an_unsupported_api,
        None => false,
    }
}

impl<C, H> SessionView<C, H> {
    /// A session that has just begun.
    pub open spec fn initial(feature_flags: FeatureFlags) -> Self {
        SessionView {
            stage: Stage::Connecting { feature_flags },
            manager: crate::manager::ManagerView::initial(),
        }
    }

    pub open spec fn wf(self) -> bool {
        self.manager.wf()
    }

    /// At `stage`, with `wait` to wait for.
    pub open spec fn at(self, stage: Stage, wait: WaitView<C>) -> (Self, StepView<C, H>) {
        (SessionView { stage, ..self }, StepView { count: None, effect: None, wait })
    }

    /// Open again, with `effect` to be done.
    pub open spec fn open(self, effect: Option<EffectView<H>>) -> (Self, StepView<C, H>) {
        (
            SessionView { stage: Stage::Open, ..self },
            StepView {
                count: None,
                effect,
                wait: WaitView::Select { idle_counts: self.manager.tasks.len() == 0 },
            },
        )
    }

    /// Over before it was open.
    pub open spec fn refused(self) -> (Self, StepView<C, H>) {
        self.at(Stage::Closed, WaitView::Close(None))
    }

    /// With an error queued that answers a request.
    pub open spec fn answer(self, error: crate::error::SessionErrorView) -> (
        Self,
        StepView<C, H>,
    ) {
        self.at(Stage::Answering, WaitView::Queue(Err(error)))
    }

    /// With an error queued that answers no request.
    pub open spec fn report(self, error: crate::error::SessionErrorView) -> (
        Self,
        StepView<C, H>,
    ) {
        self.at(Stage::Reporting, WaitView::Queue(Err(error)))
    }

    /// With a job spawned for a request, on a coordinator that is there.
    pub open spec fn spawn(self, request: ExecuteRequest, meta: Meta) -> (Self, StepView<C, H>) {
        (
            SessionView { stage: Stage::Spawning, manager: self.manager.with_job() },
            StepView {
                count: None,
                effect: None,
                wait: WaitView::Spawn {
                    id: crate::manager::fresh_id(self.manager.tasks),
                    start: self.manager.has_room(),
                    coordinator: self.manager.coordinator->0,
                    request,
                    meta,
                },
            },
        )
    }

    /// With the connection to be let go.
    pub open spec fn leave(self) -> (Self, StepView<C, H>) {
        self.at(Stage::Leaving, WaitView::Disconnect)
    }

    /// What giving up the coordinator leads to once the connection is gone: a
    /// coordinator that came back is shut down, and the jobs after it; one that
    /// did not is left to the log.
    pub open spec fn left(self, idled: Result<Option<C>, CoordinatorManagerError>) -> (
        Self,
        StepView<C, H>,
    ) {
        match idled {
            Ok(None) => self.at(Stage::Stopping, WaitView::ShutDownJobs),
            Ok(Some(coordinator)) => self.at(
                Stage::Closing,
                WaitView::ShutDownCoordinator(coordinator),
            ),
            Err(error) => self.at(Stage::Closed, WaitView::Close(Some(error))),
        }
    }

    /// With the coordinator given up, now that the connection is gone.
    pub open spec fn shutdown(self, sole: bool) -> (Self, StepView<C, H>) {
        (SessionView { manager: self.manager.without_coordinator(), ..self }).left(
            self.manager.given_up(sole),
        )
    }

    /// What giving up the coordinator for want of jobs leads to: a coordinator
    /// that came back is shut down; that one did not is reported.
    pub open spec fn idled(self, idled: Result<Option<C>, CoordinatorManagerError>) -> (
        Self,
        StepView<C, H>,
    ) {
        match idled {
            Ok(None) => self.open(None),
            Ok(Some(coordinator)) => self.at(
                Stage::Idling,
                WaitView::ShutDownCoordinator(coordinator),
            ),
            Err(source) => self.report(
                crate::error::SessionErrorView::StreamingCoordinatorIdle { source },
            ),
        }
    }

    /// With the coordinator given up for want of jobs.
    pub open spec fn idle(self, sole: bool) -> (Self, StepView<C, H>) {
        (SessionView { manager: self.manager.without_coordinator(), ..self }).idled(
            self.manager.given_up(sole),
        )
    }

    /// What is made of something that was received on the open session.
    pub open spec fn receive(self, received: Received) -> (Self, StepView<C, H>) {
        match received {
            Received::Closed => self.leave(),
            Received::Text(text) => self.at(Stage::Reading, WaitView::DecodeRequest(text@)),
            Received::Other => self.open(None),
            Received::Failed(text) => self.open(Some(EffectView::RecordError(text@))),
        }
    }

    /// Without the job `id`, which has ended.
    pub open spec fn join(self, id: usize, outcome: Outcome) -> (Self, StepView<C, H>) {
        let effect = match self.manager.next_turn(id) {
            Some(next) => Some(EffectView::StartJob(next)),
            None => None,
        };
        let rest = SessionView { manager: self.manager.without_job(id), ..self };
        match outcome {
            Outcome::Panicked(payload) => (
                SessionView { stage: Stage::Reporting, ..rest },
                StepView {
                    count: None,
                    effect,
                    wait: WaitView::Queue(
                        Err(
                            crate::error::SessionErrorView::WebSocketTaskPanic {
                                text: payload.words(),
                            },
                        ),
                    ),
                },
            ),
            _ => rest.open(effect),
        }
    }

    /// What an event leads to while the session is being opened.
    pub open spec fn connect_handshake(self, event: Event<C, H>) -> Option<
        (Self, StepView<C, H>),
    > {
        match (self.stage, event) {
            (Stage::Connecting { feature_flags }, Event::Received(Received::Text(text))) => Some(
                self.at(
                    Stage::Greeting { text, feature_flags },
                    WaitView::DecodeHandshake(text@),
                ),
            ),
            (Stage::Connecting { .. }, Event::Received(_)) => Some(self.refused()),
            (Stage::Greeting { text, feature_flags }, Event::HandshakeDecoded(handshake)) => Some(
                if accepted(handshake) {
                    self.at(Stage::Echoing { feature_flags }, WaitView::SendText(text@))
                } else {
                    self.refused()
                },
            ),
            (Stage::Echoing { feature_flags }, Event::Sent(true)) => Some(
                self.at(
                    Stage::Welcoming,
                    WaitView::Queue(
                        Ok(
                            crate::message::MessageView::FeatureFlags {
                                threshold: feature_flags.execute_via_websocket_threshold,
                                meta: crate::json::server_meta(),
                            },
                        ),
                    ),
                ),
            ),
            (Stage::Echoing { .. }, Event::Sent(false)) => Some(self.refused()),
            (Stage::Welcoming, Event::Queued(true)) => Some(self.open(None)),
            (Stage::Welcoming, Event::Queued(false)) => Some(self.refused()),
            _ => None,
        }
    }

    /// What an event leads to while a message of the client is dealt with.
    pub open spec fn handle_msg(self, event: Event<C, H>) -> Option<(Self, StepView<C, H>)> {
        match (self.stage, event) {
            (
                Stage::Reading,
                Event::RequestDecoded(Ok(WSMessageRequest::ExecuteRequest { payload, meta })),
            ) => Some(
                if self.manager.coordinator is Some {
                    self.spawn(payload, meta)
                } else {
                    self.at(
                        Stage::Creating { request: payload, meta },
                        WaitView::CreateCoordinator,
                    )
                },
            ),
            (Stage::Reading, Event::RequestDecoded(Err(source))) => Some(
                self.answer(
                    crate::error::SessionErrorView::Deserialization { source: source@ },
                ),
            ),
            (Stage::Creating { request, meta }, Event::Created(Ok(coordinator))) => Some(
                (SessionView {
                    manager: self.manager.with_coordinator(coordinator),
                    ..self
                }).spawn(request, meta),
            ),
            (Stage::Creating { .. }, Event::Created(Err(source))) => Some(
                self.answer(
                    crate::error::SessionErrorView::StreamingCoordinatorSpawn {
                        source: CoordinatorManagerError::New { source },
                    },
                ),
            ),
            (Stage::Spawning, Event::Spawned(handle)) => Some(
                (SessionView { manager: self.manager.with_handle(handle), ..self }).open(
                    match self.manager.handle() {
                        Some(older) => Some(EffectView::Abort(older)),
                        None => None,
                    },
                ),
            ),
            (Stage::Answering, Event::Queued(_)) => Some(self.open(None)),
            _ => None,
        }
    }

    /// What an event leads to while the session is open, and after.
    pub open spec fn handle_core(self, event: Event<C, H>, sole: bool) -> Option<
        (Self, StepView<C, H>),
    > {
        match (self.stage, event) {
            (Stage::Open, Event::Received(received)) => Some(
                counted(self.receive(received), CountView::Incoming),
            ),
            (Stage::Open, Event::Response(response)) => Some(
                self.at(
                    Stage::Sending { success: response is Ok },
                    WaitView::SendText(response_text(response)),
                ),
            ),
            (Stage::Open, Event::Joined { id, outcome }) => if self.manager.tasks.contains(id) {
                Some(self.join(id, outcome))
            } else {
                None
            },
            (Stage::Open, Event::IdleElapsed) => if self.manager.tasks.len() == 0 {
                Some(self.idle(sole))
            } else {
                None
            },
            (Stage::Sending { success }, Event::Sent(true)) => Some(
                counted(self.open(None), CountView::Outgoing(success_label(success))),
            ),
            (Stage::Sending { .. }, Event::Sent(false)) => Some(self.leave()),
            (Stage::Reporting, Event::Queued(true)) => Some(self.open(None)),
            (Stage::Reporting, Event::Queued(false)) => Some(self.leave()),
            (Stage::Idling, Event::CoordinatorShutDown(Ok(()))) => Some(self.open(None)),
            (Stage::Idling, Event::CoordinatorShutDown(Err(source))) => Some(
                self.report(
                    crate::error::SessionErrorView::StreamingCoordinatorIdle {
                        source: CoordinatorManagerError::Shutdown { source },
                    },
                ),
            ),
            (Stage::Leaving, Event::Disconnected) => Some(self.shutdown(sole)),
            (Stage::Closing, Event::CoordinatorShutDown(Ok(()))) => Some(
                self.at(Stage::Stopping, WaitView::ShutDownJobs),
            ),
            (Stage::Closing, Event::CoordinatorShutDown(Err(source))) => Some(
                self.at(
                    Stage::Closed,
                    WaitView::Close(Some(CoordinatorManagerError::Shutdown { source })),
                ),
            ),
            (Stage::Stopping, Event::JobsShutDown) => Some(
                (SessionView { manager: self.manager.without_jobs(), ..self }).at(
                    Stage::Closed,
                    WaitView::Close(None),
                ),
            ),
            _ => None,
        }
    }

    /// What an event leads to: the state after it and what is done next. `None`
    /// where the event does not answer what was waited for. `sole` says whether
    /// the manager's handle to the coordinator was the only one left, where that
    /// matters.
    pub open spec fn after(self, event: Event<C, H>, sole: bool) -> Option<
        (Self, StepView<C, H>),
    > {
        match self.stage {
            Stage::Connecting { .. } => self.connect_handshake(event),
            Stage::Greeting { .. } => self.connect_handshake(event),
            Stage::Echoing { .. } => self.connect_handshake(event),
            Stage::Welcoming => self.connect_handshake(event),
            Stage::Reading => self.handle_msg(event),
            Stage::Creating { .. } => self.handle_msg(event),
            Stage::Spawning => self.handle_msg(event),
            Stage::Answering => self.handle_msg(event),
            _ => self.handle_core(event, sole),
        }
    }

    /// Whether `next` and `step` are what `event` leads to.
    pub open spec fn goes_to(
        self,
        event: Event<C, H>,
        sole: bool,
        next: Self,
        step: Option<StepView<C, H>>,
    ) -> bool {
        match self.after(event, sole) {
            Some((state, view)) => next == state && step == Some(view),
            None => next == self && step is None,
        }
    }
}

/// The content of a step that may be none.
pub open spec fn step_view<C, H>(step: Option<Step<C, H>>) -> Option<StepView<C, H>> {
    match step {
        Some(step) => Some(step@),
        None => None,
    }
}

/// A session. It is driven by events, each of which answers what the session
/// waits for. `C` is a coordinator, `H` a handle by which a job is cancelled.
pub struct Session<C, H> {
    stage: Stage,
    manager: CoordinatorManager<C, H>,
}

impl<C, H> View for Session<C, H> {
    type V = SessionView<C, H>;

    closed spec fn view(&self) -> SessionView<C, H> {
        SessionView { stage: self.stage, manager: self.manager@ }
    }
}

impl<C, H> Session<C, H> {
    /// Begins a session that tells its client of these feature flags. The
    /// client's first message is awaited.
    pub fn new(feature_flags: FeatureFlags) -> (result: (Self, Step<C, H>))
        ensures
            result.0@ == SessionView::<C, H>::initial(feature_flags),
            result.0@.wf(),
            result.1@ == (StepView::<C, H> { count: None, effect: None, wait: WaitView::Receive }),
    {
        (
            Session {
                stage: Stage::Connecting { feature_flags },
                manager: CoordinatorManager::new(),
            },
            Step { count: None, effect: None, wait: Wait::Receive },
        )
    }

    /// Goes to `stage` to wait for `wait`.
    fn at(&mut self, stage: Stage, wait: Wait<C>) -> (step: Step<C, H>)
        ensures
            (final(self)@, step@) == old(self)@.at(stage, wait@),
    {
        self.stage = stage;
        Step { count: None, effect: None, wait }
    }

    /// Goes back to waiting for whatever comes next.
    fn open(&mut self, effect: Option<Effect<H>>) -> (step: Step<C, H>)
        ensures
            (final(self)@, step@) == old(self)@.open(
                match effect {
                    Some(effect) => Some(effect@),
                    None => None,
                },
            ),
    {
        self.stage = Stage::Open;
        Step {
            count: None,
            effect,
            wait: Wait::Select { idle_counts: self.manager.is_empty() },
        }
    }

    /// Spawns a job for a request, on the coordinator that is there.
    fn spawn(&mut self, request: ExecuteRequest, meta: Meta) -> (step: Option<Step<C, H>>)
        requires
            old(self)@.wf(),
            old(self)@.manager.coordinator is Some,
        ensures
            final(self)@.wf(),
            step matches Some(step) && (final(self)@, step@) == old(self)@.spawn(request, meta),
    {
        match self.manager.spawn() {
            Some(job) => Some(self.at(Stage::Spawning, Wait::Spawn { job, request, meta })),
            None => None,
        }
    }

    /// Lets go of the connection.
    fn leave(&mut self) -> (step: Step<C, H>)
        ensures
            (final(self)@, step@) == old(self)@.leave(),
    {
        self.at(Stage::Leaving, Wait::Disconnect)
    }

    /// Goes on from what giving up the coordinator came to, once the connection is
    /// gone.
    pub fn left(&mut self, idled: Result<Option<C>, CoordinatorManagerError>) -> (step: Step<C, H>)
        ensures
            (final(self)@, step@) == old(self)@.left(idled),
    {
        match idled {
            Ok(None) => self.at(Stage::Stopping, Wait::ShutDownJobs),
            Ok(Some(coordinator)) => {
                self.at(Stage::Closing, Wait::ShutDownCoordinator(coordinator))
            },
            Err(error) => self.at(Stage::Closed, Wait::Close(Some(error))),
        }
    }

    /// Gives up the coordinator, now that the connection is gone.
    fn shutdown(&mut self) -> (result: (Step<C, H>, Ghost<bool>))
        requires
            old(self)@.wf(),
        ensures
            final(self)@.wf(),
            (final(self)@, result.0@) == old(self)@.shutdown(result.1@),
            old(self)@.manager.coordinator matches Some(coordinator)
                ==> crate::manager::reclaim_came_to(coordinator, result.1@),
    {
        let idled = self.manager.idle();
        let ghost sole = choose|sole: bool|
            {
                &&& idled == #[trigger] old(self)@.manager.given_up(sole)
                &&& old(self)@.manager.coordinator matches Some(coordinator)
                    ==> crate::manager::reclaim_came_to(coordinator, sole)
            };
        (self.left(idled), Ghost(sole))
    }

    /// Goes on from what giving up the coordinator for want of jobs came to.
    pub fn idled(&mut self, idled: Result<Option<C>, CoordinatorManagerError>) -> (step: Step<C, H>)
        ensures
            (final(self)@, step@) == old(self)@.idled(idled),
    {
        match idled {
            Ok(None) => self.open(None),
            Ok(Some(coordinator)) => {
                self.at(Stage::Idling, Wait::ShutDownCoordinator(coordinator))
            },
            Err(source) => self.at(
                Stage::Reporting,
                Wait::Queue(Err(SessionError::StreamingCoordinatorIdle { source })),
            ),
        }
    }

    /// Gives up the coordinator for want of jobs.
    fn idle(&mut self) -> (result: (Step<C, H>, Ghost<bool>))
        requires
            old(self)@.wf(),
        ensures
            final(self)@.wf(),
            (final(self)@, result.0@) == old(self)@.idle(result.1@),
            old(self)@.manager.coordinator matches Some(coordinator)
                ==> crate::manager::reclaim_came_to(coordinator, result.1@),
    {
        let idled = self.manager.idle();
        let ghost sole = choose|sole: bool|
            {
                &&& idled == #[trigger] old(self)@.manager.given_up(sole)
                &&& old(self)@.manager.coordinator matches Some(coordinator)
                    ==> crate::manager::reclaim_came_to(coordinator, sole)
            };
        (self.idled(idled), Ghost(sole))
    }

    /// Takes out a job that has ended, and reports its panic if it panicked.
    fn join(&mut self, id: usize, outcome: Outcome) -> (step: Option<Step<C, H>>)
        requires
            old(self)@.wf(),
        ensures
            final(self)@.wf(),
            if old(self)@.manager.tasks.contains(id) {
                step matches Some(step) && (final(self)@, step@) == old(self)@.join(id, outcome)
            } else {
                step is None && final(self)@ == old(self)@
            },
    {
        let turn = match self.manager.joined(id) {
            Some(turn) => turn,
            None => {
                return None;
            },
        };
        let effect = match turn {
            Some(next) => Some(Effect::StartJob(next)),
            None => None,
        };
        match outcome {
            Outcome::Panicked(payload) => {
                let text = payload.into_text();
                let step = self.at(
                    Stage::Reporting,
                    Wait::Queue(Err(SessionError::WebSocketTaskPanic { text })),
                );
                Some(Step { effect, ..step })
            },
            _ => Some(self.open(effect)),
        }
    }

    /// Deals with something that was received on the open session.
    fn receive(&mut self, received: Received) -> (step: Step<C, H>)
        ensures
            (final(self)@, step@) == old(self)@.receive(received),
    {
        match received {
            Received::Closed => self.leave(),
            Received::Text(text) => self.at(Stage::Reading, Wait::DecodeRequest(text)),
            Received::Other => self.open(None),
            Received::Failed(text) => self.open(Some(Effect::RecordError(text))),
        }
    }

    /// Takes the stage out, to be put back changed.
    fn take_stage(&mut self) -> (stage: Stage)
        ensures
            stage == old(self)@.stage,
            final(self)@.manager == old(self)@.manager,
    {
        let mut stage = Stage::Closed;
        std::mem::swap(&mut stage, &mut self.stage);
        stage
    }

    /// Opens the session: the client's first message is read, and sent back if
    /// the client accepts what it is about to use; then it is told of the feature
    /// flags.
    fn connect_handshake(&mut self, event: Event<C, H>) -> (step: Option<Step<C, H>>)
        requires
            old(self)@.wf(),
        ensures
            final(self)@.wf(),
            match old(self)@.connect_handshake(event) {
                Some((state, view)) => {
                    step matches Some(step) && final(self)@ == state && step@ == view
                },
                None => step is None && final(self)@ == old(self)@,
            },
    {
        let step = match (self.take_stage(), event) {
            (Stage::Connecting { feature_flags }, Event::Received(Received::Text(text))) => {
                let kept = text.clone();
                self.at(Stage::Greeting { text: kept, feature_flags }, Wait::DecodeHandshake(text))
            },
            (Stage::Connecting { .. }, Event::Received(_)) => {
                self.at(Stage::Closed, Wait::Close(None))
            },
            (Stage::Greeting { text, feature_flags }, Event::HandshakeDecoded(handshake)) => {
                let accepts = match handshake {
                    Some(HandshakeMessage::Connected { payload, .. }) => {
                        payload.i_accept_this_is_an_unsupported_api
                    },
                    None => false,
                };
                if accepts {
                    self.at(Stage::Echoing { feature_flags }, Wait::SendText(text))
                } else {
                    self.at(Stage::Closed, Wait::Close(None))
                }
            },
            (Stage::Echoing { feature_flags }, Event::Sent(true)) => {
                let message = MessageResponse::FeatureFlags {
                    payload: feature_flags,
                    meta: create_server_meta(),
                };
                self.at(Stage::Welcoming, Wait::Queue(Ok(message)))
            },
            (Stage::Echoing { .. }, Event::Sent(false)) => {
                self.at(Stage::Closed, Wait::Close(None))
            },
            (Stage::Welcoming, Event::Queued(true)) => self.open(None),
            (Stage::Welcoming, Event::Queued(false)) => self.at(Stage::Closed, Wait::Close(None)),
            (stage, _) => {
                self.stage = stage;
                return None;
            },
        };
        Some(step)
    }

    /// Deals with a message of the client: a request becomes a job, on a
    /// coordinator that is made for it if there is none, and the older job is
    /// cancelled. What cannot be done is answered with an error; that nobody is
    /// left to take the answer does not matter here.
    fn handle_msg(&mut self, event: Event<C, H>) -> (step: Option<Step<C, H>>)
        requires
            old(self)@.wf(),
        ensures
            final(self)@.wf(),
            match old(self)@.handle_msg(event) {
                Some((state, view)) => {
                    step matches Some(step) && final(self)@ == state && step@ == view
                },
                None => step is None && final(self)@ == old(self)@,
            },
    {
        let step = match (self.take_stage(), event) {
            (
                Stage::Reading,
                Event::RequestDecoded(Ok(WSMessageRequest::ExecuteRequest { payload, meta })),
            ) => {
                if self.manager.coordinator().is_some() {
                    return self.spawn(payload, meta);
                }
                self.at(Stage::Creating { request: payload, meta }, Wait::CreateCoordinator)
            },
            (Stage::Reading, Event::RequestDecoded(Err(source))) => self.at(
                Stage::Answering,
                Wait::Queue(Err(SessionError::Deserialization { source })),
            ),
            (Stage::Creating { request, meta }, Event::Created(result)) => {
                match self.manager.created(result) {
                    Ok(()) => {
                        return self.spawn(request, meta);
                    },
                    Err(source) => self.at(
                        Stage::Answering,
                        Wait::Queue(Err(SessionError::StreamingCoordinatorSpawn { source })),
                    ),
                }
            },
            (Stage::Spawning, Event::Spawned(handle)) => {
                let effect = match self.manager.spawned(handle) {
                    Some(older) => Some(Effect::Abort(older)),
                    None => None,
                };
                self.open(effect)
            },
            (Stage::Answering, Event::Queued(_)) => self.open(None),
            (stage, _) => {
                self.stage = stage;
                return None;
            },
        };
        Some(step)
    }

    /// Keeps the session going while it is open, and winds it up after.
    fn handle_core(&mut self, event: Event<C, H>) -> (result: (Option<Step<C, H>>, Ghost<bool>))
        requires
            old(self)@.wf(),
        ensures
            final(self)@.wf(),
            match old(self)@.handle_core(event, result.1@) {
                Some((state, view)) => {
                    result.0 matches Some(step) && final(self)@ == state && step@ == view
                },
                None => result.0 is None && final(self)@ == old(self)@,
            },
            match (old(self)@.manager.coordinator, final(self)@.manager.coordinator) {
                (Some(coordinator), None) => crate::manager::reclaim_came_to(
                    coordinator,
                    result.1@,
                ),
                _ => true,
            },
    {
        let stage = self.take_stage();
        let step = match (stage, event) {
            (Stage::Open, Event::Received(received)) => {
                let step = self.receive(received);
                Step { count: Some(Count::Incoming), ..step }
            },
            (Stage::Open, Event::Response(response)) => {
                let success = response.is_ok();
                let message = match response {
                    Ok(message) => message,
                    Err(error) => error_to_response(error),
                };
                let text = response_to_message(message);
                self.at(Stage::Sending { success }, Wait::SendText(text))
            },
            (Stage::Open, Event::Joined { id, outcome }) => {
                self.stage = Stage::Open;
                return (self.join(id, outcome), Ghost(true));
            },
            (Stage::Open, Event::IdleElapsed) => {
                self.stage = Stage::Open;
                if !self.manager.is_empty() {
                    return (None, Ghost(true));
                }
                let (step, sole) = self.idle();
                return (Some(step), sole);
            },
            (Stage::Sending { success }, Event::Sent(true)) => {
                let label = if success {
                    "true"
                } else {
                    "false"
                };
                let step = self.open(None);
                Step { count: Some(Count::Outgoing(label)), ..step }
            },
            (Stage::Sending { .. }, Event::Sent(false)) => self.leave(),
            (Stage::Reporting, Event::Queued(true)) => self.open(None),
            (Stage::Reporting, Event::Queued(false)) => self.leave(),
            (Stage::Idling, Event::CoordinatorShutDown(result)) => match shut_down(result) {
                Ok(()) => self.open(None),
                Err(source) => self.at(
                    Stage::Reporting,
                    Wait::Queue(Err(SessionError::StreamingCoordinatorIdle { source })),
                ),
            },
            (Stage::Leaving, Event::Disconnected) => {
                let (step, sole) = self.shutdown();
                return (Some(step), sole);
            },
            (Stage::Closing, Event::CoordinatorShutDown(result)) => match shut_down(result) {
                Ok(()) => self.at(Stage::Stopping, Wait::ShutDownJobs),
                Err(error) => self.at(Stage::Closed, Wait::Close(Some(error))),
            },
            (Stage::Stopping, Event::JobsShutDown) => {
                self.manager.jobs_shut_down();
                self.at(Stage::Closed, Wait::Close(None))
            },
            (stage, _) => {
                self.stage = stage;
                return (None, Ghost(true));
            },
        };
        (Some(step), Ghost(true))
    }

    /// Takes in an event and tells what to do next. An event that does not
    /// answer what was waited for changes nothing and gives `None`. Where the
    /// coordinator is given up, what follows is what taking it out of its handle came
    /// to, which rests on who else holds a handle to it; `left` and `idled` say what
    /// follows from either outcome.
    pub fn step(&mut self, event: Event<C, H>) -> (step: Option<Step<C, H>>)
        requires
            old(self)@.wf(),
        ensures
            final(self)@.wf(),
            exists|sole: bool|
                {
                    &&& #[trigger] old(self)@.goes_to(event, sole, final(self)@, step_view(step))
                    &&& match (old(self)@.manager.coordinator, final(self)@.manager.coordinator) {
                        (Some(coordinator), None) => crate::manager::reclaim_came_to(
                            coordinator,
                            sole,
                        ),
                        _ => true,
                    }
                },
    {
        let ghost mut sole = true;
        let ghost before = self@;
        let step = match &self.stage {
            Stage::Connecting { .. } => self.connect_handshake(event),
            Stage::Greeting { .. } => self.connect_handshake(event),
            Stage::Echoing { .. } => self.connect_handshake(event),
            Stage::Welcoming => self.connect_handshake(event),
            Stage::Reading => self.handle_msg(event),
            Stage::Creating { .. } => self.handle_msg(event),
            Stage::Spawning => self.handle_msg(event),
            Stage::Answering => self.handle_msg(event),
            _ => {
                let (step, Ghost(alone)) = self.handle_core(event);
                proof {
                    sole = alone;
                }
                step
            },
        };
        assert(before.goes_to(event, sole, self@, step_view(step)));
        step
    }
}

} // verus!
