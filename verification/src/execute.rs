//! One execution: a program is run for a client, and its output forwarded.

use crate::error::ExecuteError;
use crate::handle::share;
use crate::json::Meta;
use crate::message::{ExecuteRequest, ExecuteResponse, MessageResponse};
use vstd::prelude::*;

verus! {

/// A request as the coordinator takes it, its choices read.
#[derive(Debug)]
pub struct CoordinatorRequest<Channel, Mode, Edition, CrateType> {
    pub channel: Channel,
    pub mode: Mode,
    pub edition: Edition,
    pub crate_type: CrateType,
    pub tests: bool,
    pub backtrace: bool,
    pub code: String,
}

/// Whether `result` may be what `parser` makes of `text`.
pub open spec fn parses<F: Fn(&str) -> Result<T, E>, T, E>(
    parser: F,
    text: Seq<char>,
    result: Result<T, E>,
) -> bool {
    exists|s: &str| s@ == text && #[trigger] parser.ensures((s,), result)
}

/// Whether `parser` can be asked about any text.
pub open spec fn reads_all<F: Fn(&str) -> Result<T, E>, T, E>(parser: F) -> bool {
    forall|s: &str| #[trigger] parser.requires((s,))
}

impl ExecuteRequest {
    /// Reads the choices of a request, each with its parser: the channel, the
    /// mode, the edition and the crate type, in this order. The first that
    /// cannot be read decides the error.
    pub fn try_into_coordinator<Channel, Mode, Edition, CrateType, E>(
        self,
        parse_channel: impl Fn(&str) -> Result<Channel, E>,
        parse_mode: impl Fn(&str) -> Result<Mode, E>,
        parse_edition: impl Fn(&str) -> Result<Edition, E>,
        parse_crate_type: impl Fn(&str) -> Result<CrateType, E>,
    ) -> (result: Result<CoordinatorRequest<Channel, Mode, Edition, CrateType>, E>)
        requires
            reads_all(parse_channel),
            reads_all(parse_mode),
            reads_all(parse_edition),
            reads_all(parse_crate_type),
        ensures
            match result {
                Ok(request) => {
                    &&& parses(parse_channel, self.channel@, Ok(request.channel))
                    &&& parses(parse_mode, self.mode@, Ok(request.mode))
                    &&& parses(parse_edition, self.edition@, Ok(request.edition))
                    &&& parses(parse_crate_type, self.crate_type@, Ok(request.crate_type))
                    &&& request.tests == self.tests
                    &&& request.backtrace == self.backtrace
                    &&& request.code == self.code
                },
                Err(error) => {
                    ||| parses(parse_channel, self.channel@, Err(error))
                    ||| {
                        &&& exists|channel: Channel| #[trigger]
                            parses(parse_channel, self.channel@, Ok(channel))
                        &&& parses(parse_mode, self.mode@, Err(error))
                    }
                    ||| {
                        &&& exists|channel: Channel| #[trigger]
                            parses(parse_channel, self.channel@, Ok(channel))
                        &&& exists|mode: Mode| #[trigger]
                            parses(parse_mode, self.mode@, Ok(mode))
                        &&& parses(parse_edition, self.edition@, Err(error))
                    }
                    ||| {
                        &&& exists|channel: Channel| #[trigger]
                            parses(parse_channel, self.channel@, Ok(channel))
                        &&& exists|mode: Mode| #[trigger]
                            parses(parse_mode, self.mode@, Ok(mode))
                        &&& exists|edition: Edition| #[trigger]
                            parses(parse_edition, self.edition@, Ok(edition))
                        &&& parses(parse_crate_type, self.crate_type@, Err(error))
                    }
                },
            },
    {
        let channel_text = self.channel.as_str();
        let channel = match parse_channel(channel_text) {
            Ok(channel) => channel,
            Err(error) => {
                return Err(error);
            },
        };
        assert(parses(parse_channel, self.channel@, Ok(channel)));
        let mode_text = self.mode.as_str();
        let mode = match parse_mode(mode_text) {
            Ok(mode) => mode,
            Err(error) => {
                return Err(error);
            },
        };
        assert(parses(parse_mode, self.mode@, Ok(mode)));
        let edition_text = self.edition.as_str();
        let edition = match parse_edition(edition_text) {
            Ok(edition) => edition,
            Err(error) => {
                return Err(error);
            },
        };
        assert(parses(parse_edition, self.edition@, Ok(edition)));
        let crate_type_text = self.crate_type.as_str();
        let crate_type = match parse_crate_type(crate_type_text) {
            Ok(crate_type) => crate_type,
            Err(error) => {
                return Err(error);
            },
        };
        Ok(
            CoordinatorRequest {
                channel,
                mode,
                edition,
                crate_type,
                tests: self.tests,
                backtrace: self.backtrace,
                code: self.code,
            },
        )
    }
}

/// How far an execution has come. A `status` is what the program's end was
/// reported as: whether it succeeded, or why that is not known.
#[derive(Debug)]
pub enum ExecuteStage {
    /// The coordinator was asked to begin.
    Beginning,
    /// The client is told that the execution has begun.
    Announcing,
    /// The program runs.
    Streaming,
    /// The program runs, and a piece of its output is passed on.
    Forwarding,
    /// The program has ended; more may be left on its standard output.
    DrainingStdout { status: Result<bool, String> },
    ForwardingStdout { status: Result<bool, String> },
    /// Its standard output is exhausted; more may be left on its standard error.
    DrainingStderr { status: Result<bool, String> },
    ForwardingStderr { status: Result<bool, String> },
    /// The client is told how the program ended.
    Ending,
    Finished,
}

/// What an execution waits for.
#[derive(Debug)]
pub enum ExecuteWait {
    /// That a message is handed over to be sent.
    Send(MessageResponse),
    /// That the program ends or writes something.
    Select,
    /// What is left on the standard output, without waiting for more.
    PollStdout,
    /// What is left on the standard error, without waiting for more.
    PollStderr,
    /// Nothing: this is how the execution has ended.
    Finish(Result<(), ExecuteError>),
}

/// What has happened.
#[derive(Debug)]
pub enum ExecuteEvent {
    /// The coordinator has begun, or says why not.
    Began(Result<(), String>),
    /// A message was handed over, or there is nobody left to take it.
    Sent(bool),
    /// The program has ended.
    Status(Result<bool, String>),
    Stdout(String),
    Stderr(String),
    /// Nothing is left on the stream that was asked about.
    Drained,
}

/// The state of an [`Execution`].
pub struct ExecutionView {
    pub stage: ExecuteStage,
    pub meta: serde_json::Value,
}

/// The content of an [`ExecuteWait`].
pub enum ExecuteWaitView {
    Send(crate::message::MessageView),
    Select,
    PollStdout,
    PollStderr,
    Finish(Result<(), ExecuteError>),
}

impl View for ExecuteWait {
    type V = ExecuteWaitView;

    open spec fn view(&self) -> ExecuteWaitView {
        match self {
            ExecuteWait::Send(message) => ExecuteWaitView::Send(message@),
            ExecuteWait::Select => ExecuteWaitView::Select,
            ExecuteWait::PollStdout => ExecuteWaitView::PollStdout,
            ExecuteWait::PollStderr => ExecuteWaitView::PollStderr,
            ExecuteWait::Finish(result) => ExecuteWaitView::Finish(*result),
        }
    }
}

impl ExecutionView {
    /// An execution whose request was handed to the coordinator.
    pub open spec fn initial(meta: serde_json::Value) -> Self {
        ExecutionView { stage: ExecuteStage::Beginning, meta }
    }

    pub open spec fn stdout(self, chunk: String) -> ExecuteWaitView {
        ExecuteWaitView::Send(
            crate::message::MessageView::ExecuteStdout { payload: chunk@, meta: self.meta },
        )
    }

    pub open spec fn stderr(self, chunk: String) -> ExecuteWaitView {
        ExecuteWaitView::Send(
            crate::message::MessageView::ExecuteStderr { payload: chunk@, meta: self.meta },
        )
    }

    /// What an event leads to: the stage after it and what is waited for then.
    /// `None` where the event does not answer what was waited for.
    pub open spec fn after(self, event: ExecuteEvent) -> Option<(ExecuteStage, ExecuteWaitView)> {
        match (self.stage, event) {
            (ExecuteStage::Beginning, ExecuteEvent::Began(Ok(()))) => Some(
                (
                    ExecuteStage::Announcing,
                    ExecuteWaitView::Send(
                        crate::message::MessageView::ExecuteBegin { meta: self.meta },
                    ),
                ),
            ),
            (ExecuteStage::Beginning, ExecuteEvent::Began(Err(source))) => Some(
                (
                    ExecuteStage::Finished,
                    ExecuteWaitView::Finish(Err(ExecuteError::Begin { source })),
                ),
            ),
            (ExecuteStage::Announcing, ExecuteEvent::Sent(true)) => Some(
                (ExecuteStage::Streaming, ExecuteWaitView::Select),
            ),
            (ExecuteStage::Streaming, ExecuteEvent::Stdout(chunk)) => Some(
                (ExecuteStage::Forwarding, self.stdout(chunk)),
            ),
            (ExecuteStage::Streaming, ExecuteEvent::Stderr(chunk)) => Some(
                (ExecuteStage::Forwarding, self.stderr(chunk)),
            ),
            (ExecuteStage::Forwarding, ExecuteEvent::Sent(true)) => Some(
                (ExecuteStage::Streaming, ExecuteWaitView::Select),
            ),
            (ExecuteStage::Streaming, ExecuteEvent::Status(status)) => Some(
                (ExecuteStage::DrainingStdout { status }, ExecuteWaitView::PollStdout),
            ),
            (ExecuteStage::DrainingStdout { status }, ExecuteEvent::Stdout(chunk)) => Some(
                (ExecuteStage::ForwardingStdout { status }, self.stdout(chunk)),
            ),
            (ExecuteStage::ForwardingStdout { status }, ExecuteEvent::Sent(true)) => Some(
                (ExecuteStage::DrainingStdout { status }, ExecuteWaitView::PollStdout),
            ),
            (ExecuteStage::DrainingStdout { status }, ExecuteEvent::Drained) => Some(
                (ExecuteStage::DrainingStderr { status }, ExecuteWaitView::PollStderr),
            ),
            (ExecuteStage::DrainingStderr { status }, ExecuteEvent::Stderr(chunk)) => Some(
                (ExecuteStage::ForwardingStderr { status }, self.stderr(chunk)),
            ),
            (ExecuteStage::ForwardingStderr { status }, ExecuteEvent::Sent(true)) => Some(
                (ExecuteStage::DrainingStderr { status }, ExecuteWaitView::PollStderr),
            ),
            (ExecuteStage::DrainingStderr { status: Ok(success) }, ExecuteEvent::Drained) => Some(
                (
                    ExecuteStage::Ending,
                    ExecuteWaitView::Send(
                        crate::message::MessageView::ExecuteEnd { success, meta: self.meta },
                    ),
                ),
            ),
            (ExecuteStage::DrainingStderr { status: Err(source) }, ExecuteEvent::Drained) => Some(
                (
                    ExecuteStage::Finished,
                    ExecuteWaitView::Finish(Err(ExecuteError::End { source })),
                ),
            ),
            (ExecuteStage::Ending, ExecuteEvent::Sent(true)) => Some(
                (ExecuteStage::Finished, ExecuteWaitView::Finish(Ok(()))),
            ),
            (stage, ExecuteEvent::Sent(false)) => if sends(stage) {
                Some((ExecuteStage::Finished, ExecuteWaitView::Finish(Ok(()))))
            } else {
                None
            },
            _ => None,
        }
    }
}

/// Whether a message is on its way at this stage.
pub open spec fn sends(stage: ExecuteStage) -> bool {
    match stage {
        ExecuteStage::Announcing => true,
        ExecuteStage::Forwarding => true,
        ExecuteStage::ForwardingStdout { .. } => true,
        ExecuteStage::ForwardingStderr { .. } => true,
        ExecuteStage::Ending => true,
        _ => false,
    }
}

/// An execution under way. It is driven by events, each of which answers what
/// the execution waits for.
pub struct Execution {
    stage: ExecuteStage,
    meta: Meta,
}

impl View for Execution {
    type V = ExecutionView;

    closed spec fn view(&self) -> ExecutionView {
        ExecutionView { stage: self.stage, meta: *self.meta }
    }
}

impl Execution {
    /// Takes up a request that was read, or could not be. On success the
    /// coordinator is to begin with the request that is handed back; else the
    /// execution has ended.
    pub fn start<R>(request: Result<R, String>, meta: Meta) -> (result: Result<
        (Execution, R),
        ExecuteError,
    >)
        ensures
            match request {
                Ok(request) => {
                    &&& result matches Ok((execution, begun))
                    &&& begun == request
                    &&& execution@ == ExecutionView::initial(*meta)
                },
                Err(inner) => result == Err::<(Execution, R), ExecuteError>(
                    ExecuteError::BadRequest { inner },
                ),
            },
    {
        match request {
            Ok(request) => Ok((Execution { stage: ExecuteStage::Beginning, meta }, request)),
            Err(inner) => Err(ExecuteError::BadRequest { inner }),
        }
    }

    /// Whether a message is on its way.
    fn sending(stage: &ExecuteStage) -> (sending: bool)
        ensures
            sending == sends(*stage),
    {
        match stage {
            ExecuteStage::Announcing => true,
            ExecuteStage::Forwarding => true,
            ExecuteStage::ForwardingStdout { .. } => true,
            ExecuteStage::ForwardingStderr { .. } => true,
            ExecuteStage::Ending => true,
            _ => false,
        }
    }

    /// Takes in an event and tells what is waited for next. An event that does
    /// not answer what was waited for changes nothing and gives `None`.
    pub fn step(&mut self, event: ExecuteEvent) -> (wait: Option<ExecuteWait>)
        ensures
            final(self)@.meta == old(self)@.meta,
            match old(self)@.after(event) {
                Some((stage, expected)) => {
                    &&& final(self)@.stage == stage
                    &&& wait matches Some(wait)
                    &&& wait@ == expected
                },
                None => final(self)@ == old(self)@ && wait is None,
            },
    {
        let mut stage = ExecuteStage::Finished;
        std::mem::swap(&mut stage, &mut self.stage);
        let closed = match event {
            ExecuteEvent::Sent(false) => Self::sending(&stage),
            _ => false,
        };
        if closed {
            return Some(ExecuteWait::Finish(Ok(())));
        }
        let (stage, wait) = match (stage, event) {
            (ExecuteStage::Beginning, ExecuteEvent::Began(Ok(()))) => (
                ExecuteStage::Announcing,
                Some(ExecuteWait::Send(MessageResponse::ExecuteBegin { meta: share(&self.meta) })),
            ),
            (ExecuteStage::Beginning, ExecuteEvent::Began(Err(source))) => (
                ExecuteStage::Finished,
                Some(ExecuteWait::Finish(Err(ExecuteError::Begin { source }))),
            ),
            (ExecuteStage::Announcing, ExecuteEvent::Sent(true)) => (
                ExecuteStage::Streaming,
                Some(ExecuteWait::Select),
            ),
            (ExecuteStage::Streaming, ExecuteEvent::Stdout(payload)) => (
                ExecuteStage::Forwarding,
                Some(self.send_stdout(payload)),
            ),
            (ExecuteStage::Streaming, ExecuteEvent::Stderr(payload)) => (
                ExecuteStage::Forwarding,
                Some(self.send_stderr(payload)),
            ),
            (ExecuteStage::Forwarding, ExecuteEvent::Sent(true)) => (
                ExecuteStage::Streaming,
                Some(ExecuteWait::Select),
            ),
            (ExecuteStage::Streaming, ExecuteEvent::Status(status)) => (
                ExecuteStage::DrainingStdout { status },
                Some(ExecuteWait::PollStdout),
            ),
            (ExecuteStage::DrainingStdout { status }, ExecuteEvent::Stdout(payload)) => (
                ExecuteStage::ForwardingStdout { status },
                Some(self.send_stdout(payload)),
            ),
            (ExecuteStage::ForwardingStdout { status }, ExecuteEvent::Sent(true)) => (
                ExecuteStage::DrainingStdout { status },
                Some(ExecuteWait::PollStdout),
            ),
            (ExecuteStage::DrainingStdout { status }, ExecuteEvent::Drained) => (
                ExecuteStage::DrainingStderr { status },
                Some(ExecuteWait::PollStderr),
            ),
            (ExecuteStage::DrainingStderr { status }, ExecuteEvent::Stderr(payload)) => (
                ExecuteStage::ForwardingStderr { status },
                Some(self.send_stderr(payload)),
            ),
            (ExecuteStage::ForwardingStderr { status }, ExecuteEvent::Sent(true)) => (
                ExecuteStage::DrainingStderr { status },
                Some(ExecuteWait::PollStderr),
            ),
            (ExecuteStage::DrainingStderr { status }, ExecuteEvent::Drained) => match status {
                Ok(success) => (
                    ExecuteStage::Ending,
                    Some(
                        ExecuteWait::Send(
                            MessageResponse::ExecuteEnd {
                                payload: ExecuteResponse { success },
                                meta: share(&self.meta),
                            },
                        ),
                    ),
                ),
                Err(source) => (
                    ExecuteStage::Finished,
                    Some(ExecuteWait::Finish(Err(ExecuteError::End { source }))),
                ),
            },
            (ExecuteStage::Ending, ExecuteEvent::Sent(true)) => (
                ExecuteStage::Finished,
                Some(ExecuteWait::Finish(Ok(()))),
            ),
            (stage, _) => (stage, None),
        };
        self.stage = stage;
        wait
    }

    fn send_stdout(&self, payload: String) -> (wait: ExecuteWait)
        ensures
            wait@ == self@.stdout(payload),
    {
        ExecuteWait::Send(MessageResponse::ExecuteStdout { payload, meta: share(&self.meta) })
    }

    fn send_stderr(&self, payload: String) -> (wait: ExecuteWait)
        ensures
            wait@ == self@.stderr(payload),
    {
        ExecuteWait::Send(MessageResponse::ExecuteStderr { payload, meta: share(&self.meta) })
    }
}

} // verus!
