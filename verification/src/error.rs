//! What can go wrong in a session, and how it is worded.

use vstd::prelude::*;
use vstd::string::*;

verus! {

/// Why the coordinator could not be handed out or put away. `source` is the
/// coordinator's own account.
#[derive(Debug)]
pub enum CoordinatorManagerError {
    New { source: String },
    OutstandingCoordinator,
    Shutdown { source: String },
}

impl CoordinatorManagerError {
    /// The wording of the error.
    pub open spec fn wording(self) -> Seq<char> {
        match self {
            CoordinatorManagerError::New { .. } => "Could not create the coordinator"@,
            CoordinatorManagerError::OutstandingCoordinator =>
                "The coordinator is still referenced and cannot be shut down"@,
            CoordinatorManagerError::Shutdown { .. } => "Could not shut down the coordinator"@,
        }
    }

    /// Words the error for a reader.
    pub fn message(&self) -> (text: String)
        ensures
            text@ == self.wording(),
    {
        match self {
            CoordinatorManagerError::New { .. } => "Could not create the coordinator".to_owned(),
            CoordinatorManagerError::OutstandingCoordinator => {
                "The coordinator is still referenced and cannot be shut down".to_owned()
            },
            CoordinatorManagerError::Shutdown { .. } => {
                "Could not shut down the coordinator".to_owned()
            },
        }
    }
}

/// Why an execution ended without a result. `inner` is what was wrong with the
/// request, `source` the coordinator's own account.
#[derive(Debug)]
pub enum ExecuteError {
    BadRequest { inner: String },
    Begin { source: String },
    End { source: String },
}

impl ExecuteError {
    /// The wording of the error.
    pub open spec fn wording(self) -> Seq<char> {
        match self {
            ExecuteError::BadRequest { inner } => "The request could not be parsed: "@ + inner@,
            ExecuteError::Begin { .. } => "Could not begin the execution session"@,
            ExecuteError::End { .. } => "Could not end the execution session"@,
        }
    }

    /// Words the error for a reader.
    pub fn message(&self) -> (text: String)
        ensures
            text@ == self.wording(),
    {
        match self {
            ExecuteError::BadRequest { inner } => {
                let mut text = "The request could not be parsed: ".to_owned();
                text.append(inner.as_str());
                text
            },
            ExecuteError::Begin { .. } => "Could not begin the execution session".to_owned(),
            ExecuteError::End { .. } => "Could not end the execution session".to_owned(),
        }
    }
}

/// An error that a session reports, to the client or to its own log.
#[derive(Debug)]
pub enum SessionError {
    /// A message of the client could not be read; `source` says why.
    Deserialization { source: String },
    StreamingCoordinatorSpawn { source: CoordinatorManagerError },
    StreamingCoordinatorIdle { source: CoordinatorManagerError },
    StreamingExecute { source: ExecuteError },
    /// A job panicked; `text` is what it panicked with.
    WebSocketTaskPanic { text: String },
}

/// The content of an [`SessionError`].
pub enum SessionErrorView {
    Deserialization { source: Seq<char> },
    StreamingCoordinatorSpawn { source: CoordinatorManagerError },
    StreamingCoordinatorIdle { source: CoordinatorManagerError },
    StreamingExecute { source: ExecuteError },
    WebSocketTaskPanic { text: Seq<char> },
}

impl View for SessionError {
    type V = SessionErrorView;

    open spec fn view(&self) -> SessionErrorView {
        match self {
            SessionError::Deserialization { source } => SessionErrorView::Deserialization {
                source: source@,
            },
            SessionError::StreamingCoordinatorSpawn { source } => {
                SessionErrorView::StreamingCoordinatorSpawn { source: *source }
            },
            SessionError::StreamingCoordinatorIdle { source } => {
                SessionErrorView::StreamingCoordinatorIdle { source: *source }
            },
            SessionError::StreamingExecute { source } => SessionErrorView::StreamingExecute {
                source: *source,
            },
            SessionError::WebSocketTaskPanic { text } => SessionErrorView::WebSocketTaskPanic {
                text: text@,
            },
        }
    }
}

/// What a job reports of an execution: its error, as one of the session's.
pub fn job_result(result: Result<(), ExecuteError>) -> (job: Result<(), SessionError>)
    ensures
        match result {
            Ok(()) => job is Ok,
            Err(error) => {
                job matches Err(e) && e == (SessionError::StreamingExecute { source: error })
            },
        },
{
    match result {
        Ok(()) => Ok(()),
        Err(source) => Err(SessionError::StreamingExecute { source }),
    }
}

} // verus!
