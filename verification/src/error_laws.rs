//! What holds of every error.

use crate::error::{CoordinatorManagerError, ExecuteError, SessionError, SessionErrorView};
use vstd::prelude::*;

verus! {

/// The wording of an error tells what could not be done. The account of the
/// coordinator is no part of it; what was wrong with a request is.
pub proof fn law_errors_are_worded(account: String)
    ensures
        (CoordinatorManagerError::New { source: account }).wording()
            == "Could not create the coordinator"@,
        (CoordinatorManagerError::OutstandingCoordinator).wording()
            == "The coordinator is still referenced and cannot be shut down"@,
        (CoordinatorManagerError::Shutdown { source: account }).wording()
            == "Could not shut down the coordinator"@,
        (ExecuteError::BadRequest { inner: account }).wording()
            == "The request could not be parsed: "@ + account@,
        (ExecuteError::Begin { source: account }).wording()
            == "Could not begin the execution session"@,
        (ExecuteError::End { source: account }).wording() == "Could not end the execution session"@,
{
}

/// What an error of a session says is all that is in it.
pub proof fn law_session_errors_are_shown_as_they_are(
    text: String,
    manager: CoordinatorManagerError,
    execute: ExecuteError,
)
    ensures
        (SessionError::Deserialization { source: text })@ == (SessionErrorView::Deserialization {
            source: text@,
        }),
        (SessionError::StreamingCoordinatorSpawn { source: manager })@
            == (SessionErrorView::StreamingCoordinatorSpawn { source: manager }),
        (SessionError::StreamingCoordinatorIdle { source: manager })@
            == (SessionErrorView::StreamingCoordinatorIdle { source: manager }),
        (SessionError::StreamingExecute { source: execute })@
            == (SessionErrorView::StreamingExecute { source: execute }),
        (SessionError::WebSocketTaskPanic { text })@ == (SessionErrorView::WebSocketTaskPanic {
            text: text@,
        }),
{
}

} // verus!
