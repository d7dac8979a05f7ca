//! The WebSocket protocol of the playground server.
//!
//! A client opens a session with a handshake and then asks for programs to be
//! run. A session is a state machine: it is told what has happened, and tells what
//! to do next. So is the execution of one program. Sockets, clocks and tasks are
//! the business of whoever drives them.
//!
//! - `message`: the messages, and the text that is sent for one
//! - `json`: JSON values, which the messages carry along
//! - `error`: what can go wrong
//! - `manager`: access to the coordinator, and the jobs that use it
//! - `execute`: the execution of one program
//! - `session`: a session as a whole
//! - `message_laws`, `error_laws`, `manager_laws`, `execute_laws`, `session_laws`: what
//!   holds of every message, error, manager, execution and session
//! - `transition_laws`: what each event leads to in a session

pub mod error;
pub mod error_laws;
pub mod execute;
pub mod execute_laws;
mod handle;
pub mod json;
pub mod manager;
pub mod manager_laws;
pub mod message;
pub mod message_laws;
pub mod session;
pub mod session_laws;
pub mod transition_laws;
