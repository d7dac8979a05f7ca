# playground_websocket

The WebSocket protocol of the playground server, verified with Verus.

`src/` is the protocol without any I/O. `session::Session` and
`execute::Execution` are state machines: `step` takes in what has happened and
tells what to do next, as the spec functions `SessionView::after` and
`ExecutionView::after` say. One thing is left open by the first: whether other
handles to the coordinator are left when a session gives it up. `Session::left`
and `Session::idled` say what follows in either case. `execute_laws` and
`session_laws` prove what follows for every course of events: how a session opens,
that the client is told of the feature flags before anything else, that at most two
jobs are at work, that a new job cancels the older one, that all output of a program
reaches the client in order and before the news of its end, and so on.

JSON is written by `serde_json`. What it writes for a string is stated in full
(`json::quoted`), what it writes for other values is named (`json::json_text`), and
how a message is put together from such texts is stated in full (`message::frame`).
`message_laws` proves that no output is lost on the way.

`app/` drives the machines: the axum socket, the tokio tasks and timers, the
queue of messages, and the reading of the client's JSON with serde. The
coordinator that runs programs and the server's metrics are traits there.
