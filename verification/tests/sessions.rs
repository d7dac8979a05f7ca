use playground_websocket::error::{CoordinatorManagerError, ExecuteError, SessionError};
use playground_websocket::json::create_server_meta;
use playground_websocket::message::{
    Connected, ExecuteRequest, FeatureFlags, HandshakeMessage, MessageResponse, WSMessageRequest,
};
use playground_websocket::session::{
    Count, Effect, Event, Outcome, PanicPayload, Received, Session, Step, Wait,
};
use serde_json::Value;
use std::sync::Arc;

type Test = Session<&'static str, u32>;
type TestEvent = Event<&'static str, u32>;

fn handshake(accept: bool) -> TestEvent {
    Event::HandshakeDecoded(Some(HandshakeMessage::Connected {
        payload: Connected { i_accept_this_is_an_unsupported_api: accept },
        meta: Arc::new(Value::Null),
    }))
}

fn text(text: &str) -> TestEvent {
    Event::Received(Received::Text(text.to_string()))
}

fn request(code: &str) -> TestEvent {
    Event::RequestDecoded(Ok(WSMessageRequest::ExecuteRequest {
        payload: ExecuteRequest {
            channel: "stable".to_string(),
            mode: "debug".to_string(),
            edition: "2021".to_string(),
            crate_type: "bin".to_string(),
            tests: false,
            code: code.to_string(),
            backtrace: true,
        },
        meta: Arc::new(Value::from(code)),
    }))
}

fn joined(id: usize) -> TestEvent {
    Event::Joined { id, outcome: Outcome::Returned(Ok(())) }
}

fn wording(error: &SessionError) -> String {
    match error {
        SessionError::Deserialization { source } => format!("unreadable: {source}"),
        SessionError::StreamingCoordinatorSpawn { source } => {
            format!("spawn: {}", source.message())
        }
        SessionError::StreamingCoordinatorIdle { source } => format!("idle: {}", source.message()),
        SessionError::StreamingExecute { source } => format!("execute: {}", source.message()),
        SessionError::WebSocketTaskPanic { text } => format!("panic: {text}"),
    }
}

fn describe_wait(wait: &Wait<&'static str>) -> String {
    match wait {
        Wait::Receive => "receive".to_string(),
        Wait::DecodeHandshake(text) => format!("decode handshake {text}"),
        Wait::SendText(text) => format!("send {text}"),
        Wait::Queue(Ok(MessageResponse::FeatureFlags { payload, meta })) => {
            assert_eq!(**meta, *create_server_meta());
            format!("queue flags {:?}", payload.execute_via_websocket_threshold)
        }
        Wait::Queue(Ok(other)) => panic!("{other:?}"),
        Wait::Queue(Err(error)) => format!("queue {}", wording(error)),
        Wait::Select { idle_counts } => {
            if *idle_counts { "select or idle".to_string() } else { "select".to_string() }
        }
        Wait::DecodeRequest(text) => format!("decode request {text}"),
        Wait::CreateCoordinator => "create".to_string(),
        Wait::Spawn { job, request, meta } => {
            assert_eq!(**meta, Value::from(request.code.as_str()));
            format!("spawn {} {} {} {}", job.id, job.start, job.coordinator, request.code)
        }
        Wait::Disconnect => "disconnect".to_string(),
        Wait::ShutDownCoordinator(coordinator) => format!("shut down {coordinator}"),
        Wait::ShutDownJobs => "shut down jobs".to_string(),
        Wait::Close(None) => "close".to_string(),
        Wait::Close(Some(error)) => format!("close: {}", error.message()),
    }
}

fn describe(step: Option<Step<&'static str, u32>>) -> String {
    let Some(step) = step else { return "none".to_string() };
    let wait = describe_wait(&step.wait);
    let count = match step.count {
        None => "".to_string(),
        Some(Count::Incoming) => "in; ".to_string(),
        Some(Count::Outgoing(label)) => format!("out {label}; "),
    };
    match step.effect {
        None => format!("{count}{wait}"),
        Some(Effect::RecordError(text)) => format!("{count}record {text}; {wait}"),
        Some(Effect::Abort(handle)) => format!("{count}abort {handle}; {wait}"),
        Some(Effect::StartJob(id)) => format!("{count}start {id}; {wait}"),
    }
}

fn check(session: &mut Test, events: Vec<(TestEvent, &str)>) {
    for (event, expected) in events {
        assert_eq!(describe(session.step(event)), expected);
    }
}

fn new() -> Test {
    let (session, step) =
        Session::new(FeatureFlags { execute_via_websocket_threshold: Some(Value::from(1)) });
    assert_eq!(describe(Some(step)), "receive");
    session
}

fn open() -> Test {
    let mut session = new();
    check(
        &mut session,
        vec![
            (text("hello"), "decode handshake hello"),
            (handshake(true), "send hello"),
            (Event::Sent(true), "queue flags Some(Number(1))"),
            (Event::Queued(true), "select or idle"),
        ],
    );
    session
}

/// Open, with a coordinator and one job, number 0, whose handle is 100.
fn busy() -> Test {
    let mut session = open();
    check(
        &mut session,
        vec![
            (text("run"), "in; decode request run"),
            (request("one"), "create"),
            (Event::Created(Ok("docker")), "spawn 0 true docker one"),
            (Event::Spawned(100), "select"),
        ],
    );
    session
}

#[test]
fn session_opens_properly() {
    open();
}

#[test]
fn first_message_must_be_text() {
    for received in
        [Received::Closed, Received::Other, Received::Failed("reset".to_string())]
    {
        let mut session = new();
        check(
            &mut session,
            vec![(Event::Received(received), "close"), (Event::Sent(true), "none")],
        );
    }
}

#[test]
fn first_message_must_be_a_handshake() {
    let mut session = new();
    check(
        &mut session,
        vec![
            (text("?"), "decode handshake ?"),
            (Event::HandshakeDecoded(None), "close"),
            (text("again"), "none"),
        ],
    );
}

#[test]
fn api_must_be_accepted() {
    let mut session = new();
    check(
        &mut session,
        vec![(text("hi"), "decode handshake hi"), (handshake(false), "close")],
    );
}

#[test]
fn echo_and_flags_must_go_through() {
    let mut session = new();
    check(
        &mut session,
        vec![
            (text("hi"), "decode handshake hi"),
            (handshake(true), "send hi"),
            (Event::Sent(false), "close"),
        ],
    );
    let mut session = new();
    check(
        &mut session,
        vec![
            (text("hi"), "decode handshake hi"),
            (handshake(true), "send hi"),
            (Event::Sent(true), "queue flags Some(Number(1))"),
            (Event::Queued(false), "close"),
        ],
    );
}

#[test]
fn handshake_and_then_the_flags_are_sent() {
    let mut session = new();
    let mut sent = Vec::new();
    let mut queued = Vec::new();
    for event in [
        text("hello"),
        handshake(true),
        Event::Sent(true),
        Event::Queued(true),
        text("{"),
        Event::RequestDecoded(Err("eof".to_string())),
        Event::Queued(true),
    ] {
        match session.step(event).unwrap().wait {
            Wait::SendText(text) => sent.push(text),
            Wait::Queue(message) => queued.push(message.map_err(|error| wording(&error))),
            _ => {}
        }
    }
    for response in queued {
        match session.step(Event::Response(response)).unwrap().wait {
            Wait::SendText(text) => sent.push(text),
            other => panic!("{other:?}"),
        }
        session.step(Event::Sent(true)).unwrap();
    }
    assert_eq!(
        sent,
        [
            "hello",
            r#"{"type":"featureFlags","payload":{"executeViaWebsocketThreshold":1},"meta":{"sequenceNumber":-1}}"#,
            r#"{"type":"websocket/error","payload":{"error":"unreadable: eof"},"meta":{"sequenceNumber":-1}}"#,
        ]
    );
}

#[test]
fn request_becomes_a_job() {
    let mut session = busy();
    check(
        &mut session,
        vec![
            (text("again"), "in; decode request again"),
            (request("two"), "spawn 1 true docker two"),
            (Event::Spawned(200), "abort 100; select"),
        ],
    );
}

#[test]
fn older_jobs_are_cancelled_and_the_limit_is_kept() {
    let mut session = busy();
    check(
        &mut session,
        vec![
            (text("r"), "in; decode request r"),
            (request("two"), "spawn 1 true docker two"),
            (Event::Spawned(200), "abort 100; select"),
            (text("r"), "in; decode request r"),
            (request("three"), "spawn 2 false docker three"),
            (Event::Spawned(300), "abort 200; select"),
            (Event::Joined { id: 0, outcome: Outcome::Cancelled }, "start 2; select"),
            (Event::Joined { id: 1, outcome: Outcome::Cancelled }, "select"),
            (Event::Joined { id: 1, outcome: Outcome::Cancelled }, "none"),
            (joined(2), "select or idle"),
        ],
    );
}

#[test]
fn unreadable_request_is_answered() {
    for queued in [true, false] {
        let mut session = open();
        check(
            &mut session,
            vec![
                (text("{"), "in; decode request {"),
                (Event::RequestDecoded(Err("eof".to_string())), "queue unreadable: eof"),
                (Event::Queued(queued), "select or idle"),
            ],
        );
    }
}

#[test]
fn coordinator_that_is_not_made_is_answered() {
    for queued in [true, false] {
        let mut session = open();
        check(
            &mut session,
            vec![
                (text("run"), "in; decode request run"),
                (request("one"), "create"),
                (
                    Event::Created(Err("no docker".to_string())),
                    "queue spawn: Could not create the coordinator",
                ),
                (Event::Queued(queued), "select or idle"),
                (text("run"), "in; decode request run"),
                (request("one"), "create"),
            ],
        );
    }
}

#[test]
fn other_messages_are_passed_over_and_faults_recorded() {
    let mut session = open();
    check(
        &mut session,
        vec![
            (Event::Received(Received::Other), "in; select or idle"),
            (
                Event::Received(Received::Failed("reset".to_string())),
                "in; record reset; select or idle",
            ),
        ],
    );
}

#[test]
fn queued_messages_are_sent_and_counted() {
    let mut session = open();
    check(
        &mut session,
        vec![
            (
                Event::Response(Ok(MessageResponse::ExecuteBegin {
                    meta: Arc::new(Value::from(3)),
                })),
                r#"send {"type":"output/execute/wsExecuteBegin","meta":3}"#,
            ),
            (Event::Sent(true), "out true; select or idle"),
            (
                Event::Response(Err("it \"broke\"".to_string())),
                r#"send {"type":"websocket/error","payload":{"error":"it \"broke\""},"meta":{"sequenceNumber":-1}}"#,
            ),
            (Event::Sent(true), "out false; select or idle"),
        ],
    );
}

#[test]
fn connection_is_let_go_when_nothing_can_be_sent() {
    let mut session = open();
    check(
        &mut session,
        vec![
            (
                Event::Response(Ok(MessageResponse::ExecuteBegin {
                    meta: Arc::new(Value::Null),
                })),
                r#"send {"type":"output/execute/wsExecuteBegin","meta":null}"#,
            ),
            (Event::Sent(false), "disconnect"),
            (Event::Disconnected, "shut down jobs"),
            (Event::JobsShutDown, "close"),
            (text("late"), "none"),
        ],
    );
}

#[test]
fn only_panics_are_reported() {
    let outcomes = [
        (Outcome::Returned(Ok(())), "select or idle"),
        (
            Outcome::Returned(Err(SessionError::StreamingExecute {
                source: ExecuteError::Begin { source: "x".to_string() },
            })),
            "select or idle",
        ),
        (Outcome::Cancelled, "select or idle"),
        (Outcome::Panicked(PanicPayload::Owned("boom 1".to_string())), "queue panic: boom 1"),
        (Outcome::Panicked(PanicPayload::Literal("boom")), "queue panic: boom"),
        (Outcome::Panicked(PanicPayload::Unknown), "queue panic: An unknown panic occurred"),
    ];
    for (outcome, expected) in outcomes {
        let mut session = busy();
        check(&mut session, vec![(Event::Joined { id: 0, outcome }, expected)]);
    }
}

#[test]
fn panic_report_must_be_queued() {
    for (queued, expected) in
        [(true, "select or idle"), (false, "disconnect")]
    {
        let mut session = busy();
        check(
            &mut session,
            vec![
                (
                    Event::Joined {
                        id: 0,
                        outcome: Outcome::Panicked(PanicPayload::Literal("boom")),
                    },
                    "queue panic: boom",
                ),
                (Event::Queued(queued), expected),
            ],
        );
    }
}

#[test]
fn idle_session_gives_up_its_coordinator() {
    let mut session = busy();
    check(
        &mut session,
        vec![
            (Event::IdleElapsed, "none"),
            (joined(0), "select or idle"),
            (Event::IdleElapsed, "shut down docker"),
            (Event::CoordinatorShutDown(Ok(())), "select or idle"),
            (Event::IdleElapsed, "select or idle"),
            (text("run"), "in; decode request run"),
            (request("two"), "create"),
            (Event::Created(Ok("docker 2")), "spawn 0 true docker 2 two"),
            (Event::Spawned(200), "abort 100; select"),
        ],
    );
}

#[test]
fn failed_idling_is_reported() {
    for (queued, expected) in
        [(true, "select or idle"), (false, "disconnect")]
    {
        let mut session = busy();
        check(
            &mut session,
            vec![
                (joined(0), "select or idle"),
                (Event::IdleElapsed, "shut down docker"),
                (
                    Event::CoordinatorShutDown(Err("stuck".to_string())),
                    "queue idle: Could not shut down the coordinator",
                ),
                (Event::Queued(queued), expected),
            ],
        );
    }
}

#[test]
fn idling_with_a_coordinator_in_use_is_reported() {
    let mut session = open();
    check(&mut session, vec![(text("run"), "in; decode request run"), (request("one"), "create")]);
    let Some(Step { wait: Wait::Spawn { job, .. }, .. }) =
        session.step(Event::Created(Ok("docker")))
    else {
        panic!("no job")
    };
    check(
        &mut session,
        vec![
            (Event::Spawned(100), "select"),
            (joined(0), "select or idle"),
            (
                Event::IdleElapsed,
                "queue idle: The coordinator is still referenced and cannot be shut down",
            ),
        ],
    );
    assert_eq!(*job.coordinator, "docker");
}

#[test]
fn client_that_has_gone_ends_the_session() {
    let mut session = open();
    check(
        &mut session,
        vec![
            (Event::Received(Received::Closed), "in; disconnect"),
            (Event::JobsShutDown, "none"),
            (Event::Disconnected, "shut down jobs"),
            (Event::Queued(true), "none"),
            (Event::JobsShutDown, "close"),
            (Event::JobsShutDown, "none"),
        ],
    );
    let mut session = busy();
    check(
        &mut session,
        vec![
            (Event::Received(Received::Closed), "in; disconnect"),
            (Event::Disconnected, "shut down docker"),
            (Event::CoordinatorShutDown(Ok(())), "shut down jobs"),
            (Event::JobsShutDown, "close"),
        ],
    );
    let mut session = busy();
    check(
        &mut session,
        vec![
            (Event::Received(Received::Closed), "in; disconnect"),
            (Event::Disconnected, "shut down docker"),
            (
                Event::CoordinatorShutDown(Err("stuck".to_string())),
                "close: Could not shut down the coordinator",
            ),
        ],
    );
}

#[test]
fn coordinator_in_use_is_left_to_the_log() {
    let mut session = open();
    check(&mut session, vec![(text("run"), "in; decode request run"), (request("one"), "create")]);
    let Some(Step { wait: Wait::Spawn { job, .. }, .. }) =
        session.step(Event::Created(Ok("docker")))
    else {
        panic!("no job")
    };
    check(&mut session, vec![(Event::Spawned(100), "select")]);
    check(
        &mut session,
        vec![
            (Event::Received(Received::Closed), "in; disconnect"),
            (
                Event::Disconnected,
                "close: The coordinator is still referenced and cannot be shut down",
            ),
        ],
    );
    drop(job);
}

#[test]
fn panic_words() {
    assert_eq!(PanicPayload::Owned("a".to_string()).into_text(), "a");
    assert_eq!(PanicPayload::Literal("b").into_text(), "b");
    assert_eq!(PanicPayload::Unknown.into_text(), "An unknown panic occurred");
}

#[test]
fn coordinator_is_kept_until_the_connection_is_gone() {
    let mut session = open();
    check(&mut session, vec![(text("run"), "in; decode request run"), (request("one"), "create")]);
    let Some(Step { wait: Wait::Spawn { job, .. }, .. }) =
        session.step(Event::Created(Ok("docker")))
    else {
        panic!("no job")
    };
    check(
        &mut session,
        vec![
            (Event::Spawned(100), "select"),
            (Event::Received(Received::Closed), "in; disconnect"),
        ],
    );
    // The job ends because nobody takes its messages any more.
    drop(job);
    check(
        &mut session,
        vec![
            (Event::Disconnected, "shut down docker"),
            (Event::CoordinatorShutDown(Ok(())), "shut down jobs"),
        ],
    );
}

#[test]
fn session_ends_as_giving_up_went() {
    let outstanding = || CoordinatorManagerError::OutstandingCoordinator;
    assert_eq!(describe(Some(open().left(Ok(None)))), "shut down jobs");
    assert_eq!(describe(Some(open().left(Ok(Some("docker"))))), "shut down docker");
    assert_eq!(
        describe(Some(open().left(Err(outstanding())))),
        "close: The coordinator is still referenced and cannot be shut down"
    );
    let mut session = open();
    session.left(Ok(Some("docker")));
    check(
        &mut session,
        vec![
            (Event::CoordinatorShutDown(Ok(())), "shut down jobs"),
            (Event::JobsShutDown, "close"),
        ],
    );
}

#[test]
fn idling_goes_on_as_giving_up_went() {
    let outstanding = || CoordinatorManagerError::OutstandingCoordinator;
    assert_eq!(describe(Some(open().idled(Ok(None)))), "select or idle");
    assert_eq!(describe(Some(open().idled(Ok(Some("docker"))))), "shut down docker");
    assert_eq!(
        describe(Some(open().idled(Err(outstanding())))),
        "queue idle: The coordinator is still referenced and cannot be shut down"
    );
    let mut session = open();
    session.idled(Ok(Some("docker")));
    check(&mut session, vec![(Event::CoordinatorShutDown(Ok(())), "select or idle")]);
}

#[test]
fn traffic_is_counted() {
    let mut session = open();
    let mut counts = Vec::new();
    let events: Vec<TestEvent> = vec![
        Event::Received(Received::Other),
        Event::Received(Received::Failed("reset".to_string())),
        Event::Response(Err("x".to_string())),
        Event::Sent(true),
        text("?"),
        Event::RequestDecoded(Err("eof".to_string())),
        Event::Queued(true),
        Event::Response(Ok(MessageResponse::ExecuteBegin { meta: Arc::new(Value::Null) })),
        Event::Sent(true),
        Event::Response(Err("y".to_string())),
        Event::Sent(false),
    ];
    for event in events {
        match session.step(event).unwrap().count {
            None => {}
            Some(Count::Incoming) => counts.push("in"),
            Some(Count::Outgoing(label)) => counts.push(label),
        }
    }
    assert_eq!(counts, ["in", "in", "false", "in", "true"]);
}
