use playground_websocket::error::ExecuteError;
use playground_websocket::execute::{ExecuteEvent, ExecuteWait, Execution};
use playground_websocket::json::Meta;
use playground_websocket::message::{ExecuteRequest, MessageResponse};
use serde_json::Value;
use std::cell::RefCell;
use std::sync::Arc;

fn meta() -> Meta {
    Arc::new(Value::from(7))
}

fn request() -> ExecuteRequest {
    ExecuteRequest {
        channel: "stable".to_string(),
        mode: "debug".to_string(),
        edition: "2021".to_string(),
        crate_type: "bin".to_string(),
        tests: true,
        code: "fn main() {}".to_string(),
        backtrace: false,
    }
}

fn started() -> Execution {
    let (execution, request) = Execution::start(Ok("request"), meta()).ok().unwrap();
    assert_eq!(request, "request");
    execution
}

fn describe(wait: Option<ExecuteWait>) -> String {
    match wait {
        None => "none".to_string(),
        Some(ExecuteWait::Select) => "select".to_string(),
        Some(ExecuteWait::PollStdout) => "poll stdout".to_string(),
        Some(ExecuteWait::PollStderr) => "poll stderr".to_string(),
        Some(ExecuteWait::Finish(Ok(()))) => "finish".to_string(),
        Some(ExecuteWait::Finish(Err(error))) => format!("fail: {}", error.message()),
        Some(ExecuteWait::Send(message)) => match message {
            MessageResponse::ExecuteBegin { meta } => format!("begin {meta}"),
            MessageResponse::ExecuteStdout { payload, meta } => format!("out {payload} {meta}"),
            MessageResponse::ExecuteStderr { payload, meta } => format!("err {payload} {meta}"),
            MessageResponse::ExecuteEnd { payload, meta } => {
                format!("end {} {meta}", payload.success)
            }
            other => panic!("{other:?}"),
        },
    }
}

fn run(execution: &mut Execution, events: Vec<ExecuteEvent>) -> Vec<String> {
    events.into_iter().map(|event| describe(execution.step(event))).collect()
}

fn out(text: &str) -> ExecuteEvent {
    ExecuteEvent::Stdout(text.to_string())
}

fn err(text: &str) -> ExecuteEvent {
    ExecuteEvent::Stderr(text.to_string())
}

#[test]
fn choices_are_read_in_order() {
    let asked = RefCell::new(Vec::new());
    let parse = |text: &str| -> Result<String, String> {
        asked.borrow_mut().push(text.to_string());
        Ok(text.to_uppercase())
    };
    let read = request().try_into_coordinator(&parse, &parse, &parse, &parse).unwrap();
    assert_eq!(read.channel, "STABLE");
    assert_eq!(read.mode, "DEBUG");
    assert_eq!(read.edition, "2021");
    assert_eq!(read.crate_type, "BIN");
    assert!(read.tests);
    assert!(!read.backtrace);
    assert_eq!(read.code, "fn main() {}");
    assert_eq!(*asked.borrow(), ["stable", "debug", "2021", "bin"]);
}

#[test]
fn first_unreadable_choice_decides() {
    let good = |_: &str| -> Result<u8, String> { Ok(1) };
    let bad = |text: &str| -> Result<u8, String> { Err(format!("bad {text}")) };
    let error = |result: Result<_, String>| result.err();
    assert_eq!(
        error(request().try_into_coordinator(bad, bad, bad, bad).map(|_| ())),
        Some("bad stable".to_string())
    );
    assert_eq!(
        error(request().try_into_coordinator(good, bad, bad, bad).map(|_| ())),
        Some("bad debug".to_string())
    );
    assert_eq!(
        error(request().try_into_coordinator(good, good, bad, bad).map(|_| ())),
        Some("bad 2021".to_string())
    );
    assert_eq!(
        error(request().try_into_coordinator(good, good, good, bad).map(|_| ())),
        Some("bad bin".to_string())
    );
    assert_eq!(error(request().try_into_coordinator(good, good, good, good).map(|_| ())), None);
}

#[test]
fn unreadable_request_does_not_begin() {
    match Execution::start::<u8>(Err("bad stable".to_string()), meta()) {
        Err(ExecuteError::BadRequest { inner }) => assert_eq!(inner, "bad stable"),
        _ => panic!("began"),
    }
}

#[test]
fn execution_is_told_in_order() {
    let told = run(
        &mut started(),
        vec![
            ExecuteEvent::Began(Ok(())),
            ExecuteEvent::Sent(true),
            out("a"),
            ExecuteEvent::Sent(true),
            err("b"),
            ExecuteEvent::Sent(true),
            ExecuteEvent::Status(Ok(true)),
            out("c"),
            ExecuteEvent::Sent(true),
            ExecuteEvent::Drained,
            err("d"),
            ExecuteEvent::Sent(true),
            ExecuteEvent::Drained,
            ExecuteEvent::Sent(true),
        ],
    );
    assert_eq!(
        told,
        [
            "begin 7",
            "select",
            "out a 7",
            "select",
            "err b 7",
            "select",
            "poll stdout",
            "out c 7",
            "poll stdout",
            "poll stderr",
            "err d 7",
            "poll stderr",
            "end true 7",
            "finish",
        ]
    );
}

#[test]
fn failed_program_is_told_too() {
    let told = run(
        &mut started(),
        vec![
            ExecuteEvent::Began(Ok(())),
            ExecuteEvent::Sent(true),
            ExecuteEvent::Status(Ok(false)),
            ExecuteEvent::Drained,
            ExecuteEvent::Drained,
        ],
    );
    assert_eq!(told.last().unwrap(), "end false 7");
}

#[test]
fn coordinator_that_does_not_begin_fails_the_execution() {
    let mut execution = started();
    match execution.step(ExecuteEvent::Began(Err("no docker".to_string()))) {
        Some(ExecuteWait::Finish(Err(ExecuteError::Begin { source }))) => {
            assert_eq!(source, "no docker")
        }
        other => panic!("{other:?}"),
    }
    assert!(execution.step(ExecuteEvent::Sent(true)).is_none());
}

#[test]
fn unknown_end_fails_the_execution_after_the_output() {
    let mut execution = started();
    let told = run(
        &mut execution,
        vec![
            ExecuteEvent::Began(Ok(())),
            ExecuteEvent::Sent(true),
            ExecuteEvent::Status(Err("lost".to_string())),
            out("late"),
            ExecuteEvent::Sent(true),
            ExecuteEvent::Drained,
        ],
    );
    assert_eq!(told[3], "out late 7");
    match execution.step(ExecuteEvent::Drained) {
        Some(ExecuteWait::Finish(Err(ExecuteError::End { source }))) => assert_eq!(source, "lost"),
        other => panic!("{other:?}"),
    }
}

#[test]
fn execution_ends_quietly_when_the_client_has_gone() {
    let to_streaming = || vec![ExecuteEvent::Began(Ok(())), ExecuteEvent::Sent(true)];
    let to_draining = || {
        let mut events = to_streaming();
        events.push(ExecuteEvent::Status(Ok(true)));
        events
    };
    let mut to_stderr = to_draining();
    to_stderr.push(ExecuteEvent::Drained);
    let mut to_ending = to_draining();
    to_ending.push(ExecuteEvent::Drained);
    to_ending.push(ExecuteEvent::Drained);
    let mut forwarding = to_streaming();
    forwarding.push(out("x"));
    let mut draining = to_draining();
    draining.push(out("x"));
    to_stderr.push(err("x"));
    for events in
        [vec![ExecuteEvent::Began(Ok(()))], forwarding, draining, to_stderr, to_ending]
    {
        let mut execution = started();
        run(&mut execution, events);
        assert_eq!(describe(execution.step(ExecuteEvent::Sent(false))), "finish");
        assert_eq!(describe(execution.step(out("y"))), "none");
        assert_eq!(describe(execution.step(ExecuteEvent::Sent(true))), "none");
    }
}

#[test]
fn event_that_answers_nothing_changes_nothing() {
    let mut execution = started();
    assert_eq!(describe(execution.step(ExecuteEvent::Sent(true))), "none");
    assert_eq!(describe(execution.step(ExecuteEvent::Sent(false))), "none");
    assert_eq!(describe(execution.step(out("x"))), "none");
    assert_eq!(describe(execution.step(ExecuteEvent::Began(Ok(())))), "begin 7");
    assert_eq!(describe(execution.step(ExecuteEvent::Status(Ok(true)))), "none");
    assert_eq!(describe(execution.step(ExecuteEvent::Sent(true))), "select");
    assert_eq!(describe(execution.step(ExecuteEvent::Drained)), "none");
    assert_eq!(describe(execution.step(ExecuteEvent::Status(Ok(true)))), "poll stdout");
    assert_eq!(describe(execution.step(err("x"))), "none");
}
