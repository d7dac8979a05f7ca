//! What holds of every execution, whatever happens in it: what it waits for is told
//! from what it has waited for and what has happened so far.

use crate::error::ExecuteError;
use crate::execute::{ExecuteEvent, ExecuteStage, ExecuteWait, ExecuteWaitView, ExecutionView};
use crate::message::{MessageResponse, MessageView};
use vstd::prelude::*;

verus! {

/// Where an execution stands, and all that it has waited for on the way.
pub struct ExecutionTrace {
    pub state: ExecutionView,
    pub waits: Seq<ExecuteWaitView>,
}

/// The course of an execution through `events`. `None` where an event does not
/// answer what was waited for.
pub open spec fn execution_run(meta: serde_json::Value, events: Seq<ExecuteEvent>) -> Option<
    ExecutionTrace,
>
    decreases events.len(),
{
    if events.len() == 0 {
        Some(ExecutionTrace { state: ExecutionView::initial(meta), waits: seq![] })
    } else {
        match execution_run(meta, events.drop_last()) {
            Some(trace) => match trace.state.after(events.last()) {
                Some((stage, wait)) => Some(
                    ExecutionTrace {
                        state: ExecutionView { stage, ..trace.state },
                        waits: trace.waits.push(wait),
                    },
                ),
                None => None,
            },
            None => None,
        }
    }
}

/// The messages that were sent, in order.
pub open spec fn messages(waits: Seq<ExecuteWaitView>) -> Seq<MessageView>
    decreases waits.len(),
{
    if waits.len() == 0 {
        seq![]
    } else {
        match waits.last() {
            ExecuteWaitView::Send(message) => messages(waits.drop_last()).push(message),
            _ => messages(waits.drop_last()),
        }
    }
}

/// The pieces of output that the program has given, in order, each as a message.
pub open spec fn output(meta: serde_json::Value, events: Seq<ExecuteEvent>) -> Seq<MessageView>
    decreases events.len(),
{
    if events.len() == 0 {
        seq![]
    } else {
        match events.last() {
            ExecuteEvent::Stdout(chunk) => output(meta, events.drop_last()).push(
                MessageView::ExecuteStdout { payload: chunk@, meta },
            ),
            ExecuteEvent::Stderr(chunk) => output(meta, events.drop_last()).push(
                MessageView::ExecuteStderr { payload: chunk@, meta },
            ),
            _ => output(meta, events.drop_last()),
        }
    }
}

/// What was reported of the program's end.
pub open spec fn reported_status(events: Seq<ExecuteEvent>) -> Option<Result<bool, String>>
    decreases events.len(),
{
    if events.len() == 0 {
        None
    } else {
        match events.last() {
            ExecuteEvent::Status(status) => Some(status),
            _ => reported_status(events.drop_last()),
        }
    }
}

/// How many of the two streams were found to be exhausted.
pub open spec fn exhausted(events: Seq<ExecuteEvent>) -> nat
    decreases events.len(),
{
    if events.len() == 0 {
        0
    } else {
        exhausted(events.drop_last()) + if events.last() is Drained {
            1nat
        } else {
            0
        }
    }
}

/// Whether an event says that the coordinator has begun.
pub open spec fn has_begun(event: ExecuteEvent) -> bool {
    event matches ExecuteEvent::Began(Ok(_))
}

/// That the execution has begun, as a message, once it has.
pub open spec fn opening(meta: serde_json::Value, events: Seq<ExecuteEvent>) -> Seq<MessageView> {
    if events.len() > 0 && has_begun(events[0]) {
        seq![MessageView::ExecuteBegin { meta }]
    } else {
        seq![]
    }
}

/// How the program has ended, as a message, once that is known and both streams
/// are exhausted.
pub open spec fn closing(meta: serde_json::Value, events: Seq<ExecuteEvent>) -> Seq<MessageView> {
    match reported_status(events) {
        Some(Ok(success)) => if exhausted(events) == 2 {
            seq![MessageView::ExecuteEnd { success, meta }]
        } else {
            seq![]
        },
        _ => seq![],
    }
}

/// What the stage says about the events that led to it.
spec fn explained(stage: ExecuteStage, events: Seq<ExecuteEvent>) -> bool {
    &&& events.len() == 0 <==> stage is Beginning
    &&& events.len() > 0 ==> events[0] is Began
    &&& events.len() > 0 && !(stage is Finished) ==> has_begun(events[0])
    &&& match stage {
        ExecuteStage::Beginning => reported_status(events) is None && exhausted(events) == 0,
        ExecuteStage::Announcing => reported_status(events) is None && exhausted(events) == 0,
        ExecuteStage::Streaming => reported_status(events) is None && exhausted(events) == 0,
        ExecuteStage::Forwarding => reported_status(events) is None && exhausted(events) == 0,
        ExecuteStage::DrainingStdout { status } => {
            reported_status(events) == Some(status) && exhausted(events) == 0
        },
        ExecuteStage::ForwardingStdout { status } => {
            reported_status(events) == Some(status) && exhausted(events) == 0
        },
        ExecuteStage::DrainingStderr { status } => {
            reported_status(events) == Some(status) && exhausted(events) == 1
        },
        ExecuteStage::ForwardingStderr { status } => {
            reported_status(events) == Some(status) && exhausted(events) == 1
        },
        ExecuteStage::Ending => {
            exhausted(events) == 2 && reported_status(events) matches Some(Ok(_))
        },
        ExecuteStage::Finished => true,
    }
}

proof fn lemma_explained(meta: serde_json::Value, events: Seq<ExecuteEvent>)
    requires
        execution_run(meta, events) is Some,
    ensures
        execution_run(meta, events)->Some_0.state.meta == meta,
        explained(execution_run(meta, events)->Some_0.state.stage, events),
        messages(execution_run(meta, events)->Some_0.waits) == opening(meta, events) + output(
            meta,
            events,
        ) + closing(meta, events),
    decreases events.len(),
{
    if events.len() > 0 {
        let before = events.drop_last();
        lemma_explained(meta, before);
        let ExecutionTrace { state, waits } = execution_run(meta, before)->Some_0;
        let (stage, wait) = state.after(events.last())->Some_0;
        assert(waits.push(wait).drop_last() =~= waits);
        if before.len() > 0 {
            assert(events[0] == before[0]);
        }
        assert(waits.push(wait).last() == wait);
        match wait {
            ExecuteWaitView::Send(message) => {
                // One more message: the first, the last or a piece of output.
                assert(closing(meta, before) =~= seq![]);
                assert(opening(meta, events) + output(meta, events) + closing(meta, events)
                    =~= messages(waits).push(message));
            },
            _ => {
                assert(opening(meta, events) =~= opening(meta, before));
                assert(closing(meta, events) =~= closing(meta, before));
            },
        }
    } else {
        assert(messages(seq![]) =~= opening(meta, events) + output(meta, events) + closing(
            meta,
            events,
        ));
    }
}

/// The client is told that the execution has begun, then gets every piece of
/// output, unchanged and in the order in which it came, and then, once both
/// streams are exhausted, how the program ended. Nothing else is sent.
pub proof fn law_execution_is_told_in_order(meta: serde_json::Value, events: Seq<ExecuteEvent>)
    requires
        execution_run(meta, events) is Some,
    ensures
        messages(execution_run(meta, events)->Some_0.waits) == opening(meta, events) + output(
            meta,
            events,
        ) + closing(meta, events),
{
    lemma_explained(meta, events);
}

/// Every message about an execution carries the metadata of its request.
pub proof fn law_messages_carry_the_request_meta(
    meta: serde_json::Value,
    events: Seq<ExecuteEvent>,
    i: int,
)
    requires
        execution_run(meta, events) is Some,
        0 <= i < messages(execution_run(meta, events)->Some_0.waits).len(),
    ensures
        messages(execution_run(meta, events)->Some_0.waits)[i].meta() == meta,
{
    lemma_explained(meta, events);
    lemma_output_meta(meta, events);
}

proof fn lemma_output_meta(meta: serde_json::Value, events: Seq<ExecuteEvent>)
    ensures
        forall|i: int|
            0 <= i < output(meta, events).len() ==> (#[trigger] output(meta, events)[i]).meta()
                == meta,
    decreases events.len(),
{
    if events.len() > 0 {
        let before = output(meta, events.drop_last());
        lemma_output_meta(meta, events.drop_last());
        assert forall|i: int| 0 <= i < output(meta, events).len() implies (#[trigger] output(
            meta,
            events,
        )[i]).meta() == meta by {
            if i < before.len() {
                assert(output(meta, events)[i] == before[i]);
            }
        }
    }
}

/// When a message finds nobody to take it, the execution ends without an error.
pub proof fn law_execution_ends_when_the_client_has_gone(state: ExecutionView)
    requires
        crate::execute::sends(state.stage),
    ensures
        state.after(ExecuteEvent::Sent(false)) == Some(
            (ExecuteStage::Finished, ExecuteWaitView::Finish(Ok(()))),
        ),
{
}

/// After its end nothing happens to an execution.
pub proof fn law_finished_execution_stays_finished(state: ExecutionView, event: ExecuteEvent)
    requires
        state.stage is Finished,
    ensures
        state.after(event) is None,
{
}

/// An execution that was begun fails for two reasons only: the coordinator did
/// not begin, or it could not tell how the program ended. In the second case all
/// output was forwarded first.
pub proof fn law_execution_fails_only_with_the_coordinator(
    meta: serde_json::Value,
    events: Seq<ExecuteEvent>,
)
    requires
        execution_run(meta, events) is Some,
        events.len() > 0,
        execution_run(meta, events)->Some_0.waits.last() matches ExecuteWaitView::Finish(Err(_)),
    ensures
        match execution_run(meta, events)->Some_0.waits.last() {
            ExecuteWaitView::Finish(Err(ExecuteError::Begin { source })) => events == seq![
                ExecuteEvent::Began(Err(source)),
            ],
            ExecuteWaitView::Finish(Err(ExecuteError::End { source })) => {
                &&& reported_status(events) == Some(Err::<bool, String>(source))
                &&& exhausted(events) == 2
                &&& messages(execution_run(meta, events)->Some_0.waits) == opening(meta, events)
                    + output(meta, events)
            },
            _ => false,
        },
{
    let before = events.drop_last();
    lemma_explained(meta, before);
    lemma_explained(meta, events);
    let ExecutionTrace { state, waits } = execution_run(meta, before)->Some_0;
    let (stage, wait) = state.after(events.last())->Some_0;
    assert(waits.push(wait).last() == wait);
    if state.stage is Beginning {
        assert(events =~= seq![events.last()]);
    }
    assert(opening(meta, events) + output(meta, events) + seq![] =~= opening(meta, events)
        + output(meta, events));
}

// What is waited for.

/// What the stage says about what is waited for.
spec fn awaits(stage: ExecuteStage, wait: ExecuteWaitView) -> bool {
    match stage {
        ExecuteStage::Beginning => false,
        ExecuteStage::Announcing => wait matches ExecuteWaitView::Send(
            MessageView::ExecuteBegin { .. },
        ),
        ExecuteStage::Streaming => wait is Select,
        ExecuteStage::Forwarding => is_output(wait),
        ExecuteStage::DrainingStdout { .. } => wait is PollStdout,
        ExecuteStage::ForwardingStdout { .. } => is_output(wait),
        ExecuteStage::DrainingStderr { .. } => wait is PollStderr,
        ExecuteStage::ForwardingStderr { .. } => is_output(wait),
        ExecuteStage::Ending => wait matches ExecuteWaitView::Send(MessageView::ExecuteEnd { .. }),
        ExecuteStage::Finished => wait is Finish,
    }
}

spec fn is_output(wait: ExecuteWaitView) -> bool {
    ||| wait matches ExecuteWaitView::Send(MessageView::ExecuteStdout { .. })
    ||| wait matches ExecuteWaitView::Send(MessageView::ExecuteStderr { .. })
}

proof fn lemma_awaits(meta: serde_json::Value, events: Seq<ExecuteEvent>)
    requires
        execution_run(meta, events) is Some,
    ensures
        execution_run(meta, events)->Some_0.waits.len() == events.len(),
        events.len() > 0 ==> awaits(
            execution_run(meta, events)->Some_0.state.stage,
            execution_run(meta, events)->Some_0.waits.last(),
        ),
    decreases events.len(),
{
    if events.len() > 0 {
        lemma_awaits(meta, events.drop_last());
    }
}

/// An execution takes every event that answers what it waits for, and no other: first
/// whether the coordinator has begun; whether a message was handed over; a piece of
/// output or the end of the program while it runs; and a piece of output or that
/// there is none when a stream is asked about. Once it is over it takes nothing.
pub proof fn law_execution_takes_what_answers(
    meta: serde_json::Value,
    events: Seq<ExecuteEvent>,
    event: ExecuteEvent,
)
    requires
        execution_run(meta, events) is Some,
    ensures
        execution_run(meta, events.push(event)) is Some <==> if events.len() == 0 {
            event is Began
        } else {
            match execution_run(meta, events)->Some_0.waits.last() {
                ExecuteWaitView::Send(_) => event is Sent,
                ExecuteWaitView::Select => event is Stdout || event is Stderr || event is Status,
                ExecuteWaitView::PollStdout => event is Stdout || event is Drained,
                ExecuteWaitView::PollStderr => event is Stderr || event is Drained,
                ExecuteWaitView::Finish(_) => false,
            }
        },
{
    lemma_explained(meta, events);
    lemma_awaits(meta, events);
    assert(events.push(event).drop_last() =~= events);
}

/// The last of what was waited for, over one more event.
proof fn lemma_one_more(meta: serde_json::Value, events: Seq<ExecuteEvent>, event: ExecuteEvent)
    requires
        execution_run(meta, events.push(event)) is Some,
    ensures
        execution_run(meta, events) is Some,
        match execution_run(meta, events)->Some_0.state.after(event) {
            Some((_, wait)) => execution_run(meta, events.push(event))->Some_0.waits.last() == wait,
            None => false,
        },
{
    assert(events.push(event).drop_last() =~= events);
}

/// The client is told that the execution has begun as soon as it has; if the
/// coordinator does not begin the execution fails with its account.
pub proof fn law_beginning_is_announced(
    meta: serde_json::Value,
    events: Seq<ExecuteEvent>,
    result: Result<(), String>,
)
    requires
        execution_run(meta, events.push(ExecuteEvent::Began(result))) is Some,
    ensures
        execution_run(meta, events.push(ExecuteEvent::Began(result)))->Some_0.waits.last()
            == match result {
            Ok(_) => ExecuteWaitView::Send(MessageView::ExecuteBegin { meta }),
            Err(source) => ExecuteWaitView::Finish(Err(ExecuteError::Begin { source })),
        },
{
    lemma_one_more(meta, events, ExecuteEvent::Began(result));
    lemma_explained(meta, events);
}

/// A piece of output is passed on as soon as it comes, as it is and under the name of
/// its stream.
pub proof fn law_output_is_passed_on_at_once(
    meta: serde_json::Value,
    events: Seq<ExecuteEvent>,
    chunk: String,
)
    ensures
        execution_run(meta, events.push(ExecuteEvent::Stdout(chunk))) matches Some(trace)
            ==> trace.waits.last() == ExecuteWaitView::Send(
            MessageView::ExecuteStdout { payload: chunk@, meta },
        ),
        execution_run(meta, events.push(ExecuteEvent::Stderr(chunk))) matches Some(trace)
            ==> trace.waits.last() == ExecuteWaitView::Send(
            MessageView::ExecuteStderr { payload: chunk@, meta },
        ),
{
    if execution_run(meta, events.push(ExecuteEvent::Stdout(chunk))) is Some {
        lemma_one_more(meta, events, ExecuteEvent::Stdout(chunk));
        lemma_explained(meta, events);
    }
    if execution_run(meta, events.push(ExecuteEvent::Stderr(chunk))) is Some {
        lemma_one_more(meta, events, ExecuteEvent::Stderr(chunk));
        lemma_explained(meta, events);
    }
}

/// When the program has ended its standard output is asked for what is left, however
/// it has ended; when nothing is left there, its standard error is; and when nothing
/// is left there either, the client is told how the program ended, or the execution
/// fails with the account of why that is not known.
pub proof fn law_streams_are_drained_in_turn(
    meta: serde_json::Value,
    events: Seq<ExecuteEvent>,
    status: Result<bool, String>,
)
    ensures
        execution_run(meta, events.push(ExecuteEvent::Status(status))) matches Some(trace)
            ==> trace.waits.last() is PollStdout,
        execution_run(meta, events.push(ExecuteEvent::Drained)) matches Some(trace)
            ==> if exhausted(events) == 0 {
            trace.waits.last() is PollStderr
        } else {
            &&& exhausted(events) == 1
            &&& match reported_status(events) {
                Some(Ok(success)) => trace.waits.last() == ExecuteWaitView::Send(
                    MessageView::ExecuteEnd { success, meta },
                ),
                Some(Err(source)) => trace.waits.last() == ExecuteWaitView::Finish(
                    Err(ExecuteError::End { source }),
                ),
                None => false,
            }
        },
{
    if execution_run(meta, events.push(ExecuteEvent::Status(status))) is Some {
        lemma_one_more(meta, events, ExecuteEvent::Status(status));
    }
    if execution_run(meta, events.push(ExecuteEvent::Drained)) is Some {
        lemma_one_more(meta, events, ExecuteEvent::Drained);
        lemma_explained(meta, events);
    }
}

/// When a message was handed over the execution goes on where it was: it waits for the
/// program while that runs, and asks the stream that is not exhausted yet once it has
/// ended. Only when the message was that of the program's end is the execution over.
pub proof fn law_execution_goes_on_after_a_message(
    meta: serde_json::Value,
    events: Seq<ExecuteEvent>,
)
    requires
        execution_run(meta, events.push(ExecuteEvent::Sent(true))) is Some,
    ensures
        ({
            let next = execution_run(meta, events.push(ExecuteEvent::Sent(true)))->Some_0
                .waits.last();
            match messages(execution_run(meta, events)->Some_0.waits).last() {
                MessageView::ExecuteEnd { .. } => next == ExecuteWaitView::Finish(Ok(())),
                _ => if reported_status(events) is None {
                    next is Select
                } else if exhausted(events) == 0 {
                    next is PollStdout
                } else {
                    exhausted(events) == 1 && next is PollStderr
                },
            }
        }),
{
    lemma_one_more(meta, events, ExecuteEvent::Sent(true));
    lemma_explained(meta, events);
    lemma_awaits(meta, events);
    let waits = execution_run(meta, events)->Some_0.waits;
    assert(messages(waits).last() == waits.last()->Send_0);
}

/// When there is nobody left to take a message the execution is over, without an
/// error, whichever message it was.
pub proof fn law_execution_is_over_when_nobody_listens(
    meta: serde_json::Value,
    events: Seq<ExecuteEvent>,
)
    requires
        execution_run(meta, events.push(ExecuteEvent::Sent(false))) is Some,
    ensures
        execution_run(meta, events.push(ExecuteEvent::Sent(false)))->Some_0.waits.last()
            == ExecuteWaitView::Finish(Ok(())),
{
    lemma_one_more(meta, events, ExecuteEvent::Sent(false));
}

/// As long as every message is taken, an execution that was begun ends well only after
/// the program's end was reported, both streams were exhausted and the client was
/// told, last of all, how the program ended.
pub proof fn law_execution_ends_well_only_when_all_was_told(
    meta: serde_json::Value,
    events: Seq<ExecuteEvent>,
)
    requires
        execution_run(meta, events) is Some,
        events.len() > 0,
        execution_run(meta, events)->Some_0.waits.last() == ExecuteWaitView::Finish(Ok(())),
        forall|i: int| 0 <= i < events.len() ==> events[i] != ExecuteEvent::Sent(false),
    ensures
        exhausted(events) == 2,
        match reported_status(events) {
            Some(Ok(success)) => {
                let told = messages(execution_run(meta, events)->Some_0.waits);
                told.len() > 0 && told.last() == (MessageView::ExecuteEnd { success, meta })
            },
            _ => false,
        },
{
    let before = events.drop_last();
    assert(events[events.len() - 1] == events.last());
    lemma_explained(meta, before);
    lemma_explained(meta, events);
    lemma_awaits(meta, before);
    let ExecutionTrace { state, waits } = execution_run(meta, before)->Some_0;
    let (stage, wait) = state.after(events.last())->Some_0;
    assert(waits.push(wait).last() == wait);
    assert(state.stage is Ending);
    assert(closing(meta, events).len() > 0);
}

/// What is waited for is shown as it is.
pub proof fn law_execute_waits_are_shown_as_they_are(
    message: MessageResponse,
    result: Result<(), ExecuteError>,
)
    ensures
        (ExecuteWait::Send(message))@ == ExecuteWaitView::Send(message@),
        (ExecuteWait::Select)@ == ExecuteWaitView::Select,
        (ExecuteWait::PollStdout)@ == ExecuteWaitView::PollStdout,
        (ExecuteWait::PollStderr)@ == ExecuteWaitView::PollStderr,
        (ExecuteWait::Finish(result))@ == ExecuteWaitView::Finish(result),
{
}

// The choices of a request.

/// A choice is read as its parser reads its text: where the parser has but one answer
/// to a text, that is the answer.
pub proof fn law_choice_is_read_as_its_parser_says<F: Fn(&str) -> Result<T, E>, T, E>(
    parser: F,
    text: Seq<char>,
    answer: Result<T, E>,
    result: Result<T, E>,
)
    requires
        crate::execute::parses(parser, text, result),
        forall|s: &str, other: Result<T, E>|
            s@ == text && #[trigger] parser.ensures((s,), other) ==> other == answer,
    ensures
        result == answer,
{
}

/// A parser can be asked about any text exactly if it can be asked about each.
pub proof fn law_parser_is_asked_about_any_text<F: Fn(&str) -> Result<T, E>, T, E>(
    parser: F,
    text: &str,
)
    ensures
        crate::execute::reads_all(parser) ==> parser.requires((text,)),
        (forall|s: &str| #[trigger] parser.requires((s,))) ==> crate::execute::reads_all(parser),
{
}

} // verus!
