//! What holds of every message.

use crate::json::Meta;
use crate::message::{
    ExecuteResponse, FeatureFlags, MessageResponse, MessageView, WSError, LAST_CHANCE_ERROR,
};
use vstd::prelude::*;

verus! {

/// Messages of different kinds are labelled differently.
pub proof fn law_types_tell_messages_apart(a: MessageView, b: MessageView)
    requires
        a.tag() == b.tag(),
    ensures
        a is Error <==> b is Error,
        a is FeatureFlags <==> b is FeatureFlags,
        a is ExecuteBegin <==> b is ExecuteBegin,
        a is ExecuteStdout <==> b is ExecuteStdout,
        a is ExecuteStderr <==> b is ExecuteStderr,
        a is ExecuteEnd <==> b is ExecuteEnd,
{
    reveal_strlit("websocket/error");
    reveal_strlit("featureFlags");
    reveal_strlit("output/execute/wsExecuteBegin");
    reveal_strlit("output/execute/wsExecuteStdout");
    reveal_strlit("output/execute/wsExecuteStderr");
    reveal_strlit("output/execute/wsExecuteEnd");
    assert("websocket/error"@.len() == 15);
    assert("featureFlags"@.len() == 12);
    assert("output/execute/wsExecuteBegin"@.len() == 29);
    assert("output/execute/wsExecuteStdout"@.len() == 30);
    assert("output/execute/wsExecuteStderr"@.len() == 30);
    assert("output/execute/wsExecuteEnd"@.len() == 27);
    assert("output/execute/wsExecuteStdout"@[27] != "output/execute/wsExecuteStderr"@[27]);
}

/// The value of a hexadecimal digit.
pub open spec fn hex_value(c: char) -> Option<int> {
    if '0' <= c <= '9' {
        Some(c as int - '0' as int)
    } else if 'a' <= c <= 'f' {
        Some(c as int - 'a' as int + 10)
    } else if 'A' <= c <= 'F' {
        Some(c as int - 'A' as int + 10)
    } else {
        None
    }
}

/// The character that a backslash and `c` stand for in a JSON string.
pub open spec fn short_escape(c: char) -> Option<char> {
    if c == '"' || c == '\\' || c == '/' {
        Some(c)
    } else if c == 'b' {
        Some(8int as char)
    } else if c == 't' {
        Some(9int as char)
    } else if c == 'n' {
        Some(10int as char)
    } else if c == 'f' {
        Some(12int as char)
    } else if c == 'r' {
        Some(13int as char)
    } else {
        None
    }
}

/// A text that was read, and what comes after it.
pub struct ReadText {
    pub text: Seq<char>,
    pub rest: Seq<char>,
}

/// `first`, and then what was read after it.
pub open spec fn after_char(first: char, read: Option<ReadText>) -> Option<ReadText> {
    match read {
        Some(ReadText { text, rest }) => Some(ReadText { text: seq![first] + text, rest }),
        None => None,
    }
}

/// Reads a JSON string whose opening quote has been read, up to its closing quote.
/// `None` if there is no such string. An escape by number is read where it stands
/// for a character of the first 256; JSON knows more of them.
pub open spec fn read_string(text: Seq<char>) -> Option<ReadText>
    decreases text.len(),
{
    if text.len() == 0 {
        None
    } else if text[0] == '"' {
        Some(ReadText { text: seq![], rest: text.skip(1) })
    } else if text[0] == '\\' {
        if text.len() >= 2 && short_escape(text[1]) is Some {
            after_char(short_escape(text[1])->Some_0, read_string(text.skip(2)))
        } else if text.len() >= 6 && text[1] == 'u' && text[2] == '0' && text[3] == '0'
            && hex_value(text[4]) is Some && hex_value(text[5]) is Some {
            after_char(
                (hex_value(text[4])->Some_0 * 16 + hex_value(text[5])->Some_0) as char,
                read_string(text.skip(6)),
            )
        } else {
            None
        }
    } else if (text[0] as int) < 32 {
        None
    } else {
        after_char(text[0], read_string(text.skip(1)))
    }
}

/// A JSON string reads as the text that it was written for.
pub proof fn law_quoted_text_reads_back(text: Seq<char>, rest: Seq<char>)
    ensures
        read_string((crate::json::quoted(text) + rest).skip(1)) == Some(ReadText { text, rest }),
{
    lemma_escaped_text_reads_back(text, rest);
    assert((crate::json::quoted(text) + rest).skip(1) =~= crate::json::escaped(text) + seq!['"']
        + rest);
}

proof fn lemma_hex_digit_reads_back(n: int)
    requires
        0 <= n < 16,
    ensures
        hex_value(crate::json::hex_digit(n)) == Some(n),
{
}

proof fn lemma_escape_reads_back(c: char, tail: Seq<char>)
    ensures
        read_string(crate::json::escape(c) + tail) == after_char(c, read_string(tail)),
{
    let escape = crate::json::escape(c);
    let written = escape + tail;
    let n = c as int;
    assert(written.skip(escape.len() as int) =~= tail);
    assert(written[0] == escape[0]);
    if c == '"' || c == '\\' || n == 8 || n == 9 || n == 10 || n == 12 || n == 13 {
        assert(written[1] == escape[1]);
        assert(short_escape(written[1]) == Some(c));
    } else if n < 32 {
        lemma_hex_digit_reads_back(n / 16);
        lemma_hex_digit_reads_back(n % 16);
        assert(written[1] == 'u' && written[2] == '0' && written[3] == '0');
        assert(written[4] == crate::json::hex_digit(n / 16));
        assert(written[5] == crate::json::hex_digit(n % 16));
        assert(n / 16 * 16 + n % 16 == n);
    }
}

proof fn lemma_escaped_text_reads_back(text: Seq<char>, rest: Seq<char>)
    ensures
        read_string(crate::json::escaped(text) + seq!['"'] + rest) == Some(ReadText { text, rest }),
    decreases text.len(),
{
    let written = crate::json::escaped(text) + seq!['"'] + rest;
    if text.len() == 0 {
        assert(written.skip(1) =~= rest);
        assert(text =~= seq![]);
    } else {
        let tail = crate::json::escaped(text.skip(1)) + seq!['"'] + rest;
        lemma_escaped_text_reads_back(text.skip(1), rest);
        lemma_escape_reads_back(text[0], tail);
        assert(written =~= crate::json::escape(text[0]) + tail);
        assert(seq![text[0]] + text.skip(1) =~= text);
    }
}

/// A character is written as it is unless JSON asks for an escape: a quote, a
/// backslash and the control characters with a letter of their own take a backslash
/// and one character, the other control characters their number in four digits.
pub proof fn law_only_what_must_be_is_escaped(c: char)
    ensures
        c as int >= 32 && c != '"' && c != '\\' ==> crate::json::escape(c) == seq![c],
        c == '"' || c == '\\' ==> crate::json::escape(c) == seq!['\\', c],
        c as int == 8 ==> crate::json::escape(c) == seq!['\\', 'b'],
        c as int == 9 ==> crate::json::escape(c) == seq!['\\', 't'],
        c as int == 10 ==> crate::json::escape(c) == seq!['\\', 'n'],
        c as int == 12 ==> crate::json::escape(c) == seq!['\\', 'f'],
        c as int == 13 ==> crate::json::escape(c) == seq!['\\', 'r'],
        (c as int) < 8 || c as int == 11 || 14 <= c as int && (c as int) < 32
            ==> crate::json::escape(c) == seq![
            '\\',
            'u',
            '0',
            '0',
            "0123456789abcdef"@[c as int / 16],
            "0123456789abcdef"@[c as int % 16],
        ],
{
    reveal_strlit("0123456789abcdef");
}

/// A text is written character by character, between quotes.
pub proof fn law_text_is_written_character_by_character(c: char, rest: Seq<char>)
    ensures
        crate::json::escaped(Seq::empty()) == Seq::<char>::empty(),
        crate::json::escaped(seq![c] + rest) == crate::json::escape(c) + crate::json::escaped(rest),
        crate::json::quoted(rest) == seq!['"'] + crate::json::escaped(rest) + seq!['"'],
{
    assert((seq![c] + rest).skip(1) =~= rest);
}

/// What is left of `text` after `prefix`.
pub open spec fn strip(prefix: Seq<char>, text: Seq<char>) -> Option<Seq<char>> {
    if prefix.len() <= text.len() && text.take(prefix.len() as int) == prefix {
        Some(text.skip(prefix.len() as int))
    } else {
        None
    }
}

/// A piece of output as it is read from the text of a message, with the metadata
/// as written.
pub struct OutputText {
    pub tag: Seq<char>,
    pub payload: Seq<char>,
    pub meta: Seq<char>,
}

/// The text of a message of type `tag` up to the opening quote of its payload.
pub open spec fn output_head(tag: Seq<char>) -> Seq<char> {
    "{\"type\":\""@ + tag + "\""@ + ",\"payload\":"@ + seq!['"']
}

/// Reads a piece of output of type `tag`: an object of a type, a payload that is a
/// string, and metadata, and nothing else.
pub open spec fn read_output_as(tag: Seq<char>, text: Seq<char>) -> Option<OutputText> {
    match strip(output_head(tag), text) {
        Some(body) => match read_string(body) {
            Some(read) => match strip(",\"meta\":"@, read.rest) {
                Some(tail) => if tail.len() > 0 && tail.last() == '}' {
                    Some(OutputText { tag, payload: read.text, meta: tail.drop_last() })
                } else {
                    None
                },
                None => None,
            },
            None => None,
        },
        None => None,
    }
}

/// Reads a piece of output, of whichever stream.
pub open spec fn read_output(text: Seq<char>) -> Option<OutputText> {
    match read_output_as("output/execute/wsExecuteStdout"@, text) {
        Some(output) => Some(output),
        None => read_output_as("output/execute/wsExecuteStderr"@, text),
    }
}

/// No output is lost on the way to the client: from the text that is sent for a
/// piece of output its type, the piece itself and the text of its metadata can be
/// read back, whatever characters the piece holds and whatever the metadata is.
pub proof fn law_output_survives_encoding(message: MessageView)
    requires
        message is ExecuteStdout || message is ExecuteStderr,
    ensures
        read_output(message.text()) == Some(
            OutputText {
                tag: message.tag(),
                payload: match message {
                    MessageView::ExecuteStdout { payload, .. } => payload,
                    MessageView::ExecuteStderr { payload, .. } => payload,
                    _ => arbitrary(),
                },
                meta: crate::json::json_text(message.meta()),
            },
        ),
{
    let meta = crate::json::json_text(message.meta());
    let payload = match message {
        MessageView::ExecuteStdout { payload, .. } => payload,
        MessageView::ExecuteStderr { payload, .. } => payload,
        _ => arbitrary(),
    };
    let tag = message.tag();
    let text = message.text();
    let last = ",\"meta\":"@ + meta + "}"@;
    let body = crate::json::escaped(payload) + seq!['"'] + last;
    reveal_strlit("}");
    assert(text =~= output_head(tag) + body);
    assert(text.take(output_head(tag).len() as int) =~= output_head(tag));
    assert(text.skip(output_head(tag).len() as int) =~= body);
    lemma_escaped_text_reads_back(payload, last);
    assert(last.take(",\"meta\":"@.len() as int) =~= ",\"meta\":"@);
    assert(last.skip(",\"meta\":"@.len() as int) =~= meta + "}"@);
    assert((meta + "}"@).drop_last() =~= meta);
    if message is ExecuteStderr {
        let other = "output/execute/wsExecuteStdout"@;
        reveal_strlit("{\"type\":\"");
        reveal_strlit("output/execute/wsExecuteStdout");
        reveal_strlit("output/execute/wsExecuteStderr");
        assert(output_head(other)[36] != text[36]);
        assert(output_head(other).len() == output_head(tag).len());
        assert(text.take(output_head(other).len() as int)[36] == text[36]);
    }
}

/// What a message says is all that is in it.
pub proof fn law_messages_are_shown_as_they_are(
    error: WSError,
    flags: FeatureFlags,
    payload: String,
    end: ExecuteResponse,
    meta: Meta,
)
    ensures
        (MessageResponse::Error { payload: error, meta })@ == (MessageView::Error {
            error: error.error@,
            meta: *meta,
        }),
        (MessageResponse::FeatureFlags { payload: flags, meta })@ == (MessageView::FeatureFlags {
            threshold: flags.execute_via_websocket_threshold,
            meta: *meta,
        }),
        (MessageResponse::ExecuteBegin { meta })@ == (MessageView::ExecuteBegin { meta: *meta }),
        (MessageResponse::ExecuteStdout { payload, meta })@ == (MessageView::ExecuteStdout {
            payload: payload@,
            meta: *meta,
        }),
        (MessageResponse::ExecuteStderr { payload, meta })@ == (MessageView::ExecuteStderr {
            payload: payload@,
            meta: *meta,
        }),
        (MessageResponse::ExecuteEnd { payload: end, meta })@ == (MessageView::ExecuteEnd {
            success: end.success,
            meta: *meta,
        }),
{
}

// What is sent for each kind of message.

/// A message is sent as an object that holds its type, its payload and its metadata.
pub proof fn law_frame_holds_the_parts(tag: Seq<char>, payload: Seq<char>, meta: Seq<char>)
    ensures
        crate::message::frame(tag, Some(payload), meta) == "{\"type\":\""@ + tag
            + "\",\"payload\":"@ + payload + ",\"meta\":"@ + meta + "}"@,
        crate::message::frame(tag, None, meta) == "{\"type\":\""@ + tag + "\",\"meta\":"@ + meta
            + "}"@,
{
    reveal_strlit("\"");
    reveal_strlit(",\"payload\":");
    reveal_strlit(",\"meta\":");
    reveal_strlit("\",\"payload\":");
    reveal_strlit("\",\"meta\":");
    assert("\""@ + ",\"payload\":"@ =~= "\",\"payload\":"@);
    assert("\""@ + ",\"meta\":"@ =~= "\",\"meta\":"@);
    assert(crate::message::frame(tag, Some(payload), meta) =~= "{\"type\":\""@ + tag + ("\""@
        + ",\"payload\":"@) + payload + ",\"meta\":"@ + meta + "}"@);
    assert(crate::message::frame(tag, None, meta) =~= "{\"type\":\""@ + tag + ("\""@
        + ",\"meta\":"@) + meta + "}"@);
}

/// Output is sent under the type of its stream, as a JSON string, with the metadata
/// that it came with.
pub proof fn law_output_text(payload: String, meta: Meta)
    ensures
        (MessageResponse::ExecuteStdout { payload, meta })@.text()
            == "{\"type\":\""@ + "output/execute/wsExecuteStdout"@ + "\",\"payload\":"@
            + crate::json::quoted(payload@) + ",\"meta\":"@ + crate::json::json_text(*meta) + "}"@,
        (MessageResponse::ExecuteStderr { payload, meta })@.text()
            == "{\"type\":\""@ + "output/execute/wsExecuteStderr"@ + "\",\"payload\":"@
            + crate::json::quoted(payload@) + ",\"meta\":"@ + crate::json::json_text(*meta) + "}"@,
{
    let text = crate::json::quoted(payload@);
    let end = crate::json::json_text((MessageResponse::ExecuteBegin { meta })@.meta());
    law_frame_holds_the_parts("output/execute/wsExecuteStdout"@, text, end);
    law_frame_holds_the_parts("output/execute/wsExecuteStderr"@, text, end);
}

/// Output reads back, from what is sent for it, as what it was: its stream, the piece
/// itself and the text of its metadata.
pub proof fn law_output_reads_as_it_was(payload: String, meta: Meta)
    ensures
        read_output((MessageResponse::ExecuteStdout { payload, meta })@.text()) == Some(
            OutputText {
                tag: "output/execute/wsExecuteStdout"@,
                payload: payload@,
                meta: crate::json::json_text(*meta),
            },
        ),
        read_output((MessageResponse::ExecuteStderr { payload, meta })@.text()) == Some(
            OutputText {
                tag: "output/execute/wsExecuteStderr"@,
                payload: payload@,
                meta: crate::json::json_text(*meta),
            },
        ),
{
    law_output_survives_encoding((MessageResponse::ExecuteStdout { payload, meta })@);
    law_output_survives_encoding((MessageResponse::ExecuteStderr { payload, meta })@);
}

/// That an execution has begun is sent with the metadata alone; how it ended is sent
/// as whether it succeeded.
pub proof fn law_execution_text(success: bool, meta: Meta)
    ensures
        (MessageResponse::ExecuteBegin { meta })@.text() == "{\"type\":\""@
            + "output/execute/wsExecuteBegin"@ + "\",\"meta\":"@ + crate::json::json_text(*meta)
            + "}"@,
        (MessageResponse::ExecuteEnd { payload: ExecuteResponse { success }, meta })@.text()
            == "{\"type\":\""@ + "output/execute/wsExecuteEnd"@ + "\",\"payload\":"@ + (if success {
            "{\"success\":true}"@
        } else {
            "{\"success\":false}"@
        }) + ",\"meta\":"@ + crate::json::json_text(*meta) + "}"@,
{
    let end = crate::json::json_text((MessageResponse::ExecuteBegin { meta })@.meta());
    reveal_strlit("{\"");
    reveal_strlit("\":");
    reveal_strlit("}");
    reveal_strlit("success");
    reveal_strlit("true");
    reveal_strlit("false");
    reveal_strlit("{\"success\":true}");
    reveal_strlit("{\"success\":false}");
    assert(crate::message::single("success"@, "true"@) =~= "{\"success\":true}"@);
    assert(crate::message::single("success"@, "false"@) =~= "{\"success\":false}"@);
    law_frame_holds_the_parts("output/execute/wsExecuteBegin"@, end, end);
    law_frame_holds_the_parts("output/execute/wsExecuteEnd"@, "{\"success\":true}"@, end);
    law_frame_holds_the_parts("output/execute/wsExecuteEnd"@, "{\"success\":false}"@, end);
}

/// An error is sent as its wording.
pub proof fn law_error_text(error: String, meta: Meta)
    ensures
        (MessageResponse::Error { payload: WSError { error }, meta })@.text() == "{\"type\":\""@
            + "websocket/error"@ + "\",\"payload\":"@ + ("{\"error\":"@ + crate::json::quoted(
            error@,
        ) + "}"@) + ",\"meta\":"@ + crate::json::json_text(*meta) + "}"@,
{
    let text = crate::json::quoted(error@);
    reveal_strlit("{\"");
    reveal_strlit("\":");
    reveal_strlit("error");
    reveal_strlit("{\"error\":");
    assert("{\""@ + "error"@ + "\":"@ =~= "{\"error\":"@);
    assert(crate::message::single("error"@, text) =~= "{\"error\":"@ + text + "}"@);
    law_frame_holds_the_parts(
        "websocket/error"@,
        "{\"error\":"@ + text + "}"@,
        crate::json::json_text((MessageResponse::ExecuteBegin { meta })@.meta()),
    );
}

/// The feature flags are sent as the threshold, or `null` where there is none.
pub proof fn law_feature_flags_text(threshold: Option<serde_json::Value>, meta: Meta)
    ensures
        (MessageResponse::FeatureFlags {
            payload: FeatureFlags { execute_via_websocket_threshold: threshold },
            meta,
        })@.text() == "{\"type\":\""@ + "featureFlags"@ + "\",\"payload\":"@ + (
        "{\"executeViaWebsocketThreshold\":"@ + (match threshold {
            Some(value) => crate::json::json_text(value),
            None => "null"@,
        }) + "}"@) + ",\"meta\":"@ + crate::json::json_text(*meta) + "}"@,
{
    let text = match threshold {
        Some(value) => crate::json::json_text(value),
        None => "null"@,
    };
    reveal_strlit("{\"");
    reveal_strlit("\":");
    reveal_strlit("executeViaWebsocketThreshold");
    reveal_strlit("{\"executeViaWebsocketThreshold\":");
    assert("{\""@ + "executeViaWebsocketThreshold"@ + "\":"@
        =~= "{\"executeViaWebsocketThreshold\":"@);
    assert(crate::message::single("executeViaWebsocketThreshold"@, text)
        =~= "{\"executeViaWebsocketThreshold\":"@ + text + "}"@);
    law_frame_holds_the_parts(
        "featureFlags"@,
        "{\"executeViaWebsocketThreshold\":"@ + text + "}"@,
        crate::json::json_text((MessageResponse::ExecuteBegin { meta })@.meta()),
    );
}

/// What was written is sent, and the last chance only where nothing was.
pub proof fn law_last_chance_is_the_last(text: Seq<char>)
    ensures
        crate::message::text_or_last_chance(Some(text)) == text,
        crate::message::text_or_last_chance(None) == LAST_CHANCE_ERROR@,
        LAST_CHANCE_ERROR@
            == "{ \"type\": \"WEBSOCKET_ERROR\", \"error\": \"Unable to serialize JSON\" }"@,
{
}

} // verus!
