//! The messages of the protocol, and the text that a message to the client is
//! sent as.

use crate::json::{create_server_meta, encode_string, encode_value, Meta};
use vstd::prelude::*;
use vstd::string::*;

verus! {

/// What opens a session: the client's first message.
#[derive(Debug)]
pub enum HandshakeMessage {
    Connected { payload: Connected, meta: Meta },
}

#[derive(Debug)]
pub struct Connected {
    pub i_accept_this_is_an_unsupported_api: bool,
}

/// What a client may ask for once the session is open.
#[derive(Debug)]
pub enum WSMessageRequest {
    ExecuteRequest { payload: ExecuteRequest, meta: Meta },
}

/// A program to run, with the choices that the client made for it, as written.
#[derive(Debug)]
pub struct ExecuteRequest {
    pub channel: String,
    pub mode: String,
    pub edition: String,
    pub crate_type: String,
    pub tests: bool,
    pub code: String,
    pub backtrace: bool,
}

/// A message to the client.
#[derive(Debug)]
pub enum MessageResponse {
    Error { payload: WSError, meta: Meta },
    FeatureFlags { payload: FeatureFlags, meta: Meta },
    ExecuteBegin { meta: Meta },
    ExecuteStdout { payload: String, meta: Meta },
    ExecuteStderr { payload: String, meta: Meta },
    ExecuteEnd { payload: ExecuteResponse, meta: Meta },
}

#[derive(Debug)]
pub struct WSError {
    pub error: String,
}

/// Which parts of the playground the client should use. The threshold is a JSON
/// number.
#[derive(Debug)]
pub struct FeatureFlags {
    pub execute_via_websocket_threshold: Option<serde_json::Value>,
}

#[derive(Debug)]
pub struct ExecuteResponse {
    pub success: bool,
}

/// Sent in place of a message that cannot be written as JSON.
pub const LAST_CHANCE_ERROR: &'static str =
    "{ \"type\": \"WEBSOCKET_ERROR\", \"error\": \"Unable to serialize JSON\" }";

/// The content of a [`MessageResponse`].
pub enum MessageView {
    Error { error: Seq<char>, meta: serde_json::Value },
    FeatureFlags { threshold: Option<serde_json::Value>, meta: serde_json::Value },
    ExecuteBegin { meta: serde_json::Value },
    ExecuteStdout { payload: Seq<char>, meta: serde_json::Value },
    ExecuteStderr { payload: Seq<char>, meta: serde_json::Value },
    ExecuteEnd { success: bool, meta: serde_json::Value },
}

impl View for MessageResponse {
    type V = MessageView;

    open spec fn view(&self) -> MessageView {
        match self {
            MessageResponse::Error { payload, meta } => MessageView::Error {
                error: payload.error@,
                meta: **meta,
            },
            MessageResponse::FeatureFlags { payload, meta } => MessageView::FeatureFlags {
                threshold: payload.execute_via_websocket_threshold,
                meta: **meta,
            },
            MessageResponse::ExecuteBegin { meta } => MessageView::ExecuteBegin { meta: **meta },
            MessageResponse::ExecuteStdout { payload, meta } => MessageView::ExecuteStdout {
                payload: payload@,
                meta: **meta,
            },
            MessageResponse::ExecuteStderr { payload, meta } => MessageView::ExecuteStderr {
                payload: payload@,
                meta: **meta,
            },
            MessageResponse::ExecuteEnd { payload, meta } => MessageView::ExecuteEnd {
                success: payload.success,
                meta: **meta,
            },
        }
    }
}

/// The text of a message: an object that holds its type, its payload if it has
/// one, and its metadata, in this order.
pub open spec fn frame(
    tag: Seq<char>,
    payload: Option<Seq<char>>,
    meta: Seq<char>,
) -> Seq<char> {
    let head = "{\"type\":\""@ + tag + "\""@;
    let body = match payload {
        Some(payload) => head + ",\"payload\":"@ + payload,
        None => head,
    };
    body + ",\"meta\":"@ + meta + "}"@
}

/// The text of an object with one member.
pub open spec fn single(name: Seq<char>, value: Seq<char>) -> Seq<char> {
    "{\""@ + name + "\":"@ + value + "}"@
}

impl MessageView {
    pub open spec fn meta(self) -> serde_json::Value {
        match self {
            MessageView::Error { meta, .. } => meta,
            MessageView::FeatureFlags { meta, .. } => meta,
            MessageView::ExecuteBegin { meta } => meta,
            MessageView::ExecuteStdout { meta, .. } => meta,
            MessageView::ExecuteStderr { meta, .. } => meta,
            MessageView::ExecuteEnd { meta, .. } => meta,
        }
    }

    /// The type that the message is labelled with.
    pub open spec fn tag(self) -> Seq<char> {
        match self {
            MessageView::Error { .. } => "websocket/error"@,
            MessageView::FeatureFlags { .. } => "featureFlags"@,
            MessageView::ExecuteBegin { .. } => "output/execute/wsExecuteBegin"@,
            MessageView::ExecuteStdout { .. } => "output/execute/wsExecuteStdout"@,
            MessageView::ExecuteStderr { .. } => "output/execute/wsExecuteStderr"@,
            MessageView::ExecuteEnd { .. } => "output/execute/wsExecuteEnd"@,
        }
    }

    /// The text of the payload, `None` where there is no payload.
    pub open spec fn payload_text(self) -> Option<Seq<char>> {
        match self {
            MessageView::Error { error, .. } => Some(
                single("error"@, crate::json::quoted(error)),
            ),
            MessageView::FeatureFlags { threshold, .. } => match threshold {
                Some(value) => Some(
                    single("executeViaWebsocketThreshold"@, crate::json::json_text(value)),
                ),
                None => Some(single("executeViaWebsocketThreshold"@, "null"@)),
            },
            MessageView::ExecuteBegin { .. } => None,
            MessageView::ExecuteStdout { payload, .. } => Some(crate::json::quoted(payload)),
            MessageView::ExecuteStderr { payload, .. } => Some(crate::json::quoted(payload)),
            MessageView::ExecuteEnd { success, .. } => Some(
                single(
                    "success"@,
                    if success {
                        "true"@
                    } else {
                        "false"@
                    },
                ),
            ),
        }
    }

    /// The text of the message, which is what is sent for it.
    pub open spec fn text(self) -> Seq<char> {
        frame(self.tag(), self.payload_text(), crate::json::json_text(self.meta()))
    }
}

/// What is sent for a message that was, or was not, written as this text.
pub open spec fn text_or_last_chance(encoded: Option<Seq<char>>) -> Seq<char> {
    match encoded {
        Some(text) => text,
        None => LAST_CHANCE_ERROR@,
    }
}

/// Frames a message from the texts of its parts.
pub fn frame_message(tag: &str, payload: &Option<String>, meta: &str) -> (text: String)
    ensures
        text@ == frame(
            tag@,
            match *payload {
                Some(payload) => Some(payload@),
                None => None,
            },
            meta@,
        ),
{
    let mut text = "{\"type\":\"".to_owned();
    text.append(tag);
    text.append("\"");
    match payload {
        Some(payload) => {
            text.append(",\"payload\":");
            text.append(payload.as_str());
        },
        None => {},
    }
    text.append(",\"meta\":");
    text.append(meta);
    text.append("}");
    text
}

/// Writes an object with one member.
fn single_member(name: &str, value: &str) -> (text: String)
    ensures
        text@ == single(name@, value@),
{
    let mut text = "{\"".to_owned();
    text.append(name);
    text.append("\":");
    text.append(value);
    text.append("}");
    text
}

/// Takes the text of a message, or the last chance where there is none.
pub fn text_to_send(encoded: Option<String>) -> (text: String)
    ensures
        text@ == text_or_last_chance(
            match encoded {
                Some(text) => Some(text@),
                None => None,
            },
        ),
{
    match encoded {
        Some(text) => text,
        None => LAST_CHANCE_ERROR.to_owned(),
    }
}

/// The type that a message is labelled with.
fn message_tag(response: &MessageResponse) -> (tag: &'static str)
    ensures
        tag@ == response@.tag(),
{
    match response {
        MessageResponse::Error { .. } => "websocket/error",
        MessageResponse::FeatureFlags { .. } => "featureFlags",
        MessageResponse::ExecuteBegin { .. } => "output/execute/wsExecuteBegin",
        MessageResponse::ExecuteStdout { .. } => "output/execute/wsExecuteStdout",
        MessageResponse::ExecuteStderr { .. } => "output/execute/wsExecuteStderr",
        MessageResponse::ExecuteEnd { .. } => "output/execute/wsExecuteEnd",
    }
}

/// The text of a message's payload, `None` where there is no payload.
fn encode_payload(response: &MessageResponse) -> (text: Option<String>)
    ensures
        match text {
            Some(text) => response@.payload_text() == Some(text@),
            None => response@.payload_text() is None,
        },
{
    match response {
        MessageResponse::Error { payload, .. } => {
            match encode_string(payload.error.as_str()) {
                Some(text) => Some(single_member("error", text.as_str())),
                None => None,
            }
        },
        MessageResponse::FeatureFlags { payload, .. } => {
            match &payload.execute_via_websocket_threshold {
                Some(value) => match encode_value(value) {
                    Some(text) => {
                        Some(single_member("executeViaWebsocketThreshold", text.as_str()))
                    },
                    None => None,
                },
                None => Some(single_member("executeViaWebsocketThreshold", "null")),
            }
        },
        MessageResponse::ExecuteBegin { .. } => None,
        MessageResponse::ExecuteStdout { payload, .. } => encode_string(payload.as_str()),
        MessageResponse::ExecuteStderr { payload, .. } => encode_string(payload.as_str()),
        MessageResponse::ExecuteEnd { payload, .. } => {
            Some(
                single_member(
                    "success",
                    if payload.success {
                        "true"
                    } else {
                        "false"
                    },
                ),
            )
        },
    }
}

/// The text of a message. `None` would stand for a part that cannot be written, but
/// there is no such part.
pub fn encode_response(response: &MessageResponse) -> (text: Option<String>)
    ensures
        text matches Some(text) && text@ == response@.text(),
{
    let payload = encode_payload(response);
    let bare = match response {
        MessageResponse::ExecuteBegin { .. } => true,
        _ => false,
    };
    if payload.is_none() && !bare {
        return None;
    }
    let meta = match response {
        MessageResponse::Error { meta, .. } => meta,
        MessageResponse::FeatureFlags { meta, .. } => meta,
        MessageResponse::ExecuteBegin { meta } => meta,
        MessageResponse::ExecuteStdout { meta, .. } => meta,
        MessageResponse::ExecuteStderr { meta, .. } => meta,
        MessageResponse::ExecuteEnd { meta, .. } => meta,
    };
    match encode_value(&**meta) {
        Some(meta) => Some(frame_message(message_tag(response), &payload, meta.as_str())),
        None => None,
    }
}

/// Writes a message as the text that is sent to the client. It is always the
/// message itself, never the last chance.
pub fn response_to_message(response: MessageResponse) -> (text: String)
    ensures
        text@ == response@.text(),
{
    let encoded = encode_response(&response);
    text_to_send(encoded)
}

/// Reports an error, by its wording, to the client. The message answers no
/// request.
pub fn error_to_response(error: String) -> (response: MessageResponse)
    ensures
        response@ == (MessageView::Error { error: error@, meta: crate::json::server_meta() }),
{
    let payload = WSError { error };
    let meta = create_server_meta();
    MessageResponse::Error { payload, meta }
}

} // verus!
