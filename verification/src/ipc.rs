//! The local IPC protocol between worker processes and the desktop
//! shell: the frame shapes, the session server's handling of one
//! incoming frame, and the client side's reading of the one response
//! it awaits.
//!
//! Connections themselves live outside the library. The session server
//! hands each decoded frame to [`handle_frame`], performs the
//! deliveries it returns, and raises the returned notification to the
//! shell. The client builds its single request with
//! [`build_elicitation_request`] and reads the single answer with
//! [`interpret_response`].

use vstd::prelude::*;

use crate::ElicitationAction;
use crate::coordinator::{cancel_model, Coordinator, Delivery};
use crate::schema::{
    convert_schema, encode_schema, schema_wf, ElicitationSchema, RequestedSchema,
};

verus! {

/// An elicitation request as carried on the wire: the prompt for the
/// human and the schema of the requested input.
pub struct ElicitationRequest {
    pub message: String,
    pub requested_schema: RequestedSchema,
}

/// Payload of one request frame.
pub enum RequestPayload {
    Elicitation(ElicitationRequest),
}

/// One frame sent from a worker to the shell over a session.
pub struct McpStreamRequest {
    pub payload: Option<RequestPayload>,
}

/// An elicitation answer as carried on the wire: a numeric action code
/// and the answered fields.
pub struct WireElicitationResult {
    pub action: i32,
    pub content: Vec<(String, String)>,
}

/// Payload of one response frame.
pub enum ResponsePayload {
    Elicitation(WireElicitationResult),
}

/// One frame sent from the shell back to a worker over a session.
pub struct McpStreamResponse {
    pub payload: Option<ResponsePayload>,
}

/// The wire code of an action.
pub open spec fn action_code_spec(a: ElicitationAction) -> i32 {
    match a {
        ElicitationAction::Accept => 0,
        ElicitationAction::Decline => 1,
        ElicitationAction::Cancel => 2,
    }
}

/// The action a wire code names. An unrecognized code reads as
/// `Cancel`: the fail-safe outcome.
pub open spec fn action_from_code_spec(c: i32) -> ElicitationAction {
    if c == 0 {
        ElicitationAction::Accept
    } else if c == 1 {
        ElicitationAction::Decline
    } else {
        ElicitationAction::Cancel
    }
}

/// The wire code of an action.
pub fn action_code(a: ElicitationAction) -> (r: i32)
    ensures
        r == action_code_spec(a),
{
    match a {
        ElicitationAction::Accept => 0,
        ElicitationAction::Decline => 1,
        ElicitationAction::Cancel => 2,
    }
}

/// The action a wire code names, defaulting to `Cancel`.
pub fn action_from_code(c: i32) -> (r: ElicitationAction)
    ensures
        r == action_from_code_spec(c),
{
    if c == 0 {
        ElicitationAction::Accept
    } else if c == 1 {
        ElicitationAction::Decline
    } else {
        ElicitationAction::Cancel
    }
}

/// Failure of one elicitation round trip over the local IPC.
#[derive(Debug, PartialEq, Eq)]
pub enum IpcError {
    /// The rendezvous endpoint is absent or refused the connection.
    ConnectFailed(String),
    /// The bidirectional stream could not be opened.
    StreamFailed(String),
    /// The request frame could not be sent.
    SendFailed(String),
    /// The connection closed without a response frame.
    NoResponse,
    /// A response frame arrived but could not be received intact.
    ReceiveFailed(String),
    /// The response frame carried no elicitation answer.
    UnexpectedResponse,
}

/// The outcome of one elicitation round trip, in the caller's terms:
/// the user's action and, for a non-empty accepting answer, the
/// answered fields.
#[derive(Debug, PartialEq)]
pub struct LocalElicitationResult {
    pub action: ElicitationAction,
    pub content: Option<Vec<(String, String)>>,
}

/// Build the single request frame of one elicitation round trip: the
/// message and the schema translated to its wire form.
pub fn build_elicitation_request(message: String, schema: &ElicitationSchema) -> (r:
    McpStreamRequest)
    requires
        schema_wf(schema.model()),
    ensures
        r.payload matches Some(RequestPayload::Elicitation(e)) && e.message@ == message@
            && e.requested_schema.model() == encode_schema(schema.model()),
{
    let requested_schema = convert_schema(schema);
    McpStreamRequest {
        payload: Some(RequestPayload::Elicitation(ElicitationRequest { message, requested_schema })),
    }
}

/// Read the one response of an elicitation round trip. No frame at all
/// is `NoResponse`; a frame without an elicitation answer is
/// `UnexpectedResponse`. Otherwise the action code is translated
/// (unrecognized codes fail safe to `Cancel`) and the content is kept
/// only for a non-empty accepting answer.
pub fn interpret_response(response: Option<McpStreamResponse>) -> (r: Result<
    LocalElicitationResult,
    IpcError,
>)
    ensures
        response is None ==> (r matches Err(e) && e is NoResponse),
        response matches Some(resp) ==> match resp.payload {
            Some(ResponsePayload::Elicitation(w)) => (r matches Ok(l) && {
                &&& l.action == action_from_code_spec(w.action)
                &&& (l.content is Some <==> action_from_code_spec(w.action) is Accept
                    && w.content@.len() > 0)
                &&& (l.content matches Some(c) ==> c@ == w.content@)
            }),
            None => (r matches Err(e) && e is UnexpectedResponse),
        },
{
    match response {
        None => Err(IpcError::NoResponse),
        Some(resp) => match resp.payload {
            Some(ResponsePayload::Elicitation(w)) => {
                let action = action_from_code(w.action);
                let content = if matches!(action, ElicitationAction::Accept) && w.content.len() > 0 {
                    Some(w.content)
                } else {
                    None
                };
                Ok(LocalElicitationResult { action, content })
            },
            None => Err(IpcError::UnexpectedResponse),
        },
    }
}

/// What the session loop must do after one incoming frame: perform the
/// cancellation owed to a superseded session, if any, and raise the
/// elicitation request to the shell, if the frame carried one.
pub struct FrameActions {
    pub cancelled: Option<Delivery>,
    pub notify: Option<ElicitationRequest>,
}

/// Handle one frame of one session. A frame carrying an elicitation
/// first cancels whatever elicitation was still pending — possibly one
/// of an abandoned session — then installs this session's sink and
/// raises the request to the shell. Any other frame changes nothing.
///
/// A session that closes without an answer deliberately leaves the
/// pending elicitation installed: it is superseded here when the next
/// request arrives, whichever session carries it.
pub fn handle_frame(coord: &mut Coordinator, session: u64, frame: McpStreamRequest) -> (r:
    FrameActions)
    requires
        old(coord).wf(),
    ensures
        final(coord).wf(),
        frame.payload matches Some(RequestPayload::Elicitation(req)) ==> {
            &&& final(coord).spec_pending()
            &&& final(coord).installed() == Some(session)
            &&& (r.cancelled matches Some(d) ==> old(coord).installed() == Some(d.sink)
                && d.result.model() == cancel_model())
            &&& (r.cancelled is Some <==> old(coord).spec_pending())
            &&& r.notify == Some(req)
        },
        frame.payload is None ==> *final(coord) == *old(coord) && r.cancelled is None
            && r.notify is None,
{
    match frame.payload {
        Some(RequestPayload::Elicitation(req)) => {
            let cancelled = coord.cancel_if_pending();
            let superseded = coord.register(session);
            assert(superseded is None);
            FrameActions { cancelled, notify: Some(req) }
        },
        None => FrameActions { cancelled: None, notify: None },
    }
}

} // verus!
