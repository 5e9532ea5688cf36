use dive_core::coordinator::{delivery_outcome, Coordinator, ElicitationResult};
use dive_core::ipc::{
    action_code, build_elicitation_request, handle_frame, interpret_response, IpcError,
    McpStreamRequest, McpStreamResponse, RequestPayload, ResponsePayload, WireElicitationResult,
};
use dive_core::schema::create_permission_schema;
use dive_core::ElicitationAction;

#[test]
fn register_installs_and_cancels_prior() {
    let mut coord = Coordinator::new();
    assert!(!coord.pending());

    let first = coord.register(1);
    assert!(first.is_none());
    assert!(coord.pending());

    let second = coord.register(2);
    let d = second.expect("prior sink must receive a cancel");
    assert_eq!(d.sink, 1);
    assert_eq!(d.result.action, ElicitationAction::Cancel);
    assert!(d.result.content.is_empty());
    assert!(coord.pending());
}

#[test]
fn register_sequence_cancels_each_prior_sink_once() {
    let mut coord = Coordinator::new();
    let mut cancelled = Vec::new();
    for sink in [10u64, 11, 12, 13] {
        if let Some(d) = coord.register(sink) {
            assert_eq!(d.result.action, ElicitationAction::Cancel);
            cancelled.push(d.sink);
        }
    }
    assert_eq!(cancelled, vec![10, 11, 12]);
    assert!(coord.pending());
}

#[test]
fn cancel_if_pending_when_idle_is_noop() {
    let mut coord = Coordinator::new();
    let delivery = coord.cancel_if_pending();
    assert!(delivery.is_none());
    assert!(!coord.pending());
}

#[test]
fn cancel_if_pending_cancels_the_pending_request() {
    let mut coord = Coordinator::new();
    coord.register(7);
    let d = coord.cancel_if_pending().expect("a cancel is owed");
    assert_eq!(d.sink, 7);
    assert_eq!(d.result.action, ElicitationAction::Cancel);
    assert!(!coord.pending());
}

#[test]
fn complete_delivers_exactly_once_and_resets() {
    let mut coord = Coordinator::new();
    coord.register(3);
    let answer = ElicitationResult {
        action: ElicitationAction::Accept,
        content: vec![("choice".to_string(), "yes".to_string())],
    };
    let d = coord.complete(answer).expect("the installed sink gets the answer");
    assert_eq!(d.sink, 3);
    assert_eq!(d.result.action, ElicitationAction::Accept);
    assert_eq!(d.result.content, vec![("choice".to_string(), "yes".to_string())]);
    assert!(!coord.pending());

    // A second complete finds no sink: no delivery, still success.
    let again = coord.complete(ElicitationResult::cancel());
    assert!(again.is_none());
    assert!(!coord.pending());
}

#[test]
fn complete_without_any_worker_is_noop_success() {
    let mut coord = Coordinator::new();
    let answer = ElicitationResult {
        action: ElicitationAction::Accept,
        content: vec![("choice".to_string(), "yes".to_string())],
    };
    let delivery = coord.complete(answer);
    assert!(delivery.is_none());
    assert!(delivery_outcome(delivery.is_some(), true).is_ok());
    assert!(!coord.pending());
}

#[test]
fn delivery_outcome_fails_only_on_a_closed_channel() {
    assert!(delivery_outcome(true, true).is_ok());
    assert!(delivery_outcome(false, true).is_ok());
    assert!(delivery_outcome(false, false).is_ok());
    assert!(delivery_outcome(true, false).is_err());
}

#[test]
fn second_worker_supersedes_first_pending_elicitation() {
    // Worker one asks; before any answer, worker two asks. The first
    // session receives a cancel with empty content; the second stays
    // pending.
    let mut coord = Coordinator::new();

    let schema = create_permission_schema();
    let frame1 = build_elicitation_request("Allow access to /tmp?".to_string(), &schema);
    let actions1 = handle_frame(&mut coord, 1, frame1);
    assert!(actions1.cancelled.is_none());
    let req1 = actions1.notify.expect("the shell is notified");
    assert_eq!(req1.message, "Allow access to /tmp?");
    assert!(coord.pending());

    let schema2 = create_permission_schema();
    let frame2 = build_elicitation_request("Second request".to_string(), &schema2);
    let actions2 = handle_frame(&mut coord, 2, frame2);
    let cancel = actions2.cancelled.expect("the first session is cancelled");
    assert_eq!(cancel.sink, 1);
    assert_eq!(cancel.result.action, ElicitationAction::Cancel);
    assert!(cancel.result.content.is_empty());
    assert!(actions2.notify.is_some());
    assert!(coord.pending());
}

#[test]
fn shell_answer_reaches_the_pending_worker() {
    // Continue from a superseding second worker: the shell accepts with
    // content; the second session's round trip sees exactly that.
    let mut coord = Coordinator::new();
    let schema = create_permission_schema();
    handle_frame(
        &mut coord,
        1,
        build_elicitation_request("Allow access to /tmp?".to_string(), &schema),
    );
    let schema2 = create_permission_schema();
    handle_frame(&mut coord, 2, build_elicitation_request("Second request".to_string(), &schema2));

    let answer = ElicitationResult {
        action: ElicitationAction::Accept,
        content: vec![("choice".to_string(), "yes".to_string())],
    };
    let d = coord.complete(answer).expect("worker two is answered");
    assert_eq!(d.sink, 2);
    assert!(!coord.pending());

    // The answer travels back as a wire frame and the worker reads it.
    let frame = McpStreamResponse {
        payload: Some(ResponsePayload::Elicitation(WireElicitationResult {
            action: action_code(d.result.action),
            content: d.result.content,
        })),
    };
    let local = interpret_response(Some(frame)).expect("a valid answer");
    assert_eq!(local.action, ElicitationAction::Accept);
    let content = local.content.expect("accepting answers keep their content");
    assert_eq!(content, vec![("choice".to_string(), "yes".to_string())]);
}

#[test]
fn frame_without_payload_changes_nothing() {
    let mut coord = Coordinator::new();
    let actions = handle_frame(&mut coord, 5, McpStreamRequest { payload: None });
    assert!(actions.cancelled.is_none());
    assert!(actions.notify.is_none());
    assert!(!coord.pending());
}

#[test]
fn interpret_response_maps_every_shape() {
    // No frame at all.
    assert_eq!(interpret_response(None), Err(IpcError::NoResponse));

    // A frame without an elicitation answer.
    assert_eq!(
        interpret_response(Some(McpStreamResponse { payload: None })),
        Err(IpcError::UnexpectedResponse)
    );

    // Decline: content dropped even when present.
    let declined = interpret_response(Some(McpStreamResponse {
        payload: Some(ResponsePayload::Elicitation(WireElicitationResult {
            action: 1,
            content: vec![("k".to_string(), "v".to_string())],
        })),
    }))
    .unwrap();
    assert_eq!(declined.action, ElicitationAction::Decline);
    assert!(declined.content.is_none());

    // Accept with empty content: no content map.
    let empty = interpret_response(Some(McpStreamResponse {
        payload: Some(ResponsePayload::Elicitation(WireElicitationResult {
            action: 0,
            content: vec![],
        })),
    }))
    .unwrap();
    assert_eq!(empty.action, ElicitationAction::Accept);
    assert!(empty.content.is_none());

    // An unrecognized action code fails safe to cancel.
    let unknown = interpret_response(Some(McpStreamResponse {
        payload: Some(ResponsePayload::Elicitation(WireElicitationResult {
            action: 99,
            content: vec![],
        })),
    }))
    .unwrap();
    assert_eq!(unknown.action, ElicitationAction::Cancel);
}

#[test]
fn request_frame_carries_message_and_wire_schema() {
    let schema = create_permission_schema();
    let frame = build_elicitation_request("May I?".to_string(), &schema);
    match frame.payload {
        Some(RequestPayload::Elicitation(e)) => {
            assert_eq!(e.message, "May I?");
            assert_eq!(e.requested_schema.required, vec!["choice".to_string()]);
            assert_eq!(e.requested_schema.properties.len(), 1);
            let (name, prop) = &e.requested_schema.properties[0];
            assert_eq!(name, "choice");
            assert_eq!(prop.kind, "string");
            assert_eq!(
                prop.enum_values,
                vec!["always".to_string(), "yes".to_string(), "no".to_string()]
            );
        }
        None => panic!("the frame must carry the elicitation"),
    }
}
