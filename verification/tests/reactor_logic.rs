//! The reactor's pure decisions exercised on concrete values.

use dap_reactor::json::Json;
use dap_reactor::models::ExceptionInfoArguments;
use dap_reactor::protocol::ProtocolMessage;
use dap_reactor::reactor::{
    dispatch_inbound, response_outbound, reverse_request_outbound, ClientBuilder, InboundAction,
    ReactorReverseRequest, Reactor, SeqCounter,
};
use dap_reactor::request::{Request, ReverseRequest};
use dap_reactor::response::Response;

fn message_of(text: &str) -> ProtocolMessage {
    let v = Json::parse(text.as_bytes()).expect("the text is valid JSON");
    ProtocolMessage::try_from(&v).expect("the text is a protocol message")
}

#[test]
fn sequence_numbers_are_strictly_increasing() {
    let mut counter = SeqCounter::new();
    let a = counter.take_next();
    let b = counter.take_next();
    let c = counter.take_next();
    assert_eq!((a, b, c), (1, 2, 3));
    assert!(a >= 1 && a < b && b < c);
}

#[test]
fn inbound_requests_keep_their_seq() {
    let m = message_of(
        r#"{"seq":13,"type":"request","command":"exceptionInfo","arguments":{"threadId":20}}"#,
    );
    let action = dispatch_inbound(m);
    assert_eq!(
        action,
        InboundAction::HandleRequest {
            request_seq: 13,
            request: Request::ExceptionInfo {
                arguments: ExceptionInfoArguments { thread_id: 20 },
            },
        },
    );
}

#[test]
fn inbound_responses_answer_their_reverse_request() {
    let m = message_of(
        r#"{"seq":40,"type":"response","request_seq":33,"success":false,
            "command":"runInTerminal","message":"declined"}"#,
    );
    let action = dispatch_inbound(m);
    match action {
        InboundAction::HandleResponse { request_seq, response } => {
            assert_eq!(request_seq, 33);
            match response {
                Response::Error { command, .. } => assert_eq!(command, "runInTerminal"),
                other => panic!("an error response was expected, not {:?}", other),
            }
        },
        other => panic!("a response was expected, not {:?}", other),
    }
}

#[test]
fn inbound_events_are_dropped() {
    let m = message_of(r#"{"seq":7,"type":"event","event":"initialized"}"#);
    assert_eq!(dispatch_inbound(m), InboundAction::DropEvent);
}

#[test]
fn a_backend_without_an_answer_writes_nothing() {
    assert_eq!(response_outbound(None, 5, 3), None);
    let bytes = response_outbound(Some(Response::Attach), 5, 3).expect("an answer is framed");
    let (consumed, m) = ProtocolMessage::try_from_bytes(&bytes).expect("the frame decodes");
    assert_eq!(consumed, bytes.len());
    assert_eq!(
        m,
        message_of(
            r#"{"seq":5,"type":"response","request_seq":3,"success":true,"command":"attach"}"#,
        ),
    );
}

#[test]
fn reverse_requests_use_the_backend_id_when_given() {
    let request = ReverseRequest::RunInTerminal {
        kind: None,
        title: None,
        cwd: "/".into(),
        args: vec!["sh".into()],
        env: None,
        args_can_be_interpreted_by_shell: false,
    };
    let mut counter = SeqCounter::new();
    let (seq, _) = reverse_request_outbound(
        ReactorReverseRequest { id: Some(42), request },
        &mut counter,
    );
    assert_eq!(seq, 42);
    assert_eq!(counter, SeqCounter::new());

    let request = ReverseRequest::RunInTerminal {
        kind: None,
        title: None,
        cwd: "/".into(),
        args: vec!["sh".into()],
        env: None,
        args_can_be_interpreted_by_shell: false,
    };
    let (seq, bytes) = reverse_request_outbound(
        ReactorReverseRequest { id: None, request },
        &mut counter,
    );
    assert_eq!(seq, 1);
    let (_, m) = ProtocolMessage::try_from_bytes(&bytes).expect("the frame decodes");
    assert_eq!(
        m,
        message_of(
            r#"{"seq":1,"type":"request","command":"runInTerminal",
                "arguments":{"cwd":"/","args":["sh"]}}"#,
        ),
    );
}

#[test]
fn configurations_hold_their_knobs() {
    let r = Reactor::new();
    assert_eq!(r.capacity, 100);
    let r = r.with_capacity(7);
    assert_eq!(r.capacity, 7);
    let c = ClientBuilder::new();
    assert_eq!((c.capacity, c.buffer), (50, 4096));
    let c = c.with_capacity(9).with_buffer(16);
    assert_eq!((c.capacity, c.buffer), (9, 16));
}
