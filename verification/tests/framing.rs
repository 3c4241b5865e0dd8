//! The frame layer exercised on raw bytes: boundaries, errors, and the
//! stream-style reader.

use dap_reactor::error::{Cause, Error};
use dap_reactor::event::{Event, StoppedReason};
use dap_reactor::frame::StreamError;
use dap_reactor::protocol::ProtocolMessage;

#[test]
fn short_body_is_an_unexpected_eof() {
    let bytes = b"Content-Length: 5\r\n\r\n{\"a\":";
    let r = ProtocolMessage::try_from_bytes(&bytes[..bytes.len() - 1]);
    assert_eq!(r, Err(Error::new("protocolMessage", Cause::UnexpectedEof)));
}

#[test]
fn a_frame_leaves_what_follows_untouched() {
    let msg = br#"{"seq":3,"type":"event","event":"initialized"}"#;
    let mut bytes = Vec::new();
    bytes.extend_from_slice(format!("Content-Length: {}\r\n\r\n", msg.len()).as_bytes());
    bytes.extend_from_slice(msg);
    let frame_len = bytes.len();
    bytes.extend_from_slice(b"garbage that follows");
    let (consumed, m) = ProtocolMessage::try_from_bytes(&bytes).expect("the frame decodes");
    assert_eq!(consumed, frame_len);
    let expected = ProtocolMessage::try_from(
        &dap_reactor::json::Json::parse(msg).expect("the body is valid JSON"),
    )
    .expect("the body is a message");
    assert_eq!(m, expected);
}

#[test]
fn missing_separator_is_mandatory() {
    let r = ProtocolMessage::try_from_bytes(b"Content-Length: 2");
    assert_eq!(r, Err(Error::new("protocolMessage", Cause::IsMandatory)));
}

#[test]
fn missing_content_length_is_mandatory() {
    let r = ProtocolMessage::try_from_bytes(b"X-Other: 12\r\n\r\n{}");
    assert_eq!(r, Err(Error::new("protocolMessage", Cause::IsMandatory)));
}

#[test]
fn header_bytes_must_be_utf8() {
    let r = ProtocolMessage::try_from_bytes(b"\xffContent-Length: 2\r\n\r\n{}");
    assert_eq!(r, Err(Error::new("protocolMessage", Cause::InvalidUtf8)));
}

#[test]
fn malformed_body_is_invalid() {
    let r = ProtocolMessage::try_from_bytes(b"Content-Length: 2\r\n\r\n{]");
    assert_eq!(r, Err(Error::new("protocolMessage", Cause::IsInvalid)));
}

#[test]
fn header_names_match_without_regard_to_case() {
    let msg = br#"{"seq":3,"type":"event","event":"initialized"}"#;
    let mut bytes = Vec::new();
    bytes.extend_from_slice(format!("CONTENT-LENGTH: {}\r\n\r\n", msg.len()).as_bytes());
    bytes.extend_from_slice(msg);
    let (consumed, _) = ProtocolMessage::try_from_bytes(&bytes).expect("the frame decodes");
    assert_eq!(consumed, bytes.len());
}

#[test]
fn extra_headers_are_tolerated() {
    let msg = br#"{"seq":3,"type":"event","event":"initialized"}"#;
    let mut bytes = Vec::new();
    bytes.extend_from_slice(
        format!("X-First: yes\r\nContent-Length: {}\r\nX-Last: no\r\n\r\n", msg.len()).as_bytes(),
    );
    bytes.extend_from_slice(msg);
    let (consumed, _) = ProtocolMessage::try_from_bytes(&bytes).expect("the frame decodes");
    assert_eq!(consumed, bytes.len());
    let (consumed, _) = ProtocolMessage::try_from_stream(&bytes).expect("the stream decodes");
    assert_eq!(consumed, bytes.len());
}

#[test]
fn stream_decoder_tolerates_lone_line_feeds() {
    let msg = br#"{"seq":3,"type":"event","event":"initialized"}"#;
    let mut bytes = Vec::new();
    bytes.extend_from_slice(format!("Content-Length: {}\n\n", msg.len()).as_bytes());
    bytes.extend_from_slice(msg);
    let (consumed, m) = ProtocolMessage::try_from_stream(&bytes).expect("the stream decodes");
    assert_eq!(consumed, bytes.len());
    let expected = ProtocolMessage::try_from(
        &dap_reactor::json::Json::parse(msg).expect("the body is valid JSON"),
    )
    .expect("the body is a message");
    assert_eq!(m, expected);
}

#[test]
fn stream_decoder_rejects_malformed_lengths() {
    let r = ProtocolMessage::try_from_stream(b"Content-Length: ZZZ\r\n\r\n{}");
    assert_eq!(
        r,
        Err(StreamError::Broken {
            error: Error::new("protocolMessage", Cause::IsInvalid),
        }),
    );
}

#[test]
fn stream_decoder_lets_a_caller_skip_a_bad_body() {
    // a whole frame whose body is not JSON: the error carries the frame
    // length, so the caller can realign on what follows
    let mut bytes: Vec<u8> = b"Content-Length: 2\r\n\r\n{]".to_vec();
    let frame_len = bytes.len();
    let good = br#"{"seq":3,"type":"event","event":"initialized"}"#;
    bytes.extend_from_slice(format!("Content-Length: {}\r\n\r\n", good.len()).as_bytes());
    bytes.extend_from_slice(good);
    let r = ProtocolMessage::try_from_stream(&bytes);
    assert_eq!(
        r,
        Err(StreamError::Recoverable {
            consumed: frame_len,
            error: Error::new("protocolMessage", Cause::IsInvalid),
        }),
    );
    let (consumed, m) = ProtocolMessage::try_from_stream(&bytes[frame_len..])
        .expect("the next frame decodes");
    assert_eq!(consumed, bytes.len() - frame_len);
    let expected = ProtocolMessage::try_from(
        &dap_reactor::json::Json::parse(good).expect("the body is valid JSON"),
    )
    .expect("the body is a message");
    assert_eq!(m, expected);

    // a whole frame whose body is JSON but no envelope: same recovery, and
    // the error names what the envelope missed
    let bytes = b"Content-Length: 2\r\n\r\n{}";
    let r = ProtocolMessage::try_from_stream(bytes);
    assert_eq!(
        r,
        Err(StreamError::Recoverable {
            consumed: bytes.len(),
            error: Error::new("seq", Cause::IsMandatory),
        }),
    );
}

#[test]
fn stream_decoder_asks_for_more_of_a_cut_frame() {
    let r = ProtocolMessage::try_from_stream(b"Content-Length: 5\r\n\r\n{}");
    assert_eq!(
        r,
        Err(StreamError::Incomplete {
            error: Error::new("protocolMessage", Cause::UnexpectedEof),
        }),
    );
    let r = ProtocolMessage::try_from_stream(b"Content-Len");
    assert_eq!(
        r,
        Err(StreamError::Incomplete {
            error: Error::new("protocolMessage", Cause::IsMandatory),
        }),
    );
}

#[test]
fn unframed_json_decodes_directly() {
    let msg = br#"{"seq":4,"type":"event","event":"initialized"}"#;
    let m = ProtocolMessage::try_from_json_bytes(msg).expect("the body decodes");
    let expected = ProtocolMessage::try_from(
        &dap_reactor::json::Json::parse(msg).expect("the body is valid JSON"),
    )
    .expect("the body is a message");
    assert_eq!(m, expected);
    let r = ProtocolMessage::try_from_json_bytes(b"{]");
    assert_eq!(r, Err(Error::new("protocolMessage", Cause::IsInvalid)));
}

#[test]
fn stopped_event_frame_holds_the_exact_body() {
    let ev = Event::Stopped {
        reason: StoppedReason::Goto,
        description: Some("desc".into()),
        thread_id: Some(15),
        preserve_focus_hint: true,
        text: Some("txt".into()),
        all_threads_stopped: true,
        hit_breakpoint_ids: vec![15, 20],
    };
    let bytes = ProtocolMessage::Event(ev.into_protocol(15)).into_adapter_message();
    let body = r#"{"seq":15,"type":"event","event":"stopped","body":{"reason":"goto","description":"desc","threadId":15,"preserveFocusHint":true,"text":"txt","allThreadsStopped":true,"hitBreakpointIds":[15,20]}}"#;
    let expected = format!("Content-Length: {}\r\n\r\n{}", body.len(), body);
    assert_eq!(bytes, expected.as_bytes());
}
