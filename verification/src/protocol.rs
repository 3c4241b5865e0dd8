//! The three DAP envelopes — request, response, event — and the tagged sum
//! over them, with their codecs and round-trip laws.

use vstd::prelude::*;

use crate::error::{Cause, Error, ErrorV};
use crate::json::{lookup, entries_dv, str_eq, Json, JsonV};
use crate::types::{Message, MessageV};
use crate::utils::{
    attribute, attribute_bool, attribute_optional, attribute_str, attribute_string,
    attribute_string_optional, attribute_u64, errv, get_bool, get_optional, get_str, get_string,
    get_string_optional, get_u64, rdv, spec_attr_bool, spec_attr_json, spec_attr_optional,
    spec_attr_string, spec_attr_string_optional, spec_attr_u64, spec_get_bool, spec_get_optional,
    spec_get_string, spec_get_string_optional, spec_get_u64, JsonObject,
};

verus! {

broadcast use
    vstd::std_specs::vec::group_vec_axioms,
    crate::json::group_json_dv,
    vstd::string::group_string_axioms,
    crate::utils::group_lookup_attrs,
;

/// A client-to-server request envelope: `type == "request"`.
#[derive(Debug, Clone, PartialEq, Eq)]
pub struct ProtocolRequest {
    pub seq: u64,
    pub command: String,
    pub arguments: Option<Json>,
}

/// Model of a [`ProtocolRequest`].
pub struct ProtocolRequestV {
    pub seq: u64,
    pub command: Seq<char>,
    pub arguments: Option<JsonV>,
}

impl DeepView for ProtocolRequest {
    type V = ProtocolRequestV;

    open spec fn deep_view(&self) -> ProtocolRequestV {
        ProtocolRequestV {
            seq: self.seq,
            command: self.command@,
            arguments: self.arguments.deep_view(),
        }
    }
}

/// A server-to-client event envelope: `type == "event"`.
#[derive(Debug, Clone, PartialEq, Eq)]
pub struct ProtocolEvent {
    pub seq: u64,
    pub event: String,
    pub body: Option<Json>,
}

/// Model of a [`ProtocolEvent`].
pub struct ProtocolEventV {
    pub seq: u64,
    pub event: Seq<char>,
    pub body: Option<JsonV>,
}

impl DeepView for ProtocolEvent {
    type V = ProtocolEventV;

    open spec fn deep_view(&self) -> ProtocolEventV {
        ProtocolEventV { seq: self.seq, event: self.event@, body: self.body.deep_view() }
    }
}

/// The error half of a failed response: an optional short message and an
/// optional structured [`Message`] body.
#[derive(Debug, Clone, PartialEq, Eq)]
pub struct ProtocolResponseError {
    pub message: Option<String>,
    pub body: Option<Message>,
}

/// Model of a [`ProtocolResponseError`].
pub struct ProtocolResponseErrorV {
    pub message: Option<Seq<char>>,
    pub body: Option<MessageV>,
}

impl DeepView for ProtocolResponseError {
    type V = ProtocolResponseErrorV;

    open spec fn deep_view(&self) -> ProtocolResponseErrorV {
        ProtocolResponseErrorV {
            message: self.message.deep_view(),
            body: self.body.deep_view(),
        }
    }
}

/// What a response carries: a successful raw body, or an error.
pub type ProtocolResponseResult = Result<Option<Json>, ProtocolResponseError>;

/// A server-to-client response envelope: `type == "response"`, answering the
/// request whose `seq` was `request_seq`.
#[derive(Debug, PartialEq, Eq)]
pub struct ProtocolResponse {
    pub seq: u64,
    pub request_seq: u64,
    pub command: String,
    pub result: ProtocolResponseResult,
}

/// Model of a [`ProtocolResponse`].
pub struct ProtocolResponseV {
    pub seq: u64,
    pub request_seq: u64,
    pub command: Seq<char>,
    pub result: Result<Option<JsonV>, ProtocolResponseErrorV>,
}

impl DeepView for ProtocolResponse {
    type V = ProtocolResponseV;

    open spec fn deep_view(&self) -> ProtocolResponseV {
        ProtocolResponseV {
            seq: self.seq,
            request_seq: self.request_seq,
            command: self.command@,
            result: match &self.result {
                Ok(b) => Ok(b.deep_view()),
                Err(e) => Err(e.deep_view()),
            },
        }
    }
}

/// Any DAP message, discriminated by its `type` attribute.
#[derive(Debug, PartialEq, Eq)]
pub enum ProtocolMessage {
    Request(ProtocolRequest),
    Response(ProtocolResponse),
    Event(ProtocolEvent),
}

/// Model of a [`ProtocolMessage`].
pub enum ProtocolMessageV {
    Request(ProtocolRequestV),
    Response(ProtocolResponseV),
    Event(ProtocolEventV),
}

impl DeepView for ProtocolMessage {
    type V = ProtocolMessageV;

    open spec fn deep_view(&self) -> ProtocolMessageV {
        match self {
            ProtocolMessage::Request(r) => ProtocolMessageV::Request(r.deep_view()),
            ProtocolMessage::Response(r) => ProtocolMessageV::Response(r.deep_view()),
            ProtocolMessage::Event(e) => ProtocolMessageV::Event(e.deep_view()),
        }
    }
}

impl ProtocolRequestV {
    /// The encoded entries of a request envelope.
    pub open spec fn enc(self) -> Seq<(Seq<char>, JsonV)> {
        let s = Seq::<(Seq<char>, JsonV)>::empty();
        let s = spec_attr_u64(s, "seq"@, self.seq);
        let s = spec_attr_string(s, "type"@, "request"@);
        let s = spec_attr_string(s, "command"@, self.command);
        let s = spec_attr_optional(s, "arguments"@, self.arguments);
        s
    }

    /// An envelope whose encoding decodes to itself: an explicit `null`
    /// argument would elide and decode as absent.
    pub open spec fn wf(self) -> bool {
        self.arguments != Some(JsonV::Null)
    }
}

impl ProtocolRequest {
    /// Encodes this envelope as a JSON object.
    pub fn into_json(self) -> (r: Json)
        ensures
            r.deep_view() == JsonV::Object(self.deep_view().enc()),
    {
        let mut o: JsonObject = Vec::new();
        proof {
            assert(entries_dv(o@) =~= Seq::<(Seq<char>, JsonV)>::empty());
        }
        attribute_u64(&mut o, "seq", self.seq);
        attribute_str(&mut o, "type", "request");
        attribute_string(&mut o, "command", self.command);
        attribute_optional(&mut o, "arguments", self.arguments);
        Json::Object(o)
    }
}

impl ProtocolEventV {
    /// The encoded entries of an event envelope.
    pub open spec fn enc(self) -> Seq<(Seq<char>, JsonV)> {
        let s = Seq::<(Seq<char>, JsonV)>::empty();
        let s = spec_attr_u64(s, "seq"@, self.seq);
        let s = spec_attr_string(s, "type"@, "event"@);
        let s = spec_attr_string(s, "event"@, self.event);
        let s = spec_attr_optional(s, "body"@, self.body);
        s
    }

    /// An envelope whose encoding decodes to itself: an explicit `null` body
    /// would elide and decode as absent.
    pub open spec fn wf(self) -> bool {
        self.body != Some(JsonV::Null)
    }
}

impl ProtocolEvent {
    /// Encodes this envelope as a JSON object.
    pub fn into_json(self) -> (r: Json)
        ensures
            r.deep_view() == JsonV::Object(self.deep_view().enc()),
    {
        let mut o: JsonObject = Vec::new();
        proof {
            assert(entries_dv(o@) =~= Seq::<(Seq<char>, JsonV)>::empty());
        }
        attribute_u64(&mut o, "seq", self.seq);
        attribute_str(&mut o, "type", "event");
        attribute_string(&mut o, "event", self.event);
        attribute_optional(&mut o, "body", self.body);
        Json::Object(o)
    }
}

impl ProtocolResponseV {
    /// The encoded entries of a response envelope. A failed response carries
    /// `success: false`, its message, and its structured error body.
    pub open spec fn enc(self) -> Seq<(Seq<char>, JsonV)> {
        let s = Seq::<(Seq<char>, JsonV)>::empty();
        let s = spec_attr_u64(s, "seq"@, self.seq);
        let s = spec_attr_string(s, "type"@, "response"@);
        let s = spec_attr_u64(s, "request_seq"@, self.request_seq);
        let s = spec_attr_bool(s, "success"@, self.result is Ok);
        let s = spec_attr_string(s, "command"@, self.command);
        let s = spec_attr_string_optional(
            s,
            "message"@,
            match self.result {
                Ok(_) => None,
                Err(e) => e.message,
            },
        );
        let s = spec_attr_optional(
            s,
            "body"@,
            match self.result {
                Ok(b) => b,
                Err(e) => match e.body {
                    Some(m) => Some(JsonV::Object(m.enc())),
                    None => None,
                },
            },
        );
        s
    }

    /// An envelope whose encoding decodes to itself: a successful `null`
    /// body would elide, and a structured error body must itself round-trip.
    pub open spec fn wf(self) -> bool {
        match self.result {
            Ok(b) => b != Some(JsonV::Null),
            Err(e) => match e.body {
                Some(m) => m.wf(),
                None => true,
            },
        }
    }
}

impl ProtocolResponse {
    /// Encodes this envelope as a JSON object.
    pub fn into_json(self) -> (r: Json)
        ensures
            r.deep_view() == JsonV::Object(self.deep_view().enc()),
    {
        let mut o: JsonObject = Vec::new();
        proof {
            assert(entries_dv(o@) =~= Seq::<(Seq<char>, JsonV)>::empty());
        }
        attribute_u64(&mut o, "seq", self.seq);
        attribute_str(&mut o, "type", "response");
        attribute_u64(&mut o, "request_seq", self.request_seq);
        attribute_bool(&mut o, "success", self.result.is_ok());
        attribute_string(&mut o, "command", self.command);
        match self.result {
            Ok(body) => {
                attribute_string_optional(&mut o, "message", None);
                attribute_optional(&mut o, "body", body);
            },
            Err(e) => {
                attribute_string_optional(&mut o, "message", e.message);
                match e.body {
                    Some(m) => attribute_optional(&mut o, "body", Some(m.into_json())),
                    None => attribute_optional(&mut o, "body", None),
                }
            },
        }
        Json::Object(o)
    }
}

impl ProtocolMessageV {
    /// The encoding of any envelope: a JSON object tagged by `type`.
    pub open spec fn enc(self) -> JsonV {
        match self {
            ProtocolMessageV::Request(r) => JsonV::Object(r.enc()),
            ProtocolMessageV::Response(r) => JsonV::Object(r.enc()),
            ProtocolMessageV::Event(e) => JsonV::Object(e.enc()),
        }
    }

    /// What decoding a JSON value as an envelope yields: the root must be an
    /// object, `seq` and `type` are read first, and the `type` tag selects
    /// the shape.
    pub open spec fn dec(j: JsonV) -> Result<ProtocolMessageV, ErrorV> {
        match j {
            JsonV::Object(o) => match spec_get_u64(o, "seq"@) {
                Err(e) => Err(e),
                Ok(seq) => match spec_get_string(o, "type"@) {
                    Err(e) => Err(e),
                    Ok(ty) => if ty == "request"@ {
                        Self::dec_request(o, seq)
                    } else if ty == "response"@ {
                        Self::dec_response(o, seq)
                    } else if ty == "event"@ {
                        Self::dec_event(o, seq)
                    } else {
                        Err(errv("protocolMessage"@, Cause::ExpectsEnum))
                    },
                },
            },
            _ => Err(errv("protocolMessage"@, Cause::ExpectsObject)),
        }
    }

    /// The request shape: a command and optional raw arguments.
    pub open spec fn dec_request(o: Seq<(Seq<char>, JsonV)>, seq: u64) -> Result<
        ProtocolMessageV,
        ErrorV,
    > {
        match spec_get_string(o, "command"@) {
            Err(e) => Err(e),
            Ok(command) => Ok(
                ProtocolMessageV::Request(
                    ProtocolRequestV { seq, command, arguments: spec_get_optional(o, "arguments"@) },
                ),
            ),
        }
    }

    /// The response shape: on `success == false` the optional message and
    /// the body, parsed as a structured [`MessageV`] where possible, become
    /// the error; a parse failure of that body is dropped.
    pub open spec fn dec_response(o: Seq<(Seq<char>, JsonV)>, seq: u64) -> Result<
        ProtocolMessageV,
        ErrorV,
    > {
        match spec_get_u64(o, "request_seq"@) {
            Err(e) => Err(e),
            Ok(request_seq) => match spec_get_bool(o, "success"@) {
                Err(e) => Err(e),
                Ok(success) => match spec_get_string(o, "command"@) {
                    Err(e) => Err(e),
                    Ok(command) => match spec_get_string_optional(o, "message"@) {
                        Err(e) => Err(e),
                        Ok(message) => {
                            let body = spec_get_optional(o, "body"@);
                            let result = if success {
                                Ok(body)
                            } else {
                                Err(
                                    ProtocolResponseErrorV {
                                        message,
                                        body: match body {
                                            Some(JsonV::Object(e)) => match MessageV::dec(e) {
                                                Ok(m) => Some(m),
                                                Err(_) => None,
                                            },
                                            _ => None,
                                        },
                                    },
                                )
                            };
                            Ok(
                                ProtocolMessageV::Response(
                                    ProtocolResponseV { seq, request_seq, command, result },
                                ),
                            )
                        },
                    },
                },
            },
        }
    }

    /// The event shape: an event name and an optional raw body, passed
    /// through even when it is `null`.
    pub open spec fn dec_event(o: Seq<(Seq<char>, JsonV)>, seq: u64) -> Result<
        ProtocolMessageV,
        ErrorV,
    > {
        match spec_get_string(o, "event"@) {
            Err(e) => Err(e),
            Ok(event) => Ok(
                ProtocolMessageV::Event(
                    ProtocolEventV { seq, event, body: lookup(o, "body"@) },
                ),
            ),
        }
    }

    /// An envelope whose encoding decodes to itself.
    pub open spec fn wf(self) -> bool {
        match self {
            ProtocolMessageV::Request(r) => r.wf(),
            ProtocolMessageV::Response(r) => r.wf(),
            ProtocolMessageV::Event(e) => e.wf(),
        }
    }
}

impl ProtocolMessage {
    /// Encodes any envelope as a JSON value.
    pub fn into_json(self) -> (r: Json)
        ensures
            r.deep_view() == self.deep_view().enc(),
    {
        match self {
            ProtocolMessage::Request(r) => r.into_json(),
            ProtocolMessage::Response(r) => r.into_json(),
            ProtocolMessage::Event(e) => e.into_json(),
        }
    }

    /// Decodes a JSON value as an envelope.
    pub fn try_from(value: &Json) -> (r: Result<ProtocolMessage, Error>)
        ensures
            rdv(r) == ProtocolMessageV::dec(value.deep_view()),
    {
        let o = match value {
            Json::Object(o) => o,
            _ => {
                return Err(Error::new("protocolMessage", Cause::ExpectsObject));
            },
        };
        let seq = get_u64(o, "seq")?;
        let ty = get_str(o, "type")?;
        if str_eq(ty, "request") {
            let command = get_string(o, "command")?;
            let arguments = get_optional(o, "arguments");
            Ok(ProtocolMessage::Request(ProtocolRequest { seq, command, arguments }))
        } else if str_eq(ty, "response") {
            let request_seq = get_u64(o, "request_seq")?;
            let success = get_bool(o, "success")?;
            let command = get_string(o, "command")?;
            let message = get_string_optional(o, "message")?;
            let body = get_optional(o, "body");
            let result = if success {
                Ok(body)
            } else {
                let parsed = match &body {
                    Some(Json::Object(e)) => match Message::try_from(e) {
                        Ok(m) => Some(m),
                        Err(_) => None,
                    },
                    _ => None,
                };
                Err(ProtocolResponseError { message, body: parsed })
            };
            Ok(ProtocolMessage::Response(ProtocolResponse { seq, request_seq, command, result }))
        } else if str_eq(ty, "event") {
            let event = get_string(o, "event")?;
            let body = match crate::json::obj_get(o, "body") {
                Some(b) => Some(b.clone()),
                None => None,
            };
            Ok(ProtocolMessage::Event(ProtocolEvent { seq, event, body }))
        } else {
            Err(Error::new("protocolMessage", Cause::ExpectsEnum))
        }
    }
}

/// The lengths of the envelope attribute names, and the characters that tell
/// the same-length ones apart.
proof fn lemma_envelope_keys()
    ensures
        "seq"@.len() == 3,
        "type"@.len() == 4,
        "command"@.len() == 7,
        "arguments"@.len() == 9,
        "request_seq"@.len() == 11,
        "success"@.len() == 7,
        "message"@.len() == 7,
        "body"@.len() == 4,
        "event"@.len() == 5,
        "request"@.len() == 7,
        "response"@.len() == 8,
        "event"@ != "request"@,
        "event"@ != "response"@,
        "type"@ != "body"@,
        "success"@ != "command"@,
        "success"@ != "message"@,
        "command"@ != "message"@,
{
    reveal_strlit("seq");
    reveal_strlit("type");
    reveal_strlit("command");
    reveal_strlit("arguments");
    reveal_strlit("request_seq");
    reveal_strlit("success");
    reveal_strlit("message");
    reveal_strlit("body");
    reveal_strlit("event");
    reveal_strlit("request");
    reveal_strlit("response");
    assert("type"@[0] != "body"@[0]);
    assert("success"@[0] != "command"@[0]);
    assert("success"@[0] != "message"@[0]);
    assert("command"@[0] != "message"@[0]);
}

/// A request envelope's encoding decodes to the envelope.
proof fn lemma_request_env_roundtrip(r: ProtocolRequestV)
    requires
        r.wf(),
    ensures
        ProtocolMessageV::dec(JsonV::Object(r.enc())) == Ok::<ProtocolMessageV, ErrorV>(
            ProtocolMessageV::Request(r),
        ),
{
    broadcast use crate::utils::group_lookup_attrs;

    lemma_envelope_keys();
    let o = r.enc();
    assert(lookup(o, "seq"@) == Some(JsonV::U64(r.seq)));
    assert(lookup(o, "type"@) == Some(JsonV::Text("request"@)));
    assert(lookup(o, "command"@) == Some(JsonV::Text(r.command)));
    assert(spec_get_optional(o, "arguments"@) == r.arguments);
}

/// An event envelope's encoding decodes to the envelope.
proof fn lemma_event_env_roundtrip(e: ProtocolEventV)
    requires
        e.wf(),
    ensures
        ProtocolMessageV::dec(JsonV::Object(e.enc())) == Ok::<ProtocolMessageV, ErrorV>(
            ProtocolMessageV::Event(e),
        ),
{
    broadcast use crate::utils::group_lookup_attrs;

    lemma_envelope_keys();
    let o = e.enc();
    assert(lookup(o, "seq"@) == Some(JsonV::U64(e.seq)));
    assert(lookup(o, "type"@) == Some(JsonV::Text("event"@)));
    assert(lookup(o, "event"@) == Some(JsonV::Text(e.event)));
    assert(lookup(o, "body"@) == e.body);
}

/// A response envelope's encoding decodes to the envelope.
proof fn lemma_response_env_roundtrip(r: ProtocolResponseV)
    requires
        r.wf(),
    ensures
        ProtocolMessageV::dec(JsonV::Object(r.enc())) == Ok::<ProtocolMessageV, ErrorV>(
            ProtocolMessageV::Response(r),
        ),
{
    broadcast use crate::utils::group_lookup_attrs;

    lemma_envelope_keys();
    let o = r.enc();
    assert(lookup(o, "seq"@) == Some(JsonV::U64(r.seq)));
    assert(lookup(o, "type"@) == Some(JsonV::Text("response"@)));
    assert(lookup(o, "request_seq"@) == Some(JsonV::U64(r.request_seq)));
    assert(lookup(o, "success"@) == Some(JsonV::Bool(r.result is Ok)));
    assert(lookup(o, "command"@) == Some(JsonV::Text(r.command)));
    match r.result {
        Ok(b) => {
            assert(lookup(o, "message"@) is None);
            assert(spec_get_optional(o, "body"@) == b);
        },
        Err(e) => {
            assert(lookup(o, "message"@) == match e.message {
                Some(s) => Some(JsonV::Text(s)),
                None => None,
            });
            match e.body {
                Some(m) => {
                    assert(spec_get_optional(o, "body"@) == Some(JsonV::Object(m.enc())));
                    crate::types::lemma_message_roundtrip(m);
                },
                None => {
                    assert(spec_get_optional(o, "body"@) is None);
                },
            }
        },
    }
}

/// Decoding an encoded envelope gives the envelope back, for every envelope
/// whose optional raw payloads are not an explicit `null` and whose error
/// body, if any, round-trips.
pub proof fn lemma_protocol_roundtrip(m: ProtocolMessageV)
    requires
        m.wf(),
    ensures
        ProtocolMessageV::dec(m.enc()) == Ok::<ProtocolMessageV, ErrorV>(m),
{
    match m {
        ProtocolMessageV::Request(r) => lemma_request_env_roundtrip(r),
        ProtocolMessageV::Response(r) => lemma_response_env_roundtrip(r),
        ProtocolMessageV::Event(e) => lemma_event_env_roundtrip(e),
    }
}

/// Re-encoding a decoded envelope is semantically faithful: the re-encoded
/// object decodes to the same envelope as the original object, though elided
/// defaults may make the two objects differ textually.
pub proof fn lemma_decode_encode_faithful(j: JsonV, m: ProtocolMessageV)
    requires
        ProtocolMessageV::dec(j) == Ok::<ProtocolMessageV, ErrorV>(m),
        m.wf(),
    ensures
        ProtocolMessageV::dec(m.enc()) == ProtocolMessageV::dec(j),
{
    lemma_protocol_roundtrip(m);
}

/// Every envelope decode error names the attribute at fault.
pub proof fn lemma_decode_error_names_attribute(j: JsonV)
    ensures
        ProtocolMessageV::dec(j) matches Err(e) ==> (e.attribute == "protocolMessage"@
            || e.attribute == "seq"@ || e.attribute == "type"@ || e.attribute == "command"@
            || e.attribute == "request_seq"@ || e.attribute == "success"@ || e.attribute
            == "message"@ || e.attribute == "event"@),
{
}

} // verus!
