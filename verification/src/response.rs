//! Server-to-client responses and client-to-server reverse responses: the
//! typed catalogs and their codecs to and from the response envelope.

use vstd::prelude::*;

use crate::error::{Cause, Error, ErrorV};
use crate::json::{entries_dv, str_eq, Json, JsonV};
use crate::models::{
    BreakpointLocationsResponse, BreakpointLocationsResponseV, ContinueResponse,
    ContinueResponseV, EvaluateResponse, EvaluateResponseV, ExceptionInfoResponse,
    ExceptionInfoResponseV, InitializeResponse, LoadedSourcesResponse, LoadedSourcesResponseV,
    SetBreakpointsResponse, SetBreakpointsResponseV,
};
use crate::protocol::{
    ProtocolResponse, ProtocolResponseError, ProtocolResponseErrorV, ProtocolResponseV,
};
use crate::types::CapabilitiesV;
use crate::utils::{
    attribute_u32_optional, errv, get_u32_optional, rdv, spec_attr_u32_optional,
    spec_get_u32_optional, JsonObject,
};

verus! {

broadcast use
    vstd::std_specs::vec::group_vec_axioms,
    crate::json::group_json_dv,
    vstd::string::group_string_axioms,
;

/// The answer a backend gives to a client request. A failure is expressed as
/// the `Error` variant whatever the command was.
#[derive(Debug, PartialEq, Eq)]
pub enum Response {
    Error { command: String, error: ProtocolResponseError },
    Attach,
    Restart,
    Disconnect,
    Terminate,
    BreakpointLocations { body: Option<BreakpointLocationsResponse> },
    ConfigurationDone,
    Continue { body: ContinueResponse },
    Evaluate { body: EvaluateResponse },
    ExceptionInfo { body: ExceptionInfoResponse },
    Goto,
    Initialize { body: InitializeResponse },
    Launch,
    LoadedSources { body: LoadedSourcesResponse },
    Next,
    ReverseContinue,
    SetBreakpoints { body: SetBreakpointsResponse },
    StepBack,
}

/// Model of a [`Response`].
pub enum ResponseV {
    Error { command: Seq<char>, error: ProtocolResponseErrorV },
    Attach,
    Restart,
    Disconnect,
    Terminate,
    BreakpointLocations { body: Option<BreakpointLocationsResponseV> },
    ConfigurationDone,
    Continue { body: ContinueResponseV },
    Evaluate { body: EvaluateResponseV },
    ExceptionInfo { body: ExceptionInfoResponseV },
    Goto,
    Initialize { body: CapabilitiesV },
    Launch,
    LoadedSources { body: LoadedSourcesResponseV },
    Next,
    ReverseContinue,
    SetBreakpoints { body: SetBreakpointsResponseV },
    StepBack,
}

impl DeepView for Response {
    type V = ResponseV;

    open spec fn deep_view(&self) -> ResponseV {
        match self {
            Response::Error { command, error } => ResponseV::Error {
                command: command@,
                error: error.deep_view(),
            },
            Response::Attach => ResponseV::Attach,
            Response::Restart => ResponseV::Restart,
            Response::Disconnect => ResponseV::Disconnect,
            Response::Terminate => ResponseV::Terminate,
            Response::BreakpointLocations { body } => ResponseV::BreakpointLocations {
                body: body.deep_view(),
            },
            Response::ConfigurationDone => ResponseV::ConfigurationDone,
            Response::Continue { body } => ResponseV::Continue { body: body.deep_view() },
            Response::Evaluate { body } => ResponseV::Evaluate { body: body.deep_view() },
            Response::ExceptionInfo { body } => ResponseV::ExceptionInfo {
                body: body.deep_view(),
            },
            Response::Goto => ResponseV::Goto,
            Response::Initialize { body } => ResponseV::Initialize { body: body.deep_view() },
            Response::Launch => ResponseV::Launch,
            Response::LoadedSources { body } => ResponseV::LoadedSources {
                body: body.deep_view(),
            },
            Response::Next => ResponseV::Next,
            Response::ReverseContinue => ResponseV::ReverseContinue,
            Response::SetBreakpoints { body } => ResponseV::SetBreakpoints {
                body: body.deep_view(),
            },
            Response::StepBack => ResponseV::StepBack,
        }
    }
}

impl ResponseV {
    /// The wire command of each response.
    pub open spec fn command(self) -> Seq<char> {
        match self {
            ResponseV::Error { command, .. } => command,
            ResponseV::Attach => "attach"@,
            ResponseV::Restart => "restart"@,
            ResponseV::Disconnect => "disconnect"@,
            ResponseV::Terminate => "terminate"@,
            ResponseV::BreakpointLocations { .. } => "breakpointLocations"@,
            ResponseV::ConfigurationDone => "configurationDone"@,
            ResponseV::Continue { .. } => "continue"@,
            ResponseV::Evaluate { .. } => "evaluate"@,
            ResponseV::ExceptionInfo { .. } => "exceptionInfo"@,
            ResponseV::Goto => "goto"@,
            ResponseV::Initialize { .. } => "initialize"@,
            ResponseV::Launch => "launch"@,
            ResponseV::LoadedSources { .. } => "loadedSources"@,
            ResponseV::Next => "next"@,
            ResponseV::ReverseContinue => "reverseContinue"@,
            ResponseV::SetBreakpoints { .. } => "setBreakpoints"@,
            ResponseV::StepBack => "stepBack"@,
        }
    }

    /// The result each response carries: an error, a typed body, or no body
    /// at all for the commands that answer with none.
    pub open spec fn result(self) -> Result<Option<JsonV>, ProtocolResponseErrorV> {
        match self {
            ResponseV::Error { error, .. } => Err(error),
            ResponseV::Attach => Ok(None),
            ResponseV::Restart => Ok(None),
            ResponseV::Disconnect => Ok(None),
            ResponseV::Terminate => Ok(None),
            ResponseV::BreakpointLocations { body } => Ok(
                match body {
                    Some(b) => Some(JsonV::Object(b.enc())),
                    None => None,
                },
            ),
            ResponseV::ConfigurationDone => Ok(None),
            ResponseV::Continue { body } => Ok(Some(JsonV::Object(body.enc()))),
            ResponseV::Evaluate { body } => Ok(Some(JsonV::Object(body.enc()))),
            ResponseV::ExceptionInfo { body } => Ok(Some(JsonV::Object(body.enc()))),
            ResponseV::Goto => Ok(None),
            ResponseV::Initialize { body } => Ok(Some(JsonV::Object(body.enc()))),
            ResponseV::Launch => Ok(None),
            ResponseV::LoadedSources { body } => Ok(Some(JsonV::Object(body.enc()))),
            ResponseV::Next => Ok(None),
            ResponseV::ReverseContinue => Ok(None),
            ResponseV::SetBreakpoints { body } => Ok(Some(JsonV::Object(body.enc()))),
            ResponseV::StepBack => Ok(None),
        }
    }

    /// What decoding a response envelope yields: a failed result becomes the
    /// `Error` variant whatever the command; a successful one is shaped by
    /// its command, which also decides whether a body is owed.
    pub open spec fn dec(re: ProtocolResponseV) -> Result<ResponseV, ErrorV> {
        match re.result {
            Err(e) => Ok(ResponseV::Error { command: re.command, error: e }),
            Ok(body) => Self::dec_success(re.command, body),
        }
    }

    /// The required body of a command that carries one: absent is a missing
    /// mandatory result, anything but an object is the wrong kind.
    pub open spec fn dec_body(body: Option<JsonV>) -> Result<Seq<(Seq<char>, JsonV)>, ErrorV> {
        match body {
            None => Err(errv("result"@, Cause::IsMandatory)),
            Some(JsonV::Object(o)) => Ok(o),
            Some(_) => Err(errv("result"@, Cause::MustBeObject)),
        }
    }

    /// The shape of a successful response, selected by the command: a
    /// command that answers without a typed body yields its variant whatever
    /// the body holds, and the rest require an object body of their shape.
    pub open spec fn dec_success(command: Seq<char>, body: Option<JsonV>) -> Result<
        ResponseV,
        ErrorV,
    > {
        if command == "attach"@ {
            Ok(ResponseV::Attach)
        } else if command == "restart"@ {
            Ok(ResponseV::Restart)
        } else if command == "disconnect"@ {
            Ok(ResponseV::Disconnect)
        } else if command == "terminate"@ {
            Ok(ResponseV::Terminate)
        } else if command == "breakpointLocations"@ {
            match body {
                None => Ok(ResponseV::BreakpointLocations { body: None }),
                Some(JsonV::Object(o)) => match BreakpointLocationsResponseV::dec(o) {
                    Err(e) => Err(e),
                    Ok(b) => Ok(ResponseV::BreakpointLocations { body: Some(b) }),
                },
                Some(_) => Err(errv("result"@, Cause::MustBeObject)),
            }
        } else if command == "configurationDone"@ {
            Ok(ResponseV::ConfigurationDone)
        } else if command == "continue"@ {
            match Self::dec_body(body) {
                Err(e) => Err(e),
                Ok(o) => match ContinueResponseV::dec(o) {
                    Err(e) => Err(e),
                    Ok(b) => Ok(ResponseV::Continue { body: b }),
                },
            }
        } else if command == "evaluate"@ {
            match Self::dec_body(body) {
                Err(e) => Err(e),
                Ok(o) => match EvaluateResponseV::dec(o) {
                    Err(e) => Err(e),
                    Ok(b) => Ok(ResponseV::Evaluate { body: b }),
                },
            }
        } else if command == "exceptionInfo"@ {
            match Self::dec_body(body) {
                Err(e) => Err(e),
                Ok(o) => match ExceptionInfoResponseV::dec(o) {
                    Err(e) => Err(e),
                    Ok(b) => Ok(ResponseV::ExceptionInfo { body: b }),
                },
            }
        } else if command == "goto"@ {
            Ok(ResponseV::Goto)
        } else if command == "initialize"@ {
            match Self::dec_body(body) {
                Err(e) => Err(e),
                Ok(o) => match CapabilitiesV::dec(o) {
                    Err(e) => Err(e),
                    Ok(b) => Ok(ResponseV::Initialize { body: b }),
                },
            }
        } else if command == "launch"@ {
            Ok(ResponseV::Launch)
        } else if command == "loadedSources"@ {
            match Self::dec_body(body) {
                Err(e) => Err(e),
                Ok(o) => match LoadedSourcesResponseV::dec(o) {
                    Err(e) => Err(e),
                    Ok(b) => Ok(ResponseV::LoadedSources { body: b }),
                },
            }
        } else if command == "next"@ {
            Ok(ResponseV::Next)
        } else if command == "reverseContinue"@ {
            Ok(ResponseV::ReverseContinue)
        } else if command == "setBreakpoints"@ {
            match Self::dec_body(body) {
                Err(e) => Err(e),
                Ok(o) => match SetBreakpointsResponseV::dec(o) {
                    Err(e) => Err(e),
                    Ok(b) => Ok(ResponseV::SetBreakpoints { body: b }),
                },
            }
        } else if command == "stepBack"@ {
            Ok(ResponseV::StepBack)
        } else {
            Err(errv("response"@, Cause::ExpectsEnum))
        }
    }
}

impl Response {
    /// Wraps this response in a protocol envelope bearing `seq`, answering
    /// the request whose `seq` was `request_seq`.
    #[verifier::rlimit(100)]
    pub fn into_protocol(self, seq: u64, request_seq: u64) -> (r: ProtocolResponse)
        ensures
            r.deep_view() == (ProtocolResponseV {
                seq,
                request_seq,
                command: self.deep_view().command(),
                result: self.deep_view().result(),
            }),
    {
        match self {
            Response::Error { command, error } => ProtocolResponse {
                seq,
                request_seq,
                command,
                result: Err(error),
            },
            Response::Attach => ProtocolResponse {
                seq,
                request_seq,
                command: "attach".to_owned(),
                result: Ok(None),
            },
            Response::Restart => ProtocolResponse {
                seq,
                request_seq,
                command: "restart".to_owned(),
                result: Ok(None),
            },
            Response::Disconnect => ProtocolResponse {
                seq,
                request_seq,
                command: "disconnect".to_owned(),
                result: Ok(None),
            },
            Response::Terminate => ProtocolResponse {
                seq,
                request_seq,
                command: "terminate".to_owned(),
                result: Ok(None),
            },
            Response::BreakpointLocations { body } => ProtocolResponse {
                seq,
                request_seq,
                command: "breakpointLocations".to_owned(),
                result: Ok(
                    match body {
                        Some(b) => Some(b.into_json()),
                        None => None,
                    },
                ),
            },
            Response::ConfigurationDone => ProtocolResponse {
                seq,
                request_seq,
                command: "configurationDone".to_owned(),
                result: Ok(None),
            },
            Response::Continue { body } => ProtocolResponse {
                seq,
                request_seq,
                command: "continue".to_owned(),
                result: Ok(Some(body.into_json())),
            },
            Response::Evaluate { body } => ProtocolResponse {
                seq,
                request_seq,
                command: "evaluate".to_owned(),
                result: Ok(Some(body.into_json())),
            },
            Response::ExceptionInfo { body } => ProtocolResponse {
                seq,
                request_seq,
                command: "exceptionInfo".to_owned(),
                result: Ok(Some(body.into_json())),
            },
            Response::Goto => ProtocolResponse {
                seq,
                request_seq,
                command: "goto".to_owned(),
                result: Ok(None),
            },
            Response::Initialize { body } => ProtocolResponse {
                seq,
                request_seq,
                command: "initialize".to_owned(),
                result: Ok(Some(body.into_json())),
            },
            Response::Launch => ProtocolResponse {
                seq,
                request_seq,
                command: "launch".to_owned(),
                result: Ok(None),
            },
            Response::LoadedSources { body } => ProtocolResponse {
                seq,
                request_seq,
                command: "loadedSources".to_owned(),
                result: Ok(Some(body.into_json())),
            },
            Response::Next => ProtocolResponse {
                seq,
                request_seq,
                command: "next".to_owned(),
                result: Ok(None),
            },
            Response::ReverseContinue => ProtocolResponse {
                seq,
                request_seq,
                command: "reverseContinue".to_owned(),
                result: Ok(None),
            },
            Response::SetBreakpoints { body } => ProtocolResponse {
                seq,
                request_seq,
                command: "setBreakpoints".to_owned(),
                result: Ok(Some(body.into_json())),
            },
            Response::StepBack => ProtocolResponse {
                seq,
                request_seq,
                command: "stepBack".to_owned(),
                result: Ok(None),
            },
        }
    }

    /// Reads a typed response out of a protocol envelope. A failed envelope
    /// yields the `Error` variant whatever its command says; a successful
    /// one owes a body exactly where its command defines one.
    #[verifier::rlimit(100)]
    pub fn try_from(re: &ProtocolResponse) -> (r: Result<Response, Error>)
        ensures
            rdv(r) == ResponseV::dec(re.deep_view()),
    {
        let body = match &re.result {
            Err(e) => {
                return Ok(
                    Response::Error {
                        command: re.command.clone(),
                        error: ProtocolResponseError {
                            message: match &e.message {
                                Some(m) => Some(m.clone()),
                                None => None,
                            },
                            body: match &e.body {
                                Some(m) => Some(m.clone()),
                                None => None,
                            },
                        },
                    },
                );
            },
            Ok(b) => b,
        };
        if str_eq(re.command.as_str(), "attach") {
            Ok(Response::Attach)
        } else if str_eq(re.command.as_str(), "restart") {
            Ok(Response::Restart)
        } else if str_eq(re.command.as_str(), "disconnect") {
            Ok(Response::Disconnect)
        } else if str_eq(re.command.as_str(), "terminate") {
            Ok(Response::Terminate)
        } else if str_eq(re.command.as_str(), "breakpointLocations") {
            match body {
                None => Ok(Response::BreakpointLocations { body: None }),
                Some(Json::Object(o)) => {
                    let b = BreakpointLocationsResponse::try_from(o)?;
                    Ok(Response::BreakpointLocations { body: Some(b) })
                },
                Some(_) => Err(Error::new("result", Cause::MustBeObject)),
            }
        } else if str_eq(re.command.as_str(), "configurationDone") {
            Ok(Response::ConfigurationDone)
        } else if str_eq(re.command.as_str(), "continue") {
            let o = Self::body_object(body)?;
            let b = ContinueResponse::try_from(o)?;
            Ok(Response::Continue { body: b })
        } else if str_eq(re.command.as_str(), "evaluate") {
            let o = Self::body_object(body)?;
            let b = EvaluateResponse::try_from(o)?;
            Ok(Response::Evaluate { body: b })
        } else if str_eq(re.command.as_str(), "exceptionInfo") {
            let o = Self::body_object(body)?;
            let b = ExceptionInfoResponse::try_from(o)?;
            Ok(Response::ExceptionInfo { body: b })
        } else if str_eq(re.command.as_str(), "goto") {
            Ok(Response::Goto)
        } else if str_eq(re.command.as_str(), "initialize") {
            let o = Self::body_object(body)?;
            let b = crate::types::Capabilities::try_from(o)?;
            Ok(Response::Initialize { body: b })
        } else if str_eq(re.command.as_str(), "launch") {
            Ok(Response::Launch)
        } else if str_eq(re.command.as_str(), "loadedSources") {
            let o = Self::body_object(body)?;
            let b = LoadedSourcesResponse::try_from(o)?;
            Ok(Response::LoadedSources { body: b })
        } else if str_eq(re.command.as_str(), "next") {
            Ok(Response::Next)
        } else if str_eq(re.command.as_str(), "reverseContinue") {
            Ok(Response::ReverseContinue)
        } else if str_eq(re.command.as_str(), "setBreakpoints") {
            let o = Self::body_object(body)?;
            let b = SetBreakpointsResponse::try_from(o)?;
            Ok(Response::SetBreakpoints { body: b })
        } else if str_eq(re.command.as_str(), "stepBack") {
            Ok(Response::StepBack)
        } else {
            Err(Error::new("response", Cause::ExpectsEnum))
        }
    }

    /// The required body of a command that carries one.
    fn body_object(body: &Option<Json>) -> (r: Result<&JsonObject, Error>)
        ensures
            match r {
                Ok(o) => ResponseV::dec_body(body.deep_view()) == Ok::<_, ErrorV>(
                    crate::json::entries_dv(o@),
                ),
                Err(e) => ResponseV::dec_body(body.deep_view()) == Err::<
                    Seq<(Seq<char>, JsonV)>,
                    _,
                >(e.deep_view()),
            },
    {
        match body {
            None => Err(Error::new("result", Cause::IsMandatory)),
            Some(Json::Object(o)) => Ok(o),
            Some(_) => Err(Error::new("result", Cause::MustBeObject)),
        }
    }
}

/// The lengths of the response commands, and the characters that tell the
/// same-length ones apart, as the decoder's dispatch needs them.
proof fn lemma_response_commands()
    ensures
        "attach"@.len() == 6,
        "restart"@.len() == 7,
        "disconnect"@.len() == 10,
        "terminate"@.len() == 9,
        "breakpointLocations"@.len() == 19,
        "configurationDone"@.len() == 17,
        "continue"@.len() == 8,
        "evaluate"@.len() == 8,
        "exceptionInfo"@.len() == 13,
        "goto"@.len() == 4,
        "initialize"@.len() == 10,
        "launch"@.len() == 6,
        "loadedSources"@.len() == 13,
        "next"@.len() == 4,
        "reverseContinue"@.len() == 15,
        "setBreakpoints"@.len() == 14,
        "stepBack"@.len() == 8,
        "attach"@ != "launch"@,
        "continue"@ != "evaluate"@,
        "continue"@ != "stepBack"@,
        "evaluate"@ != "stepBack"@,
        "disconnect"@ != "initialize"@,
        "exceptionInfo"@ != "loadedSources"@,
        "goto"@ != "next"@,
{
    reveal_strlit("attach");
    reveal_strlit("restart");
    reveal_strlit("disconnect");
    reveal_strlit("terminate");
    reveal_strlit("breakpointLocations");
    reveal_strlit("configurationDone");
    reveal_strlit("continue");
    reveal_strlit("evaluate");
    reveal_strlit("exceptionInfo");
    reveal_strlit("goto");
    reveal_strlit("initialize");
    reveal_strlit("launch");
    reveal_strlit("loadedSources");
    reveal_strlit("next");
    reveal_strlit("reverseContinue");
    reveal_strlit("setBreakpoints");
    reveal_strlit("stepBack");
    assert("attach"@[0] != "launch"@[0]);
    assert("continue"@[0] != "evaluate"@[0]);
    assert("continue"@[0] != "stepBack"@[0]);
    assert("evaluate"@[0] != "stepBack"@[0]);
    assert("disconnect"@[0] != "initialize"@[0]);
    assert("exceptionInfo"@[0] != "loadedSources"@[0]);
    assert("goto"@[0] != "next"@[0]);
}

/// A response that carries no typed body — an error, a unit command's
/// answer, or breakpoint locations withheld — decodes from its own envelope
/// back to itself.
pub proof fn lemma_bodyless_response_roundtrip(r: ResponseV, seq: u64, request_seq: u64)
    requires
        r is Error || r is Attach || r is Restart || r is Disconnect || r is Terminate || (
        r matches ResponseV::BreakpointLocations { body: None }) || r is ConfigurationDone
            || r is Goto || r is Launch || r is Next || r is ReverseContinue || r is StepBack,
    ensures
        ResponseV::dec(
            ProtocolResponseV { seq, request_seq, command: r.command(), result: r.result() },
        ) == Ok::<ResponseV, ErrorV>(r),
{
    lemma_response_commands();
}

/// A failed response envelope decodes to the `Error` variant, whatever its
/// command says.
pub proof fn lemma_failed_response_is_error(re: ProtocolResponseV)
    requires
        re.result is Err,
    ensures
        ResponseV::dec(re) == Ok::<ResponseV, ErrorV>(
            ResponseV::Error { command: re.command, error: re.result->Err_0 },
        ),
{
}

/// The client's answer to a reverse request.
#[derive(Debug, PartialEq, Eq)]
pub enum ReverseResponse {
    Error { command: String, error: ProtocolResponseError },
    RunInTerminal { process_id: Option<u32>, shell_process_id: Option<u32> },
}

/// Model of a [`ReverseResponse`].
pub enum ReverseResponseV {
    Error { command: Seq<char>, error: ProtocolResponseErrorV },
    RunInTerminal { process_id: Option<u32>, shell_process_id: Option<u32> },
}

impl DeepView for ReverseResponse {
    type V = ReverseResponseV;

    open spec fn deep_view(&self) -> ReverseResponseV {
        match self {
            ReverseResponse::Error { command, error } => ReverseResponseV::Error {
                command: command@,
                error: error.deep_view(),
            },
            ReverseResponse::RunInTerminal { process_id, shell_process_id } => {
                ReverseResponseV::RunInTerminal {
                    process_id: *process_id,
                    shell_process_id: *shell_process_id,
                }
            },
        }
    }
}

impl ReverseResponseV {
    /// The wire command of each reverse response.
    pub open spec fn command(self) -> Seq<char> {
        match self {
            ReverseResponseV::Error { command, .. } => command,
            ReverseResponseV::RunInTerminal { .. } => "runInTerminal"@,
        }
    }

    /// The result each reverse response carries.
    pub open spec fn result(self) -> Result<Option<JsonV>, ProtocolResponseErrorV> {
        match self {
            ReverseResponseV::Error { error, .. } => Err(error),
            ReverseResponseV::RunInTerminal { process_id, shell_process_id } => {
                let s = Seq::<(Seq<char>, JsonV)>::empty();
                let s = spec_attr_u32_optional(s, "processId"@, process_id);
                let s = spec_attr_u32_optional(s, "shellProcessId"@, shell_process_id);
                Ok(Some(JsonV::Object(s)))
            },
        }
    }

    /// What decoding a reverse-response envelope yields.
    pub open spec fn dec(re: ProtocolResponseV) -> Result<ReverseResponseV, ErrorV> {
        match re.result {
            Err(e) => Ok(ReverseResponseV::Error { command: re.command, error: e }),
            Ok(body) => if re.command == "runInTerminal"@ {
                match body {
                    None => Err(errv("result"@, Cause::IsMandatory)),
                    Some(JsonV::Object(o)) => match spec_get_u32_optional(o, "processId"@) {
                        Err(e) => Err(e),
                        Ok(process_id) => match spec_get_u32_optional(o, "shellProcessId"@) {
                            Err(e) => Err(e),
                            Ok(shell_process_id) => Ok(
                                ReverseResponseV::RunInTerminal { process_id, shell_process_id },
                            ),
                        },
                    },
                    Some(_) => Err(errv("result"@, Cause::MustBeObject)),
                }
            } else {
                Err(errv("reverseResponse"@, Cause::ExpectsEnum))
            },
        }
    }
}

impl ReverseResponse {
    /// Wraps this reverse response in a protocol envelope bearing `seq`.
    pub fn into_protocol(self, seq: u64, request_seq: u64) -> (r: ProtocolResponse)
        ensures
            r.deep_view() == (ProtocolResponseV {
                seq,
                request_seq,
                command: self.deep_view().command(),
                result: self.deep_view().result(),
            }),
    {
        match self {
            ReverseResponse::Error { command, error } => ProtocolResponse {
                seq,
                request_seq,
                command,
                result: Err(error),
            },
            ReverseResponse::RunInTerminal { process_id, shell_process_id } => {
                let mut o: JsonObject = Vec::new();
                proof {
                    assert(entries_dv(o@) =~= Seq::<(Seq<char>, JsonV)>::empty());
                }
                attribute_u32_optional(&mut o, "processId", process_id);
                attribute_u32_optional(&mut o, "shellProcessId", shell_process_id);
                ProtocolResponse {
                    seq,
                    request_seq,
                    command: "runInTerminal".to_owned(),
                    result: Ok(Some(Json::Object(o))),
                }
            },
        }
    }

    /// Reads a typed reverse response out of a protocol envelope. A failed
    /// envelope yields the `Error` variant whatever its command says.
    pub fn try_from(re: &ProtocolResponse) -> (r: Result<ReverseResponse, Error>)
        ensures
            rdv(r) == ReverseResponseV::dec(re.deep_view()),
    {
        let body = match &re.result {
            Err(e) => {
                return Ok(
                    ReverseResponse::Error {
                        command: re.command.clone(),
                        error: ProtocolResponseError {
                            message: match &e.message {
                                Some(m) => Some(m.clone()),
                                None => None,
                            },
                            body: match &e.body {
                                Some(m) => Some(m.clone()),
                                None => None,
                            },
                        },
                    },
                );
            },
            Ok(b) => b,
        };
        if str_eq(re.command.as_str(), "runInTerminal") {
            let o = match body {
                None => {
                    return Err(Error::new("result", Cause::IsMandatory));
                },
                Some(Json::Object(o)) => o,
                Some(_) => {
                    return Err(Error::new("result", Cause::MustBeObject));
                },
            };
            let process_id = get_u32_optional(o, "processId")?;
            let shell_process_id = get_u32_optional(o, "shellProcessId")?;
            Ok(ReverseResponse::RunInTerminal { process_id, shell_process_id })
        } else {
            Err(Error::new("reverseResponse", Cause::ExpectsEnum))
        }
    }
}

} // verus!
