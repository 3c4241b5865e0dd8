//! Client-to-server requests and server-to-client reverse requests: the
//! typed catalogs, their wire commands, and their codecs to and from the
//! request envelope.

use vstd::prelude::*;

use crate::error::{Cause, Error, ErrorV};
use crate::json::{entries_dv, str_eq, Json, JsonV};
use crate::models::{
    AttachArguments, AttachArgumentsV, BreakpointLocationsArguments, BreakpointLocationsArgumentsV,
    ConfigurationDoneArguments, ConfigurationDoneArgumentsV, ContinueArguments, ContinueArgumentsV,
    CustomAddBreakpointArguments, CustomAddBreakpointArgumentsV, CustomRemoveBreakpointArguments,
    CustomRemoveBreakpointArgumentsV, DisconnectArguments, DisconnectArgumentsV,
    EvaluateArguments, EvaluateArgumentsV, ExceptionInfoArguments, ExceptionInfoArgumentsV,
    GotoArguments, GotoArgumentsV, InitializeArguments, InitializeArgumentsV,
    LoadedSourcesArguments, LoadedSourcesArgumentsV, LaunchArguments, LaunchArgumentsV,
    NextArguments, NextArgumentsV, RestartArguments, RestartArgumentsV, ReverseContinueArguments,
    ReverseContinueArgumentsV, SetBreakpointsArguments, SetBreakpointsArgumentsV,
    StepBackArguments, StepBackArgumentsV, TerminateArguments, TerminateArgumentsV,
};
use crate::protocol::{ProtocolRequest, ProtocolRequestV};
use crate::utils::{
    attribute_array, attribute_bool_optional, attribute_map_or_null_optional, attribute_string,
    attribute_string_optional, errv, get_array_of_string, get_bool_optional,
    get_map_to_string_or_null_optional, get_str_optional, get_string, get_string_optional, rdv,
    spec_attr_array, spec_attr_bool_optional, spec_attr_map_or_null_optional, spec_attr_string,
    spec_attr_string_optional, spec_get_array_of_string, spec_get_bool_optional,
    spec_get_map_to_string_or_null_optional, spec_get_string, spec_get_string_optional,
    JsonObject,
};

verus! {

broadcast use
    vstd::std_specs::vec::group_vec_axioms,
    crate::json::group_json_dv,
    vstd::string::group_string_axioms,
;

/// A client-to-server request the library understands.
#[derive(Debug, PartialEq, Eq)]
pub enum Request {
    Attach { arguments: AttachArguments },
    Restart { arguments: Option<RestartArguments> },
    Disconnect { arguments: Option<DisconnectArguments> },
    Terminate { arguments: Option<TerminateArguments> },
    BreakpointLocations { arguments: Option<BreakpointLocationsArguments> },
    ConfigurationDone { arguments: Option<ConfigurationDoneArguments> },
    Continue { arguments: ContinueArguments },
    Evaluate { arguments: EvaluateArguments },
    ExceptionInfo { arguments: ExceptionInfoArguments },
    Goto { arguments: GotoArguments },
    Initialize { arguments: InitializeArguments },
    Launch { arguments: LaunchArguments },
    LoadedSources { arguments: Option<LoadedSourcesArguments> },
    Next { arguments: Option<NextArguments> },
    ReverseContinue { arguments: ReverseContinueArguments },
    SetBreakpoints { arguments: SetBreakpointsArguments },
    StepBack { arguments: StepBackArguments },
    CustomAddBreakpoint { arguments: CustomAddBreakpointArguments },
    CustomRemoveBreakpoint { arguments: CustomRemoveBreakpointArguments },
}

/// Model of a [`Request`].
pub enum RequestV {
    Attach { arguments: AttachArgumentsV },
    Restart { arguments: Option<RestartArgumentsV> },
    Disconnect { arguments: Option<DisconnectArgumentsV> },
    Terminate { arguments: Option<TerminateArgumentsV> },
    BreakpointLocations { arguments: Option<BreakpointLocationsArgumentsV> },
    ConfigurationDone { arguments: Option<ConfigurationDoneArgumentsV> },
    Continue { arguments: ContinueArgumentsV },
    Evaluate { arguments: EvaluateArgumentsV },
    ExceptionInfo { arguments: ExceptionInfoArgumentsV },
    Goto { arguments: GotoArgumentsV },
    Initialize { arguments: InitializeArgumentsV },
    Launch { arguments: LaunchArgumentsV },
    LoadedSources { arguments: Option<LoadedSourcesArgumentsV> },
    Next { arguments: Option<NextArgumentsV> },
    ReverseContinue { arguments: ReverseContinueArgumentsV },
    SetBreakpoints { arguments: SetBreakpointsArgumentsV },
    StepBack { arguments: StepBackArgumentsV },
    CustomAddBreakpoint { arguments: CustomAddBreakpointArgumentsV },
    CustomRemoveBreakpoint { arguments: CustomRemoveBreakpointArgumentsV },
}

impl DeepView for Request {
    type V = RequestV;

    open spec fn deep_view(&self) -> RequestV {
        match self {
            Request::Attach { arguments } => RequestV::Attach { arguments: arguments.deep_view() },
            Request::Restart { arguments } => RequestV::Restart {
                arguments: arguments.deep_view(),
            },
            Request::Disconnect { arguments } => RequestV::Disconnect {
                arguments: arguments.deep_view(),
            },
            Request::Terminate { arguments } => RequestV::Terminate {
                arguments: arguments.deep_view(),
            },
            Request::BreakpointLocations { arguments } => RequestV::BreakpointLocations {
                arguments: arguments.deep_view(),
            },
            Request::ConfigurationDone { arguments } => RequestV::ConfigurationDone {
                arguments: arguments.deep_view(),
            },
            Request::Continue { arguments } => RequestV::Continue {
                arguments: arguments.deep_view(),
            },
            Request::Evaluate { arguments } => RequestV::Evaluate {
                arguments: arguments.deep_view(),
            },
            Request::ExceptionInfo { arguments } => RequestV::ExceptionInfo {
                arguments: arguments.deep_view(),
            },
            Request::Goto { arguments } => RequestV::Goto { arguments: arguments.deep_view() },
            Request::Initialize { arguments } => RequestV::Initialize {
                arguments: arguments.deep_view(),
            },
            Request::Launch { arguments } => RequestV::Launch { arguments: arguments.deep_view() },
            Request::LoadedSources { arguments } => RequestV::LoadedSources {
                arguments: arguments.deep_view(),
            },
            Request::Next { arguments } => RequestV::Next { arguments: arguments.deep_view() },
            Request::ReverseContinue { arguments } => RequestV::ReverseContinue {
                arguments: arguments.deep_view(),
            },
            Request::SetBreakpoints { arguments } => RequestV::SetBreakpoints {
                arguments: arguments.deep_view(),
            },
            Request::StepBack { arguments } => RequestV::StepBack {
                arguments: arguments.deep_view(),
            },
            Request::CustomAddBreakpoint { arguments } => RequestV::CustomAddBreakpoint {
                arguments: arguments.deep_view(),
            },
            Request::CustomRemoveBreakpoint { arguments } => RequestV::CustomRemoveBreakpoint {
                arguments: arguments.deep_view(),
            },
        }
    }
}

impl RequestV {
    /// The wire command of each request.
    pub open spec fn command(self) -> Seq<char> {
        match self {
            RequestV::Attach { .. } => "attach"@,
            RequestV::Restart { .. } => "restart"@,
            RequestV::Disconnect { .. } => "disconnect"@,
            RequestV::Terminate { .. } => "terminate"@,
            RequestV::BreakpointLocations { .. } => "breakpointLocations"@,
            RequestV::ConfigurationDone { .. } => "configurationDone"@,
            RequestV::Continue { .. } => "continue"@,
            RequestV::Evaluate { .. } => "evaluate"@,
            RequestV::ExceptionInfo { .. } => "exceptionInfo"@,
            RequestV::Goto { .. } => "goto"@,
            RequestV::Initialize { .. } => "initialize"@,
            RequestV::Launch { .. } => "launch"@,
            RequestV::LoadedSources { .. } => "loadedSources"@,
            RequestV::Next { .. } => "next"@,
            RequestV::ReverseContinue { .. } => "reverseContinue"@,
            RequestV::SetBreakpoints { .. } => "setBreakpoints"@,
            RequestV::StepBack { .. } => "stepBack"@,
            RequestV::CustomAddBreakpoint { .. } => "customAddBreakpoint"@,
            RequestV::CustomRemoveBreakpoint { .. } => "customRemoveBreakpoint"@,
        }
    }

    /// The encoded arguments of each request.
    pub open spec fn args(self) -> Option<JsonV> {
        match self {
            RequestV::Attach { arguments } => Some(JsonV::Object(arguments.enc())),
            RequestV::Restart { arguments } => match arguments {
                Some(a) => Some(JsonV::Object(a.enc())),
                None => None,
            },
            RequestV::Disconnect { arguments } => match arguments {
                Some(a) => Some(JsonV::Object(a.enc())),
                None => None,
            },
            RequestV::Terminate { arguments } => match arguments {
                Some(a) => Some(JsonV::Object(a.enc())),
                None => None,
            },
            RequestV::BreakpointLocations { arguments } => match arguments {
                Some(a) => Some(JsonV::Object(a.enc())),
                None => None,
            },
            RequestV::ConfigurationDone { arguments } => match arguments {
                Some(a) => Some(JsonV::Object(a.enc())),
                None => None,
            },
            RequestV::Continue { arguments } => Some(JsonV::Object(arguments.enc())),
            RequestV::Evaluate { arguments } => Some(JsonV::Object(arguments.enc())),
            RequestV::ExceptionInfo { arguments } => Some(JsonV::Object(arguments.enc())),
            RequestV::Goto { arguments } => Some(JsonV::Object(arguments.enc())),
            RequestV::Initialize { arguments } => Some(JsonV::Object(arguments.enc())),
            RequestV::Launch { arguments } => Some(JsonV::Object(arguments.enc())),
            RequestV::LoadedSources { arguments } => match arguments {
                Some(a) => Some(JsonV::Object(a.enc())),
                None => None,
            },
            RequestV::Next { arguments } => match arguments {
                Some(a) => Some(JsonV::Object(a.enc())),
                None => None,
            },
            RequestV::ReverseContinue { arguments } => Some(JsonV::Object(arguments.enc())),
            RequestV::SetBreakpoints { arguments } => Some(JsonV::Object(arguments.enc())),
            RequestV::StepBack { arguments } => Some(JsonV::Object(arguments.enc())),
            RequestV::CustomAddBreakpoint { arguments } => Some(JsonV::Object(arguments.enc())),
            RequestV::CustomRemoveBreakpoint { arguments } => Some(JsonV::Object(arguments.enc())),
        }
    }

    /// What decoding a request envelope yields.
    pub open spec fn dec(rq: ProtocolRequestV) -> Result<RequestV, ErrorV> {
        let arguments = match rq.arguments {
            Some(JsonV::Object(e)) => Some(e),
            _ => None,
        };
        if rq.command == "attach"@ {
            match arguments {
                None => Err(errv("arguments"@, Cause::IsMandatory)),
                Some(o) => Ok(RequestV::Attach { arguments: AttachArgumentsV::dec(o) }),
            }
        } else if rq.command == "restart"@ {
            match arguments {
                None => Ok(RequestV::Restart { arguments: None }),
                Some(o) => match RestartArgumentsV::dec(o) {
                    Err(e) => Err(e),
                    Ok(a) => Ok(RequestV::Restart { arguments: Some(a) }),
                },
            }
        } else if rq.command == "disconnect"@ {
            match arguments {
                None => Ok(RequestV::Disconnect { arguments: None }),
                Some(o) => match DisconnectArgumentsV::dec(o) {
                    Err(e) => Err(e),
                    Ok(a) => Ok(RequestV::Disconnect { arguments: Some(a) }),
                },
            }
        } else if rq.command == "terminate"@ {
            match arguments {
                None => Ok(RequestV::Terminate { arguments: None }),
                Some(o) => match TerminateArgumentsV::dec(o) {
                    Err(e) => Err(e),
                    Ok(a) => Ok(RequestV::Terminate { arguments: Some(a) }),
                },
            }
        } else if rq.command == "breakpointLocations"@ {
            match arguments {
                None => Ok(RequestV::BreakpointLocations { arguments: None }),
                Some(o) => match BreakpointLocationsArgumentsV::dec(o) {
                    Err(e) => Err(e),
                    Ok(a) => Ok(RequestV::BreakpointLocations { arguments: Some(a) }),
                },
            }
        } else if rq.command == "configurationDone"@ {
            match arguments {
                None => Ok(RequestV::ConfigurationDone { arguments: None }),
                Some(_) => Ok(
                    RequestV::ConfigurationDone {
                        arguments: Some(ConfigurationDoneArgumentsV {  }),
                    },
                ),
            }
        } else if rq.command == "continue"@ {
            match arguments {
                None => Err(errv("arguments"@, Cause::IsMandatory)),
                Some(o) => match ContinueArgumentsV::dec(o) {
                    Err(e) => Err(e),
                    Ok(a) => Ok(RequestV::Continue { arguments: a }),
                },
            }
        } else if rq.command == "evaluate"@ {
            match arguments {
                None => Err(errv("arguments"@, Cause::IsMandatory)),
                Some(o) => match EvaluateArgumentsV::dec(o) {
                    Err(e) => Err(e),
                    Ok(a) => Ok(RequestV::Evaluate { arguments: a }),
                },
            }
        } else if rq.command == "exceptionInfo"@ {
            match arguments {
                None => Err(errv("arguments"@, Cause::IsMandatory)),
                Some(o) => match ExceptionInfoArgumentsV::dec(o) {
                    Err(e) => Err(e),
                    Ok(a) => Ok(RequestV::ExceptionInfo { arguments: a }),
                },
            }
        } else if rq.command == "goto"@ {
            match arguments {
                None => Err(errv("arguments"@, Cause::IsMandatory)),
                Some(o) => match GotoArgumentsV::dec(o) {
                    Err(e) => Err(e),
                    Ok(a) => Ok(RequestV::Goto { arguments: a }),
                },
            }
        } else if rq.command == "initialize"@ {
            match arguments {
                None => Err(errv("arguments"@, Cause::IsMandatory)),
                Some(o) => match InitializeArgumentsV::dec(o) {
                    Err(e) => Err(e),
                    Ok(a) => Ok(RequestV::Initialize { arguments: a }),
                },
            }
        } else if rq.command == "launch"@ {
            match arguments {
                None => Err(errv("arguments"@, Cause::IsMandatory)),
                Some(o) => match LaunchArgumentsV::dec(o) {
                    Err(e) => Err(e),
                    Ok(a) => Ok(RequestV::Launch { arguments: a }),
                },
            }
        } else if rq.command == "loadedSources"@ {
            match arguments {
                None => Ok(RequestV::LoadedSources { arguments: None }),
                Some(_) => Ok(
                    RequestV::LoadedSources { arguments: Some(LoadedSourcesArgumentsV {  }) },
                ),
            }
        } else if rq.command == "next"@ {
            match arguments {
                None => Ok(RequestV::Next { arguments: None }),
                Some(o) => match NextArgumentsV::dec(o) {
                    Err(e) => Err(e),
                    Ok(a) => Ok(RequestV::Next { arguments: Some(a) }),
                },
            }
        } else if rq.command == "reverseContinue"@ {
            match arguments {
                None => Err(errv("arguments"@, Cause::IsMandatory)),
                Some(o) => match ReverseContinueArgumentsV::dec(o) {
                    Err(e) => Err(e),
                    Ok(a) => Ok(RequestV::ReverseContinue { arguments: a }),
                },
            }
        } else if rq.command == "setBreakpoints"@ {
            match arguments {
                None => Err(errv("arguments"@, Cause::IsMandatory)),
                Some(o) => match SetBreakpointsArgumentsV::dec(o) {
                    Err(e) => Err(e),
                    Ok(a) => Ok(RequestV::SetBreakpoints { arguments: a }),
                },
            }
        } else if rq.command == "stepBack"@ {
            match arguments {
                None => Err(errv("arguments"@, Cause::IsMandatory)),
                Some(o) => match StepBackArgumentsV::dec(o) {
                    Err(e) => Err(e),
                    Ok(a) => Ok(RequestV::StepBack { arguments: a }),
                },
            }
        } else if rq.command == "customAddBreakpoint"@ {
            match arguments {
                None => Err(errv("arguments"@, Cause::IsMandatory)),
                Some(o) => match CustomAddBreakpointArgumentsV::dec(o) {
                    Err(e) => Err(e),
                    Ok(a) => Ok(RequestV::CustomAddBreakpoint { arguments: a }),
                },
            }
        } else if rq.command == "customRemoveBreakpoint"@ {
            match arguments {
                None => Err(errv("arguments"@, Cause::IsMandatory)),
                Some(o) => match CustomRemoveBreakpointArgumentsV::dec(o) {
                    Err(e) => Err(e),
                    Ok(a) => Ok(RequestV::CustomRemoveBreakpoint { arguments: a }),
                },
            }
        } else {
            Err(errv("request"@, Cause::ExpectsEnum))
        }
    }
}

impl Request {
    /// Wraps this request in a protocol envelope bearing `seq`.
    #[verifier::rlimit(100)]
    pub fn into_protocol(self, seq: u64) -> (r: ProtocolRequest)
        ensures
            r.deep_view() == (ProtocolRequestV {
                seq,
                command: self.deep_view().command(),
                arguments: self.deep_view().args(),
            }),
    {
        match self {
            Request::Attach { arguments } => ProtocolRequest {
                seq,
                command: "attach".to_owned(),
                arguments: Some(arguments.into_json()),
            },
            Request::Restart { arguments } => ProtocolRequest {
                seq,
                command: "restart".to_owned(),
                arguments: match arguments {
                    Some(a) => Some(a.into_json()),
                    None => None,
                },
            },
            Request::Disconnect { arguments } => ProtocolRequest {
                seq,
                command: "disconnect".to_owned(),
                arguments: match arguments {
                    Some(a) => Some(a.into_json()),
                    None => None,
                },
            },
            Request::Terminate { arguments } => ProtocolRequest {
                seq,
                command: "terminate".to_owned(),
                arguments: match arguments {
                    Some(a) => Some(a.into_json()),
                    None => None,
                },
            },
            Request::BreakpointLocations { arguments } => ProtocolRequest {
                seq,
                command: "breakpointLocations".to_owned(),
                arguments: match arguments {
                    Some(a) => Some(a.into_json()),
                    None => None,
                },
            },
            Request::ConfigurationDone { arguments } => ProtocolRequest {
                seq,
                command: "configurationDone".to_owned(),
                arguments: match arguments {
                    Some(a) => Some(a.into_json()),
                    None => None,
                },
            },
            Request::Continue { arguments } => ProtocolRequest {
                seq,
                command: "continue".to_owned(),
                arguments: Some(arguments.into_json()),
            },
            Request::Evaluate { arguments } => ProtocolRequest {
                seq,
                command: "evaluate".to_owned(),
                arguments: Some(arguments.into_json()),
            },
            Request::ExceptionInfo { arguments } => ProtocolRequest {
                seq,
                command: "exceptionInfo".to_owned(),
                arguments: Some(arguments.into_json()),
            },
            Request::Goto { arguments } => ProtocolRequest {
                seq,
                command: "goto".to_owned(),
                arguments: Some(arguments.into_json()),
            },
            Request::Initialize { arguments } => ProtocolRequest {
                seq,
                command: "initialize".to_owned(),
                arguments: Some(arguments.into_json()),
            },
            Request::Launch { arguments } => ProtocolRequest {
                seq,
                command: "launch".to_owned(),
                arguments: Some(arguments.into_json()),
            },
            Request::LoadedSources { arguments } => ProtocolRequest {
                seq,
                command: "loadedSources".to_owned(),
                arguments: match arguments {
                    Some(a) => Some(a.into_json()),
                    None => None,
                },
            },
            Request::Next { arguments } => ProtocolRequest {
                seq,
                command: "next".to_owned(),
                arguments: match arguments {
                    Some(a) => Some(a.into_json()),
                    None => None,
                },
            },
            Request::ReverseContinue { arguments } => ProtocolRequest {
                seq,
                command: "reverseContinue".to_owned(),
                arguments: Some(arguments.into_json()),
            },
            Request::SetBreakpoints { arguments } => ProtocolRequest {
                seq,
                command: "setBreakpoints".to_owned(),
                arguments: Some(arguments.into_json()),
            },
            Request::StepBack { arguments } => ProtocolRequest {
                seq,
                command: "stepBack".to_owned(),
                arguments: Some(arguments.into_json()),
            },
            Request::CustomAddBreakpoint { arguments } => ProtocolRequest {
                seq,
                command: "customAddBreakpoint".to_owned(),
                arguments: Some(arguments.into_json()),
            },
            Request::CustomRemoveBreakpoint { arguments } => ProtocolRequest {
                seq,
                command: "customRemoveBreakpoint".to_owned(),
                arguments: Some(arguments.into_json()),
            },
        }
    }

    /// Reads a typed request out of a protocol envelope.
    #[verifier::rlimit(100)]
    pub fn try_from(rq: &ProtocolRequest) -> (r: Result<Request, Error>)
        ensures
            rdv(r) == RequestV::dec(rq.deep_view()),
    {
        let arguments: Option<&JsonObject> = match &rq.arguments {
            Some(Json::Object(e)) => Some(e),
            _ => None,
        };
        if str_eq(rq.command.as_str(), "attach") {
            match arguments {
                None => Err(Error::new("arguments", Cause::IsMandatory)),
                Some(o) => Ok(Request::Attach { arguments: AttachArguments::from_object(o) }),
            }
        } else if str_eq(rq.command.as_str(), "restart") {
            match arguments {
                None => Ok(Request::Restart { arguments: None }),
                Some(o) => {
                    let a = RestartArguments::try_from(o)?;
                    Ok(Request::Restart { arguments: Some(a) })
                },
            }
        } else if str_eq(rq.command.as_str(), "disconnect") {
            match arguments {
                None => Ok(Request::Disconnect { arguments: None }),
                Some(o) => {
                    let a = DisconnectArguments::try_from(o)?;
                    Ok(Request::Disconnect { arguments: Some(a) })
                },
            }
        } else if str_eq(rq.command.as_str(), "terminate") {
            match arguments {
                None => Ok(Request::Terminate { arguments: None }),
                Some(o) => {
                    let a = TerminateArguments::try_from(o)?;
                    Ok(Request::Terminate { arguments: Some(a) })
                },
            }
        } else if str_eq(rq.command.as_str(), "breakpointLocations") {
            match arguments {
                None => Ok(Request::BreakpointLocations { arguments: None }),
                Some(o) => {
                    let a = BreakpointLocationsArguments::try_from(o)?;
                    Ok(Request::BreakpointLocations { arguments: Some(a) })
                },
            }
        } else if str_eq(rq.command.as_str(), "configurationDone") {
            match arguments {
                None => Ok(Request::ConfigurationDone { arguments: None }),
                Some(o) => Ok(
                    Request::ConfigurationDone {
                        arguments: Some(ConfigurationDoneArguments::from_object(o)),
                    },
                ),
            }
        } else if str_eq(rq.command.as_str(), "continue") {
            match arguments {
                None => Err(Error::new("arguments", Cause::IsMandatory)),
                Some(o) => {
                    let a = ContinueArguments::try_from(o)?;
                    Ok(Request::Continue { arguments: a })
                },
            }
        } else if str_eq(rq.command.as_str(), "evaluate") {
            match arguments {
                None => Err(Error::new("arguments", Cause::IsMandatory)),
                Some(o) => {
                    let a = EvaluateArguments::try_from(o)?;
                    Ok(Request::Evaluate { arguments: a })
                },
            }
        } else if str_eq(rq.command.as_str(), "exceptionInfo") {
            match arguments {
                None => Err(Error::new("arguments", Cause::IsMandatory)),
                Some(o) => {
                    let a = ExceptionInfoArguments::try_from(o)?;
                    Ok(Request::ExceptionInfo { arguments: a })
                },
            }
        } else if str_eq(rq.command.as_str(), "goto") {
            match arguments {
                None => Err(Error::new("arguments", Cause::IsMandatory)),
                Some(o) => {
                    let a = GotoArguments::try_from(o)?;
                    Ok(Request::Goto { arguments: a })
                },
            }
        } else if str_eq(rq.command.as_str(), "initialize") {
            match arguments {
                None => Err(Error::new("arguments", Cause::IsMandatory)),
                Some(o) => {
                    let a = InitializeArguments::try_from(o)?;
                    Ok(Request::Initialize { arguments: a })
                },
            }
        } else if str_eq(rq.command.as_str(), "launch") {
            match arguments {
                None => Err(Error::new("arguments", Cause::IsMandatory)),
                Some(o) => {
                    let a = LaunchArguments::try_from(o)?;
                    Ok(Request::Launch { arguments: a })
                },
            }
        } else if str_eq(rq.command.as_str(), "loadedSources") {
            match arguments {
                None => Ok(Request::LoadedSources { arguments: None }),
                Some(o) => Ok(
                    Request::LoadedSources {
                        arguments: Some(LoadedSourcesArguments::from_object(o)),
                    },
                ),
            }
        } else if str_eq(rq.command.as_str(), "next") {
            match arguments {
                None => Ok(Request::Next { arguments: None }),
                Some(o) => {
                    let a = NextArguments::try_from(o)?;
                    Ok(Request::Next { arguments: Some(a) })
                },
            }
        } else if str_eq(rq.command.as_str(), "reverseContinue") {
            match arguments {
                None => Err(Error::new("arguments", Cause::IsMandatory)),
                Some(o) => {
                    let a = ReverseContinueArguments::try_from(o)?;
                    Ok(Request::ReverseContinue { arguments: a })
                },
            }
        } else if str_eq(rq.command.as_str(), "setBreakpoints") {
            match arguments {
                None => Err(Error::new("arguments", Cause::IsMandatory)),
                Some(o) => {
                    let a = SetBreakpointsArguments::try_from(o)?;
                    Ok(Request::SetBreakpoints { arguments: a })
                },
            }
        } else if str_eq(rq.command.as_str(), "stepBack") {
            match arguments {
                None => Err(Error::new("arguments", Cause::IsMandatory)),
                Some(o) => {
                    let a = StepBackArguments::try_from(o)?;
                    Ok(Request::StepBack { arguments: a })
                },
            }
        } else if str_eq(rq.command.as_str(), "customAddBreakpoint") {
            match arguments {
                None => Err(Error::new("arguments", Cause::IsMandatory)),
                Some(o) => {
                    let a = CustomAddBreakpointArguments::try_from(o)?;
                    Ok(Request::CustomAddBreakpoint { arguments: a })
                },
            }
        } else if str_eq(rq.command.as_str(), "customRemoveBreakpoint") {
            match arguments {
                None => Err(Error::new("arguments", Cause::IsMandatory)),
                Some(o) => {
                    let a = CustomRemoveBreakpointArguments::try_from(o)?;
                    Ok(Request::CustomRemoveBreakpoint { arguments: a })
                },
            }
        } else {
            Err(Error::new("request", Cause::ExpectsEnum))
        }
    }
}

/// The lengths of the request commands, and the characters that tell the
/// same-length ones apart, as the decoder's dispatch needs them.
proof fn lemma_request_commands()
    ensures
        "attach"@.len() == 6,
        "restart"@.len() == 7,
        "disconnect"@.len() == 10,
        "terminate"@.len() == 9,
        "breakpointLocations"@.len() == 19,
        "configurationDone"@.len() == 17,
        "continue"@.len() == 8,
        "evaluate"@.len() == 8,
        "exceptionInfo"@.len() == 13,
        "goto"@.len() == 4,
        "initialize"@.len() == 10,
        "launch"@.len() == 6,
        "loadedSources"@.len() == 13,
        "next"@.len() == 4,
        "attach"@ != "launch"@,
        "continue"@ != "evaluate"@,
        "disconnect"@ != "initialize"@,
        "exceptionInfo"@ != "loadedSources"@,
        "goto"@ != "next"@,
{
    reveal_strlit("attach");
    reveal_strlit("restart");
    reveal_strlit("disconnect");
    reveal_strlit("terminate");
    reveal_strlit("breakpointLocations");
    reveal_strlit("configurationDone");
    reveal_strlit("continue");
    reveal_strlit("evaluate");
    reveal_strlit("exceptionInfo");
    reveal_strlit("goto");
    reveal_strlit("initialize");
    reveal_strlit("launch");
    reveal_strlit("loadedSources");
    reveal_strlit("next");
    assert("attach"@[0] != "launch"@[0]);
    assert("continue"@[0] != "evaluate"@[0]);
    assert("disconnect"@[0] != "initialize"@[0]);
    assert("exceptionInfo"@[0] != "loadedSources"@[0]);
    assert("goto"@[0] != "next"@[0]);
}

/// A request whose arguments carry no attributes — withheld optional
/// arguments, the argument-less commands, or an attach whose restart payload
/// is not an explicit `null` — decodes from its own envelope back to itself.
pub proof fn lemma_argumentless_request_roundtrip(r: RequestV, seq: u64)
    requires
        (r matches RequestV::Attach { arguments } && arguments.restart != Some(JsonV::Null)) || (
        r matches RequestV::Restart { arguments: None }) || (r matches RequestV::Disconnect {
            arguments: None,
        }) || (r matches RequestV::Terminate { arguments: None }) || (
        r matches RequestV::BreakpointLocations { arguments: None })
            || r is ConfigurationDone || r is LoadedSources || (r matches RequestV::Next {
            arguments: None,
        }),
    ensures
        RequestV::dec(ProtocolRequestV { seq, command: r.command(), arguments: r.args() }) == Ok::<
            RequestV,
            ErrorV,
        >(r),
{
    broadcast use crate::utils::group_lookup_attrs;

    lemma_request_commands();
    reveal_strlit("__restart");
    match r {
        RequestV::Attach { arguments } => {
            let o = arguments.enc();
            assert(crate::utils::spec_get_optional(o, "__restart"@) == arguments.restart);
        },
        _ => (),
    }
}

/// Which terminal a reverse `runInTerminal` request asks for: a closed set.
#[derive(Debug, Clone, Copy, PartialEq, Eq, Hash)]
pub enum RunInTerminalKind {
    Integrated,
    External,
}

impl DeepView for RunInTerminalKind {
    type V = RunInTerminalKind;

    open spec fn deep_view(&self) -> RunInTerminalKind {
        *self
    }
}

impl RunInTerminalKind {
    /// The wire name of each kind.
    pub open spec fn wire(self) -> Seq<char> {
        match self {
            RunInTerminalKind::Integrated => "integrated"@,
            RunInTerminalKind::External => "external"@,
        }
    }

    /// What decoding a wire name yields.
    pub open spec fn spec_from(s: Seq<char>) -> Result<RunInTerminalKind, ErrorV> {
        if s == "integrated"@ {
            Ok(RunInTerminalKind::Integrated)
        } else if s == "external"@ {
            Ok(RunInTerminalKind::External)
        } else {
            Err(errv("kind"@, Cause::ExpectsEnum))
        }
    }

    /// The wire name of this kind.
    pub fn as_str(&self) -> (r: &'static str)
        ensures
            r@ == self.wire(),
    {
        match self {
            RunInTerminalKind::Integrated => "integrated",
            RunInTerminalKind::External => "external",
        }
    }

    /// Decodes a wire name.
    pub fn try_from(s: &str) -> (r: Result<RunInTerminalKind, Error>)
        ensures
            rdv(r) == RunInTerminalKind::spec_from(s@),
    {
        if str_eq(s, "integrated") {
            Ok(RunInTerminalKind::Integrated)
        } else if str_eq(s, "external") {
            Ok(RunInTerminalKind::External)
        } else {
            Err(Error::new("kind", Cause::ExpectsEnum))
        }
    }
}

/// A server-to-client request: the server asks the client to do something
/// and expects an answer.
#[derive(Debug, PartialEq, Eq)]
pub enum ReverseRequest {
    RunInTerminal {
        kind: Option<RunInTerminalKind>,
        title: Option<String>,
        cwd: String,
        args: Vec<String>,
        env: Option<Vec<(String, Option<String>)>>,
        args_can_be_interpreted_by_shell: bool,
    },
}

/// Model of a [`ReverseRequest`].
pub enum ReverseRequestV {
    RunInTerminal {
        kind: Option<RunInTerminalKind>,
        title: Option<Seq<char>>,
        cwd: Seq<char>,
        args: Seq<Seq<char>>,
        env: Option<Seq<(Seq<char>, Option<Seq<char>>)>>,
        args_can_be_interpreted_by_shell: bool,
    },
}

impl DeepView for ReverseRequest {
    type V = ReverseRequestV;

    open spec fn deep_view(&self) -> ReverseRequestV {
        match self {
            ReverseRequest::RunInTerminal {
                kind,
                title,
                cwd,
                args,
                env,
                args_can_be_interpreted_by_shell,
            } => ReverseRequestV::RunInTerminal {
                kind: *kind,
                title: title.deep_view(),
                cwd: cwd@,
                args: args.deep_view(),
                env: env.deep_view(),
                args_can_be_interpreted_by_shell: *args_can_be_interpreted_by_shell,
            },
        }
    }
}

impl ReverseRequestV {
    /// The wire command of each reverse request.
    pub open spec fn command(self) -> Seq<char> {
        "runInTerminal"@
    }

    /// The encoded arguments of each reverse request.
    pub open spec fn args(self) -> Option<JsonV> {
        match self {
            ReverseRequestV::RunInTerminal {
                kind,
                title,
                cwd,
                args,
                env,
                args_can_be_interpreted_by_shell,
            } => {
                let s = Seq::<(Seq<char>, JsonV)>::empty();
                let s = spec_attr_string_optional(
                    s,
                    "kind"@,
                    match kind {
                        Some(k) => Some(k.wire()),
                        None => None,
                    },
                );
                let s = spec_attr_string_optional(s, "title"@, title);
                let s = spec_attr_string(s, "cwd"@, cwd);
                let s = spec_attr_array(s, "args"@, crate::utils::texts(args));
                let s = spec_attr_map_or_null_optional(s, "env"@, env);
                let s = spec_attr_bool_optional(
                    s,
                    "argsCanBeInterpretedByShell"@,
                    args_can_be_interpreted_by_shell,
                );
                Some(JsonV::Object(s))
            },
        }
    }

    /// What decoding a reverse-request envelope yields.
    pub open spec fn dec(rq: ProtocolRequestV) -> Result<ReverseRequestV, ErrorV> {
        let arguments = match rq.arguments {
            Some(JsonV::Object(e)) => Some(e),
            _ => None,
        };
        if rq.command == "runInTerminal"@ {
            match arguments {
                None => Err(errv("arguments"@, Cause::IsMandatory)),
                Some(o) => Self::dec_run_in_terminal(o),
            }
        } else {
            Err(errv("reverseRequest"@, Cause::ExpectsEnum))
        }
    }

    /// What decoding `runInTerminal` arguments yields.
    pub open spec fn dec_run_in_terminal(o: Seq<(Seq<char>, JsonV)>) -> Result<
        ReverseRequestV,
        ErrorV,
    > {
        match spec_get_string_optional(o, "kind"@) {
            Err(e) => Err(e),
            Ok(kw) => {
                let kind = match kw {
                    Some(w) => match RunInTerminalKind::spec_from(w) {
                        Ok(k) => Ok(Some(k)),
                        Err(e) => Err(e),
                    },
                    None => Ok(None),
                };
                match kind {
                    Err(e) => Err(e),
                    Ok(kind) => match spec_get_string_optional(o, "title"@) {
                        Err(e) => Err(e),
                        Ok(title) => match spec_get_string(o, "cwd"@) {
                            Err(e) => Err(e),
                            Ok(cwd) => match spec_get_array_of_string(o, "args"@) {
                                Err(e) => Err(e),
                                Ok(args) => match spec_get_map_to_string_or_null_optional(
                                    o,
                                    "env"@,
                                ) {
                                    Err(e) => Err(e),
                                    Ok(env) => match spec_get_bool_optional(
                                        o,
                                        "argsCanBeInterpretedByShell"@,
                                    ) {
                                        Err(e) => Err(e),
                                        Ok(args_can_be_interpreted_by_shell) => Ok(
                                            ReverseRequestV::RunInTerminal {
                                                kind,
                                                title,
                                                cwd,
                                                args,
                                                env,
                                                args_can_be_interpreted_by_shell,
                                            },
                                        ),
                                    },
                                },
                            },
                        },
                    },
                }
            },
        }
    }
}

impl ReverseRequest {
    /// Wraps this reverse request in a protocol envelope bearing `seq`.
    pub fn into_protocol(self, seq: u64) -> (r: ProtocolRequest)
        ensures
            r.deep_view() == (ProtocolRequestV {
                seq,
                command: self.deep_view().command(),
                arguments: self.deep_view().args(),
            }),
    {
        match self {
            ReverseRequest::RunInTerminal {
                kind,
                title,
                cwd,
                args,
                env,
                args_can_be_interpreted_by_shell,
            } => {
                let mut o: JsonObject = Vec::new();
                proof {
                    assert(entries_dv(o@) =~= Seq::<(Seq<char>, JsonV)>::empty());
                }
                let kw: Option<String> = match kind {
                    Some(k) => Some(k.as_str().to_owned()),
                    None => None,
                };
                attribute_string_optional(&mut o, "kind", kw);
                attribute_string_optional(&mut o, "title", title);
                attribute_string(&mut o, "cwd", cwd);
                let elems = crate::utils::texts_to_json(args);
                attribute_array(&mut o, "args", elems);
                attribute_map_or_null_optional(&mut o, "env", env);
                attribute_bool_optional(
                    &mut o,
                    "argsCanBeInterpretedByShell",
                    args_can_be_interpreted_by_shell,
                );
                ProtocolRequest {
                    seq,
                    command: "runInTerminal".to_owned(),
                    arguments: Some(Json::Object(o)),
                }
            },
        }
    }

    /// Reads a typed reverse request out of a protocol envelope.
    pub fn try_from(rq: &ProtocolRequest) -> (r: Result<ReverseRequest, Error>)
        ensures
            rdv(r) == ReverseRequestV::dec(rq.deep_view()),
    {
        let arguments: Option<&JsonObject> = match &rq.arguments {
            Some(Json::Object(e)) => Some(e),
            _ => None,
        };
        if str_eq(rq.command.as_str(), "runInTerminal") {
            let o = match arguments {
                None => {
                    return Err(Error::new("arguments", Cause::IsMandatory));
                },
                Some(o) => o,
            };
            let kind = match get_str_optional(o, "kind")? {
                Some(w) => Some(RunInTerminalKind::try_from(w)?),
                None => None,
            };
            let title = get_string_optional(o, "title")?;
            let cwd = get_string(o, "cwd")?;
            let args = get_array_of_string(o, "args")?;
            let env = get_map_to_string_or_null_optional(o, "env")?;
            let args_can_be_interpreted_by_shell = get_bool_optional(
                o,
                "argsCanBeInterpretedByShell",
            )?;
            Ok(
                ReverseRequest::RunInTerminal {
                    kind,
                    title,
                    cwd,
                    args,
                    env,
                    args_can_be_interpreted_by_shell,
                },
            )
        } else {
            Err(Error::new("reverseRequest", Cause::ExpectsEnum))
        }
    }
}

} // verus!
