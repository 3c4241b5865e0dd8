
//! The codec exercised end to end: every supported message written out,
//! read back, framed, and unframed.

use dap_reactor::error::{Cause, Error};
use dap_reactor::event::{BreakpointReason, Event, LoadedSourceReason, StoppedReason};
use dap_reactor::json::Json;
use dap_reactor::models::{
    AttachArguments, BreakpointLocation, BreakpointLocationsArguments, BreakpointLocationsResponse,
    ConfigurationDoneArguments, ContinueArguments, ContinueResponse,
    CustomAddBreakpointArguments, CustomRemoveBreakpointArguments, DisconnectArguments,
    EvaluateArguments, EvaluateContext, EvaluateResponse, ExceptionBreakMode, ExceptionDetails,
    ExceptionInfoArguments, ExceptionInfoResponse, GotoArguments, InitializeArguments,
    LaunchArguments, LoadedSourcesArguments, LoadedSourcesResponse, NextArguments, PathFormat,
    RestartArguments, ReverseContinueArguments, SetBreakpointsArguments, SetBreakpointsResponse,
    SourceBreakpoint, StepBackArguments, SteppingGranularity, TerminateArguments,
};
use dap_reactor::protocol::{ProtocolMessage, ProtocolResponseError};
use dap_reactor::request::Request;
use dap_reactor::response::Response;
use dap_reactor::types::{
    Breakpoint, Capabilities, Checksum, ChecksumAlgorithm, ColumnDescriptor, ColumnDescriptorType,
    ExceptionBreakpointsFilter, Message, Source, SourcePresentationHint, SourceReference,
    VariablePresentationHint, VariablePresentationHintAttribute, VariablePresentationHintKind,
    VariablePresentationHintVisibility,
};

fn json_of(text: &str) -> Json {
    Json::parse(text.as_bytes()).expect("the text is valid JSON")
}

fn message_of(text: &str) -> ProtocolMessage {
    ProtocolMessage::try_from(&json_of(text)).expect("the text is a protocol message")
}

fn check_wire(text: &str) {
    let bytes = message_of(text).into_adapter_message();
    let n = bytes.len();
    let (consumed, again) = ProtocolMessage::try_from_bytes(&bytes).expect("the frame decodes");
    assert_eq!(consumed, n);
    assert_eq!(again, message_of(text));
    let (consumed, again) = ProtocolMessage::try_from_stream(&bytes).expect("the stream decodes");
    assert_eq!(consumed, n);
    assert_eq!(again, message_of(text));
}

fn check_event(seq: u64, text: &str, decoded: Event) {
    let expected = message_of(text);
    let protocol = ProtocolMessage::Event(decoded.into_protocol(seq));
    assert_eq!(expected, protocol);
    check_wire(text);
}

fn check_request(seq: u64, text: &str, decoded: Request) {
    let expected = message_of(text);
    let protocol = ProtocolMessage::Request(decoded.into_protocol(seq));
    assert_eq!(expected, protocol);
    check_wire(text);
}

fn check_response(seq: u64, request_seq: u64, text: &str, decoded: Response) {
    let expected = message_of(text);
    let protocol = ProtocolMessage::Response(decoded.into_protocol(seq, request_seq));
    assert_eq!(expected, protocol);
    check_wire(text);
}

fn plain_source(name: &str, origin: &str) -> Source {
    Source {
        name: Some(name.into()),
        source_reference: None,
        presentation_hint: None,
        origin: Some(origin.into()),
        sources: Vec::new(),
        adapter_data: None,
        checksums: Vec::new(),
    }
}

#[test]
fn encode_events() {
    check_event(
        12,
        r#"{"seq":12,"type":"event","event":"initialized"}"#,
        Event::Initialized,
    );
    check_event(
        15,
        r#"{"seq":15,"type":"event","event":"stopped","body":{
            "reason":"goto","description":"desc","threadId":15,"preserveFocusHint":true,
            "text":"txt","allThreadsStopped":true,"hitBreakpointIds":[15,20]}}"#,
        Event::Stopped {
            reason: StoppedReason::Goto,
            description: Some("desc".into()),
            thread_id: Some(15),
            preserve_focus_hint: true,
            text: Some("txt".into()),
            all_threads_stopped: true,
            hit_breakpoint_ids: vec![15, 20],
        },
    );
    check_event(
        16,
        r#"{"seq":16,"type":"event","event":"continued","body":{
            "threadId":15,"allThreadsContinued":true}}"#,
        Event::Continued {
            thread_id: 15,
            all_threads_continued: true,
        },
    );
    check_event(
        17,
        r#"{"seq":17,"type":"event","event":"breakpoint","body":{
            "reason":"removed",
            "breakpoint":{
                "id":829,"verified":true,"message":"some msg",
                "source":{
                    "name":"source name","sourceReference":15,"presentationHint":"emphasize",
                    "origin":"some origin",
                    "sources":[{
                        "name":"source name","path":"/some/path","presentationHint":"deemphasize",
                        "origin":"some origin","adapterData":15}],
                    "adapterData":{"foo":"bar"},
                    "checksums":[{"algorithm":"SHA1","checksum":"beef"}]},
                "line":92,"column":28,"endLine":72,"endColumn":57,
                "instructionReference":"some ref","offset":-15}}}"#,
        Event::Breakpoint {
            reason: BreakpointReason::Removed,
            breakpoint: Breakpoint {
                id: Some(829),
                verified: true,
                message: Some("some msg".into()),
                source: Some(Source {
                    name: Some("source name".into()),
                    source_reference: Some(SourceReference::Reference(15)),
                    presentation_hint: Some(SourcePresentationHint::Emphasize),
                    origin: Some("some origin".into()),
                    sources: vec![Source {
                        name: Some("source name".into()),
                        source_reference: Some(SourceReference::Path("/some/path".into())),
                        presentation_hint: Some(SourcePresentationHint::Deemphasize),
                        origin: Some("some origin".into()),
                        sources: vec![],
                        adapter_data: Some(Json::U64(15)),
                        checksums: vec![],
                    }],
                    adapter_data: Some(json_of(r#"{"foo":"bar"}"#)),
                    checksums: vec![Checksum {
                        algorithm: ChecksumAlgorithm::Sha1,
                        checksum: "beef".into(),
                    }],
                }),
                line: Some(92),
                column: Some(28),
                end_line: Some(72),
                end_column: Some(57),
                instruction_reference: Some("some ref".into()),
                offset: Some(-15),
            },
        },
    );
    check_event(
        17,
        r#"{"seq":17,"type":"event","event":"capabilities","body":{"capabilities":{
            "supportsConfigurationDoneRequest":true,
            "supportsFunctionBreakpoints":true,
            "supportsConditionalBreakpoints":true,
            "supportsHitConditionalBreakpoints":true,
            "supportsEvaluateForHovers":true,
            "exceptionBreakpointFilters":[{
                "filter":"some filter","label":"some label","description":"some descr",
                "default":true,"supportsCondition":true,"conditionDescription":"some cond"}],
            "supportsStepBack":true,
            "supportsSetVariable":true,
            "supportsRestartFrame":true,
            "supportsGotoTargetsRequest":true,
            "supportsStepInTargetsRequest":true,
            "supportsCompletionsRequest":true,
            "completionTriggerCharacters":["foo","bar"],
            "supportsModulesRequest":true,
            "additionalModuleColumns":[{
                "attributeName":"some name","label":"some label","format":"some format",
                "type":"unixTimestampUTC","width":82}],
            "supportedChecksumAlgorithms":["SHA1","timestamp"]}}}"#,
        Event::Capabilities {
            capabilities: Capabilities {
                supports_configuration_done_request: true,
                supports_function_breakpoints: true,
                supports_conditional_breakpoints: true,
                supports_hit_conditional_breakpoints: true,
                supports_evaluate_for_hovers: true,
                exception_breakpoint_filters: vec![ExceptionBreakpointsFilter {
                    filter: "some filter".into(),
                    label: "some label".into(),
                    description: Some("some descr".into()),
                    default: true,
                    supports_condition: true,
                    condition_description: Some("some cond".into()),
                }],
                supports_step_back: true,
                supports_set_variable: true,
                supports_restart_frame: true,
                supports_goto_targets_request: true,
                supports_step_in_targets_request: true,
                supports_completions_request: true,
                completion_trigger_characters: vec!["foo".into(), "bar".into()],
                supports_modules_request: true,
                additional_module_columns: vec![ColumnDescriptor {
                    attribute_name: "some name".into(),
                    label: "some label".into(),
                    format: Some("some format".into()),
                    ty: Some(ColumnDescriptorType::UnixTimestampUTC),
                    width: Some(82),
                }],
                supported_checksum_algorithms: vec![
                    ChecksumAlgorithm::Sha1,
                    ChecksumAlgorithm::Timestamp,
                ],
                ..Capabilities::default()
            },
        },
    );
    check_event(
        17,
        r#"{"seq":17,"type":"event","event":"capabilities","body":{"capabilities":{
            "supportsRestartRequest":true,
            "supportsExceptionOptions":true,
            "supportsValueFormattingOptions":true,
            "supportsExceptionInfoRequest":true,
            "supportTerminateDebuggee":true,
            "supportSuspendDebuggee":true,
            "supportsDelayedStackTraceLoading":true,
            "supportsLoadedSourcesRequest":true,
            "supportsLogPoints":true,
            "supportsTerminateThreadsRequest":true,
            "supportsSetExpression":true,
            "supportsTerminateRequest":true,
            "supportsDataBreakpoints":true,
            "supportsReadMemoryRequest":true,
            "supportsWriteMemoryRequest":true,
            "supportsDisassembleRequest":true,
            "supportsCancelRequest":true,
            "supportsBreakpointLocationsRequest":true,
            "supportsClipboardContext":true,
            "supportsSteppingGranularity":true,
            "supportsInstructionBreakpoints":true,
            "supportsExceptionFilterOptions":true,
            "supportsSingleThreadExecutionRequests":true}}}"#,
        Event::Capabilities {
            capabilities: Capabilities {
                supports_restart_request: true,
                supports_exception_options: true,
                supports_value_formatting_options: true,
                supports_exception_info_request: true,
                support_terminate_debuggee: true,
                support_suspend_debuggee: true,
                supports_delayed_stack_trace_loading: true,
                supports_loaded_sources_request: true,
                supports_log_points: true,
                supports_terminate_threads_request: true,
                supports_set_expression: true,
                supports_terminate_request: true,
                supports_data_breakpoints: true,
                supports_read_memory_request: true,
                supports_write_memory_request: true,
                supports_disassemble_request: true,
                supports_cancel_request: true,
                supports_breakpoint_locations_request: true,
                supports_clipboard_context: true,
                supports_stepping_granularity: true,
                supports_instruction_breakpoints: true,
                supports_exception_filter_options: true,
                supports_single_thread_execution_requests: true,
                ..Capabilities::default()
            },
        },
    );
    check_event(
        18,
        r#"{"seq":18,"type":"event","event":"exited","body":{"exitCode":892}}"#,
        Event::Exited { exit_code: 892 },
    );
    check_event(
        18,
        r#"{"seq":18,"type":"event","event":"terminated","body":{"restart":{"foo":"bar"}}}"#,
        Event::Terminated {
            restart: Some(json_of(r#"{"foo":"bar"}"#)),
        },
    );
}

#[test]
fn encode_requests() {
    check_request(
        12,
        r#"{"seq":12,"type":"request","command":"attach","arguments":{"__restart":"some-test"}}"#,
        Request::Attach {
            arguments: AttachArguments {
                restart: Some(Json::Text("some-test".into())),
            },
        },
    );
    check_request(
        13,
        r#"{"seq":13,"type":"request","command":"restart","arguments":{
            "noDebug":true,"__restart":"some-test"}}"#,
        Request::Restart {
            arguments: Some(RestartArguments::Launch(LaunchArguments {
                no_debug: true,
                restart: Some(Json::Text("some-test".into())),
            })),
        },
    );
    check_request(
        14,
        r#"{"seq":14,"type":"request","command":"disconnect","arguments":{
            "restart":true,"terminateDebuggee":true,"suspendDebuggee":true}}"#,
        Request::Disconnect {
            arguments: Some(DisconnectArguments {
                restart: true,
                terminate_debuggee: true,
                suspend_debuggee: true,
            }),
        },
    );
    check_request(
        15,
        r#"{"seq":15,"type":"request","command":"terminate","arguments":{"restart":true}}"#,
        Request::Terminate {
            arguments: Some(TerminateArguments { restart: true }),
        },
    );
    check_request(
        16,
        r#"{"seq":16,"type":"request","command":"breakpointLocations","arguments":{
            "source":{"name":"hello","origin":"home"},"line":50,"endColumn":55}}"#,
        Request::BreakpointLocations {
            arguments: Some(BreakpointLocationsArguments {
                source: plain_source("hello", "home"),
                line: 50,
                column: None,
                end_line: None,
                end_column: Some(55),
            }),
        },
    );
    check_request(
        17,
        r#"{"seq":17,"type":"request","command":"configurationDone","arguments":{}}"#,
        Request::ConfigurationDone {
            arguments: Some(ConfigurationDoneArguments {}),
        },
    );
    check_request(
        18,
        r#"{"seq":18,"type":"request","command":"continue","arguments":{
            "threadId":40,"singleThread":true}}"#,
        Request::Continue {
            arguments: ContinueArguments {
                thread_id: 40,
                single_thread: true,
            },
        },
    );
    check_request(
        19,
        r#"{"seq":19,"type":"request","command":"evaluate","arguments":{
            "expression":"expression","frameId":60,"context":"context","format":{"hex":true}}}"#,
        Request::Evaluate {
            arguments: EvaluateArguments {
                expression: "expression".into(),
                frame_id: Some(60),
                context: Some(EvaluateContext::Custom("context".into())),
                format: Some(dap_reactor::types::ValueFormat { hex: true }),
            },
        },
    );
    check_request(
        20,
        r#"{"seq":20,"type":"request","command":"exceptionInfo","arguments":{"threadId":20}}"#,
        Request::ExceptionInfo {
            arguments: ExceptionInfoArguments { thread_id: 20 },
        },
    );
    check_request(
        21,
        r#"{"seq":21,"type":"request","command":"goto","arguments":{"threadId":10,"targetId":11}}"#,
        Request::Goto {
            arguments: GotoArguments {
                thread_id: 10,
                target_id: 11,
            },
        },
    );
    check_request(
        22,
        r#"{"seq":22,"type":"request","command":"initialize","arguments":{
            "clientId":"clientId","clientName":"clientName","adapterId":"adapterId",
            "locale":"locale","linesStartAt1":true,"columnStartAt1":true,"pathFormat":"uri",
            "supportsVariableType":true,"supportsVariablePaging":true,
            "supportsRunInTerminalRequest":true,"supportsMemoryReferences":true,
            "supportsProgressReporting":true,"supportsInvalidatedEvent":true,
            "supportsMemoryEvent":true,"supportsArgsCanBeInterpretedByShell":true}}"#,
        Request::Initialize {
            arguments: InitializeArguments {
                client_id: Some("clientId".into()),
                client_name: Some("clientName".into()),
                adapter_id: "adapterId".into(),
                locale: Some("locale".into()),
                lines_start_at_1: true,
                column_start_at_1: true,
                path_format: Some(PathFormat::Uri),
                supports_variable_type: true,
                supports_variable_paging: true,
                supports_run_in_terminal_request: true,
                supports_memory_references: true,
                supports_progress_reporting: true,
                supports_invalidated_event: true,
                supports_memory_event: true,
                supports_args_can_be_interpreted_by_shell: true,
            },
        },
    );
    check_request(
        23,
        r#"{"seq":23,"type":"request","command":"launch","arguments":{
            "noDebug":true,"__restart":0}}"#,
        Request::Launch {
            arguments: LaunchArguments {
                no_debug: true,
                restart: Some(Json::U64(0)),
            },
        },
    );
    check_request(
        24,
        r#"{"seq":24,"type":"request","command":"loadedSources","arguments":{}}"#,
        Request::LoadedSources {
            arguments: Some(LoadedSourcesArguments {}),
        },
    );
    check_request(
        25,
        r#"{"seq":25,"type":"request","command":"next","arguments":{
            "threadId":50,"singleThread":true,"granularity":"instruction"}}"#,
        Request::Next {
            arguments: Some(NextArguments {
                thread_id: 50,
                single_thread: true,
                granularity: Some(SteppingGranularity::Instruction),
            }),
        },
    );
    check_request(
        26,
        r#"{"seq":26,"type":"request","command":"reverseContinue","arguments":{
            "threadId":40,"singleThread":true}}"#,
        Request::ReverseContinue {
            arguments: ReverseContinueArguments {
                thread_id: 40,
                single_thread: true,
            },
        },
    );
    check_request(
        27,
        r#"{"seq":27,"type":"request","command":"setBreakpoints","arguments":{
            "source":{"name":"hello","origin":"home"},
            "breakpoints":[{"line":100,"column":50,"condition":"condition",
                "hitCondition":"hitCondition","logMessage":"logMessage"}],
            "lines":[40,50,60],"sourceModified":true}}"#,
        Request::SetBreakpoints {
            arguments: SetBreakpointsArguments {
                source: plain_source("hello", "home"),
                breakpoints: vec![SourceBreakpoint {
                    line: 100,
                    column: Some(50),
                    condition: Some("condition".into()),
                    hit_condition: Some("hitCondition".into()),
                    log_message: Some("logMessage".into()),
                }],
                lines: vec![40, 50, 60],
                source_modified: true,
            },
        },
    );
    check_request(
        28,
        r#"{"seq":28,"type":"request","command":"stepBack","arguments":{
            "threadId":60,"singleThread":true,"granularity":"line"}}"#,
        Request::StepBack {
            arguments: StepBackArguments {
                thread_id: 60,
                single_thread: true,
                granularity: Some(SteppingGranularity::Line),
            },
        },
    );
    check_request(
        28,
        r#"{"seq":28,"type":"request","command":"customAddBreakpoint","arguments":{
            "breakpoint":{"id":60,"verified":true,"message":"foo",
                "source":{"name":"hello","origin":"home"},
                "line":50,"column":90,"endLine":110,"endColumn":120,
                "instructionReference":"bar","offset":130}}}"#,
        Request::CustomAddBreakpoint {
            arguments: CustomAddBreakpointArguments {
                breakpoint: Breakpoint {
                    id: Some(60),
                    verified: true,
                    message: Some("foo".into()),
                    source: Some(plain_source("hello", "home")),
                    line: Some(50),
                    column: Some(90),
                    end_line: Some(110),
                    end_column: Some(120),
                    instruction_reference: Some("bar".into()),
                    offset: Some(130),
                },
            },
        },
    );
    check_request(
        28,
        r#"{"seq":28,"type":"request","command":"customRemoveBreakpoint","arguments":{"id":15}}"#,
        Request::CustomRemoveBreakpoint {
            arguments: CustomRemoveBreakpointArguments { id: 15 },
        },
    );
}

#[test]
fn encode_responses() {
    check_response(
        1500,
        13,
        r#"{"seq":1500,"type":"response","request_seq":13,"success":false,"command":"attach",
            "message":"error msg","body":{
            "id":83,"format":"some format",
            "variables":{"var a":"a","var b":"b"},
            "sendTelemetry":true,"showUser":true,
            "url":"https://www.fsf.org/","urlLabel":"fsf"}}"#,
        Response::Error {
            command: "attach".into(),
            error: ProtocolResponseError {
                message: Some("error msg".into()),
                body: Some(Message {
                    id: 83,
                    format: "some format".into(),
                    variables: Some(vec![
                        ("var a".into(), "a".into()),
                        ("var b".into(), "b".into()),
                    ]),
                    send_telemetry: true,
                    show_user: true,
                    url: Some("https://www.fsf.org/".into()),
                    url_label: Some("fsf".into()),
                }),
            },
        },
    );
    check_response(
        1500,
        13,
        r#"{"seq":1500,"type":"response","request_seq":13,"success":true,"command":"attach"}"#,
        Response::Attach,
    );
    check_response(
        1501,
        14,
        r#"{"seq":1501,"type":"response","request_seq":14,"success":true,"command":"restart"}"#,
        Response::Restart,
    );
    check_response(
        1502,
        15,
        r#"{"seq":1502,"type":"response","request_seq":15,"success":true,"command":"disconnect"}"#,
        Response::Disconnect,
    );
    check_response(
        1503,
        15,
        r#"{"seq":1503,"type":"response","request_seq":15,"success":true,"command":"terminate"}"#,
        Response::Terminate,
    );
    check_response(
        1504,
        16,
        r#"{"seq":1504,"type":"response","request_seq":16,"success":true,
            "command":"breakpointLocations","body":{
            "breakpoints":[{"line":30,"column":40,"endLine":50,"endColumn":60}]}}"#,
        Response::BreakpointLocations {
            body: Some(BreakpointLocationsResponse {
                breakpoints: vec![BreakpointLocation {
                    line: 30,
                    column: Some(40),
                    end_line: Some(50),
                    end_column: Some(60),
                }],
            }),
        },
    );
    check_response(
        1505,
        17,
        r#"{"seq":1505,"type":"response","request_seq":17,"success":true,
            "command":"configurationDone"}"#,
        Response::ConfigurationDone,
    );
    check_response(
        1506,
        18,
        r#"{"seq":1506,"type":"response","request_seq":18,"success":true,"command":"continue",
            "body":{"allThreadsContinued":true}}"#,
        Response::Continue {
            body: ContinueResponse {
                all_threads_continued: true,
            },
        },
    );
    check_response(
        1507,
        19,
        r#"{"seq":1507,"type":"response","request_seq":19,"success":true,"command":"evaluate",
            "body":{"result":"result","type":"type",
            "presentationHint":{"kind":"property","attributes":["static","constant"],
                "visibility":"public","lazy":true},
            "variablesReference":2,"namedVariables":4,"indexedVariables":3,
            "memoryReference":"memoryReference"}}"#,
        Response::Evaluate {
            body: EvaluateResponse {
                result: "result".into(),
                ty: Some("type".into()),
                presentation_hint: Some(VariablePresentationHint {
                    kind: Some(VariablePresentationHintKind::Property),
                    attributes: vec![
                        VariablePresentationHintAttribute::Static,
                        VariablePresentationHintAttribute::Constant,
                    ],
                    visibility: Some(VariablePresentationHintVisibility::Public),
                    lazy: true,
                }),
                variables_reference: 2,
                named_variables: Some(4),
                indexed_variables: Some(3),
                memory_reference: Some("memoryReference".into()),
            },
        },
    );
    check_response(
        1508,
        20,
        r#"{"seq":1508,"type":"response","request_seq":20,"success":true,
            "command":"exceptionInfo","body":{
            "exceptionId":"exceptionId","description":"description","breakMode":"always",
            "details":{"message":"message","typeName":"typeName","fullTypeName":"fullTypeName",
                "evaluateName":"evaluateName","stackTrace":"stackTrace",
                "innerException":[{"message":"message2","typeName":"typeName2",
                    "fullTypeName":"fullTypeName2","evaluateName":"evaluateName2",
                    "stackTrace":"stackTrace2","innerException":[]}]}}}"#,
        Response::ExceptionInfo {
            body: ExceptionInfoResponse {
                exception_id: "exceptionId".into(),
                description: Some("description".into()),
                break_mode: ExceptionBreakMode::Always,
                details: Some(ExceptionDetails {
                    message: Some("message".into()),
                    ty_name: Some("typeName".into()),
                    full_type_name: Some("fullTypeName".into()),
                    evaluate_name: Some("evaluateName".into()),
                    stack_trace: Some("stackTrace".into()),
                    inner_exception: vec![ExceptionDetails {
                        message: Some("message2".into()),
                        ty_name: Some("typeName2".into()),
                        full_type_name: Some("fullTypeName2".into()),
                        evaluate_name: Some("evaluateName2".into()),
                        stack_trace: Some("stackTrace2".into()),
                        inner_exception: vec![],
                    }],
                }),
            },
        },
    );
    check_response(
        1509,
        21,
        r#"{"seq":1509,"type":"response","request_seq":21,"success":true,"command":"goto"}"#,
        Response::Goto,
    );
    check_response(
        1510,
        22,
        r#"{"seq":1510,"type":"response","request_seq":22,"success":true,"command":"initialize",
            "body":{
            "supportsConfigurationDoneRequest":true,
            "supportsFunctionBreakpoints":true,
            "supportsConditionalBreakpoints":true,
            "supportsHitConditionalBreakpoints":true,
            "supportsEvaluateForHovers":true,
            "exceptionBreakpointFilters":[{
                "filter":"filter","label":"label","description":"description",
                "default":true,"supportsCondition":true,
                "conditionDescription":"conditionDescription"}],
            "supportsStepBack":true,
            "supportsSetVariable":true,
            "supportsRestartFrame":true,
            "supportsGotoTargetsRequest":true,
            "supportsStepInTargetsRequest":true,
            "supportsCompletionsRequest":true,
            "completionTriggerCharacters":["a"],
            "supportsModulesRequest":true,
            "additionalModuleColumns":[{
                "attributeName":"attribute","label":"label","format":"format",
                "type":"boolean","width":50}],
            "supportedChecksumAlgorithms":["MD5"],
            "supportsRestartRequest":true,
            "supportsExceptionOptions":true,
            "supportsValueFormattingOptions":true,
            "supportsExceptionInfoRequest":true,
            "supportTerminateDebuggee":true,
            "supportSuspendDebuggee":true,
            "supportsDelayedStackTraceLoading":true,
            "supportsLoadedSourcesRequest":true,
            "supportsLogPoints":true,
            "supportsTerminateThreadsRequest":true,
            "supportsSetExpression":true,
            "supportsTerminateRequest":true,
            "supportsDataBreakpoints":true,
            "supportsReadMemoryRequest":true,
            "supportsWriteMemoryRequest":true,
            "supportsDisassembleRequest":true,
            "supportsCancelRequest":true,
            "supportsBreakpointLocationsRequest":true,
            "supportsClipboardContext":true,
            "supportsSteppingGranularity":true,
            "supportsInstructionBreakpoints":true,
            "supportsExceptionFilterOptions":true,
            "supportsSingleThreadExecutionRequests":true}}"#,
        Response::Initialize {
            body: Capabilities {
                supports_configuration_done_request: true,
                supports_function_breakpoints: true,
                supports_conditional_breakpoints: true,
                supports_hit_conditional_breakpoints: true,
                supports_evaluate_for_hovers: true,
                exception_breakpoint_filters: vec![ExceptionBreakpointsFilter {
                    filter: "filter".into(),
                    label: "label".into(),
                    description: Some("description".into()),
                    default: true,
                    supports_condition: true,
                    condition_description: Some("conditionDescription".into()),
                }],
                supports_step_back: true,
                supports_set_variable: true,
                supports_restart_frame: true,
                supports_goto_targets_request: true,
                supports_step_in_targets_request: true,
                supports_completions_request: true,
                completion_trigger_characters: vec!["a".into()],
                supports_modules_request: true,
                additional_module_columns: vec![ColumnDescriptor {
                    attribute_name: "attribute".into(),
                    label: "label".into(),
                    format: Some("format".into()),
                    ty: Some(ColumnDescriptorType::Boolean),
                    width: Some(50),
                }],
                supported_checksum_algorithms: vec![ChecksumAlgorithm::Md5],
                supports_restart_request: true,
                supports_exception_options: true,
                supports_value_formatting_options: true,
                supports_exception_info_request: true,
                support_terminate_debuggee: true,
                support_suspend_debuggee: true,
                supports_delayed_stack_trace_loading: true,
                supports_loaded_sources_request: true,
                supports_log_points: true,
                supports_terminate_threads_request: true,
                supports_set_expression: true,
                supports_terminate_request: true,
                supports_data_breakpoints: true,
                supports_read_memory_request: true,
                supports_write_memory_request: true,
                supports_disassemble_request: true,
                supports_cancel_request: true,
                supports_breakpoint_locations_request: true,
                supports_clipboard_context: true,
                supports_stepping_granularity: true,
                supports_instruction_breakpoints: true,
                supports_exception_filter_options: true,
                supports_single_thread_execution_requests: true,
            },
        },
    );
    check_response(
        1511,
        23,
        r#"{"seq":1511,"type":"response","request_seq":23,"success":true,"command":"launch"}"#,
        Response::Launch,
    );
    check_response(
        1512,
        24,
        r#"{"seq":1512,"type":"response","request_seq":24,"success":true,
            "command":"loadedSources","body":{
            "sources":[{"name":"name","sourceReference":10,"presentationHint":"normal",
                "origin":"origin","adapterData":0,
                "checksums":[{"algorithm":"MD5","checksum":"checksum"}]}]}}"#,
        Response::LoadedSources {
            body: LoadedSourcesResponse {
                sources: vec![Source {
                    name: Some("name".into()),
                    source_reference: Some(SourceReference::Reference(10)),
                    presentation_hint: Some(SourcePresentationHint::Normal),
                    origin: Some("origin".into()),
                    sources: Vec::new(),
                    adapter_data: Some(Json::U64(0)),
                    checksums: vec![Checksum {
                        algorithm: ChecksumAlgorithm::Md5,
                        checksum: "checksum".into(),
                    }],
                }],
            },
        },
    );
    check_response(
        1513,
        25,
        r#"{"seq":1513,"type":"response","request_seq":25,"success":true,"command":"next"}"#,
        Response::Next,
    );
    check_response(
        1513,
        25,
        r#"{"seq":1513,"type":"response","request_seq":25,"success":true,
            "command":"reverseContinue"}"#,
        Response::ReverseContinue,
    );
    check_response(
        1514,
        26,
        r#"{"seq":1514,"type":"response","request_seq":26,"success":true,
            "command":"setBreakpoints","body":{
            "breakpoints":[{"id":10,"verified":true,"message":"message","line":20,
                "column":30,"endLine":40,"endColumn":50,"offset":0}]}}"#,
        Response::SetBreakpoints {
            body: SetBreakpointsResponse {
                breakpoints: vec![Breakpoint {
                    id: Some(10),
                    verified: true,
                    message: Some("message".into()),
                    source: None,
                    line: Some(20),
                    column: Some(30),
                    end_line: Some(40),
                    end_column: Some(50),
                    instruction_reference: None,
                    offset: Some(0),
                }],
            },
        },
    );
    check_response(
        1515,
        27,
        r#"{"seq":1515,"type":"response","request_seq":27,"success":true,"command":"stepBack"}"#,
        Response::StepBack,
    );
}

#[test]
fn requests_without_arguments_omit_them() {
    check_request(
        30,
        r#"{"seq":30,"type":"request","command":"next"}"#,
        Request::Next { arguments: None },
    );
    check_request(
        31,
        r#"{"seq":31,"type":"request","command":"loadedSources"}"#,
        Request::LoadedSources { arguments: None },
    );
    check_request(
        32,
        r#"{"seq":32,"type":"request","command":"restart"}"#,
        Request::Restart { arguments: None },
    );
}

#[test]
fn responses_without_bodies_decode_to_their_commands() {
    // the envelope a unit command answers with carries no body at all
    let m = message_of(
        r#"{"seq":9,"type":"response","request_seq":8,"success":true,"command":"attach"}"#,
    );
    let re = match m {
        ProtocolMessage::Response(re) => re,
        _ => panic!("a response was expected"),
    };
    assert_eq!(Response::try_from(&re), Ok(Response::Attach));

    // withheld breakpoint locations come back withheld
    check_response(
        10,
        9,
        r#"{"seq":10,"type":"response","request_seq":9,"success":true,
            "command":"breakpointLocations"}"#,
        Response::BreakpointLocations { body: None },
    );
    let m = message_of(
        r#"{"seq":10,"type":"response","request_seq":9,"success":true,
            "command":"breakpointLocations"}"#,
    );
    let re = match m {
        ProtocolMessage::Response(re) => re,
        _ => panic!("a response was expected"),
    };
    assert_eq!(
        Response::try_from(&re),
        Ok(Response::BreakpointLocations { body: None }),
    );

    // a command that defines a body still requires one
    let m = message_of(
        r#"{"seq":11,"type":"response","request_seq":9,"success":true,"command":"continue"}"#,
    );
    let re = match m {
        ProtocolMessage::Response(re) => re,
        _ => panic!("a response was expected"),
    };
    assert_eq!(
        Response::try_from(&re),
        Err(Error::new("result", Cause::IsMandatory)),
    );
}

#[test]
fn numbers_past_32_bits_are_the_wrong_kind() {
    let o = match json_of(r#"{"name":"n","sourceReference":4294967296}"#) {
        Json::Object(o) => o,
        _ => panic!("an object was expected"),
    };
    assert_eq!(
        Source::try_from(&o),
        Err(Error::new("sourceReference", Cause::MustBeUnsignedInteger)),
    );
    let o = match json_of(r#"{"name":"n","sourceReference":4294967295}"#) {
        Json::Object(o) => o,
        _ => panic!("an object was expected"),
    };
    let s = Source::try_from(&o).expect("the source decodes");
    assert_eq!(s.source_reference, Some(SourceReference::Reference(4294967295)));
}

#[test]
fn decode_error_names_the_attribute() {
    let r = ProtocolMessage::try_from(&json_of(r#"{"type":"request","command":"attach"}"#));
    assert_eq!(r, Err(Error::new("seq", Cause::IsMandatory)));
    let r = ProtocolMessage::try_from(&json_of(r#"{"seq":1,"type":"request"}"#));
    assert_eq!(r, Err(Error::new("command", Cause::IsMandatory)));
    let r = ProtocolMessage::try_from(&json_of(r#"{"seq":1,"type":"wat"}"#));
    assert_eq!(r, Err(Error::new("protocolMessage", Cause::ExpectsEnum)));
    let r = ProtocolMessage::try_from(&json_of("7"));
    assert_eq!(r, Err(Error::new("protocolMessage", Cause::ExpectsObject)));
    let r = ProtocolMessage::try_from(&json_of(r#"{"seq":true,"type":"event","event":"e"}"#));
    assert_eq!(r, Err(Error::new("seq", Cause::MustBeUnsignedInteger)));
    let r = ProtocolMessage::try_from(&json_of(
        r#"{"seq":1,"type":"response","request_seq":2,"success":"nope","command":"c"}"#,
    ));
    assert_eq!(r, Err(Error::new("success", Cause::MustBeBoolean)));
}

#[test]
fn failed_response_is_an_error_for_any_command() {
    let m = message_of(
        r#"{"seq":9,"type":"response","request_seq":8,"success":false,
            "command":"somethingNobodyKnows","message":"nope"}"#,
    );
    let re = match m {
        ProtocolMessage::Response(re) => re,
        _ => panic!("a response was expected"),
    };
    let r = Response::try_from(&re).expect("a failed response always decodes");
    assert_eq!(
        r,
        Response::Error {
            command: "somethingNobodyKnows".into(),
            error: ProtocolResponseError {
                message: Some("nope".into()),
                body: None,
            },
        },
    );
}

#[test]
fn unknown_open_enum_strings_are_kept_verbatim() {
    let reason = StoppedReason::from_string("foo".into());
    assert_eq!(reason, StoppedReason::Custom("foo".into()));
    assert_eq!(reason.to_wire(), "foo".to_string());
    let reason = StoppedReason::from_string("step".into());
    assert_eq!(reason, StoppedReason::Step);
    assert_eq!(reason.to_wire(), "step".to_string());
    let r = LoadedSourceReason::try_from("foo");
    assert_eq!(r, Err(Error::new("reason", Cause::ExpectsEnum)));
}

#[test]
fn capabilities_defaults() {
    // absent flags decode to the all-default record
    let o = match json_of("{}") {
        Json::Object(o) => o,
        _ => panic!("an object was expected"),
    };
    let decoded = Capabilities::try_from(&o).expect("an empty object decodes");
    assert_eq!(decoded, Capabilities::default());
    // the all-default record encodes to the empty object
    let encoded = Capabilities::default().into_json();
    assert_eq!(encoded, json_of("{}"));
}

#[test]
fn source_reference_forms() {
    let o = match json_of(r#"{"name":"n","path":"/p"}"#) {
        Json::Object(o) => o,
        _ => panic!("an object was expected"),
    };
    let s = Source::try_from(&o).expect("the source decodes");
    assert_eq!(s.source_reference, Some(SourceReference::Path("/p".into())));
    assert_eq!(s.into_json(), json_of(r#"{"name":"n","path":"/p"}"#));

    let o = match json_of(r#"{"name":"n","sourceReference":7}"#) {
        Json::Object(o) => o,
        _ => panic!("an object was expected"),
    };
    let s = Source::try_from(&o).expect("the source decodes");
    assert_eq!(s.source_reference, Some(SourceReference::Reference(7)));
    assert_eq!(s.into_json(), json_of(r#"{"name":"n","sourceReference":7}"#));

    let o = match json_of(r#"{"name":"n","sourceReference":0}"#) {
        Json::Object(o) => o,
        _ => panic!("an object was expected"),
    };
    let s = Source::try_from(&o).expect("the source decodes");
    assert_eq!(s.source_reference, None);
    assert_eq!(s.into_json(), json_of(r#"{"name":"n"}"#));

    // a zero reference in memory is elided on the wire too
    let z = Source {
        name: Some("n".into()),
        source_reference: Some(SourceReference::Reference(0)),
        presentation_hint: None,
        origin: None,
        sources: Vec::new(),
        adapter_data: None,
        checksums: Vec::new(),
    };
    assert_eq!(z.into_json(), json_of(r#"{"name":"n"}"#));
}

#[test]
fn breakpoint_with_only_verified_emits_one_attribute() {
    let b = Breakpoint {
        id: None,
        verified: true,
        message: None,
        source: None,
        line: None,
        column: None,
        end_line: None,
        end_column: None,
        instruction_reference: None,
        offset: None,
    };
    assert_eq!(b.into_json(), json_of(r#"{"verified":true}"#));
}

#[test]
fn message_variables_keep_their_order() {
    let o = match json_of(r#"{"id":1,"format":"f","variables":{"b":"2","a":"1"}}"#) {
        Json::Object(o) => o,
        _ => panic!("an object was expected"),
    };
    let m = Message::try_from(&o).expect("the message decodes");
    assert_eq!(
        m.variables,
        Some(vec![("b".into(), "2".into()), ("a".into(), "1".into())]),
    );
}
