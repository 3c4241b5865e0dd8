//! Server-to-client events: the typed catalog, its wire names, and its
//! codec to and from the event envelope.

use vstd::prelude::*;

use crate::error::{Cause, Error, ErrorV};
use crate::json::{elems_dv, entries_dv, str_eq, Json, JsonV};
use crate::protocol::{ProtocolEvent, ProtocolEventV};
use crate::types::{
    Breakpoint, BreakpointV, Capabilities, CapabilitiesV, Source, SourceV,
};
use crate::utils::{
    attribute, attribute_array_optional, attribute_bool_optional, attribute_optional,
    attribute_str, attribute_string, attribute_string_optional, attribute_u32_optional,
    attribute_u64, attribute_u64_optional, errv, get_bool_optional, get_object,
    get_object_optional, get_optional, get_str, get_str_optional, get_string,
    get_string_optional, get_u32_optional, get_u64, get_u64_optional, rdv,
    spec_attr_array_optional, spec_attr_bool_optional, spec_attr_json, spec_attr_optional,
    spec_attr_string, spec_attr_string_optional, spec_attr_u32_optional, spec_attr_u64,
    spec_attr_u64_optional, spec_get_bool_optional, spec_get_object, spec_get_object_optional,
    spec_get_optional, spec_get_string, spec_get_string_optional, spec_get_u32_optional,
    spec_get_u64, spec_get_u64_optional, JsonObject,
};

verus! {

broadcast use
    vstd::std_specs::vec::group_vec_axioms,
    crate::json::group_json_dv,
    vstd::string::group_string_axioms,
;

/// Why the debuggee stopped: an open set; an unrecognized string is kept verbatim.
#[derive(Debug, Clone, PartialEq, Eq)]
pub enum StoppedReason {
    Step,
    Breakpoint,
    Exception,
    Pause,
    Entry,
    Goto,
    FunctionBreakpoint,
    DataBreakpoint,
    InstructionBreakpoint,
    Custom(String),
}

/// Model of a [`StoppedReason`].
pub enum StoppedReasonV {
    Step,
    Breakpoint,
    Exception,
    Pause,
    Entry,
    Goto,
    FunctionBreakpoint,
    DataBreakpoint,
    InstructionBreakpoint,
    Custom(Seq<char>),
}

impl DeepView for StoppedReason {
    type V = StoppedReasonV;

    open spec fn deep_view(&self) -> StoppedReasonV {
        match self {
            StoppedReason::Step => StoppedReasonV::Step,
            StoppedReason::Breakpoint => StoppedReasonV::Breakpoint,
            StoppedReason::Exception => StoppedReasonV::Exception,
            StoppedReason::Pause => StoppedReasonV::Pause,
            StoppedReason::Entry => StoppedReasonV::Entry,
            StoppedReason::Goto => StoppedReasonV::Goto,
            StoppedReason::FunctionBreakpoint => StoppedReasonV::FunctionBreakpoint,
            StoppedReason::DataBreakpoint => StoppedReasonV::DataBreakpoint,
            StoppedReason::InstructionBreakpoint => StoppedReasonV::InstructionBreakpoint,
            StoppedReason::Custom(s) => StoppedReasonV::Custom(s@),
        }
    }
}

impl StoppedReasonV {
    /// The wire form of each value; a custom value is itself.
    pub open spec fn wire(self) -> Seq<char> {
        match self {
            StoppedReasonV::Step => "step"@,
            StoppedReasonV::Breakpoint => "breakpoint"@,
            StoppedReasonV::Exception => "exception"@,
            StoppedReasonV::Pause => "pause"@,
            StoppedReasonV::Entry => "entry"@,
            StoppedReasonV::Goto => "goto"@,
            StoppedReasonV::FunctionBreakpoint => "function breakpoint"@,
            StoppedReasonV::DataBreakpoint => "data breakpoint"@,
            StoppedReasonV::InstructionBreakpoint => "instruction breakpoint"@,
            StoppedReasonV::Custom(s) => s,
        }
    }

    /// What decoding a wire form yields; unknown strings fall through.
    pub open spec fn spec_from(s: Seq<char>) -> StoppedReasonV {
        if s == "step"@ {
            StoppedReasonV::Step
        } else if s == "breakpoint"@ {
            StoppedReasonV::Breakpoint
        } else if s == "exception"@ {
            StoppedReasonV::Exception
        } else if s == "pause"@ {
            StoppedReasonV::Pause
        } else if s == "entry"@ {
            StoppedReasonV::Entry
        } else if s == "goto"@ {
            StoppedReasonV::Goto
        } else if s == "function breakpoint"@ {
            StoppedReasonV::FunctionBreakpoint
        } else if s == "data breakpoint"@ {
            StoppedReasonV::DataBreakpoint
        } else if s == "instruction breakpoint"@ {
            StoppedReasonV::InstructionBreakpoint
        } else {
            StoppedReasonV::Custom(s)
        }
    }
}

impl StoppedReason {
    /// The wire form of this value; a custom value is itself.
    pub fn to_wire(self) -> (r: String)
        ensures
            r@ == self.deep_view().wire(),
    {
        match self {
            StoppedReason::Step => "step".to_owned(),
            StoppedReason::Breakpoint => "breakpoint".to_owned(),
            StoppedReason::Exception => "exception".to_owned(),
            StoppedReason::Pause => "pause".to_owned(),
            StoppedReason::Entry => "entry".to_owned(),
            StoppedReason::Goto => "goto".to_owned(),
            StoppedReason::FunctionBreakpoint => "function breakpoint".to_owned(),
            StoppedReason::DataBreakpoint => "data breakpoint".to_owned(),
            StoppedReason::InstructionBreakpoint => "instruction breakpoint".to_owned(),
            StoppedReason::Custom(s) => s,
        }
    }

    /// Decodes a wire form; an unknown string is kept verbatim.
    pub fn from_string(s: String) -> (r: StoppedReason)
        ensures
            r.deep_view() == StoppedReasonV::spec_from(s@),
    {
        if str_eq(s.as_str(), "step") {
            StoppedReason::Step
        } else if str_eq(s.as_str(), "breakpoint") {
            StoppedReason::Breakpoint
        } else if str_eq(s.as_str(), "exception") {
            StoppedReason::Exception
        } else if str_eq(s.as_str(), "pause") {
            StoppedReason::Pause
        } else if str_eq(s.as_str(), "entry") {
            StoppedReason::Entry
        } else if str_eq(s.as_str(), "goto") {
            StoppedReason::Goto
        } else if str_eq(s.as_str(), "function breakpoint") {
            StoppedReason::FunctionBreakpoint
        } else if str_eq(s.as_str(), "data breakpoint") {
            StoppedReason::DataBreakpoint
        } else if str_eq(s.as_str(), "instruction breakpoint") {
            StoppedReason::InstructionBreakpoint
        } else {
            StoppedReason::Custom(s)
        }
    }
}

/// Any wire form decodes and re-encodes to itself: a recognized name maps
/// to its value, and an unrecognized one is kept verbatim either way.
pub proof fn lemma_stopped_reason_wire_roundtrip(s: Seq<char>)
    ensures
        StoppedReasonV::spec_from(s).wire() == s,
{
}

/// Why a breakpoint event fired: an open set; an unrecognized string is kept verbatim.
#[derive(Debug, Clone, PartialEq, Eq)]
pub enum BreakpointReason {
    Changed,
    New,
    Removed,
    Custom(String),
}

/// Model of a [`BreakpointReason`].
pub enum BreakpointReasonV {
    Changed,
    New,
    Removed,
    Custom(Seq<char>),
}

impl DeepView for BreakpointReason {
    type V = BreakpointReasonV;

    open spec fn deep_view(&self) -> BreakpointReasonV {
        match self {
            BreakpointReason::Changed => BreakpointReasonV::Changed,
            BreakpointReason::New => BreakpointReasonV::New,
            BreakpointReason::Removed => BreakpointReasonV::Removed,
            BreakpointReason::Custom(s) => BreakpointReasonV::Custom(s@),
        }
    }
}

impl BreakpointReasonV {
    /// The wire form of each value; a custom value is itself.
    pub open spec fn wire(self) -> Seq<char> {
        match self {
            BreakpointReasonV::Changed => "changed"@,
            BreakpointReasonV::New => "new"@,
            BreakpointReasonV::Removed => "removed"@,
            BreakpointReasonV::Custom(s) => s,
        }
    }

    /// What decoding a wire form yields; unknown strings fall through.
    pub open spec fn spec_from(s: Seq<char>) -> BreakpointReasonV {
        if s == "changed"@ {
            BreakpointReasonV::Changed
        } else if s == "new"@ {
            BreakpointReasonV::New
        } else if s == "removed"@ {
            BreakpointReasonV::Removed
        } else {
            BreakpointReasonV::Custom(s)
        }
    }
}

impl BreakpointReason {
    /// The wire form of this value; a custom value is itself.
    pub fn to_wire(self) -> (r: String)
        ensures
            r@ == self.deep_view().wire(),
    {
        match self {
            BreakpointReason::Changed => "changed".to_owned(),
            BreakpointReason::New => "new".to_owned(),
            BreakpointReason::Removed => "removed".to_owned(),
            BreakpointReason::Custom(s) => s,
        }
    }

    /// Decodes a wire form; an unknown string is kept verbatim.
    pub fn from_string(s: String) -> (r: BreakpointReason)
        ensures
            r.deep_view() == BreakpointReasonV::spec_from(s@),
    {
        if str_eq(s.as_str(), "changed") {
            BreakpointReason::Changed
        } else if str_eq(s.as_str(), "new") {
            BreakpointReason::New
        } else if str_eq(s.as_str(), "removed") {
            BreakpointReason::Removed
        } else {
            BreakpointReason::Custom(s)
        }
    }
}

/// Any wire form decodes and re-encodes to itself: a recognized name maps
/// to its value, and an unrecognized one is kept verbatim either way.
pub proof fn lemma_breakpoint_reason_wire_roundtrip(s: Seq<char>)
    ensures
        BreakpointReasonV::spec_from(s).wire() == s,
{
}

/// Why a thread event fired: an open set; an unrecognized string is kept verbatim.
#[derive(Debug, Clone, PartialEq, Eq)]
pub enum ThreadReason {
    Started,
    Exited,
    Custom(String),
}

/// Model of a [`ThreadReason`].
pub enum ThreadReasonV {
    Started,
    Exited,
    Custom(Seq<char>),
}

impl DeepView for ThreadReason {
    type V = ThreadReasonV;

    open spec fn deep_view(&self) -> ThreadReasonV {
        match self {
            ThreadReason::Started => ThreadReasonV::Started,
            ThreadReason::Exited => ThreadReasonV::Exited,
            ThreadReason::Custom(s) => ThreadReasonV::Custom(s@),
        }
    }
}

impl ThreadReasonV {
    /// The wire form of each value; a custom value is itself.
    pub open spec fn wire(self) -> Seq<char> {
        match self {
            ThreadReasonV::Started => "started"@,
            ThreadReasonV::Exited => "exited"@,
            ThreadReasonV::Custom(s) => s,
        }
    }

    /// What decoding a wire form yields; unknown strings fall through.
    pub open spec fn spec_from(s: Seq<char>) -> ThreadReasonV {
        if s == "started"@ {
            ThreadReasonV::Started
        } else if s == "exited"@ {
            ThreadReasonV::Exited
        } else {
            ThreadReasonV::Custom(s)
        }
    }
}

impl ThreadReason {
    /// The wire form of this value; a custom value is itself.
    pub fn to_wire(self) -> (r: String)
        ensures
            r@ == self.deep_view().wire(),
    {
        match self {
            ThreadReason::Started => "started".to_owned(),
            ThreadReason::Exited => "exited".to_owned(),
            ThreadReason::Custom(s) => s,
        }
    }

    /// Decodes a wire form; an unknown string is kept verbatim.
    pub fn from_string(s: String) -> (r: ThreadReason)
        ensures
            r.deep_view() == ThreadReasonV::spec_from(s@),
    {
        if str_eq(s.as_str(), "started") {
            ThreadReason::Started
        } else if str_eq(s.as_str(), "exited") {
            ThreadReason::Exited
        } else {
            ThreadReason::Custom(s)
        }
    }
}

/// Any wire form decodes and re-encodes to itself: a recognized name maps
/// to its value, and an unrecognized one is kept verbatim either way.
pub proof fn lemma_thread_reason_wire_roundtrip(s: Seq<char>)
    ensures
        ThreadReasonV::spec_from(s).wire() == s,
{
}

/// Where output belongs: an open set; an unrecognized string is kept verbatim.
#[derive(Debug, Clone, PartialEq, Eq)]
pub enum OutputCategory {
    Console,
    Important,
    Stdout,
    Stderr,
    Telemetry,
    Custom(String),
}

/// Model of a [`OutputCategory`].
pub enum OutputCategoryV {
    Console,
    Important,
    Stdout,
    Stderr,
    Telemetry,
    Custom(Seq<char>),
}

impl DeepView for OutputCategory {
    type V = OutputCategoryV;

    open spec fn deep_view(&self) -> OutputCategoryV {
        match self {
            OutputCategory::Console => OutputCategoryV::Console,
            OutputCategory::Important => OutputCategoryV::Important,
            OutputCategory::Stdout => OutputCategoryV::Stdout,
            OutputCategory::Stderr => OutputCategoryV::Stderr,
            OutputCategory::Telemetry => OutputCategoryV::Telemetry,
            OutputCategory::Custom(s) => OutputCategoryV::Custom(s@),
        }
    }
}

impl OutputCategoryV {
    /// The wire form of each value; a custom value is itself.
    pub open spec fn wire(self) -> Seq<char> {
        match self {
            OutputCategoryV::Console => "console"@,
            OutputCategoryV::Important => "important"@,
            OutputCategoryV::Stdout => "stdout"@,
            OutputCategoryV::Stderr => "stderr"@,
            OutputCategoryV::Telemetry => "telemetry"@,
            OutputCategoryV::Custom(s) => s,
        }
    }

    /// What decoding a wire form yields; unknown strings fall through.
    pub open spec fn spec_from(s: Seq<char>) -> OutputCategoryV {
        if s == "console"@ {
            OutputCategoryV::Console
        } else if s == "important"@ {
            OutputCategoryV::Important
        } else if s == "stdout"@ {
            OutputCategoryV::Stdout
        } else if s == "stderr"@ {
            OutputCategoryV::Stderr
        } else if s == "telemetry"@ {
            OutputCategoryV::Telemetry
        } else {
            OutputCategoryV::Custom(s)
        }
    }
}

impl OutputCategory {
    /// The wire form of this value; a custom value is itself.
    pub fn to_wire(self) -> (r: String)
        ensures
            r@ == self.deep_view().wire(),
    {
        match self {
            OutputCategory::Console => "console".to_owned(),
            OutputCategory::Important => "important".to_owned(),
            OutputCategory::Stdout => "stdout".to_owned(),
            OutputCategory::Stderr => "stderr".to_owned(),
            OutputCategory::Telemetry => "telemetry".to_owned(),
            OutputCategory::Custom(s) => s,
        }
    }

    /// Decodes a wire form; an unknown string is kept verbatim.
    pub fn from_string(s: String) -> (r: OutputCategory)
        ensures
            r.deep_view() == OutputCategoryV::spec_from(s@),
    {
        if str_eq(s.as_str(), "console") {
            OutputCategory::Console
        } else if str_eq(s.as_str(), "important") {
            OutputCategory::Important
        } else if str_eq(s.as_str(), "stdout") {
            OutputCategory::Stdout
        } else if str_eq(s.as_str(), "stderr") {
            OutputCategory::Stderr
        } else if str_eq(s.as_str(), "telemetry") {
            OutputCategory::Telemetry
        } else {
            OutputCategory::Custom(s)
        }
    }
}

/// Any wire form decodes and re-encodes to itself: a recognized name maps
/// to its value, and an unrecognized one is kept verbatim either way.
pub proof fn lemma_output_category_wire_roundtrip(s: Seq<char>)
    ensures
        OutputCategoryV::spec_from(s).wire() == s,
{
}

/// How output lines group: a closed set; an unknown string is a decode error.
#[derive(Debug, Clone, Copy, PartialEq, Eq)]
pub enum OutputGroup {
    Start,
    StartCollapsed,
    End,
}

impl DeepView for OutputGroup {
    type V = OutputGroup;

    open spec fn deep_view(&self) -> OutputGroup {
        *self
    }
}

impl OutputGroup {
    /// The wire name of each value.
    pub open spec fn wire(self) -> Seq<char> {
        match self {
            OutputGroup::Start => "start"@,
            OutputGroup::StartCollapsed => "startCollapsed"@,
            OutputGroup::End => "end"@,
        }
    }

    /// What decoding a wire name yields.
    pub open spec fn spec_from(s: Seq<char>) -> Result<OutputGroup, ErrorV> {
        if s == "start"@ {
            Ok(OutputGroup::Start)
        } else if s == "startCollapsed"@ {
            Ok(OutputGroup::StartCollapsed)
        } else if s == "end"@ {
            Ok(OutputGroup::End)
        } else {
            Err(errv("group"@, Cause::ExpectsEnum))
        }
    }

    /// The wire name of this value.
    pub fn as_str(&self) -> (r: &'static str)
        ensures
            r@ == self.wire(),
    {
        match self {
            OutputGroup::Start => "start",
            OutputGroup::StartCollapsed => "startCollapsed",
            OutputGroup::End => "end",
        }
    }

    /// Decodes a wire name.
    pub fn try_from(s: &str) -> (r: Result<OutputGroup, Error>)
        ensures
            rdv(r) == OutputGroup::spec_from(s@),
    {
        if str_eq(s, "start") {
            Ok(OutputGroup::Start)
        } else if str_eq(s, "startCollapsed") {
            Ok(OutputGroup::StartCollapsed)
        } else if str_eq(s, "end") {
            Ok(OutputGroup::End)
        } else {
            Err(Error::new("group", Cause::ExpectsEnum))
        }
    }

    /// A wire name decodes to the value it names.
    pub proof fn lemma_roundtrip(self)
        ensures
            OutputGroup::spec_from(self.wire()) == Ok::<OutputGroup, ErrorV>(self),
    {
        reveal_strlit("start");
        reveal_strlit("startCollapsed");
        reveal_strlit("end");
        assert("start"@.len() == 5);
        assert("startCollapsed"@.len() == 14);
        assert("end"@.len() == 3);
    }
}

/// Why a loaded-source event fired: a closed set; an unknown string is a decode error.
#[derive(Debug, Clone, Copy, PartialEq, Eq)]
pub enum LoadedSourceReason {
    New,
    Changed,
    Removed,
}

impl DeepView for LoadedSourceReason {
    type V = LoadedSourceReason;

    open spec fn deep_view(&self) -> LoadedSourceReason {
        *self
    }
}

impl LoadedSourceReason {
    /// The wire name of each value.
    pub open spec fn wire(self) -> Seq<char> {
        match self {
            LoadedSourceReason::New => "new"@,
            LoadedSourceReason::Changed => "changed"@,
            LoadedSourceReason::Removed => "removed"@,
        }
    }

    /// What decoding a wire name yields.
    pub open spec fn spec_from(s: Seq<char>) -> Result<LoadedSourceReason, ErrorV> {
        if s == "new"@ {
            Ok(LoadedSourceReason::New)
        } else if s == "changed"@ {
            Ok(LoadedSourceReason::Changed)
        } else if s == "removed"@ {
            Ok(LoadedSourceReason::Removed)
        } else {
            Err(errv("reason"@, Cause::ExpectsEnum))
        }
    }

    /// The wire name of this value.
    pub fn as_str(&self) -> (r: &'static str)
        ensures
            r@ == self.wire(),
    {
        match self {
            LoadedSourceReason::New => "new",
            LoadedSourceReason::Changed => "changed",
            LoadedSourceReason::Removed => "removed",
        }
    }

    /// Decodes a wire name.
    pub fn try_from(s: &str) -> (r: Result<LoadedSourceReason, Error>)
        ensures
            rdv(r) == LoadedSourceReason::spec_from(s@),
    {
        if str_eq(s, "new") {
            Ok(LoadedSourceReason::New)
        } else if str_eq(s, "changed") {
            Ok(LoadedSourceReason::Changed)
        } else if str_eq(s, "removed") {
            Ok(LoadedSourceReason::Removed)
        } else {
            Err(Error::new("reason", Cause::ExpectsEnum))
        }
    }

    /// A wire name decodes to the value it names.
    pub proof fn lemma_roundtrip(self)
        ensures
            LoadedSourceReason::spec_from(self.wire()) == Ok::<LoadedSourceReason, ErrorV>(self),
    {
        reveal_strlit("new");
        reveal_strlit("changed");
        reveal_strlit("removed");
        assert("new"@.len() == 3);
        assert("changed"@.len() == 7);
        assert("removed"@.len() == 7);
        assert("removed"@[0] != "changed"@[0]);
    }
}

/// How the debuggee process came to be: a closed set; an unknown string is a decode error.
#[derive(Debug, Clone, Copy, PartialEq, Eq)]
pub enum ProcessStartMethod {
    Launch,
    Attach,
    AttachForSuspendedLaunch,
}

impl DeepView for ProcessStartMethod {
    type V = ProcessStartMethod;

    open spec fn deep_view(&self) -> ProcessStartMethod {
        *self
    }
}

impl ProcessStartMethod {
    /// The wire name of each value.
    pub open spec fn wire(self) -> Seq<char> {
        match self {
            ProcessStartMethod::Launch => "launch"@,
            ProcessStartMethod::Attach => "attach"@,
            ProcessStartMethod::AttachForSuspendedLaunch => "attachForSuspendedLaunch"@,
        }
    }

    /// What decoding a wire name yields.
    pub open spec fn spec_from(s: Seq<char>) -> Result<ProcessStartMethod, ErrorV> {
        if s == "launch"@ {
            Ok(ProcessStartMethod::Launch)
        } else if s == "attach"@ {
            Ok(ProcessStartMethod::Attach)
        } else if s == "attachForSuspendedLaunch"@ {
            Ok(ProcessStartMethod::AttachForSuspendedLaunch)
        } else {
            Err(errv("reason"@, Cause::ExpectsEnum))
        }
    }

    /// The wire name of this value.
    pub fn as_str(&self) -> (r: &'static str)
        ensures
            r@ == self.wire(),
    {
        match self {
            ProcessStartMethod::Launch => "launch",
            ProcessStartMethod::Attach => "attach",
            ProcessStartMethod::AttachForSuspendedLaunch => "attachForSuspendedLaunch",
        }
    }

    /// Decodes a wire name.
    pub fn try_from(s: &str) -> (r: Result<ProcessStartMethod, Error>)
        ensures
            rdv(r) == ProcessStartMethod::spec_from(s@),
    {
        if str_eq(s, "launch") {
            Ok(ProcessStartMethod::Launch)
        } else if str_eq(s, "attach") {
            Ok(ProcessStartMethod::Attach)
        } else if str_eq(s, "attachForSuspendedLaunch") {
            Ok(ProcessStartMethod::AttachForSuspendedLaunch)
        } else {
            Err(Error::new("reason", Cause::ExpectsEnum))
        }
    }

    /// A wire name decodes to the value it names.
    pub proof fn lemma_roundtrip(self)
        ensures
            ProcessStartMethod::spec_from(self.wire()) == Ok::<ProcessStartMethod, ErrorV>(self),
    {
        reveal_strlit("launch");
        reveal_strlit("attach");
        reveal_strlit("attachForSuspendedLaunch");
        assert("launch"@.len() == 6);
        assert("attach"@.len() == 6);
        assert("attachForSuspendedLaunch"@.len() == 24);
        assert("attach"@[0] != "launch"@[0]);
    }
}

/// A server-to-client notification.
#[derive(Debug, PartialEq, Eq)]
pub enum Event {
    Breakpoint { reason: BreakpointReason, breakpoint: Breakpoint },
    Capabilities { capabilities: Capabilities },
    Continued { thread_id: u64, all_threads_continued: bool },
    Exited { exit_code: u64 },
    Initialized,
    LoadedSource { reason: LoadedSourceReason, source: Source },
    Output {
        category: Option<OutputCategory>,
        output: String,
        group: Option<OutputGroup>,
        variables_reference: Option<u32>,
        source: Option<Source>,
        line: Option<u64>,
        column: Option<u64>,
        data: Option<Json>,
    },
    Process {
        name: String,
        system_process_id: Option<u64>,
        is_local_process: bool,
        start_method: Option<ProcessStartMethod>,
        pointer_size: Option<u64>,
    },
    Stopped {
        reason: StoppedReason,
        description: Option<String>,
        thread_id: Option<u64>,
        preserve_focus_hint: bool,
        text: Option<String>,
        all_threads_stopped: bool,
        hit_breakpoint_ids: Vec<usize>,
    },
    Terminated { restart: Option<Json> },
    Thread { reason: ThreadReason, thread_id: u64 },
    Custom { body: Option<Json> },
}

/// Model of an [`Event`].
pub enum EventV {
    Breakpoint { reason: BreakpointReasonV, breakpoint: BreakpointV },
    Capabilities { capabilities: CapabilitiesV },
    Continued { thread_id: u64, all_threads_continued: bool },
    Exited { exit_code: u64 },
    Initialized,
    LoadedSource { reason: LoadedSourceReason, source: SourceV },
    Output {
        category: Option<OutputCategoryV>,
        output: Seq<char>,
        group: Option<OutputGroup>,
        variables_reference: Option<u32>,
        source: Option<SourceV>,
        line: Option<u64>,
        column: Option<u64>,
        data: Option<JsonV>,
    },
    Process {
        name: Seq<char>,
        system_process_id: Option<u64>,
        is_local_process: bool,
        start_method: Option<ProcessStartMethod>,
        pointer_size: Option<u64>,
    },
    Stopped {
        reason: StoppedReasonV,
        description: Option<Seq<char>>,
        thread_id: Option<u64>,
        preserve_focus_hint: bool,
        text: Option<Seq<char>>,
        all_threads_stopped: bool,
        hit_breakpoint_ids: Seq<usize>,
    },
    Terminated { restart: Option<JsonV> },
    Thread { reason: ThreadReasonV, thread_id: u64 },
    Custom { body: Option<JsonV> },
}

impl DeepView for Event {
    type V = EventV;

    open spec fn deep_view(&self) -> EventV {
        match self {
            Event::Breakpoint { reason, breakpoint } => EventV::Breakpoint {
                reason: reason.deep_view(),
                breakpoint: breakpoint.deep_view(),
            },
            Event::Capabilities { capabilities } => EventV::Capabilities {
                capabilities: capabilities.deep_view(),
            },
            Event::Continued { thread_id, all_threads_continued } => EventV::Continued {
                thread_id: *thread_id,
                all_threads_continued: *all_threads_continued,
            },
            Event::Exited { exit_code } => EventV::Exited { exit_code: *exit_code },
            Event::Initialized => EventV::Initialized,
            Event::LoadedSource { reason, source } => EventV::LoadedSource {
                reason: *reason,
                source: source.deep_view(),
            },
            Event::Output {
                category,
                output,
                group,
                variables_reference,
                source,
                line,
                column,
                data,
            } => EventV::Output {
                category: category.deep_view(),
                output: output@,
                group: *group,
                variables_reference: *variables_reference,
                source: source.deep_view(),
                line: *line,
                column: *column,
                data: data.deep_view(),
            },
            Event::Process {
                name,
                system_process_id,
                is_local_process,
                start_method,
                pointer_size,
            } => EventV::Process {
                name: name@,
                system_process_id: *system_process_id,
                is_local_process: *is_local_process,
                start_method: *start_method,
                pointer_size: *pointer_size,
            },
            Event::Stopped {
                reason,
                description,
                thread_id,
                preserve_focus_hint,
                text,
                all_threads_stopped,
                hit_breakpoint_ids,
            } => EventV::Stopped {
                reason: reason.deep_view(),
                description: description.deep_view(),
                thread_id: *thread_id,
                preserve_focus_hint: *preserve_focus_hint,
                text: text.deep_view(),
                all_threads_stopped: *all_threads_stopped,
                hit_breakpoint_ids: hit_breakpoint_ids@,
            },
            Event::Terminated { restart } => EventV::Terminated { restart: restart.deep_view() },
            Event::Thread { reason, thread_id } => EventV::Thread {
                reason: reason.deep_view(),
                thread_id: *thread_id,
            },
            Event::Custom { body } => EventV::Custom { body: body.deep_view() },
        }
    }
}

impl EventV {
    /// The wire name of each event.
    pub open spec fn name(self) -> Seq<char> {
        match self {
            EventV::Breakpoint { .. } => "breakpoint"@,
            EventV::Capabilities { .. } => "capabilities"@,
            EventV::Continued { .. } => "continued"@,
            EventV::Exited { .. } => "exited"@,
            EventV::Initialized => "initialized"@,
            EventV::LoadedSource { .. } => "loadedSource"@,
            EventV::Output { .. } => "output"@,
            EventV::Process { .. } => "process"@,
            EventV::Stopped { .. } => "stopped"@,
            EventV::Terminated { .. } => "terminated"@,
            EventV::Thread { .. } => "thread"@,
            EventV::Custom { .. } => "custom"@,
        }
    }

    /// The encoded body of each event.
    pub open spec fn body(self) -> Option<JsonV> {
        match self {
            EventV::Breakpoint { reason, breakpoint } => {
                let s = Seq::<(Seq<char>, JsonV)>::empty();
                let s = spec_attr_string(s, "reason"@, reason.wire());
                let s = spec_attr_json(s, "breakpoint"@, JsonV::Object(breakpoint.enc()));
                Some(JsonV::Object(s))
            },
            EventV::Capabilities { capabilities } => {
                let s = Seq::<(Seq<char>, JsonV)>::empty();
                let s = spec_attr_json(s, "capabilities"@, JsonV::Object(capabilities.enc()));
                Some(JsonV::Object(s))
            },
            EventV::Continued { thread_id, all_threads_continued } => {
                let s = Seq::<(Seq<char>, JsonV)>::empty();
                let s = spec_attr_u64(s, "threadId"@, thread_id);
                let s = spec_attr_bool_optional(s, "allThreadsContinued"@, all_threads_continued);
                Some(JsonV::Object(s))
            },
            EventV::Exited { exit_code } => {
                let s = Seq::<(Seq<char>, JsonV)>::empty();
                let s = spec_attr_u64(s, "exitCode"@, exit_code);
                Some(JsonV::Object(s))
            },
            EventV::Initialized => None,
            EventV::LoadedSource { reason, source } => {
                let s = Seq::<(Seq<char>, JsonV)>::empty();
                let s = spec_attr_string(s, "reason"@, reason.wire());
                let s = spec_attr_json(s, "source"@, JsonV::Object(source.enc()));
                Some(JsonV::Object(s))
            },
            EventV::Output {
                category,
                output,
                group,
                variables_reference,
                source,
                line,
                column,
                data,
            } => {
                let s = Seq::<(Seq<char>, JsonV)>::empty();
                let s = spec_attr_string_optional(
                    s,
                    "category"@,
                    match category {
                        Some(c) => Some(c.wire()),
                        None => None,
                    },
                );
                let s = spec_attr_string(s, "output"@, output);
                let s = spec_attr_string_optional(
                    s,
                    "group"@,
                    match group {
                        Some(g) => Some(g.wire()),
                        None => None,
                    },
                );
                let s = spec_attr_u32_optional(
                    s,
                    "variablesReference"@,
                    match variables_reference {
                        Some(n) => if n > 0 {
                            Some(n)
                        } else {
                            None
                        },
                        None => None,
                    },
                );
                let s = spec_attr_optional(
                    s,
                    "source"@,
                    match source {
                        Some(sv) => Some(JsonV::Object(sv.enc())),
                        None => None,
                    },
                );
                let s = spec_attr_u64_optional(s, "line"@, line);
                let s = spec_attr_u64_optional(s, "column"@, column);
                let s = spec_attr_optional(s, "data"@, data);
                Some(JsonV::Object(s))
            },
            EventV::Process {
                name,
                system_process_id,
                is_local_process,
                start_method,
                pointer_size,
            } => {
                let s = Seq::<(Seq<char>, JsonV)>::empty();
                let s = spec_attr_string(s, "name"@, name);
                let s = spec_attr_u64_optional(s, "systemProcessId"@, system_process_id);
                let s = spec_attr_bool_optional(s, "isLocalProcess"@, is_local_process);
                let s = spec_attr_string_optional(
                    s,
                    "startMethod"@,
                    match start_method {
                        Some(m) => Some(m.wire()),
                        None => None,
                    },
                );
                let s = spec_attr_u64_optional(s, "pointerSize"@, pointer_size);
                Some(JsonV::Object(s))
            },
            EventV::Stopped {
                reason,
                description,
                thread_id,
                preserve_focus_hint,
                text,
                all_threads_stopped,
                hit_breakpoint_ids,
            } => {
                let s = Seq::<(Seq<char>, JsonV)>::empty();
                let s = spec_attr_string(s, "reason"@, reason.wire());
                let s = spec_attr_string_optional(s, "description"@, description);
                let s = spec_attr_u64_optional(s, "threadId"@, thread_id);
                let s = spec_attr_bool_optional(s, "preserveFocusHint"@, preserve_focus_hint);
                let s = spec_attr_string_optional(s, "text"@, text);
                let s = spec_attr_bool_optional(s, "allThreadsStopped"@, all_threads_stopped);
                let s = spec_attr_array_optional(s, "hitBreakpointIds"@, sizes(hit_breakpoint_ids));
                Some(JsonV::Object(s))
            },
            EventV::Terminated { restart } => {
                match restart {
                    Some(v) => {
                        let s = Seq::<(Seq<char>, JsonV)>::empty();
                        let s = spec_attr_json(s, "restart"@, v);
                        Some(JsonV::Object(s))
                    },
                    None => None,
                }
            },
            EventV::Thread { reason, thread_id } => {
                let s = Seq::<(Seq<char>, JsonV)>::empty();
                let s = spec_attr_string(s, "reason"@, reason.wire());
                let s = spec_attr_u64(s, "threadId"@, thread_id);
                Some(JsonV::Object(s))
            },
            EventV::Custom { body } => body,
        }
    }

    /// What decoding an event envelope yields.
    pub open spec fn dec(ev: ProtocolEventV) -> Result<EventV, ErrorV> {
        let body = match ev.body {
            Some(JsonV::Object(e)) => Some(e),
            _ => None,
        };
        if ev.event == "breakpoint"@ {
            match body {
                None => Err(errv("body"@, Cause::IsMandatory)),
                Some(o) => match spec_get_string(o, "reason"@) {
                    Err(e) => Err(e),
                    Ok(w) => match spec_get_object(o, "breakpoint"@) {
                        Err(e) => Err(e),
                        Ok(be) => match BreakpointV::dec(be) {
                            Err(e) => Err(e),
                            Ok(breakpoint) => Ok(
                                EventV::Breakpoint {
                                    reason: BreakpointReasonV::spec_from(w),
                                    breakpoint,
                                },
                            ),
                        },
                    },
                },
            }
        } else if ev.event == "capabilities"@ {
            match body {
                None => Err(errv("body"@, Cause::IsMandatory)),
                Some(o) => match spec_get_object(o, "capabilities"@) {
                    Err(e) => Err(e),
                    Ok(ce) => match CapabilitiesV::dec(ce) {
                        Err(e) => Err(e),
                        Ok(capabilities) => Ok(EventV::Capabilities { capabilities }),
                    },
                },
            }
        } else if ev.event == "continued"@ {
            match body {
                None => Err(errv("body"@, Cause::IsMandatory)),
                Some(o) => match spec_get_u64(o, "threadId"@) {
                    Err(e) => Err(e),
                    Ok(thread_id) => match spec_get_bool_optional(o, "allThreadsContinued"@) {
                        Err(e) => Err(e),
                        Ok(all_threads_continued) => Ok(
                            EventV::Continued { thread_id, all_threads_continued },
                        ),
                    },
                },
            }
        } else if ev.event == "exited"@ {
            match body {
                None => Err(errv("body"@, Cause::IsMandatory)),
                Some(o) => match spec_get_u64(o, "exitCode"@) {
                    Err(e) => Err(e),
                    Ok(exit_code) => Ok(EventV::Exited { exit_code }),
                },
            }
        } else if ev.event == "initialized"@ {
            Ok(EventV::Initialized)
        } else if ev.event == "loadedSource"@ {
            match body {
                None => Err(errv("body"@, Cause::IsMandatory)),
                Some(o) => match spec_get_string(o, "reason"@) {
                    Err(e) => Err(e),
                    Ok(w) => match LoadedSourceReason::spec_from(w) {
                        Err(e) => Err(e),
                        Ok(reason) => match spec_get_object(o, "source"@) {
                            Err(e) => Err(e),
                            Ok(se) => match SourceV::dec(se) {
                                Err(e) => Err(e),
                                Ok(source) => Ok(EventV::LoadedSource { reason, source }),
                            },
                        },
                    },
                },
            }
        } else if ev.event == "output"@ {
            match body {
                None => Err(errv("body"@, Cause::IsMandatory)),
                Some(o) => Self::dec_output(o),
            }
        } else if ev.event == "process"@ {
            match body {
                None => Err(errv("body"@, Cause::IsMandatory)),
                Some(o) => Self::dec_process(o),
            }
        } else if ev.event == "stopped"@ {
            match body {
                None => Err(errv("body"@, Cause::IsMandatory)),
                Some(o) => Self::dec_stopped(o),
            }
        } else if ev.event == "terminated"@ {
            let restart = match body {
                Some(o) => spec_get_optional(o, "restart"@),
                None => None,
            };
            Ok(EventV::Terminated { restart })
        } else if ev.event == "thread"@ {
            match body {
                None => Err(errv("body"@, Cause::IsMandatory)),
                Some(o) => match spec_get_string(o, "reason"@) {
                    Err(e) => Err(e),
                    Ok(w) => match spec_get_u64(o, "threadId"@) {
                        Err(e) => Err(e),
                        Ok(thread_id) => Ok(
                            EventV::Thread { reason: ThreadReasonV::spec_from(w), thread_id },
                        ),
                    },
                },
            }
        } else if ev.event == "custom"@ {
            Ok(EventV::Custom { body: ev.body })
        } else {
            Err(errv("event"@, Cause::ExpectsEnum))
        }
    }

    /// What decoding an `output` event body yields.
    pub open spec fn dec_output(o: Seq<(Seq<char>, JsonV)>) -> Result<EventV, ErrorV> {
        match spec_get_string_optional(o, "category"@) {
            Err(e) => Err(e),
            Ok(cw) => {
                let category = match cw {
                    Some(w) => Some(OutputCategoryV::spec_from(w)),
                    None => None,
                };
                match spec_get_string(o, "output"@) {
                    Err(e) => Err(e),
                    Ok(output) => match spec_get_string_optional(o, "group"@) {
                        Err(e) => Err(e),
                        Ok(gw) => {
                            let group = match gw {
                                Some(w) => match OutputGroup::spec_from(w) {
                                    Ok(g) => Ok(Some(g)),
                                    Err(e) => Err(e),
                                },
                                None => Ok(None),
                            };
                            match group {
                                Err(e) => Err(e),
                                Ok(group) => match spec_get_u32_optional(o, "variablesReference"@) {
                                    Err(e) => Err(e),
                                    Ok(vr) => {
                                        let variables_reference = match vr {
                                            Some(n) => n,
                                            None => 0,
                                        };
                                        match spec_get_object_optional(o, "source"@) {
                                            Err(e) => Err(e),
                                            Ok(se) => {
                                                let source = match se {
                                                    Some(e) => match SourceV::dec(e) {
                                                        Ok(s) => Ok(Some(s)),
                                                        Err(er) => Err(er),
                                                    },
                                                    None => Ok(None),
                                                };
                                                match source {
                                                    Err(e) => Err(e),
                                                    Ok(source) => Self::dec_output_tail(
                                                        o,
                                                        category,
                                                        output,
                                                        group,
                                                        variables_reference,
                                                        source,
                                                    ),
                                                }
                                            },
                                        }
                                    },
                                },
                            }
                        },
                    },
                }
            },
        }
    }

    /// The last fields of an `output` event body.
    pub open spec fn dec_output_tail(
        o: Seq<(Seq<char>, JsonV)>,
        category: Option<OutputCategoryV>,
        output: Seq<char>,
        group: Option<OutputGroup>,
        variables_reference: u32,
        source: Option<SourceV>,
    ) -> Result<EventV, ErrorV> {
        match spec_get_u64_optional(o, "line"@) {
            Err(e) => Err(e),
            Ok(line) => match spec_get_u64_optional(o, "column"@) {
                Err(e) => Err(e),
                Ok(column) => Ok(
                    EventV::Output {
                        category,
                        output,
                        group,
                        variables_reference: Some(variables_reference),
                        source,
                        line,
                        column,
                        data: spec_get_optional(o, "data"@),
                    },
                ),
            },
        }
    }

    /// What decoding a `process` event body yields.
    pub open spec fn dec_process(o: Seq<(Seq<char>, JsonV)>) -> Result<EventV, ErrorV> {
        match spec_get_string(o, "name"@) {
            Err(e) => Err(e),
            Ok(name) => match spec_get_u64_optional(o, "systemProcessId"@) {
                Err(e) => Err(e),
                Ok(system_process_id) => match spec_get_bool_optional(o, "isLocalProcess"@) {
                    Err(e) => Err(e),
                    Ok(is_local_process) => match spec_get_string_optional(o, "startMethod"@) {
                        Err(e) => Err(e),
                        Ok(mw) => {
                            let start_method = match mw {
                                Some(w) => match ProcessStartMethod::spec_from(w) {
                                    Ok(m) => Ok(Some(m)),
                                    Err(e) => Err(e),
                                },
                                None => Ok(None),
                            };
                            match start_method {
                                Err(e) => Err(e),
                                Ok(start_method) => match spec_get_u64_optional(o, "pointerSize"@) {
                                    Err(e) => Err(e),
                                    Ok(pointer_size) => Ok(
                                        EventV::Process {
                                            name,
                                            system_process_id,
                                            is_local_process,
                                            start_method,
                                            pointer_size,
                                        },
                                    ),
                                },
                            }
                        },
                    },
                },
            },
        }
    }

    /// What decoding a `stopped` event body yields.
    pub open spec fn dec_stopped(o: Seq<(Seq<char>, JsonV)>) -> Result<EventV, ErrorV> {
        match spec_get_string(o, "reason"@) {
            Err(e) => Err(e),
            Ok(w) => match spec_get_string_optional(o, "description"@) {
                Err(e) => Err(e),
                Ok(description) => match spec_get_u64_optional(o, "threadId"@) {
                    Err(e) => Err(e),
                    Ok(thread_id) => match spec_get_bool_optional(o, "preserveFocusHint"@) {
                        Err(e) => Err(e),
                        Ok(preserve_focus_hint) => match spec_get_string_optional(o, "text"@) {
                            Err(e) => Err(e),
                            Ok(text) => match spec_get_bool_optional(o, "allThreadsStopped"@) {
                                Err(e) => Err(e),
                                Ok(all_threads_stopped) => match
                                    crate::utils::spec_get_array_usize_optional(
                                    o,
                                    "hitBreakpointIds"@,
                                ) {
                                    Err(e) => Err(e),
                                    Ok(hit_breakpoint_ids) => Ok(
                                        EventV::Stopped {
                                            reason: StoppedReasonV::spec_from(w),
                                            description,
                                            thread_id,
                                            preserve_focus_hint,
                                            text,
                                            all_threads_stopped,
                                            hit_breakpoint_ids,
                                        },
                                    ),
                                },
                            },
                        },
                    },
                },
            },
        }
    }
}

/// The model of sizes as JSON array elements.
pub open spec fn sizes(a: Seq<usize>) -> Seq<JsonV> {
    a.map_values(|x: usize| JsonV::U64(x as u64))
}

/// Turns sizes into JSON array elements.
fn sizes_into_json(v: Vec<usize>) -> (r: Vec<Json>)
    ensures
        elems_dv(r@) == sizes(v@),
{
    let mut out: Vec<Json> = Vec::new();
    let mut i: usize = 0;
    proof {
        assert(elems_dv(out@) =~= sizes(v@).take(0));
    }
    while i < v.len()
        invariant
            i <= v.len(),
            elems_dv(out@) =~= sizes(v@).take(i as int),
        decreases v.len() - i,
    {
        out.push(Json::U64(v[i] as u64));
        i += 1;
        proof {
            assert(elems_dv(out@) =~= sizes(v@).take(i as int));
        }
    }
    proof {
        assert(sizes(v@).take(v@.len() as int) =~= sizes(v@));
    }
    out
}

impl Event {
    /// Wraps this event in a protocol envelope bearing `seq`.
    #[verifier::rlimit(100)]
    pub fn into_protocol(self, seq: u64) -> (r: ProtocolEvent)
        ensures
            r.deep_view() == (ProtocolEventV {
                seq,
                event: self.deep_view().name(),
                body: self.deep_view().body(),
            }),
    {
        let ghost sdv = self.deep_view();
        match self {
            Event::Breakpoint { reason, breakpoint } => {
                let mut o: JsonObject = Vec::new();
                proof {
                    assert(entries_dv(o@) =~= Seq::<(Seq<char>, JsonV)>::empty());
                }
                attribute_string(&mut o, "reason", reason.to_wire());
                attribute(&mut o, "breakpoint", breakpoint.into_json());
                ProtocolEvent {
                    seq,
                    event: "breakpoint".to_owned(),
                    body: Some(Json::Object(o)),
                }
            },
            Event::Capabilities { capabilities } => {
                let mut o: JsonObject = Vec::new();
                proof {
                    assert(entries_dv(o@) =~= Seq::<(Seq<char>, JsonV)>::empty());
                }
                attribute(&mut o, "capabilities", capabilities.into_json());
                ProtocolEvent {
                    seq,
                    event: "capabilities".to_owned(),
                    body: Some(Json::Object(o)),
                }
            },
            Event::Continued { thread_id, all_threads_continued } => {
                let mut o: JsonObject = Vec::new();
                proof {
                    assert(entries_dv(o@) =~= Seq::<(Seq<char>, JsonV)>::empty());
                }
                attribute_u64(&mut o, "threadId", thread_id);
                attribute_bool_optional(&mut o, "allThreadsContinued", all_threads_continued);
                ProtocolEvent {
                    seq,
                    event: "continued".to_owned(),
                    body: Some(Json::Object(o)),
                }
            },
            Event::Exited { exit_code } => {
                let mut o: JsonObject = Vec::new();
                proof {
                    assert(entries_dv(o@) =~= Seq::<(Seq<char>, JsonV)>::empty());
                }
                attribute_u64(&mut o, "exitCode", exit_code);
                ProtocolEvent { seq, event: "exited".to_owned(), body: Some(Json::Object(o)) }
            },
            Event::Initialized => ProtocolEvent {
                seq,
                event: "initialized".to_owned(),
                body: None,
            },
            Event::LoadedSource { reason, source } => {
                let mut o: JsonObject = Vec::new();
                proof {
                    assert(entries_dv(o@) =~= Seq::<(Seq<char>, JsonV)>::empty());
                }
                attribute_str(&mut o, "reason", reason.as_str());
                attribute(&mut o, "source", source.into_json());
                ProtocolEvent {
                    seq,
                    event: "loadedSource".to_owned(),
                    body: Some(Json::Object(o)),
                }
            },
            Event::Output {
                category,
                output,
                group,
                variables_reference,
                source,
                line,
                column,
                data,
            } => {
                let mut o: JsonObject = Vec::new();
                proof {
                    assert(entries_dv(o@) =~= Seq::<(Seq<char>, JsonV)>::empty());
                }
                let cw: Option<String> = match category {
                    Some(c) => Some(c.to_wire()),
                    None => None,
                };
                attribute_string_optional(&mut o, "category", cw);
                attribute_string(&mut o, "output", output);
                let gw: Option<String> = match group {
                    Some(g) => Some(g.as_str().to_owned()),
                    None => None,
                };
                attribute_string_optional(&mut o, "group", gw);
                let vr: Option<u32> = match variables_reference {
                    Some(n) => if n > 0 {
                        Some(n)
                    } else {
                        None
                    },
                    None => None,
                };
                attribute_u32_optional(&mut o, "variablesReference", vr);
                match source {
                    Some(s) => attribute_optional(&mut o, "source", Some(s.into_json())),
                    None => attribute_optional(&mut o, "source", None),
                }
                attribute_u64_optional(&mut o, "line", line);
                attribute_u64_optional(&mut o, "column", column);
                attribute_optional(&mut o, "data", data);
                ProtocolEvent { seq, event: "output".to_owned(), body: Some(Json::Object(o)) }
            },
            Event::Process {
                name,
                system_process_id,
                is_local_process,
                start_method,
                pointer_size,
            } => {
                let mut o: JsonObject = Vec::new();
                proof {
                    assert(entries_dv(o@) =~= Seq::<(Seq<char>, JsonV)>::empty());
                }
                attribute_string(&mut o, "name", name);
                attribute_u64_optional(&mut o, "systemProcessId", system_process_id);
                attribute_bool_optional(&mut o, "isLocalProcess", is_local_process);
                let mw: Option<String> = match start_method {
                    Some(m) => Some(m.as_str().to_owned()),
                    None => None,
                };
                attribute_string_optional(&mut o, "startMethod", mw);
                attribute_u64_optional(&mut o, "pointerSize", pointer_size);
                ProtocolEvent { seq, event: "process".to_owned(), body: Some(Json::Object(o)) }
            },
            Event::Stopped {
                reason,
                description,
                thread_id,
                preserve_focus_hint,
                text,
                all_threads_stopped,
                hit_breakpoint_ids,
            } => {
                let mut o: JsonObject = Vec::new();
                proof {
                    assert(entries_dv(o@) =~= Seq::<(Seq<char>, JsonV)>::empty());
                }
                attribute_string(&mut o, "reason", reason.to_wire());
                attribute_string_optional(&mut o, "description", description);
                attribute_u64_optional(&mut o, "threadId", thread_id);
                attribute_bool_optional(&mut o, "preserveFocusHint", preserve_focus_hint);
                attribute_string_optional(&mut o, "text", text);
                attribute_bool_optional(&mut o, "allThreadsStopped", all_threads_stopped);
                let elems = sizes_into_json(hit_breakpoint_ids);
                attribute_array_optional(&mut o, "hitBreakpointIds", elems);
                ProtocolEvent { seq, event: "stopped".to_owned(), body: Some(Json::Object(o)) }
            },
            Event::Terminated { restart } => {
                let body: Option<Json> = match restart {
                    Some(v) => {
                        let mut o: JsonObject = Vec::new();
                        proof {
                            assert(entries_dv(o@) =~= Seq::<(Seq<char>, JsonV)>::empty());
                        }
                        attribute(&mut o, "restart", v);
                        Some(Json::Object(o))
                    },
                    None => None,
                };
                ProtocolEvent { seq, event: "terminated".to_owned(), body }
            },
            Event::Thread { reason, thread_id } => {
                let mut o: JsonObject = Vec::new();
                proof {
                    assert(entries_dv(o@) =~= Seq::<(Seq<char>, JsonV)>::empty());
                }
                attribute_string(&mut o, "reason", reason.to_wire());
                attribute_u64(&mut o, "threadId", thread_id);
                ProtocolEvent { seq, event: "thread".to_owned(), body: Some(Json::Object(o)) }
            },
            Event::Custom { body } => ProtocolEvent { seq, event: "custom".to_owned(), body },
        }
    }

    /// Reads a typed event out of a protocol envelope.
    #[verifier::rlimit(100)]
    pub fn try_from(ev: &ProtocolEvent) -> (r: Result<Event, Error>)
        ensures
            rdv(r) == EventV::dec(ev.deep_view()),
    {
        let body: Option<&JsonObject> = match &ev.body {
            Some(Json::Object(e)) => Some(e),
            _ => None,
        };
        if str_eq(ev.event.as_str(), "breakpoint") {
            let o = match body {
                None => {
                    return Err(Error::new("body", Cause::IsMandatory));
                },
                Some(o) => o,
            };
            let w = get_string(o, "reason")?;
            let reason = BreakpointReason::from_string(w);
            let be = get_object(o, "breakpoint")?;
            let breakpoint = Breakpoint::try_from(be)?;
            Ok(Event::Breakpoint { reason, breakpoint })
        } else if str_eq(ev.event.as_str(), "capabilities") {
            let o = match body {
                None => {
                    return Err(Error::new("body", Cause::IsMandatory));
                },
                Some(o) => o,
            };
            let ce = get_object(o, "capabilities")?;
            let capabilities = Capabilities::try_from(ce)?;
            Ok(Event::Capabilities { capabilities })
        } else if str_eq(ev.event.as_str(), "continued") {
            let o = match body {
                None => {
                    return Err(Error::new("body", Cause::IsMandatory));
                },
                Some(o) => o,
            };
            let thread_id = get_u64(o, "threadId")?;
            let all_threads_continued = get_bool_optional(o, "allThreadsContinued")?;
            Ok(Event::Continued { thread_id, all_threads_continued })
        } else if str_eq(ev.event.as_str(), "exited") {
            let o = match body {
                None => {
                    return Err(Error::new("body", Cause::IsMandatory));
                },
                Some(o) => o,
            };
            let exit_code = get_u64(o, "exitCode")?;
            Ok(Event::Exited { exit_code })
        } else if str_eq(ev.event.as_str(), "initialized") {
            Ok(Event::Initialized)
        } else if str_eq(ev.event.as_str(), "loadedSource") {
            let o = match body {
                None => {
                    return Err(Error::new("body", Cause::IsMandatory));
                },
                Some(o) => o,
            };
            let w = get_str(o, "reason")?;
            let reason = LoadedSourceReason::try_from(w)?;
            let se = get_object(o, "source")?;
            let source = Source::try_from(se)?;
            Ok(Event::LoadedSource { reason, source })
        } else if str_eq(ev.event.as_str(), "output") {
            let o = match body {
                None => {
                    return Err(Error::new("body", Cause::IsMandatory));
                },
                Some(o) => o,
            };
            let cw = get_string_optional(o, "category")?;
            let category = match cw {
                Some(w) => Some(OutputCategory::from_string(w)),
                None => None,
            };
            let output = get_string(o, "output")?;
            let group = match get_string_optional(o, "group")? {
                Some(w) => Some(OutputGroup::try_from(w.as_str())?),
                None => None,
            };
            let variables_reference = match get_u32_optional(o, "variablesReference")? {
                Some(n) => n,
                None => 0,
            };
            let source = match get_object_optional(o, "source")? {
                Some(e) => Some(Source::try_from(e)?),
                None => None,
            };
            let line = get_u64_optional(o, "line")?;
            let column = get_u64_optional(o, "column")?;
            let data = get_optional(o, "data");
            Ok(
                Event::Output {
                    category,
                    output,
                    group,
                    variables_reference: Some(variables_reference),
                    source,
                    line,
                    column,
                    data,
                },
            )
        } else if str_eq(ev.event.as_str(), "process") {
            let o = match body {
                None => {
                    return Err(Error::new("body", Cause::IsMandatory));
                },
                Some(o) => o,
            };
            let name = get_string(o, "name")?;
            let system_process_id = get_u64_optional(o, "systemProcessId")?;
            let is_local_process = get_bool_optional(o, "isLocalProcess")?;
            let start_method = match get_str_optional(o, "startMethod")? {
                Some(w) => Some(ProcessStartMethod::try_from(w)?),
                None => None,
            };
            let pointer_size = get_u64_optional(o, "pointerSize")?;
            Ok(
                Event::Process {
                    name,
                    system_process_id,
                    is_local_process,
                    start_method,
                    pointer_size,
                },
            )
        } else if str_eq(ev.event.as_str(), "stopped") {
            let o = match body {
                None => {
                    return Err(Error::new("body", Cause::IsMandatory));
                },
                Some(o) => o,
            };
            let w = get_string(o, "reason")?;
            let reason = StoppedReason::from_string(w);
            let description = get_string_optional(o, "description")?;
            let thread_id = get_u64_optional(o, "threadId")?;
            let preserve_focus_hint = get_bool_optional(o, "preserveFocusHint")?;
            let text = get_string_optional(o, "text")?;
            let all_threads_stopped = get_bool_optional(o, "allThreadsStopped")?;
            let hit_breakpoint_ids = crate::utils::get_array_usize_optional(
                o,
                "hitBreakpointIds",
            )?;
            proof {
                assert(hit_breakpoint_ids@ =~= hit_breakpoint_ids.deep_view());
            }
            Ok(
                Event::Stopped {
                    reason,
                    description,
                    thread_id,
                    preserve_focus_hint,
                    text,
                    all_threads_stopped,
                    hit_breakpoint_ids,
                },
            )
        } else if str_eq(ev.event.as_str(), "terminated") {
            let restart = match body {
                Some(o) => get_optional(o, "restart"),
                None => None,
            };
            Ok(Event::Terminated { restart })
        } else if str_eq(ev.event.as_str(), "thread") {
            let o = match body {
                None => {
                    return Err(Error::new("body", Cause::IsMandatory));
                },
                Some(o) => o,
            };
            let w = get_string(o, "reason")?;
            let reason = ThreadReason::from_string(w);
            let thread_id = get_u64(o, "threadId")?;
            Ok(Event::Thread { reason, thread_id })
        } else if str_eq(ev.event.as_str(), "custom") {
            let body = match &ev.body {
                Some(b) => Some(b.clone()),
                None => None,
            };
            Ok(Event::Custom { body })
        } else {
            Err(Error::new("event", Cause::ExpectsEnum))
        }
    }
}


} // verus!
