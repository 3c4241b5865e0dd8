//! The typed payloads of each DAP command: argument and response bodies.
//!
//! Every type follows the crate's codec pattern: a model twin, a decoder
//! pinned to a specification decoder, and an encoder pinned to a
//! specification encoder.

use vstd::prelude::*;

use crate::error::{Cause, Error, ErrorV};
use crate::json::{lookup, elems_dv, entries_dv, str_eq, Json, JsonV};
use crate::types::{
    sources_dv, spec_dec_obj_array, Breakpoint, BreakpointV, Capabilities, Source, SourceV,
    StackFrame, StackFrameFormat, StackFrameFormatV, StackFrameV, Scope, ScopeV, Thread, ThreadV,
    ValueFormat, ValueFormatV, Variable, VariablePresentationHint, VariablePresentationHintV,
    VariableV,
};
use crate::utils::{
    attribute, attribute_bool, attribute_bool_optional, attribute_optional, attribute_str,
    attribute_string, attribute_string_optional, attribute_u64, attribute_u64_optional, dec_seq,
    errv, get_bool, get_bool_optional, get_object, get_object_optional, get_optional, get_str,
    get_str_optional, get_string, get_string_optional, get_u64, get_u64_optional,
    lemma_dec_seq_err_prefix, lemma_dec_seq_push, rdv, spec_attr_bool, spec_attr_bool_optional,
    spec_attr_json, spec_attr_optional, spec_attr_string, spec_attr_string_optional,
    spec_attr_u64, spec_attr_u64_optional, spec_get_bool, spec_get_bool_optional,
    spec_get_object, spec_get_object_optional, spec_get_optional, spec_get_string,
    spec_get_string_optional, spec_get_u64, spec_get_u64_optional, JsonObject,
};

verus! {

broadcast use
    vstd::std_specs::vec::group_vec_axioms,
    crate::json::group_json_dv,
    vstd::string::group_string_axioms,
;

/// The answer to an `initialize` request: what the adapter supports.
pub type InitializeResponse = Capabilities;

/// Arguments of an `attach` request: an opaque restart payload.
#[derive(Debug, Clone, PartialEq, Eq)]
pub struct AttachArguments {
    pub restart: Option<Json>,
}

/// Model of an [`AttachArguments`].
pub struct AttachArgumentsV {
    pub restart: Option<JsonV>,
}

impl DeepView for AttachArguments {
    type V = AttachArgumentsV;

    open spec fn deep_view(&self) -> AttachArgumentsV {
        AttachArgumentsV { restart: self.restart.deep_view() }
    }
}

impl AttachArgumentsV {
    /// The encoded entries of this value.
    pub open spec fn enc(self) -> Seq<(Seq<char>, JsonV)> {
        spec_attr_optional(Seq::empty(), "__restart"@, self.restart)
    }

    /// What decoding an object as this type yields; it cannot fail.
    pub open spec fn dec(o: Seq<(Seq<char>, JsonV)>) -> AttachArgumentsV {
        AttachArgumentsV { restart: spec_get_optional(o, "__restart"@) }
    }
}

impl AttachArguments {
    /// Encodes this value as a JSON object.
    pub fn into_json(self) -> (r: Json)
        ensures
            r.deep_view() == JsonV::Object(self.deep_view().enc()),
    {
        let mut o: JsonObject = Vec::new();
        proof {
            assert(entries_dv(o@) =~= Seq::<(Seq<char>, JsonV)>::empty());
        }
        attribute_optional(&mut o, "__restart", self.restart);
        Json::Object(o)
    }

    /// Decodes a JSON object as this type; it cannot fail.
    pub fn from_object(o: &JsonObject) -> (r: AttachArguments)
        ensures
            r.deep_view() == AttachArgumentsV::dec(entries_dv(o@)),
    {
        AttachArguments { restart: get_optional(o, "__restart") }
    }
}

/// Arguments of a `restart` request: the launch or attach arguments to
/// restart with, told apart by the presence of `noDebug`.
#[derive(Debug, Clone, PartialEq, Eq)]
pub enum RestartArguments {
    Launch(LaunchArguments),
    Attach(AttachArguments),
}

/// Model of a [`RestartArguments`].
pub enum RestartArgumentsV {
    Launch(LaunchArgumentsV),
    Attach(AttachArgumentsV),
}

impl DeepView for RestartArguments {
    type V = RestartArgumentsV;

    open spec fn deep_view(&self) -> RestartArgumentsV {
        match self {
            RestartArguments::Launch(l) => RestartArgumentsV::Launch(l.deep_view()),
            RestartArguments::Attach(a) => RestartArgumentsV::Attach(a.deep_view()),
        }
    }
}

impl RestartArgumentsV {
    /// The encoded entries of this value.
    pub open spec fn enc(self) -> Seq<(Seq<char>, JsonV)> {
        match self {
            RestartArgumentsV::Launch(l) => l.enc(),
            RestartArgumentsV::Attach(a) => a.enc(),
        }
    }

    /// What decoding an object as this type yields.
    pub open spec fn dec(o: Seq<(Seq<char>, JsonV)>) -> Result<RestartArgumentsV, ErrorV> {
        if lookup(o, "noDebug"@) is Some {
            match LaunchArgumentsV::dec(o) {
                Ok(l) => Ok(RestartArgumentsV::Launch(l)),
                Err(e) => Err(e),
            }
        } else {
            Ok(RestartArgumentsV::Attach(AttachArgumentsV::dec(o)))
        }
    }
}

impl RestartArguments {
    /// Encodes this value as a JSON object.
    pub fn into_json(self) -> (r: Json)
        ensures
            r.deep_view() == JsonV::Object(self.deep_view().enc()),
    {
        match self {
            RestartArguments::Launch(l) => l.into_json(),
            RestartArguments::Attach(a) => a.into_json(),
        }
    }

    /// Decodes a JSON object as this type.
    pub fn try_from(o: &JsonObject) -> (r: Result<RestartArguments, Error>)
        ensures
            rdv(r) == RestartArgumentsV::dec(entries_dv(o@)),
    {
        if crate::json::obj_find(o, "noDebug").is_some() {
            match LaunchArguments::try_from(o) {
                Ok(l) => Ok(RestartArguments::Launch(l)),
                Err(e) => Err(e),
            }
        } else {
            Ok(RestartArguments::Attach(AttachArguments::from_object(o)))
        }
    }
}

/// Arguments of a `configurationDone` request: none are defined.
#[derive(Debug, Clone, Copy, PartialEq, Eq)]
pub struct ConfigurationDoneArguments {}

/// Model of a [`ConfigurationDoneArguments`].
pub struct ConfigurationDoneArgumentsV {}

impl DeepView for ConfigurationDoneArguments {
    type V = ConfigurationDoneArgumentsV;

    open spec fn deep_view(&self) -> ConfigurationDoneArgumentsV {
        ConfigurationDoneArgumentsV {}
    }
}

impl ConfigurationDoneArgumentsV {
    /// The encoded entries of this value: none.
    pub open spec fn enc(self) -> Seq<(Seq<char>, JsonV)> {
        Seq::empty()
    }
}

impl ConfigurationDoneArguments {
    /// Encodes this value as an empty JSON object.
    pub fn into_json(self) -> (r: Json)
        ensures
            r.deep_view() == JsonV::Object(self.deep_view().enc()),
    {
        let o: JsonObject = Vec::new();
        proof {
            assert(entries_dv(o@) =~= Seq::<(Seq<char>, JsonV)>::empty());
        }
        Json::Object(o)
    }

    /// Decodes any JSON object as this type; it cannot fail.
    pub fn from_object(o: &JsonObject) -> (r: ConfigurationDoneArguments)
        ensures
            r == (ConfigurationDoneArguments {  }),
    {
        let _ = o;
        ConfigurationDoneArguments {}
    }
}

/// Arguments of a `loadedSources` request: none are defined.
#[derive(Debug, Clone, Copy, PartialEq, Eq)]
pub struct LoadedSourcesArguments {}

/// Model of a [`LoadedSourcesArguments`].
pub struct LoadedSourcesArgumentsV {}

impl DeepView for LoadedSourcesArguments {
    type V = LoadedSourcesArgumentsV;

    open spec fn deep_view(&self) -> LoadedSourcesArgumentsV {
        LoadedSourcesArgumentsV {}
    }
}

impl LoadedSourcesArgumentsV {
    /// The encoded entries of this value: none.
    pub open spec fn enc(self) -> Seq<(Seq<char>, JsonV)> {
        Seq::empty()
    }
}

impl LoadedSourcesArguments {
    /// Encodes this value as an empty JSON object.
    pub fn into_json(self) -> (r: Json)
        ensures
            r.deep_view() == JsonV::Object(self.deep_view().enc()),
    {
        let o: JsonObject = Vec::new();
        proof {
            assert(entries_dv(o@) =~= Seq::<(Seq<char>, JsonV)>::empty());
        }
        Json::Object(o)
    }

    /// Decodes any JSON object as this type; it cannot fail.
    pub fn from_object(o: &JsonObject) -> (r: LoadedSourcesArguments)
        ensures
            r == (LoadedSourcesArguments {  }),
    {
        let _ = o;
        LoadedSourcesArguments {}
    }
}

/// The answer to a `loadedSources` request: every source the adapter knows.
#[derive(Debug, PartialEq, Eq)]
pub struct LoadedSourcesResponse {
    pub sources: Vec<Source>,
}

/// Model of a [`LoadedSourcesResponse`].
pub struct LoadedSourcesResponseV {
    pub sources: Seq<SourceV>,
}

impl DeepView for LoadedSourcesResponse {
    type V = LoadedSourcesResponseV;

    open spec fn deep_view(&self) -> LoadedSourcesResponseV {
        LoadedSourcesResponseV { sources: sources_dv(self.sources@) }
    }
}

impl LoadedSourcesResponseV {
    /// The encoded entries of this value.
    pub open spec fn enc(self) -> Seq<(Seq<char>, JsonV)> {
        spec_attr_json(Seq::empty(), "sources"@, JsonV::Array(SourceV::enc_seq(self.sources)))
    }

    /// What decoding an object as this type yields; an absent list is empty.
    pub open spec fn dec(o: Seq<(Seq<char>, JsonV)>) -> Result<LoadedSourcesResponseV, ErrorV> {
        match SourceV::dec_sources_attr(o) {
            Err(e) => Err(e),
            Ok(sources) => Ok(LoadedSourcesResponseV { sources }),
        }
    }
}

impl LoadedSourcesResponse {
    /// Encodes this value as a JSON object.
    pub fn into_json(self) -> (r: Json)
        ensures
            r.deep_view() == JsonV::Object(self.deep_view().enc()),
    {
        let mut o: JsonObject = Vec::new();
        proof {
            assert(entries_dv(o@) =~= Seq::<(Seq<char>, JsonV)>::empty());
        }
        let elems = crate::types::sources_into_json(self.sources);
        attribute(&mut o, "sources", Json::Array(elems));
        Json::Object(o)
    }

    /// Decodes a JSON object as this type.
    pub fn try_from(o: &JsonObject) -> (r: Result<LoadedSourcesResponse, Error>)
        ensures
            rdv(r) == LoadedSourcesResponseV::dec(entries_dv(o@)),
    {
        let sources = Source::dec_sources(o)?;
        Ok(LoadedSourcesResponse { sources })
    }
}

/// Where an evaluation was requested from: an open set; an unrecognized string is kept verbatim.
#[derive(Debug, Clone, PartialEq, Eq)]
pub enum EvaluateContext {
    Variables,
    Watch,
    Repl,
    Hover,
    Clipboard,
    Custom(String),
}

/// Model of a [`EvaluateContext`].
pub enum EvaluateContextV {
    Variables,
    Watch,
    Repl,
    Hover,
    Clipboard,
    Custom(Seq<char>),
}

impl DeepView for EvaluateContext {
    type V = EvaluateContextV;

    open spec fn deep_view(&self) -> EvaluateContextV {
        match self {
            EvaluateContext::Variables => EvaluateContextV::Variables,
            EvaluateContext::Watch => EvaluateContextV::Watch,
            EvaluateContext::Repl => EvaluateContextV::Repl,
            EvaluateContext::Hover => EvaluateContextV::Hover,
            EvaluateContext::Clipboard => EvaluateContextV::Clipboard,
            EvaluateContext::Custom(s) => EvaluateContextV::Custom(s@),
        }
    }
}

impl EvaluateContextV {
    /// The wire form of each value; a custom value is itself.
    pub open spec fn wire(self) -> Seq<char> {
        match self {
            EvaluateContextV::Variables => "variables"@,
            EvaluateContextV::Watch => "watch"@,
            EvaluateContextV::Repl => "repl"@,
            EvaluateContextV::Hover => "hover"@,
            EvaluateContextV::Clipboard => "clipboard"@,
            EvaluateContextV::Custom(s) => s,
        }
    }

    /// What decoding a wire form yields; unknown strings fall through.
    pub open spec fn spec_from(s: Seq<char>) -> EvaluateContextV {
        if s == "variables"@ {
            EvaluateContextV::Variables
        } else if s == "watch"@ {
            EvaluateContextV::Watch
        } else if s == "repl"@ {
            EvaluateContextV::Repl
        } else if s == "hover"@ {
            EvaluateContextV::Hover
        } else if s == "clipboard"@ {
            EvaluateContextV::Clipboard
        } else {
            EvaluateContextV::Custom(s)
        }
    }
}

impl EvaluateContext {
    /// The wire form of this value; a custom value is itself.
    pub fn to_wire(self) -> (r: String)
        ensures
            r@ == self.deep_view().wire(),
    {
        match self {
            EvaluateContext::Variables => "variables".to_owned(),
            EvaluateContext::Watch => "watch".to_owned(),
            EvaluateContext::Repl => "repl".to_owned(),
            EvaluateContext::Hover => "hover".to_owned(),
            EvaluateContext::Clipboard => "clipboard".to_owned(),
            EvaluateContext::Custom(s) => s,
        }
    }

    /// Decodes a wire form; an unknown string is kept verbatim.
    pub fn from_string(s: String) -> (r: EvaluateContext)
        ensures
            r.deep_view() == EvaluateContextV::spec_from(s@),
    {
        if str_eq(s.as_str(), "variables") {
            EvaluateContext::Variables
        } else if str_eq(s.as_str(), "watch") {
            EvaluateContext::Watch
        } else if str_eq(s.as_str(), "repl") {
            EvaluateContext::Repl
        } else if str_eq(s.as_str(), "hover") {
            EvaluateContext::Hover
        } else if str_eq(s.as_str(), "clipboard") {
            EvaluateContext::Clipboard
        } else {
            EvaluateContext::Custom(s)
        }
    }
}

/// Any wire form decodes and re-encodes to itself: a recognized name maps
/// to its value, and an unrecognized one is kept verbatim either way.
pub proof fn lemma_evaluate_context_wire_roundtrip(s: Seq<char>)
    ensures
        EvaluateContextV::spec_from(s).wire() == s,
{
}


/// How paths are exchanged: an open set; an unrecognized string is kept verbatim.
#[derive(Debug, Clone, PartialEq, Eq)]
pub enum PathFormat {
    Path,
    Uri,
    Custom(String),
}

/// Model of a [`PathFormat`].
pub enum PathFormatV {
    Path,
    Uri,
    Custom(Seq<char>),
}

impl DeepView for PathFormat {
    type V = PathFormatV;

    open spec fn deep_view(&self) -> PathFormatV {
        match self {
            PathFormat::Path => PathFormatV::Path,
            PathFormat::Uri => PathFormatV::Uri,
            PathFormat::Custom(s) => PathFormatV::Custom(s@),
        }
    }
}

impl PathFormatV {
    /// The wire form of each value; a custom value is itself.
    pub open spec fn wire(self) -> Seq<char> {
        match self {
            PathFormatV::Path => "path"@,
            PathFormatV::Uri => "uri"@,
            PathFormatV::Custom(s) => s,
        }
    }

    /// What decoding a wire form yields; unknown strings fall through.
    pub open spec fn spec_from(s: Seq<char>) -> PathFormatV {
        if s == "path"@ {
            PathFormatV::Path
        } else if s == "uri"@ {
            PathFormatV::Uri
        } else {
            PathFormatV::Custom(s)
        }
    }
}

impl PathFormat {
    /// The wire form of this value; a custom value is itself.
    pub fn to_wire(self) -> (r: String)
        ensures
            r@ == self.deep_view().wire(),
    {
        match self {
            PathFormat::Path => "path".to_owned(),
            PathFormat::Uri => "uri".to_owned(),
            PathFormat::Custom(s) => s,
        }
    }

    /// Decodes a wire form; an unknown string is kept verbatim.
    pub fn from_string(s: String) -> (r: PathFormat)
        ensures
            r.deep_view() == PathFormatV::spec_from(s@),
    {
        if str_eq(s.as_str(), "path") {
            PathFormat::Path
        } else if str_eq(s.as_str(), "uri") {
            PathFormat::Uri
        } else {
            PathFormat::Custom(s)
        }
    }
}

/// Any wire form decodes and re-encodes to itself: a recognized name maps
/// to its value, and an unrecognized one is kept verbatim either way.
pub proof fn lemma_path_format_wire_roundtrip(s: Seq<char>)
    ensures
        PathFormatV::spec_from(s).wire() == s,
{
}


/// How far one step goes: a closed set; an unknown string is a decode error.
#[derive(Debug, Clone, Copy, PartialEq, Eq)]
pub enum SteppingGranularity {
    Statement,
    Line,
    Instruction,
}

impl DeepView for SteppingGranularity {
    type V = SteppingGranularity;

    open spec fn deep_view(&self) -> SteppingGranularity {
        *self
    }
}

impl SteppingGranularity {
    /// The wire name of each value.
    pub open spec fn wire(self) -> Seq<char> {
        match self {
            SteppingGranularity::Statement => "statement"@,
            SteppingGranularity::Line => "line"@,
            SteppingGranularity::Instruction => "instruction"@,
        }
    }

    /// What decoding a wire name yields.
    pub open spec fn spec_from(s: Seq<char>) -> Result<SteppingGranularity, ErrorV> {
        if s == "statement"@ {
            Ok(SteppingGranularity::Statement)
        } else if s == "line"@ {
            Ok(SteppingGranularity::Line)
        } else if s == "instruction"@ {
            Ok(SteppingGranularity::Instruction)
        } else {
            Err(errv("granularity"@, Cause::ExpectsEnum))
        }
    }

    /// The wire name of this value.
    pub fn as_str(&self) -> (r: &'static str)
        ensures
            r@ == self.wire(),
    {
        match self {
            SteppingGranularity::Statement => "statement",
            SteppingGranularity::Line => "line",
            SteppingGranularity::Instruction => "instruction",
        }
    }

    /// Decodes a wire name.
    pub fn try_from(s: &str) -> (r: Result<SteppingGranularity, Error>)
        ensures
            rdv(r) == SteppingGranularity::spec_from(s@),
    {
        if str_eq(s, "statement") {
            Ok(SteppingGranularity::Statement)
        } else if str_eq(s, "line") {
            Ok(SteppingGranularity::Line)
        } else if str_eq(s, "instruction") {
            Ok(SteppingGranularity::Instruction)
        } else {
            Err(Error::new("granularity", Cause::ExpectsEnum))
        }
    }

    /// A wire name decodes to the value it names.
    pub proof fn lemma_roundtrip(self)
        ensures
            SteppingGranularity::spec_from(self.wire()) == Ok::<SteppingGranularity, ErrorV>(self),
    {
        reveal_strlit("statement");
        reveal_strlit("line");
        reveal_strlit("instruction");
        assert("statement"@.len() == 9);
        assert("line"@.len() == 4);
        assert("instruction"@.len() == 11);
    }
}


/// When the debugger breaks on an exception: a closed set; an unknown string is a decode error.
#[derive(Debug, Clone, Copy, PartialEq, Eq)]
pub enum ExceptionBreakMode {
    Never,
    Always,
    Unhandled,
    UserUnhandled,
}

impl DeepView for ExceptionBreakMode {
    type V = ExceptionBreakMode;

    open spec fn deep_view(&self) -> ExceptionBreakMode {
        *self
    }
}

impl ExceptionBreakMode {
    /// The wire name of each value.
    pub open spec fn wire(self) -> Seq<char> {
        match self {
            ExceptionBreakMode::Never => "never"@,
            ExceptionBreakMode::Always => "always"@,
            ExceptionBreakMode::Unhandled => "unhandled"@,
            ExceptionBreakMode::UserUnhandled => "userUnhandled"@,
        }
    }

    /// What decoding a wire name yields.
    pub open spec fn spec_from(s: Seq<char>) -> Result<ExceptionBreakMode, ErrorV> {
        if s == "never"@ {
            Ok(ExceptionBreakMode::Never)
        } else if s == "always"@ {
            Ok(ExceptionBreakMode::Always)
        } else if s == "unhandled"@ {
            Ok(ExceptionBreakMode::Unhandled)
        } else if s == "userUnhandled"@ {
            Ok(ExceptionBreakMode::UserUnhandled)
        } else {
            Err(errv("ExceptionBreakMode"@, Cause::ExpectsEnum))
        }
    }

    /// The wire name of this value.
    pub fn as_str(&self) -> (r: &'static str)
        ensures
            r@ == self.wire(),
    {
        match self {
            ExceptionBreakMode::Never => "never",
            ExceptionBreakMode::Always => "always",
            ExceptionBreakMode::Unhandled => "unhandled",
            ExceptionBreakMode::UserUnhandled => "userUnhandled",
        }
    }

    /// Decodes a wire name.
    pub fn try_from(s: &str) -> (r: Result<ExceptionBreakMode, Error>)
        ensures
            rdv(r) == ExceptionBreakMode::spec_from(s@),
    {
        if str_eq(s, "never") {
            Ok(ExceptionBreakMode::Never)
        } else if str_eq(s, "always") {
            Ok(ExceptionBreakMode::Always)
        } else if str_eq(s, "unhandled") {
            Ok(ExceptionBreakMode::Unhandled)
        } else if str_eq(s, "userUnhandled") {
            Ok(ExceptionBreakMode::UserUnhandled)
        } else {
            Err(Error::new("ExceptionBreakMode", Cause::ExpectsEnum))
        }
    }

    /// A wire name decodes to the value it names.
    pub proof fn lemma_roundtrip(self)
        ensures
            ExceptionBreakMode::spec_from(self.wire()) == Ok::<ExceptionBreakMode, ErrorV>(self),
    {
        reveal_strlit("never");
        reveal_strlit("always");
        reveal_strlit("unhandled");
        reveal_strlit("userUnhandled");
        assert("never"@.len() == 5);
        assert("always"@.len() == 6);
        assert("unhandled"@.len() == 9);
        assert("userUnhandled"@.len() == 13);
    }
}


/// Which variables a request selects: a closed set; an unknown string is a decode error.
#[derive(Debug, Clone, Copy, PartialEq, Eq)]
pub enum VariablesArgumentsFilter {
    Indexed,
    Named,
}

impl DeepView for VariablesArgumentsFilter {
    type V = VariablesArgumentsFilter;

    open spec fn deep_view(&self) -> VariablesArgumentsFilter {
        *self
    }
}

impl VariablesArgumentsFilter {
    /// The wire name of each value.
    pub open spec fn wire(self) -> Seq<char> {
        match self {
            VariablesArgumentsFilter::Indexed => "indexed"@,
            VariablesArgumentsFilter::Named => "named"@,
        }
    }

    /// What decoding a wire name yields.
    pub open spec fn spec_from(s: Seq<char>) -> Result<VariablesArgumentsFilter, ErrorV> {
        if s == "indexed"@ {
            Ok(VariablesArgumentsFilter::Indexed)
        } else if s == "named"@ {
            Ok(VariablesArgumentsFilter::Named)
        } else {
            Err(errv("filter"@, Cause::ExpectsEnum))
        }
    }

    /// The wire name of this value.
    pub fn as_str(&self) -> (r: &'static str)
        ensures
            r@ == self.wire(),
    {
        match self {
            VariablesArgumentsFilter::Indexed => "indexed",
            VariablesArgumentsFilter::Named => "named",
        }
    }

    /// Decodes a wire name.
    pub fn try_from(s: &str) -> (r: Result<VariablesArgumentsFilter, Error>)
        ensures
            rdv(r) == VariablesArgumentsFilter::spec_from(s@),
    {
        if str_eq(s, "indexed") {
            Ok(VariablesArgumentsFilter::Indexed)
        } else if str_eq(s, "named") {
            Ok(VariablesArgumentsFilter::Named)
        } else {
            Err(Error::new("filter", Cause::ExpectsEnum))
        }
    }

    /// A wire name decodes to the value it names.
    pub proof fn lemma_roundtrip(self)
        ensures
            VariablesArgumentsFilter::spec_from(self.wire()) == Ok::<VariablesArgumentsFilter, ErrorV>(self),
    {
        reveal_strlit("indexed");
        reveal_strlit("named");
        assert("indexed"@.len() == 7);
        assert("named"@.len() == 5);
    }
}


/// Arguments of a `launch` request.
#[derive(Debug, Clone, PartialEq, Eq)]
pub struct LaunchArguments {
    pub no_debug: bool,
    pub restart: Option<Json>,
}

/// Model of a [`LaunchArguments`].
pub struct LaunchArgumentsV {
    pub no_debug: bool,
    pub restart: Option<JsonV>,
}

impl DeepView for LaunchArguments {
    type V = LaunchArgumentsV;

    open spec fn deep_view(&self) -> LaunchArgumentsV {
        LaunchArgumentsV {
            no_debug: self.no_debug,
            restart: self.restart.deep_view(),
        }
    }
}

impl LaunchArgumentsV {
    /// The encoded entries of this value.
    pub open spec fn enc(self) -> Seq<(Seq<char>, JsonV)> {
        let s = Seq::<(Seq<char>, JsonV)>::empty();
        let s = spec_attr_bool_optional(s, "noDebug"@, self.no_debug);
        let s = spec_attr_optional(s, "__restart"@, self.restart);
        s
    }

    /// What decoding an object as this type yields.
    pub open spec fn dec(o: Seq<(Seq<char>, JsonV)>) -> Result<LaunchArgumentsV, ErrorV> {
        match spec_get_bool_optional(o, "noDebug"@) {
            Err(e) => Err(e),
            Ok(no_debug) =>
            match Ok::<Option<JsonV>, ErrorV>(spec_get_optional(o, "__restart"@)) {
                Err(e) => Err(e),
                Ok(restart) =>
                Ok(
                    LaunchArgumentsV {
                        no_debug,
                        restart,
                    },
                )
            }
        }
    }
}

impl LaunchArguments {
    /// Encodes this value as a JSON object.
    pub fn into_json(self) -> (r: Json)
        ensures
            r.deep_view() == JsonV::Object(self.deep_view().enc()),
    {
        let mut o: JsonObject = Vec::new();
        proof {
            assert(entries_dv(o@) =~= Seq::<(Seq<char>, JsonV)>::empty());
        }
        attribute_bool_optional(&mut o, "noDebug", self.no_debug);
        attribute_optional(&mut o, "__restart", self.restart);
        Json::Object(o)
    }

    /// Decodes a JSON object as this type.
    pub fn try_from(o: &JsonObject) -> (r: Result<LaunchArguments, Error>)
        ensures
            rdv(r) == LaunchArgumentsV::dec(entries_dv(o@)),
    {
        let no_debug = get_bool_optional(o, "noDebug")?;
        let restart = get_optional(o, "__restart");
        Ok(
            LaunchArguments {
                no_debug,
                restart,
            },
        )
    }
}


/// Arguments of a `disconnect` request.
#[derive(Debug, Clone, Copy, PartialEq, Eq)]
pub struct DisconnectArguments {
    pub restart: bool,
    pub terminate_debuggee: bool,
    pub suspend_debuggee: bool,
}

/// Model of a [`DisconnectArguments`].
pub struct DisconnectArgumentsV {
    pub restart: bool,
    pub terminate_debuggee: bool,
    pub suspend_debuggee: bool,
}

impl DeepView for DisconnectArguments {
    type V = DisconnectArgumentsV;

    open spec fn deep_view(&self) -> DisconnectArgumentsV {
        DisconnectArgumentsV {
            restart: self.restart,
            terminate_debuggee: self.terminate_debuggee,
            suspend_debuggee: self.suspend_debuggee,
        }
    }
}

impl DisconnectArgumentsV {
    /// The encoded entries of this value.
    pub open spec fn enc(self) -> Seq<(Seq<char>, JsonV)> {
        let s = Seq::<(Seq<char>, JsonV)>::empty();
        let s = spec_attr_bool_optional(s, "restart"@, self.restart);
        let s = spec_attr_bool_optional(s, "terminateDebuggee"@, self.terminate_debuggee);
        let s = spec_attr_bool_optional(s, "suspendDebuggee"@, self.suspend_debuggee);
        s
    }

    /// What decoding an object as this type yields.
    pub open spec fn dec(o: Seq<(Seq<char>, JsonV)>) -> Result<DisconnectArgumentsV, ErrorV> {
        match spec_get_bool_optional(o, "restart"@) {
            Err(e) => Err(e),
            Ok(restart) =>
            match spec_get_bool_optional(o, "terminateDebuggee"@) {
                Err(e) => Err(e),
                Ok(terminate_debuggee) =>
                match spec_get_bool_optional(o, "suspendDebuggee"@) {
                    Err(e) => Err(e),
                    Ok(suspend_debuggee) =>
                    Ok(
                        DisconnectArgumentsV {
                            restart,
                            terminate_debuggee,
                            suspend_debuggee,
                        },
                    )
                }
            }
        }
    }
}

impl DisconnectArguments {
    /// Encodes this value as a JSON object.
    pub fn into_json(self) -> (r: Json)
        ensures
            r.deep_view() == JsonV::Object(self.deep_view().enc()),
    {
        let mut o: JsonObject = Vec::new();
        proof {
            assert(entries_dv(o@) =~= Seq::<(Seq<char>, JsonV)>::empty());
        }
        attribute_bool_optional(&mut o, "restart", self.restart);
        attribute_bool_optional(&mut o, "terminateDebuggee", self.terminate_debuggee);
        attribute_bool_optional(&mut o, "suspendDebuggee", self.suspend_debuggee);
        Json::Object(o)
    }

    /// Decodes a JSON object as this type.
    pub fn try_from(o: &JsonObject) -> (r: Result<DisconnectArguments, Error>)
        ensures
            rdv(r) == DisconnectArgumentsV::dec(entries_dv(o@)),
    {
        let restart = get_bool_optional(o, "restart")?;
        let terminate_debuggee = get_bool_optional(o, "terminateDebuggee")?;
        let suspend_debuggee = get_bool_optional(o, "suspendDebuggee")?;
        Ok(
            DisconnectArguments {
                restart,
                terminate_debuggee,
                suspend_debuggee,
            },
        )
    }
}


/// Arguments of a `terminate` request.
#[derive(Debug, Clone, Copy, PartialEq, Eq)]
pub struct TerminateArguments {
    pub restart: bool,
}

/// Model of a [`TerminateArguments`].
pub struct TerminateArgumentsV {
    pub restart: bool,
}

impl DeepView for TerminateArguments {
    type V = TerminateArgumentsV;

    open spec fn deep_view(&self) -> TerminateArgumentsV {
        TerminateArgumentsV {
            restart: self.restart,
        }
    }
}

impl TerminateArgumentsV {
    /// The encoded entries of this value.
    pub open spec fn enc(self) -> Seq<(Seq<char>, JsonV)> {
        let s = Seq::<(Seq<char>, JsonV)>::empty();
        let s = spec_attr_bool_optional(s, "restart"@, self.restart);
        s
    }

    /// What decoding an object as this type yields.
    pub open spec fn dec(o: Seq<(Seq<char>, JsonV)>) -> Result<TerminateArgumentsV, ErrorV> {
        match spec_get_bool_optional(o, "restart"@) {
            Err(e) => Err(e),
            Ok(restart) =>
            Ok(
                TerminateArgumentsV {
                    restart,
                },
            )
        }
    }
}

impl TerminateArguments {
    /// Encodes this value as a JSON object.
    pub fn into_json(self) -> (r: Json)
        ensures
            r.deep_view() == JsonV::Object(self.deep_view().enc()),
    {
        let mut o: JsonObject = Vec::new();
        proof {
            assert(entries_dv(o@) =~= Seq::<(Seq<char>, JsonV)>::empty());
        }
        attribute_bool_optional(&mut o, "restart", self.restart);
        Json::Object(o)
    }

    /// Decodes a JSON object as this type.
    pub fn try_from(o: &JsonObject) -> (r: Result<TerminateArguments, Error>)
        ensures
            rdv(r) == TerminateArgumentsV::dec(entries_dv(o@)),
    {
        let restart = get_bool_optional(o, "restart")?;
        Ok(
            TerminateArguments {
                restart,
            },
        )
    }
}


/// Arguments of a `continue` request.
#[derive(Debug, Clone, Copy, PartialEq, Eq)]
pub struct ContinueArguments {
    pub thread_id: u64,
    pub single_thread: bool,
}

/// Model of a [`ContinueArguments`].
pub struct ContinueArgumentsV {
    pub thread_id: u64,
    pub single_thread: bool,
}

impl DeepView for ContinueArguments {
    type V = ContinueArgumentsV;

    open spec fn deep_view(&self) -> ContinueArgumentsV {
        ContinueArgumentsV {
            thread_id: self.thread_id,
            single_thread: self.single_thread,
        }
    }
}

impl ContinueArgumentsV {
    /// The encoded entries of this value.
    pub open spec fn enc(self) -> Seq<(Seq<char>, JsonV)> {
        let s = Seq::<(Seq<char>, JsonV)>::empty();
        let s = spec_attr_u64(s, "threadId"@, self.thread_id);
        let s = spec_attr_bool_optional(s, "singleThread"@, self.single_thread);
        s
    }

    /// What decoding an object as this type yields.
    pub open spec fn dec(o: Seq<(Seq<char>, JsonV)>) -> Result<ContinueArgumentsV, ErrorV> {
        match spec_get_u64(o, "threadId"@) {
            Err(e) => Err(e),
            Ok(thread_id) =>
            match spec_get_bool_optional(o, "singleThread"@) {
                Err(e) => Err(e),
                Ok(single_thread) =>
                Ok(
                    ContinueArgumentsV {
                        thread_id,
                        single_thread,
                    },
                )
            }
        }
    }
}

impl ContinueArguments {
    /// Encodes this value as a JSON object.
    pub fn into_json(self) -> (r: Json)
        ensures
            r.deep_view() == JsonV::Object(self.deep_view().enc()),
    {
        let mut o: JsonObject = Vec::new();
        proof {
            assert(entries_dv(o@) =~= Seq::<(Seq<char>, JsonV)>::empty());
        }
        attribute_u64(&mut o, "threadId", self.thread_id);
        attribute_bool_optional(&mut o, "singleThread", self.single_thread);
        Json::Object(o)
    }

    /// Decodes a JSON object as this type.
    pub fn try_from(o: &JsonObject) -> (r: Result<ContinueArguments, Error>)
        ensures
            rdv(r) == ContinueArgumentsV::dec(entries_dv(o@)),
    {
        let thread_id = get_u64(o, "threadId")?;
        let single_thread = get_bool_optional(o, "singleThread")?;
        Ok(
            ContinueArguments {
                thread_id,
                single_thread,
            },
        )
    }
}


/// The answer to a `continue` request.
#[derive(Debug, Clone, Copy, PartialEq, Eq)]
pub struct ContinueResponse {
    pub all_threads_continued: bool,
}

/// Model of a [`ContinueResponse`].
pub struct ContinueResponseV {
    pub all_threads_continued: bool,
}

impl DeepView for ContinueResponse {
    type V = ContinueResponseV;

    open spec fn deep_view(&self) -> ContinueResponseV {
        ContinueResponseV {
            all_threads_continued: self.all_threads_continued,
        }
    }
}

impl ContinueResponseV {
    /// The encoded entries of this value.
    pub open spec fn enc(self) -> Seq<(Seq<char>, JsonV)> {
        let s = Seq::<(Seq<char>, JsonV)>::empty();
        let s = spec_attr_bool(s, "allThreadsContinued"@, self.all_threads_continued);
        s
    }

    /// What decoding an object as this type yields.
    pub open spec fn dec(o: Seq<(Seq<char>, JsonV)>) -> Result<ContinueResponseV, ErrorV> {
        match spec_get_bool_optional(o, "allThreadsContinued"@) {
            Err(e) => Err(e),
            Ok(all_threads_continued) =>
            Ok(
                ContinueResponseV {
                    all_threads_continued,
                },
            )
        }
    }
}

impl ContinueResponse {
    /// Encodes this value as a JSON object.
    pub fn into_json(self) -> (r: Json)
        ensures
            r.deep_view() == JsonV::Object(self.deep_view().enc()),
    {
        let mut o: JsonObject = Vec::new();
        proof {
            assert(entries_dv(o@) =~= Seq::<(Seq<char>, JsonV)>::empty());
        }
        attribute_bool(&mut o, "allThreadsContinued", self.all_threads_continued);
        Json::Object(o)
    }

    /// Decodes a JSON object as this type.
    pub fn try_from(o: &JsonObject) -> (r: Result<ContinueResponse, Error>)
        ensures
            rdv(r) == ContinueResponseV::dec(entries_dv(o@)),
    {
        let all_threads_continued = get_bool_optional(o, "allThreadsContinued")?;
        Ok(
            ContinueResponse {
                all_threads_continued,
            },
        )
    }
}


/// Arguments of a `goto` request.
#[derive(Debug, Clone, Copy, PartialEq, Eq)]
pub struct GotoArguments {
    pub thread_id: u64,
    pub target_id: u64,
}

/// Model of a [`GotoArguments`].
pub struct GotoArgumentsV {
    pub thread_id: u64,
    pub target_id: u64,
}

impl DeepView for GotoArguments {
    type V = GotoArgumentsV;

    open spec fn deep_view(&self) -> GotoArgumentsV {
        GotoArgumentsV {
            thread_id: self.thread_id,
            target_id: self.target_id,
        }
    }
}

impl GotoArgumentsV {
    /// The encoded entries of this value.
    pub open spec fn enc(self) -> Seq<(Seq<char>, JsonV)> {
        let s = Seq::<(Seq<char>, JsonV)>::empty();
        let s = spec_attr_u64(s, "threadId"@, self.thread_id);
        let s = spec_attr_u64(s, "targetId"@, self.target_id);
        s
    }

    /// What decoding an object as this type yields.
    pub open spec fn dec(o: Seq<(Seq<char>, JsonV)>) -> Result<GotoArgumentsV, ErrorV> {
        match spec_get_u64(o, "threadId"@) {
            Err(e) => Err(e),
            Ok(thread_id) =>
            match spec_get_u64(o, "targetId"@) {
                Err(e) => Err(e),
                Ok(target_id) =>
                Ok(
                    GotoArgumentsV {
                        thread_id,
                        target_id,
                    },
                )
            }
        }
    }
}

impl GotoArguments {
    /// Encodes this value as a JSON object.
    pub fn into_json(self) -> (r: Json)
        ensures
            r.deep_view() == JsonV::Object(self.deep_view().enc()),
    {
        let mut o: JsonObject = Vec::new();
        proof {
            assert(entries_dv(o@) =~= Seq::<(Seq<char>, JsonV)>::empty());
        }
        attribute_u64(&mut o, "threadId", self.thread_id);
        attribute_u64(&mut o, "targetId", self.target_id);
        Json::Object(o)
    }

    /// Decodes a JSON object as this type.
    pub fn try_from(o: &JsonObject) -> (r: Result<GotoArguments, Error>)
        ensures
            rdv(r) == GotoArgumentsV::dec(entries_dv(o@)),
    {
        let thread_id = get_u64(o, "threadId")?;
        let target_id = get_u64(o, "targetId")?;
        Ok(
            GotoArguments {
                thread_id,
                target_id,
            },
        )
    }
}


/// Arguments of an `exceptionInfo` request.
#[derive(Debug, Clone, Copy, PartialEq, Eq)]
pub struct ExceptionInfoArguments {
    pub thread_id: u64,
}

/// Model of a [`ExceptionInfoArguments`].
pub struct ExceptionInfoArgumentsV {
    pub thread_id: u64,
}

impl DeepView for ExceptionInfoArguments {
    type V = ExceptionInfoArgumentsV;

    open spec fn deep_view(&self) -> ExceptionInfoArgumentsV {
        ExceptionInfoArgumentsV {
            thread_id: self.thread_id,
        }
    }
}

impl ExceptionInfoArgumentsV {
    /// The encoded entries of this value.
    pub open spec fn enc(self) -> Seq<(Seq<char>, JsonV)> {
        let s = Seq::<(Seq<char>, JsonV)>::empty();
        let s = spec_attr_u64(s, "threadId"@, self.thread_id);
        s
    }

    /// What decoding an object as this type yields.
    pub open spec fn dec(o: Seq<(Seq<char>, JsonV)>) -> Result<ExceptionInfoArgumentsV, ErrorV> {
        match spec_get_u64(o, "threadId"@) {
            Err(e) => Err(e),
            Ok(thread_id) =>
            Ok(
                ExceptionInfoArgumentsV {
                    thread_id,
                },
            )
        }
    }
}

impl ExceptionInfoArguments {
    /// Encodes this value as a JSON object.
    pub fn into_json(self) -> (r: Json)
        ensures
            r.deep_view() == JsonV::Object(self.deep_view().enc()),
    {
        let mut o: JsonObject = Vec::new();
        proof {
            assert(entries_dv(o@) =~= Seq::<(Seq<char>, JsonV)>::empty());
        }
        attribute_u64(&mut o, "threadId", self.thread_id);
        Json::Object(o)
    }

    /// Decodes a JSON object as this type.
    pub fn try_from(o: &JsonObject) -> (r: Result<ExceptionInfoArguments, Error>)
        ensures
            rdv(r) == ExceptionInfoArgumentsV::dec(entries_dv(o@)),
    {
        let thread_id = get_u64(o, "threadId")?;
        Ok(
            ExceptionInfoArguments {
                thread_id,
            },
        )
    }
}


/// Arguments of a `next` request.
#[derive(Debug, Clone, PartialEq, Eq)]
pub struct NextArguments {
    pub thread_id: u64,
    pub single_thread: bool,
    pub granularity: Option<SteppingGranularity>,
}

/// Model of a [`NextArguments`].
pub struct NextArgumentsV {
    pub thread_id: u64,
    pub single_thread: bool,
    pub granularity: Option<SteppingGranularity>,
}

impl DeepView for NextArguments {
    type V = NextArgumentsV;

    open spec fn deep_view(&self) -> NextArgumentsV {
        NextArgumentsV {
            thread_id: self.thread_id,
            single_thread: self.single_thread,
            granularity: self.granularity.deep_view(),
        }
    }
}

impl NextArgumentsV {
    /// The encoded entries of this value.
    pub open spec fn enc(self) -> Seq<(Seq<char>, JsonV)> {
        let s = Seq::<(Seq<char>, JsonV)>::empty();
        let s = spec_attr_u64(s, "threadId"@, self.thread_id);
        let s = spec_attr_bool_optional(s, "singleThread"@, self.single_thread);
        let s = spec_attr_string_optional(
            s,
            "granularity"@,
            match self.granularity {
                Some(v) => Some(v.wire()),
                None => None,
            },
        );
        s
    }

    /// What decoding an object as this type yields.
    pub open spec fn dec(o: Seq<(Seq<char>, JsonV)>) -> Result<NextArgumentsV, ErrorV> {
        match spec_get_u64(o, "threadId"@) {
            Err(e) => Err(e),
            Ok(thread_id) =>
            match spec_get_bool_optional(o, "singleThread"@) {
                Err(e) => Err(e),
                Ok(single_thread) =>
                match (match spec_get_string_optional(o, "granularity"@) {
            Err(e) => Err(e),
            Ok(None) => Ok(None),
            Ok(Some(w)) => match SteppingGranularity::spec_from(w) {
                Err(e) => Err(e),
                Ok(v) => Ok(Some(v)),
            },
        }) {
                    Err(e) => Err(e),
                    Ok(granularity) =>
                    Ok(
                        NextArgumentsV {
                            thread_id,
                            single_thread,
                            granularity,
                        },
                    )
                }
            }
        }
    }
}

impl NextArguments {
    /// Encodes this value as a JSON object.
    pub fn into_json(self) -> (r: Json)
        ensures
            r.deep_view() == JsonV::Object(self.deep_view().enc()),
    {
        let mut o: JsonObject = Vec::new();
        proof {
            assert(entries_dv(o@) =~= Seq::<(Seq<char>, JsonV)>::empty());
        }
        attribute_u64(&mut o, "threadId", self.thread_id);
        attribute_bool_optional(&mut o, "singleThread", self.single_thread);
        let w: Option<String> = match self.granularity {
            Some(v) => Some(v.as_str().to_owned()),
            None => None,
        };
        attribute_string_optional(&mut o, "granularity", w);
        Json::Object(o)
    }

    /// Decodes a JSON object as this type.
    pub fn try_from(o: &JsonObject) -> (r: Result<NextArguments, Error>)
        ensures
            rdv(r) == NextArgumentsV::dec(entries_dv(o@)),
    {
        let thread_id = get_u64(o, "threadId")?;
        let single_thread = get_bool_optional(o, "singleThread")?;
        let granularity = match get_str_optional(o, "granularity")? {
            Some(w) => Some(SteppingGranularity::try_from(w)?),
            None => None,
        };
        Ok(
            NextArguments {
                thread_id,
                single_thread,
                granularity,
            },
        )
    }
}


/// Arguments of a `stepBack` request.
#[derive(Debug, Clone, PartialEq, Eq)]
pub struct StepBackArguments {
    pub thread_id: u64,
    pub single_thread: bool,
    pub granularity: Option<SteppingGranularity>,
}

/// Model of a [`StepBackArguments`].
pub struct StepBackArgumentsV {
    pub thread_id: u64,
    pub single_thread: bool,
    pub granularity: Option<SteppingGranularity>,
}

impl DeepView for StepBackArguments {
    type V = StepBackArgumentsV;

    open spec fn deep_view(&self) -> StepBackArgumentsV {
        StepBackArgumentsV {
            thread_id: self.thread_id,
            single_thread: self.single_thread,
            granularity: self.granularity.deep_view(),
        }
    }
}

impl StepBackArgumentsV {
    /// The encoded entries of this value.
    pub open spec fn enc(self) -> Seq<(Seq<char>, JsonV)> {
        let s = Seq::<(Seq<char>, JsonV)>::empty();
        let s = spec_attr_u64(s, "threadId"@, self.thread_id);
        let s = spec_attr_bool_optional(s, "singleThread"@, self.single_thread);
        let s = spec_attr_string_optional(
            s,
            "granularity"@,
            match self.granularity {
                Some(v) => Some(v.wire()),
                None => None,
            },
        );
        s
    }

    /// What decoding an object as this type yields.
    pub open spec fn dec(o: Seq<(Seq<char>, JsonV)>) -> Result<StepBackArgumentsV, ErrorV> {
        match spec_get_u64(o, "threadId"@) {
            Err(e) => Err(e),
            Ok(thread_id) =>
            match spec_get_bool_optional(o, "singleThread"@) {
                Err(e) => Err(e),
                Ok(single_thread) =>
                match (match spec_get_string_optional(o, "granularity"@) {
            Err(e) => Err(e),
            Ok(None) => Ok(None),
            Ok(Some(w)) => match SteppingGranularity::spec_from(w) {
                Err(e) => Err(e),
                Ok(v) => Ok(Some(v)),
            },
        }) {
                    Err(e) => Err(e),
                    Ok(granularity) =>
                    Ok(
                        StepBackArgumentsV {
                            thread_id,
                            single_thread,
                            granularity,
                        },
                    )
                }
            }
        }
    }
}

impl StepBackArguments {
    /// Encodes this value as a JSON object.
    pub fn into_json(self) -> (r: Json)
        ensures
            r.deep_view() == JsonV::Object(self.deep_view().enc()),
    {
        let mut o: JsonObject = Vec::new();
        proof {
            assert(entries_dv(o@) =~= Seq::<(Seq<char>, JsonV)>::empty());
        }
        attribute_u64(&mut o, "threadId", self.thread_id);
        attribute_bool_optional(&mut o, "singleThread", self.single_thread);
        let w: Option<String> = match self.granularity {
            Some(v) => Some(v.as_str().to_owned()),
            None => None,
        };
        attribute_string_optional(&mut o, "granularity", w);
        Json::Object(o)
    }

    /// Decodes a JSON object as this type.
    pub fn try_from(o: &JsonObject) -> (r: Result<StepBackArguments, Error>)
        ensures
            rdv(r) == StepBackArgumentsV::dec(entries_dv(o@)),
    {
        let thread_id = get_u64(o, "threadId")?;
        let single_thread = get_bool_optional(o, "singleThread")?;
        let granularity = match get_str_optional(o, "granularity")? {
            Some(w) => Some(SteppingGranularity::try_from(w)?),
            None => None,
        };
        Ok(
            StepBackArguments {
                thread_id,
                single_thread,
                granularity,
            },
        )
    }
}


/// Arguments of a `reverseContinue` request.
#[derive(Debug, Clone, Copy, PartialEq, Eq)]
pub struct ReverseContinueArguments {
    pub thread_id: u64,
    pub single_thread: bool,
}

/// Model of a [`ReverseContinueArguments`].
pub struct ReverseContinueArgumentsV {
    pub thread_id: u64,
    pub single_thread: bool,
}

impl DeepView for ReverseContinueArguments {
    type V = ReverseContinueArgumentsV;

    open spec fn deep_view(&self) -> ReverseContinueArgumentsV {
        ReverseContinueArgumentsV {
            thread_id: self.thread_id,
            single_thread: self.single_thread,
        }
    }
}

impl ReverseContinueArgumentsV {
    /// The encoded entries of this value.
    pub open spec fn enc(self) -> Seq<(Seq<char>, JsonV)> {
        let s = Seq::<(Seq<char>, JsonV)>::empty();
        let s = spec_attr_u64(s, "threadId"@, self.thread_id);
        let s = spec_attr_bool_optional(s, "singleThread"@, self.single_thread);
        s
    }

    /// What decoding an object as this type yields.
    pub open spec fn dec(o: Seq<(Seq<char>, JsonV)>) -> Result<ReverseContinueArgumentsV, ErrorV> {
        match spec_get_u64(o, "threadId"@) {
            Err(e) => Err(e),
            Ok(thread_id) =>
            match spec_get_bool_optional(o, "singleThread"@) {
                Err(e) => Err(e),
                Ok(single_thread) =>
                Ok(
                    ReverseContinueArgumentsV {
                        thread_id,
                        single_thread,
                    },
                )
            }
        }
    }
}

impl ReverseContinueArguments {
    /// Encodes this value as a JSON object.
    pub fn into_json(self) -> (r: Json)
        ensures
            r.deep_view() == JsonV::Object(self.deep_view().enc()),
    {
        let mut o: JsonObject = Vec::new();
        proof {
            assert(entries_dv(o@) =~= Seq::<(Seq<char>, JsonV)>::empty());
        }
        attribute_u64(&mut o, "threadId", self.thread_id);
        attribute_bool_optional(&mut o, "singleThread", self.single_thread);
        Json::Object(o)
    }

    /// Decodes a JSON object as this type.
    pub fn try_from(o: &JsonObject) -> (r: Result<ReverseContinueArguments, Error>)
        ensures
            rdv(r) == ReverseContinueArgumentsV::dec(entries_dv(o@)),
    {
        let thread_id = get_u64(o, "threadId")?;
        let single_thread = get_bool_optional(o, "singleThread")?;
        Ok(
            ReverseContinueArguments {
                thread_id,
                single_thread,
            },
        )
    }
}


/// Arguments of an `evaluate` request.
#[derive(Debug, Clone, PartialEq, Eq)]
pub struct EvaluateArguments {
    pub expression: String,
    pub frame_id: Option<u64>,
    pub context: Option<EvaluateContext>,
    pub format: Option<ValueFormat>,
}

/// Model of a [`EvaluateArguments`].
pub struct EvaluateArgumentsV {
    pub expression: Seq<char>,
    pub frame_id: Option<u64>,
    pub context: Option<EvaluateContextV>,
    pub format: Option<ValueFormatV>,
}

impl DeepView for EvaluateArguments {
    type V = EvaluateArgumentsV;

    open spec fn deep_view(&self) -> EvaluateArgumentsV {
        EvaluateArgumentsV {
            expression: self.expression@,
            frame_id: self.frame_id,
            context: self.context.deep_view(),
            format: self.format.deep_view(),
        }
    }
}

impl EvaluateArgumentsV {
    /// The encoded entries of this value.
    pub open spec fn enc(self) -> Seq<(Seq<char>, JsonV)> {
        let s = Seq::<(Seq<char>, JsonV)>::empty();
        let s = spec_attr_string(s, "expression"@, self.expression);
        let s = spec_attr_u64_optional(s, "frameId"@, self.frame_id);
        let s = spec_attr_string_optional(
            s,
            "context"@,
            match self.context {
                Some(v) => Some(v.wire()),
                None => None,
            },
        );
        let s = spec_attr_optional(
            s,
            "format"@,
            match self.format {
                Some(v) => Some(JsonV::Object(v.enc())),
                None => None,
            },
        );
        s
    }

    /// What decoding an object as this type yields.
    pub open spec fn dec(o: Seq<(Seq<char>, JsonV)>) -> Result<EvaluateArgumentsV, ErrorV> {
        match spec_get_string(o, "expression"@) {
            Err(e) => Err(e),
            Ok(expression) =>
            match spec_get_u64_optional(o, "frameId"@) {
                Err(e) => Err(e),
                Ok(frame_id) =>
                match (match spec_get_string_optional(o, "context"@) {
            Err(e) => Err(e),
            Ok(None) => Ok(None),
            Ok(Some(w)) => Ok(Some(EvaluateContextV::spec_from(w))),
        }) {
                    Err(e) => Err(e),
                    Ok(context) =>
                    match (match spec_get_object_optional(o, "format"@) {
            Err(e) => Err(e),
            Ok(None) => Ok(None),
            Ok(Some(e)) => match ValueFormatV::dec(e) {
                Err(er) => Err(er),
                Ok(v) => Ok(Some(v)),
            },
        }) {
                        Err(e) => Err(e),
                        Ok(format) =>
                        Ok(
                            EvaluateArgumentsV {
                                expression,
                                frame_id,
                                context,
                                format,
                            },
                        )
                    }
                }
            }
        }
    }
}

impl EvaluateArguments {
    /// Encodes this value as a JSON object.
    pub fn into_json(self) -> (r: Json)
        ensures
            r.deep_view() == JsonV::Object(self.deep_view().enc()),
    {
        let mut o: JsonObject = Vec::new();
        proof {
            assert(entries_dv(o@) =~= Seq::<(Seq<char>, JsonV)>::empty());
        }
        attribute_string(&mut o, "expression", self.expression);
        attribute_u64_optional(&mut o, "frameId", self.frame_id);
        let w: Option<String> = match self.context {
            Some(v) => Some(v.to_wire()),
            None => None,
        };
        attribute_string_optional(&mut o, "context", w);
        match self.format {
            Some(v) => attribute_optional(&mut o, "format", Some(v.into_json())),
            None => attribute_optional(&mut o, "format", None),
        }
        Json::Object(o)
    }

    /// Decodes a JSON object as this type.
    pub fn try_from(o: &JsonObject) -> (r: Result<EvaluateArguments, Error>)
        ensures
            rdv(r) == EvaluateArgumentsV::dec(entries_dv(o@)),
    {
        let expression = get_string(o, "expression")?;
        let frame_id = get_u64_optional(o, "frameId")?;
        let context = match get_string_optional(o, "context")? {
            Some(w) => Some(EvaluateContext::from_string(w)),
            None => None,
        };
        let format = match get_object_optional(o, "format")? {
            Some(e) => Some(ValueFormat::try_from(e)?),
            None => None,
        };
        Ok(
            EvaluateArguments {
                expression,
                frame_id,
                context,
                format,
            },
        )
    }
}


/// The answer to an `evaluate` request.
#[derive(Debug, Clone, PartialEq, Eq)]
pub struct EvaluateResponse {
    pub result: String,
    pub ty: Option<String>,
    pub presentation_hint: Option<VariablePresentationHint>,
    pub variables_reference: u64,
    pub named_variables: Option<u64>,
    pub indexed_variables: Option<u64>,
    pub memory_reference: Option<String>,
}

/// Model of a [`EvaluateResponse`].
pub struct EvaluateResponseV {
    pub result: Seq<char>,
    pub ty: Option<Seq<char>>,
    pub presentation_hint: Option<VariablePresentationHintV>,
    pub variables_reference: u64,
    pub named_variables: Option<u64>,
    pub indexed_variables: Option<u64>,
    pub memory_reference: Option<Seq<char>>,
}

impl DeepView for EvaluateResponse {
    type V = EvaluateResponseV;

    open spec fn deep_view(&self) -> EvaluateResponseV {
        EvaluateResponseV {
            result: self.result@,
            ty: self.ty.deep_view(),
            presentation_hint: self.presentation_hint.deep_view(),
            variables_reference: self.variables_reference,
            named_variables: self.named_variables,
            indexed_variables: self.indexed_variables,
            memory_reference: self.memory_reference.deep_view(),
        }
    }
}

impl EvaluateResponseV {
    /// The encoded entries of this value.
    pub open spec fn enc(self) -> Seq<(Seq<char>, JsonV)> {
        let s = Seq::<(Seq<char>, JsonV)>::empty();
        let s = spec_attr_string(s, "result"@, self.result);
        let s = spec_attr_string_optional(s, "type"@, self.ty);
        let s = spec_attr_optional(
            s,
            "presentationHint"@,
            match self.presentation_hint {
                Some(v) => Some(JsonV::Object(v.enc())),
                None => None,
            },
        );
        let s = spec_attr_u64(s, "variablesReference"@, self.variables_reference);
        let s = spec_attr_u64_optional(s, "namedVariables"@, self.named_variables);
        let s = spec_attr_u64_optional(s, "indexedVariables"@, self.indexed_variables);
        let s = spec_attr_string_optional(s, "memoryReference"@, self.memory_reference);
        s
    }

    /// What decoding an object as this type yields.
    pub open spec fn dec(o: Seq<(Seq<char>, JsonV)>) -> Result<EvaluateResponseV, ErrorV> {
        match spec_get_string(o, "result"@) {
            Err(e) => Err(e),
            Ok(result) =>
            match spec_get_string_optional(o, "type"@) {
                Err(e) => Err(e),
                Ok(ty) =>
                match (match spec_get_object_optional(o, "presentationHint"@) {
            Err(e) => Err(e),
            Ok(None) => Ok(None),
            Ok(Some(e)) => match VariablePresentationHintV::dec(e) {
                Err(er) => Err(er),
                Ok(v) => Ok(Some(v)),
            },
        }) {
                    Err(e) => Err(e),
                    Ok(presentation_hint) =>
                    match spec_get_u64(o, "variablesReference"@) {
                        Err(e) => Err(e),
                        Ok(variables_reference) =>
                        match spec_get_u64_optional(o, "namedVariables"@) {
                            Err(e) => Err(e),
                            Ok(named_variables) =>
                            match spec_get_u64_optional(o, "indexedVariables"@) {
                                Err(e) => Err(e),
                                Ok(indexed_variables) =>
                                match spec_get_string_optional(o, "memoryReference"@) {
                                    Err(e) => Err(e),
                                    Ok(memory_reference) =>
                                    Ok(
                                        EvaluateResponseV {
                                            result,
                                            ty,
                                            presentation_hint,
                                            variables_reference,
                                            named_variables,
                                            indexed_variables,
                                            memory_reference,
                                        },
                                    )
                                }
                            }
                        }
                    }
                }
            }
        }
    }
}

impl EvaluateResponse {
    /// Encodes this value as a JSON object.
    #[verifier::rlimit(50)]
    pub fn into_json(self) -> (r: Json)
        ensures
            r.deep_view() == JsonV::Object(self.deep_view().enc()),
    {
        let mut o: JsonObject = Vec::new();
        proof {
            assert(entries_dv(o@) =~= Seq::<(Seq<char>, JsonV)>::empty());
        }
        attribute_string(&mut o, "result", self.result);
        attribute_string_optional(&mut o, "type", self.ty);
        match self.presentation_hint {
            Some(v) => attribute_optional(&mut o, "presentationHint", Some(v.into_json())),
            None => attribute_optional(&mut o, "presentationHint", None),
        }
        attribute_u64(&mut o, "variablesReference", self.variables_reference);
        attribute_u64_optional(&mut o, "namedVariables", self.named_variables);
        attribute_u64_optional(&mut o, "indexedVariables", self.indexed_variables);
        attribute_string_optional(&mut o, "memoryReference", self.memory_reference);
        Json::Object(o)
    }

    /// Decodes a JSON object as this type.
    #[verifier::rlimit(50)]
    pub fn try_from(o: &JsonObject) -> (r: Result<EvaluateResponse, Error>)
        ensures
            rdv(r) == EvaluateResponseV::dec(entries_dv(o@)),
    {
        let result = get_string(o, "result")?;
        let ty = get_string_optional(o, "type")?;
        let presentation_hint = match get_object_optional(o, "presentationHint")? {
            Some(e) => Some(VariablePresentationHint::try_from(e)?),
            None => None,
        };
        let variables_reference = get_u64(o, "variablesReference")?;
        let named_variables = get_u64_optional(o, "namedVariables")?;
        let indexed_variables = get_u64_optional(o, "indexedVariables")?;
        let memory_reference = get_string_optional(o, "memoryReference")?;
        Ok(
            EvaluateResponse {
                result,
                ty,
                presentation_hint,
                variables_reference,
                named_variables,
                indexed_variables,
                memory_reference,
            },
        )
    }
}


/// Arguments of a `scopes` request.
#[derive(Debug, Clone, Copy, PartialEq, Eq)]
pub struct ScopesArguments {
    pub frame_id: u64,
}

/// Model of a [`ScopesArguments`].
pub struct ScopesArgumentsV {
    pub frame_id: u64,
}

impl DeepView for ScopesArguments {
    type V = ScopesArgumentsV;

    open spec fn deep_view(&self) -> ScopesArgumentsV {
        ScopesArgumentsV {
            frame_id: self.frame_id,
        }
    }
}

impl ScopesArgumentsV {
    /// The encoded entries of this value.
    pub open spec fn enc(self) -> Seq<(Seq<char>, JsonV)> {
        let s = Seq::<(Seq<char>, JsonV)>::empty();
        let s = spec_attr_u64(s, "frameId"@, self.frame_id);
        s
    }

    /// What decoding an object as this type yields.
    pub open spec fn dec(o: Seq<(Seq<char>, JsonV)>) -> Result<ScopesArgumentsV, ErrorV> {
        match spec_get_u64(o, "frameId"@) {
            Err(e) => Err(e),
            Ok(frame_id) =>
            Ok(
                ScopesArgumentsV {
                    frame_id,
                },
            )
        }
    }
}

impl ScopesArguments {
    /// Encodes this value as a JSON object.
    pub fn into_json(self) -> (r: Json)
        ensures
            r.deep_view() == JsonV::Object(self.deep_view().enc()),
    {
        let mut o: JsonObject = Vec::new();
        proof {
            assert(entries_dv(o@) =~= Seq::<(Seq<char>, JsonV)>::empty());
        }
        attribute_u64(&mut o, "frameId", self.frame_id);
        Json::Object(o)
    }

    /// Decodes a JSON object as this type.
    pub fn try_from(o: &JsonObject) -> (r: Result<ScopesArguments, Error>)
        ensures
            rdv(r) == ScopesArgumentsV::dec(entries_dv(o@)),
    {
        let frame_id = get_u64(o, "frameId")?;
        Ok(
            ScopesArguments {
                frame_id,
            },
        )
    }
}


/// Arguments of a `stackTrace` request.
#[derive(Debug, Clone, PartialEq, Eq)]
pub struct StackTraceArguments {
    pub thread_id: u64,
    pub start_frame: Option<u64>,
    pub levels: Option<u64>,
    pub format: Option<StackFrameFormat>,
}

/// Model of a [`StackTraceArguments`].
pub struct StackTraceArgumentsV {
    pub thread_id: u64,
    pub start_frame: Option<u64>,
    pub levels: Option<u64>,
    pub format: Option<StackFrameFormatV>,
}

impl DeepView for StackTraceArguments {
    type V = StackTraceArgumentsV;

    open spec fn deep_view(&self) -> StackTraceArgumentsV {
        StackTraceArgumentsV {
            thread_id: self.thread_id,
            start_frame: self.start_frame,
            levels: self.levels,
            format: self.format.deep_view(),
        }
    }
}

impl StackTraceArgumentsV {
    /// The encoded entries of this value.
    pub open spec fn enc(self) -> Seq<(Seq<char>, JsonV)> {
        let s = Seq::<(Seq<char>, JsonV)>::empty();
        let s = spec_attr_u64(s, "threadId"@, self.thread_id);
        let s = spec_attr_u64_optional(s, "startFrame"@, self.start_frame);
        let s = spec_attr_u64_optional(s, "levels"@, self.levels);
        let s = spec_attr_optional(
            s,
            "format"@,
            match self.format {
                Some(v) => Some(JsonV::Object(v.enc())),
                None => None,
            },
        );
        s
    }

    /// What decoding an object as this type yields.
    pub open spec fn dec(o: Seq<(Seq<char>, JsonV)>) -> Result<StackTraceArgumentsV, ErrorV> {
        match spec_get_u64(o, "threadId"@) {
            Err(e) => Err(e),
            Ok(thread_id) =>
            match spec_get_u64_optional(o, "startFrame"@) {
                Err(e) => Err(e),
                Ok(start_frame) =>
                match spec_get_u64_optional(o, "levels"@) {
                    Err(e) => Err(e),
                    Ok(levels) =>
                    match (match spec_get_object_optional(o, "format"@) {
            Err(e) => Err(e),
            Ok(None) => Ok(None),
            Ok(Some(e)) => match StackFrameFormatV::dec(e) {
                Err(er) => Err(er),
                Ok(v) => Ok(Some(v)),
            },
        }) {
                        Err(e) => Err(e),
                        Ok(format) =>
                        Ok(
                            StackTraceArgumentsV {
                                thread_id,
                                start_frame,
                                levels,
                                format,
                            },
                        )
                    }
                }
            }
        }
    }
}

impl StackTraceArguments {
    /// Encodes this value as a JSON object.
    pub fn into_json(self) -> (r: Json)
        ensures
            r.deep_view() == JsonV::Object(self.deep_view().enc()),
    {
        let mut o: JsonObject = Vec::new();
        proof {
            assert(entries_dv(o@) =~= Seq::<(Seq<char>, JsonV)>::empty());
        }
        attribute_u64(&mut o, "threadId", self.thread_id);
        attribute_u64_optional(&mut o, "startFrame", self.start_frame);
        attribute_u64_optional(&mut o, "levels", self.levels);
        match self.format {
            Some(v) => attribute_optional(&mut o, "format", Some(v.into_json())),
            None => attribute_optional(&mut o, "format", None),
        }
        Json::Object(o)
    }

    /// Decodes a JSON object as this type.
    pub fn try_from(o: &JsonObject) -> (r: Result<StackTraceArguments, Error>)
        ensures
            rdv(r) == StackTraceArgumentsV::dec(entries_dv(o@)),
    {
        let thread_id = get_u64(o, "threadId")?;
        let start_frame = get_u64_optional(o, "startFrame")?;
        let levels = get_u64_optional(o, "levels")?;
        let format = match get_object_optional(o, "format")? {
            Some(e) => Some(StackFrameFormat::try_from(e)?),
            None => None,
        };
        Ok(
            StackTraceArguments {
                thread_id,
                start_frame,
                levels,
                format,
            },
        )
    }
}


/// Arguments of a `variables` request.
#[derive(Debug, Clone, PartialEq, Eq)]
pub struct VariablesArguments {
    pub variables_reference: u64,
    pub filter: Option<VariablesArgumentsFilter>,
    pub start: Option<u64>,
    pub count: Option<u64>,
    pub format: Option<ValueFormat>,
}

/// Model of a [`VariablesArguments`].
pub struct VariablesArgumentsV {
    pub variables_reference: u64,
    pub filter: Option<VariablesArgumentsFilter>,
    pub start: Option<u64>,
    pub count: Option<u64>,
    pub format: Option<ValueFormatV>,
}

impl DeepView for VariablesArguments {
    type V = VariablesArgumentsV;

    open spec fn deep_view(&self) -> VariablesArgumentsV {
        VariablesArgumentsV {
            variables_reference: self.variables_reference,
            filter: self.filter.deep_view(),
            start: self.start,
            count: self.count,
            format: self.format.deep_view(),
        }
    }
}

impl VariablesArgumentsV {
    /// The encoded entries of this value.
    pub open spec fn enc(self) -> Seq<(Seq<char>, JsonV)> {
        let s = Seq::<(Seq<char>, JsonV)>::empty();
        let s = spec_attr_u64(s, "variablesReference"@, self.variables_reference);
        let s = spec_attr_string_optional(
            s,
            "filter"@,
            match self.filter {
                Some(v) => Some(v.wire()),
                None => None,
            },
        );
        let s = spec_attr_u64_optional(s, "start"@, self.start);
        let s = spec_attr_u64_optional(s, "count"@, self.count);
        let s = spec_attr_optional(
            s,
            "format"@,
            match self.format {
                Some(v) => Some(JsonV::Object(v.enc())),
                None => None,
            },
        );
        s
    }

    /// What decoding an object as this type yields.
    pub open spec fn dec(o: Seq<(Seq<char>, JsonV)>) -> Result<VariablesArgumentsV, ErrorV> {
        match spec_get_u64(o, "variablesReference"@) {
            Err(e) => Err(e),
            Ok(variables_reference) =>
            match (match spec_get_string_optional(o, "filter"@) {
            Err(e) => Err(e),
            Ok(None) => Ok(None),
            Ok(Some(w)) => match VariablesArgumentsFilter::spec_from(w) {
                Err(e) => Err(e),
                Ok(v) => Ok(Some(v)),
            },
        }) {
                Err(e) => Err(e),
                Ok(filter) =>
                match spec_get_u64_optional(o, "start"@) {
                    Err(e) => Err(e),
                    Ok(start) =>
                    match spec_get_u64_optional(o, "count"@) {
                        Err(e) => Err(e),
                        Ok(count) =>
                        match (match spec_get_object_optional(o, "format"@) {
            Err(e) => Err(e),
            Ok(None) => Ok(None),
            Ok(Some(e)) => match ValueFormatV::dec(e) {
                Err(er) => Err(er),
                Ok(v) => Ok(Some(v)),
            },
        }) {
                            Err(e) => Err(e),
                            Ok(format) =>
                            Ok(
                                VariablesArgumentsV {
                                    variables_reference,
                                    filter,
                                    start,
                                    count,
                                    format,
                                },
                            )
                        }
                    }
                }
            }
        }
    }
}

impl VariablesArguments {
    /// Encodes this value as a JSON object.
    pub fn into_json(self) -> (r: Json)
        ensures
            r.deep_view() == JsonV::Object(self.deep_view().enc()),
    {
        let mut o: JsonObject = Vec::new();
        proof {
            assert(entries_dv(o@) =~= Seq::<(Seq<char>, JsonV)>::empty());
        }
        attribute_u64(&mut o, "variablesReference", self.variables_reference);
        let w: Option<String> = match self.filter {
            Some(v) => Some(v.as_str().to_owned()),
            None => None,
        };
        attribute_string_optional(&mut o, "filter", w);
        attribute_u64_optional(&mut o, "start", self.start);
        attribute_u64_optional(&mut o, "count", self.count);
        match self.format {
            Some(v) => attribute_optional(&mut o, "format", Some(v.into_json())),
            None => attribute_optional(&mut o, "format", None),
        }
        Json::Object(o)
    }

    /// Decodes a JSON object as this type.
    pub fn try_from(o: &JsonObject) -> (r: Result<VariablesArguments, Error>)
        ensures
            rdv(r) == VariablesArgumentsV::dec(entries_dv(o@)),
    {
        let variables_reference = get_u64(o, "variablesReference")?;
        let filter = match get_str_optional(o, "filter")? {
            Some(w) => Some(VariablesArgumentsFilter::try_from(w)?),
            None => None,
        };
        let start = get_u64_optional(o, "start")?;
        let count = get_u64_optional(o, "count")?;
        let format = match get_object_optional(o, "format")? {
            Some(e) => Some(ValueFormat::try_from(e)?),
            None => None,
        };
        Ok(
            VariablesArguments {
                variables_reference,
                filter,
                start,
                count,
                format,
            },
        )
    }
}


/// One breakpoint a client asks to set.
#[derive(Debug, Clone, PartialEq, Eq)]
pub struct SourceBreakpoint {
    pub line: u64,
    pub column: Option<u64>,
    pub condition: Option<String>,
    pub hit_condition: Option<String>,
    pub log_message: Option<String>,
}

/// Model of a [`SourceBreakpoint`].
pub struct SourceBreakpointV {
    pub line: u64,
    pub column: Option<u64>,
    pub condition: Option<Seq<char>>,
    pub hit_condition: Option<Seq<char>>,
    pub log_message: Option<Seq<char>>,
}

impl DeepView for SourceBreakpoint {
    type V = SourceBreakpointV;

    open spec fn deep_view(&self) -> SourceBreakpointV {
        SourceBreakpointV {
            line: self.line,
            column: self.column,
            condition: self.condition.deep_view(),
            hit_condition: self.hit_condition.deep_view(),
            log_message: self.log_message.deep_view(),
        }
    }
}

impl SourceBreakpointV {
    /// The encoded entries of this value.
    pub open spec fn enc(self) -> Seq<(Seq<char>, JsonV)> {
        let s = Seq::<(Seq<char>, JsonV)>::empty();
        let s = spec_attr_u64(s, "line"@, self.line);
        let s = spec_attr_u64_optional(s, "column"@, self.column);
        let s = spec_attr_string_optional(s, "condition"@, self.condition);
        let s = spec_attr_string_optional(s, "hitCondition"@, self.hit_condition);
        let s = spec_attr_string_optional(s, "logMessage"@, self.log_message);
        s
    }

    /// What decoding an object as this type yields.
    pub open spec fn dec(o: Seq<(Seq<char>, JsonV)>) -> Result<SourceBreakpointV, ErrorV> {
        match spec_get_u64(o, "line"@) {
            Err(e) => Err(e),
            Ok(line) =>
            match spec_get_u64_optional(o, "column"@) {
                Err(e) => Err(e),
                Ok(column) =>
                match spec_get_string_optional(o, "condition"@) {
                    Err(e) => Err(e),
                    Ok(condition) =>
                    match spec_get_string_optional(o, "hitCondition"@) {
                        Err(e) => Err(e),
                        Ok(hit_condition) =>
                        match spec_get_string_optional(o, "logMessage"@) {
                            Err(e) => Err(e),
                            Ok(log_message) =>
                            Ok(
                                SourceBreakpointV {
                                    line,
                                    column,
                                    condition,
                                    hit_condition,
                                    log_message,
                                },
                            )
                        }
                    }
                }
            }
        }
    }
}

impl SourceBreakpoint {
    /// Encodes this value as a JSON object.
    pub fn into_json(self) -> (r: Json)
        ensures
            r.deep_view() == JsonV::Object(self.deep_view().enc()),
    {
        let mut o: JsonObject = Vec::new();
        proof {
            assert(entries_dv(o@) =~= Seq::<(Seq<char>, JsonV)>::empty());
        }
        attribute_u64(&mut o, "line", self.line);
        attribute_u64_optional(&mut o, "column", self.column);
        attribute_string_optional(&mut o, "condition", self.condition);
        attribute_string_optional(&mut o, "hitCondition", self.hit_condition);
        attribute_string_optional(&mut o, "logMessage", self.log_message);
        Json::Object(o)
    }

    /// Decodes a JSON object as this type.
    pub fn try_from(o: &JsonObject) -> (r: Result<SourceBreakpoint, Error>)
        ensures
            rdv(r) == SourceBreakpointV::dec(entries_dv(o@)),
    {
        let line = get_u64(o, "line")?;
        let column = get_u64_optional(o, "column")?;
        let condition = get_string_optional(o, "condition")?;
        let hit_condition = get_string_optional(o, "hitCondition")?;
        let log_message = get_string_optional(o, "logMessage")?;
        Ok(
            SourceBreakpoint {
                line,
                column,
                condition,
                hit_condition,
                log_message,
            },
        )
    }
}


/// One place a breakpoint could go.
#[derive(Debug, Clone, Copy, PartialEq, Eq)]
pub struct BreakpointLocation {
    pub line: u64,
    pub column: Option<u64>,
    pub end_line: Option<u64>,
    pub end_column: Option<u64>,
}

/// Model of a [`BreakpointLocation`].
pub struct BreakpointLocationV {
    pub line: u64,
    pub column: Option<u64>,
    pub end_line: Option<u64>,
    pub end_column: Option<u64>,
}

impl DeepView for BreakpointLocation {
    type V = BreakpointLocationV;

    open spec fn deep_view(&self) -> BreakpointLocationV {
        BreakpointLocationV {
            line: self.line,
            column: self.column,
            end_line: self.end_line,
            end_column: self.end_column,
        }
    }
}

impl BreakpointLocationV {
    /// The encoded entries of this value.
    pub open spec fn enc(self) -> Seq<(Seq<char>, JsonV)> {
        let s = Seq::<(Seq<char>, JsonV)>::empty();
        let s = spec_attr_u64(s, "line"@, self.line);
        let s = spec_attr_u64_optional(s, "column"@, self.column);
        let s = spec_attr_u64_optional(s, "endLine"@, self.end_line);
        let s = spec_attr_u64_optional(s, "endColumn"@, self.end_column);
        s
    }

    /// What decoding an object as this type yields.
    pub open spec fn dec(o: Seq<(Seq<char>, JsonV)>) -> Result<BreakpointLocationV, ErrorV> {
        match spec_get_u64(o, "line"@) {
            Err(e) => Err(e),
            Ok(line) =>
            match spec_get_u64_optional(o, "column"@) {
                Err(e) => Err(e),
                Ok(column) =>
                match spec_get_u64_optional(o, "endLine"@) {
                    Err(e) => Err(e),
                    Ok(end_line) =>
                    match spec_get_u64_optional(o, "endColumn"@) {
                        Err(e) => Err(e),
                        Ok(end_column) =>
                        Ok(
                            BreakpointLocationV {
                                line,
                                column,
                                end_line,
                                end_column,
                            },
                        )
                    }
                }
            }
        }
    }
}

impl BreakpointLocation {
    /// Encodes this value as a JSON object.
    pub fn into_json(self) -> (r: Json)
        ensures
            r.deep_view() == JsonV::Object(self.deep_view().enc()),
    {
        let mut o: JsonObject = Vec::new();
        proof {
            assert(entries_dv(o@) =~= Seq::<(Seq<char>, JsonV)>::empty());
        }
        attribute_u64(&mut o, "line", self.line);
        attribute_u64_optional(&mut o, "column", self.column);
        attribute_u64_optional(&mut o, "endLine", self.end_line);
        attribute_u64_optional(&mut o, "endColumn", self.end_column);
        Json::Object(o)
    }

    /// Decodes a JSON object as this type.
    pub fn try_from(o: &JsonObject) -> (r: Result<BreakpointLocation, Error>)
        ensures
            rdv(r) == BreakpointLocationV::dec(entries_dv(o@)),
    {
        let line = get_u64(o, "line")?;
        let column = get_u64_optional(o, "column")?;
        let end_line = get_u64_optional(o, "endLine")?;
        let end_column = get_u64_optional(o, "endColumn")?;
        Ok(
            BreakpointLocation {
                line,
                column,
                end_line,
                end_column,
            },
        )
    }
}


/// Arguments of a `breakpointLocations` request.
#[derive(Debug, PartialEq, Eq)]
pub struct BreakpointLocationsArguments {
    pub source: Source,
    pub line: u64,
    pub column: Option<u64>,
    pub end_line: Option<u64>,
    pub end_column: Option<u64>,
}

/// Model of a [`BreakpointLocationsArguments`].
pub struct BreakpointLocationsArgumentsV {
    pub source: SourceV,
    pub line: u64,
    pub column: Option<u64>,
    pub end_line: Option<u64>,
    pub end_column: Option<u64>,
}

impl DeepView for BreakpointLocationsArguments {
    type V = BreakpointLocationsArgumentsV;

    open spec fn deep_view(&self) -> BreakpointLocationsArgumentsV {
        BreakpointLocationsArgumentsV {
            source: self.source.deep_view(),
            line: self.line,
            column: self.column,
            end_line: self.end_line,
            end_column: self.end_column,
        }
    }
}

impl BreakpointLocationsArgumentsV {
    /// The encoded entries of this value.
    pub open spec fn enc(self) -> Seq<(Seq<char>, JsonV)> {
        let s = Seq::<(Seq<char>, JsonV)>::empty();
        let s = spec_attr_json(s, "source"@, JsonV::Object(self.source.enc()));
        let s = spec_attr_u64(s, "line"@, self.line);
        let s = spec_attr_u64_optional(s, "column"@, self.column);
        let s = spec_attr_u64_optional(s, "endLine"@, self.end_line);
        let s = spec_attr_u64_optional(s, "endColumn"@, self.end_column);
        s
    }

    /// What decoding an object as this type yields.
    pub open spec fn dec(o: Seq<(Seq<char>, JsonV)>) -> Result<BreakpointLocationsArgumentsV, ErrorV> {
        match (match spec_get_object(o, "source"@) {
            Err(e) => Err(e),
            Ok(e) => SourceV::dec(e),
        }) {
            Err(e) => Err(e),
            Ok(source) =>
            match spec_get_u64(o, "line"@) {
                Err(e) => Err(e),
                Ok(line) =>
                match spec_get_u64_optional(o, "column"@) {
                    Err(e) => Err(e),
                    Ok(column) =>
                    match spec_get_u64_optional(o, "endLine"@) {
                        Err(e) => Err(e),
                        Ok(end_line) =>
                        match spec_get_u64_optional(o, "endColumn"@) {
                            Err(e) => Err(e),
                            Ok(end_column) =>
                            Ok(
                                BreakpointLocationsArgumentsV {
                                    source,
                                    line,
                                    column,
                                    end_line,
                                    end_column,
                                },
                            )
                        }
                    }
                }
            }
        }
    }
}

impl BreakpointLocationsArguments {
    /// Encodes this value as a JSON object.
    pub fn into_json(self) -> (r: Json)
        ensures
            r.deep_view() == JsonV::Object(self.deep_view().enc()),
    {
        let mut o: JsonObject = Vec::new();
        proof {
            assert(entries_dv(o@) =~= Seq::<(Seq<char>, JsonV)>::empty());
        }
        attribute(&mut o, "source", self.source.into_json());
        attribute_u64(&mut o, "line", self.line);
        attribute_u64_optional(&mut o, "column", self.column);
        attribute_u64_optional(&mut o, "endLine", self.end_line);
        attribute_u64_optional(&mut o, "endColumn", self.end_column);
        Json::Object(o)
    }

    /// Decodes a JSON object as this type.
    pub fn try_from(o: &JsonObject) -> (r: Result<BreakpointLocationsArguments, Error>)
        ensures
            rdv(r) == BreakpointLocationsArgumentsV::dec(entries_dv(o@)),
    {
        let source = {
            let e = get_object(o, "source")?;
            Source::try_from(e)?
        };
        let line = get_u64(o, "line")?;
        let column = get_u64_optional(o, "column")?;
        let end_line = get_u64_optional(o, "endLine")?;
        let end_column = get_u64_optional(o, "endColumn")?;
        Ok(
            BreakpointLocationsArguments {
                source,
                line,
                column,
                end_line,
                end_column,
            },
        )
    }
}


/// Arguments of the project's own request to add one breakpoint.
#[derive(Debug, PartialEq, Eq)]
pub struct CustomAddBreakpointArguments {
    pub breakpoint: Breakpoint,
}

/// Model of a [`CustomAddBreakpointArguments`].
pub struct CustomAddBreakpointArgumentsV {
    pub breakpoint: BreakpointV,
}

impl DeepView for CustomAddBreakpointArguments {
    type V = CustomAddBreakpointArgumentsV;

    open spec fn deep_view(&self) -> CustomAddBreakpointArgumentsV {
        CustomAddBreakpointArgumentsV {
            breakpoint: self.breakpoint.deep_view(),
        }
    }
}

impl CustomAddBreakpointArgumentsV {
    /// The encoded entries of this value.
    pub open spec fn enc(self) -> Seq<(Seq<char>, JsonV)> {
        let s = Seq::<(Seq<char>, JsonV)>::empty();
        let s = spec_attr_json(s, "breakpoint"@, JsonV::Object(self.breakpoint.enc()));
        s
    }

    /// What decoding an object as this type yields.
    pub open spec fn dec(o: Seq<(Seq<char>, JsonV)>) -> Result<CustomAddBreakpointArgumentsV, ErrorV> {
        match (match spec_get_object(o, "breakpoint"@) {
            Err(e) => Err(e),
            Ok(e) => BreakpointV::dec(e),
        }) {
            Err(e) => Err(e),
            Ok(breakpoint) =>
            Ok(
                CustomAddBreakpointArgumentsV {
                    breakpoint,
                },
            )
        }
    }
}

impl CustomAddBreakpointArguments {
    /// Encodes this value as a JSON object.
    pub fn into_json(self) -> (r: Json)
        ensures
            r.deep_view() == JsonV::Object(self.deep_view().enc()),
    {
        let mut o: JsonObject = Vec::new();
        proof {
            assert(entries_dv(o@) =~= Seq::<(Seq<char>, JsonV)>::empty());
        }
        attribute(&mut o, "breakpoint", self.breakpoint.into_json());
        Json::Object(o)
    }

    /// Decodes a JSON object as this type.
    pub fn try_from(o: &JsonObject) -> (r: Result<CustomAddBreakpointArguments, Error>)
        ensures
            rdv(r) == CustomAddBreakpointArgumentsV::dec(entries_dv(o@)),
    {
        let breakpoint = {
            let e = get_object(o, "breakpoint")?;
            Breakpoint::try_from(e)?
        };
        Ok(
            CustomAddBreakpointArguments {
                breakpoint,
            },
        )
    }
}


/// The answer to the project's own request to add one breakpoint.
#[derive(Debug, Clone, Copy, PartialEq, Eq)]
pub struct CustomAddBreakpointResponse {
    pub id: u64,
}

/// Model of a [`CustomAddBreakpointResponse`].
pub struct CustomAddBreakpointResponseV {
    pub id: u64,
}

impl DeepView for CustomAddBreakpointResponse {
    type V = CustomAddBreakpointResponseV;

    open spec fn deep_view(&self) -> CustomAddBreakpointResponseV {
        CustomAddBreakpointResponseV {
            id: self.id,
        }
    }
}

impl CustomAddBreakpointResponseV {
    /// The encoded entries of this value.
    pub open spec fn enc(self) -> Seq<(Seq<char>, JsonV)> {
        let s = Seq::<(Seq<char>, JsonV)>::empty();
        let s = spec_attr_u64(s, "id"@, self.id);
        s
    }

    /// What decoding an object as this type yields.
    pub open spec fn dec(o: Seq<(Seq<char>, JsonV)>) -> Result<CustomAddBreakpointResponseV, ErrorV> {
        match spec_get_u64(o, "id"@) {
            Err(e) => Err(e),
            Ok(id) =>
            Ok(
                CustomAddBreakpointResponseV {
                    id,
                },
            )
        }
    }
}

impl CustomAddBreakpointResponse {
    /// Encodes this value as a JSON object.
    pub fn into_json(self) -> (r: Json)
        ensures
            r.deep_view() == JsonV::Object(self.deep_view().enc()),
    {
        let mut o: JsonObject = Vec::new();
        proof {
            assert(entries_dv(o@) =~= Seq::<(Seq<char>, JsonV)>::empty());
        }
        attribute_u64(&mut o, "id", self.id);
        Json::Object(o)
    }

    /// Decodes a JSON object as this type.
    pub fn try_from(o: &JsonObject) -> (r: Result<CustomAddBreakpointResponse, Error>)
        ensures
            rdv(r) == CustomAddBreakpointResponseV::dec(entries_dv(o@)),
    {
        let id = get_u64(o, "id")?;
        Ok(
            CustomAddBreakpointResponse {
                id,
            },
        )
    }
}


/// Arguments of the project's own request to remove one breakpoint.
#[derive(Debug, Clone, Copy, PartialEq, Eq)]
pub struct CustomRemoveBreakpointArguments {
    pub id: u64,
}

/// Model of a [`CustomRemoveBreakpointArguments`].
pub struct CustomRemoveBreakpointArgumentsV {
    pub id: u64,
}

impl DeepView for CustomRemoveBreakpointArguments {
    type V = CustomRemoveBreakpointArgumentsV;

    open spec fn deep_view(&self) -> CustomRemoveBreakpointArgumentsV {
        CustomRemoveBreakpointArgumentsV {
            id: self.id,
        }
    }
}

impl CustomRemoveBreakpointArgumentsV {
    /// The encoded entries of this value.
    pub open spec fn enc(self) -> Seq<(Seq<char>, JsonV)> {
        let s = Seq::<(Seq<char>, JsonV)>::empty();
        let s = spec_attr_u64(s, "id"@, self.id);
        s
    }

    /// What decoding an object as this type yields.
    pub open spec fn dec(o: Seq<(Seq<char>, JsonV)>) -> Result<CustomRemoveBreakpointArgumentsV, ErrorV> {
        match spec_get_u64(o, "id"@) {
            Err(e) => Err(e),
            Ok(id) =>
            Ok(
                CustomRemoveBreakpointArgumentsV {
                    id,
                },
            )
        }
    }
}

impl CustomRemoveBreakpointArguments {
    /// Encodes this value as a JSON object.
    pub fn into_json(self) -> (r: Json)
        ensures
            r.deep_view() == JsonV::Object(self.deep_view().enc()),
    {
        let mut o: JsonObject = Vec::new();
        proof {
            assert(entries_dv(o@) =~= Seq::<(Seq<char>, JsonV)>::empty());
        }
        attribute_u64(&mut o, "id", self.id);
        Json::Object(o)
    }

    /// Decodes a JSON object as this type.
    pub fn try_from(o: &JsonObject) -> (r: Result<CustomRemoveBreakpointArguments, Error>)
        ensures
            rdv(r) == CustomRemoveBreakpointArgumentsV::dec(entries_dv(o@)),
    {
        let id = get_u64(o, "id")?;
        Ok(
            CustomRemoveBreakpointArguments {
                id,
            },
        )
    }
}


/// The answer to the project's own request to remove one breakpoint.
#[derive(Debug, Clone, Copy, PartialEq, Eq)]
pub struct CustomRemoveBreakpointResponse {
    pub id: u64,
    pub removed: bool,
}

/// Model of a [`CustomRemoveBreakpointResponse`].
pub struct CustomRemoveBreakpointResponseV {
    pub id: u64,
    pub removed: bool,
}

impl DeepView for CustomRemoveBreakpointResponse {
    type V = CustomRemoveBreakpointResponseV;

    open spec fn deep_view(&self) -> CustomRemoveBreakpointResponseV {
        CustomRemoveBreakpointResponseV {
            id: self.id,
            removed: self.removed,
        }
    }
}

impl CustomRemoveBreakpointResponseV {
    /// The encoded entries of this value.
    pub open spec fn enc(self) -> Seq<(Seq<char>, JsonV)> {
        let s = Seq::<(Seq<char>, JsonV)>::empty();
        let s = spec_attr_u64(s, "id"@, self.id);
        let s = spec_attr_bool(s, "removed"@, self.removed);
        s
    }

    /// What decoding an object as this type yields.
    pub open spec fn dec(o: Seq<(Seq<char>, JsonV)>) -> Result<CustomRemoveBreakpointResponseV, ErrorV> {
        match spec_get_u64(o, "id"@) {
            Err(e) => Err(e),
            Ok(id) =>
            match spec_get_bool(o, "removed"@) {
                Err(e) => Err(e),
                Ok(removed) =>
                Ok(
                    CustomRemoveBreakpointResponseV {
                        id,
                        removed,
                    },
                )
            }
        }
    }
}

impl CustomRemoveBreakpointResponse {
    /// Encodes this value as a JSON object.
    pub fn into_json(self) -> (r: Json)
        ensures
            r.deep_view() == JsonV::Object(self.deep_view().enc()),
    {
        let mut o: JsonObject = Vec::new();
        proof {
            assert(entries_dv(o@) =~= Seq::<(Seq<char>, JsonV)>::empty());
        }
        attribute_u64(&mut o, "id", self.id);
        attribute_bool(&mut o, "removed", self.removed);
        Json::Object(o)
    }

    /// Decodes a JSON object as this type.
    pub fn try_from(o: &JsonObject) -> (r: Result<CustomRemoveBreakpointResponse, Error>)
        ensures
            rdv(r) == CustomRemoveBreakpointResponseV::dec(entries_dv(o@)),
    {
        let id = get_u64(o, "id")?;
        let removed = get_bool(o, "removed")?;
        Ok(
            CustomRemoveBreakpointResponse {
                id,
                removed,
            },
        )
    }
}


/// Arguments of a `setBreakpoints` request.
#[derive(Debug, PartialEq, Eq)]
pub struct SetBreakpointsArguments {
    pub source: Source,
    pub breakpoints: Vec<SourceBreakpoint>,
    pub lines: Vec<u64>,
    pub source_modified: bool,
}

/// Model of a [`SetBreakpointsArguments`].
pub struct SetBreakpointsArgumentsV {
    pub source: SourceV,
    pub breakpoints: Seq<SourceBreakpointV>,
    pub lines: Seq<u64>,
    pub source_modified: bool,
}

impl DeepView for SetBreakpointsArguments {
    type V = SetBreakpointsArgumentsV;

    open spec fn deep_view(&self) -> SetBreakpointsArgumentsV {
        SetBreakpointsArgumentsV {
            source: self.source.deep_view(),
            breakpoints: self.breakpoints.deep_view(),
            lines: self.lines@,
            source_modified: self.source_modified,
        }
    }
}

impl SetBreakpointsArgumentsV {
    /// The encoded entries of this value.
    pub open spec fn enc(self) -> Seq<(Seq<char>, JsonV)> {
        let s = Seq::<(Seq<char>, JsonV)>::empty();
        let s = spec_attr_json(s, "source"@, JsonV::Object(self.source.enc()));
        let s = spec_attr_json(s, "breakpoints"@, JsonV::Array(source_breakpoint_enc_elems(self.breakpoints)));
        let s = spec_attr_json(s, "lines"@, JsonV::Array(nums(self.lines)));
        let s = spec_attr_bool_optional(s, "sourceModified"@, self.source_modified);
        s
    }

    /// What decoding an object as this type yields.
    pub open spec fn dec(o: Seq<(Seq<char>, JsonV)>) -> Result<SetBreakpointsArgumentsV, ErrorV> {
        match (match spec_get_object(o, "source"@) {
            Err(e) => Err(e),
            Ok(e) => SourceV::dec(e),
        }) {
            Err(e) => Err(e),
            Ok(source) =>
            match spec_dec_obj_array(o, "breakpoints"@, source_breakpoint_elem("breakpoints"@)) {
                Err(e) => Err(e),
                Ok(breakpoints) =>
                match crate::utils::spec_get_array_of_u64_optional(o, "lines"@) {
                    Err(e) => Err(e),
                    Ok(lines) =>
                    match spec_get_bool_optional(o, "sourceModified"@) {
                        Err(e) => Err(e),
                        Ok(source_modified) =>
                        Ok(
                            SetBreakpointsArgumentsV {
                                source,
                                breakpoints,
                                lines,
                                source_modified,
                            },
                        )
                    }
                }
            }
        }
    }
}

impl SetBreakpointsArguments {
    /// Encodes this value as a JSON object.
    #[verifier::rlimit(50)]
    pub fn into_json(self) -> (r: Json)
        ensures
            r.deep_view() == JsonV::Object(self.deep_view().enc()),
    {
        let mut o: JsonObject = Vec::new();
        proof {
            assert(entries_dv(o@) =~= Seq::<(Seq<char>, JsonV)>::empty());
        }
        attribute(&mut o, "source", self.source.into_json());
        let elems = source_breakpoints_into_json(self.breakpoints);
        attribute(&mut o, "breakpoints", Json::Array(elems));
        let elems = nums_into_json(self.lines);
        attribute(&mut o, "lines", Json::Array(elems));
        attribute_bool_optional(&mut o, "sourceModified", self.source_modified);
        Json::Object(o)
    }

    /// Decodes a JSON object as this type.
    #[verifier::rlimit(50)]
    pub fn try_from(o: &JsonObject) -> (r: Result<SetBreakpointsArguments, Error>)
        ensures
            rdv(r) == SetBreakpointsArgumentsV::dec(entries_dv(o@)),
    {
        let source = {
            let e = get_object(o, "source")?;
            Source::try_from(e)?
        };
        let breakpoints = dec_source_breakpoints_arr(o, "breakpoints")?;
        let lines = crate::utils::get_array_of_u64_optional(o, "lines")?;
        proof {
            assert(lines@ =~= lines.deep_view());
        }
        let source_modified = get_bool_optional(o, "sourceModified")?;
        Ok(
            SetBreakpointsArguments {
                source,
                breakpoints,
                lines,
                source_modified,
            },
        )
    }
}


/// The answer to a `setBreakpoints` request.
#[derive(Debug, PartialEq, Eq)]
pub struct SetBreakpointsResponse {
    pub breakpoints: Vec<Breakpoint>,
}

/// Model of a [`SetBreakpointsResponse`].
pub struct SetBreakpointsResponseV {
    pub breakpoints: Seq<BreakpointV>,
}

impl DeepView for SetBreakpointsResponse {
    type V = SetBreakpointsResponseV;

    open spec fn deep_view(&self) -> SetBreakpointsResponseV {
        SetBreakpointsResponseV {
            breakpoints: self.breakpoints.deep_view(),
        }
    }
}

impl SetBreakpointsResponseV {
    /// The encoded entries of this value.
    pub open spec fn enc(self) -> Seq<(Seq<char>, JsonV)> {
        let s = Seq::<(Seq<char>, JsonV)>::empty();
        let s = spec_attr_json(s, "breakpoints"@, JsonV::Array(breakpoint_enc_elems(self.breakpoints)));
        s
    }

    /// What decoding an object as this type yields.
    pub open spec fn dec(o: Seq<(Seq<char>, JsonV)>) -> Result<SetBreakpointsResponseV, ErrorV> {
        match spec_dec_obj_array(o, "breakpoints"@, breakpoint_elem("breakpoints"@)) {
            Err(e) => Err(e),
            Ok(breakpoints) =>
            Ok(
                SetBreakpointsResponseV {
                    breakpoints,
                },
            )
        }
    }
}

impl SetBreakpointsResponse {
    /// Encodes this value as a JSON object.
    pub fn into_json(self) -> (r: Json)
        ensures
            r.deep_view() == JsonV::Object(self.deep_view().enc()),
    {
        let mut o: JsonObject = Vec::new();
        proof {
            assert(entries_dv(o@) =~= Seq::<(Seq<char>, JsonV)>::empty());
        }
        let elems = breakpoints_into_json(self.breakpoints);
        attribute(&mut o, "breakpoints", Json::Array(elems));
        Json::Object(o)
    }

    /// Decodes a JSON object as this type.
    pub fn try_from(o: &JsonObject) -> (r: Result<SetBreakpointsResponse, Error>)
        ensures
            rdv(r) == SetBreakpointsResponseV::dec(entries_dv(o@)),
    {
        let breakpoints = dec_breakpoints_arr(o, "breakpoints")?;
        Ok(
            SetBreakpointsResponse {
                breakpoints,
            },
        )
    }
}

/// Model of the element decoder for arrays of this type.
pub open spec fn source_breakpoint_elem(attr: Seq<char>) -> spec_fn(JsonV) -> Result<SourceBreakpointV, ErrorV> {
    |v: JsonV|
        match v {
            JsonV::Object(e) => SourceBreakpointV::dec(e),
            _ => Err(errv(attr, Cause::MustBeObject)),
        }
}

/// The model of a sequence of this type as JSON array elements.
pub open spec fn source_breakpoint_enc_elems(s: Seq<SourceBreakpointV>) -> Seq<JsonV> {
    s.map_values(|x: SourceBreakpointV| JsonV::Object(x.enc()))
}

/// Turns a sequence of this type into JSON array elements.
fn source_breakpoints_into_json(v: Vec<SourceBreakpoint>) -> (r: Vec<Json>)
    ensures
        elems_dv(r@) == source_breakpoint_enc_elems(v.deep_view()),
{
    let ghost vdv = v.deep_view();
    let mut out: Vec<Json> = Vec::new();
    let mut i: usize = 0;
    let n = v.len();
    let mut v = v;
    proof {
        assert(v.deep_view() =~= vdv);
        assert(elems_dv(out@) =~= source_breakpoint_enc_elems(vdv).take(0));
    }
    while i < n
        invariant
            i <= n,
            n == vdv.len(),
            v@.len() == n - i,
            forall|j: int| #![trigger v@[j]] 0 <= j < v@.len() ==> v@[j].deep_view() == vdv[i + j],
            elems_dv(out@) =~= source_breakpoint_enc_elems(vdv).take(i as int),
        decreases n - i,
    {
        let c = v.remove(0);
        out.push(c.into_json());
        i += 1;
        proof {
            assert(source_breakpoint_enc_elems(vdv)[i - 1] == JsonV::Object(vdv[i - 1].enc()));
            assert(source_breakpoint_enc_elems(vdv).take(i as int) =~= source_breakpoint_enc_elems(vdv).take(i - 1).push(
                source_breakpoint_enc_elems(vdv)[i - 1],
            ));
            assert(elems_dv(out@) =~= source_breakpoint_enc_elems(vdv).take(i as int));
        }
    }
    proof {
        assert(source_breakpoint_enc_elems(vdv).take(n as int) =~= source_breakpoint_enc_elems(vdv));
    }
    out
}

/// Decodes an optional array attribute of this type; absent means empty.
fn dec_source_breakpoints_arr(o: &JsonObject, attribute: &'static str) -> (r: Result<Vec<SourceBreakpoint>, Error>)
    ensures
        match r {
            Ok(v) => spec_dec_obj_array(entries_dv(o@), attribute@, source_breakpoint_elem(attribute@))
                == Ok::<_, ErrorV>(v.deep_view()),
            Err(e) => spec_dec_obj_array(entries_dv(o@), attribute@, source_breakpoint_elem(attribute@))
                == Err::<Seq<SourceBreakpointV>, _>(e.deep_view()),
        },
{
    let a = match crate::json::obj_get(o, attribute) {
        None => {
            let v: Vec<SourceBreakpoint> = Vec::new();
            proof {
                assert(v.deep_view() =~= Seq::<SourceBreakpointV>::empty());
            }
            return Ok(v);
        },
        Some(Json::Array(a)) => a,
        Some(_) => {
            return Err(Error::new(attribute, Cause::MustBeArray));
        },
    };
    let mut out: Vec<SourceBreakpoint> = Vec::new();
    let mut i: usize = 0;
    proof {
        assert(elems_dv(a@).take(0) =~= Seq::<JsonV>::empty());
        assert(out.deep_view() =~= Seq::<SourceBreakpointV>::empty());
    }
    while i < a.len()
        invariant
            i <= a.len(),
            lookup(entries_dv(o@), attribute@) == Some(JsonV::Array(elems_dv(a@))),
            dec_seq(elems_dv(a@).take(i as int), source_breakpoint_elem(attribute@)) == Ok::<_, ErrorV>(
                out.deep_view(),
            ),
        decreases a.len() - i,
    {
        let ghost pre = elems_dv(a@).take(i as int);
        proof {
            assert(elems_dv(a@).take(i + 1) =~= pre.push(elems_dv(a@)[i as int]));
            lemma_dec_seq_push(pre, elems_dv(a@)[i as int], source_breakpoint_elem(attribute@));
        }
        match &a[i] {
            Json::Object(e) => {
                match SourceBreakpoint::try_from(e) {
                    Ok(c) => {
                        out.push(c);
                        proof {
                            assert(out.deep_view() =~= dec_seq(
                                elems_dv(a@).take(i + 1),
                                source_breakpoint_elem(attribute@),
                            )->Ok_0);
                        }
                    },
                    Err(er) => {
                        proof {
                            lemma_dec_seq_err_prefix(elems_dv(a@), i + 1, source_breakpoint_elem(attribute@));
                        }
                        return Err(er);
                    },
                }
            },
            _ => {
                proof {
                    lemma_dec_seq_err_prefix(elems_dv(a@), i + 1, source_breakpoint_elem(attribute@));
                }
                return Err(Error::new(attribute, Cause::MustBeObject));
            },
        }
        i += 1;
    }
    proof {
        assert(elems_dv(a@).take(a@.len() as int) =~= elems_dv(a@));
    }
    Ok(out)
}


/// Model of the element decoder for arrays of this type.
pub open spec fn breakpoint_elem(attr: Seq<char>) -> spec_fn(JsonV) -> Result<BreakpointV, ErrorV> {
    |v: JsonV|
        match v {
            JsonV::Object(e) => BreakpointV::dec(e),
            _ => Err(errv(attr, Cause::MustBeObject)),
        }
}

/// The model of a sequence of this type as JSON array elements.
pub open spec fn breakpoint_enc_elems(s: Seq<BreakpointV>) -> Seq<JsonV> {
    s.map_values(|x: BreakpointV| JsonV::Object(x.enc()))
}

/// Turns a sequence of this type into JSON array elements.
fn breakpoints_into_json(v: Vec<Breakpoint>) -> (r: Vec<Json>)
    ensures
        elems_dv(r@) == breakpoint_enc_elems(v.deep_view()),
{
    let ghost vdv = v.deep_view();
    let mut out: Vec<Json> = Vec::new();
    let mut i: usize = 0;
    let n = v.len();
    let mut v = v;
    proof {
        assert(v.deep_view() =~= vdv);
        assert(elems_dv(out@) =~= breakpoint_enc_elems(vdv).take(0));
    }
    while i < n
        invariant
            i <= n,
            n == vdv.len(),
            v@.len() == n - i,
            forall|j: int| #![trigger v@[j]] 0 <= j < v@.len() ==> v@[j].deep_view() == vdv[i + j],
            elems_dv(out@) =~= breakpoint_enc_elems(vdv).take(i as int),
        decreases n - i,
    {
        let c = v.remove(0);
        out.push(c.into_json());
        i += 1;
        proof {
            assert(breakpoint_enc_elems(vdv)[i - 1] == JsonV::Object(vdv[i - 1].enc()));
            assert(breakpoint_enc_elems(vdv).take(i as int) =~= breakpoint_enc_elems(vdv).take(i - 1).push(
                breakpoint_enc_elems(vdv)[i - 1],
            ));
            assert(elems_dv(out@) =~= breakpoint_enc_elems(vdv).take(i as int));
        }
    }
    proof {
        assert(breakpoint_enc_elems(vdv).take(n as int) =~= breakpoint_enc_elems(vdv));
    }
    out
}

/// Decodes an optional array attribute of this type; absent means empty.
fn dec_breakpoints_arr(o: &JsonObject, attribute: &'static str) -> (r: Result<Vec<Breakpoint>, Error>)
    ensures
        match r {
            Ok(v) => spec_dec_obj_array(entries_dv(o@), attribute@, breakpoint_elem(attribute@))
                == Ok::<_, ErrorV>(v.deep_view()),
            Err(e) => spec_dec_obj_array(entries_dv(o@), attribute@, breakpoint_elem(attribute@))
                == Err::<Seq<BreakpointV>, _>(e.deep_view()),
        },
{
    let a = match crate::json::obj_get(o, attribute) {
        None => {
            let v: Vec<Breakpoint> = Vec::new();
            proof {
                assert(v.deep_view() =~= Seq::<BreakpointV>::empty());
            }
            return Ok(v);
        },
        Some(Json::Array(a)) => a,
        Some(_) => {
            return Err(Error::new(attribute, Cause::MustBeArray));
        },
    };
    let mut out: Vec<Breakpoint> = Vec::new();
    let mut i: usize = 0;
    proof {
        assert(elems_dv(a@).take(0) =~= Seq::<JsonV>::empty());
        assert(out.deep_view() =~= Seq::<BreakpointV>::empty());
    }
    while i < a.len()
        invariant
            i <= a.len(),
            lookup(entries_dv(o@), attribute@) == Some(JsonV::Array(elems_dv(a@))),
            dec_seq(elems_dv(a@).take(i as int), breakpoint_elem(attribute@)) == Ok::<_, ErrorV>(
                out.deep_view(),
            ),
        decreases a.len() - i,
    {
        let ghost pre = elems_dv(a@).take(i as int);
        proof {
            assert(elems_dv(a@).take(i + 1) =~= pre.push(elems_dv(a@)[i as int]));
            lemma_dec_seq_push(pre, elems_dv(a@)[i as int], breakpoint_elem(attribute@));
        }
        match &a[i] {
            Json::Object(e) => {
                match Breakpoint::try_from(e) {
                    Ok(c) => {
                        out.push(c);
                        proof {
                            assert(out.deep_view() =~= dec_seq(
                                elems_dv(a@).take(i + 1),
                                breakpoint_elem(attribute@),
                            )->Ok_0);
                        }
                    },
                    Err(er) => {
                        proof {
                            lemma_dec_seq_err_prefix(elems_dv(a@), i + 1, breakpoint_elem(attribute@));
                        }
                        return Err(er);
                    },
                }
            },
            _ => {
                proof {
                    lemma_dec_seq_err_prefix(elems_dv(a@), i + 1, breakpoint_elem(attribute@));
                }
                return Err(Error::new(attribute, Cause::MustBeObject));
            },
        }
        i += 1;
    }
    proof {
        assert(elems_dv(a@).take(a@.len() as int) =~= elems_dv(a@));
    }
    Ok(out)
}


/// Model of the element decoder for arrays of this type.
pub open spec fn breakpoint_location_elem(attr: Seq<char>) -> spec_fn(JsonV) -> Result<BreakpointLocationV, ErrorV> {
    |v: JsonV|
        match v {
            JsonV::Object(e) => BreakpointLocationV::dec(e),
            _ => Err(errv(attr, Cause::MustBeObject)),
        }
}

/// The model of a sequence of this type as JSON array elements.
pub open spec fn breakpoint_location_enc_elems(s: Seq<BreakpointLocationV>) -> Seq<JsonV> {
    s.map_values(|x: BreakpointLocationV| JsonV::Object(x.enc()))
}

/// Turns a sequence of this type into JSON array elements.
fn breakpoint_locations_into_json(v: Vec<BreakpointLocation>) -> (r: Vec<Json>)
    ensures
        elems_dv(r@) == breakpoint_location_enc_elems(v.deep_view()),
{
    let ghost vdv = v.deep_view();
    let mut out: Vec<Json> = Vec::new();
    let mut i: usize = 0;
    let n = v.len();
    let mut v = v;
    proof {
        assert(v.deep_view() =~= vdv);
        assert(elems_dv(out@) =~= breakpoint_location_enc_elems(vdv).take(0));
    }
    while i < n
        invariant
            i <= n,
            n == vdv.len(),
            v@.len() == n - i,
            forall|j: int| #![trigger v@[j]] 0 <= j < v@.len() ==> v@[j].deep_view() == vdv[i + j],
            elems_dv(out@) =~= breakpoint_location_enc_elems(vdv).take(i as int),
        decreases n - i,
    {
        let c = v.remove(0);
        out.push(c.into_json());
        i += 1;
        proof {
            assert(breakpoint_location_enc_elems(vdv)[i - 1] == JsonV::Object(vdv[i - 1].enc()));
            assert(breakpoint_location_enc_elems(vdv).take(i as int) =~= breakpoint_location_enc_elems(vdv).take(i - 1).push(
                breakpoint_location_enc_elems(vdv)[i - 1],
            ));
            assert(elems_dv(out@) =~= breakpoint_location_enc_elems(vdv).take(i as int));
        }
    }
    proof {
        assert(breakpoint_location_enc_elems(vdv).take(n as int) =~= breakpoint_location_enc_elems(vdv));
    }
    out
}

/// Decodes an optional array attribute of this type; absent means empty.
fn dec_breakpoint_locations_arr(o: &JsonObject, attribute: &'static str) -> (r: Result<Vec<BreakpointLocation>, Error>)
    ensures
        match r {
            Ok(v) => spec_dec_obj_array(entries_dv(o@), attribute@, breakpoint_location_elem(attribute@))
                == Ok::<_, ErrorV>(v.deep_view()),
            Err(e) => spec_dec_obj_array(entries_dv(o@), attribute@, breakpoint_location_elem(attribute@))
                == Err::<Seq<BreakpointLocationV>, _>(e.deep_view()),
        },
{
    let a = match crate::json::obj_get(o, attribute) {
        None => {
            let v: Vec<BreakpointLocation> = Vec::new();
            proof {
                assert(v.deep_view() =~= Seq::<BreakpointLocationV>::empty());
            }
            return Ok(v);
        },
        Some(Json::Array(a)) => a,
        Some(_) => {
            return Err(Error::new(attribute, Cause::MustBeArray));
        },
    };
    let mut out: Vec<BreakpointLocation> = Vec::new();
    let mut i: usize = 0;
    proof {
        assert(elems_dv(a@).take(0) =~= Seq::<JsonV>::empty());
        assert(out.deep_view() =~= Seq::<BreakpointLocationV>::empty());
    }
    while i < a.len()
        invariant
            i <= a.len(),
            lookup(entries_dv(o@), attribute@) == Some(JsonV::Array(elems_dv(a@))),
            dec_seq(elems_dv(a@).take(i as int), breakpoint_location_elem(attribute@)) == Ok::<_, ErrorV>(
                out.deep_view(),
            ),
        decreases a.len() - i,
    {
        let ghost pre = elems_dv(a@).take(i as int);
        proof {
            assert(elems_dv(a@).take(i + 1) =~= pre.push(elems_dv(a@)[i as int]));
            lemma_dec_seq_push(pre, elems_dv(a@)[i as int], breakpoint_location_elem(attribute@));
        }
        match &a[i] {
            Json::Object(e) => {
                match BreakpointLocation::try_from(e) {
                    Ok(c) => {
                        out.push(c);
                        proof {
                            assert(out.deep_view() =~= dec_seq(
                                elems_dv(a@).take(i + 1),
                                breakpoint_location_elem(attribute@),
                            )->Ok_0);
                        }
                    },
                    Err(er) => {
                        proof {
                            lemma_dec_seq_err_prefix(elems_dv(a@), i + 1, breakpoint_location_elem(attribute@));
                        }
                        return Err(er);
                    },
                }
            },
            _ => {
                proof {
                    lemma_dec_seq_err_prefix(elems_dv(a@), i + 1, breakpoint_location_elem(attribute@));
                }
                return Err(Error::new(attribute, Cause::MustBeObject));
            },
        }
        i += 1;
    }
    proof {
        assert(elems_dv(a@).take(a@.len() as int) =~= elems_dv(a@));
    }
    Ok(out)
}


/// Model of the element decoder for arrays of this type.
pub open spec fn scope_elem(attr: Seq<char>) -> spec_fn(JsonV) -> Result<ScopeV, ErrorV> {
    |v: JsonV|
        match v {
            JsonV::Object(e) => ScopeV::dec(e),
            _ => Err(errv(attr, Cause::MustBeObject)),
        }
}

/// The model of a sequence of this type as JSON array elements.
pub open spec fn scope_enc_elems(s: Seq<ScopeV>) -> Seq<JsonV> {
    s.map_values(|x: ScopeV| JsonV::Object(x.enc()))
}

/// Turns a sequence of this type into JSON array elements.
fn scopes_into_json(v: Vec<Scope>) -> (r: Vec<Json>)
    ensures
        elems_dv(r@) == scope_enc_elems(v.deep_view()),
{
    let ghost vdv = v.deep_view();
    let mut out: Vec<Json> = Vec::new();
    let mut i: usize = 0;
    let n = v.len();
    let mut v = v;
    proof {
        assert(v.deep_view() =~= vdv);
        assert(elems_dv(out@) =~= scope_enc_elems(vdv).take(0));
    }
    while i < n
        invariant
            i <= n,
            n == vdv.len(),
            v@.len() == n - i,
            forall|j: int| #![trigger v@[j]] 0 <= j < v@.len() ==> v@[j].deep_view() == vdv[i + j],
            elems_dv(out@) =~= scope_enc_elems(vdv).take(i as int),
        decreases n - i,
    {
        let c = v.remove(0);
        out.push(c.into_json());
        i += 1;
        proof {
            assert(scope_enc_elems(vdv)[i - 1] == JsonV::Object(vdv[i - 1].enc()));
            assert(scope_enc_elems(vdv).take(i as int) =~= scope_enc_elems(vdv).take(i - 1).push(
                scope_enc_elems(vdv)[i - 1],
            ));
            assert(elems_dv(out@) =~= scope_enc_elems(vdv).take(i as int));
        }
    }
    proof {
        assert(scope_enc_elems(vdv).take(n as int) =~= scope_enc_elems(vdv));
    }
    out
}

/// Decodes an optional array attribute of this type; absent means empty.
fn dec_scopes_arr(o: &JsonObject, attribute: &'static str) -> (r: Result<Vec<Scope>, Error>)
    ensures
        match r {
            Ok(v) => spec_dec_obj_array(entries_dv(o@), attribute@, scope_elem(attribute@))
                == Ok::<_, ErrorV>(v.deep_view()),
            Err(e) => spec_dec_obj_array(entries_dv(o@), attribute@, scope_elem(attribute@))
                == Err::<Seq<ScopeV>, _>(e.deep_view()),
        },
{
    let a = match crate::json::obj_get(o, attribute) {
        None => {
            let v: Vec<Scope> = Vec::new();
            proof {
                assert(v.deep_view() =~= Seq::<ScopeV>::empty());
            }
            return Ok(v);
        },
        Some(Json::Array(a)) => a,
        Some(_) => {
            return Err(Error::new(attribute, Cause::MustBeArray));
        },
    };
    let mut out: Vec<Scope> = Vec::new();
    let mut i: usize = 0;
    proof {
        assert(elems_dv(a@).take(0) =~= Seq::<JsonV>::empty());
        assert(out.deep_view() =~= Seq::<ScopeV>::empty());
    }
    while i < a.len()
        invariant
            i <= a.len(),
            lookup(entries_dv(o@), attribute@) == Some(JsonV::Array(elems_dv(a@))),
            dec_seq(elems_dv(a@).take(i as int), scope_elem(attribute@)) == Ok::<_, ErrorV>(
                out.deep_view(),
            ),
        decreases a.len() - i,
    {
        let ghost pre = elems_dv(a@).take(i as int);
        proof {
            assert(elems_dv(a@).take(i + 1) =~= pre.push(elems_dv(a@)[i as int]));
            lemma_dec_seq_push(pre, elems_dv(a@)[i as int], scope_elem(attribute@));
        }
        match &a[i] {
            Json::Object(e) => {
                match Scope::try_from(e) {
                    Ok(c) => {
                        out.push(c);
                        proof {
                            assert(out.deep_view() =~= dec_seq(
                                elems_dv(a@).take(i + 1),
                                scope_elem(attribute@),
                            )->Ok_0);
                        }
                    },
                    Err(er) => {
                        proof {
                            lemma_dec_seq_err_prefix(elems_dv(a@), i + 1, scope_elem(attribute@));
                        }
                        return Err(er);
                    },
                }
            },
            _ => {
                proof {
                    lemma_dec_seq_err_prefix(elems_dv(a@), i + 1, scope_elem(attribute@));
                }
                return Err(Error::new(attribute, Cause::MustBeObject));
            },
        }
        i += 1;
    }
    proof {
        assert(elems_dv(a@).take(a@.len() as int) =~= elems_dv(a@));
    }
    Ok(out)
}


/// Model of the element decoder for arrays of this type.
pub open spec fn stack_frame_elem(attr: Seq<char>) -> spec_fn(JsonV) -> Result<StackFrameV, ErrorV> {
    |v: JsonV|
        match v {
            JsonV::Object(e) => StackFrameV::dec(e),
            _ => Err(errv(attr, Cause::MustBeObject)),
        }
}

/// The model of a sequence of this type as JSON array elements.
pub open spec fn stack_frame_enc_elems(s: Seq<StackFrameV>) -> Seq<JsonV> {
    s.map_values(|x: StackFrameV| JsonV::Object(x.enc()))
}

/// Turns a sequence of this type into JSON array elements.
fn stack_frames_into_json(v: Vec<StackFrame>) -> (r: Vec<Json>)
    ensures
        elems_dv(r@) == stack_frame_enc_elems(v.deep_view()),
{
    let ghost vdv = v.deep_view();
    let mut out: Vec<Json> = Vec::new();
    let mut i: usize = 0;
    let n = v.len();
    let mut v = v;
    proof {
        assert(v.deep_view() =~= vdv);
        assert(elems_dv(out@) =~= stack_frame_enc_elems(vdv).take(0));
    }
    while i < n
        invariant
            i <= n,
            n == vdv.len(),
            v@.len() == n - i,
            forall|j: int| #![trigger v@[j]] 0 <= j < v@.len() ==> v@[j].deep_view() == vdv[i + j],
            elems_dv(out@) =~= stack_frame_enc_elems(vdv).take(i as int),
        decreases n - i,
    {
        let c = v.remove(0);
        out.push(c.into_json());
        i += 1;
        proof {
            assert(stack_frame_enc_elems(vdv)[i - 1] == JsonV::Object(vdv[i - 1].enc()));
            assert(stack_frame_enc_elems(vdv).take(i as int) =~= stack_frame_enc_elems(vdv).take(i - 1).push(
                stack_frame_enc_elems(vdv)[i - 1],
            ));
            assert(elems_dv(out@) =~= stack_frame_enc_elems(vdv).take(i as int));
        }
    }
    proof {
        assert(stack_frame_enc_elems(vdv).take(n as int) =~= stack_frame_enc_elems(vdv));
    }
    out
}

/// Decodes an optional array attribute of this type; absent means empty.
fn dec_stack_frames_arr(o: &JsonObject, attribute: &'static str) -> (r: Result<Vec<StackFrame>, Error>)
    ensures
        match r {
            Ok(v) => spec_dec_obj_array(entries_dv(o@), attribute@, stack_frame_elem(attribute@))
                == Ok::<_, ErrorV>(v.deep_view()),
            Err(e) => spec_dec_obj_array(entries_dv(o@), attribute@, stack_frame_elem(attribute@))
                == Err::<Seq<StackFrameV>, _>(e.deep_view()),
        },
{
    let a = match crate::json::obj_get(o, attribute) {
        None => {
            let v: Vec<StackFrame> = Vec::new();
            proof {
                assert(v.deep_view() =~= Seq::<StackFrameV>::empty());
            }
            return Ok(v);
        },
        Some(Json::Array(a)) => a,
        Some(_) => {
            return Err(Error::new(attribute, Cause::MustBeArray));
        },
    };
    let mut out: Vec<StackFrame> = Vec::new();
    let mut i: usize = 0;
    proof {
        assert(elems_dv(a@).take(0) =~= Seq::<JsonV>::empty());
        assert(out.deep_view() =~= Seq::<StackFrameV>::empty());
    }
    while i < a.len()
        invariant
            i <= a.len(),
            lookup(entries_dv(o@), attribute@) == Some(JsonV::Array(elems_dv(a@))),
            dec_seq(elems_dv(a@).take(i as int), stack_frame_elem(attribute@)) == Ok::<_, ErrorV>(
                out.deep_view(),
            ),
        decreases a.len() - i,
    {
        let ghost pre = elems_dv(a@).take(i as int);
        proof {
            assert(elems_dv(a@).take(i + 1) =~= pre.push(elems_dv(a@)[i as int]));
            lemma_dec_seq_push(pre, elems_dv(a@)[i as int], stack_frame_elem(attribute@));
        }
        match &a[i] {
            Json::Object(e) => {
                match StackFrame::try_from(e) {
                    Ok(c) => {
                        out.push(c);
                        proof {
                            assert(out.deep_view() =~= dec_seq(
                                elems_dv(a@).take(i + 1),
                                stack_frame_elem(attribute@),
                            )->Ok_0);
                        }
                    },
                    Err(er) => {
                        proof {
                            lemma_dec_seq_err_prefix(elems_dv(a@), i + 1, stack_frame_elem(attribute@));
                        }
                        return Err(er);
                    },
                }
            },
            _ => {
                proof {
                    lemma_dec_seq_err_prefix(elems_dv(a@), i + 1, stack_frame_elem(attribute@));
                }
                return Err(Error::new(attribute, Cause::MustBeObject));
            },
        }
        i += 1;
    }
    proof {
        assert(elems_dv(a@).take(a@.len() as int) =~= elems_dv(a@));
    }
    Ok(out)
}


/// Model of the element decoder for arrays of this type.
pub open spec fn thread_elem(attr: Seq<char>) -> spec_fn(JsonV) -> Result<ThreadV, ErrorV> {
    |v: JsonV|
        match v {
            JsonV::Object(e) => ThreadV::dec(e),
            _ => Err(errv(attr, Cause::MustBeObject)),
        }
}

/// The model of a sequence of this type as JSON array elements.
pub open spec fn thread_enc_elems(s: Seq<ThreadV>) -> Seq<JsonV> {
    s.map_values(|x: ThreadV| JsonV::Object(x.enc()))
}

/// Turns a sequence of this type into JSON array elements.
fn threads_into_json(v: Vec<Thread>) -> (r: Vec<Json>)
    ensures
        elems_dv(r@) == thread_enc_elems(v.deep_view()),
{
    let ghost vdv = v.deep_view();
    let mut out: Vec<Json> = Vec::new();
    let mut i: usize = 0;
    let n = v.len();
    let mut v = v;
    proof {
        assert(v.deep_view() =~= vdv);
        assert(elems_dv(out@) =~= thread_enc_elems(vdv).take(0));
    }
    while i < n
        invariant
            i <= n,
            n == vdv.len(),
            v@.len() == n - i,
            forall|j: int| #![trigger v@[j]] 0 <= j < v@.len() ==> v@[j].deep_view() == vdv[i + j],
            elems_dv(out@) =~= thread_enc_elems(vdv).take(i as int),
        decreases n - i,
    {
        let c = v.remove(0);
        out.push(c.into_json());
        i += 1;
        proof {
            assert(thread_enc_elems(vdv)[i - 1] == JsonV::Object(vdv[i - 1].enc()));
            assert(thread_enc_elems(vdv).take(i as int) =~= thread_enc_elems(vdv).take(i - 1).push(
                thread_enc_elems(vdv)[i - 1],
            ));
            assert(elems_dv(out@) =~= thread_enc_elems(vdv).take(i as int));
        }
    }
    proof {
        assert(thread_enc_elems(vdv).take(n as int) =~= thread_enc_elems(vdv));
    }
    out
}

/// Decodes an optional array attribute of this type; absent means empty.
fn dec_threads_arr(o: &JsonObject, attribute: &'static str) -> (r: Result<Vec<Thread>, Error>)
    ensures
        match r {
            Ok(v) => spec_dec_obj_array(entries_dv(o@), attribute@, thread_elem(attribute@))
                == Ok::<_, ErrorV>(v.deep_view()),
            Err(e) => spec_dec_obj_array(entries_dv(o@), attribute@, thread_elem(attribute@))
                == Err::<Seq<ThreadV>, _>(e.deep_view()),
        },
{
    let a = match crate::json::obj_get(o, attribute) {
        None => {
            let v: Vec<Thread> = Vec::new();
            proof {
                assert(v.deep_view() =~= Seq::<ThreadV>::empty());
            }
            return Ok(v);
        },
        Some(Json::Array(a)) => a,
        Some(_) => {
            return Err(Error::new(attribute, Cause::MustBeArray));
        },
    };
    let mut out: Vec<Thread> = Vec::new();
    let mut i: usize = 0;
    proof {
        assert(elems_dv(a@).take(0) =~= Seq::<JsonV>::empty());
        assert(out.deep_view() =~= Seq::<ThreadV>::empty());
    }
    while i < a.len()
        invariant
            i <= a.len(),
            lookup(entries_dv(o@), attribute@) == Some(JsonV::Array(elems_dv(a@))),
            dec_seq(elems_dv(a@).take(i as int), thread_elem(attribute@)) == Ok::<_, ErrorV>(
                out.deep_view(),
            ),
        decreases a.len() - i,
    {
        let ghost pre = elems_dv(a@).take(i as int);
        proof {
            assert(elems_dv(a@).take(i + 1) =~= pre.push(elems_dv(a@)[i as int]));
            lemma_dec_seq_push(pre, elems_dv(a@)[i as int], thread_elem(attribute@));
        }
        match &a[i] {
            Json::Object(e) => {
                match Thread::try_from(e) {
                    Ok(c) => {
                        out.push(c);
                        proof {
                            assert(out.deep_view() =~= dec_seq(
                                elems_dv(a@).take(i + 1),
                                thread_elem(attribute@),
                            )->Ok_0);
                        }
                    },
                    Err(er) => {
                        proof {
                            lemma_dec_seq_err_prefix(elems_dv(a@), i + 1, thread_elem(attribute@));
                        }
                        return Err(er);
                    },
                }
            },
            _ => {
                proof {
                    lemma_dec_seq_err_prefix(elems_dv(a@), i + 1, thread_elem(attribute@));
                }
                return Err(Error::new(attribute, Cause::MustBeObject));
            },
        }
        i += 1;
    }
    proof {
        assert(elems_dv(a@).take(a@.len() as int) =~= elems_dv(a@));
    }
    Ok(out)
}


/// Model of the element decoder for arrays of this type.
pub open spec fn variable_elem(attr: Seq<char>) -> spec_fn(JsonV) -> Result<VariableV, ErrorV> {
    |v: JsonV|
        match v {
            JsonV::Object(e) => VariableV::dec(e),
            _ => Err(errv(attr, Cause::MustBeObject)),
        }
}

/// The model of a sequence of this type as JSON array elements.
pub open spec fn variable_enc_elems(s: Seq<VariableV>) -> Seq<JsonV> {
    s.map_values(|x: VariableV| JsonV::Object(x.enc()))
}

/// Turns a sequence of this type into JSON array elements.
fn variables_into_json(v: Vec<Variable>) -> (r: Vec<Json>)
    ensures
        elems_dv(r@) == variable_enc_elems(v.deep_view()),
{
    let ghost vdv = v.deep_view();
    let mut out: Vec<Json> = Vec::new();
    let mut i: usize = 0;
    let n = v.len();
    let mut v = v;
    proof {
        assert(v.deep_view() =~= vdv);
        assert(elems_dv(out@) =~= variable_enc_elems(vdv).take(0));
    }
    while i < n
        invariant
            i <= n,
            n == vdv.len(),
            v@.len() == n - i,
            forall|j: int| #![trigger v@[j]] 0 <= j < v@.len() ==> v@[j].deep_view() == vdv[i + j],
            elems_dv(out@) =~= variable_enc_elems(vdv).take(i as int),
        decreases n - i,
    {
        let c = v.remove(0);
        out.push(c.into_json());
        i += 1;
        proof {
            assert(variable_enc_elems(vdv)[i - 1] == JsonV::Object(vdv[i - 1].enc()));
            assert(variable_enc_elems(vdv).take(i as int) =~= variable_enc_elems(vdv).take(i - 1).push(
                variable_enc_elems(vdv)[i - 1],
            ));
            assert(elems_dv(out@) =~= variable_enc_elems(vdv).take(i as int));
        }
    }
    proof {
        assert(variable_enc_elems(vdv).take(n as int) =~= variable_enc_elems(vdv));
    }
    out
}

/// Decodes an optional array attribute of this type; absent means empty.
fn dec_variables_arr(o: &JsonObject, attribute: &'static str) -> (r: Result<Vec<Variable>, Error>)
    ensures
        match r {
            Ok(v) => spec_dec_obj_array(entries_dv(o@), attribute@, variable_elem(attribute@))
                == Ok::<_, ErrorV>(v.deep_view()),
            Err(e) => spec_dec_obj_array(entries_dv(o@), attribute@, variable_elem(attribute@))
                == Err::<Seq<VariableV>, _>(e.deep_view()),
        },
{
    let a = match crate::json::obj_get(o, attribute) {
        None => {
            let v: Vec<Variable> = Vec::new();
            proof {
                assert(v.deep_view() =~= Seq::<VariableV>::empty());
            }
            return Ok(v);
        },
        Some(Json::Array(a)) => a,
        Some(_) => {
            return Err(Error::new(attribute, Cause::MustBeArray));
        },
    };
    let mut out: Vec<Variable> = Vec::new();
    let mut i: usize = 0;
    proof {
        assert(elems_dv(a@).take(0) =~= Seq::<JsonV>::empty());
        assert(out.deep_view() =~= Seq::<VariableV>::empty());
    }
    while i < a.len()
        invariant
            i <= a.len(),
            lookup(entries_dv(o@), attribute@) == Some(JsonV::Array(elems_dv(a@))),
            dec_seq(elems_dv(a@).take(i as int), variable_elem(attribute@)) == Ok::<_, ErrorV>(
                out.deep_view(),
            ),
        decreases a.len() - i,
    {
        let ghost pre = elems_dv(a@).take(i as int);
        proof {
            assert(elems_dv(a@).take(i + 1) =~= pre.push(elems_dv(a@)[i as int]));
            lemma_dec_seq_push(pre, elems_dv(a@)[i as int], variable_elem(attribute@));
        }
        match &a[i] {
            Json::Object(e) => {
                match Variable::try_from(e) {
                    Ok(c) => {
                        out.push(c);
                        proof {
                            assert(out.deep_view() =~= dec_seq(
                                elems_dv(a@).take(i + 1),
                                variable_elem(attribute@),
                            )->Ok_0);
                        }
                    },
                    Err(er) => {
                        proof {
                            lemma_dec_seq_err_prefix(elems_dv(a@), i + 1, variable_elem(attribute@));
                        }
                        return Err(er);
                    },
                }
            },
            _ => {
                proof {
                    lemma_dec_seq_err_prefix(elems_dv(a@), i + 1, variable_elem(attribute@));
                }
                return Err(Error::new(attribute, Cause::MustBeObject));
            },
        }
        i += 1;
    }
    proof {
        assert(elems_dv(a@).take(a@.len() as int) =~= elems_dv(a@));
    }
    Ok(out)
}


/// The model of unsigned integers as JSON array elements.
pub open spec fn nums(a: Seq<u64>) -> Seq<JsonV> {
    a.map_values(|x: u64| JsonV::U64(x))
}

/// Turns unsigned integers into JSON array elements.
fn nums_into_json(v: Vec<u64>) -> (r: Vec<Json>)
    ensures
        elems_dv(r@) == nums(v@),
{
    let mut out: Vec<Json> = Vec::new();
    let mut i: usize = 0;
    proof {
        assert(elems_dv(out@) =~= nums(v@).take(0));
    }
    while i < v.len()
        invariant
            i <= v.len(),
            elems_dv(out@) =~= nums(v@).take(i as int),
        decreases v.len() - i,
    {
        out.push(Json::U64(v[i]));
        i += 1;
        proof {
            assert(elems_dv(out@) =~= nums(v@).take(i as int));
        }
    }
    proof {
        assert(nums(v@).take(v@.len() as int) =~= nums(v@));
    }
    out
}

/// Arguments of an `initialize` request: what the client supports.
#[derive(Debug, Clone, PartialEq, Eq)]
pub struct InitializeArguments {
    pub client_id: Option<String>,
    pub client_name: Option<String>,
    pub adapter_id: String,
    pub locale: Option<String>,
    pub lines_start_at_1: bool,
    pub column_start_at_1: bool,
    pub path_format: Option<PathFormat>,
    pub supports_variable_type: bool,
    pub supports_variable_paging: bool,
    pub supports_run_in_terminal_request: bool,
    pub supports_memory_references: bool,
    pub supports_progress_reporting: bool,
    pub supports_invalidated_event: bool,
    pub supports_memory_event: bool,
    pub supports_args_can_be_interpreted_by_shell: bool,
}

/// Model of a [`InitializeArguments`].
pub struct InitializeArgumentsV {
    pub client_id: Option<Seq<char>>,
    pub client_name: Option<Seq<char>>,
    pub adapter_id: Seq<char>,
    pub locale: Option<Seq<char>>,
    pub lines_start_at_1: bool,
    pub column_start_at_1: bool,
    pub path_format: Option<PathFormatV>,
    pub supports_variable_type: bool,
    pub supports_variable_paging: bool,
    pub supports_run_in_terminal_request: bool,
    pub supports_memory_references: bool,
    pub supports_progress_reporting: bool,
    pub supports_invalidated_event: bool,
    pub supports_memory_event: bool,
    pub supports_args_can_be_interpreted_by_shell: bool,
}

impl DeepView for InitializeArguments {
    type V = InitializeArgumentsV;

    open spec fn deep_view(&self) -> InitializeArgumentsV {
        InitializeArgumentsV {
            client_id: self.client_id.deep_view(),
            client_name: self.client_name.deep_view(),
            adapter_id: self.adapter_id@,
            locale: self.locale.deep_view(),
            lines_start_at_1: self.lines_start_at_1,
            column_start_at_1: self.column_start_at_1,
            path_format: self.path_format.deep_view(),
            supports_variable_type: self.supports_variable_type,
            supports_variable_paging: self.supports_variable_paging,
            supports_run_in_terminal_request: self.supports_run_in_terminal_request,
            supports_memory_references: self.supports_memory_references,
            supports_progress_reporting: self.supports_progress_reporting,
            supports_invalidated_event: self.supports_invalidated_event,
            supports_memory_event: self.supports_memory_event,
            supports_args_can_be_interpreted_by_shell: self.supports_args_can_be_interpreted_by_shell,
        }
    }
}

impl InitializeArgumentsV {
    /// The encoded entries of this value.
    pub open spec fn enc(self) -> Seq<(Seq<char>, JsonV)> {
        let s = Seq::<(Seq<char>, JsonV)>::empty();
        let s = spec_attr_string_optional(s, "clientId"@, self.client_id);
        let s = spec_attr_string_optional(s, "clientName"@, self.client_name);
        let s = spec_attr_string(s, "adapterId"@, self.adapter_id);
        let s = spec_attr_string_optional(s, "locale"@, self.locale);
        let s = spec_attr_bool_optional(s, "linesStartAt1"@, self.lines_start_at_1);
        let s = spec_attr_bool_optional(s, "columnStartAt1"@, self.column_start_at_1);
        let s = spec_attr_string_optional(
            s,
            "pathFormat"@,
            match self.path_format {
                Some(v) => Some(v.wire()),
                None => None,
            },
        );
        let s = spec_attr_bool_optional(s, "supportsVariableType"@, self.supports_variable_type);
        let s = spec_attr_bool_optional(s, "supportsVariablePaging"@, self.supports_variable_paging);
        let s = spec_attr_bool_optional(s, "supportsRunInTerminalRequest"@, self.supports_run_in_terminal_request);
        let s = spec_attr_bool_optional(s, "supportsMemoryReferences"@, self.supports_memory_references);
        let s = spec_attr_bool_optional(s, "supportsProgressReporting"@, self.supports_progress_reporting);
        let s = spec_attr_bool_optional(s, "supportsInvalidatedEvent"@, self.supports_invalidated_event);
        let s = spec_attr_bool_optional(s, "supportsMemoryEvent"@, self.supports_memory_event);
        let s = spec_attr_bool_optional(s, "supportsArgsCanBeInterpretedByShell"@, self.supports_args_can_be_interpreted_by_shell);
        s
    }

    /// What decoding an object as this type yields.
    pub open spec fn dec(o: Seq<(Seq<char>, JsonV)>) -> Result<InitializeArgumentsV, ErrorV> {
        match spec_get_string_optional(o, "clientId"@) {
            Err(e) => Err(e),
            Ok(client_id) =>
            match spec_get_string_optional(o, "clientName"@) {
                Err(e) => Err(e),
                Ok(client_name) =>
                match spec_get_string(o, "adapterId"@) {
                    Err(e) => Err(e),
                    Ok(adapter_id) =>
                    match spec_get_string_optional(o, "locale"@) {
                        Err(e) => Err(e),
                        Ok(locale) =>
                        match spec_get_bool_optional(o, "linesStartAt1"@) {
                            Err(e) => Err(e),
                            Ok(lines_start_at_1) =>
                            match spec_get_bool_optional(o, "columnStartAt1"@) {
                                Err(e) => Err(e),
                                Ok(column_start_at_1) =>
                                match (match spec_get_string_optional(o, "pathFormat"@) {
            Err(e) => Err(e),
            Ok(None) => Ok(None),
            Ok(Some(w)) => Ok(Some(PathFormatV::spec_from(w))),
        }) {
                                    Err(e) => Err(e),
                                    Ok(path_format) =>
                                    match spec_get_bool_optional(o, "supportsVariableType"@) {
                                        Err(e) => Err(e),
                                        Ok(supports_variable_type) =>
                                        match spec_get_bool_optional(o, "supportsVariablePaging"@) {
                                            Err(e) => Err(e),
                                            Ok(supports_variable_paging) =>
                                            match spec_get_bool_optional(o, "supportsRunInTerminalRequest"@) {
                                                Err(e) => Err(e),
                                                Ok(supports_run_in_terminal_request) =>
                                                match spec_get_bool_optional(o, "supportsMemoryReferences"@) {
                                                    Err(e) => Err(e),
                                                    Ok(supports_memory_references) =>
                                                    match spec_get_bool_optional(o, "supportsProgressReporting"@) {
                                                        Err(e) => Err(e),
                                                        Ok(supports_progress_reporting) =>
                                                        match spec_get_bool_optional(o, "supportsInvalidatedEvent"@) {
                                                            Err(e) => Err(e),
                                                            Ok(supports_invalidated_event) =>
                                                            match spec_get_bool_optional(o, "supportsMemoryEvent"@) {
                                                                Err(e) => Err(e),
                                                                Ok(supports_memory_event) =>
                                                                match spec_get_bool_optional(o, "supportsArgsCanBeInterpretedByShell"@) {
                                                                    Err(e) => Err(e),
                                                                    Ok(supports_args_can_be_interpreted_by_shell) =>
                                                                    Ok(
                                                                        InitializeArgumentsV {
                                                                            client_id,
                                                                            client_name,
                                                                            adapter_id,
                                                                            locale,
                                                                            lines_start_at_1,
                                                                            column_start_at_1,
                                                                            path_format,
                                                                            supports_variable_type,
                                                                            supports_variable_paging,
                                                                            supports_run_in_terminal_request,
                                                                            supports_memory_references,
                                                                            supports_progress_reporting,
                                                                            supports_invalidated_event,
                                                                            supports_memory_event,
                                                                            supports_args_can_be_interpreted_by_shell,
                                                                        },
                                                                    )
                                                                }
                                                            }
                                                        }
                                                    }
                                                }
                                            }
                                        }
                                    }
                                }
                            }
                        }
                    }
                }
            }
        }
    }
}

impl InitializeArguments {
    /// Encodes this value as a JSON object.
    #[verifier::rlimit(100)]
    pub fn into_json(self) -> (r: Json)
        ensures
            r.deep_view() == JsonV::Object(self.deep_view().enc()),
    {
        let mut o: JsonObject = Vec::new();
        proof {
            assert(entries_dv(o@) =~= Seq::<(Seq<char>, JsonV)>::empty());
        }
        attribute_string_optional(&mut o, "clientId", self.client_id);
        attribute_string_optional(&mut o, "clientName", self.client_name);
        attribute_string(&mut o, "adapterId", self.adapter_id);
        attribute_string_optional(&mut o, "locale", self.locale);
        attribute_bool_optional(&mut o, "linesStartAt1", self.lines_start_at_1);
        attribute_bool_optional(&mut o, "columnStartAt1", self.column_start_at_1);
        let w: Option<String> = match self.path_format {
            Some(v) => Some(v.to_wire()),
            None => None,
        };
        attribute_string_optional(&mut o, "pathFormat", w);
        attribute_bool_optional(&mut o, "supportsVariableType", self.supports_variable_type);
        attribute_bool_optional(&mut o, "supportsVariablePaging", self.supports_variable_paging);
        attribute_bool_optional(&mut o, "supportsRunInTerminalRequest", self.supports_run_in_terminal_request);
        attribute_bool_optional(&mut o, "supportsMemoryReferences", self.supports_memory_references);
        attribute_bool_optional(&mut o, "supportsProgressReporting", self.supports_progress_reporting);
        attribute_bool_optional(&mut o, "supportsInvalidatedEvent", self.supports_invalidated_event);
        attribute_bool_optional(&mut o, "supportsMemoryEvent", self.supports_memory_event);
        attribute_bool_optional(&mut o, "supportsArgsCanBeInterpretedByShell", self.supports_args_can_be_interpreted_by_shell);
        Json::Object(o)
    }

    /// Decodes a JSON object as this type.
    #[verifier::rlimit(100)]
    pub fn try_from(o: &JsonObject) -> (r: Result<InitializeArguments, Error>)
        ensures
            rdv(r) == InitializeArgumentsV::dec(entries_dv(o@)),
    {
        let client_id = get_string_optional(o, "clientId")?;
        let client_name = get_string_optional(o, "clientName")?;
        let adapter_id = get_string(o, "adapterId")?;
        let locale = get_string_optional(o, "locale")?;
        let lines_start_at_1 = get_bool_optional(o, "linesStartAt1")?;
        let column_start_at_1 = get_bool_optional(o, "columnStartAt1")?;
        let path_format = match get_string_optional(o, "pathFormat")? {
            Some(w) => Some(PathFormat::from_string(w)),
            None => None,
        };
        let supports_variable_type = get_bool_optional(o, "supportsVariableType")?;
        let supports_variable_paging = get_bool_optional(o, "supportsVariablePaging")?;
        let supports_run_in_terminal_request = get_bool_optional(o, "supportsRunInTerminalRequest")?;
        let supports_memory_references = get_bool_optional(o, "supportsMemoryReferences")?;
        let supports_progress_reporting = get_bool_optional(o, "supportsProgressReporting")?;
        let supports_invalidated_event = get_bool_optional(o, "supportsInvalidatedEvent")?;
        let supports_memory_event = get_bool_optional(o, "supportsMemoryEvent")?;
        let supports_args_can_be_interpreted_by_shell = get_bool_optional(o, "supportsArgsCanBeInterpretedByShell")?;
        Ok(
            InitializeArguments {
                client_id,
                client_name,
                adapter_id,
                locale,
                lines_start_at_1,
                column_start_at_1,
                path_format,
                supports_variable_type,
                supports_variable_paging,
                supports_run_in_terminal_request,
                supports_memory_references,
                supports_progress_reporting,
                supports_invalidated_event,
                supports_memory_event,
                supports_args_can_be_interpreted_by_shell,
            },
        )
    }
}


/// The answer to a `breakpointLocations` request.
#[derive(Debug, Clone, PartialEq, Eq)]
pub struct BreakpointLocationsResponse {
    pub breakpoints: Vec<BreakpointLocation>,
}

/// Model of a [`BreakpointLocationsResponse`].
pub struct BreakpointLocationsResponseV {
    pub breakpoints: Seq<BreakpointLocationV>,
}

impl DeepView for BreakpointLocationsResponse {
    type V = BreakpointLocationsResponseV;

    open spec fn deep_view(&self) -> BreakpointLocationsResponseV {
        BreakpointLocationsResponseV {
            breakpoints: self.breakpoints.deep_view(),
        }
    }
}

impl BreakpointLocationsResponseV {
    /// The encoded entries of this value.
    pub open spec fn enc(self) -> Seq<(Seq<char>, JsonV)> {
        let s = Seq::<(Seq<char>, JsonV)>::empty();
        let s = spec_attr_json(s, "breakpoints"@, JsonV::Array(breakpoint_location_enc_elems(self.breakpoints)));
        s
    }

    /// What decoding an object as this type yields; the wire protocol reads
    /// the list from the `body` attribute.
    pub open spec fn dec(o: Seq<(Seq<char>, JsonV)>) -> Result<BreakpointLocationsResponseV, ErrorV> {
        match spec_dec_obj_array(o, "body"@, breakpoint_location_elem("body"@)) {
            Err(e) => Err(e),
            Ok(breakpoints) =>
            Ok(
                BreakpointLocationsResponseV {
                    breakpoints,
                },
            )
        }
    }
}

impl BreakpointLocationsResponse {
    /// Encodes this value as a JSON object.
    pub fn into_json(self) -> (r: Json)
        ensures
            r.deep_view() == JsonV::Object(self.deep_view().enc()),
    {
        let mut o: JsonObject = Vec::new();
        proof {
            assert(entries_dv(o@) =~= Seq::<(Seq<char>, JsonV)>::empty());
        }
        let elems = breakpoint_locations_into_json(self.breakpoints);
        attribute(&mut o, "breakpoints", Json::Array(elems));
        Json::Object(o)
    }

    /// Decodes a JSON object as this type.
    pub fn try_from(o: &JsonObject) -> (r: Result<BreakpointLocationsResponse, Error>)
        ensures
            rdv(r) == BreakpointLocationsResponseV::dec(entries_dv(o@)),
    {
        let breakpoints = dec_breakpoint_locations_arr(o, "body")?;
        Ok(
            BreakpointLocationsResponse {
                breakpoints,
            },
        )
    }
}


/// The answer to a `scopes` request.
#[derive(Debug, PartialEq, Eq)]
pub struct ScopesResponse {
    pub scopes: Vec<Scope>,
}

/// Model of a [`ScopesResponse`].
pub struct ScopesResponseV {
    pub scopes: Seq<ScopeV>,
}

impl DeepView for ScopesResponse {
    type V = ScopesResponseV;

    open spec fn deep_view(&self) -> ScopesResponseV {
        ScopesResponseV {
            scopes: self.scopes.deep_view(),
        }
    }
}

impl ScopesResponseV {
    /// The encoded entries of this value.
    pub open spec fn enc(self) -> Seq<(Seq<char>, JsonV)> {
        let s = Seq::<(Seq<char>, JsonV)>::empty();
        let s = spec_attr_json(s, "scopes"@, JsonV::Array(scope_enc_elems(self.scopes)));
        s
    }

    /// What decoding an object as this type yields.
    pub open spec fn dec(o: Seq<(Seq<char>, JsonV)>) -> Result<ScopesResponseV, ErrorV> {
        match spec_dec_obj_array(o, "scopes"@, scope_elem("scopes"@)) {
            Err(e) => Err(e),
            Ok(scopes) =>
            Ok(
                ScopesResponseV {
                    scopes,
                },
            )
        }
    }
}

impl ScopesResponse {
    /// Encodes this value as a JSON object.
    pub fn into_json(self) -> (r: Json)
        ensures
            r.deep_view() == JsonV::Object(self.deep_view().enc()),
    {
        let mut o: JsonObject = Vec::new();
        proof {
            assert(entries_dv(o@) =~= Seq::<(Seq<char>, JsonV)>::empty());
        }
        let elems = scopes_into_json(self.scopes);
        attribute(&mut o, "scopes", Json::Array(elems));
        Json::Object(o)
    }

    /// Decodes a JSON object as this type.
    pub fn try_from(o: &JsonObject) -> (r: Result<ScopesResponse, Error>)
        ensures
            rdv(r) == ScopesResponseV::dec(entries_dv(o@)),
    {
        let scopes = dec_scopes_arr(o, "scopes")?;
        Ok(
            ScopesResponse {
                scopes,
            },
        )
    }
}


/// The answer to a `stackTrace` request.
#[derive(Debug, PartialEq, Eq)]
pub struct StackTraceResponse {
    pub stack_frames: Vec<StackFrame>,
    pub total_frames: Option<u64>,
}

/// Model of a [`StackTraceResponse`].
pub struct StackTraceResponseV {
    pub stack_frames: Seq<StackFrameV>,
    pub total_frames: Option<u64>,
}

impl DeepView for StackTraceResponse {
    type V = StackTraceResponseV;

    open spec fn deep_view(&self) -> StackTraceResponseV {
        StackTraceResponseV {
            stack_frames: self.stack_frames.deep_view(),
            total_frames: self.total_frames,
        }
    }
}

impl StackTraceResponseV {
    /// The encoded entries of this value.
    pub open spec fn enc(self) -> Seq<(Seq<char>, JsonV)> {
        let s = Seq::<(Seq<char>, JsonV)>::empty();
        let s = spec_attr_json(s, "stackFrames"@, JsonV::Array(stack_frame_enc_elems(self.stack_frames)));
        let s = spec_attr_u64_optional(s, "totalFrames"@, self.total_frames);
        s
    }

    /// What decoding an object as this type yields.
    pub open spec fn dec(o: Seq<(Seq<char>, JsonV)>) -> Result<StackTraceResponseV, ErrorV> {
        match spec_dec_obj_array(o, "stackFrames"@, stack_frame_elem("stackFrames"@)) {
            Err(e) => Err(e),
            Ok(stack_frames) =>
            match spec_get_u64_optional(o, "totalFrames"@) {
                Err(e) => Err(e),
                Ok(total_frames) =>
                Ok(
                    StackTraceResponseV {
                        stack_frames,
                        total_frames,
                    },
                )
            }
        }
    }
}

impl StackTraceResponse {
    /// Encodes this value as a JSON object.
    pub fn into_json(self) -> (r: Json)
        ensures
            r.deep_view() == JsonV::Object(self.deep_view().enc()),
    {
        let mut o: JsonObject = Vec::new();
        proof {
            assert(entries_dv(o@) =~= Seq::<(Seq<char>, JsonV)>::empty());
        }
        let elems = stack_frames_into_json(self.stack_frames);
        attribute(&mut o, "stackFrames", Json::Array(elems));
        attribute_u64_optional(&mut o, "totalFrames", self.total_frames);
        Json::Object(o)
    }

    /// Decodes a JSON object as this type.
    pub fn try_from(o: &JsonObject) -> (r: Result<StackTraceResponse, Error>)
        ensures
            rdv(r) == StackTraceResponseV::dec(entries_dv(o@)),
    {
        let stack_frames = dec_stack_frames_arr(o, "stackFrames")?;
        let total_frames = get_u64_optional(o, "totalFrames")?;
        Ok(
            StackTraceResponse {
                stack_frames,
                total_frames,
            },
        )
    }
}


/// The answer to a `threads` request.
#[derive(Debug, Clone, PartialEq, Eq)]
pub struct ThreadsResponse {
    pub threads: Vec<Thread>,
}

/// Model of a [`ThreadsResponse`].
pub struct ThreadsResponseV {
    pub threads: Seq<ThreadV>,
}

impl DeepView for ThreadsResponse {
    type V = ThreadsResponseV;

    open spec fn deep_view(&self) -> ThreadsResponseV {
        ThreadsResponseV {
            threads: self.threads.deep_view(),
        }
    }
}

impl ThreadsResponseV {
    /// The encoded entries of this value.
    pub open spec fn enc(self) -> Seq<(Seq<char>, JsonV)> {
        let s = Seq::<(Seq<char>, JsonV)>::empty();
        let s = spec_attr_json(s, "threads"@, JsonV::Array(thread_enc_elems(self.threads)));
        s
    }

    /// What decoding an object as this type yields.
    pub open spec fn dec(o: Seq<(Seq<char>, JsonV)>) -> Result<ThreadsResponseV, ErrorV> {
        match spec_dec_obj_array(o, "threads"@, thread_elem("threads"@)) {
            Err(e) => Err(e),
            Ok(threads) =>
            Ok(
                ThreadsResponseV {
                    threads,
                },
            )
        }
    }
}

impl ThreadsResponse {
    /// Encodes this value as a JSON object.
    pub fn into_json(self) -> (r: Json)
        ensures
            r.deep_view() == JsonV::Object(self.deep_view().enc()),
    {
        let mut o: JsonObject = Vec::new();
        proof {
            assert(entries_dv(o@) =~= Seq::<(Seq<char>, JsonV)>::empty());
        }
        let elems = threads_into_json(self.threads);
        attribute(&mut o, "threads", Json::Array(elems));
        Json::Object(o)
    }

    /// Decodes a JSON object as this type.
    pub fn try_from(o: &JsonObject) -> (r: Result<ThreadsResponse, Error>)
        ensures
            rdv(r) == ThreadsResponseV::dec(entries_dv(o@)),
    {
        let threads = dec_threads_arr(o, "threads")?;
        Ok(
            ThreadsResponse {
                threads,
            },
        )
    }
}


/// The answer to a `variables` request.
#[derive(Debug, PartialEq, Eq)]
pub struct VariablesResponse {
    pub variables: Vec<Variable>,
}

/// Model of a [`VariablesResponse`].
pub struct VariablesResponseV {
    pub variables: Seq<VariableV>,
}

impl DeepView for VariablesResponse {
    type V = VariablesResponseV;

    open spec fn deep_view(&self) -> VariablesResponseV {
        VariablesResponseV {
            variables: self.variables.deep_view(),
        }
    }
}

impl VariablesResponseV {
    /// The encoded entries of this value.
    pub open spec fn enc(self) -> Seq<(Seq<char>, JsonV)> {
        let s = Seq::<(Seq<char>, JsonV)>::empty();
        let s = spec_attr_json(s, "variables"@, JsonV::Array(variable_enc_elems(self.variables)));
        s
    }

    /// What decoding an object as this type yields.
    pub open spec fn dec(o: Seq<(Seq<char>, JsonV)>) -> Result<VariablesResponseV, ErrorV> {
        match spec_dec_obj_array(o, "variables"@, variable_elem("variables"@)) {
            Err(e) => Err(e),
            Ok(variables) =>
            Ok(
                VariablesResponseV {
                    variables,
                },
            )
        }
    }
}

impl VariablesResponse {
    /// Encodes this value as a JSON object.
    pub fn into_json(self) -> (r: Json)
        ensures
            r.deep_view() == JsonV::Object(self.deep_view().enc()),
    {
        let mut o: JsonObject = Vec::new();
        proof {
            assert(entries_dv(o@) =~= Seq::<(Seq<char>, JsonV)>::empty());
        }
        let elems = variables_into_json(self.variables);
        attribute(&mut o, "variables", Json::Array(elems));
        Json::Object(o)
    }

    /// Decodes a JSON object as this type.
    pub fn try_from(o: &JsonObject) -> (r: Result<VariablesResponse, Error>)
        ensures
            rdv(r) == VariablesResponseV::dec(entries_dv(o@)),
    {
        let variables = dec_variables_arr(o, "variables")?;
        Ok(
            VariablesResponse {
                variables,
            },
        )
    }
}

/// The details of a thrown exception, inner exceptions included.
#[derive(Debug, PartialEq, Eq)]
pub struct ExceptionDetails {
    pub message: Option<String>,
    pub ty_name: Option<String>,
    pub full_type_name: Option<String>,
    pub evaluate_name: Option<String>,
    pub stack_trace: Option<String>,
    pub inner_exception: Vec<ExceptionDetails>,
}

/// Model of an [`ExceptionDetails`].
pub struct ExceptionDetailsV {
    pub message: Option<Seq<char>>,
    pub ty_name: Option<Seq<char>>,
    pub full_type_name: Option<Seq<char>>,
    pub evaluate_name: Option<Seq<char>>,
    pub stack_trace: Option<Seq<char>>,
    pub inner_exception: Seq<ExceptionDetailsV>,
}

/// Model of a sequence of exception details.
pub open spec fn details_dv(s: Seq<ExceptionDetails>) -> Seq<ExceptionDetailsV>
    decreases s,
{
    if s.len() == 0 {
        Seq::empty()
    } else {
        seq![s[0].deep_view()] + details_dv(s.drop_first())
    }
}

impl DeepView for ExceptionDetails {
    type V = ExceptionDetailsV;

    open spec fn deep_view(&self) -> ExceptionDetailsV
        decreases self,
    {
        ExceptionDetailsV {
            message: self.message.deep_view(),
            ty_name: self.ty_name.deep_view(),
            full_type_name: self.full_type_name.deep_view(),
            evaluate_name: self.evaluate_name.deep_view(),
            stack_trace: self.stack_trace.deep_view(),
            inner_exception: details_dv(self.inner_exception@),
        }
    }
}

impl ExceptionDetailsV {
    /// The encoded entries of this value; the inner list is always written.
    pub open spec fn enc(self) -> Seq<(Seq<char>, JsonV)>
        decreases self,
    {
        let s = Seq::<(Seq<char>, JsonV)>::empty();
        let s = spec_attr_string_optional(s, "message"@, self.message);
        let s = spec_attr_string_optional(s, "typeName"@, self.ty_name);
        let s = spec_attr_string_optional(s, "fullTypeName"@, self.full_type_name);
        let s = spec_attr_string_optional(s, "evaluateName"@, self.evaluate_name);
        let s = spec_attr_string_optional(s, "stackTrace"@, self.stack_trace);
        let s = spec_attr_json(s, "innerException"@, JsonV::Array(Self::enc_seq(self.inner_exception)));
        s
    }

    /// The encoded elements of a sequence of exception details.
    pub open spec fn enc_seq(ds: Seq<ExceptionDetailsV>) -> Seq<JsonV>
        decreases ds,
    {
        if ds.len() == 0 {
            Seq::empty()
        } else {
            seq![JsonV::Object(ds[0].enc())] + Self::enc_seq(ds.drop_first())
        }
    }

    /// What decoding an object as this type yields.
    pub open spec fn dec(o: Seq<(Seq<char>, JsonV)>) -> Result<ExceptionDetailsV, ErrorV>
        decreases o, 2int,
    {
        match spec_get_string_optional(o, "message"@) {
            Err(e) => Err(e),
            Ok(message) => match spec_get_string_optional(o, "typeName"@) {
                Err(e) => Err(e),
                Ok(ty_name) => match spec_get_string_optional(o, "fullTypeName"@) {
                    Err(e) => Err(e),
                    Ok(full_type_name) => match spec_get_string_optional(o, "evaluateName"@) {
                        Err(e) => Err(e),
                        Ok(evaluate_name) => match spec_get_string_optional(o, "stackTrace"@) {
                            Err(e) => Err(e),
                            Ok(stack_trace) => match Self::dec_inner_attr(o) {
                                Err(e) => Err(e),
                                Ok(inner_exception) => Ok(
                                    ExceptionDetailsV {
                                        message,
                                        ty_name,
                                        full_type_name,
                                        evaluate_name,
                                        stack_trace,
                                        inner_exception,
                                    },
                                ),
                            },
                        },
                    },
                },
            },
        }
    }

    /// What decoding the `innerException` attribute yields; absent means
    /// empty.
    pub open spec fn dec_inner_attr(o: Seq<(Seq<char>, JsonV)>) -> Result<
        Seq<ExceptionDetailsV>,
        ErrorV,
    >
        decreases o, 1int,
        via Self::dec_inner_attr_decreases
    {
        match lookup(o, "innerException"@) {
            None => Ok(Seq::empty()),
            Some(JsonV::Array(a)) => Self::dec_elems(a),
            Some(_) => Err(errv("innerException"@, Cause::MustBeArray)),
        }
    }

    #[via_fn]
    proof fn dec_inner_attr_decreases(o: Seq<(Seq<char>, JsonV)>) {
        match lookup(o, "innerException"@) {
            Some(JsonV::Array(a)) => {
                crate::json::lemma_lookup_decreases(o, "innerException"@, JsonV::Array(a));
            },
            _ => (),
        }
    }

    /// What decoding an array of exception detail objects yields.
    pub open spec fn dec_elems(a: Seq<JsonV>) -> Result<Seq<ExceptionDetailsV>, ErrorV>
        decreases a, 0int,
    {
        if a.len() == 0 {
            Ok(Seq::empty())
        } else {
            match a[0] {
                JsonV::Object(e) => match Self::dec(e) {
                    Err(er) => Err(er),
                    Ok(d) => match Self::dec_elems(a.drop_first()) {
                        Err(er) => Err(er),
                        Ok(rest) => Ok(seq![d] + rest),
                    },
                },
                _ => Err(errv("innerException"@, Cause::MustBeObject)),
            }
        }
    }
}

/// Turns exception details into JSON array elements.
fn details_into_json(v: Vec<ExceptionDetails>) -> (r: Vec<Json>)
    ensures
        elems_dv(r@) == ExceptionDetailsV::enc_seq(details_dv(v@)),
    decreases v@,
{
    let ghost v0 = v@;
    let mut v = v;
    if v.len() == 0 {
        let out: Vec<Json> = Vec::new();
        proof {
            assert(details_dv(v0) =~= Seq::<ExceptionDetailsV>::empty());
            assert(elems_dv(out@) =~= ExceptionDetailsV::enc_seq(details_dv(v0)));
        }
        out
    } else {
        let h = v.remove(0);
        proof {
            assert(h == v0[0]);
            assert(v@ =~= v0.drop_first());
            assert(decreases_to!(v0 => v0[0]));
            assert(v0.drop_first() =~= v0.subrange(1, v0.len() as int));
            assert(decreases_to!(v0 => v0.subrange(1, v0.len() as int)));
        }
        let hj = h.into_json();
        let mut rest = details_into_json(v);
        let mut out: Vec<Json> = Vec::new();
        out.push(hj);
        out.append(&mut rest);
        proof {
            assert(details_dv(v0) == seq![v0[0].deep_view()] + details_dv(v0.drop_first()));
            assert(details_dv(v0).len() > 0);
            assert(details_dv(v0)[0] == v0[0].deep_view());
            assert(details_dv(v0).drop_first() =~= details_dv(v0.drop_first()));
            assert(ExceptionDetailsV::enc_seq(details_dv(v0)) == seq![
                JsonV::Object(details_dv(v0)[0].enc()),
            ] + ExceptionDetailsV::enc_seq(details_dv(v0).drop_first()));
            assert(elems_dv(out@) =~= ExceptionDetailsV::enc_seq(details_dv(v0)));
        }
        out
    }
}

impl ExceptionDetails {
    /// Encodes this value as a JSON object.
    pub fn into_json(self) -> (r: Json)
        ensures
            r.deep_view() == JsonV::Object(self.deep_view().enc()),
        decreases self,
    {
        let ghost sdv = self.deep_view();
        let ExceptionDetails {
            message,
            ty_name,
            full_type_name,
            evaluate_name,
            stack_trace,
            inner_exception,
        } = self;
        let mut o: JsonObject = Vec::new();
        proof {
            assert(entries_dv(o@) =~= Seq::<(Seq<char>, JsonV)>::empty());
        }
        attribute_string_optional(&mut o, "message", message);
        attribute_string_optional(&mut o, "typeName", ty_name);
        attribute_string_optional(&mut o, "fullTypeName", full_type_name);
        attribute_string_optional(&mut o, "evaluateName", evaluate_name);
        attribute_string_optional(&mut o, "stackTrace", stack_trace);
        let elems = details_into_json(inner_exception);
        attribute(&mut o, "innerException", Json::Array(elems));
        Json::Object(o)
    }

    /// Decodes the `innerException` attribute; absent means empty.
    fn dec_inner(o: &JsonObject) -> (r: Result<Vec<ExceptionDetails>, Error>)
        ensures
            match r {
                Ok(v) => ExceptionDetailsV::dec_inner_attr(entries_dv(o@)) == Ok::<_, ErrorV>(
                    details_dv(v@),
                ),
                Err(e) => ExceptionDetailsV::dec_inner_attr(entries_dv(o@)) == Err::<
                    Seq<ExceptionDetailsV>,
                    _,
                >(e.deep_view()),
            },
        decreases o@, 3int,
    {
        match crate::json::obj_find(o, "innerException") {
            None => {
                let v: Vec<ExceptionDetails> = Vec::new();
                proof {
                    assert(details_dv(v@) =~= Seq::<ExceptionDetailsV>::empty());
                }
                Ok(v)
            },
            Some(i) => {
                match &o[i].1 {
                    Json::Array(a) => {
                        proof {
                            assert(decreases_to!(o@ => o@[i as int]));
                            assert(decreases_to!(o@[i as int] => o@[i as int].1));
                            assert(decreases_to!(o@[i as int].1 => *a));
                            assert(decreases_to!(*a => a@));
                            assert(elems_dv(a@).skip(0) =~= elems_dv(a@));
                        }
                        Self::dec_detail_elems(a, 0)
                    },
                    _ => Err(Error::new("innerException", Cause::MustBeArray)),
                }
            },
        }
    }

    /// Decodes the elements of an `innerException` array from index `i` on.
    fn dec_detail_elems(a: &Vec<Json>, i: usize) -> (r: Result<Vec<ExceptionDetails>, Error>)
        requires
            i <= a@.len(),
        ensures
            match r {
                Ok(v) => ExceptionDetailsV::dec_elems(elems_dv(a@).skip(i as int)) == Ok::<
                    _,
                    ErrorV,
                >(details_dv(v@)),
                Err(e) => ExceptionDetailsV::dec_elems(elems_dv(a@).skip(i as int)) == Err::<
                    Seq<ExceptionDetailsV>,
                    _,
                >(e.deep_view()),
            },
        decreases a@, 2int, a@.len() - i,
    {
        let ghost rem = elems_dv(a@).skip(i as int);
        if i == a.len() {
            let v: Vec<ExceptionDetails> = Vec::new();
            proof {
                assert(rem =~= Seq::<JsonV>::empty());
                assert(details_dv(v@) =~= Seq::<ExceptionDetailsV>::empty());
            }
            Ok(v)
        } else {
            proof {
                assert(rem.len() == a@.len() - i);
                assert(rem[0] == elems_dv(a@)[i as int]);
                assert(elems_dv(a@)[i as int] == a@[i as int].deep_view());
                assert(rem.drop_first() =~= elems_dv(a@).skip(i + 1));
            }
            match &a[i] {
                Json::Object(e) => {
                    proof {
                        assert(decreases_to!(a@ => a@[i as int]));
                        assert(decreases_to!(a@[i as int] => *e));
                        assert(decreases_to!(*e => e@));
                    }
                    let d = match ExceptionDetails::try_from(e) {
                        Ok(d) => d,
                        Err(er) => {
                            return Err(er);
                        },
                    };
                    let mut rest = match Self::dec_detail_elems(a, i + 1) {
                        Ok(v) => v,
                        Err(er) => {
                            return Err(er);
                        },
                    };
                    let ghost restseq = rest@;
                    let mut out: Vec<ExceptionDetails> = Vec::new();
                    out.push(d);
                    out.append(&mut rest);
                    proof {
                        assert(out@[0] == d);
                        assert(out@.drop_first() =~= restseq);
                        assert(details_dv(out@) == seq![out@[0].deep_view()] + details_dv(
                            out@.drop_first(),
                        ));
                    }
                    Ok(out)
                },
                _ => Err(Error::new("innerException", Cause::MustBeObject)),
            }
        }
    }

    /// Decodes a JSON object as this type.
    pub fn try_from(o: &JsonObject) -> (r: Result<ExceptionDetails, Error>)
        ensures
            rdv(r) == ExceptionDetailsV::dec(entries_dv(o@)),
        decreases o@, 4int,
    {
        let message = get_string_optional(o, "message")?;
        let ty_name = get_string_optional(o, "typeName")?;
        let full_type_name = get_string_optional(o, "fullTypeName")?;
        let evaluate_name = get_string_optional(o, "evaluateName")?;
        let stack_trace = get_string_optional(o, "stackTrace")?;
        let inner_exception = Self::dec_inner(o)?;
        Ok(
            ExceptionDetails {
                message,
                ty_name,
                full_type_name,
                evaluate_name,
                stack_trace,
                inner_exception,
            },
        )
    }
}

/// The answer to an `exceptionInfo` request.
#[derive(Debug, PartialEq, Eq)]
pub struct ExceptionInfoResponse {
    pub exception_id: String,
    pub description: Option<String>,
    pub break_mode: ExceptionBreakMode,
    pub details: Option<ExceptionDetails>,
}

/// Model of an [`ExceptionInfoResponse`].
pub struct ExceptionInfoResponseV {
    pub exception_id: Seq<char>,
    pub description: Option<Seq<char>>,
    pub break_mode: ExceptionBreakMode,
    pub details: Option<ExceptionDetailsV>,
}

impl DeepView for ExceptionInfoResponse {
    type V = ExceptionInfoResponseV;

    open spec fn deep_view(&self) -> ExceptionInfoResponseV {
        ExceptionInfoResponseV {
            exception_id: self.exception_id@,
            description: self.description.deep_view(),
            break_mode: self.break_mode,
            details: self.details.deep_view(),
        }
    }
}

impl ExceptionInfoResponseV {
    /// The encoded entries of this value.
    pub open spec fn enc(self) -> Seq<(Seq<char>, JsonV)> {
        let s = Seq::<(Seq<char>, JsonV)>::empty();
        let s = spec_attr_string(s, "exceptionId"@, self.exception_id);
        let s = spec_attr_string_optional(s, "description"@, self.description);
        let s = spec_attr_string(s, "breakMode"@, self.break_mode.wire());
        let s = spec_attr_optional(
            s,
            "details"@,
            match self.details {
                Some(d) => Some(JsonV::Object(d.enc())),
                None => None,
            },
        );
        s
    }

    /// What decoding an object as this type yields.
    pub open spec fn dec(o: Seq<(Seq<char>, JsonV)>) -> Result<ExceptionInfoResponseV, ErrorV> {
        match spec_get_string(o, "exceptionId"@) {
            Err(e) => Err(e),
            Ok(exception_id) => match spec_get_string_optional(o, "description"@) {
                Err(e) => Err(e),
                Ok(description) => match spec_get_string(o, "breakMode"@) {
                    Err(e) => Err(e),
                    Ok(w) => match ExceptionBreakMode::spec_from(w) {
                        Err(e) => Err(e),
                        Ok(break_mode) => match spec_get_object_optional(o, "details"@) {
                            Err(e) => Err(e),
                            Ok(de) => {
                                let details = match de {
                                    Some(e) => match ExceptionDetailsV::dec(e) {
                                        Ok(d) => Ok(Some(d)),
                                        Err(er) => Err(er),
                                    },
                                    None => Ok(None),
                                };
                                match details {
                                    Err(e) => Err(e),
                                    Ok(details) => Ok(
                                        ExceptionInfoResponseV {
                                            exception_id,
                                            description,
                                            break_mode,
                                            details,
                                        },
                                    ),
                                }
                            },
                        },
                    },
                },
            },
        }
    }
}

impl ExceptionInfoResponse {
    /// Encodes this value as a JSON object.
    pub fn into_json(self) -> (r: Json)
        ensures
            r.deep_view() == JsonV::Object(self.deep_view().enc()),
    {
        let mut o: JsonObject = Vec::new();
        proof {
            assert(entries_dv(o@) =~= Seq::<(Seq<char>, JsonV)>::empty());
        }
        attribute_string(&mut o, "exceptionId", self.exception_id);
        attribute_string_optional(&mut o, "description", self.description);
        attribute_str(&mut o, "breakMode", self.break_mode.as_str());
        match self.details {
            Some(d) => attribute_optional(&mut o, "details", Some(d.into_json())),
            None => attribute_optional(&mut o, "details", None),
        }
        Json::Object(o)
    }

    /// Decodes a JSON object as this type.
    pub fn try_from(o: &JsonObject) -> (r: Result<ExceptionInfoResponse, Error>)
        ensures
            rdv(r) == ExceptionInfoResponseV::dec(entries_dv(o@)),
    {
        let exception_id = get_string(o, "exceptionId")?;
        let description = get_string_optional(o, "description")?;
        let w = get_str(o, "breakMode")?;
        let break_mode = ExceptionBreakMode::try_from(w)?;
        let details = match get_object_optional(o, "details")? {
            Some(e) => Some(ExceptionDetails::try_from(e)?),
            None => None,
        };
        Ok(ExceptionInfoResponse { exception_id, description, break_mode, details })
    }
}

} // verus!
