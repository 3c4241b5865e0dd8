//! Shared DAP entities and their codecs: sources, breakpoints,
//! capabilities, stack frames, scopes, variables, threads.
//!
//! Every entity has a mathematical model (its `...V` twin), a decoder pinned
//! to a specification decoder, and an encoder pinned to a specification
//! encoder. Optional fields elide on default: `false`, empty arrays, empty
//! maps and absent values never appear on the wire.

use vstd::prelude::*;

use crate::error::{Cause, Error, ErrorV};
use crate::json::{lookup, elems_dv, entries_dv, str_eq, Json, JsonV};
use crate::utils::{
    attribute, attribute_array_optional, attribute_bool_optional, attribute_map_optional,
    attribute_optional, attribute_str, attribute_string, attribute_string_optional,
    attribute_bool, attribute_i64_optional, attribute_u32_optional, attribute_u64,
    attribute_u64_optional, dec_seq, errv, get_bool, get_bool_optional, get_i64_optional,
    get_map_to_string_optional, get_object_optional, get_optional, get_str, get_str_optional,
    get_string, get_string_optional, get_u32_optional, get_u64, get_u64_optional,
    lemma_dec_seq_push, lemma_dec_seq_err_prefix, rdv, spec_attr_array_optional, spec_attr_bool,
    spec_attr_bool_optional, spec_attr_i64_optional, spec_attr_json, spec_attr_map_optional,
    spec_attr_optional, spec_attr_string, spec_attr_string_optional, spec_attr_u32_optional,
    spec_attr_u64, spec_attr_u64_optional, spec_get_array_optional, spec_get_bool,
    spec_get_bool_optional, spec_get_i64_optional, spec_get_map_to_string_optional,
    spec_get_object_optional, spec_get_optional, spec_get_string, spec_get_string_optional,
    spec_get_u32_optional, spec_get_u64, spec_get_u64_optional, spec_map_text_entry, text_entries,
    JsonObject,
};

verus! {

broadcast use
    vstd::std_specs::vec::group_vec_axioms,
    crate::json::group_json_dv,
    vstd::string::group_string_axioms,
;

/// A structured error message, the body of a failed response.
#[derive(Debug, PartialEq, Eq)]
pub struct Message {
    pub id: u64,
    pub format: String,
    pub variables: Option<Vec<(String, String)>>,
    pub send_telemetry: bool,
    pub show_user: bool,
    pub url: Option<String>,
    pub url_label: Option<String>,
}

/// Model of a [`Message`].
pub struct MessageV {
    pub id: u64,
    pub format: Seq<char>,
    pub variables: Option<Seq<(Seq<char>, Seq<char>)>>,
    pub send_telemetry: bool,
    pub show_user: bool,
    pub url: Option<Seq<char>>,
    pub url_label: Option<Seq<char>>,
}

impl DeepView for Message {
    type V = MessageV;

    open spec fn deep_view(&self) -> MessageV {
        MessageV {
            id: self.id,
            format: self.format@,
            variables: self.variables.deep_view(),
            send_telemetry: self.send_telemetry,
            show_user: self.show_user,
            url: self.url.deep_view(),
            url_label: self.url_label.deep_view(),
        }
    }
}

impl MessageV {
    /// The encoded entries of a message.
    pub open spec fn enc(self) -> Seq<(Seq<char>, JsonV)> {
        let s = Seq::<(Seq<char>, JsonV)>::empty();
        let s = spec_attr_u64(s, "id"@, self.id);
        let s = spec_attr_string(s, "format"@, self.format);
        let s = spec_attr_map_optional(s, "variables"@, self.variables);
        let s = spec_attr_bool_optional(s, "sendTelemetry"@, self.send_telemetry);
        let s = spec_attr_bool_optional(s, "showUser"@, self.show_user);
        let s = spec_attr_string_optional(s, "url"@, self.url);
        let s = spec_attr_string_optional(s, "urlLabel"@, self.url_label);
        s
    }

    /// What decoding an object as a message yields.
    pub open spec fn dec(o: Seq<(Seq<char>, JsonV)>) -> Result<MessageV, ErrorV> {
        match spec_get_u64(o, "id"@) {
            Err(e) => Err(e),
            Ok(id) => match spec_get_string(o, "format"@) {
                Err(e) => Err(e),
                Ok(format) => match spec_get_map_to_string_optional(o, "variables"@) {
                    Err(e) => Err(e),
                    Ok(variables) => match spec_get_bool_optional(o, "sendTelemetry"@) {
                        Err(e) => Err(e),
                        Ok(send_telemetry) => match spec_get_bool_optional(o, "showUser"@) {
                            Err(e) => Err(e),
                            Ok(show_user) => match spec_get_string_optional(o, "url"@) {
                                Err(e) => Err(e),
                                Ok(url) => match spec_get_string_optional(o, "urlLabel"@) {
                                    Err(e) => Err(e),
                                    Ok(url_label) => Ok(
                                        MessageV {
                                            id,
                                            format,
                                            variables,
                                            send_telemetry,
                                            show_user,
                                            url,
                                            url_label,
                                        },
                                    ),
                                },
                            },
                        },
                    },
                },
            },
        }
    }

    /// A message that encodes and decodes to itself: a present variables map
    /// is non-empty (an empty one would elide and decode as absent).
    pub open spec fn wf(self) -> bool {
        match self.variables {
            Some(m) => m.len() > 0,
            None => true,
        }
    }
}

impl Message {
    /// Encodes this message as a JSON object.
    pub fn into_json(self) -> (r: Json)
        ensures
            r.deep_view() == JsonV::Object(self.deep_view().enc()),
    {
        let mut o: JsonObject = Vec::new();
        proof {
            assert(entries_dv(o@) =~= Seq::<(Seq<char>, JsonV)>::empty());
        }
        attribute_u64(&mut o, "id", self.id);
        attribute_string(&mut o, "format", self.format);
        attribute_map_optional(&mut o, "variables", self.variables);
        attribute_bool_optional(&mut o, "sendTelemetry", self.send_telemetry);
        attribute_bool_optional(&mut o, "showUser", self.show_user);
        attribute_string_optional(&mut o, "url", self.url);
        attribute_string_optional(&mut o, "urlLabel", self.url_label);
        Json::Object(o)
    }

    /// Decodes a JSON object as a message.
    pub fn try_from(o: &JsonObject) -> (r: Result<Message, Error>)
        ensures
            rdv(r) == MessageV::dec(entries_dv(o@)),
    {
        let id = get_u64(o, "id")?;
        let format = get_string(o, "format")?;
        let variables = get_map_to_string_optional(o, "variables")?;
        let send_telemetry = get_bool_optional(o, "sendTelemetry")?;
        let show_user = get_bool_optional(o, "showUser")?;
        let url = get_string_optional(o, "url")?;
        let url_label = get_string_optional(o, "urlLabel")?;
        Ok(Message { id, format, variables, send_telemetry, show_user, url, url_label })
    }
}

impl Clone for Message {
    /// A clone is the same message.
    fn clone(&self) -> (r: Message)
        ensures
            r.deep_view() == self.deep_view(),
    {
        let variables: Option<Vec<(String, String)>> = match &self.variables {
            Some(v) => {
                let mut out: Vec<(String, String)> = Vec::new();
                let mut i: usize = 0;
                while i < v.len()
                    invariant
                        i <= v.len(),
                        out@.len() == i,
                        forall|j: int| #![trigger out@[j]] 0 <= j < i ==> out@[j].0@ == v@[j].0@
                            && out@[j].1@ == v@[j].1@,
                    decreases v.len() - i,
                {
                    out.push((v[i].0.clone(), v[i].1.clone()));
                    i += 1;
                }
                proof {
                    assert(out.deep_view() =~= v.deep_view());
                }
                Some(out)
            },
            None => None,
        };
        Message {
            id: self.id,
            format: self.format.clone(),
            variables,
            send_telemetry: self.send_telemetry,
            show_user: self.show_user,
            url: match &self.url {
                Some(u) => Some(u.clone()),
                None => None,
            },
            url_label: match &self.url_label {
                Some(u) => Some(u.clone()),
                None => None,
            },
        }
    }
}

/// Decoding an encoded message gives the message back.
pub proof fn lemma_message_roundtrip(m: MessageV)
    requires
        m.wf(),
    ensures
        MessageV::dec(m.enc()) == Ok::<MessageV, ErrorV>(m),
{
    broadcast use crate::utils::group_lookup_attrs;

    reveal_strlit("id");
    reveal_strlit("format");
    reveal_strlit("variables");
    reveal_strlit("sendTelemetry");
    reveal_strlit("showUser");
    reveal_strlit("url");
    reveal_strlit("urlLabel");
    assert("id"@.len() == 2);
    assert("format"@.len() == 6);
    assert("variables"@.len() == 9);
    assert("sendTelemetry"@.len() == 13);
    assert("showUser"@.len() == 8);
    assert("url"@.len() == 3);
    assert("urlLabel"@.len() == 8);
    assert("showUser"@[0] != "urlLabel"@[0]);
    let o = m.enc();
    assert(lookup(o, "id"@) == Some(JsonV::U64(m.id)));
    assert(lookup(o, "format"@) == Some(JsonV::Text(m.format)));
    match m.variables {
        Some(vs) => {
            assert(lookup(o, "variables"@) == Some(JsonV::Object(text_entries(vs))));
            assert(dec_seq(text_entries(vs), spec_map_text_entry("variables"@)) == Ok::<
                _,
                ErrorV,
            >(vs)) by {
                lemma_dec_text_entries(vs);
            }
        },
        None => {
            assert(lookup(o, "variables"@) is None);
        },
    }
    assert(spec_get_map_to_string_optional(o, "variables"@) == Ok::<_, ErrorV>(m.variables));
    assert(lookup(o, "sendTelemetry"@) == if m.send_telemetry {
        Some(JsonV::Bool(true))
    } else {
        Option::<JsonV>::None
    });
    assert(lookup(o, "showUser"@) == if m.show_user {
        Some(JsonV::Bool(true))
    } else {
        Option::<JsonV>::None
    });
    assert(lookup(o, "url"@) == match m.url {
        Some(u) => Some(JsonV::Text(u)),
        None => None,
    });
    assert(lookup(o, "urlLabel"@) == match m.url_label {
        Some(u) => Some(JsonV::Text(u)),
        None => None,
    });
}

/// The checksum algorithms DAP knows: a closed set; an unknown string is a
/// decode error.
#[derive(Debug, Clone, Copy, PartialEq, Eq, Hash)]
pub enum ChecksumAlgorithm {
    Md5,
    Sha1,
    Sha256,
    Timestamp,
}

impl DeepView for ChecksumAlgorithm {
    type V = ChecksumAlgorithm;

    open spec fn deep_view(&self) -> ChecksumAlgorithm {
        *self
    }
}

impl ChecksumAlgorithm {
    /// The wire name of each algorithm.
    pub open spec fn wire(self) -> Seq<char> {
        match self {
            ChecksumAlgorithm::Md5 => "MD5"@,
            ChecksumAlgorithm::Sha1 => "SHA1"@,
            ChecksumAlgorithm::Sha256 => "SHA256"@,
            ChecksumAlgorithm::Timestamp => "timestamp"@,
        }
    }

    /// What decoding a wire name yields.
    pub open spec fn spec_from(s: Seq<char>) -> Result<ChecksumAlgorithm, ErrorV> {
        if s == "MD5"@ {
            Ok(ChecksumAlgorithm::Md5)
        } else if s == "SHA1"@ {
            Ok(ChecksumAlgorithm::Sha1)
        } else if s == "SHA256"@ {
            Ok(ChecksumAlgorithm::Sha256)
        } else if s == "timestamp"@ {
            Ok(ChecksumAlgorithm::Timestamp)
        } else {
            Err(errv("checksumAlgorithm"@, Cause::ExpectsEnum))
        }
    }

    /// The wire name of this algorithm.
    pub fn as_str(&self) -> (r: &'static str)
        ensures
            r@ == self.wire(),
    {
        match self {
            ChecksumAlgorithm::Md5 => "MD5",
            ChecksumAlgorithm::Sha1 => "SHA1",
            ChecksumAlgorithm::Sha256 => "SHA256",
            ChecksumAlgorithm::Timestamp => "timestamp",
        }
    }

    /// Decodes a wire name.
    pub fn try_from(s: &str) -> (r: Result<ChecksumAlgorithm, Error>)
        ensures
            rdv(r) == ChecksumAlgorithm::spec_from(s@),
    {
        if str_eq(s, "MD5") {
            Ok(ChecksumAlgorithm::Md5)
        } else if str_eq(s, "SHA1") {
            Ok(ChecksumAlgorithm::Sha1)
        } else if str_eq(s, "SHA256") {
            Ok(ChecksumAlgorithm::Sha256)
        } else if str_eq(s, "timestamp") {
            Ok(ChecksumAlgorithm::Timestamp)
        } else {
            Err(Error::new("checksumAlgorithm", Cause::ExpectsEnum))
        }
    }

    /// A wire name decodes to the algorithm it names.
    pub proof fn lemma_roundtrip(self)
        ensures
            ChecksumAlgorithm::spec_from(self.wire()) == Ok::<ChecksumAlgorithm, ErrorV>(self),
    {
        reveal_strlit("MD5");
        reveal_strlit("SHA1");
        reveal_strlit("SHA256");
        reveal_strlit("timestamp");
        assert("MD5"@.len() == 3);
        assert("SHA1"@.len() == 4);
        assert("SHA256"@.len() == 6);
        assert("timestamp"@.len() == 9);
    }
}

/// A checksum of a source file: the algorithm and its value.
#[derive(Debug, Clone, PartialEq, Eq, Hash)]
pub struct Checksum {
    pub algorithm: ChecksumAlgorithm,
    pub checksum: String,
}

/// Model of a [`Checksum`].
pub struct ChecksumV {
    pub algorithm: ChecksumAlgorithm,
    pub checksum: Seq<char>,
}

impl DeepView for Checksum {
    type V = ChecksumV;

    open spec fn deep_view(&self) -> ChecksumV {
        ChecksumV { algorithm: self.algorithm, checksum: self.checksum@ }
    }
}

impl ChecksumV {
    /// The encoded entries of a checksum.
    pub open spec fn enc(self) -> Seq<(Seq<char>, JsonV)> {
        let s = Seq::<(Seq<char>, JsonV)>::empty();
        let s = spec_attr_string(s, "algorithm"@, self.algorithm.wire());
        let s = spec_attr_string(s, "checksum"@, self.checksum);
        s
    }

    /// What decoding an object as a checksum yields.
    pub open spec fn dec(o: Seq<(Seq<char>, JsonV)>) -> Result<ChecksumV, ErrorV> {
        match spec_get_string(o, "algorithm"@) {
            Err(e) => Err(e),
            Ok(a) => match ChecksumAlgorithm::spec_from(a) {
                Err(e) => Err(e),
                Ok(algorithm) => match spec_get_string(o, "checksum"@) {
                    Err(e) => Err(e),
                    Ok(checksum) => Ok(ChecksumV { algorithm, checksum }),
                },
            },
        }
    }
}

impl Checksum {
    /// Encodes this checksum as a JSON object.
    pub fn into_json(self) -> (r: Json)
        ensures
            r.deep_view() == JsonV::Object(self.deep_view().enc()),
    {
        let mut o: JsonObject = Vec::new();
        proof {
            assert(entries_dv(o@) =~= Seq::<(Seq<char>, JsonV)>::empty());
        }
        attribute_str(&mut o, "algorithm", self.algorithm.as_str());
        attribute_string(&mut o, "checksum", self.checksum);
        Json::Object(o)
    }

    /// Decodes a JSON object as a checksum.
    pub fn try_from(o: &JsonObject) -> (r: Result<Checksum, Error>)
        ensures
            rdv(r) == ChecksumV::dec(entries_dv(o@)),
    {
        let a = get_str(o, "algorithm")?;
        let algorithm = ChecksumAlgorithm::try_from(a)?;
        let checksum = get_string(o, "checksum")?;
        Ok(Checksum { algorithm, checksum })
    }
}

/// A checksum's encoding decodes to the checksum.
pub proof fn lemma_checksum_roundtrip(c: ChecksumV)
    ensures
        ChecksumV::dec(c.enc()) == Ok::<ChecksumV, ErrorV>(c),
{
    broadcast use crate::utils::group_lookup_attrs;

    reveal_strlit("algorithm");
    reveal_strlit("checksum");
    assert("algorithm"@.len() == 9);
    assert("checksum"@.len() == 8);
    c.algorithm.lemma_roundtrip();
    assert(lookup(c.enc(), "algorithm"@) == Some(JsonV::Text(c.algorithm.wire())));
    assert(lookup(c.enc(), "checksum"@) == Some(JsonV::Text(c.checksum)));
}

/// Where a source lives: a path on disk, or a reference handle the adapter
/// issued. The two forms are mutually exclusive on the wire.
#[derive(Debug, Clone, PartialEq, Eq, Hash)]
pub enum SourceReference {
    Path(String),
    Reference(u32),
}

/// Model of a [`SourceReference`].
pub enum SourceReferenceV {
    Path(Seq<char>),
    Reference(u32),
}

impl DeepView for SourceReference {
    type V = SourceReferenceV;

    open spec fn deep_view(&self) -> SourceReferenceV {
        match self {
            SourceReference::Path(p) => SourceReferenceV::Path(p@),
            SourceReference::Reference(n) => SourceReferenceV::Reference(*n),
        }
    }
}

/// How a client should render a source.
#[derive(Debug, Clone, Copy, PartialEq, Eq, Hash)]
pub enum SourcePresentationHint {
    Normal,
    Emphasize,
    Deemphasize,
}

impl DeepView for SourcePresentationHint {
    type V = SourcePresentationHint;

    open spec fn deep_view(&self) -> SourcePresentationHint {
        *self
    }
}

impl SourcePresentationHint {
    /// The wire name of each hint.
    pub open spec fn wire(self) -> Seq<char> {
        match self {
            SourcePresentationHint::Normal => "normal"@,
            SourcePresentationHint::Emphasize => "emphasize"@,
            SourcePresentationHint::Deemphasize => "deemphasize"@,
        }
    }

    /// What decoding a wire name yields.
    pub open spec fn spec_from(s: Seq<char>) -> Result<SourcePresentationHint, ErrorV> {
        if s == "normal"@ {
            Ok(SourcePresentationHint::Normal)
        } else if s == "emphasize"@ {
            Ok(SourcePresentationHint::Emphasize)
        } else if s == "deemphasize"@ {
            Ok(SourcePresentationHint::Deemphasize)
        } else {
            Err(errv("sourcePresentationHint"@, Cause::ExpectsEnum))
        }
    }

    /// The wire name of this hint.
    pub fn as_str(&self) -> (r: &'static str)
        ensures
            r@ == self.wire(),
    {
        match self {
            SourcePresentationHint::Normal => "normal",
            SourcePresentationHint::Emphasize => "emphasize",
            SourcePresentationHint::Deemphasize => "deemphasize",
        }
    }

    /// Decodes a wire name.
    pub fn try_from(s: &str) -> (r: Result<SourcePresentationHint, Error>)
        ensures
            rdv(r) == SourcePresentationHint::spec_from(s@),
    {
        if str_eq(s, "normal") {
            Ok(SourcePresentationHint::Normal)
        } else if str_eq(s, "emphasize") {
            Ok(SourcePresentationHint::Emphasize)
        } else if str_eq(s, "deemphasize") {
            Ok(SourcePresentationHint::Deemphasize)
        } else {
            Err(Error::new("sourcePresentationHint", Cause::ExpectsEnum))
        }
    }

    /// A wire name decodes to the hint it names.
    pub proof fn lemma_roundtrip(self)
        ensures
            SourcePresentationHint::spec_from(self.wire()) == Ok::<
                SourcePresentationHint,
                ErrorV,
            >(self),
    {
        reveal_strlit("normal");
        reveal_strlit("emphasize");
        reveal_strlit("deemphasize");
        assert("normal"@.len() == 6);
        assert("emphasize"@.len() == 9);
        assert("deemphasize"@.len() == 11);
    }
}

/// A source file or generated code the debugger can show.
#[derive(Debug, PartialEq, Eq)]
pub struct Source {
    pub name: Option<String>,
    pub source_reference: Option<SourceReference>,
    pub presentation_hint: Option<SourcePresentationHint>,
    pub origin: Option<String>,
    pub sources: Vec<Source>,
    pub adapter_data: Option<Json>,
    pub checksums: Vec<Checksum>,
}

/// Model of a [`Source`].
pub struct SourceV {
    pub name: Option<Seq<char>>,
    pub source_reference: Option<SourceReferenceV>,
    pub presentation_hint: Option<SourcePresentationHint>,
    pub origin: Option<Seq<char>>,
    pub sources: Seq<SourceV>,
    pub adapter_data: Option<JsonV>,
    pub checksums: Seq<ChecksumV>,
}

/// Model of a sequence of sources.
pub open spec fn sources_dv(s: Seq<Source>) -> Seq<SourceV>
    decreases s,
{
    if s.len() == 0 {
        Seq::empty()
    } else {
        seq![s[0].deep_view()] + sources_dv(s.drop_first())
    }
}

impl DeepView for Source {
    type V = SourceV;

    open spec fn deep_view(&self) -> SourceV
        decreases self,
    {
        SourceV {
            name: self.name.deep_view(),
            source_reference: self.source_reference.deep_view(),
            presentation_hint: self.presentation_hint.deep_view(),
            origin: self.origin.deep_view(),
            sources: sources_dv(self.sources@),
            adapter_data: self.adapter_data.deep_view(),
            checksums: self.checksums.deep_view(),
        }
    }
}

/// A source sequence's model has one model per source.
pub broadcast proof fn lemma_sources_dv_len(s: Seq<Source>)
    ensures
        (#[trigger] sources_dv(s)).len() == s.len(),
    decreases s.len(),
{
    if s.len() > 0 {
        lemma_sources_dv_len(s.drop_first());
        assert(sources_dv(s) == seq![s[0].deep_view()] + sources_dv(s.drop_first()));
    } else {
        assert(sources_dv(s) =~= Seq::<SourceV>::empty());
    }
}

/// A source sequence's model is the source-wise model.
pub broadcast proof fn lemma_sources_dv_index(s: Seq<Source>, i: int)
    requires
        0 <= i < s.len(),
    ensures
        #[trigger] sources_dv(s)[i] == s[i].deep_view(),
    decreases s.len(),
{
    lemma_sources_dv_len(s.drop_first());
    assert(sources_dv(s) == seq![s[0].deep_view()] + sources_dv(s.drop_first()));
    if i > 0 {
        lemma_sources_dv_index(s.drop_first(), i - 1);
        assert(sources_dv(s)[i] == sources_dv(s.drop_first())[i - 1]);
        assert(s.drop_first()[i - 1] == s[i]);
    }
}

impl SourceV {
    /// The encoded entries of a source. The path and reference forms are
    /// split over the `path` and `sourceReference` attributes, and a zero
    /// reference is elided entirely.
    pub open spec fn enc(self) -> Seq<(Seq<char>, JsonV)>
        decreases self,
    {
        let path = match self.source_reference {
            Some(SourceReferenceV::Path(p)) => Some(p),
            _ => None,
        };
        let reference = match self.source_reference {
            Some(SourceReferenceV::Reference(n)) => if n > 0 {
                Some(n)
            } else {
                None
            },
            _ => None,
        };
        let s = Seq::<(Seq<char>, JsonV)>::empty();
        let s = spec_attr_string_optional(s, "name"@, self.name);
        let s = spec_attr_string_optional(s, "path"@, path);
        let s = spec_attr_u32_optional(s, "sourceReference"@, reference);
        let s = spec_attr_string_optional(
            s,
            "presentationHint"@,
            match self.presentation_hint {
                Some(h) => Some(h.wire()),
                None => None,
            },
        );
        let s = spec_attr_string_optional(s, "origin"@, self.origin);
        let s = spec_attr_array_optional(s, "sources"@, Self::enc_seq(self.sources));
        let s = spec_attr_optional(s, "adapterData"@, self.adapter_data);
        let s = spec_attr_array_optional(s, "checksums"@, checksum_enc_elems(self.checksums));
        s
    }

    /// The encoded elements of a sequence of sources.
    pub open spec fn enc_seq(ss: Seq<SourceV>) -> Seq<JsonV>
        decreases ss,
    {
        if ss.len() == 0 {
            Seq::empty()
        } else {
            seq![JsonV::Object(ss[0].enc())] + Self::enc_seq(ss.drop_first())
        }
    }

    /// What decoding an object as a source yields: a non-zero
    /// `sourceReference` wins over a `path`; both absent leave no reference.
    pub open spec fn dec(o: Seq<(Seq<char>, JsonV)>) -> Result<SourceV, ErrorV>
        decreases o, 2int,
    {
        match spec_get_string_optional(o, "name"@) {
            Err(e) => Err(e),
            Ok(name) => match spec_get_string_optional(o, "path"@) {
                Err(e) => Err(e),
                Ok(path) => match spec_get_u32_optional(o, "sourceReference"@) {
                    Err(e) => Err(e),
                    Ok(reference) => {
                        let source_reference = match reference {
                            Some(n) => if n > 0 {
                                Some(SourceReferenceV::Reference(n))
                            } else {
                                match path {
                                    Some(p) => Some(SourceReferenceV::Path(p)),
                                    None => None,
                                }
                            },
                            None => match path {
                                Some(p) => Some(SourceReferenceV::Path(p)),
                                None => None,
                            },
                        };
                        match spec_get_string_optional(o, "presentationHint"@) {
                            Err(e) => Err(e),
                            Ok(hint) => {
                                let presentation_hint = match hint {
                                    Some(h) => Some(SourcePresentationHint::spec_from(h)),
                                    None => None,
                                };
                                match presentation_hint {
                                    Some(Err(e)) => Err(e),
                                    _ => {
                                        let presentation_hint = match presentation_hint {
                                            Some(Ok(h)) => Some(h),
                                            _ => None,
                                        };
                                        match spec_get_string_optional(o, "origin"@) {
                                            Err(e) => Err(e),
                                            Ok(origin) => match Self::dec_sources_attr(o) {
                                                Err(e) => Err(e),
                                                Ok(sources) => {
                                                    let adapter_data = lookup(o, "adapterData"@);
                                                    match Self::dec_checksums_attr(o) {
                                                        Err(e) => Err(e),
                                                        Ok(checksums) => Ok(
                                                            SourceV {
                                                                name,
                                                                source_reference,
                                                                presentation_hint,
                                                                origin,
                                                                sources,
                                                                adapter_data,
                                                                checksums,
                                                            },
                                                        ),
                                                    }
                                                },
                                            },
                                        }
                                    },
                                }
                            },
                        }
                    },
                },
            },
        }
    }

    /// What decoding the `sources` attribute yields: absent means empty.
    pub open spec fn dec_sources_attr(o: Seq<(Seq<char>, JsonV)>) -> Result<Seq<SourceV>, ErrorV>
        decreases o, 1int,
        via Self::dec_sources_attr_decreases
    {
        match lookup(o, "sources"@) {
            None => Ok(Seq::empty()),
            Some(JsonV::Array(a)) => Self::dec_elems(a),
            Some(_) => Err(errv("sources"@, Cause::MustBeArray)),
        }
    }

    #[via_fn]
    proof fn dec_sources_attr_decreases(o: Seq<(Seq<char>, JsonV)>) {
        match lookup(o, "sources"@) {
            Some(JsonV::Array(a)) => {
                crate::json::lemma_lookup_decreases(o, "sources"@, JsonV::Array(a));
            },
            _ => (),
        }
    }

    /// What decoding an array of source objects yields.
    pub open spec fn dec_elems(a: Seq<JsonV>) -> Result<Seq<SourceV>, ErrorV>
        decreases a, 0int,
    {
        if a.len() == 0 {
            Ok(Seq::empty())
        } else {
            match a[0] {
                JsonV::Object(e) => match Self::dec(e) {
                    Err(er) => Err(er),
                    Ok(s) => match Self::dec_elems(a.drop_first()) {
                        Err(er) => Err(er),
                        Ok(rest) => Ok(seq![s] + rest),
                    },
                },
                _ => Err(errv("sources"@, Cause::MustBeObject)),
            }
        }
    }

    /// What decoding the `checksums` attribute yields: absent means empty.
    pub open spec fn dec_checksums_attr(o: Seq<(Seq<char>, JsonV)>) -> Result<
        Seq<ChecksumV>,
        ErrorV,
    > {
        match lookup(o, "checksums"@) {
            None => Ok(Seq::empty()),
            Some(JsonV::Array(a)) => dec_seq(a, checksum_elem()),
            Some(_) => Err(errv("checksums"@, Cause::MustBeArray)),
        }
    }

    /// A source whose encoding decodes to itself: no zero reference, no
    /// explicit `null` adapter data, and every nested source likewise.
    pub open spec fn wf(self) -> bool
        decreases self,
    {
        &&& self.source_reference != Some(SourceReferenceV::Reference(0))
        &&& self.adapter_data != Some(JsonV::Null)
        &&& forall|i: int| 0 <= i < self.sources.len() ==> (#[trigger] self.sources[i]).wf()
    }
}

/// The model of a checksum sequence as JSON array elements.
pub open spec fn checksum_enc_elems(cs: Seq<ChecksumV>) -> Seq<JsonV> {
    cs.map_values(|c: ChecksumV| JsonV::Object(c.enc()))
}

/// Model of the element decoder for arrays of checksums.
pub open spec fn checksum_elem() -> spec_fn(JsonV) -> Result<ChecksumV, ErrorV> {
    |v: JsonV|
        match v {
            JsonV::Object(e) => ChecksumV::dec(e),
            _ => Err(errv("checksums"@, Cause::MustBeObject)),
        }
}

/// The source model facts, usable as one.
pub broadcast group group_source_dv {
    lemma_sources_dv_len,
    lemma_sources_dv_index,
    lemma_enc_seq_len,
}

/// An encoded source sequence has one element per source.
pub broadcast proof fn lemma_enc_seq_len(ss: Seq<SourceV>)
    ensures
        (#[trigger] SourceV::enc_seq(ss)).len() == ss.len(),
    decreases ss.len(),
{
    if ss.len() == 0 {
        assert(SourceV::enc_seq(ss) =~= Seq::<JsonV>::empty());
    } else {
        lemma_enc_seq_len(ss.drop_first());
        assert(SourceV::enc_seq(ss) == seq![JsonV::Object(ss[0].enc())] + SourceV::enc_seq(
            ss.drop_first(),
        ));
    }
}

/// Turns checksums into JSON array elements.
fn checksums_into_json(v: Vec<Checksum>) -> (r: Vec<Json>)
    ensures
        elems_dv(r@) == checksum_enc_elems(v.deep_view()),
{
    let ghost vdv = v.deep_view();
    let mut out: Vec<Json> = Vec::new();
    let mut i: usize = 0;
    let n = v.len();
    let mut v = v;
    proof {
        assert(v.deep_view() =~= vdv);
        assert(elems_dv(out@) =~= checksum_enc_elems(vdv).take(0));
    }
    while i < n
        invariant
            i <= n,
            n == vdv.len(),
            v@.len() == n - i,
            forall|j: int| #![trigger v@[j]] 0 <= j < v@.len() ==> v@[j].deep_view() == vdv[i + j],
            elems_dv(out@) =~= checksum_enc_elems(vdv).take(i as int),
        decreases n - i,
    {
        let c = v.remove(0);
        let j = c.into_json();
        out.push(j);
        i += 1;
        proof {
            assert(elems_dv(out@) =~= checksum_enc_elems(vdv).take(i as int));
        }
    }
    proof {
        assert(checksum_enc_elems(vdv).take(n as int) =~= checksum_enc_elems(vdv));
    }
    out
}

/// Turns sources into JSON array elements.
pub(crate) fn sources_into_json(v: Vec<Source>) -> (r: Vec<Json>)
    ensures
        elems_dv(r@) == SourceV::enc_seq(sources_dv(v@)),
    decreases v@,
{
    broadcast use group_source_dv;

    let ghost v0 = v@;
    let mut v = v;
    if v.len() == 0 {
        let out: Vec<Json> = Vec::new();
        proof {
            assert(sources_dv(v0) =~= Seq::<SourceV>::empty());
            assert(elems_dv(out@) =~= SourceV::enc_seq(sources_dv(v0)));
        }
        out
    } else {
        let h = v.remove(0);
        proof {
            assert(h == v0[0]);
            assert(v@ =~= v0.drop_first());
            assert(decreases_to!(v0 => v0[0]));
            assert(v0.drop_first() =~= v0.subrange(1, v0.len() as int));
            assert(decreases_to!(v0 => v0.subrange(1, v0.len() as int)));
        }
        let hj = h.into_json();
        let mut rest = sources_into_json(v);
        let mut out: Vec<Json> = Vec::new();
        out.push(hj);
        out.append(&mut rest);
        let rest = out;
        proof {
            assert(sources_dv(v0) == seq![v0[0].deep_view()] + sources_dv(v0.drop_first()));
            assert(sources_dv(v0).len() > 0);
            assert(sources_dv(v0)[0] == v0[0].deep_view());
            assert(sources_dv(v0).drop_first() =~= sources_dv(v0.drop_first()));
            assert(SourceV::enc_seq(sources_dv(v0)) == seq![
                JsonV::Object(sources_dv(v0)[0].enc()),
            ] + SourceV::enc_seq(sources_dv(v0).drop_first()));
            assert(elems_dv(rest@) =~= SourceV::enc_seq(sources_dv(v0)));
        }
        rest
    }
}

impl Source {
    /// Encodes this source as a JSON object.
    pub fn into_json(self) -> (r: Json)
        ensures
            r.deep_view() == JsonV::Object(self.deep_view().enc()),
        decreases self,
    {
        let ghost sdv = self.deep_view();
        let Source {
            name,
            source_reference,
            presentation_hint,
            origin,
            sources,
            adapter_data,
            checksums,
        } = self;
        let path: Option<String>;
        let reference: Option<u32>;
        match source_reference {
            Some(SourceReference::Path(p)) => {
                path = Some(p);
                reference = None;
            },
            Some(SourceReference::Reference(n)) => {
                path = None;
                reference = if n > 0 {
                    Some(n)
                } else {
                    None
                };
            },
            None => {
                path = None;
                reference = None;
            },
        }
        let hint: Option<String> = match presentation_hint {
            Some(h) => Some(h.as_str().to_owned()),
            None => None,
        };
        let mut o: JsonObject = Vec::new();
        proof {
            assert(entries_dv(o@) =~= Seq::<(Seq<char>, JsonV)>::empty());
        }
        attribute_string_optional(&mut o, "name", name);
        attribute_string_optional(&mut o, "path", path);
        attribute_u32_optional(&mut o, "sourceReference", reference);
        attribute_string_optional(&mut o, "presentationHint", hint);
        attribute_string_optional(&mut o, "origin", origin);
        let src_elems = sources_into_json(sources);
        attribute_array_optional(&mut o, "sources", src_elems);
        attribute_optional(&mut o, "adapterData", adapter_data);
        let ck_elems = checksums_into_json(checksums);
        attribute_array_optional(&mut o, "checksums", ck_elems);
        Json::Object(o)
    }

    /// Decodes the `sources` attribute of an object; absent means empty.
    pub(crate) fn dec_sources(o: &JsonObject) -> (r: Result<Vec<Source>, Error>)
        ensures
            match r {
                Ok(v) => SourceV::dec_sources_attr(entries_dv(o@)) == Ok::<_, ErrorV>(
                    sources_dv(v@),
                ),
                Err(e) => SourceV::dec_sources_attr(entries_dv(o@)) == Err::<Seq<SourceV>, _>(
                    e.deep_view(),
                ),
            },
        decreases o@, 3int,
    {
        match crate::json::obj_find(o, "sources") {
            None => {
                let v: Vec<Source> = Vec::new();
                proof {
                    assert(sources_dv(v@) =~= Seq::<SourceV>::empty());
                }
                Ok(v)
            },
            Some(i) => {
                match &o[i].1 {
                    Json::Array(a) => {
                        proof {
                            assert(decreases_to!(o@ => o@[i as int]));
                            assert(decreases_to!(o@[i as int] => o@[i as int].1));
                            assert(decreases_to!(o@[i as int].1 => *a));
                            assert(decreases_to!(*a => a@));
                            assert(elems_dv(a@).skip(0) =~= elems_dv(a@));
                        }
                        Self::dec_source_elems(a, 0)
                    },
                    _ => Err(Error::new("sources", Cause::MustBeArray)),
                }
            },
        }
    }

    /// Decodes the elements of a `sources` array from index `i` on.
    fn dec_source_elems(a: &Vec<Json>, i: usize) -> (r: Result<Vec<Source>, Error>)
        requires
            i <= a@.len(),
        ensures
            match r {
                Ok(v) => SourceV::dec_elems(elems_dv(a@).skip(i as int)) == Ok::<_, ErrorV>(
                    sources_dv(v@),
                ),
                Err(e) => SourceV::dec_elems(elems_dv(a@).skip(i as int)) == Err::<
                    Seq<SourceV>,
                    _,
                >(e.deep_view()),
            },
        decreases a@, 2int, a@.len() - i,
    {
        broadcast use group_source_dv;

        let ghost rem = elems_dv(a@).skip(i as int);
        if i == a.len() {
            let v: Vec<Source> = Vec::new();
            proof {
                assert(rem =~= Seq::<JsonV>::empty());
                assert(sources_dv(v@) =~= Seq::<SourceV>::empty());
            }
            Ok(v)
        } else {
            proof {
                assert(rem.len() == a@.len() - i);
                assert(rem[0] == elems_dv(a@)[i as int]);
                assert(elems_dv(a@)[i as int] == a@[i as int].deep_view());
                assert(rem.drop_first() =~= elems_dv(a@).skip(i + 1));
            }
            match &a[i] {
                Json::Object(e) => {
                    proof {
                        assert(decreases_to!(a@ => a@[i as int]));
                        assert(decreases_to!(a@[i as int] => *e));
                        assert(decreases_to!(*e => e@));
                    }
                    let s = match Source::try_from(e) {
                        Ok(s) => s,
                        Err(er) => {
                            return Err(er);
                        },
                    };
                    let mut rest = match Self::dec_source_elems(a, i + 1) {
                        Ok(v) => v,
                        Err(er) => {
                            return Err(er);
                        },
                    };
                    let ghost restseq = rest@;
                    let mut out: Vec<Source> = Vec::new();
                    out.push(s);
                    out.append(&mut rest);
                    proof {
                        assert(out@[0] == s);
                        assert(out@.drop_first() =~= restseq);
                        assert(sources_dv(out@) == seq![out@[0].deep_view()] + sources_dv(
                            out@.drop_first(),
                        ));
                    }
                    Ok(out)
                },
                _ => Err(Error::new("sources", Cause::MustBeObject)),
            }
        }
    }

    /// Decodes the `checksums` attribute of an object; absent means empty.
    fn dec_checksums(o: &JsonObject) -> (r: Result<Vec<Checksum>, Error>)
        ensures
            match r {
                Ok(v) => SourceV::dec_checksums_attr(entries_dv(o@)) == Ok::<_, ErrorV>(
                    v.deep_view(),
                ),
                Err(e) => SourceV::dec_checksums_attr(entries_dv(o@)) == Err::<Seq<ChecksumV>, _>(
                    e.deep_view(),
                ),
            },
    {
        let a = match crate::json::obj_get(o, "checksums") {
            None => {
                let v: Vec<Checksum> = Vec::new();
                proof {
                    assert(v.deep_view() =~= Seq::<ChecksumV>::empty());
                }
                return Ok(v);
            },
            Some(Json::Array(a)) => a,
            Some(_) => {
                return Err(Error::new("checksums", Cause::MustBeArray));
            },
        };
        let mut out: Vec<Checksum> = Vec::new();
        let mut i: usize = 0;
        proof {
            assert(elems_dv(a@).take(0) =~= Seq::<JsonV>::empty());
            assert(out.deep_view() =~= Seq::<ChecksumV>::empty());
        }
        while i < a.len()
            invariant
                i <= a.len(),
                lookup(entries_dv(o@), "checksums"@) == Some(JsonV::Array(elems_dv(a@))),
                dec_seq(elems_dv(a@).take(i as int), checksum_elem()) == Ok::<_, ErrorV>(
                    out.deep_view(),
                ),
            decreases a.len() - i,
        {
            let ghost pre = elems_dv(a@).take(i as int);
            proof {
                assert(elems_dv(a@).take(i + 1) =~= pre.push(elems_dv(a@)[i as int]));
                lemma_dec_seq_push(pre, elems_dv(a@)[i as int], checksum_elem());
            }
            match &a[i] {
                Json::Object(e) => {
                    match Checksum::try_from(e) {
                        Ok(c) => {
                            out.push(c);
                            proof {
                                assert(out.deep_view() =~= dec_seq(
                                    elems_dv(a@).take(i + 1),
                                    checksum_elem(),
                                )->Ok_0);
                            }
                        },
                        Err(er) => {
                            proof {
                                lemma_dec_seq_err_prefix(elems_dv(a@), i + 1, checksum_elem());
                            }
                            return Err(er);
                        },
                    }
                },
                _ => {
                    proof {
                        lemma_dec_seq_err_prefix(elems_dv(a@), i + 1, checksum_elem());
                    }
                    return Err(Error::new("checksums", Cause::MustBeObject));
                },
            }
            i += 1;
        }
        proof {
            assert(elems_dv(a@).take(a@.len() as int) =~= elems_dv(a@));
        }
        Ok(out)
    }

    /// Decodes a JSON object as a source.
    pub fn try_from(o: &JsonObject) -> (r: Result<Source, Error>)
        ensures
            rdv(r) == SourceV::dec(entries_dv(o@)),
        decreases o@, 4int,
    {
        let name = get_string_optional(o, "name")?;
        let path = get_string_optional(o, "path")?;
        let reference = get_u32_optional(o, "sourceReference")?;
        let source_reference: Option<SourceReference> = match reference {
            Some(n) => if n > 0 {
                Some(SourceReference::Reference(n))
            } else {
                match path {
                    Some(p) => Some(SourceReference::Path(p)),
                    None => None,
                }
            },
            None => match path {
                Some(p) => Some(SourceReference::Path(p)),
                None => None,
            },
        };
        let hint = get_str_optional(o, "presentationHint")?;
        let presentation_hint = match hint {
            Some(h) => Some(SourcePresentationHint::try_from(h)?),
            None => None,
        };
        let origin = get_string_optional(o, "origin")?;
        let sources = Self::dec_sources(o)?;
        let adapter_data = match crate::json::obj_get(o, "adapterData") {
            Some(v) => Some(v.clone()),
            None => None,
        };
        let checksums = Self::dec_checksums(o)?;
        Ok(
            Source {
                name,
                source_reference,
                presentation_hint,
                origin,
                sources,
                adapter_data,
                checksums,
            },
        )
    }
}

/// Encoded checksums decode to themselves.
pub proof fn lemma_checksums_seq_roundtrip(cs: Seq<ChecksumV>)
    ensures
        dec_seq(checksum_enc_elems(cs), checksum_elem()) == Ok::<Seq<ChecksumV>, ErrorV>(cs),
    decreases cs.len(),
{
    reveal_with_fuel(dec_seq, 2);
    let ce = checksum_enc_elems(cs);
    if cs.len() == 0 {
        assert(ce =~= Seq::<JsonV>::empty());
        assert(cs =~= Seq::<ChecksumV>::empty());
    } else {
        lemma_checksums_seq_roundtrip(cs.drop_first());
        lemma_checksum_roundtrip(cs[0]);
        assert(ce[0] == JsonV::Object(cs[0].enc()));
        assert(ce.drop_first() =~= checksum_enc_elems(cs.drop_first()));
        assert(seq![cs[0]] + cs.drop_first() =~= cs);
    }
}

/// Encoded sources decode to themselves.
pub proof fn lemma_sources_seq_roundtrip(ss: Seq<SourceV>)
    requires
        forall|i: int| 0 <= i < ss.len() ==> (#[trigger] ss[i]).wf(),
    ensures
        SourceV::dec_elems(SourceV::enc_seq(ss)) == Ok::<Seq<SourceV>, ErrorV>(ss),
    decreases ss, 1int,
{
    broadcast use group_source_dv;

    let es = SourceV::enc_seq(ss);
    if ss.len() == 0 {
        assert(es =~= Seq::<JsonV>::empty());
        assert(ss =~= Seq::<SourceV>::empty());
    } else {
        assert(decreases_to!(ss => ss.subrange(1, ss.len() as int)));
        assert(ss.drop_first() =~= ss.subrange(1, ss.len() as int));
        lemma_sources_seq_roundtrip(ss.drop_first());
        assert(decreases_to!(ss => ss[0]));
        lemma_source_roundtrip(ss[0]);
        assert(es == seq![JsonV::Object(ss[0].enc())] + SourceV::enc_seq(ss.drop_first()));
        assert(es[0] == JsonV::Object(ss[0].enc()));
        assert(es.drop_first() =~= SourceV::enc_seq(ss.drop_first()));
        assert(seq![ss[0]] + ss.drop_first() =~= ss);
    }
}

/// Decoding an encoded source gives the source back.
pub proof fn lemma_source_roundtrip(s: SourceV)
    requires
        s.wf(),
    ensures
        SourceV::dec(s.enc()) == Ok::<SourceV, ErrorV>(s),
    decreases s, 2int,
{
    broadcast use crate::utils::group_lookup_attrs, group_source_dv;

    reveal_strlit("name");
    reveal_strlit("path");
    reveal_strlit("sourceReference");
    reveal_strlit("presentationHint");
    reveal_strlit("origin");
    reveal_strlit("sources");
    reveal_strlit("adapterData");
    reveal_strlit("checksums");
    assert("name"@.len() == 4);
    assert("path"@.len() == 4);
    assert("sourceReference"@.len() == 15);
    assert("presentationHint"@.len() == 16);
    assert("origin"@.len() == 6);
    assert("sources"@.len() == 7);
    assert("adapterData"@.len() == 11);
    assert("checksums"@.len() == 9);
    assert("name"@[0] != "path"@[0]);
    let o = s.enc();
    assert(lookup(o, "name"@) == match s.name {
        Some(n) => Some(JsonV::Text(n)),
        None => None,
    });
    match s.source_reference {
        Some(SourceReferenceV::Path(p)) => {
            assert(lookup(o, "path"@) == Some(JsonV::Text(p)));
            assert(lookup(o, "sourceReference"@) is None);
        },
        Some(SourceReferenceV::Reference(n)) => {
            assert(n > 0);
            assert(lookup(o, "path"@) is None);
            assert(lookup(o, "sourceReference"@) == Some(JsonV::U64(n as u64)));
            assert((n as u64) <= u32::MAX as u64);
            assert(((n as u64) as u32) == n);
        },
        None => {
            assert(lookup(o, "path"@) is None);
            assert(lookup(o, "sourceReference"@) is None);
        },
    }
    match s.presentation_hint {
        Some(h) => {
            assert(lookup(o, "presentationHint"@) == Some(JsonV::Text(h.wire())));
            h.lemma_roundtrip();
        },
        None => {
            assert(lookup(o, "presentationHint"@) is None);
        },
    }
    assert(lookup(o, "origin"@) == match s.origin {
        Some(n) => Some(JsonV::Text(n)),
        None => None,
    });
    if s.sources.len() == 0 {
        assert(SourceV::enc_seq(s.sources).len() == 0);
        assert(lookup(o, "sources"@) is None);
        assert(SourceV::dec_sources_attr(o) == Ok::<Seq<SourceV>, ErrorV>(s.sources)) by {
            assert(s.sources =~= Seq::<SourceV>::empty());
        }
    } else {
        assert(SourceV::enc_seq(s.sources).len() > 0);
        assert(lookup(o, "sources"@) == Some(JsonV::Array(SourceV::enc_seq(s.sources))));
        assert(decreases_to!(s => s.sources));
        lemma_sources_seq_roundtrip(s.sources);
    }
    assert(lookup(o, "adapterData"@) == s.adapter_data);
    if s.checksums.len() == 0 {
        assert(checksum_enc_elems(s.checksums).len() == 0);
        assert(lookup(o, "checksums"@) is None);
        assert(SourceV::dec_checksums_attr(o) == Ok::<Seq<ChecksumV>, ErrorV>(s.checksums)) by {
            assert(s.checksums =~= Seq::<ChecksumV>::empty());
        }
    } else {
        assert(checksum_enc_elems(s.checksums).len() > 0);
        assert(lookup(o, "checksums"@) == Some(JsonV::Array(checksum_enc_elems(s.checksums))));
        lemma_checksums_seq_roundtrip(s.checksums);
    }
}

/// A zero source reference is elided on the wire: the source comes back with
/// no reference at all, every other field kept.
pub proof fn lemma_source_reference_zero(s: SourceV)
    requires
        s.source_reference == Some(SourceReferenceV::Reference(0)),
        (SourceV { source_reference: None, ..s }).wf(),
    ensures
        SourceV::dec(s.enc()) == Ok::<SourceV, ErrorV>(SourceV { source_reference: None, ..s }),
{
    let s2 = SourceV { source_reference: None, ..s };
    assert(s.enc() == s2.enc());
    lemma_source_roundtrip(s2);
}

/// A breakpoint as the adapter reports it.
#[derive(Debug, PartialEq, Eq)]
pub struct Breakpoint {
    pub id: Option<u64>,
    pub verified: bool,
    pub message: Option<String>,
    pub source: Option<Source>,
    pub line: Option<u64>,
    pub column: Option<u64>,
    pub end_line: Option<u64>,
    pub end_column: Option<u64>,
    pub instruction_reference: Option<String>,
    pub offset: Option<i64>,
}

/// Model of a [`Breakpoint`].
pub struct BreakpointV {
    pub id: Option<u64>,
    pub verified: bool,
    pub message: Option<Seq<char>>,
    pub source: Option<SourceV>,
    pub line: Option<u64>,
    pub column: Option<u64>,
    pub end_line: Option<u64>,
    pub end_column: Option<u64>,
    pub instruction_reference: Option<Seq<char>>,
    pub offset: Option<i64>,
}

impl DeepView for Breakpoint {
    type V = BreakpointV;

    open spec fn deep_view(&self) -> BreakpointV {
        BreakpointV {
            id: self.id,
            verified: self.verified,
            message: self.message.deep_view(),
            source: self.source.deep_view(),
            line: self.line,
            column: self.column,
            end_line: self.end_line,
            end_column: self.end_column,
            instruction_reference: self.instruction_reference.deep_view(),
            offset: self.offset,
        }
    }
}

impl BreakpointV {
    /// The encoded entries of a breakpoint.
    pub open spec fn enc(self) -> Seq<(Seq<char>, JsonV)> {
        let s = Seq::<(Seq<char>, JsonV)>::empty();
        let s = spec_attr_u64_optional(s, "id"@, self.id);
        let s = spec_attr_bool(s, "verified"@, self.verified);
        let s = spec_attr_string_optional(s, "message"@, self.message);
        let s = spec_attr_optional(
            s,
            "source"@,
            match self.source {
                Some(sv) => Some(JsonV::Object(sv.enc())),
                None => None,
            },
        );
        let s = spec_attr_u64_optional(s, "line"@, self.line);
        let s = spec_attr_u64_optional(s, "column"@, self.column);
        let s = spec_attr_u64_optional(s, "endLine"@, self.end_line);
        let s = spec_attr_u64_optional(s, "endColumn"@, self.end_column);
        let s = spec_attr_string_optional(s, "instructionReference"@, self.instruction_reference);
        let s = spec_attr_i64_optional(s, "offset"@, self.offset);
        s
    }

    /// What decoding an object as a breakpoint yields.
    pub open spec fn dec(o: Seq<(Seq<char>, JsonV)>) -> Result<BreakpointV, ErrorV> {
        match spec_get_u64_optional(o, "id"@) {
            Err(e) => Err(e),
            Ok(id) => match spec_get_bool(o, "verified"@) {
                Err(e) => Err(e),
                Ok(verified) => match spec_get_string_optional(o, "message"@) {
                    Err(e) => Err(e),
                    Ok(message) => match spec_get_object_optional(o, "source"@) {
                        Err(e) => Err(e),
                        Ok(se) => {
                            let source = match se {
                                Some(e) => match SourceV::dec(e) {
                                    Ok(s) => Ok(Some(s)),
                                    Err(er) => Err(er),
                                },
                                None => Ok(None),
                            };
                            match source {
                                Err(e) => Err(e),
                                Ok(source) => match spec_get_u64_optional(o, "line"@) {
                                    Err(e) => Err(e),
                                    Ok(line) => match spec_get_u64_optional(o, "column"@) {
                                        Err(e) => Err(e),
                                        Ok(column) => match spec_get_u64_optional(o, "endLine"@) {
                                            Err(e) => Err(e),
                                            Ok(end_line) => match spec_get_u64_optional(
                                                o,
                                                "endColumn"@,
                                            ) {
                                                Err(e) => Err(e),
                                                Ok(end_column) => match spec_get_string_optional(
                                                    o,
                                                    "instructionReference"@,
                                                ) {
                                                    Err(e) => Err(e),
                                                    Ok(instruction_reference) => match
                                                        spec_get_i64_optional(o, "offset"@) {
                                                        Err(e) => Err(e),
                                                        Ok(offset) => Ok(
                                                            BreakpointV {
                                                                id,
                                                                verified,
                                                                message,
                                                                source,
                                                                line,
                                                                column,
                                                                end_line,
                                                                end_column,
                                                                instruction_reference,
                                                                offset,
                                                            },
                                                        ),
                                                    },
                                                },
                                            },
                                        },
                                    },
                                },
                            }
                        },
                    },
                },
            },
        }
    }
}

impl Breakpoint {
    /// Encodes this breakpoint as a JSON object.
    pub fn into_json(self) -> (r: Json)
        ensures
            r.deep_view() == JsonV::Object(self.deep_view().enc()),
    {
        let mut o: JsonObject = Vec::new();
        proof {
            assert(entries_dv(o@) =~= Seq::<(Seq<char>, JsonV)>::empty());
        }
        attribute_u64_optional(&mut o, "id", self.id);
        attribute_bool(&mut o, "verified", self.verified);
        attribute_string_optional(&mut o, "message", self.message);
        match self.source {
            Some(s) => attribute_optional(&mut o, "source", Some(s.into_json())),
            None => attribute_optional(&mut o, "source", None),
        }
        attribute_u64_optional(&mut o, "line", self.line);
        attribute_u64_optional(&mut o, "column", self.column);
        attribute_u64_optional(&mut o, "endLine", self.end_line);
        attribute_u64_optional(&mut o, "endColumn", self.end_column);
        attribute_string_optional(&mut o, "instructionReference", self.instruction_reference);
        attribute_i64_optional(&mut o, "offset", self.offset);
        Json::Object(o)
    }

    /// Decodes a JSON object as a breakpoint.
    pub fn try_from(o: &JsonObject) -> (r: Result<Breakpoint, Error>)
        ensures
            rdv(r) == BreakpointV::dec(entries_dv(o@)),
    {
        let id = get_u64_optional(o, "id")?;
        let verified = get_bool(o, "verified")?;
        let message = get_string_optional(o, "message")?;
        let source = match get_object_optional(o, "source")? {
            Some(e) => Some(Source::try_from(e)?),
            None => None,
        };
        let line = get_u64_optional(o, "line")?;
        let column = get_u64_optional(o, "column")?;
        let end_line = get_u64_optional(o, "endLine")?;
        let end_column = get_u64_optional(o, "endColumn")?;
        let instruction_reference = get_string_optional(o, "instructionReference")?;
        let offset = get_i64_optional(o, "offset")?;
        Ok(
            Breakpoint {
                id,
                verified,
                message,
                source,
                line,
                column,
                end_line,
                end_column,
                instruction_reference,
                offset,
            },
        )
    }
}

/// A filter a client may pick for exception breakpoints.
#[derive(Debug, Clone, PartialEq, Eq)]
pub struct ExceptionBreakpointsFilter {
    pub filter: String,
    pub label: String,
    pub description: Option<String>,
    pub default: bool,
    pub supports_condition: bool,
    pub condition_description: Option<String>,
}

/// Model of an [`ExceptionBreakpointsFilter`].
pub struct ExceptionBreakpointsFilterV {
    pub filter: Seq<char>,
    pub label: Seq<char>,
    pub description: Option<Seq<char>>,
    pub default: bool,
    pub supports_condition: bool,
    pub condition_description: Option<Seq<char>>,
}

impl DeepView for ExceptionBreakpointsFilter {
    type V = ExceptionBreakpointsFilterV;

    open spec fn deep_view(&self) -> ExceptionBreakpointsFilterV {
        ExceptionBreakpointsFilterV {
            filter: self.filter@,
            label: self.label@,
            description: self.description.deep_view(),
            default: self.default,
            supports_condition: self.supports_condition,
            condition_description: self.condition_description.deep_view(),
        }
    }
}

impl ExceptionBreakpointsFilterV {
    /// The encoded entries of a filter.
    pub open spec fn enc(self) -> Seq<(Seq<char>, JsonV)> {
        let s = Seq::<(Seq<char>, JsonV)>::empty();
        let s = spec_attr_string(s, "filter"@, self.filter);
        let s = spec_attr_string(s, "label"@, self.label);
        let s = spec_attr_string_optional(s, "description"@, self.description);
        let s = spec_attr_bool_optional(s, "default"@, self.default);
        let s = spec_attr_bool_optional(s, "supportsCondition"@, self.supports_condition);
        let s = spec_attr_string_optional(s, "conditionDescription"@, self.condition_description);
        s
    }

    /// What decoding an object as a filter yields.
    pub open spec fn dec(o: Seq<(Seq<char>, JsonV)>) -> Result<
        ExceptionBreakpointsFilterV,
        ErrorV,
    > {
        match spec_get_string(o, "filter"@) {
            Err(e) => Err(e),
            Ok(filter) => match spec_get_string(o, "label"@) {
                Err(e) => Err(e),
                Ok(label) => match spec_get_string_optional(o, "description"@) {
                    Err(e) => Err(e),
                    Ok(description) => match spec_get_bool_optional(o, "default"@) {
                        Err(e) => Err(e),
                        Ok(default) => match spec_get_bool_optional(o, "supportsCondition"@) {
                            Err(e) => Err(e),
                            Ok(supports_condition) => match spec_get_string_optional(
                                o,
                                "conditionDescription"@,
                            ) {
                                Err(e) => Err(e),
                                Ok(condition_description) => Ok(
                                    ExceptionBreakpointsFilterV {
                                        filter,
                                        label,
                                        description,
                                        default,
                                        supports_condition,
                                        condition_description,
                                    },
                                ),
                            },
                        },
                    },
                },
            },
        }
    }
}

impl ExceptionBreakpointsFilter {
    /// Encodes this filter as a JSON object.
    pub fn into_json(self) -> (r: Json)
        ensures
            r.deep_view() == JsonV::Object(self.deep_view().enc()),
    {
        let mut o: JsonObject = Vec::new();
        proof {
            assert(entries_dv(o@) =~= Seq::<(Seq<char>, JsonV)>::empty());
        }
        attribute_string(&mut o, "filter", self.filter);
        attribute_string(&mut o, "label", self.label);
        attribute_string_optional(&mut o, "description", self.description);
        attribute_bool_optional(&mut o, "default", self.default);
        attribute_bool_optional(&mut o, "supportsCondition", self.supports_condition);
        attribute_string_optional(&mut o, "conditionDescription", self.condition_description);
        Json::Object(o)
    }

    /// Decodes a JSON object as a filter.
    pub fn try_from(o: &JsonObject) -> (r: Result<ExceptionBreakpointsFilter, Error>)
        ensures
            rdv(r) == ExceptionBreakpointsFilterV::dec(entries_dv(o@)),
    {
        let filter = get_string(o, "filter")?;
        let label = get_string(o, "label")?;
        let description = get_string_optional(o, "description")?;
        let default = get_bool_optional(o, "default")?;
        let supports_condition = get_bool_optional(o, "supportsCondition")?;
        let condition_description = get_string_optional(o, "conditionDescription")?;
        Ok(
            ExceptionBreakpointsFilter {
                filter,
                label,
                description,
                default,
                supports_condition,
                condition_description,
            },
        )
    }
}

/// The type a module column displays: a closed set.
#[derive(Debug, Clone, Copy, PartialEq, Eq)]
pub enum ColumnDescriptorType {
    String,
    Number,
    Boolean,
    UnixTimestampUTC,
}

impl DeepView for ColumnDescriptorType {
    type V = ColumnDescriptorType;

    open spec fn deep_view(&self) -> ColumnDescriptorType {
        *self
    }
}

impl ColumnDescriptorType {
    /// The wire name of each type.
    pub open spec fn wire(self) -> Seq<char> {
        match self {
            ColumnDescriptorType::String => "string"@,
            ColumnDescriptorType::Number => "number"@,
            ColumnDescriptorType::Boolean => "boolean"@,
            ColumnDescriptorType::UnixTimestampUTC => "unixTimestampUTC"@,
        }
    }

    /// What decoding a wire name yields.
    pub open spec fn spec_from(s: Seq<char>) -> Result<ColumnDescriptorType, ErrorV> {
        if s == "string"@ {
            Ok(ColumnDescriptorType::String)
        } else if s == "number"@ {
            Ok(ColumnDescriptorType::Number)
        } else if s == "boolean"@ {
            Ok(ColumnDescriptorType::Boolean)
        } else if s == "unixTimestampUTC"@ {
            Ok(ColumnDescriptorType::UnixTimestampUTC)
        } else {
            Err(errv("columnDescriptorType"@, Cause::ExpectsEnum))
        }
    }

    /// The wire name of this type.
    pub fn as_str(&self) -> (r: &'static str)
        ensures
            r@ == self.wire(),
    {
        match self {
            ColumnDescriptorType::String => "string",
            ColumnDescriptorType::Number => "number",
            ColumnDescriptorType::Boolean => "boolean",
            ColumnDescriptorType::UnixTimestampUTC => "unixTimestampUTC",
        }
    }

    /// Decodes a wire name.
    pub fn try_from(s: &str) -> (r: Result<ColumnDescriptorType, Error>)
        ensures
            rdv(r) == ColumnDescriptorType::spec_from(s@),
    {
        if str_eq(s, "string") {
            Ok(ColumnDescriptorType::String)
        } else if str_eq(s, "number") {
            Ok(ColumnDescriptorType::Number)
        } else if str_eq(s, "boolean") {
            Ok(ColumnDescriptorType::Boolean)
        } else if str_eq(s, "unixTimestampUTC") {
            Ok(ColumnDescriptorType::UnixTimestampUTC)
        } else {
            Err(Error::new("columnDescriptorType", Cause::ExpectsEnum))
        }
    }
}

/// A column a client may add to its module display.
#[derive(Debug, Clone, PartialEq, Eq)]
pub struct ColumnDescriptor {
    pub attribute_name: String,
    pub label: String,
    pub format: Option<String>,
    pub ty: Option<ColumnDescriptorType>,
    pub width: Option<u64>,
}

/// Model of a [`ColumnDescriptor`].
pub struct ColumnDescriptorV {
    pub attribute_name: Seq<char>,
    pub label: Seq<char>,
    pub format: Option<Seq<char>>,
    pub ty: Option<ColumnDescriptorType>,
    pub width: Option<u64>,
}

impl DeepView for ColumnDescriptor {
    type V = ColumnDescriptorV;

    open spec fn deep_view(&self) -> ColumnDescriptorV {
        ColumnDescriptorV {
            attribute_name: self.attribute_name@,
            label: self.label@,
            format: self.format.deep_view(),
            ty: self.ty.deep_view(),
            width: self.width,
        }
    }
}

impl ColumnDescriptorV {
    /// The encoded entries of a column descriptor.
    pub open spec fn enc(self) -> Seq<(Seq<char>, JsonV)> {
        let s = Seq::<(Seq<char>, JsonV)>::empty();
        let s = spec_attr_string(s, "attributeName"@, self.attribute_name);
        let s = spec_attr_string(s, "label"@, self.label);
        let s = spec_attr_string_optional(s, "format"@, self.format);
        let s = spec_attr_string_optional(
            s,
            "type"@,
            match self.ty {
                Some(t) => Some(t.wire()),
                None => None,
            },
        );
        let s = spec_attr_u64_optional(s, "width"@, self.width);
        s
    }

    /// What decoding an object as a column descriptor yields.
    pub open spec fn dec(o: Seq<(Seq<char>, JsonV)>) -> Result<ColumnDescriptorV, ErrorV> {
        match spec_get_string(o, "attributeName"@) {
            Err(e) => Err(e),
            Ok(attribute_name) => match spec_get_string(o, "label"@) {
                Err(e) => Err(e),
                Ok(label) => match spec_get_string_optional(o, "format"@) {
                    Err(e) => Err(e),
                    Ok(format) => match spec_get_string_optional(o, "type"@) {
                        Err(e) => Err(e),
                        Ok(tys) => {
                            let ty = match tys {
                                Some(t) => match ColumnDescriptorType::spec_from(t) {
                                    Ok(t) => Ok(Some(t)),
                                    Err(er) => Err(er),
                                },
                                None => Ok(None),
                            };
                            match ty {
                                Err(e) => Err(e),
                                Ok(ty) => match spec_get_u64_optional(o, "width"@) {
                                    Err(e) => Err(e),
                                    Ok(width) => Ok(
                                        ColumnDescriptorV {
                                            attribute_name,
                                            label,
                                            format,
                                            ty,
                                            width,
                                        },
                                    ),
                                },
                            }
                        },
                    },
                },
            },
        }
    }
}

impl ColumnDescriptor {
    /// Encodes this column descriptor as a JSON object.
    pub fn into_json(self) -> (r: Json)
        ensures
            r.deep_view() == JsonV::Object(self.deep_view().enc()),
    {
        let mut o: JsonObject = Vec::new();
        proof {
            assert(entries_dv(o@) =~= Seq::<(Seq<char>, JsonV)>::empty());
        }
        attribute_string(&mut o, "attributeName", self.attribute_name);
        attribute_string(&mut o, "label", self.label);
        attribute_string_optional(&mut o, "format", self.format);
        let tys: Option<String> = match self.ty {
            Some(t) => Some(t.as_str().to_owned()),
            None => None,
        };
        attribute_string_optional(&mut o, "type", tys);
        attribute_u64_optional(&mut o, "width", self.width);
        Json::Object(o)
    }

    /// Decodes a JSON object as a column descriptor.
    pub fn try_from(o: &JsonObject) -> (r: Result<ColumnDescriptor, Error>)
        ensures
            rdv(r) == ColumnDescriptorV::dec(entries_dv(o@)),
    {
        let attribute_name = get_string(o, "attributeName")?;
        let label = get_string(o, "label")?;
        let format = get_string_optional(o, "format")?;
        let ty = match get_str_optional(o, "type")? {
            Some(t) => Some(ColumnDescriptorType::try_from(t)?),
            None => None,
        };
        let width = get_u64_optional(o, "width")?;
        Ok(ColumnDescriptor { attribute_name, label, format, ty, width })
    }
}

/// Everything an adapter may claim to support: boolean feature flags that
/// default to `false`, and capability lists that default to empty.
#[derive(Debug, Clone, PartialEq, Eq)]
pub struct Capabilities {
    pub supports_configuration_done_request: bool,
    pub supports_function_breakpoints: bool,
    pub supports_conditional_breakpoints: bool,
    pub supports_hit_conditional_breakpoints: bool,
    pub supports_evaluate_for_hovers: bool,
    pub exception_breakpoint_filters: Vec<ExceptionBreakpointsFilter>,
    pub supports_step_back: bool,
    pub supports_set_variable: bool,
    pub supports_restart_frame: bool,
    pub supports_goto_targets_request: bool,
    pub supports_step_in_targets_request: bool,
    pub supports_completions_request: bool,
    pub completion_trigger_characters: Vec<String>,
    pub supports_modules_request: bool,
    pub additional_module_columns: Vec<ColumnDescriptor>,
    pub supported_checksum_algorithms: Vec<ChecksumAlgorithm>,
    pub supports_restart_request: bool,
    pub supports_exception_options: bool,
    pub supports_value_formatting_options: bool,
    pub supports_exception_info_request: bool,
    pub support_terminate_debuggee: bool,
    pub support_suspend_debuggee: bool,
    pub supports_delayed_stack_trace_loading: bool,
    pub supports_loaded_sources_request: bool,
    pub supports_log_points: bool,
    pub supports_terminate_threads_request: bool,
    pub supports_set_expression: bool,
    pub supports_terminate_request: bool,
    pub supports_data_breakpoints: bool,
    pub supports_read_memory_request: bool,
    pub supports_write_memory_request: bool,
    pub supports_disassemble_request: bool,
    pub supports_cancel_request: bool,
    pub supports_breakpoint_locations_request: bool,
    pub supports_clipboard_context: bool,
    pub supports_stepping_granularity: bool,
    pub supports_instruction_breakpoints: bool,
    pub supports_exception_filter_options: bool,
    pub supports_single_thread_execution_requests: bool,
}

/// Model of a [`Capabilities`].
pub struct CapabilitiesV {
    pub supports_configuration_done_request: bool,
    pub supports_function_breakpoints: bool,
    pub supports_conditional_breakpoints: bool,
    pub supports_hit_conditional_breakpoints: bool,
    pub supports_evaluate_for_hovers: bool,
    pub exception_breakpoint_filters: Seq<ExceptionBreakpointsFilterV>,
    pub supports_step_back: bool,
    pub supports_set_variable: bool,
    pub supports_restart_frame: bool,
    pub supports_goto_targets_request: bool,
    pub supports_step_in_targets_request: bool,
    pub supports_completions_request: bool,
    pub completion_trigger_characters: Seq<Seq<char>>,
    pub supports_modules_request: bool,
    pub additional_module_columns: Seq<ColumnDescriptorV>,
    pub supported_checksum_algorithms: Seq<ChecksumAlgorithm>,
    pub supports_restart_request: bool,
    pub supports_exception_options: bool,
    pub supports_value_formatting_options: bool,
    pub supports_exception_info_request: bool,
    pub support_terminate_debuggee: bool,
    pub support_suspend_debuggee: bool,
    pub supports_delayed_stack_trace_loading: bool,
    pub supports_loaded_sources_request: bool,
    pub supports_log_points: bool,
    pub supports_terminate_threads_request: bool,
    pub supports_set_expression: bool,
    pub supports_terminate_request: bool,
    pub supports_data_breakpoints: bool,
    pub supports_read_memory_request: bool,
    pub supports_write_memory_request: bool,
    pub supports_disassemble_request: bool,
    pub supports_cancel_request: bool,
    pub supports_breakpoint_locations_request: bool,
    pub supports_clipboard_context: bool,
    pub supports_stepping_granularity: bool,
    pub supports_instruction_breakpoints: bool,
    pub supports_exception_filter_options: bool,
    pub supports_single_thread_execution_requests: bool,
}

impl DeepView for Capabilities {
    type V = CapabilitiesV;

    open spec fn deep_view(&self) -> CapabilitiesV {
        CapabilitiesV {
            supports_configuration_done_request: self.supports_configuration_done_request,
            supports_function_breakpoints: self.supports_function_breakpoints,
            supports_conditional_breakpoints: self.supports_conditional_breakpoints,
            supports_hit_conditional_breakpoints: self.supports_hit_conditional_breakpoints,
            supports_evaluate_for_hovers: self.supports_evaluate_for_hovers,
            exception_breakpoint_filters: self.exception_breakpoint_filters.deep_view(),
            supports_step_back: self.supports_step_back,
            supports_set_variable: self.supports_set_variable,
            supports_restart_frame: self.supports_restart_frame,
            supports_goto_targets_request: self.supports_goto_targets_request,
            supports_step_in_targets_request: self.supports_step_in_targets_request,
            supports_completions_request: self.supports_completions_request,
            completion_trigger_characters: self.completion_trigger_characters.deep_view(),
            supports_modules_request: self.supports_modules_request,
            additional_module_columns: self.additional_module_columns.deep_view(),
            supported_checksum_algorithms: self.supported_checksum_algorithms.deep_view(),
            supports_restart_request: self.supports_restart_request,
            supports_exception_options: self.supports_exception_options,
            supports_value_formatting_options: self.supports_value_formatting_options,
            supports_exception_info_request: self.supports_exception_info_request,
            support_terminate_debuggee: self.support_terminate_debuggee,
            support_suspend_debuggee: self.support_suspend_debuggee,
            supports_delayed_stack_trace_loading: self.supports_delayed_stack_trace_loading,
            supports_loaded_sources_request: self.supports_loaded_sources_request,
            supports_log_points: self.supports_log_points,
            supports_terminate_threads_request: self.supports_terminate_threads_request,
            supports_set_expression: self.supports_set_expression,
            supports_terminate_request: self.supports_terminate_request,
            supports_data_breakpoints: self.supports_data_breakpoints,
            supports_read_memory_request: self.supports_read_memory_request,
            supports_write_memory_request: self.supports_write_memory_request,
            supports_disassemble_request: self.supports_disassemble_request,
            supports_cancel_request: self.supports_cancel_request,
            supports_breakpoint_locations_request: self.supports_breakpoint_locations_request,
            supports_clipboard_context: self.supports_clipboard_context,
            supports_stepping_granularity: self.supports_stepping_granularity,
            supports_instruction_breakpoints: self.supports_instruction_breakpoints,
            supports_exception_filter_options: self.supports_exception_filter_options,
            supports_single_thread_execution_requests: self.supports_single_thread_execution_requests,
        }
    }
}

/// The model of a filter sequence as JSON array elements.
pub open spec fn filter_enc_elems(fs: Seq<ExceptionBreakpointsFilterV>) -> Seq<JsonV> {
    fs.map_values(|f: ExceptionBreakpointsFilterV| JsonV::Object(f.enc()))
}

/// The model of a column sequence as JSON array elements.
pub open spec fn column_enc_elems(cs: Seq<ColumnDescriptorV>) -> Seq<JsonV> {
    cs.map_values(|c: ColumnDescriptorV| JsonV::Object(c.enc()))
}

/// The model of an algorithm sequence as JSON array elements.
pub open spec fn algorithm_enc_elems(al: Seq<ChecksumAlgorithm>) -> Seq<JsonV> {
    al.map_values(|a: ChecksumAlgorithm| JsonV::Text(a.wire()))
}

/// Model of the element decoder for arrays of filters.
pub open spec fn filter_elem() -> spec_fn(JsonV) -> Result<ExceptionBreakpointsFilterV, ErrorV> {
    |v: JsonV|
        match v {
            JsonV::Object(e) => ExceptionBreakpointsFilterV::dec(e),
            _ => Err(errv("exceptionBreakpointFilters"@, Cause::MustBeObject)),
        }
}

/// Model of the element decoder for arrays of columns.
pub open spec fn column_elem() -> spec_fn(JsonV) -> Result<ColumnDescriptorV, ErrorV> {
    |v: JsonV|
        match v {
            JsonV::Object(e) => ColumnDescriptorV::dec(e),
            _ => Err(errv("additionalModuleColumns"@, Cause::MustBeObject)),
        }
}

/// Model of the element decoder for arrays of algorithm names.
pub open spec fn algorithm_elem() -> spec_fn(JsonV) -> Result<ChecksumAlgorithm, ErrorV> {
    |v: JsonV|
        match v {
            JsonV::Text(s) => ChecksumAlgorithm::spec_from(s),
            _ => Err(errv("supportedChecksumAlgorithms"@, Cause::MustBeString)),
        }
}

impl CapabilitiesV {
    /// The encoded entries of a capabilities record: `false` flags and
    /// empty lists never appear.
    pub open spec fn enc(self) -> Seq<(Seq<char>, JsonV)> {
        self.enc_part5(self.enc_part4(self.enc_part3(self.enc_part2(self.enc_part1(
            Seq::empty(),
        )))))
    }

    /// One stage of [`CapabilitiesV::enc`].
    pub open spec fn enc_part1(self, s0: Seq<(Seq<char>, JsonV)>) -> Seq<(Seq<char>, JsonV)> {
        let s = s0;
        let s = spec_attr_bool_optional(s, "supportsConfigurationDoneRequest"@, self.supports_configuration_done_request);
        let s = spec_attr_bool_optional(s, "supportsFunctionBreakpoints"@, self.supports_function_breakpoints);
        let s = spec_attr_bool_optional(s, "supportsConditionalBreakpoints"@, self.supports_conditional_breakpoints);
        let s = spec_attr_bool_optional(s, "supportsHitConditionalBreakpoints"@, self.supports_hit_conditional_breakpoints);
        let s = spec_attr_bool_optional(s, "supportsEvaluateForHovers"@, self.supports_evaluate_for_hovers);
        let s = spec_attr_array_optional(s, "exceptionBreakpointFilters"@, filter_enc_elems(self.exception_breakpoint_filters));
        let s = spec_attr_bool_optional(s, "supportsStepBack"@, self.supports_step_back);
        let s = spec_attr_bool_optional(s, "supportsSetVariable"@, self.supports_set_variable);
        s
    }

    /// One stage of [`CapabilitiesV::enc`].
    pub open spec fn enc_part2(self, s0: Seq<(Seq<char>, JsonV)>) -> Seq<(Seq<char>, JsonV)> {
        let s = s0;
        let s = spec_attr_bool_optional(s, "supportsRestartFrame"@, self.supports_restart_frame);
        let s = spec_attr_bool_optional(s, "supportsGotoTargetsRequest"@, self.supports_goto_targets_request);
        let s = spec_attr_bool_optional(s, "supportsStepInTargetsRequest"@, self.supports_step_in_targets_request);
        let s = spec_attr_bool_optional(s, "supportsCompletionsRequest"@, self.supports_completions_request);
        let s = spec_attr_array_optional(s, "completionTriggerCharacters"@, crate::utils::texts(self.completion_trigger_characters));
        let s = spec_attr_bool_optional(s, "supportsModulesRequest"@, self.supports_modules_request);
        let s = spec_attr_array_optional(s, "additionalModuleColumns"@, column_enc_elems(self.additional_module_columns));
        let s = spec_attr_array_optional(s, "supportedChecksumAlgorithms"@, algorithm_enc_elems(self.supported_checksum_algorithms));
        s
    }

    /// One stage of [`CapabilitiesV::enc`].
    pub open spec fn enc_part3(self, s0: Seq<(Seq<char>, JsonV)>) -> Seq<(Seq<char>, JsonV)> {
        let s = s0;
        let s = spec_attr_bool_optional(s, "supportsRestartRequest"@, self.supports_restart_request);
        let s = spec_attr_bool_optional(s, "supportsExceptionOptions"@, self.supports_exception_options);
        let s = spec_attr_bool_optional(s, "supportsValueFormattingOptions"@, self.supports_value_formatting_options);
        let s = spec_attr_bool_optional(s, "supportsExceptionInfoRequest"@, self.supports_exception_info_request);
        let s = spec_attr_bool_optional(s, "supportTerminateDebuggee"@, self.support_terminate_debuggee);
        let s = spec_attr_bool_optional(s, "supportSuspendDebuggee"@, self.support_suspend_debuggee);
        let s = spec_attr_bool_optional(s, "supportsDelayedStackTraceLoading"@, self.supports_delayed_stack_trace_loading);
        let s = spec_attr_bool_optional(s, "supportsLoadedSourcesRequest"@, self.supports_loaded_sources_request);
        s
    }

    /// One stage of [`CapabilitiesV::enc`].
    pub open spec fn enc_part4(self, s0: Seq<(Seq<char>, JsonV)>) -> Seq<(Seq<char>, JsonV)> {
        let s = s0;
        let s = spec_attr_bool_optional(s, "supportsLogPoints"@, self.supports_log_points);
        let s = spec_attr_bool_optional(s, "supportsTerminateThreadsRequest"@, self.supports_terminate_threads_request);
        let s = spec_attr_bool_optional(s, "supportsSetExpression"@, self.supports_set_expression);
        let s = spec_attr_bool_optional(s, "supportsTerminateRequest"@, self.supports_terminate_request);
        let s = spec_attr_bool_optional(s, "supportsDataBreakpoints"@, self.supports_data_breakpoints);
        let s = spec_attr_bool_optional(s, "supportsReadMemoryRequest"@, self.supports_read_memory_request);
        let s = spec_attr_bool_optional(s, "supportsWriteMemoryRequest"@, self.supports_write_memory_request);
        let s = spec_attr_bool_optional(s, "supportsDisassembleRequest"@, self.supports_disassemble_request);
        s
    }

    /// One stage of [`CapabilitiesV::enc`].
    pub open spec fn enc_part5(self, s0: Seq<(Seq<char>, JsonV)>) -> Seq<(Seq<char>, JsonV)> {
        let s = s0;
        let s = spec_attr_bool_optional(s, "supportsCancelRequest"@, self.supports_cancel_request);
        let s = spec_attr_bool_optional(s, "supportsBreakpointLocationsRequest"@, self.supports_breakpoint_locations_request);
        let s = spec_attr_bool_optional(s, "supportsClipboardContext"@, self.supports_clipboard_context);
        let s = spec_attr_bool_optional(s, "supportsSteppingGranularity"@, self.supports_stepping_granularity);
        let s = spec_attr_bool_optional(s, "supportsInstructionBreakpoints"@, self.supports_instruction_breakpoints);
        let s = spec_attr_bool_optional(s, "supportsExceptionFilterOptions"@, self.supports_exception_filter_options);
        let s = spec_attr_bool_optional(s, "supportsSingleThreadExecutionRequests"@, self.supports_single_thread_execution_requests);
        s
    }

    /// What decoding an object as a capabilities record yields.
    pub open spec fn dec(o: Seq<(Seq<char>, JsonV)>) -> Result<CapabilitiesV, ErrorV> {
        match Self::dec_part1(o) {
            Err(e) => Err(e),
            Ok((supports_configuration_done_request, supports_function_breakpoints, supports_conditional_breakpoints, supports_hit_conditional_breakpoints, supports_evaluate_for_hovers, exception_breakpoint_filters, supports_step_back, supports_set_variable)) =>
            match Self::dec_part2(o) {
                Err(e) => Err(e),
                Ok((supports_restart_frame, supports_goto_targets_request, supports_step_in_targets_request, supports_completions_request, completion_trigger_characters, supports_modules_request, additional_module_columns, supported_checksum_algorithms)) =>
                match Self::dec_part3(o) {
                    Err(e) => Err(e),
                    Ok((supports_restart_request, supports_exception_options, supports_value_formatting_options, supports_exception_info_request, support_terminate_debuggee, support_suspend_debuggee, supports_delayed_stack_trace_loading, supports_loaded_sources_request)) =>
                    match Self::dec_part4(o) {
                        Err(e) => Err(e),
                        Ok((supports_log_points, supports_terminate_threads_request, supports_set_expression, supports_terminate_request, supports_data_breakpoints, supports_read_memory_request, supports_write_memory_request, supports_disassemble_request)) =>
                        match Self::dec_part5(o) {
                            Err(e) => Err(e),
                            Ok((supports_cancel_request, supports_breakpoint_locations_request, supports_clipboard_context, supports_stepping_granularity, supports_instruction_breakpoints, supports_exception_filter_options, supports_single_thread_execution_requests)) =>
                            Ok(
                                CapabilitiesV {
                                    supports_configuration_done_request,
                                    supports_function_breakpoints,
                                    supports_conditional_breakpoints,
                                    supports_hit_conditional_breakpoints,
                                    supports_evaluate_for_hovers,
                                    exception_breakpoint_filters,
                                    supports_step_back,
                                    supports_set_variable,
                                    supports_restart_frame,
                                    supports_goto_targets_request,
                                    supports_step_in_targets_request,
                                    supports_completions_request,
                                    completion_trigger_characters,
                                    supports_modules_request,
                                    additional_module_columns,
                                    supported_checksum_algorithms,
                                    supports_restart_request,
                                    supports_exception_options,
                                    supports_value_formatting_options,
                                    supports_exception_info_request,
                                    support_terminate_debuggee,
                                    support_suspend_debuggee,
                                    supports_delayed_stack_trace_loading,
                                    supports_loaded_sources_request,
                                    supports_log_points,
                                    supports_terminate_threads_request,
                                    supports_set_expression,
                                    supports_terminate_request,
                                    supports_data_breakpoints,
                                    supports_read_memory_request,
                                    supports_write_memory_request,
                                    supports_disassemble_request,
                                    supports_cancel_request,
                                    supports_breakpoint_locations_request,
                                    supports_clipboard_context,
                                    supports_stepping_granularity,
                                    supports_instruction_breakpoints,
                                    supports_exception_filter_options,
                                    supports_single_thread_execution_requests,
                                },
                            )
                        }
                    }
                }
            }
        }
    }

    /// One stage of [`CapabilitiesV::dec`].
    pub open spec fn dec_part1(o: Seq<(Seq<char>, JsonV)>) -> Result<(bool, bool, bool, bool, bool, Seq<ExceptionBreakpointsFilterV>, bool, bool), ErrorV> {
        match spec_get_bool_optional(o, "supportsConfigurationDoneRequest"@) {
            Err(e) => Err(e),
            Ok(supports_configuration_done_request) =>
            match spec_get_bool_optional(o, "supportsFunctionBreakpoints"@) {
                Err(e) => Err(e),
                Ok(supports_function_breakpoints) =>
                match spec_get_bool_optional(o, "supportsConditionalBreakpoints"@) {
                    Err(e) => Err(e),
                    Ok(supports_conditional_breakpoints) =>
                    match spec_get_bool_optional(o, "supportsHitConditionalBreakpoints"@) {
                        Err(e) => Err(e),
                        Ok(supports_hit_conditional_breakpoints) =>
                        match spec_get_bool_optional(o, "supportsEvaluateForHovers"@) {
                            Err(e) => Err(e),
                            Ok(supports_evaluate_for_hovers) =>
                            match spec_dec_obj_array(o, "exceptionBreakpointFilters"@, filter_elem()) {
                                Err(e) => Err(e),
                                Ok(exception_breakpoint_filters) =>
                                match spec_get_bool_optional(o, "supportsStepBack"@) {
                                    Err(e) => Err(e),
                                    Ok(supports_step_back) =>
                                    match spec_get_bool_optional(o, "supportsSetVariable"@) {
                                        Err(e) => Err(e),
                                        Ok(supports_set_variable) =>
                                        Ok((supports_configuration_done_request, supports_function_breakpoints, supports_conditional_breakpoints, supports_hit_conditional_breakpoints, supports_evaluate_for_hovers, exception_breakpoint_filters, supports_step_back, supports_set_variable))
                                    }
                                }
                            }
                        }
                    }
                }
            }
        }
    }

    /// One stage of [`CapabilitiesV::dec`].
    pub open spec fn dec_part2(o: Seq<(Seq<char>, JsonV)>) -> Result<(bool, bool, bool, bool, Seq<Seq<char>>, bool, Seq<ColumnDescriptorV>, Seq<ChecksumAlgorithm>), ErrorV> {
        match spec_get_bool_optional(o, "supportsRestartFrame"@) {
            Err(e) => Err(e),
            Ok(supports_restart_frame) =>
            match spec_get_bool_optional(o, "supportsGotoTargetsRequest"@) {
                Err(e) => Err(e),
                Ok(supports_goto_targets_request) =>
                match spec_get_bool_optional(o, "supportsStepInTargetsRequest"@) {
                    Err(e) => Err(e),
                    Ok(supports_step_in_targets_request) =>
                    match spec_get_bool_optional(o, "supportsCompletionsRequest"@) {
                        Err(e) => Err(e),
                        Ok(supports_completions_request) =>
                        match crate::utils::spec_get_array_of_string_optional(o, "completionTriggerCharacters"@) {
                            Err(e) => Err(e),
                            Ok(completion_trigger_characters) =>
                            match spec_get_bool_optional(o, "supportsModulesRequest"@) {
                                Err(e) => Err(e),
                                Ok(supports_modules_request) =>
                                match spec_dec_obj_array(o, "additionalModuleColumns"@, column_elem()) {
                                    Err(e) => Err(e),
                                    Ok(additional_module_columns) =>
                                    match spec_dec_obj_array(o, "supportedChecksumAlgorithms"@, algorithm_elem()) {
                                        Err(e) => Err(e),
                                        Ok(supported_checksum_algorithms) =>
                                        Ok((supports_restart_frame, supports_goto_targets_request, supports_step_in_targets_request, supports_completions_request, completion_trigger_characters, supports_modules_request, additional_module_columns, supported_checksum_algorithms))
                                    }
                                }
                            }
                        }
                    }
                }
            }
        }
    }

    /// One stage of [`CapabilitiesV::dec`].
    pub open spec fn dec_part3(o: Seq<(Seq<char>, JsonV)>) -> Result<(bool, bool, bool, bool, bool, bool, bool, bool), ErrorV> {
        match spec_get_bool_optional(o, "supportsRestartRequest"@) {
            Err(e) => Err(e),
            Ok(supports_restart_request) =>
            match spec_get_bool_optional(o, "supportsExceptionOptions"@) {
                Err(e) => Err(e),
                Ok(supports_exception_options) =>
                match spec_get_bool_optional(o, "supportsValueFormattingOptions"@) {
                    Err(e) => Err(e),
                    Ok(supports_value_formatting_options) =>
                    match spec_get_bool_optional(o, "supportsExceptionInfoRequest"@) {
                        Err(e) => Err(e),
                        Ok(supports_exception_info_request) =>
                        match spec_get_bool_optional(o, "supportTerminateDebuggee"@) {
                            Err(e) => Err(e),
                            Ok(support_terminate_debuggee) =>
                            match spec_get_bool_optional(o, "supportSuspendDebuggee"@) {
                                Err(e) => Err(e),
                                Ok(support_suspend_debuggee) =>
                                match spec_get_bool_optional(o, "supportsDelayedStackTraceLoading"@) {
                                    Err(e) => Err(e),
                                    Ok(supports_delayed_stack_trace_loading) =>
                                    match spec_get_bool_optional(o, "supportsLoadedSourcesRequest"@) {
                                        Err(e) => Err(e),
                                        Ok(supports_loaded_sources_request) =>
                                        Ok((supports_restart_request, supports_exception_options, supports_value_formatting_options, supports_exception_info_request, support_terminate_debuggee, support_suspend_debuggee, supports_delayed_stack_trace_loading, supports_loaded_sources_request))
                                    }
                                }
                            }
                        }
                    }
                }
            }
        }
    }

    /// One stage of [`CapabilitiesV::dec`].
    pub open spec fn dec_part4(o: Seq<(Seq<char>, JsonV)>) -> Result<(bool, bool, bool, bool, bool, bool, bool, bool), ErrorV> {
        match spec_get_bool_optional(o, "supportsLogPoints"@) {
            Err(e) => Err(e),
            Ok(supports_log_points) =>
            match spec_get_bool_optional(o, "supportsTerminateThreadsRequest"@) {
                Err(e) => Err(e),
                Ok(supports_terminate_threads_request) =>
                match spec_get_bool_optional(o, "supportsSetExpression"@) {
                    Err(e) => Err(e),
                    Ok(supports_set_expression) =>
                    match spec_get_bool_optional(o, "supportsTerminateRequest"@) {
                        Err(e) => Err(e),
                        Ok(supports_terminate_request) =>
                        match spec_get_bool_optional(o, "supportsDataBreakpoints"@) {
                            Err(e) => Err(e),
                            Ok(supports_data_breakpoints) =>
                            match spec_get_bool_optional(o, "supportsReadMemoryRequest"@) {
                                Err(e) => Err(e),
                                Ok(supports_read_memory_request) =>
                                match spec_get_bool_optional(o, "supportsWriteMemoryRequest"@) {
                                    Err(e) => Err(e),
                                    Ok(supports_write_memory_request) =>
                                    match spec_get_bool_optional(o, "supportsDisassembleRequest"@) {
                                        Err(e) => Err(e),
                                        Ok(supports_disassemble_request) =>
                                        Ok((supports_log_points, supports_terminate_threads_request, supports_set_expression, supports_terminate_request, supports_data_breakpoints, supports_read_memory_request, supports_write_memory_request, supports_disassemble_request))
                                    }
                                }
                            }
                        }
                    }
                }
            }
        }
    }

    /// One stage of [`CapabilitiesV::dec`].
    pub open spec fn dec_part5(o: Seq<(Seq<char>, JsonV)>) -> Result<(bool, bool, bool, bool, bool, bool, bool), ErrorV> {
        match spec_get_bool_optional(o, "supportsCancelRequest"@) {
            Err(e) => Err(e),
            Ok(supports_cancel_request) =>
            match spec_get_bool_optional(o, "supportsBreakpointLocationsRequest"@) {
                Err(e) => Err(e),
                Ok(supports_breakpoint_locations_request) =>
                match spec_get_bool_optional(o, "supportsClipboardContext"@) {
                    Err(e) => Err(e),
                    Ok(supports_clipboard_context) =>
                    match spec_get_bool_optional(o, "supportsSteppingGranularity"@) {
                        Err(e) => Err(e),
                        Ok(supports_stepping_granularity) =>
                        match spec_get_bool_optional(o, "supportsInstructionBreakpoints"@) {
                            Err(e) => Err(e),
                            Ok(supports_instruction_breakpoints) =>
                            match spec_get_bool_optional(o, "supportsExceptionFilterOptions"@) {
                                Err(e) => Err(e),
                                Ok(supports_exception_filter_options) =>
                                match spec_get_bool_optional(o, "supportsSingleThreadExecutionRequests"@) {
                                    Err(e) => Err(e),
                                    Ok(supports_single_thread_execution_requests) =>
                                    Ok((supports_cancel_request, supports_breakpoint_locations_request, supports_clipboard_context, supports_stepping_granularity, supports_instruction_breakpoints, supports_exception_filter_options, supports_single_thread_execution_requests))
                                }
                            }
                        }
                    }
                }
            }
        }
    }

    /// The all-default record: every flag `false`, every list empty.
    pub open spec fn all_false() -> CapabilitiesV {
        CapabilitiesV {
            supports_configuration_done_request: false,
            supports_function_breakpoints: false,
            supports_conditional_breakpoints: false,
            supports_hit_conditional_breakpoints: false,
            supports_evaluate_for_hovers: false,
            exception_breakpoint_filters: Seq::empty(),
            supports_step_back: false,
            supports_set_variable: false,
            supports_restart_frame: false,
            supports_goto_targets_request: false,
            supports_step_in_targets_request: false,
            supports_completions_request: false,
            completion_trigger_characters: Seq::empty(),
            supports_modules_request: false,
            additional_module_columns: Seq::empty(),
            supported_checksum_algorithms: Seq::empty(),
            supports_restart_request: false,
            supports_exception_options: false,
            supports_value_formatting_options: false,
            supports_exception_info_request: false,
            support_terminate_debuggee: false,
            support_suspend_debuggee: false,
            supports_delayed_stack_trace_loading: false,
            supports_loaded_sources_request: false,
            supports_log_points: false,
            supports_terminate_threads_request: false,
            supports_set_expression: false,
            supports_terminate_request: false,
            supports_data_breakpoints: false,
            supports_read_memory_request: false,
            supports_write_memory_request: false,
            supports_disassemble_request: false,
            supports_cancel_request: false,
            supports_breakpoint_locations_request: false,
            supports_clipboard_context: false,
            supports_stepping_granularity: false,
            supports_instruction_breakpoints: false,
            supports_exception_filter_options: false,
            supports_single_thread_execution_requests: false,
        }
    }
}

/// Decoding an optional array attribute element by element; absent means
/// empty.
pub open spec fn spec_dec_obj_array<T>(
    o: Seq<(Seq<char>, JsonV)>,
    attr: Seq<char>,
    f: spec_fn(JsonV) -> Result<T, ErrorV>,
) -> Result<Seq<T>, ErrorV> {
    match spec_get_array_optional(o, attr) {
        Err(e) => Err(e),
        Ok(None) => Ok(Seq::empty()),
        Ok(Some(a)) => dec_seq(a, f),
    }
}

/// Decodes the `exceptionBreakpointFilters` attribute; absent means empty.
fn dec_filters(o: &JsonObject) -> (r: Result<Vec<ExceptionBreakpointsFilter>, Error>)
    ensures
        match r {
            Ok(v) => spec_dec_obj_array(entries_dv(o@), "exceptionBreakpointFilters"@, filter_elem()) == Ok::<_, ErrorV>(
                v.deep_view(),
            ),
            Err(e) => spec_dec_obj_array(entries_dv(o@), "exceptionBreakpointFilters"@, filter_elem()) == Err::<
                Seq<ExceptionBreakpointsFilterV>,
                _,
            >(e.deep_view()),
        },
{
    let a = match crate::json::obj_get(o, "exceptionBreakpointFilters") {
        None => {
            let v: Vec<ExceptionBreakpointsFilter> = Vec::new();
            proof {
                assert(v.deep_view() =~= Seq::<ExceptionBreakpointsFilterV>::empty());
            }
            return Ok(v);
        },
        Some(Json::Array(a)) => a,
        Some(_) => {
            return Err(Error::new("exceptionBreakpointFilters", Cause::MustBeArray));
        },
    };
    let mut out: Vec<ExceptionBreakpointsFilter> = Vec::new();
    let mut i: usize = 0;
    proof {
        assert(elems_dv(a@).take(0) =~= Seq::<JsonV>::empty());
        assert(out.deep_view() =~= Seq::<ExceptionBreakpointsFilterV>::empty());
    }
    while i < a.len()
        invariant
            i <= a.len(),
            lookup(entries_dv(o@), "exceptionBreakpointFilters"@) == Some(JsonV::Array(elems_dv(a@))),
            dec_seq(elems_dv(a@).take(i as int), filter_elem()) == Ok::<_, ErrorV>(out.deep_view()),
        decreases a.len() - i,
    {
        let ghost pre = elems_dv(a@).take(i as int);
        proof {
            assert(elems_dv(a@).take(i + 1) =~= pre.push(elems_dv(a@)[i as int]));
            lemma_dec_seq_push(pre, elems_dv(a@)[i as int], filter_elem());
        }
        match &a[i] {
            Json::Object(e) => {
                match ExceptionBreakpointsFilter::try_from(e) {
                    Ok(c) => {
                        out.push(c);
                        proof {
                            assert(out.deep_view() =~= dec_seq(
                                elems_dv(a@).take(i + 1),
                                filter_elem(),
                            )->Ok_0);
                        }
                    },
                    Err(er) => {
                        proof {
                            lemma_dec_seq_err_prefix(elems_dv(a@), i + 1, filter_elem());
                        }
                        return Err(er);
                    },
                }
            },
            _ => {
                proof {
                    lemma_dec_seq_err_prefix(elems_dv(a@), i + 1, filter_elem());
                }
                return Err(Error::new("exceptionBreakpointFilters", Cause::MustBeObject));
            },
        }
        i += 1;
    }
    proof {
        assert(elems_dv(a@).take(a@.len() as int) =~= elems_dv(a@));
    }
    Ok(out)
}

/// Decodes the `additionalModuleColumns` attribute; absent means empty.
fn dec_columns(o: &JsonObject) -> (r: Result<Vec<ColumnDescriptor>, Error>)
    ensures
        match r {
            Ok(v) => spec_dec_obj_array(entries_dv(o@), "additionalModuleColumns"@, column_elem()) == Ok::<_, ErrorV>(
                v.deep_view(),
            ),
            Err(e) => spec_dec_obj_array(entries_dv(o@), "additionalModuleColumns"@, column_elem()) == Err::<
                Seq<ColumnDescriptorV>,
                _,
            >(e.deep_view()),
        },
{
    let a = match crate::json::obj_get(o, "additionalModuleColumns") {
        None => {
            let v: Vec<ColumnDescriptor> = Vec::new();
            proof {
                assert(v.deep_view() =~= Seq::<ColumnDescriptorV>::empty());
            }
            return Ok(v);
        },
        Some(Json::Array(a)) => a,
        Some(_) => {
            return Err(Error::new("additionalModuleColumns", Cause::MustBeArray));
        },
    };
    let mut out: Vec<ColumnDescriptor> = Vec::new();
    let mut i: usize = 0;
    proof {
        assert(elems_dv(a@).take(0) =~= Seq::<JsonV>::empty());
        assert(out.deep_view() =~= Seq::<ColumnDescriptorV>::empty());
    }
    while i < a.len()
        invariant
            i <= a.len(),
            lookup(entries_dv(o@), "additionalModuleColumns"@) == Some(JsonV::Array(elems_dv(a@))),
            dec_seq(elems_dv(a@).take(i as int), column_elem()) == Ok::<_, ErrorV>(out.deep_view()),
        decreases a.len() - i,
    {
        let ghost pre = elems_dv(a@).take(i as int);
        proof {
            assert(elems_dv(a@).take(i + 1) =~= pre.push(elems_dv(a@)[i as int]));
            lemma_dec_seq_push(pre, elems_dv(a@)[i as int], column_elem());
        }
        match &a[i] {
            Json::Object(e) => {
                match ColumnDescriptor::try_from(e) {
                    Ok(c) => {
                        out.push(c);
                        proof {
                            assert(out.deep_view() =~= dec_seq(
                                elems_dv(a@).take(i + 1),
                                column_elem(),
                            )->Ok_0);
                        }
                    },
                    Err(er) => {
                        proof {
                            lemma_dec_seq_err_prefix(elems_dv(a@), i + 1, column_elem());
                        }
                        return Err(er);
                    },
                }
            },
            _ => {
                proof {
                    lemma_dec_seq_err_prefix(elems_dv(a@), i + 1, column_elem());
                }
                return Err(Error::new("additionalModuleColumns", Cause::MustBeObject));
            },
        }
        i += 1;
    }
    proof {
        assert(elems_dv(a@).take(a@.len() as int) =~= elems_dv(a@));
    }
    Ok(out)
}

/// Decodes the `supportedChecksumAlgorithms` attribute; absent means empty.
fn dec_algorithms(o: &JsonObject) -> (r: Result<Vec<ChecksumAlgorithm>, Error>)
    ensures
        match r {
            Ok(v) => spec_dec_obj_array(entries_dv(o@), "supportedChecksumAlgorithms"@, algorithm_elem()) == Ok::<_, ErrorV>(
                v.deep_view(),
            ),
            Err(e) => spec_dec_obj_array(entries_dv(o@), "supportedChecksumAlgorithms"@, algorithm_elem()) == Err::<
                Seq<ChecksumAlgorithm>,
                _,
            >(e.deep_view()),
        },
{
    let a = match crate::json::obj_get(o, "supportedChecksumAlgorithms") {
        None => {
            let v: Vec<ChecksumAlgorithm> = Vec::new();
            proof {
                assert(v.deep_view() =~= Seq::<ChecksumAlgorithm>::empty());
            }
            return Ok(v);
        },
        Some(Json::Array(a)) => a,
        Some(_) => {
            return Err(Error::new("supportedChecksumAlgorithms", Cause::MustBeArray));
        },
    };
    let mut out: Vec<ChecksumAlgorithm> = Vec::new();
    let mut i: usize = 0;
    proof {
        assert(elems_dv(a@).take(0) =~= Seq::<JsonV>::empty());
        assert(out.deep_view() =~= Seq::<ChecksumAlgorithm>::empty());
    }
    while i < a.len()
        invariant
            i <= a.len(),
            lookup(entries_dv(o@), "supportedChecksumAlgorithms"@) == Some(JsonV::Array(elems_dv(a@))),
            dec_seq(elems_dv(a@).take(i as int), algorithm_elem()) == Ok::<_, ErrorV>(out.deep_view()),
        decreases a.len() - i,
    {
        let ghost pre = elems_dv(a@).take(i as int);
        proof {
            assert(elems_dv(a@).take(i + 1) =~= pre.push(elems_dv(a@)[i as int]));
            lemma_dec_seq_push(pre, elems_dv(a@)[i as int], algorithm_elem());
        }
        match &a[i] {
            Json::Text(s) => {
                match ChecksumAlgorithm::try_from(s.as_str()) {
                    Ok(c) => {
                        out.push(c);
                        proof {
                            assert(out.deep_view() =~= dec_seq(
                                elems_dv(a@).take(i + 1),
                                algorithm_elem(),
                            )->Ok_0);
                        }
                    },
                    Err(er) => {
                        proof {
                            lemma_dec_seq_err_prefix(elems_dv(a@), i + 1, algorithm_elem());
                        }
                        return Err(er);
                    },
                }
            },
            _ => {
                proof {
                    lemma_dec_seq_err_prefix(elems_dv(a@), i + 1, algorithm_elem());
                }
                return Err(Error::new("supportedChecksumAlgorithms", Cause::MustBeString));
            },
        }
        i += 1;
    }
    proof {
        assert(elems_dv(a@).take(a@.len() as int) =~= elems_dv(a@));
    }
    Ok(out)
}

/// Turns exception breakpoint filters into JSON array elements.
fn filters_into_json(v: Vec<ExceptionBreakpointsFilter>) -> (r: Vec<Json>)
    ensures
        elems_dv(r@) == filter_enc_elems(v.deep_view()),
{
    let ghost vdv = v.deep_view();
    let mut out: Vec<Json> = Vec::new();
    let mut i: usize = 0;
    let n = v.len();
    let mut v = v;
    proof {
        assert(v.deep_view() =~= vdv);
        assert(elems_dv(out@) =~= filter_enc_elems(vdv).take(0));
    }
    while i < n
        invariant
            i <= n,
            n == vdv.len(),
            v@.len() == n - i,
            forall|j: int| #![trigger v@[j]] 0 <= j < v@.len() ==> v@[j].deep_view() == vdv[i + j],
            elems_dv(out@) =~= filter_enc_elems(vdv).take(i as int),
        decreases n - i,
    {
        let c = v.remove(0);
        let j = c.into_json();
        out.push(j);
        i += 1;
        proof {
            assert(elems_dv(out@) =~= filter_enc_elems(vdv).take(i as int));
        }
    }
    proof {
        assert(filter_enc_elems(vdv).take(n as int) =~= filter_enc_elems(vdv));
    }
    out
}

/// Turns module columns into JSON array elements.
fn columns_into_json(v: Vec<ColumnDescriptor>) -> (r: Vec<Json>)
    ensures
        elems_dv(r@) == column_enc_elems(v.deep_view()),
{
    let ghost vdv = v.deep_view();
    let mut out: Vec<Json> = Vec::new();
    let mut i: usize = 0;
    let n = v.len();
    let mut v = v;
    proof {
        assert(v.deep_view() =~= vdv);
        assert(elems_dv(out@) =~= column_enc_elems(vdv).take(0));
    }
    while i < n
        invariant
            i <= n,
            n == vdv.len(),
            v@.len() == n - i,
            forall|j: int| #![trigger v@[j]] 0 <= j < v@.len() ==> v@[j].deep_view() == vdv[i + j],
            elems_dv(out@) =~= column_enc_elems(vdv).take(i as int),
        decreases n - i,
    {
        let c = v.remove(0);
        let j = c.into_json();
        out.push(j);
        i += 1;
        proof {
            assert(elems_dv(out@) =~= column_enc_elems(vdv).take(i as int));
        }
    }
    proof {
        assert(column_enc_elems(vdv).take(n as int) =~= column_enc_elems(vdv));
    }
    out
}

/// Turns checksum algorithms into JSON array elements.
fn algorithms_into_json(v: Vec<ChecksumAlgorithm>) -> (r: Vec<Json>)
    ensures
        elems_dv(r@) == algorithm_enc_elems(v.deep_view()),
{
    let ghost vdv = v.deep_view();
    let mut out: Vec<Json> = Vec::new();
    let mut i: usize = 0;
    let n = v.len();
    let mut v = v;
    proof {
        assert(v.deep_view() =~= vdv);
        assert(elems_dv(out@) =~= algorithm_enc_elems(vdv).take(0));
    }
    while i < n
        invariant
            i <= n,
            n == vdv.len(),
            v@.len() == n - i,
            forall|j: int| #![trigger v@[j]] 0 <= j < v@.len() ==> v@[j].deep_view() == vdv[i + j],
            elems_dv(out@) =~= algorithm_enc_elems(vdv).take(i as int),
        decreases n - i,
    {
        let c = v.remove(0);
        let j = Json::Text(c.as_str().to_owned());
        out.push(j);
        i += 1;
        proof {
            assert(elems_dv(out@) =~= algorithm_enc_elems(vdv).take(i as int));
        }
    }
    proof {
        assert(algorithm_enc_elems(vdv).take(n as int) =~= algorithm_enc_elems(vdv));
    }
    out
}

/// One stage of the capabilities encoder.
#[verifier::rlimit(50)]
fn enc_caps_part1(o: &mut JsonObject, c: Ghost<CapabilitiesV>, supports_configuration_done_request: bool, supports_function_breakpoints: bool, supports_conditional_breakpoints: bool, supports_hit_conditional_breakpoints: bool, supports_evaluate_for_hovers: bool, exception_breakpoint_filters: Vec<ExceptionBreakpointsFilter>, supports_step_back: bool, supports_set_variable: bool)
    requires
        supports_configuration_done_request == c@.supports_configuration_done_request,
        supports_function_breakpoints == c@.supports_function_breakpoints,
        supports_conditional_breakpoints == c@.supports_conditional_breakpoints,
        supports_hit_conditional_breakpoints == c@.supports_hit_conditional_breakpoints,
        supports_evaluate_for_hovers == c@.supports_evaluate_for_hovers,
        exception_breakpoint_filters.deep_view() == c@.exception_breakpoint_filters,
        supports_step_back == c@.supports_step_back,
        supports_set_variable == c@.supports_set_variable,
    ensures
        entries_dv(final(o)@) == c@.enc_part1(entries_dv(old(o)@)),
{
    attribute_bool_optional(o, "supportsConfigurationDoneRequest", supports_configuration_done_request);
    attribute_bool_optional(o, "supportsFunctionBreakpoints", supports_function_breakpoints);
    attribute_bool_optional(o, "supportsConditionalBreakpoints", supports_conditional_breakpoints);
    attribute_bool_optional(o, "supportsHitConditionalBreakpoints", supports_hit_conditional_breakpoints);
    attribute_bool_optional(o, "supportsEvaluateForHovers", supports_evaluate_for_hovers);
    let elems = filters_into_json(exception_breakpoint_filters);
    attribute_array_optional(o, "exceptionBreakpointFilters", elems);
    attribute_bool_optional(o, "supportsStepBack", supports_step_back);
    attribute_bool_optional(o, "supportsSetVariable", supports_set_variable);
}

/// One stage of the capabilities encoder.
#[verifier::rlimit(50)]
fn enc_caps_part2(o: &mut JsonObject, c: Ghost<CapabilitiesV>, supports_restart_frame: bool, supports_goto_targets_request: bool, supports_step_in_targets_request: bool, supports_completions_request: bool, completion_trigger_characters: Vec<String>, supports_modules_request: bool, additional_module_columns: Vec<ColumnDescriptor>, supported_checksum_algorithms: Vec<ChecksumAlgorithm>)
    requires
        supports_restart_frame == c@.supports_restart_frame,
        supports_goto_targets_request == c@.supports_goto_targets_request,
        supports_step_in_targets_request == c@.supports_step_in_targets_request,
        supports_completions_request == c@.supports_completions_request,
        completion_trigger_characters.deep_view() == c@.completion_trigger_characters,
        supports_modules_request == c@.supports_modules_request,
        additional_module_columns.deep_view() == c@.additional_module_columns,
        supported_checksum_algorithms.deep_view() == c@.supported_checksum_algorithms,
    ensures
        entries_dv(final(o)@) == c@.enc_part2(entries_dv(old(o)@)),
{
    attribute_bool_optional(o, "supportsRestartFrame", supports_restart_frame);
    attribute_bool_optional(o, "supportsGotoTargetsRequest", supports_goto_targets_request);
    attribute_bool_optional(o, "supportsStepInTargetsRequest", supports_step_in_targets_request);
    attribute_bool_optional(o, "supportsCompletionsRequest", supports_completions_request);
    let elems = crate::utils::texts_to_json(completion_trigger_characters);
    attribute_array_optional(o, "completionTriggerCharacters", elems);
    attribute_bool_optional(o, "supportsModulesRequest", supports_modules_request);
    let elems = columns_into_json(additional_module_columns);
    attribute_array_optional(o, "additionalModuleColumns", elems);
    let elems = algorithms_into_json(supported_checksum_algorithms);
    attribute_array_optional(o, "supportedChecksumAlgorithms", elems);
}

/// One stage of the capabilities encoder.
#[verifier::rlimit(50)]
fn enc_caps_part3(o: &mut JsonObject, c: Ghost<CapabilitiesV>, supports_restart_request: bool, supports_exception_options: bool, supports_value_formatting_options: bool, supports_exception_info_request: bool, support_terminate_debuggee: bool, support_suspend_debuggee: bool, supports_delayed_stack_trace_loading: bool, supports_loaded_sources_request: bool)
    requires
        supports_restart_request == c@.supports_restart_request,
        supports_exception_options == c@.supports_exception_options,
        supports_value_formatting_options == c@.supports_value_formatting_options,
        supports_exception_info_request == c@.supports_exception_info_request,
        support_terminate_debuggee == c@.support_terminate_debuggee,
        support_suspend_debuggee == c@.support_suspend_debuggee,
        supports_delayed_stack_trace_loading == c@.supports_delayed_stack_trace_loading,
        supports_loaded_sources_request == c@.supports_loaded_sources_request,
    ensures
        entries_dv(final(o)@) == c@.enc_part3(entries_dv(old(o)@)),
{
    attribute_bool_optional(o, "supportsRestartRequest", supports_restart_request);
    attribute_bool_optional(o, "supportsExceptionOptions", supports_exception_options);
    attribute_bool_optional(o, "supportsValueFormattingOptions", supports_value_formatting_options);
    attribute_bool_optional(o, "supportsExceptionInfoRequest", supports_exception_info_request);
    attribute_bool_optional(o, "supportTerminateDebuggee", support_terminate_debuggee);
    attribute_bool_optional(o, "supportSuspendDebuggee", support_suspend_debuggee);
    attribute_bool_optional(o, "supportsDelayedStackTraceLoading", supports_delayed_stack_trace_loading);
    attribute_bool_optional(o, "supportsLoadedSourcesRequest", supports_loaded_sources_request);
}

/// One stage of the capabilities encoder.
#[verifier::rlimit(50)]
fn enc_caps_part4(o: &mut JsonObject, c: Ghost<CapabilitiesV>, supports_log_points: bool, supports_terminate_threads_request: bool, supports_set_expression: bool, supports_terminate_request: bool, supports_data_breakpoints: bool, supports_read_memory_request: bool, supports_write_memory_request: bool, supports_disassemble_request: bool)
    requires
        supports_log_points == c@.supports_log_points,
        supports_terminate_threads_request == c@.supports_terminate_threads_request,
        supports_set_expression == c@.supports_set_expression,
        supports_terminate_request == c@.supports_terminate_request,
        supports_data_breakpoints == c@.supports_data_breakpoints,
        supports_read_memory_request == c@.supports_read_memory_request,
        supports_write_memory_request == c@.supports_write_memory_request,
        supports_disassemble_request == c@.supports_disassemble_request,
    ensures
        entries_dv(final(o)@) == c@.enc_part4(entries_dv(old(o)@)),
{
    attribute_bool_optional(o, "supportsLogPoints", supports_log_points);
    attribute_bool_optional(o, "supportsTerminateThreadsRequest", supports_terminate_threads_request);
    attribute_bool_optional(o, "supportsSetExpression", supports_set_expression);
    attribute_bool_optional(o, "supportsTerminateRequest", supports_terminate_request);
    attribute_bool_optional(o, "supportsDataBreakpoints", supports_data_breakpoints);
    attribute_bool_optional(o, "supportsReadMemoryRequest", supports_read_memory_request);
    attribute_bool_optional(o, "supportsWriteMemoryRequest", supports_write_memory_request);
    attribute_bool_optional(o, "supportsDisassembleRequest", supports_disassemble_request);
}

/// One stage of the capabilities encoder.
#[verifier::rlimit(50)]
fn enc_caps_part5(o: &mut JsonObject, c: Ghost<CapabilitiesV>, supports_cancel_request: bool, supports_breakpoint_locations_request: bool, supports_clipboard_context: bool, supports_stepping_granularity: bool, supports_instruction_breakpoints: bool, supports_exception_filter_options: bool, supports_single_thread_execution_requests: bool)
    requires
        supports_cancel_request == c@.supports_cancel_request,
        supports_breakpoint_locations_request == c@.supports_breakpoint_locations_request,
        supports_clipboard_context == c@.supports_clipboard_context,
        supports_stepping_granularity == c@.supports_stepping_granularity,
        supports_instruction_breakpoints == c@.supports_instruction_breakpoints,
        supports_exception_filter_options == c@.supports_exception_filter_options,
        supports_single_thread_execution_requests == c@.supports_single_thread_execution_requests,
    ensures
        entries_dv(final(o)@) == c@.enc_part5(entries_dv(old(o)@)),
{
    attribute_bool_optional(o, "supportsCancelRequest", supports_cancel_request);
    attribute_bool_optional(o, "supportsBreakpointLocationsRequest", supports_breakpoint_locations_request);
    attribute_bool_optional(o, "supportsClipboardContext", supports_clipboard_context);
    attribute_bool_optional(o, "supportsSteppingGranularity", supports_stepping_granularity);
    attribute_bool_optional(o, "supportsInstructionBreakpoints", supports_instruction_breakpoints);
    attribute_bool_optional(o, "supportsExceptionFilterOptions", supports_exception_filter_options);
    attribute_bool_optional(o, "supportsSingleThreadExecutionRequests", supports_single_thread_execution_requests);
}

/// One stage of the capabilities decoder.
#[verifier::rlimit(50)]
fn dec_caps_part1(o: &JsonObject) -> (r: Result<(bool, bool, bool, bool, bool, Vec<ExceptionBreakpointsFilter>, bool, bool), Error>)
    ensures
        rdv(r) == CapabilitiesV::dec_part1(entries_dv(o@)),
{
    let supports_configuration_done_request = get_bool_optional(o, "supportsConfigurationDoneRequest")?;
    let supports_function_breakpoints = get_bool_optional(o, "supportsFunctionBreakpoints")?;
    let supports_conditional_breakpoints = get_bool_optional(o, "supportsConditionalBreakpoints")?;
    let supports_hit_conditional_breakpoints = get_bool_optional(o, "supportsHitConditionalBreakpoints")?;
    let supports_evaluate_for_hovers = get_bool_optional(o, "supportsEvaluateForHovers")?;
    let exception_breakpoint_filters = dec_filters(o)?;
    let supports_step_back = get_bool_optional(o, "supportsStepBack")?;
    let supports_set_variable = get_bool_optional(o, "supportsSetVariable")?;
    Ok((supports_configuration_done_request, supports_function_breakpoints, supports_conditional_breakpoints, supports_hit_conditional_breakpoints, supports_evaluate_for_hovers, exception_breakpoint_filters, supports_step_back, supports_set_variable))
}

/// One stage of the capabilities decoder.
#[verifier::rlimit(50)]
fn dec_caps_part2(o: &JsonObject) -> (r: Result<(bool, bool, bool, bool, Vec<String>, bool, Vec<ColumnDescriptor>, Vec<ChecksumAlgorithm>), Error>)
    ensures
        rdv(r) == CapabilitiesV::dec_part2(entries_dv(o@)),
{
    let supports_restart_frame = get_bool_optional(o, "supportsRestartFrame")?;
    let supports_goto_targets_request = get_bool_optional(o, "supportsGotoTargetsRequest")?;
    let supports_step_in_targets_request = get_bool_optional(o, "supportsStepInTargetsRequest")?;
    let supports_completions_request = get_bool_optional(o, "supportsCompletionsRequest")?;
    let completion_trigger_characters = crate::utils::get_array_of_string_optional(o, "completionTriggerCharacters")?;
    let supports_modules_request = get_bool_optional(o, "supportsModulesRequest")?;
    let additional_module_columns = dec_columns(o)?;
    let supported_checksum_algorithms = dec_algorithms(o)?;
    Ok((supports_restart_frame, supports_goto_targets_request, supports_step_in_targets_request, supports_completions_request, completion_trigger_characters, supports_modules_request, additional_module_columns, supported_checksum_algorithms))
}

/// One stage of the capabilities decoder.
#[verifier::rlimit(50)]
fn dec_caps_part3(o: &JsonObject) -> (r: Result<(bool, bool, bool, bool, bool, bool, bool, bool), Error>)
    ensures
        rdv(r) == CapabilitiesV::dec_part3(entries_dv(o@)),
{
    let supports_restart_request = get_bool_optional(o, "supportsRestartRequest")?;
    let supports_exception_options = get_bool_optional(o, "supportsExceptionOptions")?;
    let supports_value_formatting_options = get_bool_optional(o, "supportsValueFormattingOptions")?;
    let supports_exception_info_request = get_bool_optional(o, "supportsExceptionInfoRequest")?;
    let support_terminate_debuggee = get_bool_optional(o, "supportTerminateDebuggee")?;
    let support_suspend_debuggee = get_bool_optional(o, "supportSuspendDebuggee")?;
    let supports_delayed_stack_trace_loading = get_bool_optional(o, "supportsDelayedStackTraceLoading")?;
    let supports_loaded_sources_request = get_bool_optional(o, "supportsLoadedSourcesRequest")?;
    Ok((supports_restart_request, supports_exception_options, supports_value_formatting_options, supports_exception_info_request, support_terminate_debuggee, support_suspend_debuggee, supports_delayed_stack_trace_loading, supports_loaded_sources_request))
}

/// One stage of the capabilities decoder.
#[verifier::rlimit(50)]
fn dec_caps_part4(o: &JsonObject) -> (r: Result<(bool, bool, bool, bool, bool, bool, bool, bool), Error>)
    ensures
        rdv(r) == CapabilitiesV::dec_part4(entries_dv(o@)),
{
    let supports_log_points = get_bool_optional(o, "supportsLogPoints")?;
    let supports_terminate_threads_request = get_bool_optional(o, "supportsTerminateThreadsRequest")?;
    let supports_set_expression = get_bool_optional(o, "supportsSetExpression")?;
    let supports_terminate_request = get_bool_optional(o, "supportsTerminateRequest")?;
    let supports_data_breakpoints = get_bool_optional(o, "supportsDataBreakpoints")?;
    let supports_read_memory_request = get_bool_optional(o, "supportsReadMemoryRequest")?;
    let supports_write_memory_request = get_bool_optional(o, "supportsWriteMemoryRequest")?;
    let supports_disassemble_request = get_bool_optional(o, "supportsDisassembleRequest")?;
    Ok((supports_log_points, supports_terminate_threads_request, supports_set_expression, supports_terminate_request, supports_data_breakpoints, supports_read_memory_request, supports_write_memory_request, supports_disassemble_request))
}

/// One stage of the capabilities decoder.
#[verifier::rlimit(50)]
fn dec_caps_part5(o: &JsonObject) -> (r: Result<(bool, bool, bool, bool, bool, bool, bool), Error>)
    ensures
        rdv(r) == CapabilitiesV::dec_part5(entries_dv(o@)),
{
    let supports_cancel_request = get_bool_optional(o, "supportsCancelRequest")?;
    let supports_breakpoint_locations_request = get_bool_optional(o, "supportsBreakpointLocationsRequest")?;
    let supports_clipboard_context = get_bool_optional(o, "supportsClipboardContext")?;
    let supports_stepping_granularity = get_bool_optional(o, "supportsSteppingGranularity")?;
    let supports_instruction_breakpoints = get_bool_optional(o, "supportsInstructionBreakpoints")?;
    let supports_exception_filter_options = get_bool_optional(o, "supportsExceptionFilterOptions")?;
    let supports_single_thread_execution_requests = get_bool_optional(o, "supportsSingleThreadExecutionRequests")?;
    Ok((supports_cancel_request, supports_breakpoint_locations_request, supports_clipboard_context, supports_stepping_granularity, supports_instruction_breakpoints, supports_exception_filter_options, supports_single_thread_execution_requests))
}

impl Capabilities {
    /// Encodes this capabilities record as a JSON object.
    pub fn into_json(self) -> (r: Json)
        ensures
            r.deep_view() == JsonV::Object(self.deep_view().enc()),
    {
        let ghost cdv = self.deep_view();
        let Capabilities {
            supports_configuration_done_request,
            supports_function_breakpoints,
            supports_conditional_breakpoints,
            supports_hit_conditional_breakpoints,
            supports_evaluate_for_hovers,
            exception_breakpoint_filters,
            supports_step_back,
            supports_set_variable,
            supports_restart_frame,
            supports_goto_targets_request,
            supports_step_in_targets_request,
            supports_completions_request,
            completion_trigger_characters,
            supports_modules_request,
            additional_module_columns,
            supported_checksum_algorithms,
            supports_restart_request,
            supports_exception_options,
            supports_value_formatting_options,
            supports_exception_info_request,
            support_terminate_debuggee,
            support_suspend_debuggee,
            supports_delayed_stack_trace_loading,
            supports_loaded_sources_request,
            supports_log_points,
            supports_terminate_threads_request,
            supports_set_expression,
            supports_terminate_request,
            supports_data_breakpoints,
            supports_read_memory_request,
            supports_write_memory_request,
            supports_disassemble_request,
            supports_cancel_request,
            supports_breakpoint_locations_request,
            supports_clipboard_context,
            supports_stepping_granularity,
            supports_instruction_breakpoints,
            supports_exception_filter_options,
            supports_single_thread_execution_requests,
        } = self;
        let mut o: JsonObject = Vec::new();
        proof {
            assert(entries_dv(o@) =~= Seq::<(Seq<char>, JsonV)>::empty());
        }
        enc_caps_part1(&mut o, Ghost(cdv), supports_configuration_done_request, supports_function_breakpoints, supports_conditional_breakpoints, supports_hit_conditional_breakpoints, supports_evaluate_for_hovers, exception_breakpoint_filters, supports_step_back, supports_set_variable);
        enc_caps_part2(&mut o, Ghost(cdv), supports_restart_frame, supports_goto_targets_request, supports_step_in_targets_request, supports_completions_request, completion_trigger_characters, supports_modules_request, additional_module_columns, supported_checksum_algorithms);
        enc_caps_part3(&mut o, Ghost(cdv), supports_restart_request, supports_exception_options, supports_value_formatting_options, supports_exception_info_request, support_terminate_debuggee, support_suspend_debuggee, supports_delayed_stack_trace_loading, supports_loaded_sources_request);
        enc_caps_part4(&mut o, Ghost(cdv), supports_log_points, supports_terminate_threads_request, supports_set_expression, supports_terminate_request, supports_data_breakpoints, supports_read_memory_request, supports_write_memory_request, supports_disassemble_request);
        enc_caps_part5(&mut o, Ghost(cdv), supports_cancel_request, supports_breakpoint_locations_request, supports_clipboard_context, supports_stepping_granularity, supports_instruction_breakpoints, supports_exception_filter_options, supports_single_thread_execution_requests);
        Json::Object(o)
    }

    /// Decodes a JSON object as a capabilities record.
    pub fn try_from(o: &JsonObject) -> (r: Result<Capabilities, Error>)
        ensures
            rdv(r) == CapabilitiesV::dec(entries_dv(o@)),
    {
        let (supports_configuration_done_request, supports_function_breakpoints, supports_conditional_breakpoints, supports_hit_conditional_breakpoints, supports_evaluate_for_hovers, exception_breakpoint_filters, supports_step_back, supports_set_variable) = match dec_caps_part1(o) {
            Ok(t) => t,
            Err(e) => {
                return Err(e);
            },
        };
        let (supports_restart_frame, supports_goto_targets_request, supports_step_in_targets_request, supports_completions_request, completion_trigger_characters, supports_modules_request, additional_module_columns, supported_checksum_algorithms) = match dec_caps_part2(o) {
            Ok(t) => t,
            Err(e) => {
                return Err(e);
            },
        };
        let (supports_restart_request, supports_exception_options, supports_value_formatting_options, supports_exception_info_request, support_terminate_debuggee, support_suspend_debuggee, supports_delayed_stack_trace_loading, supports_loaded_sources_request) = match dec_caps_part3(o) {
            Ok(t) => t,
            Err(e) => {
                return Err(e);
            },
        };
        let (supports_log_points, supports_terminate_threads_request, supports_set_expression, supports_terminate_request, supports_data_breakpoints, supports_read_memory_request, supports_write_memory_request, supports_disassemble_request) = match dec_caps_part4(o) {
            Ok(t) => t,
            Err(e) => {
                return Err(e);
            },
        };
        let (supports_cancel_request, supports_breakpoint_locations_request, supports_clipboard_context, supports_stepping_granularity, supports_instruction_breakpoints, supports_exception_filter_options, supports_single_thread_execution_requests) = match dec_caps_part5(o) {
            Ok(t) => t,
            Err(e) => {
                return Err(e);
            },
        };
        Ok(
            Capabilities {
                supports_configuration_done_request,
                supports_function_breakpoints,
                supports_conditional_breakpoints,
                supports_hit_conditional_breakpoints,
                supports_evaluate_for_hovers,
                exception_breakpoint_filters,
                supports_step_back,
                supports_set_variable,
                supports_restart_frame,
                supports_goto_targets_request,
                supports_step_in_targets_request,
                supports_completions_request,
                completion_trigger_characters,
                supports_modules_request,
                additional_module_columns,
                supported_checksum_algorithms,
                supports_restart_request,
                supports_exception_options,
                supports_value_formatting_options,
                supports_exception_info_request,
                support_terminate_debuggee,
                support_suspend_debuggee,
                supports_delayed_stack_trace_loading,
                supports_loaded_sources_request,
                supports_log_points,
                supports_terminate_threads_request,
                supports_set_expression,
                supports_terminate_request,
                supports_data_breakpoints,
                supports_read_memory_request,
                supports_write_memory_request,
                supports_disassemble_request,
                supports_cancel_request,
                supports_breakpoint_locations_request,
                supports_clipboard_context,
                supports_stepping_granularity,
                supports_instruction_breakpoints,
                supports_exception_filter_options,
                supports_single_thread_execution_requests,
            },
        )
    }
}

impl Default for Capabilities {
    /// The all-default record: every flag `false`, every list empty.
    fn default() -> (r: Capabilities)
        ensures
            r.deep_view() == CapabilitiesV::all_false(),
    {
        let r = Capabilities {

            supports_configuration_done_request: false,
            supports_function_breakpoints: false,
            supports_conditional_breakpoints: false,
            supports_hit_conditional_breakpoints: false,
            supports_evaluate_for_hovers: false,
            exception_breakpoint_filters: Vec::new(),
            supports_step_back: false,
            supports_set_variable: false,
            supports_restart_frame: false,
            supports_goto_targets_request: false,
            supports_step_in_targets_request: false,
            supports_completions_request: false,
            completion_trigger_characters: Vec::new(),
            supports_modules_request: false,
            additional_module_columns: Vec::new(),
            supported_checksum_algorithms: Vec::new(),
            supports_restart_request: false,
            supports_exception_options: false,
            supports_value_formatting_options: false,
            supports_exception_info_request: false,
            support_terminate_debuggee: false,
            support_suspend_debuggee: false,
            supports_delayed_stack_trace_loading: false,
            supports_loaded_sources_request: false,
            supports_log_points: false,
            supports_terminate_threads_request: false,
            supports_set_expression: false,
            supports_terminate_request: false,
            supports_data_breakpoints: false,
            supports_read_memory_request: false,
            supports_write_memory_request: false,
            supports_disassemble_request: false,
            supports_cancel_request: false,
            supports_breakpoint_locations_request: false,
            supports_clipboard_context: false,
            supports_stepping_granularity: false,
            supports_instruction_breakpoints: false,
            supports_exception_filter_options: false,
            supports_single_thread_execution_requests: false,
        };
        proof {
            assert(r.deep_view().exception_breakpoint_filters =~= Seq::<
                ExceptionBreakpointsFilterV,
            >::empty());
            assert(r.deep_view().completion_trigger_characters =~= Seq::<Seq<char>>::empty());
            assert(r.deep_view().additional_module_columns =~= Seq::<ColumnDescriptorV>::empty());
            assert(r.deep_view().supported_checksum_algorithms =~= Seq::<
                ChecksumAlgorithm,
            >::empty());
        }
        r
    }
}

/// Whether an attribute name is one a capabilities decode can blame: a
/// capability key, a key of a nested filter or column object, or the name
/// of a bad enum string.
pub open spec fn capabilities_error_attribute(a: Seq<char>) -> bool {
    a == "supportsConfigurationDoneRequest"@
        || a == "supportsFunctionBreakpoints"@
        || a == "supportsConditionalBreakpoints"@
        || a == "supportsHitConditionalBreakpoints"@
        || a == "supportsEvaluateForHovers"@
        || a == "exceptionBreakpointFilters"@
        || a == "supportsStepBack"@
        || a == "supportsSetVariable"@
        || a == "supportsRestartFrame"@
        || a == "supportsGotoTargetsRequest"@
        || a == "supportsStepInTargetsRequest"@
        || a == "supportsCompletionsRequest"@
        || a == "completionTriggerCharacters"@
        || a == "supportsModulesRequest"@
        || a == "additionalModuleColumns"@
        || a == "supportedChecksumAlgorithms"@
        || a == "supportsRestartRequest"@
        || a == "supportsExceptionOptions"@
        || a == "supportsValueFormattingOptions"@
        || a == "supportsExceptionInfoRequest"@
        || a == "supportTerminateDebuggee"@
        || a == "supportSuspendDebuggee"@
        || a == "supportsDelayedStackTraceLoading"@
        || a == "supportsLoadedSourcesRequest"@
        || a == "supportsLogPoints"@
        || a == "supportsTerminateThreadsRequest"@
        || a == "supportsSetExpression"@
        || a == "supportsTerminateRequest"@
        || a == "supportsDataBreakpoints"@
        || a == "supportsReadMemoryRequest"@
        || a == "supportsWriteMemoryRequest"@
        || a == "supportsDisassembleRequest"@
        || a == "supportsCancelRequest"@
        || a == "supportsBreakpointLocationsRequest"@
        || a == "supportsClipboardContext"@
        || a == "supportsSteppingGranularity"@
        || a == "supportsInstructionBreakpoints"@
        || a == "supportsExceptionFilterOptions"@
        || a == "supportsSingleThreadExecutionRequests"@
        || a == "filter"@
        || a == "label"@
        || a == "description"@
        || a == "default"@
        || a == "supportsCondition"@
        || a == "conditionDescription"@
        || a == "attributeName"@
        || a == "format"@
        || a == "type"@
        || a == "width"@
        || a == "columnDescriptorType"@
        || a == "checksumAlgorithm"@
}

/// A failed filter decode blames one of the filter's own attributes.
proof fn lemma_filter_dec_err(o: Seq<(Seq<char>, JsonV)>)
    ensures
        ExceptionBreakpointsFilterV::dec(o) matches Err(e) ==> capabilities_error_attribute(
            e.attribute,
        ),
{
}

/// A failed column decode blames one of the column's own attributes.
proof fn lemma_column_dec_err(o: Seq<(Seq<char>, JsonV)>)
    ensures
        ColumnDescriptorV::dec(o) matches Err(e) ==> capabilities_error_attribute(e.attribute),
{
}

/// A failed decode of the filter list blames the list or a filter attribute.
proof fn lemma_filters_arr_err(o: Seq<(Seq<char>, JsonV)>)
    ensures
        spec_dec_obj_array(o, "exceptionBreakpointFilters"@, filter_elem()) matches Err(e)
            ==> capabilities_error_attribute(e.attribute),
{
    let key = "exceptionBreakpointFilters"@;
    match spec_get_array_optional(o, key) {
        Err(_) => (),
        Ok(None) => (),
        Ok(Some(a)) => {
            if dec_seq(a, filter_elem()) is Err {
                crate::utils::lemma_dec_seq_err_source(a, filter_elem());
                let e = dec_seq(a, filter_elem())->Err_0;
                let i = choose|i: int|
                    0 <= i < a.len() && filter_elem()(#[trigger] a[i]) == Err::<
                        ExceptionBreakpointsFilterV,
                        ErrorV,
                    >(e);
                match a[i] {
                    JsonV::Object(eo) => {
                        lemma_filter_dec_err(eo);
                    },
                    _ => (),
                }
            }
        },
    }
}

/// A failed decode of the column list blames the list or a column attribute.
proof fn lemma_columns_arr_err(o: Seq<(Seq<char>, JsonV)>)
    ensures
        spec_dec_obj_array(o, "additionalModuleColumns"@, column_elem()) matches Err(e)
            ==> capabilities_error_attribute(e.attribute),
{
    let key = "additionalModuleColumns"@;
    match spec_get_array_optional(o, key) {
        Err(_) => (),
        Ok(None) => (),
        Ok(Some(a)) => {
            if dec_seq(a, column_elem()) is Err {
                crate::utils::lemma_dec_seq_err_source(a, column_elem());
                let e = dec_seq(a, column_elem())->Err_0;
                let i = choose|i: int|
                    0 <= i < a.len() && column_elem()(#[trigger] a[i]) == Err::<
                        ColumnDescriptorV,
                        ErrorV,
                    >(e);
                match a[i] {
                    JsonV::Object(eo) => {
                        lemma_column_dec_err(eo);
                    },
                    _ => (),
                }
            }
        },
    }
}

/// A failed decode of the algorithm list blames the list or the algorithm
/// name.
proof fn lemma_algorithms_arr_err(o: Seq<(Seq<char>, JsonV)>)
    ensures
        spec_dec_obj_array(o, "supportedChecksumAlgorithms"@, algorithm_elem()) matches Err(e)
            ==> capabilities_error_attribute(e.attribute),
{
    let key = "supportedChecksumAlgorithms"@;
    match spec_get_array_optional(o, key) {
        Err(_) => (),
        Ok(None) => (),
        Ok(Some(a)) => {
            if dec_seq(a, algorithm_elem()) is Err {
                crate::utils::lemma_dec_seq_err_source(a, algorithm_elem());
            }
        },
    }
}

/// A failed decode of the trigger-character list blames the list.
proof fn lemma_triggers_arr_err(o: Seq<(Seq<char>, JsonV)>)
    ensures
        crate::utils::spec_get_array_of_string_optional(
            o,
            "completionTriggerCharacters"@,
        ) matches Err(e) ==> capabilities_error_attribute(e.attribute),
{
    let key = "completionTriggerCharacters"@;
    match spec_get_array_optional(o, key) {
        Err(_) => (),
        Ok(None) => (),
        Ok(Some(a)) => {
            if dec_seq(a, crate::utils::spec_text_elem(key)) is Err {
                crate::utils::lemma_dec_seq_err_source(a, crate::utils::spec_text_elem(key));
            }
        },
    }
}

/// Every capabilities decode error names the attribute at fault: a
/// capability key, a key of a nested filter or column, or the enum name a
/// bad algorithm string failed against.
pub proof fn lemma_capabilities_error_names_attribute(o: Seq<(Seq<char>, JsonV)>)
    ensures
        CapabilitiesV::dec(o) matches Err(e) ==> capabilities_error_attribute(e.attribute),
{
    lemma_filters_arr_err(o);
    lemma_columns_arr_err(o);
    lemma_algorithms_arr_err(o);
    lemma_triggers_arr_err(o);
}

/// A capabilities record decoded from an object carrying none of the
/// capability attributes is the all-default record.
pub proof fn lemma_capabilities_absent_all_false()
    ensures
        CapabilitiesV::dec(Seq::empty()) == Ok::<CapabilitiesV, ErrorV>(CapabilitiesV::all_false()),
{
    broadcast use crate::utils::group_lookup_attrs;

    reveal_with_fuel(lookup, 2);
}

/// A capabilities record whose flags are all default encodes to the empty
/// object.
pub proof fn lemma_capabilities_all_false_empty()
    ensures
        CapabilitiesV::all_false().enc() == Seq::<(Seq<char>, JsonV)>::empty(),
{
    assert(filter_enc_elems(Seq::empty()).len() == 0);
    assert(crate::utils::texts(Seq::empty()).len() == 0);
    assert(column_enc_elems(Seq::empty()).len() == 0);
    assert(algorithm_enc_elems(Seq::empty()).len() == 0);
}


/// What a scope holds: an open set; an unrecognized string is kept verbatim.
#[derive(Debug, Clone, PartialEq, Eq)]
pub enum ScopePresentationHint {
    Arguments,
    Locals,
    Registers,
    Custom(String),
}

/// Model of a [`ScopePresentationHint`].
pub enum ScopePresentationHintV {
    Arguments,
    Locals,
    Registers,
    Custom(Seq<char>),
}

impl DeepView for ScopePresentationHint {
    type V = ScopePresentationHintV;

    open spec fn deep_view(&self) -> ScopePresentationHintV {
        match self {
            ScopePresentationHint::Arguments => ScopePresentationHintV::Arguments,
            ScopePresentationHint::Locals => ScopePresentationHintV::Locals,
            ScopePresentationHint::Registers => ScopePresentationHintV::Registers,
            ScopePresentationHint::Custom(s) => ScopePresentationHintV::Custom(s@),
        }
    }
}

impl ScopePresentationHintV {
    /// The wire form of each value; a custom value is itself.
    pub open spec fn wire(self) -> Seq<char> {
        match self {
            ScopePresentationHintV::Arguments => "arguments"@,
            ScopePresentationHintV::Locals => "locals"@,
            ScopePresentationHintV::Registers => "registers"@,
            ScopePresentationHintV::Custom(s) => s,
        }
    }

    /// What decoding a wire form yields; unknown strings fall through.
    pub open spec fn spec_from(s: Seq<char>) -> ScopePresentationHintV {
        if s == "arguments"@ {
            ScopePresentationHintV::Arguments
        } else if s == "locals"@ {
            ScopePresentationHintV::Locals
        } else if s == "registers"@ {
            ScopePresentationHintV::Registers
        } else {
            ScopePresentationHintV::Custom(s)
        }
    }
}

impl ScopePresentationHint {
    /// The wire form of this value; a custom value is itself.
    pub fn to_wire(self) -> (r: String)
        ensures
            r@ == self.deep_view().wire(),
    {
        match self {
            ScopePresentationHint::Arguments => "arguments".to_owned(),
            ScopePresentationHint::Locals => "locals".to_owned(),
            ScopePresentationHint::Registers => "registers".to_owned(),
            ScopePresentationHint::Custom(s) => s,
        }
    }

    /// Decodes a wire form; an unknown string is kept verbatim.
    pub fn from_string(s: String) -> (r: ScopePresentationHint)
        ensures
            r.deep_view() == ScopePresentationHintV::spec_from(s@),
    {
        if str_eq(s.as_str(), "arguments") {
            ScopePresentationHint::Arguments
        } else if str_eq(s.as_str(), "locals") {
            ScopePresentationHint::Locals
        } else if str_eq(s.as_str(), "registers") {
            ScopePresentationHint::Registers
        } else {
            ScopePresentationHint::Custom(s)
        }
    }
}

/// Any wire form decodes and re-encodes to itself: a recognized name maps
/// to its value, and an unrecognized one is kept verbatim either way.
pub proof fn lemma_scope_presentation_hint_wire_roundtrip(s: Seq<char>)
    ensures
        ScopePresentationHintV::spec_from(s).wire() == s,
{
}

/// How a client should render a stack frame: a closed set; an unknown string is a decode error.
#[derive(Debug, Clone, Copy, PartialEq, Eq)]
pub enum StackFramePresentationHint {
    Normal,
    Label,
    Subtle,
}

impl DeepView for StackFramePresentationHint {
    type V = StackFramePresentationHint;

    open spec fn deep_view(&self) -> StackFramePresentationHint {
        *self
    }
}

impl StackFramePresentationHint {
    /// The wire name of each value.
    pub open spec fn wire(self) -> Seq<char> {
        match self {
            StackFramePresentationHint::Normal => "normal"@,
            StackFramePresentationHint::Label => "label"@,
            StackFramePresentationHint::Subtle => "subtle"@,
        }
    }

    /// What decoding a wire name yields.
    pub open spec fn spec_from(s: Seq<char>) -> Result<StackFramePresentationHint, ErrorV> {
        if s == "normal"@ {
            Ok(StackFramePresentationHint::Normal)
        } else if s == "label"@ {
            Ok(StackFramePresentationHint::Label)
        } else if s == "subtle"@ {
            Ok(StackFramePresentationHint::Subtle)
        } else {
            Err(errv("presentationHint"@, Cause::ExpectsEnum))
        }
    }

    /// The wire name of this value.
    pub fn as_str(&self) -> (r: &'static str)
        ensures
            r@ == self.wire(),
    {
        match self {
            StackFramePresentationHint::Normal => "normal",
            StackFramePresentationHint::Label => "label",
            StackFramePresentationHint::Subtle => "subtle",
        }
    }

    /// Decodes a wire name.
    pub fn try_from(s: &str) -> (r: Result<StackFramePresentationHint, Error>)
        ensures
            rdv(r) == StackFramePresentationHint::spec_from(s@),
    {
        if str_eq(s, "normal") {
            Ok(StackFramePresentationHint::Normal)
        } else if str_eq(s, "label") {
            Ok(StackFramePresentationHint::Label)
        } else if str_eq(s, "subtle") {
            Ok(StackFramePresentationHint::Subtle)
        } else {
            Err(Error::new("presentationHint", Cause::ExpectsEnum))
        }
    }

    /// A wire name decodes to the value it names.
    pub proof fn lemma_roundtrip(self)
        ensures
            StackFramePresentationHint::spec_from(self.wire()) == Ok::<StackFramePresentationHint, ErrorV>(self),
    {
        reveal_strlit("normal");
        reveal_strlit("label");
        reveal_strlit("subtle");
        assert("normal"@.len() == 6);
        assert("label"@.len() == 5);
        assert("subtle"@.len() == 6);
        assert("subtle"@[0] != "normal"@[0]);
    }
}

/// The kind of a variable: an open set; an unrecognized string is kept verbatim.
#[derive(Debug, Clone, PartialEq, Eq)]
pub enum VariablePresentationHintKind {
    Property,
    Method,
    Class,
    Data,
    Event,
    BaseClass,
    InnerClass,
    Interface,
    MostDerivedClass,
    Virtual,
    DataBreakpoint,
    Custom(String),
}

/// Model of a [`VariablePresentationHintKind`].
pub enum VariablePresentationHintKindV {
    Property,
    Method,
    Class,
    Data,
    Event,
    BaseClass,
    InnerClass,
    Interface,
    MostDerivedClass,
    Virtual,
    DataBreakpoint,
    Custom(Seq<char>),
}

impl DeepView for VariablePresentationHintKind {
    type V = VariablePresentationHintKindV;

    open spec fn deep_view(&self) -> VariablePresentationHintKindV {
        match self {
            VariablePresentationHintKind::Property => VariablePresentationHintKindV::Property,
            VariablePresentationHintKind::Method => VariablePresentationHintKindV::Method,
            VariablePresentationHintKind::Class => VariablePresentationHintKindV::Class,
            VariablePresentationHintKind::Data => VariablePresentationHintKindV::Data,
            VariablePresentationHintKind::Event => VariablePresentationHintKindV::Event,
            VariablePresentationHintKind::BaseClass => VariablePresentationHintKindV::BaseClass,
            VariablePresentationHintKind::InnerClass => VariablePresentationHintKindV::InnerClass,
            VariablePresentationHintKind::Interface => VariablePresentationHintKindV::Interface,
            VariablePresentationHintKind::MostDerivedClass => VariablePresentationHintKindV::MostDerivedClass,
            VariablePresentationHintKind::Virtual => VariablePresentationHintKindV::Virtual,
            VariablePresentationHintKind::DataBreakpoint => VariablePresentationHintKindV::DataBreakpoint,
            VariablePresentationHintKind::Custom(s) => VariablePresentationHintKindV::Custom(s@),
        }
    }
}

impl VariablePresentationHintKindV {
    /// The wire form of each value; a custom value is itself.
    pub open spec fn wire(self) -> Seq<char> {
        match self {
            VariablePresentationHintKindV::Property => "property"@,
            VariablePresentationHintKindV::Method => "method"@,
            VariablePresentationHintKindV::Class => "class"@,
            VariablePresentationHintKindV::Data => "data"@,
            VariablePresentationHintKindV::Event => "event"@,
            VariablePresentationHintKindV::BaseClass => "baseClass"@,
            VariablePresentationHintKindV::InnerClass => "innerClass"@,
            VariablePresentationHintKindV::Interface => "interface"@,
            VariablePresentationHintKindV::MostDerivedClass => "mostDerivedClass"@,
            VariablePresentationHintKindV::Virtual => "virtual"@,
            VariablePresentationHintKindV::DataBreakpoint => "dataBreakpoint"@,
            VariablePresentationHintKindV::Custom(s) => s,
        }
    }

    /// What decoding a wire form yields; unknown strings fall through.
    pub open spec fn spec_from(s: Seq<char>) -> VariablePresentationHintKindV {
        if s == "property"@ {
            VariablePresentationHintKindV::Property
        } else if s == "method"@ {
            VariablePresentationHintKindV::Method
        } else if s == "class"@ {
            VariablePresentationHintKindV::Class
        } else if s == "data"@ {
            VariablePresentationHintKindV::Data
        } else if s == "event"@ {
            VariablePresentationHintKindV::Event
        } else if s == "baseClass"@ {
            VariablePresentationHintKindV::BaseClass
        } else if s == "innerClass"@ {
            VariablePresentationHintKindV::InnerClass
        } else if s == "interface"@ {
            VariablePresentationHintKindV::Interface
        } else if s == "mostDerivedClass"@ {
            VariablePresentationHintKindV::MostDerivedClass
        } else if s == "virtual"@ {
            VariablePresentationHintKindV::Virtual
        } else if s == "dataBreakpoint"@ {
            VariablePresentationHintKindV::DataBreakpoint
        } else {
            VariablePresentationHintKindV::Custom(s)
        }
    }
}

impl VariablePresentationHintKind {
    /// The wire form of this value; a custom value is itself.
    pub fn to_wire(self) -> (r: String)
        ensures
            r@ == self.deep_view().wire(),
    {
        match self {
            VariablePresentationHintKind::Property => "property".to_owned(),
            VariablePresentationHintKind::Method => "method".to_owned(),
            VariablePresentationHintKind::Class => "class".to_owned(),
            VariablePresentationHintKind::Data => "data".to_owned(),
            VariablePresentationHintKind::Event => "event".to_owned(),
            VariablePresentationHintKind::BaseClass => "baseClass".to_owned(),
            VariablePresentationHintKind::InnerClass => "innerClass".to_owned(),
            VariablePresentationHintKind::Interface => "interface".to_owned(),
            VariablePresentationHintKind::MostDerivedClass => "mostDerivedClass".to_owned(),
            VariablePresentationHintKind::Virtual => "virtual".to_owned(),
            VariablePresentationHintKind::DataBreakpoint => "dataBreakpoint".to_owned(),
            VariablePresentationHintKind::Custom(s) => s,
        }
    }

    /// Decodes a wire form; an unknown string is kept verbatim.
    pub fn from_string(s: String) -> (r: VariablePresentationHintKind)
        ensures
            r.deep_view() == VariablePresentationHintKindV::spec_from(s@),
    {
        if str_eq(s.as_str(), "property") {
            VariablePresentationHintKind::Property
        } else if str_eq(s.as_str(), "method") {
            VariablePresentationHintKind::Method
        } else if str_eq(s.as_str(), "class") {
            VariablePresentationHintKind::Class
        } else if str_eq(s.as_str(), "data") {
            VariablePresentationHintKind::Data
        } else if str_eq(s.as_str(), "event") {
            VariablePresentationHintKind::Event
        } else if str_eq(s.as_str(), "baseClass") {
            VariablePresentationHintKind::BaseClass
        } else if str_eq(s.as_str(), "innerClass") {
            VariablePresentationHintKind::InnerClass
        } else if str_eq(s.as_str(), "interface") {
            VariablePresentationHintKind::Interface
        } else if str_eq(s.as_str(), "mostDerivedClass") {
            VariablePresentationHintKind::MostDerivedClass
        } else if str_eq(s.as_str(), "virtual") {
            VariablePresentationHintKind::Virtual
        } else if str_eq(s.as_str(), "dataBreakpoint") {
            VariablePresentationHintKind::DataBreakpoint
        } else {
            VariablePresentationHintKind::Custom(s)
        }
    }
}

/// Any wire form decodes and re-encodes to itself: a recognized name maps
/// to its value, and an unrecognized one is kept verbatim either way.
pub proof fn lemma_variable_presentation_hint_kind_wire_roundtrip(s: Seq<char>)
    ensures
        VariablePresentationHintKindV::spec_from(s).wire() == s,
{
}

/// An attribute of a variable: an open set; an unrecognized string is kept verbatim.
#[derive(Debug, Clone, PartialEq, Eq)]
pub enum VariablePresentationHintAttribute {
    Static,
    Constant,
    ReadOnly,
    RawString,
    HasObjectId,
    CanHaveObjectId,
    HasSideEffects,
    HasDataBreakpoint,
    Custom(String),
}

/// Model of a [`VariablePresentationHintAttribute`].
pub enum VariablePresentationHintAttributeV {
    Static,
    Constant,
    ReadOnly,
    RawString,
    HasObjectId,
    CanHaveObjectId,
    HasSideEffects,
    HasDataBreakpoint,
    Custom(Seq<char>),
}

impl DeepView for VariablePresentationHintAttribute {
    type V = VariablePresentationHintAttributeV;

    open spec fn deep_view(&self) -> VariablePresentationHintAttributeV {
        match self {
            VariablePresentationHintAttribute::Static => VariablePresentationHintAttributeV::Static,
            VariablePresentationHintAttribute::Constant => VariablePresentationHintAttributeV::Constant,
            VariablePresentationHintAttribute::ReadOnly => VariablePresentationHintAttributeV::ReadOnly,
            VariablePresentationHintAttribute::RawString => VariablePresentationHintAttributeV::RawString,
            VariablePresentationHintAttribute::HasObjectId => VariablePresentationHintAttributeV::HasObjectId,
            VariablePresentationHintAttribute::CanHaveObjectId => VariablePresentationHintAttributeV::CanHaveObjectId,
            VariablePresentationHintAttribute::HasSideEffects => VariablePresentationHintAttributeV::HasSideEffects,
            VariablePresentationHintAttribute::HasDataBreakpoint => VariablePresentationHintAttributeV::HasDataBreakpoint,
            VariablePresentationHintAttribute::Custom(s) => VariablePresentationHintAttributeV::Custom(s@),
        }
    }
}

impl VariablePresentationHintAttributeV {
    /// The wire form of each value; a custom value is itself.
    pub open spec fn wire(self) -> Seq<char> {
        match self {
            VariablePresentationHintAttributeV::Static => "static"@,
            VariablePresentationHintAttributeV::Constant => "constant"@,
            VariablePresentationHintAttributeV::ReadOnly => "readOnly"@,
            VariablePresentationHintAttributeV::RawString => "rawString"@,
            VariablePresentationHintAttributeV::HasObjectId => "hasObjectId"@,
            VariablePresentationHintAttributeV::CanHaveObjectId => "canHaveObjectId"@,
            VariablePresentationHintAttributeV::HasSideEffects => "hasSideEffects"@,
            VariablePresentationHintAttributeV::HasDataBreakpoint => "hasDataBreakpoint"@,
            VariablePresentationHintAttributeV::Custom(s) => s,
        }
    }

    /// What decoding a wire form yields; unknown strings fall through.
    pub open spec fn spec_from(s: Seq<char>) -> VariablePresentationHintAttributeV {
        if s == "static"@ {
            VariablePresentationHintAttributeV::Static
        } else if s == "constant"@ {
            VariablePresentationHintAttributeV::Constant
        } else if s == "readOnly"@ {
            VariablePresentationHintAttributeV::ReadOnly
        } else if s == "rawString"@ {
            VariablePresentationHintAttributeV::RawString
        } else if s == "hasObjectId"@ {
            VariablePresentationHintAttributeV::HasObjectId
        } else if s == "canHaveObjectId"@ {
            VariablePresentationHintAttributeV::CanHaveObjectId
        } else if s == "hasSideEffects"@ {
            VariablePresentationHintAttributeV::HasSideEffects
        } else if s == "hasDataBreakpoint"@ {
            VariablePresentationHintAttributeV::HasDataBreakpoint
        } else {
            VariablePresentationHintAttributeV::Custom(s)
        }
    }
}

impl VariablePresentationHintAttribute {
    /// The wire form of this value; a custom value is itself.
    pub fn to_wire(self) -> (r: String)
        ensures
            r@ == self.deep_view().wire(),
    {
        match self {
            VariablePresentationHintAttribute::Static => "static".to_owned(),
            VariablePresentationHintAttribute::Constant => "constant".to_owned(),
            VariablePresentationHintAttribute::ReadOnly => "readOnly".to_owned(),
            VariablePresentationHintAttribute::RawString => "rawString".to_owned(),
            VariablePresentationHintAttribute::HasObjectId => "hasObjectId".to_owned(),
            VariablePresentationHintAttribute::CanHaveObjectId => "canHaveObjectId".to_owned(),
            VariablePresentationHintAttribute::HasSideEffects => "hasSideEffects".to_owned(),
            VariablePresentationHintAttribute::HasDataBreakpoint => "hasDataBreakpoint".to_owned(),
            VariablePresentationHintAttribute::Custom(s) => s,
        }
    }

    /// Decodes a wire form; an unknown string is kept verbatim.
    pub fn from_string(s: String) -> (r: VariablePresentationHintAttribute)
        ensures
            r.deep_view() == VariablePresentationHintAttributeV::spec_from(s@),
    {
        if str_eq(s.as_str(), "static") {
            VariablePresentationHintAttribute::Static
        } else if str_eq(s.as_str(), "constant") {
            VariablePresentationHintAttribute::Constant
        } else if str_eq(s.as_str(), "readOnly") {
            VariablePresentationHintAttribute::ReadOnly
        } else if str_eq(s.as_str(), "rawString") {
            VariablePresentationHintAttribute::RawString
        } else if str_eq(s.as_str(), "hasObjectId") {
            VariablePresentationHintAttribute::HasObjectId
        } else if str_eq(s.as_str(), "canHaveObjectId") {
            VariablePresentationHintAttribute::CanHaveObjectId
        } else if str_eq(s.as_str(), "hasSideEffects") {
            VariablePresentationHintAttribute::HasSideEffects
        } else if str_eq(s.as_str(), "hasDataBreakpoint") {
            VariablePresentationHintAttribute::HasDataBreakpoint
        } else {
            VariablePresentationHintAttribute::Custom(s)
        }
    }
}

/// Any wire form decodes and re-encodes to itself: a recognized name maps
/// to its value, and an unrecognized one is kept verbatim either way.
pub proof fn lemma_variable_presentation_hint_attribute_wire_roundtrip(s: Seq<char>)
    ensures
        VariablePresentationHintAttributeV::spec_from(s).wire() == s,
{
}

/// The visibility of a variable: an open set; an unrecognized string is kept verbatim.
#[derive(Debug, Clone, PartialEq, Eq)]
pub enum VariablePresentationHintVisibility {
    Public,
    Private,
    Protected,
    Internal,
    Final,
    Custom(String),
}

/// Model of a [`VariablePresentationHintVisibility`].
pub enum VariablePresentationHintVisibilityV {
    Public,
    Private,
    Protected,
    Internal,
    Final,
    Custom(Seq<char>),
}

impl DeepView for VariablePresentationHintVisibility {
    type V = VariablePresentationHintVisibilityV;

    open spec fn deep_view(&self) -> VariablePresentationHintVisibilityV {
        match self {
            VariablePresentationHintVisibility::Public => VariablePresentationHintVisibilityV::Public,
            VariablePresentationHintVisibility::Private => VariablePresentationHintVisibilityV::Private,
            VariablePresentationHintVisibility::Protected => VariablePresentationHintVisibilityV::Protected,
            VariablePresentationHintVisibility::Internal => VariablePresentationHintVisibilityV::Internal,
            VariablePresentationHintVisibility::Final => VariablePresentationHintVisibilityV::Final,
            VariablePresentationHintVisibility::Custom(s) => VariablePresentationHintVisibilityV::Custom(s@),
        }
    }
}

impl VariablePresentationHintVisibilityV {
    /// The wire form of each value; a custom value is itself.
    pub open spec fn wire(self) -> Seq<char> {
        match self {
            VariablePresentationHintVisibilityV::Public => "public"@,
            VariablePresentationHintVisibilityV::Private => "private"@,
            VariablePresentationHintVisibilityV::Protected => "protected"@,
            VariablePresentationHintVisibilityV::Internal => "internal"@,
            VariablePresentationHintVisibilityV::Final => "final"@,
            VariablePresentationHintVisibilityV::Custom(s) => s,
        }
    }

    /// What decoding a wire form yields; unknown strings fall through.
    pub open spec fn spec_from(s: Seq<char>) -> VariablePresentationHintVisibilityV {
        if s == "public"@ {
            VariablePresentationHintVisibilityV::Public
        } else if s == "private"@ {
            VariablePresentationHintVisibilityV::Private
        } else if s == "protected"@ {
            VariablePresentationHintVisibilityV::Protected
        } else if s == "internal"@ {
            VariablePresentationHintVisibilityV::Internal
        } else if s == "final"@ {
            VariablePresentationHintVisibilityV::Final
        } else {
            VariablePresentationHintVisibilityV::Custom(s)
        }
    }
}

impl VariablePresentationHintVisibility {
    /// The wire form of this value; a custom value is itself.
    pub fn to_wire(self) -> (r: String)
        ensures
            r@ == self.deep_view().wire(),
    {
        match self {
            VariablePresentationHintVisibility::Public => "public".to_owned(),
            VariablePresentationHintVisibility::Private => "private".to_owned(),
            VariablePresentationHintVisibility::Protected => "protected".to_owned(),
            VariablePresentationHintVisibility::Internal => "internal".to_owned(),
            VariablePresentationHintVisibility::Final => "final".to_owned(),
            VariablePresentationHintVisibility::Custom(s) => s,
        }
    }

    /// Decodes a wire form; an unknown string is kept verbatim.
    pub fn from_string(s: String) -> (r: VariablePresentationHintVisibility)
        ensures
            r.deep_view() == VariablePresentationHintVisibilityV::spec_from(s@),
    {
        if str_eq(s.as_str(), "public") {
            VariablePresentationHintVisibility::Public
        } else if str_eq(s.as_str(), "private") {
            VariablePresentationHintVisibility::Private
        } else if str_eq(s.as_str(), "protected") {
            VariablePresentationHintVisibility::Protected
        } else if str_eq(s.as_str(), "internal") {
            VariablePresentationHintVisibility::Internal
        } else if str_eq(s.as_str(), "final") {
            VariablePresentationHintVisibility::Final
        } else {
            VariablePresentationHintVisibility::Custom(s)
        }
    }
}

/// Any wire form decodes and re-encodes to itself: a recognized name maps
/// to its value, and an unrecognized one is kept verbatim either way.
pub proof fn lemma_variable_presentation_hint_visibility_wire_roundtrip(s: Seq<char>)
    ensures
        VariablePresentationHintVisibilityV::spec_from(s).wire() == s,
{
}

/// A module identifier: a number or a string.
#[derive(Debug, Clone, PartialEq, Eq)]
pub enum StackFrameModuleId {
    Number(u64),
    String(String),
}

/// Model of a [`StackFrameModuleId`].
pub enum StackFrameModuleIdV {
    Number(u64),
    String(Seq<char>),
}

impl DeepView for StackFrameModuleId {
    type V = StackFrameModuleIdV;

    open spec fn deep_view(&self) -> StackFrameModuleIdV {
        match self {
            StackFrameModuleId::Number(n) => StackFrameModuleIdV::Number(*n),
            StackFrameModuleId::String(s) => StackFrameModuleIdV::String(s@),
        }
    }
}

impl StackFrameModuleIdV {
    /// The wire form of a module identifier.
    pub open spec fn enc(self) -> JsonV {
        match self {
            StackFrameModuleIdV::Number(n) => JsonV::U64(n),
            StackFrameModuleIdV::String(s) => JsonV::Text(s),
        }
    }

    /// What decoding the `moduleId` attribute yields: a non-negative number
    /// or a string; any other present value is a decode error.
    pub open spec fn dec_attr(o: Seq<(Seq<char>, JsonV)>) -> Result<
        Option<StackFrameModuleIdV>,
        ErrorV,
    > {
        match lookup(o, "moduleId"@) {
            None => Ok(None),
            Some(JsonV::U64(n)) => Ok(Some(StackFrameModuleIdV::Number(n))),
            Some(JsonV::I64(_)) => Err(errv("moduleId"@, Cause::MustBeUnsignedInteger)),
            Some(JsonV::Text(s)) => Ok(Some(StackFrameModuleIdV::String(s))),
            Some(_) => Err(errv("moduleId"@, Cause::ExpectsEnum)),
        }
    }
}

impl StackFrameModuleId {
    /// The wire form of this module identifier.
    pub fn into_json(self) -> (r: Json)
        ensures
            r.deep_view() == self.deep_view().enc(),
    {
        match self {
            StackFrameModuleId::Number(n) => Json::U64(n),
            StackFrameModuleId::String(s) => Json::Text(s),
        }
    }

    /// Reads the optional `moduleId` attribute of an object.
    pub fn try_from_map_optional(o: &JsonObject) -> (r: Result<Option<StackFrameModuleId>, Error>)
        ensures
            rdv(r) == StackFrameModuleIdV::dec_attr(entries_dv(o@)),
    {
        match crate::json::obj_get(o, "moduleId") {
            None => Ok(None),
            Some(Json::U64(n)) => Ok(Some(StackFrameModuleId::Number(*n))),
            Some(Json::I64(_)) => Err(Error::new("moduleId", Cause::MustBeUnsignedInteger)),
            Some(Json::Text(s)) => Ok(Some(StackFrameModuleId::String(s.clone()))),
            Some(_) => Err(Error::new("moduleId", Cause::ExpectsEnum)),
        }
    }
}


/// How stack frames are formatted for display.
#[derive(Debug, Clone, Copy, PartialEq, Eq)]
pub struct StackFrameFormat {
    pub parameters: bool,
    pub parameter_types: bool,
    pub parameter_names: bool,
    pub parameter_values: bool,
    pub line: bool,
    pub module: bool,
    pub include_all: bool,
}

/// Model of a [`StackFrameFormat`].
pub struct StackFrameFormatV {
    pub parameters: bool,
    pub parameter_types: bool,
    pub parameter_names: bool,
    pub parameter_values: bool,
    pub line: bool,
    pub module: bool,
    pub include_all: bool,
}

impl DeepView for StackFrameFormat {
    type V = StackFrameFormatV;

    open spec fn deep_view(&self) -> StackFrameFormatV {
        StackFrameFormatV {
            parameters: self.parameters,
            parameter_types: self.parameter_types,
            parameter_names: self.parameter_names,
            parameter_values: self.parameter_values,
            line: self.line,
            module: self.module,
            include_all: self.include_all,
        }
    }
}

impl StackFrameFormatV {
    /// The encoded entries of this value.
    pub open spec fn enc(self) -> Seq<(Seq<char>, JsonV)> {
        let s = Seq::<(Seq<char>, JsonV)>::empty();
        let s = spec_attr_bool_optional(s, "parameters"@, self.parameters);
        let s = spec_attr_bool_optional(s, "parameterTypes"@, self.parameter_types);
        let s = spec_attr_bool_optional(s, "parameterNames"@, self.parameter_names);
        let s = spec_attr_bool_optional(s, "parameterValues"@, self.parameter_values);
        let s = spec_attr_bool_optional(s, "line"@, self.line);
        let s = spec_attr_bool_optional(s, "module"@, self.module);
        let s = spec_attr_bool_optional(s, "includeAll"@, self.include_all);
        s
    }

    /// What decoding an object as this type yields.
    pub open spec fn dec(o: Seq<(Seq<char>, JsonV)>) -> Result<StackFrameFormatV, ErrorV> {
        match spec_get_bool_optional(o, "parameters"@) {
            Err(e) => Err(e),
            Ok(parameters) =>
            match spec_get_bool_optional(o, "parameterTypes"@) {
                Err(e) => Err(e),
                Ok(parameter_types) =>
                match spec_get_bool_optional(o, "parameterNames"@) {
                    Err(e) => Err(e),
                    Ok(parameter_names) =>
                    match spec_get_bool_optional(o, "parameterValues"@) {
                        Err(e) => Err(e),
                        Ok(parameter_values) =>
                        match spec_get_bool_optional(o, "line"@) {
                            Err(e) => Err(e),
                            Ok(line) =>
                            match spec_get_bool_optional(o, "module"@) {
                                Err(e) => Err(e),
                                Ok(module) =>
                                match spec_get_bool_optional(o, "includeAll"@) {
                                    Err(e) => Err(e),
                                    Ok(include_all) =>
                                    Ok(
                                        StackFrameFormatV {
                                            parameters,
                                            parameter_types,
                                            parameter_names,
                                            parameter_values,
                                            line,
                                            module,
                                            include_all,
                                        },
                                    )
                                }
                            }
                        }
                    }
                }
            }
        }
    }
}

impl StackFrameFormat {
    /// Encodes this value as a JSON object.
    pub fn into_json(self) -> (r: Json)
        ensures
            r.deep_view() == JsonV::Object(self.deep_view().enc()),
    {
        let mut o: JsonObject = Vec::new();
        proof {
            assert(entries_dv(o@) =~= Seq::<(Seq<char>, JsonV)>::empty());
        }
        attribute_bool_optional(&mut o, "parameters", self.parameters);
        attribute_bool_optional(&mut o, "parameterTypes", self.parameter_types);
        attribute_bool_optional(&mut o, "parameterNames", self.parameter_names);
        attribute_bool_optional(&mut o, "parameterValues", self.parameter_values);
        attribute_bool_optional(&mut o, "line", self.line);
        attribute_bool_optional(&mut o, "module", self.module);
        attribute_bool_optional(&mut o, "includeAll", self.include_all);
        Json::Object(o)
    }

    /// Decodes a JSON object as this type.
    pub fn try_from(o: &JsonObject) -> (r: Result<StackFrameFormat, Error>)
        ensures
            rdv(r) == StackFrameFormatV::dec(entries_dv(o@)),
    {
        let parameters = get_bool_optional(o, "parameters")?;
        let parameter_types = get_bool_optional(o, "parameterTypes")?;
        let parameter_names = get_bool_optional(o, "parameterNames")?;
        let parameter_values = get_bool_optional(o, "parameterValues")?;
        let line = get_bool_optional(o, "line")?;
        let module = get_bool_optional(o, "module")?;
        let include_all = get_bool_optional(o, "includeAll")?;
        Ok(
            StackFrameFormat {
                parameters,
                parameter_types,
                parameter_names,
                parameter_values,
                line,
                module,
                include_all,
            },
        )
    }
}


/// How values are formatted for display.
#[derive(Debug, Clone, Copy, PartialEq, Eq)]
pub struct ValueFormat {
    pub hex: bool,
}

/// Model of a [`ValueFormat`].
pub struct ValueFormatV {
    pub hex: bool,
}

impl DeepView for ValueFormat {
    type V = ValueFormatV;

    open spec fn deep_view(&self) -> ValueFormatV {
        ValueFormatV {
            hex: self.hex,
        }
    }
}

impl ValueFormatV {
    /// The encoded entries of this value.
    pub open spec fn enc(self) -> Seq<(Seq<char>, JsonV)> {
        let s = Seq::<(Seq<char>, JsonV)>::empty();
        let s = spec_attr_bool_optional(s, "hex"@, self.hex);
        s
    }

    /// What decoding an object as this type yields.
    pub open spec fn dec(o: Seq<(Seq<char>, JsonV)>) -> Result<ValueFormatV, ErrorV> {
        match spec_get_bool_optional(o, "hex"@) {
            Err(e) => Err(e),
            Ok(hex) =>
            Ok(
                ValueFormatV {
                    hex,
                },
            )
        }
    }
}

impl ValueFormat {
    /// Encodes this value as a JSON object.
    pub fn into_json(self) -> (r: Json)
        ensures
            r.deep_view() == JsonV::Object(self.deep_view().enc()),
    {
        let mut o: JsonObject = Vec::new();
        proof {
            assert(entries_dv(o@) =~= Seq::<(Seq<char>, JsonV)>::empty());
        }
        attribute_bool_optional(&mut o, "hex", self.hex);
        Json::Object(o)
    }

    /// Decodes a JSON object as this type.
    pub fn try_from(o: &JsonObject) -> (r: Result<ValueFormat, Error>)
        ensures
            rdv(r) == ValueFormatV::dec(entries_dv(o@)),
    {
        let hex = get_bool_optional(o, "hex")?;
        Ok(
            ValueFormat {
                hex,
            },
        )
    }
}


/// A thread of the debuggee.
#[derive(Debug, Clone, PartialEq, Eq)]
pub struct Thread {
    pub id: u64,
    pub name: String,
}

/// Model of a [`Thread`].
pub struct ThreadV {
    pub id: u64,
    pub name: Seq<char>,
}

impl DeepView for Thread {
    type V = ThreadV;

    open spec fn deep_view(&self) -> ThreadV {
        ThreadV {
            id: self.id,
            name: self.name@,
        }
    }
}

impl ThreadV {
    /// The encoded entries of this value.
    pub open spec fn enc(self) -> Seq<(Seq<char>, JsonV)> {
        let s = Seq::<(Seq<char>, JsonV)>::empty();
        let s = spec_attr_u64(s, "id"@, self.id);
        let s = spec_attr_string(s, "name"@, self.name);
        s
    }

    /// What decoding an object as this type yields.
    pub open spec fn dec(o: Seq<(Seq<char>, JsonV)>) -> Result<ThreadV, ErrorV> {
        match spec_get_u64(o, "id"@) {
            Err(e) => Err(e),
            Ok(id) =>
            match spec_get_string(o, "name"@) {
                Err(e) => Err(e),
                Ok(name) =>
                Ok(
                    ThreadV {
                        id,
                        name,
                    },
                )
            }
        }
    }
}

impl Thread {
    /// Encodes this value as a JSON object.
    pub fn into_json(self) -> (r: Json)
        ensures
            r.deep_view() == JsonV::Object(self.deep_view().enc()),
    {
        let mut o: JsonObject = Vec::new();
        proof {
            assert(entries_dv(o@) =~= Seq::<(Seq<char>, JsonV)>::empty());
        }
        attribute_u64(&mut o, "id", self.id);
        attribute_string(&mut o, "name", self.name);
        Json::Object(o)
    }

    /// Decodes a JSON object as this type.
    pub fn try_from(o: &JsonObject) -> (r: Result<Thread, Error>)
        ensures
            rdv(r) == ThreadV::dec(entries_dv(o@)),
    {
        let id = get_u64(o, "id")?;
        let name = get_string(o, "name")?;
        Ok(
            Thread {
                id,
                name,
            },
        )
    }
}

/// A single frame of a stack trace.
#[derive(Debug, PartialEq, Eq)]
pub struct StackFrame {
    pub id: u64,
    pub name: String,
    pub source: Option<Source>,
    pub line: u64,
    pub column: u64,
    pub end_line: Option<u64>,
    pub end_column: Option<u64>,
    pub can_restart: bool,
    pub instruction_pointer_reference: Option<String>,
    pub module_id: Option<StackFrameModuleId>,
    pub presentation_hint: Option<StackFramePresentationHint>,
}

/// Model of a [`StackFrame`].
pub struct StackFrameV {
    pub id: u64,
    pub name: Seq<char>,
    pub source: Option<SourceV>,
    pub line: u64,
    pub column: u64,
    pub end_line: Option<u64>,
    pub end_column: Option<u64>,
    pub can_restart: bool,
    pub instruction_pointer_reference: Option<Seq<char>>,
    pub module_id: Option<StackFrameModuleIdV>,
    pub presentation_hint: Option<StackFramePresentationHint>,
}

impl DeepView for StackFrame {
    type V = StackFrameV;

    open spec fn deep_view(&self) -> StackFrameV {
        StackFrameV {
            id: self.id,
            name: self.name@,
            source: self.source.deep_view(),
            line: self.line,
            column: self.column,
            end_line: self.end_line,
            end_column: self.end_column,
            can_restart: self.can_restart,
            instruction_pointer_reference: self.instruction_pointer_reference.deep_view(),
            module_id: self.module_id.deep_view(),
            presentation_hint: self.presentation_hint.deep_view(),
        }
    }
}

impl StackFrameV {
    /// The encoded entries of this value.
    pub open spec fn enc(self) -> Seq<(Seq<char>, JsonV)> {
        let s = Seq::<(Seq<char>, JsonV)>::empty();
        let s = spec_attr_u64(s, "id"@, self.id);
        let s = spec_attr_string(s, "name"@, self.name);
        let s = spec_attr_optional(
            s,
            "source"@,
            match self.source {
                Some(v) => Some(JsonV::Object(v.enc())),
                None => None,
            },
        );
        let s = spec_attr_u64(s, "line"@, self.line);
        let s = spec_attr_u64(s, "column"@, self.column);
        let s = spec_attr_u64_optional(s, "endLine"@, self.end_line);
        let s = spec_attr_u64_optional(s, "endColumn"@, self.end_column);
        let s = spec_attr_bool_optional(s, "canRestart"@, self.can_restart);
        let s = spec_attr_string_optional(s, "instructionPointerReference"@, self.instruction_pointer_reference);
        let s = spec_attr_optional(
            s,
            "moduleId"@,
            match self.module_id {
                Some(m) => Some(m.enc()),
                None => None,
            },
        );
        let s = spec_attr_string_optional(
            s,
            "presentationHint"@,
            match self.presentation_hint {
                Some(v) => Some(v.wire()),
                None => None,
            },
        );
        s
    }

    /// What decoding an object as this type yields.
    pub open spec fn dec(o: Seq<(Seq<char>, JsonV)>) -> Result<StackFrameV, ErrorV> {
        match spec_get_u64(o, "id"@) {
            Err(e) => Err(e),
            Ok(id) =>
            match spec_get_string(o, "name"@) {
                Err(e) => Err(e),
                Ok(name) =>
                match (match spec_get_object_optional(o, "source"@) {
            Err(e) => Err(e),
            Ok(None) => Ok(None),
            Ok(Some(e)) => match SourceV::dec(e) {
                Err(er) => Err(er),
                Ok(v) => Ok(Some(v)),
            },
        }) {
                    Err(e) => Err(e),
                    Ok(source) =>
                    match spec_get_u64(o, "line"@) {
                        Err(e) => Err(e),
                        Ok(line) =>
                        match spec_get_u64(o, "column"@) {
                            Err(e) => Err(e),
                            Ok(column) =>
                            match spec_get_u64_optional(o, "endLine"@) {
                                Err(e) => Err(e),
                                Ok(end_line) =>
                                match spec_get_u64_optional(o, "endColumn"@) {
                                    Err(e) => Err(e),
                                    Ok(end_column) =>
                                    match spec_get_bool_optional(o, "canRestart"@) {
                                        Err(e) => Err(e),
                                        Ok(can_restart) =>
                                        match spec_get_string_optional(o, "instructionPointerReference"@) {
                                            Err(e) => Err(e),
                                            Ok(instruction_pointer_reference) =>
                                            match StackFrameModuleIdV::dec_attr(o) {
                                                Err(e) => Err(e),
                                                Ok(module_id) =>
                                                match (match spec_get_string_optional(o, "presentationHint"@) {
            Err(e) => Err(e),
            Ok(None) => Ok(None),
            Ok(Some(w)) => match StackFramePresentationHint::spec_from(w) {
                Err(e) => Err(e),
                Ok(v) => Ok(Some(v)),
            },
        }) {
                                                    Err(e) => Err(e),
                                                    Ok(presentation_hint) =>
                                                    Ok(
                                                        StackFrameV {
                                                            id,
                                                            name,
                                                            source,
                                                            line,
                                                            column,
                                                            end_line,
                                                            end_column,
                                                            can_restart,
                                                            instruction_pointer_reference,
                                                            module_id,
                                                            presentation_hint,
                                                        },
                                                    )
                                                }
                                            }
                                        }
                                    }
                                }
                            }
                        }
                    }
                }
            }
        }
    }
}

impl StackFrame {
    /// Encodes this value as a JSON object.
    #[verifier::rlimit(50)]
    pub fn into_json(self) -> (r: Json)
        ensures
            r.deep_view() == JsonV::Object(self.deep_view().enc()),
    {
        let mut o: JsonObject = Vec::new();
        proof {
            assert(entries_dv(o@) =~= Seq::<(Seq<char>, JsonV)>::empty());
        }
        attribute_u64(&mut o, "id", self.id);
        attribute_string(&mut o, "name", self.name);
        match self.source {
            Some(v) => attribute_optional(&mut o, "source", Some(v.into_json())),
            None => attribute_optional(&mut o, "source", None),
        }
        attribute_u64(&mut o, "line", self.line);
        attribute_u64(&mut o, "column", self.column);
        attribute_u64_optional(&mut o, "endLine", self.end_line);
        attribute_u64_optional(&mut o, "endColumn", self.end_column);
        attribute_bool_optional(&mut o, "canRestart", self.can_restart);
        attribute_string_optional(&mut o, "instructionPointerReference", self.instruction_pointer_reference);
        match self.module_id {
            Some(m) => attribute_optional(&mut o, "moduleId", Some(m.into_json())),
            None => attribute_optional(&mut o, "moduleId", None),
        }
        let w: Option<String> = match self.presentation_hint {
            Some(v) => Some(v.as_str().to_owned()),
            None => None,
        };
        attribute_string_optional(&mut o, "presentationHint", w);
        Json::Object(o)
    }

    /// Decodes a JSON object as this type.
    #[verifier::rlimit(50)]
    pub fn try_from(o: &JsonObject) -> (r: Result<StackFrame, Error>)
        ensures
            rdv(r) == StackFrameV::dec(entries_dv(o@)),
    {
        let id = get_u64(o, "id")?;
        let name = get_string(o, "name")?;
        let source = match get_object_optional(o, "source")? {
            Some(e) => Some(Source::try_from(e)?),
            None => None,
        };
        let line = get_u64(o, "line")?;
        let column = get_u64(o, "column")?;
        let end_line = get_u64_optional(o, "endLine")?;
        let end_column = get_u64_optional(o, "endColumn")?;
        let can_restart = get_bool_optional(o, "canRestart")?;
        let instruction_pointer_reference = get_string_optional(o, "instructionPointerReference")?;
        let module_id = StackFrameModuleId::try_from_map_optional(o)?;
        let presentation_hint = match get_str_optional(o, "presentationHint")? {
            Some(w) => Some(StackFramePresentationHint::try_from(w)?),
            None => None,
        };
        Ok(
            StackFrame {
                id,
                name,
                source,
                line,
                column,
                end_line,
                end_column,
                can_restart,
                instruction_pointer_reference,
                module_id,
                presentation_hint,
            },
        )
    }
}


/// The wire forms of a sequence of variable attributes.
pub open spec fn vph_attr_wires(atts: Seq<VariablePresentationHintAttributeV>) -> Seq<Seq<char>> {
    atts.map_values(|a: VariablePresentationHintAttributeV| a.wire())
}

/// The variable attributes named by a sequence of wire forms.
pub open spec fn vph_attrs_from(ws: Seq<Seq<char>>) -> Seq<VariablePresentationHintAttributeV> {
    ws.map_values(|w: Seq<char>| VariablePresentationHintAttributeV::spec_from(w))
}

/// Turns variable attributes into their wire forms.
fn vph_attrs_to_strings(v: Vec<VariablePresentationHintAttribute>) -> (r: Vec<String>)
    ensures
        r.deep_view() == vph_attr_wires(v.deep_view()),
{
    let ghost vdv = v.deep_view();
    let mut out: Vec<String> = Vec::new();
    let mut i: usize = 0;
    let n = v.len();
    let mut v = v;
    proof {
        assert(v.deep_view() =~= vdv);
        assert(out.deep_view() =~= vph_attr_wires(vdv).take(0));
    }
    while i < n
        invariant
            i <= n,
            n == vdv.len(),
            v@.len() == n - i,
            forall|j: int| #![trigger v@[j]] 0 <= j < v@.len() ==> v@[j].deep_view() == vdv[i + j],
            out.deep_view() =~= vph_attr_wires(vdv).take(i as int),
        decreases n - i,
    {
        let a = v.remove(0);
        out.push(a.to_wire());
        i += 1;
        proof {
            assert(vph_attr_wires(vdv)[i - 1] == vdv[i - 1].wire());
            assert(vph_attr_wires(vdv).take(i as int) =~= vph_attr_wires(vdv).take(i - 1).push(
                vph_attr_wires(vdv)[i - 1],
            ));
            assert(out.deep_view() =~= vph_attr_wires(vdv).take(i as int));
        }
    }
    proof {
        assert(vph_attr_wires(vdv).take(n as int) =~= vph_attr_wires(vdv));
    }
    out
}

/// Turns wire forms into variable attributes.
fn vph_attrs_from_strings(ws: Vec<String>) -> (r: Vec<VariablePresentationHintAttribute>)
    ensures
        r.deep_view() == vph_attrs_from(ws.deep_view()),
{
    let ghost wdv = ws.deep_view();
    let mut out: Vec<VariablePresentationHintAttribute> = Vec::new();
    let mut i: usize = 0;
    let n = ws.len();
    let mut ws = ws;
    proof {
        assert(ws.deep_view() =~= wdv);
        assert(out.deep_view() =~= vph_attrs_from(wdv).take(0));
    }
    while i < n
        invariant
            i <= n,
            n == wdv.len(),
            ws@.len() == n - i,
            forall|j: int| #![trigger ws@[j]] 0 <= j < ws@.len() ==> ws@[j]@ == wdv[i + j],
            out.deep_view() =~= vph_attrs_from(wdv).take(i as int),
        decreases n - i,
    {
        let w = ws.remove(0);
        out.push(VariablePresentationHintAttribute::from_string(w));
        i += 1;
        proof {
            assert(vph_attrs_from(wdv)[i - 1] == VariablePresentationHintAttributeV::spec_from(
                wdv[i - 1],
            ));
            assert(vph_attrs_from(wdv).take(i as int) =~= vph_attrs_from(wdv).take(i - 1).push(
                vph_attrs_from(wdv)[i - 1],
            ));
            assert(out.deep_view() =~= vph_attrs_from(wdv).take(i as int));
        }
    }
    proof {
        assert(vph_attrs_from(wdv).take(n as int) =~= vph_attrs_from(wdv));
    }
    out
}

/// A named region of variables.
#[derive(Debug, PartialEq, Eq)]
pub struct Scope {
    pub name: String,
    pub presentation_hint: Option<ScopePresentationHint>,
    pub variables_reference: u64,
    pub named_variables: Option<u64>,
    pub indexed_variables: Option<u64>,
    pub expensive: bool,
    pub source: Option<Source>,
    pub line: Option<u64>,
    pub column: Option<u64>,
    pub end_line: Option<u64>,
    pub end_column: Option<u64>,
}

/// Model of a [`Scope`].
pub struct ScopeV {
    pub name: Seq<char>,
    pub presentation_hint: Option<ScopePresentationHintV>,
    pub variables_reference: u64,
    pub named_variables: Option<u64>,
    pub indexed_variables: Option<u64>,
    pub expensive: bool,
    pub source: Option<SourceV>,
    pub line: Option<u64>,
    pub column: Option<u64>,
    pub end_line: Option<u64>,
    pub end_column: Option<u64>,
}

impl DeepView for Scope {
    type V = ScopeV;

    open spec fn deep_view(&self) -> ScopeV {
        ScopeV {
            name: self.name@,
            presentation_hint: self.presentation_hint.deep_view(),
            variables_reference: self.variables_reference,
            named_variables: self.named_variables,
            indexed_variables: self.indexed_variables,
            expensive: self.expensive,
            source: self.source.deep_view(),
            line: self.line,
            column: self.column,
            end_line: self.end_line,
            end_column: self.end_column,
        }
    }
}

impl ScopeV {
    /// The encoded entries of this value.
    pub open spec fn enc(self) -> Seq<(Seq<char>, JsonV)> {
        let s = Seq::<(Seq<char>, JsonV)>::empty();
        let s = spec_attr_string(s, "name"@, self.name);
        let s = spec_attr_string_optional(
            s,
            "presentationHint"@,
            match self.presentation_hint {
                Some(v) => Some(v.wire()),
                None => None,
            },
        );
        let s = spec_attr_u64(s, "variablesReference"@, self.variables_reference);
        let s = spec_attr_u64_optional(s, "namedVariables"@, self.named_variables);
        let s = spec_attr_u64_optional(s, "indexedVariables"@, self.indexed_variables);
        let s = spec_attr_bool(s, "expensive"@, self.expensive);
        let s = spec_attr_optional(
            s,
            "source"@,
            match self.source {
                Some(v) => Some(JsonV::Object(v.enc())),
                None => None,
            },
        );
        let s = spec_attr_u64_optional(s, "line"@, self.line);
        let s = spec_attr_u64_optional(s, "column"@, self.column);
        let s = spec_attr_u64_optional(s, "endLine"@, self.end_line);
        let s = spec_attr_u64_optional(s, "endColumn"@, self.end_column);
        s
    }

    /// What decoding an object as this type yields.
    pub open spec fn dec(o: Seq<(Seq<char>, JsonV)>) -> Result<ScopeV, ErrorV> {
        match spec_get_string(o, "name"@) {
            Err(e) => Err(e),
            Ok(name) =>
            match (match spec_get_string_optional(o, "presentationHint"@) {
            Err(e) => Err(e),
            Ok(None) => Ok(None),
            Ok(Some(w)) => Ok(Some(ScopePresentationHintV::spec_from(w))),
        }) {
                Err(e) => Err(e),
                Ok(presentation_hint) =>
                match spec_get_u64(o, "variablesReference"@) {
                    Err(e) => Err(e),
                    Ok(variables_reference) =>
                    match spec_get_u64_optional(o, "namedVariables"@) {
                        Err(e) => Err(e),
                        Ok(named_variables) =>
                        match spec_get_u64_optional(o, "indexedVariables"@) {
                            Err(e) => Err(e),
                            Ok(indexed_variables) =>
                            match spec_get_bool(o, "expensive"@) {
                                Err(e) => Err(e),
                                Ok(expensive) =>
                                match (match spec_get_object_optional(o, "source"@) {
            Err(e) => Err(e),
            Ok(None) => Ok(None),
            Ok(Some(e)) => match SourceV::dec(e) {
                Err(er) => Err(er),
                Ok(v) => Ok(Some(v)),
            },
        }) {
                                    Err(e) => Err(e),
                                    Ok(source) =>
                                    match spec_get_u64_optional(o, "line"@) {
                                        Err(e) => Err(e),
                                        Ok(line) =>
                                        match spec_get_u64_optional(o, "column"@) {
                                            Err(e) => Err(e),
                                            Ok(column) =>
                                            match spec_get_u64_optional(o, "endLine"@) {
                                                Err(e) => Err(e),
                                                Ok(end_line) =>
                                                match spec_get_u64_optional(o, "endColumn"@) {
                                                    Err(e) => Err(e),
                                                    Ok(end_column) =>
                                                    Ok(
                                                        ScopeV {
                                                            name,
                                                            presentation_hint,
                                                            variables_reference,
                                                            named_variables,
                                                            indexed_variables,
                                                            expensive,
                                                            source,
                                                            line,
                                                            column,
                                                            end_line,
                                                            end_column,
                                                        },
                                                    )
                                                }
                                            }
                                        }
                                    }
                                }
                            }
                        }
                    }
                }
            }
        }
    }
}

impl Scope {
    /// Encodes this value as a JSON object.
    #[verifier::rlimit(50)]
    pub fn into_json(self) -> (r: Json)
        ensures
            r.deep_view() == JsonV::Object(self.deep_view().enc()),
    {
        let mut o: JsonObject = Vec::new();
        proof {
            assert(entries_dv(o@) =~= Seq::<(Seq<char>, JsonV)>::empty());
        }
        attribute_string(&mut o, "name", self.name);
        let w: Option<String> = match self.presentation_hint {
            Some(v) => Some(v.to_wire()),
            None => None,
        };
        attribute_string_optional(&mut o, "presentationHint", w);
        attribute_u64(&mut o, "variablesReference", self.variables_reference);
        attribute_u64_optional(&mut o, "namedVariables", self.named_variables);
        attribute_u64_optional(&mut o, "indexedVariables", self.indexed_variables);
        attribute_bool(&mut o, "expensive", self.expensive);
        match self.source {
            Some(v) => attribute_optional(&mut o, "source", Some(v.into_json())),
            None => attribute_optional(&mut o, "source", None),
        }
        attribute_u64_optional(&mut o, "line", self.line);
        attribute_u64_optional(&mut o, "column", self.column);
        attribute_u64_optional(&mut o, "endLine", self.end_line);
        attribute_u64_optional(&mut o, "endColumn", self.end_column);
        Json::Object(o)
    }

    /// Decodes a JSON object as this type.
    #[verifier::rlimit(50)]
    pub fn try_from(o: &JsonObject) -> (r: Result<Scope, Error>)
        ensures
            rdv(r) == ScopeV::dec(entries_dv(o@)),
    {
        let name = get_string(o, "name")?;
        let presentation_hint = match get_string_optional(o, "presentationHint")? {
            Some(w) => Some(ScopePresentationHint::from_string(w)),
            None => None,
        };
        let variables_reference = get_u64(o, "variablesReference")?;
        let named_variables = get_u64_optional(o, "namedVariables")?;
        let indexed_variables = get_u64_optional(o, "indexedVariables")?;
        let expensive = get_bool(o, "expensive")?;
        let source = match get_object_optional(o, "source")? {
            Some(e) => Some(Source::try_from(e)?),
            None => None,
        };
        let line = get_u64_optional(o, "line")?;
        let column = get_u64_optional(o, "column")?;
        let end_line = get_u64_optional(o, "endLine")?;
        let end_column = get_u64_optional(o, "endColumn")?;
        Ok(
            Scope {
                name,
                presentation_hint,
                variables_reference,
                named_variables,
                indexed_variables,
                expensive,
                source,
                line,
                column,
                end_line,
                end_column,
            },
        )
    }
}


/// How a client should render a variable.
#[derive(Debug, Clone, PartialEq, Eq)]
pub struct VariablePresentationHint {
    pub kind: Option<VariablePresentationHintKind>,
    pub attributes: Vec<VariablePresentationHintAttribute>,
    pub visibility: Option<VariablePresentationHintVisibility>,
    pub lazy: bool,
}

/// Model of a [`VariablePresentationHint`].
pub struct VariablePresentationHintV {
    pub kind: Option<VariablePresentationHintKindV>,
    pub attributes: Seq<VariablePresentationHintAttributeV>,
    pub visibility: Option<VariablePresentationHintVisibilityV>,
    pub lazy: bool,
}

impl DeepView for VariablePresentationHint {
    type V = VariablePresentationHintV;

    open spec fn deep_view(&self) -> VariablePresentationHintV {
        VariablePresentationHintV {
            kind: self.kind.deep_view(),
            attributes: self.attributes.deep_view(),
            visibility: self.visibility.deep_view(),
            lazy: self.lazy,
        }
    }
}

impl VariablePresentationHintV {
    /// The encoded entries of this value.
    pub open spec fn enc(self) -> Seq<(Seq<char>, JsonV)> {
        let s = Seq::<(Seq<char>, JsonV)>::empty();
        let s = spec_attr_string_optional(
            s,
            "kind"@,
            match self.kind {
                Some(v) => Some(v.wire()),
                None => None,
            },
        );
        let s = spec_attr_array_optional(s, "attributes"@, crate::utils::texts(vph_attr_wires(self.attributes)));
        let s = spec_attr_string_optional(
            s,
            "visibility"@,
            match self.visibility {
                Some(v) => Some(v.wire()),
                None => None,
            },
        );
        let s = spec_attr_bool_optional(s, "lazy"@, self.lazy);
        s
    }

    /// What decoding an object as this type yields.
    pub open spec fn dec(o: Seq<(Seq<char>, JsonV)>) -> Result<VariablePresentationHintV, ErrorV> {
        match (match spec_get_string_optional(o, "kind"@) {
            Err(e) => Err(e),
            Ok(None) => Ok(None),
            Ok(Some(w)) => Ok(Some(VariablePresentationHintKindV::spec_from(w))),
        }) {
            Err(e) => Err(e),
            Ok(kind) =>
            match (match crate::utils::spec_get_array_of_string_optional(o, "attributes"@) {
            Err(e) => Err(e),
            Ok(ws) => Ok(vph_attrs_from(ws)),
        }) {
                Err(e) => Err(e),
                Ok(attributes) =>
                match (match spec_get_string_optional(o, "visibility"@) {
            Err(e) => Err(e),
            Ok(None) => Ok(None),
            Ok(Some(w)) => Ok(Some(VariablePresentationHintVisibilityV::spec_from(w))),
        }) {
                    Err(e) => Err(e),
                    Ok(visibility) =>
                    match spec_get_bool_optional(o, "lazy"@) {
                        Err(e) => Err(e),
                        Ok(lazy) =>
                        Ok(
                            VariablePresentationHintV {
                                kind,
                                attributes,
                                visibility,
                                lazy,
                            },
                        )
                    }
                }
            }
        }
    }
}

impl VariablePresentationHint {
    /// Encodes this value as a JSON object.
    pub fn into_json(self) -> (r: Json)
        ensures
            r.deep_view() == JsonV::Object(self.deep_view().enc()),
    {
        let mut o: JsonObject = Vec::new();
        proof {
            assert(entries_dv(o@) =~= Seq::<(Seq<char>, JsonV)>::empty());
        }
        let w: Option<String> = match self.kind {
            Some(v) => Some(v.to_wire()),
            None => None,
        };
        attribute_string_optional(&mut o, "kind", w);
        let ws = vph_attrs_to_strings(self.attributes);
        let elems = crate::utils::texts_to_json(ws);
        attribute_array_optional(&mut o, "attributes", elems);
        let w: Option<String> = match self.visibility {
            Some(v) => Some(v.to_wire()),
            None => None,
        };
        attribute_string_optional(&mut o, "visibility", w);
        attribute_bool_optional(&mut o, "lazy", self.lazy);
        Json::Object(o)
    }

    /// Decodes a JSON object as this type.
    pub fn try_from(o: &JsonObject) -> (r: Result<VariablePresentationHint, Error>)
        ensures
            rdv(r) == VariablePresentationHintV::dec(entries_dv(o@)),
    {
        let kind = match get_string_optional(o, "kind")? {
            Some(w) => Some(VariablePresentationHintKind::from_string(w)),
            None => None,
        };
        let ws = crate::utils::get_array_of_string_optional(o, "attributes")?;
        let attributes = vph_attrs_from_strings(ws);
        let visibility = match get_string_optional(o, "visibility")? {
            Some(w) => Some(VariablePresentationHintVisibility::from_string(w)),
            None => None,
        };
        let lazy = get_bool_optional(o, "lazy")?;
        Ok(
            VariablePresentationHint {
                kind,
                attributes,
                visibility,
                lazy,
            },
        )
    }
}


/// A named value shown by the debugger.
#[derive(Debug, Clone, PartialEq, Eq)]
pub struct Variable {
    pub name: String,
    pub value: String,
    pub ty: Option<String>,
    pub presentation_hint: Option<VariablePresentationHint>,
    pub evaluate_name: Option<String>,
    pub variables_reference: u64,
    pub named_variables: Option<u64>,
    pub indexed_variables: Option<u64>,
    pub memory_reference: Option<String>,
}

/// Model of a [`Variable`].
pub struct VariableV {
    pub name: Seq<char>,
    pub value: Seq<char>,
    pub ty: Option<Seq<char>>,
    pub presentation_hint: Option<VariablePresentationHintV>,
    pub evaluate_name: Option<Seq<char>>,
    pub variables_reference: u64,
    pub named_variables: Option<u64>,
    pub indexed_variables: Option<u64>,
    pub memory_reference: Option<Seq<char>>,
}

impl DeepView for Variable {
    type V = VariableV;

    open spec fn deep_view(&self) -> VariableV {
        VariableV {
            name: self.name@,
            value: self.value@,
            ty: self.ty.deep_view(),
            presentation_hint: self.presentation_hint.deep_view(),
            evaluate_name: self.evaluate_name.deep_view(),
            variables_reference: self.variables_reference,
            named_variables: self.named_variables,
            indexed_variables: self.indexed_variables,
            memory_reference: self.memory_reference.deep_view(),
        }
    }
}

impl VariableV {
    /// The encoded entries of this value.
    pub open spec fn enc(self) -> Seq<(Seq<char>, JsonV)> {
        let s = Seq::<(Seq<char>, JsonV)>::empty();
        let s = spec_attr_string(s, "name"@, self.name);
        let s = spec_attr_string(s, "value"@, self.value);
        let s = spec_attr_string_optional(s, "type"@, self.ty);
        let s = spec_attr_optional(
            s,
            "presentationHint"@,
            match self.presentation_hint {
                Some(v) => Some(JsonV::Object(v.enc())),
                None => None,
            },
        );
        let s = spec_attr_string_optional(s, "evaluateName"@, self.evaluate_name);
        let s = spec_attr_u64(s, "variablesReference"@, self.variables_reference);
        let s = spec_attr_u64_optional(s, "namedVariables"@, self.named_variables);
        let s = spec_attr_u64_optional(s, "indexedVariables"@, self.indexed_variables);
        let s = spec_attr_string_optional(s, "memoryReference"@, self.memory_reference);
        s
    }

    /// What decoding an object as this type yields.
    pub open spec fn dec(o: Seq<(Seq<char>, JsonV)>) -> Result<VariableV, ErrorV> {
        match spec_get_string(o, "name"@) {
            Err(e) => Err(e),
            Ok(name) =>
            match spec_get_string(o, "value"@) {
                Err(e) => Err(e),
                Ok(value) =>
                match spec_get_string_optional(o, "type"@) {
                    Err(e) => Err(e),
                    Ok(ty) =>
                    match (match spec_get_object_optional(o, "presentationHint"@) {
            Err(e) => Err(e),
            Ok(None) => Ok(None),
            Ok(Some(e)) => match VariablePresentationHintV::dec(e) {
                Err(er) => Err(er),
                Ok(v) => Ok(Some(v)),
            },
        }) {
                        Err(e) => Err(e),
                        Ok(presentation_hint) =>
                        match spec_get_string_optional(o, "evaluateName"@) {
                            Err(e) => Err(e),
                            Ok(evaluate_name) =>
                            match spec_get_u64(o, "variablesReference"@) {
                                Err(e) => Err(e),
                                Ok(variables_reference) =>
                                match spec_get_u64_optional(o, "namedVariables"@) {
                                    Err(e) => Err(e),
                                    Ok(named_variables) =>
                                    match spec_get_u64_optional(o, "indexedVariables"@) {
                                        Err(e) => Err(e),
                                        Ok(indexed_variables) =>
                                        match spec_get_string_optional(o, "memoryReference"@) {
                                            Err(e) => Err(e),
                                            Ok(memory_reference) =>
                                            Ok(
                                                VariableV {
                                                    name,
                                                    value,
                                                    ty,
                                                    presentation_hint,
                                                    evaluate_name,
                                                    variables_reference,
                                                    named_variables,
                                                    indexed_variables,
                                                    memory_reference,
                                                },
                                            )
                                        }
                                    }
                                }
                            }
                        }
                    }
                }
            }
        }
    }
}

impl Variable {
    /// Encodes this value as a JSON object.
    #[verifier::rlimit(50)]
    pub fn into_json(self) -> (r: Json)
        ensures
            r.deep_view() == JsonV::Object(self.deep_view().enc()),
    {
        let mut o: JsonObject = Vec::new();
        proof {
            assert(entries_dv(o@) =~= Seq::<(Seq<char>, JsonV)>::empty());
        }
        attribute_string(&mut o, "name", self.name);
        attribute_string(&mut o, "value", self.value);
        attribute_string_optional(&mut o, "type", self.ty);
        match self.presentation_hint {
            Some(v) => attribute_optional(&mut o, "presentationHint", Some(v.into_json())),
            None => attribute_optional(&mut o, "presentationHint", None),
        }
        attribute_string_optional(&mut o, "evaluateName", self.evaluate_name);
        attribute_u64(&mut o, "variablesReference", self.variables_reference);
        attribute_u64_optional(&mut o, "namedVariables", self.named_variables);
        attribute_u64_optional(&mut o, "indexedVariables", self.indexed_variables);
        attribute_string_optional(&mut o, "memoryReference", self.memory_reference);
        Json::Object(o)
    }

    /// Decodes a JSON object as this type.
    #[verifier::rlimit(50)]
    pub fn try_from(o: &JsonObject) -> (r: Result<Variable, Error>)
        ensures
            rdv(r) == VariableV::dec(entries_dv(o@)),
    {
        let name = get_string(o, "name")?;
        let value = get_string(o, "value")?;
        let ty = get_string_optional(o, "type")?;
        let presentation_hint = match get_object_optional(o, "presentationHint")? {
            Some(e) => Some(VariablePresentationHint::try_from(e)?),
            None => None,
        };
        let evaluate_name = get_string_optional(o, "evaluateName")?;
        let variables_reference = get_u64(o, "variablesReference")?;
        let named_variables = get_u64_optional(o, "namedVariables")?;
        let indexed_variables = get_u64_optional(o, "indexedVariables")?;
        let memory_reference = get_string_optional(o, "memoryReference")?;
        Ok(
            Variable {
                name,
                value,
                ty,
                presentation_hint,
                evaluate_name,
                variables_reference,
                named_variables,
                indexed_variables,
                memory_reference,
            },
        )
    }
}

/// String-valued map entries decode to themselves.
pub proof fn lemma_dec_text_entries(vs: Seq<(Seq<char>, Seq<char>)>)
    ensures
        forall|attr: Seq<char>| #![auto] dec_seq(text_entries(vs), spec_map_text_entry(attr))
            == Ok::<Seq<(Seq<char>, Seq<char>)>, ErrorV>(vs),
    decreases vs.len(),
{
    reveal_with_fuel(dec_seq, 2);
    if vs.len() == 0 {
        assert(text_entries(vs) =~= Seq::<(Seq<char>, JsonV)>::empty());
        assert forall|attr: Seq<char>| #![auto] dec_seq(text_entries(vs), spec_map_text_entry(attr))
            == Ok::<Seq<(Seq<char>, Seq<char>)>, ErrorV>(vs) by {
            assert(vs =~= Seq::<(Seq<char>, Seq<char>)>::empty());
        }
    } else {
        lemma_dec_text_entries(vs.drop_first());
        assert forall|attr: Seq<char>| #![auto] dec_seq(text_entries(vs), spec_map_text_entry(attr))
            == Ok::<Seq<(Seq<char>, Seq<char>)>, ErrorV>(vs) by {
            let te = text_entries(vs);
            assert(te[0] == (vs[0].0, JsonV::Text(vs[0].1)));
            assert(te.drop_first() =~= text_entries(vs.drop_first()));
            assert(seq![vs[0]] + vs.drop_first() =~= vs);
        }
    }
}

} // verus!
