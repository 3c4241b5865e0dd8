//! The crate's own model of a JSON value.
//!
//! Every codec in this crate works on [`Json`], a plain recursive datatype.
//! Only the two functions that cross into `serde_json` (parsing bytes,
//! serializing to bytes) are trusted; everything that reads or builds a
//! [`Json`] tree is verified.
//!
//! Numbers are kept canonical: a non-negative integer is always a `U64`, and
//! an `I64` always holds a negative value. Floating-point numbers are not
//! representable; a message carrying one is rejected as invalid when parsed.

use vstd::prelude::*;

verus! {

broadcast use vstd::std_specs::vec::group_vec_axioms;

/// Mathematical model of a JSON value. Object entries keep their order.
pub enum JsonV {
    Null,
    Bool(bool),
    U64(u64),
    I64(i64),
    Text(Seq<char>),
    Array(Seq<JsonV>),
    Object(Seq<(Seq<char>, JsonV)>),
}

/// A JSON value: the canonical in-memory form of everything this crate
/// encodes or decodes. Object entries keep their order of insertion.
#[derive(Debug, PartialEq, Eq)]
pub enum Json {
    Null,
    Bool(bool),
    U64(u64),
    I64(i64),
    Text(String),
    Array(Vec<Json>),
    Object(Vec<(String, Json)>),
}

/// Model of a sequence of array elements.
pub open spec fn elems_dv(s: Seq<Json>) -> Seq<JsonV>
    decreases s,
{
    if s.len() == 0 {
        Seq::empty()
    } else {
        seq![s[0].deep_view()] + elems_dv(s.drop_first())
    }
}

/// Model of a sequence of object entries.
pub open spec fn entries_dv(s: Seq<(String, Json)>) -> Seq<(Seq<char>, JsonV)>
    decreases s,
{
    if s.len() == 0 {
        Seq::empty()
    } else {
        seq![(s[0].0@, s[0].1.deep_view())] + entries_dv(s.drop_first())
    }
}

impl DeepView for Json {
    type V = JsonV;

    open spec fn deep_view(&self) -> JsonV
        decreases self,
    {
        match self {
            Json::Null => JsonV::Null,
            Json::Bool(b) => JsonV::Bool(*b),
            Json::U64(n) => JsonV::U64(*n),
            Json::I64(n) => JsonV::I64(*n),
            Json::Text(s) => JsonV::Text(s@),
            Json::Array(v) => JsonV::Array(elems_dv(v@)),
            Json::Object(v) => JsonV::Object(entries_dv(v@)),
        }
    }
}

/// An element sequence's model has one model per element.
pub broadcast proof fn lemma_elems_dv_len(s: Seq<Json>)
    ensures
        (#[trigger] elems_dv(s)).len() == s.len(),
    decreases s.len(),
{
    if s.len() == 0 {
        assert(elems_dv(s) =~= Seq::<JsonV>::empty());
    } else {
        lemma_elems_dv_len(s.drop_first());
        assert(elems_dv(s) == seq![s[0].deep_view()] + elems_dv(s.drop_first()));
    }
}

/// An element sequence's model is the element-wise model.
pub broadcast proof fn lemma_elems_dv_index(s: Seq<Json>, i: int)
    requires
        0 <= i < s.len(),
    ensures
        #[trigger] elems_dv(s)[i] == s[i].deep_view(),
    decreases s.len(),
{
    lemma_elems_dv_len(s.drop_first());
    assert(elems_dv(s) == seq![s[0].deep_view()] + elems_dv(s.drop_first()));
    if i > 0 {
        lemma_elems_dv_index(s.drop_first(), i - 1);
        assert(elems_dv(s)[i] == elems_dv(s.drop_first())[i - 1]);
        assert(s.drop_first()[i - 1] == s[i]);
    }
}

/// An entry sequence's model has one entry per entry.
pub broadcast proof fn lemma_entries_dv_len(s: Seq<(String, Json)>)
    ensures
        (#[trigger] entries_dv(s)).len() == s.len(),
    decreases s.len(),
{
    if s.len() == 0 {
        assert(entries_dv(s) =~= Seq::<(Seq<char>, JsonV)>::empty());
    } else {
        lemma_entries_dv_len(s.drop_first());
        assert(entries_dv(s) == seq![(s[0].0@, s[0].1.deep_view())] + entries_dv(s.drop_first()));
    }
}

/// An entry sequence's model is the entry-wise model.
pub broadcast proof fn lemma_entries_dv_index(s: Seq<(String, Json)>, i: int)
    requires
        0 <= i < s.len(),
    ensures
        #[trigger] entries_dv(s)[i] == (s[i].0@, s[i].1.deep_view()),
    decreases s.len(),
{
    lemma_entries_dv_len(s.drop_first());
    assert(entries_dv(s) == seq![(s[0].0@, s[0].1.deep_view())] + entries_dv(s.drop_first()));
    if i > 0 {
        lemma_entries_dv_index(s.drop_first(), i - 1);
        assert(entries_dv(s)[i] == entries_dv(s.drop_first())[i - 1]);
        assert(s.drop_first()[i - 1] == s[i]);
    }
}

/// Appending an element appends its model.
pub broadcast proof fn lemma_elems_dv_push(s: Seq<Json>, p: Json)
    ensures
        elems_dv(#[trigger] s.push(p)) == elems_dv(s).push(p.deep_view()),
{
    lemma_elems_dv_len(s);
    lemma_elems_dv_len(s.push(p));
    assert forall|i: int| 0 <= i < s.push(p).len() implies elems_dv(s.push(p))[i] == elems_dv(
        s,
    ).push(p.deep_view())[i] by {
        lemma_elems_dv_index(s.push(p), i);
        if i < s.len() {
            lemma_elems_dv_index(s, i);
        }
    }
    assert(elems_dv(s.push(p)) =~= elems_dv(s).push(p.deep_view()));
}

/// Appending an entry appends its model.
pub broadcast proof fn lemma_entries_dv_push(s: Seq<(String, Json)>, p: (String, Json))
    ensures
        entries_dv(#[trigger] s.push(p)) == entries_dv(s).push((p.0@, p.1.deep_view())),
{
    lemma_entries_dv_len(s);
    lemma_entries_dv_len(s.push(p));
    assert forall|i: int| 0 <= i < s.push(p).len() implies entries_dv(s.push(p))[i] == entries_dv(
        s,
    ).push((p.0@, p.1.deep_view()))[i] by {
        lemma_entries_dv_index(s.push(p), i);
        if i < s.len() {
            lemma_entries_dv_index(s, i);
        }
    }
    assert(entries_dv(s.push(p)) =~= entries_dv(s).push((p.0@, p.1.deep_view())));
}

/// The groups of facts above, usable as one.
pub broadcast group group_json_dv {
    lemma_elems_dv_len,
    lemma_elems_dv_index,
    lemma_elems_dv_push,
    lemma_entries_dv_len,
    lemma_entries_dv_index,
    lemma_entries_dv_push,
}

/// Whether every key of an object is distinct from every other.
pub open spec fn distinct_keys(o: Seq<(Seq<char>, JsonV)>) -> bool {
    forall|i: int, j: int| 0 <= i < j < o.len() ==> o[i].0 != o[j].0
}

/// Canonical form of a JSON value: a negative number is the only use of
/// `I64`, and object keys are distinct. Parsing always yields this form, and
/// a canonical value survives a serialize/parse round trip unchanged.
pub open spec fn json_wf(j: JsonV) -> bool
    decreases j,
{
    match j {
        JsonV::Null => true,
        JsonV::Bool(_) => true,
        JsonV::U64(_) => true,
        JsonV::I64(n) => n < 0,
        JsonV::Text(_) => true,
        JsonV::Array(a) => forall|i: int| 0 <= i < a.len() ==> json_wf(#[trigger] a[i]),
        JsonV::Object(o) => distinct_keys(o) && forall|i: int|
            0 <= i < o.len() ==> json_wf(#[trigger] o[i].1),
    }
}

/// How deeply arrays and objects nest in a value: a scalar sits at depth
/// zero, and each array or object adds one. The parser reads at most 128
/// levels.
pub open spec fn json_depth(j: JsonV) -> nat
    decreases j,
{
    match j {
        JsonV::Null => 0,
        JsonV::Bool(_) => 0,
        JsonV::U64(_) => 0,
        JsonV::I64(_) => 0,
        JsonV::Text(_) => 0,
        JsonV::Array(a) => 1 + depth_elems(a),
        JsonV::Object(o) => 1 + depth_entries(o),
    }
}

/// The deepest nesting among array elements.
pub open spec fn depth_elems(a: Seq<JsonV>) -> nat
    decreases a,
{
    if a.len() == 0 {
        0
    } else if json_depth(a[0]) >= depth_elems(a.drop_first()) {
        json_depth(a[0])
    } else {
        depth_elems(a.drop_first())
    }
}

/// The deepest nesting among object entry values.
pub open spec fn depth_entries(o: Seq<(Seq<char>, JsonV)>) -> nat
    decreases o,
{
    if o.len() == 0 {
        0
    } else if json_depth(o[0].1) >= depth_entries(o.drop_first()) {
        json_depth(o[0].1)
    } else {
        depth_entries(o.drop_first())
    }
}

/// What this crate's JSON parser yields on given bytes: `None` where the
/// bytes are not a JSON document whose numbers all fit in `u64`/`i64`.
pub uninterp spec fn json_parse(b: Seq<u8>) -> Option<JsonV>;

/// What this crate's JSON serializer emits for a given value.
pub uninterp spec fn json_text(j: JsonV) -> Seq<u8>;

/// Looks a key up in an object's entries; the first match wins.
pub open spec fn lookup(o: Seq<(Seq<char>, JsonV)>, key: Seq<char>) -> Option<JsonV>
    decreases o.len(),
{
    if o.len() == 0 {
        None
    } else if o[0].0 == key {
        Some(o[0].1)
    } else {
        lookup(o.drop_first(), key)
    }
}

/// If `key` differs from every key of `o` before index `i`, and matches at
/// `i`, the lookup yields the entry at `i`.
pub proof fn lemma_lookup_hit(o: Seq<(Seq<char>, JsonV)>, key: Seq<char>, i: int)
    requires
        0 <= i < o.len(),
        o[i].0 == key,
        forall|j: int| 0 <= j < i ==> o[j].0 != key,
    ensures
        lookup(o, key) == Some(o[i].1),
    decreases i,
{
    if i > 0 {
        lemma_lookup_hit(o.drop_first(), key, i - 1);
    }
}

/// If `key` differs from every key of `o`, the lookup yields nothing.
pub proof fn lemma_lookup_miss(o: Seq<(Seq<char>, JsonV)>, key: Seq<char>)
    requires
        forall|j: int| 0 <= j < o.len() ==> o[j].0 != key,
    ensures
        lookup(o, key) is None,
    decreases o.len(),
{
    if o.len() > 0 {
        lemma_lookup_miss(o.drop_first(), key);
    }
}

/// A found value sits below the object it was found in, for termination of
/// decoders that recurse into what they look up.
pub proof fn lemma_lookup_decreases(o: Seq<(Seq<char>, JsonV)>, key: Seq<char>, v: JsonV)
    requires
        lookup(o, key) == Some(v),
    ensures
        decreases_to!(o => v),
    decreases o.len(),
{
    broadcast use vstd::seq::group_seq_axioms;

    if o.len() > 0 && o[0].0 == key {
        assert(decreases_to!(o => o[0]));
        assert(decreases_to!(o[0] => v));
    } else {
        lemma_lookup_decreases(o.drop_first(), key, v);
        assert(decreases_to!(o => o.drop_first()));
    }
}

/// Lookup in a concatenation first searches the left part.
pub proof fn lemma_lookup_append(
    a: Seq<(Seq<char>, JsonV)>,
    b: Seq<(Seq<char>, JsonV)>,
    key: Seq<char>,
)
    ensures
        lookup(a + b, key) == if lookup(a, key) is Some {
            lookup(a, key)
        } else {
            lookup(b, key)
        },
    decreases a.len(),
{
    if a.len() == 0 {
        assert(a + b =~= b);
    } else {
        assert((a + b).drop_first() =~= a.drop_first() + b);
        lemma_lookup_append(a.drop_first(), b, key);
    }
}

/// Relies on `<str as PartialEq>::eq`: two string slices are equal exactly
/// when their character sequences are.
#[verifier::external_body]
pub fn str_eq(a: &str, b: &str) -> (r: bool)
    ensures
        r == (a@ == b@),
{
    a == b
}

/// Finds a key among an object's entries; the first match wins.
pub fn obj_get<'a>(o: &'a Vec<(String, Json)>, key: &str) -> (r: Option<&'a Json>)
    ensures
        match r {
            Some(j) => lookup(entries_dv(o@), key@) == Some(j.deep_view()),
            None => lookup(entries_dv(o@), key@) is None,
        },
{
    broadcast use group_json_dv;

    let ghost dv = entries_dv(o@);
    let mut i: usize = 0;
    while i < o.len()
        invariant
            i <= o.len(),
            dv == entries_dv(o@),
            forall|j: int| 0 <= j < i ==> dv[j].0 != key@,
        decreases o.len() - i,
    {
        proof {
            lemma_entries_dv_len(o@);
            lemma_entries_dv_index(o@, i as int);
        }
        if str_eq(o[i].0.as_str(), key) {
            proof {
                lemma_lookup_hit(dv, key@, i as int);
            }
            return Some(&o[i].1);
        }
        i += 1;
    }
    proof {
        lemma_entries_dv_len(o@);
        lemma_lookup_miss(dv, key@);
    }
    None
}

/// Finds the index of a key among an object's entries; the first match
/// wins. Decoders that recurse into the found value use this form, so that
/// what they recurse into is a part of the object itself.
pub fn obj_find(o: &Vec<(String, Json)>, key: &str) -> (r: Option<usize>)
    ensures
        match r {
            Some(i) => i < o@.len() && o@[i as int].0@ == key@ && lookup(entries_dv(o@), key@)
                == Some(o@[i as int].1.deep_view()),
            None => lookup(entries_dv(o@), key@) is None,
        },
{
    broadcast use group_json_dv;

    let ghost dv = entries_dv(o@);
    let mut i: usize = 0;
    while i < o.len()
        invariant
            i <= o.len(),
            dv == entries_dv(o@),
            forall|j: int| 0 <= j < i ==> dv[j].0 != key@,
        decreases o.len() - i,
    {
        proof {
            lemma_entries_dv_len(o@);
            lemma_entries_dv_index(o@, i as int);
        }
        if str_eq(o[i].0.as_str(), key) {
            proof {
                lemma_lookup_hit(dv, key@, i as int);
            }
            return Some(i);
        }
        i += 1;
    }
    proof {
        lemma_entries_dv_len(o@);
        lemma_lookup_miss(dv, key@);
    }
    None
}

/// Clones every element of a JSON array.
fn clone_elems(v: &Vec<Json>) -> (r: Vec<Json>)
    ensures
        elems_dv(r@) == elems_dv(v@),
    decreases v,
{
    broadcast use group_json_dv;

    let mut out: Vec<Json> = Vec::new();
    let mut i: usize = 0;
    while i < v.len()
        invariant
            i <= v.len(),
            out@.len() == i,
            forall|j: int| #![trigger out@[j]] 0 <= j < i ==> out@[j].deep_view()
                == v@[j].deep_view(),
        decreases v.len() - i,
    {
        proof {
            assert(decreases_to!(v => v@));
            assert(decreases_to!(v@ => v@[i as int]));
        }
        let c = v[i].clone();
        out.push(c);
        i += 1;
    }
    proof {
        assert(elems_dv(out@) =~= elems_dv(v@));
    }
    out
}

/// Clones every entry of a JSON object.
fn clone_entries(v: &Vec<(String, Json)>) -> (r: Vec<(String, Json)>)
    ensures
        entries_dv(r@) == entries_dv(v@),
    decreases v,
{
    broadcast use group_json_dv;

    let mut out: Vec<(String, Json)> = Vec::new();
    let mut i: usize = 0;
    while i < v.len()
        invariant
            i <= v.len(),
            out@.len() == i,
            forall|j: int| #![trigger out@[j]] 0 <= j < i ==> out@[j].0@ == v@[j].0@
                && out@[j].1.deep_view() == v@[j].1.deep_view(),
        decreases v.len() - i,
    {
        proof {
            assert(decreases_to!(v => v@));
            assert(decreases_to!(v@ => v@[i as int]));
        }
        let k = v[i].0.clone();
        let c = v[i].1.clone();
        out.push((k, c));
        i += 1;
    }
    proof {
        assert(entries_dv(out@) =~= entries_dv(v@));
    }
    out
}

impl Clone for Json {
    /// A clone is the same JSON value.
    fn clone(&self) -> (r: Self)
        ensures
            r.deep_view() == self.deep_view(),
        decreases self,
    {
        match self {
            Json::Null => Json::Null,
            Json::Bool(b) => Json::Bool(*b),
            Json::U64(n) => Json::U64(*n),
            Json::I64(n) => Json::I64(*n),
            Json::Text(s) => Json::Text(s.clone()),
            Json::Array(v) => Json::Array(clone_elems(v)),
            Json::Object(v) => Json::Object(clone_entries(v)),
        }
    }
}

/// `serde_json`'s JSON tree, declared so that the conversion functions below
/// may name it; opaque to every verified function.
#[verifier::external_type_specification]
#[verifier::external_body]
pub struct ExValue(serde_json::Value);

/// `serde_json`'s number, declared so the conversion below may name it.
#[verifier::external_type_specification]
#[verifier::external_body]
pub struct ExNumber(serde_json::Number);

/// Relies on `serde_json::Number::as_u64` and `as_i64`: a non-negative
/// integer always becomes `U64`, a negative one `I64`, and a float nothing,
/// so converted numbers are canonical.
#[verifier::external_body]
fn num_to_json(n: serde_json::Number) -> (r: Option<Json>) {
    match (n.as_u64(), n.as_i64()) {
        (Some(u), _) => Some(Json::U64(u)),
        (None, Some(i)) => Some(Json::I64(i)),
        _ => None,
    }
}

/// Relies on `serde_json::Value`'s variants: maps each to the matching
/// [`Json`] variant, one arm each; `serde_json`'s maps hold each key once.
#[verifier::external_body]
fn value_to_json(v: serde_json::Value) -> (r: Option<Json>) {
    match v {
        serde_json::Value::Null => Some(Json::Null),
        serde_json::Value::Bool(b) => Some(Json::Bool(b)),
        serde_json::Value::Number(n) => num_to_json(n),
        serde_json::Value::String(s) => Some(Json::Text(s)),
        serde_json::Value::Array(a) => Some(Json::Array(a.into_iter().map(value_to_json).collect::<Option<_>>()?)),
        serde_json::Value::Object(o) => Some(Json::Object(o.into_iter().map(|(k, x)| Some((k, value_to_json(x)?))).collect::<Option<_>>()?)),
    }
}

/// Relies on `serde_json::Value`'s constructors: builds the outside tree for
/// a [`Json`] value, variant by variant. Object entries keep their order
/// (`serde_json` is built with `preserve_order`).
#[verifier::external_body]
fn json_to_value(j: Json) -> (r: serde_json::Value) {
    match j {
        Json::Null => serde_json::Value::Null,
        Json::Bool(b) => serde_json::Value::Bool(b),
        Json::U64(n) => serde_json::Value::Number(serde_json::Number::from(n)),
        Json::I64(n) => serde_json::Value::Number(serde_json::Number::from(n)),
        Json::Text(s) => serde_json::Value::String(s),
        Json::Array(v) => serde_json::Value::Array(v.into_iter().map(json_to_value).collect()),
        Json::Object(o) => serde_json::Value::Object(o.into_iter().map(|(k, x)| (k, json_to_value(x))).collect()),
    }
}

impl Json {
    /// Relies on `serde_json::from_slice`: parses a JSON document. The result
    /// is canonical (see [`json_wf`]): `serde_json` collapses repeated object
    /// keys, keeps key order (`preserve_order`), and a number that fits no
    /// integer makes the whole parse fail here.
    #[verifier::external_body]
    pub fn parse(b: &[u8]) -> (r: Option<Json>)
        ensures
            match r {
                Some(j) => json_parse(b@) == Some(j.deep_view()) && json_wf(j.deep_view()),
                None => json_parse(b@) is None,
            },
    {
        serde_json::from_slice::<serde_json::Value>(b).ok().and_then(value_to_json)
    }

    /// Relies on `serde_json::to_vec`: serializes a JSON value, which cannot
    /// fail for a tree of string-keyed objects. `serde_json` escapes every
    /// control character inside strings and writes numbers exactly, so
    /// parsing the output of a canonical value gives that value back: keys
    /// stay in order (`preserve_order`), distinct keys stay distinct, and a
    /// canonical number survives because a non-negative integer re-parses as
    /// `u64` and a negative one as `i64`. The round trip is promised only up
    /// to the parser's recursion limit: `serde_json` refuses to read past
    /// 128 nested arrays or objects, however well-formed.
    #[verifier::external_body]
    pub fn to_bytes(self) -> (r: Vec<u8>)
        ensures
            r@ == json_text(self.deep_view()),
            json_wf(self.deep_view()) && json_depth(self.deep_view()) < 128 ==> json_parse(r@)
                == Some(self.deep_view()),
    {
        serde_json::to_vec(&json_to_value(self)).unwrap_or_default()
    }
}

} // verus!
