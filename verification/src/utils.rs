//! Typed readers and writers for the attributes of a JSON object: the
//! foundation of every codec in this crate.
//!
//! Readers come in required (`get_x`) and optional (`get_x_optional`) pairs
//! and yield a typed error naming the attribute. Writers append zero or one
//! entry to an object under construction; optional writers elide defaults
//! (`None`, `false`, empty collections). Each executable function is pinned
//! to a specification twin (`spec_...`) over the object's model.

use vstd::prelude::*;

use crate::error::{Cause, Error, ErrorV};
use crate::json::{
    lookup, elems_dv, entries_dv, group_json_dv, lemma_entries_dv_index, lemma_entries_dv_len,
    Json, JsonV,
};

verus! {

broadcast use vstd::std_specs::vec::group_vec_axioms, crate::json::group_json_dv;

/// The entries of a JSON object under construction or inspection.
pub type JsonObject = Vec<(String, Json)>;

/// The deep view of a `Result`, member-wise.
pub open spec fn rdv<T: DeepView, E: DeepView>(r: Result<T, E>) -> Result<T::V, E::V> {
    match r {
        Ok(t) => Ok(t.deep_view()),
        Err(e) => Err(e.deep_view()),
    }
}

/// Shorthand for a decode error's model.
pub open spec fn errv(attribute: Seq<char>, cause: Cause) -> ErrorV {
    ErrorV { attribute, cause }
}

// ---------------------------------------------------------------------------
// Readers
// ---------------------------------------------------------------------------

/// Model of [`get_u64`].
pub open spec fn spec_get_u64(o: Seq<(Seq<char>, JsonV)>, attr: Seq<char>) -> Result<u64, ErrorV> {
    match lookup(o, attr) {
        None => Err(errv(attr, Cause::IsMandatory)),
        Some(JsonV::U64(n)) => Ok(n),
        Some(_) => Err(errv(attr, Cause::MustBeUnsignedInteger)),
    }
}

/// Reads a mandatory unsigned integer.
pub fn get_u64(o: &JsonObject, attribute: &'static str) -> (r: Result<u64, Error>)
    ensures
        rdv(r) == spec_get_u64(entries_dv(o@), attribute@),
{
    match crate::json::obj_get(o, attribute) {
        None => Err(Error::new(attribute, Cause::IsMandatory)),
        Some(Json::U64(n)) => Ok(*n),
        Some(_) => Err(Error::new(attribute, Cause::MustBeUnsignedInteger)),
    }
}

/// Model of [`get_u64_optional`].
pub open spec fn spec_get_u64_optional(o: Seq<(Seq<char>, JsonV)>, attr: Seq<char>) -> Result<
    Option<u64>,
    ErrorV,
> {
    match lookup(o, attr) {
        None => Ok(None),
        Some(JsonV::U64(n)) => Ok(Some(n)),
        Some(_) => Err(errv(attr, Cause::MustBeUnsignedInteger)),
    }
}

/// Reads an optional unsigned integer.
pub fn get_u64_optional(o: &JsonObject, attribute: &'static str) -> (r: Result<Option<u64>, Error>)
    ensures
        rdv(r) == spec_get_u64_optional(entries_dv(o@), attribute@),
{
    match crate::json::obj_get(o, attribute) {
        None => Ok(None),
        Some(Json::U64(n)) => Ok(Some(*n)),
        Some(_) => Err(Error::new(attribute, Cause::MustBeUnsignedInteger)),
    }
}

/// Model of [`get_i64_optional`]: a non-negative number must fit in `i64`.
pub open spec fn spec_get_i64_optional(o: Seq<(Seq<char>, JsonV)>, attr: Seq<char>) -> Result<
    Option<i64>,
    ErrorV,
> {
    match lookup(o, attr) {
        None => Ok(None),
        Some(JsonV::U64(n)) => if n <= i64::MAX as u64 {
            Ok(Some(n as i64))
        } else {
            Err(errv(attr, Cause::MustBeUnsignedInteger))
        },
        Some(JsonV::I64(n)) => Ok(Some(n)),
        Some(_) => Err(errv(attr, Cause::MustBeUnsignedInteger)),
    }
}

/// Reads an optional signed integer.
pub fn get_i64_optional(o: &JsonObject, attribute: &'static str) -> (r: Result<Option<i64>, Error>)
    ensures
        rdv(r) == spec_get_i64_optional(entries_dv(o@), attribute@),
{
    match crate::json::obj_get(o, attribute) {
        None => Ok(None),
        Some(Json::U64(n)) => if *n <= i64::MAX as u64 {
            Ok(Some(*n as i64))
        } else {
            Err(Error::new(attribute, Cause::MustBeUnsignedInteger))
        },
        Some(Json::I64(n)) => Ok(Some(*n)),
        Some(_) => Err(Error::new(attribute, Cause::MustBeUnsignedInteger)),
    }
}

/// Model of [`get_u32_optional`]: a number past 32 bits is the wrong kind.
pub open spec fn spec_get_u32_optional(o: Seq<(Seq<char>, JsonV)>, attr: Seq<char>) -> Result<
    Option<u32>,
    ErrorV,
> {
    match spec_get_u64_optional(o, attr) {
        Ok(None) => Ok(None),
        Ok(Some(n)) => if n <= u32::MAX as u64 {
            Ok(Some(n as u32))
        } else {
            Err(errv(attr, Cause::MustBeUnsignedInteger))
        },
        Err(e) => Err(e),
    }
}

/// Reads an optional unsigned integer that must fit in 32 bits.
pub fn get_u32_optional(o: &JsonObject, attribute: &'static str) -> (r: Result<Option<u32>, Error>)
    ensures
        rdv(r) == spec_get_u32_optional(entries_dv(o@), attribute@),
{
    match get_u64_optional(o, attribute) {
        Ok(None) => Ok(None),
        Ok(Some(n)) => if n <= u32::MAX as u64 {
            Ok(Some(n as u32))
        } else {
            Err(Error::new(attribute, Cause::MustBeUnsignedInteger))
        },
        Err(e) => Err(e),
    }
}

/// Model of [`get_bool`].
pub open spec fn spec_get_bool(o: Seq<(Seq<char>, JsonV)>, attr: Seq<char>) -> Result<
    bool,
    ErrorV,
> {
    match lookup(o, attr) {
        None => Err(errv(attr, Cause::IsMandatory)),
        Some(JsonV::Bool(b)) => Ok(b),
        Some(_) => Err(errv(attr, Cause::MustBeBoolean)),
    }
}

/// Reads a mandatory boolean.
pub fn get_bool(o: &JsonObject, attribute: &'static str) -> (r: Result<bool, Error>)
    ensures
        rdv(r) == spec_get_bool(entries_dv(o@), attribute@),
{
    match crate::json::obj_get(o, attribute) {
        None => Err(Error::new(attribute, Cause::IsMandatory)),
        Some(Json::Bool(b)) => Ok(*b),
        Some(_) => Err(Error::new(attribute, Cause::MustBeBoolean)),
    }
}

/// Model of [`get_bool_optional`]: absent means `false`.
pub open spec fn spec_get_bool_optional(o: Seq<(Seq<char>, JsonV)>, attr: Seq<char>) -> Result<
    bool,
    ErrorV,
> {
    match lookup(o, attr) {
        None => Ok(false),
        Some(JsonV::Bool(b)) => Ok(b),
        Some(_) => Err(errv(attr, Cause::MustBeBoolean)),
    }
}

/// Reads an optional boolean; absent means `false`.
pub fn get_bool_optional(o: &JsonObject, attribute: &'static str) -> (r: Result<bool, Error>)
    ensures
        rdv(r) == spec_get_bool_optional(entries_dv(o@), attribute@),
{
    match crate::json::obj_get(o, attribute) {
        None => Ok(false),
        Some(Json::Bool(b)) => Ok(*b),
        Some(_) => Err(Error::new(attribute, Cause::MustBeBoolean)),
    }
}

/// Model of [`get_str`] and [`get_string`].
pub open spec fn spec_get_string(o: Seq<(Seq<char>, JsonV)>, attr: Seq<char>) -> Result<
    Seq<char>,
    ErrorV,
> {
    match lookup(o, attr) {
        None => Err(errv(attr, Cause::IsMandatory)),
        Some(JsonV::Text(s)) => Ok(s),
        Some(_) => Err(errv(attr, Cause::MustBeString)),
    }
}

/// Model of [`get_str_optional`] and [`get_string_optional`].
pub open spec fn spec_get_string_optional(o: Seq<(Seq<char>, JsonV)>, attr: Seq<char>) -> Result<
    Option<Seq<char>>,
    ErrorV,
> {
    match lookup(o, attr) {
        None => Ok(None),
        Some(JsonV::Text(s)) => Ok(Some(s)),
        Some(_) => Err(errv(attr, Cause::MustBeString)),
    }
}

/// Reads a mandatory string, borrowed.
pub fn get_str<'a>(o: &'a JsonObject, attribute: &'static str) -> (r: Result<&'a str, Error>)
    ensures
        match r {
            Ok(s) => spec_get_string(entries_dv(o@), attribute@) == Ok::<_, ErrorV>(s@),
            Err(e) => spec_get_string(entries_dv(o@), attribute@) == Err::<Seq<char>, _>(
                e.deep_view(),
            ),
        },
{
    match crate::json::obj_get(o, attribute) {
        None => Err(Error::new(attribute, Cause::IsMandatory)),
        Some(Json::Text(s)) => Ok(s.as_str()),
        Some(_) => Err(Error::new(attribute, Cause::MustBeString)),
    }
}

/// Reads an optional string, borrowed.
pub fn get_str_optional<'a>(o: &'a JsonObject, attribute: &'static str) -> (r: Result<
    Option<&'a str>,
    Error,
>)
    ensures
        match r {
            Ok(None) => spec_get_string_optional(entries_dv(o@), attribute@) == Ok::<
                Option<Seq<char>>,
                ErrorV,
            >(None),
            Ok(Some(s)) => spec_get_string_optional(entries_dv(o@), attribute@) == Ok::<
                _,
                ErrorV,
            >(Some(s@)),
            Err(e) => spec_get_string_optional(entries_dv(o@), attribute@) == Err::<
                Option<Seq<char>>,
                _,
            >(e.deep_view()),
        },
{
    match crate::json::obj_get(o, attribute) {
        None => Ok(None),
        Some(Json::Text(s)) => Ok(Some(s.as_str())),
        Some(_) => Err(Error::new(attribute, Cause::MustBeString)),
    }
}

/// Reads a mandatory string, owned.
pub fn get_string(o: &JsonObject, attribute: &'static str) -> (r: Result<String, Error>)
    ensures
        rdv(r) == spec_get_string(entries_dv(o@), attribute@),
{
    match crate::json::obj_get(o, attribute) {
        None => Err(Error::new(attribute, Cause::IsMandatory)),
        Some(Json::Text(s)) => Ok(s.clone()),
        Some(_) => Err(Error::new(attribute, Cause::MustBeString)),
    }
}

/// Reads an optional string, owned.
pub fn get_string_optional(o: &JsonObject, attribute: &'static str) -> (r: Result<
    Option<String>,
    Error,
>)
    ensures
        rdv(r) == spec_get_string_optional(entries_dv(o@), attribute@),
{
    match crate::json::obj_get(o, attribute) {
        None => Ok(None),
        Some(Json::Text(s)) => Ok(Some(s.clone())),
        Some(_) => Err(Error::new(attribute, Cause::MustBeString)),
    }
}

/// Model of [`get_optional`]: a raw value passed through; `null` counts as
/// absent.
pub open spec fn spec_get_optional(o: Seq<(Seq<char>, JsonV)>, attr: Seq<char>) -> Option<JsonV> {
    match lookup(o, attr) {
        None => None,
        Some(JsonV::Null) => None,
        Some(v) => Some(v),
    }
}

/// Reads an optional raw value; `null` counts as absent.
pub fn get_optional(o: &JsonObject, attribute: &'static str) -> (r: Option<Json>)
    ensures
        r.deep_view() == spec_get_optional(entries_dv(o@), attribute@),
{
    match crate::json::obj_get(o, attribute) {
        None => None,
        Some(Json::Null) => None,
        Some(v) => Some(v.clone()),
    }
}

/// Model of [`get_object`].
pub open spec fn spec_get_object(o: Seq<(Seq<char>, JsonV)>, attr: Seq<char>) -> Result<
    Seq<(Seq<char>, JsonV)>,
    ErrorV,
> {
    match lookup(o, attr) {
        None => Err(errv(attr, Cause::IsMandatory)),
        Some(JsonV::Object(e)) => Ok(e),
        Some(_) => Err(errv(attr, Cause::MustBeObject)),
    }
}

/// Model of [`get_object_optional`].
pub open spec fn spec_get_object_optional(o: Seq<(Seq<char>, JsonV)>, attr: Seq<char>) -> Result<
    Option<Seq<(Seq<char>, JsonV)>>,
    ErrorV,
> {
    match lookup(o, attr) {
        None => Ok(None),
        Some(JsonV::Object(e)) => Ok(Some(e)),
        Some(_) => Err(errv(attr, Cause::MustBeObject)),
    }
}

/// Reads a mandatory nested object, as its entries.
pub fn get_object<'a>(o: &'a JsonObject, attribute: &'static str) -> (r: Result<
    &'a JsonObject,
    Error,
>)
    ensures
        match r {
            Ok(e) => spec_get_object(entries_dv(o@), attribute@) == Ok::<_, ErrorV>(
                entries_dv(e@),
            ),
            Err(e) => spec_get_object(entries_dv(o@), attribute@) == Err::<
                Seq<(Seq<char>, JsonV)>,
                _,
            >(e.deep_view()),
        },
{
    match crate::json::obj_get(o, attribute) {
        None => Err(Error::new(attribute, Cause::IsMandatory)),
        Some(Json::Object(e)) => Ok(e),
        Some(_) => Err(Error::new(attribute, Cause::MustBeObject)),
    }
}

/// Reads an optional nested object, as its entries.
pub fn get_object_optional<'a>(o: &'a JsonObject, attribute: &'static str) -> (r: Result<
    Option<&'a JsonObject>,
    Error,
>)
    ensures
        match r {
            Ok(None) => spec_get_object_optional(entries_dv(o@), attribute@) == Ok::<
                Option<Seq<(Seq<char>, JsonV)>>,
                ErrorV,
            >(None),
            Ok(Some(e)) => spec_get_object_optional(entries_dv(o@), attribute@) == Ok::<
                _,
                ErrorV,
            >(Some(entries_dv(e@))),
            Err(e) => spec_get_object_optional(entries_dv(o@), attribute@) == Err::<
                Option<Seq<(Seq<char>, JsonV)>>,
                _,
            >(e.deep_view()),
        },
{
    match crate::json::obj_get(o, attribute) {
        None => Ok(None),
        Some(Json::Object(e)) => Ok(Some(e)),
        Some(_) => Err(Error::new(attribute, Cause::MustBeObject)),
    }
}

/// Model of [`get_array_optional`].
pub open spec fn spec_get_array_optional(o: Seq<(Seq<char>, JsonV)>, attr: Seq<char>) -> Result<
    Option<Seq<JsonV>>,
    ErrorV,
> {
    match lookup(o, attr) {
        None => Ok(None),
        Some(JsonV::Array(a)) => Ok(Some(a)),
        Some(_) => Err(errv(attr, Cause::MustBeArray)),
    }
}

/// Model of [`get_array`].
pub open spec fn spec_get_array(o: Seq<(Seq<char>, JsonV)>, attr: Seq<char>) -> Result<
    Seq<JsonV>,
    ErrorV,
> {
    match lookup(o, attr) {
        None => Err(errv(attr, Cause::IsMandatory)),
        Some(JsonV::Array(a)) => Ok(a),
        Some(_) => Err(errv(attr, Cause::MustBeArray)),
    }
}

/// Reads an optional array, as its raw elements.
pub fn get_array_optional<'a>(o: &'a JsonObject, attribute: &'static str) -> (r: Result<
    Option<&'a Vec<Json>>,
    Error,
>)
    ensures
        match r {
            Ok(None) => spec_get_array_optional(entries_dv(o@), attribute@) == Ok::<
                Option<Seq<JsonV>>,
                ErrorV,
            >(None),
            Ok(Some(a)) => spec_get_array_optional(entries_dv(o@), attribute@) == Ok::<
                _,
                ErrorV,
            >(Some(elems_dv(a@))),
            Err(e) => spec_get_array_optional(entries_dv(o@), attribute@) == Err::<
                Option<Seq<JsonV>>,
                _,
            >(e.deep_view()),
        },
{
    match crate::json::obj_get(o, attribute) {
        None => Ok(None),
        Some(Json::Array(a)) => Ok(Some(a)),
        Some(_) => Err(Error::new(attribute, Cause::MustBeArray)),
    }
}

/// Reads a mandatory array, as its raw elements.
pub fn get_array<'a>(o: &'a JsonObject, attribute: &'static str) -> (r: Result<
    &'a Vec<Json>,
    Error,
>)
    ensures
        match r {
            Ok(a) => spec_get_array(entries_dv(o@), attribute@) == Ok::<_, ErrorV>(elems_dv(a@)),
            Err(e) => spec_get_array(entries_dv(o@), attribute@) == Err::<Seq<JsonV>, _>(
                e.deep_view(),
            ),
        },
{
    match crate::json::obj_get(o, attribute) {
        None => Err(Error::new(attribute, Cause::IsMandatory)),
        Some(Json::Array(a)) => Ok(a),
        Some(_) => Err(Error::new(attribute, Cause::MustBeArray)),
    }
}

// ---------------------------------------------------------------------------
// Element-wise decoding
// ---------------------------------------------------------------------------

/// Decodes a sequence element by element; the leftmost error wins.
pub open spec fn dec_seq<A, T>(a: Seq<A>, f: spec_fn(A) -> Result<T, ErrorV>) -> Result<
    Seq<T>,
    ErrorV,
>
    decreases a.len(),
{
    if a.len() == 0 {
        Ok(Seq::empty())
    } else {
        match f(a[0]) {
            Err(e) => Err(e),
            Ok(t) => match dec_seq(a.drop_first(), f) {
                Err(e) => Err(e),
                Ok(r) => Ok(seq![t] + r),
            },
        }
    }
}

/// Element-wise decoding of one more element.
pub proof fn lemma_dec_seq_push<A, T>(a: Seq<A>, x: A, f: spec_fn(A) -> Result<T, ErrorV>)
    ensures
        dec_seq(a.push(x), f) == match dec_seq(a, f) {
            Err(e) => Err::<Seq<T>, ErrorV>(e),
            Ok(r) => match f(x) {
                Err(e) => Err(e),
                Ok(t) => Ok(r.push(t)),
            },
        },
    decreases a.len(),
{
    reveal_with_fuel(dec_seq, 3);
    let ap = a.push(x);
    if a.len() == 0 {
        assert(ap[0] == x);
        assert(ap.drop_first() =~= Seq::<A>::empty());
        if f(x) is Ok {
            let t = f(x)->Ok_0;
            assert(seq![t] + Seq::<T>::empty() =~= Seq::<T>::empty().push(t));
        }
    } else {
        assert(ap[0] == a[0]);
        assert(ap.drop_first() =~= a.drop_first().push(x));
        lemma_dec_seq_push(a.drop_first(), x, f);
        if f(a[0]) is Ok && dec_seq(a.drop_first(), f) is Ok && f(x) is Ok {
            let t0 = f(a[0])->Ok_0;
            let r = dec_seq(a.drop_first(), f)->Ok_0;
            let t = f(x)->Ok_0;
            assert(seq![t0] + r.push(t) =~= (seq![t0] + r).push(t));
        }
    }
}

/// Element-wise decoding of a concatenation.
pub proof fn lemma_dec_seq_append<A, T>(x: Seq<A>, y: Seq<A>, f: spec_fn(A) -> Result<T, ErrorV>)
    ensures
        dec_seq(x + y, f) == match dec_seq(x, f) {
            Err(e) => Err::<Seq<T>, ErrorV>(e),
            Ok(r) => match dec_seq(y, f) {
                Err(e) => Err(e),
                Ok(r2) => Ok(r + r2),
            },
        },
    decreases x.len(),
{
    reveal_with_fuel(dec_seq, 3);
    if x.len() == 0 {
        assert(x + y =~= y);
        if dec_seq(y, f) is Ok {
            assert(Seq::<T>::empty() + dec_seq(y, f)->Ok_0 =~= dec_seq(y, f)->Ok_0);
        }
    } else {
        assert((x + y)[0] == x[0]);
        assert((x + y).drop_first() =~= x.drop_first() + y);
        lemma_dec_seq_append(x.drop_first(), y, f);
        if f(x[0]) is Ok && dec_seq(x.drop_first(), f) is Ok && dec_seq(y, f) is Ok {
            let t0 = f(x[0])->Ok_0;
            let r = dec_seq(x.drop_first(), f)->Ok_0;
            let r2 = dec_seq(y, f)->Ok_0;
            assert(seq![t0] + (r + r2) =~= (seq![t0] + r) + r2);
        }
    }
}

/// A failed element-wise decode fails on one of the elements: the sequence's
/// error is that element's own.
pub proof fn lemma_dec_seq_err_source<A, T>(a: Seq<A>, f: spec_fn(A) -> Result<T, ErrorV>)
    requires
        dec_seq(a, f) is Err,
    ensures
        exists|i: int|
            0 <= i < a.len() && f(#[trigger] a[i]) == Err::<T, ErrorV>(dec_seq(a, f)->Err_0),
    decreases a.len(),
{
    reveal_with_fuel(dec_seq, 2);
    if f(a[0]) is Err {
        assert(f(a[0]) == Err::<T, ErrorV>(dec_seq(a, f)->Err_0));
    } else {
        lemma_dec_seq_err_source(a.drop_first(), f);
        let i = choose|i: int|
            0 <= i < a.drop_first().len() && f(#[trigger] a.drop_first()[i]) == Err::<T, ErrorV>(
                dec_seq(a.drop_first(), f)->Err_0,
            );
        assert(a.drop_first()[i] == a[i + 1]);
        assert(f(a[i + 1]) == Err::<T, ErrorV>(dec_seq(a, f)->Err_0));
    }
}

/// A decode error in a prefix decides the whole sequence.
pub proof fn lemma_dec_seq_err_prefix<A, T>(a: Seq<A>, i: int, f: spec_fn(A) -> Result<T, ErrorV>)
    requires
        0 <= i <= a.len(),
        dec_seq(a.take(i), f) is Err,
    ensures
        dec_seq(a, f) == dec_seq(a.take(i), f),
{
    assert(a =~= a.take(i) + a.skip(i));
    lemma_dec_seq_append(a.take(i), a.skip(i), f);
}

/// Model of the element decoder for arrays of strings.
pub open spec fn spec_text_elem(attr: Seq<char>) -> spec_fn(JsonV) -> Result<Seq<char>, ErrorV> {
    |v: JsonV|
        match v {
            JsonV::Text(s) => Ok(s),
            _ => Err(errv(attr, Cause::MustBeString)),
        }
}

/// Model of [`get_array_of_string`].
pub open spec fn spec_get_array_of_string(o: Seq<(Seq<char>, JsonV)>, attr: Seq<char>) -> Result<
    Seq<Seq<char>>,
    ErrorV,
> {
    match spec_get_array(o, attr) {
        Err(e) => Err(e),
        Ok(a) => dec_seq(a, spec_text_elem(attr)),
    }
}

/// Model of [`get_array_of_string_optional`]: absent means empty.
pub open spec fn spec_get_array_of_string_optional(
    o: Seq<(Seq<char>, JsonV)>,
    attr: Seq<char>,
) -> Result<Seq<Seq<char>>, ErrorV> {
    match spec_get_array_optional(o, attr) {
        Err(e) => Err(e),
        Ok(None) => Ok(Seq::empty()),
        Ok(Some(a)) => dec_seq(a, spec_text_elem(attr)),
    }
}

/// Decodes every element of an array as a string.
fn dec_strings(a: &Vec<Json>, attribute: &'static str) -> (r: Result<Vec<String>, Error>)
    ensures
        rdv(r) == dec_seq(elems_dv(a@), spec_text_elem(attribute@)),
{
    let mut out: Vec<String> = Vec::new();
    let mut i: usize = 0;
    proof {
        assert(elems_dv(a@).take(0) =~= Seq::<JsonV>::empty());
        assert(out.deep_view() =~= Seq::<Seq<char>>::empty());
    }
    while i < a.len()
        invariant
            i <= a.len(),
            dec_seq(elems_dv(a@).take(i as int), spec_text_elem(attribute@)) == Ok::<_, ErrorV>(
                out.deep_view(),
            ),
        decreases a.len() - i,
    {
        let ghost pre = elems_dv(a@).take(i as int);
        proof {
            assert(elems_dv(a@).take(i + 1) =~= pre.push(elems_dv(a@)[i as int]));
            lemma_dec_seq_push(pre, elems_dv(a@)[i as int], spec_text_elem(attribute@));
        }
        match &a[i] {
            Json::Text(s) => {
                out.push(s.clone());
                proof {
                    assert(out.deep_view() =~= dec_seq(
                        elems_dv(a@).take(i + 1),
                        spec_text_elem(attribute@),
                    )->Ok_0);
                }
            },
            _ => {
                proof {
                    lemma_dec_seq_err_prefix(elems_dv(a@), i + 1, spec_text_elem(attribute@));
                }
                return Err(Error::new(attribute, Cause::MustBeString));
            },
        }
        i += 1;
    }
    proof {
        assert(elems_dv(a@).take(a@.len() as int) =~= elems_dv(a@));
    }
    Ok(out)
}

/// Reads a mandatory array of strings.
pub fn get_array_of_string(o: &JsonObject, attribute: &'static str) -> (r: Result<
    Vec<String>,
    Error,
>)
    ensures
        rdv(r) == spec_get_array_of_string(entries_dv(o@), attribute@),
{
    match get_array(o, attribute) {
        Err(e) => Err(e),
        Ok(a) => dec_strings(a, attribute),
    }
}

/// Reads an optional array of strings; absent means empty.
pub fn get_array_of_string_optional(o: &JsonObject, attribute: &'static str) -> (r: Result<
    Vec<String>,
    Error,
>)
    ensures
        rdv(r) == spec_get_array_of_string_optional(entries_dv(o@), attribute@),
{
    match get_array_optional(o, attribute) {
        Err(e) => Err(e),
        Ok(None) => {
            let v: Vec<String> = Vec::new();
            proof {
                assert(v.deep_view() =~= Seq::<Seq<char>>::empty());
            }
            Ok(v)
        },
        Ok(Some(a)) => dec_strings(a, attribute),
    }
}

/// Model of the element decoder for arrays of unsigned integers.
pub open spec fn spec_u64_elem(attr: Seq<char>) -> spec_fn(JsonV) -> Result<u64, ErrorV> {
    |v: JsonV|
        match v {
            JsonV::U64(n) => Ok(n),
            _ => Err(errv(attr, Cause::MustBeUnsignedInteger)),
        }
}

/// Model of [`get_array_of_u64_optional`]: absent means empty.
pub open spec fn spec_get_array_of_u64_optional(
    o: Seq<(Seq<char>, JsonV)>,
    attr: Seq<char>,
) -> Result<Seq<u64>, ErrorV> {
    match spec_get_array_optional(o, attr) {
        Err(e) => Err(e),
        Ok(None) => Ok(Seq::empty()),
        Ok(Some(a)) => dec_seq(a, spec_u64_elem(attr)),
    }
}

/// Reads an optional array of unsigned integers; absent means empty.
pub fn get_array_of_u64_optional(o: &JsonObject, attribute: &'static str) -> (r: Result<
    Vec<u64>,
    Error,
>)
    ensures
        rdv(r) == spec_get_array_of_u64_optional(entries_dv(o@), attribute@),
{
    let a = match get_array_optional(o, attribute) {
        Err(e) => {
            return Err(e);
        },
        Ok(None) => {
            let v: Vec<u64> = Vec::new();
            proof {
                assert(v.deep_view() =~= Seq::<u64>::empty());
            }
            return Ok(v);
        },
        Ok(Some(a)) => a,
    };
    let mut out: Vec<u64> = Vec::new();
    let mut i: usize = 0;
    proof {
        assert(elems_dv(a@).take(0) =~= Seq::<JsonV>::empty());
        assert(out.deep_view() =~= Seq::<u64>::empty());
    }
    while i < a.len()
        invariant
            i <= a.len(),
            spec_get_array_optional(entries_dv(o@), attribute@) == Ok::<_, ErrorV>(
                Some(elems_dv(a@)),
            ),
            dec_seq(elems_dv(a@).take(i as int), spec_u64_elem(attribute@)) == Ok::<_, ErrorV>(
                out.deep_view(),
            ),
        decreases a.len() - i,
    {
        let ghost pre = elems_dv(a@).take(i as int);
        proof {
            assert(elems_dv(a@).take(i + 1) =~= pre.push(elems_dv(a@)[i as int]));
            lemma_dec_seq_push(pre, elems_dv(a@)[i as int], spec_u64_elem(attribute@));
        }
        match &a[i] {
            Json::U64(n) => {
                out.push(*n);
                proof {
                    assert(out.deep_view() =~= dec_seq(
                        elems_dv(a@).take(i + 1),
                        spec_u64_elem(attribute@),
                    )->Ok_0);
                }
            },
            _ => {
                proof {
                    lemma_dec_seq_err_prefix(elems_dv(a@), i + 1, spec_u64_elem(attribute@));
                }
                return Err(Error::new(attribute, Cause::MustBeUnsignedInteger));
            },
        }
        i += 1;
    }
    proof {
        assert(elems_dv(a@).take(a@.len() as int) =~= elems_dv(a@));
    }
    Ok(out)
}

/// Model of the element decoder for arrays of sizes: the low bits of each
/// stored number, as the platform allows.
pub open spec fn spec_usize_elem(attr: Seq<char>) -> spec_fn(JsonV) -> Result<usize, ErrorV> {
    |v: JsonV|
        match v {
            JsonV::U64(n) => Ok(n as usize),
            _ => Err(errv(attr, Cause::MustBeUnsignedInteger)),
        }
}

/// Model of [`get_array_usize_optional`]: absent means empty.
pub open spec fn spec_get_array_usize_optional(
    o: Seq<(Seq<char>, JsonV)>,
    attr: Seq<char>,
) -> Result<Seq<usize>, ErrorV> {
    match spec_get_array_optional(o, attr) {
        Err(e) => Err(e),
        Ok(None) => Ok(Seq::empty()),
        Ok(Some(a)) => dec_seq(a, spec_usize_elem(attr)),
    }
}

/// Reads an optional array of sizes; absent means empty.
pub fn get_array_usize_optional(o: &JsonObject, attribute: &'static str) -> (r: Result<
    Vec<usize>,
    Error,
>)
    ensures
        rdv(r) == spec_get_array_usize_optional(entries_dv(o@), attribute@),
{
    let a = match get_array_optional(o, attribute) {
        Err(e) => {
            return Err(e);
        },
        Ok(None) => {
            let v: Vec<usize> = Vec::new();
            proof {
                assert(v.deep_view() =~= Seq::<usize>::empty());
            }
            return Ok(v);
        },
        Ok(Some(a)) => a,
    };
    let mut out: Vec<usize> = Vec::new();
    let mut i: usize = 0;
    proof {
        assert(elems_dv(a@).take(0) =~= Seq::<JsonV>::empty());
        assert(out.deep_view() =~= Seq::<usize>::empty());
    }
    while i < a.len()
        invariant
            i <= a.len(),
            spec_get_array_optional(entries_dv(o@), attribute@) == Ok::<_, ErrorV>(
                Some(elems_dv(a@)),
            ),
            dec_seq(elems_dv(a@).take(i as int), spec_usize_elem(attribute@)) == Ok::<_, ErrorV>(
                out.deep_view(),
            ),
        decreases a.len() - i,
    {
        let ghost pre = elems_dv(a@).take(i as int);
        proof {
            assert(elems_dv(a@).take(i + 1) =~= pre.push(elems_dv(a@)[i as int]));
            lemma_dec_seq_push(pre, elems_dv(a@)[i as int], spec_usize_elem(attribute@));
        }
        match &a[i] {
            Json::U64(n) => {
                out.push(#[verifier::truncate] (*n as usize));
                proof {
                    assert(out.deep_view() =~= dec_seq(
                        elems_dv(a@).take(i + 1),
                        spec_usize_elem(attribute@),
                    )->Ok_0);
                }
            },
            _ => {
                proof {
                    lemma_dec_seq_err_prefix(elems_dv(a@), i + 1, spec_usize_elem(attribute@));
                }
                return Err(Error::new(attribute, Cause::MustBeUnsignedInteger));
            },
        }
        i += 1;
    }
    proof {
        assert(elems_dv(a@).take(a@.len() as int) =~= elems_dv(a@));
    }
    Ok(out)
}

/// Model of the entry decoder for string-valued maps.
pub open spec fn spec_map_text_entry(attr: Seq<char>) -> spec_fn((Seq<char>, JsonV)) -> Result<
    (Seq<char>, Seq<char>),
    ErrorV,
> {
    |p: (Seq<char>, JsonV)|
        match p.1 {
            JsonV::Text(s) => Ok((p.0, s)),
            _ => Err(errv(attr, Cause::MustBeString)),
        }
}

/// Model of [`get_map_to_string_optional`].
pub open spec fn spec_get_map_to_string_optional(
    o: Seq<(Seq<char>, JsonV)>,
    attr: Seq<char>,
) -> Result<Option<Seq<(Seq<char>, Seq<char>)>>, ErrorV> {
    match lookup(o, attr) {
        None => Ok(None),
        Some(JsonV::Object(e)) => match dec_seq(e, spec_map_text_entry(attr)) {
            Err(er) => Err(er),
            Ok(m) => Ok(Some(m)),
        },
        Some(_) => Err(errv(attr, Cause::MustBeObject)),
    }
}

/// Reads an optional map whose values are all strings, in entry order.
pub fn get_map_to_string_optional(o: &JsonObject, attribute: &'static str) -> (r: Result<
    Option<Vec<(String, String)>>,
    Error,
>)
    ensures
        rdv(r) == spec_get_map_to_string_optional(entries_dv(o@), attribute@),
{
    let e = match crate::json::obj_get(o, attribute) {
        None => {
            return Ok(None);
        },
        Some(Json::Object(e)) => e,
        Some(_) => {
            return Err(Error::new(attribute, Cause::MustBeObject));
        },
    };
    let mut out: Vec<(String, String)> = Vec::new();
    let mut i: usize = 0;
    proof {
        assert(entries_dv(e@).take(0) =~= Seq::<(Seq<char>, JsonV)>::empty());
        assert(out.deep_view() =~= Seq::<(Seq<char>, Seq<char>)>::empty());
    }
    while i < e.len()
        invariant
            i <= e.len(),
            lookup(entries_dv(o@), attribute@) == Some(JsonV::Object(entries_dv(e@))),
            dec_seq(entries_dv(e@).take(i as int), spec_map_text_entry(attribute@)) == Ok::<
                _,
                ErrorV,
            >(out.deep_view()),
        decreases e.len() - i,
    {
        let ghost pre = entries_dv(e@).take(i as int);
        proof {
            assert(entries_dv(e@).take(i + 1) =~= pre.push(entries_dv(e@)[i as int]));
            lemma_dec_seq_push(pre, entries_dv(e@)[i as int], spec_map_text_entry(attribute@));
        }
        match &e[i].1 {
            Json::Text(s) => {
                out.push((e[i].0.clone(), s.clone()));
                proof {
                    assert(out.deep_view() =~= dec_seq(
                        entries_dv(e@).take(i + 1),
                        spec_map_text_entry(attribute@),
                    )->Ok_0);
                }
            },
            _ => {
                proof {
                    lemma_dec_seq_err_prefix(entries_dv(e@), i + 1, spec_map_text_entry(attribute@));
                }
                return Err(Error::new(attribute, Cause::MustBeString));
            },
        }
        i += 1;
    }
    proof {
        assert(entries_dv(e@).take(e@.len() as int) =~= entries_dv(e@));
    }
    Ok(Some(out))
}

/// Model of the entry decoder for maps to a string or `null`.
pub open spec fn spec_map_text_or_null_entry(attr: Seq<char>) -> spec_fn(
    (Seq<char>, JsonV),
) -> Result<(Seq<char>, Option<Seq<char>>), ErrorV> {
    |p: (Seq<char>, JsonV)|
        match p.1 {
            JsonV::Text(s) => Ok((p.0, Some(s))),
            JsonV::Null => Ok((p.0, None)),
            _ => Err(errv(attr, Cause::MustMapToStringOrNull)),
        }
}

/// Model of [`get_map_to_string_or_null_optional`].
pub open spec fn spec_get_map_to_string_or_null_optional(
    o: Seq<(Seq<char>, JsonV)>,
    attr: Seq<char>,
) -> Result<Option<Seq<(Seq<char>, Option<Seq<char>>)>>, ErrorV> {
    match lookup(o, attr) {
        None => Ok(None),
        Some(JsonV::Object(e)) => match dec_seq(e, spec_map_text_or_null_entry(attr)) {
            Err(er) => Err(er),
            Ok(m) => Ok(Some(m)),
        },
        Some(_) => Err(errv(attr, Cause::MustBeObject)),
    }
}

/// Reads an optional map whose values are each a string or `null`.
pub fn get_map_to_string_or_null_optional(o: &JsonObject, attribute: &'static str) -> (r: Result<
    Option<Vec<(String, Option<String>)>>,
    Error,
>)
    ensures
        rdv(r) == spec_get_map_to_string_or_null_optional(entries_dv(o@), attribute@),
{
    let e = match crate::json::obj_get(o, attribute) {
        None => {
            return Ok(None);
        },
        Some(Json::Object(e)) => e,
        Some(_) => {
            return Err(Error::new(attribute, Cause::MustBeObject));
        },
    };
    let mut out: Vec<(String, Option<String>)> = Vec::new();
    let mut i: usize = 0;
    proof {
        assert(entries_dv(e@).take(0) =~= Seq::<(Seq<char>, JsonV)>::empty());
        assert(out.deep_view() =~= Seq::<(Seq<char>, Option<Seq<char>>)>::empty());
    }
    while i < e.len()
        invariant
            i <= e.len(),
            lookup(entries_dv(o@), attribute@) == Some(JsonV::Object(entries_dv(e@))),
            dec_seq(entries_dv(e@).take(i as int), spec_map_text_or_null_entry(attribute@)) == Ok::<
                _,
                ErrorV,
            >(out.deep_view()),
        decreases e.len() - i,
    {
        let ghost pre = entries_dv(e@).take(i as int);
        proof {
            assert(entries_dv(e@).take(i + 1) =~= pre.push(entries_dv(e@)[i as int]));
            lemma_dec_seq_push(
                pre,
                entries_dv(e@)[i as int],
                spec_map_text_or_null_entry(attribute@),
            );
        }
        match &e[i].1 {
            Json::Text(s) => {
                out.push((e[i].0.clone(), Some(s.clone())));
            },
            Json::Null => {
                out.push((e[i].0.clone(), None));
            },
            _ => {
                proof {
                    lemma_dec_seq_err_prefix(
                        entries_dv(e@),
                        i + 1,
                        spec_map_text_or_null_entry(attribute@),
                    );
                }
                return Err(Error::new(attribute, Cause::MustMapToStringOrNull));
            },
        }
        proof {
            assert(out.deep_view() =~= dec_seq(
                entries_dv(e@).take(i + 1),
                spec_map_text_or_null_entry(attribute@),
            )->Ok_0);
        }
        i += 1;
    }
    proof {
        assert(entries_dv(e@).take(e@.len() as int) =~= entries_dv(e@));
    }
    Ok(Some(out))
}

// ---------------------------------------------------------------------------
// Writers
// ---------------------------------------------------------------------------

/// Model of [`attribute_u64`].
pub open spec fn spec_attr_u64(s: Seq<(Seq<char>, JsonV)>, key: Seq<char>, n: u64) -> Seq<
    (Seq<char>, JsonV),
> {
    s.push((key, JsonV::U64(n)))
}

/// Writes an unsigned integer attribute.
pub fn attribute_u64(obj: &mut JsonObject, attribute: &'static str, n: u64)
    ensures
        entries_dv(final(obj)@) == spec_attr_u64(entries_dv(old(obj)@), attribute@, n),
{
    obj.push((attribute.to_owned(), Json::U64(n)));
}

/// Model of [`attribute_u64_optional`].
pub open spec fn spec_attr_u64_optional(
    s: Seq<(Seq<char>, JsonV)>,
    key: Seq<char>,
    n: Option<u64>,
) -> Seq<(Seq<char>, JsonV)> {
    match n {
        Some(n) => s.push((key, JsonV::U64(n))),
        None => s,
    }
}

/// Writes an optional unsigned integer attribute; `None` is elided.
pub fn attribute_u64_optional(obj: &mut JsonObject, attribute: &'static str, n: Option<u64>)
    ensures
        entries_dv(final(obj)@) == spec_attr_u64_optional(
            entries_dv(old(obj)@),
            attribute@,
            n,
        ),
{
    match n {
        Some(n) => obj.push((attribute.to_owned(), Json::U64(n))),
        None => (),
    }
}

/// Model of [`attribute_u32_optional`].
pub open spec fn spec_attr_u32_optional(
    s: Seq<(Seq<char>, JsonV)>,
    key: Seq<char>,
    n: Option<u32>,
) -> Seq<(Seq<char>, JsonV)> {
    match n {
        Some(n) => s.push((key, JsonV::U64(n as u64))),
        None => s,
    }
}

/// Writes an optional 32-bit unsigned integer attribute; `None` is elided.
pub fn attribute_u32_optional(obj: &mut JsonObject, attribute: &'static str, n: Option<u32>)
    ensures
        entries_dv(final(obj)@) == spec_attr_u32_optional(
            entries_dv(old(obj)@),
            attribute@,
            n,
        ),
{
    match n {
        Some(n) => obj.push((attribute.to_owned(), Json::U64(n as u64))),
        None => (),
    }
}

/// Model of [`attribute_i64_optional`]: a non-negative value is written in
/// the canonical unsigned form.
pub open spec fn spec_attr_i64_optional(
    s: Seq<(Seq<char>, JsonV)>,
    key: Seq<char>,
    n: Option<i64>,
) -> Seq<(Seq<char>, JsonV)> {
    match n {
        Some(n) => if n >= 0 {
            s.push((key, JsonV::U64(n as u64)))
        } else {
            s.push((key, JsonV::I64(n)))
        },
        None => s,
    }
}

/// Writes an optional signed integer attribute; `None` is elided.
pub fn attribute_i64_optional(obj: &mut JsonObject, attribute: &'static str, n: Option<i64>)
    ensures
        entries_dv(final(obj)@) == spec_attr_i64_optional(
            entries_dv(old(obj)@),
            attribute@,
            n,
        ),
{
    match n {
        Some(n) => if n >= 0 {
            obj.push((attribute.to_owned(), Json::U64(n as u64)))
        } else {
            obj.push((attribute.to_owned(), Json::I64(n)))
        },
        None => (),
    }
}

/// Model of [`attribute_bool`].
pub open spec fn spec_attr_bool(s: Seq<(Seq<char>, JsonV)>, key: Seq<char>, b: bool) -> Seq<
    (Seq<char>, JsonV),
> {
    s.push((key, JsonV::Bool(b)))
}

/// Writes a boolean attribute.
pub fn attribute_bool(obj: &mut JsonObject, attribute: &'static str, b: bool)
    ensures
        entries_dv(final(obj)@) == spec_attr_bool(entries_dv(old(obj)@), attribute@, b),
{
    obj.push((attribute.to_owned(), Json::Bool(b)));
}

/// Model of [`attribute_bool_optional`]: `false` is elided.
pub open spec fn spec_attr_bool_optional(
    s: Seq<(Seq<char>, JsonV)>,
    key: Seq<char>,
    b: bool,
) -> Seq<(Seq<char>, JsonV)> {
    if b {
        s.push((key, JsonV::Bool(true)))
    } else {
        s
    }
}

/// Writes a boolean attribute that defaults to `false`; `false` is elided.
pub fn attribute_bool_optional(obj: &mut JsonObject, attribute: &'static str, b: bool)
    ensures
        entries_dv(final(obj)@) == spec_attr_bool_optional(
            entries_dv(old(obj)@),
            attribute@,
            b,
        ),
{
    if b {
        obj.push((attribute.to_owned(), Json::Bool(true)));
    }
}

/// Model of [`attribute_string`] and [`attribute_str`].
pub open spec fn spec_attr_string(s: Seq<(Seq<char>, JsonV)>, key: Seq<char>, v: Seq<char>) -> Seq<
    (Seq<char>, JsonV),
> {
    s.push((key, JsonV::Text(v)))
}

/// Writes a string attribute, owned.
pub fn attribute_string(obj: &mut JsonObject, attribute: &'static str, v: String)
    ensures
        entries_dv(final(obj)@) == spec_attr_string(entries_dv(old(obj)@), attribute@, v@),
{
    obj.push((attribute.to_owned(), Json::Text(v)));
}

/// Writes a string attribute, borrowed.
pub fn attribute_str(obj: &mut JsonObject, attribute: &'static str, v: &str)
    ensures
        entries_dv(final(obj)@) == spec_attr_string(entries_dv(old(obj)@), attribute@, v@),
{
    obj.push((attribute.to_owned(), Json::Text(v.to_owned())));
}

/// Model of [`attribute_string_optional`].
pub open spec fn spec_attr_string_optional(
    s: Seq<(Seq<char>, JsonV)>,
    key: Seq<char>,
    v: Option<Seq<char>>,
) -> Seq<(Seq<char>, JsonV)> {
    match v {
        Some(v) => s.push((key, JsonV::Text(v))),
        None => s,
    }
}

/// Writes an optional string attribute; `None` is elided.
pub fn attribute_string_optional(obj: &mut JsonObject, attribute: &'static str, v: Option<String>)
    ensures
        entries_dv(final(obj)@) == spec_attr_string_optional(
            entries_dv(old(obj)@),
            attribute@,
            v.deep_view(),
        ),
{
    match v {
        Some(v) => obj.push((attribute.to_owned(), Json::Text(v))),
        None => (),
    }
}

/// Model of [`attribute`]: a raw value, always written.
pub open spec fn spec_attr_json(s: Seq<(Seq<char>, JsonV)>, key: Seq<char>, v: JsonV) -> Seq<
    (Seq<char>, JsonV),
> {
    s.push((key, v))
}

/// Writes a raw attribute.
pub fn attribute(obj: &mut JsonObject, attribute: &'static str, v: Json)
    ensures
        entries_dv(final(obj)@) == spec_attr_json(
            entries_dv(old(obj)@),
            attribute@,
            v.deep_view(),
        ),
{
    obj.push((attribute.to_owned(), v));
}

/// Model of [`attribute_optional`]: `None` and `null` are elided.
pub open spec fn spec_attr_optional(
    s: Seq<(Seq<char>, JsonV)>,
    key: Seq<char>,
    v: Option<JsonV>,
) -> Seq<(Seq<char>, JsonV)> {
    match v {
        Some(JsonV::Null) => s,
        Some(v) => s.push((key, v)),
        None => s,
    }
}

/// Writes an optional raw attribute; `None` and `null` are elided.
pub fn attribute_optional(obj: &mut JsonObject, attribute: &'static str, v: Option<Json>)
    ensures
        entries_dv(final(obj)@) == spec_attr_optional(
            entries_dv(old(obj)@),
            attribute@,
            v.deep_view(),
        ),
{
    match v {
        Some(Json::Null) => (),
        Some(v) => obj.push((attribute.to_owned(), v)),
        None => (),
    }
}

/// Model of [`attribute_array`]: an array attribute, always written.
pub open spec fn spec_attr_array(
    s: Seq<(Seq<char>, JsonV)>,
    key: Seq<char>,
    a: Seq<JsonV>,
) -> Seq<(Seq<char>, JsonV)> {
    s.push((key, JsonV::Array(a)))
}

/// Writes an array attribute.
pub fn attribute_array(obj: &mut JsonObject, attribute: &'static str, a: Vec<Json>)
    ensures
        entries_dv(final(obj)@) == spec_attr_array(
            entries_dv(old(obj)@),
            attribute@,
            elems_dv(a@),
        ),
{
    obj.push((attribute.to_owned(), Json::Array(a)));
}

/// Model of [`attribute_array_optional`]: an empty array is elided.
pub open spec fn spec_attr_array_optional(
    s: Seq<(Seq<char>, JsonV)>,
    key: Seq<char>,
    a: Seq<JsonV>,
) -> Seq<(Seq<char>, JsonV)> {
    if a.len() > 0 {
        s.push((key, JsonV::Array(a)))
    } else {
        s
    }
}

/// Writes an array attribute; an empty array is elided.
pub fn attribute_array_optional(obj: &mut JsonObject, attribute: &'static str, a: Vec<Json>)
    ensures
        entries_dv(final(obj)@) == spec_attr_array_optional(
            entries_dv(old(obj)@),
            attribute@,
            elems_dv(a@),
        ),
{
    broadcast use crate::json::group_json_dv;

    if a.len() > 0 {
        obj.push((attribute.to_owned(), Json::Array(a)));
    }
}

/// The model of a string sequence as JSON array elements.
pub open spec fn texts(a: Seq<Seq<char>>) -> Seq<JsonV> {
    a.map_values(|s: Seq<char>| JsonV::Text(s))
}

/// Turns strings into JSON array elements.
pub fn texts_to_json(a: Vec<String>) -> (r: Vec<Json>)
    ensures
        elems_dv(r@) == texts(a.deep_view()),
{
    broadcast use crate::json::group_json_dv;

    let ghost adv = a.deep_view();
    let mut out: Vec<Json> = Vec::new();
    let mut i: usize = 0;
    let n = a.len();
    let mut a = a;
    proof {
        assert(a.deep_view() =~= adv);
    }
    while i < n
        invariant
            i <= n,
            n == adv.len(),
            a@.len() == n - i,
            forall|j: int| 0 <= j < a@.len() ==> #[trigger] a@[j]@ == adv[i + j],
            elems_dv(out@) =~= texts(adv).take(i as int),
        decreases n - i,
    {
        let s = a.remove(0);
        out.push(Json::Text(s));
        i += 1;
        proof {
            assert(elems_dv(out@) =~= texts(adv).take(i as int));
        }
    }
    proof {
        assert(texts(adv).take(n as int) =~= texts(adv));
    }
    out
}

/// Writes an optional array of strings; `None` and the empty array are
/// elided.
pub fn attribute_array_of_string_optional(
    obj: &mut JsonObject,
    attribute: &'static str,
    a: Option<Vec<String>>,
)
    ensures
        entries_dv(final(obj)@) == (match a.deep_view() {
            Some(v) => spec_attr_array_optional(entries_dv(old(obj)@), attribute@, texts(v)),
            None => entries_dv(old(obj)@),
        }),
{
    match a {
        Some(v) => {
            let elems = texts_to_json(v);
            attribute_array_optional(obj, attribute, elems);
        },
        None => (),
    }
}

/// The model of string-to-string entries as a JSON object.
pub open spec fn text_entries(m: Seq<(Seq<char>, Seq<char>)>) -> Seq<(Seq<char>, JsonV)> {
    m.map_values(|p: (Seq<char>, Seq<char>)| (p.0, JsonV::Text(p.1)))
}

/// Model of [`attribute_map_optional`]: `None` and the empty map are elided.
pub open spec fn spec_attr_map_optional(
    s: Seq<(Seq<char>, JsonV)>,
    key: Seq<char>,
    m: Option<Seq<(Seq<char>, Seq<char>)>>,
) -> Seq<(Seq<char>, JsonV)> {
    match m {
        Some(m) => if m.len() > 0 {
            s.push((key, JsonV::Object(text_entries(m))))
        } else {
            s
        },
        None => s,
    }
}

/// Writes an optional map attribute whose values are strings; `None` and the
/// empty map are elided.
pub fn attribute_map_optional(
    obj: &mut JsonObject,
    attribute: &'static str,
    m: Option<Vec<(String, String)>>,
)
    ensures
        entries_dv(final(obj)@) == spec_attr_map_optional(
            entries_dv(old(obj)@),
            attribute@,
            m.deep_view(),
        ),
{
    broadcast use crate::json::group_json_dv;

    let m = match m {
        Some(m) => m,
        None => {
            return ;
        },
    };
    if m.len() == 0 {
        return ;
    }
    let ghost mdv = m.deep_view();
    let mut entries: JsonObject = Vec::new();
    let mut i: usize = 0;
    let n = m.len();
    let mut m = m;
    proof {
        assert(m.deep_view() =~= mdv);
    }
    while i < n
        invariant
            i <= n,
            n == mdv.len(),
            m@.len() == n - i,
            forall|j: int| #![trigger m@[j]] 0 <= j < m@.len() ==> m@[j].0@ == mdv[i + j].0
                && m@[j].1@ == mdv[i + j].1,
            entries_dv(entries@) =~= text_entries(mdv).take(i as int),
        decreases n - i,
    {
        let p = m.remove(0);
        entries.push((p.0, Json::Text(p.1)));
        i += 1;
        proof {
            assert(entries_dv(entries@) =~= text_entries(mdv).take(i as int));
        }
    }
    proof {
        assert(text_entries(mdv).take(n as int) =~= text_entries(mdv));
    }
    obj.push((attribute.to_owned(), Json::Object(entries)));
}

/// The model of string-to-optional-string entries as a JSON object; a `None`
/// value becomes `null`.
pub open spec fn text_or_null_entries(m: Seq<(Seq<char>, Option<Seq<char>>)>) -> Seq<
    (Seq<char>, JsonV),
> {
    m.map_values(
        |p: (Seq<char>, Option<Seq<char>>)|
            (
                p.0,
                match p.1 {
                    Some(s) => JsonV::Text(s),
                    None => JsonV::Null,
                },
            ),
    )
}

/// Model of [`attribute_map_or_null_optional`].
pub open spec fn spec_attr_map_or_null_optional(
    s: Seq<(Seq<char>, JsonV)>,
    key: Seq<char>,
    m: Option<Seq<(Seq<char>, Option<Seq<char>>)>>,
) -> Seq<(Seq<char>, JsonV)> {
    match m {
        Some(m) => if m.len() > 0 {
            s.push((key, JsonV::Object(text_or_null_entries(m))))
        } else {
            s
        },
        None => s,
    }
}

/// Writes an optional map attribute whose values are each a string or
/// `null`; `None` and the empty map are elided.
pub fn attribute_map_or_null_optional(
    obj: &mut JsonObject,
    attribute: &'static str,
    m: Option<Vec<(String, Option<String>)>>,
)
    ensures
        entries_dv(final(obj)@) == spec_attr_map_or_null_optional(
            entries_dv(old(obj)@),
            attribute@,
            m.deep_view(),
        ),
{
    broadcast use crate::json::group_json_dv;

    let m = match m {
        Some(m) => m,
        None => {
            return ;
        },
    };
    if m.len() == 0 {
        return ;
    }
    let ghost mdv = m.deep_view();
    let mut entries: JsonObject = Vec::new();
    let mut i: usize = 0;
    let n = m.len();
    let mut m = m;
    proof {
        assert(m.deep_view() =~= mdv);
    }
    while i < n
        invariant
            i <= n,
            n == mdv.len(),
            m@.len() == n - i,
            forall|j: int| #![trigger m@[j]] 0 <= j < m@.len() ==> m@[j].0@ == mdv[i + j].0
                && m@[j].1.deep_view() == mdv[i + j].1,
            entries_dv(entries@) =~= text_or_null_entries(mdv).take(i as int),
        decreases n - i,
    {
        let p = m.remove(0);
        match p.1 {
            Some(s) => entries.push((p.0, Json::Text(s))),
            None => entries.push((p.0, Json::Null)),
        }
        i += 1;
        proof {
            assert(entries_dv(entries@) =~= text_or_null_entries(mdv).take(i as int));
        }
    }
    proof {
        assert(text_or_null_entries(mdv).take(n as int) =~= text_or_null_entries(mdv));
    }
    obj.push((attribute.to_owned(), Json::Object(entries)));
}

// ---------------------------------------------------------------------------
// Looking up what the writers wrote
// ---------------------------------------------------------------------------

/// Looking up in an object extended by one entry: an earlier entry wins, the
/// new entry answers its own key, and otherwise there is no match.
pub broadcast proof fn lemma_lookup_push(
    s: Seq<(Seq<char>, JsonV)>,
    p: (Seq<char>, JsonV),
    key: Seq<char>,
)
    ensures
        #[trigger] lookup(s.push(p), key) == if lookup(s, key) is Some {
            lookup(s, key)
        } else if p.0 == key {
            Some(p.1)
        } else {
            None
        },
{
    reveal_with_fuel(lookup, 3);
    assert(s.push(p) =~= s + seq![p]);
    crate::json::lemma_lookup_append(s, seq![p], key);
    assert(seq![p].drop_first() =~= Seq::<(Seq<char>, JsonV)>::empty());
}

/// Looking up in the empty object finds nothing.
pub broadcast proof fn lemma_lookup_empty(key: Seq<char>)
    ensures
        #[trigger] lookup(Seq::<(Seq<char>, JsonV)>::empty(), key) is None,
{
}

/// What a written unsigned integer attribute looks up as.
pub broadcast proof fn lemma_lookup_attr_u64(
    s: Seq<(Seq<char>, JsonV)>,
    k: Seq<char>,
    n: u64,
    key: Seq<char>,
)
    ensures
        #[trigger] lookup(spec_attr_u64(s, k, n), key) == if lookup(s, key) is Some {
            lookup(s, key)
        } else if k == key {
            Some(JsonV::U64(n))
        } else {
            None
        },
{
    lemma_lookup_push(s, (k, JsonV::U64(n)), key);
}

/// What a written optional unsigned integer attribute looks up as.
pub broadcast proof fn lemma_lookup_attr_u64_optional(
    s: Seq<(Seq<char>, JsonV)>,
    k: Seq<char>,
    n: Option<u64>,
    key: Seq<char>,
)
    ensures
        #[trigger] lookup(spec_attr_u64_optional(s, k, n), key) == if lookup(s, key) is Some {
            lookup(s, key)
        } else if k == key && n is Some {
            Some(JsonV::U64(n->0))
        } else {
            None
        },
{
    match n {
        Some(n) => lemma_lookup_push(s, (k, JsonV::U64(n)), key),
        None => (),
    }
}

/// What a written optional 32-bit unsigned integer attribute looks up as.
pub broadcast proof fn lemma_lookup_attr_u32_optional(
    s: Seq<(Seq<char>, JsonV)>,
    k: Seq<char>,
    n: Option<u32>,
    key: Seq<char>,
)
    ensures
        #[trigger] lookup(spec_attr_u32_optional(s, k, n), key) == if lookup(s, key) is Some {
            lookup(s, key)
        } else if k == key && n is Some {
            Some(JsonV::U64(n->0 as u64))
        } else {
            None
        },
{
    match n {
        Some(n) => lemma_lookup_push(s, (k, JsonV::U64(n as u64)), key),
        None => (),
    }
}

/// What a written optional signed integer attribute looks up as.
pub broadcast proof fn lemma_lookup_attr_i64_optional(
    s: Seq<(Seq<char>, JsonV)>,
    k: Seq<char>,
    n: Option<i64>,
    key: Seq<char>,
)
    ensures
        #[trigger] lookup(spec_attr_i64_optional(s, k, n), key) == if lookup(s, key) is Some {
            lookup(s, key)
        } else if k == key && n is Some {
            if n->0 >= 0 {
                Some(JsonV::U64(n->0 as u64))
            } else {
                Some(JsonV::I64(n->0))
            }
        } else {
            None
        },
{
    match n {
        Some(n) => if n >= 0 {
            lemma_lookup_push(s, (k, JsonV::U64(n as u64)), key)
        } else {
            lemma_lookup_push(s, (k, JsonV::I64(n)), key)
        },
        None => (),
    }
}

/// What a written boolean attribute looks up as.
pub broadcast proof fn lemma_lookup_attr_bool(
    s: Seq<(Seq<char>, JsonV)>,
    k: Seq<char>,
    b: bool,
    key: Seq<char>,
)
    ensures
        #[trigger] lookup(spec_attr_bool(s, k, b), key) == if lookup(s, key) is Some {
            lookup(s, key)
        } else if k == key {
            Some(JsonV::Bool(b))
        } else {
            None
        },
{
    lemma_lookup_push(s, (k, JsonV::Bool(b)), key);
}

/// What a written default-`false` boolean attribute looks up as.
pub broadcast proof fn lemma_lookup_attr_bool_optional(
    s: Seq<(Seq<char>, JsonV)>,
    k: Seq<char>,
    b: bool,
    key: Seq<char>,
)
    ensures
        #[trigger] lookup(spec_attr_bool_optional(s, k, b), key) == if lookup(s, key) is Some {
            lookup(s, key)
        } else if k == key && b {
            Some(JsonV::Bool(true))
        } else {
            None
        },
{
    if b {
        lemma_lookup_push(s, (k, JsonV::Bool(true)), key);
    }
}

/// What a written string attribute looks up as.
pub broadcast proof fn lemma_lookup_attr_string(
    s: Seq<(Seq<char>, JsonV)>,
    k: Seq<char>,
    v: Seq<char>,
    key: Seq<char>,
)
    ensures
        #[trigger] lookup(spec_attr_string(s, k, v), key) == if lookup(s, key) is Some {
            lookup(s, key)
        } else if k == key {
            Some(JsonV::Text(v))
        } else {
            None
        },
{
    lemma_lookup_push(s, (k, JsonV::Text(v)), key);
}

/// What a written optional string attribute looks up as.
pub broadcast proof fn lemma_lookup_attr_string_optional(
    s: Seq<(Seq<char>, JsonV)>,
    k: Seq<char>,
    v: Option<Seq<char>>,
    key: Seq<char>,
)
    ensures
        #[trigger] lookup(spec_attr_string_optional(s, k, v), key) == if lookup(s, key) is Some {
            lookup(s, key)
        } else if k == key && v is Some {
            Some(JsonV::Text(v->0))
        } else {
            None
        },
{
    match v {
        Some(v) => lemma_lookup_push(s, (k, JsonV::Text(v)), key),
        None => (),
    }
}

/// What a written raw attribute looks up as.
pub broadcast proof fn lemma_lookup_attr_json(
    s: Seq<(Seq<char>, JsonV)>,
    k: Seq<char>,
    v: JsonV,
    key: Seq<char>,
)
    ensures
        #[trigger] lookup(spec_attr_json(s, k, v), key) == if lookup(s, key) is Some {
            lookup(s, key)
        } else if k == key {
            Some(v)
        } else {
            None
        },
{
    lemma_lookup_push(s, (k, v), key);
}

/// What a written optional raw attribute looks up as.
pub broadcast proof fn lemma_lookup_attr_optional(
    s: Seq<(Seq<char>, JsonV)>,
    k: Seq<char>,
    v: Option<JsonV>,
    key: Seq<char>,
)
    ensures
        #[trigger] lookup(spec_attr_optional(s, k, v), key) == if lookup(s, key) is Some {
            lookup(s, key)
        } else if k == key && v is Some && !(v->0 is Null) {
            Some(v->0)
        } else {
            None
        },
{
    match v {
        Some(JsonV::Null) => (),
        Some(v) => lemma_lookup_push(s, (k, v), key),
        None => (),
    }
}

/// What a written array attribute looks up as.
pub broadcast proof fn lemma_lookup_attr_array(
    s: Seq<(Seq<char>, JsonV)>,
    k: Seq<char>,
    a: Seq<JsonV>,
    key: Seq<char>,
)
    ensures
        #[trigger] lookup(spec_attr_array(s, k, a), key) == if lookup(s, key) is Some {
            lookup(s, key)
        } else if k == key {
            Some(JsonV::Array(a))
        } else {
            None
        },
{
    lemma_lookup_push(s, (k, JsonV::Array(a)), key);
}

/// What a written elide-if-empty array attribute looks up as.
pub broadcast proof fn lemma_lookup_attr_array_optional(
    s: Seq<(Seq<char>, JsonV)>,
    k: Seq<char>,
    a: Seq<JsonV>,
    key: Seq<char>,
)
    ensures
        #[trigger] lookup(spec_attr_array_optional(s, k, a), key) == if lookup(s, key) is Some {
            lookup(s, key)
        } else if k == key && a.len() > 0 {
            Some(JsonV::Array(a))
        } else {
            None
        },
{
    if a.len() > 0 {
        lemma_lookup_push(s, (k, JsonV::Array(a)), key);
    }
}

/// What a written optional map attribute looks up as.
pub broadcast proof fn lemma_lookup_attr_map_optional(
    s: Seq<(Seq<char>, JsonV)>,
    k: Seq<char>,
    m: Option<Seq<(Seq<char>, Seq<char>)>>,
    key: Seq<char>,
)
    ensures
        #[trigger] lookup(spec_attr_map_optional(s, k, m), key) == if lookup(s, key) is Some {
            lookup(s, key)
        } else if k == key && m is Some && m->0.len() > 0 {
            Some(JsonV::Object(text_entries(m->0)))
        } else {
            None
        },
{
    match m {
        Some(m) => if m.len() > 0 {
            lemma_lookup_push(s, (k, JsonV::Object(text_entries(m))), key);
        },
        None => (),
    }
}

/// What a written optional string-or-`null` map attribute looks up as.
pub broadcast proof fn lemma_lookup_attr_map_or_null_optional(
    s: Seq<(Seq<char>, JsonV)>,
    k: Seq<char>,
    m: Option<Seq<(Seq<char>, Option<Seq<char>>)>>,
    key: Seq<char>,
)
    ensures
        #[trigger] lookup(spec_attr_map_or_null_optional(s, k, m), key) == if lookup(s, key)
            is Some {
            lookup(s, key)
        } else if k == key && m is Some && m->0.len() > 0 {
            Some(JsonV::Object(text_or_null_entries(m->0)))
        } else {
            None
        },
{
    match m {
        Some(m) => if m.len() > 0 {
            lemma_lookup_push(s, (k, JsonV::Object(text_or_null_entries(m))), key);
        },
        None => (),
    }
}

/// The lookup facts for every writer, usable as one.
pub broadcast group group_lookup_attrs {
    lemma_lookup_push,
    lemma_lookup_empty,
    lemma_lookup_attr_u64,
    lemma_lookup_attr_u64_optional,
    lemma_lookup_attr_u32_optional,
    lemma_lookup_attr_i64_optional,
    lemma_lookup_attr_bool,
    lemma_lookup_attr_bool_optional,
    lemma_lookup_attr_string,
    lemma_lookup_attr_string_optional,
    lemma_lookup_attr_json,
    lemma_lookup_attr_optional,
    lemma_lookup_attr_array,
    lemma_lookup_attr_array_optional,
    lemma_lookup_attr_map_optional,
    lemma_lookup_attr_map_or_null_optional,
}

} // verus!

