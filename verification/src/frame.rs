//! The byte framing around every message: `Content-Length: <N>` headers, a
//! blank line, then `<N>` bytes of JSON, with a slice decoder and a
//! stream-style decoder.

use vstd::prelude::*;

use crate::error::{Cause, Error, ErrorV};
use crate::json::{json_parse, json_text, json_wf, Json, JsonV};
use crate::protocol::{ProtocolMessage, ProtocolMessageV};
use crate::utils::{errv, rdv};

verus! {

broadcast use vstd::std_specs::vec::group_vec_axioms, vstd::string::group_string_axioms;

/// Whether a byte is an ASCII decimal digit.
pub open spec fn is_digit(b: u8) -> bool {
    48 <= b <= 57
}

/// Whether every byte is ASCII.
pub open spec fn all_ascii(b: Seq<u8>) -> bool {
    forall|i: int| 0 <= i < b.len() ==> b[i] < 128
}

/// Whether bytes that are not pure ASCII form valid UTF-8; what
/// `str::from_utf8` accepts on them.
pub uninterp spec fn utf8_extra(b: Seq<u8>) -> bool;

/// Whether bytes are valid UTF-8: ASCII always is; the rest is what
/// `str::from_utf8` accepts.
pub open spec fn utf8_ok(b: Seq<u8>) -> bool {
    all_ascii(b) || utf8_extra(b)
}

/// Relies on `str::from_utf8`: returns whether the bytes are valid UTF-8.
/// ASCII bytes always are.
#[verifier::external_body]
fn utf8_check(b: &[u8]) -> (r: bool)
    ensures
        r == (all_ascii(b@) || utf8_extra(b@)),
{
    core::str::from_utf8(b).is_ok()
}

/// The decimal digits of a number, most significant first.
pub open spec fn decimal(n: nat) -> Seq<u8>
    decreases n,
{
    if n < 10 {
        seq![(48 + n) as u8]
    } else {
        decimal(n / 10).push((48 + n % 10) as u8)
    }
}

/// Writes a number in decimal.
fn to_decimal(n: usize) -> (r: Vec<u8>)
    ensures
        r@ == decimal(n as nat),
    decreases n,
{
    if n < 10 {
        let mut v: Vec<u8> = Vec::new();
        v.push(48 + (n as u8));
        proof {
            assert(v@ =~= decimal(n as nat));
        }
        v
    } else {
        let mut v = to_decimal(n / 10);
        v.push(48 + ((n % 10) as u8));
        v
    }
}

/// Reads a decimal number from the front, overflow and stray bytes
/// rejected.
pub open spec fn parse_usize_from(s: Seq<u8>, acc: usize) -> Option<usize>
    decreases s.len(),
{
    if s.len() == 0 {
        Some(acc)
    } else if !is_digit(s[0]) {
        None
    } else if acc > (usize::MAX - (s[0] - 48)) / 10 {
        None
    } else {
        parse_usize_from(s.drop_first(), (acc * 10 + (s[0] - 48)) as usize)
    }
}

/// Reads a whole decimal number: at least one digit, nothing else.
pub open spec fn parse_usize(s: Seq<u8>) -> Option<usize> {
    if s.len() == 0 {
        None
    } else {
        parse_usize_from(s, 0)
    }
}

/// Parses a decimal number, digit by digit from index `i`.
fn parse_usize_exec_from(s: &[u8], i: usize, acc: usize) -> (r: Option<usize>)
    requires
        i <= s@.len(),
    ensures
        r == parse_usize_from(s@.skip(i as int), acc),
    decreases s@.len() - i,
{
    let ghost rem = s@.skip(i as int);
    if i == s.len() {
        proof {
            assert(rem =~= Seq::<u8>::empty());
        }
        Some(acc)
    } else {
        proof {
            assert(rem[0] == s@[i as int]);
            assert(rem.drop_first() =~= s@.skip(i + 1));
        }
        let b = s[i];
        if !(48 <= b && b <= 57) {
            None
        } else if acc > (usize::MAX - ((b - 48) as usize)) / 10 {
            None
        } else {
            parse_usize_exec_from(s, i + 1, acc * 10 + ((b - 48) as usize))
        }
    }
}

/// Parses a whole decimal number.
fn parse_usize_exec(s: &[u8]) -> (r: Option<usize>)
    ensures
        r == parse_usize(s@),
{
    if s.len() == 0 {
        None
    } else {
        proof {
            assert(s@.skip(0) =~= s@);
        }
        parse_usize_exec_from(s, 0, 0)
    }
}

/// Reading one more digit at the end of a number.
proof fn lemma_parse_push(s: Seq<u8>, d: u8, acc: usize)
    requires
        is_digit(d),
    ensures
        parse_usize_from(s.push(d), acc) == (match parse_usize_from(s, acc) {
            Some(v) => if v > (usize::MAX - (d - 48)) / 10 {
                None
            } else {
                Some((v * 10 + (d - 48)) as usize)
            },
            None => None,
        }),
    decreases s.len(),
{
    reveal_with_fuel(parse_usize_from, 3);
    let sp = s.push(d);
    if s.len() == 0 {
        assert(sp[0] == d);
        assert(sp.drop_first() =~= Seq::<u8>::empty());
    } else {
        assert(sp[0] == s[0]);
        assert(sp.drop_first() =~= s.drop_first().push(d));
        if is_digit(s[0]) && acc <= (usize::MAX - (s[0] - 48)) / 10 {
            lemma_parse_push(s.drop_first(), d, (acc * 10 + (s[0] - 48)) as usize);
        }
    }
}

/// The digits of a number are digits.
proof fn lemma_decimal_digits(n: nat)
    ensures
        forall|i: int| 0 <= i < decimal(n).len() ==> is_digit(#[trigger] decimal(n)[i]),
        decimal(n).len() >= 1,
    decreases n,
{
    if n >= 10 {
        lemma_decimal_digits(n / 10);
    }
}

/// A number written in decimal reads back as itself.
proof fn lemma_decimal_roundtrip(n: usize)
    ensures
        parse_usize(decimal(n as nat)) == Some(n),
{
    lemma_decimal_digits(n as nat);
    lemma_pow10_pos(decimal(n as nat).len() as nat);
    lemma_decimal_roundtrip_from(n, 0);
}

/// A number written in decimal reads back as itself, on top of whatever was
/// read before it, as long as the total fits.
proof fn lemma_decimal_roundtrip_from(n: usize, acc: usize)
    requires
        n as int + acc as int * pow10(decimal(n as nat).len() as nat) <= usize::MAX as int,
    ensures
        parse_usize_from(decimal(n as nat), acc) == Some(
            (acc as int * pow10(decimal(n as nat).len() as nat) + n) as usize,
        ),
    decreases n,
{
    reveal_with_fuel(parse_usize_from, 2);
    lemma_decimal_digits(n as nat);
    if n < 10 {
        let s = decimal(n as nat);
        assert(s =~= seq![(48 + n as nat) as u8]);
        assert(pow10(1) == 10) by {
            reveal_with_fuel(pow10, 2);
        }
        assert(s.drop_first() =~= Seq::<u8>::empty());
        assert(acc <= (usize::MAX - (s[0] - 48)) / 10) by (nonlinear_arith)
            requires
                n < 10,
                s[0] == (48 + n as nat) as u8,
                n as int + acc as int * 10 <= usize::MAX as int,
        ;
    } else {
        let m = n as nat;
        let s = decimal(m);
        let head = decimal(m / 10);
        let d = (48 + m % 10) as u8;
        assert(s == head.push(d));
        lemma_decimal_digits(m / 10);
        lemma_pow10_pos(head.len() as nat);
        assert(pow10(s.len() as nat) == 10 * pow10(head.len() as nat)) by {
            assert(s.len() == head.len() + 1);
            reveal_with_fuel(pow10, 2);
        }
        assert((n / 10) as int + acc as int * pow10(head.len() as nat) <= usize::MAX as int)
            by (nonlinear_arith)
            requires
                n as int + acc as int * (10 * pow10(head.len() as nat)) <= usize::MAX as int,
                n >= 10,
                acc >= 0,
                pow10(head.len() as nat) >= 1,
        ;
        lemma_decimal_roundtrip_from(n / 10, acc);
        lemma_parse_push(head, d, acc);
        let v = (acc as int * pow10(head.len() as nat) + (n / 10) as int) as usize;
        assert(v as int * 10 + (d - 48) == acc as int * (10 * pow10(head.len() as nat))
            + n as int) by (nonlinear_arith)
            requires
                v as int == acc as int * pow10(head.len() as nat) + (n / 10) as int,
                d == (48 + (n as nat) % 10) as u8,
                n >= 10,
                n <= usize::MAX,
        ;
        assert(v <= (usize::MAX - (d - 48)) / 10);
    }
}

/// Powers of ten.
pub open spec fn pow10(k: nat) -> int
    decreases k,
{
    if k == 0 {
        1int
    } else {
        10 * pow10((k - 1) as nat)
    }
}

/// Ten to any power is positive.
proof fn lemma_pow10_pos(k: nat)
    ensures
        pow10(k) >= 1,
    decreases k,
{
    if k > 0 {
        lemma_pow10_pos((k - 1) as nat);
    }
}

/// Whether the frame separator `\r\n\r\n` sits at index `i`.
pub open spec fn sep_at(b: Seq<u8>, i: int) -> bool {
    &&& i + 4 <= b.len()
    &&& b[i] == 13
    &&& b[i + 1] == 10
    &&& b[i + 2] == 13
    &&& b[i + 3] == 10
}

/// The first index at or after `i` where the frame separator sits.
pub open spec fn find_sep_from(b: Seq<u8>, i: int) -> Option<int>
    decreases b.len() - i,
{
    if i < 0 || i + 4 > b.len() {
        None
    } else if sep_at(b, i) {
        Some(i)
    } else {
        find_sep_from(b, i + 1)
    }
}

/// Finds the frame separator.
fn find_sep(b: &[u8]) -> (r: Option<usize>)
    ensures
        match r {
            Some(i) => find_sep_from(b@, 0) == Some(i as int),
            None => find_sep_from(b@, 0) is None,
        },
{
    if b.len() < 4 {
        return None;
    }
    let n = b.len();
    let mut i: usize = 0;
    while i <= n - 4
        invariant
            n == b@.len(),
            n >= 4,
            i <= n - 3,
            find_sep_from(b@, 0) == find_sep_from(b@, i as int),
        decreases n - i,
    {
        if b[i] == 13 && b[i + 1] == 10 && b[i + 2] == 13 && b[i + 3] == 10 {
            return Some(i);
        }
        i += 1;
    }
    None
}

/// The first index at or after `i` holding a line feed.
pub open spec fn find_nl_from(b: Seq<u8>, i: int) -> Option<int>
    decreases b.len() - i,
{
    if i < 0 || i >= b.len() {
        None
    } else if b[i] == 10 {
        Some(i)
    } else {
        find_nl_from(b, i + 1)
    }
}

/// Finds the next line feed at or after `i`.
fn find_nl(b: &[u8], from: usize) -> (r: Option<usize>)
    requires
        from <= b@.len(),
    ensures
        match r {
            Some(i) => find_nl_from(b@, from as int) == Some(i as int) && from <= i < b@.len(),
            None => find_nl_from(b@, from as int) is None,
        },
{
    let mut i: usize = from;
    while i < b.len()
        invariant
            from <= i <= b@.len(),
            find_nl_from(b@, from as int) == find_nl_from(b@, i as int),
        decreases b.len() - i,
    {
        if b[i] == 10 {
            return Some(i);
        }
        i += 1;
    }
    None
}

/// A byte lowered as ASCII.
pub open spec fn to_lower(b: u8) -> u8 {
    if 65 <= b <= 90 {
        (b + 32) as u8
    } else {
        b
    }
}

/// A byte sequence lowered as ASCII.
pub open spec fn lower_all(s: Seq<u8>) -> Seq<u8> {
    s.map_values(|b: u8| to_lower(b))
}

/// The bytes of the `content-length` header name, lower case.
pub open spec fn cl_name() -> Seq<u8> {
    seq![99u8, 111u8, 110u8, 116u8, 101u8, 110u8, 116u8, 45u8, 108u8, 101u8, 110u8, 103u8, 116u8, 104u8]
}

/// A line without its trailing carriage return, if any.
pub open spec fn strip_cr(l: Seq<u8>) -> Seq<u8> {
    if l.len() > 0 && l.last() == 13 {
        l.drop_last()
    } else {
        l
    }
}

/// The first index at or after `i` where `": "` sits.
pub open spec fn find_colon_sp(l: Seq<u8>, i: int) -> Option<int>
    decreases l.len() - i,
{
    if i < 0 || i + 2 > l.len() {
        None
    } else if l[i] == 58 && l[i + 1] == 32 {
        Some(i)
    } else {
        find_colon_sp(l, i + 1)
    }
}

/// What one header line contributes: the value of its `Content-Length`
/// header, name matched without regard to case, or nothing.
pub open spec fn line_cl(l0: Seq<u8>) -> Option<usize> {
    let l = strip_cr(l0);
    match find_colon_sp(l, 0) {
        None => None,
        Some(i) => {
            if lower_all(l.take(i)) == cl_name() {
                parse_usize(l.skip(i + 2))
            } else {
                None
            }
        },
    }
}

/// A found line feed lies within the buffer, at or after where the search
/// began.
pub proof fn lemma_find_nl_bounds(b: Seq<u8>, p: int, i: int)
    requires
        find_nl_from(b, p) == Some(i),
        0 <= p,
    ensures
        p <= i < b.len(),
        b[i] == 10,
    decreases b.len() - p,
{
    if p < b.len() && b[p] != 10 {
        lemma_find_nl_bounds(b, p + 1, i);
    }
}

/// The first `Content-Length` among the header lines from `p` on; lines are
/// separated by line feeds, and the last needs no line feed.
pub open spec fn header_cl_from(h: Seq<u8>, p: int) -> Option<usize>
    decreases h.len() - p,
    via header_cl_from_decreases
{
    if p < 0 || p > h.len() {
        None
    } else {
        match find_nl_from(h, p) {
            None => line_cl(h.subrange(p, h.len() as int)),
            Some(j) => match line_cl(h.subrange(p, j)) {
                Some(v) => Some(v),
                None => header_cl_from(h, j + 1),
            },
        }
    }
}

#[via_fn]
proof fn header_cl_from_decreases(h: Seq<u8>, p: int) {
    if 0 <= p <= h.len() {
        match find_nl_from(h, p) {
            Some(j) => {
                lemma_find_nl_bounds(h, p, j);
            },
            None => (),
        }
    }
}

/// A found `": "` lies within the line.
proof fn lemma_find_colon_bounds(l: Seq<u8>, p: int, i: int)
    requires
        find_colon_sp(l, p) == Some(i),
        0 <= p,
    ensures
        p <= i,
        i + 2 <= l.len(),
    decreases l.len() - p,
{
    if p + 2 <= l.len() && !(l[p] == 58 && l[p + 1] == 32) {
        lemma_find_colon_bounds(l, p + 1, i);
    }
}

/// Finds the first `": "` in the line's first `end` bytes.
fn find_colon_sp_exec(l: &[u8], end: usize) -> (r: Option<usize>)
    requires
        end <= l@.len(),
    ensures
        match r {
            Some(i) => find_colon_sp(l@.subrange(0, end as int), 0) == Some(i as int),
            None => find_colon_sp(l@.subrange(0, end as int), 0) is None,
        },
{
    let ghost sl = l@.subrange(0, end as int);
    if end < 2 {
        return None;
    }
    let mut i: usize = 0;
    while i <= end - 2
        invariant
            end >= 2,
            end <= l@.len(),
            sl == l@.subrange(0, end as int),
            i <= end - 1,
            find_colon_sp(sl, 0) == find_colon_sp(sl, i as int),
        decreases end - i,
    {
        if l[i] == 58 && l[i + 1] == 32 {
            return Some(i);
        }
        i += 1;
    }
    None
}

/// Reads one header line's `Content-Length` value, if that is what it holds.
fn line_cl_exec(l: &[u8]) -> (r: Option<usize>)
    ensures
        r == line_cl(l@),
{
    let end: usize = if l.len() > 0 && l[l.len() - 1] == 13 {
        l.len() - 1
    } else {
        l.len()
    };
    let ghost sl = strip_cr(l@);
    proof {
        assert(sl =~= l@.subrange(0, end as int));
    }
    let ci = match find_colon_sp_exec(l, end) {
        Some(ci) => ci,
        None => {
            return None;
        },
    };
    proof {
        lemma_find_colon_bounds(sl, 0, ci as int);
    }
    // the name must be content-length, matched without regard to case
    if ci != 14 {
        proof {
            assert(lower_all(sl.take(ci as int)).len() == ci);
            assert(cl_name().len() == 14);
        }
        return None;
    }
    let expected: [u8; 14] = [99, 111, 110, 116, 101, 110, 116, 45, 108, 101, 110, 103, 116, 104];
    proof {
        assert(expected@ =~= cl_name());
    }
    let mut k: usize = 0;
    while k < 14
        invariant
            k <= 14,
            ci == 14,
            ci + 2 <= end <= l@.len(),
            sl == l@.subrange(0, end as int),
            sl == strip_cr(l@),
            find_colon_sp(sl, 0) == Some(ci as int),
            expected@ == cl_name(),
            forall|j: int| 0 <= j < k ==> #[trigger] lower_all(sl.take(14))[j] == cl_name()[j],
        decreases 14 - k,
    {
        let b = l[k];
        let lowered: u8 = if 65 <= b && b <= 90 {
            b + 32
        } else {
            b
        };
        if lowered != expected[k] {
            proof {
                assert(lower_all(sl.take(14))[k as int] == to_lower(sl.take(14)[k as int]));
                assert(lower_all(sl.take(14)) != cl_name());
            }
            return None;
        }
        proof {
            assert(lower_all(sl.take(14))[k as int] == to_lower(sl.take(14)[k as int]));
        }
        k += 1;
    }
    proof {
        assert(lower_all(sl.take(14)) =~= cl_name());
    }
    // parse the value
    let value = vstd::slice::slice_subrange(l, ci + 2, end);
    proof {
        assert(value@ =~= sl.skip(ci + 2));
    }
    parse_usize_exec(value)
}

/// Scans header lines for the first `Content-Length`.
fn header_cl_exec(h: &[u8]) -> (r: Option<usize>)
    ensures
        r == header_cl_from(h@, 0),
{
    let hn = h.len();
    let mut p: usize = 0;
    loop
        invariant
            hn == h@.len(),
            p <= hn,
            header_cl_from(h@, 0) == header_cl_from(h@, p as int),
        decreases h@.len() - p,
    {
        match find_nl(h, p) {
            None => {
                let line = vstd::slice::slice_subrange(h, p, h.len());
                proof {
                    assert(line@ =~= h@.subrange(p as int, h@.len() as int));
                }
                return line_cl_exec(line);
            },
            Some(j) => {
                let line = vstd::slice::slice_subrange(h, p, j);
                proof {
                    assert(line@ =~= h@.subrange(p as int, j as int));
                }
                match line_cl_exec(line) {
                    Some(v) => {
                        return Some(v);
                    },
                    None => {
                        p = j + 1;
                    },
                }
            },
        }
    }
}

/// The bytes of the frame header prefix, `Content-Length: `.
pub open spec fn ct_prefix() -> Seq<u8> {
    seq![67u8, 111u8, 110u8, 116u8, 101u8, 110u8, 116u8, 45u8, 76u8, 101u8, 110u8, 103u8, 116u8, 104u8, 58u8, 32u8]
}

/// The bytes of the frame separator.
pub open spec fn crlfcrlf() -> Seq<u8> {
    seq![13u8, 10u8, 13u8, 10u8]
}

/// The full framed form of a message: the header, the blank line, and the
/// serialized JSON body.
pub open spec fn adapter_message(m: ProtocolMessageV) -> Seq<u8> {
    let body = json_text(m.enc());
    ct_prefix() + decimal(body.len()) + crlfcrlf() + body
}

/// What decoding a frame from the front of a buffer yields: the count of
/// bytes consumed and the message, or the error.
pub open spec fn spec_try_from_bytes(b: Seq<u8>) -> Result<(int, ProtocolMessageV), ErrorV> {
    match find_sep_from(b, 0) {
        None => Err(errv("protocolMessage"@, Cause::IsMandatory)),
        Some(i) => {
            let header = b.take(i);
            if !utf8_ok(header) {
                Err(errv("protocolMessage"@, Cause::InvalidUtf8))
            } else {
                match header_cl_from(header, 0) {
                    None => Err(errv("protocolMessage"@, Cause::IsMandatory)),
                    Some(len) => {
                        let body_start = i + 4;
                        if b.len() - body_start < len {
                            Err(errv("protocolMessage"@, Cause::UnexpectedEof))
                        } else {
                            let body = b.subrange(body_start, body_start + len);
                            match json_parse(body) {
                                None => Err(errv("protocolMessage"@, Cause::IsInvalid)),
                                Some(j) => match ProtocolMessageV::dec(j) {
                                    Err(e) => Err(e),
                                    Ok(m) => Ok((body_start + len, m)),
                                },
                            }
                        }
                    },
                }
            }
        },
    }
}

impl ProtocolMessage {
    /// Frames this message: the header names the byte length of the
    /// serialized JSON body that follows the blank line.
    pub fn into_adapter_message(self) -> (r: Vec<u8>)
        ensures
            r@ == adapter_message(self.deep_view()),
    {
        let ghost mdv = self.deep_view();
        let payload = self.into_json().to_bytes();
        let mut out: Vec<u8> = Vec::new();
        out.push(67);
        out.push(111);
        out.push(110);
        out.push(116);
        out.push(101);
        out.push(110);
        out.push(116);
        out.push(45);
        out.push(76);
        out.push(101);
        out.push(110);
        out.push(103);
        out.push(116);
        out.push(104);
        out.push(58);
        out.push(32);
        proof {
            assert(out@ =~= ct_prefix());
        }
        let mut digits = to_decimal(payload.len());
        out.append(&mut digits);
        out.push(13);
        out.push(10);
        out.push(13);
        out.push(10);
        let mut payload = payload;
        out.append(&mut payload);
        proof {
            assert(out@ =~= adapter_message(mdv));
        }
        out
    }

    /// Decodes a message from JSON text alone, unframed.
    pub fn try_from_json_bytes(bytes: &[u8]) -> (r: Result<ProtocolMessage, Error>)
        ensures
            rdv(r) == (match json_parse(bytes@) {
                None => Err::<ProtocolMessageV, ErrorV>(errv("protocolMessage"@, Cause::IsInvalid)),
                Some(j) => ProtocolMessageV::dec(j),
            }),
    {
        match Json::parse(bytes) {
            None => Err(Error::new("protocolMessage", Cause::IsInvalid)),
            Some(j) => ProtocolMessage::try_from(&j),
        }
    }

    /// Decodes one frame from the front of a buffer, returning how many
    /// bytes it consumed; what follows is left untouched.
    pub fn try_from_bytes(bytes: &[u8]) -> (r: Result<(usize, ProtocolMessage), Error>)
        ensures
            match r {
                Ok((n, m)) => spec_try_from_bytes(bytes@) == Ok::<_, ErrorV>(
                    (n as int, m.deep_view()),
                ),
                Err(e) => spec_try_from_bytes(bytes@) == Err::<(int, ProtocolMessageV), _>(
                    e.deep_view(),
                ),
            },
    {
        let n = bytes.len();
        let i = match find_sep(bytes) {
            None => {
                return Err(Error::new("protocolMessage", Cause::IsMandatory));
            },
            Some(i) => i,
        };
        proof {
            lemma_find_sep_bounds(bytes@, 0, i as int);
        }
        let header = vstd::slice::slice_subrange(bytes, 0, i);
        proof {
            assert(header@ =~= bytes@.take(i as int));
        }
        if !utf8_check(header) {
            return Err(Error::new("protocolMessage", Cause::InvalidUtf8));
        }
        let len = match header_cl_exec(header) {
            None => {
                return Err(Error::new("protocolMessage", Cause::IsMandatory));
            },
            Some(len) => len,
        };
        let body_start = i + 4;
        if bytes.len() - body_start < len {
            return Err(Error::new("protocolMessage", Cause::UnexpectedEof));
        }
        let body = vstd::slice::slice_subrange(bytes, body_start, body_start + len);
        let j = match Json::parse(body) {
            None => {
                return Err(Error::new("protocolMessage", Cause::IsInvalid));
            },
            Some(j) => j,
        };
        let m = ProtocolMessage::try_from(&j)?;
        Ok((body_start + len, m))
    }
}

/// The separator search skips bytes that are no carriage return.
proof fn lemma_find_sep_skip(b: Seq<u8>, p: int, k: int)
    requires
        0 <= p <= k,
        k + 4 <= b.len(),
        forall|j: int| p <= j < k ==> b[j] != 13,
    ensures
        find_sep_from(b, p) == find_sep_from(b, k),
    decreases k - p,
{
    if p < k {
        assert(!sep_at(b, p));
        lemma_find_sep_skip(b, p + 1, k);
    }
}

/// A buffer without line feeds has no line feed to find.
proof fn lemma_find_nl_none(b: Seq<u8>, p: int)
    requires
        forall|j: int| p <= j < b.len() ==> b[j] != 10,
    ensures
        find_nl_from(b, p) is None,
    decreases b.len() - p,
{
    if 0 <= p && p < b.len() {
        lemma_find_nl_none(b, p + 1);
    }
}

/// The `": "` search skips bytes that are no colon.
proof fn lemma_find_colon_skip(l: Seq<u8>, p: int, k: int)
    requires
        0 <= p <= k,
        k + 2 <= l.len(),
        forall|j: int| p <= j < k ==> l[j] != 58,
    ensures
        find_colon_sp(l, p) == find_colon_sp(l, k),
    decreases k - p,
{
    if p < k {
        lemma_find_colon_skip(l, p + 1, k);
    }
}

/// One frame followed by anything decodes from the front: the whole frame is
/// consumed, the message comes back, and what follows is untouched. The
/// premise on [`json_parse`] is exactly what the serializer's contract gives
/// every caller whose body nests within the parser's recursion limit: a
/// canonical body survives the serialize/parse round trip.
#[verifier::rlimit(100)]
pub proof fn lemma_frame_roundtrip(m: ProtocolMessageV, rest: Seq<u8>)
    requires
        m.wf(),
        json_wf(m.enc()),
        crate::json::json_depth(m.enc()) < 128,
        json_text(m.enc()).len() <= usize::MAX,
        json_parse(json_text(m.enc())) == Some(m.enc()),
    ensures
        spec_try_from_bytes(adapter_message(m) + rest) == Ok::<(int, ProtocolMessageV), ErrorV>(
            (adapter_message(m).len() as int, m),
        ),
{
    let body = json_text(m.enc());
    let dl = decimal(body.len());
    let frame = adapter_message(m);
    let b = frame + rest;
    let hlen = 16 + dl.len() as int;
    lemma_decimal_digits(body.len());
    assert(ct_prefix().len() == 16);
    assert(crlfcrlf().len() == 4);
    // the separator sits right after the single header line
    assert forall|j: int| 0 <= j < hlen implies b[j] != 13 by {
        if j < 16 {
            assert(b[j] == ct_prefix()[j]);
        } else {
            assert(b[j] == dl[j - 16]);
            assert(is_digit(dl[j - 16]));
        }
    }
    assert(sep_at(b, hlen));
    lemma_find_sep_skip(b, 0, hlen);
    assert(find_sep_from(b, 0) == Some(hlen));
    let header = b.take(hlen);
    assert forall|j: int| 0 <= j < header.len() implies header[j] < 128 by {
        if j < 16 {
            assert(header[j] == ct_prefix()[j]);
        } else {
            assert(header[j] == dl[j - 16]);
            assert(is_digit(dl[j - 16]));
        }
    }
    assert(all_ascii(header));
    // the one header line holds the length
    assert forall|j: int| 0 <= j < header.len() implies header[j] != 10 by {
        if j < 16 {
            assert(header[j] == ct_prefix()[j]);
        } else {
            assert(header[j] == dl[j - 16]);
            assert(is_digit(dl[j - 16]));
        }
    }
    lemma_find_nl_none(header, 0);
    let line = header.subrange(0, header.len() as int);
    assert(line =~= header);
    assert(strip_cr(header) == header) by {
        assert(header.last() == dl[dl.len() - 1]);
        assert(is_digit(dl[dl.len() - 1]));
    }
    assert forall|j: int| 0 <= j < 14 implies header[j] != 58 by {
        assert(header[j] == ct_prefix()[j]);
    }
    assert(header[14] == 58 && header[15] == 32);
    lemma_find_colon_skip(header, 0, 14);
    assert(find_colon_sp(header, 0) == Some(14int));
    assert(lower_all(header.take(14)) =~= cl_name());
    assert(header.skip(16) =~= dl);
    lemma_decimal_roundtrip(body.len() as usize);
    assert(header_cl_from(header, 0) == Some(body.len() as usize));
    // the body region is exactly the serialized message
    assert(b.len() - (hlen + 4) >= body.len());
    assert(b.subrange(hlen + 4, hlen + 4 + body.len() as int) =~= body);
    crate::protocol::lemma_protocol_roundtrip(m);
    assert(frame.len() == hlen + 4 + body.len());
}

/// Why the stream decoder yielded no message.
#[derive(Debug, PartialEq, Eq)]
pub enum StreamError {
    /// The buffer ends before the frame does; more bytes may complete it.
    Incomplete { error: Error },
    /// The frame is whole, but its body does not decode; consuming
    /// `consumed` bytes skips the frame and leaves the stream aligned on the
    /// next one.
    Recoverable { consumed: usize, error: Error },
    /// The frame head cannot be read, and the stream cannot be realigned.
    Broken { error: Error },
}

/// Model of a [`StreamError`].
pub enum StreamErrorV {
    Incomplete { error: ErrorV },
    Recoverable { consumed: int, error: ErrorV },
    Broken { error: ErrorV },
}

impl DeepView for StreamError {
    type V = StreamErrorV;

    open spec fn deep_view(&self) -> StreamErrorV {
        match self {
            StreamError::Incomplete { error } => StreamErrorV::Incomplete {
                error: error.deep_view(),
            },
            StreamError::Recoverable { consumed, error } => StreamErrorV::Recoverable {
                consumed: *consumed as int,
                error: error.deep_view(),
            },
            StreamError::Broken { error } => StreamErrorV::Broken { error: error.deep_view() },
        }
    }
}

/// One step of the stream decoder's header scan: the line starting at `p`,
/// and the position after it. Past the end of the buffer the line is empty,
/// as a reader at its end would yield.
pub open spec fn line_at(b: Seq<u8>, p: int) -> (Seq<u8>, int) {
    if p >= b.len() {
        (Seq::empty(), b.len() as int + 1)
    } else {
        match find_nl_from(b, p) {
            Some(q) => (b.subrange(p, q), q + 1),
            None => (b.subrange(p, b.len() as int), b.len() as int + 1),
        }
    }
}

/// The stream decoder's first loop: reads header lines until one names a
/// content length, skipping lines that are not valid UTF-8 and lines that
/// name something else. A buffer that runs out first is incomplete; an empty
/// line first, or a malformed length, breaks the stream. Yields the position
/// after the line, the bytes consumed so far, and the length.
pub open spec fn stream_cl(b: Seq<u8>, p: int, consumed: int) -> Result<
    (int, int, usize),
    StreamErrorV,
>
    decreases b.len() + 2 - p,
    via stream_cl_decreases
{
    if p < 0 || p > b.len() + 1 {
        Err(StreamErrorV::Incomplete { error: errv("protocolMessage"@, Cause::IsMandatory) })
    } else {
        let (line, p2) = line_at(b, p);
        if line.len() == 0 {
            if p >= b.len() {
                Err(
                    StreamErrorV::Incomplete {
                        error: errv("protocolMessage"@, Cause::IsMandatory),
                    },
                )
            } else {
                Err(StreamErrorV::Broken { error: errv("protocolMessage"@, Cause::IsMandatory) })
            }
        } else {
            let c2 = consumed + line.len() + 1;
            if !utf8_ok(strip_cr(line)) {
                stream_cl(b, p2, c2)
            } else {
                match find_colon_sp(lower_all(strip_cr(line)), 0) {
                    None => stream_cl(b, p2, c2),
                    Some(i) => {
                        let lowered = lower_all(strip_cr(line));
                        if lowered.take(i) == cl_name() {
                            match parse_usize(lowered.skip(i + 2)) {
                                Some(len) => Ok((p2, c2, len)),
                                None => Err(
                                    StreamErrorV::Broken {
                                        error: errv("protocolMessage"@, Cause::IsInvalid),
                                    },
                                ),
                            }
                        } else {
                            stream_cl(b, p2, c2)
                        }
                    },
                }
            }
        }
    }
}

#[via_fn]
proof fn stream_cl_decreases(b: Seq<u8>, p: int, consumed: int) {
    if 0 <= p <= b.len() + 1 {
        if p < b.len() {
            match find_nl_from(b, p) {
                Some(q) => {
                    lemma_find_nl_bounds(b, p, q);
                },
                None => (),
            }
        }
    }
}

/// The stream decoder's second loop: skips header lines until a blank one,
/// a lone carriage return included. Yields the position after it and the
/// bytes consumed.
pub open spec fn stream_skip(b: Seq<u8>, p: int, consumed: int) -> (int, int)
    decreases b.len() + 2 - p,
    via stream_skip_decreases
{
    if p < 0 || p > b.len() + 1 {
        (p, consumed)
    } else {
        let (line, p2) = line_at(b, p);
        let c2 = consumed + line.len() + 1;
        if line.len() == 0 || (line.len() == 1 && line[0] == 13) {
            (p2, c2)
        } else {
            stream_skip(b, p2, c2)
        }
    }
}

#[via_fn]
proof fn stream_skip_decreases(b: Seq<u8>, p: int, consumed: int) {
    if 0 <= p <= b.len() + 1 {
        if p < b.len() {
            match find_nl_from(b, p) {
                Some(q) => {
                    lemma_find_nl_bounds(b, p, q);
                },
                None => (),
            }
        }
    }
}

/// What the stream decoder yields on a buffer: bytes consumed and the
/// message, or a [`StreamErrorV`] saying whether more bytes, a skip, or
/// giving up is called for. Line breaks are lone line feeds; a carriage
/// return before one is dropped.
pub open spec fn spec_try_from_stream(b: Seq<u8>) -> Result<
    (int, ProtocolMessageV),
    StreamErrorV,
> {
    if b.len() + 2 > usize::MAX {
        Err(StreamErrorV::Broken { error: errv("protocolMessage"@, Cause::IsInvalid) })
    } else {
        spec_try_from_stream_inner(b)
    }
}

/// The stream decoder on a buffer a machine can hold: a frame cut short by
/// the buffer is incomplete, and a whole frame whose body fails JSON or
/// envelope decoding is recoverable by consuming the frame.
pub open spec fn spec_try_from_stream_inner(b: Seq<u8>) -> Result<
    (int, ProtocolMessageV),
    StreamErrorV,
> {
    match stream_cl(b, 0, 0) {
        Err(e) => Err(e),
        Ok((p, c, len)) => {
            let (p2, c2) = stream_skip(b, p, c);
            if p2 > b.len() || b.len() - p2 < len {
                Err(
                    StreamErrorV::Incomplete {
                        error: errv("protocolMessage"@, Cause::UnexpectedEof),
                    },
                )
            } else {
                let body = b.subrange(p2, p2 + len);
                match json_parse(body) {
                    None => Err(
                        StreamErrorV::Recoverable {
                            consumed: c2 + len,
                            error: errv("protocolMessage"@, Cause::IsInvalid),
                        },
                    ),
                    Some(j) => match ProtocolMessageV::dec(j) {
                        Err(e) => Err(StreamErrorV::Recoverable { consumed: c2 + len, error: e }),
                        Ok(m) => Ok((c2 + len, m)),
                    },
                }
            }
        },
    }
}

/// Reads one header line's lowered content-length value the way the stream
/// decoder does: the whole line is lowered first.
fn stream_line_cl(l: &[u8]) -> (r: Option<Option<usize>>)
    requires
        utf8_ok(strip_cr(l@)) || !all_ascii(strip_cr(l@)),
    ensures
        (match r {
            Some(v) => utf8_ok(strip_cr(l@)) && (match find_colon_sp(lower_all(strip_cr(l@)), 0) {
                Some(i) => lower_all(strip_cr(l@)).take(i) == cl_name() && v == parse_usize(
                    lower_all(strip_cr(l@)).skip(i + 2),
                ),
                None => false,
            }),
            None => !utf8_ok(strip_cr(l@)) || (match find_colon_sp(lower_all(strip_cr(l@)), 0) {
                Some(i) => lower_all(strip_cr(l@)).take(i) != cl_name(),
                None => true,
            }),
        }),
{
    let end: usize = if l.len() > 0 && l[l.len() - 1] == 13 {
        l.len() - 1
    } else {
        l.len()
    };
    let ghost sl = strip_cr(l@);
    proof {
        assert(sl =~= l@.subrange(0, end as int));
    }
    let stripped = vstd::slice::slice_subrange(l, 0, end);
    if !utf8_check(stripped) {
        return None;
    }
    let mut low: Vec<u8> = Vec::new();
    let mut k: usize = 0;
    proof {
        assert(low@ =~= lower_all(sl).take(0));
    }
    while k < end
        invariant
            k <= end,
            end <= l@.len(),
            sl == l@.subrange(0, end as int),
            low@ =~= lower_all(sl).take(k as int),
        decreases end - k,
    {
        let b = l[k];
        let lowered: u8 = if 65 <= b && b <= 90 {
            b + 32
        } else {
            b
        };
        low.push(lowered);
        k += 1;
        proof {
            assert(lower_all(sl)[k - 1] == to_lower(sl[k - 1]));
            assert(low@ =~= lower_all(sl).take(k as int));
        }
    }
    proof {
        assert(lower_all(sl).take(end as int) =~= lower_all(sl));
    }
    let ghost lw = lower_all(sl);
    let ci = match find_colon_sp_exec(low.as_slice(), low.len()) {
        Some(ci) => ci,
        None => {
            proof {
                assert(low@.subrange(0, low@.len() as int) =~= lw);
            }
            return None;
        },
    };
    proof {
        assert(low@.subrange(0, low@.len() as int) =~= lw);
        lemma_find_colon_bounds(lw, 0, ci as int);
    }
    if ci != 14 {
        proof {
            assert(lw.take(ci as int).len() == ci);
            assert(cl_name().len() == 14);
        }
        return None;
    }
    let expected: [u8; 14] = [99, 111, 110, 116, 101, 110, 116, 45, 108, 101, 110, 103, 116, 104];
    proof {
        assert(expected@ =~= cl_name());
    }
    let mut j: usize = 0;
    while j < 14
        invariant
            j <= 14,
            ci == 14,
            ci + 2 <= low@.len(),
            lw == low@,
            lw == lower_all(strip_cr(l@)),
            utf8_ok(strip_cr(l@)),
            find_colon_sp(lw, 0) == Some(ci as int),
            expected@ == cl_name(),
            forall|t: int| 0 <= t < j ==> lw.take(14)[t] == cl_name()[t],
        decreases 14 - j,
    {
        if low[j] != expected[j] {
            proof {
                assert(lw.take(14)[j as int] != cl_name()[j as int]);
                assert(lw.take(14) != cl_name());
            }
            return None;
        }
        proof {
            assert(lw.take(14)[j as int] == lw[j as int]);
        }
        j += 1;
    }
    proof {
        assert(lw.take(14) =~= cl_name());
    }
    let value = vstd::slice::slice_subrange(low.as_slice(), ci + 2, low.len());
    proof {
        assert(value@ =~= lw.skip(ci + 2));
    }
    Some(parse_usize_exec(value))
}

impl ProtocolMessage {
    /// Decodes one message the way a line-by-line reader would: header lines
    /// end at each line feed, a line that is not UTF-8 is skipped, and the
    /// body is read right after the first blank line. The error says what to
    /// do: wait for more bytes, skip the whole frame, or give the stream up.
    pub fn try_from_stream(bytes: &[u8]) -> (r: Result<(usize, ProtocolMessage), StreamError>)
        ensures
            match r {
                Ok((n, m)) => spec_try_from_stream(bytes@) == Ok::<_, StreamErrorV>(
                    (n as int, m.deep_view()),
                ),
                Err(e) => spec_try_from_stream(bytes@) == Err::<(int, ProtocolMessageV), _>(
                    e.deep_view(),
                ),
            },
    {
        reveal_with_fuel(stream_cl, 2);
        reveal_with_fuel(stream_skip, 2);
        let n = bytes.len();
        if n > usize::MAX - 2 {
            return Err(
                StreamError::Broken { error: Error::new("protocolMessage", Cause::IsInvalid) },
            );
        }
        let mut p: usize = 0;
        let mut consumed: usize = 0;
        let content_len: usize;
        let mut at_end: bool = false;
        // first loop: find the content length
        loop
            invariant_except_break
                n == bytes@.len(),
                n <= usize::MAX - 2,
                p <= n,
                consumed <= p,
                !at_end,
                stream_cl(bytes@, 0, 0) == stream_cl(bytes@, p as int, consumed as int),
            ensures
                n == bytes@.len(),
                n <= usize::MAX - 2,
                p <= n,
                !at_end ==> consumed <= p,
                at_end ==> consumed <= n + 1,
                at_end ==> p == n,
                stream_cl(bytes@, 0, 0) == Ok::<(int, int, usize), StreamErrorV>(
                    (
                        p as int + if at_end {
                            1int
                        } else {
                            0int
                        },
                        consumed as int,
                        content_len,
                    ),
                ),
            decreases n - p,
        {
            proof {
                reveal_with_fuel(stream_cl, 3);
                reveal_with_fuel(stream_skip, 3);
            }
            if p == n {
                return Err(
                    StreamError::Incomplete {
                        error: Error::new("protocolMessage", Cause::IsMandatory),
                    },
                );
            }
            let (line_end, p2, phantom): (usize, usize, bool) = match find_nl(bytes, p) {
                Some(q) => (q, q + 1, false),
                None => (n, n, true),
            };
            proof {
                assert(line_at(bytes@, p as int).0 =~= bytes@.subrange(p as int, line_end as int));
            }
            if line_end == p {
                // a genuinely empty header line before any content length
                return Err(
                    StreamError::Broken {
                        error: Error::new("protocolMessage", Cause::IsMandatory),
                    },
                );
            }
            let line = vstd::slice::slice_subrange(bytes, p, line_end);
            proof {
                assert(line@ =~= bytes@.subrange(p as int, line_end as int));
                assert(strip_cr(line@) == strip_cr(line_at(bytes@, p as int).0));
            }
            match stream_line_cl(line) {
                Some(found) => {
                    match found {
                        Some(len) => {
                            content_len = len;
                            consumed = consumed + (line_end - p) + 1;
                            at_end = phantom;
                            p = if phantom {
                                n
                            } else {
                                p2
                            };
                            break ;
                        },
                        None => {
                            // the line names a content length that does not
                            // parse
                            return Err(
                                StreamError::Broken {
                                    error: Error::new("protocolMessage", Cause::IsInvalid),
                                },
                            );
                        },
                    }
                },
                None => {
                    // not a content-length line; skip it
                    consumed = consumed + (line_end - p) + 1;
                    if phantom {
                        // a reader past its last line yields an empty line
                        proof {
                            assert(line_at(bytes@, n as int + 1).0.len() == 0);
                        }
                        return Err(
                            StreamError::Incomplete {
                                error: Error::new("protocolMessage", Cause::IsMandatory),
                            },
                        );
                    }
                    p = p2;
                },
            }
        }
        let ghost cl_pos: int = p as int + if at_end { 1int } else { 0int };
        let ghost cl_consumed: int = consumed as int;
        // second loop: skip header lines until the blank one
        let mut blank_found: bool = false;
        while !blank_found && !at_end
            invariant
                n == bytes@.len(),
                n <= usize::MAX - 2,
                p <= n,
                !(blank_found && at_end),
                !at_end ==> consumed <= p,
                blank_found ==> stream_skip(bytes@, cl_pos, cl_consumed) == (
                    p as int,
                    consumed as int,
                ),
                at_end ==> stream_skip(bytes@, cl_pos, cl_consumed).0 > n as int,
                !blank_found && !at_end ==> stream_skip(bytes@, cl_pos, cl_consumed) == stream_skip(
                    bytes@,
                    p as int,
                    consumed as int,
                ),
            decreases n - p, (if at_end || blank_found {
                0int
            } else {
                1int
            }),
        {
            proof {
                reveal_with_fuel(stream_skip, 3);
            }
            if p == n {
                // a reader at its end yields an empty line, which is blank,
                // but the buffer holds no blank line yet
                at_end = true;
                proof {
                    assert(line_at(bytes@, p as int).0 =~= bytes@.subrange(p as int, p as int));
                }
            } else {
                let (line_end, p2, phantom): (usize, usize, bool) = match find_nl(bytes, p) {
                    Some(q) => (q, q + 1, false),
                    None => (n, n, true),
                };
                proof {
                    assert(line_at(bytes@, p as int).0 =~= bytes@.subrange(
                        p as int,
                        line_end as int,
                    ));
                }
                let blank = line_end == p || (line_end == p + 1 && bytes[p] == 13);
                if phantom {
                    // whether this last line is blank or not, the frame runs
                    // past the buffer
                    proof {
                        assert(line_at(bytes@, n as int + 1).0.len() == 0);
                    }
                    at_end = true;
                    p = n;
                } else {
                    consumed = consumed + (line_end - p) + 1;
                    p = p2;
                    if blank {
                        blank_found = true;
                    }
                }
            }
        }
        // the body follows
        if at_end {
            // the blank line or the body runs past the buffer
            return Err(
                StreamError::Incomplete {
                    error: Error::new("protocolMessage", Cause::UnexpectedEof),
                },
            );
        }
        if n - p < content_len {
            return Err(
                StreamError::Incomplete {
                    error: Error::new("protocolMessage", Cause::UnexpectedEof),
                },
            );
        }
        let body = vstd::slice::slice_subrange(bytes, p, p + content_len);
        let j = match Json::parse(body) {
            None => {
                return Err(
                    StreamError::Recoverable {
                        consumed: consumed + content_len,
                        error: Error::new("protocolMessage", Cause::IsInvalid),
                    },
                );
            },
            Some(j) => j,
        };
        let m = match ProtocolMessage::try_from(&j) {
            Ok(m) => m,
            Err(error) => {
                return Err(
                    StreamError::Recoverable { consumed: consumed + content_len, error },
                );
            },
        };
        Ok((consumed + content_len, m))
    }
}

/// The line-feed search skips bytes that are no line feed.
proof fn lemma_find_nl_skip(b: Seq<u8>, p: int, k: int)
    requires
        0 <= p <= k < b.len(),
        forall|j: int| p <= j < k ==> b[j] != 10,
        b[k] == 10,
    ensures
        find_nl_from(b, p) == Some(k),
    decreases k - p,
{
    if p < k {
        lemma_find_nl_skip(b, p + 1, k);
    }
}

/// One frame decodes from the front of a stream: the whole frame is
/// consumed and the message comes back. The premise on [`json_parse`] is
/// exactly what the serializer's contract gives every caller whose body
/// nests within the parser's recursion limit.
#[verifier::rlimit(100)]
pub proof fn lemma_stream_roundtrip(m: ProtocolMessageV, rest: Seq<u8>)
    requires
        m.wf(),
        json_wf(m.enc()),
        crate::json::json_depth(m.enc()) < 128,
        json_text(m.enc()).len() <= usize::MAX,
        adapter_message(m).len() + rest.len() + 2 <= usize::MAX,
        json_parse(json_text(m.enc())) == Some(m.enc()),
    ensures
        spec_try_from_stream(adapter_message(m) + rest) == Ok::<
            (int, ProtocolMessageV),
            StreamErrorV,
        >((adapter_message(m).len() as int, m)),
{
    reveal_with_fuel(stream_cl, 2);
    reveal_with_fuel(stream_skip, 2);
    let body = json_text(m.enc());
    let dl = decimal(body.len());
    let frame = adapter_message(m);
    let b = frame + rest;
    let hlen = 16 + dl.len() as int;
    lemma_decimal_digits(body.len());
    assert(ct_prefix().len() == 16);
    assert(crlfcrlf().len() == 4);
    // the first line runs to the line feed right after the header
    assert forall|j: int| 0 <= j < hlen + 1 implies b[j] != 10 by {
        if j < 16 {
            assert(b[j] == ct_prefix()[j]);
        } else if j < hlen {
            assert(b[j] == dl[j - 16]);
            assert(is_digit(dl[j - 16]));
        } else {
            assert(b[j] == 13);
        }
    }
    assert(b[hlen + 1] == 10);
    lemma_find_nl_skip(b, 0, hlen + 1);
    let line = b.subrange(0, hlen + 1);
    assert(line.last() == 13);
    let header = strip_cr(line);
    assert(header =~= b.subrange(0, hlen));
    assert(all_ascii(header)) by {
        assert forall|j: int| 0 <= j < header.len() implies header[j] < 128 by {
            if j < 16 {
                assert(header[j] == ct_prefix()[j]);
            } else {
                assert(header[j] == dl[j - 16]);
                assert(is_digit(dl[j - 16]));
            }
        }
    }
    let low = lower_all(header);
    assert forall|j: int| 0 <= j < 14 implies low[j] != 58 && low[j] == cl_name()[j] by {
        assert(header[j] == ct_prefix()[j]);
    }
    assert(low[14] == 58 && low[15] == 32) by {
        assert(header[14] == ct_prefix()[14]);
        assert(header[15] == ct_prefix()[15]);
    }
    lemma_find_colon_skip(low, 0, 14);
    assert(find_colon_sp(low, 0) == Some(14int));
    assert(low.take(14) =~= cl_name());
    assert(low.skip(16) =~= dl) by {
        assert forall|j: int| 0 <= j < dl.len() implies low.skip(16)[j] == dl[j] by {
            assert(header[16 + j] == dl[j]);
            assert(is_digit(dl[j]));
        }
    }
    lemma_decimal_roundtrip(body.len() as usize);
    assert(stream_cl(b, 0, 0) == Ok::<(int, int, usize), StreamErrorV>(
        (hlen + 2, hlen + 2, body.len() as usize),
    ));
    // the second line is the lone carriage return before the body
    assert(b[hlen + 2] == 13 && b[hlen + 3] == 10);
    lemma_find_nl_skip(b, hlen + 2, hlen + 3);
    assert(line_at(b, hlen + 2).0 =~= seq![13u8]);
    assert(stream_skip(b, hlen + 2, hlen + 2) == (hlen + 4, hlen + 4));
    // the body region is exactly the serialized message
    assert(b.len() - (hlen + 4) >= body.len());
    assert(b.subrange(hlen + 4, hlen + 4 + body.len() as int) =~= body);
    crate::protocol::lemma_protocol_roundtrip(m);
    assert(frame.len() == hlen + 4 + body.len());
}

/// A found separator lies within the buffer.
proof fn lemma_find_sep_bounds(b: Seq<u8>, p: int, i: int)
    requires
        find_sep_from(b, p) == Some(i),
        0 <= p,
    ensures
        p <= i,
        i + 4 <= b.len(),
        sep_at(b, i),
    decreases b.len() - p,
{
    if p + 4 <= b.len() && !sep_at(b, p) {
        lemma_find_sep_bounds(b, p + 1, i);
    }
}

} // verus!
