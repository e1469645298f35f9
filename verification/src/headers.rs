//! HTTP header fields and the two forwarding safelists.
//!
//! Header names are case-insensitive ASCII, so every rule here is stated
//! over the ASCII-lowercased form of the name. Only a fixed safelist of
//! request headers crosses the proxy boundary upstream, and only a fixed
//! safelist of response headers crosses it back downstream.

use vstd::prelude::*;

verus! {

/// One HTTP header field: a name (case-insensitive ASCII) and a value,
/// both kept as raw bytes.
pub struct HeaderField {
    pub name: Vec<u8>,
    pub value: Vec<u8>,
}

impl View for HeaderField {
    type V = (Seq<u8>, Seq<u8>);

    open spec fn view(&self) -> Self::V {
        (self.name@, self.value@)
    }
}

/// The (name, value) pairs of a header list, as mathematical sequences.
pub open spec fn fields_view(hs: Seq<HeaderField>) -> Seq<(Seq<u8>, Seq<u8>)> {
    hs.map_values(|h: HeaderField| h@)
}

/// ASCII code of `'A'`.
pub const UPPER_A: u8 = 65;

/// ASCII code of `'Z'`.
pub const UPPER_Z: u8 = 90;

/// Distance between an ASCII uppercase letter and its lowercase form.
pub const CASE_OFFSET: u8 = 32;

/// ASCII lowercase of one byte.
pub open spec fn lower(b: u8) -> u8 {
    if UPPER_A <= b && b <= UPPER_Z {
        (b + CASE_OFFSET) as u8
    } else {
        b
    }
}

/// ASCII-lowercased copy of a byte string: the canonical form of a
/// header name.
pub open spec fn lower_seq(s: Seq<u8>) -> Seq<u8> {
    s.map_values(|b: u8| lower(b))
}

/// Lowercase one ASCII byte.
fn lower_byte(b: u8) -> (r: u8)
    ensures
        r == lower(b),
{
    if UPPER_A <= b && b <= UPPER_Z {
        b + CASE_OFFSET
    } else {
        b
    }
}

/// Case-insensitive ASCII equality of two byte strings.
pub fn eq_ignore_ascii_case(a: &Vec<u8>, b: &Vec<u8>) -> (r: bool)
    ensures
        r == (lower_seq(a@) == lower_seq(b@)),
{
    if a.len() != b.len() {
        assert(lower_seq(a@).len() == a@.len());
        assert(lower_seq(b@).len() == b@.len());
        return false;
    }
    let n = a.len();
    let mut i: usize = 0;
    while i < n
        invariant
            n == a@.len(),
            a@.len() == b@.len(),
            i <= n,
            forall|j: int| 0 <= j < i ==> lower(a@[j]) == lower(b@[j]),
        decreases n - i,
    {
        if lower_byte(a[i]) != lower_byte(b[i]) {
            assert(lower_seq(a@)[i as int] != lower_seq(b@)[i as int]);
            return false;
        }
        i += 1;
    }
    assert(lower_seq(a@) =~= lower_seq(b@));
    true
}

/// The bytes of `"range"`.
pub open spec fn name_range() -> Seq<u8> {
    seq![114u8, 97u8, 110u8, 103u8, 101u8]
}

/// The bytes of `"user-agent"`.
pub open spec fn name_user_agent() -> Seq<u8> {
    seq![117u8, 115u8, 101u8, 114u8, 45u8, 97u8, 103u8, 101u8, 110u8, 116u8]
}

/// The bytes of `"accept"`.
pub open spec fn name_accept() -> Seq<u8> {
    seq![97u8, 99u8, 99u8, 101u8, 112u8, 116u8]
}

/// The bytes of `"content-type"`.
pub open spec fn name_content_type() -> Seq<u8> {
    seq![99u8, 111u8, 110u8, 116u8, 101u8, 110u8, 116u8, 45u8, 116u8, 121u8, 112u8, 101u8]
}

/// The bytes of `"content-length"`.
pub open spec fn name_content_length() -> Seq<u8> {
    seq![99u8, 111u8, 110u8, 116u8, 101u8, 110u8, 116u8, 45u8, 108u8, 101u8, 110u8, 103u8, 116u8, 104u8]
}

/// The bytes of `"content-range"`.
pub open spec fn name_content_range() -> Seq<u8> {
    seq![99u8, 111u8, 110u8, 116u8, 101u8, 110u8, 116u8, 45u8, 114u8, 97u8, 110u8, 103u8, 101u8]
}

/// The bytes of `"accept-ranges"`.
pub open spec fn name_accept_ranges() -> Seq<u8> {
    seq![97u8, 99u8, 99u8, 101u8, 112u8, 116u8, 45u8, 114u8, 97u8, 110u8, 103u8, 101u8, 115u8]
}

/// The bytes of `"access-control-allow-origin"`.
pub open spec fn name_allow_origin() -> Seq<u8> {
    seq![97u8, 99u8, 99u8, 101u8, 115u8, 115u8, 45u8, 99u8, 111u8, 110u8, 116u8, 114u8, 111u8, 108u8, 45u8, 97u8, 108u8, 108u8, 111u8, 119u8, 45u8, 111u8, 114u8, 105u8, 103u8, 105u8, 110u8]
}

/// The bytes of `"*"`.
pub open spec fn star_value() -> Seq<u8> {
    seq![42u8]
}

/// The bytes of `"range"`, as a runtime value.
pub fn name_range_vec() -> (v: Vec<u8>)
    ensures
        v@ == name_range(),
{
    let v: Vec<u8> = vec![114u8, 97, 110, 103, 101];
    proof {
        assert(v@ =~= name_range());
    }
    v
}

/// The bytes of `"user-agent"`, as a runtime value.
pub fn name_user_agent_vec() -> (v: Vec<u8>)
    ensures
        v@ == name_user_agent(),
{
    let v: Vec<u8> = vec![117u8, 115, 101, 114, 45, 97, 103, 101, 110, 116];
    proof {
        assert(v@ =~= name_user_agent());
    }
    v
}

/// The bytes of `"accept"`, as a runtime value.
pub fn name_accept_vec() -> (v: Vec<u8>)
    ensures
        v@ == name_accept(),
{
    let v: Vec<u8> = vec![97u8, 99, 99, 101, 112, 116];
    proof {
        assert(v@ =~= name_accept());
    }
    v
}

/// The bytes of `"content-type"`, as a runtime value.
pub fn name_content_type_vec() -> (v: Vec<u8>)
    ensures
        v@ == name_content_type(),
{
    let v: Vec<u8> = vec![99u8, 111, 110, 116, 101, 110, 116, 45, 116, 121, 112, 101];
    proof {
        assert(v@ =~= name_content_type());
    }
    v
}

/// The bytes of `"content-length"`, as a runtime value.
pub fn name_content_length_vec() -> (v: Vec<u8>)
    ensures
        v@ == name_content_length(),
{
    let v: Vec<u8> = vec![99u8, 111, 110, 116, 101, 110, 116, 45, 108, 101, 110, 103, 116, 104];
    proof {
        assert(v@ =~= name_content_length());
    }
    v
}

/// The bytes of `"content-range"`, as a runtime value.
pub fn name_content_range_vec() -> (v: Vec<u8>)
    ensures
        v@ == name_content_range(),
{
    let v: Vec<u8> = vec![99u8, 111, 110, 116, 101, 110, 116, 45, 114, 97, 110, 103, 101];
    proof {
        assert(v@ =~= name_content_range());
    }
    v
}

/// The bytes of `"accept-ranges"`, as a runtime value.
pub fn name_accept_ranges_vec() -> (v: Vec<u8>)
    ensures
        v@ == name_accept_ranges(),
{
    let v: Vec<u8> = vec![97u8, 99, 99, 101, 112, 116, 45, 114, 97, 110, 103, 101, 115];
    proof {
        assert(v@ =~= name_accept_ranges());
    }
    v
}

/// The bytes of `"access-control-allow-origin"`, as a runtime value.
pub fn name_allow_origin_vec() -> (v: Vec<u8>)
    ensures
        v@ == name_allow_origin(),
{
    let v: Vec<u8> = vec![
        97u8, 99, 99, 101, 115, 115, 45, 99, 111, 110, 116, 114, 111, 108, 45, 97, 108, 108, 111,
        119, 45, 111, 114, 105, 103, 105, 110,
    ];
    proof {
        assert(v@ =~= name_allow_origin());
    }
    v
}

/// The bytes of `"*"`, as a runtime value.
pub fn star_value_vec() -> (v: Vec<u8>)
    ensures
        v@ == star_value(),
{
    let v: Vec<u8> = vec![42u8];
    proof {
        assert(v@ =~= star_value());
    }
    v
}

/// Every safelist name is already ASCII-lowercase.
pub proof fn lemma_names_lowercase()
    ensures
        lower_seq(name_range()) == name_range(),
        lower_seq(name_user_agent()) == name_user_agent(),
        lower_seq(name_accept()) == name_accept(),
        lower_seq(name_content_type()) == name_content_type(),
        lower_seq(name_content_length()) == name_content_length(),
        lower_seq(name_content_range()) == name_content_range(),
        lower_seq(name_accept_ranges()) == name_accept_ranges(),
        lower_seq(name_allow_origin()) == name_allow_origin(),
{
    assert(lower_seq(name_range()) =~= name_range());
    assert(lower_seq(name_user_agent()) =~= name_user_agent());
    assert(lower_seq(name_accept()) =~= name_accept());
    assert(lower_seq(name_content_type()) =~= name_content_type());
    assert(lower_seq(name_content_length()) =~= name_content_length());
    assert(lower_seq(name_content_range()) =~= name_content_range());
    assert(lower_seq(name_accept_ranges()) =~= name_accept_ranges());
    assert(lower_seq(name_allow_origin()) =~= name_allow_origin());
}

/// Whether an inbound request header with this name crosses the proxy
/// upstream: exactly `Range`, `User-Agent` and `Accept`, case-insensitively.
pub open spec fn request_forwarded(name: Seq<u8>) -> bool {
    ||| lower_seq(name) == name_range()
    ||| lower_seq(name) == name_user_agent()
    ||| lower_seq(name) == name_accept()
}

/// Whether an upstream response header with this name is relayed
/// downstream: exactly `Content-Type`, `Content-Length`, `Content-Range`
/// and `Accept-Ranges`, case-insensitively.
pub open spec fn response_forwarded(name: Seq<u8>) -> bool {
    ||| lower_seq(name) == name_content_type()
    ||| lower_seq(name) == name_content_length()
    ||| lower_seq(name) == name_content_range()
    ||| lower_seq(name) == name_accept_ranges()
}

/// Decide whether a request header name is on the forwarding safelist.
pub fn is_request_forwarded(name: &Vec<u8>) -> (r: bool)
    ensures
        r == request_forwarded(name@),
{
    let range_n = name_range_vec();
    let ua_n = name_user_agent_vec();
    let accept_n = name_accept_vec();
    let r = eq_ignore_ascii_case(name, &range_n) || eq_ignore_ascii_case(name, &ua_n)
        || eq_ignore_ascii_case(name, &accept_n);
    proof {
        lemma_names_lowercase();
    }
    r
}

/// Decide whether a response header name is on the relaying safelist.
pub fn is_response_forwarded(name: &Vec<u8>) -> (r: bool)
    ensures
        r == response_forwarded(name@),
{
    let ct_n = name_content_type_vec();
    let cl_n = name_content_length_vec();
    let cr_n = name_content_range_vec();
    let ar_n = name_accept_ranges_vec();
    let r = eq_ignore_ascii_case(name, &ct_n) || eq_ignore_ascii_case(name, &cl_n)
        || eq_ignore_ascii_case(name, &cr_n) || eq_ignore_ascii_case(name, &ar_n);
    proof {
        lemma_names_lowercase();
    }
    r
}

/// Copy of a byte string.
fn clone_bytes(v: &Vec<u8>) -> (r: Vec<u8>)
    ensures
        r@ == v@,
{
    let mut out: Vec<u8> = Vec::new();
    let mut i: usize = 0;
    while i < v.len()
        invariant
            i <= v@.len(),
            out@ == v@.take(i as int),
        decreases v@.len() - i,
    {
        out.push(v[i]);
        proof {
            assert(v@.take(i as int + 1) =~= v@.take(i as int).push(v@[i as int]));
        }
        i += 1;
    }
    proof {
        assert(v@.take(v@.len() as int) =~= v@);
    }
    out
}

impl HeaderField {
    /// Copy of this header field.
    pub fn duplicate(&self) -> (r: HeaderField)
        ensures
            r@ == self@,
    {
        HeaderField { name: clone_bytes(&self.name), value: clone_bytes(&self.value) }
    }
}

/// The subsequence of (name, value) pairs whose name is on the request
/// safelist, in their original order and unmodified.
pub open spec fn spec_filter_request(hs: Seq<(Seq<u8>, Seq<u8>)>) -> Seq<(Seq<u8>, Seq<u8>)> {
    hs.filter(|p: (Seq<u8>, Seq<u8>)| request_forwarded(p.0))
}

/// The subsequence of (name, value) pairs whose name is on the response
/// safelist, in their original order and unmodified.
pub open spec fn spec_filter_response(hs: Seq<(Seq<u8>, Seq<u8>)>) -> Seq<(Seq<u8>, Seq<u8>)> {
    hs.filter(|p: (Seq<u8>, Seq<u8>)| response_forwarded(p.0))
}

/// Keep exactly the inbound headers whose name is on the request
/// safelist, in order and unmodified.
pub fn filter_request_headers(hs: &Vec<HeaderField>) -> (r: Vec<HeaderField>)
    ensures
        fields_view(r@) == spec_filter_request(fields_view(hs@)),
{
    let pred = Ghost(|p: (Seq<u8>, Seq<u8>)| request_forwarded(p.0));
    let mut out: Vec<HeaderField> = Vec::new();
    let mut i: usize = 0;
    proof {
        reveal(Seq::filter);
        assert(fields_view(hs@.take(0)) =~= Seq::<(Seq<u8>, Seq<u8>)>::empty());
        assert(fields_view(out@) =~= Seq::<(Seq<u8>, Seq<u8>)>::empty());
    }
    while i < hs.len()
        invariant
            i <= hs@.len(),
            pred@ == (|p: (Seq<u8>, Seq<u8>)| request_forwarded(p.0)),
            fields_view(out@) == fields_view(hs@.take(i as int)).filter(pred@),
        decreases hs@.len() - i,
    {
        let ghost out0 = out@;
        let keep = is_request_forwarded(&hs[i].name);
        if keep {
            out.push(hs[i].duplicate());
        }
        proof {
            fields_view(hs@.take(i as int)).lemma_filter_push(hs@[i as int]@, pred@);
            assert(fields_view(hs@.take(i as int + 1)) =~= fields_view(hs@.take(i as int)).push(
                hs@[i as int]@,
            ));
            if keep {
                assert(fields_view(out@) =~= fields_view(out0).push(hs@[i as int]@));
            }
        }
        i += 1;
    }
    proof {
        assert(hs@.take(hs@.len() as int) =~= hs@);
    }
    out
}

/// Keep exactly the upstream headers whose name is on the response
/// safelist, in order and unmodified.
pub fn filter_response_headers(hs: &Vec<HeaderField>) -> (r: Vec<HeaderField>)
    ensures
        fields_view(r@) == spec_filter_response(fields_view(hs@)),
{
    let pred = Ghost(|p: (Seq<u8>, Seq<u8>)| response_forwarded(p.0));
    let mut out: Vec<HeaderField> = Vec::new();
    let mut i: usize = 0;
    proof {
        reveal(Seq::filter);
        assert(fields_view(hs@.take(0)) =~= Seq::<(Seq<u8>, Seq<u8>)>::empty());
        assert(fields_view(out@) =~= Seq::<(Seq<u8>, Seq<u8>)>::empty());
    }
    while i < hs.len()
        invariant
            i <= hs@.len(),
            pred@ == (|p: (Seq<u8>, Seq<u8>)| response_forwarded(p.0)),
            fields_view(out@) == fields_view(hs@.take(i as int)).filter(pred@),
        decreases hs@.len() - i,
    {
        let ghost out0 = out@;
        let keep = is_response_forwarded(&hs[i].name);
        if keep {
            out.push(hs[i].duplicate());
        }
        proof {
            fields_view(hs@.take(i as int)).lemma_filter_push(hs@[i as int]@, pred@);
            assert(fields_view(hs@.take(i as int + 1)) =~= fields_view(hs@.take(i as int)).push(
                hs@[i as int]@,
            ));
            if keep {
                assert(fields_view(out@) =~= fields_view(out0).push(hs@[i as int]@));
            }
        }
        i += 1;
    }
    proof {
        assert(hs@.take(hs@.len() as int) =~= hs@);
    }
    out
}

} // verus!
