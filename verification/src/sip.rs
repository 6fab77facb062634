//! SIP headers: the values this service reads out of requests and the
//! headers of the requests and answers it sends.
use vstd::prelude::*;
use crate::store::CallSessionData;
use crate::text::{
    append_chars, append_str, chars_of, contains_text, decimal, decimal_string, find_from, find_in,
    push_char, string_from, trim, trim_bounds,
};

verus! {

/// The name of a SIP header.
#[derive(Debug, PartialEq, Eq)]
pub enum HeaderName {
    Via,
    From,
    To,
    CallId,
    CSeq,
    Contact,
    ContentType,
    ContentLength,
    MaxForwards,
    Route,
    Other(String),
}

impl HeaderName {
    /// A copy of this name.
    pub fn duplicate(&self) -> (r: Self)
        ensures
            r == *self,
    {
        match self {
            HeaderName::Via => HeaderName::Via,
            HeaderName::From => HeaderName::From,
            HeaderName::To => HeaderName::To,
            HeaderName::CallId => HeaderName::CallId,
            HeaderName::CSeq => HeaderName::CSeq,
            HeaderName::Contact => HeaderName::Contact,
            HeaderName::ContentType => HeaderName::ContentType,
            HeaderName::ContentLength => HeaderName::ContentLength,
            HeaderName::MaxForwards => HeaderName::MaxForwards,
            HeaderName::Route => HeaderName::Route,
            HeaderName::Other(s) => HeaderName::Other(s.clone()),
        }
    }
}

/// A SIP header.
#[derive(Debug)]
pub struct Header {
    pub name: HeaderName,
    pub value: String,
}

impl Header {
    pub fn new(name: HeaderName, value: String) -> (h: Self)
        ensures
            h.name == name,
            h.value == value,
    {
        Header { name, value }
    }

    /// A copy of this header.
    pub fn duplicate(&self) -> (r: Self)
        ensures
            r == *self,
    {
        Header { name: self.name.duplicate(), value: self.value.clone() }
    }
}

/// Whether `h` is the header `n` with the text `v`.
pub open spec fn header_is(h: Header, n: HeaderName, v: Seq<char>) -> bool {
    h.name == n && h.value@ == v
}

pub open spec fn tag_marker() -> Seq<char> {
    seq![';', 't', 'a', 'g', '=']
}

/// `s.split(";tag=").nth(1)`, or the empty text: what stands between the first
/// `;tag=` and the next one (or the end).
pub open spec fn tag_of(s: Seq<char>) -> Seq<char> {
    match find_from(s, tag_marker(), 0) {
        None => Seq::empty(),
        Some(i) => match find_from(s, tag_marker(), i + 5) {
            None => s.subrange(i + 5, s.len() as int),
            Some(j) => s.subrange(i + 5, j),
        },
    }
}

proof fn lemma_find_from_bounds(s: Seq<char>, p: Seq<char>, from: int)
    ensures
        find_from(s, p, from) matches Some(i) ==> from <= i && i + p.len() <= s.len() && s.subrange(
            i,
            i + p.len(),
        ) == p,
    decreases s.len() + 1 - from,
{
    if from < 0 || from + p.len() > s.len() {
    } else if s.subrange(from, from + p.len()) == p {
    } else {
        lemma_find_from_bounds(s, p, from + 1);
    }
}

/// The caller's tag: the text after `;tag=` in the From header.
pub fn caller_tag_of(from: &str) -> (t: String)
    ensures
        t@ == tag_of(from@),
{
    let cs = chars_of(from);
    let marker = vec![';', 't', 'a', 'g', '='];
    let csl = cs.as_slice();
    let ml = marker.as_slice();
    assert(ml@ =~= tag_marker());
    assert(csl@ == from@);
    proof {
        lemma_find_from_bounds(from@, tag_marker(), 0);
    }
    match find_in(csl, ml, 0) {
        None => String::new(),
        Some(i) => {
            proof {
                let k = find_from(from@, tag_marker(), 0)->0;
                assert(0 <= k && k + 5 <= csl@.len());
                assert(csl@.len() == csl.len());
                assert(i as int == k);
            }
            assert(find_from(from@, tag_marker(), 0) == Some(i as int));
            let start = i + 5;
            proof {
                lemma_find_from_bounds(from@, tag_marker(), start as int);
            }
            match find_in(csl, ml, start) {
                None => string_from(csl, start, csl.len()),
                Some(j) => {
                    proof {
                        let k = find_from(from@, tag_marker(), start as int)->0;
                        assert(start <= k && k + 5 <= csl@.len());
                        assert(csl@.len() == csl.len());
                        assert(j as int == k);
                    }
                    assert(find_from(from@, tag_marker(), start as int) == Some(j as int));
                    string_from(csl, start, j)
                },
            }
        },
    }
}

/// `<` + `s` + `>`.
pub open spec fn bracketed(s: Seq<char>) -> Seq<char> {
    seq!['<'] + s + seq!['>']
}

/// The caller's contact: the Contact header when there is one, else `<from>`.
pub fn client_contact_of(contact: Option<String>, from: &str) -> (c: String)
    ensures
        match contact {
            Some(v) => c == v,
            None => c@ == bracketed(from@),
        },
{
    match contact {
        Some(v) => v,
        None => {
            let mut c = String::new();
            push_char(&mut c, '<');
            append_str(&mut c, from);
            push_char(&mut c, '>');
            assert(c@ =~= bracketed(from@));
            c
        },
    }
}

/// The To header of an answer: trimmed and given `;tag=local_tag` when it has no
/// tag, else left as it is.
pub open spec fn tagged_to(value: Seq<char>, local_tag: Seq<char>) -> Seq<char> {
    if !contains_text(trim(value), tag_marker()) {
        trim(value) + tag_marker() + local_tag
    } else {
        value
    }
}

pub fn tag_to_value(value: &str, local_tag: &str) -> (r: String)
    ensures
        r@ == tagged_to(value@, local_tag@),
{
    let cs = chars_of(value);
    let (a, b) = trim_bounds(cs.as_slice(), 0, cs.len());
    assert(cs@.subrange(0, cs@.len() as int) =~= cs@);
    let clean = string_from(cs.as_slice(), a, b);
    let ccs = chars_of(clean.as_str());
    let marker = vec![';', 't', 'a', 'g', '='];
    assert(marker@ =~= tag_marker());
    match find_in(ccs.as_slice(), marker.as_slice(), 0) {
        None => {
            let mut r = clean;
            append_chars(&mut r, marker.as_slice());
            append_str(&mut r, local_tag);
            r
        },
        Some(_) => value.to_owned(),
    }
}

/// `<sip:b2bua@ip:5060>`: the Contact of this service.
pub open spec fn contact_uri_spec(sbc_public_ip: Seq<char>) -> Seq<char> {
    "<sip:b2bua@"@ + sbc_public_ip + ":5060>"@
}

pub fn contact_uri(sbc_public_ip: &str) -> (c: String)
    ensures
        c@ == contact_uri_spec(sbc_public_ip@),
{
    let mut c = "<sip:b2bua@".to_owned();
    append_str(&mut c, sbc_public_ip);
    append_str(&mut c, ":5060>");
    c
}

pub open spec fn is_content_length(h: Header) -> bool {
    h.name == HeaderName::ContentLength
}

/// The headers `hs` without their Content-Length headers.
pub open spec fn without_content_length(hs: Seq<Header>) -> Seq<Header>
    decreases hs.len(),
{
    if hs.len() == 0 {
        Seq::empty()
    } else {
        let r = without_content_length(hs.drop_last());
        if is_content_length(hs.last()) {
            r
        } else {
            r.push(hs.last())
        }
    }
}

/// Whether the header at `k` is the first To header of `hs`.
pub open spec fn is_first_to(hs: Seq<Header>, k: int) -> bool {
    hs[k].name == HeaderName::To && forall|j: int| 0 <= j < k ==> hs[j].name != HeaderName::To
}

/// The headers of a 200 OK that answers an INVITE: those of `before` but the
/// Content-Length headers, with the first To header tagged, then our Contact,
/// `Content-Type: application/sdp` and a Content-Length of `body_len`.
pub open spec fn answer_headers_ok(
    before: Seq<Header>,
    after: Seq<Header>,
    local_tag: Seq<char>,
    sbc_public_ip: Seq<char>,
    body_len: nat,
) -> bool {
    let kept = without_content_length(before);
    &&& after.len() == kept.len() + 3
    &&& forall|k: int|
        0 <= k < kept.len() ==> kept_header_ok(kept, #[trigger] after[k], k, local_tag)
    &&& header_is(after[kept.len() as int], HeaderName::Contact, contact_uri_spec(sbc_public_ip))
    &&& header_is(after[kept.len() as int + 1], HeaderName::ContentType, "application/sdp"@)
    &&& header_is(after[kept.len() as int + 2], HeaderName::ContentLength, decimal(body_len))
}

/// The answer's header `h` at `k` stands for `kept[k]`: the same name, and the
/// same text, but for the first To header, which is tagged.
pub open spec fn kept_header_ok(kept: Seq<Header>, h: Header, k: int, local_tag: Seq<char>) -> bool {
    &&& h.name == kept[k].name
    &&& if is_first_to(kept, k) {
        h.value@ == tagged_to(kept[k].value@, local_tag)
    } else {
        h.value == kept[k].value
    }
}

proof fn lemma_first_to_prefix(a: Seq<Header>, h: Header, k: int)
    requires
        0 <= k < a.len(),
    ensures
        is_first_to(a.push(h), k) == is_first_to(a, k),
{
    assert forall|j: int| 0 <= j < k implies a.push(h)[j] == a[j] by {}
}

/// Completes the headers of a 200 OK for an INVITE that this service answers
/// with an SDP body of `body_len` bytes.
pub fn answer_headers(
    before: &Vec<Header>,
    local_tag: &str,
    sbc_public_ip: &str,
    body_len: usize,
) -> (after: Vec<Header>)
    ensures
        answer_headers_ok(before@, after@, local_tag@, sbc_public_ip@, body_len as nat),
{
    let mut out: Vec<Header> = Vec::new();
    let mut tagged = false;
    let mut i: usize = 0;
    while i < before.len()
        invariant
            i <= before@.len(),
            out@.len() == without_content_length(before@.take(i as int)).len(),
            forall|k: int|
                0 <= k < out@.len() ==> kept_header_ok(
                    without_content_length(before@.take(i as int)),
                    #[trigger] out@[k],
                    k,
                    local_tag@,
                ),
            tagged <==> exists|k: int|
                0 <= k < out@.len() && (#[trigger] without_content_length(
                    before@.take(i as int),
                )[k]).name == HeaderName::To,
        decreases before.len() - i,
    {
        let ghost kept = without_content_length(before@.take(i as int));
        let ghost out0 = out@;
        let h = &before[i];
        assert(before@.take(i + 1).drop_last() =~= before@.take(i as int));
        let skip = match h.name {
            HeaderName::ContentLength => true,
            _ => false,
        };
        if !skip {
            let is_to = match h.name {
                HeaderName::To => true,
                _ => false,
            };
            let ghost kept2 = kept.push(*h);
            assert(without_content_length(before@.take(i + 1)) == kept2);
            if is_to && !tagged {
                let v = tag_to_value(h.value.as_str(), local_tag);
                out.push(Header { name: h.name.duplicate(), value: v });
                assert(is_first_to(kept2, kept.len() as int));
            } else {
                out.push(h.duplicate());
                proof {
                    if is_to {
                        let k0 = choose|k: int| 0 <= k < out0.len() && kept[k].name == HeaderName::To;
                        assert(kept2[k0] == kept[k0]);
                    }
                }
                assert(!is_first_to(kept2, kept.len() as int));
            }
            assert forall|k: int| 0 <= k < out@.len() implies kept_header_ok(
                kept2,
                #[trigger] out@[k],
                k,
                local_tag@,
            ) by {
                if k < out0.len() {
                    lemma_first_to_prefix(kept, *h, k);
                    assert(out@[k] == out0[k]);
                    assert(kept_header_ok(kept, out0[k], k, local_tag@));
                    assert(kept2[k] == kept[k]);
                }
            }
            if is_to {
                tagged = true;
                assert(kept2[kept.len() as int].name == HeaderName::To);
            } else {
                assert forall|k: int| 0 <= k < out@.len() && kept2[k].name == HeaderName::To implies 0
                    <= k < out0.len() && kept[k].name == HeaderName::To by {
                    if k < out0.len() {
                        assert(kept2[k] == kept[k]);
                    }
                }
                proof {
                    if tagged {
                        let k0 = choose|k: int| 0 <= k < out0.len() && kept[k].name == HeaderName::To;
                        assert(kept2[k0] == kept[k0]);
                    }
                }
            }
        } else {
            assert(without_content_length(before@.take(i + 1)) == kept);
        }
        i = i + 1;
    }
    assert(before@.take(before@.len() as int) =~= before@);
    let n = out.len();
    out.push(Header { name: HeaderName::Contact, value: contact_uri(sbc_public_ip) });
    out.push(Header { name: HeaderName::ContentType, value: "application/sdp".to_owned() });
    out.push(Header { name: HeaderName::ContentLength, value: decimal_string(body_len as u64) });
    let ghost kept = without_content_length(before@);
    assert forall|k: int| 0 <= k < kept.len() implies kept_header_ok(
        kept,
        #[trigger] out@[k],
        k,
        local_tag@,
    ) by {
        assert(out@[k] == out@.subrange(0, n as int)[k]);
    }
    out
}

/// A SIP request method.
#[derive(Debug, Clone, Copy, PartialEq, Eq, Structural)]
pub enum Method {
    Invite,
    Ack,
    Bye,
    Cancel,
    Register,
    Options,
    Other,
}

/// A SIP request this service sends: its method, Request-URI, headers and body.
#[derive(Debug)]
pub struct OutgoingRequest {
    pub method: Method,
    pub uri: String,
    pub headers: Vec<Header>,
    pub body: Vec<u8>,
}

/// `s` without its `<` and `>` characters.
pub open spec fn without_angles(s: Seq<char>) -> Seq<char>
    decreases s.len(),
{
    if s.len() == 0 {
        Seq::empty()
    } else {
        let r = without_angles(s.drop_last());
        if s.last() == '<' || s.last() == '>' {
            r
        } else {
            r.push(s.last())
        }
    }
}

fn strip_angles(s: &str) -> (r: String)
    ensures
        r@ == without_angles(s@),
{
    let cs = chars_of(s);
    let mut r = String::new();
    let mut i: usize = 0;
    while i < cs.len()
        invariant
            i <= cs@.len(),
            cs@ == s@,
            r@ == without_angles(cs@.take(i as int)),
        decreases cs.len() - i,
    {
        assert(cs@.take(i + 1).drop_last() =~= cs@.take(i as int));
        let c = cs[i];
        if c != '<' && c != '>' {
            push_char(&mut r, c);
        }
        i = i + 1;
    }
    assert(cs@.take(cs@.len() as int) =~= cs@);
    r
}

/// `a` + `;tag=` + `t`.
pub open spec fn with_tag(a: Seq<char>, t: Seq<char>) -> Seq<char> {
    a + tag_marker() + t
}

fn join_tag(a: &str, t: &str) -> (r: String)
    ensures
        r@ == with_tag(a@, t@),
{
    let mut r = a.to_owned();
    append_str(&mut r, ";tag=");
    append_str(&mut r, t);
    proof {
        reveal_strlit(";tag=");
    }
    assert(r@ =~= with_tag(a@, t@));
    r
}

/// The headers of the BYE that ends the call `data` from this side.
pub open spec fn bye_headers_ok(
    hs: Seq<Header>,
    data: CallSessionData,
    call_id: Seq<char>,
    public_ip: Seq<char>,
    sip_port: u16,
    sbc_public_ip: Seq<char>,
    branch: Seq<char>,
) -> bool {
    &&& hs.len() == 8
    &&& header_is(
        hs[0],
        HeaderName::Via,
        "SIP/2.0/UDP "@ + public_ip + ":"@ + decimal(sip_port as nat) + ";branch="@ + branch,
    )
    &&& header_is(hs[1], HeaderName::MaxForwards, "70"@)
    &&& header_is(
        hs[2],
        HeaderName::To,
        if data.caller_tag@.len() == 0 {
            data.from_uri@
        } else {
            with_tag(data.from_uri@, data.caller_tag@)
        },
    )
    &&& header_is(hs[3], HeaderName::From, with_tag(data.to_uri@, data.local_tag@))
    &&& header_is(hs[4], HeaderName::CallId, call_id)
    &&& header_is(hs[5], HeaderName::CSeq, "999 BYE"@)
    &&& header_is(hs[6], HeaderName::Route, "<sip:sbc@"@ + sbc_public_ip + ":5060;lr>"@)
    &&& header_is(hs[7], HeaderName::ContentLength, "0"@)
}

/// The BYE that ends the call `data`: sent to the caller's contact, without its
/// angle brackets.
pub fn bye_request(
    data: &CallSessionData,
    call_id: &str,
    public_ip: &str,
    sip_port: u16,
    sbc_public_ip: &str,
    branch: &str,
) -> (r: OutgoingRequest)
    ensures
        r.method == Method::Bye,
        r.uri@ == without_angles(data.client_contact@),
        bye_headers_ok(r.headers@, *data, call_id@, public_ip@, sip_port, sbc_public_ip@, branch@),
        r.body@.len() == 0,
{
    let uri = strip_angles(data.client_contact.as_str());
    let mut via = "SIP/2.0/UDP ".to_owned();
    append_str(&mut via, public_ip);
    append_str(&mut via, ":");
    let port = decimal_string(sip_port as u64);
    append_str(&mut via, port.as_str());
    append_str(&mut via, ";branch=");
    append_str(&mut via, branch);
    let to = if data.caller_tag.as_str().is_empty() {
        data.from_uri.clone()
    } else {
        join_tag(data.from_uri.as_str(), data.caller_tag.as_str())
    };
    let mut route = "<sip:sbc@".to_owned();
    append_str(&mut route, sbc_public_ip);
    append_str(&mut route, ":5060;lr>");
    let mut headers: Vec<Header> = Vec::new();
    headers.push(Header::new(HeaderName::Via, via));
    headers.push(Header::new(HeaderName::MaxForwards, "70".to_owned()));
    headers.push(Header::new(HeaderName::To, to));
    headers.push(
        Header::new(
            HeaderName::From,
            join_tag(data.to_uri.as_str(), data.local_tag.as_str()),
        ),
    );
    headers.push(Header::new(HeaderName::CallId, call_id.to_owned()));
    headers.push(Header::new(HeaderName::CSeq, "999 BYE".to_owned()));
    headers.push(Header::new(HeaderName::Route, route));
    headers.push(Header::new(HeaderName::ContentLength, "0".to_owned()));
    OutgoingRequest { method: Method::Bye, uri, headers, body: Vec::new() }
}

/// Whether `r` is the INVITE this service sends to set up a call from `from_uri`
/// to `to_uri` with the SDP offer `sdp`.
pub open spec fn invite_request_ok(
    r: OutgoingRequest,
    call_id: Seq<char>,
    from_uri: Seq<char>,
    to_uri: Seq<char>,
    local_tag: Seq<char>,
    sbc_public_ip: Seq<char>,
    sdp: Seq<u8>,
) -> bool {
    &&& r.method == Method::Invite
    &&& r.uri@ == to_uri
    &&& r.headers@.len() == 7
    &&& header_is(r.headers@[0], HeaderName::From, with_tag(bracketed(from_uri), local_tag))
    &&& header_is(r.headers@[1], HeaderName::To, bracketed(to_uri))
    &&& header_is(r.headers@[2], HeaderName::CallId, call_id)
    &&& header_is(r.headers@[3], HeaderName::CSeq, "1 INVITE"@)
    &&& header_is(r.headers@[4], HeaderName::Contact, contact_uri_spec(sbc_public_ip))
    &&& header_is(r.headers@[5], HeaderName::ContentType, "application/sdp"@)
    &&& header_is(r.headers@[6], HeaderName::ContentLength, decimal(sdp.len()))
    &&& r.body@ == sdp
}

/// The INVITE this service sends to set up a call from `from_uri` to `to_uri`
/// with the SDP offer `sdp`.
pub fn outbound_invite(
    call_id: &str,
    from_uri: &str,
    to_uri: &str,
    local_tag: &str,
    sbc_public_ip: &str,
    sdp: Vec<u8>,
) -> (r: OutgoingRequest)
    ensures
        invite_request_ok(r, call_id@, from_uri@, to_uri@, local_tag@, sbc_public_ip@, sdp@),
{
    let from_b = client_contact_of(None, from_uri);
    let to_b = client_contact_of(None, to_uri);
    let mut headers: Vec<Header> = Vec::new();
    headers.push(Header::new(HeaderName::From, join_tag(from_b.as_str(), local_tag)));
    headers.push(Header::new(HeaderName::To, to_b));
    headers.push(Header::new(HeaderName::CallId, call_id.to_owned()));
    headers.push(Header::new(HeaderName::CSeq, "1 INVITE".to_owned()));
    headers.push(Header::new(HeaderName::Contact, contact_uri(sbc_public_ip)));
    headers.push(Header::new(HeaderName::ContentType, "application/sdp".to_owned()));
    headers.push(Header::new(HeaderName::ContentLength, decimal_string(sdp.len() as u64)));
    OutgoingRequest { method: Method::Invite, uri: to_uri.to_owned(), headers, body: sdp }
}

proof fn lemma_without_content_length_filter(hs: Seq<Header>)
    ensures
        without_content_length(hs) == hs.filter(|h: Header| h.name != HeaderName::ContentLength),
    decreases hs.len(),
{
    reveal(Seq::filter);
    if hs.len() > 0 {
        lemma_without_content_length_filter(hs.drop_last());
    }
}

/// The request headers kept in an answer are exactly those not named
/// Content-Length, in their order: appending a header that is not
/// Content-Length appends it to what is kept, and a Content-Length header is
/// dropped.
pub proof fn law_answer_keeps_all_but_content_length(hs: Seq<Header>, h: Header)
    ensures
        without_content_length(hs) == hs.filter(|x: Header| x.name != HeaderName::ContentLength),
        without_content_length(Seq::<Header>::empty()) == Seq::<Header>::empty(),
        h.name != HeaderName::ContentLength ==> without_content_length(hs.push(h))
            == without_content_length(hs).push(h),
        h.name == HeaderName::ContentLength ==> without_content_length(hs.push(h))
            == without_content_length(hs),
{
    lemma_without_content_length_filter(hs);
    assert(hs.push(h).drop_last() =~= hs);
}

proof fn lemma_kept_prefix(hs: Seq<Header>, j: int)
    requires
        0 <= j <= hs.len(),
    ensures
        without_content_length(hs.take(j)).len() <= without_content_length(hs).len(),
        forall|m: int|
            0 <= m < without_content_length(hs.take(j)).len() ==> #[trigger] without_content_length(
                hs,
            )[m] == without_content_length(hs.take(j))[m],
    decreases hs.len(),
{
    if j == hs.len() {
        assert(hs.take(j) =~= hs);
    } else {
        let d = hs.drop_last();
        assert(hs.take(j) =~= d.take(j));
        lemma_kept_prefix(d, j);
    }
}

/// Every request header that is neither Content-Length nor To stands unchanged
/// in the 200 OK, at the place given by the headers kept before it: so the
/// answer carries the request's Via, From, Call-ID and CSeq headers, in order.
pub proof fn law_answer_keeps_request_header(
    before: Seq<Header>,
    after: Seq<Header>,
    local_tag: Seq<char>,
    sbc_public_ip: Seq<char>,
    body_len: nat,
    i: int,
)
    requires
        answer_headers_ok(before, after, local_tag, sbc_public_ip, body_len),
        0 <= i < before.len(),
        before[i].name != HeaderName::ContentLength,
        before[i].name != HeaderName::To,
    ensures
        before.take(i).filter(|x: Header| x.name != HeaderName::ContentLength).len() < after.len(),
        after[before.take(i).filter(|x: Header| x.name != HeaderName::ContentLength).len() as int]
            == before[i],
{
    let kept = without_content_length(before);
    let pre = without_content_length(before.take(i));
    lemma_without_content_length_filter(before.take(i));
    assert(before.take(i + 1).drop_last() =~= before.take(i));
    assert(before.take(i + 1).last() == before[i]);
    let pre1 = without_content_length(before.take(i + 1));
    assert(pre1 == pre.push(before[i]));
    lemma_kept_prefix(before, i + 1);
    let k = pre.len() as int;
    assert(pre1[k] == before[i]);
    assert(kept[k] == before[i]);
    assert(kept_header_ok(kept, after[k], k, local_tag));
    assert(!is_first_to(kept, k));
    assert(after[k].name == before[i].name);
    assert(after[k].value == before[i].value);
}

/// The Request-URI of a BYE is the stored contact without its `<` and `>`:
/// every other character, `;` and the parameters after it included, is kept in
/// order.
pub proof fn law_bye_uri_keeps_all_but_angles(s: Seq<char>, c: char)
    ensures
        without_angles(s) == s.filter(|x: char| x != '<' && x != '>'),
        without_angles(Seq::<char>::empty()) == Seq::<char>::empty(),
        c != '<' && c != '>' ==> without_angles(s.push(c)) == without_angles(s).push(c),
        c == '<' || c == '>' ==> without_angles(s.push(c)) == without_angles(s),
    decreases s.len(),
{
    reveal(Seq::filter);
    if s.len() > 0 {
        law_bye_uri_keeps_all_but_angles(s.drop_last(), c);
    }
    assert(s.push(c).drop_last() =~= s);
}

} // verus!
