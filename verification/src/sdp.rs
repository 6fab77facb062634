//! Reading the caller's RTP address out of an SDP offer.
use vstd::prelude::*;
use crate::text::{
    all_digits, digit_char, digit_value, digits_value, is_digit, is_space, trim_end, trim_start,
    word_len,
    append_str, chars_of, decimal, decimal_string, has_prefix, has_prefix_in, parse_u16,
    parse_u16_in, push_char, second_word, second_word_bounds, string_from, trim, trim_bounds,
};

verus! {

/// What `String::from_utf8_lossy` makes of `bytes`.
pub uninterp spec fn lossy_utf8(bytes: Seq<u8>) -> Seq<char>;

/// Decodes bytes as UTF-8, replacing invalid sequences (`String::from_utf8_lossy`).
#[verifier::external_body]
fn decode_lossy(bytes: &[u8]) -> (s: String)
    ensures
        s@ == lossy_utf8(bytes@),
        vstd::utf8::valid_utf8(bytes@) ==> s@ == vstd::utf8::decode_utf8(bytes@),
{
    String::from_utf8_lossy(bytes).into_owned()
}

/// Number of characters before the first line feed of `s`.
pub open spec fn newline_index(s: Seq<char>) -> nat
    decreases s.len(),
{
    if s.len() == 0 || s[0] == '\n' {
        0
    } else {
        1 + newline_index(s.drop_first())
    }
}

/// The first line of `s` (as `str::lines` yields it) and the text after it.
pub open spec fn split_line(s: Seq<char>) -> (Seq<char>, Seq<char>) {
    let k = newline_index(s) as int;
    let raw = s.take(k);
    if k < s.len() {
        let line = if raw.len() > 0 && raw.last() == '\r' {
            raw.drop_last()
        } else {
            raw
        };
        (line, s.skip(k + 1))
    } else {
        (raw, Seq::empty())
    }
}

pub open spec fn connection_prefix() -> Seq<char> {
    seq!['c', '=', 'I', 'N', ' ', 'I', 'P', '4', ' ']
}

pub open spec fn audio_media_prefix() -> Seq<char> {
    seq!['m', '=', 'a', 'u', 'd', 'i', 'o', ' ']
}

/// How one SDP line changes the address found so far: a `c=IN IP4 ` line sets
/// the address, an `m=audio ` line sets the port from its second word (0 when
/// that word is not a port number).
pub open spec fn sdp_line_update(line: Seq<char>, ip: Seq<char>, port: u16) -> (Seq<char>, u16) {
    if has_prefix(line, connection_prefix()) {
        (trim(line.skip(9)), port)
    } else if has_prefix(line, audio_media_prefix()) {
        match second_word(line) {
            Some(w) => (
                ip,
                match parse_u16(w) {
                    Some(p) => p,
                    None => 0,
                },
            ),
            None => (ip, port),
        }
    } else {
        (ip, port)
    }
}

/// The address and port after reading every line of `s`, the later lines winning.
pub open spec fn sdp_scan(s: Seq<char>, ip: Seq<char>, port: u16) -> (Seq<char>, u16)
    decreases s.len(),
{
    if s.len() == 0 {
        (ip, port)
    } else {
        let (line, rest) = split_line(s);
        let (ip2, port2) = sdp_line_update(line, ip, port);
        sdp_scan(rest, ip2, port2)
    }
}

/// `ip:port` of the SDP text, when it names a non-empty address and a non-zero port.
pub open spec fn rtp_target(text: Seq<char>) -> Option<Seq<char>> {
    let (ip, port) = sdp_scan(text, Seq::empty(), 0);
    if ip.len() > 0 && port > 0 {
        Some(ip + seq![':'] + decimal(port as nat))
    } else {
        None
    }
}

proof fn lemma_newline_index_bound(s: Seq<char>)
    ensures
        newline_index(s) <= s.len(),
        newline_index(s) < s.len() ==> s[newline_index(s) as int] == '\n',
    decreases s.len(),
{
    if s.len() > 0 && s[0] != '\n' {
        lemma_newline_index_bound(s.drop_first());
    }
}

/// The RTP target `ip:port` that the SDP text `text` announces.
pub fn rtp_target_from_text(text: &[char]) -> (r: Option<String>)
    ensures
        match rtp_target(text@) {
            Some(t) => r matches Some(s) && s@ == t,
            None => r is None,
        },
{
    let n = text.len();
    let cpref = vec!['c', '=', 'I', 'N', ' ', 'I', 'P', '4', ' '];
    let mpref = vec!['m', '=', 'a', 'u', 'd', 'i', 'o', ' '];
    assert(cpref@ =~= connection_prefix());
    assert(mpref@ =~= audio_media_prefix());
    let mut ip_lo: usize = 0;
    let mut ip_hi: usize = 0;
    let mut port: u16 = 0;
    let mut i: usize = 0;
    assert(text@.skip(0) =~= text@);
    assert(text@.subrange(0, 0) =~= Seq::<char>::empty());
    while i < n
        invariant
            n == text@.len(),
            i <= n,
            ip_lo <= ip_hi <= n,
            cpref@ == connection_prefix(),
            mpref@ == audio_media_prefix(),
            sdp_scan(text@, Seq::empty(), 0) == sdp_scan(
                text@.skip(i as int),
                text@.subrange(ip_lo as int, ip_hi as int),
                port,
            ),
        decreases n - i,
    {
        let ghost s = text@.skip(i as int);
        let mut e = i;
        while e < n && text[e] != '\n'
            invariant
                n == text@.len(),
                i <= e <= n,
                s == text@.skip(i as int),
                newline_index(s) == (e - i) + newline_index(text@.skip(e as int)),
            decreases n - e,
        {
            assert(text@.skip(e as int).drop_first() =~= text@.skip(e + 1));
            e = e + 1;
        }
        assert(newline_index(s) == e - i);
        let le = if e < n && e > i && text[e - 1] == '\r' {
            e - 1
        } else {
            e
        };
        let ghost line = text@.subrange(i as int, le as int);
        let ghost rest = if e < n {
            text@.skip(e + 1)
        } else {
            Seq::empty()
        };
        proof {
            let k = (e - i) as int;
            let raw = s.take(k);
            assert(raw =~= text@.subrange(i as int, e as int));
            if e < n {
                assert(s.skip(k + 1) =~= text@.skip(e + 1));
                if e > i && text@[e - 1] == '\r' {
                    assert(raw.drop_last() =~= line);
                } else {
                    assert(raw =~= line);
                }
            } else {
                assert(raw =~= line);
            }
            assert(split_line(s) == (line, rest));
        }
        let ghost old_ip = text@.subrange(ip_lo as int, ip_hi as int);
        let ghost old_port = port;
        if has_prefix_in(text, i, le, cpref.as_slice()) {
            let (a, b) = trim_bounds(text, i + 9, le);
            assert(line.skip(9) =~= text@.subrange(i + 9, le as int));
            ip_lo = a;
            ip_hi = b;
        } else if has_prefix_in(text, i, le, mpref.as_slice()) {
            match second_word_bounds(text, i, le) {
                Some((c, d)) => {
                    port = match parse_u16_in(text, c, d) {
                        Some(p) => p,
                        None => 0,
                    };
                },
                None => {},
            }
        }
        assert((text@.subrange(ip_lo as int, ip_hi as int), port) == sdp_line_update(
            line,
            old_ip,
            old_port,
        ));
        i = if e < n {
            e + 1
        } else {
            n
        };
        assert(text@.skip(i as int) =~= rest);
    }
    assert(text@.skip(n as int) =~= Seq::<char>::empty());
    if ip_hi > ip_lo && port > 0 {
        let mut out = string_from(text, ip_lo, ip_hi);
        push_char(&mut out, ':');
        let digits = decimal_string(port as u64);
        append_str(&mut out, digits.as_str());
        Some(out)
    } else {
        None
    }
}

/// The RTP target `ip:port` that the SDP body of an INVITE announces.
pub fn extract_rtp_target_from_sdp(body: &[u8]) -> (r: Option<String>)
    ensures
        match rtp_target(lossy_utf8(body@)) {
            Some(t) => r matches Some(s) && s@ == t,
            None => r is None,
        },
        vstd::utf8::valid_utf8(body@) ==> match rtp_target(vstd::utf8::decode_utf8(body@)) {
            Some(t) => r matches Some(s) && s@ == t,
            None => r is None,
        },
{
    let text = decode_lossy(body);
    let chars = chars_of(text.as_str());
    rtp_target_from_text(chars.as_slice())
}

/// Whether `s` is a run of whole lines: empty, or ending in a line feed.
pub open spec fn whole_lines(s: Seq<char>) -> bool {
    s.len() == 0 || s.last() == '\n'
}

proof fn lemma_newline_index_append(x: Seq<char>, y: Seq<char>)
    requires
        newline_index(x) < x.len(),
    ensures
        newline_index(x + y) == newline_index(x),
    decreases x.len(),
{
    if x[0] != '\n' {
        assert((x + y).drop_first() =~= x.drop_first() + y);
        lemma_newline_index_append(x.drop_first(), y);
    }
}

proof fn lemma_whole_lines_have_newline(x: Seq<char>)
    requires
        whole_lines(x),
        x.len() > 0,
    ensures
        newline_index(x) < x.len(),
    decreases x.len(),
{
    lemma_newline_index_bound(x);
    if x[0] != '\n' {
        if x.len() > 1 {
            assert(x.drop_first().last() == x.last());
            lemma_whole_lines_have_newline(x.drop_first());
        }
    }
}

/// Reading whole lines `x`, then `y`, is reading `x + y`.
proof fn lemma_scan_append(x: Seq<char>, y: Seq<char>, ip: Seq<char>, port: u16)
    requires
        whole_lines(x),
    ensures
        sdp_scan(x + y, ip, port) == ({
            let (ip2, port2) = sdp_scan(x, ip, port);
            sdp_scan(y, ip2, port2)
        }),
    decreases x.len(),
{
    if x.len() == 0 {
        assert(x + y =~= y);
    } else {
        lemma_whole_lines_have_newline(x);
        lemma_newline_index_bound(x);
        lemma_newline_index_append(x, y);
        let k = newline_index(x) as int;
        assert((x + y).take(k) =~= x.take(k));
        assert((x + y).skip(k + 1) =~= x.skip(k + 1) + y);
        let (line, rest) = split_line(x);
        assert(split_line(x + y) == (line, rest + y));
        let (ip2, port2) = sdp_line_update(line, ip, port);
        if rest.len() > 0 {
            assert(rest.last() == x.last());
        }
        lemma_scan_append(rest, y, ip2, port2);
    }
}

proof fn lemma_newline_index_prefix_free(x: Seq<char>, y: Seq<char>)
    requires
        newline_index(x) == x.len(),
    ensures
        newline_index(x + y) == x.len() + newline_index(y),
    decreases x.len(),
{
    if x.len() == 0 {
        assert(x + y =~= y);
    } else {
        assert((x + y).drop_first() =~= x.drop_first() + y);
        lemma_newline_index_prefix_free(x.drop_first(), y);
    }
}

/// Whether `s` holds no line feed.
pub open spec fn no_newline(s: Seq<char>) -> bool {
    forall|i: int| 0 <= i < s.len() ==> s[i] != '\n'
}

proof fn lemma_no_newline_index(s: Seq<char>)
    requires
        no_newline(s),
    ensures
        newline_index(s) == s.len(),
    decreases s.len(),
{
    if s.len() > 0 {
        assert(no_newline(s.drop_first())) by {
            assert forall|i: int| 0 <= i < s.drop_first().len() implies s.drop_first()[i]
                != '\n' by {
                assert(s.drop_first()[i] == s[i + 1]);
            }
        }
        lemma_no_newline_index(s.drop_first());
    }
}

proof fn lemma_trim_plain(s: Seq<char>)
    requires
        s.len() > 0,
        !is_space(s[0]),
        !is_space(s.last()),
    ensures
        trim(s) == s,
{
    assert(trim_start(s) == s);
    assert(trim_end(s) == s);
}

proof fn lemma_word_len(s: Seq<char>, k: int)
    requires
        0 <= k <= s.len(),
        forall|i: int| 0 <= i < k ==> !is_space(#[trigger] s[i]),
        k == s.len() || is_space(s[k]),
    ensures
        word_len(s) == k,
    decreases k,
{
    if k > 0 {
        assert forall|i: int| 0 <= i < k - 1 implies !is_space(#[trigger] s.drop_first()[i]) by {
            assert(s.drop_first()[i] == s[i + 1]);
        }
        if k < s.len() {
            assert(s.drop_first()[k - 1] == s[k]);
        }
        lemma_word_len(s.drop_first(), k - 1);
    }
}

proof fn lemma_decimal_digits(n: nat)
    ensures
        decimal(n).len() > 0,
        all_digits(decimal(n)),
        digits_value(decimal(n)) == n,
    decreases n,
{
    if n < 10 {
        let d = decimal(n);
        assert(d == seq![digit_char(n)]);
        assert(d.drop_last() =~= Seq::<char>::empty());
        assert(digits_value(Seq::<char>::empty()) == 0);
        assert(d.last() == digit_char(n));
        assert(digit_value(digit_char(n)) == n);
        assert(digits_value(d) == digits_value(d.drop_last()) * 10 + digit_value(d.last()));
    } else {
        lemma_decimal_digits(n / 10);
        let d = decimal(n);
        assert(d.drop_last() =~= decimal(n / 10));
        assert(d.last() == digit_char(n % 10));
        assert(digit_value(digit_char(n % 10)) == n % 10);
        assert(digits_value(d) == digits_value(decimal(n / 10)) * 10 + digit_value(d.last()));
        assert((n / 10) * 10 + n % 10 == n);
        assert forall|i: int| 0 <= i < d.len() implies is_digit(#[trigger] d[i]) by {
            if i < d.len() - 1 {
                assert(d[i] == decimal(n / 10)[i]);
            }
        }
    }
}

proof fn lemma_second_word_is_port(port: u16, tail: Seq<char>)
    requires
        tail.len() == 0 || is_space(tail[0]),
    ensures
        second_word(audio_media_prefix() + decimal(port as nat) + tail) == Some(decimal(port as nat)),
{
    let d = decimal(port as nat);
    lemma_decimal_digits(port as nat);
    let ml = audio_media_prefix() + d + tail;
    assert(ml[0] == 'm');
    assert(trim_start(ml) == ml);
    assert forall|i: int| 0 <= i < 7 implies !is_space(#[trigger] ml[i]) by {}
    assert(is_space(ml[7]));
    lemma_word_len(ml, 7);
    let r0 = ml.skip(7);
    assert(r0[0] == ' ');
    assert(r0.drop_first() =~= d + tail);
    assert((d + tail)[0] == d[0]);
    assert(is_digit(d[0]));
    assert(trim_start(d + tail) == d + tail);
    assert(trim_start(r0) == d + tail);
    assert forall|i: int| 0 <= i < d.len() implies !is_space(#[trigger] (d + tail)[i]) by {
        assert((d + tail)[i] == d[i]);
        assert(is_digit(d[i]));
    }
    if tail.len() > 0 {
        assert((d + tail)[d.len() as int] == tail[0]);
    }
    lemma_word_len(d + tail, d.len() as int);
    assert((d + tail).take(d.len() as int) =~= d);
}

/// The end of a line: a carriage return and a line feed, or a line feed alone.
pub open spec fn line_end(crlf: bool) -> Seq<char> {
    if crlf {
        seq!['\r', '\n']
    } else {
        seq!['\n']
    }
}

/// The line `c=IN IP4 ip`, with its end.
pub open spec fn connection_line(ip: Seq<char>, crlf: bool) -> Seq<char> {
    connection_prefix() + ip + line_end(crlf)
}

/// The line `m=audio port` followed by `tail` (the transport and formats), with its end.
pub open spec fn audio_media_line(port: u16, tail: Seq<char>, crlf: bool) -> Seq<char> {
    audio_media_prefix() + decimal(port as nat) + tail + line_end(crlf)
}

/// Whether no line of `s` is a `c=IN IP4 ` line or an `m=audio ` line.
pub open spec fn quiet_lines(s: Seq<char>) -> bool
    decreases s.len(),
{
    if s.len() == 0 {
        true
    } else {
        let (line, rest) = split_line(s);
        &&& !has_prefix(line, connection_prefix())
        &&& !has_prefix(line, audio_media_prefix())
        &&& quiet_lines(rest)
    }
}

proof fn lemma_quiet_scan(s: Seq<char>, ip: Seq<char>, port: u16)
    requires
        quiet_lines(s),
    ensures
        sdp_scan(s, ip, port) == (ip, port),
    decreases s.len(),
{
    if s.len() > 0 {
        lemma_newline_index_bound(s);
        let (line, rest) = split_line(s);
        lemma_quiet_scan(rest, ip, port);
    }
}

/// A line without a line feed, and not ending in a carriage return, followed by
/// its end and `rest`, splits into that line and `rest`.
proof fn lemma_line_split(line: Seq<char>, crlf: bool, rest: Seq<char>)
    requires
        no_newline(line),
        line.len() == 0 || line.last() != '\r',
    ensures
        split_line(line + line_end(crlf) + rest) == (line, rest),
{
    let s = line + line_end(crlf) + rest;
    let nl = seq!['\n'];
    if crlf {
        let lr = line.push('\r');
        assert(no_newline(lr)) by {
            assert forall|i: int| 0 <= i < lr.len() implies lr[i] != '\n' by {
                if i < line.len() {
                    assert(lr[i] == line[i]);
                }
            }
        }
        lemma_no_newline_index(lr);
        lemma_newline_index_prefix_free(lr, nl + rest);
        assert(s =~= lr + (nl + rest));
        let k = lr.len() as int;
        assert(s.take(k) =~= lr);
        assert(lr.drop_last() =~= line);
        assert(s.skip(k + 1) =~= rest);
    } else {
        lemma_no_newline_index(line);
        lemma_newline_index_prefix_free(line, nl + rest);
        assert(s =~= line + (nl + rest));
        let k = line.len() as int;
        assert(s.take(k) =~= line);
        assert(s.skip(k + 1) =~= rest);
    }
}

/// Reading such a line, then `rest`.
proof fn lemma_line_scan(line: Seq<char>, crlf: bool, rest: Seq<char>, ip: Seq<char>, port: u16)
    requires
        no_newline(line),
        line.len() == 0 || line.last() != '\r',
    ensures
        sdp_scan(line + line_end(crlf) + rest, ip, port) == ({
            let (ip2, port2) = sdp_line_update(line, ip, port);
            sdp_scan(rest, ip2, port2)
        }),
{
    lemma_line_split(line, crlf, rest);
    assert((line + line_end(crlf) + rest).len() > 0);
}

proof fn lemma_connection_update(ip: Seq<char>, ip0: Seq<char>, p0: u16)
    requires
        ip.len() > 0,
        !is_space(ip[0]),
        !is_space(ip.last()),
        no_newline(ip),
    ensures
        sdp_line_update(connection_prefix() + ip, ip0, p0) == (ip, p0),
        no_newline(connection_prefix() + ip),
        (connection_prefix() + ip).last() != '\r',
{
    let cl = connection_prefix() + ip;
    assert forall|i: int| 0 <= i < cl.len() implies cl[i] != '\n' by {
        if i >= 9 {
            assert(cl[i] == ip[i - 9]);
        }
    }
    assert(cl.last() == ip.last());
    assert(cl.take(9) =~= connection_prefix());
    assert(cl.skip(9) =~= ip);
    lemma_trim_plain(ip);
}

proof fn lemma_media_update(port: u16, tail: Seq<char>, ip0: Seq<char>, p0: u16)
    requires
        no_newline(tail),
        tail.len() == 0 || (is_space(tail[0]) && tail.last() != '\r'),
    ensures
        sdp_line_update(audio_media_prefix() + decimal(port as nat) + tail, ip0, p0) == (ip0, port),
        no_newline(audio_media_prefix() + decimal(port as nat) + tail),
        (audio_media_prefix() + decimal(port as nat) + tail).last() != '\r',
{
    let d = decimal(port as nat);
    lemma_decimal_digits(port as nat);
    let ml = audio_media_prefix() + d + tail;
    assert forall|i: int| 0 <= i < ml.len() implies ml[i] != '\n' by {
        if 8 <= i < 8 + d.len() {
            assert(ml[i] == d[i - 8]);
            assert(is_digit(d[i - 8]));
        } else if i >= 8 + d.len() {
            assert(ml[i] == tail[i - 8 - d.len()]);
        }
    }
    if tail.len() == 0 {
        assert(ml.last() == d.last());
        assert(is_digit(d[d.len() - 1]));
    } else {
        assert(ml.last() == tail.last());
    }
    assert(ml[0] == 'm');
    assert(!has_prefix(ml, connection_prefix())) by {
        assert(ml.take(9)[0] == 'm');
    }
    assert(ml.take(8) =~= audio_media_prefix());
    lemma_second_word_is_port(port, tail);
    assert(d[0] != '+') by {
        assert(is_digit(d[0]));
    }
}

/// Reading whole lines `a`, the line `l1`, quiet whole lines `b`, the line `l2`
/// and quiet lines `c`: what `l1`, then `l2`, make of what `a` left.
#[verifier::rlimit(40)]
proof fn lemma_two_lines(
    a: Seq<char>,
    l1: Seq<char>,
    cr1: bool,
    b: Seq<char>,
    l2: Seq<char>,
    cr2: bool,
    c: Seq<char>,
)
    requires
        whole_lines(a),
        no_newline(l1),
        l1.len() == 0 || l1.last() != '\r',
        whole_lines(b),
        quiet_lines(b),
        no_newline(l2),
        l2.len() == 0 || l2.last() != '\r',
        quiet_lines(c),
    ensures
        sdp_scan(a + (l1 + line_end(cr1)) + b + (l2 + line_end(cr2)) + c, Seq::empty(), 0) == ({
            let (ip1, p1) = sdp_scan(a, Seq::empty(), 0);
            let (ip2, p2) = sdp_line_update(l1, ip1, p1);
            sdp_line_update(l2, ip2, p2)
        }),
{
    let (ip1, p1) = sdp_scan(a, Seq::empty(), 0);
    let (ip2, p2) = sdp_line_update(l1, ip1, p1);
    let (ip3, p3) = sdp_line_update(l2, ip2, p2);
    let tail2 = l2 + line_end(cr2) + c;
    let tail1 = l1 + line_end(cr1) + (b + tail2);
    assert(a + (l1 + line_end(cr1)) + b + (l2 + line_end(cr2)) + c =~= a + tail1);
    lemma_scan_append(a, tail1, Seq::empty(), 0);
    lemma_line_scan(l1, cr1, b + tail2, ip1, p1);
    lemma_scan_append(b, tail2, ip2, p2);
    lemma_quiet_scan(b, ip2, p2);
    lemma_line_scan(l2, cr2, c, ip2, p2);
    lemma_quiet_scan(c, ip3, p3);
}

/// Lines that are neither `c=IN IP4 ` nor `m=audio ` lines have no effect on the
/// RTP target, wherever they stand between whole lines.
pub proof fn law_other_lines_ignored(a: Seq<char>, q: Seq<char>, b: Seq<char>)
    requires
        whole_lines(a),
        whole_lines(q),
        quiet_lines(q),
    ensures
        rtp_target(a + q + b) == rtp_target(a + b),
{
    let (ip1, p1) = sdp_scan(a, Seq::empty(), 0);
    assert(a + q + b =~= a + (q + b));
    lemma_scan_append(a, q + b, Seq::empty(), 0);
    lemma_scan_append(q, b, ip1, p1);
    lemma_quiet_scan(q, ip1, p1);
    lemma_scan_append(a, b, Seq::empty(), 0);
}

/// An offer with a `c=IN IP4 ip` line and an `m=audio port ...` line, in either
/// order and with lines ending in CRLF or LF, announces `ip:port`: whatever whole
/// lines come before the first of them, as long as the lines between them and
/// after the second are neither.
pub proof fn law_offer_gives_target(
    a: Seq<char>,
    ip: Seq<char>,
    crlf_c: bool,
    b: Seq<char>,
    port: u16,
    tail: Seq<char>,
    crlf_m: bool,
    c: Seq<char>,
)
    requires
        whole_lines(a),
        ip.len() > 0,
        !is_space(ip[0]),
        !is_space(ip.last()),
        no_newline(ip),
        whole_lines(b),
        quiet_lines(b),
        port > 0,
        no_newline(tail),
        tail.len() == 0 || (is_space(tail[0]) && tail.last() != '\r'),
        quiet_lines(c),
    ensures
        rtp_target(a + connection_line(ip, crlf_c) + b + audio_media_line(port, tail, crlf_m) + c)
            == Some(ip + seq![':'] + decimal(port as nat)),
        rtp_target(a + audio_media_line(port, tail, crlf_m) + b + connection_line(ip, crlf_c) + c)
            == Some(ip + seq![':'] + decimal(port as nat)),
{
    let cl = connection_prefix() + ip;
    let ml = audio_media_prefix() + decimal(port as nat) + tail;
    let (ip1, p1) = sdp_scan(a, Seq::empty(), 0);
    lemma_connection_update(ip, ip1, p1);
    lemma_media_update(port, tail, ip, p1);
    lemma_two_lines(a, cl, crlf_c, b, ml, crlf_m, c);
    lemma_media_update(port, tail, ip1, p1);
    lemma_connection_update(ip, ip1, port);
    lemma_two_lines(a, ml, crlf_m, b, cl, crlf_c, c);
}

} // verus!
