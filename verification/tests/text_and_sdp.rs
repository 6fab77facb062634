use sentiric_sip_b2bua_service::sdp::{extract_rtp_target_from_sdp, rtp_target_from_text};
use sentiric_sip_b2bua_service::text::{chars_of, concat2, decimal_string, parse_u16_in, trim_bounds};

fn target(sdp: &str) -> Option<String> {
    extract_rtp_target_from_sdp(sdp.as_bytes())
}

#[test]
fn sdp_offer_gives_address_and_port() {
    let sdp = "v=0\r\no=- 1 1 IN IP4 10.0.0.5\r\ns=-\r\nc=IN IP4 10.0.0.5\r\nt=0 0\r\nm=audio 40000 RTP/AVP 0 8\r\n";
    assert_eq!(target(sdp), Some("10.0.0.5:40000".to_string()));
}

#[test]
fn sdp_later_lines_win() {
    let sdp = "c=IN IP4 1.1.1.1\nm=audio 1000 RTP/AVP 0\nc=IN IP4 2.2.2.2\nm=audio 2000 RTP/AVP 0";
    assert_eq!(target(sdp), Some("2.2.2.2:2000".to_string()));
}

#[test]
fn sdp_address_is_trimmed() {
    let sdp = "c=IN IP4   192.168.1.9  \nm=audio 5004 RTP/AVP 0\n";
    assert_eq!(target(sdp), Some("192.168.1.9:5004".to_string()));
}

#[test]
fn sdp_without_port_gives_nothing() {
    assert_eq!(target("c=IN IP4 10.0.0.5\r\n"), None);
    assert_eq!(target("c=IN IP4 10.0.0.5\r\nm=audio 0 RTP/AVP 0\r\n"), None);
}

#[test]
fn sdp_bad_port_resets_to_zero() {
    let sdp = "c=IN IP4 10.0.0.5\nm=audio 4000 RTP/AVP 0\nm=audio 70000 RTP/AVP 0\n";
    assert_eq!(target(sdp), None);
    let sdp = "c=IN IP4 10.0.0.5\nm=audio 4000 RTP/AVP 0\nm=audio\n";
    assert_eq!(target(sdp), Some("10.0.0.5:4000".to_string()));
}

#[test]
fn sdp_without_address_gives_nothing() {
    assert_eq!(target("m=audio 5004 RTP/AVP 0\n"), None);
    assert_eq!(target("c=IN IP4    \nm=audio 5004 RTP/AVP 0\n"), None);
    assert_eq!(target(""), None);
}

#[test]
fn sdp_port_with_plus_sign() {
    assert_eq!(target("c=IN IP4 h\nm=audio +77 RTP/AVP 0"), Some("h:77".to_string()));
}

#[test]
fn sdp_invalid_utf8_is_replaced() {
    let mut body = b"c=IN IP4 10.0.0.7\nm=audio 6000 RTP/AVP 0\n".to_vec();
    body.extend_from_slice(&[0xff, 0xfe, b'\n']);
    assert_eq!(extract_rtp_target_from_sdp(&body), Some("10.0.0.7:6000".to_string()));
}

#[test]
fn sdp_from_chars() {
    let cs: Vec<char> = "c=IN IP4 a\nm=audio 9 x".chars().collect();
    assert_eq!(rtp_target_from_text(&cs), Some("a:9".to_string()));
}

#[test]
fn decimal_text() {
    assert_eq!(decimal_string(0), "0");
    assert_eq!(decimal_string(7), "7");
    assert_eq!(decimal_string(5060), "5060");
    assert_eq!(decimal_string(u64::MAX), u64::MAX.to_string());
}

#[test]
fn u16_parsing() {
    let p = |s: &str| {
        let cs: Vec<char> = s.chars().collect();
        parse_u16_in(&cs, 0, cs.len())
    };
    assert_eq!(p("0"), Some(0));
    assert_eq!(p("65535"), Some(65535));
    assert_eq!(p("65536"), None);
    assert_eq!(p("+12"), Some(12));
    assert_eq!(p("+"), None);
    assert_eq!(p(""), None);
    assert_eq!(p("-1"), None);
    assert_eq!(p("12a"), None);
    assert_eq!(p("0007"), Some(7));
}

#[test]
fn trimming_and_chars() {
    let cs = chars_of("  a b\t\r\n");
    assert_eq!(trim_bounds(&cs, 0, cs.len()), (2, 5));
    let cs = chars_of("\u{3000}x\u{a0}");
    assert_eq!(trim_bounds(&cs, 0, cs.len()), (1, 2));
    assert_eq!(concat2("ab", "cd"), "abcd");
}

#[test]
fn sdp_other_lines_make_no_difference() {
    let a = "c=IN IP4 10.0.0.5\n";
    let b = "m=audio 40000 RTP/AVP 0\n";
    let plain = format!("{}{}", a, b);
    let with_other = format!("{}a=rtpmap:0 PCMU/8000\n{}", a, b);
    assert_eq!(target(&plain), target(&with_other));
    assert_eq!(target(&with_other), Some("10.0.0.5:40000".to_string()));
}

#[test]
fn well_formed_offer_names_its_target() {
    let sdp = "v=0\no=- 0 0 IN IP4 x\nc=IN IP4 192.0.2.10\nm=audio 49170 RTP/AVP 0 8 101\n";
    assert_eq!(target(sdp), Some("192.0.2.10:49170".to_string()));
    assert_eq!(target("c=IN IP4 h\nm=audio 1\n"), Some("h:1".to_string()));
}

#[test]
fn crlf_offer_with_attributes_after_media_line() {
    let sdp = "v=0\r\no=- 1 1 IN IP4 198.51.100.2\r\ns=-\r\nc=IN IP4 198.51.100.2\r\nt=0 0\r\n\
               m=audio 30012 RTP/AVP 0 8 101\r\na=rtpmap:0 PCMU/8000\r\na=rtpmap:101 telephone-event/8000\r\n\
               a=ptime:20\r\na=sendrecv\r\n";
    assert_eq!(target(sdp), Some("198.51.100.2:30012".to_string()));
}

#[test]
fn media_line_before_connection_line() {
    let sdp = "v=0\r\nm=audio 7078 RTP/AVP 0\r\na=rtpmap:0 PCMU/8000\r\nc=IN IP4 203.0.113.9\r\na=sendrecv\r\n";
    assert_eq!(target(sdp), Some("203.0.113.9:7078".to_string()));
    let mixed = "m=audio 7078 RTP/AVP 0\nc=IN IP4 203.0.113.9\r\nm=video 9000 RTP/AVP 96\r\n";
    assert_eq!(target(mixed), Some("203.0.113.9:7078".to_string()));
}

#[test]
fn crlf_other_lines_make_no_difference() {
    let a = "v=0\r\nc=IN IP4 10.1.1.1\r\n";
    let b = "m=audio 5004 RTP/AVP 0\r\n";
    let quiet = "a=rtpmap:0 PCMU/8000\r\nc=IN IP6 ::1\r\nm=video 5006 RTP/AVP 96\r\n";
    let plain = format!("{}{}", a, b);
    let with_quiet = format!("{}{}{}", a, quiet, b);
    assert_eq!(target(&plain), target(&with_quiet));
    assert_eq!(target(&with_quiet), Some("10.1.1.1:5004".to_string()));
}
