use sentiric_sip_b2bua_service::sip::{
    answer_headers, bye_request, caller_tag_of, client_contact_of, contact_uri, outbound_invite,
    tag_to_value, Header, HeaderName, Method,
};
use sentiric_sip_b2bua_service::store::{CallSessionData, CallState, IpAddress, SocketAddress};

fn h(name: HeaderName, v: &str) -> Header {
    Header::new(name, v.to_string())
}

fn dump(hs: &[Header]) -> Vec<(String, String)> {
    hs.iter().map(|x| (format!("{:?}", x.name), x.value.clone())).collect()
}

#[test]
fn caller_tag_is_text_after_tag_marker() {
    assert_eq!(caller_tag_of("<sip:alice@x>;tag=abc123"), "abc123");
    assert_eq!(caller_tag_of("<sip:alice@x>"), "");
    assert_eq!(caller_tag_of("a;tag=one;tag=two"), "one");
    assert_eq!(caller_tag_of("a;tag=x;p=1"), "x;p=1");
    assert_eq!(caller_tag_of(";tag="), "");
}

#[test]
fn contact_defaults_to_bracketed_from() {
    assert_eq!(client_contact_of(None, "sip:bob@y"), "<sip:bob@y>");
    assert_eq!(client_contact_of(Some("<sip:c@z>".to_string()), "sip:bob@y"), "<sip:c@z>");
}

#[test]
fn to_header_gets_tag_once() {
    assert_eq!(tag_to_value("  <sip:b@y>  ", "T1"), "<sip:b@y>;tag=T1");
    assert_eq!(tag_to_value(" <sip:b@y>;tag=old ", "T1"), " <sip:b@y>;tag=old ");
}

#[test]
fn our_contact() {
    assert_eq!(contact_uri("203.0.113.1"), "<sip:b2bua@203.0.113.1:5060>");
}

#[test]
fn answer_headers_replace_content_length() {
    let before = vec![
        h(HeaderName::Via, "SIP/2.0/UDP p"),
        h(HeaderName::From, "<sip:a@x>;tag=a1"),
        h(HeaderName::To, "<sip:b@y>"),
        h(HeaderName::ContentLength, "0"),
        h(HeaderName::To, "<sip:c@y>"),
        h(HeaderName::CallId, "cid"),
    ];
    let after = answer_headers(&before, "L9", "198.51.100.2", 123);
    assert_eq!(
        dump(&after),
        vec![
            ("Via".to_string(), "SIP/2.0/UDP p".to_string()),
            ("From".to_string(), "<sip:a@x>;tag=a1".to_string()),
            ("To".to_string(), "<sip:b@y>;tag=L9".to_string()),
            ("To".to_string(), "<sip:c@y>".to_string()),
            ("CallId".to_string(), "cid".to_string()),
            ("Contact".to_string(), "<sip:b2bua@198.51.100.2:5060>".to_string()),
            ("ContentType".to_string(), "application/sdp".to_string()),
            ("ContentLength".to_string(), "123".to_string()),
        ]
    );
}

fn data(caller_tag: &str) -> CallSessionData {
    CallSessionData {
        call_id: "call-1".to_string(),
        state: CallState::Established,
        from_uri: "<sip:alice@x>".to_string(),
        to_uri: "<sip:bob@y>".to_string(),
        rtp_port: 30010,
        local_tag: "loc".to_string(),
        caller_tag: caller_tag.to_string(),
        client_contact: "<sip:alice@10.0.0.1:5060>".to_string(),
        proxy_addr: SocketAddress { ip: IpAddress::V4(10, 0, 0, 2), port: 5060 },
    }
}

#[test]
fn bye_headers() {
    let r = bye_request(&data("ct"), "call-1", "10.1.1.1", 13084, "203.0.113.1", "z9hG4bK-1");
    assert_eq!(r.method, Method::Bye);
    assert_eq!(r.uri, "sip:alice@10.0.0.1:5060");
    assert!(r.body.is_empty());
    assert_eq!(
        dump(&r.headers),
        vec![
            ("Via".to_string(), "SIP/2.0/UDP 10.1.1.1:13084;branch=z9hG4bK-1".to_string()),
            ("MaxForwards".to_string(), "70".to_string()),
            ("To".to_string(), "<sip:alice@x>;tag=ct".to_string()),
            ("From".to_string(), "<sip:bob@y>;tag=loc".to_string()),
            ("CallId".to_string(), "call-1".to_string()),
            ("CSeq".to_string(), "999 BYE".to_string()),
            ("Route".to_string(), "<sip:sbc@203.0.113.1:5060;lr>".to_string()),
            ("ContentLength".to_string(), "0".to_string()),
        ]
    );
    let r = bye_request(&data(""), "call-1", "10.1.1.1", 13084, "203.0.113.1", "b");
    assert_eq!(r.headers[2].value, "<sip:alice@x>");
}

#[test]
fn outbound_invite_headers() {
    let r = outbound_invite("c2", "sip:a@x", "sip:b@y", "t7", "203.0.113.1", b"v=0\r\n".to_vec());
    assert_eq!(r.method, Method::Invite);
    assert_eq!(r.uri, "sip:b@y");
    assert_eq!(r.body, b"v=0\r\n".to_vec());
    assert_eq!(
        dump(&r.headers),
        vec![
            ("From".to_string(), "<sip:a@x>;tag=t7".to_string()),
            ("To".to_string(), "<sip:b@y>".to_string()),
            ("CallId".to_string(), "c2".to_string()),
            ("CSeq".to_string(), "1 INVITE".to_string()),
            ("Contact".to_string(), "<sip:b2bua@203.0.113.1:5060>".to_string()),
            ("ContentType".to_string(), "application/sdp".to_string()),
            ("ContentLength".to_string(), "5".to_string()),
        ]
    );
}
