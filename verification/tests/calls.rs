use sentiric_sip_b2bua_service::service::initiate_call_id;
use sentiric_sip_b2bua_service::config::{AppConfig, EnvVars};
use sentiric_sip_b2bua_service::engine::{B2BuaEngine, Dispatch, PacketInfo, TxVerdict};
use sentiric_sip_b2bua_service::events::{call_payload, termination_target, EventManager};
use sentiric_sip_b2bua_service::handler::{InviteAction, InviteEvent, InviteRequest, InviteStage};
use sentiric_sip_b2bua_service::retry::{
    connect_step, consumer_step, ConnectOutcome, ConnectStep, ConsumerOutcome,
    channel_health, ChannelHealth, GrpcRetry, PublishOutcome, PublishRun, PublishStep,
};
use sentiric_sip_b2bua_service::sip::{Header, HeaderName, Method};
use sentiric_sip_b2bua_service::store::{Backup, CallState, CallStore, IpAddress, SocketAddress};

fn config() -> AppConfig {
    let s = |v: &str| Some(v.to_string());
    let vars = EnvVars {
        sbc_sip_target: s("sbc:5060"),
        sbc_public_ip: s("203.0.113.1"),
        node_ip: s("10.1.1.1"),
        media_service_url: s("m"),
        registrar_service_url: s("r"),
        dialplan_service_url: s("d"),
        rabbitmq_url: s("q"),
        redis_url: s("rd"),
        cert_path: s("c"),
        key_path: s("k"),
        ca_path: s("ca"),
        tenant_id: s("tenant-x"),
        ..EnvVars::default()
    };
    AppConfig::load_from_env(&vars, "0.1.0").unwrap()
}

fn engine() -> B2BuaEngine {
    B2BuaEngine::new(config(), CallStore::new())
}

fn src() -> SocketAddress {
    SocketAddress { ip: IpAddress::V4(10, 0, 0, 9), port: 5060 }
}

fn invite_request(id: &str) -> InviteRequest {
    InviteRequest {
        call_id: id.to_string(),
        from: "<sip:alice@x>;tag=ft".to_string(),
        to: "<sip:905551112233@y>".to_string(),
        contact: None,
        to_aor: "905551112233".to_string(),
        body: b"c=IN IP4 10.0.0.9\r\nm=audio 40002 RTP/AVP 0\r\n".to_vec(),
        src: src(),
        src_ip_text: "10.0.0.9".to_string(),
    }
}

fn packet(id: &str, method: Method, in_dialog: bool) -> PacketInfo {
    PacketInfo { call_id: id.to_string(), method, is_request: true, in_dialog }
}

#[test]
fn invite_set_up_end_to_end() {
    let mut e = engine();
    assert!(matches!(e.handle_packet(&packet("c1", Method::Invite, false), TxVerdict::ForwardToApp), Dispatch::Invite));
    assert!(matches!(
        e.handle_packet(&packet("c1", Method::Invite, false), TxVerdict::ForwardToApp),
        Dispatch::DuplicateInvite
    ));
    let (mut flow, first) = e.call_handler.process_invite(invite_request("c1"));
    assert!(matches!(first, InviteAction::SendTrying));
    assert_eq!(flow.caller_tag, "ft");
    assert_eq!(flow.client_contact, "<<sip:alice@x>;tag=ft>");
    assert_eq!(flow.rtp_target, "10.0.0.9:40002");
    let h = &mut e.call_handler;
    match h.continue_invite(&mut flow, InviteEvent::TryingSent) {
        InviteAction::ResolveDialplan { caller, destination } => {
            assert_eq!(caller, "<sip:alice@x>;tag=ft");
            assert_eq!(destination, "905551112233");
        }
        other => panic!("unexpected {:?}", other),
    }
    assert!(matches!(h.continue_invite(&mut flow, InviteEvent::DialplanFailed), InviteAction::Pause { millis: 500 }));
    assert!(matches!(h.continue_invite(&mut flow, InviteEvent::PauseOver), InviteAction::ResolveDialplan { .. }));
    assert!(matches!(h.continue_invite(&mut flow, InviteEvent::DialplanResolved), InviteAction::AllocatePort));
    match h.continue_invite(&mut flow, InviteEvent::PortAllocated(30020)) {
        InviteAction::SetTarget { rtp_port, target } => {
            assert_eq!(rtp_port, 30020);
            assert_eq!(target, "10.0.0.9:40002");
        }
        other => panic!("unexpected {:?}", other),
    }
    assert!(matches!(h.continue_invite(&mut flow, InviteEvent::TargetSet), InviteAction::PrepareAnswer { rtp_port: 30020 }));
    let headers = vec![
        Header::new(HeaderName::To, "<sip:905551112233@y>".to_string()),
        Header::new(HeaderName::ContentLength, "0".to_string()),
    ];
    let ev = InviteEvent::AnswerReady { local_tag: "LT".to_string(), sdp: b"v=0\r\n".to_vec(), headers };
    match h.continue_invite(&mut flow, ev) {
        InviteAction::SendAnswer { headers, body, backup } => {
            assert_eq!(headers[0].value, "<sip:905551112233@y>;tag=LT");
            assert_eq!(headers.len(), 4);
            assert_eq!(headers[3].value, "5");
            assert_eq!(body, b"v=0\r\n".to_vec());
            assert!(matches!(backup, Backup::Store { .. }));
        }
        other => panic!("unexpected {:?}", other),
    }
    let s = h.calls.get("c1").unwrap();
    assert_eq!(s.data.state, CallState::Established);
    assert_eq!(s.data.rtp_port, 30020);
    assert_eq!(s.data.local_tag, "LT");
    assert_eq!(s.data.proxy_addr, src());
    match h.continue_invite(&mut flow, InviteEvent::AnswerSent(true)) {
        InviteAction::Announce(ev) => {
            assert_eq!(ev.event_type, "call.started");
            assert_eq!(ev.call_id, "c1");
            assert_eq!(ev.server_rtp_port, 30020);
            assert_eq!(ev.caller_rtp_addr, "10.0.0.9:40002");
        }
        other => panic!("unexpected {:?}", other),
    }
    assert_eq!(flow.stage, InviteStage::Finished);
    assert!(matches!(h.continue_invite(&mut flow, InviteEvent::TargetSet), InviteAction::Nothing));
    e.finish_invite("c1");
    assert!(matches!(e.handle_packet(&packet("c1", Method::Invite, false), TxVerdict::ForwardToApp), Dispatch::Invite));
}

#[test]
fn invite_gives_up_after_three_dialplan_failures() {
    let e = engine();
    let mut h = e.call_handler;
    let (mut flow, _) = h.process_invite(invite_request("c2"));
    h.continue_invite(&mut flow, InviteEvent::TryingSent);
    assert!(matches!(h.continue_invite(&mut flow, InviteEvent::DialplanFailed), InviteAction::Pause { millis: 500 }));
    h.continue_invite(&mut flow, InviteEvent::PauseOver);
    assert!(matches!(h.continue_invite(&mut flow, InviteEvent::DialplanFailed), InviteAction::Pause { millis: 1000 }));
    h.continue_invite(&mut flow, InviteEvent::PauseOver);
    match h.continue_invite(&mut flow, InviteEvent::DialplanFailed) {
        InviteAction::Reject { status, reason } => {
            assert_eq!(status, 500);
            assert_eq!(reason, "Routing Error");
        }
        other => panic!("unexpected {:?}", other),
    }
    assert_eq!(flow.stage, InviteStage::Finished);
}

#[test]
fn invite_media_failure_and_fallback_target() {
    let e = engine();
    let mut h = e.call_handler;
    let mut req = invite_request("c3");
    req.body = Vec::new();
    req.contact = Some("<sip:alice@10.0.0.9>".to_string());
    let (mut flow, _) = h.process_invite(req);
    assert_eq!(flow.rtp_target, "10.0.0.9:30000");
    assert_eq!(flow.client_contact, "<sip:alice@10.0.0.9>");
    h.continue_invite(&mut flow, InviteEvent::TryingSent);
    h.continue_invite(&mut flow, InviteEvent::DialplanResolved);
    match h.continue_invite(&mut flow, InviteEvent::PortFailed) {
        InviteAction::Reject { status, reason } => {
            assert_eq!(status, 503);
            assert_eq!(reason, "Media Error");
        }
        other => panic!("unexpected {:?}", other),
    }
}

#[test]
fn bye_cancel_ack() {
    let mut e = engine();
    let r = e.call_handler.process_outbound_invite("o1", "sip:a@x", "sip:b@y", 30030, "tg", b"v=0".to_vec(), Some(src()));
    let (invite, addr, _) = r.unwrap();
    assert_eq!(invite.method, Method::Invite);
    assert_eq!(addr, src());
    assert_eq!(e.call_handler.calls.get("o1").unwrap().data.state, CallState::Trying);
    assert!(e.call_handler.process_outbound_invite("o2", "a", "b", 1, "t", Vec::new(), None).is_none());
    assert!(e.call_handler.calls.get("o2").is_none());

    match e.handle_packet(&packet("o1", Method::Ack, false), TxVerdict::Ignore) {
        Dispatch::Ack { backup, answered } => {
            assert!(matches!(backup, Backup::Store { .. }));
            assert_eq!(answered.event_type, "call.answered");
            assert_eq!(answered.tenant_id, "tenant-x");
            assert_eq!(termination_target(&answered.payload_json), Some("o1".to_string()));
            assert_eq!(answered.payload_json, "{\"callId\":\"o1\"}");
        }
        other => panic!("unexpected {:?}", other),
    }
    assert_eq!(e.call_handler.calls.get("o1").unwrap().data.state, CallState::Established);

    match e.handle_packet(&packet("o1", Method::Bye, true), TxVerdict::ForwardToApp) {
        Dispatch::Bye(r) => {
            let t = r.teardown.unwrap();
            assert_eq!(t.rtp_port, 30030);
            assert_eq!(t.ended.reason, "normal_clearing");
            assert_eq!(t.ended.event_type, "call.ended");
        }
        other => panic!("unexpected {:?}", other),
    }
    assert!(e.call_handler.calls.get("o1").is_none());
    match e.handle_packet(&packet("o1", Method::Cancel, true), TxVerdict::ForwardToApp) {
        Dispatch::Cancel(r) => {
            assert!(r.teardown.is_none());
            assert!(matches!(r.backup, Backup::Delete { .. }));
        }
        other => panic!("unexpected {:?}", other),
    }
    assert!(!e.call_handler.calls.is_early_cancelled("o1"));
}

#[test]
fn other_dispatches() {
    let mut e = engine();
    let probe = packet("z", Method::Invite, false);
    assert!(!e.needs_transaction_check(&probe));
    assert!(matches!(e.handle_packet(&packet("w", Method::Bye, false), TxVerdict::Ignore), Dispatch::Bye(_)));
    e.call_handler.process_outbound_invite("z", "sip:a@x", "sip:b@y", 1, "t", Vec::new(), Some(src()));
    assert!(e.needs_transaction_check(&probe));
    assert!(!e.needs_transaction_check(&packet("z", Method::Ack, false)));
    assert!(matches!(e.handle_packet(&packet("z", Method::Invite, false), TxVerdict::Retransmit), Dispatch::Retransmit));
    assert!(matches!(e.handle_packet(&packet("z", Method::Bye, false), TxVerdict::Ignore), Dispatch::Ignore));
    assert!(matches!(e.handle_packet(&packet("z", Method::Invite, true), TxVerdict::ForwardToApp), Dispatch::Reinvite));
    assert!(matches!(e.handle_packet(&packet("z", Method::Options, false), TxVerdict::ForwardToApp), Dispatch::Unhandled));
    let resp = PacketInfo { call_id: "z".to_string(), method: Method::Other, is_request: false, in_dialog: false };
    assert!(matches!(e.handle_packet(&resp, TxVerdict::ForwardToApp), Dispatch::Response));
}

#[test]
fn terminate_sends_bye_to_proxy() {
    let mut e = engine();
    e.call_handler.process_outbound_invite("t1", "sip:a@x", "sip:b@y", 30040, "tg", Vec::new(), Some(src()));
    let t = e.terminate_session("t1", "z9hG4bK-xyz");
    let (teardown, bye, to) = t.ended.unwrap();
    assert_eq!(teardown.rtp_port, 30040);
    assert_eq!(teardown.ended.reason, "system_terminated");
    assert_eq!(bye.uri, "sip:b2bua@203.0.113.1:5060");
    assert_eq!(bye.headers[0].value, "SIP/2.0/UDP 10.1.1.1:13084;branch=z9hG4bK-xyz");
    assert_eq!(bye.headers[2].value, "sip:a@x");
    assert_eq!(bye.headers[3].value, "sip:b@y;tag=tg");
    assert_eq!(to, src());
    assert!(bye.body.is_empty());
    assert!(e.terminate_session("t1", "b").ended.is_none());
}

#[test]
fn early_cancel_during_set_up() {
    let e = engine();
    let mut h = e.call_handler;
    let (mut flow, _) = h.process_invite(invite_request("c4"));
    h.continue_invite(&mut flow, InviteEvent::TryingSent);
    h.continue_invite(&mut flow, InviteEvent::DialplanResolved);
    h.continue_invite(&mut flow, InviteEvent::PortAllocated(1));
    h.continue_invite(&mut flow, InviteEvent::TargetSet);
    h.calls.mark_early_cancelled("c4");
    let ev = InviteEvent::AnswerReady { local_tag: "x".to_string(), sdp: Vec::new(), headers: Vec::new() };
    assert!(matches!(h.continue_invite(&mut flow, ev), InviteAction::CancelledEarly { .. }));
    assert_eq!(flow.stage, InviteStage::Finished);
}

#[test]
fn events_and_payloads() {
    let m = EventManager::new("t".to_string());
    let s = m.publish_call_started("c", 30000, "1.2.3.4:5", "f", "to");
    assert_eq!(s.trace_id, "c");
    assert_eq!(s.from_uri, "f");
    let e = m.publish_call_ended("c", "cancelled");
    assert_eq!(e.reason, "cancelled");
    assert_eq!(call_payload("abc"), "{\"callId\":\"abc\"}");
    assert_eq!(call_payload("a\"b"), "{\"callId\":\"a\\\"b\"}");
    assert_eq!(
        call_payload("x\\y\nz\t\u{1}\u{1f}\u{7f}\u{e9}"),
        "{\"callId\":\"x\\\\y\\nz\\t\\u0001\\u001f\u{7f}\u{e9}\"}"
    );
    assert_eq!(termination_target("{\"callId\":\"zz\",\"x\":1}"), Some("zz".to_string()));
    assert_eq!(termination_target("{\"callId\":5}"), None);
    assert_eq!(termination_target("[1,2]"), None);
    assert_eq!(termination_target("not json"), None);
}

#[test]
fn retry_policies() {
    let mut r = GrpcRetry::new();
    assert!(!r.is_given_up());
    assert_eq!(r.record_failure(), Some(500));
    assert_eq!(r.record_failure(), Some(1000));
    assert_eq!(r.record_failure(), None);
    assert!(r.is_given_up());

    assert!(PublishRun::start(false).is_none());
    let mut p = PublishRun::start(true).unwrap();
    assert_eq!(p.record(PublishOutcome::ChannelUnavailable), PublishStep::Retry { pause_ms: 200 });
    assert_eq!(p.record(PublishOutcome::PublishFailed), PublishStep::Retry { pause_ms: 100 });
    assert_eq!(p.record(PublishOutcome::PublishFailed), PublishStep::GiveUp { pause_ms: 100 });
    let mut p = PublishRun::start(true).unwrap();
    assert_eq!(p.record(PublishOutcome::Published), PublishStep::Delivered);

    assert_eq!(channel_health(Some(true), None), ChannelHealth::Healthy);
    assert_eq!(channel_health(Some(false), Some(true)), ChannelHealth::Recreate);
    assert_eq!(channel_health(None, Some(true)), ChannelHealth::Recreate);
    assert_eq!(channel_health(None, Some(false)), ChannelHealth::Dead);
    assert_eq!(channel_health(Some(false), None), ChannelHealth::Dead);
}

#[test]
fn call_ids() {
    assert_eq!(initiate_call_id("given".to_string(), "fresh-id".to_string()), "given");
    assert_eq!(initiate_call_id(String::new(), "fresh-id".to_string()), "fresh-id");
}

#[test]
fn connect_and_consumer_steps() {
    assert_eq!(connect_step(1, ConnectOutcome::Ready), ConnectStep::Done);
    assert_eq!(connect_step(1, ConnectOutcome::Unreachable), ConnectStep::RetryAfter { pause_ms: 5000, warn: true });
    assert_eq!(connect_step(2, ConnectOutcome::Unreachable), ConnectStep::RetryAfter { pause_ms: 5000, warn: false });
    assert_eq!(connect_step(1, ConnectOutcome::ChannelFailed), ConnectStep::RetryAfter { pause_ms: 5000, warn: false });
    assert_eq!(consumer_step(ConsumerOutcome::Consumed), ConnectStep::Done);
    assert_eq!(consumer_step(ConsumerOutcome::NoConnection), ConnectStep::RetryAfter { pause_ms: 5000, warn: false });
    assert_eq!(consumer_step(ConsumerOutcome::ChannelFailed), ConnectStep::RetryAfter { pause_ms: 5000, warn: false });
}
