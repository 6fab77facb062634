//! What the service does with each call: set it up, tear it down, and the
//! state kept for it in the call store.
use vstd::prelude::*;
use crate::config::AppConfig;
use crate::events::{CallEndedEvent, CallStartedEvent, EventManager, GenericEvent, json_string_object, call_id_key};
use crate::retry::{GrpcRetry, backoff_after};
use crate::sdp::{extract_rtp_target_from_sdp, lossy_utf8, rtp_target};
use crate::sip::{
    answer_headers, answer_headers_ok, bracketed, bye_headers_ok, bye_request, caller_tag_of,
    client_contact_of, contact_uri, contact_uri_spec, invite_request_ok, outbound_invite, tag_of, without_angles,
    Header, Method, OutgoingRequest,
};
use crate::store::{
    Backup, CallSession, CallSessionData, CallState, CallStore, CallStoreView, SocketAddress,
    deletes, stores,
};
use crate::text::append_str;

verus! {

/// The reason given when the caller hangs up.
pub open spec fn reason_normal() -> Seq<char> {
    "normal_clearing"@
}

/// The reason given when the caller cancels.
pub open spec fn reason_cancelled() -> Seq<char> {
    "cancelled"@
}

/// The reason given when this service ends the call.
pub open spec fn reason_terminated() -> Seq<char> {
    "system_terminated"@
}

/// The media port of an ended call, to be given back, and the announcement of its end.
#[derive(Debug)]
pub struct Teardown {
    pub rtp_port: u32,
    pub ended: CallEndedEvent,
}

/// A call taken out of the store.
#[derive(Debug)]
pub struct Removal {
    /// What the backup store is to drop.
    pub backup: Backup,
    /// What is left to do when there was such a call.
    pub teardown: Option<Teardown>,
}

/// Whether `r` is what taking the call `call_id` out of the store `before` leaves to do:
/// drop its backup and, when there was such a call, give back its port and
/// announce its end for `reason`.
pub open spec fn removal_ok(r: Removal, before: CallStoreView, call_id: Seq<char>, reason: Seq<char>) -> bool {
    &&& deletes(r.backup, call_id)
    &&& match before.lookup(call_id) {
        Some(s) => r.teardown matches Some(t) && t.rtp_port == s.data.rtp_port && ended_ok(
            t.ended,
            call_id,
            reason,
        ),
        None => r.teardown is None,
    }
}

/// Whether `e` announces that the call `call_id` ended for `reason`.
pub open spec fn ended_ok(e: CallEndedEvent, call_id: Seq<char>, reason: Seq<char>) -> bool {
    &&& e.event_type@ == "call.ended"@
    &&& e.trace_id@ == call_id
    &&& e.call_id@ == call_id
    &&& e.reason@ == reason
}

/// A call that the service ends itself.
#[derive(Debug)]
pub struct Termination {
    /// What the backup store is to drop.
    pub backup: Backup,
    /// When there was such a call: its port to give back, the announcement of its end,
    /// the BYE to send and where to send it.
    pub ended: Option<(Teardown, OutgoingRequest, SocketAddress)>,
}

/// An INVITE as the service reads it.
#[derive(Debug)]
pub struct InviteRequest {
    /// The Call-ID header, or empty.
    pub call_id: String,
    /// The From header, or empty.
    pub from: String,
    /// The To header, or empty.
    pub to: String,
    /// The Contact header, if any.
    pub contact: Option<String>,
    /// The user part of the To URI, or empty.
    pub to_aor: String,
    /// The SDP offer.
    pub body: Vec<u8>,
    /// Where the INVITE came from.
    pub src: SocketAddress,
    /// The IP address it came from, as text.
    pub src_ip_text: String,
}

/// Where the caller takes media: the address that its SDP offer names, else
/// port 30000 at the address the INVITE came from.
pub open spec fn media_target(body: Seq<u8>, src_ip: Seq<char>) -> Seq<char> {
    match rtp_target(lossy_utf8(body)) {
        Some(t) => t,
        None => src_ip + ":30000"@,
    }
}

fn media_target_of(body: &[u8], src_ip: &str) -> (t: String)
    ensures
        t@ == media_target(body@, src_ip@),
{
    match extract_rtp_target_from_sdp(body) {
        Some(t) => t,
        None => {
            let mut t = src_ip.to_owned();
            append_str(&mut t, ":30000");
            t
        },
    }
}

/// Where the set-up of an incoming call stands.
#[derive(Debug, Clone, Copy, PartialEq, Eq, Structural)]
pub enum InviteStage {
    /// The 100 Trying is being sent.
    AwaitTrying,
    /// The dial plan is being asked.
    AwaitDialplan,
    /// A pause before asking the dial plan again.
    Pausing,
    /// A media port is being allocated.
    AwaitPort,
    /// The media service is being told where the caller takes media.
    AwaitTarget,
    /// The 200 OK is being prepared.
    AwaitAnswer,
    /// The 200 OK is being sent.
    AwaitSent,
    /// Nothing is left to do.
    Finished,
}

/// The set-up of an incoming call.
#[derive(Debug)]
pub struct InviteFlow {
    pub call_id: String,
    pub from: String,
    pub to: String,
    pub to_aor: String,
    pub caller_tag: String,
    pub client_contact: String,
    pub src: SocketAddress,
    pub rtp_target: String,
    pub stage: InviteStage,
    pub retry: GrpcRetry,
    pub rtp_port: u32,
}

/// What happened since the last step of a call set-up.
#[derive(Debug)]
pub enum InviteEvent {
    TryingSent,
    DialplanResolved,
    DialplanFailed,
    PauseOver,
    PortAllocated(u32),
    PortFailed,
    TargetSet,
    /// The parts of the 200 OK: a fresh local tag, the SDP answer, and the
    /// headers of a 200 OK for the INVITE.
    AnswerReady { local_tag: String, sdp: Vec<u8>, headers: Vec<Header> },
    AnswerSent(bool),
}

/// What to do next for a call set-up.
#[derive(Debug)]
pub enum InviteAction {
    /// Send 100 Trying.
    SendTrying,
    /// Ask the dial plan where `caller` calling `destination` goes.
    ResolveDialplan { caller: String, destination: String },
    /// Wait this long.
    Pause { millis: u64 },
    /// Allocate a media port for the call.
    AllocatePort,
    /// Tell the media service that the media of `rtp_port` goes to `target`.
    SetTarget { rtp_port: u32, target: String },
    /// Prepare the 200 OK: a local tag, an SDP answer for `rtp_port`, the headers.
    PrepareAnswer { rtp_port: u32 },
    /// Answer the INVITE with this failure.
    Reject { status: u16, reason: String },
    /// Write the backup, then send the 200 OK with these headers and body.
    SendAnswer { headers: Vec<Header>, body: Vec<u8>, backup: Backup },
    /// The caller cancelled while the call was set up: write the backup, then end the call.
    CancelledEarly { backup: Backup },
    /// Announce the call.
    Announce(CallStartedEvent),
    /// Nothing more.
    Done,
    /// The event does not fit the stage; nothing to do.
    Nothing,
}

/// Whether `a` and `b` are the same call set-up, maybe at different stages.
pub open spec fn same_call(a: InviteFlow, b: InviteFlow) -> bool {
    &&& a.call_id == b.call_id
    &&& a.from == b.from
    &&& a.to == b.to
    &&& a.to_aor == b.to_aor
    &&& a.caller_tag == b.caller_tag
    &&& a.client_contact == b.client_contact
    &&& a.src == b.src
    &&& a.rtp_target == b.rtp_target
}

/// The data kept for a call set up by `f` with the local tag `local_tag`.
pub open spec fn established_data(f: InviteFlow, local_tag: String) -> CallSessionData {
    CallSessionData {
        call_id: f.call_id,
        state: CallState::Established,
        from_uri: f.from,
        to_uri: f.to,
        rtp_port: f.rtp_port,
        local_tag: local_tag,
        caller_tag: f.caller_tag,
        client_contact: f.client_contact,
        proxy_addr: f.src,
    }
}

/// Whether `a` asks to answer the INVITE with `status` and the reason `reason`.
pub open spec fn rejects(a: InviteAction, status: u16, reason: Seq<char>) -> bool {
    a matches InviteAction::Reject { status: st, reason: r } && st == status && r@ == reason
}

/// Whether `e` announces the call that `f` set up.
pub open spec fn started_ok(e: CallStartedEvent, f: InviteFlow) -> bool {
    &&& e.event_type@ == "call.started"@
    &&& e.trace_id@ == f.call_id@
    &&& e.call_id@ == f.call_id@
    &&& e.from_uri@ == f.from@
    &&& e.to_uri@ == f.to@
    &&& e.caller_rtp_addr@ == f.rtp_target@
    &&& e.server_rtp_port == f.rtp_port
}

/// Whether the set-up `f` goes to `g`, asks for `a` and changes the call store from
/// `before` to `after` on `event`, `sbc_ip` being the public address of the SBC.
pub open spec fn invite_step_ok(
    f: InviteFlow,
    g: InviteFlow,
    event: InviteEvent,
    a: InviteAction,
    before: CallStoreView,
    after: CallStoreView,
    sbc_ip: Seq<char>,
) -> bool {
    match (f.stage, event) {
        (InviteStage::AwaitTrying, InviteEvent::TryingSent) | (
            InviteStage::Pausing,
            InviteEvent::PauseOver,
        ) => {
            &&& g.stage == InviteStage::AwaitDialplan
            &&& g.retry == f.retry && g.rtp_port == f.rtp_port && after == before
            &&& a matches InviteAction::ResolveDialplan { caller, destination } && caller == f.from
                && destination == f.to_aor
        },
        (InviteStage::AwaitDialplan, InviteEvent::DialplanResolved) => {
            &&& g.stage == InviteStage::AwaitPort
            &&& g.retry == f.retry && g.rtp_port == f.rtp_port && after == before
            &&& a is AllocatePort
        },
        (InviteStage::AwaitDialplan, InviteEvent::DialplanFailed) => {
            &&& g.rtp_port == f.rtp_port && after == before
            &&& if f.retry.given_up() {
                g.stage == InviteStage::Finished && rejects(a, 500, "Routing Error"@)
            } else {
                &&& g.retry.failures() == f.retry.failures() + 1
                &&& if g.retry.given_up() {
                    g.stage == InviteStage::Finished && rejects(a, 500, "Routing Error"@)
                } else {
                    g.stage == InviteStage::Pausing && (a matches InviteAction::Pause { millis }
                        && millis == backoff_after(g.retry.failures()))
                }
            }
        },
        (InviteStage::AwaitPort, InviteEvent::PortAllocated(p)) => {
            &&& g.stage == InviteStage::AwaitTarget
            &&& g.retry == f.retry && g.rtp_port == p && after == before
            &&& a matches InviteAction::SetTarget { rtp_port, target } && rtp_port == p && target
                == f.rtp_target
        },
        (InviteStage::AwaitPort, InviteEvent::PortFailed) => {
            &&& g.stage == InviteStage::Finished
            &&& g.retry == f.retry && g.rtp_port == f.rtp_port && after == before
            &&& rejects(a, 503, "Media Error"@)
        },
        (InviteStage::AwaitTarget, InviteEvent::TargetSet) => {
            &&& g.stage == InviteStage::AwaitAnswer
            &&& g.retry == f.retry && g.rtp_port == f.rtp_port && after == before
            &&& a matches InviteAction::PrepareAnswer { rtp_port } && rtp_port == f.rtp_port
        },
        (InviteStage::AwaitAnswer, InviteEvent::AnswerReady { local_tag, sdp, headers }) => {
            let data = established_data(f, local_tag);
            &&& g.retry == f.retry && g.rtp_port == f.rtp_port
            &&& after == before.put(f.call_id@, CallSession { data })
            &&& if after.early_cancelled.contains(f.call_id@) {
                g.stage == InviteStage::Finished && (a matches InviteAction::CancelledEarly {
                    backup,
                } && stores(backup, f.call_id@, data))
            } else {
                g.stage == InviteStage::AwaitSent && (a matches InviteAction::SendAnswer {
                    headers: answer,
                    body,
                    backup,
                } && answer_headers_ok(headers@, answer@, local_tag@, sbc_ip, sdp@.len())
                    && body == sdp && stores(backup, f.call_id@, data))
            }
        },
        (InviteStage::AwaitSent, InviteEvent::AnswerSent(sent)) => {
            &&& g.stage == InviteStage::Finished
            &&& g.retry == f.retry && g.rtp_port == f.rtp_port && after == before
            &&& sent ==> (a matches InviteAction::Announce(e) && started_ok(e, f))
            &&& !sent ==> a is Done
        },
        _ => {
            &&& g.stage == f.stage && g.retry == f.retry && g.rtp_port == f.rtp_port
            &&& after == before
            &&& a is Nothing
        },
    }
}

/// Whether `r` is what ending the call `call_id` from this side leaves to do, the
/// call store going from `before` to `after`: drop its backup and, when there was
/// such a call, give back its port, announce its end, and send the BYE built with
/// the settings `config` and the Via branch `branch` to the call's proxy.
pub open spec fn termination_ok(
    r: Termination,
    before: CallStoreView,
    after: CallStoreView,
    call_id: Seq<char>,
    config: AppConfig,
    branch: Seq<char>,
) -> bool {
    &&& after == before.take(call_id)
    &&& deletes(r.backup, call_id)
    &&& match before.lookup(call_id) {
        Some(s) => r.ended matches Some(e) && e.0.rtp_port == s.data.rtp_port && ended_ok(
            e.0.ended,
            call_id,
            reason_terminated(),
        ) && e.1.method == Method::Bye && e.1.uri@ == without_angles(s.data.client_contact@)
            && e.1.body@.len() == 0 && bye_headers_ok(
            e.1.headers@,
            s.data,
            call_id,
            config.public_ip@,
            config.sip_port,
            config.sbc_public_ip@,
            branch,
        ) && e.2 == s.data.proxy_addr,
        None => r.ended is None,
    }
}

/// Whether `r` is what setting up a call from `from_uri` to `to_uri` through the
/// proxy at `proxy` leaves to do, the call store going from `before` to `after`:
/// with no proxy address, nothing; else the INVITE to send there, the call kept
/// as trying and its backup.
pub open spec fn outbound_ok(
    r: Option<(OutgoingRequest, SocketAddress, Backup)>,
    before: CallStoreView,
    after: CallStoreView,
    call_id: Seq<char>,
    from_uri: Seq<char>,
    to_uri: Seq<char>,
    rtp_port: u32,
    local_tag: Seq<char>,
    sdp: Seq<u8>,
    proxy: Option<SocketAddress>,
    sbc_ip: Seq<char>,
) -> bool {
    &&& proxy is None ==> r is None && after == before
    &&& proxy matches Some(addr) ==> r matches Some(out) && out.1 == addr && invite_request_ok(
        out.0,
        call_id,
        from_uri,
        to_uri,
        local_tag,
        sbc_ip,
        sdp,
    ) && {
        let s = after.lookup(call_id);
        &&& s is Some
        &&& after == before.put(call_id, s->0)
        &&& s->0.data.call_id@ == call_id
        &&& s->0.data.state == CallState::Trying
        &&& s->0.data.from_uri@ == from_uri
        &&& s->0.data.to_uri@ == to_uri
        &&& s->0.data.rtp_port == rtp_port
        &&& s->0.data.local_tag@ == local_tag
        &&& s->0.data.caller_tag@.len() == 0
        &&& s->0.data.client_contact@ == contact_uri_spec(sbc_ip)
        &&& s->0.data.proxy_addr == addr
        &&& stores(out.2, call_id, s->0.data)
    }
}

/// The call handler: the call store, the settings and the event builder.
pub struct CallHandler {
    pub config: AppConfig,
    pub calls: CallStore,
    pub event_mgr: EventManager,
}

impl CallHandler {
    pub fn new(config: AppConfig, calls: CallStore, event_mgr: EventManager) -> (h: Self)
        ensures
            h.config == config,
            h.calls == calls,
            h.event_mgr == event_mgr,
    {
        CallHandler { config, calls, event_mgr }
    }

    fn end_call(&mut self, call_id: &str, reason: &str) -> (r: Removal)
        ensures
            removal_ok(r, old(self).calls@, call_id@, reason@),
            final(self).calls@ == old(self).calls@.take(call_id@),
            final(self).config == old(self).config,
            final(self).event_mgr == old(self).event_mgr,
    {
        let (removed, backup) = self.calls.remove(call_id);
        let teardown = match removed {
            Some(session) => Some(
                Teardown {
                    rtp_port: session.data.rtp_port,
                    ended: self.event_mgr.publish_call_ended(call_id, reason),
                },
            ),
            None => None,
        };
        Removal { backup, teardown }
    }

    /// A BYE for the call `call_id` (answered 200 OK by the caller of this method):
    /// the call is taken out of the store.
    pub fn process_bye(&mut self, call_id: &str) -> (r: Removal)
        ensures
            removal_ok(r, old(self).calls@, call_id@, reason_normal()),
            final(self).calls@ == old(self).calls@.take(call_id@),
            final(self).config == old(self).config,
            final(self).event_mgr == old(self).event_mgr,
    {
        self.end_call(call_id, "normal_clearing")
    }

    /// A CANCEL for the call `call_id` (answered 200 OK by the caller of this method):
    /// the call is marked cancelled, then taken out of the store.
    pub fn process_cancel(&mut self, call_id: &str) -> (r: Removal)
        ensures
            removal_ok(r, old(self).calls@.cancel(call_id@), call_id@, reason_cancelled()),
            final(self).calls@ == old(self).calls@.cancel(call_id@).take(call_id@),
            final(self).config == old(self).config,
            final(self).event_mgr == old(self).event_mgr,
    {
        self.calls.mark_early_cancelled(call_id);
        self.end_call(call_id, "cancelled")
    }

    /// An ACK for the call `call_id`: the call counts as established, and its
    /// answer is announced.
    pub fn process_ack(&mut self, call_id: &str) -> (r: (Backup, GenericEvent))
        ensures
            final(self).calls@ == old(self).calls@.restate(call_id@, CallState::Established),
            match final(self).calls@.lookup(call_id@) {
                Some(s) => stores(r.0, call_id@, s.data),
                None => r.0 is Nothing,
            },
            r.1.event_type@ == "call.answered"@,
            r.1.trace_id@ == call_id@,
            r.1.tenant_id == old(self).event_mgr.tenant_id,
            r.1.payload_json@ == json_string_object(call_id_key(), call_id@),
            final(self).config == old(self).config,
            final(self).event_mgr == old(self).event_mgr,
    {
        let backup = self.calls.update_state(call_id, CallState::Established);
        let event = self.event_mgr.publish_call_answered(call_id);
        (backup, event)
    }

    /// Ends the call `call_id` from this side: the call is taken out of the store and,
    /// when there was one, a BYE with Via branch `branch` goes to its proxy.
    pub fn terminate_session(&mut self, call_id: &str, branch: &str) -> (r: Termination)
        ensures
            termination_ok(
                r,
                old(self).calls@,
                final(self).calls@,
                call_id@,
                old(self).config,
                branch@,
            ),
            final(self).config == old(self).config,
            final(self).event_mgr == old(self).event_mgr,
    {
        let (removed, backup) = self.calls.remove(call_id);
        match removed {
            Some(session) => {
                let ended = self.event_mgr.publish_call_ended(call_id, "system_terminated");
                let bye = bye_request(
                    &session.data,
                    call_id,
                    self.config.public_ip.as_str(),
                    self.config.sip_port,
                    self.config.sbc_public_ip.as_str(),
                    branch,
                );
                let teardown = Teardown { rtp_port: session.data.rtp_port, ended };
                Termination { backup, ended: Some((teardown, bye, session.data.proxy_addr)) }
            },
            None => Termination { backup, ended: None },
        }
    }

    /// Sets up a call from `from_uri` to `to_uri` through the proxy at `proxy`:
    /// with media on `rtp_port`, local tag `local_tag` and the SDP offer `sdp`, the
    /// call is kept as trying and the INVITE is to be sent to the proxy. When the
    /// proxy address could not be found, nothing is kept and nothing is sent.
    pub fn process_outbound_invite(
        &mut self,
        call_id: &str,
        from_uri: &str,
        to_uri: &str,
        rtp_port: u32,
        local_tag: &str,
        sdp: Vec<u8>,
        proxy: Option<SocketAddress>,
    ) -> (r: Option<(OutgoingRequest, SocketAddress, Backup)>)
        ensures
            outbound_ok(
                r,
                old(self).calls@,
                final(self).calls@,
                call_id@,
                from_uri@,
                to_uri@,
                rtp_port,
                local_tag@,
                sdp@,
                proxy,
                old(self).config.sbc_public_ip@,
            ),
            final(self).config == old(self).config,
            final(self).event_mgr == old(self).event_mgr,
    {
        let invite = outbound_invite(
            call_id,
            from_uri,
            to_uri,
            local_tag,
            self.config.sbc_public_ip.as_str(),
            sdp,
        );
        match proxy {
            Some(addr) => {
                let data = CallSessionData {
                    call_id: call_id.to_owned(),
                    state: CallState::Trying,
                    from_uri: from_uri.to_owned(),
                    to_uri: to_uri.to_owned(),
                    rtp_port,
                    local_tag: local_tag.to_owned(),
                    caller_tag: String::new(),
                    client_contact: contact_uri(self.config.sbc_public_ip.as_str()),
                    proxy_addr: addr,
                };
                let backup = self.calls.insert(CallSession::new(data));
                Some((invite, addr, backup))
            },
            None => None,
        }
    }

    /// Starts setting up the call that `req` asks for.
    pub fn process_invite(&self, req: InviteRequest) -> (r: (InviteFlow, InviteAction))
        ensures
            r.0.call_id == req.call_id,
            r.0.from == req.from,
            r.0.to == req.to,
            r.0.to_aor == req.to_aor,
            r.0.caller_tag@ == tag_of(req.from@),
            match req.contact {
                Some(c) => r.0.client_contact == c,
                None => r.0.client_contact@ == bracketed(req.from@),
            },
            r.0.src == req.src,
            r.0.rtp_target@ == media_target(req.body@, req.src_ip_text@),
            r.0.stage == InviteStage::AwaitTrying,
            r.0.retry.failures() == 0,
            r.1 is SendTrying,
    {
        let caller_tag = caller_tag_of(req.from.as_str());
        let client_contact = client_contact_of(req.contact, req.from.as_str());
        let rtp_target = media_target_of(req.body.as_slice(), req.src_ip_text.as_str());
        let flow = InviteFlow {
            call_id: req.call_id,
            from: req.from,
            to: req.to,
            to_aor: req.to_aor,
            caller_tag,
            client_contact,
            src: req.src,
            rtp_target,
            stage: InviteStage::AwaitTrying,
            retry: GrpcRetry::new(),
            rtp_port: 0,
        };
        (flow, InviteAction::SendTrying)
    }

    /// Takes the set-up `flow` one step further after `event`.
    pub fn continue_invite(&mut self, flow: &mut InviteFlow, event: InviteEvent) -> (a: InviteAction)
        ensures
            same_call(*final(flow), *old(flow)),
            final(self).config == old(self).config,
            final(self).event_mgr == old(self).event_mgr,
            invite_step_ok(
                *old(flow),
                *final(flow),
                event,
                a,
                old(self).calls@,
                final(self).calls@,
                old(self).config.sbc_public_ip@,
            ),
            old(flow).stage == InviteStage::AwaitAnswer ==> match event {
                InviteEvent::AnswerReady { local_tag, .. } => (final(self).calls@.lookup(
                    old(flow).call_id@,
                ) matches Some(s) && s.data.caller_tag == old(flow).caller_tag && s.data.local_tag
                    == local_tag),
                _ => true,
            },
            old(flow).stage == InviteStage::AwaitSent && event == InviteEvent::AnswerSent(true) ==> (
            a matches InviteAction::Announce(e) && e.from_uri@ == old(flow).from@ && e.to_uri@ == old(
                flow,
            ).to@),
    {
        let stage = flow.stage;
        match (stage, event) {
            (InviteStage::AwaitTrying, InviteEvent::TryingSent) => {
                flow.stage = InviteStage::AwaitDialplan;
                InviteAction::ResolveDialplan { caller: flow.from.clone(), destination: flow.to_aor.clone() }
            },
            (InviteStage::Pausing, InviteEvent::PauseOver) => {
                flow.stage = InviteStage::AwaitDialplan;
                InviteAction::ResolveDialplan { caller: flow.from.clone(), destination: flow.to_aor.clone() }
            },
            (InviteStage::AwaitDialplan, InviteEvent::DialplanResolved) => {
                flow.stage = InviteStage::AwaitPort;
                InviteAction::AllocatePort
            },
            (InviteStage::AwaitDialplan, InviteEvent::DialplanFailed) => {
                if flow.retry.is_given_up() {
                    flow.stage = InviteStage::Finished;
                    InviteAction::Reject { status: 500, reason: "Routing Error".to_owned() }
                } else {
                    match flow.retry.record_failure() {
                        Some(ms) => {
                            flow.stage = InviteStage::Pausing;
                            InviteAction::Pause { millis: ms }
                        },
                        None => {
                            flow.stage = InviteStage::Finished;
                            InviteAction::Reject { status: 500, reason: "Routing Error".to_owned() }
                        },
                    }
                }
            },
            (InviteStage::AwaitPort, InviteEvent::PortAllocated(port)) => {
                flow.rtp_port = port;
                flow.stage = InviteStage::AwaitTarget;
                InviteAction::SetTarget { rtp_port: port, target: flow.rtp_target.clone() }
            },
            (InviteStage::AwaitPort, InviteEvent::PortFailed) => {
                flow.stage = InviteStage::Finished;
                InviteAction::Reject { status: 503, reason: "Media Error".to_owned() }
            },
            (InviteStage::AwaitTarget, InviteEvent::TargetSet) => {
                flow.stage = InviteStage::AwaitAnswer;
                InviteAction::PrepareAnswer { rtp_port: flow.rtp_port }
            },
            (InviteStage::AwaitAnswer, InviteEvent::AnswerReady { local_tag, sdp, headers }) => {
                let answer = answer_headers(
                    &headers,
                    local_tag.as_str(),
                    self.config.sbc_public_ip.as_str(),
                    sdp.len(),
                );
                let data = CallSessionData {
                    call_id: flow.call_id.clone(),
                    state: CallState::Established,
                    from_uri: flow.from.clone(),
                    to_uri: flow.to.clone(),
                    rtp_port: flow.rtp_port,
                    local_tag: local_tag,
                    caller_tag: flow.caller_tag.clone(),
                    client_contact: flow.client_contact.clone(),
                    proxy_addr: flow.src,
                };
                let backup = self.calls.insert(CallSession::new(data));
                if self.calls.is_early_cancelled(flow.call_id.as_str()) {
                    flow.stage = InviteStage::Finished;
                    InviteAction::CancelledEarly { backup }
                } else {
                    flow.stage = InviteStage::AwaitSent;
                    InviteAction::SendAnswer { headers: answer, body: sdp, backup }
                }
            },
            (InviteStage::AwaitSent, InviteEvent::AnswerSent(sent)) => {
                flow.stage = InviteStage::Finished;
                if sent {
                    InviteAction::Announce(
                        self.event_mgr.publish_call_started(
                            flow.call_id.as_str(),
                            flow.rtp_port,
                            flow.rtp_target.as_str(),
                            flow.from.as_str(),
                            flow.to.as_str(),
                        ),
                    )
                } else {
                    InviteAction::Done
                }
            },
            _ => InviteAction::Nothing,
        }
    }
}

/// A finished set-up stays finished: whatever happens, it asks for nothing and
/// leaves the call store alone.
pub proof fn law_finished_is_final(
    f: InviteFlow,
    g: InviteFlow,
    event: InviteEvent,
    a: InviteAction,
    before: CallStoreView,
    after: CallStoreView,
    sbc_ip: Seq<char>,
)
    requires
        f.stage == InviteStage::Finished,
        invite_step_ok(f, g, event, a, before, after, sbc_ip),
    ensures
        g.stage == InviteStage::Finished,
        a is Nothing,
        after == before,
{
}

/// A set-up asks the dial plan again only after a pause, and gives up with
/// `500 Routing Error` on the failure that uses up its tries.
pub proof fn law_dialplan_failures(
    f: InviteFlow,
    g: InviteFlow,
    a: InviteAction,
    before: CallStoreView,
    after: CallStoreView,
    sbc_ip: Seq<char>,
)
    requires
        f.stage == InviteStage::AwaitDialplan,
        invite_step_ok(f, g, InviteEvent::DialplanFailed, a, before, after, sbc_ip),
    ensures
        after == before,
        g.stage == InviteStage::Pausing || (g.stage == InviteStage::Finished && rejects(
            a,
            500,
            "Routing Error"@,
        )),
        g.stage == InviteStage::Pausing ==> a is Pause,
{
}

/// A step of a call set-up touches no other call in the store.
pub proof fn law_invite_step_touches_own_call(
    f: InviteFlow,
    g: InviteFlow,
    event: InviteEvent,
    a: InviteAction,
    before: CallStoreView,
    after: CallStoreView,
    sbc_ip: Seq<char>,
    other: Seq<char>,
)
    requires
        other != f.call_id@,
        invite_step_ok(f, g, event, a, before, after, sbc_ip),
    ensures
        after.lookup(other) == before.lookup(other),
        after.early_cancelled == before.early_cancelled,
        after.invites_in_flight == before.invites_in_flight,
{
}

/// When the 200 OK is ready, the call is kept as established with the data of
/// its set-up: the caller's From and To, the caller's own tag (read from the
/// INVITE's From), this side's fresh local tag, the caller's contact, its
/// proxy and the media port.
pub proof fn law_answered_call_is_kept(
    f: InviteFlow,
    g: InviteFlow,
    local_tag: String,
    sdp: Vec<u8>,
    headers: Vec<Header>,
    a: InviteAction,
    before: CallStoreView,
    after: CallStoreView,
    sbc_ip: Seq<char>,
)
    requires
        f.stage == InviteStage::AwaitAnswer,
        invite_step_ok(f, g, InviteEvent::AnswerReady { local_tag, sdp, headers }, a, before, after, sbc_ip),
    ensures
        after.lookup(f.call_id@) matches Some(s) && {
            &&& s.data.call_id == f.call_id
            &&& s.data.state == CallState::Established
            &&& s.data.from_uri == f.from
            &&& s.data.to_uri == f.to
            &&& s.data.caller_tag == f.caller_tag
            &&& s.data.local_tag == local_tag
            &&& s.data.client_contact == f.client_contact
            &&& s.data.proxy_addr == f.src
            &&& s.data.rtp_port == f.rtp_port
        },
{
}

/// Once the 200 OK went out, the call is announced with the INVITE's From as
/// `from_uri` and its To as `to_uri`, under its Call-ID, with its media
/// addresses on both sides.
pub proof fn law_started_event_names_caller_and_callee(
    f: InviteFlow,
    g: InviteFlow,
    a: InviteAction,
    before: CallStoreView,
    after: CallStoreView,
    sbc_ip: Seq<char>,
)
    requires
        f.stage == InviteStage::AwaitSent,
        invite_step_ok(f, g, InviteEvent::AnswerSent(true), a, before, after, sbc_ip),
    ensures
        a matches InviteAction::Announce(e) && {
            &&& e.event_type@ == "call.started"@
            &&& e.call_id@ == f.call_id@
            &&& e.from_uri@ == f.from@
            &&& e.to_uri@ == f.to@
            &&& e.caller_rtp_addr@ == f.rtp_target@
            &&& e.server_rtp_port == f.rtp_port
        },
{
}

} // verus!
