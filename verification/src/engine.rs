//! Which handling each incoming SIP packet gets.
use vstd::prelude::*;
use crate::config::AppConfig;
use crate::events::{EventManager, GenericEvent, call_id_key, json_string_object};
use crate::handler::{
    CallHandler, Removal, Termination, outbound_ok, reason_cancelled, reason_normal, removal_ok,
    termination_ok,
};
use crate::sip::{Method, OutgoingRequest};
use crate::store::{Backup, CallSession, CallState, CallStore, CallStoreView, SocketAddress};

verus! {

/// What the service reads of an incoming SIP packet.
#[derive(Debug)]
pub struct PacketInfo {
    /// The Call-ID header, or empty.
    pub call_id: String,
    /// The request method (of no account for a response).
    pub method: Method,
    /// Whether the packet is a request.
    pub is_request: bool,
    /// Whether the request belongs to an existing dialog (its To header has a tag).
    pub in_dialog: bool,
}

/// What the transaction layer makes of a packet.
#[derive(Debug, Clone, Copy, PartialEq, Eq, Structural)]
pub enum TxVerdict {
    /// A retransmitted request: send the cached answer again.
    Retransmit,
    /// Drop it.
    Ignore,
    /// Hand it to the call logic.
    ForwardToApp,
}

/// The handling a packet gets.
#[derive(Debug)]
pub enum Dispatch {
    /// An ACK: the call counts as established; write `backup` and announce `answered`.
    Ack { backup: Backup, answered: GenericEvent },
    /// Send the cached answer again.
    Retransmit,
    /// Drop the packet.
    Ignore,
    /// A response: nothing to do.
    Response,
    /// An INVITE within a dialog.
    Reinvite,
    /// A new INVITE, now claimed: set the call up, then call `finish_invite`.
    Invite,
    /// A new INVITE that is being worked on already: dropped.
    DuplicateInvite,
    /// A BYE: answer 200 OK, then carry out the removal.
    Bye(Removal),
    /// A CANCEL: answer 200 OK, then carry out the removal.
    Cancel(Removal),
    /// Another request: not handled.
    Unhandled,
}

/// The back-to-back user agent.
pub struct B2BuaEngine {
    pub call_handler: CallHandler,
}

impl B2BuaEngine {
    /// An engine with the settings `config` over the call store `calls`.
    pub fn new(config: AppConfig, calls: CallStore) -> (e: Self)
        ensures
            e.call_handler.calls == calls,
            e.call_handler.config == config,
            e.call_handler.event_mgr.tenant_id == config.tenant_id,
    {
        let event_mgr = EventManager::new(config.tenant_id.clone());
        B2BuaEngine { call_handler: CallHandler::new(config, calls, event_mgr) }
    }

    /// Whether the transaction layer is to be asked about `packet`: only for a
    /// packet other than an ACK whose call the store holds.
    pub fn needs_transaction_check(&self, packet: &PacketInfo) -> (b: bool)
        ensures
            b == (packet.method != Method::Ack && self.call_handler.calls@.lookup(
                packet.call_id@,
            ) is Some),
    {
        packet.method != Method::Ack && self.call_handler.calls.get(packet.call_id.as_str()).is_some()
    }

    /// Handles an incoming packet; `verdict` is what the transaction layer made of it.
    /// It counts only where `needs_transaction_check` holds: an ACK needs no
    /// transaction, and a packet of a call the store does not hold goes to the call logic.
    pub fn handle_packet(&mut self, packet: &PacketInfo, verdict: TxVerdict) -> (d: Dispatch)
        ensures
            final(self).call_handler.config == old(self).call_handler.config,
            final(self).call_handler.event_mgr == old(self).call_handler.event_mgr,
            dispatch_ok(
                *packet,
                verdict,
                d,
                old(self).call_handler.calls@,
                final(self).call_handler.calls@,
                old(self).call_handler.event_mgr.tenant_id,
            ),
    {
        let id = packet.call_id.as_str();
        if packet.method == Method::Ack {
            let (backup, answered) = self.call_handler.process_ack(id);
            return Dispatch::Ack { backup, answered };
        }
        let verdict = match self.call_handler.calls.get(id) {
            Some(_) => verdict,
            None => TxVerdict::ForwardToApp,
        };
        match verdict {
            TxVerdict::Retransmit => Dispatch::Retransmit,
            TxVerdict::Ignore => Dispatch::Ignore,
            TxVerdict::ForwardToApp => {
                if !packet.is_request {
                    return Dispatch::Response;
                }
                match packet.method {
                    Method::Invite => {
                        if packet.in_dialog {
                            Dispatch::Reinvite
                        } else if self.call_handler.calls.try_lock_invite(id) {
                            Dispatch::Invite
                        } else {
                            Dispatch::DuplicateInvite
                        }
                    },
                    Method::Bye => Dispatch::Bye(self.call_handler.process_bye(id)),
                    Method::Cancel => Dispatch::Cancel(self.call_handler.process_cancel(id)),
                    _ => Dispatch::Unhandled,
                }
            },
        }
    }

    /// The set-up of the INVITE of `call_id` is over: its claim is given up.
    pub fn finish_invite(&mut self, call_id: &str)
        ensures
            final(self).call_handler.calls@ == old(self).call_handler.calls@.unlock(call_id@),
            final(self).call_handler.config == old(self).call_handler.config,
            final(self).call_handler.event_mgr == old(self).call_handler.event_mgr,
    {
        self.call_handler.calls.unlock_invite(call_id);
    }

    /// Sets up a call from `from_uri` to `to_uri` (see `CallHandler::process_outbound_invite`).
    pub fn send_outbound_invite(
        &mut self,
        call_id: &str,
        from_uri: &str,
        to_uri: &str,
        rtp_port: u32,
        local_tag: &str,
        sdp: Vec<u8>,
        proxy: Option<SocketAddress>,
    ) -> (r: Option<(OutgoingRequest, SocketAddress, Backup)>)
        ensures
            outbound_ok(
                r,
                old(self).call_handler.calls@,
                final(self).call_handler.calls@,
                call_id@,
                from_uri@,
                to_uri@,
                rtp_port,
                local_tag@,
                sdp@,
                proxy,
                old(self).call_handler.config.sbc_public_ip@,
            ),
            final(self).call_handler.config == old(self).call_handler.config,
            final(self).call_handler.event_mgr == old(self).call_handler.event_mgr,
    {
        self.call_handler.process_outbound_invite(
            call_id,
            from_uri,
            to_uri,
            rtp_port,
            local_tag,
            sdp,
            proxy,
        )
    }

    /// Ends the call `call_id` from this side (see `CallHandler::terminate_session`).
    pub fn terminate_session(&mut self, call_id: &str, branch: &str) -> (r: Termination)
        ensures
            termination_ok(
                r,
                old(self).call_handler.calls@,
                final(self).call_handler.calls@,
                call_id@,
                old(self).call_handler.config,
                branch@,
            ),
            final(self).call_handler.config == old(self).call_handler.config,
            final(self).call_handler.event_mgr == old(self).call_handler.event_mgr,
    {
        self.call_handler.terminate_session(call_id, branch)
    }
}

/// Whether `d` is the handling of `p` with the transaction verdict `v`, the call
/// store going from `before` to `after`.
pub open spec fn dispatch_ok(
    p: PacketInfo,
    v: TxVerdict,
    d: Dispatch,
    before: CallStoreView,
    after: CallStoreView,
    tenant_id: String,
) -> bool {
    let id = p.call_id@;
    let v = if before.lookup(id) is Some {
        v
    } else {
        TxVerdict::ForwardToApp
    };
    if p.method == Method::Ack {
        &&& after == before.restate(id, CallState::Established)
        &&& d matches Dispatch::Ack { backup, answered } && answered.event_type@ == "call.answered"@
            && answered.trace_id@ == id && answered.tenant_id == tenant_id
            && answered.payload_json@ == json_string_object(call_id_key(), id) && (match after.lookup(
            id,
        ) {
            Some(s) => crate::store::stores(backup, id, s.data),
            None => backup is Nothing,
        })
    } else if v == TxVerdict::Retransmit {
        d is Retransmit && after == before
    } else if v == TxVerdict::Ignore {
        d is Ignore && after == before
    } else if !p.is_request {
        d is Response && after == before
    } else if p.method == Method::Invite {
        if p.in_dialog {
            d is Reinvite && after == before
        } else if before.invites_in_flight.contains(id) {
            d is DuplicateInvite && after == before.lock(id)
        } else {
            d is Invite && after == before.lock(id)
        }
    } else if p.method == Method::Bye {
        &&& after == before.take(id)
        &&& d matches Dispatch::Bye(r) && removal_ok(r, before, id, reason_normal())
    } else if p.method == Method::Cancel {
        &&& after == before.cancel(id).take(id)
        &&& d matches Dispatch::Cancel(r) && removal_ok(r, before.cancel(id), id, reason_cancelled())
    } else {
        d is Unhandled && after == before
    }
}

/// Two handlings of the same new INVITE in a row: the second finds the first's
/// claim and is dropped as a duplicate.
pub proof fn law_second_invite_is_duplicate(
    p: PacketInfo,
    d1: Dispatch,
    d2: Dispatch,
    s0: CallStoreView,
    s1: CallStoreView,
    s2: CallStoreView,
    tenant_id: String,
)
    requires
        p.method == Method::Invite,
        p.is_request,
        !p.in_dialog,
        dispatch_ok(p, TxVerdict::ForwardToApp, d1, s0, s1, tenant_id),
        dispatch_ok(p, TxVerdict::ForwardToApp, d2, s1, s2, tenant_id),
    ensures
        d2 is DuplicateInvite,
        s2 == s1,
{
    assert(s1.invites_in_flight.contains(p.call_id@));
    assert(s1.invites_in_flight.insert(p.call_id@) =~= s1.invites_in_flight);
    assert(s1.lock(p.call_id@) == s1);
}

/// A BYE for a call that the store holds gives back the port the call was set up
/// with and takes the call out.
pub proof fn law_bye_returns_port(
    p: PacketInfo,
    v: TxVerdict,
    d: Dispatch,
    before: CallStoreView,
    after: CallStoreView,
    tenant_id: String,
    s: CallSession,
)
    requires
        p.method == Method::Bye,
        p.is_request,
        v == TxVerdict::ForwardToApp,
        before.lookup(p.call_id@) == Some(s),
        dispatch_ok(p, v, d, before, after, tenant_id),
    ensures
        d matches Dispatch::Bye(r) && (r.teardown matches Some(t) && t.rtp_port == s.data.rtp_port),
        after.lookup(p.call_id@) is None,
{
}

/// Handling a packet leaves every other call as it was: its session, whether it
/// was cancelled early, and whether its INVITE is claimed.
pub proof fn law_other_calls_untouched(
    p: PacketInfo,
    v: TxVerdict,
    d: Dispatch,
    before: CallStoreView,
    after: CallStoreView,
    tenant_id: String,
    other: Seq<char>,
)
    requires
        other != p.call_id@,
        dispatch_ok(p, v, d, before, after, tenant_id),
    ensures
        after.lookup(other) == before.lookup(other),
        after.early_cancelled.contains(other) == before.early_cancelled.contains(other),
        after.invites_in_flight.contains(other) == before.invites_in_flight.contains(other),
{
}

} // verus!
