//! The call store: live sessions by Call-ID, the INVITEs being worked on,
//! and the calls cancelled before they were set up.
use vstd::prelude::*;
use dashmap::{DashMap, DashSet};
use crate::text::append_str;

verus! {

/// State of a call leg.
#[derive(Debug, Clone, Copy, PartialEq, Eq, Structural)]
pub enum CallState {
    Null,
    Trying,
    Ringing,
    Established,
    Terminated,
}

/// An IP address, by its octets or 16-bit groups.
#[derive(Debug, Clone, Copy, PartialEq, Eq, Structural)]
pub enum IpAddress {
    V4(u8, u8, u8, u8),
    V6(u16, u16, u16, u16, u16, u16, u16, u16),
}

/// An IP address and a port.
#[derive(Debug, Clone, Copy, PartialEq, Eq, Structural)]
pub struct SocketAddress {
    pub ip: IpAddress,
    pub port: u16,
}

/// What is known of a call and kept in the backup store.
#[derive(Debug, Clone)]
pub struct CallSessionData {
    pub call_id: String,
    pub state: CallState,
    pub from_uri: String,
    pub to_uri: String,
    pub rtp_port: u32,
    pub local_tag: String,
    pub caller_tag: String,
    pub client_contact: String,
    pub proxy_addr: SocketAddress,
}

impl CallSessionData {
    /// A copy of these values.
    pub fn duplicate(&self) -> (r: Self)
        ensures
            r == *self,
    {
        CallSessionData {
            call_id: self.call_id.clone(),
            state: self.state,
            from_uri: self.from_uri.clone(),
            to_uri: self.to_uri.clone(),
            rtp_port: self.rtp_port,
            local_tag: self.local_tag.clone(),
            caller_tag: self.caller_tag.clone(),
            client_contact: self.client_contact.clone(),
            proxy_addr: self.proxy_addr,
        }
    }
}

/// A live call.
#[derive(Debug, Clone)]
pub struct CallSession {
    pub data: CallSessionData,
}

impl CallSession {
    pub fn new(data: CallSessionData) -> (s: Self)
        ensures
            s.data == data,
    {
        CallSession { data }
    }

    /// A copy of this session.
    pub fn duplicate(&self) -> (r: Self)
        ensures
            r == *self,
    {
        CallSession { data: self.data.duplicate() }
    }
}

#[verifier::external_type_specification]
#[verifier::external_body]
#[verifier::reject_recursive_types(K)]
#[verifier::reject_recursive_types(V)]
#[verifier::reject_recursive_types(S)]
pub struct ExDashMap<K, V, S>(DashMap<K, V, S>);

#[verifier::external_type_specification]
#[verifier::external_body]
#[verifier::reject_recursive_types(K)]
#[verifier::reject_recursive_types(S)]
pub struct ExDashSet<K, S>(DashSet<K, S>);

/// The sessions that a session map holds, by the text of their key.
pub uninterp spec fn session_cache(m: DashMap<String, CallSession>) -> Map<Seq<char>, CallSession>;

/// The keys that a key set holds, by their text.
pub uninterp spec fn key_set(s: DashSet<String>) -> Set<Seq<char>>;

pub open spec fn no_sessions() -> Map<Seq<char>, CallSession> {
    Map::empty()
}

pub open spec fn no_keys() -> Set<Seq<char>> {
    Set::empty()
}

/// `DashMap::new`: an empty map.
#[verifier::external_body]
fn session_map_new() -> (fresh: DashMap<String, CallSession>)
    ensures
        session_cache(fresh) == no_sessions(),
{
    DashMap::new()
}

/// `DashMap::insert`: the key now maps to the value; the old value is dropped.
#[verifier::external_body]
fn session_map_insert(m: &mut DashMap<String, CallSession>, key: String, value: CallSession)
    ensures
        session_cache(*final(m)) == session_cache(*old(m)).insert(key@, value),
{
    m.insert(key, value);
}

/// `DashMap::get`: the value under the key, handed out as a clone.
#[verifier::external_body]
fn session_map_get(m: &DashMap<String, CallSession>, key: &str) -> (r: Option<CallSession>)
    ensures
        session_cache(*m).contains_key(key@) ==> r == Some(session_cache(*m)[key@]),
        !session_cache(*m).contains_key(key@) ==> r is None,
{
    match m.get(key) {
        Some(entry) => Some(entry.value().clone()),
        None => None,
    }
}

/// `DashMap::remove`: the key leaves the map; its value is handed back.
#[verifier::external_body]
fn session_map_remove(m: &mut DashMap<String, CallSession>, key: &str) -> (r: Option<CallSession>)
    ensures
        session_cache(*final(m)) == session_cache(*old(m)).remove(key@),
        session_cache(*old(m)).contains_key(key@) ==> r == Some(session_cache(*old(m))[key@]),
        !session_cache(*old(m)).contains_key(key@) ==> r is None,
{
    match m.remove(key) {
        Some((_, value)) => Some(value),
        None => None,
    }
}

/// `DashSet::new`: an empty set.
#[verifier::external_body]
fn key_set_new() -> (fresh: DashSet<String>)
    ensures
        key_set(fresh) == no_keys(),
{
    DashSet::new()
}

/// `DashSet::insert`: adds the key; true when it was not there before.
#[verifier::external_body]
fn key_set_insert(s: &mut DashSet<String>, key: String) -> (added: bool)
    ensures
        key_set(*final(s)) == key_set(*old(s)).insert(key@),
        added == !key_set(*old(s)).contains(key@),
{
    s.insert(key)
}

/// `DashSet::remove`: the key leaves the set.
#[verifier::external_body]
fn key_set_remove(s: &mut DashSet<String>, key: &str)
    ensures
        key_set(*final(s)) == key_set(*old(s)).remove(key@),
{
    s.remove(key);
}

/// `DashSet::contains`.
#[verifier::external_body]
fn key_set_contains(s: &DashSet<String>, key: &str) -> (b: bool)
    ensures
        b == key_set(*s).contains(key@),
{
    s.contains(key)
}

#[verifier::external_type_specification]
#[verifier::external_body]
pub struct ExRedisClient(redis::Client);

/// `redis::Client::open`: a client for the URL, when redis takes the URL as a
/// Redis URL (no connection is made yet). The empty text is refused, since
/// `url::Url::parse` refuses it. Which other texts are taken is not stated: it
/// rests on the url crate's parser, and for `unix:` and `rediss:` URLs on the
/// platform and the TLS features redis was built with.
#[verifier::external_body]
fn open_redis_client(url: &str) -> (r: Option<redis::Client>)
    ensures
        url@.len() == 0 ==> r is None,
{
    redis::Client::open(url).ok()
}

/// The contents of a call store.
pub struct CallStoreView {
    pub sessions: Map<Seq<char>, CallSession>,
    pub early_cancelled: Set<Seq<char>>,
    pub invites_in_flight: Set<Seq<char>>,
}

impl CallStoreView {
    pub open spec fn empty() -> Self {
        CallStoreView {
            sessions: Map::empty(),
            early_cancelled: Set::empty(),
            invites_in_flight: Set::empty(),
        }
    }

    /// The session under `call_id`.
    pub open spec fn lookup(self, call_id: Seq<char>) -> Option<CallSession> {
        if self.sessions.contains_key(call_id) {
            Some(self.sessions[call_id])
        } else {
            None
        }
    }

    /// The store after `session` was put under `call_id`.
    pub open spec fn put(self, call_id: Seq<char>, session: CallSession) -> Self {
        CallStoreView { sessions: self.sessions.insert(call_id, session), ..self }
    }

    /// The store after the call `call_id` was taken out.
    pub open spec fn take(self, call_id: Seq<char>) -> Self {
        CallStoreView {
            sessions: self.sessions.remove(call_id),
            early_cancelled: self.early_cancelled.remove(call_id),
            ..self
        }
    }

    /// The store after an existing call `call_id` moved to `state`.
    pub open spec fn restate(self, call_id: Seq<char>, state: CallState) -> Self {
        if self.sessions.contains_key(call_id) {
            let s = self.sessions[call_id];
            self.put(
                call_id,
                CallSession { data: CallSessionData { state: state, ..s.data } },
            )
        } else {
            self
        }
    }

    pub open spec fn lock(self, call_id: Seq<char>) -> Self {
        CallStoreView { invites_in_flight: self.invites_in_flight.insert(call_id), ..self }
    }

    pub open spec fn unlock(self, call_id: Seq<char>) -> Self {
        CallStoreView { invites_in_flight: self.invites_in_flight.remove(call_id), ..self }
    }

    pub open spec fn cancel(self, call_id: Seq<char>) -> Self {
        CallStoreView { early_cancelled: self.early_cancelled.insert(call_id), ..self }
    }
}

/// Key under which a call's data is kept in the backup store.
pub open spec fn backup_key_spec(call_id: Seq<char>) -> Seq<char> {
    seq!['b', '2', 'b', 'u', 'a', ':', 'c', 'a', 'l', 'l', ':'] + call_id
}

/// How long the backup store keeps a call's data, in seconds.
pub const BACKUP_TTL_SECS: u64 = 86400;

/// Key under which a call's data is kept in the backup store.
pub fn backup_key(call_id: &str) -> (k: String)
    ensures
        k@ == backup_key_spec(call_id@),
{
    let mut k = String::new();
    let prefix = vec!['b', '2', 'b', 'u', 'a', ':', 'c', 'a', 'l', 'l', ':'];
    crate::text::append_chars(&mut k, prefix.as_slice());
    append_str(&mut k, call_id);
    assert(k@ =~= backup_key_spec(call_id@));
    k
}

/// A write that the backup store is to receive.
#[derive(Debug)]
pub enum Backup {
    /// Keep `data` under `key` for `ttl_secs` seconds.
    Store { key: String, ttl_secs: u64, data: CallSessionData },
    /// Drop what is kept under `key`.
    Delete { key: String },
    /// Nothing to write.
    Nothing,
}

/// Whether `b` keeps `data` under the backup key of `call_id`.
pub open spec fn stores(b: Backup, call_id: Seq<char>, data: CallSessionData) -> bool {
    b matches Backup::Store { key, ttl_secs, data: d } && key@ == backup_key_spec(call_id)
        && ttl_secs == BACKUP_TTL_SECS && d == data
}

/// Whether `b` drops the backup of `call_id`.
pub open spec fn deletes(b: Backup, call_id: Seq<char>) -> bool {
    b matches Backup::Delete { key } && key@ == backup_key_spec(call_id)
}

/// The sessions of the calls in progress.
pub struct CallStore {
    local_cache: DashMap<String, CallSession>,
    early_cancelled: DashSet<String>,
    invites_in_flight: DashSet<String>,
}

impl View for CallStore {
    type V = CallStoreView;

    closed spec fn view(&self) -> CallStoreView {
        CallStoreView {
            sessions: session_cache(self.local_cache),
            early_cancelled: key_set(self.early_cancelled),
            invites_in_flight: key_set(self.invites_in_flight),
        }
    }
}

impl CallStore {
    /// An empty store.
    pub fn new() -> (s: Self)
        ensures
            s@ == CallStoreView::empty(),
    {
        CallStore {
            local_cache: session_map_new(),
            early_cancelled: key_set_new(),
            invites_in_flight: key_set_new(),
        }
    }

    /// The client of the backup store at `redis_url`: `None` when redis does not
    /// take the URL (never an empty one), and then the store works from memory
    /// alone and no connection to a backup store is ever tried.
    pub fn backup_client(redis_url: &str) -> (r: Option<redis::Client>)
        ensures
            redis_url@.len() == 0 ==> r is None,
    {
        open_redis_client(redis_url)
    }

    /// Claims the INVITE of `call_id` for processing; false when it is claimed already.
    pub fn try_lock_invite(&mut self, call_id: &str) -> (claimed: bool)
        ensures
            claimed == !old(self)@.invites_in_flight.contains(call_id@),
            final(self)@ == old(self)@.lock(call_id@),
    {
        let key = call_id.to_owned();
        key_set_insert(&mut self.invites_in_flight, key)
    }

    /// Gives up the claim on the INVITE of `call_id`.
    pub fn unlock_invite(&mut self, call_id: &str)
        ensures
            final(self)@ == old(self)@.unlock(call_id@),
    {
        key_set_remove(&mut self.invites_in_flight, call_id);
    }

    /// Keeps `session` under its Call-ID; the backup store is to keep its data too.
    pub fn insert(&mut self, session: CallSession) -> (b: Backup)
        ensures
            final(self)@ == old(self)@.put(session.data.call_id@, session),
            stores(b, session.data.call_id@, session.data),
    {
        let call_id = session.data.call_id.clone();
        let data = session.data.duplicate();
        let key = backup_key(call_id.as_str());
        session_map_insert(&mut self.local_cache, call_id, session);
        Backup::Store { key, ttl_secs: BACKUP_TTL_SECS, data }
    }

    /// Moves the call `call_id`, if there is one, to `new_state`.
    pub fn update_state(&mut self, call_id: &str, new_state: CallState) -> (b: Backup)
        ensures
            final(self)@ == old(self)@.restate(call_id@, new_state),
            match final(self)@.lookup(call_id@) {
                Some(s) => stores(b, call_id@, s.data),
                None => b is Nothing,
            },
    {
        match session_map_get(&self.local_cache, call_id) {
            Some(mut session) => {
                session.data.state = new_state;
                let data = session.data.duplicate();
                let key = backup_key(call_id);
                let id = call_id.to_owned();
                session_map_insert(&mut self.local_cache, id, session);
                Backup::Store { key, ttl_secs: BACKUP_TTL_SECS, data }
            },
            None => Backup::Nothing,
        }
    }

    /// The session of the call `call_id`, when the store holds one in memory;
    /// `get_or_restore` also falls back on the backup store.
    pub fn get(&self, call_id: &str) -> (r: Option<CallSession>)
        ensures
            r == self@.lookup(call_id@),
    {
        session_map_get(&self.local_cache, call_id)
    }

    /// Takes back into the store a call whose data was read from the backup store.
    pub fn restore(&mut self, call_id: &str, data: CallSessionData) -> (s: CallSession)
        ensures
            s.data == data,
            final(self)@ == old(self)@.put(call_id@, s),
    {
        let session = CallSession::new(data);
        let copy = session.duplicate();
        let id = call_id.to_owned();
        session_map_insert(&mut self.local_cache, id, session);
        copy
    }

    /// The session of the call `call_id`: the one in memory when there is one;
    /// else, when the backup store holds data for the call (`backup`, the data read
    /// under `backup_key(call_id)`, if any), a session made of it, which is kept
    /// in memory from then on; else none, and the store stays as it was.
    pub fn get_or_restore(&mut self, call_id: &str, backup: Option<CallSessionData>) -> (r:
        Option<CallSession>)
        ensures
            old(self)@.lookup(call_id@) is Some ==> (r == old(self)@.lookup(call_id@)
                && final(self)@ == old(self)@),
            old(self)@.lookup(call_id@) is None && backup is Some ==> (r == Some(
                CallSession { data: backup->0 },
            ) && final(self)@ == old(self)@.put(call_id@, r->0)),
            old(self)@.lookup(call_id@) is None && backup is None ==> (r is None
                && final(self)@ == old(self)@),
    {
        match self.get(call_id) {
            Some(s) => Some(s),
            None => match backup {
                Some(data) => Some(self.restore(call_id, data)),
                None => None,
            },
        }
    }

    /// Takes the call `call_id` out of the store and forgets that it was cancelled early;
    /// its backup is to be dropped.
    pub fn remove(&mut self, call_id: &str) -> (r: (Option<CallSession>, Backup))
        ensures
            r.0 == old(self)@.lookup(call_id@),
            final(self)@ == old(self)@.take(call_id@),
            deletes(r.1, call_id@),
    {
        let key = backup_key(call_id);
        key_set_remove(&mut self.early_cancelled, call_id);
        let removed = session_map_remove(&mut self.local_cache, call_id);
        (removed, Backup::Delete { key })
    }

    /// Notes that the call `call_id` was cancelled.
    pub fn mark_early_cancelled(&mut self, call_id: &str)
        ensures
            final(self)@ == old(self)@.cancel(call_id@),
    {
        let key = call_id.to_owned();
        key_set_insert(&mut self.early_cancelled, key);
    }

    /// Whether the call `call_id` was cancelled and not taken out since.
    pub fn is_early_cancelled(&self, call_id: &str) -> (b: bool)
        ensures
            b == self@.early_cancelled.contains(call_id@),
    {
        key_set_contains(&self.early_cancelled, call_id)
    }
}


/// A change of the call store, as the methods of `CallStore` make them.
pub enum StoreOp {
    /// `insert` or `restore`.
    Put(Seq<char>, CallSession),
    /// `remove`.
    Take(Seq<char>),
    /// `update_state`.
    Restate(Seq<char>, CallState),
    /// `try_lock_invite`.
    Lock(Seq<char>),
    /// `unlock_invite`.
    Unlock(Seq<char>),
    /// `mark_early_cancelled`.
    Cancel(Seq<char>),
}

impl CallStoreView {
    /// The store after `op`.
    pub open spec fn apply(self, op: StoreOp) -> Self {
        match op {
            StoreOp::Put(id, s) => self.put(id, s),
            StoreOp::Take(id) => self.take(id),
            StoreOp::Restate(id, st) => self.restate(id, st),
            StoreOp::Lock(id) => self.lock(id),
            StoreOp::Unlock(id) => self.unlock(id),
            StoreOp::Cancel(id) => self.cancel(id),
        }
    }

    /// The store after the changes `ops`, in order.
    pub open spec fn apply_all(self, ops: Seq<StoreOp>) -> Self
        decreases ops.len(),
    {
        if ops.len() == 0 {
            self
        } else {
            self.apply(ops[0]).apply_all(ops.drop_first())
        }
    }
}

/// Whether `op` puts, takes out or restates the call `id`.
pub open spec fn writes_session(op: StoreOp, id: Seq<char>) -> bool {
    match op {
        StoreOp::Put(i, _) => i == id,
        StoreOp::Take(i) => i == id,
        StoreOp::Restate(i, _) => i == id,
        _ => false,
    }
}

/// A session stays readable, unchanged, through any changes of the store that
/// neither put, take out nor restate its call.
pub proof fn law_session_stays_readable(v: CallStoreView, id: Seq<char>, ops: Seq<StoreOp>)
    requires
        v.lookup(id) is Some,
        forall|k: int| 0 <= k < ops.len() ==> !writes_session(#[trigger] ops[k], id),
    ensures
        v.apply_all(ops).lookup(id) == v.lookup(id),
    decreases ops.len(),
{
    if ops.len() > 0 {
        assert(!writes_session(ops[0], id));
        assert(v.apply(ops[0]).lookup(id) == v.lookup(id));
        assert forall|k: int| 0 <= k < ops.drop_first().len() implies !writes_session(
            #[trigger] ops.drop_first()[k],
            id,
        ) by {
            assert(ops.drop_first()[k] == ops[k + 1]);
        }
        law_session_stays_readable(v.apply(ops[0]), id, ops.drop_first());
    }
}

/// An early-cancel mark stays through any changes of the store that do not take
/// the call out.
pub proof fn law_cancel_mark_stays(v: CallStoreView, id: Seq<char>, ops: Seq<StoreOp>)
    requires
        v.early_cancelled.contains(id),
        forall|k: int| 0 <= k < ops.len() ==> ops[k] != StoreOp::Take(id),
    ensures
        v.apply_all(ops).early_cancelled.contains(id),
    decreases ops.len(),
{
    if ops.len() > 0 {
        assert(ops[0] != StoreOp::Take(id));
        assert(v.apply(ops[0]).early_cancelled.contains(id));
        assert forall|k: int| 0 <= k < ops.drop_first().len() implies ops.drop_first()[k]
            != StoreOp::Take(id) by {
            assert(ops.drop_first()[k] == ops[k + 1]);
        }
        law_cancel_mark_stays(v.apply(ops[0]), id, ops.drop_first());
    }
}

/// Once a call is taken out, it is not marked cancelled early until it is marked again.
pub proof fn law_no_cancel_mark_after_remove(v: CallStoreView, id: Seq<char>, ops: Seq<StoreOp>)
    requires
        forall|k: int| 0 <= k < ops.len() ==> ops[k] != StoreOp::Cancel(id),
    ensures
        !v.take(id).apply_all(ops).early_cancelled.contains(id),
{
    lemma_no_mark_kept(v.take(id), id, ops);
}

proof fn lemma_no_mark_kept(v: CallStoreView, id: Seq<char>, ops: Seq<StoreOp>)
    requires
        !v.early_cancelled.contains(id),
        forall|k: int| 0 <= k < ops.len() ==> ops[k] != StoreOp::Cancel(id),
    ensures
        !v.apply_all(ops).early_cancelled.contains(id),
    decreases ops.len(),
{
    if ops.len() > 0 {
        assert(ops[0] != StoreOp::Cancel(id));
        assert(!v.apply(ops[0]).early_cancelled.contains(id));
        assert forall|k: int| 0 <= k < ops.drop_first().len() implies ops.drop_first()[k]
            != StoreOp::Cancel(id) by {
            assert(ops.drop_first()[k] == ops[k + 1]);
        }
        lemma_no_mark_kept(v.apply(ops[0]), id, ops.drop_first());
    }
}

/// A session put under a Call-ID is what a lookup of that Call-ID gives back.
pub proof fn law_lookup_after_insert(v: CallStoreView, call_id: Seq<char>, s: CallSession)
    ensures
        v.put(call_id, s).lookup(call_id) == Some(s),
{
}

/// Putting a session under one Call-ID leaves the other calls as they were.
pub proof fn law_insert_keeps_other_calls(
    v: CallStoreView,
    call_id: Seq<char>,
    s: CallSession,
    other: Seq<char>,
)
    requires
        other != call_id,
    ensures
        v.put(call_id, s).lookup(other) == v.lookup(other),
{
}

/// After a call is taken out, a lookup of it finds nothing, and it no longer
/// counts as cancelled early.
pub proof fn law_nothing_after_remove(v: CallStoreView, call_id: Seq<char>)
    ensures
        v.take(call_id).lookup(call_id) is None,
        !v.take(call_id).early_cancelled.contains(call_id),
{
}

/// Taking a call out leaves the other calls as they were.
pub proof fn law_remove_keeps_other_calls(v: CallStoreView, call_id: Seq<char>, other: Seq<char>)
    requires
        other != call_id,
    ensures
        v.take(call_id).lookup(other) == v.lookup(other),
        v.take(call_id).early_cancelled.contains(other) == v.early_cancelled.contains(other),
{
}

/// Once an INVITE is claimed, a second claim of it is refused until it is given up;
/// after that it can be claimed again.
pub proof fn law_invite_claimed_once(v: CallStoreView, call_id: Seq<char>)
    ensures
        v.lock(call_id).invites_in_flight.contains(call_id),
        !v.lock(call_id).unlock(call_id).invites_in_flight.contains(call_id),
{
}

/// A cancelled call counts as cancelled early.
pub proof fn law_cancel_is_seen(v: CallStoreView, call_id: Seq<char>)
    ensures
        v.cancel(call_id).early_cancelled.contains(call_id),
{
}

/// A state change touches only the state of an existing call, and nothing when
/// there is no such call.
pub proof fn law_update_state_only_state(v: CallStoreView, call_id: Seq<char>, st: CallState)
    ensures
        v.lookup(call_id) is None ==> v.restate(call_id, st) == v,
        v.lookup(call_id) matches Some(s) ==> v.restate(call_id, st).lookup(call_id) == Some(
            CallSession { data: CallSessionData { state: st, ..s.data } },
        ),
{
}

} // verus!
