//! The session store: at most one serial session and at most one bridge
//! session, each replaced as a whole. The connection handles are opaque here;
//! the store decides when one is reused, replaced or dropped.
use vstd::prelude::*;
use crate::bridge::target_label;
use crate::error::{ControlError, ErrorView};
use crate::status::{ConnectionStatus, PiBridgeConnectionStatus};
use crate::text::string_from;

verus! {

/// Identifies a bridge peer and the credentials used with it.
pub type PeerKey = (Seq<char>, u16, Seq<char>);

/// An open bridge session; `conn` is the exclusively owned connection.
pub struct BridgeSession<C> {
    pub target: String,
    pub host: String,
    pub port: u16,
    pub token: String,
    pub conn: C,
}

impl<C> BridgeSession<C> {
    pub open spec fn key(&self) -> PeerKey {
        (self.host@, self.port, self.token@)
    }

    /// A session to `host:port` over `conn`.
    pub fn new(host: &str, port: u16, token: &str, conn: C) -> (r: Self)
        ensures
            r.key() == (host@, port, token@),
            r.target@ == target_label(host@, port),
            r.conn == conn,
    {
        BridgeSession {
            target: crate::bridge::bridge_target(host, port),
            host: string_from(host),
            port,
            token: string_from(token),
            conn,
        }
    }
}

/// What to do before a bridge exchange.
pub enum SessionPlan {
    /// The current session is for this peer: use it.
    Reuse,
    /// Open a new session and install it in place of any current one.
    Connect,
}

/// A session is reused only for exactly the same host, port and token.
pub open spec fn plan_for(current: Option<PeerKey>, wanted: PeerKey) -> SessionPlan {
    if current == Some(wanted) {
        SessionPlan::Reuse
    } else {
        SessionPlan::Connect
    }
}

/// Failures after which the connection cannot be trusted: the peer closed it,
/// an I/O operation on it failed, or its reply was not JSON.
pub open spec fn breaks_session(e: ErrorView) -> bool {
    e is ConnectionClosed || e is Transport || e is InvalidJson
}

/// The slot after an exchange with the given outcome.
pub open spec fn key_after_exchange(current: Option<PeerKey>, outcome: Result<(), ErrorView>) -> Option<
    PeerKey,
> {
    match outcome {
        Err(e) => if breaks_session(e) {
            None
        } else {
            current
        },
        Ok(_) => current,
    }
}

fn same_text(a: &String, b: &str) -> (r: bool)
    ensures
        r == (a@ == b@),
{
    let bs = string_from(b);
    *a == bs
}

/// The single bridge slot.
pub struct BridgeStore<C> {
    pub slot: Option<BridgeSession<C>>,
}

impl<C> BridgeStore<C> {
    pub open spec fn key(&self) -> Option<PeerKey> {
        match self.slot {
            Some(s) => Some(s.key()),
            None => None,
        }
    }

    pub fn new() -> (r: Self)
        ensures
            r.key() is None,
    {
        BridgeStore { slot: None }
    }

    /// Whether the current session can serve `host:port` with `token`.
    pub fn plan(&self, host: &str, port: u16, token: &str) -> (r: SessionPlan)
        ensures
            r == plan_for(self.key(), (host@, port, token@)),
    {
        match &self.slot {
            Some(s) => {
                if same_text(&s.host, host) && s.port == port && same_text(&s.token, token) {
                    SessionPlan::Reuse
                } else {
                    SessionPlan::Connect
                }
            },
            None => SessionPlan::Connect,
        }
    }

    /// The current session, if any.
    pub fn current(&self) -> (r: Option<&BridgeSession<C>>)
        ensures
            r == match self.slot {
                Some(s) => Some(&s),
                None => None,
            },
    {
        match &self.slot {
            Some(s) => Some(s),
            None => None,
        }
    }

    /// Puts `session` in the slot and hands back the one it replaces.
    pub fn install(&mut self, session: BridgeSession<C>) -> (r: Option<BridgeSession<C>>)
        ensures
            final(self).slot == Some(session),
            final(self).key() == Some(session.key()),
            r == old(self).slot,
    {
        let prev = self.slot.take();
        self.slot = Some(session);
        prev
    }

    /// Empties the slot and hands back what it held.
    pub fn clear(&mut self) -> (r: Option<BridgeSession<C>>)
        ensures
            final(self).key() is None,
            r == old(self).slot,
    {
        self.slot.take()
    }

    /// Drops the session when the exchange's outcome shows that its connection
    /// is broken, so that the next dispatch connects afresh.
    pub fn settle(&mut self, outcome: &Result<(), ControlError>)
        ensures
            final(self).key() == key_after_exchange(
                old(self).key(),
                crate::bridge::unit_result(*outcome),
            ),
    {
        match outcome {
            Err(ControlError::ConnectionClosed) | Err(ControlError::Transport(_)) | Err(
                ControlError::InvalidJson,
            ) => {
                self.slot = None;
            },
            _ => {},
        }
    }

    pub fn status(&self) -> (r: PiBridgeConnectionStatus)
        ensures
            r.connected == self.slot is Some,
            self.slot matches Some(s) ==> (r.target matches Some(t) && t@ == s.target@),
            self.slot is None ==> r.target is None,
    {
        match &self.slot {
            Some(s) => PiBridgeConnectionStatus {
                connected: true,
                target: Some(string_from(s.target.as_str())),
            },
            None => PiBridgeConnectionStatus { connected: false, target: None },
        }
    }
}

/// The slot after a dispatch to `k` that succeeded: whether the session was
/// reused or a new one installed, it is the session for `k`.
pub open spec fn key_after_dispatch(current: Option<PeerKey>, k: PeerKey) -> Option<PeerKey> {
    Some(k)
}

/// How many connections a run of successful dispatches opens.
pub open spec fn connects_in_run(current: Option<PeerKey>, run: Seq<PeerKey>) -> nat
    decreases run.len(),
{
    if run.len() == 0 {
        0
    } else {
        (if plan_for(current, run[0]) is Connect {
            1nat
        } else {
            0nat
        }) + connects_in_run(key_after_dispatch(current, run[0]), run.drop_first())
    }
}

/// Dispatches that repeat the peer of the current session open no connection.
pub proof fn lemma_repeated_peer_reuses(k: PeerKey, run: Seq<PeerKey>)
    requires
        forall|i: int| 0 <= i < run.len() ==> run[i] == k,
    ensures
        connects_in_run(Some(k), run) == 0,
    decreases run.len(),
{
    if run.len() > 0 {
        assert(run[0] == k);
        assert forall|i: int| 0 <= i < run.drop_first().len() implies run.drop_first()[i] == k by {
            assert(run.drop_first()[i] == run[i + 1]);
        }
        lemma_repeated_peer_reuses(k, run.drop_first());
    }
}

/// Successful dispatches to one peer, from any starting slot, open at most one
/// connection, and exactly one when the slot held another peer or none; a
/// dispatch to a different host, port or token always opens a new one.
pub proof fn lemma_session_reuse(current: Option<PeerKey>, k: PeerKey, run: Seq<PeerKey>, other: PeerKey)
    requires
        run.len() > 0,
        forall|i: int| 0 <= i < run.len() ==> run[i] == k,
    ensures
        connects_in_run(current, run) == (if current == Some(k) {
            0nat
        } else {
            1nat
        }),
        other != k ==> plan_for(key_after_dispatch(current, k), other) is Connect,
{
    assert(run[0] == k);
    assert forall|i: int| 0 <= i < run.drop_first().len() implies run.drop_first()[i] == k by {
        assert(run.drop_first()[i] == run[i + 1]);
    }
    lemma_repeated_peer_reuses(k, run.drop_first());
}

/// After the peer closes the connection without replying, the session is gone
/// and the next dispatch to the same peer connects again.
pub proof fn lemma_closed_peer_reconnects(current: Option<PeerKey>, k: PeerKey)
    ensures
        key_after_exchange(current, Err(ErrorView::ConnectionClosed)) is None,
        plan_for(key_after_exchange(current, Err(ErrorView::ConnectionClosed)), k) is Connect,
{
}

// ---------------------------------------------------------------------------
// Serial

/// An open serial session; `handle` holds the writer and the reader's
/// cancellation signal.
pub struct SerialSession<H> {
    pub port_name: String,
    pub handle: H,
}

/// The single serial slot.
pub struct SerialStore<H> {
    pub slot: Option<SerialSession<H>>,
}

impl<H> SerialStore<H> {
    pub fn new() -> (r: Self)
        ensures
            r.slot is None,
    {
        SerialStore { slot: None }
    }

    /// Puts `session` in the slot and hands back the one it replaces, whose
    /// reader the caller cancels.
    pub fn install(&mut self, session: SerialSession<H>) -> (r: Option<SerialSession<H>>)
        ensures
            final(self).slot == Some(session),
            r == old(self).slot,
    {
        let prev = self.slot.take();
        self.slot = Some(session);
        prev
    }

    /// Empties the slot and hands back what it held.
    pub fn clear(&mut self) -> (r: Option<SerialSession<H>>)
        ensures
            final(self).slot is None,
            r == old(self).slot,
    {
        self.slot.take()
    }

    /// The current session, or the error for writing with none open.
    pub fn current(&self) -> (r: Result<&SerialSession<H>, ControlError>)
        ensures
            self.slot matches Some(s) ==> r == Ok::<&SerialSession<H>, ControlError>(&s),
            self.slot is None ==> (r matches Err(e) && e@ == ErrorView::NotConnected),
    {
        match &self.slot {
            Some(s) => Ok(s),
            None => Err(ControlError::NotConnected),
        }
    }

    pub fn status(&self) -> (r: ConnectionStatus)
        ensures
            r.connected == self.slot is Some,
            self.slot matches Some(s) ==> (r.port_name matches Some(p) && p@ == s.port_name@),
            self.slot is None ==> r.port_name is None,
    {
        match &self.slot {
            Some(s) => ConnectionStatus {
                connected: true,
                port_name: Some(string_from(s.port_name.as_str())),
            },
            None => ConnectionStatus { connected: false, port_name: None },
        }
    }
}

/// The status reported after a disconnect.
pub fn disconnected_status() -> (r: ConnectionStatus)
    ensures
        !r.connected,
        r.port_name is None,
{
    ConnectionStatus { connected: false, port_name: None }
}

} // verus!
