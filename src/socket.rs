//! The state shared by the connection supervisor and the callers: the
//! registry of outstanding requests, the registry of subscriptions to replay,
//! the correlation-id counter, the connection phase and the reconnect backoff.
//!
//! The runtime around it performs the I/O and hands each event to one of the
//! methods below, which decide what happens next.
use std::collections::HashMap;
use vstd::prelude::*;

use crate::error::XrplError;
use crate::json::{
    is_json, json_is_object, json_is_valid, json_set_u64_member, json_u64_member, set_u64_member,
    u64_member,
};

verus! {

broadcast use vstd::std_specs::hash::group_hash_axioms;

/// First delay before reconnecting, in seconds.
pub const BACKOFF_FLOOR_SECS: u64 = 1;

/// Largest delay before reconnecting, in seconds.
pub const BACKOFF_CEILING_SECS: u64 = 30;

/// How long a caller waits for the response to a request, in milliseconds.
pub const REQUEST_TIMEOUT_MS: u64 = 30000;

/// Period of the liveness probe sent on an idle connection, in seconds.
pub const KEEPALIVE_INTERVAL_SECS: u64 = 20;

/// Lifecycle of the one connection.
#[derive(Debug, Clone, Copy, PartialEq, Eq, Structural)]
pub enum Phase {
    Disconnected,
    Connecting,
    Connected,
}

/// The backoff that follows `b` after a failure: doubled, capped at the ceiling.
pub open spec fn next_backoff(b: nat) -> nat {
    if 2 * b < BACKOFF_CEILING_SECS {
        2 * b
    } else {
        BACKOFF_CEILING_SECS as nat
    }
}

/// What became of a request that a caller was waiting on.
pub enum Completion {
    /// The correlated response arrived.
    Answered(String),
    /// The completion handle was released without a response (connection reset).
    Dropped,
    /// The deadline passed first.
    Expired,
}

/// The result a caller observes for each way a request can end.
pub open spec fn completion_result(c: Completion) -> Result<String, XrplError> {
    match c {
        Completion::Answered(text) => Ok(text),
        Completion::Dropped => Err(XrplError::Disconnected),
        Completion::Expired => Err(XrplError::Timeout(REQUEST_TIMEOUT_MS)),
    }
}

/// Where one inbound text frame goes.
pub enum Inbound<H> {
    /// Not JSON: skipped.
    Discard,
    /// The response to an outstanding request: hand the text to its handle.
    Fulfill(H, String),
    /// A push message (or a response nobody waits for): publish it.
    Publish(String),
}

/// What the supervisor's inner loop observed on a live connection.
pub enum LinkEvent {
    /// The keepalive timer fired.
    KeepaliveDue,
    /// The outbound queue handed over a payload, or (`None`) was closed for
    /// good by the client's owner.
    Outbound(Option<String>),
    /// A text frame arrived.
    Text(String),
    /// The peer sent a liveness probe.
    Ping,
    /// The peer answered our probe.
    Pong,
    /// The read failed, the stream ended, or a frame of another kind arrived.
    ReadFailed,
    /// Writing to the transport failed.
    WriteFailed,
}

/// What the supervisor does about a `LinkEvent`.
pub enum LinkAction<H> {
    /// Send a liveness probe.
    Probe,
    /// Write this payload to the transport.
    Write(String),
    /// Answer the peer's probe.
    Answer,
    /// Hand the response to the request's completion handle.
    Fulfill(H, String),
    /// Publish the message on the event bus.
    Publish(String),
    /// Nothing to do.
    Nothing,
    /// The connection is broken: drop these released handles (each caller
    /// then observes `Disconnected`) and reconnect after this many seconds.
    Reconnect(HashMap<u64, H>, u64),
    /// The outbound path is closed for good: stop.
    Shutdown,
}

/// The mathematical state: what each method below is specified against.
pub struct SocketModel<H> {
    pub phase: Phase,
    /// The delay before the next reconnect attempt, in seconds.
    pub backoff: nat,
    /// The correlation id the next request gets.
    pub next_id: nat,
    /// Completion handles of the outstanding requests, by correlation id.
    pub pending: Map<u64, H>,
    /// Subscription payloads, in the order they were added.
    pub subscriptions: Seq<Seq<char>>,
    /// Subscription payloads still to be replayed on the current connection,
    /// in order; no other traffic is handled while any remain.
    pub replay: Seq<Seq<char>>,
}

impl<H> SocketModel<H> {
    pub open spec fn wf(self) -> bool {
        &&& 1 <= self.next_id <= u64::MAX
        &&& forall|k: u64| #[trigger] self.pending.contains_key(k) ==> k < self.next_id
        &&& BACKOFF_FLOOR_SECS <= self.backoff <= BACKOFF_CEILING_SECS
    }

    pub open spec fn connecting(self) -> Self {
        SocketModel { phase: Phase::Connecting, ..self }
    }

    /// A connection is up: the backoff is back at its floor.
    pub open spec fn connected(self) -> Self {
        SocketModel {
            phase: Phase::Connected,
            backoff: BACKOFF_FLOOR_SECS as nat,
            replay: self.subscriptions,
            ..self
        }
    }

    /// One replay frame has been handed out.
    pub open spec fn replay_taken(self) -> Self {
        SocketModel { replay: self.replay.drop_first(), ..self }
    }

    /// `n` replay frames have been handed out.
    pub open spec fn replay_taken_times(self, n: nat) -> Self
        decreases n,
    {
        if n == 0 {
            self
        } else {
            self.replay_taken_times((n - 1) as nat).replay_taken()
        }
    }

    /// An attempt to connect failed: the backoff grows.
    pub open spec fn connect_failed(self) -> Self {
        SocketModel { phase: Phase::Disconnected, backoff: next_backoff(self.backoff), ..self }
    }

    /// The live connection broke: every outstanding request is released.
    pub open spec fn dropped(self) -> Self {
        SocketModel {
            phase: Phase::Disconnected,
            backoff: next_backoff(self.backoff),
            pending: Map::empty(),
            replay: Seq::empty(),
            ..self
        }
    }

    pub open spec fn tracking(self, payload: Seq<char>) -> Self {
        SocketModel { subscriptions: self.subscriptions.push(payload), ..self }
    }

    /// Tracks each payload in turn.
    pub open spec fn tracking_all(self, payloads: Seq<Seq<char>>) -> Self
        decreases payloads.len(),
    {
        if payloads.len() == 0 {
            self
        } else {
            self.tracking_all(payloads.drop_last()).tracking(payloads.last())
        }
    }

    /// A request is registered under the next correlation id.
    pub open spec fn registered(self, handle: H) -> Self {
        SocketModel {
            next_id: self.next_id + 1,
            pending: self.pending.insert(self.next_id as u64, handle),
            ..self
        }
    }

    /// The request `id` is no longer outstanding.
    pub open spec fn settled(self, id: u64) -> Self {
        SocketModel { pending: self.pending.remove(id), ..self }
    }

    /// Settles each id in turn, as responses arrive in that order.
    pub open spec fn settled_all(self, ids: Seq<u64>) -> Self
        decreases ids.len(),
    {
        if ids.len() == 0 {
            self
        } else {
            self.settled_all(ids.drop_last()).settled(ids.last())
        }
    }

    /// Fails `n` connection attempts in a row.
    pub open spec fn failed_times(self, n: nat) -> Self
        decreases n,
    {
        if n == 0 {
            self
        } else {
            self.failed_times((n - 1) as nat).connect_failed()
        }
    }

    /// The outstanding request that a frame whose `id` member reads `id` answers.
    pub open spec fn target(self, id: Option<u64>) -> Option<u64> {
        match id {
            Some(i) => if self.pending.contains_key(i) {
                Some(i)
            } else {
                None
            },
            None => None,
        }
    }
}

/// The state behind one client: see the module documentation.
pub struct SocketState<H> {
    phase: Phase,
    backoff_secs: u64,
    next_id: u64,
    pending: HashMap<u64, H>,
    subscriptions: Vec<String>,
    replay: Vec<String>,
}

impl<H> View for SocketState<H> {
    type V = SocketModel<H>;

    closed spec fn view(&self) -> SocketModel<H> {
        SocketModel {
            phase: self.phase,
            backoff: self.backoff_secs as nat,
            next_id: self.next_id as nat,
            pending: self.pending@,
            subscriptions: self.subscriptions@.map_values(|s: String| s@),
            replay: self.replay@.map_values(|s: String| s@),
        }
    }
}

impl<H> SocketState<H> {
    pub fn new() -> (r: Self)
        ensures
            r@.wf(),
            r@.phase == Phase::Disconnected,
            r@.backoff == BACKOFF_FLOOR_SECS,
            r@.next_id == 1,
            r@.pending == Map::<u64, H>::empty(),
            r@.subscriptions == Seq::<Seq<char>>::empty(),
            r@.replay == Seq::<Seq<char>>::empty(),
    {
        let r = SocketState {
            phase: Phase::Disconnected,
            backoff_secs: BACKOFF_FLOOR_SECS,
            next_id: 1,
            pending: HashMap::new(),
            subscriptions: Vec::new(),
            replay: Vec::new(),
        };
        assert(r@.subscriptions =~= Seq::<Seq<char>>::empty());
        assert(r@.replay =~= Seq::<Seq<char>>::empty());
        r
    }

    pub fn phase(&self) -> (r: Phase)
        ensures
            r == self@.phase,
    {
        self.phase
    }

    pub fn is_connected(&self) -> (r: bool)
        ensures
            r == (self@.phase == Phase::Connected),
    {
        self.phase == Phase::Connected
    }

    /// The current reconnect delay, in seconds.
    pub fn backoff_secs(&self) -> (r: u64)
        ensures
            r == self@.backoff,
    {
        self.backoff_secs
    }

    /// Number of requests still waiting for a response.
    pub fn outstanding(&self) -> (r: usize)
        ensures
            r == self@.pending.len(),
    {
        self.pending.len()
    }

    /// The supervisor is about to attempt a connection: it does, unless the
    /// outbound path is closed for good, in which case it stops.
    pub fn connect_started(&mut self, outbound_closed: bool) -> (go: bool)
        requires
            old(self)@.wf(),
        ensures
            go == !outbound_closed,
            go ==> final(self)@ == old(self)@.connecting(),
            !go ==> final(self)@ == old(self)@,
            final(self)@.wf(),
    {
        if outbound_closed {
            return false;
        }
        self.phase = Phase::Connecting;
        true
    }

    /// The transport is up: the backoff is back at its floor, and every
    /// subscription payload is due for replay, verbatim and in the order they
    /// were added, before any other traffic (see `next_replay`).
    pub fn connected(&mut self)
        requires
            old(self)@.wf(),
        ensures
            final(self)@ == old(self)@.connected(),
            final(self)@.wf(),
    {
        self.phase = Phase::Connected;
        self.backoff_secs = BACKOFF_FLOOR_SECS;
        let mut replay: Vec<String> = Vec::new();
        let mut i: usize = 0;
        while i < self.subscriptions.len()
            invariant
                i <= self.subscriptions@.len(),
                replay@.len() == i,
                forall|j: int| 0 <= j < i ==> replay@[j] == self.subscriptions@[j],
            decreases self.subscriptions@.len() - i,
        {
            replay.push(self.subscriptions[i].clone());
            i = i + 1;
        }
        self.replay = replay;
        assert(self.replay@.map_values(|s: String| s@) =~= self.subscriptions@.map_values(
            |s: String| s@,
        ));
    }

    /// The next subscription payload to replay on the new connection, or
    /// `None` once all have been handed out.
    pub fn next_replay(&mut self) -> (r: Option<String>)
        requires
            old(self)@.wf(),
        ensures
            final(self)@.wf(),
            old(self)@.replay.len() == 0 ==> r is None && final(self)@ == old(self)@,
            old(self)@.replay.len() > 0 ==> (r matches Some(t) && t@ == old(self)@.replay[0])
                && final(self)@ == old(self)@.replay_taken(),
    {
        if self.replay.len() == 0 {
            return None;
        }
        let ghost before = self@;
        let frame = self.replay.remove(0);
        assert(self@.replay =~= before.replay.drop_first());
        Some(frame)
    }

    /// Steps the backoff and returns the delay to wait before the next attempt.
    fn step_backoff(&mut self) -> (delay: u64)
        requires
            BACKOFF_FLOOR_SECS <= old(self).backoff_secs <= BACKOFF_CEILING_SECS,
        ensures
            delay == old(self).backoff_secs,
            final(self).backoff_secs == next_backoff(old(self).backoff_secs as nat),
            final(self).phase == old(self).phase,
            final(self).next_id == old(self).next_id,
            final(self).pending == old(self).pending,
            final(self).subscriptions == old(self).subscriptions,
            final(self).replay == old(self).replay,
    {
        let delay = self.backoff_secs;
        if 2 * self.backoff_secs < BACKOFF_CEILING_SECS {
            self.backoff_secs = 2 * self.backoff_secs;
        } else {
            self.backoff_secs = BACKOFF_CEILING_SECS;
        }
        delay
    }

    /// An attempt to connect failed. Returns the delay, in seconds, to wait
    /// before the next attempt, or `None` when the outbound path is closed for
    /// good and the supervisor stops instead.
    pub fn reconnect_step(&mut self, outbound_closed: bool) -> (r: Option<u64>)
        requires
            old(self)@.wf(),
        ensures
            r is None <==> outbound_closed,
            outbound_closed ==> final(self)@ == old(self)@,
            !outbound_closed ==> r == Some(old(self)@.backoff as u64)
                && final(self)@ == old(self)@.connect_failed(),
            final(self)@.wf(),
    {
        if outbound_closed {
            return None;
        }
        self.phase = Phase::Disconnected;
        Some(self.step_backoff())
    }

    /// The live connection broke. Returns the completion handles of every
    /// outstanding request, which are released so that each caller observes
    /// `Disconnected`, and the delay, in seconds, before reconnecting.
    pub fn connection_lost(&mut self) -> (r: (HashMap<u64, H>, u64))
        requires
            old(self)@.wf(),
        ensures
            r.0@ == old(self)@.pending,
            r.1 == old(self)@.backoff,
            final(self)@ == old(self)@.dropped(),
            final(self)@.wf(),
    {
        self.phase = Phase::Disconnected;
        let mut released: HashMap<u64, H> = HashMap::new();
        std::mem::swap(&mut self.pending, &mut released);
        self.replay = Vec::new();
        assert(self.replay@.map_values(|s: String| s@) =~= Seq::<Seq<char>>::empty());
        let delay = self.step_backoff();
        (released, delay)
    }

    /// Decides what the supervisor does about one event on a live connection,
    /// once every subscription payload due for replay has been handed out.
    pub fn on_link_event(&mut self, event: LinkEvent) -> (r: LinkAction<H>)
        requires
            old(self)@.wf(),
            old(self)@.replay.len() == 0,
        ensures
            final(self)@.wf(),
            match event {
                LinkEvent::KeepaliveDue => r is Probe && final(self)@ == old(self)@,
                LinkEvent::Outbound(Some(text)) => r == LinkAction::<H>::Write(text) && final(self)@
                    == old(self)@,
                LinkEvent::Outbound(None) => r is Shutdown && final(self)@ == old(self)@,
                LinkEvent::Text(text) => match r {
                    LinkAction::Nothing => routing(
                        old(self)@,
                        final(self)@,
                        text,
                        json_is_valid(text@),
                        json_u64_member(text@, "id"@),
                        Inbound::Discard,
                    ),
                    LinkAction::Fulfill(handle, response) => routing(
                        old(self)@,
                        final(self)@,
                        text,
                        json_is_valid(text@),
                        json_u64_member(text@, "id"@),
                        Inbound::Fulfill(handle, response),
                    ),
                    LinkAction::Publish(message) => routing(
                        old(self)@,
                        final(self)@,
                        text,
                        json_is_valid(text@),
                        json_u64_member(text@, "id"@),
                        Inbound::Publish(message),
                    ),
                    _ => false,
                },
                LinkEvent::Ping => r is Answer && final(self)@ == old(self)@,
                LinkEvent::Pong => r is Nothing && final(self)@ == old(self)@,
                LinkEvent::ReadFailed | LinkEvent::WriteFailed => (r matches LinkAction::Reconnect(
                    released,
                    delay,
                ) && released@ == old(self)@.pending && delay == old(self)@.backoff)
                    && final(self)@ == old(self)@.dropped(),
            },
    {
        match event {
            LinkEvent::KeepaliveDue => LinkAction::Probe,
            LinkEvent::Outbound(Some(text)) => LinkAction::Write(text),
            LinkEvent::Outbound(None) => LinkAction::Shutdown,
            LinkEvent::Text(text) => match self.dispatch(text) {
                Inbound::Discard => LinkAction::Nothing,
                Inbound::Fulfill(handle, response) => LinkAction::Fulfill(handle, response),
                Inbound::Publish(message) => LinkAction::Publish(message),
            },
            LinkEvent::Ping => LinkAction::Answer,
            LinkEvent::Pong => LinkAction::Nothing,
            LinkEvent::ReadFailed | LinkEvent::WriteFailed => {
                let (released, delay) = self.connection_lost();
                LinkAction::Reconnect(released, delay)
            },
        }
    }

    /// Adds a subscription payload to replay after every reconnect. No
    /// deduplication: tracking a payload twice replays it twice.
    pub fn track(&mut self, payload: String)
        requires
            old(self)@.wf(),
        ensures
            final(self)@ == old(self)@.tracking(payload@),
            final(self)@.wf(),
    {
        self.subscriptions.push(payload);
        assert(self@.subscriptions =~= old(self)@.subscriptions.push(payload@));
    }

    /// Removes the first subscription payload equal to `payload`; returns whether
    /// there was one.
    pub fn untrack(&mut self, payload: &String) -> (found: bool)
        requires
            old(self)@.wf(),
        ensures
            final(self)@.wf(),
            found == old(self)@.subscriptions.contains(payload@),
            !found ==> final(self)@ == old(self)@,
            found ==> exists|k: int|
                0 <= k < old(self)@.subscriptions.len() && old(self)@.subscriptions[k] == payload@ && (forall|
                    j: int,
                | 0 <= j < k ==> old(self)@.subscriptions[j] != payload@) && final(self)@ == (
                SocketModel { subscriptions: old(self)@.subscriptions.remove(k), ..old(self)@ }),
    {
        let mut i: usize = 0;
        while i < self.subscriptions.len()
            invariant
                i <= self.subscriptions@.len(),
                self@ == old(self)@,
                self@.wf(),
                forall|j: int| 0 <= j < i ==> self@.subscriptions[j] != payload@,
            decreases self.subscriptions@.len() - i,
        {
            if self.subscriptions[i].eq(payload) {
                let ghost before = self@;
                assert(self.subscriptions@[i as int]@ == payload@);
                assert(before.subscriptions[i as int] == payload@);
                self.subscriptions.remove(i);
                assert(self@.subscriptions =~= before.subscriptions.remove(i as int));
                assert(self@ == (SocketModel { subscriptions: before.subscriptions.remove(i as int), ..before }));
                return true;
            }
            i = i + 1;
        }
        proof {
            if old(self)@.subscriptions.contains(payload@) {
                let k = choose|k: int| 0 <= k < old(self)@.subscriptions.len() && old(self)@.subscriptions[k] == payload@;
                assert(self@.subscriptions[k] != payload@);
            }
        }
        false
    }

    /// Registers a request and stamps its correlation id into `payload`.
    ///
    /// Fails with `Disconnected`, registering nothing and without waiting,
    /// when the outbound path is closed (or the id space is spent); with
    /// `ParseError` when `payload` is not a JSON object. Otherwise returns the
    /// id and the text to transmit.
    pub fn begin_request(&mut self, payload: &str, handle: H, outbound_closed: bool) -> (r: Result<
        (u64, String),
        XrplError,
    >)
        requires
            old(self)@.wf(),
        ensures
            final(self)@.wf(),
            outbound_closed ==> r == Err::<(u64, String), _>(XrplError::Disconnected)
                && final(self)@ == old(self)@,
            !outbound_closed && old(self)@.next_id < u64::MAX && json_is_object(payload@) ==> r is Ok,
            !outbound_closed ==> registration(
                old(self)@,
                final(self)@,
                json_set_u64_member(payload@, "id"@, old(self)@.next_id as u64),
                handle,
                r,
            ),
    {
        if outbound_closed {
            return Err(XrplError::Disconnected);
        }
        let stamped = set_u64_member(payload, "id", self.next_id);
        self.register(stamped, handle)
    }

    /// Registers a request whose payload, stamped with the next correlation
    /// id, is `stamped` (`None` when the payload was not a JSON object).
    pub fn register(&mut self, stamped: Option<String>, handle: H) -> (r: Result<
        (u64, String),
        XrplError,
    >)
        requires
            old(self)@.wf(),
        ensures
            final(self)@.wf(),
            registration(
                old(self)@,
                final(self)@,
                match stamped {
                    Some(t) => Some(t@),
                    None => None,
                },
                handle,
                r,
            ),
    {
        if self.next_id == u64::MAX {
            return Err(XrplError::Disconnected);
        }
        match stamped {
            Some(text) => {
                let id = self.next_id;
                self.pending.insert(id, handle);
                self.next_id = id + 1;
                assert(self@.pending == old(self)@.pending.insert(id, handle));
                Ok((id, text))
            },
            None => Err(XrplError::ParseError("request payload is not a JSON object".to_string())),
        }
    }

    /// The caller of request `id` stops waiting: its entry is removed (if the
    /// response has not already removed it) and the caller's result returned.
    pub fn settle(&mut self, id: u64, outcome: Completion) -> (r: Result<String, XrplError>)
        requires
            old(self)@.wf(),
        ensures
            final(self)@ == old(self)@.settled(id),
            final(self)@.wf(),
            r == completion_result(outcome),
    {
        self.pending.remove(&id);
        match outcome {
            Completion::Answered(text) => Ok(text),
            Completion::Dropped => Err(XrplError::Disconnected),
            Completion::Expired => Err(XrplError::Timeout(REQUEST_TIMEOUT_MS)),
        }
    }

    /// Routes one inbound text frame: discarded when it is not JSON; handed
    /// to the outstanding request whose id it carries, which stops being
    /// outstanding; published otherwise.
    pub fn dispatch(&mut self, text: String) -> (r: Inbound<H>)
        requires
            old(self)@.wf(),
        ensures
            final(self)@.wf(),
            routing(
                old(self)@,
                final(self)@,
                text,
                json_is_valid(text@),
                json_u64_member(text@, "id"@),
                r,
            ),
    {
        let parsed = is_json(text.as_str());
        let id = if parsed {
            u64_member(text.as_str(), "id")
        } else {
            None
        };
        self.route(text, parsed, id)
    }

    /// Routes a frame given what was read from it: whether it is JSON at
    /// all, and its `id` member when that is an unsigned integer.
    pub fn route(&mut self, text: String, parsed: bool, id: Option<u64>) -> (r: Inbound<H>)
        requires
            old(self)@.wf(),
        ensures
            final(self)@.wf(),
            routing(old(self)@, final(self)@, text, parsed, id, r),
    {
        if !parsed {
            return Inbound::Discard;
        }
        match id {
            Some(id) => {
                let removed = self.pending.remove(&id);
                assert(self@.pending =~= old(self)@.pending.remove(id));
                assert forall|k: u64| #[trigger] self@.pending.contains_key(k) implies k
                    < self@.next_id by {
                    assert(old(self)@.pending.contains_key(k));
                }
                match removed {
                    Some(handle) => Inbound::Fulfill(handle, text),
                    None => {
                        assert(self@.pending =~= old(self)@.pending);
                        Inbound::Publish(text)
                    },
                }
            },
            None => Inbound::Publish(text),
        }
    }
}

/// How registering a request whose stamped payload is `stamped` changes the
/// state from `before` to `after`, and what it returns: `Disconnected` once
/// the id space is spent, `ParseError` without a stamped payload, else the
/// next id and the stamped text, with the handle registered under that id.
pub open spec fn registration<H>(
    before: SocketModel<H>,
    after: SocketModel<H>,
    stamped: Option<Seq<char>>,
    handle: H,
    r: Result<(u64, String), XrplError>,
) -> bool {
    if before.next_id == u64::MAX {
        r == Err::<(u64, String), _>(XrplError::Disconnected) && after == before
    } else {
        match stamped {
            Some(text) => r matches Ok((id, t)) && id == before.next_id && t@ == text && after
                == before.registered(handle),
            None => r is Err && r->Err_0 is ParseError && after == before,
        }
    }
}

/// How routing a frame changes the state from `before` to `after`, and where
/// the frame goes: nowhere when it is not JSON (`parsed` false); to the
/// outstanding request its `id` names, which is settled; else to the bus.
pub open spec fn routing<H>(
    before: SocketModel<H>,
    after: SocketModel<H>,
    text: String,
    parsed: bool,
    id: Option<u64>,
    r: Inbound<H>,
) -> bool {
    if !parsed {
        r is Discard && after == before
    } else {
        match before.target(id) {
            Some(i) => r == Inbound::Fulfill(before.pending[i], text) && after == before.settled(i),
            None => r == Inbound::<H>::Publish(text) && after == before,
        }
    }
}

/// `2^n`.
pub open spec fn doubled(n: nat) -> nat
    decreases n,
{
    if n == 0 {
        1
    } else {
        2 * doubled((n - 1) as nat)
    }
}

proof fn lemma_settled_all_pending<H>(m: SocketModel<H>, ids: Seq<u64>, x: u64)
    ensures
        m.settled_all(ids).pending.contains_key(x) == (m.pending.contains_key(x) && !ids.contains(
            x,
        )),
        m.settled_all(ids).pending.contains_key(x) ==> m.settled_all(ids).pending[x]
            == m.pending[x],
    decreases ids.len(),
{
    if ids.len() > 0 {
        let rest = ids.drop_last();
        lemma_settled_all_pending(m, rest, x);
        if ids.contains(x) && ids.last() != x {
            let i = choose|i: int| 0 <= i < ids.len() && ids[i] == x;
            assert(rest[i] == x);
        }
        if rest.contains(x) {
            let i = choose|i: int| 0 <= i < rest.len() && rest[i] == x;
            assert(ids[i] == x);
        }
        if ids.last() == x {
            assert(ids[ids.len() - 1] == x);
        }
    }
}

/// Outstanding requests with distinct ids each receive the response that
/// carries their own id, whatever order the responses arrive in: when the
/// response for `order[k]` arrives after those for `order[..k]`, request
/// `order[k]` is still outstanding, with the handle it was registered with.
pub proof fn lemma_responses_reach_their_requests<H>(m: SocketModel<H>, order: Seq<u64>)
    requires
        order.no_duplicates(),
        forall|k: int| 0 <= k < order.len() ==> m.pending.contains_key(#[trigger] order[k]),
    ensures
        forall|k: int|
            0 <= k < order.len() ==> (#[trigger] m.settled_all(order.take(k))).target(Some(order[k]))
                == Some(order[k]) && m.settled_all(order.take(k)).pending[order[k]]
                == m.pending[order[k]],
{
    assert forall|k: int| 0 <= k < order.len() implies (#[trigger] m.settled_all(
        order.take(k),
    )).target(Some(order[k])) == Some(order[k]) && m.settled_all(order.take(k)).pending[order[k]]
        == m.pending[order[k]] by {
        let before = order.take(k);
        lemma_settled_all_pending(m, before, order[k]);
        if before.contains(order[k]) {
            let i = choose|i: int| 0 <= i < before.len() && before[i] == order[k];
            assert(order[i] == order[k]);
        }
    }
}

/// When the connection drops, no request stays outstanding, and a caller
/// whose handle is released that way observes `Disconnected`.
pub proof fn lemma_drop_releases_every_request<H>(m: SocketModel<H>, id: u64)
    requires
        m.pending.contains_key(id),
    ensures
        !m.dropped().pending.contains_key(id),
        completion_result(Completion::Dropped) == Err::<String, XrplError>(XrplError::Disconnected),
{
}

/// Consecutive failed attempts wait floor, 2×floor, 4×floor, … capped at the
/// ceiling (the delay of attempt `n + 1` is the backoff after `n` failures);
/// a successful connect puts the delay back at the floor.
pub proof fn lemma_backoff_schedule<H>(m: SocketModel<H>, n: nat)
    requires
        m.backoff == BACKOFF_FLOOR_SECS,
    ensures
        m.failed_times(n).backoff == if BACKOFF_FLOOR_SECS * doubled(n) < BACKOFF_CEILING_SECS {
            BACKOFF_FLOOR_SECS * doubled(n)
        } else {
            BACKOFF_CEILING_SECS as int
        },
        m.failed_times(n).connected().backoff == BACKOFF_FLOOR_SECS,
    decreases n,
{
    if n > 0 {
        lemma_backoff_schedule(m, (n - 1) as nat);
    }
}

proof fn lemma_tracking_all<H>(m: SocketModel<H>, payloads: Seq<Seq<char>>)
    ensures
        m.tracking_all(payloads).subscriptions == m.subscriptions + payloads,
    decreases payloads.len(),
{
    if payloads.len() > 0 {
        lemma_tracking_all(m, payloads.drop_last());
        assert(m.subscriptions + payloads =~= (m.subscriptions + payloads.drop_last()).push(
            payloads.last(),
        ));
    } else {
        assert(m.subscriptions + payloads =~= m.subscriptions);
    }
}

proof fn lemma_failures_keep_subscriptions<H>(m: SocketModel<H>, n: nat)
    ensures
        m.failed_times(n).subscriptions == m.subscriptions,
    decreases n,
{
    if n > 0 {
        lemma_failures_keep_subscriptions(m, (n - 1) as nat);
    }
}

/// After the connection drops and, after any number of failed attempts,
/// comes back, the frames due for replay are every payload given to
/// tracking, verbatim and in the order given.
pub proof fn lemma_replay_after_reconnect<H>(
    m: SocketModel<H>,
    payloads: Seq<Seq<char>>,
    failures: nat,
)
    ensures
        m.tracking_all(payloads).dropped().failed_times(failures).connecting().connected().replay
            == m.subscriptions + payloads,
{
    lemma_tracking_all(m, payloads);
    lemma_failures_keep_subscriptions(m.tracking_all(payloads).dropped(), failures);
}

/// On a new connection the replay frames are handed out one by one in the
/// order the payloads were tracked (`next_replay`), and the connection
/// becomes ready for other traffic (`on_link_event`) only once all of them
/// are out: after `k` frames, the next one is payload `k`, and none remain
/// exactly when `k` is their number.
pub proof fn lemma_replay_precedes_traffic<H>(m: SocketModel<H>, k: nat)
    requires
        k <= m.subscriptions.len(),
    ensures
        m.connected().replay_taken_times(k).replay == m.subscriptions.skip(k as int),
        k < m.subscriptions.len() ==> m.connected().replay_taken_times(k).replay[0]
            == m.subscriptions[k as int],
        (m.connected().replay_taken_times(k).replay.len() == 0) == (k == m.subscriptions.len()),
    decreases k,
{
    if k > 0 {
        lemma_replay_precedes_traffic(m, (k - 1) as nat);
        assert(m.subscriptions.skip(k - 1).drop_first() =~= m.subscriptions.skip(k as int));
    } else {
        assert(m.subscriptions.skip(0) =~= m.subscriptions);
    }
}

} // verus!
