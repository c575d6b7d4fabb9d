//! Shared server state: the process-wide flags and counters that the listener
//! and every session coordinate through. One instance exists per server run;
//! the surrounding application keeps it behind a single mutual-exclusion
//! guard and calls these methods with the guard held.

use vstd::prelude::*;

verus! {

/// How long the listener waits on one accept attempt before rechecking the
/// stop flag: the bound on how stale its view of a stop request can be.
pub const ACCEPT_POLL_MILLIS: u64 = 100;

/// Flags and counters shared by the listener and all sessions.
///
/// `connected_clients` counts the sessions that have authenticated and not
/// yet disconnected: it is incremented exactly when a session enters its
/// authenticated phase and decremented exactly when such a session ends.
pub struct ServerState {
    pub is_running: bool,
    pub should_stop: bool,
    pub connected_clients: u32,
}

/// One client-count transition: a session authenticated, or an
/// authenticated session disconnected.
pub enum ClientEvent {
    Connected,
    Disconnected,
}

/// The client count after one event, as the exec methods change it:
/// a connect adds one, a disconnect subtracts one but stops at zero.
pub open spec fn count_step(c: u32, ev: ClientEvent) -> u32 {
    match ev {
        ClientEvent::Connected => if c < u32::MAX { (c + 1) as u32 } else { c },
        ClientEvent::Disconnected => if c > 0 { (c - 1) as u32 } else { 0u32 },
    }
}

/// The client count after a whole sequence of events, starting from `c`.
pub open spec fn count_after(c: u32, evs: Seq<ClientEvent>) -> u32
    decreases evs.len(),
{
    if evs.len() == 0 {
        c
    } else {
        count_step(count_after(c, evs.drop_last()), evs.last())
    }
}

/// How many of the events are connects.
pub open spec fn connects(evs: Seq<ClientEvent>) -> nat {
    evs.filter(|ev: ClientEvent| ev is Connected).len()
}

/// How many of the events are disconnects.
pub open spec fn disconnects(evs: Seq<ClientEvent>) -> nat {
    evs.filter(|ev: ClientEvent| ev is Disconnected).len()
}

impl ServerState {
    /// A fresh state: not running, no stop requested, no clients.
    pub fn new() -> (s: Self)
        ensures
            !s.is_running,
            !s.should_stop,
            s.connected_clients == 0,
    {
        Self { is_running: false, should_stop: false, connected_clients: 0 }
    }

    /// The listener's start request. Starting while already running is an
    /// error and changes nothing; otherwise the run begins with a cleared
    /// stop flag and the client count untouched.
    pub fn begin_run(&mut self) -> (r: Result<(), StartError>)
        ensures
            old(self).is_running ==> r is Err && *final(self) == *old(self),
            !old(self).is_running ==> {
                &&& r is Ok
                &&& final(self).is_running
                &&& !final(self).should_stop
                &&& final(self).connected_clients == old(self).connected_clients
            },
    {
        if self.is_running {
            Err(StartError::AlreadyRunning)
        } else {
            self.is_running = true;
            self.should_stop = false;
            Ok(())
        }
    }

    /// A stop request: the listener observes `should_stop` on its next poll.
    /// Sessions already running are not torn down, so the client count stays.
    pub fn request_stop(&mut self)
        ensures
            !final(self).is_running,
            final(self).should_stop,
            final(self).connected_clients == old(self).connected_clients,
    {
        self.is_running = false;
        self.should_stop = true;
    }

    /// Whether the accept loop should keep polling for connections.
    pub fn should_accept(&self) -> (r: bool)
        ensures
            r == !self.should_stop,
    {
        !self.should_stop
    }

    /// A session authenticated: one more connected client.
    pub fn client_connected(&mut self)
        requires
            old(self).connected_clients < u32::MAX,
        ensures
            *final(self) == (ServerState {
                connected_clients: (old(self).connected_clients + 1) as u32,
                ..*old(self)
            }),
            final(self).connected_clients == count_step(
                old(self).connected_clients,
                ClientEvent::Connected,
            ),
    {
        self.connected_clients = self.connected_clients + 1;
    }

    /// An authenticated session ended: one less connected client. The count
    /// stops at zero rather than wrapping.
    pub fn client_disconnected(&mut self)
        ensures
            *final(self) == (ServerState {
                connected_clients: count_step(
                    old(self).connected_clients,
                    ClientEvent::Disconnected,
                ),
                ..*old(self)
            }),
    {
        if self.connected_clients > 0 {
            self.connected_clients = self.connected_clients - 1;
        }
    }
}

/// The one startup error: a start request while the server is running.
pub enum StartError {
    AlreadyRunning,
}

/// Law: after any interleaving of successful authentications and
/// disconnects in which no prefix disconnects more sessions than have
/// authenticated, the client count equals connects minus disconnects.
/// In particular it never wraps below zero and the subtraction never
/// saturates. Starting count is zero, as `ServerState::new` gives it.
pub proof fn lemma_client_count(evs: Seq<ClientEvent>)
    requires
        connects(evs) < u32::MAX,
        forall|i: int|
            0 <= i <= evs.len() ==> #[trigger] disconnects(evs.subrange(0, i)) <= connects(
                evs.subrange(0, i),
            ),
    ensures
        count_after(0u32, evs) == connects(evs) - disconnects(evs),
    decreases evs.len(),
{
    reveal(Seq::filter);
    if evs.len() == 0 {
        assert(evs.filter(|ev: ClientEvent| ev is Connected) =~= Seq::<ClientEvent>::empty());
        assert(evs.filter(|ev: ClientEvent| ev is Disconnected) =~= Seq::<ClientEvent>::empty());
    } else {
        let front = evs.drop_last();
        assert(front =~= evs.subrange(0, evs.len() - 1));
        lemma_filter_last(evs, |ev: ClientEvent| ev is Connected);
        lemma_filter_last(evs, |ev: ClientEvent| ev is Disconnected);
        assert forall|i: int| 0 <= i <= front.len() implies #[trigger] disconnects(
            front.subrange(0, i),
        ) <= connects(front.subrange(0, i)) by {
            assert(front.subrange(0, i) =~= evs.subrange(0, i));
        }
        assert(connects(front) <= connects(evs)) by {
            lemma_filter_last(evs, |ev: ClientEvent| ev is Connected);
        }
        lemma_client_count(front);
        assert(evs.subrange(0, evs.len() as int) =~= evs);
    }
}

/// Filtering a nonempty sequence splits into filtering the front and
/// testing the last element.
proof fn lemma_filter_last(evs: Seq<ClientEvent>, pred: spec_fn(ClientEvent) -> bool)
    requires
        evs.len() > 0,
    ensures
        evs.filter(pred).len() == evs.drop_last().filter(pred).len() + if pred(evs.last()) {
            1int
        } else {
            0int
        },
    decreases evs.len(),
{
    reveal(Seq::filter);
    assert(evs =~= evs.drop_last().push(evs.last()));
    evs.drop_last().lemma_filter_push(evs.last(), pred);
}

} // verus!
