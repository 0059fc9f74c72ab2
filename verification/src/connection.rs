//! Lifecycle of one transport connection, and the pairing of responses
//! with the requests they answer.
//!
//! Every accepted connection runs its protocol loop in a task of its
//! own; the loop's transitions are decided here. Phases move one way,
//! `Accepted` to `Running` to `Closed`, and a closed connection is
//! never reused. Within one connection, a response is correlated to a
//! request by its identifier, never by the order in which the backend
//! finished the work.

use vstd::prelude::*;

verus! {

/// Phase of one connection's lifecycle.
#[derive(Clone, Copy, Debug, PartialEq, Eq, Structural)]
pub enum ConnectionPhase {
    /// The connection was accepted; its task has not started serving.
    Accepted,
    /// The task is processing frames and serving subscriptions.
    Running,
    /// The stream ended, a protocol error occurred, or the connection
    /// was shut down. Terminal.
    Closed,
}

/// An event observed by one connection's protocol loop.
#[derive(Clone, Copy, Debug, PartialEq, Eq, Structural)]
pub enum ConnectionEvent {
    /// The connection's task began processing frames.
    Started,
    /// A well-formed frame was read and served.
    Frame,
    /// The peer closed its end of the stream.
    EndOfStream,
    /// A malformed frame or other protocol violation.
    ProtocolError,
    /// An explicit shutdown of this connection.
    Shutdown,
}

/// How far along its one-way lifecycle a phase stands.
pub open spec fn phase_rank(p: ConnectionPhase) -> nat {
    match p {
        ConnectionPhase::Accepted => 0,
        ConnectionPhase::Running => 1,
        ConnectionPhase::Closed => 2,
    }
}

/// The phase that follows `p` on event `e`.
pub open spec fn spec_next_phase(p: ConnectionPhase, e: ConnectionEvent) -> ConnectionPhase {
    match p {
        ConnectionPhase::Closed => ConnectionPhase::Closed,
        _ => match e {
            ConnectionEvent::Started => ConnectionPhase::Running,
            ConnectionEvent::Frame => p,
            ConnectionEvent::EndOfStream => ConnectionPhase::Closed,
            ConnectionEvent::ProtocolError => ConnectionPhase::Closed,
            ConnectionEvent::Shutdown => ConnectionPhase::Closed,
        },
    }
}

/// Advance one connection's phase on an observed event.
pub fn next_phase(p: ConnectionPhase, e: ConnectionEvent) -> (r: ConnectionPhase)
    ensures
        r == spec_next_phase(p, e),
{
    match p {
        ConnectionPhase::Closed => ConnectionPhase::Closed,
        _ => match e {
            ConnectionEvent::Started => ConnectionPhase::Running,
            ConnectionEvent::Frame => p,
            ConnectionEvent::EndOfStream => ConnectionPhase::Closed,
            ConnectionEvent::ProtocolError => ConnectionPhase::Closed,
            ConnectionEvent::Shutdown => ConnectionPhase::Closed,
        },
    }
}

/// Transitions are one-directional: no event moves a connection to an
/// earlier phase.
pub proof fn lemma_transitions_one_directional(p: ConnectionPhase, e: ConnectionEvent)
    ensures
        phase_rank(spec_next_phase(p, e)) >= phase_rank(p),
{
}

/// A closed connection is never reused: every event leaves it closed.
pub proof fn lemma_closed_is_terminal(e: ConnectionEvent)
    ensures
        spec_next_phase(ConnectionPhase::Closed, e) == ConnectionPhase::Closed,
{
}

/// The identifiers of the requests sent on one connection whose
/// responses are still owed, in arrival order.
#[derive(Debug)]
pub struct PendingRequests {
    pub ids: Vec<u64>,
}

impl PendingRequests {
    /// Identifiers are distinct: each pending request can be named by
    /// its identifier alone.
    pub open spec fn wf(self) -> bool {
        forall|i: int, j: int|
            0 <= i < j < self.ids@.len() ==> self.ids@[i] != self.ids@[j]
    }

    /// A connection with no request pending.
    pub fn new() -> (r: PendingRequests)
        ensures
            r.ids@.len() == 0,
            r.wf(),
    {
        PendingRequests { ids: Vec::new() }
    }

    /// Record a request arriving on the connection. A reused identifier
    /// is rejected, so that its response stays unambiguous.
    pub fn submit(&mut self, id: u64) -> (accepted: bool)
        requires
            old(self).wf(),
            old(self).ids@.len() < usize::MAX,
        ensures
            final(self).wf(),
            accepted <==> !old(self).ids@.contains(id),
            accepted ==> final(self).ids@ == old(self).ids@.push(id),
            !accepted ==> final(self).ids@ == old(self).ids@,
    {
        if self.contains(id) {
            false
        } else {
            self.ids.push(id);
            true
        }
    }

    /// Whether a request with this identifier is pending.
    pub fn contains(&self, id: u64) -> (r: bool)
        ensures
            r <==> self.ids@.contains(id),
    {
        let mut i: usize = 0;
        while i < self.ids.len()
            invariant
                i <= self.ids@.len(),
                forall|k: int| 0 <= k < i ==> self.ids@[k] != id,
            decreases self.ids@.len() - i,
        {
            if self.ids[i] == id {
                assert(self.ids@.contains(id));
                return true;
            }
            i += 1;
        }
        false
    }

    /// Find the request a response answers, by the response's
    /// identifier: the position of the pending request bearing `id`,
    /// or nothing when no such request is pending.
    pub fn match_response(&self, id: u64) -> (r: Option<usize>)
        ensures
            r is Some <==> self.ids@.contains(id),
            r matches Some(i) ==> 0 <= i < self.ids@.len() && self.ids@[i as int] == id,
    {
        let mut i: usize = 0;
        while i < self.ids.len()
            invariant
                i <= self.ids@.len(),
                forall|k: int| 0 <= k < i ==> self.ids@[k] != id,
            decreases self.ids@.len() - i,
        {
            if self.ids[i] == id {
                assert(self.ids@.contains(id));
                return Some(i);
            }
            i += 1;
        }
        None
    }

    /// Pair a response with its request and retire it. Returns whether
    /// a request with this identifier was pending; every other pending
    /// request is kept, whatever order the backend answers in.
    pub fn complete(&mut self, id: u64) -> (found: bool)
        requires
            old(self).wf(),
        ensures
            final(self).wf(),
            found <==> old(self).ids@.contains(id),
            !found ==> final(self).ids@ == old(self).ids@,
            !final(self).ids@.contains(id),
            forall|x: u64| x != id ==> (final(self).ids@.contains(x) <==> old(
                self,
            ).ids@.contains(x)),
    {
        match self.match_response(id) {
            None => {
                assert(!self.ids@.contains(id));
                false
            },
            Some(i) => {
                let ghost pre = self.ids@;
                self.ids.remove(i);
                proof {
                    lemma_remove_keeps_others(pre, i as int);
                }
                true
            },
        }
    }
}

/// Removing position `i` of a duplicate-free sequence removes exactly
/// the value at `i`: distinctness is kept, the removed value is gone,
/// and every other value keeps its membership.
proof fn lemma_remove_keeps_others(s: Seq<u64>, i: int)
    requires
        0 <= i < s.len(),
        forall|p: int, q: int| 0 <= p < q < s.len() ==> s[p] != s[q],
    ensures
        forall|p: int, q: int|
            0 <= p < q < s.remove(i).len() ==> s.remove(i)[p] != s.remove(i)[q],
        !s.remove(i).contains(s[i]),
        forall|x: u64| x != s[i] ==> (s.remove(i).contains(x) <==> s.contains(x)),
{
    let t = s.remove(i);
    assert forall|p: int, q: int| 0 <= p < q < t.len() implies t[p] != t[q] by {
        assert(t[p] == if p < i { s[p] } else { s[p + 1] });
        assert(t[q] == if q < i { s[q] } else { s[q + 1] });
    }
    assert forall|p: int| 0 <= p < t.len() implies t[p] != s[i] by {
        assert(t[p] == if p < i { s[p] } else { s[p + 1] });
    }
    assert forall|x: u64| x != s[i] && s.contains(x) implies t.contains(x) by {
        let w = choose|w: int| 0 <= w < s.len() && s[w] == x;
        if w < i {
            assert(t[w] == x);
        } else {
            assert(t[w - 1] == x);
        }
    }
    assert forall|x: u64| x != s[i] && t.contains(x) implies s.contains(x) by {
        let w = choose|w: int| 0 <= w < t.len() && t[w] == x;
        assert(t[w] == if w < i { s[w] } else { s[w + 1] });
    }
}

/// One pub/sub connection: its lifecycle phase together with the
/// subscriptions it holds. Subscriptions are scoped to this connection
/// alone — siblings hold state of their own — and are torn down with
/// it, so none outlives a disconnect.
#[derive(Debug)]
pub struct ConnectionSubscriptions {
    /// Phase of the connection that owns the subscriptions.
    pub phase: ConnectionPhase,
    /// Identifiers of the open subscriptions, distinct, in the order
    /// they were opened.
    pub subs: Vec<u64>,
}

impl ConnectionSubscriptions {
    /// Distinct subscription identifiers, and none on a closed
    /// connection.
    pub open spec fn wf(self) -> bool {
        &&& forall|i: int, j: int|
            0 <= i < j < self.subs@.len() ==> self.subs@[i] != self.subs@[j]
        &&& self.phase is Closed ==> self.subs@.len() == 0
    }

    /// A freshly accepted connection: no subscription yet.
    pub fn new() -> (r: ConnectionSubscriptions)
        ensures
            r.wf(),
            r.phase == ConnectionPhase::Accepted,
            r.subs@.len() == 0,
    {
        ConnectionSubscriptions { phase: ConnectionPhase::Accepted, subs: Vec::new() }
    }

    /// Advance the connection on an observed event. An event that
    /// closes the connection tears every subscription down with it;
    /// any other event leaves the subscriptions as they were.
    pub fn on_event(&mut self, e: ConnectionEvent)
        requires
            old(self).wf(),
        ensures
            final(self).wf(),
            final(self).phase == spec_next_phase(old(self).phase, e),
            final(self).phase is Closed ==> final(self).subs@.len() == 0,
            !(final(self).phase is Closed) ==> final(self).subs@ == old(self).subs@,
    {
        self.phase = next_phase(self.phase, e);
        if matches!(self.phase, ConnectionPhase::Closed) {
            self.subs = Vec::new();
        }
    }

    /// Open a subscription: the client starts receiving its push
    /// notifications. Only a running connection can subscribe, and a
    /// subscription identifier in use is rejected.
    pub fn subscribe(&mut self, id: u64) -> (accepted: bool)
        requires
            old(self).wf(),
            old(self).subs@.len() < usize::MAX,
        ensures
            final(self).wf(),
            final(self).phase == old(self).phase,
            accepted <==> old(self).phase is Running && !old(self).subs@.contains(id),
            accepted ==> final(self).subs@ == old(self).subs@.push(id),
            !accepted ==> final(self).subs@ == old(self).subs@,
    {
        if !matches!(self.phase, ConnectionPhase::Running) {
            return false;
        }
        if self.holds(id) {
            return false;
        }
        self.subs.push(id);
        true
    }

    /// Whether a subscription with this identifier is open.
    pub fn holds(&self, id: u64) -> (r: bool)
        ensures
            r <==> self.subs@.contains(id),
    {
        let mut i: usize = 0;
        while i < self.subs.len()
            invariant
                i <= self.subs@.len(),
                forall|k: int| 0 <= k < i ==> self.subs@[k] != id,
            decreases self.subs@.len() - i,
        {
            if self.subs[i] == id {
                assert(self.subs@.contains(id));
                return true;
            }
            i += 1;
        }
        false
    }

    /// Close a subscription at the client's request: the identifier is
    /// retired, every other subscription stays open.
    pub fn unsubscribe(&mut self, id: u64) -> (found: bool)
        requires
            old(self).wf(),
        ensures
            final(self).wf(),
            final(self).phase == old(self).phase,
            found <==> old(self).subs@.contains(id),
            !found ==> final(self).subs@ == old(self).subs@,
            !final(self).subs@.contains(id),
            forall|x: u64| x != id ==> (final(self).subs@.contains(x) <==> old(
                self,
            ).subs@.contains(x)),
    {
        let mut i: usize = 0;
        while i < self.subs.len()
            invariant
                old(self).wf(),
                self.subs@ == old(self).subs@,
                self.phase == old(self).phase,
                i <= self.subs@.len(),
                forall|k: int| 0 <= k < i ==> self.subs@[k] != id,
            decreases self.subs@.len() - i,
        {
            if self.subs[i] == id {
                assert(self.subs@.contains(id));
                let ghost pre = self.subs@;
                self.subs.remove(i);
                proof {
                    lemma_remove_keeps_others(pre, i as int);
                }
                return true;
            }
            i += 1;
        }
        false
    }
}

/// Subscriptions never outlive their connection: whatever event ends
/// the connection — end of stream, a protocol error, or an explicit
/// shutdown — a well-formed closed connection holds no subscription.
pub proof fn lemma_subscriptions_torn_down_on_close(c: ConnectionSubscriptions)
    requires
        c.wf(),
        c.phase is Closed,
    ensures
        c.subs@.len() == 0,
{
}

/// Responses are correlated to requests by identifier alone: on a
/// connection whose pending identifiers are distinct, a response
/// identifier names at most one pending request, so the pairing cannot
/// depend on the order in which the backend finished the work.
pub proof fn lemma_response_correlation(p: PendingRequests, id: u64, i: int, j: int)
    requires
        p.wf(),
        0 <= i < p.ids@.len(),
        0 <= j < p.ids@.len(),
        p.ids@[i] == id,
        p.ids@[j] == id,
    ensures
        i == j,
{
}

} // verus!
