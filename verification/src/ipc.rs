//! The local-socket listener: an accept loop that spawns one
//! independent task per accepted connection.
//!
//! The loop's decisions are taken here; the socket I/O that feeds them
//! lives outside the library. The accept loop stops only when the
//! incoming-connection source ends or errors — never because one
//! connection failed — and an event on one connection touches no
//! sibling.

use vstd::prelude::*;
use crate::connection::{ConnectionEvent, ConnectionPhase, next_phase, spec_next_phase};

verus! {

/// State of the local-socket listener: whether the accept loop is
/// still taking connections, and the phase of every connection
/// accepted so far, keyed by order of acceptance.
#[derive(Debug)]
pub struct IpcListenerState {
    /// The accept loop is still taking connections from the source.
    pub accepting: bool,
    /// Phase of connection `k`, for each accepted connection `k`.
    pub conns: Vec<ConnectionPhase>,
}

/// An event the accept loop or one of its connection tasks observes.
#[derive(Clone, Copy, Debug, PartialEq, Eq, Structural)]
pub enum ListenerEvent {
    /// The source yielded a new connection.
    Incoming,
    /// Connection `id`'s protocol loop observed `event`.
    Connection { id: usize, event: ConnectionEvent },
    /// The incoming-connection source ended.
    SourceEnded,
    /// The incoming-connection source errored.
    SourceError,
}

/// What the caller driving the accept loop must do next.
#[derive(Clone, Copy, Debug, PartialEq, Eq, Structural)]
pub enum ListenerAction {
    /// Spawn an independent task running connection `id`'s protocol
    /// loop.
    Spawn { id: usize },
    /// Keep going; nothing to spawn.
    Continue,
    /// The accept loop is done.
    Stop,
}

/// An error the recoverable spawn entry point reports.
#[derive(Clone, Copy, Debug, PartialEq, Eq, Structural)]
pub enum IpcError {
    /// The endpoint could not be created at the given path.
    EndpointCreation,
}

/// Whether the accept loop is still running after event `e`: only the
/// end or failure of the incoming-connection source stops it.
pub open spec fn spec_still_accepting(accepting: bool, e: ListenerEvent) -> bool {
    accepting && !(e is SourceEnded) && !(e is SourceError)
}

/// The listener free of its executable container: the accept flag and
/// the phase of each accepted connection.
pub ghost struct ListenerModel {
    /// The accept loop is still taking connections.
    pub accepting: bool,
    /// Phase of connection `k`, for each accepted connection `k`.
    pub conns: Seq<ConnectionPhase>,
}

/// The listener after one event: a new connection is appended in phase
/// `Accepted`; an event on connection `id` moves that connection by
/// the per-connection transition; the source's end or failure stops
/// the accept loop and leaves every connection as it was.
pub open spec fn spec_listener_next(m: ListenerModel, e: ListenerEvent) -> ListenerModel {
    ListenerModel {
        accepting: spec_still_accepting(m.accepting, e),
        conns: match e {
            ListenerEvent::Incoming => m.conns.push(ConnectionPhase::Accepted),
            ListenerEvent::Connection { id, event } => if id < m.conns.len() {
                m.conns.update(id as int, spec_next_phase(m.conns[id as int], event))
            } else {
                m.conns
            },
            ListenerEvent::SourceEnded => m.conns,
            ListenerEvent::SourceError => m.conns,
        },
    }
}

/// The listener after a whole run of events, first to last.
pub open spec fn spec_listener_run(m: ListenerModel, evs: Seq<ListenerEvent>) -> ListenerModel
    decreases evs.len(),
{
    if evs.len() == 0 {
        m
    } else {
        spec_listener_run(spec_listener_next(m, evs[0]), evs.drop_first())
    }
}

/// The action the accept loop takes on event `e`, when the listener
/// holds `count` connections.
pub open spec fn spec_listener_action(count: int, e: ListenerEvent) -> ListenerAction {
    match e {
        ListenerEvent::Incoming => ListenerAction::Spawn { id: count as usize },
        ListenerEvent::Connection { .. } => ListenerAction::Continue,
        ListenerEvent::SourceEnded => ListenerAction::Stop,
        ListenerEvent::SourceError => ListenerAction::Stop,
    }
}

impl IpcListenerState {
    /// The listener as the ghost model sees it.
    pub open spec fn model(self) -> ListenerModel {
        ListenerModel { accepting: self.accepting, conns: self.conns@ }
    }

    /// A listener whose accept loop just started: running, with no
    /// connection accepted yet.
    pub fn new() -> (r: IpcListenerState)
        ensures
            r.accepting,
            r.conns@.len() == 0,
    {
        IpcListenerState { accepting: true, conns: Vec::new() }
    }

    /// Advance the listener on one observed event and say what to do
    /// next. A new connection is accepted and handed to a task of its
    /// own; an event on connection `id` moves that connection alone;
    /// the end or failure of the source stops the accept loop and
    /// leaves every accepted connection as it was.
    pub fn step(&mut self, e: ListenerEvent) -> (a: ListenerAction)
        requires
            e is Incoming ==> old(self).accepting && old(self).conns@.len() < usize::MAX,
            e matches ListenerEvent::Connection { id, .. } ==> id < old(self).conns@.len(),
        ensures
            a == spec_listener_action(old(self).conns@.len() as int, e),
            final(self).model() == spec_listener_next(old(self).model(), e),
    {
        match e {
            ListenerEvent::Incoming => {
                let id: usize = self.conns.len();
                self.conns.push(ConnectionPhase::Accepted);
                ListenerAction::Spawn { id }
            },
            ListenerEvent::Connection { id, event } => {
                let p: ConnectionPhase = self.conns[id];
                let q: ConnectionPhase = next_phase(p, event);
                self.conns.set(id, q);
                ListenerAction::Continue
            },
            ListenerEvent::SourceEnded => {
                self.accepting = false;
                ListenerAction::Stop
            },
            ListenerEvent::SourceError => {
                self.accepting = false;
                ListenerAction::Stop
            },
        }
    }
}

/// Decision of the recoverable spawn entry point: a created endpoint
/// starts an accept loop with no connection yet; a failed creation is
/// reported as a recoverable error — the caller keeps running with the
/// other transports — and is never retried here.
pub fn try_spawn_outcome(endpoint_created: bool) -> (r: Result<IpcListenerState, IpcError>)
    ensures
        r is Ok <==> endpoint_created,
        r matches Ok(s) ==> s.accepting && s.conns@.len() == 0,
        r matches Err(err) ==> err == IpcError::EndpointCreation,
{
    if endpoint_created {
        Ok(IpcListenerState::new())
    } else {
        Err(IpcError::EndpointCreation)
    }
}

/// Connections are independent: an event on connection `id` — the ones
/// that close it included — leaves every sibling connection exactly as
/// it was.
pub proof fn lemma_connection_isolation(
    m: ListenerModel,
    id: usize,
    event: ConnectionEvent,
    j: int,
)
    requires
        0 <= j < m.conns.len(),
        j != id,
    ensures
        spec_listener_next(m, ListenerEvent::Connection { id, event }).conns[j] == m.conns[j],
{
}

/// A connection's failure never stops the accept loop: after any event
/// on an individual connection the listener accepts exactly as before,
/// and the loop stops only when the source ends or errors.
pub proof fn lemma_accept_loop_outlives_connections(accepting: bool, e: ListenerEvent)
    ensures
        e matches ListenerEvent::Connection { .. } ==> spec_still_accepting(accepting, e)
            == accepting,
        accepting && !spec_still_accepting(accepting, e) ==> (e is SourceEnded
            || e is SourceError),
{
}

/// Connections complete independently: across any run of events in
/// which no event belongs to connection `j` — terminations of siblings
/// included — connection `j` still exists and its phase is exactly
/// what it was.
pub proof fn lemma_sibling_runs_leave_connection_untouched(
    m: ListenerModel,
    evs: Seq<ListenerEvent>,
    j: int,
)
    requires
        0 <= j < m.conns.len(),
        forall|k: int|
            0 <= k < evs.len() ==> ((#[trigger] evs[k]) matches ListenerEvent::Connection {
                id,
                ..
            } ==> id != j),
    ensures
        spec_listener_run(m, evs).conns.len() >= m.conns.len(),
        spec_listener_run(m, evs).conns[j] == m.conns[j],
    decreases evs.len(),
{
    if evs.len() > 0 {
        let m1 = spec_listener_next(m, evs[0]);
        assert(evs[0] matches ListenerEvent::Connection { id, .. } ==> id != j);
        assert(m1.conns.len() >= m.conns.len() && m1.conns[j] == m.conns[j]);
        let tail = evs.drop_first();
        assert forall|k: int|
            0 <= k < tail.len() implies ((#[trigger] tail[k])
                matches ListenerEvent::Connection { id, .. } ==> id != j) by {
            assert(tail[k] == evs[k + 1]);
        }
        lemma_sibling_runs_leave_connection_untouched(m1, tail, j);
    }
}

/// The accept loop is stopped by nothing but its source: a running
/// listener still accepts after any run of events among which the
/// source neither ended nor errored.
pub proof fn lemma_accept_loop_survives_connection_runs(m: ListenerModel, evs: Seq<ListenerEvent>)
    requires
        m.accepting,
        forall|k: int| 0 <= k < evs.len() ==> !(evs[k] is SourceEnded) && !(evs[k] is SourceError),
    ensures
        spec_listener_run(m, evs).accepting,
    decreases evs.len(),
{
    if evs.len() > 0 {
        let m1 = spec_listener_next(m, evs[0]);
        assert(!(evs[0] is SourceEnded) && !(evs[0] is SourceError));
        let tail = evs.drop_first();
        assert forall|k: int|
            0 <= k < tail.len() implies !(tail[k] is SourceEnded) && !(tail[k] is SourceError) by {
            assert(tail[k] == evs[k + 1]);
        }
        lemma_accept_loop_survives_connection_runs(m1, tail);
    }
}

/// A stopped accept loop never starts again: once the listener is no
/// longer accepting, no run of events makes it accept.
pub proof fn lemma_stopped_accept_loop_stays_stopped(m: ListenerModel, evs: Seq<ListenerEvent>)
    requires
        !m.accepting,
    ensures
        !spec_listener_run(m, evs).accepting,
    decreases evs.len(),
{
    if evs.len() > 0 {
        lemma_stopped_accept_loop_stays_stopped(spec_listener_next(m, evs[0]), evs.drop_first());
    }
}

} // verus!
