//! The decisions of the byte-echo service.
//!
//! The service itself touches no socket. A listener and one worker per
//! connection are small state machines: the caller performs the operation
//! that a machine asked for, reports how it ended, and is told what to do
//! next. Each machine has one operation outstanding at a time; the only
//! event that counts as its success is the matching completion, and every
//! other event counts as its failure.
//!
//! A worker owns nothing but its own phase, so whatever happens on one
//! connection cannot reach another or the listener.

use vstd::prelude::*;

verus! {

/// The most bytes a worker asks for in one read and sends in one write.
pub const CHUNK_SIZE: usize = 128;

/// The port the service listens on unless told otherwise.
pub const DEFAULT_PORT: u16 = 8080;

/// How a worker ended.
#[derive(Clone, Copy, Debug, PartialEq, Eq, Structural)]
pub enum Exit {
    /// The peer closed the connection: a read returned no bytes.
    PeerClosed,
    /// A read or a write failed; the connection is abandoned.
    Fault,
}

/// Where a worker stands.
#[derive(Clone, Copy, Debug, PartialEq, Eq, Structural)]
pub enum Phase {
    /// A read is outstanding.
    Reading,
    /// The write of the chunk just read is outstanding.
    Writing,
    /// The worker is done.
    Stopped(Exit),
}

/// How the operation that a worker asked for ended.
#[derive(Debug, PartialEq, Eq)]
pub enum IoEvent {
    /// The read returned these bytes; none means the peer closed the connection.
    Read(Vec<u8>),
    /// The read failed.
    ReadFailed,
    /// All bytes of the chunk were written.
    Written,
    /// The write failed.
    WriteFailed,
}

/// What a worker asks its caller to do next.
#[derive(Debug, PartialEq, Eq)]
pub enum WorkerAction {
    /// Read at most `limit` bytes from the connection.
    Read { limit: usize },
    /// Write exactly these bytes to the connection.
    Write(Vec<u8>),
    /// Close the connection and end the worker.
    Stop(Exit),
}

/// An [`IoEvent`] with its bytes as a sequence.
pub enum EventView {
    Read(Seq<u8>),
    ReadFailed,
    Written,
    WriteFailed,
}

/// A [`WorkerAction`] with its bytes as a sequence.
pub enum ActionView {
    Read { limit: nat },
    Write(Seq<u8>),
    Stop(Exit),
}

impl View for IoEvent {
    type V = EventView;

    open spec fn view(&self) -> EventView {
        match self {
            IoEvent::Read(data) => EventView::Read(data@),
            IoEvent::ReadFailed => EventView::ReadFailed,
            IoEvent::Written => EventView::Written,
            IoEvent::WriteFailed => EventView::WriteFailed,
        }
    }
}

impl View for WorkerAction {
    type V = ActionView;

    open spec fn view(&self) -> ActionView {
        match self {
            WorkerAction::Read { limit } => ActionView::Read { limit: *limit as nat },
            WorkerAction::Write(data) => ActionView::Write(data@),
            WorkerAction::Stop(exit) => ActionView::Stop(*exit),
        }
    }
}

/// The request for the next chunk.
pub open spec fn read_request() -> ActionView {
    ActionView::Read { limit: CHUNK_SIZE as nat }
}

/// One decision of a worker. While reading: a chunk of 1 to 128 bytes is
/// written back as it came, no bytes end the worker cleanly, anything else is
/// a fault. While writing: the completed write leads to the next read,
/// anything else is a fault. A stopped worker stays stopped.
pub open spec fn worker_step(phase: Phase, event: EventView) -> (Phase, ActionView) {
    match phase {
        Phase::Reading => match event {
            EventView::Read(data) => if data.len() == 0 {
                (Phase::Stopped(Exit::PeerClosed), ActionView::Stop(Exit::PeerClosed))
            } else if data.len() <= CHUNK_SIZE {
                (Phase::Writing, ActionView::Write(data))
            } else {
                (Phase::Stopped(Exit::Fault), ActionView::Stop(Exit::Fault))
            },
            _ => (Phase::Stopped(Exit::Fault), ActionView::Stop(Exit::Fault)),
        },
        Phase::Writing => match event {
            EventView::Written => (Phase::Reading, read_request()),
            _ => (Phase::Stopped(Exit::Fault), ActionView::Stop(Exit::Fault)),
        },
        Phase::Stopped(exit) => (phase, ActionView::Stop(exit)),
    }
}

/// The phase a worker reaches over a run of events, and what it answered to each.
pub open spec fn run_worker(phase: Phase, events: Seq<EventView>) -> (Phase, Seq<ActionView>)
    decreases events.len(),
{
    if events.len() == 0 {
        (phase, Seq::empty())
    } else {
        let before = run_worker(phase, events.drop_last());
        let last = worker_step(before.0, events.last());
        (last.0, before.1.push(last.1))
    }
}

/// The bytes that a run of actions puts on the wire, in order.
pub open spec fn bytes_written(actions: Seq<ActionView>) -> Seq<u8>
    decreases actions.len(),
{
    if actions.len() == 0 {
        Seq::empty()
    } else {
        let before = bytes_written(actions.drop_last());
        match actions.last() {
            ActionView::Write(data) => before + data,
            _ => before,
        }
    }
}

/// The bytes of a run of chunks, in order.
pub open spec fn bytes_of(chunks: Seq<Seq<u8>>) -> Seq<u8>
    decreases chunks.len(),
{
    if chunks.len() == 0 {
        Seq::empty()
    } else {
        bytes_of(chunks.drop_last()) + chunks.last()
    }
}

/// What a worker sees while a peer's bytes arrive as `chunks` and every write
/// succeeds: each chunk read, each followed by its completed write.
pub open spec fn session_events(chunks: Seq<Seq<u8>>) -> Seq<EventView>
    decreases chunks.len(),
{
    if chunks.len() == 0 {
        Seq::empty()
    } else {
        session_events(chunks.drop_last()).push(EventView::Read(chunks.last())).push(
            EventView::Written,
        )
    }
}

/// Each chunk written back, each followed by the request for the next one.
pub open spec fn session_actions(chunks: Seq<Seq<u8>>) -> Seq<ActionView>
    decreases chunks.len(),
{
    if chunks.len() == 0 {
        Seq::empty()
    } else {
        session_actions(chunks.drop_last()).push(ActionView::Write(chunks.last())).push(
            read_request(),
        )
    }
}

/// The echo machine of one connection.
pub struct Worker {
    phase: Phase,
}

impl View for Worker {
    type V = Phase;

    closed spec fn view(&self) -> Phase {
        self.phase
    }
}

impl Worker {
    /// A worker for a fresh connection, and its first request: a read.
    pub fn start() -> (started: (Worker, WorkerAction))
        ensures
            started.0@ == Phase::Reading,
            started.1@ == read_request(),
    {
        (Worker { phase: Phase::Reading }, WorkerAction::Read { limit: CHUNK_SIZE })
    }

    /// Where the worker stands.
    pub fn phase(&self) -> (phase: Phase)
        ensures
            phase == self@,
    {
        self.phase
    }

    /// Takes the outcome of the operation last asked for and answers with
    /// the next one.
    pub fn on_event(&mut self, event: IoEvent) -> (action: WorkerAction)
        ensures
            final(self)@ == worker_step(old(self)@, event@).0,
            action@ == worker_step(old(self)@, event@).1,
    {
        match self.phase {
            Phase::Reading => match event {
                IoEvent::Read(data) => {
                    if data.len() == 0 {
                        self.phase = Phase::Stopped(Exit::PeerClosed);
                        WorkerAction::Stop(Exit::PeerClosed)
                    } else if data.len() <= CHUNK_SIZE {
                        self.phase = Phase::Writing;
                        WorkerAction::Write(data)
                    } else {
                        self.phase = Phase::Stopped(Exit::Fault);
                        WorkerAction::Stop(Exit::Fault)
                    }
                },
                _ => {
                    self.phase = Phase::Stopped(Exit::Fault);
                    WorkerAction::Stop(Exit::Fault)
                },
            },
            Phase::Writing => match event {
                IoEvent::Written => {
                    self.phase = Phase::Reading;
                    WorkerAction::Read { limit: CHUNK_SIZE }
                },
                _ => {
                    self.phase = Phase::Stopped(Exit::Fault);
                    WorkerAction::Stop(Exit::Fault)
                },
            },
            Phase::Stopped(exit) => WorkerAction::Stop(exit),
        }
    }
}

/// An IPv4 address and a port to listen on.
#[derive(Clone, Copy, Debug, PartialEq, Eq)]
pub struct Endpoint {
    pub address: [u8; 4],
    pub port: u16,
}

impl Endpoint {
    /// Every local address, on `port`.
    pub fn any(port: u16) -> (endpoint: Endpoint)
        ensures
            endpoint.address@ == seq![0u8, 0u8, 0u8, 0u8],
            endpoint.port == port,
    {
        Endpoint { address: [0, 0, 0, 0], port }
    }
}

/// Why the service as a whole ended.
#[derive(Clone, Copy, Debug, PartialEq, Eq, Structural)]
pub enum ServerError {
    /// The listening socket could not be bound.
    Bind,
    /// Accepting a connection failed.
    Accept,
}

/// Where the listener stands.
#[derive(Clone, Copy, Debug, PartialEq, Eq, Structural)]
pub enum ListenerPhase {
    /// The bind is outstanding.
    Binding,
    /// An accept is outstanding.
    Listening,
    /// The service has ended.
    Failed(ServerError),
}

/// How the operation that the listener asked for ended.
#[derive(Clone, Copy, Debug, PartialEq, Eq, Structural)]
pub enum ListenerEvent {
    /// The listening socket is bound.
    Bound,
    /// The listening socket could not be bound.
    BindFailed,
    /// A connection was accepted.
    Accepted,
    /// The connection that was being accepted broke before it could be
    /// handed over; the listening socket itself is sound.
    ConnectionAborted,
    /// The listening socket failed.
    AcceptFailed,
}

/// What the listener asks its caller to do next.
#[derive(Clone, Copy, Debug, PartialEq, Eq)]
pub enum ListenerAction {
    /// Bind the listening socket.
    Bind(Endpoint),
    /// Wait for the next connection.
    Accept,
    /// Hand the connection just accepted to a worker of its own that runs
    /// beside the listener, and wait for the next connection at once.
    SpawnWorker,
    /// Give up; the error goes to whoever started the service.
    Fail(ServerError),
}

/// One decision of the listener. A failed bind and a failed listening socket
/// both end the service; an accepted connection gets a worker and the
/// listener keeps listening; a connection that broke while it was being
/// accepted is that connection's loss alone, and the listener keeps listening.
pub open spec fn listener_step(phase: ListenerPhase, event: ListenerEvent) -> (
    ListenerPhase,
    ListenerAction,
) {
    match phase {
        ListenerPhase::Binding => match event {
            ListenerEvent::Bound => (ListenerPhase::Listening, ListenerAction::Accept),
            _ => (ListenerPhase::Failed(ServerError::Bind), ListenerAction::Fail(ServerError::Bind)),
        },
        ListenerPhase::Listening => match event {
            ListenerEvent::Accepted => (ListenerPhase::Listening, ListenerAction::SpawnWorker),
            ListenerEvent::ConnectionAborted => (ListenerPhase::Listening, ListenerAction::Accept),
            _ => (
                ListenerPhase::Failed(ServerError::Accept),
                ListenerAction::Fail(ServerError::Accept),
            ),
        },
        ListenerPhase::Failed(error) => (phase, ListenerAction::Fail(error)),
    }
}

/// The phase the listener reaches over a run of events, and what it answered to each.
pub open spec fn run_listener(phase: ListenerPhase, events: Seq<ListenerEvent>) -> (
    ListenerPhase,
    Seq<ListenerAction>,
)
    decreases events.len(),
{
    if events.len() == 0 {
        (phase, Seq::empty())
    } else {
        let before = run_listener(phase, events.drop_last());
        let last = listener_step(before.0, events.last());
        (last.0, before.1.push(last.1))
    }
}

/// The accept loop of the service.
pub struct Listener {
    phase: ListenerPhase,
}

impl View for Listener {
    type V = ListenerPhase;

    closed spec fn view(&self) -> ListenerPhase {
        self.phase
    }
}

impl Listener {
    /// A listener for `endpoint`, and its first request: the bind.
    pub fn serve(endpoint: Endpoint) -> (started: (Listener, ListenerAction))
        ensures
            started.0@ == ListenerPhase::Binding,
            started.1 == ListenerAction::Bind(endpoint),
    {
        (Listener { phase: ListenerPhase::Binding }, ListenerAction::Bind(endpoint))
    }

    /// Where the listener stands.
    pub fn phase(&self) -> (phase: ListenerPhase)
        ensures
            phase == self@,
    {
        self.phase
    }

    /// Takes the outcome of the operation last asked for and answers with
    /// the next one.
    pub fn on_event(&mut self, event: ListenerEvent) -> (action: ListenerAction)
        ensures
            final(self)@ == listener_step(old(self)@, event).0,
            action == listener_step(old(self)@, event).1,
    {
        match self.phase {
            ListenerPhase::Binding => match event {
                ListenerEvent::Bound => {
                    self.phase = ListenerPhase::Listening;
                    ListenerAction::Accept
                },
                _ => {
                    self.phase = ListenerPhase::Failed(ServerError::Bind);
                    ListenerAction::Fail(ServerError::Bind)
                },
            },
            ListenerPhase::Listening => match event {
                ListenerEvent::Accepted => ListenerAction::SpawnWorker,
                ListenerEvent::ConnectionAborted => ListenerAction::Accept,
                _ => {
                    self.phase = ListenerPhase::Failed(ServerError::Accept);
                    ListenerAction::Fail(ServerError::Accept)
                },
            },
            ListenerPhase::Failed(error) => ListenerAction::Fail(error),
        }
    }
}

/// What two workers reach when their events arrive interleaved: each turn
/// brings one event, to the first worker where its flag is set and to the
/// second where it is not.
pub open spec fn run_pair(first: Phase, second: Phase, turns: Seq<(bool, EventView)>) -> (
    (Phase, Seq<ActionView>),
    (Phase, Seq<ActionView>),
)
    decreases turns.len(),
{
    if turns.len() == 0 {
        ((first, Seq::empty()), (second, Seq::empty()))
    } else {
        let before = run_pair(first, second, turns.drop_last());
        if turns.last().0 {
            let step = worker_step(before.0.0, turns.last().1);
            ((step.0, before.0.1.push(step.1)), before.1)
        } else {
            let step = worker_step(before.1.0, turns.last().1);
            (before.0, (step.0, before.1.1.push(step.1)))
        }
    }
}

/// The events among `turns` that go to one of the two workers, in order.
pub open spec fn events_for(turns: Seq<(bool, EventView)>, first: bool) -> Seq<EventView>
    decreases turns.len(),
{
    if turns.len() == 0 {
        Seq::empty()
    } else {
        let before = events_for(turns.drop_last(), first);
        if turns.last().0 == first {
            before.push(turns.last().1)
        } else {
            before
        }
    }
}

/// Echo: whatever chunks of 1 to 128 bytes a peer's bytes arrive in, the
/// worker answers each chunk with a write of exactly that chunk before it
/// asks for the next, it is reading again afterwards, and the bytes it has
/// written are the bytes it has read, unchanged and in order.
pub proof fn lemma_echo_returns_what_was_sent(chunks: Seq<Seq<u8>>)
    requires
        forall|i: int| 0 <= i < chunks.len() ==> 0 < (#[trigger] chunks[i]).len() <= CHUNK_SIZE,
    ensures
        run_worker(Phase::Reading, session_events(chunks)) == (
            Phase::Reading,
            session_actions(chunks),
        ),
        bytes_written(session_actions(chunks)) == bytes_of(chunks),
    decreases chunks.len(),
{
    if chunks.len() > 0 {
        let before = chunks.drop_last();
        let chunk = chunks.last();
        lemma_echo_returns_what_was_sent(before);

        let read = session_events(before).push(EventView::Read(chunk));
        assert(read.drop_last() =~= session_events(before));
        assert(session_events(chunks).drop_last() =~= read);
        assert(run_worker(Phase::Reading, read) == (
            Phase::Writing,
            session_actions(before).push(ActionView::Write(chunk)),
        ));

        let wrote = session_actions(before).push(ActionView::Write(chunk));
        assert(wrote.drop_last() =~= session_actions(before));
        assert(session_actions(chunks).drop_last() =~= wrote);
        assert(bytes_written(wrote) == bytes_of(before) + chunk);
    }
}

/// A session ends cleanly when the peer closes: after any echoed chunks, a
/// read that returns no bytes stops the worker with [`Exit::PeerClosed`].
pub proof fn lemma_peer_close_ends_session(chunks: Seq<Seq<u8>>)
    requires
        forall|i: int| 0 <= i < chunks.len() ==> 0 < (#[trigger] chunks[i]).len() <= CHUNK_SIZE,
    ensures
        run_worker(
            Phase::Reading,
            session_events(chunks).push(EventView::Read(Seq::empty())),
        ) == (
            Phase::Stopped(Exit::PeerClosed),
            session_actions(chunks).push(ActionView::Stop(Exit::PeerClosed)),
        ),
{
    lemma_echo_returns_what_was_sent(chunks);
    let events = session_events(chunks).push(EventView::Read(Seq::empty()));
    assert(events.drop_last() =~= session_events(chunks));
}

/// Isolation: under any interleaving of the events of two connections, each
/// worker reaches the phase and gives the answers that it would have given
/// had it run alone on its own events. Nothing that happens on one
/// connection, its closing or its failure included, changes what the other
/// one echoes.
pub proof fn lemma_connections_do_not_interfere(
    first: Phase,
    second: Phase,
    turns: Seq<(bool, EventView)>,
)
    ensures
        run_pair(first, second, turns).0 == run_worker(first, events_for(turns, true)),
        run_pair(first, second, turns).1 == run_worker(second, events_for(turns, false)),
    decreases turns.len(),
{
    if turns.len() > 0 {
        let before = turns.drop_last();
        lemma_connections_do_not_interfere(first, second, before);
        if turns.last().0 {
            assert(events_for(turns, true).drop_last() =~= events_for(before, true));
        } else {
            assert(events_for(turns, false).drop_last() =~= events_for(before, false));
        }
    }
}

/// The accept loop never waits for a connection it has handed out and never
/// ends over a single connection: however many connections arrive or break
/// while being accepted, each accepted one gets a worker, each broken one is
/// passed over, and the listener is listening again right after.
pub proof fn lemma_listener_keeps_accepting(events: Seq<ListenerEvent>)
    requires
        forall|i: int|
            0 <= i < events.len() ==> events[i] == ListenerEvent::Accepted || events[i]
                == ListenerEvent::ConnectionAborted,
    ensures
        run_listener(ListenerPhase::Listening, events).0 == ListenerPhase::Listening,
        run_listener(ListenerPhase::Listening, events).1.len() == events.len(),
        forall|i: int|
            0 <= i < events.len() ==> run_listener(ListenerPhase::Listening, events).1[i] == (
            if events[i] == ListenerEvent::Accepted {
                ListenerAction::SpawnWorker
            } else {
                ListenerAction::Accept
            }),
    decreases events.len(),
{
    if events.len() > 0 {
        let before = events.drop_last();
        lemma_listener_keeps_accepting(before);
        let answers = run_listener(ListenerPhase::Listening, events).1;
        assert forall|i: int| 0 <= i < events.len() implies answers[i] == (if events[i]
            == ListenerEvent::Accepted {
            ListenerAction::SpawnWorker
        } else {
            ListenerAction::Accept
        }) by {
            if i < before.len() {
                assert(before[i] == events[i]);
                assert(answers[i] == run_listener(ListenerPhase::Listening, before).1[i]);
            }
        }
    }
}

/// Once the service has failed it stays failed: no later event revives it.
pub proof fn lemma_failure_is_final(error: ServerError, events: Seq<ListenerEvent>)
    ensures
        run_listener(ListenerPhase::Failed(error), events).0 == ListenerPhase::Failed(error),
    decreases events.len(),
{
    if events.len() > 0 {
        lemma_failure_is_final(error, events.drop_last());
    }
}

} // verus!
