//! The ingestion service: the rules by which the store is kept caught up
//! with the chain head.
//!
//! The service itself waits on the network and on the store; what it does
//! next is decided here, as a function from its state and the event that
//! just happened to its next state and the action to perform. Headers are
//! processed strictly one at a time, in the order of arrival.
use crate::model::{BlockId, Transaction};
use crate::primitives::{BlockHash, TxHash};
use vstd::prelude::*;

verus! {

/// The counters that the service exposes. None of them ever decreases.
#[derive(Clone, Copy, Debug, PartialEq, Eq, Structural)]
pub struct Counters {
    /// Requests made to the node.
    pub rpc_requests: u64,
    /// Requests to the node that failed.
    pub failed_rpc_requests: u64,
    /// Blocks committed to the store.
    pub blocks_added: u64,
}

/// One more, unless the counter is at its greatest value.
pub open spec fn bumped(counter: u64) -> u64 {
    if counter < u64::MAX {
        (counter + 1) as u64
    } else {
        counter
    }
}

fn bump(counter: u64) -> (r: u64)
    ensures
        r == bumped(counter),
{
    if counter < u64::MAX {
        counter + 1
    } else {
        counter
    }
}

impl Counters {
    /// Whether no counter of `self` is below its value in `earlier`.
    pub open spec fn not_below(self, earlier: Counters) -> bool {
        &&& self.rpc_requests >= earlier.rpc_requests
        &&& self.failed_rpc_requests >= earlier.failed_rpc_requests
        &&& self.blocks_added >= earlier.blocks_added
    }

    /// All counters at zero.
    pub fn new() -> (r: Self)
        ensures
            r == (Counters { rpc_requests: 0, failed_rpc_requests: 0, blocks_added: 0 }),
    {
        Counters { rpc_requests: 0, failed_rpc_requests: 0, blocks_added: 0 }
    }
}

/// Why the service stopped streaming.
#[derive(Clone, Copy, Debug, PartialEq, Eq, Structural)]
pub enum Failure {
    /// No connection could be made, or the node did not identify its chain.
    Connection,
    /// The subscription could not be opened, ended, or a read failed.
    Transport,
    /// The node no longer has the block of a header that it announced.
    NotFound,
    /// The store refused the block; nothing of it was committed.
    Write,
}

/// The phases of the service.
#[derive(Clone, Copy, Debug, PartialEq, Eq, Structural)]
pub enum Phase {
    Starting,
    Connected,
    Streaming,
    Degraded,
    Stopped,
}

/// The state of the service.
#[derive(Clone, Copy, Debug, PartialEq, Eq)]
pub enum State {
    /// No connection yet.
    Starting,
    /// Connected, chain identity known, not yet subscribed.
    Connected,
    /// Subscribed and waiting for the next header.
    AwaitingHeader,
    /// Fetching the full block of the header that arrived.
    Fetching(BlockHash),
    /// Writing the fetched block to the store.
    Writing(BlockHash),
    /// The transport failed. The failure has been reported; the service
    /// resumes only if whoever supervises it reconnects.
    Degraded,
    /// At rest: after an unrecoverable failure or a shutdown.
    Stopped,
}

/// What happened.
#[derive(Clone, Copy, Debug, PartialEq, Eq)]
pub enum Event {
    /// The connection is up and the node identified its chain.
    Connected,
    /// The connection or the identity query failed.
    ConnectFailed,
    /// The header subscription is open.
    Subscribed,
    /// The header subscription could not be opened.
    SubscribeFailed,
    /// The subscription delivered the header with this hash.
    Header(BlockHash),
    /// The subscription ended.
    StreamEnded,
    /// The node returned the requested block.
    BlockFetched,
    /// The node has no block with the requested hash.
    BlockMissing,
    /// The request for the block failed.
    FetchFailed,
    /// The store committed the block.
    BlockWritten,
    /// The store refused the block.
    WriteFailed,
    /// A supervisor reconnected and resubscribed after a transport failure.
    Reconnected,
    /// The service was told to stop.
    Shutdown,
}

/// What to do next.
#[derive(Clone, Copy, Debug, PartialEq, Eq)]
pub enum Action {
    /// Nothing: the event does not concern the state.
    Ignore,
    /// Open the header subscription.
    Subscribe,
    /// Wait for the next header of the subscription.
    NextHeader,
    /// Fetch the full block with this hash from the node.
    FetchBlock(BlockHash),
    /// Write the fetched block with this hash to the store, atomically.
    WriteBlock(BlockHash),
    /// End the loop and surface this failure to whoever spawned the service.
    Report(Failure),
    /// End the loop: the service was shut down.
    Halt,
}

/// The service: its state and its counters.
#[derive(Clone, Copy, Debug, PartialEq, Eq)]
pub struct Service {
    pub state: State,
    pub counters: Counters,
}

impl State {
    /// The phase that a state belongs to.
    pub open spec fn phase(self) -> Phase {
        match self {
            State::Starting => Phase::Starting,
            State::Connected => Phase::Connected,
            State::AwaitingHeader => Phase::Streaming,
            State::Fetching(_) => Phase::Streaming,
            State::Writing(_) => Phase::Streaming,
            State::Degraded => Phase::Degraded,
            State::Stopped => Phase::Stopped,
        }
    }

    /// The phase that the state belongs to.
    pub fn current_phase(&self) -> (r: Phase)
        ensures
            r == self.phase(),
    {
        match self {
            State::Starting => Phase::Starting,
            State::Connected => Phase::Connected,
            State::AwaitingHeader => Phase::Streaming,
            State::Fetching(_) => Phase::Streaming,
            State::Writing(_) => Phase::Streaming,
            State::Degraded => Phase::Degraded,
            State::Stopped => Phase::Stopped,
        }
    }
}

/// The state, the counters and the action that follow an event.
pub open spec fn step_of(service: Service, event: Event) -> (Service, Action) {
    let c = service.counters;
    match (service.state, event) {
        (State::Stopped, _) => (service, Action::Ignore),
        (_, Event::Shutdown) => (Service { state: State::Stopped, counters: c }, Action::Halt),
        (State::Starting, Event::Connected) => (
            Service { state: State::Connected, counters: c },
            Action::Subscribe,
        ),
        (State::Starting, Event::ConnectFailed) => (
            Service { state: State::Stopped, counters: c },
            Action::Report(Failure::Connection),
        ),
        (State::Connected, Event::Subscribed) => (
            Service { state: State::AwaitingHeader, counters: c },
            Action::NextHeader,
        ),
        (State::Connected, Event::SubscribeFailed) => (
            Service { state: State::Degraded, counters: c },
            Action::Report(Failure::Transport),
        ),
        (State::AwaitingHeader, Event::Header(hash)) => (
            Service {
                state: State::Fetching(hash),
                counters: Counters { rpc_requests: bumped(c.rpc_requests), ..c },
            },
            Action::FetchBlock(hash),
        ),
        (State::AwaitingHeader, Event::StreamEnded) => (
            Service { state: State::Degraded, counters: c },
            Action::Report(Failure::Transport),
        ),
        (State::Fetching(hash), Event::BlockFetched) => (
            Service { state: State::Writing(hash), counters: c },
            Action::WriteBlock(hash),
        ),
        (State::Fetching(_), Event::BlockMissing) => (
            Service { state: State::Stopped, counters: c },
            Action::Report(Failure::NotFound),
        ),
        (State::Fetching(_), Event::FetchFailed) => (
            Service {
                state: State::Degraded,
                counters: Counters { failed_rpc_requests: bumped(c.failed_rpc_requests), ..c },
            },
            Action::Report(Failure::Transport),
        ),
        (State::Writing(_), Event::BlockWritten) => (
            Service {
                state: State::AwaitingHeader,
                counters: Counters { blocks_added: bumped(c.blocks_added), ..c },
            },
            Action::NextHeader,
        ),
        (State::Writing(_), Event::WriteFailed) => (
            Service { state: State::Stopped, counters: c },
            Action::Report(Failure::Write),
        ),
        (State::Degraded, Event::Reconnected) => (
            Service { state: State::AwaitingHeader, counters: c },
            Action::NextHeader,
        ),
        _ => (service, Action::Ignore),
    }
}

impl Service {
    /// A service that has not connected yet, with all counters at zero.
    pub fn new() -> (r: Self)
        ensures
            r.state is Starting,
            r.counters == (Counters { rpc_requests: 0, failed_rpc_requests: 0, blocks_added: 0 }),
    {
        Service { state: State::Starting, counters: Counters::new() }
    }

    /// Takes in an event: moves to the next state, updates the counters, and
    /// says what to do next. An event that does not concern the current
    /// state changes nothing.
    pub fn step(&mut self, event: Event) -> (action: Action)
        ensures
            (*final(self), action) == step_of(*old(self), event),
    {
        let c = self.counters;
        let (state, counters, action) = match (self.state, event) {
            (State::Stopped, _) => (State::Stopped, c, Action::Ignore),
            (_, Event::Shutdown) => (State::Stopped, c, Action::Halt),
            (State::Starting, Event::Connected) => (State::Connected, c, Action::Subscribe),
            (State::Starting, Event::ConnectFailed) => (
                State::Stopped,
                c,
                Action::Report(Failure::Connection),
            ),
            (State::Connected, Event::Subscribed) => (
                State::AwaitingHeader,
                c,
                Action::NextHeader,
            ),
            (State::Connected, Event::SubscribeFailed) => (
                State::Degraded,
                c,
                Action::Report(Failure::Transport),
            ),
            (State::AwaitingHeader, Event::Header(hash)) => (
                State::Fetching(hash),
                Counters {
                    rpc_requests: bump(c.rpc_requests),
                    failed_rpc_requests: c.failed_rpc_requests,
                    blocks_added: c.blocks_added,
                },
                Action::FetchBlock(hash),
            ),
            (State::AwaitingHeader, Event::StreamEnded) => (
                State::Degraded,
                c,
                Action::Report(Failure::Transport),
            ),
            (State::Fetching(hash), Event::BlockFetched) => (
                State::Writing(hash),
                c,
                Action::WriteBlock(hash),
            ),
            (State::Fetching(_), Event::BlockMissing) => (
                State::Stopped,
                c,
                Action::Report(Failure::NotFound),
            ),
            (State::Fetching(_), Event::FetchFailed) => (
                State::Degraded,
                Counters {
                    rpc_requests: c.rpc_requests,
                    failed_rpc_requests: bump(c.failed_rpc_requests),
                    blocks_added: c.blocks_added,
                },
                Action::Report(Failure::Transport),
            ),
            (State::Writing(_), Event::BlockWritten) => (
                State::AwaitingHeader,
                Counters {
                    rpc_requests: c.rpc_requests,
                    failed_rpc_requests: c.failed_rpc_requests,
                    blocks_added: bump(c.blocks_added),
                },
                Action::NextHeader,
            ),
            (State::Writing(_), Event::WriteFailed) => (
                State::Stopped,
                c,
                Action::Report(Failure::Write),
            ),
            (State::Degraded, Event::Reconnected) => (
                State::AwaitingHeader,
                c,
                Action::NextHeader,
            ),
            (s, _) => (s, c, Action::Ignore),
        };
        self.state = state;
        self.counters = counters;
        action
    }
}

/// No event makes a counter decrease.
pub proof fn lemma_counters_monotonic(service: Service, event: Event)
    ensures
        step_of(service, event).0.counters.not_below(service.counters),
{
}

/// A stopped service stays stopped and does nothing more.
pub proof fn lemma_stopped_is_final(service: Service, event: Event)
    requires
        service.state is Stopped,
    ensures
        step_of(service, event) == (service, Action::Ignore),
{
}

/// A block is written only right after it was fetched, and it is the block
/// of the header that was being processed; a block counts as added only when
/// the store has committed it.
pub proof fn lemma_one_block_at_a_time(service: Service, event: Event)
    ensures
        step_of(service, event).1 matches Action::WriteBlock(hash) ==> service.state
            == State::Fetching(hash) && event is BlockFetched,
        step_of(service, event).1 matches Action::FetchBlock(hash) ==> service.state
            is AwaitingHeader && event == Event::Header(hash),
        step_of(service, event).0.counters.blocks_added != service.counters.blocks_added
            ==> service.state is Writing && event is BlockWritten,
        step_of(service, event).1 is NextHeader ==> step_of(service, event).0.state
            is AwaitingHeader,
{
}

/// Every failure ends the streaming: after a report the service is degraded
/// or stopped, and a transport failure is what degrades it.
pub proof fn lemma_failures_surface(service: Service, event: Event)
    ensures
        step_of(service, event).1 matches Action::Report(failure) ==> (if failure
            == Failure::Transport {
            step_of(service, event).0.state is Degraded
        } else {
            step_of(service, event).0.state is Stopped
        }),
        step_of(service, event).0.state.phase() == Phase::Degraded && service.state.phase()
            != Phase::Degraded ==> step_of(service, event).1 == Action::Report(
            Failure::Transport,
        ),
{
}

/// What to fetch to seed the store before any reader runs.
#[derive(Clone, Copy, Debug, PartialEq, Eq)]
pub enum Seed {
    /// The block that the request identifies.
    Block(BlockId),
    /// The block that holds the transaction with this hash.
    BlockOf(TxHash),
}

/// The seed that the options select: the requested block where only a block
/// is given, the block of the requested transaction where only a
/// transaction is given, and the latest block otherwise.
pub fn seed_request(block: Option<BlockId>, transaction: Option<TxHash>) -> (r: Seed)
    ensures
        match (block, transaction) {
            (Some(id), None) => r == Seed::Block(id),
            (None, Some(hash)) => r == Seed::BlockOf(hash),
            _ => r == Seed::Block(BlockId::Latest),
        },
{
    match (block, transaction) {
        (Some(id), None) => Seed::Block(id),
        (None, Some(hash)) => Seed::BlockOf(hash),
        _ => Seed::Block(BlockId::Latest),
    }
}

/// The block to fetch for a seed transaction: the one it belongs to, or
/// `None` for a transaction that is in no block yet.
pub fn seed_block_of(transaction: &Transaction) -> (r: Option<BlockId>)
    ensures
        match transaction.block_hash {
            Some(hash) => r == Some(BlockId::Hash(hash)),
            None => r is None,
        },
{
    match transaction.block_hash {
        Some(hash) => Some(BlockId::Hash(hash)),
        None => None,
    }
}

} // verus!
