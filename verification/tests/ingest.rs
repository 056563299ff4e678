//! The ingestion state machine and the metrics endpoint.
use blocktop::cli::{Opts, DEFAULT_METRICS_ONLY_PORT, DEFAULT_PORT};
use blocktop::ingest::{
    seed_block_of, seed_request, Action, Counters, Event, Failure, Phase, Seed, Service, State,
};
use blocktop::metrics::{is_metrics_path, serve_metrics, Metrics, Reply};
use blocktop::model::{BlockId, Transaction, TxPayload};
use blocktop::primitives::{FixedBytes, U256};
use blocktop::store::Location;
use std::path::PathBuf;

fn hash(byte: u8) -> FixedBytes<32> {
    FixedBytes { bytes: [byte; 32] }
}

const ALL_EVENTS: [Event; 13] = [
    Event::Connected,
    Event::ConnectFailed,
    Event::Subscribed,
    Event::SubscribeFailed,
    Event::Header(FixedBytes { bytes: [1; 32] }),
    Event::StreamEnded,
    Event::BlockFetched,
    Event::BlockMissing,
    Event::FetchFailed,
    Event::BlockWritten,
    Event::WriteFailed,
    Event::Reconnected,
    Event::Shutdown,
];

const ALL_STATES: [State; 7] = [
    State::Starting,
    State::Connected,
    State::AwaitingHeader,
    State::Fetching(FixedBytes { bytes: [2; 32] }),
    State::Writing(FixedBytes { bytes: [2; 32] }),
    State::Degraded,
    State::Stopped,
];

#[test]
fn two_blocks_are_ingested_one_after_the_other() {
    let mut s = Service::new();
    assert_eq!(s.state.current_phase(), Phase::Starting);
    assert_eq!(s.step(Event::Connected), Action::Subscribe);
    assert_eq!(s.state.current_phase(), Phase::Connected);
    assert_eq!(s.step(Event::Subscribed), Action::NextHeader);
    assert_eq!(s.state.current_phase(), Phase::Streaming);
    for byte in [1u8, 2] {
        assert_eq!(s.step(Event::Header(hash(byte))), Action::FetchBlock(hash(byte)));
        // A header that arrives while a block is in flight is not taken up.
        assert_eq!(s.step(Event::Header(hash(9))), Action::Ignore);
        assert_eq!(s.step(Event::BlockFetched), Action::WriteBlock(hash(byte)));
        assert_eq!(s.step(Event::BlockWritten), Action::NextHeader);
    }
    assert_eq!(s.state, State::AwaitingHeader);
    assert_eq!(s.counters, Counters { rpc_requests: 2, failed_rpc_requests: 0, blocks_added: 2 });
}

#[test]
fn failed_fetch_degrades_and_reconnect_resumes() {
    let mut s = Service { state: State::AwaitingHeader, counters: Counters::new() };
    assert_eq!(s.step(Event::Header(hash(1))), Action::FetchBlock(hash(1)));
    assert_eq!(s.step(Event::FetchFailed), Action::Report(Failure::Transport));
    assert_eq!(s.state, State::Degraded);
    assert_eq!(s.counters, Counters { rpc_requests: 1, failed_rpc_requests: 1, blocks_added: 0 });
    assert_eq!(s.step(Event::Header(hash(2))), Action::Ignore);
    assert_eq!(s.step(Event::Reconnected), Action::NextHeader);
    assert_eq!(s.state.current_phase(), Phase::Streaming);
    assert_eq!(s.step(Event::StreamEnded), Action::Report(Failure::Transport));
    assert_eq!(s.state.current_phase(), Phase::Degraded);
    assert_eq!(s.step(Event::Shutdown), Action::Halt);
    assert_eq!(s.state, State::Stopped);
}

#[test]
fn unrecoverable_failures_stop_the_service() {
    let mut s = Service::new();
    assert_eq!(s.step(Event::ConnectFailed), Action::Report(Failure::Connection));
    assert_eq!(s.state, State::Stopped);

    let mut s = Service { state: State::Fetching(hash(1)), counters: Counters::new() };
    assert_eq!(s.step(Event::BlockMissing), Action::Report(Failure::NotFound));
    assert_eq!(s.state, State::Stopped);
    assert_eq!(s.counters, Counters::new());

    let mut s = Service { state: State::Writing(hash(1)), counters: Counters::new() };
    assert_eq!(s.step(Event::WriteFailed), Action::Report(Failure::Write));
    assert_eq!(s.state, State::Stopped);
    assert_eq!(s.counters.blocks_added, 0);

    let mut s = Service { state: State::Connected, counters: Counters::new() };
    assert_eq!(s.step(Event::SubscribeFailed), Action::Report(Failure::Transport));
    assert_eq!(s.state, State::Degraded);
}

#[test]
fn stopped_is_final_and_counters_never_decrease() {
    let counters = Counters { rpc_requests: 5, failed_rpc_requests: u64::MAX, blocks_added: 3 };
    for state in ALL_STATES {
        for event in ALL_EVENTS {
            let mut s = Service { state, counters };
            let action = s.step(event);
            assert!(s.counters.rpc_requests >= counters.rpc_requests);
            assert!(s.counters.failed_rpc_requests >= counters.failed_rpc_requests);
            assert!(s.counters.blocks_added >= counters.blocks_added);
            if state == State::Stopped {
                assert_eq!(s, Service { state, counters });
                assert_eq!(action, Action::Ignore);
            }
            if event == Event::Shutdown && state != State::Stopped {
                assert_eq!((s.state, action), (State::Stopped, Action::Halt));
            }
            if matches!(action, Action::WriteBlock(_)) {
                assert_eq!((state, event), (State::Fetching(hash(2)), Event::BlockFetched));
            }
        }
    }
}

#[test]
fn seed_follows_the_options() {
    let id = BlockId::Number(100);
    assert_eq!(seed_request(Some(id), None), Seed::Block(id));
    assert_eq!(seed_request(None, Some(hash(4))), Seed::BlockOf(hash(4)));
    assert_eq!(seed_request(None, None), Seed::Block(BlockId::Latest));
    assert_eq!(seed_request(Some(id), Some(hash(4))), Seed::Block(BlockId::Latest));
    let mut tx = Transaction {
        hash: hash(4),
        from: FixedBytes { bytes: [0; 20] },
        nonce: 0,
        gas_limit: 0,
        value: U256::zero(),
        input: vec![],
        block_hash: Some(hash(8)),
        block_number: Some(1),
        position: Some(0),
        payload: TxPayload::Legacy { chain_id: None, gas_price: 0, to: None },
    };
    assert_eq!(seed_block_of(&tx), Some(BlockId::Hash(hash(8))));
    tx.block_hash = None;
    assert_eq!(seed_block_of(&tx), None);
}

#[test]
fn metrics_are_served_on_one_path_only() {
    assert!(is_metrics_path("/metrics"));
    assert!(!is_metrics_path("/metrics/"));
    let text = "# HELP rpc_requests x\n".to_string();
    assert_eq!(
        serve_metrics("/metrics", "text/plain; version=0.0.4", Some(text.clone())),
        Reply {
            status: 200,
            content_type: Some("text/plain; version=0.0.4".to_string()),
            body: text.clone(),
        }
    );
    assert_eq!(
        serve_metrics("/metrics", "text/plain", None),
        Reply { status: 500, content_type: None, body: "Failed to encode metrics".to_string() }
    );
    assert_eq!(
        serve_metrics("/", "text/plain", Some(text)),
        Reply { status: 404, content_type: None, body: "Not Found".to_string() }
    );
}

#[test]
fn gauges_follow_the_counters() {
    assert_eq!(Metrics::new(), Metrics::default());
    let counters = Counters { rpc_requests: 7, failed_rpc_requests: 1, blocks_added: u64::MAX };
    assert_eq!(
        Metrics::of_counters(&counters),
        Metrics { rpc_requests: 7, blocks_added: i64::MAX, failed_rpc_requests: 1 }
    );
}

fn opts(port: Option<u16>, serve: bool, metrics: bool) -> Opts {
    Opts {
        rpc: "wss://eth.merkle.io".to_string(),
        db: None,
        headless: false,
        list_block_hashes: false,
        block: None,
        transaction: None,
        serve,
        metrics,
        port,
    }
}

#[test]
fn port_follows_the_flags() {
    assert_eq!(opts(Some(9000), false, false).port(), Some(9000));
    assert_eq!(opts(Some(9000), true, true).port(), Some(9000));
    assert_eq!(opts(None, true, true).port(), Some(DEFAULT_PORT));
    assert_eq!(opts(None, true, false).port(), Some(80));
    assert_eq!(opts(None, false, true).port(), Some(DEFAULT_METRICS_ONLY_PORT));
    assert_eq!(opts(None, false, true).port(), Some(8080));
    assert_eq!(opts(None, false, false).port(), None);
}

#[test]
fn store_location_follows_the_options() {
    let mut o = opts(None, false, false);
    assert_eq!(o.location(), Location::Memory);
    assert_eq!(Location::default(), Location::Memory);
    assert!(!o.loses_data_on_exit());
    o.headless = true;
    assert!(o.loses_data_on_exit());
    o.db = Some(PathBuf::from("/tmp/chain.db"));
    assert_eq!(o.location(), Location::Disk(PathBuf::from("/tmp/chain.db")));
    assert!(!o.loses_data_on_exit());
    o.block = Some(BlockId::Number(3));
    assert_eq!(o.seed(), Seed::Block(BlockId::Number(3)));
}
