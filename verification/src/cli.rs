//! The options of an invocation and what follows from them.
use crate::ingest::{seed_request, Seed};
use crate::model::BlockId;
use crate::primitives::TxHash;
use crate::store::Location;
use std::path::PathBuf;
use vstd::prelude::*;

verus! {

/// Port served when the explorer front end is enabled.
pub const DEFAULT_PORT: u16 = 80;

/// Port served when only the metrics endpoint is enabled.
pub const DEFAULT_METRICS_ONLY_PORT: u16 = 8080;

/// The endpoint used where none is given.
pub const DEFAULT_RPC: &'static str = "wss://eth.merkle.io";

/// The options of an invocation.
#[derive(Clone, Debug)]
pub struct Opts {
    /// The endpoint of the node.
    pub rpc: String,
    /// The file of the store; in memory where absent.
    pub db: Option<PathBuf>,
    /// Run without the display.
    pub headless: bool,
    /// Print the hashes of all stored blocks at start.
    pub list_block_hashes: bool,
    /// The block to show first.
    pub block: Option<BlockId>,
    /// The transaction to show first.
    pub transaction: Option<TxHash>,
    /// Serve the explorer front end.
    pub serve: bool,
    /// Serve the metrics endpoint.
    pub metrics: bool,
    /// The port to listen on.
    pub port: Option<u16>,
}

/// The port an invocation listens on, as a function of its flags.
pub open spec fn port_of(port: Option<u16>, serve: bool, metrics: bool) -> Option<u16> {
    if port is Some {
        port
    } else if serve {
        Some(DEFAULT_PORT)
    } else if metrics {
        Some(DEFAULT_METRICS_ONLY_PORT)
    } else {
        None
    }
}

impl Opts {
    /// The listening port: an explicit port wins, serving implies the
    /// default port, metrics alone implies the metrics-only port, and with
    /// neither there is none.
    pub fn port(&self) -> (r: Option<u16>)
        ensures
            r == port_of(self.port, self.serve, self.metrics),
    {
        if let Some(port) = self.port {
            Some(port)
        } else {
            match (self.serve, self.metrics) {
                (true, true) => Some(DEFAULT_PORT),
                (false, true) => Some(DEFAULT_METRICS_ONLY_PORT),
                (true, false) => Some(DEFAULT_PORT),
                (false, false) => None,
            }
        }
    }

    /// Where the store keeps its data: the given file, or memory.
    pub fn location(&self) -> (r: Location)
        ensures
            match self.db {
                Some(path) => r == Location::Disk(path),
                None => r is Memory,
            },
    {
        match &self.db {
            Some(path) => Location::Disk(path.clone()),
            None => Location::Memory,
        }
    }

    /// Whether all data will be lost on exit without anyone having seen it:
    /// headless, with the store in memory.
    pub fn loses_data_on_exit(&self) -> (r: bool)
        ensures
            r == (self.headless && self.db is None),
    {
        self.headless && self.db.is_none()
    }

    /// What to fetch to seed the store.
    pub fn seed(&self) -> (r: Seed)
        ensures
            match (self.block, self.transaction) {
                (Some(id), None) => r == Seed::Block(id),
                (None, Some(hash)) => r == Seed::BlockOf(hash),
                _ => r == Seed::Block(BlockId::Latest),
            },
    {
        seed_request(self.block, self.transaction)
    }
}

} // verus!
