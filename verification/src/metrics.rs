//! The metrics endpoint: what is exposed, and how a request is answered.
use crate::ingest::Counters;
use crate::text::text_equal;
use vstd::prelude::*;

verus! {

/// The one path that the endpoint serves.
pub const METRICS_PATH: &'static str = "/metrics";

/// The name of the gauge that counts requests made to the node.
pub const RPC_REQUESTS: &'static str = "rpc_requests";

/// The help text of the gauge that counts requests made to the node.
pub const RPC_REQUESTS_HELP: &'static str = "The number of requests made to the RPC node";

/// The name of the gauge that counts blocks added to the index.
pub const BLOCKS_ADDED: &'static str = "blocks_added";

/// The help text of the gauge that counts blocks added to the index.
pub const BLOCKS_ADDED_HELP: &'static str = "The number of blocks added to the index";

/// The name of the gauge that counts failed requests to the node.
pub const FAILED_RPC_REQUESTS: &'static str = "failed_rpc_requests";

/// The help text of the gauge that counts failed requests to the node.
pub const FAILED_RPC_REQUESTS_HELP: &'static str =
    "The number of requests made to the RPC node that have received an error response";

/// The body of the answer to a request for any other path.
pub const NOT_FOUND_BODY: &'static str = "Not Found";

/// The body of the answer when the metrics cannot be rendered.
pub const ENCODE_FAILED_BODY: &'static str = "Failed to encode metrics";

/// The values of the three gauges, as the exposition format takes them.
#[derive(Clone, Copy, Debug, PartialEq, Eq, Structural)]
pub struct Metrics {
    pub rpc_requests: i64,
    pub blocks_added: i64,
    pub failed_rpc_requests: i64,
}

/// The value of a gauge for a counter: the counter itself, or the greatest
/// value of a gauge where the counter exceeds it.
pub open spec fn gauge_of(counter: u64) -> i64 {
    if counter <= i64::MAX {
        counter as i64
    } else {
        i64::MAX
    }
}

fn gauge(counter: u64) -> (r: i64)
    ensures
        r == gauge_of(counter),
{
    if counter <= 0x7fff_ffff_ffff_ffff {
        counter as i64
    } else {
        0x7fff_ffff_ffff_ffff
    }
}

impl Metrics {
    /// All gauges at zero.
    pub fn new() -> (r: Self)
        ensures
            r == (Metrics { rpc_requests: 0, blocks_added: 0, failed_rpc_requests: 0 }),
    {
        Metrics { rpc_requests: 0, blocks_added: 0, failed_rpc_requests: 0 }
    }

    /// The gauges for the counters of the ingestion service.
    pub fn of_counters(counters: &Counters) -> (r: Self)
        ensures
            r == (Metrics {
                rpc_requests: gauge_of(counters.rpc_requests),
                blocks_added: gauge_of(counters.blocks_added),
                failed_rpc_requests: gauge_of(counters.failed_rpc_requests),
            }),
    {
        Metrics {
            rpc_requests: gauge(counters.rpc_requests),
            blocks_added: gauge(counters.blocks_added),
            failed_rpc_requests: gauge(counters.failed_rpc_requests),
        }
    }
}

impl Default for Metrics {
    fn default() -> (r: Self)
        ensures
            r == (Metrics { rpc_requests: 0, blocks_added: 0, failed_rpc_requests: 0 }),
    {
        Metrics::new()
    }
}

/// Gauges never decrease while the counters do not.
pub proof fn lemma_gauges_monotonic(earlier: Counters, later: Counters)
    requires
        later.not_below(earlier),
    ensures
        gauge_of(later.rpc_requests) >= gauge_of(earlier.rpc_requests),
        gauge_of(later.blocks_added) >= gauge_of(earlier.blocks_added),
        gauge_of(later.failed_rpc_requests) >= gauge_of(earlier.failed_rpc_requests),
{
}

/// An answer of the endpoint.
#[derive(Clone, Debug, PartialEq, Eq)]
pub struct Reply {
    /// The HTTP status code.
    pub status: u16,
    /// The content type, where the answer carries one.
    pub content_type: Option<String>,
    /// The body.
    pub body: String,
}

/// An answer as a mathematical value.
pub struct ReplyView {
    pub status: u16,
    pub content_type: Option<Seq<char>>,
    pub body: Seq<char>,
}

impl View for Reply {
    type V = ReplyView;

    open spec fn view(&self) -> ReplyView {
        ReplyView {
            status: self.status,
            content_type: match self.content_type {
                Some(t) => Some(t@),
                None => None,
            },
            body: self.body@,
        }
    }
}

/// Whether a request path asks for the metrics.
pub fn is_metrics_path(path: &str) -> (r: bool)
    ensures
        r == (path@ == METRICS_PATH@),
{
    text_equal(path, METRICS_PATH)
}

/// The answer to a request, given the path it asks for and, for the metrics
/// path, the rendered metrics with their content type, or `None` where
/// rendering failed.
pub open spec fn reply_of(
    path: Seq<char>,
    content_type: Seq<char>,
    rendered: Option<Seq<char>>,
) -> ReplyView {
    if path == METRICS_PATH@ {
        match rendered {
            Some(text) => ReplyView { status: 200, content_type: Some(content_type), body: text },
            None => ReplyView { status: 500, content_type: None, body: ENCODE_FAILED_BODY@ },
        }
    } else {
        ReplyView { status: 404, content_type: None, body: NOT_FOUND_BODY@ }
    }
}

/// Answers a request: the metrics on the metrics path, not-found on any
/// other path.
pub fn serve_metrics(path: &str, content_type: &str, rendered: Option<String>) -> (r: Reply)
    ensures
        r@ == reply_of(
            path@,
            content_type@,
            match rendered {
                Some(t) => Some(t@),
                None => None,
            },
        ),
{
    if is_metrics_path(path) {
        match rendered {
            Some(text) => Reply {
                status: 200,
                content_type: Some(content_type.to_owned()),
                body: text,
            },
            None => Reply {
                status: 500,
                content_type: None,
                body: ENCODE_FAILED_BODY.to_owned(),
            },
        }
    } else {
        Reply { status: 404, content_type: None, body: NOT_FOUND_BODY.to_owned() }
    }
}

} // verus!
