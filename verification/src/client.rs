//! The node client: how an endpoint selects a transport, and what a
//! connected client knows without asking the node.
use crate::model::{Block, Transaction};
use crate::text::{concat, strip_prefix, text_equal, without_prefix};
use vstd::prelude::*;

verus! {

/// The identity of the network that a node serves.
pub type ChainId = u64;

/// Why no client could be made for an endpoint.
#[derive(Clone, Copy, Debug, PartialEq, Eq, Structural)]
pub enum ConnectionError {
    /// The endpoint is not an absolute URL, or is a local-socket URL that
    /// names no socket.
    InvalidEndpoint,
    /// The scheme of the endpoint selects no supported transport.
    UnsupportedScheme,
}

/// Why a node request gave nothing.
#[derive(Clone, Copy, Debug, PartialEq, Eq, Structural)]
pub enum ClientError {
    /// The node has no such block or transaction.
    NotFound,
}

/// The transport that an endpoint selects, with what it needs to connect.
#[derive(Clone, Debug, PartialEq, Eq)]
pub enum Endpoint {
    /// A persistent duplex streaming socket, at this URL.
    Ws(String),
    /// A local inter-process socket, at this path.
    Ipc(String),
}

/// An endpoint as a mathematical value.
pub enum EndpointView {
    Ws(Seq<char>),
    Ipc(Seq<char>),
}

impl View for Endpoint {
    type V = EndpointView;

    open spec fn view(&self) -> EndpointView {
        match self {
            Endpoint::Ws(url) => EndpointView::Ws(url@),
            Endpoint::Ipc(path) => EndpointView::Ipc(path@),
        }
    }
}

/// The scheme and the serialization of the URL that a text parses to, as
/// the `url` crate has them; `None` where the text is no absolute URL.
pub uninterp spec fn url_parts(endpoint: Seq<char>) -> Option<(Seq<char>, Seq<char>)>;

/// Parses an endpoint as a URL and takes its scheme and its serialization.
///
/// Trusted: `Url::parse`, `Url::scheme` and `Url::as_str` of the `url`
/// crate. The contract only gives the result a name: the same text always
/// parses to the same parts.
#[verifier::external_body]
fn parse_url(endpoint: &str) -> (r: Option<(String, String)>)
    ensures
        match r {
            Some((scheme, text)) => url_parts(endpoint@) == Some((scheme@, text@)),
            None => url_parts(endpoint@) is None,
        },
{
    match url::Url::parse(endpoint) {
        Ok(parsed) => Some((parsed.scheme().to_string(), parsed.as_str().to_string())),
        Err(_) => None,
    }
}

/// The endpoint that a URL with the given scheme and serialization stands
/// for. The schemes `ws` and `wss` select the streaming socket; `ipc`
/// selects the local socket at the path that follows `ipc://`.
pub open spec fn endpoint_of(scheme: Seq<char>, text: Seq<char>) -> Result<
    EndpointView,
    ConnectionError,
> {
    if scheme == "ws"@ || scheme == "wss"@ {
        Ok(EndpointView::Ws(text))
    } else if scheme == "ipc"@ {
        match without_prefix(text, "ipc://"@) {
            Some(path) => Ok(EndpointView::Ipc(path)),
            None => Err(ConnectionError::InvalidEndpoint),
        }
    } else {
        Err(ConnectionError::UnsupportedScheme)
    }
}

/// The endpoint that a text stands for.
pub open spec fn endpoint_of_text(endpoint: Seq<char>) -> Result<EndpointView, ConnectionError> {
    match url_parts(endpoint) {
        Some((scheme, text)) => endpoint_of(scheme, text),
        None => Err(ConnectionError::InvalidEndpoint),
    }
}

/// The view of the outcome of a transport selection.
pub open spec fn selected(r: Result<Endpoint, ConnectionError>) -> Result<
    EndpointView,
    ConnectionError,
> {
    match r {
        Ok(e) => Ok(e@),
        Err(e) => Err(e),
    }
}

/// Selects the transport for a parsed URL, given its scheme and its
/// serialization. Any scheme but `ws`, `wss` and `ipc` is an error.
pub fn select_transport(scheme: &str, text: &str) -> (r: Result<Endpoint, ConnectionError>)
    ensures
        selected(r) == endpoint_of(scheme@, text@),
{
    if text_equal(scheme, "ws") || text_equal(scheme, "wss") {
        Ok(Endpoint::Ws(text.to_owned()))
    } else if text_equal(scheme, "ipc") {
        match strip_prefix(text, "ipc://") {
            Some(path) => Ok(Endpoint::Ipc(path)),
            None => Err(ConnectionError::InvalidEndpoint),
        }
    } else {
        Err(ConnectionError::UnsupportedScheme)
    }
}

/// Parses an endpoint and selects its transport. Fails at once, with no
/// retry, where the text is no URL or its scheme is not supported.
pub fn parse_endpoint(endpoint: &str) -> (r: Result<Endpoint, ConnectionError>)
    ensures
        selected(r) == endpoint_of_text(endpoint@),
{
    match parse_url(endpoint) {
        Some((scheme, text)) => select_transport(scheme.as_str(), text.as_str()),
        None => Err(ConnectionError::InvalidEndpoint),
    }
}

/// A client connected over the streaming socket.
#[derive(Clone, Debug, PartialEq, Eq)]
pub struct WsClient {
    pub url: String,
    pub chain_id: ChainId,
}

/// A client connected over the local socket.
#[derive(Clone, Debug, PartialEq, Eq)]
pub struct IpcClient {
    pub path: String,
    pub chain_id: ChainId,
}

/// A client over whichever transport its endpoint selected. The transport
/// is resolved once, at connection time.
#[derive(Clone, Debug, PartialEq, Eq)]
pub enum AnyClient {
    Ws(WsClient),
    Ipc(IpcClient),
}

impl WsClient {
    /// The client for a streaming-socket URL, with the chain identity that
    /// the node reported at connection time.
    pub fn new(url: String, chain_id: ChainId) -> (r: Self)
        ensures
            r.url@ == url@,
            r.chain_id == chain_id,
    {
        WsClient { url, chain_id }
    }

    /// The URL of the endpoint.
    pub fn url(&self) -> (r: String)
        ensures
            r@ == self.url@,
    {
        self.url.clone()
    }

    /// The chain identity, as cached at connection time.
    pub fn chain_id(&self) -> (r: ChainId)
        ensures
            r == self.chain_id,
    {
        self.chain_id
    }
}

impl IpcClient {
    /// The client for a local socket at a path, which carries no `ipc://`
    /// prefix, with the chain identity that the node reported at connection
    /// time.
    pub fn new(path: String, chain_id: ChainId) -> (r: Self)
        ensures
            r.path@ == path@,
            r.chain_id == chain_id,
    {
        IpcClient { path, chain_id }
    }

    /// The URL of the endpoint: the path behind `ipc://`.
    pub fn url(&self) -> (r: String)
        ensures
            r@ == "ipc://"@ + self.path@,
    {
        concat("ipc://", self.path.as_str())
    }

    /// The chain identity, as cached at connection time.
    pub fn chain_id(&self) -> (r: ChainId)
        ensures
            r == self.chain_id,
    {
        self.chain_id
    }
}

impl AnyClient {
    /// The text of the URL of the endpoint that the client is connected to.
    pub open spec fn spec_url(self) -> Seq<char> {
        match self {
            AnyClient::Ws(c) => c.url@,
            AnyClient::Ipc(c) => "ipc://"@ + c.path@,
        }
    }

    /// The chain identity that the client cached.
    pub open spec fn spec_chain_id(self) -> ChainId {
        match self {
            AnyClient::Ws(c) => c.chain_id,
            AnyClient::Ipc(c) => c.chain_id,
        }
    }

    /// The client for an endpoint, with the chain identity that the node
    /// reported at connection time.
    pub fn new(endpoint: Endpoint, chain_id: ChainId) -> (r: Self)
        ensures
            r.spec_chain_id() == chain_id,
            match endpoint {
                Endpoint::Ws(url) => r matches AnyClient::Ws(c) && c.url@ == url@,
                Endpoint::Ipc(path) => r matches AnyClient::Ipc(c) && c.path@ == path@,
            },
    {
        match endpoint {
            Endpoint::Ws(url) => AnyClient::Ws(WsClient::new(url, chain_id)),
            Endpoint::Ipc(path) => AnyClient::Ipc(IpcClient::new(path, chain_id)),
        }
    }

    /// The URL of the endpoint.
    pub fn url(&self) -> (r: String)
        ensures
            r@ == self.spec_url(),
    {
        match self {
            AnyClient::Ws(c) => c.url(),
            AnyClient::Ipc(c) => c.url(),
        }
    }

    /// The chain identity, as cached at connection time: no request is made.
    pub fn chain_id(&self) -> (r: ChainId)
        ensures
            r == self.spec_chain_id(),
    {
        match self {
            AnyClient::Ws(c) => c.chain_id(),
            AnyClient::Ipc(c) => c.chain_id(),
        }
    }
}

/// The block that a node request found; the not-found error where the node
/// has no such block.
pub fn block(found: Option<Block>) -> (r: Result<Block, ClientError>)
    ensures
        match found {
            Some(b) => r matches Ok(got) && got == b,
            None => r matches Err(ClientError::NotFound),
        },
{
    match found {
        Some(b) => Ok(b),
        None => Err(ClientError::NotFound),
    }
}

/// The transaction that a node request found; the not-found error where
/// the node has no such transaction.
pub fn transaction(found: Option<Transaction>) -> (r: Result<Transaction, ClientError>)
    ensures
        match found {
            Some(t) => r matches Ok(got) && got == t,
            None => r matches Err(ClientError::NotFound),
        },
{
    match found {
        Some(t) => Ok(t),
        None => Err(ClientError::NotFound),
    }
}

} // verus!
