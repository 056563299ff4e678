//! Endpoints, transports and client descriptors.
use blocktop::client::{
    block, parse_endpoint, select_transport, transaction, AnyClient, ClientError,
    ConnectionError, Endpoint, IpcClient, WsClient,
};
use blocktop::model::Block;

#[test]
fn streaming_socket_schemes() {
    assert_eq!(
        parse_endpoint("ws://localhost:8546"),
        Ok(Endpoint::Ws("ws://localhost:8546/".to_string()))
    );
    assert_eq!(
        parse_endpoint("WSS://eth.merkle.io"),
        Ok(Endpoint::Ws("wss://eth.merkle.io/".to_string()))
    );
}

#[test]
fn local_socket_scheme() {
    assert_eq!(
        parse_endpoint("ipc:///tmp/geth.ipc"),
        Ok(Endpoint::Ipc("/tmp/geth.ipc".to_string()))
    );
    assert_eq!(parse_endpoint("ipc:geth.ipc"), Err(ConnectionError::InvalidEndpoint));
}

#[test]
fn other_schemes_are_configuration_errors() {
    assert_eq!(parse_endpoint("http://localhost:8545"), Err(ConnectionError::UnsupportedScheme));
    assert_eq!(parse_endpoint("file:///tmp/x"), Err(ConnectionError::UnsupportedScheme));
    assert_eq!(parse_endpoint("localhost"), Err(ConnectionError::InvalidEndpoint));
    assert_eq!(parse_endpoint(""), Err(ConnectionError::InvalidEndpoint));
}

#[test]
fn transport_by_scheme() {
    assert_eq!(select_transport("ws", "ws://a/"), Ok(Endpoint::Ws("ws://a/".to_string())));
    assert_eq!(select_transport("wss", "wss://a/"), Ok(Endpoint::Ws("wss://a/".to_string())));
    assert_eq!(select_transport("ipc", "ipc://a"), Ok(Endpoint::Ipc("a".to_string())));
    assert_eq!(select_transport("ipc", "ipc:a"), Err(ConnectionError::InvalidEndpoint));
    assert_eq!(select_transport("WS", "ws://a/"), Err(ConnectionError::UnsupportedScheme));
    assert_eq!(select_transport("", ""), Err(ConnectionError::UnsupportedScheme));
}

#[test]
fn client_knows_its_endpoint_and_chain() {
    let ws = AnyClient::new(Endpoint::Ws("wss://eth.merkle.io/".to_string()), 1);
    assert_eq!(ws, AnyClient::Ws(WsClient::new("wss://eth.merkle.io/".to_string(), 1)));
    assert_eq!(ws.url(), "wss://eth.merkle.io/");
    assert_eq!(ws.chain_id(), 1);
    let ipc = AnyClient::new(Endpoint::Ipc("/tmp/geth.ipc".to_string()), 17_000);
    assert_eq!(ipc, AnyClient::Ipc(IpcClient::new("/tmp/geth.ipc".to_string(), 17_000)));
    assert_eq!(ipc.url(), "ipc:///tmp/geth.ipc");
    assert_eq!(ipc.chain_id(), 17_000);
}

#[test]
fn missing_block_is_not_found() {
    assert_eq!(block(None), Err(ClientError::NotFound));
    assert_eq!(block(Some(Block::default())), Ok(Block::default()));
    assert_eq!(transaction(None), Err(ClientError::NotFound));
}
