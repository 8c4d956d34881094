use evm_rpc_harness::chain::ChainType;
use evm_rpc_harness::client::{RpcClient, RpcError, RpcResponse, Transport};
use evm_rpc_harness::json::Json;
use evm_rpc_harness::node::NodeType;

fn client(url: &str, verbose: bool) -> RpcClient {
    RpcClient::new(url.to_string(), verbose, ChainType::Unknown, NodeType::Unknown)
}

#[test]
fn the_address_decides_on_the_transport() {
    for (url, ws) in [
        ("ws://localhost", true),
        ("wss://localhost", true),
        ("http://localhost", false),
        ("https://localhost", false),
        ("wsx://localhost", false),
        ("", false),
    ] {
        let c = client(url, false);
        assert_eq!(c.is_websocket, ws, "{url}");
        assert_eq!(c.transport() == Transport::WebSocket, ws);
    }
}

#[test]
fn requests_are_numbered_from_one() {
    let mut c = client("http://x", false);
    let a = c.request("eth_chainId", Json::list());
    let b = c.request("eth_blockNumber", Json::list());
    assert_eq!((a.id, b.id), (1, 2));
    assert_eq!(a.jsonrpc, "2.0");
    assert_eq!(b.method, "eth_blockNumber");
    assert_eq!(a.params.text(), "[]");
    c.request_id = u64::MAX;
    assert_eq!(c.request("m", Json::Null).id, u64::MAX);
    assert_eq!(c.request("m", Json::Null).id, 0);
}

fn response(result: Option<u8>, error: Option<RpcError>) -> RpcResponse<u8> {
    RpcResponse { jsonrpc: "2.0".to_string(), id: 1, result, error }
}

#[test]
fn a_response_gives_its_result_or_its_error() {
    assert!(matches!(response(Some(7), None).into_result(), Ok(7)));
    let error = RpcError { code: -32601, message: "the method does not exist".to_string() };
    let f = response(Some(7), Some(error)).into_result().err().unwrap();
    assert_eq!(f.message, "RPC error: the method does not exist (code: -32601)");
    assert!(f.causes.is_empty());
    let f = response(None, None).into_result().err().unwrap();
    assert_eq!(f.message, "RPC response missing result field");
}

#[test]
fn traffic_is_shown_on_demand() {
    let quiet = client("http://x", false);
    assert!(quiet.request_lines("t").is_empty());
    assert!(quiet.response_lines(3).is_empty());
    assert!(quiet.message_lines("t").is_empty());
    let http = client("http://x", true);
    assert_eq!(http.request_lines("t"), vec!["  → HTTP Request: t".to_string()]);
    assert_eq!(http.response_lines(3), vec!["  ← Response ID: 3".to_string()]);
    let ws = client("ws://x", true);
    assert_eq!(ws.request_lines("t"), vec!["  → WS Request: t".to_string()]);
    assert_eq!(ws.message_lines("t"), vec!["  ← WS Response: t".to_string()]);
}
