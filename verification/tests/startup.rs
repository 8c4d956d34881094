use evm_rpc_harness::chain::ChainType;
use evm_rpc_harness::detect::{Startup, banner, detect_chain, detect_node, http_url, setting_lines};
use evm_rpc_harness::failure::Failure;
use evm_rpc_harness::node::NodeType;

fn down() -> Result<String, Failure> {
    Err(Failure::new("down".to_string()))
}

fn text(s: &str) -> Result<String, Failure> {
    Ok(s.to_string())
}

#[test]
fn first_calls_go_over_http() {
    for (url, http) in [
        ("ws://node", "http://node"),
        ("wss://node", "https://node"),
        ("http://node", "http://node"),
        ("https://ws://node", "https://ws://node"),
        ("ws://a?b=ws://c", "http://a?b=http://c"),
        ("wss://a?b=ws://c", "https://a?b=ws://c"),
    ] {
        assert_eq!(http_url(url), http);
    }
}

#[test]
fn the_banner_names_the_connection() {
    assert_eq!(
        banner("1.2.3", "wss://n", 30),
        [
            "Multi-Chain EVM RPC Test Harness v1.2.3",
            "RPC URL: wss://n",
            "Connection type: WebSocket",
            "Timeout: 30s",
        ]
    );
    assert_eq!(banner("0", "http://n", 0)[2], "Connection type: HTTP");
}

#[test]
fn the_node_tells_its_chain() {
    assert_eq!(detect_chain(text("0x1")), ChainType::Ethereum);
    assert_eq!(detect_chain(text("0xa4b1")), ChainType::Arbitrum);
    assert_eq!(detect_chain(text("nonsense")), ChainType::Unknown);
    assert_eq!(detect_chain(down()), ChainType::Unknown);
}

#[test]
fn the_address_hints_at_the_node() {
    for (url, node, line) in [
        ("http://my-reth:8545", NodeType::Reth, "Detected Reth from URL"),
        ("http://GETH", NodeType::Geth, "Detected Geth from URL"),
        ("http://reth-geth", NodeType::Reth, "Detected Reth from URL"),
        ("http://unichain", NodeType::OpGeth, "Detected op-geth from URL"),
        ("http://ink.example", NodeType::OpGeth, "Detected op-geth from URL"),
        ("http://bsc", NodeType::BSCGeth, "Detected BSC-Geth from URL"),
        ("http://Reth", NodeType::Unknown, "Could not detect node type"),
    ] {
        let (found, lines) = detect_node(url, down());
        assert_eq!(found, node, "{url}");
        assert_eq!(
            lines,
            ["web3_clientVersion not available, detecting from URL...", line]
        );
    }
    let (found, lines) = detect_node("http://reth", text("Geth/v1"));
    assert_eq!(found, NodeType::Geth);
    assert_eq!(lines, ["Client version: Geth/v1"]);
}

#[test]
fn a_named_chain_is_not_asked_for() {
    let s = Startup::begin("BSC");
    assert_eq!(s.lines(), ["Detecting node type..."]);
    assert_eq!(s.call().unwrap().method, "web3_clientVersion");
    let (s, _) = s.on_reply("u", text("reth"));
    assert!(matches!(s, Startup::Ready(ChainType::BSC, NodeType::Reth)));
    assert!(s.call().is_none());
}

#[test]
fn an_unknown_chain_is_asked_for() {
    for name in ["auto", "polygon"] {
        let s = Startup::begin(name);
        assert_eq!(s.lines(), ["Auto-detecting chain type..."]);
        let call = s.call().unwrap();
        assert_eq!((call.method.as_str(), call.params.text().as_str()), ("eth_chainId", "[]"));
        let (s, lines) = s.on_reply("u", text("0x2105"));
        assert!(lines.is_empty());
        assert!(matches!(s, Startup::AskVersion(ChainType::Base)));
        let (s, lines) = s.on_reply("u", down());
        assert_eq!(lines.len(), 2);
        assert!(matches!(s, Startup::Ready(ChainType::Base, NodeType::Unknown)));
    }
}

#[test]
fn the_setting_is_shown() {
    assert_eq!(
        setting_lines(&ChainType::BSC, &NodeType::BSCGeth, &Some("eth".to_string())),
        [
            "Chain type: BNB Smart Chain (BSC)",
            "Node type: BSC-Geth\n",
            "Filter: Only running tests matching 'eth'\n",
        ]
    );
    assert_eq!(setting_lines(&ChainType::Base, &NodeType::Reth, &None).len(), 2);
}
