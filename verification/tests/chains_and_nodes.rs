use evm_rpc_harness::chain::ChainType;
use evm_rpc_harness::node::NodeType;

#[test]
fn chain_ids_are_known() {
    for (id, chain) in [
        (1, ChainType::Ethereum),
        (10, ChainType::Optimism),
        (11155420, ChainType::Optimism),
        (42161, ChainType::Arbitrum),
        (421614, ChainType::Arbitrum),
        (8453, ChainType::Base),
        (84532, ChainType::Base),
        (56, ChainType::BSC),
        (97, ChainType::BSC),
        (0, ChainType::Unknown),
        (137, ChainType::Unknown),
    ] {
        assert_eq!(ChainType::from_chain_id(id), chain);
    }
}

#[test]
fn chain_names_are_known_in_any_case() {
    for (name, chain) in [
        ("optimism", ChainType::Optimism),
        ("OP", ChainType::Optimism),
        ("Arbitrum", ChainType::Arbitrum),
        ("arb", ChainType::Arbitrum),
        ("ETHEREUM", ChainType::Ethereum),
        ("eth", ChainType::Ethereum),
        ("geth", ChainType::Ethereum),
        ("bsc", ChainType::BSC),
        ("Binance", ChainType::BSC),
        ("BNB", ChainType::BSC),
        ("base", ChainType::Unknown),
        ("auto", ChainType::Unknown),
        ("", ChainType::Unknown),
    ] {
        assert_eq!(ChainType::from_string(name), chain, "{name}");
    }
    assert_eq!(ChainType::from_lowercase("OP"), ChainType::Unknown);
    assert_eq!(ChainType::from_lowercase("op"), ChainType::Optimism);
}

#[test]
fn chains_have_names_and_contracts() {
    assert_eq!(ChainType::BSC.name(), "BNB Smart Chain (BSC)");
    assert_eq!(ChainType::Base.name(), "Base");
    assert_eq!(ChainType::Unknown.name(), "Unknown");
    assert_eq!(
        ChainType::Ethereum.sample_contract(),
        "0xA0b86991c6218b36c1d19D4a2e9Eb0cE3606eB48"
    );
    assert_eq!(
        ChainType::Base.sample_contract(),
        ChainType::Optimism.sample_contract()
    );
}

#[test]
fn client_versions_are_told_apart() {
    for (version, node) in [
        ("Geth/v1.13.0-stable/linux-amd64/go1.21", NodeType::Geth),
        ("Geth/v1.101-Optimism", NodeType::OpGeth),
        ("Geth/v1.3.0-BSC", NodeType::BSCGeth),
        ("binance-GETH", NodeType::BSCGeth),
        ("reth/v1.0", NodeType::Reth),
        ("op-reth/v1.0", NodeType::OpReth),
        ("Reth optimism", NodeType::OpReth),
        ("NITRO/v3", NodeType::Nitro),
        ("erigon", NodeType::Unknown),
        ("geth and reth", NodeType::Geth),
    ] {
        assert_eq!(NodeType::from_client_version(version), node, "{version}");
    }
    assert_eq!(NodeType::from_lowercase_version("GETH"), NodeType::Unknown);
}

#[test]
fn nodes_have_names_and_namespaces() {
    for (node, name, debug, trace) in [
        (NodeType::Geth, "Geth", true, true),
        (NodeType::Reth, "Reth", false, true),
        (NodeType::OpGeth, "op-geth", true, true),
        (NodeType::OpReth, "op-reth", false, true),
        (NodeType::Nitro, "Nitro", false, false),
        (NodeType::BSCGeth, "BSC-Geth", true, true),
        (NodeType::Unknown, "Unknown", false, false),
    ] {
        assert_eq!(node.name(), name);
        assert_eq!(node.supports_debug_namespace(), debug);
        assert_eq!(node.supports_trace_namespace(), trace);
    }
}
