use evm_rpc_harness::chain::ChainType;
use evm_rpc_harness::node::NodeType;
use evm_rpc_harness::plan::{Item, Options, plan};

fn shown(chain: ChainType, node: NodeType, ws: bool, skip: bool, feeds: bool) -> Vec<String> {
    let options = Options {
        skip_chain_specific: skip,
        test_subscriptions: feeds,
        subscription_duration: 5,
    };
    plan(&chain, &node, ws, &options)
        .into_iter()
        .map(|item| match item {
            Item::Print(s) => s,
            Item::Run(check, true) => format!("{}?", check.name()),
            Item::Run(check, false) => check.name().to_string(),
            Item::Listen(feed) => feed.name().to_string(),
        })
        .collect()
}

const CORE: [&str; 19] = [
    "=== Core EVM RPC Methods ===\n",
    "eth_chainId",
    "eth_blockNumber",
    "eth_gasPrice",
    "eth_getBalance",
    "eth_getTransactionCount",
    "eth_getBlockByNumber (no txs)",
    "eth_getBlockByHash",
    "eth_getBlockByNumber (with txs)",
    "eth_getTransactionByBlockHashAndIndex",
    "eth_call",
    "eth_estimateGas",
    "eth_feeHistory",
    "eth_getLogs",
    "eth_getCode",
    "eth_getTransactionReceipt",
    "eth_getTransactionByHash",
    "net_version",
    "web3_clientVersion",
];

#[test]
fn the_shortest_run_is_the_core() {
    assert_eq!(shown(ChainType::BSC, NodeType::Geth, true, true, false), CORE);
}

#[test]
fn geth_has_the_longest_list() {
    let all = shown(ChainType::Ethereum, NodeType::Geth, false, false, false);
    assert_eq!(all[..19], CORE);
    assert_eq!(
        all[19..],
        [
            "\n=== Ethereum Mainnet ===\n",
            "\n=== Geth-Specific Methods ===\n",
            "eth_estimateGasBundle?",
            "eth_callBundle?",
            "eth_simulateV1?",
            "eth_calls?",
            "eth_getBlockReceipts?",
            "debug_traceTransaction?",
            "debug_traceBlockByNumber?",
            "txpool_status?",
            "txpool_content?",
            "admin_nodeInfo?",
            "admin_peers?",
        ]
    );
}

#[test]
fn other_chains_and_nodes_have_their_own_lists() {
    let all = shown(ChainType::BSC, NodeType::BSCGeth, false, false, false);
    assert_eq!(
        all[19..],
        [
            "\n=== BSC-Specific Methods ===\n",
            "parlia_getSnapshot?",
            "parlia_getValidators?",
            "eth_getFinalizedHeader?",
            "eth_getFinalizedBlock?",
            "\n=== BSC-Geth Methods (Standard Geth APIs only) ===\n",
            "debug_traceTransaction?",
            "debug_traceBlockByNumber?",
            "txpool_status?",
            "txpool_content?",
            "admin_nodeInfo?",
            "admin_peers?",
        ]
    );
    let all = shown(ChainType::Base, NodeType::OpReth, false, false, false);
    assert_eq!(
        all[19..],
        [
            "\n=== Base (no chain-specific methods) ===\n",
            "optimism_outputAtBlock?",
            "\n=== Reth-Specific Methods ===\n",
            "eth_callMany?",
            "trace_transaction?",
            "trace_block?",
        ]
    );
    let all = shown(ChainType::Arbitrum, NodeType::Nitro, false, false, false);
    assert_eq!(
        all[19..],
        [
            "\n=== Arbitrum-Specific Methods ===\n",
            "arb_getL1Confirmations?",
            "\n=== Arbitrum Nitro Node ===\n",
        ]
    );
    let all = shown(ChainType::Optimism, NodeType::OpGeth, false, false, false);
    assert_eq!(
        all[19..22],
        [
            "\n=== Optimism-Specific Methods ===\n",
            "optimism_outputAtBlock?",
            "\n=== op-geth Methods (Standard Geth APIs only) ===\n",
        ]
    );
    let all = shown(ChainType::Unknown, NodeType::Unknown, false, false, false);
    assert_eq!(
        all[19..],
        [
            "\n=== Unknown chain - skipping chain-specific tests ===\n",
            "\n=== Unknown node type - skipping node-specific tests ===\n",
        ]
    );
}

#[test]
fn feeds_come_last_and_need_a_websocket() {
    let all = shown(ChainType::Base, NodeType::Reth, true, true, true);
    assert_eq!(
        all[19..],
        [
            "\n=== WebSocket Subscription Tests ===\n",
            "Listening duration: 5s per subscription\n",
            "eth_subscribe (newHeads)",
            "eth_subscribe (logs)",
            "eth_subscribe (newPendingTransactions)",
            "eth_subscribe (syncing)",
        ]
    );
    let all = shown(ChainType::Base, NodeType::Reth, false, true, true);
    assert_eq!(
        all[19..],
        [
            "\n=== WebSocket Subscription Tests ===\n",
            "⚠ Skipped: WebSocket URL required (use ws:// or wss://)\n",
        ]
    );
}

#[test]
fn core_checks_and_feeds_must_pass() {
    let options = Options {
        skip_chain_specific: false,
        test_subscriptions: true,
        subscription_duration: 5,
    };
    let items = plan(&ChainType::BSC, &NodeType::Geth, true, &options);
    for (i, item) in items.iter().enumerate() {
        match (item, item.entry()) {
            (Item::Print(_), entry) => assert!(entry.is_none()),
            (Item::Run(check, _), entry) => assert_eq!(entry, Some((check.name(), i >= CORE.len()))),
            (Item::Listen(feed), entry) => assert_eq!(entry, Some((feed.name(), false))),
        }
    }
}
