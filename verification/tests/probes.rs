use evm_rpc_harness::chain::ChainType;
use evm_rpc_harness::checks::Check;
use evm_rpc_harness::failure::Failure;
use evm_rpc_harness::json::Json;
use evm_rpc_harness::probe::Probe;
use evm_rpc_harness::replies::show_broken_off;
use evm_rpc_harness::steps::{Call, Next, Reply, Stage, Step, Wants};

fn json(s: &str) -> Json {
    Json::parse(s).ok().unwrap()
}

fn start(check: Check) -> (Probe, Call) {
    Probe::start(check, &ChainType::Ethereum)
}

fn shown(call: &Call) -> String {
    format!("{}{}", call.method, call.params.text())
}

fn give(probe: &Probe, reply: Reply) -> Step {
    assert!(probe.admits(&reply));
    probe.resume(Ok(reply))
}

fn text(check: Check, s: &str) -> Step {
    let (probe, call) = start(check);
    assert!(call.wants == Wants::Text);
    give(&probe, Reply::Text(s.to_string()))
}

fn value(check: Check, s: &str) -> Step {
    let (probe, call) = start(check);
    assert!(call.wants == Wants::Value);
    give(&probe, Reply::Value(json(s)))
}

/// The lines of a step that passes.
fn passes(step: Step) -> Vec<String> {
    assert!(matches!(step.next, Next::Pass));
    step.lines
}

/// The lines and the message of a step that fails.
fn fails(step: Step) -> (Vec<String>, String) {
    match step.next {
        Next::Fail(f) => (step.lines, f.message),
        _ => panic!("the check did not fail"),
    }
}

/// The call of a step that goes on, and the check in its next stage.
fn goes_on(check: Check, step: Step) -> (String, Probe) {
    assert!(step.lines.is_empty());
    match step.next {
        Next::Call(call, stage) => (shown(&call), Probe { check, stage }),
        _ => panic!("the check did not go on"),
    }
}

/// The call that a check makes after its first result, and what it makes of the
/// result of that.
fn second(check: Check, first: Reply, result: &str) -> (String, Step) {
    let (probe, _) = start(check);
    let (call, probe) = goes_on(check, give(&probe, first));
    let step = give(&probe, Reply::Value(json(result)));
    (call, step)
}

const BLOCK: &str = "{\"transactions\":[{\"hash\":\"0xfe\"},{\"hash\":\"0xff\"}]}";

#[test]
fn first_calls_are_as_documented() {
    let usdc = "0xA0b86991c6218b36c1d19D4a2e9Eb0cE3606eB48";
    let zero = "0x0000000000000000000000000000000000000000";
    let one = "0x0000000000000000000000000000000000000001";
    let two = "0x0000000000000000000000000000000000000002";
    let transfer = format!("\"from\":\"{one}\",\"to\":\"{two}\",\"value\":\"0x1\"");
    for (check, expected) in [
        (Check::EthChainId, "eth_chainId[]".to_string()),
        (Check::EthGetBalance, format!("eth_getBalance[\"{zero}\",\"latest\"]")),
        (
            Check::EthGetTransactionCount,
            format!("eth_getTransactionCount[\"{usdc}\",\"latest\"]"),
        ),
        (
            Check::EthGetBlockByNumber,
            "eth_getBlockByNumber[\"latest\",false]".to_string(),
        ),
        (
            Check::EthGetBlockWithTxs,
            "eth_getBlockByNumber[\"latest\",true]".to_string(),
        ),
        (
            Check::EthCall,
            format!("eth_call[{{\"data\":\"0x\",\"to\":\"{zero}\"}},\"latest\"]"),
        ),
        (Check::EthEstimateGas, format!("eth_estimateGas[{{{transfer}}}]")),
        (
            Check::EthFeeHistory,
            "eth_feeHistory[4,\"latest\",[25,50,75]]".to_string(),
        ),
        (
            Check::EthGetLogs,
            format!(
                "eth_getLogs[{{\"address\":\"{usdc}\",\"fromBlock\":\"latest\",\"toBlock\":\"latest\"}}]"
            ),
        ),
        (
            Check::EthEstimateGasBundle,
            format!(
                "eth_estimateGasBundle[{{\"blockNumber\":\"0x1\",\"stateBlockNumber\":\"latest\",\"txs\":[{{\"from\":\"{one}\",\"gas\":\"0x5208\",\"to\":\"{two}\",\"value\":\"0x1\"}}]}}]"
            ),
        ),
        (
            Check::EthSimulateV1,
            format!(
                "eth_simulateV1[{{\"blockStateCalls\":[{{\"blockOverrides\":{{\"number\":\"0x1\"}},\"calls\":[{{{transfer}}}]}}]}},\"latest\"]"
            ),
        ),
        (
            Check::EthCalls,
            format!(
                "eth_calls[[{{\"data\":\"0x18160ddd\",\"to\":\"{usdc}\"}},{{\"data\":\"0x70a08231{}\",\"to\":\"{usdc}\"}}],\"latest\"]",
                "0".repeat(64)
            ),
        ),
        (
            Check::DebugTraceBlockByNumber,
            "debug_traceBlockByNumber[\"latest\",{\"tracer\":\"callTracer\"}]".to_string(),
        ),
        (Check::EthGetFinalizedBlock, "eth_getFinalizedBlock[false]".to_string()),
        (Check::TraceBlock, "trace_block[\"latest\"]".to_string()),
        (Check::AdminPeers, "admin_peers[]".to_string()),
    ] {
        let (_, call) = start(check);
        assert_eq!(shown(&call), expected);
    }
}

#[test]
fn the_sample_contract_is_that_of_the_chain() {
    let (_, call) = Probe::start(Check::EthGetCode, &ChainType::BSC);
    assert_eq!(
        shown(&call),
        "eth_getCode[\"0x55d398326f99059fF775485246999027E3197955\",\"latest\"]"
    );
}

#[test]
fn quantities_are_shown_in_decimal() {
    assert_eq!(
        passes(text(Check::EthChainId, "0xa")),
        ["  Chain ID: 0xa (10 - Optimism)"]
    );
    assert_eq!(
        passes(text(Check::EthBlockNumber, "0x10")),
        ["  Current block: 0x10 (16)"]
    );
    assert_eq!(
        passes(text(Check::EthGasPrice, "0x77359400")),
        ["  Gas price: 0x77359400 wei (2 gwei)"]
    );
    assert_eq!(
        passes(text(Check::EthGetTransactionCount, "0x2")),
        ["  Transaction count: 0x2 (2)"]
    );
    assert_eq!(
        passes(text(Check::EthEstimateGas, "0x5208")),
        ["  Estimated gas: 0x5208 (21000)"]
    );
    for check in [
        Check::EthChainId,
        Check::EthBlockNumber,
        Check::EthGasPrice,
        Check::EthGetTransactionCount,
        Check::EthEstimateGas,
    ] {
        let (lines, message) = fails(text(check, "0xg"));
        assert!(lines.is_empty());
        assert_eq!(message, "invalid digit found in string");
    }
}

#[test]
fn the_first_block_is_not_enough() {
    let (lines, message) = fails(text(Check::EthBlockNumber, "0x0"));
    assert_eq!(lines, ["  Current block: 0x0 (0)"]);
    assert_eq!(message, "Block number should be greater than 0");
}

#[test]
fn some_results_must_be_prefixed() {
    assert_eq!(
        passes(text(Check::EthGetBalance, "0x5")),
        ["  Balance of zero address: 0x5"]
    );
    let (lines, message) = fails(text(Check::EthGetBalance, "5"));
    assert_eq!(lines, ["  Balance of zero address: 5"]);
    assert_eq!(message, "Balance should start with 0x");
    assert_eq!(passes(text(Check::EthCall, "0x")), ["  Call result: 0x"]);
    assert_eq!(fails(text(Check::EthCall, "")).1, "Call result should start with 0x");
}

#[test]
fn versions_are_shown() {
    assert_eq!(passes(text(Check::NetVersion, "1")), ["  Network version: 1"]);
    assert_eq!(
        passes(text(Check::Web3ClientVersion, "Geth")),
        ["  Client version: Geth"]
    );
}

#[test]
fn code_is_measured_in_bytes() {
    assert_eq!(
        passes(text(Check::EthGetCode, "0x6001")),
        ["  Contract code length: 2 bytes"]
    );
    assert_eq!(
        passes(text(Check::EthGetCode, "é1")),
        ["  Contract code length: 0 bytes"]
    );
    for s in ["0x", "", "0"] {
        assert_eq!(
            passes(text(Check::EthGetCode, s)),
            ["  No code at address (EOA or empty)"]
        );
    }
}

#[test]
fn a_block_must_have_a_number_and_a_hash() {
    let check = Check::EthGetBlockByNumber;
    assert_eq!(
        passes(value(check, "{\"number\":\"0x1f\",\"hash\":null}")),
        ["  Block number: 0x1f (31)"]
    );
    assert_eq!(fails(value(check, "{}")).1, "Block should have number field");
    assert_eq!(fails(value(check, "null")).1, "Block should have number field");
    assert_eq!(
        fails(value(check, "{\"number\":\"0x\"}")).1,
        "cannot parse integer from empty string"
    );
    let (lines, message) = fails(value(check, "{\"number\":\"0x1\"}"));
    assert_eq!(lines, ["  Block number: 0x1 (1)"]);
    assert_eq!(message, "Block should have hash field");
}

#[test]
fn a_block_is_found_by_its_hash() {
    let check = Check::EthGetBlockByHash;
    let first = || Reply::Value(json("{\"hash\":\"0xaa\"}"));
    let (call, step) = second(check, first(), "{\"number\":\"0x5\"}");
    assert_eq!(call, "eth_getBlockByHash[\"0xaa\",false]");
    assert_eq!(passes(step), ["  Block by hash 0xaa: 0x5"]);
    let (_, step) = second(check, first(), "{}");
    assert_eq!(fails(step).1, "Block should have number field");
    assert_eq!(fails(value(check, "{\"hash\":1}")).1, "Block should have hash field");
}

#[test]
fn lists_are_counted_or_demanded() {
    for (check, line, message) in [
        (Check::EthGetLogs, "  Found 2 logs in latest block", "Logs should be an array"),
        (
            Check::DebugTraceBlockByNumber,
            "  Traced 2 transactions in latest block",
            "Trace should be an array",
        ),
        (Check::AdminPeers, "  Connected peers: 2", "Peers should be an array"),
        (Check::TraceBlock, "  Found 2 traces in latest block", "Trace should be an array"),
    ] {
        assert_eq!(passes(value(check, "[1,2]")), [line]);
        assert_eq!(fails(value(check, "{}")).1, message);
    }
    assert_eq!(
        passes(value(Check::EthGetBlockWithTxs, BLOCK)),
        ["  Latest block has 2 transactions"]
    );
    assert_eq!(
        fails(value(Check::EthGetBlockWithTxs, "[]")).1,
        "Block should have transactions array"
    );
}

#[test]
fn lists_are_counted_where_they_are() {
    for (check, full, line) in [
        (
            Check::EthEstimateGasBundle,
            "{\"results\":[1]}",
            "  Estimated gas for 1 transactions in bundle",
        ),
        (Check::EthSimulateV1, "[1]", "  Simulated 1 blocks"),
        (Check::EthCalls, "[1]", "  Executed 1 calls in sequence"),
        (Check::EthGetBlockReceipts, "[1]", "  Found 1 receipts in latest block"),
        (Check::ParliaGetSnapshot, "{\"validators\":[1]}", "  Validator count: 1"),
    ] {
        assert_eq!(passes(value(check, full)), [line]);
        assert!(passes(value(check, "{\"results\":1}")).is_empty());
    }
}

#[test]
fn a_fee_history_shows_the_latest_fee() {
    let check = Check::EthFeeHistory;
    assert_eq!(
        passes(value(check, "{\"baseFeePerGas\":[\"0x1\",\"0x3b9aca00\"]}")),
        ["  Latest base fee: 0x3b9aca00 wei (1 gwei)"]
    );
    assert!(passes(value(check, "{\"baseFeePerGas\":[]}")).is_empty());
    assert!(passes(value(check, "{\"baseFeePerGas\":[\"0x1\",2]}")).is_empty());
    assert_eq!(
        fails(value(check, "{}")).1,
        "Fee history should have baseFeePerGas"
    );
    assert_eq!(
        fails(value(check, "{\"baseFeePerGas\":[\"q\"]}")).1,
        "invalid digit found in string"
    );
    let (probe, _) = start(check);
    assert!(!probe.admits(&Reply::Value(json("{\"baseFeePerGas\":1}"))));
}

#[test]
fn the_latest_transaction_is_followed() {
    let none = "{\"transactions\":[]}";
    let odd = "{\"transactions\":[{\"hash\":1},{\"hash\":\"0x1\"}]}";
    for (check, call, result, lines, nothing) in [
        (
            Check::EthGetTransactionReceipt,
            "eth_getTransactionReceipt[\"0xfe\"]",
            "{\"status\":\"0x1\",\"gasUsed\":21000}",
            vec!["  Receipt status: \"0x1\"", "  Gas used: 21000"],
            "  No transactions in latest block to get receipt",
        ),
        (
            Check::EthGetTransactionByHash,
            "eth_getTransactionByHash[\"0xfe\"]",
            "{\"from\":\"0xa\"}",
            vec!["  Transaction from: \"0xa\""],
            "  No transactions found in latest block",
        ),
        (
            Check::DebugTraceTransaction,
            "debug_traceTransaction[\"0xfe\",{\"tracer\":\"callTracer\"}]",
            "{\"type\":\"CALL\"}",
            vec!["  Trace type: CALL"],
            "  No transactions found to trace",
        ),
        (
            Check::TraceTransaction,
            "trace_transaction[\"0xfe\"]",
            "[1,2,3]",
            vec!["  Found 3 traces for transaction"],
            "  No transactions found to trace",
        ),
    ] {
        let (made, step) = second(check, Reply::Value(json(BLOCK)), result);
        assert_eq!(made, call);
        assert_eq!(passes(step), lines);
        assert_eq!(passes(value(check, none)), [nothing]);
        assert_eq!(passes(value(check, odd)), [nothing]);
        assert_eq!(fails(value(check, "{}")).1, "No transactions array");
    }
    let follow = |check, result| second(check, Reply::Value(json(BLOCK)), result).1;
    assert!(passes(follow(Check::EthGetTransactionReceipt, "null")).is_empty());
    assert!(passes(follow(Check::EthGetTransactionByHash, "{}")).is_empty());
    assert_eq!(
        passes(follow(Check::DebugTraceTransaction, "{}")),
        ["  Trace type: unknown"]
    );
    assert_eq!(
        fails(follow(Check::TraceTransaction, "{}")).1,
        "Trace should be an array"
    );
}

#[test]
fn the_current_block_is_used() {
    let number = || Reply::Text("0x2a".to_string());
    let (call, step) =
        second(Check::EthCallBundle, number(), "{\"results\":[],\"totalGasUsed\":5}");
    assert_eq!(
        call,
        "eth_callBundle[{\"blockNumber\":\"0x2a\",\"stateBlockNumber\":\"latest\",\"txs\":[]}]"
    );
    assert_eq!(passes(step), ["  Bundle simulation completed", "  Total gas used: 5"]);
    assert!(passes(second(Check::EthCallBundle, number(), "[]").1).is_empty());

    let (call, step) = second(Check::EthCallMany, number(), "null");
    assert_eq!(
        call,
        "eth_callMany[[{\"blockOverride\":{\"blockNumber\":\"0x2a\"},\"transactions\":[{\"data\":\"0x18160ddd\",\"to\":\"0x4200000000000000000000000000000000000006\"}]}],{},{}]"
    );
    assert_eq!(passes(step), ["  Executed eth_callMany successfully"]);

    let (call, step) = second(Check::ParliaGetValidators, number(), "[1]");
    assert_eq!(call, "parlia_getValidators[\"0x2a\"]");
    assert_eq!(passes(step), ["  Active validators: 1"]);
    assert!(passes(second(Check::ParliaGetValidators, number(), "{}").1).is_empty());

    let (call, step) = second(Check::ArbGetL1Confirmations, number(), "{\"n\":1}");
    assert_eq!(call, "arb_getL1Confirmations[\"0x2a\"]");
    assert_eq!(passes(step), ["  L1 confirmations: {\"n\":1}"]);
}

#[test]
fn the_pool_is_shown() {
    assert_eq!(
        passes(value(Check::TxpoolStatus, "{\"pending\":\"0x1\",\"queued\":2}")),
        ["  Pending: 0x1, Queued: 0"]
    );
    assert_eq!(
        passes(value(
            Check::TxpoolContent,
            "{\"pending\":{\"0xa\":{},\"0xb\":{}},\"queued\":[1]}"
        )),
        ["  Pending accounts: 2, Queued accounts: 0"]
    );
}

#[test]
fn a_node_describes_itself() {
    let check = Check::AdminNodeInfo;
    let enode = "e".repeat(60);
    assert_eq!(
        passes(value(check, &format!("{{\"name\":\"Geth\",\"enode\":\"{enode}\"}}"))),
        vec!["  Node name: Geth".to_string(), format!("  Enode: {}...", &enode[..50])]
    );
    assert_eq!(
        passes(value(check, "{\"enode\":\"enode://é\"}")),
        ["  Enode: enode://é..."]
    );
    assert!(passes(value(check, "{\"name\":1}")).is_empty());
    let (probe, _) = start(check);
    let cut = format!("{{\"enode\":\"{}é\"}}", "e".repeat(49));
    assert!(!probe.admits(&Reply::Value(json(&cut))));
    let named = format!("{{\"name\":\"Geth\",\"enode\":\"{}é\"}}", "e".repeat(49));
    assert!(!probe.admits(&Reply::Value(json(&named))));
    assert_eq!(show_broken_off(check, &json(&named)), ["  Node name: Geth"]);
    assert!(show_broken_off(check, &json(&cut)).is_empty());
    assert!(show_broken_off(Check::EthFeeHistory, &json(&named)).is_empty());
    let whole = format!("{{\"enode\":\"{}é\"}}", "e".repeat(48));
    assert_eq!(
        passes(value(check, &whole)),
        [format!("  Enode: {}é...", "e".repeat(48))]
    );
}

#[test]
fn finality_and_output_roots_are_shown() {
    assert_eq!(
        passes(value(Check::EthGetFinalizedHeader, "{\"number\":\"0x1\"}")),
        ["  Finalized block: \"0x1\""]
    );
    assert!(passes(value(Check::EthGetFinalizedHeader, "null")).is_empty());
    assert_eq!(
        passes(value(Check::EthGetFinalizedBlock, "{\"number\":7,\"transactions\":[1,2]}")),
        ["  Finalized block number: 7", "  Transactions: 2"]
    );
    assert_eq!(
        passes(value(Check::OptimismOutputAtBlock, "{\"outputRoot\":null}")),
        ["  Output root available: true"]
    );
    assert_eq!(
        passes(value(Check::OptimismOutputAtBlock, "{}")),
        ["  Output root available: false"]
    );
}

#[test]
fn recent_blocks_are_searched_for_a_transaction() {
    let check = Check::EthGetTransactionByBlockHashAndIndex;
    let (probe, call) = start(check);
    assert_eq!(shown(&call), "eth_getBlockByNumber[\"latest\",false]");
    let empty = "{\"hash\":\"0xb0\",\"transactions\":[]}";
    let (call, probe) = goes_on(check, give(&probe, Reply::Value(json(empty))));
    assert_eq!(call, "eth_blockNumber[]");
    assert!(matches!(probe.stage, Stage::ScanNumber(1)));
    let (call, probe) = goes_on(check, give(&probe, Reply::Text("0x100".to_string())));
    assert_eq!(call, "eth_getBlockByNumber[\"0xff\",false]");
    let full = "{\"hash\":\"0xb1\",\"transactions\":[\"0x1\"]}";
    let (call, probe) = goes_on(check, give(&probe, Reply::Value(json(full))));
    assert_eq!(call, "eth_getTransactionByBlockHashAndIndex[\"0xb1\",\"0x0\"]");
    let found = give(&probe, Reply::Value(json("{\"hash\":\"0x1\"}")));
    assert_eq!(passes(found), ["  Transaction at index 0: \"0x1\""]);
    // a transaction without a hash is passed over
    let (call, probe) = goes_on(check, give(&probe, Reply::Value(json("{}"))));
    assert_eq!(call, "eth_blockNumber[]");
    // the first block is as far back as it goes
    let (call, _) = goes_on(check, give(&probe, Reply::Text("0x1".to_string())));
    assert_eq!(call, "eth_getBlockByNumber[\"0x0\",false]");
    assert_eq!(fails(give(&probe, Reply::Text("?".to_string()))).1, "invalid digit found in string");
}

#[test]
fn the_search_ends_after_ten_blocks() {
    let check = Check::EthGetTransactionByBlockHashAndIndex;
    let (mut probe, _) = start(check);
    let empty = "{\"hash\":\"0xb0\",\"transactions\":[]}";
    for _ in 0..9 {
        let (_, next) = goes_on(check, give(&probe, Reply::Value(json(empty))));
        let (_, next) = goes_on(check, give(&next, Reply::Text("0x100".to_string())));
        probe = next;
    }
    assert!(matches!(probe.stage, Stage::ScanBlock(9)));
    assert_eq!(
        passes(give(&probe, Reply::Value(json(empty)))),
        ["  No transactions found in recent blocks (this is OK for test nets)"]
    );
}

#[test]
fn a_searched_block_must_be_whole() {
    let check = Check::EthGetTransactionByBlockHashAndIndex;
    assert_eq!(fails(value(check, "{}")).1, "Block should have hash");
    assert_eq!(
        fails(value(check, "{\"hash\":\"0x1\"}")).1,
        "Block should have transactions array"
    );
}

#[test]
fn a_failed_call_fails_the_check() {
    for check in [Check::EthChainId, Check::EthGetBlockByHash, Check::EthCallMany] {
        let (probe, _) = start(check);
        let f = Failure::new("io".to_string()).context("Failed to send RPC request".to_string());
        match probe.resume(Err(f)).next {
            Next::Fail(f) => assert_eq!(f.detail(), "Failed to send RPC request: io"),
            _ => panic!("the check did not fail"),
        }
    }
}

#[test]
fn results_of_the_wrong_form_are_not_admitted() {
    let (probe, _) = start(Check::EthChainId);
    assert!(!probe.admits(&Reply::Value(Json::Null)));
    let (probe, _) = start(Check::EthGetLogs);
    assert!(!probe.admits(&Reply::Text("x".to_string())));
}
