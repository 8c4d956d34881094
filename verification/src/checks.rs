//! The checks: their names, and the call each begins with.

use crate::chain::{ChainType, contract_of};
use crate::json::{Json, JsonTree, list, object, text, uint};
use crate::steps::{Call, CallView, Stage, StageView, text_call, value_call};
use vstd::prelude::*;

verus! {

/// A check of one RPC method, or of one way to use it.
#[derive(Debug, Clone, Copy, PartialEq, Eq, Structural)]
pub enum Check {
    EthChainId,
    EthBlockNumber,
    EthGasPrice,
    EthGetBalance,
    EthGetTransactionCount,
    EthGetBlockByNumber,
    EthGetBlockByHash,
    EthGetBlockWithTxs,
    EthGetTransactionByBlockHashAndIndex,
    EthCall,
    EthEstimateGas,
    EthFeeHistory,
    EthGetLogs,
    EthGetCode,
    EthGetTransactionReceipt,
    EthGetTransactionByHash,
    NetVersion,
    Web3ClientVersion,
    EthEstimateGasBundle,
    EthCallBundle,
    EthSimulateV1,
    EthCalls,
    EthGetBlockReceipts,
    DebugTraceTransaction,
    DebugTraceBlockByNumber,
    TxpoolStatus,
    TxpoolContent,
    AdminNodeInfo,
    AdminPeers,
    EthCallMany,
    TraceTransaction,
    TraceBlock,
    ParliaGetSnapshot,
    ParliaGetValidators,
    EthGetFinalizedHeader,
    EthGetFinalizedBlock,
    OptimismOutputAtBlock,
    ArbGetL1Confirmations,
}

/// The name of a check.
pub open spec fn check_name(check: Check) -> Seq<char> {
    match check {
        Check::EthChainId => "eth_chainId"@,
        Check::EthBlockNumber => "eth_blockNumber"@,
        Check::EthGasPrice => "eth_gasPrice"@,
        Check::EthGetBalance => "eth_getBalance"@,
        Check::EthGetTransactionCount => "eth_getTransactionCount"@,
        Check::EthGetBlockByNumber => "eth_getBlockByNumber (no txs)"@,
        Check::EthGetBlockByHash => "eth_getBlockByHash"@,
        Check::EthGetBlockWithTxs => "eth_getBlockByNumber (with txs)"@,
        Check::EthGetTransactionByBlockHashAndIndex => "eth_getTransactionByBlockHashAndIndex"@,
        Check::EthCall => "eth_call"@,
        Check::EthEstimateGas => "eth_estimateGas"@,
        Check::EthFeeHistory => "eth_feeHistory"@,
        Check::EthGetLogs => "eth_getLogs"@,
        Check::EthGetCode => "eth_getCode"@,
        Check::EthGetTransactionReceipt => "eth_getTransactionReceipt"@,
        Check::EthGetTransactionByHash => "eth_getTransactionByHash"@,
        Check::NetVersion => "net_version"@,
        Check::Web3ClientVersion => "web3_clientVersion"@,
        Check::EthEstimateGasBundle => "eth_estimateGasBundle"@,
        Check::EthCallBundle => "eth_callBundle"@,
        Check::EthSimulateV1 => "eth_simulateV1"@,
        Check::EthCalls => "eth_calls"@,
        Check::EthGetBlockReceipts => "eth_getBlockReceipts"@,
        Check::DebugTraceTransaction => "debug_traceTransaction"@,
        Check::DebugTraceBlockByNumber => "debug_traceBlockByNumber"@,
        Check::TxpoolStatus => "txpool_status"@,
        Check::TxpoolContent => "txpool_content"@,
        Check::AdminNodeInfo => "admin_nodeInfo"@,
        Check::AdminPeers => "admin_peers"@,
        Check::EthCallMany => "eth_callMany"@,
        Check::TraceTransaction => "trace_transaction"@,
        Check::TraceBlock => "trace_block"@,
        Check::ParliaGetSnapshot => "parlia_getSnapshot"@,
        Check::ParliaGetValidators => "parlia_getValidators"@,
        Check::EthGetFinalizedHeader => "eth_getFinalizedHeader"@,
        Check::EthGetFinalizedBlock => "eth_getFinalizedBlock"@,
        Check::OptimismOutputAtBlock => "optimism_outputAtBlock"@,
        Check::ArbGetL1Confirmations => "arb_getL1Confirmations"@,
    }
}

/// The address of all zeros.
pub open spec fn zero_address() -> Seq<char> {
    "0x0000000000000000000000000000000000000000"@
}

/// A transfer of one wei between two low addresses.
pub open spec fn small_transfer() -> JsonTree {
    object().with("from"@, text("0x0000000000000000000000000000000000000001"@)).with(
        "to"@,
        text("0x0000000000000000000000000000000000000002"@),
    ).with("value"@, text("0x1"@))
}

/// The parameters that ask for the latest block, with its transactions in full
/// or by hash.
pub open spec fn latest_block(full: bool) -> JsonTree {
    list().item(text("latest"@)).item(JsonTree::Bool(full))
}

/// The tracer that is asked for.
pub open spec fn tracer() -> JsonTree {
    object().with("tracer"@, text("callTracer"@))
}

/// The parameter list of just the latest block.
pub open spec fn latest() -> JsonTree {
    list().item(text("latest"@))
}

/// The call that a check begins with.
pub open spec fn first_call_of(check: Check, chain: ChainType) -> CallView {
    match check {
        Check::EthChainId => text_call("eth_chainId"@, list()),
        Check::EthBlockNumber => text_call("eth_blockNumber"@, list()),
        Check::EthGasPrice => text_call("eth_gasPrice"@, list()),
        Check::EthGetBalance => text_call(
            "eth_getBalance"@,
            list().item(text(zero_address())).item(text("latest"@)),
        ),
        Check::EthGetTransactionCount => text_call(
            "eth_getTransactionCount"@,
            list().item(text(contract_of(chain))).item(text("latest"@)),
        ),
        Check::EthGetBlockByNumber => value_call("eth_getBlockByNumber"@, latest_block(false)),
        Check::EthGetBlockByHash => value_call("eth_getBlockByNumber"@, latest_block(false)),
        Check::EthGetBlockWithTxs => value_call("eth_getBlockByNumber"@, latest_block(true)),
        Check::EthGetTransactionByBlockHashAndIndex => value_call(
            "eth_getBlockByNumber"@,
            latest_block(false),
        ),
        Check::EthCall => text_call(
            "eth_call"@,
            list().item(
                object().with("to"@, text(zero_address())).with("data"@, text("0x"@)),
            ).item(text("latest"@)),
        ),
        Check::EthEstimateGas => text_call("eth_estimateGas"@, list().item(small_transfer())),
        Check::EthFeeHistory => value_call(
            "eth_feeHistory"@,
            list().item(uint(4)).item(text("latest"@)).item(
                list().item(uint(25)).item(uint(50)).item(uint(75)),
            ),
        ),
        Check::EthGetLogs => value_call(
            "eth_getLogs"@,
            list().item(
                object().with("fromBlock"@, text("latest"@)).with("toBlock"@, text("latest"@)).with(
                    "address"@,
                    text(contract_of(chain)),
                ),
            ),
        ),
        Check::EthGetCode => text_call(
            "eth_getCode"@,
            list().item(text(contract_of(chain))).item(text("latest"@)),
        ),
        Check::EthGetTransactionReceipt => value_call("eth_getBlockByNumber"@, latest_block(true)),
        Check::EthGetTransactionByHash => value_call("eth_getBlockByNumber"@, latest_block(true)),
        Check::NetVersion => text_call("net_version"@, list()),
        Check::Web3ClientVersion => text_call("web3_clientVersion"@, list()),
        Check::EthEstimateGasBundle => value_call(
            "eth_estimateGasBundle"@,
            list().item(
                object().with(
                    "txs"@,
                    list().item(small_transfer().with("gas"@, text("0x5208"@))),
                ).with("blockNumber"@, text("0x1"@)).with("stateBlockNumber"@, text("latest"@)),
            ),
        ),
        Check::EthCallBundle => text_call("eth_blockNumber"@, list()),
        Check::EthSimulateV1 => value_call(
            "eth_simulateV1"@,
            list().item(
                object().with(
                    "blockStateCalls"@,
                    list().item(
                        object().with(
                            "blockOverrides"@,
                            object().with("number"@, text("0x1"@)),
                        ).with("calls"@, list().item(small_transfer())),
                    ),
                ),
            ).item(text("latest"@)),
        ),
        Check::EthCalls => value_call(
            "eth_calls"@,
            list().item(
                list().item(
                    object().with("to"@, text(contract_of(chain))).with(
                        "data"@,
                        text("0x18160ddd"@),
                    ),
                ).item(
                    object().with("to"@, text(contract_of(chain))).with(
                        "data"@,
                        text(
                            "0x70a082310000000000000000000000000000000000000000000000000000000000000000"@,
                        ),
                    ),
                ),
            ).item(text("latest"@)),
        ),
        Check::EthGetBlockReceipts => value_call("eth_getBlockReceipts"@, latest()),
        Check::DebugTraceTransaction => value_call("eth_getBlockByNumber"@, latest_block(true)),
        Check::DebugTraceBlockByNumber => value_call(
            "debug_traceBlockByNumber"@,
            list().item(text("latest"@)).item(tracer()),
        ),
        Check::TxpoolStatus => value_call("txpool_status"@, list()),
        Check::TxpoolContent => value_call("txpool_content"@, list()),
        Check::AdminNodeInfo => value_call("admin_nodeInfo"@, list()),
        Check::AdminPeers => value_call("admin_peers"@, list()),
        Check::EthCallMany => text_call("eth_blockNumber"@, list()),
        Check::TraceTransaction => value_call("eth_getBlockByNumber"@, latest_block(true)),
        Check::TraceBlock => value_call("trace_block"@, latest()),
        Check::ParliaGetSnapshot => value_call("parlia_getSnapshot"@, latest()),
        Check::ParliaGetValidators => text_call("eth_blockNumber"@, list()),
        Check::EthGetFinalizedHeader => value_call("eth_getFinalizedHeader"@, list()),
        Check::EthGetFinalizedBlock => value_call(
            "eth_getFinalizedBlock"@,
            list().item(JsonTree::Bool(false)),
        ),
        Check::OptimismOutputAtBlock => value_call("optimism_outputAtBlock"@, latest()),
        Check::ArbGetL1Confirmations => text_call("eth_blockNumber"@, list()),
    }
}

/// The stage that the first call of a check leads to.
pub open spec fn first_stage_of(check: Check) -> StageView {
    if check is EthGetTransactionByBlockHashAndIndex {
        StageView::ScanBlock(0)
    } else {
        StageView::First
    }
}

/// A transfer of one wei between two low addresses.
fn transfer() -> (r: Json)
    ensures
        r@ == small_transfer(),
{
    Json::object().with("from", Json::string("0x0000000000000000000000000000000000000001")).with(
        "to",
        Json::string("0x0000000000000000000000000000000000000002"),
    ).with("value", Json::string("0x1"))
}

/// The parameters that ask for the latest block.
fn latest_block_params(full: bool) -> (r: Json)
    ensures
        r@ == latest_block(full),
{
    Json::list().item(Json::string("latest")).item(Json::Bool(full))
}

/// The parameter list of just the latest block.
fn latest_params() -> (r: Json)
    ensures
        r@ == latest(),
{
    Json::list().item(Json::string("latest"))
}

/// The parameter list of the sample contract and the latest block.
fn contract_params(chain: &ChainType) -> (r: Json)
    ensures
        r@ == list().item(text(contract_of(*chain))).item(text("latest"@)),
{
    Json::list().item(Json::string(chain.sample_contract())).item(Json::string("latest"))
}

/// The tracer that is asked for.
pub fn tracer_param() -> (r: Json)
    ensures
        r@ == tracer(),
{
    Json::object().with("tracer", Json::string("callTracer"))
}

impl Check {
    /// The name of the check.
    pub fn name(&self) -> (r: &'static str)
        ensures
            r@ == check_name(*self),
    {
        match self {
            Check::EthChainId => "eth_chainId",
            Check::EthBlockNumber => "eth_blockNumber",
            Check::EthGasPrice => "eth_gasPrice",
            Check::EthGetBalance => "eth_getBalance",
            Check::EthGetTransactionCount => "eth_getTransactionCount",
            Check::EthGetBlockByNumber => "eth_getBlockByNumber (no txs)",
            Check::EthGetBlockByHash => "eth_getBlockByHash",
            Check::EthGetBlockWithTxs => "eth_getBlockByNumber (with txs)",
            Check::EthGetTransactionByBlockHashAndIndex => "eth_getTransactionByBlockHashAndIndex",
            Check::EthCall => "eth_call",
            Check::EthEstimateGas => "eth_estimateGas",
            Check::EthFeeHistory => "eth_feeHistory",
            Check::EthGetLogs => "eth_getLogs",
            Check::EthGetCode => "eth_getCode",
            Check::EthGetTransactionReceipt => "eth_getTransactionReceipt",
            Check::EthGetTransactionByHash => "eth_getTransactionByHash",
            Check::NetVersion => "net_version",
            Check::Web3ClientVersion => "web3_clientVersion",
            Check::EthEstimateGasBundle => "eth_estimateGasBundle",
            Check::EthCallBundle => "eth_callBundle",
            Check::EthSimulateV1 => "eth_simulateV1",
            Check::EthCalls => "eth_calls",
            Check::EthGetBlockReceipts => "eth_getBlockReceipts",
            Check::DebugTraceTransaction => "debug_traceTransaction",
            Check::DebugTraceBlockByNumber => "debug_traceBlockByNumber",
            Check::TxpoolStatus => "txpool_status",
            Check::TxpoolContent => "txpool_content",
            Check::AdminNodeInfo => "admin_nodeInfo",
            Check::AdminPeers => "admin_peers",
            Check::EthCallMany => "eth_callMany",
            Check::TraceTransaction => "trace_transaction",
            Check::TraceBlock => "trace_block",
            Check::ParliaGetSnapshot => "parlia_getSnapshot",
            Check::ParliaGetValidators => "parlia_getValidators",
            Check::EthGetFinalizedHeader => "eth_getFinalizedHeader",
            Check::EthGetFinalizedBlock => "eth_getFinalizedBlock",
            Check::OptimismOutputAtBlock => "optimism_outputAtBlock",
            Check::ArbGetL1Confirmations => "arb_getL1Confirmations",
        }
    }

    /// The call that the check begins with, and the stage it leads to.
    pub fn first_call(&self, chain: &ChainType) -> (r: (Call, Stage))
        ensures
            r.0@ == first_call_of(*self, *chain),
            r.1@ == first_stage_of(*self),
    {
        let stage = match self {
            Check::EthGetTransactionByBlockHashAndIndex => Stage::ScanBlock(0),
            _ => Stage::First,
        };
        (self.opening(chain), stage)
    }

    /// The call that the check begins with.
    fn opening(&self, chain: &ChainType) -> (r: Call)
        ensures
            r@ == first_call_of(*self, *chain),
    {
        match self {
            Check::EthChainId => Call::for_text("eth_chainId", Json::list()),
            Check::EthBlockNumber => Call::for_text("eth_blockNumber", Json::list()),
            Check::EthGasPrice => Call::for_text("eth_gasPrice", Json::list()),
            Check::EthGetBalance => Call::for_text(
                "eth_getBalance",
                Json::list().item(Json::string("0x0000000000000000000000000000000000000000")).item(
                    Json::string("latest"),
                ),
            ),
            Check::EthGetTransactionCount => Call::for_text(
                "eth_getTransactionCount",
                contract_params(chain),
            ),
            Check::EthGetBlockByNumber => Call::for_value(
                "eth_getBlockByNumber",
                latest_block_params(false),
            ),
            // the latest block first, for its hash
            Check::EthGetBlockByHash => Call::for_value(
                "eth_getBlockByNumber",
                latest_block_params(false),
            ),
            Check::EthGetBlockWithTxs => Call::for_value(
                "eth_getBlockByNumber",
                latest_block_params(true),
            ),
            Check::EthGetTransactionByBlockHashAndIndex => Call::for_value(
                "eth_getBlockByNumber",
                latest_block_params(false),
            ),
            Check::EthCall => Call::for_text(
                "eth_call",
                Json::list().item(
                    Json::object().with(
                        "to",
                        Json::string("0x0000000000000000000000000000000000000000"),
                    ).with("data", Json::string("0x")),
                ).item(Json::string("latest")),
            ),
            Check::EthEstimateGas => Call::for_text(
                "eth_estimateGas",
                Json::list().item(transfer()),
            ),
            Check::EthFeeHistory => Call::for_value(
                "eth_feeHistory",
                Json::list().item(Json::number(4)).item(Json::string("latest")).item(
                    Json::list().item(Json::number(25)).item(Json::number(50)).item(
                        Json::number(75),
                    ),
                ),
            ),
            Check::EthGetLogs => Call::for_value(
                "eth_getLogs",
                Json::list().item(
                    Json::object().with("fromBlock", Json::string("latest")).with(
                        "toBlock",
                        Json::string("latest"),
                    ).with("address", Json::string(chain.sample_contract())),
                ),
            ),
            Check::EthGetCode => Call::for_text("eth_getCode", contract_params(chain)),
            // the latest block first, for one of its transactions
            Check::EthGetTransactionReceipt => Call::for_value(
                "eth_getBlockByNumber",
                latest_block_params(true),
            ),
            Check::EthGetTransactionByHash => Call::for_value(
                "eth_getBlockByNumber",
                latest_block_params(true),
            ),
            Check::NetVersion => Call::for_text("net_version", Json::list()),
            Check::Web3ClientVersion => Call::for_text("web3_clientVersion", Json::list()),
            Check::EthEstimateGasBundle => Call::for_value(
                "eth_estimateGasBundle",
                Json::list().item(
                    Json::object().with(
                        "txs",
                        Json::list().item(transfer().with("gas", Json::string("0x5208"))),
                    ).with("blockNumber", Json::string("0x1")).with(
                        "stateBlockNumber",
                        Json::string("latest"),
                    ),
                ),
            ),
            // the current block number first
            Check::EthCallBundle => Call::for_text("eth_blockNumber", Json::list()),
            Check::EthSimulateV1 => Call::for_value(
                "eth_simulateV1",
                Json::list().item(
                    Json::object().with(
                        "blockStateCalls",
                        Json::list().item(
                            Json::object().with(
                                "blockOverrides",
                                Json::object().with("number", Json::string("0x1")),
                            ).with("calls", Json::list().item(transfer())),
                        ),
                    ),
                ).item(Json::string("latest")),
            ),
            Check::EthCalls => Call::for_value(
                "eth_calls",
                Json::list().item(
                    Json::list().item(
                        Json::object().with("to", Json::string(chain.sample_contract())).with(
                            "data",
                            // totalSupply()
                            Json::string("0x18160ddd"),
                        ),
                    ).item(
                        Json::object().with("to", Json::string(chain.sample_contract())).with(
                            "data",
                            // balanceOf(0x0)
                            Json::string(
                                "0x70a082310000000000000000000000000000000000000000000000000000000000000000",
                            ),
                        ),
                    ),
                ).item(Json::string("latest")),
            ),
            Check::EthGetBlockReceipts => Call::for_value("eth_getBlockReceipts", latest_params()),
            Check::DebugTraceTransaction => Call::for_value(
                "eth_getBlockByNumber",
                latest_block_params(true),
            ),
            Check::DebugTraceBlockByNumber => Call::for_value(
                "debug_traceBlockByNumber",
                Json::list().item(Json::string("latest")).item(tracer_param()),
            ),
            Check::TxpoolStatus => Call::for_value("txpool_status", Json::list()),
            Check::TxpoolContent => Call::for_value("txpool_content", Json::list()),
            Check::AdminNodeInfo => Call::for_value("admin_nodeInfo", Json::list()),
            Check::AdminPeers => Call::for_value("admin_peers", Json::list()),
            Check::EthCallMany => Call::for_text("eth_blockNumber", Json::list()),
            Check::TraceTransaction => Call::for_value(
                "eth_getBlockByNumber",
                latest_block_params(true),
            ),
            Check::TraceBlock => Call::for_value("trace_block", latest_params()),
            Check::ParliaGetSnapshot => Call::for_value("parlia_getSnapshot", latest_params()),
            Check::ParliaGetValidators => Call::for_text("eth_blockNumber", Json::list()),
            Check::EthGetFinalizedHeader => Call::for_value("eth_getFinalizedHeader", Json::list()),
            Check::EthGetFinalizedBlock => Call::for_value(
                "eth_getFinalizedBlock",
                Json::list().item(Json::Bool(false)),
            ),
            Check::OptimismOutputAtBlock => Call::for_value(
                "optimism_outputAtBlock",
                latest_params(),
            ),
            Check::ArbGetL1Confirmations => Call::for_text("eth_blockNumber", Json::list()),
        }
    }
}

} // verus!
