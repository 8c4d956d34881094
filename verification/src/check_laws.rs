//! What the checks ask of a node: the method that each is named after, and the
//! parameters that it takes.

use crate::chain::{ChainType, contract_of};
use crate::checks::{Check, check_name, first_call_of};
use crate::json::{JsonNumber, JsonTree, list, object};
use crate::replies::{hash_call, text_step, value_step};
use crate::steps::{CallView, NextView, StageView, Wants};
use vstd::prelude::*;

verus! {

/// Lists and objects that are built up item by item and member by member.
proof fn lemma_built_up()
    ensures
        list() == JsonTree::Array(seq![]),
        forall|a: JsonTree| #[trigger] list().item(a) == JsonTree::Array(seq![a]),
        forall|a: JsonTree, b: JsonTree| #[trigger]
            list().item(a).item(b) == JsonTree::Array(seq![a, b]),
        forall|a: JsonTree, b: JsonTree, c: JsonTree| #[trigger]
            list().item(a).item(b).item(c) == JsonTree::Array(seq![a, b, c]),
        object() == JsonTree::Object(map![]),
        forall|k: Seq<char>, a: JsonTree| #[trigger]
            object().with(k, a) == JsonTree::Object(map![k => a]),
        forall|k: Seq<char>, a: JsonTree, l: Seq<char>, b: JsonTree| #[trigger]
            object().with(k, a).with(l, b) == JsonTree::Object(map![k => a, l => b]),
        forall|k: Seq<char>, a: JsonTree, l: Seq<char>, b: JsonTree, m: Seq<char>, c: JsonTree|
         #[trigger]
            object().with(k, a).with(l, b).with(m, c) == JsonTree::Object(
                map![k => a, l => b, m => c],
            ),
        forall|
            k: Seq<char>,
            a: JsonTree,
            l: Seq<char>,
            b: JsonTree,
            m: Seq<char>,
            c: JsonTree,
            n: Seq<char>,
            d: JsonTree,
        | #[trigger]
            object().with(k, a).with(l, b).with(m, c).with(n, d) == JsonTree::Object(
                map![k => a, l => b, m => c, n => d],
            ),
{
    assert forall|a: JsonTree| #[trigger] list().item(a) == JsonTree::Array(seq![a]) by {
        assert(list().item(a)->Array_0 =~= seq![a]);
    }
    assert forall|a: JsonTree, b: JsonTree| #[trigger] list().item(a).item(b) == JsonTree::Array(
        seq![a, b],
    ) by {
        assert(list().item(a).item(b)->Array_0 =~= seq![a, b]);
    }
    assert forall|a: JsonTree, b: JsonTree, c: JsonTree| #[trigger]
        list().item(a).item(b).item(c) == JsonTree::Array(seq![a, b, c]) by {
        assert(list().item(a).item(b).item(c)->Array_0 =~= seq![a, b, c]);
    }
}

/// The check first asks for the number of the latest block.
pub open spec fn asks_for_number(check: Check) -> bool {
    check is EthCallBundle || check is EthCallMany || check is ParliaGetValidators
        || check is ArbGetL1Confirmations
}

/// The check goes on with the hash of a transaction of the latest block.
pub open spec fn follows_a_transaction(check: Check) -> bool {
    check is EthGetTransactionReceipt || check is EthGetTransactionByHash
        || check is DebugTraceTransaction || check is TraceTransaction
}

/// The check goes on with the hash of a block.
pub open spec fn follows_a_block(check: Check) -> bool {
    check is EthGetBlockByHash || check is EthGetTransactionByBlockHashAndIndex
}

/// A check begins with the method that it is named after, unless it needs a block
/// or its number first.
pub proof fn law_first_calls(check: Check, chain: ChainType)
    ensures
        ({
            let call = first_call_of(check, chain);
            &&& asks_for_number(check) ==> call.method == "eth_blockNumber"@
            &&& follows_a_transaction(check) || follows_a_block(check) ==> call.method
                == "eth_getBlockByNumber"@
            &&& check is EthGetBlockByNumber ==> check_name(check) == call.method + " (no txs)"@
            &&& check is EthGetBlockWithTxs ==> check_name(check) == call.method + " (with txs)"@
            &&& check is EthGetBlockByNumber || check is EthGetBlockWithTxs ==> call.method
                == "eth_getBlockByNumber"@
            &&& !asks_for_number(check) && !follows_a_transaction(check) && !follows_a_block(check)
                && !(check is EthGetBlockByNumber) && !(check is EthGetBlockWithTxs)
                ==> call.method == check_name(check)
        }),
{
    reveal_strlit("eth_getBlockByNumber");
    reveal_strlit(" (no txs)");
    reveal_strlit(" (with txs)");
    reveal_strlit("eth_getBlockByNumber (no txs)");
    reveal_strlit("eth_getBlockByNumber (with txs)");
    if check is EthGetBlockByNumber {
        assert(check_name(check) =~= "eth_getBlockByNumber"@ + " (no txs)"@);
    }
    if check is EthGetBlockWithTxs {
        assert(check_name(check) =~= "eth_getBlockByNumber"@ + " (with txs)"@);
    }
}

/// Some first calls have no parameter, or just the latest block; a block is asked
/// for as the latest, with its transactions in full exactly if the check is about
/// them.
pub proof fn law_first_parameters(check: Check, chain: ChainType)
    ensures
        ({
            let params = first_call_of(check, chain).params;
            let latest = JsonTree::Text("latest"@);
            &&& asks_for_number(check) || check is EthChainId || check is EthBlockNumber
                || check is EthGasPrice || check is NetVersion || check is Web3ClientVersion
                || check is TxpoolStatus || check is TxpoolContent || check is AdminNodeInfo
                || check is AdminPeers || check is EthGetFinalizedHeader ==> params
                == JsonTree::Array(seq![])
            &&& check is EthGetBlockReceipts || check is TraceBlock || check is ParliaGetSnapshot
                || check is OptimismOutputAtBlock ==> params == JsonTree::Array(seq![latest])
            &&& check is EthGetBlockByNumber || follows_a_block(check) ==> params
                == JsonTree::Array(seq![latest, JsonTree::Bool(false)])
            &&& check is EthGetBlockWithTxs || follows_a_transaction(check) ==> params
                == JsonTree::Array(seq![latest, JsonTree::Bool(true)])
            &&& check is EthGetFinalizedBlock ==> params == JsonTree::Array(
                seq![JsonTree::Bool(false)],
            )
            &&& check is DebugTraceBlockByNumber ==> params == JsonTree::Array(
                seq![
                    latest,
                    JsonTree::Object(map!["tracer"@ => JsonTree::Text("callTracer"@)]),
                ],
            )
        }),
{
    let params = first_call_of(check, chain).params;
    let latest = JsonTree::Text("latest"@);
    assert(params->Array_0.len() == 0 ==> params->Array_0 =~= seq![]);
    assert(params->Array_0.len() == 1 ==> params->Array_0 =~= seq![params->Array_0[0]]);
    assert(params->Array_0.len() == 2 ==> params->Array_0 =~= seq![
        params->Array_0[0],
        params->Array_0[1],
    ]);
}

/// The first calls that are about an address: that of all zeros, or the sample
/// contract of the chain that the run is for.
pub proof fn law_first_addresses(check: Check, chain: ChainType)
    ensures
        ({
            let params = first_call_of(check, chain).params;
            let latest = JsonTree::Text("latest"@);
            let zero = JsonTree::Text("0x0000000000000000000000000000000000000000"@);
            let contract = JsonTree::Text(contract_of(chain));
            &&& check is EthGetBalance ==> params == JsonTree::Array(seq![zero, latest])
            &&& check is EthGetTransactionCount || check is EthGetCode ==> params
                == JsonTree::Array(seq![contract, latest])
            &&& check is EthCall ==> params == JsonTree::Array(
                seq![
                    JsonTree::Object(map!["to"@ => zero, "data"@ => JsonTree::Text("0x"@)]),
                    latest,
                ],
            )
            &&& check is EthGetLogs ==> params == JsonTree::Array(
                seq![
                    JsonTree::Object(
                        map![
                            "fromBlock"@ => latest,
                            "toBlock"@ => latest,
                            "address"@ => contract,
                        ],
                    ),
                ],
            )
            &&& check is EthCalls ==> params == JsonTree::Array(
                seq![
                    JsonTree::Array(
                        seq![
                            JsonTree::Object(
                                map!["to"@ => contract, "data"@ => JsonTree::Text("0x18160ddd"@)],
                            ),
                            JsonTree::Object(
                                map![
                                    "to"@ => contract,
                                    "data"@ => JsonTree::Text(
                                        "0x70a082310000000000000000000000000000000000000000000000000000000000000000"@,
                                    ),
                                ],
                            ),
                        ],
                    ),
                    latest,
                ],
            )
        }),
{
    lemma_built_up();
}

/// The first calls that are about a transfer of one wei, and the one for the
/// history of fees.
pub proof fn law_first_transfers(check: Check, chain: ChainType)
    ensures
        ({
            let params = first_call_of(check, chain).params;
            let latest = JsonTree::Text("latest"@);
            let one = JsonTree::Text("0x0000000000000000000000000000000000000001"@);
            let two = JsonTree::Text("0x0000000000000000000000000000000000000002"@);
            let wei = JsonTree::Text("0x1"@);
            &&& check is EthEstimateGas ==> params == JsonTree::Array(
                seq![JsonTree::Object(map!["from"@ => one, "to"@ => two, "value"@ => wei])],
            )
            &&& check is EthEstimateGasBundle ==> params == JsonTree::Array(
                seq![
                    JsonTree::Object(
                        map![
                            "txs"@ => JsonTree::Array(
                                seq![
                                    JsonTree::Object(
                                        map![
                                            "from"@ => one,
                                            "to"@ => two,
                                            "value"@ => wei,
                                            "gas"@ => JsonTree::Text("0x5208"@),
                                        ],
                                    ),
                                ],
                            ),
                            "blockNumber"@ => JsonTree::Text("0x1"@),
                            "stateBlockNumber"@ => latest,
                        ],
                    ),
                ],
            )
            &&& check is EthSimulateV1 ==> params == JsonTree::Array(
                seq![
                    JsonTree::Object(
                        map![
                            "blockStateCalls"@ => JsonTree::Array(
                                seq![
                                    JsonTree::Object(
                                        map![
                                            "blockOverrides"@ => JsonTree::Object(
                                                map!["number"@ => JsonTree::Text("0x1"@)],
                                            ),
                                            "calls"@ => JsonTree::Array(
                                                seq![
                                                    JsonTree::Object(
                                                        map![
                                                            "from"@ => one,
                                                            "to"@ => two,
                                                            "value"@ => wei,
                                                        ],
                                                    ),
                                                ],
                                            ),
                                        ],
                                    ),
                                ],
                            ),
                        ],
                    ),
                    latest,
                ],
            )
            &&& check is EthFeeHistory ==> params == JsonTree::Array(
                seq![
                    JsonTree::Number(JsonNumber::PosInt(4)),
                    latest,
                    JsonTree::Array(
                        seq![
                            JsonTree::Number(JsonNumber::PosInt(25)),
                            JsonTree::Number(JsonNumber::PosInt(50)),
                            JsonTree::Number(JsonNumber::PosInt(75)),
                        ],
                    ),
                ],
            )
        }),
{
    lemma_built_up();
}

/// Only the checks that are about the sample contract depend on the chain.
pub proof fn law_few_first_calls_depend_on_the_chain(check: Check, a: ChainType, b: ChainType)
    ensures
        !(check is EthGetTransactionCount) && !(check is EthGetCode) && !(check is EthGetLogs)
            && !(check is EthCalls) || contract_of(a) == contract_of(b) ==> first_call_of(check, a)
            == first_call_of(check, b),
{
}

/// A result is asked for as a string where it is shown or read as one, and as any
/// value otherwise.
pub proof fn law_first_results(check: Check, chain: ChainType)
    ensures
        first_call_of(check, chain).wants is Text <==> asks_for_number(check) || check is EthChainId
            || check is EthBlockNumber || check is EthGasPrice || check is EthGetBalance
            || check is EthGetTransactionCount || check is EthCall || check is EthEstimateGas
            || check is EthGetCode || check is NetVersion || check is Web3ClientVersion,
{
}

/// A check that first asks for the number of the latest block goes on with the
/// method that it is named after, at the block of that number.
pub proof fn law_calls_at_the_latest_number(check: Check, number: Seq<char>)
    requires
        asks_for_number(check),
    ensures
        ({
            let step = text_step(check, number);
            let block = JsonTree::Text(number);
            &&& step.lines.len() == 0
            &&& step.next matches NextView::Call(call, stage) && {
                &&& stage == StageView::Second(number)
                &&& call.method == check_name(check)
                &&& call.wants is Value
                &&& check is ParliaGetValidators || check is ArbGetL1Confirmations ==> call.params
                    == JsonTree::Array(seq![block])
                &&& check is EthCallBundle ==> call.params == JsonTree::Array(
                    seq![
                        JsonTree::Object(
                            map![
                                "txs"@ => JsonTree::Array(seq![]),
                                "blockNumber"@ => block,
                                "stateBlockNumber"@ => JsonTree::Text("latest"@),
                            ],
                        ),
                    ],
                )
                &&& check is EthCallMany ==> call.params == JsonTree::Array(
                    seq![
                        JsonTree::Array(
                            seq![
                                JsonTree::Object(
                                    map![
                                        "transactions"@ => JsonTree::Array(
                                            seq![
                                                JsonTree::Object(
                                                    map![
                                                        "to"@ => JsonTree::Text(
                                                            "0x4200000000000000000000000000000000000006"@,
                                                        ),
                                                        "data"@ => JsonTree::Text("0x18160ddd"@),
                                                    ],
                                                ),
                                            ],
                                        ),
                                        "blockOverride"@ => JsonTree::Object(
                                            map!["blockNumber"@ => block],
                                        ),
                                    ],
                                ),
                            ],
                        ),
                        JsonTree::Object(map![]),
                        JsonTree::Object(map![]),
                    ],
                )
            }
        }),
{
    lemma_built_up();
}

/// A check that follows a transaction goes on with the method that it is named
/// after, on the hash of the first transaction of the latest block; a block without
/// one, or whose first has no hash, ends it well, and a block without a list of
/// transactions ends it badly.
pub proof fn law_calls_on_the_first_transaction(check: Check, t: JsonTree)
    requires
        follows_a_transaction(check),
    ensures
        ({
            let step = value_step(check, t);
            let list = t.at("transactions"@);
            let first = list->Array_0[0].at("hash"@);
            &&& !(list is Array) ==> step.lines.len() == 0 && step.next == NextView::Fail(
                seq!["No transactions array"@],
            )
            &&& list is Array && list->Array_0.len() > 0 && first is Text ==> {
                &&& step.lines.len() == 0
                &&& step.next == NextView::Call(
                    CallView {
                        method: check_name(check),
                        params: if check is DebugTraceTransaction {
                            JsonTree::Array(
                                seq![
                                    first,
                                    JsonTree::Object(
                                        map!["tracer"@ => JsonTree::Text("callTracer"@)],
                                    ),
                                ],
                            )
                        } else {
                            JsonTree::Array(seq![first])
                        },
                        wants: Wants::Value,
                    },
                    StageView::Second(first->Text_0),
                )
            }
            &&& list is Array && !(list->Array_0.len() > 0 && first is Text) ==> {
                &&& step.next is Pass
                &&& step.lines == seq![
                    if check is EthGetTransactionReceipt {
                        "  No transactions in latest block to get receipt"@
                    } else if check is EthGetTransactionByHash {
                        "  No transactions found in latest block"@
                    } else {
                        "  No transactions found to trace"@
                    },
                ]
            }
        }),
{
    lemma_built_up();
    let list = t.at("transactions"@);
    if list is Array && list->Array_0.len() > 0 && list->Array_0[0].at("hash"@) is Text {
        let hash = list->Array_0[0].at("hash"@)->Text_0;
        let params = hash_call(check, hash).params->Array_0;
        assert(check is DebugTraceTransaction || params =~= seq![JsonTree::Text(hash)]);
        assert(check is DebugTraceTransaction ==> params =~= seq![
            JsonTree::Text(hash),
            JsonTree::Object(map!["tracer"@ => JsonTree::Text("callTracer"@)]),
        ]);
    }
}

/// The check of a block by its hash asks for the block of the hash that the latest
/// block has, without its transactions in full, and fails where it has none.
pub proof fn law_calls_on_the_latest_hash(t: JsonTree)
    ensures
        ({
            let step = value_step(Check::EthGetBlockByHash, t);
            &&& step.lines.len() == 0
            &&& t.at("hash"@) is Text ==> step.next == NextView::Call(
                CallView {
                    method: "eth_getBlockByHash"@,
                    params: JsonTree::Array(seq![t.at("hash"@), JsonTree::Bool(false)]),
                    wants: Wants::Value,
                },
                StageView::Second(t.at("hash"@)->Text_0),
            )
            &&& !(t.at("hash"@) is Text) ==> step.next == NextView::Fail(
                seq!["Block should have hash field"@],
            )
        }),
{
    lemma_built_up();
}

} // verus!
