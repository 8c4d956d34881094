//! What the checks make of what a node answers.

use crate::chain::{chain_name, chain_of_id};
use crate::checks::{Check, first_stage_of};
use crate::hex::{law_hex_number_reads_back, quantity, quantity_failure};
use crate::json::{JsonTree, compact_text};
use crate::probe::{is_admitted, probe_step, wanted};
use crate::replies::{
    broken_off_lines, enode_head, scan_block_step, scan_number_step, scan_transaction_step,
    second_step, text_step, value_is_expected, value_step,
};
use crate::steps::{CallView, NextView, ReplyView, StageView, StepView, Wants};
use crate::text::{begins_with, decimal, hex};
use vstd::prelude::*;
use vstd::utf8::{
    decode_utf8_encode_utf8, decode_utf8_split, encode_utf8, encode_utf8_decode_utf8,
    encode_utf8_valid_utf8, is_char_boundary, is_char_boundary_iff_not_is_continuation_byte,
    is_char_boundary_start_end_of_seq, is_continuation_byte, valid_utf8_split,
};

verus! {

/// The check passes, and these lines are printed.
pub open spec fn ends_well(step: StepView, lines: Seq<Seq<char>>) -> bool {
    step.next is Pass && step.lines == lines
}

/// The check fails with that message and no cause, after these lines are printed.
pub open spec fn ends_badly(step: StepView, lines: Seq<Seq<char>>, message: Seq<char>) -> bool {
    step.next == NextView::Fail(seq![message]) && step.lines == lines
}

/// A quantity is shown as the node gave it and in decimal; the latest block must
/// not be the first.
pub proof fn law_quantities_are_shown(s: Seq<char>, n: u64)
    requires
        quantity(s) == Some(n),
    ensures
        ({
            let both = s + " ("@ + decimal(n as nat) + ")"@;
            &&& ends_well(
                text_step(Check::EthChainId, s),
                seq![
                    "  Chain ID: "@ + s + " ("@ + decimal(n as nat) + " - "@ + chain_name(
                        chain_of_id(n),
                    ) + ")"@,
                ],
            )
            &&& n > 0 ==> ends_well(
                text_step(Check::EthBlockNumber, s),
                seq!["  Current block: "@ + both],
            )
            &&& n == 0 ==> ends_badly(
                text_step(Check::EthBlockNumber, s),
                seq!["  Current block: "@ + both],
                "Block number should be greater than 0"@,
            )
            &&& ends_well(
                text_step(Check::EthGetTransactionCount, s),
                seq!["  Transaction count: "@ + both],
            )
            &&& ends_well(
                text_step(Check::EthEstimateGas, s),
                seq!["  Estimated gas: "@ + both],
            )
        }),
{
    let both = s + " ("@ + decimal(n as nat) + ")"@;
    assert("  Current block: "@ + s + " ("@ + decimal(n as nat) + ")"@ =~= "  Current block: "@
        + both);
    assert("  Transaction count: "@ + s + " ("@ + decimal(n as nat) + ")"@
        =~= "  Transaction count: "@ + both);
    assert("  Estimated gas: "@ + s + " ("@ + decimal(n as nat) + ")"@ =~= "  Estimated gas: "@
        + both);
}

/// A price in gwei is the number of whole thousand millions of wei in it.
pub proof fn law_prices_are_shown_in_gwei(s: Seq<char>, n: u64, gwei: nat, t: JsonTree)
    requires
        quantity(s) == Some(n),
        gwei * 1_000_000_000 <= n < (gwei + 1) * 1_000_000_000,
    ensures
        ends_well(
            text_step(Check::EthGasPrice, s),
            seq!["  Gas price: "@ + s + " wei ("@ + decimal(gwei) + " gwei)"@],
        ),
        t.at("baseFeePerGas"@) is Array && t.at("baseFeePerGas"@)->Array_0.len() > 0 && t.at(
            "baseFeePerGas"@,
        )->Array_0.last() == JsonTree::Text(s) ==> ends_well(
            value_step(Check::EthFeeHistory, t),
            seq!["  Latest base fee: "@ + s + " wei ("@ + decimal(gwei) + " gwei)"@],
        ),
{
    assert(n / 1_000_000_000 == gwei);
}

/// A quantity that cannot be read fails the check, and nothing is printed.
pub proof fn law_bad_quantities_fail(s: Seq<char>, check: Check, t: JsonTree)
    requires
        quantity(s) is None,
    ensures
        ({
            let failure = StepView { lines: seq![], next: NextView::Fail(quantity_failure(s)) };
            &&& check is EthChainId || check is EthBlockNumber || check is EthGasPrice
                || check is EthGetTransactionCount || check is EthEstimateGas ==> text_step(
                check,
                s,
            ) == failure
            &&& t.get("number"@) == Some(JsonTree::Text(s)) ==> value_step(
                Check::EthGetBlockByNumber,
                t,
            ) == failure
            &&& t.at("baseFeePerGas"@) is Array && t.at("baseFeePerGas"@)->Array_0.len() > 0
                && t.at("baseFeePerGas"@)->Array_0.last() == JsonTree::Text(s) ==> value_step(
                Check::EthFeeHistory,
                t,
            ) == failure
        }),
{
}

/// A balance and the result of a call must begin with "0x", and are shown either
/// way; versions are shown as they are.
pub proof fn law_texts_are_shown(s: Seq<char>)
    ensures
        begins_with(s, "0x"@) ==> ends_well(
            text_step(Check::EthGetBalance, s),
            seq!["  Balance of zero address: "@ + s],
        ),
        !begins_with(s, "0x"@) ==> ends_badly(
            text_step(Check::EthGetBalance, s),
            seq!["  Balance of zero address: "@ + s],
            "Balance should start with 0x"@,
        ),
        begins_with(s, "0x"@) ==> ends_well(
            text_step(Check::EthCall, s),
            seq!["  Call result: "@ + s],
        ),
        !begins_with(s, "0x"@) ==> ends_badly(
            text_step(Check::EthCall, s),
            seq!["  Call result: "@ + s],
            "Call result should start with 0x"@,
        ),
        ends_well(text_step(Check::NetVersion, s), seq!["  Network version: "@ + s]),
        ends_well(text_step(Check::Web3ClientVersion, s), seq!["  Client version: "@ + s]),
{
}

/// The code of a contract has half as many bytes as there are bytes of text behind
/// the first two, and none where there are no more than two.
pub proof fn law_code_is_measured(s: Seq<char>, bytes: nat)
    ensures
        encode_utf8(s).len() <= 2 ==> ends_well(
            text_step(Check::EthGetCode, s),
            seq!["  No code at address (EOA or empty)"@],
        ),
        encode_utf8(s).len() > 2 && 2 * bytes <= encode_utf8(s).len() - 2 < 2 * bytes + 2
            ==> ends_well(
            text_step(Check::EthGetCode, s),
            seq!["  Contract code length: "@ + decimal(bytes) + " bytes"@],
        ),
{
    let n = encode_utf8(s).len();
    if n > 2 && 2 * bytes <= n - 2 < 2 * bytes + 2 {
        assert((n - 2) / 2 == bytes);
    }
}

/// A block must have a number that can be read, and then a hash, which may be any
/// value.
pub proof fn law_blocks_have_numbers_and_hashes(t: JsonTree, s: Seq<char>, n: u64)
    ensures
        ({
            let step = value_step(Check::EthGetBlockByNumber, t);
            let line = "  Block number: "@ + s + " ("@ + decimal(n as nat) + ")"@;
            &&& !(t.at("number"@) is Text) ==> ends_badly(
                step,
                seq![],
                "Block should have number field"@,
            )
            &&& t.at("number"@) == JsonTree::Text(s) && quantity(s) == Some(n) ==> {
                &&& t.get("hash"@) is Some ==> ends_well(step, seq![line])
                &&& t.get("hash"@) is None ==> ends_badly(
                    step,
                    seq![line],
                    "Block should have hash field"@,
                )
            }
        }),
{
}

/// The number of a block that was asked for by its hash is shown with that hash.
pub proof fn law_blocks_by_hash(hash: Seq<char>, t: JsonTree)
    ensures
        t.at("number"@) is Text ==> ends_well(
            second_step(Check::EthGetBlockByHash, hash, t),
            seq!["  Block by hash "@ + hash + ": "@ + t.at("number"@)->Text_0],
        ),
        !(t.at("number"@) is Text) ==> ends_badly(
            second_step(Check::EthGetBlockByHash, hash, t),
            seq![],
            "Block should have number field"@,
        ),
{
}

/// A fee history must have base fees; a last one that is no string, or none at all,
/// is not shown.
pub proof fn law_fee_histories(t: JsonTree)
    ensures
        ({
            let step = value_step(Check::EthFeeHistory, t);
            let fees = t.at("baseFeePerGas"@);
            &&& t.get("baseFeePerGas"@) is None ==> ends_badly(
                step,
                seq![],
                "Fee history should have baseFeePerGas"@,
            )
            &&& fees is Array && !(fees->Array_0.len() > 0 && fees->Array_0.last() is Text)
                ==> ends_well(step, seq![])
            &&& value_is_expected(Check::EthFeeHistory, t) <==> t.get("baseFeePerGas"@) is None
                || fees is Array
        }),
{
}

/// The results that must be lists are counted, and fail the check where they are
/// none.
pub proof fn law_lists_are_demanded(items: Seq<JsonTree>, t: JsonTree, used: Seq<char>)
    ensures
        ({
            let given = JsonTree::Array(items);
            let count = decimal(items.len());
            &&& t.at("transactions"@) == given ==> ends_well(
                value_step(Check::EthGetBlockWithTxs, t),
                seq!["  Latest block has "@ + count + " transactions"@],
            )
            &&& !(t.at("transactions"@) is Array) ==> ends_badly(
                value_step(Check::EthGetBlockWithTxs, t),
                seq![],
                "Block should have transactions array"@,
            )
            &&& ends_well(
                value_step(Check::EthGetLogs, given),
                seq!["  Found "@ + count + " logs in latest block"@],
            )
            &&& !(t is Array) ==> ends_badly(
                value_step(Check::EthGetLogs, t),
                seq![],
                "Logs should be an array"@,
            )
            &&& ends_well(
                value_step(Check::DebugTraceBlockByNumber, given),
                seq!["  Traced "@ + count + " transactions in latest block"@],
            )
            &&& !(t is Array) ==> ends_badly(
                value_step(Check::DebugTraceBlockByNumber, t),
                seq![],
                "Trace should be an array"@,
            )
            &&& ends_well(
                value_step(Check::AdminPeers, given),
                seq!["  Connected peers: "@ + count],
            )
            &&& !(t is Array) ==> ends_badly(
                value_step(Check::AdminPeers, t),
                seq![],
                "Peers should be an array"@,
            )
            &&& ends_well(
                value_step(Check::TraceBlock, given),
                seq!["  Found "@ + count + " traces in latest block"@],
            )
            &&& !(t is Array) ==> ends_badly(
                value_step(Check::TraceBlock, t),
                seq![],
                "Trace should be an array"@,
            )
            &&& ends_well(
                second_step(Check::TraceTransaction, used, given),
                seq!["  Found "@ + count + " traces for transaction"@],
            )
            &&& !(t is Array) ==> ends_badly(
                second_step(Check::TraceTransaction, used, t),
                seq![],
                "Trace should be an array"@,
            )
        }),
{
    lemma_nothing_behind("  Connected peers: "@ + decimal(items.len()));
}

proof fn lemma_nothing_behind(s: Seq<char>)
    ensures
        s + ""@ == s,
{
    reveal_strlit("");
    assert(s + ""@ =~= s);
}

/// The results that may be lists are counted where they are, and the check passes
/// either way.
pub proof fn law_lists_are_counted(items: Seq<JsonTree>, t: JsonTree, used: Seq<char>)
    ensures
        ({
            let given = JsonTree::Array(items);
            let count = decimal(items.len());
            &&& t.at("results"@) == given ==> ends_well(
                value_step(Check::EthEstimateGasBundle, t),
                seq!["  Estimated gas for "@ + count + " transactions in bundle"@],
            )
            &&& !(t.at("results"@) is Array) ==> ends_well(
                value_step(Check::EthEstimateGasBundle, t),
                seq![],
            )
            &&& ends_well(
                value_step(Check::EthSimulateV1, given),
                seq!["  Simulated "@ + count + " blocks"@],
            )
            &&& ends_well(
                value_step(Check::EthCalls, given),
                seq!["  Executed "@ + count + " calls in sequence"@],
            )
            &&& ends_well(
                value_step(Check::EthGetBlockReceipts, given),
                seq!["  Found "@ + count + " receipts in latest block"@],
            )
            &&& t.at("validators"@) == given ==> ends_well(
                value_step(Check::ParliaGetSnapshot, t),
                seq!["  Validator count: "@ + count],
            )
            &&& !(t.at("validators"@) is Array) ==> ends_well(
                value_step(Check::ParliaGetSnapshot, t),
                seq![],
            )
            &&& ends_well(
                second_step(Check::ParliaGetValidators, used, given),
                seq!["  Active validators: "@ + count],
            )
            &&& !(t is Array) ==> {
                &&& ends_well(value_step(Check::EthSimulateV1, t), seq![])
                &&& ends_well(value_step(Check::EthCalls, t), seq![])
                &&& ends_well(value_step(Check::EthGetBlockReceipts, t), seq![])
                &&& ends_well(second_step(Check::ParliaGetValidators, used, t), seq![])
            }
        }),
{
    lemma_nothing_behind("  Validator count: "@ + decimal(items.len()));
    lemma_nothing_behind("  Active validators: "@ + decimal(items.len()));
}

/// Whether a member is there, as a number of lines.
pub open spec fn lines_for(t: JsonTree, key: Seq<char>) -> int {
    if t.get(key) is Some {
        1
    } else {
        0
    }
}

/// The members of a receipt, of a transaction, of a bundle and of a finalized block
/// are shown as they are where they are there, one to a line, in order.
pub proof fn law_members_are_shown(t: JsonTree, used: Seq<char>)
    ensures
        ({
            let receipt = second_step(Check::EthGetTransactionReceipt, used, t);
            let sender = second_step(Check::EthGetTransactionByHash, used, t);
            let bundle = second_step(Check::EthCallBundle, used, t);
            let header = value_step(Check::EthGetFinalizedHeader, t);
            let block = value_step(Check::EthGetFinalizedBlock, t);
            let listed: int = if t.at("transactions"@) is Array {
                1
            } else {
                0
            };
            &&& receipt.next is Pass && sender.next is Pass && bundle.next is Pass
            &&& header.next is Pass && block.next is Pass
            &&& receipt.lines.len() == lines_for(t, "status"@) + lines_for(t, "gasUsed"@)
            &&& t.get("status"@) is Some ==> receipt.lines[0] == "  Receipt status: "@
                + compact_text(t.at("status"@))
            &&& t.get("gasUsed"@) is Some ==> receipt.lines.last() == "  Gas used: "@
                + compact_text(t.at("gasUsed"@))
            &&& sender.lines.len() == lines_for(t, "from"@)
            &&& t.get("from"@) is Some ==> sender.lines[0] == "  Transaction from: "@
                + compact_text(t.at("from"@))
            &&& bundle.lines.len() == lines_for(t, "results"@) + lines_for(t, "totalGasUsed"@)
            &&& t.get("results"@) is Some ==> bundle.lines[0] == "  Bundle simulation completed"@
            &&& t.get("totalGasUsed"@) is Some ==> bundle.lines.last() == "  Total gas used: "@
                + compact_text(t.at("totalGasUsed"@))
            &&& header.lines.len() == lines_for(t, "number"@)
            &&& t.get("number"@) is Some ==> header.lines[0] == "  Finalized block: "@
                + compact_text(t.at("number"@))
            &&& block.lines.len() == lines_for(t, "number"@) + listed
            &&& t.get("number"@) is Some ==> block.lines[0] == "  Finalized block number: "@
                + compact_text(t.at("number"@))
            &&& t.at("transactions"@) is Array ==> block.lines.last() == "  Transactions: "@
                + decimal(t.at("transactions"@)->Array_0.len())
        }),
{
    lemma_nothing_behind(
        "  Transactions: "@ + decimal(t.at("transactions"@)->Array_0.len()),
    );
}

/// The kind of a trace is shown if it is a string, and as unknown otherwise; the
/// confirmations are shown as they are, an output root by whether it is there, and
/// several calls by their success.
pub proof fn law_other_results_are_shown(t: JsonTree, used: Seq<char>)
    ensures
        t.at("type"@) is Text ==> ends_well(
            second_step(Check::DebugTraceTransaction, used, t),
            seq!["  Trace type: "@ + t.at("type"@)->Text_0],
        ),
        !(t.at("type"@) is Text) ==> ends_well(
            second_step(Check::DebugTraceTransaction, used, t),
            seq!["  Trace type: "@ + "unknown"@],
        ),
        ends_well(
            second_step(Check::ArbGetL1Confirmations, used, t),
            seq!["  L1 confirmations: "@ + compact_text(t)],
        ),
        ends_well(
            second_step(Check::EthCallMany, used, t),
            seq!["  Executed eth_callMany successfully"@],
        ),
        t.get("outputRoot"@) is Some ==> ends_well(
            value_step(Check::OptimismOutputAtBlock, t),
            seq!["  Output root available: true"@],
        ),
        t.get("outputRoot"@) is None ==> ends_well(
            value_step(Check::OptimismOutputAtBlock, t),
            seq!["  Output root available: false"@],
        ),
{
}

/// Of the pool, the two counts are shown where they are strings, and the numbers
/// of accounts where they are objects; what is neither counts as zero.
pub proof fn law_the_pool_is_shown(t: JsonTree)
    ensures
        ({
            let pending = t.at("pending"@);
            let queued = t.at("queued"@);
            let waiting = if pending is Text {
                pending->Text_0
            } else {
                "0"@
            };
            let standing = if queued is Text {
                queued->Text_0
            } else {
                "0"@
            };
            let waiting_accounts = if pending is Object {
                pending->Object_0.len()
            } else {
                0
            };
            let standing_accounts = if queued is Object {
                queued->Object_0.len()
            } else {
                0
            };
            &&& ends_well(
                value_step(Check::TxpoolStatus, t),
                seq!["  Pending: "@ + waiting + ", Queued: "@ + standing],
            )
            &&& ends_well(
                value_step(Check::TxpoolContent, t),
                seq![
                    "  Pending accounts: "@ + decimal(waiting_accounts) + ", Queued accounts: "@
                        + decimal(standing_accounts),
                ],
            )
        }),
{
}

/// What is shown of the address of a node is the beginning of it, whole if it takes
/// no more than fifty bytes, and fifty bytes of it otherwise.
pub proof fn law_addresses_of_nodes_are_cut(enode: Seq<char>)
    requires
        encode_utf8(enode).len() > 50 ==> !is_continuation_byte(encode_utf8(enode)[50]),
    ensures
        enode_head(enode).is_prefix_of(enode),
        encode_utf8(enode).len() <= 50 ==> enode_head(enode) == enode,
        encode_utf8(enode).len() > 50 ==> encode_utf8(enode_head(enode)).len() == 50,
{
    let bytes = encode_utf8(enode);
    let cut: int = if bytes.len() < 50 {
        bytes.len() as int
    } else {
        50
    };
    encode_utf8_valid_utf8(enode);
    encode_utf8_decode_utf8(enode);
    if bytes.len() > 50 {
        is_char_boundary_iff_not_is_continuation_byte(bytes, 50);
    } else {
        is_char_boundary_start_end_of_seq(bytes);
    }
    assert(is_char_boundary(bytes, cut));
    valid_utf8_split(bytes, cut);
    decode_utf8_split(bytes, cut);
    let head = bytes.subrange(0, cut);
    decode_utf8_encode_utf8(head);
    assert(enode_head(enode).is_prefix_of(enode)) by {
        assert(enode.subrange(0, enode_head(enode).len() as int) =~= enode_head(enode));
    }
    if bytes.len() <= 50 {
        assert(head =~= bytes);
    }
}

/// A node is described by its name and the beginning of its address, where they
/// are strings. It cannot be described only if the address would be cut within a
/// character; its name is shown even then.
pub proof fn law_nodes_are_described(t: JsonTree)
    ensures
        ({
            let step = value_step(Check::AdminNodeInfo, t);
            let name = t.at("name"@);
            let enode = t.at("enode"@);
            let named: int = if name is Text {
                1
            } else {
                0
            };
            let addressed: int = if enode is Text {
                1
            } else {
                0
            };
            &&& step.next is Pass
            &&& step.lines.len() == named + addressed
            &&& name is Text ==> step.lines[0] == "  Node name: "@ + name->Text_0
            &&& enode is Text ==> step.lines.last() == "  Enode: "@ + enode_head(enode->Text_0)
                + "..."@
            &&& value_is_expected(Check::AdminNodeInfo, t) <==> !(enode is Text && encode_utf8(
                enode->Text_0,
            ).len() > 50 && is_continuation_byte(encode_utf8(enode->Text_0)[50]))
            &&& broken_off_lines(Check::AdminNodeInfo, t).len() == named
            &&& name is Text ==> broken_off_lines(Check::AdminNodeInfo, t)[0] == "  Node name: "@
                + name->Text_0
        }),
{
    if t.at("enode"@) is Text {
        let enode = t.at("enode"@)->Text_0;
        let bytes = encode_utf8(enode);
        encode_utf8_valid_utf8(enode);
        is_char_boundary_start_end_of_seq(bytes);
        if bytes.len() > 50 {
            is_char_boundary_iff_not_is_continuation_byte(bytes, 50);
        }
    }
}

/// Nothing is printed of any other first value that breaks a check off.
pub proof fn law_other_checks_break_off_silently(check: Check, t: JsonTree)
    requires
        !(check is AdminNodeInfo),
    ensures
        broken_off_lines(check, t).len() == 0,
{
}

/// The search for a transaction begins at the latest block, and every other check
/// with its first result.
pub proof fn law_where_checks_begin(check: Check)
    ensures
        check is EthGetTransactionByBlockHashAndIndex ==> first_stage_of(check)
            == StageView::ScanBlock(0),
        !(check is EthGetTransactionByBlockHashAndIndex) ==> first_stage_of(check)
            == StageView::First,
{
}

/// The search for a transaction begins with the latest block. It asks for the
/// number of the latest block before it asks for an earlier one, goes one block
/// further back each time, and ends after ten blocks.
pub proof fn law_the_search_goes_back(i: u64, t: JsonTree)
    requires
        i < 10,
        t.at("hash"@) is Text,
        t.at("transactions"@) is Array,
        t.at("transactions"@)->Array_0.len() == 0,
    ensures
        first_stage_of(Check::EthGetTransactionByBlockHashAndIndex) == StageView::ScanBlock(0),
        i < 9 ==> scan_block_step(i, t).lines.len() == 0 && scan_block_step(i, t).next
            == NextView::Call(
            CallView {
                method: "eth_blockNumber"@,
                params: JsonTree::Array(seq![]),
                wants: Wants::Text,
            },
            StageView::ScanNumber((i + 1) as u64),
        ),
        i == 9 ==> ends_well(
            scan_block_step(i, t),
            seq!["  No transactions found in recent blocks (this is OK for test nets)"@],
        ),
{
}

/// When the search is so many places back and the node gives the number of its
/// latest block, the block that is asked for reads as that number less the places,
/// or as zero where the chain is too short.
pub proof fn law_the_block_that_many_places_back(i: u64, s: Seq<char>, n: u64)
    requires
        quantity(s) == Some(n),
    ensures
        ({
            let step = scan_number_step(i, s);
            let back: u64 = if i <= n {
                (n - i) as u64
            } else {
                0
            };
            &&& step.lines.len() == 0
            &&& step.next matches NextView::Call(call, stage) && {
                &&& call.method == "eth_getBlockByNumber"@
                &&& call.wants is Value
                &&& call.params is Array
                &&& call.params->Array_0.len() == 2
                &&& call.params->Array_0[0] is Text
                &&& quantity(call.params->Array_0[0]->Text_0) == Some(back)
                &&& begins_with(call.params->Array_0[0]->Text_0, "0x"@)
                &&& call.params->Array_0[1] == JsonTree::Bool(false)
                &&& stage == StageView::ScanBlock(i)
            }
        }),
{
    let back: u64 = if i <= n {
        (n - i) as u64
    } else {
        0
    };
    law_hex_number_reads_back(back);
    let tag = "0x"@ + hex(back as nat);
    assert(tag.subrange(0, "0x"@.len() as int) =~= "0x"@);
}

/// As long as the chain stands still, the search asks for different blocks at
/// different places.
pub proof fn law_searched_blocks_differ(i: u64, j: u64, s: Seq<char>, n: u64)
    requires
        quantity(s) == Some(n),
        i < j <= n,
    ensures
        scan_number_step(i, s).next->Call_0.params->Array_0[0] != scan_number_step(
            j,
            s,
        ).next->Call_0.params->Array_0[0],
{
    law_the_block_that_many_places_back(i, s, n);
    law_the_block_that_many_places_back(j, s, n);
}

/// A number that cannot be read fails the search; so does a block without a hash,
/// and one without a list of transactions.
pub proof fn law_how_the_search_fails(i: u64, s: Seq<char>, t: JsonTree)
    ensures
        quantity(s) is None ==> scan_number_step(i, s) == (StepView {
            lines: seq![],
            next: NextView::Fail(quantity_failure(s)),
        }),
        !(t.at("hash"@) is Text) ==> ends_badly(
            scan_block_step(i, t),
            seq![],
            "Block should have hash"@,
        ),
        t.at("hash"@) is Text && !(t.at("transactions"@) is Array) ==> ends_badly(
            scan_block_step(i, t),
            seq![],
            "Block should have transactions array"@,
        ),
{
}

/// Of a block with transactions, the search asks for the first by the hash of the
/// block. It ends with a transaction that has a hash, and else goes on as from a
/// block without one.
pub proof fn law_the_search_ends_with_a_transaction(i: u64, t: JsonTree, empty: JsonTree)
    requires
        empty.at("hash"@) is Text,
        empty.at("transactions"@) is Array,
        empty.at("transactions"@)->Array_0.len() == 0,
    ensures
        t.at("hash"@) is Text && t.at("transactions"@) is Array && t.at(
            "transactions"@,
        )->Array_0.len() > 0 ==> scan_block_step(i, t).lines.len() == 0 && scan_block_step(
            i,
            t,
        ).next == NextView::Call(
            CallView {
                method: "eth_getTransactionByBlockHashAndIndex"@,
                params: JsonTree::Array(seq![t.at("hash"@), JsonTree::Text("0x0"@)]),
                wants: Wants::Value,
            },
            StageView::ScanTransaction(i),
        ),
        t.get("hash"@) is Some ==> ends_well(
            scan_transaction_step(i, t),
            seq!["  Transaction at index 0: "@ + compact_text(t.at("hash"@))],
        ),
        t.get("hash"@) is None ==> scan_transaction_step(i, t) == scan_block_step(i, empty),
{
    if t.at("hash"@) is Text && t.at("transactions"@) is Array && t.at(
        "transactions"@,
    )->Array_0.len() > 0 {
        let params = scan_block_step(i, t).next->Call_0.params->Array_0;
        assert(params =~= seq![t.at("hash"@), JsonTree::Text("0x0"@)]);
    }
}

/// The result of each call is read by what the check makes of it at that stage:
/// first, second, or along the search.
pub proof fn law_results_are_read_by_stage(check: Check, i: u64, s: Seq<char>, t: JsonTree)
    ensures
        probe_step(check, StageView::First, Ok(ReplyView::Text(s))) == text_step(check, s),
        probe_step(check, StageView::First, Ok(ReplyView::Value(t))) == value_step(check, t),
        probe_step(check, StageView::Second(s), Ok(ReplyView::Value(t))) == second_step(check, s, t),
        probe_step(check, StageView::ScanNumber(i), Ok(ReplyView::Text(s))) == scan_number_step(
            i,
            s,
        ),
        probe_step(check, StageView::ScanBlock(i), Ok(ReplyView::Value(t))) == scan_block_step(
            i,
            t,
        ),
        probe_step(check, StageView::ScanTransaction(i), Ok(ReplyView::Value(t)))
            == scan_transaction_step(i, t),
{
}

/// A result is taken only in the form that its call asked for: as a string where
/// the number of the latest block is asked for along the search, and as any value
/// at the other later stages.
pub proof fn law_results_are_taken_in_their_form(check: Check, i: u64, s: Seq<char>, t: JsonTree)
    ensures
        is_admitted(check, StageView::ScanNumber(i), ReplyView::Text(s)),
        !is_admitted(check, StageView::ScanNumber(i), ReplyView::Value(t)),
        is_admitted(check, StageView::ScanBlock(i), ReplyView::Value(t)),
        !is_admitted(check, StageView::ScanBlock(i), ReplyView::Text(s)),
        is_admitted(check, StageView::ScanTransaction(i), ReplyView::Value(t)),
        !is_admitted(check, StageView::ScanTransaction(i), ReplyView::Text(s)),
        is_admitted(check, StageView::Second(s), ReplyView::Value(t)),
        !is_admitted(check, StageView::Second(s), ReplyView::Text(s)),
        is_admitted(check, StageView::First, ReplyView::Text(s)) <==> wanted(
            check,
            StageView::First,
        ) is Text,
        is_admitted(check, StageView::First, ReplyView::Value(t)) <==> wanted(
            check,
            StageView::First,
        ) is Value && value_is_expected(check, t),
{
}

} // verus!
