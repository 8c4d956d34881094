//! What the checks make of the results of their calls.

use crate::chain::{ChainType, chain_name, chain_of_id};
use crate::checks::{Check, tracer, tracer_param};
use crate::hex::{parse_quantity, quantity, quantity_failure};
use crate::json::{Json, JsonTree, compact_text, json_trees, lemma_json_trees, list, object, text};
use crate::steps::{
    Call, CallView, Stage, StageView, Step, StepView, calls, failed, passed, refused, text_call,
    value_call,
};
use crate::text::{
    add_line, begins_with, decimal, decimal_text, hex, hex_text, join2, join3, join4, join5,
    lines_of, no_lines, one_line, str_starts_with,
};
use vstd::prelude::*;
use vstd::utf8::{decode_utf8, encode_utf8, is_char_boundary};

verus! {

/// How many bytes a text takes in UTF-8.
pub open spec fn byte_len(s: Seq<char>) -> nat {
    encode_utf8(s).len()
}

/// How many bytes a text takes in UTF-8.
fn bytes_in(s: &str) -> (r: usize)
    ensures
        r == byte_len(s@),
{
    s.as_bytes().len()
}

// ---------------------------------------------------------------------------
// Shapes that several checks share.

/// A line that shows a member, if it is there.
pub open spec fn member_line(label: Seq<char>, t: JsonTree, key: Seq<char>) -> Seq<Seq<char>> {
    match t.get(key) {
        Some(value) => seq![label + compact_text(value)],
        None => seq![],
    }
}

/// Adds a line that shows a member, if it is there.
fn show_member(lines: &mut Vec<String>, label: &str, value: &Json, key: &str)
    ensures
        lines_of(final(lines)@) == lines_of(old(lines)@) + member_line(label@, value@, key@),
{
    match value.get(key) {
        Some(member) => {
            add_line(lines, join2(label, member.text().as_str()));
        },
        None => {},
    }
    assert(lines_of(lines@) =~= lines_of(old(lines)@) + member_line(label@, value@, key@));
}

/// The items of a list that may be there.
pub open spec fn items_of(items: Option<&Vec<Json>>) -> Option<Seq<JsonTree>> {
    match items {
        Some(v) => Some(json_trees(v@)),
        None => None,
    }
}

/// A line that gives the number of items, if there are any to count.
pub open spec fn count_line(
    before: Seq<char>,
    items: Option<Seq<JsonTree>>,
    after: Seq<char>,
) -> Seq<Seq<char>> {
    match items {
        Some(s) => seq![before + decimal(s.len()) + after],
        None => seq![],
    }
}

/// Adds a line that gives the number of items, if there are any to count.
fn show_count(lines: &mut Vec<String>, before: &str, items: Option<&Vec<Json>>, after: &str)
    ensures
        lines_of(final(lines)@) == lines_of(old(lines)@) + count_line(
            before@,
            items_of(items),
            after@,
        ),
{
    match items {
        Some(v) => {
            proof {
                lemma_json_trees(v@);
            }
            add_line(lines, join3(before, decimal_text(v.len() as u64).as_str(), after));
            assert(lines_of(lines@) =~= lines_of(old(lines)@) + count_line(
                before@,
                items_of(items),
                after@,
            ));
        },
        None => {
            assert(lines_of(lines@) =~= lines_of(old(lines)@) + seq![]);
        },
    }
}

/// The check passes with the number of items, if there are any to count.
pub open spec fn counted(
    before: Seq<char>,
    items: Option<Seq<JsonTree>>,
    after: Seq<char>,
) -> StepView {
    passed(count_line(before, items, after))
}

fn count(before: &str, items: Option<&Vec<Json>>, after: &str) -> (r: Step)
    ensures
        r@ == counted(
            before@,
            items_of(items),
            after@,
        ),
{
    let mut lines = no_lines();
    show_count(&mut lines, before, items, after);
    assert(lines_of(lines@) =~= count_line(
        before@,
        items_of(items),
        after@,
    ));
    Step::pass(lines)
}

/// The check passes with the number of items, or fails where there is no list.
pub open spec fn must_count(
    before: Seq<char>,
    items: Option<Seq<JsonTree>>,
    after: Seq<char>,
    message: Seq<char>,
) -> StepView {
    match items {
        Some(_) => counted(before, items, after),
        None => refused(seq![], message),
    }
}

fn count_or_refuse(before: &str, items: Option<&Vec<Json>>, after: &str, message: &str) -> (r: Step)
    ensures
        r@ == must_count(
            before@,
            items_of(items),
            after@,
            message@,
        ),
{
    match items {
        Some(_) => count(before, items, after),
        None => Step::refuse(no_lines(), message),
    }
}

/// A line with a quantity and its value in decimal.
pub open spec fn quantity_line(label: Seq<char>, s: Seq<char>, n: u64) -> Seq<char> {
    label + s + " ("@ + decimal(n as nat) + ")"@
}

/// A line with a price in wei and in gwei.
pub open spec fn price_line(label: Seq<char>, s: Seq<char>, n: u64) -> Seq<char> {
    label + s + " wei ("@ + decimal((n / 1_000_000_000) as nat) + " gwei)"@
}

/// The check passes with a quantity and its value.
pub open spec fn quantity_step(label: Seq<char>, s: Seq<char>) -> StepView {
    match quantity(s) {
        Some(n) => passed(seq![quantity_line(label, s, n)]),
        None => failed(quantity_failure(s)),
    }
}

fn report_quantity(label: &str, s: &str) -> (r: Step)
    ensures
        r@ == quantity_step(label@, s@),
{
    match parse_quantity(s) {
        Ok(n) => Step::pass(
            one_line(join5(label, s, " (", decimal_text(n).as_str(), ")")),
        ),
        Err(f) => Step::fail(f),
    }
}

/// The check passes if the text begins with "0x", and shows it either way.
pub open spec fn prefixed_step(label: Seq<char>, s: Seq<char>, message: Seq<char>) -> StepView {
    if begins_with(s, "0x"@) {
        passed(seq![label + s])
    } else {
        refused(seq![label + s], message)
    }
}

fn require_prefix(label: &str, s: &str, message: &str) -> (r: Step)
    ensures
        r@ == prefixed_step(label@, s@, message@),
{
    let lines = one_line(join2(label, s));
    if str_starts_with(s, "0x") {
        Step::pass(lines)
    } else {
        Step::refuse(lines, message)
    }
}

// ---------------------------------------------------------------------------
// First results that are strings.

/// The chain that the node says it is on.
pub open spec fn chain_id_step(s: Seq<char>) -> StepView {
    match quantity(s) {
        Some(n) => passed(
            seq![
                "  Chain ID: "@ + s + " ("@ + decimal(n as nat) + " - "@ + chain_name(
                    chain_of_id(n),
                ) + ")"@,
            ],
        ),
        None => failed(quantity_failure(s)),
    }
}

fn on_chain_id(s: &str) -> (r: Step)
    ensures
        r@ == chain_id_step(s@),
{
    match parse_quantity(s) {
        Ok(n) => {
            let chain = ChainType::from_chain_id(n);
            let head = join5("  Chain ID: ", s, " (", decimal_text(n).as_str(), " - ");
            Step::pass(one_line(join3(head.as_str(), chain.name(), ")")))
        },
        Err(f) => Step::fail(f),
    }
}

/// The latest block must not be the first one.
pub open spec fn block_number_step(s: Seq<char>) -> StepView {
    match quantity(s) {
        Some(n) => if n == 0 {
            refused(
                seq![quantity_line("  Current block: "@, s, n)],
                "Block number should be greater than 0"@,
            )
        } else {
            passed(seq![quantity_line("  Current block: "@, s, n)])
        },
        None => failed(quantity_failure(s)),
    }
}

fn on_block_number(s: &str) -> (r: Step)
    ensures
        r@ == block_number_step(s@),
{
    match parse_quantity(s) {
        Ok(n) => {
            let lines = one_line(
                join5("  Current block: ", s, " (", decimal_text(n).as_str(), ")"),
            );
            if n == 0 {
                Step::refuse(lines, "Block number should be greater than 0")
            } else {
                Step::pass(lines)
            }
        },
        Err(f) => Step::fail(f),
    }
}

/// The gas price.
pub open spec fn gas_price_step(s: Seq<char>) -> StepView {
    match quantity(s) {
        Some(n) => passed(seq![price_line("  Gas price: "@, s, n)]),
        None => failed(quantity_failure(s)),
    }
}

/// A line with a price in wei and in gwei.
fn price_text(label: &str, s: &str, n: u64) -> (r: String)
    ensures
        r@ == price_line(label@, s@, n),
{
    join5(label, s, " wei (", decimal_text(n / 1_000_000_000).as_str(), " gwei)")
}

fn on_gas_price(s: &str) -> (r: Step)
    ensures
        r@ == gas_price_step(s@),
{
    match parse_quantity(s) {
        Ok(n) => Step::pass(one_line(price_text("  Gas price: ", s, n))),
        Err(f) => Step::fail(f),
    }
}

/// The code of a contract: two hexadecimal digits to the byte, behind "0x".
pub open spec fn code_step(s: Seq<char>) -> StepView {
    if byte_len(s) > 2 {
        passed(
            seq![
                "  Contract code length: "@ + decimal(((byte_len(s) - 2) / 2) as nat) + " bytes"@,
            ],
        )
    } else {
        passed(seq!["  No code at address (EOA or empty)"@])
    }
}

fn on_code(s: &str) -> (r: Step)
    ensures
        r@ == code_step(s@),
{
    let n: usize = bytes_in(s);
    if n > 2 {
        let bytes: u64 = ((n - 2) / 2) as u64;
        Step::pass(
            one_line(
                join3("  Contract code length: ", decimal_text(bytes).as_str(), " bytes"),
            ),
        )
    } else {
        Step::pass(one_line("  No code at address (EOA or empty)".to_string()))
    }
}

/// The call of a bundle at a block.
pub open spec fn bundle_call(block: Seq<char>) -> CallView {
    value_call(
        "eth_callBundle"@,
        list().item(
            object().with("txs"@, list()).with("blockNumber"@, text(block)).with(
                "stateBlockNumber"@,
                text("latest"@),
            ),
        ),
    )
}

/// The call of several calls at a block.
pub open spec fn many_call(block: Seq<char>) -> CallView {
    value_call(
        "eth_callMany"@,
        list().item(
            list().item(
                object().with(
                    "transactions"@,
                    list().item(
                        object().with(
                            "to"@,
                            text("0x4200000000000000000000000000000000000006"@),
                        ).with("data"@, text("0x18160ddd"@)),
                    ),
                ).with("blockOverride"@, object().with("blockNumber"@, text(block))),
            ),
        ).item(object()).item(object()),
    )
}

/// The call of a method on one text.
pub open spec fn text_param_call(method: Seq<char>, s: Seq<char>) -> CallView {
    value_call(method, list().item(text(s)))
}

fn call_with_text(method: &str, s: &str) -> (r: Call)
    ensures
        r@ == text_param_call(method@, s@),
{
    Call::for_value(method, Json::list().item(Json::string(s)))
}

fn on_bundle_block(s: &str) -> (r: Step)
    ensures
        r@ == calls(bundle_call(s@), StageView::Second(s@)),
{
    let call = Call::for_value(
        "eth_callBundle",
        Json::list().item(
            Json::object().with("txs", Json::list()).with("blockNumber", Json::string(s)).with(
                "stateBlockNumber",
                Json::string("latest"),
            ),
        ),
    );
    Step::call(call, Stage::Second(s.to_string()))
}

fn on_many_block(s: &str) -> (r: Step)
    ensures
        r@ == calls(many_call(s@), StageView::Second(s@)),
{
    let call = Call::for_value(
        "eth_callMany",
        Json::list().item(
            Json::list().item(
                Json::object().with(
                    "transactions",
                    Json::list().item(
                        Json::object().with(
                            "to",
                            Json::string("0x4200000000000000000000000000000000000006"),
                        ).with("data", Json::string("0x18160ddd")),
                    ),
                ).with("blockOverride", Json::object().with("blockNumber", Json::string(s))),
            ),
        ).item(Json::object()).item(Json::object()),
    );
    Step::call(call, Stage::Second(s.to_string()))
}

/// What a check makes of a first result that is a string.
pub open spec fn text_step(check: Check, s: Seq<char>) -> StepView {
    match check {
        Check::EthChainId => chain_id_step(s),
        Check::EthBlockNumber => block_number_step(s),
        Check::EthGasPrice => gas_price_step(s),
        Check::EthGetBalance => prefixed_step(
            "  Balance of zero address: "@,
            s,
            "Balance should start with 0x"@,
        ),
        Check::EthGetTransactionCount => quantity_step("  Transaction count: "@, s),
        Check::EthCall => prefixed_step(
            "  Call result: "@,
            s,
            "Call result should start with 0x"@,
        ),
        Check::EthEstimateGas => quantity_step("  Estimated gas: "@, s),
        Check::EthGetCode => code_step(s),
        Check::NetVersion => passed(seq!["  Network version: "@ + s]),
        Check::Web3ClientVersion => passed(seq!["  Client version: "@ + s]),
        Check::EthCallBundle => calls(bundle_call(s), StageView::Second(s)),
        Check::EthCallMany => calls(many_call(s), StageView::Second(s)),
        Check::ParliaGetValidators => calls(
            text_param_call("parlia_getValidators"@, s),
            StageView::Second(s),
        ),
        Check::ArbGetL1Confirmations => calls(
            text_param_call("arb_getL1Confirmations"@, s),
            StageView::Second(s),
        ),
        _ => passed(seq![]),
    }
}

/// The first result of the check is a string.
pub open spec fn begins_with_text(check: Check) -> bool {
    match check {
        Check::EthChainId => true,
        Check::EthBlockNumber => true,
        Check::EthGasPrice => true,
        Check::EthGetBalance => true,
        Check::EthGetTransactionCount => true,
        Check::EthCall => true,
        Check::EthEstimateGas => true,
        Check::EthGetCode => true,
        Check::NetVersion => true,
        Check::Web3ClientVersion => true,
        Check::EthCallBundle => true,
        Check::EthCallMany => true,
        Check::ParliaGetValidators => true,
        Check::ArbGetL1Confirmations => true,
        _ => false,
    }
}

/// What a check makes of a first result that is a string.
pub fn on_text(check: Check, s: &str) -> (r: Step)
    requires
        begins_with_text(check),
    ensures
        r@ == text_step(check, s@),
{
    match check {
        Check::EthChainId => on_chain_id(s),
        Check::EthBlockNumber => on_block_number(s),
        Check::EthGasPrice => on_gas_price(s),
        Check::EthGetBalance => require_prefix(
            "  Balance of zero address: ",
            s,
            "Balance should start with 0x",
        ),
        Check::EthGetTransactionCount => report_quantity("  Transaction count: ", s),
        Check::EthCall => require_prefix(
            "  Call result: ",
            s,
            "Call result should start with 0x",
        ),
        Check::EthEstimateGas => report_quantity("  Estimated gas: ", s),
        Check::EthGetCode => on_code(s),
        Check::NetVersion => Step::pass(one_line(join2("  Network version: ", s))),
        Check::Web3ClientVersion => Step::pass(one_line(join2("  Client version: ", s))),
        Check::EthCallBundle => on_bundle_block(s),
        Check::EthCallMany => on_many_block(s),
        Check::ParliaGetValidators => Step::call(
            call_with_text("parlia_getValidators", s),
            Stage::Second(s.to_string()),
        ),
        Check::ArbGetL1Confirmations => Step::call(
            call_with_text("arb_getL1Confirmations", s),
            Stage::Second(s.to_string()),
        ),
        _ => Step::pass(no_lines()),
    }
}

// ---------------------------------------------------------------------------
// First results that may be any value.

/// A block must have a number and a hash.
pub open spec fn block_step(t: JsonTree) -> StepView {
    match t.at("number"@).as_text() {
        None => refused(seq![], "Block should have number field"@),
        Some(number) => match quantity(number) {
            None => failed(quantity_failure(number)),
            Some(n) => {
                let lines = seq![quantity_line("  Block number: "@, number, n)];
                if t.get("hash"@) is None {
                    refused(lines, "Block should have hash field"@)
                } else {
                    passed(lines)
                }
            },
        },
    }
}

fn on_block(t: &Json) -> (r: Step)
    ensures
        r@ == block_step(t@),
{
    match t.text_at("number") {
        None => Step::refuse(no_lines(), "Block should have number field"),
        Some(number) => match parse_quantity(number) {
            Err(f) => Step::fail(f),
            Ok(n) => {
                let lines = one_line(
                    join5("  Block number: ", number, " (", decimal_text(n).as_str(), ")"),
                );
                if t.get("hash").is_none() {
                    Step::refuse(lines, "Block should have hash field")
                } else {
                    Step::pass(lines)
                }
            },
        },
    }
}

/// The block is asked for again, by its hash.
pub open spec fn block_hash_step(t: JsonTree) -> StepView {
    match t.at("hash"@).as_text() {
        None => refused(seq![], "Block should have hash field"@),
        Some(hash) => calls(
            value_call(
                "eth_getBlockByHash"@,
                list().item(text(hash)).item(JsonTree::Bool(false)),
            ),
            StageView::Second(hash),
        ),
    }
}

fn on_block_hash(t: &Json) -> (r: Step)
    ensures
        r@ == block_hash_step(t@),
{
    match t.text_at("hash") {
        None => Step::refuse(no_lines(), "Block should have hash field"),
        Some(hash) => Step::call(
            Call::for_value(
                "eth_getBlockByHash",
                Json::list().item(Json::string(hash)).item(Json::Bool(false)),
            ),
            Stage::Second(hash.to_string()),
        ),
    }
}

/// The base fee that is shown: that of the last block in the history, if it is
/// given as a string.
pub open spec fn latest_fee(fees: Option<Seq<JsonTree>>) -> Option<Seq<char>> {
    match fees {
        Some(items) => if items.len() > 0 {
            items.last().as_text()
        } else {
            None
        },
        None => None,
    }
}

/// A fee history must give base fees.
pub open spec fn fee_history_step(t: JsonTree) -> StepView {
    if t.get("baseFeePerGas"@) is None {
        refused(seq![], "Fee history should have baseFeePerGas"@)
    } else {
        match latest_fee(t.at("baseFeePerGas"@).as_array()) {
            Some(fee) => match quantity(fee) {
                Some(n) => passed(seq![price_line("  Latest base fee: "@, fee, n)]),
                None => failed(quantity_failure(fee)),
            },
            None => passed(seq![]),
        }
    }
}

/// The base fees of a history, if there are any, are a list.
pub open spec fn fees_are_listed(t: JsonTree) -> bool {
    t.get("baseFeePerGas"@) matches Some(fees) ==> fees.as_array() is Some
}

fn on_fee_history(t: &Json) -> (r: Step)
    ensures
        r@ == fee_history_step(t@),
{
    if t.get("baseFeePerGas").is_none() {
        return Step::refuse(no_lines(), "Fee history should have baseFeePerGas");
    }
    match t.array_at("baseFeePerGas") {
        Some(items) => {
            proof {
                lemma_json_trees(items@);
            }
            if items.len() > 0 {
                match items[items.len() - 1].as_str() {
                    Some(fee) => match parse_quantity(fee) {
                        Ok(n) => Step::pass(one_line(price_text("  Latest base fee: ", fee, n))),
                        Err(f) => Step::fail(f),
                    },
                    None => Step::pass(no_lines()),
                }
            } else {
                Step::pass(no_lines())
            }
        },
        None => Step::pass(no_lines()),
    }
}

/// The call that a check makes with the hash of a transaction.
pub open spec fn hash_call(check: Check, hash: Seq<char>) -> CallView {
    match check {
        Check::EthGetTransactionReceipt => text_param_call("eth_getTransactionReceipt"@, hash),
        Check::EthGetTransactionByHash => text_param_call("eth_getTransactionByHash"@, hash),
        Check::DebugTraceTransaction => value_call(
            "debug_traceTransaction"@,
            list().item(text(hash)).item(tracer()),
        ),
        _ => text_param_call("trace_transaction"@, hash),
    }
}

fn call_with_hash(check: Check, hash: &str) -> (r: Call)
    ensures
        r@ == hash_call(check, hash@),
{
    match check {
        Check::EthGetTransactionReceipt => call_with_text("eth_getTransactionReceipt", hash),
        Check::EthGetTransactionByHash => call_with_text("eth_getTransactionByHash", hash),
        Check::DebugTraceTransaction => Call::for_value(
            "debug_traceTransaction",
            Json::list().item(Json::string(hash)).item(tracer_param()),
        ),
        _ => call_with_text("trace_transaction", hash),
    }
}

/// What is printed when the latest block has no transaction to go on with.
pub open spec fn no_transaction_line(check: Check) -> Seq<char> {
    match check {
        Check::EthGetTransactionReceipt => "  No transactions in latest block to get receipt"@,
        Check::EthGetTransactionByHash => "  No transactions found in latest block"@,
        _ => "  No transactions found to trace"@,
    }
}

/// The hash of the first transaction in a list.
pub open spec fn first_hash(transactions: Seq<JsonTree>) -> Option<Seq<char>> {
    if transactions.len() > 0 {
        transactions[0].at("hash"@).as_text()
    } else {
        None
    }
}

/// The check goes on with the first transaction of the latest block.
pub open spec fn first_transaction_step(check: Check, t: JsonTree) -> StepView {
    match t.at("transactions"@).as_array() {
        None => refused(seq![], "No transactions array"@),
        Some(transactions) => match first_hash(transactions) {
            Some(hash) => calls(hash_call(check, hash), StageView::Second(hash)),
            None => passed(seq![no_transaction_line(check)]),
        },
    }
}

fn on_latest_transactions(check: Check, t: &Json) -> (r: Step)
    ensures
        r@ == first_transaction_step(check, t@),
{
    match t.array_at("transactions") {
        None => Step::refuse(no_lines(), "No transactions array"),
        Some(transactions) => {
            proof {
                lemma_json_trees(transactions@);
            }
            if transactions.len() > 0 {
                match transactions[0].text_at("hash") {
                    Some(hash) => {
                        return Step::call(
                            call_with_hash(check, hash),
                            Stage::Second(hash.to_string()),
                        );
                    },
                    None => {},
                }
            }
            let line = match check {
                Check::EthGetTransactionReceipt =>
                    "  No transactions in latest block to get receipt",
                Check::EthGetTransactionByHash => "  No transactions found in latest block",
                _ => "  No transactions found to trace",
            };
            Step::pass(one_line(line.to_string()))
        },
    }
}

/// The text of a member, or "0" where it has none.
pub open spec fn text_or_zero(t: JsonTree, key: Seq<char>) -> Seq<char> {
    match t.at(key).as_text() {
        Some(s) => s,
        None => "0"@,
    }
}

/// The number of members of a member, or zero where it is no object.
pub open spec fn members_or_zero(t: JsonTree, key: Seq<char>) -> nat {
    match t.at(key).as_object() {
        Some(m) => m.len(),
        None => 0,
    }
}

fn member_text_or_zero<'a>(t: &'a Json, key: &str) -> (r: &'a str)
    ensures
        r@ == text_or_zero(t@, key@),
{
    match t.text_at(key) {
        Some(s) => s,
        None => "0",
    }
}

fn member_count_or_zero(t: &Json, key: &str) -> (r: usize)
    ensures
        r == members_or_zero(t@, key@),
{
    match t.get(key) {
        Some(member) => match member.member_count() {
            Some(n) => n,
            None => 0,
        },
        None => 0,
    }
}

/// How many transactions the pool holds.
pub open spec fn pool_status_step(t: JsonTree) -> StepView {
    passed(
        seq![
            "  Pending: "@ + text_or_zero(t, "pending"@) + ", Queued: "@ + text_or_zero(
                t,
                "queued"@,
            ),
        ],
    )
}

fn on_pool_status(t: &Json) -> (r: Step)
    ensures
        r@ == pool_status_step(t@),
{
    Step::pass(
        one_line(
            join4(
                "  Pending: ",
                member_text_or_zero(t, "pending"),
                ", Queued: ",
                member_text_or_zero(t, "queued"),
            ),
        ),
    )
}

/// How many accounts have transactions in the pool.
pub open spec fn pool_content_step(t: JsonTree) -> StepView {
    passed(
        seq![
            "  Pending accounts: "@ + decimal(members_or_zero(t, "pending"@))
                + ", Queued accounts: "@ + decimal(members_or_zero(t, "queued"@)),
        ],
    )
}

fn on_pool_content(t: &Json) -> (r: Step)
    ensures
        r@ == pool_content_step(t@),
{
    let pending: u64 = member_count_or_zero(t, "pending") as u64;
    let queued: u64 = member_count_or_zero(t, "queued") as u64;
    Step::pass(
        one_line(
            join4(
                "  Pending accounts: ",
                decimal_text(pending).as_str(),
                ", Queued accounts: ",
                decimal_text(queued).as_str(),
            ),
        ),
    )
}

/// Where the shown part of an enode address ends, in bytes.
pub open spec fn enode_cut(s: Seq<char>) -> int {
    if byte_len(s) < 50 {
        byte_len(s) as int
    } else {
        50
    }
}

/// The shown part of an enode address: its first fifty bytes.
pub open spec fn enode_head(s: Seq<char>) -> Seq<char> {
    decode_utf8(encode_utf8(s).subrange(0, enode_cut(s)))
}

/// The shown part of an enode address does not end within a character.
pub open spec fn enode_can_be_cut(s: Seq<char>) -> bool {
    is_char_boundary(encode_utf8(s), enode_cut(s))
}

/// The enode address of a node description, if it has one, can be cut.
pub open spec fn node_info_can_be_shown(t: JsonTree) -> bool {
    t.at("enode"@).as_text() matches Some(enode) ==> enode_can_be_cut(enode)
}

/// The line with the name of a node, if it is given.
pub open spec fn node_name_lines(t: JsonTree) -> Seq<Seq<char>> {
    match t.at("name"@).as_text() {
        Some(name) => seq!["  Node name: "@ + name],
        None => seq![],
    }
}

/// The name and the address of a node, in so far as they are given.
pub open spec fn node_info_step(t: JsonTree) -> StepView {
    passed(
        node_name_lines(t) + (match t.at("enode"@).as_text() {
            Some(enode) => seq!["  Enode: "@ + enode_head(enode) + "..."@],
            None => seq![],
        }),
    )
}

/// The shown part of an enode address.
fn enode_head_text(s: &str) -> (r: &str)
    requires
        enode_can_be_cut(s@),
    ensures
        r@ == enode_head(s@),
{
    let n: usize = bytes_in(s);
    let cut: usize = if n < 50 {
        n
    } else {
        50
    };
    let (head, _) = s.split_at(cut);
    proof {
        vstd::utf8::encode_utf8_decode_utf8(head@);
    }
    head
}

fn show_node_name(t: &Json) -> (r: Vec<String>)
    ensures
        lines_of(r@) == node_name_lines(t@),
{
    match t.text_at("name") {
        Some(name) => one_line(join2("  Node name: ", name)),
        None => no_lines(),
    }
}

fn on_node_info(t: &Json) -> (r: Step)
    requires
        node_info_can_be_shown(t@),
    ensures
        r@ == node_info_step(t@),
{
    let mut lines = show_node_name(t);
    match t.text_at("enode") {
        Some(enode) => {
            add_line(&mut lines, join3("  Enode: ", enode_head_text(enode), "..."));
        },
        None => {},
    }
    assert(lines_of(lines@) =~= node_info_step(t@).lines);
    Step::pass(lines)
}

/// The header of the last finalized block.
pub open spec fn finalized_block_step(t: JsonTree) -> StepView {
    passed(
        member_line("  Finalized block number: "@, t, "number"@) + count_line(
            "  Transactions: "@,
            t.at("transactions"@).as_array(),
            ""@,
        ),
    )
}

fn on_finalized_block(t: &Json) -> (r: Step)
    ensures
        r@ == finalized_block_step(t@),
{
    let mut lines = no_lines();
    show_member(&mut lines, "  Finalized block number: ", t, "number");
    show_count(&mut lines, "  Transactions: ", t.array_at("transactions"), "");
    assert(lines_of(lines@) =~= finalized_block_step(t@).lines);
    Step::pass(lines)
}

/// Whether the output root is there.
pub open spec fn output_root_step(t: JsonTree) -> StepView {
    if t.get("outputRoot"@) is Some {
        passed(seq!["  Output root available: true"@])
    } else {
        passed(seq!["  Output root available: false"@])
    }
}

fn on_output_root(t: &Json) -> (r: Step)
    ensures
        r@ == output_root_step(t@),
{
    if t.get("outputRoot").is_some() {
        Step::pass(one_line("  Output root available: true".to_string()))
    } else {
        Step::pass(one_line("  Output root available: false".to_string()))
    }
}

fn on_finalized_header(t: &Json) -> (r: Step)
    ensures
        r@ == passed(member_line("  Finalized block: "@, t@, "number"@)),
{
    let mut lines = no_lines();
    show_member(&mut lines, "  Finalized block: ", t, "number");
    assert(lines_of(lines@) =~= member_line("  Finalized block: "@, t@, "number"@));
    Step::pass(lines)
}

/// What a check makes of a first result that may be any value.
pub open spec fn value_step(check: Check, t: JsonTree) -> StepView {
    match check {
        Check::EthGetBlockByNumber => block_step(t),
        Check::EthGetBlockByHash => block_hash_step(t),
        Check::EthGetBlockWithTxs => must_count(
            "  Latest block has "@,
            t.at("transactions"@).as_array(),
            " transactions"@,
            "Block should have transactions array"@,
        ),
        Check::EthFeeHistory => fee_history_step(t),
        Check::EthGetLogs => must_count(
            "  Found "@,
            t.as_array(),
            " logs in latest block"@,
            "Logs should be an array"@,
        ),
        Check::EthGetTransactionReceipt => first_transaction_step(check, t),
        Check::EthGetTransactionByHash => first_transaction_step(check, t),
        Check::DebugTraceTransaction => first_transaction_step(check, t),
        Check::TraceTransaction => first_transaction_step(check, t),
        Check::EthEstimateGasBundle => counted(
            "  Estimated gas for "@,
            t.at("results"@).as_array(),
            " transactions in bundle"@,
        ),
        Check::EthSimulateV1 => counted("  Simulated "@, t.as_array(), " blocks"@),
        Check::EthCalls => counted("  Executed "@, t.as_array(), " calls in sequence"@),
        Check::EthGetBlockReceipts => counted(
            "  Found "@,
            t.as_array(),
            " receipts in latest block"@,
        ),
        Check::DebugTraceBlockByNumber => must_count(
            "  Traced "@,
            t.as_array(),
            " transactions in latest block"@,
            "Trace should be an array"@,
        ),
        Check::TxpoolStatus => pool_status_step(t),
        Check::TxpoolContent => pool_content_step(t),
        Check::AdminNodeInfo => node_info_step(t),
        Check::AdminPeers => must_count(
            "  Connected peers: "@,
            t.as_array(),
            ""@,
            "Peers should be an array"@,
        ),
        Check::TraceBlock => must_count(
            "  Found "@,
            t.as_array(),
            " traces in latest block"@,
            "Trace should be an array"@,
        ),
        Check::ParliaGetSnapshot => counted(
            "  Validator count: "@,
            t.at("validators"@).as_array(),
            ""@,
        ),
        Check::EthGetFinalizedHeader => passed(
            member_line("  Finalized block: "@, t, "number"@),
        ),
        Check::EthGetFinalizedBlock => finalized_block_step(t),
        Check::OptimismOutputAtBlock => output_root_step(t),
        _ => passed(seq![]),
    }
}

/// The first result of the check may be any value.
pub open spec fn begins_with_value(check: Check) -> bool {
    !begins_with_text(check) && !(check is EthGetTransactionByBlockHashAndIndex)
}

/// The check can be answered with that first value. The two checks that take
/// the form of a part of it for granted cannot be answered with every value.
pub open spec fn value_is_expected(check: Check, t: JsonTree) -> bool {
    match check {
        Check::EthFeeHistory => fees_are_listed(t),
        Check::AdminNodeInfo => node_info_can_be_shown(t),
        _ => true,
    }
}

/// Whether the check can be answered with that first value.
pub fn expects_value(check: Check, t: &Json) -> (r: bool)
    ensures
        r == value_is_expected(check, t@),
{
    match check {
        Check::EthFeeHistory => match t.get("baseFeePerGas") {
            Some(fees) => fees.as_array().is_some(),
            None => true,
        },
        Check::AdminNodeInfo => match t.text_at("enode") {
            Some(enode) => {
                let n: usize = bytes_in(enode);
                if n < 50 {
                    enode.is_char_boundary(n)
                } else {
                    enode.is_char_boundary(50)
                }
            },
            None => true,
        },
        _ => true,
    }
}

/// What is printed of a first value that the check cannot be answered with: of a
/// node description, the part before the address.
pub open spec fn broken_off_lines(check: Check, t: JsonTree) -> Seq<Seq<char>> {
    match check {
        Check::AdminNodeInfo => node_name_lines(t),
        _ => seq![],
    }
}

/// What is printed of a first value that the check cannot be answered with.
pub fn show_broken_off(check: Check, t: &Json) -> (r: Vec<String>)
    ensures
        lines_of(r@) == broken_off_lines(check, t@),
{
    match check {
        Check::AdminNodeInfo => show_node_name(t),
        _ => no_lines(),
    }
}

/// What a check makes of a first result that may be any value.
pub fn on_value(check: Check, t: &Json) -> (r: Step)
    requires
        begins_with_value(check),
        value_is_expected(check, t@),
    ensures
        r@ == value_step(check, t@),
{
    match check {
        Check::EthGetBlockByNumber => on_block(t),
        Check::EthGetBlockByHash => on_block_hash(t),
        Check::EthGetBlockWithTxs => count_or_refuse(
            "  Latest block has ",
            t.array_at("transactions"),
            " transactions",
            "Block should have transactions array",
        ),
        Check::EthFeeHistory => on_fee_history(t),
        Check::EthGetLogs => count_or_refuse(
            "  Found ",
            t.as_array(),
            " logs in latest block",
            "Logs should be an array",
        ),
        Check::EthGetTransactionReceipt => on_latest_transactions(check, t),
        Check::EthGetTransactionByHash => on_latest_transactions(check, t),
        Check::DebugTraceTransaction => on_latest_transactions(check, t),
        Check::TraceTransaction => on_latest_transactions(check, t),
        Check::EthEstimateGasBundle => count(
            "  Estimated gas for ",
            t.array_at("results"),
            " transactions in bundle",
        ),
        Check::EthSimulateV1 => count("  Simulated ", t.as_array(), " blocks"),
        Check::EthCalls => count("  Executed ", t.as_array(), " calls in sequence"),
        Check::EthGetBlockReceipts => count("  Found ", t.as_array(), " receipts in latest block"),
        Check::DebugTraceBlockByNumber => count_or_refuse(
            "  Traced ",
            t.as_array(),
            " transactions in latest block",
            "Trace should be an array",
        ),
        Check::TxpoolStatus => on_pool_status(t),
        Check::TxpoolContent => on_pool_content(t),
        Check::AdminNodeInfo => on_node_info(t),
        Check::AdminPeers => count_or_refuse(
            "  Connected peers: ",
            t.as_array(),
            "",
            "Peers should be an array",
        ),
        Check::TraceBlock => count_or_refuse(
            "  Found ",
            t.as_array(),
            " traces in latest block",
            "Trace should be an array",
        ),
        Check::ParliaGetSnapshot => count("  Validator count: ", t.array_at("validators"), ""),
        Check::EthGetFinalizedHeader => on_finalized_header(t),
        Check::EthGetFinalizedBlock => on_finalized_block(t),
        Check::OptimismOutputAtBlock => on_output_root(t),
        _ => Step::pass(no_lines()),
    }
}

// ---------------------------------------------------------------------------
// Second results.

/// The number of a block that was asked for by its hash.
pub open spec fn block_by_hash_step(hash: Seq<char>, t: JsonTree) -> StepView {
    match t.at("number"@).as_text() {
        None => refused(seq![], "Block should have number field"@),
        Some(number) => passed(seq!["  Block by hash "@ + hash + ": "@ + number]),
    }
}

fn on_block_by_hash(hash: &str, t: &Json) -> (r: Step)
    ensures
        r@ == block_by_hash_step(hash@, t@),
{
    match t.text_at("number") {
        None => Step::refuse(no_lines(), "Block should have number field"),
        Some(number) => Step::pass(one_line(join4("  Block by hash ", hash, ": ", number))),
    }
}

/// The status and the gas of a receipt, in so far as they are given.
pub open spec fn receipt_step(t: JsonTree) -> StepView {
    passed(
        member_line("  Receipt status: "@, t, "status"@) + member_line(
            "  Gas used: "@,
            t,
            "gasUsed"@,
        ),
    )
}

fn on_receipt(t: &Json) -> (r: Step)
    ensures
        r@ == receipt_step(t@),
{
    let mut lines = no_lines();
    show_member(&mut lines, "  Receipt status: ", t, "status");
    show_member(&mut lines, "  Gas used: ", t, "gasUsed");
    assert(lines_of(lines@) =~= receipt_step(t@).lines);
    Step::pass(lines)
}

/// What came of the simulation of a bundle.
pub open spec fn bundle_step(t: JsonTree) -> StepView {
    passed(
        (if t.get("results"@) is Some {
            seq!["  Bundle simulation completed"@]
        } else {
            seq![]
        }) + member_line("  Total gas used: "@, t, "totalGasUsed"@),
    )
}

fn on_bundle(t: &Json) -> (r: Step)
    ensures
        r@ == bundle_step(t@),
{
    let mut lines = no_lines();
    if t.get("results").is_some() {
        add_line(&mut lines, "  Bundle simulation completed".to_string());
    }
    show_member(&mut lines, "  Total gas used: ", t, "totalGasUsed");
    assert(lines_of(lines@) =~= bundle_step(t@).lines);
    Step::pass(lines)
}

/// The kind of a traced call.
pub open spec fn trace_kind(t: JsonTree) -> Seq<char> {
    match t.at("type"@).as_text() {
        Some(s) => s,
        None => "unknown"@,
    }
}

fn on_trace(t: &Json) -> (r: Step)
    ensures
        r@ == passed(seq!["  Trace type: "@ + trace_kind(t@)]),
{
    let kind = match t.text_at("type") {
        Some(s) => s,
        None => "unknown",
    };
    Step::pass(one_line(join2("  Trace type: ", kind)))
}

fn on_sender(t: &Json) -> (r: Step)
    ensures
        r@ == passed(member_line("  Transaction from: "@, t@, "from"@)),
{
    let mut lines = no_lines();
    show_member(&mut lines, "  Transaction from: ", t, "from");
    assert(lines_of(lines@) =~= member_line("  Transaction from: "@, t@, "from"@));
    Step::pass(lines)
}

/// The check makes a second call.
pub open spec fn has_second(check: Check) -> bool {
    match check {
        Check::EthGetBlockByHash => true,
        Check::EthGetTransactionReceipt => true,
        Check::EthGetTransactionByHash => true,
        Check::DebugTraceTransaction => true,
        Check::TraceTransaction => true,
        Check::EthCallBundle => true,
        Check::EthCallMany => true,
        Check::ParliaGetValidators => true,
        Check::ArbGetL1Confirmations => true,
        _ => false,
    }
}

/// What a check makes of the result of its second call, which it made with the
/// text `used`.
pub open spec fn second_step(check: Check, used: Seq<char>, t: JsonTree) -> StepView {
    match check {
        Check::EthGetBlockByHash => block_by_hash_step(used, t),
        Check::EthGetTransactionReceipt => receipt_step(t),
        Check::EthGetTransactionByHash => passed(member_line("  Transaction from: "@, t, "from"@)),
        Check::DebugTraceTransaction => passed(seq!["  Trace type: "@ + trace_kind(t)]),
        Check::TraceTransaction => must_count(
            "  Found "@,
            t.as_array(),
            " traces for transaction"@,
            "Trace should be an array"@,
        ),
        Check::EthCallBundle => bundle_step(t),
        Check::EthCallMany => passed(seq!["  Executed eth_callMany successfully"@]),
        Check::ParliaGetValidators => counted("  Active validators: "@, t.as_array(), ""@),
        Check::ArbGetL1Confirmations => passed(seq!["  L1 confirmations: "@ + compact_text(t)]),
        _ => passed(seq![]),
    }
}

/// What a check makes of the result of its second call.
pub fn on_second(check: Check, used: &str, t: &Json) -> (r: Step)
    requires
        has_second(check),
    ensures
        r@ == second_step(check, used@, t@),
{
    match check {
        Check::EthGetBlockByHash => on_block_by_hash(used, t),
        Check::EthGetTransactionReceipt => on_receipt(t),
        Check::EthGetTransactionByHash => on_sender(t),
        Check::DebugTraceTransaction => on_trace(t),
        Check::TraceTransaction => count_or_refuse(
            "  Found ",
            t.as_array(),
            " traces for transaction",
            "Trace should be an array",
        ),
        Check::EthCallBundle => on_bundle(t),
        Check::EthCallMany => Step::pass(
            one_line("  Executed eth_callMany successfully".to_string()),
        ),
        Check::ParliaGetValidators => count("  Active validators: ", t.as_array(), ""),
        Check::ArbGetL1Confirmations => Step::pass(
            one_line(join2("  L1 confirmations: ", t.text().as_str())),
        ),
        _ => Step::pass(no_lines()),
    }
}

// ---------------------------------------------------------------------------
// The search through recent blocks for one that has a transaction.

/// How many blocks are searched.
pub const SCANNED_BLOCKS: u64 = 10;

/// The search goes on to the next block back, or ends where all were searched.
pub open spec fn scan_on(i: u64) -> StepView {
    if i + 1 < SCANNED_BLOCKS {
        calls(text_call("eth_blockNumber"@, list()), StageView::ScanNumber((i + 1) as u64))
    } else {
        passed(
            seq!["  No transactions found in recent blocks (this is OK for test nets)"@],
        )
    }
}

fn go_back(i: u64) -> (r: Step)
    ensures
        r@ == scan_on(i),
{
    if i < SCANNED_BLOCKS - 1 {
        Step::call(Call::for_text("eth_blockNumber", Json::list()), Stage::ScanNumber(i + 1))
    } else {
        Step::pass(
            one_line(
                "  No transactions found in recent blocks (this is OK for test nets)".to_string(),
            ),
        )
    }
}

/// The number of the block that many places before `n`, or zero.
pub open spec fn places_back(n: u64, i: u64) -> u64 {
    if n >= i {
        (n - i) as u64
    } else {
        0
    }
}

/// The block that many places before the latest one is asked for.
pub open spec fn scan_number_step(i: u64, s: Seq<char>) -> StepView {
    match quantity(s) {
        Some(n) => calls(
            value_call(
                "eth_getBlockByNumber"@,
                list().item(text("0x"@ + hex(places_back(n, i) as nat))).item(
                    JsonTree::Bool(false),
                ),
            ),
            StageView::ScanBlock(i),
        ),
        None => failed(quantity_failure(s)),
    }
}

/// The search goes on with the number of the latest block.
pub fn on_scan_number(i: u64, s: &str) -> (r: Step)
    ensures
        r@ == scan_number_step(i, s@),
{
    match parse_quantity(s) {
        Ok(n) => {
            let back: u64 = if n >= i {
                n - i
            } else {
                0
            };
            let tag = join2("0x", hex_text(back).as_str());
            Step::call(
                Call::for_value(
                    "eth_getBlockByNumber",
                    Json::list().item(Json::Text(tag)).item(Json::Bool(false)),
                ),
                Stage::ScanBlock(i),
            )
        },
        Err(f) => Step::fail(f),
    }
}

/// The first transaction of the block is asked for, if it has one.
pub open spec fn scan_block_step(i: u64, t: JsonTree) -> StepView {
    match t.at("hash"@).as_text() {
        None => refused(seq![], "Block should have hash"@),
        Some(hash) => match t.at("transactions"@).as_array() {
            None => refused(seq![], "Block should have transactions array"@),
            Some(transactions) => if transactions.len() > 0 {
                calls(
                    value_call(
                        "eth_getTransactionByBlockHashAndIndex"@,
                        list().item(text(hash)).item(text("0x0"@)),
                    ),
                    StageView::ScanTransaction(i),
                )
            } else {
                scan_on(i)
            },
        },
    }
}

/// The search goes on with a block.
pub fn on_scan_block(i: u64, t: &Json) -> (r: Step)
    ensures
        r@ == scan_block_step(i, t@),
{
    match t.text_at("hash") {
        None => Step::refuse(no_lines(), "Block should have hash"),
        Some(hash) => match t.array_at("transactions") {
            None => Step::refuse(no_lines(), "Block should have transactions array"),
            Some(transactions) => {
                proof {
                    lemma_json_trees(transactions@);
                }
                if transactions.len() > 0 {
                    Step::call(
                        Call::for_value(
                            "eth_getTransactionByBlockHashAndIndex",
                            Json::list().item(Json::string(hash)).item(Json::string("0x0")),
                        ),
                        Stage::ScanTransaction(i),
                    )
                } else {
                    go_back(i)
                }
            },
        },
    }
}

/// The search ends with a transaction that has a hash.
pub open spec fn scan_transaction_step(i: u64, t: JsonTree) -> StepView {
    match t.get("hash"@) {
        Some(hash) => passed(seq!["  Transaction at index 0: "@ + compact_text(hash)]),
        None => scan_on(i),
    }
}

/// The search goes on with a transaction.
pub fn on_scan_transaction(i: u64, t: &Json) -> (r: Step)
    ensures
        r@ == scan_transaction_step(i, t@),
{
    match t.get("hash") {
        Some(hash) => Step::pass(
            one_line(join2("  Transaction at index 0: ", hash.text().as_str())),
        ),
        None => go_back(i),
    }
}

} // verus!
