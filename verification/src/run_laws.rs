//! What holds of the outcome of every run: when a check passes, fails or is
//! skipped, and what the report says.

use crate::client::{
    RpcError, RpcResponse, is_websocket_url, next_id, received_id_lines, received_text_lines,
    response_outcome, rpc_failure, sent_lines,
};
use crate::failure::chained;
use crate::results::{
    Ended, ResultsView, after_all, announced, exit_code_of, is_selected, label_of,
    law_failures_are_noted, summary_of, verdict_lines, verdict_of,
};
use crate::text::{contains, decimal, digits, lowercase, repeated, signed_decimal};
use crate::text_laws::{
    law_begins_with_comes_first, law_between_is_contained, law_contains_is_in_between,
};
use vstd::prelude::*;

verus! {

/// A check that ends without a failure is noted as passed, optional or not, and
/// nothing else is noted.
pub proof fn law_success_is_a_pass(results: ResultsView, name: Seq<char>, optional: bool)
    ensures
        results.after(name, optional, None).passed == results.passed.push(name),
        results.after(name, optional, None).failed == results.failed,
        verdict_lines(optional, None) == seq!["✓ PASS"@],
{
}

/// A check that ends with a failure is never noted as passed. It is left out of
/// the results only if it is optional and its message holds one of the texts "does
/// not exist", "not available" and "-32601"; otherwise it is noted as failed, with
/// its message.
pub proof fn law_only_missing_methods_are_skipped(
    results: ResultsView,
    name: Seq<char>,
    optional: bool,
    failure: Seq<Seq<char>>,
)
    requires
        failure.len() > 0,
    ensures
        ({
            let missing = contains(failure[0], "does not exist"@) || contains(
                failure[0],
                "not available"@,
            ) || contains(failure[0], "-32601"@);
            let then = results.after(name, optional, Some(failure));
            &&& then.passed == results.passed
            &&& optional && missing ==> then.failed == results.failed
            &&& !(optional && missing) ==> then.failed == results.failed.push((name, failure[0]))
            &&& optional && missing ==> verdict_lines(optional, Some(failure))
                == seq!["⊘ SKIP (method not available on this node)"@]
            &&& !(optional && missing) ==> verdict_lines(optional, Some(failure))
                == seq!["✗ FAIL"@, "  Error: "@ + chained(failure)]
        }),
{
}

/// A node that reports the code for a method that is not found has an optional
/// check skipped and a required one failed, whatever it says besides.
pub proof fn law_method_not_found_is_forgiven(
    results: ResultsView,
    name: Seq<char>,
    error: RpcError,
)
    requires
        error.code == -32601,
    ensures
        results.after(name, true, Some(rpc_failure(error))) == results,
        results.after(name, false, Some(rpc_failure(error))).failed.len() == results.failed.len()
            + 1,
{
    reveal_strlit("-32601");
    reveal_strlit("-");
    reveal_with_fuel(digits, 6);
    let code = signed_decimal(-32601);
    assert(code =~= "-32601"@);
    let before = "RPC error: "@ + error.message@ + " (code: "@;
    assert(rpc_failure(error)[0] =~= before + code + ")"@);
    law_between_is_contained(before, code, ")"@);
}

/// What a node reports goes into the failure word for word: its message and its
/// code, in one message without a cause.
pub proof fn law_errors_are_passed_on(error: RpcError)
    ensures
        rpc_failure(error).len() == 1,
        rpc_failure(error)[0] == "RPC error: "@ + error.message@ + " (code: "@ + signed_decimal(
            error.code as int,
        ) + ")"@,
        contains(rpc_failure(error)[0], error.message@),
        contains(rpc_failure(error)[0], signed_decimal(error.code as int)),
{
    let code = signed_decimal(error.code as int);
    let whole = rpc_failure(error)[0];
    law_between_is_contained("RPC error: "@, error.message@, " (code: "@ + code + ")"@);
    assert(whole =~= "RPC error: "@ + error.message@ + (" (code: "@ + code + ")"@));
    law_between_is_contained("RPC error: "@ + error.message@ + " (code: "@, code, ")"@);
}

/// A response with an error is a failure even if it has a result; one without an
/// error is its result, and one with neither a failure.
pub proof fn law_errors_come_before_results<T>(response: RpcResponse<T>)
    ensures
        response.error matches Some(error) ==> response_outcome(response) == Err::<
            T,
            Seq<Seq<char>>,
        >(rpc_failure(error)),
        response.error is None ==> (response_outcome(response) is Ok <==> response.result is Some),
        response.error is None && response.result is Some ==> response_outcome(response)->Ok_0
            == response.result->0,
        response.error is None && response.result is None ==> response_outcome(response)->Err_0
            == seq!["RPC response missing result field"@],
{
}

/// The number of a request is one more than that of the one before, up to the
/// last number, after which comes zero.
pub proof fn law_numbers_go_up_by_one(id: u64)
    ensures
        id < u64::MAX ==> next_id(id) == id + 1,
        id == u64::MAX ==> next_id(id) == 0,
{
}

/// An address asks for a WebSocket exactly if it is made of "ws://" or "wss://" and
/// something behind it.
pub proof fn law_websocket_addresses(url: Seq<char>)
    ensures
        is_websocket_url(url) <==> (exists|rest: Seq<char>| url == #[trigger] ("ws://"@ + rest))
            || (exists|rest: Seq<char>| url == #[trigger] ("wss://"@ + rest)),
{
    law_begins_with_comes_first(url, "ws://"@);
    law_begins_with_comes_first(url, "wss://"@);
}

/// A filter selects the names that hold its text when both are in lower case;
/// without a filter every name is selected, and a name always selects itself.
pub proof fn law_filters_look_for_their_text(name: Seq<char>, filter: Seq<char>)
    ensures
        is_selected(name, None),
        is_selected(name, Some(name)),
        is_selected(name, Some(filter)) <==> exists|a: Seq<char>, b: Seq<char>|
            lowercase(name) == #[trigger] (a + lowercase(filter) + b),
{
    law_contains_is_in_between(lowercase(name), lowercase(filter));
    law_contains_is_in_between(lowercase(name), lowercase(name));
    let none = Seq::<char>::empty();
    assert(lowercase(name) =~= none + lowercase(name) + none);
}

/// An optional check is announced as such.
pub proof fn law_optional_checks_are_marked(name: Seq<char>)
    ensures
        label_of(name, true) == name + " (optional)"@,
        label_of(name, false) == name,
{
}

/// A check is announced by its name, and as optional if it is.
pub proof fn law_checks_are_announced(name: Seq<char>)
    ensures
        announced(name, true) == "Running test: "@ + name + " (optional)"@ + "... "@,
        announced(name, false) == "Running test: "@ + name + "... "@,
{
    assert("Running test: "@ + (name + " (optional)"@) + "... "@ =~= "Running test: "@ + name
        + " (optional)"@ + "... "@);
}

/// A check does not spoil the run: it ends without a failure, or it is optional and
/// its message says that the method is missing.
pub open spec fn is_fine(ended: Ended) -> bool {
    ended.outcome matches Some(failure) ==> ended.optional && (contains(
        failure[0],
        "does not exist"@,
    ) || contains(failure[0], "not available"@) || contains(failure[0], "-32601"@))
}

/// The exit code of a run is zero exactly if none of its checks spoils it, and one
/// otherwise.
pub proof fn law_the_exit_code_tells(row: Seq<Ended>)
    ensures
        ({
            let results = after_all(ResultsView { passed: seq![], failed: seq![] }, row);
            &&& exit_code_of(results) == 0 <==> forall|i: int|
                0 <= i < row.len() ==> is_fine(#[trigger] row[i])
            &&& exit_code_of(results) == 0 || exit_code_of(results) == 1
        }),
{
    law_failures_are_noted(row);
    assert forall|i: int| 0 <= i < row.len() implies (is_fine(#[trigger] row[i]) <==> !(verdict_of(
        row[i].optional,
        row[i].outcome,
    ) is Fail)) by {}
    if forall|i: int| 0 <= i < row.len() ==> is_fine(#[trigger] row[i]) {
        assert forall|i: int| 0 <= i < row.len() implies !(verdict_of(
            (#[trigger] row[i]).optional,
            row[i].outcome,
        ) is Fail) by {
            assert(is_fine(row[i]));
        }
    }
}

/// A verbose client shows each request as it is sent and each response by its text
/// or by its number; other clients show nothing.
pub proof fn law_traffic_is_shown_on_demand(text: Seq<char>, is_websocket: bool, id: u64)
    ensures
        sent_lines(false, is_websocket, text).len() == 0,
        received_text_lines(false, text).len() == 0,
        received_id_lines(false, id).len() == 0,
        sent_lines(true, true, text) == seq!["  → WS Request: "@ + text],
        sent_lines(true, false, text) == seq!["  → HTTP Request: "@ + text],
        received_text_lines(true, text) == seq!["  ← WS Response: "@ + text],
        received_id_lines(true, id) == seq!["  ← Response ID: "@ + decimal(id as nat)],
{
}

/// The report counts what passed, what failed and both together, and names each
/// failed check with its message, in the order of the run.
pub proof fn law_the_report_counts_and_names(results: ResultsView)
    ensures
        ({
            let lines = summary_of(results);
            let failed = results.failed.len();
            &&& lines[0] == "\n"@ + repeated('=', 80)
            &&& lines[1] == "Test Summary"@
            &&& lines[2] == repeated('=', 80) + "\n"@
            &&& lines[3] == "✓ Passed: "@ + decimal(results.passed.len())
            &&& lines[4] == "✗ Failed: "@ + decimal(failed)
            &&& lines[5] == "Total: "@ + decimal(results.passed.len() + failed) + "\n"@
            &&& failed == 0 ==> lines.len() == 6
            &&& failed > 0 ==> lines.len() == 7 + failed && lines[6] == "Failed tests:"@
            &&& forall|i: int|
                0 <= i < failed ==> lines[7 + i] == "  ✗ "@ + (#[trigger] results.failed[i]).0
                    + ": "@ + results.failed[i].1
        }),
{
}

} // verus!
