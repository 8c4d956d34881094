//! A check in progress: from the result of one call to the next.

use crate::chain::ChainType;
use crate::checks::{Check, first_call_of, first_stage_of};
use crate::failure::Failure;
use crate::json::JsonTree;
use crate::replies::{
    SCANNED_BLOCKS, begins_with_text, begins_with_value, expects_value, has_second, on_scan_block,
    on_scan_number, on_scan_transaction, on_second, on_text, on_value, scan_block_step,
    scan_number_step, scan_transaction_step, second_step, text_step, value_is_expected, value_step,
};
use crate::steps::{
    Call, NextView, Reply, ReplyView, Stage, StageView, Step, StepView, Wants, failed,
};
use vstd::prelude::*;

verus! {

/// A check, and the call of it that is out.
pub struct Probe {
    pub check: Check,
    pub stage: Stage,
}

/// The stage is one that the check comes to.
pub open spec fn is_stage_of(check: Check, stage: StageView) -> bool {
    match stage {
        StageView::First => !(check is EthGetTransactionByBlockHashAndIndex),
        StageView::Second(_) => has_second(check),
        StageView::ScanNumber(i) => check is EthGetTransactionByBlockHashAndIndex && i
            < SCANNED_BLOCKS,
        StageView::ScanBlock(i) => check is EthGetTransactionByBlockHashAndIndex && i
            < SCANNED_BLOCKS,
        StageView::ScanTransaction(i) => check is EthGetTransactionByBlockHashAndIndex && i
            < SCANNED_BLOCKS,
    }
}

/// The form of the result that the call of a stage asks for.
pub open spec fn wanted(check: Check, stage: StageView) -> Wants {
    match stage {
        StageView::First => if begins_with_text(check) {
            Wants::Text
        } else {
            Wants::Value
        },
        StageView::ScanNumber(_) => Wants::Text,
        _ => Wants::Value,
    }
}

/// The check can go on from that result.
pub open spec fn is_admitted(check: Check, stage: StageView, reply: ReplyView) -> bool {
    &&& reply.form() == wanted(check, stage)
    &&& stage is First && reply is Value ==> value_is_expected(check, reply->Value_0)
}

/// What a check makes of the result of a call: a call that fails fails the
/// check.
pub open spec fn probe_step(
    check: Check,
    stage: StageView,
    reply: Result<ReplyView, Seq<Seq<char>>>,
) -> StepView {
    match reply {
        Err(f) => failed(f),
        Ok(ReplyView::Text(s)) => match stage {
            StageView::ScanNumber(i) => scan_number_step(i, s),
            _ => text_step(check, s),
        },
        Ok(ReplyView::Value(t)) => match stage {
            StageView::Second(used) => second_step(check, used, t),
            StageView::ScanBlock(i) => scan_block_step(i, t),
            StageView::ScanTransaction(i) => scan_transaction_step(i, t),
            _ => value_step(check, t),
        },
    }
}

/// The result of a call, or its failure.
pub open spec fn reply_of(reply: Result<Reply, Failure>) -> Result<ReplyView, Seq<Seq<char>>> {
    match reply {
        Ok(r) => Ok(r@),
        Err(f) => Err(f@),
    }
}

impl Probe {
    /// The stage is one that the check comes to.
    pub open spec fn wf(self) -> bool {
        is_stage_of(self.check, self.stage@)
    }

    /// Begins a check, with its first call.
    pub fn start(check: Check, chain: &ChainType) -> (r: (Probe, Call))
        ensures
            r.0.wf(),
            r.0.check == check,
            r.0.stage@ == first_stage_of(check),
            r.1@ == first_call_of(check, *chain),
            r.1@.wants == wanted(check, r.0.stage@),
    {
        let (call, stage) = check.first_call(chain);
        (Probe { check, stage }, call)
    }

    /// Whether the check can go on from that result.
    pub fn admits(&self, reply: &Reply) -> (r: bool)
        ensures
            r == is_admitted(self.check, self.stage@, reply@),
    {
        let first = match &self.stage {
            Stage::First => true,
            _ => false,
        };
        let wants_text = match &self.stage {
            Stage::First => takes_text(self.check),
            Stage::ScanNumber(_) => true,
            _ => false,
        };
        match reply {
            Reply::Text(_) => wants_text,
            Reply::Value(t) => !wants_text && (!first || expects_value(self.check, t)),
        }
    }

    /// Goes on from the result of the call that is out.
    pub fn resume(&self, reply: Result<Reply, Failure>) -> (r: Step)
        requires
            self.wf(),
            reply matches Ok(value) ==> is_admitted(self.check, self.stage@, value@),
        ensures
            r@ == probe_step(self.check, self.stage@, reply_of(reply)),
            r@.next matches NextView::Call(call, stage) ==> is_stage_of(self.check, stage)
                && call.wants == wanted(self.check, stage),
    {
        match reply {
            Err(f) => Step::fail(f),
            Ok(Reply::Text(s)) => match &self.stage {
                Stage::ScanNumber(i) => on_scan_number(*i, s.as_str()),
                _ => on_text(self.check, s.as_str()),
            },
            Ok(Reply::Value(t)) => match &self.stage {
                Stage::Second(used) => on_second(self.check, used.as_str(), &t),
                Stage::ScanBlock(i) => on_scan_block(*i, &t),
                Stage::ScanTransaction(i) => on_scan_transaction(*i, &t),
                _ => on_value(self.check, &t),
            },
        }
    }
}

/// Whether the first result of a check is a string.
fn takes_text(check: Check) -> (r: bool)
    ensures
        r == begins_with_text(check),
{
    match check {
        Check::EthChainId | Check::EthBlockNumber | Check::EthGasPrice | Check::EthGetBalance
        | Check::EthGetTransactionCount | Check::EthCall | Check::EthEstimateGas
        | Check::EthGetCode | Check::NetVersion | Check::Web3ClientVersion | Check::EthCallBundle
        | Check::EthCallMany | Check::ParliaGetValidators | Check::ArbGetL1Confirmations => true,
        _ => false,
    }
}

/// How many results a check can still wait for.
pub open spec fn calls_left(check: Check, stage: StageView) -> int {
    match stage {
        StageView::First => if has_second(check) {
            2
        } else {
            1
        },
        StageView::Second(_) => 1,
        StageView::ScanNumber(i) => 3 * (SCANNED_BLOCKS - i),
        StageView::ScanBlock(i) => 3 * (SCANNED_BLOCKS - i) - 1,
        StageView::ScanTransaction(i) => 3 * (SCANNED_BLOCKS - i) - 2,
    }
}

/// Every check ends: each call it makes leaves it fewer calls to make. The
/// search through blocks makes at most twenty-nine, every other check at most
/// two.
pub proof fn law_checks_end(
    check: Check,
    stage: StageView,
    reply: Result<ReplyView, Seq<Seq<char>>>,
)
    requires
        is_stage_of(check, stage),
        reply matches Ok(value) ==> is_admitted(check, stage, value),
    ensures
        calls_left(check, stage) > 0,
        probe_step(check, stage, reply).next matches NextView::Call(_, next) ==> {
            &&& is_stage_of(check, next)
            &&& calls_left(check, next) < calls_left(check, stage)
        },
        calls_left(check, first_stage_of(check)) <= if check is EthGetTransactionByBlockHashAndIndex {
            29int
        } else {
            2
        },
{
}

/// A call that fails ends the check with the same failure, whatever the check
/// and however far it has come.
pub proof fn law_failed_calls_fail_the_check(
    check: Check,
    stage: StageView,
    failure: Seq<Seq<char>>,
)
    ensures
        probe_step(check, stage, Err(failure)).next == NextView::Fail(failure),
        probe_step(check, stage, Err(failure)).lines.len() == 0,
{
}

/// A check prints nothing before its last call is answered.
pub proof fn law_lines_come_last(
    check: Check,
    stage: StageView,
    reply: Result<ReplyView, Seq<Seq<char>>>,
)
    requires
        is_stage_of(check, stage),
        reply matches Ok(value) ==> is_admitted(check, stage, value),
    ensures
        probe_step(check, stage, reply).next is Call ==> probe_step(
            check,
            stage,
            reply,
        ).lines.len() == 0,
{
}

/// A check whose first result may be any value can go on from every one, but for
/// the fee history and the description of the node.
pub proof fn law_most_values_are_admitted(check: Check, t: JsonTree)
    requires
        begins_with_value(check),
        !(check is EthFeeHistory),
        !(check is AdminNodeInfo),
    ensures
        is_admitted(check, StageView::First, ReplyView::Value(t)),
{
}

} // verus!
