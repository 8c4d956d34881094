//! The steps of a check: a check asks for calls, one after the other, and says
//! after each answer what is printed and how it goes on.

use crate::failure::{Failure, plain};
use crate::json::{Json, JsonTree};
use crate::text::{lines_of, no_lines};
use vstd::prelude::*;

verus! {

/// The form in which the result of a call is asked for: a string, or any value.
#[derive(Debug, Clone, Copy, PartialEq, Eq, Structural)]
pub enum Wants {
    Text,
    Value,
}

/// A call that a check asks for.
pub struct Call {
    pub method: String,
    pub params: Json,
    pub wants: Wants,
}

/// A call, read mathematically.
pub struct CallView {
    pub method: Seq<char>,
    pub params: JsonTree,
    pub wants: Wants,
}

impl View for Call {
    type V = CallView;

    open spec fn view(&self) -> CallView {
        CallView { method: self.method@, params: self.params@, wants: self.wants }
    }
}

/// The result of a call.
pub enum Reply {
    Text(String),
    Value(Json),
}

/// The result of a call, read mathematically.
pub enum ReplyView {
    Text(Seq<char>),
    Value(JsonTree),
}

impl View for Reply {
    type V = ReplyView;

    open spec fn view(&self) -> ReplyView {
        match self {
            Reply::Text(s) => ReplyView::Text(s@),
            Reply::Value(j) => ReplyView::Value(j@),
        }
    }
}

impl ReplyView {
    /// The form of the result.
    pub open spec fn form(self) -> Wants {
        match self {
            ReplyView::Text(_) => Wants::Text,
            ReplyView::Value(_) => Wants::Value,
        }
    }
}

/// How far a check has come, by the call that is out.
pub enum Stage {
    /// The first call.
    First,
    /// The second call, which was made with this text.
    Second(String),
    /// In the search through recent blocks, the call for the latest block
    /// number, at the block that many places back.
    ScanNumber(u64),
    /// The call for that block.
    ScanBlock(u64),
    /// The call for its first transaction.
    ScanTransaction(u64),
}

/// A stage, read mathematically.
pub enum StageView {
    First,
    Second(Seq<char>),
    ScanNumber(u64),
    ScanBlock(u64),
    ScanTransaction(u64),
}

impl View for Stage {
    type V = StageView;

    open spec fn view(&self) -> StageView {
        match self {
            Stage::First => StageView::First,
            Stage::Second(s) => StageView::Second(s@),
            Stage::ScanNumber(i) => StageView::ScanNumber(*i),
            Stage::ScanBlock(i) => StageView::ScanBlock(*i),
            Stage::ScanTransaction(i) => StageView::ScanTransaction(*i),
        }
    }
}

/// How a check goes on.
pub enum Next {
    /// With a call, which leads to a stage.
    Call(Call, Stage),
    /// It has passed.
    Pass,
    /// It has failed.
    Fail(Failure),
}

/// How a check goes on, read mathematically.
pub enum NextView {
    Call(CallView, StageView),
    Pass,
    Fail(Seq<Seq<char>>),
}

impl View for Next {
    type V = NextView;

    open spec fn view(&self) -> NextView {
        match self {
            Next::Call(call, stage) => NextView::Call(call@, stage@),
            Next::Pass => NextView::Pass,
            Next::Fail(f) => NextView::Fail(f@),
        }
    }
}

/// One step of a check: what is printed, and how it goes on.
pub struct Step {
    pub lines: Vec<String>,
    pub next: Next,
}

/// A step, read mathematically.
pub struct StepView {
    pub lines: Seq<Seq<char>>,
    pub next: NextView,
}

impl View for Step {
    type V = StepView;

    open spec fn view(&self) -> StepView {
        StepView { lines: lines_of(self.lines@), next: self.next@ }
    }
}

/// The check has passed, and these lines are printed.
pub open spec fn passed(lines: Seq<Seq<char>>) -> StepView {
    StepView { lines, next: NextView::Pass }
}

/// The check has failed with a message, after these lines are printed.
pub open spec fn refused(lines: Seq<Seq<char>>, message: Seq<char>) -> StepView {
    StepView { lines, next: NextView::Fail(plain(message)) }
}

/// The check has failed, and nothing is printed.
pub open spec fn failed(failure: Seq<Seq<char>>) -> StepView {
    StepView { lines: seq![], next: NextView::Fail(failure) }
}

/// The check goes on with a call, and nothing is printed.
pub open spec fn calls(call: CallView, stage: StageView) -> StepView {
    StepView { lines: seq![], next: NextView::Call(call, stage) }
}

impl Step {
    /// The check has passed, and these lines are printed.
    pub fn pass(lines: Vec<String>) -> (r: Step)
        ensures
            r@ == passed(lines_of(lines@)),
    {
        Step { lines, next: Next::Pass }
    }

    /// The check has failed with a message, after these lines are printed.
    pub fn refuse(lines: Vec<String>, message: &str) -> (r: Step)
        ensures
            r@ == refused(lines_of(lines@), message@),
    {
        Step { lines, next: Next::Fail(Failure::new(message.to_string())) }
    }

    /// The check has failed, and nothing is printed.
    pub fn fail(failure: Failure) -> (r: Step)
        ensures
            r@ == failed(failure@),
    {
        Step { lines: no_lines(), next: Next::Fail(failure) }
    }

    /// The check goes on with a call, and nothing is printed.
    pub fn call(call: Call, stage: Stage) -> (r: Step)
        ensures
            r@ == calls(call@, stage@),
    {
        Step { lines: no_lines(), next: Next::Call(call, stage) }
    }
}

/// A call for a string.
pub open spec fn text_call(method: Seq<char>, params: JsonTree) -> CallView {
    CallView { method, params, wants: Wants::Text }
}

/// A call for a value.
pub open spec fn value_call(method: Seq<char>, params: JsonTree) -> CallView {
    CallView { method, params, wants: Wants::Value }
}

impl Call {
    /// A call for a string.
    pub fn for_text(method: &str, params: Json) -> (r: Call)
        ensures
            r@ == text_call(method@, params@),
    {
        Call { method: method.to_string(), params, wants: Wants::Text }
    }

    /// A call for a value.
    pub fn for_value(method: &str, params: Json) -> (r: Call)
        ensures
            r@ == value_call(method@, params@),
    {
        Call { method: method.to_string(), params, wants: Wants::Value }
    }
}

} // verus!
