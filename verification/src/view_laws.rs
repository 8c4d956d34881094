//! What the views of the library's values show: all that is in them, in order.

use crate::detect::reply_text;
use crate::diff::{answer_of, names_of};
use crate::failure::Failure;
use crate::json::{Json, JsonTree};
use crate::plan::{Item, ItemView, items_of};
use crate::probe::reply_of;
use crate::results::{TestResults, failure_of, optional_text};
use crate::steps::{Call, Next, NextView, Reply, ReplyView, Stage, StageView, Step};
use crate::text::lines_of;
use vstd::prelude::*;

verus! {

/// The lines of a list are read one by one.
pub proof fn law_lines_are_read_in_order(lines: Seq<String>, i: int)
    requires
        0 <= i < lines.len(),
    ensures
        lines_of(lines).len() == lines.len(),
        lines_of(lines)[i] == lines[i]@,
{
}

/// The names in a list are read one by one.
pub proof fn law_names_are_read_in_order(names: Seq<&str>, i: int)
    requires
        0 <= i < names.len(),
    ensures
        names_of(names).len() == names.len(),
        names_of(names)[i] == names[i]@,
{
}

/// A failure shows its message and then each of its causes.
pub proof fn law_failures_show_message_and_causes(f: Failure)
    ensures
        f@.len() == 1 + f.causes@.len(),
        f@[0] == f.message@,
        forall|i: int| 0 <= i < f.causes@.len() ==> f@[i + 1] == (#[trigger] f.causes@[i])@,
{
}

/// Results show the name of each check that passed, and the name and the message of
/// each that failed.
pub proof fn law_results_show_every_check(results: TestResults)
    ensures
        results@.passed.len() == results.passed@.len(),
        results@.failed.len() == results.failed@.len(),
        forall|i: int|
            0 <= i < results.passed@.len() ==> results@.passed[i] == (
            #[trigger] results.passed@[i])@,
        forall|i: int|
            0 <= i < results.failed@.len() ==> results@.failed[i] == ((
            #[trigger] results.failed@[i]).0@, results.failed@[i].1@),
{
}

/// What came back is taken whole, an answer as well as a failure.
pub proof fn law_outcomes_are_taken_whole(
    j: Json,
    r: Reply,
    s: String,
    f: Failure,
)
    ensures
        answer_of(Ok(j)) == Ok::<_, Seq<Seq<char>>>(j@),
        answer_of(Err(f)) == Err::<JsonTree, _>(f@),
        reply_of(Ok(r)) == Ok::<_, Seq<Seq<char>>>(r@),
        reply_of(Err(f)) == Err::<ReplyView, _>(f@),
        reply_text(Ok(s)) == Some(s@),
        reply_text(Err(f)) is None,
        failure_of(Ok(())) is None,
        failure_of(Err(f)) == Some(f@),
        optional_text(Some(s)) == Some(s@),
        optional_text(None) is None,
{
}

/// Calls, their results and the steps of a check show all their parts.
pub proof fn law_steps_show_their_parts(call: Call, stage: Stage, step: Step, s: String, j: Json)
    ensures
        call@.method == call.method@,
        call@.params == call.params@,
        call@.wants == call.wants,
        Reply::Text(s)@ == ReplyView::Text(s@),
        Reply::Value(j)@ == ReplyView::Value(j@),
        step@.lines == lines_of(step.lines@),
        step@.next == step.next@,
        Next::Call(call, stage)@ == NextView::Call(call@, stage@),
        Next::Pass@ == NextView::Pass,
        Stage::First@ == StageView::First,
        Stage::Second(s)@ == StageView::Second(s@),
{
}

/// The items of a run are read one by one.
pub proof fn law_items_are_read_in_order(items: Seq<Item>, i: int)
    requires
        0 <= i < items.len(),
    ensures
        items_of(items).len() == items.len(),
        items_of(items)[i] == items[i]@,
        items[i] matches Item::Print(s) ==> items[i]@ == ItemView::Print(s@),
        items[i] matches Item::Run(check, optional) ==> items[i]@ == ItemView::Run(check, optional),
        items[i] matches Item::Listen(feed) ==> items[i]@ == ItemView::Listen(feed),
{
}

} // verus!
