//! What the checks of a run came to.

use crate::failure::{Failure, chained};
use crate::text::{
    add_line, ascii_lowercase, contains, decimal, decimal_sum_text, decimal_text, join2, join3,
    join4, lines_of, lowercase, no_lines, occurs_at, one_line, repeated, repeated_text,
    str_contains, to_lowercase,
};
use vstd::prelude::*;
use vstd::utf8::is_ascii_chars;

verus! {

/// The checks that passed, and those that failed with what was said of them.
pub struct TestResults {
    pub passed: Vec<String>,
    pub failed: Vec<(String, String)>,
}

/// The names of checks that passed, and the names and messages of those that
/// failed, in order.
pub struct ResultsView {
    pub passed: Seq<Seq<char>>,
    pub failed: Seq<(Seq<char>, Seq<char>)>,
}

impl View for TestResults {
    type V = ResultsView;

    open spec fn view(&self) -> ResultsView {
        ResultsView {
            passed: lines_of(self.passed@),
            failed: self.failed@.map_values(|f: (String, String)| (f.0@, f.1@)),
        }
    }
}

/// What becomes of a check.
pub enum Verdict {
    Pass,
    Skip,
    Fail,
}

/// The message says that the node does not have the method.
pub open spec fn says_unavailable(message: Seq<char>) -> bool {
    contains(message, "does not exist"@) || contains(message, "not available"@) || contains(
        message,
        "-32601"@,
    )
}

/// What becomes of a check that ended so: an optional one whose method the node
/// does not have is skipped.
pub open spec fn verdict_of(optional: bool, outcome: Option<Seq<Seq<char>>>) -> Verdict {
    match outcome {
        None => Verdict::Pass,
        Some(failure) => if optional && says_unavailable(failure[0]) {
            Verdict::Skip
        } else {
            Verdict::Fail
        },
    }
}

/// The failure of an outcome.
pub open spec fn failure_of(outcome: Result<(), Failure>) -> Option<Seq<Seq<char>>> {
    match outcome {
        Ok(_) => None,
        Err(f) => Some(f@),
    }
}

impl ResultsView {
    /// The results after a check of that name ended so.
    pub open spec fn after(
        self,
        name: Seq<char>,
        optional: bool,
        outcome: Option<Seq<Seq<char>>>,
    ) -> ResultsView {
        match verdict_of(optional, outcome) {
            Verdict::Pass => ResultsView { passed: self.passed.push(name), ..self },
            Verdict::Skip => self,
            Verdict::Fail => ResultsView {
                failed: self.failed.push((name, outcome->0[0])),
                ..self
            },
        }
    }
}

/// What is printed of a check that ended so.
pub open spec fn verdict_lines(optional: bool, outcome: Option<Seq<Seq<char>>>) -> Seq<Seq<char>> {
    match verdict_of(optional, outcome) {
        Verdict::Pass => seq!["✓ PASS"@],
        Verdict::Skip => seq!["⊘ SKIP (method not available on this node)"@],
        Verdict::Fail => seq!["✗ FAIL"@, "  Error: "@ + chained(outcome->0)],
    }
}

/// The lines for the failed checks.
pub open spec fn failed_lines(failed: Seq<(Seq<char>, Seq<char>)>) -> Seq<Seq<char>> {
    failed.map_values(|f: (Seq<char>, Seq<char>)| "  ✗ "@ + f.0 + ": "@ + f.1)
}

/// The closing report.
pub open spec fn summary_of(results: ResultsView) -> Seq<Seq<char>> {
    let rule = repeated('=', 80);
    let head = seq![
        "\n"@ + rule,
        "Test Summary"@,
        rule + "\n"@,
        "✓ Passed: "@ + decimal(results.passed.len()),
        "✗ Failed: "@ + decimal(results.failed.len()),
        "Total: "@ + decimal(results.passed.len() + results.failed.len()) + "\n"@,
    ];
    if results.failed.len() == 0 {
        head
    } else {
        head + seq!["Failed tests:"@] + failed_lines(results.failed)
    }
}

/// A check of that name is run, given the filter of the run.
pub open spec fn is_selected(name: Seq<char>, filter: Option<Seq<char>>) -> bool {
    filter matches Some(f) ==> contains(lowercase(name), lowercase(f))
}

/// The characters of an optional text.
pub open spec fn optional_text(s: Option<String>) -> Option<Seq<char>> {
    match s {
        Some(t) => Some(t@),
        None => None,
    }
}

/// Whether a check of that name is run. The filter looks for its text in the
/// name, whatever the case of either; an empty filter finds every name.
pub fn selected(name: &str, filter: &Option<String>) -> (r: bool)
    ensures
        r == is_selected(name@, optional_text(*filter)),
        filter is None ==> r,
        filter matches Some(f) ==> is_ascii_chars(name@) && is_ascii_chars(f@) ==> r == contains(
            ascii_lowercase(name@),
            ascii_lowercase(f@),
        ),
        filter matches Some(f) ==> f@.len() == 0 ==> r,
{
    match filter {
        None => true,
        Some(f) => {
            let pattern = to_lowercase(f.as_str());
            let text = to_lowercase(name);
            proof {
                if f@.len() == 0 {
                    assert(pattern@ =~= Seq::empty());
                    assert(text@.subrange(0, 0) =~= pattern@);
                    assert(occurs_at(text@, pattern@, 0));
                }
            }
            str_contains(text.as_str(), pattern.as_str())
        },
    }
}

/// The name of a check as it is announced.
pub open spec fn label_of(name: Seq<char>, optional: bool) -> Seq<char> {
    if optional {
        name + " (optional)"@
    } else {
        name
    }
}

/// What is printed before a check is run.
pub open spec fn announced(name: Seq<char>, optional: bool) -> Seq<char> {
    "Running test: "@ + label_of(name, optional) + "... "@
}

/// The exit code of a run with these results.
pub open spec fn exit_code_of(results: ResultsView) -> int {
    if results.failed.len() == 0 {
        0
    } else {
        1
    }
}

/// What is printed, without a line break, before a check is run; nothing if the
/// filter leaves it out.
pub fn announcement(name: &str, optional: bool, filter: &Option<String>) -> (r: Option<String>)
    ensures
        r is Some <==> is_selected(name@, optional_text(*filter)),
        filter is None ==> r is Some,
        filter matches Some(f) ==> is_ascii_chars(name@) && is_ascii_chars(f@) ==> (r is Some
            <==> contains(ascii_lowercase(name@), ascii_lowercase(f@))),
        r matches Some(s) ==> s@ == "Running test: "@ + label_of(name@, optional) + "... "@,
        r matches Some(s) ==> s@ == announced(name@, optional),
{
    if !selected(name, filter) {
        return None;
    }
    let label = if optional {
        join2(name, " (optional)")
    } else {
        name.to_string()
    };
    Some(join3("Running test: ", label.as_str(), "... "))
}

impl TestResults {
    /// No results yet.
    pub fn new() -> (r: TestResults)
        ensures
            r@ == (ResultsView { passed: seq![], failed: seq![] }),
    {
        let r = TestResults { passed: Vec::new(), failed: Vec::new() };
        assert(r@.passed =~= seq![]);
        assert(r@.failed =~= seq![]);
        r
    }

    /// Notes that a check passed.
    pub fn add_pass(&mut self, test_name: String)
        ensures
            final(self)@ == (ResultsView { passed: old(self)@.passed.push(test_name@), ..old(self)@ }),
    {
        self.passed.push(test_name);
        assert(self@.passed =~= old(self)@.passed.push(test_name@));
    }

    /// Notes that a check failed, and what was said of it.
    pub fn add_fail(&mut self, test_name: String, error: String)
        ensures
            final(self)@ == (ResultsView {
                failed: old(self)@.failed.push((test_name@, error@)),
                ..old(self)@
            }),
    {
        self.failed.push((test_name, error));
        assert(self@.failed =~= old(self)@.failed.push((test_name@, error@)));
    }

    /// Takes in how a check ended, and returns what is printed of it.
    pub fn settle(&mut self, name: &str, optional: bool, outcome: Result<(), Failure>) -> (lines:
        Vec<String>)
        ensures
            final(self)@ == old(self)@.after(name@, optional, failure_of(outcome)),
            lines_of(lines@) == verdict_lines(optional, failure_of(outcome)),
    {
        match outcome {
            Ok(_) => {
                self.add_pass(name.to_string());
                one_line("✓ PASS".to_string())
            },
            Err(failure) => {
                let message = failure.message.as_str();
                if optional && (str_contains(message, "does not exist") || str_contains(
                    message,
                    "not available",
                ) || str_contains(message, "-32601")) {
                    one_line("⊘ SKIP (method not available on this node)".to_string())
                } else {
                    let mut lines = one_line("✗ FAIL".to_string());
                    add_line(&mut lines, join2("  Error: ", failure.detail().as_str()));
                    assert(lines_of(lines@) =~= verdict_lines(optional, failure_of(outcome)));
                    self.add_fail(name.to_string(), message.to_string());
                    lines
                }
            },
        }
    }

    /// The closing report.
    pub fn summary_lines(&self) -> (lines: Vec<String>)
        ensures
            lines_of(lines@) == summary_of(self@),
    {
        proof {
            reveal_strlit("=");
        }
        let rule = repeated_text("=", 80);
        let mut lines = no_lines();
        add_line(&mut lines, join2("\n", rule.as_str()));
        add_line(&mut lines, "Test Summary".to_string());
        add_line(&mut lines, join2(rule.as_str(), "\n"));
        let passed = self.passed.len() as u64;
        let failed = self.failed.len() as u64;
        add_line(&mut lines, join2("✓ Passed: ", decimal_text(passed).as_str()));
        add_line(&mut lines, join2("✗ Failed: ", decimal_text(failed).as_str()));
        add_line(&mut lines, join3("Total: ", decimal_sum_text(passed, failed).as_str(), "\n"));
        if self.failed.len() > 0 {
            add_line(&mut lines, "Failed tests:".to_string());
            let ghost head = lines_of(lines@);
            let ghost all = failed_lines(self@.failed);
            let mut i: usize = 0;
            assert(head + all.take(0) =~= head);
            while i < self.failed.len()
                invariant
                    i <= self.failed.len(),
                    all == failed_lines(self@.failed),
                    lines_of(lines@) == head + all.take(i as int),
                decreases self.failed.len() - i,
            {
                let line = join4(
                    "  ✗ ",
                    self.failed[i].0.as_str(),
                    ": ",
                    self.failed[i].1.as_str(),
                );
                proof {
                    assert(line@ =~= all[i as int]);
                    assert((head + all.take(i as int)).push(all[i as int]) =~= head + all.take(
                        i + 1,
                    ));
                }
                add_line(&mut lines, line);
                i = i + 1;
            }
            assert(all.take(i as int) =~= all);
        }
        assert(lines_of(lines@) =~= summary_of(self@));
        lines
    }

    /// The exit code of the run: zero if nothing failed.
    pub fn exit_code(&self) -> (r: i32)
        ensures
            r == exit_code_of(self@),
            r == if self@.failed.len() == 0 {
                0int
            } else {
                1
            },
    {
        if self.failed.len() == 0 {
            0
        } else {
            1
        }
    }
}

/// How one check ended: its name, whether it was optional, and its failure.
pub struct Ended {
    pub name: Seq<char>,
    pub optional: bool,
    pub outcome: Option<Seq<Seq<char>>>,
}

/// The results after a row of checks.
pub open spec fn after_all(results: ResultsView, row: Seq<Ended>) -> ResultsView
    decreases row.len(),
{
    if row.len() == 0 {
        results
    } else {
        let last = row.last();
        after_all(results, row.drop_last()).after(last.name, last.optional, last.outcome)
    }
}

/// A check that must be there is never skipped: it passes, or it fails.
pub proof fn law_required_checks_count(
    results: ResultsView,
    name: Seq<char>,
    outcome: Option<Seq<Seq<char>>>,
)
    ensures
        !(verdict_of(false, outcome) is Skip),
        ({
            let after = results.after(name, false, outcome);
            after.passed.len() + after.failed.len() == results.passed.len() + results.failed.len()
                + 1
        }),
{
}

/// A check that passes passes whether or not it is optional, and an optional
/// check fails exactly if a required one would and the node has the method.
pub proof fn law_optional_checks_forgive_missing_methods(outcome: Option<Seq<Seq<char>>>)
    ensures
        verdict_of(true, outcome) is Pass <==> verdict_of(false, outcome) is Pass,
        verdict_of(true, outcome) is Fail <==> verdict_of(false, outcome) is Fail
            && !says_unavailable(outcome->0[0]),
{
}

/// Results only grow: what was noted stays, in its order.
pub proof fn law_results_only_grow(
    results: ResultsView,
    name: Seq<char>,
    optional: bool,
    outcome: Option<Seq<Seq<char>>>,
)
    ensures
        results.passed.is_prefix_of(results.after(name, optional, outcome).passed),
        results.failed.is_prefix_of(results.after(name, optional, outcome).failed),
{
    let after = results.after(name, optional, outcome);
    assert(after.passed.take(results.passed.len() as int) =~= results.passed);
    assert(after.failed.take(results.failed.len() as int) =~= results.failed);
}

/// A run has a failure noted exactly if one of its checks failed.
pub proof fn law_failures_are_noted(row: Seq<Ended>)
    ensures
        after_all(ResultsView { passed: seq![], failed: seq![] }, row).failed.len() == 0
            <==> forall|i: int|
            0 <= i < row.len() ==> !(verdict_of(
                (#[trigger] row[i]).optional,
                row[i].outcome,
            ) is Fail),
    decreases row.len(),
{
    if row.len() > 0 {
        let rest = row.drop_last();
        law_failures_are_noted(rest);
        assert(forall|i: int| 0 <= i < rest.len() ==> rest[i] == row[i]);
        if exists|i: int|
            0 <= i < rest.len() && verdict_of((#[trigger] rest[i]).optional, rest[i].outcome)
                is Fail {
            let j = choose|i: int|
                0 <= i < rest.len() && verdict_of((#[trigger] rest[i]).optional, rest[i].outcome)
                    is Fail;
            assert(row[j] == rest[j]);
        }
        assert(row[row.len() - 1] == row.last());
    }
}

} // verus!
