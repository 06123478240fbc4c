//! Shadow parity: how far the result of the new control plane agrees with the
//! result of the old one.

use crate::score::{quarters, Score, ScoreView};
use crate::text::{decimal, push_decimal, unless};
use vstd::prelude::*;

verus! {

/// What one control plane did for a capsule.
#[derive(Debug, PartialEq, Eq)]
pub struct ExecutionResult {
    pub capsule_id: String,
    pub step_count: u32,
    pub duration_ms: u64,
    pub attention_priority: String,
}

pub struct ExecutionResultView {
    pub capsule_id: Seq<char>,
    pub step_count: u32,
    pub duration_ms: u64,
    pub attention_priority: Seq<char>,
}

impl View for ExecutionResult {
    type V = ExecutionResultView;

    open spec fn view(&self) -> ExecutionResultView {
        ExecutionResultView {
            capsule_id: self.capsule_id@,
            step_count: self.step_count,
            duration_ms: self.duration_ms,
            attention_priority: self.attention_priority@,
        }
    }
}

impl Clone for ExecutionResult {
    fn clone(&self) -> (copy: Self)
        ensures
            copy@ == self@,
    {
        ExecutionResult {
            capsule_id: self.capsule_id.clone(),
            step_count: self.step_count,
            duration_ms: self.duration_ms,
            attention_priority: self.attention_priority.clone(),
        }
    }
}

/// The comparison of two results.
#[derive(Debug, PartialEq, Eq)]
pub struct ParityReport {
    pub capsule_id: String,
    pub matches: bool,
    pub parity_score: Score,
    pub mismatches: Vec<String>,
}

pub struct ParityReportView {
    pub capsule_id: Seq<char>,
    pub matches: bool,
    pub parity_score: ScoreView,
    pub mismatches: Seq<Seq<char>>,
}

impl View for ParityReport {
    type V = ParityReportView;

    open spec fn view(&self) -> ParityReportView {
        ParityReportView {
            capsule_id: self.capsule_id@,
            matches: self.matches,
            parity_score: self.parity_score@,
            mismatches: self.mismatches.deep_view(),
        }
    }
}

/// How far two durations may lie apart and still agree, in milliseconds.
pub const DURATION_TOLERANCE_MS: u64 = 500;

/// The distance of two durations.
pub open spec fn duration_delta(a: u64, b: u64) -> int {
    if a >= b {
        a - b
    } else {
        b - a
    }
}

/// Whether the two results name the same capsule.
pub open spec fn same_capsule(primary: ExecutionResultView, candidate: ExecutionResultView) -> bool {
    primary.capsule_id == candidate.capsule_id
}

/// Whether the two results took the same number of steps.
pub open spec fn same_steps(primary: ExecutionResultView, candidate: ExecutionResultView) -> bool {
    primary.step_count == candidate.step_count
}

/// Whether the two durations lie within the tolerance of each other.
pub open spec fn close_durations(primary: ExecutionResultView, candidate: ExecutionResultView) -> bool {
    duration_delta(primary.duration_ms, candidate.duration_ms) <= 500
}

/// Whether the two results raised attention at the same priority.
pub open spec fn same_priority(primary: ExecutionResultView, candidate: ExecutionResultView) -> bool {
    primary.attention_priority == candidate.attention_priority
}

/// 1 for a check that passed, 0 for one that failed.
pub open spec fn pass(check: bool) -> nat {
    if check {
        1
    } else {
        0
    }
}

/// How many of the four checks pass.
pub open spec fn passed_checks(primary: ExecutionResultView, candidate: ExecutionResultView) -> nat {
    pass(same_capsule(primary, candidate)) + pass(same_steps(primary, candidate)) + pass(
        close_durations(primary, candidate),
    ) + pass(same_priority(primary, candidate))
}

/// The line for a text field in which the results differ.
pub open spec fn text_mismatch(field: Seq<char>, primary: Seq<char>, candidate: Seq<char>) -> Seq<
    char,
> {
    field + " mismatch: primary="@ + primary + ", candidate="@ + candidate
}

/// The line for differing step counts.
pub open spec fn steps_mismatch(primary: u32, candidate: u32) -> Seq<char> {
    text_mismatch("step_count"@, decimal(primary as nat), decimal(candidate as nat))
}

/// The line for durations that lie too far apart.
pub open spec fn duration_mismatch(primary: u64, candidate: u64) -> Seq<char> {
    text_mismatch("duration_ms"@, decimal(primary as nat), decimal(candidate as nat)) + ", delta="@
        + decimal(duration_delta(primary, candidate) as nat)
}

/// One line for each check that fails, in the order of the checks.
pub open spec fn mismatch_lines(primary: ExecutionResultView, candidate: ExecutionResultView) -> Seq<
    Seq<char>,
> {
    unless(
        same_capsule(primary, candidate),
        text_mismatch("capsule_id"@, primary.capsule_id, candidate.capsule_id),
    ) + unless(
        same_steps(primary, candidate),
        steps_mismatch(primary.step_count, candidate.step_count),
    ) + unless(
        close_durations(primary, candidate),
        duration_mismatch(primary.duration_ms, candidate.duration_ms),
    ) + unless(
        same_priority(primary, candidate),
        text_mismatch(
            "attention_priority"@,
            primary.attention_priority,
            candidate.attention_priority,
        ),
    )
}

/// The report on two results.
pub open spec fn parity_of(primary: ExecutionResultView, candidate: ExecutionResultView) -> ParityReportView {
    ParityReportView {
        capsule_id: primary.capsule_id,
        matches: passed_checks(primary, candidate) == 4,
        parity_score: quarters(passed_checks(primary, candidate)),
        mismatches: mismatch_lines(primary, candidate),
    }
}

/// The line for a text field in which the results differ.
fn describe_text_mismatch(field: &str, primary: &str, candidate: &str) -> (line: String)
    ensures
        line@ == text_mismatch(field@, primary@, candidate@),
{
    let mut line = String::from_str(field);
    line.append(" mismatch: primary=");
    line.append(primary);
    line.append(", candidate=");
    line.append(candidate);
    line
}

/// The line for a number in which the results differ.
fn describe_number_mismatch(field: &str, primary: u64, candidate: u64) -> (line: String)
    ensures
        line@ == text_mismatch(field@, decimal(primary as nat), decimal(candidate as nat)),
{
    let mut line = String::from_str(field);
    line.append(" mismatch: primary=");
    push_decimal(&mut line, primary);
    line.append(", candidate=");
    push_decimal(&mut line, candidate);
    line
}

/// Compares two results by four checks of equal weight: the same capsule,
/// the same number of steps, durations within 500 ms of each other, the same
/// attention priority. The score is the share of checks that pass, and each
/// check that fails adds one line.
pub fn compare_execution(primary: &ExecutionResult, candidate: &ExecutionResult) -> (report:
    ParityReport)
    ensures
        report@ == parity_of(primary@, candidate@),
{
    let mut mismatches: Vec<String> = Vec::new();
    let mut passed: u8 = 0;

    if primary.capsule_id == candidate.capsule_id {
        passed += 1;
    } else {
        mismatches.push(
            describe_text_mismatch(
                "capsule_id",
                primary.capsule_id.as_str(),
                candidate.capsule_id.as_str(),
            ),
        );
    }
    let ghost lines1 = mismatches.deep_view();
    assert(lines1 =~= unless(
        same_capsule(primary@, candidate@),
        text_mismatch("capsule_id"@, primary@.capsule_id, candidate@.capsule_id),
    ));

    if primary.step_count == candidate.step_count {
        passed += 1;
    } else {
        mismatches.push(
            describe_number_mismatch(
                "step_count",
                primary.step_count as u64,
                candidate.step_count as u64,
            ),
        );
    }
    let ghost lines2 = mismatches.deep_view();
    assert(lines2 =~= lines1 + unless(
        same_steps(primary@, candidate@),
        steps_mismatch(primary.step_count, candidate.step_count),
    ));

    let duration_delta: u64 = if primary.duration_ms >= candidate.duration_ms {
        primary.duration_ms - candidate.duration_ms
    } else {
        candidate.duration_ms - primary.duration_ms
    };
    if duration_delta <= DURATION_TOLERANCE_MS {
        passed += 1;
    } else {
        let mut line = describe_number_mismatch(
            "duration_ms",
            primary.duration_ms,
            candidate.duration_ms,
        );
        line.append(", delta=");
        push_decimal(&mut line, duration_delta);
        mismatches.push(line);
    }
    let ghost lines3 = mismatches.deep_view();
    assert(lines3 =~= lines2 + unless(
        close_durations(primary@, candidate@),
        duration_mismatch(primary.duration_ms, candidate.duration_ms),
    ));

    if primary.attention_priority == candidate.attention_priority {
        passed += 1;
    } else {
        mismatches.push(
            describe_text_mismatch(
                "attention_priority",
                primary.attention_priority.as_str(),
                candidate.attention_priority.as_str(),
            ),
        );
    }
    assert(mismatches.deep_view() =~= mismatch_lines(primary@, candidate@));

    ParityReport {
        capsule_id: primary.capsule_id.clone(),
        matches: mismatches.len() == 0,
        parity_score: Score::from_quarters(passed),
        mismatches,
    }
}

/// Two results that agree in capsule, steps and priority, with durations no
/// more than 500 ms apart, match: the score is 1 and no line is written.
pub proof fn lemma_parity_of_agreeing_results(
    primary: ExecutionResultView,
    candidate: ExecutionResultView,
)
    requires
        primary.capsule_id == candidate.capsule_id,
        primary.step_count == candidate.step_count,
        primary.attention_priority == candidate.attention_priority,
        duration_delta(primary.duration_ms, candidate.duration_ms) <= 500,
    ensures
        parity_of(primary, candidate).matches,
        parity_of(primary, candidate).parity_score == quarters(4),
        parity_of(primary, candidate).mismatches == Seq::<Seq<char>>::empty(),
{
    assert(mismatch_lines(primary, candidate) =~= Seq::<Seq<char>>::empty());
}

/// The report matches exactly when no line is written, and it writes one line
/// for each check that fails.
pub proof fn lemma_parity_lines(primary: ExecutionResultView, candidate: ExecutionResultView)
    ensures
        parity_of(primary, candidate).mismatches.len() + passed_checks(primary, candidate) == 4,
        parity_of(primary, candidate).matches <==> parity_of(primary, candidate).mismatches.len()
            == 0,
{
}

} // verus!
