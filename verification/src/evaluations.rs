//! The records of an evaluation run: rubrics, per-file results, and the
//! report that collects them.

use vstd::prelude::*;

verus! {

/// The lowest score a reply may carry.
pub const MIN_SCORE: i32 = 1;

/// The highest score a reply may carry.
pub const MAX_SCORE: i32 = 10;

/// A named rubric: what it checks, and the prompt that elicits a score.
#[derive(Debug, Clone)]
pub struct Evaluation {
    pub name: String,
    pub description: String,
    pub system_prompt: String,
}

/// The mathematical content of an [`Evaluation`].
pub struct EvaluationView {
    pub name: Seq<char>,
    pub description: Seq<char>,
    pub system_prompt: Seq<char>,
}

impl View for Evaluation {
    type V = EvaluationView;

    open spec fn view(&self) -> EvaluationView {
        EvaluationView {
            name: self.name@,
            description: self.description@,
            system_prompt: self.system_prompt@,
        }
    }
}

/// The judgement on one file: a score and the reason given for it.
#[derive(Debug)]
pub struct EvaluationResult {
    pub score: i32,
    pub explanation: String,
}

/// The mathematical content of an [`EvaluationResult`].
pub struct EvaluationResultView {
    pub score: int,
    pub explanation: Seq<char>,
}

impl View for EvaluationResult {
    type V = EvaluationResultView;

    open spec fn view(&self) -> EvaluationResultView {
        EvaluationResultView { score: self.score as int, explanation: self.explanation@ }
    }
}

/// A score is acceptable when it lies between `MIN_SCORE` and `MAX_SCORE`.
pub open spec fn score_in_range(score: int) -> bool {
    MIN_SCORE <= score <= MAX_SCORE
}

impl EvaluationResult {
    /// The result carries an acceptable score.
    pub open spec fn is_valid(&self) -> bool {
        score_in_range(self.score as int)
    }

    /// Checks that the score is acceptable.
    pub fn has_valid_score(&self) -> (b: bool)
        ensures
            b == self.is_valid(),
    {
        MIN_SCORE <= self.score && self.score <= MAX_SCORE
    }
}

/// The judgement on one file, with the file, the rubric and the time of the
/// run it belongs to.
#[derive(Debug)]
pub struct FileEvaluation {
    pub file_path: String,
    pub evaluation_name: String,
    pub result: EvaluationResult,
    pub timestamp: String,
}

/// The mathematical content of a [`FileEvaluation`].
pub struct FileEvaluationView {
    pub file_path: Seq<char>,
    pub evaluation_name: Seq<char>,
    pub result: EvaluationResultView,
    pub timestamp: Seq<char>,
}

impl View for FileEvaluation {
    type V = FileEvaluationView;

    open spec fn view(&self) -> FileEvaluationView {
        FileEvaluationView {
            file_path: self.file_path@,
            evaluation_name: self.evaluation_name@,
            result: self.result@,
            timestamp: self.timestamp@,
        }
    }
}

/// The contents of a list of file evaluations, in order.
pub open spec fn evaluation_views(results: Seq<FileEvaluation>) -> Seq<FileEvaluationView> {
    results.map_values(|r: FileEvaluation| r@)
}

/// The sum of the scores of `results`.
pub open spec fn score_sum(results: Seq<FileEvaluationView>) -> int
    decreases results.len(),
{
    if results.len() == 0 {
        0
    } else {
        score_sum(results.drop_last()) + results.last().result.score
    }
}

/// The totals of a run. The mean score is `score_total / total_files`; it
/// is kept as an exact fraction, so that no rounding enters the record.
#[derive(Debug)]
pub struct EvaluationSummary {
    pub total_files: usize,
    pub score_total: i128,
    pub evaluation_name: String,
    pub target_folder: String,
    pub timestamp: String,
}

/// The mathematical content of an [`EvaluationSummary`].
pub struct EvaluationSummaryView {
    pub total_files: nat,
    pub score_total: int,
    pub evaluation_name: Seq<char>,
    pub target_folder: Seq<char>,
    pub timestamp: Seq<char>,
}

impl View for EvaluationSummary {
    type V = EvaluationSummaryView;

    open spec fn view(&self) -> EvaluationSummaryView {
        EvaluationSummaryView {
            total_files: self.total_files as nat,
            score_total: self.score_total as int,
            evaluation_name: self.evaluation_name@,
            target_folder: self.target_folder@,
            timestamp: self.timestamp@,
        }
    }
}

/// The outcome of a run: its totals and the per-file results in the order
/// in which the files were processed.
#[derive(Debug)]
pub struct EvaluationReport {
    pub summary: EvaluationSummary,
    pub results: Vec<FileEvaluation>,
}

/// The mathematical content of an [`EvaluationReport`].
pub struct EvaluationReportView {
    pub summary: EvaluationSummaryView,
    pub results: Seq<FileEvaluationView>,
}

impl View for EvaluationReport {
    type V = EvaluationReportView;

    open spec fn view(&self) -> EvaluationReportView {
        EvaluationReportView { summary: self.summary@, results: evaluation_views(self.results@) }
    }
}

/// The summary that belongs to `results`.
pub open spec fn summary_of(
    results: Seq<FileEvaluationView>,
    evaluation_name: Seq<char>,
    target_folder: Seq<char>,
    timestamp: Seq<char>,
) -> EvaluationSummaryView {
    EvaluationSummaryView {
        total_files: results.len(),
        score_total: score_sum(results),
        evaluation_name,
        target_folder,
        timestamp,
    }
}

/// The report that belongs to `results`.
pub open spec fn report_of(
    results: Seq<FileEvaluationView>,
    evaluation_name: Seq<char>,
    target_folder: Seq<char>,
    timestamp: Seq<char>,
) -> EvaluationReportView {
    EvaluationReportView {
        summary: summary_of(results, evaluation_name, target_folder, timestamp),
        results,
    }
}

/// The sum of scores stays within `2^31` times the number of results.
pub proof fn lemma_score_sum_bounds(results: Seq<FileEvaluation>)
    ensures
        -0x8000_0000 * results.len() <= score_sum(evaluation_views(results)) <= 0x7fff_ffff
            * results.len(),
    decreases results.len(),
{
    if results.len() > 0 {
        lemma_score_sum_bounds(results.drop_last());
        assert(evaluation_views(results).drop_last() =~= evaluation_views(results.drop_last()));
    }
}

/// Adds up the scores of `results`.
pub fn total_score(results: &[FileEvaluation]) -> (total: i128)
    ensures
        total == score_sum(evaluation_views(results@)),
{
    let mut total: i128 = 0;
    let mut i: usize = 0;
    assert(evaluation_views(results@.take(0)) =~= Seq::empty());
    while i < results.len()
        invariant
            i <= results.len(),
            total == score_sum(evaluation_views(results@.take(i as int))),
        decreases results.len() - i,
    {
        proof {
            lemma_score_sum_bounds(results@.take(i as int));
            let next = evaluation_views(results@.take(i + 1));
            assert(next.drop_last() =~= evaluation_views(results@.take(i as int)));
            assert(next.last() == results@[i as int]@);
        }
        total = total + results[i].result.score as i128;
        i += 1;
    }
    assert(results@.take(results@.len() as int) =~= results@);
    total
}

impl EvaluationReport {
    /// Builds the report of a run from its results: the summary counts the
    /// results and adds up their scores, and the results keep their order.
    pub fn new(
        results: Vec<FileEvaluation>,
        evaluation_name: String,
        target_folder: String,
        timestamp: String,
    ) -> (report: EvaluationReport)
        ensures
            report@ == report_of(
                evaluation_views(results@),
                evaluation_name@,
                target_folder@,
                timestamp@,
            ),
            report.results@ == results@,
    {
        let score_total = total_score(results.as_slice());
        let summary = EvaluationSummary {
            total_files: results.len(),
            score_total,
            evaluation_name,
            target_folder,
            timestamp,
        };
        EvaluationReport { summary, results }
    }
}

} // verus!
