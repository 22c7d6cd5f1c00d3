//! The evaluation run as a state machine.
//!
//! A run finds the files under a folder, filters them, and then takes them
//! one at a time: read the file, send it to the backend, read the reply,
//! record the outcome. Between two files it waits for a fixed delay. When
//! the last file is done it writes the reports and ends with a verdict.
//!
//! Nothing here touches the outside. The machine answers each event with
//! the next action; the caller performs the action and comes back with the
//! event that tells how it went.

use crate::client::{user_message, user_message_text};
use crate::discovery::{build_source_file_list, source_files};
use crate::evaluations::{
    evaluation_views, report_of, score_in_range, EvaluationReport, EvaluationReportView,
    EvaluationResult, EvaluationResultView, FileEvaluation, FileEvaluationView,
};
use crate::pattern::{apply_file_filters, filtered, optional_text};
use crate::response::{
    lemma_parsed_score_in_range, parse_evaluation, parse_outcome, ParseError, ParseErrorView,
};
use crate::text::texts;
use vstd::prelude::*;

verus! {

/// The delay between two files, in milliseconds.
pub const PACING_DELAY_MS: u64 = 500;

/// The score below which a file fails the run.
pub const PASS_THRESHOLD: i32 = 5;

/// What a run is asked to do.
#[derive(Debug)]
pub struct RunPlan {
    pub target_folder: String,
    pub evaluation_name: String,
    pub system_prompt: String,
    pub skip_pattern: Option<String>,
    pub include_patterns: Option<String>,
    pub timestamp: String,
}

/// The mathematical content of a [`RunPlan`].
pub struct RunPlanView {
    pub target_folder: Seq<char>,
    pub evaluation_name: Seq<char>,
    pub system_prompt: Seq<char>,
    pub skip_pattern: Option<Seq<char>>,
    pub include_patterns: Option<Seq<char>>,
    pub timestamp: Seq<char>,
}

/// The character sequence of an optional string.
pub open spec fn optional_string_view(o: Option<String>) -> Option<Seq<char>> {
    match o {
        Some(s) => Some(s@),
        None => None,
    }
}

impl View for RunPlan {
    type V = RunPlanView;

    open spec fn view(&self) -> RunPlanView {
        RunPlanView {
            target_folder: self.target_folder@,
            evaluation_name: self.evaluation_name@,
            system_prompt: self.system_prompt@,
            skip_pattern: optional_string_view(self.skip_pattern),
            include_patterns: optional_string_view(self.include_patterns),
            timestamp: self.timestamp@,
        }
    }
}

/// Where a run stands: what it is waiting for.
#[derive(Debug, Clone, Copy, PartialEq, Eq, Structural)]
pub enum Phase {
    /// For the list of files under the target folder.
    Discovering,
    /// For the content of the current file.
    Reading,
    /// For the backend's reply on the current file.
    Dispatching,
    /// For the delay before the next file.
    Pacing,
    /// For the reports to be written.
    Reporting,
    /// For nothing: the run is over.
    Done,
}

/// Why a file has no result.
#[derive(Debug)]
pub enum SkipCause {
    /// Its content could not be read.
    Unreadable,
    /// The call to the backend failed; the text says how.
    CallFailed(String),
    /// The reply held no acceptable result.
    ParseFailed(ParseError),
}

/// The mathematical content of a [`SkipCause`].
pub enum SkipCauseView {
    Unreadable,
    CallFailed(Seq<char>),
    ParseFailed(ParseErrorView),
}

impl View for SkipCause {
    type V = SkipCauseView;

    open spec fn view(&self) -> SkipCauseView {
        match self {
            SkipCause::Unreadable => SkipCauseView::Unreadable,
            SkipCause::CallFailed(why) => SkipCauseView::CallFailed(why@),
            SkipCause::ParseFailed(error) => SkipCauseView::ParseFailed(error@),
        }
    }
}

/// What became of one file.
#[derive(Debug)]
pub enum FileOutcome {
    /// The file was judged.
    Evaluated(FileEvaluation),
    /// The file was passed over.
    Skipped { file_path: String, cause: SkipCause },
}

/// The mathematical content of a [`FileOutcome`].
pub enum FileOutcomeView {
    Evaluated(FileEvaluationView),
    Skipped { file_path: Seq<char>, cause: SkipCauseView },
}

impl View for FileOutcome {
    type V = FileOutcomeView;

    open spec fn view(&self) -> FileOutcomeView {
        match self {
            FileOutcome::Evaluated(evaluation) => FileOutcomeView::Evaluated(evaluation@),
            FileOutcome::Skipped { file_path, cause } => FileOutcomeView::Skipped {
                file_path: file_path@,
                cause: cause@,
            },
        }
    }
}

impl FileOutcomeView {
    /// The file that the outcome is about.
    pub open spec fn file_path(self) -> Seq<char> {
        match self {
            FileOutcomeView::Evaluated(evaluation) => evaluation.file_path,
            FileOutcomeView::Skipped { file_path, .. } => file_path,
        }
    }
}

/// The contents of a list of outcomes, in order.
pub open spec fn outcome_views(log: Seq<FileOutcome>) -> Seq<FileOutcomeView> {
    log.map_values(|o: FileOutcome| o@)
}

/// The results among `log`, in order.
pub open spec fn results_of(log: Seq<FileOutcomeView>) -> Seq<FileEvaluationView>
    decreases log.len(),
{
    if log.len() == 0 {
        Seq::empty()
    } else {
        match log.last() {
            FileOutcomeView::Evaluated(evaluation) => results_of(log.drop_last()).push(evaluation),
            FileOutcomeView::Skipped { .. } => results_of(log.drop_last()),
        }
    }
}

/// How a run ended.
#[derive(Debug, Clone, Copy, PartialEq, Eq, Structural)]
pub enum Verdict {
    /// No file was left after filtering.
    NoFilesFound,
    /// No file was judged.
    NoSuccessfulEvaluations,
    /// Every judged file reached the threshold.
    Passed,
    /// Some judged file stayed below the threshold.
    Failed,
}

/// The exit status of a run that ended with `verdict`: non-zero only where
/// a file stayed below the threshold.
pub open spec fn exit_status(verdict: Verdict) -> int {
    if verdict == Verdict::Failed {
        1
    } else {
        0
    }
}

impl Verdict {
    /// The process exit code for this verdict.
    pub fn exit_code(&self) -> (code: i32)
        ensures
            code == exit_status(*self),
    {
        match self {
            Verdict::Failed => 1,
            _ => 0,
        }
    }
}

/// What the caller tells the machine.
#[derive(Debug)]
pub enum Event {
    /// The regular files found under the target folder.
    FilesFound(Vec<String>),
    /// The content of the current file.
    FileRead(String),
    /// The current file could not be read.
    FileUnreadable,
    /// The backend's reply on the current file.
    ReplyReceived(String),
    /// The call for the current file failed; the text says how.
    CallFailed(String),
    /// The pacing delay is over.
    DelayElapsed,
    /// The reports were written, or writing them was given up.
    ReportsWritten,
}

/// The mathematical content of an [`Event`].
pub enum EventView {
    FilesFound(Seq<Seq<char>>),
    FileRead(Seq<char>),
    FileUnreadable,
    ReplyReceived(Seq<char>),
    CallFailed(Seq<char>),
    DelayElapsed,
    ReportsWritten,
}

impl View for Event {
    type V = EventView;

    open spec fn view(&self) -> EventView {
        match self {
            Event::FilesFound(found) => EventView::FilesFound(texts(found@)),
            Event::FileRead(content) => EventView::FileRead(content@),
            Event::FileUnreadable => EventView::FileUnreadable,
            Event::ReplyReceived(raw) => EventView::ReplyReceived(raw@),
            Event::CallFailed(why) => EventView::CallFailed(why@),
            Event::DelayElapsed => EventView::DelayElapsed,
            Event::ReportsWritten => EventView::ReportsWritten,
        }
    }
}

/// What the machine asks the caller to do next.
#[derive(Debug)]
pub enum Action {
    /// List the regular files under `root`.
    Discover { root: String },
    /// Read the file at `path`.
    ReadFile { path: String },
    /// Send the two messages to the backend.
    Dispatch { system_prompt: String, user_message: String },
    /// Wait for `millis` milliseconds.
    Wait { millis: u64 },
    /// Write the reports.
    WriteReports { report: EvaluationReport },
    /// End the run.
    Finish { verdict: Verdict },
}

/// The mathematical content of an [`Action`].
pub enum ActionView {
    Discover { root: Seq<char> },
    ReadFile { path: Seq<char> },
    Dispatch { system_prompt: Seq<char>, user_message: Seq<char> },
    Wait { millis: u64 },
    WriteReports { report: EvaluationReportView },
    Finish { verdict: Verdict },
}

impl View for Action {
    type V = ActionView;

    open spec fn view(&self) -> ActionView {
        match self {
            Action::Discover { root } => ActionView::Discover { root: root@ },
            Action::ReadFile { path } => ActionView::ReadFile { path: path@ },
            Action::Dispatch { system_prompt, user_message } => ActionView::Dispatch {
                system_prompt: system_prompt@,
                user_message: user_message@,
            },
            Action::Wait { millis } => ActionView::Wait { millis: *millis },
            Action::WriteReports { report } => ActionView::WriteReports { report: report@ },
            Action::Finish { verdict } => ActionView::Finish { verdict: *verdict },
        }
    }
}

/// The mathematical content of an optional action.
pub open spec fn optional_action_view(action: Option<Action>) -> Option<ActionView> {
    match action {
        Some(a) => Some(a@),
        None => None,
    }
}


/// The mathematical content of a run in progress.
pub struct RunView {
    pub plan: RunPlanView,
    pub phase: Phase,
    /// The files to evaluate, in the order in which they are taken.
    pub files: Seq<Seq<char>>,
    /// The position of the current file among `files`.
    pub cursor: nat,
    /// What became of the files that are done, in the order in which they
    /// were taken.
    pub log: Seq<FileOutcomeView>,
}

/// The files that a run evaluates, out of those found under its folder:
/// the source files among them that pass the plan's filter.
pub open spec fn selected_files(plan: RunPlanView, found: Seq<Seq<char>>) -> Seq<Seq<char>> {
    filtered(source_files(found), plan.skip_pattern, plan.include_patterns)
}

/// Every result in `results` reaches the threshold.
pub open spec fn all_pass(results: Seq<FileEvaluationView>) -> bool {
    forall|i: int| 0 <= i < results.len() ==> #[trigger] results[i].result.score >= PASS_THRESHOLD
}

/// The verdict on the results of a finished run.
pub open spec fn verdict_of(results: Seq<FileEvaluationView>) -> Verdict {
    if all_pass(results) {
        Verdict::Passed
    } else {
        Verdict::Failed
    }
}

/// The state and the first action of a run of `plan`.
pub open spec fn start_spec(plan: RunPlanView) -> (RunView, ActionView) {
    (
        RunView { plan, phase: Phase::Discovering, files: Seq::empty(), cursor: 0, log: Seq::empty() },
        ActionView::Discover { root: plan.target_folder },
    )
}

/// What is entered in the log for the current file, given what came of it.
pub open spec fn outcome_entry(
    run: RunView,
    outcome: Result<EvaluationResultView, SkipCauseView>,
) -> FileOutcomeView {
    match outcome {
        Ok(result) => FileOutcomeView::Evaluated(
            FileEvaluationView {
                file_path: run.files[run.cursor as int],
                evaluation_name: run.plan.evaluation_name,
                result,
                timestamp: run.plan.timestamp,
            },
        ),
        Err(cause) => FileOutcomeView::Skipped { file_path: run.files[run.cursor as int], cause },
    }
}

/// The step that closes the current file: its outcome is entered in the
/// log. Then, if files are left, the run waits before the next; if none is
/// left and no file was judged, it ends; else it writes the reports.
pub open spec fn settle_spec(
    run: RunView,
    outcome: Result<EvaluationResultView, SkipCauseView>,
) -> (RunView, Option<ActionView>) {
    let log = run.log.push(outcome_entry(run, outcome));
    if run.cursor + 1 < run.files.len() {
        (
            RunView { phase: Phase::Pacing, log, ..run },
            Some(ActionView::Wait { millis: PACING_DELAY_MS }),
        )
    } else if results_of(log).len() == 0 {
        (
            RunView { phase: Phase::Done, log, ..run },
            Some(ActionView::Finish { verdict: Verdict::NoSuccessfulEvaluations }),
        )
    } else {
        (
            RunView { phase: Phase::Reporting, log, ..run },
            Some(
                ActionView::WriteReports {
                    report: report_of(
                        results_of(log),
                        run.plan.evaluation_name,
                        run.plan.target_folder,
                        run.plan.timestamp,
                    ),
                },
            ),
        )
    }
}

/// What a reply comes to for the current file.
pub open spec fn reply_outcome(raw: Seq<char>) -> Result<EvaluationResultView, SkipCauseView> {
    match parse_outcome(raw) {
        Ok(result) => Ok(result),
        Err(error) => Err(SkipCauseView::ParseFailed(error)),
    }
}

/// The transition of the machine: the state after `event`, and the action
/// that answers it. An event that the current phase does not wait for
/// changes nothing and is answered by no action.
pub open spec fn step_spec(run: RunView, event: EventView) -> (RunView, Option<ActionView>) {
    match (run.phase, event) {
        (Phase::Discovering, EventView::FilesFound(found)) => {
            let files = selected_files(run.plan, found);
            if files.len() == 0 {
                (
                    RunView { phase: Phase::Done, ..run },
                    Some(ActionView::Finish { verdict: Verdict::NoFilesFound }),
                )
            } else {
                (
                    RunView { phase: Phase::Reading, files, cursor: 0, ..run },
                    Some(ActionView::ReadFile { path: files[0] }),
                )
            }
        },
        (Phase::Reading, EventView::FileRead(content)) => (
            RunView { phase: Phase::Dispatching, ..run },
            Some(
                ActionView::Dispatch {
                    system_prompt: run.plan.system_prompt,
                    user_message: user_message_text(run.files[run.cursor as int], content),
                },
            ),
        ),
        (Phase::Reading, EventView::FileUnreadable) => settle_spec(
            run,
            Err(SkipCauseView::Unreadable),
        ),
        (Phase::Dispatching, EventView::ReplyReceived(raw)) => settle_spec(
            run,
            reply_outcome(raw),
        ),
        (Phase::Dispatching, EventView::CallFailed(why)) => settle_spec(
            run,
            Err(SkipCauseView::CallFailed(why)),
        ),
        (Phase::Pacing, EventView::DelayElapsed) => (
            RunView { phase: Phase::Reading, cursor: (run.cursor + 1) as nat, ..run },
            Some(ActionView::ReadFile { path: run.files[run.cursor as int + 1] }),
        ),
        (Phase::Reporting, EventView::ReportsWritten) => (
            RunView { phase: Phase::Done, ..run },
            Some(ActionView::Finish { verdict: verdict_of(results_of(run.log)) }),
        ),
        _ => (run, None),
    }
}

/// The log holds one entry for each of the first `done` files, in order.
pub open spec fn log_follows_files(run: RunView, done: nat) -> bool {
    &&& run.log.len() == done
    &&& done <= run.files.len()
    &&& forall|i: int| 0 <= i < done ==> (#[trigger] run.log[i]).file_path() == run.files[i]
}

/// Every result in the log carries an acceptable score, and the rubric and
/// the time of the run.
pub open spec fn log_is_sound(run: RunView) -> bool {
    forall|i: int|
        0 <= i < run.log.len() ==> match #[trigger] run.log[i] {
            FileOutcomeView::Evaluated(evaluation) => {
                &&& score_in_range(evaluation.result.score)
                &&& evaluation.evaluation_name == run.plan.evaluation_name
                &&& evaluation.timestamp == run.plan.timestamp
            },
            FileOutcomeView::Skipped { .. } => true,
        }
}

/// What holds of every state that a run passes through.
pub open spec fn run_is_consistent(run: RunView) -> bool {
    &&& log_is_sound(run)
    &&& match run.phase {
        Phase::Discovering => run.files.len() == 0 && run.cursor == 0 && run.log.len() == 0,
        Phase::Reading | Phase::Dispatching => run.cursor < run.files.len() && log_follows_files(
            run,
            run.cursor,
        ),
        Phase::Pacing => run.cursor + 1 < run.files.len() && log_follows_files(
            run,
            (run.cursor + 1) as nat,
        ),
        Phase::Reporting => results_of(run.log).len() > 0 && log_follows_files(
            run,
            run.files.len(),
        ),
        Phase::Done => log_follows_files(run, run.files.len()),
    }
}


/// The mathematical content of what came of a file.
pub open spec fn settled_view(outcome: Result<EvaluationResult, SkipCause>) -> Result<
    EvaluationResultView,
    SkipCauseView,
> {
    match outcome {
        Ok(result) => Ok(result@),
        Err(cause) => Err(cause@),
    }
}

/// A run in progress.
pub struct Orchestrator {
    plan: RunPlan,
    phase: Phase,
    files: Vec<String>,
    cursor: usize,
    log: Vec<FileOutcome>,
}

impl View for Orchestrator {
    type V = RunView;

    closed spec fn view(&self) -> RunView {
        RunView {
            plan: self.plan@,
            phase: self.phase,
            files: texts(self.files@),
            cursor: self.cursor as nat,
            log: outcome_views(self.log@),
        }
    }
}

/// Borrows the text of an optional string.
fn as_text(o: &Option<String>) -> (r: Option<&str>)
    ensures
        optional_text(r) == optional_string_view(*o),
{
    match o {
        Some(s) => Some(s.as_str()),
        None => None,
    }
}

/// Copies a file evaluation.
fn copy_evaluation(evaluation: &FileEvaluation) -> (copy: FileEvaluation)
    ensures
        copy@ == evaluation@,
{
    FileEvaluation {
        file_path: evaluation.file_path.clone(),
        evaluation_name: evaluation.evaluation_name.clone(),
        result: EvaluationResult {
            score: evaluation.result.score,
            explanation: evaluation.result.explanation.clone(),
        },
        timestamp: evaluation.timestamp.clone(),
    }
}

/// Copies the results out of a log, in order.
pub fn collect_results(log: &[FileOutcome]) -> (results: Vec<FileEvaluation>)
    ensures
        evaluation_views(results@) == results_of(outcome_views(log@)),
{
    let ghost entries = outcome_views(log@);
    let mut results: Vec<FileEvaluation> = Vec::new();
    let mut i: usize = 0;
    assert(entries.take(0) =~= Seq::empty());
    assert(evaluation_views(results@) =~= Seq::empty());
    while i < log.len()
        invariant
            i <= log.len(),
            entries == outcome_views(log@),
            evaluation_views(results@) == results_of(entries.take(i as int)),
        decreases log.len() - i,
    {
        proof {
            let next = entries.take(i + 1);
            assert(next.drop_last() =~= entries.take(i as int));
            assert(next.last() == log@[i as int]@);
        }
        match &log[i] {
            FileOutcome::Evaluated(evaluation) => {
                let ghost before = evaluation_views(results@);
                results.push(copy_evaluation(evaluation));
                assert(evaluation_views(results@) =~= before.push(evaluation@));
            },
            FileOutcome::Skipped { .. } => {},
        }
        i += 1;
    }
    assert(entries.take(entries.len() as int) =~= entries);
    results
}

/// Passes the verdict on a list of results: failed if any score lies below
/// the threshold, whatever the others are.
pub fn judge(results: &[FileEvaluation]) -> (verdict: Verdict)
    ensures
        verdict == verdict_of(evaluation_views(results@)),
{
    let mut i: usize = 0;
    while i < results.len()
        invariant
            i <= results.len(),
            forall|j: int|
                0 <= j < i ==> (#[trigger] evaluation_views(results@)[j]).result.score
                    >= PASS_THRESHOLD,
        decreases results.len() - i,
    {
        if results[i].result.score < PASS_THRESHOLD {
            assert(evaluation_views(results@)[i as int].result.score < PASS_THRESHOLD);
            return Verdict::Failed;
        }
        i += 1;
    }
    Verdict::Passed
}

impl Orchestrator {
    #[verifier::type_invariant]
    spec fn consistent(&self) -> bool {
        run_is_consistent(self@)
    }

    /// Begins a run of `plan`. The first action is to list the files under
    /// the target folder.
    pub fn start(plan: RunPlan) -> (r: (Orchestrator, Action))
        ensures
            (r.0@, r.1@) == start_spec(plan@),
            run_is_consistent(r.0@),
    {
        let root = plan.target_folder.clone();
        let run = Orchestrator {
            plan,
            phase: Phase::Discovering,
            files: Vec::new(),
            cursor: 0,
            log: Vec::new(),
        };
        assert(run@.files =~= Seq::empty());
        assert(run@.log =~= Seq::empty());
        (run, Action::Discover { root })
    }

    /// The phase that the run is in.
    pub fn phase(&self) -> (phase: Phase)
        ensures
            phase == self@.phase,
    {
        self.phase
    }

    /// The files that the run evaluates, in order. Empty until the files
    /// under the target folder are known.
    pub fn files(&self) -> (files: &Vec<String>)
        ensures
            texts(files@) == self@.files,
    {
        &self.files
    }

    /// What became of the files that are done, in order.
    pub fn log(&self) -> (log: &Vec<FileOutcome>)
        ensures
            outcome_views(log@) == self@.log,
    {
        &self.log
    }

    /// Closes the current file with `outcome`.
    fn settle(self, outcome: Result<EvaluationResult, SkipCause>) -> (r: (
        Orchestrator,
        Option<Action>,
    ))
        requires
            self@.phase == Phase::Reading || self@.phase == Phase::Dispatching,
            outcome matches Ok(result) ==> result.is_valid(),
        ensures
            (r.0@, optional_action_view(r.1)) == settle_spec(self@, settled_view(outcome)),
    {
        proof {
            use_type_invariant(&self);
        }
        let ghost before = self@;
        let ghost given = settled_view(outcome);
        let Orchestrator { plan, phase: _, files, cursor, log } = self;
        assert(before.files.len() == files@.len());
        assert(cursor < files.len());
        let mut log = log;
        let entry = match outcome {
            Ok(result) => FileOutcome::Evaluated(
                FileEvaluation {
                    file_path: files[cursor].clone(),
                    evaluation_name: plan.evaluation_name.clone(),
                    result,
                    timestamp: plan.timestamp.clone(),
                },
            ),
            Err(cause) => FileOutcome::Skipped { file_path: files[cursor].clone(), cause },
        };
        assert(texts(files@)[cursor as int] == files@[cursor as int]@);
        assert(entry@ == outcome_entry(before, given));
        log.push(entry);
        let ghost entries = outcome_views(log@);
        proof {
            assert(entries =~= before.log.push(outcome_entry(before, given)));
            assert(entries.drop_last() =~= before.log);
        }
        if cursor + 1 < files.len() {
            let run = Orchestrator { plan, phase: Phase::Pacing, files, cursor, log };
            (run, Some(Action::Wait { millis: PACING_DELAY_MS }))
        } else {
            let results = collect_results(log.as_slice());
            if results.len() == 0 {
                let run = Orchestrator { plan, phase: Phase::Done, files, cursor, log };
                (run, Some(Action::Finish { verdict: Verdict::NoSuccessfulEvaluations }))
            } else {
                let report = EvaluationReport::new(
                    results,
                    plan.evaluation_name.clone(),
                    plan.target_folder.clone(),
                    plan.timestamp.clone(),
                );
                let run = Orchestrator { plan, phase: Phase::Reporting, files, cursor, log };
                (run, Some(Action::WriteReports { report }))
            }
        }
    }

    /// Takes the machine one step: `event` tells how the last action went,
    /// and the answer is the state that follows and the next action. An
    /// event that the current phase does not wait for leaves the state as
    /// it is and is answered by no action.
    pub fn step(self, event: Event) -> (r: (Orchestrator, Option<Action>))
        ensures
            (r.0@, optional_action_view(r.1)) == step_spec(self@, event@),
            run_is_consistent(r.0@),
    {
        proof {
            use_type_invariant(&self);
        }
        let ghost before = self@;
        let r = match (self.phase, event) {
            (Phase::Discovering, Event::FilesFound(found)) => {
                let Orchestrator { plan, phase: _, files, cursor, log } = self;
                let sources = build_source_file_list(found.as_slice());
                let selected = apply_file_filters(
                    sources.as_slice(),
                    as_text(&plan.skip_pattern),
                    as_text(&plan.include_patterns),
                );
                assert(texts(selected@) == selected_files(before.plan, texts(found@)));
                if selected.len() == 0 {
                    let run = Orchestrator { plan, phase: Phase::Done, files, cursor, log };
                    (run, Some(Action::Finish { verdict: Verdict::NoFilesFound }))
                } else {
                    let path = selected[0].clone();
                    assert(texts(selected@)[0] == selected@[0]@);
                    let run = Orchestrator {
                        plan,
                        phase: Phase::Reading,
                        files: selected,
                        cursor: 0,
                        log,
                    };
                    (run, Some(Action::ReadFile { path }))
                }
            },
            (Phase::Reading, Event::FileRead(content)) => {
                let Orchestrator { plan, phase: _, files, cursor, log } = self;
                assert(texts(files@)[cursor as int] == files@[cursor as int]@);
                let message = user_message(files[cursor].as_str(), content.as_str());
                let system_prompt = plan.system_prompt.clone();
                let run = Orchestrator { plan, phase: Phase::Dispatching, files, cursor, log };
                (run, Some(Action::Dispatch { system_prompt, user_message: message }))
            },
            (Phase::Reading, Event::FileUnreadable) => self.settle(Err(SkipCause::Unreadable)),
            (Phase::Dispatching, Event::ReplyReceived(raw)) => {
                let outcome = match parse_evaluation(raw.as_str()) {
                    Ok(result) => Ok(result),
                    Err(error) => Err(SkipCause::ParseFailed(error)),
                };
                self.settle(outcome)
            },
            (Phase::Dispatching, Event::CallFailed(why)) => self.settle(
                Err(SkipCause::CallFailed(why)),
            ),
            (Phase::Pacing, Event::DelayElapsed) => {
                let Orchestrator { plan, phase: _, files, cursor, log } = self;
                assert(before.files.len() == files@.len());
                assert(cursor + 1 < files.len());
                let path = files[cursor + 1].clone();
                assert(texts(files@)[cursor + 1] == files@[cursor + 1]@);
                let run = Orchestrator {
                    plan,
                    phase: Phase::Reading,
                    files,
                    cursor: cursor + 1,
                    log,
                };
                (run, Some(Action::ReadFile { path }))
            },
            (Phase::Reporting, Event::ReportsWritten) => {
                let Orchestrator { plan, phase: _, files, cursor, log } = self;
                let results = collect_results(log.as_slice());
                let verdict = judge(results.as_slice());
                let run = Orchestrator { plan, phase: Phase::Done, files, cursor, log };
                (run, Some(Action::Finish { verdict }))
            },
            (_, _) => (self, None),
        };
        proof {
            use_type_invariant(&r.0);
        }
        r
    }
}


/// Below the threshold: the result fails the run.
pub open spec fn some_result_fails(results: Seq<FileEvaluationView>) -> bool {
    exists|i: int| 0 <= i < results.len() && #[trigger] results[i].result.score < PASS_THRESHOLD
}

/// Every step leads from a consistent state to a consistent state.
pub proof fn lemma_step_keeps_consistency(run: RunView, event: EventView)
    requires
        run_is_consistent(run),
    ensures
        run_is_consistent(step_spec(run, event).0),
{
    let next = step_spec(run, event).0;
    match (run.phase, event) {
        (Phase::Reading, EventView::FileUnreadable) => {
            lemma_settle_keeps_consistency(run, Err(SkipCauseView::Unreadable));
        },
        (Phase::Dispatching, EventView::ReplyReceived(raw)) => {
            lemma_parsed_score_in_range(raw);
            lemma_settle_keeps_consistency(run, reply_outcome(raw));
        },
        (Phase::Dispatching, EventView::CallFailed(why)) => {
            lemma_settle_keeps_consistency(run, Err(SkipCauseView::CallFailed(why)));
        },
        _ => {},
    }
}

/// Closing a file leads from a consistent state to a consistent state.
proof fn lemma_settle_keeps_consistency(
    run: RunView,
    outcome: Result<EvaluationResultView, SkipCauseView>,
)
    requires
        run_is_consistent(run),
        run.phase == Phase::Reading || run.phase == Phase::Dispatching,
        outcome matches Ok(result) ==> score_in_range(result.score),
    ensures
        run_is_consistent(settle_spec(run, outcome).0),
{
    let next = settle_spec(run, outcome).0;
    assert(next.log =~= run.log.push(outcome_entry(run, outcome)));
    assert forall|i: int| 0 <= i < next.log.len() implies (#[trigger] next.log[i]).file_path()
        == next.files[i] by {
        if i < run.log.len() {
            assert(next.log[i] == run.log[i]);
        }
    }
    assert forall|i: int| 0 <= i < next.log.len() implies match #[trigger] next.log[i] {
        FileOutcomeView::Evaluated(evaluation) => {
            &&& score_in_range(evaluation.result.score)
            &&& evaluation.evaluation_name == next.plan.evaluation_name
            &&& evaluation.timestamp == next.plan.timestamp
        },
        FileOutcomeView::Skipped { .. } => true,
    } by {
        if i < run.log.len() {
            assert(next.log[i] == run.log[i]);
        }
    }
}

/// Where no file is left after filtering, the run ends at once: the answer
/// to the list of files is the verdict that none was found, and the run is
/// over.
pub proof fn lemma_empty_selection_ends_run(run: RunView, found: Seq<Seq<char>>)
    requires
        run.phase == Phase::Discovering,
        selected_files(run.plan, found).len() == 0,
    ensures
        step_spec(run, EventView::FilesFound(found)).1 == Some(
            ActionView::Finish { verdict: Verdict::NoFilesFound },
        ),
        step_spec(run, EventView::FilesFound(found)).0.phase == Phase::Done,
{
}

/// A run that is over stays over: no event changes its state, and none is
/// answered by an action. In particular nothing is sent and nothing is
/// written after the run has ended.
pub proof fn lemma_done_is_final(run: RunView, event: EventView)
    requires
        run.phase == Phase::Done,
    ensures
        step_spec(run, event) == (run, None::<ActionView>),
{
}

/// The verdict that ends a run is a failure exactly when some result on
/// record lies below the threshold, and only a failure gives a non-zero
/// exit status. The sum and the mean of the scores play no part.
pub proof fn lemma_threshold_gate(run: RunView, event: EventView, verdict: Verdict)
    requires
        run_is_consistent(run),
        step_spec(run, event).1 == Some(ActionView::Finish { verdict }),
    ensures
        verdict == Verdict::Failed <==> some_result_fails(
            results_of(step_spec(run, event).0.log),
        ),
        exit_status(verdict) != 0 <==> verdict == Verdict::Failed,
{
    let next = step_spec(run, event).0;
    let results = results_of(next.log);
    if verdict == Verdict::NoFilesFound {
        assert(run.phase == Phase::Discovering);
        assert(next.log.len() == 0);
    } else if verdict == Verdict::NoSuccessfulEvaluations {
        assert(results.len() == 0);
    } else {
        assert(run.phase == Phase::Reporting);
        assert(next.log == run.log);
        if all_pass(results) {
            assert(!some_result_fails(results));
        } else {
            let i = choose|i: int| 0 <= i < results.len() && !(#[trigger] results[i].result.score
                >= PASS_THRESHOLD);
            assert(results[i].result.score < PASS_THRESHOLD);
        }
    }
}

/// A request is sent only for a file of the run: the user message of every
/// dispatch is the one written for the current file.
pub proof fn lemma_dispatch_is_for_current_file(
    run: RunView,
    event: EventView,
    system_prompt: Seq<char>,
    message: Seq<char>,
)
    requires
        run_is_consistent(run),
        step_spec(run, event).1 == Some(
            ActionView::Dispatch { system_prompt, user_message: message },
        ),
    ensures
        run.phase == Phase::Reading,
        run.cursor < run.files.len(),
        system_prompt == run.plan.system_prompt,
        event matches EventView::FileRead(content) && message == user_message_text(
            run.files[run.cursor as int],
            content,
        ),
{
}

/// The run waits exactly between two files: an answer is the pacing delay
/// if and only if the event closes a file that is not the last.
pub proof fn lemma_wait_between_files(run: RunView, event: EventView)
    requires
        run_is_consistent(run),
    ensures
        (step_spec(run, event).1 == Some(ActionView::Wait { millis: PACING_DELAY_MS })) <==> ({
            &&& run.cursor + 1 < run.files.len()
            &&& (run.phase == Phase::Reading && event is FileUnreadable) || (run.phase
                == Phase::Dispatching && (event is ReplyReceived || event is CallFailed))
        }),
        step_spec(run, event).1 matches Some(ActionView::Wait { millis }) ==> millis
            == PACING_DELAY_MS,
{
}

} // verus!
