use cairs::evaluations::{
    total_score, EvaluationReport, EvaluationResult, FileEvaluation, MAX_SCORE, MIN_SCORE,
};
use cairs::junit::render_junit;

fn evaluation(path: &str, score: i32, explanation: &str) -> FileEvaluation {
    FileEvaluation {
        file_path: path.to_string(),
        evaluation_name: "clarity".to_string(),
        result: EvaluationResult { score, explanation: explanation.to_string() },
        timestamp: "2024-05-01T12:00:00+00:00".to_string(),
    }
}

fn report(results: Vec<FileEvaluation>) -> EvaluationReport {
    EvaluationReport::new(
        results,
        "clarity".to_string(),
        "src".to_string(),
        "2024-05-01T12:00:00+00:00".to_string(),
    )
}

#[test]
fn average_of_eight_six_four_is_exactly_six() {
    let report =
        report(vec![evaluation("a.rs", 8, ""), evaluation("b.rs", 6, ""), evaluation("c.rs", 4, "")]);
    assert_eq!(report.summary.total_files, 3);
    assert_eq!(report.summary.score_total, 18);
    let average = report.summary.score_total as f64 / report.summary.total_files as f64;
    assert_eq!(average, 6.0);
}

#[test]
fn summary_counts_results_and_adds_scores() {
    let report = report(vec![evaluation("a.rs", 10, ""), evaluation("b.rs", 1, "")]);
    assert_eq!(report.summary.total_files, 2);
    assert_eq!(report.summary.score_total, 11);
    assert_eq!(report.summary.evaluation_name, "clarity");
    assert_eq!(report.summary.target_folder, "src");
    assert_eq!(report.summary.timestamp, "2024-05-01T12:00:00+00:00");
}

#[test]
fn report_keeps_results_in_order() {
    let report =
        report(vec![evaluation("z.rs", 3, "z"), evaluation("a.rs", 9, "a"), evaluation("m.rs", 5, "m")]);
    let paths: Vec<&str> = report.results.iter().map(|r| r.file_path.as_str()).collect();
    assert_eq!(paths, vec!["z.rs", "a.rs", "m.rs"]);
}

#[test]
fn total_of_no_results_is_zero() {
    assert_eq!(total_score(&[]), 0);
    let report = report(Vec::new());
    assert_eq!(report.summary.total_files, 0);
    assert_eq!(report.summary.score_total, 0);
}

#[test]
fn total_adds_scores_of_any_sign() {
    let results = vec![
        evaluation("a.rs", i32::MAX, ""),
        evaluation("b.rs", i32::MAX, ""),
        evaluation("c.rs", -5, ""),
    ];
    assert_eq!(total_score(&results), 2 * (i32::MAX as i128) - 5);
    let results = vec![evaluation("a.rs", i32::MIN, ""), evaluation("b.rs", i32::MIN, "")];
    assert_eq!(total_score(&results), 2 * (i32::MIN as i128));
}

#[test]
fn score_validity_follows_the_range() {
    assert_eq!((MIN_SCORE, MAX_SCORE), (1, 10));
    for (score, valid) in [(0, false), (1, true), (5, true), (10, true), (11, false), (-1, false)] {
        let result = EvaluationResult { score, explanation: String::new() };
        assert_eq!(result.has_valid_score(), valid);
    }
}

#[test]
fn junit_document_of_two_results() {
    let report = report(vec![
        evaluation("src/a.rs", 8, "Reads well."),
        evaluation("src/b.rs", 10, "Nothing to add."),
    ]);
    let expected = concat_lines(&[
        "<?xml version=\"1.0\" encoding=\"UTF-8\"?>",
        "<testsuites name=\"Code Evaluation - clarity\" tests=\"2\" failures=\"0\" errors=\"0\" time=\"0\">",
        "  <testsuite name=\"clarity\" tests=\"2\" failures=\"0\" errors=\"0\" time=\"0\">",
        "    <testcase classname=\"clarity\" name=\"src/a.rs\" time=\"0\">",
        "      <system-out>Score: 8/10",
        "Explanation: Reads well.</system-out>",
        "    </testcase>",
        "    <testcase classname=\"clarity\" name=\"src/b.rs\" time=\"0\">",
        "      <system-out>Score: 10/10",
        "Explanation: Nothing to add.</system-out>",
        "    </testcase>",
        "  </testsuite>",
        "</testsuites>",
    ]);
    assert_eq!(render_junit(&report), expected);
}

fn concat_lines(lines: &[&str]) -> String {
    let mut text = String::new();
    for line in lines {
        text.push_str(line);
        text.push('\n');
    }
    text
}

#[test]
fn junit_document_without_results_holds_an_empty_suite() {
    let expected = concat_lines(&[
        "<?xml version=\"1.0\" encoding=\"UTF-8\"?>",
        "<testsuites name=\"Code Evaluation - clarity\" tests=\"0\" failures=\"0\" errors=\"0\" time=\"0\">",
        "  <testsuite name=\"clarity\" tests=\"0\" failures=\"0\" errors=\"0\" time=\"0\">",
        "  </testsuite>",
        "</testsuites>",
    ]);
    assert_eq!(render_junit(&report(Vec::new())), expected);
}

#[test]
fn junit_never_counts_failures_even_for_low_scores() {
    let xml = render_junit(&report(vec![evaluation("a.rs", 1, "Poor.")]));
    assert!(xml.contains("tests=\"1\" failures=\"0\" errors=\"0\""));
    assert!(xml.contains("<system-out>Score: 1/10\nExplanation: Poor.</system-out>"));
    assert!(!xml.contains("<failure"));
}

#[test]
fn junit_takes_the_test_count_from_the_summary() {
    let mut report = report(vec![evaluation("a.rs", 7, "")]);
    report.summary.total_files = 1234567890;
    let xml = render_junit(&report);
    assert!(xml.contains("<testsuites name=\"Code Evaluation - clarity\" tests=\"1234567890\" "));
    assert!(xml.contains("<testsuite name=\"clarity\" tests=\"1234567890\" "));
}

#[test]
fn junit_writes_scores_of_any_size_in_decimal() {
    let xml = render_junit(&report(vec![
        evaluation("a.rs", -42, ""),
        evaluation("b.rs", i32::MIN, ""),
        evaluation("c.rs", i32::MAX, ""),
        evaluation("d.rs", 0, ""),
        evaluation("e.rs", 100, ""),
    ]));
    assert!(xml.contains("Score: -42/10\n"));
    assert!(xml.contains("Score: -2147483648/10\n"));
    assert!(xml.contains("Score: 2147483647/10\n"));
    assert!(xml.contains("Score: 0/10\n"));
    assert!(xml.contains("Score: 100/10\n"));
}

#[test]
fn junit_writes_text_as_it_is() {
    let xml = render_junit(&report(vec![evaluation("a<b>.rs", 7, "x < y && \"z\"")]));
    assert!(xml.contains("name=\"a<b>.rs\""));
    assert!(xml.contains("Explanation: x < y && \"z\"</system-out>"));
}

#[test]
fn junit_rendering_is_repeatable() {
    let report = report(vec![evaluation("a.rs", 3, "one"), evaluation("b.rs", 9, "two")]);
    assert_eq!(render_junit(&report), render_junit(&report));
}
