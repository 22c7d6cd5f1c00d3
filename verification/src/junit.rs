//! The JUnit XML rendering of an evaluation report.
//!
//! The document holds one test suite with one test case per evaluated file.
//! A low score is not a JUnit failure: the `failures` and `errors` counts
//! are always zero, and the score is reported in the case's output. Text is
//! written as it is, without XML escaping.

use crate::evaluations::{
    evaluation_views, EvaluationReport, EvaluationReportView, FileEvaluation, FileEvaluationView,
};
use crate::text::{decimal, push_decimal, push_signed_decimal, signed_decimal};
use vstd::prelude::*;

verus! {

/// The XML declaration that opens the document.
pub open spec fn junit_declaration() -> Seq<char> {
    "<?xml version=\"1.0\" encoding=\"UTF-8\"?>\n"@
}

/// What follows the name in the opening tag of a suite or of the suite list:
/// the number of tests and the constant counts.
pub open spec fn junit_counts(tests: nat) -> Seq<char> {
    "\" tests=\""@ + decimal(tests) + "\" failures=\"0\" errors=\"0\" time=\"0\">\n"@
}

/// The opening tag of the suite list.
pub open spec fn junit_suites_open(name: Seq<char>, tests: nat) -> Seq<char> {
    "<testsuites name=\"Code Evaluation - "@ + name + junit_counts(tests)
}

/// The opening tag of the suite.
pub open spec fn junit_suite_open(name: Seq<char>, tests: nat) -> Seq<char> {
    "  <testsuite name=\""@ + name + junit_counts(tests)
}

/// The test case of one evaluated file.
pub open spec fn junit_case(r: FileEvaluationView) -> Seq<char> {
    "    <testcase classname=\""@ + r.evaluation_name + "\" name=\""@ + r.file_path
        + "\" time=\"0\">\n"@ + "      <system-out>Score: "@ + signed_decimal(r.result.score)
        + "/10\nExplanation: "@ + r.result.explanation + "</system-out>\n"@
        + "    </testcase>\n"@
}

/// The test cases of `results`, in order.
pub open spec fn junit_cases(results: Seq<FileEvaluationView>) -> Seq<char>
    decreases results.len(),
{
    if results.len() == 0 {
        Seq::empty()
    } else {
        junit_cases(results.drop_last()) + junit_case(results.last())
    }
}

/// The closing tags of the suite and of the suite list.
pub open spec fn junit_close() -> Seq<char> {
    "  </testsuite>\n"@ + "</testsuites>\n"@
}

/// The JUnit document of `report`.
pub open spec fn junit_document(report: EvaluationReportView) -> Seq<char> {
    junit_declaration() + junit_suites_open(
        report.summary.evaluation_name,
        report.summary.total_files,
    ) + junit_suite_open(report.summary.evaluation_name, report.summary.total_files) + junit_cases(
        report.results,
    ) + junit_close()
}

fn push_counts(out: &mut String, tests: usize)
    ensures
        final(out)@ == old(out)@ + junit_counts(tests as nat),
{
    out.append("\" tests=\"");
    push_decimal(out, tests as u64);
    out.append("\" failures=\"0\" errors=\"0\" time=\"0\">\n");
    assert(out@ =~= old(out)@ + junit_counts(tests as nat));
}

fn push_case(out: &mut String, r: &FileEvaluation)
    ensures
        final(out)@ == old(out)@ + junit_case(r@),
{
    out.append("    <testcase classname=\"");
    out.append(r.evaluation_name.as_str());
    out.append("\" name=\"");
    out.append(r.file_path.as_str());
    out.append("\" time=\"0\">\n");
    out.append("      <system-out>Score: ");
    push_signed_decimal(out, r.result.score as i64);
    out.append("/10\nExplanation: ");
    out.append(r.result.explanation.as_str());
    out.append("</system-out>\n");
    out.append("    </testcase>\n");
    assert(out@ =~= old(out)@ + junit_case(r@));
}

/// Renders `report` as a JUnit XML document.
pub fn render_junit(report: &EvaluationReport) -> (xml: String)
    ensures
        xml@ == junit_document(report@),
{
    let name = report.summary.evaluation_name.as_str();
    let tests = report.summary.total_files;
    let mut xml = String::new();
    xml.append("<?xml version=\"1.0\" encoding=\"UTF-8\"?>\n");
    xml.append("<testsuites name=\"Code Evaluation - ");
    xml.append(name);
    push_counts(&mut xml, tests);
    xml.append("  <testsuite name=\"");
    xml.append(name);
    push_counts(&mut xml, tests);
    let ghost head = junit_declaration() + junit_suites_open(name@, tests as nat)
        + junit_suite_open(name@, tests as nat);
    assert(xml@ =~= head);
    let ghost cases = evaluation_views(report.results@);
    let mut i: usize = 0;
    assert(cases.take(0) =~= Seq::empty());
    assert(xml@ =~= head + junit_cases(cases.take(0)));
    while i < report.results.len()
        invariant
            i <= report.results.len(),
            cases == evaluation_views(report.results@),
            xml@ == head + junit_cases(cases.take(i as int)),
        decreases report.results.len() - i,
    {
        let ghost before = xml@;
        push_case(&mut xml, &report.results[i]);
        proof {
            let next = cases.take(i + 1);
            assert(next.drop_last() =~= cases.take(i as int));
            assert(next.last() == report.results@[i as int]@);
            assert(xml@ =~= head + junit_cases(next));
        }
        i += 1;
    }
    assert(cases.take(cases.len() as int) =~= cases);
    xml.append("  </testsuite>\n");
    xml.append("</testsuites>\n");
    assert(xml@ =~= junit_document(report@));
    xml
}

} // verus!
