//! Serializing results to report lines: one self-contained line per
//! project, on standard output for outcomes and on standard error for
//! launch failures.

use vstd::prelude::*;
use vstd::string::StringExecFns;
use crate::project::Project;
use crate::runner::Outcome;
use crate::runner::RunError;

verus! {

/// The status glyph and separating space that open an outcome line.
pub open spec fn prefix_view(o: Outcome) -> Seq<char> {
    match o {
        Outcome::Passed => "✅ "@,
        Outcome::Failed => "❌ "@,
    }
}

/// The line reported on standard output once a project's outcome is known:
/// the status glyph followed by the project name.
pub open spec fn outcome_line_view(name: Seq<char>, o: Outcome) -> Seq<char> {
    prefix_view(o) + name
}

/// The line reported on standard error for a launch failure: a distinct
/// glyph, the project name, and the underlying error's description.
pub open spec fn failure_line_view(name: Seq<char>, message: Seq<char>) -> Seq<char> {
    "💣 "@ + name + ": "@ + message
}

/// Renders the standard-output line for a project's outcome.
pub fn outcome_line(name: &str, o: Outcome) -> (r: String)
    ensures
        r@ == outcome_line_view(name@, o),
{
    match o {
        Outcome::Passed => String::from_str("✅ ").concat(name),
        Outcome::Failed => String::from_str("❌ ").concat(name),
    }
}

/// Renders the standard-error line for a project's launch failure.
pub fn failure_line(name: &str, message: &str) -> (r: String)
    ensures
        r@ == failure_line_view(name@, message@),
{
    String::from_str("💣 ").concat(name).concat(": ").concat(message)
}

/// One serialized report: the text of a line and the stream it belongs on.
#[derive(Debug)]
pub struct ReportLine {
    pub text: String,
    pub to_stderr: bool,
}

/// Whether `line` is the report owed for `result` on the project named
/// `name`: outcomes go to standard output, launch failures to standard
/// error, and either way the line carries the project's own name.
pub open spec fn report_view(name: Seq<char>, result: Result<Outcome, RunError>, line: ReportLine) -> bool {
    match result {
        Ok(o) => !line.to_stderr && line.text@ == outcome_line_view(name, o),
        Err(e) => line.to_stderr && line.text@ == failure_line_view(name, e.message@),
    }
}

/// Renders the report line for one project's result.
pub fn render_result(name: &str, result: &Result<Outcome, RunError>) -> (r: ReportLine)
    ensures
        report_view(name@, *result, r),
{
    match result {
        Ok(o) => ReportLine { text: outcome_line(name, *o), to_stderr: false },
        Err(e) => ReportLine { text: failure_line(name, e.message.as_str()), to_stderr: true },
    }
}

/// Serializes every result to its report line: one line per project, each
/// rendered from that project's own result alone, so a launch failure for
/// one project never prevents another project's line.
pub fn render_all(results: &Vec<(Project, Result<Outcome, RunError>)>) -> (r: Vec<ReportLine>)
    ensures
        r@.len() == results@.len(),
        forall|i: int|
            0 <= i < r@.len() ==> report_view(
                results@[i].0.name@,
                results@[i].1,
                #[trigger] r@[i],
            ),
{
    let mut lines: Vec<ReportLine> = Vec::new();
    let mut k: usize = 0;
    while k < results.len()
        invariant
            0 <= k <= results@.len(),
            lines@.len() == k,
            forall|i: int|
                0 <= i < k ==> report_view(results@[i].0.name@, results@[i].1, #[trigger] lines@[i]),
        decreases results@.len() - k,
    {
        let pair = &results[k];
        lines.push(render_result(pair.0.name.as_str(), &pair.1));
        k += 1;
    }
    lines
}

} // verus!
