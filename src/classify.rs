//! Reading the outcome of a test run from the text that the run printed.
//!
//! Two markers are recognised: the test harness's summary line on stdout
//! (`<count> passed ... filtered out`) and a compiler diagnostic on stderr (a
//! line that begins with `error:` or `error[`). Both are fixed here, in one
//! place, since any change of those formats breaks the classification.
use crate::outcome::{Outcome, OutcomeKind};
use vstd::prelude::*;

verus! {

/// The summary line that the test harness prints after a run.
pub const SUMMARY_PATTERN: &'static str = r"\d{1,} passed.*filtered out";

/// A compiler diagnostic: a line that begins with `error:` or `error[`.
pub const ERROR_PATTERN: &'static str = r"(?m)^error(:|\[).*";

/// The text of the leftmost-first match of the regular expression `pattern`
/// in `haystack`, or `None` where the pattern does not compile or nothing
/// matches.
pub uninterp spec fn leftmost_match(pattern: Seq<char>, haystack: Seq<char>) -> Option<Seq<char>>;

/// `part` stands in `whole` as a contiguous run of characters.
pub open spec fn is_excerpt(part: Seq<char>, whole: Seq<char>) -> bool {
    exists|i: int| 0 <= i && i + part.len() <= whole.len() && #[trigger] whole.subrange(i, i + part.len()) == part
}

/// Relies on `regex::Regex::new` and `regex::Regex::find`: compiles `pattern`
/// and returns the text of its first match in `haystack`, which the regex
/// crate documents as a slice of the haystack.
#[verifier::external_body]
fn find_first(pattern: &str, haystack: &str) -> (r: Option<String>)
    ensures
        match r {
            Some(m) => leftmost_match(pattern@, haystack@) == Some(m@) && is_excerpt(m@, haystack@),
            None => leftmost_match(pattern@, haystack@) == None::<Seq<char>>,
        },
{
    match regex::Regex::new(pattern) {
        Ok(re) => re.find(haystack).map(|m| m.as_str().to_string()),
        Err(_) => None,
    }
}

/// The summary line of the harness in `stdout`, if there is one.
pub open spec fn summary_line(stdout: Seq<char>) -> Option<Seq<char>> {
    leftmost_match(SUMMARY_PATTERN@, stdout)
}

/// The first compiler diagnostic in `stderr`, if there is one.
pub open spec fn error_line(stderr: Seq<char>) -> Option<Seq<char>> {
    leftmost_match(ERROR_PATTERN@, stderr)
}

/// Why the output of a run could not be classified.
#[derive(Clone, Copy, Debug, PartialEq, Eq, Structural)]
pub enum UnrecognizedOutput {
    /// The run succeeded, yet stdout holds no summary line.
    MissingSummary,
    /// The run failed, and neither a summary line on stdout nor a compiler
    /// diagnostic on stderr was found.
    MissingDiagnostic,
}

/// The kind and detail of the outcome, given the exit status of the run and
/// the lines found by the two markers; `None` where the run cannot be
/// classified.
pub open spec fn classification(
    process_success: bool,
    summary: Option<Seq<char>>,
    error: Option<Seq<char>>,
) -> Option<(OutcomeKind, Seq<char>)> {
    if process_success {
        match summary {
            Some(s) => Some((OutcomeKind::TestsPassed, s)),
            None => None,
        }
    } else {
        match summary {
            Some(s) => Some((OutcomeKind::TestsFailed, s)),
            None => match error {
                Some(e) => Some((OutcomeKind::CompileError, e)),
                None => None,
            },
        }
    }
}

/// The error for a run that `classification` leaves unclassified.
pub open spec fn unrecognized(process_success: bool) -> UnrecognizedOutput {
    if process_success {
        UnrecognizedOutput::MissingSummary
    } else {
        UnrecognizedOutput::MissingDiagnostic
    }
}

/// The characters of an optional string.
pub open spec fn opt_view(o: Option<String>) -> Option<Seq<char>> {
    match o {
        Some(s) => Some(s@),
        None => None,
    }
}

/// What `classify` returns, stated over the kind and detail of the outcome.
pub open spec fn classified_as(
    r: Result<Outcome, UnrecognizedOutput>,
    process_success: bool,
    summary: Option<Seq<char>>,
    error: Option<Seq<char>>,
) -> bool {
    match classification(process_success, summary, error) {
        Some((kind, detail)) => r matches Ok(o) && o.spec_kind() == kind && o.spec_detail() == detail,
        None => r == Err::<Outcome, UnrecognizedOutput>(unrecognized(process_success)),
    }
}

/// Classifies a run from its exit status and the lines that the two markers
/// found: the summary line on stdout (`summary`) and the first compiler
/// diagnostic on stderr (`error`).
pub fn classify(process_success: bool, summary: Option<String>, error: Option<String>) -> (r: Result<
    Outcome,
    UnrecognizedOutput,
>)
    ensures
        classified_as(r, process_success, opt_view(summary), opt_view(error)),
{
    if process_success {
        match summary {
            Some(s) => Ok(Outcome::from_kind(OutcomeKind::TestsPassed, s)),
            None => Err(UnrecognizedOutput::MissingSummary),
        }
    } else {
        match summary {
            Some(s) => Ok(Outcome::from_kind(OutcomeKind::TestsFailed, s)),
            None => match error {
                Some(e) => Ok(Outcome::from_kind(OutcomeKind::CompileError, e)),
                None => Err(UnrecognizedOutput::MissingDiagnostic),
            },
        }
    }
}

/// Classifies a finished run from its exit status and the full text it
/// printed on stdout and stderr. Stdout is searched for the summary line;
/// stderr is searched for a diagnostic only after a failed run without one.
/// The detail of the outcome is always a piece of the output searched.
pub fn detect_outcome(process_success: bool, stdout: &str, stderr: &str) -> (r: Result<
    Outcome,
    UnrecognizedOutput,
>)
    ensures
        classified_as(r, process_success, summary_line(stdout@), error_line(stderr@)),
        r matches Ok(o) ==> (is_excerpt(o.spec_detail(), stdout@) || is_excerpt(
            o.spec_detail(),
            stderr@,
        )),
{
    let summary = find_first(SUMMARY_PATTERN, stdout);
    let error = if !process_success && summary.is_none() {
        find_first(ERROR_PATTERN, stderr)
    } else {
        None
    };
    classify(process_success, summary, error)
}

/// A successful run whose stdout holds a summary line passed, with that line
/// as its detail, whatever stderr holds.
pub proof fn lemma_success_with_summary_passes(stdout: Seq<char>, stderr: Seq<char>, line: Seq<char>)
    requires
        summary_line(stdout) == Some(line),
    ensures
        classification(true, summary_line(stdout), error_line(stderr)) == Some(
            (OutcomeKind::TestsPassed, line),
        ),
{
}

/// A failed run whose stdout holds a summary line had failing tests, with that
/// line as its detail, even where stderr also holds a compiler diagnostic.
pub proof fn lemma_failure_with_summary_fails_tests(stdout: Seq<char>, stderr: Seq<char>, line: Seq<char>)
    requires
        summary_line(stdout) == Some(line),
    ensures
        classification(false, summary_line(stdout), error_line(stderr)) == Some(
            (OutcomeKind::TestsFailed, line),
        ),
{
}

/// A failed run without a summary line on stdout, whose stderr holds a
/// compiler diagnostic, did not compile, with that diagnostic as its detail.
pub proof fn lemma_failure_with_diagnostic_is_compile_error(
    stdout: Seq<char>,
    stderr: Seq<char>,
    line: Seq<char>,
)
    requires
        summary_line(stdout) == None::<Seq<char>>,
        error_line(stderr) == Some(line),
    ensures
        classification(false, summary_line(stdout), error_line(stderr)) == Some(
            (OutcomeKind::CompileError, line),
        ),
{
}

} // verus!
