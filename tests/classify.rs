use cargo_testify::notifier::{obtain_notifier, Notice, Notifier};
use cargo_testify::classify::{classify, detect_outcome, UnrecognizedOutput};
use cargo_testify::outcome::{Outcome, OutcomeKind};

#[test]
fn test_fail() {
    assert_eq!(1, 1);
}

#[test]
fn passing_run_reports_summary_line() {
    let stdout = "3 passed; 0 failed; 0 ignored; 0 measured; 0 filtered out";
    assert_eq!(
        detect_outcome(true, stdout, ""),
        Ok(Outcome::TestsPassed(
            "3 passed; 0 failed; 0 ignored; 0 measured; 0 filtered out".to_string()
        ))
    );
}

#[test]
fn passing_run_ignores_stderr() {
    let stdout = "running 3 tests\ntest result: ok. 3 passed; 0 failed; 0 ignored; 0 measured; 0 filtered out\n";
    let stderr = "error: something printed by a build script\n";
    let outcome = detect_outcome(true, stdout, stderr).unwrap();
    assert_eq!(outcome.kind(), OutcomeKind::TestsPassed);
    assert_eq!(
        outcome.detail(),
        "3 passed; 0 failed; 0 ignored; 0 measured; 0 filtered out"
    );
}

#[test]
fn failing_run_reports_summary_line() {
    let stdout = "test a ... ok\ntest b ... FAILED\n1 passed; 1 failed; 0 ignored; 0 measured; 0 filtered out\n";
    assert_eq!(
        detect_outcome(false, stdout, ""),
        Ok(Outcome::TestsFailed(
            "1 passed; 1 failed; 0 ignored; 0 measured; 0 filtered out".to_string()
        ))
    );
}

#[test]
fn summary_line_wins_over_diagnostic() {
    let stdout = "1 passed; 1 failed; 0 ignored; 0 measured; 0 filtered out\n";
    let stderr = "error: test failed, to rerun pass `--lib`\n";
    let outcome = detect_outcome(false, stdout, stderr).unwrap();
    assert_eq!(outcome.kind(), OutcomeKind::TestsFailed);
}

#[test]
fn compile_error_reports_diagnostic() {
    assert_eq!(
        detect_outcome(false, "", "error[E0308]: mismatched types"),
        Ok(Outcome::CompileError("error[E0308]: mismatched types".to_string()))
    );
}

#[test]
fn compile_error_takes_first_diagnostic_line() {
    let stderr = "   Compiling demo v0.1.0\nerror: expected one of `;` or `}`\n  --> src/lib.rs:3:5\nerror[E0425]: cannot find value `x`\n";
    let outcome = detect_outcome(false, "", stderr).unwrap();
    assert_eq!(outcome.kind(), OutcomeKind::CompileError);
    assert_eq!(outcome.detail(), "error: expected one of `;` or `}`");
}

#[test]
fn diagnostic_must_begin_a_line() {
    let stderr = "warning: not an error: really\n";
    assert_eq!(
        detect_outcome(false, "", stderr),
        Err(UnrecognizedOutput::MissingDiagnostic)
    );
}

#[test]
fn success_without_summary_is_unrecognized() {
    assert_eq!(
        detect_outcome(true, "running 0 tests\n", ""),
        Err(UnrecognizedOutput::MissingSummary)
    );
}

#[test]
fn failure_without_any_marker_is_unrecognized() {
    assert_eq!(
        detect_outcome(false, "", ""),
        Err(UnrecognizedOutput::MissingDiagnostic)
    );
}

#[test]
fn classify_from_found_lines() {
    let line = "2 passed; 0 failed; 0 ignored; 0 measured; 0 filtered out".to_string();
    assert_eq!(
        classify(true, Some(line.clone()), None),
        Ok(Outcome::TestsPassed(line.clone()))
    );
    assert_eq!(
        classify(false, Some(line.clone()), Some("error: x".to_string())),
        Ok(Outcome::TestsFailed(line))
    );
    assert_eq!(
        classify(false, None, Some("error: x".to_string())),
        Ok(Outcome::CompileError("error: x".to_string()))
    );
    assert_eq!(
        classify(true, None, Some("error: x".to_string())),
        Err(UnrecognizedOutput::MissingSummary)
    );
    assert_eq!(classify(false, None, None), Err(UnrecognizedOutput::MissingDiagnostic));
}

#[test]
fn notification_title_and_icon() {
    let passed = Outcome::TestsPassed("1 passed; 0 filtered out".to_string());
    let failed = Outcome::TestsFailed("0 passed; 1 failed; 0 filtered out".to_string());
    let broken = Outcome::CompileError("error: x".to_string());
    assert_eq!(passed.title(), "Tests passed");
    assert_eq!(failed.title(), "Tests failed");
    assert_eq!(broken.title(), "Compilation failed");
    assert_eq!(passed.icon(), "face-angel");
    assert_eq!(failed.icon(), "face-angry");
    assert_eq!(broken.icon(), "face-angry");
    assert_eq!(
        Outcome::from_kind(OutcomeKind::CompileError, "error: x".to_string()),
        broken
    );
}

#[test]
fn notice_follows_outcome() {
    let notifier = obtain_notifier();
    assert_eq!(notifier, Notifier::NotifySend);
    let outcome = detect_outcome(false, "", "error[E0308]: mismatched types").unwrap();
    assert_eq!(
        notifier.notice(&outcome),
        Notice {
            title: "Compilation failed".to_string(),
            icon: "face-angry".to_string(),
            body: "error[E0308]: mismatched types".to_string(),
        }
    );
}
