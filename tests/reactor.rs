use cargo_testify::paths::filter_allows;
use cargo_testify::reactor::{append_line, Config, Reactor};

const PROJECT_DIR: &str = "/project";

fn must_allow(path: &str) {
    assert!(filter_allows(PROJECT_DIR, path));
}

fn must_not_allow(path: &str) {
    assert!(!filter_allows(PROJECT_DIR, path));
}

#[test]
fn test_filter_allows() {
    must_allow("/project/src/main.rs");
    must_allow("/project/src/lib/os.rs");
    must_allow("/project/tests/watch.rs");
    must_allow("/project/Cargo.toml");
    must_allow("/project/Cargo.lock");
    must_allow("/project/build.rs");

    must_not_allow("/project/README.md");
    must_not_allow("/tmp/file.rs");
    must_not_allow("/tmp/src/file.rs");
}

#[test]
fn filter_reads_paths_by_components() {
    assert!(filter_allows("/project/", "/project//src/./main.rs"));
    assert!(filter_allows("/project", "/project/src"));
    assert!(!filter_allows("/project", "/project/srcs/main.rs"));
    assert!(!filter_allows("/project", "/project"));
    assert!(!filter_allows("/project", "project/src/main.rs"));
    assert!(!filter_allows("/project", "/project/Cargo.toml.orig"));
    assert!(filter_allows("project", "project/tests/a.rs"));
}

fn config(ignore_ms: u64) -> Config {
    Config {
        project_dir: "/project".to_string(),
        ignore_duration_ms: ignore_ms,
        cargo_test_args: vec!["--lib".to_string(), "--quiet".to_string()],
    }
}

#[test]
fn events_within_cooldown_are_ignored() {
    let mut reactor = Reactor::new(config(300), 1_000);
    assert!(reactor.should_react(1_400, Some("/project/src/lib.rs")));
    reactor.record_run(1_400);
    assert!(!reactor.should_react(1_500, Some("/project/src/lib.rs")));
    assert!(!reactor.should_react(1_699, Some("/project/src/lib.rs")));
    assert!(reactor.should_react(1_700, Some("/project/src/lib.rs")));
    assert_eq!(reactor.last_run_at(), 1_400);
}

#[test]
fn events_without_watched_path_are_ignored() {
    let reactor = Reactor::new(config(300), 0);
    assert!(!reactor.should_react(10_000, None));
    assert!(!reactor.should_react(10_000, Some("/project/README.md")));
    assert!(reactor.should_react(10_000, Some("/project/Cargo.lock")));
}

#[test]
fn clock_behind_last_run_counts_as_no_time() {
    let reactor = Reactor::new(config(300), 5_000);
    assert!(!reactor.should_react(100, Some("/project/src/lib.rs")));
    let eager = Reactor::new(config(0), 5_000);
    assert!(eager.should_react(100, Some("/project/src/lib.rs")));
}

#[test]
fn test_command_arguments() {
    let reactor = Reactor::new(config(300), 0);
    assert_eq!(reactor.test_args(), vec!["test", "--lib", "--quiet"]);
    assert_eq!(reactor.config().project_dir, "/project");
    let bare = Reactor::new(
        Config {
            project_dir: "/p".to_string(),
            ignore_duration_ms: 1,
            cargo_test_args: vec![],
        },
        0,
    );
    assert_eq!(bare.test_args(), vec!["test"]);
}

#[test]
fn captured_lines_end_with_newline() {
    let mut buffer = String::new();
    append_line(&mut buffer, "running 1 test");
    append_line(&mut buffer, "");
    append_line(&mut buffer, "1 passed; 0 filtered out");
    assert_eq!(buffer, "running 1 test\n\n1 passed; 0 filtered out\n");
}
