use better_restic_client::outcome::{
    categorize, classify, mentions_missing_repository, mentions_password, pick_hints, Execution,
    Hints, OutcomeCategory, ProcessOutput,
};

fn finished(success: bool, exit_code: Option<i32>, stdout: &str, stderr: &str) -> Execution {
    Execution::Finished(ProcessOutput {
        success,
        exit_code,
        stdout: stdout.to_string(),
        stderr: stderr.to_string(),
    })
}

#[test]
fn success_without_dry_run() {
    assert_eq!(classify(&finished(true, Some(0), "done", ""), false), OutcomeCategory::Success);
}

#[test]
fn success_with_dry_run() {
    assert_eq!(classify(&finished(true, Some(0), "done", ""), true), OutcomeCategory::DryRunSuccess);
}

#[test]
fn success_is_decided_by_the_exit_status_alone() {
    let execution = finished(true, Some(0), "", "warning: repository not found, wrong password");
    assert_eq!(classify(&execution, false), OutcomeCategory::Success);
    assert_eq!(classify(&execution, true), OutcomeCategory::DryRunSuccess);
}

#[test]
fn spawn_failure() {
    let execution = Execution::SpawnFailed { reason: "No such file or directory".to_string() };
    assert_eq!(classify(&execution, false), OutcomeCategory::SpawnFailure);
    assert_eq!(classify(&execution, true), OutcomeCategory::SpawnFailure);
}

#[test]
fn repository_not_found_is_uninitialized_not_generic() {
    let execution = finished(false, Some(1), "", "Fatal: repository not found at /srv/repo");
    assert_eq!(classify(&execution, false), OutcomeCategory::RepositoryUninitialized);
    assert_eq!(classify(&execution, true), OutcomeCategory::RepositoryUninitialized);
}

#[test]
fn each_repository_phrase_is_recognised() {
    for stderr in [
        "Fatal: unable to open config file: stat /repo/config: no such file",
        "Is there a repository at the following location?",
        "repository not found",
    ] {
        let execution = finished(false, Some(10), "", stderr);
        assert_eq!(classify(&execution, false), OutcomeCategory::RepositoryUninitialized);
    }
}

#[test]
fn phrases_are_matched_whatever_their_case() {
    let execution = finished(false, Some(1), "", "FATAL: REPOSITORY NOT FOUND");
    assert_eq!(classify(&execution, false), OutcomeCategory::RepositoryUninitialized);
    let execution = finished(false, Some(1), "", "Fatal: Wrong PassWord");
    assert_eq!(classify(&execution, false), OutcomeCategory::PasswordError);
}

#[test]
fn password_failures() {
    for stderr in ["Fatal: an empty password is not allowed", "wrong password or no key found"] {
        let execution = finished(false, Some(1), "", stderr);
        assert_eq!(classify(&execution, false), OutcomeCategory::PasswordError);
    }
}

#[test]
fn repository_rule_comes_before_password_rule() {
    let execution = finished(
        false,
        Some(1),
        "",
        "Fatal: unable to open config file\nIs there a repository?\nwrong password",
    );
    assert_eq!(classify(&execution, false), OutcomeCategory::RepositoryUninitialized);
}

#[test]
fn unrecognised_failures_are_generic() {
    for stderr in ["", "Fatal: unable to create lock", "pass word", "repository  not found"] {
        let execution = finished(false, Some(1), "some output", stderr);
        assert_eq!(classify(&execution, false), OutcomeCategory::GenericFailure);
    }
}

#[test]
fn only_the_error_output_is_matched() {
    let execution = finished(false, Some(1), "repository not found, wrong password", "boom");
    assert_eq!(classify(&execution, false), OutcomeCategory::GenericFailure);
}

#[test]
fn lower_case_text_is_classified_as_it_stands() {
    assert_eq!(categorize(true, false, "repository not found"), OutcomeCategory::Success);
    assert_eq!(categorize(true, true, ""), OutcomeCategory::DryRunSuccess);
    assert_eq!(
        categorize(false, false, "fatal: repository not found"),
        OutcomeCategory::RepositoryUninitialized
    );
    assert_eq!(categorize(false, true, "wrong password"), OutcomeCategory::PasswordError);
    assert_eq!(categorize(false, false, "REPOSITORY NOT FOUND"), OutcomeCategory::GenericFailure);
    assert_eq!(categorize(false, false, "disk full"), OutcomeCategory::GenericFailure);
}

#[test]
fn phrase_rules() {
    assert!(mentions_missing_repository("unable to open config file"));
    assert!(mentions_missing_repository("x is there a repository y"));
    assert!(mentions_missing_repository("repository not found"));
    assert!(!mentions_missing_repository("repository found"));
    assert!(mentions_password("empty password"));
    assert!(mentions_password("passwords"));
    assert!(!mentions_password("passwor"));
}

#[test]
fn both_hints_fire_for_one_failure() {
    assert_eq!(
        pick_hints(false, "repository not found; wrong password"),
        Hints { repository: true, password: true }
    );
}

#[test]
fn hints_are_independent() {
    assert_eq!(pick_hints(false, "repository not found"), Hints { repository: true, password: false });
    assert_eq!(pick_hints(false, "wrong password"), Hints { repository: false, password: true });
    assert_eq!(pick_hints(false, "disk full"), Hints { repository: false, password: false });
    assert_eq!(
        pick_hints(true, "repository not found; wrong password"),
        Hints { repository: false, password: false }
    );
}

#[test]
fn exit_codes_of_the_categories() {
    assert_eq!(OutcomeCategory::Success.process_exit_code(), 0);
    assert_eq!(OutcomeCategory::DryRunSuccess.process_exit_code(), 0);
    for category in [
        OutcomeCategory::RepositoryUninitialized,
        OutcomeCategory::PasswordError,
        OutcomeCategory::GenericFailure,
        OutcomeCategory::SpawnFailure,
    ] {
        assert_ne!(category.process_exit_code(), 0);
    }
}

#[test]
fn captured_streams_are_read_as_text() {
    let output = ProcessOutput::capture(false, Some(3), b"snapshot saved\n", "Fatal: caf\u{e9}".as_bytes());
    assert_eq!(
        output,
        ProcessOutput {
            success: false,
            exit_code: Some(3),
            stdout: "snapshot saved\n".to_string(),
            stderr: "Fatal: caf\u{e9}".to_string(),
        }
    );
}

#[test]
fn bytes_that_are_no_text_are_replaced() {
    let output = ProcessOutput::capture(true, None, b"ab\xffcd", b"\xc3");
    assert_eq!(output.stdout, "ab\u{fffd}cd");
    assert_eq!(output.stderr, "\u{fffd}");
    assert_eq!(output.exit_code, None);
    assert!(output.success);
}

#[test]
fn category_of_a_failure_follows_its_hints() {
    assert_eq!(
        Hints { repository: true, password: true }.category(),
        OutcomeCategory::RepositoryUninitialized
    );
    assert_eq!(
        Hints { repository: true, password: false }.category(),
        OutcomeCategory::RepositoryUninitialized
    );
    assert_eq!(Hints { repository: false, password: true }.category(), OutcomeCategory::PasswordError);
    assert_eq!(
        Hints { repository: false, password: false }.category(),
        OutcomeCategory::GenericFailure
    );
}
