use better_restic_client::outcome::{Execution, ProcessOutput};
use better_restic_client::service::ResponseStatus;
use better_restic_client::snapshots::{list_snapshots, read_snapshots, SnapshotError};

fn finished(success: bool, stdout: &str, stderr: &str) -> Execution {
    Execution::Finished(ProcessOutput {
        success,
        exit_code: Some(if success { 0 } else { 1 }),
        stdout: stdout.to_string(),
        stderr: stderr.to_string(),
    })
}

#[test]
fn empty_repository_has_no_snapshots() {
    let listing = list_snapshots(&finished(true, "[]", "")).ok().unwrap();
    assert_eq!(listing.count(), 0);
    assert!(listing.snapshots.is_empty());
}

#[test]
fn snapshots_are_counted_and_carried_through() {
    let stdout = r#"[{"id":"1a2b","paths":["/data"]}, {"id":"3c4d","paths":["/etc"]}]
"#;
    let listing = list_snapshots(&finished(true, stdout, "warning")).ok().unwrap();
    assert_eq!(listing.count(), 2);
    assert_eq!(listing.snapshots.len(), 2);
    assert_eq!(listing.snapshots[0]["id"], "1a2b");
    assert_eq!(listing.snapshots[1]["paths"][0], "/etc");
}

#[test]
fn any_json_array_is_a_listing() {
    let listing = list_snapshots(&finished(true, " [1, \"two\", null, [3]] ", "")).ok().unwrap();
    assert_eq!(listing.count(), 4);
}

#[test]
fn output_that_is_no_json_array_is_an_error() {
    for stdout in ["", "{}", "[1, 2", "[] []", "null", "no snapshots", "[1,]"] {
        match list_snapshots(&finished(true, stdout, "")) {
            Err(SnapshotError::InvalidJson { reason }) => assert!(!reason.is_empty(), "{stdout:?}"),
            _ => panic!("{stdout:?} was not rejected as invalid JSON"),
        }
    }
}

#[test]
fn failed_query_reports_the_error_output() {
    match list_snapshots(&finished(false, "[]", "Fatal: wrong password")) {
        Err(error) => {
            assert_eq!(
                error,
                SnapshotError::CommandFailed { stderr: "Fatal: wrong password".to_string() }
            );
            assert_eq!(error.status(), ResponseStatus::InternalServerError);
        }
        Ok(_) => panic!("a failed query gave a listing"),
    }
}

#[test]
fn query_that_could_not_be_launched() {
    let execution = Execution::SpawnFailed { reason: "not found".to_string() };
    match list_snapshots(&execution) {
        Err(error) => {
            assert_eq!(error, SnapshotError::SpawnFailed);
            assert_eq!(error.status().http_code(), 500);
        }
        Ok(_) => panic!("a query that never ran gave a listing"),
    }
}

#[test]
fn parse_results_become_listings_or_errors() {
    let listing = read_snapshots(Ok(vec![serde_json::Value::Null, serde_json::Value::Bool(true)]))
        .ok()
        .unwrap();
    assert_eq!(listing.count(), 2);
    assert_eq!(listing.snapshots, vec![serde_json::Value::Null, serde_json::Value::Bool(true)]);
    match read_snapshots(Err("expected value at line 1".to_string())) {
        Err(error) => assert_eq!(
            error,
            SnapshotError::InvalidJson { reason: "expected value at line 1".to_string() }
        ),
        Ok(_) => panic!("a complaint gave a listing"),
    }
}
