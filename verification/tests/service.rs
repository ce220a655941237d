use better_restic_client::config::{
    redact, BackupConfig, Config, LoggingConfig, RedactedConfig, RedactedRestic, ResticConfig,
};
use better_restic_client::service::{
    complete_update, plan_trigger, reject_update, decide_update, status_report, BackupRequest,
    ResponseStatus, TriggerAck, UpdateDecision, UpdateReply, UpdateYamlRequest,
};

fn config(password: Option<&str>) -> Config {
    Config {
        backup: BackupConfig {
            frequency: "daily".to_string(),
            time: "02:00".to_string(),
            directories: vec!["/home/me".to_string(), "/etc".to_string()],
            exclude: vec!["/home/me/.cache".to_string()],
        },
        logging: LoggingConfig {
            directory: "~/.local/log/restic".to_string(),
            max_size: "10MB".to_string(),
        },
        restic: ResticConfig {
            repository: "sftp:host:/repo".to_string(),
            ssh_command: Some("ssh -i key".to_string()),
            password_command: None,
            password: password.map(str::to_string),
        },
    }
}

#[test]
fn trigger_defaults_to_a_real_backup() {
    let config = config(Some("hunter2"));
    let plan = plan_trigger(&BackupRequest { dry_run: None }, &config);
    assert!(!plan.dry_run);
    assert!(plan.verbose);
    assert_eq!(plan.backup, config.backup);
    assert_eq!(plan.restic, config.restic);
    assert_eq!(
        plan.ack,
        TriggerAck { success: true, message: "Backup triggered".to_string(), dry_run: false }
    );
}

#[test]
fn trigger_of_a_dry_run() {
    let plan = plan_trigger(&BackupRequest { dry_run: Some(true) }, &config(None));
    assert!(plan.dry_run);
    assert!(plan.verbose);
    assert_eq!(
        plan.ack,
        TriggerAck { success: true, message: "Dry run backup triggered".to_string(), dry_run: true }
    );
}

#[test]
fn trigger_with_dry_run_switched_off() {
    let plan = plan_trigger(&BackupRequest { dry_run: Some(false) }, &config(None));
    assert!(!plan.dry_run);
    assert_eq!(plan.ack.message, "Backup triggered");
}

#[test]
fn acknowledgment_does_not_depend_on_the_configuration() {
    let request = BackupRequest { dry_run: Some(true) };
    assert_eq!(
        plan_trigger(&request, &config(Some("a"))).ack,
        plan_trigger(&request, &config(None)).ack
    );
}

#[test]
fn invalid_update_is_rejected() {
    let request = UpdateYamlRequest { yaml: "backup: [".to_string() };
    assert_eq!(decide_update(request, None), UpdateDecision::Reject);
    let reply = reject_update();
    assert_eq!(reply, UpdateReply { status: ResponseStatus::BadRequest, message: None });
    assert_eq!(reply.status.http_code(), 400);
}

#[test]
fn valid_update_is_persisted_first() {
    let request = UpdateYamlRequest { yaml: "backup: ...".to_string() };
    let candidate = config(Some("new"));
    assert_eq!(
        decide_update(request, Some(candidate.clone())),
        UpdateDecision::Persist { yaml: "backup: ...".to_string(), candidate }
    );
}

#[test]
fn persisted_update_replaces_the_configuration() {
    let mut current = config(Some("old"));
    let reply = complete_update(&mut current, config(Some("new")), true);
    assert_eq!(current, config(Some("new")));
    assert_eq!(
        reply,
        UpdateReply {
            status: ResponseStatus::Done,
            message: Some("Configuration updated successfully".to_string()),
        }
    );
    assert_eq!(reply.status.http_code(), 200);
}

#[test]
fn update_that_could_not_be_written_changes_nothing() {
    let mut current = config(Some("old"));
    let reply = complete_update(&mut current, config(Some("new")), false);
    assert_eq!(current, config(Some("old")));
    assert_eq!(reply, UpdateReply { status: ResponseStatus::InternalServerError, message: None });
    assert_eq!(reply.status.http_code(), 500);
}

#[test]
fn status_is_a_placeholder() {
    let report = status_report();
    assert_eq!(report.status, "running");
    assert_eq!(report.uptime, "N/A");
    assert_eq!(report.last_backup, "N/A");
}

#[test]
fn redaction_replaces_credentials_by_flags() {
    let config = config(Some("hunter2"));
    assert_eq!(
        redact(&config),
        RedactedConfig {
            backup: config.backup.clone(),
            logging: config.logging.clone(),
            restic: RedactedRestic {
                repository: "sftp:host:/repo".to_string(),
                has_ssh_command: true,
                has_password_command: false,
                has_password: true,
            },
        }
    );
}

#[test]
fn redaction_does_not_depend_on_what_the_credentials_are() {
    assert_eq!(redact(&config(Some("one"))), redact(&config(Some("two"))));
    assert_ne!(redact(&config(Some("one"))), redact(&config(None)));
}

#[test]
fn duplicates_are_equal() {
    let config = config(Some("hunter2"));
    assert_eq!(config.duplicate(), config);
    assert_eq!(config.backup.duplicate(), config.backup);
    assert_eq!(config.logging.duplicate(), config.logging);
    assert_eq!(config.restic.duplicate(), config.restic);
}

#[test]
fn plans_made_before_and_after_an_update() {
    let request = BackupRequest { dry_run: None };
    let mut current = config(Some("old"));
    let before = plan_trigger(&request, &current);
    complete_update(&mut current, config(Some("new")), true);
    let after = plan_trigger(&request, &current);
    assert_eq!(before.restic, config(Some("old")).restic);
    assert_eq!(after.restic, config(Some("new")).restic);
    assert_eq!(before.backup, after.backup);
}
