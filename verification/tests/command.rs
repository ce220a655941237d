use better_restic_client::command::{
    build_backup_invocation, build_snapshots_invocation, EnvVar, Invocation,
};
use better_restic_client::render::{
    format_readable_command, join_words, render_command, render_readable_command,
};
use better_restic_client::config::{BackupConfig, ResticConfig};

fn strings(items: &[&str]) -> Vec<String> {
    items.iter().map(|item| item.to_string()).collect()
}

fn backup(directories: &[&str], exclude: &[&str]) -> BackupConfig {
    BackupConfig {
        frequency: "daily".to_string(),
        time: "02:00".to_string(),
        directories: strings(directories),
        exclude: strings(exclude),
    }
}

fn restic(
    repository: &str,
    ssh_command: Option<&str>,
    password_command: Option<&str>,
    password: Option<&str>,
) -> ResticConfig {
    ResticConfig {
        repository: repository.to_string(),
        ssh_command: ssh_command.map(str::to_string),
        password_command: password_command.map(str::to_string),
        password: password.map(str::to_string),
    }
}

fn env(name: &str, value: &str) -> EnvVar {
    EnvVar { name: name.to_string(), value: value.to_string() }
}

#[test]
fn minimal_backup_invocation() {
    let invocation =
        build_backup_invocation(&backup(&[], &[]), &restic("/srv/repo", None, None, None), false, false);
    assert_eq!(invocation.program, "restic");
    assert_eq!(invocation.args, strings(&["backup", "--repo", "/srv/repo"]));
    assert_eq!(invocation.env, Vec::<EnvVar>::new());
}

#[test]
fn full_backup_invocation_is_in_order() {
    let invocation = build_backup_invocation(
        &backup(&["/home/me", "/etc"], &["/home/me/.cache", "*.tmp"]),
        &restic("sftp:host:/repo", Some("ssh -i key"), Some("pass show restic"), Some("hunter2")),
        true,
        true,
    );
    assert_eq!(invocation.program, "restic");
    assert_eq!(
        invocation.args,
        strings(&[
            "backup",
            "--repo",
            "sftp:host:/repo",
            "--password-command",
            "pass show restic",
            "--verbose",
            "/home/me",
            "/etc",
            "--exclude",
            "/home/me/.cache",
            "--exclude",
            "*.tmp",
            "--dry-run",
        ])
    );
    assert_eq!(invocation.env, vec![env("RESTIC_SSH_COMMAND", "ssh -i key")]);
}

#[test]
fn flags_appear_only_when_asked_for() {
    let backup = backup(&["/data"], &["/data/tmp"]);
    let restic = restic("/repo", None, None, None);
    assert_eq!(
        build_backup_invocation(&backup, &restic, false, false).args,
        strings(&["backup", "--repo", "/repo", "/data", "--exclude", "/data/tmp"])
    );
    assert_eq!(
        build_backup_invocation(&backup, &restic, false, true).args,
        strings(&["backup", "--repo", "/repo", "--verbose", "/data", "--exclude", "/data/tmp"])
    );
    assert_eq!(
        build_backup_invocation(&backup, &restic, true, false).args,
        strings(&["backup", "--repo", "/repo", "/data", "--exclude", "/data/tmp", "--dry-run"])
    );
}

#[test]
fn directories_and_exclusions_keep_their_order_and_repeats() {
    let invocation = build_backup_invocation(
        &backup(&["b", "a", "b"], &["y", "x", "y"]),
        &restic("r", None, None, None),
        false,
        false,
    );
    assert_eq!(
        invocation.args,
        strings(&[
            "backup", "--repo", "r", "b", "a", "b", "--exclude", "y", "--exclude", "x",
            "--exclude", "y",
        ])
    );
}

#[test]
fn inline_password_travels_in_the_environment_only() {
    let invocation = build_backup_invocation(
        &backup(&["/data"], &[]),
        &restic("/repo", None, None, Some("hunter2")),
        false,
        true,
    );
    assert!(!invocation.args.iter().any(|arg| arg.contains("hunter2")));
    assert_eq!(invocation.env, vec![env("RESTIC_PASSWORD", "hunter2")]);
    assert!(!render_command(&invocation).contains("hunter2"));
}

#[test]
fn password_command_takes_precedence_over_inline_password() {
    let invocation = build_backup_invocation(
        &backup(&["/data"], &[]),
        &restic("/repo", None, Some("cat /run/secret"), Some("hunter2")),
        false,
        false,
    );
    assert_eq!(
        invocation.args,
        strings(&["backup", "--repo", "/repo", "--password-command", "cat /run/secret", "/data"])
    );
    assert!(invocation.env.iter().all(|var| var.name != "RESTIC_PASSWORD"));
    assert_eq!(invocation.env, Vec::<EnvVar>::new());
}

#[test]
fn password_comes_before_ssh_command_in_the_environment() {
    let invocation = build_backup_invocation(
        &backup(&[], &[]),
        &restic("/repo", Some("ssh -p 2222"), None, Some("hunter2")),
        false,
        false,
    );
    assert_eq!(
        invocation.env,
        vec![env("RESTIC_PASSWORD", "hunter2"), env("RESTIC_SSH_COMMAND", "ssh -p 2222")]
    );
}

#[test]
fn arguments_do_not_depend_on_uncovered_fields() {
    let first = build_backup_invocation(
        &BackupConfig {
            frequency: "daily".to_string(),
            time: "02:00".to_string(),
            directories: strings(&["/data"]),
            exclude: strings(&["/data/tmp"]),
        },
        &restic("/repo", None, None, Some("one")),
        true,
        true,
    );
    let second = build_backup_invocation(
        &BackupConfig {
            frequency: "weekly".to_string(),
            time: "23:59".to_string(),
            directories: strings(&["/data"]),
            exclude: strings(&["/data/tmp"]),
        },
        &restic("/repo", Some("ssh -v"), None, Some("two")),
        true,
        true,
    );
    assert_eq!(first.args, second.args);
    assert_eq!(render_command(&first), render_command(&second));
}

#[test]
fn snapshots_invocation() {
    let invocation = build_snapshots_invocation(&restic("/repo", None, None, None));
    assert_eq!(invocation.program, "restic");
    assert_eq!(invocation.args, strings(&["snapshots", "--repo", "/repo", "--json"]));
    assert_eq!(invocation.env, Vec::<EnvVar>::new());
}

#[test]
fn snapshots_invocation_with_credentials() {
    let with_command = build_snapshots_invocation(&restic(
        "s3:bucket",
        Some("ssh"),
        Some("pass restic"),
        Some("hunter2"),
    ));
    assert_eq!(
        with_command.args,
        strings(&["snapshots", "--repo", "s3:bucket", "--json", "--password-command", "pass restic"])
    );
    assert_eq!(with_command.env, vec![env("RESTIC_SSH_COMMAND", "ssh")]);

    let with_password = build_snapshots_invocation(&restic("s3:bucket", None, None, Some("hunter2")));
    assert_eq!(with_password.args, strings(&["snapshots", "--repo", "s3:bucket", "--json"]));
    assert_eq!(with_password.env, vec![env("RESTIC_PASSWORD", "hunter2")]);
}

#[test]
fn command_is_rendered_quoted_and_without_environment() {
    let invocation = Invocation {
        program: "restic".to_string(),
        args: strings(&["backup", "--repo", "/srv/my repo", "say \"hi\"", "tab\there", ""]),
        env: vec![env("RESTIC_PASSWORD", "hunter2")],
    };
    assert_eq!(
        render_command(&invocation),
        "\"restic\" \"backup\" \"--repo\" \"/srv/my repo\" \"say \\\"hi\\\"\" \"tab\\there\" \"\""
    );
}

#[test]
fn command_without_arguments_is_the_quoted_program() {
    let invocation = Invocation { program: "restic".to_string(), args: vec![], env: vec![] };
    assert_eq!(render_command(&invocation), "\"restic\"");
}

#[test]
fn rendered_command_matches_debug_formatting() {
    let invocation = build_backup_invocation(
        &backup(&["/home/m\u{e9}", "a\\b"], &["it's", "\u{7f}"]),
        &restic("/repo", None, Some("pass 'x'"), None),
        true,
        true,
    );
    let expected: Vec<String> = std::iter::once(&invocation.program)
        .chain(invocation.args.iter())
        .map(|word| format!("{:?}", word))
        .collect();
    assert_eq!(render_command(&invocation), expected.join(" "));
}

#[test]
fn words_are_joined_with_single_spaces() {
    assert_eq!(join_words(&strings(&[])), "");
    assert_eq!(join_words(&strings(&["a"])), "a");
    assert_eq!(join_words(&strings(&["a", "b", "c"])), "a b c");
    assert_eq!(join_words(&strings(&["", ""])), " ");
}

#[test]
fn readable_command_in_full() {
    assert_eq!(
        render_readable_command(
            &backup(&["/home/me", "/my files"], &["*.tmp", "a\"b"]),
            &restic("sftp:host:/repo", Some("ssh -i key"), Some("pass show restic"), Some("hunter2")),
            true,
        ),
        "restic backup --repo sftp:host:/repo --password-command 'pass show restic' --verbose \
         \"/home/me\" \"/my files\" --exclude \"*.tmp\" --exclude \"a\\\"b\" --dry-run"
    );
}

#[test]
fn readable_command_at_its_shortest() {
    assert_eq!(
        render_readable_command(&backup(&[], &[]), &restic("/repo", None, None, Some("hunter2")), false),
        "restic backup --repo /repo --verbose"
    );
}

#[test]
fn readable_command_from_shown_paths() {
    assert_eq!(
        format_readable_command("/r", None, &strings(&["<a>", "<b>"]), &strings(&["<c>"]), false),
        "restic backup --repo /r --verbose <a> <b> --exclude <c>"
    );
    assert_eq!(
        format_readable_command("/r", Some("cmd"), &strings(&[]), &strings(&[]), true),
        "restic backup --repo /r --password-command 'cmd' --verbose --dry-run"
    );
}

#[test]
fn password_shows_among_the_arguments_only_as_another_field() {
    let invocation = build_backup_invocation(
        &backup(&["hunter2"], &[]),
        &restic("/repo", None, None, Some("hunter2")),
        false,
        false,
    );
    assert_eq!(invocation.args, strings(&["backup", "--repo", "/repo", "hunter2"]));
    let invocation = build_backup_invocation(
        &backup(&["/data"], &[]),
        &restic("/repo", None, None, Some("hunter2")),
        false,
        false,
    );
    assert!(invocation.args.iter().all(|arg| arg != "hunter2"));
}

#[test]
fn password_is_the_value_of_its_own_variable_only() {
    let invocation = build_backup_invocation(
        &backup(&["/data"], &[]),
        &restic("/repo", Some("ssh -i key"), None, Some("hunter2")),
        false,
        false,
    );
    let holders: Vec<&str> = invocation
        .env
        .iter()
        .filter(|var| var.value == "hunter2")
        .map(|var| var.name.as_str())
        .collect();
    assert_eq!(holders, vec!["RESTIC_PASSWORD"]);
}

#[test]
fn ssh_command_that_is_the_password_text_holds_it_too() {
    let invocation = build_backup_invocation(
        &backup(&["/data"], &[]),
        &restic("/repo", Some("hunter2"), None, Some("hunter2")),
        false,
        false,
    );
    assert_eq!(
        invocation.env,
        vec![env("RESTIC_PASSWORD", "hunter2"), env("RESTIC_SSH_COMMAND", "hunter2")]
    );
}
