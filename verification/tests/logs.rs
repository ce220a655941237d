use better_restic_client::config::LoggingConfig;
use better_restic_client::logs::{
    describe_directory_failure, describe_latest, expand_home, format_directory_failure, latest_log,
    list_log_files, resolve_log_directory, rotation_policy, select_log_files, sort_newest_first,
    LogFile, LoggingSetupError, RotationPolicy,
};
use better_restic_client::size::SizeFormatError;

fn file(name: &str, size: u64, modified: Option<u64>) -> LogFile {
    LogFile { name: name.to_string(), size, modified }
}

fn names(files: &[LogFile]) -> Vec<&str> {
    files.iter().map(|file| file.name.as_str()).collect()
}

#[test]
fn only_log_files_are_listed() {
    let entries = vec![
        file("restic_backup.log", 1, Some(10)),
        file("other.log", 2, Some(99)),
        file("restic_backup_r00001.log", 3, Some(5)),
        file("restic", 4, Some(50)),
        file("Restic_backup.log", 5, Some(60)),
        file("restic_backup", 6, Some(1)),
    ];
    assert_eq!(
        names(&select_log_files(&entries)),
        vec!["restic_backup.log", "restic_backup_r00001.log", "restic_backup"]
    );
    assert_eq!(
        names(&list_log_files(&entries)),
        vec!["restic_backup.log", "restic_backup_r00001.log", "restic_backup"]
    );
}

#[test]
fn newest_file_comes_first() {
    let entries = vec![
        file("restic_backup_a", 1, Some(100)),
        file("restic_backup_b", 2, Some(300)),
        file("restic_backup_c", 3, Some(200)),
    ];
    let listed = list_log_files(&entries);
    assert_eq!(
        listed,
        vec![
            file("restic_backup_b", 2, Some(300)),
            file("restic_backup_c", 3, Some(200)),
            file("restic_backup_a", 1, Some(100)),
        ]
    );
}

#[test]
fn files_of_one_age_keep_their_order() {
    let entries = vec![
        file("restic_backup_1", 0, Some(7)),
        file("restic_backup_2", 0, Some(9)),
        file("restic_backup_3", 0, Some(7)),
        file("restic_backup_4", 0, Some(9)),
        file("restic_backup_5", 0, Some(7)),
    ];
    assert_eq!(
        names(&sort_newest_first(&entries)),
        vec![
            "restic_backup_2",
            "restic_backup_4",
            "restic_backup_1",
            "restic_backup_3",
            "restic_backup_5",
        ]
    );
}

#[test]
fn files_of_unknown_age_count_as_oldest() {
    let entries = vec![
        file("restic_backup_unknown", 0, None),
        file("restic_backup_epoch", 0, Some(0)),
        file("restic_backup_new", 0, Some(1)),
        file("restic_backup_unknown_too", 0, None),
    ];
    assert_eq!(
        names(&list_log_files(&entries)),
        vec![
            "restic_backup_new",
            "restic_backup_unknown",
            "restic_backup_epoch",
            "restic_backup_unknown_too",
        ]
    );
}

#[test]
fn sorting_agrees_with_a_stable_sort() {
    let mut entries = Vec::new();
    let mut seed: u64 = 12345;
    for index in 0..200 {
        seed = seed.wrapping_mul(6364136223846793005).wrapping_add(1442695040888963407);
        let modified = if seed % 7 == 0 { None } else { Some((seed >> 33) % 10) };
        entries.push(file(&format!("restic_backup_{index}"), index, modified));
    }
    let mut expected = entries.clone();
    expected.sort_by(|a, b| b.modified.unwrap_or(0).cmp(&a.modified.unwrap_or(0)));
    assert_eq!(sort_newest_first(&entries), expected);
}

#[test]
fn empty_directory() {
    assert_eq!(list_log_files(&vec![]), vec![]);
    assert_eq!(latest_log(&vec![]), None);
}

#[test]
fn latest_is_the_first_of_the_listing() {
    let listed =
        list_log_files(&vec![file("restic_backup_a", 1, Some(1)), file("restic_backup_b", 2, Some(2))]);
    assert_eq!(latest_log(&listed), Some(&file("restic_backup_b", 2, Some(2))));
}

#[test]
fn content_of_the_latest_log() {
    assert_eq!(describe_latest(false, None), "No log files found");
    assert_eq!(describe_latest(false, Some("ignored".to_string())), "No log files found");
    assert_eq!(describe_latest(true, None), "Unable to read log file");
    assert_eq!(describe_latest(true, Some("line 1\nline 2\n".to_string())), "line 1\nline 2\n");
    assert_eq!(describe_latest(true, Some(String::new())), "");
}

#[test]
fn tilde_is_replaced_by_the_home_directory() {
    assert_eq!(
        resolve_log_directory("~/.local/log/restic", Some("/home/me")),
        Ok("/home/me/.local/log/restic".to_string())
    );
    assert_eq!(resolve_log_directory("~", Some("/root")), Ok("/root".to_string()));
}

#[test]
fn only_the_leading_tilde_is_replaced() {
    assert_eq!(
        resolve_log_directory("~/logs~old", Some("/home/u")),
        Ok("/home/u/logs~old".to_string())
    );
    assert_eq!(resolve_log_directory("~/a~b/~", Some("/h")), Ok("/h/a~b/~".to_string()));
    assert_eq!(resolve_log_directory("~~", Some("~x")), Ok("~x~".to_string()));
}

#[test]
fn directory_without_leading_tilde_is_kept() {
    assert_eq!(resolve_log_directory("/var/log/restic", Some("/home/me")), Ok("/var/log/restic".to_string()));
    assert_eq!(resolve_log_directory("/var/~log", Some("/home/me")), Ok("/var/~log".to_string()));
    assert_eq!(resolve_log_directory("/var/log", None), Ok("/var/log".to_string()));
    assert_eq!(resolve_log_directory("", None), Ok(String::new()));
}

#[test]
fn leading_tilde_needs_a_home_directory() {
    assert_eq!(resolve_log_directory("~/logs", None), Err(LoggingSetupError::HomeNotSet));
    assert_eq!(LoggingSetupError::HomeNotSet.message(), "HOME environment variable not set");
}

#[test]
fn home_expansion_replaces_the_first_character_only() {
    for directory in ["~", "~a", "~~~", "~/a~b~c", "~\u{e9}~\u{e9}"] {
        for home in ["", "/h", "~", "/home/\u{e9}"] {
            assert_eq!(expand_home(directory, home), directory.replacen('~', home, 1));
        }
    }
    for directory in ["", "a", "a~", "a~b~c", "/~", "\u{e9}~"] {
        for home in ["", "/h", "~", "/home/\u{e9}"] {
            assert_eq!(expand_home(directory, home), directory);
        }
    }
}

#[test]
fn rotation_follows_the_configured_size() {
    let logging = LoggingConfig { directory: "/var/log".to_string(), max_size: "10mb".to_string() };
    assert_eq!(
        rotation_policy(&logging),
        Ok(RotationPolicy {
            basename: "restic_backup".to_string(),
            max_bytes: 10_485_760,
            keep_files: 3,
        })
    );
}

#[test]
fn rotation_needs_a_valid_size() {
    let logging = LoggingConfig { directory: "/var/log".to_string(), max_size: "10XB".to_string() };
    assert_eq!(rotation_policy(&logging), Err(SizeFormatError::UnknownUnit));
    let logging = LoggingConfig { directory: "/var/log".to_string(), max_size: "MB".to_string() };
    assert_eq!(rotation_policy(&logging), Err(SizeFormatError::InvalidNumber));
}

#[test]
fn directory_failure_message() {
    let expected = format!(
        "Failed to create log directory {:?}: {}. \
         Please ensure you have write permissions or use a user-writable directory (e.g., ~/.local/log/restic)",
        "/var/log/my \"logs\"", "Permission denied (os error 13)"
    );
    assert_eq!(
        describe_directory_failure("/var/log/my \"logs\"", "Permission denied (os error 13)"),
        expected
    );
    assert_eq!(
        format_directory_failure("/x", "denied"),
        "Failed to create log directory /x: denied. Please ensure you have write permissions \
         or use a user-writable directory (e.g., ~/.local/log/restic)"
    );
}
