//! The configuration model: backup targets, logging and repository credentials.

use vstd::prelude::*;
use vstd::string::*;

verus! {

/// A copy of `texts`, string by string.
pub fn copy_strings(texts: &Vec<String>) -> (copy: Vec<String>)
    ensures
        copy.deep_view() == texts.deep_view(),
{
    let mut copy: Vec<String> = Vec::new();
    let mut i: usize = 0;
    while i < texts.len()
        invariant
            i <= texts.len(),
            copy.deep_view() == texts.deep_view().take(i as int),
        decreases texts.len() - i,
    {
        let ghost before = copy.deep_view();
        copy.push(texts[i].clone());
        assert(copy.deep_view() =~= before.push(texts[i as int]@));
        assert(copy.deep_view() =~= texts.deep_view().take(i + 1));
        i += 1;
    }
    assert(texts.deep_view().take(i as int) =~= texts.deep_view());
    copy
}

/// A copy of an optional string.
pub fn copy_optional(text: &Option<String>) -> (copy: Option<String>)
    ensures
        copy.deep_view() == text.deep_view(),
{
    match text {
        Some(text) => Some(text.clone()),
        None => None,
    }
}

/// What to back up and, informally, when.
#[derive(Clone, Debug, PartialEq, Eq)]
pub struct BackupConfig {
    /// Free-form schedule label; recorded, never acted upon.
    pub frequency: String,
    /// Free-form time of day; recorded, never acted upon.
    pub time: String,
    /// Paths to back up, in the order they are handed to `restic`.
    pub directories: Vec<String>,
    /// Paths to exclude, each passed as its own `--exclude` argument.
    pub exclude: Vec<String>,
}

/// Mathematical model of a [`BackupConfig`].
pub struct BackupConfigView {
    pub frequency: Seq<char>,
    pub time: Seq<char>,
    pub directories: Seq<Seq<char>>,
    pub exclude: Seq<Seq<char>>,
}

impl View for BackupConfig {
    type V = BackupConfigView;

    open spec fn view(&self) -> BackupConfigView {
        BackupConfigView {
            frequency: self.frequency@,
            time: self.time@,
            directories: self.directories.deep_view(),
            exclude: self.exclude.deep_view(),
        }
    }
}

impl BackupConfig {
    /// A copy with the same contents.
    pub fn duplicate(&self) -> (copy: BackupConfig)
        ensures
            copy@ == self@,
    {
        BackupConfig {
            frequency: self.frequency.clone(),
            time: self.time.clone(),
            directories: copy_strings(&self.directories),
            exclude: copy_strings(&self.exclude),
        }
    }
}

/// Where the operational log is kept and how large one file may grow.
#[derive(Clone, Debug, PartialEq, Eq)]
pub struct LoggingConfig {
    /// Directory of the log files; a leading `~` stands for the home directory.
    pub directory: String,
    /// Size at which the log rotates, written as `<N>KB`, `<N>MB` or `<N>GB`.
    pub max_size: String,
}

/// Mathematical model of a [`LoggingConfig`].
pub struct LoggingConfigView {
    pub directory: Seq<char>,
    pub max_size: Seq<char>,
}

impl View for LoggingConfig {
    type V = LoggingConfigView;

    open spec fn view(&self) -> LoggingConfigView {
        LoggingConfigView { directory: self.directory@, max_size: self.max_size@ }
    }
}

impl LoggingConfig {
    /// A copy with the same contents.
    pub fn duplicate(&self) -> (copy: LoggingConfig)
        ensures
            copy@ == self@,
    {
        LoggingConfig { directory: self.directory.clone(), max_size: self.max_size.clone() }
    }
}

/// Where the repository lives and how its secret is supplied.
#[derive(Clone, Debug, PartialEq, Eq)]
pub struct ResticConfig {
    /// Opaque repository locator: a local path, an SFTP or S3 URL, and so on.
    pub repository: String,
    /// Transport command exported to the child as `RESTIC_SSH_COMMAND`.
    pub ssh_command: Option<String>,
    /// Command whose output is the repository password; wins over `password`.
    pub password_command: Option<String>,
    /// Inline repository password; only ever exported through the environment.
    pub password: Option<String>,
}

/// Mathematical model of a [`ResticConfig`].
pub struct ResticConfigView {
    pub repository: Seq<char>,
    pub ssh_command: Option<Seq<char>>,
    pub password_command: Option<Seq<char>>,
    pub password: Option<Seq<char>>,
}

impl View for ResticConfig {
    type V = ResticConfigView;

    open spec fn view(&self) -> ResticConfigView {
        ResticConfigView {
            repository: self.repository@,
            ssh_command: self.ssh_command.deep_view(),
            password_command: self.password_command.deep_view(),
            password: self.password.deep_view(),
        }
    }
}

impl ResticConfig {
    /// A copy with the same contents.
    pub fn duplicate(&self) -> (copy: ResticConfig)
        ensures
            copy@ == self@,
    {
        ResticConfig {
            repository: self.repository.clone(),
            ssh_command: copy_optional(&self.ssh_command),
            password_command: copy_optional(&self.password_command),
            password: copy_optional(&self.password),
        }
    }
}

/// The whole configuration, as the configuration file holds it.
#[derive(Clone, Debug, PartialEq, Eq)]
pub struct Config {
    pub backup: BackupConfig,
    pub logging: LoggingConfig,
    pub restic: ResticConfig,
}

/// Mathematical model of a [`Config`].
pub struct ConfigView {
    pub backup: BackupConfigView,
    pub logging: LoggingConfigView,
    pub restic: ResticConfigView,
}

impl View for Config {
    type V = ConfigView;

    open spec fn view(&self) -> ConfigView {
        ConfigView { backup: self.backup@, logging: self.logging@, restic: self.restic@ }
    }
}

impl DeepView for Config {
    type V = ConfigView;

    open spec fn deep_view(&self) -> ConfigView {
        self@
    }
}

impl Config {
    /// A copy with the same contents.
    pub fn duplicate(&self) -> (copy: Config)
        ensures
            copy@ == self@,
    {
        Config {
            backup: self.backup.duplicate(),
            logging: self.logging.duplicate(),
            restic: self.restic.duplicate(),
        }
    }
}

/// The repository settings with every credential replaced by a flag that
/// says whether it is configured.
#[derive(Clone, Debug, PartialEq, Eq)]
pub struct RedactedRestic {
    pub repository: String,
    pub has_ssh_command: bool,
    pub has_password_command: bool,
    pub has_password: bool,
}

/// Mathematical model of a [`RedactedRestic`].
pub struct RedactedResticView {
    pub repository: Seq<char>,
    pub has_ssh_command: bool,
    pub has_password_command: bool,
    pub has_password: bool,
}

impl View for RedactedRestic {
    type V = RedactedResticView;

    open spec fn view(&self) -> RedactedResticView {
        RedactedResticView {
            repository: self.repository@,
            has_ssh_command: self.has_ssh_command,
            has_password_command: self.has_password_command,
            has_password: self.has_password,
        }
    }
}

/// The configuration as it may be shown: no credential is in it.
#[derive(Clone, Debug, PartialEq, Eq)]
pub struct RedactedConfig {
    pub backup: BackupConfig,
    pub logging: LoggingConfig,
    pub restic: RedactedRestic,
}

/// Mathematical model of a [`RedactedConfig`].
pub struct RedactedConfigView {
    pub backup: BackupConfigView,
    pub logging: LoggingConfigView,
    pub restic: RedactedResticView,
}

impl View for RedactedConfig {
    type V = RedactedConfigView;

    open spec fn view(&self) -> RedactedConfigView {
        RedactedConfigView { backup: self.backup@, logging: self.logging@, restic: self.restic@ }
    }
}

/// What may be shown of a configuration.
pub open spec fn redacted(config: ConfigView) -> RedactedConfigView {
    RedactedConfigView {
        backup: config.backup,
        logging: config.logging,
        restic: RedactedResticView {
            repository: config.restic.repository,
            has_ssh_command: config.restic.ssh_command is Some,
            has_password_command: config.restic.password_command is Some,
            has_password: config.restic.password is Some,
        },
    }
}

/// Redacts a configuration for display: each credential becomes a flag that
/// says whether it is present.
pub fn redact(config: &Config) -> (shown: RedactedConfig)
    ensures
        shown@ == redacted(config@),
{
    RedactedConfig {
        backup: config.backup.duplicate(),
        logging: config.logging.duplicate(),
        restic: RedactedRestic {
            repository: config.restic.repository.clone(),
            has_ssh_command: config.restic.ssh_command.is_some(),
            has_password_command: config.restic.password_command.is_some(),
            has_password: config.restic.password.is_some(),
        },
    }
}

/// Two configurations that differ only in what their credentials are, not in
/// whether they are configured, are shown alike.
pub proof fn lemma_redaction_hides_credentials(config1: ConfigView, config2: ConfigView)
    requires
        config1.backup == config2.backup,
        config1.logging == config2.logging,
        config1.restic.repository == config2.restic.repository,
        config1.restic.ssh_command is Some <==> config2.restic.ssh_command is Some,
        config1.restic.password_command is Some <==> config2.restic.password_command is Some,
        config1.restic.password is Some <==> config2.restic.password is Some,
    ensures
        redacted(config1) == redacted(config2),
{
}

} // verus!
