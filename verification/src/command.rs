//! The command builder: configuration and run flags in, argument and
//! environment vectors out.
//!
//! The arguments are handed to the child as a vector, never through a shell,
//! so a path or a command with spaces or quotes in it needs no escaping and
//! gets none. Secrets go by the environment of the child alone: argument
//! lists can be read by other processes.

use vstd::prelude::*;
use vstd::string::*;
use crate::config::{BackupConfig, BackupConfigView, ResticConfig, ResticConfigView};

verus! {

/// One environment variable set on the child process only.
#[derive(Clone, Debug, PartialEq, Eq)]
pub struct EnvVar {
    pub name: String,
    pub value: String,
}

impl View for EnvVar {
    type V = (Seq<char>, Seq<char>);

    open spec fn view(&self) -> (Seq<char>, Seq<char>) {
        (self.name@, self.value@)
    }
}

impl DeepView for EnvVar {
    type V = (Seq<char>, Seq<char>);

    open spec fn deep_view(&self) -> (Seq<char>, Seq<char>) {
        self@
    }
}

/// A subprocess invocation, ready to be spawned.
#[derive(Clone, Debug, PartialEq, Eq)]
pub struct Invocation {
    pub program: String,
    pub args: Vec<String>,
    pub env: Vec<EnvVar>,
}

/// Mathematical model of an [`Invocation`].
pub struct InvocationView {
    pub program: Seq<char>,
    pub args: Seq<Seq<char>>,
    pub env: Seq<(Seq<char>, Seq<char>)>,
}

impl View for Invocation {
    type V = InvocationView;

    open spec fn view(&self) -> InvocationView {
        InvocationView {
            program: self.program@,
            args: self.args.deep_view(),
            env: self.env.deep_view(),
        }
    }
}

/// The credential flag: present exactly when a password command is configured.
pub open spec fn credential_args(restic: ResticConfigView) -> Seq<Seq<char>> {
    match restic.password_command {
        Some(command) => seq!["--password-command"@, command],
        None => seq![],
    }
}

/// One `--exclude <path>` pair per excluded path, in configured order.
pub open spec fn exclude_args(exclude: Seq<Seq<char>>) -> Seq<Seq<char>> {
    Seq::new(
        2 * exclude.len(),
        |i: int| if i % 2 == 0 { "--exclude"@ } else { exclude[i / 2] },
    )
}

pub open spec fn verbose_args(verbose: bool) -> Seq<Seq<char>> {
    if verbose { seq!["--verbose"@] } else { seq![] }
}

pub open spec fn dry_run_args(dry_run: bool) -> Seq<Seq<char>> {
    if dry_run { seq!["--dry-run"@] } else { seq![] }
}

/// What stands before the directories: the subcommand, the repository, the
/// credential flag and the verbosity flag.
pub open spec fn backup_args_head(restic: ResticConfigView, verbose: bool) -> Seq<Seq<char>> {
    seq!["backup"@, "--repo"@, restic.repository] + credential_args(restic) + verbose_args(verbose)
}

/// The argument list of `restic backup`.
pub open spec fn backup_args(
    backup: BackupConfigView,
    restic: ResticConfigView,
    dry_run: bool,
    verbose: bool,
) -> Seq<Seq<char>> {
    backup_args_head(restic, verbose) + backup.directories + exclude_args(backup.exclude)
        + dry_run_args(dry_run)
}

/// The environment entry that carries the inline password: present exactly
/// when an inline password is configured and no password command is.
pub open spec fn password_env(restic: ResticConfigView) -> Seq<(Seq<char>, Seq<char>)> {
    match (restic.password_command, restic.password) {
        (None, Some(password)) => seq![("RESTIC_PASSWORD"@, password)],
        _ => seq![],
    }
}

/// The environment entry that carries the SSH transport command.
pub open spec fn ssh_env(restic: ResticConfigView) -> Seq<(Seq<char>, Seq<char>)> {
    match restic.ssh_command {
        Some(command) => seq![("RESTIC_SSH_COMMAND"@, command)],
        None => seq![],
    }
}

/// The environment overrides of every `restic` invocation.
pub open spec fn credential_env(restic: ResticConfigView) -> Seq<(Seq<char>, Seq<char>)> {
    password_env(restic) + ssh_env(restic)
}

/// The argument list of `restic snapshots`.
pub open spec fn snapshots_args(restic: ResticConfigView) -> Seq<Seq<char>> {
    seq!["snapshots"@, "--repo"@, restic.repository, "--json"@] + credential_args(restic)
}

/// The invocation that backs up `backup` into the repository of `restic`.
pub open spec fn backup_invocation(
    backup: BackupConfigView,
    restic: ResticConfigView,
    dry_run: bool,
    verbose: bool,
) -> InvocationView {
    InvocationView {
        program: "restic"@,
        args: backup_args(backup, restic, dry_run, verbose),
        env: credential_env(restic),
    }
}

/// The invocation that lists the snapshots of the repository of `restic`.
pub open spec fn snapshots_invocation(restic: ResticConfigView) -> InvocationView {
    InvocationView {
        program: "restic"@,
        args: snapshots_args(restic),
        env: credential_env(restic),
    }
}

fn push_text(args: &mut Vec<String>, text: &str)
    ensures
        final(args).deep_view() == old(args).deep_view().push(text@),
{
    args.push(String::from_str(text));
    assert(args.deep_view() =~= old(args).deep_view().push(text@));
}

fn push_env(env: &mut Vec<EnvVar>, name: &str, value: &str)
    ensures
        final(env).deep_view() == old(env).deep_view().push((name@, value@)),
{
    env.push(EnvVar { name: String::from_str(name), value: String::from_str(value) });
    assert(env.deep_view() =~= old(env).deep_view().push((name@, value@)));
}

/// Appends the credential flag to `args` and the credential variables to `env`.
fn push_credentials(args: &mut Vec<String>, env: &mut Vec<EnvVar>, restic: &ResticConfig)
    ensures
        final(args).deep_view() == old(args).deep_view() + credential_args(restic@),
        final(env).deep_view() == old(env).deep_view() + credential_env(restic@),
{
    match &restic.password_command {
        Some(command) => {
            push_text(args, "--password-command");
            push_text(args, command.as_str());
        },
        None => {
            match &restic.password {
                Some(password) => {
                    push_env(env, "RESTIC_PASSWORD", password.as_str());
                },
                None => {},
            }
        },
    }
    match &restic.ssh_command {
        Some(command) => {
            push_env(env, "RESTIC_SSH_COMMAND", command.as_str());
        },
        None => {},
    }
    assert(args.deep_view() =~= old(args).deep_view() + credential_args(restic@));
    assert(env.deep_view() =~= old(env).deep_view() + credential_env(restic@));
}

/// Builds the `restic backup` invocation for one run.
///
/// Building is pure data transformation and cannot fail. The inline password
/// never becomes an argument: it travels in the child's environment only.
pub fn build_backup_invocation(
    backup: &BackupConfig,
    restic: &ResticConfig,
    dry_run: bool,
    verbose: bool,
) -> (invocation: Invocation)
    ensures
        invocation@ == backup_invocation(backup@, restic@, dry_run, verbose),
{
    let mut args: Vec<String> = Vec::new();
    let mut env: Vec<EnvVar> = Vec::new();
    push_text(&mut args, "backup");
    push_text(&mut args, "--repo");
    push_text(&mut args, restic.repository.as_str());
    push_credentials(&mut args, &mut env, restic);
    if verbose {
        push_text(&mut args, "--verbose");
    }
    let ghost head = args.deep_view();
    assert(head =~= seq!["backup"@, "--repo"@, restic@.repository] + credential_args(restic@)
        + verbose_args(verbose));
    let mut i: usize = 0;
    while i < backup.directories.len()
        invariant
            i <= backup.directories.len(),
            args.deep_view() == head + backup@.directories.take(i as int),
        decreases backup.directories.len() - i,
    {
        push_text(&mut args, backup.directories[i].as_str());
        assert(backup@.directories.take(i + 1) =~= backup@.directories.take(i as int).push(
            backup.directories[i as int]@,
        ));
        assert(args.deep_view() =~= head + backup@.directories.take(i + 1));
        i += 1;
    }
    assert(backup@.directories.take(i as int) =~= backup@.directories);
    let ghost body = args.deep_view();
    let mut j: usize = 0;
    while j < backup.exclude.len()
        invariant
            j <= backup.exclude.len(),
            args.deep_view() == body + exclude_args(backup@.exclude.take(j as int)),
        decreases backup.exclude.len() - j,
    {
        push_text(&mut args, "--exclude");
        push_text(&mut args, backup.exclude[j].as_str());
        assert(exclude_args(backup@.exclude.take(j + 1)) =~= exclude_args(
            backup@.exclude.take(j as int),
        ).push("--exclude"@).push(backup.exclude[j as int]@));
        assert(args.deep_view() =~= body + exclude_args(backup@.exclude.take(j + 1)));
        j += 1;
    }
    assert(backup@.exclude.take(j as int) =~= backup@.exclude);
    if dry_run {
        push_text(&mut args, "--dry-run");
    }
    assert(args.deep_view() =~= backup_args(backup@, restic@, dry_run, verbose));
    assert(env.deep_view() =~= credential_env(restic@));
    Invocation { program: String::from_str("restic"), args, env }
}

/// Builds the `restic snapshots --json` invocation.
pub fn build_snapshots_invocation(restic: &ResticConfig) -> (invocation: Invocation)
    ensures
        invocation@ == snapshots_invocation(restic@),
{
    let mut args: Vec<String> = Vec::new();
    let mut env: Vec<EnvVar> = Vec::new();
    push_text(&mut args, "snapshots");
    push_text(&mut args, "--repo");
    push_text(&mut args, restic.repository.as_str());
    push_text(&mut args, "--json");
    push_credentials(&mut args, &mut env, restic);
    assert(args.deep_view() =~= snapshots_args(restic@));
    assert(env.deep_view() =~= credential_env(restic@));
    Invocation { program: String::from_str("restic"), args, env }
}

/// Where the directories begin in the argument list of a backup.
pub open spec fn first_directory(restic: ResticConfigView, verbose: bool) -> int {
    (3 + credential_args(restic).len() + verbose_args(verbose).len()) as int
}

/// Where the exclusions begin in the argument list of a backup.
pub open spec fn first_exclusion(
    backup: BackupConfigView,
    restic: ResticConfigView,
    verbose: bool,
) -> int {
    first_directory(restic, verbose) + backup.directories.len()
}

/// An element of four sequences laid end to end lies in one of the four.
proof fn lemma_part_at<A>(a: Seq<A>, b: Seq<A>, c: Seq<A>, d: Seq<A>, i: int)
    requires
        0 <= i < a.len() + b.len() + c.len() + d.len(),
    ensures
        (a + b + c + d).len() == a.len() + b.len() + c.len() + d.len(),
        (a + b + c + d)[i] == (if i < a.len() {
            a[i]
        } else if i < a.len() + b.len() {
            b[i - a.len()]
        } else if i < a.len() + b.len() + c.len() {
            c[i - a.len() - b.len()]
        } else {
            d[i - a.len() - b.len() - c.len()]
        }),
{
}

/// The argument at place `i` of a backup, by the part that it lies in.
proof fn lemma_backup_arg_at(
    backup: BackupConfigView,
    restic: ResticConfigView,
    dry_run: bool,
    verbose: bool,
    i: int,
)
    requires
        0 <= i < backup_args(backup, restic, dry_run, verbose).len(),
    ensures
        ({
            let args = backup_args(backup, restic, dry_run, verbose);
            let head = first_directory(restic, verbose);
            let body = first_exclusion(backup, restic, verbose);
            let tail = body + 2 * backup.exclude.len();
            &&& args.len() == tail + dry_run_args(dry_run).len()
            &&& i < head ==> args[i] == backup_args_head(restic, verbose)[i]
            &&& head <= i < body ==> args[i] == backup.directories[i - head]
            &&& body <= i < tail ==> args[i] == (if (i - body) % 2 == 0 {
                "--exclude"@
            } else {
                backup.exclude[(i - body) / 2]
            })
            &&& tail <= i ==> dry_run && i == tail && args[i] == "--dry-run"@
        }),
{
    lemma_part_at(
        backup_args_head(restic, verbose),
        backup.directories,
        exclude_args(backup.exclude),
        dry_run_args(dry_run),
        i,
    );
}

/// The pair of arguments that stands for the exclusion at place `k`.
proof fn lemma_exclude_pair(exclude: Seq<Seq<char>>, k: int)
    requires
        0 <= k < exclude.len(),
    ensures
        exclude_args(exclude).len() == 2 * exclude.len(),
        exclude_args(exclude)[2 * k] == "--exclude"@,
        exclude_args(exclude)[2 * k + 1] == exclude[k],
{
    assert((2 * k) % 2 == 0);
    assert((2 * k + 1) % 2 == 1);
    assert((2 * k + 1) / 2 == k);
}

/// The arguments of a backup come in one fixed order: the subcommand, the
/// repository, the credential flag if a password command is configured, the
/// verbosity flag if asked for, then the directories, then the exclusions,
/// and the dry-run flag last if asked for. This is the frame; where each
/// directory and each exclusion stands within it is stated by
/// `lemma_backup_directory_at` and `lemma_backup_exclusion_at`.
pub proof fn lemma_backup_args_order(
    backup: BackupConfigView,
    restic: ResticConfigView,
    dry_run: bool,
    verbose: bool,
)
    ensures
        ({
            let args = backup_args(backup, restic, dry_run, verbose);
            let c: int = if restic.password_command is Some { 2 } else { 0 };
            let v: int = if verbose { 1 } else { 0 };
            let r: int = if dry_run { 1 } else { 0 };
            let head = first_directory(restic, verbose);
            let body = first_exclusion(backup, restic, verbose);
            &&& head == 3 + c + v
            &&& body == head + backup.directories.len()
            &&& args.len() == body + 2 * backup.exclude.len() + r
            &&& args[0] == "backup"@
            &&& args[1] == "--repo"@
            &&& args[2] == restic.repository
            &&& restic.password_command matches Some(command) ==> args[3] == "--password-command"@
                && args[4] == command
            &&& verbose ==> args[head - 1] == "--verbose"@
            &&& dry_run ==> args[args.len() - 1] == "--dry-run"@
        }),
{
    let head = first_directory(restic, verbose);
    let body = first_exclusion(backup, restic, verbose);
    let tail = body + 2 * backup.exclude.len();
    lemma_backup_arg_at(backup, restic, dry_run, verbose, 0);
    lemma_backup_arg_at(backup, restic, dry_run, verbose, 1);
    lemma_backup_arg_at(backup, restic, dry_run, verbose, 2);
    if restic.password_command is Some {
        lemma_backup_arg_at(backup, restic, dry_run, verbose, 3);
        lemma_backup_arg_at(backup, restic, dry_run, verbose, 4);
    }
    if verbose {
        lemma_backup_arg_at(backup, restic, dry_run, verbose, head - 1);
    }
    if dry_run {
        lemma_backup_arg_at(backup, restic, dry_run, verbose, tail);
    }
}

/// The directories stand among the arguments of a backup in configured
/// order: the one at place `k` is the `k`-th argument from where the
/// directories begin.
pub proof fn lemma_backup_directory_at(
    backup: BackupConfigView,
    restic: ResticConfigView,
    dry_run: bool,
    verbose: bool,
    k: int,
)
    requires
        0 <= k < backup.directories.len(),
    ensures
        ({
            let args = backup_args(backup, restic, dry_run, verbose);
            let head = first_directory(restic, verbose);
            &&& head + k < args.len()
            &&& args[head + k] == backup.directories[k]
        }),
{
    lemma_part_at(
        backup_args_head(restic, verbose),
        backup.directories,
        exclude_args(backup.exclude),
        dry_run_args(dry_run),
        first_directory(restic, verbose) + k,
    );
}

/// The exclusions stand among the arguments of a backup in configured
/// order, each as the pair `--exclude <path>`: the one at place `k` is the
/// `k`-th pair from where the exclusions begin.
pub proof fn lemma_backup_exclusion_at(
    backup: BackupConfigView,
    restic: ResticConfigView,
    dry_run: bool,
    verbose: bool,
    k: int,
)
    requires
        0 <= k < backup.exclude.len(),
    ensures
        ({
            let args = backup_args(backup, restic, dry_run, verbose);
            let body = first_exclusion(backup, restic, verbose);
            &&& body + 2 * k + 1 < args.len()
            &&& args[body + 2 * k] == "--exclude"@
            &&& args[body + 2 * k + 1] == backup.exclude[k]
        }),
{
    let a = backup_args_head(restic, verbose);
    let b = backup.directories;
    let c = exclude_args(backup.exclude);
    let d = dry_run_args(dry_run);
    lemma_exclude_pair(backup.exclude, k);
    lemma_part_at(a, b, c, d, a.len() + b.len() + 2 * k);
    lemma_part_at(a, b, c, d, a.len() + b.len() + 2 * k + 1);
}

/// The arguments of a backup are decided by the repository, the password
/// command, the directories, the exclusions and the two flags alone: the
/// schedule, the inline password and the SSH command have no say.
pub proof fn lemma_backup_args_depend_on_covered_fields(
    backup1: BackupConfigView,
    restic1: ResticConfigView,
    backup2: BackupConfigView,
    restic2: ResticConfigView,
    dry_run: bool,
    verbose: bool,
)
    requires
        backup1.directories == backup2.directories,
        backup1.exclude == backup2.exclude,
        restic1.repository == restic2.repository,
        restic1.password_command == restic2.password_command,
    ensures
        backup_args(backup1, restic1, dry_run, verbose) == backup_args(
            backup2,
            restic2,
            dry_run,
            verbose,
        ),
{
}

/// What the arguments of a backup are drawn from: the words that the
/// command is spelled with, the repository, the password command, the
/// directories and the exclusions.
pub open spec fn is_backup_argument(
    backup: BackupConfigView,
    restic: ResticConfigView,
    dry_run: bool,
    verbose: bool,
    word: Seq<char>,
) -> bool {
    ||| word == "backup"@
    ||| word == "--repo"@
    ||| word == restic.repository
    ||| restic.password_command is Some && word == "--password-command"@
    ||| restic.password_command == Some(word)
    ||| verbose && word == "--verbose"@
    ||| backup.directories.contains(word)
    ||| backup.exclude.len() > 0 && word == "--exclude"@
    ||| backup.exclude.contains(word)
    ||| dry_run && word == "--dry-run"@
}

/// Every argument of a backup is drawn from a source.
pub proof fn lemma_backup_args_come_from_sources(
    backup: BackupConfigView,
    restic: ResticConfigView,
    dry_run: bool,
    verbose: bool,
    i: int,
)
    requires
        0 <= i < backup_args(backup, restic, dry_run, verbose).len(),
    ensures
        is_backup_argument(
            backup,
            restic,
            dry_run,
            verbose,
            backup_args(backup, restic, dry_run, verbose)[i],
        ),
{
    lemma_backup_arg_at(backup, restic, dry_run, verbose, i);
    let word = backup_args(backup, restic, dry_run, verbose)[i];
    let head = first_directory(restic, verbose);
    let body = first_exclusion(backup, restic, verbose);
    let tail = body + 2 * backup.exclude.len();
    if i < head {
        assert(word == backup_args_head(restic, verbose)[i]);
    } else if i < body {
        assert(word == backup.directories[i - head]);
        assert(backup.directories.contains(word));
    } else if i < tail {
        let k = (i - body) / 2;
        assert(0 <= k < backup.exclude.len());
        if (i - body) % 2 != 0 {
            assert(word == backup.exclude[k]);
            assert(backup.exclude.contains(word));
        }
    }
}

/// Every source shows among the arguments of a backup.
pub proof fn lemma_sources_become_backup_args(
    backup: BackupConfigView,
    restic: ResticConfigView,
    dry_run: bool,
    verbose: bool,
    word: Seq<char>,
)
    requires
        is_backup_argument(backup, restic, dry_run, verbose, word),
    ensures
        backup_args(backup, restic, dry_run, verbose).contains(word),
{
    lemma_backup_args_order(backup, restic, dry_run, verbose);
    let args = backup_args(backup, restic, dry_run, verbose);
    let head = first_directory(restic, verbose);
    let body = first_exclusion(backup, restic, verbose);
    let i: int = if word == "backup"@ {
        0
    } else if word == "--repo"@ {
        1
    } else if word == restic.repository {
        2
    } else if restic.password_command is Some && word == "--password-command"@ {
        3
    } else if restic.password_command == Some(word) {
        4
    } else if verbose && word == "--verbose"@ {
        head - 1
    } else if backup.directories.contains(word) {
        let k = choose|k: int| 0 <= k < backup.directories.len() && backup.directories[k] == word;
        lemma_backup_directory_at(backup, restic, dry_run, verbose, k);
        head + k
    } else if backup.exclude.len() > 0 && word == "--exclude"@ {
        lemma_backup_exclusion_at(backup, restic, dry_run, verbose, 0);
        body
    } else if backup.exclude.contains(word) {
        let k = choose|k: int| 0 <= k < backup.exclude.len() && backup.exclude[k] == word;
        lemma_backup_exclusion_at(backup, restic, dry_run, verbose, k);
        body + 2 * k + 1
    } else {
        args.len() - 1
    };
    assert(0 <= i < args.len() && args[i] == word);
}

/// The arguments of a backup are exactly what they are drawn from. The
/// inline password is none of the sources: it shows among the arguments
/// only where it is equal to one of them, as a password that is also the
/// name of a directory to back up.
pub proof fn lemma_backup_args_sources(
    backup: BackupConfigView,
    restic: ResticConfigView,
    dry_run: bool,
    verbose: bool,
    word: Seq<char>,
)
    ensures
        backup_args(backup, restic, dry_run, verbose).contains(word) <==> is_backup_argument(
            backup,
            restic,
            dry_run,
            verbose,
            word,
        ),
{
    let args = backup_args(backup, restic, dry_run, verbose);
    if args.contains(word) {
        let i = choose|i: int| 0 <= i < args.len() && args[i] == word;
        lemma_backup_args_come_from_sources(backup, restic, dry_run, verbose, i);
    }
    if is_backup_argument(backup, restic, dry_run, verbose, word) {
        lemma_sources_become_backup_args(backup, restic, dry_run, verbose, word);
    }
}

/// An inline password that is none of the sources of the arguments is no
/// argument.
pub proof fn lemma_inline_password_is_no_argument(
    backup: BackupConfigView,
    restic: ResticConfigView,
    dry_run: bool,
    verbose: bool,
    password: Seq<char>,
)
    requires
        restic.password == Some(password),
        !is_backup_argument(backup, restic, dry_run, verbose, password),
    ensures
        forall|i: int|
            0 <= i < backup_args(backup, restic, dry_run, verbose).len() ==> backup_args(
                backup,
                restic,
                dry_run,
                verbose,
            )[i] != password,
{
    lemma_backup_args_sources(backup, restic, dry_run, verbose, password);
}

/// An inline password that is in force is exported under `RESTIC_PASSWORD`,
/// as the first environment entry, and under no other name. It is the value
/// of no other entry either, unless the SSH command is the same text.
pub proof fn lemma_inline_password_in_environment(restic: ResticConfigView, password: Seq<char>)
    requires
        restic.password_command is None,
        restic.password == Some(password),
    ensures
        credential_env(restic).len() >= 1,
        credential_env(restic)[0] == ("RESTIC_PASSWORD"@, password),
        forall|i: int|
            0 < i < credential_env(restic).len() ==> (#[trigger] credential_env(restic)[i]).0
                != "RESTIC_PASSWORD"@,
        restic.ssh_command != Some(password) ==> forall|i: int|
            0 < i < credential_env(restic).len() ==> (#[trigger] credential_env(restic)[i]).1
                != password,
{
    lemma_variable_names_differ();
}

/// With a password command configured no `RESTIC_PASSWORD` entry is produced,
/// whether or not an inline password is configured too.
pub proof fn lemma_password_command_takes_precedence(restic: ResticConfigView)
    requires
        restic.password_command is Some,
    ensures
        forall|i: int|
            0 <= i < credential_env(restic).len() ==> (#[trigger] credential_env(restic)[i]).0
                != "RESTIC_PASSWORD"@,
{
    lemma_variable_names_differ();
}

/// The environment holds at most the two variables, each at most once.
pub proof fn lemma_environment_names(restic: ResticConfigView)
    ensures
        credential_env(restic).len() <= 2,
        forall|i: int|
            0 <= i < credential_env(restic).len() ==> {
                let name = (#[trigger] credential_env(restic)[i]).0;
                name == "RESTIC_PASSWORD"@ || name == "RESTIC_SSH_COMMAND"@
            },
        forall|i: int, j: int|
            0 <= i < j < credential_env(restic).len() ==> (#[trigger] credential_env(restic)[i]).0
                != (#[trigger] credential_env(restic)[j]).0,
{
    lemma_variable_names_differ();
}

proof fn lemma_variable_names_differ()
    ensures
        "RESTIC_PASSWORD"@ != "RESTIC_SSH_COMMAND"@,
{
    reveal_strlit("RESTIC_PASSWORD");
    reveal_strlit("RESTIC_SSH_COMMAND");
    assert("RESTIC_PASSWORD"@.len() != "RESTIC_SSH_COMMAND"@.len());
}

} // verus!
