//! Operator-facing diagnostics: what to print and what to log once an
//! invocation has ended, and the error to hand to the caller.

use vstd::prelude::*;
use vstd::string::*;
use crate::case::lowercase_of;
use crate::command::{backup_invocation, build_backup_invocation, Invocation, InvocationView};
use crate::render::{command_line, readable_command, render_command, render_readable_command};
use crate::config::{BackupConfig, BackupConfigView, ResticConfig, ResticConfigView};
use crate::decimal::{format_i32, int_text};
use crate::outcome::{
    category_for, hints_for, outcome_category, pick_hints, repository_phrase, Execution,
    ExecutionView, Hints, OutcomeCategory, ProcessOutput, ProcessOutputView,
};
use crate::text::{contains, trim, trimmed};

verus! {

/// Where a line of a report goes: one of the two console streams or the
/// operational log at one of its severities.
#[derive(Clone, Copy, Debug, PartialEq, Eq)]
pub enum Channel {
    Stdout,
    Stderr,
    Info,
    Error,
    Debug,
}

/// One line of a report and where it goes.
#[derive(Clone, Debug, PartialEq, Eq)]
pub struct Emission {
    pub channel: Channel,
    pub text: String,
}

/// Mathematical model of an [`Emission`].
pub struct EmissionView {
    pub channel: Channel,
    pub text: Seq<char>,
}

impl View for Emission {
    type V = EmissionView;

    open spec fn view(&self) -> EmissionView {
        EmissionView { channel: self.channel, text: self.text@ }
    }
}

impl DeepView for Emission {
    type V = EmissionView;

    open spec fn deep_view(&self) -> EmissionView {
        self@
    }
}

/// What follows from the end of one invocation.
#[derive(Clone, Debug, PartialEq, Eq)]
pub struct Conclusion {
    /// The category of the outcome.
    pub category: OutcomeCategory,
    /// The remediation hints that were given.
    pub hints: Hints,
    /// What to print and log, in order.
    pub emissions: Vec<Emission>,
    /// The error to propagate to the caller; absent on success.
    pub error: Option<String>,
}

/// Mathematical model of a [`Conclusion`].
pub struct ConclusionView {
    pub category: OutcomeCategory,
    pub hints: Hints,
    pub emissions: Seq<EmissionView>,
    pub error: Option<Seq<char>>,
}

impl View for Conclusion {
    type V = ConclusionView;

    open spec fn view(&self) -> ConclusionView {
        ConclusionView {
            category: self.category,
            hints: self.hints,
            emissions: self.emissions.deep_view(),
            error: self.error.deep_view(),
        }
    }
}

pub open spec fn emission(channel: Channel, text: Seq<char>) -> EmissionView {
    EmissionView { channel, text }
}

/// An exit code as it is reported: `Some(<code>)`, or `None` when a signal
/// ended the process.
pub open spec fn exit_code_text(code: Option<i32>) -> Seq<char> {
    match code {
        Some(code) => "Some("@ + int_text(code as int) + ")"@,
        None => "None"@,
    }
}

/// What is announced before the process is spawned: the command as it
/// will run, in verbose mode also in its readable shape, and what is about
/// to happen.
pub open spec fn announcement(
    command: Seq<char>,
    readable: Seq<char>,
    dry_run: bool,
    verbose: bool,
) -> Seq<EmissionView> {
    seq![emission(Channel::Info, "Restic command: "@ + command)] + (if verbose {
        seq![emission(Channel::Debug, "Readable command: "@ + readable)]
    } else {
        seq![]
    }) + (if dry_run {
        seq![
            emission(
                Channel::Info,
                "DRY RUN MODE: Executing restic backup with --dry-run flag"@,
            ),
        ]
    } else {
        seq![
            emission(Channel::Info, "EXECUTING BACKUP: Running restic backup"@),
            emission(Channel::Stdout, "Executing: "@ + command),
        ]
    })
}

/// The error of an invocation that could not be launched.
pub open spec fn spawn_failure_message(command: Seq<char>, reason: Seq<char>) -> Seq<char> {
    "Failed to execute restic command: "@ + reason
        + ". Make sure 'restic' is installed and available in your PATH. Command attempted: "@
        + command
}

/// The conclusion for an invocation that could not be launched.
pub open spec fn spawn_failure_conclusion(command: Seq<char>, reason: Seq<char>) -> ConclusionView {
    let message = spawn_failure_message(command, reason);
    ConclusionView {
        category: OutcomeCategory::SpawnFailure,
        hints: Hints { repository: false, password: false },
        emissions: seq![
            emission(Channel::Error, message),
            emission(Channel::Stderr, "\n=== COMMAND EXECUTION ERROR ==="@),
            emission(Channel::Stderr, message),
            emission(Channel::Stderr, "===============================\n"@),
        ],
        error: Some(message),
    }
}

/// The captured standard output of a successful run, shown when there is any.
pub open spec fn success_output(stdout: Seq<char>, dry_run: bool) -> Seq<EmissionView> {
    if stdout.len() == 0 {
        seq![]
    } else if dry_run {
        seq![emission(Channel::Info, "Output:\n"@ + stdout)]
    } else {
        seq![
            emission(Channel::Stdout, "\n"@ + stdout),
            emission(Channel::Info, "Output:\n"@ + stdout),
        ]
    }
}

/// The captured standard error of a successful run, which may hold warnings:
/// shown in verbose mode when there is any.
pub open spec fn success_warnings(stderr: Seq<char>, dry_run: bool, verbose: bool) -> Seq<
    EmissionView,
> {
    if !verbose || stderr.len() == 0 {
        seq![]
    } else if dry_run {
        seq![emission(Channel::Debug, "Stderr output:\n"@ + stderr)]
    } else {
        seq![
            emission(Channel::Stderr, "\n"@ + stderr),
            emission(Channel::Debug, "Stderr output:\n"@ + stderr),
        ]
    }
}

/// The conclusion for a process that exited successfully.
pub open spec fn success_conclusion(output: ProcessOutputView, dry_run: bool, verbose: bool) -> ConclusionView {
    ConclusionView {
        category: if dry_run {
            OutcomeCategory::DryRunSuccess
        } else {
            OutcomeCategory::Success
        },
        hints: Hints { repository: false, password: false },
        emissions: seq![
            emission(
                Channel::Info,
                if dry_run {
                    "Dry run completed successfully"@
                } else {
                    "Backup completed successfully"@
                },
            ),
        ] + success_output(output.stdout, dry_run) + success_warnings(
            output.stderr,
            dry_run,
            verbose,
        ),
        error: None,
    }
}

/// One captured stream of a failed run, shown and logged when it holds
/// anything.
pub open spec fn captured_stream(title: Seq<char>, label: Seq<char>, text: Seq<char>) -> Seq<
    EmissionView,
> {
    if text.len() == 0 {
        seq![]
    } else {
        seq![
            emission(Channel::Stderr, title),
            emission(Channel::Stderr, text),
            emission(Channel::Error, label + text),
        ]
    }
}

/// Which credential the initialisation will need, if any is configured.
pub open spec fn credential_note(restic: ResticConfigView) -> Seq<EmissionView> {
    match restic.password_command {
        Some(command) => seq![
            emission(
                Channel::Stderr,
                "   (with RESTIC_PASSWORD_COMMAND='"@ + command + "')"@,
            ),
        ],
        None => if restic.password is Some {
            seq![emission(Channel::Stderr, "   (with RESTIC_PASSWORD set from config)"@)]
        } else {
            seq![]
        },
    }
}

/// Which transport the initialisation will need, if one is configured.
pub open spec fn transport_note(restic: ResticConfigView) -> Seq<EmissionView> {
    match restic.ssh_command {
        Some(command) => seq![
            emission(Channel::Stderr, "   (with RESTIC_SSH_COMMAND='"@ + command + "')"@),
        ],
        None => seq![],
    }
}

/// The suggestion to initialise the repository: the exact command, and which
/// credential and transport are configured. The inline password is named,
/// never shown.
pub open spec fn repository_hint(restic: ResticConfigView) -> Seq<EmissionView> {
    seq![
        emission(Channel::Stderr, "\n\u{1F4A1} SUGGESTION:"@),
        emission(
            Channel::Stderr,
            "   The repository at '"@ + restic.repository
                + "' does not exist or is not accessible."@,
        ),
        emission(Channel::Stderr, "   Initialize it first with:"@),
        emission(Channel::Stderr, "   restic init --repo "@ + restic.repository),
    ] + credential_note(restic) + transport_note(restic)
}

/// The three supported credential mechanisms.
pub open spec fn password_hint() -> Seq<EmissionView> {
    seq![
        emission(Channel::Stderr, "\n\u{1F4A1} PASSWORD ERROR:"@),
        emission(
            Channel::Stderr,
            "   Restic requires a password. Make sure you have configured either:"@,
        ),
        emission(Channel::Stderr, "   - 'password' field in config.yaml (direct password)"@),
        emission(
            Channel::Stderr,
            "   - 'password_command' field in config.yaml (command to retrieve password)"@,
        ),
        emission(Channel::Stderr, "   - Or set RESTIC_PASSWORD environment variable"@),
    ]
}

/// The error of a failed run: the exit code and the captured error output,
/// or the captured output if there is no error output, or the exit code alone.
pub open spec fn failure_message(output: ProcessOutputView, dry_run: bool) -> Seq<char> {
    let subject = if dry_run {
        "Restic dry run failed"@
    } else {
        "Restic backup failed"@
    };
    let code = exit_code_text(output.exit_code);
    if output.stderr.len() > 0 {
        subject + " (exit code: "@ + code + "): "@ + trimmed(output.stderr)
    } else if output.stdout.len() > 0 {
        subject + " (exit code: "@ + code + "): "@ + trimmed(output.stdout)
    } else {
        subject + " with exit code: "@ + code
    }
}

/// What is printed and logged of a failed run whose hints are `hints`.
pub open spec fn failure_emissions(
    command: Seq<char>,
    output: ProcessOutputView,
    hints: Hints,
    restic: ResticConfigView,
    dry_run: bool,
) -> Seq<EmissionView> {
    let code = exit_code_text(output.exit_code);
    seq![
        emission(
            Channel::Error,
            (if dry_run {
                "Dry run failed with exit code: "@
            } else {
                "Backup failed with exit code: "@
            }) + code,
        ),
        emission(
            Channel::Stderr,
            if dry_run {
                "\n=== RESTIC DRY RUN FAILED ==="@
            } else {
                "\n=== RESTIC BACKUP FAILED ==="@
            },
        ),
        emission(Channel::Stderr, "Exit code: "@ + code),
        emission(Channel::Stderr, "\nCommand executed: "@ + command),
    ] + captured_stream("\nStderr output:"@, "Stderr: "@, output.stderr) + captured_stream(
        "\nStdout output:"@,
        "Stdout: "@,
        output.stdout,
    ) + (if hints.repository {
        repository_hint(restic)
    } else {
        seq![]
    }) + (if hints.password {
        password_hint()
    } else {
        seq![]
    }) + seq![emission(Channel::Stderr, "=============================\n"@)]
}

/// The conclusion for a process that exited with a failure, given its error
/// output in lower case.
pub open spec fn failure_conclusion(
    command: Seq<char>,
    output: ProcessOutputView,
    stderr_lower: Seq<char>,
    restic: ResticConfigView,
    dry_run: bool,
) -> ConclusionView {
    let hints = hints_for(false, stderr_lower);
    ConclusionView {
        category: category_for(false, dry_run, stderr_lower),
        hints,
        emissions: failure_emissions(command, output, hints, restic, dry_run),
        error: Some(failure_message(output, dry_run)),
    }
}

/// The conclusion of one invocation shown as `command`.
pub open spec fn conclusion_of(
    command: Seq<char>,
    execution: ExecutionView,
    restic: ResticConfigView,
    dry_run: bool,
    verbose: bool,
) -> ConclusionView {
    match execution {
        ExecutionView::SpawnFailed { reason } => spawn_failure_conclusion(command, reason),
        ExecutionView::Finished(output) => if output.success {
            success_conclusion(output, dry_run, verbose)
        } else {
            failure_conclusion(command, output, lowercase_of(output.stderr), restic, dry_run)
        },
    }
}

fn emit(out: &mut Vec<Emission>, channel: Channel, text: String)
    ensures
        final(out).deep_view() == old(out).deep_view().push(emission(channel, text@)),
{
    let ghost line = emission(channel, text@);
    out.push(Emission { channel, text });
    assert(out.deep_view() =~= old(out).deep_view().push(line));
}

fn emit_text(out: &mut Vec<Emission>, channel: Channel, text: &str)
    ensures
        final(out).deep_view() == old(out).deep_view().push(emission(channel, text@)),
{
    emit(out, channel, String::from_str(text));
}

fn join2(a: &str, b: &str) -> (text: String)
    ensures
        text@ == a@ + b@,
{
    let mut text = String::from_str(a);
    text.append(b);
    text
}

fn join3(a: &str, b: &str, c: &str) -> (text: String)
    ensures
        text@ == a@ + b@ + c@,
{
    let mut text = String::from_str(a);
    text.append(b);
    text.append(c);
    text
}

/// Writes an exit code as it is reported.
pub fn format_exit_code(code: Option<i32>) -> (text: String)
    ensures
        text@ == exit_code_text(code),
{
    match code {
        Some(code) => {
            let number = format_i32(code);
            join3("Some(", number.as_str(), ")")
        },
        None => String::from_str("None"),
    }
}

/// Announces the command that is about to be spawned.
pub fn announce(command: &str, readable: &str, dry_run: bool, verbose: bool) -> (lines: Vec<
    Emission,
>)
    ensures
        lines.deep_view() == announcement(command@, readable@, dry_run, verbose),
{
    let mut lines: Vec<Emission> = Vec::new();
    emit(&mut lines, Channel::Info, join2("Restic command: ", command));
    if verbose {
        emit(&mut lines, Channel::Debug, join2("Readable command: ", readable));
    }
    if dry_run {
        emit_text(
            &mut lines,
            Channel::Info,
            "DRY RUN MODE: Executing restic backup with --dry-run flag",
        );
    } else {
        emit_text(&mut lines, Channel::Info, "EXECUTING BACKUP: Running restic backup");
        emit(&mut lines, Channel::Stdout, join2("Executing: ", command));
    }
    assert(lines.deep_view() =~= announcement(command@, readable@, dry_run, verbose));
    lines
}

/// A backup that is ready to be spawned.
#[derive(Clone, Debug, PartialEq, Eq)]
pub struct Launch {
    /// What to spawn.
    pub invocation: Invocation,
    /// What to print and log before spawning it.
    pub emissions: Vec<Emission>,
}

/// Mathematical model of a [`Launch`].
pub struct LaunchView {
    pub invocation: InvocationView,
    pub emissions: Seq<EmissionView>,
}

impl View for Launch {
    type V = LaunchView;

    open spec fn view(&self) -> LaunchView {
        LaunchView { invocation: self.invocation@, emissions: self.emissions.deep_view() }
    }
}

/// The backup of `backup` into the repository of `restic`, ready to be
/// spawned.
pub open spec fn launch_of(
    backup: BackupConfigView,
    restic: ResticConfigView,
    dry_run: bool,
    verbose: bool,
) -> LaunchView {
    let invocation = backup_invocation(backup, restic, dry_run, verbose);
    LaunchView {
        invocation,
        emissions: announcement(
            command_line(invocation),
            readable_command(backup, restic, dry_run),
            dry_run,
            verbose,
        ),
    }
}

/// Prepares one backup run: builds the invocation and announces it.
pub fn prepare_backup(
    backup: &BackupConfig,
    restic: &ResticConfig,
    dry_run: bool,
    verbose: bool,
) -> (launch: Launch)
    ensures
        launch@ == launch_of(backup@, restic@, dry_run, verbose),
{
    let invocation = build_backup_invocation(backup, restic, dry_run, verbose);
    let command = render_command(&invocation);
    let readable = if verbose {
        render_readable_command(backup, restic, dry_run)
    } else {
        String::new()
    };
    let emissions = announce(command.as_str(), readable.as_str(), dry_run, verbose);
    assert(emissions.deep_view() =~= launch_of(backup@, restic@, dry_run, verbose).emissions);
    Launch { invocation, emissions }
}

/// Concludes an invocation that could not be launched: `reason` is what the
/// operating system said.
pub fn conclude_spawn_failure(command: &str, reason: &str) -> (conclusion: Conclusion)
    ensures
        conclusion@ == spawn_failure_conclusion(command@, reason@),
{
    let mut message = join3(
        "Failed to execute restic command: ",
        reason,
        ". Make sure 'restic' is installed and available in your PATH. Command attempted: ",
    );
    message.append(command);
    let mut emissions: Vec<Emission> = Vec::new();
    emit_text(&mut emissions, Channel::Error, message.as_str());
    emit_text(&mut emissions, Channel::Stderr, "\n=== COMMAND EXECUTION ERROR ===");
    emit_text(&mut emissions, Channel::Stderr, message.as_str());
    emit_text(&mut emissions, Channel::Stderr, "===============================\n");
    assert(emissions.deep_view() =~= spawn_failure_conclusion(command@, reason@).emissions);
    Conclusion {
        category: OutcomeCategory::SpawnFailure,
        hints: Hints { repository: false, password: false },
        emissions,
        error: Some(message),
    }
}

/// Concludes a process that exited successfully.
pub fn conclude_success(output: &ProcessOutput, dry_run: bool, verbose: bool) -> (conclusion:
    Conclusion)
    ensures
        conclusion@ == success_conclusion(output@, dry_run, verbose),
{
    let stdout = output.stdout.as_str();
    let stderr = output.stderr.as_str();
    let mut emissions: Vec<Emission> = Vec::new();
    if dry_run {
        emit_text(&mut emissions, Channel::Info, "Dry run completed successfully");
    } else {
        emit_text(&mut emissions, Channel::Info, "Backup completed successfully");
    }
    if stdout.unicode_len() > 0 {
        if !dry_run {
            emit(&mut emissions, Channel::Stdout, join2("\n", stdout));
        }
        emit(&mut emissions, Channel::Info, join2("Output:\n", stdout));
    }
    if verbose && stderr.unicode_len() > 0 {
        if !dry_run {
            emit(&mut emissions, Channel::Stderr, join2("\n", stderr));
        }
        emit(&mut emissions, Channel::Debug, join2("Stderr output:\n", stderr));
    }
    assert(emissions.deep_view() =~= success_conclusion(output@, dry_run, verbose).emissions);
    Conclusion {
        category: if dry_run {
            OutcomeCategory::DryRunSuccess
        } else {
            OutcomeCategory::Success
        },
        hints: Hints { repository: false, password: false },
        emissions,
        error: None,
    }
}

fn emit_captured_stream(out: &mut Vec<Emission>, title: &str, label: &str, text: &str)
    ensures
        final(out).deep_view() == old(out).deep_view() + captured_stream(title@, label@, text@),
{
    if text.unicode_len() > 0 {
        emit_text(out, Channel::Stderr, title);
        emit_text(out, Channel::Stderr, text);
        emit(out, Channel::Error, join2(label, text));
    }
    assert(out.deep_view() =~= old(out).deep_view() + captured_stream(title@, label@, text@));
}

fn emit_repository_hint(out: &mut Vec<Emission>, restic: &ResticConfig)
    ensures
        final(out).deep_view() == old(out).deep_view() + repository_hint(restic@),
{
    let repository = restic.repository.as_str();
    emit_text(out, Channel::Stderr, "\n\u{1F4A1} SUGGESTION:");
    emit(
        out,
        Channel::Stderr,
        join3("   The repository at '", repository, "' does not exist or is not accessible."),
    );
    emit_text(out, Channel::Stderr, "   Initialize it first with:");
    emit(out, Channel::Stderr, join2("   restic init --repo ", repository));
    match &restic.password_command {
        Some(command) => {
            emit(
                out,
                Channel::Stderr,
                join3("   (with RESTIC_PASSWORD_COMMAND='", command.as_str(), "')"),
            );
        },
        None => {
            if restic.password.is_some() {
                emit_text(out, Channel::Stderr, "   (with RESTIC_PASSWORD set from config)");
            }
        },
    }
    match &restic.ssh_command {
        Some(command) => {
            emit(
                out,
                Channel::Stderr,
                join3("   (with RESTIC_SSH_COMMAND='", command.as_str(), "')"),
            );
        },
        None => {},
    }
    assert(out.deep_view() =~= old(out).deep_view() + repository_hint(restic@));
}

fn emit_password_hint(out: &mut Vec<Emission>)
    ensures
        final(out).deep_view() == old(out).deep_view() + password_hint(),
{
    emit_text(out, Channel::Stderr, "\n\u{1F4A1} PASSWORD ERROR:");
    emit_text(
        out,
        Channel::Stderr,
        "   Restic requires a password. Make sure you have configured either:",
    );
    emit_text(out, Channel::Stderr, "   - 'password' field in config.yaml (direct password)");
    emit_text(
        out,
        Channel::Stderr,
        "   - 'password_command' field in config.yaml (command to retrieve password)",
    );
    emit_text(out, Channel::Stderr, "   - Or set RESTIC_PASSWORD environment variable");
    assert(out.deep_view() =~= old(out).deep_view() + password_hint());
}

/// Writes the error of a failed run.
pub fn format_failure_message(output: &ProcessOutput, dry_run: bool) -> (message: String)
    ensures
        message@ == failure_message(output@, dry_run),
{
    let code = format_exit_code(output.exit_code);
    let mut message = String::from_str(
        if dry_run {
            "Restic dry run failed"
        } else {
            "Restic backup failed"
        },
    );
    if output.stderr.as_str().unicode_len() > 0 {
        message.append(" (exit code: ");
        message.append(code.as_str());
        message.append("): ");
        message.append(trim(output.stderr.as_str()));
    } else if output.stdout.as_str().unicode_len() > 0 {
        message.append(" (exit code: ");
        message.append(code.as_str());
        message.append("): ");
        message.append(trim(output.stdout.as_str()));
    } else {
        message.append(" with exit code: ");
        message.append(code.as_str());
    }
    message
}

/// Concludes a process that exited with a failure, given its error output
/// in lower case.
pub fn conclude_failure(
    command: &str,
    output: &ProcessOutput,
    stderr_lower: &str,
    restic: &ResticConfig,
    dry_run: bool,
) -> (conclusion: Conclusion)
    ensures
        conclusion@ == failure_conclusion(command@, output@, stderr_lower@, restic@, dry_run),
{
    let hints = pick_hints(false, stderr_lower);
    let category = hints.category();
    let code = format_exit_code(output.exit_code);
    let mut emissions: Vec<Emission> = Vec::new();
    if dry_run {
        emit(&mut emissions, Channel::Error, join2("Dry run failed with exit code: ", code.as_str()));
        emit_text(&mut emissions, Channel::Stderr, "\n=== RESTIC DRY RUN FAILED ===");
    } else {
        emit(&mut emissions, Channel::Error, join2("Backup failed with exit code: ", code.as_str()));
        emit_text(&mut emissions, Channel::Stderr, "\n=== RESTIC BACKUP FAILED ===");
    }
    emit(&mut emissions, Channel::Stderr, join2("Exit code: ", code.as_str()));
    emit(&mut emissions, Channel::Stderr, join2("\nCommand executed: ", command));
    emit_captured_stream(&mut emissions, "\nStderr output:", "Stderr: ", output.stderr.as_str());
    emit_captured_stream(&mut emissions, "\nStdout output:", "Stdout: ", output.stdout.as_str());
    if hints.repository {
        emit_repository_hint(&mut emissions, restic);
    }
    if hints.password {
        emit_password_hint(&mut emissions);
    }
    emit_text(&mut emissions, Channel::Stderr, "=============================\n");
    assert(emissions.deep_view() =~= failure_emissions(
        command@,
        output@,
        hints,
        restic@,
        dry_run,
    ));
    let message = format_failure_message(output, dry_run);
    Conclusion { category, hints, emissions, error: Some(message) }
}

/// Concludes one invocation: classifies how it ended and says what to print,
/// what to log and what error, if any, to hand to the caller.
pub fn conclude(
    invocation: &Invocation,
    execution: &Execution,
    restic: &ResticConfig,
    dry_run: bool,
    verbose: bool,
) -> (conclusion: Conclusion)
    ensures
        conclusion@ == conclusion_of(
            command_line(invocation@),
            execution@,
            restic@,
            dry_run,
            verbose,
        ),
{
    let command = render_command(invocation);
    match execution {
        Execution::SpawnFailed { reason } => conclude_spawn_failure(
            command.as_str(),
            reason.as_str(),
        ),
        Execution::Finished(output) => {
            if output.success {
                conclude_success(output, dry_run, verbose)
            } else {
                let lower = output.stderr.as_str().to_lowercase();
                conclude_failure(command.as_str(), output, lower.as_str(), restic, dry_run)
            }
        },
    }
}

/// A failed run whose error output holds a repository phrase and the word
/// `password` is told both remedies: the suggestion to initialise the
/// repository comes first, the credential mechanisms after it.
pub proof fn lemma_failure_shows_both_hints(
    command: Seq<char>,
    output: ProcessOutputView,
    stderr_lower: Seq<char>,
    restic: ResticConfigView,
    dry_run: bool,
)
    requires
        repository_phrase(stderr_lower),
        contains(stderr_lower, "password"@),
    ensures
        ({
            let conclusion = failure_conclusion(command, output, stderr_lower, restic, dry_run);
            &&& conclusion.category == OutcomeCategory::RepositoryUninitialized
            &&& conclusion.hints.repository
            &&& conclusion.hints.password
            &&& exists|i: int, j: int|
                0 <= i < j < conclusion.emissions.len() && #[trigger] conclusion.emissions[i]
                    == repository_hint(restic)[0] && #[trigger] conclusion.emissions[j]
                    == password_hint()[0]
        }),
{
    let conclusion = failure_conclusion(command, output, stderr_lower, restic, dry_run);
    let streams = captured_stream("\nStderr output:"@, "Stderr: "@, output.stderr)
        + captured_stream("\nStdout output:"@, "Stdout: "@, output.stdout);
    let i: int = 4 + streams.len() as int;
    let j: int = i + repository_hint(restic).len() as int;
    assert(conclusion.emissions[i] == repository_hint(restic)[0]);
    assert(conclusion.emissions[j] == password_hint()[0]);
}

/// Every outcome is logged at the severity it deserves: a success at `Info`
/// and never at `Error`, a failure at `Error` first and never at `Info`.
pub proof fn lemma_logged_severity(
    command: Seq<char>,
    execution: ExecutionView,
    restic: ResticConfigView,
    dry_run: bool,
    verbose: bool,
)
    ensures
        ({
            let conclusion = conclusion_of(command, execution, restic, dry_run, verbose);
            let lines = conclusion.emissions;
            &&& conclusion.category == outcome_category(execution, dry_run)
            &&& conclusion.error is None <==> conclusion.category.is_success()
            &&& lines.len() > 0
            &&& conclusion.category.is_success() ==> lines[0].channel == Channel::Info
                && forall|i: int| 0 <= i < lines.len() ==> (#[trigger] lines[i]).channel
                    != Channel::Error
            &&& !conclusion.category.is_success() ==> lines[0].channel == Channel::Error
                && forall|i: int| 0 <= i < lines.len() ==> (#[trigger] lines[i]).channel
                    != Channel::Info
        }),
{
    let conclusion = conclusion_of(command, execution, restic, dry_run, verbose);
    let lines = conclusion.emissions;
    match execution {
        ExecutionView::SpawnFailed { reason } => {},
        ExecutionView::Finished(output) => {
            if output.success {
                let shown = success_output(output.stdout, dry_run);
                let warned = success_warnings(output.stderr, dry_run, verbose);
                assert forall|i: int| 0 <= i < lines.len() implies (#[trigger] lines[i]).channel
                    != Channel::Error by {
                    if 1 <= i < 1 + shown.len() {
                        assert(lines[i] == shown[i - 1]);
                    } else if i >= 1 + shown.len() {
                        assert(lines[i] == warned[i - 1 - shown.len()]);
                    }
                }
            } else {
                let lower = lowercase_of(output.stderr);
                let hints = hints_for(false, lower);
                lemma_failure_channels(command, output, hints, restic, dry_run);
            }
        },
    }
}

/// The report of a failure goes to the error stream and to the log at
/// `Error`, and nowhere else.
pub proof fn lemma_failure_channels(
    command: Seq<char>,
    output: ProcessOutputView,
    hints: Hints,
    restic: ResticConfigView,
    dry_run: bool,
)
    ensures
        ({
            let lines = failure_emissions(command, output, hints, restic, dry_run);
            &&& lines.len() >= 5
            &&& lines[0].channel == Channel::Error
            &&& forall|i: int|
                0 <= i < lines.len() ==> (#[trigger] lines[i]).channel == Channel::Error
                    || lines[i].channel == Channel::Stderr
        }),
{
    let lines = failure_emissions(command, output, hints, restic, dry_run);
    let err = captured_stream("\nStderr output:"@, "Stderr: "@, output.stderr);
    let out = captured_stream("\nStdout output:"@, "Stdout: "@, output.stdout);
    let repo = if hints.repository {
        repository_hint(restic)
    } else {
        seq![]
    };
    let pass = if hints.password {
        password_hint()
    } else {
        seq![]
    };
    let a: int = 4;
    let b: int = a + err.len() as int;
    let c: int = b + out.len() as int;
    let d: int = c + repo.len() as int;
    let e: int = d + pass.len() as int;
    assert(lines.len() == e + 1);
    assert forall|i: int| 0 <= i < lines.len() implies (#[trigger] lines[i]).channel
        == Channel::Error || lines[i].channel == Channel::Stderr by {
        if i < a {
        } else if i < b {
            assert(lines[i] == err[i - a]);
        } else if i < c {
            assert(lines[i] == out[i - b]);
        } else if i < d {
            assert(lines[i] == repo[i - c]);
            let notes = credential_note(restic) + transport_note(restic);
            if i - c >= 4 {
                assert(repo[i - c] == notes[i - c - 4]);
            }
        } else if i < e {
            assert(lines[i] == pass[i - d]);
        } else {
        }
    }
}

/// A report never shows the inline password: it is decided by whether one is
/// configured, not by what it is.
pub proof fn lemma_report_hides_password(
    command: Seq<char>,
    execution: ExecutionView,
    restic1: ResticConfigView,
    restic2: ResticConfigView,
    dry_run: bool,
    verbose: bool,
)
    requires
        restic1.repository == restic2.repository,
        restic1.ssh_command == restic2.ssh_command,
        restic1.password_command == restic2.password_command,
        restic1.password is Some <==> restic2.password is Some,
    ensures
        conclusion_of(command, execution, restic1, dry_run, verbose) == conclusion_of(
            command,
            execution,
            restic2,
            dry_run,
            verbose,
        ),
{
    assert(credential_note(restic1) == credential_note(restic2));
    assert(repository_hint(restic1) == repository_hint(restic2));
}

/// What is announced of a backup never shows the inline password, nor
/// anything else that travels in the environment.
pub proof fn lemma_announcement_hides_environment(
    backup: BackupConfigView,
    restic1: ResticConfigView,
    restic2: ResticConfigView,
    dry_run: bool,
    verbose: bool,
)
    requires
        restic1.repository == restic2.repository,
        restic1.password_command == restic2.password_command,
    ensures
        launch_of(backup, restic1, dry_run, verbose).emissions == launch_of(
            backup,
            restic2,
            dry_run,
            verbose,
        ).emissions,
{
}

} // verus!
