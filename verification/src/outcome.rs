//! The outcome classifier: what a finished `restic` process left behind, read
//! as one of six categories.
//!
//! Failures are told apart by matching phrases in the tool's human-readable
//! error output. The phrases are tied to the wording of the wrapped tool: a
//! change of wording in a later release silently turns a recognised failure
//! into a generic one.

use vstd::prelude::*;
use vstd::string::*;
use crate::case::lowercase_of;
use crate::text::{chars_of, contains, occurs_at, occurs_in};

verus! {

/// The classified result of one invocation.
#[derive(Clone, Copy, Debug, PartialEq, Eq)]
pub enum OutcomeCategory {
    /// The backup completed.
    Success,
    /// The dry run completed; no data was written.
    DryRunSuccess,
    /// The repository does not exist or was never initialised.
    RepositoryUninitialized,
    /// The repository password is missing or wrong.
    PasswordError,
    /// The tool failed for a reason that no rule recognises.
    GenericFailure,
    /// The tool could not be launched at all.
    SpawnFailure,
}

/// What a child process that ran to completion left behind.
#[derive(Clone, Debug, PartialEq, Eq)]
pub struct ProcessOutput {
    /// Whether the exit status indicates success.
    pub success: bool,
    /// The exit code, absent when a signal ended the process.
    pub exit_code: Option<i32>,
    /// Everything the process wrote to its standard output.
    pub stdout: String,
    /// Everything the process wrote to its standard error.
    pub stderr: String,
}

/// Mathematical model of a [`ProcessOutput`].
pub struct ProcessOutputView {
    pub success: bool,
    pub exit_code: Option<i32>,
    pub stdout: Seq<char>,
    pub stderr: Seq<char>,
}

impl View for ProcessOutput {
    type V = ProcessOutputView;

    open spec fn view(&self) -> ProcessOutputView {
        ProcessOutputView {
            success: self.success,
            exit_code: self.exit_code,
            stdout: self.stdout@,
            stderr: self.stderr@,
        }
    }
}

/// The text that a byte stream is read as: its UTF-8 decoding, with U+FFFD
/// in place of whatever is no valid UTF-8.
pub uninterp spec fn lossy_text(bytes: Seq<u8>) -> Seq<char>;

/// `String::from_utf8_lossy`, made an owned `String`. The decoding is
/// believed to be one fixed function of the bytes; nothing more is claimed
/// of what that function is.
#[verifier::external_body]
fn decode_lossy(bytes: &[u8]) -> (text: String)
    ensures
        text@ == lossy_text(bytes@),
{
    String::from_utf8_lossy(bytes).into_owned()
}

impl ProcessOutput {
    /// Reads the captured streams of a finished process as text.
    pub fn capture(success: bool, exit_code: Option<i32>, stdout: &[u8], stderr: &[u8]) -> (output:
        ProcessOutput)
        ensures
            output@ == (ProcessOutputView {
                success,
                exit_code,
                stdout: lossy_text(stdout@),
                stderr: lossy_text(stderr@),
            }),
    {
        ProcessOutput {
            success,
            exit_code,
            stdout: decode_lossy(stdout),
            stderr: decode_lossy(stderr),
        }
    }
}

/// How the attempt to run an invocation ended.
#[derive(Clone, Debug, PartialEq, Eq)]
pub enum Execution {
    /// The process was spawned and ran to completion.
    Finished(ProcessOutput),
    /// The executable could not be launched; `reason` says why.
    SpawnFailed { reason: String },
}

/// Mathematical model of an [`Execution`].
pub enum ExecutionView {
    Finished(ProcessOutputView),
    SpawnFailed { reason: Seq<char> },
}

impl View for Execution {
    type V = ExecutionView;

    open spec fn view(&self) -> ExecutionView {
        match self {
            Execution::Finished(output) => ExecutionView::Finished(output@),
            Execution::SpawnFailed { reason } => ExecutionView::SpawnFailed { reason: reason@ },
        }
    }
}

/// The lower-case error output speaks of a repository that is not there.
pub open spec fn repository_phrase(lower: Seq<char>) -> bool {
    ||| contains(lower, "unable to open config file"@)
    ||| contains(lower, "is there a repository"@)
    ||| contains(lower, "repository not found"@)
}

/// The lower-case error output speaks of a password.
pub open spec fn password_phrase(lower: Seq<char>) -> bool {
    ||| contains(lower, "empty password"@)
    ||| contains(lower, "password"@)
}

/// The category of a process that ran to completion, by priority: success
/// first, then the repository rule, then the password rule.
pub open spec fn category_for(success: bool, dry_run: bool, lower: Seq<char>) -> OutcomeCategory {
    if success {
        if dry_run {
            OutcomeCategory::DryRunSuccess
        } else {
            OutcomeCategory::Success
        }
    } else if repository_phrase(lower) {
        OutcomeCategory::RepositoryUninitialized
    } else if password_phrase(lower) {
        OutcomeCategory::PasswordError
    } else {
        OutcomeCategory::GenericFailure
    }
}

/// The category of an execution; the error output is matched in lower case.
pub open spec fn outcome_category(execution: ExecutionView, dry_run: bool) -> OutcomeCategory {
    match execution {
        ExecutionView::SpawnFailed { .. } => OutcomeCategory::SpawnFailure,
        ExecutionView::Finished(output) => category_for(
            output.success,
            dry_run,
            lowercase_of(output.stderr),
        ),
    }
}

/// The remediation hints that a failure calls for. The two rules are
/// independent: both may fire for one failure.
#[derive(Clone, Copy, Debug, PartialEq, Eq)]
pub struct Hints {
    /// Suggest initialising the repository.
    pub repository: bool,
    /// List the supported credential mechanisms.
    pub password: bool,
}

impl Hints {
    /// The category of a failure with these hints: the repository rule comes
    /// before the password rule.
    pub open spec fn failure_category(self) -> OutcomeCategory {
        if self.repository {
            OutcomeCategory::RepositoryUninitialized
        } else if self.password {
            OutcomeCategory::PasswordError
        } else {
            OutcomeCategory::GenericFailure
        }
    }

    /// The category of a failure with these hints.
    pub fn category(self) -> (category: OutcomeCategory)
        ensures
            category == self.failure_category(),
    {
        if self.repository {
            OutcomeCategory::RepositoryUninitialized
        } else if self.password {
            OutcomeCategory::PasswordError
        } else {
            OutcomeCategory::GenericFailure
        }
    }
}

/// The hints for a process that ran to completion.
pub open spec fn hints_for(success: bool, lower: Seq<char>) -> Hints {
    Hints {
        repository: !success && repository_phrase(lower),
        password: !success && password_phrase(lower),
    }
}

/// Whether lower-case error output speaks of a repository that is not there.
pub fn mentions_missing_repository(lower: &str) -> (found: bool)
    ensures
        found == repository_phrase(lower@),
{
    let chars = chars_of(lower);
    occurs_in(&chars, "unable to open config file") || occurs_in(&chars, "is there a repository")
        || occurs_in(&chars, "repository not found")
}

/// Whether lower-case error output speaks of a password.
pub fn mentions_password(lower: &str) -> (found: bool)
    ensures
        found == password_phrase(lower@),
{
    let chars = chars_of(lower);
    occurs_in(&chars, "empty password") || occurs_in(&chars, "password")
}

/// Classifies a process that ran to completion, given its error output in
/// lower case.
pub fn categorize(success: bool, dry_run: bool, stderr_lower: &str) -> (category: OutcomeCategory)
    ensures
        category == category_for(success, dry_run, stderr_lower@),
{
    if success {
        if dry_run {
            OutcomeCategory::DryRunSuccess
        } else {
            OutcomeCategory::Success
        }
    } else if mentions_missing_repository(stderr_lower) {
        OutcomeCategory::RepositoryUninitialized
    } else if mentions_password(stderr_lower) {
        OutcomeCategory::PasswordError
    } else {
        OutcomeCategory::GenericFailure
    }
}

/// Picks the remediation hints for a process that ran to completion, given
/// its error output in lower case.
pub fn pick_hints(success: bool, stderr_lower: &str) -> (hints: Hints)
    ensures
        hints == hints_for(success, stderr_lower@),
{
    if success {
        Hints { repository: false, password: false }
    } else {
        Hints {
            repository: mentions_missing_repository(stderr_lower),
            password: mentions_password(stderr_lower),
        }
    }
}

/// Classifies the end of one invocation.
pub fn classify(execution: &Execution, dry_run: bool) -> (category: OutcomeCategory)
    ensures
        category == outcome_category(execution@, dry_run),
{
    match execution {
        Execution::SpawnFailed { .. } => OutcomeCategory::SpawnFailure,
        Execution::Finished(output) => {
            let lower = output.stderr.as_str().to_lowercase();
            categorize(output.success, dry_run, lower.as_str())
        },
    }
}

impl OutcomeCategory {
    /// Whether the invocation did what it was asked to do.
    pub open spec fn is_success(self) -> bool {
        self is Success || self is DryRunSuccess
    }

    /// The exit code of the command-line surface: zero exactly on success.
    pub open spec fn exit_code(self) -> i32 {
        if self.is_success() {
            0
        } else {
            1
        }
    }

    /// The exit code with which the command-line surface ends.
    pub fn process_exit_code(self) -> (code: i32)
        ensures
            code == self.exit_code(),
            code == 0 <==> self.is_success(),
    {
        match self {
            OutcomeCategory::Success => 0,
            OutcomeCategory::DryRunSuccess => 0,
            _ => 1,
        }
    }
}

/// A failed run whose error output names a repository that was not found is
/// classified as an uninitialised repository, never as a generic failure.
pub proof fn lemma_repository_not_found(dry_run: bool, lower: Seq<char>)
    requires
        contains(lower, "repository not found"@),
    ensures
        category_for(false, dry_run, lower) == OutcomeCategory::RepositoryUninitialized,
        hints_for(false, lower).repository,
{
}

/// The same of a whole execution: the error output is matched in lower
/// case, so the phrase is found however it was capitalised.
pub proof fn lemma_repository_not_found_execution(output: ProcessOutputView, dry_run: bool)
    requires
        !output.success,
        contains(lowercase_of(output.stderr), "repository not found"@),
    ensures
        outcome_category(ExecutionView::Finished(output), dry_run)
            == OutcomeCategory::RepositoryUninitialized,
        outcome_category(ExecutionView::Finished(output), dry_run) != OutcomeCategory::GenericFailure,
{
}

/// The category of a failure is the first of its hints, and generic where
/// it has none.
pub proof fn lemma_failure_category(dry_run: bool, lower: Seq<char>)
    ensures
        category_for(false, dry_run, lower) == hints_for(false, lower).failure_category(),
{
}

/// A failed run whose error output holds a repository phrase and the word
/// `password` gets both remediation hints.
pub proof fn lemma_both_hints(lower: Seq<char>)
    requires
        repository_phrase(lower),
        contains(lower, "password"@),
    ensures
        hints_for(false, lower).repository,
        hints_for(false, lower).password,
{
}

/// The password rule amounts to the single word: whatever holds
/// `empty password` holds `password`.
pub proof fn lemma_password_phrase(lower: Seq<char>)
    ensures
        password_phrase(lower) == contains(lower, "password"@),
{
    reveal_strlit("empty password");
    reveal_strlit("password");
    if contains(lower, "empty password"@) {
        let at = choose|at: int| occurs_at(lower, "empty password"@, at);
        assert(lower.subrange(at + 6, at + 14) =~= "empty password"@.subrange(6, 14));
        assert("empty password"@.subrange(6, 14) =~= "password"@);
        assert(occurs_at(lower, "password"@, at + 6));
    }
}

/// A run is a success exactly when the process was launched and exited
/// successfully; whether it was a dry run decides which of the two successes.
pub proof fn lemma_success_categories(execution: ExecutionView, dry_run: bool)
    ensures
        outcome_category(execution, dry_run).is_success() <==> (execution matches ExecutionView::Finished(
            output,
        ) && output.success),
        outcome_category(execution, dry_run) is DryRunSuccess ==> dry_run,
        outcome_category(execution, dry_run) is Success ==> !dry_run,
{
}

} // verus!
