//! The decisions of the service surface: what a trigger request sets in
//! motion, what becomes of a configuration update, and what is answered.
//!
//! Serving HTTP, holding the lock and running the process are the caller's
//! work; every function here goes from plain values to plain values.

use vstd::prelude::*;
use vstd::string::*;
use crate::config::{BackupConfig, BackupConfigView, Config, ConfigView, ResticConfig, ResticConfigView};

verus! {

/// The body of a request to trigger a backup.
#[derive(Clone, Copy, Debug, PartialEq, Eq)]
pub struct BackupRequest {
    /// Whether to run without writing data; absent means no.
    pub dry_run: Option<bool>,
}

/// The body of a request to replace the configuration.
#[derive(Clone, Debug, PartialEq, Eq)]
pub struct UpdateYamlRequest {
    /// The new content of the configuration file.
    pub yaml: String,
}

/// The status with which the service answers a request.
#[derive(Clone, Copy, Debug, PartialEq, Eq)]
pub enum ResponseStatus {
    /// The request was carried out.
    Done,
    /// The request itself is at fault.
    BadRequest,
    /// The service could not carry the request out.
    InternalServerError,
}

impl ResponseStatus {
    /// The HTTP status code.
    pub open spec fn code(self) -> u16 {
        match self {
            ResponseStatus::Done => 200,
            ResponseStatus::BadRequest => 400,
            ResponseStatus::InternalServerError => 500,
        }
    }

    /// The HTTP status code.
    pub fn http_code(self) -> (code: u16)
        ensures
            code == self.code(),
    {
        match self {
            ResponseStatus::Done => 200,
            ResponseStatus::BadRequest => 400,
            ResponseStatus::InternalServerError => 500,
        }
    }
}

/// The acknowledgment of a trigger request. It says that the backup was
/// admitted, not how it ended.
#[derive(Clone, Debug, PartialEq, Eq)]
pub struct TriggerAck {
    pub success: bool,
    pub message: String,
    pub dry_run: bool,
}

/// Mathematical model of a [`TriggerAck`].
pub struct TriggerAckView {
    pub success: bool,
    pub message: Seq<char>,
    pub dry_run: bool,
}

impl View for TriggerAck {
    type V = TriggerAckView;

    open spec fn view(&self) -> TriggerAckView {
        TriggerAckView { success: self.success, message: self.message@, dry_run: self.dry_run }
    }
}

/// What a trigger request sets in motion: the background run, on a copy of
/// the configuration as it was when the request came in, and the
/// acknowledgment to send at once.
#[derive(Clone, Debug, PartialEq, Eq)]
pub struct TriggerPlan {
    pub backup: BackupConfig,
    pub restic: ResticConfig,
    pub dry_run: bool,
    pub verbose: bool,
    pub ack: TriggerAck,
}

/// Mathematical model of a [`TriggerPlan`].
pub struct TriggerPlanView {
    pub backup: BackupConfigView,
    pub restic: ResticConfigView,
    pub dry_run: bool,
    pub verbose: bool,
    pub ack: TriggerAckView,
}

impl View for TriggerPlan {
    type V = TriggerPlanView;

    open spec fn view(&self) -> TriggerPlanView {
        TriggerPlanView {
            backup: self.backup@,
            restic: self.restic@,
            dry_run: self.dry_run,
            verbose: self.verbose,
            ack: self.ack@,
        }
    }
}

/// Whether a request asks for a dry run.
pub open spec fn requested_dry_run(request: BackupRequest) -> bool {
    match request.dry_run {
        Some(dry_run) => dry_run,
        None => false,
    }
}

/// The acknowledgment of a trigger request.
pub open spec fn trigger_ack(request: BackupRequest) -> TriggerAckView {
    TriggerAckView {
        success: true,
        message: if requested_dry_run(request) {
            "Dry run backup triggered"@
        } else {
            "Backup triggered"@
        },
        dry_run: requested_dry_run(request),
    }
}

/// The plan for a trigger request that meets the configuration `config`.
/// Triggered runs are always verbose.
pub open spec fn trigger_plan(request: BackupRequest, config: ConfigView) -> TriggerPlanView {
    TriggerPlanView {
        backup: config.backup,
        restic: config.restic,
        dry_run: requested_dry_run(request),
        verbose: true,
        ack: trigger_ack(request),
    }
}

/// Plans a triggered backup from a read snapshot of the configuration.
///
/// The caller spawns the run as a detached task and replies with the
/// acknowledgment without waiting for it.
pub fn plan_trigger(request: &BackupRequest, config: &Config) -> (plan: TriggerPlan)
    ensures
        plan@ == trigger_plan(*request, config@),
{
    let dry_run = match request.dry_run {
        Some(dry_run) => dry_run,
        None => false,
    };
    let message = if dry_run {
        String::from_str("Dry run backup triggered")
    } else {
        String::from_str("Backup triggered")
    };
    TriggerPlan {
        backup: config.backup.duplicate(),
        restic: config.restic.duplicate(),
        dry_run,
        verbose: true,
        ack: TriggerAck { success: true, message, dry_run },
    }
}

/// The acknowledgment of a trigger is decided by the request alone: it
/// reports admission, whatever the configuration holds and however the run
/// will end.
pub proof fn lemma_ack_reports_admission(
    request: BackupRequest,
    config1: ConfigView,
    config2: ConfigView,
)
    ensures
        trigger_plan(request, config1).ack == trigger_plan(request, config2).ack,
        trigger_plan(request, config1).ack.success,
        trigger_plan(request, config1).ack.dry_run == trigger_plan(request, config1).dry_run,
{
}

/// The first decision on a configuration update, taken once its text has
/// been parsed.
#[derive(Clone, Debug, PartialEq, Eq)]
pub enum UpdateDecision {
    /// The text is no well-formed configuration: answer with a client
    /// error, write nothing and keep the configuration in memory.
    Reject,
    /// The text is well formed: write it to the configuration file before
    /// anything else changes.
    Persist { yaml: String, candidate: Config },
}

/// Mathematical model of an [`UpdateDecision`].
pub enum UpdateDecisionView {
    Reject,
    Persist { yaml: Seq<char>, candidate: ConfigView },
}

impl View for UpdateDecision {
    type V = UpdateDecisionView;

    open spec fn view(&self) -> UpdateDecisionView {
        match self {
            UpdateDecision::Reject => UpdateDecisionView::Reject,
            UpdateDecision::Persist { yaml, candidate } => UpdateDecisionView::Persist {
                yaml: yaml@,
                candidate: candidate@,
            },
        }
    }
}

/// The decision on an update whose text parsed to `parsed`.
pub open spec fn update_decision(yaml: Seq<char>, parsed: Option<ConfigView>) -> UpdateDecisionView {
    match parsed {
        Some(candidate) => UpdateDecisionView::Persist { yaml, candidate },
        None => UpdateDecisionView::Reject,
    }
}

/// Decides what to do with an update request: `parsed` is the configuration
/// that its text denotes, if it denotes one.
pub fn decide_update(request: UpdateYamlRequest, parsed: Option<Config>) -> (decision:
    UpdateDecision)
    ensures
        decision@ == update_decision(request.yaml@, parsed.deep_view()),
{
    match parsed {
        Some(candidate) => UpdateDecision::Persist { yaml: request.yaml, candidate },
        None => UpdateDecision::Reject,
    }
}

/// The answer to a configuration update.
#[derive(Clone, Debug, PartialEq, Eq)]
pub struct UpdateReply {
    /// The status of the answer.
    pub status: ResponseStatus,
    /// The message of the answer, where it has one.
    pub message: Option<String>,
}

/// Mathematical model of an [`UpdateReply`].
pub struct UpdateReplyView {
    pub status: ResponseStatus,
    pub message: Option<Seq<char>>,
}

impl View for UpdateReply {
    type V = UpdateReplyView;

    open spec fn view(&self) -> UpdateReplyView {
        UpdateReplyView { status: self.status, message: self.message.deep_view() }
    }
}

/// How a configuration update ends: what is held in memory from then on,
/// and the answer.
pub struct UpdateResultView {
    pub config: ConfigView,
    pub reply: UpdateReplyView,
}

/// The answer to an update that was rejected.
pub open spec fn rejection() -> UpdateReplyView {
    UpdateReplyView { status: ResponseStatus::BadRequest, message: None }
}

/// The end of an update whose text was handed to the file system: the
/// candidate replaces the configuration in memory only if the file was
/// written.
pub open spec fn persisted_update(
    current: ConfigView,
    candidate: ConfigView,
    written: bool,
) -> UpdateResultView {
    if written {
        UpdateResultView {
            config: candidate,
            reply: UpdateReplyView {
                status: ResponseStatus::Done,
                message: Some("Configuration updated successfully"@),
            },
        }
    } else {
        UpdateResultView {
            config: current,
            reply: UpdateReplyView { status: ResponseStatus::InternalServerError, message: None },
        }
    }
}

/// The end of an update, from the configuration in memory when it came in.
/// `written` matters only for a text that was well formed.
pub open spec fn update_result(
    current: ConfigView,
    parsed: Option<ConfigView>,
    written: bool,
) -> UpdateResultView {
    match parsed {
        Some(candidate) => persisted_update(current, candidate, written),
        None => UpdateResultView { config: current, reply: rejection() },
    }
}

/// Answers an update that was rejected. The configuration in memory is not
/// touched.
pub fn reject_update() -> (reply: UpdateReply)
    ensures
        reply@ == rejection(),
{
    UpdateReply { status: ResponseStatus::BadRequest, message: None }
}

/// Ends an update whose text was handed to the file system: `written` says
/// whether the file now holds it. Only then does the candidate replace the
/// configuration in memory.
pub fn complete_update(current: &mut Config, candidate: Config, written: bool) -> (reply:
    UpdateReply)
    ensures
        final(current)@ == persisted_update(old(current)@, candidate@, written).config,
        reply@ == persisted_update(old(current)@, candidate@, written).reply,
{
    if written {
        *current = candidate;
        UpdateReply {
            status: ResponseStatus::Done,
            message: Some(String::from_str("Configuration updated successfully")),
        }
    } else {
        UpdateReply { status: ResponseStatus::InternalServerError, message: None }
    }
}

/// An update whose text is no well-formed configuration is rejected before
/// anything is written, leaves the configuration in memory as it was and is
/// answered with a client error.
pub proof fn lemma_invalid_update_changes_nothing(
    current: ConfigView,
    yaml: Seq<char>,
    written: bool,
)
    ensures
        update_decision(yaml, None) is Reject,
        update_result(current, None, written).config == current,
        update_result(current, None, written).reply.status == ResponseStatus::BadRequest,
        update_result(current, None, written).reply.status.code() == 400,
{
}

/// The configuration in memory changes only after the file was written, and
/// then to what the file's new text denotes.
pub proof fn lemma_update_persists_before_swap(
    current: ConfigView,
    parsed: Option<ConfigView>,
    written: bool,
)
    ensures
        ({
            let result = update_result(current, parsed, written);
            &&& result.reply.status == ResponseStatus::Done <==> parsed is Some && written
            &&& result.reply.status == ResponseStatus::Done ==> result.config == parsed->0
            &&& result.reply.status != ResponseStatus::Done ==> result.config == current
        }),
{
}

/// A triggered run works on one configuration, whole: the one that was in
/// memory when its plan was made. A plan made before an update keeps the
/// configuration of before; a plan made after a successful update has the
/// new one. Holding readers and the writer apart while they look is the
/// work of the caller's lock.
pub proof fn lemma_plans_see_one_configuration(
    request: BackupRequest,
    current: ConfigView,
    parsed: Option<ConfigView>,
    written: bool,
)
    ensures
        ({
            let before = trigger_plan(request, current);
            let after = trigger_plan(request, update_result(current, parsed, written).config);
            &&& before.backup == current.backup && before.restic == current.restic
            &&& parsed is Some && written ==> after.backup == parsed->0.backup && after.restic
                == parsed->0.restic
            &&& !(parsed is Some && written) ==> after == before
        }),
{
}

/// The placeholder that the status endpoint answers with.
#[derive(Clone, Debug, PartialEq, Eq)]
pub struct StatusReport {
    pub status: String,
    pub uptime: String,
    pub last_backup: String,
}

/// The placeholder status: the service is running and tracks nothing else.
pub fn status_report() -> (report: StatusReport)
    ensures
        report.status@ == "running"@,
        report.uptime@ == "N/A"@,
        report.last_backup@ == "N/A"@,
{
    StatusReport {
        status: String::from_str("running"),
        uptime: String::from_str("N/A"),
        last_backup: String::from_str("N/A"),
    }
}

} // verus!
