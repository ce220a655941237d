//! The snapshot query: what `restic snapshots --json` printed, read as a list.

use vstd::prelude::*;
use vstd::string::*;
use crate::outcome::{Execution, ExecutionView};
use crate::service::ResponseStatus;

verus! {

/// A JSON value of `serde_json`; the library carries such values through
/// and never looks inside.
#[verifier::external_type_specification]
#[verifier::external_body]
pub struct ExJsonValue(serde_json::Value);

/// The error of `serde_json`.
#[verifier::external_type_specification]
#[verifier::external_body]
pub struct ExJsonError(serde_json::Error);

/// The elements of the JSON array that `text` denotes, if it denotes one
/// and nothing else.
pub uninterp spec fn json_array_items(text: Seq<char>) -> Option<Seq<serde_json::Value>>;

/// `serde_json::from_str` at the type `Vec<serde_json::Value>`. Whether
/// it accepts a text, and which elements it then returns, is believed to
/// be decided by the text alone; nothing is claimed of which texts it
/// accepts, nor of what the elements are.
#[verifier::external_body]
fn parse_json_array(text: &str) -> (parsed: Result<Vec<serde_json::Value>, serde_json::Error>)
    ensures
        match parsed {
            Ok(items) => json_array_items(text@) == Some(items@),
            Err(_) => json_array_items(text@) is None,
        },
{
    serde_json::from_str::<Vec<serde_json::Value>>(text)
}

/// The message of a `serde_json::Error`, through its `Display`.
#[verifier::external_body]
fn describe_json_error(error: &serde_json::Error) -> (message: String) {
    format!("{}", error)
}

/// The snapshots of a repository.
pub struct SnapshotListing {
    /// The snapshots as the tool described them.
    pub snapshots: Vec<serde_json::Value>,
}

impl SnapshotListing {
    /// How many snapshots there are.
    pub fn count(&self) -> (count: usize)
        ensures
            count == self.snapshots@.len(),
    {
        self.snapshots.len()
    }
}

/// Why the snapshots could not be listed.
#[derive(Clone, Debug, PartialEq, Eq)]
pub enum SnapshotError {
    /// The tool could not be launched.
    SpawnFailed,
    /// The tool exited with a failure; `stderr` is what it said.
    CommandFailed { stderr: String },
    /// The tool's output is no JSON array; `reason` is the parser's complaint.
    InvalidJson { reason: String },
}

impl SnapshotError {
    /// The status to answer with: every failure to list is the service's.
    pub fn status(&self) -> (status: ResponseStatus)
        ensures
            status == ResponseStatus::InternalServerError,
    {
        ResponseStatus::InternalServerError
    }
}

/// The snapshots that the query, ended as `execution`, lists: the elements
/// of the JSON array that a successful run printed.
pub open spec fn listed_snapshots(execution: ExecutionView) -> Option<Seq<serde_json::Value>> {
    match execution {
        ExecutionView::Finished(output) => if output.success {
            json_array_items(output.stdout)
        } else {
            None
        },
        ExecutionView::SpawnFailed { .. } => None,
    }
}

/// Turns what parsing the tool's output gave into a listing of the parsed
/// elements, or into the parser's complaint.
pub fn read_snapshots(parsed: Result<Vec<serde_json::Value>, String>) -> (listing: Result<
    SnapshotListing,
    SnapshotError,
>)
    ensures
        match (parsed, listing) {
            (Ok(items), Ok(listing)) => listing.snapshots == items,
            (Err(complaint), Err(SnapshotError::InvalidJson { reason })) => reason@ == complaint@,
            _ => false,
        },
{
    match parsed {
        Ok(snapshots) => Ok(SnapshotListing { snapshots }),
        Err(reason) => Err(SnapshotError::InvalidJson { reason }),
    }
}

/// Lists the snapshots from the end of a `restic snapshots --json` run.
///
/// A run that could not be launched or that failed gives no listing, nor
/// does output that is no JSON array.
pub fn list_snapshots(execution: &Execution) -> (listing: Result<SnapshotListing, SnapshotError>)
    ensures
        listing is Ok <==> listed_snapshots(execution@) is Some,
        listing matches Ok(listing) ==> listed_snapshots(execution@) == Some(listing.snapshots@),
        listing matches Err(error) ==> match error {
            SnapshotError::SpawnFailed => execution@ is SpawnFailed,
            SnapshotError::CommandFailed { stderr } => {
                &&& execution@ matches ExecutionView::Finished(output)
                &&& !output.success
                &&& stderr@ == output.stderr
            },
            SnapshotError::InvalidJson { .. } => {
                &&& execution@ matches ExecutionView::Finished(output)
                &&& output.success
                &&& json_array_items(output.stdout) is None
            },
        },
{
    match execution {
        Execution::SpawnFailed { .. } => Err(SnapshotError::SpawnFailed),
        Execution::Finished(output) => {
            if !output.success {
                Err(SnapshotError::CommandFailed { stderr: output.stderr.clone() })
            } else {
                let parsed = match parse_json_array(output.stdout.as_str()) {
                    Ok(items) => Ok(items),
                    Err(error) => Err(describe_json_error(&error)),
                };
                read_snapshots(parsed)
            }
        },
    }
}

} // verus!
