//! The deployment orchestrator: a state machine over one run.
//!
//! Each step consumes the outcome of the previous action and decides the
//! next state and the next action. Everything before a successful
//! publish may abort with no remote state to clean up. After a publish,
//! a failure to record the marker leaves a published version unknown to
//! the ledger: that is surfaced as its own terminal state, distinct from
//! an abort, and must never be answered by publishing again.

use vstd::prelude::*;
use crate::gc::{DeleteFailure, RemoveOldVersionsResult};
use crate::ledger::{already_deployed, is_already_deployed, tag_views};
use crate::marker::{marker_string, Tag};
use crate::publish::UpdateFunctionResult;

verus! {

/// The caller's choices for one run.
#[derive(Clone, Copy)]
pub struct DeployOptions {
    /// Run the external build step before packaging.
    pub run_build: bool,
    /// Bypass the idempotency check and deploy even if the current
    /// commit already carries a marker for the function.
    pub force: bool,
}

/// Why a run was aborted before any remote state was created.
pub enum AbortReason {
    /// A tracked file has uncommitted modifications.
    DirtyTree,
    /// A marker for this function already points at the current commit.
    AlreadyDeployed,
    /// The external build step failed.
    BuildFailed { reason: String },
    /// The packaging step failed.
    PackageFailed { reason: String },
    /// The runtime rejected the publish, or answered malformed.
    PublishFailed { reason: String },
}

/// The terminal report of a completed run.
pub struct DeployResult {
    pub function_name: String,
    pub new_version: String,
    pub deleted_versions: Vec<String>,
    pub deletion_failures: Vec<DeleteFailure>,
}

/// Where one run stands.
pub enum DeployState {
    /// Nothing checked yet.
    Start,
    /// The working tree is clean.
    GuardChecked,
    /// No marker forbids this deploy (or the caller forced it).
    IdempotencyChecked,
    /// The external build step succeeded.
    Built,
    /// An upload artifact exists.
    Packaged,
    /// The runtime holds a new immutable version; nothing records it yet.
    Published { function_name: String, version: String },
    /// The marker is written: the publish is durably acknowledged.
    LedgerRecorded { function_name: String, version: String },
    /// Terminal: the full run, with its report.
    Done { result: DeployResult },
    /// Terminal: aborted before any remote side effect.
    Aborted { reason: AbortReason },
    /// Terminal: published but not recorded. Needs operator attention;
    /// re-running would create a duplicate published version.
    PartiallyFailed { function_name: String, version: String, reason: String },
}

/// What happened since the last step: the outcome of the action the
/// machine asked for.
pub enum DeployEvent {
    /// Whether the working tree has uncommitted modifications.
    GuardReport { dirty: bool },
    /// The tags that resolve to the current commit.
    MarkerList { tags: Vec<Tag> },
    /// Outcome of the external build step.
    BuildOutcome { outcome: Result<(), String> },
    /// Outcome of the packaging step.
    PackageOutcome { outcome: Result<(), String> },
    /// Outcome of the publish request.
    PublishOutcome { outcome: Result<UpdateFunctionResult, String> },
    /// Outcome of writing the marker.
    RecordOutcome { outcome: Result<(), String> },
    /// Report of the garbage-collection pass.
    CollectReport { report: RemoveOldVersionsResult },
}

/// What the machine asks its caller to do next.
pub enum DeployAction {
    /// Check the working tree for uncommitted modifications.
    CheckGuard,
    /// List the tags at the current commit.
    ListMarkers,
    /// Run the external build step.
    RunBuild,
    /// Package the bundle into an upload artifact.
    PackageArtifact,
    /// Upload the artifact and publish a new version.
    Publish,
    /// Write this marker as a tag at the current commit.
    RecordMarker { marker: String },
    /// Garbage-collect old versions of the function, keeping this one.
    Collect { function_name: String, keep_version: String },
    /// The run is over; the state is terminal.
    Stop,
}

/// The pairs of state and event for which a transition is defined. The
/// caller obtains each event by performing the action the previous step
/// asked for, so a run only ever produces these pairs.
pub open spec fn expected_event(state: DeployState, event: DeployEvent) -> bool {
    ||| state is Start && event is GuardReport
    ||| state is GuardChecked && event is MarkerList
    ||| state is IdempotencyChecked && event is BuildOutcome
    ||| (state is IdempotencyChecked || state is Built) && event is PackageOutcome
    ||| state is Packaged && event is PublishOutcome
    ||| state is Published && event is RecordOutcome
    ||| state is LedgerRecorded && event is CollectReport
}

/// One transition of the orchestration run for `target`.
///
/// A dirty tree or an existing marker aborts before anything remote is
/// touched; build, package and publish failures abort with nothing to
/// clean up; a record failure after a publish is the partial-failure
/// state; garbage-collection failures are soft and ride along in the
/// final report. On a pair no run produces, the state is kept and the
/// run stops.
pub fn step(state: DeployState, event: DeployEvent, target: &str, opts: &DeployOptions) -> (r: (
    DeployState,
    DeployAction,
))
    ensures
        state is Start ==> (event matches DeployEvent::GuardReport { dirty } ==> if dirty {
            r.0 matches DeployState::Aborted { reason: AbortReason::DirtyTree } && r.1 is Stop
        } else {
            r.0 is GuardChecked && r.1 is ListMarkers
        }),
        state is GuardChecked ==> (event matches DeployEvent::MarkerList { tags } ==> if !opts.force
            && already_deployed(tag_views(tags@), target@) {
            r.0 matches DeployState::Aborted { reason: AbortReason::AlreadyDeployed }
                && r.1 is Stop
        } else {
            r.0 is IdempotencyChecked && if opts.run_build {
                r.1 is RunBuild
            } else {
                r.1 is PackageArtifact
            }
        }),
        state is IdempotencyChecked ==> (event matches DeployEvent::BuildOutcome { outcome }
            ==> match outcome {
            Ok(u) => r.0 is Built && r.1 is PackageArtifact,
            Err(e) => (r.0 matches DeployState::Aborted {
                reason: AbortReason::BuildFailed { reason },
            } && reason == e && r.1 is Stop),
        }),
        state is IdempotencyChecked || state is Built ==> (event matches DeployEvent::PackageOutcome {
            outcome,
        } ==> match outcome {
            Ok(u) => r.0 is Packaged && r.1 is Publish,
            Err(e) => (r.0 matches DeployState::Aborted {
                reason: AbortReason::PackageFailed { reason },
            } && reason == e && r.1 is Stop),
        }),
        state is Packaged ==> (event matches DeployEvent::PublishOutcome { outcome }
            ==> match outcome {
            Ok(u) => (r.0 matches DeployState::Published { function_name, version }
                && function_name == u.function_name && version == u.version && (
            r.1 matches DeployAction::RecordMarker { marker } && marker@ == marker_string(
                u.function_name@,
                u.version@,
            ))),
            Err(e) => (r.0 matches DeployState::Aborted {
                reason: AbortReason::PublishFailed { reason },
            } && reason == e && r.1 is Stop),
        }),
        state matches DeployState::Published { function_name: n, version: v }
            ==> (event matches DeployEvent::RecordOutcome { outcome } ==> match outcome {
            Ok(u) => (r.0 matches DeployState::LedgerRecorded { function_name, version }
                && function_name == n && version == v && (r.1 matches DeployAction::Collect {
                function_name: f,
                keep_version: k,
            } && f@ == target@ && k == v)),
            Err(e) => (r.0 matches DeployState::PartiallyFailed {
                function_name,
                version,
                reason,
            } && function_name == n && version == v && reason == e && r.1 is Stop),
        }),
        state matches DeployState::LedgerRecorded { function_name: n, version: v }
            ==> (event matches DeployEvent::CollectReport { report } ==> (
        r.0 matches DeployState::Done { result } && result.function_name == n
            && result.new_version == v && result.deleted_versions == report.deleted_versions
            && result.deletion_failures == report.failures && r.1 is Stop)),
        !expected_event(state, event) ==> r.0 == state && r.1 is Stop,
{
    match (state, event) {
        (DeployState::Start, DeployEvent::GuardReport { dirty }) => {
            if dirty {
                (DeployState::Aborted { reason: AbortReason::DirtyTree }, DeployAction::Stop)
            } else {
                (DeployState::GuardChecked, DeployAction::ListMarkers)
            }
        },
        (DeployState::GuardChecked, DeployEvent::MarkerList { tags }) => {
            if !opts.force && is_already_deployed(&tags, target) {
                (DeployState::Aborted { reason: AbortReason::AlreadyDeployed }, DeployAction::Stop)
            } else {
                let action = if opts.run_build {
                    DeployAction::RunBuild
                } else {
                    DeployAction::PackageArtifact
                };
                (DeployState::IdempotencyChecked, action)
            }
        },
        (DeployState::IdempotencyChecked, DeployEvent::BuildOutcome { outcome }) => {
            match outcome {
                Ok(_) => (DeployState::Built, DeployAction::PackageArtifact),
                Err(e) => (
                    DeployState::Aborted { reason: AbortReason::BuildFailed { reason: e } },
                    DeployAction::Stop,
                ),
            }
        },
        (DeployState::IdempotencyChecked, DeployEvent::PackageOutcome { outcome }) => {
            match outcome {
                Ok(_) => (DeployState::Packaged, DeployAction::Publish),
                Err(e) => (
                    DeployState::Aborted { reason: AbortReason::PackageFailed { reason: e } },
                    DeployAction::Stop,
                ),
            }
        },
        (DeployState::Built, DeployEvent::PackageOutcome { outcome }) => {
            match outcome {
                Ok(_) => (DeployState::Packaged, DeployAction::Publish),
                Err(e) => (
                    DeployState::Aborted { reason: AbortReason::PackageFailed { reason: e } },
                    DeployAction::Stop,
                ),
            }
        },
        (DeployState::Packaged, DeployEvent::PublishOutcome { outcome }) => {
            match outcome {
                Ok(u) => {
                    let marker = u.tag_name();
                    (
                        DeployState::Published {
                            function_name: u.function_name,
                            version: u.version,
                        },
                        DeployAction::RecordMarker { marker },
                    )
                },
                Err(e) => (
                    DeployState::Aborted { reason: AbortReason::PublishFailed { reason: e } },
                    DeployAction::Stop,
                ),
            }
        },
        (DeployState::Published { function_name, version }, DeployEvent::RecordOutcome {
            outcome,
        }) => {
            match outcome {
                Ok(_) => {
                    let keep = version.clone();
                    (
                        DeployState::LedgerRecorded { function_name, version },
                        DeployAction::Collect {
                            function_name: target.to_owned(),
                            keep_version: keep,
                        },
                    )
                },
                Err(e) => (
                    DeployState::PartiallyFailed { function_name, version, reason: e },
                    DeployAction::Stop,
                ),
            }
        },
        (DeployState::LedgerRecorded { function_name, version }, DeployEvent::CollectReport {
            report,
        }) => {
            (
                DeployState::Done {
                    result: DeployResult {
                        function_name,
                        new_version: version,
                        deleted_versions: report.deleted_versions,
                        deletion_failures: report.failures,
                    },
                },
                DeployAction::Stop,
            )
        },
        (s, _) => (s, DeployAction::Stop),
    }
}

} // verus!
