use webapp_deployer::gc::{apply_delete_outcomes, gc_candidates, PublishedVersion, RemoveOldVersionsResult};
use webapp_deployer::marker::Tag;
use webapp_deployer::orchestrator::{
    step, AbortReason, DeployAction, DeployEvent, DeployOptions, DeployState,
};
use webapp_deployer::publish::UpdateFunctionResult;

const OPTS: DeployOptions = DeployOptions { run_build: false, force: false };

#[test]
fn dirty_tree_aborts_before_any_remote_call() {
    let (state, action) = step(
        DeployState::Start,
        DeployEvent::GuardReport { dirty: true },
        "api",
        &OPTS,
    );
    assert!(matches!(state, DeployState::Aborted { reason: AbortReason::DirtyTree }));
    // The run stops here: no publish or other remote action is ever asked for.
    assert!(matches!(action, DeployAction::Stop));
}

#[test]
fn clean_tree_proceeds_to_the_ledger() {
    let (state, action) = step(
        DeployState::Start,
        DeployEvent::GuardReport { dirty: false },
        "api",
        &OPTS,
    );
    assert!(matches!(state, DeployState::GuardChecked));
    assert!(matches!(action, DeployAction::ListMarkers));
}

#[test]
fn second_run_aborts_at_the_idempotency_check() {
    // The first run recorded api@12 at this commit; the second run lists
    // that marker and stops without publishing.
    let tags = vec![Tag::new("api@12")];
    let (state, action) = step(
        DeployState::GuardChecked,
        DeployEvent::MarkerList { tags },
        "api",
        &OPTS,
    );
    assert!(matches!(state, DeployState::Aborted { reason: AbortReason::AlreadyDeployed }));
    assert!(matches!(action, DeployAction::Stop));
}

#[test]
fn force_bypasses_the_idempotency_check() {
    let tags = vec![Tag::new("api@12")];
    let opts = DeployOptions { run_build: false, force: true };
    let (state, action) = step(
        DeployState::GuardChecked,
        DeployEvent::MarkerList { tags },
        "api",
        &opts,
    );
    assert!(matches!(state, DeployState::IdempotencyChecked));
    assert!(matches!(action, DeployAction::PackageArtifact));
}

#[test]
fn a_marker_for_another_function_does_not_block() {
    let tags = vec![Tag::new("worker@4")];
    let (state, action) = step(
        DeployState::GuardChecked,
        DeployEvent::MarkerList { tags },
        "api",
        &OPTS,
    );
    assert!(matches!(state, DeployState::IdempotencyChecked));
    assert!(matches!(action, DeployAction::PackageArtifact));
}

#[test]
fn build_option_asks_for_the_build_first() {
    let opts = DeployOptions { run_build: true, force: false };
    let (state, action) = step(
        DeployState::GuardChecked,
        DeployEvent::MarkerList { tags: Vec::new() },
        "api",
        &opts,
    );
    assert!(matches!(state, DeployState::IdempotencyChecked));
    assert!(matches!(action, DeployAction::RunBuild));

    let (state, action) = step(
        DeployState::IdempotencyChecked,
        DeployEvent::BuildOutcome { outcome: Ok(()) },
        "api",
        &opts,
    );
    assert!(matches!(state, DeployState::Built));
    assert!(matches!(action, DeployAction::PackageArtifact));
}

#[test]
fn build_failure_aborts() {
    let (state, action) = step(
        DeployState::IdempotencyChecked,
        DeployEvent::BuildOutcome { outcome: Err("exit status 1".to_owned()) },
        "api",
        &OPTS,
    );
    match state {
        DeployState::Aborted { reason: AbortReason::BuildFailed { reason } } => {
            assert_eq!(reason, "exit status 1".to_owned());
        }
        _ => panic!("expected a build abort"),
    }
    assert!(matches!(action, DeployAction::Stop));
}

#[test]
fn package_failure_aborts() {
    let (state, action) = step(
        DeployState::IdempotencyChecked,
        DeployEvent::PackageOutcome { outcome: Err("no such file".to_owned()) },
        "api",
        &OPTS,
    );
    assert!(matches!(
        state,
        DeployState::Aborted { reason: AbortReason::PackageFailed { .. } }
    ));
    assert!(matches!(action, DeployAction::Stop));
}

#[test]
fn publish_failure_aborts() {
    let (state, action) = step(
        DeployState::Packaged,
        DeployEvent::PublishOutcome { outcome: Err("upload rejected".to_owned()) },
        "api",
        &OPTS,
    );
    assert!(matches!(
        state,
        DeployState::Aborted { reason: AbortReason::PublishFailed { .. } }
    ));
    assert!(matches!(action, DeployAction::Stop));
}

#[test]
fn record_failure_is_a_partial_failure() {
    let (state, action) = step(
        DeployState::Published { function_name: "api".to_owned(), version: "12".to_owned() },
        DeployEvent::RecordOutcome { outcome: Err("tag exists".to_owned()) },
        "api",
        &OPTS,
    );
    match state {
        DeployState::PartiallyFailed { function_name, version, reason } => {
            assert_eq!(function_name, "api".to_owned());
            assert_eq!(version, "12".to_owned());
            assert_eq!(reason, "tag exists".to_owned());
        }
        _ => panic!("expected the partial-failure state"),
    }
    assert!(matches!(action, DeployAction::Stop));
}

#[test]
fn unexpected_event_stops_without_moving() {
    let (state, action) = step(
        DeployState::Start,
        DeployEvent::RecordOutcome { outcome: Ok(()) },
        "api",
        &OPTS,
    );
    assert!(matches!(state, DeployState::Start));
    assert!(matches!(action, DeployAction::Stop));
}

#[test]
fn terminal_states_absorb() {
    let (state, action) = step(
        DeployState::Aborted { reason: AbortReason::DirtyTree },
        DeployEvent::GuardReport { dirty: false },
        "api",
        &OPTS,
    );
    assert!(matches!(state, DeployState::Aborted { reason: AbortReason::DirtyTree }));
    assert!(matches!(action, DeployAction::Stop));
}

#[test]
fn end_to_end_deploy() {
    // Config declares `api` bundled at dist/index.js; the tree is clean,
    // no marker points at the head commit, and the runtime assigns
    // version "12" to the publish.
    let target = "api";
    let opts = OPTS;

    let (state, action) = step(
        DeployState::Start,
        DeployEvent::GuardReport { dirty: false },
        target,
        &opts,
    );
    assert!(matches!(action, DeployAction::ListMarkers));

    let (state, action) = step(
        state,
        DeployEvent::MarkerList { tags: Vec::new() },
        target,
        &opts,
    );
    assert!(matches!(action, DeployAction::PackageArtifact));

    let (state, action) = step(
        state,
        DeployEvent::PackageOutcome { outcome: Ok(()) },
        target,
        &opts,
    );
    assert!(matches!(action, DeployAction::Publish));

    let publish = UpdateFunctionResult {
        function_name: "api".to_owned(),
        version: "12".to_owned(),
    };
    let (state, action) = step(
        state,
        DeployEvent::PublishOutcome { outcome: Ok(publish) },
        target,
        &opts,
    );
    // The new version is recorded in the ledger as the tag api@12.
    match &action {
        DeployAction::RecordMarker { marker } => assert_eq!(marker, "api@12"),
        _ => panic!("expected the marker to be recorded"),
    }

    let (state, action) = step(
        state,
        DeployEvent::RecordOutcome { outcome: Ok(()) },
        target,
        &opts,
    );
    let (collect_name, keep) = match &action {
        DeployAction::Collect { function_name, keep_version } => {
            (function_name.clone(), keep_version.clone())
        }
        _ => panic!("expected a garbage-collection pass"),
    };
    assert_eq!(collect_name, "api".to_owned());
    assert_eq!(keep, "12".to_owned());

    // Garbage collection targets every other numeric version of api.
    let entries = vec![
        PublishedVersion {
            version: Some("$LATEST".to_owned()),
            last_modified: Some("2019-05-28T12:00:00.000+0000".to_owned()),
        },
        PublishedVersion {
            version: Some("11".to_owned()),
            last_modified: Some("2019-05-28T12:00:00.000+0000".to_owned()),
        },
        PublishedVersion {
            version: Some("12".to_owned()),
            last_modified: Some("2019-05-28T12:00:00.000+0000".to_owned()),
        },
    ];
    let candidates = gc_candidates(&entries, &keep, 4102444800).unwrap();
    assert_eq!(candidates, vec!["11".to_owned()]);
    let outcomes: Vec<Result<(), String>> = vec![Ok(())];
    let report: RemoveOldVersionsResult = apply_delete_outcomes(&candidates, &outcomes);

    let (state, action) = step(
        state,
        DeployEvent::CollectReport { report },
        target,
        &opts,
    );
    assert!(matches!(action, DeployAction::Stop));
    match state {
        DeployState::Done { result } => {
            assert_eq!(result.function_name, "api".to_owned());
            assert_eq!(result.new_version, "12".to_owned());
            assert_eq!(result.deleted_versions, vec!["11".to_owned()]);
            assert!(result.deletion_failures.is_empty());
        }
        _ => panic!("expected the run to be done"),
    }
}
