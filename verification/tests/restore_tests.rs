use snap_kube::errors::EngineError;
use snap_kube::persistent_volume_claims::{PVCOperator, PVCOperatorPayload, VolumeIdentity};
use snap_kube::restore::{
    RestoreAction, RestoreEvent, RestoreOperator, RestorePayload, RestoreState,
};
use snap_kube::retain_policy::VSCRetainPolicy;
use snap_kube::volume_snapshot_contents::{
    VolumeSnapshotContentOperator, VolumeSnapshotContentStatus,
};
use snap_kube::volume_snapshots::{VolumeSnapshotOperator, VolumeSnapshotStatus};

fn single_volume_payload() -> RestorePayload {
    RestorePayload::new(
        "ns".to_string(),
        "ns2".to_string(),
        "ebs-class".to_string(),
        Some("data-1".to_string()),
        false,
        "snap".to_string(),
        "content".to_string(),
        "gp3-target".to_string(),
        VSCRetainPolicy::Delete,
    )
}

fn ready_source_status() -> VolumeSnapshotStatus {
    VolumeSnapshotStatus {
        ready_to_use: Some(true),
        bound_volume_snapshot_content_name: Some("vsc-bound-1".to_string()),
        restore_size: Some("1Gi".to_string()),
    }
}

#[test]
fn test_restore_payload_getters() {
    let payload = single_volume_payload();
    assert_eq!(payload.source_ns(), "ns");
    assert_eq!(payload.target_ns(), "ns2");
    assert_eq!(payload.volume_snapshot_class(), "ebs-class");
    assert_eq!(payload.pvc_name(), Some("data-1"));
    assert!(!payload.include_all_pvcs());
    assert_eq!(payload.vs_name_prefix(), "snap");
    assert_eq!(payload.vsc_name_prefix(), "content");
    assert_eq!(payload.storage_class_name(), "gp3-target");
    assert_eq!(payload.vsc_retain_policy(), &VSCRetainPolicy::Delete);
}

#[test]
fn test_restore_creates_content_snapshot_claim_in_order() {
    // Restoring data-1 from ns into ns2 must create, in order: the
    // snapshot-content content-data-1 pre-bound to the resolved handle,
    // the snapshot snap-data-1 sourced from that content, and the claim
    // data-1 requesting the reported restore size.
    let payload = single_volume_payload();
    let (state, action) = RestoreOperator::start(&payload);
    assert_eq!(
        action,
        RestoreAction::GetPvc { namespace: "ns2".to_string(), name: "data-1".to_string() }
    );

    // The target volume must be absent.
    let (state, action) =
        RestoreOperator::step(&payload, state, RestoreEvent::VolumeFetched { fetched: None });
    assert_eq!(
        action,
        RestoreAction::GetVolumeSnapshot {
            namespace: "ns".to_string(),
            name: "snap-data-1".to_string()
        }
    );

    // The source snapshot is located by its derived name alone.
    let (state, action) = RestoreOperator::step(&payload, state, RestoreEvent::SnapshotFetched {
        result: Some(Some(ready_source_status())),
    });
    assert_eq!(
        action,
        RestoreAction::GetSnapshotHandle { bound_vsc_name: "vsc-bound-1".to_string() }
    );

    // First create: the pre-bound snapshot-content.
    let (state, action) = RestoreOperator::step(&payload, state, RestoreEvent::HandleResolved {
        status: Some(VolumeSnapshotContentStatus {
            snapshot_handle: Some("snap-handle-1".to_string()),
        }),
    });
    let expected_content = VolumeSnapshotContentOperator::new(
        "content-data-1".to_string(),
        "ns2".to_string(),
        "snap-data-1".to_string(),
        Some("ebs-class".to_string()),
        Some("snap-handle-1".to_string()),
        VSCRetainPolicy::Delete,
    )
    .construct_volume_snapshot_content_resource();
    assert_eq!(
        action,
        RestoreAction::CreateVolumeSnapshotContent { resource: expected_content }
    );

    // Second create: the snapshot sourced from that content.
    let (state, action) =
        RestoreOperator::step(&payload, state, RestoreEvent::CreateResult { error: None });
    let expected_snapshot = VolumeSnapshotOperator::new(
        "snap-data-1".to_string(),
        "ns2".to_string(),
        "ebs-class".to_string(),
        None,
        Some("content-data-1".to_string()),
    )
    .construct_volume_snapshot_resource(
        Some("snap-handle-1".to_string()),
        Some("1Gi".to_string()),
        VSCRetainPolicy::Delete,
    );
    assert_eq!(
        action,
        RestoreAction::CreateVolumeSnapshot {
            namespace: "ns2".to_string(),
            resource: expected_snapshot
        }
    );

    // Third create: the claim, with the caller's storage class and the
    // reported restore size as capacity.
    let (state, action) =
        RestoreOperator::step(&payload, state, RestoreEvent::CreateResult { error: None });
    let expected_claim = PVCOperator::new(PVCOperatorPayload::new(
        "data-1".to_string(),
        "ns2".to_string(),
        Some("gp3-target".to_string()),
        None,
        "snap-data-1".to_string(),
        "1Gi".to_string(),
    ))
    .construct_persistent_volume_claim_resource();
    assert_eq!(
        action,
        RestoreAction::CreatePersistentVolumeClaim {
            namespace: "ns2".to_string(),
            resource: expected_claim
        }
    );

    let (state, action) =
        RestoreOperator::step(&payload, state, RestoreEvent::CreateResult { error: None });
    assert_eq!(state, RestoreState::Complete);
    assert_eq!(action, RestoreAction::Finish);
}

#[test]
fn test_restore_fails_before_any_create_when_target_exists() {
    // A restore attempted while data-1 already exists in ns2 fails at the
    // precondition step: no create action was ever requested.
    let payload = single_volume_payload();
    let (state, _) = RestoreOperator::start(&payload);
    let fetched =
        Some(VolumeIdentity { name: "data-1".to_string(), namespace: "ns2".to_string() });
    let (state, action) =
        RestoreOperator::step(&payload, state, RestoreEvent::VolumeFetched { fetched });
    assert_eq!(
        state,
        RestoreState::Failed {
            error: EngineError::TargetVolumeExists { pvc_name: "data-1".to_string() }
        }
    );
    assert_eq!(action, RestoreAction::Finish);
}

#[test]
fn test_restore_empty_selection_completes_without_resources() {
    let payload = RestorePayload::new(
        "ns".to_string(),
        "ns2".to_string(),
        "ebs-class".to_string(),
        None,
        true,
        "snap".to_string(),
        "content".to_string(),
        "gp3-target".to_string(),
        VSCRetainPolicy::Delete,
    );
    let (state, action) = RestoreOperator::start(&payload);
    assert_eq!(state, RestoreState::SelectingVolumes);
    assert_eq!(action, RestoreAction::ListPvcs { namespace: "ns".to_string() });
    let (state, action) =
        RestoreOperator::step(&payload, state, RestoreEvent::VolumesListed { pvcs: vec![] });
    assert_eq!(state, RestoreState::Complete);
    assert_eq!(action, RestoreAction::Finish);
}

#[test]
fn test_restore_missing_volume_name_fails() {
    let payload = RestorePayload::new(
        "ns".to_string(),
        "ns2".to_string(),
        "ebs-class".to_string(),
        None,
        false,
        "snap".to_string(),
        "content".to_string(),
        "gp3-target".to_string(),
        VSCRetainPolicy::Delete,
    );
    let (state, action) = RestoreOperator::start(&payload);
    assert_eq!(state, RestoreState::Failed { error: EngineError::MissingVolumeName });
    assert_eq!(action, RestoreAction::Finish);
}

#[test]
fn test_restore_missing_source_snapshot_fails() {
    let payload = single_volume_payload();
    let (state, _) = RestoreOperator::start(&payload);
    let (state, _) =
        RestoreOperator::step(&payload, state, RestoreEvent::VolumeFetched { fetched: None });
    let (state, action) =
        RestoreOperator::step(&payload, state, RestoreEvent::SnapshotFetched { result: None });
    assert_eq!(
        state,
        RestoreState::Failed {
            error: EngineError::SourceSnapshotMissing { vs_name: "snap-data-1".to_string() }
        }
    );
    assert_eq!(action, RestoreAction::Finish);
}

#[test]
fn test_restore_source_snapshot_without_status_fails() {
    let payload = single_volume_payload();
    let (state, _) = RestoreOperator::start(&payload);
    let (state, _) =
        RestoreOperator::step(&payload, state, RestoreEvent::VolumeFetched { fetched: None });
    let (state, _) = RestoreOperator::step(&payload, state, RestoreEvent::SnapshotFetched {
        result: Some(None),
    });
    assert_eq!(
        state,
        RestoreState::Failed {
            error: EngineError::StatusIncomplete { resource_name: "snap-data-1".to_string() }
        }
    );
}

#[test]
fn test_restore_unresolved_handle_fails() {
    let payload = single_volume_payload();
    let (state, _) = RestoreOperator::start(&payload);
    let (state, _) =
        RestoreOperator::step(&payload, state, RestoreEvent::VolumeFetched { fetched: None });
    let (state, _) = RestoreOperator::step(&payload, state, RestoreEvent::SnapshotFetched {
        result: Some(Some(ready_source_status())),
    });
    let (state, action) =
        RestoreOperator::step(&payload, state, RestoreEvent::HandleResolved { status: None });
    assert_eq!(
        state,
        RestoreState::Failed {
            error: EngineError::StatusIncomplete { resource_name: "vsc-bound-1".to_string() }
        }
    );
    assert_eq!(action, RestoreAction::Finish);
}

#[test]
fn test_restore_content_create_rejection_fails() {
    let payload = single_volume_payload();
    let (state, _) = RestoreOperator::start(&payload);
    let (state, _) =
        RestoreOperator::step(&payload, state, RestoreEvent::VolumeFetched { fetched: None });
    let (state, _) = RestoreOperator::step(&payload, state, RestoreEvent::SnapshotFetched {
        result: Some(Some(ready_source_status())),
    });
    let (state, _) = RestoreOperator::step(&payload, state, RestoreEvent::HandleResolved {
        status: Some(VolumeSnapshotContentStatus {
            snapshot_handle: Some("snap-handle-1".to_string()),
        }),
    });
    let (state, action) = RestoreOperator::step(&payload, state, RestoreEvent::CreateResult {
        error: Some("conflict".to_string()),
    });
    assert_eq!(
        state,
        RestoreState::Failed {
            error: EngineError::CreateRejected {
                resource_name: "content-data-1".to_string(),
                reason: "conflict".to_string(),
            }
        }
    );
    assert_eq!(action, RestoreAction::Finish);
}
