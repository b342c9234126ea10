use snap_kube::backup::{BackupAction, BackupEvent, BackupOperator, BackupPayload, BackupState};
use snap_kube::errors::EngineError;
use snap_kube::persistent_volume_claims::VolumeIdentity;
use snap_kube::retain_policy::VSCRetainPolicy;
use snap_kube::volume_snapshots::{VolumeSnapshotOperator, VolumeSnapshotStatus};

fn single_volume_payload() -> BackupPayload {
    BackupPayload::new(
        "eu-west-1".to_string(),
        "ns".to_string(),
        "ebs-class".to_string(),
        Some("data-1".to_string()),
        false,
        "snap".to_string(),
    )
}

#[test]
fn test_backup_payload_getters() {
    let payload = single_volume_payload();
    assert_eq!(payload.region(), "eu-west-1");
    assert_eq!(payload.source_ns(), "ns");
    assert_eq!(payload.volume_snapshot_class(), "ebs-class");
    assert_eq!(payload.pvc_name(), Some("data-1"));
    assert!(!payload.include_all_pvcs());
    assert_eq!(payload.vs_name_prefix(), "snap");
}

#[test]
fn test_backup_single_volume_creates_named_snapshot() {
    // Backing up volume data-1 in ns with prefix snap and class ebs-class
    // must create exactly one snapshot snap-data-1 in ns, sourced from
    // data-1.
    let payload = single_volume_payload();
    let (state, action) = BackupOperator::start(&payload);
    assert_eq!(
        action,
        BackupAction::GetPvc { namespace: "ns".to_string(), name: "data-1".to_string() }
    );

    let fetched = Some(VolumeIdentity { name: "data-1".to_string(), namespace: "ns".to_string() });
    let (state, action) = BackupOperator::step(&payload, state, BackupEvent::VolumeFetched {
        fetched,
    });
    let expected_resource = VolumeSnapshotOperator::new(
        "snap-data-1".to_string(),
        "ns".to_string(),
        "ebs-class".to_string(),
        Some("data-1".to_string()),
        None,
    )
    .construct_volume_snapshot_resource(None, None, VSCRetainPolicy::Delete);
    assert_eq!(
        action,
        BackupAction::CreateVolumeSnapshot {
            namespace: "ns".to_string(),
            resource: expected_resource
        }
    );

    let (state, action) = BackupOperator::step(&payload, state, BackupEvent::SnapshotCreateResult {
        error: None,
    });
    assert_eq!(
        action,
        BackupAction::FetchSnapshotStatus {
            namespace: "ns".to_string(),
            name: "snap-data-1".to_string()
        }
    );

    let ready = VolumeSnapshotStatus {
        ready_to_use: Some(true),
        bound_volume_snapshot_content_name: Some("vsc-bound-1".to_string()),
        restore_size: Some("1Gi".to_string()),
    };
    let (state, action) = BackupOperator::step(&payload, state, BackupEvent::StatusObserved {
        status: Some(ready),
    });
    assert_eq!(state, BackupState::Complete);
    assert_eq!(action, BackupAction::Finish);
}

#[test]
fn test_backup_polls_until_ready() {
    let payload = single_volume_payload();
    let (state, _) = BackupOperator::start(&payload);
    let fetched = Some(VolumeIdentity { name: "data-1".to_string(), namespace: "ns".to_string() });
    let (state, _) = BackupOperator::step(&payload, state, BackupEvent::VolumeFetched { fetched });
    let (state, _) =
        BackupOperator::step(&payload, state, BackupEvent::SnapshotCreateResult { error: None });

    // No status yet: fetch again right away.
    let (state, action) =
        BackupOperator::step(&payload, state, BackupEvent::StatusObserved { status: None });
    assert_eq!(
        action,
        BackupAction::FetchSnapshotStatus {
            namespace: "ns".to_string(),
            name: "snap-data-1".to_string()
        }
    );

    // Status present but unbound: wait, no progress probe.
    let unbound = VolumeSnapshotStatus {
        ready_to_use: Some(false),
        bound_volume_snapshot_content_name: None,
        restore_size: None,
    };
    let (state, action) = BackupOperator::step(&payload, state, BackupEvent::StatusObserved {
        status: Some(unbound),
    });
    assert_eq!(
        action,
        BackupAction::WaitThenFetchSnapshotStatus {
            namespace: "ns".to_string(),
            name: "snap-data-1".to_string(),
            probe_vsc_name: None,
        }
    );

    // Bound but not ready: wait, probing the provider's copy progress.
    let bound = VolumeSnapshotStatus {
        ready_to_use: Some(false),
        bound_volume_snapshot_content_name: Some("vsc-bound-1".to_string()),
        restore_size: Some("1Gi".to_string()),
    };
    let (state, action) = BackupOperator::step(&payload, state, BackupEvent::StatusObserved {
        status: Some(bound),
    });
    assert_eq!(
        action,
        BackupAction::WaitThenFetchSnapshotStatus {
            namespace: "ns".to_string(),
            name: "snap-data-1".to_string(),
            probe_vsc_name: Some("vsc-bound-1".to_string()),
        }
    );

    // Ready: the run completes.
    let ready = VolumeSnapshotStatus {
        ready_to_use: Some(true),
        bound_volume_snapshot_content_name: Some("vsc-bound-1".to_string()),
        restore_size: Some("1Gi".to_string()),
    };
    let (state, action) = BackupOperator::step(&payload, state, BackupEvent::StatusObserved {
        status: Some(ready),
    });
    assert_eq!(state, BackupState::Complete);
    assert_eq!(action, BackupAction::Finish);
}

#[test]
fn test_backup_empty_selection_completes_without_resources() {
    // include_all_pvcs with no volumes present: the selection resolves to
    // an empty list and the run completes with nothing created.
    let payload = BackupPayload::new(
        "eu-west-1".to_string(),
        "ns".to_string(),
        "ebs-class".to_string(),
        None,
        true,
        "snap".to_string(),
    );
    let (state, action) = BackupOperator::start(&payload);
    assert_eq!(state, BackupState::SelectingVolumes);
    assert_eq!(action, BackupAction::ListPvcs { namespace: "ns".to_string() });

    let (state, action) =
        BackupOperator::step(&payload, state, BackupEvent::VolumesListed { pvcs: vec![] });
    assert_eq!(state, BackupState::Complete);
    assert_eq!(action, BackupAction::Finish);
}

#[test]
fn test_backup_missing_volume_name_fails() {
    let payload = BackupPayload::new(
        "eu-west-1".to_string(),
        "ns".to_string(),
        "ebs-class".to_string(),
        None,
        false,
        "snap".to_string(),
    );
    let (state, action) = BackupOperator::start(&payload);
    assert_eq!(state, BackupState::Failed { error: EngineError::MissingVolumeName });
    assert_eq!(action, BackupAction::Finish);
}

#[test]
fn test_backup_missing_source_volume_fails() {
    let payload = single_volume_payload();
    let (state, _) = BackupOperator::start(&payload);
    let (state, action) =
        BackupOperator::step(&payload, state, BackupEvent::VolumeFetched { fetched: None });
    assert_eq!(
        state,
        BackupState::Failed {
            error: EngineError::SourceVolumeMissing { pvc_name: "data-1".to_string() }
        }
    );
    assert_eq!(action, BackupAction::Finish);
}

#[test]
fn test_backup_create_rejection_fails() {
    let payload = single_volume_payload();
    let (state, _) = BackupOperator::start(&payload);
    let fetched = Some(VolumeIdentity { name: "data-1".to_string(), namespace: "ns".to_string() });
    let (state, _) = BackupOperator::step(&payload, state, BackupEvent::VolumeFetched { fetched });
    let (state, action) = BackupOperator::step(&payload, state, BackupEvent::SnapshotCreateResult {
        error: Some("already exists".to_string()),
    });
    assert_eq!(
        state,
        BackupState::Failed {
            error: EngineError::CreateRejected {
                resource_name: "snap-data-1".to_string(),
                reason: "already exists".to_string(),
            }
        }
    );
    assert_eq!(action, BackupAction::Finish);
}

#[test]
fn test_backup_incomplete_ready_status_fails() {
    let payload = single_volume_payload();
    let (state, _) = BackupOperator::start(&payload);
    let fetched = Some(VolumeIdentity { name: "data-1".to_string(), namespace: "ns".to_string() });
    let (state, _) = BackupOperator::step(&payload, state, BackupEvent::VolumeFetched { fetched });
    let (state, _) =
        BackupOperator::step(&payload, state, BackupEvent::SnapshotCreateResult { error: None });
    let incomplete = VolumeSnapshotStatus {
        ready_to_use: Some(true),
        bound_volume_snapshot_content_name: None,
        restore_size: None,
    };
    let (state, action) = BackupOperator::step(&payload, state, BackupEvent::StatusObserved {
        status: Some(incomplete),
    });
    assert_eq!(
        state,
        BackupState::Failed {
            error: EngineError::StatusIncomplete { resource_name: "snap-data-1".to_string() }
        }
    );
    assert_eq!(action, BackupAction::Finish);
}

#[test]
fn test_backup_walks_volumes_in_order() {
    let payload = BackupPayload::new(
        "eu-west-1".to_string(),
        "ns".to_string(),
        "ebs-class".to_string(),
        None,
        true,
        "snap".to_string(),
    );
    let (state, _) = BackupOperator::start(&payload);
    let (mut state, action) = BackupOperator::step(&payload, state, BackupEvent::VolumesListed {
        pvcs: vec!["data-1".to_string(), "data-2".to_string()],
    });
    assert_eq!(
        action,
        BackupAction::GetPvc { namespace: "ns".to_string(), name: "data-1".to_string() }
    );

    let ready = VolumeSnapshotStatus {
        ready_to_use: Some(true),
        bound_volume_snapshot_content_name: Some("vsc-bound".to_string()),
        restore_size: Some("1Gi".to_string()),
    };

    // After the first volume reaches readiness, the engine moves on to the
    // second one.
    let fetched = Some(VolumeIdentity { name: "data-1".to_string(), namespace: "ns".to_string() });
    let (s, _) = BackupOperator::step(&payload, state, BackupEvent::VolumeFetched { fetched });
    let (s, _) = BackupOperator::step(&payload, s, BackupEvent::SnapshotCreateResult { error: None });
    let (s, action) = BackupOperator::step(&payload, s, BackupEvent::StatusObserved {
        status: Some(ready.clone()),
    });
    assert_eq!(
        action,
        BackupAction::GetPvc { namespace: "ns".to_string(), name: "data-2".to_string() }
    );
    state = s;

    // The second volume completes the run.
    let fetched = Some(VolumeIdentity { name: "data-2".to_string(), namespace: "ns".to_string() });
    let (s, _) = BackupOperator::step(&payload, state, BackupEvent::VolumeFetched { fetched });
    let (s, _) = BackupOperator::step(&payload, s, BackupEvent::SnapshotCreateResult { error: None });
    let (s, action) =
        BackupOperator::step(&payload, s, BackupEvent::StatusObserved { status: Some(ready) });
    assert_eq!(s, BackupState::Complete);
    assert_eq!(action, BackupAction::Finish);
}
