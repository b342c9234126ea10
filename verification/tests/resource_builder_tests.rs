use snap_kube::persistent_volume_claims::{
    PVCOperator, PVCOperatorPayload, PersistentVolumeClaim, PvcLabels, PvcMetadata,
    TypedLocalObjectReference, TypedObjectReference,
};
use snap_kube::retain_policy::{VSCRetainPolicy, VolumeSnapshotContentDeletionPolicy};
use snap_kube::volume_snapshot_contents::VolumeSnapshotContentOperator;
use snap_kube::volume_snapshots::VolumeSnapshotOperator;

#[test]
fn test_construct_persistent_volume_claim_resource() {
    let pvc_operator_payload = PVCOperatorPayload::new(
        String::from("test-pvc"),
        String::from("test-ns"),
        Some(String::from("gp3")),
        Some(vec![String::from("ReadWriteOnce")]),
        String::from("test-vs"),
        "1Gi".to_string(),
    );

    let pvc_operator = PVCOperator::new(pvc_operator_payload);

    let pvc = pvc_operator.construct_persistent_volume_claim_resource();

    let expected_pvc = PersistentVolumeClaim {
        metadata: PvcMetadata {
            name: "test-pvc".to_string(),
            namespace: "test-ns".to_string(),
            labels: PvcLabels { volume_snapshot_name: "test-pvc".to_string() },
        },
        access_modes: vec!["ReadWriteOnce".to_string()],
        storage_class_name: "gp3".to_string(),
        data_source: TypedLocalObjectReference {
            name: "test-vs".to_string(),
            kind: "VolumeSnapshot".to_string(),
            api_group: "snapshot.storage.k8s.io".to_string(),
        },
        data_source_ref: TypedObjectReference {
            name: "test-vs".to_string(),
            kind: "VolumeSnapshot".to_string(),
            api_group: "snapshot.storage.k8s.io".to_string(),
            namespace: "test-ns".to_string(),
        },
        volume_mode: "Filesystem".to_string(),
        requests_storage: "1Gi".to_string(),
    };

    assert_eq!(pvc, expected_pvc);
}

#[test]
fn test_construct_persistent_volume_claim_resource_defaults() {
    let pvc_operator_payload = PVCOperatorPayload::new(
        String::from("test-pvc"),
        String::from("test-ns"),
        None,
        None,
        String::from("test-vs"),
        "1Gi".to_string(),
    );
    let pvc_operator = PVCOperator::new(pvc_operator_payload);
    let pvc = pvc_operator.construct_persistent_volume_claim_resource();
    assert_eq!(pvc.access_modes, vec!["ReadWriteOnce".to_string()]);
    assert_eq!(pvc.storage_class_name, "gp3");
    assert_eq!(pvc.volume_mode, "Filesystem");
}

#[test]
fn test_construct_volume_snapshot_resource() {
    let vs_operator = VolumeSnapshotOperator::new(
        "test-volume-snapshot".to_string(),
        "default".to_string(),
        "ebs.csi.aws.com".to_string(),
        Some("test-pvc".to_string()),
        Some("test-volume-snapshot-content".to_string()),
    );
    let volume_snapshot = vs_operator.construct_volume_snapshot_resource(
        Some("test-snapshot-handle".to_string()),
        Some("1Gi".to_string()),
        VSCRetainPolicy::Delete,
    );
    assert_eq!(volume_snapshot.metadata.name, "test-volume-snapshot");
    assert_eq!(volume_snapshot.metadata.namespace, "default");
    assert_eq!(volume_snapshot.metadata.annotations.csi_driver_name, "ebs.csi.aws.com");
    assert_eq!(volume_snapshot.metadata.annotations.csi_vsc_deletion_policy, "Delete");
    assert_eq!(
        volume_snapshot.metadata.annotations.csi_volumesnapshot_handle,
        Some("test-snapshot-handle".to_string())
    );
    assert_eq!(
        volume_snapshot.metadata.annotations.csi_volumesnapshot_restore_size,
        Some("1Gi".to_string())
    );
    assert_eq!(volume_snapshot.metadata.labels.app_instance, "default");
    assert_eq!(volume_snapshot.volume_snapshot_class_name, "ebs.csi.aws.com");
    assert_eq!(
        volume_snapshot.source.persistent_volume_claim_name,
        Some("test-pvc".to_string())
    );
    assert_eq!(
        volume_snapshot.source.volume_snapshot_content_name,
        Some("test-volume-snapshot-content".to_string())
    );
}

#[test]
fn test_construct_volume_snapshot_content_resource() {
    let vsc_operator = VolumeSnapshotContentOperator::new(
        "test-volume-snapshot-content".to_string(),
        "default".to_string(),
        "test-volume-snapshot".to_string(),
        Some("ebs.csi.aws.com".to_string()),
        Some("test-snapshot-handle".to_string()),
        VSCRetainPolicy::Delete,
    );
    let volume_snapshot_content = vsc_operator.construct_volume_snapshot_content_resource();
    assert_eq!(volume_snapshot_content.metadata.name, "test-volume-snapshot-content");
    assert_eq!(volume_snapshot_content.metadata.namespace, "default");
    assert_eq!(volume_snapshot_content.volume_snapshot_ref.name, "test-volume-snapshot");
    assert_eq!(
        volume_snapshot_content.volume_snapshot_class_name,
        Some("ebs.csi.aws.com".to_string())
    );
    assert_eq!(
        volume_snapshot_content.source.snapshot_handle,
        Some("test-snapshot-handle".to_string())
    );
    assert_eq!(volume_snapshot_content.source_volume_mode, "Filesystem");
    assert_eq!(
        volume_snapshot_content.status.snapshot_handle,
        Some("test-snapshot-handle".to_string())
    );
    assert_eq!(
        volume_snapshot_content.deletion_policy,
        VolumeSnapshotContentDeletionPolicy::Delete
    );
}

#[test]
fn test_snapshot_builder_deterministic() {
    let build = || {
        VolumeSnapshotOperator::new(
            "vs-a".to_string(),
            "ns-a".to_string(),
            "class-a".to_string(),
            Some("pvc-a".to_string()),
            None,
        )
        .construct_volume_snapshot_resource(
            Some("handle-a".to_string()),
            Some("2Gi".to_string()),
            VSCRetainPolicy::Retain,
        )
    };
    assert_eq!(build(), build());
}

#[test]
fn test_snapshot_annotations_present_iff_passed() {
    let operator = VolumeSnapshotOperator::new(
        "vs-a".to_string(),
        "ns-a".to_string(),
        "class-a".to_string(),
        Some("pvc-a".to_string()),
        None,
    );
    let bare = operator.construct_volume_snapshot_resource(None, None, VSCRetainPolicy::Delete);
    assert_eq!(bare.metadata.annotations.csi_volumesnapshot_handle, None);
    assert_eq!(bare.metadata.annotations.csi_volumesnapshot_restore_size, None);
    let full = operator.construct_volume_snapshot_resource(
        Some("h".to_string()),
        Some("3Gi".to_string()),
        VSCRetainPolicy::Delete,
    );
    assert_eq!(full.metadata.annotations.csi_volumesnapshot_handle, Some("h".to_string()));
    assert_eq!(
        full.metadata.annotations.csi_volumesnapshot_restore_size,
        Some("3Gi".to_string())
    );
}

#[test]
fn test_content_builder_deterministic() {
    let build = || {
        VolumeSnapshotContentOperator::new(
            "vsc-a".to_string(),
            "ns-a".to_string(),
            "vs-a".to_string(),
            Some("class-a".to_string()),
            Some("handle-a".to_string()),
            VSCRetainPolicy::Retain,
        )
        .construct_volume_snapshot_content_resource()
    };
    assert_eq!(build(), build());
}

#[test]
fn test_claim_builder_deterministic() {
    let build = || {
        PVCOperator::new(PVCOperatorPayload::new(
            "pvc-a".to_string(),
            "ns-a".to_string(),
            None,
            None,
            "vs-a".to_string(),
            "4Gi".to_string(),
        ))
        .construct_persistent_volume_claim_resource()
    };
    assert_eq!(build(), build());
}
