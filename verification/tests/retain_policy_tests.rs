use snap_kube::retain_policy::{VSCRetainPolicy, VolumeSnapshotContentDeletionPolicy};

#[test]
fn test_vsc_retain_policy_display() {
    assert_eq!(VSCRetainPolicy::Retain.to_string(), "Retain");
    assert_eq!(VSCRetainPolicy::Delete.to_string(), "Delete");
}

#[test]
fn test_vsc_retain_policy_into() {
    assert_eq!(
        VolumeSnapshotContentDeletionPolicy::from(VSCRetainPolicy::Retain),
        VolumeSnapshotContentDeletionPolicy::Retain
    );
    assert_eq!(
        VolumeSnapshotContentDeletionPolicy::from(VSCRetainPolicy::Delete),
        VolumeSnapshotContentDeletionPolicy::Delete
    );
}

#[test]
fn test_vsc_retain_policy_round_trip() {
    for policy in [VSCRetainPolicy::Retain, VSCRetainPolicy::Delete] {
        let deletion_policy = VolumeSnapshotContentDeletionPolicy::from(policy);
        assert_eq!(deletion_policy.to_retain_policy(), policy);
    }
    for deletion_policy in [
        VolumeSnapshotContentDeletionPolicy::Retain,
        VolumeSnapshotContentDeletionPolicy::Delete,
    ] {
        let policy = deletion_policy.to_retain_policy();
        assert_eq!(VolumeSnapshotContentDeletionPolicy::from(policy), deletion_policy);
    }
}
