//! Snapshot descriptors: the model of a cluster volume-snapshot object, and
//! the builder that constructs one deterministically from typed parameters.
//!
//! A snapshot built for the backup direction is sourced from a volume and
//! carries no provider handle yet; one built for the restore direction is
//! sourced from a pre-bound snapshot-content and carries the handle and the
//! reported restore size as annotations.

use vstd::prelude::*;
use crate::retain_policy::VSCRetainPolicy;

verus! {

/// Fixed strings a snapshot descriptor carries.
pub enum VSResourceValues {
    Finalizers,
}

impl VSResourceValues {
    /// The value of this table entry.
    pub open spec fn spec_value(self) -> Seq<char> {
        match self {
            VSResourceValues::Finalizers => "snapshot.storage.kubernetes.io/volumesnapshot-bound-protection"@,
        }
    }

    /// Returns the value of this table entry.
    pub fn get_value(&self) -> (r: String)
        ensures
            r@ == self.spec_value(),
    {
        match self {
            VSResourceValues::Finalizers => {
                "snapshot.storage.kubernetes.io/volumesnapshot-bound-protection".to_owned()
            },
        }
    }
}

/// The driver identifier every snapshot descriptor is annotated with.
pub open spec fn spec_csi_driver_value() -> Seq<char> {
    "ebs.csi.aws.com"@
}

/// The annotations of a snapshot descriptor. The driver identifier and the
/// retention-policy string are always present; the provider handle and the
/// restore size are present exactly when they are known at construction
/// time.
#[derive(Clone, Debug, PartialEq, Eq)]
pub struct VsAnnotations {
    pub csi_driver_name: String,
    pub csi_vsc_deletion_policy: String,
    pub csi_volumesnapshot_handle: Option<String>,
    pub csi_volumesnapshot_restore_size: Option<String>,
}

/// The abstract value of [`VsAnnotations`].
#[verifier::ext_equal]
pub ghost struct VsAnnotationsView {
    pub csi_driver_name: Seq<char>,
    pub csi_vsc_deletion_policy: Seq<char>,
    pub csi_volumesnapshot_handle: Option<Seq<char>>,
    pub csi_volumesnapshot_restore_size: Option<Seq<char>>,
}

impl View for VsAnnotations {
    type V = VsAnnotationsView;

    open spec fn view(&self) -> VsAnnotationsView {
        VsAnnotationsView {
            csi_driver_name: self.csi_driver_name@,
            csi_vsc_deletion_policy: self.csi_vsc_deletion_policy@,
            csi_volumesnapshot_handle: self.csi_volumesnapshot_handle.deep_view(),
            csi_volumesnapshot_restore_size: self.csi_volumesnapshot_restore_size.deep_view(),
        }
    }
}

/// The labels of a snapshot descriptor: the instance label always names the
/// namespace the snapshot lives in.
#[derive(Clone, Debug, PartialEq, Eq)]
pub struct VsLabels {
    pub app_instance: String,
}

/// The abstract value of [`VsLabels`].
#[verifier::ext_equal]
pub ghost struct VsLabelsView {
    pub app_instance: Seq<char>,
}

impl View for VsLabels {
    type V = VsLabelsView;

    open spec fn view(&self) -> VsLabelsView {
        VsLabelsView { app_instance: self.app_instance@ }
    }
}

/// The object metadata of a snapshot descriptor.
#[derive(Clone, Debug, PartialEq, Eq)]
pub struct VsMetadata {
    pub name: String,
    pub namespace: String,
    pub annotations: VsAnnotations,
    pub finalizers: Vec<String>,
    pub labels: VsLabels,
}

/// The abstract value of [`VsMetadata`].
#[verifier::ext_equal]
pub ghost struct VsMetadataView {
    pub name: Seq<char>,
    pub namespace: Seq<char>,
    pub annotations: VsAnnotationsView,
    pub finalizers: Seq<Seq<char>>,
    pub labels: VsLabelsView,
}

impl View for VsMetadata {
    type V = VsMetadataView;

    open spec fn view(&self) -> VsMetadataView {
        VsMetadataView {
            name: self.name@,
            namespace: self.namespace@,
            annotations: self.annotations@,
            finalizers: self.finalizers.deep_view(),
            labels: self.labels@,
        }
    }
}

/// The source of a snapshot: a volume (backup direction) or a pre-existing
/// snapshot-content (restore direction).
#[derive(Clone, Debug, PartialEq, Eq)]
pub struct VolumeSnapshotSource {
    pub persistent_volume_claim_name: Option<String>,
    pub volume_snapshot_content_name: Option<String>,
}

/// The abstract value of [`VolumeSnapshotSource`].
#[verifier::ext_equal]
pub ghost struct VolumeSnapshotSourceView {
    pub persistent_volume_claim_name: Option<Seq<char>>,
    pub volume_snapshot_content_name: Option<Seq<char>>,
}

impl View for VolumeSnapshotSource {
    type V = VolumeSnapshotSourceView;

    open spec fn view(&self) -> VolumeSnapshotSourceView {
        VolumeSnapshotSourceView {
            persistent_volume_claim_name: self.persistent_volume_claim_name.deep_view(),
            volume_snapshot_content_name: self.volume_snapshot_content_name.deep_view(),
        }
    }
}

/// A snapshot descriptor: what the engine submits to the cluster when it
/// requests a point-in-time copy of a volume.
#[derive(Clone, Debug, PartialEq, Eq)]
pub struct VolumeSnapshot {
    pub metadata: VsMetadata,
    pub volume_snapshot_class_name: String,
    pub source: VolumeSnapshotSource,
}

/// The abstract value of [`VolumeSnapshot`].
#[verifier::ext_equal]
pub ghost struct VolumeSnapshotView {
    pub metadata: VsMetadataView,
    pub volume_snapshot_class_name: Seq<char>,
    pub source: VolumeSnapshotSourceView,
}

impl View for VolumeSnapshot {
    type V = VolumeSnapshotView;

    open spec fn view(&self) -> VolumeSnapshotView {
        VolumeSnapshotView {
            metadata: self.metadata@,
            volume_snapshot_class_name: self.volume_snapshot_class_name@,
            source: self.source@,
        }
    }
}

/// The status a snapshot object reports once the cluster's snapshot
/// controller has acted on it. A fresh object has no status at all; a bound
/// one names its content object; a ready one is marked usable.
#[derive(Clone, Debug, PartialEq, Eq)]
pub struct VolumeSnapshotStatus {
    pub ready_to_use: Option<bool>,
    pub bound_volume_snapshot_content_name: Option<String>,
    pub restore_size: Option<String>,
}

/// The snapshot descriptor the builder constructs, as a function of the
/// builder's inputs alone.
pub open spec fn spec_volume_snapshot(
    name: Seq<char>,
    namespace: Seq<char>,
    volume_snapshot_class: Seq<char>,
    source_pvc_name: Option<Seq<char>>,
    vsc_name: Option<Seq<char>>,
    snapshot_handle: Option<Seq<char>>,
    restore_size: Option<Seq<char>>,
    vsc_retain_policy: VSCRetainPolicy,
) -> VolumeSnapshotView {
    VolumeSnapshotView {
        metadata: VsMetadataView {
            name: name,
            namespace: namespace,
            annotations: VsAnnotationsView {
                csi_driver_name: spec_csi_driver_value(),
                csi_vsc_deletion_policy: vsc_retain_policy.spec_string(),
                csi_volumesnapshot_handle: snapshot_handle,
                csi_volumesnapshot_restore_size: restore_size,
            },
            finalizers: seq![VSResourceValues::Finalizers.spec_value()],
            labels: VsLabelsView { app_instance: namespace },
        },
        volume_snapshot_class_name: volume_snapshot_class,
        source: VolumeSnapshotSourceView {
            persistent_volume_claim_name: source_pvc_name,
            volume_snapshot_content_name: vsc_name,
        },
    }
}

/// Holds the typed parameters of a snapshot descriptor and constructs the
/// descriptor from them.
pub struct VolumeSnapshotOperator {
    pub name: String,
    pub namespace: String,
    pub volume_snapshot_class: String,
    pub source_pvc_name: Option<String>,
    pub vsc_name: Option<String>,
}

impl VolumeSnapshotOperator {
    /// Creates an operator over the given snapshot parameters.
    pub fn new(
        name: String,
        namespace: String,
        volume_snapshot_class: String,
        source_pvc_name: Option<String>,
        vsc_name: Option<String>,
    ) -> (r: Self)
        ensures
            r.name == name,
            r.namespace == namespace,
            r.volume_snapshot_class == volume_snapshot_class,
            r.source_pvc_name == source_pvc_name,
            r.vsc_name == vsc_name,
    {
        Self { name, namespace, volume_snapshot_class, source_pvc_name, vsc_name }
    }

    /// Constructs the snapshot descriptor: name, namespace, class and source
    /// as held by the operator; the two fixed annotations always present;
    /// the handle and restore-size annotations present exactly when those
    /// arguments are given; the bound-protection finalizer always attached.
    pub fn construct_volume_snapshot_resource(
        &self,
        snapshot_handle: Option<String>,
        restore_size: Option<String>,
        vsc_retain_policy: VSCRetainPolicy,
    ) -> (r: VolumeSnapshot)
        ensures
            r@ == spec_volume_snapshot(
                self.name@,
                self.namespace@,
                self.volume_snapshot_class@,
                self.source_pvc_name.deep_view(),
                self.vsc_name.deep_view(),
                snapshot_handle.deep_view(),
                restore_size.deep_view(),
                vsc_retain_policy,
            ),
    {
        let annotations = VsAnnotations {
            csi_driver_name: "ebs.csi.aws.com".to_owned(),
            csi_vsc_deletion_policy: vsc_retain_policy.to_string(),
            csi_volumesnapshot_handle: snapshot_handle,
            csi_volumesnapshot_restore_size: restore_size,
        };
        let mut finalizers: Vec<String> = Vec::new();
        finalizers.push(VSResourceValues::Finalizers.get_value());
        let labels = VsLabels { app_instance: self.namespace.clone() };
        let r = VolumeSnapshot {
            metadata: VsMetadata {
                name: self.name.clone(),
                namespace: self.namespace.clone(),
                annotations,
                finalizers,
                labels,
            },
            volume_snapshot_class_name: self.volume_snapshot_class.clone(),
            source: VolumeSnapshotSource {
                persistent_volume_claim_name: self.source_pvc_name.clone(),
                volume_snapshot_content_name: self.vsc_name.clone(),
            },
        };
        proof {
            assert(r@ =~~= spec_volume_snapshot(
                self.name@,
                self.namespace@,
                self.volume_snapshot_class@,
                self.source_pvc_name.deep_view(),
                self.vsc_name.deep_view(),
                snapshot_handle.deep_view(),
                restore_size.deep_view(),
                vsc_retain_policy,
            ));
        }
        r
    }
}

/// The snapshot builder is deterministic: two descriptors built from
/// identical inputs are identical.
pub proof fn lemma_volume_snapshot_builder_deterministic(
    a: VolumeSnapshot,
    b: VolumeSnapshot,
    name: Seq<char>,
    namespace: Seq<char>,
    volume_snapshot_class: Seq<char>,
    source_pvc_name: Option<Seq<char>>,
    vsc_name: Option<Seq<char>>,
    snapshot_handle: Option<Seq<char>>,
    restore_size: Option<Seq<char>>,
    vsc_retain_policy: VSCRetainPolicy,
)
    requires
        a@ == spec_volume_snapshot(name, namespace, volume_snapshot_class, source_pvc_name,
            vsc_name, snapshot_handle, restore_size, vsc_retain_policy),
        b@ == spec_volume_snapshot(name, namespace, volume_snapshot_class, source_pvc_name,
            vsc_name, snapshot_handle, restore_size, vsc_retain_policy),
    ensures
        a@ == b@,
{
}

/// The built descriptor carries the provider-handle annotation exactly when
/// a handle was passed, and the restore-size annotation exactly when a size
/// was passed.
pub proof fn lemma_volume_snapshot_annotation_presence(
    name: Seq<char>,
    namespace: Seq<char>,
    volume_snapshot_class: Seq<char>,
    source_pvc_name: Option<Seq<char>>,
    vsc_name: Option<Seq<char>>,
    snapshot_handle: Option<Seq<char>>,
    restore_size: Option<Seq<char>>,
    vsc_retain_policy: VSCRetainPolicy,
)
    ensures
        ({
            let r = spec_volume_snapshot(name, namespace, volume_snapshot_class, source_pvc_name,
                vsc_name, snapshot_handle, restore_size, vsc_retain_policy);
            &&& (r.metadata.annotations.csi_volumesnapshot_handle is Some <==> snapshot_handle is Some)
            &&& (r.metadata.annotations.csi_volumesnapshot_restore_size is Some <==> restore_size is Some)
            &&& r.metadata.annotations.csi_volumesnapshot_handle == snapshot_handle
            &&& r.metadata.annotations.csi_volumesnapshot_restore_size == restore_size
        }),
{
}

} // verus!
