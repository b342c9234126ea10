//! Snapshot-content descriptors: the model of the provider-level
//! counterpart of a snapshot, and the builder that constructs one for the
//! restore direction, pre-bound to an already-known provider handle.

use vstd::prelude::*;
use crate::errors::EngineError;
use crate::retain_policy::{spec_deletion_policy_of, VSCRetainPolicy, VolumeSnapshotContentDeletionPolicy};

verus! {

/// Fixed strings a snapshot-content descriptor carries.
pub enum VSCResourceValues {
    ApiVersion,
    Kind,
    Driver,
    SourceVolumeMode,
}

impl VSCResourceValues {
    /// The value of this table entry.
    pub open spec fn spec_value(self) -> Seq<char> {
        match self {
            VSCResourceValues::ApiVersion => "snapshot.storage.k8s.io/v1"@,
            VSCResourceValues::Kind => "VolumeSnapshot"@,
            VSCResourceValues::Driver => "ebs.csi.aws.com"@,
            VSCResourceValues::SourceVolumeMode => "Filesystem"@,
        }
    }

    /// Returns the value of this table entry.
    pub fn get_value(&self) -> (r: String)
        ensures
            r@ == self.spec_value(),
    {
        match self {
            VSCResourceValues::ApiVersion => "snapshot.storage.k8s.io/v1".to_owned(),
            VSCResourceValues::Kind => "VolumeSnapshot".to_owned(),
            VSCResourceValues::Driver => "ebs.csi.aws.com".to_owned(),
            VSCResourceValues::SourceVolumeMode => "Filesystem".to_owned(),
        }
    }
}

/// The object metadata of a snapshot-content descriptor.
#[derive(Clone, Debug, PartialEq, Eq)]
pub struct VscMetadata {
    pub name: String,
    pub namespace: String,
}

/// The abstract value of [`VscMetadata`].
#[verifier::ext_equal]
pub ghost struct VscMetadataView {
    pub name: Seq<char>,
    pub namespace: Seq<char>,
}

impl View for VscMetadata {
    type V = VscMetadataView;

    open spec fn view(&self) -> VscMetadataView {
        VscMetadataView { name: self.name@, namespace: self.namespace@ }
    }
}

/// The back-reference from a snapshot-content to the snapshot that owns it.
#[derive(Clone, Debug, PartialEq, Eq)]
pub struct VolumeSnapshotContentVolumeSnapshotRef {
    pub api_version: String,
    pub kind: String,
    pub name: String,
    pub namespace: String,
}

/// The abstract value of [`VolumeSnapshotContentVolumeSnapshotRef`].
#[verifier::ext_equal]
pub ghost struct VolumeSnapshotContentVolumeSnapshotRefView {
    pub api_version: Seq<char>,
    pub kind: Seq<char>,
    pub name: Seq<char>,
    pub namespace: Seq<char>,
}

impl View for VolumeSnapshotContentVolumeSnapshotRef {
    type V = VolumeSnapshotContentVolumeSnapshotRefView;

    open spec fn view(&self) -> VolumeSnapshotContentVolumeSnapshotRefView {
        VolumeSnapshotContentVolumeSnapshotRefView {
            api_version: self.api_version@,
            kind: self.kind@,
            name: self.name@,
            namespace: self.namespace@,
        }
    }
}

/// The source of a snapshot-content: for the restore direction, the
/// provider-native handle of the already-taken snapshot.
#[derive(Clone, Debug, PartialEq, Eq)]
pub struct VolumeSnapshotContentSource {
    pub snapshot_handle: Option<String>,
}

/// The abstract value of [`VolumeSnapshotContentSource`].
#[verifier::ext_equal]
pub ghost struct VolumeSnapshotContentSourceView {
    pub snapshot_handle: Option<Seq<char>>,
}

impl View for VolumeSnapshotContentSource {
    type V = VolumeSnapshotContentSourceView;

    open spec fn view(&self) -> VolumeSnapshotContentSourceView {
        VolumeSnapshotContentSourceView { snapshot_handle: self.snapshot_handle.deep_view() }
    }
}

/// The status of a snapshot-content object: the provider handle it is
/// bound to, once known.
#[derive(Clone, Debug, PartialEq, Eq)]
pub struct VolumeSnapshotContentStatus {
    pub snapshot_handle: Option<String>,
}

/// The abstract value of [`VolumeSnapshotContentStatus`].
#[verifier::ext_equal]
pub ghost struct VolumeSnapshotContentStatusView {
    pub snapshot_handle: Option<Seq<char>>,
}

impl View for VolumeSnapshotContentStatus {
    type V = VolumeSnapshotContentStatusView;

    open spec fn view(&self) -> VolumeSnapshotContentStatusView {
        VolumeSnapshotContentStatusView { snapshot_handle: self.snapshot_handle.deep_view() }
    }
}

/// A snapshot-content descriptor: what the engine submits when it creates
/// the provider-level counterpart of a snapshot in the restore direction,
/// pre-bound with a known handle rather than waiting on a controller.
#[derive(Clone, Debug, PartialEq, Eq)]
pub struct VolumeSnapshotContent {
    pub metadata: VscMetadata,
    pub volume_snapshot_ref: VolumeSnapshotContentVolumeSnapshotRef,
    pub deletion_policy: VolumeSnapshotContentDeletionPolicy,
    pub driver: String,
    pub source: VolumeSnapshotContentSource,
    pub volume_snapshot_class_name: Option<String>,
    pub source_volume_mode: String,
    pub status: VolumeSnapshotContentStatus,
}

/// The abstract value of [`VolumeSnapshotContent`].
#[verifier::ext_equal]
pub ghost struct VolumeSnapshotContentView {
    pub metadata: VscMetadataView,
    pub volume_snapshot_ref: VolumeSnapshotContentVolumeSnapshotRefView,
    pub deletion_policy: VolumeSnapshotContentDeletionPolicy,
    pub driver: Seq<char>,
    pub source: VolumeSnapshotContentSourceView,
    pub volume_snapshot_class_name: Option<Seq<char>>,
    pub source_volume_mode: Seq<char>,
    pub status: VolumeSnapshotContentStatusView,
}

impl View for VolumeSnapshotContent {
    type V = VolumeSnapshotContentView;

    open spec fn view(&self) -> VolumeSnapshotContentView {
        VolumeSnapshotContentView {
            metadata: self.metadata@,
            volume_snapshot_ref: self.volume_snapshot_ref@,
            deletion_policy: self.deletion_policy,
            driver: self.driver@,
            source: self.source@,
            volume_snapshot_class_name: self.volume_snapshot_class_name.deep_view(),
            source_volume_mode: self.source_volume_mode@,
            status: self.status@,
        }
    }
}

/// The snapshot-content descriptor the builder constructs, as a function of
/// the builder's inputs alone.
pub open spec fn spec_volume_snapshot_content(
    name: Seq<char>,
    namespace: Seq<char>,
    volume_snapshot_name: Seq<char>,
    volume_snapshot_class: Option<Seq<char>>,
    source_volume_handle: Option<Seq<char>>,
    vsc_retain_policy: VSCRetainPolicy,
) -> VolumeSnapshotContentView {
    VolumeSnapshotContentView {
        metadata: VscMetadataView { name: name, namespace: namespace },
        volume_snapshot_ref: VolumeSnapshotContentVolumeSnapshotRefView {
            api_version: VSCResourceValues::ApiVersion.spec_value(),
            kind: VSCResourceValues::Kind.spec_value(),
            name: volume_snapshot_name,
            namespace: namespace,
        },
        deletion_policy: spec_deletion_policy_of(vsc_retain_policy),
        driver: VSCResourceValues::Driver.spec_value(),
        source: VolumeSnapshotContentSourceView { snapshot_handle: source_volume_handle },
        volume_snapshot_class_name: volume_snapshot_class,
        source_volume_mode: VSCResourceValues::SourceVolumeMode.spec_value(),
        status: VolumeSnapshotContentStatusView { snapshot_handle: source_volume_handle },
    }
}

/// Holds the typed parameters of a snapshot-content descriptor and
/// constructs the descriptor from them.
pub struct VolumeSnapshotContentOperator {
    pub name: String,
    pub namespace: String,
    pub volume_snapshot_name: String,
    pub volume_snapshot_class: Option<String>,
    pub source_volume_handle: Option<String>,
    pub vsc_retain_policy: VSCRetainPolicy,
}

impl VolumeSnapshotContentOperator {
    /// Creates an operator over the given snapshot-content parameters.
    pub fn new(
        name: String,
        namespace: String,
        volume_snapshot_name: String,
        volume_snapshot_class: Option<String>,
        source_volume_handle: Option<String>,
        vsc_retain_policy: VSCRetainPolicy,
    ) -> (r: Self)
        ensures
            r.name == name,
            r.namespace == namespace,
            r.volume_snapshot_name == volume_snapshot_name,
            r.volume_snapshot_class == volume_snapshot_class,
            r.source_volume_handle == source_volume_handle,
            r.vsc_retain_policy == vsc_retain_policy,
    {
        Self {
            name,
            namespace,
            volume_snapshot_name,
            volume_snapshot_class,
            source_volume_handle,
            vsc_retain_policy,
        }
    }

    /// Constructs the snapshot-content descriptor: pre-bound with the held
    /// provider handle in both its source and its status, back-referencing
    /// the owning snapshot in the same namespace, with the deletion policy
    /// mapped from the caller's retention policy.
    pub fn construct_volume_snapshot_content_resource(&self) -> (r: VolumeSnapshotContent)
        ensures
            r@ == spec_volume_snapshot_content(
                self.name@,
                self.namespace@,
                self.volume_snapshot_name@,
                self.volume_snapshot_class.deep_view(),
                self.source_volume_handle.deep_view(),
                self.vsc_retain_policy,
            ),
    {
        let r = VolumeSnapshotContent {
            metadata: VscMetadata { name: self.name.clone(), namespace: self.namespace.clone() },
            volume_snapshot_ref: VolumeSnapshotContentVolumeSnapshotRef {
                api_version: VSCResourceValues::ApiVersion.get_value(),
                kind: VSCResourceValues::Kind.get_value(),
                name: self.volume_snapshot_name.clone(),
                namespace: self.namespace.clone(),
            },
            deletion_policy: VolumeSnapshotContentDeletionPolicy::from(self.vsc_retain_policy),
            driver: VSCResourceValues::Driver.get_value(),
            source: VolumeSnapshotContentSource {
                snapshot_handle: self.source_volume_handle.clone(),
            },
            volume_snapshot_class_name: self.volume_snapshot_class.clone(),
            source_volume_mode: VSCResourceValues::SourceVolumeMode.get_value(),
            status: VolumeSnapshotContentStatus {
                snapshot_handle: self.source_volume_handle.clone(),
            },
        };
        proof {
            assert(r@ =~~= spec_volume_snapshot_content(
                self.name@,
                self.namespace@,
                self.volume_snapshot_name@,
                self.volume_snapshot_class.deep_view(),
                self.source_volume_handle.deep_view(),
                self.vsc_retain_policy,
            ));
        }
        r
    }
}

/// The snapshot-content builder is deterministic: two descriptors built
/// from identical inputs are identical.
pub proof fn lemma_volume_snapshot_content_builder_deterministic(
    a: VolumeSnapshotContent,
    b: VolumeSnapshotContent,
    name: Seq<char>,
    namespace: Seq<char>,
    volume_snapshot_name: Seq<char>,
    volume_snapshot_class: Option<Seq<char>>,
    source_volume_handle: Option<Seq<char>>,
    vsc_retain_policy: VSCRetainPolicy,
)
    requires
        a@ == spec_volume_snapshot_content(name, namespace, volume_snapshot_name,
            volume_snapshot_class, source_volume_handle, vsc_retain_policy),
        b@ == spec_volume_snapshot_content(name, namespace, volume_snapshot_name,
            volume_snapshot_class, source_volume_handle, vsc_retain_policy),
    ensures
        a@ == b@,
{
}

/// Reads the provider-native handle out of an observed snapshot-content
/// status. The handle is returned exactly when the status exists and names
/// one; a content object without a status, or with a status that lacks the
/// handle, is reported as incomplete.
pub fn snapshot_handle_from_status(
    vsc_name: &String,
    status: Option<VolumeSnapshotContentStatus>,
) -> (r: Result<String, EngineError>)
    ensures
        match status {
            Some(st) => match st.snapshot_handle {
                Some(h) => r == Ok::<String, EngineError>(h),
                None => r == Err::<String, EngineError>(EngineError::StatusIncomplete {
                    resource_name: *vsc_name,
                }),
            },
            None => r == Err::<String, EngineError>(EngineError::StatusIncomplete {
                resource_name: *vsc_name,
            }),
        },
{
    match status {
        Some(st) => match st.snapshot_handle {
            Some(h) => Ok(h),
            None => Err(EngineError::StatusIncomplete { resource_name: vsc_name.clone() }),
        },
        None => Err(EngineError::StatusIncomplete { resource_name: vsc_name.clone() }),
    }
}

} // verus!
