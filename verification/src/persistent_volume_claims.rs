//! Volume-claim descriptors: the model of a cluster volume claim, the
//! builder that constructs a claim restored from a snapshot, and the
//! existence-check guard that protects mutating operations.

use vstd::prelude::*;
use crate::errors::EngineError;

verus! {

/// Fixed strings a volume-claim descriptor carries, and the defaults used
/// when the caller does not override them.
pub enum PVCResourceValues {
    AccessModes,
    K8sKind,
    ApiGroup,
    VolumeMode,
    StorageClass,
}

impl PVCResourceValues {
    /// The value of this table entry.
    pub open spec fn spec_value(self) -> Seq<char> {
        match self {
            PVCResourceValues::AccessModes => "ReadWriteOnce"@,
            PVCResourceValues::K8sKind => "VolumeSnapshot"@,
            PVCResourceValues::ApiGroup => "snapshot.storage.k8s.io"@,
            PVCResourceValues::VolumeMode => "Filesystem"@,
            PVCResourceValues::StorageClass => "gp3"@,
        }
    }

    /// Returns the value of this table entry.
    pub fn get_value(&self) -> (r: String)
        ensures
            r@ == self.spec_value(),
    {
        match self {
            PVCResourceValues::AccessModes => "ReadWriteOnce".to_owned(),
            PVCResourceValues::K8sKind => "VolumeSnapshot".to_owned(),
            PVCResourceValues::ApiGroup => "snapshot.storage.k8s.io".to_owned(),
            PVCResourceValues::VolumeMode => "Filesystem".to_owned(),
            PVCResourceValues::StorageClass => "gp3".to_owned(),
        }
    }
}

/// The labels of a volume-claim descriptor: the snapshot-name label is
/// always present.
#[derive(Clone, Debug, PartialEq, Eq)]
pub struct PvcLabels {
    pub volume_snapshot_name: String,
}

/// The abstract value of [`PvcLabels`].
#[verifier::ext_equal]
pub ghost struct PvcLabelsView {
    pub volume_snapshot_name: Seq<char>,
}

impl View for PvcLabels {
    type V = PvcLabelsView;

    open spec fn view(&self) -> PvcLabelsView {
        PvcLabelsView { volume_snapshot_name: self.volume_snapshot_name@ }
    }
}

/// The object metadata of a volume-claim descriptor.
#[derive(Clone, Debug, PartialEq, Eq)]
pub struct PvcMetadata {
    pub name: String,
    pub namespace: String,
    pub labels: PvcLabels,
}

/// The abstract value of [`PvcMetadata`].
#[verifier::ext_equal]
pub ghost struct PvcMetadataView {
    pub name: Seq<char>,
    pub namespace: Seq<char>,
    pub labels: PvcLabelsView,
}

impl View for PvcMetadata {
    type V = PvcMetadataView;

    open spec fn view(&self) -> PvcMetadataView {
        PvcMetadataView { name: self.name@, namespace: self.namespace@, labels: self.labels@ }
    }
}

/// The legacy single-field reference to the data source of a claim.
#[derive(Clone, Debug, PartialEq, Eq)]
pub struct TypedLocalObjectReference {
    pub name: String,
    pub kind: String,
    pub api_group: String,
}

/// The abstract value of [`TypedLocalObjectReference`].
#[verifier::ext_equal]
pub ghost struct TypedLocalObjectReferenceView {
    pub name: Seq<char>,
    pub kind: Seq<char>,
    pub api_group: Seq<char>,
}

impl View for TypedLocalObjectReference {
    type V = TypedLocalObjectReferenceView;

    open spec fn view(&self) -> TypedLocalObjectReferenceView {
        TypedLocalObjectReferenceView {
            name: self.name@,
            kind: self.kind@,
            api_group: self.api_group@,
        }
    }
}

/// The generic typed reference to the data source of a claim.
#[derive(Clone, Debug, PartialEq, Eq)]
pub struct TypedObjectReference {
    pub name: String,
    pub kind: String,
    pub api_group: String,
    pub namespace: String,
}

/// The abstract value of [`TypedObjectReference`].
#[verifier::ext_equal]
pub ghost struct TypedObjectReferenceView {
    pub name: Seq<char>,
    pub kind: Seq<char>,
    pub api_group: Seq<char>,
    pub namespace: Seq<char>,
}

impl View for TypedObjectReference {
    type V = TypedObjectReferenceView;

    open spec fn view(&self) -> TypedObjectReferenceView {
        TypedObjectReferenceView {
            name: self.name@,
            kind: self.kind@,
            api_group: self.api_group@,
            namespace: self.namespace@,
        }
    }
}

/// A volume-claim descriptor: what the engine submits to materialize the
/// restored volume. The data source is declared twice, through the legacy
/// reference and the generic typed one, both naming the snapshot.
#[derive(Clone, Debug, PartialEq, Eq)]
pub struct PersistentVolumeClaim {
    pub metadata: PvcMetadata,
    pub access_modes: Vec<String>,
    pub storage_class_name: String,
    pub data_source: TypedLocalObjectReference,
    pub data_source_ref: TypedObjectReference,
    pub volume_mode: String,
    pub requests_storage: String,
}

/// The abstract value of [`PersistentVolumeClaim`].
#[verifier::ext_equal]
pub ghost struct PersistentVolumeClaimView {
    pub metadata: PvcMetadataView,
    pub access_modes: Seq<Seq<char>>,
    pub storage_class_name: Seq<char>,
    pub data_source: TypedLocalObjectReferenceView,
    pub data_source_ref: TypedObjectReferenceView,
    pub volume_mode: Seq<char>,
    pub requests_storage: Seq<char>,
}

impl View for PersistentVolumeClaim {
    type V = PersistentVolumeClaimView;

    open spec fn view(&self) -> PersistentVolumeClaimView {
        PersistentVolumeClaimView {
            metadata: self.metadata@,
            access_modes: self.access_modes.deep_view(),
            storage_class_name: self.storage_class_name@,
            data_source: self.data_source@,
            data_source_ref: self.data_source_ref@,
            volume_mode: self.volume_mode@,
            requests_storage: self.requests_storage@,
        }
    }
}

/// Typed parameters of a volume-claim descriptor.
pub struct PVCOperatorPayload {
    pub pvc_name: String,
    pub namespace: String,
    pub storage_class: Option<String>,
    pub access_modes: Option<Vec<String>>,
    pub volume_snapshot_name: String,
    pub restore_size: String,
}

impl PVCOperatorPayload {
    /// Creates a new payload from the claim parameters. Storage class and
    /// access modes are optional; the builder fills in the defaults.
    pub fn new(
        pvc_name: String,
        namespace: String,
        storage_class: Option<String>,
        access_modes: Option<Vec<String>>,
        volume_snapshot_name: String,
        restore_size: String,
    ) -> (r: Self)
        ensures
            r.pvc_name == pvc_name,
            r.namespace == namespace,
            r.storage_class == storage_class,
            r.access_modes == access_modes,
            r.volume_snapshot_name == volume_snapshot_name,
            r.restore_size == restore_size,
    {
        Self { pvc_name, namespace, storage_class, access_modes, volume_snapshot_name, restore_size }
    }

    /// The name the claim will carry.
    pub fn pvc_name(&self) -> (r: &str)
        ensures
            r@ == self.pvc_name@,
    {
        self.pvc_name.as_str()
    }

    /// The namespace the claim will live in.
    pub fn namespace(&self) -> (r: &str)
        ensures
            r@ == self.namespace@,
    {
        self.namespace.as_str()
    }

    /// The storage class the caller chose, if any.
    pub fn storage_class(&self) -> (r: Option<&str>)
        ensures
            r.deep_view() == self.storage_class.deep_view(),
    {
        match &self.storage_class {
            Some(s) => Some(s.as_str()),
            None => None,
        }
    }

    /// The access modes the caller chose, if any.
    pub fn access_modes(&self) -> (r: Option<Vec<String>>)
        ensures
            r.deep_view() == self.access_modes.deep_view(),
    {
        match &self.access_modes {
            Some(v) => {
                let c = v.clone();
                proof {
                    assert forall|i: int| 0 <= i < v@.len() implies c@[i] == v@[i] by {}
                    assert(c@ =~= v@);
                    assert(c.deep_view() =~= v.deep_view());
                }
                Some(c)
            },
            None => None,
        }
    }

    /// The snapshot the claim is sourced from.
    pub fn volume_snapshot_name(&self) -> (r: &str)
        ensures
            r@ == self.volume_snapshot_name@,
    {
        self.volume_snapshot_name.as_str()
    }

    /// The capacity the claim requests.
    pub fn restore_size(&self) -> (r: &str)
        ensures
            r@ == self.restore_size@,
    {
        self.restore_size.as_str()
    }
}

/// The volume-claim descriptor the builder constructs, as a function of
/// the payload alone.
pub open spec fn spec_persistent_volume_claim(
    pvc_name: Seq<char>,
    namespace: Seq<char>,
    storage_class: Option<Seq<char>>,
    access_modes: Option<Seq<Seq<char>>>,
    volume_snapshot_name: Seq<char>,
    restore_size: Seq<char>,
) -> PersistentVolumeClaimView {
    PersistentVolumeClaimView {
        metadata: PvcMetadataView {
            name: pvc_name,
            namespace: namespace,
            labels: PvcLabelsView { volume_snapshot_name: pvc_name },
        },
        access_modes: match access_modes {
            Some(v) => v,
            None => seq![PVCResourceValues::AccessModes.spec_value()],
        },
        storage_class_name: match storage_class {
            Some(s) => s,
            None => PVCResourceValues::StorageClass.spec_value(),
        },
        data_source: TypedLocalObjectReferenceView {
            name: volume_snapshot_name,
            kind: PVCResourceValues::K8sKind.spec_value(),
            api_group: PVCResourceValues::ApiGroup.spec_value(),
        },
        data_source_ref: TypedObjectReferenceView {
            name: volume_snapshot_name,
            kind: PVCResourceValues::K8sKind.spec_value(),
            api_group: PVCResourceValues::ApiGroup.spec_value(),
            namespace: namespace,
        },
        volume_mode: PVCResourceValues::VolumeMode.spec_value(),
        requests_storage: restore_size,
    }
}

/// Holds a claim payload and constructs the claim descriptor from it.
pub struct PVCOperator {
    pub pvc_operator_payload: PVCOperatorPayload,
}

impl PVCOperator {
    /// Creates an operator over the given payload.
    pub fn new(pvc_operator_payload: PVCOperatorPayload) -> (r: Self)
        ensures
            r.pvc_operator_payload == pvc_operator_payload,
    {
        Self { pvc_operator_payload }
    }

    /// Constructs the volume-claim descriptor: named and labelled after the
    /// claim, sourced twice from the snapshot, requesting the restore size
    /// as capacity, with the caller's storage class and access modes or the
    /// defaults where the caller gave none.
    pub fn construct_persistent_volume_claim_resource(&self) -> (r: PersistentVolumeClaim)
        ensures
            r@ == spec_persistent_volume_claim(
                self.pvc_operator_payload.pvc_name@,
                self.pvc_operator_payload.namespace@,
                self.pvc_operator_payload.storage_class.deep_view(),
                self.pvc_operator_payload.access_modes.deep_view(),
                self.pvc_operator_payload.volume_snapshot_name@,
                self.pvc_operator_payload.restore_size@,
            ),
    {
        let payload = &self.pvc_operator_payload;
        let access_modes: Vec<String> = match payload.access_modes() {
            Some(v) => v,
            None => {
                let mut v: Vec<String> = Vec::new();
                v.push(PVCResourceValues::AccessModes.get_value());
                v
            },
        };
        let storage_class_name: String = match payload.storage_class() {
            Some(s) => s.to_owned(),
            None => PVCResourceValues::StorageClass.get_value(),
        };
        let r = PersistentVolumeClaim {
            metadata: PvcMetadata {
                name: payload.pvc_name.clone(),
                namespace: payload.namespace.clone(),
                labels: PvcLabels { volume_snapshot_name: payload.pvc_name.clone() },
            },
            access_modes,
            storage_class_name,
            data_source: TypedLocalObjectReference {
                name: payload.volume_snapshot_name.clone(),
                kind: PVCResourceValues::K8sKind.get_value(),
                api_group: PVCResourceValues::ApiGroup.get_value(),
            },
            data_source_ref: TypedObjectReference {
                name: payload.volume_snapshot_name.clone(),
                kind: PVCResourceValues::K8sKind.get_value(),
                api_group: PVCResourceValues::ApiGroup.get_value(),
                namespace: payload.namespace.clone(),
            },
            volume_mode: PVCResourceValues::VolumeMode.get_value(),
            requests_storage: payload.restore_size.clone(),
        };
        proof {
            assert(r@ =~~= spec_persistent_volume_claim(
                self.pvc_operator_payload.pvc_name@,
                self.pvc_operator_payload.namespace@,
                self.pvc_operator_payload.storage_class.deep_view(),
                self.pvc_operator_payload.access_modes.deep_view(),
                self.pvc_operator_payload.volume_snapshot_name@,
                self.pvc_operator_payload.restore_size@,
            ));
        }
        r
    }
}

/// The claim builder is deterministic: two descriptors built from
/// identical payloads are identical.
pub proof fn lemma_persistent_volume_claim_builder_deterministic(
    a: PersistentVolumeClaim,
    b: PersistentVolumeClaim,
    pvc_name: Seq<char>,
    namespace: Seq<char>,
    storage_class: Option<Seq<char>>,
    access_modes: Option<Seq<Seq<char>>>,
    volume_snapshot_name: Seq<char>,
    restore_size: Seq<char>,
)
    requires
        a@ == spec_persistent_volume_claim(pvc_name, namespace, storage_class, access_modes,
            volume_snapshot_name, restore_size),
        b@ == spec_persistent_volume_claim(pvc_name, namespace, storage_class, access_modes,
            volume_snapshot_name, restore_size),
    ensures
        a@ == b@,
{
}

/// The identity of a volume as a get-by-name observes it.
#[derive(Clone, Debug, PartialEq, Eq)]
pub struct VolumeIdentity {
    pub name: String,
    pub namespace: String,
}

/// The existence-check guard. `fetched` is what a get-by-name observed:
/// the volume, or nothing. The volume is returned iff it is present and
/// expected to be; its absence is a success iff it is expected to be
/// absent. Either mismatch is a fatal precondition violation: a missing
/// backup source, or a restore target that would be overwritten.
pub fn check_if_pvc_exists(
    fetched: Option<VolumeIdentity>,
    pvc_name: &String,
    should_exist: bool,
) -> (r: Result<Option<VolumeIdentity>, EngineError>)
    ensures
        r is Ok <==> (fetched is Some <==> should_exist),
        match fetched {
            Some(v) => if should_exist {
                r == Ok::<Option<VolumeIdentity>, EngineError>(Some(v))
            } else {
                r == Err::<Option<VolumeIdentity>, EngineError>(EngineError::TargetVolumeExists {
                    pvc_name: *pvc_name,
                })
            },
            None => if should_exist {
                r == Err::<Option<VolumeIdentity>, EngineError>(EngineError::SourceVolumeMissing {
                    pvc_name: *pvc_name,
                })
            } else {
                r == Ok::<Option<VolumeIdentity>, EngineError>(None)
            },
        },
{
    match fetched {
        Some(v) => {
            if should_exist {
                Ok(Some(v))
            } else {
                Err(EngineError::TargetVolumeExists { pvc_name: pvc_name.clone() })
            }
        },
        None => {
            if should_exist {
                Err(EngineError::SourceVolumeMissing { pvc_name: pvc_name.clone() })
            } else {
                Ok(None)
            }
        },
    }
}

} // verus!
