//! The fatal-error taxonomy of the orchestration engine: precondition
//! violations, resource-API rejections, and incomplete status objects.
//! Every variant is operation-ending; the observability path never raises
//! one.

use vstd::prelude::*;
use vstd::string::StringExecFns;

verus! {

/// A fatal error of a backup or restore operation. Each variant names the
/// offending resource so a caller can match on the kind of failure.
#[derive(Clone, Debug, PartialEq, Eq)]
pub enum EngineError {
    /// No volume name was given although the selection does not cover the
    /// whole namespace.
    MissingVolumeName,
    /// A volume declared as the backup source is absent.
    SourceVolumeMissing { pvc_name: String },
    /// The restore target volume already exists, which would be overwritten.
    TargetVolumeExists { pvc_name: String },
    /// The cluster API refused a create request.
    CreateRejected { resource_name: String, reason: String },
    /// The source snapshot a restore relies on is absent.
    SourceSnapshotMissing { vs_name: String },
    /// An object exists but lacks an expected status field.
    StatusIncomplete { resource_name: String },
}

impl EngineError {
    /// The descriptive message of this error.
    pub open spec fn spec_message(self) -> Seq<char> {
        match self {
            EngineError::MissingVolumeName => "PVC name is required when include_all_pvcs is false"@,
            EngineError::SourceVolumeMissing { pvc_name } => "Failed to get PVC: "@ + pvc_name@,
            EngineError::TargetVolumeExists { pvc_name } => "PVC already exists on the target namespace: "@
                + pvc_name@,
            EngineError::CreateRejected { resource_name, reason } => "Failed to create "@ + resource_name@
                + ": "@ + reason@,
            EngineError::SourceSnapshotMissing { vs_name } => "Failed to get VolumeSnapshot status: "@
                + vs_name@,
            EngineError::StatusIncomplete { resource_name } => "Status of "@ + resource_name@
                + " is not available"@,
        }
    }

    /// Renders the descriptive message identifying the failing step and the
    /// offending resource.
    pub fn message(&self) -> (r: String)
        ensures
            r@ == self.spec_message(),
    {
        match self {
            EngineError::MissingVolumeName => {
                "PVC name is required when include_all_pvcs is false".to_owned()
            },
            EngineError::SourceVolumeMissing { pvc_name } => {
                let mut r = "Failed to get PVC: ".to_owned();
                r.append(pvc_name.as_str());
                r
            },
            EngineError::TargetVolumeExists { pvc_name } => {
                let mut r = "PVC already exists on the target namespace: ".to_owned();
                r.append(pvc_name.as_str());
                r
            },
            EngineError::CreateRejected { resource_name, reason } => {
                let mut r = "Failed to create ".to_owned();
                r.append(resource_name.as_str());
                r.append(": ");
                r.append(reason.as_str());
                r
            },
            EngineError::SourceSnapshotMissing { vs_name } => {
                let mut r = "Failed to get VolumeSnapshot status: ".to_owned();
                r.append(vs_name.as_str());
                r
            },
            EngineError::StatusIncomplete { resource_name } => {
                let mut r = "Status of ".to_owned();
                r.append(resource_name.as_str());
                r.append(" is not available");
                r
            },
        }
    }
}

} // verus!
