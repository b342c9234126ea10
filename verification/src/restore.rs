//! The restore engine: for each selected volume, assert the target volume
//! does not exist, locate the backup snapshot by the naming scheme, resolve
//! its provider handle, then create — in load-bearing order — the target
//! snapshot-content, the target snapshot sourced from it, and the target
//! volume claim sourced from that snapshot. No step is rolled back: a
//! failure leaves everything already created in place.

use vstd::prelude::*;
use crate::errors::EngineError;
use crate::names::{prefixed_name, spec_prefixed_name};
use crate::persistent_volume_claims::{
    check_if_pvc_exists, spec_persistent_volume_claim, PVCOperator, PVCOperatorPayload,
    PersistentVolumeClaim, VolumeIdentity,
};
use crate::retain_policy::VSCRetainPolicy;
use crate::volume_snapshot_contents::{
    snapshot_handle_from_status, spec_volume_snapshot_content, VolumeSnapshotContent,
    VolumeSnapshotContentOperator, VolumeSnapshotContentStatus,
};
use crate::volume_snapshots::{
    spec_volume_snapshot, VolumeSnapshot, VolumeSnapshotOperator, VolumeSnapshotStatus,
};
use crate::backup::spec_backup_snapshot_name;

verus! {

/// Parameters of a restore operation.
pub struct RestorePayload {
    pub source_ns: String,
    pub target_ns: String,
    pub volume_snapshot_class: String,
    pub pvc_name: Option<String>,
    pub include_all_pvcs: bool,
    pub vs_name_prefix: String,
    pub vsc_name_prefix: String,
    pub storage_class_name: String,
    pub vsc_retain_policy: VSCRetainPolicy,
}

impl RestorePayload {
    /// Creates a new restore payload. Exactly one of `pvc_name` and
    /// `include_all_pvcs` is meant to be given; the engine rejects a
    /// selection that names no volume.
    pub fn new(
        source_ns: String,
        target_ns: String,
        volume_snapshot_class: String,
        pvc_name: Option<String>,
        include_all_pvcs: bool,
        vs_name_prefix: String,
        vsc_name_prefix: String,
        storage_class_name: String,
        vsc_retain_policy: VSCRetainPolicy,
    ) -> (r: Self)
        ensures
            r.source_ns == source_ns,
            r.target_ns == target_ns,
            r.volume_snapshot_class == volume_snapshot_class,
            r.pvc_name == pvc_name,
            r.include_all_pvcs == include_all_pvcs,
            r.vs_name_prefix == vs_name_prefix,
            r.vsc_name_prefix == vsc_name_prefix,
            r.storage_class_name == storage_class_name,
            r.vsc_retain_policy == vsc_retain_policy,
    {
        Self {
            source_ns,
            target_ns,
            volume_snapshot_class,
            pvc_name,
            include_all_pvcs,
            vs_name_prefix,
            vsc_name_prefix,
            storage_class_name,
            vsc_retain_policy,
        }
    }

    /// The namespace the backup snapshots live in.
    pub fn source_ns(&self) -> (r: &str)
        ensures
            r@ == self.source_ns@,
    {
        self.source_ns.as_str()
    }

    /// The namespace the volumes are restored into.
    pub fn target_ns(&self) -> (r: &str)
        ensures
            r@ == self.target_ns@,
    {
        self.target_ns.as_str()
    }

    /// The snapshot class the target snapshot and content carry.
    pub fn volume_snapshot_class(&self) -> (r: &str)
        ensures
            r@ == self.volume_snapshot_class@,
    {
        self.volume_snapshot_class.as_str()
    }

    /// The explicitly named volume, if one was given.
    pub fn pvc_name(&self) -> (r: Option<&str>)
        ensures
            r.deep_view() == self.pvc_name.deep_view(),
    {
        match &self.pvc_name {
            Some(s) => Some(s.as_str()),
            None => None,
        }
    }

    /// Whether every volume of the source namespace is selected.
    pub fn include_all_pvcs(&self) -> (r: bool)
        ensures
            r == self.include_all_pvcs,
    {
        self.include_all_pvcs
    }

    /// The prefix the backup snapshots were named with.
    pub fn vs_name_prefix(&self) -> (r: &str)
        ensures
            r@ == self.vs_name_prefix@,
    {
        self.vs_name_prefix.as_str()
    }

    /// The prefix the target snapshot-contents are named with.
    pub fn vsc_name_prefix(&self) -> (r: &str)
        ensures
            r@ == self.vsc_name_prefix@,
    {
        self.vsc_name_prefix.as_str()
    }

    /// The storage class the restored claims request.
    pub fn storage_class_name(&self) -> (r: &str)
        ensures
            r@ == self.storage_class_name@,
    {
        self.storage_class_name.as_str()
    }

    /// The caller's retention policy, authoritative for the restore
    /// direction.
    pub fn vsc_retain_policy(&self) -> (r: &VSCRetainPolicy)
        ensures
            r == self.vsc_retain_policy,
    {
        &self.vsc_retain_policy
    }
}

/// The name of the backup snapshot a restore locates for a volume,
/// derived from the naming scheme alone, with no lookup.
pub open spec fn spec_restore_source_snapshot_name(
    vs_name_prefix: Seq<char>,
    pvc_name: Seq<char>,
) -> Seq<char> {
    spec_prefixed_name(vs_name_prefix, pvc_name)
}

/// The name of the snapshot-content a restore creates for a volume.
pub open spec fn spec_restore_content_name(
    vsc_name_prefix: Seq<char>,
    pvc_name: Seq<char>,
) -> Seq<char> {
    spec_prefixed_name(vsc_name_prefix, pvc_name)
}

/// A restore locates the source snapshot under exactly the name a backup
/// with the same prefix created it under: the naming scheme correlates the
/// two operations without any lookup index.
pub proof fn lemma_backup_restore_naming(vs_name_prefix: Seq<char>, pvc_name: Seq<char>)
    ensures
        spec_restore_source_snapshot_name(vs_name_prefix, pvc_name) == spec_backup_snapshot_name(
            vs_name_prefix,
            pvc_name,
        ),
{
}

/// Where a restore run stands. The volume list is resolved once, then the
/// volumes are worked through strictly in order; within one volume the
/// three creates happen content-first, claim-last.
#[derive(Clone, Debug, PartialEq, Eq)]
pub enum RestoreState {
    /// Waiting for the source namespace's volume list.
    SelectingVolumes,
    /// Waiting for the existence check of volume `idx` in the target
    /// namespace; the volume must be absent there.
    CheckingTarget { pvcs: Vec<String>, idx: usize },
    /// Waiting for the source snapshot of volume `idx`.
    FetchingSourceSnapshot { pvcs: Vec<String>, idx: usize },
    /// Waiting for the provider handle of the bound snapshot-content.
    ResolvingHandle { pvcs: Vec<String>, idx: usize, bound_vsc_name: String, restore_size: String },
    /// Waiting for the outcome of the snapshot-content create request.
    CreatingContent { pvcs: Vec<String>, idx: usize, snapshot_handle: String, restore_size: String },
    /// Waiting for the outcome of the target snapshot create request.
    CreatingSnapshot { pvcs: Vec<String>, idx: usize, snapshot_handle: String, restore_size: String },
    /// Waiting for the outcome of the volume-claim create request.
    CreatingClaim { pvcs: Vec<String>, idx: usize, restore_size: String },
    /// Every selected volume was restored.
    Complete,
    /// The operation ended on a fatal error; resources already created
    /// stay in place.
    Failed { error: EngineError },
}

/// The outcome of the one cluster operation the engine asked for.
#[derive(Clone, Debug, PartialEq, Eq)]
pub enum RestoreEvent {
    /// The volume names the source namespace holds.
    VolumesListed { pvcs: Vec<String> },
    /// What a get-by-name of the current volume in the target namespace
    /// observed.
    VolumeFetched { fetched: Option<VolumeIdentity> },
    /// What a get of the source snapshot observed: `None` when the
    /// snapshot is absent, otherwise its status object, if any.
    SnapshotFetched { result: Option<Option<VolumeSnapshotStatus>> },
    /// What a get of the bound snapshot-content observed: its status, or
    /// `None` when the content or its status could not be read.
    HandleResolved { status: Option<VolumeSnapshotContentStatus> },
    /// The outcome of the pending create request; `None` on acceptance,
    /// the rejection message otherwise.
    CreateResult { error: Option<String> },
}

/// The one cluster operation the driver is asked to perform next.
#[derive(Clone, Debug, PartialEq, Eq)]
pub enum RestoreAction {
    /// List the volume names of the namespace.
    ListPvcs { namespace: String },
    /// Get the named volume.
    GetPvc { namespace: String, name: String },
    /// Get the named snapshot.
    GetVolumeSnapshot { namespace: String, name: String },
    /// Get the named snapshot-content (contents are cluster-scoped).
    GetSnapshotHandle { bound_vsc_name: String },
    /// Submit the snapshot-content descriptor.
    CreateVolumeSnapshotContent { resource: VolumeSnapshotContent },
    /// Submit the snapshot descriptor.
    CreateVolumeSnapshot { namespace: String, resource: VolumeSnapshot },
    /// Submit the volume-claim descriptor.
    CreatePersistentVolumeClaim { namespace: String, resource: PersistentVolumeClaim },
    /// The run is over; see the state for the outcome.
    Finish,
}

/// States that hold a volume list point at a volume inside it.
pub open spec fn restore_state_wf(state: RestoreState) -> bool {
    match state {
        RestoreState::CheckingTarget { pvcs, idx } => idx < pvcs@.len(),
        RestoreState::FetchingSourceSnapshot { pvcs, idx } => idx < pvcs@.len(),
        RestoreState::ResolvingHandle { pvcs, idx, .. } => idx < pvcs@.len(),
        RestoreState::CreatingContent { pvcs, idx, .. } => idx < pvcs@.len(),
        RestoreState::CreatingSnapshot { pvcs, idx, .. } => idx < pvcs@.len(),
        RestoreState::CreatingClaim { pvcs, idx, .. } => idx < pvcs@.len(),
        _ => true,
    }
}

/// Which event answers which state: the driver hands back exactly the
/// outcome of the action it was asked to perform.
pub open spec fn restore_step_enabled(state: RestoreState, event: RestoreEvent) -> bool {
    match (state, event) {
        (RestoreState::SelectingVolumes, RestoreEvent::VolumesListed { .. }) => true,
        (RestoreState::CheckingTarget { .. }, RestoreEvent::VolumeFetched { .. }) => true,
        (RestoreState::FetchingSourceSnapshot { .. }, RestoreEvent::SnapshotFetched { .. }) => true,
        (RestoreState::ResolvingHandle { .. }, RestoreEvent::HandleResolved { .. }) => true,
        (RestoreState::CreatingContent { .. }, RestoreEvent::CreateResult { .. }) => true,
        (RestoreState::CreatingSnapshot { .. }, RestoreEvent::CreateResult { .. }) => true,
        (RestoreState::CreatingClaim { .. }, RestoreEvent::CreateResult { .. }) => true,
        _ => false,
    }
}

/// The snapshot-content descriptor the restore submits for a volume:
/// named by the content scheme, back-referencing the snapshot name in the
/// target namespace, pre-bound with the resolved handle, with the
/// caller's retention policy.
pub open spec fn spec_restore_content_resource(
    payload: &RestorePayload,
    pvc_name: Seq<char>,
    snapshot_handle: Seq<char>,
) -> crate::volume_snapshot_contents::VolumeSnapshotContentView {
    spec_volume_snapshot_content(
        spec_restore_content_name(payload.vsc_name_prefix@, pvc_name),
        payload.target_ns@,
        spec_restore_source_snapshot_name(payload.vs_name_prefix@, pvc_name),
        Some(payload.volume_snapshot_class@),
        Some(snapshot_handle),
        payload.vsc_retain_policy,
    )
}

/// The snapshot descriptor the restore submits for a volume: sourced from
/// the content just created, carrying the handle and restore size as
/// annotations, with the caller's retention policy.
pub open spec fn spec_restore_snapshot_resource(
    payload: &RestorePayload,
    pvc_name: Seq<char>,
    snapshot_handle: Seq<char>,
    restore_size: Seq<char>,
) -> crate::volume_snapshots::VolumeSnapshotView {
    spec_volume_snapshot(
        spec_restore_source_snapshot_name(payload.vs_name_prefix@, pvc_name),
        payload.target_ns@,
        payload.volume_snapshot_class@,
        None,
        Some(spec_restore_content_name(payload.vsc_name_prefix@, pvc_name)),
        Some(snapshot_handle),
        Some(restore_size),
        payload.vsc_retain_policy,
    )
}

/// The volume-claim descriptor the restore submits for a volume: named
/// after the volume, sourced from the snapshot just created, requesting
/// the reported restore size, with the caller's storage class.
pub open spec fn spec_restore_claim_resource(
    payload: &RestorePayload,
    pvc_name: Seq<char>,
    restore_size: Seq<char>,
) -> crate::persistent_volume_claims::PersistentVolumeClaimView {
    spec_persistent_volume_claim(
        pvc_name,
        payload.target_ns@,
        Some(payload.storage_class_name@),
        None,
        spec_restore_source_snapshot_name(payload.vs_name_prefix@, pvc_name),
        restore_size,
    )
}

/// What one restore step yields: the next state and the action requested,
/// as a relation over the consumed state and event.
pub open spec fn restore_step_spec(
    payload: &RestorePayload,
    state: RestoreState,
    event: RestoreEvent,
    next: RestoreState,
    action: RestoreAction,
) -> bool {
    match (state, event) {
        (RestoreState::SelectingVolumes, RestoreEvent::VolumesListed { pvcs }) => {
            if pvcs@.len() == 0 {
                next == RestoreState::Complete && action == RestoreAction::Finish
            } else {
                next == (RestoreState::CheckingTarget { pvcs: pvcs, idx: 0 }) && action
                    == (RestoreAction::GetPvc { namespace: payload.target_ns, name: pvcs@[0] })
            }
        },
        (RestoreState::CheckingTarget { pvcs, idx }, RestoreEvent::VolumeFetched { fetched }) => {
            match fetched {
                None => next == (RestoreState::FetchingSourceSnapshot { pvcs: pvcs, idx: idx })
                    && (action matches RestoreAction::GetVolumeSnapshot { namespace, name }
                    && namespace == payload.source_ns && name@ == spec_restore_source_snapshot_name(
                    payload.vs_name_prefix@,
                    pvcs@[idx as int]@,
                )),
                Some(v) => next == (RestoreState::Failed {
                    error: EngineError::TargetVolumeExists { pvc_name: pvcs@[idx as int] },
                }) && action == RestoreAction::Finish,
            }
        },
        (RestoreState::FetchingSourceSnapshot { pvcs, idx }, RestoreEvent::SnapshotFetched {
            result,
        }) => {
            match result {
                None => (next matches RestoreState::Failed { error: e }
                    && e matches EngineError::SourceSnapshotMissing { vs_name }
                    && vs_name@ == spec_restore_source_snapshot_name(
                    payload.vs_name_prefix@,
                    pvcs@[idx as int]@,
                )) && action == RestoreAction::Finish,
                Some(status) => match status {
                    None => (next matches RestoreState::Failed { error: e }
                        && e matches EngineError::StatusIncomplete { resource_name }
                        && resource_name@ == spec_restore_source_snapshot_name(
                        payload.vs_name_prefix@,
                        pvcs@[idx as int]@,
                    )) && action == RestoreAction::Finish,
                    Some(st) => match (st.bound_volume_snapshot_content_name, st.restore_size) {
                        (Some(bound), Some(size)) => next == (RestoreState::ResolvingHandle {
                            pvcs: pvcs,
                            idx: idx,
                            bound_vsc_name: bound,
                            restore_size: size,
                        }) && action == (RestoreAction::GetSnapshotHandle { bound_vsc_name: bound }),
                        _ => (next matches RestoreState::Failed { error: e }
                            && e matches EngineError::StatusIncomplete { resource_name }
                            && resource_name@ == spec_restore_source_snapshot_name(
                            payload.vs_name_prefix@,
                            pvcs@[idx as int]@,
                        )) && action == RestoreAction::Finish,
                    },
                },
            }
        },
        (RestoreState::ResolvingHandle { pvcs, idx, bound_vsc_name, restore_size },
            RestoreEvent::HandleResolved { status }) => {
            match status {
                Some(st) => match st.snapshot_handle {
                    Some(handle) => next == (RestoreState::CreatingContent {
                        pvcs: pvcs,
                        idx: idx,
                        snapshot_handle: handle,
                        restore_size: restore_size,
                    }) && (action matches RestoreAction::CreateVolumeSnapshotContent { resource }
                        && resource@ == spec_restore_content_resource(
                        payload,
                        pvcs@[idx as int]@,
                        handle@,
                    )),
                    None => next == (RestoreState::Failed {
                        error: EngineError::StatusIncomplete { resource_name: bound_vsc_name },
                    }) && action == RestoreAction::Finish,
                },
                None => next == (RestoreState::Failed {
                    error: EngineError::StatusIncomplete { resource_name: bound_vsc_name },
                }) && action == RestoreAction::Finish,
            }
        },
        (RestoreState::CreatingContent { pvcs, idx, snapshot_handle, restore_size },
            RestoreEvent::CreateResult { error }) => {
            match error {
                None => next == (RestoreState::CreatingSnapshot {
                    pvcs: pvcs,
                    idx: idx,
                    snapshot_handle: snapshot_handle,
                    restore_size: restore_size,
                }) && (action matches RestoreAction::CreateVolumeSnapshot { namespace, resource }
                    && namespace == payload.target_ns && resource@ == spec_restore_snapshot_resource(
                    payload,
                    pvcs@[idx as int]@,
                    snapshot_handle@,
                    restore_size@,
                )),
                Some(reason) => (next matches RestoreState::Failed { error: e }
                    && e matches EngineError::CreateRejected { resource_name, reason: r2 }
                    && resource_name@ == spec_restore_content_name(
                    payload.vsc_name_prefix@,
                    pvcs@[idx as int]@,
                ) && r2 == reason) && action == RestoreAction::Finish,
            }
        },
        (RestoreState::CreatingSnapshot { pvcs, idx, snapshot_handle, restore_size },
            RestoreEvent::CreateResult { error }) => {
            match error {
                None => next == (RestoreState::CreatingClaim {
                    pvcs: pvcs,
                    idx: idx,
                    restore_size: restore_size,
                }) && (action matches RestoreAction::CreatePersistentVolumeClaim {
                    namespace,
                    resource,
                } && namespace == payload.target_ns && resource@ == spec_restore_claim_resource(
                    payload,
                    pvcs@[idx as int]@,
                    restore_size@,
                )),
                Some(reason) => (next matches RestoreState::Failed { error: e }
                    && e matches EngineError::CreateRejected { resource_name, reason: r2 }
                    && resource_name@ == spec_restore_source_snapshot_name(
                    payload.vs_name_prefix@,
                    pvcs@[idx as int]@,
                ) && r2 == reason) && action == RestoreAction::Finish,
            }
        },
        (RestoreState::CreatingClaim { pvcs, idx, restore_size }, RestoreEvent::CreateResult {
            error,
        }) => {
            match error {
                None => {
                    if idx + 1 < pvcs@.len() {
                        next == (RestoreState::CheckingTarget { pvcs: pvcs, idx: (idx + 1) as usize })
                            && action == (RestoreAction::GetPvc {
                            namespace: payload.target_ns,
                            name: pvcs@[idx + 1],
                        })
                    } else {
                        next == RestoreState::Complete && action == RestoreAction::Finish
                    }
                },
                Some(reason) => (next matches RestoreState::Failed { error: e }
                    && e matches EngineError::CreateRejected { resource_name, reason: r2 }
                    && resource_name == pvcs@[idx as int] && r2 == reason) && action
                    == RestoreAction::Finish,
            }
        },
        _ => false,
    }
}

/// Runs restores: resolves the selection, then walks the volumes.
pub struct RestoreOperator;

impl RestoreOperator {
    /// Begins a restore run: resolve the volume selection. With
    /// `include_all_pvcs` the driver is asked for the source namespace's
    /// volume list; with an explicit name the run starts on that single
    /// volume; with neither the run fails before touching the cluster.
    pub fn start(payload: &RestorePayload) -> (r: (RestoreState, RestoreAction))
        ensures
            restore_state_wf(r.0),
            payload.include_all_pvcs ==> r.0 == RestoreState::SelectingVolumes && r.1
                == (RestoreAction::ListPvcs { namespace: payload.source_ns }),
            !payload.include_all_pvcs ==> match payload.pvc_name {
                Some(name) => (r.0 matches RestoreState::CheckingTarget { pvcs, idx }
                    && pvcs.deep_view() =~= seq![name@] && idx == 0) && r.1 == (RestoreAction::GetPvc {
                    namespace: payload.target_ns,
                    name: name,
                }),
                None => r.0 == (RestoreState::Failed { error: EngineError::MissingVolumeName })
                    && r.1 == RestoreAction::Finish,
            },
    {
        if payload.include_all_pvcs {
            (
                RestoreState::SelectingVolumes,
                RestoreAction::ListPvcs { namespace: payload.source_ns.clone() },
            )
        } else {
            match &payload.pvc_name {
                Some(name) => {
                    let mut pvcs: Vec<String> = Vec::new();
                    pvcs.push(name.clone());
                    proof {
                        assert(pvcs.deep_view() =~= seq![payload.pvc_name->0@]);
                    }
                    let action = RestoreAction::GetPvc {
                        namespace: payload.target_ns.clone(),
                        name: name.clone(),
                    };
                    (RestoreState::CheckingTarget { pvcs, idx: 0 }, action)
                },
                None => (
                    RestoreState::Failed { error: EngineError::MissingVolumeName },
                    RestoreAction::Finish,
                ),
            }
        }
    }

    /// Advances a restore run by one observed outcome.
    pub fn step(payload: &RestorePayload, state: RestoreState, event: RestoreEvent) -> (r: (
        RestoreState,
        RestoreAction,
    ))
        requires
            restore_state_wf(state),
            restore_step_enabled(state, event),
        ensures
            restore_state_wf(r.0),
            restore_step_spec(payload, state, event, r.0, r.1),
    {
        match (state, event) {
            (RestoreState::SelectingVolumes, RestoreEvent::VolumesListed { pvcs }) => {
                if pvcs.len() == 0 {
                    (RestoreState::Complete, RestoreAction::Finish)
                } else {
                    let action = RestoreAction::GetPvc {
                        namespace: payload.target_ns.clone(),
                        name: pvcs[0].clone(),
                    };
                    (RestoreState::CheckingTarget { pvcs, idx: 0 }, action)
                }
            },
            (RestoreState::CheckingTarget { pvcs, idx }, RestoreEvent::VolumeFetched { fetched }) => {
                match check_if_pvc_exists(fetched, &pvcs[idx], false) {
                    Ok(_) => {
                        let action = RestoreAction::GetVolumeSnapshot {
                            namespace: payload.source_ns.clone(),
                            name: prefixed_name(payload.vs_name_prefix.as_str(), pvcs[idx].as_str()),
                        };
                        (RestoreState::FetchingSourceSnapshot { pvcs, idx }, action)
                    },
                    Err(error) => (RestoreState::Failed { error }, RestoreAction::Finish),
                }
            },
            (RestoreState::FetchingSourceSnapshot { pvcs, idx }, RestoreEvent::SnapshotFetched {
                result,
            }) => {
                match result {
                    None => {
                        let error = EngineError::SourceSnapshotMissing {
                            vs_name: prefixed_name(
                                payload.vs_name_prefix.as_str(),
                                pvcs[idx].as_str(),
                            ),
                        };
                        (RestoreState::Failed { error }, RestoreAction::Finish)
                    },
                    Some(status) => {
                        match status {
                            Some(st) => {
                                match (st.bound_volume_snapshot_content_name, st.restore_size) {
                                    (Some(bound), Some(size)) => {
                                        let action = RestoreAction::GetSnapshotHandle {
                                            bound_vsc_name: bound.clone(),
                                        };
                                        (
                                            RestoreState::ResolvingHandle {
                                                pvcs,
                                                idx,
                                                bound_vsc_name: bound,
                                                restore_size: size,
                                            },
                                            action,
                                        )
                                    },
                                    _ => {
                                        let error = EngineError::StatusIncomplete {
                                            resource_name: prefixed_name(
                                                payload.vs_name_prefix.as_str(),
                                                pvcs[idx].as_str(),
                                            ),
                                        };
                                        (RestoreState::Failed { error }, RestoreAction::Finish)
                                    },
                                }
                            },
                            None => {
                                let error = EngineError::StatusIncomplete {
                                    resource_name: prefixed_name(
                                        payload.vs_name_prefix.as_str(),
                                        pvcs[idx].as_str(),
                                    ),
                                };
                                (RestoreState::Failed { error }, RestoreAction::Finish)
                            },
                        }
                    },
                }
            },
            (RestoreState::ResolvingHandle { pvcs, idx, bound_vsc_name, restore_size },
                RestoreEvent::HandleResolved { status }) => {
                match snapshot_handle_from_status(&bound_vsc_name, status) {
                    Ok(handle) => {
                        let vsc_operator = VolumeSnapshotContentOperator::new(
                            prefixed_name(payload.vsc_name_prefix.as_str(), pvcs[idx].as_str()),
                            payload.target_ns.clone(),
                            prefixed_name(payload.vs_name_prefix.as_str(), pvcs[idx].as_str()),
                            Some(payload.volume_snapshot_class.clone()),
                            Some(handle.clone()),
                            payload.vsc_retain_policy,
                        );
                        let resource = vsc_operator.construct_volume_snapshot_content_resource();
                        let action = RestoreAction::CreateVolumeSnapshotContent { resource };
                        (
                            RestoreState::CreatingContent {
                                pvcs,
                                idx,
                                snapshot_handle: handle,
                                restore_size,
                            },
                            action,
                        )
                    },
                    Err(error) => (RestoreState::Failed { error }, RestoreAction::Finish),
                }
            },
            (RestoreState::CreatingContent { pvcs, idx, snapshot_handle, restore_size },
                RestoreEvent::CreateResult { error }) => {
                match error {
                    None => {
                        let vs_operator = VolumeSnapshotOperator::new(
                            prefixed_name(payload.vs_name_prefix.as_str(), pvcs[idx].as_str()),
                            payload.target_ns.clone(),
                            payload.volume_snapshot_class.clone(),
                            None,
                            Some(prefixed_name(payload.vsc_name_prefix.as_str(), pvcs[idx].as_str())),
                        );
                        let resource = vs_operator.construct_volume_snapshot_resource(
                            Some(snapshot_handle.clone()),
                            Some(restore_size.clone()),
                            payload.vsc_retain_policy,
                        );
                        let action = RestoreAction::CreateVolumeSnapshot {
                            namespace: payload.target_ns.clone(),
                            resource,
                        };
                        (
                            RestoreState::CreatingSnapshot {
                                pvcs,
                                idx,
                                snapshot_handle,
                                restore_size,
                            },
                            action,
                        )
                    },
                    Some(reason) => {
                        let error = EngineError::CreateRejected {
                            resource_name: prefixed_name(
                                payload.vsc_name_prefix.as_str(),
                                pvcs[idx].as_str(),
                            ),
                            reason,
                        };
                        (RestoreState::Failed { error }, RestoreAction::Finish)
                    },
                }
            },
            (RestoreState::CreatingSnapshot { pvcs, idx, snapshot_handle, restore_size },
                RestoreEvent::CreateResult { error }) => {
                match error {
                    None => {
                        let pvc_payload = PVCOperatorPayload::new(
                            pvcs[idx].clone(),
                            payload.target_ns.clone(),
                            Some(payload.storage_class_name.clone()),
                            None,
                            prefixed_name(payload.vs_name_prefix.as_str(), pvcs[idx].as_str()),
                            restore_size.clone(),
                        );
                        let pvc_operator = PVCOperator::new(pvc_payload);
                        let resource = pvc_operator.construct_persistent_volume_claim_resource();
                        let action = RestoreAction::CreatePersistentVolumeClaim {
                            namespace: payload.target_ns.clone(),
                            resource,
                        };
                        (RestoreState::CreatingClaim { pvcs, idx, restore_size }, action)
                    },
                    Some(reason) => {
                        let error = EngineError::CreateRejected {
                            resource_name: prefixed_name(
                                payload.vs_name_prefix.as_str(),
                                pvcs[idx].as_str(),
                            ),
                            reason,
                        };
                        (RestoreState::Failed { error }, RestoreAction::Finish)
                    },
                }
            },
            (RestoreState::CreatingClaim { pvcs, idx, restore_size }, RestoreEvent::CreateResult {
                error,
            }) => {
                match error {
                    None => {
                        let n = pvcs.len();
                        if idx + 1 < n {
                            let action = RestoreAction::GetPvc {
                                namespace: payload.target_ns.clone(),
                                name: pvcs[idx + 1].clone(),
                            };
                            (RestoreState::CheckingTarget { pvcs, idx: idx + 1 }, action)
                        } else {
                            (RestoreState::Complete, RestoreAction::Finish)
                        }
                    },
                    Some(reason) => {
                        let error = EngineError::CreateRejected {
                            resource_name: pvcs[idx].clone(),
                            reason,
                        };
                        (RestoreState::Failed { error }, RestoreAction::Finish)
                    },
                }
            },
            _ => {
                // Dead: the precondition ties each state to its event.
                proof {
                    assert(false);
                }
                (RestoreState::Complete, RestoreAction::Finish)
            },
        }
    }
}

} // verus!
