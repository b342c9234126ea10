//! The backup engine: for each selected volume, assert the source volume
//! exists, submit a snapshot request, and poll it to readiness. The engine
//! is a state machine over plain values; a driver executes each returned
//! action against the cluster and hands the outcome back as the next
//! event. A failure on one volume halts the whole selection; volumes
//! already backed up stay in place.

use vstd::prelude::*;
use crate::errors::EngineError;
use crate::names::{prefixed_name, spec_prefixed_name};
use crate::persistent_volume_claims::{check_if_pvc_exists, VolumeIdentity};
use crate::readiness::{readiness_step, spec_classify, ReadinessState};
use crate::retain_policy::VSCRetainPolicy;
use crate::volume_snapshots::{
    spec_volume_snapshot, VolumeSnapshot, VolumeSnapshotOperator, VolumeSnapshotStatus,
};

verus! {

/// Parameters of a backup operation.
pub struct BackupPayload {
    pub region: String,
    pub source_ns: String,
    pub volume_snapshot_class: String,
    pub pvc_name: Option<String>,
    pub include_all_pvcs: bool,
    pub vs_name_prefix: String,
}

impl BackupPayload {
    /// Creates a new backup payload. Exactly one of `pvc_name` and
    /// `include_all_pvcs` is meant to be given; the engine rejects a
    /// selection that names no volume.
    pub fn new(
        region: String,
        source_ns: String,
        volume_snapshot_class: String,
        pvc_name: Option<String>,
        include_all_pvcs: bool,
        vs_name_prefix: String,
    ) -> (r: Self)
        ensures
            r.region == region,
            r.source_ns == source_ns,
            r.volume_snapshot_class == volume_snapshot_class,
            r.pvc_name == pvc_name,
            r.include_all_pvcs == include_all_pvcs,
            r.vs_name_prefix == vs_name_prefix,
    {
        Self { region, source_ns, volume_snapshot_class, pvc_name, include_all_pvcs, vs_name_prefix }
    }

    /// The cloud region the volumes live in.
    pub fn region(&self) -> (r: &str)
        ensures
            r@ == self.region@,
    {
        self.region.as_str()
    }

    /// The namespace the volumes are selected from.
    pub fn source_ns(&self) -> (r: &str)
        ensures
            r@ == self.source_ns@,
    {
        self.source_ns.as_str()
    }

    /// The snapshot class every created snapshot carries.
    pub fn volume_snapshot_class(&self) -> (r: &str)
        ensures
            r@ == self.volume_snapshot_class@,
    {
        self.volume_snapshot_class.as_str()
    }

    /// The explicitly named volume, if one was given.
    pub fn pvc_name(&self) -> (r: Option<&str>)
        ensures
            r.deep_view() == self.pvc_name.deep_view(),
    {
        match &self.pvc_name {
            Some(s) => Some(s.as_str()),
            None => None,
        }
    }

    /// Whether every volume of the source namespace is selected.
    pub fn include_all_pvcs(&self) -> (r: bool)
        ensures
            r == self.include_all_pvcs,
    {
        self.include_all_pvcs
    }

    /// The prefix every created snapshot name starts with.
    pub fn vs_name_prefix(&self) -> (r: &str)
        ensures
            r@ == self.vs_name_prefix@,
    {
        self.vs_name_prefix.as_str()
    }
}

/// The name of the snapshot a backup creates for a volume.
pub open spec fn spec_backup_snapshot_name(vs_name_prefix: Seq<char>, pvc_name: Seq<char>) -> Seq<char> {
    spec_prefixed_name(vs_name_prefix, pvc_name)
}

/// Where a backup run stands. The volume list is resolved once, then the
/// volumes are worked through strictly in order.
#[derive(Clone, Debug, PartialEq, Eq)]
pub enum BackupState {
    /// Waiting for the source namespace's volume list.
    SelectingVolumes,
    /// Waiting for the existence check of volume `idx`.
    CheckingSource { pvcs: Vec<String>, idx: usize },
    /// Waiting for the outcome of the snapshot create request of volume `idx`.
    CreatingSnapshot { pvcs: Vec<String>, idx: usize },
    /// Polling the snapshot of volume `idx` to readiness.
    Polling { pvcs: Vec<String>, idx: usize },
    /// Every selected volume was backed up.
    Complete,
    /// The operation ended on a fatal error; earlier volumes stay backed up.
    Failed { error: EngineError },
}

/// The outcome of the one cluster operation the engine asked for.
#[derive(Clone, Debug, PartialEq, Eq)]
pub enum BackupEvent {
    /// The volume names the source namespace holds.
    VolumesListed { pvcs: Vec<String> },
    /// What a get-by-name of the current volume observed.
    VolumeFetched { fetched: Option<VolumeIdentity> },
    /// The outcome of the snapshot create request; `None` on acceptance,
    /// the rejection message otherwise.
    SnapshotCreateResult { error: Option<String> },
    /// What a fetch of the snapshot's status observed.
    StatusObserved { status: Option<VolumeSnapshotStatus> },
}

/// The one cluster operation the driver is asked to perform next.
#[derive(Clone, Debug, PartialEq, Eq)]
pub enum BackupAction {
    /// List the volume names of the namespace.
    ListPvcs { namespace: String },
    /// Get the named volume.
    GetPvc { namespace: String, name: String },
    /// Submit the snapshot descriptor.
    CreateVolumeSnapshot { namespace: String, resource: VolumeSnapshot },
    /// Fetch the snapshot's status right away.
    FetchSnapshotStatus { namespace: String, name: String },
    /// Wait for the polling interval, then fetch the status again. When a
    /// bound content name is given, first probe the provider's copy
    /// progress for observability; a failed probe is logged, never fatal.
    WaitThenFetchSnapshotStatus { namespace: String, name: String, probe_vsc_name: Option<String> },
    /// The run is over; see the state for the outcome.
    Finish,
}

/// States that hold a volume list point at a volume inside it.
pub open spec fn backup_state_wf(state: BackupState) -> bool {
    match state {
        BackupState::CheckingSource { pvcs, idx } => idx < pvcs@.len(),
        BackupState::CreatingSnapshot { pvcs, idx } => idx < pvcs@.len(),
        BackupState::Polling { pvcs, idx } => idx < pvcs@.len(),
        _ => true,
    }
}

/// Which event answers which state: the driver hands back exactly the
/// outcome of the action it was asked to perform.
pub open spec fn backup_step_enabled(state: BackupState, event: BackupEvent) -> bool {
    match (state, event) {
        (BackupState::SelectingVolumes, BackupEvent::VolumesListed { .. }) => true,
        (BackupState::CheckingSource { .. }, BackupEvent::VolumeFetched { .. }) => true,
        (BackupState::CreatingSnapshot { .. }, BackupEvent::SnapshotCreateResult { .. }) => true,
        (BackupState::Polling { .. }, BackupEvent::StatusObserved { .. }) => true,
        _ => false,
    }
}

/// The snapshot descriptor the backup submits for volume `pvc_name`:
/// named by the scheme, sourced from the volume, without handle or size
/// annotations, and with the in-cluster snapshot's own fixed `Delete`
/// retention, independent of any caller choice.
pub open spec fn spec_backup_snapshot_resource(
    payload: &BackupPayload,
    pvc_name: Seq<char>,
) -> crate::volume_snapshots::VolumeSnapshotView {
    spec_volume_snapshot(
        spec_backup_snapshot_name(payload.vs_name_prefix@, pvc_name),
        payload.source_ns@,
        payload.volume_snapshot_class@,
        Some(pvc_name),
        None,
        None,
        None,
        VSCRetainPolicy::Delete,
    )
}

/// What one backup step yields: the next state and the action requested,
/// as a relation over the consumed state and event.
pub open spec fn backup_step_spec(
    payload: &BackupPayload,
    state: BackupState,
    event: BackupEvent,
    next: BackupState,
    action: BackupAction,
) -> bool {
    match (state, event) {
        (BackupState::SelectingVolumes, BackupEvent::VolumesListed { pvcs }) => {
            if pvcs@.len() == 0 {
                next == BackupState::Complete && action == BackupAction::Finish
            } else {
                next == (BackupState::CheckingSource { pvcs: pvcs, idx: 0 }) && action
                    == (BackupAction::GetPvc { namespace: payload.source_ns, name: pvcs@[0] })
            }
        },
        (BackupState::CheckingSource { pvcs, idx }, BackupEvent::VolumeFetched { fetched }) => {
            match fetched {
                Some(v) => next == (BackupState::CreatingSnapshot { pvcs: pvcs, idx: idx })
                    && (action matches BackupAction::CreateVolumeSnapshot { namespace, resource }
                    && namespace == payload.source_ns && resource@ == spec_backup_snapshot_resource(
                    payload,
                    pvcs@[idx as int]@,
                )),
                None => next == (BackupState::Failed {
                    error: EngineError::SourceVolumeMissing { pvc_name: pvcs@[idx as int] },
                }) && action == BackupAction::Finish,
            }
        },
        (BackupState::CreatingSnapshot { pvcs, idx }, BackupEvent::SnapshotCreateResult { error }) => {
            match error {
                None => next == (BackupState::Polling { pvcs: pvcs, idx: idx }) && (
                action matches BackupAction::FetchSnapshotStatus { namespace, name }
                    && namespace == payload.source_ns && name@ == spec_backup_snapshot_name(
                    payload.vs_name_prefix@,
                    pvcs@[idx as int]@,
                )),
                Some(reason) => (next matches BackupState::Failed { error: e }
                    && e matches EngineError::CreateRejected { resource_name, reason: r2 }
                    && resource_name@ == spec_backup_snapshot_name(
                    payload.vs_name_prefix@,
                    pvcs@[idx as int]@,
                ) && r2 == reason) && action == BackupAction::Finish,
            }
        },
        (BackupState::Polling { pvcs, idx }, BackupEvent::StatusObserved { status }) => {
            match spec_classify(status) {
                ReadinessState::Ready { status: st } => {
                    match (st.bound_volume_snapshot_content_name, st.restore_size) {
                        (Some(bound), Some(size)) => {
                            if idx + 1 < pvcs@.len() {
                                next == (BackupState::CheckingSource {
                                    pvcs: pvcs,
                                    idx: (idx + 1) as usize,
                                }) && action == (BackupAction::GetPvc {
                                    namespace: payload.source_ns,
                                    name: pvcs@[idx + 1],
                                })
                            } else {
                                next == BackupState::Complete && action == BackupAction::Finish
                            }
                        },
                        _ => (next matches BackupState::Failed { error: e }
                            && e matches EngineError::StatusIncomplete { resource_name }
                            && resource_name@ == spec_backup_snapshot_name(
                            payload.vs_name_prefix@,
                            pvcs@[idx as int]@,
                        )) && action == BackupAction::Finish,
                    }
                },
                ReadinessState::Pending => next == (BackupState::Polling { pvcs: pvcs, idx: idx })
                    && (action matches BackupAction::FetchSnapshotStatus { namespace, name }
                    && namespace == payload.source_ns && name@ == spec_backup_snapshot_name(
                    payload.vs_name_prefix@,
                    pvcs@[idx as int]@,
                )),
                ReadinessState::AwaitingBind => next == (BackupState::Polling { pvcs: pvcs, idx: idx })
                    && (action matches BackupAction::WaitThenFetchSnapshotStatus {
                    namespace,
                    name,
                    probe_vsc_name,
                } && namespace == payload.source_ns && name@ == spec_backup_snapshot_name(
                    payload.vs_name_prefix@,
                    pvcs@[idx as int]@,
                ) && probe_vsc_name is None),
                ReadinessState::AwaitingReady { bound_vsc_name } => next == (BackupState::Polling {
                    pvcs: pvcs,
                    idx: idx,
                }) && (action matches BackupAction::WaitThenFetchSnapshotStatus {
                    namespace,
                    name,
                    probe_vsc_name,
                } && namespace == payload.source_ns && name@ == spec_backup_snapshot_name(
                    payload.vs_name_prefix@,
                    pvcs@[idx as int]@,
                ) && probe_vsc_name == Some(bound_vsc_name)),
            }
        },
        _ => false,
    }
}

/// Runs backups: resolves the selection, then walks the volumes.
pub struct BackupOperator;

impl BackupOperator {
    /// Begins a backup run: resolve the volume selection. With
    /// `include_all_pvcs` the driver is asked for the namespace's volume
    /// list; with an explicit name the run starts on that single volume;
    /// with neither the run fails before touching the cluster.
    pub fn start(payload: &BackupPayload) -> (r: (BackupState, BackupAction))
        ensures
            backup_state_wf(r.0),
            payload.include_all_pvcs ==> r.0 == BackupState::SelectingVolumes && r.1
                == (BackupAction::ListPvcs { namespace: payload.source_ns }),
            !payload.include_all_pvcs ==> match payload.pvc_name {
                Some(name) => (r.0 matches BackupState::CheckingSource { pvcs, idx }
                    && pvcs.deep_view() =~= seq![name@] && idx == 0) && r.1 == (BackupAction::GetPvc {
                    namespace: payload.source_ns,
                    name: name,
                }),
                None => r.0 == (BackupState::Failed { error: EngineError::MissingVolumeName })
                    && r.1 == BackupAction::Finish,
            },
    {
        if payload.include_all_pvcs {
            (
                BackupState::SelectingVolumes,
                BackupAction::ListPvcs { namespace: payload.source_ns.clone() },
            )
        } else {
            match &payload.pvc_name {
                Some(name) => {
                    let mut pvcs: Vec<String> = Vec::new();
                    pvcs.push(name.clone());
                    proof {
                        assert(pvcs.deep_view() =~= seq![payload.pvc_name->0@]);
                    }
                    let action = BackupAction::GetPvc {
                        namespace: payload.source_ns.clone(),
                        name: name.clone(),
                    };
                    (BackupState::CheckingSource { pvcs, idx: 0 }, action)
                },
                None => (
                    BackupState::Failed { error: EngineError::MissingVolumeName },
                    BackupAction::Finish,
                ),
            }
        }
    }

    /// Advances a backup run by one observed outcome.
    pub fn step(payload: &BackupPayload, state: BackupState, event: BackupEvent) -> (r: (
        BackupState,
        BackupAction,
    ))
        requires
            backup_state_wf(state),
            backup_step_enabled(state, event),
        ensures
            backup_state_wf(r.0),
            backup_step_spec(payload, state, event, r.0, r.1),
    {
        match (state, event) {
            (BackupState::SelectingVolumes, BackupEvent::VolumesListed { pvcs }) => {
                if pvcs.len() == 0 {
                    (BackupState::Complete, BackupAction::Finish)
                } else {
                    let action = BackupAction::GetPvc {
                        namespace: payload.source_ns.clone(),
                        name: pvcs[0].clone(),
                    };
                    (BackupState::CheckingSource { pvcs, idx: 0 }, action)
                }
            },
            (BackupState::CheckingSource { pvcs, idx }, BackupEvent::VolumeFetched { fetched }) => {
                match check_if_pvc_exists(fetched, &pvcs[idx], true) {
                    Ok(_) => {
                        let vs_operator = VolumeSnapshotOperator::new(
                            prefixed_name(payload.vs_name_prefix.as_str(), pvcs[idx].as_str()),
                            payload.source_ns.clone(),
                            payload.volume_snapshot_class.clone(),
                            Some(pvcs[idx].clone()),
                            None,
                        );
                        let resource = vs_operator.construct_volume_snapshot_resource(
                            None,
                            None,
                            VSCRetainPolicy::Delete,
                        );
                        let action = BackupAction::CreateVolumeSnapshot {
                            namespace: payload.source_ns.clone(),
                            resource,
                        };
                        (BackupState::CreatingSnapshot { pvcs, idx }, action)
                    },
                    Err(error) => (BackupState::Failed { error }, BackupAction::Finish),
                }
            },
            (BackupState::CreatingSnapshot { pvcs, idx }, BackupEvent::SnapshotCreateResult {
                error,
            }) => {
                match error {
                    None => {
                        let action = BackupAction::FetchSnapshotStatus {
                            namespace: payload.source_ns.clone(),
                            name: prefixed_name(payload.vs_name_prefix.as_str(), pvcs[idx].as_str()),
                        };
                        (BackupState::Polling { pvcs, idx }, action)
                    },
                    Some(reason) => {
                        let error = EngineError::CreateRejected {
                            resource_name: prefixed_name(
                                payload.vs_name_prefix.as_str(),
                                pvcs[idx].as_str(),
                            ),
                            reason,
                        };
                        (BackupState::Failed { error }, BackupAction::Finish)
                    },
                }
            },
            (BackupState::Polling { pvcs, idx }, BackupEvent::StatusObserved { status }) => {
                let (readiness, _readiness_action) = readiness_step(status);
                match readiness {
                    ReadinessState::Ready { status: st } => {
                        match (st.bound_volume_snapshot_content_name, st.restore_size) {
                            (Some(_bound), Some(_size)) => {
                                let n = pvcs.len();
                                if idx + 1 < n {
                                    let action = BackupAction::GetPvc {
                                        namespace: payload.source_ns.clone(),
                                        name: pvcs[idx + 1].clone(),
                                    };
                                    (BackupState::CheckingSource { pvcs, idx: idx + 1 }, action)
                                } else {
                                    (BackupState::Complete, BackupAction::Finish)
                                }
                            },
                            _ => {
                                let error = EngineError::StatusIncomplete {
                                    resource_name: prefixed_name(
                                        payload.vs_name_prefix.as_str(),
                                        pvcs[idx].as_str(),
                                    ),
                                };
                                (BackupState::Failed { error }, BackupAction::Finish)
                            },
                        }
                    },
                    ReadinessState::Pending => {
                        let action = BackupAction::FetchSnapshotStatus {
                            namespace: payload.source_ns.clone(),
                            name: prefixed_name(payload.vs_name_prefix.as_str(), pvcs[idx].as_str()),
                        };
                        (BackupState::Polling { pvcs, idx }, action)
                    },
                    ReadinessState::AwaitingBind => {
                        let action = BackupAction::WaitThenFetchSnapshotStatus {
                            namespace: payload.source_ns.clone(),
                            name: prefixed_name(payload.vs_name_prefix.as_str(), pvcs[idx].as_str()),
                            probe_vsc_name: None,
                        };
                        (BackupState::Polling { pvcs, idx }, action)
                    },
                    ReadinessState::AwaitingReady { bound_vsc_name } => {
                        let action = BackupAction::WaitThenFetchSnapshotStatus {
                            namespace: payload.source_ns.clone(),
                            name: prefixed_name(payload.vs_name_prefix.as_str(), pvcs[idx].as_str()),
                            probe_vsc_name: Some(bound_vsc_name),
                        };
                        (BackupState::Polling { pvcs, idx }, action)
                    },
                }
            },
            _ => {
                // Dead: the precondition ties each state to its event.
                proof {
                    assert(false);
                }
                (BackupState::Complete, BackupAction::Finish)
            },
        }
    }
}

} // verus!
