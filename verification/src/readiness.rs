//! The readiness-polling state machine: it drives the wait for a snapshot
//! to become usable. Each step classifies one freshly fetched status
//! observation; the driver executes the returned action (fetch again,
//! wait, or opportunistically probe the provider's copy progress) and hands
//! the next observation back. Progress probing is observability only: its
//! failure never feeds back into the machine.

use vstd::prelude::*;
use crate::volume_snapshots::VolumeSnapshotStatus;

verus! {

/// The stage the polling loop is in. `Ready` is terminal and carries the
/// full status observed.
#[derive(Clone, Debug, PartialEq, Eq)]
pub enum ReadinessState {
    /// No status object has been observed yet.
    Pending,
    /// A status exists, but it names no content object and is not ready.
    AwaitingBind,
    /// The snapshot is bound to a content object and not yet ready.
    AwaitingReady { bound_vsc_name: String },
    /// The snapshot was observed with `ready_to_use` set to true.
    Ready { status: VolumeSnapshotStatus },
}

/// What the driver is asked to do after a step.
#[derive(Clone, Debug, PartialEq, Eq)]
pub enum ReadinessAction {
    /// Fetch the snapshot status again right away.
    FetchStatus,
    /// Wait for the polling interval, then fetch the status again.
    WaitThenFetchStatus,
    /// Best-effort: probe the provider's copy progress for the named bound
    /// content, then wait and fetch the status again. A failed probe is
    /// logged and must not abort the loop.
    ProbeThenWaitThenFetchStatus { bound_vsc_name: String },
    /// The snapshot is ready; stop polling.
    Finish,
}

/// Whether an observed status is marked usable.
pub open spec fn spec_observed_ready(st: VolumeSnapshotStatus) -> bool {
    st.ready_to_use == Some(true)
}

/// The stage one observation puts the loop in.
pub open spec fn spec_classify(observed: Option<VolumeSnapshotStatus>) -> ReadinessState {
    match observed {
        None => ReadinessState::Pending,
        Some(st) => if spec_observed_ready(st) {
            ReadinessState::Ready { status: st }
        } else {
            match st.bound_volume_snapshot_content_name {
                Some(b) => if b@.len() > 0 {
                    ReadinessState::AwaitingReady { bound_vsc_name: b }
                } else {
                    ReadinessState::AwaitingBind
                },
                None => ReadinessState::AwaitingBind,
            }
        },
    }
}

/// The action the driver is handed in a given stage.
pub open spec fn spec_readiness_action(state: ReadinessState) -> ReadinessAction {
    match state {
        ReadinessState::Pending => ReadinessAction::FetchStatus,
        ReadinessState::AwaitingBind => ReadinessAction::WaitThenFetchStatus,
        ReadinessState::AwaitingReady { bound_vsc_name } => ReadinessAction::ProbeThenWaitThenFetchStatus {
            bound_vsc_name: bound_vsc_name,
        },
        ReadinessState::Ready { status } => ReadinessAction::Finish,
    }
}

/// Advances the polling loop by one observation. The loop reaches `Ready`
/// exactly on an observation whose `ready_to_use` is true, and it reports a
/// bound content object only when the observation names a non-empty one.
pub fn readiness_step(observed: Option<VolumeSnapshotStatus>) -> (r: (ReadinessState, ReadinessAction))
    ensures
        r.0 == spec_classify(observed),
        r.1 == spec_readiness_action(r.0),
        r.0 matches ReadinessState::Ready { status } ==> observed == Some(status)
            && spec_observed_ready(status),
        r.0 matches ReadinessState::AwaitingReady { bound_vsc_name } ==> (observed matches Some(st)
            && st.bound_volume_snapshot_content_name == Some(bound_vsc_name)
            && bound_vsc_name@.len() > 0 && !spec_observed_ready(st)),
{
    match observed {
        None => (ReadinessState::Pending, ReadinessAction::FetchStatus),
        Some(st) => {
            let ready = match st.ready_to_use {
                Some(b) => b,
                None => false,
            };
            if ready {
                (ReadinessState::Ready { status: st }, ReadinessAction::Finish)
            } else {
                match st.bound_volume_snapshot_content_name {
                    Some(b) => {
                        if b.as_str().is_empty() {
                            (ReadinessState::AwaitingBind, ReadinessAction::WaitThenFetchStatus)
                        } else {
                            let probe_name = b.clone();
                            (
                                ReadinessState::AwaitingReady { bound_vsc_name: b },
                                ReadinessAction::ProbeThenWaitThenFetchStatus {
                                    bound_vsc_name: probe_name,
                                },
                            )
                        }
                    },
                    None => (ReadinessState::AwaitingBind, ReadinessAction::WaitThenFetchStatus),
                }
            }
        },
    }
}

/// The stage a whole polling run ends in, folding the observations in
/// order; once `Ready` is reached the loop has stopped, so later
/// observations do not occur.
pub open spec fn spec_readiness_run(observations: Seq<Option<VolumeSnapshotStatus>>) -> ReadinessState
    decreases observations.len(),
{
    if observations.len() == 0 {
        ReadinessState::Pending
    } else {
        let prev = spec_readiness_run(observations.drop_last());
        if prev is Ready {
            prev
        } else {
            spec_classify(observations.last())
        }
    }
}

/// A polling run reaches `Ready` only after observing a status with
/// `ready_to_use` true, and it reaches `AwaitingReady` (leaving the
/// awaiting-bind stage behind) only after observing a status that names a
/// non-empty bound content object.
pub proof fn lemma_readiness_run_requires_observation(observations: Seq<Option<VolumeSnapshotStatus>>)
    ensures
        spec_readiness_run(observations) matches ReadinessState::Ready { status } ==> exists|i: int|
            0 <= i < observations.len() && observations[i] == Some(status)
                && spec_observed_ready(status),
        spec_readiness_run(observations) matches ReadinessState::AwaitingReady { bound_vsc_name }
            ==> exists|i: int|
            0 <= i < observations.len() && ((#[trigger] observations[i]) matches Some(st)
                && st.bound_volume_snapshot_content_name == Some(bound_vsc_name)
                && bound_vsc_name@.len() > 0),
    decreases observations.len(),
{
    if observations.len() > 0 {
        lemma_readiness_run_requires_observation(observations.drop_last());
        let prev = spec_readiness_run(observations.drop_last());
        if prev is Ready {
            assert(forall|i: int| 0 <= i < observations.len() - 1 ==> observations[i]
                == observations.drop_last()[i]);
        } else {
            let last = observations.last();
            assert(observations[observations.len() - 1] == last);
        }
    }
}

} // verus!
