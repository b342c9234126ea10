//! The retention policy a caller chooses for snapshot contents, and its
//! mapping onto the provider-level deletion policy.

use vstd::prelude::*;
use vstd::std_specs::convert::FromSpecImpl;

verus! {

/// The caller-facing retention policy for a snapshot-content: keep the
/// provider snapshot when the content object goes away, or delete it.
#[derive(Clone, Copy, Debug, PartialEq, Eq, Structural)]
pub enum VSCRetainPolicy {
    Retain,
    Delete,
}

/// The deletion policy a snapshot-content descriptor carries, as the
/// cluster's snapshot API defines it.
#[derive(Clone, Copy, Debug, PartialEq, Eq, Structural)]
pub enum VolumeSnapshotContentDeletionPolicy {
    Retain,
    Delete,
}

impl VSCRetainPolicy {
    /// The annotation string for this policy.
    pub open spec fn spec_string(self) -> Seq<char> {
        match self {
            VSCRetainPolicy::Retain => "Retain"@,
            VSCRetainPolicy::Delete => "Delete"@,
        }
    }

    /// Renders the policy as the string the snapshot annotations carry.
    pub fn to_string(&self) -> (r: String)
        ensures
            r@ == self.spec_string(),
    {
        match self {
            VSCRetainPolicy::Retain => "Retain".to_owned(),
            VSCRetainPolicy::Delete => "Delete".to_owned(),
        }
    }
}

/// The provider deletion policy a caller-facing policy maps onto.
pub open spec fn spec_deletion_policy_of(p: VSCRetainPolicy) -> VolumeSnapshotContentDeletionPolicy {
    match p {
        VSCRetainPolicy::Retain => VolumeSnapshotContentDeletionPolicy::Retain,
        VSCRetainPolicy::Delete => VolumeSnapshotContentDeletionPolicy::Delete,
    }
}

impl From<VSCRetainPolicy> for VolumeSnapshotContentDeletionPolicy {
    fn from(vsc_retain_policy: VSCRetainPolicy) -> (r: Self) {
        match vsc_retain_policy {
            VSCRetainPolicy::Retain => VolumeSnapshotContentDeletionPolicy::Retain,
            VSCRetainPolicy::Delete => VolumeSnapshotContentDeletionPolicy::Delete,
        }
    }
}

impl FromSpecImpl<VSCRetainPolicy> for VolumeSnapshotContentDeletionPolicy {
    open spec fn obeys_from_spec() -> bool {
        true
    }

    open spec fn from_spec(v: VSCRetainPolicy) -> Self {
        spec_deletion_policy_of(v)
    }
}

/// The caller-facing policy a provider deletion policy maps back onto.
pub open spec fn spec_retain_policy_of(d: VolumeSnapshotContentDeletionPolicy) -> VSCRetainPolicy {
    match d {
        VolumeSnapshotContentDeletionPolicy::Retain => VSCRetainPolicy::Retain,
        VolumeSnapshotContentDeletionPolicy::Delete => VSCRetainPolicy::Delete,
    }
}

impl VolumeSnapshotContentDeletionPolicy {
    /// Maps the provider deletion policy back onto the caller-facing
    /// policy.
    pub fn to_retain_policy(&self) -> (r: VSCRetainPolicy)
        ensures
            r == spec_retain_policy_of(*self),
    {
        match self {
            VolumeSnapshotContentDeletionPolicy::Retain => VSCRetainPolicy::Retain,
            VolumeSnapshotContentDeletionPolicy::Delete => VSCRetainPolicy::Delete,
        }
    }
}

/// The caller-facing policy and the provider deletion policy map onto each
/// other bidirectionally without loss: converting a value over and back
/// yields the value itself, in both directions.
pub proof fn lemma_retain_policy_round_trip(p: VSCRetainPolicy, d: VolumeSnapshotContentDeletionPolicy)
    ensures
        spec_retain_policy_of(spec_deletion_policy_of(p)) == p,
        spec_deletion_policy_of(spec_retain_policy_of(d)) == d,
{
}

} // verus!
