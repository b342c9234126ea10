//! The naming scheme that correlates a source volume with its snapshot and
//! snapshot-content: every derived resource name is `"{prefix}-{volume}"`.

use vstd::prelude::*;
use vstd::string::StringExecFns;

verus! {

/// The name a derived resource carries for a given prefix and volume name:
/// the prefix, a dash, and the volume name.
pub open spec fn spec_prefixed_name(prefix: Seq<char>, volume: Seq<char>) -> Seq<char> {
    prefix + "-"@ + volume
}

/// Joins a prefix and a volume name with a dash, as the naming scheme asks.
pub fn prefixed_name(prefix: &str, volume: &str) -> (r: String)
    ensures
        r@ == spec_prefixed_name(prefix@, volume@),
{
    let mut r = prefix.to_owned();
    r.append("-");
    r.append(volume);
    r
}

} // verus!
