//! The feature compatibility gate.
//!
//! A snapshot declares reader capability tags. A tag that changes how
//! physical columns map to logical columns (row-level deletion vectors,
//! column-mapping indirection, anything unknown) must stop the scan before
//! any file is touched, because scanning anyway would return wrong data.
//! New tags keep appearing, so a tag counts as unsupported unless it stands
//! on the allowlist of harmless ones.

use vstd::prelude::*;
use crate::error::ScanError;

verus! {

/// Whether a declared reader capability is allowlisted: known to leave the
/// physical-to-logical column mapping untouched.
pub open spec fn spec_feature_allowed(t: Seq<char>) -> bool {
    ||| t == "timestampNtz"@
    ||| t == "v2Checkpoint"@
    ||| t == "vacuumProtocolCheck"@
}

/// Whether the tag is allowlisted.
pub fn feature_allowed(tag: &String) -> (r: bool)
    ensures
        r == spec_feature_allowed(tag@),
{
    let a = String::from_str("timestampNtz");
    let b = String::from_str("v2Checkpoint");
    let c = String::from_str("vacuumProtocolCheck");
    tag.eq(&a) || tag.eq(&b) || tag.eq(&c)
}

/// Whether every declared capability in `features` is allowlisted.
pub open spec fn spec_all_features_allowed(features: Seq<String>) -> bool {
    forall|i: int| 0 <= i < features.len() ==> spec_feature_allowed(features[i]@)
}

/// Rejects the scan when the snapshot declares any capability that is not
/// allowlisted, naming the first offending tag; succeeds otherwise.
pub fn check_features(features: &Vec<String>) -> (r: Result<(), ScanError>)
    ensures
        r is Ok <==> spec_all_features_allowed(features@),
        r matches Err(e) ==> exists|i: int|
            {
                &&& 0 <= i < features@.len()
                &&& !spec_feature_allowed(features@[i]@)
                &&& e == ScanError::UnsupportedFeature(features@[i])
                &&& forall|k: int| 0 <= k < i ==> spec_feature_allowed(features@[k]@)
            },
{
    let mut i: usize = 0;
    while i < features.len()
        invariant
            0 <= i <= features@.len(),
            forall|k: int| 0 <= k < i ==> spec_feature_allowed(features@[k]@),
        decreases features@.len() - i,
    {
        if !feature_allowed(&features[i]) {
            return Err(ScanError::UnsupportedFeature(features[i].clone()));
        }
        i = i + 1;
    }
    Ok(())
}

} // verus!
