//! Object metadata as the reconcilers read and write it.
use vstd::prelude::*;

verus! {

use crate::dict::Dict;

/// A reference to an owning object, enough to identify it.
#[derive(Debug)]
pub struct OwnerReference {
    pub api_version: String,
    pub kind: String,
    pub name: String,
    pub uid: String,
}

/// The metadata fields the controllers read or patch.
#[derive(Debug)]
pub struct ObjectMeta {
    pub name: String,
    pub namespace: Option<String>,
    pub uid: Option<String>,
    pub labels: Dict<String>,
    pub annotations: Dict<String>,
    pub owner_references: Vec<OwnerReference>,
    pub finalizers: Vec<String>,
    /// Whether a deletion timestamp is set on the object.
    pub deletion_requested: bool,
}

/// Whether the finalizer list carries the given marker.
pub open spec fn spec_has_finalizer(finalizers: Seq<String>, marker: Seq<char>) -> bool {
    exists|i: int| 0 <= i < finalizers.len() && finalizers[i]@ == marker
}

/// Whether the object's finalizer list carries `marker`.
pub fn has_finalizer(meta: &ObjectMeta, marker: &str) -> (r: bool)
    ensures
        r == spec_has_finalizer(meta.finalizers@, marker@),
{
    let n = meta.finalizers.len();
    let mut i: usize = 0;
    while i < n
        invariant
            n == meta.finalizers@.len(),
            i <= n,
            forall|j: int| 0 <= j < i ==> meta.finalizers@[j]@ != marker@,
        decreases n - i,
    {
        if crate::strings::str_eq(meta.finalizers[i].as_str(), marker) {
            return true;
        }
        i = i + 1;
    }
    false
}

} // verus!
