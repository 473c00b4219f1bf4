//! Contact geometry, as much of it as absorbing an object reads: for each
//! contact manifold of a pair of colliders, the contact normal in the
//! object's own frame.

use crate::vector::FixedVec3;
use vstd::prelude::*;

verus! {

/// One patch of contact between two colliders.
#[derive(Clone, Copy, Debug, PartialEq, Eq, Structural)]
pub struct ContactManifold {
    /// The contact normal, in the object's local frame.
    pub local_normal: FixedVec3,
}

/// The contact between an object and the player: its manifolds, in the
/// order the physics engine lists them. There may be none.
#[derive(Debug)]
pub struct ContactPair {
    pub manifolds: Vec<ContactManifold>,
}

/// The normal that counts among several: the last manifold's.
pub open spec fn deciding_normal(manifolds: Seq<ContactManifold>) -> Option<FixedVec3> {
    if manifolds.len() == 0 {
        None
    } else {
        Some(manifolds.last().local_normal)
    }
}

impl ContactPair {
    /// A contact with these manifolds.
    pub fn new(manifolds: Vec<ContactManifold>) -> (pair: ContactPair)
        ensures
            pair.manifolds@ == manifolds@,
    {
        ContactPair { manifolds }
    }

    /// The last manifold's normal, or nothing for a contact without
    /// manifolds.
    pub fn deciding_normal(&self) -> (normal: Option<FixedVec3>)
        ensures
            normal == deciding_normal(self.manifolds@),
    {
        let count = self.manifolds.len();
        if count == 0 {
            None
        } else {
            Some(self.manifolds[count - 1].local_normal)
        }
    }
}

} // verus!
