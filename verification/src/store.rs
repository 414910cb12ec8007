//! A queryable store of resolved world-space transforms, keyed by entity id.
//!
//! This models the host's read-only table of per-entity world transforms, as
//! produced upstream by hierarchy propagation: a snapshot that the alignment
//! pass only reads.

use vstd::prelude::*;
use std::collections::HashMap;
use crate::frame::Affine;

verus! {

broadcast use vstd::std_specs::hash::group_hash_axioms;

/// Every transform held in the store is well-formed.
pub open spec fn globals_wf(g: Map<u64, Affine>) -> bool {
    forall|k: u64| #[trigger] g.contains_key(k) ==> g[k].wf()
}

/// The world-space transform table: entity id to resolved frame.
pub struct WorldTransforms {
    map: HashMap<u64, Affine>,
}

impl View for WorldTransforms {
    type V = Map<u64, Affine>;

    closed spec fn view(&self) -> Map<u64, Affine> {
        self.map@
    }
}

impl WorldTransforms {
    /// Every stored transform is well-formed.
    pub open spec fn wf(self) -> bool {
        globals_wf(self@)
    }

    /// An empty table.
    pub fn new() -> (r: WorldTransforms)
        ensures
            r@ == Map::<u64, Affine>::empty(),
            r.wf(),
    {
        WorldTransforms { map: HashMap::new() }
    }

    /// Records `frame` as the resolved world-space transform of `id`,
    /// replacing any earlier entry.
    pub fn insert(&mut self, id: u64, frame: Affine)
        requires
            old(self).wf(),
            frame.wf(),
        ensures
            final(self)@ == old(self)@.insert(id, frame),
            final(self).wf(),
    {
        self.map.insert(id, frame);
        proof {
            assert forall|k: u64| #[trigger] self@.contains_key(k) implies self@[k].wf() by {
                if k != id {
                    assert(old(self)@.contains_key(k));
                }
            }
        }
    }

    /// Looks an entity's world-space transform up; `None` when the entity
    /// has no resolvable transform.
    pub fn get(&self, id: u64) -> (r: Option<&Affine>)
        ensures
            match r {
                Some(a) => self@.contains_key(id) && *a == self@[id],
                None => !self@.contains_key(id),
            },
    {
        self.map.get(&id)
    }

    /// Whether `id` has a resolvable world-space transform.
    pub fn contains(&self, id: u64) -> (r: bool)
        ensures
            r == self@.contains_key(id),
    {
        self.map.contains_key(&id)
    }
}

} // verus!
