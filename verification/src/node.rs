//! A node ties a logical region to one key registry and exposes the
//! destruction trigger to the external alert source. No other logic.

use vstd::prelude::*;

use crate::KeyError;
use crate::registry::KeyRegistry;
use crate::shred::ShredOutcome;
use crate::shred::classify_spec;

verus! {

/// One region's node: owns the registry for the lifetime of the node and
/// delegates destruction requests to the shred protocol.
pub struct ColonyNode {
    registry: KeyRegistry,
}

impl ColonyNode {
    pub closed spec fn wf(&self) -> bool {
        self.registry.wf()
    }

    /// The mapping from key identifier to key material that the node holds.
    pub closed spec fn contents(&self) -> Map<Seq<char>, Seq<u8>> {
        self.registry.contents()
    }

    pub closed spec fn spec_region(&self) -> Seq<char> {
        self.registry.spec_region()
    }

    /// A node for `region` with a fresh, empty registry.
    pub fn new(region: &str) -> (n: ColonyNode)
        ensures
            n.wf(),
            n.spec_region() == region@,
            n.contents() == Map::<Seq<char>, Seq<u8>>::empty(),
    {
        ColonyNode { registry: KeyRegistry::new(region.to_owned()) }
    }

    pub fn region(&self) -> (r: &String)
        ensures
            r@ == self.spec_region(),
    {
        self.registry.region()
    }

    /// Provisions fresh key material under `id` in this node's registry.
    pub fn insert(&mut self, id: String, material: Vec<u8>) -> (r: Result<(), KeyError>)
        requires
            old(self).wf(),
        ensures
            final(self).wf(),
            final(self).spec_region() == old(self).spec_region(),
            r is Ok <==> !old(self).contents().contains_key(id@),
            r is Ok ==> final(self).contents() == old(self).contents().insert(id@, material@),
            r is Err ==> *final(self) == *old(self) && r == Err::<(), KeyError>(
                KeyError::DuplicateKey,
            ),
    {
        self.registry.insert(id, material)
    }

    /// Whether a live key is held under `key_id`.
    pub fn contains(&self, key_id: &str) -> (b: bool)
        requires
            self.wf(),
        ensures
            b == self.contents().contains_key(key_id@),
    {
        self.registry.contains(key_id)
    }

    /// The destruction trigger, called by the external alert source.
    pub fn trigger_shred(&mut self, key_id: &str) -> (outcome: ShredOutcome)
        requires
            old(self).wf(),
        ensures
            final(self).wf(),
            final(self).spec_region() == old(self).spec_region(),
            final(self).contents() == old(self).contents().remove(key_id@),
            outcome.key_id@ == key_id@,
            outcome.found == old(self).contents().contains_key(key_id@),
            !outcome.found ==> *final(self) == *old(self),
            outcome.classification == classify_spec(outcome.found, outcome.elapsed_micros),
    {
        crate::shred::trigger_shred(&mut self.registry, key_id)
    }
}

} // verus!
