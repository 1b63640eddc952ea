//! A fixed-content byte container for raw key material, owning its memory and
//! offering an explicit, irreversible wipe.

use vstd::prelude::*;

use crate::KeyError;

verus! {

/// Sentinel byte left by the last overwrite pass: every byte of a wiped
/// buffer equals this value.
pub const WIPE_SENTINEL: u8 = 0xAA;

/// Mathematical view of a [`VolatileKey`].
pub struct KeyModel {
    pub id: Seq<char>,
    pub material: Seq<u8>,
    pub wiped: bool,
}

/// Raw key material held only in volatile process memory. Created with the
/// key bytes, destroyed exactly once via [`VolatileKey::nuke`].
pub struct VolatileKey {
    id: String,
    material: Vec<u8>,
    wiped: bool,
}

impl View for VolatileKey {
    type V = KeyModel;

    closed spec fn view(&self) -> KeyModel {
        KeyModel { id: self.id@, material: self.material@, wiped: self.wiped }
    }
}

impl VolatileKey {
    /// A live buffer holding `material` under identifier `id`.
    pub fn new(id: String, material: Vec<u8>) -> (k: VolatileKey)
        ensures
            k@.id == id@,
            k@.material == material@,
            !k@.wiped,
    {
        VolatileKey { id, material, wiped: false }
    }

    pub fn id(&self) -> (r: &String)
        ensures
            r@ == self@.id,
    {
        &self.id
    }

    pub fn material(&self) -> (r: &Vec<u8>)
        ensures
            r@ == self@.material,
    {
        &self.material
    }

    pub fn len(&self) -> (n: usize)
        ensures
            n == self@.material.len(),
    {
        self.material.len()
    }

    pub fn is_wiped(&self) -> (b: bool)
        ensures
            b == self@.wiped,
    {
        self.wiped
    }

    /// Irreversibly overwrites the key material in three deterministic passes
    /// (all-zero, all-`0xFF`, all-`0xAA`), full length each pass, leaving every
    /// byte equal to [`WIPE_SENTINEL`] whatever the original content was.
    ///
    /// Wiping an already-wiped buffer is rejected as `AlreadyDestroyed` and
    /// leaves the buffer unchanged.
    pub fn nuke(&mut self) -> (r: Result<(), KeyError>)
        ensures
            r is Ok <==> !old(self)@.wiped,
            old(self)@.wiped ==> *final(self) == *old(self) && r == Err::<(), KeyError>(
                KeyError::AlreadyDestroyed,
            ),
            !old(self)@.wiped ==> {
                &&& final(self)@.wiped
                &&& final(self)@.id == old(self)@.id
                &&& final(self)@.material.len() == old(self)@.material.len()
                &&& forall|i: int|
                    0 <= i < final(self)@.material.len() ==> final(self)@.material[i]
                        == WIPE_SENTINEL
            },
    {
        if self.wiped {
            return Err(KeyError::AlreadyDestroyed);
        }
        self.overwrite_pass(0x00);
        self.overwrite_pass(0xFF);
        self.overwrite_pass(WIPE_SENTINEL);
        self.wiped = true;
        Ok(())
    }

    /// One full-length overwrite pass with a fixed byte.
    fn overwrite_pass(&mut self, fill: u8)
        ensures
            final(self)@.id == old(self)@.id,
            final(self)@.wiped == old(self)@.wiped,
            final(self)@.material.len() == old(self)@.material.len(),
            forall|i: int| 0 <= i < final(self)@.material.len() ==> final(self)@.material[i] == fill,
    {
        let n = self.material.len();
        let mut i: usize = 0;
        while i < n
            invariant
                i <= n,
                n == self.material.len(),
                self.id@ == old(self)@.id,
                self.wiped == old(self)@.wiped,
                forall|j: int| 0 <= j < i ==> self.material@[j] == fill,
            decreases n - i,
        {
            self.material[i] = fill;
            i += 1;
        }
    }
}

} // verus!
