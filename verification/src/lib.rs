//! Ephemeral key registry with an irreversible, audited destruction protocol.
//!
//! Key material lives only in volatile memory, held by a [`buffer::VolatileKey`]
//! inside a [`registry::KeyRegistry`]. A destruction request detaches the entry
//! from the registry, overwrites the material in three fixed passes, and reports
//! a classified [`shred::ShredOutcome`].

use vstd::prelude::*;

pub mod buffer;
pub mod node;
pub mod registry;
pub mod shred;

verus! {

/// Errors local to a single request; no error affects other keys.
#[derive(Clone, Copy, Debug, PartialEq, Eq, Structural)]
pub enum KeyError {
    /// Insert of an id already present: rejected, no side effect.
    DuplicateKey,
    /// Wipe of a buffer that was already wiped: a caller-error signal.
    AlreadyDestroyed,
}

} // verus!
