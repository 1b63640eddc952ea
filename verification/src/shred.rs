//! The destruction protocol: a request locates the key, detaches it from the
//! registry, wipes the detached buffer, measures the elapsed time, and reports
//! a classified outcome. Destruction is one-shot: the only failure is an absent
//! id, an expected and non-fatal outcome.

use vstd::prelude::*;

use crate::registry::KeyRegistry;

verus! {

/// Threshold, in microseconds, above which a completed shred is classified as
/// slow. Observational only: it aborts nothing.
pub const SLOW_THRESHOLD_MICROS: u128 = 30000;

/// How one destruction request ended.
#[derive(Clone, Copy, Debug, PartialEq, Eq, Structural)]
pub enum Classification {
    /// The key was wiped within the time threshold.
    Success,
    /// The key was wiped, but the elapsed time exceeded the threshold.
    SlowWarning,
    /// No key with the requested id was present (possibly already destroyed).
    NotFound,
}

/// Report of one destruction request; produced once, immutable.
pub struct ShredOutcome {
    pub key_id: String,
    pub found: bool,
    pub elapsed_micros: u128,
    pub classification: Classification,
}

/// Classification as a function of whether the key was found and of the
/// elapsed time.
pub open spec fn classify_spec(found: bool, elapsed_micros: u128) -> Classification {
    if !found {
        Classification::NotFound
    } else if elapsed_micros > SLOW_THRESHOLD_MICROS {
        Classification::SlowWarning
    } else {
        Classification::Success
    }
}

/// Classifies a completed request from what was observed.
pub fn classify(found: bool, elapsed_micros: u128) -> (c: Classification)
    ensures
        c == classify_spec(found, elapsed_micros),
{
    if !found {
        Classification::NotFound
    } else if elapsed_micros > SLOW_THRESHOLD_MICROS {
        Classification::SlowWarning
    } else {
        Classification::Success
    }
}

/// Relies on std::time::Instant::now: an opaque reading of the monotonic clock.
#[verifier::external_body]
fn clock_now() -> std::time::Instant {
    std::time::Instant::now()
}

/// Relies on std::time::Instant::elapsed, converted to a plain count by
/// std::time::Duration::as_micros: the microseconds of monotonic time since
/// `start`. The value depends on the clock, so nothing is promised of it.
#[verifier::external_body]
fn micros_since(start: &std::time::Instant) -> u128 {
    start.elapsed().as_micros()
}

#[verifier::external_type_specification]
#[verifier::external_body]
pub struct ExInstant(std::time::Instant);

/// Runs one destruction request end to end: records the start time, detaches
/// the entry for `key_id` under exclusive access, wipes the detached buffer,
/// and reports the elapsed time with its classification. An absent id yields a
/// `NotFound` outcome and leaves the registry unchanged; a found key is wiped
/// exactly once and its entry is gone afterwards.
pub fn trigger_shred(registry: &mut KeyRegistry, key_id: &str) -> (outcome: ShredOutcome)
    requires
        old(registry).wf(),
    ensures
        final(registry).wf(),
        final(registry).spec_region() == old(registry).spec_region(),
        final(registry).contents() == old(registry).contents().remove(key_id@),
        outcome.key_id@ == key_id@,
        outcome.found == old(registry).contents().contains_key(key_id@),
        !outcome.found ==> *final(registry) == *old(registry),
        outcome.classification == classify_spec(outcome.found, outcome.elapsed_micros),
{
    let start = clock_now();
    match registry.remove_and_destroy(key_id) {
        Some(mut detached) => {
            let wiped = detached.nuke();
            assert(wiped is Ok);
            let elapsed = micros_since(&start);
            ShredOutcome {
                key_id: key_id.to_owned(),
                found: true,
                elapsed_micros: elapsed,
                classification: classify(true, elapsed),
            }
        },
        None => {
            let elapsed = micros_since(&start);
            ShredOutcome {
                key_id: key_id.to_owned(),
                found: false,
                elapsed_micros: elapsed,
                classification: classify(false, elapsed),
            }
        },
    }
}

/// Destruction is idempotent by absence: once a destruction request has run
/// for `id` against contents `m`, no later request for `id` can find it, and
/// whatever time the later request takes, its outcome is classified `NotFound`.
pub proof fn lemma_idempotent_by_absence(m: Map<Seq<char>, Seq<u8>>, id: Seq<char>)
    ensures
        !m.remove(id).contains_key(id),
        forall|elapsed: u128|
            classify_spec(m.remove(id).contains_key(id), elapsed) == Classification::NotFound,
{
}

/// The found-flags of `n` destruction requests for the same `id`, run one
/// after another against a registry whose contents start as `m`: each request
/// reports whether the id was present and removes it, as `trigger_shred` does.
pub open spec fn shred_found_flags(m: Map<Seq<char>, Seq<u8>>, id: Seq<char>, n: nat) -> Seq<bool>
    decreases n,
{
    if n == 0 {
        Seq::empty()
    } else {
        seq![m.contains_key(id)] + shred_found_flags(m.remove(id), id, (n - 1) as nat)
    }
}

proof fn lemma_absent_never_found(m: Map<Seq<char>, Seq<u8>>, id: Seq<char>, n: nat)
    requires
        !m.contains_key(id),
    ensures
        shred_found_flags(m, id, n).len() == n,
        forall|i: int| 0 <= i < n ==> !shred_found_flags(m, id, n)[i],
    decreases n,
{
    if n > 0 {
        lemma_absent_never_found(m.remove(id), id, (n - 1) as nat);
        assert forall|i: int| 0 <= i < n implies !shred_found_flags(m, id, n)[i] by {
            if i >= 1 {
                assert(shred_found_flags(m, id, n)[i] == shred_found_flags(
                    m.remove(id),
                    id,
                    (n - 1) as nat,
                )[i - 1]);
            }
        }
    }
}

/// Destruction of one id is linearizable: of `n >= 1` destruction requests for
/// the same `id`, run one after another in any serialization, only the first
/// can find the key — it does exactly when the key is present — and every
/// later request reports the key absent. So concurrent requests serialized by
/// the registry's exclusive access produce exactly one wipe and `n - 1`
/// `NotFound` outcomes when the key is present.
pub proof fn lemma_exactly_one_wipe(m: Map<Seq<char>, Seq<u8>>, id: Seq<char>, n: nat)
    requires
        n >= 1,
    ensures
        shred_found_flags(m, id, n).len() == n,
        shred_found_flags(m, id, n)[0] == m.contains_key(id),
        forall|i: int| 1 <= i < n ==> !shred_found_flags(m, id, n)[i],
{
    lemma_absent_never_found(m.remove(id), id, (n - 1) as nat);
    assert forall|i: int| 1 <= i < n implies !shred_found_flags(m, id, n)[i] by {
        assert(shred_found_flags(m, id, n)[i] == shred_found_flags(
            m.remove(id),
            id,
            (n - 1) as nat,
        )[i - 1]);
    }
}

} // verus!
