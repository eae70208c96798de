//! Errors of a proving session.

use vstd::prelude::*;

verus! {

/// Every failure a proving session can surface. None of these is retried:
/// each one is either a structural or configuration defect, or genuine
/// proof invalidity, and a restart of the whole session is required.
#[derive(Clone, Copy, PartialEq, Eq, Structural, Debug)]
pub enum ProofError {
    /// Parameter or key derivation failed during setup.
    Setup,
    /// The witness of step `step` could not be computed during background
    /// caching; fatal to the session.
    WitnessCache { step: usize },
    /// The folding-scheme step operation rejected step `step`; fatal to the
    /// session.
    Fold { step: usize },
    /// The scheme's native verification failed: the proof was produced
    /// under structured parameters other than the ones supplied. Distinct
    /// from a `false` verification result, which reports an honest
    /// input/output mismatch.
    Verification,
    /// The step sequence was empty: the fold loop needs at least one step
    /// to seed the accumulator.
    EmptySequence,
}

} // verus!
