//! Witness-caching scheduler.
//!
//! Precomputes step witnesses ahead of their consumption by the fold loop.
//! Step 0 is deliberately excluded: the fold loop starts with it immediately
//! and computes its witness inline, so the consumer never stalls waiting for
//! the producer to start. The remaining steps are partitioned by shape
//! selector: steps selecting the default shape (selector 0) carry heavy
//! internal parallelism of their own and are cached one after another, while
//! steps selecting any other shape are light and are cached with cross-step
//! parallelism. A session runner may hand the two partitions to a background
//! worker group; this module fixes which step falls where and what caching
//! does to each step.

use vstd::prelude::*;

use crate::config::FoldingConfig;
use crate::error::ProofError;
use crate::step::Step;

verus! {

/// The caching partition over the first `n` steps: the indices `1 .. n`
/// whose selector is 0 (when `default` is true) or nonzero (when it is
/// false), in ascending order.
pub open spec fn partition_upto(steps: Seq<Step>, default: bool, n: int) -> Seq<usize>
    decreases n,
{
    if n <= 1 {
        Seq::empty()
    } else {
        let p = partition_upto(steps, default, n - 1);
        if (steps[n - 1].selector_spec() == 0) == default {
            p.push((n - 1) as usize)
        } else {
            p
        }
    }
}

/// Splits the steps behind step 0 into the two caching partitions: first
/// the indices selecting the default shape (cached sequentially, each with
/// its own internal parallelism), then the indices selecting auxiliary
/// shapes (cached with cross-step parallelism).
pub fn caching_partitions(steps: &Vec<Step>) -> (r: (Vec<usize>, Vec<usize>))
    ensures
        r.0@ == partition_upto(steps@, true, steps@.len() as int),
        r.1@ == partition_upto(steps@, false, steps@.len() as int),
{
    let mut default_part: Vec<usize> = Vec::new();
    let mut auxiliary_part: Vec<usize> = Vec::new();
    let mut i: usize = 1;
    while i < steps.len()
        invariant
            1 <= i <= steps@.len() || (i == 1 && steps@.len() <= 1),
            default_part@ == partition_upto(steps@, true, i as int),
            auxiliary_part@ == partition_upto(steps@, false, i as int),
        decreases steps@.len() - i,
    {
        if steps[i].shape_selector() == 0 {
            default_part.push(i);
        } else {
            auxiliary_part.push(i);
        }
        i = i + 1;
    }
    proof {
        if steps@.len() <= 1 {
            assert(default_part@ =~= partition_upto(steps@, true, steps@.len() as int));
            assert(auxiliary_part@ =~= partition_upto(steps@, false, steps@.len() as int));
        }
    }
    (default_part, auxiliary_part)
}

/// Caches the witness of every step behind step 0, default-shape partition
/// first, auxiliary partition second. Fails, with the failing step's index,
/// if and only if some step behind step 0 selects a shape outside the
/// family; the error carries the smallest such index (selector 0 is always
/// in range, so every failure lies in the auxiliary partition). Selectors,
/// inputs and outputs are never touched, and every step stays valid.
pub fn cache_witnesses(steps: &mut Vec<Step>, config: &FoldingConfig) -> (r: Result<
    (),
    ProofError,
>)
    requires
        config.num_circuits_spec() <= usize::MAX,
        forall|i: int| 0 <= i < old(steps)@.len() ==> old(steps)@[i].wf(*config),
    ensures
        final(steps)@.len() == old(steps)@.len(),
        forall|i: int|
            0 <= i < old(steps)@.len() ==> final(steps)@[i].same_core(old(steps)@[i])
                && final(steps)@[i].wf(*config),
        match r {
            Ok(()) => forall|i: int|
                1 <= i < old(steps)@.len() ==> old(steps)@[i].selector_ok(*config)
                    && final(steps)@[i].witness_spec() is Some,
            Err(e) => match e {
                ProofError::WitnessCache { step } => 1 <= step < old(steps)@.len()
                    && !old(steps)@[step as int].selector_ok(*config) && forall|j: int|
                    1 <= j < step ==> old(steps)@[j].selector_ok(*config),
                _ => false,
            },
        },
{
    let ghost entry = steps@;
    let n = steps.len();

    // Default-shape partition: selector 0 is always in range, so this pass
    // cannot fail.
    let mut i: usize = 1;
    while i < n
        invariant
            1 <= i,
            n == steps@.len(),
            entry == old(steps)@,
            steps@.len() == entry.len(),
            config.num_circuits_spec() <= usize::MAX,
            forall|k: int|
                0 <= k < entry.len() ==> steps@[k].same_core(entry[k]) && steps@[k].wf(*config),
            forall|k: int|
                1 <= k < i && entry[k].selector_spec() == 0 ==> steps@[k].witness_spec() is Some,
        decreases n - i,
    {
        if steps[i].shape_selector() == 0 {
            proof {
                assert(steps@[i as int].selector_ok(*config));
            }
            let cached = steps[i].cached_copy(config);
            steps[i] = cached;
        }
        i = i + 1;
    }

    // Auxiliary partition: an out-of-range selector is a witness failure,
    // fatal to the session, surfaced with the failing step's index.
    let mut i: usize = 1;
    while i < n
        invariant
            1 <= i,
            n == steps@.len(),
            entry == old(steps)@,
            steps@.len() == entry.len(),
            config.num_circuits_spec() <= usize::MAX,
            forall|k: int|
                0 <= k < entry.len() ==> steps@[k].same_core(entry[k]) && steps@[k].wf(*config),
            forall|k: int|
                1 <= k < n && entry[k].selector_spec() == 0 ==> steps@[k].witness_spec() is Some,
            forall|k: int|
                1 <= k < i && entry[k].selector_spec() != 0 ==> steps@[k].witness_spec() is Some,
            forall|j: int| 1 <= j < i ==> entry[j].selector_ok(*config),
        decreases n - i,
    {
        if steps[i].shape_selector() != 0 {
            if steps[i].shape_selector() >= config.num_circuits() {
                return Err(ProofError::WitnessCache { step: i });
            }
            let cached = steps[i].cached_copy(config);
            steps[i] = cached;
        } else {
            proof {
                assert(entry[i as int].selector_ok(*config));
            }
        }
        i = i + 1;
    }
    Ok(())
}

} // verus!
