//! The sequential fold engine.
//!
//! A state machine over `Empty`, `Folding(i)` and `Done`: created empty, it
//! folds one step at a time, in strict step order, into the running
//! accumulator, and on `finish` hands the accumulator out and is consumed
//! (the `Done` state). Folding is neither associative nor commutative here:
//! step `i + 1` is never folded before step `i` completed.

use vstd::prelude::*;

use crate::config::FoldingConfig;
use crate::error::ProofError;
use crate::lang::{apply_op, apply_shape};
use crate::params::PublicParams;
use crate::step::Step;
use crate::words::{clone_words, words_equal};

verus! {

/// Whether the folding scheme's step operation accepts `s` when the running
/// state is `zi`: the selector must be in range, the step must chain from
/// the running state, and the claimed output must be the selected shape's
/// transition of that state (otherwise the step's circuit is unsatisfied).
pub open spec fn step_valid(cfg: FoldingConfig, zi: Seq<u64>, s: Step) -> bool {
    &&& s.selector_ok(cfg)
    &&& s.input_spec() == zi
    &&& s.output_spec() == apply_shape(cfg.shape_spec(s.selector_spec() as int), zi)
}

/// The running state after folding the first `n` steps, starting from `z0`:
/// each step applies its selected shape's transition.
pub open spec fn fold_zi(cfg: FoldingConfig, z0: Seq<u64>, steps: Seq<Step>, n: int) -> Seq<u64>
    decreases n,
{
    if n <= 0 {
        z0
    } else {
        apply_shape(
            cfg.shape_spec(steps[n - 1].selector_spec() as int),
            fold_zi(cfg, z0, steps, n - 1),
        )
    }
}

/// The first `n` steps are each accepted by the fold operation, in order.
pub open spec fn steps_valid_to(
    cfg: FoldingConfig,
    z0: Seq<u64>,
    steps: Seq<Step>,
    n: int,
) -> bool {
    forall|j: int| 0 <= j < n ==> step_valid(cfg, fold_zi(cfg, z0, steps, j), #[trigger] steps[j])
}

/// The running recursive proof state: created by the fold engine once the
/// first step is folded, mutated by exactly one fold per step, and immutable
/// once handed to the compressor. Records the session's initial public
/// input, the running output, how many steps were folded, and the digest of
/// the parameter set it was produced under.
#[derive(Debug, PartialEq)]
pub struct Accumulator {
    z0: Vec<u64>,
    zi: Vec<u64>,
    steps_folded: usize,
    params_digest: u64,
}

impl Accumulator {
    /// The initial public input the accumulator was seeded with.
    pub closed spec fn z0_spec(self) -> Seq<u64> {
        self.z0@
    }

    /// The running public output the accumulator attests to.
    pub closed spec fn zi_spec(self) -> Seq<u64> {
        self.zi@
    }

    /// How many steps have been folded in.
    pub closed spec fn folded_spec(self) -> usize {
        self.steps_folded
    }

    /// The digest of the parameter set the accumulator was produced under.
    pub closed spec fn digest_spec(self) -> u64 {
        self.params_digest
    }

    /// The initial public input.
    pub fn z0(&self) -> (r: &Vec<u64>)
        ensures
            r@ == self.z0_spec(),
    {
        &self.z0
    }

    /// The attested final public output.
    pub fn zi(&self) -> (r: &Vec<u64>)
        ensures
            r@ == self.zi_spec(),
    {
        &self.zi
    }

    /// How many steps have been folded in.
    pub fn num_steps(&self) -> (r: usize)
        ensures
            r == self.folded_spec(),
    {
        self.steps_folded
    }

    /// The digest of the parameter set the accumulator was produced under.
    pub fn params_digest(&self) -> (r: u64)
        ensures
            r == self.digest_spec(),
    {
        self.params_digest
    }

    /// Rehydrates an accumulator from its parts, as a transported proof is
    /// read back in.
    pub fn from_parts(z0: Vec<u64>, zi: Vec<u64>, steps_folded: usize, params_digest: u64) -> (r:
        Accumulator)
        ensures
            r.z0_spec() == z0@,
            r.zi_spec() == zi@,
            r.folded_spec() == steps_folded,
            r.digest_spec() == params_digest,
    {
        Accumulator { z0, zi, steps_folded, params_digest }
    }

    /// Takes the accumulator apart: initial input, attested output, steps
    /// folded, parameter digest.
    pub fn into_parts(self) -> (r: (Vec<u64>, Vec<u64>, usize, u64))
        ensures
            r.0@ == self.z0_spec(),
            r.1@ == self.zi_spec(),
            r.2 == self.folded_spec(),
            r.3 == self.digest_spec(),
    {
        let Accumulator { z0, zi, steps_folded, params_digest } = self;
        (z0, zi, steps_folded, params_digest)
    }
}

/// The sequential fold engine. `Empty` until the first step is folded (no
/// accumulator exists yet), `Folding(i)` once `i >= 1` steps are folded,
/// `Done` when `finish` consumes it and returns the accumulator.
pub struct RecursiveFoldEngine<'a> {
    params: &'a PublicParams,
    z0: Vec<u64>,
    zi: Vec<u64>,
    steps_folded: usize,
}

impl<'a> RecursiveFoldEngine<'a> {
    /// The parameter set the engine folds under.
    pub closed spec fn pp(self) -> PublicParams {
        *self.params
    }

    /// How many steps have been folded so far; 0 is the `Empty` state.
    pub closed spec fn folded(self) -> usize {
        self.steps_folded
    }

    /// The session's initial public input.
    pub closed spec fn start(self) -> Seq<u64> {
        self.z0@
    }

    /// The running public output.
    pub closed spec fn cur(self) -> Seq<u64> {
        self.zi@
    }

    /// Well-formedness: the parameters are well formed and an empty engine
    /// still stands on its initial input.
    pub open spec fn wf(self) -> bool {
        &&& self.pp().wf()
        &&& self.folded() == 0 ==> self.cur() == self.start()
    }

    /// Creates an empty engine over `params`, seeded with the computation's
    /// global initial public input.
    pub fn new(params: &'a PublicParams, z0: Vec<u64>) -> (r: Self)
        requires
            params.wf(),
        ensures
            r.wf(),
            r.pp() == *params,
            r.folded() == 0,
            r.start() == z0@,
            r.cur() == z0@,
    {
        let zi = clone_words(&z0);
        RecursiveFoldEngine { params, z0, zi, steps_folded: 0 }
    }

    /// Folds one step into the running accumulator. On the first step this
    /// seeds the accumulator from the step's circuit instance and the
    /// initial input; afterwards it advances `Folding(i)` to
    /// `Folding(i + 1)`. If the witness-caching scheduler ran ahead, the
    /// step's precomputed witness is taken from its cell instead of being
    /// recomputed. A step the scheme rejects surfaces as a fatal
    /// `ProofError::Fold` carrying the failing step index, and the engine is
    /// left unchanged.
    pub fn fold_step(&mut self, step: &Step) -> (r: Result<(), ProofError>)
        requires
            old(self).wf(),
            step.wf(old(self).pp().cfg()),
            old(self).folded() < usize::MAX,
        ensures
            final(self).wf(),
            final(self).pp() == old(self).pp(),
            final(self).start() == old(self).start(),
            match r {
                Ok(()) => {
                    &&& step_valid(old(self).pp().cfg(), old(self).cur(), *step)
                    &&& final(self).folded() == old(self).folded() + 1
                    &&& final(self).cur() == apply_shape(
                        old(self).pp().cfg().shape_spec(step.selector_spec() as int),
                        old(self).cur(),
                    )
                },
                Err(e) => {
                    &&& !step_valid(old(self).pp().cfg(), old(self).cur(), *step)
                    &&& e == (ProofError::Fold { step: old(self).folded() })
                    &&& *final(self) == *old(self)
                },
            },
    {
        let params: &PublicParams = self.params;
        let cfg = params.config();
        if step.shape_selector() >= cfg.num_circuits() {
            return Err(ProofError::Fold { step: self.steps_folded });
        }
        if !words_equal(step.public_input(), &self.zi) {
            return Err(ProofError::Fold { step: self.steps_folded });
        }
        // The witness: taken from the step's cell when the scheduler cached
        // it, derived inline otherwise. A valid cache holds exactly the
        // derived witness, so both paths agree.
        let w: Vec<u64> = match step.cached_witness() {
            Some(cached) => clone_words(cached),
            None => {
                let op = cfg.shape_at(step.shape_selector());
                apply_op(&op, step.public_input())
            },
        };
        // The step's circuit is satisfied only if the claimed output is the
        // witnessed transition of the chained input.
        if !words_equal(step.public_output(), &w) {
            return Err(ProofError::Fold { step: self.steps_folded });
        }
        self.zi = w;
        self.steps_folded = self.steps_folded + 1;
        Ok(())
    }

    /// Finishes the session: consumes the engine (the `Done` state) and
    /// returns the accumulator. An engine that never folded a step has no
    /// accumulator to return and fails with `ProofError::EmptySequence`.
    pub fn finish(self) -> (r: Result<Accumulator, ProofError>)
        ensures
            match r {
                Ok(acc) => self.folded() >= 1 && acc.z0_spec() == self.start() && acc.zi_spec()
                    == self.cur() && acc.folded_spec() == self.folded() && acc.digest_spec()
                    == self.pp().digest_spec(),
                Err(e) => self.folded() == 0 && e == ProofError::EmptySequence,
            },
    {
        if self.steps_folded == 0 {
            return Err(ProofError::EmptySequence);
        }
        let digest = self.params.digest();
        Ok(
            Accumulator {
                z0: self.z0,
                zi: self.zi,
                steps_folded: self.steps_folded,
                params_digest: digest,
            },
        )
    }
}

} // verus!
