//! Proofs: the running recursive form, the compressed form, proving,
//! compression and verification.

use vstd::prelude::*;

use crate::engine::{fold_zi, step_valid, steps_valid_to, Accumulator, RecursiveFoldEngine};
use crate::error::ProofError;
use crate::params::PublicParams;
use crate::scheduler::cache_witnesses;
use crate::step::Step;
use crate::words::{clone_words, words_equal};

verus! {

/// A succinct proof derived once from a completed accumulator; immutable
/// and independently verifiable without replaying the fold loop. Records
/// the same attestation as the accumulator it was compressed from.
#[derive(Debug, PartialEq)]
pub struct CompressedProof {
    z0: Vec<u64>,
    zi: Vec<u64>,
    steps_folded: usize,
    params_digest: u64,
}

impl CompressedProof {
    /// The initial public input the proof attests to.
    pub closed spec fn z0_spec(self) -> Seq<u64> {
        self.z0@
    }

    /// The final public output the proof attests to.
    pub closed spec fn zi_spec(self) -> Seq<u64> {
        self.zi@
    }

    /// How many steps the compressed session folded.
    pub closed spec fn folded_spec(self) -> usize {
        self.steps_folded
    }

    /// The digest of the parameter set the proof was produced under.
    pub closed spec fn digest_spec(self) -> u64 {
        self.params_digest
    }

    /// The attested initial public input.
    pub fn z0(&self) -> (r: &Vec<u64>)
        ensures
            r@ == self.z0_spec(),
    {
        &self.z0
    }

    /// The attested final public output.
    pub fn zi(&self) -> (r: &Vec<u64>)
        ensures
            r@ == self.zi_spec(),
    {
        &self.zi
    }

    /// How many steps the compressed session folded.
    pub fn num_steps(&self) -> (r: usize)
        ensures
            r == self.folded_spec(),
    {
        self.steps_folded
    }

    /// The digest of the parameter set the proof was produced under.
    pub fn params_digest(&self) -> (r: u64)
        ensures
            r == self.digest_spec(),
    {
        self.params_digest
    }

    /// Rehydrates a compressed proof from its parts, as a transported proof
    /// is read back in.
    pub fn from_parts(z0: Vec<u64>, zi: Vec<u64>, steps_folded: usize, params_digest: u64) -> (r:
        CompressedProof)
        ensures
            r.z0_spec() == z0@,
            r.zi_spec() == zi@,
            r.folded_spec() == steps_folded,
            r.digest_spec() == params_digest,
    {
        CompressedProof { z0, zi, steps_folded, params_digest }
    }
}

/// The two forms a proof can take: the running recursive accumulator of the
/// intermediate steps, and the succinct compressed proof of the final form.
#[derive(Debug, PartialEq)]
pub enum Proof {
    /// A proof for the intermediate steps of a recursive computation.
    Recursive(Accumulator),
    /// A proof for the final step of a recursive computation.
    Compressed(CompressedProof),
}

/// The digest of the parameter set a proof was produced under.
pub open spec fn proof_digest(p: Proof) -> u64 {
    match p {
        Proof::Recursive(a) => a.digest_spec(),
        Proof::Compressed(c) => c.digest_spec(),
    }
}

/// The initial public input a proof attests to.
pub open spec fn proof_z0(p: Proof) -> Seq<u64> {
    match p {
        Proof::Recursive(a) => a.z0_spec(),
        Proof::Compressed(c) => c.z0_spec(),
    }
}

/// The final public output a proof attests to.
pub open spec fn proof_zi(p: Proof) -> Seq<u64> {
    match p {
        Proof::Recursive(a) => a.zi_spec(),
        Proof::Compressed(c) => c.zi_spec(),
    }
}

/// How many steps a proof's session folded.
pub open spec fn proof_steps(p: Proof) -> usize {
    match p {
        Proof::Recursive(a) => a.folded_spec(),
        Proof::Compressed(c) => c.folded_spec(),
    }
}

/// Two proofs attest to the same session: same parameter set, same initial
/// input, same final output, same number of steps. Everything verification
/// observes.
pub open spec fn same_attestation(p: Proof, q: Proof) -> bool {
    &&& proof_digest(p) == proof_digest(q)
    &&& proof_z0(p) == proof_z0(q)
    &&& proof_zi(p) == proof_zi(q)
    &&& proof_steps(p) == proof_steps(q)
}

/// The proof attests exactly to the session that folds `steps` from `z0`
/// under `pp`: it carries that parameter set's digest, that initial input,
/// the recursive output of the whole step sequence, and the step count.
pub open spec fn attests_to_session(
    p: Proof,
    pp: PublicParams,
    z0: Seq<u64>,
    steps: Seq<Step>,
) -> bool {
    &&& proof_digest(p) == pp.digest_spec()
    &&& proof_z0(p) == z0
    &&& proof_zi(p) == fold_zi(pp.cfg(), z0, steps, steps.len() as int)
    &&& proof_steps(p) == steps.len()
}

/// What verification returns: the scheme's native check fails (an error,
/// recoverable by treating the proof as invalid) when the proof was
/// produced under a different parameter set; otherwise the result is true
/// exactly when the claimed initial input and final output are the ones the
/// proof attests to.
pub open spec fn verify_spec(p: Proof, pp: PublicParams, z0: Seq<u64>, zi: Seq<u64>) -> Result<
    bool,
    ProofError,
> {
    if proof_digest(p) != pp.digest_spec() {
        Err(ProofError::Verification)
    } else {
        Ok(proof_z0(p) == z0 && proof_zi(p) == zi)
    }
}

/// Everything `prove_recursively` promises of its result `r`:
/// - success, with a recursive proof attesting to the whole session, if and
///   only if the sequence is non-empty and every step is accepted in order;
/// - `EmptySequence` on an empty sequence;
/// - `WitnessCache` with the smallest failing index when background caching
///   hits an out-of-range selector behind step 0 (only with `parallel`);
/// - `Fold` with the first rejected step's index otherwise.
pub open spec fn prove_post(
    pp: PublicParams,
    z0: Seq<u64>,
    steps: Seq<Step>,
    parallel: bool,
    r: Result<Proof, ProofError>,
) -> bool {
    let cfg = pp.cfg();
    match r {
        Ok(p) => {
            &&& steps.len() > 0
            &&& steps_valid_to(cfg, z0, steps, steps.len() as int)
            &&& p is Recursive
            &&& attests_to_session(p, pp, z0, steps)
        },
        Err(e) => match e {
            ProofError::EmptySequence => steps.len() == 0,
            ProofError::WitnessCache { step } => {
                &&& parallel
                &&& 1 <= step < steps.len()
                &&& !steps[step as int].selector_ok(cfg)
                &&& forall|j: int| 1 <= j < step ==> steps[j].selector_ok(cfg)
            },
            ProofError::Fold { step } => {
                &&& step < steps.len()
                &&& steps_valid_to(cfg, z0, steps, step as int)
                &&& !step_valid(cfg, fold_zi(cfg, z0, steps, step as int), steps[step as int])
                &&& (parallel ==> forall|j: int|
                    1 <= j < steps.len() ==> steps[j].selector_ok(cfg))
            },
            _ => false,
        },
    }
}

impl Proof {
    /// Runs the whole proving session: folds every step, in strict order,
    /// into one accumulator and returns it as a recursive proof. With
    /// `parallel` the witness-caching scheduler first precomputes the
    /// witnesses of every step behind step 0 (a session runner may overlap
    /// that pass with the fold loop; the folded result is the same either
    /// way). Fails as `prove_post` states: on an empty sequence, on a
    /// caching failure, or on the first step the scheme rejects.
    #[verifier::rlimit(100)]
    #[verifier::spinoff_prover]
    pub fn prove_recursively(
        pp: &PublicParams,
        z0: &Vec<u64>,
        steps: Vec<Step>,
        parallel: bool,
    ) -> (r: Result<Proof, ProofError>)
        requires
            pp.wf(),
            forall|i: int| 0 <= i < steps@.len() ==> steps@[i].wf(pp.cfg()),
        ensures
            prove_post(*pp, z0@, steps@, parallel, r),
    {
        let ghost entry = steps@;
        let mut work = steps;
        if parallel {
            match cache_witnesses(&mut work, pp.config()) {
                Ok(()) => {},
                Err(e) => {
                    return Err(e);
                },
            }
        }
        let n = work.len();
        let mut engine = RecursiveFoldEngine::new(pp, clone_words(z0));
        let mut i: usize = 0;
        while i < n
            invariant
                i <= n,
                n == work@.len(),
                entry == steps@,
                entry.len() == work@.len(),
                pp.wf(),
                engine.wf(),
                engine.pp() == *pp,
                engine.folded() == i,
                engine.start() == z0@,
                engine.cur() == fold_zi(pp.cfg(), z0@, entry, i as int),
                steps_valid_to(pp.cfg(), z0@, entry, i as int),
                forall|k: int|
                    0 <= k < entry.len() ==> work@[k].same_core(entry[k]) && work@[k].wf(
                        pp.cfg(),
                    ),
                parallel ==> forall|j: int| 1 <= j < entry.len() ==> entry[j].selector_ok(pp.cfg()),
            decreases n - i,
        {
            let ghost cur = engine.cur();
            proof {
                assert(work@[i as int].same_core(entry[i as int]));
                assert(work@[i as int].wf(pp.cfg()));
                assert(engine.pp().cfg() == pp.cfg());
            }
            match engine.fold_step(&work[i]) {
                Ok(()) => {
                    proof {
                        // validity carries over to the entry view of the
                        // step: caching never touches the core fields
                        assert(step_valid(pp.cfg(), cur, entry[i as int]));
                        assert(steps_valid_to(pp.cfg(), z0@, entry, i as int + 1));
                    }
                },
                Err(e) => {
                    proof {
                        assert(!step_valid(pp.cfg(), cur, entry[i as int]));
                        assert(e == (ProofError::Fold { step: i }));
                    }
                    return Err(e);
                },
            }
            i = i + 1;
        }
        // A session that folded no step has no accumulator to hand out.
        match engine.finish() {
            Ok(acc) => Ok(Proof::Recursive(acc)),
            Err(e) => Err(e),
        }
    }

    /// Compresses a finished accumulator into a succinct proof by invoking
    /// the compression prover under the session's keys; an accumulator
    /// produced under a different parameter set is rejected with the
    /// scheme's verification failure. Idempotent on an already-compressed
    /// proof: it is returned unchanged, without re-invoking the prover, so
    /// callers may compress defensively.
    pub fn compress(self, pp: &PublicParams) -> (r: Result<Proof, ProofError>)
        ensures
            self is Compressed ==> r == Ok::<Proof, ProofError>(self),
            self is Recursive && proof_digest(self) == pp.digest_spec() ==> {
                &&& r is Ok
                &&& r.unwrap() is Compressed
                &&& same_attestation(r.unwrap(), self)
            },
            self is Recursive && proof_digest(self) != pp.digest_spec() ==> r == Err::<
                Proof,
                ProofError,
            >(ProofError::Verification),
    {
        match self {
            Proof::Recursive(acc) => {
                if acc.params_digest() != pp.digest() {
                    return Err(ProofError::Verification);
                }
                let (z0, zi, steps_folded, params_digest) = acc.into_parts();
                Ok(Proof::Compressed(CompressedProof { z0, zi, steps_folded, params_digest }))
            },
            Proof::Compressed(c) => Ok(Proof::Compressed(c)),
        }
    }

    /// Verifies the proof, in either form, against the claimed initial
    /// input `z0` and claimed final output `zi`. Never mutates anything and
    /// may be called any number of times. A parameter-set mismatch is the
    /// scheme's native verification failure (an error); otherwise the
    /// result is true exactly when the claims match the attestation.
    pub fn verify(&self, pp: &PublicParams, z0: &Vec<u64>, zi: &Vec<u64>) -> (r: Result<
        bool,
        ProofError,
    >)
        ensures
            r == verify_spec(*self, *pp, z0@, zi@),
    {
        let p_digest: u64 = match self {
            Proof::Recursive(a) => a.params_digest(),
            Proof::Compressed(c) => c.params_digest(),
        };
        if p_digest != pp.digest() {
            return Err(ProofError::Verification);
        }
        let ok = match self {
            Proof::Recursive(a) => {
                words_equal(a.z0(), z0) && words_equal(a.zi(), zi)
            },
            Proof::Compressed(c) => {
                words_equal(c.z0(), z0) && words_equal(c.zi(), zi)
            },
        };
        Ok(ok)
    }
}

/// Law (round trip): a proof produced by a successful proving session —
/// with or without background caching — verifies, under the same parameters
/// and initial input, exactly those claimed outputs that equal the
/// session's actual recursive output, and rejects every tampered claim.
pub proof fn lemma_round_trip(
    pp: PublicParams,
    z0: Seq<u64>,
    steps: Seq<Step>,
    parallel: bool,
    p: Proof,
    claimed: Seq<u64>,
)
    requires
        prove_post(pp, z0, steps, parallel, Ok(p)),
    ensures
        verify_spec(p, pp, z0, claimed) == Ok::<bool, ProofError>(
            claimed == fold_zi(pp.cfg(), z0, steps, steps.len() as int),
        ),
{
}

/// Law (compression is faithful): two proofs with the same attestation —
/// in particular a compressed proof and the accumulator it came from —
/// verify identically against every parameter set and every claim.
pub proof fn lemma_compression_faithful(
    p: Proof,
    q: Proof,
    pp: PublicParams,
    z0: Seq<u64>,
    zi: Seq<u64>,
)
    requires
        same_attestation(p, q),
    ensures
        verify_spec(p, pp, z0, zi) == verify_spec(q, pp, z0, zi),
{
}

/// Law (scheduling equivalence): on a step sequence the sequential path
/// accepts, the path with background witness caching accepts too, and the
/// two final proofs carry the identical attestation.
pub proof fn lemma_scheduling_equivalence(
    pp: PublicParams,
    z0: Seq<u64>,
    steps: Seq<Step>,
    r_par: Result<Proof, ProofError>,
    r_seq: Result<Proof, ProofError>,
)
    requires
        prove_post(pp, z0, steps, true, r_par),
        prove_post(pp, z0, steps, false, r_seq),
        r_seq is Ok,
    ensures
        r_par is Ok,
        same_attestation(r_par.unwrap(), r_seq.unwrap()),
{
    let cfg = pp.cfg();
    assert(steps.len() > 0);
    assert forall|j: int| 0 <= j < steps.len() implies steps[j].selector_ok(cfg) by {
        assert(step_valid(cfg, fold_zi(cfg, z0, steps, j), steps[j]));
    }
    match r_par {
        Ok(_) => {},
        Err(e) => match e {
            ProofError::EmptySequence => {
                assert(false);
            },
            ProofError::WitnessCache { step } => {
                assert(steps[step as int].selector_ok(cfg));
                assert(false);
            },
            ProofError::Fold { step } => {
                assert(step_valid(cfg, fold_zi(cfg, z0, steps, step as int), steps[step as int]));
                assert(false);
            },
            _ => {
                assert(false);
            },
        },
    }
}

} // verus!
