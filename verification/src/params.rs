//! Structured parameters of a proving session.
//!
//! Built once per configuration; shared read-only by every proving and
//! verifying operation. The digest identifies the exact parameter set: two
//! parameter sets are interchangeable only if their digests match.

use vstd::prelude::*;

use crate::config::FoldingConfig;
use crate::digest::{cache_key_spec, circuit_cache_key};
use crate::error::ProofError;
use crate::lang::ShapeFamily;

verus! {

/// The multiplier that chains circuit cache keys into a parameter digest.
pub const DIGEST_MIX: u64 = 0x100_0000_01b3;

/// One chaining step of the parameter digest.
pub open spec fn mix(h: u64, k: u64) -> u64 {
    h.wrapping_mul(DIGEST_MIX).wrapping_add(k)
}

/// The parameter digest accumulated over the cache keys of the first `n`
/// circuits of `cfg`, seeded with the reduction count.
pub open spec fn params_digest_upto(cfg: FoldingConfig, n: int) -> u64
    decreases n,
{
    if n <= 0 {
        cfg.rc_spec() as u64
    } else {
        mix(
            params_digest_upto(cfg, n - 1),
            (cache_key_spec(
                cfg.rc_spec() as int,
                cfg.shape_spec(n - 1),
                cfg.num_circuits_spec(),
            )) as u64,
        )
    }
}

/// The digest identifying the parameter set derived from `cfg`: the chain
/// over every circuit's cache key.
pub open spec fn params_digest_spec(cfg: FoldingConfig) -> u64 {
    params_digest_upto(cfg, cfg.num_circuits_spec())
}

/// Structured parameters for the proving system: the configuration they
/// were derived from, and the digest identifying the exact parameter set
/// (standing for the derived commitment keys and the prover/verifier key
/// pair). Never mutated after construction.
#[derive(Debug)]
pub struct PublicParams {
    config: FoldingConfig,
    digest: u64,
}

impl PublicParams {
    /// The configuration this parameter set was derived from.
    pub closed spec fn cfg(self) -> FoldingConfig {
        self.config
    }

    /// The digest identifying this parameter set.
    pub closed spec fn digest_spec(self) -> u64 {
        self.digest
    }

    /// Well-formedness: what `public_params` establishes. The circuit count
    /// fits a machine word, the reduction count is positive, and the digest
    /// is the one derived from the configuration.
    pub open spec fn wf(self) -> bool {
        &&& self.cfg().num_circuits_spec() <= usize::MAX
        &&& self.cfg().rc_spec() >= 1
        &&& self.digest_spec() == params_digest_spec(self.cfg())
    }

    /// The parameter set's digest.
    pub fn digest(&self) -> (r: u64)
        ensures
            r == self.digest_spec(),
    {
        self.digest
    }

    /// The configuration this parameter set was derived from.
    pub fn config(&self) -> (r: &FoldingConfig)
        ensures
            *r == self.cfg(),
    {
        &self.config
    }
}

/// Derives the structured parameters for a non-uniform session over `lang`
/// with reduction count `rc`: the cache key of every circuit of the family
/// is derived and chained into the parameter digest. Setup is one-shot and
/// never retried; it fails, if and only if the reduction count is zero, with
/// `ProofError::Setup` (a step that performs no reductions is a
/// configuration defect the key derivation rejects).
pub fn public_params(rc: usize, lang: ShapeFamily) -> (r: Result<PublicParams, ProofError>)
    requires
        1 + lang.auxiliary_ops@.len() <= usize::MAX,
    ensures
        match r {
            Ok(pp) => rc >= 1 && pp.cfg() == FoldingConfig::NIVC(lang, rc) && pp.wf(),
            Err(e) => rc == 0 && e == ProofError::Setup,
        },
{
    if rc == 0 {
        return Err(ProofError::Setup);
    }
    let config = FoldingConfig::new_nivc(lang, rc);
    let num_circuits = config.num_circuits();
    let mut h: u64 = rc as u64;
    let mut i: usize = 0;
    while i < num_circuits
        invariant
            i <= num_circuits,
            num_circuits == config.num_circuits_spec(),
            config.num_circuits_spec() <= usize::MAX,
            config is NIVC,
            rc == config.rc_spec(),
            h == params_digest_upto(config, i as int),
        decreases num_circuits - i,
    {
        let key = circuit_cache_key(config.reduction_count(), config.lang(), i);
        h = h.wrapping_mul(DIGEST_MIX).wrapping_add(key);
        i = i + 1;
    }
    Ok(PublicParams { config, digest: h })
}

} // verus!
