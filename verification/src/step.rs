//! One computation transition and its witness cache.
//!
//! A step is produced by the external evaluator, one per transition, and is
//! immutable once created except for its witness cache: the witness is
//! expensive to derive, so it may be precomputed ahead of the fold loop and
//! stored on the step.

use vstd::prelude::*;

use crate::config::FoldingConfig;
use crate::lang::{apply_op, apply_shape};
use crate::words::clone_words;

verus! {

/// One computation transition: the shape it selects, its public input and
/// output vectors, and the lazily computed witness.
#[derive(Debug)]
pub struct Step {
    shape_selector: usize,
    public_input: Vec<u64>,
    public_output: Vec<u64>,
    witness: Option<Vec<u64>>,
}

impl Step {
    /// The index of the circuit shape this step selects; 0 is the default
    /// shape.
    pub closed spec fn selector_spec(self) -> usize {
        self.shape_selector
    }

    /// The step's public input vector.
    pub closed spec fn input_spec(self) -> Seq<u64> {
        self.public_input@
    }

    /// The step's public output vector.
    pub closed spec fn output_spec(self) -> Seq<u64> {
        self.public_output@
    }

    /// The cached witness, if one has been computed.
    pub closed spec fn witness_spec(self) -> Option<Seq<u64>> {
        match self.witness {
            Some(w) => Some(w@),
            None => None,
        }
    }

    /// The witness the step's circuit instance derives: the transition of
    /// the selected shape applied to the step's input.
    pub open spec fn derived_witness(self, cfg: FoldingConfig) -> Seq<u64> {
        apply_shape(cfg.shape_spec(self.selector_spec() as int), self.input_spec())
    }

    /// Whether the step's shape selector is in range for `cfg`.
    pub open spec fn selector_ok(self, cfg: FoldingConfig) -> bool {
        self.selector_spec() < cfg.num_circuits_spec()
    }

    /// Validity of the witness cache under `cfg`: empty, or holding exactly
    /// the derived witness. Freshly created steps are valid for every
    /// configuration; `cache_witness` keeps a step valid for the
    /// configuration it was given.
    pub open spec fn wf(self, cfg: FoldingConfig) -> bool {
        match self.witness_spec() {
            None => true,
            Some(w) => w == self.derived_witness(cfg),
        }
    }

    /// Equality of everything but the witness cache.
    pub open spec fn same_core(self, other: Step) -> bool {
        &&& self.selector_spec() == other.selector_spec()
        &&& self.input_spec() == other.input_spec()
        &&& self.output_spec() == other.output_spec()
    }

    /// Creates a step with an empty witness cache.
    pub fn new(shape_selector: usize, public_input: Vec<u64>, public_output: Vec<u64>) -> (r: Step)
        ensures
            r.selector_spec() == shape_selector,
            r.input_spec() == public_input@,
            r.output_spec() == public_output@,
            r.witness_spec() is None,
    {
        Step { shape_selector, public_input, public_output, witness: None }
    }

    /// The step's shape selector.
    pub fn shape_selector(&self) -> (r: usize)
        ensures
            r == self.selector_spec(),
    {
        self.shape_selector
    }

    /// The step's public input vector.
    pub fn public_input(&self) -> (r: &Vec<u64>)
        ensures
            r@ == self.input_spec(),
    {
        &self.public_input
    }

    /// The step's public output vector.
    pub fn public_output(&self) -> (r: &Vec<u64>)
        ensures
            r@ == self.output_spec(),
    {
        &self.public_output
    }

    /// The cached witness, if one has been computed.
    pub fn cached_witness(&self) -> (r: &Option<Vec<u64>>)
        ensures
            match r {
                Some(w) => self.witness_spec() == Some(w@),
                None => self.witness_spec() is None,
            },
    {
        &self.witness
    }

    /// Computes the step's witness under `config` and stores it in the
    /// cache. Everything but the cache is left unchanged.
    pub fn cache_witness(&mut self, config: &FoldingConfig)
        requires
            old(self).selector_ok(*config),
            config.num_circuits_spec() <= usize::MAX,
        ensures
            final(self).same_core(*old(self)),
            final(self).witness_spec() == Some(old(self).derived_witness(*config)),
            final(self).wf(*config),
    {
        let op = config.shape_at(self.shape_selector);
        let w = apply_op(&op, &self.public_input);
        self.witness = Some(w);
    }

    /// A copy of the step with its witness under `config` computed and
    /// cached.
    pub fn cached_copy(&self, config: &FoldingConfig) -> (r: Step)
        requires
            self.selector_ok(*config),
            config.num_circuits_spec() <= usize::MAX,
        ensures
            r.same_core(*self),
            r.witness_spec() == Some(self.derived_witness(*config)),
            r.wf(*config),
    {
        let op = config.shape_at(self.shape_selector);
        let w = apply_op(&op, &self.public_input);
        Step {
            shape_selector: self.shape_selector,
            public_input: clone_words(&self.public_input),
            public_output: clone_words(&self.public_output),
            witness: Some(w),
        }
    }
}

} // verus!
