//! Folding configuration and the prover that carries it.

use vstd::prelude::*;

use crate::lang::{family_shape, ShapeFamily, ShapeOp};

verus! {

/// Whether a proving session folds with a single circuit shape reused for
/// every step (IVC) or with a per-step choice from a fixed family (NIVC).
#[derive(Clone, Copy, PartialEq, Eq, Structural, Debug)]
pub enum FoldingMode {
    /// One circuit shape, reused for every folding step.
    IVC,
    /// A fixed family of circuit shapes, selected per step.
    NIVC,
}

/// Folding configuration: the shape family, the reduction count (the
/// step-size parameter) and the folding mode of a proving setup.
/// Immutable after construction.
#[derive(Debug)]
pub enum FoldingConfig {
    /// IVC: the family's default shape is used for every folding step.
    IVC(ShapeFamily, usize),
    /// NIVC: each folding step selects one shape of the family.
    NIVC(ShapeFamily, usize),
}

impl FoldingConfig {
    /// The shape family of this configuration.
    pub open spec fn family(self) -> ShapeFamily {
        match self {
            FoldingConfig::IVC(lang, _) => lang,
            FoldingConfig::NIVC(lang, _) => lang,
        }
    }

    /// The reduction count of this configuration.
    pub open spec fn rc_spec(self) -> usize {
        match self {
            FoldingConfig::IVC(_, rc) => rc,
            FoldingConfig::NIVC(_, rc) => rc,
        }
    }

    /// How many circuit shapes a session under this configuration can
    /// select: one when uniform, the whole family when non-uniform.
    pub open spec fn num_circuits_spec(self) -> int {
        match self {
            FoldingConfig::IVC(..) => 1,
            FoldingConfig::NIVC(lang, _) => 1 + lang.auxiliary_ops@.len() as int,
        }
    }

    /// The shape a step with shape selector `sel` uses under this
    /// configuration.
    pub open spec fn shape_spec(self, sel: int) -> ShapeOp {
        family_shape(self.family(), sel)
    }

    /// Creates a uniform (IVC) configuration for `lang`.
    pub fn new_ivc(lang: ShapeFamily, reduction_count: usize) -> (r: Self)
        ensures
            r == FoldingConfig::IVC(lang, reduction_count),
    {
        FoldingConfig::IVC(lang, reduction_count)
    }

    /// Creates a non-uniform (NIVC) configuration for `lang`.
    pub fn new_nivc(lang: ShapeFamily, reduction_count: usize) -> (r: Self)
        ensures
            r == FoldingConfig::NIVC(lang, reduction_count),
    {
        FoldingConfig::NIVC(lang, reduction_count)
    }

    /// The total number of circuits potentially required when folding under
    /// this configuration.
    pub fn num_circuits(&self) -> (r: usize)
        requires
            self.num_circuits_spec() <= usize::MAX,
        ensures
            r == self.num_circuits_spec(),
    {
        match self {
            FoldingConfig::IVC(..) => 1,
            FoldingConfig::NIVC(lang, _) => 1 + lang.auxiliary_ops.len(),
        }
    }

    /// The contained shape family.
    pub fn lang(&self) -> (r: &ShapeFamily)
        ensures
            *r == self.family(),
    {
        match self {
            FoldingConfig::IVC(lang, _) => lang,
            FoldingConfig::NIVC(lang, _) => lang,
        }
    }

    /// The contained reduction count.
    pub fn reduction_count(&self) -> (r: usize)
        ensures
            r == self.rc_spec(),
    {
        match self {
            FoldingConfig::IVC(_, rc) => *rc,
            FoldingConfig::NIVC(_, rc) => *rc,
        }
    }

    /// The shape a step with shape selector `sel` uses.
    pub fn shape_at(&self, sel: usize) -> (r: ShapeOp)
        requires
            sel < self.num_circuits_spec(),
        ensures
            r == self.shape_spec(sel as int),
    {
        match self {
            FoldingConfig::IVC(lang, _) => lang.default_op,
            FoldingConfig::NIVC(lang, _) => {
                if sel == 0 {
                    lang.default_op
                } else {
                    lang.auxiliary_ops[sel - 1]
                }
            },
        }
    }
}

/// A prover for the folding-based proving system: fixes the reduction count,
/// the shape family and the folding mode of a proving session.
#[derive(Debug)]
pub struct SuperNovaProver {
    /// The number of small-step reductions performed in each recursive step.
    reduction_count: usize,
    lang: ShapeFamily,
    folding_mode: FoldingMode,
}

impl SuperNovaProver {
    /// The prover's reduction count.
    pub closed spec fn rc_spec(self) -> usize {
        self.reduction_count
    }

    /// The prover's shape family.
    pub closed spec fn family(self) -> ShapeFamily {
        self.lang
    }

    /// The prover's folding mode.
    pub closed spec fn mode_spec(self) -> FoldingMode {
        self.folding_mode
    }

    /// Creates a prover with a reduction count and a shape family; the
    /// folding mode is always non-uniform.
    pub fn new(reduction_count: usize, lang: ShapeFamily) -> (r: Self)
        ensures
            r.rc_spec() == reduction_count,
            r.family() == lang,
            r.mode_spec() == FoldingMode::NIVC,
    {
        SuperNovaProver { reduction_count, lang, folding_mode: FoldingMode::NIVC }
    }

    /// The prover's reduction count.
    pub fn reduction_count(&self) -> (r: usize)
        ensures
            r == self.rc_spec(),
    {
        self.reduction_count
    }

    /// The prover's shape family.
    pub fn lang(&self) -> (r: &ShapeFamily)
        ensures
            *r == self.family(),
    {
        &self.lang
    }

    /// The prover's folding mode.
    pub fn folding_mode(&self) -> (r: &FoldingMode)
        ensures
            *r == self.mode_spec(),
    {
        &self.folding_mode
    }
}

} // verus!
