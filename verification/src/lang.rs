//! Step-circuit shapes and shape families.
//!
//! A shape describes the transition one folding step applies to the public
//! state vector. A family groups the shapes a session may select from: shape
//! index 0 is the default (highest-frequency) shape, indices 1 and above are
//! the auxiliary shapes.

use vstd::prelude::*;

verus! {

/// One step-circuit shape: the transition it applies, lane by lane, to the
/// public state vector. Lanes are 64-bit words and arithmetic wraps,
/// modelling the scalar field of the folding scheme.
#[derive(Clone, Copy, PartialEq, Eq, Structural, Debug)]
pub enum ShapeOp {
    /// Leaves every lane unchanged.
    Identity,
    /// Adds a constant to every lane.
    AddConst(u64),
    /// Multiplies every lane by a constant.
    MulConst(u64),
}

/// A family of step-circuit shapes. Shape index 0 selects `default_op`;
/// index `i >= 1` selects `auxiliary_ops[i - 1]`.
#[derive(Debug)]
pub struct ShapeFamily {
    /// The default shape, selected by shape index 0.
    pub default_op: ShapeOp,
    /// The auxiliary shapes, selected by shape indices 1 and above.
    pub auxiliary_ops: Vec<ShapeOp>,
}

/// The transition a shape applies to one state lane.
pub open spec fn apply_lane(op: ShapeOp, x: u64) -> u64 {
    match op {
        ShapeOp::Identity => x,
        ShapeOp::AddConst(c) => x.wrapping_add(c),
        ShapeOp::MulConst(c) => x.wrapping_mul(c),
    }
}

/// The transition a shape applies to a whole state vector.
pub open spec fn apply_shape(op: ShapeOp, z: Seq<u64>) -> Seq<u64> {
    z.map_values(|x: u64| apply_lane(op, x))
}

/// The shape of `lang` selected by shape index `i`.
pub open spec fn family_shape(lang: ShapeFamily, i: int) -> ShapeOp {
    if i == 0 {
        lang.default_op
    } else {
        lang.auxiliary_ops@[i - 1]
    }
}

/// Applies one shape to a state vector.
pub fn apply_op(op: &ShapeOp, z: &Vec<u64>) -> (r: Vec<u64>)
    ensures
        r@ == apply_shape(*op, z@),
{
    let mut out: Vec<u64> = Vec::new();
    let mut i: usize = 0;
    while i < z.len()
        invariant
            i <= z@.len(),
            out@ == apply_shape(*op, z@).subrange(0, i as int),
        decreases z@.len() - i,
    {
        let x = z[i];
        let y = match op {
            ShapeOp::Identity => x,
            ShapeOp::AddConst(c) => x.wrapping_add(*c),
            ShapeOp::MulConst(c) => x.wrapping_mul(*c),
        };
        out.push(y);
        i = i + 1;
        proof {
            assert(out@ =~= apply_shape(*op, z@).subrange(0, i as int));
        }
    }
    proof {
        assert(out@ =~= apply_shape(*op, z@));
    }
    out
}

} // verus!
