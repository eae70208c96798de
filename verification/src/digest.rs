//! Circuit digests and parameter cache keys.
//!
//! Every circuit shape gets a structural digest — a word fingerprinting its
//! constraint structure — and a cache key: the digest scaled by the session's
//! reduction count, so that cached structured parameters go stale when either
//! the shape or the step size changes. External parameter caches compare
//! these keys; this crate never persists them itself.

use vstd::prelude::*;

use crate::lang::{family_shape, ShapeFamily, ShapeOp};

verus! {

/// One more than the largest word: the modulus of wrapping word arithmetic.
pub const WORD_MOD: u128 = 0x1_0000_0000_0000_0000;

/// The variant tag a shape contributes to its digest.
pub open spec fn op_code(op: ShapeOp) -> int {
    match op {
        ShapeOp::Identity => 0,
        ShapeOp::AddConst(_) => 1,
        ShapeOp::MulConst(_) => 2,
    }
}

/// The constant a shape contributes to its digest.
pub open spec fn op_param(op: ShapeOp) -> int {
    match op {
        ShapeOp::Identity => 0,
        ShapeOp::AddConst(c) => c as int,
        ShapeOp::MulConst(c) => c as int,
    }
}

/// The structural digest of one circuit shape, given the size of the family
/// it is compiled into. Always in `1 .. 2^48`, so that scaling by a
/// reduction count below `2^16` is an exact product.
pub open spec fn shape_digest_spec(op: ShapeOp, num_circuits: int) -> int {
    1 + op_code(op) * 0x1000_0000_0000 + (op_param(op) % 0x1_0000_0000) * 0x1000 + num_circuits
        % 0x1000
}

/// The cache key of one circuit shape: its structural digest scaled by the
/// reduction count, in wrapping word arithmetic.
pub open spec fn cache_key_spec(rc: int, op: ShapeOp, num_circuits: int) -> int {
    (rc * shape_digest_spec(op, num_circuits)) % (WORD_MOD as int)
}

/// The structural digest stays within `1 .. 2^48`.
pub proof fn lemma_shape_digest_bounds(op: ShapeOp, num_circuits: int)
    ensures
        1 <= shape_digest_spec(op, num_circuits) < 0x1_0000_0000_0000,
{
}

/// Derives the structural digest of one shape.
fn shape_digest(op: &ShapeOp, num_circuits: usize) -> (r: u64)
    ensures
        r as int == shape_digest_spec(*op, num_circuits as int),
{
    let code: u64 = match op {
        ShapeOp::Identity => 0,
        ShapeOp::AddConst(_) => 1,
        ShapeOp::MulConst(_) => 2,
    };
    let param: u64 = match op {
        ShapeOp::Identity => 0,
        ShapeOp::AddConst(c) => *c,
        ShapeOp::MulConst(c) => *c,
    };
    1 + code * 0x1000_0000_0000 + (param % 0x1_0000_0000) * 0x1000 + (num_circuits as u64) % 0x1000
}

/// Computes the cache key of one circuit shape of the non-uniform family
/// over `lang`: the shape's structural digest, scaled by the reduction
/// count. Deterministic: the result is a function of the three arguments
/// alone, pinned to `cache_key_spec`.
pub fn circuit_cache_key(rc: usize, lang: &ShapeFamily, circuit_index: usize) -> (r: u64)
    requires
        circuit_index < 1 + lang.auxiliary_ops@.len() as int,
        1 + lang.auxiliary_ops@.len() <= usize::MAX,
    ensures
        r as int == cache_key_spec(
            rc as int,
            family_shape(*lang, circuit_index as int),
            1 + lang.auxiliary_ops@.len() as int,
        ),
{
    let num_circuits: usize = 1 + lang.auxiliary_ops.len();
    let op: ShapeOp = if circuit_index == 0 {
        lang.default_op
    } else {
        lang.auxiliary_ops[circuit_index - 1]
    };
    let d = shape_digest(&op, num_circuits);
    proof {
        assert((rc as u128) as int * (d as u128) as int <= u128::MAX) by (nonlinear_arith)
            requires
                (rc as u128) < 0x1_0000_0000_0000_0000,
                (d as u128) < 0x1_0000_0000_0000_0000,
        ;
    }
    let wide: u128 = (rc as u128) * (d as u128);
    (wide % WORD_MOD) as u64
}

/// Collects the cache keys of every circuit of the non-uniform family over
/// `lang`, in shape-index order; external caches combine them to decide
/// whether stored structured parameters are still valid.
pub fn circuit_cache_keys(rc: usize, lang: &ShapeFamily) -> (r: Vec<u64>)
    requires
        1 + lang.auxiliary_ops@.len() <= usize::MAX,
    ensures
        r@.len() == 1 + lang.auxiliary_ops@.len() as int,
        forall|i: int|
            0 <= i < r@.len() ==> r@[i] as int == cache_key_spec(
                rc as int,
                family_shape(*lang, i),
                1 + lang.auxiliary_ops@.len() as int,
            ),
{
    let num_circuits: usize = 1 + lang.auxiliary_ops.len();
    let mut keys: Vec<u64> = Vec::new();
    let mut i: usize = 0;
    while i < num_circuits
        invariant
            i <= num_circuits,
            num_circuits == 1 + lang.auxiliary_ops@.len() as int,
            keys@.len() == i,
            forall|j: int|
                0 <= j < i ==> keys@[j] as int == cache_key_spec(
                    rc as int,
                    family_shape(*lang, j),
                    1 + lang.auxiliary_ops@.len() as int,
                ),
        decreases num_circuits - i,
    {
        let key = circuit_cache_key(rc, lang, i);
        keys.push(key);
        i = i + 1;
    }
    keys
}

/// Law: digest derivation is step-size sensitive. For reduction counts
/// below `2^16` the scaled key is an exact product of the reduction count
/// and a digest in `1 .. 2^48`, so two different reduction counts give two
/// different cache keys for every shape of the family. (For larger
/// reduction counts the scaling wraps and may collide.)
pub proof fn lemma_step_size_changes_every_digest(
    rc1: int,
    rc2: int,
    lang: ShapeFamily,
    i: int,
)
    requires
        rc1 != rc2,
        0 <= rc1 < 0x1_0000,
        0 <= rc2 < 0x1_0000,
        0 <= i < 1 + lang.auxiliary_ops@.len() as int,
    ensures
        cache_key_spec(rc1, family_shape(lang, i), 1 + lang.auxiliary_ops@.len() as int)
            != cache_key_spec(rc2, family_shape(lang, i), 1 + lang.auxiliary_ops@.len() as int),
{
    let nc = 1 + lang.auxiliary_ops@.len() as int;
    let op = family_shape(lang, i);
    let d = shape_digest_spec(op, nc);
    lemma_shape_digest_bounds(op, nc);
    lemma_exact_scaling_injective(rc1, rc2, d);
}

/// Law: digest derivation is shape sensitive. Two different shapes whose
/// constants lie below `2^32` get different structural digests under the
/// same family size. (Larger constants are folded into 32 bits and may
/// collide.)
pub proof fn lemma_shape_changes_digest(op1: ShapeOp, op2: ShapeOp, num_circuits: int)
    requires
        op1 != op2,
        op_param(op1) < 0x1_0000_0000,
        op_param(op2) < 0x1_0000_0000,
    ensures
        shape_digest_spec(op1, num_circuits) != shape_digest_spec(op2, num_circuits),
{
    assert(0 <= op_param(op1) && 0 <= op_param(op2));
    assert(op_param(op1) % 0x1_0000_0000 == op_param(op1));
    assert(op_param(op2) % 0x1_0000_0000 == op_param(op2));
    if op_code(op1) == op_code(op2) && op_param(op1) == op_param(op2) {
        assert(op1 == op2);
    }
}

/// Two different reduction counts below `2^16`, scaled against the same
/// digest in `1 .. 2^48`, give two different keys: both products stay below
/// the word modulus, so the wrap is the identity.
proof fn lemma_exact_scaling_injective(rc1: int, rc2: int, d: int)
    requires
        rc1 != rc2,
        0 <= rc1 < 0x1_0000,
        0 <= rc2 < 0x1_0000,
        1 <= d < 0x1_0000_0000_0000,
    ensures
        (rc1 * d) % (WORD_MOD as int) != (rc2 * d) % (WORD_MOD as int),
{
    assert(rc1 * d < 0x1_0000_0000_0000_0000 && rc2 * d < 0x1_0000_0000_0000_0000
        && rc1 * d >= 0 && rc2 * d >= 0 && rc1 * d != rc2 * d) by (nonlinear_arith)
        requires
            rc1 != rc2,
            0 <= rc1 < 0x1_0000,
            0 <= rc2 < 0x1_0000,
            1 <= d < 0x1_0000_0000_0000,
    ;
    vstd::arithmetic::div_mod::lemma_small_mod((rc1 * d) as nat, WORD_MOD as nat);
    vstd::arithmetic::div_mod::lemma_small_mod((rc2 * d) as nat, WORD_MOD as nat);
}

} // verus!
