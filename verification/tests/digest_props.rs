use supernova::digest::{circuit_cache_key, circuit_cache_keys};
use supernova::lang::{ShapeFamily, ShapeOp};

fn identity_only() -> ShapeFamily {
    ShapeFamily { default_op: ShapeOp::Identity, auxiliary_ops: vec![] }
}

fn mixed_family() -> ShapeFamily {
    ShapeFamily { default_op: ShapeOp::Identity, auxiliary_ops: vec![ShapeOp::AddConst(5)] }
}

#[test]
fn cache_key_exact_value() {
    // digest of Identity in a one-shape family is 1 + 0 + 0 + 1 = 2,
    // scaled by the reduction count 3.
    assert_eq!(circuit_cache_key(3, &identity_only(), 0), 6);
    // digest of AddConst(5) in a two-shape family is
    // 1 + 2^44 + 5 * 2^12 + 2, scaled by 7.
    assert_eq!(circuit_cache_key(7, &mixed_family(), 1), 123_145_302_454_293);
}

#[test]
fn cache_key_deterministic() {
    let fam = mixed_family();
    for index in 0..2 {
        let first = circuit_cache_key(42, &fam, index);
        let second = circuit_cache_key(42, &fam, index);
        assert_eq!(first, second);
    }
}

#[test]
fn step_size_changes_every_cache_key() {
    let fam = mixed_family();
    let keys_a = circuit_cache_keys(10, &fam);
    let keys_b = circuit_cache_keys(11, &fam);
    assert_eq!(keys_a.len(), 2);
    assert_eq!(keys_b.len(), 2);
    for i in 0..keys_a.len() {
        assert_ne!(keys_a[i], keys_b[i]);
    }
}

#[test]
fn shape_change_changes_cache_key() {
    let fam_a = ShapeFamily { default_op: ShapeOp::Identity, auxiliary_ops: vec![ShapeOp::AddConst(1)] };
    let fam_b = ShapeFamily { default_op: ShapeOp::Identity, auxiliary_ops: vec![ShapeOp::AddConst(2)] };
    let fam_c = ShapeFamily { default_op: ShapeOp::Identity, auxiliary_ops: vec![ShapeOp::MulConst(1)] };
    assert_ne!(circuit_cache_key(10, &fam_a, 1), circuit_cache_key(10, &fam_b, 1));
    assert_ne!(circuit_cache_key(10, &fam_a, 1), circuit_cache_key(10, &fam_c, 1));
}

#[test]
fn family_keys_match_per_index_keys() {
    let fam = ShapeFamily {
        default_op: ShapeOp::Identity,
        auxiliary_ops: vec![ShapeOp::AddConst(1), ShapeOp::MulConst(9)],
    };
    let keys = circuit_cache_keys(6, &fam);
    assert_eq!(keys.len(), 3);
    for (i, key) in keys.iter().enumerate() {
        assert_eq!(*key, circuit_cache_key(6, &fam, i));
    }
}
