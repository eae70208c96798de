use supernova::config::FoldingConfig;
use supernova::engine::{Accumulator, RecursiveFoldEngine};
use supernova::error::ProofError;
use supernova::lang::{ShapeFamily, ShapeOp};
use supernova::params::{public_params, PublicParams};
use supernova::proving::Proof;
use supernova::scheduler::{cache_witnesses, caching_partitions};
use supernova::step::Step;

/// The two-shape family of the worked scenario: the default shape leaves
/// the state unchanged, the auxiliary shape adds one to every lane.
fn identity_increment() -> ShapeFamily {
    ShapeFamily { default_op: ShapeOp::Identity, auxiliary_ops: vec![ShapeOp::AddConst(1)] }
}

fn scenario_params() -> PublicParams {
    public_params(10, identity_increment()).unwrap()
}

/// Steps selecting [Identity, Increment, Identity] over z0 = [0].
fn scenario_steps() -> Vec<Step> {
    vec![
        Step::new(0, vec![0], vec![0]),
        Step::new(1, vec![0], vec![1]),
        Step::new(0, vec![1], vec![1]),
    ]
}

#[test]
fn scenario_identity_increment() {
    let pp = scenario_params();
    let proof = Proof::prove_recursively(&pp, &vec![0], scenario_steps(), false).unwrap();
    assert_eq!(proof.verify(&pp, &vec![0], &vec![1]), Ok(true));
    assert_eq!(proof.verify(&pp, &vec![0], &vec![2]), Ok(false));
}

#[test]
fn round_trip_rejects_every_tampered_output() {
    let pp = scenario_params();
    let proof = Proof::prove_recursively(&pp, &vec![0], scenario_steps(), false).unwrap();
    for tampered in [vec![0], vec![2], vec![1, 1], vec![]] {
        assert_eq!(proof.verify(&pp, &vec![0], &tampered), Ok(false));
    }
    assert_eq!(proof.verify(&pp, &vec![1], &vec![1]), Ok(false));
}

#[test]
fn empty_sequence_rejected() {
    let pp = scenario_params();
    let res = Proof::prove_recursively(&pp, &vec![0], vec![], false);
    assert_eq!(res, Err(ProofError::EmptySequence));
    let res = Proof::prove_recursively(&pp, &vec![0], vec![], true);
    assert_eq!(res, Err(ProofError::EmptySequence));
}

#[test]
fn compression_is_faithful() {
    let pp = scenario_params();
    let proof = Proof::prove_recursively(&pp, &vec![0], scenario_steps(), false).unwrap();
    let recursive_good = proof.verify(&pp, &vec![0], &vec![1]);
    let recursive_bad = proof.verify(&pp, &vec![0], &vec![2]);
    let compressed = proof.compress(&pp).unwrap();
    assert!(matches!(compressed, Proof::Compressed(_)));
    assert_eq!(compressed.verify(&pp, &vec![0], &vec![1]), recursive_good);
    assert_eq!(compressed.verify(&pp, &vec![0], &vec![2]), recursive_bad);
}

#[test]
fn compression_is_idempotent() {
    let pp = scenario_params();
    let proof = Proof::prove_recursively(&pp, &vec![0], scenario_steps(), false).unwrap();
    let reference = Proof::prove_recursively(&pp, &vec![0], scenario_steps(), false)
        .unwrap()
        .compress(&pp)
        .unwrap();
    let once = proof.compress(&pp).unwrap();
    assert_eq!(once, reference);
    let twice = once.compress(&pp).unwrap();
    assert_eq!(twice, reference);
}

#[test]
fn scheduling_equivalence() {
    let pp = scenario_params();
    let sequential = Proof::prove_recursively(&pp, &vec![0], scenario_steps(), false);
    let cached = Proof::prove_recursively(&pp, &vec![0], scenario_steps(), true);
    assert_eq!(sequential, cached);
    assert!(sequential.is_ok());
}

#[test]
fn setup_rejects_zero_reduction_count() {
    assert_eq!(public_params(0, identity_increment()).err(), Some(ProofError::Setup));
}

#[test]
fn background_caching_reports_bad_selector() {
    let pp = scenario_params();
    let steps = vec![
        Step::new(0, vec![0], vec![0]),
        Step::new(9, vec![0], vec![1]),
        Step::new(0, vec![1], vec![1]),
    ];
    let res = Proof::prove_recursively(&pp, &vec![0], steps, true);
    assert_eq!(res, Err(ProofError::WitnessCache { step: 1 }));
}

#[test]
fn fold_rejects_bad_selector_inline() {
    let pp = scenario_params();
    let steps = vec![Step::new(0, vec![0], vec![0]), Step::new(9, vec![0], vec![1])];
    let res = Proof::prove_recursively(&pp, &vec![0], steps, false);
    assert_eq!(res, Err(ProofError::Fold { step: 1 }));
}

#[test]
fn fold_rejects_broken_chain() {
    let pp = scenario_params();
    let steps = vec![
        Step::new(0, vec![0], vec![0]),
        // claims to start from [5] while the running state is [0]
        Step::new(1, vec![5], vec![6]),
    ];
    let res = Proof::prove_recursively(&pp, &vec![0], steps, false);
    assert_eq!(res, Err(ProofError::Fold { step: 1 }));
}

#[test]
fn fold_rejects_wrong_output() {
    let pp = scenario_params();
    // the increment shape maps [0] to [1], not to [7]
    let steps = vec![Step::new(1, vec![0], vec![7])];
    let res = Proof::prove_recursively(&pp, &vec![0], steps, false);
    assert_eq!(res, Err(ProofError::Fold { step: 0 }));
}

#[test]
fn verification_under_foreign_params_is_an_error() {
    let pp = scenario_params();
    let other = public_params(11, identity_increment()).unwrap();
    let proof = Proof::prove_recursively(&pp, &vec![0], scenario_steps(), false).unwrap();
    assert_eq!(proof.verify(&other, &vec![0], &vec![1]), Err(ProofError::Verification));
    let compressed = proof.compress(&pp).unwrap();
    assert_eq!(compressed.verify(&other, &vec![0], &vec![1]), Err(ProofError::Verification));
}

#[test]
fn compression_under_foreign_params_is_rejected() {
    let pp = scenario_params();
    let other = public_params(11, identity_increment()).unwrap();
    let proof = Proof::prove_recursively(&pp, &vec![0], scenario_steps(), false).unwrap();
    assert_eq!(proof.compress(&other), Err(ProofError::Verification));
}

#[test]
fn partitions_split_by_selector_and_skip_step_zero() {
    let steps = vec![
        Step::new(1, vec![0], vec![1]),
        Step::new(1, vec![1], vec![2]),
        Step::new(0, vec![2], vec![2]),
        Step::new(2, vec![2], vec![3]),
        Step::new(0, vec![3], vec![3]),
    ];
    let (default_part, auxiliary_part) = caching_partitions(&steps);
    assert_eq!(default_part, vec![2, 4]);
    assert_eq!(auxiliary_part, vec![1, 3]);
}

#[test]
fn cached_witnesses_leave_cores_untouched() {
    let cfg = FoldingConfig::new_nivc(identity_increment(), 10);
    let mut steps = scenario_steps();
    assert_eq!(cache_witnesses(&mut steps, &cfg), Ok(()));
    // step 0 is excluded from caching; the others carry their witness
    assert!(steps[0].cached_witness().is_none());
    assert_eq!(steps[1].cached_witness().as_deref(), Some(&[1u64][..]));
    assert_eq!(steps[2].cached_witness().as_deref(), Some(&[1u64][..]));
    assert_eq!(steps[1].shape_selector(), 1);
    assert_eq!(steps[1].public_input(), &vec![0]);
    assert_eq!(steps[1].public_output(), &vec![1]);
}

#[test]
fn engine_folds_stepwise_and_finishes() {
    let pp = scenario_params();
    let mut engine = RecursiveFoldEngine::new(&pp, vec![0]);
    for step in scenario_steps() {
        assert_eq!(engine.fold_step(&step), Ok(()));
    }
    let acc = engine.finish().unwrap();
    assert_eq!(acc.z0(), &vec![0]);
    assert_eq!(acc.zi(), &vec![1]);
    assert_eq!(acc.num_steps(), 3);
    assert_eq!(acc.params_digest(), pp.digest());
}

#[test]
fn empty_engine_has_no_accumulator() {
    let pp = scenario_params();
    let engine = RecursiveFoldEngine::new(&pp, vec![0]);
    assert_eq!(engine.finish(), Err(ProofError::EmptySequence));
}

#[test]
fn accumulator_parts_round_trip() {
    let acc = Accumulator::from_parts(vec![0], vec![1], 3, 77);
    assert_eq!(acc.z0(), &vec![0]);
    assert_eq!(acc.zi(), &vec![1]);
    assert_eq!(acc.num_steps(), 3);
    assert_eq!(acc.params_digest(), 77);
    let (z0, zi, folded, digest) = acc.into_parts();
    assert_eq!((z0, zi, folded, digest), (vec![0], vec![1], 3, 77));
}

#[test]
fn mul_const_shape_folds_wrapping() {
    let fam = ShapeFamily { default_op: ShapeOp::MulConst(3), auxiliary_ops: vec![] };
    let pp = public_params(2, fam).unwrap();
    let steps = vec![Step::new(0, vec![2, 5], vec![6, 15]), Step::new(0, vec![6, 15], vec![18, 45])];
    let proof = Proof::prove_recursively(&pp, &vec![2, 5], steps, true).unwrap();
    assert_eq!(proof.verify(&pp, &vec![2, 5], &vec![18, 45]), Ok(true));
    assert_eq!(proof.verify(&pp, &vec![2, 5], &vec![18, 44]), Ok(false));
}

#[test]
fn wrapping_add_at_word_boundary() {
    let fam = ShapeFamily { default_op: ShapeOp::AddConst(1), auxiliary_ops: vec![] };
    let pp = public_params(4, fam).unwrap();
    let steps = vec![Step::new(0, vec![u64::MAX], vec![0])];
    let proof = Proof::prove_recursively(&pp, &vec![u64::MAX], steps, false).unwrap();
    assert_eq!(proof.verify(&pp, &vec![u64::MAX], &vec![0]), Ok(true));
}

#[test]
fn empty_state_vector_folds() {
    let pp = scenario_params();
    let steps = vec![Step::new(0, vec![], vec![]), Step::new(1, vec![], vec![])];
    let proof = Proof::prove_recursively(&pp, &vec![], steps, true).unwrap();
    assert_eq!(proof.verify(&pp, &vec![], &vec![]), Ok(true));
    assert_eq!(proof.verify(&pp, &vec![], &vec![0]), Ok(false));
}
