use supernova::config::{FoldingConfig, FoldingMode, SuperNovaProver};
use supernova::lang::{ShapeFamily, ShapeOp};

fn two_shape_family() -> ShapeFamily {
    ShapeFamily { default_op: ShapeOp::Identity, auxiliary_ops: vec![ShapeOp::AddConst(1)] }
}

#[test]
fn num_circuits_uniform_is_one() {
    let cfg = FoldingConfig::new_ivc(two_shape_family(), 10);
    assert_eq!(cfg.num_circuits(), 1);
}

#[test]
fn num_circuits_non_uniform_counts_auxiliaries() {
    let cfg = FoldingConfig::new_nivc(two_shape_family(), 10);
    assert_eq!(cfg.num_circuits(), 2);
    let bigger = ShapeFamily {
        default_op: ShapeOp::Identity,
        auxiliary_ops: vec![ShapeOp::AddConst(1), ShapeOp::MulConst(3), ShapeOp::Identity],
    };
    let cfg = FoldingConfig::new_nivc(bigger, 5);
    assert_eq!(cfg.num_circuits(), 4);
}

#[test]
fn folding_config_accessors() {
    let cfg = FoldingConfig::new_nivc(two_shape_family(), 7);
    assert_eq!(cfg.reduction_count(), 7);
    assert_eq!(cfg.lang().default_op, ShapeOp::Identity);
    assert_eq!(cfg.lang().auxiliary_ops, vec![ShapeOp::AddConst(1)]);
    assert_eq!(cfg.shape_at(0), ShapeOp::Identity);
    assert_eq!(cfg.shape_at(1), ShapeOp::AddConst(1));
    let ivc = FoldingConfig::new_ivc(two_shape_family(), 9);
    assert_eq!(ivc.reduction_count(), 9);
    assert_eq!(ivc.shape_at(0), ShapeOp::Identity);
}

#[test]
fn prover_carries_its_configuration() {
    let prover = SuperNovaProver::new(11, two_shape_family());
    assert_eq!(prover.reduction_count(), 11);
    assert_eq!(prover.lang().default_op, ShapeOp::Identity);
    assert_eq!(*prover.folding_mode(), FoldingMode::NIVC);
}
