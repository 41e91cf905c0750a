use crystal_lattice::SymmetryOp;

const ALL_OPS: [SymmetryOp; 11] = [
    SymmetryOp::Identity,
    SymmetryOp::Inversion,
    SymmetryOp::Rotation2,
    SymmetryOp::Rotation3,
    SymmetryOp::Rotation4,
    SymmetryOp::Rotation6,
    SymmetryOp::Mirror,
    SymmetryOp::Rotoinversion2,
    SymmetryOp::Rotoinversion3,
    SymmetryOp::Rotoinversion4,
    SymmetryOp::Rotoinversion6,
];

#[test]
fn test_identity_order() {
    assert_eq!(SymmetryOp::Identity.order(), 1);
}

#[test]
fn test_rotation3_order() {
    assert_eq!(SymmetryOp::Rotation3.order(), 3);
}

#[test]
fn test_rotation6_order() {
    assert_eq!(SymmetryOp::Rotation6.order(), 6);
}

#[test]
fn test_is_rotation() {
    assert!(SymmetryOp::Rotation4.is_rotation());
    assert!(!SymmetryOp::Mirror.is_rotation());
}

#[test]
fn test_is_improper() {
    assert!(SymmetryOp::Mirror.is_improper());
    assert!(!SymmetryOp::Rotation3.is_improper());
}

#[test]
fn test_determinant_proper() {
    assert!((SymmetryOp::Rotation4.determinant() as f64 - 1.0).abs() < 1e-10);
}

#[test]
fn test_determinant_improper() {
    assert!((SymmetryOp::Mirror.determinant() as f64 + 1.0).abs() < 1e-10);
}

#[test]
fn orders_of_every_operation() {
    let expected = [1, 2, 2, 3, 4, 6, 2, 2, 6, 4, 6];
    for (op, n) in ALL_OPS.iter().zip(expected.iter()) {
        assert_eq!(op.order(), *n);
    }
}

#[test]
fn only_identity_has_order_one() {
    for op in ALL_OPS {
        assert_eq!(op.order() == 1, op == SymmetryOp::Identity);
        assert!([1, 2, 3, 4, 6].contains(&op.order()));
    }
}

#[test]
fn determinant_marks_improper_operations() {
    for op in ALL_OPS {
        assert_eq!(op.determinant() == -1, op.is_improper());
        assert_eq!(op.determinant() == 1, !op.is_improper());
        if op.is_rotation() {
            assert!(!op.is_improper());
        }
    }
    assert!(!SymmetryOp::Identity.is_rotation());
    assert!(!SymmetryOp::Identity.is_improper());
    assert_eq!(SymmetryOp::Inversion.determinant(), -1);
}
