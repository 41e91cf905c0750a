use crystal_lattice::BravaisType;

#[test]
fn test_all_14() {
    assert_eq!(BravaisType::all().len(), 14);
}

#[test]
fn test_cubic_systems() {
    assert_eq!(BravaisType::CubicP.crystal_system(), "cubic");
    assert_eq!(BravaisType::CubicI.crystal_system(), "cubic");
    assert_eq!(BravaisType::CubicF.crystal_system(), "cubic");
}

#[test]
fn test_centering() {
    assert_eq!(BravaisType::CubicP.centering(), "P");
    assert_eq!(BravaisType::CubicI.centering(), "I");
    assert_eq!(BravaisType::CubicF.centering(), "F");
}

#[test]
fn test_atoms_per_cell() {
    assert_eq!(BravaisType::CubicP.atoms_per_cell(), 1);
    assert_eq!(BravaisType::CubicI.atoms_per_cell(), 2);
    assert_eq!(BravaisType::CubicF.atoms_per_cell(), 4);
}

#[test]
fn test_triclinic() {
    assert_eq!(BravaisType::TriclinicP.crystal_system(), "triclinic");
    assert_eq!(BravaisType::TriclinicP.centering(), "P");
}

#[test]
fn test_monoclinic() {
    assert_eq!(BravaisType::MonoclinicP.crystal_system(), "monoclinic");
    assert_eq!(BravaisType::MonoclinicC.centering(), "C");
}

#[test]
fn test_hexagonal() {
    assert_eq!(BravaisType::HexagonalP.crystal_system(), "hexagonal");
}

#[test]
fn test_trigonal() {
    assert_eq!(BravaisType::TrigonalR.crystal_system(), "trigonal");
}

#[test]
fn test_validity() {
    assert!(BravaisType::CubicP.is_bravais_valid());
}

#[test]
fn test_orthorhombic_variants() {
    assert_eq!(BravaisType::OrthorhombicP.crystal_system(), "orthorhombic");
    assert_eq!(BravaisType::OrthorhombicI.crystal_system(), "orthorhombic");
    assert_eq!(BravaisType::OrthorhombicF.crystal_system(), "orthorhombic");
    assert_eq!(BravaisType::OrthorhombicC.crystal_system(), "orthorhombic");
}

#[test]
fn all_lists_each_type_once() {
    let all = BravaisType::all();
    for (i, a) in all.iter().enumerate() {
        for (j, b) in all.iter().enumerate() {
            assert_eq!(i == j, a == b);
        }
    }
    assert_eq!(all[0], BravaisType::CubicP);
    assert_eq!(all[13], BravaisType::TriclinicP);
}

#[test]
fn every_type_is_valid() {
    for b in BravaisType::all() {
        assert!(b.is_bravais_valid());
    }
}

#[test]
fn lattice_points_follow_centering() {
    for b in BravaisType::all() {
        let expected = match b.centering() {
            "P" => 1,
            "I" => 2,
            "F" => 4,
            "C" => 2,
            _ => panic!("unknown centering"),
        };
        assert_eq!(b.atoms_per_cell(), expected);
        assert_eq!(b.multiplicity(), b.atoms_per_cell());
    }
}

#[test]
fn remaining_systems_and_centerings() {
    assert_eq!(BravaisType::TetragonalP.crystal_system(), "tetragonal");
    assert_eq!(BravaisType::TetragonalI.crystal_system(), "tetragonal");
    assert_eq!(BravaisType::TrigonalR.centering(), "P");
    assert_eq!(BravaisType::OrthorhombicC.atoms_per_cell(), 2);
    assert_eq!(BravaisType::OrthorhombicF.multiplicity(), 4);
    assert_eq!(BravaisType::HexagonalP.atoms_per_cell(), 1);
}
