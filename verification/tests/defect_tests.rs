use crystal_lattice::DefectType;

#[test]
fn test_vacancy_is_point() {
    let d = DefectType::Vacancy;
    assert!(d.is_point_defect());
    assert!(!d.is_line_defect());
}

#[test]
fn test_interstitial_is_point() {
    assert!(DefectType::Interstitial.is_point_defect());
}

#[test]
fn test_edge_dislocation_is_line() {
    assert!(DefectType::EdgeDislocation.is_line_defect());
}

#[test]
fn test_screw_dislocation_is_line() {
    assert!(DefectType::ScrewDislocation.is_line_defect());
}

#[test]
fn test_grain_boundary_is_plane() {
    assert!(DefectType::GrainBoundary.is_plane_defect());
}

#[test]
fn test_stacking_fault_is_plane() {
    assert!(DefectType::StackingFault.is_plane_defect());
}

#[test]
fn test_category() {
    assert_eq!(DefectType::Vacancy.category(), "point");
    assert_eq!(DefectType::EdgeDislocation.category(), "line");
    assert_eq!(DefectType::TwinBoundary.category(), "plane");
}

#[test]
fn test_frenkel() {
    assert!(DefectType::Frenkel.is_point_defect());
}

#[test]
fn test_schottky() {
    assert!(DefectType::Schottky.is_point_defect());
}

#[test]
fn test_twin_boundary() {
    assert!(DefectType::TwinBoundary.is_plane_defect());
}

#[test]
fn every_defect_has_exactly_one_dimension() {
    let all = [
        DefectType::Vacancy,
        DefectType::Interstitial,
        DefectType::Substitutional,
        DefectType::Frenkel,
        DefectType::Schottky,
        DefectType::EdgeDislocation,
        DefectType::ScrewDislocation,
        DefectType::MixedDislocation,
        DefectType::GrainBoundary,
        DefectType::StackingFault,
        DefectType::TwinBoundary,
    ];
    for d in all {
        let n = [d.is_point_defect(), d.is_line_defect(), d.is_plane_defect()]
            .iter()
            .filter(|b| **b)
            .count();
        assert_eq!(n, 1);
        let expected = if d.is_point_defect() {
            "point"
        } else if d.is_line_defect() {
            "line"
        } else {
            "plane"
        };
        assert_eq!(d.category(), expected);
    }
    assert_eq!(DefectType::MixedDislocation.category(), "line");
    assert_eq!(DefectType::Substitutional.category(), "point");
}
