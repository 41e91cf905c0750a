use vstd::prelude::*;

verus! {

/// Crystal defects: point, line, and plane types.
#[derive(Debug, Clone, Copy, PartialEq, Eq, Structural)]
pub enum DefectType {
    Vacancy,
    Interstitial,
    Substitutional,
    Frenkel,
    Schottky,
    EdgeDislocation,
    ScrewDislocation,
    MixedDislocation,
    GrainBoundary,
    StackingFault,
    TwinBoundary,
}

impl DefectType {
    /// Zero-dimensional defects: missing, extra, swapped or paired atoms.
    pub open spec fn spec_is_point(self) -> bool {
        match self {
            DefectType::Vacancy
            | DefectType::Interstitial
            | DefectType::Substitutional
            | DefectType::Frenkel
            | DefectType::Schottky => true,
            _ => false,
        }
    }

    /// One-dimensional defects: dislocations.
    pub open spec fn spec_is_line(self) -> bool {
        match self {
            DefectType::EdgeDislocation
            | DefectType::ScrewDislocation
            | DefectType::MixedDislocation => true,
            _ => false,
        }
    }

    /// Two-dimensional defects: boundaries and faults.
    pub open spec fn spec_is_plane(self) -> bool {
        match self {
            DefectType::GrainBoundary | DefectType::StackingFault | DefectType::TwinBoundary => true,
            _ => false,
        }
    }

    /// The category name: "point" and "line" for those kinds, "plane" otherwise.
    pub open spec fn spec_category(self) -> Seq<char> {
        if self.spec_is_point() {
            "point"@
        } else if self.spec_is_line() {
            "line"@
        } else {
            "plane"@
        }
    }

    pub fn is_point_defect(&self) -> (r: bool)
        ensures
            r == self.spec_is_point(),
    {
        match self {
            DefectType::Vacancy
            | DefectType::Interstitial
            | DefectType::Substitutional
            | DefectType::Frenkel
            | DefectType::Schottky => true,
            _ => false,
        }
    }

    pub fn is_line_defect(&self) -> (r: bool)
        ensures
            r == self.spec_is_line(),
    {
        match self {
            DefectType::EdgeDislocation
            | DefectType::ScrewDislocation
            | DefectType::MixedDislocation => true,
            _ => false,
        }
    }

    pub fn is_plane_defect(&self) -> (r: bool)
        ensures
            r == self.spec_is_plane(),
    {
        match self {
            DefectType::GrainBoundary | DefectType::StackingFault | DefectType::TwinBoundary => true,
            _ => false,
        }
    }

    /// "point", "line" or "plane".
    pub fn category(&self) -> (s: &'static str)
        ensures
            s@ == self.spec_category(),
    {
        if self.is_point_defect() {
            "point"
        } else if self.is_line_defect() {
            "line"
        } else {
            "plane"
        }
    }
}

/// Every defect type is exactly one of point, line and plane, and its
/// category names that dimension.
pub proof fn lemma_defect_kinds_partition(d: DefectType)
    ensures
        d.spec_is_point() || d.spec_is_line() || d.spec_is_plane(),
        !(d.spec_is_point() && d.spec_is_line()),
        !(d.spec_is_point() && d.spec_is_plane()),
        !(d.spec_is_line() && d.spec_is_plane()),
        d.spec_is_point() ==> d.spec_category() == "point"@,
        d.spec_is_line() ==> d.spec_category() == "line"@,
        d.spec_is_plane() ==> d.spec_category() == "plane"@,
{
}

} // verus!
