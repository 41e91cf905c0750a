use vstd::prelude::*;

verus! {

/// The 14 Bravais lattice types.
#[derive(Debug, Clone, Copy, PartialEq, Eq, Structural)]
pub enum BravaisType {
    CubicP,
    CubicI,
    CubicF,
    TetragonalP,
    TetragonalI,
    OrthorhombicP,
    OrthorhombicC,
    OrthorhombicI,
    OrthorhombicF,
    HexagonalP,
    TrigonalR,
    MonoclinicP,
    MonoclinicC,
    TriclinicP,
}

/// The 14 lattice types, in their conventional order.
pub open spec fn all_bravais_types() -> Seq<BravaisType> {
    seq![
        BravaisType::CubicP,
        BravaisType::CubicI,
        BravaisType::CubicF,
        BravaisType::TetragonalP,
        BravaisType::TetragonalI,
        BravaisType::OrthorhombicP,
        BravaisType::OrthorhombicC,
        BravaisType::OrthorhombicI,
        BravaisType::OrthorhombicF,
        BravaisType::HexagonalP,
        BravaisType::TrigonalR,
        BravaisType::MonoclinicP,
        BravaisType::MonoclinicC,
        BravaisType::TriclinicP,
    ]
}

/// Name of the crystal system a lattice type belongs to.
pub open spec fn crystal_system_name(b: BravaisType) -> Seq<char> {
    match b {
        BravaisType::CubicP | BravaisType::CubicI | BravaisType::CubicF => "cubic"@,
        BravaisType::TetragonalP | BravaisType::TetragonalI => "tetragonal"@,
        BravaisType::OrthorhombicP
        | BravaisType::OrthorhombicC
        | BravaisType::OrthorhombicI
        | BravaisType::OrthorhombicF => "orthorhombic"@,
        BravaisType::HexagonalP => "hexagonal"@,
        BravaisType::TrigonalR => "trigonal"@,
        BravaisType::MonoclinicP | BravaisType::MonoclinicC => "monoclinic"@,
        BravaisType::TriclinicP => "triclinic"@,
    }
}

/// Centering symbol of a lattice type: primitive, body-centred,
/// face-centred or base-centred.
pub open spec fn centering_name(b: BravaisType) -> Seq<char> {
    match b {
        BravaisType::CubicP
        | BravaisType::TetragonalP
        | BravaisType::OrthorhombicP
        | BravaisType::HexagonalP
        | BravaisType::TrigonalR
        | BravaisType::MonoclinicP
        | BravaisType::TriclinicP => "P"@,
        BravaisType::CubicI | BravaisType::TetragonalI | BravaisType::OrthorhombicI => "I"@,
        BravaisType::CubicF | BravaisType::OrthorhombicF => "F"@,
        BravaisType::OrthorhombicC | BravaisType::MonoclinicC => "C"@,
    }
}

/// Lattice points per conventional cell for a centering symbol
/// (an unknown symbol counts as primitive).
pub open spec fn lattice_points_for(centering: Seq<char>) -> u32 {
    if centering == "P"@ {
        1
    } else if centering == "I"@ {
        2
    } else if centering == "F"@ {
        4
    } else if centering == "C"@ {
        2
    } else {
        1
    }
}

impl BravaisType {
    /// All 14 lattice types, each exactly once.
    pub fn all() -> (v: Vec<BravaisType>)
        ensures
            v@ == all_bravais_types(),
            v@.len() == 14,
            v@.no_duplicates(),
            forall|b: BravaisType| v@.contains(b),
    {
        let v = vec![
            BravaisType::CubicP,
            BravaisType::CubicI,
            BravaisType::CubicF,
            BravaisType::TetragonalP,
            BravaisType::TetragonalI,
            BravaisType::OrthorhombicP,
            BravaisType::OrthorhombicC,
            BravaisType::OrthorhombicI,
            BravaisType::OrthorhombicF,
            BravaisType::HexagonalP,
            BravaisType::TrigonalR,
            BravaisType::MonoclinicP,
            BravaisType::MonoclinicC,
            BravaisType::TriclinicP,
        ];
        proof {
            lemma_all_bravais_types_complete();
        }
        v
    }

    /// The crystal system (cubic, tetragonal, ...) of this lattice type.
    pub fn crystal_system(&self) -> (s: &'static str)
        ensures
            s@ == crystal_system_name(*self),
    {
        match self {
            BravaisType::CubicP | BravaisType::CubicI | BravaisType::CubicF => "cubic",
            BravaisType::TetragonalP | BravaisType::TetragonalI => "tetragonal",
            BravaisType::OrthorhombicP
            | BravaisType::OrthorhombicC
            | BravaisType::OrthorhombicI
            | BravaisType::OrthorhombicF => "orthorhombic",
            BravaisType::HexagonalP => "hexagonal",
            BravaisType::TrigonalR => "trigonal",
            BravaisType::MonoclinicP | BravaisType::MonoclinicC => "monoclinic",
            BravaisType::TriclinicP => "triclinic",
        }
    }

    /// The centering symbol: "P", "I", "F" or "C".
    pub fn centering(&self) -> (s: &'static str)
        ensures
            s@ == centering_name(*self),
    {
        match self {
            BravaisType::CubicP
            | BravaisType::TetragonalP
            | BravaisType::OrthorhombicP
            | BravaisType::HexagonalP
            | BravaisType::TrigonalR
            | BravaisType::MonoclinicP
            | BravaisType::TriclinicP => "P",
            BravaisType::CubicI | BravaisType::TetragonalI | BravaisType::OrthorhombicI => "I",
            BravaisType::CubicF | BravaisType::OrthorhombicF => "F",
            BravaisType::OrthorhombicC | BravaisType::MonoclinicC => "C",
        }
    }

    /// Number of lattice points in the conventional cell, read off the
    /// centering symbol.
    pub fn atoms_per_cell(&self) -> (n: u32)
        ensures
            n == lattice_points_for(centering_name(*self)),
    {
        let c = self.centering();
        proof {
            reveal_strlit("P");
            reveal_strlit("I");
            reveal_strlit("F");
            reveal_strlit("C");
        }
        let first = c.get_char(0);
        if first == 'P' {
            1
        } else if first == 'I' {
            2
        } else if first == 'F' {
            4
        } else if first == 'C' {
            2
        } else {
            1
        }
    }

    /// Same as `atoms_per_cell`.
    pub fn multiplicity(&self) -> (n: u32)
        ensures
            n == lattice_points_for(centering_name(*self)),
    {
        self.atoms_per_cell()
    }

    /// Whether this value is one of the lattice types listed by `all`.
    pub fn is_bravais_valid(&self) -> (r: bool)
        ensures
            r == all_bravais_types().contains(*self),
            r,
    {
        let all = Self::all();
        let mut i: usize = 0;
        while i < all.len()
            invariant
                all@ == all_bravais_types(),
                i <= all@.len(),
                forall|j: int| 0 <= j < i ==> all@[j] != *self,
            decreases all@.len() - i,
        {
            if all[i] == *self {
                return true;
            }
            i = i + 1;
        }
        proof {
            lemma_all_bravais_types_complete();
            let j = choose|j: int| 0 <= j < all@.len() && all@[j] == *self;
            assert(all@[j] != *self);
        }
        false
    }
}

/// Primitive lattices have one lattice point per conventional cell, body- and
/// base-centred lattices two, face-centred lattices four.
pub proof fn lemma_lattice_points_by_centering(b: BravaisType)
    ensures
        centering_name(b) == "P"@ ==> lattice_points_for(centering_name(b)) == 1,
        centering_name(b) == "I"@ ==> lattice_points_for(centering_name(b)) == 2,
        centering_name(b) == "F"@ ==> lattice_points_for(centering_name(b)) == 4,
        centering_name(b) == "C"@ ==> lattice_points_for(centering_name(b)) == 2,
        centering_name(b) == "P"@ || centering_name(b) == "I"@ || centering_name(b) == "F"@
            || centering_name(b) == "C"@,
{
    reveal_strlit("P");
    reveal_strlit("I");
    reveal_strlit("F");
    reveal_strlit("C");
    assert("P"@[0] != "I"@[0] && "P"@[0] != "F"@[0] && "P"@[0] != "C"@[0]);
    assert("I"@[0] != "F"@[0] && "I"@[0] != "C"@[0] && "F"@[0] != "C"@[0]);
}

/// The centering symbol of each lattice type is the letter that ends its
/// name: the I types are body-centred, the F types face-centred, the C types
/// base-centred, and the rest (including rhombohedral R) primitive.
pub proof fn lemma_centering_table()
    ensures
        centering_name(BravaisType::CubicP) == "P"@,
        centering_name(BravaisType::CubicI) == "I"@,
        centering_name(BravaisType::CubicF) == "F"@,
        centering_name(BravaisType::TetragonalP) == "P"@,
        centering_name(BravaisType::TetragonalI) == "I"@,
        centering_name(BravaisType::OrthorhombicP) == "P"@,
        centering_name(BravaisType::OrthorhombicC) == "C"@,
        centering_name(BravaisType::OrthorhombicI) == "I"@,
        centering_name(BravaisType::OrthorhombicF) == "F"@,
        centering_name(BravaisType::HexagonalP) == "P"@,
        centering_name(BravaisType::TrigonalR) == "P"@,
        centering_name(BravaisType::MonoclinicP) == "P"@,
        centering_name(BravaisType::MonoclinicC) == "C"@,
        centering_name(BravaisType::TriclinicP) == "P"@,
{
}

/// Each lattice type belongs to the crystal system that begins its name;
/// types that differ only in centering share their system.
pub proof fn lemma_crystal_system_table()
    ensures
        crystal_system_name(BravaisType::CubicP) == "cubic"@,
        crystal_system_name(BravaisType::CubicI) == "cubic"@,
        crystal_system_name(BravaisType::CubicF) == "cubic"@,
        crystal_system_name(BravaisType::TetragonalP) == "tetragonal"@,
        crystal_system_name(BravaisType::TetragonalI) == "tetragonal"@,
        crystal_system_name(BravaisType::OrthorhombicP) == "orthorhombic"@,
        crystal_system_name(BravaisType::OrthorhombicC) == "orthorhombic"@,
        crystal_system_name(BravaisType::OrthorhombicI) == "orthorhombic"@,
        crystal_system_name(BravaisType::OrthorhombicF) == "orthorhombic"@,
        crystal_system_name(BravaisType::HexagonalP) == "hexagonal"@,
        crystal_system_name(BravaisType::TrigonalR) == "trigonal"@,
        crystal_system_name(BravaisType::MonoclinicP) == "monoclinic"@,
        crystal_system_name(BravaisType::MonoclinicC) == "monoclinic"@,
        crystal_system_name(BravaisType::TriclinicP) == "triclinic"@,
{
}

/// The crystal system and the centering together identify the lattice
/// type: no two distinct types share both.
pub proof fn lemma_system_and_centering_identify_type(a: BravaisType, b: BravaisType)
    requires
        crystal_system_name(a) == crystal_system_name(b),
        centering_name(a) == centering_name(b),
    ensures
        a == b,
{
    reveal_strlit("P");
    reveal_strlit("I");
    reveal_strlit("F");
    reveal_strlit("C");
    reveal_strlit("cubic");
    reveal_strlit("tetragonal");
    reveal_strlit("orthorhombic");
    reveal_strlit("hexagonal");
    reveal_strlit("trigonal");
    reveal_strlit("monoclinic");
    reveal_strlit("triclinic");
    let key = |t: BravaisType|
        (crystal_system_name(t).len(), crystal_system_name(t)[0], centering_name(t)[0]);
    assert(key(a) == key(b));
    assert(key(BravaisType::CubicP) == (5nat, 'c', 'P'));
    assert(key(BravaisType::CubicI) == (5nat, 'c', 'I'));
    assert(key(BravaisType::CubicF) == (5nat, 'c', 'F'));
    assert(key(BravaisType::TetragonalP) == (10nat, 't', 'P'));
    assert(key(BravaisType::TetragonalI) == (10nat, 't', 'I'));
    assert(key(BravaisType::OrthorhombicP) == (12nat, 'o', 'P'));
    assert(key(BravaisType::OrthorhombicC) == (12nat, 'o', 'C'));
    assert(key(BravaisType::OrthorhombicI) == (12nat, 'o', 'I'));
    assert(key(BravaisType::OrthorhombicF) == (12nat, 'o', 'F'));
    assert(key(BravaisType::HexagonalP) == (9nat, 'h', 'P'));
    assert(key(BravaisType::TrigonalR) == (8nat, 't', 'P'));
    assert(key(BravaisType::MonoclinicP) == (10nat, 'm', 'P'));
    assert(key(BravaisType::MonoclinicC) == (10nat, 'm', 'C'));
    assert(key(BravaisType::TriclinicP) == (9nat, 't', 'P'));
}

/// The list of lattice types has 14 distinct entries and names every type.
pub proof fn lemma_all_bravais_types_complete()
    ensures
        all_bravais_types().len() == 14,
        all_bravais_types().no_duplicates(),
        forall|b: BravaisType| all_bravais_types().contains(b),
{
    let s = all_bravais_types();
    assert forall|b: BravaisType| s.contains(b) by {
        match b {
            BravaisType::CubicP => assert(s[0] == b),
            BravaisType::CubicI => assert(s[1] == b),
            BravaisType::CubicF => assert(s[2] == b),
            BravaisType::TetragonalP => assert(s[3] == b),
            BravaisType::TetragonalI => assert(s[4] == b),
            BravaisType::OrthorhombicP => assert(s[5] == b),
            BravaisType::OrthorhombicC => assert(s[6] == b),
            BravaisType::OrthorhombicI => assert(s[7] == b),
            BravaisType::OrthorhombicF => assert(s[8] == b),
            BravaisType::HexagonalP => assert(s[9] == b),
            BravaisType::TrigonalR => assert(s[10] == b),
            BravaisType::MonoclinicP => assert(s[11] == b),
            BravaisType::MonoclinicC => assert(s[12] == b),
            BravaisType::TriclinicP => assert(s[13] == b),
        }
    }
}

} // verus!
