use vstd::prelude::*;

verus! {

/// Space group symmetry operations.
#[derive(Debug, Clone, Copy, PartialEq, Eq, Structural)]
pub enum SymmetryOp {
    Identity,
    Inversion,
    Rotation2,
    Rotation3,
    Rotation4,
    Rotation6,
    Mirror,
    Rotoinversion2,
    Rotoinversion3,
    Rotoinversion4,
    Rotoinversion6,
}

impl SymmetryOp {
    /// The number of times the operation must be applied to return to the
    /// identity.
    pub open spec fn spec_order(self) -> u32 {
        match self {
            SymmetryOp::Identity => 1,
            SymmetryOp::Inversion => 2,
            SymmetryOp::Rotation2 | SymmetryOp::Mirror => 2,
            SymmetryOp::Rotation3 => 3,
            SymmetryOp::Rotation4 => 4,
            SymmetryOp::Rotation6 => 6,
            SymmetryOp::Rotoinversion2 => 2,
            SymmetryOp::Rotoinversion3 => 6,
            SymmetryOp::Rotoinversion4 => 4,
            SymmetryOp::Rotoinversion6 => 6,
        }
    }

    /// Proper rotations by 180, 120, 90 or 60 degrees.
    pub open spec fn spec_is_rotation(self) -> bool {
        match self {
            SymmetryOp::Rotation2
            | SymmetryOp::Rotation3
            | SymmetryOp::Rotation4
            | SymmetryOp::Rotation6 => true,
            _ => false,
        }
    }

    /// Operations that reverse handedness.
    pub open spec fn spec_is_improper(self) -> bool {
        match self {
            SymmetryOp::Inversion
            | SymmetryOp::Mirror
            | SymmetryOp::Rotoinversion2
            | SymmetryOp::Rotoinversion3
            | SymmetryOp::Rotoinversion4
            | SymmetryOp::Rotoinversion6 => true,
            _ => false,
        }
    }

    /// The determinant of the operation's matrix: 1 or -1.
    pub open spec fn spec_determinant(self) -> i32 {
        match self {
            SymmetryOp::Identity
            | SymmetryOp::Rotation2
            | SymmetryOp::Rotation3
            | SymmetryOp::Rotation4
            | SymmetryOp::Rotation6 => 1,
            _ => -1i32,
        }
    }

    pub fn order(&self) -> (n: u32)
        ensures
            n == self.spec_order(),
    {
        match self {
            SymmetryOp::Identity => 1,
            SymmetryOp::Inversion => 2,
            SymmetryOp::Rotation2 | SymmetryOp::Mirror => 2,
            SymmetryOp::Rotation3 => 3,
            SymmetryOp::Rotation4 => 4,
            SymmetryOp::Rotation6 => 6,
            SymmetryOp::Rotoinversion2 => 2,
            SymmetryOp::Rotoinversion3 => 6,
            SymmetryOp::Rotoinversion4 => 4,
            SymmetryOp::Rotoinversion6 => 6,
        }
    }

    pub fn is_rotation(&self) -> (r: bool)
        ensures
            r == self.spec_is_rotation(),
    {
        match self {
            SymmetryOp::Rotation2
            | SymmetryOp::Rotation3
            | SymmetryOp::Rotation4
            | SymmetryOp::Rotation6 => true,
            _ => false,
        }
    }

    pub fn is_improper(&self) -> (r: bool)
        ensures
            r == self.spec_is_improper(),
    {
        match self {
            SymmetryOp::Inversion
            | SymmetryOp::Mirror
            | SymmetryOp::Rotoinversion2
            | SymmetryOp::Rotoinversion3
            | SymmetryOp::Rotoinversion4
            | SymmetryOp::Rotoinversion6 => true,
            _ => false,
        }
    }

    /// The determinant of the operation's matrix, 1 for proper and -1 for
    /// improper operations (an exact integer here).
    pub fn determinant(&self) -> (d: i32)
        ensures
            d == self.spec_determinant(),
    {
        match self {
            SymmetryOp::Identity
            | SymmetryOp::Rotation2
            | SymmetryOp::Rotation3
            | SymmetryOp::Rotation4
            | SymmetryOp::Rotation6 => 1,
            SymmetryOp::Inversion
            | SymmetryOp::Mirror
            | SymmetryOp::Rotoinversion2
            | SymmetryOp::Rotoinversion3
            | SymmetryOp::Rotoinversion4
            | SymmetryOp::Rotoinversion6 => -1,
        }
    }
}

/// The determinant is -1 exactly for the improper operations and 1 for all
/// others; a rotation is never improper.
pub proof fn lemma_determinant_marks_improper(op: SymmetryOp)
    ensures
        op.spec_determinant() == -1 <==> op.spec_is_improper(),
        op.spec_determinant() == 1 <==> !op.spec_is_improper(),
        op.spec_is_rotation() ==> !op.spec_is_improper(),
        op.spec_is_rotation() ==> op.spec_determinant() == 1,
{
}

/// Crystallographic restriction: every order is 1, 2, 3, 4 or 6, and only
/// the identity has order 1.
pub proof fn lemma_order_crystallographic(op: SymmetryOp)
    ensures
        op.spec_order() == 1 || op.spec_order() == 2 || op.spec_order() == 3
            || op.spec_order() == 4 || op.spec_order() == 6,
        op.spec_order() == 1 <==> op == SymmetryOp::Identity,
{
}

/// The rotations are exactly the proper operations other than the identity,
/// equivalently the operations of determinant 1 and order above 1; a
/// rotation is identified by its order, and the n-fold rotation has order n.
pub proof fn lemma_rotation_classification(op: SymmetryOp, other: SymmetryOp)
    ensures
        op.spec_is_rotation() <==> (!op.spec_is_improper() && op != SymmetryOp::Identity),
        op.spec_is_rotation() <==> (op.spec_determinant() == 1 && op.spec_order() > 1),
        op.spec_is_rotation() && other.spec_is_rotation() && op.spec_order() == other.spec_order()
            ==> op == other,
        SymmetryOp::Rotation2.spec_is_rotation() && SymmetryOp::Rotation2.spec_order() == 2,
        SymmetryOp::Rotation3.spec_is_rotation() && SymmetryOp::Rotation3.spec_order() == 3,
        SymmetryOp::Rotation4.spec_is_rotation() && SymmetryOp::Rotation4.spec_order() == 4,
        SymmetryOp::Rotation6.spec_is_rotation() && SymmetryOp::Rotation6.spec_order() == 6,
{
}

} // verus!
