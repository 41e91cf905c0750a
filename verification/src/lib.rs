//! Crystallographic data structures: Bravais lattice types, Miller indices,
//! crystal defect classification and space-group symmetry operations.
//!
//! Everything here works on exact integer and symbolic data; geometry that
//! needs real numbers (unit cells, plane spacings, rotations by 60 and 120
//! degrees) is layered on top of this crate by its callers.

pub mod bravais;
pub mod defect;
pub mod miller;
pub mod symmetry;

pub use bravais::BravaisType;
pub use defect::DefectType;
pub use miller::Miller;
pub use symmetry::SymmetryOp;
