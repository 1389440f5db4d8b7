//! An exact linear-algebra kernel for affine transforms in homogeneous
//! coordinates, over integers: points and vectors, 2 by 2, 3 by 3 and 4 by 4
//! matrices with cofactor determinants and adjugate inverses, transform
//! builders and rays.
//!
//! Arithmetic is done in `i64` and proved free of overflow: the operations
//! that multiply ask their operands to lie within `model::ENTRY_LIMIT` and
//! `model::COORD_LIMIT`, or to have results that fit.
pub mod adjugate;
pub mod error;
pub mod matrix2;
pub mod matrix3;
pub mod matrix4;
pub mod model;
pub mod point;
pub mod ray;
pub mod transforms;
pub mod vector;
