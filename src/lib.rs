//! Vector, quaternion and rotation-matrix algebra over any scalar type that
//! supplies the arithmetic operators.
//!
//! Every operation is written once, generically, against `std::ops`. Its
//! contract states the result through the operators' specification functions
//! (`add_spec`, `mul_spec`, ...), and holds whenever the scalar type declares
//! that its operators follow them. Operations that chain several operators ask
//! that the operators be defined on every value, as they are for floating point.
//!
//! Trigonometric functions, square roots and floors are not operators: the
//! operations that need them take them as closures, and their contracts state
//! the result in terms of what those closures return.
pub mod scalar;
pub mod vector;
pub mod quaternion;
pub mod matrix;
pub mod affine;
pub mod euler;
