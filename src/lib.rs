//! Fixed-size vectors, quaternions and translation-rotation-scale transforms,
//! generic over the scalar type so that single- and double-precision variants
//! share one verified implementation.

pub mod algebra;
pub mod quat;
pub mod trs;
pub mod vector;
