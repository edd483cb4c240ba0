pub mod matrix4x4;
pub mod scalar;
pub mod transform;
pub mod vector3;
