pub mod color;
pub mod sprite;
pub mod vertex;
