pub mod point;
pub mod size;
