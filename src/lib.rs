pub mod heightfield;
pub mod laws;
