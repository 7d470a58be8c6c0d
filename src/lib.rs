pub mod curve;
pub mod errors;
pub mod laws;
pub mod state;
pub mod swap;
