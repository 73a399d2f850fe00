pub mod laws;
pub mod registry;
pub mod signal;
pub mod state;
