pub mod auth;
pub mod error;
pub mod identity;
pub mod instructions;
pub mod laws;
pub mod state;
