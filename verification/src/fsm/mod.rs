pub mod domain;
pub mod laws;
pub mod logic;
pub mod runtime;
pub mod runtime_laws;
