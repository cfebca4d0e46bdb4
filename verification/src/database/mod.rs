pub mod domain;
pub mod batch;
