pub mod domain;
pub mod rollout;
