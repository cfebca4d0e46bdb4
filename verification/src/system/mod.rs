pub mod check;
pub mod domain;
pub mod path;
pub mod check_config;
pub mod check_system_config;
pub mod network;
pub mod configurate;
pub mod fsm;
pub mod laws;
pub mod configurate_system;
