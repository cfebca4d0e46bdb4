pub mod domain;
pub mod domain_for_table;
pub mod msg_type;
pub mod logic;
pub mod upload;
