//! Verified core of an IoT edge gateway: the balancing state machine, the
//! in-memory network registry, message routing and the broker configuration
//! checks.

pub mod database;
pub mod firmware;
pub mod fsm;
pub mod grpc_service;
pub mod keyed;
pub mod message;
pub mod metrics;
pub mod mqtt;
pub mod network;
pub mod quorum;
pub mod routing;
pub mod system;
pub mod text;
