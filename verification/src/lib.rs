//! Broker connectivity and message sampling for a Kafka cluster manager.

pub mod admin;
pub mod cluster;
pub mod config;
pub mod error;
pub mod ident;
pub mod registry;
pub mod retention;
pub mod sampling;
pub mod text;
pub mod topic;
pub mod usecase;
pub mod vault;
pub mod window;
