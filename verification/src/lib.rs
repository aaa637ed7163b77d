//! How a Hyperspace node is put together and started.

pub mod action;
pub mod calls;
pub mod chain_ops;
pub mod component;
pub mod config;
pub mod error;
pub mod event;
pub mod full_node;
pub mod keystore;
pub mod laws;
pub mod light_node;
pub mod metrics;
pub mod rpc;
pub mod runtime;
pub mod service;
pub mod startup;
pub mod wiring;
