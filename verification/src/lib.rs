//! Synchronization and persistence core of an IoT edge-device agent.
//!
//! The agent samples telemetry into a durable FIFO queue, uploads it in
//! transactional batches, keeps its configuration reconciled with a
//! backend-held device shadow, and applies over-the-air firmware updates
//! with alternating slots. This crate holds the decision and state logic of
//! those activities, verified; transport, durable files and the process
//! loop live outside it.
pub mod agent;
pub mod config;
pub mod doc;
pub mod host;
pub mod ota;
pub mod queue;
pub mod sampler;
pub mod sched;
pub mod shadow;
pub mod types;
