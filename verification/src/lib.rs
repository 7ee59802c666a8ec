//! Verified core of the KiCad MCP Gateway companion: typed identifiers,
//! capabilities and profiles, the explicit authorization model (grants and
//! leases), layered configuration, device identity helpers, and the
//! decision logic of the local daemon.

pub mod capability;
pub mod text;
pub mod crockford;
pub mod ids;
pub mod risk;
pub mod time_model;
pub mod workspace_set;
pub mod authorization;
pub mod session;
pub mod config;
pub mod error;
pub mod device;
pub mod identity;
pub mod approval;
pub mod audit;
pub mod clock;
pub mod operation;
pub mod transport_state;
pub mod bridge;
pub mod checkpoints;
pub mod pending;
pub mod daemon;
pub mod status;
pub mod lifecycle;
pub mod memory_store;
pub mod tool_catalog;
