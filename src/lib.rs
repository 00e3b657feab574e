//! Execution plane of a multi-tenant code sandbox: admission (validation,
//! rate limiting, static analysis), session bookkeeping, construction of the
//! container runtime's commands, interpretation of what executions produce,
//! and the records kept about them.

// shared values and text
pub mod models;
pub mod text;

// admission
pub mod admission;
pub mod analysis;
pub mod ratelimit;

// sessions and execution
pub mod executor;
pub mod manager;
pub mod network;
pub mod persistent;
pub mod session;
pub mod usage;
pub mod workspace;

// records
pub mod audit;
pub mod jobs;
pub mod metrics;
pub mod replay;
pub mod stats;
pub mod users;

// configuration and optional services
pub mod alerts;
pub mod api;
pub mod config;
pub mod distributed;
pub mod gvisor;
pub mod jaeger;
pub mod logging;
pub mod mcp;
pub mod opa;
pub mod packages;
pub mod proxy;
pub mod signing;
pub mod vault;
