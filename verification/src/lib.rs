//! Telemetry lifecycle core for a small instrumented network service.
//!
//! The pieces of the service that carry its engineering weight are modelled
//! and verified here: the signal provider factory, the process-wide telemetry
//! registry, the request instrumentation middleware, the metric counters, and
//! the bounded-time shutdown coordinator.  The unverified shell around the
//! library performs the network I/O and installs the providers this library
//! plans.

pub mod config;
pub mod handlers;
pub mod metrics;
pub mod middlewares;
pub mod registry;
pub mod shutdown;
pub mod telemetry;
pub mod text;
