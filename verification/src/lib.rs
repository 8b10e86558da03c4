//! Lifecycle management for device-resident memory buffers used in
//! asynchronous transfers and kernel execution.
//!
//! The heart of the crate is the buffer phase protocol in [`buffer`]: a
//! buffer is always in exactly one phase (`Queued`, `InFlight`, `Ready`),
//! submitting work against it yields a single-use completion guard, and the
//! buffer only becomes observable again once that guard has been resolved.
//! [`memtracer`] records transfer and abort events into an explicitly owned
//! recorder, and [`metrics`] aggregates per-call latency samples.

pub mod buffer;
pub mod memtracer;
pub mod metrics;
