//! Device-side package-lifecycle broker.
//!
//! The broker issues install and uninstall operations to a device package
//! manager over an asynchronous call-and-subscribe channel and reconciles the
//! two unordered completion signals for each operation — the call's return
//! value and the out-of-band status event — into a single table of in-flight
//! operations.  The table, the race-tolerant insert/remove protocol, the
//! per-operation timeout recovery and the request-coalescing lookups are
//! verified; the transport that carries the calls and events is not part of
//! this crate.

pub mod codec;
pub mod device_apps;
pub mod discovery;
pub mod engine;
pub mod extn;
pub mod metrics;
pub mod processor;
pub mod requests;
pub mod status;
pub mod telemetry;
pub mod text;
