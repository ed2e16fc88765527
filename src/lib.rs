//! Host-side orchestration for short-lived scripts run on an embedded
//! scripting engine: the op registry and dispatch protocol, the bookkeeping of
//! asynchronous operations and unhandled rejections, zero-copy buffer leases,
//! snapshots and the validation of an isolate's exports.

pub mod console;
pub mod fetch;
pub mod golem_isolate;
pub mod isolate_core;
pub mod promise;
pub mod registry;
pub mod rejections;
pub mod text;
pub mod zero_copy;
