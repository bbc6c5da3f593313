//! The concurrent incremental build pipeline: content-addressed source
//! identity, build tasks and events, and the worker-pool scheduler.

pub mod driver;
pub mod incrimental;
pub mod source;
