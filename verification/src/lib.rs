//! Decision logic of a concurrent HTTP load generator: per-target attempt
//! loops, a shared throughput tracker, and the dispatcher that ties them
//! together. All I/O is left to the caller, which performs the actions this
//! crate hands out and feeds the outcomes back in.

pub mod clock;
pub mod config;
pub mod dispatcher;
pub mod text;
pub mod throughput;
pub mod transport;
pub mod url;
pub mod worker;
