//! A fixed-size pool of workers: how work is split between them, the views they
//! get of a shared collection, their per-worker context, the run-state signal
//! that steers them and the configuration that sets a pool up.
pub mod partition;
pub mod split;
pub mod signal;
pub mod shared;
pub mod threadutilities;
pub mod disjointer;
pub mod traits;
pub mod thread_count;
pub mod threadlake;
pub mod builder;
