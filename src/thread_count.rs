//! The worker-count policy, under the name of its own module.
pub use crate::traits::ThreadCount;
