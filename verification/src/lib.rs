//! Exponential backoff with jitter.
//!
//! Given a configuration (attempt budget, minimum and maximum wait, growth
//! factor, jitter), a [`Backoff`] hands out generators that compute how long a
//! caller should wait before each retry of a failing operation. The generator
//! yields `Some(Some(duration))` while waits remain, `Some(None)` as the final
//! "stop retrying" signal, and `None` once it is exhausted. Performing the
//! retried operation and sleeping are the caller's responsibility.

pub mod backoff;
pub mod duration;
pub mod into_iter;
mod rng;

pub use backoff::Backoff;
pub use backoff::BackoffView;
pub use duration::Duration;
pub use duration::MAX_NANOS;
pub use into_iter::IntoIter;
