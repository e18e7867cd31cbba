//! Retry-interval plans for reconnecting after a connection failure.
//!
//! A [`RetryStrategy`] holds a growth factor, an exponential base and a number
//! of attempts; it yields one unjittered delay per attempt, in milliseconds,
//! growing as `factor * base^i` and saturating at `u64::MAX`. The delays come
//! from `tokio_retry2`'s `ExponentialBackoff`, driven here by verified code.

pub mod backoff;
pub mod laws;
pub mod strategy;

pub use strategy::{
    get_exponential_backoff, get_fixed_interval_backoff, ConnectionRetryStrategy, RetryStrategy,
    EXPONENT_BASE, FACTOR, NUMBER_OF_RETRIES,
};
