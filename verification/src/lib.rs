//! A keyed memoization cache: a resource is produced at most once per key and
//! shared from then on, either on the calling thread or by a background job
//! whose result is polled for and later folded into the cache.

pub mod cache;
pub mod channel;
pub mod future;
pub mod identity;
pub mod job;
pub mod laws;
pub mod provider;

pub use identity::{CacheId, CacheIdView, Key};
pub use provider::ResourceProvider;
pub use future::{Async, ResourceFuture, Signal};
pub use channel::Received;
pub use cache::{Cache, CacheView};
pub use job::Job;
