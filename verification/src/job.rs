//! The unit of work that `Cache::load_async` hands out for a worker thread.

use vstd::prelude::*;
use std::sync::Arc;
use std::sync::mpsc::Sender;
use bus::Bus;
use crate::channel::{bus_try_broadcast, mpsc_send};
use crate::provider::ResourceProvider;

verus! {

/// One load that is to run away from the caller's thread: a provider, the key
/// to load, and the sending ends of the two channels that carry the outcome
/// back.
///
/// The cache never runs a job itself. Whoever receives one runs it once, on
/// whatever thread it likes; a job that is dropped instead closes its
/// channels, and the handle that waits for it stays in progress for good.
#[verifier::reject_recursive_types(R)]
#[verifier::reject_recursive_types(L)]
pub struct Job<R, L: ResourceProvider<R>> {
    provider: L,
    key: L::Key,
    succ: Bus<Arc<R>>,
    fail: Sender<L::Error>,
}

impl<R, L: ResourceProvider<R>> Job<R, L> {
    /// The provider that the job will ask.
    pub closed spec fn provider(self) -> L {
        self.provider
    }

    /// The key that the job will load.
    pub closed spec fn key(self) -> L::Key {
        self.key
    }

    /// A job that loads `key` from `provider` and reports on the given
    /// channels.
    pub(crate) fn new(provider: L, key: L::Key, succ: Bus<Arc<R>>, fail: Sender<L::Error>) -> (job:
        Self)
        ensures
            job.provider() == provider,
            job.key() == key,
    {
        Job { provider, key, succ, fail }
    }

    /// Asks the provider for the resource, once, and sends what comes back:
    /// the resource to every reader of the bus, or the error down the error
    /// channel. Neither send waits, and a channel that nobody reads any more
    /// is not an error.
    ///
    /// The result says whether the provider produced a resource.
    pub fn run(self) -> (produced: bool)
        ensures
            exists|outcome: Result<R, L::Error>|
                #[trigger] self.provider().provides(self.key(), outcome) && produced
                    == outcome.is_ok(),
    {
        let Job { provider, key, succ, fail } = self;
        let mut succ = succ;
        let outcome = provider.load(key);
        let ghost seen = outcome;
        let produced = match outcome {
            Ok(resource) => {
                let _ = bus_try_broadcast(&mut succ, Arc::new(resource));
                true
            },
            Err(error) => {
                let _ = mpsc_send(&fail, error);
                false
            },
        };
        assert(self.provider().provides(self.key(), seen) && produced == seen.is_ok());
        produced
    }
}

} // verus!
