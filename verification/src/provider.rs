//! The capability that produces resources.

use vstd::prelude::*;
use crate::identity::Key;

verus! {

/// Something that provides a resource of type `R` from a key.
pub trait ResourceProvider<R> {
    /// The key this provider uses to load or create the resource.
    type Key: Key + Send + Sync;

    /// How the provider says that loading failed.
    type Error: Send + Sync + 'static;

    /// Whether loading `k` may end in `outcome`.
    ///
    /// A provider that says nothing of itself keeps the default, under which
    /// every outcome is possible. One that narrows it binds its own `load`,
    /// and through it what `Cache::load` answers where it has to ask.
    open spec fn provides(&self, k: Self::Key, outcome: Result<R, Self::Error>) -> bool {
        true
    }

    /// Loads or creates the resource for `k`.
    fn load(&self, k: Self::Key) -> (outcome: Result<R, Self::Error>)
        ensures
            self.provides(k, outcome),
    ;
}

} // verus!
