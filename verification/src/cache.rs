//! The cache itself: the resources it has, and the results it waits for.

use vstd::prelude::*;
use std::sync::Arc;
use bus::BusReader;
use crate::channel::{arc_clone, bus_add_rx, bus_new, bus_try_recv, mpsc_channel, Received};
use crate::future::ResourceFuture;
use crate::job::Job;
use crate::laws::law_reconciled_keeps_what_was_stored;
use crate::identity::{CacheId, CacheIdView, Key};
use crate::provider::ResourceProvider;

verus! {

/// What a cache holds, as mathematics.
pub struct CacheView<R> {
    /// The resource stored under each identity that has one.
    pub mapping: Map<CacheIdView, R>,
    /// The identities of the background results not yet folded in, oldest
    /// first. An identity stands here once for every job dispatched for it
    /// and not yet done with. It has no resource at the moment it is put
    /// here, but may get one while it waits, from `load` or from an older
    /// entry of its own.
    pub pending: Seq<CacheIdView>,
}

/// The result that a caller sees, with the sharing taken away.
pub open spec fn unshared<R, E>(res: Result<Arc<R>, E>) -> Result<R, E> {
    match res {
        Ok(shared) => Ok(*shared),
        Err(error) => Err(error),
    }
}

/// Load-or-create on a mapping: the mapping afterwards and the answer, given
/// what the provider would return for the key behind `id`.
///
/// An identity that has a resource keeps it and answers with it, whatever the
/// provider would say. One that has none takes the provider's resource, or
/// stays without one and answers with the provider's error.
pub open spec fn loaded<R, E>(mapping: Map<CacheIdView, R>, id: CacheIdView, provided: Result<
    R,
    E,
>) -> (Map<CacheIdView, R>, Result<R, E>) {
    if mapping.contains_key(id) {
        (mapping, Ok(mapping[id]))
    } else {
        match provided {
            Ok(resource) => (mapping.insert(id, resource), Ok(resource)),
            Err(error) => (mapping, Err(error)),
        }
    }
}

/// One step of reconciliation: the cache after the pending entry for `id` has
/// been asked once and `found` came back.
///
/// A received resource is stored unless the identity has one already, and
/// the entry is done with. An entry whose channel is empty goes to the end of
/// the pending list. An entry whose channel is closed is dropped.
pub open spec fn absorbed<R>(state: CacheView<R>, id: CacheIdView, found: Received<Arc<R>>)
    -> CacheView<R> {
    match found {
        Received::Item(shared) => CacheView {
            mapping: if state.mapping.contains_key(id) {
                state.mapping
            } else {
                state.mapping.insert(id, *shared)
            },
            pending: state.pending,
        },
        Received::Empty => CacheView { mapping: state.mapping, pending: state.pending.push(id) },
        Received::Closed => state,
    }
}

/// A whole reconciliation: the cache that starts with `mapping` and nothing
/// pending, after the entries `waiting` were asked in order, oldest first,
/// and the i-th answer was `found[i]`.
pub open spec fn reconciled<R>(
    mapping: Map<CacheIdView, R>,
    waiting: Seq<CacheIdView>,
    found: Seq<Received<Arc<R>>>,
) -> CacheView<R>
    recommends
        waiting.len() == found.len(),
    decreases waiting.len(),
{
    if waiting.len() == 0 || found.len() == 0 {
        CacheView { mapping: mapping, pending: Seq::empty() }
    } else {
        absorbed(
            reconciled(mapping, waiting.drop_last(), found.drop_last()),
            waiting.last(),
            found.last(),
        )
    }
}

/// The mapping that a list of entries stands for: each identity with the
/// resource of the last entry that names it.
spec fn entries_map<R>(entries: Seq<(CacheId, Arc<R>)>) -> Map<CacheIdView, R>
    decreases entries.len(),
{
    if entries.len() == 0 {
        Map::empty()
    } else {
        entries_map(entries.drop_last()).insert(entries.last().0@, *entries.last().1)
    }
}

/// Whether no identity is named by two entries.
spec fn distinct_ids<R>(entries: Seq<(CacheId, Arc<R>)>) -> bool {
    forall|i: int, j: int|
        0 <= i < j < entries.len() ==> (#[trigger] entries[i]).0@ != (#[trigger] entries[j]).0@
}

proof fn lemma_entries_map_absent<R>(entries: Seq<(CacheId, Arc<R>)>, id: CacheIdView)
    requires
        forall|i: int| 0 <= i < entries.len() ==> (#[trigger] entries[i]).0@ != id,
    ensures
        !entries_map(entries).contains_key(id),
    decreases entries.len(),
{
    if entries.len() > 0 {
        lemma_entries_map_absent(entries.drop_last(), id);
    }
}

proof fn lemma_entries_map_present<R>(entries: Seq<(CacheId, Arc<R>)>, i: int)
    requires
        distinct_ids(entries),
        0 <= i < entries.len(),
    ensures
        entries_map(entries).contains_key(entries[i].0@),
        entries_map(entries)[entries[i].0@] == *entries[i].1,
    decreases entries.len(),
{
    if i < entries.len() - 1 {
        let front = entries.drop_last();
        assert(distinct_ids(front)) by {
            assert forall|a: int, b: int| 0 <= a < b < front.len() implies (#[trigger] front[a]).0@
                != (#[trigger] front[b]).0@ by {
                assert(front[a] == entries[a] && front[b] == entries[b]);
            }
        }
        lemma_entries_map_present(front, i);
        assert(front[i] == entries[i]);
        assert(entries[i].0@ != entries[entries.len() - 1].0@);
    }
}

/// A store of loaded resources.
///
/// A resource is produced at most once per identity by `load`, and what is
/// stored under an identity is never replaced.
#[verifier::reject_recursive_types(R)]
pub struct Cache<R> {
    cache: Vec<(CacheId, Arc<R>)>,
    items_to_cache: Vec<(CacheId, BusReader<Arc<R>>)>,
}

impl<R> View for Cache<R> {
    type V = CacheView<R>;

    closed spec fn view(&self) -> CacheView<R> {
        CacheView {
            mapping: entries_map(self.cache@),
            pending: Seq::new(self.items_to_cache@.len(), |i: int| self.items_to_cache@[i].0@),
        }
    }
}

impl<R> Cache<R> {
    #[verifier::type_invariant]
    spec fn stores_each_id_once(self) -> bool {
        distinct_ids(self.cache@)
    }

    /// Creates a new cache, with nothing stored and nothing pending.
    pub fn new() -> (cache: Cache<R>)
        ensures
            cache@.mapping == Map::<CacheIdView, R>::empty(),
            cache@.pending == Seq::<CacheIdView>::empty(),
    {
        let cache = Cache { cache: Vec::new(), items_to_cache: Vec::new() };
        assert(cache@.pending =~= Seq::<CacheIdView>::empty());
        cache
    }

    /// Where the entry for `id` stands in the list, if there is one.
    fn position(&self, id: &CacheId) -> (found: Option<usize>)
        ensures
            match found {
                Some(i) => i < self.cache@.len() && self.cache@[i as int].0@ == id@,
                None => forall|j: int|
                    0 <= j < self.cache@.len() ==> (#[trigger] self.cache@[j]).0@ != id@,
            },
    {
        let mut i: usize = 0;
        while i < self.cache.len()
            invariant
                i <= self.cache@.len(),
                forall|j: int| 0 <= j < i ==> (#[trigger] self.cache@[j]).0@ != id@,
            decreases self.cache@.len() - i,
        {
            if self.cache[i].0.same(id) {
                return Some(i);
            }
            i += 1;
        }
        None
    }

    /// The resource stored under `id`, if there is one.
    pub fn get(&self, id: &CacheId) -> (found: Option<Arc<R>>)
        ensures
            match found {
                Some(shared) => self@.mapping.contains_key(id@) && *shared == self@.mapping[id@],
                None => !self@.mapping.contains_key(id@),
            },
    {
        proof {
            use_type_invariant(self);
        }
        match self.position(id) {
            Some(i) => {
                proof {
                    lemma_entries_map_present(self.cache@, i as int);
                }
                Some(arc_clone(&self.cache[i].1))
            },
            None => {
                proof {
                    lemma_entries_map_absent(self.cache@, id@);
                }
                None
            },
        }
    }

    /// Stores `shared` under an identity that has no resource yet.
    fn insert_new(&mut self, id: CacheId, shared: Arc<R>)
        requires
            !old(self)@.mapping.contains_key(id@),
        ensures
            final(self)@.mapping == old(self)@.mapping.insert(id@, *shared),
            final(self)@.pending == old(self)@.pending,
    {
        proof {
            use_type_invariant(&*self);
            assert(self.cache@.push((id, shared)).drop_last() == self.cache@);
            lemma_distinct_push(self.cache@, (id, shared));
        }
        let mut entries: Vec<(CacheId, Arc<R>)> = Vec::new();
        core::mem::swap(&mut self.cache, &mut entries);
        entries.push((id, shared));
        core::mem::swap(&mut self.cache, &mut entries);
    }

    /// Finishes a load for `id` with what the provider returned.
    ///
    /// Where `id` has a resource already, that resource is the answer and
    /// `provided` is dropped: what was stored first stays. Otherwise the
    /// provider's resource is stored and shared out, or its error is handed
    /// on and nothing is stored.
    pub fn finish_load<E>(&mut self, id: CacheId, provided: Result<R, E>) -> (res: Result<Arc<R>, E>)
        ensures
            (final(self)@.mapping, unshared(res)) == loaded(old(self)@.mapping, id@, provided),
            final(self)@.pending == old(self)@.pending,
    {
        match self.get(&id) {
            Some(shared) => Ok(shared),
            None => match provided {
                Ok(resource) => {
                    let shared = Arc::new(resource);
                    self.insert_new(id, arc_clone(&shared));
                    Ok(shared)
                },
                Err(error) => Err(error),
            },
        }
    }

    /// Uses the provider to load or create the resource for `key`, and keeps
    /// it.
    ///
    /// A key whose identity has a resource gets that resource, and the
    /// provider is not asked. Otherwise the provider is asked once: its
    /// resource is stored and returned, or its error is returned and nothing
    /// is stored, so that a later call may try again.
    pub fn load<L: ResourceProvider<R>>(&mut self, provider: &L, key: L::Key) -> (res: Result<
        Arc<R>,
        L::Error,
    >)
        ensures
            old(self)@.mapping.contains_key(key.identity()) ==> {
                &&& unshared(res) == Ok::<R, L::Error>(old(self)@.mapping[key.identity()])
                &&& final(self)@ == old(self)@
            },
            !old(self)@.mapping.contains_key(key.identity()) ==> {
                &&& provider.provides(key, unshared(res))
                &&& final(self)@.mapping == match res {
                    Ok(shared) => old(self)@.mapping.insert(key.identity(), *shared),
                    Err(_) => old(self)@.mapping,
                }
            },
            // in one: a load-or-create in which the provider, where it is
            // asked, returns what the caller gets
            (final(self)@.mapping, unshared(res)) == loaded(
                old(self)@.mapping,
                key.identity(),
                unshared(res),
            ),
            final(self)@.pending == old(self)@.pending,
    {
        let id = key.as_cache_id();
        match self.get(&id) {
            Some(shared) => Ok(shared),
            None => {
                let provided = provider.load(key);
                self.finish_load(id, provided)
            },
        }
    }
}

impl<R> Cache<R> {
    /// Puts an entry at the end of the pending list.
    fn push_pending(&mut self, id: CacheId, reader: BusReader<Arc<R>>)
        ensures
            final(self)@.mapping == old(self)@.mapping,
            final(self)@.pending == old(self)@.pending.push(id@),
    {
        proof {
            use_type_invariant(&*self);
        }
        let mut entries: Vec<(CacheId, BusReader<Arc<R>>)> = Vec::new();
        core::mem::swap(&mut self.items_to_cache, &mut entries);
        entries.push((id, reader));
        core::mem::swap(&mut self.items_to_cache, &mut entries);
        assert(self@.pending =~= old(self)@.pending.push(id@));
    }

    /// Takes the pending list out, leaving none pending.
    fn take_pending(&mut self) -> (waiting: Vec<(CacheId, BusReader<Arc<R>>)>)
        ensures
            final(self)@.mapping == old(self)@.mapping,
            final(self)@.pending == Seq::<CacheIdView>::empty(),
            waiting@.len() == old(self)@.pending.len(),
            forall|i: int| 0 <= i < waiting@.len() ==> (#[trigger] waiting@[i]).0@ == old(self)@.pending[i],
    {
        proof {
            use_type_invariant(&*self);
        }
        let mut waiting: Vec<(CacheId, BusReader<Arc<R>>)> = Vec::new();
        core::mem::swap(&mut self.items_to_cache, &mut waiting);
        assert(self@.pending =~= Seq::<CacheIdView>::empty());
        waiting
    }

    /// How many background results have not been folded in yet.
    pub fn pending_len(&self) -> (n: usize)
        ensures
            n == self@.pending.len(),
    {
        self.items_to_cache.len()
    }

    /// Folds one answer of a pending entry into the cache.
    ///
    /// `found` is what the entry's reader returned when it was asked. A
    /// resource is stored unless `id` has one already (what was stored first
    /// stays) and the reader is dropped; on an empty channel the entry goes
    /// back to the end of the pending list; on a closed one it is dropped and
    /// nothing tells of it.
    pub fn absorb(&mut self, id: CacheId, reader: BusReader<Arc<R>>, found: Received<Arc<R>>)
        ensures
            final(self)@ == absorbed(old(self)@, id@, found),
    {
        match found {
            Received::Item(shared) => {
                if self.get(&id).is_none() {
                    self.insert_new(id, shared);
                }
            },
            Received::Empty => {
                self.push_pending(id, reader);
            },
            Received::Closed => {},
        }
    }
}

impl<R: Send + Sync> Cache<R> {
    /// Checks on the background results and stores those that have arrived.
    ///
    /// Every pending entry is asked once, oldest first, without waiting. The
    /// cache afterwards is what `reconciled` gives for the answers that came:
    /// those cannot be known beforehand, so the contract says that there are
    /// such answers. Whatever they were, every resource stored before is
    /// still stored, unchanged.
    pub fn cache_async(&mut self)
        ensures
            exists|found: Seq<Received<Arc<R>>>|
                found.len() == old(self)@.pending.len() && final(self)@ == #[trigger] reconciled(
                    old(self)@.mapping,
                    old(self)@.pending,
                    found,
                ),
            forall|id: CacheIdView| #[trigger]
                old(self)@.mapping.contains_key(id) ==> final(self)@.mapping.contains_key(id)
                    && final(self)@.mapping[id] == old(self)@.mapping[id],
            forall|id: CacheIdView| #[trigger]
                final(self)@.mapping.contains_key(id) ==> old(self)@.mapping.contains_key(id)
                    || old(self)@.pending.contains(id),
            forall|i: int|
                0 <= i < final(self)@.pending.len() ==> old(self)@.pending.contains(
                    #[trigger] final(self)@.pending[i],
                ),
            final(self)@.pending.len() <= old(self)@.pending.len(),
    {
        let ghost before = self@;
        let waiting = self.take_pending();
        let ghost mut answers: Seq<Received<Arc<R>>> = Seq::empty();
        for entry in iter: waiting
            invariant
                iter.seq().len() == before.pending.len(),
                forall|i: int| 0 <= i < iter.seq().len() ==> (#[trigger] iter.seq()[i]).0@ == before.pending[i],
                answers.len() == iter.index(),
                self@ == reconciled(before.mapping, before.pending.take(iter.index() as int), answers),
        {
            let (id, mut reader) = entry;
            let found = bus_try_recv(&mut reader);
            proof {
                let k = iter.index() as int;
                assert(before.pending.take(k + 1).drop_last() =~= before.pending.take(k));
                assert(answers.push(found).drop_last() =~= answers);
                answers = answers.push(found);
            }
            self.absorb(id, reader, found);
        }
        proof {
            assert(before.pending.take(before.pending.len() as int) =~= before.pending);
            law_reconciled_keeps_what_was_stored(before.mapping, before.pending, answers);
        }
    }
}

impl<R: Send + Sync + 'static> Cache<R> {
    /// Arranges for the resource for `key` to be loaded away from the
    /// caller's thread, unless it is stored already.
    ///
    /// A key whose identity has a resource gets that resource as `Ok`, and
    /// nothing else happens. Otherwise the answer is `Err`, which here means
    /// "not there yet" and not that anything failed: it carries the handle to
    /// poll, and the job to run on a worker. The identity joins the pending
    /// list, so that `cache_async` will store the resource once it has come.
    ///
    /// Only stored resources are looked at: a key that is pending already
    /// gets a second job and a second pending entry, and whichever resource
    /// is folded in first is the one that stays.
    pub fn load_async<L>(&mut self, provider: &L, key: L::Key) -> (res: Result<
        Arc<R>,
        (ResourceFuture<R, L>, Job<R, L>),
    >) where L: ResourceProvider<R> + Send + Sync + Clone + 'static
        ensures
            old(self)@.mapping.contains_key(key.identity()) ==> {
                &&& res matches Ok(shared) && *shared == old(self)@.mapping[key.identity()]
                &&& final(self)@ == old(self)@
            },
            !old(self)@.mapping.contains_key(key.identity()) ==> {
                &&& res matches Err((handle, job)) && handle is InProgress && job.key() == key
                    && cloned(*provider, job.provider())
                &&& final(self)@.mapping == old(self)@.mapping
                &&& final(self)@.pending == old(self)@.pending.push(key.identity())
            },
    {
        let cache_id = key.as_cache_id();
        match self.get(&cache_id) {
            Some(shared) => Ok(shared),
            None => {
                let (ftx, frx) = mpsc_channel();
                let mut resource_bus = bus_new(2);
                let cache_bus = bus_add_rx(&mut resource_bus);
                let future_bus = bus_add_rx(&mut resource_bus);
                let job = Job::new(provider.clone(), key, resource_bus, ftx);
                self.push_pending(cache_id, cache_bus);
                Err((ResourceFuture::new(future_bus, frx), job))
            },
        }
    }
}

proof fn lemma_distinct_push<R>(entries: Seq<(CacheId, Arc<R>)>, entry: (CacheId, Arc<R>))
    requires
        distinct_ids(entries),
        !entries_map(entries).contains_key(entry.0@),
    ensures
        distinct_ids(entries.push(entry)),
{
    let longer = entries.push(entry);
    assert forall|i: int, j: int| 0 <= i < j < longer.len() implies (#[trigger] longer[i]).0@ != (
    #[trigger] longer[j]).0@ by {
        if j < entries.len() {
            assert(longer[i] == entries[i] && longer[j] == entries[j]);
        } else {
            assert(longer[i] == entries[i]);
            lemma_entries_map_present(entries, i);
        }
    }
}

} // verus!
