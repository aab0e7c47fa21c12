//! What holds of the cache and of its handles across several calls.
//!
//! Each statement is over the spec functions that the contracts of `Cache`
//! and `ResourceFuture` are written in, so it holds of every run of the
//! executable code.

use vstd::prelude::*;
use std::rc::Rc;
use std::sync::Arc;
use crate::cache::{absorbed, loaded, reconciled, CacheView};
use crate::channel::Received;
use crate::future::{Async, ResourceFuture, Signal};
use crate::identity::CacheIdView;
use crate::provider::ResourceProvider;

verus! {

/// A resource is produced at most once per identity: once a load has
/// answered with a resource, every later load of the same identity answers
/// with that resource and leaves the mapping alone, whatever its provider
/// would have returned.
pub proof fn law_first_load_is_kept<R, E1, E2>(
    mapping: Map<CacheIdView, R>,
    id: CacheIdView,
    first: Result<R, E1>,
    later: Result<R, E2>,
)
    requires
        loaded(mapping, id, first).1 is Ok,
    ensures
        loaded(loaded(mapping, id, first).0, id, later) == (
            loaded(mapping, id, first).0,
            Ok::<R, E2>(loaded(mapping, id, first).1->Ok_0),
        ),
        !mapping.contains_key(id) ==> loaded(mapping, id, first).1 == first,
{
}

/// The provider's answer is asked for only where nothing is stored: a load of
/// an identity that has a resource does not depend on it.
pub proof fn law_stored_resource_needs_no_provider<R, E>(
    mapping: Map<CacheIdView, R>,
    id: CacheIdView,
    one: Result<R, E>,
    other: Result<R, E>,
)
    requires
        mapping.contains_key(id),
    ensures
        loaded(mapping, id, one) == loaded(mapping, id, other),
        loaded(mapping, id, one) == (mapping, Ok::<R, E>(mapping[id])),
{
}

/// A failed load hands on the provider's error and leaves no trace, so a
/// later load of the same identity asks again and can succeed.
pub proof fn law_failed_load_leaves_no_entry<R, E>(
    mapping: Map<CacheIdView, R>,
    id: CacheIdView,
    error: E,
    later: Result<R, E>,
)
    requires
        !mapping.contains_key(id),
    ensures
        loaded(mapping, id, Err::<R, E>(error)) == (mapping, Err::<R, E>(error)),
        loaded(loaded(mapping, id, Err::<R, E>(error)).0, id, later).1 == later,
{
}

/// A load touches no identity but its own.
pub proof fn law_load_is_local<R, E>(
    mapping: Map<CacheIdView, R>,
    id: CacheIdView,
    provided: Result<R, E>,
    other: CacheIdView,
)
    requires
        other != id,
    ensures
        loaded(mapping, id, provided).0.contains_key(other) == mapping.contains_key(other),
        mapping.contains_key(other) ==> loaded(mapping, id, provided).0[other] == mapping[other],
{
}

/// A final state is kept: polling a handle that is `Successful` or `Failed`
/// any number of times, whatever the channels hold, leaves it as it is and
/// answers every time as the first time.
pub proof fn law_final_state_is_kept<R, L: ResourceProvider<R>>(
    handle: ResourceFuture<R, L>,
    signals: Seq<Signal<R, L::Error>>,
    first: Signal<R, L::Error>,
    next: Signal<R, L::Error>,
)
    requires
        handle.is_final(),
    ensures
        handle.polled(signals) == handle,
        handle.polled(signals).resolved(next).1 == handle.resolved(first).1,
        handle matches ResourceFuture::Successful(value) ==> handle.resolved(first).1 == Ok::<
            _,
            Rc<L::Error>,
        >(Async::Ready(value)),
        handle matches ResourceFuture::Failed(error) ==> handle.resolved(first).1 == Err::<
            Async<Arc<R>>,
            _,
        >(error),
    decreases signals.len(),
{
    if signals.len() > 0 {
        law_final_state_is_kept(handle, signals.drop_last(), first, next);
    }
}

/// A handle moves at most once: a poll either leaves a handle in progress as
/// it was, or takes it to a final state, and what a poll answered with
/// `Ready` or with an error is what every later poll answers.
pub proof fn law_handle_moves_once<R, L: ResourceProvider<R>>(
    handle: ResourceFuture<R, L>,
    signal: Signal<R, L::Error>,
    later: Seq<Signal<R, L::Error>>,
    next: Signal<R, L::Error>,
)
    ensures
        handle.resolved(signal).0 == handle || handle.resolved(signal).0.is_final(),
        handle.resolved(signal).1 != Ok::<_, Rc<L::Error>>(
            Async::<Arc<R>>::NotReady,
        ) ==> handle.resolved(signal).0.polled(later).resolved(next).1 == handle.resolved(
            signal,
        ).1,
        handle.resolved(signal).1 == Ok::<_, Rc<L::Error>>(
            Async::<Arc<R>>::NotReady,
        ) <==> (handle is InProgress && signal is Nothing),
{
    let after = handle.resolved(signal).0;
    if after.is_final() {
        law_final_state_is_kept(after, later, signal, next);
        law_final_state_is_kept(after, Seq::empty(), next, signal);
    }
}

/// Round trip: a resource that came in on the background path and was folded
/// in is what a later load answers with, without a word from its provider.
/// Where the identity had a resource before, that one stays and is the
/// answer.
pub proof fn law_absorbed_resource_is_loaded<R, E>(
    state: CacheView<R>,
    id: CacheIdView,
    shared: Arc<R>,
    later: Result<R, E>,
)
    ensures
        loaded(absorbed(state, id, Received::Item(shared)).mapping, id, later) == (
            absorbed(state, id, Received::Item(shared)).mapping,
            Ok::<R, E>(
                if state.mapping.contains_key(id) {
                    state.mapping[id]
                } else {
                    *shared
                },
            ),
        ),
{
}

/// Whether some pending entry for `id` had a resource waiting.
pub open spec fn arrived_for<R>(
    waiting: Seq<CacheIdView>,
    found: Seq<Received<Arc<R>>>,
    id: CacheIdView,
) -> bool {
    exists|k: int| 0 <= k < waiting.len() && k < found.len() && waiting[k] == id && found[k] is Item
}

/// First writer wins: reconciliation never replaces or removes a stored
/// resource, stores resources only under identities whose pending entry had
/// one waiting, and keeps pending only what was pending.
pub proof fn law_reconciled_keeps_what_was_stored<R>(
    mapping: Map<CacheIdView, R>,
    waiting: Seq<CacheIdView>,
    found: Seq<Received<Arc<R>>>,
)
    requires
        found.len() == waiting.len(),
    ensures
        forall|id: CacheIdView| #[trigger]
            mapping.contains_key(id) ==> reconciled(mapping, waiting, found).mapping.contains_key(
                id,
            ) && reconciled(mapping, waiting, found).mapping[id] == mapping[id],
        forall|id: CacheIdView| #[trigger]
            reconciled(mapping, waiting, found).mapping.contains_key(id) ==> mapping.contains_key(
                id,
            ) || (arrived_for(waiting, found, id) && waiting.contains(id)),
        forall|i: int|
            0 <= i < reconciled(mapping, waiting, found).pending.len() ==> waiting.contains(
                #[trigger] reconciled(mapping, waiting, found).pending[i],
            ),
        reconciled(mapping, waiting, found).pending.len() <= waiting.len(),
    decreases waiting.len(),
{
    if waiting.len() > 0 {
        let front = waiting.drop_last();
        let head = found.drop_last();
        law_reconciled_keeps_what_was_stored(mapping, front, head);
        let before = reconciled(mapping, front, head);
        let after = reconciled(mapping, waiting, found);
        let last = waiting.len() - 1;
        assert(after == absorbed(before, waiting.last(), found.last()));
        assert(waiting.contains(waiting.last())) by {
            assert(waiting[last] == waiting.last());
        }
        assert forall|id: CacheIdView| front.contains(id) implies waiting.contains(id) by {
            let k = choose|k: int| 0 <= k < front.len() && front[k] == id;
            assert(waiting[k] == id);
        }
        assert forall|id: CacheIdView| arrived_for(front, head, id) implies arrived_for(
            waiting,
            found,
            id,
        ) by {
            let k = choose|k: int|
                0 <= k < front.len() && k < head.len() && front[k] == id && head[k] is Item;
            assert(waiting[k] == id && found[k] is Item);
        }
        assert forall|id: CacheIdView| #[trigger]
            after.mapping.contains_key(id) implies mapping.contains_key(id) || (arrived_for(
            waiting,
            found,
            id,
        ) && waiting.contains(id)) by {
            if !before.mapping.contains_key(id) {
                assert(waiting[last] == id && found[last] is Item);
            }
        }
        assert forall|i: int| 0 <= i < after.pending.len() implies waiting.contains(
            #[trigger] after.pending[i],
        ) by {
            if i < before.pending.len() {
                assert(after.pending[i] == before.pending[i]);
                assert(front.contains(before.pending[i]));
            }
        }
    }
}

/// Round trip through a whole reconciliation: a pending entry whose resource
/// has arrived leaves its identity with a resource, and a later load of that
/// identity answers with it, whatever its provider would have returned. The
/// resource is the one that arrived, unless the identity had one before or an
/// older entry for it brought one.
pub proof fn law_arrived_resource_is_loaded<R, E>(
    mapping: Map<CacheIdView, R>,
    waiting: Seq<CacheIdView>,
    found: Seq<Received<Arc<R>>>,
    i: int,
    later: Result<R, E>,
)
    requires
        found.len() == waiting.len(),
        0 <= i < waiting.len(),
        found[i] is Item,
    ensures
        reconciled(mapping, waiting, found).mapping.contains_key(waiting[i]),
        loaded(reconciled(mapping, waiting, found).mapping, waiting[i], later) == (
            reconciled(mapping, waiting, found).mapping,
            Ok::<R, E>(reconciled(mapping, waiting, found).mapping[waiting[i]]),
        ),
        !mapping.contains_key(waiting[i]) && !arrived_for(
            waiting.take(i),
            found.take(i),
            waiting[i],
        ) ==> reconciled(mapping, waiting, found).mapping[waiting[i]] == *found[i]->Item_0,
    decreases waiting.len(),
{
    let front = waiting.drop_last();
    let head = found.drop_last();
    let before = reconciled(mapping, front, head);
    let after = reconciled(mapping, waiting, found);
    assert(after == absorbed(before, waiting.last(), found.last()));
    if i == waiting.len() - 1 {
        assert(waiting.take(i) == front && found.take(i) == head);
        law_reconciled_keeps_what_was_stored(mapping, front, head);
    } else {
        assert(front[i] == waiting[i] && head[i] == found[i]);
        assert(front.take(i) == waiting.take(i) && head.take(i) == found.take(i));
        law_arrived_resource_is_loaded(mapping, front, head, i, later);
    }
}

} // verus!
