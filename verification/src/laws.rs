//! What holds of creations and retrievals taken together.
use vstd::prelude::*;
use crate::errors::{duplicate, not_found, Failure};
use crate::record::Entry;
use crate::router::{replication_of, MerchantStorageScheme};
use crate::store::{
    authority, empty_state, insert_effect, insert_outcome, lookup_outcome, visible, StoreState,
};
use crate::table::{distinct_ids, lemma_lookup_push, lemma_push_distinct, lookup};

verus! {

/// One creation: the request and the scheme it is made under.
pub ghost struct Creation {
    pub new: Entry,
    pub scheme: MerchantStorageScheme,
}

/// What a store that held `state` holds after `creations`, in their order.
pub open spec fn replay(state: StoreState, creations: Seq<Creation>) -> StoreState
    decreases creations.len(),
{
    if creations.len() == 0 {
        state
    } else {
        insert_effect(
            replay(state, creations.drop_last()),
            creations.last().new,
            creations.last().scheme,
        )
    }
}

/// What the creation at `index` returns when `creations` are made in their
/// order on a store that held `state`.
pub open spec fn outcome_at(state: StoreState, creations: Seq<Creation>, index: int) -> Result<
    Entry,
    Failure,
> {
    insert_outcome(
        replay(state, creations.take(index)),
        creations[index].new,
        creations[index].scheme,
    )
}

/// After a creation, accepted or refused, the layer that decided on it has
/// the identifier of the request.
pub proof fn lemma_identifier_taken(state: StoreState, new: Entry, scheme: MerchantStorageScheme)
    ensures
        lookup(authority(insert_effect(state, new, scheme), scheme), new.lookup_id) is Some,
{
    lemma_lookup_push(authority(state, scheme), new, new.lookup_id);
}

/// A creation leaves every other identifier as it was, in both layers.
pub proof fn lemma_others_untouched(
    state: StoreState,
    new: Entry,
    scheme: MerchantStorageScheme,
    lookup_id: Seq<char>,
)
    requires
        new.lookup_id != lookup_id,
    ensures
        lookup(insert_effect(state, new, scheme).cache, lookup_id) == lookup(
            state.cache,
            lookup_id,
        ),
        lookup(insert_effect(state, new, scheme).database, lookup_id) == lookup(
            state.database,
            lookup_id,
        ),
{
    lemma_lookup_push(state.cache, new, lookup_id);
    lemma_lookup_push(state.database, new, lookup_id);
}

/// A creation never removes an identifier from a layer.
pub proof fn lemma_taken_stays(
    state: StoreState,
    new: Entry,
    scheme: MerchantStorageScheme,
    lookup_id: Seq<char>,
)
    ensures
        lookup(state.cache, lookup_id) is Some ==> lookup(
            insert_effect(state, new, scheme).cache,
            lookup_id,
        ) == lookup(state.cache, lookup_id),
        lookup(state.database, lookup_id) is Some ==> lookup(
            insert_effect(state, new, scheme).database,
            lookup_id,
        ) == lookup(state.database, lookup_id),
{
    lemma_lookup_push(state.cache, new, lookup_id);
    lemma_lookup_push(state.database, new, lookup_id);
}

/// Making `creations` in one go is making the first `k` of them and then the
/// rest.
pub proof fn lemma_replay_split(state: StoreState, creations: Seq<Creation>, k: int)
    requires
        0 <= k <= creations.len(),
    ensures
        replay(state, creations) == replay(replay(state, creations.take(k)), creations.skip(k)),
    decreases creations.len(),
{
    if k == creations.len() {
        assert(creations.take(k) =~= creations);
        assert(creations.skip(k) =~= Seq::<Creation>::empty());
    } else {
        let earlier = creations.drop_last();
        lemma_replay_split(state, earlier, k);
        assert(earlier.take(k) =~= creations.take(k));
        assert(creations.skip(k).drop_last() =~= earlier.skip(k));
        assert(creations.skip(k).last() == creations.last());
    }
}

/// Making one more creation is making those before it and then that one.
pub proof fn lemma_replay_next(state: StoreState, creations: Seq<Creation>, index: int)
    requires
        0 <= index < creations.len(),
    ensures
        replay(state, creations.take(index + 1)) == insert_effect(
            replay(state, creations.take(index)),
            creations[index].new,
            creations[index].scheme,
        ),
{
    assert(creations.take(index + 1).drop_last() =~= creations.take(index));
    assert(creations.take(index + 1).last() == creations[index]);
}

/// An identifier that a layer has stays in that layer with its record,
/// whatever creations follow.
pub proof fn lemma_replay_keeps(state: StoreState, creations: Seq<Creation>, lookup_id: Seq<char>)
    ensures
        lookup(state.cache, lookup_id) is Some ==> lookup(
            replay(state, creations).cache,
            lookup_id,
        ) == lookup(state.cache, lookup_id),
        lookup(state.database, lookup_id) is Some ==> lookup(
            replay(state, creations).database,
            lookup_id,
        ) == lookup(state.database, lookup_id),
    decreases creations.len(),
{
    if creations.len() > 0 {
        lemma_replay_keeps(state, creations.drop_last(), lookup_id);
        lemma_taken_stays(
            replay(state, creations.drop_last()),
            creations.last().new,
            creations.last().scheme,
            lookup_id,
        );
    }
}

/// At most once: take any number of creations of one identifier under the
/// fast-path scheme, in the order in which their conditional sets reach the
/// fast layer. Every creation but the first is refused with the
/// duplicate-value failure that names the identifier, and the first is
/// accepted exactly if the fast layer did not have the identifier before. So
/// on a free identifier exactly one of them succeeds, and no two ever do.
pub proof fn law_at_most_once(state: StoreState, creations: Seq<Creation>, lookup_id: Seq<char>)
    requires
        creations.len() >= 1,
        forall|i: int|
            0 <= i < creations.len() ==> (#[trigger] creations[i]).new.lookup_id == lookup_id
                && creations[i].scheme == MerchantStorageScheme::RedisKv,
    ensures
        outcome_at(state, creations, 0) == if lookup(state.cache, lookup_id) is None {
            Ok::<Entry, Failure>(creations[0].new)
        } else {
            Err::<Entry, Failure>(duplicate(lookup_id))
        },
        forall|i: int|
            1 <= i < creations.len() ==> #[trigger] outcome_at(state, creations, i) == Err::<
                Entry,
                Failure,
            >(duplicate(lookup_id)),
{
    assert(creations.take(0) =~= Seq::<Creation>::empty());
    assert forall|i: int| 1 <= i < creations.len() implies #[trigger] outcome_at(
        state,
        creations,
        i,
    ) == Err::<Entry, Failure>(duplicate(lookup_id)) by {
        let made = creations.take(i);
        assert(made.last() == creations[i - 1]);
        lemma_identifier_taken(
            replay(state, made.drop_last()),
            made.last().new,
            MerchantStorageScheme::RedisKv,
        );
    }
}

/// No second success: among creations made in any order and mixed with
/// creations of other identifiers, one that follows a creation of the same
/// identifier under the same scheme is refused with the duplicate-value
/// failure that names the identifier.
pub proof fn law_no_second_success(
    state: StoreState,
    creations: Seq<Creation>,
    earlier: int,
    later: int,
)
    requires
        0 <= earlier < later < creations.len(),
        creations[earlier].new.lookup_id == creations[later].new.lookup_id,
        creations[earlier].scheme == creations[later].scheme,
    ensures
        outcome_at(state, creations, later) == Err::<Entry, Failure>(
            duplicate(creations[later].new.lookup_id),
        ),
{
    let lookup_id = creations[later].new.lookup_id;
    let scheme = creations[later].scheme;
    let made = creations.take(later);
    assert(made.take(earlier + 1) =~= creations.take(earlier + 1));
    assert(made.take(earlier) =~= creations.take(earlier));
    assert(made[earlier] == creations[earlier]);
    lemma_replay_next(state, made, earlier);
    let taken = replay(state, made.take(earlier + 1));
    lemma_identifier_taken(replay(state, made.take(earlier)), made[earlier].new, scheme);
    lemma_replay_split(state, made, earlier + 1);
    lemma_replay_keeps(taken, made.skip(earlier + 1), lookup_id);
}

/// Read after write: a record that was created under the durable-only scheme
/// is what a retrieval of its identifier under that scheme returns.
pub proof fn law_read_after_write(state: StoreState, new: Entry)
    requires
        insert_outcome(state, new, MerchantStorageScheme::PostgresOnly) is Ok,
    ensures
        lookup_outcome(
            insert_effect(state, new, MerchantStorageScheme::PostgresOnly),
            MerchantStorageScheme::PostgresOnly,
            new.lookup_id,
        ) == Ok::<Entry, Failure>(new),
{
    lemma_lookup_push(state.database, new, new.lookup_id);
}

/// Read after write holds under the fast-path scheme too: the record is
/// served from the fast layer.
pub proof fn law_read_after_fast_write(state: StoreState, new: Entry)
    requires
        insert_outcome(state, new, MerchantStorageScheme::RedisKv) is Ok,
    ensures
        lookup_outcome(
            insert_effect(state, new, MerchantStorageScheme::RedisKv),
            MerchantStorageScheme::RedisKv,
            new.lookup_id,
        ) == Ok::<Entry, Failure>(new),
        lookup(insert_effect(state, new, MerchantStorageScheme::RedisKv).cache, new.lookup_id)
            == Some(new),
{
    lemma_lookup_push(state.cache, new, new.lookup_id);
}

/// Read fallback: a record that only the durable layer has is what a
/// retrieval under the fast-path scheme returns.
pub proof fn law_read_fallback(state: StoreState, lookup_id: Seq<char>, entry: Entry)
    requires
        lookup(state.cache, lookup_id) is None,
        lookup(state.database, lookup_id) == Some(entry),
    ensures
        lookup_outcome(state, MerchantStorageScheme::RedisKv, lookup_id) == Ok::<Entry, Failure>(
            entry,
        ),
{
}

/// Not found is terminal: on a store that began empty and saw only creations
/// of other identifiers, a retrieval fails with the not-found failure that
/// names the identifier, under either scheme.
pub proof fn law_not_found(
    creations: Seq<Creation>,
    lookup_id: Seq<char>,
    scheme: MerchantStorageScheme,
)
    requires
        forall|i: int|
            0 <= i < creations.len() ==> (#[trigger] creations[i]).new.lookup_id != lookup_id,
    ensures
        lookup(replay(empty_state(), creations).cache, lookup_id) is None,
        lookup(replay(empty_state(), creations).database, lookup_id) is None,
        lookup_outcome(replay(empty_state(), creations), scheme, lookup_id) == Err::<
            Entry,
            Failure,
        >(not_found(lookup_id)),
    decreases creations.len(),
{
    if creations.len() > 0 {
        let earlier = creations.drop_last();
        assert forall|i: int| 0 <= i < earlier.len() implies (#[trigger] earlier[i]).new.lookup_id
            != lookup_id by {
            assert(earlier[i] == creations[i]);
        }
        law_not_found(earlier, lookup_id, scheme);
        lemma_others_untouched(
            replay(empty_state(), earlier),
            creations.last().new,
            creations.last().scheme,
            lookup_id,
        );
    }
}

/// The drain stream only grows: whatever creations are made, the
/// instructions pushed before them stay where they were.
pub proof fn law_drain_append_only(state: StoreState, creations: Seq<Creation>)
    ensures
        state.drain.len() <= replay(state, creations).drain.len(),
        replay(state, creations).drain.take(state.drain.len() as int) == state.drain,
    decreases creations.len(),
{
    if creations.len() > 0 {
        law_drain_append_only(state, creations.drop_last());
        let before = replay(state, creations.drop_last());
        let after = replay(state, creations);
        assert(after.drain.take(state.drain.len() as int) =~= before.drain.take(
            state.drain.len() as int,
        ));
    } else {
        assert(state.drain.take(state.drain.len() as int) =~= state.drain);
    }
}

/// Partition ordering among any creations: of two creations accepted under
/// the fast-path scheme, the instruction of the earlier stands in the drain
/// stream before that of the later, whatever was created in between and
/// after. Each stands where the stream ended when its creation was made.
pub proof fn law_drain_order(state: StoreState, creations: Seq<Creation>, earlier: int, later: int)
    requires
        0 <= earlier < later < creations.len(),
        creations[earlier].scheme == MerchantStorageScheme::RedisKv,
        creations[later].scheme == MerchantStorageScheme::RedisKv,
        outcome_at(state, creations, earlier) is Ok,
        outcome_at(state, creations, later) is Ok,
    ensures
        ({
            let drain = replay(state, creations).drain;
            let p = replay(state, creations.take(earlier)).drain.len() as int;
            let q = replay(state, creations.take(later)).drain.len() as int;
            &&& 0 <= p < q < drain.len()
            &&& drain[p] == replication_of(creations[earlier].new)
            &&& drain[q] == replication_of(creations[later].new)
        }),
{
    let drain = replay(state, creations).drain;
    let before_earlier = replay(state, creations.take(earlier));
    let after_earlier = replay(state, creations.take(earlier + 1));
    let before_later = replay(state, creations.take(later));
    let after_later = replay(state, creations.take(later + 1));
    let p = before_earlier.drain.len() as int;
    let q = before_later.drain.len() as int;
    lemma_replay_next(state, creations, earlier);
    lemma_replay_next(state, creations, later);
    assert(after_earlier.drain == before_earlier.drain.push(
        replication_of(creations[earlier].new),
    ));
    assert(after_later.drain == before_later.drain.push(replication_of(creations[later].new)));
    // the stream when the later creation is made begins with the stream
    // after the earlier one
    let made = creations.take(later);
    assert(made.take(earlier + 1) =~= creations.take(earlier + 1));
    lemma_replay_split(state, made, earlier + 1);
    law_drain_append_only(after_earlier, made.skip(earlier + 1));
    // and the final stream begins with the stream after either
    lemma_replay_split(state, creations, earlier + 1);
    law_drain_append_only(after_earlier, creations.skip(earlier + 1));
    lemma_replay_split(state, creations, later + 1);
    law_drain_append_only(after_later, creations.skip(later + 1));
    assert(drain.take(p + 1)[p] == drain[p]);
    assert(drain.take(q + 1)[q] == drain[q]);
}

/// Partition ordering: two creations accepted one after the other under the
/// fast-path scheme leave their instructions at the end of the drain stream
/// in the order in which they were made, each on the partition of its
/// `pk_id`; so where the two share a `pk_id`, that partition sees the first
/// before the second. What was in the stream before stays in front of both.
pub proof fn law_partition_order(state: StoreState, first: Entry, second: Entry)
    requires
        first.pk_id == second.pk_id,
        insert_outcome(state, first, MerchantStorageScheme::RedisKv) is Ok,
        insert_outcome(
            insert_effect(state, first, MerchantStorageScheme::RedisKv),
            second,
            MerchantStorageScheme::RedisKv,
        ) is Ok,
    ensures
        ({
            let after = insert_effect(
                insert_effect(state, first, MerchantStorageScheme::RedisKv),
                second,
                MerchantStorageScheme::RedisKv,
            );
            let n = state.drain.len() as int;
            &&& after.drain.len() == n + 2
            &&& after.drain.take(n) == state.drain
            &&& after.drain[n] == replication_of(first)
            &&& after.drain[n + 1] == replication_of(second)
            &&& after.drain[n].partition_key == first.pk_id
            &&& after.drain[n + 1].partition_key == first.pk_id
        }),
{
    let after = insert_effect(
        insert_effect(state, first, MerchantStorageScheme::RedisKv),
        second,
        MerchantStorageScheme::RedisKv,
    );
    assert(after.drain.take(state.drain.len() as int) =~= state.drain);
}

/// Identifiers stay unique: if no identifier occurs twice within a layer, none
/// does after any creations.
pub proof fn law_identifiers_unique(state: StoreState, creations: Seq<Creation>)
    requires
        distinct_ids(state.cache),
        distinct_ids(state.database),
    ensures
        distinct_ids(replay(state, creations).cache),
        distinct_ids(replay(state, creations).database),
    decreases creations.len(),
{
    if creations.len() > 0 {
        law_identifiers_unique(state, creations.drop_last());
        let before = replay(state, creations.drop_last());
        let new = creations.last().new;
        if lookup(authority(before, creations.last().scheme), new.lookup_id) is None {
            lemma_push_distinct(authority(before, creations.last().scheme), new);
        }
    }
}

/// A record that a retrieval finds in the first layer it consults stays the
/// one it finds, whatever creations follow: no creation overwrites or removes
/// a record.
pub proof fn law_never_overwritten(
    state: StoreState,
    creations: Seq<Creation>,
    scheme: MerchantStorageScheme,
    lookup_id: Seq<char>,
)
    requires
        lookup(authority(state, scheme), lookup_id) is Some,
    ensures
        visible(replay(state, creations), scheme, lookup_id) == visible(state, scheme, lookup_id),
{
    lemma_replay_keeps(state, creations, lookup_id);
}

} // verus!
