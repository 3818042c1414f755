//! What holds of the limiter as a whole.

pub mod calls;
pub mod cycles;
pub mod figures;
pub mod lookups;
pub mod replies;
pub mod settings;
pub mod texts;
pub mod views;
pub mod web;

use crate::builder::Setting;
use crate::entity::{
    BucketConfigView, Entity, EntityView, LimitStepView, LookupView, RedisFetchView,
};
use crate::errors::LimiterError;
use crate::memory_check::Usage;
use crate::model::LimiterView;
use crate::storage::StorageType;
use vstd::prelude::*;

verus! {

/// A bucket that limits globally counts all requests together.
pub proof fn global_bucket_has_one_counter(config: BucketConfigView, a: Seq<char>, b: Seq<char>)
    requires
        config.limit_by is Global,
    ensures
        config.key(a) == config.key(b),
{
}

/// A bucket that does not limit globally counts each entity for itself.
pub proof fn bucket_counts_each_entity(config: BucketConfigView, a: Seq<char>, b: Seq<char>)
    requires
        config.limit_by !is Global,
        config.key(a) == config.key(b),
    ensures
        a == b,
{
    let head = config.name + ":"@ + config.limit_by.word() + ":"@;
    assert(config.key(a).skip(head.len() as int) == a);
    assert(config.key(b).skip(head.len() as int) == b);
}

/// Buckets of one name that tell requests apart in the same way share their counters, whatever
/// else differs.
pub proof fn buckets_of_one_name_share_counters(
    one: BucketConfigView,
    other: BucketConfigView,
    entity: Seq<char>,
)
    requires
        one.name == other.name,
        one.limit_by == other.limit_by,
    ensures
        one.key(entity) == other.key(entity),
{
}

/// Whether a text is free of the colon that separates the parts of a key.
pub open spec fn colon_free(s: Seq<char>) -> bool {
    !s.contains(':')
}

/// A key tells its bucket: two buckets whose names differ share no counter, nor do two that
/// tell requests apart in different ways, as long as no colon stands in the names.
pub proof fn buckets_share_no_counter(
    one: BucketConfigView,
    other: BucketConfigView,
    a: Seq<char>,
    b: Seq<char>,
)
    requires
        colon_free(one.name),
        colon_free(other.name),
        colon_free(one.limit_by.word()),
        colon_free(other.limit_by.word()),
        one.key(a) == other.key(b),
    ensures
        one.name == other.name,
        one.limit_by.word() == other.limit_by.word(),
{
    reveal_strlit(":");
    let key = one.key(a);
    key_starts_with_name(one, a);
    key_starts_with_name(other, b);
    assert(key.take(one.name.len() as int) == one.name);
    assert(other.key(b).take(other.name.len() as int) == other.name);
    let rest = key.skip(one.name.len() as int + 1);
    let after_one = one.limit_by.word().len() as int;
    let after_other = other.limit_by.word().len() as int;
    assert(rest.take(after_one) == one.limit_by.word());
    assert(rest.take(after_other) == other.limit_by.word());
    word_ends_at_colon(one, a);
    word_ends_at_colon(other, b);
}

/// The first colon of a key ends the name of the bucket.
proof fn key_starts_with_name(config: BucketConfigView, entity: Seq<char>)
    requires
        colon_free(config.name),
    ensures
        crate::text::find(config.key(entity), ':') == config.name.len(),
{
    reveal_strlit(":");
    let key = config.key(entity);
    assert forall|i: int| 0 <= i < config.name.len() implies key[i] != ':' by {
        assert(key[i] == config.name[i]);
    }
    crate::text::first_is_find(key, ':', config.name.len() as int);
}

/// The next colon of a key ends the word for the way in which requests are told apart.
proof fn word_ends_at_colon(config: BucketConfigView, entity: Seq<char>)
    requires
        colon_free(config.limit_by.word()),
    ensures
        crate::text::find(config.key(entity).skip(config.name.len() as int + 1), ':')
            == config.limit_by.word().len(),
{
    reveal_strlit(":");
    let word = config.limit_by.word();
    let rest = config.key(entity).skip(config.name.len() as int + 1);
    assert forall|i: int| 0 <= i < word.len() implies rest[i] != ':' by {
        assert(rest[i] == word[i]);
    }
    crate::text::first_is_find(rest, ':', word.len() as int);
}

impl LimitStepView {
    /// Whether the step admits the request, once Redis has stored what it is given.
    pub open spec fn admits(self) -> bool {
        match self {
            LimitStepView::Done(result) => result is Ok,
            LimitStepView::Fetch(_) => false,
            LimitStepView::Store(_, _) => true,
        }
    }

    /// What an admitted request is told.
    pub open spec fn told(self) -> crate::entity::LimiterHeadersView {
        match self {
            LimitStepView::Store(_, headers) => headers,
            LimitStepView::Done(result) => result->Ok_0,
            LimitStepView::Fetch(_) => arbitrary(),
        }
    }
}

impl<C> LimiterView<C> {
    /// The counter that the next request on `key` finds, given what Redis is asked to store is
    /// stored.
    pub open spec fn left(
        self,
        key: Seq<char>,
        found: Option<EntityView>,
        config: BucketConfigView,
        now: nat,
        update_now: nat,
    ) -> Option<EntityView> {
        let (after, step) = self.limit(key, found, config, now, update_now);
        match step {
            LimitStepView::Store(store, _) => Some(store.entity),
            LimitStepView::Done(Ok(_)) => after.memory.get(key),
            _ => found,
        }
    }

    /// The number of requests that are admitted of those that come on `key` one after the
    /// other, each with the time at which its counter is examined and that at which it is
    /// changed. Each request finds what the one before it left.
    pub open spec fn admitted_of(
        self,
        key: Seq<char>,
        found: Option<EntityView>,
        config: BucketConfigView,
        times: Seq<(nat, nat)>,
    ) -> nat
        decreases times.len(),
    {
        if times.len() == 0 {
            0
        } else {
            let (now, update_now) = times[0];
            let (after, step) = self.limit(key, found, config, now, update_now);
            let left = self.left(key, found, config, now, update_now);
            (if step.admits() {
                1nat
            } else {
                0
            }) + after.admitted_of(key, left, config, times.skip(1))
        }
    }
}

impl EntityView {
    /// Whether all of these times lie in the cycle of the counter.
    pub open spec fn in_cycle(self, times: Seq<(nat, nat)>) -> bool {
        forall|i: int| 0 <= i < times.len() ==> (#[trigger] times[i]).0 <= self.expires_at
    }

    /// Whether none of these times lies in the cycle of the counter.
    pub open spec fn ended_before(self, times: Seq<(nat, nat)>) -> bool {
        forall|i: int| 0 <= i < times.len() ==> (#[trigger] times[i]).0 > self.expires_at
    }
}

/// The lesser of two numbers.
pub open spec fn at_most(a: nat, b: nat) -> nat {
    if a <= b {
        a
    } else {
        b
    }
}

/// Of the requests that come in a cycle, exactly as many are admitted as the counter has left.
pub proof fn cycle_admits_what_is_left<C>(
    limiter: LimiterView<C>,
    key: Seq<char>,
    entity: EntityView,
    config: BucketConfigView,
    times: Seq<(nat, nat)>,
)
    requires
        entity.in_cycle(times),
    ensures
        limiter.admitted_of(key, Some(entity), config, times) == at_most(
            times.len(),
            entity.remaining,
        ),
    decreases times.len(),
{
    if times.len() > 0 {
        let (now, update_now) = times[0];
        let (after, step) = limiter.limit(key, Some(entity), config, now, update_now);
        let left = limiter.left(key, Some(entity), config, now, update_now);
        let rest = times.skip(1);
        assert(left matches Some(left));
        let left = left->0;
        if entity.remaining == 0 {
            assert(left == entity);
        } else {
            assert(left == entity.charged().accessed(update_now));
        }
        assert(left.in_cycle(rest)) by {
            assert forall|i: int| 0 <= i < rest.len() implies (#[trigger] rest[i]).0
                <= left.expires_at by {
                assert(rest[i] == times[i + 1]);
            }
        }
        cycle_admits_what_is_left(after, key, left, config, rest);
    }
}

/// A bucket whose maximum is nothing opens no cycle: it admits no request, but for those that a
/// counter of an earlier cycle has left.
pub proof fn empty_bucket_admits_nothing<C>(
    limiter: LimiterView<C>,
    key: Seq<char>,
    found: Option<EntityView>,
    config: BucketConfigView,
    times: Seq<(nat, nat)>,
)
    requires
        config.max_requests_per_cycle == 0,
        found matches Some(entity) ==> entity.remaining == 0 || entity.ended_before(times),
    ensures
        limiter.admitted_of(key, found, config, times) == 0,
    decreases times.len(),
{
    if times.len() > 0 {
        let (now, update_now) = times[0];
        let (after, step) = limiter.limit(key, found, config, now, update_now);
        let rest = times.skip(1);
        assert(!step.admits());
        if let Some(entity) = found {
            if entity.remaining > 0 {
                assert forall|i: int| 0 <= i < rest.len() implies (#[trigger] rest[i]).0
                    > entity.expires_at by {
                    assert(rest[i] == times[i + 1]);
                }
            }
        }
        empty_bucket_admits_nothing(after, key, found, config, rest);
    }
}

/// A bucket admits its maximum of requests per cycle, the one that opens the cycle among them,
/// and no more. This is the first cycle of an entity, for which there is room.
pub proof fn first_cycle_admits_the_maximum<C>(
    limiter: LimiterView<C>,
    key: Seq<char>,
    config: BucketConfigView,
    now: nat,
    update_now: nat,
    times: Seq<(nat, nat)>,
)
    requires
        !limiter.is_full(),
        config.fresh(config.limit_by, now).in_cycle(times),
    ensures
        limiter.admitted_of(key, None, config, seq![(now, update_now)] + times) == at_most(
            1 + times.len(),
            config.max_requests_per_cycle,
        ),
{
    let all = seq![(now, update_now)] + times;
    assert(all.skip(1) == times);
    if config.max_requests_per_cycle == 0 {
        empty_bucket_admits_nothing(limiter, key, None, config, all);
    } else {
        let (after, step) = limiter.limit(key, None, config, now, update_now);
        let opened = config.opened(config.limit_by, now);
        assert(limiter.left(key, None, config, now, update_now) == Some(opened));
        cycle_admits_what_is_left(after, key, opened, config, times);
    }
}

/// When a cycle has ended, the requests are refilled: the next request, at `now`, opens a cycle,
/// whatever was left, in which the bucket admits its maximum of requests, that one among them,
/// and no more. A bucket whose maximum is nothing opens no cycle, so there what the counter has
/// left must be nothing, or stay in the past.
pub proof fn next_cycle_admits_the_maximum<C>(
    limiter: LimiterView<C>,
    key: Seq<char>,
    entity: EntityView,
    config: BucketConfigView,
    now: nat,
    update_now: nat,
    times: Seq<(nat, nat)>,
)
    requires
        now > entity.expires_at,
        config.fresh(entity.entity_type, update_now).in_cycle(times),
        config.max_requests_per_cycle == 0 ==> entity.remaining == 0 || entity.ended_before(times),
    ensures
        limiter.admitted_of(key, Some(entity), config, seq![(now, update_now)] + times) == at_most(
            1 + times.len(),
            config.max_requests_per_cycle,
        ),
{
    let all = seq![(now, update_now)] + times;
    assert(all.skip(1) == times);
    if config.max_requests_per_cycle == 0 {
        if entity.remaining > 0 {
            assert forall|i: int| 0 <= i < all.len() implies (#[trigger] all[i]).0
                > entity.expires_at by {
                if i > 0 {
                    assert(all[i] == times[i - 1]);
                }
            }
        }
        empty_bucket_admits_nothing(limiter, key, Some(entity), config, all);
    } else {
        let (after, step) = limiter.limit(key, Some(entity), config, now, update_now);
        let opened = config.opened(entity.entity_type, update_now);
        assert(limiter.left(key, Some(entity), config, now, update_now) == Some(opened));
        cycle_admits_what_is_left(after, key, opened, config, times);
    }
}

/// The number of steps that admit their request.
pub open spec fn admitting(steps: Seq<LimitStepView>) -> nat
    decreases steps.len(),
{
    if steps.len() == 0 {
        0
    } else {
        (if steps[0].admits() {
            1nat
        } else {
            0
        }) + admitting(steps.skip(1))
    }
}

/// Times of the clock as numbers.
pub open spec fn as_nats(times: Seq<(u64, u64)>) -> Seq<(nat, nat)> {
    times.map_values(|time: (u64, u64)| (time.0 as nat, time.1 as nat))
}

/// Whether these are requests on one key, one after the other: the limiter before and behind
/// each, the counter that each finds, the two times of the clock at which it is decided, and its
/// step. Each request finds what the one before it left. In between, nothing but counters in
/// memory changes.
pub open spec fn run<C>(
    before: Seq<LimiterView<C>>,
    after: Seq<LimiterView<C>>,
    found: Seq<Option<EntityView>>,
    key: Seq<char>,
    config: BucketConfigView,
    times: Seq<(u64, u64)>,
    steps: Seq<LimitStepView>,
) -> bool {
    &&& before.len() == after.len() == found.len() == times.len() == steps.len()
    &&& forall|i: int|
        0 <= i < steps.len() ==> (#[trigger] before[i]).limited_at(
            key,
            found[i],
            config,
            times[i].0,
            times[i].1,
            after[i],
            Some(steps[i]),
        )
    &&& forall|i: int, j: int|
        0 <= i && j == i + 1 && j < steps.len() ==> {
            &&& #[trigger] before[j] == (#[trigger] after[i]).with_memory(before[j].memory)
            &&& found[j] == before[i].left(
                key,
                found[i],
                config,
                times[i].0 as nat,
                times[i].1 as nat,
            )
        }
}

/// How many requests are admitted does not rest with the counters in memory, given the counter
/// that the first one finds.
proof fn admitted_of_ignores_memory<C>(
    one: LimiterView<C>,
    other: LimiterView<C>,
    key: Seq<char>,
    found: Option<EntityView>,
    config: BucketConfigView,
    times: Seq<(nat, nat)>,
)
    requires
        other == one.with_memory(other.memory),
    ensures
        one.admitted_of(key, found, config, times) == other.admitted_of(key, found, config, times),
    decreases times.len(),
{
    if times.len() > 0 {
        let (now, update_now) = times[0];
        let one_after = one.limit(key, found, config, now, update_now).0;
        let other_after = other.limit(key, found, config, now, update_now).0;
        let left = one.left(key, found, config, now, update_now);
        assert(left == other.left(key, found, config, now, update_now));
        admitted_of_ignores_memory(one_after, other_after, key, left, config, times.skip(1));
    }
}

/// Of requests that find what the ones before them left, as many are admitted as the laws on
/// cycles say.
pub proof fn requests_follow_each_other<C>(
    before: Seq<LimiterView<C>>,
    after: Seq<LimiterView<C>>,
    found: Seq<Option<EntityView>>,
    key: Seq<char>,
    config: BucketConfigView,
    times: Seq<(u64, u64)>,
    steps: Seq<LimitStepView>,
)
    requires
        run(before, after, found, key, config, times, steps),
        steps.len() > 0,
    ensures
        admitting(steps) == before[0].admitted_of(key, found[0], config, as_nats(times)),
    decreases steps.len(),
{
    let now = times[0].0 as nat;
    let update_now = times[0].1 as nat;
    assert(before[0].limited_at(
        key,
        found[0],
        config,
        times[0].0,
        times[0].1,
        after[0],
        Some(steps[0]),
    ));
    assert(as_nats(times)[0] == (now, update_now));
    assert(as_nats(times).skip(1) == as_nats(times.skip(1)));
    let left = before[0].left(key, found[0], config, now, update_now);
    if steps.len() == 1 {
        assert(steps.skip(1).len() == 0);
        assert(as_nats(times).skip(1).len() == 0);
        assert(admitting(steps.skip(1)) == 0);
        assert(after[0].admitted_of(key, left, config, as_nats(times).skip(1)) == 0);
    } else {
        let next = before.skip(1);
        let behind = after.skip(1);
        assert(before[1] == after[0].with_memory(before[1].memory));
        assert(run(
            next,
            behind,
            found.skip(1),
            key,
            config,
            times.skip(1),
            steps.skip(1),
        )) by {
            assert forall|i: int| 0 <= i < steps.skip(1).len() implies (
            #[trigger] next[i]).limited_at(
                key,
                found.skip(1)[i],
                config,
                times.skip(1)[i].0,
                times.skip(1)[i].1,
                behind[i],
                Some(steps.skip(1)[i]),
            ) by {
                assert(next[i] == before[i + 1]);
            }
            assert forall|i: int, j: int|
                0 <= i && j == i + 1 && j < steps.skip(1).len() implies {
                &&& #[trigger] next[j] == (#[trigger] behind[i]).with_memory(next[j].memory)
                &&& found.skip(1)[j] == next[i].left(
                    key,
                    found.skip(1)[i],
                    config,
                    times.skip(1)[i].0 as nat,
                    times.skip(1)[i].1 as nat,
                )
            } by {
                assert(next[j] == before[j + 1]);
                assert(behind[i] == after[i + 1]);
            }
        }
        requests_follow_each_other(
            next,
            behind,
            found.skip(1),
            key,
            config,
            times.skip(1),
            steps.skip(1),
        );
        admitted_of_ignores_memory(
            after[0],
            before[1],
            key,
            left,
            config,
            as_nats(times.skip(1)),
        );
    }
}

impl<C> LimiterView<C> {
    /// The counter that a lookup of `key` comes to, where Redis holds `stored` under it.
    pub open spec fn kept(self, key: Seq<char>, stored: Option<EntityView>) -> Option<EntityView> {
        match self.lookup(key, self.acceptable, 0) {
            LookupView::Ready(found) => found,
            LookupView::Fetch(_) => stored,
        }
    }

    /// The limiter once it has looked up the counter of `key` at `now`, where Redis holds
    /// `stored` under it.
    pub open spec fn looked_into(
        self,
        key: Seq<char>,
        stored: Option<EntityView>,
        now: nat,
    ) -> Self {
        match self.lookup(key, self.acceptable, now) {
            LookupView::Ready(_) => self,
            LookupView::Fetch(fetch) => self.fetched(fetch, stored),
        }
    }
}

/// What Redis holds under the key of a request behind its step, given it held `stored` before.
pub open spec fn stored_after(stored: Option<EntityView>, step: LimitStepView) -> Option<
    EntityView,
> {
    match step {
        LimitStepView::Store(store, _) => Some(store.entity),
        _ => stored,
    }
}

/// Whether these are requests on one key, one after the other, from the lookup of the counter,
/// at one time of the clock, to the step, at two more: the limiter before and behind each, and
/// what Redis holds under the key before each. Redis gives back what it was last asked to store.
/// In between, other counters in memory may change.
pub open spec fn storage_run<C>(
    before: Seq<LimiterView<C>>,
    after: Seq<LimiterView<C>>,
    stored: Seq<Option<EntityView>>,
    key: Seq<char>,
    config: BucketConfigView,
    lookups: Seq<u64>,
    times: Seq<(u64, u64)>,
    steps: Seq<LimitStepView>,
) -> bool {
    &&& before.len() == after.len() == stored.len() == times.len() == steps.len()
    &&& lookups.len() == steps.len()
    &&& forall|i: int|
        0 <= i < steps.len() ==> (#[trigger] before[i]).looked_into(
            key,
            stored[i],
            lookups[i] as nat,
        ).limited_at(
            key,
            before[i].kept(key, stored[i]),
            config,
            times[i].0,
            times[i].1,
            after[i],
            Some(steps[i]),
        )
    &&& forall|i: int, j: int|
        0 <= i && j == i + 1 && j < steps.len() ==> {
            &&& #[trigger] before[j] == (#[trigger] after[i]).with_memory(before[j].memory)
            &&& before[j].memory.get(key) == after[i].memory.get(key)
            &&& stored[j] == stored_after(stored[i], steps[i])
        }
}

/// In every storage a lookup comes to what the request before it left.
pub proof fn storage_reads_back<C>(
    limiter: LimiterView<C>,
    key: Seq<char>,
    stored: Option<EntityView>,
    config: BucketConfigView,
    lookup: nat,
    now: nat,
    update_now: nat,
)
    ensures
        ({
            let found = limiter.kept(key, stored);
            let examined = limiter.looked_into(key, stored, lookup);
            let (after, step) = examined.limit(key, found, config, now, update_now);
            after.kept(key, stored_after(stored, step)) == examined.left(
                key,
                found,
                config,
                now,
                update_now,
            )
        }),
{
}

/// In every storage, requests find what the ones before them left: as many are admitted as the
/// laws on cycles say.
pub proof fn storage_requests_follow_each_other<C>(
    before: Seq<LimiterView<C>>,
    after: Seq<LimiterView<C>>,
    stored: Seq<Option<EntityView>>,
    key: Seq<char>,
    config: BucketConfigView,
    lookups: Seq<u64>,
    times: Seq<(u64, u64)>,
    steps: Seq<LimitStepView>,
)
    requires
        storage_run(before, after, stored, key, config, lookups, times, steps),
        steps.len() > 0,
    ensures
        admitting(steps) == before[0].admitted_of(
            key,
            before[0].kept(key, stored[0]),
            config,
            as_nats(times),
        ),
{
    let found = Seq::new(steps.len(), |i: int| before[i].kept(key, stored[i]));
    let examined = Seq::new(
        steps.len(),
        |i: int| before[i].looked_into(key, stored[i], lookups[i] as nat),
    );
    assert(run(examined, after, found, key, config, times, steps)) by {
        assert forall|i: int| 0 <= i < steps.len() implies (#[trigger] examined[i]).limited_at(
            key,
            found[i],
            config,
            times[i].0,
            times[i].1,
            after[i],
            Some(steps[i]),
        ) by {
            assert(before[i] == before[i]);
        }
        assert forall|i: int, j: int| 0 <= i && j == i + 1 && j < steps.len() implies {
            &&& #[trigger] examined[j] == (#[trigger] after[i]).with_memory(examined[j].memory)
            &&& found[j] == examined[i].left(
                key,
                found[i],
                config,
                times[i].0 as nat,
                times[i].1 as nat,
            )
        } by {
            assert(before[j] == after[i].with_memory(before[j].memory));
            assert(examined[i].limited_at(
                key,
                found[i],
                config,
                times[i].0,
                times[i].1,
                after[i],
                Some(steps[i]),
            ));
            storage_reads_back(
                before[i],
                key,
                stored[i],
                config,
                lookups[i] as nat,
                times[i].0 as nat,
                times[i].1 as nat,
            );
        }
    }
    requests_follow_each_other(examined, after, found, key, config, times, steps);
    admitted_of_ignores_memory(before[0], examined[0], key, found[0], config, as_nats(times));
}

/// In every storage a bucket admits its maximum of requests per cycle, the one that opens the
/// cycle among them, and no more. This is the first cycle of an entity, for which there is room.
pub proof fn first_cycle_is_limited<C>(
    before: Seq<LimiterView<C>>,
    after: Seq<LimiterView<C>>,
    stored: Seq<Option<EntityView>>,
    key: Seq<char>,
    config: BucketConfigView,
    lookups: Seq<u64>,
    times: Seq<(u64, u64)>,
    steps: Seq<LimitStepView>,
)
    requires
        storage_run(before, after, stored, key, config, lookups, times, steps),
        steps.len() > 0,
        before[0].kept(key, stored[0]) is None,
        !before[0].is_full(),
        forall|i: int|
            0 <= i < times.len() ==> (#[trigger] times[i]).0 <= times[0].0 + config.cycle_millis(),
    ensures
        admitting(steps) == at_most(steps.len(), config.max_requests_per_cycle),
{
    storage_requests_follow_each_other(
        before,
        after,
        stored,
        key,
        config,
        lookups,
        times,
        steps,
    );
    let (now, update_now) = as_nats(times)[0];
    let rest = as_nats(times).skip(1);
    assert(seq![(now, update_now)] + rest == as_nats(times));
    assert forall|i: int| 0 <= i < rest.len() implies (#[trigger] rest[i]).0 <= config.fresh(
        config.limit_by,
        now,
    ).expires_at by {
        assert(rest[i].0 == times[i + 1].0);
    }
    first_cycle_admits_the_maximum(before[0], key, config, now, update_now, rest);
}

/// In every storage the same holds of a cycle that follows one that has ended. A bucket whose
/// maximum is nothing opens no cycle, so there what the counter has left must be nothing, or stay
/// in the past.
pub proof fn next_cycle_is_limited<C>(
    before: Seq<LimiterView<C>>,
    after: Seq<LimiterView<C>>,
    stored: Seq<Option<EntityView>>,
    key: Seq<char>,
    config: BucketConfigView,
    lookups: Seq<u64>,
    times: Seq<(u64, u64)>,
    steps: Seq<LimitStepView>,
    ended: EntityView,
)
    requires
        storage_run(before, after, stored, key, config, lookups, times, steps),
        steps.len() > 0,
        before[0].kept(key, stored[0]) == Some(ended),
        times[0].0 > ended.expires_at,
        forall|i: int|
            0 <= i < times.len() ==> (#[trigger] times[i]).0 <= times[0].1 + config.cycle_millis(),
        config.max_requests_per_cycle == 0 ==> ended.remaining == 0 || ended.ended_before(
            as_nats(times),
        ),
    ensures
        admitting(steps) == at_most(steps.len(), config.max_requests_per_cycle),
{
    storage_requests_follow_each_other(
        before,
        after,
        stored,
        key,
        config,
        lookups,
        times,
        steps,
    );
    let (now, update_now) = as_nats(times)[0];
    let rest = as_nats(times).skip(1);
    assert(seq![(now, update_now)] + rest == as_nats(times));
    assert forall|i: int| 0 <= i < rest.len() implies (#[trigger] rest[i]).0 <= config.fresh(
        ended.entity_type,
        update_now,
    ).expires_at by {
        assert(rest[i].0 == times[i + 1].0);
    }
    if ended.ended_before(as_nats(times)) {
        assert forall|i: int| 0 <= i < rest.len() implies (#[trigger] rest[i]).0
            > ended.expires_at by {
            assert(rest[i] == as_nats(times)[i + 1]);
        }
    }
    next_cycle_admits_the_maximum(before[0], key, ended, config, now, update_now, rest);
}

/// A request after the end of a cycle opens a new one: it is told of the whole supply but for
/// itself, and of the end of the cycle. It is refused exactly if the supply is nothing.
pub proof fn ended_cycle_is_refilled<C>(
    limiter: LimiterView<C>,
    key: Seq<char>,
    entity: EntityView,
    config: BucketConfigView,
    now: nat,
    update_now: nat,
)
    requires
        now > entity.expires_at,
    ensures
        ({
            let step = limiter.limit(key, Some(entity), config, now, update_now).1;
            &&& step == LimitStepView::Done(Err(LimiterError::Limited))
                <==> config.max_requests_per_cycle == 0
            &&& step.admits() <==> config.max_requests_per_cycle > 0
            &&& step.admits() ==> {
                &&& step.told().limit == config.max_requests_per_cycle
                &&& step.told().remaining == config.max_requests_per_cycle - 1
                &&& step.told().reset == update_now + config.cycle_millis()
            }
        }),
{
}

/// A first request is told of the whole supply but for itself, and of the end of the cycle that
/// it opens.
pub proof fn first_request_is_charged<C>(
    limiter: LimiterView<C>,
    key: Seq<char>,
    config: BucketConfigView,
    now: nat,
    update_now: nat,
)
    ensures
        ({
            let step = limiter.limit(key, None, config, now, update_now).1;
            step.admits() ==> {
                &&& step.told().limit == config.max_requests_per_cycle
                &&& step.told().remaining == config.max_requests_per_cycle - 1
                &&& step.told().reset == now + config.cycle_millis()
            }
        }),
{
}

/// Within a cycle, a request is refused for its rate exactly if nothing is left. One that is
/// admitted takes one of what is left, and the end of the cycle stays where it is.
pub proof fn limited_if_nothing_is_left<C>(
    limiter: LimiterView<C>,
    key: Seq<char>,
    entity: EntityView,
    config: BucketConfigView,
    now: nat,
    update_now: nat,
)
    requires
        now <= entity.expires_at,
    ensures
        ({
            let step = limiter.limit(key, Some(entity), config, now, update_now).1;
            &&& step == LimitStepView::Done(Err(LimiterError::Limited)) <==> entity.remaining == 0
            &&& step.admits() <==> entity.remaining > 0
            &&& step.admits() ==> {
                &&& step.told().limit == entity.initial_supply
                &&& step.told().remaining == entity.remaining - 1
                &&& step.told().reset == entity.expires_at
            }
        }),
{
}

/// Each refusal has its reason. A request is refused for its rate exactly if its counter has
/// nothing left in its cycle, or if it would open a cycle of a bucket whose maximum is nothing. It
/// is refused for want of room exactly if it has no counter and no storage has room for one.
pub proof fn refusals_have_reasons<C>(
    limiter: LimiterView<C>,
    key: Seq<char>,
    found: Option<EntityView>,
    config: BucketConfigView,
    now: nat,
    update_now: nat,
)
    ensures
        ({
            let step = limiter.limit(key, found, config, now, update_now).1;
            let empty = match found {
                Some(entity) if now <= entity.expires_at => entity.remaining == 0,
                Some(_) => config.max_requests_per_cycle == 0,
                None => config.max_requests_per_cycle == 0 && !limiter.is_full(),
            };
            &&& step == LimitStepView::Done(Err(LimiterError::Limited)) <==> empty
            &&& step == LimitStepView::Done(Err(limiter.full_error())) <==> found is None
                && limiter.is_full()
            &&& step.admits() <==> !empty && !(found is None && limiter.is_full())
        }),
{
}

/// A refused request changes nothing.
pub proof fn refusal_changes_nothing<C>(
    limiter: LimiterView<C>,
    key: Seq<char>,
    found: Option<EntityView>,
    config: BucketConfigView,
    now: nat,
    update_now: nat,
)
    requires
        !limiter.limit(key, found, config, now, update_now).1.admits(),
    ensures
        limiter.limit(key, found, config, now, update_now).0 == limiter,
        limiter.left(key, found, config, now, update_now) == found,
{
}

/// A request on one key leaves the counters of all others as they are.
pub proof fn other_keys_are_untouched<C>(
    limiter: LimiterView<C>,
    key: Seq<char>,
    other: Seq<char>,
    found: Option<EntityView>,
    config: BucketConfigView,
    now: nat,
    update_now: nat,
)
    requires
        other != key,
    ensures
        limiter.limit(key, found, config, now, update_now).0.memory.get(other)
            == limiter.memory.get(other),
        limiter.limit(key, found, config, now, update_now).1 matches LimitStepView::Store(store, _)
            ==> store.key == key,
{
}

/// Reading a counter of one key from Redis leaves the counters of all others as they are.
pub proof fn fetch_leaves_other_keys<C>(
    limiter: LimiterView<C>,
    fetch: RedisFetchView,
    other: Seq<char>,
    found: Option<EntityView>,
)
    requires
        other != fetch.key,
    ensures
        limiter.fetched(fetch, found).memory.get(other) == limiter.memory.get(other),
{
}

/// Limiting changes counters, never a setting.
pub proof fn settings_are_kept<C>(
    limiter: LimiterView<C>,
    key: Seq<char>,
    found: Option<EntityView>,
    config: BucketConfigView,
    now: nat,
    update_now: nat,
)
    ensures
        ({
            let after = limiter.limit(key, found, config, now, update_now).0;
            after == limiter.with_memory(after.memory)
        }),
{
}

/// An admitted request is told what its counter holds for the next one.
pub proof fn headers_tell_the_counter<C>(
    limiter: LimiterView<C>,
    key: Seq<char>,
    found: Option<EntityView>,
    config: BucketConfigView,
    now: nat,
    update_now: nat,
)
    requires
        limiter.limit(key, found, config, now, update_now).1.admits(),
    ensures
        limiter.left(key, found, config, now, update_now) matches Some(entity) && limiter.limit(
            key,
            found,
            config,
            now,
            update_now,
        ).1.told() == config.headers(key, entity),
{
}

/// No counter ever holds more than its supply, if none does so before and none comes so from
/// Redis; and no request is told of more.
pub proof fn supply_is_never_exceeded<C>(
    limiter: LimiterView<C>,
    key: Seq<char>,
    found: Option<EntityView>,
    config: BucketConfigView,
    now: nat,
    update_now: nat,
)
    requires
        found matches Some(entity) ==> entity.within_supply(),
        forall|k: Seq<char>| #[trigger]
            limiter.memory.contains_key(k) ==> limiter.memory[k].within_supply(),
    ensures
        ({
            let (after, step) = limiter.limit(key, found, config, now, update_now);
            &&& forall|k: Seq<char>| #[trigger]
                after.memory.contains_key(k) ==> after.memory[k].within_supply()
            &&& step matches LimitStepView::Store(store, _) ==> store.entity.within_supply()
            &&& step.admits() ==> step.told().remaining <= step.told().limit
        }),
{
}

/// What a request leaves in memory is what it has Redis store. Here the counter that is kept in
/// memory, if any, is the one that the request found.
pub proof fn memory_agrees_with_redis<C>(
    limiter: LimiterView<C>,
    key: Seq<char>,
    found: Option<EntityView>,
    config: BucketConfigView,
    now: nat,
    update_now: nat,
)
    requires
        limiter.storage_type is RedisAndMemoryMix,
        limiter.memory.contains_key(key) ==> found == Some(limiter.memory[key]),
    ensures
        ({
            let (after, step) = limiter.limit(key, found, config, now, update_now);
            step matches LimitStepView::Store(store, _) ==> (after.memory.contains_key(key)
                ==> after.memory[key] == store.entity)
        }),
{
}

/// A counter that a request leaves in memory is found there by the next lookup.
pub proof fn memory_reads_back<C>(
    limiter: LimiterView<C>,
    key: Seq<char>,
    found: Option<EntityView>,
    config: BucketConfigView,
    now: nat,
    update_now: nat,
    later: nat,
)
    requires
        limiter.storage_type is InMemory,
        found == limiter.memory.get(key),
    ensures
        ({
            let after = limiter.limit(key, found, config, now, update_now).0;
            after.lookup(key, after.acceptable, later) == LookupView::Ready(
                limiter.left(key, found, config, now, update_now),
            )
        }),
{
}

/// In mixed storage, the next lookup finds in memory what the request left, or asks Redis for
/// it; there is no third.
pub proof fn mixed_storage_reads_back<C>(
    limiter: LimiterView<C>,
    key: Seq<char>,
    found: Option<EntityView>,
    config: BucketConfigView,
    now: nat,
    update_now: nat,
    later: nat,
)
    requires
        limiter.storage_type is RedisAndMemoryMix,
        limiter.memory.contains_key(key) ==> found == Some(limiter.memory[key]),
    ensures
        ({
            let after = limiter.limit(key, found, config, now, update_now).0;
            match after.lookup(key, after.acceptable, later) {
                LookupView::Ready(kept) => kept == limiter.left(key, found, config, now, update_now),
                LookupView::Fetch(fetch) => fetch.key == key,
            }
        }),
{
}

/// In mixed storage, a counter that a request finds longer than the acceptable time after its
/// last access leaves memory, and stays in Redis, charged and accessed like any other.
pub proof fn idle_counter_moves_to_redis<C>(
    limiter: LimiterView<C>,
    key: Seq<char>,
    entity: EntityView,
    config: BucketConfigView,
    now: nat,
    update_now: nat,
)
    requires
        limiter.storage_type is RedisAndMemoryMix,
        now <= entity.expires_at,
        entity.remaining > 0,
        update_now - entity.last_accessed_at > crate::time::timestamp_millis(limiter.acceptable),
    ensures
        ({
            let (after, step) = limiter.limit(key, Some(entity), config, now, update_now);
            &&& !after.memory.contains_key(key)
            &&& step matches LimitStepView::Store(store, headers) && store.entity == entity.charged()
                .accessed(update_now) && headers == config.headers(key, store.entity)
        }),
{
}

/// In mixed storage, a counter that comes from Redis is kept in memory exactly if it was
/// accessed within the acceptable time and its cycle has not ended.
pub proof fn recent_counter_is_kept_in_memory<C>(
    limiter: LimiterView<C>,
    fetch: RedisFetchView,
    entity: EntityView,
)
    requires
        limiter.storage_type is RedisAndMemoryMix,
        !limiter.memory.contains_key(fetch.key),
    ensures
        limiter.fetched(fetch, Some(entity)).memory.contains_key(fetch.key) <==> fetch.now
            < entity.last_accessed_at + crate::time::timestamp_millis(fetch.acceptable) && fetch.now
            < entity.expires_at,
{
}

/// In mixed storage, a counter that is charged within the acceptable time stays in memory, and
/// the charge starts that time anew.
pub proof fn charge_restarts_idle_time<C>(
    limiter: LimiterView<C>,
    key: Seq<char>,
    entity: EntityView,
    config: BucketConfigView,
    now: nat,
    update_now: nat,
)
    requires
        limiter.storage_type is RedisAndMemoryMix,
        now <= entity.expires_at,
        entity.remaining > 0,
        update_now - entity.last_accessed_at <= crate::time::timestamp_millis(limiter.acceptable),
    ensures
        ({
            let (after, step) = limiter.limit(key, Some(entity), config, now, update_now);
            &&& after.memory.get(key) == Some(entity.charged().accessed(update_now))
            &&& step matches LimitStepView::Store(store, _) && store.entity == after.memory[key]
            &&& forall|later: nat|
                after.little_demanded(after.memory[key], later) <==> later > update_now
                    + crate::time::timestamp_millis(limiter.acceptable)
        }),
{
}

/// A first request is refused exactly if every storage that would keep its counter is over its
/// limit, and then with the error of that storage, or if there is room but the bucket's maximum is
/// nothing.
pub proof fn first_request_needs_room<C>(
    limiter: LimiterView<C>,
    key: Seq<char>,
    config: BucketConfigView,
    now: nat,
    update_now: nat,
)
    ensures
        ({
            let (after, step) = limiter.limit(key, None, config, now, update_now);
            let full = match limiter.storage_type {
                StorageType::Redis => limiter.redis_exceeded(),
                StorageType::InMemory => limiter.memory_exceeded(),
                StorageType::RedisAndMemoryMix => limiter.redis_exceeded()
                    && limiter.memory_exceeded(),
            };
            let error = match limiter.storage_type {
                StorageType::Redis => LimiterError::RedisMemoryExceeded,
                StorageType::InMemory => LimiterError::MemoryLimitExceeded,
                StorageType::RedisAndMemoryMix => LimiterError::BothMemoryAndRedisMemoryExceeded,
            };
            &&& step.admits() <==> !full && config.max_requests_per_cycle > 0
            &&& step == LimitStepView::Done(Err(error)) <==> full
            &&& step == LimitStepView::Done(Err(LimiterError::Limited)) <==> !full
                && config.max_requests_per_cycle == 0
            &&& step is Store ==> !limiter.redis_exceeded()
            &&& after.memory != limiter.memory ==> !limiter.memory_exceeded()
        }),
{
}

/// A limiter without limits on memory admits every first request, unless the bucket's maximum is
/// nothing.
pub proof fn unlimited_storage_admits_first_requests<C>(
    limiter: LimiterView<C>,
    key: Seq<char>,
    config: BucketConfigView,
    now: nat,
    update_now: nat,
)
    requires
        limiter.max_memory_size is None,
        limiter.max_redis_size is None,
        config.max_requests_per_cycle > 0,
    ensures
        limiter.limit(key, None, config, now, update_now).1.admits(),
{
}

/// In-memory storage decides every request at once, without Redis, unless a cycle would end
/// beyond what a timestamp can hold.
pub proof fn memory_decides_at_once<C>(
    limiter: LimiterView<C>,
    key: Seq<char>,
    config: BucketConfigView,
    after: LimiterView<C>,
    step: Option<LimitStepView>,
)
    requires
        limiter.storage_type is InMemory,
        limiter.started(key, config, after, step),
    ensures
        step matches Some(step) ==> step is Done,
        config.cycle_fits(crate::time::MAX_TIMESTAMP as nat) ==> step is Some,
{
}

/// Redis storage keeps nothing in memory: no request changes the limiter.
pub proof fn redis_storage_keeps_nothing<C>(
    limiter: LimiterView<C>,
    key: Seq<char>,
    found: Option<EntityView>,
    config: BucketConfigView,
    now: nat,
    update_now: nat,
)
    requires
        limiter.storage_type is Redis,
    ensures
        limiter.limit(key, found, config, now, update_now).0 == limiter,
{
}

/// The line of a report that gives the memory that Redis uses.
pub open spec fn used_memory_line(bytes: nat) -> Seq<char> {
    "used_memory:"@ + crate::text::decimal(bytes)
}

/// Redis is understood to use as many bytes as its report says in the last line on it.
pub proof fn reported_memory_is_read(
    earlier: Seq<Seq<char>>,
    later: Seq<Seq<char>>,
    bytes: usize,
)
    requires
        forall|i: int|
            0 <= i < later.len() ==> (crate::storage::field(#[trigger] later[i]) matches Some(
                (name, _),
            ) ==> name != "used_memory"@),
    ensures
        crate::storage::used_memory(
            crate::storage::fields(earlier.push(used_memory_line(bytes as nat)) + later),
        ) == Ok::<usize, LimiterError>(bytes),
    decreases later.len(),
{
    let line = used_memory_line(bytes as nat);
    let digits = crate::text::decimal(bytes as nat);
    let all = earlier.push(line) + later;
    if later.len() == 0 {
        reveal_strlit("used_memory");
        reveal_strlit("used_memory:");
        crate::text::decimal_denotes(bytes as nat);
        crate::text::unsigned_reads_decimal(bytes as nat);
        assert forall|i: int| 0 <= i < 11 implies line[i] != ':' by {
            assert(line[i] == "used_memory:"@[i]);
        }
        assert(line[11] == ':');
        crate::text::first_is_find(line, ':', 11);
        assert(line.skip(12) == digits);
        assert forall|i: int| 0 <= i < digits.len() implies digits[i] != ':' by {
            assert(crate::text::is_digit(digits[i]));
        }
        crate::text::first_is_find(digits, ':', digits.len() as int);
        assert(line.take(11) == "used_memory"@);
        assert(all == earlier.push(line));
        assert(all.drop_last() == earlier);
        assert(all.last() == line);
    } else {
        reported_memory_is_read(earlier, later.drop_last(), bytes);
        assert(all.drop_last() == earlier.push(line) + later.drop_last());
        assert(all.last() == later[later.len() - 1]);
    }
}

/// Below the range in which double precision rounds, a number is represented by itself.
pub proof fn small_numbers_are_exact(n: nat)
    requires
        n < crate::memory_check::EXACT,
    ensures
        crate::memory_check::in_double(n) == n,
{
    assert(crate::memory_check::spacing(n) == 1);
    assert(n / 1 == n && n % 1 == 0);
}

/// Below the range in which double precision rounds, the whole megabytes are exact.
pub proof fn megabytes_are_exact(bytes: nat)
    requires
        bytes < crate::memory_check::EXACT,
    ensures
        crate::memory_check::megabytes(bytes) == bytes / 0x10_0000,
{
    small_numbers_are_exact(bytes);
}

/// Where the recorded usage is over a limit, the check has found the limit exceeded.
pub proof fn recorded_excess_is_reported(bytes: nat, max: u64)
    requires
        max < crate::memory_check::EXACT,
        crate::memory_check::megabytes(bytes) > max,
    ensures
        crate::memory_check::exceeds(bytes, Some(max)),
{
    small_numbers_are_exact(max as nat);
}

/// A round of checks renews the figure for the counters in memory, whatever Redis reported, and
/// changes no counter and no setting.
pub proof fn round_renews_memory_figure<C>(
    limiter: LimiterView<C>,
    redis_usage: Option<Result<usize, LimiterError>>,
    capacity: nat,
)
    requires
        limiter.storage_type !is Redis,
        crate::memory_check::approx_bytes::<String, Entity>(limiter.memory.len(), capacity)
            <= usize::MAX,
    ensures
        ({
            let bytes = crate::memory_check::approx_bytes::<String, Entity>(
                limiter.memory.len(),
                capacity,
            );
            let (after, report) = limiter.checked(redis_usage, capacity);
            &&& after.current_memory_usage_mb as nat == crate::memory_check::megabytes(bytes)
            &&& report.memory == Some(
                Usage {
                    bytes: bytes as usize,
                    exceeded: crate::memory_check::exceeds(bytes, limiter.max_memory_size),
                },
            )
            &&& after == (LimiterView {
                current_redis_memory_usage_mb: after.current_redis_memory_usage_mb,
                current_memory_usage_mb: after.current_memory_usage_mb,
                ..limiter
            })
        }),
{
    crate::memory_check::megabytes_fit(
        crate::memory_check::approx_bytes::<String, Entity>(limiter.memory.len(), capacity),
    );
}

/// A round of checks writes the figure for Redis exactly if Redis was to be asked and its report
/// succeeded: a report that failed leaves it, and in-memory storage never has it written.
pub proof fn round_writes_redis_figure_on_success<C>(
    limiter: LimiterView<C>,
    redis_usage: Option<Result<usize, LimiterError>>,
    capacity: nat,
)
    ensures
        ({
            let (after, report) = limiter.checked(redis_usage, capacity);
            match redis_usage {
                Some(Ok(bytes)) if limiter.storage_type !is InMemory && limiter.redis_conn is Some => {
                    &&& after.current_redis_memory_usage_mb as nat
                        == crate::memory_check::megabytes(bytes as nat)
                    &&& report.redis == Some(
                        Ok::<Usage, LimiterError>(
                            Usage {
                                bytes,
                                exceeded: crate::memory_check::exceeds(
                                    bytes as nat,
                                    limiter.max_redis_size,
                                ),
                            },
                        ),
                    )
                },
                _ => after.current_redis_memory_usage_mb == limiter.current_redis_memory_usage_mb,
            }
        }),
{
    if let Some(Ok(bytes)) = redis_usage {
        crate::memory_check::megabytes_fit(bytes as nat);
    }
}

/// Of several settings of one thing the last one counts, whatever else is set and in whatever
/// order.
pub proof fn last_setting_counts<C>(
    before: Seq<Setting<C>>,
    setting: Setting<C>,
    after: Seq<Setting<C>>,
)
    requires
        forall|i: int| 0 <= i < after.len() ==> !setting.same_thing(#[trigger] after[i]),
    ensures
        setting.holds_in(
            crate::builder::built(crate::builder::settings_made(before.push(setting) + after)),
        ),
    decreases after.len(),
{
    let all = before.push(setting) + after;
    if after.len() == 0 {
        assert(all == before.push(setting));
        assert(all.drop_last() == before);
    } else {
        last_setting_counts(before, setting, after.drop_last());
        assert(all.drop_last() == before.push(setting) + after.drop_last());
        assert(all.last() == after[after.len() - 1]);
    }
}

/// What is not set is as in a limiter that is built without settings.
pub proof fn unset_is_default<C>(settings: Seq<Setting<C>>)
    ensures
        ({
            let limiter = crate::builder::built(crate::builder::settings_made(settings));
            let default = crate::builder::built(crate::builder::no_settings::<C>());
            &&& (forall|i: int| 0 <= i < settings.len() ==> (#[trigger] settings[i]) !is StorageType)
                ==> limiter.storage_type == default.storage_type
            &&& (forall|i: int| 0 <= i < settings.len() ==> (#[trigger] settings[i]) !is RedisConn)
                ==> limiter.redis_conn == default.redis_conn
            &&& (forall|i: int|
                0 <= i < settings.len() ==> (#[trigger] settings[i]) !is MaxMemorySize)
                ==> limiter.max_memory_size == default.max_memory_size
            &&& (forall|i: int|
                0 <= i < settings.len() ==> (#[trigger] settings[i]) !is MaxRedisSize)
                ==> limiter.max_redis_size == default.max_redis_size
            &&& (forall|i: int| 0 <= i < settings.len() ==> (#[trigger] settings[i]) !is Acceptable)
                ==> limiter.acceptable == default.acceptable
            &&& limiter == (LimiterView {
                storage_type: limiter.storage_type,
                redis_conn: limiter.redis_conn,
                max_memory_size: limiter.max_memory_size,
                max_redis_size: limiter.max_redis_size,
                acceptable: limiter.acceptable,
                ..default
            })
        }),
    decreases settings.len(),
{
    if settings.len() > 0 {
        let earlier = settings.drop_last();
        unset_is_default(earlier);
        assert(forall|i: int| 0 <= i < earlier.len() ==> #[trigger] earlier[i] == settings[i]);
        assert(settings.last() == settings[settings.len() - 1]);
    }
}

/// The order in which different things are set does not matter.
pub proof fn order_of_settings_does_not_matter<C>(
    before: Seq<Setting<C>>,
    one: Setting<C>,
    other: Setting<C>,
    after: Seq<Setting<C>>,
)
    requires
        !one.same_thing(other),
    ensures
        crate::builder::settings_made(before.push(one).push(other) + after)
            == crate::builder::settings_made(before.push(other).push(one) + after),
    decreases after.len(),
{
    let these = before.push(one).push(other) + after;
    let those = before.push(other).push(one) + after;
    if after.len() == 0 {
        assert(these == before.push(one).push(other));
        assert(those == before.push(other).push(one));
        assert(these.drop_last() == before.push(one));
        assert(those.drop_last() == before.push(other));
        assert(before.push(one).drop_last() == before);
        assert(before.push(other).drop_last() == before);
        reveal_with_fuel(crate::builder::settings_made, 3);
    } else {
        order_of_settings_does_not_matter(before, one, other, after.drop_last());
        assert(these.drop_last() == before.push(one).push(other) + after.drop_last());
        assert(those.drop_last() == before.push(other).push(one) + after.drop_last());
        assert(these.last() == those.last());
    }
}

} // verus!
