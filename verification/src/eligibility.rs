//! The authorization cache: tenant identifier to eligibility, bounded in
//! size and in time.
//!
//! The store behind it is a `moka` cache. It forgets on its own: an entry
//! leaves when it has lived its time to live, when it has been idle for its
//! time to idle, or when room is needed. When that happens is decided by the
//! store's clock and replacement policy, which this crate does not model.
//! The contracts below therefore say what holds whenever it happens: every
//! operation may find fewer entries than the one before it left, never
//! others. What is set is held when `set` returns, unless the cache was made
//! with a limit of zero; how long it stays after that is for the store to
//! say. The cache is filled by its caller; it never asks the registry.

use moka::sync::Cache;
use std::time::Duration;
use vstd::prelude::*;

verus! {

/// What a cache holds: for some tenants, whether they are eligible.
pub type Entries = Map<Seq<char>, bool>;

/// Entries a cache of the reference deployment is bounded to.
pub const REFERENCE_CAPACITY: u64 = 10_000;

/// Seconds after which an entry of the reference deployment has expired,
/// however often it was read: 30 minutes.
pub const REFERENCE_TIME_TO_LIVE_SECS: u64 = 1_800;

/// Seconds without a read after which an entry of the reference deployment
/// has expired: 5 minutes.
pub const REFERENCE_TIME_TO_IDLE_SECS: u64 = 300;

/// The longest time to live or time to idle that the store takes: a
/// thousand years of 365 days, in seconds.
pub const LONGEST_EXPIRY_SECS: u64 = 31_536_000_000;

/// `moka::sync::Cache`, the store of the authorization cache.
#[verifier::external_type_specification]
#[verifier::external_body]
#[verifier::reject_recursive_types(K)]
#[verifier::reject_recursive_types(V)]
#[verifier::reject_recursive_types(S)]
pub struct ExCache<K, V, S>(Cache<K, V, S>);

/// The entries of a store: the pairs of its table as the last operation on
/// it left them, judged for expiry at that operation's own time stamp. `key`
/// is mapped to `v` exactly if the table held `v` for `key` then and neither
/// the time to live since its writing nor the time to idle since its last
/// reading had run out. What expires or is evicted afterwards is found
/// missing by the next operation, whose contract allows for it.
pub uninterp spec fn stored_entries(store: Cache<String, bool>) -> Entries;

/// The limits that a store was built with: its capacity in entries, its
/// time to live and its time to idle in seconds.
pub uninterp spec fn store_limits(store: Cache<String, bool>) -> (u64, u64, u64);

/// `Cache::builder()`, `max_capacity`, `time_to_live`, `time_to_idle` and
/// `build`. Claimed: the new store holds nothing and has the limits given.
/// `build` panics on an expiry above a thousand years, which `requires`
/// leaves out.
#[verifier::external_body]
fn store_build(max_capacity: u64, time_to_live_secs: u64, time_to_idle_secs: u64) -> (store: Cache<
    String,
    bool,
>)
    requires
        time_to_live_secs <= LONGEST_EXPIRY_SECS,
        time_to_idle_secs <= LONGEST_EXPIRY_SECS,
    ensures
        stored_entries(store) == no_entries(),
        store_limits(store) == (max_capacity, time_to_live_secs, time_to_idle_secs),
{
    Cache::builder()
        .max_capacity(max_capacity)
        .time_to_live(Duration::from_secs(time_to_live_secs))
        .time_to_idle(Duration::from_secs(time_to_idle_secs))
        .build()
}

/// `Cache::get`. Claimed: the store has gained nothing since it was last
/// looked at, and the answer is what it holds for the key now. Nothing is
/// claimed of which entries have left meanwhile.
#[verifier::external_body]
fn store_get(store: &mut Cache<String, bool>, key: &str) -> (hit: Option<bool>)
    ensures
        looked_up(stored_entries(*old(store)), key@, hit, stored_entries(*final(store))),
        store_limits(*final(store)) == store_limits(*old(store)),
{
    store.get(key)
}

/// `Cache::insert`. Claimed: afterwards the store holds nothing but what it
/// held before and the new entry, and for the key no value but the new one;
/// and it does hold the new entry, unless it was built with a capacity, a
/// time to live or a time to idle of zero. The call writes the table before
/// it queues its own operation, and the upkeep that it may run first passes
/// over an entry whose operation is not yet applied. A policy that turns the
/// entry away does so in a later run.
#[verifier::external_body]
fn store_insert(store: &mut Cache<String, bool>, key: String, value: bool)
    ensures
        stored(stored_entries(*old(store)), key@, value, stored_entries(*final(store))),
        keeps(store_limits(*old(store))) ==> lookup(stored_entries(*final(store)), key@) == Some(
            value,
        ),
        store_limits(*final(store)) == store_limits(*old(store)),
{
    store.insert(key, value)
}

/// `Cache::invalidate`. Claimed: afterwards the store holds nothing for the
/// key, and nothing that it did not hold before.
#[verifier::external_body]
fn store_invalidate(store: &mut Cache<String, bool>, key: &str)
    ensures
        invalidated(stored_entries(*old(store)), key@, stored_entries(*final(store))),
        store_limits(*final(store)) == store_limits(*old(store)),
{
    store.invalidate(key)
}

/// A store of these limits keeps what is written to it, for a while at
/// least: none of capacity, time to live and time to idle is zero.
pub open spec fn keeps(limits: (u64, u64, u64)) -> bool {
    limits.0 != 0 && limits.1 != 0 && limits.2 != 0
}

/// The map that holds nothing.
pub open spec fn no_entries() -> Entries {
    Map::empty()
}

/// Every entry of `part` is an entry of `whole`.
pub open spec fn within(part: Entries, whole: Entries) -> bool {
    forall|key: Seq<char>| #[trigger]
        part.contains_key(key) ==> whole.contains_key(key) && part[key] == whole[key]
}

/// What a lookup of `key` in `entries` answers.
pub open spec fn lookup(entries: Entries, key: Seq<char>) -> Option<bool> {
    if entries.contains_key(key) {
        Some(entries[key])
    } else {
        None
    }
}

/// A lookup of `key` that found `before` and left `after` answered `hit`.
pub open spec fn looked_up(before: Entries, key: Seq<char>, hit: Option<bool>, after: Entries) -> bool {
    &&& within(after, before)
    &&& hit == lookup(after, key)
}

/// Setting `key` to `eligible` led from `before` to `after`.
pub open spec fn stored(before: Entries, key: Seq<char>, eligible: bool, after: Entries) -> bool {
    within(after, before.insert(key, eligible))
}

/// Invalidating `key` led from `before` to `after`.
pub open spec fn invalidated(before: Entries, key: Seq<char>, after: Entries) -> bool {
    within(after, before.remove(key))
}

/// A tenant is eligible if at least one record of the registry references
/// it. `None` stands for a count without a number.
pub open spec fn eligible_count(count: Option<i64>) -> bool {
    count matches Some(n) && n > 0
}

/// Whether a count of the registry makes a tenant eligible.
pub fn is_eligible_count(count: Option<i64>) -> (eligible: bool)
    ensures
        eligible == eligible_count(count),
{
    match count {
        Some(n) => n > 0,
        None => false,
    }
}

/// The limits that a cache was made with.
struct Limits {
    max_capacity: u64,
    time_to_live_secs: u64,
    time_to_idle_secs: u64,
}

impl Limits {
    #[verifier::type_invariant]
    spec fn accepted(self) -> bool {
        &&& self.time_to_live_secs <= LONGEST_EXPIRY_SECS
        &&& self.time_to_idle_secs <= LONGEST_EXPIRY_SECS
    }
}

/// The authorization cache.
pub struct EligibilityCache {
    store: Cache<String, bool>,
    limits: Limits,
}

impl EligibilityCache {
    /// The entries that a lookup would find.
    pub closed spec fn entries(&self) -> Entries {
        stored_entries(self.store)
    }

    /// The limits on record are those that the store was built with. Every
    /// cache that this module hands out is so, and stays so.
    pub closed spec fn wf(&self) -> bool {
        store_limits(self.store) == (
            self.limits.max_capacity,
            self.limits.time_to_live_secs,
            self.limits.time_to_idle_secs,
        )
    }

    /// The cache keeps what is set, for a while at least: none of its
    /// limits is zero.
    pub open spec fn keeps_entries(&self) -> bool {
        keeps((self.capacity(), self.time_to_live(), self.time_to_idle()))
    }

    /// The number of entries that the cache is bounded to.
    pub closed spec fn capacity(&self) -> u64 {
        self.limits.max_capacity
    }

    /// Seconds after its insertion at which an entry has expired.
    pub closed spec fn time_to_live(&self) -> u64 {
        self.limits.time_to_live_secs
    }

    /// Seconds after its last read at which an entry has expired.
    pub closed spec fn time_to_idle(&self) -> u64 {
        self.limits.time_to_idle_secs
    }

    /// An empty cache with the limits of the reference deployment.
    pub fn new() -> (cache: Self)
        ensures
            cache.wf(),
            cache.keeps_entries(),
            cache.entries() == no_entries(),
            cache.capacity() == REFERENCE_CAPACITY,
            cache.time_to_live() == REFERENCE_TIME_TO_LIVE_SECS,
            cache.time_to_idle() == REFERENCE_TIME_TO_IDLE_SECS,
    {
        EligibilityCache {
            store: store_build(
                REFERENCE_CAPACITY,
                REFERENCE_TIME_TO_LIVE_SECS,
                REFERENCE_TIME_TO_IDLE_SECS,
            ),
            limits: Limits {
                max_capacity: REFERENCE_CAPACITY,
                time_to_live_secs: REFERENCE_TIME_TO_LIVE_SECS,
                time_to_idle_secs: REFERENCE_TIME_TO_IDLE_SECS,
            },
        }
    }

    /// An empty cache with limits of the caller's choice. There is none for
    /// an expiry beyond `LONGEST_EXPIRY_SECS`.
    pub fn with_limits(max_capacity: u64, time_to_live_secs: u64, time_to_idle_secs: u64) -> (cache:
        Option<Self>)
        ensures
            cache is Some <==> time_to_live_secs <= LONGEST_EXPIRY_SECS && time_to_idle_secs
                <= LONGEST_EXPIRY_SECS,
            cache matches Some(c) ==> {
                &&& c.wf()
                &&& c.entries() == no_entries()
                &&& c.capacity() == max_capacity
                &&& c.time_to_live() == time_to_live_secs
                &&& c.time_to_idle() == time_to_idle_secs
            },
    {
        if time_to_live_secs > LONGEST_EXPIRY_SECS || time_to_idle_secs > LONGEST_EXPIRY_SECS {
            return None;
        }
        Some(
            EligibilityCache {
                store: store_build(max_capacity, time_to_live_secs, time_to_idle_secs),
                limits: Limits { max_capacity, time_to_live_secs, time_to_idle_secs },
            },
        )
    }

    pub fn max_capacity(&self) -> (n: u64)
        ensures
            n == self.capacity(),
    {
        self.limits.max_capacity
    }

    pub fn time_to_live_secs(&self) -> (secs: u64)
        ensures
            secs == self.time_to_live(),
    {
        self.limits.time_to_live_secs
    }

    pub fn time_to_idle_secs(&self) -> (secs: u64)
        ensures
            secs == self.time_to_idle(),
    {
        self.limits.time_to_idle_secs
    }

    /// Looks a tenant up. `None` is a miss: the tenant was never set, was
    /// invalidated, or its entry has expired or was evicted.
    pub fn get(&mut self, tenant_id: &str) -> (hit: Option<bool>)
        requires
            old(self).wf(),
        ensures
            final(self).wf(),
            looked_up(old(self).entries(), tenant_id@, hit, final(self).entries()),
            final(self).same_limits(*old(self)),
    {
        store_get(&mut self.store, tenant_id)
    }

    /// Inserts or overwrites the entry of a tenant. On return the cache
    /// holds it, unless one of its limits is zero; how long it stays is for
    /// the store to say.
    pub fn set(&mut self, tenant_id: String, eligible: bool)
        requires
            old(self).wf(),
        ensures
            final(self).wf(),
            stored(old(self).entries(), tenant_id@, eligible, final(self).entries()),
            old(self).keeps_entries() ==> lookup(final(self).entries(), tenant_id@) == Some(
                eligible,
            ),
            final(self).same_limits(*old(self)),
    {
        store_insert(&mut self.store, tenant_id, eligible)
    }

    /// Fills the cache after a miss: sets the tenant to what the count of
    /// the registry makes of it, and returns that.
    pub fn remember_count(&mut self, tenant_id: String, count: Option<i64>) -> (eligible: bool)
        requires
            old(self).wf(),
        ensures
            final(self).wf(),
            eligible == eligible_count(count),
            stored(old(self).entries(), tenant_id@, eligible, final(self).entries()),
            old(self).keeps_entries() ==> lookup(final(self).entries(), tenant_id@) == Some(
                eligible,
            ),
            final(self).same_limits(*old(self)),
    {
        let eligible = is_eligible_count(count);
        self.set(tenant_id, eligible);
        eligible
    }

    /// Removes the entry of a tenant.
    pub fn invalidate(&mut self, tenant_id: &str)
        requires
            old(self).wf(),
        ensures
            final(self).wf(),
            invalidated(old(self).entries(), tenant_id@, final(self).entries()),
            final(self).same_limits(*old(self)),
    {
        store_invalidate(&mut self.store, tenant_id)
    }

    /// Removes every entry, by putting a new store of the same limits in
    /// the place of the old one. (The store's own bulk invalidation keeps an
    /// entry that was written in the very instant of the call.)
    pub fn invalidate_all(&mut self)
        ensures
            final(self).wf(),
            final(self).entries() == no_entries(),
            final(self).same_limits(*old(self)),
    {
        proof {
            use_type_invariant(&self.limits);
        }
        self.store = store_build(
            self.limits.max_capacity,
            self.limits.time_to_live_secs,
            self.limits.time_to_idle_secs,
        );
    }

    /// Both caches were made with the same limits.
    pub open spec fn same_limits(&self, other: Self) -> bool {
        &&& self.capacity() == other.capacity()
        &&& self.time_to_live() == other.time_to_live()
        &&& self.time_to_idle() == other.time_to_idle()
    }
}

/// One operation on a cache, with what it answered.
pub enum CacheOp {
    Lookup { key: Seq<char>, hit: Option<bool> },
    Store { key: Seq<char>, eligible: bool },
    Invalidate { key: Seq<char> },
    Flush,
}

impl CacheOp {
    /// The operation sets the entry of `key`.
    pub open spec fn sets(self, key: Seq<char>) -> bool {
        self matches CacheOp::Store { key: k, .. } && k == key
    }

    /// The operation removes the entry of `key`.
    pub open spec fn removes(self, key: Seq<char>) -> bool {
        self == (CacheOp::Invalidate { key }) || self == CacheOp::Flush
    }

    /// The operation looks `key` up.
    pub open spec fn reads(self, key: Seq<char>) -> bool {
        self matches CacheOp::Lookup { key: k, .. } && k == key
    }

    /// The operation led from `before` to `after`, as the contracts of
    /// `get`, `set`, `invalidate` and `invalidate_all` have it.
    pub open spec fn leads(self, before: Entries, after: Entries) -> bool {
        match self {
            CacheOp::Lookup { key, hit } => looked_up(before, key, hit, after),
            CacheOp::Store { key, eligible } => stored(before, key, eligible, after),
            CacheOp::Invalidate { key } => invalidated(before, key, after),
            CacheOp::Flush => after == no_entries(),
        }
    }
}

/// `ops` were applied to one cache in this order, which held `states[i]`
/// before `ops[i]` and `states[i + 1]` after it.
pub open spec fn history(states: Seq<Entries>, ops: Seq<CacheOp>) -> bool {
    &&& states.len() == ops.len() + 1
    &&& forall|i: int| 0 <= i < ops.len() ==> (#[trigger] ops[i]).leads(states[i], states[i + 1])
}

/// A lookup that directly follows the invalidation of the same tenant
/// misses, whatever the cache held before.
pub proof fn lemma_invalidate_then_get_misses(
    before: Entries,
    key: Seq<char>,
    between: Entries,
    hit: Option<bool>,
    after: Entries,
)
    requires
        invalidated(before, key, between),
        looked_up(between, key, hit, after),
    ensures
        hit is None,
{
}

/// No lookup after a flush finds anything that was not set since.
pub proof fn lemma_flush_then_get_misses(key: Seq<char>, hit: Option<bool>, after: Entries)
    requires
        looked_up(no_entries(), key, hit, after),
    ensures
        hit is None,
{
}

/// Once a tenant has been invalidated, by itself or with all others, it is
/// not reported again until it is set again: every lookup of it misses,
/// whatever was done to the cache meanwhile.
pub proof fn lemma_invalidated_stays_missing(
    states: Seq<Entries>,
    ops: Seq<CacheOp>,
    i: int,
    j: int,
    key: Seq<char>,
)
    requires
        history(states, ops),
        0 <= i < j < ops.len(),
        ops[i].removes(key),
        ops[j].reads(key),
        forall|m: int| i < m < j ==> !(#[trigger] ops[m]).sets(key),
    ensures
        ops[j]->hit is None,
{
    lemma_absent_until_set(states, ops, i, j, key);
    assert(ops[j].leads(states[j], states[j + 1]));
}

/// After an invalidation of `key` at `i`, the cache holds nothing for it
/// up to `j`, if it was not set between.
proof fn lemma_absent_until_set(
    states: Seq<Entries>,
    ops: Seq<CacheOp>,
    i: int,
    j: int,
    key: Seq<char>,
)
    requires
        history(states, ops),
        0 <= i < j <= ops.len(),
        ops[i].removes(key),
        forall|m: int| i < m < j ==> !(#[trigger] ops[m]).sets(key),
    ensures
        !states[j].contains_key(key),
    decreases j - i,
{
    if j == i + 1 {
        assert(ops[i].leads(states[i], states[i + 1]));
    } else {
        lemma_absent_until_set(states, ops, i, j - 1, key);
        assert(ops[j - 1].leads(states[j - 1], states[j]));
        assert(!ops[j - 1].sets(key));
    }
}

/// Repeated cycles of lookup and set for one tenant agree: as long as every
/// set of the tenant gives it the same value, every lookup of it answers
/// that value or misses, however many there are.
pub proof fn lemma_hits_agree_while_sets_agree(
    states: Seq<Entries>,
    ops: Seq<CacheOp>,
    i: int,
    j: int,
    key: Seq<char>,
    eligible: bool,
)
    requires
        history(states, ops),
        0 <= i < j < ops.len(),
        ops[i] == (CacheOp::Store { key, eligible }),
        ops[j].reads(key),
        forall|m: int|
            i < m < j && (#[trigger] ops[m]).sets(key) ==> ops[m] == (CacheOp::Store {
                key,
                eligible,
            }),
    ensures
        ops[j]->hit is None || ops[j]->hit == Some(eligible),
{
    lemma_holds_agreed_value(states, ops, i, j, key, eligible);
    assert(ops[j].leads(states[j], states[j + 1]));
}

/// What the authorization of a tenant answers: the cached value on a hit,
/// and on a miss what the count of the registry makes of the tenant.
pub open spec fn authorization(hit: Option<bool>, count: Option<i64>) -> bool {
    match hit {
        Some(eligible) => eligible,
        None => eligible_count(count),
    }
}

/// Repeated authorizations of one tenant agree: once the tenant was set to
/// what the registry makes of it, every later authorization answers the
/// same, by a hit or by counting again, as long as the registry does not
/// change its mind and every set of the tenant between was one of these.
pub proof fn lemma_repeated_authorization_agrees(
    states: Seq<Entries>,
    ops: Seq<CacheOp>,
    i: int,
    j: int,
    key: Seq<char>,
    count: Option<i64>,
)
    requires
        history(states, ops),
        0 <= i < j < ops.len(),
        ops[i] == (CacheOp::Store { key, eligible: eligible_count(count) }),
        ops[j].reads(key),
        forall|m: int|
            i < m < j && (#[trigger] ops[m]).sets(key) ==> ops[m] == (CacheOp::Store {
                key,
                eligible: eligible_count(count),
            }),
    ensures
        authorization(ops[j]->hit, count) == eligible_count(count),
{
    lemma_hits_agree_while_sets_agree(states, ops, i, j, key, eligible_count(count));
}

/// After `set(key, eligible)` at `i`, the cache holds that value for the
/// key or none, up to `j`, if every set of the key between gave the same.
proof fn lemma_holds_agreed_value(
    states: Seq<Entries>,
    ops: Seq<CacheOp>,
    i: int,
    j: int,
    key: Seq<char>,
    eligible: bool,
)
    requires
        history(states, ops),
        0 <= i < j <= ops.len(),
        ops[i] == (CacheOp::Store { key, eligible }),
        forall|m: int|
            i < m < j && (#[trigger] ops[m]).sets(key) ==> ops[m] == (CacheOp::Store {
                key,
                eligible,
            }),
    ensures
        states[j].contains_key(key) ==> states[j][key] == eligible,
    decreases j - i,
{
    if j == i + 1 {
        assert(ops[i].leads(states[i], states[i + 1]));
    } else {
        lemma_holds_agreed_value(states, ops, i, j - 1, key, eligible);
        assert(ops[j - 1].leads(states[j - 1], states[j]));
        if ops[j - 1].sets(key) {
            assert(ops[j - 1] == (CacheOp::Store { key, eligible }));
        }
    }
}

/// A cache that started empty invents nothing: whatever a lookup reports
/// was set before, for that tenant and with that value.
pub proof fn lemma_hit_was_set(states: Seq<Entries>, ops: Seq<CacheOp>, j: int, key: Seq<char>)
    requires
        history(states, ops),
        states[0] == no_entries(),
        0 <= j < ops.len(),
        ops[j].reads(key),
        ops[j]->hit is Some,
    ensures
        exists|i: int|
            0 <= i < j && #[trigger] ops[i] == (CacheOp::Store {
                key,
                eligible: ops[j]->hit->0,
            }),
{
    assert(ops[j].leads(states[j], states[j + 1]));
    lemma_held_was_set(states, ops, j, key);
}

/// What a cache that started empty holds for a key was set before.
proof fn lemma_held_was_set(states: Seq<Entries>, ops: Seq<CacheOp>, j: int, key: Seq<char>)
    requires
        history(states, ops),
        states[0] == no_entries(),
        0 <= j <= ops.len(),
        states[j].contains_key(key),
    ensures
        exists|i: int|
            0 <= i < j && #[trigger] ops[i] == (CacheOp::Store { key, eligible: states[j][key] }),
    decreases j,
{
    if j > 0 {
        assert(ops[j - 1].leads(states[j - 1], states[j]));
        if ops[j - 1] == (CacheOp::Store { key, eligible: states[j][key] }) {
        } else {
            assert(states[j - 1].contains_key(key) && states[j - 1][key] == states[j][key]);
            lemma_held_was_set(states, ops, j - 1, key);
        }
    }
}

} // verus!
