//! A small cache of search pages and item details, bounded in size, whose
//! entries expire ten minutes after they were stored.

use vstd::prelude::*;
use std::collections::VecDeque;

verus! {

/// The most entries the cache holds.
pub const CACHE_CAP: usize = 30;

/// How long an entry stays valid, in milliseconds.
pub const CACHE_TTL_MS: u64 = 600_000;

/// What the cache holds for a key: a page of search results or one detail.
pub enum CacheValue<M, D> {
    Page { models: Vec<M>, next: Option<String> },
    Detail(D),
}

/// One cached value with its key and the time it was stored, in milliseconds
/// of the cache's monotonic clock.
pub struct CacheEntry<M, D> {
    pub key: String,
    pub value: CacheValue<M, D>,
    pub inserted_at: u64,
}

#[verifier::external_type_specification]
#[verifier::external_body]
pub struct ExInstant(std::time::Instant);

/// The cache; the oldest entry comes first. Times are milliseconds of the
/// monotonic clock since `origin`, the moment the cache was made;
/// `clock_ms` is the latest such time the cache has read, and never goes
/// back.
pub struct SearchCache<M, D> {
    pub entries: VecDeque<CacheEntry<M, D>>,
    pub origin: std::time::Instant,
    pub clock_ms: u64,
}

/// Milliseconds elapsed from `t` to `now` (none if `now` is earlier).
pub open spec fn age(t: u64, now: u64) -> int {
    if now >= t { now - t } else { 0 }
}

/// Whether an entry stored at `t` is still valid at `now`.
pub open spec fn is_live(t: u64, now: u64) -> bool {
    age(t, now) < CACHE_TTL_MS
}

/// The entries of `s` still valid at `now`, in order.
pub open spec fn live_entries<M, D>(s: Seq<CacheEntry<M, D>>, now: u64) -> Seq<CacheEntry<M, D>>
    decreases s.len(),
{
    if s.len() == 0 {
        s
    } else {
        let r = live_entries(s.drop_last(), now);
        if is_live(s.last().inserted_at, now) { r.push(s.last()) } else { r }
    }
}

/// The entries of `s` whose key is not `key`, in order.
pub open spec fn other_keys<M, D>(s: Seq<CacheEntry<M, D>>, key: Seq<char>) -> Seq<CacheEntry<M, D>>
    decreases s.len(),
{
    if s.len() == 0 {
        s
    } else {
        let r = other_keys(s.drop_last(), key);
        if s.last().key@ == key { r } else { r.push(s.last()) }
    }
}

/// `s` with its oldest entry dropped when it is full.
pub open spec fn make_room<M, D>(s: Seq<CacheEntry<M, D>>) -> Seq<CacheEntry<M, D>> {
    if s.len() >= CACHE_CAP { s.drop_first() } else { s }
}

/// Index of the first entry of `s` with key `key`, or -1.
pub open spec fn index_of_key<M, D>(s: Seq<CacheEntry<M, D>>, key: Seq<char>) -> int
    decreases s.len(),
{
    if s.len() == 0 {
        -1
    } else if s[0].key@ == key {
        0
    } else {
        let r = index_of_key(s.drop_first(), key);
        if r < 0 { -1 } else { r + 1 }
    }
}

/// Every entry of `s` was stored at or before time `now`.
pub open spec fn stamped_before<M, D>(s: Seq<CacheEntry<M, D>>, now: u64) -> bool {
    forall|k: int| 0 <= k < s.len() ==> (#[trigger] s[k]).inserted_at <= now
}

/// No two entries share a key.
pub open spec fn keys_unique<M, D>(s: Seq<CacheEntry<M, D>>) -> bool {
    forall|i: int, j: int| 0 <= i < j < s.len() ==> s[i].key@ != s[j].key@
}

/// Calls `Instant::now`: a reading of the monotonic clock, of which
/// nothing is stated.
#[verifier::external_body]
fn instant_now() -> std::time::Instant {
    std::time::Instant::now()
}

/// Calls `Instant::elapsed` on `origin` and reads the duration as whole
/// milliseconds. The value depends on the clock, so nothing is stated of it.
#[verifier::external_body]
fn millis_since(origin: &std::time::Instant) -> u128 {
    origin.elapsed().as_millis()
}

impl<M, D> SearchCache<M, D> {
    /// An empty cache, its clock starting now.
    pub fn new() -> (r: Self)
        ensures
            r.entries@ == Seq::<CacheEntry<M, D>>::empty(),
            r.clock_ms == 0,
    {
        SearchCache { entries: VecDeque::with_capacity(CACHE_CAP), origin: instant_now(), clock_ms: 0 }
    }

    /// Milliseconds of the monotonic clock since the cache was made (the
    /// largest `u64` should that not fit).
    fn now_millis(&self) -> u64 {
        let m = millis_since(&self.origin);
        if m > 0xffff_ffff_ffff_ffffu128 { 0xffff_ffff_ffff_ffffu64 } else { m as u64 }
    }

    /// Reads the clock and records the reading as the cache's time, unless
    /// an earlier reading was later; returns the cache's time.
    fn tick(&mut self) -> (r: u64)
        ensures
            r == final(self).clock_ms,
            final(self).clock_ms >= old(self).clock_ms,
            final(self).entries@ == old(self).entries@,
    {
        let m = self.now_millis();
        if m > self.clock_ms {
            self.clock_ms = m;
        }
        self.clock_ms
    }

    /// Drops the entries that are no longer valid at time `now`.
    pub fn evict_expired(&mut self, now: u64)
        ensures
            final(self).entries@ == live_entries(old(self).entries@, now),
            final(self).clock_ms == old(self).clock_ms,
    {
        let ghost s = self.entries@;
        let ghost mut j: int = 0;
        let mut i: usize = 0;
        while i < self.entries.len()
            invariant
                0 <= i <= j <= s.len(),
                self.entries@.take(i as int) == live_entries(s.take(j), now),
                self.entries@.skip(i as int) == s.skip(j),
                self.entries@.len() - i == s.len() - j,
                self.clock_ms == old(self).clock_ms,
            decreases self.entries.len() - i,
        {
            assert(s.take(j + 1).drop_last() =~= s.take(j));
            assert(self.entries@[i as int] == s.skip(j)[0]);
            assert(s.skip(j)[0] == s[j]);
            let t = self.entries[i].inserted_at;
            let elapsed: u64 = if now >= t { now - t } else { 0 };
            if elapsed >= CACHE_TTL_MS {
                let ghost before = self.entries@;
                self.entries.remove(i);
                assert(self.entries@.take(i as int) =~= before.take(i as int));
                assert(self.entries@.skip(i as int) =~= before.skip(i + 1));
                assert(before.skip(i + 1) =~= before.skip(i as int).drop_first());
                assert(s.skip(j + 1) =~= s.skip(j).drop_first());
            } else {
                let ghost before = self.entries@;
                assert(self.entries@.take(i + 1) =~= before.take(i as int).push(s[j]));
                assert(self.entries@.skip(i + 1) =~= before.skip(i as int).drop_first());
                assert(s.skip(j + 1) =~= s.skip(j).drop_first());
                i = i + 1;
            }
            proof {
                j = j + 1;
            }
        }
        assert(s.take(j) =~= s);
        assert(self.entries@.take(i as int) =~= self.entries@);
    }

    /// Drops the entries that are no longer valid now: the cache's time is
    /// brought up to the clock, and an entry stays only if it was stored
    /// less than `CACHE_TTL_MS` before that time.
    pub fn evict(&mut self)
        ensures
            exists|now: u64| final(self).entries@ == live_entries(old(self).entries@, now),
            final(self).entries@ == live_entries(old(self).entries@, final(self).clock_ms),
            final(self).clock_ms >= old(self).clock_ms,
            stamped_before(old(self).entries@, old(self).clock_ms) ==> stamped_before(
                final(self).entries@,
                final(self).clock_ms,
            ),
    {
        let now = self.tick();
        let ghost before = self.entries@;
        self.evict_expired(now);
        proof {
            lemma_live_contains(before, now);
            if stamped_before(old(self).entries@, old(self).clock_ms) {
                assert forall|k: int| 0 <= k < self.entries@.len() implies (#[trigger] self.entries@[k]).inserted_at <= now by {
                    assert(before.contains(self.entries@[k]));
                    let q = choose|q: int| 0 <= q < before.len() && before[q] == self.entries@[k];
                    assert(before[q].inserted_at <= old(self).clock_ms);
                }
            }
        }
    }

    /// Removes every entry stored under `key`.
    fn remove_key(&mut self, key: &str)
        ensures
            final(self).entries@ == other_keys(old(self).entries@, key@),
            final(self).clock_ms == old(self).clock_ms,
    {
        let ghost s = self.entries@;
        let ghost mut j: int = 0;
        let mut i: usize = 0;
        while i < self.entries.len()
            invariant
                0 <= i <= j <= s.len(),
                self.entries@.take(i as int) == other_keys(s.take(j), key@),
                self.entries@.skip(i as int) == s.skip(j),
                self.entries@.len() - i == s.len() - j,
                self.clock_ms == old(self).clock_ms,
            decreases self.entries.len() - i,
        {
            assert(s.take(j + 1).drop_last() =~= s.take(j));
            assert(self.entries@[i as int] == s.skip(j)[0]);
            assert(s.skip(j)[0] == s[j]);
            if crate::text::str_eq(self.entries[i].key.as_str(), key) {
                let ghost before = self.entries@;
                self.entries.remove(i);
                assert(self.entries@.take(i as int) =~= before.take(i as int));
                assert(self.entries@.skip(i as int) =~= before.skip(i + 1));
                assert(before.skip(i + 1) =~= before.skip(i as int).drop_first());
                assert(s.skip(j + 1) =~= s.skip(j).drop_first());
            } else {
                let ghost before = self.entries@;
                assert(self.entries@.take(i + 1) =~= before.take(i as int).push(s[j]));
                assert(self.entries@.skip(i + 1) =~= before.skip(i as int).drop_first());
                assert(s.skip(j + 1) =~= s.skip(j).drop_first());
                i = i + 1;
            }
            proof {
                j = j + 1;
            }
        }
        assert(s.take(j) =~= s);
        assert(self.entries@.take(i as int) =~= self.entries@);
    }

    /// Stores `value` under `key` at time `now`: an older entry with that key
    /// is dropped, and when the cache is full its oldest entry goes too.
    pub fn insert_at(&mut self, key: String, value: CacheValue<M, D>, now: u64)
        ensures
            final(self).entries@ == make_room(other_keys(old(self).entries@, key@)).push(
                CacheEntry { key, value, inserted_at: now },
            ),
            final(self).clock_ms == old(self).clock_ms,
    {
        self.remove_key(key.as_str());
        if self.entries.len() >= CACHE_CAP {
            self.entries.pop_front();
        }
        self.entries.push_back(CacheEntry { key, value, inserted_at: now });
    }

    /// Stores `value` under `key`, stamped with the current time: the cache's
    /// time brought up to the clock.
    pub fn insert(&mut self, key: String, value: CacheValue<M, D>)
        ensures
            exists|now: u64| final(self).entries@ == make_room(other_keys(old(self).entries@, key@)).push(
                CacheEntry { key, value, inserted_at: now },
            ),
            final(self).entries@ == make_room(other_keys(old(self).entries@, key@)).push(
                CacheEntry { key, value, inserted_at: final(self).clock_ms },
            ),
            final(self).clock_ms >= old(self).clock_ms,
            stamped_before(old(self).entries@, old(self).clock_ms) ==> stamped_before(
                final(self).entries@,
                final(self).clock_ms,
            ),
    {
        let now = self.tick();
        let ghost before = self.entries@;
        self.insert_at(key, value, now);
        proof {
            lemma_other_keys(before, key@);
            let r = other_keys(before, key@);
            let m = make_room(r);
            if stamped_before(old(self).entries@, old(self).clock_ms) {
                assert forall|k: int| 0 <= k < m.len() implies (#[trigger] m[k]).inserted_at <= now by {
                    let x = if r.len() >= CACHE_CAP { r[k + 1] } else { r[k] };
                    assert(m[k] == x);
                    assert(before.contains(x));
                    let q = choose|q: int| 0 <= q < before.len() && before[q] == x;
                    assert(before[q].inserted_at <= old(self).clock_ms);
                }
                assert forall|k: int| 0 <= k < self.entries@.len() implies (#[trigger] self.entries@[k]).inserted_at <= now by {
                    if k < m.len() {
                        assert(self.entries@[k] == m[k]);
                    }
                }
            }
        }
    }

    /// The position of the first entry stored under `key`.
    fn position(&self, key: &str) -> (r: Option<usize>)
        ensures
            r is None <==> index_of_key(self.entries@, key@) == -1,
            r matches Some(i) ==> i == index_of_key(self.entries@, key@) && i < self.entries@.len(),
    {
        let ghost s = self.entries@;
        let mut i: usize = 0;
        assert(s.skip(0) =~= s);
        while i < self.entries.len()
            invariant
                i <= self.entries.len(),
                s == self.entries@,
                index_of_key(s, key@) == (if index_of_key(s.skip(i as int), key@) < 0 {
                    -1
                } else {
                    index_of_key(s.skip(i as int), key@) + i
                }),
            decreases self.entries.len() - i,
        {
            assert(s.skip(i as int)[0] == s[i as int]);
            if crate::text::str_eq(self.entries[i].key.as_str(), key) {
                return Some(i);
            }
            assert(s.skip(i as int).drop_first() =~= s.skip(i + 1));
            i = i + 1;
        }
        assert(s.skip(i as int) =~= Seq::<CacheEntry<M, D>>::empty());
        None
    }
}

/// The detail stored under `key` in `s`, if the first entry for the key is one.
pub open spec fn detail_of<M, D>(s: Seq<CacheEntry<M, D>>, key: Seq<char>) -> Option<D> {
    let i = index_of_key(s, key);
    if i >= 0 {
        match s[i].value {
            CacheValue::Detail(d) => Some(d),
            CacheValue::Page { .. } => None,
        }
    } else {
        None
    }
}

impl<M, D: Clone> SearchCache<M, D> {
    /// A copy of the detail stored under `key`, if any, without evicting.
    pub fn lookup_detail(&self, key: &str) -> (r: Option<D>)
        ensures
            r is Some <==> detail_of(self.entries@, key@) is Some,
            r matches Some(d) ==> cloned(detail_of(self.entries@, key@)->0, d),
    {
        match self.position(key) {
            None => None,
            Some(i) => match &self.entries[i].value {
                CacheValue::Detail(d) => Some(d.clone()),
                CacheValue::Page { .. } => None,
            },
        }
    }

    /// Drops the expired entries, then returns a copy of the detail stored
    /// under `key`, if any.
    pub fn get_detail(&mut self, key: &str) -> (r: Option<D>)
        ensures
            exists|now: u64| final(self).entries@ == live_entries(old(self).entries@, now),
            final(self).entries@ == live_entries(old(self).entries@, final(self).clock_ms),
            final(self).clock_ms >= old(self).clock_ms,
            stamped_before(old(self).entries@, old(self).clock_ms) ==> stamped_before(
                final(self).entries@,
                final(self).clock_ms,
            ),
            r is Some <==> detail_of(final(self).entries@, key@) is Some,
            r matches Some(d) ==> cloned(detail_of(final(self).entries@, key@)->0, d),
    {
        self.evict();
        self.lookup_detail(key)
    }
}


proof fn lemma_other_keys<M, D>(s: Seq<CacheEntry<M, D>>, key: Seq<char>)
    ensures
        other_keys(s, key).len() <= s.len(),
        forall|k: int| 0 <= k < other_keys(s, key).len() ==> (#[trigger] other_keys(s, key)[k]).key@ != key,
        forall|k: int| 0 <= k < other_keys(s, key).len() ==> s.contains(#[trigger] other_keys(s, key)[k]),
        keys_unique(s) ==> keys_unique(other_keys(s, key)),
    decreases s.len(),
{
    if s.len() > 0 {
        let p = s.drop_last();
        lemma_other_keys(p, key);
        let r = other_keys(p, key);
        let t = other_keys(s, key);
        assert forall|k: int| 0 <= k < t.len() implies s.contains(#[trigger] t[k]) by {
            if k < r.len() {
                assert(t[k] == r[k]);
                let m = choose|m: int| 0 <= m < p.len() && p[m] == r[k];
                assert(s[m] == p[m]);
            } else {
                assert(t[k] == s.last());
                assert(s[s.len() - 1] == s.last());
            }
        }
        if keys_unique(s) {
            assert(keys_unique(p)) by {
                assert forall|a: int, b: int| 0 <= a < b < p.len() implies p[a].key@ != p[b].key@ by {
                    assert(p[a] == s[a]);
                    assert(p[b] == s[b]);
                }
            }
            assert forall|a: int, b: int| 0 <= a < b < t.len() implies t[a].key@ != t[b].key@ by {
                if b >= r.len() {
                    assert(t[b] == s.last());
                    assert(t[a] == r[a]);
                    let m = choose|m: int| 0 <= m < p.len() && p[m] == r[a];
                    assert(s[m] == p[m]);
                    assert(s[s.len() - 1] == s.last());
                } else {
                    assert(t[a] == r[a]);
                    assert(t[b] == r[b]);
                }
            }
        }
    }
}

proof fn lemma_index_of_key<M, D>(s: Seq<CacheEntry<M, D>>, key: Seq<char>)
    ensures
        -1 <= index_of_key(s, key) < s.len(),
        index_of_key(s, key) == -1 <==> forall|k: int| 0 <= k < s.len() ==> (#[trigger] s[k]).key@ != key,
        index_of_key(s, key) >= 0 ==> s[index_of_key(s, key)].key@ == key,
        forall|k: int| 0 <= k < index_of_key(s, key) ==> (#[trigger] s[k]).key@ != key,
    decreases s.len(),
{
    if s.len() > 0 {
        let rest = s.drop_first();
        lemma_index_of_key(rest, key);
        if s[0].key@ != key {
            assert forall|k: int| 0 < k < s.len() implies (#[trigger] s[k]) == rest[k - 1] by {}
            if index_of_key(rest, key) == -1 {
                assert forall|k: int| 0 <= k < s.len() implies (#[trigger] s[k]).key@ != key by {
                    if k > 0 {
                        assert(s[k] == rest[k - 1]);
                    }
                }
            }
        }
    }
}

/// Storing a value never lets the cache grow beyond `CACHE_CAP` entries.
pub proof fn lemma_insert_bounded<M, D>(s: Seq<CacheEntry<M, D>>, key: String, value: CacheValue<M, D>, now: u64)
    requires
        s.len() <= CACHE_CAP,
    ensures
        make_room(other_keys(s, key@)).push(CacheEntry { key, value, inserted_at: now }).len() <= CACHE_CAP,
{
    lemma_other_keys(s, key@);
}

/// Storing a value keeps the keys of the cache distinct.
pub proof fn lemma_insert_keys_unique<M, D>(s: Seq<CacheEntry<M, D>>, key: String, value: CacheValue<M, D>, now: u64)
    requires
        keys_unique(s),
    ensures
        keys_unique(make_room(other_keys(s, key@)).push(CacheEntry { key, value, inserted_at: now })),
{
    lemma_other_keys(s, key@);
    let r = other_keys(s, key@);
    let m = make_room(r);
    let t = m.push(CacheEntry { key, value, inserted_at: now });
    assert forall|k: int| 0 <= k < m.len() implies (#[trigger] m[k]).key@ != key@ && keys_unique(m) by {
        if r.len() >= CACHE_CAP {
            assert(m[k] == r[k + 1]);
            assert forall|a: int, b: int| 0 <= a < b < m.len() implies m[a].key@ != m[b].key@ by {
                assert(m[a] == r[a + 1]);
                assert(m[b] == r[b + 1]);
            }
        }
    }
    assert forall|a: int, b: int| 0 <= a < b < t.len() implies t[a].key@ != t[b].key@ by {
        assert(t[a] == m[a]);
        if b < m.len() {
            assert(t[b] == m[b]);
        }
    }
}

/// A detail just stored under a key is what a lookup of that key gives;
/// a page stored under a key hides any detail for it.
pub proof fn lemma_lookup_after_insert<M, D>(s: Seq<CacheEntry<M, D>>, key: String, value: CacheValue<M, D>, now: u64)
    ensures
        ({
            let t = make_room(other_keys(s, key@)).push(CacheEntry { key, value, inserted_at: now });
            &&& value matches CacheValue::Detail(d) ==> detail_of(t, key@) == Some(d)
            &&& value matches CacheValue::Page { .. } ==> detail_of(t, key@) is None
        }),
{
    lemma_other_keys(s, key@);
    let r = other_keys(s, key@);
    let m = make_room(r);
    let t = m.push(CacheEntry { key, value, inserted_at: now });
    assert forall|k: int| 0 <= k < t.len() - 1 implies (#[trigger] t[k]).key@ != key@ by {
        assert(t[k] == m[k]);
        if r.len() >= CACHE_CAP {
            assert(m[k] == r[k + 1]);
        }
    }
    lemma_index_of_key(t, key@);
    assert(t[t.len() - 1].key@ == key@);
    assert(index_of_key(t, key@) == t.len() - 1);
}

proof fn lemma_live_entries<M, D>(s: Seq<CacheEntry<M, D>>, now: u64)
    ensures
        forall|k: int| 0 <= k < live_entries(s, now).len() ==> is_live((#[trigger] live_entries(s, now)[k]).inserted_at, now),
        (forall|k: int| 0 <= k < s.len() ==> is_live((#[trigger] s[k]).inserted_at, now)) ==> live_entries(s, now) == s,
    decreases s.len(),
{
    if s.len() > 0 {
        lemma_live_entries(s.drop_last(), now);
        if forall|k: int| 0 <= k < s.len() ==> is_live((#[trigger] s[k]).inserted_at, now) {
            assert forall|k: int| 0 <= k < s.drop_last().len() implies is_live((#[trigger] s.drop_last()[k]).inserted_at, now) by {
                assert(s.drop_last()[k] == s[k]);
            }
            assert(s.drop_last().push(s.last()) =~= s);
        }
    }
}

/// After eviction at `now` every entry left is valid at `now`; eviction
/// drops nothing from a cache whose entries are all valid.
pub proof fn lemma_evict_live<M, D>(s: Seq<CacheEntry<M, D>>, now: u64)
    ensures
        forall|k: int| 0 <= k < live_entries(s, now).len() ==> is_live((#[trigger] live_entries(s, now)[k]).inserted_at, now),
        (forall|k: int| 0 <= k < s.len() ==> is_live((#[trigger] s[k]).inserted_at, now)) ==> live_entries(s, now) == s,
{
    lemma_live_entries(s, now);
}

proof fn lemma_live_keeps_live<M, D>(s: Seq<CacheEntry<M, D>>, now: u64, k: int)
    requires
        0 <= k < s.len(),
        is_live(s[k].inserted_at, now),
    ensures
        live_entries(s, now).contains(s[k]),
    decreases s.len(),
{
    let p = s.drop_last();
    let r = live_entries(p, now);
    let t = live_entries(s, now);
    if k == s.len() - 1 {
        assert(t == r.push(s.last()));
        assert(t[r.len() as int] == s[k]);
    } else {
        assert(p[k] == s[k]);
        lemma_live_keeps_live(p, now, k);
        let q = choose|q: int| 0 <= q < r.len() && r[q] == s[k];
        if is_live(s.last().inserted_at, now) {
            assert(t[q] == r[q]);
        }
    }
}

/// Eviction at a time `now` no earlier than any entry's stamp keeps exactly
/// the entries stored less than `CACHE_TTL_MS` before `now`: one stored
/// `CACHE_TTL_MS` or more before it is gone, and every other one stays.
pub proof fn lemma_evict_keeps_exactly_fresh<M, D>(s: Seq<CacheEntry<M, D>>, now: u64)
    requires
        stamped_before(s, now),
    ensures
        forall|e: CacheEntry<M, D>| #[trigger] live_entries(s, now).contains(e) <==> (s.contains(e) && now - e.inserted_at < CACHE_TTL_MS),
{
    lemma_live_entries(s, now);
    lemma_live_contains(s, now);
    assert forall|e: CacheEntry<M, D>| #[trigger] live_entries(s, now).contains(e) <==> (s.contains(e) && now - e.inserted_at < CACHE_TTL_MS) by {
        if live_entries(s, now).contains(e) {
            let q = choose|q: int| 0 <= q < live_entries(s, now).len() && live_entries(s, now)[q] == e;
            assert(s.contains(live_entries(s, now)[q]));
            let w = choose|w: int| 0 <= w < s.len() && s[w] == e;
            assert(s[w].inserted_at <= now);
        }
        if s.contains(e) && now - e.inserted_at < CACHE_TTL_MS {
            let w = choose|w: int| 0 <= w < s.len() && s[w] == e;
            assert(s[w].inserted_at <= now);
            lemma_live_keeps_live(s, now, w);
        }
    }
}

/// One operation on the cache, as its contracts describe it.
pub enum CacheOp<M, D> {
    /// `insert_at(key, value, time)`, which `insert` does at the clock's time.
    Insert(String, CacheValue<M, D>, u64),
    /// `evict_expired(time)`, which `evict` and `get_detail` do at the
    /// clock's time.
    Evict(u64),
}

/// The entries after one operation.
pub open spec fn apply_op<M, D>(s: Seq<CacheEntry<M, D>>, op: CacheOp<M, D>) -> Seq<CacheEntry<M, D>> {
    match op {
        CacheOp::Insert(k, v, t) => make_room(other_keys(s, k@)).push(CacheEntry { key: k, value: v, inserted_at: t }),
        CacheOp::Evict(t) => live_entries(s, t),
    }
}

/// The entries after a run of operations, in order.
pub open spec fn apply_ops<M, D>(s: Seq<CacheEntry<M, D>>, ops: Seq<CacheOp<M, D>>) -> Seq<CacheEntry<M, D>>
    decreases ops.len(),
{
    if ops.len() == 0 {
        s
    } else {
        apply_op(apply_ops(s, ops.drop_last()), ops.last())
    }
}

/// How many of `ops` store something.
pub open spec fn insert_count<M, D>(ops: Seq<CacheOp<M, D>>) -> nat
    decreases ops.len(),
{
    if ops.len() == 0 {
        0
    } else {
        insert_count(ops.drop_last()) + (if ops.last() is Insert { 1nat } else { 0nat })
    }
}

/// `op` neither stores under `key` nor runs when an entry stored at `t0`
/// has expired.
pub open spec fn spares<M, D>(op: CacheOp<M, D>, key: Seq<char>, t0: u64) -> bool {
    match op {
        CacheOp::Insert(k, _, _) => k@ != key,
        CacheOp::Evict(t) => is_live(t0, t),
    }
}

/// `e` sits at `idx` in `s`, as the first entry with its key, with at most
/// `n` entries after it.
pub open spec fn sits_at<M, D>(s: Seq<CacheEntry<M, D>>, e: CacheEntry<M, D>, idx: int, n: int) -> bool {
    &&& 0 <= idx < s.len()
    &&& s[idx] == e
    &&& forall|m: int| 0 <= m < idx ==> (#[trigger] s[m]).key@ != e.key@
    &&& s.len() - 1 - idx <= n
}

proof fn lemma_live_contains<M, D>(s: Seq<CacheEntry<M, D>>, now: u64)
    ensures
        forall|k: int| 0 <= k < live_entries(s, now).len() ==> s.contains(#[trigger] live_entries(s, now)[k]),
    decreases s.len(),
{
    if s.len() > 0 {
        let p = s.drop_last();
        lemma_live_contains(p, now);
        let r = live_entries(p, now);
        let t = live_entries(s, now);
        assert forall|k: int| 0 <= k < t.len() implies s.contains(#[trigger] t[k]) by {
            if k < r.len() {
                assert(t[k] == r[k]);
                let m = choose|m: int| 0 <= m < p.len() && p[m] == r[k];
                assert(s[m] == p[m]);
            } else {
                assert(t[k] == s.last());
                assert(s[s.len() - 1] == s.last());
            }
        }
    }
}

proof fn lemma_other_keys_keeps<M, D>(s: Seq<CacheEntry<M, D>>, key: Seq<char>, e: CacheEntry<M, D>, idx: int, n: int)
    requires
        sits_at(s, e, idx, n),
        e.key@ != key,
    ensures
        exists|j: int| sits_at(other_keys(s, key), e, j, n),
    decreases s.len(),
{
    let p = s.drop_last();
    let rp = other_keys(p, key);
    let r = other_keys(s, key);
    lemma_other_keys(p, key);
    if idx == s.len() - 1 {
        assert(s.last() == e);
        assert(r == rp.push(e));
        assert forall|m: int| 0 <= m < rp.len() implies (#[trigger] r[m]).key@ != e.key@ by {
            assert(r[m] == rp[m]);
            assert(p.contains(rp[m]));
            let q = choose|q: int| 0 <= q < p.len() && p[q] == rp[m];
            assert(s[q] == p[q]);
        }
        assert(sits_at(r, e, rp.len() as int, n));
    } else {
        assert(sits_at(p, e, idx, n - 1)) by {
            assert(p[idx] == s[idx]);
            assert forall|m: int| 0 <= m < idx implies (#[trigger] p[m]).key@ != e.key@ by {
                assert(p[m] == s[m]);
            }
        }
        lemma_other_keys_keeps(p, key, e, idx, n - 1);
        let n1 = n - 1;
        let j = choose|j: int| sits_at(rp, e, j, n1);
        if s.last().key@ == key {
            assert(r == rp);
        } else {
            assert(r == rp.push(s.last()));
            assert(r[j] == rp[j]);
            assert forall|m: int| 0 <= m < j implies (#[trigger] r[m]).key@ != e.key@ by {
                assert(r[m] == rp[m]);
            }
        }
        assert(sits_at(r, e, j, n));
    }
}

proof fn lemma_live_keeps<M, D>(s: Seq<CacheEntry<M, D>>, now: u64, e: CacheEntry<M, D>, idx: int, n: int)
    requires
        sits_at(s, e, idx, n),
        is_live(e.inserted_at, now),
    ensures
        exists|j: int| sits_at(live_entries(s, now), e, j, n),
    decreases s.len(),
{
    let p = s.drop_last();
    let rp = live_entries(p, now);
    let r = live_entries(s, now);
    lemma_live_contains(p, now);
    if idx == s.len() - 1 {
        assert(s.last() == e);
        assert(r == rp.push(e));
        assert forall|m: int| 0 <= m < rp.len() implies (#[trigger] r[m]).key@ != e.key@ by {
            assert(r[m] == rp[m]);
            assert(p.contains(rp[m]));
            let q = choose|q: int| 0 <= q < p.len() && p[q] == rp[m];
            assert(s[q] == p[q]);
        }
        assert(sits_at(r, e, rp.len() as int, n));
    } else {
        assert(sits_at(p, e, idx, n - 1)) by {
            assert(p[idx] == s[idx]);
            assert forall|m: int| 0 <= m < idx implies (#[trigger] p[m]).key@ != e.key@ by {
                assert(p[m] == s[m]);
            }
        }
        lemma_live_keeps(p, now, e, idx, n - 1);
        let n1 = n - 1;
        let j = choose|j: int| sits_at(rp, e, j, n1);
        if is_live(s.last().inserted_at, now) {
            assert(r == rp.push(s.last()));
            assert(r[j] == rp[j]);
            assert forall|m: int| 0 <= m < j implies (#[trigger] r[m]).key@ != e.key@ by {
                assert(r[m] == rp[m]);
            }
        } else {
            assert(r == rp);
        }
        assert(sits_at(r, e, j, n));
    }
}

proof fn lemma_survives_ops<M, D>(s: Seq<CacheEntry<M, D>>, e: CacheEntry<M, D>, idx: int, ops: Seq<CacheOp<M, D>>)
    requires
        sits_at(s, e, idx, 0),
        insert_count(ops) < CACHE_CAP,
        forall|j: int| 0 <= j < ops.len() ==> spares(#[trigger] ops[j], e.key@, e.inserted_at),
    ensures
        exists|j: int| sits_at(apply_ops(s, ops), e, j, insert_count(ops) as int),
    decreases ops.len(),
{
    if ops.len() > 0 {
        let init = ops.drop_last();
        assert forall|j: int| 0 <= j < init.len() implies spares(#[trigger] init[j], e.key@, e.inserted_at) by {
            assert(init[j] == ops[j]);
        }
        lemma_survives_ops(s, e, idx, init);
        let prev = apply_ops(s, init);
        let n: int = insert_count(init) as int;
        let j = choose|j: int| sits_at(prev, e, j, n);
        let op = ops.last();
        assert(spares(op, e.key@, e.inserted_at)) by {
            assert(op == ops[ops.len() - 1]);
        }
        match op {
            CacheOp::Insert(k, v, t) => {
                lemma_other_keys_keeps(prev, k@, e, j, n);
                let r = other_keys(prev, k@);
                let j2 = choose|j2: int| sits_at(r, e, j2, n);
                let m = make_room(r);
                let j3: int = if r.len() >= CACHE_CAP { j2 - 1 } else { j2 };
                assert(n < CACHE_CAP - 1);
                if r.len() >= CACHE_CAP {
                    assert(j2 >= 1);
                    assert(m[j3] == r[j2]);
                    assert forall|q: int| 0 <= q < j3 implies (#[trigger] m[q]).key@ != e.key@ by {
                        assert(m[q] == r[q + 1]);
                    }
                }
                assert(sits_at(m, e, j3, n));
                let t2 = m.push(CacheEntry { key: k, value: v, inserted_at: t });
                assert(t2[j3] == m[j3]);
                assert forall|q: int| 0 <= q < j3 implies (#[trigger] t2[q]).key@ != e.key@ by {
                    assert(t2[q] == m[q]);
                }
                assert(sits_at(t2, e, j3, n + 1));
                assert(apply_ops(s, ops) == t2);
                assert(insert_count(ops) == n + 1);
            },
            CacheOp::Evict(t) => {
                lemma_live_keeps(prev, t, e, j, n);
                assert(apply_ops(s, ops) == live_entries(prev, t));
                assert(insert_count(ops) == n);
            },
        }
    } else {
        assert(apply_ops(s, ops) == s);
        assert(sits_at(apply_ops(s, ops), e, idx, insert_count(ops) as int));
    }
}

/// A detail stored under `key` at time `t0` is what a lookup of `key` gives
/// after any run of operations that stores nothing else under `key`, stores
/// fewer than `CACHE_CAP` values in all, and evicts only at times less than
/// `CACHE_TTL_MS` after `t0`; `get_detail` is such an eviction followed by
/// that lookup.
pub proof fn lemma_detail_survives<M, D>(s: Seq<CacheEntry<M, D>>, key: String, d: D, t0: u64, ops: Seq<CacheOp<M, D>>)
    requires
        insert_count(ops) < CACHE_CAP,
        forall|j: int| 0 <= j < ops.len() ==> spares(#[trigger] ops[j], key@, t0),
    ensures
        detail_of(apply_ops(apply_op(s, CacheOp::Insert(key, CacheValue::Detail(d), t0)), ops), key@) == Some(d),
{
    let e = CacheEntry { key, value: CacheValue::Detail(d), inserted_at: t0 };
    let s1 = apply_op(s, CacheOp::Insert(key, CacheValue::Detail(d), t0));
    lemma_other_keys(s, key@);
    let r = other_keys(s, key@);
    let m = make_room(r);
    assert(s1 == m.push(e));
    assert forall|q: int| 0 <= q < m.len() implies (#[trigger] s1[q]).key@ != e.key@ by {
        assert(s1[q] == m[q]);
        if r.len() >= CACHE_CAP {
            assert(m[q] == r[q + 1]);
        }
    }
    assert(sits_at(s1, e, m.len() as int, 0));
    lemma_survives_ops(s1, e, m.len() as int, ops);
    let t = apply_ops(s1, ops);
    let c: int = insert_count(ops) as int;
    let j = choose|j: int| sits_at(t, e, j, c);
    lemma_index_of_key(t, key@);
    assert(index_of_key(t, key@) == j) by {
        let i = index_of_key(t, key@);
        assert(t[j].key@ == key@);
        if i == -1 {
            assert(t[j].key@ != key@);
        } else if i < j {
            assert(t[i].key@ != key@);
        } else if i > j {
            assert(t[j].key@ != key@);
        }
    }
}

} // verus!
