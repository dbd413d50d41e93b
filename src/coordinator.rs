//! The cache-aside, single-flight coordinator: one lock-protected state that
//! holds the expiring cache and the registry of running fetches.
//!
//! A caller first looks a fingerprint up. A valid cache entry answers at
//! once. Otherwise the caller either becomes the fingerprint's sole owner,
//! who performs the fetch, or a follower of the owner already running, who
//! waits on the owner's broadcast channel. The owner's slot is removed when
//! its token is released, whatever the fetch's outcome, so the next lookup
//! after it starts a new fetch.

use std::collections::HashMap;

use vstd::prelude::*;

use crate::cache::{valid_entry, CacheEntry, ExpiringCache};
use crate::error::EndpointError;

verus! {

broadcast use vstd::std_specs::hash::group_hash_axioms;

/// Proof that the caller owns the running fetch of one fingerprint. It is
/// handed back to `release` when the fetch ends.
pub struct OwnerToken {
    fingerprint: u64,
    generation: u64,
}

impl OwnerToken {
    /// The fingerprint whose fetch the token owns.
    pub closed spec fn fp(&self) -> u64 {
        self.fingerprint
    }

    /// The generation of the slot the token owns.
    pub closed spec fn generation(&self) -> u64 {
        self.generation
    }

    /// The fingerprint whose fetch the token owns.
    pub fn fingerprint(&self) -> (r: u64)
        ensures
            r == self.fp(),
    {
        self.fingerprint
    }
}

/// The outcome of a lookup.
pub enum Lookup {
    /// The cache holds a valid value; no fetch is needed.
    Hit,
    /// The caller now owns the fetch of the fingerprint.
    Owner(OwnerToken),
    /// A fetch of the fingerprint is already running; the caller waits on
    /// its broadcast channel.
    Follower,
}

/// What a lookup decided, with the generation of an owned slot.
pub enum LookupModel {
    Hit,
    Owner(u64),
    Follower,
}

impl Lookup {
    /// What the lookup decided.
    pub open spec fn model(&self) -> LookupModel {
        match self {
            Lookup::Hit => LookupModel::Hit,
            Lookup::Owner(t) => LookupModel::Owner(t.generation()),
            Lookup::Follower => LookupModel::Follower,
        }
    }
}

/// The abstract state: cache entries, the generation of the slot of each
/// fingerprint being fetched, and the generation the next slot gets.
pub struct CoordinatorModel<V> {
    pub cache: Map<u64, CacheEntry<V>>,
    pub slots: Map<u64, u64>,
    pub next_generation: u64,
}

/// The generation after `g`, wrapping around.
pub open spec fn generation_after(g: u64) -> u64 {
    if g == u64::MAX {
        0
    } else {
        (g + 1) as u64
    }
}

/// One lookup of `fp` at `now`: a valid cache entry answers unless the
/// lookup is forced; else an existing slot makes a follower; else a new slot
/// makes an owner.
pub open spec fn lookup_spec<V>(m: CoordinatorModel<V>, fp: u64, now: u64, force: bool) -> (
    CoordinatorModel<V>,
    LookupModel,
) {
    if !force && valid_entry(m.cache, fp, now) is Some {
        (m, LookupModel::Hit)
    } else if m.slots.contains_key(fp) {
        (m, LookupModel::Follower)
    } else {
        (
            CoordinatorModel {
                cache: m.cache,
                slots: m.slots.insert(fp, m.next_generation),
                next_generation: generation_after(m.next_generation),
            },
            LookupModel::Owner(m.next_generation),
        )
    }
}

/// Releasing the slot of generation `g` for `fp`: it is removed if it is
/// still the slot of that fingerprint, and nothing changes otherwise.
pub open spec fn release_spec<V>(m: CoordinatorModel<V>, fp: u64, g: u64) -> CoordinatorModel<V> {
    if m.slots.contains_key(fp) && m.slots[fp] == g {
        CoordinatorModel { cache: m.cache, slots: m.slots.remove(fp), next_generation: m.next_generation }
    } else {
        m
    }
}

struct InflightSlot<S> {
    generation: u64,
    channel: S,
}

/// The shared state of all callers: the cache and the in-flight registry.
/// `S` is the broadcast channel an owner sends its result on.
pub struct Coordinator<V, S> {
    cache: ExpiringCache<V>,
    slots: HashMap<u64, InflightSlot<S>>,
    next_generation: u64,
}

impl<V, S> View for Coordinator<V, S> {
    type V = CoordinatorModel<V>;

    closed spec fn view(&self) -> CoordinatorModel<V> {
        CoordinatorModel {
            cache: self.cache@,
            slots: self.slots@.map_values(|s: InflightSlot<S>| s.generation),
            next_generation: self.next_generation,
        }
    }
}

impl<V, S> Coordinator<V, S> {
    /// The broadcast channel each running fetch holds, by fingerprint.
    pub closed spec fn channels(&self) -> Map<u64, S> {
        self.slots@.map_values(|s: InflightSlot<S>| s.channel)
    }

    /// Exactly the fingerprints with a running fetch hold a channel.
    pub proof fn lemma_channels_match_slots(&self)
        ensures
            self.channels().dom() == self@.slots.dom(),
    {
        assert(self.channels().dom() =~= self@.slots.dom());
    }

    /// An empty cache and no running fetch.
    pub fn new() -> (r: Self)
        ensures
            r@.cache == Map::<u64, CacheEntry<V>>::empty(),
            r@.slots == Map::<u64, u64>::empty(),
    {
        let r = Coordinator { cache: ExpiringCache::new(), slots: HashMap::new(), next_generation: 0 };
        assert(r@.slots =~= Map::<u64, u64>::empty());
        r
    }

    /// Looks `fp` up at `now`. Unless `force` is set, a valid cache entry
    /// answers `Hit` whatever fetches are running. Otherwise a running fetch
    /// of `fp` makes the caller a follower, and else the caller becomes the
    /// owner of a new slot holding `channel`.
    pub fn lookup(&mut self, fp: u64, now: u64, force: bool, channel: S) -> (r: Lookup)
        ensures
            (final(self)@, r.model()) == lookup_spec(old(self)@, fp, now, force),
            r matches Lookup::Owner(t) ==> t.fp() == fp,
            r is Owner ==> final(self).channels() == old(self).channels().insert(fp, channel),
            !(r is Owner) ==> final(self).channels() == old(self).channels(),
    {
        if !force {
            if self.cache.get(fp, now).is_some() {
                return Lookup::Hit;
            }
        }
        if self.slots.contains_key(&fp) {
            return Lookup::Follower;
        }
        let generation = self.next_generation;
        self.slots.insert(fp, InflightSlot { generation, channel });
        self.next_generation = if generation == u64::MAX { 0 } else { generation + 1 };
        proof {
            let m = old(self)@;
            assert(self@.slots =~= m.slots.insert(fp, m.next_generation));
            assert(self.channels() =~= old(self).channels().insert(fp, channel));
        }
        Lookup::Owner(OwnerToken { fingerprint: fp, generation })
    }

    /// The value cached under `fp` if it is valid at `now`.
    pub fn cached(&self, fp: u64, now: u64) -> (r: Option<&V>)
        ensures
            match r {
                Some(v) => valid_entry(self@.cache, fp, now) == Some(*v),
                None => valid_entry(self@.cache, fp, now) is None,
            },
    {
        self.cache.get(fp, now)
    }

    /// Caches `value` under `fp` until `expires_at`.
    pub fn store(&mut self, fp: u64, value: V, expires_at: u64)
        ensures
            final(self)@ == (CoordinatorModel {
                cache: old(self)@.cache.insert(fp, CacheEntry { value, expires_at }),
                ..old(self)@
            }),
            final(self).channels() == old(self).channels(),
    {
        self.cache.insert(fp, value, expires_at);
    }

    /// The re-check of a follower whose broadcast closed empty: the value
    /// cached under `fp` if it is valid at `now`, and nothing for a forced
    /// request, which never reads the cache.
    pub fn recheck(&self, fp: u64, now: u64, force: bool) -> (r: Option<&V>)
        ensures
            force ==> r is None,
            !force ==> match r {
                Some(v) => valid_entry(self@.cache, fp, now) == Some(*v),
                None => valid_entry(self@.cache, fp, now) is None,
            },
    {
        if force {
            None
        } else {
            self.cache.get(fp, now)
        }
    }

    /// The broadcast channel of the fetch running for `fp`, if any.
    pub fn channel(&self, fp: u64) -> (r: Option<&S>)
        ensures
            r is Some <==> self@.slots.contains_key(fp),
            r matches Some(c) ==> *c == self.channels()[fp],
    {
        match self.slots.get(&fp) {
            Some(s) => Some(&s.channel),
            None => None,
        }
    }

    /// Ends the owner's fetch, whatever its outcome: the slot is removed, so
    /// the next lookup that misses the cache owns a new fetch.
    pub fn release(&mut self, token: OwnerToken)
        ensures
            final(self)@ == release_spec(old(self)@, token.fp(), token.generation()),
            final(self).channels() == (if old(self)@.slots.contains_key(token.fp()) && old(
                self,
            )@.slots[token.fp()] == token.generation() {
                old(self).channels().remove(token.fp())
            } else {
                old(self).channels()
            }),
    {
        let fp = token.fingerprint;
        let matches = match self.slots.get(&fp) {
            Some(s) => s.generation == token.generation,
            None => false,
        };
        if matches {
            self.slots.remove(&fp);
            proof {
                assert(self@.slots =~= old(self)@.slots.remove(fp));
                assert(self.channels() =~= old(self).channels().remove(fp));
            }
        }
    }
}

/// The cache after storing `values[i]` under `fps[i]` until `expires_at`,
/// in order, so that a later value for a repeated fingerprint wins.
pub open spec fn stored_all<V>(cache: Map<u64, CacheEntry<V>>, fps: Seq<u64>, values: Seq<V>, expires_at: u64) -> Map<
    u64,
    CacheEntry<V>,
>
    decreases fps.len(),
{
    if fps.len() == 0 || values.len() == 0 {
        cache
    } else {
        stored_all(cache, fps.drop_last(), values.drop_last(), expires_at).insert(
            fps.last(),
            CacheEntry { value: values.last(), expires_at },
        )
    }
}

impl<V, S> Coordinator<V, S> {
    /// Caches every record of a whole listing, `values[i]` under `fps[i]`,
    /// all until `expires_at`; running fetches are left alone.
    pub fn store_all(&mut self, fps: &Vec<u64>, values: Vec<V>, expires_at: u64)
        requires
            fps@.len() == values@.len(),
        ensures
            final(self)@ == (CoordinatorModel {
                cache: stored_all(old(self)@.cache, fps@, values@, expires_at),
                ..old(self)@
            }),
            final(self).channels() == old(self).channels(),
    {
        let ghost orig = values@;
        let n = values.len();
        let mut values = values;
        let mut reversed: Vec<V> = Vec::new();
        while values.len() > 0
            invariant
                n == orig.len(),
                reversed@.len() <= n,
                values@ == orig.take(n - reversed@.len()),
                forall|j: int| 0 <= j < reversed@.len() ==> #[trigger] reversed@[j] == orig[n - 1 - j],
            decreases values@.len(),
        {
            let v = values.pop().unwrap();
            reversed.push(v);
            assert(values@ =~= orig.take(n - reversed@.len()));
        }
        let mut k: usize = 0;
        while k < n
            invariant
                n == orig.len(),
                n == fps@.len(),
                k <= n,
                reversed@.len() == n - k,
                forall|j: int| 0 <= j < reversed@.len() ==> #[trigger] reversed@[j] == orig[n - 1 - j],
                self@ == (CoordinatorModel {
                    cache: stored_all(old(self)@.cache, fps@.take(k as int), orig.take(k as int), expires_at),
                    ..old(self)@
                }),
                self.channels() == old(self).channels(),
            decreases n - k,
        {
            let v = reversed.pop().unwrap();
            self.cache.insert(fps[k], v, expires_at);
            assert(fps@.take(k + 1).drop_last() =~= fps@.take(k as int));
            assert(orig.take(k + 1).drop_last() =~= orig.take(k as int));
            k = k + 1;
        }
        assert(fps@.take(n as int) =~= fps@);
        assert(orig.take(n as int) =~= orig);
    }
}

/// The state and outcomes after looking up each fingerprint of `fps` in
/// order, each at `now` and with the same `force`.
pub open spec fn run_many<V>(m: CoordinatorModel<V>, fps: Seq<u64>, now: u64, force: bool) -> (
    CoordinatorModel<V>,
    Seq<LookupModel>,
)
    decreases fps.len(),
{
    if fps.len() == 0 {
        (m, Seq::empty())
    } else {
        let (m1, outs) = run_many(m, fps.drop_last(), now, force);
        let (m2, o) = lookup_spec(m1, fps.last(), now, force);
        (m2, outs.push(o))
    }
}

/// The positions, in increasing order, of the outcomes that `p` holds of.
pub open spec fn positions_where(outs: Seq<LookupModel>, p: spec_fn(LookupModel) -> bool) -> Seq<
    usize,
>
    decreases outs.len(),
{
    if outs.len() == 0 {
        Seq::empty()
    } else if p(outs.last()) {
        positions_where(outs.drop_last(), p).push((outs.len() - 1) as usize)
    } else {
        positions_where(outs.drop_last(), p)
    }
}

/// The slots the lookups of `fps` came to own: fingerprint to generation.
pub open spec fn owned_slots(fps: Seq<u64>, outs: Seq<LookupModel>) -> Map<u64, u64>
    decreases outs.len(),
{
    if outs.len() == 0 || fps.len() == 0 {
        Map::empty()
    } else {
        let rest = owned_slots(fps.drop_last(), outs.drop_last());
        match outs.last() {
            LookupModel::Owner(g) => rest.insert(fps.last(), g),
            _ => rest,
        }
    }
}

/// The outcome answered from the cache.
pub open spec fn is_hit(o: LookupModel) -> bool {
    o is Hit
}

/// The outcome that waits on a running fetch.
pub open spec fn is_follower(o: LookupModel) -> bool {
    o is Follower
}

/// The outcome that owns a new fetch.
pub open spec fn is_owner(o: LookupModel) -> bool {
    o is Owner
}

/// How one bulk request splits its ids: positions answered from the cache,
/// positions that wait on fetches other callers own, and positions this
/// request must fetch, with the tokens of the fetches not yet delivered.
pub struct BulkPlan {
    cached: Vec<usize>,
    followed: Vec<usize>,
    owned: Vec<usize>,
    owned_fps: Vec<u64>,
    pending: HashMap<u64, OwnerToken>,
}

impl BulkPlan {
    /// Positions of the ids the cache answered.
    pub closed spec fn cached_view(&self) -> Seq<usize> {
        self.cached@
    }

    /// Positions of the ids that wait on a running fetch.
    pub closed spec fn followed_view(&self) -> Seq<usize> {
        self.followed@
    }

    /// Positions of the ids this request fetches.
    pub closed spec fn owned_view(&self) -> Seq<usize> {
        self.owned@
    }

    /// Positions of the ids the cache answered.
    pub fn cached(&self) -> (r: &Vec<usize>)
        ensures
            r@ == self.cached_view(),
    {
        &self.cached
    }

    /// Positions of the ids that wait on a running fetch.
    pub fn followed(&self) -> (r: &Vec<usize>)
        ensures
            r@ == self.followed_view(),
    {
        &self.followed
    }

    /// Positions of the ids this request fetches.
    pub fn owned(&self) -> (r: &Vec<usize>)
        ensures
            r@ == self.owned_view(),
    {
        &self.owned
    }

    /// The fetches not yet delivered: fingerprint to slot generation.
    pub closed spec fn pending(&self) -> Map<u64, u64> {
        self.pending@.map_values(|t: OwnerToken| t.generation)
    }

    /// Each pending token owns the fingerprint it is filed under, and every
    /// pending fingerprint is one the plan came to own.
    pub closed spec fn wf(&self) -> bool {
        &&& forall|k: u64| #[trigger]
            self.pending@.contains_key(k) ==> self.pending@[k].fingerprint == k
        &&& forall|k: u64| #[trigger]
            self.pending@.contains_key(k) ==> self.owned_fps@.contains(k)
    }

    /// Whether every owned fetch has been delivered.
    pub fn is_done(&self) -> (r: bool)
        ensures
            r == (self.pending().dom().len() == 0),
    {
        proof {
            assert(self.pending().dom() =~= self.pending@.dom());
        }
        self.pending.len() == 0
    }
}

impl<V, S> Coordinator<V, S> {
    /// Looks up each fingerprint of a bulk request in order, as `lookup`
    /// does; `make` gives the channel of each new slot. Positions answered
    /// from the cache go to `cached`, positions that follow a running fetch
    /// (one this request started for a repeated id included) to `followed`,
    /// and positions whose fetch this request now owns to `owned`, with
    /// their tokens pending until delivery.
    pub fn plan_many<F: Fn() -> S>(&mut self, fps: &Vec<u64>, now: u64, force: bool, make: F) -> (r:
        BulkPlan)
        requires
            forall|u: ()| #[trigger] make.requires(u),
        ensures
            r.wf(),
            final(self)@ == run_many(old(self)@, fps@, now, force).0,
            r.cached_view() == positions_where(
                run_many(old(self)@, fps@, now, force).1,
                |o| is_hit(o),
            ),
            r.followed_view() == positions_where(
                run_many(old(self)@, fps@, now, force).1,
                |o| is_follower(o),
            ),
            r.owned_view() == positions_where(
                run_many(old(self)@, fps@, now, force).1,
                |o| is_owner(o),
            ),
            r.pending() == owned_slots(fps@, run_many(old(self)@, fps@, now, force).1),
            forall|k: u64| #[trigger]
                r.pending().contains_key(k) ==> final(self)@.slots.contains_key(k)
                    && final(self)@.slots[k] == r.pending()[k],
            forall|k: u64| #[trigger]
                old(self).channels().contains_key(k) ==> final(self).channels().contains_key(k)
                    && final(self).channels()[k] == old(self).channels()[k],
    {
        let ghost start = self@;
        let mut plan = BulkPlan {
            cached: Vec::new(),
            followed: Vec::new(),
            owned: Vec::new(),
            owned_fps: Vec::new(),
            pending: HashMap::new(),
        };
        let mut i: usize = 0;
        while i < fps.len()
            invariant
                i <= fps@.len(),
                forall|u: ()| #[trigger] make.requires(u),
                plan.wf(),
                self@ == run_many(start, fps@.take(i as int), now, force).0,
                plan.cached@ == positions_where(
                    run_many(start, fps@.take(i as int), now, force).1,
                    |o| is_hit(o),
                ),
                plan.followed@ == positions_where(
                    run_many(start, fps@.take(i as int), now, force).1,
                    |o| is_follower(o),
                ),
                plan.owned@ == positions_where(
                    run_many(start, fps@.take(i as int), now, force).1,
                    |o| is_owner(o),
                ),
                plan.pending() == owned_slots(
                    fps@.take(i as int),
                    run_many(start, fps@.take(i as int), now, force).1,
                ),
                run_many(start, fps@.take(i as int), now, force).1.len() == i,
                forall|k: u64| #[trigger]
                    plan.pending().contains_key(k) ==> self@.slots.contains_key(k)
                        && self@.slots[k] == plan.pending()[k],
                forall|k: u64| #[trigger]
                    old(self).channels().contains_key(k) ==> self.channels().contains_key(k)
                        && self.channels()[k] == old(self).channels()[k],
            decreases fps@.len() - i,
        {
            let fp = fps[i];
            let ghost before = run_many(start, fps@.take(i as int), now, force);
            let ghost prefix = fps@.take(i as int + 1);
            assert(prefix.drop_last() =~= fps@.take(i as int));
            let channel = make();
            let out = self.lookup(fp, now, force, channel);
            let ghost o = out.model();
            let ghost after = run_many(start, prefix, now, force);
            assert(after == (self@, before.1.push(o)));
            assert(after.1.drop_last() =~= before.1);
            match out {
                Lookup::Hit => {
                    plan.cached.push(i);
                },
                Lookup::Follower => {
                    plan.followed.push(i);
                },
                Lookup::Owner(token) => {
                    let ghost old_fps = plan.owned_fps@;
                    plan.owned.push(i);
                    plan.owned_fps.push(fp);
                    plan.pending.insert(fp, token);
                    proof {
                        assert forall|k: u64| #[trigger]
                            plan.pending@.contains_key(k) implies plan.owned_fps@.contains(k) by {
                            if k != fp {
                                let j = choose|j: int|
                                    0 <= j < old_fps.len() && old_fps[j] == k;
                                assert(plan.owned_fps@[j] == k);
                            } else {
                                assert(plan.owned_fps@[old_fps.len() as int] == k);
                            }
                        }
                    }
                },
            }
            i = i + 1;
        }
        assert(fps@.take(fps@.len() as int) =~= fps@);
        plan
    }
}

impl<V, S> Coordinator<V, S> {
    /// Files one entity of a bulk response: its value is cached under `fp`
    /// until `expires_at` in any case, and the token of the pending fetch of
    /// `fp` is handed out, so that the caller broadcasts the value and
    /// releases the slot. An entity that no pending fetch asked for is a
    /// protocol error, `UnexpectedEntry`, and the plan is left as it was.
    pub fn deliver(&mut self, plan: &mut BulkPlan, fp: u64, value: V, expires_at: u64) -> (r: Result<
        OwnerToken,
        EndpointError,
    >)
        requires
            old(plan).wf(),
        ensures
            final(self)@ == (CoordinatorModel {
                cache: old(self)@.cache.insert(fp, CacheEntry { value, expires_at }),
                ..old(self)@
            }),
            final(self).channels() == old(self).channels(),
            final(plan).wf(),
            final(plan).cached_view() == old(plan).cached_view(),
            final(plan).followed_view() == old(plan).followed_view(),
            final(plan).owned_view() == old(plan).owned_view(),
            old(plan).pending().contains_key(fp) ==> (r matches Ok(t) && t.fp() == fp
                && t.generation() == old(plan).pending()[fp] && final(plan).pending() == old(
                plan,
            ).pending().remove(fp)),
            !old(plan).pending().contains_key(fp) ==> (r == Err::<OwnerToken, EndpointError>(
                EndpointError::UnexpectedEntry,
            ) && final(plan).pending() == old(plan).pending()),
    {
        self.cache.insert(fp, value, expires_at);
        match plan.pending.remove(&fp) {
            Some(token) => {
                proof {
                    assert(plan.pending() =~= old(plan).pending().remove(fp));
                }
                Ok(token)
            },
            None => Err(EndpointError::UnexpectedEntry),
        }
    }

    /// Ends a bulk request: the slot of every fetch it still owns is
    /// released, whether the chunk that should have filled it failed, left
    /// the id out, or never ran.
    pub fn finish(&mut self, plan: BulkPlan)
        requires
            plan.wf(),
        ensures
            final(self)@.cache == old(self)@.cache,
            final(self)@.next_generation == old(self)@.next_generation,
            forall|k: u64|
                #[trigger] final(self)@.slots.contains_key(k) == (old(self)@.slots.contains_key(k)
                    && !(plan.pending().contains_key(k) && plan.pending()[k] == old(
                    self,
                )@.slots[k])),
            forall|k: u64| #[trigger]
                final(self)@.slots.contains_key(k) ==> final(self)@.slots[k] == old(
                    self,
                )@.slots[k],
            forall|k: u64| #[trigger]
                final(self).channels().contains_key(k) ==> final(self).channels()[k] == old(
                    self,
                ).channels()[k],
    {
        let BulkPlan { cached: _, followed: _, owned: _, owned_fps, pending } = plan;
        let ghost all = pending@;
        let mut pending = pending;
        let mut i: usize = 0;
        while i < owned_fps.len()
            invariant
                i <= owned_fps@.len(),
                forall|k: u64| #[trigger] all.contains_key(k) ==> all[k].fingerprint == k,
                forall|k: u64| #[trigger] all.contains_key(k) ==> owned_fps@.contains(k),
                forall|k: u64| #[trigger]
                    pending@.contains_key(k) ==> all.contains_key(k) && pending@[k] == all[k],
                forall|k: u64| #[trigger]
                    all.contains_key(k) && !pending@.contains_key(k) ==> owned_fps@.take(
                        i as int,
                    ).contains(k),
                forall|j: int| 0 <= j < i ==> !pending@.contains_key(#[trigger] owned_fps@[j]),
                self@.cache == old(self)@.cache,
                self@.next_generation == old(self)@.next_generation,
                forall|k: u64|
                    #[trigger] self@.slots.contains_key(k) == (old(self)@.slots.contains_key(k)
                        && !(all.contains_key(k) && !pending@.contains_key(k) && all[k].generation
                        == old(self)@.slots[k])),
                forall|k: u64| #[trigger]
                    self@.slots.contains_key(k) ==> self@.slots[k] == old(self)@.slots[k],
                forall|k: u64| #[trigger]
                    self.channels().contains_key(k) ==> self.channels()[k] == old(self).channels()[k],
            decreases owned_fps@.len() - i,
        {
            let fp = owned_fps[i];
            match pending.remove(&fp) {
                Some(token) => {
                    self.release(token);
                },
                None => {},
            }
            proof {
                assert forall|k: u64| #[trigger]
                    all.contains_key(k) && !pending@.contains_key(k) implies owned_fps@.take(
                    i as int + 1,
                ).contains(k) by {
                    if k == fp {
                        assert(owned_fps@.take(i as int + 1)[i as int] == k);
                    } else {
                        let j = choose|j: int|
                            0 <= j < i && owned_fps@.take(i as int)[j] == k;
                        assert(owned_fps@.take(i as int + 1)[j] == k);
                    }
                }
            }
            i = i + 1;
        }
        proof {
            assert forall|k: u64| !#[trigger] pending@.contains_key(k) by {
                if pending@.contains_key(k) {
                    let j = choose|j: int| 0 <= j < owned_fps@.len() && owned_fps@[j] == k;
                }
            }
        }
    }
}

/// The state and outcomes after lookups of `fp` at `now`, one for each
/// entry of `forces` (whether that lookup bypasses the cache), in order,
/// with no store or release in between.
pub open spec fn run_lookups<V>(m: CoordinatorModel<V>, fp: u64, now: u64, forces: Seq<bool>) -> (
    CoordinatorModel<V>,
    Seq<LookupModel>,
)
    decreases forces.len(),
{
    if forces.len() == 0 {
        (m, Seq::empty())
    } else {
        let (m1, outs) = run_lookups(m, fp, now, forces.drop_last());
        let (m2, o) = lookup_spec(m1, fp, now, forces.last());
        (m2, outs.push(o))
    }
}

/// Single flight: when `fp` has no valid cache entry and no running fetch,
/// any number of lookups of it make exactly one owner, the first; every
/// other caller follows that owner's slot, so one outbound request serves
/// them all.
pub proof fn lemma_single_flight<V>(m: CoordinatorModel<V>, fp: u64, now: u64, forces: Seq<bool>)
    requires
        valid_entry(m.cache, fp, now) is None,
        !m.slots.contains_key(fp),
        forces.len() > 0,
    ensures
        run_lookups(m, fp, now, forces).1.len() == forces.len(),
        run_lookups(m, fp, now, forces).1[0] == LookupModel::Owner(m.next_generation),
        forall|i: int|
            0 < i < forces.len() ==> #[trigger] run_lookups(m, fp, now, forces).1[i]
                == LookupModel::Follower,
        run_lookups(m, fp, now, forces).0.slots[fp] == m.next_generation,
        run_lookups(m, fp, now, forces).0.cache == m.cache,
    decreases forces.len(),
{
    let prev = forces.drop_last();
    if forces.len() > 1 {
        lemma_single_flight(m, fp, now, prev);
    } else {
        assert(run_lookups(m, fp, now, prev) == (m, Seq::<LookupModel>::empty()));
    }
    let (m1, outs) = run_lookups(m, fp, now, prev);
    let (m2, o) = lookup_spec(m1, fp, now, forces.last());
    assert(run_lookups(m, fp, now, forces) == (m2, outs.push(o)));
}

/// Cache precedence: an unforced lookup that finds a valid entry answers
/// from the cache and changes nothing, whatever fetches are running.
pub proof fn lemma_cache_precedence<V>(m: CoordinatorModel<V>, fp: u64, now: u64)
    requires
        valid_entry(m.cache, fp, now) is Some,
    ensures
        lookup_spec(m, fp, now, false) == (m, LookupModel::Hit),
{
}

/// Slot cleanup: once the owner of `fp` releases its slot, after success or
/// failure alike, the next lookup never follows the finished fetch; it is
/// answered by the cache or owns a new fetch.
pub proof fn lemma_slot_cleanup<V>(m: CoordinatorModel<V>, fp: u64, g: u64, now: u64, force: bool)
    requires
        m.slots.contains_key(fp),
        m.slots[fp] == g,
    ensures
        lookup_spec(release_spec(m, fp, g), fp, now, force).1 != LookupModel::Follower,
        (force || valid_entry(m.cache, fp, now) is None) ==> lookup_spec(
            release_spec(m, fp, g),
            fp,
            now,
            force,
        ).1 == LookupModel::Owner(m.next_generation),
{
}

/// The state after the owner of `fp` publishes `value` until `expires_at`
/// and releases its slot.
pub open spec fn publish_spec<V>(m: CoordinatorModel<V>, fp: u64, g: u64, value: V, expires_at: u64) -> CoordinatorModel<V> {
    release_spec(
        CoordinatorModel {
            cache: m.cache.insert(fp, CacheEntry { value, expires_at }),
            ..m
        },
        fp,
        g,
    )
}

/// Every caller shares the owner's value: once the owner has published
/// and released, an unforced lookup before the expiry is a hit on exactly
/// the published value, so a follower whose broadcast closed reads what
/// the owner fetched and sends nothing.
pub proof fn lemma_followers_share_value<V>(m: CoordinatorModel<V>, fp: u64, g: u64, value: V, expires_at: u64, now: u64)
    requires
        now < expires_at,
    ensures
        lookup_spec(publish_spec(m, fp, g, value, expires_at), fp, now, false).1 == LookupModel::Hit,
        valid_entry(publish_spec(m, fp, g, value, expires_at).cache, fp, now) == Some(value),
{
}

/// Bulk single flight: when no id of a bulk request has a usable cache
/// entry (or the request is forced) and none is being fetched, the request
/// owns the fetch of exactly the first occurrence of each id, and every
/// repeat follows that occurrence's slot; nothing is answered from the
/// cache, the cache is untouched, and every id ends up with a slot.
pub proof fn lemma_bulk_owners<V>(m: CoordinatorModel<V>, fps: Seq<u64>, now: u64, force: bool)
    requires
        forall|i: int|
            0 <= i < fps.len() ==> (force || valid_entry(m.cache, #[trigger] fps[i], now) is None)
                && !m.slots.contains_key(fps[i]),
    ensures
        run_many(m, fps, now, force).1.len() == fps.len(),
        run_many(m, fps, now, force).0.cache == m.cache,
        forall|i: int|
            0 <= i < fps.len() ==> (#[trigger] run_many(m, fps, now, force).1[i] is Owner <==> !fps.take(
                i,
            ).contains(fps[i])),
        forall|i: int|
            0 <= i < fps.len() ==> !(#[trigger] run_many(m, fps, now, force).1[i] is Hit),
        forall|k: u64|
            #[trigger] run_many(m, fps, now, force).0.slots.contains_key(k) <==> (m.slots.contains_key(
                k,
            ) || fps.contains(k)),
    decreases fps.len(),
{
    if fps.len() == 0 {
        return;
    }
    let p = fps.drop_last();
    assert forall|i: int|
        0 <= i < p.len() implies (force || valid_entry(m.cache, #[trigger] p[i], now) is None)
            && !m.slots.contains_key(p[i]) by {
        assert(p[i] == fps[i]);
    }
    lemma_bulk_owners(m, p, now, force);
    let (m1, outs) = run_many(m, p, now, force);
    let last = fps.last();
    let (m2, o) = lookup_spec(m1, last, now, force);
    assert(run_many(m, fps, now, force) == (m2, outs.push(o)));
    assert(!m.slots.contains_key(fps[fps.len() - 1]));
    assert(fps.take(fps.len() - 1) =~= p);
    assert forall|i: int| 0 <= i < p.len() implies fps.take(i) =~= p.take(i) by {}
    assert forall|k: u64| #[trigger] m2.slots.contains_key(k) <==> (m.slots.contains_key(k)
        || fps.contains(k)) by {
        if fps.contains(k) && !p.contains(k) {
            let j = choose|j: int| 0 <= j < fps.len() && fps[j] == k;
            if j < p.len() {
                assert(p[j] == k);
            }
        }
        if p.contains(k) {
            let j = choose|j: int| 0 <= j < p.len() && p[j] == k;
            assert(fps[j] == k);
        }
    }
}

/// Bulk cache precedence: when every id of an unforced bulk request has a
/// valid cache entry, every id is answered from the cache and nothing
/// changes, whatever fetches are running.
pub proof fn lemma_bulk_cache_precedence<V>(m: CoordinatorModel<V>, fps: Seq<u64>, now: u64)
    requires
        forall|i: int| 0 <= i < fps.len() ==> valid_entry(m.cache, #[trigger] fps[i], now) is Some,
    ensures
        run_many(m, fps, now, false).0 == m,
        run_many(m, fps, now, false).1 == Seq::new(fps.len(), |i: int| LookupModel::Hit),
    decreases fps.len(),
{
    if fps.len() == 0 {
        assert(run_many(m, fps, now, false).1 =~= Seq::new(fps.len(), |i: int| LookupModel::Hit));
        return;
    }
    let p = fps.drop_last();
    assert forall|i: int| 0 <= i < p.len() implies valid_entry(m.cache, #[trigger] p[i], now) is Some by {
        assert(p[i] == fps[i]);
    }
    lemma_bulk_cache_precedence(m, p, now);
    assert(run_many(m, fps, now, false).1 =~= Seq::new(fps.len(), |i: int| LookupModel::Hit));
}

proof fn lemma_positions_all(outs: Seq<LookupModel>, p: spec_fn(LookupModel) -> bool)
    requires
        forall|i: int| 0 <= i < outs.len() ==> p(#[trigger] outs[i]),
    ensures
        positions_where(outs, p) == Seq::new(outs.len(), |i: int| i as usize),
    decreases outs.len(),
{
    if outs.len() > 0 {
        let q = outs.drop_last();
        assert forall|i: int| 0 <= i < q.len() implies p(#[trigger] q[i]) by {
            assert(q[i] == outs[i]);
        }
        lemma_positions_all(q, p);
        assert(p(outs[outs.len() - 1]));
    }
    assert(positions_where(outs, p) =~= Seq::new(outs.len(), |i: int| i as usize));
}

/// Bulk chunking input: when a bulk request's ids are pairwise distinct,
/// none has a usable cache entry (or the request is forced) and none is
/// being fetched, the request owns every id, in input order, so its chunk
/// requests carry exactly its ids, each once (see `lemma_chunks_partition`).
pub proof fn lemma_fresh_ids_all_owned<V>(m: CoordinatorModel<V>, fps: Seq<u64>, now: u64, force: bool)
    requires
        fps.no_duplicates(),
        forall|i: int|
            0 <= i < fps.len() ==> (force || valid_entry(m.cache, #[trigger] fps[i], now) is None)
                && !m.slots.contains_key(fps[i]),
    ensures
        positions_where(run_many(m, fps, now, force).1, |o| is_owner(o)) == Seq::new(
            fps.len(),
            |i: int| i as usize,
        ),
        positions_where(run_many(m, fps, now, force).1, |o| is_follower(o)).len() == 0,
        positions_where(run_many(m, fps, now, force).1, |o| is_hit(o)).len() == 0,
{
    lemma_bulk_owners(m, fps, now, force);
    let outs = run_many(m, fps, now, force).1;
    assert forall|i: int| 0 <= i < outs.len() implies is_owner(#[trigger] outs[i]) by {
        if fps.take(i).contains(fps[i]) {
            let j = choose|j: int| 0 <= j < i && fps.take(i)[j] == fps[i];
            assert(fps[j] == fps[i]);
        }
    }
    lemma_positions_all(outs, |o| is_owner(o));
    lemma_positions_none(outs, |o| is_follower(o));
    lemma_positions_none(outs, |o| is_hit(o));
}

proof fn lemma_positions_none(outs: Seq<LookupModel>, p: spec_fn(LookupModel) -> bool)
    requires
        forall|i: int| 0 <= i < outs.len() ==> !p(#[trigger] outs[i]),
    ensures
        positions_where(outs, p).len() == 0,
    decreases outs.len(),
{
    if outs.len() > 0 {
        let q = outs.drop_last();
        assert forall|i: int| 0 <= i < q.len() implies !p(#[trigger] q[i]) by {
            assert(q[i] == outs[i]);
        }
        lemma_positions_none(q, p);
        assert(!p(outs[outs.len() - 1]));
    }
}

} // verus!
