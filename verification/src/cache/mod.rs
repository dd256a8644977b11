//! Name-to-ID resolution cache with time-to-live entries.
//!
//! Six maps remember which id a name resolved to: spaces by name, and
//! types, objects and lists by (space id, name), properties by
//! (type id, name), tags by (property id, name).  Invalidating a space or a
//! type cascades to what lives under it.
pub mod resolver;

pub use resolver::Resolver;

use vstd::prelude::*;
use crate::text::opt_view;

verus! {

#[verifier::external_type_specification]
#[verifier::external_body]
#[verifier::reject_recursive_types(K)]
#[verifier::reject_recursive_types(V)]
#[verifier::reject_recursive_types(S)]
pub struct ExDashMap<K, V, S>(dashmap::DashMap<K, V, S>);

#[verifier::external_type_specification]
#[verifier::external_body]
pub struct ExInstant(std::time::Instant);

/// `Clone::clone` of `std::time::Instant`: `Instant` is `Copy`, so the clone is the same instant.
pub assume_specification[ <std::time::Instant as Clone>::clone ](i: &std::time::Instant) -> (r: std::time::Instant)
    ensures
        r == *i,
;

/// `std::time::Instant::now`: a reading of the monotonic clock.  It depends on
/// the time of the call, so nothing is stated of it.
#[verifier::external_body]
fn instant_now() -> std::time::Instant {
    std::time::Instant::now()
}

/// The instant `secs` whole seconds after `t`, as `Instant::checked_add` gives
/// it: `None` where it cannot be represented.  A function of its arguments alone.
pub uninterp spec fn checked_add_secs(t: std::time::Instant, secs: u64) -> Option<std::time::Instant>;

/// `std::time::Instant::checked_add` with `Duration::from_secs(secs)`: the
/// instant `secs` seconds after `t`, or `None` where it cannot be represented.
/// What an instant holds is opaque here, so the result is named
/// `checked_add_secs` and nothing more is stated.
#[verifier::external_body]
fn instant_checked_add_secs(t: std::time::Instant, secs: u64) -> (r: Option<std::time::Instant>)
    ensures
        r == checked_add_secs(t, secs),
{
    t.checked_add(std::time::Duration::from_secs(secs))
}

/// Whether instant `a` is later than instant `b`, as `>` on
/// `std::time::Instant` answers it: a function of the two instants alone.
pub uninterp spec fn later_than(a: std::time::Instant, b: std::time::Instant) -> bool;

/// `PartialOrd::gt` on `std::time::Instant`: whether `a` is later than `b`.
/// The comparison depends on the two instants alone, so its result is named
/// `later_than`; what an instant holds is opaque here, so nothing more is stated.
#[verifier::external_body]
fn instant_is_later(a: &std::time::Instant, b: &std::time::Instant) -> (r: bool)
    ensures
        r == later_than(*a, *b),
{
    a > b
}

/// The instant an entry made at `now` with a time to live of `ttl_seconds`
/// expires: `ttl_seconds` later, or `now` itself where that later instant
/// cannot be represented.
pub open spec fn expiry(now: std::time::Instant, ttl_seconds: u64) -> std::time::Instant {
    match checked_add_secs(now, ttl_seconds) {
        Some(t) => t,
        None => now,
    }
}

/// Cache entry with TTL
#[derive(Debug, Clone)]
pub struct CacheEntry<T> {
    pub value: T,
    pub expires_at: std::time::Instant,
}

impl<T> CacheEntry<T> {
    /// An entry holding `value` that expires `ttl_seconds` after the clock's
    /// reading at the time of the call (at that reading itself where the
    /// later instant cannot be represented).  Which instant the clock reads
    /// depends on the time of the call, so that instant is not named here.
    pub fn new(value: T, ttl_seconds: u64) -> (entry: Self)
        ensures
            entry.value == value,
            exists|now: std::time::Instant| #[trigger] expiry(now, ttl_seconds) == entry.expires_at,
    {
        let now = instant_now();
        Self::new_at(value, ttl_seconds, now)
    }

    /// An entry holding `value` that expires `ttl_seconds` after the instant
    /// `now`, or at `now` where that later instant cannot be represented.
    pub fn new_at(value: T, ttl_seconds: u64, now: std::time::Instant) -> (entry: Self)
        ensures
            entry.value == value,
            entry.expires_at == expiry(now, ttl_seconds),
    {
        let expires_at = match instant_checked_add_secs(now, ttl_seconds) {
            Some(t) => t,
            None => now,
        };
        CacheEntry { value, expires_at }
    }

    /// Whether the entry has not expired at instant `now`: its expiry is
    /// later than `now`.
    pub fn is_valid_at(&self, now: &std::time::Instant) -> (valid: bool)
        ensures
            valid == later_than(self.expires_at, *now),
    {
        instant_is_later(&self.expires_at, now)
    }

    /// Whether the entry has not expired yet: its expiry is later than the
    /// clock's reading at the time of the call.  Which instant the clock reads
    /// depends on the time of the call, so that instant is not named here.
    pub fn is_valid(&self) -> (valid: bool)
        ensures
            exists|now: std::time::Instant| #[trigger] later_than(self.expires_at, now) == valid,
    {
        let now = instant_now();
        self.is_valid_at(&now)
    }
}

/// Ids keyed by a name, as the space cache holds them.
pub type NameIds = Map<Seq<char>, Seq<char>>;

/// Ids keyed by (scope id, name), as the other caches hold them.
pub type PairIds = Map<(Seq<char>, Seq<char>), Seq<char>>;

/// The ids that a name-keyed `DashMap` holds, each entry taken by its value.
pub uninterp spec fn name_entries(m: dashmap::DashMap<String, CacheEntry<String>>) -> NameIds;

/// The ids that a pair-keyed `DashMap` holds, each entry taken by its value.
pub uninterp spec fn pair_entries(m: dashmap::DashMap<(String, String), CacheEntry<String>>) -> PairIds;

/// Expiry instants keyed by a name.
pub type NameExpiries = Map<Seq<char>, std::time::Instant>;

/// Expiry instants keyed by (scope id, name).
pub type PairExpiries = Map<(Seq<char>, Seq<char>), std::time::Instant>;

/// The instants at which the entries of a name-keyed `DashMap` expire.
pub uninterp spec fn name_expiries(m: dashmap::DashMap<String, CacheEntry<String>>) -> NameExpiries;

/// The instants at which the entries of a pair-keyed `DashMap` expire.
pub uninterp spec fn pair_expiries(m: dashmap::DashMap<(String, String), CacheEntry<String>>) -> PairExpiries;

/// What a read of `key` at the instant `now` does: where the cache holds
/// no entry for the key, it answers nothing and changes nothing; where the
/// entry expires after `now`, it answers the entry's id and changes
/// nothing; otherwise it drops the expired entry and answers nothing.
pub open spec fn read_at<K>(
    ids: Map<K, Seq<char>>,
    ids_after: Map<K, Seq<char>>,
    expiries: Map<K, std::time::Instant>,
    expiries_after: Map<K, std::time::Instant>,
    key: K,
    now: std::time::Instant,
    r: Option<Seq<char>>,
) -> bool {
    if !ids.dom().contains(key) {
        r is None && ids_after == ids && expiries_after == expiries
    } else if later_than(expiries[key], now) {
        r == Some(ids[key]) && ids_after == ids && expiries_after == expiries
    } else {
        r is None && ids_after == ids.remove(key) && expiries_after == expiries.remove(key)
    }
}

/// The entries of `m` whose id is not `id`.
pub open spec fn without_id(m: NameIds, id: Seq<char>) -> NameIds {
    Map::new(|k: Seq<char>| m.dom().contains(k) && m[k] != id, |k: Seq<char>| m[k])
}

/// The entries of `m` whose key is not scoped under `scope`.
pub open spec fn outside_scope(m: PairIds, scope: Seq<char>) -> PairIds {
    Map::new(
        |k: (Seq<char>, Seq<char>)| m.dom().contains(k) && k.0 != scope,
        |k: (Seq<char>, Seq<char>)| m[k],
    )
}

/// The entries of `m` but those scoped under `scope` whose id is `id`.
pub open spec fn without_scoped_id(m: PairIds, scope: Seq<char>, id: Seq<char>) -> PairIds {
    Map::new(
        |k: (Seq<char>, Seq<char>)| m.dom().contains(k) && !(k.0 == scope && m[k] == id),
        |k: (Seq<char>, Seq<char>)| m[k],
    )
}

/// The entries of `m` whose key is scoped under none of `scopes`.
pub open spec fn outside_scopes(m: PairIds, scopes: Set<Seq<char>>) -> PairIds {
    Map::new(
        |k: (Seq<char>, Seq<char>)| m.dom().contains(k) && !scopes.contains(k.0),
        |k: (Seq<char>, Seq<char>)| m[k],
    )
}

/// The ids that `m` holds under `scope`.
pub open spec fn ids_in_scope(m: PairIds, scope: Seq<char>) -> Set<Seq<char>> {
    Set::new(|id: Seq<char>| exists|k: (Seq<char>, Seq<char>)| #[trigger] m.dom().contains(k) && k.0 == scope && m[k] == id)
}

/// What a read of `key` may have done: found nothing and changed nothing,
/// found the stored id and changed nothing, or found an expired entry,
/// dropped it and answered nothing.
pub open spec fn read_outcome<K>(before: Map<K, Seq<char>>, after: Map<K, Seq<char>>, key: K, r: Option<Seq<char>>) -> bool {
    if !before.dom().contains(key) {
        r is None && after == before
    } else {
        match r {
            Some(id) => id == before[key] && after == before,
            None => after == before.remove(key),
        }
    }
}

/// `dashmap::DashMap::new`: the new map holds nothing.
#[verifier::external_body]
fn name_map_new() -> (m: dashmap::DashMap<String, CacheEntry<String>>)
    ensures
        name_entries(m) == NameIds::empty(),
        name_expiries(m) == NameExpiries::empty(),
{
    dashmap::DashMap::new()
}

/// `dashmap::DashMap::new`: the new map holds nothing.
#[verifier::external_body]
fn pair_map_new() -> (m: dashmap::DashMap<(String, String), CacheEntry<String>>)
    ensures
        pair_entries(m) == PairIds::empty(),
        pair_expiries(m) == PairExpiries::empty(),
{
    dashmap::DashMap::new()
}

/// `dashmap::DashMap::insert`: the key now maps to the entry, in place of any earlier one.
#[verifier::external_body]
fn name_map_insert(m: &mut dashmap::DashMap<String, CacheEntry<String>>, key: String, entry: CacheEntry<String>)
    ensures
        name_entries(*final(m)) == name_entries(*old(m)).insert(key@, entry.value@),
        name_expiries(*final(m)) == name_expiries(*old(m)).insert(key@, entry.expires_at),
{
    m.insert(key, entry);
}

/// `dashmap::DashMap::insert`: the key now maps to the entry, in place of any earlier one.
#[verifier::external_body]
fn pair_map_insert(m: &mut dashmap::DashMap<(String, String), CacheEntry<String>>, key: (String, String), entry: CacheEntry<String>)
    ensures
        pair_entries(*final(m)) == pair_entries(*old(m)).insert((key.0@, key.1@), entry.value@),
        pair_expiries(*final(m)) == pair_expiries(*old(m)).insert((key.0@, key.1@), entry.expires_at),
{
    m.insert(key, entry);
}

/// `dashmap::DashMap::get`, cloning the entry found: `Some` exactly where the
/// key is present, with the entry stored there.
#[verifier::external_body]
fn name_map_get(m: &dashmap::DashMap<String, CacheEntry<String>>, key: &str) -> (r: Option<CacheEntry<String>>)
    ensures
        r is Some <==> name_entries(*m).dom().contains(key@),
        r is Some <==> name_expiries(*m).dom().contains(key@),
        r matches Some(e) ==> e.value@ == name_entries(*m)[key@] && e.expires_at == name_expiries(*m)[key@],
{
    m.get(key).map(|guard| guard.value().clone())
}

/// `dashmap::DashMap::get`, cloning the entry found: `Some` exactly where the
/// key is present, with the entry stored there.
#[verifier::external_body]
fn pair_map_get(m: &dashmap::DashMap<(String, String), CacheEntry<String>>, key: &(String, String)) -> (r: Option<CacheEntry<String>>)
    ensures
        r is Some <==> pair_entries(*m).dom().contains((key.0@, key.1@)),
        r is Some <==> pair_expiries(*m).dom().contains((key.0@, key.1@)),
        r matches Some(e) ==> e.value@ == pair_entries(*m)[(key.0@, key.1@)]
            && e.expires_at == pair_expiries(*m)[(key.0@, key.1@)],
{
    m.get(key).map(|guard| guard.value().clone())
}

/// `dashmap::DashMap::remove`: the key no longer maps to anything.
#[verifier::external_body]
fn name_map_remove(m: &mut dashmap::DashMap<String, CacheEntry<String>>, key: &str)
    ensures
        name_entries(*final(m)) == name_entries(*old(m)).remove(key@),
        name_expiries(*final(m)) == name_expiries(*old(m)).remove(key@),
{
    m.remove(key);
}

/// `dashmap::DashMap::remove`: the key no longer maps to anything.
#[verifier::external_body]
fn pair_map_remove(m: &mut dashmap::DashMap<(String, String), CacheEntry<String>>, key: &(String, String))
    ensures
        pair_entries(*final(m)) == pair_entries(*old(m)).remove((key.0@, key.1@)),
        pair_expiries(*final(m)) == pair_expiries(*old(m)).remove((key.0@, key.1@)),
{
    m.remove(key);
}

/// `dashmap::DashMap::clear`: the map holds nothing.
#[verifier::external_body]
fn name_map_clear(m: &mut dashmap::DashMap<String, CacheEntry<String>>)
    ensures
        name_entries(*final(m)) == NameIds::empty(),
        name_expiries(*final(m)) == NameExpiries::empty(),
{
    m.clear();
}

/// `dashmap::DashMap::clear`: the map holds nothing.
#[verifier::external_body]
fn pair_map_clear(m: &mut dashmap::DashMap<(String, String), CacheEntry<String>>)
    ensures
        pair_entries(*final(m)) == PairIds::empty(),
        pair_expiries(*final(m)) == PairExpiries::empty(),
{
    m.clear();
}

/// Whether an entry's id differs from `id`.
pub fn id_differs(entry: &CacheEntry<String>, id: &str) -> (r: bool)
    ensures
        r == (entry.value@ != id@),
{
    !crate::text::same_text(entry.value.as_str(), id)
}

/// Whether a key is scoped under something other than `scope`.
pub fn scope_differs(key: &(String, String), scope: &str) -> (r: bool)
    ensures
        r == (key.0@ != scope@),
{
    !crate::text::same_text(key.0.as_str(), scope)
}

/// Whether an entry is kept when the id `id` under `scope` is dropped.
pub fn keeps_unless_scoped_id(key: &(String, String), entry: &CacheEntry<String>, scope: &str, id: &str) -> (r: bool)
    ensures
        r == !(key.0@ == scope@ && entry.value@ == id@),
{
    !(crate::text::same_text(key.0.as_str(), scope) && crate::text::same_text(entry.value.as_str(), id))
}

/// `dashmap::DashMap::retain`, keeping the entries whose id is not `id`.
#[verifier::external_body]
fn name_map_retain_without_id(m: &mut dashmap::DashMap<String, CacheEntry<String>>, id: &str)
    ensures
        name_entries(*final(m)) == without_id(name_entries(*old(m)), id@),
        name_expiries(*final(m)) == name_expiries(*old(m)).restrict(name_entries(*final(m)).dom()),
{
    m.retain(|_, entry| id_differs(entry, id));
}

/// `dashmap::DashMap::retain`, keeping the entries not scoped under `scope`.
#[verifier::external_body]
fn pair_map_retain_outside_scope(m: &mut dashmap::DashMap<(String, String), CacheEntry<String>>, scope: &str)
    ensures
        pair_entries(*final(m)) == outside_scope(pair_entries(*old(m)), scope@),
        pair_expiries(*final(m)) == pair_expiries(*old(m)).restrict(pair_entries(*final(m)).dom()),
{
    m.retain(|key, _| scope_differs(key, scope));
}

/// `dashmap::DashMap::retain`, dropping the entries scoped under `scope` whose id is `id`.
#[verifier::external_body]
fn pair_map_retain_without_scoped_id(m: &mut dashmap::DashMap<(String, String), CacheEntry<String>>, scope: &str, id: &str)
    ensures
        pair_entries(*final(m)) == without_scoped_id(pair_entries(*old(m)), scope@, id@),
        pair_expiries(*final(m)) == pair_expiries(*old(m)).restrict(pair_entries(*final(m)).dom()),
{
    m.retain(|key, entry| keeps_unless_scoped_id(key, entry, scope, id));
}

/// `dashmap::DashMap::iter`, collecting each entry as its key and id.  The
/// order in which a `DashMap` is walked is not fixed, so only which entries
/// come out is stated: each is an entry of the map, and every entry of the
/// map comes out.
#[verifier::external_body]
fn pair_map_entries(m: &dashmap::DashMap<(String, String), CacheEntry<String>>) -> (r: Vec<((String, String), String)>)
    ensures
        forall|i: int| 0 <= i < r.len() ==> pair_entries(*m).dom().contains(#[trigger] entry_key(r@[i]))
            && pair_entries(*m)[entry_key(r@[i])] == r@[i].1@,
        forall|k: (Seq<char>, Seq<char>)| #[trigger] pair_entries(*m).dom().contains(k)
            ==> exists|i: int| 0 <= i < r.len() && entry_key(r@[i]) == k,
{
    m.iter().map(|item| (item.key().clone(), item.value().value.clone())).collect()
}

/// The key of a collected entry.
pub open spec fn entry_key(e: ((String, String), String)) -> (Seq<char>, Seq<char>) {
    (e.0.0@, e.0.1@)
}

/// The ids of the entries scoped under `scope`: each is an id under `scope`,
/// and every id under `scope` comes out.
fn pair_map_ids_in_scope(m: &dashmap::DashMap<(String, String), CacheEntry<String>>, scope: &str) -> (r: Vec<String>)
    ensures
        forall|i: int| 0 <= i < r.len() ==> #[trigger] ids_in_scope(pair_entries(*m), scope@).contains(r@[i]@),
        forall|id: Seq<char>| #[trigger] ids_in_scope(pair_entries(*m), scope@).contains(id)
            ==> exists|i: int| 0 <= i < r.len() && r@[i]@ == id,
{
    let entries = pair_map_entries(m);
    let ghost pe = pair_entries(*m);
    let mut out: Vec<String> = Vec::new();
    let mut j: usize = 0;
    while j < entries.len()
        invariant
            0 <= j <= entries@.len(),
            pe == pair_entries(*m),
            forall|i: int| 0 <= i < entries@.len() ==> pe.dom().contains(#[trigger] entry_key(entries@[i]))
                && pe[entry_key(entries@[i])] == entries@[i].1@,
            forall|x: int| 0 <= x < out@.len() ==> #[trigger] ids_in_scope(pe, scope@).contains(out@[x]@),
            forall|i: int| 0 <= i < j && (#[trigger] entries@[i]).0.0@ == scope@
                ==> exists|x: int| 0 <= x < out@.len() && out@[x]@ == entries@[i].1@,
        decreases entries.len() - j,
    {
        let entry = &entries[j];
        if !scope_differs(&entry.0, scope) {
            proof {
                let k = entry_key(entries@[j as int]);
                assert(pe.dom().contains(k) && k.0 == scope@ && pe[k] == entry.1@);
            }
            let ghost before = out@;
            out.push(entry.1.clone());
            proof {
                assert forall|i: int| 0 <= i < j + 1 && (#[trigger] entries@[i]).0.0@ == scope@
                    implies exists|x: int| 0 <= x < out@.len() && out@[x]@ == entries@[i].1@ by {
                    if i < j {
                        let x = choose|x: int| 0 <= x < before.len() && before[x]@ == entries@[i].1@;
                        assert(out@[x] == before[x]);
                    } else {
                        assert(out@[before.len() as int]@ == entries@[i].1@);
                    }
                }
            }
        }
        j = j + 1;
    }
    proof {
        assert forall|id: Seq<char>| #[trigger] ids_in_scope(pe, scope@).contains(id)
            implies exists|x: int| 0 <= x < out@.len() && out@[x]@ == id by {
            let k = choose|k: (Seq<char>, Seq<char>)| #[trigger] pe.dom().contains(k) && k.0 == scope@ && pe[k] == id;
            let i = choose|i: int| 0 <= i < entries@.len() && entry_key(entries@[i]) == k;
            assert(entries@[i].0.0@ == scope@);
        }
    }
    out
}

/// The expiry instants of the entries a name-keyed map holds.
pub open spec fn held_name_expiries(m: dashmap::DashMap<String, CacheEntry<String>>) -> NameExpiries {
    name_expiries(m).restrict(name_entries(m).dom())
}

/// The expiry instants of the entries a pair-keyed map holds.
pub open spec fn held_pair_expiries(m: dashmap::DashMap<(String, String), CacheEntry<String>>) -> PairExpiries {
    pair_expiries(m).restrict(pair_entries(m).dom())
}

/// Looks a name up in a name-keyed map at the instant `now`, dropping the
/// entry if it expired.
fn read_name_at(m: &mut dashmap::DashMap<String, CacheEntry<String>>, key: &str, now: &std::time::Instant) -> (r: Option<String>)
    ensures
        read_at(name_entries(*old(m)), name_entries(*final(m)), held_name_expiries(*old(m)), held_name_expiries(*final(m)),
            key@, *now, opt_view(r)),
{
    match name_map_get(m, key) {
        Some(entry) => {
            if entry.is_valid_at(now) {
                Some(entry.value)
            } else {
                let ghost before = *m;
                name_map_remove(m, key);
                assert(held_name_expiries(*m) =~= held_name_expiries(before).remove(key@));
                None
            }
        },
        None => None,
    }
}

/// Looks a (scope, name) key up in a pair-keyed map at the instant `now`,
/// dropping the entry if it expired.
fn read_pair_at(m: &mut dashmap::DashMap<(String, String), CacheEntry<String>>, scope: &str, name: &str, now: &std::time::Instant) -> (r: Option<String>)
    ensures
        read_at(pair_entries(*old(m)), pair_entries(*final(m)), held_pair_expiries(*old(m)), held_pair_expiries(*final(m)),
            (scope@, name@), *now, opt_view(r)),
{
    let key = (crate::text::owned(scope), crate::text::owned(name));
    match pair_map_get(m, &key) {
        Some(entry) => {
            if entry.is_valid_at(now) {
                Some(entry.value)
            } else {
                let ghost before = *m;
                pair_map_remove(m, &key);
                assert(held_pair_expiries(*m) =~= held_pair_expiries(before).remove((scope@, name@)));
                None
            }
        },
        None => None,
    }
}

/// One of the six maps of the cache.
#[derive(PartialEq, Eq, Structural)]
pub enum CacheMap {
    Spaces,
    Types,
    Objects,
    Lists,
    Properties,
    Tags,
}

/// Thread-safe, in-memory cache for name-to-ID mappings
pub struct ResolveCache {
    /// Cache for space names -> IDs
    spaces: dashmap::DashMap<String, CacheEntry<String>>,
    /// Cache for (space_id, type_name) -> type_id
    types: dashmap::DashMap<(String, String), CacheEntry<String>>,
    /// Cache for (space_id, object_name) -> object_id
    objects: dashmap::DashMap<(String, String), CacheEntry<String>>,
    /// Cache for (space_id, list_name) -> list_id
    lists: dashmap::DashMap<(String, String), CacheEntry<String>>,
    /// Cache for (type_id, property_name) -> property_id
    properties: dashmap::DashMap<(String, String), CacheEntry<String>>,
    /// Cache for (property_id, tag_name) -> tag_id
    tags: dashmap::DashMap<(String, String), CacheEntry<String>>,
    /// TTL in seconds
    ttl: u64,
}

impl ResolveCache {
    /// Space ids by space name.
    pub closed spec fn space_ids(&self) -> NameIds {
        name_entries(self.spaces)
    }

    /// Type ids by (space id, type name).
    pub closed spec fn type_ids(&self) -> PairIds {
        pair_entries(self.types)
    }

    /// Object ids by (space id, object name).
    pub closed spec fn object_ids(&self) -> PairIds {
        pair_entries(self.objects)
    }

    /// List ids by (space id, list name).
    pub closed spec fn list_ids(&self) -> PairIds {
        pair_entries(self.lists)
    }

    /// Property ids by (type id, property name).
    pub closed spec fn property_ids(&self) -> PairIds {
        pair_entries(self.properties)
    }

    /// Tag ids by (property id, tag name).
    pub closed spec fn tag_ids(&self) -> PairIds {
        pair_entries(self.tags)
    }

    /// When each cached space entry expires, by the key it is cached under.
    pub closed spec fn space_expiries(&self) -> NameExpiries {
        held_name_expiries(self.spaces)
    }

    /// When each cached type entry expires, by the key it is cached under.
    pub closed spec fn type_expiries(&self) -> PairExpiries {
        held_pair_expiries(self.types)
    }

    /// When each cached object entry expires, by the key it is cached under.
    pub closed spec fn object_expiries(&self) -> PairExpiries {
        held_pair_expiries(self.objects)
    }

    /// When each cached list entry expires, by the key it is cached under.
    pub closed spec fn list_expiries(&self) -> PairExpiries {
        held_pair_expiries(self.lists)
    }

    /// When each cached property entry expires, by the key it is cached under.
    pub closed spec fn property_expiries(&self) -> PairExpiries {
        held_pair_expiries(self.properties)
    }

    /// When each cached tag entry expires, by the key it is cached under.
    pub closed spec fn tag_expiries(&self) -> PairExpiries {
        held_pair_expiries(self.tags)
    }

    /// The time-to-live of new entries, in seconds.
    pub closed spec fn ttl_seconds(&self) -> u64 {
        self.ttl
    }

    /// Whether `self` and `other` hold the same entries in every map but
    /// `except`, and the same TTL.
    pub open spec fn same_outside(&self, other: &Self, except: CacheMap) -> bool {
        &&& (except != CacheMap::Spaces ==> self.space_ids() == other.space_ids())
        &&& (except != CacheMap::Types ==> self.type_ids() == other.type_ids())
        &&& (except != CacheMap::Objects ==> self.object_ids() == other.object_ids())
        &&& (except != CacheMap::Lists ==> self.list_ids() == other.list_ids())
        &&& (except != CacheMap::Properties ==> self.property_ids() == other.property_ids())
        &&& (except != CacheMap::Tags ==> self.tag_ids() == other.tag_ids())
        &&& self.ttl_seconds() == other.ttl_seconds()
        &&& self.expiries_same_except(other, except)
    }

    /// Whether `self` and `other` give the same expiries in every map but
    /// `except`.
    pub open spec fn expiries_same_except(&self, other: &Self, except: CacheMap) -> bool {
        &&& (except != CacheMap::Spaces ==> self.space_expiries() == other.space_expiries())
        &&& (except != CacheMap::Types ==> self.type_expiries() == other.type_expiries())
        &&& (except != CacheMap::Objects ==> self.object_expiries() == other.object_expiries())
        &&& (except != CacheMap::Lists ==> self.list_expiries() == other.list_expiries())
        &&& (except != CacheMap::Properties ==> self.property_expiries() == other.property_expiries())
        &&& (except != CacheMap::Tags ==> self.tag_expiries() == other.tag_expiries())
    }

    /// Whether every entry `self` still holds expires when it did in `other`:
    /// dropping entries keeps the expiries of the rest.
    pub open spec fn expiries_kept(&self, other: &Self) -> bool {
        &&& self.space_expiries() == other.space_expiries().restrict(self.space_ids().dom())
        &&& self.type_expiries() == other.type_expiries().restrict(self.type_ids().dom())
        &&& self.object_expiries() == other.object_expiries().restrict(self.object_ids().dom())
        &&& self.list_expiries() == other.list_expiries().restrict(self.list_ids().dom())
        &&& self.property_expiries() == other.property_expiries().restrict(self.property_ids().dom())
        &&& self.tag_expiries() == other.tag_expiries().restrict(self.tag_ids().dom())
    }

    pub fn new(ttl: u64) -> (cache: Self)
        ensures
            cache.space_ids() == NameIds::empty(),
            cache.type_ids() == PairIds::empty(),
            cache.object_ids() == PairIds::empty(),
            cache.list_ids() == PairIds::empty(),
            cache.property_ids() == PairIds::empty(),
            cache.tag_ids() == PairIds::empty(),
            cache.ttl_seconds() == ttl,
    {
        ResolveCache {
            spaces: name_map_new(),
            types: pair_map_new(),
            objects: pair_map_new(),
            lists: pair_map_new(),
            properties: pair_map_new(),
            tags: pair_map_new(),
            ttl,
        }
    }

    // Space operations
    /// The id cached for the key, read at the clock's reading at the time of
    /// the call: an entry that expired by then is dropped and nothing is
    /// answered.  Which instant the clock reads is not named here.
    pub fn get_space(&mut self, name: &str) -> (r: Option<String>)
        ensures
            read_outcome(old(self).space_ids(), final(self).space_ids(), name@, opt_view(r)),
            exists|now: std::time::Instant| #[trigger] read_at(old(self).space_ids(), final(self).space_ids(),
                old(self).space_expiries(), final(self).space_expiries(), name@, now, opt_view(r)),
            final(self).type_ids() == old(self).type_ids(),
            final(self).object_ids() == old(self).object_ids(),
            final(self).list_ids() == old(self).list_ids(),
            final(self).property_ids() == old(self).property_ids(),
            final(self).tag_ids() == old(self).tag_ids(),
            final(self).ttl_seconds() == old(self).ttl_seconds(),
            final(self).expiries_same_except(&old(self), CacheMap::Spaces),
    {
        let now = instant_now();
        self.get_space_at(name, &now)
    }

    /// The id cached for the key, read at the instant `now`: an entry that
    /// expired by then is dropped and nothing is answered.
    pub fn get_space_at(&mut self, name: &str, now: &std::time::Instant) -> (r: Option<String>)
        ensures
            read_at(old(self).space_ids(), final(self).space_ids(), old(self).space_expiries(), final(self).space_expiries(),
                name@, *now, opt_view(r)),
            final(self).type_ids() == old(self).type_ids(),
            final(self).object_ids() == old(self).object_ids(),
            final(self).list_ids() == old(self).list_ids(),
            final(self).property_ids() == old(self).property_ids(),
            final(self).tag_ids() == old(self).tag_ids(),
            final(self).ttl_seconds() == old(self).ttl_seconds(),
            final(self).expiries_same_except(&old(self), CacheMap::Spaces),
    {
        read_name_at(&mut self.spaces, name, now)
    }

    /// Caches the id for the key, expiring the TTL after the clock's
    /// reading at the time of the call.  Which instant the clock reads is not
    /// named here.
    pub fn insert_space(&mut self, name: String, id: String)
        ensures
            final(self).space_ids() == old(self).space_ids().insert(name@, id@),
            exists|now: std::time::Instant| final(self).space_expiries()
                == old(self).space_expiries().insert(name@, #[trigger] expiry(now, old(self).ttl_seconds())),
            final(self).type_ids() == old(self).type_ids(),
            final(self).object_ids() == old(self).object_ids(),
            final(self).list_ids() == old(self).list_ids(),
            final(self).property_ids() == old(self).property_ids(),
            final(self).tag_ids() == old(self).tag_ids(),
            final(self).ttl_seconds() == old(self).ttl_seconds(),
            final(self).expiries_same_except(&old(self), CacheMap::Spaces),
    {
        let now = instant_now();
        self.insert_space_at(name, id, now);
    }

    /// Caches the id for the key as of the instant `now`: the entry expires
    /// the TTL after `now`.
    pub fn insert_space_at(&mut self, name: String, id: String, now: std::time::Instant)
        ensures
            final(self).space_ids() == old(self).space_ids().insert(name@, id@),
            final(self).space_expiries() == old(self).space_expiries().insert(name@, expiry(now, old(self).ttl_seconds())),
            final(self).type_ids() == old(self).type_ids(),
            final(self).object_ids() == old(self).object_ids(),
            final(self).list_ids() == old(self).list_ids(),
            final(self).property_ids() == old(self).property_ids(),
            final(self).tag_ids() == old(self).tag_ids(),
            final(self).ttl_seconds() == old(self).ttl_seconds(),
            final(self).expiries_same_except(&old(self), CacheMap::Spaces),
    {
        let ghost before = self.spaces;
        let entry = CacheEntry::new_at(id, self.ttl, now);
        name_map_insert(&mut self.spaces, name, entry);
        assert(held_name_expiries(self.spaces) =~= held_name_expiries(before).insert(name@, expiry(now, self.ttl)));
    }

    /// Drops the space whose id is `space_id`, and the types, objects and
    /// lists cached under it.  Properties and tags are keyed by type and
    /// property ids, so they stay.
    pub fn invalidate_space(&mut self, space_id: &str)
        ensures
            final(self).space_ids() == without_id(old(self).space_ids(), space_id@),
            final(self).type_ids() == outside_scope(old(self).type_ids(), space_id@),
            final(self).object_ids() == outside_scope(old(self).object_ids(), space_id@),
            final(self).list_ids() == outside_scope(old(self).list_ids(), space_id@),
            final(self).property_ids() == old(self).property_ids(),
            final(self).tag_ids() == old(self).tag_ids(),
            final(self).ttl_seconds() == old(self).ttl_seconds(),
            final(self).expiries_kept(&old(self)),
    {
        // Remove space
        name_map_retain_without_id(&mut self.spaces, space_id);
        // Cascade: remove all types, objects, lists in this space
        pair_map_retain_outside_scope(&mut self.types, space_id);
        pair_map_retain_outside_scope(&mut self.objects, space_id);
        pair_map_retain_outside_scope(&mut self.lists, space_id);
        assert(self.space_expiries() =~= old(self).space_expiries().restrict(self.space_ids().dom()));
        assert(self.type_expiries() =~= old(self).type_expiries().restrict(self.type_ids().dom()));
        assert(self.object_expiries() =~= old(self).object_expiries().restrict(self.object_ids().dom()));
        assert(self.list_expiries() =~= old(self).list_expiries().restrict(self.list_ids().dom()));
        assert(self.property_expiries() =~= old(self).property_expiries().restrict(self.property_ids().dom()));
        assert(self.tag_expiries() =~= old(self).tag_expiries().restrict(self.tag_ids().dom()));
    }

    // Type operations
    /// The id cached for the key, read at the clock's reading at the time of
    /// the call: an entry that expired by then is dropped and nothing is
    /// answered.  Which instant the clock reads is not named here.
    pub fn get_type(&mut self, space_id: &str, name: &str) -> (r: Option<String>)
        ensures
            read_outcome(old(self).type_ids(), final(self).type_ids(), (space_id@, name@), opt_view(r)),
            exists|now: std::time::Instant| #[trigger] read_at(old(self).type_ids(), final(self).type_ids(),
                old(self).type_expiries(), final(self).type_expiries(), (space_id@, name@), now, opt_view(r)),
            final(self).space_ids() == old(self).space_ids(),
            final(self).object_ids() == old(self).object_ids(),
            final(self).list_ids() == old(self).list_ids(),
            final(self).property_ids() == old(self).property_ids(),
            final(self).tag_ids() == old(self).tag_ids(),
            final(self).ttl_seconds() == old(self).ttl_seconds(),
            final(self).expiries_same_except(&old(self), CacheMap::Types),
    {
        let now = instant_now();
        self.get_type_at(space_id, name, &now)
    }

    /// The id cached for the key, read at the instant `now`: an entry that
    /// expired by then is dropped and nothing is answered.
    pub fn get_type_at(&mut self, space_id: &str, name: &str, now: &std::time::Instant) -> (r: Option<String>)
        ensures
            read_at(old(self).type_ids(), final(self).type_ids(), old(self).type_expiries(), final(self).type_expiries(),
                (space_id@, name@), *now, opt_view(r)),
            final(self).space_ids() == old(self).space_ids(),
            final(self).object_ids() == old(self).object_ids(),
            final(self).list_ids() == old(self).list_ids(),
            final(self).property_ids() == old(self).property_ids(),
            final(self).tag_ids() == old(self).tag_ids(),
            final(self).ttl_seconds() == old(self).ttl_seconds(),
            final(self).expiries_same_except(&old(self), CacheMap::Types),
    {
        read_pair_at(&mut self.types, space_id, name, now)
    }

    /// Caches the id for the key, expiring the TTL after the clock's
    /// reading at the time of the call.  Which instant the clock reads is not
    /// named here.
    pub fn insert_type(&mut self, space_id: String, name: String, id: String)
        ensures
            final(self).type_ids() == old(self).type_ids().insert((space_id@, name@), id@),
            exists|now: std::time::Instant| final(self).type_expiries()
                == old(self).type_expiries().insert((space_id@, name@), #[trigger] expiry(now, old(self).ttl_seconds())),
            final(self).space_ids() == old(self).space_ids(),
            final(self).object_ids() == old(self).object_ids(),
            final(self).list_ids() == old(self).list_ids(),
            final(self).property_ids() == old(self).property_ids(),
            final(self).tag_ids() == old(self).tag_ids(),
            final(self).ttl_seconds() == old(self).ttl_seconds(),
            final(self).expiries_same_except(&old(self), CacheMap::Types),
    {
        let now = instant_now();
        self.insert_type_at(space_id, name, id, now);
    }

    /// Caches the id for the key as of the instant `now`: the entry expires
    /// the TTL after `now`.
    pub fn insert_type_at(&mut self, space_id: String, name: String, id: String, now: std::time::Instant)
        ensures
            final(self).type_ids() == old(self).type_ids().insert((space_id@, name@), id@),
            final(self).type_expiries() == old(self).type_expiries().insert((space_id@, name@), expiry(now, old(self).ttl_seconds())),
            final(self).space_ids() == old(self).space_ids(),
            final(self).object_ids() == old(self).object_ids(),
            final(self).list_ids() == old(self).list_ids(),
            final(self).property_ids() == old(self).property_ids(),
            final(self).tag_ids() == old(self).tag_ids(),
            final(self).ttl_seconds() == old(self).ttl_seconds(),
            final(self).expiries_same_except(&old(self), CacheMap::Types),
    {
        let ghost before = self.types;
        let entry = CacheEntry::new_at(id, self.ttl, now);
        pair_map_insert(&mut self.types, (space_id, name), entry);
        assert(held_pair_expiries(self.types) =~= held_pair_expiries(before).insert((space_id@, name@), expiry(now, self.ttl)));
    }

    /// Drops the type `type_id` cached under `space_id`, every property
    /// cached under that type, and every tag cached under those properties.
    pub fn invalidate_type(&mut self, space_id: &str, type_id: &str)
        ensures
            final(self).type_ids() == without_scoped_id(old(self).type_ids(), space_id@, type_id@),
            final(self).property_ids() == outside_scope(old(self).property_ids(), type_id@),
            final(self).tag_ids() == outside_scopes(
                old(self).tag_ids(),
                ids_in_scope(old(self).property_ids(), type_id@),
            ),
            final(self).space_ids() == old(self).space_ids(),
            final(self).object_ids() == old(self).object_ids(),
            final(self).list_ids() == old(self).list_ids(),
            final(self).ttl_seconds() == old(self).ttl_seconds(),
            final(self).expiries_kept(&old(self)),
    {
        // Collect property IDs to invalidate tags
        let property_ids = pair_map_ids_in_scope(&self.properties, type_id);
        let ghost dropped = ids_in_scope(old(self).property_ids(), type_id@);
        let ghost tags0 = old(self).tag_ids();

        // Remove type
        pair_map_retain_without_scoped_id(&mut self.types, space_id, type_id);
        // Cascade: remove all properties for this type
        pair_map_retain_outside_scope(&mut self.properties, type_id);
        let ghost settled = (self.space_ids(), self.type_ids(), self.object_ids(), self.list_ids(), self.property_ids(), self.ttl);
        let ghost settled_expiries = (self.space_expiries(), self.type_expiries(), self.object_expiries(), self.list_expiries(), self.property_expiries());
        proof {
            assert(self.tag_expiries() =~= old(self).tag_expiries().restrict(self.tag_ids().dom()));
        }
        // Cascade: remove all tags for those properties
        let mut i: usize = 0;
        while i < property_ids.len()
            invariant
                settled == (self.space_ids(), self.type_ids(), self.object_ids(), self.list_ids(), self.property_ids(), self.ttl),
                settled_expiries == (self.space_expiries(), self.type_expiries(), self.object_expiries(), self.list_expiries(), self.property_expiries()),
                self.tag_expiries() == old(self).tag_expiries().restrict(self.tag_ids().dom()),
                0 <= i <= property_ids.len(),
                forall|j: int| 0 <= j < property_ids.len() ==> #[trigger] dropped.contains(property_ids@[j]@),
                forall|id: Seq<char>| #[trigger] dropped.contains(id)
                    ==> exists|j: int| 0 <= j < property_ids.len() && property_ids@[j]@ == id,
                pair_entries(self.tags) == outside_scopes(
                    tags0,
                    Set::new(|id: Seq<char>| exists|j: int| 0 <= j < i && property_ids@[j]@ == id),
                ),
            decreases property_ids.len() - i,
        {
            let ghost before = pair_entries(self.tags);
            let ghost before_map = self.tags;
            pair_map_retain_outside_scope(&mut self.tags, property_ids[i].as_str());
            proof {
                assert(held_pair_expiries(self.tags) =~= held_pair_expiries(before_map).restrict(pair_entries(self.tags).dom()));
                assert(self.tag_expiries() =~= old(self).tag_expiries().restrict(self.tag_ids().dom()));
                let seen = Set::new(|id: Seq<char>| exists|j: int| 0 <= j < i && property_ids@[j]@ == id);
                let seen2 = Set::new(|id: Seq<char>| exists|j: int| 0 <= j < i + 1 && property_ids@[j]@ == id);
                assert forall|k: (Seq<char>, Seq<char>)| #![auto] seen2.contains(k.0) <==> (seen.contains(k.0) || k.0 == property_ids@[i as int]@) by {
                    if seen2.contains(k.0) {
                        let j = choose|j: int| 0 <= j < i + 1 && property_ids@[j]@ == k.0;
                        if j < i {
                            assert(seen.contains(k.0));
                        }
                    }
                    if seen.contains(k.0) {
                        let j = choose|j: int| 0 <= j < i && property_ids@[j]@ == k.0;
                        assert(0 <= j < i + 1 && property_ids@[j]@ == k.0);
                    }
                    if k.0 == property_ids@[i as int]@ {
                        assert(0 <= i < i + 1 && property_ids@[i as int]@ == k.0);
                    }
                };
                assert(pair_entries(self.tags) =~= outside_scopes(tags0, seen2));
            }
            i = i + 1;
        }
        proof {
            let seen = Set::new(|id: Seq<char>| exists|j: int| 0 <= j < i && property_ids@[j]@ == id);
            assert forall|id: Seq<char>| seen.contains(id) <==> dropped.contains(id) by {
                if seen.contains(id) {
                    let j = choose|j: int| 0 <= j < i && property_ids@[j]@ == id;
                    assert(dropped.contains(property_ids@[j]@));
                }
            };
            assert(seen =~= dropped);
        }
        assert(self.space_expiries() =~= old(self).space_expiries().restrict(self.space_ids().dom()));
        assert(self.type_expiries() =~= old(self).type_expiries().restrict(self.type_ids().dom()));
        assert(self.object_expiries() =~= old(self).object_expiries().restrict(self.object_ids().dom()));
        assert(self.list_expiries() =~= old(self).list_expiries().restrict(self.list_ids().dom()));
        assert(self.property_expiries() =~= old(self).property_expiries().restrict(self.property_ids().dom()));
        assert(self.tag_expiries() =~= old(self).tag_expiries().restrict(self.tag_ids().dom()));
    }

    // Object operations
    /// The id cached for the key, read at the clock's reading at the time of
    /// the call: an entry that expired by then is dropped and nothing is
    /// answered.  Which instant the clock reads is not named here.
    pub fn get_object(&mut self, space_id: &str, name: &str) -> (r: Option<String>)
        ensures
            read_outcome(old(self).object_ids(), final(self).object_ids(), (space_id@, name@), opt_view(r)),
            exists|now: std::time::Instant| #[trigger] read_at(old(self).object_ids(), final(self).object_ids(),
                old(self).object_expiries(), final(self).object_expiries(), (space_id@, name@), now, opt_view(r)),
            final(self).space_ids() == old(self).space_ids(),
            final(self).type_ids() == old(self).type_ids(),
            final(self).list_ids() == old(self).list_ids(),
            final(self).property_ids() == old(self).property_ids(),
            final(self).tag_ids() == old(self).tag_ids(),
            final(self).ttl_seconds() == old(self).ttl_seconds(),
            final(self).expiries_same_except(&old(self), CacheMap::Objects),
    {
        let now = instant_now();
        self.get_object_at(space_id, name, &now)
    }

    /// The id cached for the key, read at the instant `now`: an entry that
    /// expired by then is dropped and nothing is answered.
    pub fn get_object_at(&mut self, space_id: &str, name: &str, now: &std::time::Instant) -> (r: Option<String>)
        ensures
            read_at(old(self).object_ids(), final(self).object_ids(), old(self).object_expiries(), final(self).object_expiries(),
                (space_id@, name@), *now, opt_view(r)),
            final(self).space_ids() == old(self).space_ids(),
            final(self).type_ids() == old(self).type_ids(),
            final(self).list_ids() == old(self).list_ids(),
            final(self).property_ids() == old(self).property_ids(),
            final(self).tag_ids() == old(self).tag_ids(),
            final(self).ttl_seconds() == old(self).ttl_seconds(),
            final(self).expiries_same_except(&old(self), CacheMap::Objects),
    {
        read_pair_at(&mut self.objects, space_id, name, now)
    }

    /// Caches the id for the key, expiring the TTL after the clock's
    /// reading at the time of the call.  Which instant the clock reads is not
    /// named here.
    pub fn insert_object(&mut self, space_id: String, name: String, id: String)
        ensures
            final(self).object_ids() == old(self).object_ids().insert((space_id@, name@), id@),
            exists|now: std::time::Instant| final(self).object_expiries()
                == old(self).object_expiries().insert((space_id@, name@), #[trigger] expiry(now, old(self).ttl_seconds())),
            final(self).space_ids() == old(self).space_ids(),
            final(self).type_ids() == old(self).type_ids(),
            final(self).list_ids() == old(self).list_ids(),
            final(self).property_ids() == old(self).property_ids(),
            final(self).tag_ids() == old(self).tag_ids(),
            final(self).ttl_seconds() == old(self).ttl_seconds(),
            final(self).expiries_same_except(&old(self), CacheMap::Objects),
    {
        let now = instant_now();
        self.insert_object_at(space_id, name, id, now);
    }

    /// Caches the id for the key as of the instant `now`: the entry expires
    /// the TTL after `now`.
    pub fn insert_object_at(&mut self, space_id: String, name: String, id: String, now: std::time::Instant)
        ensures
            final(self).object_ids() == old(self).object_ids().insert((space_id@, name@), id@),
            final(self).object_expiries() == old(self).object_expiries().insert((space_id@, name@), expiry(now, old(self).ttl_seconds())),
            final(self).space_ids() == old(self).space_ids(),
            final(self).type_ids() == old(self).type_ids(),
            final(self).list_ids() == old(self).list_ids(),
            final(self).property_ids() == old(self).property_ids(),
            final(self).tag_ids() == old(self).tag_ids(),
            final(self).ttl_seconds() == old(self).ttl_seconds(),
            final(self).expiries_same_except(&old(self), CacheMap::Objects),
    {
        let ghost before = self.objects;
        let entry = CacheEntry::new_at(id, self.ttl, now);
        pair_map_insert(&mut self.objects, (space_id, name), entry);
        assert(held_pair_expiries(self.objects) =~= held_pair_expiries(before).insert((space_id@, name@), expiry(now, self.ttl)));
    }

    pub fn invalidate_object(&mut self, space_id: &str, name: &str)
        ensures
            final(self).object_ids() == old(self).object_ids().remove((space_id@, name@)),
            final(self).space_ids() == old(self).space_ids(),
            final(self).type_ids() == old(self).type_ids(),
            final(self).list_ids() == old(self).list_ids(),
            final(self).property_ids() == old(self).property_ids(),
            final(self).tag_ids() == old(self).tag_ids(),
            final(self).ttl_seconds() == old(self).ttl_seconds(),
            final(self).object_expiries() == old(self).object_expiries().remove((space_id@, name@)),
            final(self).expiries_same_except(&old(self), CacheMap::Objects),
    {
        let key = (crate::text::owned(space_id), crate::text::owned(name));
        pair_map_remove(&mut self.objects, &key);
        assert(self.object_expiries() =~= old(self).object_expiries().remove((space_id@, name@)));
    }

    // List operations
    /// The id cached for the key, read at the clock's reading at the time of
    /// the call: an entry that expired by then is dropped and nothing is
    /// answered.  Which instant the clock reads is not named here.
    pub fn get_list(&mut self, space_id: &str, name: &str) -> (r: Option<String>)
        ensures
            read_outcome(old(self).list_ids(), final(self).list_ids(), (space_id@, name@), opt_view(r)),
            exists|now: std::time::Instant| #[trigger] read_at(old(self).list_ids(), final(self).list_ids(),
                old(self).list_expiries(), final(self).list_expiries(), (space_id@, name@), now, opt_view(r)),
            final(self).space_ids() == old(self).space_ids(),
            final(self).type_ids() == old(self).type_ids(),
            final(self).object_ids() == old(self).object_ids(),
            final(self).property_ids() == old(self).property_ids(),
            final(self).tag_ids() == old(self).tag_ids(),
            final(self).ttl_seconds() == old(self).ttl_seconds(),
            final(self).expiries_same_except(&old(self), CacheMap::Lists),
    {
        let now = instant_now();
        self.get_list_at(space_id, name, &now)
    }

    /// The id cached for the key, read at the instant `now`: an entry that
    /// expired by then is dropped and nothing is answered.
    pub fn get_list_at(&mut self, space_id: &str, name: &str, now: &std::time::Instant) -> (r: Option<String>)
        ensures
            read_at(old(self).list_ids(), final(self).list_ids(), old(self).list_expiries(), final(self).list_expiries(),
                (space_id@, name@), *now, opt_view(r)),
            final(self).space_ids() == old(self).space_ids(),
            final(self).type_ids() == old(self).type_ids(),
            final(self).object_ids() == old(self).object_ids(),
            final(self).property_ids() == old(self).property_ids(),
            final(self).tag_ids() == old(self).tag_ids(),
            final(self).ttl_seconds() == old(self).ttl_seconds(),
            final(self).expiries_same_except(&old(self), CacheMap::Lists),
    {
        read_pair_at(&mut self.lists, space_id, name, now)
    }

    /// Caches the id for the key, expiring the TTL after the clock's
    /// reading at the time of the call.  Which instant the clock reads is not
    /// named here.
    pub fn insert_list(&mut self, space_id: String, name: String, id: String)
        ensures
            final(self).list_ids() == old(self).list_ids().insert((space_id@, name@), id@),
            exists|now: std::time::Instant| final(self).list_expiries()
                == old(self).list_expiries().insert((space_id@, name@), #[trigger] expiry(now, old(self).ttl_seconds())),
            final(self).space_ids() == old(self).space_ids(),
            final(self).type_ids() == old(self).type_ids(),
            final(self).object_ids() == old(self).object_ids(),
            final(self).property_ids() == old(self).property_ids(),
            final(self).tag_ids() == old(self).tag_ids(),
            final(self).ttl_seconds() == old(self).ttl_seconds(),
            final(self).expiries_same_except(&old(self), CacheMap::Lists),
    {
        let now = instant_now();
        self.insert_list_at(space_id, name, id, now);
    }

    /// Caches the id for the key as of the instant `now`: the entry expires
    /// the TTL after `now`.
    pub fn insert_list_at(&mut self, space_id: String, name: String, id: String, now: std::time::Instant)
        ensures
            final(self).list_ids() == old(self).list_ids().insert((space_id@, name@), id@),
            final(self).list_expiries() == old(self).list_expiries().insert((space_id@, name@), expiry(now, old(self).ttl_seconds())),
            final(self).space_ids() == old(self).space_ids(),
            final(self).type_ids() == old(self).type_ids(),
            final(self).object_ids() == old(self).object_ids(),
            final(self).property_ids() == old(self).property_ids(),
            final(self).tag_ids() == old(self).tag_ids(),
            final(self).ttl_seconds() == old(self).ttl_seconds(),
            final(self).expiries_same_except(&old(self), CacheMap::Lists),
    {
        let ghost before = self.lists;
        let entry = CacheEntry::new_at(id, self.ttl, now);
        pair_map_insert(&mut self.lists, (space_id, name), entry);
        assert(held_pair_expiries(self.lists) =~= held_pair_expiries(before).insert((space_id@, name@), expiry(now, self.ttl)));
    }

    pub fn invalidate_list(&mut self, space_id: &str, name: &str)
        ensures
            final(self).list_ids() == old(self).list_ids().remove((space_id@, name@)),
            final(self).space_ids() == old(self).space_ids(),
            final(self).type_ids() == old(self).type_ids(),
            final(self).object_ids() == old(self).object_ids(),
            final(self).property_ids() == old(self).property_ids(),
            final(self).tag_ids() == old(self).tag_ids(),
            final(self).ttl_seconds() == old(self).ttl_seconds(),
            final(self).list_expiries() == old(self).list_expiries().remove((space_id@, name@)),
            final(self).expiries_same_except(&old(self), CacheMap::Lists),
    {
        let key = (crate::text::owned(space_id), crate::text::owned(name));
        pair_map_remove(&mut self.lists, &key);
        assert(self.list_expiries() =~= old(self).list_expiries().remove((space_id@, name@)));
    }

    // Property operations
    /// The id cached for the key, read at the clock's reading at the time of
    /// the call: an entry that expired by then is dropped and nothing is
    /// answered.  Which instant the clock reads is not named here.
    pub fn get_property(&mut self, type_id: &str, name: &str) -> (r: Option<String>)
        ensures
            read_outcome(old(self).property_ids(), final(self).property_ids(), (type_id@, name@), opt_view(r)),
            exists|now: std::time::Instant| #[trigger] read_at(old(self).property_ids(), final(self).property_ids(),
                old(self).property_expiries(), final(self).property_expiries(), (type_id@, name@), now, opt_view(r)),
            final(self).space_ids() == old(self).space_ids(),
            final(self).type_ids() == old(self).type_ids(),
            final(self).object_ids() == old(self).object_ids(),
            final(self).list_ids() == old(self).list_ids(),
            final(self).tag_ids() == old(self).tag_ids(),
            final(self).ttl_seconds() == old(self).ttl_seconds(),
            final(self).expiries_same_except(&old(self), CacheMap::Properties),
    {
        let now = instant_now();
        self.get_property_at(type_id, name, &now)
    }

    /// The id cached for the key, read at the instant `now`: an entry that
    /// expired by then is dropped and nothing is answered.
    pub fn get_property_at(&mut self, type_id: &str, name: &str, now: &std::time::Instant) -> (r: Option<String>)
        ensures
            read_at(old(self).property_ids(), final(self).property_ids(), old(self).property_expiries(), final(self).property_expiries(),
                (type_id@, name@), *now, opt_view(r)),
            final(self).space_ids() == old(self).space_ids(),
            final(self).type_ids() == old(self).type_ids(),
            final(self).object_ids() == old(self).object_ids(),
            final(self).list_ids() == old(self).list_ids(),
            final(self).tag_ids() == old(self).tag_ids(),
            final(self).ttl_seconds() == old(self).ttl_seconds(),
            final(self).expiries_same_except(&old(self), CacheMap::Properties),
    {
        read_pair_at(&mut self.properties, type_id, name, now)
    }

    /// Caches the id for the key, expiring the TTL after the clock's
    /// reading at the time of the call.  Which instant the clock reads is not
    /// named here.
    pub fn insert_property(&mut self, type_id: String, name: String, id: String)
        ensures
            final(self).property_ids() == old(self).property_ids().insert((type_id@, name@), id@),
            exists|now: std::time::Instant| final(self).property_expiries()
                == old(self).property_expiries().insert((type_id@, name@), #[trigger] expiry(now, old(self).ttl_seconds())),
            final(self).space_ids() == old(self).space_ids(),
            final(self).type_ids() == old(self).type_ids(),
            final(self).object_ids() == old(self).object_ids(),
            final(self).list_ids() == old(self).list_ids(),
            final(self).tag_ids() == old(self).tag_ids(),
            final(self).ttl_seconds() == old(self).ttl_seconds(),
            final(self).expiries_same_except(&old(self), CacheMap::Properties),
    {
        let now = instant_now();
        self.insert_property_at(type_id, name, id, now);
    }

    /// Caches the id for the key as of the instant `now`: the entry expires
    /// the TTL after `now`.
    pub fn insert_property_at(&mut self, type_id: String, name: String, id: String, now: std::time::Instant)
        ensures
            final(self).property_ids() == old(self).property_ids().insert((type_id@, name@), id@),
            final(self).property_expiries() == old(self).property_expiries().insert((type_id@, name@), expiry(now, old(self).ttl_seconds())),
            final(self).space_ids() == old(self).space_ids(),
            final(self).type_ids() == old(self).type_ids(),
            final(self).object_ids() == old(self).object_ids(),
            final(self).list_ids() == old(self).list_ids(),
            final(self).tag_ids() == old(self).tag_ids(),
            final(self).ttl_seconds() == old(self).ttl_seconds(),
            final(self).expiries_same_except(&old(self), CacheMap::Properties),
    {
        let ghost before = self.properties;
        let entry = CacheEntry::new_at(id, self.ttl, now);
        pair_map_insert(&mut self.properties, (type_id, name), entry);
        assert(held_pair_expiries(self.properties) =~= held_pair_expiries(before).insert((type_id@, name@), expiry(now, self.ttl)));
    }

    /// Drops the property `property_id` cached under `type_id`, and every
    /// tag cached under that property.
    pub fn invalidate_property(&mut self, type_id: &str, property_id: &str)
        ensures
            final(self).property_ids() == without_scoped_id(old(self).property_ids(), type_id@, property_id@),
            final(self).tag_ids() == outside_scope(old(self).tag_ids(), property_id@),
            final(self).space_ids() == old(self).space_ids(),
            final(self).type_ids() == old(self).type_ids(),
            final(self).object_ids() == old(self).object_ids(),
            final(self).list_ids() == old(self).list_ids(),
            final(self).ttl_seconds() == old(self).ttl_seconds(),
            final(self).expiries_kept(&old(self)),
    {
        // Remove property
        pair_map_retain_without_scoped_id(&mut self.properties, type_id, property_id);
        // Cascade: remove all tags for this property
        pair_map_retain_outside_scope(&mut self.tags, property_id);
        assert(self.space_expiries() =~= old(self).space_expiries().restrict(self.space_ids().dom()));
        assert(self.type_expiries() =~= old(self).type_expiries().restrict(self.type_ids().dom()));
        assert(self.object_expiries() =~= old(self).object_expiries().restrict(self.object_ids().dom()));
        assert(self.list_expiries() =~= old(self).list_expiries().restrict(self.list_ids().dom()));
        assert(self.property_expiries() =~= old(self).property_expiries().restrict(self.property_ids().dom()));
        assert(self.tag_expiries() =~= old(self).tag_expiries().restrict(self.tag_ids().dom()));
    }

    // Tag operations
    /// The id cached for the key, read at the clock's reading at the time of
    /// the call: an entry that expired by then is dropped and nothing is
    /// answered.  Which instant the clock reads is not named here.
    pub fn get_tag(&mut self, property_id: &str, name: &str) -> (r: Option<String>)
        ensures
            read_outcome(old(self).tag_ids(), final(self).tag_ids(), (property_id@, name@), opt_view(r)),
            exists|now: std::time::Instant| #[trigger] read_at(old(self).tag_ids(), final(self).tag_ids(),
                old(self).tag_expiries(), final(self).tag_expiries(), (property_id@, name@), now, opt_view(r)),
            final(self).space_ids() == old(self).space_ids(),
            final(self).type_ids() == old(self).type_ids(),
            final(self).object_ids() == old(self).object_ids(),
            final(self).list_ids() == old(self).list_ids(),
            final(self).property_ids() == old(self).property_ids(),
            final(self).ttl_seconds() == old(self).ttl_seconds(),
            final(self).expiries_same_except(&old(self), CacheMap::Tags),
    {
        let now = instant_now();
        self.get_tag_at(property_id, name, &now)
    }

    /// The id cached for the key, read at the instant `now`: an entry that
    /// expired by then is dropped and nothing is answered.
    pub fn get_tag_at(&mut self, property_id: &str, name: &str, now: &std::time::Instant) -> (r: Option<String>)
        ensures
            read_at(old(self).tag_ids(), final(self).tag_ids(), old(self).tag_expiries(), final(self).tag_expiries(),
                (property_id@, name@), *now, opt_view(r)),
            final(self).space_ids() == old(self).space_ids(),
            final(self).type_ids() == old(self).type_ids(),
            final(self).object_ids() == old(self).object_ids(),
            final(self).list_ids() == old(self).list_ids(),
            final(self).property_ids() == old(self).property_ids(),
            final(self).ttl_seconds() == old(self).ttl_seconds(),
            final(self).expiries_same_except(&old(self), CacheMap::Tags),
    {
        read_pair_at(&mut self.tags, property_id, name, now)
    }

    /// Caches the id for the key, expiring the TTL after the clock's
    /// reading at the time of the call.  Which instant the clock reads is not
    /// named here.
    pub fn insert_tag(&mut self, property_id: String, name: String, id: String)
        ensures
            final(self).tag_ids() == old(self).tag_ids().insert((property_id@, name@), id@),
            exists|now: std::time::Instant| final(self).tag_expiries()
                == old(self).tag_expiries().insert((property_id@, name@), #[trigger] expiry(now, old(self).ttl_seconds())),
            final(self).space_ids() == old(self).space_ids(),
            final(self).type_ids() == old(self).type_ids(),
            final(self).object_ids() == old(self).object_ids(),
            final(self).list_ids() == old(self).list_ids(),
            final(self).property_ids() == old(self).property_ids(),
            final(self).ttl_seconds() == old(self).ttl_seconds(),
            final(self).expiries_same_except(&old(self), CacheMap::Tags),
    {
        let now = instant_now();
        self.insert_tag_at(property_id, name, id, now);
    }

    /// Caches the id for the key as of the instant `now`: the entry expires
    /// the TTL after `now`.
    pub fn insert_tag_at(&mut self, property_id: String, name: String, id: String, now: std::time::Instant)
        ensures
            final(self).tag_ids() == old(self).tag_ids().insert((property_id@, name@), id@),
            final(self).tag_expiries() == old(self).tag_expiries().insert((property_id@, name@), expiry(now, old(self).ttl_seconds())),
            final(self).space_ids() == old(self).space_ids(),
            final(self).type_ids() == old(self).type_ids(),
            final(self).object_ids() == old(self).object_ids(),
            final(self).list_ids() == old(self).list_ids(),
            final(self).property_ids() == old(self).property_ids(),
            final(self).ttl_seconds() == old(self).ttl_seconds(),
            final(self).expiries_same_except(&old(self), CacheMap::Tags),
    {
        let ghost before = self.tags;
        let entry = CacheEntry::new_at(id, self.ttl, now);
        pair_map_insert(&mut self.tags, (property_id, name), entry);
        assert(held_pair_expiries(self.tags) =~= held_pair_expiries(before).insert((property_id@, name@), expiry(now, self.ttl)));
    }

    pub fn invalidate_tag(&mut self, property_id: &str, name: &str)
        ensures
            final(self).tag_ids() == old(self).tag_ids().remove((property_id@, name@)),
            final(self).space_ids() == old(self).space_ids(),
            final(self).type_ids() == old(self).type_ids(),
            final(self).object_ids() == old(self).object_ids(),
            final(self).list_ids() == old(self).list_ids(),
            final(self).property_ids() == old(self).property_ids(),
            final(self).ttl_seconds() == old(self).ttl_seconds(),
            final(self).tag_expiries() == old(self).tag_expiries().remove((property_id@, name@)),
            final(self).expiries_same_except(&old(self), CacheMap::Tags),
    {
        let key = (crate::text::owned(property_id), crate::text::owned(name));
        pair_map_remove(&mut self.tags, &key);
        assert(self.tag_expiries() =~= old(self).tag_expiries().remove((property_id@, name@)));
    }

    // Clear all caches
    pub fn clear_all(&mut self)
        ensures
            final(self).space_ids() == NameIds::empty(),
            final(self).type_ids() == PairIds::empty(),
            final(self).object_ids() == PairIds::empty(),
            final(self).list_ids() == PairIds::empty(),
            final(self).property_ids() == PairIds::empty(),
            final(self).tag_ids() == PairIds::empty(),
            final(self).ttl_seconds() == old(self).ttl_seconds(),
            final(self).expiries_kept(&old(self)),
    {
        name_map_clear(&mut self.spaces);
        pair_map_clear(&mut self.types);
        pair_map_clear(&mut self.objects);
        pair_map_clear(&mut self.lists);
        pair_map_clear(&mut self.properties);
        pair_map_clear(&mut self.tags);
        assert(self.space_expiries() =~= old(self).space_expiries().restrict(self.space_ids().dom()));
        assert(self.type_expiries() =~= old(self).type_expiries().restrict(self.type_ids().dom()));
        assert(self.object_expiries() =~= old(self).object_expiries().restrict(self.object_ids().dom()));
        assert(self.list_expiries() =~= old(self).list_expiries().restrict(self.list_ids().dom()));
        assert(self.property_expiries() =~= old(self).property_expiries().restrict(self.property_ids().dom()));
        assert(self.tag_expiries() =~= old(self).tag_expiries().restrict(self.tag_ids().dom()));
    }
}

/// What a read gives back of a write: reading a key just written gives the
/// id written, or nothing once the entry has expired, in which case the
/// entry is dropped; never another id.
pub proof fn law_read_after_write<K>(before: Map<K, Seq<char>>, key: K, id: Seq<char>, after: Map<K, Seq<char>>, r: Option<Seq<char>>)
    requires
        read_outcome(before.insert(key, id), after, key, r),
    ensures
        r matches Some(v) ==> v == id && after == before.insert(key, id),
        r is None ==> after == before.remove(key),
{
    if r is None {
        assert(before.insert(key, id).remove(key) =~= before.remove(key));
    }
}

/// A read of a key the cache does not hold answers nothing and changes nothing.
pub proof fn law_read_of_missing_key<K>(before: Map<K, Seq<char>>, key: K, after: Map<K, Seq<char>>, r: Option<Seq<char>>)
    requires
        !before.dom().contains(key),
        read_outcome(before, after, key, r),
    ensures
        r is None,
        after == before,
{
}

/// A read never makes the cache hold more: what it holds after a read, it
/// held before, under the same key and with the same id.
pub proof fn law_read_only_shrinks<K>(before: Map<K, Seq<char>>, key: K, after: Map<K, Seq<char>>, r: Option<Seq<char>>)
    requires
        read_outcome(before, after, key, r),
    ensures
        forall|k: K| #[trigger] after.dom().contains(k) ==> before.dom().contains(k) && after[k] == before[k],
{
}

/// Invalidating a space leaves no space with that id and nothing cached
/// under it, and keeps every other entry as it was.
pub proof fn law_space_invalidation_cascades(spaces: NameIds, scoped: PairIds, space_id: Seq<char>)
    ensures
        forall|n: Seq<char>| #[trigger] without_id(spaces, space_id).dom().contains(n)
            ==> without_id(spaces, space_id)[n] != space_id,
        forall|n: Seq<char>| #[trigger] spaces.dom().contains(n) && spaces[n] != space_id
            ==> without_id(spaces, space_id).dom().contains(n) && without_id(spaces, space_id)[n] == spaces[n],
        forall|k: (Seq<char>, Seq<char>)| #[trigger] outside_scope(scoped, space_id).dom().contains(k) ==> k.0 != space_id,
        forall|k: (Seq<char>, Seq<char>)| #[trigger] scoped.dom().contains(k) && k.0 != space_id
            ==> outside_scope(scoped, space_id).dom().contains(k) && outside_scope(scoped, space_id)[k] == scoped[k],
{
}

/// Invalidating a type drops every tag of every property cached under the
/// type, keeps the tags of every other property, and leaves no property
/// under the type.
pub proof fn law_type_invalidation_cascades(properties: PairIds, tags: PairIds, type_id: Seq<char>)
    ensures
        forall|k: (Seq<char>, Seq<char>)| #[trigger] outside_scope(properties, type_id).dom().contains(k) ==> k.0 != type_id,
        forall|p: (Seq<char>, Seq<char>), t: (Seq<char>, Seq<char>)|
            #![trigger properties.dom().contains(p), outside_scopes(tags, ids_in_scope(properties, type_id)).dom().contains(t)]
            properties.dom().contains(p) && p.0 == type_id && t.0 == properties[p]
            ==> !outside_scopes(tags, ids_in_scope(properties, type_id)).dom().contains(t),
        forall|t: (Seq<char>, Seq<char>)| #[trigger] tags.dom().contains(t) && !ids_in_scope(properties, type_id).contains(t.0)
            ==> outside_scopes(tags, ids_in_scope(properties, type_id)).dom().contains(t)
                && outside_scopes(tags, ids_in_scope(properties, type_id))[t] == tags[t],
{
    assert forall|p: (Seq<char>, Seq<char>), t: (Seq<char>, Seq<char>)|
        #![trigger properties.dom().contains(p), outside_scopes(tags, ids_in_scope(properties, type_id)).dom().contains(t)]
        properties.dom().contains(p) && p.0 == type_id && t.0 == properties[p]
        implies !outside_scopes(tags, ids_in_scope(properties, type_id)).dom().contains(t) by {
        assert(ids_in_scope(properties, type_id).contains(t.0));
    };
}

/// Invalidating a property drops it from its type and drops its tags; the
/// tags of other properties stay.
pub proof fn law_property_invalidation_cascades(properties: PairIds, tags: PairIds, type_id: Seq<char>, property_id: Seq<char>)
    ensures
        forall|k: (Seq<char>, Seq<char>)| #[trigger] without_scoped_id(properties, type_id, property_id).dom().contains(k)
            ==> !(k.0 == type_id && properties[k] == property_id),
        forall|t: (Seq<char>, Seq<char>)| #[trigger] outside_scope(tags, property_id).dom().contains(t) ==> t.0 != property_id,
        forall|t: (Seq<char>, Seq<char>)| #[trigger] tags.dom().contains(t) && t.0 != property_id
            ==> outside_scope(tags, property_id).dom().contains(t) && outside_scope(tags, property_id)[t] == tags[t],
{
}


/// A read within the time to live of a write finds what was written: where
/// the entry written at `written` expires after the instant `now` of the
/// read, the read answers the id written and changes nothing.
pub proof fn law_read_within_ttl_hits<K>(
    ids: Map<K, Seq<char>>,
    expiries: Map<K, std::time::Instant>,
    key: K,
    id: Seq<char>,
    written: std::time::Instant,
    ttl_seconds: u64,
    now: std::time::Instant,
    ids_after: Map<K, Seq<char>>,
    expiries_after: Map<K, std::time::Instant>,
    r: Option<Seq<char>>,
)
    requires
        later_than(expiry(written, ttl_seconds), now),
        read_at(ids.insert(key, id), ids_after, expiries.insert(key, expiry(written, ttl_seconds)), expiries_after, key, now, r),
    ensures
        r == Some(id),
        ids_after == ids.insert(key, id),
{
}

/// A read once the time to live of a write has run out finds nothing and
/// drops the entry: where the entry written at `written` does not expire
/// after the instant `now` of the read, the read answers nothing and the
/// key is no longer cached.
pub proof fn law_read_after_ttl_misses<K>(
    ids: Map<K, Seq<char>>,
    expiries: Map<K, std::time::Instant>,
    key: K,
    id: Seq<char>,
    written: std::time::Instant,
    ttl_seconds: u64,
    now: std::time::Instant,
    ids_after: Map<K, Seq<char>>,
    expiries_after: Map<K, std::time::Instant>,
    r: Option<Seq<char>>,
)
    requires
        !later_than(expiry(written, ttl_seconds), now),
        read_at(ids.insert(key, id), ids_after, expiries.insert(key, expiry(written, ttl_seconds)), expiries_after, key, now, r),
    ensures
        r is None,
        ids_after == ids.remove(key),
        !ids_after.dom().contains(key),
{
    assert(ids.insert(key, id).remove(key) =~= ids.remove(key));
}

} // verus!
