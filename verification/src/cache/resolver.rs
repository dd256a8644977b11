//! Decisions of the name resolver.
//!
//! A name is resolved from the cache where it holds it; otherwise the
//! caller fetches the listing from the API, and the first item of that
//! listing with the name is the answer, which is then cached.  The fetching
//! is the program's; what the cache answers and what a listing resolves to
//! is decided here.
use vstd::prelude::*;
use super::{CacheMap, NameIds, PairIds, ResolveCache};
use crate::api::{Object, Space, Tag, Type};
use crate::error::AnytypeError;
use crate::text::{concat, concat3, lowercase, opt_view, to_lowercase};

verus! {

/// Resolver that owns the caching layer
pub struct Resolver {
    cache: ResolveCache,
    case_insensitive: bool,
}

/// Whether `i` is the first index of `s` whose element satisfies `p`.
pub open spec fn is_first<T>(s: Seq<T>, i: int, p: spec_fn(T) -> bool) -> bool {
    &&& 0 <= i < s.len()
    &&& p(s[i])
    &&& forall|j: int| 0 <= j < i ==> !p(#[trigger] s[j])
}

/// Whether no element of `s` satisfies `p`.
pub open spec fn none_match<T>(s: Seq<T>, p: spec_fn(T) -> bool) -> bool {
    forall|j: int| 0 <= j < s.len() ==> !p(#[trigger] s[j])
}

/// Whether the name `a` is the name `b`: compared as `str::to_lowercase`
/// gives them where names are matched without regard to case, exactly
/// otherwise.
pub open spec fn names_match(case_insensitive: bool, a: Seq<char>, b: Seq<char>) -> bool {
    if case_insensitive {
        lowercase(a) == lowercase(b)
    } else {
        a == b
    }
}

/// Whether a space is named `name`.
pub open spec fn space_named(case_insensitive: bool, name: Seq<char>) -> spec_fn(Space) -> bool {
    |s: Space| names_match(case_insensitive, s.name@, name)
}

/// Whether a type is named `name`.
pub open spec fn type_named(case_insensitive: bool, name: Seq<char>) -> spec_fn(Type) -> bool {
    |t: Type| names_match(case_insensitive, t.name@, name)
}

/// Whether a type has the key `key`.
pub open spec fn type_keyed(key: Seq<char>) -> spec_fn(Type) -> bool {
    |t: Type| t.key@ == key
}

/// Whether an object is named `name`.
pub open spec fn object_named(case_insensitive: bool, name: Seq<char>) -> spec_fn(Object) -> bool {
    |o: Object| opt_view(o.name) matches Some(n) && names_match(case_insensitive, n, name)
}

/// Whether a tag is named `name`.
pub open spec fn tag_named(case_insensitive: bool, name: Seq<char>) -> spec_fn(Tag) -> bool {
    |t: Tag| names_match(case_insensitive, t.name@, name)
}

/// Whether `candidate` is the name `name`, whose lower-case form is `lowered`.
fn name_matches(case_insensitive: bool, candidate: &str, name: &str, lowered: &str) -> (r: bool)
    requires
        lowered@ == lowercase(name@),
    ensures
        r == names_match(case_insensitive, candidate@, name@),
{
    if case_insensitive {
        let l = to_lowercase(candidate);
        crate::text::same_text(l.as_str(), lowered)
    } else {
        crate::text::same_text(candidate, name)
    }
}

/// An API error carrying `message`.
pub open spec fn api_error(e: AnytypeError, message: Seq<char>) -> bool {
    e matches AnytypeError::Api { message: m } && m@ == message
}

/// Index of the first space named `name`.
fn find_space(spaces: &Vec<Space>, case_insensitive: bool, name: &str, lowered: &str) -> (r: Option<usize>)
    requires
        lowered@ == lowercase(name@),
    ensures
        match r {
            Some(i) => is_first(spaces@, i as int, space_named(case_insensitive, name@)),
            None => none_match(spaces@, space_named(case_insensitive, name@)),
        },
{
    let mut i: usize = 0;
    while i < spaces.len()
        invariant
            0 <= i <= spaces.len(),
            lowered@ == lowercase(name@),
            forall|j: int| 0 <= j < i ==> !space_named(case_insensitive, name@)(#[trigger] spaces@[j]),
        decreases spaces.len() - i,
    {
        if name_matches(case_insensitive, spaces[i].name.as_str(), name, lowered) {
            return Some(i);
        }
        i = i + 1;
    }
    None
}

/// Index of the first type named `name`.
fn find_type_by_name(types: &Vec<Type>, case_insensitive: bool, name: &str, lowered: &str) -> (r: Option<usize>)
    requires
        lowered@ == lowercase(name@),
    ensures
        match r {
            Some(i) => is_first(types@, i as int, type_named(case_insensitive, name@)),
            None => none_match(types@, type_named(case_insensitive, name@)),
        },
{
    let mut i: usize = 0;
    while i < types.len()
        invariant
            0 <= i <= types.len(),
            lowered@ == lowercase(name@),
            forall|j: int| 0 <= j < i ==> !type_named(case_insensitive, name@)(#[trigger] types@[j]),
        decreases types.len() - i,
    {
        if name_matches(case_insensitive, types[i].name.as_str(), name, lowered) {
            return Some(i);
        }
        i = i + 1;
    }
    None
}

/// Index of the first type with the key `key`.
fn find_type_by_key(types: &Vec<Type>, key: &str) -> (r: Option<usize>)
    ensures
        match r {
            Some(i) => is_first(types@, i as int, type_keyed(key@)),
            None => none_match(types@, type_keyed(key@)),
        },
{
    let mut i: usize = 0;
    while i < types.len()
        invariant
            0 <= i <= types.len(),
            forall|j: int| 0 <= j < i ==> !type_keyed(key@)(#[trigger] types@[j]),
        decreases types.len() - i,
    {
        if crate::text::same_text(types[i].key.as_str(), key) {
            return Some(i);
        }
        i = i + 1;
    }
    None
}

/// Index of the first object named `name`.
fn find_object(objects: &Vec<Object>, case_insensitive: bool, name: &str, lowered: &str) -> (r: Option<usize>)
    requires
        lowered@ == lowercase(name@),
    ensures
        match r {
            Some(i) => is_first(objects@, i as int, object_named(case_insensitive, name@)),
            None => none_match(objects@, object_named(case_insensitive, name@)),
        },
{
    let mut i: usize = 0;
    while i < objects.len()
        invariant
            0 <= i <= objects.len(),
            lowered@ == lowercase(name@),
            forall|j: int| 0 <= j < i ==> !object_named(case_insensitive, name@)(#[trigger] objects@[j]),
        decreases objects.len() - i,
    {
        match &objects[i].name {
            Some(n) => {
                if name_matches(case_insensitive, n.as_str(), name, lowered) {
                    return Some(i);
                }
            },
            None => {},
        }
        i = i + 1;
    }
    None
}

/// Index of the first tag named `name`.
fn find_tag(tags: &Vec<Tag>, case_insensitive: bool, name: &str, lowered: &str) -> (r: Option<usize>)
    requires
        lowered@ == lowercase(name@),
    ensures
        match r {
            Some(i) => is_first(tags@, i as int, tag_named(case_insensitive, name@)),
            None => none_match(tags@, tag_named(case_insensitive, name@)),
        },
{
    let mut i: usize = 0;
    while i < tags.len()
        invariant
            0 <= i <= tags.len(),
            lowered@ == lowercase(name@),
            forall|j: int| 0 <= j < i ==> !tag_named(case_insensitive, name@)(#[trigger] tags@[j]),
        decreases tags.len() - i,
    {
        if name_matches(case_insensitive, tags[i].name.as_str(), name, lowered) {
            return Some(i);
        }
        i = i + 1;
    }
    None
}

/// A name between single quotes.
pub open spec fn quoted(s: Seq<char>) -> Seq<char> {
    "'"@ + s + "'"@
}

/// A message quoting two names.
fn quote_two(a: &str, b: &str, c: &str, d: &str) -> (m: String)
    ensures
        m@ == a@ + quoted(b@) + c@ + quoted(d@),
{
    let m1 = concat3(a, "'", b);
    let m2 = concat3(m1.as_str(), "'", c);
    let m3 = concat3(m2.as_str(), "'", d);
    let m = concat(m3.as_str(), "'");
    assert(m@ =~= a@ + quoted(b@) + c@ + quoted(d@));
    m
}

/// A message quoting one name.
fn quote_one(a: &str, b: &str) -> (m: String)
    ensures
        m@ == a@ + quoted(b@),
{
    let m1 = concat3(a, "'", b);
    let m = concat(m1.as_str(), "'");
    assert(m@ =~= a@ + quoted(b@));
    m
}

/// Whether `after` is `before` with the type `type_id` of the space
/// forgotten: that type, the properties cached under it and their tags are
/// dropped, nothing else changes.
pub open spec fn type_forgotten(after: Resolver, before: Resolver, space_id: Seq<char>, type_id: Seq<char>) -> bool {
    &&& after.case_insensitive() == before.case_insensitive()
    &&& after.cache().type_ids() == super::without_scoped_id(before.cache().type_ids(), space_id, type_id)
    &&& after.cache().property_ids() == super::outside_scope(before.cache().property_ids(), type_id)
    &&& after.cache().tag_ids() == super::outside_scopes(before.cache().tag_ids(), super::ids_in_scope(before.cache().property_ids(), type_id))
    &&& after.cache().space_ids() == before.cache().space_ids()
    &&& after.cache().object_ids() == before.cache().object_ids()
    &&& after.cache().list_ids() == before.cache().list_ids()
    &&& after.cache().ttl_seconds() == before.cache().ttl_seconds()
    &&& after.cache().expiries_kept(&before.cache())
}

/// Whether `after` is `before` with the space `space_id` forgotten: that
/// space and the types, objects and lists cached under it are dropped,
/// nothing else changes.
pub open spec fn space_forgotten(after: Resolver, before: Resolver, space_id: Seq<char>) -> bool {
    &&& after.case_insensitive() == before.case_insensitive()
    &&& after.cache().space_ids() == super::without_id(before.cache().space_ids(), space_id)
    &&& after.cache().type_ids() == super::outside_scope(before.cache().type_ids(), space_id)
    &&& after.cache().object_ids() == super::outside_scope(before.cache().object_ids(), space_id)
    &&& after.cache().list_ids() == super::outside_scope(before.cache().list_ids(), space_id)
    &&& after.cache().property_ids() == before.cache().property_ids()
    &&& after.cache().tag_ids() == before.cache().tag_ids()
    &&& after.cache().ttl_seconds() == before.cache().ttl_seconds()
    &&& after.cache().expiries_kept(&before.cache())
}

/// Whether `after` is `before` with the tag named `name` under the property
/// forgotten, nothing else changed.
pub open spec fn tag_forgotten(after: Resolver, before: Resolver, property_id: Seq<char>, name: Seq<char>) -> bool {
    &&& after.case_insensitive() == before.case_insensitive()
    &&& after.cache().tag_ids() == before.cache().tag_ids().remove((property_id, name))
    &&& after.cache().tag_expiries() == before.cache().tag_expiries().remove((property_id, name))
    &&& after.cache().same_outside(&before.cache(), CacheMap::Tags)
}

/// Whether `after` is `before` with every cache emptied.
pub open spec fn cache_cleared(after: Resolver, before: Resolver) -> bool {
    &&& after.case_insensitive() == before.case_insensitive()
    &&& after.cache().space_ids() == NameIds::empty()
    &&& after.cache().type_ids() == PairIds::empty()
    &&& after.cache().object_ids() == PairIds::empty()
    &&& after.cache().list_ids() == PairIds::empty()
    &&& after.cache().property_ids() == PairIds::empty()
    &&& after.cache().tag_ids() == PairIds::empty()
    &&& after.cache().ttl_seconds() == before.cache().ttl_seconds()
    &&& after.cache().expiries_kept(&before.cache())
}

impl Resolver {
    /// The cache the resolver keeps.
    pub closed spec fn cache(&self) -> ResolveCache {
        self.cache
    }

    /// Whether names are matched without regard to case.
    pub closed spec fn case_insensitive(&self) -> bool {
        self.case_insensitive
    }

    /// A resolver with an empty cache whose entries live `cache_ttl`
    /// seconds, matching names without regard to case where
    /// `case_insensitive` holds (as the plugin configuration asks by default).
    pub fn new(cache_ttl: u64, case_insensitive: bool) -> (r: Self)
        ensures
            r.case_insensitive() == case_insensitive,
            r.cache().space_ids() == NameIds::empty(),
            r.cache().type_ids() == PairIds::empty(),
            r.cache().object_ids() == PairIds::empty(),
            r.cache().list_ids() == PairIds::empty(),
            r.cache().property_ids() == PairIds::empty(),
            r.cache().tag_ids() == PairIds::empty(),
            r.cache().ttl_seconds() == cache_ttl,
    {
        Resolver { cache: ResolveCache::new(cache_ttl), case_insensitive }
    }

    /// The space id the cache holds for `name`, if any.
    pub fn cached_space(&mut self, name: &str) -> (r: Option<String>)
        ensures
            final(self).case_insensitive() == old(self).case_insensitive(),
            super::read_outcome(old(self).cache().space_ids(), final(self).cache().space_ids(), name@, opt_view(r)),
            final(self).cache().same_outside(&old(self).cache(), CacheMap::Spaces),
    {
        self.cache.get_space(name)
    }

    /// Resolve space name to ID from the spaces the API listed: the first
    /// space with that name, which is then cached.
    pub fn resolve_space_from(&mut self, name: &str, spaces: &Vec<Space>) -> (r: Result<String, AnytypeError>)
        ensures
            final(self).case_insensitive() == old(self).case_insensitive(),
            match r {
                Ok(id) => exists|i: int| is_first(spaces@, i, space_named(old(self).case_insensitive(), name@)) && id@ == spaces@[i].id@
                    && final(self).cache().space_ids() == old(self).cache().space_ids().insert(name@, id@)
                    && final(self).cache().same_outside(&old(self).cache(), CacheMap::Spaces),
                Err(e) => none_match(spaces@, space_named(old(self).case_insensitive(), name@))
                    && api_error(e, "No Space found with name "@ + quoted(name@))
                    && *final(self) == *old(self),
            },
    {
        let lowered = to_lowercase(name);
        match find_space(spaces, self.case_insensitive, name, lowered.as_str()) {
            Some(i) => {
                let id = spaces[i].id.clone();
                assert(is_first(spaces@, i as int, space_named(self.case_insensitive, name@)) && id@ == spaces@[i as int].id@);
                self.cache.insert_space(crate::text::owned(name), id.clone());
                Ok(id)
            },
            None => Err(AnytypeError::Api { message: quote_one("No Space found with name ", name) }),
        }
    }

    /// The type id the cache holds for `name` in the space, if any.
    pub fn cached_type(&mut self, space_id: &str, name: &str) -> (r: Option<String>)
        ensures
            final(self).case_insensitive() == old(self).case_insensitive(),
            super::read_outcome(old(self).cache().type_ids(), final(self).cache().type_ids(), (space_id@, name@), opt_view(r)),
            final(self).cache().same_outside(&old(self).cache(), CacheMap::Types),
    {
        self.cache.get_type(space_id, name)
    }

    /// Resolve type name to ID within a space, from the types the API
    /// listed: the first type with that name, which is then cached.
    pub fn resolve_type_from(&mut self, space_id: &str, name: &str, types: &Vec<Type>) -> (r: Result<String, AnytypeError>)
        ensures
            final(self).case_insensitive() == old(self).case_insensitive(),
            match r {
                Ok(id) => exists|i: int| is_first(types@, i, type_named(old(self).case_insensitive(), name@)) && id@ == types@[i].id@
                    && final(self).cache().type_ids() == old(self).cache().type_ids().insert((space_id@, name@), id@)
                    && final(self).cache().same_outside(&old(self).cache(), CacheMap::Types),
                Err(e) => none_match(types@, type_named(old(self).case_insensitive(), name@))
                    && api_error(e, "No Type found with name "@ + quoted(name@) + " in space "@ + quoted(space_id@))
                    && *final(self) == *old(self),
            },
    {
        let lowered = to_lowercase(name);
        match find_type_by_name(types, self.case_insensitive, name, lowered.as_str()) {
            Some(i) => {
                let id = types[i].id.clone();
                assert(is_first(types@, i as int, type_named(self.case_insensitive, name@)) && id@ == types@[i as int].id@);
                self.cache.insert_type(crate::text::owned(space_id), crate::text::owned(name), id.clone());
                Ok(id)
            },
            None => Err(AnytypeError::Api {
                message: quote_two("No Type found with name ", name, " in space ", space_id),
            }),
        }
    }

    /// Resolve a (global) type key to the space-specific type id, from the
    /// types the API listed.  Nothing is cached.
    pub fn resolve_type_by_key_from(space_id: &str, type_key: &str, types: &Vec<Type>) -> (r: Result<String, AnytypeError>)
        ensures
            match r {
                Ok(id) => exists|i: int| is_first(types@, i, type_keyed(type_key@)) && id@ == types@[i].id@,
                Err(e) => none_match(types@, type_keyed(type_key@))
                    && api_error(e, "No Type found with key "@ + quoted(type_key@) + " in space "@ + quoted(space_id@)),
            },
    {
        match find_type_by_key(types, type_key) {
            Some(i) => {
                let id = types[i].id.clone();
                assert(is_first(types@, i as int, type_keyed(type_key@)) && id@ == types@[i as int].id@);
                Ok(id)
            },
            None => Err(AnytypeError::Api {
                message: quote_two("No Type found with key ", type_key, " in space ", space_id),
            }),
        }
    }

    /// The object id the cache holds for `name` in the space, if any.
    pub fn cached_object(&mut self, space_id: &str, name: &str) -> (r: Option<String>)
        ensures
            final(self).case_insensitive() == old(self).case_insensitive(),
            super::read_outcome(old(self).cache().object_ids(), final(self).cache().object_ids(), (space_id@, name@), opt_view(r)),
            final(self).cache().same_outside(&old(self).cache(), CacheMap::Objects),
    {
        self.cache.get_object(space_id, name)
    }

    /// Resolve object name to ID within a space, from the objects the API
    /// listed: the first object with that name, which is then cached.
    pub fn resolve_object_from(&mut self, space_id: &str, name: &str, objects: &Vec<Object>) -> (r: Result<String, AnytypeError>)
        ensures
            final(self).case_insensitive() == old(self).case_insensitive(),
            match r {
                Ok(id) => exists|i: int| is_first(objects@, i, object_named(old(self).case_insensitive(), name@)) && id@ == objects@[i].id@
                    && final(self).cache().object_ids() == old(self).cache().object_ids().insert((space_id@, name@), id@)
                    && final(self).cache().same_outside(&old(self).cache(), CacheMap::Objects),
                Err(e) => none_match(objects@, object_named(old(self).case_insensitive(), name@))
                    && api_error(e, "No Object found with name "@ + quoted(name@) + " in space "@ + quoted(space_id@))
                    && *final(self) == *old(self),
            },
    {
        let lowered = to_lowercase(name);
        match find_object(objects, self.case_insensitive, name, lowered.as_str()) {
            Some(i) => {
                let id = objects[i].id.clone();
                assert(is_first(objects@, i as int, object_named(self.case_insensitive, name@)) && id@ == objects@[i as int].id@);
                self.cache.insert_object(crate::text::owned(space_id), crate::text::owned(name), id.clone());
                Ok(id)
            },
            None => Err(AnytypeError::Api {
                message: quote_two("No Object found with name ", name, " in space ", space_id),
            }),
        }
    }

    /// Resolve list name to ID within a space.  Lists cannot be listed
    /// through the API yet, so only the cache can answer.
    pub fn resolve_list(&mut self, space_id: &str, name: &str) -> (r: Result<String, AnytypeError>)
        ensures
            final(self).case_insensitive() == old(self).case_insensitive(),
            super::read_outcome(old(self).cache().list_ids(), final(self).cache().list_ids(), (space_id@, name@),
                match r { Ok(id) => Some(id@), Err(_) => None }),
            final(self).cache().same_outside(&old(self).cache(), CacheMap::Lists),
            r matches Err(e) ==> api_error(e, "List resolution not yet implemented. Cannot find "@ + quoted(name@)),
    {
        match self.cache.get_list(space_id, name) {
            Some(id) => Ok(id),
            None => Err(AnytypeError::Api {
                message: quote_one("List resolution not yet implemented. Cannot find ", name),
            }),
        }
    }

    /// Resolve property name to ID within a type.  Properties of a type
    /// cannot be listed through the API yet, so only the cache can answer.
    pub fn resolve_property(&mut self, type_id: &str, name: &str) -> (r: Result<String, AnytypeError>)
        ensures
            final(self).case_insensitive() == old(self).case_insensitive(),
            super::read_outcome(old(self).cache().property_ids(), final(self).cache().property_ids(), (type_id@, name@),
                match r { Ok(id) => Some(id@), Err(_) => None }),
            final(self).cache().same_outside(&old(self).cache(), CacheMap::Properties),
            r matches Err(e) ==> api_error(e, "Property resolution not yet implemented. Cannot find "@ + quoted(name@)),
    {
        match self.cache.get_property(type_id, name) {
            Some(id) => Ok(id),
            None => Err(AnytypeError::Api {
                message: quote_one("Property resolution not yet implemented. Cannot find ", name),
            }),
        }
    }

    /// The tag id the cache holds for `name` under the property, if any.
    pub fn cached_tag(&mut self, property_id: &str, name: &str) -> (r: Option<String>)
        ensures
            final(self).case_insensitive() == old(self).case_insensitive(),
            super::read_outcome(old(self).cache().tag_ids(), final(self).cache().tag_ids(), (property_id@, name@), opt_view(r)),
            final(self).cache().same_outside(&old(self).cache(), CacheMap::Tags),
    {
        self.cache.get_tag(property_id, name)
    }

    /// Resolve tag name to ID within a property, from the tags the API
    /// listed: the first tag with that name, which is then cached.
    pub fn resolve_tag_from(&mut self, property_id: &str, name: &str, tags: &Vec<Tag>) -> (r: Result<String, AnytypeError>)
        ensures
            final(self).case_insensitive() == old(self).case_insensitive(),
            match r {
                Ok(id) => exists|i: int| is_first(tags@, i, tag_named(old(self).case_insensitive(), name@)) && id@ == tags@[i].id@
                    && final(self).cache().tag_ids() == old(self).cache().tag_ids().insert((property_id@, name@), id@)
                    && final(self).cache().same_outside(&old(self).cache(), CacheMap::Tags),
                Err(e) => none_match(tags@, tag_named(old(self).case_insensitive(), name@))
                    && api_error(e, "No Tag found with name "@ + quoted(name@) + " in property "@ + quoted(property_id@))
                    && *final(self) == *old(self),
            },
    {
        let lowered = to_lowercase(name);
        match find_tag(tags, self.case_insensitive, name, lowered.as_str()) {
            Some(i) => {
                let id = tags[i].id.clone();
                assert(is_first(tags@, i as int, tag_named(self.case_insensitive, name@)) && id@ == tags@[i as int].id@);
                self.cache.insert_tag(crate::text::owned(property_id), crate::text::owned(name), id.clone());
                Ok(id)
            },
            None => Err(AnytypeError::Api {
                message: quote_two("No Tag found with name ", name, " in property ", property_id),
            }),
        }
    }

    /// Invalidate tag cache
    pub fn invalidate_tag(&mut self, property_id: &str, name: &str)
        ensures
            final(self).case_insensitive() == old(self).case_insensitive(),
            final(self).cache().tag_ids() == old(self).cache().tag_ids().remove((property_id@, name@)),
            final(self).cache().same_outside(&old(self).cache(), CacheMap::Tags),
            final(self).cache().tag_expiries() == old(self).cache().tag_expiries().remove((property_id@, name@)),
            tag_forgotten(*final(self), *old(self), property_id@, name@),
    {
        self.cache.invalidate_tag(property_id, name);
    }

    /// Invalidate property cache (with cascade)
    pub fn invalidate_property(&mut self, type_id: &str, property_id: &str)
        ensures
            final(self).case_insensitive() == old(self).case_insensitive(),
            final(self).cache().property_ids() == super::without_scoped_id(old(self).cache().property_ids(), type_id@, property_id@),
            final(self).cache().tag_ids() == super::outside_scope(old(self).cache().tag_ids(), property_id@),
            final(self).cache().space_ids() == old(self).cache().space_ids(),
            final(self).cache().type_ids() == old(self).cache().type_ids(),
            final(self).cache().object_ids() == old(self).cache().object_ids(),
            final(self).cache().list_ids() == old(self).cache().list_ids(),
            final(self).cache().ttl_seconds() == old(self).cache().ttl_seconds(),
            final(self).cache().expiries_kept(&old(self).cache()),
    {
        self.cache.invalidate_property(type_id, property_id);
    }

    /// Clear all caches
    pub fn clear_cache(&mut self)
        ensures
            final(self).case_insensitive() == old(self).case_insensitive(),
            final(self).cache().space_ids() == NameIds::empty(),
            final(self).cache().type_ids() == PairIds::empty(),
            final(self).cache().object_ids() == PairIds::empty(),
            final(self).cache().list_ids() == PairIds::empty(),
            final(self).cache().property_ids() == PairIds::empty(),
            final(self).cache().tag_ids() == PairIds::empty(),
            final(self).cache().ttl_seconds() == old(self).cache().ttl_seconds(),
            final(self).cache().expiries_kept(&old(self).cache()),
            cache_cleared(*final(self), *old(self)),
    {
        self.cache.clear_all();
    }

    /// Invalidate space cache (with cascade)
    pub fn invalidate_space(&mut self, space_id: &str)
        ensures
            final(self).case_insensitive() == old(self).case_insensitive(),
            final(self).cache().space_ids() == super::without_id(old(self).cache().space_ids(), space_id@),
            final(self).cache().type_ids() == super::outside_scope(old(self).cache().type_ids(), space_id@),
            final(self).cache().object_ids() == super::outside_scope(old(self).cache().object_ids(), space_id@),
            final(self).cache().list_ids() == super::outside_scope(old(self).cache().list_ids(), space_id@),
            final(self).cache().property_ids() == old(self).cache().property_ids(),
            final(self).cache().tag_ids() == old(self).cache().tag_ids(),
            final(self).cache().ttl_seconds() == old(self).cache().ttl_seconds(),
            final(self).cache().expiries_kept(&old(self).cache()),
            space_forgotten(*final(self), *old(self), space_id@),
    {
        self.cache.invalidate_space(space_id);
    }

    /// Invalidate type cache (with cascade)
    pub fn invalidate_type(&mut self, space_id: &str, type_id: &str)
        ensures
            final(self).case_insensitive() == old(self).case_insensitive(),
            final(self).cache().type_ids() == super::without_scoped_id(old(self).cache().type_ids(), space_id@, type_id@),
            final(self).cache().property_ids() == super::outside_scope(old(self).cache().property_ids(), type_id@),
            final(self).cache().tag_ids() == super::outside_scopes(
                old(self).cache().tag_ids(),
                super::ids_in_scope(old(self).cache().property_ids(), type_id@),
            ),
            final(self).cache().space_ids() == old(self).cache().space_ids(),
            final(self).cache().object_ids() == old(self).cache().object_ids(),
            final(self).cache().list_ids() == old(self).cache().list_ids(),
            final(self).cache().ttl_seconds() == old(self).cache().ttl_seconds(),
            final(self).cache().expiries_kept(&old(self).cache()),
            type_forgotten(*final(self), *old(self), space_id@, type_id@),
    {
        self.cache.invalidate_type(space_id, type_id);
    }

    /// Invalidate object cache
    pub fn invalidate_object(&mut self, space_id: &str, name: &str)
        ensures
            final(self).case_insensitive() == old(self).case_insensitive(),
            final(self).cache().object_ids() == old(self).cache().object_ids().remove((space_id@, name@)),
            final(self).cache().same_outside(&old(self).cache(), CacheMap::Objects),
            final(self).cache().object_expiries() == old(self).cache().object_expiries().remove((space_id@, name@)),
    {
        self.cache.invalidate_object(space_id, name);
    }
}

} // verus!
