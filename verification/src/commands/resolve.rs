//! The `anytype resolve` and `anytype cache` commands.
use vstd::prelude::*;
use super::{Cell, CellView, Record, record_view};
use crate::cache::resolver::Resolver;
use crate::cache::{NameIds, PairIds};
use crate::plugin::PluginConfig;
use crate::text::owned;

verus! {

/// Command: anytype resolve space
pub struct ResolveSpace;

/// Command: anytype resolve type
pub struct ResolveType;

/// Command: anytype resolve object
pub struct ResolveObject;

/// Command: anytype cache clear
pub struct CacheClear;

/// Command: anytype cache stats
pub struct CacheStats;

/// A name and the id it resolved to.
fn resolved(name: String, id: String) -> (r: Record)
    ensures
        record_view(r) == seq![("name"@, CellView::Text(name@)), ("id"@, CellView::Text(id@))],
{
    let mut r = Record::new();
    r.push("name", Cell::Text(name));
    r.push("id", Cell::Text(id));
    r
}

impl ResolveSpace {
    /// The name the shell calls the command by.
    pub fn name(&self) -> (r: &'static str)
        ensures
            r@ == "anytype resolve space"@,
    {
        "anytype resolve space"
    }

    /// The description the shell shows for the command.
    pub fn description(&self) -> (r: &'static str)
        ensures
            r@ == "Resolve a space name to its ID"@,
    {
        "Resolve a space name to its ID"
    }

    /// The record of a resolved space: its name and id.
    pub fn record(name: String, id: String) -> (r: Record)
        ensures
            record_view(r) == seq![("name"@, CellView::Text(name@)), ("id"@, CellView::Text(id@))],
    {
        resolved(name, id)
    }
}

impl ResolveType {
    /// The name the shell calls the command by.
    pub fn name(&self) -> (r: &'static str)
        ensures
            r@ == "anytype resolve type"@,
    {
        "anytype resolve type"
    }

    /// The description the shell shows for the command.
    pub fn description(&self) -> (r: &'static str)
        ensures
            r@ == "Resolve a type name to its ID within a space"@,
    {
        "Resolve a type name to its ID within a space"
    }

    /// The record of a resolved type: its name, id and key.
    pub fn record(name: String, id: String, key: String) -> (r: Record)
        ensures
            record_view(r) == seq![
                ("name"@, CellView::Text(name@)),
                ("id"@, CellView::Text(id@)),
                ("key"@, CellView::Text(key@)),
            ],
    {
        let mut r = resolved(name, id);
        r.push("key", Cell::Text(key));
        r
    }
}

impl ResolveObject {
    /// The name the shell calls the command by.
    pub fn name(&self) -> (r: &'static str)
        ensures
            r@ == "anytype resolve object"@,
    {
        "anytype resolve object"
    }

    /// The description the shell shows for the command.
    pub fn description(&self) -> (r: &'static str)
        ensures
            r@ == "Resolve an object name to its ID within a space"@,
    {
        "Resolve an object name to its ID within a space"
    }

    /// The record of a resolved object: its name and id.
    pub fn record(name: String, id: String) -> (r: Record)
        ensures
            record_view(r) == seq![("name"@, CellView::Text(name@)), ("id"@, CellView::Text(id@))],
    {
        resolved(name, id)
    }
}

impl CacheClear {
    /// The name the shell calls the command by.
    pub fn name(&self) -> (r: &'static str)
        ensures
            r@ == "anytype cache clear"@,
    {
        "anytype cache clear"
    }

    /// The description the shell shows for the command.
    pub fn description(&self) -> (r: &'static str)
        ensures
            r@ == "Clear the resolution cache"@,
    {
        "Clear the resolution cache"
    }

    /// Clears every cache of the resolver and says so; the time to live stays.
    pub fn run(resolver: &mut Resolver) -> (m: String)
        ensures
            m@ == "Cache cleared"@,
            final(resolver).cache().space_ids() == NameIds::empty(),
            final(resolver).cache().type_ids() == PairIds::empty(),
            final(resolver).cache().object_ids() == PairIds::empty(),
            final(resolver).cache().list_ids() == PairIds::empty(),
            final(resolver).cache().property_ids() == PairIds::empty(),
            final(resolver).cache().tag_ids() == PairIds::empty(),
            final(resolver).cache().ttl_seconds() == old(resolver).cache().ttl_seconds(),
    {
        resolver.clear_cache();
        owned("Cache cleared")
    }
}

impl CacheStats {
    /// The name the shell calls the command by.
    pub fn name(&self) -> (r: &'static str)
        ensures
            r@ == "anytype cache stats"@,
    {
        "anytype cache stats"
    }

    /// The description the shell shows for the command.
    pub fn description(&self) -> (r: &'static str)
        ensures
            r@ == "Show cache statistics"@,
    {
        "Show cache statistics"
    }

    /// The statistics shown: a note that they are not kept yet, and the
    /// time to live of the cache.
    pub fn report(config: &PluginConfig) -> (r: Record)
        ensures
            record_view(r) == seq![
                ("message"@, CellView::Text(
                    "Cache stats not yet fully implemented. Use 'anytype cache clear' to clear cache."@,
                )),
                ("ttl_seconds"@, CellView::Int(config.cache_ttl as i64)),
            ],
    {
        let mut r = Record::new();
        r.push(
            "message",
            Cell::Text(owned("Cache stats not yet fully implemented. Use 'anytype cache clear' to clear cache.")),
        );
        r.push("ttl_seconds", Cell::Int(config.cache_ttl as i64));
        r
    }
}

} // verus!
