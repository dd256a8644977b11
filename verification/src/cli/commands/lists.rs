//! `lists`: the objects and views of lists (collections).
use vstd::prelude::*;
use crate::text::{same_text, views};

verus! {

/// The arguments of `lists`.
#[derive(Debug, Clone, PartialEq)]
pub struct ListsArgs {
    pub command: ListsCommand,
}

/// The subcommands of `lists`.
#[derive(Debug, Clone, PartialEq)]
pub enum ListsCommand {
    /// Add objects to a list (collection)
    Add { space_id: String, list_id: String, object_ids: Vec<String> },
    /// Get views for a list
    Views { space_id: String, list_id: String },
    /// Get objects in a list (20 where no limit is given)
    Objects { space_id: String, list_id: String, limit: u32 },
}

/// The ids asked to be added that the answer does not list as added, in
/// the order asked.
pub open spec fn failed(requested: Seq<Seq<char>>, added: Seq<Seq<char>>) -> Seq<Seq<char>>
    decreases requested.len(),
{
    if requested.len() == 0 {
        Seq::empty()
    } else {
        let prev = failed(requested.drop_last(), added);
        if added.contains(requested.last()) {
            prev
        } else {
            prev.push(requested.last())
        }
    }
}

/// Whether `id` is among `ids`.
fn listed(ids: &Vec<String>, id: &str) -> (r: bool)
    ensures
        r == views(ids@).contains(id@),
{
    let mut i: usize = 0;
    while i < ids.len()
        invariant
            0 <= i <= ids@.len(),
            forall|j: int| 0 <= j < i ==> (#[trigger] ids@[j])@ != id@,
        decreases ids.len() - i,
    {
        if same_text(ids[i].as_str(), id) {
            assert(views(ids@)[i as int] == id@);
            return true;
        }
        i = i + 1;
    }
    assert forall|j: int| 0 <= j < views(ids@).len() implies #[trigger] views(ids@)[j] != id@ by {
        assert(views(ids@)[j] == ids@[j]@);
    }
    false
}

/// The objects that were not added to the list: those asked for that the
/// answer does not list.
pub fn failed_objects(requested: &Vec<String>, added: &Vec<String>) -> (r: Vec<String>)
    ensures
        views(r@) == failed(views(requested@), views(added@)),
{
    let mut out: Vec<String> = Vec::new();
    let ghost req = views(requested@);
    let mut i: usize = 0;
    while i < requested.len()
        invariant
            0 <= i <= requested@.len(),
            req == views(requested@),
            views(out@) == failed(req.take(i as int), views(added@)),
        decreases requested.len() - i,
    {
        let id = &requested[i];
        proof {
            assert(req.take(i + 1).drop_last() =~= req.take(i as int));
            assert(req.take(i + 1).last() == id@);
        }
        if !listed(added, id.as_str()) {
            out.push(id.clone());
            assert(views(out@) =~= failed(req.take(i + 1), views(added@)));
        }
        i = i + 1;
    }
    assert(req.take(requested@.len() as int) =~= req);
    out
}

} // verus!
