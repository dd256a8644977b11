//! The subcommands of the command-line program.
pub mod lists;
pub mod properties;
pub mod search;
pub mod spaces;
pub mod tags;
pub mod types;

use vstd::prelude::*;
use crate::text::{concat, concat3, decimal, owned, usize_text, views};

verus! {

/// The message when no API key is stored.
pub open spec fn not_authenticated_text() -> Seq<char> {
    "Not authenticated. Run 'anytype auth login' first."@
}

/// The API key every subcommand needs: the one stored, or the error telling
/// how to log in.
pub fn require_api_key(stored: Option<String>) -> (r: Result<String, String>)
    ensures
        match stored {
            Some(k) => r == Ok::<String, String>(k),
            None => r matches Err(e) && e@ == not_authenticated_text(),
        },
{
    match stored {
        Some(k) => Ok(k),
        None => Err(owned("Not authenticated. Run 'anytype auth login' first.")),
    }
}

/// How many of `len` items are shown under a limit: the limit, or all of
/// them where there are fewer.
pub open spec fn shown_count(limit: u32, len: nat) -> nat {
    if (limit as nat) < len {
        limit as nat
    } else {
        len
    }
}

/// `(limit as usize).min(len)`.
pub fn display_count(limit: u32, len: usize) -> (n: usize)
    ensures
        n == shown_count(limit, len as nat),
{
    if (limit as u64) < (len as u64) {
        limit as usize
    } else {
        len
    }
}

/// The line counting what a listing found and how much of it is shown.
pub fn showing_line(total: usize, noun: &str, shown: usize) -> (l: String)
    ensures
        l@ == "✅ Found "@ + decimal(total as nat) + " "@ + noun@ + " (showing first "@ + decimal(shown as nat) + "):"@,
{
    let t = usize_text(total);
    let s = usize_text(shown);
    let a = concat3("✅ Found ", t.as_str(), " ");
    let b = concat3(a.as_str(), noun, " (showing first ");
    concat3(b.as_str(), s.as_str(), "):")
}

/// The hint shown where a listing shows less than it found.
pub fn more_results_hint(total: usize, shown: usize) -> (r: Option<String>)
    ensures
        match r {
            Some(l) => total > shown && l@ == "💡 Use --limit "@ + decimal(total as nat) + " to see more results"@,
            None => total <= shown,
        },
{
    if total > shown {
        let t = usize_text(total);
        Some(concat3("💡 Use --limit ", t.as_str(), " to see more results"))
    } else {
        None
    }
}

/// Appends a line to the text a command prints.
pub fn push_line(lines: &mut Vec<String>, line: String)
    ensures
        views(final(lines)@) == views(old(lines)@).push(line@),
{
    lines.push(line);
    assert(views(lines@) =~= views(old(lines)@).push(line@));
}

/// Appends lines to the text a command prints.
pub fn append_lines(lines: &mut Vec<String>, more: Vec<String>)
    ensures
        views(final(lines)@) == views(old(lines)@) + views(more@),
{
    let mut more = more;
    let ghost start = views(lines@);
    let ghost all = views(more@);
    let ghost mut taken: int = 0;
    while more.len() > 0
        invariant
            0 <= taken <= all.len(),
            all.len() == taken + more@.len(),
            views(more@) == all.subrange(taken, all.len() as int),
            views(lines@) == start + all.subrange(0, taken),
        decreases more.len(),
    {
        let ghost before = more@;
        let line = more.remove(0);
        proof {
            assert(views(before)[0] == before[0]@);
            assert(line@ == all[taken]);
        }
        push_line(lines, line);
        proof {
            assert(all.subrange(0, taken + 1) =~= all.subrange(0, taken).push(all[taken]));
            assert(more@ =~= before.subrange(1, before.len() as int));
            assert forall|k: int| 0 <= k < more@.len() implies #[trigger] views(more@)[k] == views(before)[k + 1] by {
                assert(views(more@)[k] == more@[k]@);
                assert(views(before)[k + 1] == before[k + 1]@);
            }
            assert(views(more@) =~= all.subrange(taken + 1, all.len() as int));
            taken = taken + 1;
        }
    }
    assert(all.subrange(0, taken) =~= all);
}

} // verus!
