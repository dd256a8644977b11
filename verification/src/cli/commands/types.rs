//! `types`: the types of a space.
use vstd::prelude::*;
use super::{append_lines, display_count, push_line, shown_count};
use crate::api::{Type, TypeIcon, TypeProperty};
use crate::text::{concat, concat3, decimal, owned, usize_text, views};

verus! {

/// The arguments of `types`.
#[derive(Debug, Clone, PartialEq)]
pub struct TypesArgs {
    pub command: TypesCommand,
}

/// The subcommands of `types`.
#[derive(Debug, Clone, PartialEq)]
pub enum TypesCommand {
    /// List types in a space
    List {
        /// Space ID
        space_id: String,
        /// Limit the number of results (20 where not given)
        limit: u32,
    },
}

/// The line shown before the types are fetched.
pub fn fetching_line(space_id: &str) -> (l: String)
    ensures
        l@ == "🏷️  Fetching types from space '"@ + space_id@ + "'..."@,
{
    concat3("🏷️  Fetching types from space '", space_id, "'...")
}

/// The line of a property of a type.
pub open spec fn property_line(p: TypeProperty) -> Seq<char> {
    "       • "@ + p.name@ + " ("@ + p.format@ + ") - "@ + p.key@
}

/// The lines of the first three properties of a type, and how many more
/// there are.
pub open spec fn property_lines(props: Seq<TypeProperty>) -> Seq<Seq<char>> {
    let n = props.len();
    if n == 0 {
        Seq::empty()
    } else {
        let shown = if n < 3 { n } else { 3 };
        seq!["     🔑 Properties: "@ + decimal(n) + " properties"@]
            + Seq::new(shown, |i: int| property_line(props[i]))
            + if n > 3 {
                seq!["       ... and "@ + decimal((n - 3) as nat) + " more properties"@]
            } else {
                Seq::empty()
            }
    }
}

/// The line of the icon of a type: its emoji, or its name with its colour.
pub open spec fn icon_lines(icon: Option<TypeIcon>) -> Seq<Seq<char>> {
    match icon {
        Some(i) => match i.emoji {
            Some(e) => seq!["     🎨 Icon: "@ + e@],
            None => match i.name {
                Some(n) => match i.color {
                    Some(c) => seq!["     🎨 Icon: "@ + n@ + " ("@ + c@ + ")"@],
                    None => seq!["     🎨 Icon: "@ + n@],
                },
                None => Seq::empty(),
            },
        },
        None => Seq::empty(),
    }
}

/// The lines shown for a type, ending in an empty line.
pub open spec fn type_lines(t: Type) -> Seq<Seq<char>> {
    seq!["  🏷️  "@ + t.name@ + " ("@ + t.key@ + ")"@, "     🆔 ID: "@ + t.id@]
        + match t.layout {
            Some(l) => seq!["     📐 Layout: "@ + l@],
            None => Seq::empty(),
        }
        + match t.plural_name {
            Some(p) => seq!["     📚 Plural: "@ + p@],
            None => Seq::empty(),
        }
        + if t.archived == Some(true) {
            seq!["     📦 Archived: Yes"@]
        } else {
            Seq::empty()
        }
        + icon_lines(t.icon)
        + property_lines(t.properties@)
        + seq![Seq::<char>::empty()]
}

/// The lines of the types of a listing, one type after another.
pub open spec fn types_lines(ts: Seq<Type>) -> Seq<Seq<char>>
    decreases ts.len(),
{
    if ts.len() == 0 {
        Seq::empty()
    } else {
        types_lines(ts.drop_last()) + type_lines(ts.last())
    }
}

/// What `types list` prints once the types are fetched.
pub open spec fn list_report(ts: Seq<Type>, limit: u32) -> Seq<Seq<char>> {
    if ts.len() == 0 {
        seq!["📭 No types found in this space."@]
    } else {
        let shown = shown_count(limit, ts.len());
        seq!["✅ Found "@ + decimal(ts.len()) + " types (showing first "@ + decimal(shown) + "):"@]
            + types_lines(ts.take(shown as int))
            + if ts.len() > shown {
                seq!["💡 Use --limit "@ + decimal(ts.len()) + " to see more results"@]
            } else {
                Seq::empty()
            }
    }
}

/// The lines of the properties of a type.
fn properties_part(props: &Vec<TypeProperty>) -> (lines: Vec<String>)
    ensures
        views(lines@) == property_lines(props@),
{
    let mut lines: Vec<String> = Vec::new();
    let n = props.len();
    if n == 0 {
        assert(views(lines@) =~= property_lines(props@));
        return lines;
    }
    let count = usize_text(n);
    push_line(&mut lines, concat3("     🔑 Properties: ", count.as_str(), " properties"));
    let shown: usize = if n < 3 { n } else { 3 };
    let mut i: usize = 0;
    while i < shown
        invariant
            shown <= n == props@.len(),
            shown == (if n < 3 { n } else { 3 }),
            0 <= i <= shown,
            views(lines@) == seq!["     🔑 Properties: "@ + decimal(n as nat) + " properties"@]
                + Seq::new(i as nat, |j: int| property_line(props@[j])),
        decreases shown - i,
    {
        let p = &props[i];
        let a = concat3("       • ", p.name.as_str(), " (");
        let b = concat3(a.as_str(), p.format.as_str(), ") - ");
        let line = concat(b.as_str(), p.key.as_str());
        assert(line@ == property_line(props@[i as int]));
        push_line(&mut lines, line);
        assert(Seq::new((i + 1) as nat, |j: int| property_line(props@[j]))
            =~= Seq::new(i as nat, |j: int| property_line(props@[j])).push(property_line(props@[i as int])));
        i = i + 1;
    }
    if n > 3 {
        let more = usize_text(n - 3);
        push_line(&mut lines, concat3("       ... and ", more.as_str(), " more properties"));
    }
    assert(views(lines@) =~= property_lines(props@));
    lines
}

/// The lines shown for a type.
pub fn type_report(t: &Type) -> (lines: Vec<String>)
    ensures
        views(lines@) == type_lines(*t),
{
    let mut lines: Vec<String> = Vec::new();
    let a = concat3("  🏷️  ", t.name.as_str(), " (");
    push_line(&mut lines, concat3(a.as_str(), t.key.as_str(), ")"));
    push_line(&mut lines, concat("     🆔 ID: ", t.id.as_str()));
    let ghost head = views(lines@);
    match &t.layout {
        Some(l) => push_line(&mut lines, concat("     📐 Layout: ", l.as_str())),
        None => {},
    }
    let ghost after_layout = views(lines@);
    match &t.plural_name {
        Some(p) => push_line(&mut lines, concat("     📚 Plural: ", p.as_str())),
        None => {},
    }
    let ghost after_plural = views(lines@);
    match t.archived {
        Some(true) => push_line(&mut lines, owned("     📦 Archived: Yes")),
        _ => {},
    }
    let ghost after_archived = views(lines@);
    match &t.icon {
        Some(icon) => match &icon.emoji {
            Some(e) => push_line(&mut lines, concat("     🎨 Icon: ", e.as_str())),
            None => match &icon.name {
                Some(n) => match &icon.color {
                    Some(c) => {
                        let x = concat3("     🎨 Icon: ", n.as_str(), " (");
                        push_line(&mut lines, concat3(x.as_str(), c.as_str(), ")"));
                    },
                    None => push_line(&mut lines, concat("     🎨 Icon: ", n.as_str())),
                },
                None => {},
            },
        },
        None => {},
    }
    let ghost after_icon = views(lines@);
    assert(after_icon =~= after_archived + icon_lines(t.icon));
    append_lines(&mut lines, properties_part(&t.properties));
    push_line(&mut lines, String::new());
    proof {
        assert(head =~= seq!["  🏷️  "@ + t.name@ + " ("@ + t.key@ + ")"@, "     🆔 ID: "@ + t.id@]);
        assert(views(lines@) =~= type_lines(*t));
    }
    lines
}

/// What `types list` prints once the types are fetched: that there are
/// none, or how many there are and how many are shown, each shown type,
/// and how to see the rest.
pub fn list_report_lines(types: &Vec<Type>, limit: u32) -> (lines: Vec<String>)
    ensures
        views(lines@) == list_report(types@, limit),
{
    let mut lines: Vec<String> = Vec::new();
    let total = types.len();
    if total == 0 {
        push_line(&mut lines, owned("📭 No types found in this space."));
        return lines;
    }
    let shown = display_count(limit, total);
    let t = usize_text(total);
    let s = usize_text(shown);
    let a = concat3("✅ Found ", t.as_str(), " types (showing first ");
    push_line(&mut lines, concat3(a.as_str(), s.as_str(), "):"));
    let ghost head = views(lines@);
    let mut i: usize = 0;
    while i < shown
        invariant
            shown <= total == types@.len(),
            0 <= i <= shown,
            views(lines@) == head + types_lines(types@.take(i as int)),
        decreases shown - i,
    {
        let part = type_report(&types[i]);
        append_lines(&mut lines, part);
        proof {
            assert(types@.take(i + 1).drop_last() =~= types@.take(i as int));
            assert(types@.take(i + 1).last() == types@[i as int]);
            assert(head + types_lines(types@.take(i + 1)) =~= head + types_lines(types@.take(i as int))
                + type_lines(types@[i as int]));
        }
        i = i + 1;
    }
    if total > shown {
        push_line(&mut lines, concat3("💡 Use --limit ", t.as_str(), " to see more results"));
    }
    assert(views(lines@) =~= list_report(types@, limit));
    lines
}

} // verus!
