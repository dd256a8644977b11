//! `search`: objects matching a query, in one space or in all.
use vstd::prelude::*;
use vstd::utf8::{decode_utf8, encode_utf8, is_char_boundary};
use super::push_line;
use crate::api::{SearchRequest, SearchSpaceRequest};
use crate::cache::resolver::is_first;
use crate::commands::import::{lemma_first_unique, members_view};
use crate::commands::search::SearchPlan;
use crate::json::{json_view, JsonValue, JsonView};
use crate::text::{concat, concat3, decimal, owned, same_text, u64_text, usize_text, views};

verus! {

broadcast use vstd::string::group_string_axioms, vstd::utf8::group_utf8_lib;

/// The arguments of `search`.
#[derive(Debug, Clone, PartialEq)]
pub struct SearchArgs {
    /// Search query
    pub query: String,
    /// Limit the number of results (10 where not given)
    pub limit: u32,
    /// Offset for pagination (0 where not given)
    pub offset: u32,
    /// Search within a specific space
    pub space_id: Option<String>,
}

/// The line shown before searching.
pub fn searching_line(args: &SearchArgs) -> (l: String)
    ensures
        l@ == "🔍 Searching for '"@ + args.query@ + "'"@ + match args.space_id {
            Some(s) => " in space '"@ + s@ + "'"@,
            None => " globally"@,
        } + "..."@,
{
    let scope = match &args.space_id {
        Some(s) => concat3(" in space '", s.as_str(), "'"),
        None => owned(" globally"),
    };
    let a = concat3("🔍 Searching for '", args.query.as_str(), "'");
    concat3(a.as_str(), scope.as_str(), "...")
}

/// The request of a search: within the space given, across all spaces
/// otherwise, with the limit and offset given and no sort.
pub fn plan(args: &SearchArgs) -> (r: SearchPlan)
    ensures
        match args.space_id {
            Some(s) => r matches SearchPlan::InSpace { space_id, request } && space_id@ == s@
                && crate::text::opt_view(request.query) == Some(args.query@)
                && request.limit == Some(args.limit as usize) && request.offset == Some(args.offset as usize)
                && request.sort is None,
            None => r matches SearchPlan::Global(request) && crate::text::opt_view(request.query) == Some(args.query@)
                && request.limit == Some(args.limit as usize) && request.offset == Some(args.offset as usize)
                && request.sort is None && request.space_id is None,
        },
{
    let query = Some(args.query.clone());
    let limit = Some(args.limit as usize);
    let offset = Some(args.offset as usize);
    match &args.space_id {
        Some(s) => SearchPlan::InSpace {
            space_id: s.clone(),
            request: SearchSpaceRequest { query, limit, offset, sort: None },
        },
        None => SearchPlan::Global(SearchRequest { query, limit, offset, sort: None, space_id: None }),
    }
}

/// The line shown when nothing matched.
pub fn no_results_line(query: &str) -> (l: String)
    ensures
        l@ == "📭 No results found for '"@ + query@ + "'."@,
{
    concat3("📭 No results found for '", query, "'.")
}

/// The line counting the results.
pub fn found_line(count: usize, total: usize) -> (l: String)
    ensures
        l@ == "✅ Found "@ + decimal(count as nat) + " results (total: "@ + decimal(total as nat) + "):"@,
{
    let c = usize_text(count);
    let t = usize_text(total);
    let a = concat3("✅ Found ", c.as_str(), " results (total: ");
    concat3(a.as_str(), t.as_str(), "):")
}

/// The lines heading the result at `position` (from zero) of a page that
/// starts at `offset`: its number, its id and its space.
pub fn result_heading(offset: u32, position: usize, id: &str, space_id: &str) -> (lines: Vec<String>)
    requires
        offset + position + 1 <= u32::MAX,
    ensures
        views(lines@) == seq![
            decimal((offset + position + 1) as nat) + ". 📄 Object ID: "@ + id@,
            "   🏠 Space: "@ + space_id@,
        ],
{
    let number = u64_text(offset as u64 + position as u64 + 1);
    let mut lines: Vec<String> = Vec::new();
    push_line(&mut lines, concat3(number.as_str(), ". 📄 Object ID: ", id));
    push_line(&mut lines, concat("   🏠 Space: ", space_id));
    lines
}

/// The hint shown where more results follow the page.
pub fn pagination_hint(offset: u32, count: usize, total: usize) -> (r: Option<String>)
    requires
        offset + count <= u32::MAX,
    ensures
        match r {
            Some(l) => offset + count < total && l@ == "💡 Showing results "@ + decimal((offset + 1) as nat) + "-"@
                + decimal((offset + count) as nat) + " of "@ + decimal(total as nat) + ". Use --offset "@
                + decimal((offset + count) as nat) + " to see more."@,
            None => offset + count >= total,
        },
{
    let end: u64 = offset as u64 + count as u64;
    if end < total as u64 {
        let first = u64_text(offset as u64 + 1);
        let last = u64_text(end);
        let all = usize_text(total);
        let a = concat3("💡 Showing results ", first.as_str(), "-");
        let b = concat3(a.as_str(), last.as_str(), " of ");
        let c = concat3(b.as_str(), all.as_str(), ". Use --offset ");
        Some(concat3(c.as_str(), last.as_str(), " to see more."))
    } else {
        None
    }
}

/// A text cut to `keep` bytes and marked with `...` where it is longer than
/// `max` bytes.
pub open spec fn truncated(t: Seq<char>, max: nat, keep: nat) -> Seq<char> {
    let b = encode_utf8(t);
    if b.len() > max {
        decode_utf8(b.subrange(0, keep as int)) + "..."@
    } else {
        t
    }
}

/// Whether `truncated` can cut the text: where it is longer than `max`
/// bytes, byte `keep` begins a character.
pub open spec fn cuttable(t: Seq<char>, max: nat, keep: nat) -> bool {
    let b = encode_utf8(t);
    b.len() > max ==> (keep <= b.len() && is_char_boundary(b, keep as int))
}

/// Cuts a text for a preview.
fn truncate(t: &str, max: usize, keep: usize) -> (r: String)
    requires
        cuttable(t@, max as nat, keep as nat),
        encode_utf8(t@).len() <= usize::MAX,
    ensures
        r@ == truncated(t@, max as nat, keep as nat),
{
    if t.len() > max {
        let (head, _) = t.split_at(keep);
        proof {
            assert(head@ == decode_utf8(encode_utf8(head@)));
        }
        concat(head, "...")
    } else {
        owned(t)
    }
}

/// The property keys looked at first for a preview, in order.
pub open spec fn relevant_keys() -> Seq<Seq<char>> {
    seq!["title"@, "name"@, "content"@, "description"@, "body"@]
}

/// Whether a member has the key `k`.
pub open spec fn keyed(k: Seq<char>) -> spec_fn((Seq<char>, JsonView)) -> bool {
    |m: (Seq<char>, JsonView)| m.0 == k
}

/// The non-empty text of the member `k` of an object, if it has one.
pub open spec fn member_text(members: Seq<(Seq<char>, JsonView)>, k: Seq<char>) -> Option<Seq<char>> {
    if exists|i: int| is_first(members, i, keyed(k)) {
        match members[choose|i: int| is_first(members, i, keyed(k))].1 {
            JsonView::String(t) => if t.len() > 0 {
                Some(t)
            } else {
                None
            },
            _ => None,
        }
    } else {
        None
    }
}

/// The first two of the keys whose members hold non-empty text, with that text.
pub open spec fn picks(members: Seq<(Seq<char>, JsonView)>, keys: Seq<Seq<char>>) -> Seq<(Seq<char>, Seq<char>)>
    decreases keys.len(),
{
    if keys.len() == 0 {
        Seq::empty()
    } else {
        let prev = picks(members, keys.drop_last());
        match member_text(members, keys.last()) {
            Some(t) => if prev.len() < 2 {
                prev.push((keys.last(), t))
            } else {
                prev
            },
            None => prev,
        }
    }
}

/// A property shown in the preview of a result.
#[derive(Debug, Clone, PartialEq)]
pub enum Preview {
    /// One of the relevant properties, with its text, shown as `📝`.
    Relevant { key: String, text: String },
    /// One of the first properties, holding text, shown as `🔑`.
    Plain { key: String, text: String },
    /// One of the first properties, holding something else, shown as `🔑`
    /// with its JSON text.
    Json { key: String },
}

/// The plain value of a preview.
pub enum PreviewView {
    Relevant(Seq<char>, Seq<char>),
    Plain(Seq<char>, Seq<char>),
    Json(Seq<char>),
}

impl View for Preview {
    type V = PreviewView;

    open spec fn view(&self) -> PreviewView {
        match *self {
            Preview::Relevant { key, text } => PreviewView::Relevant(key@, text@),
            Preview::Plain { key, text } => PreviewView::Plain(key@, text@),
            Preview::Json { key } => PreviewView::Json(key@),
        }
    }
}

/// The plain values of a sequence of previews.
pub open spec fn preview_views(v: Seq<Preview>) -> Seq<PreviewView> {
    v.map_values(|p: Preview| p@)
}

/// What a preview shows of a first property.
pub open spec fn plain_preview(m: (Seq<char>, JsonView)) -> PreviewView {
    match m.1 {
        JsonView::String(s) => PreviewView::Plain(m.0, truncated(s, 50, 47)),
        _ => PreviewView::Json(m.0),
    }
}

/// The preview of a result: up to two of its relevant properties holding
/// text (cut to 97 bytes where longer than 100), else its first two
/// properties (texts cut to 47 bytes where longer than 50).
pub open spec fn previews(properties: JsonView) -> Seq<PreviewView> {
    match properties {
        JsonView::Object(members) => {
            let p = picks(members, relevant_keys());
            if p.len() > 0 {
                Seq::new(p.len(), |i: int| PreviewView::Relevant(p[i].0, truncated(p[i].1, 100, 97)))
            } else {
                let n = if members.len() < 2 { members.len() } else { 2 };
                Seq::new(n, |i: int| plain_preview(members[i]))
            }
        },
        _ => Seq::empty(),
    }
}

/// Whether every text a preview cuts can be cut.
pub open spec fn previewable(properties: JsonView) -> bool {
    match properties {
        JsonView::Object(members) => {
            let p = picks(members, relevant_keys());
            &&& forall|i: int| 0 <= i < p.len() ==> cuttable(#[trigger] p[i].1, 100, 97)
            &&& p.len() == 0 ==> forall|i: int| 0 <= i < members.len() && i < 2 ==> match #[trigger] members[i].1 {
                JsonView::String(s) => cuttable(s, 50, 47),
                _ => true,
            }
        },
        _ => true,
    }
}

/// Whether the byte length of every text of an object fits a `usize`, as
/// that of every text in memory does.
pub open spec fn texts_fit(properties: JsonView) -> bool {
    match properties {
        JsonView::Object(members) => forall|i: int| 0 <= i < members.len() ==> match #[trigger] members[i].1 {
            JsonView::String(s) => encode_utf8(s).len() <= usize::MAX,
            _ => true,
        },
        _ => true,
    }
}

/// The first member with the key `k`.
fn find_member(members: &Vec<(String, JsonValue)>, k: &str) -> (r: Option<usize>)
    ensures
        match r {
            Some(i) => i < members@.len() && is_first(members_view(members@), i as int, keyed(k@)),
            None => !(exists|i: int| is_first(members_view(members@), i, keyed(k@))),
        },
{
    let ghost mv = members_view(members@);
    let mut i: usize = 0;
    while i < members.len()
        invariant
            mv == members_view(members@),
            0 <= i <= members@.len(),
            forall|j: int| 0 <= j < i ==> !keyed(k@)(#[trigger] mv[j]),
        decreases members.len() - i,
    {
        if same_text(members[i].0.as_str(), k) {
            assert(is_first(mv, i as int, keyed(k@)));
            return Some(i);
        }
        i = i + 1;
    }
    assert forall|j: int| !is_first(mv, j, keyed(k@)) by {
        if 0 <= j < mv.len() {
            assert(!keyed(k@)(mv[j]));
        }
    }
    None
}

/// The non-empty text of the member `k`, if it has one.
fn text_of_member<'a>(members: &'a Vec<(String, JsonValue)>, k: &str) -> (r: Option<&'a str>)
    ensures
        match r {
            Some(t) => member_text(members_view(members@), k@) == Some(t@),
            None => member_text(members_view(members@), k@) is None,
        },
{
    match find_member(members, k) {
        Some(i) => {
            proof {
                lemma_first_unique(members_view(members@), i as int, keyed(k@));
            }
            match &members[i].1 {
                JsonValue::String(t) => if t.as_str().is_empty() {
                    None
                } else {
                    Some(t.as_str())
                },
                _ => None,
            }
        },
        None => None,
    }
}

/// The first two relevant properties holding non-empty text, with that text.
fn pick_relevant<'a>(members: &'a Vec<(String, JsonValue)>) -> (picked: Vec<(&'a str, &'a str)>)
    ensures
        picked@.map_values(|p: (&str, &str)| (p.0@, p.1@)) == picks(members_view(members@), relevant_keys()),
{
    let ghost mv = members_view(members@);
    let keys = ["title", "name", "content", "description", "body"];
    let ghost rk = relevant_keys();
    proof {
        reveal_strlit("title");
        reveal_strlit("name");
        reveal_strlit("content");
        reveal_strlit("description");
        reveal_strlit("body");
    }
    let mut picked: Vec<(&str, &str)> = Vec::new();
    let mut i: usize = 0;
    while i < 5
        invariant
            0 <= i <= 5,
            mv == members_view(members@),
            rk == relevant_keys(),
            forall|j: int| 0 <= j < 5 ==> (#[trigger] keys@[j])@ == rk[j],
            picked@.map_values(|p: (&str, &str)| (p.0@, p.1@)) == picks(mv, rk.take(i as int)),
        decreases 5 - i,
    {
        let k = keys[i];
        let ghost before = picked@;
        match text_of_member(members, k) {
            Some(t) => {
                if picked.len() < 2 {
                    picked.push((k, t));
                }
            },
            None => {},
        }
        proof {
            assert(rk.take(i + 1).drop_last() =~= rk.take(i as int));
            assert(rk.take(i + 1).last() == rk[i as int]);
            assert(picked@.map_values(|p: (&str, &str)| (p.0@, p.1@)) =~= picks(mv, rk.take(i + 1)));
        }
        i = i + 1;
    }
    assert(rk.take(5) =~= rk);
    picked
}

/// The texts picked for a preview are texts of the object's members.
proof fn lemma_picks_are_member_texts(members: Seq<(Seq<char>, JsonView)>, keys: Seq<Seq<char>>)
    ensures
        forall|i: int| 0 <= i < picks(members, keys).len() ==> exists|j: int| 0 <= j < members.len()
            && members[j].1 == JsonView::String(#[trigger] picks(members, keys)[i].1),
    decreases keys.len(),
{
    if keys.len() > 0 {
        lemma_picks_are_member_texts(members, keys.drop_last());
        let prev = picks(members, keys.drop_last());
        let k = keys.last();
        if exists|i: int| is_first(members, i, keyed(k)) {
            let c = choose|i: int| is_first(members, i, keyed(k));
            assert forall|i: int| 0 <= i < picks(members, keys).len() implies exists|j: int| 0 <= j < members.len()
                && members[j].1 == JsonView::String(#[trigger] picks(members, keys)[i].1) by {
                if i < prev.len() {
                    assert(picks(members, keys)[i] == prev[i]);
                } else {
                    assert(members[c].1 == JsonView::String(picks(members, keys)[i].1));
                }
            }
        } else {
            assert(picks(members, keys) == prev);
        }
    }
}

/// Whether the preview of a result can cut every text it cuts.
pub fn can_preview(properties: &JsonValue) -> (r: bool)
    requires
        texts_fit(properties@),
    ensures
        r == previewable(properties@),
{
    match properties {
        JsonValue::Object(members) => {
            let ghost mv = members_view(members@);
            assert(properties@ == JsonView::Object(mv)) by {
                assert(json_view(*properties)->Object_0 =~= mv);
            }
            let picked = pick_relevant(members);
            let ghost p = picks(mv, relevant_keys());
            proof {
                lemma_picks_are_member_texts(mv, relevant_keys());
                assert forall|x: int| 0 <= x < p.len() implies encode_utf8(#[trigger] p[x].1).len() <= usize::MAX by {
                    assert(p[x] == picks(mv, relevant_keys())[x]);
                    let y = choose|y: int| 0 <= y < mv.len() && mv[y].1 == JsonView::String(picks(mv, relevant_keys())[x].1);
                    assert(mv[y].1 == JsonView::String(p[x].1));
                }
            }
            if picked.len() > 0 {
                let mut j: usize = 0;
                while j < picked.len()
                    invariant
                        0 <= j <= picked@.len(),
                        p.len() == picked@.len(),
                        p == picks(mv, relevant_keys()),
                        forall|x: int| 0 <= x < picked@.len() ==> (#[trigger] picked@[x]).0@ == p[x].0 && picked@[x].1@ == p[x].1,
                        forall|x: int| 0 <= x < j ==> cuttable(#[trigger] p[x].1, 100, 97),
                        forall|x: int| 0 <= x < p.len() ==> encode_utf8(#[trigger] p[x].1).len() <= usize::MAX,
                        properties@ == JsonView::Object(mv),
                    decreases picked.len() - j,
                {
                    let t = picked[j].1;
                    assert(t@ == p[j as int].1);
                    assert(encode_utf8(t@).len() <= usize::MAX);
                    if t.len() > 100 && !t.is_char_boundary(97) {
                        assert(!cuttable(p[j as int].1, 100, 97));
                        assert(!previewable(properties@));
                        return false;
                    }
                    j = j + 1;
                }
                true
            } else {
                let n: usize = if members.len() < 2 { members.len() } else { 2 };
                let mut j: usize = 0;
                while j < n
                    invariant
                        0 <= j <= n,
                        n == (if members@.len() < 2 { members@.len() } else { 2 }),
                        mv == members_view(members@),
                        texts_fit(JsonView::Object(mv)),
                        properties@ == JsonView::Object(mv),
                        picks(mv, relevant_keys()).len() == 0,
                        forall|x: int| 0 <= x < j ==> match #[trigger] mv[x].1 {
                            JsonView::String(s) => cuttable(s, 50, 47),
                            _ => true,
                        },
                    decreases n - j,
                {
                    match &members[j].1 {
                        JsonValue::String(s) => {
                            assert(mv[j as int].1 == JsonView::String(s@));
                            if s.as_str().len() > 50 && !s.as_str().is_char_boundary(47) {
                                assert(encode_utf8(s@).len() <= usize::MAX);
                                assert(!cuttable(s@, 50, 47));
                                assert(!previewable(properties@));
                                return false;
                            }
                        },
                        _ => {},
                    }
                    j = j + 1;
                }
                true
            }
        },
        _ => true,
    }
}

/// The preview of a result's properties.
pub fn preview(properties: &JsonValue) -> (r: Vec<Preview>)
    requires
        previewable(properties@),
        texts_fit(properties@),
    ensures
        preview_views(r@) == previews(properties@),
{
    let mut out: Vec<Preview> = Vec::new();
    match properties {
        JsonValue::Object(members) => {
            let ghost mv = members_view(members@);
            assert(properties@ == JsonView::Object(mv)) by {
                assert(json_view(*properties)->Object_0 =~= mv);
            }
            let picked = pick_relevant(members);
            let ghost rk = relevant_keys();
            let ghost p = picks(mv, rk);
            proof {
                lemma_picks_are_member_texts(mv, rk);
                assert forall|x: int| 0 <= x < p.len() implies encode_utf8(#[trigger] p[x].1).len() <= usize::MAX by {
                    assert(p[x] == picks(mv, rk)[x]);
                    let y = choose|y: int| 0 <= y < mv.len() && mv[y].1 == JsonView::String(picks(mv, rk)[x].1);
                    assert(mv[y].1 == JsonView::String(p[x].1));
                }
            }
            if picked.len() > 0 {
                let mut j: usize = 0;
                while j < picked.len()
                    invariant
                        0 <= j <= picked@.len(),
                        p.len() == picked@.len(),
                        forall|x: int| 0 <= x < picked@.len() ==> (#[trigger] picked@[x]).0@ == p[x].0 && picked@[x].1@ == p[x].1,
                        forall|x: int| 0 <= x < p.len() ==> cuttable(#[trigger] p[x].1, 100, 97),
                        forall|x: int| 0 <= x < p.len() ==> encode_utf8(#[trigger] p[x].1).len() <= usize::MAX,
                        out@.len() == j,
                        preview_views(out@) == Seq::new(j as nat, |x: int| PreviewView::Relevant(p[x].0, truncated(p[x].1, 100, 97))),
                    decreases picked.len() - j,
                {
                    let (k, t) = picked[j];
                    assert(t@ == p[j as int].1);
                    let text = truncate(t, 100, 97);
                    let ghost before = out@;
                    let item = Preview::Relevant { key: owned(k), text };
                    assert(item@ == PreviewView::Relevant(p[j as int].0, truncated(p[j as int].1, 100, 97)));
                    out.push(item);
                    proof {
                        let target = Seq::new((j + 1) as nat, |x: int| PreviewView::Relevant(p[x].0, truncated(p[x].1, 100, 97)));
                        assert forall|x: int| 0 <= x < j + 1 implies #[trigger] preview_views(out@)[x] == target[x] by {
                            if x < j {
                                assert(out@[x] == before[x]);
                                assert(preview_views(before)[x] == before[x]@);
                            }
                        }
                        assert(preview_views(out@) =~= target);
                    }
                    j = j + 1;
                }
            } else {
                let n: usize = if members.len() < 2 { members.len() } else { 2 };
                let mut j: usize = 0;
                while j < n
                    invariant
                        0 <= j <= n,
                        n == (if members@.len() < 2 { members@.len() } else { 2 }),
                        mv == members_view(members@),
                        p.len() == 0,
                        previewable(JsonView::Object(mv)),
                        texts_fit(JsonView::Object(mv)),
                        p == picks(mv, relevant_keys()),
                        out@.len() == j,
                        preview_views(out@) == Seq::new(j as nat, |x: int| plain_preview(mv[x])),
                    decreases n - j,
                {
                    let key = &members[j].0;
                    let item = match &members[j].1 {
                        JsonValue::String(s) => {
                            assert(mv[j as int].1 == JsonView::String(s@));
                            Preview::Plain { key: key.clone(), text: truncate(s.as_str(), 50, 47) }
                        },
                        _ => Preview::Json { key: key.clone() },
                    };
                    assert(item@ == plain_preview(mv[j as int]));
                    let ghost before = out@;
                    out.push(item);
                    proof {
                        let target = Seq::new((j + 1) as nat, |x: int| plain_preview(mv[x]));
                        assert forall|x: int| 0 <= x < j + 1 implies #[trigger] preview_views(out@)[x] == target[x] by {
                            if x < j {
                                assert(out@[x] == before[x]);
                                assert(preview_views(before)[x] == before[x]@);
                            }
                        }
                        assert(preview_views(out@) =~= target);
                    }
                    j = j + 1;
                }
            }
            assert(preview_views(out@) =~= previews(properties@));
        },
        _ => {
            assert(preview_views(out@) =~= previews(properties@));
        },
    }
    out
}

} // verus!
