//! The commands of the Nushell plugin.
//!
//! Each command reads its arguments, finds its space, asks the Anytype API
//! and hands a value back to the shell.  The asking is the program's; what
//! a command requires of its arguments, which requests it builds, how it
//! names its failures and what it hands back is decided here.
pub mod auth;
pub mod import;
pub mod list;
pub mod matter;
pub mod member;
pub mod object;
pub mod property;
pub mod resolve;
pub mod search;
pub mod space;
pub mod tag;
pub mod template;
pub mod types;

use vstd::prelude::*;
use crate::text::{concat, concat3, owned};
use crate::value::AnytypeValue;

verus! {

/// An error of a command, as the shell shows it: a message and, where the
/// command points at a part of the call, a label for it.
#[derive(Debug, Clone, PartialEq)]
pub struct LabeledError {
    pub msg: String,
    pub label: Option<String>,
}

impl LabeledError {
    /// An error with a message and no label.
    pub fn new(msg: &str) -> (e: LabeledError)
        ensures
            e.msg@ == msg@,
            e.label is None,
    {
        LabeledError { msg: owned(msg), label: None }
    }

    /// An error with a message and a label.
    pub fn labeled(msg: &str, label: &str) -> (e: LabeledError)
        ensures
            e.msg@ == msg@,
            e.label matches Some(l) && l@ == label@,
    {
        LabeledError { msg: owned(msg), label: Some(owned(label)) }
    }
}

/// Whether `e` has the message `msg` and no label.
pub open spec fn plain_error(e: LabeledError, msg: Seq<char>) -> bool {
    e.msg@ == msg && e.label is None
}

/// Whether `e` has the message `msg` and the label `label`.
pub open spec fn labeled_error(e: LabeledError, msg: Seq<char>, label: Seq<char>) -> bool {
    e.msg@ == msg && (e.label matches Some(l) && l@ == label)
}

/// The message of a failed step: `Failed to <what>: <detail>`.
pub open spec fn failure_text(what: Seq<char>, detail: Seq<char>) -> Seq<char> {
    "Failed to "@ + what + ": "@ + detail
}

/// The error of a failed step, with no label.
pub fn failure(what: &str, detail: &str) -> (e: LabeledError)
    ensures
        plain_error(e, failure_text(what@, detail@)),
{
    let head = concat3("Failed to ", what, ": ");
    LabeledError { msg: concat(head.as_str(), detail), label: None }
}

/// The error when the resolver cannot be had: the credentials are missing.
pub fn resolver_unavailable(detail: &str) -> (e: LabeledError)
    ensures
        labeled_error(e, failure_text("get resolver"@, detail@), "Authentication required"@),
{
    let e = failure("get resolver", detail);
    LabeledError { msg: e.msg, label: Some(owned("Authentication required")) }
}

/// The error when the client cannot be had: the credentials are missing.
pub fn client_unavailable(detail: &str) -> (e: LabeledError)
    ensures
        labeled_error(e, failure_text("get client"@, detail@), "Authentication required"@),
{
    let e = failure("get client", detail);
    LabeledError { msg: e.msg, label: Some(owned("Authentication required")) }
}

/// `'<s>'`: a name quoted in a message.
pub open spec fn single_quoted(s: Seq<char>) -> Seq<char> {
    "'"@ + s + "'"@
}

/// The message when a name cannot be resolved within a scope:
/// `Failed to resolve <kind> '<name>' in <scope_kind> '<scope>': <detail>`.
pub open spec fn resolve_failure_text(
    kind: Seq<char>,
    name: Seq<char>,
    scope_kind: Seq<char>,
    scope: Seq<char>,
    detail: Seq<char>,
) -> Seq<char> {
    "Failed to resolve "@ + kind + " "@ + single_quoted(name) + " in "@ + scope_kind + " "@
        + single_quoted(scope) + ": "@ + detail
}

/// `'<s>'`.
pub fn quote(s: &str) -> (r: String)
    ensures
        r@ == single_quoted(s@),
{
    concat3("'", s, "'")
}

/// The error when a name cannot be resolved within a scope.
pub fn resolve_failure(kind: &str, name: &str, scope_kind: &str, scope: &str, detail: &str) -> (e: LabeledError)
    ensures
        plain_error(e, resolve_failure_text(kind@, name@, scope_kind@, scope@, detail@)),
{
    let a = concat3("Failed to resolve ", kind, " ");
    let qn = quote(name);
    let b = concat3(a.as_str(), qn.as_str(), " in ");
    let c = concat3(b.as_str(), scope_kind, " ");
    let qs = quote(scope);
    let d = concat3(c.as_str(), qs.as_str(), ": ");
    let msg = concat(d.as_str(), detail);
    assert(msg@ =~= resolve_failure_text(kind@, name@, scope_kind@, scope@, detail@));
    LabeledError { msg, label: None }
}

/// A value of a record field.
#[derive(Debug, Clone, PartialEq)]
pub enum Cell {
    Text(String),
    Int(i64),
    Bool(bool),
}

/// The plain value of a record field.
pub enum CellView {
    Text(Seq<char>),
    Int(i64),
    Bool(bool),
}

impl View for Cell {
    type V = CellView;

    open spec fn view(&self) -> CellView {
        match *self {
            Cell::Text(s) => CellView::Text(s@),
            Cell::Int(i) => CellView::Int(i),
            Cell::Bool(b) => CellView::Bool(b),
        }
    }
}

/// A record the shell shows: named fields in order.
#[derive(Debug, Clone, PartialEq)]
pub struct Record {
    pub fields: Vec<(String, Cell)>,
}

/// The plain value of a record: its field names and values in order.
pub open spec fn record_view(r: Record) -> Seq<(Seq<char>, CellView)> {
    r.fields@.map_values(|f: (String, Cell)| (f.0@, f.1@))
}

impl Record {
    /// A record with no fields.
    pub fn new() -> (r: Record)
        ensures
            record_view(r) == Seq::<(Seq<char>, CellView)>::empty(),
    {
        Record { fields: Vec::new() }
    }

    /// Appends a field.
    pub fn push(&mut self, name: &str, value: Cell)
        ensures
            record_view(*final(self)) == record_view(*old(self)).push((name@, value@)),
    {
        self.fields.push((owned(name), value));
        assert(record_view(*self) =~= record_view(*old(self)).push((name@, value@)));
    }
}

/// Where a command finds the space it works in: the `--space` flag names it,
/// a value piped in carries it, or the configured default space names it.
#[derive(Debug, Clone, PartialEq)]
pub enum SpaceSource {
    /// The space named by `--space`, still to be resolved.
    Flag(String),
    /// The space of the value piped in.
    Piped(String),
    /// The configured default space, still to be resolved.
    Default(String),
}

/// Where the space comes from: the flag first, then the piped value, then the
/// configured default; none of them is an error.
pub open spec fn space_source_of(
    flag: Option<Seq<char>>,
    piped: Option<Seq<char>>,
    default_space: Option<Seq<char>>,
) -> Option<(int, Seq<char>)> {
    match flag {
        Some(n) => Some((0, n)),
        None => match piped {
            Some(id) => Some((1, id)),
            None => match default_space {
                Some(n) => Some((2, n)),
                None => None,
            },
        },
    }
}

/// The rank and text of a space source.
pub open spec fn source_view(s: SpaceSource) -> (int, Seq<char>) {
    match s {
        SpaceSource::Flag(n) => (0, n@),
        SpaceSource::Piped(id) => (1, id@),
        SpaceSource::Default(n) => (2, n@),
    }
}

/// The message when no space can be found.
pub open spec fn missing_space_text() -> Seq<char> {
    "Space context required. Use --space <name>, pipe a Space, or configure default_space"@
}

/// The space of a value piped in, if any.
pub open spec fn piped_space(piped: Option<&AnytypeValue>) -> Option<Seq<char>> {
    match piped {
        Some(v) => Some(v.spec_space_id()),
        None => None,
    }
}

/// Extract the space from multiple sources (flag, pipeline, config).
pub fn space_source(
    flag: Option<String>,
    piped: Option<&AnytypeValue>,
    default_space: Option<String>,
) -> (r: Result<SpaceSource, LabeledError>)
    ensures
        match space_source_of(crate::text::opt_view(flag), piped_space(piped), crate::text::opt_view(default_space)) {
            Some(s) => r matches Ok(src) && source_view(src) == s,
            None => r matches Err(e) && labeled_error(e, missing_space_text(), "Missing space context"@),
        },
{
    let piped_id: Option<String> = match piped {
        Some(v) => match v.space_id() {
            Some(id) => Some(owned(id)),
            None => None,
        },
        None => None,
    };
    match flag {
        Some(n) => Ok(SpaceSource::Flag(n)),
        None => match piped_id {
            Some(id) => Ok(SpaceSource::Piped(id)),
            None => match default_space {
                Some(n) => Ok(SpaceSource::Default(n)),
                None => Err(LabeledError::labeled(
                    "Space context required. Use --space <name>, pipe a Space, or configure default_space",
                    "Missing space context",
                )),
            },
        },
    }
}

/// The message when the space of a source cannot be resolved.
pub open spec fn space_failure_text(s: SpaceSource, detail: Seq<char>) -> Seq<char> {
    match s {
        SpaceSource::Default(n) => "Failed to resolve default space "@ + single_quoted(n@) + ": "@ + detail,
        SpaceSource::Flag(n) => "Failed to resolve space "@ + single_quoted(n@) + ": "@ + detail,
        SpaceSource::Piped(id) => "Failed to resolve space "@ + single_quoted(id@) + ": "@ + detail,
    }
}

/// The error when the space named by a source cannot be resolved.
pub fn space_failure(source: &SpaceSource, detail: &str) -> (e: LabeledError)
    ensures
        plain_error(e, space_failure_text(*source, detail@)),
{
    let (head, name) = match source {
        SpaceSource::Default(n) => ("Failed to resolve default space ", n),
        SpaceSource::Flag(n) => ("Failed to resolve space ", n),
        SpaceSource::Piped(id) => ("Failed to resolve space ", id),
    };
    let q = quote(name.as_str());
    let a = concat3(head, q.as_str(), ": ");
    let msg = concat(a.as_str(), detail);
    assert(msg@ =~= space_failure_text(*source, detail@));
    LabeledError { msg, label: None }
}

} // verus!
