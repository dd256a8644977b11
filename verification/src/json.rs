//! A JSON value held as plain values: what the crate reads of the JSON that
//! the Anytype API and markdown front matter carry.
use vstd::prelude::*;
use crate::text::{decimal, signed_decimal};

verus! {

/// A JSON number.  Integers are held exactly; a number with a fraction or an
/// exponent is held by its shortest decimal text, as JSON writes it.
#[derive(Debug, Clone, PartialEq)]
pub enum JsonNumber {
    PosInt(u64),
    NegInt(i64),
    Float(String),
}

/// A JSON value.  An object keeps its members in order, each key once.
#[derive(Debug, PartialEq)]
pub enum JsonValue {
    Null,
    Bool(bool),
    Number(JsonNumber),
    String(String),
    Array(Vec<JsonValue>),
    Object(Vec<(String, JsonValue)>),
}

/// The plain value of a JSON number.
pub enum NumberView {
    PosInt(u64),
    NegInt(i64),
    Float(Seq<char>),
}

/// The plain value of a JSON value.
pub enum JsonView {
    Null,
    Bool(bool),
    Number(NumberView),
    String(Seq<char>),
    Array(Seq<JsonView>),
    Object(Seq<(Seq<char>, JsonView)>),
}

/// The text JSON writes for a number.
pub open spec fn number_text(n: NumberView) -> Seq<char> {
    match n {
        NumberView::PosInt(u) => decimal(u as nat),
        NumberView::NegInt(i) => signed_decimal(i as int),
        NumberView::Float(t) => t,
    }
}

/// A number as an `i64`, where it is an integer in range.
pub open spec fn number_as_i64(n: NumberView) -> Option<i64> {
    match n {
        NumberView::PosInt(u) => if u <= i64::MAX as u64 { Some(u as i64) } else { None },
        NumberView::NegInt(i) => Some(i),
        NumberView::Float(_) => None,
    }
}

impl View for JsonNumber {
    type V = NumberView;

    open spec fn view(&self) -> NumberView {
        match *self {
            JsonNumber::PosInt(u) => NumberView::PosInt(u),
            JsonNumber::NegInt(i) => NumberView::NegInt(i),
            JsonNumber::Float(t) => NumberView::Float(t@),
        }
    }
}

/// The plain value of a JSON value.
pub open spec fn json_view(v: JsonValue) -> JsonView
    decreases v,
{
    match v {
        JsonValue::Null => JsonView::Null,
        JsonValue::Bool(b) => JsonView::Bool(b),
        JsonValue::Number(n) => JsonView::Number(n@),
        JsonValue::String(s) => JsonView::String(s@),
        JsonValue::Array(items) => JsonView::Array(
            Seq::new(items@.len(), |i: int| if 0 <= i < items@.len() { json_view(items@[i]) } else { JsonView::Null }),
        ),
        JsonValue::Object(members) => JsonView::Object(
            Seq::new(members@.len(), |i: int| if 0 <= i < members@.len() { (members@[i].0@, json_view(members@[i].1)) } else { (Seq::empty(), JsonView::Null) }),
        ),
    }
}

impl View for JsonValue {
    type V = JsonView;

    open spec fn view(&self) -> JsonView {
        json_view(*self)
    }
}

impl JsonNumber {
    /// The text JSON writes for the number.
    pub open spec fn text(self) -> Seq<char> {
        match self {
            JsonNumber::PosInt(u) => decimal(u as nat),
            JsonNumber::NegInt(i) => signed_decimal(i as int),
            JsonNumber::Float(t) => t@,
        }
    }

    /// The number as an `i64`, where it is an integer in range.
    pub open spec fn spec_as_i64(self) -> Option<i64> {
        match self {
            JsonNumber::PosInt(u) => if u <= i64::MAX as u64 { Some(u as i64) } else { None },
            JsonNumber::NegInt(i) => Some(i),
            JsonNumber::Float(_) => None,
        }
    }

    /// A copy of the number.
    pub fn duplicate(&self) -> (r: JsonNumber)
        ensures
            r@ == self@,
    {
        match self {
            JsonNumber::PosInt(u) => JsonNumber::PosInt(*u),
            JsonNumber::NegInt(i) => JsonNumber::NegInt(*i),
            JsonNumber::Float(t) => JsonNumber::Float(t.clone()),
        }
    }

    /// `serde_json::Number::to_string`.
    pub fn to_text(&self) -> (s: String)
        ensures
            s@ == self.text(),
            s@ == number_text(self@),
    {
        match self {
            JsonNumber::PosInt(u) => crate::text::u64_text(*u),
            JsonNumber::NegInt(i) => crate::text::i64_text(*i),
            JsonNumber::Float(t) => t.clone(),
        }
    }

    /// `serde_json::Number::as_i64`.
    pub fn as_i64(&self) -> (r: Option<i64>)
        ensures
            r == self.spec_as_i64(),
            r == number_as_i64(self@),
    {
        match self {
            JsonNumber::PosInt(u) => if *u <= i64::MAX as u64 { Some(*u as i64) } else { None },
            JsonNumber::NegInt(i) => Some(*i),
            JsonNumber::Float(_) => None,
        }
    }
}


/// Whether no object within a JSON value holds a key twice.
pub open spec fn json_keys_once(v: JsonView) -> bool
    decreases v,
{
    match v {
        JsonView::Array(items) => forall|i: int| 0 <= i < items.len() ==> json_keys_once(#[trigger] items[i]),
        JsonView::Object(members) => (forall|i: int, j: int| 0 <= i < j < members.len()
                ==> (#[trigger] members[i]).0 != (#[trigger] members[j]).0)
            && forall|i: int| 0 <= i < members.len() ==> json_keys_once(#[trigger] members[i].1),
        _ => true,
    }
}

/// The `Debug` form of a text, as `<str as Debug>::fmt` writes it: the text
/// between double quotes, with quotes, backslashes, control characters and
/// characters that do not print escaped.  A function of the text alone.
pub uninterp spec fn debug_quoted(s: Seq<char>) -> Seq<char>;

/// Whether a text holds only printable ASCII characters other than the
/// double quote and the backslash: those `Debug` writes as they are.
pub open spec fn plain_ascii(s: Seq<char>) -> bool {
    forall|i: int| 0 <= i < s.len() ==> ' ' <= #[trigger] s[i] <= '~' && s[i] != '"' && s[i] != '\\'
}

/// `format!("{:?}", s)` for a text: its `Debug` form.  A text of printable
/// ASCII characters other than quote and backslash is written as it is,
/// between double quotes.
#[verifier::external_body]
fn debug_quoted_text(s: &str) -> (r: String)
    ensures
        r@ == debug_quoted(s@),
        plain_ascii(s@) ==> r@ == "\""@ + s@ + "\""@,
{
    format!("{:?}", s)
}

/// The `Debug` form serde_json gives a JSON value: `Null`, `Bool(..)`,
/// `Number(..)`, `String(..)`, `Array [..]` and `Object {..}`, the items
/// and members separated by `, ` and each member written as its quoted key,
/// `: ` and its value.
pub open spec fn json_debug(v: JsonView) -> Seq<char>
    decreases v,
{
    match v {
        JsonView::Null => "Null"@,
        JsonView::Bool(b) => "Bool("@ + (if b { "true"@ } else { "false"@ }) + ")"@,
        JsonView::Number(n) => "Number("@ + number_text(n) + ")"@,
        JsonView::String(s) => "String("@ + debug_quoted(s) + ")"@,
        JsonView::Array(items) => "Array ["@ + items_debug(items) + "]"@,
        JsonView::Object(members) => "Object {"@ + members_debug(members) + "}"@,
    }
}

/// The `Debug` forms of array items, separated by `, `.
pub open spec fn items_debug(items: Seq<JsonView>) -> Seq<char>
    decreases items,
{
    if items.len() == 0 {
        Seq::empty()
    } else {
        proof {
            assert(decreases_to!(items => items[items.len() - 1]));
        }
        let last = json_debug(items[items.len() - 1]);
        if items.len() == 1 {
            last
        } else {
            items_debug(items.drop_last()) + ", "@ + last
        }
    }
}

/// The `Debug` forms of object members, `"key": value`, separated by `, `.
pub open spec fn members_debug(members: Seq<(Seq<char>, JsonView)>) -> Seq<char>
    decreases members,
{
    if members.len() == 0 {
        Seq::empty()
    } else {
        proof {
            assert(decreases_to!(members => members[members.len() - 1]));
            assert(decreases_to!(members[members.len() - 1] => members[members.len() - 1].1));
        }
        let m = members[members.len() - 1];
        let last = debug_quoted(m.0) + ": "@ + json_debug(m.1);
        if members.len() == 1 {
            last
        } else {
            members_debug(members.drop_last()) + ", "@ + last
        }
    }
}

impl JsonValue {
    /// The `Debug` form serde_json gives the value.
    #[verifier::loop_isolation(false)]
    pub fn debug_text(&self) -> (r: String)
        ensures
            r@ == json_debug(self@),
        decreases self,
    {
        match self {
            JsonValue::Null => crate::text::owned("Null"),
            JsonValue::Bool(b) => {
                let r = crate::text::concat3("Bool(", if *b { "true" } else { "false" }, ")");
                assert(r@ =~= json_debug(self@));
                r
            },
            JsonValue::Number(n) => {
                let t = n.to_text();
                let r = crate::text::concat3("Number(", t.as_str(), ")");
                assert(r@ =~= json_debug(self@));
                r
            },
            JsonValue::String(s) => {
                let q = debug_quoted_text(s.as_str());
                let r = crate::text::concat3("String(", q.as_str(), ")");
                assert(r@ =~= json_debug(self@));
                r
            },
            JsonValue::Array(items) => {
                let ghost views = json_view(*self)->Array_0;
                let mut acc = crate::text::owned("");
                proof {
                    reveal_strlit("");
                    assert(views.take(0) =~= Seq::<JsonView>::empty());
                }
                let mut i: usize = 0;
                while i < items.len()
                    invariant
                        0 <= i <= items.len(),
                        views == json_view(*self)->Array_0,
                        views.len() == items@.len(),
                        forall|j: int| 0 <= j < items@.len() ==> views[j] == json_view(#[trigger] items@[j]),
                        acc@ == items_debug(views.take(i as int)),
                    decreases items.len() - i,
                {
                    assert(decreases_to!(*self => self->Array_0));
                    assert(decreases_to!(self->Array_0 => self->Array_0@));
                    assert(decreases_to!(self->Array_0@ => self->Array_0@[i as int]));
                    let t = items[i].debug_text();
                    proof {
                        let next = views.take(i + 1);
                        assert(next.drop_last() =~= views.take(i as int));
                        assert(next[next.len() - 1] == views[i as int]);
                    }
                    if i == 0 {
                        acc = t;
                    } else {
                        acc = crate::text::concat3(acc.as_str(), ", ", t.as_str());
                    }
                    i = i + 1;
                }
                assert(views.take(items@.len() as int) =~= views);
                let r = crate::text::concat3("Array [", acc.as_str(), "]");
                assert(r@ =~= json_debug(self@));
                r
            },
            JsonValue::Object(members) => {
                let ghost views = json_view(*self)->Object_0;
                let mut acc = crate::text::owned("");
                proof {
                    reveal_strlit("");
                    assert(views.take(0) =~= Seq::<(Seq<char>, JsonView)>::empty());
                }
                let mut i: usize = 0;
                while i < members.len()
                    invariant
                        0 <= i <= members.len(),
                        views == json_view(*self)->Object_0,
                        views.len() == members@.len(),
                        forall|j: int| 0 <= j < members@.len() ==> (#[trigger] views[j]) == (members@[j].0@, json_view(members@[j].1)),
                        acc@ == members_debug(views.take(i as int)),
                    decreases members.len() - i,
                {
                    assert(decreases_to!(*self => self->Object_0));
                    assert(decreases_to!(self->Object_0 => self->Object_0@));
                    assert(decreases_to!(self->Object_0@ => self->Object_0@[i as int]));
                    assert(decreases_to!(self->Object_0@[i as int] => self->Object_0@[i as int].1));
                    let k = debug_quoted_text(members[i].0.as_str());
                    let v = members[i].1.debug_text();
                    let member = crate::text::concat3(k.as_str(), ": ", v.as_str());
                    proof {
                        let next = views.take(i + 1);
                        assert(next.drop_last() =~= views.take(i as int));
                        assert(next[next.len() - 1] == views[i as int]);
                        assert(views[i as int] == (members@[i as int].0@, json_view(members@[i as int].1)));
                    }
                    if i == 0 {
                        acc = member;
                    } else {
                        acc = crate::text::concat3(acc.as_str(), ", ", member.as_str());
                    }
                    i = i + 1;
                }
                assert(views.take(members@.len() as int) =~= views);
                let r = crate::text::concat3("Object {", acc.as_str(), "}");
                assert(r@ =~= json_debug(self@));
                r
            },
        }
    }

    /// A deep copy of the value.
    #[verifier::loop_isolation(false)]
    pub fn duplicate(&self) -> (r: JsonValue)
        ensures
            r@ == self@,
        decreases self,
    {
        match self {
            JsonValue::Null => JsonValue::Null,
            JsonValue::Bool(b) => JsonValue::Bool(*b),
            JsonValue::Number(n) => JsonValue::Number(n.duplicate()),
            JsonValue::String(s) => JsonValue::String(s.clone()),
            JsonValue::Array(items) => {
                let mut out: Vec<JsonValue> = Vec::new();
                let mut i: usize = 0;
                while i < items.len()
                    invariant
                        0 <= i <= items.len(),
                        forall|j: int| 0 <= j < i ==> (#[trigger] out@[j])@ == items@[j]@,
                        out.len() == i,
                    decreases items.len() - i,
                {
                    assert(decreases_to!(*self => self->Array_0));
                    assert(decreases_to!(self->Array_0 => self->Array_0@));
                    assert(decreases_to!(self->Array_0@ => self->Array_0@[i as int]));
                    let item = items[i].duplicate();
                    out.push(item);
                    i = i + 1;
                }
                let r = JsonValue::Array(out);
                assert(r@ =~= self@) by {
                    assert(json_view(r)->Array_0 =~= json_view(*self)->Array_0);
                }
                r
            },
            JsonValue::Object(members) => {
                let mut out: Vec<(String, JsonValue)> = Vec::new();
                let mut i: usize = 0;
                while i < members.len()
                    invariant
                        0 <= i <= members.len(),
                        forall|j: int| 0 <= j < i ==> (#[trigger] out@[j]).0@ == members@[j].0@ && out@[j].1@ == members@[j].1@,
                        out.len() == i,
                    decreases members.len() - i,
                {
                    assert(decreases_to!(*self => self->Object_0));
                    assert(decreases_to!(self->Object_0 => self->Object_0@));
                    assert(decreases_to!(self->Object_0@ => self->Object_0@[i as int]));
                    assert(decreases_to!(self->Object_0@[i as int] => self->Object_0@[i as int].1));
                    let value = members[i].1.duplicate();
                    out.push((members[i].0.clone(), value));
                    i = i + 1;
                }
                let r = JsonValue::Object(out);
                assert(r@ =~= self@) by {
                    assert(json_view(r)->Object_0 =~= json_view(*self)->Object_0);
                }
                r
            },
        }
    }

    /// `serde_json::Value::as_str`.
    pub fn as_str(&self) -> (r: Option<&str>)
        ensures
            r matches Some(s) ==> self matches JsonValue::String(t) && s@ == t@,
            r is None ==> !(self is String),
    {
        match self {
            JsonValue::String(s) => Some(s.as_str()),
            _ => None,
        }
    }

    /// `serde_json::Value::is_number`.
    pub fn is_number(&self) -> (r: bool)
        ensures
            r == (self is Number),
    {
        match self {
            JsonValue::Number(_) => true,
            _ => false,
        }
    }

    /// `serde_json::Value::is_array`.
    pub fn is_array(&self) -> (r: bool)
        ensures
            r == (self is Array),
    {
        match self {
            JsonValue::Array(_) => true,
            _ => false,
        }
    }
}

} // verus!
