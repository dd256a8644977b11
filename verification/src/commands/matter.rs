//! Reading the YAML front matter of a markdown file.
//!
//! gray_matter splits a markdown text into its front matter and its body
//! and reads the front matter as YAML.  What it reads is carried over into
//! the library's own value, `MatterValue`, and from there into JSON, field
//! by field.
use vstd::prelude::*;
use super::import::{reading_view, FrontmatterField};
use crate::json::{json_keys_once, json_view, JsonNumber, JsonValue, JsonView, NumberView};
use crate::text::opt_view;

verus! {

broadcast use vstd::string::group_string_axioms;

#[verifier::external_type_specification]
#[verifier::external_body]
pub struct ExPod(gray_matter::Pod);

/// A value of YAML front matter, as gray_matter reads it.  A number with a
/// fraction or an exponent is held by its shortest decimal text, as JSON
/// writes it, or by nothing where it is not finite (NaN or infinite).  A
/// hash keeps its entries in the order they were walked.
#[derive(Debug, PartialEq)]
pub enum MatterValue {
    Null,
    String(String),
    Integer(i64),
    Float(Option<String>),
    Boolean(bool),
    Array(Vec<MatterValue>),
    Hash(Vec<(String, MatterValue)>),
}

/// The plain value of front matter: a hash is a map from its keys, with
/// no order.
pub enum MatterView {
    Null,
    String(Seq<char>),
    Integer(i64),
    Float(Option<Seq<char>>),
    Boolean(bool),
    Array(Seq<MatterView>),
    Hash(Map<Seq<char>, MatterView>),
}

/// The plain value of a front matter value.
pub open spec fn matter_view(v: MatterValue) -> MatterView
    decreases v,
{
    match v {
        MatterValue::Null => MatterView::Null,
        MatterValue::String(s) => MatterView::String(s@),
        MatterValue::Integer(i) => MatterView::Integer(i),
        MatterValue::Float(t) => MatterView::Float(opt_view(t)),
        MatterValue::Boolean(b) => MatterView::Boolean(b),
        MatterValue::Array(items) => MatterView::Array(
            Seq::new(items@.len(), |i: int| if 0 <= i < items@.len() { matter_view(items@[i]) } else { MatterView::Null }),
        ),
        MatterValue::Hash(pairs) => MatterView::Hash(
            Map::new(
                |k: Seq<char>| exists|i: int| 0 <= i < pairs@.len() && pairs@[i].0@ == k,
                |k: Seq<char>| {
                    let i = choose|i: int| 0 <= i < pairs@.len() && pairs@[i].0@ == k;
                    if 0 <= i < pairs@.len() { matter_view(pairs@[i].1) } else { MatterView::Null }
                },
            ),
        ),
    }
}

/// Whether no key occurs twice among the entries of a hash.
pub open spec fn keys_once(pairs: Seq<(String, MatterValue)>) -> bool {
    forall|i: int, j: int| 0 <= i < j < pairs.len() ==> (#[trigger] pairs[i]).0@ != (#[trigger] pairs[j]).0@
}

/// Whether no hash in a front matter value holds a key twice.
pub open spec fn matter_wf(v: MatterValue) -> bool
    decreases v,
{
    match v {
        MatterValue::Array(items) => forall|i: int| 0 <= i < items@.len() ==> matter_wf(#[trigger] items@[i]),
        MatterValue::Hash(pairs) => keys_once(pairs@)
            && forall|i: int| 0 <= i < pairs@.len() ==> matter_wf(#[trigger] pairs@[i].1),
        _ => true,
    }
}

/// The JSON a front matter value becomes: an integer a JSON integer, a
/// finite number with a fraction a JSON number with the same text, any
/// other number `null`, and a hash an object with its entries in order.
pub open spec fn pod_json(v: MatterValue) -> JsonView
    decreases v,
{
    match v {
        MatterValue::Null => JsonView::Null,
        MatterValue::String(s) => JsonView::String(s@),
        MatterValue::Integer(i) => JsonView::Number(if i >= 0 { NumberView::PosInt(i as u64) } else { NumberView::NegInt(i) }),
        MatterValue::Float(t) => match t {
            Some(text) => JsonView::Number(NumberView::Float(text@)),
            None => JsonView::Null,
        },
        MatterValue::Boolean(b) => JsonView::Bool(b),
        MatterValue::Array(items) => JsonView::Array(
            Seq::new(items@.len(), |i: int| if 0 <= i < items@.len() { pod_json(items@[i]) } else { JsonView::Null }),
        ),
        MatterValue::Hash(pairs) => JsonView::Object(
            Seq::new(pairs@.len(), |i: int| if 0 <= i < pairs@.len() { (pairs@[i].0@, pod_json(pairs@[i].1)) } else { (Seq::empty(), JsonView::Null) }),
        ),
    }
}

/// The body of a markdown text once gray_matter has taken its front matter
/// out (`ParsedEntity::content` of `Matter::<YAML>::parse`).
pub uninterp spec fn matter_body(content: Seq<char>) -> Seq<char>;

/// The front matter gray_matter reads from a markdown text, where it finds
/// any (`ParsedEntity::data` of `Matter::<YAML>::parse`).
pub uninterp spec fn matter_data(content: Seq<char>) -> Option<MatterView>;

/// What a `gray_matter::Pod` holds.
pub uninterp spec fn pod_contents(p: gray_matter::Pod) -> MatterView;

/// What a text reads as as a floating-point number (`str::parse::<f64>`):
/// nothing where it reads as no number, else the shortest decimal text JSON
/// writes for it, or nothing inside where it is not finite.
pub uninterp spec fn float_reading(s: Seq<char>) -> Option<Option<Seq<char>>>;

/// The fields of a markdown text's front matter: the entries of the hash it
/// holds, none where it holds no hash or no front matter is found.
pub open spec fn front_matter(content: Seq<char>) -> Map<Seq<char>, MatterView> {
    match matter_data(content) {
        Some(MatterView::Hash(m)) => m,
        _ => Map::empty(),
    }
}

/// `gray_matter::Matter::<YAML>::parse`: the front matter found, if any,
/// and the body of the text.
#[verifier::external_body]
fn matter_parse(content: &str) -> (r: (Option<gray_matter::Pod>, String))
    ensures
        r.1@ == matter_body(content@),
        match r.0 {
            Some(p) => matter_data(content@) == Some(pod_contents(p)),
            None => matter_data(content@) is None,
        },
{
    let parsed = gray_matter::Matter::<gray_matter::engine::YAML>::new().parse(content);
    (parsed.data, parsed.content)
}

/// A `gray_matter::Pod` as a `MatterValue`, variant for variant.  A float
/// becomes the text `serde_json::Number::from_f64` writes for it, or
/// nothing where that gives no number.  A hash comes out in the order its
/// `HashMap` is walked, each key once.
#[verifier::external_body]
fn matter_value_of(p: &gray_matter::Pod) -> (r: MatterValue)
    ensures
        matter_view(r) == pod_contents(*p),
        matter_wf(r),
{
    match p {
        gray_matter::Pod::Null => MatterValue::Null,
        gray_matter::Pod::String(s) => MatterValue::String(s.clone()),
        gray_matter::Pod::Integer(i) => MatterValue::Integer(*i),
        gray_matter::Pod::Float(f) => MatterValue::Float(serde_json::Number::from_f64(*f).map(|n| n.to_string())),
        gray_matter::Pod::Boolean(b) => MatterValue::Boolean(*b),
        gray_matter::Pod::Array(items) => MatterValue::Array(items.iter().map(matter_value_of).collect()),
        gray_matter::Pod::Hash(h) => MatterValue::Hash(h.iter().map(|(k, v)| (k.clone(), matter_value_of(v))).collect()),
    }
}

/// `str::parse` of a text as a floating-point number, with the number found written as
/// `serde_json::Number::from_f64` writes it (nothing inside where it is not
/// finite).
#[verifier::external_body]
fn float_text(s: &str) -> (r: Option<Option<String>>)
    ensures
        r matches Some(t) ==> float_reading(s@) == Some(opt_view(t)),
        r is None <==> float_reading(s@) is None,
{
    s.parse().ok().map(|f| serde_json::Number::from_f64(f).map(|n| n.to_string()))
}


/// What reading a text as a number gives, as a field holds it: for a text,
/// the number it reads as (`null` where it is not finite), nothing where it
/// reads as no number; nothing for any other value.
pub open spec fn number_reading_of(value: JsonView) -> Option<JsonView> {
    match value {
        JsonView::String(s) => match float_reading(s) {
            Some(Some(t)) => Some(JsonView::Number(NumberView::Float(t))),
            Some(None) => Some(JsonView::Null),
            None => None,
        },
        _ => None,
    }
}

/// Convert a front matter value to JSON.
#[verifier::loop_isolation(false)]
pub fn pod_to_json(v: &MatterValue) -> (j: JsonValue)
    ensures
        j@ == pod_json(*v),
        matter_wf(*v) ==> json_keys_once(j@),
    decreases v,
{
    match v {
        MatterValue::Null => JsonValue::Null,
        MatterValue::String(s) => JsonValue::String(s.clone()),
        MatterValue::Integer(i) => {
            if *i >= 0 {
                JsonValue::Number(JsonNumber::PosInt(*i as u64))
            } else {
                JsonValue::Number(JsonNumber::NegInt(*i))
            }
        },
        MatterValue::Float(t) => match t {
            Some(text) => JsonValue::Number(JsonNumber::Float(text.clone())),
            None => JsonValue::Null,
        },
        MatterValue::Boolean(b) => JsonValue::Bool(*b),
        MatterValue::Array(items) => {
            let mut out: Vec<JsonValue> = Vec::new();
            let mut i: usize = 0;
            while i < items.len()
                invariant
                    0 <= i <= items.len(),
                    out.len() == i,
                    forall|j: int| 0 <= j < i ==> (#[trigger] out@[j])@ == pod_json(items@[j]),
                    matter_wf(*v) ==> forall|j: int| 0 <= j < i ==> json_keys_once(#[trigger] out@[j]@),
                decreases items.len() - i,
            {
                assert(decreases_to!(*v => v->Array_0));
                assert(decreases_to!(v->Array_0 => v->Array_0@));
                assert(decreases_to!(v->Array_0@ => v->Array_0@[i as int]));
                let item = pod_to_json(&items[i]);
                out.push(item);
                i = i + 1;
            }
            let r = JsonValue::Array(out);
            assert(json_view(r)->Array_0 =~= pod_json(*v)->Array_0);
            proof {
                if matter_wf(*v) {
                    assert forall|j: int| 0 <= j < json_view(r)->Array_0.len()
                        implies json_keys_once(#[trigger] json_view(r)->Array_0[j]) by {
                        assert(json_view(r)->Array_0[j] == out@[j]@);
                    }
                }
            }
            r
        },
        MatterValue::Hash(pairs) => {
            let mut out: Vec<(String, JsonValue)> = Vec::new();
            let mut i: usize = 0;
            while i < pairs.len()
                invariant
                    0 <= i <= pairs.len(),
                    out.len() == i,
                    forall|j: int| 0 <= j < i ==> (#[trigger] out@[j]).0@ == pairs@[j].0@ && out@[j].1@ == pod_json(pairs@[j].1),
                    matter_wf(*v) ==> forall|j: int| 0 <= j < i ==> json_keys_once(#[trigger] out@[j].1@),
                decreases pairs.len() - i,
            {
                assert(decreases_to!(*v => v->Hash_0));
                assert(decreases_to!(v->Hash_0 => v->Hash_0@));
                assert(decreases_to!(v->Hash_0@ => v->Hash_0@[i as int]));
                assert(decreases_to!(v->Hash_0@[i as int] => v->Hash_0@[i as int].1));
                let value = pod_to_json(&pairs[i].1);
                out.push((pairs[i].0.clone(), value));
                i = i + 1;
            }
            let r = JsonValue::Object(out);
            assert(json_view(r)->Object_0 =~= pod_json(*v)->Object_0);
            proof {
                if matter_wf(*v) {
                    let ms = json_view(r)->Object_0;
                    assert forall|a: int, b: int| 0 <= a < b < ms.len() implies (#[trigger] ms[a]).0 != (#[trigger] ms[b]).0 by {
                        assert(ms[a].0 == pairs@[a].0@);
                        assert(ms[b].0 == pairs@[b].0@);
                        assert(keys_once(pairs@));
                    }
                    assert forall|j: int| 0 <= j < ms.len() implies json_keys_once(#[trigger] ms[j].1) by {
                        assert(ms[j].1 == out@[j].1@);
                    }
                }
            }
            r
        },
    }
}

/// The field a front matter entry becomes: its key, its value as JSON, and
/// for a text what it reads as as a number.
fn field_of(key: &String, value: &MatterValue) -> (f: FrontmatterField)
    requires
        matter_wf(*value),
    ensures
        json_keys_once(json_view(f.value)),
        f.key@ == key@,
        json_view(f.value) == pod_json(*value),
        reading_view(f.number_reading) == number_reading_of(pod_json(*value)),
{
    let json = pod_to_json(value);
    let number_reading = match value {
        MatterValue::String(s) => match float_text(s.as_str()) {
            Some(Some(t)) => Some(JsonValue::Number(JsonNumber::Float(t))),
            Some(None) => Some(JsonValue::Null),
            None => None,
        },
        _ => None,
    };
    FrontmatterField { key: key.clone(), value: json, number_reading }
}

/// Parse frontmatter from markdown content.
/// Returns (frontmatter fields, markdown body): one field for each entry of
/// the hash the front matter holds, each key once, in no fixed order, and
/// none where the text has no front matter or it holds no hash.
pub fn parse_frontmatter(content: &str) -> (r: (Vec<FrontmatterField>, String))
    ensures
        r.1@ == matter_body(content@),
        forall|i: int| 0 <= i < r.0@.len() ==> front_matter(content@).dom().contains(#[trigger] r.0@[i].key@),
        forall|k: Seq<char>| #[trigger] front_matter(content@).dom().contains(k)
            ==> exists|i: int| 0 <= i < r.0@.len() && r.0@[i].key@ == k,
        forall|i: int, j: int| 0 <= i < j < r.0@.len() ==> (#[trigger] r.0@[i]).key@ != (#[trigger] r.0@[j]).key@,
        forall|i: int| 0 <= i < r.0@.len() ==> exists|v: MatterValue| matter_wf(v)
            && #[trigger] matter_view(v) == front_matter(content@)[(#[trigger] r.0@[i]).key@]
            && json_view(r.0@[i].value) == pod_json(v),
        forall|i: int| 0 <= i < r.0@.len() ==> reading_view((#[trigger] r.0@[i]).number_reading)
            == number_reading_of(json_view(r.0@[i].value)),
        forall|i: int| 0 <= i < r.0@.len() ==> json_keys_once(json_view((#[trigger] r.0@[i]).value)),
{
    let (data, body) = matter_parse(content);
    let mut fields: Vec<FrontmatterField> = Vec::new();
    match data {
        Some(pod) => {
            let v = matter_value_of(&pod);
            match &v {
                MatterValue::Hash(pairs) => {
                    let ghost m = front_matter(content@);
                    assert(m == matter_view(v)->Hash_0);
                    let mut i: usize = 0;
                    while i < pairs.len()
                        invariant
                            0 <= i <= pairs.len(),
                            fields.len() == i,
                            forall|j: int| 0 <= j < i ==> (#[trigger] fields@[j]).key@ == pairs@[j].0@
                                && json_view(fields@[j].value) == pod_json(pairs@[j].1)
                                && reading_view(fields@[j].number_reading) == number_reading_of(json_view(fields@[j].value))
                                && json_keys_once(json_view(fields@[j].value)),
                            matter_wf(v),
                            v == MatterValue::Hash(*pairs),
                        decreases pairs.len() - i,
                    {
                        assert(matter_wf(pairs@[i as int].1));
                        let f = field_of(&pairs[i].0, &pairs[i].1);
                        fields.push(f);
                        i = i + 1;
                    }
                    proof {
                        assert(keys_once(pairs@));
                        assert forall|i: int| 0 <= i < fields@.len() implies m.dom().contains(#[trigger] fields@[i].key@) by {
                            assert(pairs@[i].0@ == fields@[i].key@);
                        }
                        assert forall|k: Seq<char>| #[trigger] m.dom().contains(k)
                            implies exists|i: int| 0 <= i < fields@.len() && fields@[i].key@ == k by {
                            let i = choose|i: int| 0 <= i < pairs@.len() && pairs@[i].0@ == k;
                            assert(fields@[i].key@ == k);
                        }
                        assert forall|a: int, b: int| 0 <= a < b < fields@.len()
                            implies (#[trigger] fields@[a]).key@ != (#[trigger] fields@[b]).key@ by {
                            assert(pairs@[a].0@ != pairs@[b].0@);
                        }
                        assert forall|i: int| 0 <= i < fields@.len() implies exists|w: MatterValue| matter_wf(w)
                            && #[trigger] matter_view(w) == m[(#[trigger] fields@[i]).key@]
                            && json_view(fields@[i].value) == pod_json(w) by {
                            let k = fields@[i].key@;
                            assert(pairs@[i].0@ == k);
                            let c = choose|c: int| 0 <= c < pairs@.len() && pairs@[c].0@ == k;
                            assert(c == i) by {
                                if c < i {
                                    assert(pairs@[c].0@ != pairs@[i].0@);
                                } else if c > i {
                                    assert(pairs@[i].0@ != pairs@[c].0@);
                                }
                            }
                            assert(matter_wf(pairs@[i].1));
                            assert(matter_view(pairs@[i].1) == m[k]);
                        }
                    }
                },
                _ => {
                    assert(front_matter(content@) == Map::<Seq<char>, MatterView>::empty());
                },
            }
        },
        None => {},
    }
    (fields, body)
}

/// A front matter value that is a boolean, a text, an integer, a finite
/// number or nothing becomes the JSON value holding just that: the same
/// boolean (`false` as well as `true`), the same text, a number with the
/// same integer value, a number with the same decimal text, or `null`; a
/// number that is not finite becomes `null`.
pub proof fn law_scalars_keep_their_value(v: MatterValue)
    ensures
        matter_view(v) matches MatterView::Boolean(b) ==> pod_json(v) == JsonView::Bool(b),
        matter_view(v) matches MatterView::String(s) ==> pod_json(v) == JsonView::String(s),
        matter_view(v) matches MatterView::Integer(i) ==> match pod_json(v) {
            JsonView::Number(NumberView::PosInt(u)) => u as int == i as int,
            JsonView::Number(NumberView::NegInt(k)) => k as int == i as int && k < 0,
            _ => false,
        },
        matter_view(v) matches MatterView::Float(Some(t)) ==> pod_json(v) == JsonView::Number(NumberView::Float(t)),
        matter_view(v) matches MatterView::Float(None) ==> pod_json(v) == JsonView::Null,
        matter_view(v) is Null ==> pod_json(v) == JsonView::Null,
{
}

} // verus!
