//! The `anytype import markdown` command: a markdown file becomes an object,
//! its front matter the object's properties.
use vstd::prelude::*;
use super::{Cell, LabeledError, Record, record_view, CellView};
use crate::api::{CreateObjectRequest, Object, TypeProperty, UpdateObjectRequest};
use crate::cache::resolver::is_first;
use crate::json::{json_debug, json_view, number_as_i64, number_text, JsonValue, JsonView, NumberView};
use crate::text::{ascii_folded, eq_ignore_ascii_case, is_ascii_text, lowercase, opt_view, owned, same_text, to_lowercase, trim, trimmed};
use crate::value::AnytypeValue;

verus! {

broadcast use vstd::string::group_string_axioms;

/// Command: anytype import markdown
pub struct ImportMarkdown;

/// A field of the front matter of a markdown file.
///
/// `number_reading` is, for a field whose value is a text, the JSON value
/// that reading the text as a floating-point number gives (`null` where the
/// number is not finite), or `None` where the text reads as no number; see
/// `matter::parse_frontmatter`, which reads it.
#[derive(Debug, PartialEq)]
pub struct FrontmatterField {
    pub key: String,
    pub value: JsonValue,
    pub number_reading: Option<JsonValue>,
}

/// How a value is converted for a property, by the (lower-case) name of the
/// property's format.
#[derive(Debug, Clone, Copy, PartialEq, Eq, Structural)]
pub enum ValueFormat {
    /// `text`, `url`, `email` and `phone`.
    Text,
    Number,
    Checkbox,
    Date,
    Select,
    /// `multiselect` and `multi_select`.
    MultiSelect,
    /// `files`, `objects` and every format not named above.
    PassThrough,
}

/// The conversion a lower-case format name calls for.
pub open spec fn value_format_of(lower: Seq<char>) -> ValueFormat {
    if lower == "text"@ || lower == "url"@ || lower == "email"@ || lower == "phone"@ {
        ValueFormat::Text
    } else if lower == "number"@ {
        ValueFormat::Number
    } else if lower == "checkbox"@ {
        ValueFormat::Checkbox
    } else if lower == "date"@ {
        ValueFormat::Date
    } else if lower == "select"@ {
        ValueFormat::Select
    } else if lower == "multiselect"@ || lower == "multi_select"@ {
        ValueFormat::MultiSelect
    } else {
        ValueFormat::PassThrough
    }
}

/// The conversion the format of a property calls for; its name is read
/// without regard to case.
pub fn value_format(format: &str) -> (f: ValueFormat)
    ensures
        f == value_format_of(lowercase(format@)),
        is_ascii_text(format@) ==> f == value_format_of(ascii_folded(format@)),
{
    let lower = to_lowercase(format);
    let l = lower.as_str();
    if same_text(l, "text") || same_text(l, "url") || same_text(l, "email") || same_text(l, "phone") {
        ValueFormat::Text
    } else if same_text(l, "number") {
        ValueFormat::Number
    } else if same_text(l, "checkbox") {
        ValueFormat::Checkbox
    } else if same_text(l, "date") {
        ValueFormat::Date
    } else if same_text(l, "select") {
        ValueFormat::Select
    } else if same_text(l, "multiselect") || same_text(l, "multi_select") {
        ValueFormat::MultiSelect
    } else {
        ValueFormat::PassThrough
    }
}

/// Why a value could not be converted for a property.
#[derive(Debug, Clone, PartialEq)]
pub enum ConvertError {
    /// Only texts, numbers and booleans convert to a text format.
    TextFormat,
    /// The text reads as no number.
    NumberText(String),
    /// Only numbers and texts convert to a number.
    NumberFormat,
    /// The text reads as no boolean.
    BooleanText(String),
    /// A number that is no `i64` does not convert to a boolean.
    NumberToBoolean,
    /// Only booleans, texts and numbers convert to a checkbox.
    CheckboxFormat,
    /// A date must be a string in ISO format.
    DateNotString,
    /// A select must be a string value.
    SelectNotString,
    /// A multi-select array must contain only strings.
    MultiSelectItems,
    /// A multi-select must be an array of strings.
    MultiSelectNotArray,
}

/// The plain value of a conversion failure.
pub enum ConvertFailure {
    TextFormat,
    NumberText(Seq<char>),
    NumberFormat,
    BooleanText(Seq<char>),
    NumberToBoolean,
    CheckboxFormat,
    DateNotString,
    SelectNotString,
    MultiSelectItems,
    MultiSelectNotArray,
}

impl View for ConvertError {
    type V = ConvertFailure;

    open spec fn view(&self) -> ConvertFailure {
        match *self {
            ConvertError::TextFormat => ConvertFailure::TextFormat,
            ConvertError::NumberText(s) => ConvertFailure::NumberText(s@),
            ConvertError::NumberFormat => ConvertFailure::NumberFormat,
            ConvertError::BooleanText(s) => ConvertFailure::BooleanText(s@),
            ConvertError::NumberToBoolean => ConvertFailure::NumberToBoolean,
            ConvertError::CheckboxFormat => ConvertFailure::CheckboxFormat,
            ConvertError::DateNotString => ConvertFailure::DateNotString,
            ConvertError::SelectNotString => ConvertFailure::SelectNotString,
            ConvertError::MultiSelectItems => ConvertFailure::MultiSelectItems,
            ConvertError::MultiSelectNotArray => ConvertFailure::MultiSelectNotArray,
        }
    }
}


/// What a conversion failure says of the value `value` that failed.
pub open spec fn failure_text(e: ConvertFailure, value: JsonView) -> Seq<char> {
    match e {
        ConvertFailure::TextFormat => "Cannot convert "@ + json_debug(value) + " to text format"@,
        ConvertFailure::NumberText(s) => "Cannot parse '"@ + s + "' as number"@,
        ConvertFailure::NumberFormat => "Cannot convert "@ + json_debug(value) + " to number format"@,
        ConvertFailure::BooleanText(s) => "Cannot parse '"@ + s + "' as boolean"@,
        ConvertFailure::NumberToBoolean => "Cannot convert number to boolean"@,
        ConvertFailure::CheckboxFormat => "Cannot convert "@ + json_debug(value) + " to checkbox format"@,
        ConvertFailure::DateNotString => "Date must be a string in ISO format"@,
        ConvertFailure::SelectNotString => "Select must be a string value"@,
        ConvertFailure::MultiSelectItems => "MultiSelect array must contain only strings"@,
        ConvertFailure::MultiSelectNotArray => "MultiSelect must be an array of strings"@,
    }
}

impl ConvertError {
    /// The message of the failure to convert `value`: what was refused, with
    /// the value in its `Debug` form where the format refuses its kind.
    pub fn message(&self, value: &JsonValue) -> (m: String)
        ensures
            m@ == failure_text(self@, value@),
    {
        match self {
            ConvertError::TextFormat => {
                let d = value.debug_text();
                crate::text::concat3("Cannot convert ", d.as_str(), " to text format")
            },
            ConvertError::NumberText(s) => crate::text::concat3("Cannot parse '", s.as_str(), "' as number"),
            ConvertError::NumberFormat => {
                let d = value.debug_text();
                crate::text::concat3("Cannot convert ", d.as_str(), " to number format")
            },
            ConvertError::BooleanText(s) => crate::text::concat3("Cannot parse '", s.as_str(), "' as boolean"),
            ConvertError::NumberToBoolean => owned("Cannot convert number to boolean"),
            ConvertError::CheckboxFormat => {
                let d = value.debug_text();
                crate::text::concat3("Cannot convert ", d.as_str(), " to checkbox format")
            },
            ConvertError::DateNotString => owned("Date must be a string in ISO format"),
            ConvertError::SelectNotString => owned("Select must be a string value"),
            ConvertError::MultiSelectItems => owned("MultiSelect array must contain only strings"),
            ConvertError::MultiSelectNotArray => owned("MultiSelect must be an array of strings"),
        }
    }
}

/// The plain value of an optional JSON value.
pub open spec fn reading_view(o: Option<JsonValue>) -> Option<JsonView> {
    match o {
        Some(v) => Some(json_view(v)),
        None => None,
    }
}

/// Whether every item of an array is a string.
pub open spec fn all_strings(items: Seq<JsonView>) -> bool {
    forall|i: int| 0 <= i < items.len() ==> (#[trigger] items[i]) is String
}

/// The boolean a text stands for, read without regard to case.
pub open spec fn boolean_of(lower: Seq<char>) -> Option<bool> {
    if lower == "true"@ || lower == "yes"@ || lower == "1"@ {
        Some(true)
    } else if lower == "false"@ || lower == "no"@ || lower == "0"@ {
        Some(false)
    } else {
        None
    }
}

/// What a front matter value becomes for a property of the given format;
/// `reading` is what the value's text reads as as a number.  A text converts
/// to a number only where it reads as a JSON number: one that reads as no
/// number, or as a value that JSON cannot hold as a number (NaN, infinity),
/// is refused.
pub open spec fn conversion(value: JsonView, format: ValueFormat, reading: Option<JsonView>) -> Result<JsonView, ConvertFailure> {
    match format {
        ValueFormat::Text => match value {
            JsonView::String(s) => Ok(JsonView::String(s)),
            JsonView::Number(n) => Ok(JsonView::String(number_text(n))),
            JsonView::Bool(b) => Ok(JsonView::String(if b { "true"@ } else { "false"@ })),
            _ => Err(ConvertFailure::TextFormat),
        },
        ValueFormat::Number => match value {
            JsonView::Number(n) => Ok(JsonView::Number(n)),
            JsonView::String(s) => match reading {
                Some(JsonView::Number(n)) => Ok(JsonView::Number(n)),
                _ => Err(ConvertFailure::NumberText(s)),
            },
            _ => Err(ConvertFailure::NumberFormat),
        },
        ValueFormat::Checkbox => match value {
            JsonView::Bool(b) => Ok(JsonView::Bool(b)),
            JsonView::String(s) => match boolean_of(lowercase(s)) {
                Some(b) => Ok(JsonView::Bool(b)),
                None => Err(ConvertFailure::BooleanText(s)),
            },
            JsonView::Number(n) => match number_as_i64(n) {
                Some(i) => Ok(JsonView::Bool(i != 0)),
                None => Err(ConvertFailure::NumberToBoolean),
            },
            _ => Err(ConvertFailure::CheckboxFormat),
        },
        ValueFormat::Date => match value {
            JsonView::String(s) => Ok(JsonView::String(s)),
            _ => Err(ConvertFailure::DateNotString),
        },
        ValueFormat::Select => match value {
            JsonView::String(s) => Ok(JsonView::String(s)),
            _ => Err(ConvertFailure::SelectNotString),
        },
        ValueFormat::MultiSelect => match value {
            JsonView::Array(items) => if all_strings(items) {
                Ok(JsonView::Array(items))
            } else {
                Err(ConvertFailure::MultiSelectItems)
            },
            JsonView::String(s) => Ok(JsonView::Array(seq![JsonView::String(s)])),
            _ => Err(ConvertFailure::MultiSelectNotArray),
        },
        ValueFormat::PassThrough => Ok(value),
    }
}

/// Whether a conversion outcome is the one the specification gives.
pub open spec fn converts_as(r: Result<JsonValue, ConvertError>, expected: Result<JsonView, ConvertFailure>) -> bool {
    match r {
        Ok(v) => expected == Ok::<JsonView, ConvertFailure>(v@),
        Err(e) => expected == Err::<JsonView, ConvertFailure>(e@),
    }
}

/// A format name is read without regard to ASCII case: an ASCII format name
/// and its lower-case form are both ASCII and convert every value alike.
pub proof fn law_format_case_ignored(value: JsonView, format: Seq<char>, reading: Option<JsonView>)
    requires
        is_ascii_text(format),
    ensures
        is_ascii_text(ascii_folded(format)),
        conversion(value, value_format_of(ascii_folded(ascii_folded(format))), reading)
            == conversion(value, value_format_of(ascii_folded(format)), reading),
{
    crate::text::lemma_ascii_fold_idempotent(format);
}

/// Convert a JSON value to match the expected property format (string-based).
#[verifier::loop_isolation(false)]
pub fn convert_value_to_format_str(
    value: &JsonValue,
    format: &str,
    number_reading: &Option<JsonValue>,
) -> (r: Result<JsonValue, ConvertError>)
    ensures
        converts_as(r, conversion(value@, value_format_of(lowercase(format@)), reading_view(*number_reading))),
        is_ascii_text(format@) ==> converts_as(r, conversion(value@, value_format_of(ascii_folded(format@)), reading_view(*number_reading))),
{
    match value_format(format) {
        ValueFormat::Text => match value {
            JsonValue::String(s) => Ok(JsonValue::String(s.clone())),
            JsonValue::Number(n) => Ok(JsonValue::String(n.to_text())),
            JsonValue::Bool(b) => Ok(JsonValue::String(if *b { owned("true") } else { owned("false") })),
            _ => Err(ConvertError::TextFormat),
        },
        ValueFormat::Number => match value {
            JsonValue::Number(n) => Ok(JsonValue::Number(n.duplicate())),
            JsonValue::String(s) => match number_reading {
                Some(JsonValue::Number(n)) => Ok(JsonValue::Number(n.duplicate())),
                _ => Err(ConvertError::NumberText(s.clone())),
            },
            _ => Err(ConvertError::NumberFormat),
        },
        ValueFormat::Checkbox => match value {
            JsonValue::Bool(b) => Ok(JsonValue::Bool(*b)),
            JsonValue::String(s) => {
                let lower = to_lowercase(s.as_str());
                let l = lower.as_str();
                if same_text(l, "true") || same_text(l, "yes") || same_text(l, "1") {
                    Ok(JsonValue::Bool(true))
                } else if same_text(l, "false") || same_text(l, "no") || same_text(l, "0") {
                    Ok(JsonValue::Bool(false))
                } else {
                    Err(ConvertError::BooleanText(s.clone()))
                }
            },
            JsonValue::Number(n) => match n.as_i64() {
                Some(i) => Ok(JsonValue::Bool(i != 0)),
                None => Err(ConvertError::NumberToBoolean),
            },
            _ => Err(ConvertError::CheckboxFormat),
        },
        ValueFormat::Date => match value {
            JsonValue::String(s) => Ok(JsonValue::String(s.clone())),
            _ => Err(ConvertError::DateNotString),
        },
        ValueFormat::Select => match value {
            JsonValue::String(s) => Ok(JsonValue::String(s.clone())),
            _ => Err(ConvertError::SelectNotString),
        },
        ValueFormat::MultiSelect => match value {
            JsonValue::Array(items) => {
                let ghost views = json_view(*value)->Array_0;
                let mut i: usize = 0;
                while i < items.len()
                    invariant
                        0 <= i <= items.len(),
                        views == json_view(*value)->Array_0,
                        json_view(*value) is Array,
                        views.len() == items@.len(),
                        forall|j: int| 0 <= j < items@.len() ==> views[j] == json_view(#[trigger] items@[j]),
                        forall|j: int| 0 <= j < i ==> (#[trigger] views[j]) is String,
                    decreases items.len() - i,
                {
                    match &items[i] {
                        JsonValue::String(_) => {},
                        _ => {
                            assert(!((views[i as int]) is String));
                            assert(!all_strings(views));
                            assert(value@ == JsonView::Array(views));
                            return Err(ConvertError::MultiSelectItems);
                        },
                    }
                    i = i + 1;
                }
                Ok(value.duplicate())
            },
            JsonValue::String(s) => {
                let mut items: Vec<JsonValue> = Vec::new();
                items.push(JsonValue::String(s.clone()));
                let r = JsonValue::Array(items);
                assert(json_view(r)->Array_0 =~= seq![JsonView::String(s@)]);
                Ok(r)
            },
            _ => Err(ConvertError::MultiSelectNotArray),
        },
        ValueFormat::PassThrough => Ok(value.duplicate()),
    }
}

/// Whether a property has the key `key`, compared without regard to ASCII case.
pub open spec fn prop_keyed(key: Seq<char>) -> spec_fn(TypeProperty) -> bool {
    |p: TypeProperty| ascii_folded(p.key@) == ascii_folded(key)
}

/// The first property of a type whose key is `key`, compared without regard
/// to ASCII case.
pub open spec fn property_for(props: Seq<TypeProperty>, key: Seq<char>) -> Option<TypeProperty> {
    if exists|i: int| is_first(props, i, prop_keyed(key)) {
        Some(props[choose|i: int| is_first(props, i, prop_keyed(key))])
    } else {
        None
    }
}

/// The plain value of the members of a JSON object.
pub open spec fn members_view(m: Seq<(String, JsonValue)>) -> Seq<(Seq<char>, JsonView)> {
    Seq::new(m.len(), |i: int| if 0 <= i < m.len() { (m[i].0@, json_view(m[i].1)) } else { (Seq::empty(), JsonView::Null) })
}

/// Whether no key occurs twice among the members of an object.
pub open spec fn keys_distinct(m: Seq<(Seq<char>, JsonView)>) -> bool {
    forall|i: int, j: int| 0 <= i < j < m.len() ==> (#[trigger] m[i]).0 != (#[trigger] m[j]).0
}

/// The members of an object once `k` holds `v`: the member with that key
/// takes the value in place, or a new member is appended.
pub open spec fn upsert(m: Seq<(Seq<char>, JsonView)>, k: Seq<char>, v: JsonView) -> Seq<(Seq<char>, JsonView)> {
    if exists|i: int| 0 <= i < m.len() && m[i].0 == k {
        m.update(choose|i: int| 0 <= i < m.len() && m[i].0 == k, (k, v))
    } else {
        m.push((k, v))
    }
}

/// The properties and the unmapped field names that the front matter
/// fields give for a type with the properties `props`: `title` (in any
/// ASCII case) is skipped, since it names the object; a field whose key
/// names a property (in any ASCII case) and whose value converts for it sets
/// that property; any other field is unmapped.
pub open spec fn mapping(fields: Seq<FrontmatterField>, props: Seq<TypeProperty>) -> (Seq<(Seq<char>, JsonView)>, Seq<Seq<char>>)
    decreases fields.len(),
{
    if fields.len() == 0 {
        (Seq::empty(), Seq::empty())
    } else {
        let prev = mapping(fields.drop_last(), props);
        let f = fields.last();
        if ascii_folded(f.key@) == ascii_folded("title"@) {
            prev
        } else {
            match property_for(props, f.key@) {
                Some(p) => match conversion(json_view(f.value), value_format_of(lowercase(p.format@)), reading_view(f.number_reading)) {
                    Ok(c) => (upsert(prev.0, p.key@, c), prev.1),
                    Err(_) => (prev.0, prev.1.push(f.key@)),
                },
                None => (prev.0, prev.1.push(f.key@)),
            }
        }
    }
}

/// The first index satisfying a predicate is the only such first index.
pub(crate) proof fn lemma_first_unique<T>(s: Seq<T>, i: int, p: spec_fn(T) -> bool)
    requires
        is_first(s, i, p),
    ensures
        forall|j: int| is_first(s, j, p) ==> j == i,
{
    assert forall|j: int| is_first(s, j, p) implies j == i by {
        if j < i {
            assert(p(s[j]));
        } else if i < j {
            assert(p(s[i]));
        }
    }
}

/// The first property of a type whose key is `key`, without regard to ASCII case.
fn find_property(props: &Vec<TypeProperty>, key: &str) -> (r: Option<usize>)
    ensures
        match r {
            Some(i) => i < props@.len() && property_for(props@, key@) == Some(props@[i as int]),
            None => property_for(props@, key@) is None,
        },
{
    let mut i: usize = 0;
    while i < props.len()
        invariant
            0 <= i <= props@.len(),
            forall|j: int| 0 <= j < i ==> !prop_keyed(key@)(#[trigger] props@[j]),
        decreases props.len() - i,
    {
        if eq_ignore_ascii_case(props[i].key.as_str(), key) {
            proof {
                assert(is_first(props@, i as int, prop_keyed(key@)));
                lemma_first_unique(props@, i as int, prop_keyed(key@));
            }
            return Some(i);
        }
        i = i + 1;
    }
    proof {
        assert forall|j: int| !is_first(props@, j, prop_keyed(key@)) by {
            if 0 <= j < props@.len() {
                assert(!prop_keyed(key@)(props@[j]));
            }
        }
    }
    None
}

/// Sets the member `key` of an object to `value`, in place where the key is
/// there, appended where it is not.
fn upsert_member(members: &mut Vec<(String, JsonValue)>, key: String, value: JsonValue)
    requires
        keys_distinct(members_view(old(members)@)),
    ensures
        members_view(final(members)@) == upsert(members_view(old(members)@), key@, value@),
        keys_distinct(members_view(final(members)@)),
{
    let ghost before = members_view(members@);
    let mut i: usize = 0;
    while i < members.len()
        invariant
            0 <= i <= members@.len(),
            members@ == old(members)@,
            before == members_view(members@),
            keys_distinct(before),
            forall|j: int| 0 <= j < i ==> (#[trigger] before[j]).0 != key@,
        decreases members.len() - i,
    {
        if same_text(members[i].0.as_str(), key.as_str()) {
            proof {
                assert(before[i as int].0 == key@);
                let c = choose|j: int| 0 <= j < before.len() && before[j].0 == key@;
                assert(c == i) by {
                    if c < i {
                    } else if c > i {
                        assert(before[i as int].0 != before[c].0);
                    }
                }
            }
            members.set(i, (key, value));
            proof {
                assert(members_view(members@) =~= before.update(i as int, (key@, value@)));
                assert(keys_distinct(members_view(members@))) by {
                    let after = members_view(members@);
                    assert forall|a: int, b: int| 0 <= a < b < after.len() implies (#[trigger] after[a]).0 != (#[trigger] after[b]).0 by {
                        if a != i && b != i {
                            assert(before[a].0 != before[b].0);
                        } else if a == i {
                            assert(before[a].0 != before[b].0);
                        } else {
                            assert(before[a].0 != before[b].0);
                        }
                    }
                }
            }
            return;
        }
        i = i + 1;
    }
    members.push((key, value));
    proof {
        assert(!(exists|j: int| 0 <= j < before.len() && before[j].0 == key@));
        assert(members_view(members@) =~= before.push((key@, value@)));
        let after = members_view(members@);
        assert forall|a: int, b: int| 0 <= a < b < after.len() implies (#[trigger] after[a]).0 != (#[trigger] after[b]).0 by {
            if b == before.len() {
                assert(before[a].0 != key@);
            } else {
                assert(before[a].0 != before[b].0);
            }
        }
    }
}

/// Map frontmatter fields to type properties.
/// Returns (properties_json, unmapped_fields)
pub fn map_frontmatter_to_properties(
    frontmatter: &Vec<FrontmatterField>,
    type_properties: &Vec<TypeProperty>,
) -> (r: (JsonValue, Vec<String>))
    ensures
        r.0@ == JsonView::Object(mapping(frontmatter@, type_properties@).0),
        crate::text::views(r.1@) == mapping(frontmatter@, type_properties@).1,
{
    let mut members: Vec<(String, JsonValue)> = Vec::new();
    let mut unmapped: Vec<String> = Vec::new();
    let mut i: usize = 0;
    while i < frontmatter.len()
        invariant
            0 <= i <= frontmatter@.len(),
            members_view(members@) == mapping(frontmatter@.take(i as int), type_properties@).0,
            crate::text::views(unmapped@) == mapping(frontmatter@.take(i as int), type_properties@).1,
            keys_distinct(members_view(members@)),
        decreases frontmatter.len() - i,
    {
        let field = &frontmatter[i];
        proof {
            assert(frontmatter@.take(i + 1).drop_last() =~= frontmatter@.take(i as int));
            assert(frontmatter@.take(i + 1).last() == frontmatter@[i as int]);
            reveal_strlit("title");
        }
        if eq_ignore_ascii_case(field.key.as_str(), "title") {
        } else {
            match find_property(type_properties, field.key.as_str()) {
                Some(j) => {
                    let prop = &type_properties[j];
                    match convert_value_to_format_str(&field.value, prop.format.as_str(), &field.number_reading) {
                        Ok(converted) => {
                            upsert_member(&mut members, prop.key.clone(), converted);
                        },
                        Err(_) => {
                            unmapped.push(field.key.clone());
                        },
                    }
                },
                None => {
                    unmapped.push(field.key.clone());
                },
            }
        }
        proof {
            assert(crate::text::views(unmapped@) =~= mapping(frontmatter@.take(i + 1), type_properties@).1);
        }
        i = i + 1;
    }
    proof {
        assert(frontmatter@.take(frontmatter@.len() as int) =~= frontmatter@);
    }
    let r = JsonValue::Object(members);
    assert(json_view(r)->Object_0 =~= members_view(members@));
    (r, unmapped)
}


/// Whether an object's members hold the key `k`.
pub open spec fn has_key(m: Seq<(Seq<char>, JsonView)>, k: Seq<char>) -> bool {
    exists|j: int| 0 <= j < m.len() && m[j].0 == k
}

/// Setting a member keeps every key and adds its own.
proof fn lemma_upsert_keys(m: Seq<(Seq<char>, JsonView)>, k: Seq<char>, v: JsonView)
    ensures
        has_key(upsert(m, k, v), k),
        forall|k2: Seq<char>| has_key(m, k2) ==> has_key(upsert(m, k, v), k2),
{
    let u = upsert(m, k, v);
    if exists|i: int| 0 <= i < m.len() && m[i].0 == k {
        let c = choose|i: int| 0 <= i < m.len() && m[i].0 == k;
        assert(u[c].0 == k);
        assert forall|k2: Seq<char>| has_key(m, k2) implies has_key(u, k2) by {
            let j = choose|j: int| 0 <= j < m.len() && m[j].0 == k2;
            if j == c {
                assert(u[c].0 == k2);
            } else {
                assert(u[j].0 == k2);
            }
        }
    } else {
        assert(u[m.len() as int].0 == k);
        assert forall|k2: Seq<char>| has_key(m, k2) implies has_key(u, k2) by {
            let j = choose|j: int| 0 <= j < m.len() && m[j].0 == k2;
            assert(u[j].0 == k2);
        }
    }
}

/// Every front matter field lands in one place: the title names the object
/// and is never reported unmapped; any other field sets the property its
/// key names (that property's key is then among the properties), or it is
/// reported unmapped; and only the keys of such fields are reported.
pub proof fn law_front_matter_fields_accounted(fields: Seq<FrontmatterField>, props: Seq<TypeProperty>)
    ensures
        forall|i: int| 0 <= i < fields.len() && ascii_folded((#[trigger] fields[i]).key@) != ascii_folded("title"@)
            ==> mapping(fields, props).1.contains(fields[i].key@) || (property_for(props, fields[i].key@) matches Some(p)
                && has_key(mapping(fields, props).0, p.key@)),
        forall|j: int| 0 <= j < mapping(fields, props).1.len() ==> exists|i: int| 0 <= i < fields.len()
            && fields[i].key@ == #[trigger] mapping(fields, props).1[j]
            && ascii_folded(fields[i].key@) != ascii_folded("title"@),
    decreases fields.len(),
{
    if fields.len() > 0 {
        let rest = fields.drop_last();
        law_front_matter_fields_accounted(rest, props);
        let prev = mapping(rest, props);
        let cur = mapping(fields, props);
        let f = fields.last();
        let n = fields.len() - 1;
        assert(f == fields[n]);
        assert forall|k: Seq<char>| prev.1.contains(k) implies cur.1.contains(k) by {
            let j = choose|j: int| 0 <= j < prev.1.len() && prev.1[j] == k;
            assert(cur.1[j] == k);
        }
        assert forall|k: Seq<char>| has_key(prev.0, k) implies has_key(cur.0, k) by {
            if ascii_folded(f.key@) != ascii_folded("title"@) {
                match property_for(props, f.key@) {
                    Some(p) => match conversion(json_view(f.value), value_format_of(lowercase(p.format@)), reading_view(f.number_reading)) {
                        Ok(c) => {
                            lemma_upsert_keys(prev.0, p.key@, c);
                        },
                        Err(_) => {},
                    },
                    None => {},
                }
            }
        }
        assert forall|i: int| 0 <= i < fields.len() && ascii_folded((#[trigger] fields[i]).key@) != ascii_folded("title"@)
            implies cur.1.contains(fields[i].key@) || (property_for(props, fields[i].key@) matches Some(p)
                && has_key(cur.0, p.key@)) by {
            if i < n {
                assert(rest[i] == fields[i]);
            } else {
                match property_for(props, f.key@) {
                    Some(p) => match conversion(json_view(f.value), value_format_of(lowercase(p.format@)), reading_view(f.number_reading)) {
                        Ok(c) => {
                            lemma_upsert_keys(prev.0, p.key@, c);
                        },
                        Err(_) => {
                            assert(cur.1[cur.1.len() - 1] == f.key@);
                        },
                    },
                    None => {
                        assert(cur.1[cur.1.len() - 1] == f.key@);
                    },
                }
            }
        }
        assert forall|j: int| 0 <= j < cur.1.len() implies exists|i: int| 0 <= i < fields.len()
            && fields[i].key@ == #[trigger] cur.1[j] && ascii_folded(fields[i].key@) != ascii_folded("title"@) by {
            if j < prev.1.len() {
                assert(cur.1[j] == prev.1[j]);
                let i = choose|i: int| 0 <= i < rest.len() && rest[i].key@ == #[trigger] prev.1[j]
                    && ascii_folded(rest[i].key@) != ascii_folded("title"@);
                assert(fields[i] == rest[i]);
            } else {
                assert(cur.1[j] == f.key@);
            }
        }
    }
}


/// `Path::file_stem`: the file name of a path without its extension.
pub uninterp spec fn file_stem_of(path: Seq<char>) -> Option<Seq<char>>;

/// `Path::file_stem` of `path`, as a text: the final component of the path
/// without its extension, or none where the path has no file name.
#[verifier::external_body]
fn file_stem(path: &str) -> (r: Option<String>)
    ensures
        opt_view(r) == file_stem_of(path@),
{
    std::path::Path::new(path).file_stem().and_then(|s| s.to_str()).map(|s| s.to_string())
}

/// Whether a front matter field has the key `title`.
pub open spec fn titled() -> spec_fn(FrontmatterField) -> bool {
    |f: FrontmatterField| f.key@ == "title"@
}

/// The title the front matter gives: the value of its `title` field, where
/// that is a string.
pub open spec fn title_of(fields: Seq<FrontmatterField>) -> Option<Seq<char>> {
    if exists|i: int| is_first(fields, i, titled()) {
        match json_view(fields[choose|i: int| is_first(fields, i, titled())].value) {
            JsonView::String(t) => Some(t),
            _ => None,
        }
    } else {
        None
    }
}

/// The name of the object a markdown file becomes: the front matter title,
/// else the file name without its extension, else `Untitled`.
pub open spec fn object_name_of(fields: Seq<FrontmatterField>, path: Seq<char>) -> Seq<char> {
    match title_of(fields) {
        Some(t) => t,
        None => match file_stem_of(path) {
            Some(stem) => stem,
            None => "Untitled"@,
        },
    }
}

/// Extract object name from frontmatter or filename.
pub fn extract_object_name(frontmatter: &Vec<FrontmatterField>, file_path: &str) -> (name: String)
    ensures
        name@ == object_name_of(frontmatter@, file_path@),
{
    let mut i: usize = 0;
    while i < frontmatter.len()
        invariant
            0 <= i <= frontmatter@.len(),
            forall|j: int| 0 <= j < i ==> !titled()(#[trigger] frontmatter@[j]),
        decreases frontmatter.len() - i,
    {
        if same_text(frontmatter[i].key.as_str(), "title") {
            proof {
                assert(is_first(frontmatter@, i as int, titled()));
                lemma_first_unique(frontmatter@, i as int, titled());
            }
            match frontmatter[i].value.as_str() {
                Some(t) => {
                    return owned(t);
                },
                None => {
                    assert(title_of(frontmatter@) is None);
                    return stem_or_untitled(file_path);
                },
            }
        }
        i = i + 1;
    }
    proof {
        assert forall|j: int| !is_first(frontmatter@, j, titled()) by {
            if 0 <= j < frontmatter@.len() {
                assert(!titled()(frontmatter@[j]));
            }
        }
    }
    stem_or_untitled(file_path)
}

/// The file name of a path without its extension, or `Untitled`.
fn stem_or_untitled(file_path: &str) -> (name: String)
    ensures
        name@ == match file_stem_of(file_path@) {
            Some(stem) => stem,
            None => "Untitled"@,
        },
{
    match file_stem(file_path) {
        Some(stem) => stem,
        None => owned("Untitled"),
    }
}

/// What an import does once the file is read and the type fetched: shows a
/// preview, or creates the object and then, where the file has a body,
/// writes the body into it.
#[derive(Debug, PartialEq)]
pub enum ImportPlan {
    Preview(Record),
    Create {
        request: CreateObjectRequest,
        markdown: Option<UpdateObjectRequest>,
    },
}

/// The number of bytes of a text, as `str::len` gives it.
pub open spec fn byte_len(s: Seq<char>) -> usize {
    vstd::utf8::encode_utf8(s).len() as usize
}

impl ImportMarkdown {
    /// The name the shell calls the command by.
    pub fn name(&self) -> (r: &'static str)
        ensures
            r@ == "anytype import markdown"@,
    {
        "anytype import markdown"
    }

    /// The description the shell shows for the command.
    pub fn description(&self) -> (r: &'static str)
        ensures
            r@ == "Import a markdown file into Anytype"@,
    {
        "Import a markdown file into Anytype"
    }

    /// The type to import as, which the command requires.
    pub fn required_type(chosen_type: Option<String>) -> (r: Result<String, LabeledError>)
        ensures
            match chosen_type {
                Some(t) => r matches Ok(n) && n@ == t@,
                None => r matches Err(e)
                    && super::labeled_error(e, "Type is required"@, "Use --type <name> to specify object type"@),
            },
    {
        match chosen_type {
            Some(t) => Ok(t),
            None => Err(LabeledError::labeled("Type is required", "Use --type <name> to specify object type")),
        }
    }

    /// The error when the type of the import cannot be fetched.
    pub fn fetch_failure(type_id: &str, space_id: &str, detail: &str) -> (e: LabeledError)
        ensures
            super::plain_error(e, "Failed to fetch type "@ + super::single_quoted(type_id@) + " in space "@
                + super::single_quoted(space_id@) + ": "@ + detail@),
    {
        let q = super::quote(type_id);
        let a = crate::text::concat3("Failed to fetch type ", q.as_str(), " in space ");
        let qs = super::quote(space_id);
        let b = crate::text::concat3(a.as_str(), qs.as_str(), ": ");
        let msg = crate::text::concat(b.as_str(), detail);
        assert(msg@ =~= "Failed to fetch type "@ + super::single_quoted(type_id@) + " in space "@
            + super::single_quoted(space_id@) + ": "@ + detail@);
        LabeledError { msg, label: None }
    }

    /// What the import does once the file is read and the type fetched.  A
    /// dry run previews the file, the object name, the type, the space, the
    /// length of the body in bytes and the number of properties mapped.
    /// Otherwise the object is created with the type, the name and the
    /// mapped properties, and the body, where it is more than white space,
    /// is written into it.
    pub fn plan(
        file_path: &str,
        space_id: &str,
        chosen_type: &str,
        type_id: &str,
        type_properties: &Vec<TypeProperty>,
        frontmatter: &Vec<FrontmatterField>,
        markdown_body: String,
        dry_run: bool,
    ) -> (r: ImportPlan)
        ensures
            ({
                let name = object_name_of(frontmatter@, file_path@);
                let mapped = mapping(frontmatter@, type_properties@);
                if dry_run {
                    r matches ImportPlan::Preview(rec) && record_view(rec) == seq![
                        ("file"@, CellView::Text(file_path@)),
                        ("name"@, CellView::Text(name)),
                        ("type"@, CellView::Text(chosen_type@)),
                        ("space_id"@, CellView::Text(space_id@)),
                        ("content_length"@, CellView::Int(byte_len(markdown_body@) as i64)),
                        ("properties_count"@, CellView::Int(mapped.0.len() as i64)),
                        ("dry_run"@, CellView::Bool(true)),
                    ]
                } else {
                    r matches ImportPlan::Create { request, markdown } && {
                        &&& request.type_key@ == type_id@
                        &&& opt_view(request.name) == Some(name)
                        &&& request.properties matches Some(p) && p@ == JsonView::Object(mapped.0)
                        &&& if trimmed(markdown_body@).len() == 0 {
                            markdown is None
                        } else {
                            markdown matches Some(u) && u.name is None && u.properties is None
                                && opt_view(u.markdown) == Some(markdown_body@)
                        }
                    }
                }
            }),
    {
        let name = extract_object_name(frontmatter, file_path);
        let (properties, _unmapped) = map_frontmatter_to_properties(frontmatter, type_properties);
        if dry_run {
            let count = match &properties {
                JsonValue::Object(m) => m.len(),
                _ => 0,
            };
            assert(count == mapping(frontmatter@, type_properties@).0.len());
            let bytes = markdown_body.as_str().len();
            assert(bytes == byte_len(markdown_body@));
            let mut rec = Record::new();
            rec.push("file", Cell::Text(owned(file_path)));
            rec.push("name", Cell::Text(name));
            rec.push("type", Cell::Text(owned(chosen_type)));
            rec.push("space_id", Cell::Text(owned(space_id)));
            rec.push("content_length", Cell::Int(bytes as i64));
            rec.push("properties_count", Cell::Int(count as i64));
            rec.push("dry_run", Cell::Bool(true));
            ImportPlan::Preview(rec)
        } else {
            let trimmed_body = trim(markdown_body.as_str());
            let markdown = if trimmed_body.as_str().is_empty() {
                None
            } else {
                Some(UpdateObjectRequest { name: None, markdown: Some(markdown_body), properties: None })
            };
            ImportPlan::Create {
                request: CreateObjectRequest { type_key: owned(type_id), name: Some(name), properties: Some(properties) },
                markdown,
            }
        }
    }

    /// The object created, as the shell sees it: in its space, with the id
    /// of its type, and the key of its type where the API gave one (the id
    /// otherwise).
    pub fn created_value(object: Object, space_id: String, type_id: String) -> (v: AnytypeValue)
        ensures
            v matches AnytypeValue::Object { id, name, space_id: s, type_id: t, type_key, .. } && {
                &&& id == object.id
                &&& name == object.name
                &&& s == space_id
                &&& t@ == type_id@
                &&& type_key@ == match object.object {
                    Some(k) => k@,
                    None => type_id@,
                }
            },
    {
        let type_key = match &object.object {
            Some(k) => k.clone(),
            None => type_id.clone(),
        };
        AnytypeValue::from_object(object, space_id, type_id, type_key)
    }
}



/// Whether the front matter has a field with the key `title`, exactly.
pub open spec fn has_title_field(fields: Seq<FrontmatterField>) -> bool {
    exists|i: int| 0 <= i < fields.len() && (#[trigger] fields[i]).key@ == "title"@
}

/// The report line saying where the object's name comes from.
pub open spec fn title_line(fields: Seq<FrontmatterField>) -> Seq<char> {
    if has_title_field(fields) {
        "  title → name (object name)"@
    } else {
        "  (using filename as name)"@
    }
}

/// The report line for a property key that the mapping set: the key, the
/// name of the property it names and that property's format.
pub open spec fn mapped_line(key: Seq<char>, props: Seq<TypeProperty>) -> Seq<char> {
    match property_for(props, key) {
        Some(p) => "  "@ + key + " → "@ + p.name@ + " ("@ + p.format@ + ")"@,
        None => "  "@ + key + " → "@ + key + " (property)"@,
    }
}

/// The report lines for the property keys the mapping set, in that order.
pub open spec fn mapped_lines(members: Seq<(Seq<char>, JsonView)>, props: Seq<TypeProperty>) -> Seq<Seq<char>> {
    Seq::new(members.len(), |i: int| mapped_line(members[i].0, props))
}

/// The report lines for the front matter fields left unmapped: none where
/// there are none, else a heading and one line per field.
pub open spec fn unmapped_lines(unmapped: Seq<Seq<char>>) -> Seq<Seq<char>> {
    if unmapped.len() == 0 {
        Seq::empty()
    } else {
        seq!["\n⚠️  Unmapped frontmatter fields:"@] + Seq::new(unmapped.len(), |i: int| "  - "@ + unmapped[i])
    }
}

/// The property mapping as a verbose or dry-run import reports it: where
/// the object's name comes from, each property key set with its property's
/// name and format, and the fields left unmapped.
pub open spec fn mapping_section_lines(fields: Seq<FrontmatterField>, props: Seq<TypeProperty>) -> Seq<Seq<char>> {
    let m = mapping(fields, props);
    seq!["\n📋 Property Mapping:"@, title_line(fields)] + mapped_lines(m.0, props) + unmapped_lines(m.1)
}

/// The warning for a front matter field whose value does not convert for
/// the property its key names.
pub open spec fn warning_line(key: Seq<char>, e: ConvertFailure, value: JsonView) -> Seq<char> {
    "⚠️  Warning: Failed to convert '"@ + key + "': "@ + failure_text(e, value)
}

/// The warnings, in the order of the fields, for the fields other than the
/// title whose key names a property but whose value does not convert for it.
pub open spec fn conversion_warnings(fields: Seq<FrontmatterField>, props: Seq<TypeProperty>) -> Seq<Seq<char>>
    decreases fields.len(),
{
    if fields.len() == 0 {
        Seq::empty()
    } else {
        let prev = conversion_warnings(fields.drop_last(), props);
        let f = fields.last();
        if ascii_folded(f.key@) == ascii_folded("title"@) {
            prev
        } else {
            match property_for(props, f.key@) {
                Some(p) => match conversion(json_view(f.value), value_format_of(lowercase(p.format@)), reading_view(f.number_reading)) {
                    Ok(_) => prev,
                    Err(e) => prev.push(warning_line(f.key@, e, json_view(f.value))),
                },
                None => prev,
            }
        }
    }
}

/// What an import reports once the type, named `fetched_type`, is fetched:
/// the warnings for the fields whose values do not convert, and where
/// `verbose` holds (a verbose or dry-run import), first the type's name and
/// then the property mapping.
pub open spec fn mapping_report_lines(fields: Seq<FrontmatterField>, props: Seq<TypeProperty>, fetched_type: Seq<char>, verbose: bool) -> Seq<Seq<char>> {
    if verbose {
        seq!["✓ Fetching type definition: "@ + fetched_type] + conversion_warnings(fields, props)
            + mapping_section_lines(fields, props)
    } else {
        conversion_warnings(fields, props)
    }
}

/// Whether the front matter has a field with the key `title`, exactly.
fn has_title(fields: &Vec<FrontmatterField>) -> (r: bool)
    ensures
        r == has_title_field(fields@),
{
    let mut i: usize = 0;
    while i < fields.len()
        invariant
            0 <= i <= fields@.len(),
            forall|j: int| 0 <= j < i ==> (#[trigger] fields@[j]).key@ != "title"@,
        decreases fields.len() - i,
    {
        if same_text(fields[i].key.as_str(), "title") {
            return true;
        }
        i = i + 1;
    }
    false
}

/// The report line for a property key that the mapping set.
fn mapped_line_text(key: &str, props: &Vec<TypeProperty>) -> (r: String)
    ensures
        r@ == mapped_line(key@, props@),
{
    match find_property(props, key) {
        Some(j) => {
            let p = &props[j];
            let a = crate::text::concat3("  ", key, " → ");
            let b = crate::text::concat3(a.as_str(), p.name.as_str(), " (");
            let r = crate::text::concat3(b.as_str(), p.format.as_str(), ")");
            assert(r@ =~= "  "@ + key@ + " → "@ + p.name@ + " ("@ + p.format@ + ")"@);
            r
        },
        None => {
            let a = crate::text::concat3("  ", key, " → ");
            let r = crate::text::concat3(a.as_str(), key, " (property)");
            assert(r@ =~= "  "@ + key@ + " → "@ + key@ + " (property)"@);
            r
        },
    }
}

/// The byte length of a text, in decimal.
fn byte_len_text(s: &str) -> (r: String)
    ensures
        r@ == crate::text::decimal(byte_len(s@) as nat),
{
    let n = s.len();
    assert(n == byte_len(s@));
    crate::text::usize_text(n)
}

impl ImportMarkdown {
    /// What a verbose or dry-run import reports once the file is read: the
    /// file and how many front matter fields it has.
    pub fn reading_report(file_path: &str, field_count: usize) -> (lines: Vec<String>)
        ensures
            crate::text::views(lines@) == seq![
                "📄 Reading markdown file: "@ + file_path@,
                "✓ Parsed frontmatter: "@ + crate::text::decimal(field_count as nat) + " fields found"@,
            ],
    {
        let mut lines: Vec<String> = Vec::new();
        lines.push(crate::text::concat("📄 Reading markdown file: ", file_path));
        let n = crate::text::usize_text(field_count);
        lines.push(crate::text::concat3("✓ Parsed frontmatter: ", n.as_str(), " fields found"));
        assert(crate::text::views(lines@) =~= seq![
            "📄 Reading markdown file: "@ + file_path@,
            "✓ Parsed frontmatter: "@ + crate::text::decimal(field_count as nat) + " fields found"@,
        ]);
        lines
    }

    /// What an import reports once the type, named `fetched_type`, is
    /// fetched: the warnings for the fields whose values do not convert, and
    /// for a verbose or dry-run import (`verbose`) the type's name first and
    /// the property mapping of the front matter last.
    pub fn mapping_report(
        frontmatter: &Vec<FrontmatterField>,
        type_properties: &Vec<TypeProperty>,
        fetched_type: &str,
        verbose: bool,
    ) -> (lines: Vec<String>)
        ensures
            crate::text::views(lines@) == mapping_report_lines(frontmatter@, type_properties@, fetched_type@, verbose),
    {
        let mut lines: Vec<String> = Vec::new();
        if verbose {
            crate::cli::commands::push_line(&mut lines, crate::text::concat("✓ Fetching type definition: ", fetched_type));
        }
        crate::cli::commands::append_lines(&mut lines, warnings_of(frontmatter, type_properties));
        if verbose {
            crate::cli::commands::append_lines(&mut lines, mapping_section(frontmatter, type_properties));
        }
        assert(crate::text::views(lines@) =~= mapping_report_lines(frontmatter@, type_properties@, fetched_type@, verbose));
        lines
    }
}

/// The warnings for the fields whose values do not convert for the
/// property their key names.
fn warnings_of(frontmatter: &Vec<FrontmatterField>, type_properties: &Vec<TypeProperty>) -> (lines: Vec<String>)
    ensures
        crate::text::views(lines@) == conversion_warnings(frontmatter@, type_properties@),
{
    let mut lines: Vec<String> = Vec::new();
    let mut i: usize = 0;
    proof {
        assert(frontmatter@.take(0) =~= Seq::<FrontmatterField>::empty());
        assert(crate::text::views(lines@) =~= Seq::<Seq<char>>::empty());
    }
    while i < frontmatter.len()
        invariant
            0 <= i <= frontmatter@.len(),
            crate::text::views(lines@) == conversion_warnings(frontmatter@.take(i as int), type_properties@),
        decreases frontmatter.len() - i,
    {
        let field = &frontmatter[i];
        proof {
            assert(frontmatter@.take(i + 1).drop_last() =~= frontmatter@.take(i as int));
            assert(frontmatter@.take(i + 1).last() == frontmatter@[i as int]);
            reveal_strlit("title");
        }
        if !eq_ignore_ascii_case(field.key.as_str(), "title") {
            match find_property(type_properties, field.key.as_str()) {
                Some(j) => {
                    let prop = &type_properties[j];
                    match convert_value_to_format_str(&field.value, prop.format.as_str(), &field.number_reading) {
                        Ok(_) => {},
                        Err(e) => {
                            let text = e.message(&field.value);
                            let a = crate::text::concat3("⚠️  Warning: Failed to convert '", field.key.as_str(), "': ");
                            let line = crate::text::concat(a.as_str(), text.as_str());
                            assert(line@ =~= warning_line(field.key@, e@, json_view(field.value)));
                            crate::cli::commands::push_line(&mut lines, line);
                        },
                    }
                },
                None => {},
            }
        }
        i = i + 1;
    }
    proof {
        assert(frontmatter@.take(frontmatter@.len() as int) =~= frontmatter@);
    }
    lines
}

/// The property mapping of the front matter, as a verbose or dry-run
/// import reports it.
fn mapping_section(frontmatter: &Vec<FrontmatterField>, type_properties: &Vec<TypeProperty>) -> (lines: Vec<String>)
    ensures
        crate::text::views(lines@) == mapping_section_lines(frontmatter@, type_properties@),
{
    let ghost m = mapping(frontmatter@, type_properties@);
    let (properties, unmapped) = map_frontmatter_to_properties(frontmatter, type_properties);
    let mut lines: Vec<String> = Vec::new();
    lines.push(owned("\n📋 Property Mapping:"));
    if has_title(frontmatter) {
        lines.push(owned("  title → name (object name)"));
    } else {
        lines.push(owned("  (using filename as name)"));
    }
    let ghost head = seq!["\n📋 Property Mapping:"@, title_line(frontmatter@)];
    assert(crate::text::views(lines@) =~= head);
    match &properties {
        JsonValue::Object(members) => {
            assert(members_view(members@) == m.0);
            let mut i: usize = 0;
            while i < members.len()
                invariant
                    0 <= i <= members@.len(),
                    members_view(members@) == m.0,
                    crate::text::views(lines@) == head + mapped_lines(m.0, type_properties@).take(i as int),
                decreases members.len() - i,
            {
                let line = mapped_line_text(members[i].0.as_str(), type_properties);
                let ghost before = lines@;
                lines.push(line);
                proof {
                    assert(m.0[i as int].0 == members@[i as int].0@);
                    assert(crate::text::views(lines@) =~= crate::text::views(before).push(line@));
                    assert(mapped_lines(m.0, type_properties@)[i as int] == mapped_line(m.0[i as int].0, type_properties@));
                    assert(mapped_lines(m.0, type_properties@).take(i + 1)
                        =~= mapped_lines(m.0, type_properties@).take(i as int).push(line@));
                    assert(crate::text::views(lines@) =~= head + mapped_lines(m.0, type_properties@).take(i + 1));
                }
                i = i + 1;
            }
            assert(mapped_lines(m.0, type_properties@).take(members@.len() as int) =~= mapped_lines(m.0, type_properties@));
        },
        _ => {
            assert(false);
        },
    }
    let ghost body = head + mapped_lines(m.0, type_properties@);
    if unmapped.len() > 0 {
        lines.push(owned("\n⚠️  Unmapped frontmatter fields:"));
        let ghost heading = body + seq!["\n⚠️  Unmapped frontmatter fields:"@];
        assert(crate::text::views(lines@) =~= heading);
        let mut k: usize = 0;
        while k < unmapped.len()
            invariant
                0 <= k <= unmapped@.len(),
                crate::text::views(unmapped@) == m.1,
                crate::text::views(lines@) == heading
                    + Seq::new(m.1.len(), |j: int| "  - "@ + m.1[j]).take(k as int),
            decreases unmapped.len() - k,
        {
            let line = crate::text::concat("  - ", unmapped[k].as_str());
            let ghost before = lines@;
            lines.push(line);
            proof {
                assert(m.1[k as int] == unmapped@[k as int]@);
                assert(crate::text::views(lines@) =~= crate::text::views(before).push(line@));
                assert(Seq::new(m.1.len(), |j: int| "  - "@ + m.1[j]).take(k + 1)
                    =~= Seq::new(m.1.len(), |j: int| "  - "@ + m.1[j]).take(k as int).push(line@));
                assert(crate::text::views(lines@) =~= heading
                    + Seq::new(m.1.len(), |j: int| "  - "@ + m.1[j]).take(k + 1));
            }
            k = k + 1;
        }
        assert(Seq::new(m.1.len(), |j: int| "  - "@ + m.1[j]).take(unmapped@.len() as int)
            =~= Seq::new(m.1.len(), |j: int| "  - "@ + m.1[j]));
        assert(crate::text::views(lines@) =~= body + unmapped_lines(m.1));
    } else {
        assert(crate::text::views(lines@) =~= body + unmapped_lines(m.1));
    }
    lines
}

impl ImportMarkdown {
    /// What a dry run reports last: the object it would create, with its
    /// name, type, space, the length of its body in bytes and the number of
    /// properties mapped.
    pub fn dry_run_report(
        frontmatter: &Vec<FrontmatterField>,
        type_properties: &Vec<TypeProperty>,
        file_path: &str,
        chosen_type: &str,
        space_id: &str,
        markdown_body: &str,
    ) -> (lines: Vec<String>)
        ensures
            crate::text::views(lines@) == seq![
                "\n🔍 Dry-run mode - no object created"@,
                "  📝 Would create object with:"@,
                "    Name: "@ + object_name_of(frontmatter@, file_path@),
                "    Type: "@ + chosen_type@,
                "    Space: "@ + space_id@,
                "    Markdown: "@ + crate::text::decimal(byte_len(markdown_body@) as nat) + " characters"@,
                "    Properties: "@ + crate::text::decimal(mapping(frontmatter@, type_properties@).0.len()) + " mapped"@,
            ],
    {
        let name = extract_object_name(frontmatter, file_path);
        let (properties, _unmapped) = map_frontmatter_to_properties(frontmatter, type_properties);
        let count: usize = match &properties {
            JsonValue::Object(members) => members.len(),
            _ => 0,
        };
        assert(count == mapping(frontmatter@, type_properties@).0.len());
        let mut lines: Vec<String> = Vec::new();
        lines.push(owned("\n🔍 Dry-run mode - no object created"));
        lines.push(owned("  📝 Would create object with:"));
        lines.push(crate::text::concat("    Name: ", name.as_str()));
        lines.push(crate::text::concat("    Type: ", chosen_type));
        lines.push(crate::text::concat("    Space: ", space_id));
        let bytes = byte_len_text(markdown_body);
        lines.push(crate::text::concat3("    Markdown: ", bytes.as_str(), " characters"));
        let c = crate::text::usize_text(count);
        lines.push(crate::text::concat3("    Properties: ", c.as_str(), " mapped"));
        assert(crate::text::views(lines@) =~= seq![
            "\n🔍 Dry-run mode - no object created"@,
            "  📝 Would create object with:"@,
            "    Name: "@ + object_name_of(frontmatter@, file_path@),
            "    Type: "@ + chosen_type@,
            "    Space: "@ + space_id@,
            "    Markdown: "@ + crate::text::decimal(byte_len(markdown_body@) as nat) + " characters"@,
            "    Properties: "@ + crate::text::decimal(mapping(frontmatter@, type_properties@).0.len()) + " mapped"@,
        ]);
        lines
    }

    /// What a verbose import reports once the object is created: its space,
    /// id and name, the length of its body in bytes and the number of
    /// properties the API reported for it.
    pub fn created_report(space_id: &str, object_id: &str, object_name: &str, markdown_body: &str, properties_count: usize) -> (lines: Vec<String>)
        ensures
            crate::text::views(lines@) == seq![
                "\n✓ Created object in space "@ + space_id@,
                "  🆔 ID: "@ + object_id@,
                "  📝 Name: "@ + object_name@,
                "  📄 Markdown: "@ + crate::text::decimal(byte_len(markdown_body@) as nat) + " characters"@,
                "  🔑 Properties: "@ + crate::text::decimal(properties_count as nat) + " mapped"@,
            ],
    {
        let mut lines: Vec<String> = Vec::new();
        lines.push(crate::text::concat("\n✓ Created object in space ", space_id));
        lines.push(crate::text::concat("  🆔 ID: ", object_id));
        lines.push(crate::text::concat("  📝 Name: ", object_name));
        let bytes = byte_len_text(markdown_body);
        lines.push(crate::text::concat3("  📄 Markdown: ", bytes.as_str(), " characters"));
        let c = crate::text::usize_text(properties_count);
        lines.push(crate::text::concat3("  🔑 Properties: ", c.as_str(), " mapped"));
        assert(crate::text::views(lines@) =~= seq![
            "\n✓ Created object in space "@ + space_id@,
            "  🆔 ID: "@ + object_id@,
            "  📝 Name: "@ + object_name@,
            "  📄 Markdown: "@ + crate::text::decimal(byte_len(markdown_body@) as nat) + " characters"@,
            "  🔑 Properties: "@ + crate::text::decimal(properties_count as nat) + " mapped"@,
        ]);
        lines
    }
}

/// How a front matter value converts for each kind of property format (by
/// the format's lower-case name):
/// - `date` and `select` take a text as it is and refuse anything else;
/// - `text`, `url`, `email` and `phone` take a text as it is and write a
///   boolean as `true` or `false`;
/// - `number` takes a number as it is, and a text only where it reads as a
///   number, which it then becomes;
/// - `checkbox` takes a boolean as it is, and reads `true`, `yes`, `1` as
///   true and `false`, `no`, `0` as false (in any case), and a whole
///   number as whether it is not zero;
/// - `multiselect` (or `multi_select`) makes a text a list of that one text
///   and takes a list of texts as it is;
/// - any other format passes the value through unchanged.
pub proof fn law_conversion_by_format(value: JsonView, name: Seq<char>, reading: Option<JsonView>)
    ensures
        name == "date"@ ==> conversion(value, value_format_of(name), reading) == if value is String {
            Ok::<JsonView, ConvertFailure>(value)
        } else {
            Err::<JsonView, ConvertFailure>(ConvertFailure::DateNotString)
        },
        name == "select"@ ==> conversion(value, value_format_of(name), reading) == if value is String {
            Ok::<JsonView, ConvertFailure>(value)
        } else {
            Err::<JsonView, ConvertFailure>(ConvertFailure::SelectNotString)
        },
        (name == "text"@ || name == "url"@ || name == "email"@ || name == "phone"@) ==> {
            &&& (value is String ==> conversion(value, value_format_of(name), reading) == Ok::<JsonView, ConvertFailure>(value))
            &&& (value == JsonView::Bool(true) ==> conversion(value, value_format_of(name), reading)
                == Ok::<JsonView, ConvertFailure>(JsonView::String("true"@)))
            &&& (value == JsonView::Bool(false) ==> conversion(value, value_format_of(name), reading)
                == Ok::<JsonView, ConvertFailure>(JsonView::String("false"@)))
        },
        name == "number"@ ==> {
            &&& (value is Number ==> conversion(value, value_format_of(name), reading) == Ok::<JsonView, ConvertFailure>(value))
            &&& (value is String && reading is Some && reading->0 is Number ==> conversion(value, value_format_of(name), reading)
                == Ok::<JsonView, ConvertFailure>(reading->0))
            &&& (value is String && !(reading is Some && reading->0 is Number)
                ==> conversion(value, value_format_of(name), reading)
                    == Err::<JsonView, ConvertFailure>(ConvertFailure::NumberText(value->String_0)))
        },
        name == "checkbox"@ ==> {
            &&& (value is Bool ==> conversion(value, value_format_of(name), reading) == Ok::<JsonView, ConvertFailure>(value))
            &&& (value is String && (lowercase(value->String_0) == "true"@ || lowercase(value->String_0) == "yes"@
                || lowercase(value->String_0) == "1"@)
                ==> conversion(value, value_format_of(name), reading) == Ok::<JsonView, ConvertFailure>(JsonView::Bool(true)))
            &&& (value is String && (lowercase(value->String_0) == "false"@ || lowercase(value->String_0) == "no"@
                || lowercase(value->String_0) == "0"@)
                ==> conversion(value, value_format_of(name), reading) == Ok::<JsonView, ConvertFailure>(JsonView::Bool(false)))
            &&& (value is Number && value->Number_0 is PosInt && value->Number_0->PosInt_0 <= i64::MAX
                ==> conversion(value, value_format_of(name), reading)
                    == Ok::<JsonView, ConvertFailure>(JsonView::Bool(value->Number_0->PosInt_0 != 0)))
            &&& (value is Number && value->Number_0 is NegInt
                ==> conversion(value, value_format_of(name), reading)
                    == Ok::<JsonView, ConvertFailure>(JsonView::Bool(value->Number_0->NegInt_0 != 0)))
        },
        (name == "multiselect"@ || name == "multi_select"@) ==> {
            &&& (value is String ==> conversion(value, value_format_of(name), reading)
                == Ok::<JsonView, ConvertFailure>(JsonView::Array(seq![value])))
            &&& (value is Array && (forall|i: int| 0 <= i < value->Array_0.len() ==> (#[trigger] value->Array_0[i]) is String)
                ==> conversion(value, value_format_of(name), reading) == Ok::<JsonView, ConvertFailure>(value))
        },
        !(name == "date"@ || name == "select"@ || name == "text"@ || name == "url"@ || name == "email"@ || name == "phone"@
            || name == "number"@ || name == "checkbox"@ || name == "multiselect"@ || name == "multi_select"@)
            ==> conversion(value, value_format_of(name), reading) == Ok::<JsonView, ConvertFailure>(value),
{
    reveal_strlit("text");
    reveal_strlit("url");
    reveal_strlit("email");
    reveal_strlit("phone");
    reveal_strlit("number");
    reveal_strlit("checkbox");
    reveal_strlit("date");
    reveal_strlit("select");
    reveal_strlit("multiselect");
    reveal_strlit("multi_select");
    reveal_strlit("true");
    reveal_strlit("yes");
    reveal_strlit("1");
    reveal_strlit("false");
    reveal_strlit("no");
    reveal_strlit("0");
    assert("text"@ != "url"@) by { assert("text"@.len() != "url"@.len()); }
    assert("text"@ != "email"@) by { assert("text"@.len() != "email"@.len()); }
    assert("text"@ != "phone"@) by { assert("text"@.len() != "phone"@.len()); }
    assert("text"@ != "number"@) by { assert("text"@.len() != "number"@.len()); }
    assert("text"@ != "checkbox"@) by { assert("text"@.len() != "checkbox"@.len()); }
    assert("text"@ != "date"@) by { assert("text"@[0] != "date"@[0]); }
    assert("text"@ != "select"@) by { assert("text"@.len() != "select"@.len()); }
    assert("text"@ != "multiselect"@) by { assert("text"@.len() != "multiselect"@.len()); }
    assert("text"@ != "multi_select"@) by { assert("text"@.len() != "multi_select"@.len()); }
    assert("url"@ != "email"@) by { assert("url"@.len() != "email"@.len()); }
    assert("url"@ != "phone"@) by { assert("url"@.len() != "phone"@.len()); }
    assert("url"@ != "number"@) by { assert("url"@.len() != "number"@.len()); }
    assert("url"@ != "checkbox"@) by { assert("url"@.len() != "checkbox"@.len()); }
    assert("url"@ != "date"@) by { assert("url"@.len() != "date"@.len()); }
    assert("url"@ != "select"@) by { assert("url"@.len() != "select"@.len()); }
    assert("url"@ != "multiselect"@) by { assert("url"@.len() != "multiselect"@.len()); }
    assert("url"@ != "multi_select"@) by { assert("url"@.len() != "multi_select"@.len()); }
    assert("email"@ != "phone"@) by { assert("email"@[0] != "phone"@[0]); }
    assert("email"@ != "number"@) by { assert("email"@.len() != "number"@.len()); }
    assert("email"@ != "checkbox"@) by { assert("email"@.len() != "checkbox"@.len()); }
    assert("email"@ != "date"@) by { assert("email"@.len() != "date"@.len()); }
    assert("email"@ != "select"@) by { assert("email"@.len() != "select"@.len()); }
    assert("email"@ != "multiselect"@) by { assert("email"@.len() != "multiselect"@.len()); }
    assert("email"@ != "multi_select"@) by { assert("email"@.len() != "multi_select"@.len()); }
    assert("phone"@ != "number"@) by { assert("phone"@.len() != "number"@.len()); }
    assert("phone"@ != "checkbox"@) by { assert("phone"@.len() != "checkbox"@.len()); }
    assert("phone"@ != "date"@) by { assert("phone"@.len() != "date"@.len()); }
    assert("phone"@ != "select"@) by { assert("phone"@.len() != "select"@.len()); }
    assert("phone"@ != "multiselect"@) by { assert("phone"@.len() != "multiselect"@.len()); }
    assert("phone"@ != "multi_select"@) by { assert("phone"@.len() != "multi_select"@.len()); }
    assert("number"@ != "checkbox"@) by { assert("number"@.len() != "checkbox"@.len()); }
    assert("number"@ != "date"@) by { assert("number"@.len() != "date"@.len()); }
    assert("number"@ != "select"@) by { assert("number"@[0] != "select"@[0]); }
    assert("number"@ != "multiselect"@) by { assert("number"@.len() != "multiselect"@.len()); }
    assert("number"@ != "multi_select"@) by { assert("number"@.len() != "multi_select"@.len()); }
    assert("checkbox"@ != "date"@) by { assert("checkbox"@.len() != "date"@.len()); }
    assert("checkbox"@ != "select"@) by { assert("checkbox"@.len() != "select"@.len()); }
    assert("checkbox"@ != "multiselect"@) by { assert("checkbox"@.len() != "multiselect"@.len()); }
    assert("checkbox"@ != "multi_select"@) by { assert("checkbox"@.len() != "multi_select"@.len()); }
    assert("date"@ != "select"@) by { assert("date"@.len() != "select"@.len()); }
    assert("date"@ != "multiselect"@) by { assert("date"@.len() != "multiselect"@.len()); }
    assert("date"@ != "multi_select"@) by { assert("date"@.len() != "multi_select"@.len()); }
    assert("select"@ != "multiselect"@) by { assert("select"@.len() != "multiselect"@.len()); }
    assert("select"@ != "multi_select"@) by { assert("select"@.len() != "multi_select"@.len()); }
    assert("multiselect"@ != "multi_select"@) by { assert("multiselect"@.len() != "multi_select"@.len()); }
    assert("true"@ != "yes"@) by { assert("true"@.len() != "yes"@.len()); }
    assert("true"@ != "1"@) by { assert("true"@.len() != "1"@.len()); }
    assert("true"@ != "false"@) by { assert("true"@.len() != "false"@.len()); }
    assert("true"@ != "no"@) by { assert("true"@.len() != "no"@.len()); }
    assert("true"@ != "0"@) by { assert("true"@.len() != "0"@.len()); }
    assert("yes"@ != "1"@) by { assert("yes"@.len() != "1"@.len()); }
    assert("yes"@ != "false"@) by { assert("yes"@.len() != "false"@.len()); }
    assert("yes"@ != "no"@) by { assert("yes"@.len() != "no"@.len()); }
    assert("yes"@ != "0"@) by { assert("yes"@.len() != "0"@.len()); }
    assert("1"@ != "false"@) by { assert("1"@.len() != "false"@.len()); }
    assert("1"@ != "no"@) by { assert("1"@.len() != "no"@.len()); }
    assert("1"@ != "0"@) by { assert("1"@[0] != "0"@[0]); }
    assert("false"@ != "no"@) by { assert("false"@.len() != "no"@.len()); }
    assert("false"@ != "0"@) by { assert("false"@.len() != "0"@.len()); }
    assert("no"@ != "0"@) by { assert("no"@.len() != "0"@.len()); }
}

/// The object's name is the text of the first `title` field of the front
/// matter; with no `title` field, it is the file's name without its
/// extension, or `Untitled` where the path names no file.
pub proof fn law_object_name_from_title_or_file(fields: Seq<FrontmatterField>, path: Seq<char>, i: int)
    ensures
        (0 <= i < fields.len() && fields[i].key@ == "title"@ && json_view(fields[i].value) is String
            && (forall|j: int| 0 <= j < i ==> (#[trigger] fields[j]).key@ != "title"@))
            ==> object_name_of(fields, path) == json_view(fields[i].value)->String_0,
        (forall|j: int| 0 <= j < fields.len() ==> (#[trigger] fields[j]).key@ != "title"@)
            ==> object_name_of(fields, path) == match file_stem_of(path) {
                Some(stem) => stem,
                None => "Untitled"@,
            },
{
    if 0 <= i < fields.len() && fields[i].key@ == "title"@
        && (forall|j: int| 0 <= j < i ==> (#[trigger] fields[j]).key@ != "title"@) {
        assert forall|j: int| 0 <= j < i implies !titled()(#[trigger] fields[j]) by {
            assert(fields[j].key@ != "title"@);
        }
        assert(is_first(fields, i, titled()));
        lemma_first_unique(fields, i, titled());
    }
    if forall|j: int| 0 <= j < fields.len() ==> (#[trigger] fields[j]).key@ != "title"@ {
        assert forall|k: int| !is_first(fields, k, titled()) by {
            if 0 <= k < fields.len() {
                assert(fields[k].key@ != "title"@);
            }
        }
    }
}

} // verus!
