//! A dynamically typed document value and its mathematical model.

use crate::text::same_text;
use vstd::prelude::*;

verus! {

/// A document value as the daemon sees it: numbers keep their literal text.
#[derive(Debug)]
pub enum JsonValue {
    Null,
    Bool(bool),
    Number(String),
    Str(String),
    Array(Vec<JsonValue>),
    Object(Vec<(String, JsonValue)>),
}

/// The mathematical model of a [`JsonValue`].
pub enum JsonModel {
    Null,
    Bool(bool),
    Number(Seq<char>),
    Str(Seq<char>),
    Array(Seq<JsonModel>),
    Object(Seq<(Seq<char>, JsonModel)>),
}

impl View for JsonValue {
    type V = JsonModel;

    open spec fn view(&self) -> JsonModel
        decreases self,
    {
        match self {
            JsonValue::Null => JsonModel::Null,
            JsonValue::Bool(b) => JsonModel::Bool(*b),
            JsonValue::Number(n) => JsonModel::Number(n@),
            JsonValue::Str(s) => JsonModel::Str(s@),
            JsonValue::Array(items) => JsonModel::Array(items_view(items@)),
            JsonValue::Object(fields) => JsonModel::Object(fields_view(fields@)),
        }
    }
}

/// The models of the elements of an array, in order.
pub open spec fn items_view(items: Seq<JsonValue>) -> Seq<JsonModel>
    decreases items,
{
    Seq::new(
        items.len(),
        |i: int|
            if 0 <= i < items.len() {
                items[i]@
            } else {
                JsonModel::Null
            },
    )
}

/// The models of the fields of an object, in order.
pub open spec fn fields_view(fields: Seq<(String, JsonValue)>) -> Seq<(Seq<char>, JsonModel)>
    decreases fields,
{
    Seq::new(
        fields.len(),
        |i: int|
            if 0 <= i < fields.len() {
                (fields[i].0@, fields[i].1@)
            } else {
                (Seq::empty(), JsonModel::Null)
            },
    )
}

/// The value of the first field of that name, if there is one.
pub open spec fn lookup(fields: Seq<(Seq<char>, JsonModel)>, key: Seq<char>) -> Option<JsonModel>
    decreases fields.len(),
{
    if fields.len() == 0 {
        None
    } else if fields[0].0 == key {
        Some(fields[0].1)
    } else {
        lookup(fields.drop_first(), key)
    }
}

/// The model of a value that may be there.
pub open spec fn found(v: Option<&JsonValue>) -> Option<JsonModel> {
    match v {
        Some(x) => Some(x@),
        None => None,
    }
}

/// Finds the first field of that name.
pub fn find_field<'a>(fields: &'a Vec<(String, JsonValue)>, key: &str) -> (r: Option<
    &'a JsonValue,
>)
    ensures
        found(r) == lookup(fields_view(fields@), key@),
{
    let ghost all = fields_view(fields@);
    let mut i: usize = 0;
    proof {
        assert(all.skip(0) == all);
    }
    while i < fields.len()
        invariant
            i <= fields.len(),
            all == fields_view(fields@),
            lookup(all, key@) == lookup(all.skip(i as int), key@),
        decreases fields.len() - i,
    {
        proof {
            assert(all.skip(i as int).drop_first() == all.skip(i + 1));
            assert(all.skip(i as int)[0] == (fields@[i as int].0@, fields@[i as int].1@));
        }
        if same_text(fields[i].0.as_str(), key) {
            return Some(&fields[i].1);
        }
        i += 1;
    }
    None
}

impl Clone for JsonValue {
    fn clone(&self) -> (r: Self)
        ensures
            r@ == self@,
        decreases self,
    {
        match self {
            JsonValue::Null => JsonValue::Null,
            JsonValue::Bool(b) => JsonValue::Bool(*b),
            JsonValue::Number(n) => JsonValue::Number(n.clone()),
            JsonValue::Str(s) => JsonValue::Str(s.clone()),
            JsonValue::Array(items) => {
                let mut out: Vec<JsonValue> = Vec::new();
                let mut i: usize = 0;
                while i < items.len()
                    invariant
                        i <= items.len(),
                        out.len() == i,
                        self is Array && self->Array_0 == *items,
                        forall|k: int| 0 <= k < i ==> out@[k]@ == items@[k]@,
                    decreases items.len() - i,
                {
                    assert(decreases_to!(*items => items[i as int]));
                    out.push(items[i].clone());
                    i += 1;
                }
                let r = JsonValue::Array(out);
                assert(r@ == self@) by {
                    assert(r@->Array_0 =~= self@->Array_0);
                }
                r
            },
            JsonValue::Object(fields) => {
                let mut out: Vec<(String, JsonValue)> = Vec::new();
                let mut i: usize = 0;
                while i < fields.len()
                    invariant
                        i <= fields.len(),
                        out.len() == i,
                        self is Object && self->Object_0 == *fields,
                        forall|k: int|
                            0 <= k < i ==> out@[k].0@ == fields@[k].0@ && out@[k].1@
                                == fields@[k].1@,
                    decreases fields.len() - i,
                {
                    assert(decreases_to!(*fields => fields[i as int]));
                    assert(decreases_to!(fields[i as int] => fields[i as int].1));
                    out.push((fields[i].0.clone(), fields[i].1.clone()));
                    i += 1;
                }
                let r = JsonValue::Object(out);
                assert(r@ == self@) by {
                    assert(r@->Object_0 =~= self@->Object_0);
                }
                r
            },
        }
    }
}

/// Copies the fields of an object.
pub fn clone_fields(fields: &Vec<(String, JsonValue)>) -> (out: Vec<(String, JsonValue)>)
    ensures
        fields_view(out@) == fields_view(fields@),
{
    let mut out: Vec<(String, JsonValue)> = Vec::new();
    let mut i: usize = 0;
    while i < fields.len()
        invariant
            i <= fields.len(),
            out.len() == i,
            forall|k: int|
                0 <= k < i ==> out@[k].0@ == fields@[k].0@ && out@[k].1@ == fields@[k].1@,
        decreases fields.len() - i,
    {
        out.push((fields[i].0.clone(), fields[i].1.clone()));
        i += 1;
    }
    assert(fields_view(out@) =~= fields_view(fields@));
    out
}

/// The compact JSON text of a value, where the value can be written as JSON.
pub uninterp spec fn json_text(v: JsonModel) -> Option<Seq<char>>;

/// The document that a JSON text denotes, if it is well formed.
pub uninterp spec fn json_document(text: Seq<char>) -> Option<JsonModel>;

/// `serde_json::Value`, carried between the calls into `serde_json`; nothing
/// is said of what it holds.
#[verifier::external_type_specification]
#[verifier::external_body]
pub struct ExSerdeValue(serde_json::Value);

/// Rebuilds a `serde_json::Value` as a [`JsonValue`], variant by variant; a
/// number is kept as the text that `serde_json::Number` prints for it.
#[verifier::external_body]
fn from_serde(v: &serde_json::Value) -> JsonValue {
    match v {
        serde_json::Value::Null => JsonValue::Null,
        serde_json::Value::Bool(b) => JsonValue::Bool(*b),
        serde_json::Value::Number(n) => JsonValue::Number(n.to_string()),
        serde_json::Value::String(s) => JsonValue::Str(s.clone()),
        serde_json::Value::Array(a) => JsonValue::Array(a.iter().map(from_serde).collect()),
        serde_json::Value::Object(m) => JsonValue::Object(
            m.iter().map(|(k, x)| (k.clone(), from_serde(x))).collect(),
        ),
    }
}

/// Rebuilds a [`JsonValue`] as a `serde_json::Value`, variant by variant; a
/// number's text is read by `serde_json::Number::from_str`, and the whole is
/// `None` where that refuses one.
#[verifier::external_body]
fn to_serde(v: &JsonValue) -> Option<serde_json::Value> {
    Some(match v {
        JsonValue::Null => serde_json::Value::Null,
        JsonValue::Bool(b) => serde_json::Value::Bool(*b),
        JsonValue::Number(n) => serde_json::Value::Number(n.parse().ok()?),
        JsonValue::Str(s) => serde_json::Value::String(s.clone()),
        JsonValue::Array(a) => serde_json::Value::Array(
            a.iter().map(to_serde).collect::<Option<_>>()?,
        ),
        JsonValue::Object(m) => serde_json::Value::Object(
            m.iter().map(|(k, x)| Some((k.clone(), to_serde(x)?))).collect::<Option<_>>()?,
        ),
    })
}

/// `serde_json::from_str` on a `serde_json::Value`: the outcome depends on the
/// text alone, and is the document that [`json_document`] names.
#[verifier::external_body]
fn serde_json_from_str(text: &str) -> (r: Option<JsonValue>)
    ensures
        r matches Some(v) ==> json_document(text@) == Some(v@),
        r is None ==> json_document(text@) is None,
{
    match serde_json::from_str::<serde_json::Value>(text) {
        Ok(v) => Some(from_serde(&v)),
        Err(_) => None,
    }
}

/// Reads a JSON text; none where the text is not well formed.
pub fn parse_json(text: &str) -> (r: Option<JsonValue>)
    ensures
        match r {
            Some(v) => json_document(text@) == Some(v@),
            None => json_document(text@) is None,
        },
{
    serde_json_from_str(text)
}

/// `serde_json::to_string` on the value rebuilt for `serde_json`: the outcome
/// depends on the value alone, and is the text that [`json_text`] names.
#[verifier::external_body]
fn serde_json_to_string(v: &JsonValue) -> (r: Option<String>)
    ensures
        r matches Some(s) ==> json_text(v@) == Some(s@),
        r is None ==> json_text(v@) is None,
{
    match to_serde(v) {
        Some(x) => serde_json::to_string(&x).ok(),
        None => None,
    }
}

/// Writes a value as compact JSON text; none where the value holds a
/// number whose text is no JSON number.
pub fn render_json(v: &JsonValue) -> (r: Option<String>)
    ensures
        match r {
            Some(s) => json_text(v@) == Some(s@),
            None => json_text(v@) is None,
        },
{
    serde_json_to_string(v)
}

/// The compact JSON text of a value; empty where it has none.
pub open spec fn rendered(v: JsonModel) -> Seq<char> {
    match json_text(v) {
        Some(t) => t,
        None => Seq::empty(),
    }
}

/// The compact JSON text of a value; empty where it has none.
pub fn render(v: &JsonValue) -> (out: String)
    ensures
        out@ == rendered(v@),
{
    match render_json(v) {
        Some(t) => t,
        None => String::new(),
    }
}

/// What a TOML text denotes: the document, where the text is well formed (a
/// table as an object, a date as its text, a number as its text), and else
/// the text with which the parser reports what is wrong.
pub uninterp spec fn toml_document(text: Seq<char>) -> Result<JsonModel, Seq<char>>;

/// `toml::Value`, carried between the calls into `toml`; nothing is said of
/// what it holds.
#[verifier::external_type_specification]
#[verifier::external_body]
pub struct ExTomlValue(toml::Value);

/// Rebuilds a `toml::Value` as a [`JsonValue`], variant by variant; numbers
/// and dates are kept as the texts that `toml` prints for them.
#[verifier::external_body]
fn from_toml(v: &toml::Value) -> JsonValue {
    match v {
        toml::Value::String(s) => JsonValue::Str(s.clone()),
        toml::Value::Integer(i) => JsonValue::Number(i.to_string()),
        toml::Value::Float(f) => JsonValue::Number(f.to_string()),
        toml::Value::Boolean(b) => JsonValue::Bool(*b),
        toml::Value::Datetime(d) => JsonValue::Str(d.to_string()),
        toml::Value::Array(a) => JsonValue::Array(a.iter().map(from_toml).collect()),
        toml::Value::Table(t) => JsonValue::Object(
            t.iter().map(|(k, x)| (k.clone(), from_toml(x))).collect(),
        ),
    }
}

/// The model of what reading a text gave: the document, or the report of
/// what is wrong.
pub open spec fn outcome_view(r: Result<JsonValue, String>) -> Result<JsonModel, Seq<char>> {
    match r {
        Ok(v) => Ok(v@),
        Err(e) => Err(e@),
    }
}

/// `str::parse::<toml::Table>`, the parser of `toml`, and the `to_string` of
/// its error: the outcome depends on the text alone, and is what
/// [`toml_document`] names.
#[verifier::external_body]
fn toml_from_str(text: &str) -> (r: Result<JsonValue, String>)
    ensures
        outcome_view(r) == toml_document(text@),
{
    match text.parse::<toml::Table>() {
        Ok(t) => Ok(from_toml(&toml::Value::Table(t))),
        Err(e) => Err(e.to_string()),
    }
}

/// Reads a TOML text; where the text is not well formed, the failure is
/// the parser's report.
pub fn parse_toml(text: &str) -> (r: Result<JsonValue, String>)
    ensures
        outcome_view(r) == toml_document(text@),
{
    toml_from_str(text)
}

} // verus!
