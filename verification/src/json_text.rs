//! JSON text: the outside parser, printer and schema validator, and the
//! conversion between their documents and this library's.
use crate::json::{documents, lemma_model, names_distinct, Json, JsonObject, JsonView, NumberView};
use serde_json::{Number, Value};
use vstd::prelude::*;

verus! {

/// `serde_json::Number`: a JSON number.
#[verifier::external_type_specification]
#[verifier::external_body]
pub struct ExNumber(serde_json::Number);

/// `serde_json::Value`: a JSON document.
#[verifier::external_type_specification]
#[verifier::external_body]
pub struct ExValue(serde_json::Value);

/// What a `serde_json::Number` holds: its integer, or the decimal text it
/// prints as when it is not one.
pub uninterp spec fn number_model(n: serde_json::Number) -> NumberView;

/// What a `serde_json::Value` holds, members in map order.
pub uninterp spec fn document(value: serde_json::Value) -> JsonView;

/// What `serde_json::from_str::<Value>` makes of a text: the document, or the
/// words of its error.
pub uninterp spec fn json_parse(text: Seq<char>) -> Result<JsonView, Seq<char>>;

/// The compact text that a `Value` prints as.
pub uninterp spec fn json_print(doc: JsonView) -> Seq<char>;

/// Whether `jsonschema::validator_for` takes a schema.
pub uninterp spec fn schema_compiles(schema: JsonView) -> bool;

/// The words of the first error that `Validator::validate` reports of an
/// input under a schema, if there is one.
pub uninterp spec fn schema_violation(schema: JsonView, input: JsonView) -> Option<Seq<char>>;

/// The text that the nearest floating-point number of an integer prints as.
pub uninterp spec fn float_of_int(n: int) -> Seq<char>;

/// The view of an optional text.
pub open spec fn text_view(text: Option<String>) -> Option<Seq<char>> {
    match text {
        Some(text) => Some(text@),
        None => None,
    }
}

/// A number taken apart.
pub enum NumberParts {
    PosInt(u64),
    NegInt(i64),
    Float(String),
}

impl NumberParts {
    pub open spec fn model(self) -> NumberView {
        match self {
            NumberParts::PosInt(n) => NumberView::PosInt(n),
            NumberParts::NegInt(n) => NumberView::NegInt(n),
            NumberParts::Float(text) => NumberView::Float(text@),
        }
    }
}

impl NumberView {
    /// The number as a float: an integer becomes the nearest one.
    pub open spec fn as_float(self) -> Seq<char> {
        match self {
            NumberView::PosInt(n) => float_of_int(n as int),
            NumberView::NegInt(n) => float_of_int(n as int),
            NumberView::Float(text) => text,
        }
    }
}

/// `Number::as_u64`, `Number::as_i64` and the `Display` of `Number`: a number
/// is a non-negative integer, a negative integer, or a float known by its
/// printed text.
#[verifier::external_body]
pub(crate) fn number_parts(n: &Number) -> (r: NumberParts)
    ensures
        r.model() == number_model(*n),
{
    match (n.as_u64(), n.as_i64()) {
        (Some(value), _) => NumberParts::PosInt(value),
        (None, Some(value)) => NumberParts::NegInt(value),
        (None, None) => NumberParts::Float(n.to_string()),
    }
}

/// `Number::as_f64` and `Number::from_f64`: a float stays as it is, an
/// integer becomes the nearest float.
#[verifier::external_body]
pub(crate) fn number_to_float(n: &Number) -> (r: Number)
    ensures
        number_model(r) == (match number_model(*n) {
            NumberView::PosInt(value) => NumberView::Float(float_of_int(value as int)),
            NumberView::NegInt(value) => NumberView::Float(float_of_int(value as int)),
            NumberView::Float(text) => NumberView::Float(text),
        }),
{
    n.as_f64().and_then(Number::from_f64).unwrap_or_else(|| n.clone())
}

/// The `Clone` of `Number`: a copy holds what the number holds.
#[verifier::external_body]
pub(crate) fn copy_number(n: &Number) -> (r: Number)
    ensures
        number_model(r) == number_model(*n),
{
    n.clone()
}

/// `Number::from` on an unsigned integer.
#[verifier::external_body]
pub(crate) fn number_from(n: u64) -> (r: Number)
    ensures
        number_model(r) == NumberView::PosInt(n),
{
    Number::from(n)
}

/// One level of a `Value`, borrowed.
pub(crate) enum Opened<'a> {
    Null,
    Bool(bool),
    Number(&'a Number),
    String(&'a String),
    Array(&'a Vec<Value>),
    Object(Vec<(&'a String, &'a Value)>),
}

/// One level of a `Value`, to be put together.
pub(crate) enum Level {
    Null,
    Bool(bool),
    Number(Number),
    String(String),
    Array(Vec<Value>),
    Object(Vec<(String, Value)>),
}

pub(crate) open spec fn values(items: Seq<Value>) -> Seq<JsonView> {
    Seq::new(items.len(), |i: int| document(items[i]))
}

pub(crate) open spec fn borrowed_members(fields: Seq<(&String, &Value)>) -> Seq<(Seq<char>, JsonView)> {
    Seq::new(fields.len(), |i: int| (fields[i].0@, document(*fields[i].1)))
}

pub(crate) open spec fn owned_members(fields: Seq<(String, Value)>) -> Seq<(Seq<char>, JsonView)> {
    Seq::new(fields.len(), |i: int| (fields[i].0@, document(fields[i].1)))
}

impl<'a> Opened<'a> {
    pub(crate) open spec fn model(self) -> JsonView {
        match self {
            Opened::Null => JsonView::Null,
            Opened::Bool(b) => JsonView::Bool(b),
            Opened::Number(n) => JsonView::Number(number_model(*n)),
            Opened::String(s) => JsonView::String(s@),
            Opened::Array(items) => JsonView::Array(values(items@)),
            Opened::Object(fields) => JsonView::Object(borrowed_members(fields@)),
        }
    }
}

impl Level {
    pub(crate) open spec fn model(self) -> JsonView {
        match self {
            Level::Null => JsonView::Null,
            Level::Bool(b) => JsonView::Bool(b),
            Level::Number(n) => JsonView::Number(number_model(n)),
            Level::String(s) => JsonView::String(s@),
            Level::Array(items) => JsonView::Array(values(items@)),
            Level::Object(fields) => JsonView::Object(owned_members(fields@)),
        }
    }
}

/// The variants of `serde_json::Value`, and the iteration of its `Map`: what a
/// value holds is what its variant carries; a map yields each of its members
/// once, and no two have the same name.
#[verifier::external_body]
pub(crate) fn open_value<'a>(value: &'a Value) -> (r: Opened<'a>)
    ensures
        r.model() == document(*value),
        r is Object ==> names_distinct(r.model()->Object_0),
{
    match value {
        Value::Null => Opened::Null,
        Value::Bool(b) => Opened::Bool(*b),
        Value::Number(n) => Opened::Number(n),
        Value::String(s) => Opened::String(s),
        Value::Array(items) => Opened::Array(items),
        Value::Object(map) => Opened::Object(map.iter().collect()),
    }
}

/// The variants of `serde_json::Value`, and the collection of a `Map` from
/// members with distinct names, which keeps their order.
#[verifier::external_body]
pub(crate) fn close_value(level: Level) -> (r: Value)
    requires
        level is Object ==> names_distinct(level.model()->Object_0),
    ensures
        document(r) == level.model(),
{
    match level {
        Level::Null => Value::Null,
        Level::Bool(b) => Value::Bool(b),
        Level::Number(n) => Value::Number(n),
        Level::String(s) => Value::String(s),
        Level::Array(items) => Value::Array(items),
        Level::Object(fields) => Value::Object(fields.into_iter().collect()),
    }
}

/// `serde_json::from_str` into a `Value`, with the words of its error.
#[verifier::external_body]
fn parse_value(text: &str) -> (r: Result<Value, String>)
    ensures
        json_parse(text@) == (match r {
            Ok(value) => Ok(document(value)),
            Err(words) => Err(words@),
        }),
{
    serde_json::from_str::<Value>(text).map_err(|error| error.to_string())
}

/// The `Display` of `Value`: compact JSON text.
#[verifier::external_body]
fn print_value(value: &Value) -> (r: String)
    ensures
        r@ == json_print(document(*value)),
{
    value.to_string()
}

/// `jsonschema::validator_for`, with the words of its error. Nothing is
/// claimed of the words: of several references that cannot be resolved they
/// name the one that a hash order puts first.
#[verifier::external_body]
fn refuse_schema(schema: &Value) -> (r: Option<String>)
    ensures
        r is None == schema_compiles(document(*schema)),
{
    jsonschema::validator_for(schema).err().map(|error| error.to_string())
}

/// `Validator::validate` under a schema that `jsonschema::validator_for`
/// takes, with the words of its error.
#[verifier::external_body]
fn refuse_input(schema: &Value, input: &Value) -> (r: Option<String>)
    requires
        schema_compiles(document(*schema)),
    ensures
        text_view(r) == schema_violation(document(*schema), document(*input)),
{
    let validator = jsonschema::validator_for(schema).expect("a schema that compiles");
    validator.validate(input).err().map(|error| error.to_string())
}

fn json_of_value(value: &Value) -> (r: Json)
    ensures
        r@ == document(*value),
    decreases document(*value),
{
    broadcast use lemma_model;

    match open_value(value) {
        Opened::Null => Json::Null,
        Opened::Bool(b) => Json::Bool(b),
        Opened::Number(n) => Json::Number(copy_number(n)),
        Opened::String(s) => Json::String(s.clone()),
        Opened::Array(items) => {
            let ghost docs = values(items@);
            let mut out: Vec<Json> = Vec::new();
            let mut i: usize = 0;
            while i < items.len()
                invariant
                    i <= items.len(),
                    out.len() == i,
                    docs == values(items@),
                    document(*value) == JsonView::Array(docs),
                    forall|k: int| 0 <= k < i ==> (#[trigger] out@[k])@ == docs[k],
                decreases items.len() - i,
            {
                assert(decreases_to!(document(*value) => document(*value)->Array_0));
                assert(decreases_to!(docs => docs[i as int]));
                out.push(json_of_value(&items[i]));
                i = i + 1;
            }
            assert(documents(out@) =~= docs);
            Json::Array(out)
        },
        Opened::Object(fields) => {
            let ghost docs = borrowed_members(fields@);
            let mut out = JsonObject::new();
            let mut i: usize = 0;
            while i < fields.len()
                invariant
                    i <= fields.len(),
                    docs == borrowed_members(fields@),
                    names_distinct(docs),
                    document(*value) == JsonView::Object(docs),
                    out@ == docs.take(i as int),
                decreases fields.len() - i,
            {
                assert(decreases_to!(document(*value) => document(*value)->Object_0));
                assert(decreases_to!(docs => docs[i as int]));
                assert(decreases_to!(docs[i as int] => docs[i as int].1));
                proof {
                    crate::json::lemma_put_new(docs.take(i as int), docs[i as int].0, docs[i as int].1);
                }
                out = out.with(fields[i].0.as_str(), json_of_value(fields[i].1));
                assert(docs.take(i as int).push(docs[i as int]) =~= docs.take(i + 1));
                i = i + 1;
            }
            assert(docs.take(docs.len() as int) =~= docs);
            Json::Object(out)
        },
    }
}

fn value_of_json(json: &Json) -> (r: Value)
    ensures
        document(r) == json@,
    decreases json,
{
    broadcast use lemma_model;

    match json {
        Json::Null => close_value(Level::Null),
        Json::Bool(b) => close_value(Level::Bool(*b)),
        Json::Number(n) => close_value(Level::Number(copy_number(n))),
        Json::String(s) => close_value(Level::String(s.clone())),
        Json::Array(items) => {
            let mut out: Vec<Value> = Vec::new();
            let mut i: usize = 0;
            while i < items.len()
                invariant
                    i <= items.len(),
                    out.len() == i,
                    *json == Json::Array(*items),
                    forall|k: int| 0 <= k < i ==> document(#[trigger] out@[k]) == items@[k]@,
                decreases items.len() - i,
            {
                assert(decreases_to!(*json => json->Array_0));
                assert(decreases_to!(*items => items@));
                assert(decreases_to!(items@ => items@[i as int]));
                out.push(value_of_json(&items[i]));
                i = i + 1;
            }
            assert(values(out@) =~= documents(items@));
            close_value(Level::Array(out))
        },
        Json::Object(object) => {
            let names = object.names();
            let mut out: Vec<(String, Value)> = Vec::new();
            let mut i: usize = 0;
            while i < names.len()
                invariant
                    i <= names.len() == object@.len(),
                    out.len() == i,
                    *json == Json::Object(*object),
                    forall|k: int| 0 <= k < names.len() ==> (#[trigger] names@[k])@ == object@[k].0,
                    forall|k: int|
                        0 <= k < i ==> (#[trigger] out@[k]).0@ == object@[k].0 && document(out@[k].1)
                            == object@[k].1,
                decreases names.len() - i,
            {
                assert(decreases_to!(*json => json->Object_0));
                let value = object.value_at(i);
                out.push((names[i].clone(), value_of_json(value)));
                i = i + 1;
            }
            assert(owned_members(out@) =~= object@);
            close_value(Level::Object(out))
        },
    }
}

/// Parse JSON text.
pub fn parse_json(text: &str) -> (r: Result<Json, String>)
    ensures
        json_parse(text@) == (match r {
            Ok(json) => Ok(json@),
            Err(words) => Err(words@),
        }),
{
    match parse_value(text) {
        Ok(value) => Ok(json_of_value(&value)),
        Err(words) => Err(words),
    }
}

/// Print a document as compact JSON text.
pub fn print_json(json: &Json) -> (r: String)
    ensures
        r@ == json_print(json@),
{
    print_value(&value_of_json(json))
}

/// What a schema says of an input.
pub enum SchemaOutcome {
    /// The schema itself does not compile, with the words why.
    BadSchema(String),
    /// The input violates the schema, with the words how.
    Violation(String),
    Valid,
}

pub enum SchemaOutcomeView {
    BadSchema(Seq<char>),
    Violation(Seq<char>),
    Valid,
}

impl View for SchemaOutcome {
    type V = SchemaOutcomeView;

    open spec fn view(&self) -> SchemaOutcomeView {
        match *self {
            SchemaOutcome::BadSchema(words) => SchemaOutcomeView::BadSchema(words@),
            SchemaOutcome::Violation(words) => SchemaOutcomeView::Violation(words@),
            SchemaOutcome::Valid => SchemaOutcomeView::Valid,
        }
    }
}

/// What a schema says of an input, when `said` are the words in which a schema
/// that does not compile is refused. An input is looked at only under a schema
/// that compiles.
pub open spec fn schema_outcome(schema: JsonView, input: JsonView, said: Seq<char>) -> SchemaOutcomeView {
    if !schema_compiles(schema) {
        SchemaOutcomeView::BadSchema(said)
    } else {
        match schema_violation(schema, input) {
            Some(words) => SchemaOutcomeView::Violation(words),
            None => SchemaOutcomeView::Valid,
        }
    }
}

/// Validate an input against a JSON Schema. The words in which a schema is
/// refused are left open: of several references that cannot be resolved they
/// name any one.
pub fn check_schema(schema: &Json, input: &Json) -> (r: SchemaOutcome)
    ensures
        exists|said: Seq<char>| r@ == #[trigger] schema_outcome(schema@, input@, said),
{
    let schema_value = value_of_json(schema);
    match refuse_schema(&schema_value) {
        Some(words) => {
            assert(schema_outcome(schema@, input@, words@) == SchemaOutcomeView::BadSchema(words@));
            SchemaOutcome::BadSchema(words)
        },
        None => {
            let ghost told = schema_outcome(schema@, input@, seq![]);
            match refuse_input(&schema_value, &value_of_json(input)) {
                Some(words) => SchemaOutcome::Violation(words),
                None => SchemaOutcome::Valid,
            }
        },
    }
}

} // verus!
