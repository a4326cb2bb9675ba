//! JSON documents as plain data, and the order-aware model the contracts use.
use crate::json_text::{copy_number, number_model, number_parts, NumberParts};
use serde_json::Number;
use vstd::prelude::*;

verus! {

/// A number as a JSON document carries it.
pub enum NumberView {
    /// A non-negative integer.
    PosInt(u64),
    /// A negative integer.
    NegInt(i64),
    /// Any other finite number, by its shortest decimal rendering.
    Float(Seq<char>),
}

/// What a JSON document says. Objects keep their members in document order.
#[verifier::ext_equal]
pub enum JsonView {
    Null,
    Bool(bool),
    Number(NumberView),
    String(Seq<char>),
    Array(Seq<JsonView>),
    Object(Seq<(Seq<char>, JsonView)>),
}

/// The members of an object: no two carry the same name.
pub open spec fn names_distinct(fields: Seq<(Seq<char>, JsonView)>) -> bool {
    forall|i: int, j: int| 0 <= i < j < fields.len() ==> (#[trigger] fields[i]).0 != (#[trigger] fields[j]).0
}

/// The index of the first member called `key`, or the number of members.
pub open spec fn position(fields: Seq<(Seq<char>, JsonView)>, key: Seq<char>) -> int
    decreases fields.len(),
{
    if fields.len() == 0 || fields[0].0 == key {
        0
    } else {
        1 + position(fields.drop_first(), key)
    }
}

/// The value of the first member called `key`.
pub open spec fn member(fields: Seq<(Seq<char>, JsonView)>, key: Seq<char>) -> Option<JsonView> {
    if position(fields, key) < fields.len() {
        Some(fields[position(fields, key)].1)
    } else {
        None
    }
}

/// The members after `key` was set to `value`: an existing member keeps its
/// place, a new one goes to the end.
pub open spec fn put(fields: Seq<(Seq<char>, JsonView)>, key: Seq<char>, value: JsonView) -> Seq<
    (Seq<char>, JsonView),
> {
    if position(fields, key) < fields.len() {
        fields.update(position(fields, key), (key, value))
    } else {
        fields.push((key, value))
    }
}

/// The members after `key` was set, if there is a value for it.
pub open spec fn put_some(
    fields: Seq<(Seq<char>, JsonView)>,
    key: Seq<char>,
    value: Option<JsonView>,
) -> Seq<(Seq<char>, JsonView)> {
    match value {
        Some(value) => put(fields, key, value),
        None => fields,
    }
}

/// Both zero renderings denote one number; every other number has one rendering.
pub open spec fn same_float(a: Seq<char>, b: Seq<char>) -> bool {
    a == b || (is_zero(a) && is_zero(b))
}

pub open spec fn is_zero(text: Seq<char>) -> bool {
    text == "0.0"@ || text == "-0.0"@
}

impl NumberView {
    /// Numbers compare within their kind: `1` and `1.0` differ.
    pub open spec fn same(self, other: NumberView) -> bool {
        match (self, other) {
            (NumberView::PosInt(a), NumberView::PosInt(b)) => a == b,
            (NumberView::NegInt(a), NumberView::NegInt(b)) => a == b,
            (NumberView::Float(a), NumberView::Float(b)) => same_float(a, b),
            _ => false,
        }
    }
}

impl JsonView {
    /// The member `key` of an object; nothing on any other document.
    pub open spec fn field(self, key: Seq<char>) -> Option<JsonView> {
        match self {
            JsonView::Object(fields) => member(fields, key),
            _ => None,
        }
    }

    /// The member `key`, with `null` standing for a missing one.
    pub open spec fn at(self, key: Seq<char>) -> JsonView {
        match self.field(key) {
            Some(value) => value,
            None => JsonView::Null,
        }
    }

    /// Element `i` of an array, with `null` standing for a missing one.
    pub open spec fn item(self, i: int) -> JsonView {
        match self {
            JsonView::Array(items) if 0 <= i < items.len() => items[i],
            _ => JsonView::Null,
        }
    }

    pub open spec fn text(self) -> Option<Seq<char>> {
        match self {
            JsonView::String(s) => Some(s),
            _ => None,
        }
    }

    pub open spec fn items(self) -> Option<Seq<JsonView>> {
        match self {
            JsonView::Array(items) => Some(items),
            _ => None,
        }
    }

    pub open spec fn natural(self) -> Option<u64> {
        match self {
            JsonView::Number(NumberView::PosInt(n)) => Some(n),
            _ => None,
        }
    }

    pub open spec fn truth(self) -> Option<bool> {
        match self {
            JsonView::Bool(b) => Some(b),
            _ => None,
        }
    }

    /// Document equality: numbers by value within their kind, arrays item by
    /// item, objects by member whatever the order.
    pub open spec fn same(self, other: JsonView) -> bool
        decreases self,
    {
        match (self, other) {
            (JsonView::Null, JsonView::Null) => true,
            (JsonView::Bool(a), JsonView::Bool(b)) => a == b,
            (JsonView::Number(a), JsonView::Number(b)) => a.same(b),
            (JsonView::String(a), JsonView::String(b)) => a == b,
            (JsonView::Array(a), JsonView::Array(b)) => {
                a.len() == b.len() && forall|i: int| 0 <= i < a.len() ==> (#[trigger] a[i]).same(b[i])
            },
            (JsonView::Object(a), JsonView::Object(b)) => {
                a.len() == b.len() && forall|i: int|
                    0 <= i < a.len() ==> match member(b, (#[trigger] a[i]).0) {
                        Some(value) => a[i].1.same(value),
                        None => false,
                    }
            },
            _ => false,
        }
    }
}

pub proof fn lemma_position(fields: Seq<(Seq<char>, JsonView)>, key: Seq<char>)
    ensures
        0 <= position(fields, key) <= fields.len(),
        forall|k: int| 0 <= k < position(fields, key) ==> (#[trigger] fields[k]).0 != key,
        position(fields, key) < fields.len() ==> fields[position(fields, key)].0 == key,
    decreases fields.len(),
{
    if fields.len() > 0 && fields[0].0 != key {
        lemma_position(fields.drop_first(), key);
        assert forall|k: int| 0 <= k < position(fields, key) implies (#[trigger] fields[k]).0 != key by {
            if k > 0 {
                assert(fields[k] == fields.drop_first()[k - 1]);
            }
        }
    }
}

pub proof fn lemma_position_is(fields: Seq<(Seq<char>, JsonView)>, key: Seq<char>, i: int)
    requires
        0 <= i <= fields.len(),
        forall|k: int| 0 <= k < i ==> (#[trigger] fields[k]).0 != key,
        i < fields.len() ==> fields[i].0 == key,
    ensures
        position(fields, key) == i,
{
    lemma_position(fields, key);
    if position(fields, key) < i {
        assert(fields[position(fields, key)].0 == key);
    }
    if i < position(fields, key) {
        assert(fields[i].0 != key);
    }
}

/// Setting a name that is not there adds a member at the end.
pub proof fn lemma_put_new(fields: Seq<(Seq<char>, JsonView)>, key: Seq<char>, value: JsonView)
    requires
        forall|k: int| 0 <= k < fields.len() ==> (#[trigger] fields[k]).0 != key,
    ensures
        put(fields, key, value) == fields.push((key, value)),
{
    lemma_position(fields, key);
}

/// What a member is after `key` was set.
pub proof fn lemma_member_put(
    fields: Seq<(Seq<char>, JsonView)>,
    key: Seq<char>,
    value: JsonView,
    wanted: Seq<char>,
)
    ensures
        member(put(fields, key, value), wanted) == (if wanted == key {
            Some(value)
        } else {
            member(fields, wanted)
        }),
{
    let after = put(fields, key, value);
    lemma_position(fields, key);
    lemma_position(fields, wanted);
    lemma_position(after, wanted);
    let at = position(fields, key);
    if wanted == key {
        assert(after[at].0 == key);
        assert forall|k: int| 0 <= k < at implies (#[trigger] after[k]).0 != key by {
            assert(fields[k].0 != key);
        }
        lemma_position_is(after, wanted, at);
    } else {
        let p = position(fields, wanted);
        assert forall|k: int| 0 <= k < p implies (#[trigger] after[k]).0 != wanted by {
            if k < fields.len() {
                assert(fields[k].0 != wanted);
            }
        }
        if p < fields.len() {
            assert(p != at);
            assert(after[p] == fields[p]);
            lemma_position_is(after, wanted, p);
        } else {
            lemma_position_is(after, wanted, after.len() as int);
        }
    }
}

/// The members of a JSON object. No two members have the same name.
pub struct JsonObject {
    fields: Vec<(String, Json)>,
}

/// A JSON document.
pub enum Json {
    Null,
    Bool(bool),
    Number(Number),
    String(String),
    Array(Vec<Json>),
    Object(JsonObject),
}

impl View for JsonObject {
    type V = Seq<(Seq<char>, JsonView)>;

    open spec fn view(&self) -> Seq<(Seq<char>, JsonView)> {
        self.members()
    }
}

impl View for Json {
    type V = JsonView;

    open spec fn view(&self) -> JsonView {
        self.model()
    }
}

/// What a list of documents says, one by one.
pub open spec fn documents(items: Seq<Json>) -> Seq<JsonView> {
    Seq::new(items.len(), |i: int| items[i]@)
}

impl JsonObject {
    pub closed spec fn members(self) -> Seq<(Seq<char>, JsonView)>
        decreases self,
    {
        Seq::new(
            self.fields@.len(),
            |i: int|
                if 0 <= i < self.fields@.len() {
                    (self.fields@[i].0@, self.fields@[i].1.model())
                } else {
                    (Seq::empty(), JsonView::Null)
                },
        )
    }

    #[verifier::type_invariant]
    closed spec fn distinct(self) -> bool {
        forall|i: int, j: int|
            0 <= i < j < self.fields@.len() ==> (#[trigger] self.fields@[i]).0@ != (#[trigger] self.fields@[j]).0@
    }
}

impl Json {
    pub closed spec fn model(self) -> JsonView
        decreases self,
    {
        match self {
            Json::Null => JsonView::Null,
            Json::Bool(b) => JsonView::Bool(b),
            Json::Number(n) => JsonView::Number(number_model(n)),
            Json::String(s) => JsonView::String(s@),
            Json::Array(items) => JsonView::Array(
                Seq::new(
                    items@.len(),
                    |i: int|
                        if 0 <= i < items@.len() {
                            items@[i].model()
                        } else {
                            JsonView::Null
                        },
                ),
            ),
            Json::Object(object) => JsonView::Object(object.members()),
        }
    }
}

/// What each kind of document says.
pub broadcast proof fn lemma_model(json: Json)
    ensures
        #[trigger] json.model() == (match json {
            Json::Null => JsonView::Null,
            Json::Bool(b) => JsonView::Bool(b),
            Json::Number(n) => JsonView::Number(number_model(n)),
            Json::String(s) => JsonView::String(s@),
            Json::Array(items) => JsonView::Array(documents(items@)),
            Json::Object(object) => JsonView::Object(object@),
        }),
{
    if let Json::Array(items) = json {
        assert(json.model()->Array_0 =~= documents(items@));
    }
}

impl JsonObject {
    pub fn new() -> (r: JsonObject)
        ensures
            r@ == Seq::<(Seq<char>, JsonView)>::empty(),
    {
        let r = JsonObject { fields: Vec::new() };
        assert(r@ =~= Seq::<(Seq<char>, JsonView)>::empty());
        r
    }

    pub fn len(&self) -> (r: usize)
        ensures
            r == self@.len(),
    {
        self.fields.len()
    }

    /// The members have distinct names.
    pub fn names(&self) -> (r: Vec<String>)
        ensures
            r@.len() == self@.len(),
            forall|i: int| 0 <= i < r@.len() ==> (#[trigger] r@[i])@ == self@[i].0,
            names_distinct(self@),
    {
        proof {
            use_type_invariant(self);
        }
        let mut names: Vec<String> = Vec::new();
        let mut i: usize = 0;
        while i < self.fields.len()
            invariant
                i <= self.fields.len(),
                names.len() == i,
                forall|k: int| 0 <= k < i ==> (#[trigger] names@[k])@ == self@[k].0,
            decreases self.fields.len() - i,
        {
            names.push(self.fields[i].0.clone());
            i = i + 1;
        }
        assert forall|i: int, j: int| 0 <= i < j < self@.len() implies (#[trigger] self@[i]).0 != (
        #[trigger] self@[j]).0 by {
            assert(self.fields@[i].0@ != self.fields@[j].0@);
        }
        names
    }

    /// The index of the member called `key`, or the number of members.
    pub fn find(&self, key: &str) -> (r: usize)
        ensures
            r == position(self@, key@),
    {
        let wanted = key.to_owned();
        let mut i: usize = 0;
        while i < self.fields.len()
            invariant
                i <= self.fields.len(),
                wanted@ == key@,
                forall|k: int| 0 <= k < i ==> (#[trigger] self@[k]).0 != key@,
            decreases self.fields.len() - i,
        {
            if self.fields[i].0 == wanted {
                proof {
                    lemma_position_is(self@, key@, i as int);
                }
                return i;
            }
            i = i + 1;
        }
        proof {
            lemma_position_is(self@, key@, i as int);
        }
        i
    }

    pub fn name_at(&self, i: usize) -> (r: &String)
        requires
            i < self@.len(),
        ensures
            r@ == self@[i as int].0,
    {
        &self.fields[i].0
    }

    pub fn value_at(&self, i: usize) -> (r: &Json)
        requires
            i < self@.len(),
        ensures
            r@ == self@[i as int].1,
            decreases_to!(*self => *r),
    {
        assert(decreases_to!(*self => self.fields));
        assert(decreases_to!(self.fields => self.fields@));
        assert(decreases_to!(self.fields@ => self.fields@[i as int]));
        assert(decreases_to!(self.fields@[i as int] => self.fields@[i as int].1));
        &self.fields[i].1
    }

    /// The value of the member called `key`.
    pub fn get(&self, key: &str) -> (r: Option<&Json>)
        ensures
            match r {
                Some(value) => member(self@, key@) == Some(value@),
                None => member(self@, key@) is None,
            },
    {
        let i: usize = self.find(key);
        if i < self.fields.len() {
            Some(&self.fields[i].1)
        } else {
            None
        }
    }

    /// This object with `key` set when there is a value for it.
    pub fn with_some(self, key: &str, value: Option<Json>) -> (r: JsonObject)
        ensures
            r@ == put_some(self@, key@, match value {
                Some(value) => Some(value@),
                None => None,
            }),
    {
        match value {
            Some(value) => self.with(key, value),
            None => self,
        }
    }

    /// This object with `key` set to `value`.
    pub fn with(self, key: &str, value: Json) -> (r: JsonObject)
        ensures
            r@ == put(self@, key@, value@),
    {
        proof {
            use_type_invariant(&self);
            lemma_position(self@, key@);
        }
        let ghost before = self@;
        let i: usize = self.find(key);
        let mut fields = self.fields;
        if i < fields.len() {
            fields.set(i, (key.to_owned(), value));
        } else {
            assert forall|k: int| 0 <= k < fields@.len() implies (#[trigger] fields@[k]).0@ != key@ by {
                assert(before[k].0 != key@);
            }
            fields.push((key.to_owned(), value));
        }
        assert forall|a: int, b: int| 0 <= a < b < fields@.len() implies (#[trigger] fields@[a]).0@ != (
        #[trigger] fields@[b]).0@ by {
            if a != i && b != i {
                assert(self.fields@[a].0@ != self.fields@[b].0@);
            } else if i < self.fields@.len() {
                assert(self.fields@[a].0@ != self.fields@[b].0@);
                assert(before[i as int].0 == key@);
            }
        }
        let r = JsonObject { fields };
        assert(r@ =~= put(before, key@, value@));
        r
    }
}

impl JsonObject {
    pub fn copy(&self) -> (r: JsonObject)
        ensures
            r@ == self@,
        decreases self,
    {
        proof {
            use_type_invariant(self);
        }
        let mut fields: Vec<(String, Json)> = Vec::new();
        let mut i: usize = 0;
        while i < self.fields.len()
            invariant
                i <= self.fields.len(),
                fields.len() == i,
                forall|k: int|
                    0 <= k < i ==> (#[trigger] fields@[k]).0@ == self.fields@[k].0@ && fields@[k].1.model()
                        == self.fields@[k].1.model(),
            decreases self.fields.len() - i,
        {
            assert(decreases_to!(*self => self.fields));
            assert(decreases_to!(self.fields => self.fields@));
            assert(decreases_to!(self.fields@ => self.fields@[i as int]));
            assert(decreases_to!(self.fields@[i as int] => self.fields@[i as int].1));
            fields.push((self.fields[i].0.clone(), self.fields[i].1.copy()));
            i = i + 1;
        }
        assert forall|a: int, b: int| 0 <= a < b < fields@.len() implies (#[trigger] fields@[a]).0@ != (
        #[trigger] fields@[b]).0@ by {
            assert(self.fields@[a].0@ != self.fields@[b].0@);
        }
        let r = JsonObject { fields };
        assert(r@ =~= self@);
        r
    }
}

impl Json {
    pub fn copy(&self) -> (r: Json)
        ensures
            r@ == self@,
        decreases self,
    {
        broadcast use lemma_model;

        match self {
            Json::Null => Json::Null,
            Json::Bool(b) => Json::Bool(*b),
            Json::Number(n) => Json::Number(copy_number(n)),
            Json::String(s) => Json::String(s.clone()),
            Json::Array(items) => {
                assert(decreases_to!(*self => self->Array_0));
                let copies = copy_items(items);
                assert(documents(copies@) =~= documents(items@));
                Json::Array(copies)
            },
            Json::Object(object) => {
                assert(decreases_to!(*self => self->Object_0));
                Json::Object(object.copy())
            },
        }
    }

    /// The member `key`, when this is an object that has it.
    pub fn get(&self, key: &str) -> (r: Option<&Json>)
        ensures
            match r {
                Some(value) => self@.field(key@) == Some(value@),
                None => self@.field(key@) is None,
            },
    {
        broadcast use lemma_model;

        match self {
            Json::Object(object) => object.get(key),
            _ => None,
        }
    }

    /// Element `i`, when this is an array that has it.
    pub fn get_item(&self, i: usize) -> (r: Option<&Json>)
        ensures
            match r {
                Some(value) => self@ is Array && i < self@->Array_0.len() && self@->Array_0[i as int] == value@,
                None => self@ is Array ==> self@->Array_0.len() <= i,
            },
    {
        broadcast use lemma_model;

        match self {
            Json::Array(items) => {
                if i < items.len() {
                    Some(&items[i])
                } else {
                    None
                }
            },
            _ => None,
        }
    }

    pub fn is_null(&self) -> (r: bool)
        ensures
            r == (self@ is Null),
    {
        broadcast use lemma_model;

        match self {
            Json::Null => true,
            _ => false,
        }
    }

    pub fn as_str(&self) -> (r: Option<&String>)
        ensures
            match r {
                Some(text) => self@.text() == Some(text@),
                None => self@.text() is None,
            },
    {
        broadcast use lemma_model;

        match self {
            Json::String(text) => Some(text),
            _ => None,
        }
    }

    pub fn as_array(&self) -> (r: Option<&Vec<Json>>)
        ensures
            match r {
                Some(items) => self@.items() == Some(documents(items@)),
                None => self@.items() is None,
            },
    {
        broadcast use lemma_model;

        match self {
            Json::Array(items) => Some(items),
            _ => None,
        }
    }

    pub fn as_bool(&self) -> (r: Option<bool>)
        ensures
            r == self@.truth(),
    {
        broadcast use lemma_model;

        match self {
            Json::Bool(b) => Some(*b),
            _ => None,
        }
    }

    pub fn as_u64(&self) -> (r: Option<u64>)
        ensures
            r == self@.natural(),
    {
        broadcast use lemma_model;

        match self {
            Json::Number(n) => match number_parts(n) {
                NumberParts::PosInt(value) => Some(value),
                _ => None,
            },
            _ => None,
        }
    }

    /// The text of a string member, when there is one.
    pub fn get_str(&self, key: &str) -> (r: Option<&String>)
        ensures
            match r {
                Some(text) => self@.at(key@).text() == Some(text@),
                None => self@.at(key@).text() is None,
            },
    {
        match self.get(key) {
            Some(value) => value.as_str(),
            None => None,
        }
    }

    pub fn string(text: &str) -> (r: Json)
        ensures
            r@ == JsonView::String(text@),
    {
        broadcast use lemma_model;

        Json::String(text.to_owned())
    }

    /// Document equality.
    pub fn same(&self, other: &Json) -> (r: bool)
        ensures
            r == self@.same(other@),
        decreases self,
    {
        broadcast use lemma_model;

        match (self, other) {
            (Json::Null, Json::Null) => true,
            (Json::Bool(a), Json::Bool(b)) => *a == *b,
            (Json::Number(a), Json::Number(b)) => same_number(a, b),
            (Json::String(a), Json::String(b)) => *a == *b,
            (Json::Array(a), Json::Array(b)) => {
                assert(decreases_to!(*self => self->Array_0));
                same_items(a, b)
            },
            (Json::Object(a), Json::Object(b)) => {
                assert(decreases_to!(*self => self->Object_0));
                same_members(a, b)
            },
            _ => false,
        }
    }
}

/// Documents copied one by one.
pub fn copy_items(items: &Vec<Json>) -> (r: Vec<Json>)
    ensures
        documents(r@) == documents(items@),
    decreases items,
{
    let mut copies: Vec<Json> = Vec::new();
    let mut i: usize = 0;
    while i < items.len()
        invariant
            i <= items.len(),
            copies.len() == i,
            forall|k: int| 0 <= k < i ==> (#[trigger] copies@[k])@ == items@[k]@,
        decreases items.len() - i,
    {
        assert(decreases_to!(*items => items@));
        assert(decreases_to!(items@ => items@[i as int]));
        copies.push(items[i].copy());
        i = i + 1;
    }
    assert(documents(copies@) =~= documents(items@));
    copies
}

fn same_items(a: &Vec<Json>, b: &Vec<Json>) -> (r: bool)
    ensures
        r == JsonView::Array(documents(a@)).same(JsonView::Array(documents(b@))),
    decreases a,
{
    if a.len() != b.len() {
        return false;
    }
    let mut i: usize = 0;
    while i < a.len()
        invariant
            i <= a.len() == b.len(),
            forall|k: int| 0 <= k < i ==> (#[trigger] documents(a@)[k]).same(documents(b@)[k]),
        decreases a.len() - i,
    {
        assert(decreases_to!(*a => a@));
        assert(decreases_to!(a@ => a@[i as int]));
        if !a[i].same(&b[i]) {
            assert(!documents(a@)[i as int].same(documents(b@)[i as int]));
            return false;
        }
        i = i + 1;
    }
    true
}

fn same_members(a: &JsonObject, b: &JsonObject) -> (r: bool)
    ensures
        r == JsonView::Object(a@).same(JsonView::Object(b@)),
    decreases a,
{
    if a.len() != b.len() {
        return false;
    }
    let mut i: usize = 0;
    while i < a.len()
        invariant
            i <= a@.len() == b@.len(),
            forall|k: int|
                0 <= k < i ==> match member(b@, (#[trigger] a@[k]).0) {
                    Some(value) => a@[k].1.same(value),
                    None => false,
                },
        decreases a@.len() - i,
    {
        let value = a.value_at(i);
        match b.get(a.name_at(i).as_str()) {
            Some(other) => {
                if !value.same(other) {
                    return false;
                }
            },
            None => {
                return false;
            },
        }
        i = i + 1;
    }
    true
}

/// Number equality.
pub fn same_number(a: &Number, b: &Number) -> (r: bool)
    ensures
        r == number_model(*a).same(number_model(*b)),
{
    match (number_parts(a), number_parts(b)) {
        (NumberParts::PosInt(x), NumberParts::PosInt(y)) => x == y,
        (NumberParts::NegInt(x), NumberParts::NegInt(y)) => x == y,
        (NumberParts::Float(x), NumberParts::Float(y)) => {
            x == y || (is_zero_text(&x) && is_zero_text(&y))
        },
        _ => false,
    }
}

fn is_zero_text(text: &String) -> (r: bool)
    ensures
        r == is_zero(text@),
{
    let zero = "0.0".to_owned();
    let minus_zero = "-0.0".to_owned();
    *text == zero || *text == minus_zero
}

} // verus!
