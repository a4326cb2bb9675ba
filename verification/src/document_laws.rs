//! What documents say: how members and items are found, set and compared.
use crate::json::{
    lemma_member_put, lemma_position, lemma_position_is, member, names_distinct, put, put_some, JsonView, NumberView,
};
use crate::wire::Fields;
use vstd::prelude::*;

verus! {

/// Whether member `i` is the first of its name.
pub open spec fn is_first(fields: Fields, i: int) -> bool {
    &&& 0 <= i < fields.len()
    &&& forall|k: int| 0 <= k < i ==> (#[trigger] fields[k]).0 != fields[i].0
}

/// Whether no member has this name.
pub open spec fn lacks(fields: Fields, key: Seq<char>) -> bool {
    forall|k: int| 0 <= k < fields.len() ==> (#[trigger] fields[k]).0 != key
}

/// A member is found by its name, and nothing else is.
pub proof fn law_a_member_is_found_by_its_name(fields: Fields, i: int, key: Seq<char>)
    ensures
        is_first(fields, i) ==> member(fields, fields[i].0) == Some(fields[i].1),
        is_first(fields, i) ==> JsonView::Object(fields).field(fields[i].0) == Some(fields[i].1),
        is_first(fields, i) ==> JsonView::Object(fields).at(fields[i].0) == fields[i].1,
        lacks(fields, key) ==> member(fields, key) is None,
        lacks(fields, key) ==> JsonView::Object(fields).field(key) is None,
        lacks(fields, key) ==> JsonView::Object(fields).at(key) is Null,
{
    if is_first(fields, i) {
        lemma_position_is(fields, fields[i].0, i);
    }
    lemma_position(fields, key);
}

/// Only objects have members, only arrays have items, and only a document of
/// the right kind says a text, a count or a truth.
pub proof fn law_a_document_says_what_its_kind_says(doc: JsonView, key: Seq<char>, i: int)
    ensures
        !(doc is Object) ==> doc.field(key) is None && doc.at(key) is Null,
        !(doc is Array) ==> doc.items() is None && doc.item(i) is Null,
        doc matches JsonView::Array(items) ==> doc.items() == Some(items),
        doc matches JsonView::Array(items) ==> doc.item(i) == (if 0 <= i < items.len() {
            items[i]
        } else {
            JsonView::Null
        }),
        doc matches JsonView::String(text) ==> doc.text() == Some(text),
        !(doc is String) ==> doc.text() is None,
        doc matches JsonView::Bool(truth) ==> doc.truth() == Some(truth),
        !(doc is Bool) ==> doc.truth() is None,
        doc matches JsonView::Number(NumberView::PosInt(n)) ==> doc.natural() == Some(n),
        !(doc is Number) ==> doc.natural() is None,
        doc matches JsonView::Number(NumberView::NegInt(_)) ==> doc.natural() is None,
        doc matches JsonView::Number(NumberView::Float(_)) ==> doc.natural() is None,
{
}

/// Setting a member gives that name that value, leaves every other name alone,
/// keeps the order of what was there, and adds at most one member.
pub proof fn law_a_member_is_set(fields: Fields, key: Seq<char>, value: JsonView, other: Seq<char>)
    ensures
        ({
            let after = put(fields, key, value);
            &&& member(after, key) == Some(value)
            &&& other != key ==> member(after, other) == member(fields, other)
            &&& lacks(fields, key) ==> after == fields.push((key, value))
            &&& !lacks(fields, key) ==> after.len() == fields.len() && forall|k: int|
                0 <= k < fields.len() ==> (#[trigger] after[k]).0 == fields[k].0
            &&& names_distinct(fields) ==> names_distinct(after)
        }),
        put_some(fields, key, Some(value)) == put(fields, key, value),
        put_some(fields, key, None) == fields,
{
    lemma_member_put(fields, key, value, key);
    lemma_member_put(fields, key, value, other);
    lemma_position(fields, key);
    if lacks(fields, key) {
        assert(put(fields, key, value) == fields.push((key, value)));
    } else {
        let k = choose|k: int| 0 <= k < fields.len() && !((#[trigger] fields[k]).0 != key);
        assert(fields[k].0 == key);
    }
}

/// Documents are the same only when they are of one kind and say the same.
pub proof fn law_sameness_is_of_what_is_said(a: JsonView, b: JsonView, i: int, key: Seq<char>)
    requires
        a.same(b),
    ensures
        a is Null <==> b is Null,
        a is Bool <==> b is Bool,
        a is Number <==> b is Number,
        a is String <==> b is String,
        a is Array <==> b is Array,
        a is Object <==> b is Object,
        a.truth() == b.truth(),
        a.text() == b.text(),
        a.natural() == b.natural(),
        a matches JsonView::Array(items) ==> b.items() matches Some(others) && items.len() == others.len(),
        a is Array ==> a.item(i).same(b.item(i)),
        a matches JsonView::Object(fields) && names_distinct(fields) ==> (a.field(key) matches Some(value)
            ==> b.field(key) matches Some(other) && value.same(other)),
        a matches JsonView::Object(fields) ==> b matches JsonView::Object(others) && fields.len()
            == others.len(),
{
    if let JsonView::Object(fields) = a {
        if names_distinct(fields) {
            lemma_position(fields, key);
            let p = crate::json::position(fields, key);
            if p < fields.len() {
                assert(fields[p].0 == key);
            }
        }
    }
}

/// Documents that say the same are the same: leaves by value, arrays item by
/// item, objects by member.
pub proof fn law_what_says_the_same_is_the_same(a: JsonView, b: JsonView)
    ensures
        a is Null && b is Null ==> a.same(b),
        a is Bool && a.truth() == b.truth() ==> a.same(b),
        a is String && a.text() == b.text() ==> a.same(b),
        a.natural() is Some && a.natural() == b.natural() ==> a.same(b),
        a matches JsonView::Array(items) && b matches JsonView::Array(others) && items.len() == others.len() && (forall|
            i: int,
        |
            0 <= i < items.len() ==> (#[trigger] items[i]).same(others[i])) ==> a.same(b),
        a matches JsonView::Object(fields) && b matches JsonView::Object(others) && fields.len() == others.len() && (
        forall|i: int|
            0 <= i < fields.len() ==> (b.field((#[trigger] fields[i]).0) matches Some(value) && fields[i].1.same(
                value,
            ))) ==> a.same(b),
{
}

/// Numbers are the same within their kind: integers by value, and other
/// numbers by what they are written as, but that both zeros are one.
pub proof fn law_when_numbers_are_the_same(m: i64, n: i64, u: u64, v: u64, x: Seq<char>, y: Seq<char>)
    ensures
        ({
            let negative = JsonView::Number(NumberView::NegInt(m));
            let natural = JsonView::Number(NumberView::PosInt(u));
            let float = JsonView::Number(NumberView::Float(x));
            &&& negative.same(JsonView::Number(NumberView::NegInt(n))) <==> m == n
            &&& natural.same(JsonView::Number(NumberView::PosInt(v))) <==> u == v
            &&& x == y ==> float.same(JsonView::Number(NumberView::Float(y)))
            &&& x == "0.0"@ && y == "-0.0"@ ==> float.same(JsonView::Number(NumberView::Float(y)))
            &&& x != y && x != "0.0"@ && x != "-0.0"@ ==> !float.same(JsonView::Number(NumberView::Float(y)))
            &&& !negative.same(natural) && !natural.same(negative)
            &&& !negative.same(float) && !float.same(negative)
            &&& !natural.same(float) && !float.same(natural)
        }),
{
}

} // verus!
