//! What JSON documents hold.

use vstd::prelude::*;

use crate::json::{Json, Tree};
use crate::json;

verus! {

/// A field that is put into an object is there, and all other fields are as they were.
pub proof fn law_fields_are_kept(
    object: Tree,
    key: Seq<char>,
    value: Tree,
    text: Seq<char>,
    other: Seq<char>,
)
    requires
        object is Object,
        other != key,
    ensures
        object.with(key, value) is Object,
        object.with(key, value).field(key) == Some(value),
        object.with(key, value).field(other) == object.field(other),
        object.with_text(key, text).field(key) == Some(Tree::Str(text)),
        object.with_text(key, text).field(other) == object.field(other),
        Tree::object().field(other) is None,
{
}

/// An item that is put into a list comes last, and all others stay where they were.
pub proof fn law_items_are_kept(list: Tree, value: Tree, text: Seq<char>, i: int)
    requires
        list is Array,
        0 <= i < list->Array_0.len(),
    ensures
        list.item(value) is Array,
        list.item(value)->Array_0.len() == list->Array_0.len() + 1,
        list.item(value)->Array_0.last() == value,
        list.item(value)->Array_0[i] == list->Array_0[i],
        list.item_text(text) == list.item(Tree::Str(text)),
        Tree::list()->Array_0.len() == 0,
{
}

/// A document says what it is written with: numbers, texts and lists as they are.
pub proof fn law_values_are_what_they_hold(value: Json)
    ensures
        value is Null ==> value.tree() is Null,
        value matches Json::Bool(b) ==> value.tree() == Tree::Bool(b),
        value matches Json::Int(n) ==> value.tree() == Tree::Int(n as int),
        value matches Json::Str(s) ==> value.tree() == Tree::Str(s@),
        value matches Json::Array(items) ==> value.tree() is Array && value.tree()->Array_0.len()
            == items@.len() && forall|i: int|
            0 <= i < items@.len() ==> (#[trigger] value.tree()->Array_0[i]) == items@[i].tree(),
{
    if let Json::Array(items) = value {
        lemma_trees(items@);
    }
}

proof fn lemma_trees(items: Seq<Json>)
    ensures
        json::trees(items).len() == items.len(),
        forall|i: int|
            0 <= i < items.len() ==> (#[trigger] json::trees(items)[i]) == items[i].tree(),
    decreases items.len(),
{
    if items.len() > 0 {
        lemma_trees(items.drop_last());
    }
}

/// A field of an object holds the value that was written last under its name.
pub proof fn law_later_fields_count(fields: Vec<(String, Json)>, i: int)
    requires
        0 <= i < fields@.len(),
        forall|j: int| i < j < fields@.len() ==> (#[trigger] fields@[j]).0@ != fields@[i].0@,
    ensures
        Json::Object(fields).tree().field(fields@[i].0@) == Some(fields@[i].1.tree()),
{
    lemma_field(fields@, i);
}

proof fn lemma_field(fields: Seq<(String, Json)>, i: int)
    requires
        0 <= i < fields.len(),
        forall|j: int| i < j < fields.len() ==> (#[trigger] fields[j]).0@ != fields[i].0@,
    ensures
        json::fields_of(fields).dom().contains(fields[i].0@),
        json::fields_of(fields)[fields[i].0@] == fields[i].1.tree(),
    decreases fields.len(),
{
    if i < fields.len() - 1 {
        let earlier = fields.drop_last();
        assert(earlier[i] == fields[i]);
        assert forall|j: int| i < j < earlier.len() implies (#[trigger] earlier[j]).0@
            != earlier[i].0@ by {
            assert(earlier[j] == fields[j]);
        }
        lemma_field(earlier, i);
        assert(fields.last() == fields[fields.len() - 1]);
    }
}

} // verus!
