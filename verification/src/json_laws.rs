//! What holds of JSON values: what is put in is found again, and what counts as
//! equal.

use crate::diff_laws::law_same_is_reflexive;
use crate::json::{
    Json, JsonNumber, JsonTree, json_tree, json_trees, lemma_json_trees, list, member_trees, object,
    same_number, same_tree, text, uint,
};
use vstd::prelude::*;

verus! {

/// The simplest values: nothing in an object, nothing in a list, the characters
/// of a string, a number.
pub proof fn law_simple_values(s: Seq<char>, n: u64, key: Seq<char>)
    ensures
        object().get(key) is None,
        object().as_object() == Some(Map::<Seq<char>, JsonTree>::empty()),
        list().as_array() == Some(Seq::<JsonTree>::empty()),
        text(s).as_text() == Some(s),
        text(s).as_array() is None,
        text(s).get(key) is None,
        uint(n) == JsonTree::Number(JsonNumber::PosInt(n)),
        list().as_text() is None,
        object().as_text() is None,
        object().as_array() is None,
        list().get(key) is None,
{
}

/// A member that an object is given is found under its name, and under no other;
/// what is no object has no member.
pub proof fn law_members_are_found(
    m: Map<Seq<char>, JsonTree>,
    key: Seq<char>,
    value: JsonTree,
    other: Seq<char>,
)
    ensures
        JsonTree::Object(m).with(key, value).get(key) == Some(value),
        JsonTree::Object(m).with(key, value).at(key) == value,
        other != key ==> JsonTree::Object(m).with(key, value).get(other) == JsonTree::Object(m).get(
            other,
        ),
        JsonTree::Object(m).get(key) is Some <==> m.contains_key(key),
        m.contains_key(key) ==> JsonTree::Object(m).get(key) == Some(m[key]),
        JsonTree::Object(m).get(key) is None ==> JsonTree::Object(m).at(key) is Null,
        !(value is Object) ==> value.get(key) is None && value.at(key) is Null,
{
}

/// An item that a list is given comes last, and the others stay.
pub proof fn law_items_are_found(items: Seq<JsonTree>, value: JsonTree)
    ensures
        JsonTree::Array(items).item(value).as_array() == Some(items.push(value)),
        JsonTree::Array(items).as_array() == Some(items),
        !(value is Array) ==> value.as_array() is None,
        !(value is Text) ==> value.as_text() is None,
        !(value is Object) ==> value.as_object() is None,
{
}

/// Of the members of an object, the last of a name is the one that counts.
pub proof fn law_last_of_a_name_counts(members: Seq<(String, Json)>, i: int)
    requires
        0 <= i < members.len(),
        forall|k: int| i < k < members.len() ==> (#[trigger] members[k]).0@ != members[i].0@,
    ensures
        JsonTree::Object(member_trees(members)).get(members[i].0@) == Some(json_tree(members[i].1)),
    decreases members.len(),
{
    if i < members.len() - 1 {
        let rest = members.drop_last();
        assert forall|k: int| i < k < rest.len() implies (#[trigger] rest[k]).0@ != rest[i].0@ by {
            assert(members[k].0@ != members[i].0@);
        }
        law_last_of_a_name_counts(rest, i);
        assert(members[members.len() - 1].0@ != members[i].0@);
    }
}

/// The items of a list keep their number and their order.
pub proof fn law_items_keep_their_order(items: Seq<Json>, i: int)
    requires
        0 <= i < items.len(),
    ensures
        json_trees(items).len() == items.len(),
        json_trees(items)[i] == json_tree(items[i]),
{
    lemma_json_trees(items);
}

/// No number in `t`, at any depth, is a double.
pub open spec fn without_doubles(t: JsonTree) -> bool
    decreases t,
{
    match t {
        JsonTree::Number(n) => !(n is Float),
        JsonTree::Array(items) => forall|i: int|
            0 <= i < items.len() ==> without_doubles(#[trigger] items[i]),
        JsonTree::Object(members) => forall|k: Seq<char>|
            members.contains_key(k) ==> without_doubles(#[trigger] members[k]),
        _ => true,
    }
}

/// Without doubles, to count as equal is to be the same value.
pub proof fn law_same_is_equal(a: JsonTree, b: JsonTree)
    requires
        without_doubles(a),
    ensures
        same_tree(a, b) <==> a == b,
    decreases a,
{
    if a == b {
        law_same_is_reflexive(a);
    }
    if same_tree(a, b) {
        match (a, b) {
            (JsonTree::Array(x), JsonTree::Array(y)) => {
                assert forall|i: int| 0 <= i < x.len() implies #[trigger] x[i] == y[i] by {
                    assert(same_tree(x[i], y[i]));
                    law_same_is_equal(x[i], y[i]);
                }
                assert(x =~= y);
            },
            (JsonTree::Object(x), JsonTree::Object(y)) => {
                assert forall|k: Seq<char>| x.contains_key(k) implies #[trigger] x[k] == y[k] by {
                    assert(same_tree(x[k], y[k]));
                    assert(without_doubles(x[k]));
                    law_same_is_equal(x[k], y[k]);
                }
                assert(x =~= y);
            },
            _ => {},
        }
    }
}

/// Two doubles count as equal if their bits are the same, or if both are zeros,
/// whatever their signs; a double and an integer never do.
pub proof fn law_doubles_are_compared_by_value(x: u64, y: u64, n: JsonNumber)
    ensures
        same_number(JsonNumber::Float(x), JsonNumber::Float(y)) <==> x == y || ((x == 0 || x
            == 0x8000_0000_0000_0000) && (y == 0 || y == 0x8000_0000_0000_0000)),
        !(n is Float) ==> !same_number(JsonNumber::Float(x), n) && !same_number(
            n,
            JsonNumber::Float(x),
        ),
{
}

} // verus!
