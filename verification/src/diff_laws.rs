//! What holds of every comparison.

use crate::diff::{
    CorpusRequest, DiffRun, Outcome, agree, block_key, bundle_of, case_lines, normalized,
    outcome_of, pinned, pinned_bundle, places_block, state_block_key, stripped, volatile_names,
};
use crate::failure::chained;
use crate::hex::{
    hex_number, hex_value, law_hex_number_reads_back, law_hex_reads_back, without_prefix,
};
use crate::json::{
    Json, JsonTree, compact_text, json_tree, member_trees, pretty_text, same_tree,
};
use crate::text::{decimal, hex, padded};
use vstd::prelude::*;

verus! {

/// No object in `t`, at any depth, has a member with one of the names.
pub open spec fn free_of(t: JsonTree, names: Seq<Seq<char>>) -> bool
    decreases t,
{
    match t {
        JsonTree::Array(items) => forall|i: int|
            0 <= i < items.len() ==> free_of(#[trigger] items[i], names),
        JsonTree::Object(members) => forall|k: Seq<char>|
            members.contains_key(k) ==> !names.contains(k) && free_of(#[trigger] members[k], names),
        _ => true,
    }
}

/// After stripping, no member with one of the names is left at any depth.
pub proof fn law_stripped_is_free(t: JsonTree, names: Seq<Seq<char>>)
    ensures
        free_of(stripped(t, names), names),
    decreases t,
{
    match t {
        JsonTree::Array(items) => {
            let out = stripped(t, names)->Array_0;
            assert forall|i: int| 0 <= i < out.len() implies free_of(#[trigger] out[i], names) by {
                law_stripped_is_free(items[i], names);
            }
        },
        JsonTree::Object(members) => {
            let out = stripped(t, names)->Object_0;
            assert forall|k: Seq<char>| out.contains_key(k) implies !names.contains(k) && free_of(
                #[trigger] out[k],
                names,
            ) by {
                law_stripped_is_free(members[k], names);
            }
        },
        _ => {},
    }
}

/// Stripping leaves a value without such members as it is.
pub proof fn law_free_is_kept(t: JsonTree, names: Seq<Seq<char>>)
    requires
        free_of(t, names),
    ensures
        stripped(t, names) == t,
    decreases t,
{
    match t {
        JsonTree::Array(items) => {
            let out = stripped(t, names)->Array_0;
            assert forall|i: int| 0 <= i < out.len() implies #[trigger] out[i] == items[i] by {
                law_free_is_kept(items[i], names);
            }
            assert(out =~= items);
        },
        JsonTree::Object(members) => {
            let out = stripped(t, names)->Object_0;
            assert forall|k: Seq<char>| members.contains_key(k) implies out.contains_key(k)
                && #[trigger] out[k] == members[k] by {
                assert(free_of(members[k], names));
                law_free_is_kept(members[k], names);
            }
            assert forall|k: Seq<char>| #[trigger] out.dom().contains(k) == members.dom().contains(
                k,
            ) by {
                if members.contains_key(k) {
                    assert(out[k] == members[k]);
                }
            }
            assert(out =~= members);
        },
        _ => {},
    }
}

/// Stripping takes out of an object the members of the names, and keeps every
/// other, stripped itself.
pub proof fn law_stripping_keeps_other_members(
    m: Map<Seq<char>, JsonTree>,
    names: Seq<Seq<char>>,
    name: Seq<char>,
)
    ensures
        stripped(JsonTree::Object(m), names) is Object,
        stripped(JsonTree::Object(m), names).get(name) is Some <==> m.contains_key(name)
            && !names.contains(name),
        m.contains_key(name) && !names.contains(name) ==> stripped(JsonTree::Object(m), names).get(
            name,
        ) == Some(stripped(m[name], names)),
{
}

/// Stripping reaches each item of a list, in its place, and leaves what is neither
/// an object nor a list as it is.
pub proof fn law_stripping_reaches_the_items(
    items: Seq<JsonTree>,
    t: JsonTree,
    names: Seq<Seq<char>>,
)
    ensures
        stripped(JsonTree::Array(items), names) is Array,
        stripped(JsonTree::Array(items), names)->Array_0.len() == items.len(),
        forall|i: int|
            0 <= i < items.len() ==> #[trigger] stripped(
                JsonTree::Array(items),
                names,
            )->Array_0[i] == stripped(items[i], names),
        !(t is Array) && !(t is Object) ==> stripped(t, names) == t,
{
}

/// To strip twice is to strip once.
pub proof fn law_strip_is_idempotent(t: JsonTree, names: Seq<Seq<char>>)
    ensures
        stripped(stripped(t, names), names) == stripped(t, names),
{
    law_stripped_is_free(t, names);
    law_free_is_kept(stripped(t, names), names);
}

/// To strip by one list of names and then by another is to strip by both at once,
/// so that the order of the two does not matter.
pub proof fn law_strips_add_up(t: JsonTree, first: Seq<Seq<char>>, then: Seq<Seq<char>>)
    ensures
        stripped(stripped(t, first), then) == stripped(t, first + then),
        stripped(stripped(t, first), then) == stripped(stripped(t, then), first),
    decreases t,
{
    let both = first + then;
    assert forall|k: Seq<char>| #[trigger] both.contains(k) <==> first.contains(k)
        || then.contains(k) by {
        if first.contains(k) {
            let i = first.index_of(k);
            assert(both[i] == k);
        }
        if then.contains(k) {
            let i = then.index_of(k);
            assert(both[first.len() + i] == k);
        }
        if both.contains(k) {
            let i = both.index_of(k);
            if i < first.len() {
                assert(first[i] == k);
            } else {
                assert(then[i - first.len()] == k);
            }
        }
    }
    let one = stripped(stripped(t, first), then);
    let other = stripped(stripped(t, then), first);
    let at_once = stripped(t, both);
    match t {
        JsonTree::Array(items) => {
            assert forall|i: int| 0 <= i < items.len() implies #[trigger] one->Array_0[i]
                == at_once->Array_0[i] && other->Array_0[i] == at_once->Array_0[i] by {
                law_strips_add_up(items[i], first, then);
            }
            assert(one->Array_0 =~= at_once->Array_0);
            assert(other->Array_0 =~= at_once->Array_0);
        },
        JsonTree::Object(members) => {
            assert forall|k: Seq<char>| members.contains_key(k) implies stripped(
                stripped(#[trigger] members[k], first),
                then,
            ) == stripped(members[k], both) && stripped(stripped(members[k], then), first)
                == stripped(members[k], both) by {
                law_strips_add_up(members[k], first, then);
            }
            assert(one->Object_0 =~= at_once->Object_0);
            assert(other->Object_0 =~= at_once->Object_0);
        },
        _ => {},
    }
}

/// Every value counts as equal to itself.
pub proof fn law_same_is_reflexive(t: JsonTree)
    ensures
        same_tree(t, t),
    decreases t,
{
    match t {
        JsonTree::Array(items) => {
            assert forall|i: int| 0 <= i < items.len() implies same_tree(
                #[trigger] items[i],
                items[i],
            ) by {
                law_same_is_reflexive(items[i]);
            }
        },
        JsonTree::Object(members) => {
            assert forall|k: Seq<char>| members.contains_key(k) implies same_tree(
                #[trigger] members[k],
                members[k],
            ) by {
                law_same_is_reflexive(members[k]);
            }
        },
        _ => {},
    }
}

/// What counts as equal does so in either order.
pub proof fn law_same_is_symmetric(a: JsonTree, b: JsonTree)
    requires
        same_tree(a, b),
    ensures
        same_tree(b, a),
    decreases a,
{
    match (a, b) {
        (JsonTree::Array(x), JsonTree::Array(y)) => {
            assert forall|i: int| 0 <= i < y.len() implies same_tree(#[trigger] y[i], x[i]) by {
                assert(same_tree(x[i], y[i]));
                law_same_is_symmetric(x[i], y[i]);
            }
        },
        (JsonTree::Object(x), JsonTree::Object(y)) => {
            assert forall|k: Seq<char>| y.contains_key(k) implies same_tree(
                #[trigger] y[k],
                x[k],
            ) by {
                assert(x.dom().contains(k));
                assert(same_tree(x[k], y[k]));
                law_same_is_symmetric(x[k], y[k]);
            }
        },
        _ => {},
    }
}

/// Two values that count as equal to a third count as equal.
pub proof fn law_same_is_transitive(a: JsonTree, b: JsonTree, c: JsonTree)
    requires
        same_tree(a, b),
        same_tree(b, c),
    ensures
        same_tree(a, c),
    decreases a,
{
    match (a, b, c) {
        (JsonTree::Array(x), JsonTree::Array(y), JsonTree::Array(z)) => {
            assert forall|i: int| 0 <= i < x.len() implies same_tree(#[trigger] x[i], z[i]) by {
                assert(same_tree(x[i], y[i]));
                assert(same_tree(y[i], z[i]));
                law_same_is_transitive(x[i], y[i], z[i]);
            }
        },
        (JsonTree::Object(x), JsonTree::Object(y), JsonTree::Object(z)) => {
            assert forall|k: Seq<char>| x.contains_key(k) implies same_tree(
                #[trigger] x[k],
                z[k],
            ) by {
                assert(same_tree(x[k], y[k]));
                assert(y.dom().contains(k));
                assert(same_tree(y[k], z[k]));
                law_same_is_transitive(x[k], y[k], z[k]);
            }
        },
        _ => {},
    }
}

/// Agreement of answers is reflexive, symmetric and transitive.
pub proof fn law_agreement_is_an_equivalence(a: JsonTree, b: JsonTree, c: JsonTree)
    ensures
        agree(a, a),
        agree(a, b) ==> agree(b, a),
        agree(a, b) && agree(b, c) ==> agree(a, c),
{
    law_same_is_reflexive(normalized(a));
    if agree(a, b) {
        law_same_is_symmetric(normalized(a), normalized(b));
        if agree(b, c) {
            law_same_is_transitive(normalized(a), normalized(b), normalized(c));
        }
    }
}

/// An answer agrees with itself stripped of the members that differ by nature,
/// and so do two answers that are alike but for such members.
pub proof fn law_volatile_members_do_not_matter(a: JsonTree, b: JsonTree)
    ensures
        agree(a, normalized(a)),
        normalized(a) == normalized(b) ==> agree(a, b),
{
    law_strip_is_idempotent(a, volatile_names());
    law_same_is_reflexive(normalized(a));
}

/// Normalizing takes the transaction hash and the block hash out of an object,
/// and keeps every other member, normalized itself.
pub proof fn law_normalizing_takes_out_two_names(m: Map<Seq<char>, JsonTree>, name: Seq<char>)
    ensures
        normalized(JsonTree::Object(m)) is Object,
        name == "transactionHash"@ || name == "blockHash"@ ==> normalized(JsonTree::Object(m)).get(
            name,
        ) is None,
        name != "transactionHash"@ && name != "blockHash"@ ==> {
            &&& normalized(JsonTree::Object(m)).get(name) is Some <==> m.contains_key(name)
            &&& m.contains_key(name) ==> normalized(JsonTree::Object(m)).get(name) == Some(
                normalized(m[name]),
            )
        },
{
    lemma_two_names(name);
}

proof fn lemma_two_names(name: Seq<char>)
    ensures
        volatile_names().contains(name) <==> name == "transactionHash"@ || name == "blockHash"@,
{
    assert(volatile_names()[0] == "transactionHash"@);
    assert(volatile_names()[1] == "blockHash"@);
}

/// Normalizing reaches each item of a list, in its place, and leaves what is
/// neither an object nor a list as it is.
pub proof fn law_normalizing_reaches_the_items(items: Seq<JsonTree>, t: JsonTree)
    ensures
        normalized(JsonTree::Array(items)) is Array,
        normalized(JsonTree::Array(items))->Array_0.len() == items.len(),
        forall|i: int|
            0 <= i < items.len() ==> #[trigger] normalized(JsonTree::Array(items))->Array_0[i]
                == normalized(items[i]),
        !(t is Array) && !(t is Object) ==> normalized(t) == t,
{
}

/// Two objects agree exactly if they have the same members but for the
/// transaction hash and the block hash, and agree in each of them.
pub proof fn law_objects_agree_member_by_member(
    x: Map<Seq<char>, JsonTree>,
    y: Map<Seq<char>, JsonTree>,
)
    ensures
        agree(JsonTree::Object(x), JsonTree::Object(y)) <==> forall|name: Seq<char>|
            #![trigger x.contains_key(name)]
            #![trigger y.contains_key(name)]
            name != "transactionHash"@ && name != "blockHash"@ ==> {
                &&& x.contains_key(name) <==> y.contains_key(name)
                &&& x.contains_key(name) ==> agree(x[name], y[name])
            },
{
    let a = normalized(JsonTree::Object(x))->Object_0;
    let b = normalized(JsonTree::Object(y))->Object_0;
    assert forall|name: Seq<char>| #[trigger] a.contains_key(name) <==> x.contains_key(name) && name
        != "transactionHash"@ && name != "blockHash"@ by {
        lemma_two_names(name);
    }
    assert forall|name: Seq<char>| #[trigger] b.contains_key(name) <==> y.contains_key(name) && name
        != "transactionHash"@ && name != "blockHash"@ by {
        lemma_two_names(name);
    }
    if agree(JsonTree::Object(x), JsonTree::Object(y)) {
        assert forall|name: Seq<char>|
            #![trigger x.contains_key(name)]
            #![trigger y.contains_key(name)]
            name != "transactionHash"@ && name != "blockHash"@ implies {
            &&& x.contains_key(name) <==> y.contains_key(name)
            &&& x.contains_key(name) ==> agree(x[name], y[name])
        } by {
            assert(a.contains_key(name) <==> x.contains_key(name));
            assert(b.contains_key(name) <==> y.contains_key(name));
            assert(a.dom().contains(name) <==> b.dom().contains(name));
            if x.contains_key(name) {
                assert(same_tree(a[name], b[name]));
            }
        }
    }
    if forall|name: Seq<char>|
        #![trigger x.contains_key(name)]
        #![trigger y.contains_key(name)]
        name != "transactionHash"@ && name != "blockHash"@ ==> {
            &&& x.contains_key(name) <==> y.contains_key(name)
            &&& x.contains_key(name) ==> agree(x[name], y[name])
        } {
        assert forall|name: Seq<char>| #[trigger] a.dom().contains(name) <==> b.dom().contains(
            name,
        ) by {
            assert(a.contains_key(name) <==> b.contains_key(name));
        }
        assert(a.dom() =~= b.dom());
        assert forall|name: Seq<char>| a.contains_key(name) implies same_tree(
            #[trigger] a[name],
            b[name],
        ) by {
            assert(x.contains_key(name));
            assert(b.contains_key(name));
        }
    }
}

/// Two lists agree exactly if they are of one length and agree item by item.
pub proof fn law_lists_agree_item_by_item(x: Seq<JsonTree>, y: Seq<JsonTree>)
    ensures
        agree(JsonTree::Array(x), JsonTree::Array(y)) <==> x.len() == y.len() && forall|i: int|
            0 <= i < x.len() ==> agree(#[trigger] x[i], y[i]),
{
    let a = normalized(JsonTree::Array(x))->Array_0;
    let b = normalized(JsonTree::Array(y))->Array_0;
    if agree(JsonTree::Array(x), JsonTree::Array(y)) {
        assert forall|i: int| 0 <= i < x.len() implies agree(#[trigger] x[i], y[i]) by {
            assert(same_tree(a[i], b[i]));
        }
    }
    if x.len() == y.len() && forall|i: int| 0 <= i < x.len() ==> agree(#[trigger] x[i], y[i]) {
        assert forall|i: int| 0 <= i < a.len() implies same_tree(#[trigger] a[i], b[i]) by {
            assert(agree(x[i], y[i]));
        }
    }
}

/// Values that are neither objects nor lists agree exactly if they count as
/// equal; no object agrees with anything else, and no list.
pub proof fn law_plain_values_agree_if_equal(a: JsonTree, b: JsonTree)
    ensures
        !(a is Object) && !(a is Array) && !(b is Object) && !(b is Array) ==> (agree(a, b)
            <==> same_tree(a, b)),
        agree(a, b) ==> (a is Object <==> b is Object) && (a is Array <==> b is Array),
{
}

/// Two members of different names may change places: the object reads the same.
pub proof fn law_member_order_does_not_matter(members: Seq<(String, Json)>, i: int)
    requires
        0 <= i < members.len() - 1,
        members[i].0@ != members[i + 1].0@,
    ensures
        member_trees(members.update(i, members[i + 1]).update(i + 1, members[i])) == member_trees(
            members,
        ),
    decreases members.len(),
{
    let swapped = members.update(i, members[i + 1]).update(i + 1, members[i]);
    if i + 1 < members.len() - 1 {
        let rest = members.drop_last();
        law_member_order_does_not_matter(rest, i);
        assert(swapped.drop_last() =~= rest.update(i, rest[i + 1]).update(i + 1, rest[i]));
    } else {
        let front = members.take(i);
        let a = members[i];
        let b = members[i + 1];
        assert(members.drop_last().drop_last() =~= front);
        assert(swapped.drop_last().drop_last() =~= front);
        assert(swapped.drop_last().last() == b);
        assert(members.drop_last().last() == a);
        reveal_with_fuel(member_trees, 3);
        let m = member_trees(front);
        assert(m.insert(a.0@, json_tree(a.1)).insert(b.0@, json_tree(b.1)) =~= m.insert(
            b.0@,
            json_tree(b.1),
        ).insert(a.0@, json_tree(a.1)));
    }
}

/// The items of an array may not: if the answers agree after two items have
/// changed places, those two items agree.
pub proof fn law_item_order_matters(items: Seq<JsonTree>, i: int, j: int)
    requires
        0 <= i < items.len(),
        0 <= j < items.len(),
        agree(
            JsonTree::Array(items),
            JsonTree::Array(items.update(i, items[j]).update(j, items[i])),
        ),
    ensures
        agree(items[i], items[j]),
{
    let swapped = items.update(i, items[j]).update(j, items[i]);
    let a = normalized(JsonTree::Array(items))->Array_0;
    let b = normalized(JsonTree::Array(swapped))->Array_0;
    assert(same_tree(a[i], b[i]));
    assert(a[i] == normalized(items[i]));
    assert(b[i] == normalized(swapped[i]));
}

/// A pinned bundle has the members that it had, and those other than the two
/// blocks are as they were.
pub proof fn law_pinning_adds_nothing(m: Map<Seq<char>, JsonTree>, state_block: Seq<char>)
    ensures
        pinned_bundle(m, state_block).dom() == m.dom(),
        forall|k: Seq<char>|
            k != state_block_key() && k != block_key() ==> #[trigger] pinned_bundle(
                m,
                state_block,
            )[k] == m[k],
{
    assert(pinned_bundle(m, state_block).dom() =~= m.dom());
}

/// A pinned bundle runs on the state block, and its calls are placed in the
/// block after it, in so far as it says on which. The block after it reads back
/// as such a number, unless it is beyond 64 bits.
pub proof fn law_pinning_pins(m: Map<Seq<char>, JsonTree>, state_block: Seq<char>)
    requires
        hex_number(state_block) is Some,
    ensures
        m.contains_key(state_block_key()) ==> pinned_bundle(m, state_block)[state_block_key()]
            == JsonTree::Text(state_block),
        m.contains_key(block_key()) ==> {
            let n = hex_number(state_block)->0;
            let placed = pinned_bundle(m, state_block)[block_key()];
            &&& placed == JsonTree::Text("0x"@ + hex((n + 1) as nat))
            &&& hex_value(without_prefix(placed->Text_0)) == n + 1
            &&& n < u64::MAX ==> hex_number(placed->Text_0) == Some((n + 1) as u64)
        },
{
    reveal_strlit("stateBlockNumber");
    reveal_strlit("blockNumber");
    reveal_strlit("0x");
    assert(state_block_key().len() != block_key().len());
    let n = hex_number(state_block)->0;
    let next = "0x"@ + hex((n + 1) as nat);
    law_hex_reads_back((n + 1) as nat);
    assert(next.subrange(0, 2) =~= "0x"@);
    assert(next.skip(2) =~= hex((n + 1) as nat));
    if n < u64::MAX {
        law_hex_number_reads_back((n + 1) as u64);
    }
}

/// Of the parameters of `eth_estimateGasBundle`, pinning changes the members
/// "stateBlockNumber" and "blockNumber" of the first, where they are: the former
/// becomes the state block, the latter the writing of the number after it, if the
/// state block is a number. Everything else stays.
pub proof fn law_a_bundle_is_pinned_by_name(
    items: Seq<JsonTree>,
    m: Map<Seq<char>, JsonTree>,
    state_block: Seq<char>,
    name: Seq<char>,
)
    requires
        items.len() > 0,
        items[0] == JsonTree::Object(m),
    ensures
        ({
            let out = pinned("eth_estimateGasBundle"@, JsonTree::Array(items), state_block);
            let first = out->Array_0[0];
            &&& out is Array
            &&& out->Array_0.len() == items.len()
            &&& forall|i: int| 0 < i < items.len() ==> #[trigger] out->Array_0[i] == items[i]
            &&& first is Object
            &&& first.get(name) is Some <==> m.contains_key(name)
            &&& m.contains_key(name) ==> first.get(name) == Some(
                if name == "stateBlockNumber"@ {
                    JsonTree::Text(state_block)
                } else if name == "blockNumber"@ && hex_number(state_block) is Some {
                    JsonTree::Text("0x"@ + hex((hex_number(state_block)->0 + 1) as nat))
                } else {
                    m[name]
                },
            )
        }),
{
    reveal_strlit("stateBlockNumber");
    reveal_strlit("blockNumber");
    assert("stateBlockNumber"@.len() != "blockNumber"@.len());
    let out = pinned("eth_estimateGasBundle"@, JsonTree::Array(items), state_block);
    assert(out->Array_0[0] == JsonTree::Object(pinned_bundle(m, state_block)));
}

/// Only a bundle whose first parameter has a member "blockNumber" needs the block
/// after the state block.
pub proof fn law_what_needs_the_next_block(method: Seq<char>, params: JsonTree)
    ensures
        places_block(method, params) <==> {
            &&& method == "eth_estimateGasBundle"@
            &&& params is Array
            &&& params->Array_0.len() > 0
            &&& params->Array_0[0].get("blockNumber"@) is Some
        },
{
}

/// Parameters keep their number when they are pinned; those of other methods,
/// and what is no list, stay as they are.
pub proof fn law_pinning_touches_what_is_there(
    method: Seq<char>,
    params: JsonTree,
    state_block: Seq<char>,
)
    ensures
        params.as_array() matches Some(items) ==> {
            &&& pinned(method, params, state_block).as_array() is Some
            &&& pinned(method, params, state_block).as_array()->0.len() == items.len()
        },
        params.as_array() is None ==> pinned(method, params, state_block) == params,
        method != "eth_estimateGasBundle"@ && method != "eth_calls"@ ==> pinned(
            method,
            params,
            state_block,
        ) == params,
{
}

/// Of the parameters of `eth_calls`, the second is pinned to the state block, and
/// the others stay as they are.
pub proof fn law_pinning_sets_the_block_tag(items: Seq<JsonTree>, state_block: Seq<char>)
    requires
        items.len() >= 2,
    ensures
        ({
            let out = pinned("eth_calls"@, JsonTree::Array(items), state_block).as_array();
            &&& out is Some
            &&& out->0.len() == items.len()
            &&& out->0[1] == JsonTree::Text(state_block)
            &&& forall|i: int| 0 <= i < items.len() && i != 1 ==> #[trigger] out->0[i] == items[i]
        }),
{
    reveal_strlit("eth_estimateGasBundle");
    reveal_strlit("eth_calls");
    assert("eth_calls"@.len() != "eth_estimateGasBundle"@.len());
}

/// The later of two pins counts: what was pinned to a block and is then pinned to
/// another is as if it had been pinned to that one alone. This leaves out a
/// placement block that the first pin sets and that the later one, whose block is
/// no number, leaves as it finds it.
pub proof fn law_later_pin_wins(
    method: Seq<char>,
    params: JsonTree,
    first: Seq<char>,
    later: Seq<char>,
)
    requires
        places_block(method, params) && hex_number(first) is Some ==> hex_number(later) is Some,
    ensures
        pinned(method, pinned(method, params, first), later) == pinned(method, params, later),
{
    reveal_strlit("eth_estimateGasBundle");
    reveal_strlit("eth_calls");
    assert("eth_calls"@.len() != "eth_estimateGasBundle"@.len());
    let once = pinned(method, params, first);
    let twice = pinned(method, once, later);
    let direct = pinned(method, params, later);
    match params {
        JsonTree::Array(items) => {
            match bundle_of(method, params) {
                Some(m) => {
                    let p = pinned_bundle(m, first);
                    law_pinning_adds_nothing(m, first);
                    assert(p.dom().contains(block_key()) == m.dom().contains(block_key()));
                    assert(p.dom().contains(state_block_key()) == m.dom().contains(
                        state_block_key(),
                    ));
                    reveal_strlit("stateBlockNumber");
                    reveal_strlit("blockNumber");
                    assert(state_block_key().len() != block_key().len());
                    assert(pinned_bundle(p, later) =~= pinned_bundle(m, later));
                    assert(bundle_of(method, once) == Some(p));
                    assert(twice->Array_0 =~= direct->Array_0);
                },
                None => {
                    if method == "eth_calls"@ && items.len() >= 2 {
                        assert(bundle_of(method, once) is None);
                        assert(twice->Array_0 =~= direct->Array_0);
                    }
                },
            }
        },
        _ => {},
    }
}

/// To pin twice to a block is to pin once.
pub proof fn law_pinning_is_idempotent(method: Seq<char>, params: JsonTree, state_block: Seq<char>)
    ensures
        pinned(method, pinned(method, params, state_block), state_block) == pinned(
            method,
            params,
            state_block,
        ),
{
    law_later_pin_wins(method, params, state_block, state_block);
}

/// A run sends the parameters as they are unless it has a state block, and else
/// pinned to that block.
pub proof fn law_what_is_sent(run: DiffRun, req: CorpusRequest)
    ensures
        run.state_block is None ==> run.sent_params(req) == req.params@ && !run.needs_next_block(
            req,
        ),
        run.state_block matches Some(block) ==> {
            &&& run.sent_params(req) == pinned(req.method@, req.params@, block@)
            &&& run.needs_next_block(req) <==> places_block(req.method@, req.params@)
        },
{
}

/// A case counts as one more, as identical exactly if both endpoints answer and
/// the answers agree, and as different otherwise; nothing else of the run changes.
pub proof fn law_a_case_counts_once(
    run: DiffRun,
    geth: Result<JsonTree, Seq<Seq<char>>>,
    reth: Result<JsonTree, Seq<Seq<char>>>,
)
    requires
        run.wf(),
        run.identical + run.differ < run.total,
    ensures
        ({
            let then = run.after(outcome_of(geth, reth));
            let alike = geth is Ok && reth is Ok && agree(geth->Ok_0, reth->Ok_0);
            &&& then.wf()
            &&& alike ==> then.identical == run.identical + 1 && then.differ == run.differ
            &&& !alike ==> then.identical == run.identical && then.differ == run.differ + 1
            &&& then.total == run.total
            &&& then.verbose == run.verbose
            &&& then.state_block == run.state_block
        }),
{
}

/// The report of a case that both endpoints answered: the raw answers first, if
/// the run is verbose, then the verdict behind the name, and both normalized
/// answers if they do not agree.
pub proof fn law_a_case_is_reported(verbose: bool, name: Seq<char>, g: JsonTree, r: JsonTree)
    ensures
        ({
            let lines = case_lines(verbose, name, Ok(g), Ok(r));
            let v: int = if verbose {
                2
            } else {
                0
            };
            &&& verbose ==> lines[0] == "geth raw: "@ + compact_text(g)
            &&& verbose ==> lines[1] == "reth raw: "@ + compact_text(r)
            &&& agree(g, r) ==> lines.len() == v + 1 && lines[v] == padded(name, 40)
                + " IDENTICAL \u{2713}"@
            &&& !agree(g, r) ==> {
                &&& lines.len() == v + 3
                &&& lines[v] == padded(name, 40) + " DIFFERS \u{2717}"@
                &&& lines[v + 1] == "  --- geth (normalized) ---\n"@ + pretty_text(normalized(g))
                &&& lines[v + 2] == "  --- reth (normalized) ---\n"@ + pretty_text(normalized(r))
            }
        }),
{
}

/// The report of a case that an endpoint did not answer names the endpoints that
/// failed, geth first, each with all that is known of its failure.
pub proof fn law_an_unanswered_case_is_reported(
    verbose: bool,
    name: Seq<char>,
    geth: Result<JsonTree, Seq<Seq<char>>>,
    reth: Result<JsonTree, Seq<Seq<char>>>,
)
    requires
        geth is Err || reth is Err,
    ensures
        ({
            let lines = case_lines(verbose, name, geth, reth);
            &&& lines[0] == padded(name, 40) + " FAILURE \u{2717} (transport error)"@
            &&& geth is Err ==> lines[1] == "  geth error: "@ + chained(geth->Err_0)
            &&& reth is Err ==> lines.last() == "  reth error: "@ + chained(reth->Err_0)
            &&& lines.len() == 1 + (if geth is Err {
                1int
            } else {
                0
            }) + (if reth is Err {
                1int
            } else {
                0
            })
        }),
{
}

/// A verbose run shows each request before it is sent, with the parameters that it
/// is sent with; other runs show nothing.
pub proof fn law_requests_are_shown_on_demand(run: DiffRun, req: CorpusRequest)
    ensures
        !run.verbose ==> run.sending_lines(req).len() == 0,
        run.verbose ==> run.sending_lines(req) == seq![
            "\n=== "@ + req.name@ + " ("@ + req.method@ + ") ===\nrequest params: "@ + pretty_text(
                run.sent_params(req),
            ),
        ],
{
}

/// The last line counts the identical cases, the others, and all requests.
pub proof fn law_the_last_line_counts(run: DiffRun)
    ensures
        run.closing_line() == "\n"@ + decimal(run.identical as nat) + " identical, "@ + decimal(
            run.differ as nat,
        ) + " differ (of "@ + decimal(run.total as nat) + ")"@,
{
}

/// A run after a row of comparisons.
pub open spec fn after_all(run: DiffRun, outcomes: Seq<Outcome>) -> DiffRun
    decreases outcomes.len(),
{
    if outcomes.len() == 0 {
        run
    } else {
        after_all(run, outcomes.drop_last()).after(outcomes.last())
    }
}

/// A run that starts from nothing counts every comparison once, and its exit
/// code tells whether all were identical.
pub proof fn law_every_case_counts(run: DiffRun, outcomes: Seq<Outcome>)
    requires
        run.identical == 0,
        run.differ == 0,
        outcomes.len() <= run.total,
    ensures
        after_all(run, outcomes).wf(),
        after_all(run, outcomes).total == run.total,
        after_all(run, outcomes).compared() == outcomes.len(),
        after_all(run, outcomes).differ == 0 <==> forall|i: int|
            0 <= i < outcomes.len() ==> outcomes[i] is Identical,
        after_all(run, outcomes).code() == 0 <==> forall|i: int|
            0 <= i < outcomes.len() ==> outcomes[i] is Identical,
        after_all(run, outcomes).code() == 0 || after_all(run, outcomes).code() == 1,
    decreases outcomes.len(),
{
    if outcomes.len() > 0 {
        let rest = outcomes.drop_last();
        law_every_case_counts(run, rest);
        assert(forall|i: int| 0 <= i < rest.len() ==> rest[i] == outcomes[i]);
        assert(outcomes.last() == outcomes[outcomes.len() - 1]);
        if forall|i: int| 0 <= i < rest.len() ==> rest[i] is Identical {
            assert(forall|i: int| 0 <= i < rest.len() ==> outcomes[i] == rest[i]);
        } else {
            let j = choose|i: int| 0 <= i < rest.len() && !(rest[i] is Identical);
            assert(outcomes[j] == rest[j]);
        }
    }
}

} // verus!
