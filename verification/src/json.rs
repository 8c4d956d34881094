//! JSON values.
//!
//! `Json` is the value the rest of the crate reads and edits. Its view is a
//! `JsonTree`, in which an object is a finite map, so that the order of the
//! members plays no part. `serde_json` reads and writes the text.

use vstd::prelude::*;

verus! {

/// A JSON value from `serde_json`, carried without looking inside.
#[verifier::external_type_specification]
#[verifier::external_body]
pub struct ExValue(serde_json::Value);

/// A JSON number from `serde_json`, carried without looking inside.
#[verifier::external_type_specification]
#[verifier::external_body]
pub struct ExNumber(serde_json::Number);

/// What a JSON number is: an integer that fits 64 bits, or the 64 bits of a
/// finite IEEE 754 double.
pub enum JsonNumber {
    PosInt(u64),
    NegInt(i64),
    Float(u64),
}

/// The mathematical reading of a JSON value.
pub enum JsonTree {
    Null,
    Bool(bool),
    Number(JsonNumber),
    Text(Seq<char>),
    Array(Seq<JsonTree>),
    Object(Map<Seq<char>, JsonTree>),
}

/// What a `serde_json::Number` holds.
pub uninterp spec fn number_view(n: serde_json::Number) -> JsonNumber;

/// What a `serde_json::Value` holds.
pub uninterp spec fn value_tree(v: serde_json::Value) -> JsonTree;

/// A JSON value. Of two members of an object with the same name the later one
/// counts.
pub enum Json {
    Null,
    Bool(bool),
    Number(serde_json::Number),
    Text(String),
    Array(Vec<Json>),
    Object(Vec<(String, Json)>),
}

/// The reading of a value.
pub open spec fn json_tree(j: Json) -> JsonTree
    decreases j,
{
    match j {
        Json::Null => JsonTree::Null,
        Json::Bool(b) => JsonTree::Bool(b),
        Json::Number(n) => JsonTree::Number(number_view(n)),
        Json::Text(s) => JsonTree::Text(s@),
        Json::Array(items) => JsonTree::Array(json_trees(items@)),
        Json::Object(members) => JsonTree::Object(member_trees(members@)),
    }
}

/// The readings of the items of an array.
pub open spec fn json_trees(items: Seq<Json>) -> Seq<JsonTree>
    decreases items,
{
    if items.len() == 0 {
        Seq::empty()
    } else {
        json_trees(items.drop_last()).push(json_tree(items.last()))
    }
}

/// The reading of the members of an object: a later member replaces an earlier
/// one of the same name.
pub open spec fn member_trees(members: Seq<(String, Json)>) -> Map<Seq<char>, JsonTree>
    decreases members,
{
    if members.len() == 0 {
        Map::empty()
    } else {
        member_trees(members.drop_last()).insert(
            members.last().0@,
            json_tree(members.last().1),
        )
    }
}

impl View for Json {
    type V = JsonTree;

    open spec fn view(&self) -> JsonTree {
        json_tree(*self)
    }
}

/// One level of a `serde_json::Value`.
pub enum ValueNode {
    Null,
    Bool(bool),
    Number(serde_json::Number),
    Text(String),
    Array(Vec<serde_json::Value>),
    Object(Vec<(String, serde_json::Value)>),
}

/// The readings of a list of `serde_json::Value`s.
pub open spec fn value_trees(items: Seq<serde_json::Value>) -> Seq<JsonTree> {
    items.map_values(|v: serde_json::Value| value_tree(v))
}

/// The members of an object as a map.
pub open spec fn value_members(members: Seq<(String, serde_json::Value)>) -> Map<Seq<char>, JsonTree>
    decreases members.len(),
{
    if members.len() == 0 {
        Map::empty()
    } else {
        value_members(members.drop_last()).insert(
            members.last().0@,
            value_tree(members.last().1),
        )
    }
}

/// No two members have the same name.
pub open spec fn distinct_names(members: Seq<(String, serde_json::Value)>) -> bool {
    forall|i: int, j: int|
        0 <= i < j < members.len() ==> #[trigger] members[i].0@ != #[trigger] members[j].0@
}

/// The reading of one level of a `serde_json::Value`.
pub open spec fn node_tree(node: ValueNode) -> JsonTree {
    match node {
        ValueNode::Null => JsonTree::Null,
        ValueNode::Bool(b) => JsonTree::Bool(b),
        ValueNode::Number(n) => JsonTree::Number(number_view(n)),
        ValueNode::Text(s) => JsonTree::Text(s@),
        ValueNode::Array(items) => JsonTree::Array(value_trees(items@)),
        ValueNode::Object(members) => JsonTree::Object(value_members(members@)),
    }
}

/// Takes a `serde_json::Value` apart, one level: its variant, with the fields
/// as they are and the members of an object as a list, in which, as in the
/// `serde_json::Map` it comes from, no name occurs twice.
#[verifier::external_body]
fn open_value(v: serde_json::Value) -> (node: ValueNode)
    ensures
        node_tree(node) == value_tree(v),
        node matches ValueNode::Object(members) ==> distinct_names(members@),
{
    match v {
        serde_json::Value::Null => ValueNode::Null,
        serde_json::Value::Bool(b) => ValueNode::Bool(b),
        serde_json::Value::Number(n) => ValueNode::Number(n),
        serde_json::Value::String(s) => ValueNode::Text(s),
        serde_json::Value::Array(items) => ValueNode::Array(items),
        serde_json::Value::Object(members) => ValueNode::Object(members.into_iter().collect()),
    }
}

/// Puts one level of a JSON value together as a `serde_json::Value`: the variant,
/// with the fields as they are and the members of an object, no two of the same
/// name, collected into a `serde_json::Map`.
#[verifier::external_body]
fn seal_value(node: ValueNode) -> (v: serde_json::Value)
    requires
        node matches ValueNode::Object(members) ==> distinct_names(members@),
    ensures
        value_tree(v) == node_tree(node),
{
    match node {
        ValueNode::Null => serde_json::Value::Null,
        ValueNode::Bool(b) => serde_json::Value::Bool(b),
        ValueNode::Number(n) => serde_json::Value::Number(n),
        ValueNode::Text(s) => serde_json::Value::String(s),
        ValueNode::Array(items) => serde_json::Value::Array(items),
        ValueNode::Object(members) => serde_json::Value::Object(members.into_iter().collect()),
    }
}

/// `serde_json::Number::from` on an unsigned integer: the number is that
/// integer.
#[verifier::external_body]
fn number_from(n: u64) -> (r: serde_json::Number)
    ensures
        number_view(r) == JsonNumber::PosInt(n),
{
    serde_json::Number::from(n)
}

/// `==` of two `serde_json::Number`s: numbers of one kind with the same value,
/// where the two zeros of a double are the same value. A double is never
/// infinite and never not-a-number.
#[verifier::external_body]
fn number_eq(a: &serde_json::Number, b: &serde_json::Number) -> (r: bool)
    ensures
        r == same_number(number_view(*a), number_view(*b)),
{
    a == b
}

/// A clone of a `serde_json::Number` holds the same number.
pub assume_specification[ <serde_json::Number as Clone>::clone ](
    n: &serde_json::Number,
) -> (r: serde_json::Number)
    ensures
        number_view(r) == number_view(*n),
;

/// What `serde_json::from_str` makes of a text when it is asked for a
/// `serde_json::Value`: the value, or the message of its error.
pub uninterp spec fn parsed_json(text: Seq<char>) -> Result<JsonTree, Seq<char>>;

/// The reading of what `serde_json::from_str` returned.
pub open spec fn parse_reading(r: Result<serde_json::Value, String>) -> Result<
    JsonTree,
    Seq<char>,
> {
    match r {
        Ok(v) => Ok(value_tree(v)),
        Err(message) => Err(message@),
    }
}

/// `serde_json::from_str` on a text, for a `serde_json::Value`; an error is
/// given by its message.
#[verifier::external_body]
fn parse_value(text: &str) -> (r: Result<serde_json::Value, String>)
    ensures
        parse_reading(r) == parsed_json(text@),
{
    serde_json::from_str(text).map_err(|e| e.to_string())
}

/// The text that `serde_json` writes for a value, without blanks or line breaks
/// between the parts.
pub uninterp spec fn compact_text(t: JsonTree) -> Seq<char>;

/// The `Display` text of a `serde_json::Value`.
#[verifier::external_body]
fn value_text(v: &serde_json::Value) -> (r: String)
    ensures
        r@ == compact_text(value_tree(*v)),
{
    v.to_string()
}

/// The text that `serde_json` writes for a value over several lines, indented.
pub uninterp spec fn pretty_text(t: JsonTree) -> Seq<char>;

/// `serde_json::to_string_pretty` on a `serde_json::Value`.
#[verifier::external_body]
fn value_pretty_text(v: &serde_json::Value) -> (r: String)
    ensures
        r@ == pretty_text(value_tree(*v)),
{
    serde_json::to_string_pretty(v).unwrap_or_default()
}

/// The bits of a double are those of a zero.
pub open spec fn is_zero_double(bits: u64) -> bool {
    bits == 0 || bits == 0x8000_0000_0000_0000
}

/// Two numbers count as equal.
pub open spec fn same_number(a: JsonNumber, b: JsonNumber) -> bool {
    match (a, b) {
        (JsonNumber::PosInt(x), JsonNumber::PosInt(y)) => x == y,
        (JsonNumber::NegInt(x), JsonNumber::NegInt(y)) => x == y,
        (JsonNumber::Float(x), JsonNumber::Float(y)) => x == y || (is_zero_double(x)
            && is_zero_double(y)),
        _ => false,
    }
}

/// Two values count as equal: of one kind, with equal contents, the order of
/// the items of an array included and that of the members of an object left out.
pub open spec fn same_tree(a: JsonTree, b: JsonTree) -> bool
    decreases a,
{
    match (a, b) {
        (JsonTree::Null, JsonTree::Null) => true,
        (JsonTree::Bool(x), JsonTree::Bool(y)) => x == y,
        (JsonTree::Number(x), JsonTree::Number(y)) => same_number(x, y),
        (JsonTree::Text(x), JsonTree::Text(y)) => x == y,
        (JsonTree::Array(x), JsonTree::Array(y)) => {
            &&& x.len() == y.len()
            &&& forall|i: int| 0 <= i < x.len() ==> same_tree(#[trigger] x[i], y[i])
        },
        (JsonTree::Object(x), JsonTree::Object(y)) => {
            &&& x.dom() == y.dom()
            &&& forall|k: Seq<char>| x.contains_key(k) ==> same_tree(#[trigger] x[k], y[k])
        },
        _ => false,
    }
}

/// An object without members.
pub open spec fn object() -> JsonTree {
    JsonTree::Object(Map::empty())
}

/// An array without items.
pub open spec fn list() -> JsonTree {
    JsonTree::Array(Seq::empty())
}

/// A string.
pub open spec fn text(s: Seq<char>) -> JsonTree {
    JsonTree::Text(s)
}

/// A number that is not negative.
pub open spec fn uint(n: u64) -> JsonTree {
    JsonTree::Number(JsonNumber::PosInt(n))
}

impl JsonTree {
    /// The member of that name, of an object that has one.
    pub open spec fn get(self, key: Seq<char>) -> Option<JsonTree> {
        match self {
            JsonTree::Object(m) => if m.contains_key(key) {
                Some(m[key])
            } else {
                None
            },
            _ => None,
        }
    }

    /// The member of that name, or null where there is none.
    pub open spec fn at(self, key: Seq<char>) -> JsonTree {
        match self.get(key) {
            Some(t) => t,
            None => JsonTree::Null,
        }
    }

    /// The characters of a string.
    pub open spec fn as_text(self) -> Option<Seq<char>> {
        match self {
            JsonTree::Text(s) => Some(s),
            _ => None,
        }
    }

    /// An object with one more member.
    pub open spec fn with(self, key: Seq<char>, value: JsonTree) -> JsonTree {
        match self {
            JsonTree::Object(m) => JsonTree::Object(m.insert(key, value)),
            _ => self,
        }
    }

    /// An array with one more item.
    pub open spec fn item(self, value: JsonTree) -> JsonTree {
        match self {
            JsonTree::Array(items) => JsonTree::Array(items.push(value)),
            _ => self,
        }
    }

    /// The items of an array.
    pub open spec fn as_array(self) -> Option<Seq<JsonTree>> {
        match self {
            JsonTree::Array(s) => Some(s),
            _ => None,
        }
    }

    /// The members of an object.
    pub open spec fn as_object(self) -> Option<Map<Seq<char>, JsonTree>> {
        match self {
            JsonTree::Object(m) => Some(m),
            _ => None,
        }
    }
}

/// The readings of a list of items, one by one.
pub proof fn lemma_json_trees(items: Seq<Json>)
    ensures
        json_trees(items).len() == items.len(),
        forall|i: int|
            0 <= i < items.len() ==> #[trigger] json_trees(items)[i] == json_tree(items[i]),
    decreases items.len(),
{
    if items.len() > 0 {
        lemma_json_trees(items.drop_last());
    }
}

/// A name is in the map of the members exactly if a member has it, and the last
/// member of that name is its value.
proof fn lemma_member_trees(members: Seq<(String, Json)>, i: int)
    requires
        0 <= i < members.len(),
        forall|k: int| i < k < members.len() ==> members[k].0@ != members[i].0@,
    ensures
        member_trees(members).contains_key(members[i].0@),
        member_trees(members)[members[i].0@] == json_tree(members[i].1),
    decreases members.len(),
{
    if i < members.len() - 1 {
        lemma_member_trees(members.drop_last(), i);
    }
}

proof fn lemma_member_absent(members: Seq<(String, Json)>, key: Seq<char>)
    requires
        forall|k: int| 0 <= k < members.len() ==> members[k].0@ != key,
    ensures
        !member_trees(members).contains_key(key),
    decreases members.len(),
{
    if members.len() > 0 {
        lemma_member_absent(members.drop_last(), key);
    }
}

proof fn lemma_member_present(members: Seq<(String, Json)>, i: int)
    requires
        0 <= i < members.len(),
    ensures
        member_trees(members).contains_key(members[i].0@),
    decreases members.len(),
{
    if i < members.len() - 1 {
        lemma_member_present(members.drop_last(), i);
    }
}

proof fn lemma_member_named(members: Seq<(String, Json)>, name: Seq<char>) -> (i: int)
    requires
        member_trees(members).contains_key(name),
    ensures
        0 <= i < members.len(),
        members[i].0@ == name,
    decreases members.len(),
{
    if members.last().0@ == name {
        members.len() - 1
    } else {
        lemma_member_named(members.drop_last(), name)
    }
}

/// The position of the last member of that name.
pub(crate) fn last_of_name(members: &Vec<(String, Json)>, key: &str) -> (r: Option<usize>)
    ensures
        r is Some <==> member_trees(members@).contains_key(key@),
        r matches Some(i) ==> {
            &&& i < members.len()
            &&& members@[i as int].0@ == key@
            &&& member_trees(members@)[key@] == json_tree(members@[i as int].1)
            &&& forall|k: int| i < k < members.len() ==> members@[k].0@ != key@
        },
{
    let name = key.to_string();
    let mut i: usize = members.len();
    while i > 0
        invariant
            i <= members.len(),
            name@ == key@,
            forall|k: int| i <= k < members.len() ==> members@[k].0@ != key@,
        decreases i,
    {
        i = i - 1;
        if members[i].0 == name {
            proof {
                lemma_member_trees(members@, i as int);
            }
            return Some(i);
        }
    }
    proof {
        lemma_member_absent(members@, key@);
    }
    None
}

proof fn lemma_member_update(members: Seq<(String, Json)>, i: int, m: (String, Json))
    requires
        0 <= i < members.len(),
        members[i].0@ == m.0@,
        forall|k: int| i < k < members.len() ==> members[k].0@ != m.0@,
    ensures
        member_trees(members.update(i, m)) == member_trees(members).insert(m.0@, json_tree(m.1)),
    decreases members.len(),
{
    let updated = members.update(i, m);
    if i < members.len() - 1 {
        lemma_member_update(members.drop_last(), i, m);
        assert(updated.drop_last() =~= members.drop_last().update(i, m));
        let last = members.last();
        let rest = member_trees(members.drop_last());
        assert(rest.insert(m.0@, json_tree(m.1)).insert(last.0@, json_tree(last.1))
            =~= rest.insert(last.0@, json_tree(last.1)).insert(m.0@, json_tree(m.1)));
    } else {
        assert(updated.drop_last() =~= members.drop_last());
        let rest = member_trees(members.drop_last());
        assert(rest.insert(m.0@, json_tree(m.1)) =~= rest.insert(
            m.0@,
            json_tree(members.last().1),
        ).insert(m.0@, json_tree(m.1)));
    }
}

/// Gives an object a member, in place of the one of that name if it has one.
pub(crate) fn set_member(members: &mut Vec<(String, Json)>, key: &str, value: Json)
    ensures
        member_trees(final(members)@) == member_trees(old(members)@).insert(key@, value@),
{
    match last_of_name(members, key) {
        Some(i) => {
            let ghost before = members@;
            let name = key.to_string();
            members.set(i, (name, value));
            proof {
                lemma_member_update(before, i as int, (name, value));
            }
        },
        None => {
            let ghost before = members@;
            members.push((key.to_string(), value));
            assert(members@.drop_last() == before);
        },
    }
}

proof fn lemma_value_members(members: Seq<(String, serde_json::Value)>, i: int)
    requires
        0 <= i < members.len(),
        distinct_names(members),
    ensures
        value_members(members).dom().finite(),
        value_members(members).contains_key(members[i].0@),
        value_members(members)[members[i].0@] == value_tree(members[i].1),
    decreases members.len(),
{
    if members.len() == 1 {
        assert(members.drop_last() =~= Seq::empty());
    } else {
        assert(distinct_names(members.drop_last()));
        lemma_value_members(members.drop_last(), if i < members.len() - 1 { i } else { 0 });
    }
}

proof fn lemma_value_update(
    members: Seq<(String, serde_json::Value)>,
    i: int,
    m: (String, serde_json::Value),
)
    requires
        0 <= i < members.len(),
        members[i].0@ == m.0@,
        distinct_names(members),
    ensures
        distinct_names(members.update(i, m)),
        value_members(members.update(i, m)) == value_members(members).insert(
            m.0@,
            value_tree(m.1),
        ),
    decreases members.len(),
{
    let updated = members.update(i, m);
    let rest = value_members(members.drop_last());
    let last = members.last();
    if i < members.len() - 1 {
        lemma_value_update(members.drop_last(), i, m);
        assert(updated.drop_last() =~= members.drop_last().update(i, m));
        assert(members[i].0@ != last.0@);
        assert(rest.insert(m.0@, value_tree(m.1)).insert(last.0@, value_tree(last.1))
            =~= rest.insert(last.0@, value_tree(last.1)).insert(m.0@, value_tree(m.1)));
    } else {
        assert(updated.drop_last() =~= members.drop_last());
        assert(rest.insert(m.0@, value_tree(m.1)) =~= rest.insert(
            m.0@,
            value_tree(last.1),
        ).insert(m.0@, value_tree(m.1)));
    }
}

/// Gives an object a member, in place of the one of that name if it has one.
fn set_value(members: &mut Vec<(String, serde_json::Value)>, name: String, value: serde_json::Value)
    requires
        distinct_names(old(members)@),
    ensures
        distinct_names(final(members)@),
        value_members(final(members)@) == value_members(old(members)@).insert(
            name@,
            value_tree(value),
        ),
{
    let ghost before = members@;
    let mut i: usize = 0;
    while i < members.len()
        invariant
            i <= members.len(),
            members@ == before,
            forall|k: int| 0 <= k < i ==> members@[k].0@ != name@,
        ensures
            i <= members.len(),
            members@ == before,
            i < members.len() ==> members@[i as int].0@ == name@,
            i == members.len() ==> forall|k: int| 0 <= k < i ==> members@[k].0@ != name@,
        decreases members.len() - i,
    {
        if members[i].0 == name {
            break;
        }
        i = i + 1;
    }
    if i < members.len() {
        proof {
            lemma_value_update(before, i as int, (name, value));
        }
        members.set(i, (name, value));
    } else {
        members.push((name, value));
        assert(members@.drop_last() == before);
    }
}

impl Json {
    /// The value that a `serde_json::Value` holds.
    pub fn from_value(v: serde_json::Value) -> (r: Json)
        ensures
            r@ == value_tree(v),
        decreases value_tree(v),
    {
        match open_value(v) {
            ValueNode::Null => Json::Null,
            ValueNode::Bool(b) => Json::Bool(b),
            ValueNode::Number(n) => Json::Number(n),
            ValueNode::Text(s) => Json::Text(s),
            ValueNode::Array(items) => {
                let ghost all = items@;
                let mut out: Vec<Json> = Vec::new();
                for item in it: items
                    invariant
                        it.seq() == all,
                        value_tree(v) == JsonTree::Array(value_trees(all)),
                        json_trees(out@) == value_trees(all.take(it.index())),
                {
                    proof {
                        let i = it.index();
                        assert(item == all[i]);
                        assert(value_trees(all)[i] == value_tree(item));
                        assert(decreases_to!(value_tree(v) => value_tree(v)->Array_0));
                        assert(decreases_to!(value_trees(all) => value_trees(all)[i]));
                    }
                    let ghost before = out@;
                    out.push(Json::from_value(item));
                    proof {
                        assert(out@.drop_last() == before);
                        assert(value_trees(all.take(it.index() + 1)) =~= value_trees(
                            all.take(it.index()),
                        ).push(value_tree(item)));
                    }
                }
                assert(all.take(all.len() as int) == all);
                Json::Array(out)
            },
            ValueNode::Object(members) => {
                let ghost all = members@;
                let mut out: Vec<(String, Json)> = Vec::new();
                for member in it: members
                    invariant
                        it.seq() == all,
                        value_tree(v) == JsonTree::Object(value_members(all)),
                        distinct_names(all),
                        member_trees(out@) == value_members(all.take(it.index())),
                {
                    proof {
                        let i = it.index();
                        lemma_value_members(all, i);
                        let tree = value_members(all);
                        assert(decreases_to!(value_tree(v) => value_tree(v)->Object_0));
                        assert(decreases_to!(tree => tree[member.0@]));
                    }
                    let ghost before = out@;
                    let (name, value) = member;
                    out.push((name, Json::from_value(value)));
                    proof {
                        assert(out@.drop_last() == before);
                        assert(all.take(it.index() + 1).drop_last() == all.take(it.index()));
                    }
                }
                assert(all.take(all.len() as int) == all);
                Json::Object(out)
            },
        }
    }

    /// The value as a `serde_json::Value`.
    pub fn to_value(&self) -> (r: serde_json::Value)
        ensures
            value_tree(r) == self@,
        decreases self,
    {
        match self {
            Json::Null => seal_value(ValueNode::Null),
            Json::Bool(b) => seal_value(ValueNode::Bool(*b)),
            Json::Number(n) => seal_value(ValueNode::Number(n.clone())),
            Json::Text(s) => seal_value(ValueNode::Text(s.clone())),
            Json::Array(items) => {
                let mut out: Vec<serde_json::Value> = Vec::new();
                let mut i: usize = 0;
                while i < items.len()
                    invariant
                        i <= items.len(),
                        *self == Json::Array(*items),
                        value_trees(out@) == json_trees(items@.take(i as int)),
                    decreases items.len() - i,
                {
                    assert(items@.take(i + 1).drop_last() == items@.take(i as int));
                    assert(decreases_to!(*self => (*self)->Array_0));
                    assert(decreases_to!(items => items[i as int]));
                    let ghost before = out@;
                    out.push(items[i].to_value());
                    assert(value_trees(out@) =~= value_trees(before).push(json_tree(items@[i as int])));
                    i = i + 1;
                }
                assert(items@.take(i as int) == items@);
                seal_value(ValueNode::Array(out))
            },
            Json::Object(members) => {
                let mut out: Vec<(String, serde_json::Value)> = Vec::new();
                let mut i: usize = 0;
                while i < members.len()
                    invariant
                        i <= members.len(),
                        *self == Json::Object(*members),
                        distinct_names(out@),
                        value_members(out@) == member_trees(members@.take(i as int)),
                    decreases members.len() - i,
                {
                    assert(members@.take(i + 1).drop_last() == members@.take(i as int));
                    assert(decreases_to!(*self => (*self)->Object_0));
                    assert(decreases_to!(members => members[i as int]));
                    set_value(&mut out, members[i].0.clone(), members[i].1.to_value());
                    i = i + 1;
                }
                assert(members@.take(i as int) == members@);
                seal_value(ValueNode::Object(out))
            },
        }
    }

    /// Another value that reads the same.
    pub fn copy(&self) -> (r: Json)
        ensures
            r@ == self@,
    {
        Json::from_value(self.to_value())
    }

    /// Reads a JSON text; an error is given by its message.
    pub fn parse(text: &str) -> (r: Result<Json, String>)
        ensures
            r matches Ok(j) ==> parsed_json(text@) == Ok::<JsonTree, Seq<char>>(j@),
            r matches Err(message) ==> parsed_json(text@) == Err::<JsonTree, Seq<char>>(
                message@,
            ),
    {
        match parse_value(text) {
            Ok(v) => Ok(Json::from_value(v)),
            Err(message) => Err(message),
        }
    }

    /// The value on one line.
    pub fn text(&self) -> (r: String)
        ensures
            r@ == compact_text(self@),
    {
        value_text(&self.to_value())
    }

    /// The value over several lines, indented.
    pub fn pretty(&self) -> (r: String)
        ensures
            r@ == pretty_text(self@),
    {
        value_pretty_text(&self.to_value())
    }

    /// A number.
    pub fn number(n: u64) -> (r: Json)
        ensures
            r@ == uint(n),
    {
        Json::Number(number_from(n))
    }

    /// A string.
    pub fn string(s: &str) -> (r: Json)
        ensures
            r@ == text(s@),
    {
        Json::Text(s.to_string())
    }

    /// An object without members.
    pub fn object() -> (r: Json)
        ensures
            r@ == object(),
    {
        Json::Object(Vec::new())
    }

    /// An array without items.
    pub fn list() -> (r: Json)
        ensures
            r@ == list(),
    {
        Json::Array(Vec::new())
    }

    /// The object with one more member, in place of the one of that name if it
    /// has one; what is no object stays as it is.
    pub fn with(self, key: &str, value: Json) -> (r: Json)
        ensures
            r@ == self@.with(key@, value@),
    {
        match self {
            Json::Object(members) => {
                let mut members = members;
                set_member(&mut members, key, value);
                Json::Object(members)
            },
            other => other,
        }
    }

    /// The array with one more item; what is no array stays as it is.
    pub fn item(self, value: Json) -> (r: Json)
        ensures
            r@ == self@.item(value@),
    {
        match self {
            Json::Array(items) => {
                let mut items = items;
                items.push(value);
                assert(items@.drop_last() == self->Array_0@);
                Json::Array(items)
            },
            other => other,
        }
    }

    /// The member of that name, of an object that has one.
    pub fn get(&self, key: &str) -> (r: Option<&Json>)
        ensures
            r is Some <==> self@.get(key@) is Some,
            r matches Some(j) ==> self@.get(key@) == Some(j@),
    {
        match self {
            Json::Object(members) => match last_of_name(members, key) {
                Some(i) => Some(&members[i].1),
                None => None,
            },
            _ => None,
        }
    }

    /// The characters of a string.
    pub fn as_str(&self) -> (r: Option<&str>)
        ensures
            r is Some <==> self@.as_text() is Some,
            r matches Some(s) ==> self@.as_text() == Some(s@),
    {
        match self {
            Json::Text(s) => Some(s.as_str()),
            _ => None,
        }
    }

    /// The items of an array.
    pub fn as_array(&self) -> (r: Option<&Vec<Json>>)
        ensures
            r is Some <==> self@.as_array() is Some,
            r matches Some(items) ==> self@.as_array() == Some(json_trees(items@)),
    {
        match self {
            Json::Array(items) => Some(items),
            _ => None,
        }
    }

    /// The characters of the member of that name, if it is a string.
    pub fn text_at(&self, key: &str) -> (r: Option<&str>)
        ensures
            r is Some <==> self@.at(key@).as_text() is Some,
            r matches Some(s) ==> self@.at(key@).as_text() == Some(s@),
    {
        match self.get(key) {
            Some(j) => j.as_str(),
            None => None,
        }
    }

    /// The items of the member of that name, if it is an array.
    pub fn array_at(&self, key: &str) -> (r: Option<&Vec<Json>>)
        ensures
            r is Some <==> self@.at(key@).as_array() is Some,
            r matches Some(items) ==> self@.at(key@).as_array() == Some(json_trees(items@)),
    {
        match self.get(key) {
            Some(j) => j.as_array(),
            None => None,
        }
    }

    /// How many members an object has.
    pub fn member_count(&self) -> (r: Option<usize>)
        ensures
            r is Some <==> self@.as_object() is Some,
            r matches Some(n) ==> {
                &&& self@.as_object()->0.dom().finite()
                &&& n == self@.as_object()->0.len()
            },
    {
        match self {
            Json::Object(members) => {
                let mut n: usize = 0;
                let mut i: usize = 0;
                while i < members.len()
                    invariant
                        n <= i <= members.len(),
                        member_trees(members@.take(i as int)).dom().finite(),
                        n == member_trees(members@.take(i as int)).len(),
                    decreases members.len() - i,
                {
                    let ghost before = members@.take(i as int);
                    assert(members@.take(i + 1).drop_last() == before);
                    let mut fresh = true;
                    let mut k: usize = 0;
                    while k < i
                        invariant
                            k <= i < members.len(),
                            before == members@.take(i as int),
                            fresh <==> forall|j: int|
                                0 <= j < k ==> members@[j].0@ != members@[i as int].0@,
                        decreases i - k,
                    {
                        if members[k].0 == members[i].0 {
                            fresh = false;
                        }
                        k = k + 1;
                    }
                    proof {
                        let name = members@[i as int].0@;
                        if fresh {
                            lemma_member_absent(before, name);
                        } else {
                            let j = choose|j: int|
                                0 <= j < k && members@[j].0@ == members@[i as int].0@;
                            assert(before[j].0@ == name);
                            lemma_member_present(before, j);
                        }
                    }
                    if fresh {
                        n = n + 1;
                    }
                    i = i + 1;
                }
                assert(members@.take(i as int) == members@);
                Some(n)
            },
            _ => None,
        }
    }

    /// Whether two values count as equal.
    pub fn same(&self, other: &Json) -> (r: bool)
        ensures
            r == same_tree(self@, other@),
        decreases self,
    {
        match (self, other) {
            (Json::Null, Json::Null) => true,
            (Json::Bool(a), Json::Bool(b)) => *a == *b,
            (Json::Number(a), Json::Number(b)) => number_eq(a, b),
            (Json::Text(a), Json::Text(b)) => *a == *b,
            (Json::Array(a), Json::Array(b)) => {
                proof {
                    lemma_json_trees(a@);
                    lemma_json_trees(b@);
                }
                if a.len() != b.len() {
                    return false;
                }
                let mut i: usize = 0;
                while i < a.len()
                    invariant
                        i <= a.len(),
                        a.len() == b.len(),
                        json_trees(a@).len() == a.len(),
                        json_trees(b@).len() == b.len(),
                        forall|k: int|
                            0 <= k < a.len() ==> #[trigger] json_trees(a@)[k] == json_tree(a@[k]),
                        forall|k: int|
                            0 <= k < b.len() ==> #[trigger] json_trees(b@)[k] == json_tree(b@[k]),
                        *self == Json::Array(*a),
                        *other == Json::Array(*b),
                        forall|k: int|
                            0 <= k < i ==> same_tree(
                                #[trigger] json_trees(a@)[k],
                                json_trees(b@)[k],
                            ),
                    decreases a.len() - i,
                {
                    assert(decreases_to!(*self => (*self)->Array_0));
                    assert(decreases_to!(a => a[i as int]));
                    if !a[i].same(&b[i]) {
                        assert(!same_tree(json_trees(a@)[i as int], json_trees(b@)[i as int]));
                        return false;
                    }
                    i = i + 1;
                }
                true
            },
            (Json::Object(a), Json::Object(b)) => {
                let mut i: usize = 0;
                while i < a.len()
                    invariant
                        i <= a.len(),
                        *self == Json::Object(*a),
                        *other == Json::Object(*b),
                        forall|k: int|
                            0 <= k < i ==> {
                                let name = #[trigger] a@[k].0@;
                                &&& member_trees(b@).contains_key(name)
                                &&& same_tree(member_trees(a@)[name], member_trees(b@)[name])
                            },
                    decreases a.len() - i,
                {
                    proof {
                        lemma_member_present(a@, i as int);
                    }
                    match (last_of_name(a, a[i].0.as_str()), last_of_name(b, a[i].0.as_str())) {
                        (Some(x), Some(y)) => {
                            assert(decreases_to!(*self => (*self)->Object_0));
                            assert(decreases_to!(a => a[x as int]));
                            if !a[x].1.same(&b[y].1) {
                                return false;
                            }
                        },
                        _ => {
                            return false;
                        },
                    }
                    i = i + 1;
                }
                let mut k: usize = 0;
                while k < b.len()
                    invariant
                        k <= b.len(),
                        *self == Json::Object(*a),
                        *other == Json::Object(*b),
                        forall|j: int|
                            0 <= j < k ==> member_trees(a@).contains_key(
                                #[trigger] b@[j].0@,
                            ),
                    decreases b.len() - k,
                {
                    proof {
                        lemma_member_present(b@, k as int);
                    }
                    if last_of_name(a, b[k].0.as_str()).is_none() {
                        return false;
                    }
                    k = k + 1;
                }
                proof {
                    let x = member_trees(a@);
                    let y = member_trees(b@);
                    assert forall|name: Seq<char>| x.contains_key(name) implies y.contains_key(name)
                        && same_tree(#[trigger] x[name], y[name]) by {
                        let j = lemma_member_named(a@, name);
                        assert(y.contains_key(a@[j].0@));
                    }
                    assert forall|name: Seq<char>| y.contains_key(name) implies #[trigger] x.contains_key(
                        name,
                    ) by {
                        let j = lemma_member_named(b@, name);
                        assert(x.contains_key(b@[j].0@));
                    }
                    assert forall|name: Seq<char>| #[trigger] x.dom().contains(name)
                        == y.dom().contains(name) by {
                        if x.contains_key(name) {
                            assert(same_tree(x[name], y[name]));
                        }
                    }
                    assert(x.dom() =~= y.dom());
                }
                true
            },
            _ => false,
        }
    }
}

} // verus!
