//! Comparison of the answers of two endpoints to the same requests.

use crate::client::RpcRequest;
use crate::failure::{Failure, chained, in_context};
use crate::hex::{hex_number, hex_number_failure, parse_hex_u64};
use crate::json::{
    Json, JsonTree, compact_text, json_tree, json_trees, last_of_name, lemma_json_trees,
    member_trees, pretty_text, same_tree, set_member,
};
use crate::text::{
    add_line, decimal, decimal_text, hex, join2, join3, join5, lines_of, next_hex_text,
    no_lines, one_line, padded, padded_text, str_eq,
};
use vstd::prelude::*;

verus! {

/// `t` without the members named in `names`, at any depth.
pub open spec fn stripped(t: JsonTree, names: Seq<Seq<char>>) -> JsonTree
    decreases t,
{
    match t {
        JsonTree::Array(items) => JsonTree::Array(
            Seq::new(
                items.len(),
                |i: int|
                    if 0 <= i < items.len() {
                        stripped(items[i], names)
                    } else {
                        JsonTree::Null
                    },
            ),
        ),
        JsonTree::Object(members) => JsonTree::Object(
            Map::new(
                |k: Seq<char>| members.contains_key(k) && !names.contains(k),
                |k: Seq<char>|
                    if members.contains_key(k) {
                        stripped(members[k], names)
                    } else {
                        JsonTree::Null
                    },
            ),
        ),
        _ => t,
    }
}

/// The names in a list of string slices.
pub open spec fn names_of(names: Seq<&str>) -> Seq<Seq<char>> {
    names.map_values(|n: &str| n@)
}

/// The items of a stripped array are the stripped items.
proof fn lemma_stripped_items(items: Seq<JsonTree>, names: Seq<Seq<char>>, out: Seq<JsonTree>)
    requires
        items.len() == out.len(),
        forall|i: int| 0 <= i < items.len() ==> #[trigger] out[i] == stripped(items[i], names),
    ensures
        stripped(JsonTree::Array(items), names) == JsonTree::Array(out),
{
    let expected = stripped(JsonTree::Array(items), names)->Array_0;
    assert(expected =~= out);
}

/// The members of `m` that are left when the names are taken out.
pub open spec fn stripped_members(
    m: Map<Seq<char>, JsonTree>,
    names: Seq<Seq<char>>,
) -> Map<Seq<char>, JsonTree> {
    stripped(JsonTree::Object(m), names)->Object_0
}

proof fn lemma_stripped_insert(
    m: Map<Seq<char>, JsonTree>,
    names: Seq<Seq<char>>,
    key: Seq<char>,
    t: JsonTree,
)
    ensures
        names.contains(key) ==> stripped_members(m.insert(key, t), names) == stripped_members(
            m,
            names,
        ),
        !names.contains(key) ==> stripped_members(m.insert(key, t), names) == stripped_members(
            m,
            names,
        ).insert(key, stripped(t, names)),
{
    let with = stripped_members(m.insert(key, t), names);
    let without = stripped_members(m, names);
    if names.contains(key) {
        assert(with =~= without);
    } else {
        assert(with =~= without.insert(key, stripped(t, names)));
    }
}

/// Whether `name` is one of `keys`.
fn is_named(name: &String, keys: &[&str]) -> (r: bool)
    ensures
        r == names_of(keys@).contains(name@),
{
    let ghost names = names_of(keys@);
    let mut i: usize = 0;
    while i < keys.len()
        invariant
            i <= keys.len(),
            names == names_of(keys@),
            forall|k: int| 0 <= k < i ==> names[k] != name@,
        decreases keys.len() - i,
    {
        if *name == keys[i].to_string() {
            assert(names[i as int] == name@);
            return true;
        }
        i = i + 1;
    }
    false
}

/// Removes each member with a name in `keys`, at any depth of `v`.
pub fn strip_keys(v: &mut Json, keys: &[&str])
    ensures
        final(v)@ == stripped(old(v)@, names_of(keys@)),
    decreases *old(v),
{
    let ghost names = names_of(keys@);
    let ghost whole = *v;
    match v {
        Json::Array(items) => {
            let ghost before = items@;
            assert(decreases_to!(whole => whole->Array_0));
            let mut i: usize = 0;
            while i < items.len()
                invariant
                    i <= items.len(),
                    items.len() == before.len(),
                    whole == *old(v),
                    *after_borrow(v) == Json::Array(*final(items)),
                    names == names_of(keys@),
                    whole is Array,
                    before == whole->Array_0@,
                    decreases_to!(whole => whole->Array_0),
                    forall|k: int| i <= k < before.len() ==> items@[k] == before[k],
                    forall|k: int|
                        0 <= k < i ==> json_tree(#[trigger] items@[k]) == stripped(
                            json_tree(before[k]),
                            names,
                        ),
                decreases items.len() - i,
            {
                assert(decreases_to!(whole->Array_0 => (whole->Array_0)[i as int]));
                strip_keys(&mut items[i], keys);
                i = i + 1;
            }
            proof {
                lemma_json_trees(before);
                lemma_json_trees(items@);
                lemma_stripped_items(json_trees(before), names, json_trees(items@));
            }
        },
        Json::Object(members) => {
            let ghost before = members@;
            let ghost mut taken: int = 0;
            assert(decreases_to!(whole => whole->Object_0));
            let mut i: usize = 0;
            assert(stripped_members(Map::empty(), names) =~= Map::empty());
            assert(before.skip(0) == before);
            while i < members.len()
                invariant
                    i <= members.len(),
                    whole == *old(v),
                    *after_borrow(v) == Json::Object(*final(members)),
                    names == names_of(keys@),
                    whole is Object,
                    before == whole->Object_0@,
                    decreases_to!(whole => whole->Object_0),
                    0 <= taken <= before.len(),
                    members@.skip(i as int) == before.skip(taken),
                    member_trees(members@.take(i as int)) == stripped_members(
                        member_trees(before.take(taken)),
                        names,
                    ),
                decreases members.len() - i,
            {
                let ghost current = members@;
                assert(members@[i as int] == members@.skip(i as int)[0]);
                assert(members@.skip(i as int).len() == members.len() - i);
                assert(taken < before.len());
                assert(before[taken] == before.skip(taken)[0]);
                assert(before.take(taken + 1).drop_last() == before.take(taken));
                proof {
                    lemma_stripped_insert(
                        member_trees(before.take(taken)),
                        names,
                        before[taken].0@,
                        json_tree(before[taken].1),
                    );
                }
                if is_named(&members[i].0, keys) {
                    members.remove(i);
                    assert(members@.take(i as int) == current.take(i as int));
                    assert(members@.skip(i as int) =~= current.skip(i as int).skip(1));
                } else {
                    assert(decreases_to!(whole->Object_0 => (whole->Object_0)[taken]));
                    strip_keys(&mut members[i].1, keys);
                    i = i + 1;
                    assert(members@.take(i as int).drop_last() == current.take(i - 1));
                    assert(members@.skip(i as int) =~= current.skip(i - 1).skip(1));
                }
                assert(before.skip(taken + 1) =~= before.skip(taken).skip(1));
                proof {
                    taken = taken + 1;
                }
            }
            proof {
                assert(members@.skip(i as int).len() == 0);
                assert(before.skip(taken).len() == before.len() - taken);
                assert(before.take(taken) == before);
                assert(members@.take(i as int) == members@);
            }
        },
        _ => {},
    }
}

/// The name of the member that holds the block whose state is used.
pub open spec fn state_block_key() -> Seq<char> {
    "stateBlockNumber"@
}

/// The name of the member that holds the block the calls are placed in.
pub open spec fn block_key() -> Seq<char> {
    "blockNumber"@
}

/// The parameter object of a bundle, pinned to a state block: of the two block
/// members, those that are there are set. A state block that is no number
/// leaves the placement block as it is.
pub open spec fn pinned_bundle(
    m: Map<Seq<char>, JsonTree>,
    state_block: Seq<char>,
) -> Map<Seq<char>, JsonTree> {
    let first = if m.contains_key(state_block_key()) {
        m.insert(state_block_key(), JsonTree::Text(state_block))
    } else {
        m
    };
    if m.contains_key(block_key()) && hex_number(state_block) is Some {
        first.insert(
            block_key(),
            JsonTree::Text("0x"@ + hex((hex_number(state_block)->0 + 1) as nat)),
        )
    } else {
        first
    }
}

/// The parameter object of a bundle request: the first of its parameters.
pub open spec fn bundle_of(method: Seq<char>, params: JsonTree) -> Option<
    Map<Seq<char>, JsonTree>,
> {
    match params {
        JsonTree::Array(items) => if method == "eth_estimateGasBundle"@ && items.len() > 0 {
            items[0].as_object()
        } else {
            None
        },
        _ => None,
    }
}

/// The parameters of a request, pinned to a state block.
pub open spec fn pinned(method: Seq<char>, params: JsonTree, state_block: Seq<char>) -> JsonTree {
    match params {
        JsonTree::Array(items) => {
            if bundle_of(method, params) is Some {
                JsonTree::Array(
                    items.update(
                        0,
                        JsonTree::Object(
                            pinned_bundle(bundle_of(method, params)->0, state_block),
                        ),
                    ),
                )
            } else if method == "eth_calls"@ && items.len() >= 2 {
                JsonTree::Array(items.update(1, JsonTree::Text(state_block)))
            } else {
                params
            }
        },
        _ => params,
    }
}

/// The request has a placement block, which is to be set to the block after the
/// state block.
pub open spec fn places_block(method: Seq<char>, params: JsonTree) -> bool {
    bundle_of(method, params) matches Some(m) && m.contains_key(block_key())
}

/// Pins the parameter object of a bundle to a state block.
fn pin_members(members: &mut Vec<(String, Json)>, state_block: &str) -> (r: Result<(), Failure>)
    ensures
        member_trees(final(members)@) == pinned_bundle(member_trees(old(members)@), state_block@),
        r is Err <==> member_trees(old(members)@).contains_key(block_key()) && hex_number(
            state_block@,
        ) is None,
        r matches Err(f) ==> f@ == hex_number_failure(state_block@),
{
    proof {
        reveal_strlit("stateBlockNumber");
        reveal_strlit("blockNumber");
        assert(state_block_key().len() != block_key().len());
    }
    if last_of_name(members, "stateBlockNumber").is_some() {
        set_member(members, "stateBlockNumber", Json::string(state_block));
    }
    if last_of_name(members, "blockNumber").is_some() {
        match parse_hex_u64(state_block) {
            Ok(n) => {
                let text = join2("0x", next_hex_text(n).as_str());
                set_member(members, "blockNumber", Json::Text(text));
            },
            Err(f) => {
                return Err(f);
            },
        }
    }
    Ok(())
}

/// Pins the parameters of a request to a common state block.
///
/// Of the parameter object of `eth_estimateGasBundle`, the members
/// `stateBlockNumber` and `blockNumber` are set, if they are there, to the state
/// block and to the block after it. Of the parameters of `eth_calls`, the second
/// is set to the state block, if there is one.
pub fn rewrite_state_block(method: &str, params: &mut Json, state_block: &str) -> (r: Result<
    (),
    Failure,
>)
    ensures
        final(params)@ == pinned(method@, old(params)@, state_block@),
        r is Err <==> places_block(method@, old(params)@) && hex_number(state_block@) is None,
        r matches Err(f) ==> f@ == hex_number_failure(state_block@),
{
    let ghost whole = params@;
    proof {
        reveal_strlit("eth_estimateGasBundle");
        reveal_strlit("eth_calls");
        assert("eth_calls"@.len() != "eth_estimateGasBundle"@.len());
    }
    match params {
        Json::Array(items) => {
            let ghost before = items@;
            proof {
                lemma_json_trees(before);
            }
            if str_eq(method, "eth_estimateGasBundle") {
                if items.len() > 0 {
                    let first = &mut items[0];
                    match first {
                        Json::Object(members) => {
                            let outcome = pin_members(members, state_block);
                            proof {
                                lemma_json_trees(items@);
                                assert(json_trees(items@) =~= json_trees(before).update(
                                    0,
                                    json_tree(items@[0]),
                                ));
                            }
                            return outcome;
                        },
                        _ => {},
                    }
                    assert(items@ =~= before);
                }
            } else if str_eq(method, "eth_calls") {
                if items.len() >= 2 {
                    items.set(1, Json::string(state_block));
                    proof {
                        lemma_json_trees(items@);
                        assert(json_trees(items@) =~= json_trees(before).update(
                            1,
                            JsonTree::Text(state_block@),
                        ));
                    }
                }
            }
        },
        _ => {},
    }
    Ok(())
}

/// The names of the members that differ from node to node by nature.
pub open spec fn volatile_names() -> Seq<Seq<char>> {
    seq!["transactionHash"@, "blockHash"@]
}

/// An answer without the members that differ by nature.
pub open spec fn normalized(t: JsonTree) -> JsonTree {
    stripped(t, volatile_names())
}

/// Two answers agree, but for the members that differ by nature.
pub open spec fn agree(geth: JsonTree, reth: JsonTree) -> bool {
    same_tree(normalized(geth), normalized(reth))
}

/// Strips both answers of the members that differ by nature, and says whether
/// they are then equal.
pub fn responses_match(geth: &mut Json, reth: &mut Json) -> (r: bool)
    ensures
        final(geth)@ == normalized(old(geth)@),
        final(reth)@ == normalized(old(reth)@),
        r == agree(old(geth)@, old(reth)@),
{
    let strip: [&str; 2] = ["transactionHash", "blockHash"];
    assert(names_of(strip@) =~= volatile_names());
    strip_keys(geth, &strip);
    strip_keys(reth, &strip);
    geth.same(reth)
}

/// A request of the corpus.
pub struct CorpusRequest {
    pub name: String,
    pub method: String,
    pub params: Json,
}

/// What the comparison of one request came to.
pub enum Outcome {
    Identical,
    Differs,
    Unanswered,
}

/// What an endpoint sent back: an answer, or the failure of the request.
pub open spec fn answer_of(r: Result<Json, Failure>) -> Result<JsonTree, Seq<Seq<char>>> {
    match r {
        Ok(j) => Ok(j@),
        Err(f) => Err(f@),
    }
}

/// What the comparison of two answers comes to.
pub open spec fn outcome_of(
    geth: Result<JsonTree, Seq<Seq<char>>>,
    reth: Result<JsonTree, Seq<Seq<char>>>,
) -> Outcome {
    match (geth, reth) {
        (Ok(g), Ok(r)) => if agree(g, r) {
            Outcome::Identical
        } else {
            Outcome::Differs
        },
        _ => Outcome::Unanswered,
    }
}

/// The raw answers, for a verbose run.
pub open spec fn raw_lines(geth: JsonTree, reth: JsonTree) -> Seq<Seq<char>> {
    seq!["geth raw: "@ + compact_text(geth), "reth raw: "@ + compact_text(reth)]
}

/// The line for a request that failed at one endpoint.
pub open spec fn failure_lines(
    label: Seq<char>,
    answer: Result<JsonTree, Seq<Seq<char>>>,
) -> Seq<Seq<char>> {
    match answer {
        Ok(_) => seq![],
        Err(f) => seq![label + chained(f)],
    }
}

/// What is printed of the comparison of one request.
pub open spec fn case_lines(
    verbose: bool,
    name: Seq<char>,
    geth: Result<JsonTree, Seq<Seq<char>>>,
    reth: Result<JsonTree, Seq<Seq<char>>>,
) -> Seq<Seq<char>> {
    match (geth, reth) {
        (Ok(g), Ok(r)) => {
            let raw = if verbose {
                raw_lines(g, r)
            } else {
                seq![]
            };
            if agree(g, r) {
                raw + seq![padded(name, 40) + " IDENTICAL \u{2713}"@]
            } else {
                raw + seq![
                    padded(name, 40) + " DIFFERS \u{2717}"@,
                    "  --- geth (normalized) ---\n"@ + pretty_text(normalized(g)),
                    "  --- reth (normalized) ---\n"@ + pretty_text(normalized(r)),
                ]
            }
        },
        _ => seq![padded(name, 40) + " FAILURE \u{2717} (transport error)"@] + failure_lines(
            "  geth error: "@,
            geth,
        ) + failure_lines("  reth error: "@, reth),
    }
}

/// How far a comparison has come.
pub struct DiffRun {
    /// The block to pin the requests to.
    pub state_block: Option<String>,
    /// Whether requests and raw answers are printed too.
    pub verbose: bool,
    /// How many requests there are.
    pub total: usize,
    /// How many were answered alike.
    pub identical: usize,
    /// How many were not.
    pub differ: usize,
}

impl DiffRun {
    /// No more requests have been compared than there are.
    pub open spec fn wf(self) -> bool {
        self.identical + self.differ <= self.total
    }

    /// How many requests have been compared.
    pub open spec fn compared(self) -> int {
        self.identical + self.differ
    }

    /// The run after one more comparison.
    pub open spec fn after(self, outcome: Outcome) -> DiffRun {
        match outcome {
            Outcome::Identical => DiffRun { identical: (self.identical + 1) as usize, ..self },
            _ => DiffRun { differ: (self.differ + 1) as usize, ..self },
        }
    }

    /// The last line of the comparison.
    pub open spec fn closing_line(self) -> Seq<char> {
        "\n"@ + decimal(self.identical as nat) + " identical, "@ + decimal(self.differ as nat)
            + " differ (of "@ + decimal(self.total as nat) + ")"@
    }

    /// The exit code of the comparison.
    pub open spec fn code(self) -> int {
        if self.differ == 0 {
            0
        } else {
            1
        }
    }

    /// What is printed of a request before it is sent.
    pub open spec fn sending_lines(self, req: CorpusRequest) -> Seq<Seq<char>> {
        if self.verbose {
            seq![
                "\n=== "@ + req.name@ + " ("@ + req.method@ + ") ===\nrequest params: "@
                    + pretty_text(self.sent_params(req)),
            ]
        } else {
            seq![]
        }
    }

    /// The start of a comparison of so many requests.
    pub fn new(state_block: Option<String>, verbose: bool, total: usize) -> (r: DiffRun)
        ensures
            r.wf(),
            r == (DiffRun { state_block, verbose, total, identical: 0, differ: 0 }),
    {
        DiffRun { state_block, verbose, total, identical: 0, differ: 0 }
    }

    /// The parameters that a request is sent with.
    pub open spec fn sent_params(self, req: CorpusRequest) -> JsonTree {
        match self.state_block {
            Some(block) => pinned(req.method@, req.params@, block@),
            None => req.params@,
        }
    }

    /// A state block is given, and the request needs the block after it.
    pub open spec fn needs_next_block(self, req: CorpusRequest) -> bool {
        self.state_block is Some && places_block(req.method@, req.params@)
    }

    /// Prepares a request of the corpus: the one request that goes to both
    /// endpoints, its parameters pinned to the state block if there is one, and
    /// what is printed before it is sent.
    pub fn prepare(&self, req: &CorpusRequest) -> (r: Result<(RpcRequest, Vec<String>), Failure>)
        ensures
            r is Err <==> self.needs_next_block(*req) && hex_number(self.state_block->0@) is None,
            r matches Err(f) ==> f@ == in_context(
                "state-block rewrite failed for '"@ + req.name@ + "'"@,
                hex_number_failure(self.state_block->0@),
            ),
            r matches Ok((request, lines)) ==> {
                &&& request.jsonrpc@ == "2.0"@
                &&& request.method@ == req.method@
                &&& request.params@ == self.sent_params(*req)
                &&& request.id == 1
                &&& lines_of(lines@) == self.sending_lines(*req)
                &&& lines_of(lines@) == if self.verbose {
                    seq![
                        "\n=== "@ + req.name@ + " ("@ + req.method@ + ") ===\nrequest params: "@
                            + pretty_text(self.sent_params(*req)),
                    ]
                } else {
                    seq![]
                }
            },
    {
        let mut params = req.params.copy();
        match &self.state_block {
            Some(block) => {
                match rewrite_state_block(req.method.as_str(), &mut params, block.as_str()) {
                    Ok(_) => {},
                    Err(f) => {
                        return Err(
                            f.context(
                                join3("state-block rewrite failed for '", req.name.as_str(), "'"),
                            ),
                        );
                    },
                }
            },
            None => {},
        }
        let lines = if self.verbose {
            let head = join5(
                "\n=== ",
                req.name.as_str(),
                " (",
                req.method.as_str(),
                ") ===\nrequest params: ",
            );
            one_line(join2(head.as_str(), params.pretty().as_str()))
        } else {
            no_lines()
        };
        let request = RpcRequest {
            jsonrpc: "2.0".to_string(),
            method: req.method.clone(),
            params,
            id: 1,
        };
        Ok((request, lines))
    }

    /// Takes in the answers of the two endpoints to a request: counts the case,
    /// and returns what is printed of it.
    pub fn settle(
        &mut self,
        name: &str,
        geth: Result<Json, Failure>,
        reth: Result<Json, Failure>,
    ) -> (lines: Vec<String>)
        requires
            old(self).wf(),
            old(self).compared() < old(self).total,
        ensures
            final(self).wf(),
            *final(self) == old(self).after(outcome_of(answer_of(geth), answer_of(reth))),
            lines_of(lines@) == case_lines(
                old(self).verbose,
                name@,
                answer_of(geth),
                answer_of(reth),
            ),
    {
        let head = padded_text(name, 40);
        match (geth, reth) {
            (Ok(g), Ok(r)) => {
                let mut g = g;
                let mut r = r;
                let mut lines = no_lines();
                if self.verbose {
                    add_line(&mut lines, join2("geth raw: ", g.text().as_str()));
                    add_line(&mut lines, join2("reth raw: ", r.text().as_str()));
                }
                assert(lines_of(lines@) =~= if self.verbose {
                    raw_lines(g@, r@)
                } else {
                    seq![]
                });
                if responses_match(&mut g, &mut r) {
                    self.identical = self.identical + 1;
                    add_line(&mut lines, join2(head.as_str(), " IDENTICAL \u{2713}"));
                } else {
                    self.differ = self.differ + 1;
                    add_line(&mut lines, join2(head.as_str(), " DIFFERS \u{2717}"));
                    add_line(
                        &mut lines,
                        join2("  --- geth (normalized) ---\n", g.pretty().as_str()),
                    );
                    add_line(
                        &mut lines,
                        join2("  --- reth (normalized) ---\n", r.pretty().as_str()),
                    );
                }
                assert(lines_of(lines@) =~= case_lines(
                    self.verbose,
                    name@,
                    answer_of(geth),
                    answer_of(reth),
                ));
                lines
            },
            (geth, reth) => {
                self.differ = self.differ + 1;
                let mut lines = one_line(
                    join2(head.as_str(), " FAILURE \u{2717} (transport error)"),
                );
                if let Err(f) = &geth {
                    add_line(&mut lines, join2("  geth error: ", f.detail().as_str()));
                }
                if let Err(f) = &reth {
                    add_line(&mut lines, join2("  reth error: ", f.detail().as_str()));
                }
                assert(lines_of(lines@) =~= case_lines(
                    self.verbose,
                    name@,
                    answer_of(geth),
                    answer_of(reth),
                ));
                lines
            },
        }
    }

    /// The last line of a comparison.
    pub fn summary(&self) -> (r: String)
        ensures
            r@ == self.closing_line(),
            r@ == "\n"@ + decimal(self.identical as nat) + " identical, "@ + decimal(
                self.differ as nat,
            ) + " differ (of "@ + decimal(self.total as nat) + ")"@,
    {
        let head = join5(
            "\n",
            decimal_text(self.identical as u64).as_str(),
            " identical, ",
            decimal_text(self.differ as u64).as_str(),
            " differ (of ",
        );
        join3(head.as_str(), decimal_text(self.total as u64).as_str(), ")")
    }

    /// The exit code of a comparison: zero if nothing differed.
    pub fn exit_code(&self) -> (r: i32)
        ensures
            r == self.code(),
            r == if self.differ == 0 {
                0int
            } else {
                1
            },
    {
        if self.differ == 0 {
            0
        } else {
            1
        }
    }
}

} // verus!
