//! Which checks every run makes, said by way of the checks: of which endpoints
//! each is made, and in which order.

use crate::chain::ChainType;
use crate::checks::{Check, check_name};
use crate::node::NodeType;
use crate::plan::{
    ItemView, Options, chain_plan, core_checks, core_plan, entry_of, feed_plan, node_plan,
    plan_of, row,
};
use crate::subscription::{Feed, feed_name};
use crate::text::decimal;
use vstd::prelude::*;

verus! {

/// The check is one that every node must pass.
pub open spec fn is_core(check: Check) -> bool {
    place_of(check) < 18
}

/// The check is made of endpoints on that chain, if it is not one that every node
/// must pass.
pub open spec fn fits_chain(check: Check, chain: ChainType) -> bool {
    match check {
        Check::OptimismOutputAtBlock => chain is Optimism || chain is Base,
        Check::ArbGetL1Confirmations => chain is Arbitrum,
        Check::ParliaGetSnapshot => chain is BSC,
        Check::ParliaGetValidators => chain is BSC,
        Check::EthGetFinalizedHeader => chain is BSC,
        Check::EthGetFinalizedBlock => chain is BSC,
        _ => false,
    }
}

/// The check is made of that software, if it is not one that every node must pass.
pub open spec fn fits_node(check: Check, node: NodeType) -> bool {
    match check {
        Check::EthEstimateGasBundle => node is Geth,
        Check::EthCallBundle => node is Geth,
        Check::EthSimulateV1 => node is Geth,
        Check::EthCalls => node is Geth,
        Check::EthGetBlockReceipts => node is Geth,
        Check::DebugTraceTransaction => node is Geth || node is OpGeth || node is BSCGeth,
        Check::DebugTraceBlockByNumber => node is Geth || node is OpGeth || node is BSCGeth,
        Check::TxpoolStatus => node is Geth || node is OpGeth || node is BSCGeth,
        Check::TxpoolContent => node is Geth || node is OpGeth || node is BSCGeth,
        Check::AdminNodeInfo => node is Geth || node is OpGeth || node is BSCGeth,
        Check::AdminPeers => node is Geth || node is OpGeth || node is BSCGeth,
        Check::EthCallMany => node is Reth || node is OpReth,
        Check::TraceTransaction => node is Reth || node is OpReth,
        Check::TraceBlock => node is Reth || node is OpReth,
        _ => false,
    }
}

/// The place of a check in the order in which checks are made: those that every
/// node must pass, then those of the chain, then those of the software.
pub open spec fn place_of(check: Check) -> int {
    match check {
        Check::EthChainId => 0,
        Check::EthBlockNumber => 1,
        Check::EthGasPrice => 2,
        Check::EthGetBalance => 3,
        Check::EthGetTransactionCount => 4,
        Check::EthGetBlockByNumber => 5,
        Check::EthGetBlockByHash => 6,
        Check::EthGetBlockWithTxs => 7,
        Check::EthGetTransactionByBlockHashAndIndex => 8,
        Check::EthCall => 9,
        Check::EthEstimateGas => 10,
        Check::EthFeeHistory => 11,
        Check::EthGetLogs => 12,
        Check::EthGetCode => 13,
        Check::EthGetTransactionReceipt => 14,
        Check::EthGetTransactionByHash => 15,
        Check::NetVersion => 16,
        Check::Web3ClientVersion => 17,
        Check::OptimismOutputAtBlock => 18,
        Check::ArbGetL1Confirmations => 19,
        Check::ParliaGetSnapshot => 20,
        Check::ParliaGetValidators => 21,
        Check::EthGetFinalizedHeader => 22,
        Check::EthGetFinalizedBlock => 23,
        Check::EthEstimateGasBundle => 24,
        Check::EthCallBundle => 25,
        Check::EthSimulateV1 => 26,
        Check::EthCalls => 27,
        Check::EthGetBlockReceipts => 28,
        Check::DebugTraceTransaction => 29,
        Check::DebugTraceBlockByNumber => 30,
        Check::TxpoolStatus => 31,
        Check::TxpoolContent => 32,
        Check::AdminNodeInfo => 33,
        Check::AdminPeers => 34,
        Check::EthCallMany => 35,
        Check::TraceTransaction => 36,
        Check::TraceBlock => 37,
    }
}

/// The checks among the items come in their order, none of them twice.
pub open spec fn in_order(items: Seq<ItemView>) -> bool {
    forall|i: int, j: int|
        0 <= i < j < items.len() && (#[trigger] items[i]) is Run && (#[trigger] items[j]) is Run
            ==> place_of(items[i]->Run_0) < place_of(items[j]->Run_0)
}

/// All checks among the items have their place from `low` on and before `high`,
/// and are optional or not.
pub open spec fn placed(items: Seq<ItemView>, low: int, high: int, optional: bool) -> bool {
    forall|i: int|
        0 <= i < items.len() && (#[trigger] items[i]) is Run ==> low <= place_of(items[i]->Run_0)
            < high && items[i]->Run_1 == optional
}

proof fn lemma_core_plan(check: Check)
    ensures
        core_plan().len() == 19,
        core_plan()[0] == ItemView::Print("=== Core EVM RPC Methods ===\n"@),
        in_order(core_plan()),
        placed(core_plan(), 0, 18, false),
        is_core(check) ==> core_plan()[place_of(check) + 1] == ItemView::Run(check, false),
        forall|i: int| 0 <= i < core_plan().len() ==> !((#[trigger] core_plan()[i]) is Listen),
{
    let core = core_plan();
    assert forall|i: int| 1 <= i < 19 implies (#[trigger] core[i]) is Run && place_of(
        core[i]->Run_0,
    ) == i - 1 && !core[i]->Run_1 by {
        assert(core[i] == row(core_checks(), false)[i - 1]);
    }
    if is_core(check) {
        let i = place_of(check) + 1;
        assert(core[i] is Run && place_of(core[i]->Run_0) == i - 1);
        lemma_places_differ(core[i]->Run_0, check);
    }
}

proof fn lemma_places_differ(a: Check, b: Check)
    ensures
        place_of(a) == place_of(b) ==> a == b,
        0 <= place_of(a) < 38,
{
}

/// The number of checks that are made of endpoints on that chain.
pub open spec fn chain_count(chain: ChainType) -> int {
    match chain {
        ChainType::Optimism => 1,
        ChainType::Arbitrum => 1,
        ChainType::Base => 1,
        ChainType::BSC => 4,
        _ => 0,
    }
}

/// The number of checks that are made of that software.
pub open spec fn node_count(node: NodeType) -> int {
    match node {
        NodeType::Geth => 11,
        NodeType::OpGeth => 6,
        NodeType::BSCGeth => 6,
        NodeType::Reth => 3,
        NodeType::OpReth => 3,
        _ => 0,
    }
}

proof fn lemma_chain_plan(chain: ChainType, check: Check)
    ensures
        chain_plan(chain).len() == 1 + chain_count(chain),
        chain_plan(chain)[0] is Print,
        in_order(chain_plan(chain)),
        placed(chain_plan(chain), 18, 24, true),
        fits_chain(check, chain) <==> exists|i: int|
            0 <= i < chain_plan(chain).len() && chain_plan(chain)[i] == ItemView::Run(check, true),
        forall|i: int|
            0 <= i < chain_plan(chain).len() ==> !((#[trigger] chain_plan(chain)[i]) is Listen),
{
    let plan = chain_plan(chain);
    assert forall|i: int| 1 <= i < plan.len() implies (#[trigger] plan[i]) is Run && plan[i]->Run_1
        && fits_chain(plan[i]->Run_0, chain) by {}
    if fits_chain(check, chain) {
        let i: int = if chain is BSC {
            place_of(check) - 19
        } else {
            1
        };
        assert(plan[i] == ItemView::Run(check, true));
    }
}

proof fn lemma_node_plan(node: NodeType, check: Check)
    ensures
        node_plan(node).len() == 1 + node_count(node),
        node_plan(node)[0] is Print,
        in_order(node_plan(node)),
        placed(node_plan(node), 24, 38, true),
        fits_node(check, node) <==> exists|i: int|
            0 <= i < node_plan(node).len() && node_plan(node)[i] == ItemView::Run(check, true),
        forall|i: int|
            0 <= i < node_plan(node).len() ==> !((#[trigger] node_plan(node)[i]) is Listen),
{
    let plan = node_plan(node);
    let first: int = if node is Geth {
        24
    } else if node is OpGeth || node is BSCGeth {
        29
    } else {
        35
    };
    assert forall|i: int| 1 <= i < plan.len() implies (#[trigger] plan[i]) is Run && plan[i]->Run_1
        && place_of(plan[i]->Run_0) == first + i - 1 && fits_node(plan[i]->Run_0, node) by {}
    if fits_node(check, node) {
        let i = place_of(check) - first + 1;
        assert(plan[i] is Run && place_of(plan[i]->Run_0) == place_of(check));
        lemma_places_differ(plan[i]->Run_0, check);
    }
}

/// The parts of a plan: what every run has, what depends on the endpoint, and the
/// feeds.
proof fn lemma_parts(chain: ChainType, node: NodeType, is_websocket: bool, options: Options) -> (r:
    (Seq<ItemView>, Seq<ItemView>))
    ensures
        r.0 == if options.skip_chain_specific {
            Seq::empty()
        } else {
            chain_plan(chain) + node_plan(node)
        },
        r.1 == if options.test_subscriptions {
            feed_plan(is_websocket, options.subscription_duration)
        } else {
            Seq::empty()
        },
        plan_of(chain, node, is_websocket, options) == core_plan() + r.0 + r.1,
        forall|i: int| 0 <= i < r.1.len() ==> !((#[trigger] r.1[i]) is Run),
{
    let middle = if options.skip_chain_specific {
        Seq::empty()
    } else {
        chain_plan(chain) + node_plan(node)
    };
    let feeds = if options.test_subscriptions {
        feed_plan(is_websocket, options.subscription_duration)
    } else {
        Seq::empty()
    };
    assert(plan_of(chain, node, is_websocket, options) =~= core_plan() + middle + feeds);
    (middle, feeds)
}

/// A run makes a check exactly if every node must pass it, or if it is not told to
/// leave out the specific ones and the check fits the chain or the software; the
/// former must pass, the latter are optional.
pub proof fn law_what_is_checked_of_an_endpoint(
    chain: ChainType,
    node: NodeType,
    is_websocket: bool,
    options: Options,
    check: Check,
    optional: bool,
)
    ensures
        (exists|i: int|
            0 <= i < plan_of(chain, node, is_websocket, options).len() && #[trigger] plan_of(
                chain,
                node,
                is_websocket,
                options,
            )[i] == ItemView::Run(check, optional)) <==> if optional {
            !options.skip_chain_specific && (fits_chain(check, chain) || fits_node(check, node))
        } else {
            is_core(check)
        },
{
    let all = plan_of(chain, node, is_websocket, options);
    let (middle, feeds) = lemma_parts(chain, node, is_websocket, options);
    let core = core_plan();
    let run = ItemView::Run(check, optional);
    lemma_core_plan(check);
    lemma_chain_plan(chain, check);
    lemma_node_plan(node, check);
    if exists|i: int| 0 <= i < all.len() && #[trigger] all[i] == run {
        let i = choose|i: int| 0 <= i < all.len() && #[trigger] all[i] == run;
        if i < core.len() {
            assert(core[i] == run);
        } else if i < core.len() + middle.len() {
            let k = i - core.len();
            assert(middle[k] == run);
            if k < chain_plan(chain).len() {
                assert(chain_plan(chain)[k] == run);
            } else {
                assert(node_plan(node)[k - chain_plan(chain).len()] == run);
            }
        } else {
            assert(feeds[i - core.len() - middle.len()] == run);
        }
    }
    if !optional && is_core(check) {
        let i = place_of(check) + 1;
        assert(all[i] == core[i]);
    }
    if optional && !options.skip_chain_specific {
        if fits_chain(check, chain) {
            let k = choose|k: int|
                0 <= k < chain_plan(chain).len() && chain_plan(chain)[k] == ItemView::Run(
                    check,
                    true,
                );
            assert(all[core.len() + k] == middle[k]);
        }
        if fits_node(check, node) {
            let k = choose|k: int|
                0 <= k < node_plan(node).len() && node_plan(node)[k] == ItemView::Run(check, true);
            assert(all[core.len() + chain_plan(chain).len() + k] == middle[chain_plan(chain).len()
                + k]);
        }
    }
}

/// The checks of a run come in one order, whatever the endpoint, and none of them
/// twice.
pub proof fn law_checks_come_in_order(
    chain: ChainType,
    node: NodeType,
    is_websocket: bool,
    options: Options,
)
    ensures
        in_order(plan_of(chain, node, is_websocket, options)),
{
    let all = plan_of(chain, node, is_websocket, options);
    let (middle, feeds) = lemma_parts(chain, node, is_websocket, options);
    let core = core_plan();
    let c = chain_plan(chain);
    let n = node_plan(node);
    lemma_core_plan(Check::EthChainId);
    lemma_chain_plan(chain, Check::EthChainId);
    lemma_node_plan(node, Check::EthChainId);
    assert forall|i: int, j: int|
        0 <= i < j < all.len() && (#[trigger] all[i]) is Run && (#[trigger] all[j])
            is Run implies place_of(all[i]->Run_0) < place_of(all[j]->Run_0) by {
        lemma_where(core, c, n, middle, feeds, all, i);
        lemma_where(core, c, n, middle, feeds, all, j);
    }
}

proof fn lemma_where(
    core: Seq<ItemView>,
    c: Seq<ItemView>,
    n: Seq<ItemView>,
    middle: Seq<ItemView>,
    feeds: Seq<ItemView>,
    all: Seq<ItemView>,
    i: int,
)
    requires
        all == core + middle + feeds,
        middle.len() == 0 || middle == c + n,
        0 <= i < all.len(),
    ensures
        i < core.len() ==> all[i] == core[i],
        core.len() <= i < core.len() + middle.len() ==> {
            let k = i - core.len();
            &&& middle == c + n
            &&& k < c.len() ==> all[i] == c[k]
            &&& k >= c.len() ==> all[i] == n[k - c.len()] && 0 <= k - c.len() < n.len()
        },
        i >= core.len() + middle.len() ==> all[i] == feeds[i - core.len() - middle.len()] && 0 <= i
            - core.len() - middle.len() < feeds.len(),
{
}

/// A run that does not leave out the specific checks has a heading for the chain
/// behind the checks that every node must pass, and one for the software behind
/// those of the chain.
pub proof fn law_headings(chain: ChainType, node: NodeType, is_websocket: bool, options: Options)
    requires
        !options.skip_chain_specific,
    ensures
        ({
            let all = plan_of(chain, node, is_websocket, options);
            let of_chain = all[19];
            let of_node = all[20 + chain_count(chain)];
            &&& all[0] == ItemView::Print("=== Core EVM RPC Methods ===\n"@)
            &&& of_chain == ItemView::Print(
                match chain {
                    ChainType::Optimism => "\n=== Optimism-Specific Methods ===\n"@,
                    ChainType::Arbitrum => "\n=== Arbitrum-Specific Methods ===\n"@,
                    ChainType::Ethereum => "\n=== Ethereum Mainnet ===\n"@,
                    ChainType::BSC => "\n=== BSC-Specific Methods ===\n"@,
                    ChainType::Base => "\n=== Base (no chain-specific methods) ===\n"@,
                    ChainType::Unknown =>
                        "\n=== Unknown chain - skipping chain-specific tests ===\n"@,
                },
            )
            &&& of_node == ItemView::Print(
                match node {
                    NodeType::Geth => "\n=== Geth-Specific Methods ===\n"@,
                    NodeType::OpGeth => "\n=== op-geth Methods (Standard Geth APIs only) ===\n"@,
                    NodeType::BSCGeth => "\n=== BSC-Geth Methods (Standard Geth APIs only) ===\n"@,
                    NodeType::Reth => "\n=== Reth-Specific Methods ===\n"@,
                    NodeType::OpReth => "\n=== Reth-Specific Methods ===\n"@,
                    NodeType::Nitro => "\n=== Arbitrum Nitro Node ===\n"@,
                    NodeType::Unknown =>
                        "\n=== Unknown node type - skipping node-specific tests ===\n"@,
                },
            )
        }),
{
    let all = plan_of(chain, node, is_websocket, options);
    let (middle, feeds) = lemma_parts(chain, node, is_websocket, options);
    lemma_core_plan(Check::EthChainId);
    lemma_chain_plan(chain, Check::EthChainId);
    lemma_node_plan(node, Check::EthChainId);
    let c = chain_plan(chain);
    let n = node_plan(node);
    lemma_where(core_plan(), c, n, middle, feeds, all, 0);
    lemma_where(core_plan(), c, n, middle, feeds, all, 19);
    lemma_where(core_plan(), c, n, middle, feeds, all, 20 + chain_count(chain));
}

/// A line that is printed is no check; a check is entered under its name, and a feed
/// under its own, as one that must pass.
pub proof fn law_items_are_entered_by_name(line: Seq<char>, check: Check, optional: bool, feed: Feed)
    ensures
        entry_of(ItemView::Print(line)) is None,
        entry_of(ItemView::Run(check, optional)) == Some((check_name(check), optional)),
        entry_of(ItemView::Listen(feed)) == Some((feed_name(feed), false)),
{
}

/// How many items a run has, and that the feeds are the last of them: the four in
/// their order over a WebSocket, behind the time that each is listened to, and a
/// notice otherwise.
pub proof fn law_feeds_come_last(
    chain: ChainType,
    node: NodeType,
    is_websocket: bool,
    options: Options,
)
    ensures
        ({
            let all = plan_of(chain, node, is_websocket, options);
            let before: int = if options.skip_chain_specific {
                19
            } else {
                21 + chain_count(chain) + node_count(node)
            };
            &&& !options.test_subscriptions ==> all.len() == before
            &&& options.test_subscriptions ==> all[before] == ItemView::Print(
                "\n=== WebSocket Subscription Tests ===\n"@,
            )
            &&& options.test_subscriptions && is_websocket ==> {
                &&& all.len() == before + 6
                &&& all[before + 1] == ItemView::Print(
                    "Listening duration: "@ + decimal(options.subscription_duration as nat)
                        + "s per subscription\n"@,
                )
                &&& all[before + 2] == ItemView::Listen(Feed::NewHeads)
                &&& all[before + 3] == ItemView::Listen(Feed::Logs)
                &&& all[before + 4] == ItemView::Listen(Feed::PendingTransactions)
                &&& all[before + 5] == ItemView::Listen(Feed::Syncing)
            }
            &&& options.test_subscriptions && !is_websocket ==> {
                &&& all.len() == before + 2
                &&& all[before + 1] == ItemView::Print(
                    "⚠ Skipped: WebSocket URL required (use ws:// or wss://)\n"@,
                )
            }
        }),
{
    let (middle, feeds) = lemma_parts(chain, node, is_websocket, options);
    lemma_core_plan(Check::EthChainId);
    lemma_chain_plan(chain, Check::EthChainId);
    lemma_node_plan(node, Check::EthChainId);
    let before = core_plan().len() + middle.len();
    assert forall|k: int| 0 <= k < feeds.len() implies #[trigger] plan_of(
        chain,
        node,
        is_websocket,
        options,
    )[before + k] == feeds[k] by {}
}

} // verus!
