//! Which checks a run makes, in which order.

use crate::chain::ChainType;
use crate::checks::{Check, check_name};
use crate::node::{NodeType, has_debug_namespace, has_trace_namespace};
use crate::subscription::{Feed, feed_name};
use crate::text::{decimal, decimal_text, join3};
use vstd::prelude::*;

verus! {

/// One item of a run.
pub enum Item {
    /// A line is printed.
    Print(String),
    /// A check is made, which may be optional.
    Run(Check, bool),
    /// A feed is listened to.
    Listen(Feed),
}

/// One item of a run, read mathematically. Of a check it says whether it is
/// optional.
pub enum ItemView {
    Print(Seq<char>),
    Run(Check, bool),
    Listen(Feed),
}

impl View for Item {
    type V = ItemView;

    open spec fn view(&self) -> ItemView {
        match self {
            Item::Print(s) => ItemView::Print(s@),
            Item::Run(check, optional) => ItemView::Run(*check, *optional),
            Item::Listen(feed) => ItemView::Listen(*feed),
        }
    }
}

/// What an item adds to the results: the name of its check, and whether the check
/// is optional. A feed that is listened to is a check that must pass.
pub open spec fn entry_of(item: ItemView) -> Option<(Seq<char>, bool)> {
    match item {
        ItemView::Print(_) => None,
        ItemView::Run(check, optional) => Some((check_name(check), optional)),
        ItemView::Listen(feed) => Some((feed_name(feed), false)),
    }
}

impl Item {
    /// What the item adds to the results: the name of its check, and whether the
    /// check is optional.
    pub fn entry(&self) -> (r: Option<(&'static str, bool)>)
        ensures
            r is Some <==> entry_of(self@) is Some,
            r matches Some((name, optional)) ==> entry_of(self@) == Some((name@, optional)),
    {
        match self {
            Item::Print(_) => None,
            Item::Run(check, optional) => Some((check.name(), *optional)),
            Item::Listen(feed) => Some((feed.name(), false)),
        }
    }
}

/// The items of a list.
pub open spec fn items_of(items: Seq<Item>) -> Seq<ItemView> {
    items.map_values(|i: Item| i@)
}

/// Checks in a row, all of them optional or none.
pub open spec fn row(checks: Seq<Check>, optional: bool) -> Seq<ItemView> {
    checks.map_values(|c: Check| ItemView::Run(c, optional))
}

/// A heading and optional checks below it.
pub open spec fn section(heading: Seq<char>, checks: Seq<Check>) -> Seq<ItemView> {
    seq![ItemView::Print(heading)] + row(checks, true)
}

/// The checks that every node must pass.
pub open spec fn core_checks() -> Seq<Check> {
    seq![
        Check::EthChainId,
        Check::EthBlockNumber,
        Check::EthGasPrice,
        Check::EthGetBalance,
        Check::EthGetTransactionCount,
        Check::EthGetBlockByNumber,
        Check::EthGetBlockByHash,
        Check::EthGetBlockWithTxs,
        Check::EthGetTransactionByBlockHashAndIndex,
        Check::EthCall,
        Check::EthEstimateGas,
        Check::EthFeeHistory,
        Check::EthGetLogs,
        Check::EthGetCode,
        Check::EthGetTransactionReceipt,
        Check::EthGetTransactionByHash,
        Check::NetVersion,
        Check::Web3ClientVersion,
    ]
}

/// The first part of every run.
pub open spec fn core_plan() -> Seq<ItemView> {
    seq![ItemView::Print("=== Core EVM RPC Methods ===\n"@)] + row(core_checks(), false)
}

/// The part of a run that depends on the chain.
pub open spec fn chain_plan(chain: ChainType) -> Seq<ItemView> {
    match chain {
        ChainType::Optimism => section(
            "\n=== Optimism-Specific Methods ===\n"@,
            seq![Check::OptimismOutputAtBlock],
        ),
        ChainType::Arbitrum => section(
            "\n=== Arbitrum-Specific Methods ===\n"@,
            seq![Check::ArbGetL1Confirmations],
        ),
        ChainType::Ethereum => section("\n=== Ethereum Mainnet ===\n"@, seq![]),
        ChainType::BSC => section(
            "\n=== BSC-Specific Methods ===\n"@,
            seq![
                Check::ParliaGetSnapshot,
                Check::ParliaGetValidators,
                Check::EthGetFinalizedHeader,
                Check::EthGetFinalizedBlock,
            ],
        ),
        ChainType::Base => section(
            "\n=== Base (no chain-specific methods) ===\n"@,
            seq![Check::OptimismOutputAtBlock],
        ),
        ChainType::Unknown => section(
            "\n=== Unknown chain - skipping chain-specific tests ===\n"@,
            seq![],
        ),
    }
}

/// The checks of the debug namespace, for software that has it.
pub open spec fn debug_checks(node: NodeType) -> Seq<Check> {
    if has_debug_namespace(node) {
        seq![Check::DebugTraceTransaction, Check::DebugTraceBlockByNumber]
    } else {
        seq![]
    }
}

/// The checks of the trace namespace, for software that has it.
pub open spec fn trace_checks(node: NodeType) -> Seq<Check> {
    if has_trace_namespace(node) {
        seq![Check::TraceTransaction, Check::TraceBlock]
    } else {
        seq![]
    }
}

/// The checks that all kinds of Geth share.
pub open spec fn geth_checks(node: NodeType) -> Seq<Check> {
    debug_checks(node) + seq![
        Check::TxpoolStatus,
        Check::TxpoolContent,
        Check::AdminNodeInfo,
        Check::AdminPeers,
    ]
}

/// The checks of Geth with its bundle and simulation methods.
pub open spec fn bundle_checks() -> Seq<Check> {
    seq![
        Check::EthEstimateGasBundle,
        Check::EthCallBundle,
        Check::EthSimulateV1,
        Check::EthCalls,
        Check::EthGetBlockReceipts,
    ]
}

/// The part of a run that depends on the node software.
pub open spec fn node_plan(node: NodeType) -> Seq<ItemView> {
    match node {
        NodeType::Geth => section(
            "\n=== Geth-Specific Methods ===\n"@,
            bundle_checks() + geth_checks(node),
        ),
        NodeType::OpGeth => section(
            "\n=== op-geth Methods (Standard Geth APIs only) ===\n"@,
            geth_checks(node),
        ),
        NodeType::BSCGeth => section(
            "\n=== BSC-Geth Methods (Standard Geth APIs only) ===\n"@,
            geth_checks(node),
        ),
        NodeType::Reth => section(
            "\n=== Reth-Specific Methods ===\n"@,
            seq![Check::EthCallMany] + trace_checks(node),
        ),
        NodeType::OpReth => section(
            "\n=== Reth-Specific Methods ===\n"@,
            seq![Check::EthCallMany] + trace_checks(node),
        ),
        NodeType::Nitro => section("\n=== Arbitrum Nitro Node ===\n"@, seq![]),
        NodeType::Unknown => section(
            "\n=== Unknown node type - skipping node-specific tests ===\n"@,
            seq![],
        ),
    }
}

/// The part of a run that listens to feeds, for so many seconds each.
pub open spec fn feed_plan(is_websocket: bool, seconds: u64) -> Seq<ItemView> {
    if is_websocket {
        seq![
            ItemView::Print("\n=== WebSocket Subscription Tests ===\n"@),
            ItemView::Print(
                "Listening duration: "@ + decimal(seconds as nat) + "s per subscription\n"@,
            ),
            ItemView::Listen(Feed::NewHeads),
            ItemView::Listen(Feed::Logs),
            ItemView::Listen(Feed::PendingTransactions),
            ItemView::Listen(Feed::Syncing),
        ]
    } else {
        seq![
            ItemView::Print("\n=== WebSocket Subscription Tests ===\n"@),
            ItemView::Print("⚠ Skipped: WebSocket URL required (use ws:// or wss://)\n"@),
        ]
    }
}

/// What the user asks of a run.
pub struct Options {
    /// Leave out what depends on the chain and the node software.
    pub skip_chain_specific: bool,
    /// Listen to feeds.
    pub test_subscriptions: bool,
    /// How long to listen to each feed.
    pub subscription_duration: u64,
}

/// The items of a run, in order.
pub open spec fn plan_of(
    chain: ChainType,
    node: NodeType,
    is_websocket: bool,
    options: Options,
) -> Seq<ItemView> {
    core_plan() + (if options.skip_chain_specific {
        seq![]
    } else {
        chain_plan(chain) + node_plan(node)
    }) + (if options.test_subscriptions {
        feed_plan(is_websocket, options.subscription_duration)
    } else {
        seq![]
    })
}

/// Adds a line to be printed.
fn add_print(items: &mut Vec<Item>, line: &str)
    ensures
        items_of(final(items)@) == items_of(old(items)@).push(ItemView::Print(line@)),
{
    items.push(Item::Print(line.to_string()));
    assert(items_of(items@) =~= items_of(old(items)@).push(ItemView::Print(line@)));
}

/// Adds checks in a row.
fn add_checks(items: &mut Vec<Item>, checks: &[Check], optional: bool)
    ensures
        items_of(final(items)@) == items_of(old(items)@) + row(checks@, optional),
{
    let ghost before = items_of(items@);
    let mut i: usize = 0;
    assert(before + row(checks@, optional).take(0) =~= before);
    while i < checks.len()
        invariant
            i <= checks.len(),
            items_of(items@) == before + row(checks@, optional).take(i as int),
        decreases checks.len() - i,
    {
        let ghost so_far = items@;
        items.push(Item::Run(checks[i], optional));
        assert(items_of(items@) =~= items_of(so_far).push(row(checks@, optional)[i as int]));
        assert(before + row(checks@, optional).take(i + 1) =~= (before + row(
            checks@,
            optional,
        ).take(i as int)).push(row(checks@, optional)[i as int]));
        i = i + 1;
    }
    assert(row(checks@, optional).take(i as int) =~= row(checks@, optional));
}

/// Adds a heading and optional checks below it.
fn add_section(items: &mut Vec<Item>, heading: &str, checks: &[Check])
    ensures
        items_of(final(items)@) == items_of(old(items)@) + section(heading@, checks@),
{
    add_print(items, heading);
    add_checks(items, checks, true);
    assert(items_of(items@) =~= items_of(old(items)@) + section(heading@, checks@));
}

fn add_core(items: &mut Vec<Item>)
    ensures
        items_of(final(items)@) == items_of(old(items)@) + core_plan(),
{
    let checks = [
        Check::EthChainId,
        Check::EthBlockNumber,
        Check::EthGasPrice,
        Check::EthGetBalance,
        Check::EthGetTransactionCount,
        Check::EthGetBlockByNumber,
        Check::EthGetBlockByHash,
        Check::EthGetBlockWithTxs,
        Check::EthGetTransactionByBlockHashAndIndex,
        Check::EthCall,
        Check::EthEstimateGas,
        Check::EthFeeHistory,
        Check::EthGetLogs,
        Check::EthGetCode,
        Check::EthGetTransactionReceipt,
        Check::EthGetTransactionByHash,
        Check::NetVersion,
        Check::Web3ClientVersion,
    ];
    assert(checks@ =~= core_checks());
    add_print(items, "=== Core EVM RPC Methods ===\n");
    add_checks(items, &checks, false);
    assert(items_of(items@) =~= items_of(old(items)@) + core_plan());
}

fn add_chain(items: &mut Vec<Item>, chain: &ChainType)
    ensures
        items_of(final(items)@) == items_of(old(items)@) + chain_plan(*chain),
{
    match chain {
        ChainType::Optimism => {
            let checks = [Check::OptimismOutputAtBlock];
            assert(checks@ =~= seq![Check::OptimismOutputAtBlock]);
            add_section(items, "\n=== Optimism-Specific Methods ===\n", &checks);
        },
        ChainType::Arbitrum => {
            let checks = [Check::ArbGetL1Confirmations];
            assert(checks@ =~= seq![Check::ArbGetL1Confirmations]);
            add_section(items, "\n=== Arbitrum-Specific Methods ===\n", &checks);
        },
        ChainType::Ethereum => {
            let checks: [Check; 0] = [];
            assert(checks@ =~= seq![]);
            add_section(items, "\n=== Ethereum Mainnet ===\n", &checks);
        },
        ChainType::BSC => {
            let checks = [
                // Parlia consensus
                Check::ParliaGetSnapshot,
                Check::ParliaGetValidators,
                // fast finality
                Check::EthGetFinalizedHeader,
                Check::EthGetFinalizedBlock,
            ];
            assert(checks@ =~= seq![
                Check::ParliaGetSnapshot,
                Check::ParliaGetValidators,
                Check::EthGetFinalizedHeader,
                Check::EthGetFinalizedBlock,
            ]);
            add_section(items, "\n=== BSC-Specific Methods ===\n", &checks);
        },
        ChainType::Base => {
            let checks = [Check::OptimismOutputAtBlock];
            assert(checks@ =~= seq![Check::OptimismOutputAtBlock]);
            add_section(items, "\n=== Base (no chain-specific methods) ===\n", &checks);
        },
        ChainType::Unknown => {
            let checks: [Check; 0] = [];
            assert(checks@ =~= seq![]);
            add_section(
                items,
                "\n=== Unknown chain - skipping chain-specific tests ===\n",
                &checks,
            );
        },
    }
}

/// Adds the checks that all kinds of Geth share.
fn add_geth(items: &mut Vec<Item>, node: &NodeType)
    ensures
        items_of(final(items)@) == items_of(old(items)@) + row(geth_checks(*node), true),
{
    if node.supports_debug_namespace() {
        let checks = [Check::DebugTraceTransaction, Check::DebugTraceBlockByNumber];
        assert(checks@ =~= debug_checks(*node));
        add_checks(items, &checks, true);
    }
    assert(items_of(items@) =~= items_of(old(items)@) + row(debug_checks(*node), true));
    let checks = [
        Check::TxpoolStatus,
        Check::TxpoolContent,
        Check::AdminNodeInfo,
        Check::AdminPeers,
    ];
    assert(debug_checks(*node) + checks@ =~= geth_checks(*node));
    add_checks(items, &checks, true);
    assert(items_of(items@) =~= items_of(old(items)@) + row(geth_checks(*node), true));
}

/// Adds the checks of Reth.
fn add_reth(items: &mut Vec<Item>, node: &NodeType)
    ensures
        items_of(final(items)@) == items_of(old(items)@) + section(
            "\n=== Reth-Specific Methods ===\n"@,
            seq![Check::EthCallMany] + trace_checks(*node),
        ),
{
    let checks = [Check::EthCallMany];
    assert(checks@ =~= seq![Check::EthCallMany]);
    add_section(items, "\n=== Reth-Specific Methods ===\n", &checks);
    if node.supports_trace_namespace() {
        let more = [Check::TraceTransaction, Check::TraceBlock];
        assert(more@ =~= trace_checks(*node));
        add_checks(items, &more, true);
    }
    assert(items_of(items@) =~= items_of(old(items)@) + section(
        "\n=== Reth-Specific Methods ===\n"@,
        seq![Check::EthCallMany] + trace_checks(*node),
    ));
}

fn add_node(items: &mut Vec<Item>, node: &NodeType)
    ensures
        items_of(final(items)@) == items_of(old(items)@) + node_plan(*node),
{
    match node {
        NodeType::Geth => {
            let checks = [
                // bundles
                Check::EthEstimateGasBundle,
                Check::EthCallBundle,
                // simulation
                Check::EthSimulateV1,
                // calls in a batch
                Check::EthCalls,
                Check::EthGetBlockReceipts,
            ];
            assert(checks@ =~= bundle_checks());
            add_section(items, "\n=== Geth-Specific Methods ===\n", &checks);
            add_geth(items, node);
        },
        NodeType::OpGeth => {
            add_print(items, "\n=== op-geth Methods (Standard Geth APIs only) ===\n");
            add_geth(items, node);
        },
        NodeType::BSCGeth => {
            add_print(items, "\n=== BSC-Geth Methods (Standard Geth APIs only) ===\n");
            add_geth(items, node);
        },
        NodeType::Reth | NodeType::OpReth => {
            add_reth(items, node);
        },
        NodeType::Nitro => {
            add_print(items, "\n=== Arbitrum Nitro Node ===\n");
        },
        NodeType::Unknown => {
            add_print(items, "\n=== Unknown node type - skipping node-specific tests ===\n");
        },
    }
    assert(items_of(items@) =~= items_of(old(items)@) + node_plan(*node));
}

/// Adds a feed to listen to.
fn add_feed(items: &mut Vec<Item>, feed: Feed)
    ensures
        items_of(final(items)@) == items_of(old(items)@).push(ItemView::Listen(feed)),
{
    items.push(Item::Listen(feed));
    assert(items_of(items@) =~= items_of(old(items)@).push(ItemView::Listen(feed)));
}

fn add_feeds(items: &mut Vec<Item>, is_websocket: bool, seconds: u64)
    ensures
        items_of(final(items)@) == items_of(old(items)@) + feed_plan(is_websocket, seconds),
{
    add_print(items, "\n=== WebSocket Subscription Tests ===\n");
    if is_websocket {
        let line = join3(
            "Listening duration: ",
            decimal_text(seconds).as_str(),
            "s per subscription\n",
        );
        add_print(items, line.as_str());
        add_feed(items, Feed::NewHeads);
        add_feed(items, Feed::Logs);
        add_feed(items, Feed::PendingTransactions);
        add_feed(items, Feed::Syncing);
    } else {
        add_print(items, "⚠ Skipped: WebSocket URL required (use ws:// or wss://)\n");
    }
    assert(items_of(items@) =~= items_of(old(items)@) + feed_plan(is_websocket, seconds));
}

/// The items of a run, in order.
pub fn plan(chain: &ChainType, node: &NodeType, is_websocket: bool, options: &Options) -> (r: Vec<
    Item,
>)
    ensures
        items_of(r@) == plan_of(*chain, *node, is_websocket, *options),
{
    let mut items: Vec<Item> = Vec::new();
    add_core(&mut items);
    if !options.skip_chain_specific {
        add_chain(&mut items, chain);
        add_node(&mut items, node);
    }
    if options.test_subscriptions {
        add_feeds(&mut items, is_websocket, options.subscription_duration);
    }
    assert(items_of(items@) =~= plan_of(*chain, *node, is_websocket, *options));
    items
}

/// The core checks come first in every run, in the same order, and the node must
/// pass them, and the feeds that are listened to; every other check of a run is
/// optional.
pub proof fn law_core_checks_are_required(
    chain: ChainType,
    node: NodeType,
    is_websocket: bool,
    options: Options,
)
    ensures
        core_plan().is_prefix_of(plan_of(chain, node, is_websocket, options)),
        forall|i: int|
            #![trigger plan_of(chain, node, is_websocket, options)[i]]
            0 <= i < plan_of(chain, node, is_websocket, options).len() ==> {
                let item = plan_of(chain, node, is_websocket, options)[i];
                entry_of(item) matches Some((_, optional)) ==> (optional <==> i
                    >= core_plan().len() && !(item is Listen))
            },
{
    let all = plan_of(chain, node, is_websocket, options);
    let core = core_plan();
    assert(all.take(core.len() as int) =~= core);
    let middle = if options.skip_chain_specific {
        Seq::empty()
    } else {
        chain_plan(chain) + node_plan(node)
    };
    let feeds = if options.test_subscriptions {
        feed_plan(is_websocket, options.subscription_duration)
    } else {
        Seq::empty()
    };
    assert(all =~= core + middle + feeds);
    assert forall|i: int| 0 <= i < all.len() implies (entry_of(#[trigger] all[i]) matches Some(
        (_, optional),
    ) ==> (optional <==> i >= core.len() && !(all[i] is Listen))) by {
        if i < core.len() {
            assert(all[i] == core[i]);
        } else if i < core.len() + middle.len() {
            let k = i - core.len();
            assert(all[i] == middle[k]);
            if k < chain_plan(chain).len() {
                assert(middle[k] == chain_plan(chain)[k]);
            } else {
                assert(middle[k] == node_plan(node)[k - chain_plan(chain).len()]);
            }
        } else {
            let k = i - core.len() - middle.len();
            assert(all[i] == feeds[k]);
        }
    }
}

/// A run that leaves out what depends on the chain and the node software, and
/// listens to no feed, makes the core checks only, whatever the endpoint.
pub proof fn law_the_shortest_run(chain: ChainType, node: NodeType, is_websocket: bool, seconds: u64)
    ensures
        plan_of(
            chain,
            node,
            is_websocket,
            Options {
                skip_chain_specific: true,
                test_subscriptions: false,
                subscription_duration: seconds,
            },
        ) == core_plan(),
{
    let options = Options {
        skip_chain_specific: true,
        test_subscriptions: false,
        subscription_duration: seconds,
    };
    assert(plan_of(chain, node, is_websocket, options) =~= core_plan());
}

/// Feeds are listened to only over a WebSocket, and only if the user asks for it.
pub proof fn law_feeds_need_a_websocket(
    chain: ChainType,
    node: NodeType,
    is_websocket: bool,
    options: Options,
)
    ensures
        (exists|i: int|
            0 <= i < plan_of(chain, node, is_websocket, options).len()
                && #[trigger] plan_of(chain, node, is_websocket, options)[i] is Listen)
            <==> is_websocket && options.test_subscriptions,
{
    let all = plan_of(chain, node, is_websocket, options);
    let core = core_plan();
    let middle = if options.skip_chain_specific {
        Seq::empty()
    } else {
        chain_plan(chain) + node_plan(node)
    };
    let feeds = if options.test_subscriptions {
        feed_plan(is_websocket, options.subscription_duration)
    } else {
        Seq::empty()
    };
    assert(all =~= core + middle + feeds);
    assert forall|i: int| 0 <= i < core.len() + middle.len() implies !(#[trigger] all[i]
        is Listen) by {
        if i < core.len() {
            assert(all[i] == core[i]);
        } else {
            let k = i - core.len();
            assert(all[i] == middle[k]);
            if k < chain_plan(chain).len() {
                assert(middle[k] == chain_plan(chain)[k]);
            } else {
                assert(middle[k] == node_plan(node)[k - chain_plan(chain).len()]);
            }
        }
    }
    if is_websocket && options.test_subscriptions {
        let i = core.len() + middle.len() + 2;
        assert(all[i as int] == feeds[2]);
    }
    assert forall|i: int| core.len() + middle.len() <= i < all.len() && !(is_websocket
        && options.test_subscriptions) implies !(#[trigger] all[i] is Listen) by {
        assert(all[i] == feeds[i - core.len() - middle.len()]);
    }
}

/// The node software that has the debug namespace has the trace namespace too.
pub proof fn law_debug_implies_trace(node: NodeType)
    ensures
        has_debug_namespace(node) ==> has_trace_namespace(node),
{
}

/// The checks of a namespace are made only of software that has it.
pub proof fn law_namespaces_are_respected(node: NodeType, i: int)
    requires
        0 <= i < node_plan(node).len(),
    ensures
        node_plan(node)[i] matches ItemView::Run(check, _) ==> {
            &&& check is DebugTraceTransaction || check is DebugTraceBlockByNumber
                ==> has_debug_namespace(node)
            &&& check is TraceTransaction || check is TraceBlock ==> has_trace_namespace(node)
        },
{
}

} // verus!
