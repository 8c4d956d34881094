//! What holds of what is known of an endpoint: its chain, its node software, and
//! the start of a run.

use crate::chain::{ChainType, chain_name, chain_of_id, chain_of_name, contract_of};
use crate::detect::{
    Startup, asked_chain, banner_of, found_chain, found_node, found_node_lines,
    hint_line, http_form, node_of_url, setting_of, startup_call, startup_lines, startup_next,
    startup_of, startup_reply_lines,
};
use crate::hex::{
    all_hex, hex_error_text, hex_number, hex_number_failure, law_hex_number_reads_back, quantity,
    quantity_failure,
};
use crate::json::JsonTree;
use crate::node::{
    NodeType, has_debug_namespace, has_trace_namespace, node_name, node_of_version,
};
use crate::steps::{CallView, Wants};
use crate::text::{begins_with, contains, decimal, hex, lowercase};
use crate::text_laws::{
    law_nothing_to_replace, law_replacing_goes_from_the_left, law_trimming_takes_all_off,
};
use vstd::prelude::*;

verus! {

/// Each chain has its identifiers, main net and test net, and any other number is
/// the identifier of no known chain.
pub proof fn law_identifiers_of_chains(id: u64)
    ensures
        chain_of_id(id) is Ethereum <==> id == 1,
        chain_of_id(id) is Optimism <==> id == 10 || id == 11155420,
        chain_of_id(id) is Arbitrum <==> id == 42161 || id == 421614,
        chain_of_id(id) is Base <==> id == 8453 || id == 84532,
        chain_of_id(id) is BSC <==> id == 56 || id == 97,
{
}

proof fn lemma_chain_names()
    ensures
        chain_of_name("optimism"@) is Optimism,
        chain_of_name("op"@) is Optimism,
        chain_of_name("arbitrum"@) is Arbitrum,
        chain_of_name("arb"@) is Arbitrum,
        chain_of_name("ethereum"@) is Ethereum,
        chain_of_name("eth"@) is Ethereum,
        chain_of_name("geth"@) is Ethereum,
        chain_of_name("bsc"@) is BSC,
        chain_of_name("binance"@) is BSC,
        chain_of_name("bnb"@) is BSC,
{
    reveal_strlit("optimism");
    reveal_strlit("op");
    reveal_strlit("arbitrum");
    reveal_strlit("arb");
    reveal_strlit("ethereum");
    reveal_strlit("eth");
    reveal_strlit("geth");
    reveal_strlit("bsc");
    reveal_strlit("binance");
    reveal_strlit("bnb");
    assert("optimism"@[0] == 'o' && "optimism"@.len() == 8);
    assert("op"@[0] == 'o' && "op"@.len() == 2);
    assert("arbitrum"@[0] == 'a' && "arbitrum"@.len() == 8);
    assert("arb"@[0] == 'a' && "arb"@.len() == 3);
    assert("ethereum"@[0] == 'e' && "ethereum"@.len() == 8);
    assert("eth"@[0] == 'e' && "eth"@.len() == 3);
    assert("geth"@[0] == 'g');
    assert("bsc"@[0] == 'b');
    assert("binance"@[0] == 'b');
    assert("bnb"@[0] == 'b');
}

/// Each chain that can be asked for has its lower-case names, and any other text
/// is the name of no known chain.
pub proof fn law_names_of_chains(name: Seq<char>)
    ensures
        chain_of_name(name) is Optimism <==> name == "optimism"@ || name == "op"@,
        chain_of_name(name) is Arbitrum <==> name == "arbitrum"@ || name == "arb"@,
        chain_of_name(name) is Ethereum <==> name == "ethereum"@ || name == "eth"@ || name
            == "geth"@,
        chain_of_name(name) is BSC <==> name == "bsc"@ || name == "binance"@ || name == "bnb"@,
        !(chain_of_name(name) is Base),
{
    lemma_chain_names();
}

/// What a chain is called, and the contract that calls are tried on.
pub proof fn law_chains_in_reports(chain: ChainType)
    ensures
        chain is Optimism ==> chain_name(chain) == "Optimism"@,
        chain is Arbitrum ==> chain_name(chain) == "Arbitrum"@,
        chain is Ethereum ==> chain_name(chain) == "Ethereum"@,
        chain is BSC ==> chain_name(chain) == "BNB Smart Chain (BSC)"@,
        chain is Base ==> chain_name(chain) == "Base"@,
        chain is Unknown ==> chain_name(chain) == "Unknown"@,
        chain is Arbitrum ==> contract_of(chain) == "0x912CE59144191C1204E64559FE8253a0e49E6548"@,
        chain is Ethereum ==> contract_of(chain) == "0xA0b86991c6218b36c1d19D4a2e9Eb0cE3606eB48"@,
        chain is BSC ==> contract_of(chain) == "0x55d398326f99059fF775485246999027E3197955"@,
        chain is Optimism || chain is Base || chain is Unknown ==> contract_of(chain)
            == "0x4200000000000000000000000000000000000006"@,
{
}

/// What a lower-case version text must hold to name each kind of software: "geth"
/// counts before "reth", and both before "nitro".
pub proof fn law_versions_name_the_software(version: Seq<char>)
    ensures
        ({
            let geth = contains(version, "geth"@);
            let reth = contains(version, "reth"@);
            let optimism = contains(version, "optimism"@);
            let bsc = contains(version, "bsc"@) || contains(version, "binance"@);
            let node = node_of_version(version);
            &&& node is OpGeth <==> geth && optimism
            &&& node is BSCGeth <==> geth && !optimism && bsc
            &&& node is Geth <==> geth && !optimism && !bsc
            &&& node is OpReth <==> !geth && reth && (optimism || contains(version, "op-reth"@))
            &&& node is Reth <==> !geth && reth && !optimism && !contains(version, "op-reth"@)
            &&& node is Nitro <==> !geth && !reth && contains(version, "nitro"@)
            &&& node is Unknown <==> !geth && !reth && !contains(version, "nitro"@)
        }),
{
}

/// What an address must hold to hint at each kind of software: "reth" counts before
/// "geth", and both, in small letters or in capitals, before anything else.
pub proof fn law_addresses_hint_at_the_software(url: Seq<char>)
    ensures
        ({
            let reth = contains(url, "reth"@) || contains(url, "RETH"@);
            let geth = contains(url, "geth"@) || contains(url, "GETH"@);
            let op = contains(url, "optimism"@) || contains(url, "unichain"@) || contains(
                url,
                "ink"@,
            );
            let bsc = contains(url, "bsc"@) || contains(url, "binance"@);
            let node = node_of_url(url);
            &&& node is Reth <==> reth
            &&& node is Geth <==> !reth && geth
            &&& node is OpGeth <==> !reth && !geth && op
            &&& node is BSCGeth <==> !reth && !geth && !op && bsc
            &&& node is Unknown <==> !reth && !geth && !op && !bsc
            &&& node is Reth ==> hint_line(node) == "Detected Reth from URL"@
            &&& node is Geth ==> hint_line(node) == "Detected Geth from URL"@
            &&& node is OpGeth ==> hint_line(node) == "Detected op-geth from URL"@
            &&& node is BSCGeth ==> hint_line(node) == "Detected BSC-Geth from URL"@
            &&& node is Unknown ==> hint_line(node) == "Could not detect node type"@
        }),
{
}

/// What the software is called, and which namespaces it has: debug for the kinds
/// of Geth, trace for those and for the kinds of Reth.
pub proof fn law_software_in_reports(node: NodeType)
    ensures
        node is Geth ==> node_name(node) == "Geth"@,
        node is Reth ==> node_name(node) == "Reth"@,
        node is OpGeth ==> node_name(node) == "op-geth"@,
        node is OpReth ==> node_name(node) == "op-reth"@,
        node is Nitro ==> node_name(node) == "Nitro"@,
        node is BSCGeth ==> node_name(node) == "BSC-Geth"@,
        node is Unknown ==> node_name(node) == "Unknown"@,
        has_debug_namespace(node) <==> node is Geth || node is OpGeth || node is BSCGeth,
        has_trace_namespace(node) <==> !(node is Nitro) && !(node is Unknown),
{
}

/// What the node says of its software counts, whatever its address; only where it
/// says nothing does the address count.
pub proof fn law_versions_count_before_addresses(url: Seq<char>, other: Seq<char>, version: Seq<char>)
    ensures
        found_node(url, Some(version)) == node_of_version(lowercase(version)),
        found_node(url, Some(version)) == found_node(other, Some(version)),
        found_node(url, None) == node_of_url(url),
        found_node_lines(url, Some(version)) == seq!["Client version: "@ + version],
        found_node_lines(url, None) == seq![
            "web3_clientVersion not available, detecting from URL..."@,
            hint_line(node_of_url(url)),
        ],
{
}

/// The identifier that a node gives in hexadecimal decides on its chain; without a
/// readable one the chain is not known.
pub proof fn law_identifiers_are_read(id: u64, reply: Seq<char>)
    ensures
        found_chain(Some("0x"@ + hex(id as nat))) == chain_of_id(id),
        quantity(reply) == Some(id) ==> found_chain(Some(reply)) == chain_of_id(id),
        quantity(reply) is None ==> found_chain(Some(reply)) is Unknown,
        found_chain(None) is Unknown,
{
    law_hex_number_reads_back(id);
}

/// A quantity may have "0x" in front or not, once or more often; a hex string may
/// have it once.
pub proof fn law_prefixes(s: Seq<char>)
    ensures
        quantity("0x"@ + s) == quantity(s),
        quantity_failure("0x"@ + s) == quantity_failure(s),
        quantity_failure(s).len() == 1,
        !begins_with(s, "0x"@) ==> hex_number("0x"@ + s) == hex_number(s),
        !begins_with(s, "0x"@) ==> quantity(s) == hex_number(s),
        !begins_with(s, "0x"@) ==> quantity_failure(s) == seq![hex_error_text(s)],
        hex_number("0x"@ + ("0x"@ + s)) is None,
{
    reveal_strlit("0x");
    law_trimming_takes_all_off(s, "0x"@);
    assert(("0x"@ + s).subrange(0, 2) =~= "0x"@);
    assert(("0x"@ + s).skip(2) =~= s);
    let twice = "0x"@ + ("0x"@ + s);
    assert(twice.subrange(0, 2) =~= "0x"@);
    assert(twice.skip(2) =~= "0x"@ + s);
    assert(("0x"@ + s)[1] == 'x');
    assert(!all_hex("0x"@ + s));
}

/// A hex string that cannot be read is named in the failure as it was given, and
/// the cause is that of the string without its prefix.
pub proof fn law_bad_hex_strings_are_named(s: Seq<char>)
    ensures
        hex_number_failure(s).len() == 2,
        hex_number_failure(s)[0] == "invalid hex number: "@ + s,
        hex_number_failure("0x"@ + s)[1] == hex_error_text(s),
        !begins_with(s, "0x"@) ==> hex_number_failure(s)[1] == hex_error_text(s),
{
    reveal_strlit("0x");
    assert(("0x"@ + s).subrange(0, 2) =~= "0x"@);
    assert(("0x"@ + s).skip(2) =~= s);
}

/// The address for the first calls is that of the endpoint with "http" in place of
/// "ws", and a secure one stays secure: what is behind the scheme is kept, unless
/// the scheme stands in it again.
pub proof fn law_first_address(rest: Seq<char>)
    ensures
        !contains(rest, "ws://"@) ==> http_form("ws://"@ + rest) == "http://"@ + rest,
        !contains(rest, "wss://"@) ==> http_form("wss://"@ + rest) == "https://"@ + rest,
        http_form("http://"@ + rest) == "http://"@ + rest,
        http_form("https://"@ + rest) == "https://"@ + rest,
{
    reveal_strlit("ws://");
    reveal_strlit("wss://");
    reveal_strlit("http://");
    reveal_strlit("https://");
    let none = Seq::<char>::empty();
    let ws = "ws://"@ + rest;
    let wss = "wss://"@ + rest;
    assert(ws.subrange(0, 5) =~= "ws://"@);
    assert(wss.subrange(0, 6) =~= "wss://"@);
    assert(!begins_with(wss, "ws://"@)) by {
        if begins_with(wss, "ws://"@) {
            assert(wss.subrange(0, 5)[2] == wss[2]);
        }
    }
    assert(none + "ws://"@ + rest =~= ws);
    assert(none + "wss://"@ + rest =~= wss);
    law_replacing_goes_from_the_left(none, "ws://"@, rest, "http://"@);
    law_replacing_goes_from_the_left(none, "wss://"@, rest, "https://"@);
    if !contains(rest, "ws://"@) {
        law_nothing_to_replace(rest, "ws://"@, "http://"@);
        assert(none + "http://"@ + rest =~= "http://"@ + rest);
    }
    if !contains(rest, "wss://"@) {
        law_nothing_to_replace(rest, "wss://"@, "https://"@);
        assert(none + "https://"@ + rest =~= "https://"@ + rest);
    }
    assert forall|s: Seq<char>| s.len() > 0 && s[0] == 'h' implies #[trigger] http_form(s)
        == s by {
        if begins_with(s, "ws://"@) {
            assert(s.subrange(0, 5)[0] == s[0]);
        }
        if begins_with(s, "wss://"@) {
            assert(s.subrange(0, 6)[0] == s[0]);
        }
    }
    assert(("http://"@ + rest)[0] == 'h');
    assert(("https://"@ + rest)[0] == 'h');
}

/// The opening lines give the version, the address, the kind of connection and the
/// timeout.
pub proof fn law_the_opening_lines(version: Seq<char>, url: Seq<char>, timeout: u64)
    ensures
        banner_of(version, url, timeout).len() == 4,
        banner_of(version, url, timeout)[0] == "Multi-Chain EVM RPC Test Harness v"@ + version,
        banner_of(version, url, timeout)[1] == "RPC URL: "@ + url,
        begins_with(url, "ws"@) ==> banner_of(version, url, timeout)[2]
            == "Connection type: "@ + "WebSocket"@,
        !begins_with(url, "ws"@) ==> banner_of(version, url, timeout)[2]
            == "Connection type: "@ + "HTTP"@,
        banner_of(version, url, timeout)[3] == "Timeout: "@ + decimal(timeout as nat) + "s"@,
{
}

/// The setting names the chain and the software, and the filter if there is one.
pub proof fn law_the_setting_is_named(chain: ChainType, node: NodeType, filter: Seq<char>)
    ensures
        setting_of(chain, node, None) == seq![
            "Chain type: "@ + chain_name(chain),
            "Node type: "@ + node_name(node) + "\n"@,
        ],
        setting_of(chain, node, Some(filter)) == setting_of(chain, node, None).push(
            "Filter: Only running tests matching '"@ + filter + "'\n"@,
        ),
{
    assert(setting_of(chain, node, None) =~= seq![
        "Chain type: "@ + chain_name(chain),
        "Node type: "@ + node_name(node) + "\n"@,
    ]);
    assert(setting_of(chain, node, Some(filter)) =~= setting_of(chain, node, None).push(
        "Filter: Only running tests matching '"@ + filter + "'\n"@,
    ));
}

/// The chain is taken from its name in any case, and left open by "auto".
pub proof fn law_the_chain_that_is_asked_for(chain: Seq<char>)
    ensures
        asked_chain("auto"@) is Unknown,
        chain != "auto"@ ==> asked_chain(chain) == chain_of_name(lowercase(chain)),
{
}

/// A run whose chain is left open asks for the identifier of the chain and then for
/// the version of the software; one whose chain is named asks for the version
/// only. What it is ready with is what these answers come to.
pub proof fn law_what_a_run_asks_first(
    chain: ChainType,
    url: Seq<char>,
    id: Option<Seq<char>>,
    version: Option<Seq<char>>,
)
    ensures
        ({
            let ask_id = CallView {
                method: "eth_chainId"@,
                params: JsonTree::Array(seq![]),
                wants: Wants::Text,
            };
            let ask_version = CallView {
                method: "web3_clientVersion"@,
                params: JsonTree::Array(seq![]),
                wants: Wants::Text,
            };
            let begun = startup_of(chain);
            let asked = if chain is Unknown {
                startup_next(begun, url, id)
            } else {
                begun
            };
            let settled = if chain is Unknown {
                found_chain(id)
            } else {
                chain
            };
            let ready = startup_next(asked, url, version);
            &&& chain is Unknown ==> startup_call(begun) == Some(ask_id)
            &&& chain is Unknown ==> startup_lines(begun) == seq!["Auto-detecting chain type..."@]
            &&& chain is Unknown ==> startup_reply_lines(begun, url, id).len() == 0
            &&& startup_call(asked) == Some(ask_version)
            &&& startup_lines(asked) == seq!["Detecting node type..."@]
            &&& startup_reply_lines(asked, url, version) == found_node_lines(url, version)
            &&& ready == Startup::Ready(settled, found_node(url, version))
            &&& startup_call(ready) is None
            &&& startup_lines(ready).len() == 0
            &&& startup_next(ready, url, id) == ready
        }),
{
}

} // verus!
