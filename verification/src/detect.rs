//! What a run finds out before its checks: the address for the first calls, the
//! chain, and the node software.

use crate::chain::{ChainType, chain_name, chain_of_id, chain_of_name};
use crate::failure::Failure;
use crate::hex::{parse_quantity, quantity};
use crate::json::{Json, list};
use crate::node::{NodeType, node_name, node_of_version};
use crate::results::optional_text;
use crate::steps::{Call, CallView, text_call};
use crate::text::{
    add_line, ascii_lowercase, begins_with, contains, decimal, decimal_text, join2, join3,
    lines_of, lowercase, no_lines, one_line, replaced, str_contains, str_eq, str_replace,
    str_starts_with,
};
use vstd::prelude::*;
use vstd::utf8::is_ascii_chars;

verus! {

/// The kind of connection that an address is said to stand for.
pub open spec fn connection_name(url: Seq<char>) -> Seq<char> {
    if begins_with(url, "ws"@) {
        "WebSocket"@
    } else {
        "HTTP"@
    }
}

/// The opening lines of a run.
pub open spec fn banner_of(version: Seq<char>, url: Seq<char>, timeout: u64) -> Seq<Seq<char>> {
    seq![
        "Multi-Chain EVM RPC Test Harness v"@ + version,
        "RPC URL: "@ + url,
        "Connection type: "@ + connection_name(url),
        "Timeout: "@ + decimal(timeout as nat) + "s"@,
    ]
}

/// The opening lines of a run.
pub fn banner(version: &str, url: &str, timeout: u64) -> (r: Vec<String>)
    ensures
        lines_of(r@) == banner_of(version@, url@, timeout),
{
    let connection = if str_starts_with(url, "ws") {
        "WebSocket"
    } else {
        "HTTP"
    };
    let mut lines = one_line(join2("Multi-Chain EVM RPC Test Harness v", version));
    add_line(&mut lines, join2("RPC URL: ", url));
    add_line(&mut lines, join2("Connection type: ", connection));
    add_line(&mut lines, join3("Timeout: ", decimal_text(timeout).as_str(), "s"));
    assert(lines_of(lines@) =~= banner_of(version@, url@, timeout));
    lines
}

/// The address for the first calls, which go over HTTP: that of the endpoint,
/// with the scheme of a WebSocket turned into the one of HTTP.
pub open spec fn http_form(url: Seq<char>) -> Seq<char> {
    if begins_with(url, "ws://"@) {
        replaced(url, "ws://"@, "http://"@)
    } else if begins_with(url, "wss://"@) {
        replaced(url, "wss://"@, "https://"@)
    } else {
        url
    }
}

/// The address for the first calls.
pub fn http_url(url: &str) -> (r: String)
    ensures
        r@ == http_form(url@),
{
    proof {
        reveal_strlit("ws://");
        reveal_strlit("wss://");
    }
    if str_starts_with(url, "ws://") {
        str_replace(url, "ws://", "http://")
    } else if str_starts_with(url, "wss://") {
        str_replace(url, "wss://", "https://")
    } else {
        url.to_string()
    }
}

/// The first calls never go to the address of a WebSocket, and an address of
/// another kind is used as it is.
pub proof fn law_first_calls_go_over_http(url: Seq<char>)
    ensures
        begins_with(url, "ws://"@) ==> begins_with(http_form(url), "http://"@),
        begins_with(url, "wss://"@) ==> begins_with(http_form(url), "https://"@),
        !begins_with(http_form(url), "ws://"@),
        !begins_with(http_form(url), "wss://"@),
        !begins_with(url, "ws://"@) && !begins_with(url, "wss://"@) ==> http_form(url) == url,
{
    reveal_strlit("ws://");
    reveal_strlit("wss://");
    reveal_strlit("http://");
    reveal_strlit("https://");
    let r = http_form(url);
    if begins_with(url, "ws://"@) {
        let rest = replaced(url.skip(5), "ws://"@, "http://"@);
        assert(url.subrange(0, 5)[2] == url[2]);
        if begins_with(url, "wss://"@) {
            assert(url.subrange(0, 6)[2] == url[2]);
        }
        assert(r =~= "http://"@ + rest);
        assert(r.subrange(0, 7) =~= "http://"@);
        assert(r[0] == 'h');
    } else if begins_with(url, "wss://"@) {
        let rest = replaced(url.skip(6), "wss://"@, "https://"@);
        assert(r =~= "https://"@ + rest);
        assert(r.subrange(0, 8) =~= "https://"@);
        assert(r[0] == 'h');
    }
    if r.len() > 0 && r[0] == 'h' {
        if begins_with(r, "ws://"@) {
            assert(r.subrange(0, 5)[0] == r[0]);
        }
        if begins_with(r, "wss://"@) {
            assert(r.subrange(0, 6)[0] == r[0]);
        }
    }
}

/// The chain that the user asks for; unknown if it is left to the run.
pub open spec fn asked_chain(chain: Seq<char>) -> ChainType {
    if chain == "auto"@ {
        ChainType::Unknown
    } else {
        chain_of_name(lowercase(chain))
    }
}

/// The chain that the user asks for.
pub fn initial_chain(chain: &str) -> (r: ChainType)
    ensures
        r == asked_chain(chain@),
        is_ascii_chars(chain@) && chain@ != "auto"@ ==> r == chain_of_name(ascii_lowercase(chain@)),
{
    if str_eq(chain, "auto") {
        ChainType::Unknown
    } else {
        ChainType::from_string(chain)
    }
}

/// The text of a result.
pub open spec fn reply_text(reply: Result<String, Failure>) -> Option<Seq<char>> {
    match reply {
        Ok(s) => Some(s@),
        Err(_) => None,
    }
}

/// The chain, once the node was asked for its identifier: what it says counts
/// if it can be read.
pub open spec fn found_chain(reply: Option<Seq<char>>) -> ChainType {
    match reply {
        Some(s) => match quantity(s) {
            Some(n) => chain_of_id(n),
            None => ChainType::Unknown,
        },
        None => ChainType::Unknown,
    }
}

/// The chain that the node says it is on.
pub fn detect_chain(reply: Result<String, Failure>) -> (r: ChainType)
    ensures
        r == found_chain(reply_text(reply)),
{
    match reply {
        Ok(s) => match parse_quantity(s.as_str()) {
            Ok(n) => ChainType::from_chain_id(n),
            Err(_) => ChainType::Unknown,
        },
        Err(_) => ChainType::Unknown,
    }
}

/// The node software that an address hints at.
pub open spec fn node_of_url(url: Seq<char>) -> NodeType {
    if contains(url, "reth"@) || contains(url, "RETH"@) {
        NodeType::Reth
    } else if contains(url, "geth"@) || contains(url, "GETH"@) {
        NodeType::Geth
    } else if contains(url, "optimism"@) || contains(url, "unichain"@) || contains(url, "ink"@) {
        NodeType::OpGeth
    } else if contains(url, "bsc"@) || contains(url, "binance"@) {
        NodeType::BSCGeth
    } else {
        NodeType::Unknown
    }
}

/// What is printed of a hint in the address.
pub open spec fn hint_line(node: NodeType) -> Seq<char> {
    match node {
        NodeType::Reth => "Detected Reth from URL"@,
        NodeType::Geth => "Detected Geth from URL"@,
        NodeType::OpGeth => "Detected op-geth from URL"@,
        NodeType::BSCGeth => "Detected BSC-Geth from URL"@,
        _ => "Could not detect node type"@,
    }
}

/// The node software, once the node was asked for its version: where it gives
/// none, the address decides.
pub open spec fn found_node(url: Seq<char>, reply: Option<Seq<char>>) -> NodeType {
    match reply {
        Some(version) => node_of_version(lowercase(version)),
        None => node_of_url(url),
    }
}

/// What is printed of the search for the node software.
pub open spec fn found_node_lines(url: Seq<char>, reply: Option<Seq<char>>) -> Seq<Seq<char>> {
    match reply {
        Some(version) => seq!["Client version: "@ + version],
        None => seq![
            "web3_clientVersion not available, detecting from URL..."@,
            hint_line(node_of_url(url)),
        ],
    }
}

/// The node software that an address hints at, and what is printed of it.
fn hint_of_url(url: &str) -> (r: (NodeType, &'static str))
    ensures
        r.0 == node_of_url(url@),
        r.1@ == hint_line(r.0),
{
    if str_contains(url, "reth") || str_contains(url, "RETH") {
        (NodeType::Reth, "Detected Reth from URL")
    } else if str_contains(url, "geth") || str_contains(url, "GETH") {
        (NodeType::Geth, "Detected Geth from URL")
    } else if str_contains(url, "optimism") || str_contains(url, "unichain") || str_contains(
        url,
        "ink",
    ) {
        (NodeType::OpGeth, "Detected op-geth from URL")
    } else if str_contains(url, "bsc") || str_contains(url, "binance") {
        (NodeType::BSCGeth, "Detected BSC-Geth from URL")
    } else {
        (NodeType::Unknown, "Could not detect node type")
    }
}

/// The node software behind an endpoint, and what is printed of the search for
/// it.
pub fn detect_node(url: &str, reply: Result<String, Failure>) -> (r: (NodeType, Vec<String>))
    ensures
        r.0 == found_node(url@, reply_text(reply)),
        reply matches Ok(version) ==> is_ascii_chars(version@) ==> r.0 == node_of_version(
            ascii_lowercase(version@),
        ),
        lines_of(r.1@) == found_node_lines(url@, reply_text(reply)),
{
    match reply {
        Ok(version) => (
            NodeType::from_client_version(version.as_str()),
            one_line(join2("Client version: ", version.as_str())),
        ),
        Err(_) => {
            let (node, line) = hint_of_url(url);
            let mut lines = one_line(
                "web3_clientVersion not available, detecting from URL...".to_string(),
            );
            add_line(&mut lines, line.to_string());
            assert(lines_of(lines@) =~= found_node_lines(url@, reply_text(reply)));
            (node, lines)
        },
    }
}

/// What is printed once the chain and the node software are settled.
pub open spec fn setting_of(
    chain: ChainType,
    node: NodeType,
    filter: Option<Seq<char>>,
) -> Seq<Seq<char>> {
    seq!["Chain type: "@ + chain_name(chain), "Node type: "@ + node_name(node) + "\n"@] + (
    match filter {
        Some(f) => seq!["Filter: Only running tests matching '"@ + f + "'\n"@],
        None => seq![],
    })
}

/// What is printed once the chain and the node software are settled.
pub fn setting_lines(chain: &ChainType, node: &NodeType, filter: &Option<String>) -> (r: Vec<
    String,
>)
    ensures
        lines_of(r@) == setting_of(*chain, *node, optional_text(*filter)),
{
    let mut lines = one_line(join2("Chain type: ", chain.name()));
    add_line(&mut lines, join3("Node type: ", node.name(), "\n"));
    match filter {
        Some(f) => {
            add_line(
                &mut lines,
                join3("Filter: Only running tests matching '", f.as_str(), "'\n"),
            );
        },
        None => {},
    }
    assert(lines_of(lines@) =~= setting_of(
        *chain,
        *node,
        optional_text(*filter),
    ));
    lines
}

/// How far the start of a run has come.
pub enum Startup {
    /// The node is asked for the identifier of its chain.
    AskChain,
    /// The node is asked for its version.
    AskVersion(ChainType),
    /// The checks can begin.
    Ready(ChainType, NodeType),
}

/// The start of a run for the chain that the user asks for: a known one is taken
/// as it is.
pub open spec fn startup_of(chain: ChainType) -> Startup {
    if chain is Unknown {
        Startup::AskChain
    } else {
        Startup::AskVersion(chain)
    }
}

/// What is printed before the call of a stage.
pub open spec fn startup_lines(startup: Startup) -> Seq<Seq<char>> {
    match startup {
        Startup::AskChain => seq!["Auto-detecting chain type..."@],
        Startup::AskVersion(_) => seq!["Detecting node type..."@],
        Startup::Ready(_, _) => seq![],
    }
}

/// The call of a stage.
pub open spec fn startup_call(startup: Startup) -> Option<CallView> {
    match startup {
        Startup::AskChain => Some(text_call("eth_chainId"@, list())),
        Startup::AskVersion(_) => Some(text_call("web3_clientVersion"@, list())),
        Startup::Ready(_, _) => None,
    }
}

/// The stage after the call of a stage was answered.
pub open spec fn startup_next(
    startup: Startup,
    url: Seq<char>,
    reply: Option<Seq<char>>,
) -> Startup {
    match startup {
        Startup::AskChain => Startup::AskVersion(found_chain(reply)),
        Startup::AskVersion(chain) => Startup::Ready(chain, found_node(url, reply)),
        Startup::Ready(chain, node) => startup,
    }
}

/// What is printed when the call of a stage was answered.
pub open spec fn startup_reply_lines(
    startup: Startup,
    url: Seq<char>,
    reply: Option<Seq<char>>,
) -> Seq<Seq<char>> {
    match startup {
        Startup::AskVersion(_) => found_node_lines(url, reply),
        _ => seq![],
    }
}

impl Startup {
    /// The start of a run for the chain that the user asks for.
    pub fn begin(chain: &str) -> (r: Startup)
        ensures
            r == startup_of(asked_chain(chain@)),
    {
        let asked = initial_chain(chain);
        match asked {
            ChainType::Unknown => Startup::AskChain,
            _ => Startup::AskVersion(asked),
        }
    }

    /// What is printed before the call of the stage.
    pub fn lines(&self) -> (r: Vec<String>)
        ensures
            lines_of(r@) == startup_lines(*self),
    {
        match self {
            Startup::AskChain => one_line("Auto-detecting chain type...".to_string()),
            Startup::AskVersion(_) => one_line("Detecting node type...".to_string()),
            Startup::Ready(_, _) => no_lines(),
        }
    }

    /// The call of the stage.
    pub fn call(&self) -> (r: Option<Call>)
        ensures
            r is Some <==> startup_call(*self) is Some,
            r matches Some(call) ==> startup_call(*self) == Some(call@),
    {
        match self {
            Startup::AskChain => Some(Call::for_text("eth_chainId", Json::list())),
            Startup::AskVersion(_) => Some(Call::for_text("web3_clientVersion", Json::list())),
            Startup::Ready(_, _) => None,
        }
    }

    /// Goes on from the answer to the call of the stage, and returns what is
    /// printed of it.
    pub fn on_reply(self, url: &str, reply: Result<String, Failure>) -> (r: (Startup, Vec<String>))
        ensures
            r.0 == startup_next(self, url@, reply_text(reply)),
            lines_of(r.1@) == startup_reply_lines(self, url@, reply_text(reply)),
    {
        match self {
            Startup::AskChain => (Startup::AskVersion(detect_chain(reply)), no_lines()),
            Startup::AskVersion(chain) => {
                let (node, lines) = detect_node(url, reply);
                (Startup::Ready(chain, node), lines)
            },
            Startup::Ready(chain, node) => (Startup::Ready(chain, node), no_lines()),
        }
    }
}

/// A chain that the user names, and that is known, is the one that the checks
/// are made for, whatever the node says.
pub proof fn law_a_named_chain_is_kept(
    chain: ChainType,
    url: Seq<char>,
    version: Option<Seq<char>>,
)
    requires
        !(chain is Unknown),
    ensures
        startup_next(startup_of(chain), url, version) == Startup::Ready(
            chain,
            found_node(url, version),
        ),
{
}

/// The start of a run takes one call, or two where the chain is asked for.
pub proof fn law_startup_ends(
    chain: ChainType,
    url: Seq<char>,
    first: Option<Seq<char>>,
    second: Option<Seq<char>>,
)
    ensures
        startup_next(startup_next(startup_of(chain), url, first), url, second) is Ready,
{
}

} // verus!
