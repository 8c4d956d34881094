//! The client side of JSON-RPC: requests, their numbers, and what a response
//! comes to.

use crate::chain::ChainType;
use crate::failure::{Failure, plain};
use crate::json::Json;
use crate::node::NodeType;
use crate::text::{
    begins_with, decimal, decimal_text, join2, join5, lines_of, no_lines, one_line, signed_decimal,
    signed_decimal_text, str_starts_with,
};
use vstd::prelude::*;

verus! {

/// A request as it goes over the wire.
pub struct RpcRequest {
    pub jsonrpc: String,
    pub method: String,
    pub params: Json,
    pub id: u64,
}

/// An error that a node reports.
pub struct RpcError {
    pub code: i64,
    pub message: String,
}

/// A response, with its result already read.
pub struct RpcResponse<T> {
    pub jsonrpc: String,
    pub id: u64,
    pub result: Option<T>,
    pub error: Option<RpcError>,
}

/// How requests reach the node.
#[derive(Debug, Clone, Copy, PartialEq, Eq, Structural)]
pub enum Transport {
    Http,
    WebSocket,
}

/// What a client knows of its endpoint.
pub struct RpcClient {
    pub url: String,
    /// The number of the next request.
    pub request_id: u64,
    pub verbose: bool,
    pub chain_type: ChainType,
    pub node_type: NodeType,
    pub is_websocket: bool,
}

/// The address asks for a WebSocket connection.
pub open spec fn is_websocket_url(url: Seq<char>) -> bool {
    begins_with(url, "ws://"@) || begins_with(url, "wss://"@)
}

/// The number of the request after the one with that number.
pub open spec fn next_id(id: u64) -> u64 {
    if id == u64::MAX {
        0
    } else {
        (id + 1) as u64
    }
}

/// The failure that an error of the node amounts to.
pub open spec fn rpc_failure(error: RpcError) -> Seq<Seq<char>> {
    plain(
        "RPC error: "@ + error.message@ + " (code: "@ + signed_decimal(error.code as int) + ")"@,
    )
}

/// What a response comes to: an error of the node counts before a result.
pub open spec fn response_outcome<T>(response: RpcResponse<T>) -> Result<T, Seq<Seq<char>>> {
    match (response.error, response.result) {
        (Some(error), _) => Err(rpc_failure(error)),
        (None, Some(result)) => Ok(result),
        (None, None) => Err(plain("RPC response missing result field"@)),
    }
}

impl<T> RpcResponse<T> {
    /// The result, or why there is none.
    pub fn into_result(self) -> (r: Result<T, Failure>)
        ensures
            r matches Ok(t) ==> response_outcome(self) == Ok::<T, Seq<Seq<char>>>(t),
            r matches Err(f) ==> response_outcome(self) == Err::<T, Seq<Seq<char>>>(f@),
    {
        match self.error {
            Some(error) => Err(
                Failure::new(
                    join5(
                        "RPC error: ",
                        error.message.as_str(),
                        " (code: ",
                        signed_decimal_text(error.code).as_str(),
                        ")",
                    ),
                ),
            ),
            None => match self.result {
                Some(result) => Ok(result),
                None => Err(Failure::new("RPC response missing result field".to_string())),
            },
        }
    }
}

/// What is printed when a request with that text is sent.
pub open spec fn sent_lines(verbose: bool, is_websocket: bool, text: Seq<char>) -> Seq<Seq<char>> {
    if !verbose {
        seq![]
    } else if is_websocket {
        seq!["  → WS Request: "@ + text]
    } else {
        seq!["  → HTTP Request: "@ + text]
    }
}

/// What is printed when a response with that text comes in over a WebSocket.
pub open spec fn received_text_lines(verbose: bool, text: Seq<char>) -> Seq<Seq<char>> {
    if verbose {
        seq!["  ← WS Response: "@ + text]
    } else {
        seq![]
    }
}

/// What is printed when a response with that number comes in over HTTP.
pub open spec fn received_id_lines(verbose: bool, id: u64) -> Seq<Seq<char>> {
    if verbose {
        seq!["  ← Response ID: "@ + decimal(id as nat)]
    } else {
        seq![]
    }
}

impl RpcClient {
    /// A client for an endpoint, whose first request has number one.
    pub fn new(url: String, verbose: bool, chain_type: ChainType, node_type: NodeType) -> (r:
        RpcClient)
        ensures
            r.url == url,
            r.request_id == 1,
            r.verbose == verbose,
            r.chain_type == chain_type,
            r.node_type == node_type,
            r.is_websocket == is_websocket_url(url@),
    {
        let is_websocket = str_starts_with(url.as_str(), "ws://") || str_starts_with(
            url.as_str(),
            "wss://",
        );
        RpcClient { url, request_id: 1, verbose, chain_type, node_type, is_websocket }
    }

    /// How a call reaches the node.
    pub fn transport(&self) -> (r: Transport)
        ensures
            r is WebSocket <==> self.is_websocket,
    {
        if self.is_websocket {
            Transport::WebSocket
        } else {
            Transport::Http
        }
    }

    /// The next request.
    pub fn request(&mut self, method: &str, params: Json) -> (r: RpcRequest)
        ensures
            r.jsonrpc@ == "2.0"@,
            r.method@ == method@,
            r.params == params,
            r.id == old(self).request_id,
            *final(self) == (RpcClient { request_id: next_id(old(self).request_id), ..*old(self) }),
    {
        let id: u64 = self.request_id;
        self.request_id = id.wrapping_add(1);
        RpcRequest { jsonrpc: "2.0".to_string(), method: method.to_string(), params, id }
    }

    /// What is printed when a request with that text is sent.
    pub fn request_lines(&self, text: &str) -> (r: Vec<String>)
        ensures
            lines_of(r@) == sent_lines(self.verbose, self.is_websocket, text@),
            lines_of(r@) == if !self.verbose {
                seq![]
            } else if self.is_websocket {
                seq!["  → WS Request: "@ + text@]
            } else {
                seq!["  → HTTP Request: "@ + text@]
            },
    {
        if !self.verbose {
            no_lines()
        } else if self.is_websocket {
            one_line(join2("  → WS Request: ", text))
        } else {
            one_line(join2("  → HTTP Request: ", text))
        }
    }

    /// What is printed when a response with that text comes in over a WebSocket.
    pub fn message_lines(&self, text: &str) -> (r: Vec<String>)
        ensures
            lines_of(r@) == received_text_lines(self.verbose, text@),
            lines_of(r@) == if self.verbose {
                seq!["  ← WS Response: "@ + text@]
            } else {
                seq![]
            },
    {
        if self.verbose {
            one_line(join2("  ← WS Response: ", text))
        } else {
            no_lines()
        }
    }

    /// What is printed when a response with that number comes in over HTTP.
    pub fn response_lines(&self, id: u64) -> (r: Vec<String>)
        ensures
            lines_of(r@) == received_id_lines(self.verbose, id),
            lines_of(r@) == if self.verbose {
                seq!["  ← Response ID: "@ + decimal(id as nat)]
            } else {
                seq![]
            },
    {
        if self.verbose {
            one_line(join2("  ← Response ID: ", decimal_text(id).as_str()))
        } else {
            no_lines()
        }
    }
}

/// The number of the request that comes `k` requests after the one with number
/// `id`.
pub open spec fn id_after(id: u64, k: nat) -> u64
    decreases k,
{
    if k == 0 {
        id
    } else {
        next_id(id_after(id, (k - 1) as nat))
    }
}

/// Requests are numbered in a row: until the numbers run out, no two requests of
/// a client have the same one.
pub proof fn law_request_ids_are_distinct(id: u64, j: nat, k: nat)
    requires
        j < k,
        id + k <= u64::MAX,
    ensures
        id_after(id, j) == id + j,
        id_after(id, k) == id + k,
        id_after(id, j) != id_after(id, k),
    decreases k,
{
    lemma_ids_in_a_row(id, j);
    lemma_ids_in_a_row(id, k);
}

proof fn lemma_ids_in_a_row(id: u64, k: nat)
    requires
        id + k <= u64::MAX,
    ensures
        id_after(id, k) == id + k,
    decreases k,
{
    if k > 0 {
        lemma_ids_in_a_row(id, (k - 1) as nat);
    }
}

} // verus!
