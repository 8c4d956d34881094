//! The node software behind an endpoint.

use crate::text::{ascii_lowercase, contains, lowercase, str_contains, to_lowercase};
use vstd::prelude::*;
use vstd::utf8::is_ascii_chars;

verus! {

/// A kind of node software.
#[derive(Debug, Clone, Copy, PartialEq, Eq, Structural)]
pub enum NodeType {
    Geth,
    Reth,
    OpGeth,
    OpReth,
    Nitro,
    BSCGeth,
    Unknown,
}

/// The software that a lower-case version text names.
pub open spec fn node_of_version(version: Seq<char>) -> NodeType {
    if contains(version, "geth"@) {
        if contains(version, "optimism"@) {
            NodeType::OpGeth
        } else if contains(version, "bsc"@) || contains(version, "binance"@) {
            NodeType::BSCGeth
        } else {
            NodeType::Geth
        }
    } else if contains(version, "reth"@) {
        if contains(version, "optimism"@) || contains(version, "op-reth"@) {
            NodeType::OpReth
        } else {
            NodeType::Reth
        }
    } else if contains(version, "nitro"@) {
        NodeType::Nitro
    } else {
        NodeType::Unknown
    }
}

/// How node software is called in reports.
pub open spec fn node_name(node: NodeType) -> Seq<char> {
    match node {
        NodeType::Geth => "Geth"@,
        NodeType::Reth => "Reth"@,
        NodeType::OpGeth => "op-geth"@,
        NodeType::OpReth => "op-reth"@,
        NodeType::Nitro => "Nitro"@,
        NodeType::BSCGeth => "BSC-Geth"@,
        NodeType::Unknown => "Unknown"@,
    }
}

/// The software answers the methods of the debug namespace.
pub open spec fn has_debug_namespace(node: NodeType) -> bool {
    node is Geth || node is OpGeth || node is BSCGeth
}

/// The software answers the methods of the trace namespace.
pub open spec fn has_trace_namespace(node: NodeType) -> bool {
    has_debug_namespace(node) || node is Reth || node is OpReth
}

impl NodeType {
    /// The software that a lower-case version text names.
    pub fn from_lowercase_version(version: &str) -> (r: NodeType)
        ensures
            r == node_of_version(version@),
    {
        if str_contains(version, "geth") {
            if str_contains(version, "optimism") {
                NodeType::OpGeth
            } else if str_contains(version, "bsc") || str_contains(version, "binance") {
                NodeType::BSCGeth
            } else {
                NodeType::Geth
            }
        } else if str_contains(version, "reth") {
            if str_contains(version, "optimism") || str_contains(version, "op-reth") {
                NodeType::OpReth
            } else {
                NodeType::Reth
            }
        } else if str_contains(version, "nitro") {
            NodeType::Nitro
        } else {
            NodeType::Unknown
        }
    }

    /// The software that a client version text names, in whatever case it is
    /// written.
    pub fn from_client_version(version: &str) -> (r: NodeType)
        ensures
            r == node_of_version(lowercase(version@)),
            is_ascii_chars(version@) ==> r == node_of_version(ascii_lowercase(version@)),
    {
        NodeType::from_lowercase_version(to_lowercase(version).as_str())
    }

    /// How the software is called in reports.
    pub fn name(&self) -> (r: &str)
        ensures
            r@ == node_name(*self),
    {
        match self {
            NodeType::Geth => "Geth",
            NodeType::Reth => "Reth",
            NodeType::OpGeth => "op-geth",
            NodeType::OpReth => "op-reth",
            NodeType::Nitro => "Nitro",
            NodeType::BSCGeth => "BSC-Geth",
            NodeType::Unknown => "Unknown",
        }
    }

    /// Whether the software answers the methods of the debug namespace.
    pub fn supports_debug_namespace(&self) -> (r: bool)
        ensures
            r == has_debug_namespace(*self),
    {
        matches!(self, NodeType::Geth | NodeType::OpGeth | NodeType::BSCGeth)
    }

    /// Whether the software answers the methods of the trace namespace.
    pub fn supports_trace_namespace(&self) -> (r: bool)
        ensures
            r == has_trace_namespace(*self),
    {
        matches!(
            self,
            NodeType::Reth | NodeType::OpReth | NodeType::Geth | NodeType::OpGeth
                | NodeType::BSCGeth
        )
    }
}

} // verus!
