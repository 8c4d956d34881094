//! Probing of EVM JSON-RPC endpoints.

pub mod chain;
pub mod check_laws;
pub mod checks;
pub mod client;
pub mod detect;
pub mod diff;
pub mod diff_laws;
pub mod endpoint_laws;
pub mod failure;
pub mod feed_laws;
pub mod hex;
pub mod json;
pub mod json_laws;
pub mod node;
pub mod plan;
pub mod plan_laws;
pub mod probe;
pub mod replies;
pub mod reply_laws;
pub mod results;
pub mod run_laws;
pub mod steps;
pub mod subscription;
pub mod text;
pub mod text_laws;
pub mod view_laws;
