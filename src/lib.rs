//! Request orchestration for an LLM-facing gateway: routing decisions,
//! correlation of outbound calls, and rewriting of backend replies.

pub mod message;
pub mod routing;
pub mod registry;
pub mod state;
pub mod replies;
pub mod config;
pub mod orchestrator;
pub mod rewriter;
