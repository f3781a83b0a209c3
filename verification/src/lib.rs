//! Verified core of the Unica orchestration server: the tool catalogue,
//! argument mapping for internal adapters, JSON-RPC handling and cache
//! bookkeeping decisions.

pub mod events;
pub mod json;
pub mod text;
pub mod argv;
pub mod tools;
pub mod outcome;
pub mod workspace;
pub mod application;
pub mod adapters;
pub mod legacy;
pub mod index;
pub mod index_flow;
pub mod search;
pub mod standards;
pub mod cache;
pub mod mcp;
pub mod call;
