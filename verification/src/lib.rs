//! Translation layer of a mainchain RPC adapter: it maps a blockchain
//! node's answers onto the serving contract's messages, and gives every
//! contract method that is not yet backed by logic a uniform
//! "not yet supported" answer.
//!
//! The node round trips themselves (JSON-RPC over the network) and the
//! serving transport happen outside this library; the functions here take
//! the node's answers as plain values and are verified for every value
//! the node could hand back.

pub mod chain_query;
pub mod hex_render;
pub mod messages;
pub mod rpc_error;
pub mod validator_service;
pub mod wallet_service;
