use vstd::prelude::*;

use crate::chain_query::{chain_info_from_node, chain_tip_from_node, network_of, valid_node_tip};
use crate::hex_render::rev_pairs;
use crate::messages::{
    GetBlockHeaderInfoResponse, GetBlockInfoResponse, GetBmmHStarCommitmentResponse,
    GetChainInfoResponse, GetChainTipResponse, GetCoinbasePsbtResponse, GetCtipResponse,
    GetSidechainProposalsResponse, GetSidechainsResponse, GetTwoWayPegDataResponse, StopResponse,
    SubscribeEventsStream, SubscribeHeaderSyncProgressStream,
};
use crate::rpc_error::RpcError;

verus! {

/// The validator-facing method surface. Stateless: each call stands on
/// its own, over the outcome of the node round trip made for it. Two
/// methods are backed by node queries; every other method answers
/// `Unsupported`.
///
/// The node round trips themselves happen outside this library; each
/// backed method takes the node's answer — or the failure's description —
/// as a plain value, so its contract covers every answer the node could
/// give.
pub struct LitecoinValidator;

impl LitecoinValidator {
    /// Answer the chain-info query from the outcome of the node's
    /// chain-info round trip: the reported network identifier, or the
    /// failure's description.
    pub fn get_chain_info(&self, node_chain: Result<String, String>) -> (r: Result<
        GetChainInfoResponse,
        RpcError,
    >)
        ensures
            node_chain matches Ok(chain) ==> (r matches Ok(resp) && resp.network == network_of(
                chain@,
            )),
            node_chain matches Err(e) ==> (r matches Err(err) && err matches RpcError::Upstream {
                message,
            } && message == e),
    {
        match node_chain {
            Ok(chain) => Ok(chain_info_from_node(chain.as_str())),
            Err(e) => Err(RpcError::upstream(e)),
        }
    }

    /// Answer the chain-tip query from the outcome of the node's
    /// best-block round trips: the tip hash's native hex rendering and
    /// the height, or the failure's description.
    ///
    /// The node answers this with two round trips (best-block hash, then
    /// that block's info), not atomically: under concurrent chain growth
    /// the hash and the height may describe different tips. That gap is
    /// accepted, inherited from the node's interface, and kept here.
    pub fn get_chain_tip(&self, node_tip: Result<(String, i32), String>) -> (r: Result<
        GetChainTipResponse,
        RpcError,
    >)
        ensures
            node_tip matches Ok(tip) ==> ((valid_node_tip(tip.0@, tip.1) ==> (r matches Ok(resp)
                && resp.block_header_info.height == tip.1 as u32
                && resp.block_header_info.block_hash.hex@ == rev_pairs(tip.0@))) && (
            !valid_node_tip(tip.0@, tip.1) ==> (r matches Err(e) && e is Upstream))),
            node_tip matches Err(e) ==> (r matches Err(err) && err matches RpcError::Upstream {
                message,
            } && message == e),
    {
        match node_tip {
            Ok((hash, height)) => chain_tip_from_node(hash.as_str(), height),
            Err(e) => Err(RpcError::upstream(e)),
        }
    }

    /// Declared by the contract, not yet backed by logic.
    pub fn get_block_header_info(&self) -> (r: Result<GetBlockHeaderInfoResponse, RpcError>)
        ensures
            r matches Err(e) && e matches RpcError::Unsupported { method } && method@
                == "get_block_header_info"@,
    {
        RpcError::unsupported("get_block_header_info")
    }

    /// Declared by the contract, not yet backed by logic.
    pub fn get_block_info(&self) -> (r: Result<GetBlockInfoResponse, RpcError>)
        ensures
            r matches Err(e) && e matches RpcError::Unsupported { method } && method@
                == "get_block_info"@,
    {
        RpcError::unsupported("get_block_info")
    }

    /// Declared by the contract, not yet backed by logic.
    pub fn get_bmm_h_star_commitment(&self) -> (r: Result<GetBmmHStarCommitmentResponse, RpcError>)
        ensures
            r matches Err(e) && e matches RpcError::Unsupported { method } && method@
                == "get_bmm_h_star_commitment"@,
    {
        RpcError::unsupported("get_bmm_h_star_commitment")
    }

    /// Declared by the contract, not yet backed by logic.
    pub fn get_coinbase_psbt(&self) -> (r: Result<GetCoinbasePsbtResponse, RpcError>)
        ensures
            r matches Err(e) && e matches RpcError::Unsupported { method } && method@
                == "get_coinbase_psbt"@,
    {
        RpcError::unsupported("get_coinbase_psbt")
    }

    /// Declared by the contract, not yet backed by logic.
    pub fn get_ctip(&self) -> (r: Result<GetCtipResponse, RpcError>)
        ensures
            r matches Err(e) && e matches RpcError::Unsupported { method } && method@
                == "get_ctip"@,
    {
        RpcError::unsupported("get_ctip")
    }

    /// Declared by the contract, not yet backed by logic.
    pub fn get_sidechain_proposals(&self) -> (r: Result<GetSidechainProposalsResponse, RpcError>)
        ensures
            r matches Err(e) && e matches RpcError::Unsupported { method } && method@
                == "get_sidechain_proposals"@,
    {
        RpcError::unsupported("get_sidechain_proposals")
    }

    /// Declared by the contract, not yet backed by logic.
    pub fn get_sidechains(&self) -> (r: Result<GetSidechainsResponse, RpcError>)
        ensures
            r matches Err(e) && e matches RpcError::Unsupported { method } && method@
                == "get_sidechains"@,
    {
        RpcError::unsupported("get_sidechains")
    }

    /// Declared by the contract, not yet backed by logic.
    pub fn get_two_way_peg_data(&self) -> (r: Result<GetTwoWayPegDataResponse, RpcError>)
        ensures
            r matches Err(e) && e matches RpcError::Unsupported { method } && method@
                == "get_two_way_peg_data"@,
    {
        RpcError::unsupported("get_two_way_peg_data")
    }

    /// Streaming method, not yet backed by logic: answers `Unsupported`
    /// at once, so no stream is opened and no element is ever yielded.
    pub fn subscribe_events(&self) -> (r: Result<SubscribeEventsStream, RpcError>)
        ensures
            r matches Err(e) && e matches RpcError::Unsupported { method } && method@
                == "subscribe_events"@,
    {
        RpcError::unsupported("subscribe_events")
    }

    /// Streaming method, not yet backed by logic: answers `Unsupported`
    /// at once, so no stream is opened and no element is ever yielded.
    pub fn subscribe_header_sync_progress(&self) -> (r: Result<
        SubscribeHeaderSyncProgressStream,
        RpcError,
    >)
        ensures
            r matches Err(e) && e matches RpcError::Unsupported { method } && method@
                == "subscribe_header_sync_progress"@,
    {
        RpcError::unsupported("subscribe_header_sync_progress")
    }

    /// Declared by the contract, not yet backed by logic.
    pub fn stop(&self) -> (r: Result<StopResponse, RpcError>)
        ensures
            r matches Err(e) && e matches RpcError::Unsupported { method } && method@ == "stop"@,
    {
        RpcError::unsupported("stop")
    }
}

} // verus!
