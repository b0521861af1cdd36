use vstd::prelude::*;

use crate::hex_render::{check_hex_render, rev_pairs, reverse_hex, valid_hex_render};
use crate::messages::{
    BlockHeaderInfo, GetChainInfoResponse, GetChainTipResponse, Network, ReverseHex,
};
use crate::rpc_error::RpcError;

verus! {

/// The fixed, total mapping from a node's network identifier to the
/// contract's network: the three known identifiers map to their
/// counterparts, every other identifier — any future or unknown one
/// included — to `Unspecified`.
pub open spec fn network_of(chain: Seq<char>) -> Network {
    if chain == "main"@ {
        Network::Mainnet
    } else if chain == "test"@ {
        Network::Testnet
    } else if chain == "regtest"@ {
        Network::Regtest
    } else {
        Network::Unspecified
    }
}

/// Translate the node's network identifier. Total: an unrecognized
/// identifier is never a failure, it maps to `Unspecified`.
pub fn network_from_chain(chain: &str) -> (n: Network)
    ensures
        n == network_of(chain@),
{
    let c = chain.to_owned();
    if c == "main".to_owned() {
        Network::Mainnet
    } else if c == "test".to_owned() {
        Network::Testnet
    } else if c == "regtest".to_owned() {
        Network::Regtest
    } else {
        Network::Unspecified
    }
}

/// Build the chain-info answer from the network identifier the node
/// reported. Never fails on the identifier's account.
pub fn chain_info_from_node(chain: &str) -> (r: GetChainInfoResponse)
    ensures
        r.network == network_of(chain@),
{
    GetChainInfoResponse { network: network_from_chain(chain) }
}

/// Whether the node's best-block answer is well formed: a non-negative
/// height and a well-formed hex rendering of the tip's hash.
pub open spec fn valid_node_tip(hash: Seq<char>, height: i32) -> bool {
    height >= 0 && valid_hex_render(hash)
}

/// Build the chain-tip answer from the node's best-block answer: the
/// height carried over, the hash rendered through the byte-order flip.
///
/// A negative height or a malformed hash rendering is a contract
/// violation by the node; it is rejected as an upstream failure, never
/// silently coerced.
pub fn chain_tip_from_node(hash: &str, height: i32) -> (r: Result<GetChainTipResponse, RpcError>)
    ensures
        valid_node_tip(hash@, height) ==> (r matches Ok(resp)
            && resp.block_header_info.height == height as u32
            && resp.block_header_info.block_hash.hex@ == rev_pairs(hash@)),
        !valid_node_tip(hash@, height) ==> (r matches Err(e) && e is Upstream),
{
    if height < 0 {
        return Err(RpcError::upstream("node reported a negative block height".to_owned()));
    }
    if !check_hex_render(hash) {
        return Err(RpcError::upstream("node reported a malformed block hash rendering".to_owned()));
    }
    Ok(GetChainTipResponse {
        block_header_info: BlockHeaderInfo {
            height: height as u32,
            block_hash: ReverseHex { hex: reverse_hex(hash) },
        },
    })
}

} // verus!
