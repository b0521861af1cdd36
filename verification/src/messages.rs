use vstd::prelude::*;

verus! {

/// The network a node can belong to, as the serving contract names it.
/// A node identifier outside the three known ones maps to `Unspecified`.
#[derive(Clone, Copy, Debug, PartialEq, Eq, Structural)]
pub enum Network {
    Unspecified,
    Mainnet,
    Testnet,
    Regtest,
}

/// Answer to the chain-info query.
#[derive(Clone, Copy, Debug, PartialEq, Eq, Structural)]
pub struct GetChainInfoResponse {
    pub network: Network,
}

/// A hash rendered as a hex string whose byte order is the reverse of the
/// node's native rendering. The contract's canonical hash representation
/// differs from the node's; the flip happens in exactly one place
/// (`hex_render::reverse_hex`).
#[derive(Clone, Debug)]
pub struct ReverseHex {
    pub hex: String,
}

/// The header data the chain-tip query reports: the tip's height and its
/// hash in the contract's byte order.
#[derive(Clone, Debug)]
pub struct BlockHeaderInfo {
    pub height: u32,
    pub block_hash: ReverseHex,
}

/// Answer to the chain-tip query.
#[derive(Clone, Debug)]
pub struct GetChainTipResponse {
    pub block_header_info: BlockHeaderInfo,
}

// The message shapes below belong to contract methods that are declared
// but not yet backed by logic. Their wire shapes are fixed externally and
// never constructed here (every method producing them answers
// `Unsupported`), so their fields are not modeled.

pub struct GetBlockHeaderInfoResponse;

pub struct GetBlockInfoResponse;

pub struct GetBmmHStarCommitmentResponse;

pub struct GetCoinbasePsbtResponse;

pub struct GetCtipResponse;

pub struct GetSidechainProposalsResponse;

pub struct GetSidechainsResponse;

pub struct GetTwoWayPegDataResponse;

pub struct StopResponse;

/// Handle to the event-subscription stream. Never constructed: the
/// subscription is not yet supported, so no stream is ever opened and no
/// element is ever yielded.
pub struct SubscribeEventsStream;

/// Handle to the header-sync-progress stream. Never constructed: the
/// subscription is not yet supported, so no stream is ever opened and no
/// element is ever yielded.
pub struct SubscribeHeaderSyncProgressStream;

pub struct CreateBmmCriticalDataTransactionResponse;

pub struct CreateDepositTransactionResponse;

pub struct CreateNewAddressResponse;

/// Handle to the sidechain-proposal stream. Never constructed: the method
/// is not yet supported, so no stream is ever opened and no element is
/// ever yielded.
pub struct CreateSidechainProposalStream;

pub struct CreateWalletResponse;

pub struct GetBalanceResponse;

pub struct ListSidechainDepositTransactionsResponse;

pub struct ListTransactionsResponse;

pub struct ListUnspentOutputsResponse;

pub struct GetInfoResponse;

pub struct SendTransactionResponse;

pub struct UnlockWalletResponse;

pub struct BroadcastWithdrawalBundleResponse;

/// Handle to the block-generation stream. Never constructed: the method
/// is not yet supported, so no stream is ever opened and no element is
/// ever yielded.
pub struct GenerateBlocksStream;

} // verus!
