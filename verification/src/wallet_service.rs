use vstd::prelude::*;

use crate::messages::{
    BroadcastWithdrawalBundleResponse, CreateBmmCriticalDataTransactionResponse,
    CreateDepositTransactionResponse, CreateNewAddressResponse, CreateSidechainProposalStream,
    CreateWalletResponse, GenerateBlocksStream, GetBalanceResponse, GetInfoResponse,
    ListSidechainDepositTransactionsResponse, ListTransactionsResponse,
    ListUnspentOutputsResponse, SendTransactionResponse, UnlockWalletResponse,
};
use crate::rpc_error::RpcError;

verus! {

/// The wallet-facing method surface. Every method is declared by the
/// serving contract but not yet backed by logic, so every method answers
/// `Unsupported` with its own name. The component exists to fix the
/// contract's shape: each method can be filled in on its own later
/// without touching dispatch or composition.
pub struct LitecoinWallet;

impl LitecoinWallet {
    /// Declared by the contract, not yet backed by logic.
    pub fn create_bmm_critical_data_transaction(&self) -> (r: Result<
        CreateBmmCriticalDataTransactionResponse,
        RpcError,
    >)
        ensures
            r matches Err(e) && e matches RpcError::Unsupported { method } && method@
                == "create_bmm_critical_data_transaction"@,
    {
        RpcError::unsupported("create_bmm_critical_data_transaction")
    }

    /// Declared by the contract, not yet backed by logic.
    pub fn create_deposit_transaction(&self) -> (r: Result<
        CreateDepositTransactionResponse,
        RpcError,
    >)
        ensures
            r matches Err(e) && e matches RpcError::Unsupported { method } && method@
                == "create_deposit_transaction"@,
    {
        RpcError::unsupported("create_deposit_transaction")
    }

    /// Declared by the contract, not yet backed by logic.
    pub fn create_new_address(&self) -> (r: Result<CreateNewAddressResponse, RpcError>)
        ensures
            r matches Err(e) && e matches RpcError::Unsupported { method } && method@
                == "create_new_address"@,
    {
        RpcError::unsupported("create_new_address")
    }

    /// Streaming method, not yet backed by logic: answers `Unsupported`
    /// at once, so no stream is opened and no element is ever yielded.
    pub fn create_sidechain_proposal(&self) -> (r: Result<CreateSidechainProposalStream, RpcError>)
        ensures
            r matches Err(e) && e matches RpcError::Unsupported { method } && method@
                == "create_sidechain_proposal"@,
    {
        RpcError::unsupported("create_sidechain_proposal")
    }

    /// Declared by the contract, not yet backed by logic.
    pub fn create_wallet(&self) -> (r: Result<CreateWalletResponse, RpcError>)
        ensures
            r matches Err(e) && e matches RpcError::Unsupported { method } && method@
                == "create_wallet"@,
    {
        RpcError::unsupported("create_wallet")
    }

    /// Declared by the contract, not yet backed by logic.
    pub fn get_balance(&self) -> (r: Result<GetBalanceResponse, RpcError>)
        ensures
            r matches Err(e) && e matches RpcError::Unsupported { method } && method@
                == "get_balance"@,
    {
        RpcError::unsupported("get_balance")
    }

    /// Declared by the contract, not yet backed by logic.
    pub fn list_sidechain_deposit_transactions(&self) -> (r: Result<
        ListSidechainDepositTransactionsResponse,
        RpcError,
    >)
        ensures
            r matches Err(e) && e matches RpcError::Unsupported { method } && method@
                == "list_sidechain_deposit_transactions"@,
    {
        RpcError::unsupported("list_sidechain_deposit_transactions")
    }

    /// Declared by the contract, not yet backed by logic.
    pub fn list_transactions(&self) -> (r: Result<ListTransactionsResponse, RpcError>)
        ensures
            r matches Err(e) && e matches RpcError::Unsupported { method } && method@
                == "list_transactions"@,
    {
        RpcError::unsupported("list_transactions")
    }

    /// Declared by the contract, not yet backed by logic.
    pub fn list_unspent_outputs(&self) -> (r: Result<ListUnspentOutputsResponse, RpcError>)
        ensures
            r matches Err(e) && e matches RpcError::Unsupported { method } && method@
                == "list_unspent_outputs"@,
    {
        RpcError::unsupported("list_unspent_outputs")
    }

    /// Declared by the contract, not yet backed by logic.
    pub fn get_info(&self) -> (r: Result<GetInfoResponse, RpcError>)
        ensures
            r matches Err(e) && e matches RpcError::Unsupported { method } && method@
                == "get_info"@,
    {
        RpcError::unsupported("get_info")
    }

    /// Declared by the contract, not yet backed by logic.
    pub fn send_transaction(&self) -> (r: Result<SendTransactionResponse, RpcError>)
        ensures
            r matches Err(e) && e matches RpcError::Unsupported { method } && method@
                == "send_transaction"@,
    {
        RpcError::unsupported("send_transaction")
    }

    /// Declared by the contract, not yet backed by logic.
    pub fn unlock_wallet(&self) -> (r: Result<UnlockWalletResponse, RpcError>)
        ensures
            r matches Err(e) && e matches RpcError::Unsupported { method } && method@
                == "unlock_wallet"@,
    {
        RpcError::unsupported("unlock_wallet")
    }

    /// Declared by the contract, not yet backed by logic.
    pub fn broadcast_withdrawal_bundle(&self) -> (r: Result<
        BroadcastWithdrawalBundleResponse,
        RpcError,
    >)
        ensures
            r matches Err(e) && e matches RpcError::Unsupported { method } && method@
                == "broadcast_withdrawal_bundle"@,
    {
        RpcError::unsupported("broadcast_withdrawal_bundle")
    }

    /// Streaming method, not yet backed by logic: answers `Unsupported`
    /// at once, so no stream is opened and no element is ever yielded.
    pub fn generate_blocks(&self) -> (r: Result<GenerateBlocksStream, RpcError>)
        ensures
            r matches Err(e) && e matches RpcError::Unsupported { method } && method@
                == "generate_blocks"@,
    {
        RpcError::unsupported("generate_blocks")
    }
}

} // verus!
