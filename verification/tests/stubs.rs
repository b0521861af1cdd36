use ltc_mainchain_adapter::rpc_error::RpcError;
use ltc_mainchain_adapter::validator_service::LitecoinValidator;
use ltc_mainchain_adapter::wallet_service::LitecoinWallet;

fn expect_unsupported<T>(r: Result<T, RpcError>, method: &str) {
    match r {
        Err(RpcError::Unsupported { method: m }) => assert_eq!(m, method),
        Err(other) => panic!("{}: expected the unsupported kind, got {:?}", method, other),
        Ok(_) => panic!("{}: a stub must never return a success value", method),
    }
}

#[test]
fn validator_stubs_answer_unsupported_with_their_names() {
    let v = LitecoinValidator;
    expect_unsupported(v.get_block_header_info(), "get_block_header_info");
    expect_unsupported(v.get_block_info(), "get_block_info");
    expect_unsupported(v.get_bmm_h_star_commitment(), "get_bmm_h_star_commitment");
    expect_unsupported(v.get_coinbase_psbt(), "get_coinbase_psbt");
    expect_unsupported(v.get_ctip(), "get_ctip");
    expect_unsupported(v.get_sidechain_proposals(), "get_sidechain_proposals");
    expect_unsupported(v.get_sidechains(), "get_sidechains");
    expect_unsupported(v.get_two_way_peg_data(), "get_two_way_peg_data");
    expect_unsupported(v.stop(), "stop");
}

#[test]
fn validator_streaming_stubs_answer_unsupported_without_opening_a_stream() {
    let v = LitecoinValidator;
    expect_unsupported(v.subscribe_events(), "subscribe_events");
    expect_unsupported(v.subscribe_header_sync_progress(), "subscribe_header_sync_progress");
}

#[test]
fn wallet_stubs_answer_unsupported_with_their_names() {
    let w = LitecoinWallet;
    expect_unsupported(
        w.create_bmm_critical_data_transaction(),
        "create_bmm_critical_data_transaction",
    );
    expect_unsupported(w.create_deposit_transaction(), "create_deposit_transaction");
    expect_unsupported(w.create_new_address(), "create_new_address");
    expect_unsupported(w.create_wallet(), "create_wallet");
    expect_unsupported(w.get_balance(), "get_balance");
    expect_unsupported(
        w.list_sidechain_deposit_transactions(),
        "list_sidechain_deposit_transactions",
    );
    expect_unsupported(w.list_transactions(), "list_transactions");
    expect_unsupported(w.list_unspent_outputs(), "list_unspent_outputs");
    expect_unsupported(w.get_info(), "get_info");
    expect_unsupported(w.send_transaction(), "send_transaction");
    expect_unsupported(w.unlock_wallet(), "unlock_wallet");
    expect_unsupported(w.broadcast_withdrawal_bundle(), "broadcast_withdrawal_bundle");
}

#[test]
fn wallet_streaming_stubs_answer_unsupported_without_opening_a_stream() {
    let w = LitecoinWallet;
    expect_unsupported(w.create_sidechain_proposal(), "create_sidechain_proposal");
    expect_unsupported(w.generate_blocks(), "generate_blocks");
}
