use ltc_mainchain_adapter::chain_query::{
    chain_info_from_node, chain_tip_from_node, network_from_chain,
};
use ltc_mainchain_adapter::hex_render::{check_hex_render, reverse_hex};
use ltc_mainchain_adapter::messages::Network;
use ltc_mainchain_adapter::rpc_error::RpcError;
use ltc_mainchain_adapter::validator_service::LitecoinValidator;

#[test]
fn known_network_identifiers_map_to_their_variants() {
    assert_eq!(network_from_chain("main"), Network::Mainnet);
    assert_eq!(network_from_chain("test"), Network::Testnet);
    assert_eq!(network_from_chain("regtest"), Network::Regtest);
}

#[test]
fn unknown_network_identifiers_map_to_unspecified_and_never_fail() {
    assert_eq!(network_from_chain("signet"), Network::Unspecified);
    assert_eq!(network_from_chain(""), Network::Unspecified);
    assert_eq!(network_from_chain("mainnet"), Network::Unspecified);
    assert_eq!(network_from_chain("some-future-network"), Network::Unspecified);
    assert_eq!(network_from_chain("MAIN"), Network::Unspecified);
}

#[test]
fn chain_info_carries_the_mapped_network() {
    assert_eq!(chain_info_from_node("regtest").network, Network::Regtest);
    assert_eq!(chain_info_from_node("nonsense").network, Network::Unspecified);
}

#[test]
fn reverse_hex_flips_byte_order() {
    assert_eq!(reverse_hex("01020304"), "04030201");
    assert_eq!(reverse_hex(""), "");
    assert_eq!(reverse_hex("ab"), "ab");
    assert_eq!(reverse_hex("deadbeef"), "efbeadde");
}

#[test]
fn reverse_hex_twice_gives_back_the_original_rendering() {
    let original = "000000000019d6689c085ae165831e934ff763ae46a2a6c172b3f1b60a8ce26f";
    let flipped = reverse_hex(original);
    assert_eq!(flipped, "6fe28c0ab6f1b372c1a6a246ae63f74f931e8365e15a089c68d6190000000000");
    assert_eq!(reverse_hex(&flipped), original);
}

#[test]
fn check_hex_render_accepts_only_even_length_hex() {
    assert!(check_hex_render(""));
    assert!(check_hex_render("0123456789abcdefABCDEF"));
    assert!(!check_hex_render("abc"));
    assert!(!check_hex_render("zz"));
    assert!(!check_hex_render("0g"));
}

#[test]
fn chain_tip_keeps_height_and_flips_the_hash() {
    let tip = chain_tip_from_node("01020304", 100).unwrap();
    assert_eq!(tip.block_header_info.height, 100);
    assert_eq!(tip.block_header_info.block_hash.hex, "04030201");
}

#[test]
fn chain_tip_rejects_a_negative_height_as_upstream() {
    let err = chain_tip_from_node("01020304", -1).unwrap_err();
    assert!(matches!(err, RpcError::Upstream { .. }));
}

#[test]
fn chain_tip_rejects_a_malformed_hash_rendering_as_upstream() {
    let odd = chain_tip_from_node("abc", 5).unwrap_err();
    assert!(matches!(odd, RpcError::Upstream { .. }));
    let not_hex = chain_tip_from_node("xyzw", 5).unwrap_err();
    assert!(matches!(not_hex, RpcError::Upstream { .. }));
}

#[test]
fn node_failure_surfaces_as_upstream_with_the_original_text() {
    let v = LitecoinValidator;
    let info_err = v.get_chain_info(Err("connection refused".to_string())).unwrap_err();
    match info_err {
        RpcError::Upstream { message } => assert_eq!(message, "connection refused"),
        other => panic!("expected an upstream failure, got {:?}", other),
    }
    let tip_err = v.get_chain_tip(Err("401 unauthorized".to_string())).unwrap_err();
    match tip_err {
        RpcError::Upstream { message } => assert_eq!(message, "401 unauthorized"),
        other => panic!("expected an upstream failure, got {:?}", other),
    }
}

#[test]
fn testnet_node_scenario() {
    let v = LitecoinValidator;

    let info = v.get_chain_info(Ok("test".to_string())).unwrap();
    assert_eq!(info.network, Network::Testnet);

    let native = "0102030405060708090a0b0c0d0e0f101112131415161718191a1b1c1d1e1f20";
    let tip = v.get_chain_tip(Ok((native.to_string(), 100))).unwrap();
    assert_eq!(tip.block_header_info.height, 100);
    assert_eq!(
        tip.block_header_info.block_hash.hex,
        "201f1e1d1c1b1a191817161514131211100f0e0d0c0b0a090807060504030201"
    );
}
