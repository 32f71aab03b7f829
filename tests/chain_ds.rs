use symphony_chain::chain_id::{Chain, SymphonyChainError, SymphonyChains, DEVNET_ID};

#[test]
fn test_from_str_named_chain_error() {
    let result = Chain::from_str("chain");

    assert!(result.is_err());
}

#[test]
fn test_from_str_id_chain() {
    let result = Chain::from_str("1234");
    let expected = Chain::Id(1234);

    assert!(result.is_ok());
    assert_eq!(result.unwrap(), expected);
}

#[test]
fn test_default() {
    let default = Chain::default();
    let expected = Chain::Named(SymphonyChains::Mainnet);

    assert_eq!(default, expected);
}

#[test]
fn test_id_chain_encodable_length() {
    let chain = Chain::Id(1234);

    assert_eq!(chain.length(), 3);
}

#[test]
fn test_from_str_named_chain() {
    let result = Chain::from_str("mainnet");
    let expected = Chain::Named(SymphonyChains::Mainnet);

    assert!(result.is_ok());
    assert_eq!(result.unwrap(), expected);
}

#[test]
fn test_id() {
    let chain = Chain::Id(1234);
    assert_eq!(chain.id(), 1234);
}

#[test]
fn test_named_id() {
    let chain = Chain::Named(SymphonyChains::Devnet);
    assert_eq!(chain.id(), DEVNET_ID);
}

#[test]
fn test_display_named_chain() {
    let chain = Chain::Named(SymphonyChains::Mainnet);
    assert_eq!(chain.to_string(), "symphony-mainnet");
}

#[test]
fn test_display_id_chain() {
    let chain = Chain::Id(1234);
    assert_eq!(chain.to_string(), "1234");
}

#[test]
fn chain_from_str_is_case_insensitive_for_names() {
    assert_eq!(Chain::from_str("DevNet"), Ok(Chain::Named(SymphonyChains::Devnet)));
    assert_eq!(Chain::from_str("TESTNET"), Ok(Chain::Named(SymphonyChains::Testnet)));
}

#[test]
fn chain_from_str_accepts_plus_sign_and_rejects_overflow() {
    assert_eq!(Chain::from_str("+7"), Ok(Chain::Id(7)));
    let err = Chain::from_str("18446744073709551616").unwrap_err();
    assert_eq!(err, "Expected known chain or integer, found: 18446744073709551616");
    assert!(Chain::from_str("").is_err());
    assert!(Chain::from_str("12a").is_err());
}

#[test]
fn chain_from_id_prefers_named_networks() {
    assert_eq!(Chain::from_id(70048), Chain::Named(SymphonyChains::Devnet));
    assert_eq!(Chain::from_id(70050), Chain::Id(70050));
    assert_eq!(SymphonyChains::try_from_id(70049), Ok(SymphonyChains::Testnet));
    assert!(SymphonyChains::try_from_id(1).is_err());
}

#[test]
fn chain_display_uses_the_ethers_table_for_known_ids() {
    assert_eq!(Chain::Id(1).to_string(), "mainnet");
    assert_eq!(Chain::Id(5).to_string(), "goerli");
    assert_eq!(Chain::Named(SymphonyChains::Testnet).to_string(), "symphony-testnet");
}

#[test]
fn chain_encoded_lengths() {
    assert_eq!(Chain::Id(0).length(), 1);
    assert_eq!(Chain::Id(0x7f).length(), 1);
    assert_eq!(Chain::Id(0x80).length(), 2);
    assert_eq!(Chain::Id(u64::MAX).length(), 9);
    assert_eq!(Chain::mainnet().length(), 4);
}

#[test]
fn chain_encode_is_rlp_of_the_id() {
    let mut out = vec![];
    Chain::Id(1234).encode(&mut out);
    assert_eq!(out, vec![0x82, 0x04, 0xd2]);
    let mut out = vec![0xff];
    Chain::Id(0).encode(&mut out);
    Chain::Id(5).encode(&mut out);
    assert_eq!(out, vec![0xff, 0x80, 0x05]);
    let mut out = vec![];
    Chain::mainnet().encode(&mut out);
    assert_eq!(out, vec![0x83, 0x01, 0x11, 0x9f]);
}

#[test]
fn public_dns_lists_of_well_known_networks() {
    assert_eq!(
        Chain::Id(1).public_dns_network_protocol(),
        Some(
            "enrtree://AKA3AM6LPBYEUDMVNU3BSVQJ5AD45Y7YPOHJLEF6W26QOE4VTUDPE@all.mainnet.ethdisco.net"
                .to_string()
        )
    );
    assert_eq!(Chain::mainnet().public_dns_network_protocol(), None);
    assert_eq!(Chain::Id(1337).public_dns_network_protocol(), None);
}

#[test]
fn symphony_chain_errors() {
    assert_eq!(SymphonyChains::try_from_str("nope"), Err(SymphonyChainError::UnrecognizedStr));
    assert_eq!(SymphonyChains::try_from_str("mainNET"), Ok(SymphonyChains::Mainnet));
    assert_eq!(SymphonyChains::try_from_id(2), Err(SymphonyChainError::UnrecognizedChainId));
    assert_eq!(SymphonyChains::Devnet.id(), 70048);
    assert_eq!(SymphonyChains::Devnet.to_string(), "symphony-devnet");
}
