use eth_provider::{decimal_text, identify, to_chain, Chain, Token};

#[test]
fn known_ids_map_to_named_chains() {
    assert_eq!(identify(1), Chain::EthereumMainnet);
    assert_eq!(identify(3), Chain::EthereumRopstenTestNetwork);
    assert_eq!(identify(4), Chain::EthereumRinkebyTestNetwork);
    assert_eq!(identify(5), Chain::EthereumGoerliTestNetwork);
    assert_eq!(identify(42), Chain::EthereumKovanTestNetwork);
    assert_eq!(identify(137), Chain::PolygonMainnet);
}

#[test]
fn unknown_ids_map_to_other() {
    assert_eq!(identify(0), Chain::Other(0));
    assert_eq!(identify(2), Chain::Other(2));
    assert_eq!(identify(56), Chain::Other(56));
    assert_eq!(identify(u32::MAX), Chain::Other(u32::MAX));
}

#[test]
fn other_chain_name_carries_decimal_id() {
    assert_eq!(identify(56).name(), "Other Network (56)");
    assert_eq!(identify(0).name(), "Other Network (0)");
    assert_eq!(identify(u32::MAX).name(), "Other Network (4294967295)");
}

#[test]
fn known_chain_names() {
    assert_eq!(Chain::EthereumMainnet.name(), "Ethereum Mainnet");
    assert_eq!(Chain::EthereumRopstenTestNetwork.name(), "Ethereum Ropsten Testnet");
    assert_eq!(Chain::EthereumRinkebyTestNetwork.name(), "Ethereum Rinkeby Testnet");
    assert_eq!(Chain::EthereumKovanTestNetwork.name(), "Ethereum Kovan Testnet");
    assert_eq!(Chain::EthereumGoerliTestNetwork.name(), "Ethereum Goerli Testnet");
    assert_eq!(Chain::PolygonMainnet.name(), "Polygon Mainnet");
}

#[test]
fn token_follows_chain_family() {
    assert_eq!(Chain::EthereumMainnet.token(), Token::Ether);
    assert_eq!(Chain::EthereumRopstenTestNetwork.token(), Token::Ether);
    assert_eq!(Chain::EthereumRinkebyTestNetwork.token(), Token::Ether);
    assert_eq!(Chain::EthereumKovanTestNetwork.token(), Token::Ether);
    assert_eq!(Chain::EthereumGoerliTestNetwork.token(), Token::Ether);
    assert_eq!(Chain::PolygonMainnet.token(), Token::Matic);
    assert_eq!(Chain::Other(7).token(), Token::Other);
}

#[test]
fn token_symbols() {
    assert_eq!(Token::Ether.symbol(), "ETH");
    assert_eq!(Token::Matic.symbol(), "MATIC");
    assert_eq!(Token::Other.symbol(), "");
}

#[test]
fn decimal_text_of_numbers() {
    assert_eq!(decimal_text(0), "0");
    assert_eq!(decimal_text(9), "9");
    assert_eq!(decimal_text(10), "10");
    assert_eq!(decimal_text(1234567890), "1234567890");
}

#[test]
fn narrowing_keeps_ids_within_32_bits() {
    assert_eq!(to_chain(137), Some(Chain::PolygonMainnet));
    assert_eq!(to_chain(u32::MAX as u128), Some(Chain::Other(u32::MAX)));
    assert_eq!(to_chain(u32::MAX as u128 + 1), None);
}
