use eth_provider::{
    accounts_outcome, accounts_request, balance_outcome, balance_request, chain_outcome,
    chain_request, decode_balance, normalize, split_units, Chain, Error, Json, ProviderRPCError,
    WEI_PER_UNIT,
};

fn text(s: &str) -> Json {
    Json::Str(s.to_string())
}

fn is_decode_failure<T>(r: &Result<T, Error>) -> bool {
    matches!(r, Err(Error::DeserialisationError(_)))
}

#[test]
fn request_arguments() {
    let a = accounts_request();
    assert_eq!(a.method, "eth_requestAccounts");
    assert!(a.params.is_empty());
    let b = balance_request("0xabc");
    assert_eq!(b.method, "eth_getBalance");
    assert_eq!(b.params, vec![text("0xabc"), text("latest")]);
    let c = chain_request();
    assert_eq!(c.method, "eth_chainId");
    assert!(c.params.is_empty());
}

#[test]
fn normalization_turns_numbers_into_strings() {
    assert_eq!(normalize(Json::Number("0".to_string())), text("0"));
    assert_eq!(normalize(text("0x0")), text("0x0"));
    assert_eq!(normalize(Json::Null), Json::Null);
}

#[test]
fn zero_balance_in_both_forms() {
    assert_eq!(balance_outcome(Ok(Json::Number("0".to_string()))), Ok([0, 0, 0, 0]));
    assert_eq!(balance_outcome(Ok(text("0x0"))), Ok([0, 0, 0, 0]));
}

#[test]
fn one_unit_of_balance() {
    let wei = balance_outcome(Ok(text("0xde0b6b3a7640000"))).unwrap();
    assert_eq!(wei, [1_000_000_000_000_000_000, 0, 0, 0]);
    let (whole, rest) = split_units(wei);
    assert_eq!((whole, rest), ([1, 0, 0, 0], 0));
    let units = whole[0] as f64 + rest as f64 / WEI_PER_UNIT as f64;
    assert_eq!(units, 1.0);
}

#[test]
fn split_units_keeps_remainder() {
    let wei = 1_500_000_000_000_000_000u128;
    assert_eq!(split_units([wei as u64, 0, 0, 0]), ([1, 0, 0, 0], 500_000_000_000_000_000));
    assert_eq!(split_units([999, 0, 0, 0]), ([0, 0, 0, 0], 999));
}

#[test]
fn split_units_over_256_bits() {
    assert_eq!(split_units([0, 0, 1, 0]), ([8240973594166534375, 18, 0, 0], 374607431768211456));
    assert_eq!(
        split_units([u64::MAX; 4]),
        (
            [6556793060461518625, 6910287421937809894, 8240973594166534375, 18],
            584007913129639935
        )
    );
}

#[test]
fn balance_decoding_edges() {
    assert_eq!(decode_balance(&text("ff")), Ok([255, 0, 0, 0]));
    assert_eq!(decode_balance(&text("0xFF")), Ok([255, 0, 0, 0]));
    assert!(is_decode_failure(&decode_balance(&text("0x"))));
    assert!(is_decode_failure(&decode_balance(&text("0xzz"))));
    assert!(is_decode_failure(&decode_balance(&Json::Bool(true))));
    let beyond_128_bits = format!("0x1{}", "0".repeat(32));
    assert_eq!(decode_balance(&text(&beyond_128_bits)), Ok([0, 0, 1, 0]));
    let widest = format!("0x{}", "f".repeat(64));
    assert_eq!(decode_balance(&text(&widest)), Ok([u64::MAX; 4]));
    let too_long = format!("0x{}", "0".repeat(65));
    assert!(is_decode_failure(&decode_balance(&text(&too_long))));
}

#[test]
fn chain_from_chain_id_response() {
    let c = chain_outcome(Ok(text("0x1"))).unwrap();
    assert_eq!(c, Chain::EthereumMainnet);
    assert_eq!(c.token().symbol(), "ETH");
    let p = chain_outcome(Ok(text("0x89"))).unwrap();
    assert_eq!(p, Chain::PolygonMainnet);
    assert_eq!(p.token().symbol(), "MATIC");
    assert_eq!(chain_outcome(Ok(text("0x38"))), Ok(Chain::Other(56)));
}

#[test]
fn chain_id_beyond_32_bits_is_a_decode_failure() {
    assert!(is_decode_failure(&chain_outcome(Ok(text("0x100000000")))));
    assert!(is_decode_failure(&chain_outcome(Ok(Json::Array(vec![])))));
}

#[test]
fn rejected_call_is_classified() {
    let e = ProviderRPCError { code: 4001, message: None, data: None, stack: None };
    assert_eq!(
        chain_outcome(Err(e)),
        Err(Error::UserRejectedRequest { message: "The user rejected the request.".to_string() })
    );
}

#[test]
fn accounts_keep_order_and_duplicates() {
    let r = accounts_outcome(Ok(Json::Array(vec![text("0xb"), text("0xa"), text("0xb")])));
    assert_eq!(r, Ok(vec!["0xb".to_string(), "0xa".to_string(), "0xb".to_string()]));
    assert_eq!(accounts_outcome(Ok(Json::Array(vec![]))), Ok(vec![]));
}

#[test]
fn wrong_shape_accounts_response_is_a_decode_failure() {
    let object = Json::Object(vec![("accounts".to_string(), text("0xa"))]);
    assert!(is_decode_failure(&accounts_outcome(Ok(object))));
    assert!(is_decode_failure(&accounts_outcome(Ok(Json::Array(vec![text("0xa"), Json::Null])))));
    assert!(is_decode_failure(&accounts_outcome(Ok(Json::Number("3".to_string())))));
}
