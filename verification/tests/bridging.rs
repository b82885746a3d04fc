use wavs_frontend::config::EthereumChainConfig;
use wavs_frontend::hex::HexError;
use wavs_frontend::local::EndpointError;
use wavs_frontend::primitives::{Address, B256, U256};
use wavs_frontend::bridge::{
    assemble_request, decode_tx_hash, tx_into_wallet_request, AccessListItem, BridgeError,
    BridgeErrorKind, PendingTransaction, SendableTx, SignedAuthorization, TransactionInput,
    TransactionRequest, TxKind,
};
use wavs_frontend::viem::ViemProvider;

fn vitalik() -> Address {
    Address {
        bytes: [
            0xd8, 0xda, 0x6b, 0xf2, 0x69, 0x64, 0xaf, 0x9d, 0x7e, 0xed, 0x9e, 0x03, 0xe5, 0x34,
            0x15, 0xd3, 0x7a, 0xa9, 0x60, 0x45,
        ],
    }
}

fn zero_address() -> Address {
    Address { bytes: [0u8; 20] }
}

fn empty_request() -> TransactionRequest {
    TransactionRequest {
        from: None,
        to: None,
        gas_price: None,
        max_fee_per_gas: None,
        max_priority_fee_per_gas: None,
        max_fee_per_blob_gas: None,
        gas: None,
        value: None,
        input: TransactionInput { input: None, data: None },
        nonce: None,
        chain_id: None,
        access_list: None,
        authorization_list: None,
    }
}

fn request_to(to: Address) -> TransactionRequest {
    let mut tx = empty_request();
    tx.to = Some(TxKind::Call(to));
    tx
}

#[test]
fn bare_request_maps_only_the_two_addresses() {
    let r = tx_into_wallet_request(vitalik(), request_to(zero_address())).unwrap();
    assert_eq!(r.account, "0xd8dA6BF26964aF9D7eEd9e03E53415D37aA96045");
    assert_eq!(r.to, "0x0000000000000000000000000000000000000000");
    assert_eq!(r.data, None);
    assert_eq!(r.access_list, None);
    assert_eq!(r.authorization_list, None);
    assert_eq!(r.max_fee_per_gas, None);
    assert_eq!(r.max_priority_fee_per_gas, None);
    assert_eq!(r.value, None);
}

#[test]
fn checksummed_text_is_not_the_plain_hex() {
    let r = tx_into_wallet_request(zero_address(), request_to(vitalik())).unwrap();
    assert_eq!(r.to, "0xd8dA6BF26964aF9D7eEd9e03E53415D37aA96045");
    assert_ne!(r.to, "0xd8da6bf26964af9d7eed9e03e53415d37aa96045");
    assert_eq!(r.to.len(), 42);
}

#[test]
fn present_fields_are_mapped_in_the_wallet_form() {
    let mut tx = request_to(zero_address());
    tx.input = TransactionInput { input: Some(vec![0x01, 0x02, 0x0f, 0x10, 0xab]), data: None };
    tx.max_fee_per_gas = Some(20_000_000_000);
    tx.max_priority_fee_per_gas = Some(0);
    tx.value = Some(U256 { limbs: [0, 1, 0, 0] });
    tx.gas = Some(1_000_000);
    tx.nonce = Some(3);
    let r = tx_into_wallet_request(vitalik(), tx).unwrap();
    assert_eq!(r.data, Some("01020f10ab".to_string()));
    assert_eq!(r.max_fee_per_gas, Some("20000000000".to_string()));
    assert_eq!(r.max_priority_fee_per_gas, Some("0".to_string()));
    assert_eq!(r.value, Some("18446744073709551616".to_string()));
}

#[test]
fn amounts_at_the_limits_are_written_in_full() {
    let mut tx = request_to(zero_address());
    tx.max_fee_per_gas = Some(u128::MAX);
    tx.value = Some(U256 { limbs: [u64::MAX; 4] });
    let r = tx_into_wallet_request(vitalik(), tx).unwrap();
    assert_eq!(r.max_fee_per_gas, Some("340282366920938463463374607431768211455".to_string()));
    assert_eq!(
        r.value,
        Some(
            "115792089237316195423570985008687907853269984665640564039457584007913129639935"
                .to_string()
        )
    );
    assert_eq!(U256::from_u64(7), U256 { limbs: [7, 0, 0, 0] });
}

#[test]
fn input_wins_over_data_and_data_stands_in_for_input() {
    let both = TransactionInput { input: Some(vec![0xaa]), data: Some(vec![0xbb]) };
    assert_eq!(both.into_input(), Some(vec![0xaa]));
    let only_data = TransactionInput { input: None, data: Some(vec![0xbb]) };
    assert_eq!(only_data.into_input(), Some(vec![0xbb]));
    assert_eq!(TransactionInput { input: None, data: None }.into_input(), None);

    let mut tx = request_to(zero_address());
    tx.input = TransactionInput { input: None, data: Some(vec![0xbb, 0x00]) };
    let r = tx_into_wallet_request(vitalik(), tx).unwrap();
    assert_eq!(r.data, Some("bb00".to_string()));
}

#[test]
fn empty_call_data_is_present_and_empty() {
    let mut tx = request_to(zero_address());
    tx.input = TransactionInput { input: Some(vec![]), data: None };
    let r = tx_into_wallet_request(vitalik(), tx).unwrap();
    assert_eq!(r.data, Some(String::new()));
}

#[test]
fn lists_are_carried_over_unchanged() {
    let item = AccessListItem {
        address: vitalik(),
        storage_keys: vec![B256 { bytes: [1u8; 32] }, B256 { bytes: [2u8; 32] }],
    };
    let auth = SignedAuthorization {
        chain_id: U256::from_u64(1),
        address: zero_address(),
        nonce: 9,
        y_parity: 1,
        r: U256::from_u64(11),
        s: U256::from_u64(12),
    };
    let mut tx = request_to(zero_address());
    tx.access_list = Some(vec![AccessListItem {
        address: vitalik(),
        storage_keys: vec![B256 { bytes: [1u8; 32] }, B256 { bytes: [2u8; 32] }],
    }]);
    tx.authorization_list = Some(vec![auth]);
    let r = tx_into_wallet_request(vitalik(), tx).unwrap();
    assert_eq!(r.access_list, Some(vec![item]));
    assert_eq!(r.authorization_list, Some(vec![auth]));
}

#[test]
fn request_is_put_together_from_given_address_texts() {
    let mut tx = empty_request();
    tx.value = Some(U256::from_u64(1_000));
    tx.input = TransactionInput { input: Some(vec![0xff]), data: None };
    let r = assemble_request("from".to_string(), "to".to_string(), tx);
    assert_eq!(r.account, "from");
    assert_eq!(r.to, "to");
    assert_eq!(r.value, Some("1000".to_string()));
    assert_eq!(r.data, Some("ff".to_string()));
    assert_eq!(r.max_fee_per_gas, None);
    assert_eq!(r.max_priority_fee_per_gas, None);
    assert_eq!(r.access_list, None);
    assert_eq!(r.authorization_list, None);
}

#[test]
fn request_without_destination_is_refused() {
    assert_eq!(
        tx_into_wallet_request(vitalik(), empty_request()),
        Err(BridgeError::NoDestination)
    );
    let mut create = empty_request();
    create.to = Some(TxKind::Create);
    create.value = Some(U256::from_u64(1));
    assert_eq!(tx_into_wallet_request(vitalik(), create), Err(BridgeError::NoDestination));
    assert_eq!(TxKind::Create.to(), None);
    assert_eq!(TxKind::Call(vitalik()).to(), Some(vitalik()));
}

fn provider(accounts: Vec<Address>) -> ViemProvider {
    ViemProvider { accounts, endpoint: "http://localhost:8545".to_string() }
}

#[test]
fn signed_envelope_is_unsupported() {
    let p = provider(vec![vitalik()]);
    let r = p.prepare_send(SendableTx::Envelope(vec![0x02, 0xf8, 0x6f]));
    assert_eq!(r, Err(BridgeError::Unsupported));
    assert_eq!(BridgeError::Unsupported.kind(), BridgeErrorKind::UnsupportedFeature);
    let none = provider(vec![]);
    assert_eq!(none.prepare_send(SendableTx::Envelope(vec![])), Err(BridgeError::Unsupported));
}

#[test]
fn builder_request_is_sent_from_the_first_account() {
    let p = provider(vec![vitalik(), zero_address()]);
    assert_eq!(p.sender(), Ok(vitalik()));
    let r = p.prepare_send(SendableTx::Builder(request_to(zero_address()))).unwrap();
    assert_eq!(r.account, "0xd8dA6BF26964aF9D7eEd9e03E53415D37aA96045");
    assert_eq!(r.to, "0x0000000000000000000000000000000000000000");
}

#[test]
fn missing_account_is_reported_before_missing_destination() {
    let p = provider(vec![]);
    assert_eq!(p.sender(), Err(BridgeError::NoAccounts));
    assert_eq!(p.prepare_send(SendableTx::Builder(empty_request())), Err(BridgeError::NoAccounts));
    assert_eq!(BridgeError::NoAccounts.kind(), BridgeErrorKind::LocalUsage);
    let q = provider(vec![vitalik()]);
    assert_eq!(
        q.prepare_send(SendableTx::Builder(empty_request())),
        Err(BridgeError::NoDestination)
    );
    assert_eq!(BridgeError::NoDestination.kind(), BridgeErrorKind::LocalUsage);
}

const HASH_TEXT: &str = "0x000102030405060708090a0b0c0d0e0f101112131415161718191A1B1C1D1E1F";

fn hash_bytes() -> [u8; 32] {
    let mut bytes = [0u8; 32];
    for (i, b) in bytes.iter_mut().enumerate() {
        *b = i as u8;
    }
    bytes
}

#[test]
fn wallet_reply_with_a_hash_gives_a_pending_transaction() {
    let p = provider(vec![vitalik()]);
    let expected = PendingTransaction {
        tx_hash: B256 { bytes: hash_bytes() },
        endpoint: "http://localhost:8545".to_string(),
    };
    let r = p.complete_send(Ok(Some(HASH_TEXT.to_string())));
    assert_eq!(r.as_ref(), Ok(&expected));
    let bare = p.complete_send(Ok(Some(HASH_TEXT[2..].to_string())));
    assert_eq!(bare.as_ref(), Ok(&expected));
}

#[test]
fn wallet_refusal_and_missing_text_are_reported() {
    let p = provider(vec![vitalik()]);
    assert_eq!(
        p.complete_send(Err("User rejected the request.".to_string())),
        Err(BridgeError::Rejected("User rejected the request.".to_string()))
    );
    assert_eq!(p.complete_send(Ok(None)), Err(BridgeError::MissingHash));
    assert_eq!(BridgeError::MissingHash.kind(), BridgeErrorKind::LocalUsage);
    assert_eq!(BridgeError::Rejected(String::new()).kind(), BridgeErrorKind::LocalUsage);
}

#[test]
fn malformed_hash_texts_are_refused() {
    assert_eq!(decode_tx_hash("0x123"), Err(BridgeError::MalformedHash(HexError::OddLength)));
    assert_eq!(
        decode_tx_hash("0x12zz"),
        Err(BridgeError::MalformedHash(HexError::InvalidHexCharacter { c: 'z', index: 2 }))
    );
    assert_eq!(
        decode_tx_hash("12g4"),
        Err(BridgeError::MalformedHash(HexError::InvalidHexCharacter { c: 'g', index: 2 }))
    );
    assert_eq!(
        decode_tx_hash("0X12"),
        Err(BridgeError::MalformedHash(HexError::InvalidHexCharacter { c: 'X', index: 1 }))
    );
    assert_eq!(decode_tx_hash("0x1234"), Err(BridgeError::WrongHashLength(2)));
    assert_eq!(decode_tx_hash(""), Err(BridgeError::WrongHashLength(0)));
    assert_eq!(decode_tx_hash("0x"), Err(BridgeError::WrongHashLength(0)));
    let long = format!("{}00", HASH_TEXT);
    assert_eq!(decode_tx_hash(&long), Err(BridgeError::WrongHashLength(33)));
    assert_eq!(
        provider(vec![]).complete_send(Ok(Some("nothex".to_string()))),
        Err(BridgeError::MalformedHash(HexError::InvalidHexCharacter { c: 'n', index: 0 }))
    );
    assert_eq!(
        BridgeError::MalformedHash(HexError::OddLength).kind(),
        BridgeErrorKind::LocalUsage
    );
    assert_eq!(BridgeError::WrongHashLength(2).kind(), BridgeErrorKind::LocalUsage);
}

#[test]
fn hash_text_is_read_in_either_case() {
    let lower = "ab".repeat(32);
    let upper = "AB".repeat(32);
    assert_eq!(decode_tx_hash(&lower), Ok(B256 { bytes: [0xab; 32] }));
    assert_eq!(decode_tx_hash(&upper), Ok(B256 { bytes: [0xab; 32] }));
}

#[test]
fn provider_reads_from_the_http_endpoint() {
    let mut chain = EthereumChainConfig {
        chain_id: "31337".to_string(),
        ws_endpoint: Some("ws://localhost:8546".to_string()),
        http_endpoint: Some("http://localhost:8545".to_string()),
        aggregator_endpoint: None,
        faucet_endpoint: None,
    };
    let p = ViemProvider::new(vec![vitalik()], &chain).unwrap();
    assert_eq!(p.endpoint, "http://localhost:8545");
    assert_eq!(p.accounts, vec![vitalik()]);
    assert_eq!(p.clone(), p);
    chain.http_endpoint = None;
    assert_eq!(ViemProvider::new(vec![vitalik()], &chain), Err(EndpointError::NoHttpEndpoint));
}

#[test]
fn bridge_errors_have_their_texts() {
    assert_eq!(
        BridgeError::Unsupported.message(),
        "ViemProvider does not support SendableTx::Envelope"
    );
    assert_eq!(BridgeError::NoAccounts.message(), "No accounts");
    assert_eq!(BridgeError::NoDestination.message(), "No to address");
    assert_eq!(BridgeError::Rejected("denied".to_string()).message(), "denied");
    assert_eq!(BridgeError::MissingHash.message(), "Could not get Tx hash");
    assert_eq!(
        BridgeError::MalformedHash(HexError::OddLength).message(),
        "odd number of digits"
    );
    assert_eq!(
        BridgeError::MalformedHash(HexError::InvalidHexCharacter { c: 'z', index: 12 }).message(),
        "invalid character at position 12"
    );
    assert_eq!(HexError::InvalidStringLength.message(), "invalid string length");
    assert_eq!(
        BridgeError::WrongHashLength(0).message(),
        "Tx hash must have 32 bytes, but has 0"
    );
    assert_eq!(
        BridgeError::WrongHashLength(33).message(),
        "Tx hash must have 32 bytes, but has 33"
    );
}
