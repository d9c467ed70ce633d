use ethgate::events::{Address, Bytes, ContractDeployed, ERC20Transfer, ERC721Transfer, Event,
    EventRow, Tx, H256};
use ethgate::hex::{decode_hex, encode_hex_prefixed, parse_u32_hex, u32_to_hex_prefixed};
use ethgate::u256::U256;

#[test]
fn parse_u32_hex_accepts_prefixed_hex() {
    assert_eq!(parse_u32_hex("0x1"), Some(1));
    assert_eq!(parse_u32_hex("0x0"), Some(0));
    assert_eq!(parse_u32_hex("0x2a"), Some(42));
    assert_eq!(parse_u32_hex("0xFF"), Some(255));
    assert_eq!(parse_u32_hex("0xffffffff"), Some(u32::MAX));
}

#[test]
fn parse_u32_hex_rejects_malformed_or_oversized() {
    assert_eq!(parse_u32_hex(""), None);
    assert_eq!(parse_u32_hex("0x"), None);
    assert_eq!(parse_u32_hex("1"), None);
    assert_eq!(parse_u32_hex("0xzz"), None);
    assert_eq!(parse_u32_hex("0x100000000"), None);
}

#[test]
fn decode_hex_handles_prefix_case_and_parity() {
    assert_eq!(decode_hex("0x"), Some(vec![]));
    assert_eq!(decode_hex("0xdeadbeef"), Some(vec![0xde, 0xad, 0xbe, 0xef]));
    assert_eq!(decode_hex("ABcd"), Some(vec![0xab, 0xcd]));
    assert_eq!(decode_hex("0xabc"), None);
    assert_eq!(decode_hex("0xgg"), None);
}

#[test]
fn encode_hex_writes_prefixed_lowercase() {
    assert_eq!(encode_hex_prefixed(&vec![0xde, 0xad]), "0xdead");
    assert_eq!(encode_hex_prefixed(&vec![]), "0x");
    assert_eq!(encode_hex_prefixed(&vec![0x00, 0x0f]), "0x000f");
}

#[test]
fn u32_to_hex_is_minimal() {
    assert_eq!(u32_to_hex_prefixed(0), "0x0");
    assert_eq!(u32_to_hex_prefixed(1), "0x1");
    assert_eq!(u32_to_hex_prefixed(42), "0x2a");
    assert_eq!(u32_to_hex_prefixed(u32::MAX), "0xffffffff");
}

#[test]
fn u256_decodes_decimal_text() {
    let zero = U256::from_dec_str("0").unwrap();
    assert_eq!(zero, U256 { w0: 0, w1: 0, w2: 0, w3: 0 });
    let one = U256::from_dec_str("1").unwrap();
    assert_eq!(one, U256 { w0: 1, w1: 0, w2: 0, w3: 0 });
    let big = U256::from_dec_str("18446744073709551616").unwrap();
    assert_eq!(big, U256 { w0: 0, w1: 1, w2: 0, w3: 0 });
    let max = U256::from_dec_str(
        "115792089237316195423570985008687907853269984665640564039457584007913129639935",
    )
    .unwrap();
    assert_eq!(
        max,
        U256 { w0: u64::MAX, w1: u64::MAX, w2: u64::MAX, w3: u64::MAX }
    );
}

#[test]
fn u256_rejects_empty_garbage_and_overflow() {
    assert_eq!(U256::from_dec_str(""), None);
    assert_eq!(U256::from_dec_str("12a"), None);
    assert_eq!(U256::from_dec_str("-1"), None);
    assert_eq!(
        U256::from_dec_str(
            "115792089237316195423570985008687907853269984665640564039457584007913129639936",
        ),
        None
    );
}

#[test]
fn address_decodes_forty_hex_digits() {
    let a = Address::from_str("0x00a329c0648769a73afac7f9381e08fb43dbea72").unwrap();
    assert_eq!(a.bytes.len(), 20);
    assert_eq!(a.bytes[0], 0x00);
    assert_eq!(a.bytes[1], 0xa3);
    assert!(Address::from_str("0x1234").is_none());
    assert!(Address::from_str("not an address").is_none());
}

#[test]
fn h256_decodes_sixty_four_hex_digits() {
    let h = H256::from_str("0x88df016429689c079f3b2f6ad39fa052532c56795b733da78a91ebe6a713944b")
        .unwrap();
    assert_eq!(h.bytes.len(), 32);
    assert_eq!(h.bytes[0], 0x88);
    assert!(H256::from_str("0x88df").is_none());
}

#[test]
fn bytes_decodes_any_even_hex_run() {
    let b = Bytes::from_str("0x").unwrap();
    assert!(b.bytes.is_empty());
    let b = Bytes::from_str("0xa9059cbb").unwrap();
    assert_eq!(b.bytes, vec![0xa9, 0x05, 0x9c, 0xbb]);
    assert!(Bytes::from_str("0xabc").is_none());
}

fn good_row() -> EventRow {
    EventRow {
        hash: "0x88df016429689c079f3b2f6ad39fa052532c56795b733da78a91ebe6a713944b".to_string(),
        from_address: "0x00a329c0648769a73afac7f9381e08fb43dbea72".to_string(),
        to_address: "0xd8da6bf26964af9d7eed9e03e53415d37aa96045".to_string(),
        value: "1000000000000000000".to_string(),
        data: "0x".to_string(),
        block_number: 17_000_000,
        position: 3,
    }
}

#[test]
fn valid_row_round_trips_into_typed_event() {
    let row = good_row();
    let tx = Tx::try_from(&row).unwrap();
    assert_eq!(tx.hash.bytes[0], 0x88);
    assert_eq!(tx.hash.bytes.len(), 32);
    assert_eq!(tx.from.bytes[19], 0x72);
    let to = tx.to.as_ref().unwrap();
    assert_eq!(to.bytes[0], 0xd8);
    assert_eq!(tx.value, U256 { w0: 1_000_000_000_000_000_000, w1: 0, w2: 0, w3: 0 });
    assert!(tx.data.bytes.is_empty());
    assert_eq!(tx.block_number, 17_000_000);
    assert_eq!(tx.position, Some(3));
    let ev = Event::from(tx);
    assert!(matches!(ev, Event::Tx(_)));
}

#[test]
fn one_malformed_field_fails_only_its_own_row() {
    let mut bad = good_row();
    bad.hash = "0xnothex".to_string();
    assert!(Tx::try_from(&bad).is_err());
    let mut bad_value = good_row();
    bad_value.value = "ten".to_string();
    assert!(Tx::try_from(&bad_value).is_err());
    let mut bad_block = good_row();
    bad_block.block_number = -1;
    assert!(Tx::try_from(&bad_block).is_err());
    // the rows around a bad one still decode
    assert!(Tx::try_from(&good_row()).is_ok());
}

#[test]
fn unparsable_recipient_leaves_to_empty() {
    let mut row = good_row();
    row.to_address = "".to_string();
    let tx = Tx::try_from(&row).unwrap();
    assert!(tx.to.is_none());
}

#[test]
fn event_wraps_each_variant() {
    let addr = Address::from_str("0x00a329c0648769a73afac7f9381e08fb43dbea72").unwrap();
    let to = Address::from_str("0xd8da6bf26964af9d7eed9e03e53415d37aa96045").unwrap();
    let contract = Address::from_str("0x6b175474e89094c44da98b954eedeac495271d0f").unwrap();
    let e20 = ERC20Transfer {
        from: addr,
        to,
        value: U256::from_dec_str("5").unwrap(),
        contract,
    };
    assert!(matches!(Event::from(e20), Event::ERC20Transfer(_)));
    let e721 = ERC721Transfer {
        from: Address::from_str("0x00a329c0648769a73afac7f9381e08fb43dbea72").unwrap(),
        to: Address::from_str("0xd8da6bf26964af9d7eed9e03e53415d37aa96045").unwrap(),
        token_id: U256::from_dec_str("7").unwrap(),
        contract: Address::from_str("0x6b175474e89094c44da98b954eedeac495271d0f").unwrap(),
    };
    assert!(matches!(Event::from(e721), Event::ERC721Transfer(_)));
    let dep = ContractDeployed {
        address: Address::from_str("0x6b175474e89094c44da98b954eedeac495271d0f").unwrap(),
        code_hash: None,
    };
    assert!(matches!(Event::from(dep), Event::ContractDeployed(_)));
}
