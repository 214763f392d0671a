use name_symbol::{find_name_symbol_pair, is_symbol, is_typical_string, StorageChange, MAX_SYMBOL_CHARS};

fn change(bytes: &[u8]) -> StorageChange {
    StorageChange::new(bytes.to_vec())
}

fn found(name: &str, symbol: &str) -> Option<(String, String)> {
    Some((name.to_string(), symbol.to_string()))
}

#[test]
fn empty_input_finds_nothing() {
    assert_eq!(find_name_symbol_pair(Vec::new()), None);
}

#[test]
fn single_change_finds_nothing() {
    assert_eq!(find_name_symbol_pair(vec![change(b"Wrapped Ether")]), None);
}

#[test]
fn name_then_symbol_is_found() {
    let changes = vec![change(b"Wrapped Ether"), change(b"WETH")];
    assert_eq!(find_name_symbol_pair(changes), found("Wrapped Ether", "WETH"));
}

#[test]
fn undecodable_first_value_finds_nothing() {
    let changes = vec![change(&[0xff, 0xfe, 0x41]), change(b"WETH")];
    assert_eq!(find_name_symbol_pair(changes), None);
}

#[test]
fn undecodable_second_value_finds_nothing() {
    let changes = vec![change(b"Wrapped Ether"), change(&[0x57, 0xc3])];
    assert_eq!(find_name_symbol_pair(changes), None);
}

#[test]
fn first_mismatch_stops_the_scan() {
    let changes = vec![change(b"Wrapped\x00Ether"), change(b"Dai Stablecoin"), change(b"DAI")];
    assert_eq!(find_name_symbol_pair(changes), None);
}

#[test]
fn first_pair_with_bad_symbol_stops_the_scan() {
    let changes = vec![change(b"Dai Stablecoin"), change(b"not a ticker"), change(b"Maker"), change(b"MKR")];
    assert_eq!(find_name_symbol_pair(changes), None);
}

#[test]
fn later_changes_do_not_matter_after_a_match() {
    let changes = vec![change(b"Dai Stablecoin"), change(b"DAI"), change(&[0xff]), change(b"")];
    assert_eq!(find_name_symbol_pair(changes), found("Dai Stablecoin", "DAI"));
}

#[test]
fn multibyte_name_is_decoded() {
    let name = "Ünïcødé Tökén 日本";
    let changes = vec![change(name.as_bytes()), change(b"UNI")];
    assert_eq!(find_name_symbol_pair(changes), found(name, "UNI"));
}

#[test]
fn multibyte_symbol_is_decoded_then_rejected() {
    let changes = vec![change(b"Euro Coin"), change("€UR".as_bytes())];
    assert_eq!(find_name_symbol_pair(changes), None);
}

#[test]
fn name_with_control_character_is_not_typical() {
    assert!(!is_typical_string("Token\n"));
    assert!(!is_typical_string("\u{7f}"));
    assert!(!is_typical_string("a\u{85}b"));
}

#[test]
fn printable_text_is_typical() {
    assert!(is_typical_string("Wrapped Ether"));
    assert!(is_typical_string("Café Token"));
    assert!(is_typical_string(" "));
}

#[test]
fn empty_text_is_neither_name_nor_symbol() {
    assert!(!is_typical_string(""));
    assert!(!is_symbol(""));
}

#[test]
fn symbol_length_limit() {
    assert_eq!(MAX_SYMBOL_CHARS, 11);
    assert!(is_symbol("ABCDEFGHIJK"));
    assert!(!is_symbol("ABCDEFGHIJKL"));
    assert!(is_symbol("stETH"));
    assert!(is_symbol("1INCH"));
}

#[test]
fn symbol_rejects_other_characters() {
    assert!(!is_symbol("W ETH"));
    assert!(!is_symbol("ETH-2"));
    assert!(!is_symbol("ÉTH"));
}

#[test]
fn padded_slot_value_is_not_text_shaped() {
    let mut padded = b"USDC".to_vec();
    padded.resize(32, 0);
    let changes = vec![change(b"USD Coin"), StorageChange::new(padded)];
    assert_eq!(find_name_symbol_pair(changes), None);
}
