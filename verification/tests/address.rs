use strat_sdk::StratSDK;

#[test]
fn test_address_validation() {
    assert!(StratSDK::is_valid_address(
        "0x1234567890abcdef1234567890abcdef12345678"
    ));
    assert!(!StratSDK::is_valid_address("invalid"));
}

#[test]
fn address_accepts_both_cases_of_hex_digits() {
    assert!(StratSDK::is_valid_address(
        "0xABCDEFabcdef0123456789ABCDEFabcdef012345"
    ));
    assert!(StratSDK::is_valid_address(
        "0x0000000000000000000000000000000000000000"
    ));
    assert!(StratSDK::is_valid_address(
        "0xffffffffffffffffffffffffffffffffffffffff"
    ));
}

#[test]
fn address_rejects_other_lengths() {
    assert!(!StratSDK::is_valid_address(""));
    assert!(!StratSDK::is_valid_address("0x"));
    // 39 digits
    assert!(!StratSDK::is_valid_address(
        "0x1234567890abcdef1234567890abcdef1234567"
    ));
    // 41 digits
    assert!(!StratSDK::is_valid_address(
        "0x1234567890abcdef1234567890abcdef123456789"
    ));
}

#[test]
fn address_rejects_missing_or_wrong_prefix() {
    assert!(!StratSDK::is_valid_address(
        "1234567890abcdef1234567890abcdef12345678"
    ));
    assert!(!StratSDK::is_valid_address(
        "001234567890abcdef1234567890abcdef12345678"
    ));
    assert!(!StratSDK::is_valid_address(
        "0X1234567890abcdef1234567890abcdef12345678"
    ));
    assert!(!StratSDK::is_valid_address(
        "x01234567890abcdef1234567890abcdef12345678"
    ));
}

#[test]
fn address_rejects_characters_that_are_not_hex_digits() {
    assert!(!StratSDK::is_valid_address(
        "0x1234567890abcdef1234567890abcdef1234567g"
    ));
    assert!(!StratSDK::is_valid_address(
        "0xg234567890abcdef1234567890abcdef12345678"
    ));
    assert!(!StratSDK::is_valid_address(
        "0x1234567890abcdef 234567890abcdef12345678"
    ));
    // a digit outside ASCII
    assert!(!StratSDK::is_valid_address(
        "0x1234567890abcdef1234567890abcdef1234567\u{0663}"
    ));
}

#[test]
fn address_rejects_text_around_an_address() {
    assert!(!StratSDK::is_valid_address(
        " 0x1234567890abcdef1234567890abcdef12345678"
    ));
    assert!(!StratSDK::is_valid_address(
        "0x1234567890abcdef1234567890abcdef12345678 "
    ));
    assert!(!StratSDK::is_valid_address(
        "0x1234567890abcdef1234567890abcdef12345678\n"
    ));
    assert!(!StratSDK::is_valid_address(
        "a\n0x1234567890abcdef1234567890abcdef12345678"
    ));
}
