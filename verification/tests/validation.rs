use stellarforge::cli::validation::{ValidationError, Validator};

#[test]
fn test_required_field_empty() {
    let result = Validator::required(&None, "name");
    assert!(result.is_err());
    assert_eq!(result.unwrap_err().message, "This field is required");
}

#[test]
fn test_required_field_valid() {
    let result = Validator::required(&Some("test".to_string()), "name");
    assert!(result.is_ok());
    assert_eq!(result.unwrap(), "test");
}

#[test]
fn test_valid_network() {
    assert!(Validator::valid_network("testnet").is_ok());
    assert!(Validator::valid_network("mainnet").is_ok());
    assert!(Validator::valid_network("futurenet").is_ok());
    assert!(Validator::valid_network("invalid").is_err());
}

#[test]
fn test_valid_contract() {
    assert!(Validator::valid_contract("vesting").is_ok());
    assert!(Validator::valid_contract("stream").is_ok());
    assert!(Validator::valid_contract("invalid").is_err());
}

#[test]
fn required_trims_surrounding_whitespace() {
    let result = Validator::required(&Some("  \t vesting \n".to_string()), "name");
    assert_eq!(result.unwrap(), "vesting");
    let blank = Validator::required(&Some(" \u{3000}\u{a0} ".to_string()), "name");
    let e = blank.unwrap_err();
    assert_eq!(e.field, "name");
    assert_eq!(e.message, "This field is required");
}

#[test]
fn required_string_checks_blank_text() {
    assert_eq!(Validator::required_string("  a b  ", "f").unwrap(), "a b");
    assert!(Validator::required_string("", "f").is_err());
    assert!(Validator::required_string("\u{2003}", "f").is_err());
}

#[test]
fn network_and_contract_errors_name_the_field() {
    let e = Validator::valid_network("devnet").unwrap_err();
    assert_eq!(e.field, "network");
    assert_eq!(e.message, "Must be one of: futurenet, testnet, mainnet");
    let e = Validator::valid_contract("vault").unwrap_err();
    assert_eq!(e.field, "contract");
    assert_eq!(e.message, "Must be one of: vesting, stream, multisig, governor, oracle");
    assert_eq!(Validator::valid_contract("oracle").unwrap(), "oracle");
    assert_eq!(Validator::valid_network("mainnet").unwrap(), "mainnet");
}

#[test]
fn validation_error_display() {
    let e = ValidationError::new("network", "bad");
    assert_eq!(e.display(), "❌ network: bad");
}

#[test]
fn validate_all_collects_errors() {
    assert!(Validator::validate_all(Vec::new()).is_ok());
    let errors = vec![ValidationError::new("a", "x"), ValidationError::new("b", "y")];
    let back = Validator::validate_all(errors).unwrap_err();
    assert_eq!(back.len(), 2);
    assert_eq!(back[0].field, "a");
    assert_eq!(back[1].field, "b");
}
