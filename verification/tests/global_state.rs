use schultz::error::GlobalStateUpdateLoadError;
use schultz::global_state_update::GlobalStateUpdate;
use schultz::global_state_update::GlobalStateUpdateConfig;
use schultz::global_state_update::GlobalStateUpdateEntry;
use schultz::global_state_update::GlobalStateUpdateValidatorInfo;

// An Ed25519 public key (tag byte 01 followed by 32 key bytes) known to be
// a valid curve point.
const VALID_PUBLIC_KEY_HEX: &str =
    "01d75a980182b10ab7d54bfed3c964073a0ee172f3daa62325af021a68f707511a";

const VALID_STATE_KEY: &str =
    "account-hash-0000000000000000000000000000000000000000000000000000000000000000";

fn validator(public_key: &str, weight: &str) -> GlobalStateUpdateValidatorInfo {
    GlobalStateUpdateValidatorInfo {
        public_key: public_key.to_string(),
        weight: weight.to_string(),
    }
}

fn entry(key: &str, value: &str) -> GlobalStateUpdateEntry {
    GlobalStateUpdateEntry { key: key.to_string(), value: value.to_string() }
}

#[test]
fn decodes_a_full_configuration() {
    let config = GlobalStateUpdateConfig {
        validators: Some(vec![validator(VALID_PUBLIC_KEY_HEX, "123456789")]),
        entries: vec![entry(VALID_STATE_KEY, "AAAA"), entry(VALID_STATE_KEY, "/u3erg==")],
    };
    let update = GlobalStateUpdate::try_from_config(config).unwrap();
    let validators = update.validators.unwrap();
    assert_eq!(validators.len(), 1);
    assert_eq!(update.entries.len(), 2);
    assert_eq!(update.entries[0].1, vec![0, 0, 0]);
    assert_eq!(update.entries[1].1, vec![0xfe, 0xed, 0xde, 0xae]);
}

#[test]
fn decodes_without_a_validator_list() {
    let config = GlobalStateUpdateConfig {
        validators: None,
        entries: vec![entry(VALID_STATE_KEY, "AA==")],
    };
    let update = GlobalStateUpdate::try_from_config(config).unwrap();
    assert!(update.validators.is_none());
    assert_eq!(update.entries.len(), 1);
    assert_eq!(update.entries[0].1, vec![0]);
}

#[test]
fn decodes_an_empty_configuration() {
    let config = GlobalStateUpdateConfig { validators: Some(Vec::new()), entries: Vec::new() };
    let update = GlobalStateUpdate::try_from_config(config).unwrap();
    assert_eq!(update.validators.unwrap().len(), 0);
    assert!(update.entries.is_empty());
}

#[test]
fn reports_the_position_of_a_bad_public_key() {
    let config = GlobalStateUpdateConfig {
        validators: Some(vec![
            validator(VALID_PUBLIC_KEY_HEX, "1"),
            validator("zz-not-hex", "2"),
        ]),
        entries: Vec::new(),
    };
    assert_eq!(
        GlobalStateUpdate::try_from_config(config).unwrap_err(),
        GlobalStateUpdateLoadError::InvalidValidatorPublicKey { index: 1 }
    );
}

#[test]
fn reports_the_position_of_a_bad_weight() {
    let config = GlobalStateUpdateConfig {
        validators: Some(vec![validator(VALID_PUBLIC_KEY_HEX, "12x")]),
        entries: Vec::new(),
    };
    assert_eq!(
        GlobalStateUpdate::try_from_config(config).unwrap_err(),
        GlobalStateUpdateLoadError::InvalidValidatorWeight { index: 0 }
    );
}

#[test]
fn accepts_a_512_bit_weight() {
    let huge = "1".repeat(150);
    let config = GlobalStateUpdateConfig {
        validators: Some(vec![validator(VALID_PUBLIC_KEY_HEX, &huge)]),
        entries: Vec::new(),
    };
    assert!(GlobalStateUpdate::try_from_config(config).is_ok());
}

#[test]
fn reports_the_position_of_a_bad_entry_key() {
    let config = GlobalStateUpdateConfig {
        validators: None,
        entries: vec![entry(VALID_STATE_KEY, "AAAA"), entry("not-a-key", "AAAA")],
    };
    assert_eq!(
        GlobalStateUpdate::try_from_config(config).unwrap_err(),
        GlobalStateUpdateLoadError::InvalidEntryKey { index: 1 }
    );
}

#[test]
fn reports_the_position_of_a_bad_entry_value() {
    let config = GlobalStateUpdateConfig {
        validators: None,
        entries: vec![entry(VALID_STATE_KEY, "!!!not base64!!!")],
    };
    assert_eq!(
        GlobalStateUpdate::try_from_config(config).unwrap_err(),
        GlobalStateUpdateLoadError::InvalidEntryValue { index: 0 }
    );
}

#[test]
fn refuses_short_bid_addr_and_balance_hold_payloads() {
    // The typed key parser is not total on these two families: a decodable
    // payload shorter than its fixed slice aborts it instead of erroring,
    // so the decoder answers for such strings itself.
    let config = GlobalStateUpdateConfig {
        validators: None,
        entries: vec![entry(VALID_STATE_KEY, "AAAA"), entry("bid-addr-0011", "AAAA")],
    };
    assert_eq!(
        GlobalStateUpdate::try_from_config(config).unwrap_err(),
        GlobalStateUpdateLoadError::InvalidEntryKey { index: 1 }
    );
    let config = GlobalStateUpdateConfig {
        validators: None,
        entries: vec![entry("balance-hold-0011", "AAAA")],
    };
    assert_eq!(
        GlobalStateUpdate::try_from_config(config).unwrap_err(),
        GlobalStateUpdateLoadError::InvalidEntryKey { index: 0 }
    );
}

#[test]
fn accepts_well_formed_bid_addr_and_balance_hold_keys() {
    // A unified bid address: tag byte zero plus a 32-byte account hash.
    let bid_addr_key = format!("bid-addr-{}", "00".repeat(33));
    // A gas balance hold: tag byte zero, a 32-byte purse address, and an
    // 8-byte block time.
    let balance_hold_key = format!("balance-hold-{}", "00".repeat(41));
    let config = GlobalStateUpdateConfig {
        validators: None,
        entries: vec![entry(&bid_addr_key, "AAAA"), entry(&balance_hold_key, "AA==")],
    };
    let update = GlobalStateUpdate::try_from_config(config).unwrap();
    assert_eq!(update.entries.len(), 2);
    assert_eq!(update.entries[0].1, vec![0, 0, 0]);
    assert_eq!(update.entries[1].1, vec![0]);
}

#[test]
fn rejects_an_undecodable_bid_addr_payload_as_a_parse_failure() {
    // Not valid hex: the parser itself rejects this gracefully.
    let config = GlobalStateUpdateConfig {
        validators: None,
        entries: vec![entry("bid-addr-zz", "AAAA")],
    };
    assert_eq!(
        GlobalStateUpdate::try_from_config(config).unwrap_err(),
        GlobalStateUpdateLoadError::InvalidEntryKey { index: 0 }
    );
}

#[test]
fn rejects_a_weight_beyond_512_bits() {
    let too_big = "1".repeat(156);
    let config = GlobalStateUpdateConfig {
        validators: Some(vec![validator(VALID_PUBLIC_KEY_HEX, &too_big)]),
        entries: Vec::new(),
    };
    assert_eq!(
        GlobalStateUpdate::try_from_config(config).unwrap_err(),
        GlobalStateUpdateLoadError::InvalidValidatorWeight { index: 0 }
    );
    // The empty string folds to zero, which the decoder accepts.
    let config = GlobalStateUpdateConfig {
        validators: Some(vec![validator(VALID_PUBLIC_KEY_HEX, "")]),
        entries: Vec::new(),
    };
    assert!(GlobalStateUpdate::try_from_config(config).is_ok());
}

#[test]
fn checks_an_entry_key_before_its_value() {
    let config = GlobalStateUpdateConfig {
        validators: None,
        entries: vec![entry("not-a-key", "!!!not base64!!!")],
    };
    assert_eq!(
        GlobalStateUpdate::try_from_config(config).unwrap_err(),
        GlobalStateUpdateLoadError::InvalidEntryKey { index: 0 }
    );
}

#[test]
fn checks_validators_before_entries() {
    let config = GlobalStateUpdateConfig {
        validators: Some(vec![validator("bogus", "1")]),
        entries: vec![entry("not-a-key", "!!!")],
    };
    assert_eq!(
        GlobalStateUpdate::try_from_config(config).unwrap_err(),
        GlobalStateUpdateLoadError::InvalidValidatorPublicKey { index: 0 }
    );
}
