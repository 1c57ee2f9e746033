use schultz::error::TlsError;
use schultz::name::name_to_string;
use schultz::validation::validate_certificate_data;
use schultz::validation::CertificateData;
use schultz::validation::KeyStatus;
use schultz::validation::SerialNumber;
use schultz::validation::SIGNATURE_ALGORITHM_NID;
use schultz::validation::SIGNATURE_CURVE_NID;
use schultz::validation::VALIDITY_LEEWAY_SECS;
use schultz::validation::VALIDITY_PERIOD_SECS;

const NOW: i64 = 1_700_000_000;

fn own_name() -> Vec<(String, String)> {
    vec![
        ("countryName".to_string(), "US".to_string()),
        ("organizationName".to_string(), "Casper Blockchain".to_string()),
        ("commonName".to_string(), "casper-node".to_string()),
    ]
}

fn other_name() -> Vec<(String, String)> {
    vec![
        ("countryName".to_string(), "US".to_string()),
        ("organizationName".to_string(), "Casper Blockchain".to_string()),
        ("commonName".to_string(), "someone-else".to_string()),
    ]
}

fn serial_of(bytes: &[u8]) -> SerialNumber {
    SerialNumber { negative: false, magnitude: bytes.to_vec() }
}

fn good_data() -> CertificateData {
    CertificateData {
        signature_alg_nid: SIGNATURE_ALGORITHM_NID,
        subject_entries: Some(own_name()),
        issuer_entries: Some(own_name()),
        serial: Some(serial_of(&[1])),
        not_before: Some(NOW - VALIDITY_LEEWAY_SECS),
        not_after: Some(NOW + VALIDITY_PERIOD_SECS),
        key: KeyStatus::Checked { curve_nid: Some(SIGNATURE_CURVE_NID) },
        signature_valid: Some(true),
    }
}

#[test]
fn renders_names_entry_by_entry() {
    let rendered = name_to_string(&own_name());
    assert_eq!(
        rendered,
        "countryName=US organizationName=Casper Blockchain commonName=casper-node "
    );
    assert_eq!(name_to_string(&Vec::new()), "");
}

#[test]
fn accepts_fully_valid_data() {
    assert_eq!(validate_certificate_data(&good_data(), NOW), Ok(()));
}

#[test]
fn rejects_wrong_algorithm_first() {
    let mut d = good_data();
    d.signature_alg_nid = 794; // ECDSA with SHA-256
    // Every later field may be arbitrarily broken; the algorithm wins.
    d.serial = Some(serial_of(&[7]));
    d.signature_valid = Some(false);
    assert_eq!(
        validate_certificate_data(&d, NOW),
        Err(TlsError::WrongSignatureAlgorithm)
    );
}

#[test]
fn rejects_unrenderable_names() {
    let mut d = good_data();
    d.subject_entries = None;
    assert_eq!(
        validate_certificate_data(&d, NOW),
        Err(TlsError::CorruptSubjectOrIssuer)
    );
    let mut d = good_data();
    d.issuer_entries = None;
    assert_eq!(
        validate_certificate_data(&d, NOW),
        Err(TlsError::CorruptSubjectOrIssuer)
    );
}

#[test]
fn rejects_subject_differing_from_issuer() {
    let mut d = good_data();
    d.subject_entries = Some(other_name());
    // The signature still verifies; the name mismatch must win regardless.
    assert_eq!(validate_certificate_data(&d, NOW), Err(TlsError::NotSelfSigned));
}

#[test]
fn rejects_unreadable_serial() {
    let mut d = good_data();
    d.serial = None;
    assert_eq!(
        validate_certificate_data(&d, NOW),
        Err(TlsError::InvalidSerialNumber)
    );
}

#[test]
fn rejects_serial_two() {
    let mut d = good_data();
    d.serial = Some(serial_of(&[2]));
    assert_eq!(validate_certificate_data(&d, NOW), Err(TlsError::WrongSerialNumber));
}

#[test]
fn rejects_negative_and_zero_serials() {
    let mut d = good_data();
    d.serial = Some(SerialNumber { negative: true, magnitude: vec![1] });
    assert_eq!(validate_certificate_data(&d, NOW), Err(TlsError::WrongSerialNumber));
    d.serial = Some(serial_of(&[]));
    assert_eq!(validate_certificate_data(&d, NOW), Err(TlsError::WrongSerialNumber));
}

#[test]
fn rejects_unreadable_times() {
    let mut d = good_data();
    d.not_before = None;
    assert_eq!(validate_certificate_data(&d, NOW), Err(TlsError::TimeIssue));
    let mut d = good_data();
    d.not_after = None;
    assert_eq!(validate_certificate_data(&d, NOW), Err(TlsError::TimeIssue));
}

#[test]
fn rejects_not_before_one_second_in_the_future() {
    let mut d = good_data();
    d.not_before = Some(NOW + 1);
    assert_eq!(validate_certificate_data(&d, NOW), Err(TlsError::NotYetValid));
    // The boundary itself is also too early: validity must be strict.
    d.not_before = Some(NOW);
    assert_eq!(validate_certificate_data(&d, NOW), Err(TlsError::NotYetValid));
}

#[test]
fn rejects_not_after_one_second_in_the_past() {
    let mut d = good_data();
    d.not_after = Some(NOW - 1);
    assert_eq!(validate_certificate_data(&d, NOW), Err(TlsError::Expired));
    d.not_after = Some(NOW);
    assert_eq!(validate_certificate_data(&d, NOW), Err(TlsError::Expired));
}

#[test]
fn fresh_issuance_window_passes_at_issuance() {
    let d = good_data();
    // not_before = NOW - leeway, not_after = NOW + period: passes at NOW.
    assert_eq!(validate_certificate_data(&d, NOW), Ok(()));
}

#[test]
fn rejects_key_failures_each_with_their_kind() {
    let mut d = good_data();
    d.key = KeyStatus::Unreadable;
    assert_eq!(
        validate_certificate_data(&d, NOW),
        Err(TlsError::CannotReadPublicKey)
    );
    d.key = KeyStatus::NotEc;
    assert_eq!(
        validate_certificate_data(&d, NOW),
        Err(TlsError::CouldNotExtractEcKey)
    );
    d.key = KeyStatus::FailsCheck;
    assert_eq!(validate_certificate_data(&d, NOW), Err(TlsError::KeyFailsCheck));
}

#[test]
fn rejects_wrong_curve_even_when_everything_else_is_well_formed() {
    let mut d = good_data();
    d.key = KeyStatus::Checked { curve_nid: Some(415) }; // P-256
    assert_eq!(validate_certificate_data(&d, NOW), Err(TlsError::WrongCurve));
    d.key = KeyStatus::Checked { curve_nid: None };
    assert_eq!(validate_certificate_data(&d, NOW), Err(TlsError::WrongCurve));
}

#[test]
fn rejects_signature_outcomes() {
    let mut d = good_data();
    d.signature_valid = Some(false);
    assert_eq!(validate_certificate_data(&d, NOW), Err(TlsError::InvalidSignature));
    d.signature_valid = None;
    assert_eq!(
        validate_certificate_data(&d, NOW),
        Err(TlsError::FailedToValidateSignature)
    );
}

#[test]
fn validation_is_deterministic() {
    let d = good_data();
    assert_eq!(
        validate_certificate_data(&d, NOW),
        validate_certificate_data(&d, NOW)
    );
    let mut bad = good_data();
    bad.serial = Some(serial_of(&[2]));
    assert_eq!(
        validate_certificate_data(&bad, NOW),
        validate_certificate_data(&bad, NOW)
    );
}

#[test]
fn validation_results_do_not_depend_on_order() {
    let mut wrong_serial = good_data();
    wrong_serial.serial = Some(serial_of(&[2]));
    let mut wrong_curve = good_data();
    wrong_curve.key = KeyStatus::Checked { curve_nid: Some(415) };
    let all = [good_data(), wrong_serial, wrong_curve];
    let forward: Vec<_> = all.iter().map(|d| validate_certificate_data(d, NOW)).collect();
    let backward: Vec<_> = all.iter().rev().map(|d| validate_certificate_data(d, NOW)).collect();
    let backward_reversed: Vec<_> = backward.into_iter().rev().collect();
    assert_eq!(forward, backward_reversed);
}
