use vstd::prelude::*;
use crate::error::TlsError;
use crate::name::entries_view;
use crate::name::name_to_string;
use crate::name::rendered_name;

verus! {

/// Raw integer OpenSSL assigns to the one accepted signature algorithm,
/// ECDSA with SHA-512.
pub const SIGNATURE_ALGORITHM_NID: i32 = 796;

/// Raw integer OpenSSL assigns to the one accepted elliptic curve,
/// P-521 (secp521r1).
pub const SIGNATURE_CURVE_NID: i32 = 716;

/// Seconds the validity window is backdated at issuance, absorbing minor
/// clock skew between issuance and first use.
pub const VALIDITY_LEEWAY_SECS: i64 = 60;

/// Length of the validity window after issuance: a little under ten years
/// (ten 365-day years, so missing at least two leap days).
pub const VALIDITY_PERIOD_SECS: i64 = 315360000;

/// A certificate serial number, as sign and big-endian magnitude with no
/// leading zero bytes.
#[derive(Debug, Clone, PartialEq, Eq)]
pub struct SerialNumber {
    pub negative: bool,
    pub magnitude: Vec<u8>,
}

/// What the validator learned about a certificate's embedded public key.
#[derive(Debug, Clone, PartialEq, Eq)]
pub enum KeyStatus {
    /// The key could not be read at all.
    Unreadable,
    /// The key was read but is not an elliptic-curve key.
    NotEc,
    /// The elliptic-curve key fails the crypto library's own consistency
    /// check.
    FailsCheck,
    /// A consistent elliptic-curve key, on the named curve if any.
    Checked { curve_nid: Option<i32> },
}

/// Plain-value image of every fact the validation pipeline reads from a
/// certificate: the declared signature algorithm, the name entries (`None`
/// where rendering fails), the serial number, the validity bounds as Unix
/// seconds, the state of the embedded key, and the outcome of verifying the
/// signature against that key (`None` where verification could not run).
pub struct CertificateData {
    pub signature_alg_nid: i32,
    pub subject_entries: Option<Vec<(String, String)>>,
    pub issuer_entries: Option<Vec<(String, String)>>,
    pub serial: Option<SerialNumber>,
    pub not_before: Option<i64>,
    pub not_after: Option<i64>,
    pub key: KeyStatus,
    pub signature_valid: Option<bool>,
}

/// The serial number every legitimate certificate of this system carries:
/// non-negative one.
pub open spec fn spec_serial_is_one(s: SerialNumber) -> bool {
    !s.negative && s.magnitude@ == seq![1u8]
}

/// View of optional name entries as optional rendering input.
pub open spec fn opt_entries_view(o: Option<Vec<(String, String)>>) -> Option<
    Seq<(Seq<char>, Seq<char>)>,
> {
    match o {
        Some(v) => Some(entries_view(v@)),
        None => None,
    }
}

/// First pipeline stage: the declared signature algorithm must be the one
/// fixed algorithm.
pub open spec fn spec_check_signature_algorithm(nid: i32) -> Result<(), TlsError> {
    if nid == SIGNATURE_ALGORITHM_NID {
        Ok(())
    } else {
        Err(TlsError::WrongSignatureAlgorithm)
    }
}

/// Second pipeline stage: both names must render, and the renderings must be
/// equal — every certificate of this system is self-signed.
pub open spec fn spec_check_self_signed(
    subject: Option<Seq<(Seq<char>, Seq<char>)>>,
    issuer: Option<Seq<(Seq<char>, Seq<char>)>>,
) -> Result<(), TlsError> {
    match subject {
        None => Err(TlsError::CorruptSubjectOrIssuer),
        Some(s) => match issuer {
            None => Err(TlsError::CorruptSubjectOrIssuer),
            Some(i) => if rendered_name(s) == rendered_name(i) {
                Ok(())
            } else {
                Err(TlsError::NotSelfSigned)
            },
        },
    }
}

/// Third pipeline stage: the serial number must be readable and equal to
/// one, in sign and magnitude.
pub open spec fn spec_check_serial(serial: Option<SerialNumber>) -> Result<(), TlsError> {
    match serial {
        None => Err(TlsError::InvalidSerialNumber),
        Some(s) => if spec_serial_is_one(s) {
            Ok(())
        } else {
            Err(TlsError::WrongSerialNumber)
        },
    }
}

/// Fourth pipeline stage: the current time must be strictly after not-before
/// and strictly before not-after, at second granularity.  A bound that could
/// not be read is reported the moment it is needed, so a certificate that is
/// not yet valid is reported as such even if its not-after bound is
/// malformed.
pub open spec fn spec_check_validity_window(
    now: int,
    not_before: Option<i64>,
    not_after: Option<i64>,
) -> Result<(), TlsError> {
    match not_before {
        None => Err(TlsError::TimeIssue),
        Some(nb) => if now <= nb {
            Err(TlsError::NotYetValid)
        } else {
            match not_after {
                None => Err(TlsError::TimeIssue),
                Some(na) => if now >= na {
                    Err(TlsError::Expired)
                } else {
                    Ok(())
                },
            }
        },
    }
}

/// Fifth pipeline stage: the embedded key must be a readable, consistent
/// elliptic-curve key on the one fixed curve.
pub open spec fn spec_check_key(key: KeyStatus) -> Result<(), TlsError> {
    match key {
        KeyStatus::Unreadable => Err(TlsError::CannotReadPublicKey),
        KeyStatus::NotEc => Err(TlsError::CouldNotExtractEcKey),
        KeyStatus::FailsCheck => Err(TlsError::KeyFailsCheck),
        KeyStatus::Checked { curve_nid } => if curve_nid == Some(SIGNATURE_CURVE_NID) {
            Ok(())
        } else {
            Err(TlsError::WrongCurve)
        },
    }
}

/// Sixth pipeline stage: the signature must have been verifiable against the
/// certificate's own embedded key, and must have verified.
pub open spec fn spec_check_signature(outcome: Option<bool>) -> Result<(), TlsError> {
    match outcome {
        None => Err(TlsError::FailedToValidateSignature),
        Some(ok) => if ok {
            Ok(())
        } else {
            Err(TlsError::InvalidSignature)
        },
    }
}

/// The whole validation pipeline over the plain-value image of a
/// certificate: the six stages in their fixed order, first failure
/// short-circuiting.  This single function defines "acceptable certificate"
/// for the system; both the self-check after issuance and the peer check
/// after a handshake decide by it.
pub open spec fn spec_validate(d: CertificateData, now: int) -> Result<(), TlsError> {
    let alg = spec_check_signature_algorithm(d.signature_alg_nid);
    let names = spec_check_self_signed(
        opt_entries_view(d.subject_entries),
        opt_entries_view(d.issuer_entries),
    );
    let serial = spec_check_serial(d.serial);
    let window = spec_check_validity_window(now, d.not_before, d.not_after);
    let key = spec_check_key(d.key);
    let signature = spec_check_signature(d.signature_valid);
    if alg is Err {
        alg
    } else if names is Err {
        names
    } else if serial is Err {
        serial
    } else if window is Err {
        window
    } else if key is Err {
        key
    } else if signature is Err {
        signature
    } else {
        Ok(())
    }
}

/// Law: validation is deterministic.  The same certificate facts, judged at
/// the same instant, always yield the same verdict; validation reads nothing
/// but its arguments, so validating many certificates concurrently or in any
/// order yields the same verdicts as validating them one by one.
pub proof fn lemma_validation_deterministic(
    d1: CertificateData,
    d2: CertificateData,
    now1: int,
    now2: int,
)
    requires
        d1 == d2,
        now1 == now2,
    ensures
        spec_validate(d1, now1) == spec_validate(d2, now2),
{
}

/// Law: the pipeline speaks only in validation kinds.  Whatever the
/// certificate's facts, its verdict is never a generation or configuration
/// error, so callers branching on those kinds can rely on the validator
/// never producing them.
pub proof fn lemma_validation_error_domain(d: CertificateData, now: int)
    ensures
        spec_validate(d, now) != Err::<(), TlsError>(TlsError::CouldNotGenerateTlsCertificate),
        spec_validate(d, now) != Err::<(), TlsError>(TlsError::CouldNotConfigureTls),
{
}

/// Law: a certificate that declares any signature algorithm other than the
/// one fixed algorithm is rejected as `WrongSignatureAlgorithm`, whatever
/// the rest of its content says and whenever it is judged.
pub proof fn lemma_wrong_algorithm_rejected(d: CertificateData, now: int)
    requires
        d.signature_alg_nid != SIGNATURE_ALGORITHM_NID,
    ensures
        spec_validate(d, now) == Err::<(), TlsError>(TlsError::WrongSignatureAlgorithm),
{
}

/// Law: a certificate whose subject name renders differently from its
/// issuer name is rejected as `NotSelfSigned`, regardless of the validity
/// of its signature or of anything checked later.  (The algorithm check
/// runs first, so the declared algorithm must be the accepted one for the
/// pipeline to reach the name comparison at all.)
pub proof fn lemma_not_self_signed_rejected(d: CertificateData, now: int)
    requires
        d.signature_alg_nid == SIGNATURE_ALGORITHM_NID,
        d.subject_entries is Some,
        d.issuer_entries is Some,
        rendered_name(entries_view(d.subject_entries->Some_0@)) != rendered_name(
            entries_view(d.issuer_entries->Some_0@),
        ),
    ensures
        spec_validate(d, now) == Err::<(), TlsError>(TlsError::NotSelfSigned),
{
}

/// Law: a certificate that passes the algorithm and self-signed checks but
/// whose readable serial number is anything other than one — the value two,
/// say — is rejected as `WrongSerialNumber`.
pub proof fn lemma_wrong_serial_rejected(d: CertificateData, now: int)
    requires
        spec_check_signature_algorithm(d.signature_alg_nid) is Ok,
        spec_check_self_signed(
            opt_entries_view(d.subject_entries),
            opt_entries_view(d.issuer_entries),
        ) is Ok,
        d.serial matches Some(s) && !spec_serial_is_one(s),
    ensures
        spec_validate(d, now) == Err::<(), TlsError>(TlsError::WrongSerialNumber),
{
}

/// Law: a certificate that reaches the temporal check with a not-before
/// instant at the current time or later — even one second into the future —
/// is rejected as `NotYetValid`.
pub proof fn lemma_not_yet_valid_rejected(d: CertificateData, now: int)
    requires
        spec_check_signature_algorithm(d.signature_alg_nid) is Ok,
        spec_check_self_signed(
            opt_entries_view(d.subject_entries),
            opt_entries_view(d.issuer_entries),
        ) is Ok,
        spec_check_serial(d.serial) is Ok,
        d.not_before matches Some(nb) && now <= nb,
    ensures
        spec_validate(d, now) == Err::<(), TlsError>(TlsError::NotYetValid),
{
}

/// Law: a certificate that reaches the temporal check already inside its
/// window's start but with a not-after instant at the current time or
/// earlier — even one second into the past — is rejected as `Expired`.
pub proof fn lemma_expired_rejected(d: CertificateData, now: int)
    requires
        spec_check_signature_algorithm(d.signature_alg_nid) is Ok,
        spec_check_self_signed(
            opt_entries_view(d.subject_entries),
            opt_entries_view(d.issuer_entries),
        ) is Ok,
        spec_check_serial(d.serial) is Ok,
        d.not_before matches Some(nb) && nb < now,
        d.not_after matches Some(na) && now >= na,
    ensures
        spec_validate(d, now) == Err::<(), TlsError>(TlsError::Expired),
{
}

/// Law: the window issuance stamps on a fresh certificate — backdated by
/// the leeway, expiring a validity period ahead — passes the temporal check
/// at the moment of issuance.
pub proof fn lemma_issuance_window_passes(now: i64, not_before: i64, not_after: i64)
    requires
        0 <= now,
        now <= i64::MAX - VALIDITY_PERIOD_SECS,
        not_before == now - VALIDITY_LEEWAY_SECS,
        not_after == now + VALIDITY_PERIOD_SECS,
    ensures
        spec_check_validity_window(now as int, Some(not_before), Some(not_after)) is Ok,
{
}

/// Law: a certificate whose consistent elliptic-curve key lies on any curve
/// other than the one fixed curve is rejected as `WrongCurve`, however
/// well-formed every other field is.
pub proof fn lemma_wrong_curve_rejected(d: CertificateData, now: int)
    requires
        spec_check_signature_algorithm(d.signature_alg_nid) is Ok,
        spec_check_self_signed(
            opt_entries_view(d.subject_entries),
            opt_entries_view(d.issuer_entries),
        ) is Ok,
        spec_check_serial(d.serial) is Ok,
        spec_check_validity_window(now, d.not_before, d.not_after) is Ok,
        d.key matches KeyStatus::Checked { curve_nid } && curve_nid != Some(SIGNATURE_CURVE_NID),
    ensures
        spec_validate(d, now) == Err::<(), TlsError>(TlsError::WrongCurve),
{
}

/// Law: a certificate whose every structural check passes but whose
/// signature ran verification and failed is rejected as `InvalidSignature`.
/// That flipping any bit of a valid signature makes verification fail is
/// the crypto library's guarantee, exercised by test rather than stated
/// here.
pub proof fn lemma_invalid_signature_rejected(d: CertificateData, now: int)
    requires
        spec_check_signature_algorithm(d.signature_alg_nid) is Ok,
        spec_check_self_signed(
            opt_entries_view(d.subject_entries),
            opt_entries_view(d.issuer_entries),
        ) is Ok,
        spec_check_serial(d.serial) is Ok,
        spec_check_validity_window(now, d.not_before, d.not_after) is Ok,
        spec_check_key(d.key) is Ok,
        d.signature_valid == Some(false),
    ensures
        spec_validate(d, now) == Err::<(), TlsError>(TlsError::InvalidSignature),
{
}

/// Checks the declared signature algorithm.
pub fn check_signature_algorithm(nid: i32) -> (r: Result<(), TlsError>)
    ensures
        r == spec_check_signature_algorithm(nid),
{
    if nid == SIGNATURE_ALGORITHM_NID {
        Ok(())
    } else {
        Err(TlsError::WrongSignatureAlgorithm)
    }
}

/// Checks that both names render and render equally.
pub fn check_self_signed(
    subject: &Option<Vec<(String, String)>>,
    issuer: &Option<Vec<(String, String)>>,
) -> (r: Result<(), TlsError>)
    ensures
        r == spec_check_self_signed(opt_entries_view(*subject), opt_entries_view(*issuer)),
{
    match subject {
        None => Err(TlsError::CorruptSubjectOrIssuer),
        Some(s) => match issuer {
            None => Err(TlsError::CorruptSubjectOrIssuer),
            Some(i) => {
                let s_rendered = name_to_string(s);
                let i_rendered = name_to_string(i);
                if s_rendered == i_rendered {
                    Ok(())
                } else {
                    Err(TlsError::NotSelfSigned)
                }
            },
        },
    }
}

/// Checks that the serial number reads as exactly one.
pub fn check_serial(serial: &Option<SerialNumber>) -> (r: Result<(), TlsError>)
    ensures
        r == spec_check_serial(*serial),
{
    match serial {
        None => Err(TlsError::InvalidSerialNumber),
        Some(s) => {
            let is_one = !s.negative && s.magnitude.len() == 1 && s.magnitude[0] == 1;
            proof {
                if !s.negative && s.magnitude@.len() == 1 && s.magnitude@[0] == 1u8 {
                    assert(s.magnitude@ =~= seq![1u8]);
                }
            }
            if is_one {
                Ok(())
            } else {
                Err(TlsError::WrongSerialNumber)
            }
        },
    }
}

/// Checks the validity window against the given current time.
pub fn check_validity_window(
    now: i64,
    not_before: &Option<i64>,
    not_after: &Option<i64>,
) -> (r: Result<(), TlsError>)
    ensures
        r == spec_check_validity_window(now as int, *not_before, *not_after),
{
    match not_before {
        None => Err(TlsError::TimeIssue),
        Some(nb) => if now <= *nb {
            Err(TlsError::NotYetValid)
        } else {
            match not_after {
                None => Err(TlsError::TimeIssue),
                Some(na) => if now >= *na {
                    Err(TlsError::Expired)
                } else {
                    Ok(())
                },
            }
        },
    }
}

/// Checks that a named curve is the one fixed curve.
pub fn check_curve(curve_nid: &Option<i32>) -> (r: Result<(), TlsError>)
    ensures
        r == spec_check_key(KeyStatus::Checked { curve_nid: *curve_nid }),
{
    match curve_nid {
        Some(nid) => if *nid == SIGNATURE_CURVE_NID {
            Ok(())
        } else {
            Err(TlsError::WrongCurve)
        },
        None => Err(TlsError::WrongCurve),
    }
}

/// Checks the state of the embedded public key.
pub fn check_key_status(key: &KeyStatus) -> (r: Result<(), TlsError>)
    ensures
        r == spec_check_key(*key),
{
    match key {
        KeyStatus::Unreadable => Err(TlsError::CannotReadPublicKey),
        KeyStatus::NotEc => Err(TlsError::CouldNotExtractEcKey),
        KeyStatus::FailsCheck => Err(TlsError::KeyFailsCheck),
        KeyStatus::Checked { curve_nid } => check_curve(curve_nid),
    }
}

/// Checks the outcome of signature verification.
pub fn check_signature_outcome(outcome: &Option<bool>) -> (r: Result<(), TlsError>)
    ensures
        r == spec_check_signature(*outcome),
{
    match outcome {
        None => Err(TlsError::FailedToValidateSignature),
        Some(ok) => if *ok {
            Ok(())
        } else {
            Err(TlsError::InvalidSignature)
        },
    }
}

/// Runs the whole validation pipeline over the plain-value image of a
/// certificate, at the given current time.  Returns exactly what
/// [`spec_validate`] prescribes: the first failing stage's error, in the
/// fixed stage order, or success if every stage passes.
pub fn validate_certificate_data(d: &CertificateData, now: i64) -> (r: Result<(), TlsError>)
    ensures
        r == spec_validate(*d, now as int),
        r is Ok <==> {
            &&& spec_check_signature_algorithm(d.signature_alg_nid) is Ok
            &&& spec_check_self_signed(
                opt_entries_view(d.subject_entries),
                opt_entries_view(d.issuer_entries),
            ) is Ok
            &&& spec_check_serial(d.serial) is Ok
            &&& spec_check_validity_window(now as int, d.not_before, d.not_after) is Ok
            &&& spec_check_key(d.key) is Ok
            &&& spec_check_signature(d.signature_valid) is Ok
        },
{
    if let Err(e) = check_signature_algorithm(d.signature_alg_nid) {
        return Err(e);
    }
    if let Err(e) = check_self_signed(&d.subject_entries, &d.issuer_entries) {
        return Err(e);
    }
    if let Err(e) = check_serial(&d.serial) {
        return Err(e);
    }
    if let Err(e) = check_validity_window(now, &d.not_before, &d.not_after) {
        return Err(e);
    }
    if let Err(e) = check_key_status(&d.key) {
        return Err(e);
    }
    if let Err(e) = check_signature_outcome(&d.signature_valid) {
        return Err(e);
    }
    Ok(())
}

} // verus!
