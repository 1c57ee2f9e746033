use vstd::prelude::*;

verus! {

/// Everything that can go wrong while generating or validating the node's
/// TLS identity.
///
/// Two domains share this enum: library failures (the crypto library could
/// not perform an operation at all) and validation failures (the certificate
/// was readable but breaks one of the fixed trust rules).  Callers may
/// branch on the kind for diagnostics but must treat any non-success
/// uniformly as "do not trust this peer".
#[derive(Debug, Clone, Copy, PartialEq, Eq, Structural)]
pub enum TlsError {
    /// Key or certificate generation failed inside the crypto library.
    CouldNotGenerateTlsCertificate,
    /// A TLS connection context refused one of the fixed policy settings.
    CouldNotConfigureTls,
    /// The declared signature algorithm is not the one fixed algorithm.
    WrongSignatureAlgorithm,
    /// The subject or issuer name could not be rendered.
    CorruptSubjectOrIssuer,
    /// The subject name differs from the issuer name.
    NotSelfSigned,
    /// The serial number could not be read for comparison.
    InvalidSerialNumber,
    /// The serial number is not the fixed value one.
    WrongSerialNumber,
    /// A validity timestamp could not be read or compared.
    TimeIssue,
    /// The current time is not yet strictly after the not-before time.
    NotYetValid,
    /// The current time is no longer strictly before the not-after time.
    Expired,
    /// The embedded public key could not be read.
    CannotReadPublicKey,
    /// The embedded public key is not an elliptic-curve key.
    CouldNotExtractEcKey,
    /// The elliptic-curve key fails the library's own consistency check.
    KeyFailsCheck,
    /// The key lies on a different curve than the one fixed curve.
    WrongCurve,
    /// The signature verification process itself failed to run.
    FailedToValidateSignature,
    /// The signature verification ran and the signature does not verify.
    InvalidSignature,
}

/// Failures while decoding a global-state-update configuration into typed
/// keys and values.  Each variant records the zero-based position of the
/// offending element in its input list.
#[derive(Debug, Clone, Copy, PartialEq, Eq, Structural)]
pub enum GlobalStateUpdateLoadError {
    /// A validator's public key is not a valid hex-encoded key.
    InvalidValidatorPublicKey { index: usize },
    /// A validator's weight is not a valid decimal integer.
    InvalidValidatorWeight { index: usize },
    /// An entry's key is not a valid formatted key string.
    InvalidEntryKey { index: usize },
    /// An entry's value is not valid base64.
    InvalidEntryValue { index: usize },
}

} // verus!
