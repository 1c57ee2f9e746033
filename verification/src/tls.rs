use vstd::prelude::*;
use vstd::pervasive::unreached;
use vstd::string::StringExecFns;
use crate::error::TlsError;
use crate::validation::validate_certificate_data;
use crate::validation::spec_validate;
use crate::validation::CertificateData;
use crate::validation::KeyStatus;
use crate::validation::check_key_status;
use crate::validation::check_self_signed;
use crate::validation::check_serial;
use crate::validation::check_signature_algorithm;
use crate::validation::check_validity_window;
use crate::validation::SerialNumber;
use crate::validation::VALIDITY_LEEWAY_SECS;
use crate::validation::VALIDITY_PERIOD_SECS;

verus! {

// ---------------------------------------------------------------------------
// Declarations of the OpenSSL types this module carries through its logic.
// Each is opaque: the trusted wrappers below are the only way any fact about
// a value of these types enters the verified code.
// ---------------------------------------------------------------------------

#[verifier::external_type_specification]
#[verifier::external_body]
pub struct ExX509(openssl::x509::X509);

#[verifier::external_type_specification]
#[verifier::external_body]
pub struct ExX509Builder(openssl::x509::X509Builder);

#[verifier::external_type_specification]
#[verifier::external_body]
pub struct ExX509Name(openssl::x509::X509Name);

#[verifier::external_type_specification]
#[verifier::external_body]
pub struct ExX509NameBuilder(openssl::x509::X509NameBuilder);

#[verifier::external_type_specification]
#[verifier::external_body]
pub struct ExPublic(openssl::pkey::Public);

#[verifier::external_type_specification]
#[verifier::external_body]
pub struct ExPrivate(openssl::pkey::Private);

#[verifier::external_type_specification]
#[verifier::external_body]
#[verifier::reject_recursive_types(T)]
pub struct ExPKey<T>(openssl::pkey::PKey<T>);

#[verifier::external_type_specification]
#[verifier::external_body]
#[verifier::reject_recursive_types(T)]
pub struct ExEcKey<T>(openssl::ec::EcKey<T>);

#[verifier::external_type_specification]
#[verifier::external_body]
pub struct ExSslContextBuilder(openssl::ssl::SslContextBuilder);

/// Relies on openssl's Clone for X509: a reference-count bump that hands
/// back the same underlying handle, so the clone equals the original.
pub assume_specification[ <openssl::x509::X509 as Clone>::clone ](
    cert: &openssl::x509::X509,
) -> (r: openssl::x509::X509)
    ensures
        r == *cert,
;

/// Relies on openssl's Clone for PKey: a reference-count bump that hands
/// back the same underlying handle, so the clone equals the original.
pub assume_specification<T>[ <openssl::pkey::PKey<T> as Clone>::clone ](
    key: &openssl::pkey::PKey<T>,
) -> (r: openssl::pkey::PKey<T>)
    ensures
        r == *key,
;

// ---------------------------------------------------------------------------
// The wall clock.
// ---------------------------------------------------------------------------

/// Relies on std::time::SystemTime::now and Duration::as_secs: the wall
/// clock, as whole seconds since the Unix epoch.  Aborts on a clock set
/// before 1970, which is out of scope.
#[verifier::external_body]
fn wall_clock_secs() -> (secs: u64) {
    std::time::SystemTime::now()
        .duration_since(std::time::UNIX_EPOCH)
        .expect("Great Scott! Your clock is horribly broken, Marty.")
        .as_secs()
}

/// The current wall-clock time as a signed Unix timestamp, never negative.
/// A clock absurdly far in the future — beyond what the signed form can
/// carry — is clamped to the largest representable instant rather than
/// supported.
pub fn now() -> (ts: i64)
    ensures
        0 <= ts,
{
    let secs = wall_clock_secs();
    if secs > i64::MAX as u64 {
        i64::MAX
    } else {
        secs as i64
    }
}

// ---------------------------------------------------------------------------
// Trusted wrappers that read one fact each out of a certificate.
// ---------------------------------------------------------------------------

/// Relies on openssl's X509Ref::signature_algorithm and Nid::as_raw: the raw
/// integer of the NID under which the certificate declares its signature
/// algorithm.
#[verifier::external_body]
fn cert_signature_algorithm_nid(cert: &openssl::x509::X509) -> (nid: i32) {
    cert.signature_algorithm().object().nid().as_raw()
}

/// Relies on openssl's X509Ref::subject_name, X509NameEntryRef accessors and
/// Nid::long_name: the subject name's entries as (long name, UTF-8 value)
/// pairs, in order; None if any entry fails to render.
#[verifier::external_body]
fn cert_subject_entries(cert: &openssl::x509::X509) -> (r: Option<Vec<(String, String)>>) {
    cert.subject_name().entries().map(
        |entry| {
            let name = entry.object().nid().long_name().ok()?;
            let data = entry.data().as_utf8().ok()?;
            let data_str: &str = data.as_ref();
            Some((name.to_string(), data_str.to_string()))
        },
    ).collect()
}

/// Relies on openssl's X509Ref::issuer_name, X509NameEntryRef accessors and
/// Nid::long_name: the issuer name's entries as (long name, UTF-8 value)
/// pairs, in order; None if any entry fails to render.
#[verifier::external_body]
fn cert_issuer_entries(cert: &openssl::x509::X509) -> (r: Option<Vec<(String, String)>>) {
    cert.issuer_name().entries().map(
        |entry| {
            let name = entry.object().nid().long_name().ok()?;
            let data = entry.data().as_utf8().ok()?;
            let data_str: &str = data.as_ref();
            Some((name.to_string(), data_str.to_string()))
        },
    ).collect()
}

/// Relies on openssl's Asn1IntegerRef::to_bn, BigNumRef::is_negative and
/// BigNumRef::to_vec: the serial number's sign and big-endian magnitude
/// without leading zeros; None if it cannot be read as a big number.
#[verifier::external_body]
fn cert_serial_number(cert: &openssl::x509::X509) -> (r: Option<SerialNumber>) {
    let bn = cert.serial_number().to_bn().ok()?;
    Some(SerialNumber { negative: bn.is_negative(), magnitude: bn.to_vec() })
}

/// Relies on openssl's Asn1Time::from_unix and Asn1TimeRef::diff: the
/// not-before instant as (days, seconds) counted from the Unix epoch, the
/// seconds part smaller than a day in magnitude; None if the stored time is
/// malformed or incomparable.
#[verifier::external_body]
fn cert_not_before_diff(cert: &openssl::x509::X509) -> (r: Option<(i32, i32)>) {
    let epoch = openssl::asn1::Asn1Time::from_unix(0).ok()?;
    let diff = epoch.diff(cert.not_before()).ok()?;
    Some((diff.days, diff.secs))
}

/// Relies on openssl's Asn1Time::from_unix and Asn1TimeRef::diff: the
/// not-after instant as (days, seconds) counted from the Unix epoch, the
/// seconds part smaller than a day in magnitude; None if the stored time is
/// malformed or incomparable.
#[verifier::external_body]
fn cert_not_after_diff(cert: &openssl::x509::X509) -> (r: Option<(i32, i32)>) {
    let epoch = openssl::asn1::Asn1Time::from_unix(0).ok()?;
    let diff = epoch.diff(cert.not_after()).ok()?;
    Some((diff.days, diff.secs))
}

/// Relies on openssl's X509Ref::public_key: the certificate's embedded
/// public key; None if it cannot be read.
#[verifier::external_body]
fn cert_public_key(cert: &openssl::x509::X509) -> (r: Option<
    openssl::pkey::PKey<openssl::pkey::Public>,
>) {
    cert.public_key().ok()
}

/// Relies on openssl's PKeyRef::ec_key: the elliptic-curve form of the key;
/// None if the key is not an elliptic-curve key.
#[verifier::external_body]
fn public_key_ec_key(key: &openssl::pkey::PKey<openssl::pkey::Public>) -> (r: Option<
    openssl::ec::EcKey<openssl::pkey::Public>,
>) {
    key.ec_key().ok()
}

/// Relies on openssl's EcKeyRef::check_key: whether the key passes the
/// library's own consistency check.
#[verifier::external_body]
fn ec_key_check(key: &openssl::ec::EcKey<openssl::pkey::Public>) -> (r: bool) {
    key.check_key().is_ok()
}

/// Relies on openssl's EcGroupRef::curve_name and Nid::as_raw: the raw NID
/// of the key's curve; None if the curve is not a named one.
#[verifier::external_body]
fn ec_key_curve_nid(key: &openssl::ec::EcKey<openssl::pkey::Public>) -> (r: Option<i32>) {
    key.group().curve_name().map(|nid| nid.as_raw())
}

/// Relies on openssl's X509Ref::verify: Some(true) if the signature verifies
/// against the given key, Some(false) if verification ran and failed, None
/// if the verification process itself errored.
#[verifier::external_body]
fn cert_verify_signature(
    cert: &openssl::x509::X509,
    key: &openssl::pkey::PKey<openssl::pkey::Public>,
) -> (r: Option<bool>) {
    cert.verify(key).ok()
}

// ---------------------------------------------------------------------------
// Trusted wrappers around key generation and certificate construction.
// ---------------------------------------------------------------------------

/// Relies on openssl's EcGroup::from_curve_name, EcKey::generate and
/// PKey::from_ec_key: a fresh private key on the P-521 curve, drawn from the
/// system RNG; None if the crypto library cannot allocate curve parameters
/// or randomness.
#[verifier::external_body]
fn new_p521_private_key() -> (r: Option<openssl::pkey::PKey<openssl::pkey::Private>>) {
    let group = openssl::ec::EcGroup::from_curve_name(openssl::nid::Nid::SECP521R1).ok()?;
    let ec_key = openssl::ec::EcKey::generate(group.as_ref()).ok()?;
    openssl::pkey::PKey::from_ec_key(ec_key).ok()
}

/// Relies on openssl's X509Builder::new.
#[verifier::external_body]
fn x509_builder_new() -> (r: Option<openssl::x509::X509Builder>) {
    openssl::x509::X509Builder::new().ok()
}

/// Relies on openssl's X509Builder::set_version.
#[verifier::external_body]
fn builder_set_version(builder: &mut openssl::x509::X509Builder, version: i32) -> (r: bool) {
    builder.set_version(version).is_ok()
}

/// Relies on openssl's BigNum::from_u32, BigNumRef::to_asn1_integer and
/// X509Builder::set_serial_number: stores the given small integer as the
/// certificate's serial number.
#[verifier::external_body]
fn builder_set_serial_u32(builder: &mut openssl::x509::X509Builder, serial: u32) -> (r: bool) {
    let result = openssl::bn::BigNum::from_u32(serial)
        .and_then(|bn| bn.to_asn1_integer())
        .and_then(|asn1| builder.set_serial_number(asn1.as_ref()));
    result.is_ok()
}

/// Relies on openssl's X509Builder::set_issuer_name.
#[verifier::external_body]
fn builder_set_issuer(
    builder: &mut openssl::x509::X509Builder,
    name: &openssl::x509::X509Name,
) -> (r: bool) {
    builder.set_issuer_name(name.as_ref()).is_ok()
}

/// Relies on openssl's X509Builder::set_subject_name.
#[verifier::external_body]
fn builder_set_subject(
    builder: &mut openssl::x509::X509Builder,
    name: &openssl::x509::X509Name,
) -> (r: bool) {
    builder.set_subject_name(name.as_ref()).is_ok()
}

/// Relies on openssl's Asn1Time::from_unix and X509Builder::set_not_before.
#[verifier::external_body]
fn builder_set_not_before_unix(builder: &mut openssl::x509::X509Builder, ts: i64) -> (r: bool) {
    let result = openssl::asn1::Asn1Time::from_unix(ts)
        .and_then(|time| builder.set_not_before(time.as_ref()));
    result.is_ok()
}

/// Relies on openssl's Asn1Time::from_unix and X509Builder::set_not_after.
#[verifier::external_body]
fn builder_set_not_after_unix(builder: &mut openssl::x509::X509Builder, ts: i64) -> (r: bool) {
    let result = openssl::asn1::Asn1Time::from_unix(ts)
        .and_then(|time| builder.set_not_after(time.as_ref()));
    result.is_ok()
}

/// Relies on openssl's X509Builder::set_pubkey: embeds the public half of
/// the given key pair.
#[verifier::external_body]
fn builder_set_pubkey(
    builder: &mut openssl::x509::X509Builder,
    key: &openssl::pkey::PKey<openssl::pkey::Private>,
) -> (r: bool) {
    builder.set_pubkey(key.as_ref()).is_ok()
}

/// Relies on openssl's X509Builder::sign with MessageDigest::sha512: signs
/// the certificate with the given key under ECDSA with SHA-512.
#[verifier::external_body]
fn builder_sign_sha512(
    builder: &mut openssl::x509::X509Builder,
    key: &openssl::pkey::PKey<openssl::pkey::Private>,
) -> (r: bool) {
    builder.sign(key.as_ref(), openssl::hash::MessageDigest::sha512()).is_ok()
}

/// Relies on openssl's X509Builder::build.
#[verifier::external_body]
fn builder_build(builder: openssl::x509::X509Builder) -> (r: openssl::x509::X509) {
    builder.build()
}

/// Relies on openssl's X509NameBuilder::new.
#[verifier::external_body]
fn name_builder_new() -> (r: Option<openssl::x509::X509NameBuilder>) {
    openssl::x509::X509NameBuilder::new().ok()
}

/// Relies on openssl's X509NameBuilder::append_entry_by_text: appends one
/// (field, value) entry to the name under construction.
#[verifier::external_body]
fn name_builder_append(
    builder: &mut openssl::x509::X509NameBuilder,
    field: &str,
    value: &str,
) -> (r: bool) {
    builder.append_entry_by_text(field, value).is_ok()
}

/// Relies on openssl's X509NameBuilder::build.
#[verifier::external_body]
fn name_builder_build(builder: openssl::x509::X509NameBuilder) -> (r: openssl::x509::X509Name) {
    builder.build()
}

// ---------------------------------------------------------------------------
// Trusted wrappers around TLS context configuration.
// ---------------------------------------------------------------------------

/// Relies on openssl's SslContextBuilder::set_min_proto_version: forbids
/// protocol versions older than TLS 1.3.
#[verifier::external_body]
fn ctx_set_min_tls13(ctx: &mut openssl::ssl::SslContextBuilder) -> (r: bool) {
    ctx.set_min_proto_version(Some(openssl::ssl::SslVersion::TLS1_3)).is_ok()
}

/// Relies on openssl's SslContextBuilder::set_certificate: installs the
/// local certificate.
#[verifier::external_body]
fn ctx_set_certificate(
    ctx: &mut openssl::ssl::SslContextBuilder,
    cert: &openssl::x509::X509,
) -> (r: bool) {
    ctx.set_certificate(cert.as_ref()).is_ok()
}

/// Relies on openssl's SslContextBuilder::set_private_key: installs the
/// local private key.
#[verifier::external_body]
fn ctx_set_private_key(
    ctx: &mut openssl::ssl::SslContextBuilder,
    key: &openssl::pkey::PKey<openssl::pkey::Private>,
) -> (r: bool) {
    ctx.set_private_key(key.as_ref()).is_ok()
}

/// Relies on openssl's SslContextBuilder::check_private_key: whether the
/// installed private key matches the installed certificate.
#[verifier::external_body]
fn ctx_check_private_key(ctx: &openssl::ssl::SslContextBuilder) -> (r: bool) {
    ctx.check_private_key().is_ok()
}

/// Relies on openssl's SslContextBuilder::set_verify_callback: requests a
/// peer certificate (PEER mode) and installs [`accept_all_certs`] as the
/// transport-level verification callback.
#[verifier::external_body]
fn ctx_set_deferred_verification(ctx: &mut openssl::ssl::SslContextBuilder) {
    ctx.set_verify_callback(
        openssl::ssl::SslVerifyMode::PEER,
        |preverify_ok, _| accept_all_certs(preverify_ok),
    );
}

/// The transport-level verification callback: accept unconditionally,
/// whatever OpenSSL's own chain verification concluded.  This is
/// intentional — OpenSSL's built-in model assumes a certificate-authority
/// hierarchy this system does not have, so the authoritative check is
/// deferred to [`validate_peer_cert`], which the caller must run on the
/// certificate found on the connection immediately after every handshake.
pub fn accept_all_certs(preverify_ok: bool) -> (r: bool)
    ensures
        r,
{
    let _ = preverify_ok;
    true
}

// ---------------------------------------------------------------------------
// The verified logic.
// ---------------------------------------------------------------------------

/// Seconds in a day, for converting (days, seconds) time differences.
pub const SECS_PER_DAY: i64 = 86400;

/// Turns a (days, seconds) difference from the Unix epoch into whole
/// seconds.
fn diff_to_unix_secs(days: i32, secs: i32) -> (t: i64)
    ensures
        t == days * SECS_PER_DAY + secs,
{
    days as i64 * SECS_PER_DAY + secs as i64
}

/// The certificate's not-before instant in Unix seconds, if readable.
fn cert_not_before_unix(cert: &openssl::x509::X509) -> (r: Option<i64>) {
    match cert_not_before_diff(cert) {
        Some((days, secs)) => Some(diff_to_unix_secs(days, secs)),
        None => None,
    }
}

/// The certificate's not-after instant in Unix seconds, if readable.
fn cert_not_after_unix(cert: &openssl::x509::X509) -> (r: Option<i64>) {
    match cert_not_after_diff(cert) {
        Some((days, secs)) => Some(diff_to_unix_secs(days, secs)),
        None => None,
    }
}

/// The shared pipeline's verdict on an image known to fail some stage: the
/// error of the first failing stage, computed by the pipeline itself rather
/// than restated by the caller.
fn image_verdict_error(image: &CertificateData, ts: i64) -> (e: TlsError)
    requires
        spec_validate(*image, ts as int) is Err,
    ensures
        Err::<(), TlsError>(e) == spec_validate(*image, ts as int),
        e != TlsError::CouldNotGenerateTlsCertificate,
        e != TlsError::CouldNotConfigureTls,
{
    proof {
        crate::validation::lemma_validation_error_domain(*image, ts as int);
    }
    match validate_certificate_data(image, ts) {
        Err(e) => e,
        Ok(()) => unreached(),
    }
}

/// Checks that the cryptographic parameters on a certificate are correct:
/// the full validation pipeline of [`spec_validate`], applied to the facts
/// read out of a real X.509 certificate — declared algorithm, self-signed
/// names, serial number, validity window against the wall clock, key and
/// curve, and finally the signature against the certificate's own embedded
/// key.  The facts are read into a [`CertificateData`] image stage by
/// stage, and every verdict — each early rejection as well as the final
/// answer — is computed by [`validate_certificate_data`] on that image, so
/// what is returned is the shared pipeline's verdict on what was read.
/// Reading stops at the first failing stage: cheap structural checks run
/// before expensive cryptographic ones, and unread facts stay at their
/// failing defaults, which the earlier failure masks.
///
/// On success the certificate itself is returned unchanged: validation is a
/// predicate, not a transform.
pub fn validate_self_signed_cert(cert: openssl::x509::X509) -> (r: Result<
    openssl::x509::X509,
    TlsError,
>)
    ensures
        r matches Ok(c) ==> c == cert,
        r matches Err(e) ==> e != TlsError::CouldNotGenerateTlsCertificate && e
            != TlsError::CouldNotConfigureTls,
{
    let ts = now();
    let mut image = CertificateData {
        signature_alg_nid: cert_signature_algorithm_nid(&cert),
        subject_entries: None,
        issuer_entries: None,
        serial: None,
        not_before: None,
        not_after: None,
        key: KeyStatus::Unreadable,
        signature_valid: None,
    };
    if check_signature_algorithm(image.signature_alg_nid).is_err() {
        return Err(image_verdict_error(&image, ts));
    }
    image.subject_entries = cert_subject_entries(&cert);
    image.issuer_entries = cert_issuer_entries(&cert);
    if check_self_signed(&image.subject_entries, &image.issuer_entries).is_err() {
        return Err(image_verdict_error(&image, ts));
    }
    image.serial = cert_serial_number(&cert);
    if check_serial(&image.serial).is_err() {
        return Err(image_verdict_error(&image, ts));
    }
    image.not_before = cert_not_before_unix(&cert);
    image.not_after = cert_not_after_unix(&cert);
    if check_validity_window(ts, &image.not_before, &image.not_after).is_err() {
        return Err(image_verdict_error(&image, ts));
    }
    let public_key = match cert_public_key(&cert) {
        Some(key) => key,
        None => return Err(image_verdict_error(&image, ts)),
    };
    image.key = match public_key_ec_key(&public_key) {
        None => KeyStatus::NotEc,
        Some(ec_key) => if !ec_key_check(&ec_key) {
            KeyStatus::FailsCheck
        } else {
            KeyStatus::Checked { curve_nid: ec_key_curve_nid(&ec_key) }
        },
    };
    if check_key_status(&image.key).is_err() {
        return Err(image_verdict_error(&image, ts));
    }
    image.signature_valid = cert_verify_signature(&cert, &public_key);
    proof {
        crate::validation::lemma_validation_error_domain(image, ts as int);
    }
    match validate_certificate_data(&image, ts) {
        Ok(()) => Ok(cert),
        Err(e) => Err(e),
    }
}

/// Validates a certificate received from a peer during a handshake.  The
/// rule set is identical to the self-check after issuance: one shared
/// pipeline, no behavioural divergence between the two call paths.
pub fn validate_peer_cert(peer_cert: openssl::x509::X509) -> (r: Result<
    openssl::x509::X509,
    TlsError,
>)
    ensures
        r matches Ok(c) ==> c == peer_cert,
        r matches Err(e) ==> e != TlsError::CouldNotGenerateTlsCertificate && e
            != TlsError::CouldNotConfigureTls,
{
    validate_self_signed_cert(peer_cert)
}

/// The entries an issuance name is built from: country and organization
/// under their short field names, each omitted entirely when empty rather
/// than encoded as an empty field, then always the common name, in that
/// order.
pub open spec fn spec_name_plan(c: Seq<char>, o: Seq<char>, cn: Seq<char>) -> Seq<
    (Seq<char>, Seq<char>),
> {
    let head = if c.len() > 0 {
        seq![("C"@, c)]
    } else {
        Seq::empty()
    };
    let mid = if o.len() > 0 {
        seq![("O"@, o)]
    } else {
        Seq::empty()
    };
    head + mid + seq![("CN"@, cn)]
}

/// Lays out the (field, value) entries an issuance name is built from:
/// exactly `C` if the country is non-empty, then `O` if the organization is
/// non-empty, then always `CN`.
pub fn name_entry_plan(country: &str, organization: &str, common_name: &str) -> (r: Vec<
    (String, String),
>)
    ensures
        crate::name::entries_view(r@) == spec_name_plan(country@, organization@, common_name@),
{
    let mut plan: Vec<(String, String)> = Vec::new();
    if !country.is_empty() {
        plan.push((String::from_str("C"), String::from_str(country)));
    }
    if !organization.is_empty() {
        plan.push((String::from_str("O"), String::from_str(organization)));
    }
    plan.push((String::from_str("CN"), String::from_str(common_name)));
    proof {
        assert(crate::name::entries_view(plan@) =~= spec_name_plan(
            country@,
            organization@,
            common_name@,
        ));
    }
    plan
}

/// Builds an X.509 name from string components, appending exactly the
/// entries [`name_entry_plan`] lays out, in their order.
fn mkname(country: &str, organization: &str, common_name: &str) -> (r: Option<
    openssl::x509::X509Name,
>) {
    let plan = name_entry_plan(country, organization, common_name);
    let mut builder = match name_builder_new() {
        Some(b) => b,
        None => return None,
    };
    let n = plan.len();
    for i in 0..n
        invariant
            n == plan@.len(),
    {
        let entry = &plan[i];
        if !name_builder_append(&mut builder, entry.0.as_str(), entry.1.as_str()) {
            return None;
        }
    }
    Some(name_builder_build(builder))
}

/// The numeric half of the fixed issuance policy, as plain values ready to
/// hand to the certificate builder.
pub struct IssuanceSettings {
    pub version: i32,
    pub serial: u32,
    pub not_before: i64,
    pub not_after: i64,
}

/// Computes the fixed issuance settings for a certificate issued at
/// wall-clock second `ts`: X.509 v3 (the version field is zero-indexed, so
/// its raw value is 2), serial number one, validity from one minute before
/// `ts` to a little under ten years after it.
pub fn issuance_settings(ts: i64) -> (r: IssuanceSettings)
    requires
        0 <= ts,
        ts <= i64::MAX - VALIDITY_PERIOD_SECS,
    ensures
        r.version == 2,
        r.serial == 1,
        r.not_before == ts - VALIDITY_LEEWAY_SECS,
        r.not_after == ts + VALIDITY_PERIOD_SECS,
{
    IssuanceSettings {
        version: 2,
        serial: 1,
        not_before: ts - VALIDITY_LEEWAY_SECS,
        not_after: ts + VALIDITY_PERIOD_SECS,
    }
}

/// The country component of every issuance name.
pub fn issuer_country() -> (r: &'static str)
    ensures
        r@ == "US"@,
{
    "US"
}

/// The organization component of every issuance name.
pub fn issuer_organization() -> (r: &'static str)
    ensures
        r@ == "Casper Blockchain"@,
{
    "Casper Blockchain"
}

/// The common name every node certificate carries.
pub fn node_common_name() -> (r: &'static str)
    ensures
        r@ == "casper-node"@,
{
    "casper-node"
}

/// Generates a self-signed certificate for the given key pair with the
/// given common name, under the fixed issuance policy: the version, serial
/// and validity window of [`issuance_settings`], issuer equal to subject
/// (the name [`name_entry_plan`] lays out from [`issuer_country`],
/// [`issuer_organization`] and the common name), signed with ECDSA over
/// SHA-512.
///
/// After signing, the result is fed through [`validate_self_signed_cert`]
/// as a self-check: an issuer that produces a certificate its own validator
/// rejects has drifted out of agreement with that validator, and the
/// validator's verdict is surfaced instead of being tolerated.
fn generate_cert(
    private_key: &openssl::pkey::PKey<openssl::pkey::Private>,
    common_name: &str,
) -> (r: Result<openssl::x509::X509, TlsError>)
    ensures
        r matches Err(e) ==> e != TlsError::CouldNotConfigureTls,
{
    let ts = now();
    if ts > i64::MAX - VALIDITY_PERIOD_SECS {
        return Err(TlsError::CouldNotGenerateTlsCertificate);
    }
    let settings = issuance_settings(ts);
    let mut builder = match x509_builder_new() {
        Some(b) => b,
        None => return Err(TlsError::CouldNotGenerateTlsCertificate),
    };
    if !builder_set_version(&mut builder, settings.version) {
        return Err(TlsError::CouldNotGenerateTlsCertificate);
    }
    if !builder_set_serial_u32(&mut builder, settings.serial) {
        return Err(TlsError::CouldNotGenerateTlsCertificate);
    }
    let issuer = match mkname(issuer_country(), issuer_organization(), common_name) {
        Some(name) => name,
        None => return Err(TlsError::CouldNotGenerateTlsCertificate),
    };
    // The same name is issuer and subject: the "self" in "self-signed".
    if !builder_set_issuer(&mut builder, &issuer) {
        return Err(TlsError::CouldNotGenerateTlsCertificate);
    }
    if !builder_set_subject(&mut builder, &issuer) {
        return Err(TlsError::CouldNotGenerateTlsCertificate);
    }
    if !builder_set_not_before_unix(&mut builder, settings.not_before) {
        return Err(TlsError::CouldNotGenerateTlsCertificate);
    }
    if !builder_set_not_after_unix(&mut builder, settings.not_after) {
        return Err(TlsError::CouldNotGenerateTlsCertificate);
    }
    if !builder_set_pubkey(&mut builder, private_key) {
        return Err(TlsError::CouldNotGenerateTlsCertificate);
    }
    if !builder_sign_sha512(&mut builder, private_key) {
        return Err(TlsError::CouldNotGenerateTlsCertificate);
    }
    let cert = builder_build(builder);
    validate_self_signed_cert(cert)
}

/// Generates a self-signed (certificate, key) pair suitable for TLS and
/// signing.  The common name of the certificate is [`node_common_name`].
pub fn generate_node_cert() -> (r: Result<
    (openssl::x509::X509, openssl::pkey::PKey<openssl::pkey::Private>),
    TlsError,
>)
    ensures
        r matches Err(e) ==> e != TlsError::CouldNotConfigureTls,
{
    let private_key = match new_p521_private_key() {
        Some(key) => key,
        None => return Err(TlsError::CouldNotGenerateTlsCertificate),
    };
    let cert = match generate_cert(&private_key, node_common_name()) {
        Ok(c) => c,
        Err(e) => return Err(e),
    };
    Ok((cert, private_key))
}

/// An ephemeral private key and validated certificate that identify this
/// node, plus an optional externally supplied trust-anchor certificate.
/// Constructed once at startup and treated as immutable afterwards: rotation
/// means constructing a new value and replacing every holder's copy.  Clones
/// share the underlying handles, so every connection can carry the same
/// certificate by value.
#[derive(Clone)]
pub struct Identity {
    pub secret_key: openssl::pkey::PKey<openssl::pkey::Private>,
    pub tls_certificate: openssl::x509::X509,
    pub network_ca: Option<openssl::x509::X509>,
}

impl Identity {
    /// Bundles the parts of an identity.
    fn new(
        secret_key: openssl::pkey::PKey<openssl::pkey::Private>,
        tls_certificate: openssl::x509::X509,
        network_ca: Option<openssl::x509::X509>,
    ) -> (r: Identity)
        ensures
            r.secret_key == secret_key,
            r.tls_certificate == tls_certificate,
            r.network_ca == network_ca,
    {
        Identity { secret_key, tls_certificate, network_ca }
    }

    /// Generates a fresh key pair and self-signed certificate and validates
    /// the certificate before wrapping both.  The only constructor for the
    /// generated-identity path; it never carries a network trust anchor.
    pub fn with_generated_certs() -> (r: Result<Identity, TlsError>)
        ensures
            r matches Ok(id) ==> id.network_ca is None,
            r matches Err(e) ==> e != TlsError::CouldNotConfigureTls,
    {
        let (not_yet_validated_cert, secret_key) = match generate_node_cert() {
            Ok(pair) => pair,
            Err(e) => return Err(e),
        };
        let tls_certificate = match validate_self_signed_cert(not_yet_validated_cert) {
            Ok(cert) => cert,
            Err(e) => return Err(e),
        };
        Ok(Identity::new(secret_key, tls_certificate, None))
    }
}

/// Sets the common options of both acceptor and connector on a TLS context:
/// a minimum protocol version of TLS 1.3 with no fallback, the local
/// certificate and its matching private key (failing fast if the library
/// finds they do not match), and deferred peer verification — a peer
/// certificate is requested, but the transport-level callback accepts
/// unconditionally and the caller must validate the peer's certificate with
/// [`validate_peer_cert`] after the handshake.
pub fn set_context_options(
    ctx: &mut openssl::ssl::SslContextBuilder,
    cert: &openssl::x509::X509,
    private_key: &openssl::pkey::PKey<openssl::pkey::Private>,
) -> (r: Result<(), TlsError>)
    ensures
        r matches Err(e) ==> e == TlsError::CouldNotConfigureTls,
{
    if !ctx_set_min_tls13(ctx) {
        return Err(TlsError::CouldNotConfigureTls);
    }
    if !ctx_set_certificate(ctx, cert) {
        return Err(TlsError::CouldNotConfigureTls);
    }
    if !ctx_set_private_key(ctx, private_key) {
        return Err(TlsError::CouldNotConfigureTls);
    }
    if !ctx_check_private_key(ctx) {
        return Err(TlsError::CouldNotConfigureTls);
    }
    ctx_set_deferred_verification(ctx);
    Ok(())
}

} // verus!
