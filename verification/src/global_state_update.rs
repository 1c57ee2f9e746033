use vstd::prelude::*;
use casper_types::AsymmetricType;
use crate::error::GlobalStateUpdateLoadError;

verus! {

// ---------------------------------------------------------------------------
// Declarations of the typed forms a decoded update holds.  Each is opaque;
// the trusted wrappers below are the only way one is produced here.
// ---------------------------------------------------------------------------

#[verifier::external_type_specification]
#[verifier::external_body]
pub struct ExPublicKey(casper_types::PublicKey);

#[verifier::external_type_specification]
#[verifier::external_body]
pub struct ExU512(casper_types::U512);

#[verifier::external_type_specification]
#[verifier::external_body]
pub struct ExKey(casper_types::Key);

/// Whether a string is a valid hex encoding of an asymmetric public key.
/// The answer depends on the characters alone.
pub uninterp spec fn hex_parses_as_public_key(s: Seq<char>) -> bool;

/// Whether a character is a decimal digit.
pub open spec fn spec_dec_digit(c: char) -> bool {
    '0' <= c && c <= '9'
}

/// The value of a string of decimal digits, most significant first.
pub open spec fn spec_dec_value(s: Seq<char>) -> int
    decreases s.len(),
{
    if s.len() == 0 {
        0
    } else {
        spec_dec_value(s.drop_last()) * 10 + (s.last() as int - '0' as int)
    }
}

/// Whether a string is a valid decimal rendering of an unsigned 512-bit
/// integer: every character a digit (so the empty string renders zero) and
/// the value below 2^512.  The decoder folds digit by digit and reports
/// overflow the moment an intermediate value leaves the range, which is
/// exactly when the whole value does, since appending digits only grows it.
pub open spec fn dec_parses_as_u512(s: Seq<char>) -> bool {
    (forall|i: int| 0 <= i < s.len() ==> spec_dec_digit(#[trigger] s[i]))
        && spec_dec_value(s) < vstd::arithmetic::power2::pow2(512)
}

/// Whether `prefix`'s characters are the first characters of `s`.
pub open spec fn spec_starts_with(s: Seq<char>, prefix: Seq<char>) -> bool {
    s.len() >= prefix.len() && s.subrange(0, prefix.len() as int) == prefix
}

/// The checksummed-hex decoding of a string, or `None` where it is not
/// valid.  The result depends on the characters alone.
pub uninterp spec fn checksummed_hex_decoding(s: Seq<char>) -> Option<Seq<u8>>;

/// Whether a string is a valid formatted global-state key.  The answer
/// depends on the characters alone; the question is only ever put to the
/// parser for strings [`spec_key_parser_safe`] admits.
pub uninterp spec fn parses_as_state_key(s: Seq<char>) -> bool;

/// How many decoded payload bytes the bid-addr and balance-hold key
/// parsers slice unconditionally: one tag byte plus a 32-byte hash.
pub const GUARDED_KEY_MIN_BYTES: usize = 33;

/// The hex payload of a key belonging to one of the two guarded key
/// families, if the string belongs to one.
pub open spec fn spec_guarded_payload(s: Seq<char>) -> Option<Seq<char>> {
    if spec_starts_with(s, "bid-addr-"@) {
        Some(s.skip("bid-addr-"@.len() as int))
    } else if spec_starts_with(s, "balance-hold-"@) {
        Some(s.skip("balance-hold-"@.len() as int))
    } else {
        None
    }
}

/// Whether the typed key parser may be consulted for a string.  Outside the
/// bid-addr and balance-hold families, always.  Within them, only when the
/// payload is not decodable hex, or decodes to at least the bytes their
/// parser slices unconditionally: on a shorter decodable payload the parser
/// aborts instead of erroring, so the decoder answers for those strings
/// itself.
pub open spec fn spec_key_parser_safe(s: Seq<char>) -> bool {
    match spec_guarded_payload(s) {
        None => true,
        Some(payload) => match checksummed_hex_decoding(payload) {
            None => true,
            Some(bytes) => bytes.len() >= GUARDED_KEY_MIN_BYTES,
        },
    }
}

/// Whether a string is accepted as an entry key: a guarded-family key whose
/// decodable payload is too short for its parser is refused — the original
/// parser aborts on it, and an error must take that abort's place — and
/// everything else must parse as a formatted key.
pub open spec fn spec_state_key_accepted(s: Seq<char>) -> bool {
    spec_key_parser_safe(s) && parses_as_state_key(s)
}

/// The base64 decoding of a string, or `None` where the string is not valid
/// base64.  The result depends on the characters alone.
pub uninterp spec fn base64_decoding(s: Seq<char>) -> Option<Seq<u8>>;

/// Relies on casper_types's PublicKey::from_hex (via AsymmetricType):
/// decodes a hex-encoded public key; whether it succeeds is a function of
/// the string alone.
#[verifier::external_body]
fn public_key_from_hex(s: &str) -> (r: Option<casper_types::PublicKey>)
    ensures
        r is Some <==> hex_parses_as_public_key(s@),
{
    casper_types::PublicKey::from_hex(s).ok()
}

/// Relies on casper_types's U512::from_dec_str: parses a decimal integer,
/// succeeding exactly on all-digit strings whose value fits in 512 bits.
#[verifier::external_body]
fn u512_from_dec_str(s: &str) -> (r: Option<casper_types::U512>)
    ensures
        r is Some <==> dec_parses_as_u512(s@),
{
    casper_types::U512::from_dec_str(s).ok()
}

/// Relies on str::strip_prefix: the rest of `s` after `prefix`, where
/// `prefix`'s characters are the first characters of `s`; `None` otherwise.
#[verifier::external_body]
fn str_strip_prefix<'a>(s: &'a str, prefix: &str) -> (r: Option<&'a str>)
    ensures
        r is Some <==> spec_starts_with(s@, prefix@),
        r matches Some(rest) ==> rest@ == s@.skip(prefix@.len() as int),
{
    s.strip_prefix(prefix)
}

/// Relies on casper_types's checksummed_hex::decode: hex decoding with an
/// optional mixed-case checksum; the result is a function of the
/// characters alone.
#[verifier::external_body]
fn checksummed_hex_decode(s: &str) -> (r: Option<Vec<u8>>)
    ensures
        r is Some <==> checksummed_hex_decoding(s@) is Some,
        r matches Some(v) ==> checksummed_hex_decoding(s@) == Some(v@),
{
    casper_types::checksummed_hex::decode(s).ok()
}

/// Relies on casper_types's Key::from_formatted_str: parses a formatted
/// global-state key; whether it succeeds is a function of the string alone.
/// A bid-addr or balance-hold string whose decodable payload is shorter
/// than the fixed range the parser slices must be kept away from it: on
/// such a payload it aborts instead of erroring.
#[verifier::external_body]
fn state_key_from_formatted_str(s: &str) -> (r: Option<casper_types::Key>)
    requires
        spec_key_parser_safe(s@),
    ensures
        r is Some <==> parses_as_state_key(s@),
{
    casper_types::Key::from_formatted_str(s).ok()
}

/// Whether the typed key parser may be consulted for this string: decides
/// [`spec_key_parser_safe`] by stripping a guarded family's prefix, if
/// any, and measuring its decoded payload.
fn key_parser_safe(s: &str) -> (r: bool)
    ensures
        r == spec_key_parser_safe(s@),
{
    let payload = match str_strip_prefix(s, "bid-addr-") {
        Some(rest) => Some(rest),
        None => str_strip_prefix(s, "balance-hold-"),
    };
    match payload {
        None => true,
        Some(rest) => match checksummed_hex_decode(rest) {
            None => true,
            Some(bytes) => bytes.len() >= GUARDED_KEY_MIN_BYTES,
        },
    }
}

/// Relies on base64::decode (standard alphabet): the decoded bytes are a
/// function of the string alone.
#[verifier::external_body]
fn base64_decode(s: &str) -> (r: Option<Vec<u8>>)
    ensures
        r is Some <==> base64_decoding(s@) is Some,
        r matches Some(v) ==> base64_decoding(s@) == Some(v@),
{
    base64::decode(s).ok()
}

// ---------------------------------------------------------------------------
// The configuration as read from a file, still entirely textual.
// ---------------------------------------------------------------------------

/// One keyed entry of a global-state update, as raw text: a formatted
/// global-state key and a base64-encoded serialized value.
#[derive(Debug, Clone, PartialEq, Eq)]
pub struct GlobalStateUpdateEntry {
    pub key: String,
    pub value: String,
}

/// One validator of the post-upgrade validator set, as raw text: a
/// hex-encoded public key and a decimal weight.
#[derive(Debug, Clone, PartialEq, Eq)]
pub struct GlobalStateUpdateValidatorInfo {
    pub public_key: String,
    pub weight: String,
}

/// A whole global-state-update configuration as parsed from its file: an
/// optional full post-upgrade validator set, and the list of keyed entries.
#[derive(Debug, Clone, PartialEq, Eq)]
pub struct GlobalStateUpdateConfig {
    pub validators: Option<Vec<GlobalStateUpdateValidatorInfo>>,
    pub entries: Vec<GlobalStateUpdateEntry>,
}

/// A decoded global-state update: the typed validator set, if the update
/// carries one, and the typed entries with their decoded bytes, both in the
/// order the configuration listed them.
#[derive(Debug, Clone)]
pub struct GlobalStateUpdate {
    pub validators: Option<Vec<(casper_types::PublicKey, casper_types::U512)>>,
    pub entries: Vec<(casper_types::Key, Vec<u8>)>,
}

// ---------------------------------------------------------------------------
// What decoding returns, stated over the names above.
// ---------------------------------------------------------------------------

/// Whether one validator's two text fields both decode.
pub open spec fn spec_validator_ok(v: GlobalStateUpdateValidatorInfo) -> bool {
    hex_parses_as_public_key(v.public_key@) && dec_parses_as_u512(v.weight@)
}

/// Whether one entry's two text fields both decode.
pub open spec fn spec_entry_ok(e: GlobalStateUpdateEntry) -> bool {
    spec_state_key_accepted(e.key@) && base64_decoding(e.value@) is Some
}

/// The outcome of decoding the validator list from position `i` on: the
/// error of the first field that fails to decode — the public key of an
/// element checked before its weight — or success.
pub open spec fn spec_validators_error_from(
    vs: Seq<GlobalStateUpdateValidatorInfo>,
    i: int,
) -> Result<(), GlobalStateUpdateLoadError>
    decreases vs.len() - i when 0 <= i <= vs.len()
{
    if i >= vs.len() {
        Ok(())
    } else if !hex_parses_as_public_key(vs[i].public_key@) {
        Err(GlobalStateUpdateLoadError::InvalidValidatorPublicKey { index: i as usize })
    } else if !dec_parses_as_u512(vs[i].weight@) {
        Err(GlobalStateUpdateLoadError::InvalidValidatorWeight { index: i as usize })
    } else {
        spec_validators_error_from(vs, i + 1)
    }
}

/// The outcome of decoding the entry list from position `i` on: the error
/// of the first field that fails to decode — an element's key checked
/// before its value — or success.
pub open spec fn spec_entries_error_from(
    es: Seq<GlobalStateUpdateEntry>,
    i: int,
) -> Result<(), GlobalStateUpdateLoadError>
    decreases es.len() - i when 0 <= i <= es.len()
{
    if i >= es.len() {
        Ok(())
    } else if !spec_state_key_accepted(es[i].key@) {
        Err(GlobalStateUpdateLoadError::InvalidEntryKey { index: i as usize })
    } else if base64_decoding(es[i].value@) is None {
        Err(GlobalStateUpdateLoadError::InvalidEntryValue { index: i as usize })
    } else {
        spec_entries_error_from(es, i + 1)
    }
}

/// The outcome of decoding a configuration's validator part: a missing
/// validator list decodes vacuously.
pub open spec fn spec_validators_result(c: GlobalStateUpdateConfig) -> Result<
    (),
    GlobalStateUpdateLoadError,
> {
    match c.validators {
        None => Ok(()),
        Some(vs) => spec_validators_error_from(vs@, 0),
    }
}

/// The outcome of decoding a whole configuration: the validator list is
/// decoded before the entry list, and the first failure wins.
pub open spec fn spec_decode_result(c: GlobalStateUpdateConfig) -> Result<
    (),
    GlobalStateUpdateLoadError,
> {
    let v = spec_validators_result(c);
    if v is Err {
        v
    } else {
        spec_entries_error_from(c.entries@, 0)
    }
}

// ---------------------------------------------------------------------------
// The decoding itself.
// ---------------------------------------------------------------------------

/// Decodes the validator list, front to back, stopping at the first field
/// that fails.
fn decode_validators(vs: &Vec<GlobalStateUpdateValidatorInfo>) -> (r: Result<
    Vec<(casper_types::PublicKey, casper_types::U512)>,
    GlobalStateUpdateLoadError,
>)
    ensures
        r matches Ok(out) ==> spec_validators_error_from(vs@, 0) is Ok && out@.len() == vs@.len(),
        r matches Err(e) ==> spec_validators_error_from(vs@, 0) == Err::<
            (),
            GlobalStateUpdateLoadError,
        >(e),
{
    let mut out: Vec<(casper_types::PublicKey, casper_types::U512)> = Vec::new();
    let n = vs.len();
    for i in 0..n
        invariant
            n == vs@.len(),
            out@.len() == i,
            spec_validators_error_from(vs@, 0) == spec_validators_error_from(vs@, i as int),
    {
        let v = &vs[i];
        let public_key = match public_key_from_hex(v.public_key.as_str()) {
            Some(pk) => pk,
            None => {
                return Err(GlobalStateUpdateLoadError::InvalidValidatorPublicKey { index: i });
            },
        };
        let weight = match u512_from_dec_str(v.weight.as_str()) {
            Some(w) => w,
            None => {
                return Err(GlobalStateUpdateLoadError::InvalidValidatorWeight { index: i });
            },
        };
        out.push((public_key, weight));
        proof {
            assert(spec_validators_error_from(vs@, i as int) == spec_validators_error_from(
                vs@,
                i as int + 1,
            ));
        }
    }
    Ok(out)
}

/// Decodes the entry list, front to back, stopping at the first field that
/// fails.
fn decode_entries(es: &Vec<GlobalStateUpdateEntry>) -> (r: Result<
    Vec<(casper_types::Key, Vec<u8>)>,
    GlobalStateUpdateLoadError,
>)
    ensures
        r matches Ok(out) ==> {
            &&& spec_entries_error_from(es@, 0) is Ok
            &&& out@.len() == es@.len()
            &&& forall|j: int|
                0 <= j < es@.len() ==> out@[j].1@ == base64_decoding(es@[j].value@)->Some_0
        },
        r matches Err(e) ==> spec_entries_error_from(es@, 0) == Err::<
            (),
            GlobalStateUpdateLoadError,
        >(e),
{
    let mut out: Vec<(casper_types::Key, Vec<u8>)> = Vec::new();
    let n = es.len();
    for i in 0..n
        invariant
            n == es@.len(),
            out@.len() == i,
            spec_entries_error_from(es@, 0) == spec_entries_error_from(es@, i as int),
            forall|j: int| 0 <= j < i ==> out@[j].1@ == base64_decoding(es@[j].value@)->Some_0,
    {
        let e = &es[i];
        if !key_parser_safe(e.key.as_str()) {
            return Err(GlobalStateUpdateLoadError::InvalidEntryKey { index: i });
        }
        let key = match state_key_from_formatted_str(e.key.as_str()) {
            Some(k) => k,
            None => {
                return Err(GlobalStateUpdateLoadError::InvalidEntryKey { index: i });
            },
        };
        let value = match base64_decode(e.value.as_str()) {
            Some(v) => v,
            None => {
                return Err(GlobalStateUpdateLoadError::InvalidEntryValue { index: i });
            },
        };
        out.push((key, value));
        proof {
            assert(spec_entries_error_from(es@, i as int) == spec_entries_error_from(
                es@,
                i as int + 1,
            ));
        }
    }
    Ok(out)
}

impl GlobalStateUpdate {
    /// Decodes a textual configuration into typed keys, weights and values.
    /// The validator list is decoded before the entry list; within each
    /// list, elements are decoded front to back and the first field that
    /// fails stops everything, reporting what failed and at which position.
    /// On success the decoded lists keep the configuration's order and
    /// length, and every entry's bytes are exactly the base64 decoding of
    /// its text.
    pub fn try_from_config(config: GlobalStateUpdateConfig) -> (r: Result<
        GlobalStateUpdate,
        GlobalStateUpdateLoadError,
    >)
        ensures
            r is Ok <==> spec_decode_result(config) is Ok,
            r matches Err(e) ==> spec_decode_result(config) == Err::<
                (),
                GlobalStateUpdateLoadError,
            >(e),
            r matches Ok(u) ==> {
                &&& (u.validators is Some <==> config.validators is Some)
                &&& (config.validators matches Some(vs) ==> u.validators->Some_0@.len()
                    == vs@.len())
                &&& u.entries@.len() == config.entries@.len()
                &&& forall|j: int|
                    0 <= j < config.entries@.len() ==> u.entries@[j].1@ == base64_decoding(
                        config.entries@[j].value@,
                    )->Some_0
            },
    {
        let validators: Option<Vec<(casper_types::PublicKey, casper_types::U512)>> = match &config
            .validators {
            None => None,
            Some(config_validators) => match decode_validators(config_validators) {
                Ok(new_validators) => Some(new_validators),
                Err(e) => {
                    return Err(e);
                },
            },
        };
        let entries = match decode_entries(&config.entries) {
            Ok(es) => es,
            Err(e) => {
                return Err(e);
            },
        };
        Ok(GlobalStateUpdate { validators, entries })
    }
}

} // verus!
