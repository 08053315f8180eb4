//! Stateless bearer tokens.
//!
//! A token is the standard base64 encoding of `<issued_at>:<signature>`,
//! where `<issued_at>` is a Unix time in decimal seconds and `<signature>`
//! the lower-case hexadecimal HMAC-SHA256 tag of the digits of `<issued_at>`
//! under a shared secret. A token proves possession of the secret within
//! its time to live; it names no user. There is no revocation list: changing
//! the secret invalidates every outstanding token.

use vstd::prelude::*;
use vstd::slice::{slice_subrange, slice_to_vec};
use vstd::string::StringSliceAdditionalSpecFns;
use vstd::utf8::{encode_utf8, valid_utf8};
use crate::chars::{trim, trimmed};
use crate::crypto::{constant_time_eq, hmac_sha256, hmac_sha256_tag};
use crate::encoding::{
    base64_decode, base64_decoding, base64_encode, base64_encoding, decimal_text,
    format_u64, hex_decode, hex_decoded, hex_encode, hex_encoded, is_utf8, lemma_ascii_is_utf8,
    lemma_decimal_round_trip, lemma_decimal_text_value, lemma_u64_text_len,
    lemma_hex_encoded_ascii, lemma_hex_round_trip, parse_u64, parsed_u64,
};
use crate::time::unix_time;

verus! {

/// Why a bearer token was not accepted.
#[derive(Clone, Copy, Debug, PartialEq, Eq, Structural)]
pub enum AuthError {
    /// The request carries no credential.
    MissingToken,
    /// The signature is not the one the secret gives.
    InvalidToken,
    /// The token is older than its time to live.
    ExpiredToken,
    /// The token is not of the form described above.
    InvalidFormat,
}

/// Time to live of a token where none is configured, in seconds.
pub const DEFAULT_TOKEN_TTL_SECONDS: u64 = 3600;

/// The byte that parts the time from the signature.
pub const SEPARATOR: u8 = 0x3a;

/// The secret and the time to live that tokens are issued and checked with.
/// It is made once at startup and handed to whoever issues or checks tokens.
/// It cannot be printed: it holds the secret.
#[derive(Clone)]
pub struct TokenConfig {
    pub secret_key: Vec<u8>,
    pub ttl_seconds: u64,
}

/// Where a secret was found.
#[derive(Clone, Copy, Debug, PartialEq, Eq, Structural)]
pub enum SecretSource {
    /// In the file that the deployment names.
    File,
    /// In the environment.
    Environment,
    /// Nowhere: the secret is the one that everybody knows, fit for
    /// development only.
    Fallback,
}

/// A secret and where it was found. It cannot be printed.
#[derive(Clone)]
pub struct LoadedSecret {
    pub key: Vec<u8>,
    pub source: SecretSource,
}

/// The secret that is used where none is configured. It is public
/// knowledge; a deployment must configure its own.
pub open spec fn spec_fallback_secret() -> Seq<u8> {
    "dazno-secret-key-should-be-in-env".spec_bytes()
}

/// A configured value counts where something is left of it without the
/// whitespace at its ends.
pub open spec fn usable(value: Option<Seq<char>>) -> bool {
    value matches Some(text) && trimmed(text).len() > 0
}

/// Where the secret is taken from: the file comes first, then the
/// environment, then the fallback.
pub open spec fn secret_source(secret_file: Option<Seq<char>>, secret_env: Option<Seq<char>>) -> SecretSource {
    if usable(secret_file) {
        SecretSource::File
    } else if usable(secret_env) {
        SecretSource::Environment
    } else {
        SecretSource::Fallback
    }
}

/// The secret: the bytes of the value chosen, without the whitespace at its
/// ends.
pub open spec fn secret_key(secret_file: Option<Seq<char>>, secret_env: Option<Seq<char>>) -> Seq<u8> {
    match secret_source(secret_file, secret_env) {
        SecretSource::File => encode_utf8(trimmed(secret_file->0)),
        SecretSource::Environment => encode_utf8(trimmed(secret_env->0)),
        SecretSource::Fallback => spec_fallback_secret(),
    }
}

/// The bytes of a configured value, if it counts.
fn usable_secret(value: Option<&str>) -> (key: Option<Vec<u8>>)
    ensures
        key is Some <==> usable(
            match value {
                Some(text) => Some(text@),
                None => None,
            },
        ),
        key matches Some(bytes) ==> value is Some && bytes@ == encode_utf8(trimmed(value->0@)),
{
    match value {
        Some(text) => {
            let kept: &str = trim(text);
            let bytes: &[u8] = kept.as_bytes();
            if bytes.len() > 0 {
                Some(slice_to_vec(bytes))
            } else {
                proof {
                    lemma_empty_encoding(kept@);
                }
                None
            }
        },
        None => None,
    }
}

/// Only the empty text is written in no bytes.
proof fn lemma_empty_encoding(text: Seq<char>)
    ensures
        encode_utf8(text).len() == 0 <==> text.len() == 0,
{
    vstd::utf8::encode_utf8_decode_utf8(text);
    if text.len() == 0 {
        assert(encode_utf8(text).len() == 0);
    } else if encode_utf8(text).len() == 0 {
        assert(encode_utf8(text) =~= Seq::<u8>::empty());
        assert(vstd::utf8::decode_utf8(Seq::<u8>::empty()).len() == 0);
    }
}

/// Chooses the secret. `secret_file` is what the file holds that the
/// deployment names, if it names one that can be read; `secret_env` is the
/// value in the environment, if there is one. Whoever gets the fallback
/// should say so loudly.
pub fn load_secret_key(secret_file: Option<&str>, secret_env: Option<&str>) -> (loaded: LoadedSecret)
    ensures
        loaded.source == secret_source(
            match secret_file {
                Some(text) => Some(text@),
                None => None,
            },
            match secret_env {
                Some(text) => Some(text@),
                None => None,
            },
        ),
        loaded.key@ == secret_key(
            match secret_file {
                Some(text) => Some(text@),
                None => None,
            },
            match secret_env {
                Some(text) => Some(text@),
                None => None,
            },
        ),
{
    match usable_secret(secret_file) {
        Some(key) => {
            return LoadedSecret { key, source: SecretSource::File };
        },
        None => {},
    }
    match usable_secret(secret_env) {
        Some(key) => {
            return LoadedSecret { key, source: SecretSource::Environment };
        },
        None => {},
    }
    LoadedSecret {
        key: slice_to_vec("dazno-secret-key-should-be-in-env".as_bytes()),
        source: SecretSource::Fallback,
    }
}

/// The time to live that a configured value sets: the number it denotes,
/// if it denotes one above zero, else the default.
pub open spec fn token_ttl(value: Option<Seq<u8>>) -> u64 {
    match value {
        Some(text) => match parsed_u64(text) {
            Some(seconds) => if seconds > 0 {
                seconds
            } else {
                DEFAULT_TOKEN_TTL_SECONDS
            },
            None => DEFAULT_TOKEN_TTL_SECONDS,
        },
        None => DEFAULT_TOKEN_TTL_SECONDS,
    }
}

/// Reads the time to live of tokens from its configured value.
pub fn load_token_ttl_seconds(value: Option<&str>) -> (seconds: u64)
    ensures
        seconds == token_ttl(
            match value {
                Some(text) => Some(text.spec_bytes()),
                None => None,
            },
        ),
        seconds > 0,
{
    match value {
        Some(text) => match parse_u64(text.as_bytes()) {
            Some(seconds) => if seconds > 0 {
                seconds
            } else {
                DEFAULT_TOKEN_TTL_SECONDS
            },
            None => DEFAULT_TOKEN_TTL_SECONDS,
        },
        None => DEFAULT_TOKEN_TTL_SECONDS,
    }
}

impl TokenConfig {
    /// The configuration for what the deployment sets: the secret chosen and
    /// the time to live read. It is made once, at startup.
    pub fn load(secret_file: Option<&str>, secret_env: Option<&str>, ttl: Option<&str>) -> (loaded: (
        TokenConfig,
        SecretSource,
    ))
        ensures
            loaded.0.secret_key@ == secret_key(
                match secret_file {
                    Some(text) => Some(text@),
                    None => None,
                },
                match secret_env {
                    Some(text) => Some(text@),
                    None => None,
                },
            ),
            loaded.0.ttl_seconds == token_ttl(
                match ttl {
                    Some(text) => Some(text.spec_bytes()),
                    None => None,
                },
            ),
            loaded.1 == secret_source(
                match secret_file {
                    Some(text) => Some(text@),
                    None => None,
                },
                match secret_env {
                    Some(text) => Some(text@),
                    None => None,
                },
            ),
    {
        let secret = load_secret_key(secret_file, secret_env);
        let ttl_seconds = load_token_ttl_seconds(ttl);
        (TokenConfig { secret_key: secret.key, ttl_seconds }, secret.source)
    }
}

/// The only separator of `payload` stands at `at`.
pub open spec fn separator_at(payload: Seq<u8>, at: int) -> bool {
    &&& 0 <= at < payload.len()
    &&& payload[at] == SEPARATOR
    &&& forall|j: int| 0 <= j < payload.len() && j != at ==> #[trigger] payload[j] != SEPARATOR
}

/// The two parts of a payload that holds exactly one separator: what stands
/// before it and what stands after it.
pub open spec fn two_parts(payload: Seq<u8>) -> Option<(Seq<u8>, Seq<u8>)> {
    if exists|at: int| separator_at(payload, at) {
        let at = choose|at: int| separator_at(payload, at);
        Some((payload.take(at), payload.skip(at + 1)))
    } else {
        None
    }
}

/// Seconds from `issued_at` to `now`; zero for a token issued after `now`.
pub open spec fn token_age(now: u64, issued_at: u64) -> nat {
    if now >= issued_at {
        (now - issued_at) as nat
    } else {
        0
    }
}

/// What a signature is judged to be against the tag that is expected:
/// malformed where it is no hexadecimal, invalid where it denotes another
/// tag.
pub open spec fn signature_verdict(signature: Seq<u8>, expected: Seq<u8>) -> Result<(), AuthError> {
    match hex_decoded(signature) {
        None => Err(AuthError::InvalidFormat),
        Some(tag) => if tag == expected {
            Ok(())
        } else {
            Err(AuthError::InvalidToken)
        },
    }
}

/// What a decoded token is judged to be at `now`. The first failing step
/// decides: the payload is UTF-8 and has exactly two parts, the first is a
/// number, the token is no older than `ttl_seconds`, the second part is
/// hexadecimal, and it denotes the tag of the first part under `secret`.
pub open spec fn payload_verdict(
    payload: Seq<u8>,
    secret: Seq<u8>,
    ttl_seconds: u64,
    now: u64,
) -> Result<(), AuthError> {
    if !valid_utf8(payload) {
        Err(AuthError::InvalidFormat)
    } else {
        match two_parts(payload) {
            None => Err(AuthError::InvalidFormat),
            Some((stamp, signature)) => match parsed_u64(stamp) {
                None => Err(AuthError::InvalidFormat),
                Some(issued_at) => if token_age(now, issued_at) > ttl_seconds {
                    Err(AuthError::ExpiredToken)
                } else {
                    signature_verdict(signature, hmac_sha256(secret, stamp))
                },
            },
        }
    }
}

/// What a token is judged to be at `now`: malformed where it is no base64,
/// else what its payload is judged to be.
pub open spec fn token_verdict(token: Seq<u8>, secret: Seq<u8>, ttl_seconds: u64, now: u64) -> Result<
    (),
    AuthError,
> {
    match base64_decoding(token) {
        None => Err(AuthError::InvalidFormat),
        Some(payload) => payload_verdict(payload, secret, ttl_seconds, now),
    }
}

/// The payload of the token issued at `issued_at` under `secret`.
pub open spec fn issued_payload(secret: Seq<u8>, issued_at: u64) -> Seq<u8> {
    decimal_text(issued_at as nat) + seq![SEPARATOR] + hex_encoded(
        hmac_sha256(secret, decimal_text(issued_at as nat)),
    )
}

/// Where the only separator of `payload` stands, if it has exactly one.
fn find_separator(payload: &[u8]) -> (found: Option<usize>)
    ensures
        match found {
            Some(at) => separator_at(payload@, at as int),
            None => forall|at: int| !separator_at(payload@, at),
        },
{
    let mut first: Option<usize> = None;
    let mut i: usize = 0;
    while i < payload.len()
        invariant
            0 <= i <= payload.len(),
            match first {
                Some(at) => at < i && payload@[at as int] == SEPARATOR && forall|j: int|
                    0 <= j < i && j != at ==> #[trigger] payload@[j] != SEPARATOR,
                None => forall|j: int| 0 <= j < i ==> #[trigger] payload@[j] != SEPARATOR,
            },
        decreases payload.len() - i,
    {
        if payload[i] == SEPARATOR {
            match first {
                Some(at) => {
                    assert forall|k: int| !separator_at(payload@, k) by {
                        if k != at as int {
                            assert(payload@[at as int] == SEPARATOR);
                        } else {
                            assert(payload@[i as int] == SEPARATOR);
                        }
                    }
                    return None;
                },
                None => {
                    first = Some(i);
                },
            }
        }
        i += 1;
    }
    first
}

/// Judges the signature of a token against the tag that is expected. The
/// lengths are compared first, then the bytes, in time that does not depend
/// on where they differ.
pub fn check_signature(signature: &[u8], expected: &[u8]) -> (verdict: Result<(), AuthError>)
    ensures
        verdict == signature_verdict(signature@, expected@),
{
    let provided: Vec<u8> = match hex_decode(signature) {
        Ok(provided) => provided,
        Err(_) => {
            return Err(AuthError::InvalidFormat);
        },
    };
    if provided.len() != expected.len() {
        return Err(AuthError::InvalidToken);
    }
    if constant_time_eq(provided.as_slice(), expected) {
        Ok(())
    } else {
        Err(AuthError::InvalidToken)
    }
}

/// Judges a decoded token at `now`.
pub fn validate_payload(config: &TokenConfig, payload: &[u8], now: u64) -> (verdict: Result<
    (),
    AuthError,
>)
    ensures
        verdict == payload_verdict(payload@, config.secret_key@, config.ttl_seconds, now),
{
    if !is_utf8(payload) {
        return Err(AuthError::InvalidFormat);
    }
    let at: usize = match find_separator(payload) {
        Some(at) => at,
        None => {
            return Err(AuthError::InvalidFormat);
        },
    };
    proof {
        assert(separator_at(payload@, at as int));
        let chosen = choose|k: int| separator_at(payload@, k);
        assert(chosen == at);
    }
    assert(at < payload.len());
    let stamp: &[u8] = slice_subrange(payload, 0, at);
    let signature: &[u8] = slice_subrange(payload, at + 1, payload.len());
    assert(stamp@ =~= payload@.take(at as int));
    assert(signature@ =~= payload@.skip(at + 1));
    let issued_at: u64 = match parse_u64(stamp) {
        Some(issued_at) => issued_at,
        None => {
            return Err(AuthError::InvalidFormat);
        },
    };
    if now.saturating_sub(issued_at) > config.ttl_seconds {
        return Err(AuthError::ExpiredToken);
    }
    let expected: Vec<u8> = match hmac_sha256_tag(config.secret_key.as_slice(), stamp) {
        Some(expected) => expected,
        None => {
            return Err(AuthError::InvalidToken);
        },
    };
    check_signature(signature, expected.as_slice())
}

/// Judges the bytes of a token at `now`, a Unix time in seconds.
pub fn validate_token_bytes_at(config: &TokenConfig, token: &[u8], now: u64) -> (verdict: Result<
    (),
    AuthError,
>)
    ensures
        verdict == token_verdict(token@, config.secret_key@, config.ttl_seconds, now),
{
    match base64_decode(token) {
        Ok(payload) => validate_payload(config, payload.as_slice(), now),
        Err(_) => Err(AuthError::InvalidFormat),
    }
}

/// Judges a token at `now`, a Unix time in seconds.
pub fn validate_token_at(config: &TokenConfig, token: &str, now: u64) -> (verdict: Result<
    (),
    AuthError,
>)
    ensures
        verdict == token_verdict(
            token.spec_bytes(),
            config.secret_key@,
            config.ttl_seconds,
            now,
        ),
{
    validate_token_bytes_at(config, token.as_bytes(), now)
}

/// Judges a token by the system clock. Where the clock reads a time before
/// the Unix epoch the token is judged at the last moment there is,
/// `u64::MAX`, by which every token is as old as it can be.
pub fn validate_token(config: &TokenConfig, token: &str) -> (verdict: Result<(), AuthError>)
    ensures
        exists|now: u64|
            verdict == #[trigger] token_verdict(
                token.spec_bytes(),
                config.secret_key@,
                config.ttl_seconds,
                now,
            ),
{
    let now: u64 = match unix_time() {
        Some((seconds, _)) => seconds,
        None => u64::MAX,
    };
    validate_token_at(config, token, now)
}

/// Issues the token of `issued_at`, a Unix time in seconds.
pub fn generate_auth_token_at(config: &TokenConfig, issued_at: u64) -> (token: String)
    ensures
        token@ == base64_encoding(issued_payload(config.secret_key@, issued_at)),
        base64_decoding(encode_utf8(token@)) == Some(
            issued_payload(config.secret_key@, issued_at),
        ),
{
    let mut payload: Vec<u8> = format_u64(issued_at);
    let tag: Vec<u8> = match hmac_sha256_tag(config.secret_key.as_slice(), payload.as_slice()) {
        Some(tag) => tag,
        None => Vec::new(),
    };
    let mut signature: Vec<u8> = hex_encode(tag.as_slice());
    proof {
        lemma_u64_text_len(issued_at);
        lemma_hex_encoded_ascii(tag@);
    }
    payload.push(SEPARATOR);
    payload.append(&mut signature);
    assert(payload@ =~= issued_payload(config.secret_key@, issued_at));
    base64_encode(payload.as_slice())
}

/// Issues a token by the system clock. A clock that reads a time before the
/// Unix epoch gives the token of the epoch itself.
pub fn generate_auth_token(config: &TokenConfig) -> (token: String)
    ensures
        exists|issued_at: u64|
            {
                &&& token@ == base64_encoding(
                    #[trigger] issued_payload(config.secret_key@, issued_at),
                )
                &&& base64_decoding(encode_utf8(token@)) == Some(
                    issued_payload(config.secret_key@, issued_at),
                )
            },
{
    let issued_at: u64 = match unix_time() {
        Some((seconds, _)) => seconds,
        None => 0,
    };
    generate_auth_token_at(config, issued_at)
}

/// The parts of an issued payload are the digits of its time and the
/// hexadecimal digits of its tag.
proof fn lemma_issued_payload_parts(secret: Seq<u8>, issued_at: u64)
    ensures
        valid_utf8(issued_payload(secret, issued_at)),
        two_parts(issued_payload(secret, issued_at)) == Some(
            (
                decimal_text(issued_at as nat),
                hex_encoded(hmac_sha256(secret, decimal_text(issued_at as nat))),
            ),
        ),
{
    let stamp = decimal_text(issued_at as nat);
    let signature = hex_encoded(hmac_sha256(secret, stamp));
    let payload = issued_payload(secret, issued_at);
    lemma_decimal_text_value(issued_at as nat);
    lemma_hex_encoded_ascii(hmac_sha256(secret, stamp));
    let at = stamp.len() as int;
    assert forall|j: int| 0 <= j < payload.len() implies #[trigger] payload[j] < 0x80 && (j != at
        ==> payload[j] != SEPARATOR) by {
        if j < at {
            assert(payload[j] == stamp[j]);
        } else if j > at {
            assert(payload[j] == signature[j - at - 1]);
        }
    }
    lemma_ascii_is_utf8(payload);
    assert(separator_at(payload, at));
    let chosen = choose|k: int| separator_at(payload, k);
    assert(chosen == at) by {
        if chosen != at {
            assert(payload[at] != SEPARATOR);
        }
    }
    assert(payload.take(at) =~= stamp);
    assert(payload.skip(at + 1) =~= signature);
}

/// The lifetime of a token. A token issued at `issued_at` is accepted at
/// every moment up to and including `issued_at + ttl_seconds`, and at every
/// moment before `issued_at`; at every later moment it is rejected as
/// expired.
pub proof fn lemma_issued_token_lifetime(
    token: Seq<u8>,
    secret: Seq<u8>,
    ttl_seconds: u64,
    issued_at: u64,
    now: u64,
)
    requires
        base64_decoding(token) == Some(issued_payload(secret, issued_at)),
    ensures
        now <= issued_at + ttl_seconds ==> token_verdict(token, secret, ttl_seconds, now) == Ok::<
            (),
            AuthError,
        >(()),
        now > issued_at + ttl_seconds ==> token_verdict(token, secret, ttl_seconds, now) == Err::<
            (),
            AuthError,
        >(AuthError::ExpiredToken),
{
    lemma_issued_payload_parts(secret, issued_at);
    lemma_decimal_round_trip(issued_at);
    lemma_hex_round_trip(hmac_sha256(secret, decimal_text(issued_at as nat)));
}

/// Only the right signature is accepted: the payload of an accepted token is
/// the digits of a time, the separator, and hexadecimal text that denotes the
/// tag of those digits under the secret.
pub proof fn lemma_accepted_payload_is_signed(
    payload: Seq<u8>,
    secret: Seq<u8>,
    ttl_seconds: u64,
    now: u64,
)
    requires
        payload_verdict(payload, secret, ttl_seconds, now) is Ok,
    ensures
        two_parts(payload) matches Some((stamp, signature)) && payload == stamp + seq![SEPARATOR]
            + signature && parsed_u64(stamp) is Some && token_age(now, parsed_u64(stamp)->0)
            <= ttl_seconds && hex_decoded(signature) == Some(hmac_sha256(secret, stamp)),
{
    let at = choose|at: int| separator_at(payload, at);
    assert(payload =~= payload.take(at) + seq![SEPARATOR] + payload.skip(at + 1));
}

/// A tampered signature is rejected. Where a token is accepted, the token of
/// the same time whose signature differs in any byte is not.
pub proof fn lemma_tampered_signature_rejected(
    stamp: Seq<u8>,
    tag: Seq<u8>,
    tampered: Seq<u8>,
    secret: Seq<u8>,
    ttl_seconds: u64,
    now: u64,
)
    requires
        tag != tampered,
        payload_verdict(stamp + seq![SEPARATOR] + hex_encoded(tag), secret, ttl_seconds, now) is Ok,
    ensures
        payload_verdict(
            stamp + seq![SEPARATOR] + hex_encoded(tampered),
            secret,
            ttl_seconds,
            now,
        ) is Err,
{
    let accepted = stamp + seq![SEPARATOR] + hex_encoded(tag);
    let forged = stamp + seq![SEPARATOR] + hex_encoded(tampered);
    let at = stamp.len() as int;
    lemma_hex_round_trip(tag);
    lemma_hex_round_trip(tampered);
    lemma_hex_encoded_ascii(tag);
    lemma_hex_encoded_ascii(tampered);
    // the accepted payload has its only separator behind the stamp
    let chosen = choose|k: int| separator_at(accepted, k);
    assert(accepted[at] == SEPARATOR);
    assert(chosen == at);
    assert(accepted.take(at) =~= stamp);
    assert(accepted.skip(at + 1) =~= hex_encoded(tag));
    assert forall|j: int| 0 <= j < forged.len() && j != at implies #[trigger] forged[j]
        != SEPARATOR by {
        if j < at {
            assert(forged[j] == accepted[j]);
        } else {
            assert(forged[j] == hex_encoded(tampered)[j - at - 1]);
        }
    }
    assert(separator_at(forged, at));
    let forged_at = choose|k: int| separator_at(forged, k);
    assert(forged_at == at) by {
        if forged_at != at {
            assert(forged[at] != SEPARATOR);
        }
    }
    assert(forged.take(at) =~= stamp);
    assert(forged.skip(at + 1) =~= hex_encoded(tampered));
}

} // verus!
