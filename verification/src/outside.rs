//! What the library takes on trust from other crates: base64url, addresses,
//! random numbers, the aggregation function's constructor, the comparison
//! of privacy budgets, and the token and key handling of the aggregator's
//! own library.
//! Nothing in this file is proved; each contract says what the named function
//! is relied on to do.

use vstd::prelude::*;
use base64::engine::general_purpose::URL_SAFE_NO_PAD;
use base64::Engine;
use fixed::types::extra::{U15, U31, U63};
use fixed::{FixedI16, FixedI32, FixedI64};
use janus_core::auth_tokens::{AuthenticationToken, AuthenticationTokenHash};
use prio::dp::ZCdpBudget;
use prio::vdaf::prio3::Prio3FixedPointBoundedL2VecSum;
use crate::types::{HpkeConfig, HpkeKeypair, KEM_P256_HKDF_SHA256, KEM_X25519_HKDF_SHA256};

verus! {

/// The error of `base64`'s decoder.
#[verifier::external_type_specification]
#[verifier::external_body]
pub struct ExBase64DecodeError(base64::DecodeError);

/// The error with which `janus_core` refuses a token.
#[verifier::external_type_specification]
#[verifier::external_body]
pub struct ExAnyhowError(anyhow::Error);

/// The error of `janus_core`'s key generation.
#[verifier::external_type_specification]
#[verifier::external_body]
pub struct ExHpkeError(janus_core::hpke::Error);

/// The error of `url`'s parser.
#[verifier::external_type_specification]
#[verifier::external_body]
pub struct ExUrlParseError(url::ParseError);

/// The unpadded base64url text of a byte string.
pub uninterp spec fn base64url_encoding(bytes: Seq<u8>) -> Seq<char>;

/// The byte string that an unpadded base64url text stands for, if it is one.
pub uninterp spec fn base64url_decoding(text: Seq<char>) -> Option<Seq<u8>>;

/// The modulus of the 128-bit field in which the aggregation function
/// computes.
pub open spec fn field128_modulus() -> int {
    340282366920938462946865773367900766209int
}

/// The largest squared norm of an element of `bits` bits, as the
/// aggregation function counts it: two to the power of `2 * bits - 2`, for
/// the widths of 16, 32 and 64 bits.
pub open spec fn norm_scale(bits: nat) -> int {
    if bits == 16 {
        1073741824int
    } else if bits == 32 {
        4611686018427387904int
    } else {
        85070591730234615865843651857942052864int
    }
}

/// Whether the sum of fixed-point vectors of bounded L2 norm can be had as
/// an aggregation function for vectors of `entries` elements of `bits` bits,
/// shared between `num_aggregators` aggregators: there must be between 1
/// and 254 aggregators, and the squared norm of any vector must fit into
/// the field.
pub open spec fn fixed_point_vdaf_accepted(bits: nat, num_aggregators: u8, entries: nat) -> bool {
    &&& 1 <= num_aggregators <= 254
    &&& entries * norm_scale(bits) < field128_modulus()
}

/// The SHA-256 digest of a byte string.
pub uninterp spec fn sha256_digest(bytes: Seq<u8>) -> Seq<u8>;

/// The address that `reference` names when it is read at the address
/// `base`, if `base` is an address and `reference` can be read there.
pub uninterp spec fn url_joining(base: Seq<char>, reference: Seq<char>) -> Option<Seq<char>>;

/// Whether `c` belongs to the URL-safe base64 alphabet: a letter, a digit,
/// `-` or `_`.
pub open spec fn is_base64url_char(c: char) -> bool {
    ||| 'A' <= c <= 'Z'
    ||| 'a' <= c <= 'z'
    ||| '0' <= c <= '9'
    ||| c == '-'
    ||| c == '_'
}

/// The length of the unpadded base64 text of `len` bytes: four characters
/// for every three bytes, and two or three for one or two bytes that are
/// left.
pub open spec fn base64_text_len(len: nat) -> nat {
    (len / 3) * 4 + if len % 3 == 0 {
        0
    } else {
        len % 3 + 1
    }
}

/// `base64::Engine::encode` of the engine `URL_SAFE_NO_PAD`: gives the
/// unpadded base64url text of `bytes`, which the same engine decodes to
/// `bytes` again. The text has the length that base64 gives to so many
/// bytes and is written in the URL-safe alphabet. The length bound keeps
/// the size of the text within `usize`.
#[verifier::external_body]
pub(crate) fn base64url_encode(bytes: &[u8]) -> (text: String)
    requires
        bytes@.len() <= usize::MAX / 2,
    ensures
        text@ == base64url_encoding(bytes@),
        base64url_decoding(text@) == Some(bytes@),
        text@.len() == base64_text_len(bytes@.len()),
        forall|i: int| 0 <= i < text@.len() ==> is_base64url_char(#[trigger] text@[i]),
{
    URL_SAFE_NO_PAD.encode(bytes)
}

/// `base64::Engine::decode` of the engine `URL_SAFE_NO_PAD`: gives the bytes
/// that `text` stands for, or the decoder's error where it stands for none.
#[verifier::external_body]
pub(crate) fn base64url_decode(text: &str) -> (decoded: Result<Vec<u8>, base64::DecodeError>)
    ensures
        match decoded {
            Ok(bytes) => base64url_decoding(text@) == Some(bytes@),
            Err(_) => base64url_decoding(text@) is None,
        },
{
    URL_SAFE_NO_PAD.decode(text)
}

/// `Url::join` of `url`, on the address that `Url::parse` reads from `base`:
/// gives the address that `reference` names there, as text, or the
/// parser's error where `base` is no address or `reference` cannot be read.
#[verifier::external_body]
pub(crate) fn url_join(base: &str, reference: &str) -> (joined: Result<String, url::ParseError>)
    ensures
        match joined {
            Ok(address) => url_joining(base@, reference@) == Some(address@),
            Err(_) => url_joining(base@, reference@) is None,
        },
{
    Ok(String::from(url::Url::parse(base)?.join(reference)?))
}

/// The number that base-2^32 digits stand for, the least significant
/// first. No digits stand for zero, and zeros at the end change nothing.
pub open spec fn digits_value(digits: Seq<u32>) -> nat
    decreases digits.len(),
{
    if digits.len() == 0 {
        0
    } else {
        digits[0] as nat + 4294967296 * digits_value(digits.drop_first())
    }
}

/// Whether two fractions, each given by the digits of its numerator and of
/// its denominator, are the same number; `None` where a denominator is
/// zero.
pub open spec fn fraction_equality(
    a_numerator: Seq<u32>,
    a_denominator: Seq<u32>,
    b_numerator: Seq<u32>,
    b_denominator: Seq<u32>,
) -> Option<bool> {
    if digits_value(a_denominator) != 0 && digits_value(b_denominator) != 0 {
        Some(
            digits_value(a_numerator) * digits_value(b_denominator) == digits_value(b_numerator)
                * digits_value(a_denominator),
        )
    } else {
        None
    }
}

/// `==` of `prio`'s `ZCdpBudget`, on two budgets that `serde_json::from_str`
/// reads from the digits given. Reading gives the fraction of the two
/// numbers that the digits stand for, as they are, and fails where the
/// denominator is zero; then the answer is `None`. The comparison is that
/// of `num_rational`: two fractions are equal where they are the same
/// number, reduced or not.
#[verifier::external_body]
pub(crate) fn fractions_equal(
    a_numerator: &[u32],
    a_denominator: &[u32],
    b_numerator: &[u32],
    b_denominator: &[u32],
) -> (same: Option<bool>)
    ensures
        same == fraction_equality(a_numerator@, a_denominator@, b_numerator@, b_denominator@),
{
    let a = format!("{{\"epsilon\":[{:?},{:?}]}}", a_numerator, a_denominator);
    let b = format!("{{\"epsilon\":[{:?},{:?}]}}", b_numerator, b_denominator);
    let a: ZCdpBudget = serde_json::from_str(&a).ok()?;
    let b: ZCdpBudget = serde_json::from_str(&b).ok()?;
    Some(a == b)
}

/// `Prio3FixedPointBoundedL2VecSum::new_fixedpoint_boundedl2_vec_sum` of
/// `prio`, for elements of 16 bits: whether it makes the aggregation
/// function. It does where the number of aggregators is between 1 and 254
/// and `entries` times two to the power of 30 is below the field's modulus.
/// The bound on `entries` keeps its own sizes within `usize`.
#[verifier::external_body]
pub(crate) fn fixed16_vdaf_accepts(num_aggregators: u8, entries: usize) -> (accepted: bool)
    requires
        entries <= usize::MAX / 128,
    ensures
        accepted == fixed_point_vdaf_accepted(16, num_aggregators, entries as nat),
{
    Prio3FixedPointBoundedL2VecSum::<FixedI16<U15>>::new_fixedpoint_boundedl2_vec_sum(
        num_aggregators,
        entries,
    ).is_ok()
}

/// `Prio3FixedPointBoundedL2VecSum::new_fixedpoint_boundedl2_vec_sum` of
/// `prio`, for elements of 32 bits: whether it makes the aggregation
/// function. It does where the number of aggregators is between 1 and 254
/// and `entries` times two to the power of 62 is below the field's modulus.
/// The bound on `entries` keeps its own sizes within `usize`.
#[verifier::external_body]
pub(crate) fn fixed32_vdaf_accepts(num_aggregators: u8, entries: usize) -> (accepted: bool)
    requires
        entries <= usize::MAX / 128,
    ensures
        accepted == fixed_point_vdaf_accepted(32, num_aggregators, entries as nat),
{
    Prio3FixedPointBoundedL2VecSum::<FixedI32<U31>>::new_fixedpoint_boundedl2_vec_sum(
        num_aggregators,
        entries,
    ).is_ok()
}

/// `Prio3FixedPointBoundedL2VecSum::new_fixedpoint_boundedl2_vec_sum` of
/// `prio`, for elements of 64 bits: whether it makes the aggregation
/// function. It does where the number of aggregators is between 1 and 254
/// and `entries` times two to the power of 126 is below the field's modulus.
/// The bound on `entries` keeps its own sizes within `usize`.
#[verifier::external_body]
pub(crate) fn fixed64_vdaf_accepts(num_aggregators: u8, entries: usize) -> (accepted: bool)
    requires
        entries <= usize::MAX / 128,
    ensures
        accepted == fixed_point_vdaf_accepted(64, num_aggregators, entries as nat),
{
    Prio3FixedPointBoundedL2VecSum::<FixedI64<U63>>::new_fixedpoint_boundedl2_vec_sum(
        num_aggregators,
        entries,
    ).is_ok()
}

/// `rand::random` at `u16`: any number may come back.
#[verifier::external_body]
pub(crate) fn random_u16() -> u16 {
    rand::random::<u16>()
}

/// `rand::random` at `u8`: any number may come back.
#[verifier::external_body]
pub(crate) fn random_u8() -> u8 {
    rand::random::<u8>()
}

/// `rand::random` at an array of 32 bytes: any bytes may come back.
#[verifier::external_body]
pub(crate) fn random_32_bytes() -> [u8; 32] {
    rand::random::<[u8; 32]>()
}

/// `rand::Rng::sample_iter` on the thread's generator, cut off after `len`
/// items: `len` bytes, of any values.
#[verifier::external_body]
pub(crate) fn random_bytes(len: usize) -> (bytes: Vec<u8>)
    ensures
        bytes@.len() == len,
{
    rand::Rng::sample_iter(rand::thread_rng(), rand::distributions::Standard).take(len).collect()
}

/// Whether `b` may stand in the body of a bearer token: a letter, a digit or
/// one of `-._~+/`.
pub open spec fn is_token_byte(b: u8) -> bool {
    ||| 0x41 <= b <= 0x5a
    ||| 0x61 <= b <= 0x7a
    ||| 0x30 <= b <= 0x39
    ||| b == 0x2d
    ||| b == 0x2e
    ||| b == 0x5f
    ||| b == 0x7e
    ||| b == 0x2b
    ||| b == 0x2f
}

/// Whether `bytes` is `body` token bytes followed by `=` signs only.
pub open spec fn token_with_body(bytes: Seq<u8>, body: int) -> bool {
    &&& 1 <= body <= bytes.len()
    &&& forall|i: int| 0 <= i < body ==> is_token_byte(#[trigger] bytes[i])
    &&& forall|i: int| body <= i < bytes.len() ==> #[trigger] bytes[i] == 0x3d
}

/// The syntax of a bearer token: one or more token bytes, then any number of
/// `=` signs.
pub open spec fn bearer_token_syntax(bytes: Seq<u8>) -> bool {
    exists|body: int| token_with_body(bytes, body)
}

/// A text in the URL-safe base64 alphabet that is not empty is a bearer
/// token, byte for byte.
pub proof fn lemma_base64url_text_is_token(text: Seq<char>)
    requires
        text.len() >= 1,
        forall|i: int| 0 <= i < text.len() ==> is_base64url_char(#[trigger] text[i]),
    ensures
        bearer_token_syntax(vstd::utf8::encode_utf8(text)),
{
    let bytes = vstd::utf8::encode_utf8(text);
    assert(vstd::utf8::is_ascii_chars(text)) by {
        assert forall|i: int| 0 <= i < text.len() implies '\0' <= #[trigger] text[i]
            <= '\u{7f}' by {
            assert(is_base64url_char(text[i]));
        }
    }
    vstd::utf8::is_ascii_chars_encode_utf8(text);
    assert forall|i: int| 0 <= i < bytes.len() implies is_token_byte(#[trigger] bytes[i]) by {
        assert(is_base64url_char(text[i]));
        assert(bytes[i] == text[i] as u8);
    }
    assert(token_with_body(bytes, bytes.len() as int));
}

/// `AuthenticationToken::new_bearer_token_from_bytes` of `janus_core`, and
/// the bytes of the token it made: succeeds exactly on the bytes that have
/// the syntax of a bearer token, and keeps them as they are.
#[verifier::external_body]
pub(crate) fn bearer_token_from_bytes(bytes: &[u8]) -> (token: Result<Vec<u8>, anyhow::Error>)
    ensures
        token is Ok <==> bearer_token_syntax(bytes@),
        token matches Ok(t) ==> t@ == bytes@,
{
    let token = AuthenticationToken::new_bearer_token_from_bytes(bytes)?;
    Ok(AsRef::<[u8]>::as_ref(&token).to_vec())
}

/// `rand::random` at `janus_core`'s `AuthenticationToken`, and the bytes of
/// the token it made: a fresh bearer token, which is the unpadded base64url
/// text of 16 random bytes and so has 22 bytes.
#[verifier::external_body]
pub(crate) fn random_bearer_token() -> (token: Vec<u8>)
    ensures
        bearer_token_syntax(token@),
        token@.len() == 22,
{
    let token = rand::random::<AuthenticationToken>();
    AsRef::<[u8]>::as_ref(&token).to_vec()
}

/// `AuthenticationTokenHash::from` of `janus_core` on the bearer token with
/// the bytes `token`: the SHA-256 digest of those bytes. Gives `None` where
/// `token` is no bearer token.
#[verifier::external_body]
pub(crate) fn bearer_token_hash(token: &[u8]) -> (digest: Option<Vec<u8>>)
    ensures
        digest is Some <==> bearer_token_syntax(token@),
        digest matches Some(d) ==> d@ == sha256_digest(token@),
{
    let token = AuthenticationToken::new_bearer_token_from_bytes(token).ok()?;
    match AuthenticationTokenHash::from(&token) {
        AuthenticationTokenHash::Bearer(digest) => Some(digest.to_vec()),
        _ => None,
    }
}

/// `HpkeKeypair::generate` of `janus_core`: a fresh key pair under the
/// identifier and for the algorithms asked for. It fails exactly where the
/// key encapsulation mechanism is neither X25519 nor P-256 with HKDF-SHA256.
#[verifier::external_body]
pub(crate) fn generate_hpke_keypair(id: u8, kem_id: u16, kdf_id: u16, aead_id: u16) -> (pair:
    Result<HpkeKeypair, janus_core::hpke::Error>)
    ensures
        pair is Ok <==> (kem_id == KEM_X25519_HKDF_SHA256 || kem_id == KEM_P256_HKDF_SHA256),
        pair matches Ok(p) ==> {
            &&& p@.config.id == id
            &&& p@.config.kem_id == kem_id
            &&& p@.config.kdf_id == kdf_id
            &&& p@.config.aead_id == aead_id
        },
{
    let pair = janus_core::hpke::HpkeKeypair::generate(
        id.into(),
        kem_id.into(),
        kdf_id.into(),
        aead_id.into(),
    )?;
    let config = HpkeConfig {
        id: (*pair.config().id()).into(),
        kem_id: (*pair.config().kem_id()).into(),
        kdf_id: (*pair.config().kdf_id()).into(),
        aead_id: (*pair.config().aead_id()).into(),
        public_key: pair.config().public_key().as_ref().to_vec(),
    };
    Ok(HpkeKeypair { config, private_key: pair.private_key().as_ref().to_vec() })
}

/// `Display` of `base64`'s decoder error, through `format!`.
#[verifier::external_body]
pub(crate) fn base64_error_text(error: &base64::DecodeError) -> String {
    format!("{}", error)
}

/// `Display` of the error with which a token was refused, through `format!`.
#[verifier::external_body]
pub(crate) fn token_error_text(error: &anyhow::Error) -> String {
    format!("{}", error)
}

} // verus!
