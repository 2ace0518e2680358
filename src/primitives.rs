//! The outside primitives this library relies on: base58 and base64 text,
//! address text, and ed25519 key derivation, signing and verification.
//!
//! Each function here states what the outside crate does; everything else in
//! the library is proved from these statements.
use base64::Engine;
use solana_sdk::pubkey::Pubkey;
use solana_sdk::signature::Signature;
use solana_sdk::signer::keypair::Keypair;
use solana_sdk::signer::Signer;
use vstd::prelude::*;

verus! {

/// The base58 text of a byte string (Bitcoin alphabet).
pub uninterp spec fn base58_text(bytes: Seq<u8>) -> Seq<char>;

/// The bytes that a base58 text stands for, or `None` where it is not base58.
pub uninterp spec fn base58_bytes(text: Seq<char>) -> Option<Seq<u8>>;

/// The standard, padded base64 text of a byte string.
pub uninterp spec fn base64_text(bytes: Seq<u8>) -> Seq<char>;

/// The bytes that a standard base64 text stands for, or `None`.
pub uninterp spec fn base64_bytes(text: Seq<char>) -> Option<Seq<u8>>;

/// The canonical text of a 32-byte address.
pub uninterp spec fn address_text(bytes: Seq<u8>) -> Seq<char>;

/// The 32 bytes that an address text names, or `None`.
pub uninterp spec fn address_bytes(text: Seq<char>) -> Option<Seq<u8>>;

/// The ed25519 public key derived from a 32-byte secret seed.
pub uninterp spec fn ed25519_public_of(seed: Seq<u8>) -> Seq<u8>;

/// The deterministic ed25519 signature of a message under a secret seed.
pub uninterp spec fn ed25519_signature(seed: Seq<u8>, message: Seq<u8>) -> Seq<u8>;

/// Whether a signature is valid for a message under a public key
/// (strict ed25519 verification).
pub uninterp spec fn ed25519_verifies(public: Seq<u8>, message: Seq<u8>, signature: Seq<u8>) -> bool;

/// Relies on `bs58::encode(..).into_string()`: the base58 text of the bytes
/// (never empty for non-empty bytes: a `1` per leading zero byte and digits
/// for the rest), which `bs58::decode` maps back to the same bytes.
#[verifier::external_body]
pub(crate) fn bs58_encode(bytes: &[u8]) -> (r: String)
    ensures
        r@ == base58_text(bytes@),
        bytes@.len() > 0 ==> r@.len() > 0,
        base58_bytes(r@) == Some(bytes@),
{
    bs58::encode(bytes).into_string()
}

/// Relies on `bs58::decode(..).into_vec()`: the decoded bytes, or `None` where
/// the text holds a character outside the base58 alphabet; empty text
/// decodes to no bytes.
#[verifier::external_body]
pub(crate) fn bs58_decode(text: &str) -> (r: Option<Vec<u8>>)
    ensures
        r is Some <==> base58_bytes(text@) is Some,
        r is None ==> text@.len() > 0,
        r matches Some(v) ==> (text@.len() == 0 ==> v@.len() == 0),
        r matches Some(v) ==> base58_bytes(text@) == Some(v@),
{
    bs58::decode(text).into_vec().ok()
}

/// Relies on `base64::engine::general_purpose::STANDARD.encode`: the padded
/// base64 text of the bytes, four characters for each started group of
/// three bytes (`base64::encoded_len`), which `STANDARD.decode` maps back to
/// them.
#[verifier::external_body]
pub(crate) fn base64_encode(bytes: &[u8]) -> (r: String)
    ensures
        r@ == base64_text(bytes@),
        r@.len() == 4 * ((bytes@.len() + 2) / 3),
        base64_bytes(r@) == Some(bytes@),
{
    base64::engine::general_purpose::STANDARD.encode(bytes)
}

/// Relies on `base64::engine::general_purpose::STANDARD.decode`: the decoded
/// bytes, or `None` where the text is not standard base64.
#[verifier::external_body]
pub(crate) fn base64_decode(text: &str) -> (r: Option<Vec<u8>>)
    ensures
        r is Some <==> base64_bytes(text@) is Some,
        r matches Some(v) ==> base64_bytes(text@) == Some(v@),
{
    base64::engine::general_purpose::STANDARD.decode(text).ok()
}

/// Relies on `Pubkey`'s `Display`: the base58 text of the 32 bytes (never
/// empty: at least one character per leading zero byte, and digits for the
/// rest), which `Pubkey::from_str` parses back to the same bytes.
#[verifier::external_body]
pub(crate) fn pubkey_to_text(bytes: &[u8; 32]) -> (r: String)
    ensures
        r@ == address_text(bytes@),
        r@.len() > 0,
        address_bytes(r@) == Some(bytes@),
{
    Pubkey::from(*bytes).to_string()
}

/// Relies on `Pubkey::from_str`: the 32 bytes that the text names, or `None`
/// where it is not base58 or does not decode to exactly 32 bytes.
#[verifier::external_body]
pub(crate) fn pubkey_from_text(text: &str) -> (r: Option<[u8; 32]>)
    ensures
        r is Some <==> address_bytes(text@) is Some,
        r matches Some(a) ==> address_bytes(text@) == Some(a@),
{
    text.parse::<Pubkey>().ok().map(Pubkey::to_bytes)
}

/// Relies on `Keypair::from_bytes`: it accepts exactly 64 bytes whose last 32
/// are the public key derived from the first 32.
#[verifier::external_body]
pub(crate) fn keypair_bytes_valid(bytes: &[u8]) -> (r: bool)
    ensures
        r == (bytes@.len() == 64 && bytes@.subrange(32, 64) == ed25519_public_of(
            bytes@.subrange(0, 32),
        )),
{
    #[allow(deprecated)]
    Keypair::from_bytes(bytes).is_ok()
}

/// Relies on `Keypair::new` and `Keypair::to_bytes`: a fresh random seed
/// followed by the public key derived from it.
#[verifier::external_body]
pub(crate) fn random_keypair_bytes() -> (r: [u8; 64])
    ensures
        r@.subrange(32, 64) == ed25519_public_of(r@.subrange(0, 32)),
{
    Keypair::new().to_bytes()
}

/// Relies on `Signer::try_sign_message` of the `Keypair` built from the seed
/// with `Keypair::new_from_array`: for a `Keypair` it always returns `Ok`
/// with the deterministic ed25519 signature of the message, which verifies
/// under the public key derived from the seed.
#[verifier::external_body]
pub(crate) fn sign_with_seed(seed: &[u8; 32], message: &[u8]) -> (r: Option<[u8; 64]>)
    ensures
        r is Some,
        r matches Some(s) ==> s@ == ed25519_signature(seed@, message@) && ed25519_verifies(
            ed25519_public_of(seed@),
            message@,
            s@,
        ),
{
    Keypair::new_from_array(*seed).try_sign_message(message).ok().map(<[u8; 64]>::from)
}

/// Relies on `Signature::verify`: strict ed25519 verification of the
/// signature over the message under the public key.
#[verifier::external_body]
pub(crate) fn verify_with_public(signature: &[u8; 64], public: &[u8; 32], message: &[u8]) -> (r: bool)
    ensures
        r == ed25519_verifies(public@, message@, signature@),
{
    Signature::from(*signature).verify(public, message)
}

} // verus!
