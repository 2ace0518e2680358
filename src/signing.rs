//! Signatures: their base64 text, signing with a key pair and verifying
//! under a public key.
use crate::address::{address_outcome, decode_address, encode_address, Address};
use crate::bytes::array64_at;
use crate::error::{CoreError, SignatureFault};
use crate::keys::{decode_secret, secret_outcome, KeyPair};
use crate::primitives::{
    address_text, base64_bytes, base64_decode, base64_encode, base64_text, ed25519_signature,
    ed25519_verifies, sign_with_seed, verify_with_public,
};
use vstd::prelude::*;
use vstd::utf8::encode_utf8;

verus! {

/// A 64-byte ed25519 signature.
#[derive(Clone, Copy, Debug)]
pub struct Signature {
    pub bytes: [u8; 64],
}

/// What decoding a signature text yields: its 64 bytes, or
/// `InvalidSignature`, with `Format` where it is not base64 and `Length`
/// where it does not decode to 64 bytes.
pub open spec fn signature_outcome(text: Seq<char>) -> Result<Seq<u8>, CoreError> {
    match base64_bytes(text) {
        Some(b) => if b.len() == 64 {
            Ok(b)
        } else {
            Err(CoreError::InvalidSignature(SignatureFault::Length))
        },
        None => Err(CoreError::InvalidSignature(SignatureFault::Format)),
    }
}

/// The base64 text of a signature. Decoding it gives back the same bytes.
pub fn encode_signature(signature: &Signature) -> (r: String)
    ensures
        r@ == base64_text(signature.bytes@),
        r@.len() == 88,
        signature_outcome(r@) == Ok::<Seq<u8>, CoreError>(signature.bytes@),
{
    base64_encode(&signature.bytes)
}

/// The signature that a base64 text holds.
pub fn decode_signature(text: &str) -> (r: Result<Signature, CoreError>)
    ensures
        match r {
            Ok(s) => signature_outcome(text@) == Ok::<Seq<u8>, CoreError>(s.bytes@),
            Err(e) => signature_outcome(text@) == Err::<Seq<u8>, CoreError>(e),
        },
{
    let bytes = match base64_decode(text) {
        Some(b) => b,
        None => {
            return Err(CoreError::InvalidSignature(SignatureFault::Format));
        },
    };
    if bytes.len() != 64 {
        return Err(CoreError::InvalidSignature(SignatureFault::Length));
    }
    let arr = array64_at(bytes.as_slice(), 0);
    assert(arr@ =~= bytes@);
    Ok(Signature { bytes: arr })
}

/// The ed25519 signature of the raw message bytes under the key pair. It
/// verifies under the pair's public key. A well-formed pair always signs;
/// `SigningFailure` would come only from a primitive that gave no signature.
pub fn sign(kp: &KeyPair, message: &[u8]) -> (r: Result<Signature, CoreError>)
    requires
        kp.wf(),
    ensures
        r is Ok,
        match r {
            Ok(s) => s.bytes@ == ed25519_signature(kp.secret_seed@, message@) && ed25519_verifies(
                kp.public_key@,
                message@,
                s.bytes@,
            ),
            Err(e) => e == CoreError::SigningFailure,
        },
{
    match sign_with_seed(&kp.secret_seed, message) {
        Some(bytes) => Ok(Signature { bytes }),
        None => Err(CoreError::SigningFailure),
    }
}

/// Whether the signature is valid for the message under the public key.
pub fn verify(public_key: &Address, message: &[u8], signature: &Signature) -> (r: bool)
    ensures
        r == ed25519_verifies(public_key.bytes@, message@, signature.bytes@),
{
    verify_with_public(&signature.bytes, &public_key.bytes, message)
}

/// A signed message as text: the base64 signature and the signer's address.
#[derive(Clone, Debug)]
pub struct SignedMessage {
    pub signature: String,
    pub public_key: String,
}

/// Signs the UTF-8 bytes of `message` with the key pair whose base58 secret
/// text is `secret`.
pub fn sign_message(secret: &str, message: &str) -> (r: Result<SignedMessage, CoreError>)
    ensures
        message@.len() == 0 || secret@.len() == 0 ==> r == Err::<SignedMessage, CoreError>(
            CoreError::MissingField,
        ),
        message@.len() > 0 && secret@.len() > 0 ==> match secret_outcome(secret@) {
            Err(e) => r == Err::<SignedMessage, CoreError>(e),
            Ok(b) => match r {
                Ok(m) => {
                    &&& m.signature@ == base64_text(
                        ed25519_signature(b.subrange(0, 32), encode_utf8(message@)),
                    )
                    &&& signature_outcome(m.signature@) == Ok::<Seq<u8>, CoreError>(
                        ed25519_signature(b.subrange(0, 32), encode_utf8(message@)),
                    )
                    &&& m.public_key@ == address_text(b.subrange(32, 64))
                },
                Err(e) => e == CoreError::SigningFailure,
            },
        },
        message@.len() > 0 && secret@.len() > 0 && secret_outcome(secret@) is Ok ==> r is Ok,
        r matches Ok(m) ==> verify_outcome(message@, m.signature@, m.public_key@) == Ok::<
            bool,
            CoreError,
        >(true),
{
    if message.is_empty() || secret.is_empty() {
        return Err(CoreError::MissingField);
    }
    let kp = match decode_secret(secret) {
        Ok(kp) => kp,
        Err(e) => {
            return Err(e);
        },
    };
    proof {
        assert(kp.secret_seed@ =~= kp.bytes().subrange(0, 32));
        assert(kp.public_key@ =~= kp.bytes().subrange(32, 64));
    }
    let signature = match sign(&kp, message.as_bytes()) {
        Ok(s) => s,
        Err(e) => {
            return Err(e);
        },
    };
    Ok(SignedMessage {
        signature: encode_signature(&signature),
        public_key: encode_address(&kp.address()),
    })
}

/// What verifying a text message against a base64 signature and an address
/// text yields: `MissingField` where any is empty, then the address's error,
/// then the signature's, and otherwise whether the signature is valid.
pub open spec fn verify_outcome(message: Seq<char>, signature: Seq<char>, pubkey: Seq<char>) -> Result<
    bool,
    CoreError,
> {
    if message.len() == 0 || signature.len() == 0 || pubkey.len() == 0 {
        Err(CoreError::MissingField)
    } else {
        match address_outcome(pubkey) {
            Err(e) => Err(e),
            Ok(pk) => match signature_outcome(signature) {
                Err(e) => Err(e),
                Ok(sig) => Ok(ed25519_verifies(pk, encode_utf8(message), sig)),
            },
        }
    }
}

/// Verifies a base64 signature over the UTF-8 bytes of `message` under the
/// address that `pubkey` names.
pub fn verify_message(message: &str, signature: &str, pubkey: &str) -> (r: Result<bool, CoreError>)
    ensures
        r == verify_outcome(message@, signature@, pubkey@),
{
    if message.is_empty() || signature.is_empty() || pubkey.is_empty() {
        return Err(CoreError::MissingField);
    }
    let public_key = match decode_address(pubkey) {
        Ok(a) => a,
        Err(e) => {
            return Err(e);
        },
    };
    let sig = match decode_signature(signature) {
        Ok(s) => s,
        Err(e) => {
            return Err(e);
        },
    };
    Ok(verify(&public_key, message.as_bytes(), &sig))
}

/// Verifying a message against an address text that decodes and a signature
/// text that decodes to 64 bytes, none of them empty, never fails: whatever those 64
/// bytes are, even a valid signature with a bit flipped, the answer is a
/// boolean.
pub proof fn lemma_verify_well_formed_never_fails(
    message: Seq<char>,
    signature: Seq<char>,
    pubkey: Seq<char>,
)
    requires
        message.len() > 0,
        signature.len() > 0,
        pubkey.len() > 0,
        address_outcome(pubkey) is Ok,
        signature_outcome(signature) is Ok,
    ensures
        verify_outcome(message, signature, pubkey) is Ok,
{
}

} // verus!
