//! Key pairs: a secret seed with the public key derived from it, and their
//! base58 secret text.
use crate::address::{address_outcome, encode_address, Address};
use crate::bytes::array32_at;
use crate::error::CoreError;
use crate::primitives::{
    address_text, base58_bytes, base58_text, bs58_decode, bs58_encode, ed25519_public_of, keypair_bytes_valid,
    random_keypair_bytes,
};
use vstd::prelude::*;

verus! {

/// An ed25519 key pair: a 32-byte secret seed and a 32-byte public key.
/// It has no `Debug`, so that the seed is never printed.
#[derive(Clone, Copy)]
pub struct KeyPair {
    pub secret_seed: [u8; 32],
    pub public_key: [u8; 32],
}

/// Whether 64 bytes are a seed followed by the public key derived from it.
pub open spec fn valid_keypair_bytes(bytes: Seq<u8>) -> bool {
    bytes.len() == 64 && bytes.subrange(32, 64) == ed25519_public_of(bytes.subrange(0, 32))
}

/// What decoding a secret text yields: the 64 key-pair bytes,
/// `InvalidEncoding` where the text is not base58 or not 64 bytes long, and
/// `InvalidKey` where the public half is not derived from the seed.
pub open spec fn secret_outcome(text: Seq<char>) -> Result<Seq<u8>, CoreError> {
    match base58_bytes(text) {
        None => Err(CoreError::InvalidEncoding),
        Some(b) => if b.len() != 64 {
            Err(CoreError::InvalidEncoding)
        } else if !valid_keypair_bytes(b) {
            Err(CoreError::InvalidKey)
        } else {
            Ok(b)
        },
    }
}

impl KeyPair {
    /// The public key is the one derived from the secret seed.
    pub open spec fn wf(&self) -> bool {
        self.public_key@ == ed25519_public_of(self.secret_seed@)
    }

    /// The 64 bytes of the pair: the seed, then the public key.
    pub open spec fn bytes(&self) -> Seq<u8> {
        self.secret_seed@ + self.public_key@
    }

    /// The 64 bytes of the pair: the seed, then the public key.
    pub fn to_bytes(&self) -> (r: [u8; 64])
        ensures
            r@ == self.bytes(),
    {
        let mut out = [0u8; 64];
        let mut i: usize = 0;
        while i < 32
            invariant
                i <= 32,
                out@.len() == 64,
                forall|j: int|
                    0 <= j < i ==> out@[j] == self.secret_seed@[j] && out@[j + 32]
                        == self.public_key@[j],
            decreases 32 - i,
        {
            out[i] = self.secret_seed[i];
            out[i + 32] = self.public_key[i];
            i += 1;
        }
        assert(out@ =~= self.bytes());
        out
    }

    /// The address of the pair's public key.
    pub fn address(&self) -> (r: Address)
        ensures
            r.bytes == self.public_key,
    {
        Address::from_bytes(self.public_key)
    }

    /// The pair whose 64 bytes these are.
    pub(crate) fn from_seq(bytes: &[u8]) -> (r: KeyPair)
        requires
            bytes@.len() == 64,
        ensures
            r.bytes() == bytes@,
            r.secret_seed@ == bytes@.subrange(0, 32),
            r.public_key@ == bytes@.subrange(32, 64),
    {
        let secret_seed = array32_at(bytes, 0);
        let public_key = array32_at(bytes, 32);
        assert(secret_seed@ + public_key@ =~= bytes@);
        KeyPair { secret_seed, public_key }
    }
}

/// Decoding the secret text of a key pair gives back that pair: where a
/// text decodes to the bytes of `kp` (as the text from `encode_secret(kp)`
/// does) and `decode_secret` returns `decoded` for it, `decoded` is `kp`.
pub proof fn lemma_secret_round_trip(kp: KeyPair, decoded: KeyPair, text: Seq<char>)
    requires
        secret_outcome(text) == Ok::<Seq<u8>, CoreError>(kp.bytes()),
        secret_outcome(text) == Ok::<Seq<u8>, CoreError>(decoded.bytes()),
    ensures
        decoded == kp,
{
    assert(kp.secret_seed@ =~= kp.bytes().subrange(0, 32));
    assert(decoded.secret_seed@ =~= decoded.bytes().subrange(0, 32));
    assert(kp.public_key@ =~= kp.bytes().subrange(32, 64));
    assert(decoded.public_key@ =~= decoded.bytes().subrange(32, 64));
    assert(kp.secret_seed =~= decoded.secret_seed);
    assert(kp.public_key =~= decoded.public_key);
}

/// A fresh key pair from a secure random source.
pub fn generate() -> (kp: KeyPair)
    ensures
        kp.wf(),
{
    let bytes = random_keypair_bytes();
    let kp = KeyPair::from_seq(&bytes);
    kp
}

/// The base58 text of the pair's 64 bytes. Decoding it gives back exactly
/// these 64 bytes, so the same pair.
pub fn encode_secret(kp: &KeyPair) -> (r: String)
    requires
        kp.wf(),
    ensures
        r@ == base58_text(kp.bytes()),
        r@.len() > 0,
        base58_bytes(r@) matches Some(b) && b.len() == 64,
        secret_outcome(r@) == Ok::<Seq<u8>, CoreError>(kp.bytes()),
{
    let bytes = kp.to_bytes();
    let r = bs58_encode(&bytes);
    assert(kp.bytes().subrange(0, 32) =~= kp.secret_seed@);
    assert(kp.bytes().subrange(32, 64) =~= kp.public_key@);
    r
}

/// The key pair that a base58 secret text holds.
pub fn decode_secret(text: &str) -> (r: Result<KeyPair, CoreError>)
    ensures
        match r {
            Ok(kp) => kp.wf() && secret_outcome(text@) == Ok::<Seq<u8>, CoreError>(kp.bytes()),
            Err(e) => secret_outcome(text@) == Err::<Seq<u8>, CoreError>(e),
        },
{
    let bytes = match bs58_decode(text) {
        Some(b) => b,
        None => {
            return Err(CoreError::InvalidEncoding);
        },
    };
    if bytes.len() != 64 {
        return Err(CoreError::InvalidEncoding);
    }
    if !keypair_bytes_valid(bytes.as_slice()) {
        return Err(CoreError::InvalidKey);
    }
    Ok(KeyPair::from_seq(bytes.as_slice()))
}

/// A key pair as text: its address and its base58 secret.
#[derive(Clone)]
pub struct KeyPairText {
    pub pubkey: String,
    pub secret: String,
}

/// A fresh key pair, as the text of its address and of its secret.
pub fn generate_text() -> (r: KeyPairText)
    ensures
        exists|kp: KeyPair|
            {
                &&& kp.wf()
                &&& r.pubkey@ == address_text(kp.public_key@)
                &&& r.secret@ == base58_text(kp.bytes())
                &&& r.secret@.len() > 0 && r.pubkey@.len() > 0
                &&& secret_outcome(r.secret@) == Ok::<Seq<u8>, CoreError>(kp.bytes())
                &&& address_outcome(r.pubkey@) == Ok::<Seq<u8>, CoreError>(kp.public_key@)
            },
{
    let kp = generate();
    let r = KeyPairText { pubkey: encode_address(&kp.address()), secret: encode_secret(&kp) };
    assert({
        &&& kp.wf()
        &&& r.pubkey@ == address_text(kp.public_key@)
        &&& r.secret@ == base58_text(kp.bytes())
        &&& r.secret@.len() > 0 && r.pubkey@.len() > 0
        &&& secret_outcome(r.secret@) == Ok::<Seq<u8>, CoreError>(kp.bytes())
        &&& address_outcome(r.pubkey@) == Ok::<Seq<u8>, CoreError>(kp.public_key@)
    });
    r
}

} // verus!
