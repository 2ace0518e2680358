use solana_http::address::{encode_address, Address};
use solana_http::error::{AddressField, CoreError, SignatureFault};
use solana_http::keys::{decode_secret, encode_secret, generate};
use solana_http::signing::{
    decode_signature, encode_signature, sign, sign_message, verify, verify_message, Signature,
};

fn unhex(s: &str) -> Vec<u8> {
    (0..s.len()).step_by(2).map(|i| u8::from_str_radix(&s[i..i + 2], 16).unwrap()).collect()
}

const SEED: &str = "833fe62409237b9d62ec77587520911e9a759cec1d19755b7da901b96dca3d42";
const PUBLIC: &str = "ec172b93ad5e563bf4932c70e1245034c35467ef2efd4d64ebf819683467e2bf";

fn reference_signature(message: &[u8]) -> Vec<u8> {
    let mut seed = [0u8; 32];
    seed.copy_from_slice(&unhex(SEED));
    let kp = solana_sdk::signer::keypair::Keypair::new_from_array(seed);
    solana_sdk::signer::Signer::sign_message(&kp, message).as_ref().to_vec()
}

fn known_secret_text() -> String {
    let mut b = unhex(SEED);
    b.extend(unhex(PUBLIC));
    bs58::encode(b).into_string()
}

#[test]
fn known_pair_signature_is_deterministic() {
    let kp = decode_secret(&known_secret_text()).unwrap();
    let sig = sign(&kp, b"abc").unwrap();
    assert_eq!(sig.bytes, sign(&kp, b"abc").unwrap().bytes);
    assert_eq!(sig.bytes.to_vec(), reference_signature(b"abc"));
    assert_ne!(sig.bytes, sign(&kp, b"abd").unwrap().bytes);
    assert!(verify(&kp.address(), b"abc", &sig));
}

#[test]
fn signature_of_generated_pair_verifies() {
    for message in [&b"hello"[..], b"", b"a longer message with some words in it"] {
        let kp = generate();
        let sig = sign(&kp, message).unwrap();
        assert!(verify(&kp.address(), message, &sig));
    }
}

#[test]
fn signature_under_another_pair_does_not_verify() {
    let a = generate();
    let b = generate();
    let sig = sign(&b, b"transfer").unwrap();
    assert!(!verify(&a.address(), b"transfer", &sig));
}

#[test]
fn signature_over_another_message_does_not_verify() {
    let kp = generate();
    let sig = sign(&kp, b"one").unwrap();
    assert!(!verify(&kp.address(), b"two", &sig));
}

#[test]
fn flipped_signature_bit_does_not_verify() {
    let kp = generate();
    let sig = sign(&kp, b"flip").unwrap();
    for (byte, bit) in [(0usize, 0u8), (17, 3), (40, 5), (63, 6)] {
        let mut bytes = sig.bytes;
        bytes[byte] ^= 1 << bit;
        let flipped = Signature { bytes };
        assert!(!verify(&kp.address(), b"flip", &flipped));
        let text = encode_signature(&flipped);
        let pubkey = encode_address(&kp.address());
        assert_eq!(verify_message("flip", &text, &pubkey), Ok(false));
    }
}

#[test]
fn signature_text_round_trip() {
    let mut bytes = [0u8; 64];
    for (i, b) in bytes.iter_mut().enumerate() {
        *b = i as u8;
    }
    let sig = Signature { bytes };
    let text = encode_signature(&sig);
    assert_eq!(&text[..8], "AAECAwQF");
    assert_eq!(decode_signature(&text).unwrap().bytes, bytes);
}

#[test]
fn signature_text_not_base64_is_invalid() {
    assert_eq!(
        decode_signature("not base64!").unwrap_err(),
        CoreError::InvalidSignature(SignatureFault::Format)
    );
}

#[test]
fn signature_text_of_wrong_length_is_invalid() {
    assert_eq!(
        decode_signature("AAk=").unwrap_err(),
        CoreError::InvalidSignature(SignatureFault::Length)
    );
}

#[test]
fn sign_message_known_vector() {
    let signed = sign_message(&known_secret_text(), "abc").unwrap();
    let expected = reference_signature(b"abc");
    let sig = decode_signature(&signed.signature).unwrap();
    assert_eq!(sig.bytes.to_vec(), expected);
    assert_eq!(encode_signature(&sig), signed.signature);
    let mut public = [0u8; 32];
    public.copy_from_slice(&unhex(PUBLIC));
    assert_eq!(signed.public_key, encode_address(&Address::from_bytes(public)));
}

#[test]
fn sign_then_verify_message() {
    let kp = generate();
    let secret = encode_secret(&kp);
    let signed = sign_message(&secret, "gm").unwrap();
    assert_eq!(verify_message("gm", &signed.signature, &signed.public_key), Ok(true));
    assert_eq!(verify_message("gn", &signed.signature, &signed.public_key), Ok(false));
}

#[test]
fn sign_message_missing_fields() {
    assert_eq!(sign_message("", "gm").unwrap_err(), CoreError::MissingField);
    assert_eq!(sign_message(&known_secret_text(), "").unwrap_err(), CoreError::MissingField);
}

#[test]
fn sign_message_bad_secret() {
    assert_eq!(sign_message("0OIl", "gm").unwrap_err(), CoreError::InvalidEncoding);
}

#[test]
fn verify_message_errors() {
    let kp = generate();
    let sig = encode_signature(&sign(&kp, b"gm").unwrap());
    let pubkey = encode_address(&kp.address());
    assert_eq!(verify_message("", &sig, &pubkey), Err(CoreError::MissingField));
    assert_eq!(verify_message("gm", "", &pubkey), Err(CoreError::MissingField));
    assert_eq!(verify_message("gm", &sig, ""), Err(CoreError::MissingField));
    assert_eq!(verify_message("gm", &sig, "0OIl"), Err(CoreError::InvalidAddress(AddressField::PublicKey)));
    assert_eq!(
        verify_message("gm", "AAk=", &pubkey),
        Err(CoreError::InvalidSignature(SignatureFault::Length))
    );
    assert_eq!(
        verify_message("gm", "###", &pubkey),
        Err(CoreError::InvalidSignature(SignatureFault::Format))
    );
}

#[test]
fn verify_message_signature_not_base64_is_format_error() {
    let pubkey = "So11111111111111111111111111111111111111112";
    let err = verify_message("hello", "!!!!", pubkey).unwrap_err();
    assert_eq!(err, CoreError::InvalidSignature(SignatureFault::Format));
    assert_eq!(err.message(), "Invalid signature format");
}
