use solana_http::address::{decode_address, encode_address};
use solana_http::error::CoreError;
use solana_http::keys::{decode_secret, encode_secret, generate, generate_text, KeyPair};
use solana_http::signing::{sign_message, verify_message};

fn hex(s: &str) -> Vec<u8> {
    (0..s.len()).step_by(2).map(|i| u8::from_str_radix(&s[i..i + 2], 16).unwrap()).collect()
}

const SEED: &str = "833fe62409237b9d62ec77587520911e9a759cec1d19755b7da901b96dca3d42";
const PUBLIC: &str = "ec172b93ad5e563bf4932c70e1245034c35467ef2efd4d64ebf819683467e2bf";

fn known_pair_bytes() -> Vec<u8> {
    let mut b = hex(SEED);
    b.extend(hex(PUBLIC));
    b
}

#[test]
fn secret_round_trip_of_generated_pairs() {
    for _ in 0..8 {
        let kp = generate();
        let text = encode_secret(&kp);
        let back = decode_secret(&text).unwrap();
        assert_eq!(back.secret_seed, kp.secret_seed);
        assert_eq!(back.public_key, kp.public_key);
    }
}

#[test]
fn encoded_secret_is_base58_of_64_bytes() {
    let kp = generate();
    let text = encode_secret(&kp);
    let decoded = bs58::decode(&text).into_vec().unwrap();
    assert_eq!(decoded.len(), 64);
    assert_eq!(&decoded[..32], &kp.secret_seed[..]);
    assert_eq!(&decoded[32..], &kp.public_key[..]);
}

#[test]
fn known_secret_text_decodes_to_known_pair() {
    let text = bs58::encode(known_pair_bytes()).into_string();
    let kp = decode_secret(&text).unwrap();
    assert_eq!(kp.secret_seed.to_vec(), hex(SEED));
    assert_eq!(kp.public_key.to_vec(), hex(PUBLIC));
    assert_eq!(encode_secret(&kp), text);
    assert_eq!(kp.to_bytes().to_vec(), known_pair_bytes());
}

#[test]
fn secret_that_is_not_base58_is_invalid_encoding() {
    assert_eq!(decode_secret("0OIl").err(), Some(CoreError::InvalidEncoding));
}

#[test]
fn empty_secret_is_invalid_encoding() {
    assert_eq!(decode_secret("").err(), Some(CoreError::InvalidEncoding));
}

#[test]
fn secret_of_wrong_length_is_invalid_encoding() {
    let short = bs58::encode(hex(SEED)).into_string();
    assert_eq!(decode_secret(&short).err(), Some(CoreError::InvalidEncoding));
    let mut long = known_pair_bytes();
    long.push(0);
    let long = bs58::encode(long).into_string();
    assert_eq!(decode_secret(&long).err(), Some(CoreError::InvalidEncoding));
}

#[test]
fn secret_with_foreign_public_key_is_invalid_key() {
    let mut b = hex(SEED);
    b.extend(generate().public_key);
    let text = bs58::encode(b).into_string();
    assert_eq!(decode_secret(&text).err(), Some(CoreError::InvalidKey));
}

#[test]
fn generated_pairs_differ() {
    let a = generate();
    let b = generate();
    assert_ne!(a.secret_seed, b.secret_seed);
}

#[test]
fn generated_text_names_the_pair() {
    let t = generate_text();
    let kp: KeyPair = decode_secret(&t.secret).unwrap();
    let addr = decode_address(&t.pubkey).unwrap();
    assert_eq!(addr.bytes, kp.public_key);
    assert_eq!(encode_address(&kp.address()), t.pubkey);
}

#[test]
fn generated_text_signs_and_verifies() {
    let t = generate_text();
    let decoded = bs58::decode(&t.secret).into_vec().unwrap();
    assert_eq!(decoded.len(), 64);
    assert_eq!(bs58::encode(&decoded[32..]).into_string(), t.pubkey);
    let signed = sign_message(&t.secret, "gm").unwrap();
    assert_eq!(signed.public_key, t.pubkey);
    assert_eq!(signed.signature, sign_message(&t.secret, "gm").unwrap().signature);
    assert_eq!(verify_message("gm", &signed.signature, &t.pubkey), Ok(true));
    let other = generate_text();
    assert_eq!(verify_message("gm", &signed.signature, &other.pubkey), Ok(false));
}
