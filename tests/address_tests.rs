use solana_http::address::{decode_address, encode_address, Address};
use solana_http::error::{AddressField, CoreError, SignatureFault};
use solana_http::instruction::{program_id, Program, SYSTEM_PROGRAM_ID, TOKEN_PROGRAM_ID};
use solana_http::keys::generate;

#[test]
fn token_program_id_text() {
    let a = program_id(Program::Token);
    assert_eq!(a.bytes, TOKEN_PROGRAM_ID);
    assert_eq!(encode_address(&a), "TokenkegQfeZyiNwAJbNbGKPFXCWuBvf9Ss623VQ5DA");
}

#[test]
fn system_program_id_text() {
    let a = program_id(Program::System);
    assert_eq!(a.bytes, SYSTEM_PROGRAM_ID);
    assert_eq!(encode_address(&a), "11111111111111111111111111111112");
}

#[test]
fn address_round_trip() {
    for _ in 0..8 {
        let a = generate().address();
        let text = encode_address(&a);
        assert_eq!(decode_address(&text).unwrap(), a);
    }
    let zero = Address::from_bytes([0u8; 32]);
    assert_eq!(encode_address(&zero), "11111111111111111111111111111111");
    assert_eq!(decode_address(&encode_address(&zero)).unwrap(), zero);
}

#[test]
fn known_address_decodes() {
    let a = decode_address("TokenkegQfeZyiNwAJbNbGKPFXCWuBvf9Ss623VQ5DA").unwrap();
    assert_eq!(a.to_bytes(), TOKEN_PROGRAM_ID);
}

#[test]
fn address_outside_alphabet_is_invalid() {
    assert_eq!(decode_address("0OIl0OIl").unwrap_err(), CoreError::InvalidAddress(AddressField::PublicKey));
}

#[test]
fn address_of_wrong_length_is_invalid() {
    assert_eq!(decode_address("abc").unwrap_err(), CoreError::InvalidAddress(AddressField::PublicKey));
    let long = bs58::encode([7u8; 33]).into_string();
    assert_eq!(decode_address(&long).unwrap_err(), CoreError::InvalidAddress(AddressField::PublicKey));
    assert_eq!(decode_address("").unwrap_err(), CoreError::InvalidAddress(AddressField::PublicKey));
}

#[test]
fn addresses_compare_by_bytes() {
    let a = Address::from_bytes([3u8; 32]);
    let mut other = [3u8; 32];
    assert_eq!(a, Address::from_bytes(other));
    other[31] = 4;
    assert_ne!(a, Address::from_bytes(other));
}

#[test]
fn error_messages() {
    assert_eq!(CoreError::MissingField.message(), "Missing required fields");
    assert_eq!(CoreError::InvalidAmount.message(), "Amount must be greater than 0");
    assert_eq!(
        CoreError::InvalidSignature(SignatureFault::Length).message(),
        "Invalid signature"
    );
    assert_eq!(
        CoreError::InvalidSignature(SignatureFault::Format).message(),
        "Invalid signature format"
    );
    assert_eq!(
        CoreError::InvalidAddress(AddressField::PublicKey).message(),
        "Invalid public key"
    );
    assert_eq!(
        CoreError::InvalidAddress(AddressField::Sender).message(),
        "Invalid sender address"
    );
    assert_eq!(
        CoreError::InvalidAddress(AddressField::Recipient).message(),
        "Invalid recipient address"
    );
    assert_eq!(CoreError::SameAddress.message(), "Cannot send SOL to the same address");
    assert_eq!(CoreError::InvalidEncoding.message(), "Invalid secret key format");
    assert_eq!(CoreError::InvalidKey.message(), "Invalid secret key");
    assert_eq!(CoreError::SigningFailure.message(), "Failed to sign message");
}
