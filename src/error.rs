use vstd::prelude::*;

verus! {

/// Which address field of a request failed to name an address.
#[derive(Clone, Copy, Debug, PartialEq, Eq, Structural)]
pub enum AddressField {
    /// A public key or account address with no more specific role.
    PublicKey,
    /// The sending side of a native transfer.
    Sender,
    /// The receiving side of a native transfer.
    Recipient,
}

/// How a signature text failed.
#[derive(Clone, Copy, Debug, PartialEq, Eq, Structural)]
pub enum SignatureFault {
    /// The text is not standard base64.
    Format,
    /// The text decodes, but not to 64 bytes.
    Length,
}

/// The ways an operation of this library can refuse its input.
#[derive(Clone, Copy, Debug, PartialEq, Eq, Structural)]
pub enum CoreError {
    /// A required text field is empty.
    MissingField,
    /// Text that is not valid base58, or that decodes to the wrong length.
    InvalidEncoding,
    /// Key bytes whose public half is not derived from their secret seed.
    InvalidKey,
    /// Text that does not name a 32-byte address, in the given field.
    InvalidAddress(AddressField),
    /// Text that does not hold a 64-byte signature in base64.
    InvalidSignature(SignatureFault),
    /// An amount that must be positive is zero.
    InvalidAmount,
    /// Source and destination are the same address.
    SameAddress,
    /// The signing primitive produced no signature.
    SigningFailure,
}

impl CoreError {
    /// A short message for the error, as a response would carry it.
    pub fn message(&self) -> (r: &'static str)
        ensures
            *self == CoreError::MissingField ==> r@ == "Missing required fields"@,
            *self == CoreError::InvalidEncoding ==> r@ == "Invalid secret key format"@,
            *self == CoreError::InvalidKey ==> r@ == "Invalid secret key"@,
            *self == CoreError::InvalidAddress(AddressField::PublicKey) ==> r@
                == "Invalid public key"@,
            *self == CoreError::InvalidAddress(AddressField::Sender) ==> r@
                == "Invalid sender address"@,
            *self == CoreError::InvalidAddress(AddressField::Recipient) ==> r@
                == "Invalid recipient address"@,
            *self == CoreError::InvalidSignature(SignatureFault::Format) ==> r@
                == "Invalid signature format"@,
            *self == CoreError::InvalidSignature(SignatureFault::Length) ==> r@
                == "Invalid signature"@,
            *self == CoreError::InvalidAmount ==> r@ == "Amount must be greater than 0"@,
            *self == CoreError::SameAddress ==> r@ == "Cannot send SOL to the same address"@,
            *self == CoreError::SigningFailure ==> r@ == "Failed to sign message"@,
    {
        match self {
            CoreError::MissingField => "Missing required fields",
            CoreError::InvalidEncoding => "Invalid secret key format",
            CoreError::InvalidKey => "Invalid secret key",
            CoreError::InvalidAddress(AddressField::PublicKey) => "Invalid public key",
            CoreError::InvalidAddress(AddressField::Sender) => "Invalid sender address",
            CoreError::InvalidAddress(AddressField::Recipient) => "Invalid recipient address",
            CoreError::InvalidSignature(SignatureFault::Format) => "Invalid signature format",
            CoreError::InvalidSignature(SignatureFault::Length) => "Invalid signature",
            CoreError::InvalidAmount => "Amount must be greater than 0",
            CoreError::SameAddress => "Cannot send SOL to the same address",
            CoreError::SigningFailure => "Failed to sign message",
        }
    }
}

} // verus!
