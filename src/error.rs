use vstd::prelude::*;

verus! {

/// The address parameter that failed to parse, so that a caller can tell
/// which field of a request to correct.
#[derive(Debug, Clone, Copy, PartialEq, Eq, Structural)]
pub enum AddressField {
    Mint,
    MintAuthority,
    Destination,
    Authority,
    From,
    To,
    Owner,
}

/// Every way in which a core operation can reject its input.
#[derive(Debug, Clone, Copy, PartialEq, Eq, Structural)]
pub enum CoreError {
    /// Text that is not valid base58 or base64.
    InvalidEncoding,
    /// An encoded secret that is not valid base58.
    InvalidSecretEncoding,
    /// A public key that is not valid base58.
    InvalidPublicKeyEncoding,
    /// A signature that is not valid base64.
    InvalidSignatureEncoding,
    /// Secret key material that does not decode to 64 bytes.
    InvalidSecretLength,
    /// 64 bytes whose public half is not the key derived from the secret half.
    InvalidKeypair,
    /// A public key that does not decode to 32 bytes.
    InvalidPublicKeyLength,
    /// A signature that does not decode to 64 bytes.
    InvalidSignatureLength,
    /// An address parameter that does not decode to 32 bytes of base58.
    InvalidAddress(AddressField),
    /// The instruction constructor rejected otherwise well-formed parameters.
    InstructionConstructionFailed,
}

/// The name under which an address field travels in a request.
pub open spec fn field_name(f: AddressField) -> Seq<char> {
    match f {
        AddressField::Mint => "mint"@,
        AddressField::MintAuthority => "mintAuthority"@,
        AddressField::Destination => "destination"@,
        AddressField::Authority => "authority"@,
        AddressField::From => "from"@,
        AddressField::To => "to"@,
        AddressField::Owner => "owner"@,
    }
}

/// The description of an error, naming the input and the constraint that failed.
pub open spec fn error_text(e: CoreError) -> Seq<char> {
    match e {
        CoreError::InvalidEncoding => "Invalid base58 or base64 encoding"@,
        CoreError::InvalidPublicKeyEncoding => "Invalid public key: not base58"@,
        CoreError::InvalidSignatureEncoding => "Invalid signature: not base64"@,
        CoreError::InvalidSecretEncoding => "Invalid secret key: not base58"@,
        CoreError::InvalidSecretLength => "Invalid secret key: expected 64 bytes"@,
        CoreError::InvalidKeypair => "Invalid keypair format"@,
        CoreError::InvalidPublicKeyLength => "Invalid public key: expected 32 bytes"@,
        CoreError::InvalidSignatureLength => "Invalid signature: expected 64 bytes"@,
        CoreError::InvalidAddress(f) => match f {
            AddressField::Mint => "Invalid mint public key"@,
            AddressField::MintAuthority => "Invalid mintAuthority public key"@,
            AddressField::Destination => "Invalid destination public key"@,
            AddressField::Authority => "Invalid authority public key"@,
            AddressField::From => "Invalid from public key"@,
            AddressField::To => "Invalid to public key"@,
            AddressField::Owner => "Invalid owner public key"@,
        },
        CoreError::InstructionConstructionFailed => "Failed to create instruction"@,
    }
}

impl AddressField {
    /// The name under which the field travels in a request.
    pub fn name(&self) -> (r: &'static str)
        ensures
            r@ == field_name(*self),
    {
        match self {
            AddressField::Mint => "mint",
            AddressField::MintAuthority => "mintAuthority",
            AddressField::Destination => "destination",
            AddressField::Authority => "authority",
            AddressField::From => "from",
            AddressField::To => "to",
            AddressField::Owner => "owner",
        }
    }
}

impl CoreError {
    /// A human-readable description of the input and the constraint that failed.
    pub fn describe(&self) -> (r: String)
        ensures
            r@ == error_text(*self),
    {
        match self {
            CoreError::InvalidEncoding => "Invalid base58 or base64 encoding".to_owned(),
            CoreError::InvalidPublicKeyEncoding => "Invalid public key: not base58".to_owned(),
            CoreError::InvalidSignatureEncoding => "Invalid signature: not base64".to_owned(),
            CoreError::InvalidSecretEncoding => "Invalid secret key: not base58".to_owned(),
            CoreError::InvalidSecretLength => "Invalid secret key: expected 64 bytes".to_owned(),
            CoreError::InvalidKeypair => "Invalid keypair format".to_owned(),
            CoreError::InvalidPublicKeyLength => "Invalid public key: expected 32 bytes".to_owned(),
            CoreError::InvalidSignatureLength => "Invalid signature: expected 64 bytes".to_owned(),
            CoreError::InvalidAddress(field) => match field {
                AddressField::Mint => "Invalid mint public key".to_owned(),
                AddressField::MintAuthority => "Invalid mintAuthority public key".to_owned(),
                AddressField::Destination => "Invalid destination public key".to_owned(),
                AddressField::Authority => "Invalid authority public key".to_owned(),
                AddressField::From => "Invalid from public key".to_owned(),
                AddressField::To => "Invalid to public key".to_owned(),
                AddressField::Owner => "Invalid owner public key".to_owned(),
            },
            CoreError::InstructionConstructionFailed => "Failed to create instruction".to_owned(),
        }
    }
}

} // verus!
