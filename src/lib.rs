//! Ed25519 keys, detached signatures and token-program instructions, with the
//! base58 / base64 codecs they travel in.
pub mod codec;
pub mod error;
pub mod instruction;
pub mod keys;

pub use codec::{decode_base58, decode_base64, encode_base58, encode_base64, parse_address};
pub use error::{AddressField, CoreError};
pub use instruction::{
    build_initialize_mint, build_mint_to, build_transfer_native, build_transfer_token, render, AccountMeta,
    AccountRecord, InstructionRecord, RawInstruction,
};
pub use keys::{
    encode_keypair_from_seed, generate_keypair, parse_secret, sign, sign_message, verify, verify_message, EncodedKeypair, Keypair,
    SignedMessage,
};
