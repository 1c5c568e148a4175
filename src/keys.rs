//! Ed25519 keypairs, detached signatures over byte messages, and their checks.
use solana_sdk::signer::Signer as _;
use vstd::prelude::*;
use vstd::string::StringSliceAdditionalSpecFns;

use crate::codec::{
    base58_decoded, base58_text, base64_decoded, base64_text, decode_base58, decode_base64, encode_base58,
    encode_base64,
};
use crate::error::CoreError;

verus! {

/// Whether `solana_sdk`'s `Keypair::from_bytes` accepts 64 bytes: a secret seed
/// followed by the public key derived from it.
pub uninterp spec fn keypair_accepted(b: Seq<u8>) -> bool;

/// The Ed25519 signature that keypair bytes `kp` make over message `m`.
pub uninterp spec fn ed25519_signature(kp: Seq<u8>, m: Seq<u8>) -> Seq<u8>;

/// Whether `ed25519_dalek` accepts `sig` as a signature over `m` by public key `pk`.
pub uninterp spec fn ed25519_accepts(pk: Seq<u8>, m: Seq<u8>, sig: Seq<u8>) -> bool;

/// The keypair bytes that `solana_sdk`'s `keypair_from_seed` builds from a
/// 32-byte seed: the seed, then the public key derived from it.
pub uninterp spec fn keypair_of_seed(seed: Seq<u8>) -> Seq<u8>;

#[verifier::external_type_specification]
#[verifier::external_body]
pub struct ExSignatureError(ed25519_dalek::SignatureError);

/// The public half of keypair bytes: the last 32 of the 64.
pub open spec fn public_half(kp: Seq<u8>) -> Seq<u8> {
    kp.subrange(32, 64)
}

/// Keypair bytes that the signing library accepts, and whose signatures, over
/// any message, are 64 bytes long and verify under their public half.
pub open spec fn keypair_valid(kp: Seq<u8>) -> bool {
    &&& kp.len() == 64
    &&& keypair_accepted(kp)
    &&& forall|m: Seq<u8>|
        #![trigger ed25519_signature(kp, m)]
        ed25519_signature(kp, m).len() == 64 && ed25519_accepts(public_half(kp), m, ed25519_signature(kp, m))
}

/// Relies on `solana_sdk`'s `Keypair::new`, which draws its secret seed from
/// the operating system's random source; only those 32 bytes are kept.
#[verifier::external_body]
fn random_seed() -> (r: Vec<u8>)
    ensures
        r@.len() == 32,
{
    solana_sdk::signature::Keypair::new().secret().to_bytes().to_vec()
}

/// Relies on `solana_sdk::signer::keypair::keypair_from_seed`, which keeps the
/// seed as the secret half and derives the public half from it.
#[verifier::external_body]
fn keypair_bytes_from_seed(seed: &[u8]) -> (r: Vec<u8>)
    requires
        seed@.len() == 32,
    ensures
        r@ == keypair_of_seed(seed@),
        r@.subrange(0, 32) == seed@,
        keypair_valid(r@),
{
    solana_sdk::signer::keypair::keypair_from_seed(seed).unwrap().to_bytes().to_vec()
}

/// Relies on `solana_sdk`'s `Keypair::from_bytes`, which takes exactly 64 bytes
/// whose public half decompresses and equals the key derived from the secret half.
#[verifier::external_body]
fn keypair_from_bytes(b: &[u8]) -> (r: Result<Vec<u8>, ed25519_dalek::SignatureError>)
    ensures
        match r {
            Ok(v) => v@ == b@ && keypair_accepted(b@) && keypair_valid(v@),
            Err(_) => !keypair_accepted(b@),
        },
{
    solana_sdk::signature::Keypair::from_bytes(b).map(|k| k.to_bytes().to_vec())
}

/// Relies on `solana_sdk`'s `Keypair::sign_message`, a deterministic Ed25519 signature.
#[verifier::external_body]
fn ed25519_sign(kp: &[u8], m: &[u8]) -> (r: Vec<u8>)
    requires
        keypair_accepted(kp@),
    ensures
        r@ == ed25519_signature(kp@, m@),
{
    solana_sdk::signature::Keypair::from_bytes(kp).unwrap().sign_message(m).as_ref().to_vec()
}

/// Relies on `ed25519_dalek`'s `PublicKey::from_bytes`, `Signature::from_bytes`
/// and `Verifier::verify`; a key or a signature that they refuse counts as a mismatch.
#[verifier::external_body]
fn ed25519_verify(pk: &[u8], m: &[u8], sig: &[u8]) -> (r: bool)
    requires
        pk@.len() == 32,
        sig@.len() == 64,
    ensures
        r == ed25519_accepts(pk@, m@, sig@),
{
    match (ed25519_dalek::PublicKey::from_bytes(pk), ed25519_dalek::Signature::from_bytes(sig)) {
        (Ok(p), Ok(s)) => ed25519_dalek::Verifier::verify(&p, m, &s).is_ok(),
        _ => false,
    }
}

/// An Ed25519 keypair: a 32-byte secret seed followed by its 32-byte public key.
pub struct Keypair {
    bytes: Vec<u8>,
}

impl View for Keypair {
    type V = Seq<u8>;

    closed spec fn view(&self) -> Seq<u8> {
        self.bytes@
    }
}

/// What keypair bytes `b` give: the error that refuses them, or the keypair.
pub open spec fn keypair_outcome(b: Seq<u8>) -> Result<Seq<u8>, CoreError> {
    if b.len() != 64 {
        Err(CoreError::InvalidSecretLength)
    } else if !keypair_accepted(b) {
        Err(CoreError::InvalidKeypair)
    } else {
        Ok(b)
    }
}

/// What an encoded secret gives: its base58 decoding, checked as keypair bytes.
pub open spec fn parse_secret_outcome(s: Seq<char>) -> Result<Seq<u8>, CoreError> {
    match base58_decoded(s) {
        None => Err(CoreError::InvalidSecretEncoding),
        Some(b) => keypair_outcome(b),
    }
}

impl Keypair {
    /// The bytes form a keypair that signs and verifies consistently.
    pub open spec fn wf(&self) -> bool {
        keypair_valid(self@)
    }

    /// A fresh keypair, built from a seed drawn from a cryptographically
    /// secure random source.
    pub fn generate() -> (r: Keypair)
        ensures
            r.wf(),
            r@ == keypair_of_seed(r@.subrange(0, 32)),
    {
        let seed = random_seed();
        Keypair { bytes: keypair_bytes_from_seed(seed.as_slice()) }
    }

    /// The keypair whose secret half is `seed`, for callers that supply their
    /// own randomness; a seed that is not 32 bytes is `InvalidSecretLength`.
    pub fn from_seed(seed: &[u8]) -> (r: Result<Keypair, CoreError>)
        ensures
            match r {
                Ok(k) => seed@.len() == 32 && k.wf() && k@ == keypair_of_seed(seed@) && k@.subrange(0, 32) == seed@,
                Err(e) => seed@.len() != 32 && e == CoreError::InvalidSecretLength,
            },
    {
        if seed.len() != 32 {
            return Err(CoreError::InvalidSecretLength);
        }
        Ok(Keypair { bytes: keypair_bytes_from_seed(seed) })
    }

    /// The keypair that 64 bytes (seed, then public key) stand for. Any other
    /// length is `InvalidSecretLength`; a public half that is not derived from
    /// the seed is `InvalidKeypair`.
    pub fn from_bytes(b: &[u8]) -> (r: Result<Keypair, CoreError>)
        ensures
            match r {
                Ok(k) => k.wf() && keypair_outcome(b@) == Ok::<Seq<u8>, CoreError>(k@),
                Err(e) => keypair_outcome(b@) == Err::<Seq<u8>, CoreError>(e),
            },
    {
        if b.len() != 64 {
            return Err(CoreError::InvalidSecretLength);
        }
        match keypair_from_bytes(b) {
            Ok(v) => Ok(Keypair { bytes: v }),
            Err(_) => Err(CoreError::InvalidKeypair),
        }
    }

    /// The 32-byte public key.
    pub fn public_key(&self) -> (r: Vec<u8>)
        requires
            self.wf(),
        ensures
            r@ == public_half(self@),
    {
        let mut r: Vec<u8> = Vec::new();
        let mut i: usize = 32;
        while i < 64
            invariant
                self.wf(),
                32 <= i <= 64,
                r@ == self@.subrange(32, i as int),
            decreases 64 - i,
        {
            r.push(self.bytes[i]);
            i = i + 1;
            proof {
                assert(r@ =~= self@.subrange(32, i as int));
            }
        }
        r
    }

    /// The 64 bytes: seed, then public key.
    pub fn to_bytes(&self) -> (r: Vec<u8>)
        ensures
            r@ == self@,
    {
        self.bytes.clone()
    }

    /// The public key in base58.
    pub fn pubkey_text(&self) -> (r: String)
        requires
            self.wf(),
        ensures
            r@ == base58_text(public_half(self@)),
            base58_decoded(r@) == Some(public_half(self@)),
    {
        let p = self.public_key();
        encode_base58(p.as_slice())
    }

    /// The 64 keypair bytes in base58, the form that `parse_secret` reads.
    pub fn secret_text(&self) -> (r: String)
        ensures
            r@ == base58_text(self@),
            base58_decoded(r@) == Some(self@),
    {
        encode_base58(self.bytes.as_slice())
    }
}

/// The keypair that a base58 secret stands for: `InvalidSecretEncoding` where
/// the text is not base58, then as `Keypair::from_bytes`.
pub fn parse_secret(encoded: &str) -> (r: Result<Keypair, CoreError>)
    ensures
        match r {
            Ok(k) => k.wf() && parse_secret_outcome(encoded@) == Ok::<Seq<u8>, CoreError>(k@),
            Err(e) => parse_secret_outcome(encoded@) == Err::<Seq<u8>, CoreError>(e),
        },
{
    match decode_base58(encoded) {
        Ok(b) => Keypair::from_bytes(b.as_slice()),
        Err(_) => Err(CoreError::InvalidSecretEncoding),
    }
}

/// The detached signature of `message` by `keypair`: 64 bytes, the same for
/// the same keypair and message.
pub fn sign(message: &[u8], keypair: &Keypair) -> (r: Vec<u8>)
    requires
        keypair.wf(),
    ensures
        r@ == ed25519_signature(keypair@, message@),
        r@.len() == 64,
{
    let r = ed25519_sign(keypair.bytes.as_slice(), message);
    proof {
        assert(ed25519_signature(keypair@, message@).len() == 64);
    }
    r
}

/// What `verify` returns: an error for a public key that is not 32 bytes, then
/// for a signature that is not 64 bytes, else whether the signature holds.
pub open spec fn verify_outcome(m: Seq<u8>, sig: Seq<u8>, pk: Seq<u8>) -> Result<bool, CoreError> {
    if pk.len() != 32 {
        Err(CoreError::InvalidPublicKeyLength)
    } else if sig.len() != 64 {
        Err(CoreError::InvalidSignatureLength)
    } else {
        Ok(ed25519_accepts(pk, m, sig))
    }
}

/// Checks a detached signature over `message` by `public_key`. Malformed
/// lengths are errors; a signature that does not hold is `Ok(false)`.
pub fn verify(message: &[u8], signature: &[u8], public_key: &[u8]) -> (r: Result<bool, CoreError>)
    ensures
        r == verify_outcome(message@, signature@, public_key@),
{
    if public_key.len() != 32 {
        return Err(CoreError::InvalidPublicKeyLength);
    }
    if signature.len() != 64 {
        return Err(CoreError::InvalidSignatureLength);
    }
    Ok(ed25519_verify(public_key, message, signature))
}

/// A signature made with a valid keypair verifies under that keypair's public
/// key, whatever the message.
pub proof fn lemma_signature_verifies(kp: Seq<u8>, m: Seq<u8>)
    requires
        keypair_valid(kp),
    ensures
        verify_outcome(m, ed25519_signature(kp, m), public_half(kp)) == Ok::<bool, CoreError>(true),
{
    assert(ed25519_signature(kp, m).len() == 64);
}

/// A public key that is not 32 bytes, or a signature that is not 64 bytes,
/// makes `verify` report an error rather than a verdict.
pub proof fn lemma_malformed_lengths_are_errors(m: Seq<u8>, sig: Seq<u8>, pk: Seq<u8>)
    requires
        pk.len() != 32 || sig.len() != 64,
    ensures
        verify_outcome(m, sig, pk) is Err,
{
}

/// A keypair in text form: the public key and the 64 keypair bytes, both base58.
pub struct EncodedKeypair {
    pub pubkey: String,
    pub secret: String,
}

/// `pubkey` and `secret` are the base58 texts of the public half and of the
/// whole of valid keypair bytes `kp`, and decode back to them.
pub open spec fn encoded_keypair_of(kp: Seq<u8>, pubkey: Seq<char>, secret: Seq<char>) -> bool {
    &&& keypair_valid(kp)
    &&& pubkey == base58_text(public_half(kp))
    &&& secret == base58_text(kp)
    &&& base58_decoded(pubkey) == Some(public_half(kp))
    &&& base58_decoded(secret) == Some(kp)
}

/// The keypair that a 32-byte `seed` gives, in text form: the public key and
/// the 64 keypair bytes, both base58. Other seed lengths are `InvalidSecretLength`.
pub fn encode_keypair_from_seed(seed: &[u8]) -> (r: Result<EncodedKeypair, CoreError>)
    ensures
        match r {
            Ok(e) => seed@.len() == 32 && keypair_of_seed(seed@).subrange(0, 32) == seed@
                && encoded_keypair_of(keypair_of_seed(seed@), e.pubkey@, e.secret@),
            Err(err) => seed@.len() != 32 && err == CoreError::InvalidSecretLength,
        },
{
    let k = Keypair::from_seed(seed)?;
    Ok(EncodedKeypair { pubkey: k.pubkey_text(), secret: k.secret_text() })
}

/// A fresh keypair, in text form, from a seed drawn from a cryptographically
/// secure random source.
pub fn generate_keypair() -> (r: EncodedKeypair)
    ensures
        exists|seed: Seq<u8>|
            seed.len() == 32 && keypair_of_seed(seed).subrange(0, 32) == seed
                && encoded_keypair_of(#[trigger] keypair_of_seed(seed), r.pubkey@, r.secret@),
{
    let k = Keypair::generate();
    let r = EncodedKeypair { pubkey: k.pubkey_text(), secret: k.secret_text() };
    assert(encoded_keypair_of(keypair_of_seed(k@.subrange(0, 32)), r.pubkey@, r.secret@));
    r
}

/// A message signed with an encoded secret: the signature in base64, the
/// signer's public key in base58, and the message itself.
pub struct SignedMessage {
    pub signature: String,
    pub public_key: String,
    pub message: String,
}

/// Signs the bytes of `message` with the keypair that `secret` encodes.
pub fn sign_message(message: &str, secret: &str) -> (r: Result<SignedMessage, CoreError>)
    ensures
        match r {
            Ok(s) => exists|kp: Seq<u8>|
                {
                    &&& parse_secret_outcome(secret@) == Ok::<Seq<u8>, CoreError>(kp)
                    &&& keypair_valid(kp)
                    &&& s.signature@ == base64_text(ed25519_signature(kp, message.spec_bytes()))
                    &&& base64_decoded(s.signature@) == Some(ed25519_signature(kp, message.spec_bytes()))
                    &&& s.public_key@ == base58_text(public_half(kp))
                    &&& base58_decoded(s.public_key@) == Some(public_half(kp))
                    &&& s.message@ == message@
                },
            Err(e) => parse_secret_outcome(secret@) == Err::<Seq<u8>, CoreError>(e),
        },
{
    let k = parse_secret(secret)?;
    let sig = sign(message.as_bytes(), &k);
    Ok(SignedMessage {
        signature: encode_base64(sig.as_slice()),
        public_key: k.pubkey_text(),
        message: message.to_owned(),
    })
}

/// What `verify_message` returns: `InvalidPublicKeyEncoding` for a public key
/// that is not base58, its length check, `InvalidSignatureEncoding` for a
/// signature that is not base64, then as `verify_outcome`.
pub open spec fn verify_message_outcome(bytes: Seq<u8>, sig: Seq<char>, pk: Seq<char>) -> Result<
    bool,
    CoreError,
> {
    match base58_decoded(pk) {
        None => Err(CoreError::InvalidPublicKeyEncoding),
        Some(p) => if p.len() != 32 {
            Err(CoreError::InvalidPublicKeyLength)
        } else {
            match base64_decoded(sig) {
                None => Err(CoreError::InvalidSignatureEncoding),
                Some(s) => verify_outcome(bytes, s, p),
            }
        },
    }
}

/// Checks a base64 signature over the bytes of `message` by a base58 public key.
pub fn verify_message(message: &str, signature: &str, pubkey: &str) -> (r: Result<bool, CoreError>)
    ensures
        r == verify_message_outcome(message.spec_bytes(), signature@, pubkey@),
{
    let p = match decode_base58(pubkey) {
        Ok(p) => p,
        Err(_) => return Err(CoreError::InvalidPublicKeyEncoding),
    };
    if p.len() != 32 {
        return Err(CoreError::InvalidPublicKeyLength);
    }
    let s = match decode_base64(signature) {
        Ok(s) => s,
        Err(_) => return Err(CoreError::InvalidSignatureEncoding),
    };
    verify(message.as_bytes(), s.as_slice(), p.as_slice())
}

} // verus!
