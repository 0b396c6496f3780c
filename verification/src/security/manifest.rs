//! Signing and verifying manifests with ed25519.
//!
//! Keys are held as their 32-byte encodings; the curve arithmetic is done by
//! `ed25519-dalek` behind the trusted items below.

use vstd::prelude::*;
use ed25519_dalek::{Signature, Signer, SigningKey, Verifier, VerifyingKey};
use rand::rngs::OsRng;
use crate::security::hex::{encode, hex_chars, hex_text, decode_signature_bytes, signature_decodes,
    pairs_bytes, law_hex_roundtrip};
use crate::text::string_from_chars;
use vstd::utf8::encode_utf8;

verus! {

/// The public key (compressed point) that ed25519 derives from a secret key.
pub uninterp spec fn ed25519_public(secret: Seq<u8>) -> Seq<u8>;

/// The (deterministic) ed25519 signature of `msg` under `secret`.
pub uninterp spec fn ed25519_signature(secret: Seq<u8>, msg: Seq<u8>) -> Seq<u8>;

/// Whether `sig` is a valid ed25519 signature of `msg` under the public key
/// `public` (false when `public` is not a valid curve point).
pub uninterp spec fn ed25519_verifies(public: Seq<u8>, msg: Seq<u8>, sig: Seq<u8>) -> bool;

/// Whether 32 bytes decode to a valid ed25519 public key.
pub uninterp spec fn ed25519_public_valid(public: Seq<u8>) -> bool;

/// Trusted: `SigningKey::generate(&mut OsRng).to_bytes()`, a fresh random
/// secret key from the operating system's generator; its value is not stated.
#[verifier::external_body]
fn ed25519_generate_secret() -> [u8; 32] {
    SigningKey::generate(&mut OsRng).to_bytes()
}

/// Trusted: `SigningKey::from_bytes(secret).verifying_key().to_bytes()`, the
/// public key of a secret key, named [`ed25519_public`].
#[verifier::external_body]
fn ed25519_public_of(secret: &[u8; 32]) -> (r: [u8; 32])
    ensures
        r@ == ed25519_public(secret@),
{
    SigningKey::from_bytes(secret).verifying_key().to_bytes()
}

/// Trusted: `SigningKey::from_bytes(secret).sign(msg).to_bytes()`, named
/// [`ed25519_signature`]. The crate documents that a signature made by a key
/// verifies under that key's public key, which the last clause states.
#[verifier::external_body]
fn ed25519_sign(secret: &[u8; 32], msg: &[u8]) -> (r: [u8; 64])
    ensures
        r@ == ed25519_signature(secret@, msg@),
        ed25519_verifies(ed25519_public(secret@), msg@, r@),
{
    SigningKey::from_bytes(secret).sign(msg).to_bytes()
}

/// Trusted: `VerifyingKey::from_bytes(public).is_ok()`, named [`ed25519_public_valid`].
#[verifier::external_body]
fn ed25519_key_valid(public: &[u8; 32]) -> (r: bool)
    ensures
        r == ed25519_public_valid(public@),
{
    VerifyingKey::from_bytes(public).is_ok()
}

/// Trusted: decodes `public` with `VerifyingKey::from_bytes` and checks `sig`
/// with `Verifier::verify`; named [`ed25519_verifies`] (false for a key that
/// does not decode).
#[verifier::external_body]
fn ed25519_verify(public: &[u8; 32], msg: &[u8], sig: &[u8; 64]) -> (r: bool)
    ensures
        r == ed25519_verifies(public@, msg@, sig@),
{
    match VerifyingKey::from_bytes(public) {
        Ok(key) => key.verify(msg, &Signature::from_bytes(sig)).is_ok(),
        Err(_) => false,
    }
}

/// Trusted: `Signature::from_bytes(sig).to_string()`. The `Display` impl of
/// `ed25519::Signature` writes each of the 64 bytes as two upper-case hex digits.
#[verifier::external_body]
fn signature_text(sig: &[u8; 64]) -> (r: String)
    ensures
        r@ == hex_text(sig@, true),
{
    Signature::from_bytes(sig).to_string()
}

/// Error types for manifest signing.
#[derive(Debug)]
pub enum ManifestError {
    SignError(String),
    VerificationFailed,
    InvalidSignature,
    InvalidKey,
}

impl ManifestError {
    /// The error as it is displayed.
    pub fn message(&self) -> (r: String)
        ensures
            r@ == match *self {
                ManifestError::SignError(m) => "Sign error: "@ + m@,
                ManifestError::VerificationFailed => "Verification failed"@,
                ManifestError::InvalidSignature => "Invalid signature"@,
                ManifestError::InvalidKey => "Invalid key"@,
            },
    {
        match self {
            ManifestError::SignError(m) => {
                let mut r = "Sign error: ".to_string();
                r.append(m.as_str());
                r
            },
            ManifestError::VerificationFailed => "Verification failed".to_string(),
            ManifestError::InvalidSignature => "Invalid signature".to_string(),
            ManifestError::InvalidKey => "Invalid key".to_string(),
        }
    }
}

/// Signed manifest entry.
#[derive(Clone, Debug)]
pub struct SignedManifest {
    pub content: String,
    pub signature: String,
    pub public_key: String,
}

/// Signs and verifies manifests using ed25519.
pub struct ManifestSigner {
    signing_key: Option<[u8; 32]>,
    verifying_key: Option<[u8; 32]>,
}

/// `o` is `SignError` with the text `t`.
pub open spec fn is_sign_error(e: ManifestError, t: Seq<char>) -> bool {
    e matches ManifestError::SignError(m) && m@ == t
}

/// What checking `m` under the public key `pk` answers (once its signature decodes).
pub open spec fn verification_outcome(pk: Seq<u8>, m: SignedManifest) -> bool {
    ed25519_verifies(pk, encode_utf8(m.content@), pairs_bytes(m.signature@))
}

impl ManifestSigner {
    /// The secret key, when this signer can sign.
    pub closed spec fn secret(&self) -> Option<Seq<u8>> {
        match self.signing_key {
            Some(k) => Some(k@),
            None => None,
        }
    }

    /// The public key, when this signer can verify.
    pub closed spec fn public(&self) -> Option<Seq<u8>> {
        match self.verifying_key {
            Some(k) => Some(k@),
            None => None,
        }
    }

    /// A signer's public key is the one its secret key derives.
    pub closed spec fn wf(&self) -> bool {
        self.secret() is Some ==> self.public() == Some(ed25519_public(self.secret()->0))
    }

    /// Creates a signer with a freshly generated key pair.
    pub fn new() -> (r: Self)
        ensures
            r.wf(),
            r.secret() is Some,
            r.public() == Some(ed25519_public(r.secret()->0)),
    {
        let secret = ed25519_generate_secret();
        let public = ed25519_public_of(&secret);
        ManifestSigner { signing_key: Some(secret), verifying_key: Some(public) }
    }

    /// Creates a signer from an existing secret key.
    pub fn from_secret_bytes(secret: &[u8; 32]) -> (r: Result<Self, ManifestError>)
        ensures
            r matches Ok(s) && (s.wf() && s.secret() == Some(secret@)
                && s.public() == Some(ed25519_public(secret@))),
    {
        let public = ed25519_public_of(secret);
        Ok(ManifestSigner { signing_key: Some(*secret), verifying_key: Some(public) })
    }

    /// Creates a verifier from a public key; fails with `InvalidKey` when the
    /// bytes are not a valid ed25519 public key.
    pub fn from_public_key(public_bytes: &[u8; 32]) -> (r: Result<Self, ManifestError>)
        ensures
            ed25519_public_valid(public_bytes@) ==> (r matches Ok(s) && s.wf() && s.secret() is None
                && s.public() == Some(public_bytes@)),
            !ed25519_public_valid(public_bytes@) ==> r matches Err(ManifestError::InvalidKey),
    {
        if !ed25519_key_valid(public_bytes) {
            return Err(ManifestError::InvalidKey);
        }
        Ok(ManifestSigner { signing_key: None, verifying_key: Some(*public_bytes) })
    }

    /// Signs manifest content: the signature is the upper-case hex of the
    /// ed25519 signature of the content's UTF-8 bytes, and the public key the
    /// lower-case hex of the signing key's public key.
    pub fn sign(&self, content: &str) -> (r: Result<SignedManifest, ManifestError>)
        ensures
            self.secret() is None ==> (r matches Err(e) && is_sign_error(e, "No signing key available"@)),
            self.secret() is Some ==> (r matches Ok(m) && {
                &&& m.content@ == content@
                &&& m.signature@ == hex_text(ed25519_signature(self.secret()->0, encode_utf8(content@)), true)
                &&& m.public_key@ == hex_text(ed25519_public(self.secret()->0), false)
                &&& signature_decodes(m.signature@)
                &&& ed25519_verifies(ed25519_public(self.secret()->0), encode_utf8(m.content@), pairs_bytes(m.signature@))
            }),
    {
        match &self.signing_key {
            None => Err(ManifestError::SignError("No signing key available".to_string())),
            Some(secret) => {
                let sig = ed25519_sign(secret, content.as_bytes());
                proof { law_hex_roundtrip(sig@); }
                let public = ed25519_public_of(secret);
                Ok(SignedManifest {
                    content: content.to_string(),
                    signature: signature_text(&sig),
                    public_key: encode(public.as_slice()),
                })
            },
        }
    }

    /// Verifies a signed manifest: `VerificationFailed` without a public key,
    /// `InvalidSignature` when the signature text does not decode, and
    /// otherwise whether the signature is valid for the content.
    pub fn verify(&self, manifest: &SignedManifest) -> (r: Result<bool, ManifestError>)
        ensures
            self.public() is None ==> r matches Err(ManifestError::VerificationFailed),
            self.public() is Some && !signature_decodes(manifest.signature@)
                ==> r matches Err(ManifestError::InvalidSignature),
            self.public() is Some && signature_decodes(manifest.signature@) ==> r == Ok::<
                bool,
                ManifestError,
            >(verification_outcome(self.public()->0, *manifest)),
    {
        match &self.verifying_key {
            None => Err(ManifestError::VerificationFailed),
            Some(public) => {
                match decode_signature_bytes(manifest.signature.as_str()) {
                    None => Err(ManifestError::InvalidSignature),
                    Some(sig) => Ok(ed25519_verify(public, manifest.content.as_str().as_bytes(), &sig)),
                }
            },
        }
    }

    /// The public key in lower-case hex.
    pub fn public_key(&self) -> (r: Result<String, ManifestError>)
        ensures
            self.public() is None ==> (r matches Err(e) && is_sign_error(e, "No verifying key available"@)),
            self.public() is Some ==> (r matches Ok(s) && s@ == hex_text(self.public()->0, false)),
    {
        match &self.verifying_key {
            None => Err(ManifestError::SignError("No verifying key available".to_string())),
            Some(public) => Ok(encode(public.as_slice())),
        }
    }
}


/// Law: a manifest that a signer signed verifies under that same signer.
/// The premises are what [`ManifestSigner::sign`] ensures of its result.
pub proof fn law_signed_manifest_verifies(signer: ManifestSigner, m: SignedManifest)
    requires
        signer.wf(),
        signer.secret() is Some,
        signature_decodes(m.signature@),
        ed25519_verifies(ed25519_public(signer.secret()->0), encode_utf8(m.content@), pairs_bytes(m.signature@)),
    ensures
        signer.public() is Some,
        verification_outcome(signer.public()->0, m),
{
}

impl Default for ManifestSigner {
    /// A signer with a freshly generated key pair.
    fn default() -> (r: Self)
        ensures
            r.wf(),
            r.secret() is Some,
            r.public() == Some(ed25519_public(r.secret()->0)),
    {
        ManifestSigner::new()
    }
}

} // verus!
