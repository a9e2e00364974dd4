//! A public/private keypair over the NIST P-256 curve with SHA-256 and
//! the fixed signature encoding, exposed to scripts as a handle.
//!
//! The signing primitive is an outside collaborator. What it computes is
//! reached only through the trusted declarations below: the private key
//! is carried as the PKCS#8 v1 document the collaborator generates, the
//! public key as the 65-byte uncompressed point it derives, a signature
//! as the 64-byte fixed encoding, and verification as the pure predicate
//! [`p256_verifies`] of key, message and signature.

use vstd::prelude::*;

use ring::signature::KeyPair;

use crate::errors::Error;
use crate::octet::Octet;
use crate::value::StaticUserData;

verus! {

/// Whether the signing collaborator accepts a byte string as a PKCS#8 v1
/// P-256 private-key document.
pub uninterp spec fn p256_pkcs8_valid(doc: Seq<u8>) -> bool;

/// The public key the signing collaborator derives from a private-key
/// document: a pure function of the document alone.
pub uninterp spec fn p256_public_of(doc: Seq<u8>) -> Seq<u8>;

/// Whether a signature verifies against a public key and message: a
/// pure function of the three byte strings alone.
pub uninterp spec fn p256_verifies(public: Seq<u8>, message: Seq<u8>, signature: Seq<u8>) -> bool;

/// Relies on ring's `EcdsaKeyPair::generate_pkcs8` with
/// `ECDSA_P256_SHA256_FIXED_SIGNING`: on success, a PKCS#8 v1 document
/// of exactly 138 bytes — the fixed 41-byte template, the 32-byte
/// private scalar and the 65-byte uncompressed public point — which
/// ring's own `from_pkcs8` accepts. The document is drawn fresh from the
/// system's randomness, so nothing else is fixed.
#[verifier::external_body]
fn p256_generate_pkcs8() -> (r: Result<Vec<u8>, Error>)
    ensures
        r matches Ok(doc) ==> doc@.len() == 138 && p256_pkcs8_valid(doc@),
        r matches Err(e) ==> e matches Error::Crypto(_),
{
    let rng = ring::rand::SystemRandom::new();
    ring::signature::EcdsaKeyPair::generate_pkcs8(
        &ring::signature::ECDSA_P256_SHA256_FIXED_SIGNING,
        &rng,
    )
        .map(|doc| doc.as_ref().to_vec())
        .map_err(|e| Error::Crypto(format!("{}", e)))
}

/// Relies on ring's `EcdsaKeyPair::from_pkcs8` and `public_key`: a
/// document it rejects always errors, and on success the returned key is
/// the 65-byte uncompressed public point determined by the document
/// alone.
#[verifier::external_body]
fn p256_public_key(doc: &Vec<u8>) -> (r: Result<Vec<u8>, Error>)
    ensures
        r matches Ok(pk) ==> p256_pkcs8_valid(doc@) && pk@ == p256_public_of(doc@) && pk@.len()
            == 65,
        !p256_pkcs8_valid(doc@) ==> r is Err,
        r matches Err(e) ==> e matches Error::Crypto(_),
{
    ring::signature::EcdsaKeyPair::from_pkcs8(
        &ring::signature::ECDSA_P256_SHA256_FIXED_SIGNING,
        doc,
    )
        .map(|kp| kp.public_key().as_ref().to_vec())
        .map_err(|e| Error::Crypto(format!("{}", e)))
}

/// Relies on ring's `EcdsaKeyPair::sign` with the fixed encoding: on
/// success, a signature of exactly 64 bytes (two 32-byte scalars) that
/// verifies under the public key the document determines — true of
/// every nonce the signer draws. Beyond that, signing is randomized, so
/// nothing more is fixed of the bytes.
#[verifier::external_body]
fn p256_sign(doc: &Vec<u8>, message: &Vec<u8>) -> (r: Result<Vec<u8>, Error>)
    ensures
        r matches Ok(sig) ==> p256_pkcs8_valid(doc@) && sig@.len() == 64 && p256_verifies(
            p256_public_of(doc@),
            message@,
            sig@,
        ),
        !p256_pkcs8_valid(doc@) ==> r is Err,
        r matches Err(e) ==> e matches Error::Crypto(_),
{
    let rng = ring::rand::SystemRandom::new();
    let kp = ring::signature::EcdsaKeyPair::from_pkcs8(
        &ring::signature::ECDSA_P256_SHA256_FIXED_SIGNING,
        doc,
    ).map_err(|e| Error::Crypto(format!("{}", e)))?;
    kp.sign(&rng, message)
        .map(|sig| sig.as_ref().to_vec())
        .map_err(|e| Error::Crypto(format!("{}", e)))
}

/// Relies on ring's `UnparsedPublicKey::verify` with
/// `ECDSA_P256_SHA256_FIXED`: verification is a pure function of public
/// key, message and signature.
#[verifier::external_body]
fn p256_verify(public: &Vec<u8>, message: &Vec<u8>, signature: &Vec<u8>) -> (r: bool)
    ensures
        r == p256_verifies(public@, message@, signature@),
{
    ring::signature::UnparsedPublicKey::new(&ring::signature::ECDSA_P256_SHA256_FIXED, public)
        .verify(message, signature)
        .is_ok()
}

/// The mathematical mirror of a [`Keyring`]: the two key byte strings.
pub struct KeyringView {
    pub public: Seq<u8>,
    pub private: Seq<u8>,
}

/// A public/private P-256 keypair. The private key is the PKCS#8
/// document the signing collaborator works from; the public key is the
/// uncompressed point it derives. A blank keyring holds two empty
/// buffers until keys are generated or set.
#[derive(Clone, Debug, PartialEq)]
pub struct Keyring {
    public: Octet,
    private: Octet,
}

impl View for Keyring {
    type V = KeyringView;

    closed spec fn view(&self) -> KeyringView {
        KeyringView { public: self.public@, private: self.private@ }
    }
}

impl Keyring {
    /// Whether the keyring holds a generated or loaded keypair: the
    /// private document is one the signing collaborator accepts, and
    /// the public key is the one it derives.
    pub open spec fn keys_consistent(&self) -> bool {
        p256_pkcs8_valid(self@.private) && self@.public == p256_public_of(self@.private)
    }

    /// A blank keyring: both keys empty.
    pub fn new() -> (r: Self)
        ensures
            r@.public == Seq::<u8>::empty(),
            r@.private == Seq::<u8>::empty(),
    {
        Keyring { public: Octet::default(), private: Octet::default() }
    }

    /// A keyring with a freshly generated keypair: a 138-byte private
    /// document and the matching 65-byte public key.
    pub fn new_generated() -> (r: Result<Self, Error>)
        ensures
            r matches Ok(k) ==> k@.private.len() == 138 && k@.public.len() == 65
                && k.keys_consistent(),
            r matches Err(e) ==> e matches Error::Crypto(_),
    {
        let mut keyring = Keyring::new();
        match keyring.generate() {
            Ok(()) => Ok(keyring),
            Err(e) => Err(e),
        }
    }

    /// Generates a fresh private key document.
    fn generate_private(&mut self) -> (r: Result<(), Error>)
        ensures
            final(self)@.public == old(self)@.public,
            r matches Ok(()) ==> final(self)@.private.len() == 138 && p256_pkcs8_valid(
                final(self)@.private,
            ),
            r matches Err(e) ==> e matches Error::Crypto(_) && final(self)@.private == old(
                self,
            )@.private,
    {
        match p256_generate_pkcs8() {
            Ok(doc) => {
                self.private = Octet::new(doc);
                Ok(())
            },
            Err(e) => Err(e),
        }
    }

    /// Re-derives the public key from the private document.
    fn generate_public(&mut self) -> (r: Result<(), Error>)
        ensures
            final(self)@.private == old(self)@.private,
            r matches Ok(()) ==> final(self).keys_consistent() && final(self)@.public.len() == 65,
            !p256_pkcs8_valid(old(self)@.private) ==> r is Err,
            r matches Err(e) ==> e matches Error::Crypto(_) && final(self)@.public == old(
                self,
            )@.public,
    {
        match p256_public_key(self.private.as_bytes()) {
            Ok(pk) => {
                self.public = Octet::new(pk);
                Ok(())
            },
            Err(e) => Err(e),
        }
    }

    /// Generates a fresh keypair: a 138-byte private document and the
    /// matching 65-byte public key.
    pub fn generate(&mut self) -> (r: Result<(), Error>)
        ensures
            r matches Ok(()) ==> final(self)@.private.len() == 138 && final(self)@.public.len()
                == 65 && final(self).keys_consistent(),
            r matches Err(e) ==> e matches Error::Crypto(_),
    {
        self.generate_private()?;
        self.generate_public()?;
        Ok(())
    }

    /// Signs a message with the private key: on success a 64-byte
    /// signature in the fixed encoding that verifies under the public
    /// key the private document determines — so on a consistent keyring
    /// `verify(message, signature)` holds. A keyring whose private
    /// document the collaborator rejects — a blank one included —
    /// always errors.
    pub fn sign(&self, message: &Octet) -> (r: Result<Octet, Error>)
        ensures
            r matches Ok(sig) ==> p256_pkcs8_valid(self@.private) && sig@.len() == 64
                && p256_verifies(p256_public_of(self@.private), message@, sig@),
            self.keys_consistent() ==> (r matches Ok(sig) ==> p256_verifies(
                self@.public,
                message@,
                sig@,
            )),
            !p256_pkcs8_valid(self@.private) ==> r is Err,
            r matches Err(e) ==> e matches Error::Crypto(_),
    {
        match p256_sign(self.private.as_bytes(), message.as_bytes()) {
            Ok(sig) => Ok(Octet::new(sig)),
            Err(e) => Err(e),
        }
    }

    /// Whether the signature verifies against this keyring's public key
    /// and the message: exactly the collaborator's verification
    /// predicate.
    pub fn verify(&self, message: &Octet, signature: &Octet) -> (r: bool)
        ensures
            r == p256_verifies(self@.public, message@, signature@),
    {
        p256_verify(self.public.as_bytes(), message.as_bytes(), signature.as_bytes())
    }

    /// The public key.
    pub fn public(&self) -> (r: &Octet)
        ensures
            r@ == self@.public,
    {
        &self.public
    }

    /// The private key document.
    pub fn private(&self) -> (r: &Octet)
        ensures
            r@ == self@.private,
    {
        &self.private
    }

    /// Sets the public key as given, and returns a copy of it.
    pub fn set_public(&mut self, public: Octet) -> (r: Result<Octet, Error>)
        ensures
            final(self)@.public == public@,
            final(self)@.private == old(self)@.private,
            r matches Ok(o) && o@ == public@,
    {
        let copy = public.duplicate();
        self.public = public;
        Ok(copy)
    }

    /// Sets the private key document and re-derives the public key from
    /// it; on success returns a copy of the document. A document the
    /// collaborator rejects errors, leaving the old public key in place.
    pub fn set_private(&mut self, private: Octet) -> (r: Result<Octet, Error>)
        ensures
            final(self)@.private == private@,
            r matches Ok(o) ==> o@ == private@ && final(self).keys_consistent()
                && final(self)@.public.len() == 65,
            !p256_pkcs8_valid(private@) ==> r is Err,
            r matches Err(e) ==> e matches Error::Crypto(_) && final(self)@.public == old(
                self,
            )@.public,
    {
        let copy = private.duplicate();
        self.private = private;
        match self.generate_public() {
            Ok(()) => Ok(copy),
            Err(e) => Err(e),
        }
    }
}

impl StaticUserData for Keyring {
    open spec fn spec_handle_tag(&self) -> Seq<char> {
        "keyring"@
    }

    fn handle_tag(&self) -> (r: &'static str)
        ensures
            r@ == self.spec_handle_tag(),
    {
        "keyring"
    }
}

impl Default for Keyring {
    /// A blank keyring.
    fn default() -> (r: Self)
        ensures
            r@.public == Seq::<u8>::empty(),
            r@.private == Seq::<u8>::empty(),
    {
        Keyring::new()
    }
}

} // verus!
