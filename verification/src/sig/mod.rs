//! Digital signatures: key and signature wrappers whose lengths are checked
//! against the signature scheme, and the `DigitalSignature` interface.
use vstd::prelude::*;
use crate::config::SigAlgorithm;
use crate::errors::{PqcError, is_serialization_error};
use crate::secret_bytes::SecretBytes;
use crate::text::{length_message, length_text, redacted_debug, redacted_text};
use rand_core::{CryptoRng, RngCore};

pub mod sphincs;

verus! {

/// The detail of the error for `got` bytes where a public key of `expected` bytes was due.
pub open spec fn public_key_length_text(expected: nat, got: nat) -> Seq<char> {
    length_text("Invalid public key length. Expected "@, expected, " bytes, got "@, got)
}

/// The detail of the error for `got` bytes where a secret key of `expected` bytes was due.
pub open spec fn secret_key_length_text(expected: nat, got: nat) -> Seq<char> {
    length_text("Invalid secret key length. Expected "@, expected, " bytes, got "@, got)
}

/// The detail of the error for a signature of `got` bytes, more than the `limit` of its scheme.
pub open spec fn signature_length_text(limit: nat, got: nat) -> Seq<char> {
    length_text("Signature size exceeds maximum limit of "@, limit, " bytes, got "@, got)
}

/// Represents a signature public key wrapper.
#[derive(Debug, PartialEq, Eq)]
pub struct PublicKey {
    algorithm: SigAlgorithm,
    bytes: Vec<u8>,
}

impl View for PublicKey {
    type V = Seq<u8>;

    closed spec fn view(&self) -> Seq<u8> {
        self.bytes@
    }
}

impl PublicKey {
    /// The key holds exactly a public key's worth of bytes for its algorithm.
    #[verifier::type_invariant]
    closed spec fn well_sized(self) -> bool {
        self.bytes@.len() == self.algorithm.spec_public_key_len()
    }

    /// The signature algorithm variant of the key.
    pub closed spec fn spec_algorithm(&self) -> SigAlgorithm {
        self.algorithm
    }

    /// Creates a public key from raw bytes.
    pub fn from_bytes(algorithm: SigAlgorithm, bytes: Vec<u8>) -> (r: Result<Self, PqcError>)
        ensures
            match r {
                Ok(key) => bytes@.len() == algorithm.public_key_len() && key@ == bytes@
                    && key.algorithm() == algorithm,
                Err(e) => bytes@.len() != algorithm.public_key_len() && is_serialization_error(
                    e,
                    public_key_length_text(algorithm.public_key_len() as nat, bytes@.len()),
                ),
            },
    {
        if bytes.len() != algorithm.public_key_len() {
            return Err(
                PqcError::SerializationError(
                    length_message(
                        "Invalid public key length. Expected ",
                        algorithm.public_key_len(),
                        " bytes, got ",
                        bytes.len(),
                    ),
                ),
            );
        }
        Ok(Self { algorithm, bytes })
    }

    /// Returns the raw bytes of the public key.
    pub fn as_bytes(&self) -> (b: &[u8])
        ensures
            b@ == self@,
            b@.len() == self.algorithm().public_key_len(),
    {
        proof { use_type_invariant(self); }
        self.bytes.as_slice()
    }

    /// Returns the signature algorithm variant.
    #[verifier::when_used_as_spec(spec_algorithm)]
    pub fn algorithm(&self) -> (a: SigAlgorithm)
        ensures
            a == self.spec_algorithm(),
    {
        self.algorithm
    }
}

impl Clone for PublicKey {
    /// A copy of the key: same algorithm, same bytes.
    fn clone(&self) -> (c: Self)
        ensures
            c@ == self@,
            c.algorithm() == self.algorithm(),
    {
        proof { use_type_invariant(self); }
        PublicKey { algorithm: self.algorithm, bytes: self.bytes.clone() }
    }
}


/// Represents a signature secret key wrapper; its bytes are wiped when it is dropped.
pub struct SecretKey {
    algorithm: SigAlgorithm,
    bytes: SecretBytes,
}

impl View for SecretKey {
    type V = Seq<u8>;

    closed spec fn view(&self) -> Seq<u8> {
        self.bytes@
    }
}

impl SecretKey {
    /// The value holds exactly as many bytes as its algorithm prescribes.
    #[verifier::type_invariant]
    closed spec fn well_sized(self) -> bool {
        self.bytes@.len() == self.algorithm.spec_secret_key_len()
    }

    /// The signature algorithm variant of the value.
    pub closed spec fn spec_algorithm(&self) -> SigAlgorithm {
        self.algorithm
    }

    /// Creates a secret key from raw bytes.
    pub fn from_bytes(algorithm: SigAlgorithm, bytes: Vec<u8>) -> (r: Result<Self, PqcError>)
        ensures
            match r {
                Ok(value) => bytes@.len() == algorithm.secret_key_len() && value@ == bytes@
                    && value.algorithm() == algorithm,
                Err(e) => bytes@.len() != algorithm.secret_key_len() && is_serialization_error(
                    e,
                    secret_key_length_text(algorithm.secret_key_len() as nat, bytes@.len()),
                ),
            },
    {
        if bytes.len() != algorithm.secret_key_len() {
            return Err(
                PqcError::SerializationError(
                    length_message(
                        "Invalid secret key length. Expected ",
                        algorithm.secret_key_len(),
                        " bytes, got ",
                        bytes.len(),
                    ),
                ),
            );
        }
        Ok(Self { algorithm, bytes: SecretBytes::new(bytes) })
    }

    /// Returns the raw bytes of the secret key.
    /// Use with caution to avoid memory leaks.
    pub fn expose_secret(&self) -> (b: &[u8])
        ensures
            b@ == self@,
            b@.len() == self.algorithm().secret_key_len(),
    {
        proof { use_type_invariant(self); }
        self.bytes.as_slice()
    }

    /// Returns the signature algorithm variant.
    #[verifier::when_used_as_spec(spec_algorithm)]
    pub fn algorithm(&self) -> (a: SigAlgorithm)
        ensures
            a == self.spec_algorithm(),
    {
        self.algorithm
    }
}

impl SecretKey {
    /// The debug rendering of the value: its type and algorithm, with the
    /// bytes redacted.
    pub fn debug_text(&self) -> (text: String)
        ensures
            text@ == redacted_text("SecretKey"@, self.algorithm().spec_name()),
    {
        redacted_debug("SecretKey", self.algorithm.name())
    }
}

impl SecretKey {
    /// Wipes the bytes now, rather than when the value is dropped, and
    /// consumes the value: a wiped value would no longer hold its algorithm's
    /// length, so none is left behind.
    pub fn zeroize(self) {
        let mut bytes = self.bytes;
        bytes.wipe();
    }
}

impl Clone for SecretKey {
    /// A copy: same algorithm, same bytes.
    fn clone(&self) -> (c: Self)
        ensures
            c@ == self@,
            c.algorithm() == self.algorithm(),
    {
        proof { use_type_invariant(self); }
        SecretKey { algorithm: self.algorithm, bytes: self.bytes.duplicate() }
    }
}

/// Represents a generated signature wrapper.
#[derive(Debug, PartialEq, Eq)]
pub struct Signature {
    algorithm: SigAlgorithm,
    bytes: Vec<u8>,
}

impl View for Signature {
    type V = Seq<u8>;

    closed spec fn view(&self) -> Seq<u8> {
        self.bytes@
    }
}

impl Signature {
    /// The signature is no longer than its scheme's maximum signature length.
    #[verifier::type_invariant]
    closed spec fn within_limit(self) -> bool {
        self.bytes@.len() <= self.algorithm.spec_signature_len()
    }

    /// The signature algorithm variant of the signature.
    pub closed spec fn spec_algorithm(&self) -> SigAlgorithm {
        self.algorithm
    }

    /// Creates a signature from raw bytes. Some signature schemes produce
    /// variable-length signatures, so the scheme's signature length is an
    /// upper limit.
    pub fn from_bytes(algorithm: SigAlgorithm, bytes: Vec<u8>) -> (r: Result<Self, PqcError>)
        ensures
            match r {
                Ok(sig) => bytes@.len() <= algorithm.signature_len() && sig@ == bytes@
                    && sig.algorithm() == algorithm,
                Err(e) => bytes@.len() > algorithm.signature_len() && is_serialization_error(
                    e,
                    signature_length_text(algorithm.signature_len() as nat, bytes@.len()),
                ),
            },
    {
        if bytes.len() > algorithm.signature_len() {
            return Err(
                PqcError::SerializationError(
                    length_message(
                        "Signature size exceeds maximum limit of ",
                        algorithm.signature_len(),
                        " bytes, got ",
                        bytes.len(),
                    ),
                ),
            );
        }
        Ok(Self { algorithm, bytes })
    }

    /// Returns the raw bytes of the signature.
    pub fn as_bytes(&self) -> (b: &[u8])
        ensures
            b@ == self@,
            b@.len() <= self.algorithm().signature_len(),
    {
        proof { use_type_invariant(self); }
        self.bytes.as_slice()
    }

    /// Returns the signature algorithm variant.
    #[verifier::when_used_as_spec(spec_algorithm)]
    pub fn algorithm(&self) -> (a: SigAlgorithm)
        ensures
            a == self.spec_algorithm(),
    {
        self.algorithm
    }
}

impl Clone for Signature {
    /// A copy: same algorithm, same bytes.
    fn clone(&self) -> (c: Self)
        ensures
            c@ == self@,
            c.algorithm() == self.algorithm(),
    {
        proof { use_type_invariant(self); }
        Signature { algorithm: self.algorithm, bytes: self.bytes.clone() }
    }
}

/// The core Digital Signature trait.
pub trait DigitalSignature {
    /// The algorithm configuration of this instance.
    spec fn sig_algorithm(&self) -> SigAlgorithm;

    /// Returns the algorithm configuration for this instance.
    fn algorithm(&self) -> (a: SigAlgorithm)
        ensures
            a == self.sig_algorithm(),
    ;

    /// Generates a public/secret keypair using the provided cryptographically secure RNG.
    fn generate_keypair<R: RngCore + CryptoRng>(&self, rng: &mut R) -> (r: Result<
        (PublicKey, SecretKey),
        PqcError,
    >)
        ensures
            r matches Ok((pk, sk)) ==> pk.algorithm() == self.sig_algorithm() && sk.algorithm()
                == self.sig_algorithm(),
    ;

    /// Signs a message using a secret key and the provided RNG.
    fn sign<R: RngCore + CryptoRng>(
        &self,
        message: &[u8],
        secret_key: &SecretKey,
        rng: &mut R,
    ) -> (r: Result<Signature, PqcError>)
        ensures
            r matches Ok(sig) ==> secret_key.algorithm() == self.sig_algorithm() && sig.algorithm()
                == self.sig_algorithm(),
    ;

    /// Verifies a signature against a message and public key.
    fn verify(&self, message: &[u8], signature: &Signature, public_key: &PublicKey) -> (r: Result<
        (),
        PqcError,
    >)
        ensures
            r is Ok ==> signature.algorithm() == self.sig_algorithm() && public_key.algorithm()
                == self.sig_algorithm(),
    ;
}

} // verus!
