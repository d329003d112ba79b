//! Key encapsulation: key, ciphertext and shared-secret wrappers whose
//! lengths are those of their Kyber parameter set, and the `Kem` interface.
use vstd::prelude::*;
use crate::config::KemAlgorithm;
use crate::errors::{PqcError, is_serialization_error};
use crate::secret_bytes::SecretBytes;
use crate::text::{length_message, length_text, redacted_debug, redacted_text};
use rand_core::{CryptoRng, RngCore};

pub mod kyber;

verus! {

/// The detail of the error for `got` bytes where a public key of `expected` bytes was due.
pub open spec fn public_key_length_text(expected: nat, got: nat) -> Seq<char> {
    length_text("Invalid public key length. Expected "@, expected, " bytes, got "@, got)
}

/// The detail of the error for `got` bytes where a secret key of `expected` bytes was due.
pub open spec fn secret_key_length_text(expected: nat, got: nat) -> Seq<char> {
    length_text("Invalid secret key length. Expected "@, expected, " bytes, got "@, got)
}

/// The detail of the error for `got` bytes where a ciphertext of `expected` bytes was due.
pub open spec fn ciphertext_length_text(expected: nat, got: nat) -> Seq<char> {
    length_text("Invalid ciphertext length. Expected "@, expected, " bytes, got "@, got)
}

/// The detail of the error for `got` bytes where a shared secret of `expected` bytes was due.
pub open spec fn shared_secret_length_text(expected: nat, got: nat) -> Seq<char> {
    length_text("Invalid shared secret length. Expected "@, expected, " bytes, got "@, got)
}

/// Represents a KEM public key wrapper.
#[derive(Debug, PartialEq, Eq)]
pub struct PublicKey {
    algorithm: KemAlgorithm,
    bytes: Vec<u8>,
}

impl View for PublicKey {
    type V = Seq<u8>;

    closed spec fn view(&self) -> Seq<u8> {
        self.bytes@
    }
}

impl PublicKey {
    /// The key holds exactly a public key's worth of bytes for its algorithm.
    #[verifier::type_invariant]
    closed spec fn well_sized(self) -> bool {
        self.bytes@.len() == self.algorithm.spec_public_key_len()
    }

    /// The KEM algorithm variant of the key.
    pub closed spec fn spec_algorithm(&self) -> KemAlgorithm {
        self.algorithm
    }

    /// Creates a public key from raw bytes.
    pub fn from_bytes(algorithm: KemAlgorithm, bytes: Vec<u8>) -> (r: Result<Self, PqcError>)
        ensures
            match r {
                Ok(key) => bytes@.len() == algorithm.public_key_len() && key@ == bytes@
                    && key.algorithm() == algorithm,
                Err(e) => bytes@.len() != algorithm.public_key_len() && is_serialization_error(
                    e,
                    public_key_length_text(algorithm.public_key_len() as nat, bytes@.len()),
                ),
            },
    {
        if bytes.len() != algorithm.public_key_len() {
            return Err(
                PqcError::SerializationError(
                    length_message(
                        "Invalid public key length. Expected ",
                        algorithm.public_key_len(),
                        " bytes, got ",
                        bytes.len(),
                    ),
                ),
            );
        }
        Ok(Self { algorithm, bytes })
    }

    /// Returns the raw bytes of the public key.
    pub fn as_bytes(&self) -> (b: &[u8])
        ensures
            b@ == self@,
            b@.len() == self.algorithm().public_key_len(),
    {
        proof { use_type_invariant(self); }
        self.bytes.as_slice()
    }

    /// Returns the KEM algorithm variant.
    #[verifier::when_used_as_spec(spec_algorithm)]
    pub fn algorithm(&self) -> (a: KemAlgorithm)
        ensures
            a == self.spec_algorithm(),
    {
        self.algorithm
    }
}

impl Clone for PublicKey {
    /// A copy of the key: same algorithm, same bytes.
    fn clone(&self) -> (c: Self)
        ensures
            c@ == self@,
            c.algorithm() == self.algorithm(),
    {
        proof { use_type_invariant(self); }
        PublicKey { algorithm: self.algorithm, bytes: self.bytes.clone() }
    }
}

/// Represents a KEM secret key wrapper; its bytes are wiped when it is dropped.
pub struct SecretKey {
    algorithm: KemAlgorithm,
    bytes: SecretBytes,
}

impl View for SecretKey {
    type V = Seq<u8>;

    closed spec fn view(&self) -> Seq<u8> {
        self.bytes@
    }
}

impl SecretKey {
    /// The value holds exactly as many bytes as its algorithm prescribes.
    #[verifier::type_invariant]
    closed spec fn well_sized(self) -> bool {
        self.bytes@.len() == self.algorithm.spec_secret_key_len()
    }

    /// The KEM algorithm variant of the value.
    pub closed spec fn spec_algorithm(&self) -> KemAlgorithm {
        self.algorithm
    }

    /// Creates a secret key from raw bytes.
    pub fn from_bytes(algorithm: KemAlgorithm, bytes: Vec<u8>) -> (r: Result<Self, PqcError>)
        ensures
            match r {
                Ok(value) => bytes@.len() == algorithm.secret_key_len() && value@ == bytes@
                    && value.algorithm() == algorithm,
                Err(e) => bytes@.len() != algorithm.secret_key_len() && is_serialization_error(
                    e,
                    secret_key_length_text(algorithm.secret_key_len() as nat, bytes@.len()),
                ),
            },
    {
        if bytes.len() != algorithm.secret_key_len() {
            return Err(
                PqcError::SerializationError(
                    length_message(
                        "Invalid secret key length. Expected ",
                        algorithm.secret_key_len(),
                        " bytes, got ",
                        bytes.len(),
                    ),
                ),
            );
        }
        Ok(Self { algorithm, bytes: SecretBytes::new(bytes) })
    }

    /// Returns the raw bytes of the secret key.
    /// Use with caution to avoid memory leaks.
    pub fn expose_secret(&self) -> (b: &[u8])
        ensures
            b@ == self@,
            b@.len() == self.algorithm().secret_key_len(),
    {
        proof { use_type_invariant(self); }
        self.bytes.as_slice()
    }

    /// Returns the KEM algorithm variant.
    #[verifier::when_used_as_spec(spec_algorithm)]
    pub fn algorithm(&self) -> (a: KemAlgorithm)
        ensures
            a == self.spec_algorithm(),
    {
        self.algorithm
    }
}

impl SecretKey {
    /// The debug rendering of the value: its type and algorithm, with the
    /// bytes redacted.
    pub fn debug_text(&self) -> (text: String)
        ensures
            text@ == redacted_text("SecretKey"@, self.algorithm().spec_name()),
    {
        redacted_debug("SecretKey", self.algorithm.name())
    }
}

impl SecretKey {
    /// Wipes the bytes now, rather than when the value is dropped, and
    /// consumes the value: a wiped value would no longer hold its algorithm's
    /// length, so none is left behind.
    pub fn zeroize(self) {
        let mut bytes = self.bytes;
        bytes.wipe();
    }
}

impl Clone for SecretKey {
    /// A copy: same algorithm, same bytes.
    fn clone(&self) -> (c: Self)
        ensures
            c@ == self@,
            c.algorithm() == self.algorithm(),
    {
        proof { use_type_invariant(self); }
        SecretKey { algorithm: self.algorithm, bytes: self.bytes.duplicate() }
    }
}

/// Represents a KEM ciphertext wrapper.
#[derive(Debug, PartialEq, Eq)]
pub struct Ciphertext {
    algorithm: KemAlgorithm,
    bytes: Vec<u8>,
}

impl View for Ciphertext {
    type V = Seq<u8>;

    closed spec fn view(&self) -> Seq<u8> {
        self.bytes@
    }
}

impl Ciphertext {
    /// The value holds exactly as many bytes as its algorithm prescribes.
    #[verifier::type_invariant]
    closed spec fn well_sized(self) -> bool {
        self.bytes@.len() == self.algorithm.spec_ciphertext_len()
    }

    /// The KEM algorithm variant of the value.
    pub closed spec fn spec_algorithm(&self) -> KemAlgorithm {
        self.algorithm
    }

    /// Creates a ciphertext from raw bytes.
    pub fn from_bytes(algorithm: KemAlgorithm, bytes: Vec<u8>) -> (r: Result<Self, PqcError>)
        ensures
            match r {
                Ok(value) => bytes@.len() == algorithm.ciphertext_len() && value@ == bytes@
                    && value.algorithm() == algorithm,
                Err(e) => bytes@.len() != algorithm.ciphertext_len() && is_serialization_error(
                    e,
                    ciphertext_length_text(algorithm.ciphertext_len() as nat, bytes@.len()),
                ),
            },
    {
        if bytes.len() != algorithm.ciphertext_len() {
            return Err(
                PqcError::SerializationError(
                    length_message(
                        "Invalid ciphertext length. Expected ",
                        algorithm.ciphertext_len(),
                        " bytes, got ",
                        bytes.len(),
                    ),
                ),
            );
        }
        Ok(Self { algorithm, bytes: bytes })
    }

    /// Returns the raw bytes of the ciphertext.
    pub fn as_bytes(&self) -> (b: &[u8])
        ensures
            b@ == self@,
            b@.len() == self.algorithm().ciphertext_len(),
    {
        proof { use_type_invariant(self); }
        self.bytes.as_slice()
    }

    /// Returns the KEM algorithm variant.
    #[verifier::when_used_as_spec(spec_algorithm)]
    pub fn algorithm(&self) -> (a: KemAlgorithm)
        ensures
            a == self.spec_algorithm(),
    {
        self.algorithm
    }
}

impl Clone for Ciphertext {
    /// A copy: same algorithm, same bytes.
    fn clone(&self) -> (c: Self)
        ensures
            c@ == self@,
            c.algorithm() == self.algorithm(),
    {
        proof { use_type_invariant(self); }
        Ciphertext { algorithm: self.algorithm, bytes: self.bytes.clone() }
    }
}

/// Represents a shared secret; its bytes are wiped when it is dropped.
pub struct SharedSecret {
    algorithm: KemAlgorithm,
    bytes: SecretBytes,
}

impl View for SharedSecret {
    type V = Seq<u8>;

    closed spec fn view(&self) -> Seq<u8> {
        self.bytes@
    }
}

impl SharedSecret {
    /// The value holds exactly as many bytes as its algorithm prescribes.
    #[verifier::type_invariant]
    closed spec fn well_sized(self) -> bool {
        self.bytes@.len() == self.algorithm.spec_shared_secret_len()
    }

    /// The KEM algorithm variant of the value.
    pub closed spec fn spec_algorithm(&self) -> KemAlgorithm {
        self.algorithm
    }

    /// Creates a shared secret from raw bytes.
    pub fn from_bytes(algorithm: KemAlgorithm, bytes: Vec<u8>) -> (r: Result<Self, PqcError>)
        ensures
            match r {
                Ok(value) => bytes@.len() == algorithm.shared_secret_len() && value@ == bytes@
                    && value.algorithm() == algorithm,
                Err(e) => bytes@.len() != algorithm.shared_secret_len() && is_serialization_error(
                    e,
                    shared_secret_length_text(algorithm.shared_secret_len() as nat, bytes@.len()),
                ),
            },
    {
        if bytes.len() != algorithm.shared_secret_len() {
            return Err(
                PqcError::SerializationError(
                    length_message(
                        "Invalid shared secret length. Expected ",
                        algorithm.shared_secret_len(),
                        " bytes, got ",
                        bytes.len(),
                    ),
                ),
            );
        }
        Ok(Self { algorithm, bytes: SecretBytes::new(bytes) })
    }

    /// Returns the raw bytes of the shared secret.
    /// Use with caution to avoid memory leaks.
    pub fn expose_secret(&self) -> (b: &[u8])
        ensures
            b@ == self@,
            b@.len() == self.algorithm().shared_secret_len(),
    {
        proof { use_type_invariant(self); }
        self.bytes.as_slice()
    }

    /// Returns the KEM algorithm variant.
    #[verifier::when_used_as_spec(spec_algorithm)]
    pub fn algorithm(&self) -> (a: KemAlgorithm)
        ensures
            a == self.spec_algorithm(),
    {
        self.algorithm
    }
}

impl SharedSecret {
    /// The debug rendering of the value: its type and algorithm, with the
    /// bytes redacted.
    pub fn debug_text(&self) -> (text: String)
        ensures
            text@ == redacted_text("SharedSecret"@, self.algorithm().spec_name()),
    {
        redacted_debug("SharedSecret", self.algorithm.name())
    }
}

impl SharedSecret {
    /// Wipes the bytes now, rather than when the value is dropped, and
    /// consumes the value: a wiped value would no longer hold its algorithm's
    /// length, so none is left behind.
    pub fn zeroize(self) {
        let mut bytes = self.bytes;
        bytes.wipe();
    }
}

impl Clone for SharedSecret {
    /// A copy: same algorithm, same bytes.
    fn clone(&self) -> (c: Self)
        ensures
            c@ == self@,
            c.algorithm() == self.algorithm(),
    {
        proof { use_type_invariant(self); }
        SharedSecret { algorithm: self.algorithm, bytes: self.bytes.duplicate() }
    }
}

/// The core Key Encapsulation Mechanism (KEM) trait.
pub trait Kem {
    /// The algorithm configuration of this instance.
    spec fn kem_algorithm(&self) -> KemAlgorithm;

    /// Returns the algorithm configuration for this instance.
    fn algorithm(&self) -> (a: KemAlgorithm)
        ensures
            a == self.kem_algorithm(),
    ;

    /// Generates a public/secret keypair. `rng` is the cryptographically secure
    /// generator offered to the implementation; an implementation whose
    /// primitive draws its own randomness (such as `Kyber`) says so and leaves
    /// `rng` untouched.
    fn generate_keypair<R: RngCore + CryptoRng>(&self, rng: &mut R) -> (r: Result<
        (PublicKey, SecretKey),
        PqcError,
    >)
        ensures
            r matches Ok((pk, sk)) ==> pk.algorithm() == self.kem_algorithm() && sk.algorithm()
                == self.kem_algorithm(),
    ;

    /// Encapsulates a shared secret to a public key. As for key generation,
    /// `rng` is offered to the implementation, which says whether it uses it.
    fn encapsulate<R: RngCore + CryptoRng>(&self, public_key: &PublicKey, rng: &mut R) -> (r:
        Result<(Ciphertext, SharedSecret), PqcError>)
        ensures
            r matches Ok((ct, ss)) ==> public_key.algorithm() == self.kem_algorithm()
                && ct.algorithm() == self.kem_algorithm() && ss.algorithm() == self.kem_algorithm(),
    ;

    /// Decapsulates a ciphertext using a secret key, returning the shared secret.
    fn decapsulate(&self, ciphertext: &Ciphertext, secret_key: &SecretKey) -> (r: Result<
        SharedSecret,
        PqcError,
    >)
        ensures
            r matches Ok(ss) ==> ciphertext.algorithm() == self.kem_algorithm()
                && secret_key.algorithm() == self.kem_algorithm() && ss.algorithm()
                == self.kem_algorithm(),
    ;
}

} // verus!
