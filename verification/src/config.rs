use vstd::prelude::*;

verus! {

/// Represents the supported configurations for Key Encapsulation Mechanisms (KEM).
#[derive(Debug, Clone, Copy, PartialEq, Eq, Hash, Structural)]
pub enum KemAlgorithm {
    /// Kyber-512 (NIST Security Level 1)
    Kyber512,
    /// Kyber-768 (NIST Security Level 3)
    Kyber768,
    /// Kyber-1024 (NIST Security Level 5)
    Kyber1024,
}

impl KemAlgorithm {
    /// The variant's name, as its derived `Debug` prints it.
    pub open spec fn spec_name(&self) -> Seq<char> {
        match self {
            KemAlgorithm::Kyber512 => "Kyber512"@,
            KemAlgorithm::Kyber768 => "Kyber768"@,
            KemAlgorithm::Kyber1024 => "Kyber1024"@,
        }
    }

    /// Returns the variant's name, as its derived `Debug` prints it.
    pub(crate) fn name(&self) -> (s: &'static str)
        ensures
            s@ == self.spec_name(),
    {
        match self {
            KemAlgorithm::Kyber512 => "Kyber512",
            KemAlgorithm::Kyber768 => "Kyber768",
            KemAlgorithm::Kyber1024 => "Kyber1024",
        }
    }

    /// Public key length in bytes of each Kyber parameter set.
    pub open spec fn spec_public_key_len(&self) -> usize {
        match self {
            KemAlgorithm::Kyber512 => 800,
            KemAlgorithm::Kyber768 => 1184,
            KemAlgorithm::Kyber1024 => 1568,
        }
    }

    /// Secret key length in bytes of each Kyber parameter set.
    pub open spec fn spec_secret_key_len(&self) -> usize {
        match self {
            KemAlgorithm::Kyber512 => 1632,
            KemAlgorithm::Kyber768 => 2400,
            KemAlgorithm::Kyber1024 => 3168,
        }
    }

    /// Ciphertext length in bytes of each Kyber parameter set.
    pub open spec fn spec_ciphertext_len(&self) -> usize {
        match self {
            KemAlgorithm::Kyber512 => 768,
            KemAlgorithm::Kyber768 => 1088,
            KemAlgorithm::Kyber1024 => 1568,
        }
    }

    /// Shared secret length in bytes: 32 for every Kyber parameter set.
    pub open spec fn spec_shared_secret_len(&self) -> usize {
        32
    }

    /// Returns the public key length in bytes for the configuration.
    #[verifier::when_used_as_spec(spec_public_key_len)]
    pub fn public_key_len(&self) -> (len: usize)
        ensures
            len == self.spec_public_key_len(),
    {
        match self {
            KemAlgorithm::Kyber512 => 800,
            KemAlgorithm::Kyber768 => 1184,
            KemAlgorithm::Kyber1024 => 1568,
        }
    }

    /// Returns the secret key length in bytes for the configuration.
    #[verifier::when_used_as_spec(spec_secret_key_len)]
    pub fn secret_key_len(&self) -> (len: usize)
        ensures
            len == self.spec_secret_key_len(),
    {
        match self {
            KemAlgorithm::Kyber512 => 1632,
            KemAlgorithm::Kyber768 => 2400,
            KemAlgorithm::Kyber1024 => 3168,
        }
    }

    /// Returns the ciphertext length in bytes for the configuration.
    #[verifier::when_used_as_spec(spec_ciphertext_len)]
    pub fn ciphertext_len(&self) -> (len: usize)
        ensures
            len == self.spec_ciphertext_len(),
    {
        match self {
            KemAlgorithm::Kyber512 => 768,
            KemAlgorithm::Kyber768 => 1088,
            KemAlgorithm::Kyber1024 => 1568,
        }
    }

    /// Returns the shared secret length in bytes (32 bytes for Kyber).
    #[verifier::when_used_as_spec(spec_shared_secret_len)]
    pub fn shared_secret_len(&self) -> (len: usize)
        ensures
            len == self.spec_shared_secret_len(),
            len == 32,
    {
        32
    }
}

/// Represents the supported configurations for Digital Signatures.
#[derive(Debug, Clone, Copy, PartialEq, Eq, Hash, Structural)]
pub enum SigAlgorithm {
    /// Dilithium2 (NIST Security Level 2)
    Dilithium2,
    /// Dilithium3 (NIST Security Level 3)
    Dilithium3,
    /// Dilithium5 (NIST Security Level 5)
    Dilithium5,
    /// Falcon-512 (NIST Security Level 1)
    Falcon512,
    /// Falcon-1024 (NIST Security Level 5)
    Falcon1024,
    /// SPHINCS+-128s (Simple/Robust, Level 1)
    SphincsPlus128s,
    /// SPHINCS+-256s (Simple/Robust, Level 5)
    SphincsPlus256s,
}

impl SigAlgorithm {
    /// The variant's name, as its derived `Debug` prints it.
    pub open spec fn spec_name(&self) -> Seq<char> {
        match self {
            SigAlgorithm::Dilithium2 => "Dilithium2"@,
            SigAlgorithm::Dilithium3 => "Dilithium3"@,
            SigAlgorithm::Dilithium5 => "Dilithium5"@,
            SigAlgorithm::Falcon512 => "Falcon512"@,
            SigAlgorithm::Falcon1024 => "Falcon1024"@,
            SigAlgorithm::SphincsPlus128s => "SphincsPlus128s"@,
            SigAlgorithm::SphincsPlus256s => "SphincsPlus256s"@,
        }
    }

    /// Returns the variant's name, as its derived `Debug` prints it.
    pub(crate) fn name(&self) -> (s: &'static str)
        ensures
            s@ == self.spec_name(),
    {
        match self {
            SigAlgorithm::Dilithium2 => "Dilithium2",
            SigAlgorithm::Dilithium3 => "Dilithium3",
            SigAlgorithm::Dilithium5 => "Dilithium5",
            SigAlgorithm::Falcon512 => "Falcon512",
            SigAlgorithm::Falcon1024 => "Falcon1024",
            SigAlgorithm::SphincsPlus128s => "SphincsPlus128s",
            SigAlgorithm::SphincsPlus256s => "SphincsPlus256s",
        }
    }

    /// Public key length in bytes of each signature scheme.
    pub open spec fn spec_public_key_len(&self) -> usize {
        match self {
            SigAlgorithm::Dilithium2 => 1312,
            SigAlgorithm::Dilithium3 => 1952,
            SigAlgorithm::Dilithium5 => 2592,
            SigAlgorithm::Falcon512 => 897,
            SigAlgorithm::Falcon1024 => 1793,
            SigAlgorithm::SphincsPlus128s => 32,
            SigAlgorithm::SphincsPlus256s => 64,
        }
    }

    /// Secret key length in bytes of each signature scheme.
    pub open spec fn spec_secret_key_len(&self) -> usize {
        match self {
            SigAlgorithm::Dilithium2 => 2528,
            SigAlgorithm::Dilithium3 => 4000,
            SigAlgorithm::Dilithium5 => 4864,
            SigAlgorithm::Falcon512 => 1281,
            SigAlgorithm::Falcon1024 => 2305,
            SigAlgorithm::SphincsPlus128s => 64,
            SigAlgorithm::SphincsPlus256s => 128,
        }
    }

    /// Maximum signature length in bytes of each signature scheme.
    pub open spec fn spec_signature_len(&self) -> usize {
        match self {
            SigAlgorithm::Dilithium2 => 2420,
            SigAlgorithm::Dilithium3 => 3300,
            SigAlgorithm::Dilithium5 => 4595,
            SigAlgorithm::Falcon512 => 666,
            SigAlgorithm::Falcon1024 => 1280,
            SigAlgorithm::SphincsPlus128s => 7856,
            SigAlgorithm::SphincsPlus256s => 29792,
        }
    }

    /// Returns the public key length in bytes for the signature scheme.
    #[verifier::when_used_as_spec(spec_public_key_len)]
    pub fn public_key_len(&self) -> (len: usize)
        ensures
            len == self.spec_public_key_len(),
    {
        match self {
            SigAlgorithm::Dilithium2 => 1312,
            SigAlgorithm::Dilithium3 => 1952,
            SigAlgorithm::Dilithium5 => 2592,
            SigAlgorithm::Falcon512 => 897,
            SigAlgorithm::Falcon1024 => 1793,
            SigAlgorithm::SphincsPlus128s => 32,
            SigAlgorithm::SphincsPlus256s => 64,
        }
    }

    /// Returns the secret key length in bytes for the signature scheme.
    #[verifier::when_used_as_spec(spec_secret_key_len)]
    pub fn secret_key_len(&self) -> (len: usize)
        ensures
            len == self.spec_secret_key_len(),
    {
        match self {
            SigAlgorithm::Dilithium2 => 2528,
            SigAlgorithm::Dilithium3 => 4000,
            SigAlgorithm::Dilithium5 => 4864,
            SigAlgorithm::Falcon512 => 1281,
            SigAlgorithm::Falcon1024 => 2305,
            SigAlgorithm::SphincsPlus128s => 64,
            SigAlgorithm::SphincsPlus256s => 128,
        }
    }

    /// Returns the maximum signature length in bytes for the signature scheme.
    #[verifier::when_used_as_spec(spec_signature_len)]
    pub fn signature_len(&self) -> (len: usize)
        ensures
            len == self.spec_signature_len(),
    {
        match self {
            SigAlgorithm::Dilithium2 => 2420,
            SigAlgorithm::Dilithium3 => 3300,
            SigAlgorithm::Dilithium5 => 4595,
            SigAlgorithm::Falcon512 => 666,
            SigAlgorithm::Falcon1024 => 1280,
            SigAlgorithm::SphincsPlus128s => 7856,
            SigAlgorithm::SphincsPlus256s => 29792,
        }
    }
}

} // verus!
