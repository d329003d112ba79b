//! Post-quantum cryptography toolkit: Kyber key encapsulation and a SPHINCS+
//! signature interface, with key wrappers whose lengths are checked against
//! the algorithm parameter sets.
pub mod config;
pub mod errors;
pub mod hex_text;
pub mod kem;
pub mod sig;
pub mod service;
pub mod secret_bytes;
pub mod text;

pub use config::{KemAlgorithm, SigAlgorithm};
pub use errors::PqcError;
pub use kem::{
    Ciphertext, Kem, PublicKey as KemPublicKey, SecretKey as KemSecretKey, SharedSecret,
};
pub use kem::kyber::Kyber;
pub use sig::{DigitalSignature, PublicKey as SigPublicKey, SecretKey as SigSecretKey, Signature};
pub use sig::sphincs::SphincsPlus;
