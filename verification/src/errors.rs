use vstd::prelude::*;
use vstd::string::StringExecFns;

verus! {

/// Custom error type for Post-Quantum Cryptography Suite operations.
#[derive(Debug, PartialEq, Eq)]
pub enum PqcError {
    /// Error generated when key generation fails.
    KeyGenError(String),
    /// Error generated when serialization or deserialization fails.
    SerializationError(String),
    /// Error generated during key encapsulation.
    EncapsulationError(String),
    /// Error generated when decapsulation fails (e.g. invalid ciphertext or secret key mismatch).
    DecapsulationError(String),
    /// Error generated when digital signature signing fails.
    SigningError(String),
    /// Error generated when signature verification fails.
    VerificationError(String),
    /// Error generated when an invalid parameter or configuration is provided.
    InvalidConfig(String),
}

impl PqcError {
    /// The detail text that the error carries.
    pub open spec fn detail(self) -> Seq<char> {
        match self {
            PqcError::KeyGenError(s) => s@,
            PqcError::SerializationError(s) => s@,
            PqcError::EncapsulationError(s) => s@,
            PqcError::DecapsulationError(s) => s@,
            PqcError::SigningError(s) => s@,
            PqcError::VerificationError(s) => s@,
            PqcError::InvalidConfig(s) => s@,
        }
    }

    /// The heading that the human-readable message puts before the detail.
    pub open spec fn heading(self) -> Seq<char> {
        match self {
            PqcError::KeyGenError(_) => "Key generation failed: "@,
            PqcError::SerializationError(_) => "Serialization or deserialization failed: "@,
            PqcError::EncapsulationError(_) => "Encapsulation failed: "@,
            PqcError::DecapsulationError(_) => "Decapsulation failed: "@,
            PqcError::SigningError(_) => "Signature signing failed: "@,
            PqcError::VerificationError(_) => "Signature verification failed: "@,
            PqcError::InvalidConfig(_) => "Invalid algorithm configuration or parameters: "@,
        }
    }

    /// The human-readable message of the error: its heading followed by its detail.
    pub fn message(&self) -> (msg: String)
        ensures
            msg@ == self.heading() + self.detail(),
    {
        let (heading, detail) = match self {
            PqcError::KeyGenError(s) => ("Key generation failed: ", s),
            PqcError::SerializationError(s) => ("Serialization or deserialization failed: ", s),
            PqcError::EncapsulationError(s) => ("Encapsulation failed: ", s),
            PqcError::DecapsulationError(s) => ("Decapsulation failed: ", s),
            PqcError::SigningError(s) => ("Signature signing failed: ", s),
            PqcError::VerificationError(s) => ("Signature verification failed: ", s),
            PqcError::InvalidConfig(s) => ("Invalid algorithm configuration or parameters: ", s),
        };
        let mut msg = String::from_str(heading);
        msg.append(detail.as_str());
        msg
    }
}

/// `e` is a `SerializationError` whose detail is `text`.
pub open spec fn is_serialization_error(e: PqcError, text: Seq<char>) -> bool {
    e matches PqcError::SerializationError(m) && m@ == text
}

/// `e` is an `InvalidConfig` error whose detail is `text`.
pub open spec fn is_invalid_config(e: PqcError, text: Seq<char>) -> bool {
    e matches PqcError::InvalidConfig(m) && m@ == text
}

/// `e` is a `VerificationError` whose detail is `text`.
pub open spec fn is_verification_error(e: PqcError, text: Seq<char>) -> bool {
    e matches PqcError::VerificationError(m) && m@ == text
}

} // verus!
