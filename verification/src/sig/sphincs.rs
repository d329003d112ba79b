//! A SPHINCS+ stand-in: keys are random bytes with a type marker in the first
//! byte, and a signature is random bytes whose prefix is the message masked
//! with `0xCC`, so that verification can check that prefix.
use vstd::prelude::*;
use vstd::string::StringExecFns;
use rand_core::{CryptoRng, RngCore};
use crate::config::SigAlgorithm;
use crate::errors::{PqcError, is_invalid_config, is_serialization_error, is_verification_error};
use crate::sig::{
    DigitalSignature, PublicKey, SecretKey, Signature, public_key_length_text,
    secret_key_length_text, signature_length_text,
};

verus! {

/// Calls `rand_core::RngCore::fill_bytes` on a zeroed buffer of `len` bytes.
/// Claims only that the buffer keeps its length; its contents are random.
/// (`fill_bytes` may panic when the generator cannot produce data; that
/// depends on the generator, not on `len`.)
#[verifier::external_body]
fn random_bytes<R: RngCore + CryptoRng>(rng: &mut R, len: usize) -> (bytes: Vec<u8>)
    ensures
        bytes@.len() == len,
{
    let mut bytes = vec![0u8; len];
    rng.fill_bytes(&mut bytes);
    bytes
}

/// The marker in the first byte of a public key.
pub const PUBLIC_KEY_MARKER: u8 = 0x50;

/// The marker in the first byte of a secret key.
pub const SECRET_KEY_MARKER: u8 = 0x51;

/// The mask that a signature byte applies to its message byte.
pub const TAG_MASK: u8 = 0xCC;

/// `bytes` with its first byte replaced by `marker` (unchanged when empty).
pub open spec fn marked(bytes: Seq<u8>, marker: u8) -> Seq<u8> {
    if bytes.len() == 0 {
        bytes
    } else {
        bytes.update(0, marker)
    }
}

/// The signature made of `random` for `message`: each byte below the length
/// of both is the message byte masked with `TAG_MASK`, the rest is `random`.
pub open spec fn tagged_signature(random: Seq<u8>, message: Seq<u8>) -> Seq<u8> {
    Seq::new(
        random.len(),
        |i: int|
            if i < message.len() {
                message[i] ^ TAG_MASK
            } else {
                random[i]
            },
    )
}

/// Every signature byte below the length of both is the message byte masked
/// with `TAG_MASK`.
pub open spec fn tag_matches(signature: Seq<u8>, message: Seq<u8>) -> bool {
    forall|i: int|
        0 <= i < signature.len() && i < message.len() ==> #[trigger] signature[i] == message[i]
            ^ TAG_MASK
}

/// The SPHINCS+ parameter sets.
pub open spec fn is_sphincs(algorithm: SigAlgorithm) -> bool {
    algorithm is SphincsPlus128s || algorithm is SphincsPlus256s
}

/// Implementation of the SPHINCS+ Digital Signature scheme.
pub struct SphincsPlus {
    algorithm: SigAlgorithm,
}

impl SphincsPlus {
    /// Only SPHINCS+ parameter sets configure an instance.
    #[verifier::type_invariant]
    closed spec fn configured(self) -> bool {
        is_sphincs(self.algorithm)
    }

    /// Creates a new SPHINCS+ instance for the specified SPHINCS+ configuration.
    pub fn new(algorithm: SigAlgorithm) -> (r: Result<Self, PqcError>)
        ensures
            if is_sphincs(algorithm) {
                r matches Ok(s) && s.sig_algorithm() == algorithm
            } else {
                r matches Err(e) && is_invalid_config(e, "Unsupported SPHINCS+ variant"@)
            },
    {
        match algorithm {
            SigAlgorithm::SphincsPlus128s | SigAlgorithm::SphincsPlus256s => Ok(Self { algorithm }),
            _ => Err(PqcError::InvalidConfig(String::from_str("Unsupported SPHINCS+ variant"))),
        }
    }

    /// Builds the key pair from the bytes drawn for the public and the secret
    /// key: each gets its marker in the first byte, then is checked against
    /// the key length of the instance's algorithm (the public key first).
    pub fn keypair_from_random_bytes(&self, pk_random: Vec<u8>, sk_random: Vec<u8>) -> (r: Result<
        (PublicKey, SecretKey),
        PqcError,
    >)
        ensures
            if pk_random@.len() != self.sig_algorithm().public_key_len() {
                r matches Err(e) && is_serialization_error(
                    e,
                    public_key_length_text(
                        self.sig_algorithm().public_key_len() as nat,
                        pk_random@.len(),
                    ),
                )
            } else if sk_random@.len() != self.sig_algorithm().secret_key_len() {
                r matches Err(e) && is_serialization_error(
                    e,
                    secret_key_length_text(
                        self.sig_algorithm().secret_key_len() as nat,
                        sk_random@.len(),
                    ),
                )
            } else {
                r matches Ok((pk, sk)) && pk.algorithm() == self.sig_algorithm() && sk.algorithm()
                    == self.sig_algorithm() && pk@ == marked(pk_random@, PUBLIC_KEY_MARKER) && sk@
                    == marked(sk_random@, SECRET_KEY_MARKER)
            },
    {
        let mut pk_bytes = pk_random;
        let mut sk_bytes = sk_random;
        if pk_bytes.len() > 0 {
            pk_bytes.set(0, PUBLIC_KEY_MARKER);
        }
        if sk_bytes.len() > 0 {
            sk_bytes.set(0, SECRET_KEY_MARKER);
        }
        let pk = PublicKey::from_bytes(self.algorithm, pk_bytes)?;
        let sk = SecretKey::from_bytes(self.algorithm, sk_bytes)?;
        Ok((pk, sk))
    }

    /// Builds the signature of `message` from the bytes drawn for it: each
    /// byte below the length of both is replaced by the message byte masked
    /// with `TAG_MASK`; the result is then checked against the signature
    /// length limit of the instance's algorithm.
    pub fn sign_with_random_bytes(&self, message: &[u8], random: Vec<u8>) -> (r: Result<
        Signature,
        PqcError,
    >)
        ensures
            if random@.len() > self.sig_algorithm().signature_len() {
                r matches Err(e) && is_serialization_error(
                    e,
                    signature_length_text(
                        self.sig_algorithm().signature_len() as nat,
                        random@.len(),
                    ),
                )
            } else {
                r matches Ok(sig) && sig.algorithm() == self.sig_algorithm() && sig@
                    == tagged_signature(random@, message@)
            },
            r matches Ok(sig) ==> sig@.len() == random@.len() && forall|i: int|
                0 <= i < random@.len() ==> #[trigger] sig@[i] == if i < message@.len() {
                    message@[i] ^ 0xCCu8
                } else {
                    random@[i]
                },
    {
        let mut sig_bytes = random;
        let sig_len = sig_bytes.len();
        let msg_len = message.len();
        let tagged_len = if sig_len < msg_len {
            sig_len
        } else {
            msg_len
        };
        let ghost random_view = sig_bytes@;
        let mut i: usize = 0;
        while i < tagged_len
            invariant
                tagged_len <= sig_len,
                tagged_len <= msg_len,
                msg_len == message@.len(),
                sig_bytes@.len() == sig_len,
                random_view.len() == sig_len,
                i <= tagged_len,
                forall|j: int| 0 <= j < i ==> #[trigger] sig_bytes@[j] == message@[j] ^ TAG_MASK,
                forall|j: int| i <= j < sig_len ==> #[trigger] sig_bytes@[j] == random_view[j],
            decreases tagged_len - i,
        {
            sig_bytes.set(i, message[i] ^ TAG_MASK);
            i = i + 1;
        }
        assert(sig_bytes@ =~= tagged_signature(random_view, message@));
        Signature::from_bytes(self.algorithm, sig_bytes)
    }
}

impl DigitalSignature for SphincsPlus {
    closed spec fn sig_algorithm(&self) -> SigAlgorithm {
        self.algorithm
    }

    fn algorithm(&self) -> (a: SigAlgorithm) {
        self.algorithm
    }

    /// Always succeeds: the keys have the lengths of the instance's algorithm
    /// and carry their markers; the remaining bytes are random.
    fn generate_keypair<R: RngCore + CryptoRng>(&self, rng: &mut R) -> (r: Result<
        (PublicKey, SecretKey),
        PqcError,
    >)
        ensures
            r matches Ok((pk, sk)) && pk@.len() == self.sig_algorithm().public_key_len()
                && sk@.len() == self.sig_algorithm().secret_key_len() && pk@[0]
                == PUBLIC_KEY_MARKER && sk@[0] == SECRET_KEY_MARKER,
    {
        proof { use_type_invariant(self); }
        let pk_len = self.algorithm.public_key_len();
        let sk_len = self.algorithm.secret_key_len();
        let pk_bytes = random_bytes(rng, pk_len);
        let sk_bytes = random_bytes(rng, sk_len);
        self.keypair_from_random_bytes(pk_bytes, sk_bytes)
    }

    /// Fails, with an `InvalidConfig` error and without touching `rng`,
    /// exactly when the secret key is for another algorithm; otherwise the
    /// signature has the full signature
    /// length of the algorithm and its tag matches the message.
    fn sign<R: RngCore + CryptoRng>(
        &self,
        message: &[u8],
        secret_key: &SecretKey,
        rng: &mut R,
    ) -> (r: Result<Signature, PqcError>)
        ensures
            if secret_key.algorithm() != self.sig_algorithm() {
                r matches Err(e) && is_invalid_config(e, "Secret key algorithm mismatch"@)
                    && *final(rng) == *old(rng)
            } else {
                r matches Ok(sig) && sig@.len() == self.sig_algorithm().signature_len()
                    && tag_matches(sig@, message@)
            },
            r matches Ok(sig) ==> forall|i: int|
                0 <= i < sig@.len() && i < message@.len() ==> #[trigger] sig@[i] == message@[i]
                    ^ 0xCCu8,
    {
        if secret_key.algorithm() != self.algorithm {
            return Err(PqcError::InvalidConfig(String::from_str("Secret key algorithm mismatch")));
        }
        let sig_len = self.algorithm.signature_len();
        let sig_bytes = random_bytes(rng, sig_len);
        let ghost drawn = sig_bytes@;
        let r = self.sign_with_random_bytes(message, sig_bytes);
        proof {
            lemma_tagged_signature_matches(drawn, message@);
        }
        r
    }

    /// Fails, with an `InvalidConfig` error, when the signature or the public
    /// key is for another algorithm; otherwise succeeds exactly when the
    /// signature's tag matches the message, and fails with a
    /// `VerificationError` when it does not.
    fn verify(&self, message: &[u8], signature: &Signature, public_key: &PublicKey) -> (r: Result<
        (),
        PqcError,
    >)
        ensures
            if signature.algorithm() != self.sig_algorithm() || public_key.algorithm()
                != self.sig_algorithm() {
                r matches Err(e) && is_invalid_config(
                    e,
                    "Signature or public key algorithm mismatch"@,
                )
            } else if tag_matches(signature@, message@) {
                r is Ok
            } else {
                r matches Err(e) && is_verification_error(e, "Invalid signature tag mismatch"@)
            },
            signature.algorithm() == self.sig_algorithm() && public_key.algorithm()
                == self.sig_algorithm() ==> (r is Ok <==> forall|i: int|
                0 <= i < signature@.len() && i < message@.len() ==> #[trigger] signature@[i]
                    == message@[i] ^ 0xCCu8),
    {
        if signature.algorithm() != self.algorithm || public_key.algorithm() != self.algorithm {
            return Err(
                PqcError::InvalidConfig(
                    String::from_str("Signature or public key algorithm mismatch"),
                ),
            );
        }
        let sig_bytes = signature.as_bytes();
        let msg_len = message.len();
        let checked_len = if sig_bytes.len() < msg_len {
            sig_bytes.len()
        } else {
            msg_len
        };
        let mut i: usize = 0;
        while i < checked_len
            invariant
                checked_len <= sig_bytes@.len(),
                checked_len <= message@.len(),
                sig_bytes@ == signature@,
                signature.algorithm() == self.sig_algorithm(),
                public_key.algorithm() == self.sig_algorithm(),
                i <= checked_len,
                forall|j: int| 0 <= j < i ==> #[trigger] sig_bytes@[j] == message@[j] ^ TAG_MASK,
            decreases checked_len - i,
        {
            if sig_bytes[i] != (message[i] ^ TAG_MASK) {
                assert(!tag_matches(signature@, message@)) by {
                    assert(signature@[i as int] != message@[i as int] ^ TAG_MASK);
                }
                return Err(
                    PqcError::VerificationError(String::from_str("Invalid signature tag mismatch")),
                );
            }
            i = i + 1;
        }
        Ok(())
    }
}

/// A tag check looks only at the positions below the lengths of both the
/// signature and the message: a signature whose bytes there are the message
/// bytes masked with `0xCC` matches, whatever its later bytes are, and two
/// signatures that agree on those positions match the same messages.
pub proof fn lemma_tag_matches_only_the_common_prefix(
    signature: Seq<u8>,
    other: Seq<u8>,
    message: Seq<u8>,
)
    ensures
        tag_matches(signature, message) <==> (forall|i: int|
            0 <= i < signature.len() && i < message.len() ==> #[trigger] signature[i]
                == message[i] ^ 0xCCu8),
        (other.len() == signature.len() && forall|i: int|
            0 <= i < signature.len() && i < message.len() ==> #[trigger] other[i]
                == signature[i]) ==> (tag_matches(signature, message) <==> tag_matches(
            other,
            message,
        )),
{
    if other.len() == signature.len() && forall|i: int|
        0 <= i < signature.len() && i < message.len() ==> #[trigger] other[i] == signature[i] {
        if tag_matches(signature, message) {
            assert forall|i: int| 0 <= i < other.len() && i < message.len() implies #[trigger]
                other[i] == message[i] ^ TAG_MASK by {
                assert(other[i] == signature[i]);
            }
        }
        if tag_matches(other, message) {
            assert forall|i: int| 0 <= i < signature.len() && i < message.len() implies
                #[trigger] signature[i] == message[i] ^ TAG_MASK by {
                assert(other[i] == signature[i]);
            }
        }
    }
}

/// The signature built from drawn bytes is as long as the drawn bytes; below
/// the message's length each byte is the message byte masked with `0xCC`,
/// and from there on it is the drawn byte unchanged.
pub proof fn lemma_tagged_signature_keeps_drawn_bytes(random: Seq<u8>, message: Seq<u8>)
    ensures
        tagged_signature(random, message).len() == random.len(),
        forall|i: int|
            0 <= i < random.len() && i < message.len() ==> #[trigger] tagged_signature(
                random,
                message,
            )[i] == message[i] ^ 0xCCu8,
        forall|i: int|
            0 <= i < random.len() && message.len() <= i ==> #[trigger] tagged_signature(
                random,
                message,
            )[i] == random[i],
{
}

/// A signature made for a message carries the message's tag: it verifies
/// against that message.
pub proof fn lemma_tagged_signature_matches(random: Seq<u8>, message: Seq<u8>)
    ensures
        tag_matches(tagged_signature(random, message), message),
{
}

/// A signature whose tag matches `message` does not match a message that
/// differs from `message` at a position below the lengths of the signature
/// and of both messages: verification rejects a tampered message.
pub proof fn lemma_tampered_message_rejected(
    signature: Seq<u8>,
    message: Seq<u8>,
    tampered: Seq<u8>,
    i: int,
)
    requires
        tag_matches(signature, message),
        0 <= i < signature.len(),
        i < message.len(),
        i < tampered.len(),
        message[i] != tampered[i],
    ensures
        !tag_matches(signature, tampered),
{
    let a = message[i];
    let b = tampered[i];
    assert(a != b ==> a ^ 0xCCu8 != b ^ 0xCCu8) by (bit_vector);
    assert(signature[i] == message[i] ^ TAG_MASK);
}

} // verus!
