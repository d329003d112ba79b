//! The Kyber key encapsulation mechanism, computed by `pqcrypto_kyber`.
use vstd::prelude::*;
use vstd::string::StringExecFns;
use rand_core::{CryptoRng, RngCore};
use pqcrypto_traits::kem::{
    Ciphertext as KemCiphertext, PublicKey as KemPublicKey, SecretKey as KemSecretKey,
    SharedSecret as KemSharedSecret,
};
use crate::config::KemAlgorithm;
use crate::errors::{PqcError, is_invalid_config};
use crate::kem::{Ciphertext, Kem, PublicKey, SecretKey, SharedSecret};

verus! {

/// `pqcrypto_traits::Error`, the error of decoding bytes into a key or
/// ciphertext of a `pqcrypto` crate.
#[verifier::external_type_specification]
#[verifier::external_body]
pub struct ExPqcryptoError(pqcrypto_traits::Error);

/// Which input of a decapsulation failed to decode.
enum DecodeFailure {
    Ciphertext(pqcrypto_traits::Error),
    SecretKey(pqcrypto_traits::Error),
}

/// Renders a `pqcrypto_traits::Error` with its derived `Debug` formatting.
/// Nothing is claimed of the text.
#[verifier::external_body]
fn pqcrypto_error_text(e: &pqcrypto_traits::Error) -> String {
    format!("{:?}", e)
}

/// Whether `(pk, sk)` is a key pair that `pqcrypto_kyber::kyber512::keypair` produces.
pub uninterp spec fn kyber512_is_key_pair(pk: Seq<u8>, sk: Seq<u8>) -> bool;

/// What `pqcrypto_kyber::kyber512::decapsulate` returns for the ciphertext and
/// secret key with these bytes.
pub uninterp spec fn kyber512_decapsulation(ct: Seq<u8>, sk: Seq<u8>) -> Seq<u8>;

/// Calls `pqcrypto_kyber::kyber512::keypair` (which draws its randomness from
/// the system) and copies out the key bytes. Claims: the public key has 800
/// bytes and the secret key 1632 (the crate's `CRYPTO_PUBLICKEYBYTES` and
/// `CRYPTO_SECRETKEYBYTES`), and the two form a key pair. The key bytes
/// themselves are random and unstated.
#[verifier::external_body]
fn kyber512_keypair() -> (keys: (Vec<u8>, Vec<u8>))
    ensures
        keys.0@.len() == 800,
        keys.1@.len() == 1632,
        kyber512_is_key_pair(keys.0@, keys.1@),
{
    let (pk, sk) = pqcrypto_kyber::kyber512::keypair();
    (pk.as_bytes().to_vec(), sk.as_bytes().to_vec())
}

/// Calls `PublicKey::from_bytes` and `encapsulate` of
/// `pqcrypto_kyber::kyber512` and copies out (ciphertext, shared secret).
/// Claims: decoding fails, with the crate's `BadLength` error, exactly when
/// `pk` is not 800 bytes long; the ciphertext has 768 bytes and the shared
/// secret 32; and decapsulating the ciphertext with any secret key that forms
/// a key pair with `pk` gives back the shared secret (the round trip that the
/// crate's documentation example and its own test assert; the statement
/// leaves out Kyber's decryption-failure probability, below 2^-138). The bytes
/// themselves are random and unstated.
#[verifier::external_body]
fn kyber512_encapsulate(pk: &[u8]) -> (r: Result<(Vec<u8>, Vec<u8>), pqcrypto_traits::Error>)
    ensures
        r is Ok <==> pk@.len() == 800,
        r matches Ok((ct, ss)) ==> ct@.len() == 768 && ss@.len() == 32 && forall|sk: Seq<u8>|
            kyber512_is_key_pair(pk@, sk) ==> #[trigger] kyber512_decapsulation(ct@, sk) == ss@,
{
    let pk = <pqcrypto_kyber::kyber512::PublicKey as KemPublicKey>::from_bytes(pk)?;
    let (ss, ct) = pqcrypto_kyber::kyber512::encapsulate(&pk);
    Ok((ct.as_bytes().to_vec(), ss.as_bytes().to_vec()))
}

/// Calls `Ciphertext::from_bytes`, `SecretKey::from_bytes` and `decapsulate`
/// of `pqcrypto_kyber::kyber512` and copies out the shared secret. Claims: the
/// ciphertext fails to decode exactly when it is not 768 bytes long, the
/// secret key (tried second) exactly when it is not 1632 bytes long; otherwise
/// the result is the 32-byte `kyber512_decapsulation` of the two inputs.
#[verifier::external_body]
fn kyber512_decapsulate(ct: &[u8], sk: &[u8]) -> (r: Result<Vec<u8>, DecodeFailure>)
    ensures
        r is Err <==> ct@.len() != 768 || sk@.len() != 1632,
        r matches Err(e) ==> (e is Ciphertext <==> ct@.len() != 768),
        r matches Ok(ss) ==> ss@ == kyber512_decapsulation(ct@, sk@) && ss@.len() == 32,
{
    let ct = <pqcrypto_kyber::kyber512::Ciphertext as KemCiphertext>::from_bytes(ct)
        .map_err(DecodeFailure::Ciphertext)?;
    let sk = <pqcrypto_kyber::kyber512::SecretKey as KemSecretKey>::from_bytes(sk)
        .map_err(DecodeFailure::SecretKey)?;
    Ok(pqcrypto_kyber::kyber512::decapsulate(&ct, &sk).as_bytes().to_vec())
}

/// Whether `(pk, sk)` is a key pair that `pqcrypto_kyber::kyber768::keypair` produces.
pub uninterp spec fn kyber768_is_key_pair(pk: Seq<u8>, sk: Seq<u8>) -> bool;

/// What `pqcrypto_kyber::kyber768::decapsulate` returns for the ciphertext and
/// secret key with these bytes.
pub uninterp spec fn kyber768_decapsulation(ct: Seq<u8>, sk: Seq<u8>) -> Seq<u8>;

/// Calls `pqcrypto_kyber::kyber768::keypair` (which draws its randomness from
/// the system) and copies out the key bytes. Claims: the public key has 1184
/// bytes and the secret key 2400 (the crate's `CRYPTO_PUBLICKEYBYTES` and
/// `CRYPTO_SECRETKEYBYTES`), and the two form a key pair. The key bytes
/// themselves are random and unstated.
#[verifier::external_body]
fn kyber768_keypair() -> (keys: (Vec<u8>, Vec<u8>))
    ensures
        keys.0@.len() == 1184,
        keys.1@.len() == 2400,
        kyber768_is_key_pair(keys.0@, keys.1@),
{
    let (pk, sk) = pqcrypto_kyber::kyber768::keypair();
    (pk.as_bytes().to_vec(), sk.as_bytes().to_vec())
}

/// Calls `PublicKey::from_bytes` and `encapsulate` of
/// `pqcrypto_kyber::kyber768` and copies out (ciphertext, shared secret).
/// Claims: decoding fails, with the crate's `BadLength` error, exactly when
/// `pk` is not 1184 bytes long; the ciphertext has 1088 bytes and the shared
/// secret 32; and decapsulating the ciphertext with any secret key that forms
/// a key pair with `pk` gives back the shared secret (the round trip that the
/// crate's documentation example and its own test assert; the statement
/// leaves out Kyber's decryption-failure probability, below 2^-138). The bytes
/// themselves are random and unstated.
#[verifier::external_body]
fn kyber768_encapsulate(pk: &[u8]) -> (r: Result<(Vec<u8>, Vec<u8>), pqcrypto_traits::Error>)
    ensures
        r is Ok <==> pk@.len() == 1184,
        r matches Ok((ct, ss)) ==> ct@.len() == 1088 && ss@.len() == 32 && forall|sk: Seq<u8>|
            kyber768_is_key_pair(pk@, sk) ==> #[trigger] kyber768_decapsulation(ct@, sk) == ss@,
{
    let pk = <pqcrypto_kyber::kyber768::PublicKey as KemPublicKey>::from_bytes(pk)?;
    let (ss, ct) = pqcrypto_kyber::kyber768::encapsulate(&pk);
    Ok((ct.as_bytes().to_vec(), ss.as_bytes().to_vec()))
}

/// Calls `Ciphertext::from_bytes`, `SecretKey::from_bytes` and `decapsulate`
/// of `pqcrypto_kyber::kyber768` and copies out the shared secret. Claims: the
/// ciphertext fails to decode exactly when it is not 1088 bytes long, the
/// secret key (tried second) exactly when it is not 2400 bytes long; otherwise
/// the result is the 32-byte `kyber768_decapsulation` of the two inputs.
#[verifier::external_body]
fn kyber768_decapsulate(ct: &[u8], sk: &[u8]) -> (r: Result<Vec<u8>, DecodeFailure>)
    ensures
        r is Err <==> ct@.len() != 1088 || sk@.len() != 2400,
        r matches Err(e) ==> (e is Ciphertext <==> ct@.len() != 1088),
        r matches Ok(ss) ==> ss@ == kyber768_decapsulation(ct@, sk@) && ss@.len() == 32,
{
    let ct = <pqcrypto_kyber::kyber768::Ciphertext as KemCiphertext>::from_bytes(ct)
        .map_err(DecodeFailure::Ciphertext)?;
    let sk = <pqcrypto_kyber::kyber768::SecretKey as KemSecretKey>::from_bytes(sk)
        .map_err(DecodeFailure::SecretKey)?;
    Ok(pqcrypto_kyber::kyber768::decapsulate(&ct, &sk).as_bytes().to_vec())
}

/// Whether `(pk, sk)` is a key pair that `pqcrypto_kyber::kyber1024::keypair` produces.
pub uninterp spec fn kyber1024_is_key_pair(pk: Seq<u8>, sk: Seq<u8>) -> bool;

/// What `pqcrypto_kyber::kyber1024::decapsulate` returns for the ciphertext and
/// secret key with these bytes.
pub uninterp spec fn kyber1024_decapsulation(ct: Seq<u8>, sk: Seq<u8>) -> Seq<u8>;

/// Calls `pqcrypto_kyber::kyber1024::keypair` (which draws its randomness from
/// the system) and copies out the key bytes. Claims: the public key has 1568
/// bytes and the secret key 3168 (the crate's `CRYPTO_PUBLICKEYBYTES` and
/// `CRYPTO_SECRETKEYBYTES`), and the two form a key pair. The key bytes
/// themselves are random and unstated.
#[verifier::external_body]
fn kyber1024_keypair() -> (keys: (Vec<u8>, Vec<u8>))
    ensures
        keys.0@.len() == 1568,
        keys.1@.len() == 3168,
        kyber1024_is_key_pair(keys.0@, keys.1@),
{
    let (pk, sk) = pqcrypto_kyber::kyber1024::keypair();
    (pk.as_bytes().to_vec(), sk.as_bytes().to_vec())
}

/// Calls `PublicKey::from_bytes` and `encapsulate` of
/// `pqcrypto_kyber::kyber1024` and copies out (ciphertext, shared secret).
/// Claims: decoding fails, with the crate's `BadLength` error, exactly when
/// `pk` is not 1568 bytes long; the ciphertext has 1568 bytes and the shared
/// secret 32; and decapsulating the ciphertext with any secret key that forms
/// a key pair with `pk` gives back the shared secret (the round trip that the
/// crate's documentation example and its own test assert; the statement
/// leaves out Kyber's decryption-failure probability, below 2^-138). The bytes
/// themselves are random and unstated.
#[verifier::external_body]
fn kyber1024_encapsulate(pk: &[u8]) -> (r: Result<(Vec<u8>, Vec<u8>), pqcrypto_traits::Error>)
    ensures
        r is Ok <==> pk@.len() == 1568,
        r matches Ok((ct, ss)) ==> ct@.len() == 1568 && ss@.len() == 32 && forall|sk: Seq<u8>|
            kyber1024_is_key_pair(pk@, sk) ==> #[trigger] kyber1024_decapsulation(ct@, sk) == ss@,
{
    let pk = <pqcrypto_kyber::kyber1024::PublicKey as KemPublicKey>::from_bytes(pk)?;
    let (ss, ct) = pqcrypto_kyber::kyber1024::encapsulate(&pk);
    Ok((ct.as_bytes().to_vec(), ss.as_bytes().to_vec()))
}

/// Calls `Ciphertext::from_bytes`, `SecretKey::from_bytes` and `decapsulate`
/// of `pqcrypto_kyber::kyber1024` and copies out the shared secret. Claims: the
/// ciphertext fails to decode exactly when it is not 1568 bytes long, the
/// secret key (tried second) exactly when it is not 3168 bytes long; otherwise
/// the result is the 32-byte `kyber1024_decapsulation` of the two inputs.
#[verifier::external_body]
fn kyber1024_decapsulate(ct: &[u8], sk: &[u8]) -> (r: Result<Vec<u8>, DecodeFailure>)
    ensures
        r is Err <==> ct@.len() != 1568 || sk@.len() != 3168,
        r matches Err(e) ==> (e is Ciphertext <==> ct@.len() != 1568),
        r matches Ok(ss) ==> ss@ == kyber1024_decapsulation(ct@, sk@) && ss@.len() == 32,
{
    let ct = <pqcrypto_kyber::kyber1024::Ciphertext as KemCiphertext>::from_bytes(ct)
        .map_err(DecodeFailure::Ciphertext)?;
    let sk = <pqcrypto_kyber::kyber1024::SecretKey as KemSecretKey>::from_bytes(sk)
        .map_err(DecodeFailure::SecretKey)?;
    Ok(pqcrypto_kyber::kyber1024::decapsulate(&ct, &sk).as_bytes().to_vec())
}

/// Whether `(pk, sk)` is a key pair of the Kyber parameter set `alg`.
pub open spec fn is_key_pair(alg: KemAlgorithm, pk: Seq<u8>, sk: Seq<u8>) -> bool {
    match alg {
        KemAlgorithm::Kyber512 => kyber512_is_key_pair(pk, sk),
        KemAlgorithm::Kyber768 => kyber768_is_key_pair(pk, sk),
        KemAlgorithm::Kyber1024 => kyber1024_is_key_pair(pk, sk),
    }
}

/// The shared secret that Kyber decapsulation of the parameter set `alg`
/// derives from ciphertext `ct` and secret key `sk`.
pub open spec fn decapsulation(alg: KemAlgorithm, ct: Seq<u8>, sk: Seq<u8>) -> Seq<u8> {
    match alg {
        KemAlgorithm::Kyber512 => kyber512_decapsulation(ct, sk),
        KemAlgorithm::Kyber768 => kyber768_decapsulation(ct, sk),
        KemAlgorithm::Kyber1024 => kyber1024_decapsulation(ct, sk),
    }
}

/// `ct` carries `ss` to the holder of any secret key paired with `pk`:
/// decapsulating `ct` with such a key yields `ss`.
pub open spec fn carries_secret(alg: KemAlgorithm, pk: Seq<u8>, ct: Seq<u8>, ss: Seq<u8>) -> bool {
    forall|sk: Seq<u8>| is_key_pair(alg, pk, sk) ==> #[trigger] decapsulation(alg, ct, sk) == ss
}

/// `prefix` followed by the text of a decoding error.
fn decode_error_message(prefix: &str, e: &pqcrypto_traits::Error) -> (msg: String)
    ensures
        msg@.subrange(0, prefix@.len() as int) == prefix@,
{
    let text = pqcrypto_error_text(e);
    let mut msg = String::from_str(prefix);
    msg.append(text.as_str());
    msg
}

/// Implementation of the Kyber Key Encapsulation Mechanism (KEM) using the pqcrypto ecosystem.
pub struct Kyber {
    algorithm: KemAlgorithm,
}

impl Kyber {
    /// Creates a new Kyber instance for the specified Kyber configuration.
    /// Every `KemAlgorithm` is a Kyber parameter set, so this always succeeds.
    pub fn new(algorithm: KemAlgorithm) -> (r: Result<Self, PqcError>)
        ensures
            r matches Ok(kyber) && kyber.kem_algorithm() == algorithm,
    {
        match algorithm {
            KemAlgorithm::Kyber512 | KemAlgorithm::Kyber768 | KemAlgorithm::Kyber1024 => {
                Ok(Self { algorithm })
            },
        }
    }
}

impl Kem for Kyber {
    closed spec fn kem_algorithm(&self) -> KemAlgorithm {
        self.algorithm
    }

    fn algorithm(&self) -> (a: KemAlgorithm) {
        self.algorithm
    }

    /// Always succeeds: the keys are a fresh key pair of the instance's
    /// parameter set. `rng` is ignored and left untouched: `pqcrypto_kyber`
    /// offers no way to pass in the caller's randomness and draws its own from
    /// the operating system, so the key bytes do not depend on `rng`.
    fn generate_keypair<R: RngCore + CryptoRng>(&self, _rng: &mut R) -> (r: Result<
        (PublicKey, SecretKey),
        PqcError,
    >)
        ensures
            r matches Ok((pk, sk)) && is_key_pair(self.kem_algorithm(), pk@, sk@),
            r matches Ok((pk, sk)) ==> match self.kem_algorithm() {
                KemAlgorithm::Kyber512 => kyber512_is_key_pair(pk@, sk@),
                KemAlgorithm::Kyber768 => kyber768_is_key_pair(pk@, sk@),
                KemAlgorithm::Kyber1024 => kyber1024_is_key_pair(pk@, sk@),
            },
            *final(_rng) == *old(_rng),
    {
        let (pk_bytes, sk_bytes) = match self.algorithm {
            KemAlgorithm::Kyber512 => kyber512_keypair(),
            KemAlgorithm::Kyber768 => kyber768_keypair(),
            KemAlgorithm::Kyber1024 => kyber1024_keypair(),
        };
        let pk = PublicKey::from_bytes(self.algorithm, pk_bytes)?;
        let sk = SecretKey::from_bytes(self.algorithm, sk_bytes)?;
        Ok((pk, sk))
    }

    /// Fails, with an `InvalidConfig` error, exactly when the key is for
    /// another algorithm; otherwise the ciphertext carries the shared secret
    /// to the holder of the paired secret key. `rng` is ignored and left
    /// untouched: `pqcrypto_kyber` draws the encapsulation's randomness from the
    /// operating system, so the ciphertext and secret do not depend on `rng`.
    fn encapsulate<R: RngCore + CryptoRng>(&self, public_key: &PublicKey, _rng: &mut R) -> (r:
        Result<(Ciphertext, SharedSecret), PqcError>)
        ensures
            *final(_rng) == *old(_rng),
            if public_key.algorithm() != self.kem_algorithm() {
                r matches Err(e) && is_invalid_config(e, "Public key algorithm mismatch"@)
            } else {
                r matches Ok((ct, ss)) && carries_secret(self.kem_algorithm(), public_key@, ct@, ss@)
            },
            r matches Ok((ct, ss)) ==> match self.kem_algorithm() {
                KemAlgorithm::Kyber512 => forall|sk: Seq<u8>|
                    kyber512_is_key_pair(public_key@, sk) ==> #[trigger] kyber512_decapsulation(
                        ct@,
                        sk,
                    ) == ss@,
                KemAlgorithm::Kyber768 => forall|sk: Seq<u8>|
                    kyber768_is_key_pair(public_key@, sk) ==> #[trigger] kyber768_decapsulation(
                        ct@,
                        sk,
                    ) == ss@,
                KemAlgorithm::Kyber1024 => forall|sk: Seq<u8>|
                    kyber1024_is_key_pair(public_key@, sk) ==> #[trigger] kyber1024_decapsulation(
                        ct@,
                        sk,
                    ) == ss@,
            },
    {
        if public_key.algorithm() != self.algorithm {
            return Err(PqcError::InvalidConfig(String::from_str("Public key algorithm mismatch")));
        }
        let encapsulated = match self.algorithm {
            KemAlgorithm::Kyber512 => kyber512_encapsulate(public_key.as_bytes()),
            KemAlgorithm::Kyber768 => kyber768_encapsulate(public_key.as_bytes()),
            KemAlgorithm::Kyber1024 => kyber1024_encapsulate(public_key.as_bytes()),
        };
        let (ct_bytes, ss_bytes) = match encapsulated {
            Ok(pair) => pair,
            Err(e) => {
                return Err(
                    PqcError::SerializationError(
                        decode_error_message("Invalid public key bytes: ", &e),
                    ),
                );
            },
        };
        let ct = Ciphertext::from_bytes(self.algorithm, ct_bytes)?;
        let ss = SharedSecret::from_bytes(self.algorithm, ss_bytes)?;
        Ok((ct, ss))
    }

    /// Fails, with an `InvalidConfig` error, exactly when the ciphertext or the
    /// secret key is for another algorithm; otherwise the shared secret is the
    /// Kyber decapsulation of the two.
    fn decapsulate(&self, ciphertext: &Ciphertext, secret_key: &SecretKey) -> (r: Result<
        SharedSecret,
        PqcError,
    >)
        ensures
            if ciphertext.algorithm() != self.kem_algorithm() || secret_key.algorithm()
                != self.kem_algorithm() {
                r matches Err(e) && is_invalid_config(
                    e,
                    "Ciphertext or secret key algorithm mismatch"@,
                )
            } else {
                r matches Ok(ss) && ss@ == decapsulation(self.kem_algorithm(), ciphertext@, secret_key@)
            },
            r matches Ok(ss) ==> match self.kem_algorithm() {
                KemAlgorithm::Kyber512 => ss@ == kyber512_decapsulation(ciphertext@, secret_key@),
                KemAlgorithm::Kyber768 => ss@ == kyber768_decapsulation(ciphertext@, secret_key@),
                KemAlgorithm::Kyber1024 => ss@ == kyber1024_decapsulation(ciphertext@, secret_key@),
            },
    {
        if ciphertext.algorithm() != self.algorithm || secret_key.algorithm() != self.algorithm {
            return Err(
                PqcError::InvalidConfig(
                    String::from_str("Ciphertext or secret key algorithm mismatch"),
                ),
            );
        }
        let ct = ciphertext.as_bytes();
        let sk = secret_key.expose_secret();
        let decapsulated = match self.algorithm {
            KemAlgorithm::Kyber512 => kyber512_decapsulate(ct, sk),
            KemAlgorithm::Kyber768 => kyber768_decapsulate(ct, sk),
            KemAlgorithm::Kyber1024 => kyber1024_decapsulate(ct, sk),
        };
        let ss_bytes = match decapsulated {
            Ok(bytes) => bytes,
            Err(DecodeFailure::Ciphertext(e)) => {
                return Err(
                    PqcError::SerializationError(
                        decode_error_message("Invalid ciphertext bytes: ", &e),
                    ),
                );
            },
            Err(DecodeFailure::SecretKey(e)) => {
                return Err(
                    PqcError::SerializationError(
                        decode_error_message("Invalid secret key bytes: ", &e),
                    ),
                );
            },
        };
        SharedSecret::from_bytes(self.algorithm, ss_bytes)
    }
}

/// The crate's Kyber specifications are the primitive's own: for every
/// parameter set, `is_key_pair` is the key-pair relation of that set's
/// `pqcrypto_kyber` keypair and `decapsulation` is that set's
/// `pqcrypto_kyber` decapsulation, on the unchanged bytes.
pub proof fn lemma_kyber_specs_are_the_primitive(pk: Seq<u8>, sk: Seq<u8>, ct: Seq<u8>)
    ensures
        is_key_pair(KemAlgorithm::Kyber512, pk, sk) == kyber512_is_key_pair(pk, sk),
        is_key_pair(KemAlgorithm::Kyber768, pk, sk) == kyber768_is_key_pair(pk, sk),
        is_key_pair(KemAlgorithm::Kyber1024, pk, sk) == kyber1024_is_key_pair(pk, sk),
        decapsulation(KemAlgorithm::Kyber512, ct, sk) == kyber512_decapsulation(ct, sk),
        decapsulation(KemAlgorithm::Kyber768, ct, sk) == kyber768_decapsulation(ct, sk),
        decapsulation(KemAlgorithm::Kyber1024, ct, sk) == kyber1024_decapsulation(ct, sk),
{
}

/// A ciphertext carries a secret exactly when the primitive's decapsulation
/// of it, with any secret key that the primitive's keypair pairs with the
/// public key, gives that secret (shown for Kyber-768; the other sets are the
/// same by `lemma_kyber_specs_are_the_primitive`).
pub proof fn lemma_carries_secret_is_the_primitive(pk: Seq<u8>, ct: Seq<u8>, ss: Seq<u8>)
    ensures
        carries_secret(KemAlgorithm::Kyber768, pk, ct, ss) <==> (forall|sk: Seq<u8>|
            kyber768_is_key_pair(pk, sk) ==> #[trigger] kyber768_decapsulation(ct, sk) == ss),
        carries_secret(KemAlgorithm::Kyber512, pk, ct, ss) <==> (forall|sk: Seq<u8>|
            kyber512_is_key_pair(pk, sk) ==> #[trigger] kyber512_decapsulation(ct, sk) == ss),
        carries_secret(KemAlgorithm::Kyber1024, pk, ct, ss) <==> (forall|sk: Seq<u8>|
            kyber1024_is_key_pair(pk, sk) ==> #[trigger] kyber1024_decapsulation(ct, sk) == ss),
{
    assert(carries_secret(KemAlgorithm::Kyber768, pk, ct, ss) ==> (forall|sk: Seq<u8>|
        kyber768_is_key_pair(pk, sk) ==> #[trigger] kyber768_decapsulation(ct, sk) == ss)) by {
        if carries_secret(KemAlgorithm::Kyber768, pk, ct, ss) {
            assert forall|sk: Seq<u8>| kyber768_is_key_pair(pk, sk) implies #[trigger]
                kyber768_decapsulation(ct, sk) == ss by {
                assert(is_key_pair(KemAlgorithm::Kyber768, pk, sk));
                assert(decapsulation(KemAlgorithm::Kyber768, ct, sk) == ss);
            }
        }
    }
    assert(carries_secret(KemAlgorithm::Kyber512, pk, ct, ss) ==> (forall|sk: Seq<u8>|
        kyber512_is_key_pair(pk, sk) ==> #[trigger] kyber512_decapsulation(ct, sk) == ss)) by {
        if carries_secret(KemAlgorithm::Kyber512, pk, ct, ss) {
            assert forall|sk: Seq<u8>| kyber512_is_key_pair(pk, sk) implies #[trigger]
                kyber512_decapsulation(ct, sk) == ss by {
                assert(is_key_pair(KemAlgorithm::Kyber512, pk, sk));
                assert(decapsulation(KemAlgorithm::Kyber512, ct, sk) == ss);
            }
        }
    }
    assert(carries_secret(KemAlgorithm::Kyber1024, pk, ct, ss) ==> (forall|sk: Seq<u8>|
        kyber1024_is_key_pair(pk, sk) ==> #[trigger] kyber1024_decapsulation(ct, sk) == ss)) by {
        if carries_secret(KemAlgorithm::Kyber1024, pk, ct, ss) {
            assert forall|sk: Seq<u8>| kyber1024_is_key_pair(pk, sk) implies #[trigger]
                kyber1024_decapsulation(ct, sk) == ss by {
                assert(is_key_pair(KemAlgorithm::Kyber1024, pk, sk));
                assert(decapsulation(KemAlgorithm::Kyber1024, ct, sk) == ss);
            }
        }
    }
}

/// Both parties derive the same shared secret: when `ct` carries `ss` under
/// the public key `pk` (what `encapsulate` ensures) and `sk` is paired with
/// `pk` (what `generate_keypair` ensures), decapsulating `ct` with `sk` (what
/// `decapsulate` returns) gives `ss`.
pub proof fn lemma_shared_secrets_agree(
    alg: KemAlgorithm,
    pk: Seq<u8>,
    sk: Seq<u8>,
    ct: Seq<u8>,
    ss: Seq<u8>,
)
    requires
        is_key_pair(alg, pk, sk),
        carries_secret(alg, pk, ct, ss),
    ensures
        decapsulation(alg, ct, sk) == ss,
{
}

} // verus!
