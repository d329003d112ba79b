//! The Kyber-768 service operations on hexadecimal text: what the HTTP
//! endpoints compute between reading a request and writing its response.
//! Failures carry an HTTP status code and the error text.
use vstd::prelude::*;
use vstd::string::StringExecFns;
use rand_core::{CryptoRng, RngCore};
use crate::config::KemAlgorithm;
use crate::errors::PqcError;
use crate::hex_text::{hex_bytes, hex_decode, hex_encode, is_hex_text, lemma_lower_hex_round_trip, lower_hex};
use crate::kem::kyber::{Kyber, carries_secret, decapsulation, is_key_pair};
use crate::kem::{
    Ciphertext, Kem, PublicKey, SecretKey, ciphertext_length_text, public_key_length_text,
    secret_key_length_text,
};

verus! {

/// Status of a request whose input is malformed.
pub const BAD_REQUEST: u16 = 400;

/// Status of a request that failed inside the service.
pub const INTERNAL_ERROR: u16 = 500;

/// The text of a failed deserialization whose detail is `detail`.
pub open spec fn serialization_failure(detail: Seq<char>) -> Seq<char> {
    "Serialization or deserialization failed: "@ + detail
}

/// The failure `r` carries `status` and `text`.
pub open spec fn fails_with<T>(r: Result<T, (u16, String)>, status: u16, text: Seq<char>) -> bool {
    r matches Err((code, message)) && code == status && message@ == text
}

/// `s` is lower-case hexadecimal text of `len` bytes.
pub open spec fn is_lower_hex_of_len(s: Seq<char>, len: nat) -> bool {
    &&& s == lower_hex(hex_bytes(s))
    &&& hex_bytes(s).len() == len
}

fn fail<T>(status: u16, e: PqcError) -> (r: Result<T, (u16, String)>)
    ensures
        r matches Err((code, message)) && code == status && message@ == e.heading() + e.detail(),
{
    Err((status, e.message()))
}

/// Generates a Kyber-768 key pair and returns it as lower-case hex text
/// (public key, secret key). Always succeeds; `rng` is left untouched, since
/// Kyber draws its randomness from the system.
pub fn generate_keypair_hex<R: RngCore + CryptoRng>(rng: &mut R) -> (r: Result<
    (String, String),
    (u16, String),
>)
    ensures
        *final(rng) == *old(rng),
        r matches Ok((pk_hex, sk_hex)) && is_lower_hex_of_len(pk_hex@, 1184)
            && is_lower_hex_of_len(sk_hex@, 2400) && is_key_pair(
            KemAlgorithm::Kyber768,
            hex_bytes(pk_hex@),
            hex_bytes(sk_hex@),
        ),
{
    let kyber = match Kyber::new(KemAlgorithm::Kyber768) {
        Ok(kyber) => kyber,
        Err(e) => return fail(INTERNAL_ERROR, e),
    };
    let (pk, sk) = match kyber.generate_keypair(rng) {
        Ok(pair) => pair,
        Err(e) => return fail(INTERNAL_ERROR, e),
    };
    let pk_hex = hex_encode(pk.as_bytes());
    let sk_hex = hex_encode(sk.expose_secret());
    proof {
        lemma_lower_hex_round_trip(pk@);
        lemma_lower_hex_round_trip(sk@);
    }
    Ok((pk_hex, sk_hex))
}

/// Encapsulates a fresh shared secret to the Kyber-768 public key spelled by
/// `public_key_hex`, returning (ciphertext, shared secret) as lower-case hex
/// text. Fails with status 400 when the text is not hex or does not spell a
/// key of the right length. `rng` is left untouched.
pub fn encapsulate_hex<R: RngCore + CryptoRng>(public_key_hex: &str, rng: &mut R) -> (r: Result<
    (String, String),
    (u16, String),
>)
    ensures
        *final(rng) == *old(rng),
        if !is_hex_text(public_key_hex@) {
            fails_with(r, BAD_REQUEST, "Invalid hex for public key"@)
        } else if hex_bytes(public_key_hex@).len() != 1184 {
            fails_with(
                r,
                BAD_REQUEST,
                serialization_failure(
                    public_key_length_text(1184, hex_bytes(public_key_hex@).len()),
                ),
            )
        } else {
            r matches Ok((ct_hex, ss_hex)) && is_lower_hex_of_len(ct_hex@, 1088)
                && is_lower_hex_of_len(ss_hex@, 32) && carries_secret(
                KemAlgorithm::Kyber768,
                hex_bytes(public_key_hex@),
                hex_bytes(ct_hex@),
                hex_bytes(ss_hex@),
            )
        },
{
    let kyber = match Kyber::new(KemAlgorithm::Kyber768) {
        Ok(kyber) => kyber,
        Err(e) => return fail(INTERNAL_ERROR, e),
    };
    let pk_bytes = match hex_decode(public_key_hex) {
        Some(bytes) => bytes,
        None => return Err((BAD_REQUEST, String::from_str("Invalid hex for public key"))),
    };
    let pk = match PublicKey::from_bytes(KemAlgorithm::Kyber768, pk_bytes) {
        Ok(pk) => pk,
        Err(e) => return fail(BAD_REQUEST, e),
    };
    let (ct, ss) = match kyber.encapsulate(&pk, rng) {
        Ok(pair) => pair,
        Err(e) => return fail(INTERNAL_ERROR, e),
    };
    let ct_hex = hex_encode(ct.as_bytes());
    let ss_hex = hex_encode(ss.expose_secret());
    proof {
        lemma_lower_hex_round_trip(ct@);
        lemma_lower_hex_round_trip(ss@);
    }
    Ok((ct_hex, ss_hex))
}

/// Decapsulates the Kyber-768 ciphertext spelled by `ciphertext_hex` with the
/// secret key spelled by `secret_key_hex`, returning the shared secret as
/// lower-case hex text. The secret key is read first, then the ciphertext;
/// each fails with status 400 when it is not hex or has the wrong length.
pub fn decapsulate_hex(secret_key_hex: &str, ciphertext_hex: &str) -> (r: Result<
    String,
    (u16, String),
>)
    ensures
        if !is_hex_text(secret_key_hex@) {
            fails_with(r, BAD_REQUEST, "Invalid hex for secret key"@)
        } else if hex_bytes(secret_key_hex@).len() != 2400 {
            fails_with(
                r,
                BAD_REQUEST,
                serialization_failure(
                    secret_key_length_text(2400, hex_bytes(secret_key_hex@).len()),
                ),
            )
        } else if !is_hex_text(ciphertext_hex@) {
            fails_with(r, BAD_REQUEST, "Invalid hex for ciphertext"@)
        } else if hex_bytes(ciphertext_hex@).len() != 1088 {
            fails_with(
                r,
                BAD_REQUEST,
                serialization_failure(
                    ciphertext_length_text(1088, hex_bytes(ciphertext_hex@).len()),
                ),
            )
        } else {
            r matches Ok(ss_hex) && is_lower_hex_of_len(ss_hex@, 32) && ss_hex@ == lower_hex(
                decapsulation(
                    KemAlgorithm::Kyber768,
                    hex_bytes(ciphertext_hex@),
                    hex_bytes(secret_key_hex@),
                ),
            )
        },
{
    let kyber = match Kyber::new(KemAlgorithm::Kyber768) {
        Ok(kyber) => kyber,
        Err(e) => return fail(INTERNAL_ERROR, e),
    };
    let sk_bytes = match hex_decode(secret_key_hex) {
        Some(bytes) => bytes,
        None => return Err((BAD_REQUEST, String::from_str("Invalid hex for secret key"))),
    };
    let sk = match SecretKey::from_bytes(KemAlgorithm::Kyber768, sk_bytes) {
        Ok(sk) => sk,
        Err(e) => return fail(BAD_REQUEST, e),
    };
    let ct_bytes = match hex_decode(ciphertext_hex) {
        Some(bytes) => bytes,
        None => return Err((BAD_REQUEST, String::from_str("Invalid hex for ciphertext"))),
    };
    let ct = match Ciphertext::from_bytes(KemAlgorithm::Kyber768, ct_bytes) {
        Ok(ct) => ct,
        Err(e) => return fail(BAD_REQUEST, e),
    };
    let ss = match kyber.decapsulate(&ct, &sk) {
        Ok(ss) => ss,
        Err(e) => return fail(INTERNAL_ERROR, e),
    };
    let ss_hex = hex_encode(ss.expose_secret());
    proof {
        lemma_lower_hex_round_trip(ss@);
    }
    Ok(ss_hex)
}

/// The service's round trip: when `generate_keypair_hex` gave
/// `(pk_hex, sk_hex)` and `encapsulate_hex(pk_hex)` gave `(ct_hex, ss_hex)`
/// (the conditions below are what their contracts ensure), then
/// `decapsulate_hex(sk_hex, ct_hex)` takes its success branch and returns
/// exactly `ss_hex`.
pub proof fn lemma_service_round_trip(
    pk_hex: Seq<char>,
    sk_hex: Seq<char>,
    ct_hex: Seq<char>,
    ss_hex: Seq<char>,
)
    requires
        is_lower_hex_of_len(pk_hex, 1184),
        is_lower_hex_of_len(sk_hex, 2400),
        is_key_pair(KemAlgorithm::Kyber768, hex_bytes(pk_hex), hex_bytes(sk_hex)),
        is_lower_hex_of_len(ct_hex, 1088),
        is_lower_hex_of_len(ss_hex, 32),
        carries_secret(KemAlgorithm::Kyber768, hex_bytes(pk_hex), hex_bytes(ct_hex), hex_bytes(ss_hex)),
    ensures
        is_hex_text(sk_hex),
        hex_bytes(sk_hex).len() == 2400,
        is_hex_text(ct_hex),
        hex_bytes(ct_hex).len() == 1088,
        lower_hex(decapsulation(KemAlgorithm::Kyber768, hex_bytes(ct_hex), hex_bytes(sk_hex)))
            == ss_hex,
{
    lemma_lower_hex_round_trip(hex_bytes(sk_hex));
    lemma_lower_hex_round_trip(hex_bytes(ct_hex));
    assert(decapsulation(KemAlgorithm::Kyber768, hex_bytes(ct_hex), hex_bytes(sk_hex)) == hex_bytes(
        ss_hex,
    ));
}

} // verus!
