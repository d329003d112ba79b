# pqc_rust

A post-quantum cryptography toolkit, verified with Verus.

- `src/config.rs`: the KEM (Kyber) and signature parameter sets and their byte lengths.
- `src/errors.rs`: the error type and its human-readable message.
- `src/hex_text.rs`: hexadecimal text as `hex::decode` reads it and `hex::encode` writes it.
- `src/service.rs`: the Kyber-768 operations of the HTTP service, on hex text, with
  status codes and error texts.
- `src/text.rs`: decimal rendering and the wording of length and redaction texts.
- `src/secret_bytes.rs`: byte buffers held in `zeroize::Zeroizing`, wiped on drop.
- `src/kem/`: KEM key, ciphertext and shared-secret wrappers, the `Kem` trait, and
  `Kyber`, which calls `pqcrypto_kyber`.
- `src/sig/`: signature key and signature wrappers, the `DigitalSignature` trait, and
  the SPHINCS+ stand-in `SphincsPlus`.
- `app/`: the HTTP service (axum): reads JSON requests, calls `src/service.rs`, writes
  JSON responses.
