use pqc_rust::service::{decapsulate_hex, encapsulate_hex, generate_keypair_hex};
use pqc_rust::{
    Ciphertext, DigitalSignature, Kem, KemAlgorithm, KemPublicKey, KemSecretKey, Kyber, PqcError,
    SharedSecret, SigAlgorithm, SigPublicKey, SigSecretKey, Signature, SphincsPlus,
};

struct CountingRng {
    next: u8,
}

impl rand_core::RngCore for CountingRng {
    fn next_u32(&mut self) -> u32 {
        let mut b = [0u8; 4];
        self.fill_bytes(&mut b);
        u32::from_le_bytes(b)
    }

    fn next_u64(&mut self) -> u64 {
        let mut b = [0u8; 8];
        self.fill_bytes(&mut b);
        u64::from_le_bytes(b)
    }

    fn fill_bytes(&mut self, dest: &mut [u8]) {
        for byte in dest.iter_mut() {
            *byte = self.next;
            self.next = self.next.wrapping_add(1);
        }
    }

    fn try_fill_bytes(&mut self, dest: &mut [u8]) -> Result<(), rand_core::Error> {
        self.fill_bytes(dest);
        Ok(())
    }
}

impl rand_core::CryptoRng for CountingRng {}

fn serialization(text: &str) -> PqcError {
    PqcError::SerializationError(text.to_string())
}

#[test]
fn kem_lengths_per_parameter_set() {
    let expected = [
        (KemAlgorithm::Kyber512, 800, 1632, 768),
        (KemAlgorithm::Kyber768, 1184, 2400, 1088),
        (KemAlgorithm::Kyber1024, 1568, 3168, 1568),
    ];
    for (algo, pk, sk, ct) in expected {
        assert_eq!(algo.public_key_len(), pk);
        assert_eq!(algo.secret_key_len(), sk);
        assert_eq!(algo.ciphertext_len(), ct);
        assert_eq!(algo.shared_secret_len(), 32);
    }
}

#[test]
fn signature_lengths_per_scheme() {
    let expected = [
        (SigAlgorithm::Dilithium2, 1312, 2528, 2420),
        (SigAlgorithm::Dilithium3, 1952, 4000, 3300),
        (SigAlgorithm::Dilithium5, 2592, 4864, 4595),
        (SigAlgorithm::Falcon512, 897, 1281, 666),
        (SigAlgorithm::Falcon1024, 1793, 2305, 1280),
        (SigAlgorithm::SphincsPlus128s, 32, 64, 7856),
        (SigAlgorithm::SphincsPlus256s, 64, 128, 29792),
    ];
    for (algo, pk, sk, sig) in expected {
        assert_eq!(algo.public_key_len(), pk);
        assert_eq!(algo.secret_key_len(), sk);
        assert_eq!(algo.signature_len(), sig);
    }
}

#[test]
fn kem_key_round_trips_its_bytes() {
    let bytes: Vec<u8> = (0..1184u32).map(|i| (i % 251) as u8).collect();
    let pk = KemPublicKey::from_bytes(KemAlgorithm::Kyber768, bytes.clone()).unwrap();
    assert_eq!(pk.as_bytes(), &bytes[..]);
    assert_eq!(pk.algorithm(), KemAlgorithm::Kyber768);
    assert_eq!(pk.clone().as_bytes(), &bytes[..]);

    let sk_bytes: Vec<u8> = (0..1632u32).map(|i| (i % 7) as u8).collect();
    let sk = KemSecretKey::from_bytes(KemAlgorithm::Kyber512, sk_bytes.clone()).unwrap();
    assert_eq!(sk.expose_secret(), &sk_bytes[..]);
    assert_eq!(sk.clone().expose_secret(), &sk_bytes[..]);

    let ss = SharedSecret::from_bytes(KemAlgorithm::Kyber1024, vec![9u8; 32]).unwrap();
    assert_eq!(ss.expose_secret(), &[9u8; 32][..]);
    assert_eq!(ss.algorithm(), KemAlgorithm::Kyber1024);
}

#[test]
fn kem_wrong_lengths_are_rejected_with_exact_messages() {
    assert_eq!(
        KemPublicKey::from_bytes(KemAlgorithm::Kyber768, vec![0u8; 10]).unwrap_err(),
        serialization("Invalid public key length. Expected 1184 bytes, got 10")
    );
    assert_eq!(
        KemSecretKey::from_bytes(KemAlgorithm::Kyber512, vec![]).err().unwrap(),
        serialization("Invalid secret key length. Expected 1632 bytes, got 0")
    );
    assert_eq!(
        Ciphertext::from_bytes(KemAlgorithm::Kyber1024, vec![1u8; 1569]).unwrap_err(),
        serialization("Invalid ciphertext length. Expected 1568 bytes, got 1569")
    );
    assert_eq!(
        SharedSecret::from_bytes(KemAlgorithm::Kyber512, vec![1u8; 31]).err().unwrap(),
        serialization("Invalid shared secret length. Expected 32 bytes, got 31")
    );
}

#[test]
fn error_messages_put_heading_before_detail() {
    let cases = [
        (PqcError::KeyGenError("x".to_string()), "Key generation failed: x"),
        (
            PqcError::SerializationError("x".to_string()),
            "Serialization or deserialization failed: x",
        ),
        (PqcError::EncapsulationError("x".to_string()), "Encapsulation failed: x"),
        (PqcError::DecapsulationError("x".to_string()), "Decapsulation failed: x"),
        (PqcError::SigningError("x".to_string()), "Signature signing failed: x"),
        (PqcError::VerificationError("x".to_string()), "Signature verification failed: x"),
        (
            PqcError::InvalidConfig("x".to_string()),
            "Invalid algorithm configuration or parameters: x",
        ),
    ];
    for (error, text) in cases {
        assert_eq!(error.message(), text);
    }
    let e = KemPublicKey::from_bytes(KemAlgorithm::Kyber512, vec![0u8; 100]).unwrap_err();
    assert_eq!(
        e.message(),
        "Serialization or deserialization failed: Invalid public key length. Expected 800 bytes, got 100"
    );
}

#[test]
fn kyber_rejects_foreign_keys_and_ciphertexts() {
    let mut rng = CountingRng { next: 0 };
    let k512 = Kyber::new(KemAlgorithm::Kyber512).unwrap();
    let k768 = Kyber::new(KemAlgorithm::Kyber768).unwrap();
    let (pk, sk) = k768.generate_keypair(&mut rng).unwrap();
    assert_eq!(
        k512.encapsulate(&pk, &mut rng).err().unwrap(),
        PqcError::InvalidConfig("Public key algorithm mismatch".to_string())
    );
    let (ct, _) = k768.encapsulate(&pk, &mut rng).unwrap();
    assert_eq!(
        k512.decapsulate(&ct, &sk).err().unwrap(),
        PqcError::InvalidConfig("Ciphertext or secret key algorithm mismatch".to_string())
    );
    let (_, sk512) = k512.generate_keypair(&mut rng).unwrap();
    assert_eq!(
        k768.decapsulate(&ct, &sk512).err().unwrap(),
        PqcError::InvalidConfig("Ciphertext or secret key algorithm mismatch".to_string())
    );
}

#[test]
fn kyber_round_trip_and_other_key_disagrees() {
    let mut rng = CountingRng { next: 0 };
    for algo in [KemAlgorithm::Kyber512, KemAlgorithm::Kyber768, KemAlgorithm::Kyber1024] {
        let kyber = Kyber::new(algo).unwrap();
        let (pk, sk) = kyber.generate_keypair(&mut rng).unwrap();
        let (_, other_sk) = kyber.generate_keypair(&mut rng).unwrap();
        let (ct, ss) = kyber.encapsulate(&pk, &mut rng).unwrap();
        let bob = kyber.decapsulate(&ct, &sk).unwrap();
        assert_eq!(bob.expose_secret(), ss.expose_secret());
        assert_eq!(bob.algorithm(), algo);
        // The shared secret is not a copy of the ciphertext's first bytes.
        assert_ne!(bob.expose_secret(), &ct.as_bytes()[..32]);
        // Implicit rejection: another secret key derives another secret.
        let eve = kyber.decapsulate(&ct, &other_sk).unwrap();
        assert_ne!(eve.expose_secret(), ss.expose_secret());
        // Two encapsulations give different ciphertexts.
        let (ct2, _) = kyber.encapsulate(&pk, &mut rng).unwrap();
        assert_ne!(ct.as_bytes(), ct2.as_bytes());
    }
}

#[test]
fn sphincs_rejects_other_schemes() {
    for algo in [
        SigAlgorithm::Dilithium2,
        SigAlgorithm::Dilithium3,
        SigAlgorithm::Dilithium5,
        SigAlgorithm::Falcon512,
        SigAlgorithm::Falcon1024,
    ] {
        assert_eq!(
            SphincsPlus::new(algo).err().unwrap(),
            PqcError::InvalidConfig("Unsupported SPHINCS+ variant".to_string())
        );
    }
}

#[test]
fn sphincs_keys_carry_markers() {
    let sphincs = SphincsPlus::new(SigAlgorithm::SphincsPlus128s).unwrap();
    let mut rng = CountingRng { next: 1 };
    let (pk, sk) = sphincs.generate_keypair(&mut rng).unwrap();
    let mut expected_pk: Vec<u8> = (1..=32).collect();
    expected_pk[0] = 0x50;
    let mut expected_sk: Vec<u8> = (33..=96).collect();
    expected_sk[0] = 0x51;
    assert_eq!(pk.as_bytes(), &expected_pk[..]);
    assert_eq!(sk.expose_secret(), &expected_sk[..]);
    assert_eq!(pk.algorithm(), SigAlgorithm::SphincsPlus128s);
    assert_eq!(sk.algorithm(), SigAlgorithm::SphincsPlus128s);
}

#[test]
fn sphincs_keypair_from_random_bytes_checks_lengths() {
    let sphincs = SphincsPlus::new(SigAlgorithm::SphincsPlus256s).unwrap();
    let (pk, sk) = sphincs.keypair_from_random_bytes(vec![7u8; 64], vec![8u8; 128]).unwrap();
    assert_eq!(pk.as_bytes()[0], 0x50);
    assert_eq!(&pk.as_bytes()[1..], &[7u8; 63][..]);
    assert_eq!(sk.expose_secret()[0], 0x51);
    assert_eq!(&sk.expose_secret()[1..], &[8u8; 127][..]);
    assert_eq!(
        sphincs.keypair_from_random_bytes(vec![], vec![8u8; 128]).err().unwrap(),
        serialization("Invalid public key length. Expected 64 bytes, got 0")
    );
    assert_eq!(
        sphincs.keypair_from_random_bytes(vec![7u8; 64], vec![8u8; 5]).err().unwrap(),
        serialization("Invalid secret key length. Expected 128 bytes, got 5")
    );
}

#[test]
fn sphincs_signature_is_masked_message_then_random() {
    let sphincs = SphincsPlus::new(SigAlgorithm::SphincsPlus128s).unwrap();
    let sig = sphincs.sign_with_random_bytes(b"ab", vec![1, 2, 3, 4]).unwrap();
    assert_eq!(sig.as_bytes(), &[b'a' ^ 0xCC, b'b' ^ 0xCC, 3, 4][..]);
    assert_eq!(sig.algorithm(), SigAlgorithm::SphincsPlus128s);
    let short = sphincs.sign_with_random_bytes(b"abcdef", vec![9, 9]).unwrap();
    assert_eq!(short.as_bytes(), &[b'a' ^ 0xCC, b'b' ^ 0xCC][..]);
    assert_eq!(
        sphincs.sign_with_random_bytes(b"m", vec![0u8; 7857]).err().unwrap(),
        serialization("Signature size exceeds maximum limit of 7856 bytes, got 7857")
    );
}

#[test]
fn sphincs_sign_draws_full_length_signature() {
    let sphincs = SphincsPlus::new(SigAlgorithm::SphincsPlus128s).unwrap();
    let mut rng = CountingRng { next: 0 };
    let (_, sk) = sphincs.generate_keypair(&mut rng).unwrap();
    let sig = sphincs.sign(b"hello", &sk, &mut rng).unwrap();
    assert_eq!(sig.as_bytes().len(), 7856);
    assert_eq!(&sig.as_bytes()[..5], &[b'h' ^ 0xCC, b'e' ^ 0xCC, b'l' ^ 0xCC, b'l' ^ 0xCC, b'o' ^ 0xCC][..]);
    // The bytes after the message come from the generator: 96 bytes went to the keys.
    assert_eq!(sig.as_bytes()[5], 96u8 + 5);
}

#[test]
fn sphincs_rejects_mismatched_algorithms() {
    let s128 = SphincsPlus::new(SigAlgorithm::SphincsPlus128s).unwrap();
    let s256 = SphincsPlus::new(SigAlgorithm::SphincsPlus256s).unwrap();
    let mut rng = CountingRng { next: 0 };
    let (pk, sk) = s128.generate_keypair(&mut rng).unwrap();
    assert_eq!(
        s256.sign(b"m", &sk, &mut rng).err().unwrap(),
        PqcError::InvalidConfig("Secret key algorithm mismatch".to_string())
    );
    let sig = s128.sign(b"m", &sk, &mut rng).unwrap();
    let (pk256, _) = s256.generate_keypair(&mut rng).unwrap();
    assert_eq!(
        s256.verify(b"m", &sig, &pk256).err().unwrap(),
        PqcError::InvalidConfig("Signature or public key algorithm mismatch".to_string())
    );
    assert_eq!(
        s128.verify(b"m", &sig, &pk256).err().unwrap(),
        PqcError::InvalidConfig("Signature or public key algorithm mismatch".to_string())
    );
    assert!(s128.verify(b"m", &sig, &pk).is_ok());
}

#[test]
fn sphincs_verification_checks_only_the_common_prefix() {
    let sphincs = SphincsPlus::new(SigAlgorithm::SphincsPlus128s).unwrap();
    let pk = SigPublicKey::from_bytes(SigAlgorithm::SphincsPlus128s, vec![0u8; 32]).unwrap();
    let sig = Signature::from_bytes(SigAlgorithm::SphincsPlus128s, vec![b'a' ^ 0xCC, b'b' ^ 0xCC]).unwrap();
    assert!(sphincs.verify(b"ab", &sig, &pk).is_ok());
    assert!(sphincs.verify(b"abzzz", &sig, &pk).is_ok());
    assert!(sphincs.verify(b"", &sig, &pk).is_ok());
    assert!(sphincs.verify(b"a", &sig, &pk).is_ok());
    assert_eq!(
        sphincs.verify(b"ax", &sig, &pk).err().unwrap(),
        PqcError::VerificationError("Invalid signature tag mismatch".to_string())
    );
    let empty = Signature::from_bytes(SigAlgorithm::SphincsPlus128s, vec![]).unwrap();
    assert!(sphincs.verify(b"anything", &empty, &pk).is_ok());
}

#[test]
fn tampered_message_is_rejected() {
    let sphincs = SphincsPlus::new(SigAlgorithm::SphincsPlus256s).unwrap();
    let mut rng = CountingRng { next: 3 };
    let (pk, sk) = sphincs.generate_keypair(&mut rng).unwrap();
    let sig = sphincs.sign(b"transfer 10", &sk, &mut rng).unwrap();
    assert!(sphincs.verify(b"transfer 10", &sig, &pk).is_ok());
    assert!(sphincs.verify(b"transfer 90", &sig, &pk).is_err());
}

#[test]
fn signature_limits() {
    let at_limit = Signature::from_bytes(SigAlgorithm::Falcon512, vec![0u8; 666]).unwrap();
    assert_eq!(at_limit.as_bytes().len(), 666);
    assert_eq!(at_limit.clone().as_bytes(), at_limit.as_bytes());
    assert_eq!(
        Signature::from_bytes(SigAlgorithm::Falcon512, vec![0u8; 667]).unwrap_err(),
        serialization("Signature size exceeds maximum limit of 666 bytes, got 667")
    );
    assert_eq!(
        SigSecretKey::from_bytes(SigAlgorithm::Dilithium2, vec![0u8; 1]).err().unwrap(),
        serialization("Invalid secret key length. Expected 2528 bytes, got 1")
    );
    assert_eq!(
        SigPublicKey::from_bytes(SigAlgorithm::Falcon1024, vec![0u8; 1794]).unwrap_err(),
        serialization("Invalid public key length. Expected 1793 bytes, got 1794")
    );
}

#[test]
fn secret_debug_text_hides_the_bytes() {
    let a = KemSecretKey::from_bytes(KemAlgorithm::Kyber768, vec![1u8; 2400]).unwrap();
    let b = KemSecretKey::from_bytes(KemAlgorithm::Kyber768, vec![2u8; 2400]).unwrap();
    assert_eq!(a.debug_text(), "SecretKey { algorithm: Kyber768, bytes: \"<redacted>\" }");
    assert_eq!(a.debug_text(), b.debug_text());
    let ss = SharedSecret::from_bytes(KemAlgorithm::Kyber1024, vec![5u8; 32]).unwrap();
    assert_eq!(ss.debug_text(), "SharedSecret { algorithm: Kyber1024, bytes: \"<redacted>\" }");
    let sk = SigSecretKey::from_bytes(SigAlgorithm::SphincsPlus128s, vec![0u8; 64]).unwrap();
    assert_eq!(sk.debug_text(), "SecretKey { algorithm: SphincsPlus128s, bytes: \"<redacted>\" }");
}

#[test]
fn service_round_trip_over_hex() {
    let mut rng = CountingRng { next: 0 };
    let (pk_hex, sk_hex) = generate_keypair_hex(&mut rng).unwrap();
    assert_eq!(pk_hex.len(), 2368);
    assert_eq!(sk_hex.len(), 4800);
    assert!(pk_hex.chars().all(|c| c.is_ascii_digit() || ('a'..='f').contains(&c)));
    let (ct_hex, ss_hex) = encapsulate_hex(&pk_hex, &mut rng).unwrap();
    assert_eq!(ct_hex.len(), 2176);
    assert_eq!(ss_hex.len(), 64);
    assert_eq!(decapsulate_hex(&sk_hex, &ct_hex).unwrap(), ss_hex);
    // Upper-case hex is accepted as input too.
    assert_eq!(decapsulate_hex(&sk_hex.to_uppercase(), &ct_hex.to_uppercase()).unwrap(), ss_hex);
    // The generator is not consumed by Kyber.
    assert_eq!(rng.next, 0);
}

#[test]
fn service_reports_bad_input() {
    let mut rng = CountingRng { next: 0 };
    assert_eq!(
        encapsulate_hex("xyz1", &mut rng).unwrap_err(),
        (400, "Invalid hex for public key".to_string())
    );
    assert_eq!(
        encapsulate_hex("abc", &mut rng).unwrap_err(),
        (400, "Invalid hex for public key".to_string())
    );
    assert_eq!(
        encapsulate_hex("00ff", &mut rng).unwrap_err(),
        (
            400,
            "Serialization or deserialization failed: Invalid public key length. Expected 1184 bytes, got 2"
                .to_string()
        )
    );
    let sk_hex = "00".repeat(2400);
    assert_eq!(
        decapsulate_hex("zz", "00").unwrap_err(),
        (400, "Invalid hex for secret key".to_string())
    );
    assert_eq!(
        decapsulate_hex("", "zz").unwrap_err(),
        (
            400,
            "Serialization or deserialization failed: Invalid secret key length. Expected 2400 bytes, got 0"
                .to_string()
        )
    );
    assert_eq!(
        decapsulate_hex(&sk_hex, "0g").unwrap_err(),
        (400, "Invalid hex for ciphertext".to_string())
    );
    assert_eq!(
        decapsulate_hex(&sk_hex, "0a0b0c").unwrap_err(),
        (
            400,
            "Serialization or deserialization failed: Invalid ciphertext length. Expected 1088 bytes, got 3"
                .to_string()
        )
    );
}

#[test]
fn signing_with_a_foreign_key_leaves_the_generator_alone() {
    let s128 = SphincsPlus::new(SigAlgorithm::SphincsPlus128s).unwrap();
    let sk = SigSecretKey::from_bytes(SigAlgorithm::SphincsPlus256s, vec![0u8; 128]).unwrap();
    let mut rng = CountingRng { next: 7 };
    assert!(s128.sign(b"m", &sk, &mut rng).is_err());
    assert_eq!(rng.next, 7);
}

#[test]
fn secrets_can_be_wiped_explicitly() {
    let sk = KemSecretKey::from_bytes(KemAlgorithm::Kyber512, vec![3u8; 1632]).unwrap();
    let copy = sk.clone();
    sk.zeroize();
    assert_eq!(copy.expose_secret(), &[3u8; 1632][..]);
    SharedSecret::from_bytes(KemAlgorithm::Kyber768, vec![1u8; 32]).unwrap().zeroize();
    SigSecretKey::from_bytes(SigAlgorithm::SphincsPlus128s, vec![2u8; 64]).unwrap().zeroize();
}

#[test]
fn service_shared_secret_is_64_hex_characters() {
    let mut rng = CountingRng { next: 0 };
    let (pk_hex, sk_hex) = generate_keypair_hex(&mut rng).unwrap();
    let (ct_hex, _) = encapsulate_hex(&pk_hex, &mut rng).unwrap();
    let ss_hex = decapsulate_hex(&sk_hex, &ct_hex).unwrap();
    assert_eq!(ss_hex.len(), 64);
    assert!(ss_hex.chars().all(|c| c.is_ascii_digit() || ('a'..='f').contains(&c)));
}
