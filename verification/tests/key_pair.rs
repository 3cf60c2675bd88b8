use doc_signer::error::KeyGenError;
use doc_signer::key_pair::signature_accepted;
use doc_signer::key_pair::Ed25519KeyPairGenerator;
use ring::error::Unspecified;
use ring::rand::SystemRandom;
use ring::signature::Ed25519KeyPair;
use ring::signature::KeyPair;
use ring::signature::UnparsedPublicKey;
use ring::signature::ED25519;

fn hex(text: &str) -> Vec<u8> {
    let digits: Vec<u8> = text
        .bytes()
        .map(|b| match b {
            b'0'..=b'9' => b - b'0',
            b'a'..=b'f' => b - b'a' + 10,
            _ => panic!("not a hex digit"),
        })
        .collect();
    digits.chunks(2).map(|pair| pair[0] * 16 + pair[1]).collect()
}

/// The PKCS#8 v2 document that holds an Ed25519 seed and its public key.
fn pkcs8_v2(seed: &[u8], public_key: &[u8]) -> Vec<u8> {
    let mut document = hex("3051020101300506032b657004220420");
    document.extend_from_slice(seed);
    document.extend_from_slice(&hex("812100"));
    document.extend_from_slice(public_key);
    document
}

const SEED_1: &str = "9d61b19deffd5a60ba844af492ec2cc44449c5697b326919703bac031cae7f60";
const PUBLIC_1: &str = "d75a980182b10ab7d54bfed3c964073a0ee172f3daa62325af021a68f707511a";
const SIGNATURE_1: &str = "e5564300c360ac729086e2cc806e828a84877f1eb8e5d974d873e06522490155\
5fb8821590a33bacc61e39701cf9b46bd25bf5f0595bbe24655141438e7a100b";

const SEED_2: &str = "4ccd089b28ff96da9db6c346ec114e0f5b8a319f35aba624da8cf6ed4fb8a6fb";
const PUBLIC_2: &str = "3d4017c3e843895a92b70aa74d1b7ebc9c982ccf2ec4968cc0cd55f12af4660c";
const SIGNATURE_2: &str = "92a009a9f0d4cab8720e820b5f642540a2b27b5416503f8fb3762223ebdb69da\
085ac1e43e15996e458f3613d0f11d8c387b2eaeb4302aeeb00d291612bb0c00";

#[test]
fn test_keypair_operations() {
    let key_pair = Ed25519KeyPairGenerator::generate().unwrap();
    assert_eq!(key_pair.public_key().len(), 32);
}

#[test]
fn generated_key_pairs_differ() {
    let first = Ed25519KeyPairGenerator::generate().unwrap();
    let second = Ed25519KeyPairGenerator::generate().unwrap();
    assert_ne!(first.public_key(), second.public_key());
}

#[test]
fn generated_key_pair_signs_what_its_public_key_accepts() {
    let key_pair = Ed25519KeyPairGenerator::generate().unwrap();
    let signature = key_pair.sign(b"hello, world");
    assert_eq!(signature.len(), 64);
    assert!(key_pair.verify(b"hello, world", &signature));
    assert!(signature_accepted(key_pair.public_key(), b"hello, world", &signature));
    let checked_by_ring = UnparsedPublicKey::new(&ED25519, key_pair.public_key().as_slice())
        .verify(b"hello, world", &signature);
    assert!(checked_by_ring.is_ok());
}

#[test]
fn from_pkcs8_reads_the_public_key_of_the_document() {
    let key_pair =
        Ed25519KeyPairGenerator::from_pkcs8(pkcs8_v2(&hex(SEED_1), &hex(PUBLIC_1))).unwrap();
    assert_eq!(key_pair.public_key(), &hex(PUBLIC_1));
    let other =
        Ed25519KeyPairGenerator::from_pkcs8(pkcs8_v2(&hex(SEED_2), &hex(PUBLIC_2))).unwrap();
    assert_eq!(other.public_key(), &hex(PUBLIC_2));
}

#[test]
fn from_pkcs8_agrees_with_the_provider() {
    let document = Ed25519KeyPair::generate_pkcs8(&SystemRandom::new()).unwrap();
    let expected = Ed25519KeyPair::from_pkcs8(document.as_ref()).unwrap();
    let key_pair = Ed25519KeyPairGenerator::from_pkcs8(document.as_ref().to_vec()).unwrap();
    assert_eq!(key_pair.public_key().as_slice(), expected.public_key().as_ref());
    assert_eq!(key_pair.sign(b"payload"), expected.sign(b"payload").as_ref().to_vec());
}

#[test]
fn from_pkcs8_rejects_what_is_no_document() {
    assert!(matches!(
        Ed25519KeyPairGenerator::from_pkcs8(Vec::new()),
        Err(KeyGenError::KeyPairCreation(_))
    ));
    assert!(matches!(
        Ed25519KeyPairGenerator::from_pkcs8(vec![1, 2, 3, 4]),
        Err(KeyGenError::KeyPairCreation(_))
    ));
}

#[test]
fn from_pkcs8_rejects_a_public_key_that_is_not_the_seeds() {
    let mixed = pkcs8_v2(&hex(SEED_1), &hex(PUBLIC_2));
    assert!(matches!(
        Ed25519KeyPairGenerator::from_pkcs8(mixed),
        Err(KeyGenError::KeyPairCreation(_))
    ));
}

#[test]
fn from_generated_passes_a_failed_generation_on() {
    assert!(matches!(
        Ed25519KeyPairGenerator::from_generated(Err(Unspecified)),
        Err(KeyGenError::Pkcs8Generation(Unspecified))
    ));
}

#[test]
fn from_generated_builds_the_key_pair_of_the_document() {
    let issued =
        Ed25519KeyPairGenerator::from_generated(Ok(pkcs8_v2(&hex(SEED_1), &hex(PUBLIC_1))));
    assert_eq!(issued.unwrap().public_key(), &hex(PUBLIC_1));
    assert!(matches!(
        Ed25519KeyPairGenerator::from_generated(Ok(vec![0x30, 0x00])),
        Err(KeyGenError::KeyPairCreation(_))
    ));
}

#[test]
fn sign_gives_the_known_signatures() {
    let first =
        Ed25519KeyPairGenerator::from_pkcs8(pkcs8_v2(&hex(SEED_1), &hex(PUBLIC_1))).unwrap();
    assert_eq!(first.sign(b""), hex(SIGNATURE_1));
    let second =
        Ed25519KeyPairGenerator::from_pkcs8(pkcs8_v2(&hex(SEED_2), &hex(PUBLIC_2))).unwrap();
    assert_eq!(second.sign(&[0x72]), hex(SIGNATURE_2));
}

#[test]
fn sign_is_repeatable() {
    let key_pair = Ed25519KeyPairGenerator::generate().unwrap();
    assert_eq!(key_pair.sign(b"same message"), key_pair.sign(b"same message"));
    assert_ne!(key_pair.sign(b"same message"), key_pair.sign(b"other message"));
}

#[test]
fn verify_tells_right_from_wrong() {
    let key_pair =
        Ed25519KeyPairGenerator::from_pkcs8(pkcs8_v2(&hex(SEED_2), &hex(PUBLIC_2))).unwrap();
    assert!(key_pair.verify(&[0x72], &hex(SIGNATURE_2)));
    assert!(!key_pair.verify(&[0x73], &hex(SIGNATURE_2)));
    assert!(!key_pair.verify(&[0x72], &hex(SIGNATURE_1)));
    assert!(!key_pair.verify(&[0x72], &[]));
}

#[test]
fn signature_accepted_tells_right_from_wrong() {
    assert!(signature_accepted(&hex(PUBLIC_1), b"", &hex(SIGNATURE_1)));
    assert!(signature_accepted(&hex(PUBLIC_2), &[0x72], &hex(SIGNATURE_2)));
    assert!(!signature_accepted(&hex(PUBLIC_2), b"", &hex(SIGNATURE_1)));
    assert!(!signature_accepted(&hex(PUBLIC_1), &[0x72], &hex(SIGNATURE_1)));
    let mut damaged = hex(SIGNATURE_1);
    damaged[10] ^= 0x01;
    assert!(!signature_accepted(&hex(PUBLIC_1), b"", &damaged));
}

#[test]
fn signature_accepted_answers_false_to_malformed_input() {
    assert!(!signature_accepted(&[], b"", &hex(SIGNATURE_1)));
    assert!(!signature_accepted(&hex(PUBLIC_1)[..31], b"", &hex(SIGNATURE_1)));
    assert!(!signature_accepted(&hex(PUBLIC_1), b"", &hex(SIGNATURE_1)[..63]));
    assert!(!signature_accepted(&hex(PUBLIC_1), b"", &[0u8; 65]));
}
