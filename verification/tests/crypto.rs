use argon2::password_hash::PasswordHasher;
use argon2::Argon2;
use champ::crypto::hash::{sha3, DIGEST_LENGTH};
use champ::crypto::password::{
    generate_salt, hash, hash_digest, phc_string, raw_output, verdict, verify, HashCheck,
    PasswordDigest, PasswordError, MAX_SALT_LENGTH, SALT_LENGTH,
};
use champ::crypto::signatures::ed25519::{verify_signature, SignatureError};
use champ::encoding::account::{
    account_from_digest, generate_account_address, ACCOUNT_ID_LENGTH,
};
use champ::encoding::bytes::{bytes_equal, to_array_32};
use ed25519_dalek::{Signer, SigningKey};

fn hex(bytes: &[u8]) -> String {
    bytes.iter().map(|byte| format!("{:02x}", byte)).collect()
}

#[test]
fn it_works() {
    let password = b"hunter2";
    let salt = sha3(b":)");

    let some_hash = hash(password, &salt).expect("should hash");
    verify(password, &some_hash.to_string()).expect("should be the same");
}

#[test]
fn sha3_gives_the_known_digests() {
    assert_eq!(
        hex(&sha3(b"abc")),
        "3a985da74fe225b2045c172d6bd390bd855f086e3e9d525b46bfe24511431532"
    );
    assert_eq!(
        hex(&sha3(b"")),
        "a7ffc6f8bf1ed76651c14756a061d662f580ff4de43b49fa82d80a4b80f8434a"
    );
    assert_eq!(sha3(b"abc").len(), DIGEST_LENGTH);
    assert_eq!(DIGEST_LENGTH, 32);
    assert_eq!(sha3(b"abc"), sha3(b"abc"));
    assert_ne!(sha3(b"abc"), sha3(b"abd"));
}

#[test]
fn an_account_id_is_the_head_of_the_key_digest() {
    assert_eq!(ACCOUNT_ID_LENGTH, 24);
    for key in [&b"someKey"[..], &b""[..], &[7u8; 32][..], &[1u8; 100][..]] {
        let account = generate_account_address(key);
        assert_eq!(account.to_vec(), sha3(key)[..24].to_vec());
        assert_eq!(account, generate_account_address(key));
    }
    assert_eq!(
        hex(&generate_account_address(b"abc")),
        "3a985da74fe225b2045c172d6bd390bd855f086e3e9d525b"
    );
    assert_ne!(generate_account_address(b"someKey"), generate_account_address(b"someOtherKey"));
    let mut digest = [0u8; 32];
    for (i, byte) in digest.iter_mut().enumerate() {
        *byte = i as u8;
    }
    let expected: Vec<u8> = (0..24).collect();
    assert_eq!(account_from_digest(&digest).to_vec(), expected);
}

#[test]
fn byte_strings_compare_by_content() {
    assert!(bytes_equal(b"", b""));
    assert!(bytes_equal(b"abc", b"abc"));
    assert!(!bytes_equal(b"abc", b"abd"));
    assert!(!bytes_equal(b"abc", b"xbc"));
    assert!(!bytes_equal(b"abc", b"ab"));
    assert!(!bytes_equal(b"", b"a"));
}

#[test]
fn only_thirty_two_bytes_make_an_identifier() {
    let bytes: Vec<u8> = (0..32).collect();
    let array = to_array_32(&bytes).unwrap();
    assert_eq!(array.to_vec(), bytes);
    assert_eq!(to_array_32(&bytes[..31]), None);
    assert_eq!(to_array_32(&[0u8; 33]), None);
    assert_eq!(to_array_32(&[]), None);
}

#[test]
fn a_signature_is_checked_against_key_and_message() {
    let key = SigningKey::from_bytes(&[42u8; 32]);
    let public_key = key.verifying_key().to_bytes();
    let message = b"the data of a block";
    let signature = key.sign(message).to_bytes();
    let invalid = Err(SignatureError::InvalidSignature);

    assert_eq!(verify_signature(message, &public_key, &signature), Ok(()));
    assert_eq!(verify_signature(b"the data of a blocK", &public_key, &signature), invalid);
    assert_eq!(verify_signature(b"", &public_key, &signature), invalid);

    let mut forged = signature;
    forged[10] ^= 4;
    assert_eq!(verify_signature(message, &public_key, &forged), invalid);

    let other = SigningKey::from_bytes(&[43u8; 32]).verifying_key().to_bytes();
    assert_eq!(verify_signature(message, &other, &signature), invalid);

    assert_eq!(verify_signature(message, &public_key[..31], &signature), invalid);
    assert_eq!(verify_signature(message, b"someKey", &signature), invalid);
    assert_eq!(verify_signature(message, &public_key, &signature[..63]), invalid);
    assert_eq!(verify_signature(message, &public_key, b"signedByMe"), invalid);
    assert_eq!(verify_signature(message, &[], &[]), invalid);
}

#[test]
fn a_hash_is_that_of_argon2_under_the_encoded_salt() {
    let ours = hash(b"hunter2", b"saltsalt").expect("should hash");
    let theirs = Argon2::default()
        .hash_password(b"hunter2", "c2FsdHNhbHQ")
        .expect("should hash")
        .to_string();
    assert_eq!(ours, theirs);
    assert!(ours.starts_with("$argon2id$v=19$m=4096,t=3,p=1$c2FsdHNhbHQ$"));
    assert_eq!(hash(b"hunter2", b"saltsalt"), Ok(ours.clone()));
    assert_ne!(hash(b"hunter3", b"saltsalt"), Ok(ours.clone()));
    assert_ne!(hash(b"hunter2", b"saltsalu"), Ok(ours));
}

#[test]
fn a_digest_is_the_raw_output_of_the_hash() {
    let digest = hash_digest(b"hunter2", b"saltsalt").expect("should hash");
    assert_eq!(digest.len(), 32);
    let theirs = Argon2::default().hash_password(b"hunter2", "c2FsdHNhbHQ").expect("should hash");
    assert_eq!(digest, theirs.hash.unwrap().as_bytes().to_vec());
    assert_eq!(hash_digest(b"hunter2", b"saltsalt"), Ok(digest.clone()));
    assert_ne!(hash_digest(b"hunter2", b"saltsalu"), Ok(digest));
}

#[test]
fn a_salt_that_does_not_fit_a_salt_string_is_refused() {
    assert_eq!(MAX_SALT_LENGTH, 48);
    let refused = PasswordError::Hash("error encoding salt".to_string());
    assert_eq!(hash(b"hunter2", &[1u8; 49]), Err(refused.clone()));
    assert_eq!(hash_digest(b"hunter2", &[1u8; 49]), Err(refused.clone()));
    assert_eq!(hash(b"hunter2", &[1u8; 1000]), Err(refused));
    assert!(hash(b"hunter2", &[1u8; 48]).is_ok());
    assert!(hash_digest(b"hunter2", &[1u8; 48]).is_ok());
}

#[test]
fn a_salt_that_argon2_finds_too_short_is_refused_with_its_words() {
    for length in 0..8usize {
        let salt = vec![5u8; length];
        match hash(b"hunter2", &salt) {
            Err(PasswordError::Hash(reason)) => assert_ne!(reason, "error encoding salt"),
            other => panic!("salt of {} bytes gave {:?}", length, other),
        }
        assert!(matches!(hash_digest(b"hunter2", &salt), Err(PasswordError::Hash(_))));
    }
    assert!(hash(b"hunter2", &[5u8; 8]).is_ok());
}

#[test]
fn a_password_is_verified_against_its_hash_alone() {
    let some_hash = hash(b"hunter2", b"0123456789abcdef").expect("should hash");
    assert_eq!(verify(b"hunter2", &some_hash), Ok(()));
    assert_eq!(verify(b"hunter3", &some_hash), Err(PasswordError::Verify));
    assert_eq!(verify(b"", &some_hash), Err(PasswordError::Verify));
    assert_eq!(verify(b"hunter2", "not a hash"), Err(PasswordError::PwHash));
    assert_eq!(verify(b"hunter2", ""), Err(PasswordError::PwHash));
    assert_eq!(verify(b"hunter2", &some_hash[1..]), Err(PasswordError::PwHash));
}

#[test]
fn hashing_outcomes_are_turned_into_results() {
    let digest = PasswordDigest { phc: "$argon2id$x".to_string(), output: Some(vec![1, 2, 3]) };
    assert_eq!(phc_string(Ok(digest.clone())), Ok("$argon2id$x".to_string()));
    assert_eq!(raw_output(Ok(digest)), Ok(vec![1, 2, 3]));
    let empty = PasswordDigest { phc: "$argon2id$y".to_string(), output: None };
    assert_eq!(phc_string(Ok(empty.clone())), Ok("$argon2id$y".to_string()));
    assert_eq!(raw_output(Ok(empty)), Err(PasswordError::Hash("no hash".to_string())));
    assert_eq!(
        phc_string(Err("salt too short".to_string())),
        Err(PasswordError::Hash("salt too short".to_string()))
    );
    assert_eq!(
        raw_output(Err("salt too short".to_string())),
        Err(PasswordError::Hash("salt too short".to_string()))
    );
    assert_eq!(verdict(HashCheck::Match), Ok(()));
    assert_eq!(verdict(HashCheck::Mismatch), Err(PasswordError::Verify));
    assert_eq!(verdict(HashCheck::Malformed), Err(PasswordError::PwHash));
}

#[test]
fn salts_are_sixteen_random_bytes() {
    assert_eq!(SALT_LENGTH, 16);
    let first = generate_salt().expect("should generate");
    let second = generate_salt().expect("should generate");
    assert_eq!(first.len(), SALT_LENGTH);
    assert_ne!(first, second);
    assert!(hash(b"hunter2", &first).is_ok());
}

#[test]
fn password_errors_describe_themselves() {
    assert_eq!(
        PasswordError::Hash("no hash".to_string()).message(),
        "error hashing password: no hash"
    );
    assert_eq!(PasswordError::Hash(String::new()).message(), "error hashing password: ");
    assert_eq!(PasswordError::Verify.message(), "error verifying password");
    assert_eq!(PasswordError::PwHash.message(), "error hashing password");
    assert_eq!(PasswordError::RandomFillError.message(), "error getting enough random data");
}
