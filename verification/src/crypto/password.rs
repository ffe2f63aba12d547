//! Password hashing with Argon2: hashes for node administrators, key
//! material for wallets, and salts.

use argon2::password_hash::{PasswordHash, PasswordHasher, PasswordVerifier, SaltString};
use argon2::Argon2;
use rand::{thread_rng, Rng};
use vstd::prelude::*;
use vstd::string::StringExecFns;

verus! {

/// Why a password could not be hashed or verified.
#[derive(Clone, Debug, PartialEq, Eq)]
pub enum PasswordError {
    /// Hashing failed; the text says why.
    Hash(String),
    /// The password does not belong to the hash.
    Verify,
    /// The hash string is not a password hash.
    PwHash,
    /// Not enough random data could be had.
    RandomFillError,
}

/// The mathematical view of [`PasswordError`].
pub enum PasswordErrorView {
    Hash(Seq<char>),
    Verify,
    PwHash,
    RandomFillError,
}

impl View for PasswordError {
    type V = PasswordErrorView;

    open spec fn view(&self) -> PasswordErrorView {
        match *self {
            PasswordError::Hash(reason) => PasswordErrorView::Hash(reason@),
            PasswordError::Verify => PasswordErrorView::Verify,
            PasswordError::PwHash => PasswordErrorView::PwHash,
            PasswordError::RandomFillError => PasswordErrorView::RandomFillError,
        }
    }
}

impl PasswordErrorView {
    /// The text that describes this error.
    pub open spec fn message_text(self) -> Seq<char> {
        match self {
            PasswordErrorView::Hash(reason) => "error hashing password: "@ + reason,
            PasswordErrorView::Verify => "error verifying password"@,
            PasswordErrorView::PwHash => "error hashing password"@,
            PasswordErrorView::RandomFillError => "error getting enough random data"@,
        }
    }
}

impl PasswordError {
    /// Returns the text that describes this error.
    pub fn message(&self) -> (text: String)
        ensures
            text@ == self@.message_text(),
    {
        match self {
            PasswordError::Hash(reason) => "error hashing password: ".to_owned().concat(
                reason.as_str(),
            ),
            PasswordError::Verify => "error verifying password".to_owned(),
            PasswordError::PwHash => "error hashing password".to_owned(),
            PasswordError::RandomFillError => "error getting enough random data".to_owned(),
        }
    }
}

/// The longest salt, in bytes, whose encoding fits a salt string.
pub const MAX_SALT_LENGTH: usize = 48;

/// Width in bytes of a generated salt.
pub const SALT_LENGTH: usize = 16;

/// What Argon2 made of a password: the hash in PHC string format and, where
/// the hash carries one, the raw output.
#[derive(Clone, Debug, PartialEq, Eq)]
pub struct PasswordDigest {
    pub phc: String,
    pub output: Option<Vec<u8>>,
}

/// The mathematical view of [`PasswordDigest`].
pub struct PasswordDigestView {
    pub phc: Seq<char>,
    pub output: Option<Seq<u8>>,
}

impl View for PasswordDigest {
    type V = PasswordDigestView;

    open spec fn view(&self) -> PasswordDigestView {
        PasswordDigestView {
            phc: self.phc@,
            output: match self.output {
                Some(output) => Some(output@),
                None => None,
            },
        }
    }
}

/// How a password fared against a hash string.
#[derive(Clone, Copy, Debug, PartialEq, Eq)]
pub enum HashCheck {
    /// The string is not a password hash.
    Malformed,
    /// The password does not give the hash.
    Mismatch,
    /// The password gives the hash.
    Match,
}

/// The salt string that `SaltString::b64_encode` makes of the bytes of a
/// salt, or `None` where it refuses them.
pub uninterp spec fn salt_string(salt: Seq<u8>) -> Option<Seq<char>>;

/// What `Argon2::default().hash_password` returns for a password and a salt
/// string: the digest, or the text of the error.
pub uninterp spec fn argon2_digest(password: Seq<u8>, salt: Seq<char>) -> Result<
    PasswordDigestView,
    Seq<char>,
>;

/// How `Argon2::default().verify_password` judges a password against a hash
/// string parsed by `PasswordHash::new`.
pub uninterp spec fn argon2_check(password: Seq<u8>, hash: Seq<char>) -> HashCheck;

/// A hashing outcome over views.
pub open spec fn digest_outcome_view(outcome: Result<PasswordDigest, String>) -> Result<
    PasswordDigestView,
    Seq<char>,
> {
    match outcome {
        Ok(digest) => Ok(digest@),
        Err(reason) => Err(reason@),
    }
}

/// A text or an error, over views.
pub open spec fn text_outcome_view(outcome: Result<String, PasswordError>) -> Result<
    Seq<char>,
    PasswordErrorView,
> {
    match outcome {
        Ok(text) => Ok(text@),
        Err(error) => Err(error@),
    }
}

/// A byte string or an error, over views.
pub open spec fn bytes_outcome_view(outcome: Result<Vec<u8>, PasswordError>) -> Result<
    Seq<u8>,
    PasswordErrorView,
> {
    match outcome {
        Ok(bytes) => Ok(bytes@),
        Err(error) => Err(error@),
    }
}

/// Success or an error, over views.
pub open spec fn unit_outcome_view(outcome: Result<(), PasswordError>) -> Result<
    (),
    PasswordErrorView,
> {
    match outcome {
        Ok(_) => Ok(()),
        Err(error) => Err(error@),
    }
}

/// The PHC string of a hashing outcome; a failure keeps its text.
pub open spec fn phc_of(outcome: Result<PasswordDigestView, Seq<char>>) -> Result<
    Seq<char>,
    PasswordErrorView,
> {
    match outcome {
        Ok(digest) => Ok(digest.phc),
        Err(reason) => Err(PasswordErrorView::Hash(reason)),
    }
}

/// The raw output of a hashing outcome; a digest without output is a failure.
pub open spec fn output_of(outcome: Result<PasswordDigestView, Seq<char>>) -> Result<
    Seq<u8>,
    PasswordErrorView,
> {
    match outcome {
        Ok(digest) => match digest.output {
            Some(output) => Ok(output),
            None => Err(PasswordErrorView::Hash("no hash"@)),
        },
        Err(reason) => Err(PasswordErrorView::Hash(reason)),
    }
}

/// The verdict that a check stands for.
pub open spec fn verdict_of(check: HashCheck) -> Result<(), PasswordErrorView> {
    match check {
        HashCheck::Malformed => Err(PasswordErrorView::PwHash),
        HashCheck::Mismatch => Err(PasswordErrorView::Verify),
        HashCheck::Match => Ok(()),
    }
}

/// The hash of `password` under `salt` in PHC string format.
pub open spec fn hash_outcome(password: Seq<u8>, salt: Seq<u8>) -> Result<
    Seq<char>,
    PasswordErrorView,
> {
    match salt_string(salt) {
        None => Err(PasswordErrorView::Hash("error encoding salt"@)),
        Some(encoded) => phc_of(argon2_digest(password, encoded)),
    }
}

/// The raw Argon2 output for `password` under `salt`.
pub open spec fn hash_digest_outcome(password: Seq<u8>, salt: Seq<u8>) -> Result<
    Seq<u8>,
    PasswordErrorView,
> {
    match salt_string(salt) {
        None => Err(PasswordErrorView::Hash("error encoding salt"@)),
        Some(encoded) => output_of(argon2_digest(password, encoded)),
    }
}

/// Calls `password_hash::SaltString::b64_encode` and hands the salt string
/// out as text.
///
/// Trusted: the encoding is a function of the salt's bytes, and the call
/// succeeds exactly for salts of at most 48 bytes, whose unpadded Base64 fits
/// the 64 characters of a salt string.
#[verifier::external_body]
fn encode_salt(salt: &[u8]) -> (encoded: Option<String>)
    ensures
        encoded is Some <==> salt@.len() <= MAX_SALT_LENGTH,
        match encoded {
            Some(text) => salt_string(salt@) == Some(text@),
            None => salt_string(salt@) is None,
        },
{
    match SaltString::b64_encode(salt) {
        Ok(encoded) => Some(encoded.as_str().to_string()),
        Err(_) => None,
    }
}

/// Calls `argon2::Argon2::default().hash_password` (trait `PasswordHasher`)
/// and hands out the PHC string and the raw output, or the error's text.
///
/// Trusted: the outcome is a function of the password and the salt string
/// alone.
#[verifier::external_body]
fn argon2_hash_password(password: &[u8], salt: &str) -> (outcome: Result<PasswordDigest, String>)
    ensures
        digest_outcome_view(outcome) == argon2_digest(password@, salt@),
{
    match Argon2::default().hash_password(password, salt) {
        Ok(hash) => Ok(
            PasswordDigest {
                phc: hash.to_string(),
                output: match hash.hash {
                    Some(output) => Some(output.as_bytes().to_vec()),
                    None => None,
                },
            },
        ),
        Err(error) => Err(error.to_string()),
    }
}

/// Calls `password_hash::PasswordHash::new` on the hash string and then
/// `argon2::Argon2::default().verify_password` (trait `PasswordVerifier`).
///
/// Trusted: the answer is a function of the password and the hash string
/// alone; `Malformed` stands for a string that does not parse, `Mismatch` for
/// any error of the verification.
#[verifier::external_body]
fn argon2_verify_password(password: &[u8], hash: &str) -> (check: HashCheck)
    ensures
        check == argon2_check(password@, hash@),
{
    match PasswordHash::new(hash) {
        Err(_) => HashCheck::Malformed,
        Ok(parsed) => match Argon2::default().verify_password(password, &parsed) {
            Ok(()) => HashCheck::Match,
            Err(_) => HashCheck::Mismatch,
        },
    }
}

/// Calls `rand::thread_rng().gen()` for 16 random bytes.
///
/// Trusted: nothing is claimed of the bytes.
#[verifier::external_body]
fn random_salt() -> [u8; 16] {
    thread_rng().gen()
}

/// Turns the outcome of hashing into the PHC string.
pub fn phc_string(outcome: Result<PasswordDigest, String>) -> (result: Result<
    String,
    PasswordError,
>)
    ensures
        text_outcome_view(result) == phc_of(digest_outcome_view(outcome)),
{
    match outcome {
        Ok(digest) => Ok(digest.phc),
        Err(reason) => Err(PasswordError::Hash(reason)),
    }
}

/// Turns the outcome of hashing into the raw output.
pub fn raw_output(outcome: Result<PasswordDigest, String>) -> (result: Result<
    Vec<u8>,
    PasswordError,
>)
    ensures
        bytes_outcome_view(result) == output_of(digest_outcome_view(outcome)),
{
    match outcome {
        Ok(digest) => match digest.output {
            Some(output) => Ok(output),
            None => Err(PasswordError::Hash("no hash".to_owned())),
        },
        Err(reason) => Err(PasswordError::Hash(reason)),
    }
}

/// Turns a check into the result that `verify` returns.
pub fn verdict(check: HashCheck) -> (result: Result<(), PasswordError>)
    ensures
        unit_outcome_view(result) == verdict_of(check),
{
    match check {
        HashCheck::Malformed => Err(PasswordError::PwHash),
        HashCheck::Mismatch => Err(PasswordError::Verify),
        HashCheck::Match => Ok(()),
    }
}

/// Hashes `password` under `salt` with Argon2 and returns the hash in PHC
/// string format. A salt of more than 48 bytes is refused.
pub fn hash(password: &[u8], salt: &[u8]) -> (result: Result<String, PasswordError>)
    ensures
        text_outcome_view(result) == hash_outcome(password@, salt@),
        salt@.len() > MAX_SALT_LENGTH ==> text_outcome_view(result) == Err::<
            Seq<char>,
            PasswordErrorView,
        >(PasswordErrorView::Hash("error encoding salt"@)),
{
    let encoded = match encode_salt(salt) {
        Some(encoded) => encoded,
        None => {
            return Err(PasswordError::Hash("error encoding salt".to_owned()));
        },
    };
    phc_string(argon2_hash_password(password, encoded.as_str()))
}

/// Hashes `password` under `salt` with Argon2 and returns the raw output, to
/// serve as key material. A salt of more than 48 bytes is refused.
pub fn hash_digest(password: &[u8], salt: &[u8]) -> (result: Result<Vec<u8>, PasswordError>)
    ensures
        bytes_outcome_view(result) == hash_digest_outcome(password@, salt@),
        salt@.len() > MAX_SALT_LENGTH ==> bytes_outcome_view(result) == Err::<
            Seq<u8>,
            PasswordErrorView,
        >(PasswordErrorView::Hash("error encoding salt"@)),
{
    let encoded = match encode_salt(salt) {
        Some(encoded) => encoded,
        None => {
            return Err(PasswordError::Hash("error encoding salt".to_owned()));
        },
    };
    raw_output(argon2_hash_password(password, encoded.as_str()))
}

/// Checks `password` against a hash in PHC string format.
pub fn verify(password: &[u8], hash: &str) -> (result: Result<(), PasswordError>)
    ensures
        unit_outcome_view(result) == verdict_of(argon2_check(password@, hash@)),
{
    verdict(argon2_verify_password(password, hash))
}

/// Generates a random salt of 16 bytes.
pub fn generate_salt() -> (result: Result<[u8; 16], PasswordError>)
    ensures
        result is Ok,
        result->Ok_0@.len() == SALT_LENGTH,
{
    Ok(random_salt())
}

} // verus!
