//! Passwords: how strong one must be, and hashing and checking with
//! bcrypt.

use vstd::prelude::*;

verus! {

/// The shortest password that is accepted, in bytes.
pub const MIN_PASSWORD_BYTES: usize = 6;

/// The longest password that is accepted, in bytes.
pub const MAX_PASSWORD_BYTES: usize = 128;

/// The error type of the `bcrypt` crate.
#[verifier::external_type_specification]
#[verifier::external_body]
pub struct ExBcryptError(bcrypt::BcryptError);

/// What `bcrypt::verify` makes of a password and a stored hash: whether
/// they match, or `None` where it reports an error, as it does for a hash
/// that is not a bcrypt hash.
pub uninterp spec fn bcrypt_match(password: Seq<char>, hash: Seq<char>) -> Option<bool>;

/// `bcrypt::verify`: splits `hash` into cost, salt and digest, hashes
/// `password` with that cost and salt, and compares the digests. The
/// result is a function of the two strings alone.
#[verifier::external_body]
fn bcrypt_verify(password: &str, hash: &str) -> (outcome: Result<bool, bcrypt::BcryptError>)
    ensures
        match outcome {
            Ok(same) => bcrypt_match(password@, hash@) == Some(same),
            Err(_) => bcrypt_match(password@, hash@) is None,
        },
{
    bcrypt::verify(password, hash)
}

/// `bcrypt::hash` at the crate's default cost: hashes `password` under a
/// salt that it draws from the system's source of randomness, which can
/// fail. Which hash comes back is left open; what is claimed is that
/// `bcrypt::verify` accepts the password for it, since the hash carries
/// the cost and the salt that it was made with.
#[verifier::external_body]
fn bcrypt_hash(password: &str) -> (outcome: Result<String, bcrypt::BcryptError>)
    ensures
        outcome matches Ok(hash) ==> bcrypt_match(password@, hash@) == Some(true),
{
    bcrypt::hash(password, bcrypt::DEFAULT_COST)
}

/// Why a password was refused or could not be handled.
#[derive(Clone, Copy, Debug, PartialEq, Eq, Structural)]
pub enum PasswordError {
    /// The password has fewer than `MIN_PASSWORD_BYTES` bytes.
    TooShort,
    /// The password has more than `MAX_PASSWORD_BYTES` bytes.
    TooLong,
    /// The password could not be hashed.
    HashFailed,
    /// The stored hash could not be read.
    VerifyFailed,
}

impl PasswordError {
    /// A sentence for the person who chose the password.
    pub open spec fn message_text(&self) -> Seq<char> {
        match self {
            PasswordError::TooShort => "密码长度至少为6位"@,
            PasswordError::TooLong => "密码长度不能超过128位"@,
            PasswordError::HashFailed => "Failed to hash password"@,
            PasswordError::VerifyFailed => "Failed to verify password"@,
        }
    }

    /// A sentence for the person who chose the password.
    pub fn message(&self) -> (text: String)
        ensures
            text@ == self.message_text(),
    {
        match self {
            PasswordError::TooShort => "密码长度至少为6位".to_owned(),
            PasswordError::TooLong => "密码长度不能超过128位".to_owned(),
            PasswordError::HashFailed => "Failed to hash password".to_owned(),
            PasswordError::VerifyFailed => "Failed to verify password".to_owned(),
        }
    }
}

/// The number of bytes of the UTF-8 form of `s`.
pub open spec fn byte_len(s: Seq<char>) -> nat {
    vstd::utf8::encode_utf8(s).len()
}

/// The verdict on a password of `bytes` bytes.
pub open spec fn strength_of(bytes: nat) -> Result<(), PasswordError> {
    if bytes < MIN_PASSWORD_BYTES {
        Err(PasswordError::TooShort)
    } else if bytes > MAX_PASSWORD_BYTES {
        Err(PasswordError::TooLong)
    } else {
        Ok(())
    }
}

/// What a check of a password against a stored hash comes to, given what
/// bcrypt makes of the two.
pub open spec fn verdict_of(matched: Option<bool>) -> Result<bool, PasswordError> {
    match matched {
        Some(same) => Ok(same),
        None => Err(PasswordError::VerifyFailed),
    }
}

/// The password service.
pub struct PasswordService;

impl PasswordService {
    /// Checks the length of a password, counted in the bytes of its UTF-8
    /// form: `TooShort` under six, `TooLong` over 128.
    pub fn validate_password_strength(password: &str) -> (verdict: Result<(), PasswordError>)
        ensures
            verdict == strength_of(byte_len(password@)),
    {
        let bytes = password.as_bytes().len();
        if bytes < MIN_PASSWORD_BYTES {
            Err(PasswordError::TooShort)
        } else if bytes > MAX_PASSWORD_BYTES {
            Err(PasswordError::TooLong)
        } else {
            Ok(())
        }
    }

    /// Turns the outcome of a bcrypt hashing into the service's own
    /// terms: the hash, or `HashFailed`.
    pub fn hash_outcome(outcome: Result<String, bcrypt::BcryptError>) -> (hash: Result<
        String,
        PasswordError,
    >)
        ensures
            match outcome {
                Ok(h) => hash == Ok::<String, PasswordError>(h),
                Err(_) => hash == Err::<String, PasswordError>(PasswordError::HashFailed),
            },
    {
        match outcome {
            Ok(h) => Ok(h),
            Err(_) => Err(PasswordError::HashFailed),
        }
    }

    /// Hashes a password with bcrypt under a fresh random salt, for
    /// storage: a hash against which the password verifies. `HashFailed`
    /// where bcrypt reports an error; no other error comes back.
    pub fn hash_password(password: &str) -> (hash: Result<String, PasswordError>)
        ensures
            match hash {
                Ok(h) => bcrypt_match(password@, h@) == Some(true),
                Err(e) => e == PasswordError::HashFailed,
            },
    {
        PasswordService::hash_outcome(bcrypt_hash(password))
    }

    /// Checks a password against a stored bcrypt hash: whether they
    /// match, or `VerifyFailed` where the hash cannot be read.
    pub fn verify_password(password: &str, hash: &str) -> (verdict: Result<bool, PasswordError>)
        ensures
            verdict == verdict_of(bcrypt_match(password@, hash@)),
    {
        match bcrypt_verify(password, hash) {
            Ok(same) => Ok(same),
            Err(_) => Err(PasswordError::VerifyFailed),
        }
    }
}

} // verus!
