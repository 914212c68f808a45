//! Registration and login: what is decided between the lookups and
//! writes of the user table.

use vstd::prelude::*;
use crate::models::{LoginDTO, RegisterDTO, User};
use crate::password::{
    bcrypt_match,
    byte_len,
    strength_of,
    verdict_of,
    PasswordError,
    PasswordService,
};
use crate::text::{before_first, take_until};

verus! {

/// Why a registration or a login was refused.
#[derive(Clone, Copy, Debug, PartialEq, Eq, Structural)]
pub enum UserError {
    /// The email address belongs to a registered user.
    EmailTaken,
    /// The password is too short or too long, or could not be hashed or
    /// checked.
    Password(PasswordError),
    /// No user has this email address, or the password is wrong.
    BadCredentials,
}

impl UserError {
    /// A sentence for the person who made the request.
    pub open spec fn message_text(&self) -> Seq<char> {
        match self {
            UserError::EmailTaken => "邮箱已被注册"@,
            UserError::Password(e) => e.message_text(),
            UserError::BadCredentials => "邮箱或密码错误"@,
        }
    }

    /// A sentence for the person who made the request.
    pub fn message(&self) -> (text: String)
        ensures
            text@ == self.message_text(),
    {
        match self {
            UserError::EmailTaken => "邮箱已被注册".to_owned(),
            UserError::Password(e) => e.message(),
            UserError::BadCredentials => "邮箱或密码错误".to_owned(),
        }
    }
}

/// A user to be written to the user table.
#[derive(Debug, PartialEq, Eq)]
pub struct NewUser {
    pub email: String,
    pub username: String,
    pub password: String,
}

/// The user name that goes with an email address: what stands before its
/// first `@`.
pub open spec fn username_for(email: Seq<char>) -> Seq<char> {
    before_first(email, '@')
}

/// The user name that goes with an email address: what stands before its
/// first `@`, and all of it where it has none.
pub fn username_of(email: &str) -> (name: String)
    ensures
        name@ == username_for(email@),
{
    take_until(email, '@')
}

/// What stands in the way of a registration before any hashing: an email
/// address that is taken, else a password of the wrong length.
pub open spec fn registration_obstacle(email_taken: bool, password_bytes: nat) -> Option<
    UserError,
> {
    if email_taken {
        Some(UserError::EmailTaken)
    } else {
        match strength_of(password_bytes) {
            Err(e) => Some(UserError::Password(e)),
            Ok(_) => None,
        }
    }
}

/// Completes a registration with the outcome `hashed` of hashing the
/// password: the user to write, with the email address as given, the user
/// name that goes with it and the hash as password, or the error of the
/// hashing.
pub fn registered(payload: &RegisterDTO, hashed: Result<String, PasswordError>) -> (user: Result<
    NewUser,
    UserError,
>)
    ensures
        match hashed {
            Ok(hash) => user matches Ok(u) && u.email == payload.email && u.username@
                == username_for(payload.email@) && u.password == hash,
            Err(e) => user matches Err(f) && f == UserError::Password(e),
        },
{
    match hashed {
        Ok(hash) => Ok(
            NewUser {
                email: payload.email.clone(),
                username: username_of(payload.email.as_str()),
                password: hash,
            },
        ),
        Err(e) => Err(UserError::Password(e)),
    }
}

/// Decides a registration, given whether the email address is taken.
/// Refused with `EmailTaken` where it is, else with the password's error
/// where the password is too short or too long; nothing is hashed then.
/// Otherwise the password is hashed, and the result is the user to write,
/// with a hash against which the password verifies, or `HashFailed`.
pub fn register(payload: &RegisterDTO, email_taken: bool) -> (user: Result<NewUser, UserError>)
    ensures
        match registration_obstacle(email_taken, byte_len(payload.password@)) {
            Some(e) => user matches Err(f) && f == e,
            None => match user {
                Ok(u) => u.email == payload.email && u.username@ == username_for(payload.email@)
                    && bcrypt_match(payload.password@, u.password@) == Some(true),
                Err(f) => f == UserError::Password(PasswordError::HashFailed),
            },
        },
{
    if email_taken {
        return Err(UserError::EmailTaken);
    }
    match PasswordService::validate_password_strength(payload.password.as_str()) {
        Err(e) => {
            return Err(UserError::Password(e));
        },
        Ok(_) => {},
    }
    registered(payload, PasswordService::hash_password(payload.password.as_str()))
}

/// What a login comes to for the stored user `user`, if there is one
/// with the email address given, and the password `password`: bad
/// credentials without a user, for a user without a password and for a
/// password that does not match; the error of the check where the stored
/// hash cannot be read.
pub open spec fn login_verdict(user: Option<User>, password: Seq<char>) -> Result<(), UserError> {
    match user {
        None => Err(UserError::BadCredentials),
        Some(u) => match u.password {
            None => Err(UserError::BadCredentials),
            Some(hash) => match verdict_of(bcrypt_match(password, hash@)) {
                Err(e) => Err(UserError::Password(e)),
                Ok(false) => Err(UserError::BadCredentials),
                Ok(true) => Ok(()),
            },
        },
    }
}

/// Decides a login, given the stored user with the email address of the
/// request, if there is one.
pub fn login(payload: &LoginDTO, user: Option<&User>) -> (verdict: Result<(), UserError>)
    ensures
        verdict == login_verdict(
            match user {
                Some(u) => Some(*u),
                None => None,
            },
            payload.password@,
        ),
{
    let user = match user {
        Some(user) => user,
        None => {
            return Err(UserError::BadCredentials);
        },
    };
    match &user.password {
        None => Err(UserError::BadCredentials),
        Some(hash) => match PasswordService::verify_password(
            payload.password.as_str(),
            hash.as_str(),
        ) {
            Err(e) => Err(UserError::Password(e)),
            Ok(same) => if same {
                Ok(())
            } else {
                Err(UserError::BadCredentials)
            },
        },
    }
}

/// Who has registered can log in: a login with the password of a
/// registration is accepted for the user that the registration wrote,
/// whatever the answer to any other password.
pub proof fn law_registered_user_logs_in(stored: User, password: Seq<char>)
    requires
        stored.password matches Some(hash) && bcrypt_match(password, hash@) == Some(true),
    ensures
        login_verdict(Some(stored), password) == Ok::<(), UserError>(()),
{
}

} // verus!
