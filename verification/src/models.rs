//! The shapes of requests and answers outside the order core.

use vstd::prelude::*;
use crate::auth::TOKEN_EXPIRY_SECONDS;
use crate::order::CreatePaymentRequest;

verus! {

/// What a user sends to log in.
#[derive(Debug)]
pub struct LoginDTO {
    pub email: String,
    pub password: String,
}

/// What a user sends to register.
#[derive(Debug)]
pub struct RegisterDTO {
    pub email: String,
    pub password: String,
}

/// What a user sends to change the password.
#[derive(Debug)]
pub struct ChangePasswordRequest {
    pub old_password: String,
    pub new_password: String,
}

/// What a user sends to have the password reset.
#[derive(Debug)]
pub struct ResetPasswordRequest {
    pub email: String,
}

/// What a user sends to confirm an email address.
#[derive(Debug)]
pub struct VerifyEmailRequest {
    pub token: String,
}

/// A user as stored. Instants are in milliseconds since the Unix epoch.
#[derive(Debug)]
pub struct User {
    pub id: String,
    pub email: String,
    pub username: Option<String>,
    pub password: Option<String>,
    pub created: i64,
    pub updated: i64,
}

/// What of a user is shown to that user.
#[derive(Debug)]
pub struct UserDetail {
    pub id: String,
    pub email: String,
    pub vip: String,
    pub username: Option<String>,
    pub created: i64,
    pub updated: i64,
}

/// What a user gets back for a login.
#[derive(Debug)]
pub struct AuthVO {
    pub token: String,
    pub user_detail: UserDetail,
    pub expires_in: Option<i64>,
}

/// What a client sends to open an order, with the plan and the rail under
/// the names `plan_type` and `network`.
#[derive(Debug)]
pub struct OrderDTO {
    pub plan_type: String,
    pub network: String,
}

impl OrderDTO {
    /// The same request in the shape that the engine takes.
    pub fn to_request(&self) -> (request: CreatePaymentRequest)
        ensures
            request.plan == self.plan_type,
            request.payment_method == self.network,
    {
        CreatePaymentRequest { plan: self.plan_type.clone(), payment_method: self.network.clone() }
    }
}

/// An idea as stored.
#[derive(Debug)]
pub struct Idea {
    pub id: i64,
    pub title: String,
    pub description: String,
    pub icon_hash: String,
    pub icon_uri: String,
    pub tags: Option<String>,
    pub chain: Option<String>,
    pub deployer: Option<String>,
    pub created: Option<String>,
    pub cf_mode: Option<String>,
}

/// What a client sends to launch an idea.
#[derive(Debug)]
pub struct LaunchRequest {
    pub title: String,
    pub description: String,
    pub icon_hash: String,
    pub tags: Option<Vec<String>>,
    pub timestamp: i64,
    pub cf_mode: Option<String>,
    pub chain: Option<String>,
    pub deployer: Option<String>,
}

impl UserDetail {
    /// What is shown of `user`: its identity and its dates, without the
    /// password, and with no membership level.
    pub fn of(user: &User) -> (detail: UserDetail)
        ensures
            detail.id == user.id,
            detail.email == user.email,
            detail.username == user.username,
            detail.vip@ == Seq::<char>::empty(),
            detail.created == user.created,
            detail.updated == user.updated,
    {
        UserDetail {
            id: user.id.clone(),
            email: user.email.clone(),
            vip: String::new(),
            username: match &user.username {
                Some(name) => Some(name.clone()),
                None => None,
            },
            created: user.created,
            updated: user.updated,
        }
    }
}

impl AuthVO {
    /// The answer to a login of `user` for which `token` was issued: the
    /// token, what is shown of the user, and the lifetime of the token,
    /// `TOKEN_EXPIRY_SECONDS`.
    pub fn of(user: &User, token: String) -> (answer: AuthVO)
        ensures
            answer.token == token,
            answer.user_detail.id == user.id,
            answer.user_detail.email == user.email,
            answer.user_detail.username == user.username,
            answer.user_detail.vip@ == Seq::<char>::empty(),
            answer.user_detail.created == user.created,
            answer.user_detail.updated == user.updated,
            answer.expires_in == Some(TOKEN_EXPIRY_SECONDS),
    {
        AuthVO { token, user_detail: UserDetail::of(user), expires_in: Some(TOKEN_EXPIRY_SECONDS) }
    }
}

} // verus!
