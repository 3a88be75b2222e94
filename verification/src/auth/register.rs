//! New accounts.

use vstd::prelude::*;

use crate::auth::{AuthError, AuthResponse, RegisterRequest, User, UserResponse};
use crate::ids::{is_random_uuid, random_uuid};
use crate::password::{
    fits_argon2, hash_outcome, hash_with_salt, is_hash_of, is_salt, random_salt,
};
use crate::reply::{DatabaseFailure, StatusCode};

verus! {

/// A user to be put into the database.
#[derive(Clone, Debug)]
pub struct NewUser {
    pub id: u128,
    pub name: String,
    pub email: String,
    pub password_hash: String,
    pub public_key: Option<String>,
}

/// A user as the database hands them back after putting them in, with the
/// lifetime of messages that it chose.
#[derive(Clone, Debug)]
pub struct RegisteredUser {
    pub id: u128,
    pub name: String,
    pub email: String,
    pub password_hash: String,
    pub public_key: Option<String>,
    pub default_ttl_seconds: i32,
}

/// What to do about a registration.
pub enum RegisterStep {
    /// Put the user into the database, and answer as `register_reply` says.
    Insert(NewUser),
    /// Refuse the request.
    Refused(StatusCode, AuthResponse),
}

impl NewUser {
    /// Whether this user has the given parts, apart from the hash.
    pub open spec fn has(self, id: u128, name: String, email: String, public_key: Option<String>) -> bool {
        &&& self.id == id
        &&& self.name == name
        &&& self.email == email
        &&& self.public_key == public_key
    }
}

impl RegisteredUser {
    /// The user that the database put in.
    pub open spec fn user(self) -> User {
        User {
            id: self.id,
            name: self.name,
            email: self.email,
            password_hash: self.password_hash,
            public_key: self.public_key,
            default_ttl_seconds: Some(self.default_ttl_seconds),
        }
    }

    /// The user that the database put in.
    pub fn into_user(self) -> (user: User)
        ensures
            user == self.user(),
    {
        User {
            id: self.id,
            name: self.name,
            email: self.email,
            password_hash: self.password_hash,
            public_key: self.public_key,
            default_ttl_seconds: Some(self.default_ttl_seconds),
        }
    }
}

/// Whether `status` and `body` refuse a registration.
pub open spec fn refuses_registration(status: StatusCode, body: AuthResponse) -> bool {
    &&& status == StatusCode::BadRequest
    &&& body.has(false, "Registration failed. Email may already be in use."@, None, None, None)
}

/// The user to put in for a registration, with the given id and salt.
pub fn register_user_with(
    id: u128,
    salt: &str,
    name: String,
    email: String,
    password: &str,
    public_key: Option<String>,
) -> (res: Result<NewUser, AuthError>)
    ensures
        match hash_outcome(password@, salt@) {
            Ok(hash) => res matches Ok(user) && user.has(id, name, email, public_key)
                && user.password_hash@ == hash,
            Err(e) => res == Err::<NewUser, AuthError>(e),
        },
        is_salt(salt@) ==> (res is Ok <==> fits_argon2(password@)),
        is_salt(salt@) ==> (res matches Ok(user) ==> is_hash_of(
            password@,
            user.password_hash@,
        )),
{
    match hash_with_salt(password, salt) {
        Ok(password_hash) => Ok(NewUser { id, name, email, password_hash, public_key }),
        Err(e) => Err(e),
    }
}

/// The user to put in for a registration, with a fresh id and a freshly salted
/// hash of the password.
pub fn register_user(
    name: String,
    email: String,
    password: &str,
    public_key: Option<String>,
) -> (res: Result<NewUser, AuthError>)
    ensures
        res is Ok <==> fits_argon2(password@),
        match res {
            Ok(user) => {
                &&& is_random_uuid(user.id)
                &&& user.has(user.id, name, email, public_key)
                &&& is_hash_of(password@, user.password_hash@)
            },
            Err(e) => e == AuthError::HashError,
        },
{
    let id: u128 = random_uuid();
    let salt = random_salt();
    register_user_with(id, salt.as_str(), name, email, password, public_key)
}

/// The refusal of a registration.
fn registration_refused() -> (refusal: (StatusCode, AuthResponse))
    ensures
        refuses_registration(refusal.0, refusal.1),
{
    let body = AuthResponse {
        success: false,
        message: "Registration failed. Email may already be in use.".to_owned(),
        user: None,
        requires_2fa: None,
        temp_session_id: None,
    };
    (StatusCode::BadRequest, body)
}

/// What to do about a request for a new account.
pub fn register_handler(payload: RegisterRequest) -> (step: RegisterStep)
    ensures
        step is Insert <==> fits_argon2(payload.password@),
        match step {
            RegisterStep::Insert(user) => {
                &&& is_random_uuid(user.id)
                &&& user.has(user.id, payload.name, payload.email, payload.public_key)
                &&& is_hash_of(payload.password@, user.password_hash@)
            },
            RegisterStep::Refused(status, body) => refuses_registration(status, body),
        },
{
    match register_user(
        payload.name,
        payload.email,
        payload.password.as_str(),
        payload.public_key,
    ) {
        Ok(user) => RegisterStep::Insert(user),
        Err(_) => {
            let (status, body) = registration_refused();
            RegisterStep::Refused(status, body)
        },
    }
}

/// The answer to a registration, once the database has put the user in or
/// failed to.
pub fn register_reply(stored: Result<RegisteredUser, DatabaseFailure>) -> (res: Result<
    (StatusCode, AuthResponse),
    (StatusCode, AuthResponse),
>)
    ensures
        match stored {
            Ok(row) => res matches Ok((status, body)) && status == StatusCode::Created && body.has(
                true,
                "User registered successfully"@,
                Some(UserResponse::of(row.user())),
                None,
                None,
            ),
            Err(_) => res matches Err((status, body)) && refuses_registration(status, body),
        },
{
    match stored {
        Ok(row) => {
            let body = AuthResponse {
                success: true,
                message: "User registered successfully".to_owned(),
                user: Some(UserResponse::from_user(row.into_user())),
                requires_2fa: None,
                temp_session_id: None,
            };
            Ok((StatusCode::Created, body))
        },
        Err(_) => Err(registration_refused()),
    }
}

} // verus!
