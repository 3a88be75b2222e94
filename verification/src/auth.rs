//! Users, what they ask for, and what they are answered.

use vstd::prelude::*;

use crate::reply::opt_text;

pub mod account;
pub mod guarantees;
pub mod laws;
pub mod login;
pub mod register;
pub mod reset;
pub mod two_fa;

pub use account::{
    get_public_keys, get_public_keys_handler, get_settings_handler, list_users_handler, me_handler,
    update_public_key_handler, update_settings_handler,
};
pub use login::{authenticate_user, login_handler, logout_handler};
pub use register::{register_handler, register_user};
pub use reset::{forgot_password_handler, reset_password_handler};

verus! {

/// A user as the database keeps them.
#[derive(Clone, Debug)]
pub struct User {
    pub id: u128,
    pub name: String,
    pub email: String,
    pub password_hash: String,
    pub public_key: Option<String>,
    pub default_ttl_seconds: Option<i32>,
}

/// Why a user was not let in.
#[derive(Clone, Copy, Debug, PartialEq, Eq, Structural)]
pub enum AuthError {
    InvalidCredentials,
    DatabaseError,
    HashError,
}

impl AuthError {
    /// The error in words.
    pub open spec fn message(self) -> Seq<char> {
        match self {
            AuthError::InvalidCredentials => "Invalid email or password"@,
            AuthError::DatabaseError => "Database error occurred"@,
            AuthError::HashError => "Password hash error"@,
        }
    }

    /// The error in words.
    pub fn text(&self) -> (text: String)
        ensures
            text@ == self.message(),
    {
        match self {
            AuthError::InvalidCredentials => "Invalid email or password".to_owned(),
            AuthError::DatabaseError => "Database error occurred".to_owned(),
            AuthError::HashError => "Password hash error".to_owned(),
        }
    }
}

/// A request for a new account.
#[derive(Clone, Debug)]
pub struct RegisterRequest {
    pub name: String,
    pub email: String,
    pub password: String,
    pub public_key: Option<String>,
}

/// A request to log in.
#[derive(Clone, Debug)]
pub struct LoginRequest {
    pub name: String,
    pub password: String,
}

/// A request to replace the caller's public key.
#[derive(Clone, Debug)]
pub struct UpdatePublicKeyRequest {
    pub public_key: String,
}

/// The answer to a registration or a login.
#[derive(Clone, Debug)]
pub struct AuthResponse {
    pub success: bool,
    pub message: String,
    pub user: Option<UserResponse>,
    pub requires_2fa: Option<bool>,
    pub temp_session_id: Option<String>,
}

/// What a user is shown of their own account.
#[derive(Clone, Debug)]
pub struct UserResponse {
    pub id: u128,
    pub name: String,
    pub email: String,
    pub public_key: Option<String>,
    pub default_ttl_seconds: Option<i32>,
}

/// What everyone is shown of a user.
#[derive(Clone, Debug)]
pub struct UserSummary {
    pub id: u128,
    pub name: String,
    pub public_key: Option<String>,
}

/// A user's public key, for those who want to write to them.
#[derive(Clone, Debug)]
pub struct PublicKeyInfo {
    pub user_id: u128,
    pub username: String,
    pub public_key: Option<String>,
}

/// The caller's settings.
#[derive(Clone, Copy, Debug)]
pub struct SettingsResponse {
    pub default_ttl_seconds: i32,
}

/// A request to change the caller's settings.
#[derive(Clone, Copy, Debug)]
pub struct UpdateSettingsRequest {
    pub default_ttl_seconds: i32,
}

/// A request for a link to set a new password.
#[derive(Clone, Debug)]
pub struct ForgotPasswordRequest {
    pub email: String,
}

/// A request to set a new password.
#[derive(Clone, Debug)]
pub struct ResetPasswordRequest {
    pub token: String,
    pub new_password: String,
}

impl AuthResponse {
    /// Whether this answer has the given parts.
    pub open spec fn has(
        self,
        success: bool,
        message: Seq<char>,
        user: Option<UserResponse>,
        requires_2fa: Option<bool>,
        temp_session_id: Option<Seq<char>>,
    ) -> bool {
        &&& self.success == success
        &&& self.message@ == message
        &&& self.user == user
        &&& self.requires_2fa == requires_2fa
        &&& opt_text(self.temp_session_id) == temp_session_id
    }
}

impl UserResponse {
    /// What `user` is shown of their own account: everything but the hash of
    /// the password.
    pub open spec fn of(user: User) -> UserResponse {
        UserResponse {
            id: user.id,
            name: user.name,
            email: user.email,
            public_key: user.public_key,
            default_ttl_seconds: user.default_ttl_seconds,
        }
    }

    /// What `user` is shown of their own account.
    pub fn from_user(user: User) -> (shown: UserResponse)
        ensures
            shown == UserResponse::of(user),
    {
        UserResponse {
            id: user.id,
            name: user.name,
            email: user.email,
            public_key: user.public_key,
            default_ttl_seconds: user.default_ttl_seconds,
        }
    }
}

} // verus!
