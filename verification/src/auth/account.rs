//! What a user with a session may ask for.

use vstd::prelude::*;

use crate::auth::{
    PublicKeyInfo, SettingsResponse, UpdatePublicKeyRequest, UpdateSettingsRequest, User,
    UserResponse, UserSummary,
};
use crate::reply::{opt_str, DatabaseFailure, StatusCode, StatusReply};
use crate::state::AppState;

verus! {

/// The lifetime of messages, in seconds, of a user who never chose one.
pub const DEFAULT_TTL_SECONDS: i32 = 86400;

/// The shortest lifetime of messages, in seconds, that a user can choose.
pub const MIN_TTL_SECONDS: i32 = 60;

/// A user as the directory of users lists them.
#[derive(Clone, Debug)]
pub struct DirectoryEntry {
    pub id: u128,
    pub name: String,
    pub public_key: Option<String>,
}

/// A public key to be stored.
#[derive(Clone, Debug)]
pub struct KeyUpdate {
    pub user_id: u128,
    pub public_key: String,
}

/// A lifetime of messages to be stored.
#[derive(Clone, Copy, Debug)]
pub struct SettingsUpdate {
    pub user_id: u128,
    pub default_ttl_seconds: i32,
}

impl PublicKeyInfo {
    /// The public key that a directory entry holds.
    pub open spec fn of(entry: DirectoryEntry) -> PublicKeyInfo {
        PublicKeyInfo { user_id: entry.id, username: entry.name, public_key: entry.public_key }
    }
}

impl UserSummary {
    /// What a directory entry shows everyone.
    pub open spec fn of(entry: DirectoryEntry) -> UserSummary {
        UserSummary { id: entry.id, name: entry.name, public_key: entry.public_key }
    }
}

/// The lifetime that is stored for a wish.
pub open spec fn stored_ttl(wished: i32) -> i32 {
    if wished < MIN_TTL_SECONDS {
        MIN_TTL_SECONDS
    } else {
        wished
    }
}

/// The lifetime that is shown for what the database holds.
pub open spec fn shown_ttl(stored: Option<i32>) -> i32 {
    match stored {
        Some(ttl) => ttl,
        None => DEFAULT_TTL_SECONDS,
    }
}

/// Whose account to load for someone who asks about their own.
pub fn me_handler(state: &AppState, session_id: Option<&str>) -> (res: Result<u128, StatusCode>)
    ensures
        res == (match state@.authorized(opt_str(session_id)) {
            Ok(session) => Ok(session.user_id),
            Err(status) => Err(status),
        }),
{
    match state.authorize(session_id) {
        Ok(session) => Ok(session.user_id),
        Err(status) => Err(status),
    }
}

/// The answer to someone who asks about their own account, once the database
/// has loaded it or failed to.
pub fn me_reply(loaded: Result<User, DatabaseFailure>) -> (res: Result<UserResponse, StatusCode>)
    ensures
        res == (match loaded {
            Ok(user) => Ok(UserResponse::of(user)),
            Err(_) => Err(StatusCode::InternalServerError),
        }),
{
    match loaded {
        Ok(user) => Ok(UserResponse::from_user(user)),
        Err(_) => Err(StatusCode::InternalServerError),
    }
}

/// Which public key to store for someone who replaces theirs.
pub fn update_public_key_handler(
    state: &AppState,
    session_id: Option<&str>,
    payload: UpdatePublicKeyRequest,
) -> (res: Result<KeyUpdate, StatusCode>)
    ensures
        res == (match state@.authorized(opt_str(session_id)) {
            Ok(session) => Ok(
                KeyUpdate { user_id: session.user_id, public_key: payload.public_key },
            ),
            Err(status) => Err(status),
        }),
{
    match state.authorize(session_id) {
        Ok(session) => Ok(
            KeyUpdate { user_id: session.user_id, public_key: payload.public_key },
        ),
        Err(status) => Err(status),
    }
}

/// The answer to someone who replaces their public key.
pub fn update_public_key_reply(stored: Result<(), DatabaseFailure>) -> (res: Result<
    StatusReply,
    StatusCode,
>)
    ensures
        match stored {
            Ok(()) => res matches Ok(reply) && reply.has(
                true,
                Some("Public key updated successfully"@),
                None,
            ),
            Err(_) => res == Err::<StatusReply, StatusCode>(StatusCode::InternalServerError),
        },
{
    match stored {
        Ok(()) => Ok(StatusReply::with_message(true, "Public key updated successfully")),
        Err(_) => Err(StatusCode::InternalServerError),
    }
}

/// The public keys in a row of directory entries.
pub fn get_public_keys(entries: Vec<DirectoryEntry>) -> (keys: Vec<PublicKeyInfo>)
    ensures
        keys@ == entries@.map_values(|entry: DirectoryEntry| PublicKeyInfo::of(entry)),
{
    let mut keys: Vec<PublicKeyInfo> = Vec::new();
    for entry in it: entries.into_iter()
        invariant
            it.seq() == entries@,
            keys@ == entries@.take(it.index()).map_values(
                |entry: DirectoryEntry| PublicKeyInfo::of(entry),
            ),
    {
        keys.push(
            PublicKeyInfo {
                user_id: entry.id,
                username: entry.name,
                public_key: entry.public_key,
            },
        );
        assert(entries@.take(it.index() + 1).drop_last() == entries@.take(it.index()));
    }
    keys
}

/// Whether someone may ask for public keys.
pub fn get_public_keys_handler(state: &AppState, session_id: Option<&str>) -> (res: Result<
    (),
    StatusCode,
>)
    ensures
        res == (match state@.authorized(opt_str(session_id)) {
            Ok(_) => Ok(()),
            Err(status) => Err(status),
        }),
{
    match state.authorize(session_id) {
        Ok(_) => Ok(()),
        Err(status) => Err(status),
    }
}

/// The answer to someone who asks for public keys.
pub fn get_public_keys_reply(loaded: Result<Vec<DirectoryEntry>, DatabaseFailure>) -> (res: Result<
    Vec<PublicKeyInfo>,
    StatusCode,
>)
    ensures
        match loaded {
            Ok(entries) => res matches Ok(keys) && keys@ == entries@.map_values(
                |entry: DirectoryEntry| PublicKeyInfo::of(entry),
            ),
            Err(_) => res == Err::<Vec<PublicKeyInfo>, StatusCode>(StatusCode::InternalServerError),
        },
{
    match loaded {
        Ok(entries) => Ok(get_public_keys(entries)),
        Err(_) => Err(StatusCode::InternalServerError),
    }
}

/// The directory of users, in the order in which the database lists them. No
/// session is asked for.
pub fn list_users_handler(loaded: Result<Vec<DirectoryEntry>, DatabaseFailure>) -> (res: Result<
    Vec<UserSummary>,
    StatusCode,
>)
    ensures
        match loaded {
            Ok(entries) => res matches Ok(users) && users@ == entries@.map_values(
                |entry: DirectoryEntry| UserSummary::of(entry),
            ),
            Err(_) => res == Err::<Vec<UserSummary>, StatusCode>(StatusCode::InternalServerError),
        },
{
    let entries = match loaded {
        Ok(entries) => entries,
        Err(_) => return Err(StatusCode::InternalServerError),
    };
    let mut users: Vec<UserSummary> = Vec::new();
    for entry in it: entries.into_iter()
        invariant
            it.seq() == entries@,
            users@ == entries@.take(it.index()).map_values(
                |entry: DirectoryEntry| UserSummary::of(entry),
            ),
    {
        users.push(UserSummary { id: entry.id, name: entry.name, public_key: entry.public_key });
        assert(entries@.take(it.index() + 1).drop_last() == entries@.take(it.index()));
    }
    assert(entries@.take(entries@.len() as int) == entries@);
    Ok(users)
}

/// Whose settings to load for someone who asks for theirs.
pub fn get_settings_handler(state: &AppState, session_id: Option<&str>) -> (res: Result<
    u128,
    StatusCode,
>)
    ensures
        res == (match state@.authorized(opt_str(session_id)) {
            Ok(session) => Ok(session.user_id),
            Err(status) => Err(status),
        }),
{
    match state.authorize(session_id) {
        Ok(session) => Ok(session.user_id),
        Err(status) => Err(status),
    }
}

/// The answer to someone who asks for their settings.
pub fn get_settings_reply(loaded: Result<Option<i32>, DatabaseFailure>) -> (res: Result<
    SettingsResponse,
    StatusCode,
>)
    ensures
        res == (match loaded {
            Ok(stored) => Ok(SettingsResponse { default_ttl_seconds: shown_ttl(stored) }),
            Err(_) => Err(StatusCode::InternalServerError),
        }),
{
    match loaded {
        Ok(Some(ttl)) => Ok(SettingsResponse { default_ttl_seconds: ttl }),
        Ok(None) => Ok(SettingsResponse { default_ttl_seconds: DEFAULT_TTL_SECONDS }),
        Err(_) => Err(StatusCode::InternalServerError),
    }
}

/// Which lifetime of messages to store for someone who changes theirs.
pub fn update_settings_handler(
    state: &AppState,
    session_id: Option<&str>,
    payload: UpdateSettingsRequest,
) -> (res: Result<SettingsUpdate, StatusCode>)
    ensures
        res == (match state@.authorized(opt_str(session_id)) {
            Ok(session) => Ok(
                SettingsUpdate {
                    user_id: session.user_id,
                    default_ttl_seconds: stored_ttl(payload.default_ttl_seconds),
                },
            ),
            Err(status) => Err(status),
        }),
{
    match state.authorize(session_id) {
        Ok(session) => {
            let wished: i32 = payload.default_ttl_seconds;
            let default_ttl_seconds: i32 = if wished < MIN_TTL_SECONDS {
                MIN_TTL_SECONDS
            } else {
                wished
            };
            Ok(SettingsUpdate { user_id: session.user_id, default_ttl_seconds })
        },
        Err(status) => Err(status),
    }
}

/// The answer to someone who changes their settings.
pub fn update_settings_reply(update: SettingsUpdate, stored: Result<(), DatabaseFailure>) -> (res:
    Result<StatusReply, StatusCode>)
    ensures
        match stored {
            Ok(()) => res matches Ok(reply) && reply.has(
                true,
                None,
                Some(update.default_ttl_seconds),
            ),
            Err(_) => res == Err::<StatusReply, StatusCode>(StatusCode::InternalServerError),
        },
{
    match stored {
        Ok(()) => Ok(StatusReply::with_ttl(update.default_ttl_seconds)),
        Err(_) => Err(StatusCode::InternalServerError),
    }
}

/// What a user chose is shown to them again, and never falls below the minimum.
pub proof fn chosen_ttl_is_shown(wished: i32)
    ensures
        shown_ttl(Some(stored_ttl(wished))) >= MIN_TTL_SECONDS,
        wished >= MIN_TTL_SECONDS ==> shown_ttl(Some(stored_ttl(wished))) == wished,
        stored_ttl(stored_ttl(wished)) == stored_ttl(wished),
{
}

} // verus!
