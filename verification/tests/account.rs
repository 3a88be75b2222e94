use realtime_chat::auth::account::{
    get_public_keys_reply, get_settings_reply, me_reply, update_public_key_reply,
    update_settings_reply, DirectoryEntry,
};
use realtime_chat::auth::{
    get_public_keys, get_public_keys_handler, get_settings_handler, list_users_handler, me_handler,
    update_public_key_handler, update_settings_handler, UpdatePublicKeyRequest,
    UpdateSettingsRequest, User,
};
use realtime_chat::clock::Timestamp;
use realtime_chat::reply::{DatabaseFailure, StatusCode};
use realtime_chat::{AppState, Session};

fn logged_in() -> AppState {
    let mut state = AppState::new();
    let created_at = Timestamp::new(0, 0).unwrap();
    let session = Session { user_id: 7, username: "ada".into(), created_at };
    state.sessions.insert("s".into(), session);
    state
}

fn entries() -> Vec<DirectoryEntry> {
    vec![
        DirectoryEntry { id: 1, name: "ada".into(), public_key: Some("k".into()) },
        DirectoryEntry { id: 2, name: "eve".into(), public_key: None },
    ]
}

#[test]
fn only_sessions_are_let_in() {
    let state = logged_in();
    for cookie in [None, Some("x"), Some("")] {
        let refused = StatusCode::Unauthorized;
        assert_eq!(refused.as_u16(), 401);
        assert_eq!(me_handler(&state, cookie).unwrap_err(), refused);
        assert_eq!(get_public_keys_handler(&state, cookie).unwrap_err(), refused);
        assert_eq!(get_settings_handler(&state, cookie).unwrap_err(), refused);
        let key = UpdatePublicKeyRequest { public_key: "k".into() };
        assert_eq!(update_public_key_handler(&state, cookie, key).unwrap_err(), refused);
        let settings = UpdateSettingsRequest { default_ttl_seconds: 100 };
        assert_eq!(update_settings_handler(&state, cookie, settings).unwrap_err(), refused);
    }
    assert_eq!(me_handler(&state, Some("s")), Ok(7));
    assert_eq!(get_settings_handler(&state, Some("s")), Ok(7));
    assert_eq!(get_public_keys_handler(&state, Some("s")), Ok(()));
}

#[test]
fn own_account_is_shown_without_the_hash() {
    let user = User {
        id: 7,
        name: "ada".into(),
        email: "ada@example.com".into(),
        password_hash: "h".into(),
        public_key: Some("k".into()),
        default_ttl_seconds: None,
    };
    let shown = me_reply(Ok(user)).unwrap();
    assert_eq!(shown.id, 7);
    assert_eq!(shown.name, "ada");
    assert_eq!(shown.email, "ada@example.com");
    assert_eq!(shown.public_key.as_deref(), Some("k"));
    assert_eq!(shown.default_ttl_seconds, None);
    assert_eq!(me_reply(Err(DatabaseFailure)).unwrap_err(), StatusCode::InternalServerError);
}

#[test]
fn public_key_is_replaced() {
    let state = logged_in();
    let payload = UpdatePublicKeyRequest { public_key: "new".into() };
    let update = update_public_key_handler(&state, Some("s"), payload).unwrap();
    assert_eq!(update.user_id, 7);
    assert_eq!(update.public_key, "new");
    let reply = update_public_key_reply(Ok(())).unwrap();
    assert!(reply.success);
    assert_eq!(reply.message.as_deref(), Some("Public key updated successfully"));
    let failed = update_public_key_reply(Err(DatabaseFailure)).unwrap_err();
    assert_eq!(failed, StatusCode::InternalServerError);
}

#[test]
fn public_keys_are_listed_with_gaps() {
    for keys in [get_public_keys(entries()), get_public_keys_reply(Ok(entries())).unwrap()] {
        assert_eq!(keys.len(), 2);
        assert_eq!((keys[0].user_id, keys[0].username.as_str()), (1, "ada"));
        assert_eq!(keys[0].public_key.as_deref(), Some("k"));
        assert_eq!((keys[1].user_id, keys[1].username.as_str()), (2, "eve"));
        assert!(keys[1].public_key.is_none());
    }
    let failed = get_public_keys_reply(Err(DatabaseFailure)).unwrap_err();
    assert_eq!(failed, StatusCode::InternalServerError);
}

#[test]
fn users_are_listed_in_order() {
    let users = list_users_handler(Ok(entries())).unwrap();
    let names: Vec<&str> = users.iter().map(|user| user.name.as_str()).collect();
    assert_eq!(names, ["ada", "eve"]);
    assert_eq!(users[1].id, 2);
    assert_eq!(users[0].public_key.as_deref(), Some("k"));
    assert!(list_users_handler(Ok(Vec::new())).unwrap().is_empty());
    let failed = list_users_handler(Err(DatabaseFailure)).unwrap_err();
    assert_eq!(failed, StatusCode::InternalServerError);
}

#[test]
fn lifetimes_have_a_minimum() {
    let state = logged_in();
    for (wished, stored) in [(59, 60), (60, 60), (61, 61), (-1, 60), (i32::MAX, i32::MAX)] {
        let payload = UpdateSettingsRequest { default_ttl_seconds: wished };
        let update = update_settings_handler(&state, Some("s"), payload).unwrap();
        assert_eq!(update.user_id, 7);
        assert_eq!(update.default_ttl_seconds, stored);
        let reply = update_settings_reply(update, Ok(())).unwrap();
        assert!(reply.success);
        assert!(reply.message.is_none());
        assert_eq!(reply.default_ttl_seconds, Some(stored));
        let shown = get_settings_reply(Ok(Some(stored))).unwrap();
        assert_eq!(shown.default_ttl_seconds, stored);
        let failed = update_settings_reply(update, Err(DatabaseFailure)).unwrap_err();
        assert_eq!(failed, StatusCode::InternalServerError);
    }
}

#[test]
fn lifetime_is_a_day_by_default() {
    assert_eq!(get_settings_reply(Ok(None)).unwrap().default_ttl_seconds, 86400);
    let failed = get_settings_reply(Err(DatabaseFailure)).unwrap_err();
    assert_eq!(failed, StatusCode::InternalServerError);
}
