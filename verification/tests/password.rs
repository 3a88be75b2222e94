use realtime_chat::auth::register::{
    register_handler, register_reply, register_user, register_user_with, RegisterStep,
    RegisteredUser,
};
use realtime_chat::auth::{AuthError, RegisterRequest};
use realtime_chat::password::{check_password, conclude_check, hash_with_salt};
use realtime_chat::phc::check_lanes;
use realtime_chat::reply::{DatabaseFailure, StatusCode};

const SALT: &str = "c29tZXNhbHRzb21lc2FsdA";

#[test]
fn hash_has_the_default_parameters_and_the_salt() {
    let hash = hash_with_salt("hunter2", SALT).unwrap();
    let start = format!("$argon2id$v=19$m=19456,t=2,p=1${}$", SALT);
    assert!(hash.starts_with(&start), "{}", hash);
    assert_eq!(hash.len(), start.len() + 43);
    assert_eq!(hash_with_salt("hunter2", SALT).unwrap(), hash);
    assert_ne!(hash_with_salt("hunter3", SALT).unwrap(), hash);
}

#[test]
fn improper_salts_are_refused() {
    assert_eq!(hash_with_salt("hunter2", "").unwrap_err(), AuthError::HashError);
    assert_eq!(hash_with_salt("hunter2", "with space in it").unwrap_err(), AuthError::HashError);
    assert_eq!(hash_with_salt("hunter2", "abcd").unwrap_err(), AuthError::HashError);
}

#[test]
fn known_hash_is_checked() {
    let phc = "$argon2id$v=19$m=256,t=2,p=1$c29tZXNhbHQ$nf65EOgLrQMR/uIPnA4rEsF5h7TKyQwu9U1bMCHGi/4";
    assert_eq!(check_password(phc, "password"), Ok(()));
    assert_eq!(check_password(phc, "passwore"), Err(AuthError::InvalidCredentials));
    assert_eq!(check_password(phc, ""), Err(AuthError::InvalidCredentials));
}

#[test]
fn unreadable_hash_is_an_error_of_its_own() {
    assert_eq!(check_password("", "password"), Err(AuthError::HashError));
    assert_eq!(check_password("plain", "password"), Err(AuthError::HashError));
    assert_eq!(check_password("$argon2id$v=x", "password"), Err(AuthError::HashError));
    assert_eq!(check_password("$argon2id", "password"), Err(AuthError::InvalidCredentials));
}

#[test]
fn fresh_hashes_are_salted_and_accepted() {
    let fresh = || register_user("a".into(), "b".into(), "pässword", None).unwrap().password_hash;
    let first = fresh();
    let second = fresh();
    assert_ne!(first, second);
    assert_eq!(check_password(&first, "pässword"), Ok(()));
    assert_eq!(check_password(&second, "pässword"), Ok(()));
    assert_eq!(check_password(&first, "password"), Err(AuthError::InvalidCredentials));
    let salt = first.split('$').nth(4).unwrap();
    assert_eq!(salt.len(), 22);
    assert!(salt.chars().all(|c| c.is_ascii_alphanumeric() || c == '+' || c == '/'));
    assert!("AQgw".contains(salt.chars().last().unwrap()));
}

#[test]
fn check_is_concluded_from_its_parts() {
    assert_eq!(conclude_check(true, true), Ok(()));
    assert_eq!(conclude_check(true, false), Err(AuthError::InvalidCredentials));
    assert_eq!(conclude_check(false, true), Err(AuthError::HashError));
    assert_eq!(conclude_check(false, false), Err(AuthError::HashError));
}

#[test]
fn new_user_carries_what_was_asked_for() {
    let user = register_user_with(
        7,
        SALT,
        "ada".to_string(),
        "ada@example.com".to_string(),
        "hunter2",
        Some("key".to_string()),
    )
    .unwrap();
    assert_eq!(user.id, 7);
    assert_eq!(user.name, "ada");
    assert_eq!(user.email, "ada@example.com");
    assert_eq!(user.public_key.as_deref(), Some("key"));
    assert_eq!(user.password_hash, hash_with_salt("hunter2", SALT).unwrap());
    let refused = register_user_with(7, "", "a".into(), "b".into(), "c", None);
    assert_eq!(refused.unwrap_err(), AuthError::HashError);
}

#[test]
fn registered_users_get_random_ids() {
    let one = register_user("a".into(), "b".into(), "c", None).unwrap();
    let two = register_user("a".into(), "b".into(), "c", None).unwrap();
    assert_ne!(one.id, two.id);
    assert_eq!((one.id >> 76) & 0xf, 4);
    assert_eq!((one.id >> 62) & 0x3, 2);
    assert_eq!(check_password(&one.password_hash, "c"), Ok(()));
}

#[test]
fn registration_is_stored_and_then_answered() {
    let payload = RegisterRequest {
        name: "ada".into(),
        email: "ada@example.com".into(),
        password: "hunter2".into(),
        public_key: None,
    };
    let new = match register_handler(payload) {
        RegisterStep::Insert(new) => new,
        RegisterStep::Refused(..) => panic!("refused"),
    };
    assert_eq!(new.name, "ada");
    assert_eq!(check_password(&new.password_hash, "hunter2"), Ok(()));
    let row = RegisteredUser {
        id: new.id,
        name: new.name,
        email: new.email,
        password_hash: new.password_hash,
        public_key: new.public_key,
        default_ttl_seconds: 86400,
    };
    let (status, body) = register_reply(Ok(row)).unwrap();
    assert_eq!(status, StatusCode::Created);
    assert_eq!(status.as_u16(), 201);
    assert!(body.success);
    assert_eq!(body.message, "User registered successfully");
    let user = body.user.unwrap();
    assert_eq!(user.id, new.id);
    assert_eq!(user.email, "ada@example.com");
    assert_eq!(user.default_ttl_seconds, Some(86400));
    assert_eq!(body.requires_2fa, None);
    assert!(body.temp_session_id.is_none());
}

#[test]
fn failed_registration_is_a_bad_request() {
    let (status, body) = register_reply(Err(DatabaseFailure)).unwrap_err();
    assert_eq!(status, StatusCode::BadRequest);
    assert_eq!(status.as_u16(), 400);
    assert!(!body.success);
    assert_eq!(body.message, "Registration failed. Email may already be in use.");
    assert!(body.user.is_none());
}

#[test]
fn errors_are_put_in_words() {
    assert_eq!(AuthError::InvalidCredentials.text(), "Invalid email or password");
    assert_eq!(AuthError::DatabaseError.text(), "Database error occurred");
    assert_eq!(AuthError::HashError.text(), "Password hash error");
}

fn with_parameters(parameters: &str) -> String {
    let tail = "c29tZXNhbHQ$nf65EOgLrQMR/uIPnA4rEsF5h7TKyQwu9U1bMCHGi/4";
    format!("$argon2id$v=19${}${}", parameters, tail)
}

#[test]
fn too_many_lanes_are_refused() {
    for lanes in ["536870912", "536870913", "4294967295", "4294967296", "000000001", "123456789"] {
        let phc = with_parameters(&format!("m=256,t=2,p={}", lanes));
        assert!(!check_lanes(&phc), "{}", lanes);
        assert_eq!(check_password(&phc, "password"), Err(AuthError::InvalidCredentials));
    }
    for lanes in ["0", "33", "16777215", "16777216", "99999999"] {
        let phc = with_parameters(&format!("m=256,t=2,p={}", lanes));
        assert!(check_lanes(&phc), "{}", lanes);
        assert_eq!(check_password(&phc, "password"), Err(AuthError::InvalidCredentials));
    }
}

#[test]
fn last_number_of_lanes_counts() {
    let phc = with_parameters("p=536870912,m=256,t=2,p=1");
    assert!(check_lanes(&phc));
    assert_eq!(check_password(&phc, "password"), Ok(()));
    let phc = with_parameters("m=256,t=2,p=1,p=536870912");
    assert!(!check_lanes(&phc));
    assert_eq!(check_password(&phc, "password"), Err(AuthError::InvalidCredentials));
    let phc = with_parameters("m=256,t=2");
    assert!(check_lanes(&phc));
    assert_eq!(check_password(&phc, "password"), Ok(()));
}

#[test]
fn lanes_are_looked_for_among_the_parameters_only() {
    assert!(check_lanes(""));
    assert!(check_lanes("$argon2id"));
    assert!(check_lanes("$argon2id$v=19$c29tZXNhbHQ$p=999999999"));
    assert!(!check_lanes("$argon2id$p=999999999$c29tZXNhbHQ"));
    assert!(!check_lanes("$argon2id$v=19,p=999999999$c29tZXNhbHQ"));
    assert!(check_lanes("$p=999999999$v=19"));
    assert!(check_lanes("$argon2id$v=19$pp=999999999,m=8$c29tZXNhbHQ"));
}
