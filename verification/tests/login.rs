use axum_extra::extract::cookie::Cookie;
use axum_extra::extract::CookieJar;
use realtime_chat::auth::login::{
    authenticate_user, conclude_authentication, login_after_mail, login_after_mail_at, login_at,
    login_handler, logout_handler, LoginStep,
};
use realtime_chat::auth::two_fa::{
    generate_otp, verify_otp_at, verify_otp_handler, OtpEntry, OtpVerdict, VerifyOtpRequest,
};
use realtime_chat::auth::{AuthError, LoginRequest, User};
use realtime_chat::clock::{Timestamp, MAX_SECS};
use realtime_chat::cookie::{session_id_of, SameSite};
use realtime_chat::reply::{DatabaseFailure, StatusCode};
use realtime_chat::AppState;

/// Of the password `password`.
const PHC: &str =
    "$argon2id$v=19$m=256,t=2,p=1$c29tZXNhbHQ$nf65EOgLrQMR/uIPnA4rEsF5h7TKyQwu9U1bMCHGi/4";

const TEMP: u128 = 0x0123_4567_89ab_cdef_0123_4567_89ab_cdef;
const TEMP_TEXT: &str = "01234567-89ab-cdef-0123-456789abcdef";
const SESSION: u128 = 0xfedc_ba98_7654_3210_fedc_ba98_7654_3210;
const SESSION_TEXT: &str = "fedcba98-7654-3210-fedc-ba9876543210";

fn at(secs: i64) -> Timestamp {
    Timestamp::new(secs, 0).unwrap()
}

fn ada() -> User {
    User {
        id: 7,
        name: "ada".into(),
        email: "ada@example.com".into(),
        password_hash: PHC.into(),
        public_key: None,
        default_ttl_seconds: Some(60),
    }
}

fn login(state: &mut AppState, user: User, code: &str, now: Timestamp) -> LoginStep {
    let payload = LoginRequest { name: user.name.clone(), password: "password".into() };
    login_at(state, &payload, Ok(Some(user)), code.into(), now)
}

fn jar_of(cookies: &[(&'static str, &'static str)]) -> CookieJar {
    cookies.iter().fold(CookieJar::new(), |jar, (name, value)| jar.add(Cookie::new(*name, *value)))
}

fn typed(code: &str) -> VerifyOtpRequest {
    VerifyOtpRequest { otp_code: code.into(), temp_session_id: TEMP_TEXT.into() }
}

/// A state in which `ada` waits for the code `123456`, mailed at second 1000.
fn waiting() -> AppState {
    let mut state = AppState::new();
    match login(&mut state, ada(), "123456", at(1000)) {
        LoginStep::SendCode { user, code } => {
            assert_eq!(user.id, 7);
            assert_eq!(code, "123456");
        }
        _ => panic!("no code"),
    }
    let body = login_after_mail_at(&mut state, &ada(), true, TEMP, at(1001)).unwrap();
    assert!(body.success);
    assert_eq!(body.message, "Verification code sent to your email");
    assert_eq!(body.requires_2fa, Some(true));
    assert_eq!(body.temp_session_id.as_deref(), Some(TEMP_TEXT));
    assert!(body.user.is_none());
    state
}

fn refused(state: &mut AppState, code: &str, now: i64) -> (StatusCode, String) {
    let (status, body) = verify_otp_at(state, &typed(code), at(now), SESSION, at(now)).unwrap_err();
    assert!(!body.success);
    assert!(body.requires_otp.is_none());
    assert!(body.temp_session_id.is_none());
    (status, body.message)
}

#[test]
fn password_is_held_against_the_stored_hash() {
    assert_eq!(authenticate_user(Ok(Some(ada())), "password").unwrap().id, 7);
    let wrong = authenticate_user(Ok(Some(ada())), "passwort").unwrap_err();
    assert_eq!(wrong, AuthError::InvalidCredentials);
    assert_eq!(authenticate_user(Ok(None), "password").unwrap_err(), AuthError::InvalidCredentials);
    let failed = authenticate_user(Err(DatabaseFailure), "password").unwrap_err();
    assert_eq!(failed, AuthError::DatabaseError);
    let broken = User { password_hash: "x".into(), ..ada() };
    assert_eq!(authenticate_user(Ok(Some(broken)), "password").unwrap_err(), AuthError::HashError);
}

#[test]
fn authentication_is_concluded_from_its_parts() {
    assert_eq!(conclude_authentication(Ok(Some(ada())), Ok(())).unwrap().name, "ada");
    let hash = conclude_authentication(Ok(Some(ada())), Err(AuthError::HashError)).unwrap_err();
    assert_eq!(hash, AuthError::HashError);
    let none = conclude_authentication(Ok(None), Ok(())).unwrap_err();
    assert_eq!(none, AuthError::InvalidCredentials);
}

#[test]
fn wrong_password_and_unknown_name_are_answered_alike() {
    let payload = LoginRequest { name: "ada".into(), password: "wrong".into() };
    let lookups = [
        (Ok(Some(ada())), AuthError::InvalidCredentials),
        (Ok(None), AuthError::InvalidCredentials),
        (Err(DatabaseFailure), AuthError::DatabaseError),
    ];
    for (lookup, expected) in lookups {
        let mut state = AppState::new();
        match login_handler(&mut state, &payload, lookup) {
            LoginStep::Refused { status, body, reason } => {
                assert_eq!(reason, expected);
                assert_eq!(status, StatusCode::Unauthorized);
                assert!(!body.success);
                assert_eq!(body.message, "Invalid credentials");
                assert_eq!(body.requires_2fa, None);
            }
            _ => panic!("let in"),
        }
        assert!(state.otp_store.is_empty());
    }
}

#[test]
fn right_password_draws_a_code() {
    let payload = LoginRequest { name: "ada".into(), password: "password".into() };
    let mut state = AppState::new();
    match login_handler(&mut state, &payload, Ok(Some(ada()))) {
        LoginStep::SendCode { user, code } => {
            assert_eq!(user.email, "ada@example.com");
            assert_eq!(code.len(), 6);
            assert!(code.chars().all(|c| c.is_ascii_digit()));
            let entry = &state.otp_store[&7];
            assert_eq!(entry.code, code);
            assert_eq!(entry.attempts, 0);
            assert!(!entry.is_expired());
            assert!(!entry.is_locked());
        }
        _ => panic!("refused"),
    }
}

#[test]
fn codes_have_six_digits_and_vary() {
    let codes: Vec<String> = (0..50).map(|_| generate_otp()).collect();
    for code in &codes {
        assert_eq!(code.len(), 6);
        assert!(code.chars().all(|c| c.is_ascii_digit()));
    }
    assert!(codes.iter().any(|code| code != &codes[0]));
}

#[test]
fn unsent_code_is_a_server_error() {
    let mut state = AppState::new();
    let (status, body) = login_after_mail_at(&mut state, &ada(), false, TEMP, at(0)).unwrap_err();
    assert_eq!(status, StatusCode::InternalServerError);
    assert_eq!(status.as_u16(), 500);
    assert!(!body.success);
    assert_eq!(body.message, "Failed to send verification code");
    assert_eq!(body.requires_2fa, Some(true));
    assert!(body.temp_session_id.is_none());
    assert!(state.temp_sessions.get(TEMP_TEXT).is_none());
}

#[test]
fn waiting_logins_get_fresh_ids() {
    let mut state = AppState::new();
    let one = login_after_mail(&mut state, &ada(), true).unwrap().temp_session_id.unwrap();
    let two = login_after_mail(&mut state, &ada(), true).unwrap().temp_session_id.unwrap();
    assert_ne!(one, two);
    assert_eq!(one.len(), 36);
    assert_eq!(one.as_bytes()[14], b'4');
    assert_eq!(state.temp_sessions.get(&one).unwrap().user_id, 7);
    assert!(login_after_mail(&mut state, &ada(), false).is_err());
}

#[test]
fn right_code_opens_a_session() {
    let mut state = waiting();
    let (cookie, body) =
        verify_otp_at(&mut state, &typed("123456"), at(1600), SESSION, at(1601)).unwrap();
    assert!(body.success);
    assert_eq!(body.message, "Login successful");
    assert!(body.requires_otp.is_none());
    assert!(body.temp_session_id.is_none());
    assert_eq!(cookie.name, "session_id");
    assert_eq!(cookie.value, SESSION_TEXT);
    assert_eq!(cookie.http_only, Some(true));
    assert_eq!(cookie.same_site, Some(SameSite::Lax));
    assert_eq!(cookie.path.as_deref(), Some("/"));
    assert_eq!(cookie.max_age_seconds, Some(86400));
    let session = state.authorize(Some(&cookie.value)).unwrap();
    assert_eq!(session.user_id, 7);
    assert_eq!(session.username, "ada");
    assert_eq!(session.created_at, at(1601));
    assert!(state.otp_store.is_empty());
    assert!(state.temp_sessions.get(TEMP_TEXT).is_none());
}

#[test]
fn code_is_good_once() {
    let mut state = waiting();
    verify_otp_at(&mut state, &typed("123456"), at(1100), SESSION, at(1100)).unwrap();
    let again = refused(&mut state, "123456", 1100);
    assert_eq!(again, (StatusCode::Unauthorized, "Invalid or expired session".to_string()));
}

#[test]
fn unknown_login_is_refused() {
    let mut state = AppState::new();
    let answer = refused(&mut state, "123456", 1100);
    assert_eq!(answer, (StatusCode::Unauthorized, "Invalid or expired session".to_string()));
}

#[test]
fn login_without_a_code_is_refused() {
    let mut state = AppState::new();
    login_after_mail_at(&mut state, &ada(), true, TEMP, at(1000)).unwrap();
    let answer = refused(&mut state, "123456", 1100);
    let expected = "No OTP found. Please request a new one.".to_string();
    assert_eq!(answer, (StatusCode::Unauthorized, expected));
}

#[test]
fn late_code_is_refused_and_forgotten() {
    let mut state = waiting();
    let answer = refused(&mut state, "123456", 1601);
    let expected = "OTP has expired. Please request a new one.".to_string();
    assert_eq!(answer, (StatusCode::Unauthorized, expected));
    assert!(state.otp_store.is_empty());
    let next = refused(&mut state, "123456", 1100);
    assert_eq!(next.1, "No OTP found. Please request a new one.");
}

#[test]
fn three_wrong_codes_lock_the_login() {
    let mut state = waiting();
    for remaining in ["2", "1", "0"] {
        let (status, message) = refused(&mut state, "000000", 1100);
        assert_eq!(status, StatusCode::Unauthorized);
        assert_eq!(message, format!("Invalid OTP code. {} attempts remaining.", remaining));
    }
    for _ in 0..2 {
        let (status, message) = refused(&mut state, "123456", 1100);
        assert_eq!(status, StatusCode::TooManyRequests);
        assert_eq!(status.as_u16(), 429);
        assert_eq!(message, "Too many failed attempts. Please request a new OTP.");
        assert_eq!(state.otp_store[&7].attempts, 3);
    }
    let late = refused(&mut state, "123456", 1601);
    assert_eq!(late.1, "OTP has expired. Please request a new one.");
}

#[test]
fn two_wrong_codes_do_not_lock() {
    let mut state = waiting();
    refused(&mut state, "000000", 1100);
    refused(&mut state, "12345", 1100);
    assert!(verify_otp_at(&mut state, &typed("123456"), at(1100), SESSION, at(1100)).is_ok());
}

#[test]
fn new_code_replaces_the_old_one() {
    let mut state = waiting();
    refused(&mut state, "000000", 1100);
    login(&mut state, ada(), "654321", at(1200));
    assert_eq!(state.otp_store[&7].attempts, 0);
    let old = refused(&mut state, "123456", 1250);
    assert_eq!(old.1, "Invalid OTP code. 2 attempts remaining.");
    assert!(verify_otp_at(&mut state, &typed("654321"), at(1250), SESSION, at(1250)).is_ok());
}

#[test]
fn codes_of_other_users_are_left_alone() {
    let mut state = waiting();
    let eve = User { id: 8, name: "eve".into(), ..ada() };
    login(&mut state, eve, "111111", at(1000));
    refused(&mut state, "000000", 1100);
    assert_eq!(state.otp_store[&7].attempts, 1);
    assert_eq!(state.otp_store[&8].attempts, 0);
    verify_otp_at(&mut state, &typed("123456"), at(1100), SESSION, at(1100)).unwrap();
    assert_eq!(state.otp_store[&8].code, "111111");
}

#[test]
fn code_typed_now_opens_a_session_with_a_fresh_id() {
    let mut state = AppState::new();
    let entry = OtpEntry::new("123456".into()).unwrap();
    assert!(!entry.is_expired());
    state.otp_store.insert(7, entry);
    login_after_mail_at(&mut state, &ada(), true, TEMP, at(1000)).unwrap();
    let wrong = verify_otp_handler(&mut state, &typed("000000")).unwrap_err();
    assert_eq!(wrong.1.message, "Invalid OTP code. 2 attempts remaining.");
    let (cookie, _) = verify_otp_handler(&mut state, &typed("123456")).unwrap();
    assert_eq!(cookie.value.len(), 36);
    assert_eq!(state.authorize(Some(&cookie.value)).unwrap().username, "ada");
}

#[test]
fn entries_expire_after_their_last_instant() {
    let entry = OtpEntry::new_at("123456".into(), at(1000)).unwrap();
    assert_eq!(entry.expires_at, at(1600));
    assert!(!entry.is_expired_at(&at(1600)));
    assert!(entry.is_expired_at(&Timestamp::new(1600, 1).unwrap()));
    assert!(entry.is_expired());
    let locked = OtpEntry { attempts: 3, ..entry };
    assert!(locked.is_locked());
    assert!(!OtpEntry { attempts: 2, ..locked }.is_locked());
}

#[test]
fn verdicts_are_put_in_words() {
    assert_eq!(OtpVerdict::Accepted.text(), "Login successful");
    let wrong = OtpVerdict::Wrong { remaining: 1 };
    assert_eq!(wrong.text(), "Invalid OTP code. 1 attempts remaining.");
}

#[test]
fn logging_out_ends_only_that_session() {
    let mut state = waiting();
    verify_otp_at(&mut state, &typed("123456"), at(1100), SESSION, at(1100)).unwrap();
    login(&mut state, ada(), "123456", at(1200));
    login_after_mail_at(&mut state, &ada(), true, TEMP, at(1200)).unwrap();
    verify_otp_at(&mut state, &typed("123456"), at(1200), TEMP, at(1200)).unwrap();
    for _ in 0..2 {
        let jar = jar_of(&[("session_id", SESSION_TEXT), ("theme", "dark")]);
        let (jar, reply) = logout_handler(&mut state, jar);
        assert_eq!(session_id_of(&jar), None);
        assert_eq!(jar.get("theme").unwrap().value(), "dark");
        assert_eq!(jar.iter().count(), 1);
        assert!(reply.success);
        assert_eq!(reply.message.as_deref(), Some("Logged out successfully"));
        assert!(reply.default_ttl_seconds.is_none());
        assert_eq!(state.authorize(Some(SESSION_TEXT)).unwrap_err(), StatusCode::Unauthorized);
        assert!(state.authorize(Some(TEMP_TEXT)).is_ok());
    }
    let (jar, reply) = logout_handler(&mut state, jar_of(&[("theme", "dark")]));
    assert!(reply.success);
    assert_eq!(jar.iter().count(), 1);
    assert!(state.authorize(Some(TEMP_TEXT)).is_ok());
    assert_eq!(state.authorize(None).unwrap_err(), StatusCode::Unauthorized);
}

#[test]
fn session_ids_come_from_their_cookie() {
    let jar = jar_of(&[("theme", "dark"), ("session_id", "s")]);
    assert_eq!(session_id_of(&jar).as_deref(), Some("s"));
    assert_eq!(session_id_of(&jar_of(&[("theme", "dark")])), None);
}

#[test]
fn codes_do_not_outlive_the_calendar() {
    assert!(OtpEntry::new_at("123456".into(), at(MAX_SECS - 600)).is_some());
    assert!(OtpEntry::new_at("123456".into(), at(MAX_SECS - 599)).is_none());
    let mut state = AppState::new();
    let step = login(&mut state, ada(), "123456", at(MAX_SECS - 599));
    assert!(matches!(step, LoginStep::ClockOutOfRange));
    assert!(state.otp_store.is_empty());
    let step = login(&mut state, ada(), "123456", at(MAX_SECS - 600));
    assert!(matches!(step, LoginStep::SendCode { .. }));
    assert_eq!(state.otp_store[&7].expires_at, at(MAX_SECS));
}

#[test]
fn unreadable_hashes_refuse_with_their_reason() {
    let broken = User { password_hash: "x".into(), ..ada() };
    let mut state = AppState::new();
    match login(&mut state, broken, "123456", at(MAX_SECS)) {
        LoginStep::Refused { status, reason, .. } => {
            assert_eq!(status, StatusCode::Unauthorized);
            assert_eq!(reason, AuthError::HashError);
        }
        _ => panic!("let in"),
    }
}

#[test]
fn cookies_of_a_request_are_cleared_too() {
    let mut headers = http::HeaderMap::new();
    headers.insert(http::header::COOKIE, "theme=dark; session_id=s".parse().unwrap());
    let jar = CookieJar::from_headers(&headers);
    assert_eq!(session_id_of(&jar).as_deref(), Some("s"));
    let mut state = AppState::new();
    let (jar, _) = logout_handler(&mut state, jar);
    assert_eq!(session_id_of(&jar), None);
    assert_eq!(jar.get("theme").unwrap().value(), "dark");
}
