use realtime_chat::auth::reset::{
    check_token, forgot_password_at, forgot_password_handler, reset_password_handler,
    reset_password_with, reset_reply, ForgotStep, ResetAccount, ResetStep, ResetTokenRecord,
};
use realtime_chat::auth::{ForgotPasswordRequest, ResetPasswordRequest};
use realtime_chat::clock::{Timestamp, MAX_SECS};
use realtime_chat::password::check_password;
use realtime_chat::reply::{DatabaseFailure, StatusCode, StatusReply};

const SALT: &str = "c29tZXNhbHRzb21lc2FsdA";
const FAR: i64 = 4_000_000_000;

fn at(secs: i64) -> Timestamp {
    Timestamp::new(secs, 0).unwrap()
}

fn forgot() -> ForgotPasswordRequest {
    ForgotPasswordRequest { email: "ada@example.com".into() }
}

fn account() -> ResetAccount {
    ResetAccount { id: 7, name: "ada".into() }
}

fn reset() -> ResetPasswordRequest {
    ResetPasswordRequest { token: "t".into(), new_password: "new".into() }
}

fn record(expires_at: i64, used: bool) -> Result<Option<ResetTokenRecord>, DatabaseFailure> {
    Ok(Some(ResetTokenRecord { user_id: 7, expires_at: at(expires_at), used }))
}

fn is_plain(reply: &StatusReply, success: bool) -> bool {
    reply.success == success && reply.message.is_none() && reply.default_ttl_seconds.is_none()
}

#[test]
fn link_leads_to_the_frontend() {
    let url = Some("https://chat.example.com//".to_string());
    match forgot_password_at(forgot(), Ok(Some(account())), url, 0xff, at(1000)) {
        ForgotStep::Issue { token, to_email, to_name, link, reply } => {
            assert_eq!(token.token, "00000000-0000-0000-0000-0000000000ff");
            assert_eq!(token.user_id, 7);
            assert_eq!(token.expires_at, at(2800));
            assert_eq!(to_email, "ada@example.com");
            assert_eq!(to_name, "ada");
            let expected = "https://chat.example.com/reset?token=00000000-0000-0000-0000-0000000000ff";
            assert_eq!(link, expected);
            assert!(is_plain(&reply, true));
        }
        _ => panic!("no token"),
    }
}

#[test]
fn links_lead_home_by_default_and_differ() {
    let mut links: Vec<String> = Vec::new();
    for _ in 0..2 {
        match forgot_password_handler(forgot(), Ok(Some(account())), None) {
            ForgotStep::Issue { token, link, .. } => {
                assert_eq!(link, format!("http://localhost:4200/reset?token={}", token.token));
                links.push(link);
            }
            _ => panic!("no token"),
        }
    }
    assert_ne!(links[0], links[1]);
}

#[test]
fn unknown_address_is_answered_like_a_known_one() {
    match forgot_password_handler(forgot(), Ok(None), None) {
        ForgotStep::Answer(reply) => assert!(is_plain(&reply, true)),
        _ => panic!("not answered"),
    }
    match forgot_password_handler(forgot(), Err(DatabaseFailure), None) {
        ForgotStep::Refused(status, reply) => {
            assert_eq!(status, StatusCode::InternalServerError);
            assert!(is_plain(&reply, false));
        }
        _ => panic!("not refused"),
    }
}

#[test]
fn tokens_run_out_and_are_used_up() {
    assert_eq!(check_token(record(2800, false), &at(2800)).unwrap(), 7);
    for (expires_at, used) in [(2799, false), (2800, true), (9999, true)] {
        let (status, reply) = check_token(record(expires_at, used), &at(2800)).unwrap_err();
        assert_eq!(status, StatusCode::BadRequest);
        assert!(!reply.success);
        assert_eq!(reply.message.as_deref(), Some("Token expired"));
    }
    let (status, reply) = check_token(Ok(None), &at(2800)).unwrap_err();
    assert_eq!(status, StatusCode::BadRequest);
    assert_eq!(reply.message.as_deref(), Some("Invalid token"));
    let (status, reply) = check_token(Err(DatabaseFailure), &at(2800)).unwrap_err();
    assert_eq!(status, StatusCode::InternalServerError);
    assert!(is_plain(&reply, false));
}

#[test]
fn new_password_is_stored_with_its_token() {
    match reset_password_with(reset(), record(2800, false), &at(2000), SALT) {
        ResetStep::Store { user_id, password_hash, token } => {
            assert_eq!(user_id, 7);
            assert_eq!(token, "t");
            assert!(password_hash.contains(SALT));
            assert_eq!(check_password(&password_hash, "new"), Ok(()));
            assert!(check_password(&password_hash, "old").is_err());
        }
        ResetStep::Refused(..) => panic!("refused"),
    }
    match reset_password_with(reset(), record(2800, false), &at(2000), "!") {
        ResetStep::Refused(status, reply) => {
            assert_eq!(status, StatusCode::InternalServerError);
            assert!(is_plain(&reply, false));
        }
        ResetStep::Store { .. } => panic!("stored"),
    }
}

#[test]
fn token_is_held_against_the_clock() {
    match reset_password_handler(reset(), record(FAR, false)) {
        ResetStep::Store { user_id, password_hash, .. } => {
            assert_eq!(user_id, 7);
            assert_eq!(check_password(&password_hash, "new"), Ok(()));
        }
        ResetStep::Refused(..) => panic!("refused"),
    }
    for record in [record(0, false), record(FAR, true), Ok(None)] {
        match reset_password_handler(reset(), record) {
            ResetStep::Refused(status, _) => assert_eq!(status, StatusCode::BadRequest),
            ResetStep::Store { .. } => panic!("stored"),
        }
    }
}

#[test]
fn storing_decides_the_answer() {
    assert!(is_plain(&reset_reply(Ok(())).unwrap(), true));
    let (status, reply) = reset_reply(Err(DatabaseFailure)).unwrap_err();
    assert_eq!(status, StatusCode::InternalServerError);
    assert!(is_plain(&reply, false));
}

#[test]
fn tokens_do_not_outlive_the_calendar() {
    let late = at(MAX_SECS - 1799);
    let step = forgot_password_at(forgot(), Ok(Some(account())), None, 1, late);
    assert!(matches!(step, ForgotStep::ClockOutOfRange));
    let step = forgot_password_at(forgot(), Ok(Some(account())), None, 1, at(MAX_SECS - 1800));
    assert!(matches!(step, ForgotStep::Issue { .. }));
    let step = forgot_password_at(forgot(), Ok(None), None, 1, late);
    assert!(matches!(step, ForgotStep::Answer(_)));
    let step = forgot_password_at(forgot(), Err(DatabaseFailure), None, 1, late);
    assert!(matches!(step, ForgotStep::Refused(..)));
}
