//! Passwords, sessions and the way from one to the other.

use axum_extra::extract::CookieJar;
use vstd::prelude::*;

use crate::auth::two_fa::{generate_otp, is_otp_code, OtpEntry, OTP_LIFETIME_SECS};
use crate::auth::{AuthError, AuthResponse, LoginRequest, User};
use crate::clock::{utc_now, Timestamp};
use crate::cookie::{cookies_in, session_id_in, session_id_of, without_session_id};
use crate::ids::{is_random_uuid, random_uuid, uuid_string, uuid_text};
use crate::password::{belongs_to, check_outcome, check_password, is_phc_string};
use crate::reply::{opt_str, DatabaseFailure, StatusCode, StatusReply};
use crate::room::socket::Session;
use crate::state::{AppState, AppStateView};

verus! {

/// What to do about a login.
pub enum LoginStep {
    /// Mail `code` to `user`, and answer as `login_after_mail` says.
    SendCode { user: User, code: String },
    /// Refuse the request with `status` and `body`. The `reason` is for the log:
    /// the client is not told.
    Refused { status: StatusCode, body: AuthResponse, reason: AuthError },
    /// The clock stands so late that a code would outlive the calendar.
    ClockOutOfRange,
}

/// What a login comes to, where `lookup` is what the database holds under the
/// name, and `check` is what holding the password against its hash led to.
pub open spec fn authentication(
    lookup: Result<Option<User>, DatabaseFailure>,
    check: Result<(), AuthError>,
) -> Result<User, AuthError> {
    match lookup {
        Err(_) => Err(AuthError::DatabaseError),
        Ok(None) => Err(AuthError::InvalidCredentials),
        Ok(Some(user)) => match check {
            Ok(()) => Ok(user),
            Err(e) => Err(e),
        },
    }
}

/// What holding `password` against the hash of the user that `lookup` found
/// leads to.
pub open spec fn lookup_check(
    lookup: Result<Option<User>, DatabaseFailure>,
    password: Seq<char>,
) -> Result<(), AuthError> {
    match lookup {
        Ok(Some(user)) => check_outcome(
            is_phc_string(user.password_hash@),
            belongs_to(password, user.password_hash@),
        ),
        _ => Ok(()),
    }
}

impl AppStateView {
    /// The state once a code for `user` is on record; an older code of theirs
    /// is gone.
    pub open spec fn with_code(self, user: u128, entry: OtpEntry) -> AppStateView {
        AppStateView { otp_store: self.otp_store.insert(user, entry), ..self }
    }

    /// The state once a login of `user` waits under `temp_id` for its code.
    pub open spec fn with_waiting_login(
        self,
        temp_id: Seq<char>,
        user: User,
        now: Timestamp,
    ) -> AppStateView {
        AppStateView {
            temp_sessions: self.temp_sessions.insert(
                temp_id,
                Session { user_id: user.id, username: user.name, created_at: now },
            ),
            ..self
        }
    }

    /// The state without the session that the cookie names, if it names one.
    pub open spec fn logged_out(self, cookie: Option<Seq<char>>) -> AppStateView {
        match cookie {
            Some(id) => AppStateView { sessions: self.sessions.remove(id), ..self },
            None => self,
        }
    }

    /// The session that the cookie names; whoever has none is not let in.
    pub open spec fn authorized(self, cookie: Option<Seq<char>>) -> Result<Session, StatusCode> {
        match cookie {
            Some(id) if self.sessions.contains_key(id) => Ok(self.sessions[id]),
            _ => Err(StatusCode::Unauthorized),
        }
    }
}

/// Whether `status` and `body` refuse a login, without saying why.
pub open spec fn refuses_login(status: StatusCode, body: AuthResponse) -> bool {
    &&& status == StatusCode::Unauthorized
    &&& body.has(false, "Invalid credentials"@, None, None, None)
}

/// Whether `res` answers a login whose code was mailed or not; where it was,
/// the login waits under `temp_id`.
pub open spec fn answers_mailing(
    res: Result<AuthResponse, (StatusCode, AuthResponse)>,
    sent: bool,
    temp_id: Seq<char>,
) -> bool {
    if sent {
        res matches Ok(body) && body.has(
            true,
            "Verification code sent to your email"@,
            None,
            Some(true),
            Some(temp_id),
        )
    } else {
        res matches Err((status, body)) && status == StatusCode::InternalServerError && body.has(
            false,
            "Failed to send verification code"@,
            None,
            Some(true),
            None,
        )
    }
}

/// What a login comes to, once the database was asked and the password checked.
pub fn conclude_authentication(
    lookup: Result<Option<User>, DatabaseFailure>,
    check: Result<(), AuthError>,
) -> (res: Result<User, AuthError>)
    ensures
        res == authentication(lookup, check),
{
    match lookup {
        Err(_) => Err(AuthError::DatabaseError),
        Ok(None) => Err(AuthError::InvalidCredentials),
        Ok(Some(user)) => match check {
            Ok(()) => Ok(user),
            Err(e) => Err(e),
        },
    }
}

/// Holds a password against what the database holds under a name.
pub fn authenticate_user(
    lookup: Result<Option<User>, DatabaseFailure>,
    password: &str,
) -> (res: Result<User, AuthError>)
    ensures
        res == authentication(lookup, lookup_check(lookup, password@)),
{
    let check = match &lookup {
        Ok(Some(user)) => check_password(user.password_hash.as_str(), password),
        _ => Ok(()),
    };
    conclude_authentication(lookup, check)
}

/// Whether `step` is what to do about a login with `password`, and `after` the
/// state that it leaves behind, where `code` is the code that would be mailed at
/// `now`.
pub open spec fn is_login_step(
    step: LoginStep,
    before: AppStateView,
    after: AppStateView,
    lookup: Result<Option<User>, DatabaseFailure>,
    password: Seq<char>,
    code: String,
    now: Timestamp,
) -> bool {
    match authentication(lookup, lookup_check(lookup, password)) {
        Ok(user) => if now.can_add(OTP_LIFETIME_SECS as int) {
            &&& step == (LoginStep::SendCode { user, code })
            &&& after == before.with_code(user.id, OtpEntry::fresh(code, now))
        } else {
            &&& step is ClockOutOfRange
            &&& after == before
        },
        Err(e) => {
            &&& step matches LoginStep::Refused { status, body, reason }
            &&& refuses_login(status, body)
            &&& reason == e
            &&& after == before
        },
    }
}

/// What to do about a login at `now`, where `lookup` is what the database holds
/// under the name in `payload`, and `code` is what would be mailed.
pub fn login_at(
    state: &mut AppState,
    payload: &LoginRequest,
    lookup: Result<Option<User>, DatabaseFailure>,
    code: String,
    now: Timestamp,
) -> (step: LoginStep)
    requires
        now.wf(),
    ensures
        is_login_step(step, old(state)@, final(state)@, lookup, payload.password@, code, now),
{
    match authenticate_user(lookup, payload.password.as_str()) {
        Ok(user) => match OtpEntry::new_at(code.clone(), now) {
            Some(entry) => {
                state.otp_store.insert(user.id, entry);
                LoginStep::SendCode { user, code }
            },
            None => LoginStep::ClockOutOfRange,
        },
        Err(reason) => {
            let body = AuthResponse {
                success: false,
                message: "Invalid credentials".to_owned(),
                user: None,
                requires_2fa: None,
                temp_session_id: None,
            };
            LoginStep::Refused { status: StatusCode::Unauthorized, body, reason }
        },
    }
}

/// What to do about a login, where `lookup` is what the database holds under
/// the name in `payload`.
pub fn login_handler(
    state: &mut AppState,
    payload: &LoginRequest,
    lookup: Result<Option<User>, DatabaseFailure>,
) -> (step: LoginStep)
    ensures
        exists|code: String, now: Timestamp|
            {
                &&& #[trigger] is_otp_code(code@)
                &&& #[trigger] now.is_reading()
                &&& is_login_step(
                    step,
                    old(state)@,
                    final(state)@,
                    lookup,
                    payload.password@,
                    code,
                    now,
                )
            },
{
    let code = generate_otp();
    let now = utc_now();
    login_at(state, payload, lookup, code, now)
}

/// The answer to a login whose code was mailed, or was not. Where it was, the
/// login waits under `temp_id` from `now` on.
pub fn login_after_mail_at(
    state: &mut AppState,
    user: &User,
    sent: bool,
    temp_id: u128,
    now: Timestamp,
) -> (res: Result<AuthResponse, (StatusCode, AuthResponse)>)
    ensures
        answers_mailing(res, sent, uuid_text(temp_id)),
        final(state)@ == (if sent {
            old(state)@.with_waiting_login(uuid_text(temp_id), *user, now)
        } else {
            old(state)@
        }),
{
    if !sent {
        let body = AuthResponse {
            success: false,
            message: "Failed to send verification code".to_owned(),
            user: None,
            requires_2fa: Some(true),
            temp_session_id: None,
        };
        return Err((StatusCode::InternalServerError, body));
    }
    let temp_session_id = uuid_string(temp_id);
    let session = Session { user_id: user.id, username: user.name.clone(), created_at: now };
    state.temp_sessions.insert(temp_session_id.clone(), session);
    let body = AuthResponse {
        success: true,
        message: "Verification code sent to your email".to_owned(),
        user: None,
        requires_2fa: Some(true),
        temp_session_id: Some(temp_session_id),
    };
    Ok(body)
}

/// The answer to a login whose code was mailed, or was not. Where it was, the
/// login waits under a fresh temporary session id.
pub fn login_after_mail(state: &mut AppState, user: &User, sent: bool) -> (res: Result<
    AuthResponse,
    (StatusCode, AuthResponse),
>)
    ensures
        exists|temp_id: u128, now: Timestamp|
            {
                &&& #[trigger] is_random_uuid(temp_id)
                &&& #[trigger] now.is_reading()
                &&& answers_mailing(res, sent, uuid_text(temp_id))
                &&& final(state)@ == (if sent {
                    old(state)@.with_waiting_login(uuid_text(temp_id), *user, now)
                } else {
                    old(state)@
                })
            },
{
    let temp_id: u128 = random_uuid();
    let now = utc_now();
    login_after_mail_at(state, user, sent, temp_id, now)
}

/// Ends the session that the cookie names, if it names one, and takes the cookie
/// out of the jar. The answer is the same either way.
pub fn logout_handler(state: &mut AppState, jar: CookieJar) -> (res: (CookieJar, StatusReply))
    ensures
        cookies_in(res.0) == cookies_in(jar).remove("session_id"@),
        session_id_in(res.0) is None,
        res.1.has(true, Some("Logged out successfully"@), None),
        final(state)@ == old(state)@.logged_out(session_id_in(jar)),
{
    if let Some(id) = session_id_of(&jar) {
        state.sessions.remove(id.as_str());
    }
    (
        without_session_id(jar),
        StatusReply::with_message(true, "Logged out successfully"),
    )
}

impl AppState {
    /// The session that the cookie names.
    pub fn authorize(&self, session_id: Option<&str>) -> (res: Result<&Session, StatusCode>)
        ensures
            match res {
                Ok(session) => self@.authorized(opt_str(session_id)) == Ok::<Session, StatusCode>(
                    *session,
                ),
                Err(status) => self@.authorized(opt_str(session_id)) == Err::<Session, StatusCode>(
                    status,
                ),
            },
    {
        match session_id {
            None => Err(StatusCode::Unauthorized),
            Some(id) => match self.sessions.get(id) {
                None => Err(StatusCode::Unauthorized),
                Some(session) => Ok(session),
            },
        }
    }
}

} // verus!
