//! One-time codes, the second step of a login.

use rand::Rng;
use vstd::prelude::*;

use crate::clock::{utc_now, Timestamp};
use crate::cookie::{session_cookie, SessionCookie};
use crate::ids::{is_random_uuid, random_uuid, uuid_string, uuid_text, uuid_text_is_plain};
use crate::reply::StatusCode;
use crate::room::socket::Session;
use crate::state::{AppState, AppStateView};
use crate::text::{digit_char, six_digits, write_digit, write_six_digits};

pub use crate::mail::send_otp_email;

verus! {

/// How many wrong codes lock an entry.
pub const MAX_ATTEMPTS: u32 = 3;

/// How many codes there are: all the rows of six digits.
pub const OTP_CODES: u32 = 1000000;

/// How long a code is valid.
pub const OTP_LIFETIME_SECS: i64 = 600;

/// A code that was mailed to a user.
#[derive(Clone, Debug)]
pub struct OtpEntry {
    pub code: String,
    pub expires_at: Timestamp,
    pub attempts: u32,
}

impl OtpEntry {
    /// At most `MAX_ATTEMPTS` wrong codes are on record.
    pub open spec fn wf(self) -> bool {
        self.attempts <= MAX_ATTEMPTS
    }

    /// The entry for a code mailed at `now`.
    pub open spec fn fresh(code: String, now: Timestamp) -> OtpEntry {
        OtpEntry { code, expires_at: now.plus(OTP_LIFETIME_SECS as int), attempts: 0 }
    }

    /// Whether the code has run out at `now`; in its last instant it is still
    /// good.
    pub open spec fn expired_at(self, now: Timestamp) -> bool {
        self.expires_at.before(now)
    }

    /// Whether too many wrong codes were tried.
    pub open spec fn locked(self) -> bool {
        self.attempts >= MAX_ATTEMPTS
    }

    /// The entry after one more wrong code.
    pub open spec fn after_wrong_code(self) -> OtpEntry {
        OtpEntry { attempts: (self.attempts + 1) as u32, ..self }
    }

    /// The entry for a code mailed at `now`; nothing if the code would outlive
    /// the calendar.
    pub fn new_at(code: String, now: Timestamp) -> (entry: Option<OtpEntry>)
        requires
            now.wf(),
        ensures
            entry == (if now.can_add(OTP_LIFETIME_SECS as int) {
                Some(OtpEntry::fresh(code, now))
            } else {
                None
            }),
            entry matches Some(entry) ==> entry.wf(),
    {
        if now.can_add_seconds(OTP_LIFETIME_SECS) {
            Some(OtpEntry { code, expires_at: now.add_seconds(OTP_LIFETIME_SECS), attempts: 0 })
        } else {
            None
        }
    }

    /// The entry for a code mailed now; nothing if the code would outlive the
    /// calendar.
    pub fn new(code: String) -> (entry: Option<OtpEntry>)
        ensures
            exists|now: Timestamp| #[trigger]
                now.is_reading() && entry == (if now.can_add(OTP_LIFETIME_SECS as int) {
                    Some(OtpEntry::fresh(code, now))
                } else {
                    None
                }),
    {
        let now = utc_now();
        OtpEntry::new_at(code, now)
    }

    /// Whether the code has run out at `now`.
    pub fn is_expired_at(&self, now: &Timestamp) -> (expired: bool)
        ensures
            expired == self.expired_at(*now),
    {
        self.expires_at.is_before(now)
    }

    /// Whether the code has run out by now.
    pub fn is_expired(&self) -> (expired: bool)
        ensures
            exists|now: Timestamp| #[trigger]
                now.is_reading() && expired == self.expired_at(now),
    {
        let now = utc_now();
        self.is_expired_at(&now)
    }

    /// Whether too many wrong codes were tried.
    pub fn is_locked(&self) -> (locked: bool)
        ensures
            locked == self.locked(),
    {
        self.attempts >= MAX_ATTEMPTS
    }
}

/// Whether `code` is six decimal digits.
pub open spec fn is_otp_code(code: Seq<char>) -> bool {
    exists|drawn: u32| drawn < OTP_CODES && code == #[trigger] six_digits(drawn)
}

/// Draws a number with `gen_range` from the thread's random generator.
///
/// Claimed of every draw: it lies below the bound. Which number comes is chance.
/// The call panics on an empty range, so the bound is not zero.
#[verifier::external_body]
fn random_below(bound: u32) -> (drawn: u32)
    requires
        bound > 0,
    ensures
        drawn < bound,
{
    rand::thread_rng().gen_range(0..bound)
}

/// Draws a code of six digits.
pub fn generate_otp() -> (code: String)
    ensures
        is_otp_code(code@),
{
    write_six_digits(random_below(OTP_CODES))
}

/// A code that a user typed, for the login that waits for it.
#[derive(Clone, Debug)]
pub struct VerifyOtpRequest {
    pub otp_code: String,
    pub temp_session_id: String,
}

/// The answer to a `VerifyOtpRequest`.
#[derive(Clone, Debug)]
pub struct TwoFaResponse {
    pub success: bool,
    pub message: String,
    pub requires_otp: Option<bool>,
    pub temp_session_id: Option<String>,
}

/// What a typed code comes to.
#[derive(Clone, Copy, Debug, PartialEq, Eq, Structural)]
pub enum OtpVerdict {
    /// No login waits under the temporary session id.
    NoSession,
    /// The user of the login has no code.
    NoCode,
    /// The code has run out.
    Expired,
    /// Too many wrong codes were tried before.
    Locked,
    /// The code is wrong; so many tries are left.
    Wrong { remaining: u32 },
    /// The code is right.
    Accepted,
}

impl OtpVerdict {
    /// The status that a refusal is answered with.
    pub open spec fn status(self) -> StatusCode {
        match self {
            OtpVerdict::Locked => StatusCode::TooManyRequests,
            _ => StatusCode::Unauthorized,
        }
    }

    /// The message that goes with a verdict.
    pub open spec fn message(self) -> Seq<char> {
        match self {
            OtpVerdict::NoSession => "Invalid or expired session"@,
            OtpVerdict::NoCode => "No OTP found. Please request a new one."@,
            OtpVerdict::Expired => "OTP has expired. Please request a new one."@,
            OtpVerdict::Locked => "Too many failed attempts. Please request a new OTP."@,
            OtpVerdict::Wrong { remaining } => "Invalid OTP code. "@ + seq![
                digit_char(remaining as int),
            ] + " attempts remaining."@,
            OtpVerdict::Accepted => "Login successful"@,
        }
    }

    /// The message that goes with a verdict.
    pub fn text(&self) -> (text: String)
        requires
            *self matches OtpVerdict::Wrong { remaining } ==> remaining < 10,
        ensures
            text@ == self.message(),
    {
        match self {
            OtpVerdict::NoSession => "Invalid or expired session".to_owned(),
            OtpVerdict::NoCode => "No OTP found. Please request a new one.".to_owned(),
            OtpVerdict::Expired => "OTP has expired. Please request a new one.".to_owned(),
            OtpVerdict::Locked => "Too many failed attempts. Please request a new OTP.".to_owned(),
            OtpVerdict::Wrong { remaining } => {
                "Invalid OTP code. ".to_owned().concat(write_digit(*remaining).as_str()).concat(
                    " attempts remaining.",
                )
            },
            OtpVerdict::Accepted => "Login successful".to_owned(),
        }
    }
}

impl TwoFaResponse {
    /// Whether this is the answer that goes with `verdict`.
    pub open spec fn answers(self, verdict: OtpVerdict) -> bool {
        &&& self.success == (verdict is Accepted)
        &&& self.message@ == verdict.message()
        &&& self.requires_otp is None
        &&& self.temp_session_id is None
    }
}

impl AppStateView {
    /// The user whose login waits under `temp_id`.
    pub open spec fn waiting_user(self, temp_id: Seq<char>) -> u128 {
        self.temp_sessions[temp_id].user_id
    }

    /// What the code `code`, typed at `now` for the login that waits under
    /// `temp_id`, comes to.
    pub open spec fn otp_verdict(
        self,
        temp_id: Seq<char>,
        code: Seq<char>,
        now: Timestamp,
    ) -> OtpVerdict {
        let user = self.waiting_user(temp_id);
        let entry = self.otp_store[user];
        if !self.temp_sessions.contains_key(temp_id) {
            OtpVerdict::NoSession
        } else if !self.otp_store.contains_key(user) {
            OtpVerdict::NoCode
        } else if entry.expired_at(now) {
            OtpVerdict::Expired
        } else if entry.locked() {
            OtpVerdict::Locked
        } else if entry.code@ != code {
            OtpVerdict::Wrong { remaining: (MAX_ATTEMPTS - entry.attempts - 1) as u32 }
        } else {
            OtpVerdict::Accepted
        }
    }

    /// The state after that verdict; a login that is accepted becomes a session
    /// under `session_id`, created at `created_at`.
    pub open spec fn after_otp(
        self,
        temp_id: Seq<char>,
        code: Seq<char>,
        now: Timestamp,
        session_id: Seq<char>,
        created_at: Timestamp,
    ) -> AppStateView {
        let user = self.waiting_user(temp_id);
        match self.otp_verdict(temp_id, code, now) {
            OtpVerdict::Expired => AppStateView { otp_store: self.otp_store.remove(user), ..self },
            OtpVerdict::Wrong { .. } => AppStateView {
                otp_store: self.otp_store.insert(user, self.otp_store[user].after_wrong_code()),
                ..self
            },
            OtpVerdict::Accepted => AppStateView {
                otp_store: self.otp_store.remove(user),
                sessions: self.sessions.insert(
                    session_id,
                    Session { created_at, ..self.temp_sessions[temp_id] },
                ),
                temp_sessions: self.temp_sessions.remove(temp_id),
                ..self
            },
            _ => self,
        }
    }
}

/// Whether `res` answers the code `code`, typed at `now` for the login that
/// waits in `state` under `temp_id`; an accepted login gets the cookie for
/// `session_id`.
pub open spec fn answers_otp(
    res: Result<(SessionCookie, TwoFaResponse), (StatusCode, TwoFaResponse)>,
    state: AppStateView,
    temp_id: Seq<char>,
    code: Seq<char>,
    now: Timestamp,
    session_id: Seq<char>,
) -> bool {
    let verdict = state.otp_verdict(temp_id, code, now);
    match res {
        Ok((cookie, body)) => {
            &&& verdict is Accepted
            &&& cookie.carries(session_id)
            &&& body.answers(verdict)
        },
        Err((status, body)) => {
            &&& !(verdict is Accepted)
            &&& status == verdict.status()
            &&& body.answers(verdict)
        },
    }
}

/// The refusal that goes with `verdict`.
fn refusal(verdict: OtpVerdict) -> (res: Result<
    (SessionCookie, TwoFaResponse),
    (StatusCode, TwoFaResponse),
>)
    requires
        verdict matches OtpVerdict::Wrong { remaining } ==> remaining < 10,
        !(verdict is Accepted),
    ensures
        res matches Err((status, body)) && status == verdict.status() && body.answers(verdict),
{
    let status = match verdict {
        OtpVerdict::Locked => StatusCode::TooManyRequests,
        _ => StatusCode::Unauthorized,
    };
    let body = TwoFaResponse {
        success: false,
        message: verdict.text(),
        requires_otp: None,
        temp_session_id: None,
    };
    Err((status, body))
}

/// Judges a code typed at `now`. If it is right, the login that waited becomes
/// the session `session_id`, created at `created_at`.
pub fn verify_otp_at(
    state: &mut AppState,
    payload: &VerifyOtpRequest,
    now: Timestamp,
    session_id: u128,
    created_at: Timestamp,
) -> (res: Result<(SessionCookie, TwoFaResponse), (StatusCode, TwoFaResponse)>)
    ensures
        answers_otp(
            res,
            old(state)@,
            payload.temp_session_id@,
            payload.otp_code@,
            now,
            uuid_text(session_id),
        ),
        final(state)@ == old(state)@.after_otp(
            payload.temp_session_id@,
            payload.otp_code@,
            now,
            uuid_text(session_id),
            created_at,
        ),
{
    let (user_id, username) = match state.temp_sessions.get(payload.temp_session_id.as_str()) {
        None => {
            return refusal(OtpVerdict::NoSession);
        },
        Some(session) => (session.user_id, session.username.clone()),
    };
    let entry = match state.otp_store.remove(&user_id) {
        None => {
            assert(state@ == old(state)@);
            return refusal(OtpVerdict::NoCode);
        },
        Some(entry) => entry,
    };
    if entry.is_expired_at(&now) {
        return refusal(OtpVerdict::Expired);
    }
    if entry.is_locked() {
        state.otp_store.insert(user_id, entry);
        assert(state@ == old(state)@);
        return refusal(OtpVerdict::Locked);
    }
    if entry.code != payload.otp_code {
        let attempts: u32 = entry.attempts + 1;
        state.otp_store.insert(user_id, OtpEntry { attempts, ..entry });
        return refusal(OtpVerdict::Wrong { remaining: MAX_ATTEMPTS - attempts });
    }
    let session_key = uuid_string(session_id);
    state.sessions.insert(session_key.clone(), Session { user_id, username, created_at });
    state.temp_sessions.remove(payload.temp_session_id.as_str());
    proof {
        uuid_text_is_plain(session_id);
    }
    let cookie = session_cookie(session_key.as_str());
    let body = TwoFaResponse {
        success: true,
        message: OtpVerdict::Accepted.text(),
        requires_otp: None,
        temp_session_id: None,
    };
    Ok((cookie, body))
}

/// Judges a code that was just typed. If it is right, the login that waited
/// becomes a session with a fresh id, which the cookie of the answer carries.
pub fn verify_otp_handler(state: &mut AppState, payload: &VerifyOtpRequest) -> (res: Result<
    (SessionCookie, TwoFaResponse),
    (StatusCode, TwoFaResponse),
>)
    ensures
        exists|now: Timestamp, session_id: u128, created_at: Timestamp|
            {
                &&& #[trigger] now.is_reading()
                &&& #[trigger] is_random_uuid(session_id)
                &&& #[trigger] created_at.is_reading()
                &&& answers_otp(
                    res,
                    old(state)@,
                    payload.temp_session_id@,
                    payload.otp_code@,
                    now,
                    uuid_text(session_id),
                )
                &&& final(state)@ == old(state)@.after_otp(
                    payload.temp_session_id@,
                    payload.otp_code@,
                    now,
                    uuid_text(session_id),
                    created_at,
                )
            },
{
    let now = utc_now();
    let session_id: u128 = random_uuid();
    let created_at = utc_now();
    verify_otp_at(state, payload, now, session_id, created_at)
}

} // verus!
