//! What callers can rely on, said of the calls themselves: of what goes in and
//! what comes out, and of how two calls relate.

use axum_extra::extract::CookieJar;
use vstd::prelude::*;

use crate::auth::account::{
    get_public_keys, get_public_keys_handler, get_public_keys_reply, get_settings_handler,
    get_settings_reply, list_users_handler, me_handler, me_reply, update_public_key_handler,
    update_public_key_reply, update_settings_handler, update_settings_reply, DirectoryEntry,
    KeyUpdate, SettingsUpdate,
};
use crate::auth::login::{
    authenticate_user, conclude_authentication, login_after_mail, login_after_mail_at, login_at,
    login_handler, logout_handler, LoginStep,
};
use crate::auth::register::{
    register_handler, register_reply, register_user, register_user_with, NewUser, RegisterStep,
    RegisteredUser,
};
use crate::auth::reset::{
    check_token, forgot_password_at, forgot_password_handler, reset_password_handler,
    reset_password_with, reset_reply, ForgotStep, ResetAccount, ResetStep, ResetTokenRecord,
};
use crate::auth::two_fa::{
    generate_otp, verify_otp_at, verify_otp_handler, OtpEntry, OtpVerdict, TwoFaResponse,
    VerifyOtpRequest,
};
use crate::auth::{
    AuthError, AuthResponse, ForgotPasswordRequest, LoginRequest, PublicKeyInfo, RegisterRequest,
    ResetPasswordRequest, SettingsResponse, UpdatePublicKeyRequest, UpdateSettingsRequest, User,
    UserResponse, UserSummary,
};
use crate::clock::Timestamp;
use crate::cookie::{cookies_in, SameSite, SessionCookie};
use crate::ids::{is_random_uuid, uuid_text};
use crate::password::{argon2_accepts, argon2_hash, fits_argon2, is_phc_string, is_salt};
use crate::phc::lanes_fit;
use crate::reply::{DatabaseFailure, StatusCode, StatusReply};
use crate::room::socket::Session;
use crate::state::AppState;

verus! {

/// Nobody is let in whose password does not belong to the stored hash, whoever
/// they are: the user who comes out is the one that the database holds, the hash
/// can be read, and Argon2 finds that the password belongs to it.
pub proof fn only_the_right_password_gets_in(
    lookup: Result<Option<User>, DatabaseFailure>,
    password: &str,
    res: Result<User, AuthError>,
)
    requires
        call_ensures(authenticate_user, (lookup, password), res),
    ensures
        res matches Ok(user) ==> lookup == Ok::<Option<User>, DatabaseFailure>(Some(user))
            && is_phc_string(user.password_hash@) && argon2_accepts(
            password@,
            user.password_hash@,
        ),
        lookup is Err ==> res == Err::<User, AuthError>(AuthError::DatabaseError),
        lookup == Ok::<Option<User>, DatabaseFailure>(None) ==> res == Err::<User, AuthError>(
            AuthError::InvalidCredentials,
        ),
        lookup matches Ok(Some(user)) ==> {
            &&& !is_phc_string(user.password_hash@) ==> res == Err::<User, AuthError>(
                AuthError::HashError,
            )
            &&& is_phc_string(user.password_hash@) && !argon2_accepts(
                password@,
                user.password_hash@,
            ) ==> res == Err::<User, AuthError>(AuthError::InvalidCredentials)
            &&& is_phc_string(user.password_hash@) && lanes_fit(user.password_hash@)
                && argon2_accepts(password@, user.password_hash@) ==> res == Ok::<User, AuthError>(
                user,
            )
            &&& is_phc_string(user.password_hash@) && !lanes_fit(user.password_hash@) ==> res
                == Err::<User, AuthError>(AuthError::InvalidCredentials)
        },
{
}

/// A login succeeds just if there is a user and the check of the password
/// succeeded; what went wrong comes out as it came in.
pub proof fn logins_need_a_user_and_a_passed_check(
    lookup: Result<Option<User>, DatabaseFailure>,
    check: Result<(), AuthError>,
    res: Result<User, AuthError>,
)
    requires
        call_ensures(conclude_authentication, (lookup, check), res),
    ensures
        res matches Ok(user) ==> check is Ok && lookup == Ok::<Option<User>, DatabaseFailure>(
            Some(user),
        ),
        lookup matches Ok(Some(_)) ==> (check is Ok ==> res is Ok),
        lookup matches Ok(Some(_)) ==> (check matches Err(e) ==> res == Err::<User, AuthError>(e)),
        lookup is Err ==> res == Err::<User, AuthError>(AuthError::DatabaseError),
        lookup == Ok::<Option<User>, DatabaseFailure>(None) ==> res == Err::<User, AuthError>(
            AuthError::InvalidCredentials,
        ),
{
}

/// Whether `lookup` found a user and `password` belongs to their hash.
pub open spec fn may_log_in(
    lookup: Result<Option<User>, DatabaseFailure>,
    password: Seq<char>,
) -> bool {
    lookup matches Ok(Some(user)) && is_phc_string(user.password_hash@) && lanes_fit(
        user.password_hash@,
    ) && argon2_accepts(password, user.password_hash@)
}

/// Whether nothing in the state has changed.
pub open spec fn is_unchanged(before: AppState, after: AppState) -> bool {
    &&& after.connections@ == before.connections@
    &&& after.sessions@ == before.sessions@
    &&& after.temp_sessions@ == before.temp_sessions@
    &&& after.otp_store@ == before.otp_store@
}

/// Whether `entry` is a code from `now`, good for ten minutes, that nobody has
/// tried yet.
pub open spec fn is_fresh_entry(entry: OtpEntry, code: Seq<char>, now: Timestamp) -> bool {
    &&& entry.code@ == code
    &&& entry.attempts == 0
    &&& entry.expires_at.secs == now.secs + 10 * 60
    &&& now.nanos < 1000000000 ==> entry.expires_at.nanos == now.nanos
    &&& now.nanos >= 1000000000 ==> entry.expires_at.nanos == now.nanos - 1000000000
}

/// Whether `body` refuses a login: the same words whatever the reason.
pub open spec fn is_login_refusal(status: StatusCode, body: AuthResponse) -> bool {
    &&& status == StatusCode::Unauthorized
    &&& !body.success
    &&& body.message@ == "Invalid credentials"@
    &&& body.user is None
    &&& body.requires_2fa is None
    &&& body.temp_session_id is None
}

/// A right password puts a fresh code for the user on record, in place of any
/// older one, and has that code mailed to them; nothing else changes. A wrong one
/// changes nothing and is refused.
pub proof fn right_passwords_lead_to_a_code(
    state: &mut AppState,
    payload: &LoginRequest,
    lookup: Result<Option<User>, DatabaseFailure>,
    code: String,
    now: Timestamp,
    step: LoginStep,
)
    requires
        call_ensures(login_at, (state, payload, lookup, code, now), step),
        now.wf(),
    ensures
        may_log_in(lookup, payload.password@) && now.secs + 600 <= 8210266876799 ==> {
            let user = lookup->Ok_0->0;
            &&& step matches LoginStep::SendCode { user: to, code: sent }
            &&& to == user
            &&& sent == code
            &&& final(state).otp_store@.contains_key(user.id)
            &&& is_fresh_entry(final(state).otp_store@[user.id], code@, now)
            &&& final(state).otp_store@.remove(user.id) == old(state).otp_store@.remove(user.id)
            &&& final(state).connections@ == old(state).connections@
            &&& final(state).sessions@ == old(state).sessions@
            &&& final(state).temp_sessions@ == old(state).temp_sessions@
        },
        may_log_in(lookup, payload.password@) && now.secs + 600 > 8210266876799 ==> step
            is ClockOutOfRange && is_unchanged(*old(state), *final(state)),
        !may_log_in(lookup, payload.password@) ==> {
            &&& step matches LoginStep::Refused { status, body, reason }
            &&& is_login_refusal(status, body)
            &&& reason is DatabaseError <==> lookup is Err
            &&& reason is HashError <==> (lookup matches Ok(Some(user)) && !is_phc_string(
                user.password_hash@,
            ))
            &&& is_unchanged(*old(state), *final(state))
        },
{
    if may_log_in(lookup, payload.password@) && now.secs + 600 <= 8210266876799 {
        let user = lookup->Ok_0->0;
        assert(final(state).otp_store@.remove(user.id) =~= old(state).otp_store@.remove(user.id));
    }
}

/// The same of a login now: the code has six digits, and it is on record as it
/// is mailed.
pub proof fn right_passwords_lead_to_a_code_now(
    state: &mut AppState,
    payload: &LoginRequest,
    lookup: Result<Option<User>, DatabaseFailure>,
    step: LoginStep,
)
    requires
        call_ensures(login_handler, (state, payload, lookup), step),
    ensures
        may_log_in(lookup, payload.password@) ==> {
            let user = lookup->Ok_0->0;
            ||| {
                &&& step matches LoginStep::SendCode { user: to, code }
                &&& to == user
                &&& is_six_digits(code@)
                &&& final(state).otp_store@.contains_key(user.id)
                &&& exists|now: Timestamp| #[trigger]
                    now.is_reading() && is_fresh_entry(
                        final(state).otp_store@[user.id],
                        code@,
                        now,
                    )
                &&& final(state).otp_store@.remove(user.id) == old(state).otp_store@.remove(
                    user.id,
                )
                &&& final(state).connections@ == old(state).connections@
                &&& final(state).sessions@ == old(state).sessions@
                &&& final(state).temp_sessions@ == old(state).temp_sessions@
            }
            ||| {
                &&& step is ClockOutOfRange
                &&& exists|now: Timestamp| #[trigger]
                    now.is_reading() && now.secs + 600 > 8210266876799
                &&& is_unchanged(*old(state), *final(state))
            }
        },
        !may_log_in(lookup, payload.password@) ==> {
            &&& step matches LoginStep::Refused { status, body, reason }
            &&& is_login_refusal(status, body)
            &&& reason is DatabaseError <==> lookup is Err
            &&& reason is HashError <==> (lookup matches Ok(Some(user)) && !is_phc_string(
                user.password_hash@,
            ))
            &&& is_unchanged(*old(state), *final(state))
        },
{
    let (code, now) = choose|code: String, now: Timestamp|
        {
            &&& #[trigger] crate::auth::two_fa::is_otp_code(code@)
            &&& #[trigger] now.is_reading()
            &&& crate::auth::login::is_login_step(
                step,
                old(state)@,
                final(state)@,
                lookup,
                payload.password@,
                code,
                now,
            )
        };
    assert(now.is_reading());
    if may_log_in(lookup, payload.password@) && step is SendCode {
        let user = lookup->Ok_0->0;
        codes_are_six_digits(code@);
        assert(final(state).otp_store@.remove(user.id) =~= old(state).otp_store@.remove(user.id));
        assert(is_fresh_entry(final(state).otp_store@[user.id], code@, now));
    }
}

/// Whether `code` is six decimal digits.
pub open spec fn is_six_digits(code: Seq<char>) -> bool {
    &&& code.len() == 6
    &&& forall|i: int| 0 <= i < 6 ==> '0' <= #[trigger] code[i] <= '9'
}

proof fn codes_are_six_digits(code: Seq<char>)
    requires
        crate::auth::two_fa::is_otp_code(code),
    ensures
        is_six_digits(code),
{
    let drawn = choose|drawn: u32|
        drawn < crate::auth::two_fa::OTP_CODES && code == #[trigger] crate::text::six_digits(drawn);
    crate::text::six_digits_give_the_number_back(drawn);
    assert forall|i: int| 0 <= i < 6 implies '0' <= #[trigger] code[i] <= '9' by {
        assert(crate::text::is_digit(crate::text::six_digits(drawn)[i]));
    }
}

/// Codes have six digits.
pub proof fn drawn_codes_have_six_digits(code: String)
    requires
        call_ensures(generate_otp, (), code),
    ensures
        is_six_digits(code@),
{
    codes_are_six_digits(code@);
}

/// Whether `body` asks for the code that was mailed, for the login that waits
/// under `temp_id`.
pub open spec fn asks_for_the_code(body: AuthResponse, temp_id: Seq<char>) -> bool {
    &&& body.success
    &&& body.message@ == "Verification code sent to your email"@
    &&& body.user is None
    &&& body.requires_2fa == Some(true)
    &&& body.temp_session_id matches Some(id) && id@ == temp_id
}

/// Whether `status` and `body` say that no code could be mailed.
pub open spec fn says_not_mailed(status: StatusCode, body: AuthResponse) -> bool {
    &&& status == StatusCode::InternalServerError
    &&& !body.success
    &&& body.message@ == "Failed to send verification code"@
    &&& body.user is None
    &&& body.requires_2fa == Some(true)
    &&& body.temp_session_id is None
}

/// A login waits under the id that the answer names, for the user who logged in
/// and from then on, just if the code was mailed. It opens no session.
pub proof fn logins_wait_only_if_the_code_was_mailed(
    state: &mut AppState,
    user: &User,
    sent: bool,
    temp_id: u128,
    now: Timestamp,
    res: Result<AuthResponse, (StatusCode, AuthResponse)>,
)
    requires
        call_ensures(login_after_mail_at, (state, user, sent, temp_id, now), res),
    ensures
        sent ==> {
            let key = uuid_text(temp_id);
            &&& res matches Ok(body)
            &&& asks_for_the_code(body, key)
            &&& final(state).temp_sessions@.contains_key(key)
            &&& final(state).temp_sessions@[key].user_id == user.id
            &&& final(state).temp_sessions@[key].username@ == user.name@
            &&& final(state).temp_sessions@[key].created_at == now
            &&& final(state).temp_sessions@.remove(key) == old(state).temp_sessions@.remove(key)
            &&& final(state).connections@ == old(state).connections@
            &&& final(state).sessions@ == old(state).sessions@
            &&& final(state).otp_store@ == old(state).otp_store@
        },
        !sent ==> {
            &&& res matches Err((status, body))
            &&& says_not_mailed(status, body)
            &&& is_unchanged(*old(state), *final(state))
        },
{
    let key = uuid_text(temp_id);
    assert(final(state).temp_sessions@.remove(key) =~= old(state).temp_sessions@.remove(key));
}

/// The same of a login now, under a fresh id.
pub proof fn logins_wait_now_only_if_the_code_was_mailed(
    state: &mut AppState,
    user: &User,
    sent: bool,
    res: Result<AuthResponse, (StatusCode, AuthResponse)>,
)
    requires
        call_ensures(login_after_mail, (state, user, sent), res),
    ensures
        sent ==> {
            &&& res is Ok
            &&& res->Ok_0.temp_session_id is Some
            &&& {
                let key = res->Ok_0.temp_session_id->0@;
                &&& exists|id: u128| #[trigger] is_random_uuid(id) && key == uuid_text(id)
                &&& asks_for_the_code(res->Ok_0, key)
                &&& final(state).temp_sessions@.contains_key(key)
                &&& final(state).temp_sessions@[key].user_id == user.id
                &&& final(state).temp_sessions@[key].username@ == user.name@
                &&& final(state).temp_sessions@[key].created_at.is_reading()
                &&& final(state).temp_sessions@.remove(key) == old(state).temp_sessions@.remove(
                    key,
                )
            }
            &&& final(state).connections@ == old(state).connections@
            &&& final(state).sessions@ == old(state).sessions@
            &&& final(state).otp_store@ == old(state).otp_store@
        },
        !sent ==> {
            &&& res matches Err((status, body))
            &&& says_not_mailed(status, body)
            &&& is_unchanged(*old(state), *final(state))
        },
{
    if sent {
        let key = res->Ok_0.temp_session_id->0@;
        assert(final(state).temp_sessions@.remove(key) =~= old(state).temp_sessions@.remove(key));
    }
}

/// Logging out ends the session that the cookie names and no other, takes that
/// cookie out of the jar and no other, and is answered the same in any case.
pub proof fn logging_out_ends_one_session(
    state: &mut AppState,
    jar: CookieJar,
    res: (CookieJar, StatusReply),
)
    requires
        call_ensures(logout_handler, (state, jar), res),
    ensures
        !cookies_in(res.0).contains_key("session_id"@),
        forall|name: Seq<char>|
            name != "session_id"@ ==> (#[trigger] cookies_in(res.0).contains_key(name)
                <==> cookies_in(jar).contains_key(name)) && (cookies_in(jar).contains_key(name)
                ==> cookies_in(res.0)[name] == cookies_in(jar)[name]),
        res.1.success,
        res.1.message matches Some(message) && message@ == "Logged out successfully"@,
        res.1.default_ttl_seconds is None,
        cookies_in(jar).contains_key("session_id"@) ==> !final(state).sessions@.contains_key(
            cookies_in(jar)["session_id"@],
        ),
        forall|id: Seq<char>|
            !(cookies_in(jar).contains_key("session_id"@) && id == cookies_in(
                jar,
            )["session_id"@]) ==> (#[trigger] final(state).sessions@.contains_key(id)
                <==> old(state).sessions@.contains_key(id)) && (old(state).sessions@.contains_key(
                id,
            ) ==> final(state).sessions@[id] == old(state).sessions@[id]),
        final(state).connections@ == old(state).connections@,
        final(state).temp_sessions@ == old(state).temp_sessions@,
        final(state).otp_store@ == old(state).otp_store@,
{
}

/// A cookie lets in just if it names a session, and then to that session.
pub proof fn cookies_lead_to_the_session_they_name(
    state: &AppState,
    session_id: Option<&str>,
    res: Result<&Session, StatusCode>,
)
    requires
        call_ensures(AppState::authorize, (state, session_id), res),
    ensures
        res is Ok <==> session_id is Some && state.sessions@.contains_key(session_id->0@),
        res matches Ok(session) ==> *session == state.sessions@[session_id->0@],
        res matches Err(status) ==> status == StatusCode::Unauthorized,
{
}

/// A code is good for ten minutes from its mailing, untried, if that fits into
/// the calendar.
pub proof fn codes_are_good_for_ten_minutes(
    code: String,
    now: Timestamp,
    entry: Option<OtpEntry>,
    at_once: Option<OtpEntry>,
)
    requires
        now.wf(),
        call_ensures(OtpEntry::new_at, (code, now), entry),
        call_ensures(OtpEntry::new, (code,), at_once),
    ensures
        entry is Some <==> now.secs + 600 <= 8210266876799,
        entry matches Some(entry) ==> is_fresh_entry(entry, code@, now),
        at_once matches Some(entry) ==> exists|then: Timestamp| #[trigger]
            then.is_reading() && is_fresh_entry(entry, code@, then),
        at_once is None ==> exists|then: Timestamp| #[trigger]
            then.is_reading() && then.secs + 600 > 8210266876799,
{
    let then = choose|then: Timestamp| #[trigger]
        then.is_reading() && at_once == (if then.can_add(600) {
            Some(OtpEntry::fresh(code, then))
        } else {
            None
        });
    assert(then.is_reading());
}

/// Whether one point in time comes strictly before another.
pub open spec fn is_earlier(a: Timestamp, b: Timestamp) -> bool {
    a.secs < b.secs || (a.secs == b.secs && a.nanos < b.nanos)
}

/// A code has run out just if its last instant has passed, and is locked from
/// the third wrong try on.
pub proof fn codes_run_out_and_lock(
    entry: &OtpEntry,
    now: &Timestamp,
    expired: bool,
    expired_now: bool,
    locked: bool,
)
    requires
        call_ensures(OtpEntry::is_expired_at, (entry, now), expired),
        call_ensures(OtpEntry::is_expired, (entry,), expired_now),
        call_ensures(OtpEntry::is_locked, (entry,), locked),
    ensures
        expired <==> is_earlier(entry.expires_at, *now),
        exists|then: Timestamp| #[trigger]
            then.is_reading() && (expired_now <==> is_earlier(entry.expires_at, then)),
        locked <==> entry.attempts > 2,
{
    let then = choose|then: Timestamp| #[trigger]
        then.is_reading() && expired_now == entry.expired_at(then);
    assert(then.is_reading());
}

/// Whether `res` refuses a code with the given status and words.
pub open spec fn is_code_refusal(
    res: Result<(SessionCookie, TwoFaResponse), (StatusCode, TwoFaResponse)>,
    status: StatusCode,
    message: Seq<char>,
) -> bool {
    &&& res matches Err((given, body))
    &&& given == status
    &&& !body.success
    &&& body.message@ == message
    &&& body.requires_otp is None
    &&& body.temp_session_id is None
}

/// Whether `cookie` carries a session id for a day, hidden from scripts and from
/// other sites' posts, over the whole site.
pub open spec fn is_session_cookie(cookie: SessionCookie, id: Seq<char>) -> bool {
    &&& cookie.name@ == "session_id"@
    &&& cookie.value@ == id
    &&& cookie.http_only == Some(true)
    &&& cookie.same_site == Some(SameSite::Lax)
    &&& cookie.path matches Some(path) && path@ == "/"@
    &&& cookie.max_age_seconds matches Some(age) && age == 24 * 60 * 60
}

/// What a typed code comes to, told from the logins that wait and the codes on
/// record: who has no login waiting or no code is refused, then who comes too
/// late, then who has guessed too often, then who guesses wrong; everyone else
/// gets a session. Each refusal has its own words, and changes the record of that
/// user alone.
pub open spec fn judges_the_code(
    before: AppState,
    after: AppState,
    temp_id: Seq<char>,
    typed: Seq<char>,
    now: Timestamp,
    session_id: Seq<char>,
    created_at: Timestamp,
    res: Result<(SessionCookie, TwoFaResponse), (StatusCode, TwoFaResponse)>,
) -> bool {
    let waiting = before.temp_sessions@[temp_id];
    let user = waiting.user_id;
    let entry = before.otp_store@[user];
    &&& !before.temp_sessions@.contains_key(temp_id) ==> is_code_refusal(
        res,
        StatusCode::Unauthorized,
        "Invalid or expired session"@,
    ) && is_unchanged(before, after)
    &&& before.temp_sessions@.contains_key(temp_id) && !before.otp_store@.contains_key(user)
        ==> is_code_refusal(
        res,
        StatusCode::Unauthorized,
        "No OTP found. Please request a new one."@,
    ) && is_unchanged(before, after)
    &&& before.temp_sessions@.contains_key(temp_id) && before.otp_store@.contains_key(user) ==> {
        &&& after.connections@ == before.connections@
        &&& after.otp_store@.remove(user) == before.otp_store@.remove(user)
        &&& is_earlier(entry.expires_at, now) ==> {
            &&& is_code_refusal(
                res,
                StatusCode::Unauthorized,
                "OTP has expired. Please request a new one."@,
            )
            &&& !after.otp_store@.contains_key(user)
            &&& after.sessions@ == before.sessions@
            &&& after.temp_sessions@ == before.temp_sessions@
        }
        &&& !is_earlier(entry.expires_at, now) && entry.attempts >= 3 ==> is_code_refusal(
            res,
            StatusCode::TooManyRequests,
            "Too many failed attempts. Please request a new OTP."@,
        ) && is_unchanged(before, after)
        &&& !is_earlier(entry.expires_at, now) && entry.attempts < 3 && entry.code@ != typed ==> {
            &&& entry.attempts == 0 ==> is_code_refusal(
                res,
                StatusCode::Unauthorized,
                "Invalid OTP code. "@ + seq!['2'] + " attempts remaining."@,
            )
            &&& entry.attempts == 1 ==> is_code_refusal(
                res,
                StatusCode::Unauthorized,
                "Invalid OTP code. "@ + seq!['1'] + " attempts remaining."@,
            )
            &&& entry.attempts == 2 ==> is_code_refusal(
                res,
                StatusCode::Unauthorized,
                "Invalid OTP code. "@ + seq!['0'] + " attempts remaining."@,
            )
            &&& after.otp_store@.contains_key(user)
            &&& after.otp_store@[user].attempts == entry.attempts + 1
            &&& after.otp_store@[user].code@ == entry.code@
            &&& after.otp_store@[user].expires_at == entry.expires_at
            &&& after.sessions@ == before.sessions@
            &&& after.temp_sessions@ == before.temp_sessions@
        }
        &&& !is_earlier(entry.expires_at, now) && entry.attempts < 3 && entry.code@ == typed ==> {
            &&& res matches Ok((cookie, body))
            &&& is_session_cookie(cookie, session_id)
            &&& body.success
            &&& body.message@ == "Login successful"@
            &&& body.requires_otp is None
            &&& body.temp_session_id is None
            &&& !after.otp_store@.contains_key(user)
            &&& after.sessions@.contains_key(session_id)
            &&& after.sessions@[session_id].user_id == user
            &&& after.sessions@[session_id].username@ == waiting.username@
            &&& after.sessions@[session_id].created_at == created_at
            &&& after.sessions@.remove(session_id) == before.sessions@.remove(session_id)
            &&& !after.temp_sessions@.contains_key(temp_id)
            &&& after.temp_sessions@.remove(temp_id) == before.temp_sessions@.remove(temp_id)
        }
    }
}

/// A code is judged by the login that waits for it and the code on record.
pub proof fn codes_are_judged_by_what_is_on_record(
    state: &mut AppState,
    payload: &VerifyOtpRequest,
    now: Timestamp,
    session_id: u128,
    created_at: Timestamp,
    res: Result<(SessionCookie, TwoFaResponse), (StatusCode, TwoFaResponse)>,
)
    requires
        call_ensures(verify_otp_at, (state, payload, now, session_id, created_at), res),
    ensures
        judges_the_code(
            *old(state),
            *final(state),
            payload.temp_session_id@,
            payload.otp_code@,
            now,
            uuid_text(session_id),
            created_at,
            res,
        ),
{
    code_is_judged(
        *old(state),
        *final(state),
        payload.temp_session_id@,
        payload.otp_code@,
        now,
        uuid_text(session_id),
        created_at,
        res,
    );
}

proof fn code_is_judged(
    before: AppState,
    after: AppState,
    temp_id: Seq<char>,
    typed: Seq<char>,
    now: Timestamp,
    session_id: Seq<char>,
    created_at: Timestamp,
    res: Result<(SessionCookie, TwoFaResponse), (StatusCode, TwoFaResponse)>,
)
    requires
        crate::auth::two_fa::answers_otp(res, before@, temp_id, typed, now, session_id),
        after@ == before@.after_otp(temp_id, typed, now, session_id, created_at),
    ensures
        judges_the_code(before, after, temp_id, typed, now, session_id, created_at, res),
{
    let user = before.temp_sessions@[temp_id].user_id;
    assert(after.otp_store@ == after@.otp_store && after.sessions@ == after@.sessions
        && after.temp_sessions@ == after@.temp_sessions && after.connections@
        == after@.connections);
    assert(after.otp_store@.remove(user) =~= before.otp_store@.remove(user) || !(
    before.temp_sessions@.contains_key(temp_id) && before.otp_store@.contains_key(user)));
    assert(after.sessions@.remove(session_id) =~= before.sessions@.remove(session_id));
    assert(after.temp_sessions@.remove(temp_id) =~= before.temp_sessions@.remove(temp_id));
    assert(crate::text::digit_char(0) == '0' && crate::text::digit_char(1) == '1'
        && crate::text::digit_char(2) == '2');
}

/// The same of a code that is typed now; a session gets a fresh id.
pub proof fn codes_typed_now_are_judged_by_what_is_on_record(
    state: &mut AppState,
    payload: &VerifyOtpRequest,
    res: Result<(SessionCookie, TwoFaResponse), (StatusCode, TwoFaResponse)>,
)
    requires
        call_ensures(verify_otp_handler, (state, payload), res),
    ensures
        exists|now: Timestamp, session_id: u128, created_at: Timestamp|
            {
                &&& #[trigger] now.is_reading()
                &&& #[trigger] is_random_uuid(session_id)
                &&& #[trigger] created_at.is_reading()
                &&& judges_the_code(
                    *old(state),
                    *final(state),
                    payload.temp_session_id@,
                    payload.otp_code@,
                    now,
                    uuid_text(session_id),
                    created_at,
                    res,
                )
            },
{
    let (now, session_id, created_at) = choose|
        now: Timestamp,
        session_id: u128,
        created_at: Timestamp,
    |
        {
            &&& #[trigger] now.is_reading()
            &&& #[trigger] is_random_uuid(session_id)
            &&& #[trigger] created_at.is_reading()
            &&& crate::auth::two_fa::answers_otp(
                res,
                old(state)@,
                payload.temp_session_id@,
                payload.otp_code@,
                now,
                uuid_text(session_id),
            )
            &&& final(state)@ == old(state)@.after_otp(
                payload.temp_session_id@,
                payload.otp_code@,
                now,
                uuid_text(session_id),
                created_at,
            )
        };
    code_is_judged(
        *old(state),
        *final(state),
        payload.temp_session_id@,
        payload.otp_code@,
        now,
        uuid_text(session_id),
        created_at,
        res,
    );
    assert(now.is_reading() && is_random_uuid(session_id) && created_at.is_reading());
}

/// No two verdicts are put in the same words, and those on a wrong code end in
/// the number of tries that are left.
pub proof fn verdicts_are_told_apart(verdict: &OtpVerdict, text: String)
    requires
        call_ensures(OtpVerdict::text, (verdict,), text),
        *verdict matches OtpVerdict::Wrong { remaining } ==> remaining < 10,
    ensures
        match *verdict {
            OtpVerdict::NoSession => text@ == "Invalid or expired session"@,
            OtpVerdict::NoCode => text@ == "No OTP found. Please request a new one."@,
            OtpVerdict::Expired => text@ == "OTP has expired. Please request a new one."@,
            OtpVerdict::Locked => text@ == "Too many failed attempts. Please request a new OTP."@,
            OtpVerdict::Wrong { remaining } => {
                &&& text@.len() == "Invalid OTP code. "@.len() + 1 + " attempts remaining."@.len()
                &&& text@["Invalid OTP code. "@.len() as int] as int == '0' as int + remaining
                &&& "Invalid OTP code. "@.is_prefix_of(text@)
                &&& " attempts remaining."@.is_suffix_of(text@)
            },
            OtpVerdict::Accepted => text@ == "Login successful"@,
        },
{
}

/// Whether `cookie` names a session in `state`.
pub open spec fn names_a_session(state: AppState, cookie: Option<&str>) -> bool {
    cookie is Some && state.sessions@.contains_key(cookie->0@)
}

/// Someone who asks about their own account is shown the account of their
/// session's user: everything but the hash.
pub proof fn own_accounts_are_shown(
    state: &AppState,
    cookie: Option<&str>,
    res: Result<u128, StatusCode>,
    loaded: Result<User, DatabaseFailure>,
    reply: Result<UserResponse, StatusCode>,
)
    requires
        call_ensures(me_handler, (state, cookie), res),
        call_ensures(me_reply, (loaded,), reply),
    ensures
        res is Ok <==> names_a_session(*state, cookie),
        res matches Ok(user) ==> user == state.sessions@[cookie->0@].user_id,
        res matches Err(status) ==> status == StatusCode::Unauthorized,
        reply is Ok <==> loaded is Ok,
        reply matches Err(status) ==> status == StatusCode::InternalServerError,
        loaded matches Ok(user) ==> shows_all_but_the_hash(reply->Ok_0, user),
{
}

/// Whether `shown` has every part of `user` but the hash.
pub open spec fn shows_all_but_the_hash(shown: UserResponse, user: User) -> bool {
    &&& shown.id == user.id
    &&& shown.name@ == user.name@
    &&& shown.email@ == user.email@
    &&& shown.public_key == user.public_key
    &&& shown.default_ttl_seconds == user.default_ttl_seconds
}

/// What a user is shown of their account is every part but the hash.
pub proof fn accounts_are_shown_without_the_hash(user: User, shown: UserResponse)
    requires
        call_ensures(UserResponse::from_user, (user,), shown),
    ensures
        shows_all_but_the_hash(shown, user),
{
}

/// A public key is replaced for the user of the session that asks, by the key
/// that was sent.
pub proof fn keys_are_replaced_for_their_owner(
    state: &AppState,
    cookie: Option<&str>,
    payload: UpdatePublicKeyRequest,
    res: Result<KeyUpdate, StatusCode>,
    stored: Result<(), DatabaseFailure>,
    reply: Result<StatusReply, StatusCode>,
)
    requires
        call_ensures(update_public_key_handler, (state, cookie, payload), res),
        call_ensures(update_public_key_reply, (stored,), reply),
    ensures
        res is Ok <==> names_a_session(*state, cookie),
        res matches Ok(update) ==> update.user_id == state.sessions@[cookie->0@].user_id
            && update.public_key@ == payload.public_key@,
        res matches Err(status) ==> status == StatusCode::Unauthorized,
        reply is Ok <==> stored is Ok,
        reply matches Ok(body) ==> body.success && body.default_ttl_seconds is None && (
        body.message matches Some(message) && message@ == "Public key updated successfully"@),
        reply matches Err(status) ==> status == StatusCode::InternalServerError,
{
}

/// Public keys are listed one for one and in the order of the directory, with
/// gaps where a user has none.
pub proof fn public_keys_are_listed_one_for_one(
    entries: Vec<DirectoryEntry>,
    keys: Vec<PublicKeyInfo>,
    reply: Result<Vec<PublicKeyInfo>, StatusCode>,
    i: int,
)
    requires
        call_ensures(get_public_keys, (entries,), keys),
        call_ensures(
            get_public_keys_reply,
            (Ok::<Vec<DirectoryEntry>, DatabaseFailure>(entries),),
            reply,
        ),
        0 <= i < entries@.len(),
    ensures
        keys@.len() == entries@.len(),
        keys@[i].user_id == entries@[i].id,
        keys@[i].username@ == entries@[i].name@,
        keys@[i].public_key == entries@[i].public_key,
        reply matches Ok(same) && same@ == keys@,
{
}

/// Only someone with a session may ask for public keys, and is told when the
/// directory could not be read.
pub proof fn public_keys_need_a_session(
    state: &AppState,
    cookie: Option<&str>,
    res: Result<(), StatusCode>,
    reply: Result<Vec<PublicKeyInfo>, StatusCode>,
    none: Result<Vec<PublicKeyInfo>, StatusCode>,
    nobody: Vec<DirectoryEntry>,
)
    requires
        call_ensures(get_public_keys_handler, (state, cookie), res),
        call_ensures(
            get_public_keys_reply,
            (Err::<Vec<DirectoryEntry>, DatabaseFailure>(DatabaseFailure),),
            reply,
        ),
        nobody@.len() == 0,
        call_ensures(
            get_public_keys_reply,
            (Ok::<Vec<DirectoryEntry>, DatabaseFailure>(nobody),),
            none,
        ),
    ensures
        res is Ok <==> names_a_session(*state, cookie),
        res matches Err(status) ==> status == StatusCode::Unauthorized,
        reply == Err::<Vec<PublicKeyInfo>, StatusCode>(StatusCode::InternalServerError),
        none matches Ok(keys) && keys@.len() == 0,
{
}

/// The directory lists every user, one for one and in its order, with their id,
/// name and public key.
pub proof fn users_are_listed_one_for_one(
    entries: Vec<DirectoryEntry>,
    res: Result<Vec<UserSummary>, StatusCode>,
    failed: Result<Vec<UserSummary>, StatusCode>,
)
    requires
        call_ensures(
            list_users_handler,
            (Ok::<Vec<DirectoryEntry>, DatabaseFailure>(entries),),
            res,
        ),
        call_ensures(
            list_users_handler,
            (Err::<Vec<DirectoryEntry>, DatabaseFailure>(DatabaseFailure),),
            failed,
        ),
    ensures
        res is Ok,
        res->Ok_0@.len() == entries@.len(),
        forall|i: int|
            0 <= i < entries@.len() ==> (#[trigger] res->Ok_0@[i]).id == entries@[i].id
                && res->Ok_0@[i].name@ == entries@[i].name@ && res->Ok_0@[i].public_key
                == entries@[i].public_key,
        failed == Err::<Vec<UserSummary>, StatusCode>(StatusCode::InternalServerError),
{
}

/// Settings are those of the session's user; a lifetime that was never chosen is
/// shown as a day.
pub proof fn settings_are_those_of_the_session(
    state: &AppState,
    cookie: Option<&str>,
    res: Result<u128, StatusCode>,
    loaded: Result<Option<i32>, DatabaseFailure>,
    reply: Result<SettingsResponse, StatusCode>,
)
    requires
        call_ensures(get_settings_handler, (state, cookie), res),
        call_ensures(get_settings_reply, (loaded,), reply),
    ensures
        res is Ok <==> names_a_session(*state, cookie),
        res matches Ok(user) ==> user == state.sessions@[cookie->0@].user_id,
        res matches Err(status) ==> status == StatusCode::Unauthorized,
        loaded matches Ok(Some(ttl)) ==> reply == Ok::<SettingsResponse, StatusCode>(
            SettingsResponse { default_ttl_seconds: ttl },
        ),
        loaded == Ok::<Option<i32>, DatabaseFailure>(None) ==> reply is Ok
            && reply->Ok_0.default_ttl_seconds == 24 * 60 * 60,
        loaded is Err ==> reply == Err::<SettingsResponse, StatusCode>(
            StatusCode::InternalServerError,
        ),
{
}

/// A lifetime is set for the user of the session that asks: the one wished for,
/// but never less than a minute. The answer names the one that was set.
pub proof fn lifetimes_are_set_as_wished_from_a_minute_on(
    state: &AppState,
    cookie: Option<&str>,
    payload: UpdateSettingsRequest,
    res: Result<SettingsUpdate, StatusCode>,
    update: SettingsUpdate,
    stored: Result<(), DatabaseFailure>,
    reply: Result<StatusReply, StatusCode>,
)
    requires
        call_ensures(update_settings_handler, (state, cookie, payload), res),
        call_ensures(update_settings_reply, (update, stored), reply),
    ensures
        res is Ok <==> names_a_session(*state, cookie),
        res matches Ok(set) ==> {
            &&& set.user_id == state.sessions@[cookie->0@].user_id
            &&& set.default_ttl_seconds >= 60
            &&& set.default_ttl_seconds >= payload.default_ttl_seconds
            &&& set.default_ttl_seconds == 60 || set.default_ttl_seconds
                == payload.default_ttl_seconds
        },
        res matches Err(status) ==> status == StatusCode::Unauthorized,
        reply is Ok <==> stored is Ok,
        reply matches Ok(body) ==> body.success && body.message is None
            && body.default_ttl_seconds == Some(update.default_ttl_seconds),
        reply matches Err(status) ==> status == StatusCode::InternalServerError,
{
}

/// Whether `status` and `body` refuse a registration.
pub open spec fn is_registration_refusal(status: StatusCode, body: AuthResponse) -> bool {
    &&& status == StatusCode::BadRequest
    &&& !body.success
    &&& body.message@ == "Registration failed. Email may already be in use."@
    &&& body.user is None
    &&& body.requires_2fa is None
    &&& body.temp_session_id is None
}

/// A new user has the id, name, address and key that were asked for, and as hash
/// what Argon2 makes of the password and the salt; where it makes nothing of
/// them there is no user.
pub proof fn new_users_are_as_asked_for(
    id: u128,
    salt: &str,
    name: String,
    email: String,
    password: &str,
    public_key: Option<String>,
    res: Result<NewUser, AuthError>,
)
    requires
        call_ensures(register_user_with, (id, salt, name, email, password, public_key), res),
    ensures
        res is Ok <==> argon2_hash(password@, salt@) is Some,
        res matches Ok(user) ==> {
            &&& user.id == id
            &&& user.name@ == name@
            &&& user.email@ == email@
            &&& user.public_key == public_key
            &&& argon2_hash(password@, salt@) == Some(user.password_hash@)
            &&& is_salt(salt@) ==> argon2_accepts(password@, user.password_hash@)
        },
        res matches Err(e) ==> e == AuthError::HashError,
{
}

/// Whether `user` was made of what was asked for, with a fresh id and a hash to
/// which the password belongs.
pub open spec fn is_as_asked_for(
    user: NewUser,
    name: Seq<char>,
    email: Seq<char>,
    password: Seq<char>,
    public_key: Option<String>,
) -> bool {
    &&& is_random_uuid(user.id)
    &&& user.name@ == name
    &&& user.email@ == email
    &&& user.public_key == public_key
    &&& is_phc_string(user.password_hash@)
    &&& lanes_fit(user.password_hash@)
    &&& argon2_accepts(password, user.password_hash@)
    &&& exists|salt: Seq<char>|
        is_salt(salt) && #[trigger] argon2_hash(password, salt) == Some(user.password_hash@)
}

/// Whoever registers with a password that is not too long is put into the
/// database as they asked, so that the password lets them in afterwards.
pub proof fn registered_users_can_log_in(
    name: String,
    email: String,
    password: &str,
    public_key: Option<String>,
    res: Result<NewUser, AuthError>,
    payload: RegisterRequest,
    step: RegisterStep,
)
    requires
        call_ensures(register_user, (name, email, password, public_key), res),
        call_ensures(register_handler, (payload,), step),
    ensures
        res is Ok <==> fits_argon2(password@),
        res matches Ok(user) ==> is_as_asked_for(user, name@, email@, password@, public_key),
        res matches Err(e) ==> e == AuthError::HashError,
        step is Insert <==> fits_argon2(payload.password@),
        step matches RegisterStep::Insert(user) ==> is_as_asked_for(
            user,
            payload.name@,
            payload.email@,
            payload.password@,
            payload.public_key,
        ),
        step matches RegisterStep::Refused(status, body) ==> is_registration_refusal(status, body),
{
}

/// A registration that was stored is answered with the account as the database
/// holds it, without the hash; one that was not is refused.
pub proof fn registrations_are_answered_with_the_account(
    stored: Result<RegisteredUser, DatabaseFailure>,
    res: Result<(StatusCode, AuthResponse), (StatusCode, AuthResponse)>,
)
    requires
        call_ensures(register_reply, (stored,), res),
    ensures
        stored matches Ok(row) ==> {
            &&& res matches Ok((status, body))
            &&& status == StatusCode::Created
            &&& body.success
            &&& body.message@ == "User registered successfully"@
            &&& body.requires_2fa is None
            &&& body.temp_session_id is None
            &&& body.user matches Some(shown)
            &&& shown.id == row.id
            &&& shown.name@ == row.name@
            &&& shown.email@ == row.email@
            &&& shown.public_key == row.public_key
            &&& shown.default_ttl_seconds == Some(row.default_ttl_seconds)
        },
        stored is Err ==> {
            &&& res matches Err((status, body))
            &&& is_registration_refusal(status, body)
        },
{
}

/// A user comes back from the database as they were put in.
pub proof fn stored_users_keep_their_parts(row: RegisteredUser, user: User)
    requires
        call_ensures(RegisteredUser::into_user, (row,), user),
    ensures
        user.id == row.id,
        user.name@ == row.name@,
        user.email@ == row.email@,
        user.password_hash@ == row.password_hash@,
        user.public_key == row.public_key,
        user.default_ttl_seconds == Some(row.default_ttl_seconds),
{
}

/// Whether `link` leads to the page for a new password under `url`, with a token
/// and without doubled slashes.
pub open spec fn leads_to_reset(link: Seq<char>, url: Seq<char>, token: Seq<char>) -> bool {
    exists|base: Seq<char>, slashes: Seq<char>|
        {
            &&& url == #[trigger] (base + slashes)
            &&& forall|i: int| 0 <= i < slashes.len() ==> #[trigger] slashes[i] == '/'
            &&& base.len() > 0 ==> base.last() != '/'
            &&& link == base + "/reset?token="@ + token
        }
}

proof fn trimming_splits_off_slashes(text: Seq<char>) -> (slashes: Seq<char>)
    ensures
        text == crate::text::without_trailing_slashes(text) + slashes,
        forall|i: int| 0 <= i < slashes.len() ==> #[trigger] slashes[i] == '/',
        crate::text::without_trailing_slashes(text).len() > 0
            ==> crate::text::without_trailing_slashes(text).last() != '/',
    decreases text.len(),
{
    if text.len() > 0 && text.last() == '/' {
        let rest = trimming_splits_off_slashes(text.drop_last());
        let base = crate::text::without_trailing_slashes(text);
        assert(text =~= text.drop_last().push('/'));
        assert(text =~= base + rest.push('/'));
        rest.push('/')
    } else {
        assert(text =~= text + Seq::<char>::empty());
        Seq::empty()
    }
}

/// Whether `step` sends `account` the token `token_id`, good for half an hour
/// from `now`, and answers with success.
pub open spec fn sends_a_token(
    step: ForgotStep,
    account: ResetAccount,
    email: Seq<char>,
    frontend_url: Option<String>,
    token_id: u128,
    now: Timestamp,
) -> bool {
    &&& step matches ForgotStep::Issue { token, to_email, to_name, link, reply }
    &&& token.token@ == uuid_text(token_id)
    &&& token.user_id == account.id
    &&& token.expires_at.secs == now.secs + 30 * 60
    &&& now.nanos < 1000000000 ==> token.expires_at.nanos == now.nanos
    &&& now.nanos >= 1000000000 ==> token.expires_at.nanos == now.nanos - 1000000000
    &&& to_email@ == email
    &&& to_name@ == account.name@
    &&& frontend_url matches Some(url) ==> leads_to_reset(link@, url@, uuid_text(token_id))
    &&& frontend_url is None ==> leads_to_reset(
        link@,
        "http://localhost:4200"@,
        uuid_text(token_id),
    )
    &&& reply.success
    &&& reply.message is None
    &&& reply.default_ttl_seconds is None
}

/// Whether `step` is what a forgotten password leads to.
pub open spec fn handles_a_forgotten_password(
    step: ForgotStep,
    lookup: Result<Option<ResetAccount>, DatabaseFailure>,
    email: Seq<char>,
    frontend_url: Option<String>,
    token_id: u128,
    now: Timestamp,
) -> bool {
    &&& lookup is Err ==> (step matches ForgotStep::Refused(status, reply) && status
        == StatusCode::InternalServerError && !reply.success && reply.message is None
        && reply.default_ttl_seconds is None)
    &&& lookup == Ok::<Option<ResetAccount>, DatabaseFailure>(None) ==> (
    step matches ForgotStep::Answer(reply) && reply.success && reply.message is None
        && reply.default_ttl_seconds is None)
    &&& lookup matches Ok(Some(account)) ==> {
        &&& now.secs + 1800 <= 8210266876799 ==> sends_a_token(
            step,
            account,
            email,
            frontend_url,
            token_id,
            now,
        )
        &&& now.secs + 1800 > 8210266876799 ==> step is ClockOutOfRange
    }
}

proof fn forgotten_password_is_handled(
    step: ForgotStep,
    lookup: Result<Option<ResetAccount>, DatabaseFailure>,
    email: String,
    frontend_url: Option<String>,
    token_id: u128,
    now: Timestamp,
)
    requires
        now.wf(),
        crate::auth::reset::is_forgot_step(
            step,
            lookup,
            email,
            crate::reply::opt_text(frontend_url),
            token_id,
            now,
        ),
    ensures
        handles_a_forgotten_password(step, lookup, email@, frontend_url, token_id, now),
{
    let url = match frontend_url {
        Some(url) => url@,
        None => "http://localhost:4200"@,
    };
    let slashes = trimming_splits_off_slashes(url);
    assert(url == crate::text::without_trailing_slashes(url) + slashes);
    if step is Issue {
        assert(leads_to_reset(step->link@, url, uuid_text(token_id)));
    }
}

/// A known address is sent a token for its account; an unknown one is answered
/// alike and sent nothing; where the database fails, the request fails.
pub proof fn forgotten_passwords_are_handled(
    payload: ForgotPasswordRequest,
    lookup: Result<Option<ResetAccount>, DatabaseFailure>,
    frontend_url: Option<String>,
    token_id: u128,
    now: Timestamp,
    step: ForgotStep,
    step_now: ForgotStep,
)
    requires
        now.wf(),
        call_ensures(forgot_password_at, (payload, lookup, frontend_url, token_id, now), step),
        call_ensures(forgot_password_handler, (payload, lookup, frontend_url), step_now),
    ensures
        handles_a_forgotten_password(step, lookup, payload.email@, frontend_url, token_id, now),
        exists|id: u128, then: Timestamp|
            {
                &&& #[trigger] is_random_uuid(id)
                &&& #[trigger] then.is_reading()
                &&& handles_a_forgotten_password(
                    step_now,
                    lookup,
                    payload.email@,
                    frontend_url,
                    id,
                    then,
                )
            },
{
    forgotten_password_is_handled(step, lookup, payload.email, frontend_url, token_id, now);
    let (id, then) = choose|id: u128, then: Timestamp|
        {
            &&& #[trigger] is_random_uuid(id)
            &&& #[trigger] then.is_reading()
            &&& crate::auth::reset::is_forgot_step(
                step_now,
                lookup,
                payload.email,
                crate::reply::opt_text(frontend_url),
                id,
                then,
            )
        };
    forgotten_password_is_handled(step_now, lookup, payload.email, frontend_url, id, then);
    assert(is_random_uuid(id) && then.is_reading());
}

/// Whether `reply` says no more than that something failed, perhaps with a
/// message.
pub open spec fn is_failure(reply: StatusReply, message: Option<Seq<char>>) -> bool {
    &&& !reply.success
    &&& reply.default_ttl_seconds is None
    &&& message is None ==> reply.message is None
    &&& message matches Some(words) ==> (reply.message matches Some(text) && text@ == words)
}

/// A token is good for its own account just if it is known, was not used before
/// and has not run out.
pub proof fn tokens_are_checked(
    record: Result<Option<ResetTokenRecord>, DatabaseFailure>,
    now: &Timestamp,
    res: Result<u128, (StatusCode, StatusReply)>,
)
    requires
        call_ensures(check_token, (record, now), res),
    ensures
        res matches Ok(user) ==> (record matches Ok(Some(found)) && found.user_id == user
            && !found.used && !is_earlier(found.expires_at, *now)),
        record matches Ok(Some(found)) ==> {
            &&& !found.used && !is_earlier(found.expires_at, *now) ==> res is Ok
            &&& found.used || is_earlier(found.expires_at, *now) ==> (res matches Err(
                (status, reply),
            ) && status == StatusCode::BadRequest && is_failure(reply, Some("Token expired"@)))
        },
        record == Ok::<Option<ResetTokenRecord>, DatabaseFailure>(None) ==> (res matches Err(
            (status, reply),
        ) && status == StatusCode::BadRequest && is_failure(reply, Some("Invalid token"@))),
        record is Err ==> (res matches Err((status, reply)) && status
            == StatusCode::InternalServerError && is_failure(reply, None)),
{
}

/// Whether a token lets its bearer set a password at `now`.
pub open spec fn is_good_token(
    record: Result<Option<ResetTokenRecord>, DatabaseFailure>,
    now: Timestamp,
) -> bool {
    record matches Ok(Some(found)) && !found.used && !is_earlier(found.expires_at, now)
}

/// Whether `step` refuses a new password as the token deserves.
pub open spec fn refuses_the_token(
    step: ResetStep,
    record: Result<Option<ResetTokenRecord>, DatabaseFailure>,
) -> bool {
    &&& step matches ResetStep::Refused(status, reply)
    &&& record is Err ==> status == StatusCode::InternalServerError && is_failure(reply, None)
    &&& record == Ok::<Option<ResetTokenRecord>, DatabaseFailure>(None) ==> status
        == StatusCode::BadRequest && is_failure(reply, Some("Invalid token"@))
    &&& record matches Ok(Some(_)) ==> status == StatusCode::BadRequest && is_failure(
        reply,
        Some("Token expired"@),
    )
}

/// A good token stores what Argon2 makes of the new password for the token's own
/// account, and uses the token up; any other token stores nothing.
pub proof fn passwords_are_set_with_good_tokens_only(
    payload: ResetPasswordRequest,
    record: Result<Option<ResetTokenRecord>, DatabaseFailure>,
    now: &Timestamp,
    salt: &str,
    step: ResetStep,
)
    requires
        call_ensures(reset_password_with, (payload, record, now, salt), step),
    ensures
        !is_good_token(record, *now) ==> refuses_the_token(step, record),
        is_good_token(record, *now) ==> {
            &&& step is Store <==> argon2_hash(payload.new_password@, salt@) is Some
            &&& step matches ResetStep::Store { user_id, password_hash, token } ==> {
                &&& user_id == record->Ok_0->0.user_id
                &&& Some(password_hash@) == argon2_hash(payload.new_password@, salt@)
                &&& token@ == payload.token@
                &&& is_salt(salt@) ==> is_phc_string(password_hash@) && lanes_fit(password_hash@)
                    && argon2_accepts(payload.new_password@, password_hash@)
            }
            &&& step matches ResetStep::Refused(status, reply) ==> status
                == StatusCode::InternalServerError && is_failure(reply, None)
        },
{
}

/// The same of a new password now: with a good token and a password that is not
/// too long, it is stored, and lets its user in afterwards.
pub proof fn passwords_set_now_let_their_user_in(
    payload: ResetPasswordRequest,
    record: Result<Option<ResetTokenRecord>, DatabaseFailure>,
    step: ResetStep,
    stored: Result<(), DatabaseFailure>,
    reply: Result<StatusReply, (StatusCode, StatusReply)>,
)
    requires
        call_ensures(reset_password_handler, (payload, record), step),
        call_ensures(reset_reply, (stored,), reply),
    ensures
        exists|now: Timestamp| #[trigger]
            now.is_reading() && {
                &&& !is_good_token(record, now) ==> refuses_the_token(step, record)
                &&& is_good_token(record, now) ==> {
                    &&& step is Store <==> fits_argon2(payload.new_password@)
                    &&& step matches ResetStep::Refused(status, reply) ==> status
                        == StatusCode::InternalServerError && is_failure(reply, None)
                }
            },
        step matches ResetStep::Store { user_id, password_hash, token } ==> {
            &&& record matches Ok(Some(found)) && user_id == found.user_id && !found.used
            &&& token@ == payload.token@
            &&& is_phc_string(password_hash@)
            &&& lanes_fit(password_hash@)
            &&& argon2_accepts(payload.new_password@, password_hash@)
        },
        reply is Ok <==> stored is Ok,
        reply matches Ok(body) ==> body.success && body.message is None
            && body.default_ttl_seconds is None,
        reply matches Err((status, body)) ==> status == StatusCode::InternalServerError
            && is_failure(body, None),
{
    let now = choose|now: Timestamp| #[trigger]
        now.is_reading() && match crate::auth::reset::token_fault(record, now) {
            Some(fault) => crate::auth::reset::refuses_reset(step, fault),
            None => {
                &&& step is Store <==> fits_argon2(payload.new_password@)
                &&& match step {
                    ResetStep::Store { user_id, password_hash, token } => {
                        &&& record matches Ok(Some(found)) && user_id == found.user_id
                        &&& crate::password::is_hash_of(payload.new_password@, password_hash@)
                        &&& token == payload.token
                    },
                    ResetStep::Refused(..) => crate::auth::reset::refuses_reset(
                        step,
                        (StatusCode::InternalServerError, None),
                    ),
                }
            },
        };
    assert(now.is_reading());
}

/// Each error is put in words of its own.
pub proof fn errors_are_put_in_words(error: &AuthError, text: String)
    requires
        call_ensures(AuthError::text, (error,), text),
    ensures
        error is InvalidCredentials ==> text@ == "Invalid email or password"@,
        error is DatabaseError ==> text@ == "Database error occurred"@,
        error is HashError ==> text@ == "Password hash error"@,
{
}

} // verus!
