//! New passwords for those who forgot the old one.

use vstd::prelude::*;

use crate::auth::{ForgotPasswordRequest, ResetPasswordRequest};
use crate::clock::{utc_now, Timestamp};
use crate::ids::{is_random_uuid, random_uuid, uuid_string, uuid_text};
use crate::password::{
    fits_argon2, hash_outcome, hash_with_salt, is_hash_of, is_salt, random_salt,
};
use crate::reply::{opt_text, DatabaseFailure, StatusCode, StatusReply};
use crate::text::{trim_trailing_slashes, without_trailing_slashes};

verus! {

/// How long a link to set a new password is valid.
pub const RESET_LIFETIME_SECS: i64 = 1800;

/// The account that the database holds under an address.
#[derive(Clone, Debug)]
pub struct ResetAccount {
    pub id: u128,
    pub name: String,
}

/// A reset token to be put into the database, not yet used.
#[derive(Clone, Debug)]
pub struct NewResetToken {
    pub token: String,
    pub user_id: u128,
    pub expires_at: Timestamp,
}

/// A reset token as the database keeps it.
#[derive(Clone, Copy, Debug)]
pub struct ResetTokenRecord {
    pub user_id: u128,
    pub expires_at: Timestamp,
    pub used: bool,
}

/// What to do about a forgotten password.
pub enum ForgotStep {
    /// Put `token` into the database, mail `link` to `to_name` at `to_email`,
    /// and answer `reply` whatever comes of either.
    Issue { token: NewResetToken, to_email: String, to_name: String, link: String, reply: StatusReply },
    /// There is no such account: answer as if there were.
    Answer(StatusReply),
    /// Refuse the request.
    Refused(StatusCode, StatusReply),
    /// The clock stands so late that a token would outlive the calendar.
    ClockOutOfRange,
}

/// What to do about a new password.
pub enum ResetStep {
    /// Give the user the new hash and mark the token as used, both or neither,
    /// and answer as `reset_reply` says.
    Store { user_id: u128, password_hash: String, token: String },
    /// Refuse the request.
    Refused(StatusCode, StatusReply),
}

/// The link under which a token can be used.
pub open spec fn reset_link(frontend: Option<Seq<char>>, token: Seq<char>) -> Seq<char> {
    let base = match frontend {
        Some(url) => url,
        None => "http://localhost:4200"@,
    };
    without_trailing_slashes(base) + "/reset?token="@ + token
}

/// Whether `step` sends `account`, who asked from the address `email`, the
/// token `token_id` at `now`.
pub open spec fn issues_token(
    step: ForgotStep,
    account: ResetAccount,
    email: String,
    frontend: Option<Seq<char>>,
    token_id: u128,
    now: Timestamp,
) -> bool {
    &&& step matches ForgotStep::Issue { token, to_email, to_name, link, reply }
    &&& token.token@ == uuid_text(token_id)
    &&& token.user_id == account.id
    &&& token.expires_at == now.plus(RESET_LIFETIME_SECS as int)
    &&& to_email == email
    &&& to_name == account.name
    &&& link@ == reset_link(frontend, uuid_text(token_id))
    &&& reply.has(true, None, None)
}

/// Why a token does not let its bearer set a password at `now`: the status and
/// the message of the refusal.
pub open spec fn token_fault(
    record: Result<Option<ResetTokenRecord>, DatabaseFailure>,
    now: Timestamp,
) -> Option<(StatusCode, Option<Seq<char>>)> {
    match record {
        Err(_) => Some((StatusCode::InternalServerError, None)),
        Ok(None) => Some((StatusCode::BadRequest, Some("Invalid token"@))),
        Ok(Some(record)) => if record.used || record.expires_at.before(now) {
            Some((StatusCode::BadRequest, Some("Token expired"@)))
        } else {
            None
        },
    }
}

/// Whether `step` refuses a request with the given status and message.
pub open spec fn refuses_reset(step: ResetStep, fault: (StatusCode, Option<Seq<char>>)) -> bool {
    &&& step matches ResetStep::Refused(status, reply)
    &&& status == fault.0
    &&& reply.has(false, fault.1, None)
}

/// Whether `step` is what to do about a forgotten password, asked for from the
/// address `email` at `now`, where `lookup` is what the database holds under
/// that address, and `token_id` is the token that would be sent.
pub open spec fn is_forgot_step(
    step: ForgotStep,
    lookup: Result<Option<ResetAccount>, DatabaseFailure>,
    email: String,
    frontend: Option<Seq<char>>,
    token_id: u128,
    now: Timestamp,
) -> bool {
    match lookup {
        Err(_) => {
            &&& step matches ForgotStep::Refused(status, reply)
            &&& status == StatusCode::InternalServerError
            &&& reply.has(false, None, None)
        },
        Ok(None) => step matches ForgotStep::Answer(reply) && reply.has(true, None, None),
        Ok(Some(account)) => if now.can_add(RESET_LIFETIME_SECS as int) {
            issues_token(step, account, email, frontend, token_id, now)
        } else {
            step is ClockOutOfRange
        },
    }
}

/// What to do about a forgotten password at `now`, where `lookup` is what the
/// database holds under the address in `payload`, `frontend_url` is where links
/// lead, and `token_id` is the token that would be sent.
pub fn forgot_password_at(
    payload: ForgotPasswordRequest,
    lookup: Result<Option<ResetAccount>, DatabaseFailure>,
    frontend_url: Option<String>,
    token_id: u128,
    now: Timestamp,
) -> (step: ForgotStep)
    requires
        now.wf(),
    ensures
        is_forgot_step(step, lookup, payload.email, opt_text(frontend_url), token_id, now),
{
    let account = match lookup {
        Err(_) => return ForgotStep::Refused(
            StatusCode::InternalServerError,
            StatusReply::plain(false),
        ),
        Ok(None) => return ForgotStep::Answer(StatusReply::plain(true)),
        Ok(Some(account)) => account,
    };
    if !now.can_add_seconds(RESET_LIFETIME_SECS) {
        return ForgotStep::ClockOutOfRange;
    }
    let token = uuid_string(token_id);
    let base = match frontend_url {
        Some(url) => url,
        None => "http://localhost:4200".to_owned(),
    };
    let link = trim_trailing_slashes(base.as_str()).concat("/reset?token=").concat(token.as_str());
    ForgotStep::Issue {
        token: NewResetToken {
            token,
            user_id: account.id,
            expires_at: now.add_seconds(RESET_LIFETIME_SECS),
        },
        to_email: payload.email,
        to_name: account.name,
        link,
        reply: StatusReply::plain(true),
    }
}

/// What to do about a forgotten password, where `lookup` is what the database
/// holds under the address in `payload`, and `frontend_url` is where links lead.
pub fn forgot_password_handler(
    payload: ForgotPasswordRequest,
    lookup: Result<Option<ResetAccount>, DatabaseFailure>,
    frontend_url: Option<String>,
) -> (step: ForgotStep)
    ensures
        exists|token_id: u128, now: Timestamp|
            {
                &&& #[trigger] is_random_uuid(token_id)
                &&& #[trigger] now.is_reading()
                &&& is_forgot_step(
                    step,
                    lookup,
                    payload.email,
                    opt_text(frontend_url),
                    token_id,
                    now,
                )
            },
{
    let token_id: u128 = random_uuid();
    let now = utc_now();
    forgot_password_at(payload, lookup, frontend_url, token_id, now)
}

/// The account that a token lets its bearer set a password for at `now`, or the
/// refusal.
pub fn check_token(
    record: Result<Option<ResetTokenRecord>, DatabaseFailure>,
    now: &Timestamp,
) -> (res: Result<u128, (StatusCode, StatusReply)>)
    ensures
        match token_fault(record, *now) {
            Some(fault) => res matches Err((status, reply)) && status == fault.0 && reply.has(
                false,
                fault.1,
                None,
            ),
            None => record matches Ok(Some(found)) && res == Ok::<u128, (StatusCode, StatusReply)>(
                found.user_id,
            ),
        },
{
    match record {
        Err(_) => Err((StatusCode::InternalServerError, StatusReply::plain(false))),
        Ok(None) => Err(
            (StatusCode::BadRequest, StatusReply::with_message(false, "Invalid token")),
        ),
        Ok(Some(record)) => {
            if record.used || record.expires_at.is_before(now) {
                Err((StatusCode::BadRequest, StatusReply::with_message(false, "Token expired")))
            } else {
                Ok(record.user_id)
            }
        },
    }
}

/// What to do about a new password at `now`, hashed with the given salt.
pub fn reset_password_with(
    payload: ResetPasswordRequest,
    record: Result<Option<ResetTokenRecord>, DatabaseFailure>,
    now: &Timestamp,
    salt: &str,
) -> (step: ResetStep)
    ensures
        match token_fault(record, *now) {
            Some(fault) => refuses_reset(step, fault),
            None => match hash_outcome(payload.new_password@, salt@) {
                Ok(hash) => {
                    &&& step matches ResetStep::Store { user_id, password_hash, token }
                    &&& record matches Ok(Some(found)) && user_id == found.user_id
                    &&& password_hash@ == hash
                    &&& token == payload.token
                },
                Err(_) => refuses_reset(step, (StatusCode::InternalServerError, None)),
            },
        },
        is_salt(salt@) && token_fault(record, *now) is None ==> (step is Store <==> fits_argon2(
            payload.new_password@,
        )),
        is_salt(salt@) ==> (step matches ResetStep::Store { password_hash, .. } ==> is_hash_of(
            payload.new_password@,
            password_hash@,
        )),
{
    match check_token(record, now) {
        Err((status, reply)) => ResetStep::Refused(status, reply),
        Ok(user_id) => match hash_with_salt(payload.new_password.as_str(), salt) {
            Ok(password_hash) => ResetStep::Store { user_id, password_hash, token: payload.token },
            Err(_) => ResetStep::Refused(
                StatusCode::InternalServerError,
                StatusReply::plain(false),
            ),
        },
    }
}

/// What to do about a new password, where `record` is what the database holds
/// under the token in `payload`.
pub fn reset_password_handler(
    payload: ResetPasswordRequest,
    record: Result<Option<ResetTokenRecord>, DatabaseFailure>,
) -> (step: ResetStep)
    ensures
        exists|now: Timestamp| #[trigger]
            now.is_reading() && match token_fault(record, now) {
                Some(fault) => refuses_reset(step, fault),
                None => {
                    &&& step is Store <==> fits_argon2(payload.new_password@)
                    &&& match step {
                        ResetStep::Store { user_id, password_hash, token } => {
                            &&& record matches Ok(Some(found)) && user_id == found.user_id
                            &&& is_hash_of(payload.new_password@, password_hash@)
                            &&& token == payload.token
                        },
                        ResetStep::Refused(..) => refuses_reset(
                            step,
                            (StatusCode::InternalServerError, None),
                        ),
                    }
                },
            },
{
    let now = utc_now();
    let salt = random_salt();
    reset_password_with(payload, record, &now, salt.as_str())
}

/// The answer to a new password, once the database has stored it or failed to.
pub fn reset_reply(stored: Result<(), DatabaseFailure>) -> (res: Result<
    StatusReply,
    (StatusCode, StatusReply),
>)
    ensures
        match stored {
            Ok(()) => res matches Ok(reply) && reply.has(true, None, None),
            Err(_) => res matches Err((status, reply)) && status == StatusCode::InternalServerError
                && reply.has(false, None, None),
        },
{
    match stored {
        Ok(()) => Ok(StatusReply::plain(true)),
        Err(_) => Err((StatusCode::InternalServerError, StatusReply::plain(false))),
    }
}

/// A token that was just issued is good for its lifetime and not an instant
/// longer, and only until it is used.
pub proof fn token_is_good_for_its_lifetime(user_id: u128, issued_at: Timestamp, now: Timestamp)
    ensures
        ({
            let expires_at = issued_at.plus(RESET_LIFETIME_SECS as int);
            let fresh = ResetTokenRecord { user_id, expires_at, used: false };
            let spent = ResetTokenRecord { user_id, expires_at, used: true };
            &&& token_fault(Ok(Some(fresh)), now) is None <==> !expires_at.before(now)
            &&& token_fault(Ok(Some(spent)), now) is Some
        }),
{
}

impl ForgotStep {
    /// What the client is answered. It is settled before a token is stored or a
    /// mail is sent, so neither makes a difference to it.
    pub open spec fn answer(self) -> Option<Result<StatusReply, (StatusCode, StatusReply)>> {
        match self {
            ForgotStep::Issue { reply, .. } => Some(Ok(reply)),
            ForgotStep::Answer(reply) => Some(Ok(reply)),
            ForgotStep::Refused(status, reply) => Some(Err((status, reply))),
            ForgotStep::ClockOutOfRange => None,
        }
    }
}

/// Whether an account exists cannot be told from the answer to a forgotten
/// password: as long as a token fits into the calendar, a known and an unknown
/// address are answered alike, with success. For the unknown one no token is
/// stored and no mail is sent.
pub proof fn forgetting_reveals_nothing(
    known: ForgotStep,
    unknown: ForgotStep,
    account: ResetAccount,
    known_email: String,
    unknown_email: String,
    frontend: Option<Seq<char>>,
    known_token: u128,
    unknown_token: u128,
    known_now: Timestamp,
    unknown_now: Timestamp,
)
    requires
        known_now.can_add(RESET_LIFETIME_SECS as int),
        is_forgot_step(known, Ok(Some(account)), known_email, frontend, known_token, known_now),
        is_forgot_step(unknown, Ok(None), unknown_email, frontend, unknown_token, unknown_now),
    ensures
        known.answer() == unknown.answer(),
        known.answer() matches Some(Ok(reply)) && reply.has(true, None, None),
        known is Issue,
        unknown is Answer,
{
}

/// A forgotten password is answered with a failure just if the database could
/// not be asked, and then with an internal server error.
pub proof fn forgetting_fails_with_the_database(
    step: ForgotStep,
    lookup: Result<Option<ResetAccount>, DatabaseFailure>,
    email: String,
    frontend: Option<Seq<char>>,
    token_id: u128,
    now: Timestamp,
)
    requires
        is_forgot_step(step, lookup, email, frontend, token_id, now),
    ensures
        step is Refused <==> lookup is Err,
        step.answer() matches Some(Err((status, reply))) ==> status
            == StatusCode::InternalServerError && reply.has(false, None, None),
{
}

/// Two tokens never share a link, and slashes at the end of the address that
/// links lead to make no difference.
pub proof fn links_tell_tokens_apart(frontend: Option<Seq<char>>, url: Seq<char>, a: u128, b: u128)
    ensures
        reset_link(frontend, uuid_text(a)) == reset_link(frontend, uuid_text(b)) ==> a == b,
        reset_link(Some(url.push('/')), uuid_text(a)) == reset_link(Some(url), uuid_text(a)),
{
    crate::text::trailing_slashes_do_not_matter(url);
    if reset_link(frontend, uuid_text(a)) == reset_link(frontend, uuid_text(b)) {
        let link = reset_link(frontend, uuid_text(a));
        let start = link.len() - 36;
        crate::ids::uuid_text_is_plain(a);
        crate::ids::uuid_text_is_plain(b);
        assert(link.subrange(start, link.len() as int) =~= uuid_text(a));
        assert(link.subrange(start, link.len() as int) =~= uuid_text(b));
        crate::ids::uuid_text_is_injective(a, b);
    }
}

} // verus!
