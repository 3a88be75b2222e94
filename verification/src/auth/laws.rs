//! What holds of logins and sessions as a whole.

use vstd::prelude::*;

use crate::auth::login::{authentication, lookup_check};
use crate::auth::two_fa::{
    answers_otp, OtpEntry, OtpVerdict, TwoFaResponse, MAX_ATTEMPTS, OTP_LIFETIME_SECS,
};
use crate::auth::{AuthError, User};
use crate::clock::Timestamp;
use crate::cookie::SessionCookie;
use crate::password::is_hash_of;
use crate::reply::{DatabaseFailure, StatusCode};
use crate::room::socket::Session;
use crate::state::AppStateView;

verus! {

/// A user whose stored hash was made of a password, when they registered or when
/// they set a new one, logs in with that password.
pub proof fn own_password_logs_in(user: User, password: Seq<char>)
    requires
        is_hash_of(password, user.password_hash@),
    ensures
        authentication(Ok(Some(user)), lookup_check(Ok(Some(user)), password)) == Ok::<
            User,
            AuthError,
        >(user),
{
}

/// Nobody logs in without a user in the database, and nobody logs in as a user
/// other than the one that the database holds.
pub proof fn nobody_logs_in_unknown(
    lookup: Result<Option<User>, DatabaseFailure>,
    check: Result<(), AuthError>,
)
    ensures
        authentication(lookup, check) matches Ok(user) ==> lookup == Ok::<
            Option<User>,
            DatabaseFailure,
        >(Some(user)) && check is Ok,
{
}

/// Whoever types the mailed code before it runs out gets a session of their
/// own: its id leads to them, and the code and the waiting login are gone.
pub proof fn mailed_code_opens_a_session(
    before: AppStateView,
    user: User,
    code: String,
    mailed_at: Timestamp,
    temp_id: Seq<char>,
    waits_from: Timestamp,
    typed_at: Timestamp,
    session_id: Seq<char>,
    created_at: Timestamp,
)
    requires
        !mailed_at.plus(OTP_LIFETIME_SECS as int).before(typed_at),
    ensures
        ({
            let mailed = before.with_code(user.id, OtpEntry::fresh(code, mailed_at));
            let waiting = mailed.with_waiting_login(temp_id, user, waits_from);
            let after = waiting.after_otp(temp_id, code@, typed_at, session_id, created_at);
            &&& waiting.otp_verdict(temp_id, code@, typed_at) is Accepted
            &&& after.authorized(Some(session_id)) == Ok::<Session, StatusCode>(
                Session { user_id: user.id, username: user.name, created_at },
            )
            &&& !after.otp_store.contains_key(user.id)
            &&& !after.temp_sessions.contains_key(temp_id)
        }),
{
}

/// The cookie that answers an accepted login leads to the session of the user
/// who logged in.
pub proof fn cookie_of_a_login_lets_in(
    res: Result<(SessionCookie, TwoFaResponse), (StatusCode, TwoFaResponse)>,
    state: AppStateView,
    temp_id: Seq<char>,
    typed: Seq<char>,
    now: Timestamp,
    session_id: Seq<char>,
    created_at: Timestamp,
)
    requires
        answers_otp(res, state, temp_id, typed, now, session_id),
        res is Ok,
    ensures
        state.after_otp(temp_id, typed, now, session_id, created_at).authorized(
            Some(res->Ok_0.0.value@),
        ) == Ok::<Session, StatusCode>(Session { created_at, ..state.temp_sessions[temp_id] }),
{
}

/// A code that is typed more than its lifetime after it was mailed is never
/// accepted.
pub proof fn late_code_is_refused(
    before: AppStateView,
    user: User,
    code: String,
    mailed_at: Timestamp,
    temp_id: Seq<char>,
    waits_from: Timestamp,
    typed: Seq<char>,
    typed_at: Timestamp,
)
    requires
        mailed_at.plus(OTP_LIFETIME_SECS as int).before(typed_at),
    ensures
        before.with_code(user.id, OtpEntry::fresh(code, mailed_at)).with_waiting_login(
            temp_id,
            user,
            waits_from,
        ).otp_verdict(temp_id, typed, typed_at) is Expired,
{
}

/// A session comes only of a login that waits, whose user has a code that has
/// neither run out nor been locked, and only of that code.
pub proof fn only_the_right_code_opens_a_session(
    state: AppStateView,
    temp_id: Seq<char>,
    typed: Seq<char>,
    now: Timestamp,
    session_id: Seq<char>,
    created_at: Timestamp,
)
    requires
        state.after_otp(temp_id, typed, now, session_id, created_at).sessions != state.sessions,
    ensures
        state.temp_sessions.contains_key(temp_id),
        ({
            let user = state.temp_sessions[temp_id].user_id;
            let entry = state.otp_store[user];
            &&& state.otp_store.contains_key(user)
            &&& !entry.expired_at(now)
            &&& entry.attempts < MAX_ATTEMPTS
            &&& entry.code@ == typed
        }),
{
}

/// A code that was accepted is used up: whatever is typed next for the same
/// login is answered as if the login had never waited.
pub proof fn code_works_once(
    state: AppStateView,
    temp_id: Seq<char>,
    typed: Seq<char>,
    now: Timestamp,
    session_id: Seq<char>,
    created_at: Timestamp,
    again: Seq<char>,
    later: Timestamp,
)
    requires
        state.otp_verdict(temp_id, typed, now) is Accepted,
    ensures
        state.after_otp(temp_id, typed, now, session_id, created_at).otp_verdict(
            temp_id,
            again,
            later,
        ) is NoSession,
{
}

/// Mailing a code touches nobody else: sessions, open sockets, codes of other
/// users and other logins that wait stay as they are.
pub proof fn mailing_a_code_touches_nobody_else(
    state: AppStateView,
    user: User,
    entry: OtpEntry,
    temp_id: Seq<char>,
    now: Timestamp,
)
    ensures
        ({
            let after = state.with_code(user.id, entry).with_waiting_login(temp_id, user, now);
            &&& after.connections == state.connections
            &&& after.sessions == state.sessions
            &&& after.otp_store.remove(user.id) == state.otp_store.remove(user.id)
            &&& after.temp_sessions.remove(temp_id) == state.temp_sessions.remove(temp_id)
        }),
{
    let after = state.with_code(user.id, entry).with_waiting_login(temp_id, user, now);
    assert(after.otp_store.remove(user.id) =~= state.otp_store.remove(user.id));
    assert(after.temp_sessions.remove(temp_id) =~= state.temp_sessions.remove(temp_id));
}

/// Typing a code touches nobody else: codes of other users, other logins that
/// wait, other sessions and the open sockets stay as they are.
pub proof fn typing_a_code_touches_nobody_else(
    state: AppStateView,
    temp_id: Seq<char>,
    typed: Seq<char>,
    now: Timestamp,
    session_id: Seq<char>,
    created_at: Timestamp,
)
    ensures
        ({
            let after = state.after_otp(temp_id, typed, now, session_id, created_at);
            let user = state.waiting_user(temp_id);
            &&& after.connections == state.connections
            &&& after.otp_store.remove(user) == state.otp_store.remove(user)
            &&& after.temp_sessions.remove(temp_id) == state.temp_sessions.remove(temp_id)
            &&& after.sessions.remove(session_id) == state.sessions.remove(session_id)
        }),
{
    let after = state.after_otp(temp_id, typed, now, session_id, created_at);
    let user = state.waiting_user(temp_id);
    assert(after.otp_store.remove(user) =~= state.otp_store.remove(user));
    assert(after.temp_sessions.remove(temp_id) =~= state.temp_sessions.remove(temp_id));
    assert(after.sessions.remove(session_id) =~= state.sessions.remove(session_id));
}

/// A code that is refused opens no session and ends no waiting login.
pub proof fn refused_code_opens_nothing(
    state: AppStateView,
    temp_id: Seq<char>,
    typed: Seq<char>,
    now: Timestamp,
    session_id: Seq<char>,
    created_at: Timestamp,
)
    requires
        !(state.otp_verdict(temp_id, typed, now) is Accepted),
    ensures
        state.after_otp(temp_id, typed, now, session_id, created_at).sessions == state.sessions,
        state.after_otp(temp_id, typed, now, session_id, created_at).temp_sessions
            == state.temp_sessions,
{
}

/// A new code replaces the old one: after it, no other code is accepted.
pub proof fn new_code_replaces_the_old(
    state: AppStateView,
    user: u128,
    code: String,
    mailed_at: Timestamp,
    temp_id: Seq<char>,
    typed: Seq<char>,
    now: Timestamp,
)
    requires
        state.waiting_user(temp_id) == user,
        typed != code@,
    ensures
        !(state.with_code(user, OtpEntry::fresh(code, mailed_at)).otp_verdict(
            temp_id,
            typed,
            now,
        ) is Accepted),
{
}

/// One try at a code: what was typed and when, and the session id and time of
/// creation that a session would get.
pub struct Guess {
    pub typed: Seq<char>,
    pub now: Timestamp,
    pub session_id: Seq<char>,
    pub created_at: Timestamp,
}

impl AppStateView {
    /// The state after one try for the login that waits under `temp_id`.
    pub open spec fn after_guess(self, temp_id: Seq<char>, guess: Guess) -> AppStateView {
        self.after_otp(temp_id, guess.typed, guess.now, guess.session_id, guess.created_at)
    }

    /// How many of a row of tries are judged wrong.
    pub open spec fn wrong_guesses(self, temp_id: Seq<char>, guesses: Seq<Guess>) -> nat
        decreases guesses.len(),
    {
        if guesses.len() == 0 {
            0
        } else {
            let first = guesses.first();
            let rest = self.after_guess(temp_id, first).wrong_guesses(
                temp_id,
                guesses.drop_first(),
            );
            if self.otp_verdict(temp_id, first.typed, first.now) is Wrong {
                rest + 1
            } else {
                rest
            }
        }
    }

    /// How many wrong codes are still allowed for the login that waits under
    /// `temp_id`.
    pub open spec fn guesses_left(self, temp_id: Seq<char>) -> nat {
        let user = self.waiting_user(temp_id);
        if self.temp_sessions.contains_key(temp_id) && self.otp_store.contains_key(user)
            && self.otp_store[user].attempts < MAX_ATTEMPTS {
            (MAX_ATTEMPTS - self.otp_store[user].attempts) as nat
        } else {
            0
        }
    }
}

/// However often and whenever codes are typed for a login, at most
/// `MAX_ATTEMPTS` of them are judged wrong before the entry is locked or gone.
pub proof fn guessing_is_bounded(state: AppStateView, temp_id: Seq<char>, guesses: Seq<Guess>)
    ensures
        state.wrong_guesses(temp_id, guesses) <= state.guesses_left(temp_id) <= MAX_ATTEMPTS,
    decreases guesses.len(),
{
    if guesses.len() > 0 {
        guessing_is_bounded(
            state.after_guess(temp_id, guesses.first()),
            temp_id,
            guesses.drop_first(),
        );
    }
}

/// Three wrong codes lock the login: from then on every code, the right one
/// included, is answered with too many requests until it runs out, and changes
/// nothing.
pub proof fn three_wrong_codes_lock(
    state: AppStateView,
    temp_id: Seq<char>,
    first: Guess,
    second: Guess,
    third: Guess,
    next: Guess,
)
    requires
        state.guesses_left(temp_id) == MAX_ATTEMPTS,
        ({
            let entry = state.otp_store[state.waiting_user(temp_id)];
            &&& first.typed != entry.code@ && !entry.expired_at(first.now)
            &&& second.typed != entry.code@ && !entry.expired_at(second.now)
            &&& third.typed != entry.code@ && !entry.expired_at(third.now)
            &&& !entry.expired_at(next.now)
        }),
    ensures
        ({
            let once = state.after_guess(temp_id, first);
            let twice = once.after_guess(temp_id, second);
            let thrice = twice.after_guess(temp_id, third);
            &&& state.otp_verdict(temp_id, first.typed, first.now) == (OtpVerdict::Wrong {
                remaining: 2,
            })
            &&& once.otp_verdict(temp_id, second.typed, second.now) == (OtpVerdict::Wrong {
                remaining: 1,
            })
            &&& twice.otp_verdict(temp_id, third.typed, third.now) == (OtpVerdict::Wrong {
                remaining: 0,
            })
            &&& thrice.otp_verdict(temp_id, next.typed, next.now) is Locked
            &&& OtpVerdict::Locked.status() == StatusCode::TooManyRequests
            &&& thrice.after_guess(temp_id, next) == thrice
        }),
{
}

/// Mailing a code, waiting for it, typing one and logging out all keep the
/// number of wrong codes on record within the limit.
pub proof fn attempts_stay_within_the_limit(
    state: AppStateView,
    user: User,
    code: String,
    temp_id: Seq<char>,
    guess: Guess,
    cookie: Option<Seq<char>>,
)
    requires
        state.inv(),
    ensures
        state.with_code(user.id, OtpEntry::fresh(code, guess.now)).inv(),
        state.with_waiting_login(temp_id, user, guess.now).inv(),
        state.after_guess(temp_id, guess).inv(),
        state.logged_out(cookie).inv(),
{
}

/// Logging out ends the session, leaves every other session alone, and done
/// twice does no more than done once.
pub proof fn logging_out_ends_the_session(state: AppStateView, id: Seq<char>, other: Seq<char>)
    ensures
        state.logged_out(Some(id)).authorized(Some(id)) == Err::<Session, StatusCode>(
            StatusCode::Unauthorized,
        ),
        other != id ==> state.logged_out(Some(id)).authorized(Some(other)) == state.authorized(
            Some(other),
        ),
        state.logged_out(Some(id)).logged_out(Some(id)) == state.logged_out(Some(id)),
        state.logged_out(None) == state,
{
    assert(state.logged_out(Some(id)).logged_out(Some(id)) =~= state.logged_out(Some(id)));
}

/// Without a cookie, or on a server that has just started, nobody is let in.
pub proof fn nobody_is_let_in_unknown(state: AppStateView, cookie: Option<Seq<char>>)
    ensures
        state.authorized(None) == Err::<Session, StatusCode>(StatusCode::Unauthorized),
        AppStateView::empty().authorized(cookie) == Err::<Session, StatusCode>(
            StatusCode::Unauthorized,
        ),
        cookie matches Some(id) && !state.sessions.contains_key(id) ==> state.authorized(cookie)
            == Err::<Session, StatusCode>(StatusCode::Unauthorized),
{
}

} // verus!
