//! The guard in front of every admin operation, and the way past it:
//! login, logout and the check of a request's session.

use vstd::prelude::*;
use crate::error::AppError;
use crate::models::{AdminLoginRequest, AppState};
use crate::session::{
    admitted, distinct_tokens, dropped, has_session, has_token_of_full_length, start_session,
    stored, NewAdminSession, SessionStore, TOKEN_LENGTH,
};
use crate::text::str_of;
use crate::time::{current_time, Timestamp, SESSION_LIFETIME_SECS};

verus! {

/// The failure of the `bcrypt` crate.
#[verifier::external_type_specification]
#[verifier::external_body]
pub struct ExBcryptError(bcrypt::BcryptError);

/// What `bcrypt::verify` finds for a password and a stored hash: whether
/// the password matches, or `None` where it reports an error, as it does
/// for a text that is no hash.
pub uninterp spec fn bcrypt_verdict(password: Seq<char>, hash: Seq<char>) -> Option<bool>;

/// Calls `bcrypt::verify`. The contract only names the outcome: it depends
/// on the password and the hash alone.
#[verifier::external_body]
fn bcrypt_verify(password: &str, hash: &str) -> (r: Result<bool, bcrypt::BcryptError>)
    ensures
        match r {
            Ok(matches) => bcrypt_verdict(password@, hash@) == Some(matches),
            Err(_) => bcrypt_verdict(password@, hash@) is None,
        },
{
    bcrypt::verify(password, hash)
}

/// The cookie that carries a session token.
#[derive(Debug, Clone, PartialEq, Eq)]
pub struct SessionCookie {
    pub name: String,
    pub value: String,
    pub http_only: bool,
    pub same_site_lax: bool,
    pub path: String,
    pub max_age_secs: i64,
}

/// What the answer to a login does to the client's cookie.
#[derive(Debug, Clone, PartialEq, Eq)]
pub enum CookieChange {
    /// The client gets this cookie.
    Issue(SessionCookie),
    /// The client's cookie is removed.
    Clear,
    /// The client's cookie stays as it is.
    Keep,
}

/// Whether an account with the given hash accepts the verdict of the
/// comparison: a hash must be configured, and the password must have been
/// found to match. A comparison that failed counts as a mismatch.
pub open spec fn accepts(hash: Seq<char>, verdict: Option<bool>) -> bool {
    hash.len() > 0 && verdict == Some(true)
}

/// Whether the password is the one that the hash was made of.
pub open spec fn password_accepted(password: Seq<char>, hash: Seq<char>) -> bool {
    accepts(hash, bcrypt_verdict(password, hash))
}

/// Decide on a login from the outcome of the comparison: without a
/// configured hash nobody gets in, and a failed comparison counts as a
/// mismatch.
pub fn verdict_accepted(hash: &str, verdict: Option<bool>) -> (r: bool)
    ensures
        r == accepts(hash@, verdict),
{
    if hash.is_empty() {
        return false;
    }
    match verdict {
        Some(matches) => matches,
        None => false,
    }
}

/// Whether the password is the admin's.
pub fn check_password(password: &str, hash: &str) -> (r: bool)
    ensures
        r == password_accepted(password@, hash@),
{
    if hash.is_empty() {
        return false;
    }
    let verdict = match bcrypt_verify(password, hash) {
        Ok(matches) => Some(matches),
        Err(_) => None,
    };
    verdict_accepted(hash, verdict)
}

/// Whether `c` is the cookie that carries `token`: named `admin_auth`,
/// hidden from scripts, same-site lax, for every path, for 24 hours.
pub open spec fn carries(c: SessionCookie, token: String) -> bool {
    &&& c.name@ == "admin_auth"@
    &&& c.value == token
    &&& c.http_only
    &&& c.same_site_lax
    &&& c.path@ == "/"@
    &&& c.max_age_secs == SESSION_LIFETIME_SECS
}

/// The cookie that carries `token`.
pub fn session_cookie(token: String) -> (c: SessionCookie)
    ensures
        carries(c, token),
{
    SessionCookie {
        name: "admin_auth".to_owned(),
        value: token,
        http_only: true,
        same_site_lax: true,
        path: "/".to_owned(),
        max_age_secs: SESSION_LIFETIME_SECS,
    }
}

/// What the answer to a login does to the client's cookie: a login that
/// succeeded sets the session's cookie, one that was refused removes
/// whatever cookie the client presented, and a failure of the store leaves
/// the cookie alone.
pub fn login_cookie(outcome: Result<SessionCookie, AppError>) -> (r: CookieChange)
    ensures
        match outcome {
            Ok(c) => r == CookieChange::Issue(c),
            Err(AppError::Unauthorized) => r == CookieChange::Clear,
            Err(_) => r == CookieChange::Keep,
        },
{
    match outcome {
        Ok(c) => CookieChange::Issue(c),
        Err(AppError::Unauthorized) => CookieChange::Clear,
        Err(_) => CookieChange::Keep,
    }
}

/// The guard's answer as a result: nothing for a request that is let through,
/// `Unauthorized` for any other.
pub fn require_admin(authenticated: bool) -> (r: Result<(), AppError>)
    ensures
        authenticated ==> r is Ok,
        !authenticated ==> r == Err::<(), AppError>(AppError::Unauthorized),
{
    if authenticated {
        Ok(())
    } else {
        Err(AppError::Unauthorized)
    }
}

impl SessionStore {
    /// Whether a request with the given cookie value is an admin's, at the
    /// time `now` and from the address `remote`. A request without the
    /// cookie never is.
    pub fn is_admin_authenticated_at(
        &self,
        cookie: Option<&str>,
        now: &Timestamp,
        remote: Option<&str>,
    ) -> (r: bool)
        requires
            distinct_tokens(self@),
        ensures
            r == (cookie matches Some(token) && admitted(self@, token@, *now, str_of(remote))),
    {
        match cookie {
            Some(token) => self.validate_at(token, now, remote),
            None => false,
        }
    }

    /// Whether a request with the given cookie value is an admin's, now and
    /// from the address `remote`: what
    /// [`SessionStore::is_admin_authenticated_at`] says at the time that the
    /// clock gives.
    pub fn is_admin_authenticated(&self, cookie: Option<&str>, remote: Option<&str>) -> (r: bool)
        requires
            distinct_tokens(self@),
        ensures
            cookie is None ==> !r,
            cookie is Some ==> (exists|now: Timestamp|
                now.of_clock() && r == #[trigger] admitted(
                    self@,
                    cookie.unwrap()@,
                    now,
                    str_of(remote),
                )),
            r ==> cookie is Some && has_session(self@, cookie.unwrap()@),
    {
        let now = current_time();
        self.is_admin_authenticated_at(cookie, &now, remote)
    }

    /// The end of a login whose password was judged: where it was accepted,
    /// a session with the given token is stored and its cookie returned;
    /// where it was not, nothing changes and the login is refused.
    pub fn login_with(
        &mut self,
        accepted: bool,
        token: String,
        now: Timestamp,
        remote: Option<String>,
    ) -> (r: Result<SessionCookie, AppError>)
        requires
            distinct_tokens(old(self)@),
            now.secs + SESSION_LIFETIME_SECS <= i64::MAX,
        ensures
            distinct_tokens(final(self)@),
            !accepted ==> final(self)@ == old(self)@ && r == Err::<SessionCookie, AppError>(
                AppError::Unauthorized,
            ),
            accepted ==> final(self)@ == stored(
                old(self)@,
                NewAdminSession::issued(token, now, remote),
                now,
            ),
            accepted && has_session(old(self)@, token@) ==> (r matches Err(
                AppError::Database(_),
            )),
            accepted && !has_session(old(self)@, token@) ==> (r matches Ok(c) && carries(c, token)),
    {
        if !accepted {
            return Err(AppError::Unauthorized);
        }
        let shown = token.clone();
        let new = NewAdminSession::issue(token, now, remote);
        match self.insert(new, now) {
            Ok(()) => Ok(session_cookie(shown)),
            Err(e) => Err(e),
        }
    }

    /// Log an admin in: where the password is the admin's, a fresh session
    /// is stored and its cookie returned. Any other login is refused with
    /// `Unauthorized` and changes nothing; the caller then clears the
    /// client's cookie.
    pub fn admin_login(
        &mut self,
        state: &AppState,
        login: &AdminLoginRequest,
        remote: Option<String>,
    ) -> (r: Result<SessionCookie, AppError>)
        requires
            distinct_tokens(old(self)@),
        ensures
            distinct_tokens(final(self)@),
            !password_accepted(login.password@, state.admin_password_hash@) ==> final(self)@
                == old(self)@ && r == Err::<SessionCookie, AppError>(AppError::Unauthorized),
            password_accepted(login.password@, state.admin_password_hash@) ==> match r {
                Ok(c) => {
                    &&& carries(c, c.value)
                    &&& c.value@.len() == TOKEN_LENGTH
                    &&& !has_session(old(self)@, c.value@)
                    &&& has_session(final(self)@, c.value@)
                    &&& exists|now: Timestamp|
                        now.of_clock() && #[trigger] stored(
                            old(self)@,
                            NewAdminSession::issued(c.value, now, remote),
                            now,
                        ) == final(self)@
                },
                Err(e) => final(self)@ == old(self)@ && e is Database,
            },
            password_accepted(login.password@, state.admin_password_hash@) && r is Err
                ==> has_token_of_full_length(old(self)@),
    {
        if !check_password(login.password.as_str(), state.admin_password_hash.as_str()) {
            return Err(AppError::Unauthorized);
        }
        let (new, now) = start_session(remote);
        let r = self.login_with(true, new.session_token, now, new.ip_address);
        proof {
            if r is Ok {
                assert(self@[self@.len() - 1].session_token@ == new.session_token@);
            }
        }
        r
    }

    /// Log an admin out: the session that the cookie names is deleted.
    /// Returns whether there was a cookie, which the caller then clears.
    pub fn admin_logout(&mut self, cookie: Option<&str>) -> (cleared: bool)
        requires
            distinct_tokens(old(self)@),
        ensures
            distinct_tokens(final(self)@),
            cleared == cookie is Some,
            match cookie {
                Some(token) => final(self)@ == dropped(old(self)@, token@) && !has_session(
                    final(self)@,
                    token@,
                ),
                None => final(self)@ == old(self)@,
            },
    {
        match cookie {
            Some(token) => {
                self.invalidate(token);
                true
            },
            None => false,
        }
    }

    /// Answer the question whether the caller is logged in.
    pub fn admin_check(&self, cookie: Option<&str>, remote: Option<&str>) -> (r: bool)
        requires
            distinct_tokens(self@),
        ensures
            cookie is None ==> !r,
            cookie is Some ==> (exists|now: Timestamp|
                now.of_clock() && r == #[trigger] admitted(
                    self@,
                    cookie.unwrap()@,
                    now,
                    str_of(remote),
                )),
            r ==> cookie is Some && has_session(self@, cookie.unwrap()@),
    {
        let now = current_time();
        self.is_admin_authenticated_at(cookie, &now, remote)
    }
}

} // verus!
