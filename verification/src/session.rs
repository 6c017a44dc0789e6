//! Admin sessions: how one is issued, when it is valid, and the table that
//! holds them. A session is valid while its row exists, its time has not
//! run out, and the request comes from the address it is bound to.

use vstd::prelude::*;
use crate::error::AppError;
use crate::text::{same_text, str_of, text_of};
use crate::time::{current_time, Timestamp, SESSION_LIFETIME_SECS};

verus! {

/// The length of a session token.
pub const TOKEN_LENGTH: usize = 36;

/// A row of the table of sessions.
#[derive(Debug, Clone, PartialEq, Eq)]
pub struct AdminSession {
    pub session_token: String,
    pub created_at: Option<Timestamp>,
    /// Absent for a session that does not end by time.
    pub expires_at: Option<Timestamp>,
    /// The address that the session is bound to, if it is bound to one.
    pub ip_address: Option<String>,
}

/// A session on its way into the table, which records the time of creation.
#[derive(Debug, Clone, PartialEq, Eq)]
pub struct NewAdminSession {
    pub session_token: String,
    pub expires_at: Option<Timestamp>,
    pub ip_address: Option<String>,
}

/// Calls `Uuid::new_v4` and writes the identifier with `to_string`. The
/// identifier is random, so the contract claims only what holds of each:
/// the hyphenated form is 36 characters long.
#[verifier::external_body]
fn fresh_token() -> (t: String)
    ensures
        t@.len() == TOKEN_LENGTH,
{
    uuid::Uuid::new_v4().to_string()
}

impl AdminSession {
    /// A session admits a request at the time `now` from the address
    /// `remote` when its time has not run out and, if it is bound to an
    /// address, the request comes from exactly that address.
    pub open spec fn admits(self, now: Timestamp, remote: Option<Seq<char>>) -> bool {
        &&& (self.expires_at matches Some(end) ==> !end.before(now))
        &&& (self.ip_address matches Some(ip) ==> remote == Some(ip@))
    }

    /// Whether the session admits a request at the time `now` from the
    /// address `remote`.
    pub fn is_valid(&self, now: &Timestamp, remote: Option<&str>) -> (r: bool)
        ensures
            r == self.admits(*now, str_of(remote)),
    {
        let in_time = match &self.expires_at {
            Some(end) => !end.is_before(now),
            None => true,
        };
        let from_there = match &self.ip_address {
            Some(ip) => match remote {
                Some(current) => same_text(ip.as_str(), current),
                None => false,
            },
            None => true,
        };
        in_time && from_there
    }
}

impl NewAdminSession {
    /// The session that is issued at the time `now` to a client at the
    /// address `remote`: it ends 24 hours later and is bound to the address
    /// if there is one.
    pub open spec fn issued(token: String, now: Timestamp, remote: Option<String>)
        -> NewAdminSession {
        NewAdminSession {
            session_token: token,
            expires_at: Some(now.plus_secs(SESSION_LIFETIME_SECS as int)),
            ip_address: remote,
        }
    }

    /// The row that this session becomes when it is stored at the time `now`.
    pub open spec fn row(self, now: Timestamp) -> AdminSession {
        AdminSession {
            session_token: self.session_token,
            created_at: Some(now),
            expires_at: self.expires_at,
            ip_address: self.ip_address,
        }
    }

    /// Issue a session at the time `now` to a client at the address `remote`.
    pub fn issue(token: String, now: Timestamp, remote: Option<String>) -> (r: NewAdminSession)
        requires
            now.secs + SESSION_LIFETIME_SECS <= i64::MAX,
        ensures
            r == Self::issued(token, now, remote),
    {
        NewAdminSession {
            session_token: token,
            expires_at: Some(now.a_day_later()),
            ip_address: remote,
        }
    }

    /// The row that this session becomes when it is stored at the time `now`.
    pub fn into_row(self, now: Timestamp) -> (r: AdminSession)
        ensures
            r == self.row(now),
    {
        AdminSession {
            session_token: self.session_token,
            created_at: Some(now),
            expires_at: self.expires_at,
            ip_address: self.ip_address,
        }
    }
}

/// Issue a session now to a client at the address `remote`: a fresh random
/// token, valid for 24 hours, bound to the address if there is one. Returns
/// the session and the time of issue.
pub fn start_session(remote: Option<String>) -> (r: (NewAdminSession, Timestamp))
    ensures
        r.0 == NewAdminSession::issued(r.0.session_token, r.1, remote),
        r.0.session_token@.len() == TOKEN_LENGTH,
        r.1.of_clock(),
        r.1.secs + SESSION_LIFETIME_SECS <= i64::MAX,
{
    let token = fresh_token();
    let now = current_time();
    (NewAdminSession::issue(token, now, remote), now)
}

/// Whether the table holds a session with this token.
pub open spec fn has_session(rows: Seq<AdminSession>, token: Seq<char>) -> bool {
    exists|i: int| 0 <= i < rows.len() && (#[trigger] rows[i]).session_token@ == token
}

/// The place of the session with this token in the table.
pub open spec fn session_place(rows: Seq<AdminSession>, token: Seq<char>) -> int {
    choose|i: int| 0 <= i < rows.len() && (#[trigger] rows[i]).session_token@ == token
}

/// No two sessions of the table share a token.
pub open spec fn distinct_tokens(rows: Seq<AdminSession>) -> bool {
    forall|i: int, j: int|
        0 <= i < j < rows.len() ==> (#[trigger] rows[i]).session_token@ != (
        #[trigger] rows[j]).session_token@
}

/// Whether the table holds a session whose token has the length of an
/// issued one. Only such a session can stand in the way of a new one.
pub open spec fn has_token_of_full_length(rows: Seq<AdminSession>) -> bool {
    exists|i: int|
        0 <= i < rows.len() && (#[trigger] rows[i]).session_token@.len() == TOKEN_LENGTH
}

/// Whether the table admits a request that presents `token` at the time
/// `now` from the address `remote`.
pub open spec fn admitted(
    rows: Seq<AdminSession>,
    token: Seq<char>,
    now: Timestamp,
    remote: Option<Seq<char>>,
) -> bool {
    has_session(rows, token) && rows[session_place(rows, token)].admits(now, remote)
}

/// The table after an attempt to store a new session at the time `now`: a
/// token that is taken is refused and nothing changes.
pub open spec fn stored(rows: Seq<AdminSession>, new: NewAdminSession, now: Timestamp) -> Seq<
    AdminSession,
> {
    if has_session(rows, new.session_token@) {
        rows
    } else {
        rows.push(new.row(now))
    }
}

/// The table after the session with this token is deleted, if there is one.
pub open spec fn dropped(rows: Seq<AdminSession>, token: Seq<char>) -> Seq<AdminSession> {
    if has_session(rows, token) {
        rows.remove(session_place(rows, token))
    } else {
        rows
    }
}

/// Decide whether a request is let through, given the session that the
/// table holds for the token it presented, if it presented one and the
/// table holds one.
pub fn authenticated(session: Option<&AdminSession>, now: &Timestamp, remote: Option<&str>) -> (r:
    bool)
    ensures
        r == (session matches Some(s) && s.admits(*now, str_of(remote))),
{
    match session {
        Some(s) => s.is_valid(now, remote),
        None => false,
    }
}

/// The table of sessions, held in memory.
#[derive(Debug, Clone, PartialEq, Eq)]
pub struct SessionStore {
    pub rows: Vec<AdminSession>,
}

impl View for SessionStore {
    type V = Seq<AdminSession>;

    open spec fn view(&self) -> Seq<AdminSession> {
        self.rows@
    }
}

impl SessionStore {
    /// An empty table.
    pub fn new() -> (s: SessionStore)
        ensures
            s@.len() == 0,
            distinct_tokens(s@),
    {
        SessionStore { rows: Vec::new() }
    }

    /// The place of the session with this token, if there is one.
    pub fn find(&self, token: &str) -> (r: Option<usize>)
        ensures
            r is Some == has_session(self@, token@),
            r matches Some(i) ==> i < self@.len() && self@[i as int].session_token@ == token@,
            distinct_tokens(self@) && r is Some ==> r.unwrap() == session_place(self@, token@),
    {
        let mut i: usize = 0;
        while i < self.rows.len()
            invariant
                i <= self.rows@.len(),
                forall|j: int| 0 <= j < i ==> (#[trigger] self.rows@[j]).session_token@ != token@,
            decreases self.rows@.len() - i,
        {
            if same_text(self.rows[i].session_token.as_str(), token) {
                return Some(i);
            }
            i += 1;
        }
        None
    }

    /// Store a new session at the time `now`. A token that is taken is
    /// reported as a failure of the store, and nothing changes.
    pub fn insert(&mut self, new: NewAdminSession, now: Timestamp) -> (r: Result<(), AppError>)
        requires
            distinct_tokens(old(self)@),
        ensures
            distinct_tokens(final(self)@),
            final(self)@ == stored(old(self)@, new, now),
            has_session(old(self)@, new.session_token@) ==> (r matches Err(
                AppError::Database(m),
            ) && m@ == "the session token is taken"@),
            !has_session(old(self)@, new.session_token@) ==> r is Ok,
    {
        match self.find(new.session_token.as_str()) {
            Some(_) => Err(AppError::Database("the session token is taken".to_owned())),
            None => {
                self.rows.push(new.into_row(now));
                Ok(())
            },
        }
    }

    /// Issue a session to a client at the address `remote` and store it: a
    /// fresh random token, valid for 24 hours from now, bound to the address
    /// if there is one. Returns the token. This fails only where the token
    /// is taken, so it succeeds on every table that holds no token of the
    /// length of an issued one.
    pub fn create(&mut self, remote: Option<String>) -> (r: Result<String, AppError>)
        requires
            distinct_tokens(old(self)@),
        ensures
            distinct_tokens(final(self)@),
            match r {
                Ok(token) => {
                    &&& token@.len() == TOKEN_LENGTH
                    &&& !has_session(old(self)@, token@)
                    &&& exists|now: Timestamp|
                        now.of_clock() && #[trigger] stored(
                            old(self)@,
                            NewAdminSession::issued(token, now, remote),
                            now,
                        ) == final(self)@
                },
                Err(e) => final(self)@ == old(self)@ && e is Database,
            },
            r is Err ==> has_token_of_full_length(old(self)@),
    {
        let (new, now) = start_session(remote);
        let shown = new.session_token.clone();
        match self.insert(new, now) {
            Ok(()) => Ok(shown),
            Err(e) => Err(e),
        }
    }

    /// Whether a request that presents `token` at the time `now` from the
    /// address `remote` is admitted. The table is not changed.
    pub fn validate_at(&self, token: &str, now: &Timestamp, remote: Option<&str>) -> (r: bool)
        requires
            distinct_tokens(self@),
        ensures
            r == admitted(self@, token@, *now, str_of(remote)),
    {
        match self.find(token) {
            Some(i) => self.rows[i].is_valid(now, remote),
            None => false,
        }
    }

    /// Whether a request that presents `token` now from the address
    /// `remote` is admitted: what [`SessionStore::validate_at`] says at the
    /// time that the clock gives. The table is not changed.
    pub fn validate(&self, token: &str, remote: Option<&str>) -> (r: bool)
        requires
            distinct_tokens(self@),
        ensures
            exists|now: Timestamp|
                now.of_clock() && r == #[trigger] admitted(self@, token@, now, str_of(remote)),
            r ==> has_session(self@, token@),
    {
        let now = current_time();
        self.validate_at(token, &now, remote)
    }

    /// Delete the session with this token. Where there is none, nothing
    /// changes.
    pub fn invalidate(&mut self, token: &str)
        requires
            distinct_tokens(old(self)@),
        ensures
            distinct_tokens(final(self)@),
            final(self)@ == dropped(old(self)@, token@),
            !has_session(final(self)@, token@),
    {
        match self.find(token) {
            Some(i) => {
                self.rows.remove(i);
            },
            None => {},
        }
    }
}

/// Once a session is deleted, the table holds none with its token, and no
/// request that presents the token is admitted, whenever and from wherever
/// it comes.
pub proof fn dropped_is_gone(rows: Seq<AdminSession>, token: Seq<char>)
    requires
        distinct_tokens(rows),
    ensures
        distinct_tokens(dropped(rows, token)),
        !has_session(dropped(rows, token), token),
        forall|now: Timestamp, remote: Option<Seq<char>>|
            !admitted(dropped(rows, token), token, now, remote),
{
}

/// A session that was issued at the time `now` and stored is admitted at
/// once and at every time up to 24 hours later, when it is presented from
/// the address it was issued to. It is admitted no longer once that time
/// has passed, nor once it has been deleted.
pub proof fn issued_session_lives_a_day(
    rows: Seq<AdminSession>,
    token: String,
    now: Timestamp,
    remote: Option<String>,
    at: Timestamp,
)
    requires
        distinct_tokens(rows),
        !has_session(rows, token@),
        now.secs + SESSION_LIFETIME_SECS <= i64::MAX,
    ensures
        ({
            let after = stored(rows, NewAdminSession::issued(token, now, remote), now);
            let end = now.plus_secs(SESSION_LIFETIME_SECS as int);
            &&& distinct_tokens(after)
            &&& admitted(after, token@, now, text_of(remote))
            &&& admitted(after, token@, at, text_of(remote)) == !end.before(at)
            &&& !admitted(dropped(after, token@), token@, at, text_of(remote))
        }),
{
    let new = NewAdminSession::issued(token, now, remote);
    let after = stored(rows, new, now);
    let n = rows.len() as int;
    assert(after[n].session_token@ == token@);
}

/// A session that is bound to an address is admitted, while it lasts, from
/// that address and from no other: not from a different one, and not from a
/// request whose address is unknown.
pub proof fn bound_session_needs_its_address(
    rows: Seq<AdminSession>,
    token: String,
    now: Timestamp,
    address: String,
    at: Timestamp,
    other: Option<Seq<char>>,
)
    requires
        distinct_tokens(rows),
        !has_session(rows, token@),
        now.secs + SESSION_LIFETIME_SECS <= i64::MAX,
        !now.plus_secs(SESSION_LIFETIME_SECS as int).before(at),
    ensures
        ({
            let after = stored(rows, NewAdminSession::issued(token, now, Some(address)), now);
            admitted(after, token@, at, other) == (other == Some(address@))
        }),
{
    let after = stored(rows, NewAdminSession::issued(token, now, Some(address)), now);
    let n = rows.len() as int;
    assert(after[n].session_token@ == token@);
}

} // verus!
