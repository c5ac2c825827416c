//! The authentication actor: a table of sessions keyed by token.
//!
//! A session is opened by a login, closed by a logout, and evicted by the
//! periodic sweep once its expiry has passed. Every handler that depends on
//! the time comes in two forms: one that takes the time as an argument and
//! says exactly what it does, and one that reads the clock and hands the
//! reading to the first.

use vstd::prelude::*;
use vstd::string::StringExecFns;
use crate::clock::{latest_reading, unix_now};
use crate::errors::AuthError;
use crate::messages::{AuthResult, Login, Logout, UserId, VerifyToken};
use crate::registry::{
    distinct_keys,
    entries_map,
    lemma_entry_in_map,
    lemma_filter_entries,
    lemma_filter_next,
    lemma_key_has_slot,
    slot_of,
    StringMap,
};
use crate::signals::{AuthStateChanged, LoginRequest, LoginResponse, LogoutRequest, LogoutResponse};
use crate::text::{decimal, push_decimal};

verus! {

/// The seconds for which a session is valid.
pub const SESSION_TTL_SECS: u64 = 3600;

/// The seconds between two sweeps for expired sessions.
pub const SWEEP_INTERVAL_SECS: u64 = 60;

/// One open session.
#[derive(Debug)]
pub struct AuthSession {
    pub user_id: UserId,
    pub token: String,
    pub expires_at: u64,
}

/// A session as plain values.
pub struct SessionView {
    pub user_id: Seq<char>,
    pub token: Seq<char>,
    pub expires_at: u64,
}

impl View for AuthSession {
    type V = SessionView;

    open spec fn view(&self) -> SessionView {
        SessionView { user_id: self.user_id@, token: self.token@, expires_at: self.expires_at }
    }
}

/// The one user name that may log in.
pub open spec fn demo_username() -> Seq<char> {
    "demo"@
}

/// The password of the one user.
pub open spec fn demo_password() -> Seq<char> {
    "password"@
}

/// The identifier of the one user.
pub open spec fn demo_user_id() -> Seq<char> {
    "user_1"@
}

/// The credentials are those of the one user.
pub open spec fn credentials_ok(username: Seq<char>, password: Seq<char>) -> bool {
    username == demo_username() && password == demo_password()
}

/// The token of a session opened for `user_id` at time `now`.
pub open spec fn token_text(user_id: Seq<char>, now: u64) -> Seq<char> {
    "token_"@ + user_id + "_"@ + decimal(now as nat)
}

/// The session opened by a login at time `now`: that of the one user, with
/// the token under which it is held.
pub open spec fn opened_session(now: u64) -> SessionView {
    SessionView {
        user_id: demo_user_id(),
        token: token_text(demo_user_id(), now),
        expires_at: (now + SESSION_TTL_SECS) as u64,
    }
}

/// What `verify` answers for `token` at time `now`: the user of the session
/// while its expiry lies ahead, `Expired` from the expiry on, `NotFound`
/// where no session is held under the token.
pub open spec fn verify_spec(sessions: Map<Seq<char>, SessionView>, token: Seq<char>, now: u64)
    -> Result<Seq<char>, AuthError> {
    if sessions.contains_key(token) {
        if sessions[token].expires_at > now {
            Ok(sessions[token].user_id)
        } else {
            Err(AuthError::Expired)
        }
    } else {
        Err(AuthError::NotFound)
    }
}

/// The sessions that a sweep at time `now` leaves: those whose expiry has
/// not passed.
pub open spec fn swept(sessions: Map<Seq<char>, SessionView>, now: u64) -> Map<
    Seq<char>,
    SessionView,
> {
    Map::new(
        |t: Seq<char>| sessions.contains_key(t) && sessions[t].expires_at >= now,
        |t: Seq<char>| sessions[t],
    )
}

/// The users of the sessions in `list` whose expiry has passed at `now`, in
/// the order of the list.
pub open spec fn evicted_users(list: Seq<(Seq<char>, SessionView)>, now: u64) -> Seq<Seq<char>>
    decreases list.len(),
{
    if list.len() == 0 {
        Seq::empty()
    } else if list.last().1.expires_at < now {
        evicted_users(list.drop_last(), now).push(list.last().1.user_id)
    } else {
        evicted_users(list.drop_last(), now)
    }
}

/// The first position at or after `from` whose session belongs to `user`,
/// or the length of `list` where there is none.
pub open spec fn first_session_of(list: Seq<(Seq<char>, SessionView)>, user: Seq<char>, from: int)
    -> int
    decreases list.len() - from,
{
    if from < 0 || from >= list.len() {
        list.len() as int
    } else if list[from].1.user_id == user {
        from
    } else {
        first_session_of(list, user, from + 1)
    }
}

/// The signal says that `user` is authenticated (`on`) or no longer so.
pub open spec fn auth_signal(s: AuthStateChanged, on: bool, user: Seq<char>) -> bool {
    s.is_authenticated == on && s.user_id is Some && s.user_id->0@ == user
}

/// The signals say, one for one and in order, that `users` are logged out.
pub open spec fn logout_signals(signals: Seq<AuthStateChanged>, users: Seq<Seq<char>>) -> bool {
    &&& signals.len() == users.len()
    &&& forall|i: int|
        0 <= i < signals.len() ==> auth_signal(#[trigger] signals[i], false, users[i])
}

/// How a login at time `now` relates the sessions before and after, the
/// answer and the signal.
pub open spec fn login_post(
    before: Map<Seq<char>, SessionView>,
    username: Seq<char>,
    password: Seq<char>,
    now: u64,
    after: Map<Seq<char>, SessionView>,
    reply: Result<AuthResult, AuthError>,
    signal: Option<AuthStateChanged>,
) -> bool {
    if credentials_ok(username, password) {
        &&& after == before.insert(token_text(demo_user_id(), now), opened_session(now))
        &&& reply is Ok
        &&& reply->Ok_0.user_id@ == demo_user_id()
        &&& reply->Ok_0.token@ == token_text(demo_user_id(), now)
        &&& reply->Ok_0.expires_at == now + SESSION_TTL_SECS
        &&& signal is Some
        &&& auth_signal(signal->0, true, demo_user_id())
    } else {
        &&& after == before
        &&& reply == Err::<AuthResult, AuthError>(AuthError::InvalidCredentials)
        &&& signal is None
    }
}

/// How a login request at time `now` relates the sessions before and after,
/// the response and the signal: the login of `login_post`, with its answer
/// written into the response.
pub open spec fn login_request_post(
    before: Map<Seq<char>, SessionView>,
    username: Seq<char>,
    password: Seq<char>,
    now: u64,
    after: Map<Seq<char>, SessionView>,
    response: LoginResponse,
    signal: Option<AuthStateChanged>,
) -> bool {
    if credentials_ok(username, password) {
        &&& after == before.insert(token_text(demo_user_id(), now), opened_session(now))
        &&& response.success
        &&& response.user_id is Some
        &&& response.user_id->0@ == demo_user_id()
        &&& response.token is Some
        &&& response.token->0@ == token_text(demo_user_id(), now)
        &&& response.error is None
        &&& signal is Some
        &&& auth_signal(signal->0, true, demo_user_id())
    } else {
        &&& after == before
        &&& !response.success
        &&& response.user_id is None
        &&& response.token is None
        &&& response.error is Some
        &&& response.error->0@ == AuthError::InvalidCredentials.text()
        &&& signal is None
    }
}

/// Whether `s` has the characters of `text`.
fn has_text(s: &String, text: &str) -> (b: bool)
    ensures
        b == (s@ == text@),
{
    let other = String::from_str(text);
    *s == other
}

/// The token of a session opened for `user_id` at time `now`.
pub fn token_at(user_id: &str, now: u64) -> (token: String)
    ensures
        token@ == token_text(user_id@, now),
{
    let mut token = String::from_str("token_");
    token.append(user_id);
    token.append("_");
    push_decimal(&mut token, now);
    token
}

/// The authentication actor.
#[derive(Debug)]
pub struct AuthActor {
    active_sessions: StringMap<AuthSession>,
}

impl View for AuthActor {
    type V = Map<Seq<char>, SessionView>;

    /// The open sessions, each under its token.
    closed spec fn view(&self) -> Map<Seq<char>, SessionView> {
        self.active_sessions@.map_values(|s: AuthSession| s@)
    }
}

impl AuthActor {
    /// The table of sessions is consistent, and every session is held under
    /// its own token.
    pub closed spec fn wf(&self) -> bool {
        &&& self.active_sessions.wf()
        &&& forall|k: Seq<char>| #[trigger]
            self.active_sessions@.contains_key(k) ==> self.active_sessions@[k].token@ == k
    }

    /// Every session is held under its own token.
    pub proof fn lemma_token_is_key(&self, token: Seq<char>)
        requires
            self.wf(),
            self@.contains_key(token),
        ensures
            self@[token].token == token,
    {
        assert(self.active_sessions@.contains_key(token));
    }

    /// The open sessions in the order in which their tokens first arrived.
    pub closed spec fn session_list(&self) -> Seq<(Seq<char>, SessionView)> {
        Seq::new(
            self.active_sessions.entries().len(),
            |i: int| (self.active_sessions.entries()[i].0, self.active_sessions.entries()[i].1@),
        )
    }

    /// The list and the view speak of the same sessions: no token occurs
    /// twice in the list, and the view is the map of the list.
    pub proof fn lemma_session_list(&self)
        requires
            self.wf(),
        ensures
            distinct_keys(self.session_list()),
            self@ == entries_map(self.session_list()),
    {
        let e = self.active_sessions.entries();
        let l = self.session_list();
        assert forall|i: int, j: int| 0 <= i < j < l.len() implies (#[trigger] l[i]).0 != (
        #[trigger] l[j]).0 by {
            assert(e[i].0 != e[j].0);
        }
        assert forall|k: Seq<char>| self@.contains_key(k) <==> entries_map(l).contains_key(
            k,
        ) by {
            if entries_map(e).contains_key(k) {
                lemma_key_has_slot(e, k);
                let i = slot_of(e, k);
                assert(l[i].0 == k);
            }
            if entries_map(l).contains_key(k) {
                lemma_key_has_slot(l, k);
                let i = slot_of(l, k);
                assert(e[i].0 == k);
            }
        }
        assert forall|k: Seq<char>| self@.contains_key(k) implies self@[k] == entries_map(l)[k] by {
            lemma_key_has_slot(e, k);
            let i = slot_of(e, k);
            assert(l[i].0 == k);
            lemma_entry_in_map(l, i);
            lemma_entry_in_map(e, i);
        }
        assert(self@ =~= entries_map(l));
    }

    /// An actor without sessions.
    pub fn new() -> (actor: Self)
        ensures
            actor.wf(),
            actor@ == Map::<Seq<char>, SessionView>::empty(),
            actor.session_list() == Seq::<(Seq<char>, SessionView)>::empty(),
    {
        let actor = Self { active_sessions: StringMap::new() };
        assert(actor@ =~= Map::<Seq<char>, SessionView>::empty());
        assert(actor.session_list() =~= Seq::<(Seq<char>, SessionView)>::empty());
        actor
    }

    /// The number of open sessions.
    pub fn session_count(&self) -> (n: usize)
        ensures
            n == self.session_list().len(),
    {
        self.active_sessions.len()
    }

    /// The time that the clock shows, in seconds since the epoch.
    pub fn get_current_timestamp(&self) -> (now: u64)
        ensures
            now <= latest_reading(),
    {
        unix_now()
    }

    /// A token for `user_id`, stamped with the time that the clock shows.
    pub fn generate_token(&self, user_id: &str) -> (token: String)
        ensures
            exists|now: u64|
                now <= latest_reading() && token@ == #[trigger] token_text(user_id@, now),
    {
        let now: u64 = self.get_current_timestamp();
        token_at(user_id, now)
    }

    /// Handles a login at time `now`: the right credentials open a session
    /// that expires `SESSION_TTL_SECS` later and announce the user as
    /// authenticated; anything else is refused and changes nothing.
    pub fn login_at(&mut self, msg: &Login, now: u64) -> (r: (
        Result<AuthResult, AuthError>,
        Option<AuthStateChanged>,
    ))
        requires
            old(self).wf(),
            now + SESSION_TTL_SECS <= u64::MAX,
        ensures
            final(self).wf(),
            login_post(old(self)@, msg.username@, msg.password@, now, final(self)@, r.0, r.1),
    {
        if has_text(&msg.username, "demo") && has_text(&msg.password, "password") {
            let user_id = String::from_str("user_1");
            let token = token_at(user_id.as_str(), now);
            let expires_at: u64 = now + SESSION_TTL_SECS;
            let auth_result = AuthResult {
                user_id: user_id.clone(),
                token: token.clone(),
                expires_at,
            };
            let session = AuthSession {
                user_id: user_id.clone(),
                token: token.clone(),
                expires_at,
            };
            let ghost before = self@;
            self.active_sessions.insert(token, session);
            assert(self@ =~= before.insert(token_text(demo_user_id(), now), opened_session(now)));
            let signal = AuthStateChanged { is_authenticated: true, user_id: Some(user_id) };
            (Ok(auth_result), Some(signal))
        } else {
            (Err(AuthError::InvalidCredentials), None)
        }
    }

    /// Handles a login at the time that the clock shows.
    pub fn login(&mut self, msg: &Login) -> (r: (
        Result<AuthResult, AuthError>,
        Option<AuthStateChanged>,
    ))
        requires
            old(self).wf(),
        ensures
            final(self).wf(),
            exists|now: u64|
                now <= latest_reading() && #[trigger] login_post(
                    old(self)@,
                    msg.username@,
                    msg.password@,
                    now,
                    final(self)@,
                    r.0,
                    r.1,
                ),
    {
        let now: u64 = self.get_current_timestamp();
        self.login_at(msg, now)
    }

    /// Handles a logout: a known token closes its session and announces its
    /// user as logged out; an unknown one is refused with `NoSession` and
    /// changes nothing.
    pub fn logout(&mut self, msg: &Logout) -> (r: (Result<(), AuthError>, Option<AuthStateChanged>))
        requires
            old(self).wf(),
        ensures
            final(self).wf(),
            final(self)@ == old(self)@.remove(msg.token@),
            old(self)@.contains_key(msg.token@) ==> r.0 is Ok && r.1 is Some && auth_signal(
                r.1->0,
                false,
                old(self)@[msg.token@].user_id,
            ),
            !old(self)@.contains_key(msg.token@) ==> r.0 == Err::<(), AuthError>(
                AuthError::NoSession,
            ) && r.1 is None,
    {
        let ghost before = self@;
        match self.active_sessions.remove(&msg.token) {
            Some(session) => {
                assert(self@ =~= before.remove(msg.token@));
                let signal = AuthStateChanged {
                    is_authenticated: false,
                    user_id: Some(session.user_id),
                };
                (Ok(()), Some(signal))
            },
            None => {
                assert(self@ =~= before.remove(msg.token@));
                (Err(AuthError::NoSession), None)
            },
        }
    }

    /// Answers whose session `msg.token` is at time `now`.
    pub fn verify_at(&self, msg: &VerifyToken, now: u64) -> (r: Result<UserId, AuthError>)
        requires
            self.wf(),
        ensures
            match r {
                Ok(user) => verify_spec(self@, msg.token@, now) == Ok::<Seq<char>, AuthError>(
                    user@,
                ),
                Err(e) => verify_spec(self@, msg.token@, now) == Err::<Seq<char>, AuthError>(e),
            },
            r is Ok <==> (self@.contains_key(msg.token@) && now < self@[msg.token@].expires_at),
    {
        match self.active_sessions.get(&msg.token) {
            Some(session) => {
                if session.expires_at > now {
                    Ok(session.user_id.clone())
                } else {
                    Err(AuthError::Expired)
                }
            },
            None => Err(AuthError::NotFound),
        }
    }

    /// Answers whose session `msg.token` is at the time that the clock shows.
    pub fn verify(&self, msg: &VerifyToken) -> (r: Result<UserId, AuthError>)
        requires
            self.wf(),
        ensures
            exists|now: u64|
                now <= latest_reading() && match r {
                    Ok(user) => #[trigger] verify_spec(self@, msg.token@, now) == Ok::<
                        Seq<char>,
                        AuthError,
                    >(user@),
                    Err(e) => verify_spec(self@, msg.token@, now) == Err::<Seq<char>, AuthError>(e),
                },
    {
        let now: u64 = self.get_current_timestamp();
        let r = self.verify_at(msg, now);
        proof {
            let w = verify_spec(self@, msg.token@, now);
        }
        r
    }

    /// The sweep at time `now`: evicts every session whose expiry has passed
    /// and announces the user of each, in the order of the session list.
    pub fn check_expired_tokens_at(&mut self, now: u64) -> (signals: Vec<AuthStateChanged>)
        requires
            old(self).wf(),
        ensures
            final(self).wf(),
            final(self)@ == swept(old(self)@, now),
            logout_signals(signals@, evicted_users(old(self).session_list(), now)),
    {
        let ghost orig = self.active_sessions.entries();
        let ghost list = self.session_list();
        let ghost live = live_at(now);
        let mut signals: Vec<AuthStateChanged> = Vec::new();
        let mut i: usize = 0;
        let ghost mut j: int = 0;
        proof {
            reveal(Seq::filter);
            assert(orig.take(0) =~= Seq::empty());
            assert(list.take(0) =~= Seq::empty());
            assert(orig.take(0).filter(live) + orig.skip(0) =~= orig);
            assert(self.active_sessions@ == entries_map(orig));
            assert forall|k: Seq<char>| #[trigger]
                entries_map(orig).contains_key(k) implies entries_map(orig)[k].token@ == k by {
                assert(self.active_sessions@.contains_key(k));
            }
        }
        while i < self.active_sessions.len()
            invariant
                self.active_sessions.wf(),
                distinct_keys(orig),
                forall|k: Seq<char>| #[trigger]
                    entries_map(orig).contains_key(k) ==> entries_map(orig)[k].token@ == k,
                live == live_at(now),
                list.len() == orig.len(),
                forall|k: int|
                    0 <= k < orig.len() ==> #[trigger] list[k] == (orig[k].0, orig[k].1@),
                0 <= j <= orig.len(),
                self.active_sessions.entries() == orig.take(j).filter(live) + orig.skip(j),
                i == orig.take(j).filter(live).len(),
                logout_signals(signals@, evicted_users(list.take(j), now)),
            decreases orig.len() - j,
        {
            let ghost cur = self.active_sessions.entries();
            let ghost kept = orig.take(j).filter(live);
            assert(j < orig.len()) by {
                if j >= orig.len() {
                    assert(orig.skip(j).len() == 0);
                }
            }
            assert(cur[i as int] == orig[j]);
            proof {
                lemma_filter_next(orig, j, live);
                assert(list.take(j + 1).drop_last() =~= list.take(j));
                assert(list.take(j + 1).last() == list[j]);
            }
            if self.active_sessions.value_at(i).expires_at < now {
                let pair = self.active_sessions.remove_at(i);
                let ghost users = evicted_users(list.take(j), now);
                signals.push(
                    AuthStateChanged { is_authenticated: false, user_id: Some(pair.1.user_id) },
                );
                proof {
                    assert(self.active_sessions.entries() =~= kept + orig.skip(j + 1));
                    assert(evicted_users(list.take(j + 1), now) == users.push(list[j].1.user_id));
                }
            } else {
                i = i + 1;
                proof {
                    assert(self.active_sessions.entries() =~= kept.push(orig[j]) + orig.skip(
                        j + 1,
                    ));
                }
            }
            proof {
                j = j + 1;
            }
        }
        proof {
            if j < orig.len() {
                assert(orig.skip(j).len() > 0);
            }
            assert(orig.take(j) =~= orig);
            assert(list.take(j) =~= list);
            assert(self.active_sessions.entries() =~= orig.filter(live));
            lemma_filter_entries(orig, live);
            let ghost before = entries_map(orig).map_values(|s: AuthSession| s@);
            assert(self@ =~= swept(before, now));
            assert forall|k: Seq<char>| #[trigger]
                self.active_sessions@.contains_key(k) implies self.active_sessions@[k].token@
                == k by {
                assert(entries_map(orig).contains_key(k));
            }
        }
        signals
    }

    /// The sweep at the time that the clock shows.
    pub fn check_expired_tokens(&mut self) -> (signals: Vec<AuthStateChanged>)
        requires
            old(self).wf(),
        ensures
            final(self).wf(),
            exists|now: u64|
                now <= latest_reading() && final(self)@ == #[trigger] swept(old(self)@, now)
                    && logout_signals(signals@, evicted_users(old(self).session_list(), now)),
    {
        let now: u64 = self.get_current_timestamp();
        self.check_expired_tokens_at(now)
    }

    /// Handles a login request of the user interface at time `now`: logs in
    /// and reports the answer.
    pub fn login_request_at(&mut self, msg: LoginRequest, now: u64) -> (r: (
        LoginResponse,
        Option<AuthStateChanged>,
    ))
        requires
            old(self).wf(),
            now + SESSION_TTL_SECS <= u64::MAX,
        ensures
            final(self).wf(),
            login_request_post(
                old(self)@,
                msg.username@,
                msg.password@,
                now,
                final(self)@,
                r.0,
                r.1,
            ),
    {
        let login = Login { username: msg.username, password: msg.password };
        let (reply, signal) = self.login_at(&login, now);
        let response = match reply {
            Ok(result) => LoginResponse {
                success: true,
                user_id: Some(result.user_id),
                token: Some(result.token),
                error: None,
            },
            Err(e) => LoginResponse {
                success: false,
                user_id: None,
                token: None,
                error: Some(e.message()),
            },
        };
        (response, signal)
    }

    /// Handles a login request of the user interface at the time that the
    /// clock shows.
    pub fn login_request(&mut self, msg: LoginRequest) -> (r: (
        LoginResponse,
        Option<AuthStateChanged>,
    ))
        requires
            old(self).wf(),
        ensures
            final(self).wf(),
            exists|now: u64|
                now <= latest_reading() && #[trigger] login_request_post(
                    old(self)@,
                    msg.username@,
                    msg.password@,
                    now,
                    final(self)@,
                    r.0,
                    r.1,
                ),
    {
        let now: u64 = self.get_current_timestamp();
        self.login_request_at(msg, now)
    }

    /// The token of the first session of `user_id` in the session list.
    fn token_of_user(&self, user_id: &String) -> (r: Option<String>)
        requires
            self.wf(),
        ensures
            match r {
                Some(token) => {
                    let at = first_session_of(self.session_list(), user_id@, 0);
                    0 <= at < self.session_list().len() && token@ == self.session_list()[at].0
                },
                None => first_session_of(self.session_list(), user_id@, 0)
                    == self.session_list().len(),
            },
    {
        let mut i: usize = 0;
        while i < self.active_sessions.len()
            invariant
                0 <= i <= self.session_list().len(),
                self.session_list().len() == self.active_sessions.entries().len(),
                first_session_of(self.session_list(), user_id@, 0) == first_session_of(
                    self.session_list(),
                    user_id@,
                    i as int,
                ),
            decreases self.active_sessions.entries().len() - i,
        {
            if self.active_sessions.value_at(i).user_id == *user_id {
                return Some(self.active_sessions.key_at(i).clone());
            }
            i = i + 1;
        }
        None
    }

    /// Handles a logout request of the user interface: closes the first
    /// session of the user in the session list, if there is one, and reports
    /// whether it did.
    pub fn logout_request(&mut self, msg: LogoutRequest) -> (r: (
        LogoutResponse,
        Option<AuthStateChanged>,
    ))
        requires
            old(self).wf(),
        ensures
            final(self).wf(),
            ({
                let list = old(self).session_list();
                let at = first_session_of(list, msg.user_id@, 0);
                if at < list.len() {
                    &&& r.0.success
                    &&& final(self)@ == old(self)@.remove(list[at].0)
                    &&& r.1 is Some
                    &&& auth_signal(r.1->0, false, msg.user_id@)
                } else {
                    &&& !r.0.success
                    &&& final(self)@ == old(self)@
                    &&& r.1 is None
                }
            }),
    {
        proof {
            self.lemma_session_list();
            lemma_first_session_of(self.session_list(), msg.user_id@, 0);
        }
        match self.token_of_user(&msg.user_id) {
            Some(token) => {
                let ghost list = self.session_list();
                let ghost at = first_session_of(list, msg.user_id@, 0);
                proof {
                    lemma_entry_in_map(list, at);
                }
                let logout = Logout { user_id: msg.user_id, token };
                let (reply, signal) = self.logout(&logout);
                (LogoutResponse { success: reply.is_ok() }, signal)
            },
            None => (LogoutResponse { success: false }, None),
        }
    }
}

/// The test that a sweep at time `now` applies to an entry: it stays while
/// its expiry has not passed.
pub open spec fn live_at(now: u64) -> spec_fn((Seq<char>, AuthSession)) -> bool {
    |e: (Seq<char>, AuthSession)| e.1.expires_at >= now
}

/// The result of `first_session_of` lies between `from` and the end; it is
/// the position of a session of `user` unless it is the end, and no earlier
/// position at or after `from` is.
pub proof fn lemma_first_session_of(list: Seq<(Seq<char>, SessionView)>, user: Seq<char>, from: int)
    requires
        0 <= from <= list.len(),
    ensures
        from <= first_session_of(list, user, from) <= list.len(),
        first_session_of(list, user, from) < list.len() ==> list[first_session_of(
            list,
            user,
            from,
        )].1.user_id == user,
        forall|i: int|
            from <= i < first_session_of(list, user, from) ==> (#[trigger] list[i]).1.user_id
                != user,
    decreases list.len() - from,
{
    if from < list.len() && list[from].1.user_id != user {
        lemma_first_session_of(list, user, from + 1);
    }
}

/// A session is never valid at or after its expiry: from then on `verify`
/// answers `Expired` for its token.
pub proof fn lemma_expired_session_fails(
    sessions: Map<Seq<char>, SessionView>,
    token: Seq<char>,
    now: u64,
)
    requires
        sessions.contains_key(token),
        now >= sessions[token].expires_at,
    ensures
        verify_spec(sessions, token, now) == Err::<Seq<char>, AuthError>(AuthError::Expired),
{
}

/// A session whose expiry has been reached is gone after the next two
/// sweeps at the latest, that is within one sweep interval of the first
/// sweep that follows its expiry; from then on `verify` answers `NotFound`.
pub proof fn lemma_expired_session_is_swept(
    sessions: Map<Seq<char>, SessionView>,
    token: Seq<char>,
    first: u64,
    second: u64,
    later: u64,
)
    requires
        sessions.contains_key(token),
        sessions[token].expires_at <= first,
        first < second,
    ensures
        !swept(swept(sessions, first), second).contains_key(token),
        verify_spec(swept(swept(sessions, first), second), token, later) == Err::<
            Seq<char>,
            AuthError,
        >(AuthError::NotFound),
        sessions[token].expires_at < first ==> !swept(sessions, first).contains_key(token),
{
}

/// A sweep keeps every session whose expiry has not passed, unchanged.
pub proof fn lemma_sweep_keeps_valid(
    sessions: Map<Seq<char>, SessionView>,
    token: Seq<char>,
    now: u64,
)
    requires
        sessions.contains_key(token),
        now <= sessions[token].expires_at,
    ensures
        swept(sessions, now).contains_key(token),
        swept(sessions, now)[token] == sessions[token],
{
}

} // verus!
