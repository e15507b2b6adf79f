//! The per-connection session state machine.
//!
//! A session is anonymous or authenticated as one username until one expiry
//! instant; it moves between the two on login, logout and refresh requests,
//! and a periodic liveness tick couples a stalled-peer check with proactive
//! token renewal. The whole transition relation is the spec function
//! [`step`]; the liveness decision is [`tick_spec`].

use vstd::prelude::*;

use crate::codec::decode_message;
use crate::codec::decode_spec;
use crate::codec::encode_response;
use crate::codec::encode_spec;
use crate::store::CredentialStore;
use crate::store::RegisterOutcome;
use crate::token::Claims;
use crate::token::TOKEN_EXPIRATION_TIMEOUT_SECS;
use crate::token::expiry_spec;
use crate::token::generate_exp;
use crate::token::issue;
use crate::token::jwt_claims;
use crate::token::jwt_of;
use crate::token::now_secs;
use crate::token::validate;
use crate::token::validate_spec;

verus! {

/// Milliseconds between liveness probes.
pub const HEARTBEAT_INTERVAL_MS: u64 = 5000;

/// Seconds between liveness probes: the lookahead within which a token due
/// to lapse is renewed early.
pub const HEARTBEAT_INTERVAL_SECS: u64 = 5;

/// Milliseconds of unacknowledged silence after which the peer counts as
/// stalled and the connection is torn down.
pub const CLIENT_TIMEOUT_MS: u64 = 10000;

/// A typed inbound request.
pub enum Message {
    Login { username: String, password: String },
    Logout,
    RefreshToken { token: String },
}

/// The spec-level shape of an inbound request.
pub enum MessageV {
    Login { username: Seq<char>, password: Seq<char> },
    Logout,
    RefreshToken { token: Seq<char> },
}

impl View for Message {
    type V = MessageV;

    open spec fn view(&self) -> MessageV {
        match self {
            Message::Login { username, password } => MessageV::Login {
                username: username@,
                password: password@,
            },
            Message::Logout => MessageV::Logout,
            Message::RefreshToken { token } => MessageV::RefreshToken { token: token@ },
        }
    }
}

/// The payload of a `Success` or `Registered` response: the fresh token and
/// its expiry instant.
pub struct AuthSuccess {
    pub token: String,
    pub expires_at: u64,
}

impl View for AuthSuccess {
    type V = (Seq<char>, u64);

    open spec fn view(&self) -> (Seq<char>, u64) {
        (self.token@, self.expires_at)
    }
}

/// A typed outbound response.
pub enum Response {
    InvalidRequest,
    InvalidToken,
    Success(AuthSuccess),
    Registered(AuthSuccess),
    InvalidPassword,
    LoggedOut,
    NotLoggedIn,
    AlreadyAuthorized { username: String },
}

/// The spec-level shape of an outbound response.
pub enum ResponseV {
    InvalidRequest,
    InvalidToken,
    Success { token: Seq<char>, expires_at: u64 },
    Registered { token: Seq<char>, expires_at: u64 },
    InvalidPassword,
    LoggedOut,
    NotLoggedIn,
    AlreadyAuthorized { username: Seq<char> },
}

impl View for Response {
    type V = ResponseV;

    open spec fn view(&self) -> ResponseV {
        match self {
            Response::InvalidRequest => ResponseV::InvalidRequest,
            Response::InvalidToken => ResponseV::InvalidToken,
            Response::Success(s) => ResponseV::Success { token: s.token@, expires_at: s.expires_at },
            Response::Registered(s) => ResponseV::Registered {
                token: s.token@,
                expires_at: s.expires_at,
            },
            Response::InvalidPassword => ResponseV::InvalidPassword,
            Response::LoggedOut => ResponseV::LoggedOut,
            Response::NotLoggedIn => ResponseV::NotLoggedIn,
            Response::AlreadyAuthorized { username } => ResponseV::AlreadyAuthorized {
                username: username@,
            },
        }
    }
}

/// One transition of the state machine: from the users map, the session
/// claims and a request at instant `now`, to the next users map, the next
/// claims and the response.
///
/// Refresh is state-agnostic on purpose: the token, not the in-memory
/// session, is the portable proof of identity. A login while authenticated
/// surfaces the existing identity instead of overwriting it.
pub open spec fn step(
    users: Map<Seq<char>, Seq<char>>,
    claims: Option<(Seq<char>, u64)>,
    m: MessageV,
    now: u64,
) -> (Map<Seq<char>, Seq<char>>, Option<(Seq<char>, u64)>, ResponseV) {
    match m {
        MessageV::RefreshToken { token } => match validate_spec(jwt_claims(token), now) {
            Some(se) => (
                users,
                Some((se.0, expiry_spec(now))),
                ResponseV::Success {
                    token: jwt_of(se.0, expiry_spec(now)),
                    expires_at: expiry_spec(now),
                },
            ),
            None => (users, claims, ResponseV::InvalidToken),
        },
        MessageV::Logout => match claims {
            Some(c) => (users, None, ResponseV::LoggedOut),
            None => (users, None, ResponseV::NotLoggedIn),
        },
        MessageV::Login { username, password } => match claims {
            Some(c) => (users, claims, ResponseV::AlreadyAuthorized { username: c.0 }),
            None => if !users.contains_key(username) {
                (
                    users.insert(username, password),
                    Some((username, expiry_spec(now))),
                    ResponseV::Registered {
                        token: jwt_of(username, expiry_spec(now)),
                        expires_at: expiry_spec(now),
                    },
                )
            } else if users[username] == password {
                (
                    users,
                    Some((username, expiry_spec(now))),
                    ResponseV::Success {
                        token: jwt_of(username, expiry_spec(now)),
                        expires_at: expiry_spec(now),
                    },
                )
            } else {
                (users, None, ResponseV::InvalidPassword)
            },
        },
    }
}

/// Whether a token with expiry `exp` would lapse before the next probe: its
/// remaining life at `now` is under the probe interval.
pub open spec fn renew_due(exp: u64, now: u64) -> bool {
    expiry_spec(now) - exp > TOKEN_EXPIRATION_TIMEOUT_SECS - HEARTBEAT_INTERVAL_SECS
}

/// What one liveness-timer firing decides.
pub enum HeartbeatAction {
    /// The peer is stalled: tear the connection down.
    Disconnect,
    /// Probe the peer; `renewal` carries an unsolicited renewed token when
    /// the current one would lapse before the next probe.
    Probe { renewal: Option<AuthSuccess> },
}

/// The spec-level shape of a liveness decision.
pub enum HeartbeatActionV {
    Disconnect,
    Probe { renewal: Option<(Seq<char>, u64)> },
}

impl View for HeartbeatAction {
    type V = HeartbeatActionV;

    open spec fn view(&self) -> HeartbeatActionV {
        match self {
            HeartbeatAction::Disconnect => HeartbeatActionV::Disconnect,
            HeartbeatAction::Probe { renewal } => HeartbeatActionV::Probe {
                renewal: match renewal {
                    Some(s) => Some((s.token@, s.expires_at)),
                    None => None,
                },
            },
        }
    }
}

/// One liveness-timer firing: from the session claims, the last liveness
/// acknowledgment `hb` and the two clocks, to the next claims and the
/// decision.
pub open spec fn tick_spec(
    claims: Option<(Seq<char>, u64)>,
    hb: u64,
    now_ms: u64,
    now: u64,
) -> (Option<(Seq<char>, u64)>, HeartbeatActionV) {
    if now_ms - hb > CLIENT_TIMEOUT_MS {
        (claims, HeartbeatActionV::Disconnect)
    } else {
        match claims {
            Some(c) => if renew_due(c.1, now) {
                (
                    Some((c.0, expiry_spec(now))),
                    HeartbeatActionV::Probe {
                        renewal: Some((jwt_of(c.0, expiry_spec(now)), expiry_spec(now))),
                    },
                )
            } else {
                (claims, HeartbeatActionV::Probe { renewal: None })
            },
            None => (claims, HeartbeatActionV::Probe { renewal: None }),
        }
    }
}

/// One connection's session: the credential store it consults, the
/// last-observed-liveness instant `hb` (milliseconds), and the
/// authentication state: `None` is anonymous, `Some(claims)` is
/// authenticated as that subject until that expiry.
pub struct Auth {
    pub users: CredentialStore,
    pub hb: u64,
    pub claims: Option<Claims>,
}

impl Auth {
    /// The session's authentication state, as the spec sees it.
    pub open spec fn claims_v(&self) -> Option<(Seq<char>, u64)> {
        match self.claims {
            Some(c) => Some((c.sub@, c.exp)),
            None => None,
        }
    }

    /// A fresh session over the given store: anonymous, with liveness last
    /// observed at `now_ms`.
    pub fn new(users: CredentialStore, now_ms: u64) -> (r: Auth)
        ensures
            r.users@ == users@,
            r.hb == now_ms,
            r.claims_v() is None,
    {
        Auth { users, claims: None, hb: now_ms }
    }

    /// Note a liveness acknowledgment from the peer at instant `now_ms`.
    pub fn record_liveness(&mut self, now_ms: u64)
        ensures
            final(self).hb == now_ms,
            final(self).users@ == old(self).users@,
            final(self).claims_v() == old(self).claims_v(),
    {
        self.hb = now_ms;
    }

    /// Process one typed request at instant `now`: exactly one [`step`] of
    /// the state machine, leaving the liveness instant alone.
    pub fn handle_request(&mut self, message: Message, now: u64) -> (r: Response)
        ensures
            (final(self).users@, final(self).claims_v(), r@) == step(
                old(self).users@,
                old(self).claims_v(),
                message@,
                now,
            ),
            final(self).hb == old(self).hb,
    {
        match message {
            Message::RefreshToken { token } => match validate(token.as_str(), now) {
                Ok(c) => {
                    let tr = issue(c.sub.as_str(), now);
                    let exp = tr.claims.exp;
                    self.claims = Some(tr.claims);
                    Response::Success(AuthSuccess { token: tr.token, expires_at: exp })
                },
                Err(_) => Response::InvalidToken,
            },
            Message::Logout => {
                if self.claims.is_some() {
                    self.claims = None;
                    Response::LoggedOut
                } else {
                    Response::NotLoggedIn
                }
            },
            Message::Login { username, password } => match &self.claims {
                Some(c) => Response::AlreadyAuthorized { username: c.sub.clone() },
                None => match self.users.register_or_verify(username.as_str(), password.as_str()) {
                    RegisterOutcome::Mismatch => Response::InvalidPassword,
                    outcome => {
                        let tr = issue(username.as_str(), now);
                        let exp = tr.claims.exp;
                        self.claims = Some(tr.claims);
                        let success = AuthSuccess { token: tr.token, expires_at: exp };
                        if outcome == RegisterOutcome::Created {
                            Response::Registered(success)
                        } else {
                            Response::Success(success)
                        }
                    },
                },
            },
        }
    }

    /// One firing of the recurring liveness timer: decide between tearing
    /// the connection down (stalled peer) and probing, renewing the token
    /// early when it would lapse before the next probe. `now_ms` is the
    /// probe clock, `now` the token clock in seconds.
    pub fn heartbeat_tick(&mut self, now_ms: u64, now: u64) -> (r: HeartbeatAction)
        ensures
            final(self).users@ == old(self).users@,
            final(self).hb == old(self).hb,
            (final(self).claims_v(), r@) == tick_spec(
                old(self).claims_v(),
                old(self).hb,
                now_ms,
                now,
            ),
    {
        let elapsed = if now_ms >= self.hb {
            now_ms - self.hb
        } else {
            0
        };
        if elapsed > CLIENT_TIMEOUT_MS {
            return HeartbeatAction::Disconnect;
        }
        let (do_renew, sub) = match &self.claims {
            Some(c) => {
                let fresh = generate_exp(now);
                let due = fresh >= c.exp && fresh - c.exp > TOKEN_EXPIRATION_TIMEOUT_SECS
                    - HEARTBEAT_INTERVAL_SECS;
                (due, if due {
                    c.sub.clone()
                } else {
                    String::new()
                })
            },
            None => (false, String::new()),
        };
        if do_renew {
            let tr = issue(sub.as_str(), now);
            let exp = tr.claims.exp;
            self.claims = Some(tr.claims);
            HeartbeatAction::Probe { renewal: Some(AuthSuccess { token: tr.token, expires_at: exp }) }
        } else {
            HeartbeatAction::Probe { renewal: None }
        }
    }
}

/// What one raw inbound frame does to a session at instant `now`: decode,
/// one [`step`] of the state machine, encode. A frame that decodes to
/// nothing draws the `InvalidRequest` wire text and changes nothing.
pub open spec fn handle_spec(
    users: Map<Seq<char>, Seq<char>>,
    claims: Option<(Seq<char>, u64)>,
    input: Seq<char>,
    now: u64,
) -> (Map<Seq<char>, Seq<char>>, Option<(Seq<char>, u64)>, Seq<char>) {
    match decode_spec(input) {
        Some(m) => {
            let (users2, claims2, resp) = step(users, claims, m, now);
            (users2, claims2, encode_spec(resp))
        },
        None => (users, claims, encode_spec(ResponseV::InvalidRequest)),
    }
}

impl Auth {
    /// Handle one raw inbound text frame at instant `now`: exactly
    /// [`handle_spec`] of the session's state and the frame. Malformed
    /// input is data, not an exceptional condition: it draws
    /// `InvalidRequest` and changes nothing.
    pub fn handle_message_at(&mut self, input: &str, now: u64) -> (r: String)
        ensures
            (final(self).users@, final(self).claims_v(), r@) == handle_spec(
                old(self).users@,
                old(self).claims_v(),
                input@,
                now,
            ),
            final(self).hb == old(self).hb,
    {
        match decode_message(input) {
            Some(m) => {
                let resp = self.handle_request(m, now);
                encode_response(&resp)
            },
            None => encode_response(&Response::InvalidRequest),
        }
    }
}

/// The handler an external transport hands raw inbound text frames to,
/// taking the raw reply back.
pub trait MessageHandler {
    fn handle_message(&mut self, string: String) -> String;
}

impl MessageHandler for Auth {
    /// One frame at the machine clock's current instant: the behaviour is
    /// [`Auth::handle_message_at`] at whatever instant the clock read.
    fn handle_message(&mut self, string: String) -> (r: String)
        ensures
            exists|now: u64| #![auto]
                (final(self).users@, final(self).claims_v(), r@) == handle_spec(
                    old(self).users@,
                    old(self).claims_v(),
                    string@,
                    now,
                ),
    {
        let now = now_secs();
        self.handle_message_at(string.as_str(), now)
    }
}

/// Rejection is idempotent and effect-free: a malformed payload draws the
/// `InvalidRequest` wire text and leaves both the store and the session
/// unchanged, however often it is replayed.
pub proof fn lemma_malformed_rejected(
    users: Map<Seq<char>, Seq<char>>,
    claims: Option<(Seq<char>, u64)>,
    input: Seq<char>,
    now: u64,
)
    requires
        decode_spec(input) is None,
    ensures
        handle_spec(users, claims, input, now) == (
            users,
            claims,
            encode_spec(ResponseV::InvalidRequest),
        ),
{
}

/// Auto-registration: a login for an unknown username from an anonymous
/// session yields `Registered`, and afterwards the store maps the username
/// to exactly the password sent.
pub proof fn lemma_login_unknown_registers(
    users: Map<Seq<char>, Seq<char>>,
    u: Seq<char>,
    p: Seq<char>,
    now: u64,
)
    requires
        !users.contains_key(u),
    ensures
        ({
            let (users2, claims2, resp) = step(
                users,
                None,
                MessageV::Login { username: u, password: p },
                now,
            );
            &&& resp == (ResponseV::Registered {
                token: jwt_of(u, expiry_spec(now)),
                expires_at: expiry_spec(now),
            })
            &&& users2.contains_key(u)
            &&& users2[u] == p
            &&& claims2 == Some((u, expiry_spec(now)))
        }),
{
}

/// A known pair: a login from an anonymous session with the stored password
/// yields `Success`, never `Registered` again, and leaves the store
/// unchanged — so it can be repeated from fresh sessions indefinitely.
pub proof fn lemma_login_known_succeeds(
    users: Map<Seq<char>, Seq<char>>,
    u: Seq<char>,
    p: Seq<char>,
    now: u64,
)
    requires
        users.contains_key(u),
        users[u] == p,
    ensures
        ({
            let (users2, claims2, resp) = step(
                users,
                None,
                MessageV::Login { username: u, password: p },
                now,
            );
            &&& resp == (ResponseV::Success {
                token: jwt_of(u, expiry_spec(now)),
                expires_at: expiry_spec(now),
            })
            &&& users2 == users
            &&& claims2 == Some((u, expiry_spec(now)))
        }),
{
}

/// A wrong password for a known username yields `InvalidPassword` and
/// mutates nothing: the stored password and the session state stay.
pub proof fn lemma_login_wrong_password(
    users: Map<Seq<char>, Seq<char>>,
    u: Seq<char>,
    p: Seq<char>,
    now: u64,
)
    requires
        users.contains_key(u),
        users[u] != p,
    ensures
        ({
            let (users2, claims2, resp) = step(
                users,
                None,
                MessageV::Login { username: u, password: p },
                now,
            );
            &&& resp == ResponseV::InvalidPassword
            &&& users2 == users
            &&& users2[u] == users[u]
            &&& claims2 is None
        }),
{
}

/// Single registration: when two first-time logins for the same unknown
/// username run one after the other, in whichever order they landed, exactly
/// the first wins `Registered`; the second observes the just-registered
/// password and yields `Success` or `InvalidPassword`, and the stored
/// password stays the first one's.
pub proof fn lemma_single_registration(
    users: Map<Seq<char>, Seq<char>>,
    u: Seq<char>,
    p1: Seq<char>,
    p2: Seq<char>,
    t1: u64,
    t2: u64,
)
    requires
        !users.contains_key(u),
    ensures
        ({
            let (users1, claims1, resp1) = step(
                users,
                None,
                MessageV::Login { username: u, password: p1 },
                t1,
            );
            let (users2, claims2, resp2) = step(
                users1,
                None,
                MessageV::Login { username: u, password: p2 },
                t2,
            );
            &&& resp1 matches ResponseV::Registered { .. }
            &&& !(resp2 matches ResponseV::Registered { .. })
            &&& (p2 == p1 ==> resp2 matches ResponseV::Success { .. })
            &&& (p2 != p1 ==> resp2 == ResponseV::InvalidPassword)
            &&& users2.contains_key(u)
            &&& users2[u] == p1
        }),
{
}

/// Renewal extends expiry: when a probe decides to renew, the renewed
/// token's expiry is strictly later than the one it replaces.
pub proof fn lemma_renewal_extends_expiry(exp: u64, now: u64)
    requires
        renew_due(exp, now),
    ensures
        expiry_spec(now) > exp,
{
}

/// An acknowledged, authenticated, idle connection is kept authenticated:
/// when its token would lapse before the next probe, the tick pushes an
/// unsolicited renewal with a strictly later expiry, without any new login.
pub proof fn lemma_tick_renews_before_lapse(c: (Seq<char>, u64), hb: u64, now_ms: u64, now: u64)
    requires
        now_ms - hb <= CLIENT_TIMEOUT_MS,
        renew_due(c.1, now),
    ensures
        ({
            let (claims2, act) = tick_spec(Some(c), hb, now_ms, now);
            &&& act == (HeartbeatActionV::Probe {
                renewal: Some((jwt_of(c.0, expiry_spec(now)), expiry_spec(now))),
            })
            &&& claims2 == Some((c.0, expiry_spec(now)))
            &&& expiry_spec(now) > c.1
        }),
{
}

} // verus!
