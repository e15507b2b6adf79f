//! The token service: minting and validating signed, expiring bearer tokens.
//!
//! A token binds a subject (username) to an absolute expiry instant, under a
//! signature over a process-wide secret. Tokens are opaque, self-contained
//! and stateless: there is no revocation list, so a logged-out but unexpired
//! token remains independently presentable via refresh.
//!
//! The signing and signature checking are done by the jsonwebtoken crate;
//! the expiry comparison is done here, against an instant the caller passes
//! in, so that validity is a function of the token and that instant alone.

use vstd::prelude::*;

verus! {

/// Seconds a freshly minted token lives.
pub const TOKEN_EXPIRATION_TIMEOUT_SECS: u64 = 20;

/// The claims a token binds: a subject and an expiry instant, in seconds
/// since the Unix epoch.
#[derive(Debug)]
pub struct Claims {
    pub sub: String,
    pub exp: u64,
}

impl View for Claims {
    type V = (Seq<char>, u64);

    open spec fn view(&self) -> (Seq<char>, u64) {
        (self.sub@, self.exp)
    }
}

/// A freshly minted token together with the claims it binds.
pub struct TokenResult {
    pub token: String,
    pub claims: Claims,
}

/// The one way token validation fails: a corrupt signature, a malformed
/// payload and an expired token all collapse into it.
#[derive(Clone, Copy, Debug, PartialEq, Eq, Structural)]
pub enum TokenError {
    Invalid,
}

/// The signed token text carrying subject `sub` and expiry `exp`. Named, not
/// written out: the text is whatever jsonwebtoken::encode produces.
pub uninterp spec fn jwt_of(sub: Seq<char>, exp: u64) -> Seq<char>;

/// The claims that signature checking recovers from token text `t`: subject
/// and expiry for a well-signed token, `None` otherwise. Named, not written
/// out: it stands for what jsonwebtoken::decode returns.
pub uninterp spec fn jwt_claims(t: Seq<char>) -> Option<(Seq<char>, u64)>;

/// The expiry instant of a token minted at `now`: `now` plus the fixed TTL,
/// saturating at the largest representable instant.
pub open spec fn expiry_spec(now: u64) -> u64 {
    if now + TOKEN_EXPIRATION_TIMEOUT_SECS > u64::MAX {
        u64::MAX
    } else {
        (now + TOKEN_EXPIRATION_TIMEOUT_SECS) as u64
    }
}

/// What validation at instant `now` yields from recovered claims `c`: the
/// claims exactly when they are present and their expiry is strictly in the
/// future.
pub open spec fn validate_spec(c: Option<(Seq<char>, u64)>, now: u64) -> Option<(Seq<char>, u64)> {
    match c {
        Some((s, e)) => if now < e {
            Some((s, e))
        } else {
            None
        },
        None => None,
    }
}

/// Relies on jsonwebtoken::encode with an HS256 key over the process-wide
/// secret: the token text is a deterministic function of subject and expiry,
/// and jsonwebtoken::decode over the same key recovers exactly these claims
/// from it.
#[verifier::external_body]
fn encode_token(sub: &str, exp: u64) -> (r: String)
    ensures
        r@ == jwt_of(sub@, exp),
        jwt_claims(r@) == Some((sub@, exp)),
{
    let mut claims = serde_json::Map::new();
    claims.insert("sub".to_string(), serde_json::Value::String(sub.to_string()));
    claims.insert("exp".to_string(), serde_json::Value::from(exp));
    jsonwebtoken::encode(
        &jsonwebtoken::Header::default(),
        &serde_json::Value::Object(claims),
        &jsonwebtoken::EncodingKey::from_secret("secret".as_ref()),
    ).unwrap()
}

/// Relies on jsonwebtoken::decode with the same HS256 key, with its own
/// expiry checking turned off: the result depends on the token text alone,
/// and is the token's subject and expiry exactly when the signature checks
/// out and both claims are present.
#[verifier::external_body]
fn decode_token(token: &str) -> (r: Option<(String, u64)>)
    ensures
        match r {
            Some(p) => jwt_claims(token@) == Some((p.0@, p.1)),
            None => jwt_claims(token@) is None,
        },
{
    let mut validation = jsonwebtoken::Validation::default();
    validation.validate_exp = false;
    validation.required_spec_claims.clear();
    let data = jsonwebtoken::decode::<serde_json::Value>(
        token,
        &jsonwebtoken::DecodingKey::from_secret("secret".as_ref()),
        &validation,
    );
    let claims = match data {
        Ok(d) => d.claims,
        Err(_) => return None,
    };
    let sub = claims.get("sub")?.as_str()?.to_string();
    let exp = claims.get("exp")?.as_u64()?;
    Some((sub, exp))
}

/// Relies on std::time::SystemTime: seconds since the Unix epoch by the
/// machine's clock, 0 when the clock reads before the epoch.
#[verifier::external_body]
pub(crate) fn now_secs() -> u64 {
    match std::time::SystemTime::now().duration_since(std::time::UNIX_EPOCH) {
        Ok(d) => d.as_secs(),
        Err(_) => 0,
    }
}

/// The expiry instant for a token minted at `now`.
pub fn generate_exp(now: u64) -> (r: u64)
    ensures
        r == expiry_spec(now),
{
    if now > u64::MAX - TOKEN_EXPIRATION_TIMEOUT_SECS {
        u64::MAX
    } else {
        now + TOKEN_EXPIRATION_TIMEOUT_SECS
    }
}

/// Mint a token for `username` at instant `now`. The expiry is computed once
/// here and never recomputed; refresh mints a brand-new token instead of
/// editing one.
pub fn issue(username: &str, now: u64) -> (r: TokenResult)
    ensures
        r.claims@ == (username@, expiry_spec(now)),
        r.token@ == jwt_of(username@, expiry_spec(now)),
        jwt_claims(r.token@) == Some((username@, expiry_spec(now))),
{
    let exp = generate_exp(now);
    let token = encode_token(username, exp);
    TokenResult { token, claims: Claims { sub: username.to_owned(), exp } }
}

/// Validate a token at instant `now`: the claims it binds when the signature
/// checks out and the expiry is strictly in the future, `TokenError::Invalid`
/// otherwise.
pub fn validate(token: &str, now: u64) -> (r: Result<Claims, TokenError>)
    ensures
        match r {
            Ok(c) => validate_spec(jwt_claims(token@), now) == Some(c@),
            Err(e) => e == TokenError::Invalid && validate_spec(jwt_claims(token@), now) is None,
        },
{
    match decode_token(token) {
        Some(p) => {
            let (sub, exp) = p;
            if now < exp {
                Ok(Claims { sub, exp })
            } else {
                Err(TokenError::Invalid)
            }
        },
        None => Err(TokenError::Invalid),
    }
}

/// Round trip: a token minted for subject `u` at instant `now` carries the
/// claims `(u, expiry_spec(now))`, and validating those claims at any
/// instant `at` before that expiry yields exactly `u` with the issued
/// expiry.
pub proof fn lemma_issue_validate_round_trip(u: Seq<char>, now: u64, at: u64)
    requires
        at < expiry_spec(now),
    ensures
        validate_spec(Some((u, expiry_spec(now))), at) == Some((u, expiry_spec(now))),
{
}

/// Expiry monotonicity: at any instant not strictly before the expiry the
/// claims carry, validation fails, regardless of how the claims were
/// recovered; and it fails on absent claims at every instant.
pub proof fn lemma_expired_token_always_fails(c: Option<(Seq<char>, u64)>, now: u64)
    requires
        c matches Some(se) ==> now >= se.1,
    ensures
        validate_spec(c, now) is None,
{
}

} // verus!
