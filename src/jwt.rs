//! The token codec: configuration, issuance and verification of signed
//! tokens. Signing, signature checking and the compact token format are
//! jsonwebtoken's (HMAC-SHA256); the claims, the whole acceptance policy
//! (required claims, expiry, issuer, audience, subject) and the principal
//! are this crate's own.

use crate::claims::{
    accept_entries, acceptance, claim_key, claims_entries, claims_of, find_claim,
    lemma_missing_claim_refused, ClaimName, distinct_keys, entries_view, expiry_of,
    issued_claims, lemma_claims_entries, lemma_same_claims_same_acceptance, same_claims,
    ClaimData, ClaimValue, Claims, DecodeError,
};
use crate::principal::{free_of_separator, Principal};
use jsonwebtoken::errors::ErrorKind;
use jsonwebtoken::{Algorithm, DecodingKey, EncodingKey, Header, Validation};
use serde_json::{Map as JsonObject, Value};
use vstd::prelude::*;
use vstd::string::*;

verus! {

#[verifier::external_type_specification]
#[verifier::external_body]
pub struct ExJwtError(jsonwebtoken::errors::Error);

/// The secret used where none is configured. It is publicly known: a codec
/// built on it is fit for development only.
pub const DEFAULT_SECRET: &'static str = "secret";

/// Settings of a token codec, fixed when the codec is built.
#[derive(Debug, Clone)]
pub struct JwtConfig {
    /// Symmetric signing and verification secret.
    pub secret: String,
    /// Intended consumer of the tokens.
    pub audience: String,
    /// Entity that mints the tokens.
    pub issuer: String,
    /// Lifetime of a token, in seconds.
    pub expiration: u64,
}

impl Default for JwtConfig {
    /// The development defaults: the public secret `"secret"`, audience
    /// `"audience"`, issuer `"issuer"` and a lifetime of one hour.
    fn default() -> (r: Self)
        ensures
            r.secret@ == DEFAULT_SECRET@,
            r.audience@ == "audience"@,
            r.issuer@ == "issuer"@,
            r.expiration == 3600,
    {
        JwtConfig {
            secret: String::from_str(DEFAULT_SECRET),
            audience: String::from_str("audience"),
            issuer: String::from_str("issuer"),
            expiration: 60 * 60,
        }
    }
}

impl JwtConfig {
    /// Whether these settings sign with the publicly known default secret.
    pub fn uses_default_secret(&self) -> (r: bool)
        ensures
            r == (self.secret@ == DEFAULT_SECRET@),
    {
        self.secret == String::from_str(DEFAULT_SECRET)
    }
}

/// Why the token library refused a token: its signature does not match,
/// or anything else (form, encoding, header, algorithm, payload).
#[derive(Clone, Copy, Debug, PartialEq, Eq, Structural)]
pub enum JwtFailure {
    InvalidSignature,
    Other,
}

/// The refusal that a failure of the token library amounts to.
pub open spec fn error_of_failure(f: JwtFailure) -> DecodeError {
    match f {
        JwtFailure::InvalidSignature => DecodeError::BadSignature,
        JwtFailure::Other => DecodeError::Malformed,
    }
}

impl DecodeError {
    /// The refusal that a failure of the token library amounts to.
    pub fn from_failure(f: JwtFailure) -> (r: DecodeError)
        ensures
            r == error_of_failure(f),
    {
        match f {
            JwtFailure::InvalidSignature => DecodeError::BadSignature,
            JwtFailure::Other => DecodeError::Malformed,
        }
    }
}

/// Why a token could not be issued.
#[derive(Clone, Copy, Debug, PartialEq, Eq, Structural)]
pub enum EncodeError {
    /// The system clock reads before the Unix epoch.
    ClockUnavailable,
}

/// The compact HS256 token that signs a JSON object holding `entries`
/// with `secret`.
pub uninterp spec fn hs256_token(secret: Seq<char>, entries: Seq<(Seq<char>, ClaimData)>) -> Seq<char>;

/// What reading `token` as an HS256 token signed with `secret` gives: the
/// entries of its JSON payload, or why it is refused.
pub uninterp spec fn hs256_decoded(token: Seq<char>, secret: Seq<char>) -> Result<
    Seq<(Seq<char>, ClaimData)>,
    JwtFailure,
>;

/// `u` is `t` with one character after the last `.` of `t` changed to
/// another character that is not `.`.
pub open spec fn tampered_signature(t: Seq<char>, u: Seq<char>) -> bool {
    u.len() == t.len() && exists|i: int|
        0 <= i < t.len() && u[i] != t[i] && u[i] != '.' && (exists|d: int| 0 <= d < i && t[d] == '.')
            && (forall|j: int| i <= j < t.len() ==> t[j] != '.') && (forall|j: int|
            0 <= j < t.len() && j != i ==> u[j] == t[j])
}

/// `t`, where the keys of `entries` are distinct, reads back under `secret`
/// with the same value under each key as `entries`.
pub open spec fn reads_back(t: Seq<char>, secret: Seq<char>, entries: Seq<(Seq<char>, ClaimData)>) -> bool {
    distinct_keys(entries) ==> (hs256_decoded(t, secret) matches Ok(d) && same_claims(d, entries))
}

/// A successful reading that gives `e`.
pub open spec fn read_ok(e: Seq<(Seq<char>, ClaimData)>) -> Result<Seq<(Seq<char>, ClaimData)>, JwtFailure> {
    Ok(e)
}

/// A reading refused for `f`.
pub open spec fn read_err(f: JwtFailure) -> Result<Seq<(Seq<char>, ClaimData)>, JwtFailure> {
    Err(f)
}

/// `r` is a refusal for the signature wherever `token` is a token signed
/// with `secret` whose signature was changed.
pub open spec fn refuses_tampered(r: Result<Vec<(String, ClaimValue)>, JwtFailure>, token: Seq<char>, secret: Seq<char>) -> bool {
    forall|e: Seq<(Seq<char>, ClaimData)>| #[trigger]
        tampered_signature(hs256_token(secret, e), token) ==> (r matches Err(f) && f
            == JwtFailure::InvalidSignature)
}

/// Relies on std's SystemTime::now and duration_since(UNIX_EPOCH): the
/// current time in whole seconds, `None` where the clock reads before the
/// epoch. Nothing is assumed of its value.
#[verifier::external_body]
fn clock_seconds() -> (r: Option<u64>) {
    std::time::SystemTime::now().duration_since(std::time::UNIX_EPOCH).ok().map(|d| d.as_secs())
}

/// Relies on xid::new and its Display: a fresh identifier, written as
/// 20 characters. xid reads the clock and panics where it reads before the
/// epoch, so it is only called once `clock_seconds` has given a time.
#[verifier::external_body]
fn new_token_id() -> (r: String)
    ensures
        r@.len() == 20,
{
    xid::new().to_string()
}

/// Relies on jsonwebtoken::encode with an HS256 header and
/// EncodingKey::from_secret: HMAC signing cannot fail, and the token reads
/// back, under the same secret, as an object with the same value under
/// each key.
#[verifier::external_body]
fn sign_entries(secret: &str, entries: &Vec<(String, ClaimValue)>) -> (r: Result<String, jsonwebtoken::errors::Error>)
    ensures
        r is Ok,
        r matches Ok(t) ==> t@ == hs256_token(secret@, entries_view(entries@)),
        r matches Ok(t) ==> reads_back(t@, secret@, entries_view(entries@)),
{
    let object: JsonObject<String, Value> = entries.iter().map(|(k, v)| {
        let value = match v {
            ClaimValue::Text(s) => Value::from(s.as_str()),
            ClaimValue::Integer(n) => Value::from(*n),
            ClaimValue::Other => Value::Null,
        };
        (k.clone(), value)
    }).collect();
    let key = EncodingKey::from_secret(secret.as_bytes());
    jsonwebtoken::encode(&Header::new(Algorithm::HS256), &object, &key)
}

/// Relies on jsonwebtoken::decode with DecodingKey::from_secret and a
/// Validation for HS256 that checks nothing but form and signature: the
/// result depends on the token and the secret alone, and a token whose
/// signature was changed is refused for its signature.
#[verifier::external_body]
fn decode_entries(token: &str, secret: &str) -> (r: Result<Vec<(String, ClaimValue)>, JwtFailure>)
    ensures
        r matches Ok(v) ==> hs256_decoded(token@, secret@) == read_ok(entries_view(v@)),
        r matches Err(f) ==> hs256_decoded(token@, secret@) == read_err(f),
        refuses_tampered(r, token@, secret@),
{
    let mut v = Validation::new(Algorithm::HS256);
    v.validate_exp = false;
    v.validate_aud = false;
    v.required_spec_claims.clear();
    let key = DecodingKey::from_secret(secret.as_bytes());
    let data = jsonwebtoken::decode::<JsonObject<String, Value>>(token, &key, &v)
        .map_err(|e| match e.kind() {
            ErrorKind::InvalidSignature => JwtFailure::InvalidSignature,
            _ => JwtFailure::Other,
        })?;
    Ok(data.claims.into_iter().map(|(k, v)| (k, match v {
        Value::String(s) => ClaimValue::Text(s),
        Value::Number(n) => n.as_u64().map_or(ClaimValue::Other, ClaimValue::Integer),
        _ => ClaimValue::Other,
    })).collect())
}

/// A token codec: signs tokens for principals and reads them back, bound
/// to one secret, one audience, one issuer and one lifetime.
pub struct JWT {
    secret: String,
    expiration: u64,
    audience: String,
    issuer: String,
}

/// What a codec is bound to: secret, audience, issuer and lifetime in
/// seconds.
pub struct JwtView {
    pub secret: Seq<char>,
    pub audience: Seq<char>,
    pub issuer: Seq<char>,
    pub expiration: u64,
}

impl View for JWT {
    type V = JwtView;

    closed spec fn view(&self) -> JwtView {
        JwtView {
            secret: self.secret@,
            audience: self.audience@,
            issuer: self.issuer@,
            expiration: self.expiration,
        }
    }
}

/// What a codec bound to `v` makes of `token` at time `now`: the token
/// library's refusal, or the policy's verdict on the payload it read.
pub open spec fn decode_result(v: JwtView, token: Seq<char>, now: u64) -> Result<
    (Seq<char>, Seq<char>),
    DecodeError,
> {
    match hs256_decoded(token, v.secret) {
        Err(f) => Err(error_of_failure(f)),
        Ok(e) => acceptance(e, v.audience, v.issuer, now),
    }
}

/// `r` is the outcome `o`: the principal `(id, name)`, or the refusal.
pub open spec fn is_outcome(r: Result<Principal, DecodeError>, o: Result<(Seq<char>, Seq<char>), DecodeError>) -> bool {
    match o {
        Ok(p) => r matches Ok(x) && x@ == p,
        Err(e) => r == Err::<Principal, DecodeError>(e),
    }
}

/// `token` is the token a codec bound to `v` issues for principal `p` at
/// time `now` under identifier `jti`, and it reads back as those claims.
pub open spec fn issued_token(
    v: JwtView,
    token: Seq<char>,
    jti: Seq<char>,
    p: (Seq<char>, Seq<char>),
    now: u64,
) -> bool {
    let e = claims_entries(issued_claims(jti, p, v.audience, v.issuer, now, v.expiration));
    token == hs256_token(v.secret, e) && (hs256_decoded(token, v.secret) matches Ok(d) && same_claims(d, e))
}

impl JWT {
    /// A codec for the given settings.
    pub fn new(config: JwtConfig) -> (r: Self)
        ensures
            r@.secret == config.secret@,
            r@.audience == config.audience@,
            r@.issuer == config.issuer@,
            r@.expiration == config.expiration,
    {
        JWT {
            secret: config.secret,
            expiration: config.expiration,
            audience: config.audience,
            issuer: config.issuer,
        }
    }

    /// The claims this codec issues for `principal` at time `now` under the
    /// token identifier `jti`.
    pub fn claims_for(&self, principal: &Principal, jti: String, now: u64) -> (r: Claims)
        ensures
            r@ == issued_claims(
                jti@,
                principal@,
                self@.audience,
                self@.issuer,
                now,
                self@.expiration,
            ),
            free_of_separator(principal@.0),
    {
        Claims::issue(principal, jti, &self.audience, &self.issuer, now, self.expiration)
    }

    /// The token this codec issues for `principal` at time `now` under the
    /// token identifier `jti`.
    pub fn encode_with_id(&self, principal: &Principal, jti: String, now: u64) -> (r: String)
        ensures
            issued_token(self@, r@, jti@, principal@, now),
            free_of_separator(principal@.0),
    {
        let claims = self.claims_for(principal, jti, now);
        let entries = claims.to_entries();
        proof {
            lemma_claims_entries(claims@);
        }
        let r = sign_entries(self.secret.as_str(), &entries);
        r.unwrap()
    }

    /// Issues a token for `principal` as of the current time, under a fresh
    /// 20-character identifier; fails only where the clock reads before the
    /// epoch.
    pub fn encode(&self, principal: Principal) -> (r: Result<String, EncodeError>)
        ensures
            match r {
                Ok(t) => exists|jti: Seq<char>, now: u64|
                    jti.len() == 20 && #[trigger] issued_token(self@, t@, jti, principal@, now),
                Err(e) => e == EncodeError::ClockUnavailable,
            },
    {
        match clock_seconds() {
            None => Err(EncodeError::ClockUnavailable),
            Some(now) => {
                let jti = new_token_id();
                let ghost j = jti@;
                let t = self.encode_with_id(&principal, jti, now);
                assert(j.len() == 20 && issued_token(self@, t@, j, principal@, now));
                let r: Result<String, EncodeError> = Ok(t);
                assert(r matches Ok(x) && x@ == t@);
                assert(exists|jti: Seq<char>, w: u64|
                    jti.len() == 20 && #[trigger] issued_token(self@, t@, jti, principal@, w));
                r
            },
        }
    }

    /// Reads a token back into its principal as of time `now`: the token
    /// library's refusal where it refuses the token, else the policy's
    /// verdict on its payload.
    pub fn decode_at(&self, token: &str, now: u64) -> (r: Result<Principal, DecodeError>)
        ensures
            is_outcome(r, decode_result(self@, token@, now)),
            forall|e: Seq<(Seq<char>, ClaimData)>| #[trigger]
                tampered_signature(hs256_token(self@.secret, e), token@) ==> r == Err::<
                    Principal,
                    DecodeError,
                >(DecodeError::BadSignature),
    {
        match decode_entries(token, self.secret.as_str()) {
            Err(f) => Err(DecodeError::from_failure(f)),
            Ok(entries) => accept_entries(&entries, &self.audience, &self.issuer, now),
        }
    }

    /// Reads a token back into its principal as of the current time; fails
    /// with `ClockUnavailable` where the clock reads before the epoch.
    pub fn decode(&self, token: &str) -> (r: Result<Principal, DecodeError>)
        ensures
            r == Err::<Principal, DecodeError>(DecodeError::ClockUnavailable) || exists|now: u64|
                is_outcome(r, #[trigger] decode_result(self@, token@, now)),
    {
        match clock_seconds() {
            None => Err(DecodeError::ClockUnavailable),
            Some(now) => {
                let r = self.decode_at(token, now);
                assert(is_outcome(r, decode_result(self@, token@, now)));
                r
            },
        }
    }
}

impl Default for JWT {
    /// A codec on the development defaults of `JwtConfig`.
    fn default() -> (r: Self)
        ensures
            r@.secret == DEFAULT_SECRET@,
            r@.audience == "audience"@,
            r@.issuer == "issuer"@,
            r@.expiration == 3600,
    {
        JWT::new(JwtConfig::default())
    }
}

/// A token issued for a principal reads back, under the same codec, as that
/// principal at every moment from issuance until just before expiry.
pub proof fn lemma_token_round_trip(
    v: JwtView,
    token: Seq<char>,
    jti: Seq<char>,
    p: (Seq<char>, Seq<char>),
    now: u64,
    t: u64,
)
    requires
        issued_token(v, token, jti, p, now),
        free_of_separator(p.0),
        now <= t < expiry_of(now, v.expiration),
    ensures
        decode_result(v, token, t) == Ok::<(Seq<char>, Seq<char>), DecodeError>(p),
{
    let e = claims_entries(issued_claims(jti, p, v.audience, v.issuer, now, v.expiration));
    let d = hs256_decoded(token, v.secret)->Ok_0;
    lemma_same_claims_same_acceptance(d, e, v.audience, v.issuer, t);
    lemma_claims_entries(issued_claims(jti, p, v.audience, v.issuer, now, v.expiration));
    crate::claims::lemma_issued_claims_accepted(e, jti, p, v.audience, v.issuer, now, v.expiration, t);
}

/// A token issued at `now` is refused as expired at every time `t` with
/// `t >= now + lifetime`.
pub proof fn lemma_token_expires(
    v: JwtView,
    token: Seq<char>,
    jti: Seq<char>,
    p: (Seq<char>, Seq<char>),
    now: u64,
    t: u64,
)
    requires
        issued_token(v, token, jti, p, now),
        t >= now + v.expiration,
    ensures
        decode_result(v, token, t) == Err::<(Seq<char>, Seq<char>), DecodeError>(
            DecodeError::Expired,
        ),
{
    let e = claims_entries(issued_claims(jti, p, v.audience, v.issuer, now, v.expiration));
    let d = hs256_decoded(token, v.secret)->Ok_0;
    lemma_same_claims_same_acceptance(d, e, v.audience, v.issuer, t);
    lemma_claims_entries(issued_claims(jti, p, v.audience, v.issuer, now, v.expiration));
}

/// A token issued by codec `a` is refused, for its audience, by a codec `b`
/// that shares secret and issuer but is bound to another audience, at any
/// time before the token expires.
pub proof fn lemma_token_audience_binding(
    a: JwtView,
    b: JwtView,
    token: Seq<char>,
    jti: Seq<char>,
    p: (Seq<char>, Seq<char>),
    now: u64,
    t: u64,
)
    requires
        issued_token(a, token, jti, p, now),
        b.secret == a.secret,
        b.issuer == a.issuer,
        b.audience != a.audience,
        t < expiry_of(now, a.expiration),
    ensures
        decode_result(b, token, t) == Err::<(Seq<char>, Seq<char>), DecodeError>(
            DecodeError::WrongAudience,
        ),
{
    let e = claims_entries(issued_claims(jti, p, a.audience, a.issuer, now, a.expiration));
    let d = hs256_decoded(token, a.secret)->Ok_0;
    lemma_same_claims_same_acceptance(d, e, b.audience, b.issuer, t);
    lemma_claims_entries(issued_claims(jti, p, a.audience, a.issuer, now, a.expiration));
}

/// A token whose payload lacks a claim is refused, at any time; the refusal
/// names the first absent claim in the order jti, sub, aud, iss, exp, iat.
pub proof fn lemma_token_missing_claim(v: JwtView, token: Seq<char>, n: ClaimName, t: u64)
    requires
        hs256_decoded(token, v.secret) matches Ok(e) && find_claim(e, claim_key(n)) is None,
    ensures
        decode_result(v, token, t) is Err,
        claims_of(hs256_decoded(token, v.secret)->Ok_0) == Err::<crate::claims::ClaimsView, ClaimName>(n)
            ==> decode_result(v, token, t) == Err::<(Seq<char>, Seq<char>), DecodeError>(
            DecodeError::MissingClaim(n),
        ),
{
    lemma_missing_claim_refused(hs256_decoded(token, v.secret)->Ok_0, n, v.audience, v.issuer, t);
}

} // verus!
