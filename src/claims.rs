//! The signed payload of a token: six named claims, their exchange with a
//! flat list of JSON-like entries, and the policy a presented set of claims
//! must meet before its principal is trusted.

use crate::principal::{
    free_of_separator, lemma_subject_round_trip, split_subject, subject_of, Principal,
};
use vstd::prelude::*;
use vstd::string::*;

verus! {

/// The six claims that every token carries.
#[derive(Clone, Copy, Debug, PartialEq, Eq, Structural)]
pub enum ClaimName {
    Jti,
    Sub,
    Aud,
    Iss,
    Exp,
    Iat,
}

/// The value of one claim as it stands in the payload: a string, an
/// unsigned integer, or anything else.
#[derive(Debug, Clone)]
pub enum ClaimValue {
    Text(String),
    Integer(u64),
    Other,
}

/// The mathematical content of a claim value.
pub enum ClaimData {
    Text(Seq<char>),
    Integer(u64),
    Other,
}

impl View for ClaimValue {
    type V = ClaimData;

    open spec fn view(&self) -> ClaimData {
        match self {
            ClaimValue::Text(s) => ClaimData::Text(s@),
            ClaimValue::Integer(n) => ClaimData::Integer(*n),
            ClaimValue::Other => ClaimData::Other,
        }
    }
}

/// The content of a list of entries: each key with the content of its value.
pub open spec fn entries_view(e: Seq<(String, ClaimValue)>) -> Seq<(Seq<char>, ClaimData)> {
    Seq::new(e.len(), |i: int| (e[i].0@, e[i].1@))
}

/// No two entries share a key.
pub open spec fn distinct_keys(e: Seq<(Seq<char>, ClaimData)>) -> bool {
    forall|i: int, j: int| 0 <= i < j < e.len() ==> e[i].0 != e[j].0
}

/// Both lists give the same value (or none) under every key.
pub open spec fn same_claims(a: Seq<(Seq<char>, ClaimData)>, b: Seq<(Seq<char>, ClaimData)>) -> bool {
    forall|k: Seq<char>| #[trigger] find_claim(a, k) == find_claim(b, k)
}

/// The claims of one token.
#[derive(Debug, Clone)]
pub struct Claims {
    /// Unique token identifier.
    pub jti: String,
    /// The encoded principal, `id:name`.
    pub sub: String,
    /// Intended consumer.
    pub aud: String,
    /// Minting entity.
    pub iss: String,
    /// Expiry, in seconds since the epoch.
    pub exp: u64,
    /// Issuance, in seconds since the epoch.
    pub iat: u64,
}

/// The mathematical content of a set of claims.
pub struct ClaimsView {
    pub jti: Seq<char>,
    pub sub: Seq<char>,
    pub aud: Seq<char>,
    pub iss: Seq<char>,
    pub exp: u64,
    pub iat: u64,
}

impl View for Claims {
    type V = ClaimsView;

    open spec fn view(&self) -> ClaimsView {
        ClaimsView {
            jti: self.jti@,
            sub: self.sub@,
            aud: self.aud@,
            iss: self.iss@,
            exp: self.exp,
            iat: self.iat,
        }
    }
}

/// Why a presented token is refused.
#[derive(Clone, Copy, Debug, PartialEq, Eq, Structural)]
pub enum DecodeError {
    /// The token is not a well-formed signed token.
    Malformed,
    /// The signature does not match the payload.
    BadSignature,
    /// The token's expiry has passed.
    Expired,
    /// The token was issued for another audience.
    WrongAudience,
    /// The token was issued by another issuer.
    WrongIssuer,
    /// A required claim is absent or not of its type.
    MissingClaim(ClaimName),
    /// The subject does not split into an identifier and a name.
    MalformedSubject,
    /// The system clock reads before the Unix epoch.
    ClockUnavailable,
}

/// The key under which a claim stands in the payload.
pub open spec fn claim_key(n: ClaimName) -> Seq<char> {
    match n {
        ClaimName::Jti => seq!['j', 't', 'i'],
        ClaimName::Sub => seq!['s', 'u', 'b'],
        ClaimName::Aud => seq!['a', 'u', 'd'],
        ClaimName::Iss => seq!['i', 's', 's'],
        ClaimName::Exp => seq!['e', 'x', 'p'],
        ClaimName::Iat => seq!['i', 'a', 't'],
    }
}

/// The value of the first entry whose key is `key`.
pub open spec fn find_claim(entries: Seq<(Seq<char>, ClaimData)>, key: Seq<char>) -> Option<
    ClaimData,
>
    decreases entries.len(),
{
    if entries.len() == 0 {
        None
    } else if entries[0].0 == key {
        Some(entries[0].1)
    } else {
        find_claim(entries.skip(1), key)
    }
}

/// The claim `n` of `entries`, where it is a string.
pub open spec fn text_claim(entries: Seq<(Seq<char>, ClaimData)>, n: ClaimName) -> Option<Seq<char>> {
    match find_claim(entries, claim_key(n)) {
        Some(ClaimData::Text(s)) => Some(s),
        _ => None,
    }
}

/// The claim `n` of `entries`, where it is an unsigned integer.
pub open spec fn integer_claim(entries: Seq<(Seq<char>, ClaimData)>, n: ClaimName) -> Option<u64> {
    match find_claim(entries, claim_key(n)) {
        Some(ClaimData::Integer(v)) => Some(v),
        _ => None,
    }
}

/// The claims that `entries` hold, or the first of the six (in the order
/// jti, sub, aud, iss, exp, iat) that is absent or not of its type.
pub open spec fn claims_of(entries: Seq<(Seq<char>, ClaimData)>) -> Result<ClaimsView, ClaimName> {
    if text_claim(entries, ClaimName::Jti) is None {
        Err(ClaimName::Jti)
    } else if text_claim(entries, ClaimName::Sub) is None {
        Err(ClaimName::Sub)
    } else if text_claim(entries, ClaimName::Aud) is None {
        Err(ClaimName::Aud)
    } else if text_claim(entries, ClaimName::Iss) is None {
        Err(ClaimName::Iss)
    } else if integer_claim(entries, ClaimName::Exp) is None {
        Err(ClaimName::Exp)
    } else if integer_claim(entries, ClaimName::Iat) is None {
        Err(ClaimName::Iat)
    } else {
        Ok(
            ClaimsView {
                jti: text_claim(entries, ClaimName::Jti).unwrap(),
                sub: text_claim(entries, ClaimName::Sub).unwrap(),
                aud: text_claim(entries, ClaimName::Aud).unwrap(),
                iss: text_claim(entries, ClaimName::Iss).unwrap(),
                exp: integer_claim(entries, ClaimName::Exp).unwrap(),
                iat: integer_claim(entries, ClaimName::Iat).unwrap(),
            },
        )
    }
}

/// The entries that carry claims `c`, in the order jti, sub, aud, iss,
/// exp, iat.
pub open spec fn claims_entries(c: ClaimsView) -> Seq<(Seq<char>, ClaimData)> {
    seq![
        (claim_key(ClaimName::Jti), ClaimData::Text(c.jti)),
        (claim_key(ClaimName::Sub), ClaimData::Text(c.sub)),
        (claim_key(ClaimName::Aud), ClaimData::Text(c.aud)),
        (claim_key(ClaimName::Iss), ClaimData::Text(c.iss)),
        (claim_key(ClaimName::Exp), ClaimData::Integer(c.exp)),
        (claim_key(ClaimName::Iat), ClaimData::Integer(c.iat)),
    ]
}

/// `now + lifetime`, held at `u64::MAX` where the sum does not fit.
pub open spec fn expiry_of(now: u64, lifetime: u64) -> u64 {
    if now + lifetime > u64::MAX {
        u64::MAX
    } else {
        (now + lifetime) as u64
    }
}

/// The claims issued for principal `p` at time `now`.
pub open spec fn issued_claims(
    jti: Seq<char>,
    p: (Seq<char>, Seq<char>),
    aud: Seq<char>,
    iss: Seq<char>,
    now: u64,
    lifetime: u64,
) -> ClaimsView {
    ClaimsView {
        jti,
        sub: subject_of(p.0, p.1),
        aud,
        iss,
        exp: expiry_of(now, lifetime),
        iat: now,
    }
}

/// What the policy makes of claims `c` at time `now`, for a codec bound to
/// `audience` and `issuer`: the principal `(id, name)`, or why it is refused.
/// A token is expired from the second of its `exp` on.
pub open spec fn verdict(c: ClaimsView, audience: Seq<char>, issuer: Seq<char>, now: u64) -> Result<
    (Seq<char>, Seq<char>),
    DecodeError,
> {
    if now >= c.exp {
        Err(DecodeError::Expired)
    } else if c.iss != issuer {
        Err(DecodeError::WrongIssuer)
    } else if c.aud != audience {
        Err(DecodeError::WrongAudience)
    } else {
        match split_subject(c.sub) {
            Some(p) => Ok(p),
            None => Err(DecodeError::MalformedSubject),
        }
    }
}

/// What the policy makes of a decoded payload `entries` at time `now`.
pub open spec fn acceptance(
    entries: Seq<(Seq<char>, ClaimData)>,
    audience: Seq<char>,
    issuer: Seq<char>,
    now: u64,
) -> Result<(Seq<char>, Seq<char>), DecodeError> {
    match claims_of(entries) {
        Err(n) => Err(DecodeError::MissingClaim(n)),
        Ok(c) => verdict(c, audience, issuer, now),
    }
}

/// The key of claim `n`.
pub fn claim_key_str(n: ClaimName) -> (r: &'static str)
    ensures
        r@ == claim_key(n),
{
    proof {
        reveal_strlit("jti");
        reveal_strlit("sub");
        reveal_strlit("aud");
        reveal_strlit("iss");
        reveal_strlit("exp");
        reveal_strlit("iat");
    }
    match n {
        ClaimName::Jti => {
            assert("jti"@ =~= claim_key(n));
            "jti"
        },
        ClaimName::Sub => {
            assert("sub"@ =~= claim_key(n));
            "sub"
        },
        ClaimName::Aud => {
            assert("aud"@ =~= claim_key(n));
            "aud"
        },
        ClaimName::Iss => {
            assert("iss"@ =~= claim_key(n));
            "iss"
        },
        ClaimName::Exp => {
            assert("exp"@ =~= claim_key(n));
            "exp"
        },
        ClaimName::Iat => {
            assert("iat"@ =~= claim_key(n));
            "iat"
        },
    }
}

/// Position of the first entry of `entries` whose key is that of claim `n`.
fn find_entry(entries: &Vec<(String, ClaimValue)>, n: ClaimName) -> (r: Option<usize>)
    ensures
        match r {
            Some(i) => i < entries@.len() && find_claim(entries_view(entries@), claim_key(n))
                == Some(entries@[i as int].1@),
            None => find_claim(entries_view(entries@), claim_key(n)) is None,
        },
{
    let key = String::from_str(claim_key_str(n));
    let ghost ev = entries_view(entries@);
    let mut i: usize = 0;
    assert(ev.skip(0) =~= ev);
    while i < entries.len()
        invariant
            i <= entries@.len(),
            ev == entries_view(entries@),
            key@ == claim_key(n),
            find_claim(ev, claim_key(n)) == find_claim(ev.skip(i as int), claim_key(n)),
        decreases entries@.len() - i,
    {
        assert(ev.skip(i as int)[0] == (entries@[i as int].0@, entries@[i as int].1@));
        if entries[i].0 == key {
            return Some(i);
        }
        assert(ev.skip(i as int).skip(1) =~= ev.skip(i as int + 1));
        i = i + 1;
    }
    assert(ev.skip(i as int).len() == 0);
    None
}

/// The string claim `n` of `entries`.
fn text_entry(entries: &Vec<(String, ClaimValue)>, n: ClaimName) -> (r: Option<String>)
    ensures
        match text_claim(entries_view(entries@), n) {
            Some(s) => r matches Some(x) && x@ == s,
            None => r is None,
        },
{
    match find_entry(entries, n) {
        Some(i) => match &entries[i].1 {
            ClaimValue::Text(s) => Some(s.clone()),
            _ => None,
        },
        None => None,
    }
}

/// The unsigned integer claim `n` of `entries`.
fn integer_entry(entries: &Vec<(String, ClaimValue)>, n: ClaimName) -> (r: Option<u64>)
    ensures
        r == integer_claim(entries_view(entries@), n),
{
    match find_entry(entries, n) {
        Some(i) => match &entries[i].1 {
            ClaimValue::Integer(v) => Some(*v),
            _ => None,
        },
        None => None,
    }
}

impl Claims {
    /// The claims issued for `principal` at time `now` with identifier `jti`:
    /// the expiry is `now + lifetime`, held at `u64::MAX` where it overflows.
    pub fn issue(
        principal: &Principal,
        jti: String,
        audience: &String,
        issuer: &String,
        now: u64,
        lifetime: u64,
    ) -> (r: Claims)
        ensures
            r@ == issued_claims(jti@, principal@, audience@, issuer@, now, lifetime),
            free_of_separator(principal@.0),
    {
        Claims {
            jti,
            sub: principal.subject(),
            aud: audience.clone(),
            iss: issuer.clone(),
            exp: now.saturating_add(lifetime),
            iat: now,
        }
    }

    /// The claims as a list of entries, one per claim, in the order jti,
    /// sub, aud, iss, exp, iat; reading them back gives these claims.
    pub fn to_entries(&self) -> (r: Vec<(String, ClaimValue)>)
        ensures
            entries_view(r@) == claims_entries(self@),
            claims_of(entries_view(r@)) == Ok::<ClaimsView, ClaimName>(self@),
    {
        let mut r: Vec<(String, ClaimValue)> = Vec::new();
        r.push((String::from_str(claim_key_str(ClaimName::Jti)), ClaimValue::Text(self.jti.clone())));
        r.push((String::from_str(claim_key_str(ClaimName::Sub)), ClaimValue::Text(self.sub.clone())));
        r.push((String::from_str(claim_key_str(ClaimName::Aud)), ClaimValue::Text(self.aud.clone())));
        r.push((String::from_str(claim_key_str(ClaimName::Iss)), ClaimValue::Text(self.iss.clone())));
        r.push((String::from_str(claim_key_str(ClaimName::Exp)), ClaimValue::Integer(self.exp)));
        r.push((String::from_str(claim_key_str(ClaimName::Iat)), ClaimValue::Integer(self.iat)));
        proof {
            assert(entries_view(r@) =~= claims_entries(self@));
            lemma_claims_entries(self@);
        }
        r
    }

    /// Reads claims from a decoded payload; the error names the first claim
    /// (in the order jti, sub, aud, iss, exp, iat) that is absent or not of
    /// its type.
    pub fn from_entries(entries: &Vec<(String, ClaimValue)>) -> (r: Result<Claims, ClaimName>)
        ensures
            match claims_of(entries_view(entries@)) {
                Ok(v) => r matches Ok(c) && c@ == v,
                Err(n) => r == Err::<Claims, ClaimName>(n),
            },
    {
        let jti = match text_entry(entries, ClaimName::Jti) {
            Some(s) => s,
            None => return Err(ClaimName::Jti),
        };
        let sub = match text_entry(entries, ClaimName::Sub) {
            Some(s) => s,
            None => return Err(ClaimName::Sub),
        };
        let aud = match text_entry(entries, ClaimName::Aud) {
            Some(s) => s,
            None => return Err(ClaimName::Aud),
        };
        let iss = match text_entry(entries, ClaimName::Iss) {
            Some(s) => s,
            None => return Err(ClaimName::Iss),
        };
        let exp = match integer_entry(entries, ClaimName::Exp) {
            Some(v) => v,
            None => return Err(ClaimName::Exp),
        };
        let iat = match integer_entry(entries, ClaimName::Iat) {
            Some(v) => v,
            None => return Err(ClaimName::Iat),
        };
        Ok(Claims { jti, sub, aud, iss, exp, iat })
    }

    /// Applies the policy to these claims at time `now`: the principal they
    /// carry, or why they are refused.
    pub fn check(&self, audience: &String, issuer: &String, now: u64) -> (r: Result<
        Principal,
        DecodeError,
    >)
        ensures
            match verdict(self@, audience@, issuer@, now) {
                Ok(p) => r matches Ok(x) && x@ == p,
                Err(e) => r matches Err(x) && x == e,
            },
    {
        if now >= self.exp {
            return Err(DecodeError::Expired);
        }
        if !(self.iss == *issuer) {
            return Err(DecodeError::WrongIssuer);
        }
        if !(self.aud == *audience) {
            return Err(DecodeError::WrongAudience);
        }
        match Principal::from_subject(self.sub.as_str()) {
            Some(p) => Ok(p),
            None => Err(DecodeError::MalformedSubject),
        }
    }
}

/// Applies the policy to a decoded payload at time `now`: the principal it
/// carries, or why it is refused.
pub fn accept_entries(
    entries: &Vec<(String, ClaimValue)>,
    audience: &String,
    issuer: &String,
    now: u64,
) -> (r: Result<Principal, DecodeError>)
    ensures
        match acceptance(entries_view(entries@), audience@, issuer@, now) {
            Ok(p) => r matches Ok(x) && x@ == p,
            Err(e) => r matches Err(x) && x == e,
        },
{
    match Claims::from_entries(entries) {
        Err(n) => Err(DecodeError::MissingClaim(n)),
        Ok(c) => c.check(audience, issuer, now),
    }
}

/// A token's claims, read back from its payload, yield the principal they
/// were issued for at every moment from issuance until just before expiry.
pub proof fn lemma_issued_claims_accepted(
    entries: Seq<(Seq<char>, ClaimData)>,
    jti: Seq<char>,
    p: (Seq<char>, Seq<char>),
    audience: Seq<char>,
    issuer: Seq<char>,
    now: u64,
    lifetime: u64,
    t: u64,
)
    requires
        claims_of(entries) == Ok::<ClaimsView, ClaimName>(
            issued_claims(jti, p, audience, issuer, now, lifetime),
        ),
        free_of_separator(p.0),
        now <= t < expiry_of(now, lifetime),
    ensures
        acceptance(entries, audience, issuer, t) == Ok::<(Seq<char>, Seq<char>), DecodeError>(p),
{
    lemma_subject_round_trip(p.0, p.1);
}

/// A token issued at `now` with lifetime `lifetime` is refused as expired at
/// every time `t >= now + lifetime`, whatever audience and issuer the
/// codec is bound to.
pub proof fn lemma_expired_after_lifetime(
    entries: Seq<(Seq<char>, ClaimData)>,
    jti: Seq<char>,
    p: (Seq<char>, Seq<char>),
    aud: Seq<char>,
    iss: Seq<char>,
    now: u64,
    lifetime: u64,
    audience: Seq<char>,
    issuer: Seq<char>,
    t: u64,
)
    requires
        claims_of(entries) == Ok::<ClaimsView, ClaimName>(
            issued_claims(jti, p, aud, iss, now, lifetime),
        ),
        t >= now + lifetime,
    ensures
        acceptance(entries, audience, issuer, t) == Err::<(Seq<char>, Seq<char>), DecodeError>(
            DecodeError::Expired,
        ),
{
}

/// Claims made for audience `a` are never accepted by a codec bound to
/// another audience `b`; where nothing else is wrong with them, the refusal
/// names the audience.
pub proof fn lemma_audience_binding(
    c: ClaimsView,
    a: Seq<char>,
    b: Seq<char>,
    issuer: Seq<char>,
    t: u64,
)
    requires
        c.aud == a,
        a != b,
    ensures
        verdict(c, b, issuer, t) is Err,
        verdict(c, a, issuer, t) is Ok ==> verdict(c, b, issuer, t) == Err::<
            (Seq<char>, Seq<char>),
            DecodeError,
        >(DecodeError::WrongAudience),
{
}

/// Claims made by issuer `i` are never accepted by a codec bound to another
/// issuer `j`.
pub proof fn lemma_issuer_binding(
    c: ClaimsView,
    audience: Seq<char>,
    i: Seq<char>,
    j: Seq<char>,
    t: u64,
)
    requires
        c.iss == i,
        i != j,
    ensures
        verdict(c, audience, j, t) is Err,
{
}

/// A payload that lacks any one of the six claims is refused, at any time
/// and by any codec.
pub proof fn lemma_missing_claim_refused(
    entries: Seq<(Seq<char>, ClaimData)>,
    n: ClaimName,
    audience: Seq<char>,
    issuer: Seq<char>,
    t: u64,
)
    requires
        find_claim(entries, claim_key(n)) is None,
    ensures
        acceptance(entries, audience, issuer, t) is Err,
{
}

/// A later issuance never gets an earlier expiry.
pub proof fn lemma_expiry_monotonic(a: u64, b: u64, lifetime: u64)
    requires
        a <= b,
    ensures
        expiry_of(a, lifetime) <= expiry_of(b, lifetime),
{
}

/// The entries of claims `c` have distinct keys and read back as `c`.
pub proof fn lemma_claims_entries(c: ClaimsView)
    ensures
        distinct_keys(claims_entries(c)),
        claims_of(claims_entries(c)) == Ok::<ClaimsView, ClaimName>(c),
{
    let e = claims_entries(c);
    reveal_with_fuel(find_claim, 7);
    let k0 = claim_key(ClaimName::Jti);
    let k1 = claim_key(ClaimName::Sub);
    let k2 = claim_key(ClaimName::Aud);
    let k3 = claim_key(ClaimName::Iss);
    let k4 = claim_key(ClaimName::Exp);
    let k5 = claim_key(ClaimName::Iat);
    assert(k0[0] != k1[0] && k0[0] != k2[0] && k0[0] != k3[0] && k0[0] != k4[0] && k0[0] != k5[0]);
    assert(k1[0] != k2[0] && k1[0] != k3[0] && k1[0] != k4[0] && k1[0] != k5[0]);
    assert(k2[0] != k3[0] && k2[0] != k4[0] && k2[0] != k5[0]);
    assert(k3[1] != k5[1] && k3[0] != k4[0]);
    assert(k4[0] != k5[0]);
    assert(e.skip(1).skip(1) =~= e.skip(2));
    assert(e.skip(2).skip(1) =~= e.skip(3));
    assert(e.skip(3).skip(1) =~= e.skip(4));
    assert(e.skip(4).skip(1) =~= e.skip(5));
    assert(find_claim(e, k0) == Some(e[0].1));
    assert(find_claim(e, k1) == Some(e[1].1));
    assert(find_claim(e, k2) == Some(e[2].1));
    assert(find_claim(e, k3) == Some(e[3].1));
    assert(find_claim(e, k4) == Some(e[4].1));
    assert(find_claim(e, k5) == Some(e[5].1));
}

/// Two payloads that give the same value under every key are judged alike.
pub proof fn lemma_same_claims_same_acceptance(
    a: Seq<(Seq<char>, ClaimData)>,
    b: Seq<(Seq<char>, ClaimData)>,
    audience: Seq<char>,
    issuer: Seq<char>,
    now: u64,
)
    requires
        same_claims(a, b),
    ensures
        acceptance(a, audience, issuer, now) == acceptance(b, audience, issuer, now),
{
    assert(find_claim(a, claim_key(ClaimName::Jti)) == find_claim(b, claim_key(ClaimName::Jti)));
    assert(find_claim(a, claim_key(ClaimName::Sub)) == find_claim(b, claim_key(ClaimName::Sub)));
    assert(find_claim(a, claim_key(ClaimName::Aud)) == find_claim(b, claim_key(ClaimName::Aud)));
    assert(find_claim(a, claim_key(ClaimName::Iss)) == find_claim(b, claim_key(ClaimName::Iss)));
    assert(find_claim(a, claim_key(ClaimName::Exp)) == find_claim(b, claim_key(ClaimName::Exp)));
    assert(find_claim(a, claim_key(ClaimName::Iat)) == find_claim(b, claim_key(ClaimName::Iat)));
}

} // verus!
