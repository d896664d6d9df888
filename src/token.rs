use vstd::prelude::*;
use crate::account::{AccountId, Claims, Session};
use crate::error::Error;
use crate::text::{has_prefix, same_text, starts_with};

verus! {

/// How long a token stays valid after it is issued: 24 hours, in seconds.
pub const TOKEN_LIFETIME: i64 = 86400;

/// The compact HS256 token that jsonwebtoken makes of the claims
/// `{account_id, exp, iat, nbf}` under the given key.
pub uninterp spec fn jwt_token(account_id: i32, exp: i64, iat: i64, nbf: i64, key: Seq<u8>) -> Seq<
    char,
>;

/// The claims, by name in ascending order, of a token whose HS256 signature
/// verifies under the key; `None` for a token that does not parse or verify.
pub uninterp spec fn jwt_claims(token: Seq<char>, key: Seq<u8>) -> Option<Seq<(Seq<char>, i64)>>;

/// The claims of a token as names and values.
pub open spec fn claim_entries(c: Claims) -> Seq<(Seq<char>, i64)> {
    seq![("account_id"@, c.account_id as i64), ("exp"@, c.exp), ("iat"@, c.iat), ("nbf"@, c.nbf)]
}

/// Claim pairs as character sequences and values.
pub open spec fn entries_view(v: Seq<(String, i64)>) -> Seq<(Seq<char>, i64)> {
    v.map_values(|p: (String, i64)| (p.0@, p.1))
}

/// The value of the first claim named `name`.
pub open spec fn claim_value(entries: Seq<(Seq<char>, i64)>, name: Seq<char>) -> Option<i64>
    decreases entries.len(),
{
    if entries.len() == 0 {
        None
    } else if entries[0].0 == name {
        Some(entries[0].1)
    } else {
        claim_value(entries.drop_first(), name)
    }
}

/// The session that verified claims give at instant `now`: all four claims
/// must be present, `account_id` must fit an `i32`, and `nbf <= now < exp`.
pub open spec fn session_of(entries: Seq<(Seq<char>, i64)>, now: i64) -> Result<Session, Error> {
    match (
        claim_value(entries, "account_id"@),
        claim_value(entries, "exp"@),
        claim_value(entries, "iat"@),
        claim_value(entries, "nbf"@),
    ) {
        (Some(a), Some(x), Some(_), Some(n)) => {
            if i32::MIN <= a <= i32::MAX && n <= now && now < x {
                Ok(Session { exp: x, account_id: AccountId(a as i32), nbf: n })
            } else {
                Err(Error::CannotDecryptToken)
            }
        },
        _ => Err(Error::CannotDecryptToken),
    }
}

/// What verifying a token under a key at instant `now` yields.
pub open spec fn token_outcome(token: Seq<char>, key: Seq<u8>, now: i64) -> Result<Session, Error> {
    match jwt_claims(token, key) {
        Some(entries) => session_of(entries, now),
        None => Err(Error::CannotDecryptToken),
    }
}

/// The expiry of a token issued at `now`: 24 hours later, or the largest
/// instant where that is out of range.
pub open spec fn expiry_of(now: i64) -> i64 {
    if now <= i64::MAX - TOKEN_LIFETIME {
        (now + TOKEN_LIFETIME) as i64
    } else {
        i64::MAX
    }
}

/// The claims of a token issued for `account_id` at `now`.
pub open spec fn claims_for(account_id: AccountId, now: i64) -> Claims {
    Claims { account_id: account_id.0, exp: expiry_of(now), iat: now, nbf: now }
}

/// The token issued for `account_id` under `key` at `now`.
pub open spec fn issued_token(account_id: AccountId, key: Seq<u8>, now: i64) -> Seq<char> {
    let c = claims_for(account_id, now);
    jwt_token(c.account_id, c.exp, c.iat, c.nbf, key)
}

/// Whether `token` is accepted, with the session of `account_id`, at every
/// instant from `now` up to its expiry, and refused from its expiry on.
pub open spec fn valid_for_lifetime(token: Seq<char>, key: Seq<u8>, account_id: AccountId, now: i64) -> bool {
    &&& forall|t: i64|
        now <= t < expiry_of(now) ==> #[trigger] token_outcome(token, key, t) == Ok::<Session, Error>(
            Session { exp: expiry_of(now), account_id, nbf: now },
        )
    &&& forall|t: i64|
        t >= expiry_of(now) ==> #[trigger] token_outcome(token, key, t) == Err::<Session, Error>(
            Error::CannotDecryptToken,
        )
}

/// Relies on chrono's `Utc::now().timestamp()`: the current time in unix seconds.
#[verifier::external_body]
pub(crate) fn now_seconds() -> (r: i64) {
    chrono::Utc::now().timestamp()
}

/// Relies on jsonwebtoken::encode with the default header (HS256) and an HMAC
/// key: it cannot fail for these, and jsonwebtoken::decode under the same key
/// gives the claims back, in ascending order of name, when `exp` is not negative.
#[verifier::external_body]
fn jwt_encode(claims: &Claims, key: &[u8]) -> (r: Option<String>)
    ensures
        r is Some,
        r matches Some(t) ==> t@ == jwt_token(claims.account_id, claims.exp, claims.iat, claims.nbf, key@),
        r matches Some(t) ==> (claims.exp >= 0 ==> jwt_claims(t@, key@) == Some(claim_entries(*claims))),
{
    let mut payload = std::collections::BTreeMap::new();
    payload.insert("account_id", claims.account_id as i64);
    payload.insert("exp", claims.exp);
    payload.insert("iat", claims.iat);
    payload.insert("nbf", claims.nbf);
    let header = jsonwebtoken::Header::default();
    jsonwebtoken::encode(&header, &payload, &jsonwebtoken::EncodingKey::from_secret(key)).ok()
}

/// Relies on jsonwebtoken::decode, HS256 only, with its own expiry check
/// switched off (the window is checked by the caller): the signature must
/// verify under the key and the payload must be an object of integer claims.
#[verifier::external_body]
fn jwt_decode(token: &str, key: &[u8]) -> (r: Option<Vec<(String, i64)>>)
    ensures
        r is Some == jwt_claims(token@, key@) is Some,
        r matches Some(v) ==> jwt_claims(token@, key@) == Some(entries_view(v@)),
{
    let mut validation = jsonwebtoken::Validation::new(jsonwebtoken::Algorithm::HS256);
    validation.validate_exp = false;
    let key = jsonwebtoken::DecodingKey::from_secret(key);
    match jsonwebtoken::decode::<std::collections::BTreeMap<String, i64>>(token, &key, &validation) {
        Ok(data) => Some(data.claims.into_iter().collect()),
        Err(_) => None,
    }
}

/// The value of the first claim named `name`.
pub fn lookup_claim(entries: &Vec<(String, i64)>, name: &str) -> (r: Option<i64>)
    ensures
        r == claim_value(entries_view(entries@), name@),
{
    let ghost all = entries_view(entries@);
    assert(all.subrange(0, all.len() as int) =~= all);
    let mut i: usize = 0;
    while i < entries.len()
        invariant
            i <= entries@.len(),
            all == entries_view(entries@),
            claim_value(all, name@) == claim_value(all.subrange(i as int, all.len() as int), name@),
        decreases entries.len() - i,
    {
        let ghost rest = all.subrange(i as int, all.len() as int);
        assert(rest.drop_first() =~= all.subrange(i + 1, all.len() as int));
        if same_text(entries[i].0.as_str(), name) {
            return Some(entries[i].1);
        }
        i = i + 1;
    }
    None
}

/// The session that verified claims give at instant `now`, or
/// `CannotDecryptToken` when a claim is missing or `now` is outside
/// `nbf <= now < exp`.
pub fn session_from_claims(entries: &Vec<(String, i64)>, now: i64) -> (r: Result<Session, Error>)
    ensures
        r == session_of(entries_view(entries@), now),
{
    let a = lookup_claim(entries, "account_id");
    let x = lookup_claim(entries, "exp");
    let i = lookup_claim(entries, "iat");
    let n = lookup_claim(entries, "nbf");
    match (a, x, i, n) {
        (Some(a), Some(x), Some(_), Some(n)) => {
            if i32::MIN as i64 <= a && a <= i32::MAX as i64 && n <= now && now < x {
                Ok(Session { exp: x, account_id: AccountId(a as i32), nbf: n })
            } else {
                Err(Error::CannotDecryptToken)
            }
        },
        _ => Err(Error::CannotDecryptToken),
    }
}

/// Verifies a token under `key` at instant `now`.
pub fn verify_token_at(token: &str, key: &[u8], now: i64) -> (r: Result<Session, Error>)
    ensures
        r == token_outcome(token@, key@, now),
{
    match jwt_decode(token, key) {
        Some(entries) => session_from_claims(&entries, now),
        None => Err(Error::CannotDecryptToken),
    }
}

/// Verifies a token under `key` at the current time.
pub fn verify_token(token: String, key: &[u8]) -> (r: Result<Session, Error>)
    ensures
        exists|now: i64| r == token_outcome(token@, key@, now),
{
    let now = now_seconds();
    verify_token_at(token.as_str(), key, now)
}

/// The claims of a token issued for `account_id` at `now`.
pub fn claims_at(account_id: AccountId, now: i64) -> (r: Claims)
    ensures
        r == claims_for(account_id, now),
{
    let exp = if now <= i64::MAX - TOKEN_LIFETIME {
        now + TOKEN_LIFETIME
    } else {
        i64::MAX
    };
    Claims { account_id: account_id.0, exp, iat: now, nbf: now }
}

/// Looking up each claim of an issued token gives its value.
proof fn lemma_claim_entries(c: Claims)
    ensures
        claim_value(claim_entries(c), "account_id"@) == Some(c.account_id as i64),
        claim_value(claim_entries(c), "exp"@) == Some(c.exp),
        claim_value(claim_entries(c), "iat"@) == Some(c.iat),
        claim_value(claim_entries(c), "nbf"@) == Some(c.nbf),
{
    reveal_strlit("account_id");
    reveal_strlit("exp");
    reveal_strlit("iat");
    reveal_strlit("nbf");
    let e = claim_entries(c);
    let e1 = e.drop_first();
    let e2 = e1.drop_first();
    let e3 = e2.drop_first();
    assert(e1 =~= seq![("exp"@, c.exp), ("iat"@, c.iat), ("nbf"@, c.nbf)]);
    assert(e2 =~= seq![("iat"@, c.iat), ("nbf"@, c.nbf)]);
    assert(e3 =~= seq![("nbf"@, c.nbf)]);
    assert("account_id"@[0] == 'a' && "exp"@[0] == 'e' && "iat"@[0] == 'i' && "nbf"@[0] == 'n');
    assert("account_id"@ != "exp"@);
    assert("account_id"@ != "iat"@);
    assert("account_id"@ != "nbf"@);
    assert("exp"@ != "iat"@);
    assert("exp"@ != "nbf"@);
    assert("iat"@ != "nbf"@);
    assert(claim_value(e1, "exp"@) == Some(c.exp));
    assert(claim_value(e2, "iat"@) == Some(c.iat));
    assert(claim_value(e1, "iat"@) == Some(c.iat));
    assert(claim_value(e3, "nbf"@) == Some(c.nbf));
    assert(claim_value(e2, "nbf"@) == Some(c.nbf));
    assert(claim_value(e1, "nbf"@) == Some(c.nbf));
}

/// Issues a token for `account_id` under `key` at instant `now`: claims
/// `iat = nbf = now` and `exp` 24 hours later. Verifying it gives the
/// account's session at every instant up to its expiry, and fails from then on.
pub fn issue_token_at(account_id: AccountId, key: &[u8], now: i64) -> (r: String)
    ensures
        r@ == issued_token(account_id, key@, now),
        expiry_of(now) >= 0 ==> valid_for_lifetime(r@, key@, account_id, now),
{
    let claims = claims_at(account_id, now);
    match jwt_encode(&claims, key) {
        Some(t) => {
            proof {
                lemma_claim_entries(claims);
                if expiry_of(now) >= 0 {
                    assert(jwt_claims(t@, key@) == Some(claim_entries(claims)));
                }
            }
            t
        },
        None => {
            proof {
                assert(false);
            }
            String::new()
        },
    }
}

/// Issues a token for `account_id` under `key` at the current time.
pub fn issue_token(account_id: AccountId, key: &[u8]) -> (r: String)
    ensures
        exists|now: i64|
            r@ == issued_token(account_id, key@, now) && (expiry_of(now) >= 0 ==> valid_for_lifetime(
                r@,
                key@,
                account_id,
                now,
            )),
{
    let now = now_seconds();
    issue_token_at(account_id, key, now)
}

/// Every accepted token is within its validity window: a session returned at
/// instant `now` has `nbf <= now < exp`.
pub proof fn lemma_accepted_token_is_live(token: Seq<char>, key: Seq<u8>, now: i64)
    ensures
        token_outcome(token, key, now) matches Ok(s) ==> s.nbf <= now < s.exp,
{
}

/// A token replayed at or after its expiry is refused with `CannotDecryptToken`.
pub proof fn lemma_expired_token_rejected(token: Seq<char>, key: Seq<u8>, now: i64)
    requires
        jwt_claims(token, key) matches Some(e) && claim_value(e, "exp"@) matches Some(x) && x <= now,
    ensures
        token_outcome(token, key, now) == Err::<Session, Error>(Error::CannotDecryptToken),
{
}

/// The token carried by an `Authorization` header value: the value with a
/// leading `Bearer ` removed, or the whole value where there is none.
pub open spec fn bearer_stripped(header: Seq<char>) -> Seq<char> {
    if starts_with(header, "Bearer "@) {
        header.subrange(7, header.len() as int)
    } else {
        header
    }
}

/// The token carried by an `Authorization` header value, with or without a
/// `Bearer ` prefix.
pub fn bearer_token(header: &str) -> (r: &str)
    ensures
        r@ == bearer_stripped(header@),
{
    proof {
        reveal_strlit("Bearer ");
    }
    if has_prefix(header, "Bearer ") {
        header.substring_char(7, header.unicode_len())
    } else {
        header
    }
}

/// The request guard at instant `now`: the session that the token in the
/// `Authorization` header value gives, or `CannotDecryptToken`.
pub fn authenticate_at(header: &str, key: &[u8], now: i64) -> (r: Result<Session, Error>)
    ensures
        r == token_outcome(bearer_stripped(header@), key@, now),
{
    verify_token_at(bearer_token(header), key, now)
}

/// The request guard at the current time.
pub fn authenticate(header: &str, key: &[u8]) -> (r: Result<Session, Error>)
    ensures
        exists|now: i64| r == token_outcome(bearer_stripped(header@), key@, now),
{
    let now = now_seconds();
    authenticate_at(header, key, now)
}

} // verus!
