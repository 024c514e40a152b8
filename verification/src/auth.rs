//! Session tokens: the claims a token carries, how a token is issued and
//! signed, and how a request's `authorization` headers are turned into an
//! authenticated token or a refusal.
use vstd::prelude::*;

verus! {

/// How long a freshly issued token stays valid, in seconds (one week).
pub const ONE_WEEK: i64 = 60 * 60 * 24 * 7;

/// The secret with which tokens are signed: sixteen bytes of value 25.
pub open spec fn signing_key() -> Seq<u8> {
    Seq::new(16, |_i: int| 25u8)
}

/// The text of each string of a sequence.
pub open spec fn texts(v: Seq<String>) -> Seq<Seq<char>> {
    v.map_values(|s: String| s@)
}

/// What a token states about its holder.
pub struct TokenClaims {
    /// Second at which the token was issued.
    pub iat: i64,
    /// Second from which on the token is expired.
    pub exp: i64,
    /// Name of the holder.
    pub user: Seq<char>,
    /// Roles of the holder, usually owner or user.
    pub roles: Seq<Seq<char>>,
}

/// The claims of a token issued at `now` for `user` with `roles`.
pub open spec fn issued_claims(user: Seq<char>, roles: Seq<Seq<char>>, now: i64) -> TokenClaims {
    TokenClaims { iat: now, exp: (now + ONE_WEEK) as i64, user, roles }
}

/// A token with these claims is expired at second `now`.
pub open spec fn expired_at(c: TokenClaims, now: int) -> bool {
    now >= c.exp
}

/// The token text that the signing library produces for the given key and
/// claims (header `HS512`, claims in the order iat, exp, user, roles).
pub uninterp spec fn signed_token(
    key: Seq<u8>,
    iat: i64,
    exp: i64,
    user: Seq<char>,
    roles: Seq<Seq<char>>,
) -> Seq<char>;

/// The claims `(iat, exp, user, roles)` that the signing library reads out of
/// `token` when its `HS512` signature under `key` is valid and its claims
/// object holds those four fields with those types; `None` otherwise.
pub uninterp spec fn verified_claims(key: Seq<u8>, token: Seq<char>) -> Option<
    (i64, i64, Seq<char>, Seq<Seq<char>>),
>;

/// `jsonwebtoken::encode` with an `HS512` header and the secret `key`, on the
/// claims object `{"iat", "exp", "user", "roles"}` built field by field.
/// Claimed: the token is `signed_token` of the key and the claims, a function
/// of those alone (HMAC signing is deterministic and the claims object keeps
/// its insertion order). `encode` fails only when the key's family differs
/// from the header's algorithm, which a secret key for `HS512` never does.
/// Also claimed: checking the token with the same key gives back exactly
/// these claims (`verify_token` reads the object that `encode` wrote).
#[verifier::external_body]
fn sign_claims(key: &[u8], iat: i64, exp: i64, user: &str, roles: &Vec<String>) -> (token: String)
    ensures
        token@ == signed_token(key@, iat, exp, user@, texts(roles@)),
        verified_claims(key@, token@) == Some((iat, exp, user@, texts(roles@))),
{
    let mut claims = serde_json::Map::new();
    claims.insert("iat".to_string(), serde_json::Value::from(iat));
    claims.insert("exp".to_string(), serde_json::Value::from(exp));
    claims.insert("user".to_string(), serde_json::Value::from(user));
    claims.insert("roles".to_string(), serde_json::Value::from(roles.clone()));
    let header = jsonwebtoken::Header::new(jsonwebtoken::Algorithm::HS512);
    let secret = jsonwebtoken::EncodingKey::from_secret(key);
    jsonwebtoken::encode(&header, &claims, &secret).unwrap()
}

/// `jsonwebtoken::decode` into a JSON value, with the `HS512` algorithm, the
/// secret `key`, and no check of expiry, audience or required claims, so that
/// the outcome depends on the key and the token alone; the fields `iat`,
/// `exp`, `user`, `roles` of the claims are then read by serde as one tuple.
/// Claimed: the result is `verified_claims` of the key and the token.
#[verifier::external_body]
fn verify_token(key: &[u8], token: &str) -> (r: Option<(i64, i64, String, Vec<String>)>)
    ensures
        r is Some <==> verified_claims(key@, token@) is Some,
        r matches Some((iat, exp, user, roles)) ==> verified_claims(key@, token@) == Some(
            (iat, exp, user@, texts(roles@)),
        ),
{
    let mut validation = jsonwebtoken::Validation::new(jsonwebtoken::Algorithm::HS512);
    validation.validate_exp = false;
    validation.validate_aud = false;
    validation.required_spec_claims.clear();
    let secret = jsonwebtoken::DecodingKey::from_secret(key);
    let c = jsonwebtoken::decode::<serde_json::Value>(token, &secret, &validation).ok()?.claims;
    let fields = vec![c["iat"].clone(), c["exp"].clone(), c["user"].clone(), c["roles"].clone()];
    serde_json::from_value(serde_json::Value::Array(fields)).ok()
}

/// `time::get_time().sec`: the wall clock in seconds since the Unix epoch.
/// Nothing is claimed of the value: it depends on the machine's clock.
#[verifier::external_body]
fn unix_now() -> (now: i64) {
    time::get_time().sec
}

/// The secret with which tokens are signed and checked, as bytes.
pub fn signing_key_bytes() -> (k: Vec<u8>)
    ensures
        k@ == signing_key(),
{
    let mut k: Vec<u8> = Vec::new();
    let mut i: usize = 0;
    while i < 16
        invariant
            i <= 16,
            k@ == Seq::new(i as nat, |_j: int| 25u8),
        decreases 16 - i,
    {
        k.push(25u8);
        i = i + 1;
    }
    assert(k@ =~= signing_key());
    k
}

/// Struct holds info needed for JWT to function correctly.
#[derive(Debug, Clone, PartialEq, Eq)]
pub struct UserRolesToken {
    iat: i64,
    exp: i64,
    user: String,
    roles: Vec<String>,
}

impl View for UserRolesToken {
    type V = TokenClaims;

    closed spec fn view(&self) -> TokenClaims {
        TokenClaims { iat: self.iat, exp: self.exp, user: self.user@, roles: texts(self.roles@) }
    }
}

/// The reasons for which a request is refused authentication.
#[derive(Debug, Clone, Copy, PartialEq, Eq, Structural)]
pub enum JWTError {
    Missing,
    Invalid,
    InvalidKey,
    BadCount,
}

impl UserRolesToken {
    /// A token with the given claims, as they were read back from a signed token.
    pub fn new(iat: i64, exp: i64, user: String, roles: Vec<String>) -> (t: Self)
        ensures
            t@ == (TokenClaims { iat, exp, user: user@, roles: texts(roles@) }),
    {
        UserRolesToken { iat, exp, user, roles }
    }

    /// The claims of a token issued at `now`: valid for one week from `now`.
    pub fn issue(user: String, roles: Vec<String>, now: i64) -> (t: Self)
        requires
            now <= i64::MAX - ONE_WEEK,
        ensures
            t@ == issued_claims(user@, texts(roles@), now),
    {
        UserRolesToken { iat: now, exp: now + ONE_WEEK, user, roles }
    }

    /// Timestamp when the token was issued.
    pub fn issued_at(&self) -> (r: i64)
        ensures
            r == self@.iat,
    {
        self.iat
    }

    /// Timestamp when the token expires.
    pub fn expires_at(&self) -> (r: i64)
        ensures
            r == self@.exp,
    {
        self.exp
    }

    /// The roles of the holder.
    pub fn roles(&self) -> (r: &Vec<String>)
        ensures
            texts(r@) == self@.roles,
    {
        &self.roles
    }

    /// Whether the token is expired at second `now`.
    pub fn is_expired_at(&self, now: i64) -> (r: bool)
        ensures
            r == expired_at(self@, now as int),
            r == (now >= self@.exp),
    {
        now >= self.exp
    }

    /// Method returns whether the token is expired or not, by the wall clock.
    /// The answer is `is_expired_at` of the clock's reading, whatever it was.
    pub fn is_expired(&self) -> (r: bool)
        ensures
            exists|now: i64| r == expired_at(self@, now as int),
    {
        let now = unix_now();
        self.is_expired_at(now)
    }

    /// Method used to make sure that tokens are generated for different users to avoid collisions.
    pub fn is_claimed_user(&self, claimed_user: String) -> (r: bool)
        ensures
            r == (self@.user == claimed_user@),
    {
        self.user == claimed_user
    }

    /// Method checks if the user holding this token has a specific role.
    pub fn has_role(&self, role: &str) -> (r: bool)
        ensures
            r == self@.roles.contains(role@),
    {
        let wanted = role.to_string();
        assert(wanted@ == role@);
        let n = self.roles.len();
        let mut i: usize = 0;
        while i < n
            invariant
                n == self.roles@.len(),
                i <= n,
                wanted@ == role@,
                forall|j: int| 0 <= j < i ==> self.roles@[j]@ != role@,
            decreases n - i,
        {
            if self.roles[i] == wanted {
                assert(texts(self.roles@)[i as int] == role@);
                return true;
            }
            i = i + 1;
        }
        assert forall|j: int| 0 <= j < texts(self.roles@).len() implies texts(self.roles@)[j]
            != role@ by {
            assert(texts(self.roles@)[j] == self.roles@[j]@);
        }
        false
    }

    /// Method returns the username from the token.
    pub fn get_user(&self) -> (r: String)
        ensures
            r@ == self@.user,
    {
        self.user.clone()
    }
}

/// Why a token is refused by the check.
#[derive(Debug, Clone, Copy, PartialEq, Eq, Structural)]
pub enum CheckError {
    /// The signature does not hold under our key, or the claims are not a
    /// user-roles token.
    InvalidToken,
    /// The signature holds but the token's expiry second has passed.
    ExpiredSignature,
}

/// The claims of a verified claims tuple.
pub open spec fn claims_of(v: (i64, i64, Seq<char>, Seq<Seq<char>>)) -> TokenClaims {
    TokenClaims { iat: v.0, exp: v.1, user: v.2, roles: v.3 }
}

/// The check refuses a token as expired once its expiry second is past,
/// with no leeway; during the expiry second itself it still accepts it.
pub open spec fn outdated_at(c: TokenClaims, now: int) -> bool {
    c.exp < now
}

/// What checking `token` at second `now` gives: the claims of a token whose
/// signature holds under our key and that is not outdated, or the reason of
/// the refusal.
pub open spec fn check_result(token: Seq<char>, now: int) -> Result<TokenClaims, CheckError> {
    match verified_claims(signing_key(), token) {
        None => Err(CheckError::InvalidToken),
        Some(v) => if outdated_at(claims_of(v), now) {
            Err(CheckError::ExpiredSignature)
        } else {
            Ok(claims_of(v))
        },
    }
}

/// `r` is what checking `token` at second `now` gives.
pub open spec fn check_agrees(r: Result<UserRolesToken, CheckError>, token: Seq<char>, now: int) -> bool {
    match check_result(token, now) {
        Ok(c) => r matches Ok(t) && t@ == c,
        Err(e) => r == Err::<UserRolesToken, CheckError>(e),
    }
}

/// The signed token for `user` with `roles`, issued at second `now`. The
/// check accepts it with exactly these claims at every second of the week
/// that follows, up to and including its expiry second.
pub fn jwt_generate_at(user: String, roles: Vec<String>, now: i64) -> (token: String)
    requires
        now <= i64::MAX - ONE_WEEK,
    ensures
        token@ == signed_token(signing_key(), now, (now + ONE_WEEK) as i64, user@, texts(roles@)),
        verified_claims(signing_key(), token@) == Some(
            (now, (now + ONE_WEEK) as i64, user@, texts(roles@)),
        ),
        forall|t: int|
            now <= t <= now + ONE_WEEK ==> #[trigger] check_result(token@, t) == Ok::<
                TokenClaims,
                CheckError,
            >(issued_claims(user@, texts(roles@), now)),
{
    let claims = UserRolesToken::issue(user, roles, now);
    let key = signing_key_bytes();
    let token = sign_claims(key.as_slice(), claims.iat, claims.exp, claims.user.as_str(), &claims.roles);
    proof {
        assert forall|t: int| now <= t <= now + ONE_WEEK implies #[trigger] check_result(token@, t)
            == Ok::<TokenClaims, CheckError>(issued_claims(user@, texts(roles@), now)) by {
            lemma_issued_token_accepted_for_one_week(token@, user@, texts(roles@), now, t);
        }
    }
    token
}

/// Function generates a new JWT token and signs it with our key, issued now
/// by the wall clock and valid for one week: the check accepts it with
/// exactly these claims throughout that week. A clock reading so late that one
/// more week would not fit in an `i64` is taken as the last such second.
pub fn jwt_generate(user: String, roles: Vec<String>) -> (token: String)
    ensures
        exists|now: i64|
            now <= i64::MAX - ONE_WEEK && token@ == #[trigger] signed_token(
                signing_key(),
                now,
                (now + ONE_WEEK) as i64,
                user@,
                texts(roles@),
            ) && verified_claims(signing_key(), token@) == Some(
                (now, (now + ONE_WEEK) as i64, user@, texts(roles@)),
            ) && forall|t: int|
                now <= t <= now + ONE_WEEK ==> #[trigger] check_result(token@, t) == Ok::<
                    TokenClaims,
                    CheckError,
                >(issued_claims(user@, texts(roles@), now)),
{
    let clock = unix_now();
    let now = if clock > i64::MAX - ONE_WEEK {
        i64::MAX - ONE_WEEK
    } else {
        clock
    };
    jwt_generate_at(user, roles, now)
}

/// Function checks the token supplied at second `now` and validates it: its
/// `HS512` signature must hold under our key and its claims must be those of
/// a user-roles token whose expiry second is not past.
pub fn jwt_check_at(token: String, now: i64) -> (r: Result<UserRolesToken, CheckError>)
    ensures
        check_agrees(r, token@, now as int),
        verified_claims(signing_key(), token@) is None <==> r == Err::<UserRolesToken, CheckError>(
            CheckError::InvalidToken,
        ),
        r matches Ok(t) ==> verified_claims(signing_key(), token@) == Some(
            (t@.iat, t@.exp, t@.user, t@.roles),
        ) && now <= t@.exp,
        r == Err::<UserRolesToken, CheckError>(CheckError::ExpiredSignature) <==> (
        verified_claims(signing_key(), token@) matches Some(v) && v.1 < now),
{
    let key = signing_key_bytes();
    match verify_token(key.as_slice(), token.as_str()) {
        None => Err(CheckError::InvalidToken),
        Some((iat, exp, user, roles)) => {
            if exp < now {
                Err(CheckError::ExpiredSignature)
            } else {
                Ok(UserRolesToken::new(iat, exp, user, roles))
            }
        },
    }
}

/// Function checks the token supplied and validates it, by the wall clock:
/// the answer is `jwt_check_at` of the clock's reading, whatever it was. A
/// token whose signature does not hold is refused whatever the time, and an
/// accepted token carries exactly the claims that were signed.
pub fn jwt_check(token: String) -> (r: Result<UserRolesToken, CheckError>)
    ensures
        exists|now: i64| #[trigger] check_agrees(r, token@, now as int),
        verified_claims(signing_key(), token@) is None ==> r == Err::<UserRolesToken, CheckError>(
            CheckError::InvalidToken,
        ),
        r matches Ok(t) ==> verified_claims(signing_key(), token@) == Some(
            (t@.iat, t@.exp, t@.user, t@.roles),
        ),
{
    let now = unix_now();
    jwt_check_at(token, now)
}

/// The answer to a request with these `authorization` header values, checked
/// at second `now`.
pub open spec fn authenticate_agrees(
    r: Result<UserRolesToken, JWTError>,
    keys: Seq<String>,
    now: int,
) -> bool {
    if keys.len() == 0 {
        r == Err::<UserRolesToken, JWTError>(JWTError::Missing)
    } else if keys.len() > 1 {
        r == Err::<UserRolesToken, JWTError>(JWTError::BadCount)
    } else {
        match check_result(keys[0]@, now) {
            Ok(c) => r matches Ok(t) && t@ == c,
            Err(_) => r == Err::<UserRolesToken, JWTError>(JWTError::InvalidKey),
        }
    }
}

/// Authenticates a request at second `now` from the values of its
/// `authorization` headers: no header is `Missing`, more than one is
/// `BadCount`, and a single one is checked, a refusal being `InvalidKey`.
pub fn authenticate_at(keys: Vec<String>, now: i64) -> (r: Result<UserRolesToken, JWTError>)
    ensures
        authenticate_agrees(r, keys@, now as int),
        keys@.len() == 0 ==> r == Err::<UserRolesToken, JWTError>(JWTError::Missing),
        keys@.len() > 1 ==> r == Err::<UserRolesToken, JWTError>(JWTError::BadCount),
        r matches Ok(t) ==> keys@.len() == 1 && verified_claims(signing_key(), keys@[0]@) == Some(
            (t@.iat, t@.exp, t@.user, t@.roles),
        ) && now <= t@.exp,
        keys@.len() == 1 ==> (r is Ok <==> (verified_claims(signing_key(), keys@[0]@) matches Some(
            v,
        ) && now <= v.1)),
        r is Err && keys@.len() == 1 ==> r == Err::<UserRolesToken, JWTError>(JWTError::InvalidKey),
{
    let n = keys.len();
    if n == 0 {
        Err(JWTError::Missing)
    } else if n == 1 {
        let key = keys[0].clone();
        match jwt_check_at(key, now) {
            Ok(t) => Ok(t),
            Err(_) => Err(JWTError::InvalidKey),
        }
    } else {
        Err(JWTError::BadCount)
    }
}

/// Authenticates a request by the wall clock: the answer is
/// `authenticate_at` of the clock's reading, whatever it was.
pub fn authenticate(keys: Vec<String>) -> (r: Result<UserRolesToken, JWTError>)
    ensures
        exists|now: i64| #[trigger] authenticate_agrees(r, keys@, now as int),
        keys@.len() == 0 ==> r == Err::<UserRolesToken, JWTError>(JWTError::Missing),
        keys@.len() > 1 ==> r == Err::<UserRolesToken, JWTError>(JWTError::BadCount),
        keys@.len() == 1 && verified_claims(signing_key(), keys@[0]@) is None ==> r == Err::<
            UserRolesToken,
            JWTError,
        >(JWTError::InvalidKey),
        r matches Ok(t) ==> keys@.len() == 1 && verified_claims(signing_key(), keys@[0]@) == Some(
            (t@.iat, t@.exp, t@.user, t@.roles),
        ),
{
    let now = unix_now();
    authenticate_at(keys, now)
}

/// A token whose verified claims are those of a token issued at `t0` is
/// accepted by the check with exactly those claims at every second from
/// `t0` up to and including its expiry second, and refused as expired after.
pub proof fn lemma_issued_token_accepted_for_one_week(
    token: Seq<char>,
    user: Seq<char>,
    roles: Seq<Seq<char>>,
    t0: i64,
    now: int,
)
    requires
        t0 <= i64::MAX - ONE_WEEK,
        verified_claims(signing_key(), token) == Some((t0, (t0 + ONE_WEEK) as i64, user, roles)),
    ensures
        t0 <= now <= t0 + ONE_WEEK ==> check_result(token, now) == Ok::<TokenClaims, CheckError>(
            issued_claims(user, roles, t0),
        ),
        now > t0 + ONE_WEEK ==> check_result(token, now) == Err::<TokenClaims, CheckError>(
            CheckError::ExpiredSignature,
        ),
{
}

/// A freshly issued token holds exactly the user and roles it was issued
/// for, is not expired at any second of the week after its issue, and is
/// expired from the end of that week on.
pub proof fn lemma_issued_token_valid_for_one_week(
    user: Seq<char>,
    roles: Seq<Seq<char>>,
    now: i64,
    t: int,
)
    requires
        now <= i64::MAX - ONE_WEEK,
    ensures
        issued_claims(user, roles, now).user == user,
        issued_claims(user, roles, now).roles == roles,
        now <= t < now + ONE_WEEK ==> !expired_at(issued_claims(user, roles, now), t),
        t >= now + ONE_WEEK ==> expired_at(issued_claims(user, roles, now), t),
{
}

/// Once a token is expired it stays expired.
pub proof fn lemma_expiry_is_permanent(c: TokenClaims, t1: int, t2: int)
    requires
        t1 <= t2,
        expired_at(c, t1),
    ensures
        expired_at(c, t2),
{
}

/// How the check of one token relates across seconds: a token refused as
/// invalid is refused as invalid at every second; one refused as expired
/// stays refused as expired later on; and one accepted at a second is
/// accepted with the same claims at every earlier second.
pub proof fn lemma_check_over_time(token: Seq<char>, t1: int, t2: int)
    requires
        t1 <= t2,
    ensures
        check_result(token, t1) == Err::<TokenClaims, CheckError>(CheckError::InvalidToken)
            <==> check_result(token, t2) == Err::<TokenClaims, CheckError>(
            CheckError::InvalidToken,
        ),
        check_result(token, t1) == Err::<TokenClaims, CheckError>(CheckError::ExpiredSignature)
            ==> check_result(token, t2) == Err::<TokenClaims, CheckError>(
            CheckError::ExpiredSignature,
        ),
        check_result(token, t2) is Ok ==> check_result(token, t1) == check_result(token, t2),
        check_result(token, t1) matches Ok(c) ==> (check_result(token, t2) is Ok <==> t2 <= c.exp),
{
}

} // verus!
