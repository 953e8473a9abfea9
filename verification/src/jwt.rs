//! The token issuer: signed bearer tokens with a typed claim set.

use crate::error::{authentication, internal, text_outcome, AppError, ErrorKind, ErrorView};
use crate::outside::{hs256_claims, hs256_token, jwt_decode, jwt_encode, unix_now};
use vstd::prelude::*;

verus! {

/// How long a refresh token lives: thirty days, in seconds.
pub const REFRESH_LIFETIME_SECONDS: u64 = 2_592_000;

/// The discriminant that tells an access token from a refresh token.
#[derive(Structural, PartialEq, Eq, Clone, Copy, Debug)]
pub enum TokenKind {
    Access,
    Refresh,
}

/// The claim set of a bearer token. Times are seconds since the epoch.
#[derive(Clone, Debug, PartialEq, Eq)]
pub struct Claims {
    pub sub: String,
    pub exp: i64,
    pub iat: i64,
    pub token_type: String,
}

pub struct ClaimsView {
    pub sub: Seq<char>,
    pub exp: int,
    pub iat: int,
    pub token_type: Seq<char>,
}

/// The claims as they were found in a token whose signature held: each one
/// may be absent.
#[derive(Clone, Debug, PartialEq, Eq)]
pub struct RawClaims {
    pub sub: Option<String>,
    pub exp: Option<i64>,
    pub iat: Option<i64>,
    pub token_type: Option<String>,
}

pub struct RawClaimsView {
    pub sub: Option<Seq<char>>,
    pub exp: Option<int>,
    pub iat: Option<int>,
    pub token_type: Option<Seq<char>>,
}

impl View for Claims {
    type V = ClaimsView;

    open spec fn view(&self) -> ClaimsView {
        ClaimsView {
            sub: self.sub@,
            exp: self.exp as int,
            iat: self.iat as int,
            token_type: self.token_type@,
        }
    }
}

impl ClaimsView {
    /// A claim set with every claim present.
    pub open spec fn complete(self) -> RawClaimsView {
        RawClaimsView {
            sub: Some(self.sub),
            exp: Some(self.exp),
            iat: Some(self.iat),
            token_type: Some(self.token_type),
        }
    }
}

impl View for RawClaims {
    type V = RawClaimsView;

    open spec fn view(&self) -> RawClaimsView {
        RawClaimsView {
            sub: match self.sub {
                Some(s) => Some(s@),
                None => None,
            },
            exp: match self.exp {
                Some(e) => Some(e as int),
                None => None,
            },
            iat: match self.iat {
                Some(e) => Some(e as int),
                None => None,
            },
            token_type: match self.token_type {
                Some(s) => Some(s@),
                None => None,
            },
        }
    }
}

impl TokenKind {
    /// The word that stands for the kind inside a token.
    pub open spec fn label(self) -> Seq<char> {
        match self {
            TokenKind::Access => "access"@,
            TokenKind::Refresh => "refresh"@,
        }
    }

    pub fn as_str(&self) -> (r: &'static str)
        ensures
            r@ == self.label(),
    {
        match self {
            TokenKind::Access => "access",
            TokenKind::Refresh => "refresh",
        }
    }
}

/// The two kinds are written differently.
pub proof fn lemma_labels_differ(a: TokenKind, b: TokenKind)
    ensures
        a.label() == b.label() <==> a == b,
{
    reveal_strlit("access");
    reveal_strlit("refresh");
    assert("access"@.len() != "refresh"@.len());
}

/// The claims of a token of `kind` for `user_id`, issued at `now` for
/// `lifetime` seconds.
pub open spec fn claims_for(user_id: Seq<char>, kind: TokenKind, now: int, lifetime: int)
    -> ClaimsView {
    ClaimsView { sub: user_id, exp: now + lifetime, iat: now, token_type: kind.label() }
}

/// What minting gives: the signed claims, unless the expiry leaves the range
/// of a timestamp or signing fails.
pub open spec fn minted(
    user_id: Seq<char>,
    secret: Seq<char>,
    kind: TokenKind,
    now: int,
    lifetime: int,
) -> Result<Seq<char>, ErrorView> {
    if now + lifetime > i64::MAX {
        Err(internal("Token lifetime out of range"@))
    } else {
        match hs256_token(claims_for(user_id, kind, now, lifetime), secret) {
            Some(t) => Ok(t),
            None => Err(internal("Token signing failed"@)),
        }
    }
}

/// Whether `token` is the token that minting gives for these inputs: it is
/// not empty, and it decodes under the same secret to the claims that went
/// in.
pub open spec fn carries(
    token: Seq<char>,
    user_id: Seq<char>,
    secret: Seq<char>,
    kind: TokenKind,
    now: int,
    lifetime: int,
) -> bool {
    &&& minted(user_id, secret, kind, now, lifetime) == Ok::<Seq<char>, ErrorView>(token)
    &&& token.len() > 0
    &&& hs256_claims(token, secret) == Some(claims_for(user_id, kind, now, lifetime).complete())
}

/// Whether `r` is what minting gives: the failure that `minted` names, or the
/// token that `carries` these inputs.
pub open spec fn issued(
    r: Result<String, AppError>,
    user_id: Seq<char>,
    secret: Seq<char>,
    kind: TokenKind,
    now: int,
    lifetime: int,
) -> bool {
    &&& text_outcome(r) == minted(user_id, secret, kind, now, lifetime)
    &&& r is Ok ==> carries(r->Ok_0@, user_id, secret, kind, now, lifetime)
}

/// What checking decoded claims gives: the subject, unless a claim is
/// missing, the expiry lies before `now`, or the kind is not the expected one.
pub open spec fn checked(decoded: Option<RawClaimsView>, expected: TokenKind, now: int) -> Result<
    Seq<char>,
    ErrorView,
> {
    match decoded {
        None => Err(authentication("Invalid token"@)),
        Some(c) => {
            if c.sub is None || c.exp is None || c.iat is None || c.token_type is None {
                Err(authentication("Invalid token"@))
            } else if c.exp->0 < now {
                Err(authentication("Token expired"@))
            } else if c.token_type->0 != expected.label() {
                Err(authentication("Invalid token type"@))
            } else {
                Ok(c.sub->0)
            }
        },
    }
}

/// What verifying a token under a secret gives at the time `now`.
pub open spec fn verified(token: Seq<char>, secret: Seq<char>, expected: TokenKind, now: int)
    -> Result<Seq<char>, ErrorView> {
    checked(hs256_claims(token, secret), expected, now)
}

pub open spec fn raw_view(decoded: Option<RawClaims>) -> Option<RawClaimsView> {
    match decoded {
        Some(c) => Some(c@),
        None => None,
    }
}

/// Signs a token of `kind` for `user_id`, issued at `now` and expiring
/// `lifetime` seconds later. The token decodes under the same secret to the
/// claims that went in.
pub fn mint_token(user_id: &str, secret: &str, kind: TokenKind, now: i64, lifetime: u64) -> (r:
    Result<String, AppError>)
    ensures
        issued(r, user_id@, secret@, kind, now as int, lifetime as int),
{
    let end: i128 = now as i128 + lifetime as i128;
    if end > i64::MAX as i128 {
        return Err(AppError::Internal("Token lifetime out of range".to_string()));
    }
    let claims = Claims {
        sub: user_id.to_string(),
        exp: end as i64,
        iat: now,
        token_type: kind.as_str().to_string(),
    };
    assert(claims@ == claims_for(user_id@, kind, now as int, lifetime as int));
    match jwt_encode(&claims, secret) {
        Ok(token) => Ok(token),
        Err(_) => Err(AppError::Internal("Token signing failed".to_string())),
    }
}

/// The lifetime of an access token, in seconds.
pub open spec fn access_lifetime(expiration_minutes: u64) -> int {
    expiration_minutes * 60
}

/// An access token for `user_id` as issued at `now`.
pub fn create_access_token_at(user_id: &str, secret: &str, expiration_minutes: u64, now: i64) -> (r:
    Result<String, AppError>)
    ensures
        issued(
            r,
            user_id@,
            secret@,
            TokenKind::Access,
            now as int,
            access_lifetime(expiration_minutes),
        ),
{
    if expiration_minutes > u64::MAX / 60 {
        return Err(AppError::Internal("Token lifetime out of range".to_string()));
    }
    mint_token(user_id, secret, TokenKind::Access, now, expiration_minutes * 60)
}

/// A refresh token for `user_id` as issued at `now`: it lives thirty days.
pub fn create_refresh_token_at(user_id: &str, secret: &str, now: i64) -> (r: Result<
    String,
    AppError,
>)
    ensures
        issued(
            r,
            user_id@,
            secret@,
            TokenKind::Refresh,
            now as int,
            REFRESH_LIFETIME_SECONDS as int,
        ),
{
    mint_token(user_id, secret, TokenKind::Refresh, now, REFRESH_LIFETIME_SECONDS)
}

/// An access token for `user_id`, issued now and expiring after
/// `expiration_minutes`.
pub fn create_access_token(user_id: &str, secret: &str, expiration_minutes: u64) -> (r: Result<
    String,
    AppError,
>)
    ensures
        exists|now: i64|
            #[trigger] issued(
                r,
                user_id@,
                secret@,
                TokenKind::Access,
                now as int,
                access_lifetime(expiration_minutes),
            ),
        forall|at: int|
            r is Ok ==> (#[trigger] verified(r->Ok_0@, secret@, TokenKind::Refresh, at)) is Err,
{
    let now = unix_now();
    let r = create_access_token_at(user_id, secret, expiration_minutes, now);
    proof {
        assert forall|at: int| r is Ok implies (#[trigger] verified(
            r->Ok_0@,
            secret@,
            TokenKind::Refresh,
            at,
        )) is Err by {
            lemma_wrong_kind_rejected(
                r->Ok_0@,
                secret@,
                claims_for(
                    user_id@,
                    TokenKind::Access,
                    now as int,
                    access_lifetime(expiration_minutes),
                ),
                TokenKind::Access,
                TokenKind::Refresh,
                at,
            );
        }
    }
    r
}

/// A refresh token for `user_id`, issued now and expiring after thirty days.
pub fn create_refresh_token(user_id: &str, secret: &str) -> (r: Result<String, AppError>)
    ensures
        exists|now: i64|
            #[trigger] issued(
                r,
                user_id@,
                secret@,
                TokenKind::Refresh,
                now as int,
                REFRESH_LIFETIME_SECONDS as int,
            ),
        forall|at: int|
            r is Ok ==> (#[trigger] verified(r->Ok_0@, secret@, TokenKind::Access, at)) is Err,
{
    let now = unix_now();
    let r = create_refresh_token_at(user_id, secret, now);
    proof {
        assert forall|at: int| r is Ok implies (#[trigger] verified(
            r->Ok_0@,
            secret@,
            TokenKind::Access,
            at,
        )) is Err by {
            lemma_wrong_kind_rejected(
                r->Ok_0@,
                secret@,
                claims_for(
                    user_id@,
                    TokenKind::Refresh,
                    now as int,
                    REFRESH_LIFETIME_SECONDS as int,
                ),
                TokenKind::Refresh,
                TokenKind::Access,
                at,
            );
        }
    }
    r
}

/// Decides on the claims that decoding gave: the subject where every claim
/// is present, the expiry has not passed and the kind is the expected one.
pub fn check_claims(decoded: Option<RawClaims>, expected: TokenKind, now: i64) -> (r: Result<
    String,
    AppError,
>)
    ensures
        text_outcome(r) == checked(raw_view(decoded), expected, now as int),
{
    let claims = match decoded {
        Some(c) => c,
        None => {
            return Err(AppError::Authentication("Invalid token".to_string()));
        },
    };
    match (claims.sub, claims.exp, claims.iat, claims.token_type) {
        (Some(sub), Some(exp), Some(_), Some(token_type)) => {
            if exp < now {
                Err(AppError::Authentication("Token expired".to_string()))
            } else if token_type != expected.as_str().to_string() {
                Err(AppError::Authentication("Invalid token type".to_string()))
            } else {
                Ok(sub)
            }
        },
        _ => Err(AppError::Authentication("Invalid token".to_string())),
    }
}

/// Verifies `token` under `secret` at the time `now`: the subject, where the
/// signature holds under HS256, the expiry has not passed and the kind is
/// `expected`.
pub fn verify_token(token: &str, secret: &str, expected: TokenKind, now: i64) -> (r: Result<
    String,
    AppError,
>)
    ensures
        text_outcome(r) == verified(token@, secret@, expected, now as int),
{
    let decoded = match jwt_decode(token, secret) {
        Ok(c) => Some(c),
        Err(_) => None,
    };
    check_claims(decoded, expected, now)
}

/// Verifies an access token against the clock.
pub fn verify_access_token(token: &str, secret: &str) -> (r: Result<String, AppError>)
    ensures
        exists|now: i64|
            text_outcome(r) == #[trigger] verified(token@, secret@, TokenKind::Access, now as int),
{
    let now = unix_now();
    verify_token(token, secret, TokenKind::Access, now)
}

/// Verifies a refresh token against the clock.
pub fn verify_refresh_token(token: &str, secret: &str) -> (r: Result<String, AppError>)
    ensures
        exists|now: i64|
            text_outcome(r) == #[trigger] verified(token@, secret@, TokenKind::Refresh, now as int),
{
    let now = unix_now();
    verify_token(token, secret, TokenKind::Refresh, now)
}

/// A token that carries one kind is refused wherever the other kind is
/// expected, whatever its subject, its secret and the time.
pub proof fn lemma_wrong_kind_rejected(
    token: Seq<char>,
    secret: Seq<char>,
    claims: ClaimsView,
    carried: TokenKind,
    expected: TokenKind,
    now: int,
)
    requires
        hs256_claims(token, secret) == Some(claims.complete()),
        claims.token_type == carried.label(),
        carried != expected,
    ensures
        verified(token, secret, expected, now) is Err,
        verified(token, secret, expected, now)->Err_0.kind == ErrorKind::Authentication,
{
    lemma_labels_differ(carried, expected);
}

/// A token verifies under its own kind and secret, as its subject, at every
/// time up to its expiry.
pub proof fn lemma_own_kind_accepted(
    token: Seq<char>,
    secret: Seq<char>,
    claims: ClaimsView,
    carried: TokenKind,
    now: int,
)
    requires
        hs256_claims(token, secret) == Some(claims.complete()),
        claims.token_type == carried.label(),
        now <= claims.exp,
    ensures
        verified(token, secret, carried, now) == Ok::<Seq<char>, ErrorView>(claims.sub),
{
}

/// The token that minting gives verifies under its own kind and secret, as
/// the user it was minted for, from the time of minting to its expiry.
pub proof fn lemma_minted_token_verifies(
    token: Seq<char>,
    user_id: Seq<char>,
    secret: Seq<char>,
    kind: TokenKind,
    now: int,
    lifetime: int,
    at: int,
)
    requires
        carries(token, user_id, secret, kind, now, lifetime),
        at <= now + lifetime,
    ensures
        verified(token, secret, kind, at) == Ok::<Seq<char>, ErrorView>(user_id),
{
}

/// A token whose expiry lies before `now` is refused, whether or not its
/// signature holds.
pub proof fn lemma_expired_rejected(
    token: Seq<char>,
    secret: Seq<char>,
    expected: TokenKind,
    now: int,
)
    requires
        hs256_claims(token, secret) matches Some(c) ==> (c.exp matches Some(e) ==> e < now),
    ensures
        verified(token, secret, expected, now) is Err,
        verified(token, secret, expected, now)->Err_0.kind == ErrorKind::Authentication,
{
}

/// Verification never fails otherwise than with an authentication failure.
pub proof fn lemma_verification_fails_as_authentication(
    token: Seq<char>,
    secret: Seq<char>,
    expected: TokenKind,
    now: int,
)
    ensures
        verified(token, secret, expected, now) matches Err(e) ==> e.kind
            == ErrorKind::Authentication,
{
}

} // verus!
