//! The records that the components read and write, as plain values. Times
//! are seconds since the epoch.

use vstd::prelude::*;

verus! {

/// A user account as it is stored.
#[derive(Clone, Debug, PartialEq, Eq)]
pub struct User {
    pub id: String,
    pub username: String,
    pub email: String,
    pub password_hash: String,
    pub did: Option<String>,
    pub created_at: i64,
    pub updated_at: i64,
    pub is_active: bool,
}

/// What of a user is shown to callers: everything but the credential.
#[derive(Clone, Debug, PartialEq, Eq)]
pub struct UserResponse {
    pub id: String,
    pub username: String,
    pub email: String,
    pub did: Option<String>,
    pub created_at: i64,
    pub updated_at: i64,
    pub is_active: bool,
}

#[derive(Clone, Debug, PartialEq, Eq)]
pub struct CreateUserRequest {
    pub username: String,
    pub email: String,
    pub password: String,
}

#[derive(Clone, Debug, PartialEq, Eq)]
pub struct LoginRequest {
    pub email: String,
    pub password: String,
}

#[derive(Clone, Debug, PartialEq, Eq)]
pub struct LoginResponse {
    pub access_token: String,
    pub refresh_token: String,
    pub token_type: String,
    pub expires_in: u64,
    pub user: UserResponse,
}

/// A registered OAuth client. `redirect_uris` holds a JSON array of strings.
#[derive(Clone, Debug, PartialEq, Eq)]
pub struct OAuthClient {
    pub id: String,
    pub client_secret: String,
    pub name: String,
    pub redirect_uris: String,
    pub scopes: String,
    pub is_active: bool,
}

#[derive(Clone, Debug, PartialEq, Eq)]
pub struct AuthorizeRequest {
    pub client_id: String,
    pub redirect_uri: String,
    pub response_type: String,
    pub scope: Option<String>,
    pub state: Option<String>,
}

#[derive(Clone, Debug, PartialEq, Eq)]
pub struct TokenRequest {
    pub client_id: String,
    pub client_secret: Option<String>,
    pub grant_type: String,
    pub code: Option<String>,
    pub refresh_token: Option<String>,
}

#[derive(Clone, Debug, PartialEq, Eq)]
pub struct TokenResponse {
    pub access_token: String,
    pub token_type: String,
    pub expires_in: u64,
    pub refresh_token: Option<String>,
    pub scope: Option<String>,
}

/// A pending authorization grant: usable once, before `expires_at`.
#[derive(Clone, Debug, PartialEq, Eq)]
pub struct AuthorizationCode {
    pub code: String,
    pub client_id: String,
    pub user_id: String,
    pub redirect_uri: String,
    pub scopes: Option<String>,
    pub expires_at: i64,
}

/// An opaque refresh token of a client, valid until `expires_at`.
#[derive(Clone, Debug, PartialEq, Eq)]
pub struct RefreshTokenRecord {
    pub token: String,
    pub client_id: String,
    pub user_id: String,
    pub scopes: Option<String>,
    pub expires_at: i64,
}

/// The shape of an optional text, as a mathematical value.
pub open spec fn text_of(s: Option<String>) -> Option<Seq<char>> {
    match s {
        Some(t) => Some(t@),
        None => None,
    }
}

/// Whether `shown` is the projection of `user`.
pub open spec fn projects(user: User, shown: UserResponse) -> bool {
    &&& shown.id@ == user.id@
    &&& shown.username@ == user.username@
    &&& shown.email@ == user.email@
    &&& text_of(shown.did) == text_of(user.did)
    &&& shown.created_at == user.created_at
    &&& shown.updated_at == user.updated_at
    &&& shown.is_active == user.is_active
}

/// A copy of an optional text.
pub fn copy_text(s: &Option<String>) -> (r: Option<String>)
    ensures
        text_of(r) == text_of(*s),
{
    match s {
        Some(t) => Some(t.clone()),
        None => None,
    }
}

impl UserResponse {
    /// The public projection of a user.
    pub fn from_user(user: &User) -> (r: UserResponse)
        ensures
            projects(*user, r),
    {
        UserResponse {
            id: user.id.clone(),
            username: user.username.clone(),
            email: user.email.clone(),
            did: copy_text(&user.did),
            created_at: user.created_at,
            updated_at: user.updated_at,
            is_active: user.is_active,
        }
    }
}

} // verus!
