//! The credential store: registration and login.

use crate::config::Config;
use crate::error::{
    authentication, database, fails, internal, validation, AppError, ErrorKind, ErrorView,
};
use crate::jwt::{
    carries, create_access_token_at, create_refresh_token_at, lemma_minted_token_verifies, minted,
    verified,
    verify_token, TokenKind, REFRESH_LIFETIME_SECONDS,
};
use crate::models::{
    projects, text_of, CreateUserRequest, LoginRequest, LoginResponse, User, UserResponse,
};
use crate::outside::{bcrypt_hash, bcrypt_verdict, bcrypt_verify, new_uuid, unix_now};
use vstd::prelude::*;
use vstd::string::*;

verus! {

/// The least number of characters in a password.
pub const MIN_PASSWORD_LENGTH: usize = 8;

#[derive(Clone, Debug, PartialEq, Eq)]
pub struct RefreshTokenRequest {
    pub refresh_token: String,
}

/// What a refresh gives: a new access token and its lifetime in seconds.
#[derive(Clone, Debug, PartialEq, Eq)]
pub struct RefreshResponse {
    pub access_token: String,
    pub token_type: String,
    pub expires_in: u64,
}

/// Whether some user already has the user name or the email.
pub open spec fn taken(users: Seq<User>, username: Seq<char>, email: Seq<char>) -> bool {
    exists|i: int|
        0 <= i < users.len() && ((#[trigger] users[i]).email@ == email || users[i].username@
            == username)
}

/// Whether some user already has the id.
pub open spec fn id_known(users: Seq<User>, id: Seq<char>) -> bool {
    exists|i: int| 0 <= i < users.len() && (#[trigger] users[i]).id@ == id
}

/// No two users share an id, a user name or an email.
pub open spec fn distinct_users(users: Seq<User>) -> bool {
    forall|i: int, j: int|
        0 <= i < j < users.len() ==> (#[trigger] users[i]).email@ != (#[trigger] users[j]).email@
            && users[i].username@ != users[j].username@ && users[i].id@ != users[j].id@
}

/// Whether an id is already in use.
pub fn knows_id(users: &Vec<User>, id: &String) -> (r: bool)
    ensures
        r == id_known(users@, id@),
{
    let mut i: usize = 0;
    while i < users.len()
        invariant
            i <= users.len(),
            forall|j: int| 0 <= j < i ==> (#[trigger] users@[j]).id@ != id@,
        decreases users.len() - i,
    {
        if users[i].id == *id {
            return true;
        }
        i += 1;
    }
    false
}

/// Whether `i` is the place of the first user with that email.
pub open spec fn first_with_email(users: Seq<User>, email: Seq<char>, i: int) -> bool {
    &&& 0 <= i < users.len()
    &&& users[i].email@ == email
    &&& forall|j: int| 0 <= j < i ==> (#[trigger] users[j]).email@ != email
}

/// The user with that email, if there is one.
pub open spec fn user_by_email(users: Seq<User>, email: Seq<char>) -> Option<User> {
    if exists|i: int| first_with_email(users, email, i) {
        Some(users[choose|i: int| first_with_email(users, email, i)])
    } else {
        None
    }
}

/// Whether `i` is the place of the first user with that id.
pub open spec fn first_with_id(users: Seq<User>, id: Seq<char>, i: int) -> bool {
    &&& 0 <= i < users.len()
    &&& users[i].id@ == id
    &&& forall|j: int| 0 <= j < i ==> (#[trigger] users[j]).id@ != id
}

/// The user with that id, if there is one.
pub open spec fn user_by_id(users: Seq<User>, id: Seq<char>) -> Option<User> {
    if exists|i: int| first_with_id(users, id, i) {
        Some(users[choose|i: int| first_with_id(users, id, i)])
    } else {
        None
    }
}

/// Looks a user up by email.
pub fn find_by_email<'a>(users: &'a Vec<User>, email: &String) -> (r: Option<&'a User>)
    ensures
        match r {
            Some(u) => user_by_email(users@, email@) == Some(*u),
            None => user_by_email(users@, email@) is None,
        },
{
    let mut i: usize = 0;
    while i < users.len()
        invariant
            i <= users.len(),
            forall|j: int| 0 <= j < i ==> (#[trigger] users@[j]).email@ != email@,
        decreases users.len() - i,
    {
        if users[i].email == *email {
            proof {
                assert(first_with_email(users@, email@, i as int));
                let k = choose|k: int| first_with_email(users@, email@, k);
                assert(k == i);
            }
            return Some(&users[i]);
        }
        i += 1;
    }
    None
}

/// Looks a user up by id.
pub fn find_by_id<'a>(users: &'a Vec<User>, id: &String) -> (r: Option<&'a User>)
    ensures
        match r {
            Some(u) => user_by_id(users@, id@) == Some(*u),
            None => user_by_id(users@, id@) is None,
        },
{
    let mut i: usize = 0;
    while i < users.len()
        invariant
            i <= users.len(),
            forall|j: int| 0 <= j < i ==> (#[trigger] users@[j]).id@ != id@,
        decreases users.len() - i,
    {
        if users[i].id == *id {
            proof {
                assert(first_with_id(users@, id@, i as int));
                let k = choose|k: int| first_with_id(users@, id@, k);
                assert(k == i);
            }
            return Some(&users[i]);
        }
        i += 1;
    }
    None
}

/// Why a registration is turned away before any credential is made: an empty
/// field, a password under eight characters, or a user name or email in use.
pub open spec fn registration_fault(users: Seq<User>, req: CreateUserRequest) -> Option<
    ErrorView,
> {
    if req.username@.len() == 0 || req.email@.len() == 0 || req.password@.len() == 0 {
        Some(validation("All fields are required"@))
    } else if req.password@.len() < MIN_PASSWORD_LENGTH {
        Some(validation("Password must be at least 8 characters"@))
    } else if taken(users, req.username@, req.email@) {
        Some(validation("User already exists"@))
    } else {
        None
    }
}

/// Checks a registration against the rules on its fields and against the
/// users that exist.
pub fn validate_registration(users: &Vec<User>, payload: &CreateUserRequest) -> (r: Result<
    (),
    AppError,
>)
    ensures
        match r {
            Ok(_) => registration_fault(users@, *payload) is None,
            Err(e) => registration_fault(users@, *payload) == Some(e@),
        },
{
    if payload.username.as_str().is_empty() || payload.email.as_str().is_empty()
        || payload.password.as_str().is_empty() {
        return Err(AppError::Validation("All fields are required".to_string()));
    }
    if payload.password.as_str().unicode_len() < MIN_PASSWORD_LENGTH {
        return Err(AppError::Validation("Password must be at least 8 characters".to_string()));
    }
    let mut i: usize = 0;
    while i < users.len()
        invariant
            i <= users.len(),
            payload.username@.len() != 0,
            payload.email@.len() != 0,
            payload.password@.len() != 0,
            payload.password@.len() >= MIN_PASSWORD_LENGTH,
            forall|j: int|
                0 <= j < i ==> (#[trigger] users@[j]).email@ != payload.email@
                    && users@[j].username@ != payload.username@,
        decreases users.len() - i,
    {
        if users[i].email == payload.email || users[i].username == payload.username {
            assert(users@[i as int].email@ == payload.email@ || users@[i as int].username@
                == payload.username@);
            assert(taken(users@, payload.username@, payload.email@));
            return Err(AppError::Validation("User already exists".to_string()));
        }
        i += 1;
    }
    Ok(())
}

/// Whether `after` is `before` with one new user for `req`, stored with the
/// credential `hash`, the id `id` and the time `now`, and shown as `shown`.
pub open spec fn stored(
    before: Seq<User>,
    after: Seq<User>,
    req: CreateUserRequest,
    hash: Seq<char>,
    id: Seq<char>,
    now: i64,
    shown: UserResponse,
) -> bool {
    &&& after.len() == before.len() + 1
    &&& after.drop_last() == before
    &&& !id_known(before, id)
    &&& after.last().id@ == id
    &&& after.last().username@ == req.username@
    &&& after.last().email@ == req.email@
    &&& after.last().password_hash@ == hash
    &&& after.last().password_hash@ != req.password@
    &&& after.last().did is None
    &&& after.last().created_at == now
    &&& after.last().updated_at == now
    &&& after.last().is_active
    &&& projects(after.last(), shown)
}

/// Why an accepted registration is still not stored: no credential could be
/// made, the credential would be the password itself, or the id is in use.
pub open spec fn completion_fault(
    users: Seq<User>,
    req: CreateUserRequest,
    hashed: Option<Seq<char>>,
    id: Seq<char>,
) -> Option<ErrorView> {
    if hashed is None || hashed->0 == req.password@ {
        Some(internal("Password hashing failed"@))
    } else if id_known(users, id) {
        Some(database("User id already exists"@))
    } else {
        None
    }
}

/// Stores the user of an accepted registration, given the credential that
/// hashing produced (`None` where it failed), a fresh id and the time.
pub fn complete_registration(
    users: &mut Vec<User>,
    payload: &CreateUserRequest,
    hashed: Option<String>,
    id: String,
    now: i64,
) -> (r: Result<UserResponse, AppError>)
    ensures
        match completion_fault(old(users)@, *payload, text_of(hashed), id@) {
            Some(e) => fails(r, e) && final(users)@ == old(users)@,
            None => r is Ok && stored(
                old(users)@,
                final(users)@,
                *payload,
                hashed->0@,
                id@,
                now,
                r->Ok_0,
            ),
        },
{
    let password_hash = match hashed {
        Some(h) => h,
        None => {
            return Err(AppError::Internal("Password hashing failed".to_string()));
        },
    };
    if password_hash == payload.password {
        return Err(AppError::Internal("Password hashing failed".to_string()));
    }
    if knows_id(users, &id) {
        return Err(AppError::Database("User id already exists".to_string()));
    }
    let user = User {
        id,
        username: payload.username.clone(),
        email: payload.email.clone(),
        password_hash,
        did: None,
        created_at: now,
        updated_at: now,
        is_active: true,
    };
    let shown = UserResponse::from_user(&user);
    users.push(user);
    proof {
        assert(final(users)@.drop_last() == old(users)@);
    }
    Ok(shown)
}

/// Registers a user: turns the request away as `registration_fault` says;
/// otherwise hashes the password and stores the new user, whose credential
/// verifies against the password and differs from it.
pub fn register(users: &mut Vec<User>, payload: &CreateUserRequest) -> (r: Result<
    UserResponse,
    AppError,
>)
    ensures
        registration_fault(old(users)@, *payload) matches Some(e) ==> fails(r, e) && final(users)@
            == old(users)@,
        registration_fault(old(users)@, *payload) is None ==> match r {
            Ok(shown) => exists|now: i64|
                #[trigger] stored(
                    old(users)@,
                    final(users)@,
                    *payload,
                    final(users)@.last().password_hash@,
                    final(users)@.last().id@,
                    now,
                    shown,
                ) && bcrypt_verdict(payload.password@, final(users)@.last().password_hash@)
                    == Some(true),
            Err(f) => (f@ == internal("Password hashing failed"@) || f@ == database(
                "User id already exists"@,
            )) && final(users)@ == old(users)@,
        },
{
    match validate_registration(users, payload) {
        Err(e) => {
            return Err(e);
        },
        Ok(_) => {},
    }
    let hashed = match bcrypt_hash(payload.password.as_str()) {
        Ok(h) => Some(h),
        Err(_) => None,
    };
    let id = new_uuid();
    let now = unix_now();
    let ghost hash = hashed;
    let ghost uid = id@;
    let r = complete_registration(users, payload, hashed, id, now);
    proof {
        if r is Ok {
            assert(stored(old(users)@, final(users)@, *payload, hash->0@, uid, now, r->Ok_0));
        }
    }
    r
}

/// Why a login is turned away before any token is made. An unknown email and
/// a wrong password give the same failure.
pub open spec fn login_fault(user: Option<User>, password: Seq<char>) -> Option<ErrorView> {
    match user {
        None => Some(authentication("Invalid credentials"@)),
        Some(u) => match bcrypt_verdict(password, u.password_hash@) {
            None => Some(internal("Password verification failed"@)),
            Some(false) => Some(authentication("Invalid credentials"@)),
            Some(true) => if u.is_active {
                None
            } else {
                Some(authentication("Account is disabled"@))
            },
        },
    }
}

/// What a login at the time `now` gives.
pub open spec fn login_outcome(
    users: Seq<User>,
    req: LoginRequest,
    config: Config,
    now: i64,
    r: Result<LoginResponse, AppError>,
) -> bool {
    let user = user_by_email(users, req.email@);
    match login_fault(user, req.password@) {
        Some(e) => r matches Err(f) && f@ == e,
        None => {
            let access = minted(
                user->0.id@,
                config.jwt_secret@,
                TokenKind::Access,
                now as int,
                config.expires_in(),
            );
            let refresh = minted(
                user->0.id@,
                config.jwt_secret@,
                TokenKind::Refresh,
                now as int,
                REFRESH_LIFETIME_SECONDS as int,
            );
            match (access, refresh) {
                (Ok(_), Ok(_)) => {
                    &&& r matches Ok(resp)
                    &&& carries(
                        resp.access_token@,
                        user->0.id@,
                        config.jwt_secret@,
                        TokenKind::Access,
                        now as int,
                        config.expires_in(),
                    )
                    &&& carries(
                        resp.refresh_token@,
                        user->0.id@,
                        config.jwt_secret@,
                        TokenKind::Refresh,
                        now as int,
                        REFRESH_LIFETIME_SECONDS as int,
                    )
                    &&& resp.token_type@ == "Bearer"@
                    &&& resp.expires_in == config.expires_in()
                    &&& projects(user->0, resp.user)
                },
                (Err(e), _) => r matches Err(f) && f@ == e,
                (Ok(_), Err(e)) => r matches Err(f) && f@ == e,
            }
        },
    }
}

/// Logs a user in at the time `now`.
pub fn login_at(users: &Vec<User>, payload: &LoginRequest, config: &Config, now: i64) -> (r: Result<
    LoginResponse,
    AppError,
>)
    ensures
        login_outcome(
            users@,
            *payload,
            *config,
            now,
            r,
        ),
{
    let user = match find_by_email(users, &payload.email) {
        Some(u) => u,
        None => {
            return Err(AppError::Authentication("Invalid credentials".to_string()));
        },
    };
    let is_valid = match bcrypt_verify(payload.password.as_str(), user.password_hash.as_str()) {
        Ok(b) => b,
        Err(_) => {
            return Err(AppError::Internal("Password verification failed".to_string()));
        },
    };
    if !is_valid {
        return Err(AppError::Authentication("Invalid credentials".to_string()));
    }
    if !user.is_active {
        return Err(AppError::Authentication("Account is disabled".to_string()));
    }
    let access_token = match create_access_token_at(
        user.id.as_str(),
        config.jwt_secret.as_str(),
        config.token_expiration_minutes,
        now,
    ) {
        Ok(t) => t,
        Err(e) => {
            return Err(e);
        },
    };
    let refresh_token = match create_refresh_token_at(
        user.id.as_str(),
        config.jwt_secret.as_str(),
        now,
    ) {
        Ok(t) => t,
        Err(e) => {
            return Err(e);
        },
    };
    assert(config.token_expiration_minutes * 60 <= u64::MAX);
    Ok(
        LoginResponse {
            access_token,
            refresh_token,
            token_type: "Bearer".to_string(),
            expires_in: config.token_expiration_minutes * 60,
            user: UserResponse::from_user(user),
        },
    )
}

/// Logs a user in against the clock: an access token and a refresh token for
/// the user with that email, where the password verifies and the account is
/// active.
pub fn login(users: &Vec<User>, payload: &LoginRequest, config: &Config) -> (r: Result<
    LoginResponse,
    AppError,
>)
    ensures
        exists|now: i64|
            #[trigger] login_outcome(
                users@,
                *payload,
                *config,
                now,
                r,
            ),
{
    let now = unix_now();
    login_at(users, payload, config, now)
}

/// What a refresh at the time `now` gives.
pub open spec fn refresh_outcome(
    users: Seq<User>,
    token: Seq<char>,
    config: Config,
    now: i64,
    r: Result<RefreshResponse, AppError>,
) -> bool {
    match verified(token, config.jwt_secret@, TokenKind::Refresh, now as int) {
        Err(e) => r matches Err(f) && f@ == e,
        Ok(id) => match user_by_id(users, id) {
            None => r matches Err(f) && f@ == authentication("User not found"@),
            Some(u) => if !u.is_active {
                r matches Err(f) && f@ == authentication("Account is disabled"@)
            } else {
                match minted(u.id@, config.jwt_secret@, TokenKind::Access, now as int, config.expires_in()) {
                    Ok(_) => {
                        &&& r matches Ok(resp)
                        &&& carries(
                            resp.access_token@,
                            u.id@,
                            config.jwt_secret@,
                            TokenKind::Access,
                            now as int,
                            config.expires_in(),
                        )
                        &&& resp.token_type@ == "Bearer"@
                        &&& resp.expires_in == config.expires_in()
                    },
                    Err(e) => r matches Err(f) && f@ == e,
                }
            },
        },
    }
}

/// Exchanges a refresh token for a new access token at the time `now`.
pub fn refresh_token_at(
    users: &Vec<User>,
    payload: &RefreshTokenRequest,
    config: &Config,
    now: i64,
) -> (r: Result<RefreshResponse, AppError>)
    ensures
        refresh_outcome(
            users@,
            payload.refresh_token@,
            *config,
            now,
            r,
        ),
{
    let user_id = match verify_token(
        payload.refresh_token.as_str(),
        config.jwt_secret.as_str(),
        TokenKind::Refresh,
        now,
    ) {
        Ok(id) => id,
        Err(e) => {
            return Err(e);
        },
    };
    let user = match find_by_id(users, &user_id) {
        Some(u) => u,
        None => {
            return Err(AppError::Authentication("User not found".to_string()));
        },
    };
    if !user.is_active {
        return Err(AppError::Authentication("Account is disabled".to_string()));
    }
    let access_token = match create_access_token_at(
        user.id.as_str(),
        config.jwt_secret.as_str(),
        config.token_expiration_minutes,
        now,
    ) {
        Ok(t) => t,
        Err(e) => {
            return Err(e);
        },
    };
    assert(config.token_expiration_minutes * 60 <= u64::MAX);
    Ok(
        RefreshResponse {
            access_token,
            token_type: "Bearer".to_string(),
            expires_in: config.token_expiration_minutes * 60,
        },
    )
}

/// Exchanges a refresh token for a new access token, against the clock. The
/// token must be of the refresh kind, and its user must exist and be active.
pub fn refresh_token(users: &Vec<User>, payload: &RefreshTokenRequest, config: &Config) -> (r:
    Result<RefreshResponse, AppError>)
    ensures
        exists|now: i64|
            #[trigger] refresh_outcome(
                users@,
                payload.refresh_token@,
                *config,
                now,
                r,
            ),
{
    let now = unix_now();
    refresh_token_at(users, payload, config, now)
}

/// The credential that registration stores verifies against the password that
/// was given, and is never the password itself.
pub proof fn lemma_stored_credential(
    before: Seq<User>,
    after: Seq<User>,
    req: CreateUserRequest,
    id: Seq<char>,
    now: i64,
    shown: UserResponse,
)
    requires
        stored(before, after, req, after.last().password_hash@, id, now, shown),
        bcrypt_verdict(req.password@, after.last().password_hash@) == Some(true),
    ensures
        after.last().password_hash@ != req.password@,
        login_fault(Some(after.last()), req.password@) is None,
{
}

/// Once a user is stored, a registration with the same email or the same user
/// name is turned away as a validation failure, and so is any registration
/// whose password has fewer than eight characters.
pub proof fn lemma_duplicate_registration(
    before: Seq<User>,
    after: Seq<User>,
    first: CreateUserRequest,
    second: CreateUserRequest,
    hash: Seq<char>,
    id: Seq<char>,
    now: i64,
    shown: UserResponse,
)
    requires
        stored(before, after, first, hash, id, now, shown),
        second.email@ == first.email@ || second.username@ == first.username@,
    ensures
        registration_fault(after, second) is Some,
        registration_fault(after, second)->0.kind == ErrorKind::Validation,
{
    let k = after.len() - 1;
    assert(after[k].email@ == second.email@ || after[k].username@ == second.username@);
    assert(taken(after, second.username@, second.email@));
}

/// A password of fewer than eight characters is turned away as a validation
/// failure, whatever the other fields and the users that exist.
pub proof fn lemma_short_password(users: Seq<User>, req: CreateUserRequest)
    requires
        req.password@.len() < MIN_PASSWORD_LENGTH,
    ensures
        registration_fault(users, req) is Some,
        registration_fault(users, req)->0.kind == ErrorKind::Validation,
{
}

/// Registration keeps ids, user names and emails unique.
pub proof fn lemma_registration_keeps_distinct(
    before: Seq<User>,
    after: Seq<User>,
    req: CreateUserRequest,
    hash: Seq<char>,
    id: Seq<char>,
    now: i64,
    shown: UserResponse,
)
    requires
        distinct_users(before),
        registration_fault(before, req) is None,
        stored(before, after, req, hash, id, now, shown),
    ensures
        distinct_users(after),
{
    assert forall|i: int, j: int| 0 <= i < j < after.len() implies (#[trigger] after[i]).email@ != (
    #[trigger] after[j]).email@ && after[i].username@ != after[j].username@ && after[i].id@
        != after[j].id@ by {
        assert(after.drop_last()[i] == after[i]);
        if j < before.len() {
            assert(after.drop_last()[j] == after[j]);
        } else {
            assert(!taken(before, req.username@, req.email@));
            assert(!id_known(before, id));
            assert(before[i].email@ != req.email@ && before[i].username@ != req.username@);
            assert(before[i].id@ != id);
        }
    }
}

/// The tokens of a successful login are not empty, and each verifies under
/// the secret and its own kind as the user who logged in, from the time of
/// the login to its expiry.
pub proof fn lemma_login_tokens_verify(
    users: Seq<User>,
    req: LoginRequest,
    config: Config,
    now: i64,
    r: Result<LoginResponse, AppError>,
    at: int,
)
    requires
        login_outcome(users, req, config, now, r),
        r is Ok,
        at <= now + config.expires_in(),
    ensures
        user_by_email(users, req.email@) is Some,
        r->Ok_0.access_token@.len() > 0,
        r->Ok_0.refresh_token@.len() > 0,
        r->Ok_0.expires_in == config.token_expiration_minutes * 60,
        verified(r->Ok_0.access_token@, config.jwt_secret@, TokenKind::Access, at) == Ok::<
            Seq<char>,
            ErrorView,
        >(user_by_email(users, req.email@)->0.id@),
        verified(r->Ok_0.refresh_token@, config.jwt_secret@, TokenKind::Refresh, now as int)
            == Ok::<Seq<char>, ErrorView>(user_by_email(users, req.email@)->0.id@),
{
    let user = user_by_email(users, req.email@)->0;
    lemma_minted_token_verifies(
        r->Ok_0.access_token@,
        user.id@,
        config.jwt_secret@,
        TokenKind::Access,
        now as int,
        config.expires_in(),
        at,
    );
    lemma_minted_token_verifies(
        r->Ok_0.refresh_token@,
        user.id@,
        config.jwt_secret@,
        TokenKind::Refresh,
        now as int,
        REFRESH_LIFETIME_SECONDS as int,
        now as int,
    );
}

/// A login with the right password on an account that is not active is
/// turned away as an authentication failure.
pub proof fn lemma_inactive_account(user: User, password: Seq<char>)
    requires
        bcrypt_verdict(password, user.password_hash@) == Some(true),
        !user.is_active,
    ensures
        login_fault(Some(user), password) == Some(authentication("Account is disabled"@)),
{
}

} // verus!
