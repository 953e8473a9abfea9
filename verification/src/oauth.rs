//! The OAuth grant engine: client checks, the authorization-code exchange and
//! the refresh grant.

use crate::auth::{find_by_id, user_by_id};
use crate::config::Config;
use crate::error::{
    authentication, database, fails, internal, AppError, ErrorKind, ErrorView,
};
use crate::jwt::{
    carries, create_access_token_at, lemma_minted_token_verifies, minted, verified, verify_token,
    TokenKind,
};
use crate::models::{
    text_of, AuthorizationCode, AuthorizeRequest, OAuthClient, RefreshTokenRecord, TokenRequest,
    TokenResponse, User,
};
use crate::outside::{
    base64url, base64url_encode, json_string_list, parse_string_list, random_bytes, texts,
    unix_now,
};
use crate::text::{after_prefix, or_empty, same_text, starts_with};
use vstd::prelude::*;
use vstd::string::*;

verus! {

/// What the user-info endpoint tells of a subject.
#[derive(Clone, Debug, PartialEq, Eq)]
pub struct UserInfo {
    pub sub: String,
    pub name: String,
    pub email: String,
    pub preferred_username: String,
}

/// The metadata that describes the issuer and its endpoints.
#[derive(Clone, Debug, PartialEq, Eq)]
pub struct DiscoveryDocument {
    pub issuer: String,
    pub authorization_endpoint: String,
    pub token_endpoint: String,
    pub userinfo_endpoint: String,
    pub jwks_uri: String,
    pub response_types_supported: Vec<String>,
    pub subject_types_supported: Vec<String>,
    pub id_token_signing_alg_values_supported: Vec<String>,
}

/// Whether `i` is the place of the first client with that id.
pub open spec fn first_client(clients: Seq<OAuthClient>, id: Seq<char>, i: int) -> bool {
    &&& 0 <= i < clients.len()
    &&& clients[i].id@ == id
    &&& forall|j: int| 0 <= j < i ==> (#[trigger] clients[j]).id@ != id
}

/// The client with that id, if there is one.
pub open spec fn client_by_id(clients: Seq<OAuthClient>, id: Seq<char>) -> Option<OAuthClient> {
    if exists|i: int| first_client(clients, id, i) {
        Some(clients[choose|i: int| first_client(clients, id, i)])
    } else {
        None
    }
}

/// Whether `i` is the place of the first record of that code for that client.
pub open spec fn first_code(
    codes: Seq<AuthorizationCode>,
    code: Seq<char>,
    client_id: Seq<char>,
    i: int,
) -> bool {
    &&& 0 <= i < codes.len()
    &&& codes[i].code@ == code
    &&& codes[i].client_id@ == client_id
    &&& forall|j: int|
        0 <= j < i ==> !((#[trigger] codes[j]).code@ == code && codes[j].client_id@ == client_id)
}

/// The record of that code for that client, if there is one.
pub open spec fn code_for(codes: Seq<AuthorizationCode>, code: Seq<char>, client_id: Seq<char>)
    -> Option<AuthorizationCode> {
    if exists|i: int| first_code(codes, code, client_id, i) {
        Some(codes[choose|i: int| first_code(codes, code, client_id, i)])
    } else {
        None
    }
}

/// Whether `i` is the place of the first record of that refresh token for
/// that client.
pub open spec fn first_refresh(
    records: Seq<RefreshTokenRecord>,
    token: Seq<char>,
    client_id: Seq<char>,
    i: int,
) -> bool {
    &&& 0 <= i < records.len()
    &&& records[i].token@ == token
    &&& records[i].client_id@ == client_id
    &&& forall|j: int|
        0 <= j < i ==> !((#[trigger] records[j]).token@ == token && records[j].client_id@
            == client_id)
}

/// The record of that refresh token for that client, if there is one.
pub open spec fn refresh_for(
    records: Seq<RefreshTokenRecord>,
    token: Seq<char>,
    client_id: Seq<char>,
) -> Option<RefreshTokenRecord> {
    if exists|i: int| first_refresh(records, token, client_id, i) {
        Some(records[choose|i: int| first_refresh(records, token, client_id, i)])
    } else {
        None
    }
}

/// Whether some record holds that refresh token, for whatever client.
pub open spec fn token_known(records: Seq<RefreshTokenRecord>, token: Seq<char>) -> bool {
    exists|i: int| 0 <= i < records.len() && (#[trigger] records[i]).token@ == token
}

/// Whether some record holds that code, for whatever client.
pub open spec fn code_known(codes: Seq<AuthorizationCode>, code: Seq<char>) -> bool {
    exists|i: int| 0 <= i < codes.len() && (#[trigger] codes[i]).code@ == code
}

/// The records that are left when every record of `code` is deleted.
pub open spec fn without_code(codes: Seq<AuthorizationCode>, code: Seq<char>) -> Seq<
    AuthorizationCode,
>
    decreases codes.len(),
{
    if codes.len() == 0 {
        codes
    } else if codes[0].code@ == code {
        without_code(codes.drop_first(), code)
    } else {
        seq![codes[0]] + without_code(codes.drop_first(), code)
    }
}

/// Looks a client up by id.
pub fn find_client<'a>(clients: &'a Vec<OAuthClient>, id: &String) -> (r: Option<&'a OAuthClient>)
    ensures
        match r {
            Some(c) => client_by_id(clients@, id@) == Some(*c),
            None => client_by_id(clients@, id@) is None,
        },
{
    let mut i: usize = 0;
    while i < clients.len()
        invariant
            i <= clients.len(),
            forall|j: int| 0 <= j < i ==> (#[trigger] clients@[j]).id@ != id@,
        decreases clients.len() - i,
    {
        if clients[i].id == *id {
            proof {
                assert(first_client(clients@, id@, i as int));
                let k = choose|k: int| first_client(clients@, id@, k);
                assert(k == i);
            }
            return Some(&clients[i]);
        }
        i += 1;
    }
    None
}

/// Looks the record of a code up for a client.
pub fn find_code<'a>(codes: &'a Vec<AuthorizationCode>, code: &String, client_id: &String) -> (r:
    Option<&'a AuthorizationCode>)
    ensures
        match r {
            Some(c) => code_for(codes@, code@, client_id@) == Some(*c),
            None => code_for(codes@, code@, client_id@) is None,
        },
{
    let mut i: usize = 0;
    while i < codes.len()
        invariant
            i <= codes.len(),
            forall|j: int|
                0 <= j < i ==> !((#[trigger] codes@[j]).code@ == code@ && codes@[j].client_id@
                    == client_id@),
        decreases codes.len() - i,
    {
        if codes[i].code == *code && codes[i].client_id == *client_id {
            proof {
                assert(first_code(codes@, code@, client_id@, i as int));
                let k = choose|k: int| first_code(codes@, code@, client_id@, k);
                assert(k == i);
            }
            return Some(&codes[i]);
        }
        i += 1;
    }
    None
}

/// Looks the record of a refresh token up for a client.
pub fn find_refresh<'a>(
    records: &'a Vec<RefreshTokenRecord>,
    token: &String,
    client_id: &String,
) -> (r: Option<&'a RefreshTokenRecord>)
    ensures
        match r {
            Some(c) => refresh_for(records@, token@, client_id@) == Some(*c),
            None => refresh_for(records@, token@, client_id@) is None,
        },
{
    let mut i: usize = 0;
    while i < records.len()
        invariant
            i <= records.len(),
            forall|j: int|
                0 <= j < i ==> !((#[trigger] records@[j]).token@ == token@
                    && records@[j].client_id@ == client_id@),
        decreases records.len() - i,
    {
        if records[i].token == *token && records[i].client_id == *client_id {
            proof {
                assert(first_refresh(records@, token@, client_id@, i as int));
                let k = choose|k: int| first_refresh(records@, token@, client_id@, k);
                assert(k == i);
            }
            return Some(&records[i]);
        }
        i += 1;
    }
    None
}

/// Whether a refresh token is already on record.
pub fn knows_token(records: &Vec<RefreshTokenRecord>, token: &String) -> (r: bool)
    ensures
        r == token_known(records@, token@),
{
    let mut i: usize = 0;
    while i < records.len()
        invariant
            i <= records.len(),
            forall|j: int| 0 <= j < i ==> (#[trigger] records@[j]).token@ != token@,
        decreases records.len() - i,
    {
        if records[i].token == *token {
            return true;
        }
        i += 1;
    }
    false
}

/// Whether a code is already on record.
pub fn knows_code(codes: &Vec<AuthorizationCode>, code: &String) -> (r: bool)
    ensures
        r == code_known(codes@, code@),
{
    let mut i: usize = 0;
    while i < codes.len()
        invariant
            i <= codes.len(),
            forall|j: int| 0 <= j < i ==> (#[trigger] codes@[j]).code@ != code@,
        decreases codes.len() - i,
    {
        if codes[i].code == *code {
            return true;
        }
        i += 1;
    }
    false
}

/// Deletes every record of a code.
pub fn delete_code(codes: &mut Vec<AuthorizationCode>, code: &String)
    ensures
        final(codes)@ == without_code(old(codes)@, code@),
{
    let ghost before = codes@;
    let mut i: usize = codes.len();
    proof {
        assert(before.subrange(i as int, before.len() as int) =~= Seq::empty());
        assert(codes@.subrange(i as int, codes@.len() as int) =~= Seq::empty());
    }
    while i > 0
        invariant
            i <= codes.len(),
            i <= before.len(),
            codes@.subrange(0, i as int) == before.subrange(0, i as int),
            codes@.subrange(i as int, codes@.len() as int) == without_code(
                before.subrange(i as int, before.len() as int),
                code@,
            ),
        decreases i,
    {
        i -= 1;
        let ghost tail = before.subrange(i as int, before.len() as int);
        let ghost kept = codes@.subrange(i as int + 1, codes@.len() as int);
        proof {
            assert(codes@[i as int] == codes@.subrange(0, i as int + 1)[i as int]);
            assert(before[i as int] == before.subrange(0, i as int + 1)[i as int]);
            assert(tail.drop_first() =~= before.subrange(i as int + 1, before.len() as int));
            assert(tail[0] == before[i as int]);
        }
        let ghost prior = codes@;
        if codes[i].code == *code {
            codes.remove(i);
            proof {
                assert(codes@.subrange(i as int, codes@.len() as int) =~= kept);
                assert(codes@.subrange(0, i as int) =~= prior.subrange(0, i as int + 1).subrange(
                    0,
                    i as int,
                ));
                assert(before.subrange(0, i as int) =~= before.subrange(0, i as int + 1).subrange(
                    0,
                    i as int,
                ));
            }
        } else {
            proof {
                assert(codes@.subrange(i as int, codes@.len() as int) =~= seq![codes@[i as int]]
                    + kept);
                assert(codes@.subrange(0, i as int) =~= prior.subrange(0, i as int + 1).subrange(
                    0,
                    i as int,
                ));
                assert(before.subrange(0, i as int) =~= before.subrange(0, i as int + 1).subrange(
                    0,
                    i as int,
                ));
            }
        }
    }
    proof {
        assert(codes@.subrange(0, codes@.len() as int) =~= codes@);
        assert(before.subrange(0, before.len() as int) =~= before);
    }
}

/// No record of a code is left once the code is deleted.
pub proof fn lemma_deleted_code_unknown(codes: Seq<AuthorizationCode>, code: Seq<char>)
    ensures
        forall|i: int|
            0 <= i < without_code(codes, code).len() ==> (#[trigger] without_code(
                codes,
                code,
            )[i]).code@ != code,
    decreases codes.len(),
{
    if codes.len() > 0 {
        lemma_deleted_code_unknown(codes.drop_first(), code);
    }
}

/// How long an opaque refresh token of a client lives: thirty days, in
/// seconds.
pub const GRANT_LIFETIME_SECONDS: i64 = 2_592_000;

/// Whether a redirect URI is among the registered ones.
pub fn redirect_allowed(uris: &Vec<String>, uri: &String) -> (r: bool)
    ensures
        r == texts(uris@).contains(uri@),
{
    let mut i: usize = 0;
    while i < uris.len()
        invariant
            i <= uris.len(),
            forall|j: int| 0 <= j < i ==> (#[trigger] texts(uris@)[j]) != uri@,
        decreases uris.len() - i,
    {
        if uris[i] == *uri {
            assert(texts(uris@)[i as int] == uri@);
            return true;
        }
        i += 1;
    }
    false
}

/// Why an authorization request is turned away: an unknown or disabled
/// client, a client whose redirect URIs cannot be read, or a redirect URI
/// that the client has not registered.
pub open spec fn authorize_fault(clients: Seq<OAuthClient>, req: AuthorizeRequest) -> Option<
    ErrorView,
> {
    match client_by_id(clients, req.client_id@) {
        None => Some(authentication("Invalid client"@)),
        Some(c) => if !c.is_active {
            Some(authentication("Client is disabled"@))
        } else {
            match json_string_list(c.redirect_uris@) {
                None => Some(internal("Invalid redirect URIs format"@)),
                Some(uris) => if uris.contains(req.redirect_uri@) {
                    None
                } else {
                    Some(authentication("Invalid redirect URI"@))
                },
            }
        },
    }
}

/// Where an accepted authorization request is sent on to.
pub open spec fn authorize_url(req: AuthorizeRequest) -> Seq<char> {
    "/oauth/login?response_type="@ + req.response_type@ + "&client_id="@ + req.client_id@
        + "&redirect_uri="@ + req.redirect_uri@ + "&scope="@ + (match req.scope {
        Some(s) => s@,
        None => Seq::<char>::empty(),
    }) + "&state="@ + (match req.state {
        Some(s) => s@,
        None => Seq::<char>::empty(),
    })
}

/// Checks an authorization request against the registered clients and gives
/// the address of the login step. The grant itself is recorded by
/// `issue_authorization_code`, once that step knows the user.
pub fn authorize(clients: &Vec<OAuthClient>, params: &AuthorizeRequest) -> (r: Result<
    String,
    AppError,
>)
    ensures
        match r {
            Ok(url) => authorize_fault(clients@, *params) is None && url@ == authorize_url(
                *params,
            ),
            Err(e) => authorize_fault(clients@, *params) == Some(e@),
        },
{
    let client = match find_client(clients, &params.client_id) {
        Some(c) => c,
        None => {
            return Err(AppError::Authentication("Invalid client".to_string()));
        },
    };
    if !client.is_active {
        return Err(AppError::Authentication("Client is disabled".to_string()));
    }
    let redirect_uris = match parse_string_list(client.redirect_uris.as_str()) {
        Ok(v) => v,
        Err(_) => {
            return Err(AppError::Internal("Invalid redirect URIs format".to_string()));
        },
    };
    if !redirect_allowed(&redirect_uris, &params.redirect_uri) {
        return Err(AppError::Authentication("Invalid redirect URI".to_string()));
    }
    let scope = or_empty(&params.scope);
    let state = or_empty(&params.state);
    let url = "/oauth/login?response_type=".to_string().concat(
        params.response_type.as_str(),
    ).concat("&client_id=").concat(params.client_id.as_str()).concat("&redirect_uri=").concat(
        params.redirect_uri.as_str(),
    ).concat("&scope=").concat(scope.as_str()).concat("&state=").concat(state.as_str());
    Ok(url)
}

/// An opaque token: the URL-safe encoding of thirty-two random bytes.
pub fn generate_refresh_token() -> (r: String)
    ensures
        exists|bytes: Seq<u8>| #[trigger] is_opaque_token(r@, bytes),
{
    let bytes = random_bytes();
    let r = base64url_encode(bytes.as_slice());
    assert(is_opaque_token(r@, bytes@));
    r
}

/// Whether `token` is the encoding of the thirty-two bytes `bytes`.
pub open spec fn is_opaque_token(token: Seq<char>, bytes: Seq<u8>) -> bool {
    bytes.len() == 32 && token == base64url(bytes)
}

/// Whether `after` is `before` with one more grant: the code `code` of
/// `client_id` for `user_id`, usable until `expires_at`.
pub open spec fn granted(
    before: Seq<AuthorizationCode>,
    after: Seq<AuthorizationCode>,
    code: Seq<char>,
    client_id: Seq<char>,
    user_id: Seq<char>,
    redirect_uri: Seq<char>,
    scopes: Option<Seq<char>>,
    expires_at: int,
) -> bool {
    &&& after.len() == before.len() + 1
    &&& after.drop_last() == before
    &&& after.last().code@ == code
    &&& after.last().client_id@ == client_id
    &&& after.last().user_id@ == user_id
    &&& after.last().redirect_uri@ == redirect_uri
    &&& text_of(after.last().scopes) == scopes
    &&& after.last().expires_at == expires_at
}

/// Records a pending authorization grant for a user at the time `now`: the
/// code is `code`, and it can be used for `ttl_minutes`. A code that is
/// already on record is not recorded again.
pub fn issue_authorization_code_at(
    codes: &mut Vec<AuthorizationCode>,
    client_id: &String,
    user_id: &String,
    redirect_uri: &String,
    scopes: &Option<String>,
    ttl_minutes: u64,
    now: i64,
    code: String,
) -> (r: Result<String, AppError>)
    ensures
        now + ttl_minutes * 60 > i64::MAX ==> fails(r, internal("Code lifetime out of range"@))
            && final(codes)@ == old(codes)@,
        now + ttl_minutes * 60 <= i64::MAX && code_known(old(codes)@, code@) ==> fails(
            r,
            database("Authorization code already exists"@),
        ) && final(codes)@ == old(codes)@,
        now + ttl_minutes * 60 <= i64::MAX && !code_known(old(codes)@, code@) ==> r is Ok
            && r->Ok_0@ == code@ && granted(
            old(codes)@,
            final(codes)@,
            code@,
            client_id@,
            user_id@,
            redirect_uri@,
            text_of(*scopes),
            now + ttl_minutes * 60,
        ),
{
    let end: i128 = now as i128 + (ttl_minutes as i128) * 60;
    if end > i64::MAX as i128 {
        return Err(AppError::Internal("Code lifetime out of range".to_string()));
    }
    if knows_code(codes, &code) {
        return Err(AppError::Database("Authorization code already exists".to_string()));
    }
    let record = AuthorizationCode {
        code: code.clone(),
        client_id: client_id.clone(),
        user_id: user_id.clone(),
        redirect_uri: redirect_uri.clone(),
        scopes: crate::models::copy_text(scopes),
        expires_at: end as i64,
    };
    codes.push(record);
    proof {
        assert(final(codes)@.drop_last() == old(codes)@);
    }
    Ok(code)
}

/// Records a pending authorization grant for a user, against the clock. The
/// code is the URL-safe encoding of thirty-two fresh random bytes.
pub fn issue_authorization_code(
    codes: &mut Vec<AuthorizationCode>,
    client_id: &String,
    user_id: &String,
    redirect_uri: &String,
    scopes: &Option<String>,
    ttl_minutes: u64,
) -> (r: Result<String, AppError>)
    ensures
        match r {
            Ok(c) => (exists|bytes: Seq<u8>| #[trigger] is_opaque_token(c@, bytes)) && !code_known(
                old(codes)@,
                c@,
            ) && exists|now: i64|
                now + ttl_minutes * 60 <= i64::MAX && #[trigger] granted(
                    old(codes)@,
                    final(codes)@,
                    c@,
                    client_id@,
                    user_id@,
                    redirect_uri@,
                    text_of(*scopes),
                    now + ttl_minutes * 60,
                ),
            Err(e) => final(codes)@ == old(codes)@ && (e@ == internal(
                "Code lifetime out of range"@,
            ) || e@ == database("Authorization code already exists"@)),
        },
{
    let now = unix_now();
    let code = generate_refresh_token();
    let ghost bytes = choose|bytes: Seq<u8>| is_opaque_token(code@, bytes);
    let r = issue_authorization_code_at(
        codes,
        client_id,
        user_id,
        redirect_uri,
        scopes,
        ttl_minutes,
        now,
        code,
    );
    proof {
        if r is Ok {
            assert(is_opaque_token(r->Ok_0@, bytes));
            assert(granted(
                old(codes)@,
                final(codes)@,
                r->Ok_0@,
                client_id@,
                user_id@,
                redirect_uri@,
                text_of(*scopes),
                now + ttl_minutes * 60,
            ));
        }
    }
    r
}

/// Why a code exchange is turned away: no code given, no record of the code
/// for the client, or a record whose expiry lies before `now`.
pub open spec fn exchange_fault(
    codes: Seq<AuthorizationCode>,
    client_id: Seq<char>,
    code: Option<Seq<char>>,
    now: i64,
) -> Option<ErrorView> {
    match code {
        None => Some(authentication("Authorization code required"@)),
        Some(c) => match code_for(codes, c, client_id) {
            None => Some(authentication("Invalid authorization code"@)),
            Some(record) => if record.expires_at < now {
                Some(authentication("Authorization code expired"@))
            } else {
                None
            },
        },
    }
}

/// Whether `after` is `before` with one more record: the refresh token
/// `token` of `client_id` for `user_id`, valid until `expires_at`.
pub open spec fn remembered(
    before: Seq<RefreshTokenRecord>,
    after: Seq<RefreshTokenRecord>,
    token: Seq<char>,
    client_id: Seq<char>,
    user_id: Seq<char>,
    expires_at: int,
) -> bool {
    &&& after.len() == before.len() + 1
    &&& after.drop_last() == before
    &&& after.last().token@ == token
    &&& after.last().client_id@ == client_id
    &&& after.last().user_id@ == user_id
    &&& after.last().scopes is None
    &&& after.last().expires_at == expires_at
}

/// What exchanging a code at the time `now` gives, with `fresh` as the new
/// refresh token. Either everything happens (the code is deleted, the
/// refresh token is recorded, the tokens are returned) or nothing does.
pub open spec fn exchange_outcome(
    codes: Seq<AuthorizationCode>,
    codes_after: Seq<AuthorizationCode>,
    records: Seq<RefreshTokenRecord>,
    records_after: Seq<RefreshTokenRecord>,
    client_id: Seq<char>,
    code: Option<Seq<char>>,
    config: Config,
    now: i64,
    fresh: Seq<char>,
    r: Result<TokenResponse, AppError>,
) -> bool {
    let kept = codes_after == codes && records_after == records;
    match exchange_fault(codes, client_id, code, now) {
        Some(e) => fails(r, e) && kept,
        None => {
            let grant = code_for(codes, code->0, client_id)->0;
            match minted(
                grant.user_id@,
                config.jwt_secret@,
                TokenKind::Access,
                now as int,
                config.expires_in(),
            ) {
                Err(e) => fails(r, e) && kept,
                Ok(_) => if now + GRANT_LIFETIME_SECONDS > i64::MAX {
                    fails(r, internal("Token lifetime out of range"@)) && kept
                } else if token_known(records, fresh) {
                    fails(r, database("Refresh token already exists"@)) && kept
                } else {
                    &&& r matches Ok(resp)
                    &&& carries(
                        resp.access_token@,
                        grant.user_id@,
                        config.jwt_secret@,
                        TokenKind::Access,
                        now as int,
                        config.expires_in(),
                    )
                    &&& resp.token_type@ == "Bearer"@
                    &&& resp.expires_in == config.expires_in()
                    &&& text_of(resp.refresh_token) == Some(fresh)
                    &&& resp.scope is None
                    &&& codes_after == without_code(codes, code->0)
                    &&& remembered(
                        records,
                        records_after,
                        fresh,
                        client_id,
                        grant.user_id@,
                        now + GRANT_LIFETIME_SECONDS,
                    )
                },
            }
        },
    }
}

/// Exchanges an authorization code at the time `now`, with `fresh` as the
/// new refresh token.
pub fn exchange_code_at(
    codes: &mut Vec<AuthorizationCode>,
    records: &mut Vec<RefreshTokenRecord>,
    client: &OAuthClient,
    payload: &TokenRequest,
    config: &Config,
    now: i64,
    fresh: String,
) -> (r: Result<TokenResponse, AppError>)
    ensures
        exchange_outcome(
            old(codes)@,
            final(codes)@,
            old(records)@,
            final(records)@,
            client.id@,
            text_of(payload.code),
            *config,
            now,
            fresh@,
            r,
        ),
{
    let code = match &payload.code {
        Some(c) => c,
        None => {
            return Err(AppError::Authentication("Authorization code required".to_string()));
        },
    };
    let (user_id, expires_at) = match find_code(codes, code, &client.id) {
        Some(grant) => (grant.user_id.clone(), grant.expires_at),
        None => {
            return Err(AppError::Authentication("Invalid authorization code".to_string()));
        },
    };
    if expires_at < now {
        return Err(AppError::Authentication("Authorization code expired".to_string()));
    }
    let access_token = match create_access_token_at(
        user_id.as_str(),
        config.jwt_secret.as_str(),
        config.token_expiration_minutes,
        now,
    ) {
        Ok(t) => t,
        Err(e) => {
            return Err(e);
        },
    };
    if now > i64::MAX - GRANT_LIFETIME_SECONDS {
        return Err(AppError::Internal("Token lifetime out of range".to_string()));
    }
    if knows_token(records, &fresh) {
        return Err(AppError::Database("Refresh token already exists".to_string()));
    }
    delete_code(codes, code);
    records.push(
        RefreshTokenRecord {
            token: fresh.clone(),
            client_id: client.id.clone(),
            user_id,
            scopes: None,
            expires_at: now + GRANT_LIFETIME_SECONDS,
        },
    );
    proof {
        assert(final(records)@.drop_last() == old(records)@);
        assert(config.token_expiration_minutes * 60 <= u64::MAX);
    }
    Ok(
        TokenResponse {
            access_token,
            token_type: "Bearer".to_string(),
            expires_in: config.token_expiration_minutes * 60,
            refresh_token: Some(fresh),
            scope: None,
        },
    )
}

/// The authorization-code grant, against the clock. The new refresh token
/// is the URL-safe encoding of thirty-two fresh random bytes.
pub fn handle_authorization_code_grant(
    codes: &mut Vec<AuthorizationCode>,
    records: &mut Vec<RefreshTokenRecord>,
    client: &OAuthClient,
    payload: &TokenRequest,
    config: &Config,
) -> (r: Result<TokenResponse, AppError>)
    ensures
        exists|now: i64, bytes: Seq<u8>|
            bytes.len() == 32 && #[trigger] exchange_outcome(
                old(codes)@,
                final(codes)@,
                old(records)@,
                final(records)@,
                client.id@,
                text_of(payload.code),
                *config,
                now,
                base64url(bytes),
                r,
            ),
{
    let now = unix_now();
    let fresh = generate_refresh_token();
    let ghost bytes = choose|bytes: Seq<u8>| is_opaque_token(fresh@, bytes);
    let r = exchange_code_at(codes, records, client, payload, config, now, fresh);
    proof {
        assert(exchange_outcome(
            old(codes)@,
            final(codes)@,
            old(records)@,
            final(records)@,
            client.id@,
            text_of(payload.code),
            *config,
            now,
            base64url(bytes),
            r,
        ));
    }
    r
}

/// What the refresh grant gives at the time `now`: a new access token for the
/// user of the record, which stays as it is.
pub open spec fn refresh_grant_outcome(
    records: Seq<RefreshTokenRecord>,
    client_id: Seq<char>,
    token: Option<Seq<char>>,
    config: Config,
    now: i64,
    r: Result<TokenResponse, AppError>,
) -> bool {
    match token {
        None => fails(r, authentication("Refresh token required"@)),
        Some(t) => match refresh_for(records, t, client_id) {
            None => fails(r, authentication("Invalid refresh token"@)),
            Some(record) => if record.expires_at < now {
                fails(r, authentication("Refresh token expired"@))
            } else {
                match minted(
                    record.user_id@,
                    config.jwt_secret@,
                    TokenKind::Access,
                    now as int,
                    config.expires_in(),
                ) {
                    Err(e) => fails(r, e),
                    Ok(_) => {
                        &&& r matches Ok(resp)
                        &&& carries(
                            resp.access_token@,
                            record.user_id@,
                            config.jwt_secret@,
                            TokenKind::Access,
                            now as int,
                            config.expires_in(),
                        )
                        &&& resp.token_type@ == "Bearer"@
                        &&& resp.expires_in == config.expires_in()
                        &&& resp.refresh_token is None
                        &&& resp.scope is None
                    },
                }
            },
        },
    }
}

/// The refresh grant at the time `now`.
pub fn refresh_grant_at(
    records: &Vec<RefreshTokenRecord>,
    client: &OAuthClient,
    payload: &TokenRequest,
    config: &Config,
    now: i64,
) -> (r: Result<TokenResponse, AppError>)
    ensures
        refresh_grant_outcome(
            records@,
            client.id@,
            text_of(payload.refresh_token),
            *config,
            now,
            r,
        ),
{
    let token = match &payload.refresh_token {
        Some(t) => t,
        None => {
            return Err(AppError::Authentication("Refresh token required".to_string()));
        },
    };
    let record = match find_refresh(records, token, &client.id) {
        Some(rec) => rec,
        None => {
            return Err(AppError::Authentication("Invalid refresh token".to_string()));
        },
    };
    if record.expires_at < now {
        return Err(AppError::Authentication("Refresh token expired".to_string()));
    }
    let access_token = match create_access_token_at(
        record.user_id.as_str(),
        config.jwt_secret.as_str(),
        config.token_expiration_minutes,
        now,
    ) {
        Ok(t) => t,
        Err(e) => {
            return Err(e);
        },
    };
    assert(config.token_expiration_minutes * 60 <= u64::MAX);
    Ok(
        TokenResponse {
            access_token,
            token_type: "Bearer".to_string(),
            expires_in: config.token_expiration_minutes * 60,
            refresh_token: None,
            scope: None,
        },
    )
}

/// The refresh grant, against the clock. The refresh token is neither
/// rotated nor invalidated.
pub fn handle_refresh_token_grant(
    records: &Vec<RefreshTokenRecord>,
    client: &OAuthClient,
    payload: &TokenRequest,
    config: &Config,
) -> (r: Result<TokenResponse, AppError>)
    ensures
        exists|now: i64|
            #[trigger] refresh_grant_outcome(
                records@,
                client.id@,
                text_of(payload.refresh_token),
                *config,
                now,
                r,
            ),
{
    let now = unix_now();
    refresh_grant_at(records, client, payload, config, now)
}

/// What the token endpoint gives at the time `now`, with `fresh` as the new
/// refresh token of a code exchange.
pub open spec fn token_outcome(
    clients: Seq<OAuthClient>,
    codes: Seq<AuthorizationCode>,
    codes_after: Seq<AuthorizationCode>,
    records: Seq<RefreshTokenRecord>,
    records_after: Seq<RefreshTokenRecord>,
    req: TokenRequest,
    config: Config,
    now: i64,
    fresh: Seq<char>,
    r: Result<TokenResponse, AppError>,
) -> bool {
    let kept = codes_after == codes && records_after == records;
    match client_by_id(clients, req.client_id@) {
        None => fails(r, authentication("Invalid client"@)) && kept,
        Some(c) => if !c.is_active {
            fails(r, authentication("Client is disabled"@)) && kept
        } else if req.grant_type@ == "authorization_code"@ {
            exchange_outcome(
                codes,
                codes_after,
                records,
                records_after,
                c.id@,
                text_of(req.code),
                config,
                now,
                fresh,
                r,
            )
        } else if req.grant_type@ == "refresh_token"@ {
            refresh_grant_outcome(
                records,
                c.id@,
                text_of(req.refresh_token),
                config,
                now,
                r,
            ) && kept
        } else {
            fails(r, authentication("Unsupported grant type"@)) && kept
        },
    }
}

/// The token endpoint at the time `now`, with `fresh` as the new refresh
/// token of a code exchange.
pub fn token_at(
    clients: &Vec<OAuthClient>,
    codes: &mut Vec<AuthorizationCode>,
    records: &mut Vec<RefreshTokenRecord>,
    payload: &TokenRequest,
    config: &Config,
    now: i64,
    fresh: String,
) -> (r: Result<TokenResponse, AppError>)
    ensures
        token_outcome(
            clients@,
            old(codes)@,
            final(codes)@,
            old(records)@,
            final(records)@,
            *payload,
            *config,
            now,
            fresh@,
            r,
        ),
{
    let client = match find_client(clients, &payload.client_id) {
        Some(c) => c,
        None => {
            return Err(AppError::Authentication("Invalid client".to_string()));
        },
    };
    if !client.is_active {
        return Err(AppError::Authentication("Client is disabled".to_string()));
    }
    if same_text(payload.grant_type.as_str(), "authorization_code") {
        exchange_code_at(codes, records, client, payload, config, now, fresh)
    } else if same_text(payload.grant_type.as_str(), "refresh_token") {
        refresh_grant_at(records, client, payload, config, now)
    } else {
        Err(AppError::Authentication("Unsupported grant type".to_string()))
    }
}

/// The token endpoint: checks the client and runs the grant that the request
/// names, against the clock. The refresh token of a code exchange is the
/// URL-safe encoding of thirty-two fresh random bytes.
pub fn token(
    clients: &Vec<OAuthClient>,
    codes: &mut Vec<AuthorizationCode>,
    records: &mut Vec<RefreshTokenRecord>,
    payload: &TokenRequest,
    config: &Config,
) -> (r: Result<TokenResponse, AppError>)
    ensures
        exists|now: i64, bytes: Seq<u8>|
            bytes.len() == 32 && #[trigger] token_outcome(
                clients@,
                old(codes)@,
                final(codes)@,
                old(records)@,
                final(records)@,
                *payload,
                *config,
                now,
                base64url(bytes),
                r,
            ),
{
    let now = unix_now();
    let fresh = generate_refresh_token();
    let ghost bytes = choose|bytes: Seq<u8>| is_opaque_token(fresh@, bytes);
    let r = token_at(clients, codes, records, payload, config, now, fresh);
    proof {
        assert(token_outcome(
            clients@,
            old(codes)@,
            final(codes)@,
            old(records)@,
            final(records)@,
            *payload,
            *config,
            now,
            base64url(bytes),
            r,
        ));
    }
    r
}

/// The token of an `Authorization` header of the bearer scheme.
pub fn bearer_token<'a>(header: &'a str) -> (r: Option<&'a str>)
    ensures
        match r {
            Some(t) => "Bearer "@.is_prefix_of(header@) && t@ == header@.subrange(
                "Bearer "@.len() as int,
                header@.len() as int,
            ),
            None => !"Bearer "@.is_prefix_of(header@),
        },
{
    if starts_with(header, "Bearer ") {
        Some(after_prefix(header, "Bearer "))
    } else {
        None
    }
}

/// What the user-info endpoint gives at the time `now`.
pub open spec fn userinfo_outcome(
    users: Seq<User>,
    token: Seq<char>,
    secret: Seq<char>,
    now: i64,
    r: Result<UserInfo, AppError>,
) -> bool {
    match verified(token, secret, TokenKind::Access, now as int) {
        Err(e) => fails(r, e),
        Ok(id) => match user_by_id(users, id) {
            None => fails(r, authentication("User not found"@)),
            Some(u) => {
                &&& r matches Ok(info)
                &&& info.sub@ == u.id@
                &&& info.name@ == u.username@
                &&& info.email@ == u.email@
                &&& info.preferred_username@ == u.username@
            },
        },
    }
}

/// The claims of the user that an access token stands for, at the time `now`.
pub fn userinfo_at(users: &Vec<User>, bearer_token: &str, config: &Config, now: i64) -> (r: Result<
    UserInfo,
    AppError,
>)
    ensures
        userinfo_outcome(users@, bearer_token@, config.jwt_secret@, now, r),
{
    let user_id = match verify_token(
        bearer_token,
        config.jwt_secret.as_str(),
        TokenKind::Access,
        now,
    ) {
        Ok(id) => id,
        Err(e) => {
            return Err(e);
        },
    };
    match find_by_id(users, &user_id) {
        Some(u) => Ok(
            UserInfo {
                sub: u.id.clone(),
                name: u.username.clone(),
                email: u.email.clone(),
                preferred_username: u.username.clone(),
            },
        ),
        None => Err(AppError::Authentication("User not found".to_string())),
    }
}

/// The claims of the user that an access token stands for, against the
/// clock.
pub fn userinfo(users: &Vec<User>, bearer_token: &str, config: &Config) -> (r: Result<
    UserInfo,
    AppError,
>)
    ensures
        exists|now: i64|
            #[trigger] userinfo_outcome(users@, bearer_token@, config.jwt_secret@, now, r),
{
    let now = unix_now();
    userinfo_at(users, bearer_token, config, now)
}

/// The discovery document of an issuer at `base_url`.
pub fn openid_configuration(base_url: &str) -> (r: DiscoveryDocument)
    ensures
        r.issuer@ == base_url@,
        r.authorization_endpoint@ == base_url@ + "/oauth/authorize"@,
        r.token_endpoint@ == base_url@ + "/oauth/token"@,
        r.userinfo_endpoint@ == base_url@ + "/oauth/userinfo"@,
        r.jwks_uri@ == base_url@ + "/.well-known/jwks.json"@,
        r.response_types_supported@.len() == 1,
        r.response_types_supported@[0]@ == "code"@,
        r.subject_types_supported@.len() == 1,
        r.subject_types_supported@[0]@ == "public"@,
        r.id_token_signing_alg_values_supported@.len() == 1,
        r.id_token_signing_alg_values_supported@[0]@ == "HS256"@,
{
    let mut response_types_supported: Vec<String> = Vec::new();
    response_types_supported.push("code".to_string());
    let mut subject_types_supported: Vec<String> = Vec::new();
    subject_types_supported.push("public".to_string());
    let mut id_token_signing_alg_values_supported: Vec<String> = Vec::new();
    id_token_signing_alg_values_supported.push("HS256".to_string());
    DiscoveryDocument {
        issuer: base_url.to_string(),
        authorization_endpoint: base_url.to_string().concat("/oauth/authorize"),
        token_endpoint: base_url.to_string().concat("/oauth/token"),
        userinfo_endpoint: base_url.to_string().concat("/oauth/userinfo"),
        jwks_uri: base_url.to_string().concat("/.well-known/jwks.json"),
        response_types_supported,
        subject_types_supported,
        id_token_signing_alg_values_supported,
    }
}

/// A code can be exchanged once: after an exchange has succeeded, the next
/// exchange of the same code for the same client is turned away as an
/// authentication failure, whenever it is made.
pub proof fn lemma_code_single_use(
    codes: Seq<AuthorizationCode>,
    codes_after: Seq<AuthorizationCode>,
    records: Seq<RefreshTokenRecord>,
    records_after: Seq<RefreshTokenRecord>,
    client_id: Seq<char>,
    code: Seq<char>,
    config: Config,
    now: i64,
    fresh: Seq<char>,
    r: Result<TokenResponse, AppError>,
    later: i64,
)
    requires
        exchange_outcome(
            codes,
            codes_after,
            records,
            records_after,
            client_id,
            Some(code),
            config,
            now,
            fresh,
            r,
        ),
        r is Ok,
    ensures
        exchange_fault(codes_after, client_id, Some(code), later) == Some(
            authentication("Invalid authorization code"@),
        ),
{
    lemma_deleted_code_unknown(codes, code);
    assert(codes_after == without_code(codes, code));
    assert forall|i: int| !first_code(codes_after, code, client_id, i) by {
        if 0 <= i < codes_after.len() {
            assert(codes_after[i].code@ != code);
        }
    }
}

/// A code whose expiry lies before the time of the exchange is turned away
/// as an authentication failure.
pub proof fn lemma_expired_code(
    codes: Seq<AuthorizationCode>,
    client_id: Seq<char>,
    code: Seq<char>,
    now: i64,
)
    requires
        code_for(codes, code, client_id) matches Some(record) && record.expires_at < now,
    ensures
        exchange_fault(codes, client_id, Some(code), now) == Some(
            authentication("Authorization code expired"@),
        ),
{
}

/// The refresh grant turns an unknown or expired refresh token away as an
/// authentication failure.
pub proof fn lemma_refresh_rejected(
    records: Seq<RefreshTokenRecord>,
    client_id: Seq<char>,
    token: Seq<char>,
    config: Config,
    now: i64,
    r: Result<TokenResponse, AppError>,
)
    requires
        refresh_grant_outcome(records, client_id, Some(token), config, now, r),
        refresh_for(records, token, client_id) matches Some(record) ==> record.expires_at < now,
    ensures
        r matches Err(e) && e@.kind == ErrorKind::Authentication,
{
}

/// The refresh token that a successful code exchange returned stands for the
/// user of the code. Until it expires, the refresh grant fails only where
/// minting does, and the access token that it gives verifies as that very
/// user up to its own expiry.
pub proof fn lemma_refresh_keeps_subject(
    codes: Seq<AuthorizationCode>,
    codes_after: Seq<AuthorizationCode>,
    records: Seq<RefreshTokenRecord>,
    records_after: Seq<RefreshTokenRecord>,
    client_id: Seq<char>,
    code: Seq<char>,
    config: Config,
    now: i64,
    fresh: Seq<char>,
    first: Result<TokenResponse, AppError>,
    later: i64,
    second: Result<TokenResponse, AppError>,
    at: int,
)
    requires
        exchange_outcome(
            codes,
            codes_after,
            records,
            records_after,
            client_id,
            Some(code),
            config,
            now,
            fresh,
            first,
        ),
        first is Ok,
        later <= now + GRANT_LIFETIME_SECONDS,
        refresh_grant_outcome(records_after, client_id, Some(fresh), config, later, second),
        at <= later + config.expires_in(),
    ensures
        code_for(codes, code, client_id) is Some,
        second is Ok <==> minted(
            code_for(codes, code, client_id)->0.user_id@,
            config.jwt_secret@,
            TokenKind::Access,
            later as int,
            config.expires_in(),
        ) is Ok,
        second matches Err(e) ==> e@.kind == ErrorKind::Internal,
        second matches Ok(resp) ==> resp.access_token@.len() > 0 && resp.token_type@ == "Bearer"@
            && resp.expires_in == config.token_expiration_minutes * 60 && verified(
            resp.access_token@,
            config.jwt_secret@,
            TokenKind::Access,
            at,
        ) == Ok::<Seq<char>, ErrorView>(code_for(codes, code, client_id)->0.user_id@),
{
    let k = records_after.len() - 1;
    assert forall|j: int| 0 <= j < k implies (#[trigger] records_after[j]).token@ != fresh by {
        assert(records_after.drop_last()[j] == records_after[j]);
        assert(records[j].token@ != fresh);
    }
    assert(first_refresh(records_after, fresh, client_id, k));
    let c = choose|i: int| first_refresh(records_after, fresh, client_id, i);
    assert(c == k);
    if second is Ok {
        lemma_minted_token_verifies(
            second->Ok_0.access_token@,
            code_for(codes, code, client_id)->0.user_id@,
            config.jwt_secret@,
            TokenKind::Access,
            later as int,
            config.expires_in(),
            at,
        );
    }
}

} // verus!
