use idryos_auth::config::Config;
use idryos_auth::error::AppError;
use idryos_auth::jwt::{
    create_access_token_at, create_refresh_token_at, verify_access_token, verify_token, TokenKind,
};
use idryos_auth::models::{
    AuthorizationCode, AuthorizeRequest, OAuthClient, RefreshTokenRecord, TokenRequest, User,
};
use idryos_auth::oauth::{
    authorize, bearer_token, delete_code, exchange_code_at, find_client, find_code, find_refresh,
    generate_refresh_token, handle_authorization_code_grant, handle_refresh_token_grant,
    issue_authorization_code, issue_authorization_code_at, knows_code, knows_token,
    openid_configuration, redirect_allowed, refresh_grant_at, token, token_at, userinfo,
    userinfo_at, UserInfo, GRANT_LIFETIME_SECONDS,
};

const NOW: i64 = 1_700_000_000;

fn config() -> Config {
    Config {
        port: 8000,
        jwt_secret: "ChangeMeSuperSecretKey".to_string(),
        token_expiration_minutes: 15,
        database_url: "sqlite://./data/idryos.db".to_string(),
        cors_origins: vec!["http://localhost:3000".to_string()],
        frontend_url: "http://localhost:3000".to_string(),
    }
}

fn client(id: &str, active: bool) -> OAuthClient {
    OAuthClient {
        id: id.to_string(),
        client_secret: "secret".to_string(),
        name: "Demo".to_string(),
        redirect_uris: "[\"https://app.example/cb\", \"https://app.example/alt\"]".to_string(),
        scopes: "[\"openid\"]".to_string(),
        is_active: active,
    }
}

fn authorize_request(client_id: &str, redirect_uri: &str) -> AuthorizeRequest {
    AuthorizeRequest {
        client_id: client_id.to_string(),
        redirect_uri: redirect_uri.to_string(),
        response_type: "code".to_string(),
        scope: Some("openid".to_string()),
        state: None,
    }
}

fn code_request(client_id: &str, code: Option<&str>) -> TokenRequest {
    TokenRequest {
        client_id: client_id.to_string(),
        client_secret: None,
        grant_type: "authorization_code".to_string(),
        code: code.map(String::from),
        refresh_token: None,
    }
}

fn refresh_request(client_id: &str, token: Option<&str>) -> TokenRequest {
    TokenRequest {
        client_id: client_id.to_string(),
        client_secret: None,
        grant_type: "refresh_token".to_string(),
        code: None,
        refresh_token: token.map(String::from),
    }
}

fn grant(code: &str, client_id: &str, user_id: &str, expires_at: i64) -> AuthorizationCode {
    AuthorizationCode {
        code: code.to_string(),
        client_id: client_id.to_string(),
        user_id: user_id.to_string(),
        redirect_uri: "https://app.example/cb".to_string(),
        scopes: None,
        expires_at,
    }
}

#[test]
fn authorize_gives_the_login_address() {
    let clients = vec![client("c-1", true)];
    let url = authorize(&clients, &authorize_request("c-1", "https://app.example/alt")).unwrap();
    assert_eq!(
        url,
        "/oauth/login?response_type=code&client_id=c-1&redirect_uri=https://app.example/alt&scope=openid&state="
    );
}

#[test]
fn authorize_failures() {
    let mut broken = client("c-3", true);
    broken.redirect_uris = "https://app.example/cb".to_string();
    let clients = vec![client("c-1", true), client("c-2", false), broken];
    assert_eq!(
        authorize(&clients, &authorize_request("c-9", "https://app.example/cb")),
        Err(AppError::Authentication("Invalid client".to_string()))
    );
    assert_eq!(
        authorize(&clients, &authorize_request("c-2", "https://app.example/cb")),
        Err(AppError::Authentication("Client is disabled".to_string()))
    );
    assert_eq!(
        authorize(&clients, &authorize_request("c-1", "https://evil.example/cb")),
        Err(AppError::Authentication("Invalid redirect URI".to_string()))
    );
    assert_eq!(
        authorize(&clients, &authorize_request("c-3", "https://app.example/cb")),
        Err(AppError::Internal("Invalid redirect URIs format".to_string()))
    );
}

#[test]
fn redirect_must_be_registered() {
    let uris = vec!["a".to_string(), "b".to_string()];
    assert!(redirect_allowed(&uris, &"b".to_string()));
    assert!(!redirect_allowed(&uris, &"c".to_string()));
    assert!(!redirect_allowed(&Vec::new(), &"a".to_string()));
}

#[test]
fn issued_code_is_recorded() {
    let mut codes = Vec::new();
    let code = issue_authorization_code_at(
        &mut codes,
        &"c-1".to_string(),
        &"u-1".to_string(),
        &"https://app.example/cb".to_string(),
        &Some("openid".to_string()),
        5,
        NOW,
        "code-1".to_string(),
    )
    .unwrap();
    assert_eq!(code, "code-1");
    let mut expected = grant("code-1", "c-1", "u-1", NOW + 300);
    expected.scopes = Some("openid".to_string());
    assert_eq!(codes, vec![expected]);
    let again = issue_authorization_code_at(
        &mut codes,
        &"c-2".to_string(),
        &"u-2".to_string(),
        &"https://app.example/cb".to_string(),
        &None,
        5,
        NOW,
        "code-1".to_string(),
    );
    assert_eq!(again, Err(AppError::Database("Authorization code already exists".to_string())));
    let far = issue_authorization_code_at(
        &mut codes,
        &"c-2".to_string(),
        &"u-2".to_string(),
        &"https://app.example/cb".to_string(),
        &None,
        u64::MAX,
        NOW,
        "code-2".to_string(),
    );
    assert_eq!(far, Err(AppError::Internal("Code lifetime out of range".to_string())));
    assert_eq!(codes.len(), 1);
}

#[test]
fn issued_code_is_fresh() {
    let mut codes = Vec::new();
    let id = "c-1".to_string();
    let user = "u-1".to_string();
    let uri = "https://app.example/cb".to_string();
    let a = issue_authorization_code(&mut codes, &id, &user, &uri, &None, 5).unwrap();
    let b = issue_authorization_code(&mut codes, &id, &user, &uri, &None, 5).unwrap();
    assert_ne!(a, b);
    assert_eq!(a.len(), 43);
    assert_eq!(codes.len(), 2);
    assert_eq!(codes[0].code, a);
    assert!(knows_code(&codes, &b));
}

#[test]
fn code_issued_ten_minutes_ago_has_expired() {
    let clients = vec![client("c-1", true)];
    let mut codes = Vec::new();
    let mut records = Vec::new();
    issue_authorization_code_at(
        &mut codes,
        &"c-1".to_string(),
        &"u-1".to_string(),
        &"https://app.example/cb".to_string(),
        &None,
        5,
        NOW - 600,
        "code-1".to_string(),
    )
    .unwrap();
    let r = token_at(
        &clients,
        &mut codes,
        &mut records,
        &code_request("c-1", Some("code-1")),
        &config(),
        NOW,
        "fresh".to_string(),
    );
    assert_eq!(r, Err(AppError::Authentication("Authorization code expired".to_string())));
    assert_eq!(r.unwrap_err().status_code(), 401);
    assert_eq!(codes.len(), 1);
    assert!(records.is_empty());
}

#[test]
fn code_is_exchanged_once() {
    let clients = vec![client("c-1", true)];
    let cfg = config();
    let mut codes = vec![grant("code-0", "c-1", "u-0", NOW), grant("code-1", "c-1", "u-1", NOW)];
    let mut records = Vec::new();
    let req = code_request("c-1", Some("code-1"));
    let resp =
        token_at(&clients, &mut codes, &mut records, &req, &cfg, NOW, "fresh-1".to_string())
            .unwrap();
    assert_eq!(resp.access_token, create_access_token_at("u-1", &cfg.jwt_secret, 15, NOW).unwrap());
    assert_eq!(resp.token_type, "Bearer");
    assert_eq!(resp.expires_in, 900);
    assert_eq!(resp.refresh_token, Some("fresh-1".to_string()));
    assert_eq!(resp.scope, None);
    assert_eq!(codes, vec![grant("code-0", "c-1", "u-0", NOW)]);
    assert_eq!(
        records,
        vec![RefreshTokenRecord {
            token: "fresh-1".to_string(),
            client_id: "c-1".to_string(),
            user_id: "u-1".to_string(),
            scopes: None,
            expires_at: NOW + 2_592_000,
        }]
    );
    assert_eq!(GRANT_LIFETIME_SECONDS, 2_592_000);

    let second =
        token_at(&clients, &mut codes, &mut records, &req, &cfg, NOW, "fresh-2".to_string());
    assert_eq!(second, Err(AppError::Authentication("Invalid authorization code".to_string())));
    assert_eq!(records.len(), 1);
}

#[test]
fn exchange_failures_change_nothing() {
    let cfg = config();
    let c = client("c-1", true);
    let mut codes = vec![grant("code-1", "c-2", "u-1", NOW)];
    let mut records = vec![RefreshTokenRecord {
        token: "taken".to_string(),
        client_id: "c-9".to_string(),
        user_id: "u-9".to_string(),
        scopes: None,
        expires_at: NOW,
    }];
    let r = exchange_code_at(
        &mut codes,
        &mut records,
        &c,
        &code_request("c-1", None),
        &cfg,
        NOW,
        "f".to_string(),
    );
    assert_eq!(r, Err(AppError::Authentication("Authorization code required".to_string())));
    let r = exchange_code_at(
        &mut codes,
        &mut records,
        &c,
        &code_request("c-1", Some("code-1")),
        &cfg,
        NOW,
        "f".to_string(),
    );
    assert_eq!(r, Err(AppError::Authentication("Invalid authorization code".to_string())));
    codes.push(grant("code-2", "c-1", "u-1", NOW));
    let r = exchange_code_at(
        &mut codes,
        &mut records,
        &c,
        &code_request("c-1", Some("code-2")),
        &cfg,
        NOW,
        "taken".to_string(),
    );
    assert_eq!(r, Err(AppError::Database("Refresh token already exists".to_string())));
    assert_eq!(codes.len(), 2);
    assert_eq!(records.len(), 1);
}

#[test]
fn refresh_grant_keeps_the_subject() {
    let clients = vec![client("c-1", true)];
    let cfg = config();
    let mut codes = vec![grant("code-1", "c-1", "u-1", NOW)];
    let mut records = Vec::new();
    let first = token_at(
        &clients,
        &mut codes,
        &mut records,
        &code_request("c-1", Some("code-1")),
        &cfg,
        NOW,
        "fresh-1".to_string(),
    )
    .unwrap();
    let refresh = first.refresh_token.unwrap();
    let req = refresh_request("c-1", Some(&refresh));
    let resp =
        token_at(&clients, &mut codes, &mut records, &req, &cfg, NOW + 60, "x".to_string())
            .unwrap();
    assert_eq!(
        verify_token(&resp.access_token, &cfg.jwt_secret, TokenKind::Access, NOW + 60),
        Ok("u-1".to_string())
    );
    assert_eq!(resp.refresh_token, None);
    assert_eq!(resp.expires_in, 900);
    assert_eq!(records.len(), 1);
    let again =
        token_at(&clients, &mut codes, &mut records, &req, &cfg, NOW + 120, "x".to_string());
    assert!(again.is_ok());
}

#[test]
fn refresh_grant_failures() {
    let cfg = config();
    let c = client("c-1", true);
    let records = vec![RefreshTokenRecord {
        token: "r-1".to_string(),
        client_id: "c-1".to_string(),
        user_id: "u-1".to_string(),
        scopes: None,
        expires_at: NOW,
    }];
    let r = refresh_grant_at(&records, &c, &refresh_request("c-1", None), &cfg, NOW);
    assert_eq!(r, Err(AppError::Authentication("Refresh token required".to_string())));
    let r = refresh_grant_at(&records, &c, &refresh_request("c-1", Some("r-2")), &cfg, NOW);
    assert_eq!(r, Err(AppError::Authentication("Invalid refresh token".to_string())));
    let r = refresh_grant_at(&records, &c, &refresh_request("c-1", Some("r-1")), &cfg, NOW + 1);
    assert_eq!(r, Err(AppError::Authentication("Refresh token expired".to_string())));
    let other = client("c-2", true);
    let r = refresh_grant_at(&records, &other, &refresh_request("c-2", Some("r-1")), &cfg, NOW);
    assert_eq!(r, Err(AppError::Authentication("Invalid refresh token".to_string())));
    assert!(refresh_grant_at(&records, &c, &refresh_request("c-1", Some("r-1")), &cfg, NOW).is_ok());
    let late = handle_refresh_token_grant(&records, &c, &refresh_request("c-1", Some("r-1")), &cfg);
    assert_eq!(late, Err(AppError::Authentication("Refresh token expired".to_string())));
}

#[test]
fn token_endpoint_checks_client_and_grant() {
    let clients = vec![client("c-1", true), client("c-2", false)];
    let cfg = config();
    let mut codes = Vec::new();
    let mut records = Vec::new();
    let r = token(&clients, &mut codes, &mut records, &code_request("c-9", Some("x")), &cfg);
    assert_eq!(r, Err(AppError::Authentication("Invalid client".to_string())));
    let r = token(&clients, &mut codes, &mut records, &code_request("c-2", Some("x")), &cfg);
    assert_eq!(r, Err(AppError::Authentication("Client is disabled".to_string())));
    let mut req = code_request("c-1", Some("x"));
    req.grant_type = "password".to_string();
    let r = token(&clients, &mut codes, &mut records, &req, &cfg);
    assert_eq!(r, Err(AppError::Authentication("Unsupported grant type".to_string())));
}

#[test]
fn grant_against_the_clock() {
    let cfg = config();
    let c = client("c-1", true);
    let mut codes = vec![grant("code-1", "c-1", "u-1", i64::MAX - 3_000_000)];
    let mut records = Vec::new();
    let resp = handle_authorization_code_grant(
        &mut codes,
        &mut records,
        &c,
        &code_request("c-1", Some("code-1")),
        &cfg,
    )
    .unwrap();
    let refresh = resp.refresh_token.unwrap();
    assert_eq!(refresh.len(), 43);
    assert!(codes.is_empty());
    assert!(knows_token(&records, &refresh));
    assert_eq!(find_refresh(&records, &refresh, &c.id).map(|r| r.user_id.as_str()), Some("u-1"));
    let next =
        handle_refresh_token_grant(&records, &c, &refresh_request("c-1", Some(&refresh)), &cfg)
            .unwrap();
    assert_eq!(verify_access_token(&next.access_token, &cfg.jwt_secret), Ok("u-1".to_string()));
    assert_eq!(next.token_type, "Bearer");
    assert_eq!(next.expires_in, cfg.token_expiration_minutes * 60);
    assert_eq!(verify_access_token(&resp.access_token, &cfg.jwt_secret), Ok("u-1".to_string()));
}

#[test]
fn deleting_a_code_removes_every_record_of_it() {
    let mut codes = vec![
        grant("a", "c-1", "u", 1),
        grant("b", "c-1", "u", 2),
        grant("a", "c-2", "u", 3),
        grant("c", "c-1", "u", 4),
    ];
    delete_code(&mut codes, &"a".to_string());
    assert_eq!(codes, vec![grant("b", "c-1", "u", 2), grant("c", "c-1", "u", 4)]);
    delete_code(&mut codes, &"z".to_string());
    assert_eq!(codes.len(), 2);
    assert_eq!(find_code(&codes, &"c".to_string(), &"c-1".to_string()).map(|c| c.expires_at), Some(4));
    assert_eq!(find_code(&codes, &"c".to_string(), &"c-2".to_string()), None);
}

#[test]
fn opaque_tokens_are_random_and_url_safe() {
    let a = generate_refresh_token();
    let b = generate_refresh_token();
    assert_ne!(a, b);
    assert_eq!(a.len(), 43);
    assert!(a.chars().all(|c| c.is_ascii_alphanumeric() || c == '-' || c == '_'));
}

#[test]
fn userinfo_resolves_the_subject() {
    let cfg = config();
    let users = vec![User {
        id: "u-1".to_string(),
        username: "bob".to_string(),
        email: "bob@x.com".to_string(),
        password_hash: "h".to_string(),
        did: None,
        created_at: 1,
        updated_at: 1,
        is_active: true,
    }];
    let access = create_access_token_at("u-1", &cfg.jwt_secret, 15, NOW).unwrap();
    assert_eq!(
        userinfo_at(&users, &access, &cfg, NOW),
        Ok(UserInfo {
            sub: "u-1".to_string(),
            name: "bob".to_string(),
            email: "bob@x.com".to_string(),
            preferred_username: "bob".to_string(),
        })
    );
    let refresh = create_refresh_token_at("u-1", &cfg.jwt_secret, NOW).unwrap();
    assert_eq!(
        userinfo_at(&users, &refresh, &cfg, NOW),
        Err(AppError::Authentication("Invalid token type".to_string()))
    );
    let stranger = create_access_token_at("u-2", &cfg.jwt_secret, 15, NOW).unwrap();
    assert_eq!(
        userinfo_at(&users, &stranger, &cfg, NOW),
        Err(AppError::Authentication("User not found".to_string()))
    );
    assert_eq!(
        userinfo(&users, &access, &cfg),
        Err(AppError::Authentication("Token expired".to_string()))
    );
}

#[test]
fn discovery_document() {
    let doc = openid_configuration("http://localhost:8000");
    assert_eq!(doc.issuer, "http://localhost:8000");
    assert_eq!(doc.authorization_endpoint, "http://localhost:8000/oauth/authorize");
    assert_eq!(doc.token_endpoint, "http://localhost:8000/oauth/token");
    assert_eq!(doc.userinfo_endpoint, "http://localhost:8000/oauth/userinfo");
    assert_eq!(doc.jwks_uri, "http://localhost:8000/.well-known/jwks.json");
    assert_eq!(doc.response_types_supported, vec!["code".to_string()]);
    assert_eq!(doc.subject_types_supported, vec!["public".to_string()]);
    assert_eq!(doc.id_token_signing_alg_values_supported, vec!["HS256".to_string()]);
}

#[test]
fn clients_are_found_by_id() {
    let clients = vec![client("c-1", true), client("c-2", false)];
    assert_eq!(find_client(&clients, &"c-2".to_string()).map(|c| c.is_active), Some(false));
    assert_eq!(find_client(&clients, &"c-3".to_string()), None);
}

#[test]
fn bearer_scheme() {
    assert_eq!(bearer_token("Bearer abc.def"), Some("abc.def"));
    assert_eq!(bearer_token("Bearer "), Some(""));
    assert_eq!(bearer_token("Basic abc"), None);
    assert_eq!(bearer_token("bearer abc"), None);
    assert_eq!(bearer_token(""), None);
}

#[test]
fn registered_uris_are_read_as_a_list_of_strings() {
    let mut none = client("c-1", true);
    none.redirect_uris = "[]".to_string();
    let mut numbers = client("c-2", true);
    numbers.redirect_uris = "[1, 2]".to_string();
    let mut escaped = client("c-3", true);
    escaped.redirect_uris = "[\"https:\\/\\/app.example\\/cb\"]".to_string();
    let clients = vec![none, numbers, escaped];
    assert_eq!(
        authorize(&clients, &authorize_request("c-1", "https://app.example/cb")),
        Err(AppError::Authentication("Invalid redirect URI".to_string()))
    );
    assert_eq!(
        authorize(&clients, &authorize_request("c-2", "https://app.example/cb")),
        Err(AppError::Internal("Invalid redirect URIs format".to_string()))
    );
    assert!(authorize(&clients, &authorize_request("c-3", "https://app.example/cb")).is_ok());
}
