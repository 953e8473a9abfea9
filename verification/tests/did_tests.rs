use idryos_auth::did::{
    bind_did, build_document, create_did, create_did_key, create_did_web, did_key_document,
    did_web_document, fresh_public_key, resolve_did, resolve_did_key, resolve_did_web,
    CreateDidRequest, DEFAULT_DOMAIN,
};
use idryos_auth::error::AppError;
use idryos_auth::models::User;

fn user(id: &str) -> User {
    User {
        id: id.to_string(),
        username: "bob".to_string(),
        email: "bob@x.com".to_string(),
        password_hash: "h".to_string(),
        did: None,
        created_at: 1,
        updated_at: 1,
        is_active: true,
    }
}

fn request(method: &str, user_id: &str) -> CreateDidRequest {
    CreateDidRequest { method: method.to_string(), user_id: user_id.to_string() }
}

#[test]
fn key_document_of_known_bytes() {
    let doc = did_key_document(&[0u8; 32], "t0".to_string(), "t1".to_string());
    let key = "A".repeat(43);
    assert_eq!(doc.id, format!("did:key:z{}", key));
    assert_eq!(
        doc.context,
        vec![
            "https://www.w3.org/ns/did/v1".to_string(),
            "https://w3id.org/security/suites/ed25519-2020/v1".to_string(),
        ]
    );
    assert_eq!(doc.verification_method.len(), 1);
    let method = &doc.verification_method[0];
    assert_eq!(method.id, format!("did:key:z{}#key-1", key));
    assert_eq!(method.suite, "Ed25519VerificationKey2020");
    assert_eq!(method.controller, doc.id);
    assert_eq!(method.public_key_base58, Some(key));
    assert_eq!(method.public_key_jwk, None);
    assert_eq!(doc.authentication, vec![method.id.clone()]);
    assert_eq!(doc.created, "t0");
    assert_eq!(doc.updated, "t1");
}

#[test]
fn key_encoding_is_url_safe_without_padding() {
    let doc = did_key_document(&[0xfb, 0xff, 0xfe], "t".to_string(), "t".to_string());
    assert_eq!(doc.id, "did:key:z-__-");
    let doc = did_key_document(&[0xff], "t".to_string(), "t".to_string());
    assert_eq!(doc.id, "did:key:z_w");
}

#[test]
fn web_document_is_named_after_domain_and_user() {
    let doc = did_web_document("example.org", "u-1", &[0u8; 32], "t".to_string(), "t".to_string());
    assert_eq!(doc.id, "did:web:example.org:users:u-1");
    assert_eq!(doc.verification_method[0].id, "did:web:example.org:users:u-1#key-1");
    assert_eq!(doc.verification_method[0].controller, "did:web:example.org:users:u-1");
    assert_eq!(doc.verification_method[0].public_key_base58, Some("A".repeat(43)));
    assert_eq!(doc.authentication, vec!["did:web:example.org:users:u-1#key-1".to_string()]);
}

#[test]
fn created_key_resolves_to_the_same_key() {
    let mut users = vec![user("u-1")];
    let made = create_did(&mut users, &request("key", "u-1"), DEFAULT_DOMAIN).unwrap();
    assert_eq!(made.did, made.document.id);
    assert!(made.did.starts_with("did:key:z"));
    let key = made.document.verification_method[0].public_key_base58.clone().unwrap();
    assert_eq!(key.len(), 43);
    assert_eq!(made.did, format!("did:key:z{}", key));
    assert_eq!(users[0].did, Some(made.did.clone()));

    let resolved = resolve_did(&made.did).unwrap();
    assert_eq!(resolved.id, made.did);
    assert_eq!(resolved.verification_method.len(), 1);
    assert_eq!(resolved.verification_method[0].public_key_base58, Some(key));
    assert_eq!(resolved.verification_method, made.document.verification_method);
    assert_eq!(resolved.authentication, made.document.authentication);
    assert_eq!(resolved.context, made.document.context);
}

#[test]
fn created_web_identifier_does_not_resolve() {
    let mut users = vec![user("u-0"), user("u-1")];
    let made = create_did(&mut users, &request("web", "u-1"), DEFAULT_DOMAIN).unwrap();
    assert_eq!(made.did, "did:web:localhost:8000:users:u-1");
    assert_eq!(made.document.id, made.did);
    assert_eq!(users[1].did, Some(made.did.clone()));
    assert_eq!(users[0].did, None);
    assert_eq!(
        resolve_did(&made.did),
        Err(AppError::NotFound("DID:web resolution not fully implemented".to_string()))
    );
    assert_eq!(resolve_did_web(&made.did), resolve_did(&made.did));
}

#[test]
fn creation_failures() {
    let mut users = vec![user("u-1")];
    assert_eq!(
        create_did(&mut users, &request("key", "u-2"), DEFAULT_DOMAIN),
        Err(AppError::NotFound("User not found".to_string()))
    );
    assert_eq!(
        create_did(&mut users, &request("ion", "u-1"), DEFAULT_DOMAIN),
        Err(AppError::Validation("Unsupported DID method".to_string()))
    );
    assert_eq!(
        create_did(&mut users, &request("ion", "u-2"), DEFAULT_DOMAIN),
        Err(AppError::NotFound("User not found".to_string()))
    );
    assert_eq!(users, vec![user("u-1")]);
}

#[test]
fn resolution_by_method() {
    let doc = resolve_did("did:key:zABC").unwrap();
    assert_eq!(doc.id, "did:key:zABC");
    assert_eq!(doc.verification_method[0].public_key_base58, Some("ABC".to_string()));
    assert_eq!(doc.verification_method[0].id, "did:key:zABC#key-1");
    assert_eq!(resolve_did("did:key:z").unwrap().verification_method[0].public_key_base58, Some(String::new()));
    assert_eq!(
        resolve_did("did:key:ABC"),
        Err(AppError::NotFound("Invalid DID:key format".to_string()))
    );
    assert_eq!(
        resolve_did_key("did:web:x"),
        Err(AppError::NotFound("Invalid DID:key format".to_string()))
    );
    assert_eq!(
        resolve_did("did:ion:x"),
        Err(AppError::NotFound("DID not found or unsupported method".to_string()))
    );
    assert_eq!(
        resolve_did(""),
        Err(AppError::NotFound("DID not found or unsupported method".to_string()))
    );
    assert_eq!(resolve_did("did:ion:x").unwrap_err().status_code(), 404);
}

#[test]
fn resolved_document_is_stamped() {
    let doc = resolve_did("did:key:zABC").unwrap();
    assert!(chrono::DateTime::parse_from_rfc3339(&doc.created).is_ok());
    assert!(chrono::DateTime::parse_from_rfc3339(&doc.updated).is_ok());
}

#[test]
fn fresh_keys_differ() {
    let a = fresh_public_key().unwrap();
    let b = fresh_public_key().unwrap();
    assert_eq!(a.len(), 32);
    assert_ne!(a, b);
    let x = create_did_key().unwrap();
    let y = create_did_key().unwrap();
    assert_ne!(x.id, y.id);
    let w = create_did_web("example.org", "u-1").unwrap();
    assert_eq!(w.id, "did:web:example.org:users:u-1");
    assert_eq!(w.verification_method[0].public_key_base58.as_ref().map(|k| k.len()), Some(43));
}

#[test]
fn binding_updates_one_user() {
    let mut users = vec![user("u-0"), user("u-1")];
    assert!(bind_did(&mut users, &"u-1".to_string(), &"did:key:zA".to_string(), 77));
    let mut expected = user("u-1");
    expected.did = Some("did:key:zA".to_string());
    expected.updated_at = 77;
    assert_eq!(users, vec![user("u-0"), expected]);
    assert!(!bind_did(&mut users, &"u-2".to_string(), &"did:key:zA".to_string(), 78));
}

#[test]
fn document_builder() {
    let doc = build_document("did:x:1", "KEY", "a".to_string(), "b".to_string());
    assert_eq!(doc.id, "did:x:1");
    assert_eq!(doc.verification_method[0].public_key_base58, Some("KEY".to_string()));
    assert_eq!(doc.authentication, vec!["did:x:1#key-1".to_string()]);
}
