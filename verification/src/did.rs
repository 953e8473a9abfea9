//! The DID subsystem: documents for the methods `key` and `web`.

use crate::auth::{distinct_users, first_with_id, user_by_id};
use crate::error::{fails, internal, not_found, validation, AppError, ErrorView};
use crate::models::{text_of, User};
use crate::outside::{
    base64url, base64url_encode, current_rfc3339, ed25519_generate, ed25519_public_key, unix_now,
};
use crate::text::{after_prefix, same_text, starts_with};
use vstd::prelude::*;
use vstd::string::*;

verus! {

/// The domain that `web` identifiers are made for unless another is given.
pub const DEFAULT_DOMAIN: &'static str = "localhost:8000";

#[derive(Clone, Debug, PartialEq, Eq)]
pub struct CreateDidRequest {
    pub method: String,
    pub user_id: String,
}

#[derive(Clone, Debug, PartialEq, Eq)]
pub struct VerificationMethod {
    pub id: String,
    pub suite: String,
    pub controller: String,
    pub public_key_base58: Option<String>,
    pub public_key_jwk: Option<String>,
}

#[derive(Clone, Debug, PartialEq, Eq)]
pub struct DidDocument {
    pub id: String,
    pub context: Vec<String>,
    pub verification_method: Vec<VerificationMethod>,
    pub authentication: Vec<String>,
    pub created: String,
    pub updated: String,
}

/// What creating a DID gives: the identifier and its document.
#[derive(Clone, Debug, PartialEq, Eq)]
pub struct CreateDidResponse {
    pub did: String,
    pub document: DidDocument,
}

/// What every `key` identifier begins with.
pub open spec fn key_prefix() -> Seq<char> {
    "did:key:z"@
}

/// The encoded public key that a `key` identifier carries.
pub open spec fn key_of(did: Seq<char>) -> Seq<char> {
    did.subrange(key_prefix().len() as int, did.len() as int)
}

/// The `key` identifier of an encoded public key.
pub open spec fn key_id(key: Seq<char>) -> Seq<char> {
    key_prefix() + key
}

/// The `web` identifier of a user under a domain.
pub open spec fn web_id(domain: Seq<char>, user_id: Seq<char>) -> Seq<char> {
    "did:web:"@ + domain + ":users:"@ + user_id
}

/// Whether `doc` is the document of the identifier `id` with the one
/// verification method that holds the encoded public key `key`.
pub open spec fn describes(doc: DidDocument, id: Seq<char>, key: Seq<char>) -> bool {
    &&& doc.id@ == id
    &&& doc.context@.len() == 2
    &&& doc.context@[0]@ == "https://www.w3.org/ns/did/v1"@
    &&& doc.context@[1]@ == "https://w3id.org/security/suites/ed25519-2020/v1"@
    &&& doc.verification_method@.len() == 1
    &&& doc.verification_method@[0].id@ == id + "#key-1"@
    &&& doc.verification_method@[0].suite@ == "Ed25519VerificationKey2020"@
    &&& doc.verification_method@[0].controller@ == id
    &&& text_of(doc.verification_method@[0].public_key_base58) == Some(key)
    &&& doc.verification_method@[0].public_key_jwk is None
    &&& doc.authentication@.len() == 1
    &&& doc.authentication@[0]@ == id + "#key-1"@
}

/// Whether `doc` is the document of `id` around the encoding of the
/// thirty-two bytes `key`.
pub open spec fn holds_key(doc: DidDocument, id: Seq<char>, key: Seq<u8>) -> bool {
    key.len() == 32 && describes(doc, id, base64url(key))
}

/// Builds the document of an identifier around an encoded public key.
pub fn build_document(id: &str, key: &str, created: String, updated: String) -> (doc: DidDocument)
    ensures
        describes(doc, id@, key@),
        doc.created@ == created@,
        doc.updated@ == updated@,
{
    let vm_id = id.to_string().concat("#key-1");
    let mut context: Vec<String> = Vec::new();
    context.push("https://www.w3.org/ns/did/v1".to_string());
    context.push("https://w3id.org/security/suites/ed25519-2020/v1".to_string());
    let mut verification_method: Vec<VerificationMethod> = Vec::new();
    verification_method.push(
        VerificationMethod {
            id: vm_id.clone(),
            suite: "Ed25519VerificationKey2020".to_string(),
            controller: id.to_string(),
            public_key_base58: Some(key.to_string()),
            public_key_jwk: None,
        },
    );
    let mut authentication: Vec<String> = Vec::new();
    authentication.push(vm_id);
    DidDocument {
        id: id.to_string(),
        context,
        verification_method,
        authentication,
        created,
        updated,
    }
}

/// The `key` document of a public key: the identifier is the fixed prefix
/// followed by the URL-safe encoding of the key.
pub fn did_key_document(public_key: &[u8], created: String, updated: String) -> (doc: DidDocument)
    requires
        public_key@.len() <= 0x2000_0000,
    ensures
        describes(doc, key_id(base64url(public_key@)), base64url(public_key@)),
        doc.created@ == created@,
        doc.updated@ == updated@,
{
    let key = base64url_encode(public_key);
    let id = "did:key:z".to_string().concat(key.as_str());
    build_document(id.as_str(), key.as_str(), created, updated)
}

/// The `web` document of a user under a domain: the identifier comes from the
/// domain and the user, not from the key.
pub fn did_web_document(
    domain: &str,
    user_id: &str,
    public_key: &[u8],
    created: String,
    updated: String,
) -> (doc: DidDocument)
    requires
        public_key@.len() <= 0x2000_0000,
    ensures
        describes(doc, web_id(domain@, user_id@), base64url(public_key@)),
        doc.created@ == created@,
        doc.updated@ == updated@,
{
    let key = base64url_encode(public_key);
    let id = "did:web:".to_string().concat(domain).concat(":users:").concat(user_id);
    build_document(id.as_str(), key.as_str(), created, updated)
}

/// A fresh Ed25519 public key, where the generator gives one.
pub fn fresh_public_key() -> (r: Result<Vec<u8>, AppError>)
    ensures
        match r {
            Ok(k) => k@.len() == 32,
            Err(e) => e@ == internal("Key generation failed"@),
        },
{
    let document = match ed25519_generate() {
        Ok(d) => d,
        Err(_) => {
            return Err(AppError::Internal("Key generation failed".to_string()));
        },
    };
    match ed25519_public_key(document.as_slice()) {
        Ok(k) => Ok(k),
        Err(_) => Err(AppError::Internal("Key generation failed".to_string())),
    }
}

/// A `key` document for a fresh key pair.
pub fn create_did_key() -> (r: Result<DidDocument, AppError>)
    ensures
        match r {
            Ok(doc) => exists|key: Seq<u8>| #[trigger] holds_key(doc, key_id(base64url(key)), key),
            Err(e) => e@ == internal("Key generation failed"@),
        },
{
    let public_key = match fresh_public_key() {
        Ok(k) => k,
        Err(e) => {
            return Err(e);
        },
    };
    let created = current_rfc3339();
    let updated = current_rfc3339();
    let doc = did_key_document(public_key.as_slice(), created, updated);
    let r = Ok(doc);
    assert(holds_key(r->Ok_0, key_id(base64url(public_key@)), public_key@));
    r
}

/// A `web` document of a user under a domain, for a fresh key pair.
pub fn create_did_web(domain: &str, user_id: &str) -> (r: Result<DidDocument, AppError>)
    ensures
        match r {
            Ok(doc) => exists|key: Seq<u8>|
                #[trigger] holds_key(doc, web_id(domain@, user_id@), key),
            Err(e) => e@ == internal("Key generation failed"@),
        },
{
    let public_key = match fresh_public_key() {
        Ok(k) => k,
        Err(e) => {
            return Err(e);
        },
    };
    let created = current_rfc3339();
    let updated = current_rfc3339();
    let doc = did_web_document(domain, user_id, public_key.as_slice(), created, updated);
    let r = Ok(doc);
    assert(holds_key(r->Ok_0, web_id(domain@, user_id@), public_key@));
    r
}

/// What resolving an identifier gives: the encoded public key of a `key`
/// identifier, and a failure for every other one.
pub open spec fn resolution(did: Seq<char>) -> Result<Seq<char>, ErrorView> {
    if "did:key:"@.is_prefix_of(did) {
        if key_prefix().is_prefix_of(did) {
            Ok(key_of(did))
        } else {
            Err(not_found("Invalid DID:key format"@))
        }
    } else if "did:web:"@.is_prefix_of(did) {
        Err(not_found("DID:web resolution not fully implemented"@))
    } else {
        Err(not_found("DID not found or unsupported method"@))
    }
}

/// Rebuilds the document of a `key` identifier from the identifier alone.
pub fn resolve_did_key(did: &str) -> (r: Result<DidDocument, AppError>)
    ensures
        match r {
            Ok(doc) => key_prefix().is_prefix_of(did@) && describes(doc, did@, key_of(did@)),
            Err(e) => !key_prefix().is_prefix_of(did@) && e@ == not_found(
                "Invalid DID:key format"@,
            ),
        },
{
    if !starts_with(did, "did:key:z") {
        return Err(AppError::NotFound("Invalid DID:key format".to_string()));
    }
    let key = after_prefix(did, "did:key:z");
    let created = current_rfc3339();
    let updated = current_rfc3339();
    Ok(build_document(did, key, created, updated))
}

/// Resolving a `web` identifier would need the network: it always fails.
pub fn resolve_did_web(did: &str) -> (r: Result<DidDocument, AppError>)
    ensures
        r matches Err(e) && e@ == not_found("DID:web resolution not fully implemented"@),
{
    Err(AppError::NotFound("DID:web resolution not fully implemented".to_string()))
}

/// Resolves an identifier by its method.
pub fn resolve_did(did: &str) -> (r: Result<DidDocument, AppError>)
    ensures
        match r {
            Ok(doc) => resolution(did@) is Ok && describes(doc, did@, resolution(did@)->Ok_0),
            Err(e) => resolution(did@) == Err::<Seq<char>, ErrorView>(e@),
        },
{
    if starts_with(did, "did:key:") {
        resolve_did_key(did)
    } else if starts_with(did, "did:web:") {
        resolve_did_web(did)
    } else {
        Err(AppError::NotFound("DID not found or unsupported method".to_string()))
    }
}

/// Whether `after` is `before` with the identifier `did` bound to the first
/// user with the id `user_id`, at the time `now`.
pub open spec fn bound(
    before: Seq<User>,
    after: Seq<User>,
    user_id: Seq<char>,
    did: Seq<char>,
    now: i64,
) -> bool {
    &&& after.len() == before.len()
    &&& exists|i: int|
        {
            &&& #[trigger] first_with_id(before, user_id, i)
            &&& forall|j: int| 0 <= j < before.len() && j != i ==> after[j] == before[j]
            &&& after[i].id@ == before[i].id@
            &&& after[i].username@ == before[i].username@
            &&& after[i].email@ == before[i].email@
            &&& after[i].password_hash@ == before[i].password_hash@
            &&& text_of(after[i].did) == Some(did)
            &&& after[i].created_at == before[i].created_at
            &&& after[i].updated_at == now
            &&& after[i].is_active == before[i].is_active
        }
}

/// Binds an identifier to the user with the id `user_id`.
pub fn bind_did(users: &mut Vec<User>, user_id: &String, did: &String, now: i64) -> (r: bool)
    ensures
        r == user_by_id(old(users)@, user_id@) is Some,
        r ==> bound(old(users)@, final(users)@, user_id@, did@, now),
        !r ==> final(users)@ == old(users)@,
{
    let mut i: usize = 0;
    while i < users.len()
        invariant
            i <= users.len(),
            users@ == old(users)@,
            forall|j: int| 0 <= j < i ==> (#[trigger] users@[j]).id@ != user_id@,
        decreases users.len() - i,
    {
        if users[i].id == *user_id {
            let user = User {
                id: users[i].id.clone(),
                username: users[i].username.clone(),
                email: users[i].email.clone(),
                password_hash: users[i].password_hash.clone(),
                did: Some(did.clone()),
                created_at: users[i].created_at,
                updated_at: now,
                is_active: users[i].is_active,
            };
            users.set(i, user);
            proof {
                assert(first_with_id(old(users)@, user_id@, i as int));
            }
            return true;
        }
        i += 1;
    }
    false
}

/// Binding an identifier keeps ids, user names and emails unique.
pub proof fn lemma_binding_keeps_distinct(
    before: Seq<User>,
    after: Seq<User>,
    user_id: Seq<char>,
    did: Seq<char>,
    now: i64,
)
    requires
        distinct_users(before),
        bound(before, after, user_id, did, now),
    ensures
        distinct_users(after),
{
    assert forall|i: int, j: int| 0 <= i < j < after.len() implies (#[trigger] after[i]).email@ != (
    #[trigger] after[j]).email@ && after[i].username@ != after[j].username@ && after[i].id@
        != after[j].id@ by {
        assert(before[i].email@ != before[j].email@ && before[i].username@ != before[j].username@
            && before[i].id@ != before[j].id@);
    }
}

/// Why creating a DID is turned away before any key is made: an unknown
/// user, or a method other than `key` and `web`.
pub open spec fn creation_fault(users: Seq<User>, req: CreateDidRequest) -> Option<ErrorView> {
    if user_by_id(users, req.user_id@) is None {
        Some(not_found("User not found"@))
    } else if req.method@ != "key"@ && req.method@ != "web"@ {
        Some(validation("Unsupported DID method"@))
    } else {
        None
    }
}

/// The identifier that each method gives: `key` derives it from the encoded
/// public key, `web` from the domain and the user.
pub open spec fn created_id(
    method: Seq<char>,
    domain: Seq<char>,
    user_id: Seq<char>,
    key: Seq<char>,
) -> Seq<char> {
    if method == "key"@ {
        key_id(key)
    } else {
        web_id(domain, user_id)
    }
}

/// Creates a DID of the method asked for, for a fresh key pair, and binds it
/// to the user.
pub fn create_did(users: &mut Vec<User>, payload: &CreateDidRequest, domain: &str) -> (r: Result<
    CreateDidResponse,
    AppError,
>)
    ensures
        creation_fault(old(users)@, *payload) matches Some(e) ==> fails(r, e) && final(users)@
            == old(users)@,
        creation_fault(old(users)@, *payload) is None ==> match r {
            Ok(resp) => {
                &&& resp.did@ == resp.document.id@
                &&& exists|now: i64|
                    #[trigger] bound(old(users)@, final(users)@, payload.user_id@, resp.did@, now)
                &&& exists|key: Seq<u8>|
                    #[trigger] holds_key(
                        resp.document,
                        created_id(payload.method@, domain@, payload.user_id@, base64url(key)),
                        key,
                    )
            },
            Err(f) => f@ == internal("Key generation failed"@) && final(users)@ == old(users)@,
        },
{
    if crate::auth::find_by_id(users, &payload.user_id).is_none() {
        return Err(AppError::NotFound("User not found".to_string()));
    }
    let made = if same_text(payload.method.as_str(), "key") {
        create_did_key()
    } else if same_text(payload.method.as_str(), "web") {
        create_did_web(domain, payload.user_id.as_str())
    } else {
        return Err(AppError::Validation("Unsupported DID method".to_string()));
    };
    let document = match made {
        Ok(d) => d,
        Err(e) => {
            return Err(e);
        },
    };
    let did = document.id.clone();
    let now = unix_now();
    let found = bind_did(users, &payload.user_id, &did, now);
    let r = Ok(CreateDidResponse { did, document });
    proof {
        assert(found);
        assert(bound(old(users)@, final(users)@, payload.user_id@, r->Ok_0.did@, now));
        if payload.method@ == "key"@ {
            let key = choose|key: Seq<u8>|
                holds_key(r->Ok_0.document, key_id(base64url(key)), key);
            assert(holds_key(
                r->Ok_0.document,
                created_id(payload.method@, domain@, payload.user_id@, base64url(key)),
                key,
            ));
        } else {
            let key = choose|key: Seq<u8>|
                holds_key(r->Ok_0.document, web_id(domain@, payload.user_id@), key);
            assert(holds_key(
                r->Ok_0.document,
                created_id(payload.method@, domain@, payload.user_id@, base64url(key)),
                key,
            ));
        }
    }
    r
}

/// The identifier of a `key` document resolves to the very key that it was
/// made from.
pub proof fn lemma_key_round_trip(key: Seq<char>)
    ensures
        resolution(key_id(key)) == Ok::<Seq<char>, ErrorView>(key),
{
    reveal_strlit("did:key:z");
    reveal_strlit("did:key:");
    let id = key_id(key);
    assert(key_of(id) =~= key);
    assert(key_prefix() =~= id.subrange(0, key_prefix().len() as int));
    assert("did:key:"@ =~= id.subrange(0, "did:key:"@.len() as int));
}

/// The identifier of a `key` document resolves to the encoded public key
/// that the document's one verification method holds.
pub proof fn lemma_created_key_resolves(doc: DidDocument, key: Seq<u8>)
    requires
        holds_key(doc, key_id(base64url(key)), key),
    ensures
        resolution(doc.id@) == Ok::<Seq<char>, ErrorView>(base64url(key)),
        doc.verification_method@.len() == 1,
        text_of(doc.verification_method@[0].public_key_base58) == Some(
            resolution(doc.id@)->Ok_0,
        ),
{
    lemma_key_round_trip(base64url(key));
}

/// A `web` identifier, and any identifier of another method, resolves to a
/// failure.
pub proof fn lemma_only_key_resolves(did: Seq<char>)
    requires
        !"did:key:"@.is_prefix_of(did),
    ensures
        resolution(did) is Err,
{
}

} // verus!
