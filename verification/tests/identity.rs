use ripalt::id::Uuid;
use ripalt::identity::{
    is_bearer_header, ApiIdentity, ApiIdentityPolicy, Claims, CredentialLookup, Identity, IdentityService,
    RequestExtensions, RequestIdentity,
};

fn user() -> Uuid {
    Uuid::from_u128(0x67e5504410b1426f9247bb680e5fe0c8)
}

fn group() -> Uuid {
    Uuid::from_u128(0x0000_0000_0000_0000_0000_0000_0000_002a)
}

#[test]
fn uuid_text_is_hyphenated_lower_hex() {
    assert_eq!(user().to_string(), "67e55044-10b1-426f-9247-bb680e5fe0c8");
    assert_eq!(Uuid::nil().to_string(), "00000000-0000-0000-0000-000000000000");
    assert_eq!(
        Uuid::from_u128(u128::MAX).to_string(),
        "ffffffff-ffff-ffff-ffff-ffffffffffff"
    );
    assert_eq!(Uuid::from_u128(0xABCDEF).as_u128(), 0xABCDEF);
    assert_eq!(Uuid::default(), Uuid::nil());
}

#[test]
fn api_identity_carries_credentials_and_user_text() {
    let api = ApiIdentity::new(Some((user(), group())));
    assert_eq!(api.identity(), Some("67e55044-10b1-426f-9247-bb680e5fe0c8"));
    assert_eq!(api.credentials(), Some((&user(), &group())));
    assert_eq!(api.user_id(), Some(&user()));
    assert_eq!(api.group_id(), Some(&group()));
}

#[test]
fn api_identity_without_credentials_is_empty() {
    let api = ApiIdentity::new(None);
    assert_eq!(api.identity(), None);
    assert_eq!(api.credentials(), None);
    assert_eq!(api.user_id(), None);
    assert_eq!(api.group_id(), None);
}

#[test]
fn forget_clears_credentials_but_keeps_text() {
    let mut api = ApiIdentity::new(Some((user(), group())));
    api.forget();
    assert_eq!(api.credentials(), None);
    assert_eq!(api.user_id(), None);
    assert_eq!(api.group_id(), None);
    assert_eq!(api.identity(), Some("67e55044-10b1-426f-9247-bb680e5fe0c8"));
}

#[test]
fn request_shows_attached_identity() {
    let service = IdentityService::new(ApiIdentityPolicy::new(b"secret"));
    let mut req: RequestExtensions<ApiIdentity> = RequestExtensions::new();
    assert_eq!(req.identity(), None);
    assert_eq!(req.credentials(), None);
    let started: Result<(), String> = service.start(&mut req, Ok(ApiIdentity::new(Some((user(), group())))));
    assert_eq!(started, Ok(()));
    assert_eq!(req.identity(), Some("67e55044-10b1-426f-9247-bb680e5fe0c8"));
    assert_eq!(req.user_id(), Some(&user()));
    assert_eq!(req.group_id(), Some(&group()));
    assert!(req.get().is_some());
    let resp = service.response(&mut req, 200u16);
    assert_eq!(resp, 200u16);
    assert_eq!(req.identity(), None);
    assert_eq!(req.credentials(), None);
    assert!(req.get().is_none());
}

#[test]
fn failed_backend_leaves_request_without_identity() {
    let service = IdentityService::new(0u8);
    assert_eq!(*service.backend(), 0u8);
    let mut req: RequestExtensions<ApiIdentity> = RequestExtensions::new();
    let started = service.start(&mut req, Err::<ApiIdentity, &str>("unauthorized"));
    assert_eq!(started, Err("unauthorized"));
    assert_eq!(req.credentials(), None);
}

#[test]
fn request_forget_clears_credentials() {
    let mut req = RequestExtensions::new();
    req.insert(ApiIdentity::new(Some((user(), group()))));
    req.forget();
    assert_eq!(req.credentials(), None);
    assert_eq!(req.user_id(), None);
    assert_eq!(req.identity(), Some("67e55044-10b1-426f-9247-bb680e5fe0c8"));
    let removed = req.remove();
    assert!(removed.is_some());
    assert!(req.remove().is_none());
}

fn token_of(found: CredentialLookup) -> Option<Vec<u8>> {
    match found {
        CredentialLookup::BearerToken(t) => Some(t),
        CredentialLookup::Resolved(_) => None,
    }
}

#[test]
fn session_credentials_come_first() {
    let policy = ApiIdentityPolicy::new(b"secret");
    assert_eq!(policy.key(), b"secret");
    let found = policy.load(Some((user(), group())), Some(b"Bearer abc.def.ghi"));
    assert_eq!(found.resolve(Some(Claims::new(1, group(), user()))), Some((user(), group())));
}

#[test]
fn bearer_token_is_taken_after_seven_bytes() {
    let policy = ApiIdentityPolicy::new(b"secret");
    let found = policy.load(None, Some(b"Bearer abc.def.ghi"));
    assert_eq!(token_of(found), Some(b"abc.def.ghi".to_vec()));
    let found = policy.load(None, Some(b"BEARER xyz"));
    assert_eq!(token_of(found), Some(b"xyz".to_vec()));
    let found = policy.load(None, Some(b"bearer:tok"));
    assert_eq!(token_of(found), Some(b"tok".to_vec()));
    let found = policy.load(None, Some(b"bearerXY"));
    assert_eq!(token_of(found), Some(b"Y".to_vec()));
}

#[test]
fn other_headers_give_no_credentials() {
    let policy = ApiIdentityPolicy::new(b"secret");
    for header in [&b"Basic dXNlcjpwYXNz"[..], b"Bear", b"", b"Bearer \xff\xfe", b"Bearer a\x7fb"] {
        let found = policy.load(None, Some(header));
        assert!(token_of(policy.load(None, Some(header))).is_none());
        assert_eq!(found.resolve(Some(Claims::new(1, user(), group()))), None);
    }
    let found = policy.load(None, None);
    assert_eq!(found.resolve(None), None);
}

#[test]
fn header_with_tab_is_text() {
    let policy = ApiIdentityPolicy::new(b"k");
    let found = policy.load(None, Some(b"bearer\ttok\t"));
    assert_eq!(token_of(found), Some(b"tok\t".to_vec()));
}

#[test]
fn decoded_claims_give_credentials() {
    let policy = ApiIdentityPolicy::new(b"k");
    let found = policy.load(None, Some(b"Bearer t"));
    assert_eq!(found.resolve(Some(Claims::new(7, user(), group()))), Some((user(), group())));
    let found = policy.load(None, Some(b"Bearer t"));
    assert_eq!(found.resolve(None), None);
}

#[test]
fn claims_accessors() {
    let claims = Claims::new(1_530_000_000, user(), group());
    assert_eq!(claims.iat(), 1_530_000_000);
    assert_eq!(claims.user_id(), user());
    assert_eq!(claims.group_id(), group());
    assert_eq!(claims.credentials(), (user(), group()));
}

#[test]
fn from_request_refuses_missing_credentials() {
    let policy = ApiIdentityPolicy::new(b"k");
    assert!(policy.from_request(None).is_none());
    let api = policy.from_request(Some((user(), group()))).unwrap();
    assert_eq!(api.credentials(), Some((&user(), &group())));
    assert_eq!(api.identity(), Some("67e55044-10b1-426f-9247-bb680e5fe0c8"));
}

#[test]
fn bearer_header_detection() {
    assert!(is_bearer_header(b"Bearer x"));
    assert!(is_bearer_header(b"bEaReR"));
    assert!(!is_bearer_header(b"Beare"));
    assert!(!is_bearer_header(b"Basic x"));
    assert!(!is_bearer_header(b"Bearer \xc3\xa9"));
    assert!(!is_bearer_header(b"Bearer \n"));
}

#[test]
fn uuid_text_shape_and_distinctness() {
    let a = Uuid::from_u128(1).to_string();
    let b = Uuid::from_u128(1 << 64).to_string();
    assert_eq!(a.len(), 36);
    assert_eq!(b.len(), 36);
    for i in [8, 13, 18, 23] {
        assert_eq!(a.as_bytes()[i], b'-');
        assert_eq!(b.as_bytes()[i], b'-');
    }
    assert_eq!(a, "00000000-0000-0000-0000-000000000001");
    assert_eq!(b, "00000000-0000-0001-0000-000000000000");
    assert_ne!(a, b);
}

#[test]
fn forget_on_request_without_identity_keeps_it_empty() {
    let mut req: RequestExtensions<ApiIdentity> = RequestExtensions::new();
    req.forget();
    assert!(req.get().is_none());
    assert_eq!(req.identity(), None);
}
