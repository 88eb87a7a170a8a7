use murmur_api::error::ApiError;
use murmur_api::seed::derive_seed;
use murmur_api::session::{authorize, read_session, token_attributes};

fn salt() -> [u8; 16] {
    *b"0123456789abcdef"
}

#[test]
fn derive_seed_is_deterministic() {
    let s1 = derive_seed("alice", "pw", &salt());
    let s2 = derive_seed("alice", "pw", &salt());
    assert_eq!(s1, s2);
}

#[test]
fn derive_seed_depends_on_every_input() {
    let base = derive_seed("alice", "pw", &salt());
    assert_ne!(base, derive_seed("bob", "pw", &salt()));
    assert_ne!(base, derive_seed("alice", "pw2", &salt()));
    assert_ne!(base, derive_seed("alice", "pw", b"fedcba9876543210"));
}

#[test]
fn derive_seed_is_a_bcrypt_hash_string() {
    let s = derive_seed("alice", "pw", &salt());
    assert_eq!(s.len(), 60);
    assert!(s.starts_with("$2b$04$"));
    assert_ne!(s, "pw");
}

#[test]
fn read_session_needs_both_tokens() {
    assert!(read_session(None, None).is_none());
    assert!(read_session(Some("u".to_string()), None).is_none());
    assert!(read_session(None, Some("s".to_string())).is_none());
    let sess = read_session(Some("u".to_string()), Some("s".to_string())).unwrap();
    assert_eq!(sess.username, "u");
    assert_eq!(sess.seed, "s");
}

#[test]
fn gate_fails_closed_without_username() {
    let called = std::cell::Cell::new(false);
    let r: Result<u8, ApiError> = authorize(None, Some("seed".to_string()), |_u, _s| {
        called.set(true);
        Ok(1)
    });
    assert!(matches!(r, Err(ApiError::Unauthorized)));
    assert!(!called.get());
}

#[test]
fn gate_fails_closed_without_seed() {
    let called = std::cell::Cell::new(false);
    let r: Result<u8, ApiError> = authorize(Some("alice".to_string()), None, |_u, _s| {
        called.set(true);
        Ok(1)
    });
    assert!(matches!(r, Err(ApiError::Unauthorized)));
    assert!(!called.get());
    assert_eq!(ApiError::Unauthorized.status_code(), 403);
    assert_eq!(ApiError::Unauthorized.message(), "Not authenticated");
}

#[test]
fn tokens_are_emitted_for_cross_origin_use() {
    let attrs = token_attributes();
    assert_eq!(attrs.path, "/");
    assert!(attrs.same_site_none);
    assert!(attrs.secure);
}

#[test]
fn gate_passes_identity_through() {
    let r: Result<String, ApiError> =
        authorize(Some("alice".to_string()), Some("seed".to_string()), |u, s| Ok(format!("{u}/{s}")));
    assert_eq!(r.unwrap(), "alice/seed");
}
