use storage_client::error::StorageError;
use storage_client::token::{RefreshStep, Token, TokenCache};

fn cache_with(access: &str, expires_at: u64) -> TokenCache {
    TokenCache::new(Ok(Token::new(access.to_string(), expires_at))).unwrap()
}

#[test]
fn valid_token_is_reused_without_mint() {
    let cache = cache_with("ya29.first", 1_000);
    assert_eq!(cache.refresh_step(999), RefreshStep::Cached("ya29.first".to_string()));
}

#[test]
fn expired_token_asks_for_mint_and_installs_it() {
    let mut cache = cache_with("ya29.first", 1_000);
    assert_eq!(cache.refresh_step(1_000), RefreshStep::Mint);
    let r = cache.install(Ok(Token::new("ya29.second".to_string(), 5_000)));
    assert_eq!(r, Ok("ya29.second".to_string()));
    assert_eq!(cache.token(), &Token::new("ya29.second".to_string(), 5_000));
    assert_eq!(cache.refresh_step(1_000), RefreshStep::Cached("ya29.second".to_string()));
}

#[test]
fn failed_mint_leaves_cache_and_yields_token_error() {
    let mut cache = cache_with("ya29.first", 10);
    let r = cache.install(Err("metadata server unreachable"));
    assert_eq!(
        r,
        Err(StorageError::TokenError { details: "metadata server unreachable".to_string() })
    );
    assert_eq!(cache.token(), &Token::new("ya29.first".to_string(), 10));
}

#[test]
fn construction_fails_when_initial_mint_fails() {
    let r = TokenCache::new(Err("no credentials"));
    assert!(matches!(
        r,
        Err(StorageError::TokenError { ref details }) if details == "no credentials"
    ));
}

#[test]
fn racing_mints_leave_last_installed_token() {
    let mut cache = cache_with("ya29.first", 10);
    assert_eq!(cache.refresh_step(20), RefreshStep::Mint);
    assert_eq!(cache.refresh_step(20), RefreshStep::Mint);
    let a = Token::new("ya29.a".to_string(), 100);
    let b = Token::new("ya29.b".to_string(), 200);
    assert_eq!(cache.install(Ok(a)), Ok("ya29.a".to_string()));
    assert_eq!(cache.install(Ok(b.clone())), Ok("ya29.b".to_string()));
    assert_eq!(cache.token(), &b);
}

#[test]
fn token_validity_and_projection() {
    let t = Token::new("ya29.tok".to_string(), 50);
    assert!(t.is_valid(0));
    assert!(t.is_valid(49));
    assert!(!t.is_valid(50));
    assert!(!t.is_valid(u64::MAX));
    assert_eq!(t.access_token(), "ya29.tok".to_string());
}
