use base64::Engine;
use rusty_board::auth::{AuthProvider, SimpleAuthProvider};
use rusty_board::models::Ban;
use sha2::{Digest, Sha256};

const KNOWN_HASH: &str =
    "$argon2id$v=19$m=256,t=2,p=1$c29tZXNhbHQ$nf65EOgLrQMR/uIPnA4rEsF5h7TKyQwu9U1bMCHGi/4";

fn ban(entry: &str, expires_at: Option<i64>) -> Ban {
    Ban {
        id: 1,
        ip_address: entry.to_string(),
        reason: "spam".to_string(),
        expires_at,
        created_at: 0,
    }
}

fn provider_with(entries: &[(&str, Option<i64>)]) -> SimpleAuthProvider {
    let mut provider = SimpleAuthProvider::new("salt");
    for (entry, expires_at) in entries {
        provider.add_ban(ban(entry, *expires_at));
    }
    provider
}

#[test]
fn thread_id_is_the_head_of_the_salted_digest() {
    let provider = SimpleAuthProvider::new("your-secret-salt");
    let id = provider.generate_thread_id("1.2.3.4", "thread-a");
    let mut hasher = Sha256::new();
    hasher.update(b"your-secret-salt");
    hasher.update(b"1.2.3.4");
    hasher.update(b"thread-a");
    let expected = hex::encode(hasher.finalize());
    assert_eq!(id, expected[..8]);
}

#[test]
fn thread_id_is_stable_and_eight_characters_long() {
    let provider = SimpleAuthProvider::new("s3cret");
    let first = provider.generate_thread_id("203.0.113.9", "t1");
    let second = provider.generate_thread_id("203.0.113.9", "t1");
    assert_eq!(first, second);
    assert_eq!(first.len(), 8);
    assert!(first.chars().all(|c| c.is_ascii_hexdigit() && !c.is_ascii_uppercase()));
}

#[test]
fn thread_id_differs_between_threads_and_secrets() {
    let provider = SimpleAuthProvider::new("s3cret");
    let other = SimpleAuthProvider::new("another");
    let here = provider.generate_thread_id("203.0.113.9", "t1");
    assert_ne!(here, provider.generate_thread_id("203.0.113.9", "t2"));
    assert_ne!(here, other.generate_thread_id("203.0.113.9", "t1"));
}

#[test]
fn thread_id_of_a_known_input() {
    // SHA-256("abc") begins with ba7816bf.
    let provider = SimpleAuthProvider::new("a");
    assert_eq!(provider.generate_thread_id("b", "c"), "ba7816bf");
}

#[test]
fn tripcode_is_bang_and_ten_base64_characters() {
    let provider = SimpleAuthProvider::new("salt");
    let trip = provider.generate_tripcode("hunter2");
    let digest = Sha256::digest(b"hunter2");
    let encoded = base64::engine::general_purpose::STANDARD.encode(digest);
    assert_eq!(trip, format!("!{}", &encoded[..10]));
    assert_eq!(trip.len(), 11);
}

#[test]
fn tripcode_of_a_known_password() {
    // SHA-256("abc") = ba 78 16 bf 8f 01 cf ea ..., whose Base64 begins "ungWv48Bz+".
    let provider = SimpleAuthProvider::new("salt");
    assert_eq!(provider.generate_tripcode("abc"), "!ungWv48Bz+");
}

#[test]
fn tripcode_ignores_the_session_secret() {
    let one = SimpleAuthProvider::new("one");
    let two = SimpleAuthProvider::new("two");
    assert_eq!(one.generate_tripcode("pw"), two.generate_tripcode("pw"));
}

#[test]
fn moderator_password_is_checked_against_the_hash() {
    let provider = SimpleAuthProvider::new("salt");
    assert!(provider.verify_admin_password("password", KNOWN_HASH));
    assert!(!provider.verify_admin_password("Password", KNOWN_HASH));
    assert!(!provider.verify_admin_password("", KNOWN_HASH));
}

#[test]
fn malformed_hash_verifies_nothing() {
    let provider = SimpleAuthProvider::new("salt");
    assert!(!provider.verify_admin_password("password", ""));
    assert!(!provider.verify_admin_password("password", "not a hash"));
    assert!(!provider.verify_admin_password("password", "password"));
    assert!(!provider.verify_admin_password("password", "$argon2id$v=19$m=256,t=2,p=1"));
}

#[test]
fn nobody_is_banned_by_default() {
    let provider = SimpleAuthProvider::new("salt");
    assert_eq!(provider.check_ban("1.2.3.4").ok(), Some(false));
    assert!(!provider.is_banned_at("1.2.3.4", 0));
}

#[test]
fn exact_address_is_banned() {
    let provider = provider_with(&[("1.2.3.4", None)]);
    assert!(provider.is_banned_at("1.2.3.4", 0));
    assert!(!provider.is_banned_at("1.2.3.5", 0));
    assert_eq!(provider.check_ban("1.2.3.4").ok(), Some(true));
}

#[test]
fn network_bans_the_addresses_it_holds() {
    let provider = provider_with(&[("10.1.0.0/16", None)]);
    assert!(provider.is_banned_at("10.1.0.1", 0));
    assert!(provider.is_banned_at("10.1.255.255", 0));
    assert!(!provider.is_banned_at("10.2.0.1", 0));
    assert!(!provider.is_banned_at("11.1.0.1", 0));
}

#[test]
fn whole_internet_network_bans_every_address() {
    let provider = provider_with(&[("0.0.0.0/0", None)]);
    assert!(provider.is_banned_at("8.8.8.8", 0));
    assert!(provider.is_banned_at("255.255.255.255", 0));
}

#[test]
fn expired_ban_does_not_match() {
    let provider = provider_with(&[("1.2.3.4", Some(1_000))]);
    assert!(provider.is_banned_at("1.2.3.4", 999));
    assert!(provider.is_banned_at("1.2.3.4", 1_000));
    assert!(!provider.is_banned_at("1.2.3.4", 1_001));
}

#[test]
fn any_live_ban_suffices() {
    let provider = provider_with(&[("1.2.3.4", Some(10)), ("1.2.3.0/24", Some(100))]);
    assert!(provider.is_banned_at("1.2.3.4", 50));
    assert!(!provider.is_banned_at("1.2.3.4", 101));
}

#[test]
fn unparsable_entry_matches_only_its_own_text() {
    let provider = provider_with(&[("tor-exit", None)]);
    assert!(provider.is_banned_at("tor-exit", 0));
    assert!(!provider.is_banned_at("1.2.3.4", 0));
}

#[test]
fn ipv6_network_bans_the_addresses_it_holds() {
    let provider = provider_with(&[("2001:db8::/32", None)]);
    assert!(provider.is_banned_at("2001:db8::42", 0));
    assert!(provider.is_banned_at("2001:0db8:0000:0000:0000:0000:0000:0042", 0));
    assert!(!provider.is_banned_at("2001:db9::42", 0));
    assert!(!provider.is_banned_at("1.2.3.4", 0));
}

#[test]
fn same_address_in_another_spelling_is_banned() {
    let provider = provider_with(&[("0:0:0:0:0:0:0:1", None)]);
    assert!(provider.is_banned_at("::1", 0));
    assert!(!provider.is_banned_at("::2", 0));
}
