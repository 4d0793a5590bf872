//! The secret store and the sentinel cycles against a real in-memory
//! database and the real cipher.

use base64::Engine;
use koralreef::config::Config;
use koralreef::sentinel::{
    apply_reclaim_outcome, demo_summary, load_config_from_storage, reclaim_summary,
    resolve_key_source, run_demo_cycle, KeySource,
};
use koralreef::state::{AppMode, AppState};
use koralreef::storage::{Storage, StoreError};

fn fresh_store() -> Storage {
    let key: Vec<u8> = (0..32u8).collect();
    Storage::open_in_memory(key).expect("in-memory store")
}

#[test]
fn encrypt_then_decrypt_round_trips() {
    let store = fresh_store();
    for data in [
        Vec::new(),
        vec![0u8],
        vec![1, 2, 3, 4, 5],
        (0..=255u8).collect::<Vec<u8>>(),
    ] {
        let blob = store.encrypt(&data).expect("encrypt");
        assert_eq!(store.decrypt(&blob).expect("decrypt"), data);
    }
}

#[test]
fn fresh_nonce_per_call() {
    let store = fresh_store();
    let a = store.encrypt(&vec![9u8; 16]).expect("encrypt");
    let b = store.encrypt(&vec![9u8; 16]).expect("encrypt");
    assert_ne!(a, b, "two seals of one plaintext must differ in nonce");
}

#[test]
fn sealed_blob_is_nonce_then_tagged_ciphertext() {
    let store = fresh_store();
    let data = vec![5u8; 24];
    let blob = store.encrypt(&data).expect("encrypt");
    let combined = base64::prelude::BASE64_STANDARD.decode(&blob).expect("base64");
    // A 12-byte nonce, then the ciphertext with its 16-byte tag.
    assert_eq!(combined.len(), 12 + data.len() + 16);
    // The ciphertext is bound to the nonce: altering the nonce breaks it.
    let mut altered = combined.clone();
    altered[0] ^= 1;
    let altered_blob = base64::prelude::BASE64_STANDARD.encode(&altered);
    assert!(store.decrypt(&altered_blob).is_err());
}

#[test]
fn tampered_blob_never_decrypts() {
    let store = fresh_store();
    let blob = store.encrypt(&vec![42u8; 24]).expect("encrypt");
    // Flip one character of the base64 text.
    let mut chars: Vec<char> = blob.chars().collect();
    let i = chars.len() / 2;
    chars[i] = if chars[i] == 'A' { 'B' } else { 'A' };
    let tampered: String = chars.iter().collect();
    assert!(matches!(store.decrypt(&tampered), Err(StoreError::Decryption)));
    // Truncation fails too.
    assert!(matches!(store.decrypt(""), Err(StoreError::Decryption)));
    assert!(matches!(store.decrypt("AAAA"), Err(StoreError::Decryption)));
    // A blob sealed under another key fails.
    let other = Storage::open_in_memory(vec![0xabu8; 32]).expect("store");
    assert!(matches!(other.decrypt(&blob), Err(StoreError::Decryption)));
}

#[test]
fn settings_round_trip_plain_and_sealed() {
    let mut store = fresh_store();
    assert_eq!(store.get_setting("missing").expect("get"), None);
    store.set_setting("plain", "hello", false).expect("set");
    assert_eq!(store.get_setting("plain").expect("get"), Some("hello".to_string()));
    store.set_setting("sealed", "top secret", true).expect("set");
    assert_eq!(store.get_setting("sealed").expect("get"), Some("top secret".to_string()));
    // Last write wins.
    store.set_setting("plain", "bye", false).expect("set");
    assert_eq!(store.get_setting("plain").expect("get"), Some("bye".to_string()));
}

#[test]
fn keypair_is_stored_sealed() {
    let mut store = fresh_store();
    assert_eq!(store.get_keypair().expect("get"), None);
    store.save_keypair("[1,2,3,4]").expect("save");
    assert_eq!(store.get_keypair().expect("get"), Some("[1,2,3,4]".to_string()));
}

#[test]
fn admin_registration_is_first_writer_wins() {
    let mut store = fresh_store();
    assert_eq!(store.get_admin().expect("get"), None);
    store.set_admin(111).expect("set");
    assert_eq!(store.get_admin().expect("get"), Some(111));
    // A second registration with a different identity is silently ignored.
    store.set_admin(222).expect("set");
    assert_eq!(store.get_admin().expect("get"), Some(111));
    // And so is a repeat of the first.
    store.set_admin(111).expect("set");
    assert_eq!(store.get_admin().expect("get"), Some(111));
}

#[test]
fn history_is_newest_first_with_limit() {
    let mut store = fresh_store();
    assert!(store.get_recent_history(10).expect("history").is_empty());
    store.log_event("first").expect("log");
    store.log_event("second").expect("log");
    store.log_event("third").expect("log");
    let recent = store.get_recent_history(2).expect("history");
    assert_eq!(recent.len(), 2);
    assert!(recent[0].ends_with("third"));
    assert!(recent[1].ends_with("second"));
    assert!(recent[0].starts_with('['));
    let all = store.get_recent_history(10).expect("history");
    assert_eq!(all.len(), 3);
    assert!(all[2].ends_with("first"));
    assert!(store.get_recent_history(0).expect("history").is_empty());
    assert!(store.get_recent_history(-3).expect("history").is_empty());
}

#[test]
fn key_source_prefers_the_store() {
    assert_eq!(resolve_key_source(true, true), KeySource::Stored);
    assert_eq!(resolve_key_source(true, false), KeySource::Stored);
    assert_eq!(resolve_key_source(false, true), KeySource::FilePath);
    assert_eq!(resolve_key_source(false, false), KeySource::Unavailable);
}

#[test]
fn demo_cycle_touches_no_secret_and_logs() {
    let mut store = fresh_store();
    let mut state = AppState::new(AppMode::Demo, 0);
    run_demo_cycle(&mut state, &mut store, 77).expect("cycle");
    assert_eq!(state.last_scan_time, Some(77));
    assert_eq!(state.last_reclaim_summary.as_deref(), Some(demo_summary().as_str()));
    assert_eq!(state.total_accounts_closed, 0);
    assert_eq!(state.total_reclaimed_lamports, 0);
    let recent = store.get_recent_history(1).expect("history");
    assert!(recent[0].ends_with(demo_summary().as_str()));
    assert_eq!(store.get_admin().expect("admin"), None);
}

#[test]
fn reclaim_outcome_updates_counters_and_log() {
    let mut store = fresh_store();
    let mut state = AppState::new(AppMode::Real, 0);
    let (summary, logged) = apply_reclaim_outcome(&mut state, &mut store, 4_000_000, 2, 99);
    logged.expect("log");
    assert_eq!(summary, "Reclaimed 2 accounts (0.0040 SOL).");
    assert_eq!(summary, reclaim_summary(2, 4_000_000));
    assert_eq!(state.total_reclaimed_lamports, 4_000_000);
    assert_eq!(state.total_accounts_closed, 2);
    assert_eq!(state.last_scan_time, Some(99));
    assert_eq!(state.last_reclaim_summary.as_deref(), Some(summary.as_str()));
    let recent = store.get_recent_history(1).expect("history");
    assert!(recent[0].ends_with(summary.as_str()));
}

#[test]
fn demo_config_has_safe_defaults() {
    let c = Config::demo();
    assert_eq!(c.mode, AppMode::Demo);
    assert_eq!(c.solana.rpc_url, "https://api.devnet.solana.com");
    assert_eq!(c.solana.keypair_path, "demo-keypair.json");
    assert_eq!(c.solana.treasury_address, "DemoTreasury111111111111111111111111111111");
    assert!(c.telegram.bot_token.is_empty());
    assert!(c.telegram.authorized_user_ids.is_empty());
    assert_eq!(c.settings.scan_interval_hours, 1);
    assert!(c.settings.dry_run);
    assert_eq!(c.settings.demo_only, Some(true));
    assert!(c.settings.whitelist.is_empty());
}

#[test]
fn stored_token_raises_real_config() {
    let mut store = fresh_store();
    let bare = load_config_from_storage(&store).expect("config");
    assert_eq!(bare.mode, AppMode::Real);
    assert!(bare.telegram.bot_token.is_empty());
    store.set_setting("bot_token", "example-token", true).expect("set");
    let c = load_config_from_storage(&store).expect("config");
    assert_eq!(c.mode, AppMode::Real);
    assert_eq!(c.telegram.bot_token, "example-token");
    assert!(c.settings.dry_run);
}
