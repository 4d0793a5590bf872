//! Safety policy, scanning, batching, run-state and command behaviour on
//! concrete values.

use koralreef::bot::{apply_command, authorize, AuthDecision, Command, CommandOutcome};
use koralreef::reclaimer::{plan_batches, plan_reclaim, tally_batches, ReclaimPlan};
use koralreef::safety::{is_safe_to_reclaim, AccountRecord};
use koralreef::scanner::{find_reclaimable, scan_retry_decision, RetryDecision};
use koralreef::state::{AppMode, AppState, ModeChangeOutcome};
use koralreef::text::{format_sol, u64_to_string};

fn owner_program() -> Vec<u8> {
    vec![7u8; 32]
}

fn token_record(owner: Vec<u8>, balance: u64) -> AccountRecord {
    let mut data = vec![0u8; 165];
    data[64..72].copy_from_slice(&balance.to_le_bytes());
    AccountRecord { owner, data, lamports: 2_039_280 }
}

fn addr(tag: u8) -> Vec<u8> {
    vec![tag; 32]
}

#[test]
fn whitelisted_address_never_safe() {
    let whitelist = vec![addr(1)];
    let record = token_record(owner_program(), 0);
    assert!(!is_safe_to_reclaim(&addr(1), &record, &whitelist, &owner_program()));
    let rich = token_record(owner_program(), 999);
    assert!(!is_safe_to_reclaim(&addr(1), &rich, &whitelist, &owner_program()));
}

#[test]
fn wrong_owner_or_size_never_safe() {
    let whitelist: Vec<Vec<u8>> = Vec::new();
    let wrong_owner = token_record(vec![8u8; 32], 0);
    assert!(!is_safe_to_reclaim(&addr(2), &wrong_owner, &whitelist, &owner_program()));
    let mut short = token_record(owner_program(), 0);
    short.data.truncate(100);
    assert!(!is_safe_to_reclaim(&addr(2), &short, &whitelist, &owner_program()));
}

#[test]
fn zero_balance_decides_safety() {
    let whitelist: Vec<Vec<u8>> = Vec::new();
    let empty = token_record(owner_program(), 0);
    assert!(is_safe_to_reclaim(&addr(3), &empty, &whitelist, &owner_program()));
    let nonzero = token_record(owner_program(), 1);
    assert!(!is_safe_to_reclaim(&addr(3), &nonzero, &whitelist, &owner_program()));
}

#[test]
fn balance_read_is_little_endian() {
    let whitelist: Vec<Vec<u8>> = Vec::new();
    // A single set bit in the second balance byte means 256, not zero.
    let mut record = token_record(owner_program(), 0);
    record.data[65] = 1;
    assert!(!is_safe_to_reclaim(&addr(4), &record, &whitelist, &owner_program()));
    // Bytes outside the balance field do not matter.
    let mut noisy = token_record(owner_program(), 0);
    noisy.data[0] = 0xff;
    noisy.data[164] = 0xff;
    assert!(is_safe_to_reclaim(&addr(4), &noisy, &whitelist, &owner_program()));
}

#[test]
fn find_reclaimable_keeps_safe_candidates_in_order() {
    // whitelist = {A}; A empty, B empty, C holding a balance => only B.
    let whitelist = vec![addr(10)];
    let candidates = vec![
        (addr(10), token_record(owner_program(), 0)),
        (addr(11), token_record(owner_program(), 0)),
        (addr(12), token_record(owner_program(), 5)),
    ];
    let safe = find_reclaimable(candidates, &whitelist, &owner_program());
    assert_eq!(safe.len(), 1);
    assert_eq!(safe[0].0, addr(11));
}

#[test]
fn retry_schedule_doubles_then_gives_up() {
    assert_eq!(scan_retry_decision(0), RetryDecision::RetryAfter { delay_ms: 500 });
    assert_eq!(scan_retry_decision(1), RetryDecision::RetryAfter { delay_ms: 1000 });
    assert_eq!(scan_retry_decision(4), RetryDecision::RetryAfter { delay_ms: 8000 });
    assert_eq!(scan_retry_decision(5), RetryDecision::GiveUp);
    assert_eq!(scan_retry_decision(6), RetryDecision::GiveUp);
}

#[test]
fn empty_input_reclaims_nothing() {
    match plan_reclaim(Vec::new(), false) {
        ReclaimPlan::Done { recovered, closed } => {
            assert_eq!(recovered, 0);
            assert_eq!(closed, 0);
        }
        ReclaimPlan::Submit { .. } => panic!("empty input must not submit"),
    }
}

#[test]
fn dry_run_submits_nothing() {
    let addresses = vec![addr(1), addr(2), addr(3)];
    match plan_reclaim(addresses, true) {
        ReclaimPlan::Done { recovered, closed } => {
            assert_eq!(recovered, 0);
            assert_eq!(closed, 3);
        }
        ReclaimPlan::Submit { .. } => panic!("a dry run must not submit"),
    }
}

#[test]
fn batching_is_ceil_of_twentieths() {
    let mk = |n: usize| -> Vec<Vec<u8>> { (0..n).map(|i| vec![i as u8; 32]).collect() };
    assert_eq!(plan_batches(mk(0)).len(), 0);
    assert_eq!(plan_batches(mk(1)).len(), 1);
    assert_eq!(plan_batches(mk(20)).len(), 1);
    assert_eq!(plan_batches(mk(21)).len(), 2);
    assert_eq!(plan_batches(mk(45)).len(), 3);
}

#[test]
fn failed_middle_batch_spares_the_others() {
    let addresses: Vec<Vec<u8>> = (0..45u8).map(|i| vec![i; 32]).collect();
    let batches = match plan_reclaim(addresses, false) {
        ReclaimPlan::Submit { batches } => batches,
        ReclaimPlan::Done { .. } => panic!("45 addresses in real mode must submit"),
    };
    assert_eq!(batches.len(), 3);
    assert_eq!(batches[0].len(), 20);
    assert_eq!(batches[1].len(), 20);
    assert_eq!(batches[2].len(), 5);
    let (recovered, closed) = tally_batches(&batches, &vec![true, false, true]);
    assert_eq!(recovered, 0);
    assert_eq!(closed, 25);
    let (recovered_all, closed_all) = tally_batches(&batches, &vec![true, true, true]);
    assert_eq!(recovered_all, 0);
    assert_eq!(closed_all, 45);
}

#[test]
fn demo_lock_rejects_mode_changes() {
    let mut state = AppState::new(AppMode::Demo, 0);
    state.lock_demo_only();
    assert_eq!(state.request_mode_change(AppMode::Real), ModeChangeOutcome::RejectedLocked);
    assert_eq!(state.mode, AppMode::Demo);
    let mut free = AppState::new(AppMode::Demo, 0);
    assert_eq!(free.request_mode_change(AppMode::Real), ModeChangeOutcome::Accepted);
    assert_eq!(free.mode, AppMode::Real);
}

#[test]
fn cycle_is_due_on_force_or_elapsed_interval() {
    let mut state = AppState::new(AppMode::Real, 0);
    // Never scanned: due immediately.
    assert!(state.begin_cycle(0, 6));
    state.record_scan(1_000, String::from("s"));
    // Interval not elapsed, no force: not due; the check clears nothing.
    assert!(!state.begin_cycle(1_100, 6));
    // A forced run is due at once and consumed by the check.
    state.request_force_run();
    assert!(state.begin_cycle(1_100, 6));
    assert!(!state.force_run);
    assert!(!state.begin_cycle(1_100, 6));
    // Elapsed interval: due again (6 hours = 21600 seconds).
    assert!(state.begin_cycle(1_000 + 21_600, 6));
}

#[test]
fn counters_never_decrease() {
    let mut state = AppState::new(AppMode::Real, 0);
    state.record_reclaim(500, 2, 10, String::from("a"));
    assert_eq!(state.total_reclaimed_lamports, 500);
    assert_eq!(state.total_accounts_closed, 2);
    state.record_reclaim(u64::MAX, u64::MAX, 20, String::from("b"));
    assert_eq!(state.total_reclaimed_lamports, u64::MAX);
    assert_eq!(state.total_accounts_closed, u64::MAX);
}

#[test]
fn authorization_locks_real_mode_to_the_admin() {
    assert_eq!(authorize(AppMode::Real, None, 42), AuthDecision::AllowedNewAdmin);
    assert_eq!(authorize(AppMode::Real, Some(42), 42), AuthDecision::Allowed);
    assert_eq!(authorize(AppMode::Real, Some(42), 43), AuthDecision::Denied);
    assert_eq!(authorize(AppMode::Demo, Some(42), 43), AuthDecision::Allowed);
    assert_eq!(authorize(AppMode::Demo, None, 43), AuthDecision::AllowedNewAdmin);
}

#[test]
fn commands_change_only_what_they_must() {
    let mut state = AppState::new(AppMode::Demo, 0);
    assert_eq!(apply_command(Command::Stats, &mut state), CommandOutcome::NoChange);
    assert!(!state.force_run);
    assert_eq!(apply_command(Command::Sweep, &mut state), CommandOutcome::SweepScheduled);
    assert!(state.force_run);
    assert_eq!(
        apply_command(Command::Mode, &mut state),
        CommandOutcome::ModeSwitched { new_mode: AppMode::Real }
    );
    assert_eq!(state.mode, AppMode::Real);
    state.lock_demo_only();
    assert_eq!(apply_command(Command::Mode, &mut state), CommandOutcome::ModeLocked);
    assert_eq!(state.mode, AppMode::Demo);
}

#[test]
fn decimal_rendering_is_exact() {
    assert_eq!(u64_to_string(0), "0");
    assert_eq!(u64_to_string(7), "7");
    assert_eq!(u64_to_string(12345), "12345");
    assert_eq!(u64_to_string(u64::MAX), "18446744073709551615");
    assert_eq!(format_sol(0), "0.0000");
    assert_eq!(format_sol(4_000_000), "0.0040");
    assert_eq!(format_sol(1_234_567_890), "1.2345");
    assert_eq!(format_sol(2_039_280 * 45), "0.0917");
}
