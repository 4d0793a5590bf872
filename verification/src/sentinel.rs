//! Sentinel cycle decisions: keypair-source resolution, the simulated demo
//! cycle, and how a finished real reclaim run is applied to the run state
//! and the event log. The embedding process drives the polling loop and
//! performs the network work; every decision it acts on is made here.

use vstd::prelude::*;

use crate::config::Config;
use crate::state::{AppMode, AppState};
use crate::storage::{spec_setting_plain, Storage, StoreError};
use crate::text::{format_sol, spec_sol_string, spec_u64_string, u64_to_string};
use vstd::string::StringExecFns;

verus! {

/// How long a cycle waits after the signing identity could not be
/// resolved, in seconds.
pub const KEY_RETRY_COOLDOWN_SECS: u64 = 300;

/// How long the loop sleeps between polls, in seconds.
pub const POLL_INTERVAL_SECS: u64 = 60;

/// Where this cycle's signing identity comes from.
#[derive(Clone, Copy, PartialEq, Eq, Structural, Debug)]
pub enum KeySource {
    /// The key stored (sealed) in the secret store.
    Stored,
    /// The configured filesystem path.
    FilePath,
    /// Nowhere: log, cool down, and retry next cycle.
    Unavailable,
}

/// Resolve where the signing identity comes from: the secret store's key
/// wins; a configured file path is the fallback; with neither, the cycle
/// is skipped after a cooldown rather than crashing.
pub fn resolve_key_source(stored_key_present: bool, keypair_path_present: bool) -> (k: KeySource)
    ensures
        stored_key_present ==> k == KeySource::Stored,
        !stored_key_present && keypair_path_present ==> k == KeySource::FilePath,
        !stored_key_present && !keypair_path_present ==> k == KeySource::Unavailable,
{
    if stored_key_present {
        KeySource::Stored
    } else if keypair_path_present {
        KeySource::FilePath
    } else {
        KeySource::Unavailable
    }
}

/// The fixed summary a simulated cycle reports.
pub open spec fn spec_demo_summary() -> Seq<char> {
    "[DEMO] Simulated reclaim of 2 accounts (0.004 SOL)."@
}

/// The summary of a simulated cycle.
pub fn demo_summary() -> (s: String)
    ensures
        s@ == spec_demo_summary(),
{
    "[DEMO] Simulated reclaim of 2 accounts (0.004 SOL).".to_owned()
}

/// One simulated cycle: append the fixed summary to the event log (a log
/// failure is reported but does not stop the cycle), and mark the state
/// scanned now with that summary. No ledger and no secret is touched.
pub fn run_demo_cycle(state: &mut AppState, storage: &mut Storage, now: u64) -> (r: Result<
    (),
    StoreError,
>)
    requires
        old(storage).wf(),
    ensures
        final(storage).wf(),
        final(storage).key_bytes() == old(storage).key_bytes(),
        final(storage).settings() == old(storage).settings(),
        final(storage).admin() == old(storage).admin(),
        r is Ok ==> final(storage).history() == old(storage).history().push(spec_demo_summary()),
        r is Err ==> final(storage).history() == old(storage).history(),
        final(state).last_scan_time == Some(now),
        final(state).last_reclaim_summary matches Some(s) && s@ == spec_demo_summary(),
        *final(state) == (AppState {
            last_scan_time: Some(now),
            last_reclaim_summary: final(state).last_reclaim_summary,
            ..*old(state)
        }),
{
    let summary = demo_summary();
    let logged = storage.log_event(summary.as_str());
    state.record_scan(now, summary);
    logged
}

/// The human-readable summary of a finished real reclaim run.
pub open spec fn spec_reclaim_summary(closed: int, lamports: int) -> Seq<char> {
    "Reclaimed "@ + spec_u64_string(closed) + " accounts ("@ + spec_sol_string(lamports)
        + " SOL)."@
}

/// Render the summary of a finished real reclaim run.
pub fn reclaim_summary(closed: u64, lamports: u64) -> (s: String)
    ensures
        s@ == spec_reclaim_summary(closed as int, lamports as int),
{
    let mut s: String = "Reclaimed ".to_owned();
    s.append(u64_to_string(closed).as_str());
    s.append(" accounts (");
    s.append(format_sol(lamports).as_str());
    s.append(" SOL).");
    proof {
        assert(s@ =~= spec_reclaim_summary(closed as int, lamports as int));
    }
    s
}

/// Build a real-mode configuration from the secret store: the demo
/// defaults with the mode raised to real and the interface token read from
/// the store (empty where none is stored).
pub fn load_config_from_storage(storage: &Storage) -> (r: Result<Config, StoreError>)
    requires
        storage.wf(),
    ensures
        r matches Ok(c) ==> c.mode == AppMode::Real,
        r matches Ok(c) ==> (storage.settings().contains_key("bot_token"@)
            ==> spec_setting_plain(storage.key_bytes(), storage.settings()["bot_token"@]) == Some(
            c.telegram.bot_token@,
        )),
        r matches Ok(c) ==> (!storage.settings().contains_key("bot_token"@)
            ==> c.telegram.bot_token@ == Seq::<char>::empty()),
        r matches Ok(c) ==> c.solana.rpc_url@ == "https://api.devnet.solana.com"@
            && c.settings.scan_interval_hours == 1 && c.settings.dry_run == true,
{
    let token = match storage.get_setting("bot_token") {
        Err(e) => {
            return Err(e);
        },
        Ok(Some(t)) => t,
        Ok(None) => String::new(),
    };
    let mut config = Config::demo();
    config.mode = AppMode::Real;
    config.telegram.bot_token = token;
    Ok(config)
}

/// Apply a finished real reclaim run: grow both counters (never
/// decreasing), mark the state scanned now, and append the run's summary
/// to the event log (a log failure is reported but does not stop the
/// cycle). Returns the summary for the notification sink.
pub fn apply_reclaim_outcome(
    state: &mut AppState,
    storage: &mut Storage,
    lamports: u64,
    closed: u64,
    now: u64,
) -> (r: (String, Result<(), StoreError>))
    requires
        old(storage).wf(),
    ensures
        r.0@ == spec_reclaim_summary(closed as int, lamports as int),
        final(storage).wf(),
        final(storage).key_bytes() == old(storage).key_bytes(),
        final(storage).settings() == old(storage).settings(),
        final(storage).admin() == old(storage).admin(),
        r.1 is Ok ==> final(storage).history() == old(storage).history().push(
            spec_reclaim_summary(closed as int, lamports as int),
        ),
        r.1 is Err ==> final(storage).history() == old(storage).history(),
        final(state).last_scan_time == Some(now),
        final(state).last_reclaim_summary matches Some(s) && s@ == spec_reclaim_summary(
            closed as int,
            lamports as int,
        ),
        final(state).total_reclaimed_lamports == old(state).total_reclaimed_lamports.saturating_add(
            lamports,
        ),
        final(state).total_accounts_closed == old(state).total_accounts_closed.saturating_add(
            closed,
        ),
        old(state).total_reclaimed_lamports <= final(state).total_reclaimed_lamports,
        old(state).total_accounts_closed <= final(state).total_accounts_closed,
        final(state).mode == old(state).mode,
        final(state).demo_only == old(state).demo_only,
        final(state).force_run == old(state).force_run,
        final(state).start_time == old(state).start_time,
{
    let summary = reclaim_summary(closed, lamports);
    let reply = summary.clone();
    let logged = storage.log_event(summary.as_str());
    state.record_reclaim(lamports, closed, now, summary);
    (reply, logged)
}

} // verus!
