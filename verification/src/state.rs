//! Process-lifetime run state shared by the sentinel loop and the command
//! interface. It is not persisted; counters reset on restart.

use vstd::prelude::*;

verus! {

/// Operating mode: `Demo` simulates cycles without touching the ledger,
/// `Real` scans and submits.
#[derive(Clone, Copy, PartialEq, Eq, Structural, Debug)]
pub enum AppMode {
    Demo,
    Real,
}

/// Outcome of a requested mode change.
#[derive(Clone, Copy, PartialEq, Eq, Structural, Debug)]
pub enum ModeChangeOutcome {
    /// The mode was switched.
    Accepted,
    /// The process is locked to demo mode; nothing changed.
    RejectedLocked,
}

/// Counters, flags and timestamps of the running process. Times are plain
/// seconds measured by the embedding process from one monotonic clock.
pub struct AppState {
    pub total_reclaimed_lamports: u64,
    pub total_accounts_closed: u64,
    pub start_time: u64,
    pub force_run: bool,
    pub mode: AppMode,
    pub demo_only: bool,
    pub last_scan_time: Option<u64>,
    pub last_reclaim_summary: Option<String>,
}

/// Whether a scan is due: immediately if none ever ran, otherwise once the
/// scan interval has elapsed since the last one.
pub open spec fn spec_scan_due(last_scan_time: Option<u64>, now: u64, interval_hours: u64) -> bool {
    match last_scan_time {
        Option::None => true,
        Option::Some(t) => now >= t + interval_hours * 3600,
    }
}

impl AppState {
    /// Fresh state: zero counters, no forced run, no lock, nothing scanned.
    pub fn new(mode: AppMode, now: u64) -> (s: AppState)
        ensures
            s == (AppState {
                total_reclaimed_lamports: 0u64,
                total_accounts_closed: 0u64,
                start_time: now,
                force_run: false,
                mode: mode,
                demo_only: false,
                last_scan_time: None,
                last_reclaim_summary: None,
            }),
    {
        AppState {
            total_reclaimed_lamports: 0,
            total_accounts_closed: 0,
            start_time: now,
            force_run: false,
            mode,
            demo_only: false,
            last_scan_time: None,
            last_reclaim_summary: None,
        }
    }

    /// Lock the process to demo mode: the mode drops to `Demo` and every
    /// later mode-change request is rejected.
    pub fn lock_demo_only(&mut self)
        ensures
            *final(self) == (AppState { mode: AppMode::Demo, demo_only: true, ..*old(self) }),
    {
        self.mode = AppMode::Demo;
        self.demo_only = true;
    }

    /// Ask for a reclaim cycle at the next tick, ahead of the interval.
    pub fn request_force_run(&mut self)
        ensures
            *final(self) == (AppState { force_run: true, ..*old(self) }),
    {
        self.force_run = true;
    }

    /// Switch the mode, unless the process is locked to demo mode: while
    /// `demo_only` is set every request is rejected and nothing changes.
    pub fn request_mode_change(&mut self, new_mode: AppMode) -> (r: ModeChangeOutcome)
        ensures
            *final(self) == spec_mode_after_request(*old(self), new_mode),
            old(self).demo_only ==> r == ModeChangeOutcome::RejectedLocked && *final(self)
                == *old(self),
            !old(self).demo_only ==> r == ModeChangeOutcome::Accepted && *final(self) == (AppState {
                mode: new_mode,
                ..*old(self)
            }),
    {
        if self.demo_only {
            ModeChangeOutcome::RejectedLocked
        } else {
            self.mode = new_mode;
            ModeChangeOutcome::Accepted
        }
    }

    /// Whether a scan is due now, given the configured interval.
    pub fn should_scan(&self, now: u64, interval_hours: u64) -> (due: bool)
        requires
            interval_hours <= u64::MAX / 3600,
        ensures
            due == spec_scan_due(self.last_scan_time, now, interval_hours),
    {
        match self.last_scan_time {
            None => true,
            Some(t) => {
                if now >= t {
                    now - t >= interval_hours * 3600
                } else {
                    false
                }
            },
        }
    }

    /// Open one cycle: consume a pending force request and report whether a
    /// cycle is due, either because it was forced or because the interval
    /// has elapsed. A forced request and a due interval coalesce into one
    /// cycle.
    pub fn begin_cycle(&mut self, now: u64, interval_hours: u64) -> (due: bool)
        requires
            interval_hours <= u64::MAX / 3600,
        ensures
            *final(self) == (AppState { force_run: false, ..*old(self) }),
            due == (old(self).force_run || spec_scan_due(
                old(self).last_scan_time,
                now,
                interval_hours,
            )),
    {
        let forced = self.force_run;
        self.force_run = false;
        if forced {
            true
        } else {
            self.should_scan(now, interval_hours)
        }
    }

    /// Record a completed cycle that changed no counters (a simulated one):
    /// only the scan time and the summary move.
    pub fn record_scan(&mut self, now: u64, summary: String)
        ensures
            *final(self) == (AppState {
                last_scan_time: Some(now),
                last_reclaim_summary: Some(summary),
                ..*old(self)
            }),
    {
        self.last_scan_time = Some(now);
        self.last_reclaim_summary = Some(summary);
    }

    /// Record a finished reclaim run: both counters grow (saturating at the
    /// machine limit, so they never decrease), and the scan time and
    /// summary move.
    pub fn record_reclaim(&mut self, lamports: u64, count: u64, now: u64, summary: String)
        ensures
            *final(self) == (AppState {
                total_reclaimed_lamports: old(self).total_reclaimed_lamports.saturating_add(
                    lamports,
                ),
                total_accounts_closed: old(self).total_accounts_closed.saturating_add(count),
                last_scan_time: Some(now),
                last_reclaim_summary: Some(summary),
                ..*old(self)
            }),
            old(self).total_reclaimed_lamports <= final(self).total_reclaimed_lamports,
            old(self).total_accounts_closed <= final(self).total_accounts_closed,
    {
        self.total_reclaimed_lamports = self.total_reclaimed_lamports.saturating_add(lamports);
        self.total_accounts_closed = self.total_accounts_closed.saturating_add(count);
        self.last_scan_time = Some(now);
        self.last_reclaim_summary = Some(summary);
    }
}

/// Law: once locked to demo mode, no sequence of mode-change requests moves
/// the state away from `Demo`; each request is rejected and leaves the
/// state as it was.
pub proof fn lemma_demo_lock_holds(s: AppState)
    requires
        s.demo_only,
        s.mode == AppMode::Demo,
    ensures
        forall|m: AppMode| spec_mode_after_request(s, m) == s,
{
}

/// The state that a mode-change request leaves behind, as
/// `request_mode_change` ensures it.
pub open spec fn spec_mode_after_request(s: AppState, new_mode: AppMode) -> AppState {
    if s.demo_only {
        s
    } else {
        AppState { mode: new_mode, ..s }
    }
}

} // verus!
