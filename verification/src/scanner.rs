//! Scanning: the candidate filter applied to a ledger query's result, and
//! the retry schedule for transient query failures. Issuing the query is
//! network work done by the embedding process; every decision about its
//! outcome is made here.

use vstd::prelude::*;

use crate::safety::{AccountRecord, is_safe_to_reclaim, spec_is_safe};

verus! {

/// First delay after a failed ledger query, in milliseconds.
pub const SCAN_RETRY_BASE_DELAY_MS: u64 = 500;

/// How many times a failed ledger query is retried before giving up.
pub const SCAN_MAX_RETRIES: u64 = 5;

/// What to do after a ledger query failed.
#[derive(Clone, Copy, PartialEq, Eq, Structural, Debug)]
pub enum RetryDecision {
    /// Wait this long, then ask again.
    RetryAfter { delay_ms: u64 },
    /// The attempt budget is spent; surface the failure and skip the cycle.
    GiveUp,
}

/// The backoff delay after this many failures: the base delay, doubled for
/// each failure already suffered.
pub open spec fn spec_backoff_delay_ms(failures: int) -> int
    decreases failures,
{
    if failures <= 0 {
        SCAN_RETRY_BASE_DELAY_MS as int
    } else {
        2 * spec_backoff_delay_ms(failures - 1)
    }
}

/// Decide how to react to a failed ledger query, given how many failures
/// this scan has already suffered: retry with exponential backoff until the
/// attempt budget is spent, then give up.
pub fn scan_retry_decision(failures: u64) -> (d: RetryDecision)
    ensures
        failures < SCAN_MAX_RETRIES ==> d == (RetryDecision::RetryAfter {
            delay_ms: spec_backoff_delay_ms(failures as int) as u64,
        }),
        failures >= SCAN_MAX_RETRIES ==> d == RetryDecision::GiveUp,
{
    proof {
        reveal_with_fuel(spec_backoff_delay_ms, 5);
    }
    if failures == 0 {
        RetryDecision::RetryAfter { delay_ms: 500 }
    } else if failures == 1 {
        RetryDecision::RetryAfter { delay_ms: 1000 }
    } else if failures == 2 {
        RetryDecision::RetryAfter { delay_ms: 2000 }
    } else if failures == 3 {
        RetryDecision::RetryAfter { delay_ms: 4000 }
    } else if failures == 4 {
        RetryDecision::RetryAfter { delay_ms: 8000 }
    } else {
        RetryDecision::GiveUp
    }
}

/// Whether this candidate passes the safety policy.
pub open spec fn spec_candidate_safe(
    c: (Vec<u8>, AccountRecord),
    whitelist: Seq<Seq<u8>>,
    expected_owner: Seq<u8>,
) -> bool {
    spec_is_safe(c.0@, c.1.owner@, c.1.data@, whitelist, expected_owner)
}

/// Apply the safety policy to every candidate the ledger query returned,
/// keeping exactly the safe ones, in the order the query gave them.
pub fn find_reclaimable(
    candidates: Vec<(Vec<u8>, AccountRecord)>,
    whitelist: &Vec<Vec<u8>>,
    expected_owner: &Vec<u8>,
) -> (r: Vec<(Vec<u8>, AccountRecord)>)
    ensures
        r@ == candidates@.filter(
            (|c: (Vec<u8>, AccountRecord)|
                spec_candidate_safe(c, whitelist.deep_view(), expected_owner@)),
        ),
{
    let ghost orig = candidates@;
    let ghost pred: spec_fn((Vec<u8>, AccountRecord)) -> bool = (|c: (Vec<u8>, AccountRecord)|
        spec_candidate_safe(c, whitelist.deep_view(), expected_owner@));
    let mut rest = candidates;
    let mut out: Vec<(Vec<u8>, AccountRecord)> = Vec::new();
    while rest.len() > 0
        invariant
            rest@.len() <= orig.len(),
            rest@ == orig.skip(orig.len() - rest@.len()),
            pred == (|c: (Vec<u8>, AccountRecord)|
                spec_candidate_safe(c, whitelist.deep_view(), expected_owner@)),
            out@ == orig.take(orig.len() - rest@.len()).filter(pred),
        decreases rest@.len(),
    {
        let ghost done = orig.len() - rest@.len();
        let c = rest.remove(0);
        proof {
            assert(c == orig[done as int]);
            assert(rest@ =~= orig.skip(done + 1));
        }
        let safe = is_safe_to_reclaim(&c.0, &c.1, whitelist, expected_owner);
        if safe {
            out.push(c);
        }
        proof {
            let taken = orig.take(done as int);
            let taken1 = orig.take(done + 1);
            assert(taken1 =~= taken + seq![orig[done as int]]);
            Seq::filter_distributes_over_add(taken, seq![orig[done as int]], pred);
            reveal_with_fuel(Seq::filter, 2);
            assert(seq![orig[done as int]].drop_last() =~= Seq::<(Vec<u8>,
            AccountRecord)>::empty());
            assert(out@ =~= taken1.filter(pred));
        }
    }
    proof {
        assert(orig.take(orig.len() as int) =~= orig);
    }
    out
}

} // verus!
