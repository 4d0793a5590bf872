//! Batched reclamation: safe candidates are split into bounded-size
//! atomic submissions; a failing batch is skipped while its siblings run.

use vstd::prelude::*;
use vstd::math::min;

verus! {

/// Largest number of close instructions sent in one atomic submission.
pub const BATCH_SIZE: usize = 20;

/// Number of batches needed for `n` addresses: `ceil(n / BATCH_SIZE)`.
pub open spec fn spec_batch_count(n: int) -> int {
    (n + BATCH_SIZE - 1) / (BATCH_SIZE as int)
}

/// What a reclaim run has to do: either it is already finished (no input,
/// or a dry run that touches nothing), or these batches must be submitted.
pub enum ReclaimPlan {
    /// Nothing to submit; the run's result is already known.
    Done { recovered: u64, closed: u64 },
    /// The batches to submit, in order, each atomic.
    Submit { batches: Vec<Vec<Vec<u8>>> },
}

/// Split `addresses` into consecutive batches of `BATCH_SIZE`, the last one
/// possibly shorter.
pub fn plan_batches(addresses: Vec<Vec<u8>>) -> (batches: Vec<Vec<Vec<u8>>>)
    ensures
        batches@.len() == spec_batch_count(addresses@.len() as int),
        forall|i: int|
            0 <= i < batches@.len() ==> batches@[i]@ == addresses@.subrange(
                BATCH_SIZE * i,
                min(BATCH_SIZE * i + BATCH_SIZE, addresses@.len() as int),
            ),
{
    let ghost orig = addresses@;
    let mut rest = addresses;
    let mut batches: Vec<Vec<Vec<u8>>> = Vec::new();
    while rest.len() > 0
        invariant
            rest@ == orig.skip(min(BATCH_SIZE * batches@.len(), orig.len() as int)),
            orig.len() - rest@.len() == min(BATCH_SIZE * batches@.len(), orig.len() as int),
            batches@.len() == 0 || BATCH_SIZE * (batches@.len() - 1) < orig.len(),
            forall|i: int|
                0 <= i < batches@.len() ==> batches@[i]@ == orig.subrange(
                    BATCH_SIZE * i,
                    min(BATCH_SIZE * i + BATCH_SIZE, orig.len() as int),
                ),
        decreases rest@.len(),
    {
        let ghost start = orig.len() - rest@.len();
        let mut batch: Vec<Vec<u8>> = Vec::new();
        while batch.len() < BATCH_SIZE && rest.len() > 0
            invariant
                0 <= start,
                batch@.len() <= BATCH_SIZE,
                start + batch@.len() + rest@.len() == orig.len(),
                batch@ == orig.subrange(start as int, start + batch@.len()),
                rest@ == orig.skip(start + batch@.len()),
            decreases rest@.len(),
        {
            let a = rest.remove(0);
            batch.push(a);
            proof {
                assert(batch@ =~= orig.subrange(start as int, start + batch@.len()));
                assert(rest@ =~= orig.skip(start + batch@.len()));
            }
        }
        proof {
            assert(batch@.len() == min(BATCH_SIZE as int, orig.len() - start));
        }
        batches.push(batch);
        proof {
            assert(batch@ =~= orig.subrange(
                start as int,
                min(start + BATCH_SIZE, orig.len() as int),
            ));
            assert(rest@ =~= orig.skip(min(BATCH_SIZE * batches@.len(), orig.len() as int)));
        }
    }
    proof {
        let n = orig.len() as int;
        let k = batches@.len() as int;
        assert(n == min(BATCH_SIZE * k, n));
        assert(k == spec_batch_count(n));
    }
    batches
}

/// Decide what a reclaim run with these inputs must do. An empty input
/// finishes at once with nothing recovered and nothing closed. A dry run
/// finishes at once, reporting every input address as would-be-closed and
/// recovering nothing, and leaves nothing to submit. Otherwise the input
/// is split into batches for submission.
pub fn plan_reclaim(addresses: Vec<Vec<u8>>, dry_run: bool) -> (plan: ReclaimPlan)
    ensures
        addresses@.len() == 0 ==> plan == (ReclaimPlan::Done { recovered: 0u64, closed: 0u64 }),
        addresses@.len() > 0 && dry_run ==> plan == (ReclaimPlan::Done {
            recovered: 0u64,
            closed: addresses@.len() as u64,
        }),
        addresses@.len() > 0 && !dry_run ==> (plan matches ReclaimPlan::Submit { batches } && {
            &&& batches@.len() == spec_batch_count(addresses@.len() as int)
            &&& forall|i: int|
                0 <= i < batches@.len() ==> batches@[i]@ == addresses@.subrange(
                    BATCH_SIZE * i,
                    min(BATCH_SIZE * i + BATCH_SIZE, addresses@.len() as int),
                )
        }),
{
    if addresses.len() == 0 {
        return ReclaimPlan::Done { recovered: 0, closed: 0 };
    }
    if dry_run {
        let closed = addresses.len() as u64;
        return ReclaimPlan::Done { recovered: 0, closed };
    }
    let batches = plan_batches(addresses);
    ReclaimPlan::Submit { batches }
}

/// Total number of addresses in the successful batches among the first
/// `upto`, where `ok[i]` says whether batch `i` was confirmed.
pub open spec fn spec_closed_count(
    batches: Seq<Vec<Vec<u8>>>,
    ok: Seq<bool>,
    upto: int,
) -> int
    decreases upto,
{
    if upto <= 0 {
        0
    } else {
        spec_closed_count(batches, ok, upto - 1) + if ok[upto - 1] {
            batches[upto - 1]@.len() as int
        } else {
            0
        }
    }
}

/// Account a finished run: every address of a confirmed batch counts as
/// closed; a failed batch contributes nothing and does not abort the rest.
/// The recovered amount is a documented imprecision: it is not derived
/// from the ledger's actual balance delta and is always reported as zero.
pub fn tally_batches(batches: &Vec<Vec<Vec<u8>>>, succeeded: &Vec<bool>) -> (r: (u64, u64))
    requires
        succeeded@.len() == batches@.len(),
    ensures
        r.0 == 0,
        r.1 == min(
            spec_closed_count(batches@, succeeded@, batches@.len() as int),
            u64::MAX as int,
        ),
{
    let mut closed: u64 = 0;
    let mut i: usize = 0;
    while i < batches.len()
        invariant
            i <= batches@.len(),
            succeeded@.len() == batches@.len(),
            closed == min(spec_closed_count(batches@, succeeded@, i as int), u64::MAX as int),
        decreases batches@.len() - i,
    {
        if succeeded[i] {
            let add = batches[i].len() as u64;
            closed = closed.saturating_add(add);
        }
        i = i + 1;
    }
    (0, closed)
}

/// Law: when every batch of a plan for `n` addresses is confirmed, the
/// accounting counts exactly the whole input as closed (and, along the
/// way, every prefix of the plan covers exactly its share of the input).
pub proof fn lemma_all_confirmed_closes_all(
    batches: Seq<Vec<Vec<u8>>>,
    ok: Seq<bool>,
    n: int,
    upto: int,
)
    requires
        0 <= n,
        0 <= upto <= batches.len(),
        batches.len() == spec_batch_count(n),
        ok.len() == batches.len(),
        forall|i: int| 0 <= i < batches.len() ==> ok[i],
        forall|i: int|
            0 <= i < batches.len() ==> (#[trigger] batches[i])@.len() == min(
                BATCH_SIZE * i + BATCH_SIZE,
                n,
            ) - BATCH_SIZE * i,
    ensures
        spec_closed_count(batches, ok, upto) == min(BATCH_SIZE * upto, n),
    decreases upto,
{
    if upto > 0 {
        lemma_all_confirmed_closes_all(batches, ok, n, upto - 1);
        assert(BATCH_SIZE * (upto - 1) <= n);
    }
}

/// Law: a failing batch only ever lowers the closed count; it never adds
/// to it and never affects what its sibling batches contribute.
pub proof fn lemma_failed_batches_do_not_count(
    batches: Seq<Vec<Vec<u8>>>,
    ok: Seq<bool>,
    all_ok: Seq<bool>,
    upto: int,
)
    requires
        0 <= upto <= batches.len(),
        ok.len() == batches.len(),
        all_ok.len() == batches.len(),
        forall|i: int| 0 <= i < batches.len() ==> all_ok[i],
    ensures
        spec_closed_count(batches, ok, upto) <= spec_closed_count(batches, all_ok, upto),
    decreases upto,
{
    if upto > 0 {
        lemma_failed_batches_do_not_count(batches, ok, all_ok, upto - 1);
    }
}

} // verus!
