//! The decisions of the job runner's loop: how many due messages to fetch, how
//! long to sleep, and which outcome of completing a job counts as success.

use crate::duration::{max_nat, Duration};
use crate::error::Error;
use crate::queue::{Message, Timestamp};
use core::ops::Range;
use vstd::prelude::*;

verus! {

/// The concurrency limits used where the number of CPUs is not known.
pub open spec fn fallback_concurrency() -> Range<u32> {
    Range { start: 3, end: 8 }
}

/// The concurrency limits for a machine with `cpus` CPUs (as the runner counts
/// them, in a `u32`): half of them at least, twice as many at most.
pub open spec fn concurrency_for(cpus: u32) -> Range<u32> {
    Range { start: (cpus / 2) as u32, end: (cpus * 2) as u32 }
}

/// The runner's default concurrency limits, a range from minimum to maximum
/// concurrent jobs: from half to twice the number of CPUs, or 3 to 8 where that
/// number is not known.
pub fn default_concurrency(available_cpus: Option<usize>) -> (limits: Range<u32>)
    requires
        available_cpus matches Some(n) ==> (n as u32) <= u32::MAX / 2,
    ensures
        limits == (match available_cpus {
            Some(n) => concurrency_for(n as u32),
            None => fallback_concurrency(),
        }),
{
    match available_cpus {
        Some(n) => {
            let cpus = n as u32;
            Range { start: cpus / 2, end: cpus * 2 }
        },
        None => Range { start: 3, end: 8 },
    }
}

/// The number of due messages to fetch while `running` jobs run: none unless
/// fewer than the minimum run, else as many as fill up to the maximum.
pub open spec fn fetch_limit(running: u32, concurrency: Range<u32>) -> Option<u32> {
    if running < concurrency.start {
        Some(
            (if concurrency.end > running {
                concurrency.end - running
            } else {
                0
            }) as u32,
        )
    } else {
        None
    }
}

/// Fetching never lets more jobs run than the maximum: while fewer than the
/// minimum run, a fetch is made, and the jobs running plus those fetched stay
/// within the maximum (or within what already runs, where that is more).
pub proof fn lemma_fetch_respects_maximum(running: u32, concurrency: Range<u32>)
    ensures
        running < concurrency.start <==> fetch_limit(running, concurrency) is Some,
        fetch_limit(running, concurrency) matches Some(limit) ==> running + limit <= max_nat(
            concurrency.end as nat,
            running as nat,
        ),
{
}

/// While fewer than the minimum run, the fetch fills up to the maximum: the
/// jobs running plus those fetched reach the maximum exactly, and nothing is
/// fetched where as many as the maximum already run.
pub proof fn lemma_fetch_fills_to_maximum(running: u32, concurrency: Range<u32>)
    requires
        running < concurrency.start,
    ensures
        fetch_limit(running, concurrency) matches Some(limit) && (if running <= concurrency.end {
            running + limit == concurrency.end
        } else {
            limit == 0
        }),
{
}

/// The number of due messages to fetch while `running` jobs run.
pub fn due_fetch_limit(running: u32, concurrency: &Range<u32>) -> (limit: Option<u32>)
    ensures
        limit == fetch_limit(running, *concurrency),
{
    if running < concurrency.start {
        Some(concurrency.end.saturating_sub(running))
    } else {
        None
    }
}

/// Whether the runner starts a fetched message at `now`: only where it is due
/// (its attempt time lies before `now`), a job is registered under its name,
/// and it does not wait for a dependency that is still queued. Only then is
/// the execution counted (`Message::job_update`); other messages are left
/// unchanged.
pub fn should_start(message: &Message, now: Timestamp, registered: bool, dependency_queued: bool) -> (start: bool)
    ensures
        start == (message.attempt_at < now && registered && !message.waits_for_dependency(
            dependency_queued,
        )),
{
    message.attempt_at < now && registered && message.may_start(dependency_queued)
}

/// The wait, in nanoseconds, until the next message is due: the distance from
/// `from` to the next due time, or ten seconds where none is known, clamped to
/// what a `u64` holds.
pub open spec fn due_in_nanos(from: Timestamp, next_due: Option<Timestamp>) -> int {
    let nanos: int = match next_due {
        Some(target) => target - from,
        None => 10_000_000_000,
    };
    if nanos < 0 {
        0
    } else if nanos > u64::MAX {
        u64::MAX as int
    } else {
        nanos
    }
}

/// The runner waits the distance to the next due time where that fits a `u64`,
/// nothing where it lies in the past, and ten seconds where no message is due.
pub proof fn lemma_due_in_is_distance(from: Timestamp, target: Timestamp)
    ensures
        from <= target && target - from <= u64::MAX ==> due_in_nanos(from, Some(target)) == target
            - from,
        target < from ==> due_in_nanos(from, Some(target)) == 0,
        target - from > u64::MAX ==> due_in_nanos(from, Some(target)) == u64::MAX,
        due_in_nanos(from, None) == 10_000_000_000,
{
}

/// Get the duration until the next message is due, from the earliest due time
/// at or after `from` that the database reduced to.
pub fn next_message_due_in(from: Timestamp, next_due: Option<Timestamp>) -> (d: Duration)
    requires
        next_due matches Some(target) ==> i128::MIN <= target - from <= i128::MAX,
    ensures
        d@ == due_in_nanos(from, next_due),
{
    let nanos: i128 = match next_due {
        Some(target) => target - from,
        None => 10_000_000_000,
    };
    let clamped: u64 = if nanos < 0 {
        0
    } else if nanos > u64::MAX as i128 {
        u64::MAX
    } else {
        nanos as u64
    };
    Duration::from_nanos(clamped)
}

/// How long the runner sleeps before looking for due messages again, unless a
/// notification comes first: until the next message is due, but at least 100
/// milliseconds.
pub fn poll_timeout(next_due_in: Duration) -> (d: Duration)
    ensures
        d@ == max_nat(next_due_in@, 100_000_000),
        d@ >= 100_000_000,
        d@ >= next_due_in@,
{
    next_due_in.max(Duration::from_millis(100))
}

/// The outcome of completing a job: that the job's documents were already gone
/// counts as success, every other outcome stands.
pub fn completion_outcome(deleted: Result<(), Error>) -> (r: Result<(), Error>)
    ensures
        deleted is Ok ==> r is Ok,
        deleted matches Err(e) ==> (if e.reports_missing_document() {
            r is Ok
        } else {
            r == deleted
        }),
{
    match deleted {
        Err(e) => if e.is_missing_document() {
            Ok(())
        } else {
            Err(e)
        },
        Ok(()) => Ok(()),
    }
}

} // verus!
