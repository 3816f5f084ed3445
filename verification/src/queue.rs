//! The records of the message queue and how a message is updated before each
//! execution of its job.

use crate::clock::{clock_limit, now_timestamp};
use crate::duration::{min_nat, Duration};
use crate::retry::RetryTiming;
use getrandom::Error as RandomError;
use serde_json::Value as JsonValue;
use vstd::prelude::*;

verus! {

/// A JSON document, carried through unchanged.
#[verifier::external_type_specification]
#[verifier::external_body]
pub struct ExJsonValue(JsonValue);

/// Key/ID datatype for messages. Chosen to be compatible with UUIDs.
pub type Id = u128;

/// Timestamp datatype (UNIX timestamp nanos).
pub type Timestamp = i128;

/// Database schema for the message queue.
#[derive(Debug, Clone, Copy)]
pub struct MessageQueueSchema;


/// The message queue's message metadata.
#[derive(Debug, Clone)]
pub struct Message {
    /// The message ID.
    pub id: Id,
    /// Name of the message, i.e. a text message type identifier.
    pub name: String,
    /// Commit timestamp.
    pub created_at: Timestamp,
    /// Next execution timestamp.
    pub attempt_at: Timestamp,
    /// Number of executions tried.
    pub executions: u32,
    /// Number of executions to do. None = infinite. Zero means never being
    /// executed!
    pub max_executions: Option<u32>,
    /// Strategy to determine time between retries.
    pub retry_timing: RetryTiming,
    /// Whether or not the message is to be executed in ordered mode. Ordered
    /// messages are executed after other ordered messages, but unordered
    /// messages are executed immediately.
    pub ordered: bool,
    /// Dependency, which needs to be finished before. References another
    /// message by ID.
    pub execute_after: Option<Id>,
}

/// The message queue's message payloads.
#[derive(Debug, Clone)]
pub struct MessagePayload {
    /// The message ID.
    pub message_id: Id,
    /// Message JSON payload.
    pub payload_json: Option<JsonValue>,
    /// Message byte payload.
    pub payload_bytes: Option<Vec<u8>>,
}

/// Whether `executions` executions exceed the budget `max_executions`.
pub open spec fn exceeds_budget(executions: int, max_executions: Option<u32>) -> bool {
    match max_executions {
        Some(max) => executions > max,
        None => false,
    }
}

impl Message {
    /// Whether the next execution of this message would exceed its budget.
    pub open spec fn is_exhausted(self) -> bool {
        exceeds_budget(self.executions + 1, self.max_executions)
    }

    /// The wait before the try after the next execution.
    pub open spec fn wait_after_next(self) -> nat {
        self.retry_timing.next_wait((self.executions + 1) as u32)
    }

    /// `next` is this message after one more execution was counted at `now`:
    /// the count grows by one, and unless the budget is used up (`run` false)
    /// the next attempt is due one retry wait after `now`.
    pub open spec fn execution_registered(self, next: Message, now: int, run: bool) -> bool {
        &&& run == !self.is_exhausted()
        &&& next == (Message {
            executions: (self.executions + 1) as u32,
            attempt_at: if run {
                (now + self.wait_after_next()) as i128
            } else {
                self.attempt_at
            },
            ..self
        })
    }

    /// `next` is this message with its next attempt pushed to one retry wait
    /// (for the executions done so far) after `now`.
    pub open spec fn deadline_extended(self, next: Message, now: int) -> bool {
        next == (Message {
            attempt_at: (now + self.retry_timing.next_wait(self.executions)) as i128,
            ..self
        })
    }

    /// The message that must be finished before this one, if any.
    pub fn dependency(&self) -> (dep: Option<Id>)
        ensures
            dep == self.execute_after,
    {
        self.execute_after
    }

    /// Counts one more execution started at `now`. Returns whether the job
    /// should really be executed (true) or has already reached its maximum
    /// number of executions (false); only in the first case the next attempt is
    /// moved to one retry wait after `now`.
    pub fn register_execution(&mut self, now: Timestamp) -> (run: bool)
        requires
            old(self).executions < u32::MAX,
            !old(self).is_exhausted() ==> now + old(self).wait_after_next() <= i128::MAX,
        ensures
            old(self).execution_registered(*final(self), now as int, run),
    {
        self.executions = self.executions + 1;
        let exhausted = match self.max_executions {
            Some(max) => self.executions > max,
            None => false,
        };
        if exhausted {
            return false;
        }
        let wait = self.retry_timing.next_duration(self.executions);
        let nanos: u128 = wait.as_nanos();
        self.attempt_at = now + nanos as i128;
        true
    }

    /// Job update before an execution or retry: reads the clock, then counts the
    /// execution at that time as `register_execution` does. Returns whether the
    /// job should really be executed.
    pub fn job_update(&mut self) -> (run: bool)
        requires
            old(self).executions < u32::MAX,
        ensures
            run == !old(self).is_exhausted(),
            old(self).execution_registered(
                *final(self),
                final(self).attempt_at - old(self).wait_after_next(),
                run,
            ),
            run ==> -clock_limit() <= final(self).attempt_at - old(self).wait_after_next()
                <= clock_limit(),
    {
        let now = now_timestamp();
        let wait = self.retry_timing.next_duration(self.executions + 1);
        let nanos: u128 = wait.as_nanos();
        assert(now + nanos <= i128::MAX);
        self.register_execution(now)
    }

    /// Pushes the next attempt to one retry wait (for the executions done so
    /// far) after `now`, and returns that wait.
    pub fn extend_deadline(&mut self, now: Timestamp) -> (wait: Duration)
        requires
            now + old(self).retry_timing.next_wait(old(self).executions) <= i128::MAX,
        ensures
            wait@ == old(self).retry_timing.next_wait(old(self).executions),
            old(self).deadline_extended(*final(self), now as int),
    {
        let wait = self.retry_timing.next_duration(self.executions);
        let nanos: u128 = wait.as_nanos();
        self.attempt_at = now + nanos as i128;
        wait
    }

    /// Keeps a running job alive: reads the clock and pushes the next attempt as
    /// `extend_deadline` does, returning the wait.
    pub fn keep_alive(&mut self) -> (wait: Duration)
        ensures
            wait@ == old(self).retry_timing.next_wait(old(self).executions),
            old(self).deadline_extended(*final(self), final(self).attempt_at - wait@),
            -clock_limit() <= final(self).attempt_at - wait@ <= clock_limit(),
    {
        let now = now_timestamp();
        let wait = self.retry_timing.next_duration(self.executions);
        let nanos: u128 = wait.as_nanos();
        assert(now + nanos <= i128::MAX);
        self.extend_deadline(now)
    }

    /// Whether the message must wait, given whether the message it depends on
    /// (if any) is still queued.
    pub open spec fn waits_for_dependency(self, dependency_queued: bool) -> bool {
        self.execute_after is Some && dependency_queued
    }

    /// Whether the message may start now, given whether the message it depends
    /// on (if any) is still queued: a message waits while its dependency is
    /// queued, which keeps ordered messages in their order.
    pub fn may_start(&self, dependency_queued: bool) -> (start: bool)
        ensures
            start == !self.waits_for_dependency(dependency_queued),
    {
        match self.execute_after {
            Some(_) => !dependency_queued,
            None => true,
        }
    }
}

/// Generates a new ID: fills 16 bytes from `getrandom::getrandom` and reads
/// them as a `u128` in native byte order. Nothing is stated of the value or of
/// when the source fails: both depend on the operating system.
#[verifier::external_body]
pub(crate) fn generate_id() -> (r: Result<Id, RandomError>) {
    let mut buf = [0_u8; 16];
    getrandom::getrandom(&mut buf).map(|()| u128::from_ne_bytes(buf))
}

/// Whether a message's count of executions is within its budget.
pub open spec fn within_budget(message: Message) -> bool {
    match message.max_executions {
        Some(max) => message.executions <= max,
        None => true,
    }
}

/// Counting an execution keeps a stored message within its budget: where the
/// job runs, the new count is still within the budget; where it does not, the
/// budget was used up exactly (and the message is completed, not stored).
pub proof fn lemma_budget_invariant(message: Message, next: Message, now: int, run: bool)
    requires
        message.executions < u32::MAX,
        within_budget(message),
        message.execution_registered(next, now, run),
    ensures
        run ==> within_budget(next),
        !run ==> message.max_executions == Some(message.executions),
{
}

/// How many of `attempts` successive executions, counted onward from
/// `executions` done, actually run under the budget `max_executions`.
pub open spec fn runs_within(executions: nat, max_executions: Option<u32>, attempts: nat) -> nat
    decreases attempts,
{
    if attempts == 0 {
        0
    } else {
        runs_within(executions, max_executions, (attempts - 1) as nat) + if exceeds_budget(
            (executions + attempts) as int,
            max_executions,
        ) {
            0nat
        } else {
            1nat
        }
    }
}

/// A new message with a budget of `max` executions runs exactly `max` times,
/// however often it is attempted beyond that; without a budget every attempt
/// runs.
pub proof fn lemma_runs_limited_by_budget(max: u32, attempts: nat)
    ensures
        runs_within(0, Some(max), attempts) == min_nat(attempts, max as nat),
        runs_within(0, None, attempts) == attempts,
    decreases attempts,
{
    if attempts > 0 {
        lemma_runs_limited_by_budget(max, (attempts - 1) as nat);
    }
}

/// Counting an execution moves the count on by one and keeps the budget, so
/// successive registrations of one message are counted by `runs_within`.
pub proof fn lemma_registration_counts(message: Message, next: Message, now: int, run: bool)
    requires
        message.executions < u32::MAX,
        message.execution_registered(next, now, run),
    ensures
        next.executions == message.executions + 1,
        next.max_executions == message.max_executions,
        run == !exceeds_budget(next.executions as int, next.max_executions),
        runs_within(message.executions as nat, message.max_executions, 1) == (if run {
            1nat
        } else {
            0nat
        }),
{
    assert(runs_within(message.executions as nat, message.max_executions, 0) == 0);
}


} // verus!
