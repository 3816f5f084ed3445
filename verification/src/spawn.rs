//! Building the database records of a new job.

use crate::clock::{clock_limit, now_timestamp};
use crate::duration::Duration;
use crate::error::Error;
use crate::queue::{generate_id, Id, Message, MessagePayload, Timestamp};
use crate::retry::RetryTiming;
use crate::views::{latest_value, lemma_dependency_is_latest_ordered, ordered_mappings};
use serde_json::Value as JsonValue;
use vstd::prelude::*;

verus! {

/// What a byte payload holds, if there is one.
pub open spec fn bytes_view(bytes: Option<Vec<u8>>) -> Option<Seq<u8>> {
    match bytes {
        Some(b) => Some(b@),
        None => None,
    }
}

/// The settings a job builder has collected.
pub struct JobBuilderView {
    /// Message name/type.
    pub name: Seq<char>,
    /// Message ID, where one was chosen.
    pub id: Option<Id>,
    /// Whether the job is executed in ordered mode.
    pub ordered: bool,
    /// Initial execution delay.
    pub delay: Option<Duration>,
    /// Maximum number of executions.
    pub max_retries: Option<u32>,
    /// Time in between job retries.
    pub retry_timing: RetryTiming,
    /// JSON payload.
    pub payload_json: Option<JsonValue>,
    /// Byte payload.
    pub payload_bytes: Option<Seq<u8>>,
}

/// Builder for spawning a job.  By default, `ordered` mode is off and infinite
/// retries with capped exponential backoff is used (1 second initially,
/// maximum 1 hour between tries).
#[derive(Debug, Clone)]
pub struct JobBuilder {
    name: &'static str,
    id: Option<Id>,
    ordered: bool,
    delay: Option<Duration>,
    max_retries: Option<u32>,
    retry_timing: RetryTiming,
    payload_json: Option<JsonValue>,
    payload_bytes: Option<Vec<u8>>,
}

impl View for JobBuilder {
    type V = JobBuilderView;

    closed spec fn view(&self) -> JobBuilderView {
        JobBuilderView {
            name: self.name@,
            id: self.id,
            ordered: self.ordered,
            delay: self.delay,
            max_retries: self.max_retries,
            retry_timing: self.retry_timing,
            payload_json: self.payload_json,
            payload_bytes: bytes_view(self.payload_bytes),
        }
    }
}

/// Whether a retry timing is the default one: exponential back-off from one
/// second, at most one hour.
pub open spec fn is_default_retry_timing(timing: RetryTiming) -> bool {
    match timing {
        RetryTiming::Backoff { initial, maximum: Some(max) } => initial@ == 1_000_000_000
            && max@ == 3_600_000_000_000,
        _ => false,
    }
}

/// The due time of a job spawned at `now` with the given delay.
pub open spec fn first_attempt(now: int, delay: Option<Duration>) -> int {
    match delay {
        Some(d) => now + d@,
        None => now,
    }
}

/// `message` and `payload` are the records of a job built from `builder`, with
/// ID `id`, spawned at `now`, where `latest_ordered` is the latest ordered
/// message already queued.
pub open spec fn entries_built(
    builder: JobBuilderView,
    latest_ordered: Option<Id>,
    id: Id,
    now: int,
    message: Message,
    payload: MessagePayload,
) -> bool {
    &&& message.id == id
    &&& message.name@ == builder.name
    &&& message.created_at == now
    &&& message.attempt_at == first_attempt(now, builder.delay)
    &&& message.executions == 0
    &&& message.max_executions == builder.max_retries
    &&& message.retry_timing == builder.retry_timing
    &&& message.ordered == builder.ordered
    &&& message.execute_after == (if builder.ordered {
        latest_ordered
    } else {
        None
    })
    &&& payload.message_id == id
    &&& payload.payload_json == builder.payload_json
    &&& bytes_view(payload.payload_bytes) == builder.payload_bytes
}

impl JobBuilder {
    /// Create new [`JobBuilder`]. By default, `ordered` mode is off and
    /// infinite retries with capped exponential backoff is used (1 second
    /// initially, maximum 1 hour between tries).
    pub fn new(name: &'static str) -> (b: JobBuilder)
        ensures
            b@.name == name@,
            b@.id is None,
            !b@.ordered,
            b@.delay is None,
            b@.max_retries is None,
            is_default_retry_timing(b@.retry_timing),
            b@.payload_json is None,
            b@.payload_bytes is None,
    {
        JobBuilder {
            name,
            id: None,
            ordered: false,
            delay: None,
            max_retries: None,
            retry_timing: RetryTiming::Backoff {
                initial: Duration::from_secs(1),
                maximum: Some(Duration::from_secs(60 * 60)),
            },
            payload_json: None,
            payload_bytes: None,
        }
    }

    /// Set the message's ID. If not set, a new random one will be generated.
    pub fn id(self, id: Id) -> (b: JobBuilder)
        ensures
            b@ == (JobBuilderView { id: Some(id), ..self@ }),
    {
        JobBuilder { id: Some(id), ..self }
    }

    /// Set whether ordered mode should be used. Ordered messages can only be
    /// executed after the previous ordered message, but unordered messages can
    /// always be executed independently.
    pub fn ordered(self, ordered: bool) -> (b: JobBuilder)
        ensures
            b@ == (JobBuilderView { ordered, ..self@ }),
    {
        JobBuilder { ordered, ..self }
    }

    /// Set initial execution delay.
    pub fn delay(self, delay: Option<Duration>) -> (b: JobBuilder)
        ensures
            b@ == (JobBuilderView { delay, ..self@ }),
    {
        JobBuilder { delay, ..self }
    }

    /// Set the maximum number of executions. None = infinite retrying.
    pub fn max_retries(self, max_retries: Option<u32>) -> (b: JobBuilder)
        ensures
            b@ == (JobBuilderView { max_retries, ..self@ }),
    {
        JobBuilder { max_retries, ..self }
    }

    /// Set the maximum number of executions (the same setting as
    /// `max_retries`). None = infinite retrying.
    pub fn max_executions(self, max_executions: Option<u32>) -> (b: JobBuilder)
        ensures
            b@ == (JobBuilderView { max_retries: max_executions, ..self@ }),
    {
        self.max_retries(max_executions)
    }

    /// Set the retry timing strategy. See [`RetryTiming`] for the possible
    /// values.
    pub fn retry_timing(self, timing: RetryTiming) -> (b: JobBuilder)
        ensures
            b@ == (JobBuilderView { retry_timing: timing, ..self@ }),
    {
        JobBuilder { retry_timing: timing, ..self }
    }

    /// Set JSON payload. If not set, there will be no JSON input to the job,
    /// but there can still be byte data. The payloads are independent.
    pub fn payload_json(self, payload: JsonValue) -> (b: JobBuilder)
        ensures
            b@ == (JobBuilderView { payload_json: Some(payload), ..self@ }),
    {
        JobBuilder { payload_json: Some(payload), ..self }
    }

    /// Set byte payload. If not set, there will be no byte input to the job,
    /// but there can still be JSON data. The payloads are independent.
    pub fn payload_bytes(self, payload: Vec<u8>) -> (b: JobBuilder)
        ensures
            b@ == (JobBuilderView { payload_bytes: Some(payload@), ..self@ }),
    {
        JobBuilder { payload_bytes: Some(payload), ..self }
    }

    /// Whether the job is spawned in ordered mode, so that the latest ordered
    /// message must be looked up first.
    pub fn is_ordered(&self) -> (ordered: bool)
        ensures
            ordered == self@.ordered,
    {
        self.ordered
    }

    /// The database records of the job with ID `id`, spawned at `now`, where
    /// `latest_ordered` is the latest ordered message already queued.
    pub fn build_entries(self, latest_ordered: Option<Id>, id: Id, now: Timestamp) -> (entries: (
        Message,
        MessagePayload,
    ))
        requires
            first_attempt(now as int, self@.delay) <= i128::MAX,
        ensures
            entries_built(self@, latest_ordered, id, now as int, entries.0, entries.1),
    {
        let execute_after = if self.ordered {
            latest_ordered
        } else {
            None
        };
        let attempt_at: Timestamp = match self.delay {
            Some(delay) => {
                let nanos: u128 = delay.as_nanos();
                now + nanos as i128
            },
            None => now,
        };
        let message = Message {
            id,
            name: self.name.to_owned(),
            created_at: now,
            attempt_at,
            executions: 0,
            max_executions: self.max_retries,
            retry_timing: self.retry_timing,
            ordered: self.ordered,
            execute_after,
        };
        let payload = MessagePayload {
            message_id: id,
            payload_json: self.payload_json,
            payload_bytes: self.payload_bytes,
        };
        (message, payload)
    }

    /// Prepare the database entries: takes the chosen ID or generates a random
    /// one, reads the clock and builds the records at that time as
    /// `build_entries` does. Fails only where a random ID was needed and the
    /// random source failed.
    pub fn prepare_db_entries(self, latest_ordered: Option<Id>) -> (r: Result<
        (Message, MessagePayload),
        Error,
    >)
        ensures
            r matches Ok(entries) ==> entries_built(
                self@,
                latest_ordered,
                entries.0.id,
                entries.0.created_at as int,
                entries.0,
                entries.1,
            ),
            r matches Ok(entries) ==> -clock_limit() <= entries.0.created_at <= clock_limit(),
            r matches Ok(entries) ==> (self@.id matches Some(id) ==> entries.0.id == id),
            r matches Err(e) ==> e is Getrandom && self@.id is None,
            self@.id is Some ==> r is Ok,
    {
        let id: Id = match self.id {
            Some(id) => id,
            None => match generate_id() {
                Ok(id) => id,
                Err(e) => return Err(Error::Getrandom(e)),
            },
        };
        let now = now_timestamp();
        match self.delay {
            Some(delay) => {
                let nanos: u128 = delay.as_nanos();
                assert(now + nanos <= i128::MAX);
            },
            None => {},
        }
        Ok(self.build_entries(latest_ordered, id, now))
    }
}

/// An ordered job spawned while ordered messages are queued depends on the
/// latest-created of them, so it waits (see `Message::may_start` and
/// `runner::should_start`) exactly while that message is still queued. An
/// unordered job depends on nothing and never waits.
pub proof fn lemma_ordered_job_waits_for_latest(
    builder: JobBuilderView,
    queued: Seq<Message>,
    id: Id,
    now: int,
    message: Message,
    payload: MessagePayload,
)
    requires
        entries_built(builder, latest_value(ordered_mappings(queued)), id, now, message, payload),
    ensures
        !builder.ordered ==> message.execute_after is None,
        !builder.ordered ==> forall|queued_now: bool|
            !(#[trigger] message.waits_for_dependency(queued_now)),
        builder.ordered && (exists|i: int| 0 <= i < queued.len() && (#[trigger] queued[i]).ordered)
            ==> forall|queued_now: bool|
            #[trigger] message.waits_for_dependency(queued_now) == queued_now,
        builder.ordered && (exists|i: int| 0 <= i < queued.len() && (#[trigger] queued[i]).ordered)
            ==> exists|i: int|
            0 <= i < queued.len() && (#[trigger] queued[i]).ordered && message.execute_after
                == Some(queued[i].id) && (forall|j: int|
                0 <= j < queued.len() && (#[trigger] queued[j]).ordered ==> queued[j].created_at
                    <= queued[i].created_at),
{
    lemma_dependency_is_latest_ordered(queued);
}

} // verus!
