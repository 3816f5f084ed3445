//! The input of a running job and the checkpoints that replace it.

use crate::queue::Id;
use crate::queue::{Message, MessagePayload};
use crate::spawn::{bytes_view, entries_built, JobBuilderView};
use serde_json::Value as JsonValue;
use vstd::prelude::*;

verus! {

/// Copying a JSON document: `serde_json::Value` derives `Clone`, which copies
/// the document node by node, so the copy equals the original.
pub assume_specification[ <JsonValue as Clone>::clone ](value: &JsonValue) -> (copy: JsonValue)
    ensures
        copy == *value,
;

/// A copy of an optional JSON payload.
fn copy_json(payload: &Option<JsonValue>) -> (copy: Option<JsonValue>)
    ensures
        copy == *payload,
{
    match payload {
        Some(value) => Some(value.clone()),
        None => None,
    }
}

/// A copy of an optional byte payload.
fn copy_bytes(payload: &Option<Vec<u8>>) -> (copy: Option<Vec<u8>>)
    ensures
        bytes_view(copy) == bytes_view(*payload),
{
    match payload {
        Some(bytes) => {
            let copy = bytes.clone();
            assert(copy@ =~= bytes@);
            Some(copy)
        },
        None => None,
    }
}

/// What a running job knows about itself.
pub struct CurrentJobView {
    /// ID of this job (message ID).
    pub id: Id,
    /// Name of job (the message name/type).
    pub name: Seq<char>,
    /// The job's input JSON payload.
    pub payload_json: Option<JsonValue>,
    /// The job's input bytes payload.
    pub payload_bytes: Option<Seq<u8>>,
}

/// Handle for the job handlers: the job's ID, name and input payloads.
#[derive(Debug)]
pub struct CurrentJob {
    id: Id,
    name: &'static str,
    payload_json: Option<JsonValue>,
    payload_bytes: Option<Vec<u8>>,
}

impl View for CurrentJob {
    type V = CurrentJobView;

    closed spec fn view(&self) -> CurrentJobView {
        CurrentJobView {
            id: self.id,
            name: self.name@,
            payload_json: self.payload_json,
            payload_bytes: bytes_view(self.payload_bytes),
        }
    }
}

impl CurrentJob {
    /// A job with the given ID and name, started with the given payloads.
    pub fn new(
        id: Id,
        name: &'static str,
        payload_json: Option<JsonValue>,
        payload_bytes: Option<Vec<u8>>,
    ) -> (job: CurrentJob)
        ensures
            job@ == (CurrentJobView {
                id,
                name: name@,
                payload_json,
                payload_bytes: bytes_view(payload_bytes),
            }),
    {
        CurrentJob { id, name, payload_json, payload_bytes }
    }

    /// Get the job's ID.
    pub fn id(&self) -> (id: Id)
        ensures
            id == self@.id,
    {
        self.id
    }

    /// Get the job's name.
    pub fn name(&self) -> (name: &'static str)
        ensures
            name@ == self@.name,
    {
        self.name
    }

    /// Get the job's JSON input (payload), not yet deserialized.
    pub fn payload_json(&self) -> (payload: Option<&JsonValue>)
        ensures
            payload == (match self@.payload_json {
                Some(v) => Some(&v),
                None => None,
            }),
    {
        match &self.payload_json {
            Some(value) => Some(value),
            None => None,
        }
    }

    /// Get the job's byte input (payload).
    pub fn payload_bytes(&self) -> (payload: Option<&Vec<u8>>)
        ensures
            payload is Some <==> self@.payload_bytes is Some,
            payload matches Some(bytes) ==> bytes@ == self@.payload_bytes->0,
    {
        match &self.payload_bytes {
            Some(bytes) => Some(bytes),
            None => None,
        }
    }

    /// Start setting a checkpoint (with the checkpoint builder), which means
    /// simply setting the input payload for the job. The checkpoint starts out
    /// with the job's current payloads.
    pub fn checkpoint(&self) -> (checkpoint: Checkpoint)
        ensures
            checkpoint@ == (CheckpointView {
                payload_json: self@.payload_json,
                payload_bytes: self@.payload_bytes,
            }),
    {
        Checkpoint::new(self)
    }
}

/// The payloads a checkpoint will set.
pub struct CheckpointView {
    /// JSON payload.
    pub payload_json: Option<JsonValue>,
    /// Byte payload.
    pub payload_bytes: Option<Seq<u8>>,
}

/// Checkpoint builder: the payloads the next execution of a job starts with.
#[derive(Debug)]
pub struct Checkpoint {
    payload_json: Option<JsonValue>,
    payload_bytes: Option<Vec<u8>>,
}

impl View for Checkpoint {
    type V = CheckpointView;

    closed spec fn view(&self) -> CheckpointView {
        CheckpointView {
            payload_json: self.payload_json,
            payload_bytes: bytes_view(self.payload_bytes),
        }
    }
}

impl Checkpoint {
    /// Create new checkpoint builder, starting from the job's payloads.
    fn new(job: &CurrentJob) -> (checkpoint: Checkpoint)
        ensures
            checkpoint@ == (CheckpointView {
                payload_json: job@.payload_json,
                payload_bytes: job@.payload_bytes,
            }),
    {
        let payload_json = copy_json(&job.payload_json);
        let payload_bytes = copy_bytes(&job.payload_bytes);
        Checkpoint { payload_json, payload_bytes }
    }

    /// Set the JSON payload to a new value.
    pub fn payload_json(self, payload: Option<JsonValue>) -> (checkpoint: Checkpoint)
        ensures
            checkpoint@ == (CheckpointView { payload_json: payload, ..self@ }),
    {
        Checkpoint { payload_json: payload, ..self }
    }

    /// Set the byte payload to a new value.
    pub fn payload_bytes(self, payload: Option<Vec<u8>>) -> (checkpoint: Checkpoint)
        ensures
            checkpoint@ == (CheckpointView { payload_bytes: bytes_view(payload), ..self@ }),
    {
        Checkpoint { payload_bytes: payload, ..self }
    }

    /// The JSON payload to write.
    pub fn json(&self) -> (payload: Option<JsonValue>)
        ensures
            payload == self@.payload_json,
    {
        copy_json(&self.payload_json)
    }

    /// The byte payload to write.
    pub fn bytes(&self) -> (payload: Option<Vec<u8>>)
        ensures
            bytes_view(payload) == self@.payload_bytes,
    {
        copy_bytes(&self.payload_bytes)
    }

    /// Once the checkpoint was written to the database, the job continues with
    /// its payloads.
    pub fn apply(self, job: &mut CurrentJob)
        ensures
            final(job)@ == (CurrentJobView {
                payload_json: self@.payload_json,
                payload_bytes: self@.payload_bytes,
                ..old(job)@
            }),
    {
        job.payload_json = self.payload_json;
        job.payload_bytes = self.payload_bytes;
    }
}

/// The payloads given to a job's builder reach the running job unchanged: the
/// payload record built for the job holds them, and a job started from that
/// record (as the runner starts it) holds them too.
pub proof fn lemma_payloads_reach_job(
    builder: JobBuilderView,
    latest_ordered: Option<Id>,
    id: Id,
    now: int,
    message: Message,
    payload: MessagePayload,
    job: CurrentJobView,
)
    requires
        entries_built(builder, latest_ordered, id, now, message, payload),
        job == (CurrentJobView {
            id: message.id,
            name: message.name@,
            payload_json: payload.payload_json,
            payload_bytes: bytes_view(payload.payload_bytes),
        }),
    ensures
        job.id == id,
        job.name == builder.name,
        job.payload_json == builder.payload_json,
        job.payload_bytes == builder.payload_bytes,
{
}

} // verus!
