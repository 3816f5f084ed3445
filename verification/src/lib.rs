//! A message and job queue kept in a database. This crate holds the queue's
//! records and rules: the retry timing of jobs, the records a new job is stored
//! as, the two database views that find due and latest messages, the update of
//! a message before each execution, the payload checkpoints of a running job,
//! and the decisions of the runner's loop. The database and the async runtime
//! drive these from outside.

mod clock;
pub mod duration;
pub mod error;
pub mod job;
pub mod queue;
pub mod retry;
pub mod runner;
pub mod spawn;
pub mod views;

pub use duration::Duration;
pub use error::{DbError, DbErrorKind, Error};
pub use job::{Checkpoint, CurrentJob};
pub use queue::{Id, Message, MessagePayload, MessageQueueSchema, Timestamp};
pub use retry::RetryTiming;
pub use spawn::JobBuilder;
pub use views::{DueMessages, LatestMessage, MappedValue};
