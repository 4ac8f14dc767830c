//! The supervisor: which stages run with the services that could be
//! reached, and what the end of a task means.

use vstd::prelude::*;
use vstd::string::StringExecFns;
use crate::config::RabbitMqConfig;

verus! {

/// The stages to start.
#[derive(Debug, Clone, Copy, PartialEq, Eq)]
pub struct StagePlan {
    /// The poll loop over the block explorer.
    pub block_watcher: bool,
    /// The batching stage that publishes to the stream.
    pub publisher: bool,
    /// The stage that reads the stream and stores what it reads.
    pub ingestion: bool,
}

/// The stages that run where the broker and the database could or could not
/// be reached: the poll loop always, publishing with the broker, ingestion
/// with both.
pub open spec fn plan_of(broker_ready: bool, database_ready: bool) -> StagePlan {
    StagePlan {
        block_watcher: true,
        publisher: broker_ready,
        ingestion: broker_ready && database_ready,
    }
}

/// The stages to start, given which services could be reached. A service
/// that could not be reached costs the stages that need it and no others.
pub fn plan_stages(broker_ready: bool, database_ready: bool) -> (plan: StagePlan)
    ensures
        plan == plan_of(broker_ready, database_ready),
{
    StagePlan {
        block_watcher: true,
        publisher: broker_ready,
        ingestion: broker_ready && database_ready,
    }
}

/// How a task ended.
#[derive(Debug, Clone, Copy, PartialEq, Eq)]
pub enum TaskOutcome {
    Normal,
    Cancelled,
    Panicked,
    /// It could not be joined for another reason.
    Failed,
}

/// How a task ended that was joined, or could not be joined and was then
/// marked cancelled or panicked or neither. Cancellation is asked first.
pub open spec fn outcome_of(joined: bool, cancelled: bool, panicked: bool) -> TaskOutcome {
    if joined {
        TaskOutcome::Normal
    } else if cancelled {
        TaskOutcome::Cancelled
    } else if panicked {
        TaskOutcome::Panicked
    } else {
        TaskOutcome::Failed
    }
}

/// How a task ended.
pub fn classify_task_end(joined: bool, cancelled: bool, panicked: bool) -> (outcome: TaskOutcome)
    ensures
        outcome == outcome_of(joined, cancelled, panicked),
{
    if joined {
        TaskOutcome::Normal
    } else if cancelled {
        TaskOutcome::Cancelled
    } else if panicked {
        TaskOutcome::Panicked
    } else {
        TaskOutcome::Failed
    }
}

/// How the broker answered the creation of a stream.
#[derive(Debug, Clone, Copy, PartialEq, Eq)]
pub enum StreamCreation {
    Created,
    AlreadyExists,
    /// The broker refused with another status.
    Refused,
    /// The request did not get an answer of the broker.
    Unanswered,
}

/// Whether the creation of a stream is to be reported as an error. A stream
/// that exists already is no error.
pub fn is_stream_error(creation: StreamCreation) -> (error: bool)
    ensures
        error == (creation is Refused),
{
    match creation {
        StreamCreation::Refused => true,
        _ => false,
    }
}

/// The name to sign in with where the settings give none.
pub open spec fn default_credential() -> Seq<char> {
    "guest"@
}

/// The name to sign in to the broker with.
pub fn broker_username(config: &RabbitMqConfig) -> (username: String)
    ensures
        username@ == match config@.username {
            Some(name) => name,
            None => default_credential(),
        },
{
    match config.get_username() {
        Some(name) => name.clone(),
        None => String::from_str("guest"),
    }
}

/// The password to sign in to the broker with.
pub fn broker_password(config: &RabbitMqConfig) -> (password: String)
    ensures
        password@ == match config@.password {
            Some(word) => word,
            None => default_credential(),
        },
{
    match config.get_password() {
        Some(word) => word.clone(),
        None => String::from_str("guest"),
    }
}

} // verus!
