//! The deploy phase, one topic at a time.
//!
//! A topic whose descriptor cannot be loaded is settled at once and counts
//! against the run. For any other the broker is asked to create it. What the
//! broker answers is reported and never counts against the run; a topic that
//! is there already is as good as one just created.

use vstd::prelude::*;
use vstd::string::StringExecFns;
use crate::outcome::{DeployOutcome, LoadError};
use crate::pipeline::{action_for, next_errors, next_phase, Action, Event, Phase};
use crate::text::pairs_view;
use crate::topic::{
    decimal,
    in_range,
    load_error_of,
    outcome_of,
    retention_key,
    BrokerReply,
    ConfigSource,
    NewTopicRequest,
    TopicDescriptor,
};

verus! {

/// What is to be done for one topic.
#[derive(Debug)]
pub enum DeploymentStep {
    /// The topic has no descriptor; `detail` says why.
    Failed { error: LoadError, detail: String },
    /// The broker is to be asked for the topic.
    Create(NewTopicRequest),
}

/// What is reported of a config whose numbers are out of range.
pub open spec fn out_of_range_message() -> Seq<char> {
    "partitions and replication_factor must be at least 1, retention_ms at least 0"@
}

/// What is reported of a source that gives no descriptor.
pub open spec fn load_detail_of(source: ConfigSource) -> Seq<char> {
    match source {
        ConfigSource::Unreadable { reason } => reason@,
        ConfigSource::Malformed { reason } => reason@,
        ConfigSource::Parsed(_) => out_of_range_message(),
    }
}

/// Whether `request` asks for the topic `name` with the numbers of `config`.
pub open spec fn creates(request: NewTopicRequest, name: Seq<char>, source: ConfigSource) -> bool {
    &&& source matches ConfigSource::Parsed(config)
    &&& in_range(config)
    &&& request.name@ == name
    &&& request.num_partitions == config.partitions
    &&& request.replication_factor == config.replication_factor
    &&& pairs_view(request.config@) == seq![
        (retention_key(), decimal(config.config.retention_ms as nat)),
    ]
}

/// Whether `step` is what a source calls for: the failure to load, or the
/// request for the topic.
pub open spec fn step_follows(step: DeploymentStep, name: Seq<char>, source: ConfigSource) -> bool {
    match step {
        DeploymentStep::Failed { error, detail } => {
            &&& load_error_of(source) == Some(error)
            &&& detail@ == load_detail_of(source)
        },
        DeploymentStep::Create(request) => {
            &&& load_error_of(source) is None
            &&& creates(request, name, source)
        },
    }
}

/// Decides what is to be done for the topic `name`, given what the caller
/// got when it went for the topic's config file.
pub fn deployment_step(name: &str, source: &ConfigSource) -> (step: DeploymentStep)
    ensures
        step_follows(step, name@, *source),
{
    match TopicDescriptor::load(name, source) {
        Ok(descriptor) => DeploymentStep::Create(descriptor.creation_request()),
        Err(error) => {
            let detail = match source {
                ConfigSource::Unreadable { reason } => reason.clone(),
                ConfigSource::Malformed { reason } => reason.clone(),
                ConfigSource::Parsed(_) => String::from_str(
                    "partitions and replication_factor must be at least 1, retention_ms at least 0",
                ),
            };
            DeploymentStep::Failed { error, detail }
        },
    }
}

/// Deploying a topic that exists already is no failure. The broker's
/// refusal on that ground is read as `AlreadyExists`, whatever its detail;
/// reporting it leaves the error flag as it was, and the run goes on in the
/// deploy phase. So a second run over the same topics ends as the first did.
pub proof fn existing_topic_is_no_failure(detail: String, any_errors: bool)
    ensures
        outcome_of(BrokerReply::Rejected { already_exists: true, detail })
            == DeployOutcome::AlreadyExists,
        DeployOutcome::AlreadyExists.deployed(),
        next_errors(
            Phase::Deploying,
            any_errors,
            Event::TopicDeployed(DeployOutcome::AlreadyExists),
        ) == any_errors,
        next_phase(Phase::Deploying, any_errors, Event::TopicDeployed(DeployOutcome::AlreadyExists))
            == Phase::Deploying,
        action_for(Phase::Deploying, any_errors, Event::TopicDeployed(DeployOutcome::AlreadyExists))
            == Action::Continue,
{
}

/// No answer of the broker counts against the run: whatever came of a
/// topic's deployment, reporting it leaves the error flag as it was.
pub proof fn broker_answers_do_not_count(outcome: DeployOutcome, any_errors: bool)
    ensures
        next_errors(Phase::Deploying, any_errors, Event::TopicDeployed(outcome)) == any_errors,
{
}

} // verus!
