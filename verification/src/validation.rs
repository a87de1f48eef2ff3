//! The validate phase, one schema file at a time.
//!
//! A file that cannot be read, a text that is no schema and a schema of
//! another type than record are settled at once, the last of them without a
//! failure. For a record the registry is asked whether it is compatible with
//! what it holds under the record's subject, and its answer settles the file.

use vstd::prelude::*;
use crate::naming::{subject_name, subject_of};
use crate::outcome::ValidateOutcome;
use crate::pipeline::{action_for, next_errors, next_phase, raises, Action, Event, Phase};
use crate::registry::{
    compatibility_of,
    compatibility_url,
    content_type,
    user_agent,
    RegistryReply,
    RegistryRequest,
    SchemaRegistryClient,
};
use crate::schema::{examine, examined, SchemaReading, SchemaReadingView};

verus! {

/// What came of validating one schema file, with the detail to report.
#[derive(Debug)]
pub struct Validation {
    pub outcome: ValidateOutcome,
    /// The reason of a failure; empty otherwise.
    pub detail: String,
}

/// What is to be done for one schema file.
#[derive(Debug)]
pub enum ValidationStep {
    /// The file is settled.
    Finished(Validation),
    /// The registry is to be asked.
    Ask(RegistryRequest),
}

/// The outcome that settles a file without the registry, with its detail;
/// a record is not settled so.
pub open spec fn finding_of(reading: SchemaReadingView) -> Option<(ValidateOutcome, Seq<char>)> {
    match reading {
        SchemaReadingView::Unreadable { reason } => Some((ValidateOutcome::ReadError, reason)),
        SchemaReadingView::Invalid { message } => Some((ValidateOutcome::ParseError, message)),
        SchemaReadingView::NotRecord => Some((ValidateOutcome::NonRecordSkipped, Seq::empty())),
        SchemaReadingView::Record { .. } => None,
    }
}

/// The outcome that the registry's verdict settles a record with: compatible
/// or not as the registry says, and a registry error, with its message,
/// where it said neither.
pub open spec fn conclusion_of(verdict: Result<bool, Seq<char>>) -> (ValidateOutcome, Seq<char>) {
    match verdict {
        Ok(true) => (ValidateOutcome::CompatibleRecord, Seq::empty()),
        Ok(false) => (ValidateOutcome::IncompatibleRecord, Seq::empty()),
        Err(message) => (ValidateOutcome::RegistryError, message),
    }
}

/// Whether `request` asks the registry of `client` about `canonical_form`
/// under the subject of `topic_name` and `role`.
pub open spec fn asks_about(
    request: RegistryRequest,
    client: SchemaRegistryClient,
    topic_name: Seq<char>,
    role: Seq<char>,
    canonical_form: Seq<char>,
) -> bool {
    &&& request.url@ == compatibility_url(client.base_url@, subject_of(topic_name, role))
    &&& request.content_type@ == content_type()
    &&& request.user_agent@ == user_agent()
    &&& request.schema@ == canonical_form
}

/// Whether `step` is what a reading calls for: the finding that settles
/// the file, or, for a record, the question to the registry.
pub open spec fn step_follows(
    step: ValidationStep,
    client: SchemaRegistryClient,
    topic_name: Seq<char>,
    role: Seq<char>,
    reading: SchemaReadingView,
) -> bool {
    match step {
        ValidationStep::Finished(validation) => finding_of(reading) == Some(
            (validation.outcome, validation.detail@),
        ),
        ValidationStep::Ask(request) => reading matches SchemaReadingView::Record {
            canonical_form,
        } && asks_about(request, client, topic_name, role, canonical_form),
    }
}

/// Decides what is to be done for a schema file that was read as `reading`.
pub fn validation_step(
    client: &SchemaRegistryClient,
    topic_name: &str,
    role: &str,
    reading: &SchemaReading,
) -> (step: ValidationStep)
    ensures
        step_follows(step, *client, topic_name@, role@, reading@),
{
    match reading {
        SchemaReading::Unreadable { reason } => ValidationStep::Finished(
            Validation { outcome: ValidateOutcome::ReadError, detail: reason.clone() },
        ),
        SchemaReading::Invalid { message } => ValidationStep::Finished(
            Validation { outcome: ValidateOutcome::ParseError, detail: message.clone() },
        ),
        SchemaReading::NotRecord => ValidationStep::Finished(
            Validation { outcome: ValidateOutcome::NonRecordSkipped, detail: String::new() },
        ),
        SchemaReading::Record { canonical_form } => {
            let subject = subject_name(topic_name, role);
            ValidationStep::Ask(
                client.compatibility_request(subject.as_str(), canonical_form.as_str()),
            )
        },
    }
}

/// Reads the schema in a file and decides what is to be done for it.
pub fn begin_validation(
    client: &SchemaRegistryClient,
    topic_name: &str,
    role: &str,
    file: &Result<String, String>,
) -> (step: ValidationStep)
    ensures
        step_follows(step, *client, topic_name@, role@, examined(*file)),
{
    let reading = examine(file);
    validation_step(client, topic_name, role, &reading)
}

/// Settles a record with what the registry said of it, as [`conclusion_of`] has it.
pub fn conclude_validation(verdict: &Result<bool, String>) -> (validation: Validation)
    ensures
        (validation.outcome, validation.detail@) == conclusion_of(
            crate::registry::verdict_view(*verdict),
        ),
{
    match verdict {
        Ok(true) => Validation { outcome: ValidateOutcome::CompatibleRecord, detail: String::new() },
        Ok(false) => Validation {
            outcome: ValidateOutcome::IncompatibleRecord,
            detail: String::new(),
        },
        Err(message) => Validation {
            outcome: ValidateOutcome::RegistryError,
            detail: message.clone(),
        },
    }
}

/// A schema whose subject has no registered version is compatible. The
/// registry answers the question about such a subject with status 404;
/// whatever the body of that answer, the verdict is "compatible", the record
/// is settled as a compatible record, and reporting it leaves the error flag
/// as it was.
pub proof fn first_version_is_compatible(
    reply: RegistryReply,
    decoded: Result<bool, String>,
    any_errors: bool,
)
    requires
        reply.status == 404,
    ensures
        compatibility_of(Ok(reply), decoded) == Ok::<bool, Seq<char>>(true),
        conclusion_of(compatibility_of(Ok(reply), decoded)).0 == ValidateOutcome::CompatibleRecord,
        !raises(Phase::Validating, Event::SchemaValidated(ValidateOutcome::CompatibleRecord)),
        next_errors(
            Phase::Validating,
            any_errors,
            Event::SchemaValidated(ValidateOutcome::CompatibleRecord),
        ) == any_errors,
        action_for(
            Phase::Validating,
            any_errors,
            Event::SchemaValidated(ValidateOutcome::CompatibleRecord),
        ) == Action::Continue,
        next_phase(
            Phase::Validating,
            any_errors,
            Event::SchemaValidated(ValidateOutcome::CompatibleRecord),
        ) == Phase::Validating,
{
}

} // verus!
