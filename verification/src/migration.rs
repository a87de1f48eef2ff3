//! The migrate phase, one schema file at a time.
//!
//! Every file is read and parsed anew, whatever the validate phase made of it.
//! A record goes to the registry, to be registered under its subject, and the
//! registry's answer settles it; any other file is settled at once.

use vstd::prelude::*;
use crate::naming::{subject_name, subject_of};
use crate::outcome::{MigrateOutcome, ValidateOutcome};
use crate::pipeline::{next_errors, Event, Phase};
use crate::registry::{
    content_type,
    registration_url,
    user_agent,
    RegistryRequest,
    SchemaRegistryClient,
};
use crate::schema::{
    examine,
    examined,
    is_record,
    parsed,
    reading_of,
    SchemaReading,
    SchemaReadingView,
};
use crate::validation::finding_of;

verus! {

/// What came of migrating one schema file, with the detail to report.
#[derive(Debug)]
pub struct Migration {
    pub outcome: MigrateOutcome,
    /// The reason of a failure; empty otherwise.
    pub detail: String,
}

/// What is to be done for one schema file.
#[derive(Debug)]
pub enum MigrationStep {
    /// The file is settled.
    Finished(Migration),
    /// The schema is to be sent to the registry.
    Send(RegistryRequest),
}

/// The outcome that settles a file without the registry, with its detail;
/// a record is not settled so.
pub open spec fn skipping_of(reading: SchemaReadingView) -> Option<(MigrateOutcome, Seq<char>)> {
    match reading {
        SchemaReadingView::Unreadable { reason } => Some((MigrateOutcome::ReadError, reason)),
        SchemaReadingView::Invalid { message } => Some((MigrateOutcome::ParseError, message)),
        SchemaReadingView::NotRecord => Some((MigrateOutcome::NonRecordSkipped, Seq::empty())),
        SchemaReadingView::Record { .. } => None,
    }
}

/// The outcome that the registry's verdict settles a record with: migrated,
/// or a registry error with its message.
pub open spec fn completion_of(verdict: Result<(), Seq<char>>) -> (MigrateOutcome, Seq<char>) {
    match verdict {
        Ok(_) => (MigrateOutcome::Migrated, Seq::empty()),
        Err(message) => (MigrateOutcome::RegistryError, message),
    }
}

/// Whether `request` registers `canonical_form` with the registry of
/// `client` under the subject of `topic_name` and `role`.
pub open spec fn registers(
    request: RegistryRequest,
    client: SchemaRegistryClient,
    topic_name: Seq<char>,
    role: Seq<char>,
    canonical_form: Seq<char>,
) -> bool {
    &&& request.url@ == registration_url(client.base_url@, subject_of(topic_name, role))
    &&& request.content_type@ == content_type()
    &&& request.user_agent@ == user_agent()
    &&& request.schema@ == canonical_form
}

/// Whether `step` is what a reading calls for: the outcome that settles
/// the file, or, for a record, its registration.
pub open spec fn step_follows(
    step: MigrationStep,
    client: SchemaRegistryClient,
    topic_name: Seq<char>,
    role: Seq<char>,
    reading: SchemaReadingView,
) -> bool {
    match step {
        MigrationStep::Finished(migration) => skipping_of(reading) == Some(
            (migration.outcome, migration.detail@),
        ),
        MigrationStep::Send(request) => reading matches SchemaReadingView::Record {
            canonical_form,
        } && registers(request, client, topic_name, role, canonical_form),
    }
}

/// Decides what is to be done for a schema file that was read as `reading`.
pub fn migration_step(
    client: &SchemaRegistryClient,
    topic_name: &str,
    role: &str,
    reading: &SchemaReading,
) -> (step: MigrationStep)
    ensures
        step_follows(step, *client, topic_name@, role@, reading@),
{
    match reading {
        SchemaReading::Unreadable { reason } => MigrationStep::Finished(
            Migration { outcome: MigrateOutcome::ReadError, detail: reason.clone() },
        ),
        SchemaReading::Invalid { message } => MigrationStep::Finished(
            Migration { outcome: MigrateOutcome::ParseError, detail: message.clone() },
        ),
        SchemaReading::NotRecord => MigrationStep::Finished(
            Migration { outcome: MigrateOutcome::NonRecordSkipped, detail: String::new() },
        ),
        SchemaReading::Record { canonical_form } => {
            let subject = subject_name(topic_name, role);
            MigrationStep::Send(
                client.registration_request(subject.as_str(), canonical_form.as_str()),
            )
        },
    }
}

/// Reads the schema in a file and decides what is to be done for it.
pub fn begin_migration(
    client: &SchemaRegistryClient,
    topic_name: &str,
    role: &str,
    file: &Result<String, String>,
) -> (step: MigrationStep)
    ensures
        step_follows(step, *client, topic_name@, role@, examined(*file)),
{
    let reading = examine(file);
    migration_step(client, topic_name, role, &reading)
}

/// Settles a record with what the registry said of it, as [`completion_of`] has it.
pub fn conclude_migration(verdict: &Result<(), String>) -> (migration: Migration)
    ensures
        (migration.outcome, migration.detail@) == completion_of(
            crate::registry::verdict_view(*verdict),
        ),
{
    match verdict {
        Ok(_) => Migration { outcome: MigrateOutcome::Migrated, detail: String::new() },
        Err(message) => Migration { outcome: MigrateOutcome::RegistryError, detail: message.clone() },
    }
}

/// A schema of another type than record never reaches the registry and never
/// counts against the run. A text that parses to such a schema is read as
/// "not a record"; validation and migration both settle that reading at once,
/// as skipped, so neither has a request to send; and reporting either outcome
/// leaves the error flag as it was.
pub proof fn non_record_is_skipped(raw: Seq<char>, any_errors: bool)
    requires
        parsed(raw) matches Ok(schema) && !is_record(schema),
    ensures
        reading_of(raw) == SchemaReadingView::NotRecord,
        finding_of(reading_of(raw)) == Some(
            (ValidateOutcome::NonRecordSkipped, Seq::<char>::empty()),
        ),
        skipping_of(reading_of(raw)) == Some(
            (MigrateOutcome::NonRecordSkipped, Seq::<char>::empty()),
        ),
        forall|step: crate::validation::ValidationStep, client: SchemaRegistryClient, topic: Seq<char>, role: Seq<char>|
            crate::validation::step_follows(step, client, topic, role, reading_of(raw))
                ==> step is Finished,
        forall|step: MigrationStep, client: SchemaRegistryClient, topic: Seq<char>, role: Seq<char>|
            step_follows(step, client, topic, role, reading_of(raw)) ==> step is Finished,
        next_errors(
            Phase::Validating,
            any_errors,
            Event::SchemaValidated(ValidateOutcome::NonRecordSkipped),
        ) == any_errors,
        next_errors(
            Phase::Migrating,
            any_errors,
            Event::SchemaMigrated(MigrateOutcome::NonRecordSkipped),
        ) == any_errors,
{
}

} // verus!
