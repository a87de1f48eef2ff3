use topic_pipeline::outcome::{DeployOutcome, LoadError, MigrateOutcome, ValidateOutcome};
use topic_pipeline::pipeline::{Action, Event, Phase, Pipeline};

fn after(events: &[Event]) -> (Pipeline, Vec<Action>) {
    let mut run = Pipeline::new();
    let answers = events.iter().map(|event| run.step(*event)).collect();
    (run, answers)
}

#[test]
fn run_starts_validating_without_errors() {
    let run = Pipeline::new();
    assert_eq!(run.phase(), Phase::Validating);
    assert!(!run.any_errors());
    assert_eq!(run.exit_code(), None);
}

#[test]
fn clean_run_goes_through_all_phases_and_exits_with_0() {
    let (run, answers) = after(&[
        Event::SchemaValidated(ValidateOutcome::CompatibleRecord),
        Event::SchemaValidated(ValidateOutcome::NonRecordSkipped),
        Event::PhaseFinished,
        Event::TopicDeployed(DeployOutcome::Created),
        Event::PhaseFinished,
        Event::SchemaMigrated(MigrateOutcome::Migrated),
        Event::SchemaMigrated(MigrateOutcome::NonRecordSkipped),
        Event::PhaseFinished,
    ]);
    assert_eq!(
        answers,
        vec![
            Action::Continue,
            Action::Continue,
            Action::BeginDeploy,
            Action::Continue,
            Action::BeginMigrate,
            Action::Continue,
            Action::Continue,
            Action::Exit { code: 0 },
        ]
    );
    assert_eq!(run.phase(), Phase::Done);
    assert!(!run.any_errors());
    assert_eq!(run.exit_code(), Some(0));
}

#[test]
fn empty_run_exits_with_0() {
    let (run, answers) =
        after(&[Event::PhaseFinished, Event::PhaseFinished, Event::PhaseFinished]);
    assert_eq!(answers, vec![Action::BeginDeploy, Action::BeginMigrate, Action::Exit { code: 0 }]);
    assert_eq!(run.exit_code(), Some(0));
}

#[test]
fn every_failed_validation_closes_the_run_after_the_phase() {
    for outcome in [
        ValidateOutcome::IncompatibleRecord,
        ValidateOutcome::ParseError,
        ValidateOutcome::ReadError,
        ValidateOutcome::RegistryError,
    ] {
        let (run, answers) = after(&[Event::SchemaValidated(outcome), Event::PhaseFinished]);
        assert_eq!(answers, vec![Action::Continue, Action::Exit { code: 1 }]);
        assert_eq!(run.phase(), Phase::Done);
        assert!(run.any_errors());
        assert_eq!(run.exit_code(), Some(1));
    }
}

#[test]
fn failure_does_not_cut_the_validate_phase_short() {
    let (run, answers) = after(&[
        Event::SchemaValidated(ValidateOutcome::ParseError),
        Event::SchemaValidated(ValidateOutcome::CompatibleRecord),
        Event::SchemaValidated(ValidateOutcome::ReadError),
    ]);
    assert_eq!(answers, vec![Action::Continue, Action::Continue, Action::Continue]);
    assert_eq!(run.phase(), Phase::Validating);
    assert!(run.any_errors());
}

#[test]
fn closed_run_never_deploys_nor_migrates() {
    let (run, answers) = after(&[
        Event::SchemaValidated(ValidateOutcome::CompatibleRecord),
        Event::SchemaValidated(ValidateOutcome::IncompatibleRecord),
        Event::SchemaValidated(ValidateOutcome::CompatibleRecord),
        Event::PhaseFinished,
        Event::TopicDeployed(DeployOutcome::Created),
        Event::PhaseFinished,
        Event::SchemaMigrated(MigrateOutcome::Migrated),
        Event::PhaseFinished,
    ]);
    assert!(!answers.contains(&Action::BeginDeploy));
    assert!(!answers.contains(&Action::BeginMigrate));
    for answer in &answers[3..] {
        assert_eq!(*answer, Action::Exit { code: 1 });
    }
    assert_eq!(run.phase(), Phase::Done);
    assert_eq!(run.exit_code(), Some(1));
}

#[test]
fn flag_does_not_depend_on_the_order_of_reports() {
    let one = [
        Event::SchemaValidated(ValidateOutcome::CompatibleRecord),
        Event::SchemaValidated(ValidateOutcome::RegistryError),
        Event::SchemaValidated(ValidateOutcome::NonRecordSkipped),
    ];
    let other = [one[2], one[0], one[1]];
    assert_eq!(after(&one).0.any_errors(), after(&other).0.any_errors());
    assert!(after(&one).0.any_errors());
}

#[test]
fn flag_never_comes_down() {
    let (run, _) = after(&[
        Event::SchemaValidated(ValidateOutcome::ReadError),
        Event::SchemaValidated(ValidateOutcome::CompatibleRecord),
        Event::SchemaValidated(ValidateOutcome::NonRecordSkipped),
    ]);
    assert!(run.any_errors());
}

#[test]
fn broker_answers_do_not_raise_the_flag() {
    for outcome in [
        DeployOutcome::Created,
        DeployOutcome::AlreadyExists,
        DeployOutcome::BrokerError,
        DeployOutcome::AdminProtocolError,
    ] {
        let (run, answers) = after(&[
            Event::PhaseFinished,
            Event::TopicDeployed(outcome),
            Event::PhaseFinished,
            Event::PhaseFinished,
        ]);
        assert_eq!(
            answers,
            vec![
                Action::BeginDeploy,
                Action::Continue,
                Action::BeginMigrate,
                Action::Exit { code: 0 }
            ]
        );
        assert!(!run.any_errors());
    }
}

#[test]
fn unloadable_topic_raises_the_flag_and_migration_still_runs() {
    for error in [LoadError::FileReadError, LoadError::MalformedConfigError] {
        let (run, answers) = after(&[
            Event::PhaseFinished,
            Event::TopicLoadFailed(error),
            Event::TopicDeployed(DeployOutcome::Created),
            Event::PhaseFinished,
            Event::SchemaMigrated(MigrateOutcome::Migrated),
            Event::PhaseFinished,
        ]);
        assert_eq!(
            answers,
            vec![
                Action::BeginDeploy,
                Action::Continue,
                Action::Continue,
                Action::BeginMigrate,
                Action::Continue,
                Action::Exit { code: 1 },
            ]
        );
        assert_eq!(run.exit_code(), Some(1));
    }
}

#[test]
fn every_failed_migration_ends_the_run_with_1() {
    for outcome in [
        MigrateOutcome::ParseError,
        MigrateOutcome::ReadError,
        MigrateOutcome::RegistryError,
    ] {
        let (run, answers) = after(&[
            Event::PhaseFinished,
            Event::PhaseFinished,
            Event::SchemaMigrated(MigrateOutcome::Migrated),
            Event::SchemaMigrated(outcome),
            Event::SchemaMigrated(MigrateOutcome::Migrated),
            Event::PhaseFinished,
        ]);
        assert_eq!(answers[3], Action::Continue);
        assert_eq!(answers[5], Action::Exit { code: 1 });
        assert_eq!(run.exit_code(), Some(1));
    }
}

#[test]
fn report_of_another_phase_is_rejected_and_changes_nothing() {
    let (run, answers) = after(&[
        Event::TopicDeployed(DeployOutcome::Created),
        Event::TopicLoadFailed(LoadError::FileReadError),
        Event::SchemaMigrated(MigrateOutcome::RegistryError),
    ]);
    assert_eq!(answers, vec![Action::Rejected, Action::Rejected, Action::Rejected]);
    assert_eq!(run.phase(), Phase::Validating);
    assert!(!run.any_errors());

    let (run, answers) = after(&[
        Event::PhaseFinished,
        Event::SchemaValidated(ValidateOutcome::ParseError),
        Event::SchemaMigrated(MigrateOutcome::ParseError),
    ]);
    assert_eq!(answers[1..], [Action::Rejected, Action::Rejected]);
    assert_eq!(run.phase(), Phase::Deploying);
    assert!(!run.any_errors());

    let (run, answers) = after(&[
        Event::PhaseFinished,
        Event::PhaseFinished,
        Event::SchemaValidated(ValidateOutcome::ParseError),
        Event::TopicLoadFailed(LoadError::MalformedConfigError),
    ]);
    assert_eq!(answers[2..], [Action::Rejected, Action::Rejected]);
    assert_eq!(run.phase(), Phase::Migrating);
    assert!(!run.any_errors());
}

#[test]
fn done_run_answers_every_report_with_its_exit() {
    let (run, answers) = after(&[
        Event::PhaseFinished,
        Event::PhaseFinished,
        Event::PhaseFinished,
        Event::SchemaValidated(ValidateOutcome::ParseError),
        Event::SchemaMigrated(MigrateOutcome::RegistryError),
        Event::TopicLoadFailed(LoadError::FileReadError),
        Event::PhaseFinished,
    ]);
    for answer in &answers[2..] {
        assert_eq!(*answer, Action::Exit { code: 0 });
    }
    assert_eq!(run.phase(), Phase::Done);
    assert!(!run.any_errors());
}

#[test]
fn exit_code_is_known_only_when_done() {
    let (run, _) = after(&[Event::PhaseFinished]);
    assert_eq!(run.exit_code(), None);
    let (run, _) = after(&[Event::PhaseFinished, Event::PhaseFinished]);
    assert_eq!(run.exit_code(), None);
}

#[test]
fn validate_outcomes_that_count() {
    assert!(!ValidateOutcome::CompatibleRecord.is_error());
    assert!(!ValidateOutcome::NonRecordSkipped.is_error());
    assert!(ValidateOutcome::IncompatibleRecord.is_error());
    assert!(ValidateOutcome::ParseError.is_error());
    assert!(ValidateOutcome::ReadError.is_error());
    assert!(ValidateOutcome::RegistryError.is_error());
}

#[test]
fn migrate_outcomes_that_count() {
    assert!(!MigrateOutcome::Migrated.is_error());
    assert!(!MigrateOutcome::NonRecordSkipped.is_error());
    assert!(MigrateOutcome::ParseError.is_error());
    assert!(MigrateOutcome::ReadError.is_error());
    assert!(MigrateOutcome::RegistryError.is_error());
}

#[test]
fn deploy_outcomes_that_leave_the_topic_on_the_broker() {
    assert!(DeployOutcome::Created.is_deployed());
    assert!(DeployOutcome::AlreadyExists.is_deployed());
    assert!(!DeployOutcome::BrokerError.is_deployed());
    assert!(!DeployOutcome::AdminProtocolError.is_deployed());
}
