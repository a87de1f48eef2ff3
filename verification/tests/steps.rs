use topic_pipeline::migration::{
    begin_migration, conclude_migration, migration_step, MigrationStep,
};
use topic_pipeline::outcome::{MigrateOutcome, ValidateOutcome};
use topic_pipeline::registry::SchemaRegistryClient;
use topic_pipeline::schema::SchemaReading;
use topic_pipeline::validation::{
    begin_validation, conclude_validation, validation_step, ValidationStep,
};

const CLIENT: SchemaRegistryClient<'static> =
    SchemaRegistryClient { base_url: "http://localhost:8081" };

fn validated(reading: &SchemaReading) -> (ValidateOutcome, String) {
    match validation_step(&CLIENT, "orders", "value", reading) {
        ValidationStep::Finished(validation) => (validation.outcome, validation.detail),
        other => panic!("not settled: {:?}", other),
    }
}

fn migrated(reading: &SchemaReading) -> (MigrateOutcome, String) {
    match migration_step(&CLIENT, "orders", "value", reading) {
        MigrationStep::Finished(migration) => (migration.outcome, migration.detail),
        other => panic!("not settled: {:?}", other),
    }
}

#[test]
fn unreadable_file_is_a_read_error_in_both_phases() {
    let reading = SchemaReading::Unreadable { reason: "denied".to_string() };
    assert_eq!(validated(&reading), (ValidateOutcome::ReadError, "denied".to_string()));
    assert_eq!(migrated(&reading), (MigrateOutcome::ReadError, "denied".to_string()));
}

#[test]
fn invalid_text_is_a_parse_error_in_both_phases() {
    let reading = SchemaReading::Invalid { message: "bad".to_string() };
    assert_eq!(validated(&reading), (ValidateOutcome::ParseError, "bad".to_string()));
    assert_eq!(migrated(&reading), (MigrateOutcome::ParseError, "bad".to_string()));
}

#[test]
fn non_record_is_skipped_in_both_phases_without_a_request() {
    assert_eq!(
        validated(&SchemaReading::NotRecord),
        (ValidateOutcome::NonRecordSkipped, String::new())
    );
    assert_eq!(
        migrated(&SchemaReading::NotRecord),
        (MigrateOutcome::NonRecordSkipped, String::new())
    );
}

#[test]
fn record_is_asked_about_under_its_subject() {
    let reading = SchemaReading::Record { canonical_form: "{\"name\":\"A\"}".to_string() };
    match validation_step(&CLIENT, "a.b", "key", &reading) {
        ValidationStep::Ask(request) => {
            assert_eq!(
                request.url,
                "http://localhost:8081/compatibility/subjects/a.b-key/versions/latest"
            );
            assert_eq!(request.schema, "{\"name\":\"A\"}");
            assert_eq!(request.content_type, "application/vnd.schemaregistry.v1+json");
            assert_eq!(request.user_agent, "schema-registry-cli");
        }
        other => panic!("no question: {:?}", other),
    }
}

#[test]
fn record_is_registered_under_its_subject() {
    let reading = SchemaReading::Record { canonical_form: "{\"name\":\"A\"}".to_string() };
    match migration_step(&CLIENT, "a.b", "key", &reading) {
        MigrationStep::Send(request) => {
            assert_eq!(request.url, "http://localhost:8081/subjects/a.b-key/versions");
            assert_eq!(request.schema, "{\"name\":\"A\"}");
            assert_eq!(request.content_type, "application/vnd.schemaregistry.v1+json");
            assert_eq!(request.user_agent, "schema-registry-cli");
        }
        other => panic!("no registration: {:?}", other),
    }
}

#[test]
fn validation_reads_the_file_it_is_given() {
    let file: Result<String, String> =
        Ok(r#"{"type":"record","name":"Order","fields":[{"name":"id","type":"long"}]}"#.to_string());
    match begin_validation(&CLIENT, "orders", "value", &file) {
        ValidationStep::Ask(request) => {
            assert_eq!(
                request.schema,
                r#"{"name":"Order","type":"record","fields":[{"name":"id","type":"long"}]}"#
            );
        }
        other => panic!("no question: {:?}", other),
    }
    let file: Result<String, String> = Ok(r#""string""#.to_string());
    assert!(matches!(
        begin_validation(&CLIENT, "orders", "value", &file),
        ValidationStep::Finished(v) if v.outcome == ValidateOutcome::NonRecordSkipped
    ));
    let file: Result<String, String> = Err("gone".to_string());
    assert!(matches!(
        begin_validation(&CLIENT, "orders", "value", &file),
        ValidationStep::Finished(v) if v.outcome == ValidateOutcome::ReadError && v.detail == "gone"
    ));
}

#[test]
fn migration_reads_the_file_anew() {
    let good: Result<String, String> =
        Ok(r#"{"type":"record","name":"Order","fields":[]}"#.to_string());
    assert!(matches!(
        begin_validation(&CLIENT, "orders", "value", &good),
        ValidationStep::Ask(_)
    ));
    let gone: Result<String, String> = Err("No such file or directory".to_string());
    assert!(matches!(
        begin_migration(&CLIENT, "orders", "value", &gone),
        MigrationStep::Finished(m)
            if m.outcome == MigrateOutcome::ReadError && m.detail == "No such file or directory"
    ));
    let spoiled: Result<String, String> = Ok("{".to_string());
    assert!(matches!(
        begin_migration(&CLIENT, "orders", "value", &spoiled),
        MigrationStep::Finished(m) if m.outcome == MigrateOutcome::ParseError
    ));
    assert!(matches!(begin_migration(&CLIENT, "orders", "value", &good), MigrationStep::Send(_)));
}

#[test]
fn registry_settles_a_validated_record() {
    let validation = conclude_validation(&Ok(true));
    assert_eq!((validation.outcome, validation.detail.as_str()), (ValidateOutcome::CompatibleRecord, ""));
    let validation = conclude_validation(&Ok(false));
    assert_eq!(
        (validation.outcome, validation.detail.as_str()),
        (ValidateOutcome::IncompatibleRecord, "")
    );
    let validation = conclude_validation(&Err("boom".to_string()));
    assert_eq!(
        (validation.outcome, validation.detail.as_str()),
        (ValidateOutcome::RegistryError, "boom")
    );
}

#[test]
fn registry_settles_a_migrated_record() {
    let migration = conclude_migration(&Ok(()));
    assert_eq!((migration.outcome, migration.detail.as_str()), (MigrateOutcome::Migrated, ""));
    let migration = conclude_migration(&Err("boom".to_string()));
    assert_eq!(
        (migration.outcome, migration.detail.as_str()),
        (MigrateOutcome::RegistryError, "boom")
    );
}
