use topic_pipeline::registry::{RegistryReply, SchemaRegistryClient};

fn answered(status: u16, body: &str) -> Result<RegistryReply, String> {
    Ok(RegistryReply { status, body: body.to_string() })
}

fn undecoded() -> Result<bool, String> {
    Err("expected value at line 1 column 1".to_string())
}

#[test]
fn compatibility_request_goes_to_the_latest_version_of_the_subject() {
    let client = SchemaRegistryClient { base_url: "http://localhost:8081" };
    let request = client.compatibility_request("orders-value", "{\"type\":\"record\"}");
    assert_eq!(
        request.url,
        "http://localhost:8081/compatibility/subjects/orders-value/versions/latest"
    );
    assert_eq!(request.content_type, "application/vnd.schemaregistry.v1+json");
    assert_eq!(request.user_agent, "schema-registry-cli");
    assert_eq!(request.schema, "{\"type\":\"record\"}");
}

#[test]
fn registration_request_goes_to_the_versions_of_the_subject() {
    let client = SchemaRegistryClient { base_url: "http://registry:9000" };
    let request = client.registration_request("a.b-key", "\"string\"");
    assert_eq!(request.url, "http://registry:9000/subjects/a.b-key/versions");
    assert_eq!(request.content_type, "application/vnd.schemaregistry.v1+json");
    assert_eq!(request.user_agent, "schema-registry-cli");
    assert_eq!(request.schema, "\"string\"");
}

#[test]
fn status_200_carries_the_decoded_verdict() {
    let yes = SchemaRegistryClient::compatibility_verdict(
        &answered(200, "{\"is_compatible\":true}"),
        &Ok(true),
    );
    assert_eq!(yes, Ok(true));
    let no = SchemaRegistryClient::compatibility_verdict(
        &answered(200, "{\"is_compatible\":false}"),
        &Ok(false),
    );
    assert_eq!(no, Ok(false));
}

#[test]
fn status_200_with_an_undecodable_body_is_an_error() {
    let verdict = SchemaRegistryClient::compatibility_verdict(&answered(200, "oops"), &undecoded());
    assert_eq!(verdict, Err("expected value at line 1 column 1".to_string()));
}

#[test]
fn status_404_is_compatible_whatever_the_body() {
    let verdict = SchemaRegistryClient::compatibility_verdict(
        &answered(404, "{\"error_code\":40401,\"message\":\"Subject not found.\"}"),
        &undecoded(),
    );
    assert_eq!(verdict, Ok(true));
    let verdict = SchemaRegistryClient::compatibility_verdict(&answered(404, ""), &Ok(false));
    assert_eq!(verdict, Ok(true));
}

#[test]
fn other_status_is_an_error_with_the_body() {
    for status in [201u16, 204, 400, 401, 409, 422, 500, 503] {
        let verdict = SchemaRegistryClient::compatibility_verdict(
            &answered(status, "registry says no"),
            &Ok(true),
        );
        assert_eq!(verdict, Err("registry says no".to_string()));
    }
}

#[test]
fn undelivered_compatibility_request_is_an_error_with_the_reason() {
    let delivery: Result<RegistryReply, String> = Err("connection refused".to_string());
    let verdict = SchemaRegistryClient::compatibility_verdict(&delivery, &Ok(true));
    assert_eq!(verdict, Err("connection refused".to_string()));
}

#[test]
fn registration_succeeds_on_status_200_only() {
    assert_eq!(SchemaRegistryClient::registration_verdict(&answered(200, "{\"id\":1}")), Ok(()));
    assert_eq!(
        SchemaRegistryClient::registration_verdict(&answered(404, "not found")),
        Err("not found".to_string())
    );
    assert_eq!(
        SchemaRegistryClient::registration_verdict(&answered(409, "incompatible")),
        Err("incompatible".to_string())
    );
    assert_eq!(
        SchemaRegistryClient::registration_verdict(&answered(201, "")),
        Err(String::new())
    );
}

#[test]
fn undelivered_registration_is_an_error_with_the_reason() {
    let delivery: Result<RegistryReply, String> = Err("timed out".to_string());
    assert_eq!(
        SchemaRegistryClient::registration_verdict(&delivery),
        Err("timed out".to_string())
    );
}
