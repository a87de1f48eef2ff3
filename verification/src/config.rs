//! Where the registry and the brokers are reached, and with which settings
//! the brokers' admin client is made.

use vstd::prelude::*;
use vstd::string::StringExecFns;

verus! {

/// The addresses that a run works against.
#[derive(Debug)]
pub struct AppConfig {
    pub schema_registry_url: String,
    pub bootstrap_servers: String,
}

/// The registry's address where none is given.
pub open spec fn default_schema_registry_url() -> Seq<char> {
    "http://localhost:8081"@
}

/// The brokers' address where none is given.
pub open spec fn default_bootstrap_servers() -> Seq<char> {
    "localhost:39092"@
}

/// A given text, or the default in its place.
pub open spec fn given_or(given: Option<String>, default: Seq<char>) -> Seq<char> {
    match given {
        Some(text) => text@,
        None => default,
    }
}

impl AppConfig {
    /// The configuration for what the environment holds under
    /// `SCHEMA_REGISTRY_URL` and `BOOTSTRAP_SERVERS`: each address as given,
    /// or its default where the variable is not set.
    pub fn from_values(
        schema_registry_url: Option<String>,
        bootstrap_servers: Option<String>,
    ) -> (config: AppConfig)
        ensures
            config.schema_registry_url@ == given_or(
                schema_registry_url,
                default_schema_registry_url(),
            ),
            config.bootstrap_servers@ == given_or(bootstrap_servers, default_bootstrap_servers()),
    {
        AppConfig {
            schema_registry_url: match schema_registry_url {
                Some(url) => url,
                None => String::from_str("http://localhost:8081"),
            },
            bootstrap_servers: match bootstrap_servers {
                Some(servers) => servers,
                None => String::from_str("localhost:39092"),
            },
        }
    }
}

#[verifier::external_type_specification]
#[verifier::external_body]
pub struct ExClientConfig(rdkafka::config::ClientConfig);

/// The parameters that were set in a client configuration, each with its
/// value.
pub uninterp spec fn parameters(config: rdkafka::config::ClientConfig) -> Map<Seq<char>, Seq<char>>;

/// The parameters of a configuration in which none is set.
pub open spec fn nothing_set() -> Map<Seq<char>, Seq<char>> {
    Map::empty()
}

/// Calls `rdkafka::config::ClientConfig::new`, which makes a configuration
/// in which no parameter is set.
#[verifier::external_body]
fn empty_config() -> (config: rdkafka::config::ClientConfig)
    ensures
        parameters(config) == nothing_set(),
{
    rdkafka::config::ClientConfig::new()
}

/// Calls `rdkafka::config::ClientConfig::set`, which sets the one parameter
/// to the value, in place of any value that it had, and leaves the others.
#[verifier::external_body]
fn set(config: &mut rdkafka::config::ClientConfig, key: &str, value: &str)
    ensures
        parameters(*final(config)) == parameters(*old(config)).insert(key@, value@),
{
    config.set(key, value);
}

/// The parameters of a client of the brokers at `bootstrap_servers` that
/// belongs to the group `group_id`.
pub open spec fn settings_of(group_id: Seq<char>, bootstrap_servers: Seq<char>) -> Map<
    Seq<char>,
    Seq<char>,
> {
    nothing_set().insert("group.id"@, group_id).insert(
        "client.id"@,
        "rdkafka_integration_test_client"@,
    ).insert("bootstrap.servers"@, bootstrap_servers).insert(
        "enable.partition.eof"@,
        "false"@,
    ).insert("session.timeout.ms"@, "6000"@).insert("enable.auto.commit"@, "false"@).insert(
        "statistics.interval.ms"@,
        "500"@,
    ).insert("api.version.request"@, "true"@).insert("debug"@, "all"@).insert(
        "auto.offset.reset"@,
        "earliest"@,
    ).insert("security.protocol"@, "PLAINTEXT"@)
}

/// The configuration with which the brokers' client is made: see
/// [`settings_of`].
pub fn consumer_config(group_id: &str, bootstrap_servers: &str) -> (config:
    rdkafka::config::ClientConfig)
    ensures
        parameters(config) == settings_of(group_id@, bootstrap_servers@),
{
    let mut config = empty_config();
    set(&mut config, "group.id", group_id);
    set(&mut config, "client.id", "rdkafka_integration_test_client");
    set(&mut config, "bootstrap.servers", bootstrap_servers);
    set(&mut config, "enable.partition.eof", "false");
    set(&mut config, "session.timeout.ms", "6000");
    set(&mut config, "enable.auto.commit", "false");
    set(&mut config, "statistics.interval.ms", "500");
    set(&mut config, "api.version.request", "true");
    set(&mut config, "debug", "all");
    set(&mut config, "auto.offset.reset", "earliest");
    set(&mut config, "security.protocol", "PLAINTEXT");
    config
}

} // verus!
