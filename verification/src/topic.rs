//! A topic's descriptor: what its config file must hold, and what is asked of
//! the broker for it.
//!
//! Reading the file and taking its text apart is the caller's work; it hands
//! over what it got. A descriptor exists only for a config whose numbers are
//! in range, so whatever goes to the broker is.

use vstd::prelude::*;
use vstd::string::StringExecFns;
use crate::outcome::{DeployOutcome, LoadError};
use crate::text::pairs_view;

verus! {

/// The settings nested under `config` in a topic's config file.
#[derive(Clone, Copy, Debug, PartialEq, Eq, Structural)]
pub struct Config {
    pub retention_ms: i64,
}

/// A topic's config file, field by field.
#[derive(Clone, Copy, Debug, PartialEq, Eq, Structural)]
pub struct TopicConfig {
    pub replication_factor: i32,
    pub partitions: i32,
    pub config: Config,
}

/// What the caller got when it went for a topic's config file.
#[derive(Debug)]
pub enum ConfigSource {
    /// The file could not be read.
    Unreadable { reason: String },
    /// The file was read, but a field is missing or of the wrong type.
    Malformed { reason: String },
    /// The file holds all three fields.
    Parsed(TopicConfig),
}

/// A topic as it goes to the broker.
#[derive(Debug)]
pub struct TopicDescriptor {
    name: String,
    partitions: i32,
    replication_factor: i32,
    retention_ms: i64,
}

/// A request to create one topic.
#[derive(Debug)]
pub struct NewTopicRequest {
    pub name: String,
    pub num_partitions: i32,
    pub replication_factor: i32,
    /// The topic's settings on the broker, as pairs of key and value.
    pub config: Vec<(String, String)>,
}

/// What came back from a request to create one topic.
#[derive(Debug)]
pub enum BrokerReply {
    /// The broker created the topic.
    Created,
    /// The broker refused the topic; `already_exists` says whether it did so
    /// because it has a topic of that name.
    Rejected { already_exists: bool, detail: String },
    /// The request failed before any broker answered for the topic.
    Failed { detail: String },
}

/// Whether the numbers of a config are in range: at least one partition, a
/// replication factor of at least one, and a retention that is not negative.
pub open spec fn in_range(config: TopicConfig) -> bool {
    &&& config.partitions >= 1
    &&& config.replication_factor >= 1
    &&& config.config.retention_ms >= 0
}

/// Why a source gives no descriptor, or `None` where it gives one.
pub open spec fn load_error_of(source: ConfigSource) -> Option<LoadError> {
    match source {
        ConfigSource::Unreadable { .. } => Some(LoadError::FileReadError),
        ConfigSource::Malformed { .. } => Some(LoadError::MalformedConfigError),
        ConfigSource::Parsed(config) => if in_range(config) {
            None
        } else {
            Some(LoadError::MalformedConfigError)
        },
    }
}

/// The decimal digit for a number below ten.
pub open spec fn digit(d: int) -> char {
    if d == 0 {
        '0'
    } else if d == 1 {
        '1'
    } else if d == 2 {
        '2'
    } else if d == 3 {
        '3'
    } else if d == 4 {
        '4'
    } else if d == 5 {
        '5'
    } else if d == 6 {
        '6'
    } else if d == 7 {
        '7'
    } else if d == 8 {
        '8'
    } else {
        '9'
    }
}

/// A natural number in decimal, without leading zeros.
pub open spec fn decimal(n: nat) -> Seq<char>
    decreases n,
{
    if n < 10 {
        seq![digit(n as int)]
    } else {
        decimal(n / 10).push(digit((n % 10) as int))
    }
}

/// The key of the broker setting that holds a topic's retention.
pub open spec fn retention_key() -> Seq<char> {
    "retention.ms"@
}

fn digit_of(d: u64) -> (c: char)
    requires
        d < 10,
    ensures
        c == digit(d as int),
{
    if d == 0 {
        '0'
    } else if d == 1 {
        '1'
    } else if d == 2 {
        '2'
    } else if d == 3 {
        '3'
    } else if d == 4 {
        '4'
    } else if d == 5 {
        '5'
    } else if d == 6 {
        '6'
    } else if d == 7 {
        '7'
    } else if d == 8 {
        '8'
    } else {
        '9'
    }
}

fn push_decimal(out: &mut String, n: u64)
    ensures
        final(out)@ == old(out)@ + decimal(n as nat),
    decreases n,
{
    if n >= 10 {
        push_decimal(out, n / 10);
    }
    out.push(digit_of(n % 10));
    assert(out@ =~= old(out)@ + decimal(n as nat));
}

/// A number in decimal.
pub fn decimal_string(n: u64) -> (text: String)
    ensures
        text@ == decimal(n as nat),
{
    let mut text = String::new();
    push_decimal(&mut text, n);
    assert(text@ =~= decimal(n as nat));
    text
}

impl TopicDescriptor {
    #[verifier::type_invariant]
    spec fn numbers_in_range(self) -> bool {
        &&& self.partitions >= 1
        &&& self.replication_factor >= 1
        &&& self.retention_ms >= 0
    }

    /// The topic's dotted name.
    pub closed spec fn name_spec(&self) -> Seq<char> {
        self.name@
    }

    /// The number of partitions.
    pub closed spec fn partitions_spec(&self) -> i32 {
        self.partitions
    }

    /// The replication factor.
    pub closed spec fn replication_factor_spec(&self) -> i32 {
        self.replication_factor
    }

    /// The retention in milliseconds.
    pub closed spec fn retention_ms_spec(&self) -> i64 {
        self.retention_ms
    }

    /// What holds of every descriptor: its numbers are in range.
    pub open spec fn wf(&self) -> bool {
        &&& self.partitions_spec() >= 1
        &&& self.replication_factor_spec() >= 1
        &&& self.retention_ms_spec() >= 0
    }

    /// Whether this is the descriptor of the topic `name` with the numbers of
    /// `config`.
    pub open spec fn describes(&self, name: Seq<char>, config: TopicConfig) -> bool {
        &&& self.name_spec() == name
        &&& self.partitions_spec() == config.partitions
        &&& self.replication_factor_spec() == config.replication_factor
        &&& self.retention_ms_spec() == config.config.retention_ms
    }

    /// The descriptor of the topic `name`, from what the caller got when it
    /// went for the topic's config file. There is one exactly where the file
    /// holds all three fields with numbers in range; an unreadable file is a
    /// `FileReadError`, anything else a `MalformedConfigError`.
    pub fn load(name: &str, source: &ConfigSource) -> (loaded: Result<TopicDescriptor, LoadError>)
        ensures
            match loaded {
                Ok(descriptor) => {
                    &&& load_error_of(*source) is None
                    &&& source matches ConfigSource::Parsed(config) && descriptor.describes(
                        name@,
                        *config,
                    )
                    &&& descriptor.wf()
                },
                Err(error) => load_error_of(*source) == Some(error),
            },
    {
        match source {
            ConfigSource::Unreadable { .. } => Err(LoadError::FileReadError),
            ConfigSource::Malformed { .. } => Err(LoadError::MalformedConfigError),
            ConfigSource::Parsed(config) => {
                if config.partitions >= 1 && config.replication_factor >= 1
                    && config.config.retention_ms >= 0 {
                    Ok(
                        TopicDescriptor {
                            name: String::from_str(name),
                            partitions: config.partitions,
                            replication_factor: config.replication_factor,
                            retention_ms: config.config.retention_ms,
                        },
                    )
                } else {
                    Err(LoadError::MalformedConfigError)
                }
            },
        }
    }

    /// The topic's dotted name.
    pub fn name(&self) -> (name: &str)
        ensures
            name@ == self.name_spec(),
    {
        self.name.as_str()
    }

    /// The number of partitions.
    pub fn partitions(&self) -> (partitions: i32)
        ensures
            partitions == self.partitions_spec(),
    {
        self.partitions
    }

    /// The replication factor.
    pub fn replication_factor(&self) -> (factor: i32)
        ensures
            factor == self.replication_factor_spec(),
    {
        self.replication_factor
    }

    /// The retention in milliseconds.
    pub fn retention_ms(&self) -> (retention: i64)
        ensures
            retention == self.retention_ms_spec(),
    {
        self.retention_ms
    }

    /// The request that creates this topic: its name, its partitions, its
    /// replication factor, and the one setting that holds its retention in
    /// decimal.
    pub fn creation_request(&self) -> (request: NewTopicRequest)
        ensures
            self.wf(),
            request.name@ == self.name_spec(),
            request.num_partitions == self.partitions_spec(),
            request.replication_factor == self.replication_factor_spec(),
            pairs_view(request.config@) == seq![
                (retention_key(), decimal(self.retention_ms_spec() as nat)),
            ],
    {
        proof {
            use_type_invariant(self);
        }
        let mut config: Vec<(String, String)> = Vec::new();
        config.push((String::from_str("retention.ms"), decimal_string(self.retention_ms as u64)));
        assert(pairs_view(config@) =~= seq![
            (retention_key(), decimal(self.retention_ms_spec() as nat)),
        ]);
        NewTopicRequest {
            name: self.name.clone(),
            num_partitions: self.partitions,
            replication_factor: self.replication_factor,
            config,
        }
    }
}

/// What a broker's reply means for the topic: a topic that exists already is
/// no failure.
pub open spec fn outcome_of(reply: BrokerReply) -> DeployOutcome {
    match reply {
        BrokerReply::Created => DeployOutcome::Created,
        BrokerReply::Rejected { already_exists, .. } => if already_exists {
            DeployOutcome::AlreadyExists
        } else {
            DeployOutcome::BrokerError
        },
        BrokerReply::Failed { .. } => DeployOutcome::AdminProtocolError,
    }
}

/// Reads a broker's reply: see [`outcome_of`].
pub fn deploy_outcome(reply: &BrokerReply) -> (outcome: DeployOutcome)
    ensures
        outcome == outcome_of(*reply),
{
    match reply {
        BrokerReply::Created => DeployOutcome::Created,
        BrokerReply::Rejected { already_exists, .. } => {
            if *already_exists {
                DeployOutcome::AlreadyExists
            } else {
                DeployOutcome::BrokerError
            }
        },
        BrokerReply::Failed { .. } => DeployOutcome::AdminProtocolError,
    }
}

} // verus!
