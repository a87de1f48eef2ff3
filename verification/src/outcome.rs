//! What can come of one item of a phase, and which of that counts against the
//! run.

use vstd::prelude::*;

verus! {

/// What came of validating one schema file.
#[derive(Clone, Copy, Debug, PartialEq, Eq, Structural)]
pub enum ValidateOutcome {
    /// A record schema that the registry accepts, or whose subject it does
    /// not know yet.
    CompatibleRecord,
    /// A record schema that the registry finds incompatible with the latest
    /// version of its subject.
    IncompatibleRecord,
    /// A schema of another type than record; nothing was asked of the registry.
    NonRecordSkipped,
    /// The text is not a schema.
    ParseError,
    /// The file could not be read.
    ReadError,
    /// The registry did not answer, or not as expected.
    RegistryError,
}

impl ValidateOutcome {
    /// Every outcome but a compatible record and a skipped schema is a failure.
    pub open spec fn fails(self) -> bool {
        !(self is CompatibleRecord || self is NonRecordSkipped)
    }

    /// Whether this outcome counts against the run.
    pub fn is_error(&self) -> (yes: bool)
        ensures
            yes == self.fails(),
    {
        match self {
            ValidateOutcome::CompatibleRecord => false,
            ValidateOutcome::NonRecordSkipped => false,
            _ => true,
        }
    }
}

/// Why a topic's descriptor could not be had.
#[derive(Clone, Copy, Debug, PartialEq, Eq, Structural)]
pub enum LoadError {
    /// The config file could not be read.
    FileReadError,
    /// The config file was read, but a field is missing, of the wrong type or
    /// out of range.
    MalformedConfigError,
}

/// What came of deploying one topic.
#[derive(Clone, Copy, Debug, PartialEq, Eq, Structural)]
pub enum DeployOutcome {
    /// The broker created the topic.
    Created,
    /// The broker has the topic already.
    AlreadyExists,
    /// The broker refused the topic for another reason.
    BrokerError,
    /// The request never got a broker's answer.
    AdminProtocolError,
}

impl DeployOutcome {
    /// The topic is on the broker after this outcome.
    pub open spec fn deployed(self) -> bool {
        self is Created || self is AlreadyExists
    }

    /// Whether the topic is on the broker after this outcome.
    pub fn is_deployed(&self) -> (yes: bool)
        ensures
            yes == self.deployed(),
    {
        match self {
            DeployOutcome::Created => true,
            DeployOutcome::AlreadyExists => true,
            _ => false,
        }
    }
}

/// What came of migrating one schema file.
#[derive(Clone, Copy, Debug, PartialEq, Eq, Structural)]
pub enum MigrateOutcome {
    /// The registry took the record schema.
    Migrated,
    /// A schema of another type than record; nothing was sent.
    NonRecordSkipped,
    /// The text is not a schema.
    ParseError,
    /// The file could not be read.
    ReadError,
    /// The registry did not answer, or not with success.
    RegistryError,
}

impl MigrateOutcome {
    /// Every outcome but a migrated record and a skipped schema is a failure.
    pub open spec fn fails(self) -> bool {
        !(self is Migrated || self is NonRecordSkipped)
    }

    /// Whether this outcome counts against the run.
    pub fn is_error(&self) -> (yes: bool)
        ensures
            yes == self.fails(),
    {
        match self {
            MigrateOutcome::Migrated => false,
            MigrateOutcome::NonRecordSkipped => false,
            _ => true,
        }
    }
}

} // verus!
