//! Decision logic of a deployment pipeline for message-bus topics and their
//! record schemas: which files describe a topic, what each schema file and each
//! remote answer means for the run, and when the run may go on to the next phase.

pub mod config;
pub mod deployment;
pub mod discovery;
pub mod migration;
pub mod naming;
pub mod outcome;
pub mod pipeline;
pub mod registry;
pub mod schema;
pub mod text;
pub mod topic;
pub mod validation;
