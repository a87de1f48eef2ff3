//! Finding topics and schema files among the entries of a directory walk.
//!
//! The caller walks the tree and hands over what it met, in the order in which
//! it met it; that order is kept. Nothing is remembered between two calls: a
//! phase that needs the files again walks again. Two schema files of one
//! role are both kept, so the one that the walk met last is the one that
//! reaches the registry last.

use vstd::prelude::*;
use crate::naming::{
    is_topic_config,
    names_topic_config,
    role_of,
    schema_role,
    topic_name,
    topic_name_of,
};

verus! {

/// One entry of a directory walk.
#[derive(Debug)]
pub struct Entry {
    /// The entry's path, root included.
    pub path: String,
    /// The last component of the path.
    pub file_name: String,
}

/// A topic, found by its config file.
#[derive(Debug)]
pub struct TopicDir {
    pub name: String,
    pub config_path: String,
}

/// A schema file of a topic.
#[derive(Debug)]
pub struct SchemaFile {
    pub role: String,
    pub path: String,
}

/// A [`TopicDir`] with its texts as sequences.
pub struct TopicDirView {
    pub name: Seq<char>,
    pub config_path: Seq<char>,
}

/// A [`SchemaFile`] with its texts as sequences.
pub struct SchemaFileView {
    pub role: Seq<char>,
    pub path: Seq<char>,
}

impl View for TopicDir {
    type V = TopicDirView;

    open spec fn view(&self) -> TopicDirView {
        TopicDirView { name: self.name@, config_path: self.config_path@ }
    }
}

impl View for SchemaFile {
    type V = SchemaFileView;

    open spec fn view(&self) -> SchemaFileView {
        SchemaFileView { role: self.role@, path: self.path@ }
    }
}

/// The topic that an entry stands for: the entry is a config file, and its
/// path names a topic under the root.
pub open spec fn topic_at(root: Seq<char>, entry: Entry) -> Option<TopicDirView> {
    if names_topic_config(entry.file_name@) {
        match topic_name_of(root, entry.path@, entry.file_name@) {
            Some(name) => Some(TopicDirView { name, config_path: entry.path@ }),
            None => None,
        }
    } else {
        None
    }
}

/// The schema file that an entry stands for.
pub open spec fn schema_at(entry: Entry) -> Option<SchemaFileView> {
    match role_of(entry.file_name@) {
        Some(role) => Some(SchemaFileView { role, path: entry.path@ }),
        None => None,
    }
}

/// The topics among `entries`, in their order.
pub open spec fn topics_in(root: Seq<char>, entries: Seq<Entry>) -> Seq<TopicDirView>
    decreases entries.len(),
{
    if entries.len() == 0 {
        seq![]
    } else {
        let before = topics_in(root, entries.drop_last());
        match topic_at(root, entries.last()) {
            Some(topic) => before.push(topic),
            None => before,
        }
    }
}

/// The schema files among `entries`, in their order.
pub open spec fn schemas_in(entries: Seq<Entry>) -> Seq<SchemaFileView>
    decreases entries.len(),
{
    if entries.len() == 0 {
        seq![]
    } else {
        let before = schemas_in(entries.drop_last());
        match schema_at(entries.last()) {
            Some(file) => before.push(file),
            None => before,
        }
    }
}

/// The views of a list of topics.
pub open spec fn topic_views(topics: Seq<TopicDir>) -> Seq<TopicDirView> {
    topics.map_values(|topic: TopicDir| topic@)
}

/// The views of a list of schema files.
pub open spec fn schema_views(files: Seq<SchemaFile>) -> Seq<SchemaFileView> {
    files.map_values(|file: SchemaFile| file@)
}

/// The topic that `entry` stands for, if it stands for one.
pub fn find_topic(root: &str, entry: &Entry) -> (found: Option<TopicDir>)
    ensures
        match found {
            Some(topic) => topic_at(root@, *entry) == Some(topic@),
            None => topic_at(root@, *entry) is None,
        },
{
    if !is_topic_config(entry.file_name.as_str()) {
        return None;
    }
    match topic_name(root, entry.path.as_str(), entry.file_name.as_str()) {
        Some(name) => Some(TopicDir { name, config_path: entry.path.clone() }),
        None => None,
    }
}

/// The schema file that `entry` stands for, if it stands for one.
pub fn find_schema(entry: &Entry) -> (found: Option<SchemaFile>)
    ensures
        match found {
            Some(file) => schema_at(*entry) == Some(file@),
            None => schema_at(*entry) is None,
        },
{
    match schema_role(entry.file_name.as_str()) {
        Some(role) => Some(SchemaFile { role, path: entry.path.clone() }),
        None => None,
    }
}

/// The topics under `root` among the entries of a walk of `root`.
pub fn discover_topics(root: &str, entries: &Vec<Entry>) -> (topics: Vec<TopicDir>)
    ensures
        topic_views(topics@) == topics_in(root@, entries@),
{
    let mut topics: Vec<TopicDir> = Vec::new();
    let mut i: usize = 0;
    assert(topic_views(topics@) =~= topics_in(root@, entries@.take(0)));
    while i < entries.len()
        invariant
            i <= entries@.len(),
            topic_views(topics@) == topics_in(root@, entries@.take(i as int)),
        decreases entries@.len() - i,
    {
        let ghost before = topics@;
        let found = find_topic(root, &entries[i]);
        proof {
            assert(entries@.take(i + 1).drop_last() =~= entries@.take(i as int));
            assert(entries@.take(i + 1).last() == entries@[i as int]);
        }
        if let Some(topic) = found {
            topics.push(topic);
            assert(topic_views(topics@) =~= topic_views(before).push(topic@));
        }
        i += 1;
    }
    assert(entries@.take(i as int) =~= entries@);
    topics
}

/// The schema files among the entries of a walk of a topic's directory.
pub fn discover_schemas(entries: &Vec<Entry>) -> (files: Vec<SchemaFile>)
    ensures
        schema_views(files@) == schemas_in(entries@),
{
    let mut files: Vec<SchemaFile> = Vec::new();
    let mut i: usize = 0;
    assert(schema_views(files@) =~= schemas_in(entries@.take(0)));
    while i < entries.len()
        invariant
            i <= entries@.len(),
            schema_views(files@) == schemas_in(entries@.take(i as int)),
        decreases entries@.len() - i,
    {
        let ghost before = files@;
        let found = find_schema(&entries[i]);
        proof {
            assert(entries@.take(i + 1).drop_last() =~= entries@.take(i as int));
            assert(entries@.take(i + 1).last() == entries@[i as int]);
        }
        if let Some(file) = found {
            files.push(file);
            assert(schema_views(files@) =~= schema_views(before).push(file@));
        }
        i += 1;
    }
    assert(entries@.take(i as int) =~= entries@);
    files
}

} // verus!
