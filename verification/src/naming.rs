//! The directory convention: which files describe a topic, which hold a
//! schema, and how a topic and a schema's subject are named.
//!
//! A topic is a directory under the root that holds a config file. Its name is
//! its path below the root, with a dot for every separator. A schema file lies
//! anywhere below the topic's directory; what stands before the schema suffix
//! of its name is its role, and topic and role together name its subject.

use vstd::prelude::*;
use vstd::string::StringExecFns;
use crate::text::{chars_of, ends_with, starts_with, text_of};

verus! {

/// The suffix of the name of a topic's config file.
pub open spec fn config_suffix() -> Seq<char> {
    "config.yaml"@
}

/// The suffix of the name of a schema file.
pub open spec fn schema_suffix() -> Seq<char> {
    "-schema.avsc"@
}

/// Whether a file of this name is a topic's config file.
pub open spec fn names_topic_config(file_name: Seq<char>) -> bool {
    config_suffix().is_suffix_of(file_name)
}

/// The role of the schema in a file of this name: the name without the
/// schema suffix, whatever it is. A file whose name does not end with the
/// suffix holds no schema.
pub open spec fn role_of(file_name: Seq<char>) -> Option<Seq<char>> {
    if schema_suffix().is_suffix_of(file_name) {
        Some(file_name.take(file_name.len() - schema_suffix().len()))
    } else {
        None
    }
}

/// A path with a dot in place of every separator.
pub open spec fn dotted(dir: Seq<char>) -> Seq<char> {
    dir.map_values(
        |c: char|
            if c == '/' {
                '.'
            } else {
                c
            },
    )
}

/// The name of the topic whose config file, named `file_name`, lies at
/// `path`: the part of `path` between the root and its separator in front and
/// a separator and the file's name behind, dotted. A path of another shape
/// names no topic; one such path is that of a config file directly under the
/// root.
pub open spec fn topic_name_of(root: Seq<char>, path: Seq<char>, file_name: Seq<char>) -> Option<
    Seq<char>,
> {
    let front = root.push('/');
    let back = seq!['/'] + file_name;
    if front.is_prefix_of(path) && back.is_suffix_of(path.skip(front.len() as int)) {
        Some(dotted(path.subrange(front.len() as int, path.len() - back.len())))
    } else {
        None
    }
}

/// The subject under which the registry keeps the schema of this role for
/// this topic.
pub open spec fn subject_of(topic_name: Seq<char>, role: Seq<char>) -> Seq<char> {
    topic_name.push('-') + role
}

/// An optional text as an optional sequence.
pub open spec fn text_view(text: Option<String>) -> Option<Seq<char>> {
    match text {
        Some(text) => Some(text@),
        None => None,
    }
}

/// Whether a file of this name is a topic's config file.
pub fn is_topic_config(file_name: &str) -> (yes: bool)
    ensures
        yes == names_topic_config(file_name@),
{
    let name = chars_of(file_name);
    let suffix = chars_of("config.yaml");
    ends_with(&name, &suffix)
}

/// The role of the schema in a file of this name, if it holds one.
pub fn schema_role(file_name: &str) -> (role: Option<String>)
    ensures
        text_view(role) == role_of(file_name@),
{
    let name = chars_of(file_name);
    let suffix = chars_of("-schema.avsc");
    if ends_with(&name, &suffix) {
        Some(text_of(&name, 0, name.len() - suffix.len()))
    } else {
        None
    }
}

/// The name of the topic whose config file, named `file_name`, lies at
/// `path` under `root`, if the path has that shape.
pub fn topic_name(root: &str, path: &str, file_name: &str) -> (name: Option<String>)
    ensures
        text_view(name) == topic_name_of(root@, path@, file_name@),
{
    let mut front = chars_of(root);
    front.push('/');
    let mut back: Vec<char> = Vec::new();
    back.push('/');
    let mut name_chars = chars_of(file_name);
    back.append(&mut name_chars);
    assert(back@ =~= seq!['/'] + file_name@);
    let whole = chars_of(path);
    if !starts_with(&whole, &front) {
        return None;
    }
    let rest_len = whole.len() - front.len();
    if back.len() > rest_len {
        return None;
    }
    let end = whole.len() - back.len();
    let ghost rest = whole@.skip(front@.len() as int);
    if !crate::text::matches_at(&whole, end, &back) {
        proof {
            if back@.is_suffix_of(rest) {
                assert(whole@.subrange(end as int, end + back@.len()) =~= rest.subrange(
                    rest.len() - back@.len(),
                    rest.len() as int,
                ));
            }
        }
        return None;
    }
    proof {
        assert(rest.subrange(rest.len() - back@.len(), rest.len() as int) =~= whole@.subrange(
            end as int,
            end + back@.len(),
        ));
    }
    let mut name = String::new();
    let mut i: usize = front.len();
    while i < end
        invariant
            front@.len() <= i <= end <= whole@.len(),
            name@ == dotted(whole@.subrange(front@.len() as int, i as int)),
        decreases end - i,
    {
        let c = whole[i];
        if c == '/' {
            name.push('.');
        } else {
            name.push(c);
        }
        i += 1;
        assert(name@ =~= dotted(whole@.subrange(front@.len() as int, i as int)));
    }
    Some(name)
}

/// The subject under which the registry keeps the schema of this role for
/// this topic.
pub fn subject_name(topic_name: &str, role: &str) -> (subject: String)
    ensures
        subject@ == subject_of(topic_name@, role@),
{
    let mut subject = String::from_str(topic_name);
    subject.push('-');
    subject.append(role);
    subject
}

/// A topic directory named `a/b/c` under the root gives the topic `a.b.c`:
/// the config file of a directory `dir` under `root` names the topic
/// `dotted(dir)`.
pub proof fn topic_is_named_by_its_directory(
    root: Seq<char>,
    dir: Seq<char>,
    file_name: Seq<char>,
)
    ensures
        topic_name_of(root, root.push('/') + dir + (seq!['/'] + file_name), file_name) == Some(
            dotted(dir),
        ),
{
    let front = root.push('/');
    let back = seq!['/'] + file_name;
    let path = front + dir + back;
    assert(path.subrange(0, front.len() as int) =~= front);
    let rest = path.skip(front.len() as int);
    assert(rest =~= dir + back);
    assert(rest.subrange(rest.len() - back.len(), rest.len() as int) =~= back);
    assert(path.subrange(front.len() as int, path.len() - back.len()) =~= dir);
}

/// Dotting goes through the separator: the directory `outer/inner` is
/// dotted as `outer`, a dot, and `inner`, each dotted by itself.
pub proof fn dotted_joins_with_a_dot(outer: Seq<char>, inner: Seq<char>)
    ensures
        dotted(outer.push('/') + inner) == dotted(outer).push('.') + dotted(inner),
{
    assert(dotted(outer.push('/') + inner) =~= dotted(outer).push('.') + dotted(inner));
}

/// A directory name without a separator is dotted as itself.
pub proof fn dotted_keeps_a_plain_name(dir: Seq<char>)
    requires
        !dir.contains('/'),
    ensures
        dotted(dir) == dir,
{
    assert forall|i: int| 0 <= i < dir.len() implies dotted(dir)[i] == dir[i] by {
        assert(dir.contains(dir[i]));
    }
    assert(dotted(dir) =~= dir);
}

} // verus!
