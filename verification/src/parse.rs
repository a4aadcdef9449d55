//! From a configuration document to a [`Config`].
//!
//! A document is a table. Its `target` table is required and declares one
//! target per entry; each target is a table with a list of strings under
//! `args` and a string under `build`. The settings `build-path`,
//! `default-bin` and `default-target` are strings and may be left out. Any
//! other entry is ignored.

use crate::config::{default_build_path, Config, ConfigModel, Target, TargetModel, Targets};
use crate::document::{
    contents, find, item_contents, lemma_list_content, lemma_table_content, lookup,
    parse_document, toml_document, Content, Entry, Field, Node,
};
use crate::error::Error;
use crate::text::views;
use vstd::prelude::*;

verus! {

/// Whether every item of a list is a string.
pub open spec fn all_text(items: Seq<Content>) -> bool {
    forall|i: int| 0 <= i < items.len() ==> (#[trigger] items[i]) is Text
}

/// The strings of a list of strings, in order.
pub open spec fn texts(items: Seq<Content>) -> Seq<Seq<char>> {
    Seq::new(items.len(), |i: int| items[i]->Text_0)
}

/// The target that a document value declares, or `None` where it is not a
/// table with a list of strings under `args` and a string under `build`.
pub open spec fn target_of(content: Content) -> Option<TargetModel> {
    match content {
        Content::Table(fields) => match (lookup(fields, "args"@), lookup(fields, "build"@)) {
            (Some(Content::List(items)), Some(Content::Text(command))) => if all_text(items) {
                Some(TargetModel { args: texts(items), build_command: command })
            } else {
                None
            },
            _ => None,
        },
        _ => None,
    }
}

/// The targets that the entries of a `target` table declare, a later entry
/// overriding an earlier one of the same name; `None` where some entry
/// declares no target.
pub open spec fn targets_of(entries: Seq<Field>) -> Option<Map<Seq<char>, TargetModel>>
    decreases entries.len(),
{
    if entries.len() == 0 {
        Some(Map::empty())
    } else {
        match (targets_of(entries.drop_last()), target_of(entries.last().value)) {
            (Some(targets), Some(target)) => Some(targets.insert(entries.last().key, target)),
            _ => None,
        }
    }
}

/// The string that a document gives a setting: `fallback` where the setting
/// is left out, `None` where it is not a string.
pub open spec fn setting_of(entries: Seq<Field>, key: Seq<char>, fallback: Seq<char>) -> Option<
    Seq<char>,
> {
    match lookup(entries, key) {
        None => Some(fallback),
        Some(Content::Text(text)) => Some(text),
        Some(_) => None,
    }
}

/// The configuration that a document describes, or `None` where the
/// document is malformed.
pub open spec fn config_of(document: Content) -> Option<ConfigModel> {
    match document {
        Content::Table(entries) => match lookup(entries, "target"@) {
            Some(Content::Table(declared)) => match (
                targets_of(declared),
                setting_of(entries, "build-path"@, "build"@),
                setting_of(entries, "default-bin"@, Seq::empty()),
                setting_of(entries, "default-target"@, Seq::empty()),
            ) {
                (Some(targets), Some(build_path), Some(default_bin), Some(default_target)) => Some(
                    ConfigModel { targets, build_path, default_bin, default_target },
                ),
                _ => None,
            },
            _ => None,
        },
        _ => None,
    }
}

/// Copies the strings out of a list, or gives up at the first item that is
/// not a string.
fn read_texts(items: &Vec<Node>) -> (read: Option<Vec<String>>)
    ensures
        match read {
            Some(strings) => all_text(item_contents(items@)) && views(strings@)
                == texts(item_contents(items@)),
            None => !all_text(item_contents(items@)),
        },
{
    let mut strings: Vec<String> = Vec::new();
    let mut i: usize = 0;
    while i < items.len()
        invariant
            i <= items@.len(),
            strings@.len() == i,
            forall|j: int|
                0 <= j < i ==> (#[trigger] item_contents(items@)[j]) == Content::Text(
                    strings@[j]@,
                ),
        decreases items@.len() - i,
    {
        match &items[i] {
            Node::Text(text) => {
                strings.push(text.clone());
            },
            _ => {
                proof {
                    assert(!(item_contents(items@)[i as int] is Text));
                }
                return None;
            },
        }
        i += 1;
    }
    proof {
        assert(views(strings@) =~= texts(item_contents(items@)));
    }
    Some(strings)
}

/// Reads the target that a document value declares.
fn read_target(node: &Node) -> (read: Option<Target>)
    ensures
        match read {
            Some(target) => target_of(node@) == Some(target@),
            None => target_of(node@) is None,
        },
{
    match node {
        Node::Table(fields) => {
            proof {
                lemma_table_content(*fields);
            }
            match (find(fields, "args"), find(fields, "build")) {
                (Some(Node::List(items)), Some(Node::Text(command))) => {
                    proof {
                        lemma_list_content(*items);
                    }
                    match read_texts(items) {
                        Some(args) => Some(Target { args, build_command: command.clone() }),
                        None => None,
                    }
                },
                _ => None,
            }
        },
        _ => None,
    }
}

/// Reads the targets that the entries of a `target` table declare.
fn read_targets(entries: &Vec<Entry>) -> (read: Option<Targets>)
    ensures
        match read {
            Some(targets) => targets_of(contents(entries@)) == Some(targets@),
            None => targets_of(contents(entries@)) is None,
        },
{
    let mut targets = Targets::new();
    let mut i: usize = 0;
    while i < entries.len()
        invariant
            i <= entries@.len(),
            targets_of(contents(entries@).take(i as int)) == Some(targets@),
        decreases entries@.len() - i,
    {
        proof {
            let all = contents(entries@);
            assert(all.take(i + 1).drop_last() == all.take(i as int));
            assert(all.take(i + 1).last() == all[i as int]);
        }
        match read_target(&entries[i].value) {
            Some(target) => {
                targets.insert(entries[i].key.clone(), target);
            },
            None => {
                proof {
                    lemma_targets_of_prefix(contents(entries@), i + 1);
                }
                return None;
            },
        }
        i += 1;
    }
    proof {
        assert(contents(entries@).take(entries@.len() as int) == contents(entries@));
    }
    Some(targets)
}

/// Entries of which a prefix declares no targets declare none either.
proof fn lemma_targets_of_prefix(entries: Seq<Field>, n: int)
    requires
        0 <= n <= entries.len(),
        targets_of(entries.take(n)) is None,
    ensures
        targets_of(entries) is None,
    decreases entries.len() - n,
{
    if n < entries.len() {
        assert(entries.take(n + 1).drop_last() == entries.take(n));
        lemma_targets_of_prefix(entries, n + 1);
    } else {
        assert(entries.take(n) == entries);
    }
}

/// Reads a setting, with `fallback` where the document leaves it out.
fn read_setting(entries: &Vec<Entry>, key: &str, fallback: String) -> (read: Option<String>)
    ensures
        match read {
            Some(text) => setting_of(contents(entries@), key@, fallback@) == Some(text@),
            None => setting_of(contents(entries@), key@, fallback@) is None,
        },
{
    match find(entries, key) {
        None => Some(fallback),
        Some(Node::Text(text)) => Some(text.clone()),
        Some(_) => None,
    }
}

/// Builds the configuration that a document describes.
///
/// Succeeds exactly where the document is a table with a well-formed
/// `target` table and string settings; a malformed document is a
/// [`Error::ConfigParse`].
pub fn from_document(document: &Node) -> (built: Result<Config, Error>)
    ensures
        match built {
            Ok(config) => config_of(document@) == Some(config@),
            Err(error) => config_of(document@) is None && error is ConfigParse,
        },
{
    let entries = match document {
        Node::Table(entries) => entries,
        _ => {
            return Err(Error::ConfigParse("the document is not a table".to_owned()));
        },
    };
    proof {
        lemma_table_content(*entries);
    }
    let declared = match find(entries, "target") {
        Some(Node::Table(declared)) => declared,
        Some(_) => {
            return Err(Error::ConfigParse("`target` is not a table".to_owned()));
        },
        None => {
            return Err(Error::ConfigParse("missing table `target`".to_owned()));
        },
    };
    proof {
        lemma_table_content(*declared);
    }
    let targets = match read_targets(declared) {
        Some(targets) => targets,
        None => {
            return Err(
                Error::ConfigParse(
                    "every target needs a list of strings `args` and a string `build`".to_owned(),
                ),
            );
        },
    };
    let build_path = match read_setting(entries, "build-path", default_build_path()) {
        Some(text) => text,
        None => {
            return Err(Error::ConfigParse("`build-path` is not a string".to_owned()));
        },
    };
    let default_bin = match read_setting(entries, "default-bin", String::new()) {
        Some(text) => text,
        None => {
            return Err(Error::ConfigParse("`default-bin` is not a string".to_owned()));
        },
    };
    let default_target = match read_setting(entries, "default-target", String::new()) {
        Some(text) => text,
        None => {
            return Err(Error::ConfigParse("`default-target` is not a string".to_owned()));
        },
    };
    Ok(Config { targets, build_path, default_bin, default_target })
}

/// Reads a configuration out of the text of a marker file.
///
/// Fails with [`Error::ConfigParse`] where the text is no TOML document or
/// the document does not describe a configuration, and succeeds with the
/// described configuration everywhere else.
pub fn parse(contents: &str) -> (parsed: Result<Config, Error>)
    ensures
        match parsed {
            Ok(config) => toml_document(contents@) matches Some(document) && config_of(document)
                == Some(config@),
            Err(error) => error is ConfigParse && (toml_document(contents@) matches Some(
                document,
            ) ==> config_of(document) is None),
        },
{
    match parse_document(contents) {
        Ok(document) => from_document(&document),
        Err(error) => Err(error),
    }
}

/// A document that leaves out every optional setting describes a
/// configuration that builds under `build` and has neither a default binary
/// nor a default target.
pub proof fn lemma_omitted_settings_take_defaults(entries: Seq<Field>)
    requires
        lookup(entries, "build-path"@) is None,
        lookup(entries, "default-bin"@) is None,
        lookup(entries, "default-target"@) is None,
        config_of(Content::Table(entries)) is Some,
    ensures
        config_of(Content::Table(entries))->Some_0.build_path == "build"@,
        config_of(Content::Table(entries))->Some_0.default_bin == Seq::<char>::empty(),
        config_of(Content::Table(entries))->Some_0.default_target == Seq::<char>::empty(),
{
}

} // verus!
