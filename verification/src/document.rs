//! A configuration document as a tree of plain values.

use crate::error::Error;
use crate::text::same;
use vstd::prelude::*;

verus! {

/// One value of a configuration document.
#[derive(Debug, PartialEq, Eq)]
pub enum Node {
    /// A string.
    Text(String),
    /// An integer.
    Integer(i64),
    /// A boolean.
    Boolean(bool),
    /// A floating-point number; the launcher never reads its magnitude.
    Float,
    /// A date or a time; the launcher never reads it.
    Datetime,
    /// An ordered list of values.
    List(Vec<Node>),
    /// A table of named values.
    Table(Vec<Entry>),
}

/// One entry of a table: a value under its key.
#[derive(Debug, PartialEq, Eq)]
pub struct Entry {
    /// The key.
    pub key: String,
    /// The value filed under the key.
    pub value: Node,
}

/// The mathematical content of an [`Entry`].
pub ghost struct Field {
    pub key: Seq<char>,
    pub value: Content,
}

/// The mathematical content of a [`Node`].
pub ghost enum Content {
    Text(Seq<char>),
    Integer(int),
    Boolean(bool),
    Float,
    Datetime,
    List(Seq<Content>),
    Table(Seq<Field>),
}

impl View for Node {
    type V = Content;

    open spec fn view(&self) -> Content
        decreases self,
    {
        match self {
            Node::Text(s) => Content::Text(s@),
            Node::Integer(i) => Content::Integer(*i as int),
            Node::Boolean(b) => Content::Boolean(*b),
            Node::Float => Content::Float,
            Node::Datetime => Content::Datetime,
            Node::List(items) => Content::List(
                Seq::new(
                    items@.len(),
                    |i: int|
                        if 0 <= i < items@.len() {
                            items@[i]@
                        } else {
                            Content::Float
                        },
                ),
            ),
            Node::Table(entries) => Content::Table(
                Seq::new(
                    entries@.len(),
                    |i: int|
                        if 0 <= i < entries@.len() {
                            Field { key: entries@[i].key@, value: entries@[i].value@ }
                        } else {
                            Field { key: Seq::empty(), value: Content::Float }
                        },
                ),
            ),
        }
    }
}

/// The value type of the `toml` crate, which the verifier knows by name
/// only.
#[verifier::external_type_specification]
#[verifier::external_body]
pub struct ExTomlValue(toml::Value);

/// What a value of the `toml` crate holds, with the magnitude of a float and
/// the fields of a date left out.
pub uninterp spec fn toml_content(value: toml::Value) -> Content;

/// The document that the `toml` crate reads out of a text, or `None` where
/// it rejects the text.
pub uninterp spec fn toml_document(text: Seq<char>) -> Option<Content>;

/// Calls `toml::from_str` for a `toml::Value`. Nothing is proved of the
/// parser: the contract only gives its outcome a name, so that the same text
/// always stands for the same document, and turns its error into text.
#[verifier::external_body]
fn parse_toml(text: &str) -> (parsed: Result<toml::Value, String>)
    ensures
        match parsed {
            Ok(value) => toml_document(text@) == Some(toml_content(value)),
            Err(_) => toml_document(text@) is None,
        },
{
    match toml::from_str::<toml::Value>(text) {
        Ok(value) => Ok(value),
        Err(error) => Err(error.to_string()),
    }
}

/// Rebuilds a `toml::Value` as a [`Node`], variant by variant. Strings,
/// integers and booleans are moved over, the items of an array and the
/// entries of a table keep the order in which `toml` hands them out, and a
/// float or a date keeps only its kind.
#[verifier::external_body]
fn node_of(value: toml::Value) -> (own: Node)
    ensures
        own@ == toml_content(value),
{
    match value {
        toml::Value::String(text) => Node::Text(text),
        toml::Value::Integer(number) => Node::Integer(number),
        toml::Value::Float(_) => Node::Float,
        toml::Value::Boolean(flag) => Node::Boolean(flag),
        toml::Value::Datetime(_) => Node::Datetime,
        toml::Value::Array(items) => Node::List(items.into_iter().map(node_of).collect()),
        toml::Value::Table(table) => Node::Table(
            table.into_iter().map(|(key, item)| Entry { key, value: node_of(item) }).collect(),
        ),
    }
}

/// Reads a TOML text into a document.
///
/// Succeeds exactly on the texts that `toml` accepts, with the document it
/// reads out of them.
pub fn parse_document(text: &str) -> (parsed: Result<Node, Error>)
    ensures
        match parsed {
            Ok(document) => toml_document(text@) == Some(document@),
            Err(error) => toml_document(text@) is None && error is ConfigParse,
        },
{
    match parse_toml(text) {
        Ok(value) => Ok(node_of(value)),
        Err(reason) => Err(Error::ConfigParse(reason)),
    }
}

/// The items of a list, each as its content.
pub open spec fn item_contents(items: Seq<Node>) -> Seq<Content> {
    Seq::new(items.len(), |i: int| items[i]@)
}

/// The entries of a table, each as its key's characters and its value's
/// content.
pub open spec fn contents(entries: Seq<Entry>) -> Seq<Field> {
    Seq::new(entries.len(), |i: int| Field { key: entries[i].key@, value: entries[i].value@ })
}

/// A table's content is that of its entries, one by one.
pub proof fn lemma_table_content(entries: Vec<Entry>)
    ensures
        Node::Table(entries)@ == Content::Table(contents(entries@)),
{
    let content = Node::Table(entries)@->Table_0;
    assert(content =~= contents(entries@));
}

/// A list's content is that of its items, one by one.
pub proof fn lemma_list_content(items: Vec<Node>)
    ensures
        Node::List(items)@ == Content::List(item_contents(items@)),
{
    assert(Node::List(items)@->List_0 =~= item_contents(items@));
}

/// The value that a table's entries give to `key`: that of the last entry
/// under that key, as a later entry overrides an earlier one.
pub open spec fn lookup(entries: Seq<Field>, key: Seq<char>) -> Option<Content>
    decreases entries.len(),
{
    if entries.len() == 0 {
        None
    } else if entries.last().key == key {
        Some(entries.last().value)
    } else {
        lookup(entries.drop_last(), key)
    }
}

/// Looks `key` up among the entries of a table.
pub fn find<'a>(entries: &'a Vec<Entry>, key: &str) -> (found: Option<&'a Node>)
    ensures
        match found {
            Some(value) => lookup(contents(entries@), key@) == Some(value@),
            None => lookup(contents(entries@), key@) is None,
        },
{
    let mut found: Option<&'a Node> = None;
    let mut i: usize = 0;
    while i < entries.len()
        invariant
            i <= entries@.len(),
            match found {
                Some(value) => lookup(contents(entries@).take(i as int), key@) == Some(value@),
                None => lookup(contents(entries@).take(i as int), key@) is None,
            },
        decreases entries@.len() - i,
    {
        proof {
            let all = contents(entries@);
            assert(all.take(i + 1).drop_last() == all.take(i as int));
            assert(all.take(i + 1).last() == all[i as int]);
        }
        if same(entries[i].key.as_str(), key) {
            found = Some(&entries[i].value);
        }
        i += 1;
    }
    proof {
        assert(contents(entries@).take(entries@.len() as int) == contents(entries@));
    }
    found
}

} // verus!
