//! Configuration text as a tree of values, read with the `toml` crate.

use crate::error::{ErrorKind, ErrorView};
use vstd::prelude::*;
use vstd::string::StringExecFns;

verus! {

/// A value of a TOML document.
///
/// A table keeps its entries in a list; the value under a key is that of the
/// first entry with the key.
#[derive(Debug, PartialEq, Eq)]
pub enum Node {
    /// A string.
    String(String),
    /// An integer.
    Integer(i64),
    /// A floating-point number, held as the bits of its IEEE 754 encoding.
    Float(u64),
    /// A boolean.
    Boolean(bool),
    /// A date or time, in its textual form.
    Datetime(String),
    /// An array of values.
    Array(Vec<Node>),
    /// A table: keys with their values.
    Table(Vec<(String, Node)>),
}

/// What `toml::from_str` makes of `text`, read as a TOML document: the tree
/// of the document's root, or the message of the error.
pub uninterp spec fn toml_document(text: Seq<char>) -> Result<Node, Seq<char>>;

/// The tree that a `toml::Value` holds.
pub uninterp spec fn toml_tree(value: toml::Value) -> Node;

/// The `toml` crate's value, which the parser hands over and [`from_toml`]
/// takes apart; nothing inside it is visible here.
#[verifier::external_type_specification]
#[verifier::external_body]
pub struct ExTomlValue(toml::Value);

/// Reads `text` as a TOML document with `toml::from_str`, asking for a
/// `toml::Value`. An error is handed back as its `Display` text.
///
/// The contract claims only that the outcome is a function of the text, and
/// gives it the name [`toml_document`].
#[verifier::external_body]
fn parse_toml(text: &str) -> (parsed: Result<toml::Value, String>)
    ensures
        match parsed {
            Ok(root) => toml_document(text@) == Ok::<Node, Seq<char>>(toml_tree(root)),
            Err(message) => toml_document(text@) == Err::<Node, Seq<char>>(message@),
        },
{
    toml::from_str::<toml::Value>(text).map_err(|error| error.to_string())
}

/// Rewrites a `toml::Value` as a [`Node`], variant for variant: a float by
/// `f64::to_bits`, a datetime by its `Display` text, the items of an array
/// and the entries of a table each in the order in which the crate hands
/// them out.
///
/// The contract claims only that the result is a function of the value, and
/// gives it the name [`toml_tree`].
#[verifier::external_body]
fn from_toml(value: toml::Value) -> (node: Node)
    ensures
        node == toml_tree(value),
{
    match value {
        toml::Value::String(s) => Node::String(s),
        toml::Value::Integer(i) => Node::Integer(i),
        toml::Value::Float(f) => Node::Float(f.to_bits()),
        toml::Value::Boolean(b) => Node::Boolean(b),
        toml::Value::Datetime(d) => Node::Datetime(d.to_string()),
        toml::Value::Array(a) => Node::Array(a.into_iter().map(from_toml).collect()),
        toml::Value::Table(t) => Node::Table(
            t.into_iter().map(|(k, v)| (k, from_toml(v))).collect(),
        ),
    }
}

/// The texts of a list of strings.
pub open spec fn texts(strings: Seq<String>) -> Seq<Seq<char>> {
    Seq::new(strings.len(), |i: int| strings[i]@)
}

/// The keys of a list of entries, in order.
pub open spec fn keys<V>(entries: Seq<(String, V)>) -> Seq<Seq<char>> {
    Seq::new(entries.len(), |i: int| entries[i].0@)
}

impl Node {
    /// The value that a table holds under `key`; `None` if it holds none, or
    /// if `self` is not a table.
    pub open spec fn entry(self, key: Seq<char>) -> Option<Node> {
        match self {
            Node::Table(entries) => match keys(entries@).index_of_first(key) {
                Some(i) => Some(entries@[i].1),
                None => None,
            },
            _ => None,
        }
    }

    /// The texts of an array whose items are all strings, in order; `None`
    /// if `self` is anything else.
    pub open spec fn string_items(self) -> Option<Seq<Seq<char>>> {
        match self {
            Node::Array(items) => if forall|i: int| 0 <= i < items@.len() ==> items@[i] is String {
                Some(Seq::new(items@.len(), |i: int| items@[i]->String_0@))
            } else {
                None
            },
            _ => None,
        }
    }

    /// Reads text in TOML format: the root of the document, or the parser's
    /// message as an [`ErrorKind::InvalidArgument`].
    pub fn parse(text: &str) -> (result: Result<Node, ErrorKind>)
        ensures
            match result {
                Ok(document) => toml_document(text@) == Ok::<Node, Seq<char>>(document),
                Err(error) => toml_document(text@) matches Err(message) && error@
                    == ErrorView::InvalidArgument(message),
            },
    {
        match parse_toml(text) {
            Ok(root) => Ok(from_toml(root)),
            Err(message) => Err(ErrorKind::InvalidArgument(message)),
        }
    }

    /// Looks up `key` in a table.
    pub fn get(&self, key: &str) -> (found: Option<&Node>)
        ensures
            match found {
                Some(value) => self.entry(key@) == Some(*value),
                None => self.entry(key@) is None,
            },
    {
        match self {
            Node::Table(entries) => {
                let wanted = String::from_str(key);
                let mut i: usize = 0;
                while i < entries.len()
                    invariant
                        *self == Node::Table(*entries),
                        i <= entries.len(),
                        wanted@ == key@,
                        forall|j: int| 0 <= j < i ==> keys(entries@)[j] != key@,
                    decreases entries.len() - i,
                {
                    if entries[i].0 == wanted {
                        proof {
                            let names = keys(entries@);
                            assert(names[i as int] == key@);
                            names.index_of_first_ensures(key@);
                        }
                        return Some(&entries[i].1);
                    }
                    i += 1;
                }
                proof {
                    keys(entries@).index_of_first_ensures(key@);
                }
                None
            },
            _ => None,
        }
    }

    /// Copies the strings out of an array of strings.
    pub fn to_strings(&self) -> (strings: Option<Vec<String>>)
        ensures
            match strings {
                Some(list) => self.string_items() == Some(texts(list@)),
                None => self.string_items() is None,
            },
    {
        match self {
            Node::Array(items) => {
                let mut list: Vec<String> = Vec::new();
                let mut i: usize = 0;
                while i < items.len()
                    invariant
                        *self == Node::Array(*items),
                        i <= items.len(),
                        list@.len() == i,
                        forall|j: int| 0 <= j < i ==> items@[j] is String,
                        forall|j: int| 0 <= j < i ==> list@[j]@ == items@[j]->String_0@,
                    decreases items.len() - i,
                {
                    match &items[i] {
                        Node::String(s) => list.push(s.clone()),
                        _ => {
                            return None;
                        },
                    }
                    i += 1;
                }
                Some(list)
            },
            _ => None,
        }
    }
}

} // verus!
