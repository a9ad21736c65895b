//! Named presets of hardware events, read from configuration text.

use crate::document::{keys, texts, toml_document, Node};
use crate::error::{ErrorKind, ErrorView};
use vstd::prelude::*;
use vstd::string::StringExecFns;

verus! {

/// Presets by name: each name with the events of its preset, in order.
pub type Presets = Map<Seq<char>, Seq<Seq<char>>>;

/// The presets that a list of named event lists defines. Where a name occurs
/// more than once, its first entry counts.
pub open spec fn preset_map(entries: Seq<(String, Vec<String>)>) -> Presets {
    Map::new(
        |name: Seq<char>| keys(entries).contains(name),
        |name: Seq<char>| texts(entries[keys(entries).index_of_first(name)->0].1@),
    )
}

/// The presets that the entries of a `presets` table define, where each of
/// them holds an array of strings.
pub open spec fn table_presets(entries: Seq<(String, Node)>) -> Presets {
    Map::new(
        |name: Seq<char>| keys(entries).contains(name),
        |name: Seq<char>| entries[keys(entries).index_of_first(name)->0].1.string_items()->0,
    )
}

/// Whether entry `i` is the first that does not hold an array of strings.
pub open spec fn is_first_invalid(entries: Seq<(String, Node)>, i: int) -> bool {
    &&& 0 <= i < entries.len()
    &&& entries[i].1.string_items() is None
    &&& forall|j: int| 0 <= j < i ==> (#[trigger] entries[j]).1.string_items() is Some
}

/// The diagnostic for a document that is not a table.
pub open spec fn not_a_table() -> Seq<char> {
    "configuration: expected a table"@
}

/// The diagnostic for a `presets` entry that is not a table.
pub open spec fn presets_not_a_table() -> Seq<char> {
    "presets: expected a table"@
}

/// The diagnostic for the preset `name` that is not an array of strings.
pub open spec fn preset_not_strings(name: Seq<char>) -> Seq<char> {
    "presets."@ + name + ": expected an array of strings"@
}

/// A document without an entry `presets` is a configuration without presets,
/// and no error. An empty document is one.
pub proof fn lemma_absent_presets(document: Node)
    requires
        document matches Node::Table(entries) && !keys(entries@).contains("presets"@),
    ensures
        Config::of_document(document) == Ok::<Option<Presets>, ErrorView>(None),
{
    keys(document->Table_0@).index_of_first_ensures("presets"@);
}

/// Among entries of which one does not hold an array of strings, one is the
/// first such.
proof fn lemma_first_invalid_exists(entries: Seq<(String, Node)>, k: int)
    requires
        0 <= k < entries.len(),
        entries[k].1.string_items() is None,
    ensures
        exists|i: int| is_first_invalid(entries, i),
    decreases k,
{
    if exists|j: int| 0 <= j < k && (#[trigger] entries[j]).1.string_items() is None {
        let j = choose|j: int| 0 <= j < k && (#[trigger] entries[j]).1.string_items() is None;
        lemma_first_invalid_exists(entries, j);
    } else {
        assert(is_first_invalid(entries, k));
    }
}

/// A `presets` table is read as a whole or not at all: it gives a
/// configuration if every one of its entries holds an array of strings, and
/// an error if any does not.
pub proof fn lemma_presets_all_or_nothing(document: Node, presets: Vec<(String, Node)>)
    requires
        document is Table,
        document.entry("presets"@) == Some(Node::Table(presets)),
    ensures
        Config::of_document(document) is Ok <==> forall|i: int|
            0 <= i < presets@.len() ==> (#[trigger] presets@[i]).1.string_items() is Some,
        Config::of_document(document) is Ok ==> Config::of_document(document) == Ok::<
            Option<Presets>,
            ErrorView,
        >(Some(table_presets(presets@))),
{
    if exists|k: int| 0 <= k < presets@.len() && (#[trigger] presets@[k]).1.string_items() is None {
        let k = choose|k: int|
            0 <= k < presets@.len() && (#[trigger] presets@[k]).1.string_items() is None;
        lemma_first_invalid_exists(presets@, k);
    }
}

/// A configuration: optionally, presets of hardware events by name.
///
/// Its view is `None` where the configuration has no presets section, and
/// otherwise the map from each preset's name to its events in their order.
#[derive(Debug)]
pub struct Config {
    presets: Option<Vec<(String, Vec<String>)>>,
}

impl View for Config {
    type V = Option<Presets>;

    closed spec fn view(&self) -> Option<Presets> {
        match self.presets {
            Some(entries) => Some(preset_map(entries@)),
            None => None,
        }
    }
}

/// The model of what reading a configuration gave: the configuration's
/// view, or the error's.
pub open spec fn outcome(result: Result<Config, ErrorKind>) -> Result<Option<Presets>, ErrorView> {
    match result {
        Ok(config) => Ok(config@),
        Err(error) => Err(error@),
    }
}

impl Config {
    /// The configuration that a document holds, or why it holds none.
    ///
    /// The document is a table. Without an entry `presets` it holds a
    /// configuration without presets. Otherwise `presets` is a table, and
    /// each of its entries an array of strings: the entry's key names the
    /// preset, the strings are its events. Everything else is an
    /// [`ErrorKind::InvalidArgument`]; among several entries of `presets`
    /// that are no arrays of strings, the diagnostic names the first.
    pub open spec fn of_document(document: Node) -> Result<Option<Presets>, ErrorView> {
        match document {
            Node::Table(_) => match document.entry("presets"@) {
                None => Ok(None),
                Some(Node::Table(presets)) => if exists|i: int| is_first_invalid(presets@, i) {
                    let i = choose|i: int| is_first_invalid(presets@, i);
                    Err(ErrorView::InvalidArgument(preset_not_strings(presets@[i].0@)))
                } else {
                    Ok(Some(table_presets(presets@)))
                },
                Some(_) => Err(ErrorView::InvalidArgument(presets_not_a_table())),
            },
            _ => Err(ErrorView::InvalidArgument(not_a_table())),
        }
    }

    /// The configuration that a parsed text holds: that of the document, or
    /// the parser's message as an [`ErrorKind::InvalidArgument`].
    pub open spec fn of_parsed(parsed: Result<Node, Seq<char>>) -> Result<
        Option<Presets>,
        ErrorView,
    > {
        match parsed {
            Ok(document) => Self::of_document(document),
            Err(message) => Err(ErrorView::InvalidArgument(message)),
        }
    }

    /// Reads the presets out of the entries of a `presets` table.
    fn from_presets(presets: &Vec<(String, Node)>) -> (result: Result<Config, ErrorKind>)
        ensures
            match result {
                Ok(config) => {
                    &&& forall|i: int| !is_first_invalid(presets@, i)
                    &&& config@ == Some(table_presets(presets@))
                },
                Err(error) => exists|i: int|
                    is_first_invalid(presets@, i) && error@ == ErrorView::InvalidArgument(
                        preset_not_strings(presets@[i].0@),
                    ),
            },
    {
        let mut entries: Vec<(String, Vec<String>)> = Vec::new();
        let mut i: usize = 0;
        while i < presets.len()
            invariant
                i <= presets.len(),
                entries@.len() == i,
                forall|j: int|
                    0 <= j < i ==> {
                        &&& (#[trigger] presets@[j]).0@ == entries@[j].0@
                        &&& presets@[j].1.string_items() == Some(texts(entries@[j].1@))
                    },
            decreases presets.len() - i,
        {
            match presets[i].1.to_strings() {
                Some(events) => entries.push((presets[i].0.clone(), events)),
                None => {
                    let mut message = String::from_str("presets.");
                    message.append(presets[i].0.as_str());
                    message.append(": expected an array of strings");
                    assert(is_first_invalid(presets@, i as int));
                    return Err(ErrorKind::InvalidArgument(message));
                },
            }
            i += 1;
        }
        proof {
            let names = keys(entries@);
            assert(names =~= keys(presets@));
            assert forall|name: Seq<char>| names.contains(name) implies #[trigger] preset_map(
                entries@,
            )[name] == table_presets(presets@)[name] by {
                names.index_of_first_ensures(name);
            }
        }
        Ok(Config { presets: Some(entries) })
    }

    /// Reads a configuration out of a document.
    pub fn from_document(document: &Node) -> (result: Result<Config, ErrorKind>)
        ensures
            outcome(result) == Self::of_document(*document),
    {
        match document {
            Node::Table(_) => {},
            _ => {
                return Err(
                    ErrorKind::InvalidArgument(
                        String::from_str("configuration: expected a table"),
                    ),
                );
            },
        }
        match document.get("presets") {
            None => Ok(Config { presets: None }),
            Some(Node::Table(presets)) => {
                Self::from_presets(presets)
            },
            Some(_) => Err(
                ErrorKind::InvalidArgument(String::from_str("presets: expected a table")),
            ),
        }
    }

    /// Reads a configuration out of text in TOML format.
    ///
    /// The text is parsed by the `toml` crate, whose outcome
    /// [`toml_document`] names; what becomes of that outcome is
    /// [`Config::of_parsed`].
    pub fn parse_str(config: &str) -> (result: Result<Config, ErrorKind>)
        ensures
            outcome(result) == Self::of_parsed(toml_document(config@)),
    {
        match Node::parse(config) {
            Ok(document) => Self::from_document(&document),
            Err(error) => Err(error),
        }
    }

    /// The presets in the order in which they were read, each with its name
    /// and its events; `None` where the configuration has no presets section.
    pub fn presets(&self) -> (presets: Option<&Vec<(String, Vec<String>)>>)
        ensures
            match presets {
                Some(entries) => self@ == Some(preset_map(entries@)),
                None => self@ is None,
            },
    {
        self.presets.as_ref()
    }

    /// The events of the preset `name`, in order; `None` where there is no
    /// such preset.
    pub fn preset(&self, name: &str) -> (events: Option<&Vec<String>>)
        ensures
            match events {
                Some(events) => {
                    &&& self@ is Some
                    &&& self@->0.dom().contains(name@)
                    &&& self@->0[name@] == texts(events@)
                },
                None => self@ is None || !self@->0.dom().contains(name@),
            },
    {
        let entries = match &self.presets {
            Some(entries) => entries,
            None => {
                return None;
            },
        };
        let wanted = String::from_str(name);
        let mut i: usize = 0;
        while i < entries.len()
            invariant
                self.presets == Some(*entries),
                i <= entries.len(),
                wanted@ == name@,
                forall|j: int| 0 <= j < i ==> keys(entries@)[j] != name@,
            decreases entries.len() - i,
        {
            if entries[i].0 == wanted {
                proof {
                    let names = keys(entries@);
                    assert(names[i as int] == name@);
                    names.index_of_first_ensures(name@);
                }
                return Some(&entries[i].1);
            }
            i += 1;
        }
        None
    }
}

} // verus!
