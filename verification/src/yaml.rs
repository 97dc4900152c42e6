//! YAML nodes as configuration documents hold them, and the ways the configuration reads them.

use vstd::prelude::*;

use crate::text::str_eq;
use yaml_rust::Yaml as YamlNode;

verus! {

/// A node of a YAML document, as the YAML loader produces it. A mapping keeps its entries in
/// document order; the loader keeps one entry per key.
#[derive(Debug)]
pub enum Yaml {
    /// A floating-point number, kept as written.
    Real(String),
    Integer(i64),
    String(String),
    Boolean(bool),
    Array(Vec<Yaml>),
    Hash(Vec<(Yaml, Yaml)>),
    Alias(usize),
    Null,
    /// What indexing gives for a missing key.
    BadValue,
}

/// The value of the first entry whose key is the string `key`.
pub open spec fn yaml_lookup(entries: Seq<(Yaml, Yaml)>, key: Seq<char>) -> Option<Yaml>
    decreases entries.len(),
{
    if entries.len() == 0 {
        None
    } else if entries[0].0 matches Yaml::String(k) && k@ == key {
        Some(entries[0].1)
    } else {
        yaml_lookup(entries.drop_first(), key)
    }
}

/// The node under a string key of a mapping; `BadValue` when the node is no mapping or has no
/// such key.
pub open spec fn yaml_index(node: Yaml, key: Seq<char>) -> Yaml {
    match node {
        Yaml::Hash(entries) => match yaml_lookup(entries@, key) {
            Some(value) => value,
            None => Yaml::BadValue,
        },
        _ => Yaml::BadValue,
    }
}

/// The node reached by indexing with each key of `path` in turn.
pub open spec fn yaml_path(node: Yaml, path: Seq<Seq<char>>) -> Yaml
    decreases path.len(),
{
    if path.len() == 0 {
        node
    } else {
        yaml_path(yaml_index(node, path[0]), path.drop_first())
    }
}

/// The text of a string node.
pub open spec fn yaml_str(node: Yaml) -> Option<Seq<char>> {
    match node {
        Yaml::String(s) => Some(s@),
        _ => None,
    }
}

/// The value of an integer node.
pub open spec fn yaml_i64(node: Yaml) -> Option<i64> {
    match node {
        Yaml::Integer(i) => Some(i),
        _ => None,
    }
}

/// The node an optional reference stands for: a missing node is `BadValue`.
pub open spec fn node_of(node: Option<&Yaml>) -> Yaml {
    match node {
        Some(n) => *n,
        None => Yaml::BadValue,
    }
}

/// The items of a sequence node, or nothing for another node.
pub open spec fn yaml_items(node: Yaml) -> Option<Seq<Yaml>> {
    match node {
        Yaml::Array(items) => Some(items@),
        _ => None,
    }
}

/// The results of `f` on the items that start a sequence, up to its first item for which `f`
/// gives nothing.
pub open spec fn leading<B>(items: Seq<Yaml>, f: spec_fn(Yaml) -> Option<B>) -> Seq<B>
    decreases items.len(),
{
    if items.len() == 0 {
        Seq::empty()
    } else {
        match f(items[0]) {
            Some(b) => seq![b] + leading(items.drop_first(), f),
            None => Seq::empty(),
        }
    }
}

/// Reading the leading results of a sequence item by item.
pub proof fn lemma_leading<B>(items: Seq<Yaml>, f: spec_fn(Yaml) -> Option<B>, i: int)
    requires
        0 <= i <= items.len(),
        forall|k: int| 0 <= k < i ==> f(#[trigger] items[k]) is Some,
    ensures
        leading(items, f) == items.take(i).map_values(|n: Yaml| f(n)->0) + leading(
            items.skip(i),
            f,
        ),
    decreases i,
{
    if i == 0 {
        assert(items.skip(0) =~= items);
        assert(items.take(0).map_values(|n: Yaml| f(n)->0) =~= Seq::<B>::empty());
    } else {
        let rest = items.drop_first();
        assert forall|k: int| 0 <= k < i - 1 implies f(#[trigger] rest[k]) is Some by {
            assert(rest[k] == items[k + 1]);
        }
        lemma_leading(rest, f, i - 1);
        assert(rest.skip(i - 1) =~= items.skip(i));
        assert(items.take(i).map_values(|n: Yaml| f(n)->0) =~= seq![f(items[0])->0] + rest.take(
            i - 1,
        ).map_values(|n: Yaml| f(n)->0));
    }
}

/// The leading results once an item gives nothing or the items end.
pub proof fn lemma_leading_end<B>(items: Seq<Yaml>, f: spec_fn(Yaml) -> Option<B>, i: int)
    requires
        0 <= i <= items.len(),
        forall|k: int| 0 <= k < i ==> f(#[trigger] items[k]) is Some,
        i == items.len() || f(items[i]) is None,
    ensures
        leading(items, f) == items.take(i).map_values(|n: Yaml| f(n)->0),
{
    lemma_leading(items, f, i);
    if i < items.len() {
        assert(items.skip(i)[0] == items[i]);
    }
    assert(items.take(i).map_values(|n: Yaml| f(n)->0) + Seq::<B>::empty() =~= items.take(
        i,
    ).map_values(|n: Yaml| f(n)->0));
}

/// The text of a string node, as a function to read leading strings with.
pub open spec fn string_text() -> spec_fn(Yaml) -> Option<Seq<char>> {
    |node: Yaml| yaml_str(node)
}

impl Yaml {
    /// Returns the node under `key` if this is a mapping with an entry for it.
    pub fn get(&self, key: &str) -> (result: Option<&Yaml>)
        ensures
            node_of(result) == yaml_index(*self, key@),
            result is Some ==> yaml_lookup(self->Hash_0@, key@) is Some,
    {
        match self {
            Yaml::Hash(entries) => {
                let mut i: usize = 0;
                assert(entries@.skip(0) =~= entries@);
                while i < entries.len()
                    invariant
                        i <= entries.len(),
                        *self == Yaml::Hash(*entries),
                        yaml_lookup(entries@, key@) == yaml_lookup(entries@.skip(i as int), key@),
                    decreases entries.len() - i,
                {
                    proof {
                        let rest = entries@.skip(i as int);
                        assert(rest.drop_first() =~= entries@.skip(i + 1));
                        assert(rest[0] == entries@[i as int]);
                    }
                    let entry = &entries[i];
                    if let Yaml::String(k) = &entry.0 {
                        if str_eq(k.as_str(), key) {
                            assert(yaml_lookup(entries@.skip(i as int), key@) == Some(entry.1));
                            return Some(&entry.1);
                        }
                    }
                    i = i + 1;
                }
                None
            },
            _ => None,
        }
    }
}

/// Indexes an optional node by a string key, a missing node staying missing.
pub fn index<'a>(node: Option<&'a Yaml>, key: &str) -> (result: Option<&'a Yaml>)
    ensures
        node_of(result) == yaml_index(node_of(node), key@),
{
    match node {
        Some(n) => n.get(key),
        None => None,
    }
}

/// The text of an optional node if it is a string.
pub fn as_str<'a>(node: Option<&'a Yaml>) -> (result: Option<&'a String>)
    ensures
        match yaml_str(node_of(node)) {
            Some(s) => result is Some && result->0@ == s,
            None => result is None,
        },
{
    match node {
        Some(Yaml::String(s)) => Some(s),
        _ => None,
    }
}

/// The value of an optional node if it is an integer.
pub fn as_i64(node: Option<&Yaml>) -> (result: Option<i64>)
    ensures
        result == yaml_i64(node_of(node)),
{
    match node {
        Some(Yaml::Integer(i)) => Some(*i),
        _ => None,
    }
}

/// The items of an optional node if it is a sequence.
pub fn as_vec<'a>(node: Option<&'a Yaml>) -> (result: Option<&'a Vec<Yaml>>)
    ensures
        match yaml_items(node_of(node)) {
            Some(items) => result is Some && result->0@ == items,
            None => result is None,
        },
{
    match node {
        Some(Yaml::Array(items)) => Some(items),
        _ => None,
    }
}

/// A YAML node of `yaml_rust`, carried through the conversion into the library's nodes.
#[verifier::external_type_specification]
#[verifier::external_body]
pub struct ExOutsideYaml(YamlNode);

/// The documents that `yaml_rust::YamlLoader::load_from_str` reads from a text, in order and
/// converted node for node, or the message of the scanner error it reports.
pub uninterp spec fn yaml_documents(text: Seq<char>) -> Result<Seq<Yaml>, Seq<char>>;

/// Converts a node of `yaml_rust` into the library's node, variant for variant, keeping the
/// entries of a mapping in document order. Nothing is claimed of it on its own: what the
/// conversion gives is part of what `parse_yaml` names.
#[verifier::external_body]
fn yaml_node(node: &YamlNode) -> (result: Yaml) {
    match node {
        YamlNode::Real(text) => Yaml::Real(text.clone()),
        YamlNode::Integer(value) => Yaml::Integer(*value),
        YamlNode::String(text) => Yaml::String(text.clone()),
        YamlNode::Boolean(value) => Yaml::Boolean(*value),
        YamlNode::Array(items) => Yaml::Array(items.iter().map(yaml_node).collect()),
        YamlNode::Hash(entries) => Yaml::Hash(
            entries.iter().map(|(key, value)| (yaml_node(key), yaml_node(value))).collect(),
        ),
        YamlNode::Alias(index) => Yaml::Alias(*index),
        YamlNode::Null => Yaml::Null,
        YamlNode::BadValue => Yaml::BadValue,
    }
}

/// Parses a text into YAML documents with `yaml_rust::YamlLoader::load_from_str`. The result is
/// what `yaml_documents` names for the text: the documents, converted into the library's nodes,
/// or the description of the scanner error. The YAML grammar itself is not stated.
#[verifier::external_body]
#[allow(deprecated)]
pub fn parse_yaml(text: &str) -> (result: Result<Vec<Yaml>, String>)
    ensures
        match yaml_documents(text@) {
            Ok(documents) => result is Ok && result->Ok_0@ == documents,
            Err(message) => result is Err && result->Err_0@ == message,
        },
{
    match yaml_rust::YamlLoader::load_from_str(text) {
        Ok(documents) => Ok(documents.iter().map(yaml_node).collect()),
        Err(error) => Err(std::error::Error::description(&error).to_string()),
    }
}

} // verus!
