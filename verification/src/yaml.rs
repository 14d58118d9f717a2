//! The list of enabled language extensions, as a YAML file declares it.

use crate::hashing::fingerprint_texts;
use crate::hashing::utf8_of;
use crate::hashing::xxh3_64;
use crate::text::utf8_text;
use saphyr::LoadableYamlNode;
use saphyr::Scalar;
use saphyr::Yaml;
use vstd::prelude::*;
use vstd::string::StringExecFns;
use vstd::utf8::decode_utf8;
use vstd::utf8::valid_utf8;

verus! {

#[verifier::external_type_specification]
#[verifier::external_body]
pub struct ExYaml<'input>(Yaml<'input>);

/// A node of a YAML document, as far as this crate reads it: strings,
/// sequences and mappings; every other node is `Other`.
pub enum YamlNode {
    Text(String),
    Sequence(Vec<YamlNode>),
    Mapping(Vec<(YamlNode, YamlNode)>),
    Other,
}

/// The documents that a text holds, read as YAML; nothing where it is not
/// YAML.
pub uninterp spec fn yaml_documents(text: Seq<char>) -> Option<Seq<YamlNode>>;

/// Copies a node of `saphyr`: a string scalar, a sequence, a mapping in the
/// order of the document, and `Other` for any other node.
#[verifier::external_body]
fn yaml_node(yaml: &Yaml) -> YamlNode {
    match yaml {
        Yaml::Value(Scalar::String(text)) => YamlNode::Text(text.to_string()),
        Yaml::Sequence(items) => YamlNode::Sequence(items.iter().map(yaml_node).collect()),
        Yaml::Mapping(entries) => YamlNode::Mapping(
            entries.iter().map(|(key, value)| (yaml_node(key), yaml_node(value))).collect(),
        ),
        _ => YamlNode::Other,
    }
}

/// `Yaml::load_from_str`: every document of the text, or nothing where the
/// text is not YAML.
#[verifier::external_body]
pub(crate) fn load_yaml(text: &str) -> (docs: Option<Vec<YamlNode>>)
    ensures
        docs is Some <==> yaml_documents(text@) is Some,
        docs matches Some(d) ==> yaml_documents(text@) == Some(d@),
{
    match Yaml::load_from_str(text) {
        Ok(docs) => Some(docs.iter().map(yaml_node).collect()),
        Err(_) => None,
    }
}

/// The key under which the extensions are listed.
pub const EXTENSIONS_KEY: &'static str = "default-extensions";

/// Why a file does not give a list of extensions.
#[derive(Clone, Copy, PartialEq, Eq, Structural, Debug)]
pub enum ExtensionsError {
    /// The file is not UTF-8.
    InvalidUtf8,
    /// The file is not YAML.
    InvalidYaml,
    /// The file holds no document.
    MissingDocument,
    /// The first document is no mapping with the key.
    MissingKey,
    /// What the key leads to is no sequence.
    NotSequence,
    /// An item of the sequence is no string.
    NotString,
}

/// The value of the first entry of a mapping whose key is the string `key`.
pub open spec fn mapping_get(entries: Seq<(YamlNode, YamlNode)>, key: Seq<char>) -> Option<
    YamlNode,
>
    decreases entries.len(),
{
    if entries.len() == 0 {
        None
    } else if entries[0].0 matches YamlNode::Text(k) && k@ == key {
        Some(entries[0].1)
    } else {
        mapping_get(entries.drop_first(), key)
    }
}

/// Whether every node is a string.
pub open spec fn all_text(items: Seq<YamlNode>) -> bool {
    forall|i: int| 0 <= i < items.len() ==> (#[trigger] items[i]) is Text
}

/// The strings of a sequence of string nodes.
pub open spec fn texts_of(items: Seq<YamlNode>) -> Seq<Seq<char>> {
    Seq::new(
        items.len(),
        |i: int|
            match items[i] {
                YamlNode::Text(text) => text@,
                _ => Seq::empty(),
            },
    )
}

/// The extensions that a list of documents declares: the strings of the
/// sequence under the key in the first document.
pub open spec fn extensions_of(docs: Seq<YamlNode>) -> Result<Seq<Seq<char>>, ExtensionsError> {
    if docs.len() == 0 {
        Err(ExtensionsError::MissingDocument)
    } else {
        match docs[0] {
            YamlNode::Mapping(entries) => match mapping_get(entries@, EXTENSIONS_KEY@) {
                Some(YamlNode::Sequence(items)) => if all_text(items@) {
                    Ok(texts_of(items@))
                } else {
                    Err(ExtensionsError::NotString)
                },
                Some(_) => Err(ExtensionsError::NotSequence),
                None => Err(ExtensionsError::MissingKey),
            },
            _ => Err(ExtensionsError::MissingKey),
        }
    }
}

fn find_entry<'a>(entries: &'a Vec<(YamlNode, YamlNode)>, key: &str) -> (value: Option<
    &'a YamlNode,
>)
    ensures
        value is Some <==> mapping_get(entries@, key@) is Some,
        value matches Some(v) ==> mapping_get(entries@, key@) == Some(*v),
{
    let mut i: usize = 0;
    assert(entries@.skip(0) =~= entries@);
    while i < entries.len()
        invariant
            i <= entries@.len(),
            mapping_get(entries@, key@) == mapping_get(entries@.skip(i as int), key@),
        decreases entries@.len() - i,
    {
        let ghost rest = entries@.skip(i as int);
        assert(rest[0] == entries@[i as int]);
        assert(rest.drop_first() =~= entries@.skip(i + 1));
        match &entries[i].0 {
            YamlNode::Text(k) => {
                if crate::text::str_eq(k.as_str(), key) {
                    return Some(&entries[i].1);
                }
            },
            _ => {},
        }
        i += 1;
    }
    None
}

/// The extensions that a list of documents declares.
pub fn default_extensions(docs: &Vec<YamlNode>) -> (result: Result<Vec<String>, ExtensionsError>)
    ensures
        match extensions_of(docs@) {
            Ok(list) => result matches Ok(found) && found.deep_view() == list,
            Err(err) => result == Err::<Vec<String>, ExtensionsError>(err),
        },
{
    if docs.len() == 0 {
        return Err(ExtensionsError::MissingDocument);
    }
    let entries = match &docs[0] {
        YamlNode::Mapping(entries) => entries,
        _ => {
            return Err(ExtensionsError::MissingKey);
        },
    };
    let items = match find_entry(entries, EXTENSIONS_KEY) {
        Some(YamlNode::Sequence(items)) => items,
        Some(_) => {
            return Err(ExtensionsError::NotSequence);
        },
        None => {
            return Err(ExtensionsError::MissingKey);
        },
    };
    let mut found: Vec<String> = Vec::new();
    let mut i: usize = 0;
    assert(found.deep_view() =~= texts_of(items@.take(0)));
    while i < items.len()
        invariant
            i <= items@.len(),
            all_text(items@.take(i as int)),
            found.deep_view() == texts_of(items@.take(i as int)),
            extensions_of(docs@) == if all_text(items@) {
                Ok::<Seq<Seq<char>>, ExtensionsError>(texts_of(items@))
            } else {
                Err::<Seq<Seq<char>>, ExtensionsError>(ExtensionsError::NotString)
            },
        decreases items@.len() - i,
    {
        let ghost before = found.deep_view();
        match &items[i] {
            YamlNode::Text(text) => {
                found.push(String::from_str(text.as_str()));
                assert(found.deep_view() =~= before.push(text@));
            },
            _ => {
                assert(!(items@[i as int] is Text));
                return Err(ExtensionsError::NotString);
            },
        }
        assert(found.deep_view() =~= texts_of(items@.take(i + 1))) by {
            assert forall|k: int| 0 <= k < i + 1 implies found.deep_view()[k] == texts_of(
                items@.take(i + 1),
            )[k] by {
                if k < i {
                    assert(before[k] == texts_of(items@.take(i as int))[k]);
                    assert(items@.take(i as int)[k] == items@.take(i + 1)[k]);
                }
            }
        }
        assert(all_text(items@.take(i + 1))) by {
            assert forall|k: int| 0 <= k < i + 1 implies (#[trigger] items@.take(i + 1)[k])
                is Text by {
                if k < i {
                    assert(items@.take(i as int)[k] is Text);
                }
            }
        }
        i += 1;
    }
    assert(items@.take(i as int) =~= items@);
    Ok(found)
}

/// What a file of extensions gives: the list and its fingerprint, or the
/// reason why it gives none.
pub open spec fn extensions_outcome(bytes: Seq<u8>) -> Result<
    (Seq<Seq<char>>, u64),
    ExtensionsError,
> {
    if !valid_utf8(bytes) {
        Err(ExtensionsError::InvalidUtf8)
    } else {
        match yaml_documents(decode_utf8(bytes)) {
            None => Err(ExtensionsError::InvalidYaml),
            Some(docs) => match extensions_of(docs) {
                Ok(list) => Ok((list, xxh3_64(utf8_of(list)))),
                Err(err) => Err(err),
            },
        }
    }
}

/// Reads the list of extensions from the bytes of the file that declares
/// them, and fingerprints the list: the hash of the names, put end to end.
pub fn read_extensions(bytes: &[u8]) -> (result: Result<(Vec<String>, u64), ExtensionsError>)
    ensures
        match extensions_outcome(bytes@) {
            Ok((list, hash)) => result matches Ok((found, digest)) && found.deep_view() == list
                && digest == hash,
            Err(err) => result == Err::<(Vec<String>, u64), ExtensionsError>(err),
        },
{
    let text = match utf8_text(bytes) {
        Some(text) => text,
        None => {
            return Err(ExtensionsError::InvalidUtf8);
        },
    };
    let docs = match load_yaml(text) {
        Some(docs) => docs,
        None => {
            return Err(ExtensionsError::InvalidYaml);
        },
    };
    match default_extensions(&docs) {
        Ok(list) => {
            let digest = fingerprint_texts(&list);
            Ok((list, digest))
        },
        Err(err) => Err(err),
    }
}

} // verus!
