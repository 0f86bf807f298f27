//! Reading a TOML document with the toml crate.
//!
//! A value read here keeps beside the toml crate's own value what it stands
//! for: the text of the document it comes from and, below the top level,
//! the key it sits under. Only the functions of this module make such
//! values, so that record always describes the value it sits beside.
use vstd::prelude::*;

verus! {

#[verifier::external_type_specification]
#[verifier::external_body]
pub struct ExTomlValue(toml::Value);

#[verifier::external_type_specification]
#[verifier::external_body]
pub struct ExTomlError(toml::de::Error);

/// Whether `toml::from_str` reads `text` as a TOML document.
pub uninterp spec fn spec_toml_parses(text: Seq<char>) -> bool;

/// Whether the top-level table of the TOML document `text` has the key
/// `key`.
pub uninterp spec fn spec_toml_has_key(text: Seq<char>, key: Seq<char>) -> bool;

/// The number of items of the value under `key` in the TOML document
/// `text`, where that value is an array; `None` for any other value.
pub uninterp spec fn spec_toml_array_len(text: Seq<char>, key: Seq<char>) -> Option<nat>;

/// The bytes of the item at `index` of the array under `key` in the TOML
/// document `text`, where that item is a string; `None` for any other item.
pub uninterp spec fn spec_toml_item_str(text: Seq<char>, key: Seq<char>, index: nat) -> Option<
    Seq<u8>,
>;

/// A TOML document, read from a text.
pub(crate) struct TomlDoc {
    value: toml::Value,
    text: Ghost<Seq<char>>,
}

/// The value under a key of the top-level table of a TOML document.
pub(crate) struct TomlEntry<'d> {
    value: &'d toml::Value,
    text: Ghost<Seq<char>>,
    key: Ghost<Seq<char>>,
}

/// The items of an array under a key of the top-level table of a TOML
/// document.
pub(crate) struct TomlArray<'d> {
    items: &'d Vec<toml::Value>,
    text: Ghost<Seq<char>>,
    key: Ghost<Seq<char>>,
}

impl TomlDoc {
    /// The text the document was read from.
    pub closed spec fn spec_text(&self) -> Seq<char> {
        self.text@
    }
}

impl<'d> TomlEntry<'d> {
    /// The text of the document.
    pub closed spec fn spec_text(&self) -> Seq<char> {
        self.text@
    }

    /// The key the value sits under.
    pub closed spec fn spec_key(&self) -> Seq<char> {
        self.key@
    }
}

impl<'d> TomlArray<'d> {
    /// The text of the document.
    pub closed spec fn spec_text(&self) -> Seq<char> {
        self.text@
    }

    /// The key the array sits under.
    pub closed spec fn spec_key(&self) -> Seq<char> {
        self.key@
    }

    /// The number of items.
    pub closed spec fn spec_len(&self) -> nat {
        self.items@.len()
    }

    /// The number of items.
    pub(crate) fn len(&self) -> (r: usize)
        ensures
            r == self.spec_len(),
    {
        self.items.len()
    }
}

/// `toml::from_str` into a `toml::Value`: the document, where the text is
/// TOML ([`spec_toml_parses`]), or the parser's error.
#[verifier::external_body]
pub(crate) fn toml_parse(text: &str) -> (r: Result<TomlDoc, toml::de::Error>)
    ensures
        r is Ok <==> spec_toml_parses(text@),
        r matches Ok(d) ==> d.spec_text() == text@,
{
    match toml::from_str::<toml::Value>(text) {
        Ok(value) => Ok(TomlDoc { value, text: Ghost(text@) }),
        Err(e) => Err(e),
    }
}

/// `toml::Value::get` on a document with a key: the value under that key
/// of the top-level table, where it has the key ([`spec_toml_has_key`]).
#[verifier::external_body]
pub(crate) fn toml_get<'d>(doc: &'d TomlDoc, key: &str) -> (r: Option<TomlEntry<'d>>)
    ensures
        r is Some <==> spec_toml_has_key(doc.spec_text(), key@),
        r matches Some(e) ==> e.spec_text() == doc.spec_text() && e.spec_key() == key@,
{
    match doc.value.get(key) {
        Some(value) => Some(TomlEntry { value, text: Ghost(doc.text@), key: Ghost(key@) }),
        None => None,
    }
}

/// `toml::Value::as_array`: the items of the value, where it is an array
/// ([`spec_toml_array_len`] gives their number).
#[verifier::external_body]
pub(crate) fn toml_as_array<'d>(entry: &TomlEntry<'d>) -> (r: Option<TomlArray<'d>>)
    ensures
        r is Some <==> spec_toml_array_len(entry.spec_text(), entry.spec_key()) is Some,
        r matches Some(a) ==> a.spec_text() == entry.spec_text() && a.spec_key()
            == entry.spec_key() && spec_toml_array_len(entry.spec_text(), entry.spec_key())
            == Some(a.spec_len()),
{
    match entry.value.as_array() {
        Some(items) => Some(TomlArray { items, text: Ghost(entry.text@), key: Ghost(entry.key@) }),
        None => None,
    }
}

/// `toml::Value::as_str` on an item of an array: its bytes, where it is a
/// string, as [`spec_toml_item_str`] names them.
#[verifier::external_body]
pub(crate) fn toml_item_str(array: &TomlArray, index: usize) -> (r: Option<Vec<u8>>)
    requires
        index < array.spec_len(),
    ensures
        spec_toml_item_str(array.spec_text(), array.spec_key(), index as nat) == match r {
            Some(v) => Some(v@),
            None => None::<Seq<u8>>,
        },
{
    array.items[index].as_str().map(|s| s.as_bytes().to_vec())
}

} // verus!
