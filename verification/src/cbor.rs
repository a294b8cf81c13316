//! CBOR data items as plain trees, decoded by the `serde_cbor` crate.
//!
//! The crate decodes the bytes; this module walks the tree that the crate
//! hands back, one level at a time, and rebuilds it as a [`CborValue`]. The
//! contracts speak of three named results: [`cbor_decoding`], the tree of the
//! item that a byte string encodes, and [`cbor_content`] and [`cbor_depth`],
//! the tree and the nesting depth of a value of the crate.

use crate::codec::text_equal;
use crate::error::CodecError;
use vstd::prelude::*;

verus! {

#[verifier::external_type_specification]
#[verifier::external_body]
pub struct ExCborItem(serde_cbor::Value);

#[verifier::external_type_specification]
#[verifier::external_body]
pub struct ExCborError(serde_cbor::Error);

/// A CBOR data item.
#[derive(Debug)]
pub enum CborValue {
    /// Null or undefined.
    Null,
    Bool(bool),
    Integer(i128),
    /// A floating-point number, held as the bit pattern of its IEEE 754
    /// binary64 value.
    Float(u64),
    Bytes(Vec<u8>),
    Text(String),
    Array(Vec<CborValue>),
    /// The entries of a CBOR map, key before value.
    Dictionary(Vec<(CborValue, CborValue)>),
    Tag(u64, Box<CborValue>),
}

/// Mathematical content of a [`CborValue`].
pub enum CborModel {
    Null,
    Bool(bool),
    Integer(int),
    Float(u64),
    Bytes(Seq<u8>),
    Text(Seq<char>),
    Array(Seq<CborModel>),
    Dictionary(Seq<(CborModel, CborModel)>),
    Tag(u64, Box<CborModel>),
}

/// The mathematical content of an item: strings as sequences, arrays and
/// maps as sequences of the contents of their parts.
pub open spec fn cbor_model(value: CborValue) -> CborModel
    decreases value,
{
    match value {
        CborValue::Null => CborModel::Null,
        CborValue::Bool(b) => CborModel::Bool(b),
        CborValue::Integer(n) => CborModel::Integer(n as int),
        CborValue::Float(bits) => CborModel::Float(bits),
        CborValue::Bytes(bytes) => CborModel::Bytes(bytes@),
        CborValue::Text(text) => CborModel::Text(text@),
        CborValue::Array(items) => CborModel::Array(
            Seq::new(
                items@.len(),
                |i: int|
                    if 0 <= i < items@.len() {
                        cbor_model(items@[i])
                    } else {
                        CborModel::Null
                    },
            ),
        ),
        CborValue::Dictionary(entries) => CborModel::Dictionary(
            Seq::new(
                entries@.len(),
                |i: int|
                    if 0 <= i < entries@.len() {
                        (cbor_model(entries@[i].0), cbor_model(entries@[i].1))
                    } else {
                        (CborModel::Null, CborModel::Null)
                    },
            ),
        ),
        CborValue::Tag(tag, inner) => CborModel::Tag(tag, Box::new(cbor_model(*inner))),
    }
}

impl View for CborValue {
    type V = CborModel;

    open spec fn view(&self) -> CborModel {
        cbor_model(*self)
    }
}

/// The contents of a sequence of items, item by item.
pub open spec fn cbor_items_model(items: Seq<CborValue>) -> Seq<CborModel> {
    Seq::new(items.len(), |i: int| items[i]@)
}

/// The contents of a sequence of entries, entry by entry.
pub open spec fn cbor_entries_model(entries: Seq<(CborValue, CborValue)>) -> Seq<
    (CborModel, CborModel),
> {
    Seq::new(entries.len(), |i: int| (entries[i].0@, entries[i].1@))
}

/// An array holds the contents of its items.
pub proof fn lemma_cbor_array_model(items: Vec<CborValue>)
    ensures
        CborValue::Array(items)@ == CborModel::Array(cbor_items_model(items@)),
{
    assert(CborValue::Array(items)@->Array_0 =~= cbor_items_model(items@));
}

/// A map holds the contents of its entries.
pub proof fn lemma_cbor_dictionary_model(entries: Vec<(CborValue, CborValue)>)
    ensures
        CborValue::Dictionary(entries)@ == CborModel::Dictionary(cbor_entries_model(entries@)),
{
    assert(CborValue::Dictionary(entries)@->Dictionary_0 =~= cbor_entries_model(entries@));
}

/// The value of the first entry at or after `start` whose key is the text
/// `key`.
pub open spec fn find_text_entry_from(
    entries: Seq<(CborModel, CborModel)>,
    key: Seq<char>,
    start: int,
) -> Option<CborModel>
    decreases entries.len() - start,
{
    if start < 0 || start >= entries.len() {
        None
    } else if entries[start].0 == CborModel::Text(key) {
        Some(entries[start].1)
    } else {
        find_text_entry_from(entries, key, start + 1)
    }
}

impl CborModel {
    /// The value of the first entry whose key is the text `key`, where this
    /// is a map that has one.
    pub open spec fn text_entry(self, key: Seq<char>) -> Option<CborModel> {
        match self {
            CborModel::Dictionary(entries) => find_text_entry_from(entries, key, 0),
            _ => None,
        }
    }
}

impl CborValue {
    /// Whether this item is the text `key`.
    pub fn is_text(&self, key: &str) -> (r: bool)
        ensures
            r == (self@ == CborModel::Text(key@)),
    {
        match self {
            CborValue::Text(text) => text_equal(text.as_str(), key),
            _ => false,
        }
    }

    /// The value of the first entry whose key is the text `key`, where this
    /// is a map that has one.
    pub fn text_entry(&self, key: &str) -> (r: Option<&CborValue>)
        ensures
            match r {
                Some(value) => self@.text_entry(key@) == Some(value@),
                None => self@.text_entry(key@) is None,
            },
    {
        match self {
            CborValue::Dictionary(entries) => {
                let ghost model = cbor_entries_model(entries@);
                proof {
                    lemma_cbor_dictionary_model(*entries);
                }
                let mut i: usize = 0;
                while i < entries.len()
                    invariant
                        i <= entries.len(),
                        self@ == CborModel::Dictionary(model),
                        model == cbor_entries_model(entries@),
                        find_text_entry_from(model, key@, 0) == find_text_entry_from(
                            model,
                            key@,
                            i as int,
                        ),
                    decreases entries.len() - i,
                {
                    assert(model[i as int] == (entries@[i as int].0@, entries@[i as int].1@));
                    if entries[i].0.is_text(key) {
                        return Some(&entries[i].1);
                    }
                    i += 1;
                }
                None
            },
            _ => None,
        }
    }
}

/// The tree of the single CBOR data item that `bytes` encode, as the
/// `serde_cbor` crate decodes it, or `None` where the crate reports an error:
/// the bytes encode no item, more than one, or one that nests deeper than the
/// crate follows.
pub uninterp spec fn cbor_decoding(bytes: Seq<u8>) -> Option<CborModel>;

/// The tree that a value of the `serde_cbor` crate holds.
pub uninterp spec fn cbor_content(value: serde_cbor::Value) -> CborModel;

/// The number of levels of arrays, maps and tags that a value of the
/// `serde_cbor` crate nests.
pub uninterp spec fn cbor_depth(value: serde_cbor::Value) -> nat;

/// One level of a value of the `serde_cbor` crate: a scalar with what it
/// holds, or an array, map or tag with its parts still unopened.
enum CborNode<'a> {
    Null,
    Bool(bool),
    Integer(i128),
    Float(u64),
    Bytes(Vec<u8>),
    Text(String),
    Array(Vec<&'a serde_cbor::Value>),
    Dictionary(Vec<(&'a serde_cbor::Value, &'a serde_cbor::Value)>),
    Tag(u64, &'a serde_cbor::Value),
}

impl<'a> CborNode<'a> {
    /// The tree that the node holds, over the trees of its parts.
    spec fn content(self) -> CborModel {
        match self {
            CborNode::Null => CborModel::Null,
            CborNode::Bool(b) => CborModel::Bool(b),
            CborNode::Integer(n) => CborModel::Integer(n as int),
            CborNode::Float(bits) => CborModel::Float(bits),
            CborNode::Bytes(bytes) => CborModel::Bytes(bytes@),
            CborNode::Text(text) => CborModel::Text(text@),
            CborNode::Array(items) => CborModel::Array(
                Seq::new(items@.len(), |i: int| cbor_content(*items@[i])),
            ),
            CborNode::Dictionary(entries) => CborModel::Dictionary(
                Seq::new(
                    entries@.len(),
                    |i: int| (cbor_content(*entries@[i].0), cbor_content(*entries@[i].1)),
                ),
            ),
            CborNode::Tag(tag, inner) => CborModel::Tag(tag, Box::new(cbor_content(*inner))),
        }
    }

    /// Whether every part of the node nests fewer than `depth` levels.
    spec fn parts_below(self, depth: nat) -> bool {
        match self {
            CborNode::Array(items) => forall|i: int|
                0 <= i < items@.len() ==> cbor_depth(*#[trigger] items@[i]) < depth,
            CborNode::Dictionary(entries) => forall|i: int|
                0 <= i < entries@.len() ==> cbor_depth(*(#[trigger] entries@[i]).0) < depth
                    && cbor_depth(*entries@[i].1) < depth,
            CborNode::Tag(_, inner) => cbor_depth(*inner) < depth,
            _ => true,
        }
    }
}

/// Calls `serde_cbor::from_slice` for a `serde_cbor::Value`.
///
/// Trusted: what the call returns depends on the bytes alone. Where it
/// succeeds, the value holds the tree that [`cbor_decoding`] names; where it
/// fails, [`cbor_decoding`] is `None`.
#[verifier::external_body]
fn cbor_parse(bytes: &[u8]) -> (r: Result<serde_cbor::Value, serde_cbor::Error>)
    ensures
        match r {
            Ok(value) => cbor_decoding(bytes@) == Some(cbor_content(value)),
            Err(_) => cbor_decoding(bytes@) is None,
        },
{
    serde_cbor::from_slice::<serde_cbor::Value>(bytes)
}

/// Tells the variants of a `serde_cbor::Value` apart and hands out what the
/// value holds at its top level. A float comes as its bits; the entries of a
/// map come in the order of `BTreeMap::iter`; the crate's reserved variant,
/// which decoding never gives, comes as `Null`.
///
/// Trusted: the node holds the tree of the value, and every part of an
/// array, map or tag nests fewer levels than the whole.
#[verifier::external_body]
fn cbor_open<'a>(value: &'a serde_cbor::Value) -> (node: CborNode<'a>)
    ensures
        node.content() == cbor_content(*value),
        node.parts_below(cbor_depth(*value)),
{
    match value {
        serde_cbor::Value::Null => CborNode::Null,
        serde_cbor::Value::Bool(b) => CborNode::Bool(*b),
        serde_cbor::Value::Integer(n) => CborNode::Integer(*n),
        serde_cbor::Value::Float(x) => CborNode::Float(x.to_bits()),
        serde_cbor::Value::Bytes(b) => CborNode::Bytes(b.clone()),
        serde_cbor::Value::Text(s) => CborNode::Text(s.clone()),
        serde_cbor::Value::Array(a) => CborNode::Array(a.iter().collect()),
        serde_cbor::Value::Map(m) => CborNode::Dictionary(m.iter().collect()),
        serde_cbor::Value::Tag(t, inner) => CborNode::Tag(*t, inner),
        _ => CborNode::Null,
    }
}

/// Rebuilds a value of the `serde_cbor` crate as a value of the library.
fn cbor_lift(value: &serde_cbor::Value) -> (r: CborValue)
    ensures
        r@ == cbor_content(*value),
    decreases cbor_depth(*value),
{
    match cbor_open(value) {
        CborNode::Null => CborValue::Null,
        CborNode::Bool(b) => CborValue::Bool(b),
        CborNode::Integer(n) => CborValue::Integer(n),
        CborNode::Float(bits) => CborValue::Float(bits),
        CborNode::Bytes(bytes) => CborValue::Bytes(bytes),
        CborNode::Text(text) => CborValue::Text(text),
        CborNode::Array(items) => {
            let mut lifted: Vec<CborValue> = Vec::new();
            let mut i: usize = 0;
            while i < items.len()
                invariant
                    i <= items.len(),
                    lifted@.len() == i,
                    forall|j: int|
                        0 <= j < items@.len() ==> cbor_depth(*#[trigger] items@[j]) < cbor_depth(
                            *value,
                        ),
                    forall|j: int| 0 <= j < i ==> (#[trigger] lifted@[j])@ == cbor_content(*items@[j]),
                decreases items.len() - i,
            {
                lifted.push(cbor_lift(items[i]));
                i += 1;
            }
            proof {
                lemma_cbor_array_model(lifted);
                assert(cbor_items_model(lifted@) =~= Seq::new(
                    items@.len(),
                    |i: int| cbor_content(*items@[i]),
                ));
            }
            CborValue::Array(lifted)
        },
        CborNode::Dictionary(entries) => {
            let mut lifted: Vec<(CborValue, CborValue)> = Vec::new();
            let mut i: usize = 0;
            while i < entries.len()
                invariant
                    i <= entries.len(),
                    lifted@.len() == i,
                    forall|j: int|
                        0 <= j < entries@.len() ==> cbor_depth(*(#[trigger] entries@[j]).0)
                            < cbor_depth(*value) && cbor_depth(*entries@[j].1) < cbor_depth(*value),
                    forall|j: int|
                        0 <= j < i ==> (#[trigger] lifted@[j]).0@ == cbor_content(*entries@[j].0)
                            && lifted@[j].1@ == cbor_content(*entries@[j].1),
                decreases entries.len() - i,
            {
                let key = cbor_lift(entries[i].0);
                let item = cbor_lift(entries[i].1);
                lifted.push((key, item));
                i += 1;
            }
            proof {
                lemma_cbor_dictionary_model(lifted);
                assert(cbor_entries_model(lifted@) =~= Seq::new(
                    entries@.len(),
                    |i: int| (cbor_content(*entries@[i].0), cbor_content(*entries@[i].1)),
                ));
            }
            CborValue::Dictionary(lifted)
        },
        CborNode::Tag(tag, inner) => CborValue::Tag(tag, Box::new(cbor_lift(inner))),
    }
}

/// Decodes one CBOR data item from its bytes.
///
/// Fails with `DecodeError` exactly on the byte strings that the crate does
/// not decode.
pub fn decode_cbor(bytes: &[u8]) -> (r: Result<CborValue, CodecError>)
    ensures
        match r {
            Ok(value) => cbor_decoding(bytes@) == Some(value@),
            Err(e) => e == CodecError::DecodeError && cbor_decoding(bytes@) is None,
        },
{
    match cbor_parse(bytes) {
        Ok(value) => Ok(cbor_lift(&value)),
        Err(_) => Err(CodecError::DecodeError),
    }
}

} // verus!
