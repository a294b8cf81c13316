//! JSON documents as plain trees, decoded by the `serde_json` crate.
//!
//! The crate parses the text; this module walks the tree that the crate
//! hands back, one level at a time, and rebuilds it as a [`JsonValue`]. The
//! contracts speak of three named results: [`json_decoding`], the tree of the
//! document that a byte string spells, and [`json_content`] and
//! [`json_depth`], the tree and the nesting depth of a value of the crate.

use crate::codec::text_equal;
use crate::error::CodecError;
use vstd::prelude::*;

verus! {

#[verifier::external_type_specification]
#[verifier::external_body]
pub struct ExJsonDocument(serde_json::Value);

#[verifier::external_type_specification]
#[verifier::external_body]
pub struct ExJsonError(serde_json::Error);

/// A JSON value.
#[derive(Debug)]
pub enum JsonValue {
    Null,
    Bool(bool),
    /// A number without fraction or exponent.
    Integer(i128),
    /// Any other number, held as the bit pattern of its IEEE 754 binary64
    /// value.
    Real(u64),
    Text(String),
    Array(Vec<JsonValue>),
    /// The members of an object, in the order of the document tree.
    Object(Vec<(String, JsonValue)>),
}

/// Mathematical content of a [`JsonValue`].
pub enum JsonModel {
    Null,
    Bool(bool),
    Integer(int),
    Real(u64),
    Text(Seq<char>),
    Array(Seq<JsonModel>),
    Object(Seq<(Seq<char>, JsonModel)>),
}

/// The mathematical content of a value: texts as character sequences,
/// arrays and objects as sequences of the contents of their parts.
pub open spec fn json_model(value: JsonValue) -> JsonModel
    decreases value,
{
    match value {
        JsonValue::Null => JsonModel::Null,
        JsonValue::Bool(b) => JsonModel::Bool(b),
        JsonValue::Integer(n) => JsonModel::Integer(n as int),
        JsonValue::Real(bits) => JsonModel::Real(bits),
        JsonValue::Text(text) => JsonModel::Text(text@),
        JsonValue::Array(items) => JsonModel::Array(
            Seq::new(
                items@.len(),
                |i: int|
                    if 0 <= i < items@.len() {
                        json_model(items@[i])
                    } else {
                        JsonModel::Null
                    },
            ),
        ),
        JsonValue::Object(members) => JsonModel::Object(
            Seq::new(
                members@.len(),
                |i: int|
                    if 0 <= i < members@.len() {
                        (members@[i].0@, json_model(members@[i].1))
                    } else {
                        (Seq::<char>::empty(), JsonModel::Null)
                    },
            ),
        ),
    }
}

impl View for JsonValue {
    type V = JsonModel;

    open spec fn view(&self) -> JsonModel {
        json_model(*self)
    }
}

/// The value of the first member at or after `start` whose name is `key`.
pub open spec fn find_member_from(
    members: Seq<(Seq<char>, JsonModel)>,
    key: Seq<char>,
    start: int,
) -> Option<JsonModel>
    decreases members.len() - start,
{
    if start < 0 || start >= members.len() {
        None
    } else if members[start].0 == key {
        Some(members[start].1)
    } else {
        find_member_from(members, key, start + 1)
    }
}

/// The value of the first member named `key` in a member list.
pub open spec fn find_member(members: Seq<(Seq<char>, JsonModel)>, key: Seq<char>) -> Option<
    JsonModel,
> {
    find_member_from(members, key, 0)
}

impl JsonModel {
    /// The value of the first member named `key`, where this is an object
    /// that has one.
    pub open spec fn member(self, key: Seq<char>) -> Option<JsonModel> {
        match self {
            JsonModel::Object(members) => find_member_from(members, key, 0),
            _ => None,
        }
    }

    /// The text of a text value.
    pub open spec fn text(self) -> Option<Seq<char>> {
        match self {
            JsonModel::Text(text) => Some(text),
            _ => None,
        }
    }

    /// The text of the first member named `key`, where that member is a text.
    pub open spec fn text_member(self, key: Seq<char>) -> Option<Seq<char>> {
        match self.member(key) {
            Some(value) => value.text(),
            None => None,
        }
    }
}

/// The contents of a sequence of values, item by item.
pub open spec fn items_model(items: Seq<JsonValue>) -> Seq<JsonModel> {
    Seq::new(items.len(), |i: int| items[i]@)
}

/// The contents of a sequence of members, member by member.
pub open spec fn members_model(members: Seq<(String, JsonValue)>) -> Seq<(Seq<char>, JsonModel)> {
    Seq::new(members.len(), |i: int| (members[i].0@, members[i].1@))
}

/// The member list that holds `value` under `name` where there is a value,
/// and nothing where there is none.
pub open spec fn optional_member(name: Seq<char>, value: Option<JsonModel>) -> Seq<
    (Seq<char>, JsonModel),
> {
    match value {
        Some(value) => seq![(name, value)],
        None => Seq::empty(),
    }
}

/// A search that starts inside the second of two joined lists is a search in
/// that list.
proof fn lemma_find_in_second(
    first: Seq<(Seq<char>, JsonModel)>,
    second: Seq<(Seq<char>, JsonModel)>,
    key: Seq<char>,
    start: int,
)
    requires
        0 <= start <= second.len(),
    ensures
        find_member_from(first + second, key, first.len() + start) == find_member_from(
            second,
            key,
            start,
        ),
    decreases second.len() - start,
{
    if start < second.len() {
        assert((first + second)[first.len() + start] == second[start]);
        lemma_find_in_second(first, second, key, start + 1);
    }
}

/// A search that starts inside the first of two joined lists goes on into
/// the second where the first has no member of that name.
proof fn lemma_find_from_in_joined(
    first: Seq<(Seq<char>, JsonModel)>,
    second: Seq<(Seq<char>, JsonModel)>,
    key: Seq<char>,
    start: int,
)
    requires
        0 <= start <= first.len(),
    ensures
        find_member_from(first + second, key, start) == match find_member_from(first, key, start) {
            Some(value) => Some(value),
            None => find_member(second, key),
        },
    decreases first.len() - start,
{
    if start < first.len() {
        assert((first + second)[start] == first[start]);
        lemma_find_from_in_joined(first, second, key, start + 1);
    } else {
        lemma_find_in_second(first, second, key, 0);
    }
}

/// In two joined member lists, the first member named `key` is that of the
/// first list where it has one, else that of the second.
pub proof fn lemma_find_in_joined(
    first: Seq<(Seq<char>, JsonModel)>,
    second: Seq<(Seq<char>, JsonModel)>,
    key: Seq<char>,
)
    ensures
        find_member(first + second, key) == match find_member(first, key) {
            Some(value) => Some(value),
            None => find_member(second, key),
        },
{
    lemma_find_from_in_joined(first, second, key, 0);
}

/// An optional member is found under its own name where it has a value, and
/// under no other name.
pub proof fn lemma_find_optional_member(
    name: Seq<char>,
    value: Option<JsonModel>,
    key: Seq<char>,
)
    ensures
        find_member(optional_member(name, value), key) == if name == key {
            value
        } else {
            None
        },
{
    reveal_with_fuel(find_member_from, 2);
}

/// An array holds the contents of its items.
pub proof fn lemma_array_model(items: Vec<JsonValue>)
    ensures
        JsonValue::Array(items)@ == JsonModel::Array(items_model(items@)),
{
    assert(JsonValue::Array(items)@->Array_0 =~= items_model(items@));
}

/// An object holds the contents of its members.
pub proof fn lemma_object_model(members: Vec<(String, JsonValue)>)
    ensures
        JsonValue::Object(members)@ == JsonModel::Object(members_model(members@)),
{
    assert(JsonValue::Object(members)@->Object_0 =~= members_model(members@));
}

/// The members of an object under construction.
pub struct ObjectBuilder {
    members: Vec<(String, JsonValue)>,
}

impl ObjectBuilder {
    /// The contents of the members put so far.
    pub closed spec fn model(&self) -> Seq<(Seq<char>, JsonModel)> {
        members_model(self.members@)
    }

    /// A builder without members.
    pub fn new() -> (builder: Self)
        ensures
            builder.model() == Seq::<(Seq<char>, JsonModel)>::empty(),
    {
        let builder = ObjectBuilder { members: Vec::new() };
        assert(builder.model() =~= Seq::<(Seq<char>, JsonModel)>::empty());
        builder
    }

    /// Adds a member behind those put so far.
    pub fn put(&mut self, name: &str, value: JsonValue)
        ensures
            final(self).model() == old(self).model().push((name@, value@)),
    {
        self.members.push((name.to_owned(), value));
        assert(self.model() =~= old(self).model().push((name@, value@)));
    }

    /// Adds a member where there is a value, and nothing where there is
    /// none.
    pub fn put_optional(&mut self, name: &str, value: Option<JsonValue>)
        ensures
            final(self).model() == old(self).model() + optional_member(
                name@,
                match value {
                    Some(value) => Some(value@),
                    None => None,
                },
            ),
    {
        match value {
            Some(value) => {
                self.put(name, value);
                assert(self.model() =~= old(self).model() + seq![(name@, value@)]);
            },
            None => {
                assert(self.model() =~= old(self).model() + Seq::<
                    (Seq<char>, JsonModel),
                >::empty());
            },
        }
    }

    /// The object with the members put.
    pub fn finish(self) -> (value: JsonValue)
        ensures
            value@ == JsonModel::Object(self.model()),
    {
        proof {
            lemma_object_model(self.members);
        }
        JsonValue::Object(self.members)
    }
}

impl JsonValue {
    /// The text value that holds `text`.
    pub fn text(text: &str) -> (value: JsonValue)
        ensures
            value@ == JsonModel::Text(text@),
    {
        JsonValue::Text(text.to_owned())
    }

    /// The array of the given items.
    pub fn array(items: Vec<JsonValue>) -> (value: JsonValue)
        ensures
            value@ == JsonModel::Array(items_model(items@)),
    {
        proof {
            lemma_array_model(items);
        }
        JsonValue::Array(items)
    }

    /// The value of the first member named `key`, where this is an object
    /// that has one.
    pub fn member(&self, key: &str) -> (r: Option<&JsonValue>)
        ensures
            match r {
                Some(value) => self@.member(key@) == Some(value@),
                None => self@.member(key@) is None,
            },
    {
        match self {
            JsonValue::Object(members) => {
                let ghost model = members_model(members@);
                proof {
                    lemma_object_model(*members);
                }
                let mut i: usize = 0;
                while i < members.len()
                    invariant
                        i <= members.len(),
                        self@ == JsonModel::Object(model),
                        model == members_model(members@),
                        find_member_from(model, key@, 0) == find_member_from(model, key@, i as int),
                    decreases members.len() - i,
                {
                    assert(model[i as int] == (members@[i as int].0@, members@[i as int].1@));
                    if text_equal(members[i].0.as_str(), key) {
                        return Some(&members[i].1);
                    }
                    i += 1;
                }
                None
            },
            _ => None,
        }
    }

    /// The text of a text value.
    pub fn as_text(&self) -> (r: Option<&str>)
        ensures
            match r {
                Some(text) => self@.text() == Some(text@),
                None => self@.text() is None,
            },
    {
        match self {
            JsonValue::Text(text) => Some(text.as_str()),
            _ => None,
        }
    }

    /// The text of the first member named `key`, where that member is a text.
    pub fn text_member(&self, key: &str) -> (r: Option<&str>)
        ensures
            match r {
                Some(text) => self@.text_member(key@) == Some(text@),
                None => self@.text_member(key@) is None,
            },
    {
        match self.member(key) {
            Some(value) => value.as_text(),
            None => None,
        }
    }
}

/// The tree of the JSON document that `bytes` spell in UTF-8, as the
/// `serde_json` crate decodes it, or `None` where the crate reports an error:
/// the bytes spell no document, or one that nests deeper than the crate
/// follows.
pub uninterp spec fn json_decoding(bytes: Seq<u8>) -> Option<JsonModel>;

/// The tree that a value of the `serde_json` crate holds.
pub uninterp spec fn json_content(value: serde_json::Value) -> JsonModel;

/// The number of levels of arrays and objects that a value of the
/// `serde_json` crate nests.
pub uninterp spec fn json_depth(value: serde_json::Value) -> nat;

/// One level of a value of the `serde_json` crate: a scalar with what it
/// holds, or an array or object with its parts still unopened.
enum JsonNode<'a> {
    Null,
    Bool(bool),
    Integer(i128),
    Real(u64),
    Text(String),
    Array(Vec<&'a serde_json::Value>),
    Object(Vec<(String, &'a serde_json::Value)>),
}

impl<'a> JsonNode<'a> {
    /// The tree that the node holds, over the trees of its parts.
    spec fn content(self) -> JsonModel {
        match self {
            JsonNode::Null => JsonModel::Null,
            JsonNode::Bool(b) => JsonModel::Bool(b),
            JsonNode::Integer(n) => JsonModel::Integer(n as int),
            JsonNode::Real(bits) => JsonModel::Real(bits),
            JsonNode::Text(text) => JsonModel::Text(text@),
            JsonNode::Array(items) => JsonModel::Array(
                Seq::new(items@.len(), |i: int| json_content(*items@[i])),
            ),
            JsonNode::Object(members) => JsonModel::Object(
                Seq::new(members@.len(), |i: int| (members@[i].0@, json_content(*members@[i].1))),
            ),
        }
    }

    /// Whether every part of the node nests fewer than `depth` levels.
    spec fn parts_below(self, depth: nat) -> bool {
        match self {
            JsonNode::Array(items) => forall|i: int|
                0 <= i < items@.len() ==> json_depth(*#[trigger] items@[i]) < depth,
            JsonNode::Object(members) => forall|i: int|
                0 <= i < members@.len() ==> json_depth(*(#[trigger] members@[i]).1) < depth,
            _ => true,
        }
    }
}

/// Calls `serde_json::from_slice` for a `serde_json::Value`.
///
/// Trusted: what the call returns depends on the bytes alone. Where it
/// succeeds, the value holds the tree that [`json_decoding`] names; where it
/// fails, [`json_decoding`] is `None`.
#[verifier::external_body]
fn json_parse(bytes: &[u8]) -> (r: Result<serde_json::Value, serde_json::Error>)
    ensures
        match r {
            Ok(value) => json_decoding(bytes@) == Some(json_content(value)),
            Err(_) => json_decoding(bytes@) is None,
        },
{
    serde_json::from_slice::<serde_json::Value>(bytes)
}

/// Tells the variants of a `serde_json::Value` apart and hands out what the
/// value holds at its top level. A number is an integer where
/// `Number::as_i128` gives one, and else the bits of `Number::as_f64`; the
/// members of an object come in the order of `Map::iter`.
///
/// Trusted: the node holds the tree of the value, and every part of an array
/// or object nests fewer levels than the whole.
#[verifier::external_body]
fn json_open<'a>(value: &'a serde_json::Value) -> (node: JsonNode<'a>)
    ensures
        node.content() == json_content(*value),
        node.parts_below(json_depth(*value)),
{
    match value {
        serde_json::Value::Null => JsonNode::Null,
        serde_json::Value::Bool(b) => JsonNode::Bool(*b),
        serde_json::Value::Number(n) => match n.as_i128() {
            Some(i) => JsonNode::Integer(i),
            None => JsonNode::Real(n.as_f64().unwrap_or_default().to_bits()),
        },
        serde_json::Value::String(s) => JsonNode::Text(s.clone()),
        serde_json::Value::Array(a) => JsonNode::Array(a.iter().collect()),
        serde_json::Value::Object(o) => JsonNode::Object(
            o.iter().map(|(k, v)| (k.clone(), v)).collect(),
        ),
    }
}

/// Rebuilds a value of the `serde_json` crate as a value of the library.
fn json_lift(value: &serde_json::Value) -> (r: JsonValue)
    ensures
        r@ == json_content(*value),
    decreases json_depth(*value),
{
    match json_open(value) {
        JsonNode::Null => JsonValue::Null,
        JsonNode::Bool(b) => JsonValue::Bool(b),
        JsonNode::Integer(n) => JsonValue::Integer(n),
        JsonNode::Real(bits) => JsonValue::Real(bits),
        JsonNode::Text(text) => JsonValue::Text(text),
        JsonNode::Array(items) => {
            let mut lifted: Vec<JsonValue> = Vec::new();
            let mut i: usize = 0;
            while i < items.len()
                invariant
                    i <= items.len(),
                    lifted@.len() == i,
                    forall|j: int|
                        0 <= j < items@.len() ==> json_depth(*#[trigger] items@[j]) < json_depth(
                            *value,
                        ),
                    forall|j: int| 0 <= j < i ==> (#[trigger] lifted@[j])@ == json_content(*items@[j]),
                decreases items.len() - i,
            {
                lifted.push(json_lift(items[i]));
                i += 1;
            }
            assert(items_model(lifted@) =~= Seq::new(
                items@.len(),
                |i: int| json_content(*items@[i]),
            ));
            JsonValue::array(lifted)
        },
        JsonNode::Object(members) => {
            let mut lifted = ObjectBuilder::new();
            let mut i: usize = 0;
            while i < members.len()
                invariant
                    i <= members.len(),
                    lifted.model().len() == i,
                    forall|j: int|
                        0 <= j < members@.len() ==> json_depth(*(#[trigger] members@[j]).1)
                            < json_depth(*value),
                    forall|j: int|
                        0 <= j < i ==> #[trigger] lifted.model()[j] == (
                            members@[j].0@,
                            json_content(*members@[j].1),
                        ),
                decreases members.len() - i,
            {
                let part = json_lift(members[i].1);
                lifted.put(members[i].0.as_str(), part);
                i += 1;
            }
            assert(lifted.model() =~= Seq::new(
                members@.len(),
                |i: int| (members@[i].0@, json_content(*members@[i].1)),
            ));
            lifted.finish()
        },
    }
}

/// Decodes a JSON document from its UTF-8 bytes.
///
/// Fails with `DecodeError` exactly on the byte strings that the crate does
/// not decode.
pub fn decode_json(bytes: &[u8]) -> (r: Result<JsonValue, CodecError>)
    ensures
        match r {
            Ok(value) => json_decoding(bytes@) == Some(value@),
            Err(e) => e == CodecError::DecodeError && json_decoding(bytes@) is None,
        },
{
    match json_parse(bytes) {
        Ok(value) => Ok(json_lift(&value)),
        Err(_) => Err(CodecError::DecodeError),
    }
}

} // verus!
