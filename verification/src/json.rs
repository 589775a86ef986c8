//! JSON documents as the bridge reads and writes them.

use vstd::prelude::*;

use crate::record;
use crate::text::same_text;

verus! {

/// A JSON number as a parser tells numbers apart: a whole number from zero up,
/// a whole number below zero, or a binary64 float given by its bit pattern.
#[derive(Clone, Copy, Debug, PartialEq, Eq, Structural)]
pub enum JsonNumber {
    PosInt(u64),
    NegInt(i64),
    FloatBits(u64),
}

/// A JSON document. Where an object names a member twice, the later one counts.
#[derive(Debug)]
pub enum Json {
    Null,
    Bool(bool),
    Number(JsonNumber),
    Text(String),
    Array(Vec<Json>),
    Object(Vec<(String, Json)>),
}

/// The mathematical content of a [`Json`].
pub enum JsonView {
    Null,
    Bool(bool),
    Number(JsonNumber),
    Text(Seq<char>),
    Array(Seq<JsonView>),
    Object(Seq<(Seq<char>, JsonView)>),
}

impl View for Json {
    type V = JsonView;

    open spec fn view(&self) -> JsonView
        decreases self,
    {
        match self {
            Json::Null => JsonView::Null,
            Json::Bool(b) => JsonView::Bool(*b),
            Json::Number(n) => JsonView::Number(*n),
            Json::Text(s) => JsonView::Text(s@),
            Json::Array(items) => JsonView::Array(
                Seq::new(
                    items@.len(),
                    |i: int|
                        if 0 <= i < items@.len() {
                            items@[i].view()
                        } else {
                            JsonView::Null
                        },
                ),
            ),
            Json::Object(members) => JsonView::Object(
                Seq::new(
                    members@.len(),
                    |i: int|
                        if 0 <= i < members@.len() {
                            (members@[i].0@, members@[i].1.view())
                        } else {
                            (Seq::empty(), JsonView::Null)
                        },
                ),
            ),
        }
    }
}

/// An object shows its members one by one.
pub proof fn object_shows(members: Vec<(String, Json)>)
    ensures
        Json::Object(members)@ == JsonView::Object(record::named_values(members@)),
{
    reveal_with_fuel(<Json as View>::view, 2);
    let object = Json::Object(members);
    assert forall|i: int| 0 <= i < members@.len() implies #[trigger] object@->Object_0[i] == (
        members@[i].0@,
        members@[i].1@,
    ) by {}
    assert(object@->Object_0 =~= record::named_values(members@));
}

/// An array shows its items one by one.
pub proof fn array_shows(items: Vec<Json>)
    ensures
        Json::Array(items)@ == JsonView::Array(Seq::new(items@.len(), |i: int| items@[i]@)),
{
    reveal_with_fuel(<Json as View>::view, 2);
    let array = Json::Array(items);
    assert forall|i: int| 0 <= i < items@.len() implies #[trigger] array@->Array_0[i]
        == items@[i]@ by {}
    assert(array@->Array_0 =~= Seq::new(items@.len(), |i: int| items@[i]@));
}

impl JsonView {
    /// The member of an object under `key`; null where there is none, or where
    /// this is no object.
    pub open spec fn member(self, key: Seq<char>) -> JsonView {
        match self {
            JsonView::Object(members) => if record::named_map(members).contains_key(key) {
                record::named_map(members)[key]
            } else {
                JsonView::Null
            },
            _ => JsonView::Null,
        }
    }

    pub open spec fn as_bool(self) -> Option<bool> {
        match self {
            JsonView::Bool(b) => Some(b),
            _ => None,
        }
    }

    pub open spec fn as_text(self) -> Option<Seq<char>> {
        match self {
            JsonView::Text(s) => Some(s),
            _ => None,
        }
    }

    /// Any JSON number.
    pub open spec fn as_number(self) -> Option<JsonNumber> {
        match self {
            JsonView::Number(n) => Some(n),
            _ => None,
        }
    }

    /// A number only if it is a whole one from zero up.
    pub open spec fn as_u64(self) -> Option<u64> {
        match self {
            JsonView::Number(JsonNumber::PosInt(n)) => Some(n),
            _ => None,
        }
    }
}

/// The first of two optional values that is there.
pub open spec fn first_of<T>(a: Option<T>, b: Option<T>) -> Option<T> {
    if a is Some {
        a
    } else {
        b
    }
}

impl Json {
    /// The member under `key`, if this is an object that has one.
    pub fn get(&self, key: &str) -> (found: Option<&Json>)
        ensures
            match found {
                Some(value) => value@ == self@.member(key@),
                None => self@.member(key@) == JsonView::Null,
            },
    {
        match self {
            Json::Object(members) => {
                let ghost pairs = record::named_values(members@);
                proof {
                    object_shows(*members);
                }
                let mut i: usize = members.len();
                while i > 0
                    invariant
                        i <= members@.len(),
                        pairs == record::named_values(members@),
                        self@ == JsonView::Object(pairs),
                        forall|j: int| i <= j < pairs.len() ==> (#[trigger] pairs[j]).0 != key@,
                    decreases i,
                {
                    i = i - 1;
                    if same_text(members[i].0.as_str(), key) {
                        proof {
                            assert(pairs[i as int].0 == key@);
                            record::named_map_at(pairs, i as int);
                        }
                        return Some(&members[i].1);
                    }
                }
                proof {
                    record::named_map_absent(pairs, key@);
                }
                None
            },
            _ => None,
        }
    }

    pub fn as_bool(&self) -> (value: Option<bool>)
        ensures
            value == self@.as_bool(),
    {
        match self {
            Json::Bool(b) => Some(*b),
            _ => None,
        }
    }

    pub fn as_text(&self) -> (value: Option<&str>)
        ensures
            match value {
                Some(text) => self@.as_text() == Some(text@),
                None => self@.as_text() is None,
            },
    {
        match self {
            Json::Text(s) => Some(s.as_str()),
            _ => None,
        }
    }

    pub fn as_number(&self) -> (value: Option<JsonNumber>)
        ensures
            value == self@.as_number(),
    {
        match self {
            Json::Number(n) => Some(*n),
            _ => None,
        }
    }

    pub fn as_u64(&self) -> (value: Option<u64>)
        ensures
            value == self@.as_u64(),
    {
        match self {
            Json::Number(JsonNumber::PosInt(n)) => Some(*n),
            _ => None,
        }
    }

    /// The boolean member under `key`.
    pub fn bool_at(&self, key: &str) -> (value: Option<bool>)
        ensures
            value == self@.member(key@).as_bool(),
    {
        match self.get(key) {
            Some(found) => found.as_bool(),
            None => None,
        }
    }

    /// The text member under `key`.
    pub fn text_at(&self, key: &str) -> (value: Option<&str>)
        ensures
            match value {
                Some(text) => self@.member(key@).as_text() == Some(text@),
                None => self@.member(key@).as_text() is None,
            },
    {
        match self.get(key) {
            Some(found) => found.as_text(),
            None => None,
        }
    }

    /// The number member under `key`.
    pub fn number_at(&self, key: &str) -> (value: Option<JsonNumber>)
        ensures
            value == self@.member(key@).as_number(),
    {
        match self.get(key) {
            Some(found) => found.as_number(),
            None => None,
        }
    }

    /// The whole number from zero up under `key`.
    pub fn u64_at(&self, key: &str) -> (value: Option<u64>)
        ensures
            value == self@.member(key@).as_u64(),
    {
        match self.get(key) {
            Some(found) => found.as_u64(),
            None => None,
        }
    }

    /// The member under `key` of the member under `outer`.
    pub fn get_under(&self, outer: &str, key: &str) -> (found: Option<&Json>)
        ensures
            match found {
                Some(value) => value@ == self@.member(outer@).member(key@),
                None => self@.member(outer@).member(key@) == JsonView::Null,
            },
    {
        match self.get(outer) {
            Some(inner) => inner.get(key),
            None => None,
        }
    }

    /// The boolean under `key` of the member under `outer`.
    pub fn bool_under(&self, outer: &str, key: &str) -> (value: Option<bool>)
        ensures
            value == self@.member(outer@).member(key@).as_bool(),
    {
        match self.get_under(outer, key) {
            Some(found) => found.as_bool(),
            None => None,
        }
    }

    /// The text under `key` of the member under `outer`.
    pub fn text_under(&self, outer: &str, key: &str) -> (value: Option<&str>)
        ensures
            match value {
                Some(text) => self@.member(outer@).member(key@).as_text() == Some(text@),
                None => self@.member(outer@).member(key@).as_text() is None,
            },
    {
        match self.get_under(outer, key) {
            Some(found) => found.as_text(),
            None => None,
        }
    }

    /// The number under `key` of the member under `outer`.
    pub fn number_under(&self, outer: &str, key: &str) -> (value: Option<JsonNumber>)
        ensures
            value == self@.member(outer@).member(key@).as_number(),
    {
        match self.get_under(outer, key) {
            Some(found) => found.as_number(),
            None => None,
        }
    }

    /// The whole number from zero up under `key` of the member under `outer`.
    pub fn u64_under(&self, outer: &str, key: &str) -> (value: Option<u64>)
        ensures
            value == self@.member(outer@).member(key@).as_u64(),
    {
        match self.get_under(outer, key) {
            Some(found) => found.as_u64(),
            None => None,
        }
    }

    /// Takes the member under `key` out of the document; null if it has none.
    pub fn into_member(self, key: &str) -> (value: Json)
        ensures
            value@ == self@.member(key@),
    {
        let ghost whole = self@;
        match self {
            Json::Object(members) => {
                let mut members = members;
                let ghost pairs = record::named_values(members@);
                proof {
                    object_shows(members);
                }
                let mut i: usize = members.len();
                while i > 0
                    invariant
                        i <= members@.len(),
                        pairs == record::named_values(members@),
                        whole == JsonView::Object(pairs),
                        whole == self@,
                        forall|j: int| i <= j < pairs.len() ==> (#[trigger] pairs[j]).0 != key@,
                    decreases i,
                {
                    i = i - 1;
                    if same_text(members[i].0.as_str(), key) {
                        proof {
                            assert(pairs[i as int].0 == key@);
                            record::named_map_at(pairs, i as int);
                        }
                        let taken = members.swap_remove(i);
                        return taken.1;
                    }
                }
                proof {
                    record::named_map_absent(pairs, key@);
                }
                Json::Null
            },
            _ => Json::Null,
        }
    }

    /// An object with a single text member.
    pub fn text_object(key: &str, value: &str) -> (object: Json)
        ensures
            object@ == JsonView::Object(seq![(key@, JsonView::Text(value@))]),
    {
        let mut members: Vec<(String, Json)> = Vec::new();
        members.push((key.to_string(), Json::Text(value.to_string())));
        proof {
            object_shows(members);
            assert(record::named_values(members@) =~= seq![(key@, JsonView::Text(value@))]);
        }
        Json::Object(members)
    }

    /// A document of the same content.
    fn duplicate(&self) -> (copy: Json)
        ensures
            copy@ == self@,
        decreases self,
    {
        match self {
            Json::Null => Json::Null,
            Json::Bool(b) => Json::Bool(*b),
            Json::Number(n) => Json::Number(*n),
            Json::Text(s) => Json::Text(s.clone()),
            Json::Array(items) => {
                let mut copies: Vec<Json> = Vec::new();
                let mut i: usize = 0;
                while i < items.len()
                    invariant
                        i <= items@.len(),
                        copies@.len() == i,
                        *self == Json::Array(*items),
                        forall|j: int| 0 <= j < i ==> (#[trigger] copies@[j])@ == items@[j]@,
                    decreases items@.len() - i,
                {
                    assert(decreases_to!(self => self->Array_0));
                    assert(decreases_to!(items => items@));
                    assert(decreases_to!(items@ => items@[i as int]));
                    copies.push(items[i].duplicate());
                    i = i + 1;
                }
                proof {
                    array_shows(copies);
                    array_shows(*items);
                    assert(Seq::new(copies@.len(), |j: int| copies@[j]@) =~= Seq::new(
                        items@.len(),
                        |j: int| items@[j]@,
                    ));
                }
                Json::Array(copies)
            },
            Json::Object(members) => {
                let mut copies: Vec<(String, Json)> = Vec::new();
                let mut i: usize = 0;
                while i < members.len()
                    invariant
                        i <= members@.len(),
                        copies@.len() == i,
                        *self == Json::Object(*members),
                        forall|j: int|
                            0 <= j < i ==> (#[trigger] copies@[j]).0@ == members@[j].0@
                                && copies@[j].1@ == members@[j].1@,
                    decreases members@.len() - i,
                {
                    assert(decreases_to!(self => self->Object_0));
                    assert(decreases_to!(members => members@));
                    assert(decreases_to!(members@ => members@[i as int]));
                    assert(decreases_to!(members@[i as int] => members@[i as int].1));
                    copies.push((members[i].0.clone(), members[i].1.duplicate()));
                    i = i + 1;
                }
                proof {
                    object_shows(copies);
                    object_shows(*members);
                    assert(record::named_values(copies@) =~= record::named_values(members@));
                }
                Json::Object(copies)
            },
        }
    }

    /// Takes over a document of the `serde_json` crate.
    pub fn from_value(value: &serde_json::Value) -> (tree: Json)
        ensures
            tree@ == json_content(*value),
        decreases json_content(*value),
    {
        match top_layer(value) {
            Layer::Null => Json::Null,
            Layer::Bool(b) => Json::Bool(b),
            Layer::Number(n) => Json::Number(n),
            Layer::Text(s) => Json::Text(s.clone()),
            Layer::Array(items) => {
                let ghost below = json_content(*value)->Array_0;
                let mut trees: Vec<Json> = Vec::new();
                let mut i: usize = 0;
                while i < items.len()
                    invariant
                        i <= items@.len(),
                        trees@.len() == i,
                        json_content(*value) == JsonView::Array(below),
                        below == Seq::new(items@.len(), |j: int| json_content(items@[j])),
                        forall|j: int| 0 <= j < i ==> (#[trigger] trees@[j])@ == below[j],
                    decreases items@.len() - i,
                {
                    assert(below[i as int] == json_content(items@[i as int]));
                    assert(decreases_to!(json_content(*value) => json_content(*value)->Array_0));
                    assert(decreases_to!(below => below[i as int]));
                    trees.push(Json::from_value(&items[i]));
                    i = i + 1;
                }
                proof {
                    array_shows(trees);
                    assert(Seq::new(trees@.len(), |j: int| trees@[j]@) =~= below);
                }
                Json::Array(trees)
            },
            Layer::Object(members) => {
                let ghost below = json_content(*value)->Object_0;
                let mut trees: Vec<(String, Json)> = Vec::new();
                let mut i: usize = 0;
                while i < members.len()
                    invariant
                        i <= members@.len(),
                        trees@.len() == i,
                        json_content(*value) == JsonView::Object(below),
                        below == Seq::new(
                            members@.len(),
                            |j: int| (members@[j].0@, json_content(*members@[j].1)),
                        ),
                        forall|j: int|
                            0 <= j < i ==> ((#[trigger] trees@[j]).0@, trees@[j].1@) == below[j],
                    decreases members@.len() - i,
                {
                    assert(below[i as int].1 == json_content(*members@[i as int].1));
                    assert(decreases_to!(json_content(*value) => json_content(*value)->Object_0));
                    assert(decreases_to!(below => below[i as int]));
                    assert(decreases_to!(below[i as int] => below[i as int].1));
                    trees.push((members[i].0.clone(), Json::from_value(members[i].1)));
                    i = i + 1;
                }
                proof {
                    object_shows(trees);
                    assert(record::named_values(trees@) =~= below);
                }
                Json::Object(trees)
            },
        }
    }

    /// Reads a JSON document; `None` if `bytes` are not one.
    pub fn parse(bytes: &[u8]) -> (parsed: Option<Json>)
        ensures
            match parsed {
                Some(tree) => json_document(bytes@) == Some(tree@),
                None => json_document(bytes@) is None,
            },
    {
        match parse_value(bytes) {
            Ok(value) => Some(Json::from_value(&value)),
            Err(_) => None,
        }
    }
}

impl Clone for Json {
    fn clone(&self) -> (copy: Self)
        ensures
            copy@ == self@,
    {
        self.duplicate()
    }
}

/// A parsed document of the `serde_json` crate.
#[verifier::external_type_specification]
#[verifier::external_body]
pub struct ExValue(serde_json::Value);

/// Why the `serde_json` crate could not parse a text.
#[verifier::external_type_specification]
#[verifier::external_body]
pub struct ExParseError(serde_json::Error);

/// The document that `bytes` spell, or `None` if they are no JSON text: what
/// `serde_json::from_slice` makes of them.
pub uninterp spec fn json_document(bytes: Seq<u8>) -> Option<JsonView>;

/// What a `serde_json::Value` holds, as a tree of plain values.
pub uninterp spec fn json_content(value: serde_json::Value) -> JsonView;

/// `serde_json::from_slice`: the outcome depends on the bytes alone, and what a
/// parsed value holds is the document that the bytes spell.
#[verifier::external_body]
fn parse_value(bytes: &[u8]) -> (parsed: Result<serde_json::Value, serde_json::Error>)
    ensures
        match parsed {
            Ok(value) => json_document(bytes@) == Some(json_content(value)),
            Err(_) => json_document(bytes@) is None,
        },
{
    serde_json::from_slice(bytes)
}

/// One level of a parsed document, with what lies below still to be read.
enum Layer<'a> {
    Null,
    Bool(bool),
    Number(JsonNumber),
    Text(&'a String),
    Array(&'a Vec<serde_json::Value>),
    Object(Vec<(&'a String, &'a serde_json::Value)>),
}

impl<'a> Layer<'a> {
    /// The document that this is the top level of.
    spec fn content(self) -> JsonView {
        match self {
            Layer::Null => JsonView::Null,
            Layer::Bool(b) => JsonView::Bool(b),
            Layer::Number(n) => JsonView::Number(n),
            Layer::Text(s) => JsonView::Text(s@),
            Layer::Array(items) => JsonView::Array(
                Seq::new(items@.len(), |i: int| json_content(items@[i])),
            ),
            Layer::Object(members) => JsonView::Object(
                Seq::new(members@.len(), |i: int| (members@[i].0@, json_content(*members@[i].1))),
            ),
        }
    }
}

/// A level shows exactly what it holds, and what lies below by its content.
proof fn layers_show_what_they_hold(layer: Layer)
    ensures
        match layer {
            Layer::Null => layer.content() == JsonView::Null,
            Layer::Bool(b) => layer.content() == JsonView::Bool(b),
            Layer::Number(n) => layer.content() == JsonView::Number(n),
            Layer::Text(s) => layer.content() == JsonView::Text(s@),
            Layer::Array(items) => {
                &&& layer.content() is Array
                &&& layer.content()->Array_0.len() == items@.len()
                &&& forall|i: int|
                    0 <= i < items@.len() ==> #[trigger] layer.content()->Array_0[i]
                        == json_content(items@[i])
            },
            Layer::Object(members) => {
                &&& layer.content() is Object
                &&& layer.content()->Object_0.len() == members@.len()
                &&& forall|i: int|
                    0 <= i < members@.len() ==> #[trigger] layer.content()->Object_0[i] == (
                        members@[i].0@,
                        json_content(*members@[i].1),
                    )
            },
        },
{
}

/// The variant of a `serde_json::Value` with its fields; nothing is left out or
/// reordered. An object's members come from `serde_json::Map::iter`. A number is
/// told apart with `Number::as_u64`, `as_i64` and `as_f64`; the last of them
/// answers for every number.
#[verifier::external_body]
fn top_layer(value: &serde_json::Value) -> (layer: Layer<'_>)
    ensures
        layer.content() == json_content(*value),
{
    match value {
        serde_json::Value::Null => Layer::Null,
        serde_json::Value::Bool(b) => Layer::Bool(*b),
        serde_json::Value::Number(n) => Layer::Number(match (n.as_u64(), n.as_i64(), n.as_f64()) {
            (Some(u), _, _) => JsonNumber::PosInt(u),
            (_, Some(i), _) => JsonNumber::NegInt(i),
            (_, _, f) => JsonNumber::FloatBits(f.unwrap_or_default().to_bits()),
        }),
        serde_json::Value::String(s) => Layer::Text(s),
        serde_json::Value::Array(items) => Layer::Array(items),
        serde_json::Value::Object(members) => Layer::Object(members.iter().collect()),
    }
}

} // verus!
