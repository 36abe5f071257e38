//! JSON documents as the launcher reads them.

use vstd::prelude::*;

verus! {

/// Mathematical model of a JSON document.
///
/// A number is known by its two integer readings: neither exists for a fraction. The
/// fields of an object stand in the order in which its map hands them out.
pub enum JsonTree {
    Null,
    Bool(bool),
    Number { unsigned: Option<u64>, signed: Option<i64> },
    Text(Seq<char>),
    Array(Seq<JsonTree>),
    Object(Seq<(Seq<char>, JsonTree)>),
}

/// The value of the first field named `key`.
pub open spec fn find_field(fields: Seq<(Seq<char>, JsonTree)>, key: Seq<char>) -> Option<JsonTree>
    decreases fields.len(),
{
    if fields.len() == 0 {
        None
    } else if fields[0].0 == key {
        Some(fields[0].1)
    } else {
        find_field(fields.drop_first(), key)
    }
}

/// The document of an integer.
pub open spec fn integer_tree(n: i64) -> JsonTree {
    JsonTree::Number {
        unsigned: if n >= 0 {
            Some(n as u64)
        } else {
            None
        },
        signed: Some(n),
    }
}

impl JsonTree {
    /// The value of a field, if this is an object that has it.
    pub open spec fn field(self, key: Seq<char>) -> Option<JsonTree> {
        match self {
            JsonTree::Object(fields) => find_field(fields, key),
            _ => None,
        }
    }

    /// The elements, if this is an array.
    pub open spec fn items(self) -> Option<Seq<JsonTree>> {
        match self {
            JsonTree::Array(items) => Some(items),
            _ => None,
        }
    }

    /// The characters, if this is a string.
    pub open spec fn text(self) -> Option<Seq<char>> {
        match self {
            JsonTree::Text(s) => Some(s),
            _ => None,
        }
    }

    /// The truth value, if this is a boolean.
    pub open spec fn boolean(self) -> Option<bool> {
        match self {
            JsonTree::Bool(b) => Some(b),
            _ => None,
        }
    }

    /// The number as an unsigned integer, if it is one.
    pub open spec fn unsigned(self) -> Option<u64> {
        match self {
            JsonTree::Number { unsigned, .. } => unsigned,
            _ => None,
        }
    }

    /// The number as a signed integer, if it is one.
    pub open spec fn signed(self) -> Option<i64> {
        match self {
            JsonTree::Number { signed, .. } => signed,
            _ => None,
        }
    }

    /// The elements of the array in a field.
    pub open spec fn items_at(self, key: Seq<char>) -> Option<Seq<JsonTree>> {
        match self.field(key) {
            Some(value) => value.items(),
            None => None,
        }
    }

    /// The characters of the string in a field.
    pub open spec fn text_at(self, key: Seq<char>) -> Option<Seq<char>> {
        match self.field(key) {
            Some(value) => value.text(),
            None => None,
        }
    }

    /// The truth value of the boolean in a field.
    pub open spec fn boolean_at(self, key: Seq<char>) -> Option<bool> {
        match self.field(key) {
            Some(value) => value.boolean(),
            None => None,
        }
    }

    /// The unsigned integer in a field.
    pub open spec fn unsigned_at(self, key: Seq<char>) -> Option<u64> {
        match self.field(key) {
            Some(value) => value.unsigned(),
            None => None,
        }
    }

    /// The signed integer in a field.
    pub open spec fn signed_at(self, key: Seq<char>) -> Option<i64> {
        match self.field(key) {
            Some(value) => value.signed(),
            None => None,
        }
    }
}

/// A JSON document.
#[derive(Debug)]
pub enum Json {
    Null,
    Bool(bool),
    Number { unsigned: Option<u64>, signed: Option<i64> },
    Text(String),
    Array(Vec<Json>),
    Object(Vec<(String, Json)>),
}

impl Json {
    /// The document as a mathematical value.
    pub open spec fn tree(self) -> JsonTree
        decreases self,
    {
        match self {
            Json::Null => JsonTree::Null,
            Json::Bool(b) => JsonTree::Bool(b),
            Json::Number { unsigned, signed } => JsonTree::Number { unsigned, signed },
            Json::Text(s) => JsonTree::Text(s@),
            Json::Array(items) => JsonTree::Array(
                Seq::new(
                    items@.len(),
                    |i: int|
                        if 0 <= i < items@.len() {
                            items@[i].tree()
                        } else {
                            JsonTree::Null
                        },
                ),
            ),
            Json::Object(fields) => JsonTree::Object(
                Seq::new(
                    fields@.len(),
                    |i: int|
                        if 0 <= i < fields@.len() {
                            (fields@[i].0@, fields@[i].1.tree())
                        } else {
                            (Seq::empty(), JsonTree::Null)
                        },
                ),
            ),
        }
    }
}

impl View for Json {
    type V = JsonTree;

    open spec fn view(&self) -> JsonTree {
        self.tree()
    }
}

/// A value of `serde_json`: opaque here, read one level at a time through [`open_value`].
#[verifier::external_type_specification]
#[verifier::external_body]
pub struct ExValue(serde_json::Value);

/// The document that a `serde_json::Value` holds: a finite tree, made of what its variant
/// contains.
pub uninterp spec fn value_tree(value: serde_json::Value) -> JsonTree;

/// One level of a `serde_json::Value`: its variant, with the children still closed.
enum Node {
    Null,
    Bool(bool),
    Number { unsigned: Option<u64>, signed: Option<i64> },
    Text(String),
    Array(Vec<serde_json::Value>),
    Object(Vec<(String, serde_json::Value)>),
}

impl Node {
    /// The document that the level and its children hold together.
    spec fn tree(self) -> JsonTree {
        match self {
            Node::Null => JsonTree::Null,
            Node::Bool(b) => JsonTree::Bool(b),
            Node::Number { unsigned, signed } => JsonTree::Number { unsigned, signed },
            Node::Text(s) => JsonTree::Text(s@),
            Node::Array(items) => JsonTree::Array(
                Seq::new(items@.len(), |i: int| value_tree(items@[i])),
            ),
            Node::Object(fields) => JsonTree::Object(
                Seq::new(fields@.len(), |i: int| (fields@[i].0@, value_tree(fields@[i].1))),
            ),
        }
    }
}

/// Opens one level of a `serde_json::Value` by matching on its variants: a number is read by
/// `serde_json::Number::as_u64` and `as_i64`, and the fields of an object are those that its
/// map hands out. Believed of it: the level and its children hold the document of the value,
/// neither more nor less.
#[verifier::external_body]
fn open_value(value: serde_json::Value) -> (node: Node)
    ensures
        node.tree() == value_tree(value),
{
    match value {
        serde_json::Value::Null => Node::Null,
        serde_json::Value::Bool(b) => Node::Bool(b),
        serde_json::Value::Number(n) => Node::Number { unsigned: n.as_u64(), signed: n.as_i64() },
        serde_json::Value::String(s) => Node::Text(s),
        serde_json::Value::Array(items) => Node::Array(items),
        serde_json::Value::Object(fields) => Node::Object(fields.into_iter().collect()),
    }
}

impl Json {
    /// Reads a whole `serde_json::Value`.
    pub fn from_value(value: serde_json::Value) -> (json: Json)
        ensures
            json@ == value_tree(value),
        decreases value_tree(value),
    {
        let node = open_value(value);
        match node {
            Node::Null => Json::Null,
            Node::Bool(b) => Json::Bool(b),
            Node::Number { unsigned, signed } => Json::Number { unsigned, signed },
            Node::Text(s) => Json::Text(s),
            Node::Array(items) => {
                let mut read: Vec<Json> = Vec::new();
                let ghost all = items@;
                for item in it: items
                    invariant
                        it.seq() == all,
                        value_tree(value) == JsonTree::Array(Seq::new(all.len(), |i: int| value_tree(all[i]))),
                        read@.len() == it.index(),
                        forall|i: int| 0 <= i < read@.len() ==> (#[trigger] read@[i])@ == value_tree(all[i]),
                {
                    assert(value_tree(value)->Array_0[it.index()] == value_tree(item));
                    read.push(Json::from_value(item));
                }
                let json = Json::Array(read);
                assert(json@->Array_0 =~= value_tree(value)->Array_0);
                json
            },
            Node::Object(fields) => {
                let mut read: Vec<(String, Json)> = Vec::new();
                let ghost all = fields@;
                for field in it: fields
                    invariant
                        it.seq() == all,
                        value_tree(value) == JsonTree::Object(
                            Seq::new(all.len(), |i: int| (all[i].0@, value_tree(all[i].1))),
                        ),
                        read@.len() == it.index(),
                        forall|i: int|
                            0 <= i < read@.len() ==> (#[trigger] read@[i]).0@ == all[i].0@
                                && read@[i].1@ == value_tree(all[i].1),
                {
                    assert(value_tree(value)->Object_0[it.index()].1 == value_tree(field.1));
                    let (key, inner) = field;
                    read.push((key, Json::from_value(inner)));
                }
                let json = Json::Object(read);
                assert(json@->Object_0 =~= value_tree(value)->Object_0);
                json
            },
        }
    }
}

/// The trees of optional documents.
pub open spec fn opt_tree(json: Option<&Json>) -> Option<JsonTree> {
    match json {
        Some(j) => Some(j@),
        None => None,
    }
}

impl Json {
    /// The value of a field, if this is an object that has it.
    pub fn get(&self, key: &str) -> (value: Option<&Json>)
        ensures
            opt_tree(value) == self@.field(key@),
    {
        match self {
            Json::Object(fields) => {
                let wanted: String = key.to_owned();
                let ghost trees = self@->Object_0;
                assert(trees.skip(0) =~= trees);
                let mut i: usize = 0;
                while i < fields.len()
                    invariant
                        i <= fields@.len(),
                        wanted@ == key@,
                        self@ == JsonTree::Object(trees),
                        *self == Json::Object(*fields),
                        trees.len() == fields@.len(),
                        forall|k: int|
                            0 <= k < trees.len() ==> (#[trigger] trees[k]) == (
                                fields@[k].0@,
                                fields@[k].1@,
                            ),
                        find_field(trees, key@) == find_field(trees.skip(i as int), key@),
                    decreases fields.len() - i,
                {
                    assert(trees.skip(i as int)[0] == trees[i as int]);
                    assert(trees.skip(i as int).drop_first() =~= trees.skip(i + 1));
                    if fields[i].0 == wanted {
                        return Some(&fields[i].1);
                    }
                    i = i + 1;
                }
                None
            },
            _ => None,
        }
    }

    /// The elements, if this is an array.
    pub fn as_array(&self) -> (items: Option<&Vec<Json>>)
        ensures
            match items {
                Some(v) => self@.items() matches Some(trees) && trees.len() == v@.len() && forall|
                    i: int,
                |
                    0 <= i < trees.len() ==> #[trigger] trees[i] == v@[i]@,
                None => self@.items() is None,
            },
    {
        match self {
            Json::Array(items) => Some(items),
            _ => None,
        }
    }

    /// The characters, if this is a string.
    pub fn as_str(&self) -> (text: Option<&str>)
        ensures
            match text {
                Some(s) => self@.text() == Some(s@),
                None => self@.text() is None,
            },
    {
        match self {
            Json::Text(s) => Some(s.as_str()),
            _ => None,
        }
    }

    /// The truth value, if this is a boolean.
    pub fn as_bool(&self) -> (value: Option<bool>)
        ensures
            value == self@.boolean(),
    {
        match self {
            Json::Bool(b) => Some(*b),
            _ => None,
        }
    }

    /// The number as an unsigned integer, if it is one.
    pub fn as_u64(&self) -> (value: Option<u64>)
        ensures
            value == self@.unsigned(),
    {
        match self {
            Json::Number { unsigned, .. } => *unsigned,
            _ => None,
        }
    }

    /// The number as a signed integer, if it is one.
    pub fn as_i64(&self) -> (value: Option<i64>)
        ensures
            value == self@.signed(),
    {
        match self {
            Json::Number { signed, .. } => *signed,
            _ => None,
        }
    }

    /// The elements of the array in a field.
    pub fn array_at(&self, key: &str) -> (items: Option<&Vec<Json>>)
        ensures
            match items {
                Some(v) => self@.items_at(key@) matches Some(trees) && trees.len() == v@.len()
                    && forall|i: int| 0 <= i < trees.len() ==> #[trigger] trees[i] == v@[i]@,
                None => self@.items_at(key@) is None,
            },
    {
        match self.get(key) {
            Some(value) => value.as_array(),
            None => None,
        }
    }

    /// The characters of the string in a field.
    pub fn str_at(&self, key: &str) -> (text: Option<&str>)
        ensures
            match text {
                Some(s) => self@.text_at(key@) == Some(s@),
                None => self@.text_at(key@) is None,
            },
    {
        match self.get(key) {
            Some(value) => value.as_str(),
            None => None,
        }
    }

    /// The truth value of the boolean in a field.
    pub fn bool_at(&self, key: &str) -> (value: Option<bool>)
        ensures
            value == self@.boolean_at(key@),
    {
        match self.get(key) {
            Some(value) => value.as_bool(),
            None => None,
        }
    }

    /// The unsigned integer in a field.
    pub fn u64_at(&self, key: &str) -> (value: Option<u64>)
        ensures
            value == self@.unsigned_at(key@),
    {
        match self.get(key) {
            Some(value) => value.as_u64(),
            None => None,
        }
    }

    /// The signed integer in a field.
    pub fn i64_at(&self, key: &str) -> (value: Option<i64>)
        ensures
            value == self@.signed_at(key@),
    {
        match self.get(key) {
            Some(value) => value.as_i64(),
            None => None,
        }
    }
}

/// Builds `serde_json::Value::Null`: it holds the null document.
#[verifier::external_body]
pub(crate) fn null_value() -> (value: serde_json::Value)
    ensures
        value_tree(value) == JsonTree::Null,
{
    serde_json::Value::Null
}

/// Builds `serde_json::Value::Bool`: it holds the boolean it is given.
#[verifier::external_body]
pub(crate) fn bool_value(b: bool) -> (value: serde_json::Value)
    ensures
        value_tree(value) == JsonTree::Bool(b),
{
    serde_json::Value::Bool(b)
}

/// Builds `serde_json::Value::String`: it holds the characters it is given.
#[verifier::external_body]
pub(crate) fn text_value(text: String) -> (value: serde_json::Value)
    ensures
        value_tree(value) == JsonTree::Text(text@),
{
    serde_json::Value::String(text)
}

/// Calls `serde_json::Value::from` on an `i64`: the number it makes reads back as that
/// integer, and as an unsigned one where it is not negative.
#[verifier::external_body]
fn integer_value(n: i64) -> (value: serde_json::Value)
    ensures
        value_tree(value) == integer_tree(n),
{
    serde_json::Value::from(n)
}

/// Builds `serde_json::Value::Array`: it holds the documents of its elements, in order.
#[verifier::external_body]
fn array_value(items: Vec<serde_json::Value>) -> (value: serde_json::Value)
    ensures
        value_tree(value) == JsonTree::Array(
            Seq::new(items@.len(), |i: int| value_tree(items@[i])),
        ),
{
    serde_json::Value::Array(items)
}

/// The document of a list of integers.
pub open spec fn integers_tree(ids: Seq<i64>) -> JsonTree {
    JsonTree::Array(Seq::new(ids.len(), |i: int| integer_tree(ids[i])))
}

/// The array of the given integers, in order.
pub fn integers_value(ids: &Vec<i64>) -> (value: serde_json::Value)
    ensures
        value_tree(value) == integers_tree(ids@),
{
    let mut items: Vec<serde_json::Value> = Vec::new();
    let mut i: usize = 0;
    while i < ids.len()
        invariant
            i <= ids@.len(),
            items@.len() == i,
            forall|k: int| 0 <= k < i ==> value_tree(#[trigger] items@[k]) == integer_tree(ids@[k]),
        decreases ids.len() - i,
    {
        items.push(integer_value(ids[i]));
        i = i + 1;
    }
    assert(Seq::new(items@.len(), |i: int| value_tree(items@[i])) =~= Seq::new(
        ids@.len(),
        |i: int| integer_tree(ids@[i]),
    ));
    array_value(items)
}

// ---- Laws ----

/// An object has a field exactly where one of its entries has that name, and the first such
/// entry is the field.
pub proof fn fields_are_the_first_of_their_name(
    fields: Seq<(Seq<char>, JsonTree)>,
    key: Seq<char>,
    i: int,
)
    requires
        0 <= i <= fields.len(),
        forall|j: int| 0 <= j < i ==> (#[trigger] fields[j]).0 != key,
        i < fields.len() ==> fields[i].0 == key,
    ensures
        JsonTree::Object(fields).field(key) == if i < fields.len() {
            Some(fields[i].1)
        } else {
            None
        },
    decreases i,
{
    if i > 0 {
        let rest = fields.drop_first();
        assert(fields[0].0 != key);
        assert forall|j: int| 0 <= j < i - 1 implies (#[trigger] rest[j]).0 != key by {
            assert(rest[j] == fields[j + 1]);
        }
        fields_are_the_first_of_their_name(rest, key, i - 1);
    }
}

/// Nothing but an object has fields.
pub proof fn only_objects_have_fields(tree: JsonTree, key: Seq<char>)
    requires
        !(tree is Object),
    ensures
        tree.field(key) is None,
{
}

/// A document is read as what it is, and as nothing else.
pub proof fn documents_read_as_what_they_are(
    tree: JsonTree,
    text: Seq<char>,
    truth: bool,
    items: Seq<JsonTree>,
)
    ensures
        tree.text() == Some(text) <==> tree == JsonTree::Text(text),
        tree.boolean() == Some(truth) <==> tree == JsonTree::Bool(truth),
        tree.items() == Some(items) <==> tree == JsonTree::Array(items),
        tree.unsigned() is Some ==> tree is Number,
        tree.signed() is Some ==> tree is Number,
        tree matches JsonTree::Number { unsigned, signed } ==> tree.unsigned() == unsigned
            && tree.signed() == signed,
{
}

/// A field is read as the document that stands in it is read; a field that is not there is
/// read as nothing.
pub proof fn fields_read_as_their_documents(tree: JsonTree, key: Seq<char>)
    ensures
        match tree.field(key) {
            Some(value) => {
                &&& tree.text_at(key) == value.text()
                &&& tree.boolean_at(key) == value.boolean()
                &&& tree.items_at(key) == value.items()
                &&& tree.unsigned_at(key) == value.unsigned()
                &&& tree.signed_at(key) == value.signed()
            },
            None => {
                &&& tree.text_at(key) is None
                &&& tree.boolean_at(key) is None
                &&& tree.items_at(key) is None
                &&& tree.unsigned_at(key) is None
                &&& tree.signed_at(key) is None
            },
        },
{
}

/// A list of integers that was written reads back integer by integer; one that is not
/// negative reads as an unsigned integer too.
pub proof fn integers_read_back(ids: Seq<i64>)
    ensures
        integers_tree(ids) is Array,
        integers_tree(ids)->Array_0.len() == ids.len(),
        forall|i: int|
            0 <= i < ids.len() ==> {
                let item = #[trigger] integers_tree(ids)->Array_0[i];
                &&& item is Number
                &&& item.signed() == Some(ids[i])
                &&& item.unsigned() is Some <==> ids[i] >= 0
                &&& item.unsigned() matches Some(n) ==> n == ids[i]
            },
{
}

/// The model of a document holds what the document holds.
pub proof fn models_hold_the_whole_document(json: Json)
    ensures
        json is Null <==> json@ is Null,
        json matches Json::Bool(b) ==> json@ == JsonTree::Bool(b),
        json matches Json::Number { unsigned, signed } ==> json@ == (JsonTree::Number {
            unsigned,
            signed,
        }),
        json matches Json::Text(s) ==> json@ == JsonTree::Text(s@),
        json matches Json::Array(items) ==> (json@ matches JsonTree::Array(trees) && trees.len()
            == items@.len() && forall|i: int|
            0 <= i < trees.len() ==> #[trigger] trees[i] == items@[i]@),
        json matches Json::Object(fields) ==> (json@ matches JsonTree::Object(trees) && trees.len()
            == fields@.len() && forall|i: int|
            0 <= i < trees.len() ==> #[trigger] trees[i] == (fields@[i].0@, fields@[i].1@)),
        opt_tree(Some(&json)) == Some(json@),
        opt_tree(None) is None,
{
}

} // verus!
