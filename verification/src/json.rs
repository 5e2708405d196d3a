//! JSON documents: those that arrive are read through `serde_json`, those that are sent are
//! composed here.
use vstd::prelude::*;
use crate::text::opt_text;

verus! {

/// A parsed JSON document, held by `serde_json`.
#[verifier::external_type_specification]
#[verifier::external_body]
pub struct ExValue(serde_json::Value);

/// What `serde_json` reports of a text that is not JSON.
#[verifier::external_type_specification]
#[verifier::external_body]
pub struct ExJsonError(serde_json::Error);

/// One thing that a document holds at some place.
pub enum JsonLeaf {
    /// A string.
    Text(Seq<char>),
    /// A number that is held as an integer.
    Integer(int),
    /// An array of this many elements.
    List(nat),
}

/// What a document holds: for each JSON pointer (RFC 6901) at which a string, an integer or an
/// array stands, that string, that integer or the array's length.
pub uninterp spec fn json_leaves(v: serde_json::Value) -> Map<Seq<char>, JsonLeaf>;

/// The document that `serde_json::from_slice` reads from bytes, or `None` where it rejects them.
pub uninterp spec fn json_document(body: Seq<u8>) -> Option<Map<Seq<char>, JsonLeaf>>;

/// The string at `pointer`, if a string stands there.
pub open spec fn leaf_text(doc: Map<Seq<char>, JsonLeaf>, pointer: Seq<char>) -> Option<Seq<char>> {
    if doc.contains_key(pointer) && doc[pointer] is Text {
        Some(doc[pointer]->Text_0)
    } else {
        None
    }
}

/// The integer at `pointer`, if one stands there.
pub open spec fn leaf_integer(doc: Map<Seq<char>, JsonLeaf>, pointer: Seq<char>) -> Option<int> {
    if doc.contains_key(pointer) && doc[pointer] is Integer {
        Some(doc[pointer]->Integer_0)
    } else {
        None
    }
}

/// The length of the array at `pointer`, if an array stands there.
pub open spec fn leaf_list(doc: Map<Seq<char>, JsonLeaf>, pointer: Seq<char>) -> Option<nat> {
    if doc.contains_key(pointer) && doc[pointer] is List {
        Some(doc[pointer]->List_0)
    } else {
        None
    }
}

/// `n` as a signed 64-bit integer, where it fits.
pub open spec fn fit_i64(n: Option<int>) -> Option<i64> {
    match n {
        Some(n) => if i64::MIN <= n <= i64::MAX {
            Some(n as i64)
        } else {
            None
        },
        None => None,
    }
}

/// `n` as an unsigned 64-bit integer, where it fits.
pub open spec fn fit_u64(n: Option<int>) -> Option<u64> {
    match n {
        Some(n) => if 0 <= n <= u64::MAX {
            Some(n as u64)
        } else {
            None
        },
        None => None,
    }
}

/// Calls `serde_json::from_slice`. Whether it succeeds, and what the document then holds, depends
/// on the bytes alone.
#[verifier::external_body]
pub(crate) fn parse_json(body: &[u8]) -> (res: Result<serde_json::Value, serde_json::Error>)
    ensures
        match res {
            Ok(v) => json_document(body@) == Some(json_leaves(v)),
            Err(_) => json_document(body@) is None,
        },
{
    serde_json::from_slice(body)
}

/// Calls `serde_json::Value::pointer` and `as_str`: the string that stands at `pointer`.
#[verifier::external_body]
pub(crate) fn text_at(v: &serde_json::Value, pointer: &str) -> (res: Option<String>)
    ensures
        opt_text(res) == leaf_text(json_leaves(*v), pointer@),
{
    v.pointer(pointer).and_then(serde_json::Value::as_str).map(str::to_owned)
}

/// Calls `serde_json::Value::pointer` and `as_i64`: the integer that stands at `pointer`, where
/// it fits.
#[verifier::external_body]
pub(crate) fn signed_at(v: &serde_json::Value, pointer: &str) -> (res: Option<i64>)
    ensures
        res == fit_i64(leaf_integer(json_leaves(*v), pointer@)),
{
    v.pointer(pointer).and_then(serde_json::Value::as_i64)
}

/// Calls `serde_json::Value::pointer` and `as_u64`: the integer that stands at `pointer`, where
/// it fits.
#[verifier::external_body]
pub(crate) fn unsigned_at(v: &serde_json::Value, pointer: &str) -> (res: Option<u64>)
    ensures
        res == fit_u64(leaf_integer(json_leaves(*v), pointer@)),
{
    v.pointer(pointer).and_then(serde_json::Value::as_u64)
}

/// Calls `serde_json::Value::pointer` and `as_array`: the length of the array that stands at
/// `pointer`.
#[verifier::external_body]
pub(crate) fn list_len_at(v: &serde_json::Value, pointer: &str) -> (res: Option<usize>)
    ensures
        match res {
            Some(n) => leaf_list(json_leaves(*v), pointer@) == Some(n as nat),
            None => leaf_list(json_leaves(*v), pointer@) is None,
        },
{
    v.pointer(pointer).and_then(serde_json::Value::as_array).map(Vec::len)
}

/// A JSON value to be sent.
pub enum Json {
    /// `true` or `false`.
    Bool(bool),
    /// An integer.
    Int(i64),
    /// A string.
    Text(String),
    /// An array.
    List(Vec<Json>),
    /// An object: its members in order.
    Object(Vec<(String, Json)>),
}

/// What a [`Json`] value says.
pub enum JsonView {
    /// `true` or `false`.
    Bool(bool),
    /// An integer.
    Int(int),
    /// A string.
    Text(Seq<char>),
    /// An array.
    List(Seq<JsonView>),
    /// An object: its members in order.
    Object(Seq<(Seq<char>, JsonView)>),
}

/// What each element of an array says.
pub open spec fn items_view(items: Seq<Json>) -> Seq<JsonView>
    decreases items,
{
    Seq::new(
        items.len(),
        |i: int|
            if 0 <= i < items.len() {
                json_view(items[i])
            } else {
                arbitrary()
            },
    )
}

/// What a list of object members says.
pub open spec fn members_view(members: Seq<(String, Json)>) -> Seq<(Seq<char>, JsonView)>
    decreases members,
{
    Seq::new(
        members.len(),
        |i: int|
            if 0 <= i < members.len() {
                (members[i].0@, json_view(members[i].1))
            } else {
                arbitrary()
            },
    )
}

/// What a value says.
pub open spec fn json_view(j: Json) -> JsonView
    decreases j,
{
    match j {
        Json::Bool(b) => JsonView::Bool(b),
        Json::Int(n) => JsonView::Int(n as int),
        Json::Text(s) => JsonView::Text(s@),
        Json::List(items) => JsonView::List(items_view(items@)),
        Json::Object(members) => JsonView::Object(members_view(members@)),
    }
}

impl View for Json {
    type V = JsonView;

    open spec fn view(&self) -> JsonView {
        json_view(*self)
    }
}

impl JsonView {
    /// An object without members.
    pub open spec fn object() -> JsonView {
        JsonView::Object(Seq::empty())
    }

    /// The object with one member more, at its end.
    pub open spec fn with(self, key: Seq<char>, value: JsonView) -> JsonView {
        JsonView::Object(self->Object_0.push((key, value)))
    }
}

impl Json {
    /// A string.
    pub fn text(s: &str) -> (j: Json)
        ensures
            j@ == JsonView::Text(s@),
    {
        Json::Text(s.to_owned())
    }

    /// An array of one element.
    pub fn list_of(item: Json) -> (j: Json)
        ensures
            j@ == JsonView::List(seq![item@]),
    {
        let mut items: Vec<Json> = Vec::new();
        items.push(item);
        let j = Json::List(items);
        assert(j@->List_0 =~= seq![item@]);
        j
    }

    /// An object without members.
    pub fn object() -> (j: Json)
        ensures
            j is Object,
            j@ == JsonView::object(),
    {
        let j = Json::Object(Vec::new());
        assert(j@->Object_0 =~= Seq::empty());
        j
    }

    /// The object with one member more, at its end.
    pub fn with(self, key: &str, value: Json) -> (j: Json)
        requires
            self is Object,
        ensures
            j is Object,
            j@ == self@.with(key@, value@),
    {
        match self {
            Json::Object(members) => {
                let mut all = members;
                all.push((key.to_owned(), value));
                let j = Json::Object(all);
                assert(j@->Object_0 =~= self@->Object_0.push((key@, value@)));
                j
            },
            other => other,
        }
    }
}

} // verus!
