//! JSON documents, as far as the tool reads them.

use vstd::prelude::*;
use vstd::string::*;
use crate::text::same_text;

verus! {

/// A JSON number: a whole number where it is one and fits, else the bits of
/// the floating-point number.
#[derive(Clone, Copy, Debug, PartialEq, Eq, Structural)]
pub enum JsonNumber {
    Unsigned(u64),
    Signed(i64),
    Float { bits: u64 },
}

/// A JSON document. The fields of an object are kept in a list.
#[derive(Debug)]
pub enum Json {
    Null,
    Bool(bool),
    Number(JsonNumber),
    Text(String),
    Array(Vec<Json>),
    Object(Vec<(String, Json)>),
}

/// What a [`Json`] document holds, as plain values.
pub enum JsonView {
    Null,
    Bool(bool),
    Number(JsonNumber),
    Text(Seq<char>),
    Array(Seq<JsonView>),
    Object(Seq<(Seq<char>, JsonView)>),
}

/// What `doc` holds, as plain values.
pub open spec fn json_view(doc: Json) -> JsonView
    decreases doc,
{
    match doc {
        Json::Null => JsonView::Null,
        Json::Bool(b) => JsonView::Bool(b),
        Json::Number(n) => JsonView::Number(n),
        Json::Text(s) => JsonView::Text(s@),
        Json::Array(items) => JsonView::Array(
            Seq::new(
                items@.len(),
                |i: int|
                    if 0 <= i < items@.len() {
                        json_view(items@[i])
                    } else {
                        JsonView::Null
                    },
            ),
        ),
        Json::Object(fields) => JsonView::Object(
            Seq::new(
                fields@.len(),
                |i: int|
                    if 0 <= i < fields@.len() {
                        (fields@[i].0@, json_view(fields@[i].1))
                    } else {
                        (Seq::empty(), JsonView::Null)
                    },
            ),
        ),
    }
}

impl View for Json {
    type V = JsonView;

    open spec fn view(&self) -> JsonView {
        json_view(*self)
    }
}

/// The views of the fields of an object.
pub open spec fn field_views(fields: Seq<(String, Json)>) -> Seq<(Seq<char>, JsonView)> {
    Seq::new(fields.len(), |i: int| (fields[i].0@, fields[i].1@))
}

/// The views of the elements of an array.
pub open spec fn element_views(items: Seq<Json>) -> Seq<JsonView> {
    Seq::new(items.len(), |i: int| items[i]@)
}

/// The value of the first of `fields` that is named `key`.
pub open spec fn field_named(fields: Seq<(Seq<char>, JsonView)>, key: Seq<char>) -> Option<
    JsonView,
>
    decreases fields.len(),
{
    if fields.len() == 0 {
        None
    } else if fields[0].0 == key {
        Some(fields[0].1)
    } else {
        field_named(fields.drop_first(), key)
    }
}

/// The member `key` of `doc`: `doc` is an object and has a field of that name.
pub open spec fn member_of(doc: JsonView, key: Seq<char>) -> Option<JsonView> {
    match doc {
        JsonView::Object(fields) => field_named(fields, key),
        _ => None,
    }
}

/// The element at `index` of `doc`: `doc` is an array and is long enough.
pub open spec fn element_of(doc: JsonView, index: int) -> Option<JsonView> {
    match doc {
        JsonView::Array(items) => if 0 <= index < items.len() {
            Some(items[index])
        } else {
            None
        },
        _ => None,
    }
}

/// The text of `doc`: `doc` is a string.
pub open spec fn text_of(doc: JsonView) -> Option<Seq<char>> {
    match doc {
        JsonView::Text(s) => Some(s),
        _ => None,
    }
}

/// The number of `doc` as an unsigned whole number: `doc` is a number, whole
/// and not negative.
pub open spec fn unsigned_of(doc: JsonView) -> Option<u64> {
    match doc {
        JsonView::Number(JsonNumber::Unsigned(n)) => Some(n),
        _ => None,
    }
}

/// The array of the numbers of `bytes`.
pub open spec fn byte_array_of(bytes: Seq<u8>) -> JsonView {
    JsonView::Array(bytes.map_values(|b: u8| JsonView::Number(JsonNumber::Unsigned(b as u64))))
}

/// The view of an array is the array of the views of its elements.
pub proof fn lemma_array_view(items: Vec<Json>)
    ensures
        Json::Array(items)@ == JsonView::Array(element_views(items@)),
{
    assert(Json::Array(items)@->Array_0 =~= element_views(items@));
}

/// The view of an object is the object of the views of its fields.
pub proof fn lemma_object_view(fields: Vec<(String, Json)>)
    ensures
        Json::Object(fields)@ == JsonView::Object(field_views(fields@)),
{
    assert(Json::Object(fields)@->Object_0 =~= field_views(fields@));
}

impl Json {
    /// The member `key` of an object.
    pub fn member(&self, key: &str) -> (r: Option<&Json>)
        ensures
            match r {
                Some(v) => member_of(self@, key@) == Some(v@),
                None => member_of(self@, key@) is None,
            },
    {
        match self {
            Json::Object(fields) => {
                proof {
                    lemma_object_view(*fields);
                }
                let ghost views = field_views(fields@);
                let mut i: usize = 0;
                assert(views.skip(0) =~= views);
                while i < fields.len()
                    invariant
                        i <= fields.len(),
                        views == field_views(fields@),
                        member_of(self@, key@) == field_named(views, key@),
                        field_named(views, key@) == field_named(views.skip(i as int), key@),
                    decreases fields.len() - i,
                {
                    let ghost rest = views.skip(i as int);
                    assert(rest.len() > 0 && rest[0] == views[i as int]);
                    assert(rest.drop_first() =~= views.skip(i + 1));
                    if same_text(fields[i].0.as_str(), key) {
                        assert(field_named(rest, key@) == Some(rest[0].1));
                        return Some(&fields[i].1);
                    }
                    assert(field_named(rest, key@) == field_named(rest.drop_first(), key@));
                    i += 1;
                }
                assert(views.skip(i as int).len() == 0);
                None
            },
            _ => None,
        }
    }

    /// The element at `index` of an array.
    pub fn element(&self, index: usize) -> (r: Option<&Json>)
        ensures
            match r {
                Some(v) => element_of(self@, index as int) == Some(v@),
                None => element_of(self@, index as int) is None,
            },
    {
        match self {
            Json::Array(items) => {
                proof {
                    lemma_array_view(*items);
                }
                if index < items.len() {
                    Some(&items[index])
                } else {
                    None
                }
            },
            _ => None,
        }
    }

    /// The text of a string.
    pub fn as_text(&self) -> (r: Option<&str>)
        ensures
            match r {
                Some(s) => text_of(self@) == Some(s@),
                None => text_of(self@) is None,
            },
    {
        match self {
            Json::Text(s) => Some(s.as_str()),
            _ => None,
        }
    }

    /// The value of a whole number that is not negative.
    pub fn as_unsigned(&self) -> (r: Option<u64>)
        ensures
            r == unsigned_of(self@),
    {
        match self {
            Json::Number(JsonNumber::Unsigned(n)) => Some(*n),
            _ => None,
        }
    }

    /// The string `text`.
    pub fn text(text: &str) -> (r: Json)
        ensures
            r@ == JsonView::Text(text@),
    {
        Json::Text(String::from_str(text))
    }

    /// The whole number `n`.
    pub fn unsigned(n: u64) -> (r: Json)
        ensures
            r@ == JsonView::Number(JsonNumber::Unsigned(n)),
    {
        Json::Number(JsonNumber::Unsigned(n))
    }

    /// The array of `items`.
    pub fn array(items: Vec<Json>) -> (r: Json)
        ensures
            r@ == JsonView::Array(element_views(items@)),
    {
        proof {
            lemma_array_view(items);
        }
        Json::Array(items)
    }

    /// The object of `fields`.
    pub fn object(fields: Vec<(String, Json)>) -> (r: Json)
        ensures
            r@ == JsonView::Object(field_views(fields@)),
    {
        proof {
            lemma_object_view(fields);
        }
        Json::Object(fields)
    }

    /// The array of the numbers of `bytes`.
    pub fn byte_array(bytes: &Vec<u8>) -> (r: Json)
        ensures
            r@ == byte_array_of(bytes@),
    {
        let mut items: Vec<Json> = Vec::new();
        let mut i: usize = 0;
        while i < bytes.len()
            invariant
                i <= bytes.len(),
                items@.len() == i,
                forall|j: int|
                    0 <= j < i ==> (#[trigger] items@[j])@ == JsonView::Number(
                        JsonNumber::Unsigned(bytes@[j] as u64),
                    ),
            decreases bytes.len() - i,
        {
            items.push(Json::unsigned(bytes[i] as u64));
            i += 1;
        }
        assert(element_views(items@) =~= bytes@.map_values(
            |b: u8| JsonView::Number(JsonNumber::Unsigned(b as u64)),
        ));
        Json::array(items)
    }
}

} // verus!
