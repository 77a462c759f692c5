use crate::json::{Json, JsonView, Number, NumberView};
use vstd::prelude::*;

verus! {

/// A value that is read from a document. Reading is all or nothing: a
/// document of another shape gives no value, never a part of one.
pub trait Decode: Sized + DeepView {
    /// What a document is read as, if it has the shape of this type.
    spec fn parse(json: JsonView) -> Option<Self::V>;

    /// Reads a value from a document.
    fn from_json(json: &Json) -> (value: Option<Self>)
        ensures
            value.deep_view() == Self::parse(json@),
    ;
}

impl Decode for String {
    /// A text is read as its characters.
    open spec fn parse(json: JsonView) -> Option<Seq<char>> {
        match json {
            JsonView::Text(s) => Some(s),
            _ => None,
        }
    }

    fn from_json(json: &Json) -> (value: Option<String>) {
        match json {
            Json::Text(s) => Some(s.clone()),
            _ => None,
        }
    }
}

impl Decode for bool {
    /// A truth value is read as itself.
    open spec fn parse(json: JsonView) -> Option<bool> {
        match json {
            JsonView::Bool(b) => Some(b),
            _ => None,
        }
    }

    fn from_json(json: &Json) -> (value: Option<bool>) {
        match json {
            Json::Bool(b) => Some(*b),
            _ => None,
        }
    }
}

impl Decode for i64 {
    /// A whole number is read as itself; a number with a fraction is none.
    open spec fn parse(json: JsonView) -> Option<i64> {
        match json {
            JsonView::Number(NumberView::Integer(i)) => Some(i),
            _ => None,
        }
    }

    fn from_json(json: &Json) -> (value: Option<i64>) {
        match json {
            Json::Number(Number::Integer(i)) => Some(*i),
            _ => None,
        }
    }
}

impl Decode for i32 {
    /// A whole number that fits thirty-two signed bits is read as itself.
    open spec fn parse(json: JsonView) -> Option<i32> {
        match json {
            JsonView::Number(NumberView::Integer(i)) => if i32::MIN <= i <= i32::MAX {
                Some(i as i32)
            } else {
                None
            },
            _ => None,
        }
    }

    fn from_json(json: &Json) -> (value: Option<i32>) {
        match json {
            Json::Number(Number::Integer(i)) => {
                if -2147483648 <= *i && *i <= 2147483647 {
                    Some(*i as i32)
                } else {
                    None
                }
            },
            _ => None,
        }
    }
}

impl Decode for Number {
    /// Any number is read as it stands.
    open spec fn parse(json: JsonView) -> Option<NumberView> {
        match json {
            JsonView::Number(n) => Some(n),
            _ => None,
        }
    }

    fn from_json(json: &Json) -> (value: Option<Number>) {
        match json {
            Json::Number(Number::Integer(i)) => Some(Number::Integer(*i)),
            Json::Number(Number::Real(s)) => Some(Number::Real(s.clone())),
            _ => None,
        }
    }
}

impl<T: Decode> Decode for Option<T> {
    /// `null` is read as no value, anything else as a value of `T`.
    open spec fn parse(json: JsonView) -> Option<Option<T::V>> {
        match json {
            JsonView::Null => Some(None),
            _ => match T::parse(json) {
                Some(v) => Some(Some(v)),
                None => None,
            },
        }
    }

    fn from_json(json: &Json) -> (value: Option<Option<T>>) {
        match json {
            Json::Null => Some(None),
            _ => match T::from_json(json) {
                Some(v) => Some(Some(v)),
                None => None,
            },
        }
    }
}

/// The values that `items` are read as, if each of them is read as one.
pub open spec fn parse_each<T: Decode>(items: Seq<JsonView>) -> Option<Seq<T::V>> {
    if forall|i: int| 0 <= i < items.len() ==> (#[trigger] T::parse(items[i])) is Some {
        Some(Seq::new(items.len(), |i: int| T::parse(items[i])->Some_0))
    } else {
        None
    }
}

/// A list is read as a whole or not at all. What is read has a value for
/// every item, in the order of the items, and one item that is read as
/// nothing leaves nothing of the list: none is dropped, none is made up.
pub proof fn lemma_each_or_none<T: Decode>(items: Seq<JsonView>)
    ensures
        match parse_each::<T>(items) {
            Some(values) => {
                &&& values.len() == items.len()
                &&& forall|i: int|
                    0 <= i < items.len() ==> T::parse(items[i]) == Some(#[trigger] values[i])
            },
            None => exists|i: int| 0 <= i < items.len() && (#[trigger] T::parse(items[i])) is None,
        },
{
}

/// Reads a value from each of `items`, and gives up at the first that has
/// not the shape.
pub fn decode_each<T: Decode>(items: &Vec<Json>) -> (values: Option<Vec<T>>)
    ensures
        values.deep_view() == parse_each::<T>(items.deep_view()),
{
    let mut values: Vec<T> = Vec::new();
    let mut i: usize = 0;
    while i < items.len()
        invariant
            i <= items.len(),
            values@.len() == i,
            forall|k: int|
                0 <= k < i ==> T::parse(#[trigger] items.deep_view()[k]) == Some(
                    values@[k].deep_view(),
                ),
        decreases items.len() - i,
    {
        assert(items.deep_view()[i as int] == items@[i as int]@);
        match T::from_json(&items[i]) {
            Some(v) => {
                values.push(v);
            },
            None => {
                return None;
            },
        }
        i += 1;
    }
    proof {
        let views = items.deep_view();
        assert(parse_each::<T>(views) is Some);
        assert(values.deep_view() =~= parse_each::<T>(views)->Some_0);
    }
    Some(values)
}

impl<T: Decode> Decode for Vec<T> {
    /// An array is read item by item, and as a whole only if every item is read.
    open spec fn parse(json: JsonView) -> Option<Seq<T::V>> {
        match json {
            JsonView::Array(items) => parse_each::<T>(items),
            _ => None,
        }
    }

    fn from_json(json: &Json) -> (value: Option<Vec<T>>) {
        match json.as_array() {
            Some(items) => decode_each(items),
            None => None,
        }
    }
}

/// The values of the members of an object, in their order.
pub open spec fn values(members: Seq<(Seq<char>, JsonView)>) -> Seq<JsonView> {
    Seq::new(members.len(), |i: int| members[i].1)
}

/// Reads a value from the value of each of `members`, whatever its name,
/// and gives up at the first that has not the shape.
pub fn decode_values<T: Decode>(members: &Vec<(String, Json)>) -> (read: Option<Vec<T>>)
    ensures
        read.deep_view() == parse_each::<T>(values(members.deep_view())),
{
    let ghost entries = values(members.deep_view());
    let mut read: Vec<T> = Vec::new();
    let mut i: usize = 0;
    while i < members.len()
        invariant
            i <= members.len(),
            read@.len() == i,
            entries == values(members.deep_view()),
            forall|k: int|
                0 <= k < i ==> T::parse(#[trigger] entries[k]) == Some(read@[k].deep_view()),
        decreases members.len() - i,
    {
        assert(members.deep_view()[i as int] == members@[i as int].deep_view());
        assert(entries[i as int] == members@[i as int].1@);
        match T::from_json(&members[i].1) {
            Some(value) => {
                read.push(value);
            },
            None => {
                return None;
            },
        }
        i += 1;
    }
    proof {
        assert(parse_each::<T>(entries) is Some);
        assert(read.deep_view() =~= parse_each::<T>(entries)->Some_0);
    }
    Some(read)
}

/// What the member of `json` that is named `name` is read as.
pub open spec fn parse_member<T: Decode>(json: JsonView, name: Seq<char>) -> Option<T::V> {
    match json.member(name) {
        Some(v) => T::parse(v),
        None => None,
    }
}

/// What the field of `json` that goes by `name` or by `alias` is read as.
pub open spec fn parse_field<T: Decode>(
    json: JsonView,
    name: Seq<char>,
    alias: Seq<char>,
) -> Option<T::V> {
    match json.field(name, alias) {
        Some(v) => T::parse(v),
        None => None,
    }
}

/// Reads a value from the member of `json` that is named `name`.
pub fn decode_member<T: Decode>(json: &Json, name: &str) -> (value: Option<T>)
    ensures
        value.deep_view() == parse_member::<T>(json@, name@),
{
    match json.get(name) {
        Some(v) => T::from_json(v),
        None => None,
    }
}

/// Reads a value from the field of `json` that goes by `name` or by `alias`.
pub fn decode_field<T: Decode>(json: &Json, name: &str, alias: &str) -> (value: Option<T>)
    ensures
        value.deep_view() == parse_field::<T>(json@, name@, alias@),
{
    match json.field(name, alias) {
        Some(v) => T::from_json(v),
        None => None,
    }
}

/// What the body of a reply is read as. A round trip that failed has no
/// body, and is read as nothing.
pub open spec fn parse_reply<T: Decode>(reply: Option<JsonView>) -> Option<T::V> {
    match reply {
        Some(body) => T::parse(body),
        None => None,
    }
}

/// Reads a value from the body of a reply.
pub fn decode_reply<T: Decode>(reply: &Option<Json>) -> (value: Option<T>)
    ensures
        value.deep_view() == parse_reply::<T>(reply.deep_view()),
{
    match reply {
        Some(body) => T::from_json(body),
        None => None,
    }
}

} // verus!
