use vstd::prelude::*;
use vstd::string::StringExecFns;

verus! {

/// A number of a document: a whole number that fits sixty-four signed bits, or
/// any other number, kept in the digits that stand for it.
#[derive(Debug, Clone, PartialEq)]
pub enum Number {
    Integer(i64),
    Real(String),
}

/// A parsed document. The members of an object keep their order, and a name
/// is looked up from the front.
#[derive(Debug, PartialEq)]
pub enum Json {
    Null,
    Bool(bool),
    Number(Number),
    Text(String),
    Array(Vec<Json>),
    Object(Vec<(String, Json)>),
}

pub ghost enum NumberView {
    Integer(i64),
    Real(Seq<char>),
}

pub ghost enum JsonView {
    Null,
    Bool(bool),
    Number(NumberView),
    Text(Seq<char>),
    Array(Seq<JsonView>),
    Object(Seq<(Seq<char>, JsonView)>),
}

impl View for Number {
    type V = NumberView;

    open spec fn view(&self) -> NumberView {
        match *self {
            Number::Integer(i) => NumberView::Integer(i),
            Number::Real(s) => NumberView::Real(s@),
        }
    }
}

impl DeepView for Number {
    type V = NumberView;

    open spec fn deep_view(&self) -> NumberView {
        self.view()
    }
}

impl Default for Number {
    /// Zero.
    fn default() -> (zero: Number)
        ensures
            zero@ == NumberView::Integer(0),
    {
        Number::Integer(0)
    }
}

/// What a document holds: its texts as sequences of characters, its arrays
/// and objects as sequences of what their parts hold.
pub open spec fn content(json: Json) -> JsonView
    decreases json,
{
    match json {
        Json::Null => JsonView::Null,
        Json::Bool(b) => JsonView::Bool(b),
        Json::Number(n) => JsonView::Number(n@),
        Json::Text(s) => JsonView::Text(s@),
        Json::Array(items) => JsonView::Array(
            Seq::new(
                items@.len(),
                |i: int|
                    if 0 <= i < items@.len() {
                        content(items@[i])
                    } else {
                        JsonView::Null
                    },
            ),
        ),
        Json::Object(members) => JsonView::Object(
            Seq::new(
                members@.len(),
                |i: int|
                    if 0 <= i < members@.len() {
                        (members@[i].0@, content(members@[i].1))
                    } else {
                        (Seq::empty(), JsonView::Null)
                    },
            ),
        ),
    }
}

impl View for Json {
    type V = JsonView;

    open spec fn view(&self) -> JsonView {
        content(*self)
    }
}

impl DeepView for Json {
    type V = JsonView;

    open spec fn deep_view(&self) -> JsonView {
        self.view()
    }
}

/// The value of the first member of `members` that is named `key`.
pub open spec fn first_member(
    members: Seq<(Seq<char>, JsonView)>,
    key: Seq<char>,
) -> Option<JsonView>
    decreases members.len(),
{
    if members.len() == 0 {
        None
    } else if members[0].0 == key {
        Some(members[0].1)
    } else {
        first_member(members.drop_first(), key)
    }
}

impl JsonView {
    /// The member of an object that is named `key`; nothing of any other value.
    pub open spec fn member(self, key: Seq<char>) -> Option<JsonView> {
        match self {
            JsonView::Object(members) => first_member(members, key),
            _ => None,
        }
    }

    /// The member that a field is read from, where the field goes by two
    /// names: the one that is there. A document that holds both has no such
    /// member, nor has one that holds neither.
    pub open spec fn field(self, name: Seq<char>, alias: Seq<char>) -> Option<JsonView> {
        match (self.member(name), self.member(alias)) {
            (Some(v), None) => Some(v),
            (None, Some(v)) => Some(v),
            _ => None,
        }
    }
}

/// An array's view holds the views of its items, in their order.
pub proof fn lemma_array_view(items: Vec<Json>)
    ensures
        Json::Array(items)@ == JsonView::Array(items.deep_view()),
{
    let built = Json::Array(items)@->Array_0;
    assert(built.len() == items@.len());
    assert forall|i: int| 0 <= i < built.len() implies built[i] == items.deep_view()[i] by {
        assert(items.deep_view()[i] == items@[i].deep_view());
    }
    assert(built =~= items.deep_view());
}

/// An object's view holds the names and the views of its members, in their
/// order.
pub proof fn lemma_object_view(members: Vec<(String, Json)>)
    ensures
        Json::Object(members)@ == JsonView::Object(members.deep_view()),
{
    let built = Json::Object(members)@->Object_0;
    assert(built.len() == members@.len());
    assert forall|i: int| 0 <= i < built.len() implies built[i] == members.deep_view()[i] by {
        assert(members.deep_view()[i] == members@[i].deep_view());
    }
    assert(built =~= members.deep_view());
}

impl Json {
    /// The items of an array.
    pub fn as_array(&self) -> (items: Option<&Vec<Json>>)
        ensures
            match items {
                Some(v) => self@ == JsonView::Array(v.deep_view()),
                None => !(self@ is Array),
            },
    {
        match self {
            Json::Array(items) => {
                proof {
                    lemma_array_view(*items);
                }
                Some(items)
            },
            _ => None,
        }
    }

    /// The members of an object.
    pub fn as_object(&self) -> (members: Option<&Vec<(String, Json)>>)
        ensures
            match members {
                Some(v) => self@ == JsonView::Object(v.deep_view()),
                None => !(self@ is Object),
            },
    {
        match self {
            Json::Object(members) => {
                proof {
                    lemma_object_view(*members);
                }
                Some(members)
            },
            _ => None,
        }
    }

    /// The characters of a text.
    pub fn as_text(&self) -> (text: Option<&String>)
        ensures
            match text {
                Some(s) => self@ == JsonView::Text(s@),
                None => !(self@ is Text),
            },
    {
        match self {
            Json::Text(s) => Some(s),
            _ => None,
        }
    }

    /// The member of an object that is named `key`, the first where several are.
    pub fn get(&self, key: &str) -> (found: Option<&Json>)
        ensures
            found.deep_view() == self@.member(key@),
    {
        let members = match self.as_object() {
            Some(members) => members,
            None => {
                return None;
            },
        };
        let wanted = String::from_str(key);
        let ghost all = members.deep_view();
        let mut i: usize = 0;
        assert(all.subrange(0, all.len() as int) =~= all);
        while i < members.len()
            invariant
                i <= members.len(),
                all == members.deep_view(),
                self@ == JsonView::Object(all),
                wanted@ == key@,
                first_member(all, key@) == first_member(
                    all.subrange(i as int, all.len() as int),
                    key@,
                ),
            decreases members.len() - i,
        {
            let ghost rest = all.subrange(i as int, all.len() as int);
            assert(rest[0] == all[i as int]);
            assert(all[i as int] == members@[i as int].deep_view());
            assert(rest.drop_first() =~= all.subrange(i + 1, all.len() as int));
            if members[i].0 == wanted {
                return Some(&members[i].1);
            }
            i += 1;
        }
        None
    }

    /// The member that a field is read from, where the field goes by two names.
    pub fn field(&self, name: &str, alias: &str) -> (found: Option<&Json>)
        ensures
            found.deep_view() == self@.field(name@, alias@),
    {
        match (self.get(name), self.get(alias)) {
            (Some(v), None) => Some(v),
            (None, Some(v)) => Some(v),
            _ => None,
        }
    }
}

/// A document as `serde_json` holds it. Only `unpack` looks inside one.
#[verifier::external_type_specification]
#[verifier::external_body]
pub struct ExValue(serde_json::Value);

/// What `serde_json::from_str` makes of a text: the document that the text
/// spells, or nothing where the text is not one document.
pub uninterp spec fn document_of(text: Seq<char>) -> Option<JsonView>;

/// What a value of `serde_json` holds, part by part.
pub uninterp spec fn held(value: serde_json::Value) -> JsonView;

/// The outermost layer of a value of `serde_json`: which of the six kinds it
/// is, with its parts still as `serde_json` holds them. Of a number, what
/// `as_i64` gives and what `to_string` writes.
enum Layer<'a> {
    Null,
    Bool(bool),
    Number(Option<i64>, String),
    Text(&'a String),
    Array(&'a Vec<serde_json::Value>),
    Object(Vec<(&'a String, &'a serde_json::Value)>),
}

/// What each of `items` holds.
spec fn held_items(items: Seq<serde_json::Value>) -> Seq<JsonView> {
    Seq::new(items.len(), |i: int| held(items[i]))
}

/// The name of each of `members`, with what its value holds.
spec fn held_members(
    members: Seq<(&String, &serde_json::Value)>,
) -> Seq<(Seq<char>, JsonView)> {
    Seq::new(members.len(), |i: int| (members[i].0@, held(*members[i].1)))
}

/// `serde_json::from_str` at the type `serde_json::Value`. The contract
/// claims that the outcome depends on the text alone, and gives it the name
/// `document_of`; it says nothing of which texts are documents.
#[verifier::external_body]
fn parse_value(text: &str) -> (value: Option<serde_json::Value>)
    ensures
        match value {
            Some(v) => document_of(text@) == Some(held(v)),
            None => document_of(text@) is None,
        },
{
    serde_json::from_str::<serde_json::Value>(text).ok()
}

/// Tells the variants of `serde_json::Value` apart. The contract claims
/// that a value holds what its variant holds: an array its items in their
/// order, an object its members in the order in which `Map::iter` hands
/// them out, a number the whole number that `Number::as_i64` gives, or,
/// where that gives none, the digits that `to_string` writes.
#[verifier::external_body]
fn unpack(value: &serde_json::Value) -> (layer: Layer<'_>)
    ensures
        held(*value) == match layer {
            Layer::Null => JsonView::Null,
            Layer::Bool(b) => JsonView::Bool(b),
            Layer::Number(whole, digits) => JsonView::Number(
                match whole {
                    Some(i) => NumberView::Integer(i),
                    None => NumberView::Real(digits@),
                },
            ),
            Layer::Text(s) => JsonView::Text(s@),
            Layer::Array(items) => JsonView::Array(held_items(items@)),
            Layer::Object(members) => JsonView::Object(held_members(members@)),
        },
{
    match value {
        serde_json::Value::Null => Layer::Null,
        serde_json::Value::Bool(b) => Layer::Bool(*b),
        serde_json::Value::Number(n) => Layer::Number(n.as_i64(), n.to_string()),
        serde_json::Value::String(s) => Layer::Text(s),
        serde_json::Value::Array(items) => Layer::Array(items),
        serde_json::Value::Object(members) => Layer::Object(members.iter().collect()),
    }
}

/// Turns a value of `serde_json` into a document, layer by layer.
fn lift(value: &serde_json::Value) -> (json: Json)
    ensures
        json@ == held(*value),
    decreases held(*value),
{
    match unpack(value) {
        Layer::Null => Json::Null,
        Layer::Bool(b) => Json::Bool(b),
        Layer::Number(whole, digits) => Json::Number(
            match whole {
                Some(i) => Number::Integer(i),
                None => Number::Real(digits),
            },
        ),
        Layer::Text(s) => Json::Text(s.clone()),
        Layer::Array(items) => {
            let mut lifted: Vec<Json> = Vec::new();
            let mut i: usize = 0;
            while i < items.len()
                invariant
                    i <= items.len(),
                    lifted@.len() == i,
                    held(*value) == JsonView::Array(held_items(items@)),
                    forall|k: int| 0 <= k < i ==> (#[trigger] lifted@[k])@ == held(items@[k]),
                decreases items.len() - i,
            {
                proof {
                    let parts = held_items(items@);
                    assert(parts[i as int] == held(items@[i as int]));
                    assert(parts == held(*value)->Array_0);
                    assert(decreases_to!(held(*value) => parts));
                    assert(decreases_to!(parts => parts[i as int]));
                }
                lifted.push(lift(&items[i]));
                i += 1;
            }
            proof {
                lemma_array_view(lifted);
                assert(lifted.deep_view() =~= held_items(items@));
            }
            Json::Array(lifted)
        },
        Layer::Object(members) => {
            let mut lifted: Vec<(String, Json)> = Vec::new();
            let mut i: usize = 0;
            while i < members.len()
                invariant
                    i <= members.len(),
                    lifted@.len() == i,
                    held(*value) == JsonView::Object(held_members(members@)),
                    forall|k: int|
                        0 <= k < i ==> (#[trigger] lifted@[k]).deep_view() == (
                            members@[k].0@,
                            held(*members@[k].1),
                        ),
                decreases members.len() - i,
            {
                proof {
                    let parts = held_members(members@);
                    assert(parts[i as int] == (members@[i as int].0@, held(*members@[i as int].1)));
                    assert(parts == held(*value)->Object_0);
                    assert(decreases_to!(held(*value) => parts));
                    assert(decreases_to!(parts => parts[i as int]));
                    assert(decreases_to!(parts[i as int] => parts[i as int].1));
                }
                let name = members[i].0.clone();
                let inner = lift(members[i].1);
                lifted.push((name, inner));
                i += 1;
            }
            proof {
                lemma_object_view(lifted);
                assert(lifted.deep_view() =~= held_members(members@));
            }
            Json::Object(lifted)
        },
    }
}

impl Json {
    /// Reads a text as one document.
    pub fn parse(text: &str) -> (document: Option<Json>)
        ensures
            document.deep_view() == document_of(text@),
    {
        match parse_value(text) {
            Some(value) => Some(lift(&value)),
            None => None,
        }
    }
}

} // verus!
