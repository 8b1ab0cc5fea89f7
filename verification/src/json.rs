//! JSON documents as plain values.

use vstd::prelude::*;
use vstd::string::StringExecFns;

verus! {

/// One member of a JSON object.
#[derive(Debug, PartialEq, Eq)]
pub struct Member {
    pub key: String,
    pub value: Json,
}

/// A JSON document.
#[derive(Debug, PartialEq, Eq)]
pub enum Json {
    Null,
    Bool(bool),
    /// A number, kept as its decimal text.
    Number(String),
    Str(String),
    Array(Vec<Json>),
    Object(Vec<Member>),
}

/// The mathematical model of a JSON document.
pub enum JsonValue {
    Null,
    Bool(bool),
    Number(Seq<char>),
    Str(Seq<char>),
    Array(Seq<JsonValue>),
    Object(Seq<MemberValue>),
}

/// The mathematical model of one member of a JSON object.
pub struct MemberValue {
    pub key: Seq<char>,
    pub value: JsonValue,
}

impl View for Json {
    type V = JsonValue;

    open spec fn view(&self) -> JsonValue
        decreases self,
    {
        match self {
            Json::Null => JsonValue::Null,
            Json::Bool(b) => JsonValue::Bool(*b),
            Json::Number(n) => JsonValue::Number(n@),
            Json::Str(s) => JsonValue::Str(s@),
            Json::Array(items) => JsonValue::Array(
                Seq::new(
                    items@.len(),
                    |i: int|
                        if 0 <= i < items@.len() {
                            items@[i]@
                        } else {
                            JsonValue::Null
                        },
                ),
            ),
            Json::Object(members) => JsonValue::Object(
                Seq::new(
                    members@.len(),
                    |i: int|
                        if 0 <= i < members@.len() {
                            members@[i]@
                        } else {
                            MemberValue { key: Seq::empty(), value: JsonValue::Null }
                        },
                ),
            ),
        }
    }
}

/// The models of the documents in `items`, in order.
pub open spec fn items_view(items: Seq<Json>) -> Seq<JsonValue> {
    Seq::new(items.len(), |i: int| items[i]@)
}

/// The models of the members in `members`, in order: each key with its value.
pub open spec fn members_view(members: Seq<Member>) -> Seq<MemberValue> {
    Seq::new(members.len(), |i: int| members[i]@)
}

/// The value of the first member of `members` whose key is `key`.
pub open spec fn lookup(members: Seq<MemberValue>, key: Seq<char>) -> Option<JsonValue>
    decreases members.len(),
{
    if members.len() == 0 {
        None
    } else if members[0].key == key {
        Some(members[0].value)
    } else {
        lookup(members.skip(1), key)
    }
}

/// The members of `members` whose key is none of `keys`, in order.
pub open spec fn without_keys(members: Seq<MemberValue>, keys: Seq<Seq<char>>) -> Seq<MemberValue>
    decreases members.len(),
{
    if members.len() == 0 {
        Seq::empty()
    } else if keys.contains(members.last().key) {
        without_keys(members.drop_last(), keys)
    } else {
        without_keys(members.drop_last(), keys).push(members.last())
    }
}

impl JsonValue {
    /// The value of the member `key`, where the document is an object that
    /// has one.
    pub open spec fn member(self, key: Seq<char>) -> Option<JsonValue> {
        match self {
            JsonValue::Object(members) => lookup(members, key),
            _ => None,
        }
    }
}

/// The model of an array is the array of its items' models.
pub proof fn lemma_array_view(items: Vec<Json>)
    ensures
        Json::Array(items)@ == JsonValue::Array(items_view(items@)),
{
    assert(Json::Array(items)@->Array_0 =~= items_view(items@));
}

/// The model of an object is the object of its members' models.
pub proof fn lemma_object_view(members: Vec<Member>)
    ensures
        Json::Object(members)@ == JsonValue::Object(members_view(members@)),
{
    assert(Json::Object(members)@->Object_0 =~= members_view(members@));
}

impl View for Member {
    type V = MemberValue;

    open spec fn view(&self) -> MemberValue
        decreases self,
    {
        MemberValue { key: self.key@, value: self.value@ }
    }
}

/// A document as `serde_json` holds it. Nothing is known of its inside: it is
/// only handed from the parser to the function that copies it.
#[verifier::external_type_specification]
#[verifier::external_body]
pub struct ExValue(serde_json::Value);

/// What `serde_json` makes of a text: the document it parses to, or `None`
/// where it reports an error.
pub uninterp spec fn parsed_json(text: Seq<char>) -> Option<JsonValue>;

/// Copies a `serde_json::Value` into a [`Json`], variant by variant; a number
/// is copied as the text that `serde_json` prints for it, and the members of
/// an object in the order in which its map hands them out.
#[verifier::external_body]
fn json_of_value(value: &serde_json::Value) -> Json {
    match value {
        serde_json::Value::Null => Json::Null,
        serde_json::Value::Bool(b) => Json::Bool(*b),
        serde_json::Value::Number(n) => Json::Number(n.to_string()),
        serde_json::Value::String(s) => Json::Str(s.clone()),
        serde_json::Value::Array(items) => Json::Array(items.iter().map(json_of_value).collect()),
        serde_json::Value::Object(map) => Json::Object(
            map.iter().map(|(k, v)| Member { key: k.clone(), value: json_of_value(v) }).collect(),
        ),
    }
}

/// Calls `serde_json::from_str` for a `serde_json::Value`. The result is the
/// parsed document, and `None` where `serde_json` returns an error.
#[verifier::external_body]
pub(crate) fn parse_json(text: &str) -> (parsed: Option<Json>)
    ensures
        match parsed {
            Some(json) => parsed_json(text@) == Some(json@),
            None => parsed_json(text@).is_none(),
        },
{
    match serde_json::from_str::<serde_json::Value>(text) {
        Ok(value) => Some(json_of_value(&value)),
        Err(_) => None,
    }
}

impl Json {
    /// A string document.
    pub fn string(text: String) -> (json: Json)
        ensures
            json@ == JsonValue::Str(text@),
    {
        Json::Str(text)
    }

    /// A string document that holds a literal.
    pub fn literal(text: &str) -> (json: Json)
        ensures
            json@ == JsonValue::Str(text@),
    {
        Json::Str(String::from_str(text))
    }

    /// An array document.
    pub fn array(items: Vec<Json>) -> (json: Json)
        ensures
            json@ == JsonValue::Array(items_view(items@)),
    {
        proof {
            lemma_array_view(items);
        }
        Json::Array(items)
    }

    /// An object document.
    pub fn object(members: Vec<Member>) -> (json: Json)
        ensures
            json@ == JsonValue::Object(members_view(members@)),
    {
        proof {
            lemma_object_view(members);
        }
        Json::Object(members)
    }

    /// A copy of the document.
    pub fn duplicate(&self) -> (copy: Json)
        ensures
            copy@ == self@,
        decreases self,
    {
        match self {
            Json::Null => Json::Null,
            Json::Bool(b) => Json::Bool(*b),
            Json::Number(n) => Json::Number(n.clone()),
            Json::Str(s) => Json::Str(s.clone()),
            Json::Array(items) => {
                let mut out: Vec<Json> = Vec::new();
                let mut i: usize = 0;
                while i < items.len()
                    invariant
                        i <= items.len(),
                        *self == Json::Array(*items),
                        out@.len() == i,
                        forall|j: int| 0 <= j < i ==> out@[j]@ == items@[j]@,
                    decreases items.len() - i,
                {
                    proof {
                        assert(self->Array_0 == *items);
                        assert(decreases_to!(*self => self->Array_0));
                        assert(decreases_to!(*items => items@[i as int]));
                        assert(decreases_to!(*self => items@[i as int]));
                    }
                    out.push(items[i].duplicate());
                    i = i + 1;
                }
                proof {
                    lemma_array_view(*items);
                    assert(items_view(out@) =~= items_view(items@));
                }
                Json::array(out)
            },
            Json::Object(members) => {
                let mut out: Vec<Member> = Vec::new();
                let mut i: usize = 0;
                while i < members.len()
                    invariant
                        i <= members.len(),
                        *self == Json::Object(*members),
                        out@.len() == i,
                        forall|j: int| 0 <= j < i ==> out@[j]@ == members@[j]@,
                    decreases members.len() - i,
                {
                    let member = &members[i];
                    proof {
                        assert(self->Object_0 == *members);
                        assert(decreases_to!(*self => self->Object_0));
                        assert(decreases_to!(*members => members@[i as int]));
                        assert(decreases_to!(members@[i as int] => members@[i as int].value));
                        assert(decreases_to!(*self => members@[i as int].value));
                    }
                    out.push(Member { key: member.key.clone(), value: member.value.duplicate() });
                    i = i + 1;
                }
                proof {
                    lemma_object_view(*members);
                    assert(members_view(out@) =~= members_view(members@));
                }
                Json::object(out)
            },
        }
    }

    /// The text of a number document.
    pub fn as_number(&self) -> (text: Option<&String>)
        ensures
            match text {
                Some(n) => self@ == JsonValue::Number(n@),
                None => !(self@ is Number),
            },
    {
        match self {
            Json::Number(n) => Some(n),
            _ => None,
        }
    }

    /// The text of a string document.
    pub fn as_str(&self) -> (text: Option<&String>)
        ensures
            match text {
                Some(s) => self@ == JsonValue::Str(s@),
                None => !(self@ is Str),
            },
    {
        match self {
            Json::Str(s) => Some(s),
            _ => None,
        }
    }

    /// The items of an array document.
    pub fn as_array(&self) -> (items: Option<&Vec<Json>>)
        ensures
            match items {
                Some(list) => self@ == JsonValue::Array(items_view(list@)),
                None => !(self@ is Array),
            },
    {
        match self {
            Json::Array(list) => {
                proof {
                    lemma_array_view(*list);
                }
                Some(list)
            },
            _ => None,
        }
    }

    /// The members of an object document.
    pub fn as_object(&self) -> (members: Option<&Vec<Member>>)
        ensures
            match members {
                Some(list) => self@ == JsonValue::Object(members_view(list@)),
                None => !(self@ is Object),
            },
    {
        match self {
            Json::Object(list) => {
                proof {
                    lemma_object_view(*list);
                }
                Some(list)
            },
            _ => None,
        }
    }

    /// The value of the member `key` of an object document: of the first
    /// one, should the key occur more than once.
    pub fn get(&self, key: &str) -> (found: Option<&Json>)
        ensures
            match found {
                Some(value) => self@.member(key@) == Some(value@),
                None => self@.member(key@).is_none(),
            },
    {
        match self.as_object() {
            Some(members) => find_member(members, key),
            None => None,
        }
    }
}

impl Member {
    /// A copy of the member.
    pub fn duplicate(&self) -> (copy: Member)
        ensures
            copy@ == self@,
    {
        Member { key: self.key.clone(), value: self.value.duplicate() }
    }
}

/// Tells whether `key` is one of `keys`.
pub fn is_one_of(key: &String, keys: &Vec<String>) -> (yes: bool)
    ensures
        yes == keys.deep_view().contains(key@),
{
    let mut i: usize = 0;
    while i < keys.len()
        invariant
            i <= keys.len(),
            forall|j: int| 0 <= j < i ==> keys.deep_view()[j] != key@,
        decreases keys.len() - i,
    {
        if keys[i] == *key {
            assert(keys.deep_view()[i as int] == key@);
            return true;
        }
        i = i + 1;
    }
    false
}

/// Copies the members whose key is none of `keys`.
pub fn members_without(members: &Vec<Member>, keys: &Vec<String>) -> (rest: Vec<Member>)
    ensures
        members_view(rest@) == without_keys(members_view(members@), keys.deep_view()),
{
    let ghost model = members_view(members@);
    let mut rest: Vec<Member> = Vec::new();
    let mut i: usize = 0;
    assert(model.take(0) == Seq::<MemberValue>::empty());
    assert(members_view(rest@) =~= Seq::<MemberValue>::empty());
    while i < members.len()
        invariant
            i <= members.len(),
            model == members_view(members@),
            members_view(rest@) == without_keys(model.take(i as int), keys.deep_view()),
        decreases members.len() - i,
    {
        assert(model.take(i + 1).drop_last() == model.take(i as int));
        assert(model.take(i + 1).last() == members@[i as int]@);
        if !is_one_of(&members[i].key, keys) {
            let ghost before = members_view(rest@);
            rest.push(members[i].duplicate());
            assert(members_view(rest@) =~= before.push(members@[i as int]@));
        }
        i = i + 1;
    }
    assert(model.take(members.len() as int) == model);
    rest
}

/// The value of the first of `members` whose key is `key`.
pub fn find_member<'a>(members: &'a Vec<Member>, key: &str) -> (found: Option<&'a Json>)
    ensures
        match found {
            Some(value) => lookup(members_view(members@), key@) == Some(value@),
            None => lookup(members_view(members@), key@).is_none(),
        },
{
    let wanted = String::from_str(key);
    let ghost model = members_view(members@);
    let mut i: usize = 0;
    assert(model.skip(0) == model);
    while i < members.len()
        invariant
            i <= members.len(),
            model == members_view(members@),
            wanted@ == key@,
            lookup(model, key@) == lookup(model.skip(i as int), key@),
        decreases members.len() - i,
    {
        if members[i].key == wanted {
            return Some(&members[i].value);
        }
        assert(model.skip(i as int).skip(1) == model.skip(i + 1));
        i = i + 1;
    }
    None
}

} // verus!
