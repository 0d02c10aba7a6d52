//! JSON documents: reading text, reading members, building values, writing
//! text.
//!
//! Text is read by `serde_json`, one level at a time, and strings are escaped
//! by it; the rest of the compact text form is written here.
use crate::text::{decimal_text, push_decimal, str_eq};
use serde_json::Value;
use vstd::prelude::*;
use vstd::string::*;

verus! {

/// The mathematical value of a JSON document.
pub enum JsonView {
    Null,
    Bool(bool),
    Int(int),
    /// A number that is no 64-bit integer, as it is spelled.
    Real(Seq<char>),
    Str(Seq<char>),
    Array(Seq<JsonView>),
    /// The members in the order in which they are written. Where a key occurs
    /// twice, the first occurrence is the one that is read.
    Object(Seq<(Seq<char>, JsonView)>),
}

/// The value under the first occurrence of `key` among `members`.
pub open spec fn find_member(members: Seq<(Seq<char>, JsonView)>, key: Seq<char>) -> Option<
    JsonView,
>
    decreases members.len(),
{
    if members.len() == 0 {
        None
    } else if members[0].0 == key {
        Some(members[0].1)
    } else {
        find_member(members.drop_first(), key)
    }
}

impl JsonView {
    /// The member stored under `key`, where `self` is an object that has one.
    pub open spec fn member(self, key: Seq<char>) -> Option<JsonView> {
        match self {
            JsonView::Object(members) => find_member(members, key),
            _ => None,
        }
    }

    /// The text, where `self` is a string.
    pub open spec fn string(self) -> Option<Seq<char>> {
        match self {
            JsonView::Str(text) => Some(text),
            _ => None,
        }
    }

    /// The text of the member stored under `key`, where `self` is an object
    /// that has such a member and the member is a string.
    pub open spec fn str_member(self, key: Seq<char>) -> Option<Seq<char>> {
        match self.member(key) {
            Some(value) => value.string(),
            None => None,
        }
    }

}

/// What `serde_json::to_string` writes for a string: the text between double
/// quotes, with the escapes that JSON asks for.
pub uninterp spec fn json_quoted(text: Seq<char>) -> Seq<char>;

/// The compact text of a JSON document: no white space, members and items
/// separated by commas, keys and values by a colon.
pub open spec fn json_text(value: JsonView) -> Seq<char>
    decreases value, 0nat,
{
    match value {
        JsonView::Null => "null"@,
        JsonView::Bool(b) => if b {
            "true"@
        } else {
            "false"@
        },
        JsonView::Int(n) => decimal_text(n),
        JsonView::Real(spelling) => spelling,
        JsonView::Str(text) => json_quoted(text),
        JsonView::Array(items) => "["@ + items_text(items, items.len()) + "]"@,
        JsonView::Object(members) => "{"@ + members_text(members, members.len()) + "}"@,
    }
}

/// The text of the first `count` items of an array, separated by commas.
pub open spec fn items_text(items: Seq<JsonView>, count: nat) -> Seq<char>
    decreases items, count,
{
    if count == 0 || count > items.len() {
        Seq::empty()
    } else if count == 1 {
        json_text(items[0])
    } else {
        items_text(items, (count - 1) as nat) + ","@ + json_text(items[count - 1])
    }
}

/// The text of the first `count` members of an object, separated by commas.
pub open spec fn members_text(members: Seq<(Seq<char>, JsonView)>, count: nat) -> Seq<char>
    decreases members, count,
{
    if count == 0 || count > members.len() {
        Seq::empty()
    } else if count == 1 {
        member_text(members[0])
    } else {
        members_text(members, (count - 1) as nat) + ","@ + member_text(members[count - 1])
    }
}

/// The text of one member: its key in quotes, a colon, its value.
pub open spec fn member_text(member: (Seq<char>, JsonView)) -> Seq<char>
    decreases member, 0nat,
{
    json_quoted(member.0) + ":"@ + json_text(member.1)
}

/// The texts as JSON strings.
pub open spec fn strings_view(texts: Seq<Seq<char>>) -> Seq<JsonView> {
    Seq::new(texts.len(), |i: int| JsonView::Str(texts[i]))
}

/// The characters of each string of a list.
pub open spec fn texts_view(texts: Vec<String>) -> Seq<Seq<char>> {
    Seq::new(texts.len() as nat, |i: int| texts[i]@)
}

/// One key of a JSON object with the value stored under it.
#[derive(Debug, PartialEq)]
pub struct Member {
    pub key: String,
    pub value: Json,
}

/// A JSON document.
#[derive(Debug, PartialEq)]
pub enum Json {
    Null,
    Bool(bool),
    Int(i64),
    /// A number that is no 64-bit integer, as it is spelled.
    Real(String),
    Str(String),
    Array(Vec<Json>),
    Object(Vec<Member>),
}

/// The values of a list of documents.
pub open spec fn items_view(items: Vec<Json>) -> Seq<JsonView>
    decreases items,
{
    Seq::new(
        items.len() as nat,
        |i: int|
            if 0 <= i < items.len() {
                items[i].view()
            } else {
                JsonView::Null
            },
    )
}

/// The keys and values of a list of members.
pub open spec fn members_view(members: Vec<Member>) -> Seq<(Seq<char>, JsonView)>
    decreases members,
{
    Seq::new(
        members.len() as nat,
        |i: int|
            if 0 <= i < members.len() {
                (members[i].key@, members[i].value.view())
            } else {
                (Seq::empty(), JsonView::Null)
            },
    )
}

impl View for Json {
    type V = JsonView;

    open spec fn view(&self) -> JsonView
        decreases self,
    {
        match self {
            Json::Null => JsonView::Null,
            Json::Bool(b) => JsonView::Bool(*b),
            Json::Int(n) => JsonView::Int(*n as int),
            Json::Real(spelling) => JsonView::Real(spelling@),
            Json::Str(text) => JsonView::Str(text@),
            Json::Array(items) => JsonView::Array(items_view(*items)),
            Json::Object(members) => JsonView::Object(members_view(*members)),
        }
    }
}

impl View for Member {
    type V = (Seq<char>, JsonView);

    open spec fn view(&self) -> (Seq<char>, JsonView) {
        (self.key@, self.value@)
    }
}

proof fn lemma_find_member_skip(members: Seq<(Seq<char>, JsonView)>, key: Seq<char>, i: int)
    requires
        0 <= i < members.len(),
        members[i].0 != key,
    ensures
        find_member(members.skip(i), key) == find_member(members.skip(i + 1), key),
{
    assert(members.skip(i).drop_first() =~= members.skip(i + 1));
}

impl Clone for Member {
    fn clone(&self) -> (copy: Member)
        ensures
            copy@ == self@,
        decreases self,
    {
        Member { key: self.key.clone(), value: self.value.clone() }
    }
}

impl Clone for Json {
    fn clone(&self) -> (copy: Json)
        ensures
            copy@ == self@,
        decreases self,
    {
        match self {
            Json::Null => Json::Null,
            Json::Bool(b) => Json::Bool(*b),
            Json::Int(n) => Json::Int(*n),
            Json::Real(spelling) => Json::Real(spelling.clone()),
            Json::Str(text) => Json::Str(text.clone()),
            Json::Array(items) => {
                let mut copies: Vec<Json> = Vec::new();
                let mut i: usize = 0;
                while i < items.len()
                    invariant
                        *self == Json::Array(*items),
                        i <= items.len(),
                        copies.len() == i,
                        forall|j: int| 0 <= j < i ==> copies[j]@ == items[j]@,
                    decreases items.len() - i,
                {
                    let item = &items[i];
                    proof {
                        assert(decreases_to!(*self => self->Array_0));
                        assert(decreases_to!(*items => items[i as int]));
                    }
                    copies.push(item.clone());
                    i += 1;
                }
                assert(items_view(copies) =~= items_view(*items));
                Json::Array(copies)
            },
            Json::Object(members) => {
                let mut copies: Vec<Member> = Vec::new();
                let mut i: usize = 0;
                while i < members.len()
                    invariant
                        *self == Json::Object(*members),
                        i <= members.len(),
                        copies.len() == i,
                        forall|j: int| 0 <= j < i ==> copies[j]@ == members[j]@,
                    decreases members.len() - i,
                {
                    let member = &members[i];
                    proof {
                        assert(decreases_to!(*self => self->Object_0));
                        assert(decreases_to!(*members => members[i as int]));
                    }
                    copies.push(member.clone());
                    i += 1;
                }
                assert(members_view(copies) =~= members_view(*members));
                Json::Object(copies)
            },
        }
    }
}

impl Json {
    /// A JSON string.
    pub fn string(text: &str) -> (value: Json)
        ensures
            value@ == JsonView::Str(text@),
    {
        Json::Str(text.to_owned())
    }

    /// A JSON array of one item.
    pub fn single(item: Json) -> (value: Json)
        ensures
            value@ == JsonView::Array(seq![item@]),
    {
        let mut items: Vec<Json> = Vec::new();
        items.push(item);
        assert(items_view(items) =~= seq![item@]);
        Json::Array(items)
    }

    /// A JSON array of strings.
    pub fn strings(texts: &Vec<String>) -> (value: Json)
        ensures
            value@ == JsonView::Array(strings_view(texts_view(*texts))),
    {
        let mut items: Vec<Json> = Vec::new();
        let mut i: usize = 0;
        while i < texts.len()
            invariant
                i <= texts.len(),
                items.len() == i,
                forall|j: int| 0 <= j < i ==> items[j]@ == JsonView::Str(texts[j]@),
            decreases texts.len() - i,
        {
            items.push(Json::Str(texts[i].clone()));
            i += 1;
        }
        assert(items_view(items) =~= strings_view(texts_view(*texts)));
        Json::Array(items)
    }

    /// The member stored under `key`, where this is an object that has one.
    pub fn get(&self, key: &str) -> (found: Option<&Json>)
        ensures
            match found {
                Some(value) => self@.member(key@) == Some(value@),
                None => self@.member(key@) is None,
            },
    {
        match self {
            Json::Object(members) => {
                let ghost all = members_view(*members);
                let mut i: usize = 0;
                assert(all.skip(0) =~= all);
                while i < members.len()
                    invariant
                        self@ == JsonView::Object(all),
                        all == members_view(*members),
                        i <= members.len(),
                        find_member(all, key@) == find_member(all.skip(i as int), key@),
                    decreases members.len() - i,
                {
                    if str_eq(members[i].key.as_str(), key) {
                        assert(all.skip(i as int)[0] == all[i as int]);
                        assert(find_member(all.skip(i as int), key@) == Some(members[i as int].value@));
                        return Some(&members[i].value);
                    }
                    proof {
                        lemma_find_member_skip(all, key@, i as int);
                    }
                    i += 1;
                }
                None
            },
            _ => None,
        }
    }

    /// The text, where this is a string.
    pub fn as_str(&self) -> (text: Option<&str>)
        ensures
            match text {
                Some(t) => self@.string() == Some(t@),
                None => self@.string() is None,
            },
    {
        match self {
            Json::Str(text) => Some(text.as_str()),
            _ => None,
        }
    }

    /// The text of the member stored under `key`, where this is an object
    /// that has such a member and the member is a string.
    pub fn get_str(&self, key: &str) -> (text: Option<&str>)
        ensures
            match text {
                Some(t) => self@.str_member(key@) == Some(t@),
                None => self@.str_member(key@) is None,
            },
    {
        match self.get(key) {
            Some(value) => value.as_str(),
            None => None,
        }
    }

    /// Appends the compact text of the document.
    pub fn write_to(&self, out: &mut String)
        ensures
            final(out)@ == old(out)@ + json_text(self@),
        decreases self,
    {
        proof {
            reveal_strlit("null");
            reveal_strlit("true");
            reveal_strlit("false");
            reveal_strlit("[");
            reveal_strlit("]");
            reveal_strlit("{");
            reveal_strlit("}");
            reveal_strlit(",");
            reveal_strlit(":");
        }
        match self {
            Json::Null => {
                out.append("null");
            },
            Json::Bool(b) => {
                if *b {
                    out.append("true");
                } else {
                    out.append("false");
                }
            },
            Json::Int(n) => {
                push_decimal(out, *n);
            },
            Json::Real(spelling) => {
                out.append(spelling.as_str());
            },
            Json::Str(text) => {
                let quoted = quoted(text.as_str());
                out.append(quoted.as_str());
            },
            Json::Array(items) => {
                let ghost all = items_view(*items);
                out.append("[");
                let mut i: usize = 0;
                while i < items.len()
                    invariant
                        *self == Json::Array(*items),
                        all == items_view(*items),
                        i <= items.len(),
                        out@ == old(out)@ + "["@ + items_text(all, i as nat),
                    decreases items.len() - i,
                {
                    let ghost before = out@;
                    if i > 0 {
                        out.append(",");
                    }
                    let item = &items[i];
                    proof {
                        assert(decreases_to!(*self => self->Array_0));
                        assert(decreases_to!(*items => items[i as int]));
                    }
                    item.write_to(out);
                    proof {
                        if i > 0 {
                            assert(out@ =~= old(out)@ + "["@ + (items_text(all, i as nat) + ","@
                                + json_text(all[i as int])));
                        } else {
                            assert(out@ =~= old(out)@ + "["@ + json_text(all[0]));
                        }
                    }
                    i += 1;
                }
                out.append("]");
                assert(out@ =~= old(out)@ + json_text(self@));
            },
            Json::Object(members) => {
                let ghost all = members_view(*members);
                out.append("{");
                let mut i: usize = 0;
                while i < members.len()
                    invariant
                        *self == Json::Object(*members),
                        all == members_view(*members),
                        i <= members.len(),
                        out@ == old(out)@ + "{"@ + members_text(all, i as nat),
                    decreases members.len() - i,
                {
                    if i > 0 {
                        out.append(",");
                    }
                    let key = quoted(members[i].key.as_str());
                    out.append(key.as_str());
                    out.append(":");
                    let member = &members[i];
                    proof {
                        assert(decreases_to!(*self => self->Object_0));
                        assert(decreases_to!(*members => members[i as int]));
                        assert(decreases_to!(*member => member.value));
                    }
                    member.value.write_to(out);
                    proof {
                        if i > 0 {
                            assert(out@ =~= old(out)@ + "{"@ + (members_text(all, i as nat) + ","@
                                + member_text(all[i as int])));
                        } else {
                            assert(out@ =~= old(out)@ + "{"@ + member_text(all[0]));
                        }
                    }
                    i += 1;
                }
                out.append("}");
                assert(out@ =~= old(out)@ + json_text(self@));
            },
        }
    }

    /// The compact text of the document.
    pub fn to_text(&self) -> (text: String)
        ensures
            text@ == json_text(self@),
    {
        let mut text = String::new();
        self.write_to(&mut text);
        assert(text@ =~= json_text(self@));
        text
    }
}

/// A JSON object under construction: members are added at the end.
pub struct JsonObject {
    members: Vec<Member>,
}

impl View for JsonObject {
    type V = Seq<(Seq<char>, JsonView)>;

    closed spec fn view(&self) -> Seq<(Seq<char>, JsonView)> {
        members_view(self.members)
    }
}

impl JsonObject {
    /// An object without members.
    pub fn new() -> (object: JsonObject)
        ensures
            object@ == Seq::<(Seq<char>, JsonView)>::empty(),
    {
        let object = JsonObject { members: Vec::new() };
        assert(object@ =~= Seq::empty());
        object
    }

    /// The object with one more member at its end.
    pub fn with(self, key: &str, value: Json) -> (object: JsonObject)
        ensures
            object@ == self@.push((key@, value@)),
    {
        let mut members = self.members;
        members.push(Member { key: key.to_owned(), value });
        let object = JsonObject { members };
        assert(object@ =~= self@.push((key@, value@)));
        object
    }

    /// The object with one more member at its end, a string.
    pub fn with_str(self, key: &str, text: &str) -> (object: JsonObject)
        ensures
            object@ == self@.push((key@, JsonView::Str(text@))),
    {
        self.with(key, Json::string(text))
    }

    /// The object with one more member at its end, an integer.
    pub fn with_int(self, key: &str, number: i64) -> (object: JsonObject)
        ensures
            object@ == self@.push((key@, JsonView::Int(number as int))),
    {
        self.with(key, Json::Int(number))
    }

    /// The object with one more member at its end, a truth value.
    pub fn with_bool(self, key: &str, flag: bool) -> (object: JsonObject)
        ensures
            object@ == self@.push((key@, JsonView::Bool(flag))),
    {
        self.with(key, Json::Bool(flag))
    }

    /// The finished object.
    pub fn into_json(self) -> (value: Json)
        ensures
            value@ == JsonView::Object(self@),
    {
        Json::Object(self.members)
    }
}

impl Json {
    /// An object with one member.
    pub fn object1(k0: &str, v0: Json) -> (value: Json)
        ensures
            value@ == JsonView::Object(seq![(k0@, v0@)]),
    {
        let object = JsonObject::new().with(k0, v0);
        assert(object@ =~= seq![(k0@, v0@)]);
        object.into_json()
    }

    /// An object with two members.
    pub fn object2(k0: &str, v0: Json, k1: &str, v1: Json) -> (value: Json)
        ensures
            value@ == JsonView::Object(seq![(k0@, v0@), (k1@, v1@)]),
    {
        let object = JsonObject::new().with(k0, v0).with(k1, v1);
        assert(object@ =~= seq![(k0@, v0@), (k1@, v1@)]);
        object.into_json()
    }

    /// An object with three members.
    pub fn object3(k0: &str, v0: Json, k1: &str, v1: Json, k2: &str, v2: Json) -> (value: Json)
        ensures
            value@ == JsonView::Object(seq![(k0@, v0@), (k1@, v1@), (k2@, v2@)]),
    {
        let object = JsonObject::new().with(k0, v0).with(k1, v1).with(k2, v2);
        assert(object@ =~= seq![(k0@, v0@), (k1@, v1@), (k2@, v2@)]);
        object.into_json()
    }

    /// An object with four members.
    pub fn object4(
        k0: &str,
        v0: Json,
        k1: &str,
        v1: Json,
        k2: &str,
        v2: Json,
        k3: &str,
        v3: Json,
    ) -> (value: Json)
        ensures
            value@ == JsonView::Object(seq![(k0@, v0@), (k1@, v1@), (k2@, v2@), (k3@, v3@)]),
    {
        let object = JsonObject::new().with(k0, v0).with(k1, v1).with(k2, v2).with(k3, v3);
        assert(object@ =~= seq![(k0@, v0@), (k1@, v1@), (k2@, v2@), (k3@, v3@)]);
        object.into_json()
    }
}

/// A member of an object whose value has not been read yet: its key and the
/// JSON text of its value.
pub struct Part {
    pub key: String,
    pub text: String,
}

/// The outermost level of a JSON document: what kind of value it is, with
/// the items of an array and the members of an object still as JSON text.
pub enum Shape {
    Null,
    Bool(bool),
    Int(i64),
    /// A number that is no 64-bit integer, as `serde_json` spells it.
    Real(String),
    Str(String),
    Array(Vec<String>),
    Object(Vec<Part>),
}

/// The outermost level of a JSON document as a mathematical value.
pub enum ShapeView {
    Null,
    Bool(bool),
    Int(int),
    Real(Seq<char>),
    Str(Seq<char>),
    Array(Seq<Seq<char>>),
    Object(Seq<(Seq<char>, Seq<char>)>),
}

impl View for Shape {
    type V = ShapeView;

    open spec fn view(&self) -> ShapeView {
        match self {
            Shape::Null => ShapeView::Null,
            Shape::Bool(b) => ShapeView::Bool(*b),
            Shape::Int(n) => ShapeView::Int(*n as int),
            Shape::Real(spelling) => ShapeView::Real(spelling@),
            Shape::Str(text) => ShapeView::Str(text@),
            Shape::Array(items) => ShapeView::Array(texts_view(*items)),
            Shape::Object(parts) => ShapeView::Object(
                Seq::new(parts.len() as nat, |i: int| (parts[i].key@, parts[i].text@)),
            ),
        }
    }
}

/// What `serde_json::from_str` reads from a text, one level deep: `None`
/// where the text is no JSON document. Each item and member of what it reads
/// is given as the text that `serde_json` writes for it.
pub uninterp spec fn json_shape(text: Seq<char>) -> Option<ShapeView>;

/// How deep arrays and objects are followed when a text is read. It is the
/// depth beyond which `serde_json` reads no document.
pub const NESTING_LIMIT: usize = 128;

/// The document that a text spells, with arrays and objects followed to the
/// given depth: `None` where the text or one of its parts is no JSON
/// document, or where it is nested deeper.
pub open spec fn json_reading(text: Seq<char>, depth: nat) -> Option<JsonView>
    decreases depth,
{
    match json_shape(text) {
        None => None,
        Some(ShapeView::Null) => Some(JsonView::Null),
        Some(ShapeView::Bool(b)) => Some(JsonView::Bool(b)),
        Some(ShapeView::Int(n)) => Some(JsonView::Int(n)),
        Some(ShapeView::Real(spelling)) => Some(JsonView::Real(spelling)),
        Some(ShapeView::Str(string)) => Some(JsonView::Str(string)),
        Some(ShapeView::Array(items)) => if depth > 0 && forall|i: int|
            0 <= i < items.len() ==> json_reading(#[trigger] items[i], (depth - 1) as nat)
                is Some {
            Some(
                JsonView::Array(
                    Seq::new(
                        items.len(),
                        |i: int|
                            if depth > 0 && 0 <= i < items.len() {
                                json_reading(items[i], (depth - 1) as nat)->Some_0
                            } else {
                                JsonView::Null
                            },
                    ),
                ),
            )
        } else {
            None
        },
        Some(ShapeView::Object(parts)) => if depth > 0 && forall|i: int|
            0 <= i < parts.len() ==> json_reading((#[trigger] parts[i]).1, (depth - 1) as nat)
                is Some {
            Some(
                JsonView::Object(
                    Seq::new(
                        parts.len(),
                        |i: int|
                            if depth > 0 && 0 <= i < parts.len() {
                                (parts[i].0, json_reading(parts[i].1, (depth - 1) as nat)->Some_0)
                            } else {
                                (Seq::empty(), JsonView::Null)
                            },
                    ),
                ),
            )
        } else {
            None
        },
    }
}

/// The view of an optional document.
pub open spec fn optional_view(document: Option<Json>) -> Option<JsonView> {
    match document {
        Some(d) => Some(d@),
        None => None,
    }
}

impl Json {
    /// Reads a JSON document from its text.
    pub fn parse(text: &str) -> (document: Option<Json>)
        ensures
            optional_view(document) == json_reading(text@, NESTING_LIMIT as nat),
    {
        Self::parse_within(text, NESTING_LIMIT)
    }

    /// Reads a JSON document from its text, following arrays and objects to
    /// the given depth.
    pub fn parse_within(text: &str, depth: usize) -> (document: Option<Json>)
        ensures
            optional_view(document) == json_reading(text@, depth as nat),
        decreases depth,
    {
        let shape = match shape_of(text) {
            Some(shape) => shape,
            None => {
                return None;
            },
        };
        match shape {
            Shape::Null => Some(Json::Null),
            Shape::Bool(b) => Some(Json::Bool(b)),
            Shape::Int(n) => Some(Json::Int(n)),
            Shape::Real(spelling) => Some(Json::Real(spelling)),
            Shape::Str(string) => Some(Json::Str(string)),
            Shape::Array(texts) => {
                if depth == 0 {
                    return None;
                }
                let ghost parts = texts_view(texts);
                let mut items: Vec<Json> = Vec::new();
                let mut i: usize = 0;
                while i < texts.len()
                    invariant
                        depth > 0,
                        json_shape(text@) == Some(ShapeView::Array(parts)),
                        parts == texts_view(texts),
                        i <= texts.len(),
                        items.len() == i,
                        forall|j: int|
                            0 <= j < i ==> json_reading(#[trigger] parts[j], (depth - 1) as nat)
                                == Some(items[j]@),
                    decreases texts.len() - i,
                {
                    match Self::parse_within(texts[i].as_str(), depth - 1) {
                        Some(item) => {
                            items.push(item);
                        },
                        None => {
                            assert(json_reading(parts[i as int], (depth - 1) as nat) is None);
                            return None;
                        },
                    }
                    i += 1;
                }
                let document = Json::Array(items);
                assert(json_reading(text@, depth as nat) matches Some(JsonView::Array(read))
                    && read =~= items_view(items));
                Some(document)
            },
            Shape::Object(texts) => {
                if depth == 0 {
                    return None;
                }
                let ghost parts = Shape::Object(texts)@->Object_0;
                let mut members: Vec<Member> = Vec::new();
                let mut i: usize = 0;
                while i < texts.len()
                    invariant
                        depth > 0,
                        json_shape(text@) == Some(ShapeView::Object(parts)),
                        parts == Seq::new(
                            texts.len() as nat,
                            |i: int| (texts[i].key@, texts[i].text@),
                        ),
                        i <= texts.len(),
                        members.len() == i,
                        forall|j: int|
                            0 <= j < i ==> (#[trigger] members[j]).key@ == parts[j].0
                                && json_reading(parts[j].1, (depth - 1) as nat) == Some(
                                members[j].value@,
                            ),
                    decreases texts.len() - i,
                {
                    match Self::parse_within(texts[i].text.as_str(), depth - 1) {
                        Some(value) => {
                            members.push(Member { key: texts[i].key.clone(), value });
                        },
                        None => {
                            assert(json_reading(parts[i as int].1, (depth - 1) as nat) is None);
                            return None;
                        },
                    }
                    i += 1;
                }
                let document = Json::Object(members);
                assert forall|k: int| 0 <= k < parts.len() implies json_reading(
                    (#[trigger] parts[k]).1,
                    (depth - 1) as nat,
                ) == Some(members[k].value@) && parts[k].0 == members[k].key@ by {
                    assert(members[k].key@ == parts[k].0);
                }
                assert(json_reading(text@, depth as nat) matches Some(JsonView::Object(read))
                    && read =~= members_view(members));
                Some(document)
            },
        }
    }
}

/// `serde_json::from_str` into a `serde_json::Value`, taken apart one level
/// deep: the variant of the value with what it holds, a number as an `i64`
/// where `Number::as_i64` gives one and as `Number::to_string` spells it
/// otherwise, and each item and member as `Value::to_string` writes it.
#[verifier::external_body]
fn shape_of(text: &str) -> (shape: Option<Shape>)
    ensures
        match shape {
            Some(s) => json_shape(text@) == Some(s@),
            None => json_shape(text@) is None,
        },
{
    Some(match serde_json::from_str::<Value>(text).ok()? {
        Value::Null => Shape::Null,
        Value::Bool(b) => Shape::Bool(b),
        Value::Number(n) => n.as_i64().map_or_else(|| Shape::Real(n.to_string()), Shape::Int),
        Value::String(s) => Shape::Str(s),
        Value::Array(a) => Shape::Array(a.iter().map(|v| v.to_string()).collect()),
        Value::Object(o) => Shape::Object(
            o.iter().map(|(k, v)| Part { key: k.clone(), text: v.to_string() }).collect(),
        ),
    })
}

/// `serde_json::Value::to_string` on a JSON string: the text in double quotes
/// with JSON's escapes.
#[verifier::external_body]
fn quoted(text: &str) -> (out: String)
    ensures
        out@ == json_quoted(text@),
{
    Value::String(text.to_owned()).to_string()
}

} // verus!
