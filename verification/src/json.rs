use crate::text::{opt_text, opt_texts, same_text, texts};
use vstd::prelude::*;

verus! {

/// A JSON document as the addon reads it: numbers are kept only where they
/// are integers that fit `i64`, which is all that any schema here asks for.
#[derive(Debug, PartialEq, Eq)]
pub enum Json {
    Null,
    Bool(bool),
    Int(i64),
    /// A number that is not an integer in the range of `i64`.
    OtherNumber,
    Str(String),
    Array(Vec<Json>),
    /// Members in the order they were read; a later member with the same
    /// name hides an earlier one.
    Object(Vec<(String, Json)>),
}

/// The mathematical value of a [`Json`] document.
pub enum JsonValue {
    Null,
    Bool(bool),
    Int(int),
    OtherNumber,
    Str(Seq<char>),
    Array(Seq<JsonValue>),
    Object(Map<Seq<char>, JsonValue>),
}

/// Index of the last member of `members` whose name is `name`, or -1.
pub open spec fn last_member(members: Seq<(String, Json)>, name: Seq<char>) -> int
    decreases members.len(),
{
    if members.len() == 0 {
        -1
    } else if members.last().0@ == name {
        members.len() - 1
    } else {
        last_member(members.drop_last(), name)
    }
}

impl View for Json {
    type V = JsonValue;

    open spec fn view(&self) -> JsonValue
        decreases self,
    {
        match self {
            Json::Null => JsonValue::Null,
            Json::Bool(b) => JsonValue::Bool(*b),
            Json::Int(i) => JsonValue::Int(*i as int),
            Json::OtherNumber => JsonValue::OtherNumber,
            Json::Str(s) => JsonValue::Str(s@),
            Json::Array(items) => JsonValue::Array(
                Seq::new(
                    items.len() as nat,
                    |i: int|
                        if 0 <= i < items.len() {
                            items[i].view()
                        } else {
                            JsonValue::Null
                        },
                ),
            ),
            Json::Object(members) => JsonValue::Object(
                Map::new(
                    |name: Seq<char>| last_member(members@, name) >= 0,
                    |name: Seq<char>|
                        {
                            let i = last_member(members@, name);
                            if 0 <= i < members.len() {
                                members[i].1.view()
                            } else {
                                JsonValue::Null
                            }
                        },
                ),
            ),
        }
    }
}

/// The mathematical values of a sequence of documents, in order.
pub open spec fn values(items: Seq<Json>) -> Seq<JsonValue> {
    Seq::new(items.len(), |i: int| items[i]@)
}

impl JsonValue {
    /// The member called `name`, where this is an object that has one.
    pub open spec fn member(self, name: Seq<char>) -> Option<JsonValue> {
        match self {
            JsonValue::Object(members) => if members.contains_key(name) {
                Some(members[name])
            } else {
                None
            },
            _ => None,
        }
    }

    /// The text, where this is a string.
    pub open spec fn text(self) -> Option<Seq<char>> {
        match self {
            JsonValue::Str(s) => Some(s),
            _ => None,
        }
    }

    /// The number, where this is an integer.
    pub open spec fn integer(self) -> Option<int> {
        match self {
            JsonValue::Int(i) => Some(i),
            _ => None,
        }
    }

    /// Whether every number in the document is an integer and arrays and
    /// objects are nested at most `depth` deep.
    pub open spec fn plain(self, depth: nat) -> bool
        decreases depth,
    {
        match self {
            JsonValue::OtherNumber => false,
            JsonValue::Array(items) => depth > 0 && forall|i: int|
                0 <= i < items.len() ==> (#[trigger] items[i]).plain((depth - 1) as nat),
            JsonValue::Object(members) => depth > 0 && forall|name: Seq<char>|
                members.contains_key(name) ==> (#[trigger] members[name]).plain(
                    (depth - 1) as nat,
                ),
            _ => true,
        }
    }
}

/// A document that is plain at one depth is plain at every greater depth.
pub proof fn lemma_plain_deeper(v: JsonValue, depth: nat, deeper: nat)
    requires
        v.plain(depth),
        depth <= deeper,
    ensures
        v.plain(deeper),
    decreases depth,
{
    match v {
        JsonValue::Array(items) => {
            assert forall|i: int| 0 <= i < items.len() implies (#[trigger] items[i]).plain(
                (deeper - 1) as nat,
            ) by {
                lemma_plain_deeper(items[i], (depth - 1) as nat, (deeper - 1) as nat);
            }
        },
        JsonValue::Object(members) => {
            assert forall|name: Seq<char>| members.contains_key(name) implies (
            #[trigger] members[name]).plain((deeper - 1) as nat) by {
                lemma_plain_deeper(members[name], (depth - 1) as nat, (deeper - 1) as nat);
            }
        },
        _ => {},
    }
}

/// `last_member` gives a position among the members, or -1.
pub proof fn lemma_last_member_bound(members: Seq<(String, Json)>, name: Seq<char>)
    ensures
        -1 <= last_member(members, name) < members.len(),
    decreases members.len(),
{
    if members.len() > 0 && members.last().0@ != name {
        lemma_last_member_bound(members.drop_last(), name);
    }
}

/// Where `k` is the last member called `name`, `last_member` finds it.
pub proof fn lemma_last_member_found(members: Seq<(String, Json)>, name: Seq<char>, k: int)
    requires
        0 <= k < members.len(),
        members[k].0@ == name,
        forall|j: int| k < j < members.len() ==> members[j].0@ != name,
    ensures
        last_member(members, name) == k,
    decreases members.len(),
{
    if k < members.len() - 1 {
        let front = members.drop_last();
        assert(front[k] == members[k]);
        assert forall|j: int| k < j < front.len() implies front[j].0@ != name by {
            assert(front[j] == members[j]);
        }
        lemma_last_member_found(front, name, k);
    }
}

/// Where no member is called `name`, `last_member` finds none.
pub proof fn lemma_last_member_absent(members: Seq<(String, Json)>, name: Seq<char>)
    requires
        forall|j: int| 0 <= j < members.len() ==> members[j].0@ != name,
    ensures
        last_member(members, name) == -1,
    decreases members.len(),
{
    if members.len() > 0 {
        let front = members.drop_last();
        assert forall|j: int| 0 <= j < front.len() implies front[j].0@ != name by {
            assert(front[j] == members[j]);
        }
        lemma_last_member_absent(front, name);
    }
}

impl Json {
    /// The member called `name`, where this is an object that has one.
    #[verifier::loop_isolation(false)]
    pub fn get(&self, name: &str) -> (found: Option<&Json>)
        ensures
            match found {
                Some(j) => self@.member(name@) == Some(j@),
                None => self@.member(name@) is None,
            },
    {
        match self {
            Json::Object(members) => {
                let mut i: usize = members.len();
                while i > 0
                    invariant
                        i <= members.len(),
                        forall|j: int| i <= j < members.len() ==> members[j].0@ != name@,
                    decreases i,
                {
                    i = i - 1;
                    if same_text(members[i].0.as_str(), name) {
                        proof {
                            lemma_last_member_found(members@, name@, i as int);
                        }
                        return Some(&members[i].1);
                    }
                }
                proof {
                    lemma_last_member_absent(members@, name@);
                }
                None
            },
            _ => None,
        }
    }

    /// The text, where this is a string.
    pub fn as_text(&self) -> (text: Option<&str>)
        ensures
            match text {
                Some(t) => self@.text() == Some(t@),
                None => self@.text() is None,
            },
    {
        match self {
            Json::Str(s) => Some(s.as_str()),
            _ => None,
        }
    }

    /// The number, where this is an integer.
    pub fn as_int(&self) -> (number: Option<i64>)
        ensures
            match number {
                Some(i) => self@.integer() == Some(i as int),
                None => self@.integer() is None,
            },
    {
        match self {
            Json::Int(i) => Some(*i),
            _ => None,
        }
    }

    /// The items, where this is an array.
    pub fn as_items(&self) -> (items: Option<&Vec<Json>>)
        ensures
            match items {
                Some(v) => self@ == JsonValue::Array(values(v@)),
                None => !(self@ is Array),
            },
    {
        match self {
            Json::Array(items) => {
                assert(self@->Array_0 =~= values(items@));
                Some(items)
            },
            _ => None,
        }
    }
}

/// The text of the member `name`, where there is such a member and it is a
/// string.
pub open spec fn member_text(v: JsonValue, name: Seq<char>) -> Option<Seq<char>> {
    match v.member(name) {
        Some(m) => m.text(),
        None => None,
    }
}

/// The texts of an array whose items are all strings.
pub open spec fn text_list(v: JsonValue) -> Option<Seq<Seq<char>>> {
    match v {
        JsonValue::Array(items) => if forall|i: int|
            0 <= i < items.len() ==> (#[trigger] items[i]).text() is Some {
            Some(Seq::new(items.len(), |i: int| items[i].text()->0))
        } else {
            None
        },
        _ => None,
    }
}

/// Reads the text of a member.
pub fn read_text(j: &Json, name: &str) -> (text: Option<String>)
    ensures
        opt_text(text) == member_text(j@, name@),
{
    match j.get(name) {
        Some(m) => match m.as_text() {
            Some(t) => Some(t.to_owned()),
            None => None,
        },
        None => None,
    }
}

/// Reads an array of strings.
#[verifier::loop_isolation(false)]
pub fn read_text_list(j: &Json) -> (list: Option<Vec<String>>)
    ensures
        opt_texts(list) == text_list(j@),
{
    let items = match j.as_items() {
        Some(items) => items,
        None => {
            return None;
        },
    };
    let mut list: Vec<String> = Vec::new();
    let mut i: usize = 0;
    while i < items.len()
        invariant
            i <= items.len(),
            list.len() == i,
            forall|k: int| 0 <= k < i ==> values(items@)[k].text() == Some(#[trigger] list[k]@),
        decreases items.len() - i,
    {
        match items[i].as_text() {
            Some(t) => {
                list.push(t.to_owned());
            },
            None => {
                assert(values(items@)[i as int].text() is None);
                return None;
            },
        }
        i = i + 1;
    }
    assert forall|k: int| 0 <= k < items.len() implies (#[trigger] values(items@)[k]).text() is Some by {
        assert(values(items@)[k].text() == Some(list[k]@));
    }
    assert(text_list(j@) is Some);
    assert(texts(list@) =~= text_list(j@)->0);
    Some(list)
}

/// A text that may be absent, as a document: the string, or `null`.
pub open spec fn optional_text_json(text: Option<Seq<char>>) -> JsonValue {
    match text {
        Some(t) => JsonValue::Str(t),
        None => JsonValue::Null,
    }
}

/// A list of texts that may be absent, as a document: the array of the
/// strings, or `null`.
pub open spec fn optional_texts_json(list: Option<Seq<Seq<char>>>) -> JsonValue {
    match list {
        Some(l) => JsonValue::Array(Seq::new(l.len(), |i: int| JsonValue::Str(l[i]))),
        None => JsonValue::Null,
    }
}

/// A text that may be absent, as a document.
pub fn optional_text_document(text: &Option<String>) -> (j: Json)
    ensures
        j@ == optional_text_json(opt_text(*text)),
{
    match text {
        Some(t) => Json::Str(t.clone()),
        None => Json::Null,
    }
}

/// A list of texts that may be absent, as a document.
pub fn optional_texts_document(list: &Option<Vec<String>>) -> (j: Json)
    ensures
        j@ == optional_texts_json(opt_texts(*list)),
{
    match list {
        Some(l) => {
            let mut items: Vec<Json> = Vec::new();
            let mut i: usize = 0;
            while i < l.len()
                invariant
                    i <= l.len(),
                    items.len() == i,
                    forall|k: int| 0 <= k < i ==> (#[trigger] items[k])@ == JsonValue::Str(l[k]@),
                decreases l.len() - i,
            {
                items.push(Json::Str(l[i].clone()));
                i = i + 1;
            }
            let j = Json::Array(items);
            assert(j@->Array_0 =~= optional_texts_json(opt_texts(*list))->Array_0);
            j
        },
        None => Json::Null,
    }
}

/// What `serde_json` reads a text as, or `None` where the text is not one
/// JSON document.
pub uninterp spec fn json_value(text: Seq<char>) -> Option<JsonValue>;

/// The text that `serde_json` writes for a document.
pub uninterp spec fn json_text(value: JsonValue) -> Seq<char>;

#[verifier::external_type_specification]
#[verifier::external_body]
pub struct ExValue(serde_json::Value);

#[verifier::external_type_specification]
#[verifier::external_body]
pub struct ExJsonError(serde_json::Error);

/// Copies a `serde_json::Value` into a [`Json`], variant by variant. A
/// number becomes `Int` where `Number::as_i64` gives one and `OtherNumber`
/// where it does not. Nothing is claimed of the result here: what is
/// claimed is stated of `parse_json`, which calls this.
#[verifier::external_body]
fn json_of(value: &serde_json::Value) -> Json {
    match value {
        serde_json::Value::Null => Json::Null,
        serde_json::Value::Bool(b) => Json::Bool(*b),
        serde_json::Value::Number(n) => n.as_i64().map_or(Json::OtherNumber, Json::Int),
        serde_json::Value::String(s) => Json::Str(s.clone()),
        serde_json::Value::Array(items) => Json::Array(items.iter().map(json_of).collect()),
        serde_json::Value::Object(members) => Json::Object(
            members.iter().map(|(name, member)| (name.clone(), json_of(member))).collect(),
        ),
    }
}

/// Copies a [`Json`] into a `serde_json::Value`, variant by variant; the
/// members of an object are inserted in order, so that a later one replaces
/// an earlier one of the same name. `OtherNumber` holds no number to copy
/// and becomes `null`. Nothing is claimed of the result here: what is
/// claimed is stated of `print_json`, which calls this.
#[verifier::external_body]
fn value_of(j: &Json) -> serde_json::Value {
    match j {
        Json::Null | Json::OtherNumber => serde_json::Value::Null,
        Json::Bool(b) => serde_json::Value::Bool(*b),
        Json::Int(i) => serde_json::Value::from(*i),
        Json::Str(s) => serde_json::Value::String(s.clone()),
        Json::Array(items) => serde_json::Value::Array(items.iter().map(value_of).collect()),
        Json::Object(members) => {
            let mut map = serde_json::Map::new();
            for (name, member) in members {
                map.insert(name.clone(), value_of(member));
            }
            serde_json::Value::Object(map)
        },
    }
}

/// `serde_json::from_str`, read as a `serde_json::Value` and copied into a
/// [`Json`]. The contract only gives the result its name: the same text is
/// always read as the same document, or always refused.
#[verifier::external_body]
fn parse_json(text: &str) -> (parsed: Result<Json, serde_json::Error>)
    ensures
        match parsed {
            Ok(j) => json_value(text@) == Some(j@),
            Err(_) => json_value(text@) is None,
        },
{
    serde_json::from_str::<serde_json::Value>(text).map(|value| json_of(&value))
}

/// `serde_json::to_string` on the `serde_json::Value` that the document is
/// copied into. The contract names the text, and claims that
/// `serde_json::from_str` reads that text as the same document again. This
/// is claimed only of documents whose numbers are integers and that are
/// nested at most 100 deep: the reader refuses a nesting of 128.
#[verifier::external_body]
fn print_json(j: &Json) -> (text: String)
    requires
        j@.plain(100),
    ensures
        text@ == json_text(j@),
        json_value(text@) == Some(j@),
{
    serde_json::to_string(&value_of(j)).unwrap_or_default()
}

impl Json {
    /// Reads a text as one JSON document.
    pub fn parse(text: &str) -> (parsed: Option<Json>)
        ensures
            match parsed {
                Some(j) => json_value(text@) == Some(j@),
                None => json_value(text@) is None,
            },
    {
        match parse_json(text) {
            Ok(j) => Some(j),
            Err(_) => None,
        }
    }

    /// Writes the document as text, in a form that `parse` reads as the
    /// same document.
    pub fn to_text(&self) -> (text: String)
        requires
            self@.plain(100),
        ensures
            text@ == json_text(self@),
            json_value(text@) == Some(self@),
    {
        print_json(self)
    }

    /// The object without members.
    pub fn object() -> (empty: Json)
        ensures
            empty@ == JsonValue::Object(Map::<Seq<char>, JsonValue>::empty()),
    {
        let empty = Json::Object(Vec::new());
        proof {
            assert(empty@->Object_0 =~= Map::<Seq<char>, JsonValue>::empty());
        }
        empty
    }

    /// The object with one more member, which replaces a member of the same
    /// name. A document that is no object stays as it is.
    pub fn with(self, name: &str, value: Json) -> (extended: Json)
        ensures
            match self@ {
                JsonValue::Object(members) => extended@ == JsonValue::Object(
                    members.insert(name@, value@),
                ),
                _ => extended@ == self@,
            },
    {
        match self {
            Json::Object(mut members) => {
                let ghost before = members@;
                let ghost old_map = Json::Object(members)@->Object_0;
                members.push((name.to_owned(), value));
                let extended = Json::Object(members);
                proof {
                    let after = members@;
                    assert(after.drop_last() =~= before);
                    assert(after.last().0@ == name@);
                    assert forall|n: Seq<char>| n != name@ implies last_member(after, n)
                        == last_member(before, n) by {}
                    assert(last_member(after, name@) == after.len() - 1);
                    assert forall|n: Seq<char>| last_member(before, n) < before.len() by {
                        lemma_last_member_bound(before, n);
                    }
                    let new_map = extended@->Object_0;
                    let want = old_map.insert(name@, value@);
                    assert forall|n: Seq<char>| new_map.contains_key(n) == want.contains_key(
                        n,
                    ) by {}
                    assert forall|n: Seq<char>| new_map.contains_key(n) implies new_map[n]
                        == want[n] by {
                        if n != name@ {
                            let i = last_member(before, n);
                            assert(after[i] == before[i]);
                        }
                    }
                    assert(new_map =~= want);
                }
                extended
            },
            other => other,
        }
    }
}

} // verus!
