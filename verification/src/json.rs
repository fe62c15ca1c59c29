//! JSON documents as plain values.
//!
//! `serde_json` parses a text. What it has parsed is then laid open, level by level, and kept as a
//! `Json`.

use vstd::prelude::*;

use crate::text::str_eq;

verus! {

/// `serde_json::Value`, a JSON document as `serde_json` keeps it.
#[verifier::external_type_specification]
#[verifier::external_body]
pub struct ExValue(serde_json::Value);

/// `serde_json::Error`, what is wrong with a text that is no JSON, or not the JSON asked for.
#[verifier::external_type_specification]
#[verifier::external_body]
pub struct ExError(serde_json::Error);

/// A JSON number.
#[derive(Debug)]
pub struct Number {
    /// The number, if it is an integer that 64 bits with a sign can hold.
    pub integer: Option<i64>,
    /// The number in decimal digits. As a floating-point number it is what this text parses to.
    pub text: String,
}

/// A JSON document.
#[derive(Debug)]
pub enum Json {
    Null,
    Bool(bool),
    Number(Number),
    String(String),
    Array(Vec<Json>),
    /// The members, each with its name.
    Object(Vec<(String, Json)>),
}

/// What a JSON document says.
pub ghost enum Tree {
    Null,
    Bool(bool),
    Number(Option<i64>, Seq<char>),
    String(Seq<char>),
    Array(Seq<Tree>),
    Object(Seq<(Seq<char>, Tree)>),
}

impl View for Number {
    type V = Tree;

    open spec fn view(&self) -> Tree {
        Tree::Number(self.integer, self.text@)
    }
}

impl Number {
    /// The same number once more.
    pub fn copied(&self) -> (r: Number)
        ensures
            r@ == self@,
    {
        Number { integer: self.integer, text: self.text.clone() }
    }
}

impl Json {
    /// What this document says.
    pub open spec fn tree(self) -> Tree
        decreases self,
    {
        match self {
            Json::Null => Tree::Null,
            Json::Bool(b) => Tree::Bool(b),
            Json::Number(n) => n@,
            Json::String(s) => Tree::String(s@),
            Json::Array(items) => Tree::Array(
                Seq::new(
                    items@.len(),
                    |i: int|
                        if 0 <= i < items@.len() {
                            items@[i].tree()
                        } else {
                            Tree::Null
                        },
                ),
            ),
            Json::Object(entries) => Tree::Object(
                Seq::new(
                    entries@.len(),
                    |i: int|
                        if 0 <= i < entries@.len() {
                            (entries@[i].0@, entries@[i].1.tree())
                        } else {
                            (Seq::empty(), Tree::Null)
                        },
                ),
            ),
        }
    }
}

impl View for Json {
    type V = Tree;

    open spec fn view(&self) -> Tree {
        self.tree()
    }
}

/// What `items` say.
pub open spec fn trees(items: Seq<Json>) -> Seq<Tree> {
    Seq::new(items.len(), |i: int| items[i]@)
}

/// The names of `entries`, and what the entries say.
pub open spec fn named_trees(entries: Seq<(String, Json)>) -> Seq<(Seq<char>, Tree)> {
    Seq::new(entries.len(), |i: int| (entries[i].0@, entries[i].1@))
}

/// Whether no two of `entries` have the same name.
pub open spec fn names_differ(entries: Seq<(Seq<char>, Tree)>) -> bool {
    forall|i: int, j: int| 0 <= i < j < entries.len() ==> entries[i].0 != entries[j].0
}

impl Tree {
    /// Whether no object in this document has two members of the same name.
    pub open spec fn is_unambiguous(self) -> bool
        decreases self,
    {
        match self {
            Tree::Array(items) => forall|i: int|
                0 <= i < items.len() ==> (#[trigger] items[i]).is_unambiguous(),
            Tree::Object(entries) => {
                &&& names_differ(entries)
                &&& forall|i: int|
                    0 <= i < entries.len() ==> (#[trigger] entries[i]).1.is_unambiguous()
            },
            _ => true,
        }
    }
}

/// What a value of `serde_json` holds.
pub uninterp spec fn document(value: serde_json::Value) -> Tree;

/// What `serde_json::from_str` makes of `text` where any JSON is asked for.
pub uninterp spec fn parsed(text: Seq<char>) -> Result<Tree, serde_json::Error>;

/// `serde_json::from_str`, asked for any JSON. What it returns, value or error, depends on the text
/// alone.
#[verifier::external_body]
fn parse_value(text: &str) -> (r: Result<serde_json::Value, serde_json::Error>)
    ensures
        parsed(text@) == match r {
            Ok(value) => Ok(document(value)),
            Err(e) => Err(e),
        },
{
    serde_json::from_str(text)
}

/// The outermost level of a value.
enum Layer<'a> {
    Null,
    Bool(bool),
    Number(Number),
    String(&'a String),
    Array(&'a Vec<serde_json::Value>),
    Object(Vec<(&'a String, &'a serde_json::Value)>),
}

/// The variants of `serde_json::Value`, told apart: what a value holds is what its variant carries.
/// A number carries what `Number::as_i64` and its `Display` say of it, an object the entries of its
/// map, in the map's order. The keys of a map differ.
#[verifier::external_body]
fn open_value<'a>(value: &'a serde_json::Value) -> (r: Layer<'a>)
    ensures
        document(*value) == match r {
            Layer::Null => Tree::Null,
            Layer::Bool(b) => Tree::Bool(b),
            Layer::Number(n) => n@,
            Layer::String(s) => Tree::String(s@),
            Layer::Array(items) => Tree::Array(
                Seq::new(items@.len(), |i: int| document(items@[i])),
            ),
            Layer::Object(entries) => Tree::Object(
                Seq::new(entries@.len(), |i: int| (entries@[i].0@, document(*entries@[i].1))),
            ),
        },
        r matches Layer::Object(entries) ==> forall|i: int, j: int|
            0 <= i < j < entries@.len() ==> entries@[i].0@ != entries@[j].0@,
{
    match value {
        serde_json::Value::Null => Layer::Null,
        serde_json::Value::Bool(b) => Layer::Bool(*b),
        serde_json::Value::Number(n) => {
            Layer::Number(Number { integer: n.as_i64(), text: n.to_string() })
        },
        serde_json::Value::String(s) => Layer::String(s),
        serde_json::Value::Array(items) => Layer::Array(items),
        serde_json::Value::Object(entries) => Layer::Object(entries.iter().collect()),
    }
}

/// The document that `value` holds.
fn from_value(value: &serde_json::Value) -> (r: Json)
    ensures
        r@ == document(*value),
        r@.is_unambiguous(),
    decreases document(*value),
{
    match open_value(value) {
        Layer::Null => Json::Null,
        Layer::Bool(b) => Json::Bool(b),
        Layer::Number(n) => Json::Number(n),
        Layer::String(s) => Json::String(s.clone()),
        Layer::Array(items) => {
            let mut out: Vec<Json> = Vec::new();
            let mut i: usize = 0;
            while i < items.len()
                invariant
                    i <= items@.len(),
                    out@.len() == i,
                    forall|k: int|
                        0 <= k < i ==> (#[trigger] out@[k])@ == document(items@[k])
                            && out@[k]@.is_unambiguous(),
                    document(*value) == Tree::Array(
                        Seq::new(items@.len(), |i: int| document(items@[i])),
                    ),
                decreases items@.len() - i,
            {
                assert(document(*value)->Array_0[i as int] == document(items@[i as int]));
                out.push(from_value(&items[i]));
                i += 1;
            }
            let r = Json::Array(out);
            assert(r@->Array_0 =~= document(*value)->Array_0);
            assert forall|k: int| 0 <= k < out@.len() implies (
            #[trigger] r@->Array_0[k]).is_unambiguous() by {
                assert(r@->Array_0[k] == out@[k]@);
            }
            r
        },
        Layer::Object(entries) => {
            let mut out: Vec<(String, Json)> = Vec::new();
            let mut i: usize = 0;
            while i < entries.len()
                invariant
                    i <= entries@.len(),
                    out@.len() == i,
                    forall|k: int|
                        0 <= k < i ==> (#[trigger] out@[k]).0@ == entries@[k].0@ && out@[k].1@
                            == document(*entries@[k].1) && out@[k].1@.is_unambiguous(),
                    document(*value) == Tree::Object(
                        Seq::new(
                            entries@.len(),
                            |i: int| (entries@[i].0@, document(*entries@[i].1)),
                        ),
                    ),
                decreases entries@.len() - i,
            {
                assert(document(*value)->Object_0[i as int].1 == document(*entries@[i as int].1));
                out.push((entries[i].0.clone(), from_value(entries[i].1)));
                i += 1;
            }
            let r = Json::Object(out);
            assert(r@->Object_0 =~= document(*value)->Object_0);
            assert forall|k: int| 0 <= k < out@.len() implies (
            #[trigger] r@->Object_0[k]).1.is_unambiguous() by {
                assert(r@->Object_0[k].1 == out@[k].1@);
            }
            r
        },
    }
}

impl Json {
    /// The document in `text`.
    pub fn parse(text: &str) -> (r: Result<Json, serde_json::Error>)
        ensures
            parsed(text@) == match r {
                Ok(json) => Ok(json@),
                Err(e) => Err(e),
            },
            r matches Ok(json) ==> json@.is_unambiguous(),
    {
        match parse_value(text) {
            Ok(value) => Ok(from_value(&value)),
            Err(e) => Err(e),
        }
    }
}

/// The characters of every one of `strings`.
pub open spec fn texts(strings: Seq<String>) -> Seq<Seq<char>> {
    Seq::new(strings.len(), |i: int| strings[i]@)
}

/// The strings in a document that is an array of strings and nothing else.
pub open spec fn strings_in(document: Result<Tree, serde_json::Error>) -> Option<Seq<Seq<char>>> {
    match document {
        Ok(Tree::Array(items)) => if forall|i: int|
            0 <= i < items.len() ==> (#[trigger] items[i]) is String {
            Some(Seq::new(items.len(), |i: int| items[i]->String_0))
        } else {
            None
        },
        _ => None,
    }
}

/// What `serde_json::from_str` makes of `text` where an array of strings is asked for.
pub uninterp spec fn parsed_strings(text: Seq<char>) -> Result<Seq<Seq<char>>, serde_json::Error>;

/// `serde_json::from_str`, asked for an array of strings. What it returns depends on the text
/// alone. It succeeds exactly where the document is an array of strings, and returns these.
#[verifier::external_body]
pub(crate) fn parse_strings(text: &str) -> (r: Result<Vec<String>, serde_json::Error>)
    ensures
        parsed_strings(text@) == match r {
            Ok(strings) => Ok(texts(strings@)),
            Err(e) => Err(e),
        },
        strings_in(parsed(text@)) == match r {
            Ok(strings) => Some(texts(strings@)),
            Err(_) => None,
        },
{
    serde_json::from_str(text)
}

/// The value of the first entry named `key`.
pub open spec fn lookup(entries: Seq<(Seq<char>, Tree)>, key: Seq<char>) -> Option<Tree>
    decreases entries.len(),
{
    if entries.len() == 0 {
        None
    } else if entries[0].0 == key {
        Some(entries[0].1)
    } else {
        lookup(entries.drop_first(), key)
    }
}

impl Tree {
    /// The member `key`, if this is an object that has one.
    pub open spec fn get(self, key: Seq<char>) -> Option<Tree> {
        match self {
            Tree::Object(entries) => lookup(entries, key),
            _ => None,
        }
    }

    pub open spec fn as_bool(self) -> Option<bool> {
        match self {
            Tree::Bool(b) => Some(b),
            _ => None,
        }
    }

    /// The number, if this is an integer that 64 bits with a sign can hold.
    pub open spec fn as_i64(self) -> Option<i64> {
        match self {
            Tree::Number(integer, _) => integer,
            _ => None,
        }
    }

    pub open spec fn as_str(self) -> Option<Seq<char>> {
        match self {
            Tree::String(s) => Some(s),
            _ => None,
        }
    }

    pub open spec fn as_array(self) -> Option<Seq<Tree>> {
        match self {
            Tree::Array(items) => Some(items),
            _ => None,
        }
    }

    pub open spec fn bool_at(self, key: Seq<char>) -> Option<bool> {
        match self.get(key) {
            Some(value) => value.as_bool(),
            None => None,
        }
    }

    pub open spec fn i64_at(self, key: Seq<char>) -> Option<i64> {
        match self.get(key) {
            Some(value) => value.as_i64(),
            None => None,
        }
    }

    /// The lower 32 bits of the integer member `key`.
    pub open spec fn i32_at(self, key: Seq<char>) -> Option<i32> {
        match self.i64_at(key) {
            Some(n) => Some(n as i32),
            None => None,
        }
    }

    pub open spec fn str_at(self, key: Seq<char>) -> Option<Seq<char>> {
        match self.get(key) {
            Some(value) => value.as_str(),
            None => None,
        }
    }
}

/// In an unambiguous document it does not matter in what order the members of an object stand: a
/// member is found under its name wherever it is.
pub proof fn member_is_found(entries: Seq<(Seq<char>, Tree)>, i: int)
    requires
        Tree::Object(entries).is_unambiguous(),
        0 <= i < entries.len(),
    ensures
        Tree::Object(entries).get(entries[i].0) == Some(entries[i].1),
{
    found_at(entries, i);
}

proof fn found_at(entries: Seq<(Seq<char>, Tree)>, i: int)
    requires
        names_differ(entries),
        0 <= i < entries.len(),
    ensures
        lookup(entries, entries[i].0) == Some(entries[i].1),
    decreases entries.len(),
{
    if i > 0 {
        let rest = entries.drop_first();
        assert(names_differ(rest)) by {
            assert forall|j: int, k: int| 0 <= j < k < rest.len() implies rest[j].0
                != rest[k].0 by {
                assert(rest[j] == entries[j + 1] && rest[k] == entries[k + 1]);
            }
        }
        assert(rest[i - 1] == entries[i]);
        found_at(rest, i - 1);
    }
}

/// The characters of an optional text.
pub open spec fn text_of(s: Option<String>) -> Option<Seq<char>> {
    match s {
        Some(s) => Some(s@),
        None => None,
    }
}

impl Json {
    /// The member `key`, if this is an object that has one.
    pub fn get(&self, key: &str) -> (r: Option<&Json>)
        ensures
            match r {
                Some(value) => self@.get(key@) == Some(value@),
                None => self@.get(key@) is None,
            },
    {
        match self {
            Json::Object(entries) => {
                let ghost named = self@->Object_0;
                let mut i: usize = 0;
                assert(named.skip(0) =~= named);
                while i < entries.len()
                    invariant
                        i <= entries@.len(),
                        named == self@->Object_0,
                        *self == Json::Object(*entries),
                        self@.get(key@) == lookup(named.skip(i as int), key@),
                    decreases entries@.len() - i,
                {
                    assert(named.skip(i as int)[0] == (
                        entries@[i as int].0@,
                        entries@[i as int].1@,
                    ));
                    if str_eq(entries[i].0.as_str(), key) {
                        return Some(&entries[i].1);
                    }
                    assert(named.skip(i as int).drop_first() =~= named.skip(i + 1));
                    i += 1;
                }
                None
            },
            _ => None,
        }
    }

    pub fn as_bool(&self) -> (r: Option<bool>)
        ensures
            r == self@.as_bool(),
    {
        match self {
            Json::Bool(b) => Some(*b),
            _ => None,
        }
    }

    /// The number, if this is an integer that 64 bits with a sign can hold.
    pub fn as_i64(&self) -> (r: Option<i64>)
        ensures
            r == self@.as_i64(),
    {
        match self {
            Json::Number(n) => n.integer,
            _ => None,
        }
    }

    pub fn as_str(&self) -> (r: Option<&str>)
        ensures
            match r {
                Some(s) => self@.as_str() == Some(s@),
                None => self@.as_str() is None,
            },
    {
        match self {
            Json::String(s) => Some(s.as_str()),
            _ => None,
        }
    }

    pub fn as_array(&self) -> (r: Option<&Vec<Json>>)
        ensures
            match r {
                Some(items) => self@.as_array() == Some(trees(items@)),
                None => self@.as_array() is None,
            },
    {
        match self {
            Json::Array(items) => {
                assert(self@->Array_0 =~= trees(items@));
                Some(items)
            },
            _ => None,
        }
    }

    /// The entries, in their order, if this is an object.
    pub fn as_object(&self) -> (r: Option<&Vec<(String, Json)>>)
        ensures
            match r {
                Some(entries) => self@ == Tree::Object(named_trees(entries@)),
                None => !(self@ is Object),
            },
    {
        match self {
            Json::Object(entries) => {
                assert(self@->Object_0 =~= named_trees(entries@));
                Some(entries)
            },
            _ => None,
        }
    }

    pub fn bool_at(&self, key: &str) -> (r: Option<bool>)
        ensures
            r == self@.bool_at(key@),
    {
        match self.get(key) {
            Some(value) => value.as_bool(),
            None => None,
        }
    }

    pub fn i64_at(&self, key: &str) -> (r: Option<i64>)
        ensures
            r == self@.i64_at(key@),
    {
        match self.get(key) {
            Some(value) => value.as_i64(),
            None => None,
        }
    }

    /// The lower 32 bits of the integer member `key`.
    pub fn i32_at(&self, key: &str) -> (r: Option<i32>)
        ensures
            r == self@.i32_at(key@),
    {
        match self.i64_at(key) {
            Some(n) => Some(#[verifier::truncate] (n as i32)),
            None => None,
        }
    }

    pub fn string_at(&self, key: &str) -> (r: Option<String>)
        ensures
            text_of(r) == self@.str_at(key@),
    {
        match self.get(key) {
            Some(value) => match value.as_str() {
                Some(s) => Some(s.to_owned()),
                None => None,
            },
            None => None,
        }
    }
}

} // verus!
