//! What a JSON document says, and what is found in it.

use vstd::prelude::*;

use crate::decode::{decode, decode_all, decode_strings, read_document, Decode};
use crate::error::DecodeError;
use crate::json::{
    lookup, named_trees, names_differ, parsed, parsed_strings, strings_in, text_of, texts, trees,
    Json, Number, Tree,
};
use crate::rect::{build_rect, readable_rect_at, reads_rect_at, Rect};

verus! {

/// Whether `tree` is an object with a member of this name and this value.
pub open spec fn has_member(tree: Tree, name: Seq<char>, value: Tree) -> bool {
    tree matches Tree::Object(entries) && entries.contains((name, value))
}

/// Whether `tree` has no member of this name.
pub open spec fn lacks(tree: Tree, name: Seq<char>) -> bool {
    forall|value: Tree| !(#[trigger] has_member(tree, name, value))
}

/// Whether `tree` has a text of this name.
pub open spec fn has_text(tree: Tree, name: Seq<char>) -> bool {
    exists|text: Seq<char>| #[trigger] has_member(tree, name, Tree::String(text))
}

/// Whether `tree` has a boolean of this name.
pub open spec fn has_bool(tree: Tree, name: Seq<char>) -> bool {
    exists|b: bool| #[trigger] has_member(tree, name, Tree::Bool(b))
}

/// Whether `tree` has a number of this name that 64 bits with a sign can hold.
pub open spec fn has_integer(tree: Tree, name: Seq<char>) -> bool {
    exists|n: i64, digits: Seq<char>| #[trigger]
        has_member(tree, name, Tree::Number(Some(n), digits))
}

/// Whether `tree` is the integer `n`.
pub open spec fn is_integer(tree: Tree, n: i64) -> bool {
    tree matches Tree::Number(Some(integer), _) && integer == n
}

/// Whether `half` is `n` where 32 bits can hold it, and its lower 32 bits in any case.
pub open spec fn is_low_half(half: i32, n: i64) -> bool {
    &&& i32::MIN <= n <= i32::MAX ==> half == n
    &&& (n - half) % 0x1_0000_0000 == 0
}

proof fn low_half(n: i64)
    ensures
        is_low_half(n as i32, n),
{
    assert((n - (n as i32)) % 0x1_0000_0000 == 0) by (bit_vector);
    assert(-0x8000_0000 <= n <= 0x7fff_ffff ==> (n as i32) == n) by (bit_vector);
}

proof fn lookup_is_member(entries: Seq<(Seq<char>, Tree)>, name: Seq<char>)
    ensures
        lookup(entries, name) matches Some(value) ==> entries.contains((name, value)),
        lookup(entries, name) is None ==> forall|i: int|
            0 <= i < entries.len() ==> (#[trigger] entries[i]).0 != name,
    decreases entries.len(),
{
    if entries.len() > 0 {
        if entries[0].0 == name {
            assert(entries[0] == (name, entries[0].1));
        } else {
            let rest = entries.drop_first();
            lookup_is_member(rest, name);
            if let Some(value) = lookup(rest, name) {
                let i = choose|i: int| 0 <= i < rest.len() && rest[i] == (name, value);
                assert(entries[i + 1] == (name, value));
            } else {
                assert forall|i: int| 0 <= i < entries.len() implies (#[trigger] entries[i]).0
                    != name by {
                    if i > 0 {
                        assert(entries[i] == rest[i - 1]);
                    }
                }
            }
        }
    }
}

/// What is found under a name is the member of that name: there is one, and no other, if something
/// is found, and none if nothing is. Found as a text, a boolean or an integer it is what that
/// member holds.
pub proof fn found_is_member(tree: Tree, name: Seq<char>)
    requires
        tree.is_unambiguous(),
    ensures
        forall|value: Tree| #[trigger]
            has_member(tree, name, value) <==> tree.get(name) == Some(value),
        tree.get(name) is None <==> lacks(tree, name),
        tree.get(name) matches Some(value) ==> has_member(tree, name, value),
        forall|text: Seq<char>| #[trigger]
            has_member(tree, name, Tree::String(text)) <==> tree.str_at(name) == Some(text),
        tree.str_at(name) is Some <==> has_text(tree, name),
        forall|b: bool| #[trigger]
            has_member(tree, name, Tree::Bool(b)) <==> tree.bool_at(name) == Some(b),
        tree.bool_at(name) is Some <==> has_bool(tree, name),
        forall|n: i64, digits: Seq<char>| #[trigger]
            has_member(tree, name, Tree::Number(Some(n), digits)) ==> tree.i64_at(name) == Some(n)
                && tree.i32_at(name) is Some && is_low_half(tree.i32_at(name)->Some_0, n),
        tree.i64_at(name) is Some <==> has_integer(tree, name),
        tree.i32_at(name) is Some <==> has_integer(tree, name),
{
    if let Tree::Object(entries) = tree {
        lookup_is_member(entries, name);
        assert forall|value: Tree| #[trigger] has_member(tree, name, value) implies tree.get(name)
            == Some(value) by {
            let i = choose|i: int| 0 <= i < entries.len() && entries[i] == (name, value);
            let found = tree.get(name)->Some_0;
            assert(entries[i].0 == name);
            let j = choose|j: int| 0 <= j < entries.len() && entries[j] == (name, found);
            assert(names_differ(entries));
            if i < j {
                assert(entries[i].0 != entries[j].0);
            } else if j < i {
                assert(entries[j].0 != entries[i].0);
            }
        }
    }
    if let Some(value) = tree.get(name) {
        assert(has_member(tree, name, value));
        match value {
            Tree::String(text) => {
                assert(has_member(tree, name, Tree::String(text)));
            },
            Tree::Bool(b) => {
                assert(has_member(tree, name, Tree::Bool(b)));
            },
            Tree::Number(Some(n), digits) => {
                assert(has_member(tree, name, Tree::Number(Some(n), digits)));
                low_half(n);
            },
            _ => {},
        }
    }
}

/// A value counts as a text, a boolean, an integer or an array if it is one, and then for what it
/// holds.
pub proof fn kinds_are_told_apart(
    tree: Tree,
    text: Seq<char>,
    b: bool,
    n: i64,
    digits: Seq<char>,
    items: Seq<Tree>,
)
    ensures
        tree == Tree::String(text) <==> tree.as_str() == Some(text),
        tree == Tree::Bool(b) <==> tree.as_bool() == Some(b),
        tree == Tree::Array(items) <==> tree.as_array() == Some(items),
        tree == Tree::Number(Some(n), digits) ==> tree.as_i64() == Some(n),
        tree.as_i64() is Some ==> tree == Tree::Number(tree.as_i64(), tree->Number_1),
{
}

/// A document says what its parts say: a list the same items in the same order, an object the same
/// members under the same names.
pub proof fn document_says_its_parts(
    b: bool,
    n: Number,
    s: String,
    items: Vec<Json>,
    entries: Vec<(String, Json)>,
)
    ensures
        Json::Null@ == Tree::Null,
        Json::Bool(b)@ == Tree::Bool(b),
        Json::Number(n)@ == Tree::Number(n.integer, n.text@),
        Json::String(s)@ == Tree::String(s@),
        Json::Array(items)@ is Array,
        Json::Array(items)@->Array_0.len() == items@.len(),
        forall|i: int|
            0 <= i < items@.len() ==> (#[trigger] items@[i])@ == Json::Array(items)@->Array_0[i],
        Json::Object(entries)@ is Object,
        Json::Object(entries)@->Object_0.len() == entries@.len(),
        forall|i: int|
            0 <= i < entries@.len() ==> Json::Object(entries)@->Object_0[i] == (
                (#[trigger] entries@[i]).0@,
                entries@[i].1@,
            ),
        trees(items@) == Json::Array(items)@->Array_0,
        named_trees(entries@) == Json::Object(entries)@->Object_0,
{
    assert(trees(items@) =~= Json::Array(items)@->Array_0);
    assert(named_trees(entries@) =~= Json::Object(entries)@->Object_0);
}

/// Texts keep their characters, and lists of texts their order.
pub proof fn texts_are_kept(s: String, strings: Seq<String>)
    ensures
        text_of(Some(s)) == Some(s@),
        text_of(None) is None,
        texts(strings).len() == strings.len(),
        forall|i: int| 0 <= i < strings.len() ==> (#[trigger] strings[i])@ == texts(strings)[i],
{
}

/// A document is a list of texts if it is a list and every item is a text, and then the texts are
/// its items in their order.
pub proof fn list_of_texts(document: Result<Tree, serde_json::Error>, strings: Seq<Seq<char>>)
    ensures
        strings_in(document) == Some(strings) <==> (document matches Ok(Tree::Array(items))
            && items.len() == strings.len() && forall|i: int|
            0 <= i < items.len() ==> #[trigger] items[i] == Tree::String(strings[i])),
        document is Err ==> strings_in(document) is None,
{
    if let Ok(Tree::Array(items)) = document {
        if strings_in(document) == Some(strings) {
            assert forall|i: int| 0 <= i < items.len() implies #[trigger] items[i] == Tree::String(
                strings[i],
            ) by {
                assert(items[i] is String);
            }
        }
        if items.len() == strings.len() && forall|i: int|
            0 <= i < items.len() ==> #[trigger] items[i] == Tree::String(strings[i]) {
            assert(strings_in(document)->Some_0 =~= strings);
        }
    }
}

/// What a member of an unambiguous document says is unambiguous too.
pub proof fn member_is_unambiguous(tree: Tree, name: Seq<char>, value: Tree)
    requires
        tree.is_unambiguous(),
        has_member(tree, name, value),
    ensures
        value.is_unambiguous(),
{
    let entries = tree->Object_0;
    let i = choose|i: int| 0 <= i < entries.len() && entries[i] == (name, value);
    assert(entries[i].1.is_unambiguous());
}

/// Whether `tree` says where a rectangle is and how large it is.
pub open spec fn has_sides(tree: Tree) -> bool {
    &&& has_integer(tree, "x"@)
    &&& has_integer(tree, "y"@)
    &&& has_integer(tree, "width"@)
    &&& has_integer(tree, "height"@)
}

/// Whether the integer `n` of this name, if there is one in `tree`, is `side`.
pub open spec fn is_side(side: i32, tree: Tree, name: Seq<char>) -> bool {
    forall|n: i64, digits: Seq<char>| #[trigger]
        has_member(tree, name, Tree::Number(Some(n), digits)) ==> is_low_half(side, n)
}

/// Whether `rect` is at the "x" and the "y" of `tree`, as wide as its "width" and as high as its
/// "height".
pub open spec fn has_place(rect: Rect, tree: Tree) -> bool {
    &&& is_side(rect.0, tree, "x"@)
    &&& is_side(rect.1, tree, "y"@)
    &&& is_side(rect.2, tree, "width"@)
    &&& is_side(rect.3, tree, "height"@)
}

/// A rectangle is read if its four sides are there: x, y, width and height, in this order.
pub proof fn rect_is_read(json: &Json, r: Option<Rect>)
    requires
        call_ensures(build_rect, (json,), r),
        json@.is_unambiguous(),
    ensures
        r is Some <==> has_integer(json@, "x"@) && has_integer(json@, "y"@) && has_integer(
            json@,
            "width"@,
        ) && has_integer(json@, "height"@),
        r matches Some((x, y, width, height)) ==> is_side(x, json@, "x"@) && is_side(
            y,
            json@,
            "y"@,
        ) && is_side(width, json@, "width"@) && is_side(height, json@, "height"@),
{
    found_is_member(json@, "x"@);
    found_is_member(json@, "y"@);
    found_is_member(json@, "width"@);
    found_is_member(json@, "height"@);
}

/// Whether the member of this name says where a rectangle is and how large it is.
pub open spec fn has_rect(tree: Tree, name: Seq<char>) -> bool {
    exists|value: Tree| #[trigger] has_member(tree, name, value) && has_sides(value)
}

/// A rectangle that is a member is read as it would be on its own.
pub proof fn rect_is_found(tree: Tree, name: Seq<char>)
    requires
        tree.is_unambiguous(),
    ensures
        readable_rect_at(tree, name) <==> has_rect(tree, name),
        forall|rect: Rect, value: Tree| #[trigger]
            reads_rect_at(rect, tree, name) && #[trigger] has_member(tree, name, value)
                ==> has_place(rect, value),
{
    found_is_member(tree, name);
    if let Some(value) = tree.get(name) {
        assert(has_member(tree, name, value));
        member_is_unambiguous(tree, name, value);
        found_is_member(value, "x"@);
        found_is_member(value, "y"@);
        found_is_member(value, "width"@);
        found_is_member(value, "height"@);
    }
}

/// A document is asked for a member, and gives the value of the member of that name, if it has one.
pub proof fn member_is_given(json: &Json, key: &str, r: Option<&Json>)
    requires
        call_ensures(Json::get, (json, key), r),
        json@.is_unambiguous(),
    ensures
        r matches Some(value) ==> has_member(json@, key@, value@),
        r is None ==> lacks(json@, key@),
{
    found_is_member(json@, key@);
}

/// A document is asked for a member of some kind, and gives what the member of that name holds, if
/// it has one and this is of that kind.
pub proof fn member_of_a_kind_is_given(
    json: &Json,
    key: &str,
    boolean: Option<bool>,
    integer: Option<i64>,
    half: Option<i32>,
    text: Option<String>,
)
    requires
        call_ensures(Json::bool_at, (json, key), boolean),
        call_ensures(Json::i64_at, (json, key), integer),
        call_ensures(Json::i32_at, (json, key), half),
        call_ensures(Json::string_at, (json, key), text),
        json@.is_unambiguous(),
    ensures
        boolean is Some <==> has_bool(json@, key@),
        boolean matches Some(b) ==> has_member(json@, key@, Tree::Bool(b)),
        integer is Some <==> has_integer(json@, key@),
        half is Some <==> has_integer(json@, key@),
        forall|n: i64, digits: Seq<char>| #[trigger]
            has_member(json@, key@, Tree::Number(Some(n), digits)) ==> integer == Some(n)
                && is_low_half(half->Some_0, n),
        text is Some <==> has_text(json@, key@),
        text matches Some(text) ==> has_member(json@, key@, Tree::String(text@)),
{
    found_is_member(json@, key@);
}

/// A document gives what it is, asked for the kind that it is of, and nothing, asked for another.
pub proof fn document_is_given(
    json: &Json,
    boolean: Option<bool>,
    integer: Option<i64>,
    text: Option<&str>,
    items: Option<&Vec<Json>>,
    entries: Option<&Vec<(String, Json)>>,
)
    requires
        call_ensures(Json::as_bool, (json,), boolean),
        call_ensures(Json::as_i64, (json,), integer),
        call_ensures(Json::as_str, (json,), text),
        call_ensures(Json::as_array, (json,), items),
        call_ensures(Json::as_object, (json,), entries),
    ensures
        boolean is Some <==> json@ is Bool,
        boolean matches Some(b) ==> json@ == Tree::Bool(b),
        integer is Some <==> json@ is Number && json@->Number_0 is Some,
        integer is Some ==> json@->Number_0 == integer,
        text is Some <==> json@ is String,
        text matches Some(text) ==> json@ == Tree::String(text@),
        items is Some <==> json@ is Array,
        items matches Some(items) ==> items@.len() == json@->Array_0.len() && forall|i: int|
            0 <= i < items@.len() ==> (#[trigger] items@[i])@ == json@->Array_0[i],
        entries is Some <==> json@ is Object,
        entries matches Some(entries) ==> entries@.len() == json@->Object_0.len() && forall|i: int|
            0 <= i < entries@.len() ==> json@->Object_0[i] == (
                (#[trigger] entries@[i]).0@,
                entries@[i].1@,
            ),
{
}

/// A parsed document is what the text says, or the error of parsing it. In no object of it a name
/// occurs twice.
pub proof fn document_is_parsed(text: &str, r: Result<Json, serde_json::Error>)
    requires
        call_ensures(Json::parse, (text,), r),
    ensures
        r is Ok <==> parsed(text@) is Ok,
        r matches Ok(json) ==> parsed(text@) == Ok::<Tree, serde_json::Error>(json@)
            && json@.is_unambiguous(),
        r matches Err(e) ==> parsed(text@) == Err::<Tree, serde_json::Error>(e),
{
}

/// A document is unambiguous if in no object in it, at any depth, a name occurs twice. That holds
/// of everything that is neither an object nor an array.
pub proof fn unambiguous_names_differ(tree: Tree)
    ensures
        tree matches Tree::Object(entries) ==> (tree.is_unambiguous() <==> (forall|i: int, j: int|
            0 <= i < j < entries.len() ==> entries[i].0 != entries[j].0) && (forall|i: int|
            0 <= i < entries.len() ==> (#[trigger] entries[i]).1.is_unambiguous())),
        tree matches Tree::Array(items) ==> (tree.is_unambiguous() <==> forall|i: int|
            0 <= i < items.len() ==> (#[trigger] items[i]).is_unambiguous()),
        !(tree is Object) && !(tree is Array) ==> tree.is_unambiguous(),
{
}

/// A copy of a number is the same number.
pub proof fn number_is_copied(n: &Number, r: Number)
    requires
        call_ensures(Number::copied, (n,), r),
    ensures
        r.integer == n.integer,
        r.text@ == n.text@,
{
}

/// Items are read one for one and in their order, or not at all if one of them cannot be read.
pub proof fn items_are_read<T: Decode>(items: &Vec<Json>, r: Option<Vec<T>>)
    requires
        call_ensures(decode_all::<T>, (items,), r),
    ensures
        r is Some <==> forall|i: int|
            0 <= i < items@.len() ==> T::readable((#[trigger] items@[i])@),
        r matches Some(values) ==> values@.len() == items@.len() && forall|i: int|
            0 <= i < items@.len() ==> (#[trigger] values@[i]).reads(items@[i]@),
{
    assert forall|i: int| 0 <= i < items@.len() implies trees(items@)[i] == (
    #[trigger] items@[i])@ by {}
    if forall|i: int| 0 <= i < items@.len() ==> T::readable((#[trigger] items@[i])@) {
        assert forall|i: int| 0 <= i < trees(items@).len() implies T::readable(
            #[trigger] trees(items@)[i],
        ) by {
            assert(T::readable(items@[i]@));
        }
    }
    if r is Some {
        assert forall|i: int| 0 <= i < items@.len() implies T::readable((
            #[trigger] items@[i])@) by {
            assert(T::readable(trees(items@)[i]));
        }
    }
}

/// A text on its own is read if the document is one, and is that text.
pub proof fn text_is_read(json: &Json, r: Option<String>)
    requires
        call_ensures(<String as Decode>::from_json, (json,), r),
    ensures
        r is Some <==> json@ is String,
        r matches Some(text) ==> json@ == Tree::String(text@),
{
}

/// A document that has been parsed is read. One that could not be parsed gives the error of parsing
/// it, and one that cannot be read is unexpected.
pub proof fn document_is_read<T: Decode>(
    document: Result<Json, serde_json::Error>,
    r: Result<T, DecodeError>,
)
    requires
        call_ensures(read_document::<T>, (document,), r),
    ensures
        document matches Err(e) ==> r == Err::<T, DecodeError>(DecodeError::JsonCouldntParse(e)),
        document matches Ok(json) ==> (T::readable(json@) <==> r is Ok),
        document matches Ok(json) ==> (r matches Ok(value) ==> value.reads(json@)),
        document matches Ok(json) ==> (r is Err ==> r == Err::<T, DecodeError>(
            DecodeError::Unexpected,
        )),
{
}

/// A text that has yet to be parsed is read in the same way.
pub proof fn text_is_decoded<T: Decode>(text: &str, r: Result<T, DecodeError>)
    requires
        call_ensures(decode::<T>, (text,), r),
    ensures
        parsed(text@) matches Err(e) ==> r == Err::<T, DecodeError>(
            DecodeError::JsonCouldntParse(e),
        ),
        parsed(text@) matches Ok(tree) ==> (T::readable(tree) <==> r is Ok),
        parsed(text@) matches Ok(tree) ==> (r matches Ok(value) ==> value.reads(tree)),
        parsed(text@) matches Ok(tree) ==> (r is Err ==> r == Err::<T, DecodeError>(
            DecodeError::Unexpected,
        )),
{
}

/// A text that is an array of texts is read as these, one for one and in their order. Any other
/// gives the error that asking for such an array gives.
pub proof fn strings_are_decoded(text: &str, r: Result<Vec<String>, DecodeError>)
    requires
        call_ensures(decode_strings, (text,), r),
    ensures
        r is Ok <==> (parsed(text@) matches Ok(Tree::Array(items)) && forall|i: int|
            0 <= i < items.len() ==> (#[trigger] items[i]) is String),
        r matches Ok(strings) ==> (parsed(text@) matches Ok(Tree::Array(items)) && strings@.len()
            == items.len() && forall|i: int|
            0 <= i < items.len() ==> #[trigger] items[i] == Tree::String(strings@[i]@)),
        r matches Err(e) ==> (parsed_strings(text@) matches Err(cause) && e
            == DecodeError::JsonCouldntParse(cause)),
{
    if let Ok(strings) = r {
        list_of_texts(parsed(text@), texts(strings@));
    }
}

} // verus!
