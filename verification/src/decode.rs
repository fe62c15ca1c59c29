//! Reading i3's payloads.

use vstd::prelude::*;

use crate::error::DecodeError;
use crate::json::{parse_strings, parsed, parsed_strings, strings_in, texts, trees, Json, Tree};

verus! {

/// What can be read from a JSON document.
pub trait Decode: Sized {
    /// Whether `tree` has every member that i3 promises, each of the promised kind.
    spec fn readable(tree: Tree) -> bool;

    /// Whether this value is what `tree` says.
    spec fn reads(self, tree: Tree) -> bool;

    /// What `json` says, if it can be read.
    fn from_json(json: &Json) -> (r: Option<Self>)
        ensures
            r is Some <==> Self::readable(json@),
            r matches Some(value) ==> value.reads(json@),
    ;
}

/// A text on its own.
impl Decode for String {
    open spec fn readable(tree: Tree) -> bool {
        tree.as_str() is Some
    }

    open spec fn reads(self, tree: Tree) -> bool {
        tree.as_str() == Some(self@)
    }

    fn from_json(json: &Json) -> (r: Option<Self>) {
        Some(json.as_str()?.to_owned())
    }
}

/// Whether `r` is what a payload holds that parses to `document`.
pub open spec fn decoded<T: Decode>(
    document: Result<Tree, serde_json::Error>,
    r: Result<T, DecodeError>,
) -> bool {
    match document {
        Err(e) => r == Err::<T, DecodeError>(DecodeError::JsonCouldntParse(e)),
        Ok(tree) => if T::readable(tree) {
            r is Ok && r->Ok_0.reads(tree)
        } else {
            r == Err::<T, DecodeError>(DecodeError::Unexpected)
        },
    }
}

/// What a document says that has been parsed.
pub fn read_document<T: Decode>(document: Result<Json, serde_json::Error>) -> (r: Result<
    T,
    DecodeError,
>)
    ensures
        decoded(
            match document {
                Ok(json) => Ok(json@),
                Err(e) => Err(e),
            },
            r,
        ),
{
    match document {
        Ok(json) => match T::from_json(&json) {
            Some(value) => Ok(value),
            None => Err(DecodeError::Unexpected),
        },
        Err(e) => Err(DecodeError::JsonCouldntParse(e)),
    }
}

/// What the payload `text` says.
pub fn decode<T: Decode>(text: &str) -> (r: Result<T, DecodeError>)
    ensures
        decoded(parsed(text@), r),
{
    read_document(Json::parse(text))
}

/// Whether every one of `items` can be read.
pub open spec fn all_readable<T: Decode>(items: Seq<Tree>) -> bool {
    forall|i: int| 0 <= i < items.len() ==> T::readable(#[trigger] items[i])
}

/// Whether `values` are what `items` say, one for one and in their order.
pub open spec fn all_read<T: Decode>(values: Seq<T>, items: Seq<Tree>) -> bool {
    &&& values.len() == items.len()
    &&& forall|i: int| 0 <= i < items.len() ==> (#[trigger] values[i]).reads(items[i])
}

/// What every one of `items` says, if all of them can be read.
pub fn decode_all<T: Decode>(items: &Vec<Json>) -> (r: Option<Vec<T>>)
    ensures
        r is Some <==> all_readable::<T>(trees(items@)),
        r matches Some(values) ==> all_read(values@, trees(items@)),
{
    let mut values: Vec<T> = Vec::new();
    let mut i: usize = 0;
    while i < items.len()
        invariant
            i <= items@.len(),
            all_read(values@, trees(items@).take(i as int)),
            forall|k: int| 0 <= k < i ==> T::readable(#[trigger] trees(items@)[k]),
        decreases items@.len() - i,
    {
        assert(trees(items@)[i as int] == items@[i as int]@);
        match T::from_json(&items[i]) {
            Some(value) => {
                values.push(value);
            },
            None => {
                return None;
            },
        }
        i += 1;
    }
    assert(trees(items@).take(i as int) =~= trees(items@));
    Some(values)
}

/// The strings in the payload `text`, if it is an array of strings.
pub fn decode_strings(text: &str) -> (r: Result<Vec<String>, DecodeError>)
    ensures
        strings_decoded(
            text@,
            match r {
                Ok(strings) => Ok(texts(strings@)),
                Err(e) => Err(e),
            },
        ),
{
    match parse_strings(text) {
        Ok(strings) => Ok(strings),
        Err(e) => Err(DecodeError::JsonCouldntParse(e)),
    }
}

/// What can be read from the payload of a reply.
pub trait Reply: Sized {
    /// Whether `r` is what the payload `text` says.
    spec fn answers(text: Seq<char>, r: Result<Self, DecodeError>) -> bool;

    /// What the payload `text` says.
    fn from_payload(text: &str) -> (r: Result<Self, DecodeError>)
        ensures
            Self::answers(text@, r),
    ;
}

impl<T: Decode> Reply for T {
    open spec fn answers(text: Seq<char>, r: Result<T, DecodeError>) -> bool {
        decoded(parsed(text), r)
    }

    fn from_payload(text: &str) -> (r: Result<T, DecodeError>) {
        decode(text)
    }
}

/// Whether `r` holds the strings in the payload `text`, if it is an array of strings. If it is not,
/// `r` is the error that asking for such an array gives.
pub open spec fn strings_decoded(
    text: Seq<char>,
    r: Result<Seq<Seq<char>>, DecodeError>,
) -> bool {
    match strings_in(parsed(text)) {
        Some(strings) => r == Ok::<Seq<Seq<char>>, DecodeError>(strings),
        None => {
            &&& r is Err
            &&& r->Err_0 is JsonCouldntParse
            &&& parsed_strings(text) == Err::<Seq<Seq<char>>, serde_json::Error>(
                r->Err_0->JsonCouldntParse_0,
            )
        },
    }
}

} // verus!
