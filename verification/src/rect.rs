//! Rectangles.

use vstd::prelude::*;

use crate::json::{Json, Tree};

verus! {

/// A rectangle: x, y, width and height.
pub type Rect = (i32, i32, i32, i32);

/// Whether `tree` describes a rectangle.
pub open spec fn readable_rect(tree: Tree) -> bool {
    &&& tree.i32_at("x"@) is Some
    &&& tree.i32_at("y"@) is Some
    &&& tree.i32_at("width"@) is Some
    &&& tree.i32_at("height"@) is Some
}

/// Whether `rect` is the rectangle that `tree` describes.
pub open spec fn reads_rect(rect: Rect, tree: Tree) -> bool {
    &&& tree.i32_at("x"@) == Some(rect.0)
    &&& tree.i32_at("y"@) == Some(rect.1)
    &&& tree.i32_at("width"@) == Some(rect.2)
    &&& tree.i32_at("height"@) == Some(rect.3)
}

/// The rectangle that `json` describes.
pub fn build_rect(json: &Json) -> (r: Option<Rect>)
    ensures
        r is Some <==> readable_rect(json@),
        r matches Some(rect) ==> reads_rect(rect, json@),
{
    Some((json.i32_at("x")?, json.i32_at("y")?, json.i32_at("width")?, json.i32_at("height")?))
}

/// Whether the member `key` describes a rectangle.
pub open spec fn readable_rect_at(tree: Tree, key: Seq<char>) -> bool {
    tree.get(key) matches Some(value) && readable_rect(value)
}

/// Whether `rect` is the rectangle that the member `key` describes.
pub open spec fn reads_rect_at(rect: Rect, tree: Tree, key: Seq<char>) -> bool {
    tree.get(key) matches Some(value) && reads_rect(rect, value)
}

/// The rectangle that the member `key` describes.
pub fn rect_at(json: &Json, key: &str) -> (r: Option<Rect>)
    ensures
        r is Some <==> readable_rect_at(json@, key@),
        r matches Some(rect) ==> reads_rect_at(rect, json@, key@),
{
    build_rect(json.get(key)?)
}

} // verus!
