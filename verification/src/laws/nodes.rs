//! What a node says, of the container that i3 described.

use vstd::prelude::*;

use crate::decode::Decode;
use crate::json::{names_differ, Json, Tree};
use crate::laws::documents::{
    found_is_member, has_bool, has_integer, has_member, has_place, has_rect, has_text, is_integer,
    is_low_half, lacks, member_is_unambiguous, rect_is_found,
};
use crate::laws::names::{
    node_border_names_differ, node_layout_names_differ, node_type_names_differ,
    window_property_names_differ,
};
use crate::node::{
    ids_described, ids_read, list_at, list_is_smaller, property_texts, text_properties, Node,
    NodeBorder, NodeLayout, NodeType, WindowProperty,
};

verus! {

/// Whether the list of this name, where there is one, holds integers.
pub open spec fn has_ids(tree: Tree, name: Seq<char>) -> bool {
    forall|list: Tree| #[trigger]
        has_member(tree, name, list) ==> list is Array && forall|i: int|
            0 <= i < list->Array_0.len() ==> (#[trigger] list->Array_0[i]) is Number
                && list->Array_0[i]->Number_0 is Some
}

/// Whether `ids` are the integers in the list of this name: item by item, and none where there is
/// no such list.
pub open spec fn are_ids(ids: Seq<i64>, tree: Tree, name: Seq<char>) -> bool {
    &&& lacks(tree, name) ==> ids.len() == 0
    &&& forall|items: Seq<Tree>| #[trigger]
        has_member(tree, name, Tree::Array(items)) ==> ids.len() == items.len() && forall|i: int|
            0 <= i < items.len() ==> is_integer(#[trigger] items[i], ids[i])
}

/// Whether one of `properties` gives this text for `property`.
pub open spec fn gives(
    properties: Seq<(WindowProperty, String)>,
    property: WindowProperty,
    text: Seq<char>,
) -> bool {
    exists|i: int|
        0 <= i < properties.len() && (#[trigger] properties[i]).0 == property && properties[i].1@
            == text
}

/// Whether `properties` are those texts of `tree` that have the name of a property, each of them
/// once.
pub open spec fn are_properties(properties: Seq<(WindowProperty, String)>, tree: Tree) -> bool {
    &&& forall|text: Seq<char>| #[trigger]
        gives(properties, WindowProperty::Title, text) <==> has_member(
            tree,
            "title"@,
            Tree::String(text),
        )
    &&& forall|text: Seq<char>| #[trigger]
        gives(properties, WindowProperty::Instance, text) <==> has_member(
            tree,
            "instance"@,
            Tree::String(text),
        )
    &&& forall|text: Seq<char>| #[trigger]
        gives(properties, WindowProperty::Class, text) <==> has_member(
            tree,
            "class"@,
            Tree::String(text),
        )
    &&& forall|text: Seq<char>| #[trigger]
        gives(properties, WindowProperty::WindowRole, text) <==> has_member(
            tree,
            "window_role"@,
            Tree::String(text),
        )
    &&& forall|text: Seq<char>| #[trigger]
        gives(properties, WindowProperty::TransientFor, text) <==> has_member(
            tree,
            "transient_for"@,
            Tree::String(text),
        )
    &&& forall|i: int, j: int|
        0 <= i < j < properties.len() ==> properties[i].0 != properties[j].0
}

/// Whether `tree` is a container with all that i3 promises of it, and so are its children.
pub open spec fn has_node(tree: Tree) -> bool
    decreases tree,
{
    &&& has_ids(tree, "focus"@)
    &&& tree matches Tree::Object(entries) && forall|k: int|
        0 <= k < entries.len() && (#[trigger] entries[k]).0 == "nodes"@ ==> entries[k].1
            is Array && forall|i: int|
            0 <= i < entries[k].1->Array_0.len() ==> has_node(#[trigger] entries[k].1->Array_0[i])
    &&& tree matches Tree::Object(entries) && forall|k: int|
        0 <= k < entries.len() && (#[trigger] entries[k]).0 == "floating_nodes"@ ==> entries[k].1
            is Array && forall|i: int|
            0 <= i < entries[k].1->Array_0.len() ==> has_node(#[trigger] entries[k].1->Array_0[i])
    &&& has_integer(tree, "id"@)
    &&& has_text(tree, "type"@)
    &&& has_text(tree, "border"@)
    &&& has_integer(tree, "current_border_width"@)
    &&& has_text(tree, "layout"@)
    &&& exists|percent: Tree|
        (percent is Number || percent is Null) && #[trigger] has_member(tree, "percent"@, percent)
    &&& has_rect(tree, "rect"@)
    &&& has_rect(tree, "window_rect"@)
    &&& has_rect(tree, "deco_rect"@)
    &&& has_rect(tree, "geometry"@)
    &&& has_integer(tree, "window"@) || has_member(tree, "window"@, Tree::Null)
    &&& forall|value: Tree| #[trigger]
        has_member(tree, "window_properties"@, value) ==> value is Object
    &&& has_bool(tree, "urgent"@)
    &&& has_bool(tree, "focused"@)
}

/// Whether `node` is the container `tree`, and its children are the children of `tree`.
pub open spec fn is_node(node: Node, tree: Tree) -> bool
    decreases node,
{
    &&& are_ids(node.focus@, tree, "focus"@)
    &&& lacks(tree, "nodes"@) ==> node.nodes@.len() == 0
    &&& forall|items: Seq<Tree>| #[trigger]
        has_member(tree, "nodes"@, Tree::Array(items)) ==> node.nodes@.len() == items.len() && (
        forall|i: int| 0 <= i < node.nodes@.len() ==> is_node(#[trigger] node.nodes@[i], items[i]))
    &&& lacks(tree, "floating_nodes"@) ==> node.floating_nodes@.len() == 0
    &&& forall|items: Seq<Tree>| #[trigger]
        has_member(tree, "floating_nodes"@, Tree::Array(items)) ==> node.floating_nodes@.len()
            == items.len() && (forall|i: int|
            0 <= i < node.floating_nodes@.len() ==> is_node(
                #[trigger] node.floating_nodes@[i],
                items[i],
            ))
    &&& forall|n: i64, digits: Seq<char>| #[trigger]
        has_member(tree, "id"@, Tree::Number(Some(n), digits)) ==> node.id == n
    &&& forall|text: Seq<char>| #[trigger]
        has_member(tree, "name"@, Tree::String(text))
            ==> node.name is Some && node.name->Some_0@ == text
    &&& !has_text(tree, "name"@) ==> node.name is None
    &&& node.nodetype == NodeType::Root <==> has_member(tree, "type"@, Tree::String("root"@))
    &&& node.nodetype == NodeType::Output <==> has_member(tree, "type"@, Tree::String("output"@))
    &&& node.nodetype == NodeType::Con <==> has_member(tree, "type"@, Tree::String("con"@))
    &&& node.nodetype == NodeType::FloatingCon
        <==> has_member(tree, "type"@, Tree::String("floating_con"@))
    &&& node.nodetype == NodeType::Workspace
        <==> has_member(tree, "type"@, Tree::String("workspace"@))
    &&& node.nodetype == NodeType::DockArea
        <==> has_member(tree, "type"@, Tree::String("dockarea"@))
    &&& node.border == NodeBorder::Normal <==> has_member(tree, "border"@, Tree::String("normal"@))
    &&& node.border == NodeBorder::Absent <==> has_member(tree, "border"@, Tree::String("none"@))
    &&& node.border == NodeBorder::Pixel <==> has_member(tree, "border"@, Tree::String("pixel"@))
    &&& forall|n: i64, digits: Seq<char>| #[trigger]
        has_member(tree, "current_border_width"@, Tree::Number(Some(n), digits))
            ==> is_low_half(node.current_border_width, n)
    &&& node.layout == NodeLayout::SplitH <==> has_member(tree, "layout"@, Tree::String("splith"@))
    &&& node.layout == NodeLayout::SplitV <==> has_member(tree, "layout"@, Tree::String("splitv"@))
    &&& node.layout == NodeLayout::Stacked
        <==> has_member(tree, "layout"@, Tree::String("stacked"@))
    &&& node.layout == NodeLayout::Tabbed <==> has_member(tree, "layout"@, Tree::String("tabbed"@))
    &&& node.layout == NodeLayout::DockArea
        <==> has_member(tree, "layout"@, Tree::String("dockarea"@))
    &&& node.layout == NodeLayout::Output <==> has_member(tree, "layout"@, Tree::String("output"@))
    &&& forall|integer: Option<i64>, digits: Seq<char>| #[trigger]
        has_member(tree, "percent"@, Tree::Number(integer, digits)) ==> node.percent is Some
            && node.percent->Some_0.integer == integer && node.percent->Some_0.text@ == digits
    &&& has_member(tree, "percent"@, Tree::Null) ==> node.percent is None
    &&& forall|value: Tree| #[trigger]
        has_member(tree, "rect"@, value) ==> has_place(node.rect, value)
    &&& forall|value: Tree| #[trigger]
        has_member(tree, "window_rect"@, value) ==> has_place(node.window_rect, value)
    &&& forall|value: Tree| #[trigger]
        has_member(tree, "deco_rect"@, value) ==> has_place(node.deco_rect, value)
    &&& forall|value: Tree| #[trigger]
        has_member(tree, "geometry"@, value) ==> has_place(node.geometry, value)
    &&& forall|n: i64, digits: Seq<char>| #[trigger]
        has_member(tree, "window"@, Tree::Number(Some(n), digits)) ==> node.window is Some
            && is_low_half(node.window->Some_0, n)
    &&& has_member(tree, "window"@, Tree::Null) ==> node.window is None
    &&& forall|value: Tree| #[trigger]
        has_member(tree, "window_properties"@, value) ==> node.window_properties is Some
            && are_properties(node.window_properties->Some_0@, value)
    &&& lacks(tree, "window_properties"@) ==> node.window_properties is None
    &&& forall|b: bool| #[trigger]
        has_member(tree, "urgent"@, Tree::Bool(b)) ==> node.urgent == b
    &&& forall|b: bool| #[trigger]
        has_member(tree, "focused"@, Tree::Bool(b)) ==> node.focused == b
}

/// Of two stretches of entries, the properties of the first come before those of the second, and
/// there are no others. An entry on its own is a property if it is a text that has the name of one.
pub proof fn properties_keep_their_order(
    a: Seq<(Seq<char>, Tree)>,
    b: Seq<(Seq<char>, Tree)>,
    name: Seq<char>,
    value: Tree,
)
    ensures
        text_properties(a + b) == text_properties(a) + text_properties(b),
        value is String && name == "title"@ ==> text_properties(seq![(name, value)]) == seq![
            (WindowProperty::Title, value->String_0),
        ],
        value is String && name == "instance"@ ==> text_properties(seq![(name, value)]) == seq![
            (WindowProperty::Instance, value->String_0),
        ],
        value is String && name == "class"@ ==> text_properties(seq![(name, value)]) == seq![
            (WindowProperty::Class, value->String_0),
        ],
        value is String && name == "window_role"@ ==> text_properties(seq![(name, value)]) == seq![
            (WindowProperty::WindowRole, value->String_0),
        ],
        value is String && name == "transient_for"@ ==> text_properties(seq![(name, value)])
            == seq![(WindowProperty::TransientFor, value->String_0)],
        !(value is String) ==> text_properties(seq![(name, value)]).len() == 0,
    decreases b.len(),
{
    if b.len() == 0 {
        assert(a + b =~= a);
        assert(text_properties(a) + text_properties(b) =~= text_properties(a));
    } else {
        assert((a + b).drop_last() =~= a + b.drop_last());
        properties_keep_their_order(a, b.drop_last(), name, value);
        assert(text_properties(a + b) =~= text_properties(a) + text_properties(b));
    }
    reveal_with_fuel(text_properties, 2);
    window_property_names_differ();
    assert(seq![(name, value)].drop_last() =~= Seq::empty());
}

/// A property and its text are among the properties of some entries exactly if one of the entries
/// gives them.
proof fn property_is_an_entry(
    entries: Seq<(Seq<char>, Tree)>,
    property: WindowProperty,
    text: Seq<char>,
)
    ensures
        text_properties(entries).contains((property, text)) <==> exists|k: int|
            0 <= k < entries.len() && WindowProperty::named((#[trigger] entries[k]).0) == Some(
                property,
            ) && entries[k].1 == Tree::String(text),
    decreases entries.len(),
{
    if entries.len() > 0 {
        let before = entries.drop_last();
        property_is_an_entry(before, property, text);
        let found = text_properties(before);
        assert forall|k: int| 0 <= k < before.len() implies #[trigger] before[k] == entries[k] by {}
        if text_properties(entries).contains((property, text)) {
            if found.contains((property, text)) {
                let k = choose|k: int|
                    0 <= k < before.len() && WindowProperty::named((#[trigger] before[k]).0)
                        == Some(property) && before[k].1 == Tree::String(text);
                assert(WindowProperty::named(entries[k].0) == Some(property));
            } else {
                let all = text_properties(entries);
                let i = choose|i: int| 0 <= i < all.len() && all[i] == (property, text);
                if i < found.len() {
                    assert(found[i] == all[i]);
                }
                assert(WindowProperty::named(entries[entries.len() - 1].0) == Some(property));
            }
        }
        if exists|k: int|
            0 <= k < entries.len() && WindowProperty::named((#[trigger] entries[k]).0) == Some(
                property,
            ) && entries[k].1 == Tree::String(text) {
            let k = choose|k: int|
                0 <= k < entries.len() && WindowProperty::named((#[trigger] entries[k]).0) == Some(
                    property,
                ) && entries[k].1 == Tree::String(text);
            let all = text_properties(entries);
            if k < before.len() {
                assert(before[k] == entries[k]);
                let i = choose|i: int| 0 <= i < found.len() && found[i] == (property, text);
                assert(all[i] == (property, text));
            } else {
                assert(all[all.len() - 1] == (property, text));
            }
        }
    }
}

/// No property is given twice where no name is.
proof fn properties_differ(entries: Seq<(Seq<char>, Tree)>)
    requires
        names_differ(entries),
    ensures
        forall|i: int, j: int|
            0 <= i < j < text_properties(entries).len() ==> text_properties(entries)[i].0
                != text_properties(entries)[j].0,
    decreases entries.len(),
{
    if entries.len() > 0 {
        let before = entries.drop_last();
        assert forall|i: int, j: int| 0 <= i < j < before.len() implies before[i].0
            != before[j].0 by {
            assert(entries[i].0 != entries[j].0);
        }
        properties_differ(before);
        let found = text_properties(before);
        let all = text_properties(entries);
        assert forall|i: int, j: int| 0 <= i < j < all.len() implies all[i].0 != all[j].0 by {
            if j < found.len() {
                assert(found[i] == all[i] && found[j] == all[j]);
            } else {
                assert(found[i] == all[i]);
                assert(found.contains(found[i]));
                property_is_an_entry(before, found[i].0, found[i].1);
                let k = choose|k: int|
                    0 <= k < before.len() && WindowProperty::named((#[trigger] before[k]).0)
                        == Some(found[i].0) && before[k].1 == Tree::String(found[i].1);
                assert(before[k] == entries[k]);
                assert(entries[k].0 != entries[entries.len() - 1].0);
                window_property_names_differ();
            }
        }
    }
}

proof fn properties_are_read(
    properties: Seq<(WindowProperty, String)>,
    entries: Seq<(Seq<char>, Tree)>,
)
    requires
        Tree::Object(entries).is_unambiguous(),
        property_texts(properties) == text_properties(entries),
    ensures
        are_properties(properties, Tree::Object(entries)),
{
    let tree = Tree::Object(entries);
    let read = text_properties(entries);
    assert forall|property: WindowProperty, name: Seq<char>, text: Seq<char>|
        (forall|other: Seq<char>| #[trigger]
            WindowProperty::named(other) == Some(property) <==> other == name) implies (
    #[trigger] gives(properties, property, text) <==> #[trigger] has_member(
        tree,
        name,
        Tree::String(text),
    )) by {
        property_is_an_entry(entries, property, text);
        if gives(properties, property, text) {
            let i = choose|i: int|
                0 <= i < properties.len() && (#[trigger] properties[i]).0 == property
                    && properties[i].1@ == text;
            assert(property_texts(properties)[i] == (property, text));
            assert(read.contains((property, text)));
            let k = choose|k: int|
                0 <= k < entries.len() && WindowProperty::named((#[trigger] entries[k]).0) == Some(
                    property,
                ) && entries[k].1 == Tree::String(text);
            assert(entries[k] == (name, Tree::String(text)));
        }
        if has_member(tree, name, Tree::String(text)) {
            let k = choose|k: int|
                0 <= k < entries.len() && entries[k] == (name, Tree::String(text));
            assert(WindowProperty::named(entries[k].0) == Some(property));
            let i = choose|i: int| 0 <= i < read.len() && read[i] == (property, text);
            assert(property_texts(properties)[i] == (property, text));
            assert(properties[i].0 == property && properties[i].1@ == text);
        }
    }
    window_property_names_differ();
    properties_differ(entries);
    assert forall|i: int, j: int| 0 <= i < j < properties.len() implies properties[i].0
        != properties[j].0 by {
        assert(property_texts(properties)[i].0 == properties[i].0);
        assert(property_texts(properties)[j].0 == properties[j].0);
    }
}

/// What stands in a list of an unambiguous document is unambiguous too.
proof fn items_are_unambiguous(tree: Tree, name: Seq<char>, items: Seq<Tree>)
    requires
        tree.is_unambiguous(),
        has_member(tree, name, Tree::Array(items)),
    ensures
        forall|i: int| 0 <= i < items.len() ==> (#[trigger] items[i]).is_unambiguous(),
{
    let list = Tree::Array(items);
    member_is_unambiguous(tree, name, list);
    assert forall|i: int| 0 <= i < items.len() implies (#[trigger] items[i]).is_unambiguous() by {
        assert(list->Array_0[i] == items[i]);
    }
}

proof fn ids_are_found(tree: Tree, name: Seq<char>)
    requires
        tree.is_unambiguous(),
    ensures
        ids_described(tree, name) <==> has_ids(tree, name),
        forall|ids: Seq<i64>| #[trigger]
            ids_read(ids, tree, name) ==> are_ids(ids, tree, name),
{
    found_is_member(tree, name);
    if let Some(list) = tree.get(name) {
        assert(has_member(tree, name, list));
    }
}

proof fn children_are_complete(tree: Tree, entries: Seq<(Seq<char>, Tree)>, name: Seq<char>)
    requires
        tree == Tree::Object(entries),
        tree.is_unambiguous(),
    ensures
        (list_at(tree, name) matches Some(items) && forall|i: int|
            0 <= i < items.len() ==> Node::described(#[trigger] items[i])) <==> (forall|k: int|
            0 <= k < entries.len() && (#[trigger] entries[k]).0 == name ==> entries[k].1 is Array
                && forall|i: int|
                0 <= i < entries[k].1->Array_0.len() ==> has_node(
                    #[trigger] entries[k].1->Array_0[i],
                )),
    decreases tree, 0int,
{
    found_is_member(tree, name);
    assert forall|k: int| 0 <= k < entries.len() && (#[trigger] entries[k]).0 == name implies
        tree.get(name) == Some(entries[k].1) by {
        assert(entries[k] == (name, entries[k].1));
        assert(has_member(tree, name, entries[k].1));
    }
    if let Some(list) = tree.get(name) {
        assert(has_member(tree, name, list));
        let k = choose|k: int| 0 <= k < entries.len() && entries[k] == (name, list);
        assert(entries[k].1 == list);
        if let Tree::Array(items) = list {
            list_is_smaller(tree, name);
            items_are_unambiguous(tree, name, items);
            assert forall|i: int| 0 <= i < items.len() implies (Node::described(
                #[trigger] items[i],
            ) <==> has_node(items[i])) by {
                described_is_complete(items[i]);
            }
            assert(list->Array_0 == items);
        }
    }
}

/// A container is read if `has_node` holds of it, all the way down.
pub proof fn described_is_complete(tree: Tree)
    requires
        tree.is_unambiguous(),
    ensures
        Node::described(tree) <==> has_node(tree),
    decreases tree, 1int,
{
    ids_are_found(tree, "focus"@);
    found_is_member(tree, "nodes"@);
    found_is_member(tree, "floating_nodes"@);
    found_is_member(tree, "id"@);
    found_is_member(tree, "type"@);
    found_is_member(tree, "border"@);
    found_is_member(tree, "current_border_width"@);
    found_is_member(tree, "layout"@);
    found_is_member(tree, "percent"@);
    rect_is_found(tree, "rect"@);
    rect_is_found(tree, "window_rect"@);
    rect_is_found(tree, "deco_rect"@);
    rect_is_found(tree, "geometry"@);
    found_is_member(tree, "window"@);
    found_is_member(tree, "window_properties"@);
    found_is_member(tree, "urgent"@);
    found_is_member(tree, "focused"@);
    if let Tree::Object(entries) = tree {
        children_are_complete(tree, entries, "nodes"@);
        children_are_complete(tree, entries, "floating_nodes"@);
    }
}

/// What a node shows is what the node is.
pub proof fn shown_is_node(node: Node, tree: Tree)
    requires
        tree.is_unambiguous(),
        node.shows(tree),
    ensures
        is_node(node, tree),
    decreases node,
{
    ids_are_found(tree, "focus"@);
    found_is_member(tree, "nodes"@);
    found_is_member(tree, "floating_nodes"@);
    found_is_member(tree, "id"@);
    found_is_member(tree, "name"@);
    found_is_member(tree, "type"@);
    found_is_member(tree, "border"@);
    found_is_member(tree, "current_border_width"@);
    found_is_member(tree, "layout"@);
    found_is_member(tree, "percent"@);
    rect_is_found(tree, "rect"@);
    rect_is_found(tree, "window_rect"@);
    rect_is_found(tree, "deco_rect"@);
    rect_is_found(tree, "geometry"@);
    found_is_member(tree, "window"@);
    found_is_member(tree, "window_properties"@);
    found_is_member(tree, "urgent"@);
    found_is_member(tree, "focused"@);
    node_type_names_differ();
    node_border_names_differ();
    node_layout_names_differ();
    if let Some(Tree::Array(items)) = tree.get("nodes"@) {
        assert(has_member(tree, "nodes"@, Tree::Array(items)));
        items_are_unambiguous(tree, "nodes"@, items);
        assert forall|i: int| 0 <= i < node.nodes@.len() implies is_node(
            #[trigger] node.nodes@[i],
            items[i],
        ) by {
            shown_is_node(node.nodes@[i], items[i]);
        }
    }
    if let Some(Tree::Array(items)) = tree.get("floating_nodes"@) {
        assert(has_member(tree, "floating_nodes"@, Tree::Array(items)));
        items_are_unambiguous(tree, "floating_nodes"@, items);
        assert forall|i: int| 0 <= i < node.floating_nodes@.len() implies is_node(
            #[trigger] node.floating_nodes@[i],
            items[i],
        ) by {
            shown_is_node(node.floating_nodes@[i], items[i]);
        }
    }
    if let Some(Tree::Object(entries)) = tree.get("window_properties"@) {
        assert(has_member(tree, "window_properties"@, Tree::Object(entries)));
        member_is_unambiguous(tree, "window_properties"@, Tree::Object(entries));
        properties_are_read(node.window_properties->Some_0@, entries);
    }
}

/// A container is read if it has all that i3 promises of it, and so have its children. The node is
/// then this container, and its children are the children of the container: those in "nodes" the
/// tiling ones and those in "floating_nodes" the floating ones, in their order.
pub proof fn node_is_read(json: &Json, r: Option<Node>)
    requires
        call_ensures(Node::build_tree, (json,), r),
        json@.is_unambiguous(),
    ensures
        r is Some <==> has_node(json@),
        r matches Some(node) ==> is_node(node, json@),
{
    described_is_complete(json@);
    if let Some(node) = r {
        shown_is_node(node, json@);
    }
}

/// A node reads a payload as it reads the container in it.
pub proof fn node_is_decoded(json: &Json, r: Option<Node>)
    requires
        call_ensures(<Node as Decode>::from_json, (json,), r),
        json@.is_unambiguous(),
    ensures
        r is Some <==> has_node(json@),
        r matches Some(node) ==> is_node(node, json@),
{
    described_is_complete(json@);
    if let Some(node) = r {
        shown_is_node(node, json@);
    }
}

/// The kind, the border and the layout of a node are those that its members "type", "border" and
/// "layout" name, by the documented names. A name that is not documented is kept apart from all of
/// these.
pub proof fn node_names_are_read(json: &Json, r: Option<Node>)
    requires
        call_ensures(Node::build_tree, (json,), r),
        json@.is_unambiguous(),
    ensures
        r matches Some(node) ==> (has_member(json@, "type"@, Tree::String("root"@))
            <==> node.nodetype == NodeType::Root),
        r matches Some(node) ==> (has_member(json@, "type"@, Tree::String("output"@))
            <==> node.nodetype == NodeType::Output),
        r matches Some(node) ==> (has_member(json@, "type"@, Tree::String("con"@))
            <==> node.nodetype == NodeType::Con),
        r matches Some(node) ==> (has_member(json@, "type"@, Tree::String("floating_con"@))
            <==> node.nodetype == NodeType::FloatingCon),
        r matches Some(node) ==> (has_member(json@, "type"@, Tree::String("workspace"@))
            <==> node.nodetype == NodeType::Workspace),
        r matches Some(node) ==> (has_member(json@, "type"@, Tree::String("dockarea"@))
            <==> node.nodetype == NodeType::DockArea),
        r matches Some(node) ==> (has_member(json@, "border"@, Tree::String("normal"@))
            <==> node.border == NodeBorder::Normal),
        r matches Some(node) ==> (has_member(json@, "border"@, Tree::String("none"@))
            <==> node.border == NodeBorder::Absent),
        r matches Some(node) ==> (has_member(json@, "border"@, Tree::String("pixel"@))
            <==> node.border == NodeBorder::Pixel),
        r matches Some(node) ==> (has_member(json@, "layout"@, Tree::String("splith"@))
            <==> node.layout == NodeLayout::SplitH),
        r matches Some(node) ==> (has_member(json@, "layout"@, Tree::String("splitv"@))
            <==> node.layout == NodeLayout::SplitV),
        r matches Some(node) ==> (has_member(json@, "layout"@, Tree::String("stacked"@))
            <==> node.layout == NodeLayout::Stacked),
        r matches Some(node) ==> (has_member(json@, "layout"@, Tree::String("tabbed"@))
            <==> node.layout == NodeLayout::Tabbed),
        r matches Some(node) ==> (has_member(json@, "layout"@, Tree::String("dockarea"@))
            <==> node.layout == NodeLayout::DockArea),
        r matches Some(node) ==> (has_member(json@, "layout"@, Tree::String("output"@))
            <==> node.layout == NodeLayout::Output),
{
    found_is_member(json@, "type"@);
    found_is_member(json@, "border"@);
    found_is_member(json@, "layout"@);
    node_type_names_differ();
    node_border_names_differ();
    node_layout_names_differ();
}

/// The id, the name, the places and the flags of a node are its members of the same names. It has
/// as many tiling and floating children, and as many ids in its focus, as the lists of these names
/// have items.
pub proof fn node_members_are_read(json: &Json, r: Option<Node>)
    requires
        call_ensures(Node::build_tree, (json,), r),
        json@.is_unambiguous(),
    ensures
        r matches Some(node) ==> forall|n: i64, digits: Seq<char>| #[trigger]
            has_member(json@, "id"@, Tree::Number(Some(n), digits)) ==> node.id == n,
        r matches Some(node) ==> forall|text: Seq<char>| #[trigger]
            has_member(json@, "name"@, Tree::String(text))
                ==> node.name is Some && node.name->Some_0@ == text,
        r matches Some(node) ==> (!has_text(json@, "name"@) ==> node.name is None),
        r matches Some(node) ==> forall|n: i64, digits: Seq<char>| #[trigger]
            has_member(json@, "current_border_width"@, Tree::Number(Some(n), digits))
                ==> is_low_half(node.current_border_width, n),
        r matches Some(node) ==> forall|value: Tree| #[trigger]
            has_member(json@, "rect"@, value) ==> has_place(node.rect, value),
        r matches Some(node) ==> forall|value: Tree| #[trigger]
            has_member(json@, "window_rect"@, value) ==> has_place(node.window_rect, value),
        r matches Some(node) ==> forall|value: Tree| #[trigger]
            has_member(json@, "deco_rect"@, value) ==> has_place(node.deco_rect, value),
        r matches Some(node) ==> forall|value: Tree| #[trigger]
            has_member(json@, "geometry"@, value) ==> has_place(node.geometry, value),
        r matches Some(node) ==> forall|b: bool| #[trigger]
            has_member(json@, "urgent"@, Tree::Bool(b)) ==> node.urgent == b,
        r matches Some(node) ==> forall|b: bool| #[trigger]
            has_member(json@, "focused"@, Tree::Bool(b)) ==> node.focused == b,
        r matches Some(node) ==> forall|items: Seq<Tree>| #[trigger]
            has_member(json@, "focus"@, Tree::Array(items)) ==> node.focus@.len() == items.len(),
        r matches Some(node) ==> forall|items: Seq<Tree>| #[trigger]
            has_member(json@, "nodes"@, Tree::Array(items)) ==> node.nodes@.len() == items.len(),
        r matches Some(node) ==> forall|items: Seq<Tree>| #[trigger]
            has_member(json@, "floating_nodes"@, Tree::Array(items))
                ==> node.floating_nodes@.len() == items.len(),
        r matches Some(node) ==> forall|items: Seq<Tree>, i: int|
            #[trigger] has_member(json@, "focus"@, Tree::Array(items)) && 0 <= i < items.len()
                ==> is_integer(#[trigger] items[i], node.focus@[i]),
{
    node_is_read(json, r);
}

} // verus!
