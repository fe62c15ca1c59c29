//! The layout tree.

use vstd::prelude::*;

use crate::decode::Decode;
use crate::json::{lookup, named_trees, text_of, trees, Json, Number, Tree};
use crate::rect::{readable_rect_at, reads_rect_at, rect_at, Rect};
use crate::text::str_eq;

verus! {

/// What kind of container a node is.
#[derive(Debug, Clone, Copy, PartialEq, Eq, Structural)]
pub enum NodeType {
    Root,
    Output,
    Con,
    FloatingCon,
    Workspace,
    DockArea,
    /// A kind that is not documented.
    Unknown,
}

impl NodeType {
    /// The kind that i3 calls `name`.
    pub open spec fn named(name: Seq<char>) -> NodeType {
        if name == "root"@ {
            NodeType::Root
        } else if name == "output"@ {
            NodeType::Output
        } else if name == "con"@ {
            NodeType::Con
        } else if name == "floating_con"@ {
            NodeType::FloatingCon
        } else if name == "workspace"@ {
            NodeType::Workspace
        } else if name == "dockarea"@ {
            NodeType::DockArea
        } else {
            NodeType::Unknown
        }
    }

    /// The kind that i3 calls `name`.
    pub fn from_name(name: &str) -> (r: NodeType)
        ensures
            r == NodeType::named(name@),
    {
        if str_eq(name, "root") {
            NodeType::Root
        } else if str_eq(name, "output") {
            NodeType::Output
        } else if str_eq(name, "con") {
            NodeType::Con
        } else if str_eq(name, "floating_con") {
            NodeType::FloatingCon
        } else if str_eq(name, "workspace") {
            NodeType::Workspace
        } else if str_eq(name, "dockarea") {
            NodeType::DockArea
        } else {
            NodeType::Unknown
        }
    }
}

/// The border of a node.
#[derive(Debug, Clone, Copy, PartialEq, Eq, Structural)]
pub enum NodeBorder {
    Normal,
    Absent,
    Pixel,
    /// A border that is not documented.
    Unknown,
}

impl NodeBorder {
    /// The border that i3 calls `name`.
    pub open spec fn named(name: Seq<char>) -> NodeBorder {
        if name == "normal"@ {
            NodeBorder::Normal
        } else if name == "none"@ {
            NodeBorder::Absent
        } else if name == "pixel"@ {
            NodeBorder::Pixel
        } else {
            NodeBorder::Unknown
        }
    }

    /// The border that i3 calls `name`.
    pub fn from_name(name: &str) -> (r: NodeBorder)
        ensures
            r == NodeBorder::named(name@),
    {
        if str_eq(name, "normal") {
            NodeBorder::Normal
        } else if str_eq(name, "none") {
            NodeBorder::Absent
        } else if str_eq(name, "pixel") {
            NodeBorder::Pixel
        } else {
            NodeBorder::Unknown
        }
    }
}

/// How a node lays out its children.
#[derive(Debug, Clone, Copy, PartialEq, Eq, Structural)]
pub enum NodeLayout {
    SplitH,
    SplitV,
    Stacked,
    Tabbed,
    DockArea,
    Output,
    /// A layout that is not documented.
    Unknown,
}

impl NodeLayout {
    /// The layout that i3 calls `name`.
    pub open spec fn named(name: Seq<char>) -> NodeLayout {
        if name == "splith"@ {
            NodeLayout::SplitH
        } else if name == "splitv"@ {
            NodeLayout::SplitV
        } else if name == "stacked"@ {
            NodeLayout::Stacked
        } else if name == "tabbed"@ {
            NodeLayout::Tabbed
        } else if name == "dockarea"@ {
            NodeLayout::DockArea
        } else if name == "output"@ {
            NodeLayout::Output
        } else {
            NodeLayout::Unknown
        }
    }

    /// The layout that i3 calls `name`.
    pub fn from_name(name: &str) -> (r: NodeLayout)
        ensures
            r == NodeLayout::named(name@),
    {
        if str_eq(name, "splith") {
            NodeLayout::SplitH
        } else if str_eq(name, "splitv") {
            NodeLayout::SplitV
        } else if str_eq(name, "stacked") {
            NodeLayout::Stacked
        } else if str_eq(name, "tabbed") {
            NodeLayout::Tabbed
        } else if str_eq(name, "dockarea") {
            NodeLayout::DockArea
        } else if str_eq(name, "output") {
            NodeLayout::Output
        } else {
            NodeLayout::Unknown
        }
    }
}

/// A property of an X11 window.
#[derive(Debug, Clone, Copy, PartialEq, Eq, Structural)]
pub enum WindowProperty {
    Title,
    Instance,
    Class,
    WindowRole,
    TransientFor,
}

impl WindowProperty {
    /// The property that i3 calls `name`, if there is one.
    pub open spec fn named(name: Seq<char>) -> Option<WindowProperty> {
        if name == "title"@ {
            Some(WindowProperty::Title)
        } else if name == "instance"@ {
            Some(WindowProperty::Instance)
        } else if name == "class"@ {
            Some(WindowProperty::Class)
        } else if name == "window_role"@ {
            Some(WindowProperty::WindowRole)
        } else if name == "transient_for"@ {
            Some(WindowProperty::TransientFor)
        } else {
            None
        }
    }

    /// The property that i3 calls `name`, if there is one.
    pub fn from_name(name: &str) -> (r: Option<WindowProperty>)
        ensures
            r == WindowProperty::named(name@),
    {
        if str_eq(name, "title") {
            Some(WindowProperty::Title)
        } else if str_eq(name, "instance") {
            Some(WindowProperty::Instance)
        } else if str_eq(name, "class") {
            Some(WindowProperty::Class)
        } else if str_eq(name, "window_role") {
            Some(WindowProperty::WindowRole)
        } else if str_eq(name, "transient_for") {
            Some(WindowProperty::TransientFor)
        } else {
            None
        }
    }
}

/// A container of the layout tree.
#[derive(Debug)]
pub struct Node {
    /// The ids of the children, the one that was focused last first.
    pub focus: Vec<i64>,
    /// The tiling children.
    pub nodes: Vec<Node>,
    /// The floating children.
    pub floating_nodes: Vec<Node>,
    /// The internal id of this container.
    pub id: i64,
    /// The internal name of this container, if it has one.
    pub name: Option<String>,
    pub nodetype: NodeType,
    pub border: NodeBorder,
    /// The width of the border, in pixels.
    pub current_border_width: i32,
    pub layout: NodeLayout,
    /// The share that this container takes in its parent, if that makes sense for it.
    pub percent: Option<Number>,
    /// Where this container is displayed.
    pub rect: Rect,
    /// Where the client window is, within this container.
    pub window_rect: Rect,
    /// Where the window decoration is, within the parent.
    pub deco_rect: Rect,
    /// The geometry that the window had when i3 mapped it.
    pub geometry: Rect,
    /// The X11 id of the client window, if there is one.
    pub window: Option<i32>,
    /// The properties of the client window that are texts, if i3 tells any.
    pub window_properties: Option<Vec<(WindowProperty, String)>>,
    /// Whether this container or one inside it is urgent.
    pub urgent: bool,
    /// Whether this container is focused.
    pub focused: bool,
}

/// The items of the optional list `key`: of one that is not there, none. Nothing, if there is
/// something else.
pub open spec fn list_at(tree: Tree, key: Seq<char>) -> Option<Seq<Tree>> {
    match tree.get(key) {
        Some(value) => value.as_array(),
        None => Some(Seq::empty()),
    }
}

proof fn lookup_finds(entries: Seq<(Seq<char>, Tree)>, key: Seq<char>)
    ensures
        lookup(entries, key) matches Some(value) ==> exists|i: int|
            0 <= i < entries.len() && value == (#[trigger] entries[i]).1,
    decreases entries.len(),
{
    if entries.len() > 0 && entries[0].0 != key {
        lookup_finds(entries.drop_first(), key);
        if let Some(value) = lookup(entries.drop_first(), key) {
            let i = choose|i: int|
                0 <= i < entries.drop_first().len() && value == (
                #[trigger] entries.drop_first()[i]).1;
            assert(value == entries[i + 1].1);
        }
    }
}

/// A member of a document is smaller than the document.
pub proof fn member_is_smaller(tree: Tree, key: Seq<char>)
    ensures
        tree.get(key) matches Some(value) ==> decreases_to!(tree => value),
{
    if let Tree::Object(entries) = tree {
        lookup_finds(entries, key);
        if let Some(value) = lookup(entries, key) {
            let k = choose|k: int| 0 <= k < entries.len() && value == (#[trigger] entries[k]).1;
            assert(decreases_to!(tree => entries[k].1));
        }
    }
}

/// The items of a list in a document are smaller than the document.
pub proof fn list_is_smaller(tree: Tree, key: Seq<char>)
    ensures
        list_at(tree, key) matches Some(items) ==> forall|i: int|
            0 <= i < items.len() ==> decreases_to!(tree => #[trigger] items[i]),
{
    member_is_smaller(tree, key);
    if let Some(Tree::Array(items)) = tree.get(key) {
        assert forall|i: int| 0 <= i < items.len() implies decreases_to!(
            tree => #[trigger] items[i]) by {
            assert(decreases_to!(Tree::Array(items) => Tree::Array(items)->Array_0[i]));
        }
    }
}

/// Whether every item of the list `key` is an integer.
pub open spec fn ids_described(tree: Tree, key: Seq<char>) -> bool {
    list_at(tree, key) matches Some(items) && forall|i: int|
        0 <= i < items.len() ==> (#[trigger] items[i]).as_i64() is Some
}

/// Whether `ids` are the integers of the list `key`.
pub open spec fn ids_read(ids: Seq<i64>, tree: Tree, key: Seq<char>) -> bool {
    list_at(tree, key) matches Some(items) && {
        &&& ids.len() == items.len()
        &&& forall|i: int| 0 <= i < ids.len() ==> items[i].as_i64() == Some(#[trigger] ids[i])
    }
}

/// The integers of the list `key`.
fn ids_at(json: &Json, key: &str) -> (r: Option<Vec<i64>>)
    ensures
        r is Some <==> ids_described(json@, key@),
        r matches Some(ids) ==> ids_read(ids@, json@, key@),
{
    let mut ids: Vec<i64> = Vec::new();
    let list = match json.get(key) {
        Some(list) => list,
        None => {
            return Some(ids);
        },
    };
    let items = list.as_array()?;
    let mut i: usize = 0;
    while i < items.len()
        invariant
            i <= items@.len(),
            list_at(json@, key@) == Some(trees(items@)),
            ids@.len() == i,
            forall|k: int|
                0 <= k < i ==> trees(items@)[k].as_i64() == Some(#[trigger] ids@[k]),
            forall|k: int| 0 <= k < i ==> (#[trigger] trees(items@)[k]).as_i64() is Some,
        decreases items@.len() - i,
    {
        assert(trees(items@)[i as int] == items@[i as int]@);
        ids.push(items[i].as_i64()?);
        i += 1;
    }
    Some(ids)
}

/// Whether `percent` is what the member `key` says: a number, or null for none.
pub open spec fn number_read(percent: Option<Number>, tree: Tree, key: Seq<char>) -> bool {
    match percent {
        Some(n) => tree.get(key) == Some(n@),
        None => tree.get(key) == Some(Tree::Null),
    }
}

/// The member `key`: a number, or null for none.
fn number_at(json: &Json, key: &str) -> (r: Option<Option<Number>>)
    ensures
        r is Some <==> (json@.get(key@) matches Some(value) && (value is Number || value is Null)),
        r matches Some(percent) ==> number_read(percent, json@, key@),
{
    match json.get(key)? {
        Json::Number(n) => Some(Some(n.copied())),
        Json::Null => Some(None),
        _ => None,
    }
}

/// Whether the member `key` is an integer or null.
pub open spec fn window_described(tree: Tree, key: Seq<char>) -> bool {
    tree.get(key) matches Some(value) && (value.as_i64() is Some || value is Null)
}

/// Whether `window` is what the member `key` says: the lower 32 bits of an integer, or null for
/// none.
pub open spec fn window_read(window: Option<i32>, tree: Tree, key: Seq<char>) -> bool {
    match window {
        Some(id) => tree.i32_at(key) == Some(id),
        None => tree.get(key) == Some(Tree::Null),
    }
}

/// The member `key`: the lower 32 bits of an integer, or null for none.
fn window_at(json: &Json, key: &str) -> (r: Option<Option<i32>>)
    ensures
        r is Some <==> window_described(json@, key@),
        r matches Some(window) ==> window_read(window, json@, key@),
{
    match json.get(key)? {
        Json::Null => Some(None),
        _ => Some(Some(json.i32_at(key)?)),
    }
}

/// The entries that give a known property as a text, in their order.
pub open spec fn text_properties(entries: Seq<(Seq<char>, Tree)>) -> Seq<
    (WindowProperty, Seq<char>),
>
    decreases entries.len(),
{
    if entries.len() == 0 {
        Seq::empty()
    } else {
        let before = text_properties(entries.drop_last());
        match (WindowProperty::named(entries.last().0), entries.last().1) {
            (Some(property), Tree::String(text)) => before.push((property, text)),
            _ => before,
        }
    }
}

/// The properties, each with its characters.
pub open spec fn property_texts(properties: Seq<(WindowProperty, String)>) -> Seq<
    (WindowProperty, Seq<char>),
> {
    Seq::new(properties.len(), |i: int| (properties[i].0, properties[i].1@))
}

/// Whether `properties` are those in the member "window_properties", if there is one.
pub open spec fn properties_read(
    properties: Option<Vec<(WindowProperty, String)>>,
    tree: Tree,
) -> bool {
    match tree.get("window_properties"@) {
        Some(value) => {
            &&& value is Object
            &&& properties is Some
            &&& property_texts(properties->Some_0@) == text_properties(value->Object_0)
        },
        None => properties is None,
    }
}

/// The properties in the member "window_properties", if there is one.
fn properties_of(json: &Json) -> (r: Option<Option<Vec<(WindowProperty, String)>>>)
    ensures
        r is Some <==> (json@.get("window_properties"@) matches Some(value) ==> value is Object),
        r matches Some(properties) ==> properties_read(properties, json@),
{
    let entries = match json.get("window_properties") {
        Some(value) => value.as_object()?,
        None => {
            return Some(None);
        },
    };
    let ghost named = named_trees(entries@);
    let mut properties: Vec<(WindowProperty, String)> = Vec::new();
    let mut i: usize = 0;
    assert(property_texts(properties@) =~= text_properties(named.take(0)));
    while i < entries.len()
        invariant
            i <= entries@.len(),
            named == named_trees(entries@),
            property_texts(properties@) == text_properties(named.take(i as int)),
        decreases entries@.len() - i,
    {
        proof {
            let next = named.take(i + 1);
            assert(next.drop_last() =~= named.take(i as int));
            assert(next.last() == (entries@[i as int].0@, entries@[i as int].1@));
        }
        let property = WindowProperty::from_name(entries[i].0.as_str());
        if let (Some(property), Some(text)) = (property, entries[i].1.as_str()) {
            let ghost before = property_texts(properties@);
            properties.push((property, text.to_owned()));
            assert(property_texts(properties@) =~= before.push((property, text@)));
        }
        i += 1;
    }
    assert(named.take(i as int) =~= named);
    Some(Some(properties))
}

impl Node {
    /// Whether `tree` describes a node. The three lists may be missing.
    pub open spec fn described(tree: Tree) -> bool
        decreases tree,
    {
        &&& ids_described(tree, "focus"@)
        &&& list_at(tree, "nodes"@) matches Some(items) && {
            proof {
                list_is_smaller(tree, "nodes"@);
            }
            forall|i: int| 0 <= i < items.len() ==> Self::described(#[trigger] items[i])
        }
        &&& list_at(tree, "floating_nodes"@) matches Some(items) && {
            proof {
                list_is_smaller(tree, "floating_nodes"@);
            }
            forall|i: int| 0 <= i < items.len() ==> Self::described(#[trigger] items[i])
        }
        &&& tree.i64_at("id"@) is Some
        &&& tree.str_at("type"@) is Some
        &&& tree.str_at("border"@) is Some
        &&& tree.i32_at("current_border_width"@) is Some
        &&& tree.str_at("layout"@) is Some
        &&& tree.get("percent"@) matches Some(percent) && (percent is Number || percent is Null)
        &&& readable_rect_at(tree, "rect"@)
        &&& readable_rect_at(tree, "window_rect"@)
        &&& readable_rect_at(tree, "deco_rect"@)
        &&& readable_rect_at(tree, "geometry"@)
        &&& window_described(tree, "window"@)
        &&& tree.get("window_properties"@) matches Some(value) ==> value is Object
        &&& tree.bool_at("urgent"@) is Some
        &&& tree.bool_at("focused"@) is Some
    }

    /// Whether this is the node that `tree` describes. A name that is no text counts as none.
    pub open spec fn shows(self, tree: Tree) -> bool
        decreases self,
    {
        &&& ids_read(self.focus@, tree, "focus"@)
        &&& list_at(tree, "nodes"@) matches Some(items) && items.len() == self.nodes@.len() && (
        forall|i: int| 0 <= i < self.nodes@.len() ==> (#[trigger] self.nodes@[i]).shows(items[i]))
        &&& list_at(tree, "floating_nodes"@) matches Some(items) && items.len()
            == self.floating_nodes@.len() && (forall|i: int|
            0 <= i < self.floating_nodes@.len() ==> (#[trigger] self.floating_nodes@[i]).shows(
                items[i],
            ))
        &&& tree.i64_at("id"@) == Some(self.id)
        &&& tree.str_at("name"@) == text_of(self.name)
        &&& tree.str_at("type"@) matches Some(name) && self.nodetype == NodeType::named(name)
        &&& tree.str_at("border"@) matches Some(name) && self.border == NodeBorder::named(name)
        &&& tree.i32_at("current_border_width"@) == Some(self.current_border_width)
        &&& tree.str_at("layout"@) matches Some(name) && self.layout == NodeLayout::named(name)
        &&& number_read(self.percent, tree, "percent"@)
        &&& reads_rect_at(self.rect, tree, "rect"@)
        &&& reads_rect_at(self.window_rect, tree, "window_rect"@)
        &&& reads_rect_at(self.deco_rect, tree, "deco_rect"@)
        &&& reads_rect_at(self.geometry, tree, "geometry"@)
        &&& window_read(self.window, tree, "window"@)
        &&& properties_read(self.window_properties, tree)
        &&& tree.bool_at("urgent"@) == Some(self.urgent)
        &&& tree.bool_at("focused"@) == Some(self.focused)
    }

    /// The node that `json` describes.
    pub fn build_tree(json: &Json) -> (r: Option<Node>)
        ensures
            r is Some <==> Node::described(json@),
            r matches Some(node) ==> node.shows(json@),
        decreases json@, 1int,
    {
        let focus = ids_at(json, "focus")?;
        let nodes = Node::children(json, "nodes")?;
        let floating_nodes = Node::children(json, "floating_nodes")?;
        Some(
            Node {
                focus,
                nodes,
                floating_nodes,
                id: json.i64_at("id")?,
                name: json.string_at("name"),
                nodetype: NodeType::from_name(json.get("type")?.as_str()?),
                border: NodeBorder::from_name(json.get("border")?.as_str()?),
                current_border_width: json.i32_at("current_border_width")?,
                layout: NodeLayout::from_name(json.get("layout")?.as_str()?),
                percent: number_at(json, "percent")?,
                rect: rect_at(json, "rect")?,
                window_rect: rect_at(json, "window_rect")?,
                deco_rect: rect_at(json, "deco_rect")?,
                geometry: rect_at(json, "geometry")?,
                window: window_at(json, "window")?,
                window_properties: properties_of(json)?,
                urgent: json.bool_at("urgent")?,
                focused: json.bool_at("focused")?,
            },
        )
    }

    /// The nodes that the list `key` describes.
    fn children(json: &Json, key: &str) -> (r: Option<Vec<Node>>)
        ensures
            r is Some <==> (list_at(json@, key@) matches Some(items) && forall|i: int|
                0 <= i < items.len() ==> Node::described(#[trigger] items[i])),
            r matches Some(nodes) ==> (list_at(json@, key@) matches Some(items) && items.len()
                == nodes@.len() && forall|i: int|
                0 <= i < nodes@.len() ==> (#[trigger] nodes@[i]).shows(items[i])),
        decreases json@, 0int,
    {
        let mut nodes: Vec<Node> = Vec::new();
        let list = match json.get(key) {
            Some(list) => list,
            None => {
                return Some(nodes);
            },
        };
        let items = list.as_array()?;
        let mut i: usize = 0;
        while i < items.len()
            invariant
                i <= items@.len(),
                list_at(json@, key@) == Some(trees(items@)),
                nodes@.len() == i,
                forall|k: int|
                    0 <= k < i ==> (#[trigger] nodes@[k]).shows(trees(items@)[k]),
                forall|k: int| 0 <= k < i ==> Node::described(#[trigger] trees(items@)[k]),
            decreases items@.len() - i,
        {
            proof {
                list_is_smaller(json@, key@);
                assert(trees(items@)[i as int] == items@[i as int]@);
            }
            nodes.push(Node::build_tree(&items[i])?);
            i += 1;
        }
        Some(nodes)
    }
}

impl Decode for Node {
    open spec fn readable(tree: Tree) -> bool {
        Node::described(tree)
    }

    open spec fn reads(self, tree: Tree) -> bool {
        self.shows(tree)
    }

    fn from_json(json: &Json) -> (r: Option<Self>) {
        Node::build_tree(json)
    }
}

/// How many containers `items` describe.
pub open spec fn containers_in(items: Seq<Tree>) -> nat
    decreases items,
{
    if items.len() == 0 {
        0
    } else {
        containers_in(items.drop_last()) + containers(items.last())
    }
}

/// How many containers `tree` describes: one, and those in its two lists of children.
pub open spec fn containers(tree: Tree) -> nat
    decreases tree,
{
    proof {
        member_is_smaller(tree, "nodes"@);
        member_is_smaller(tree, "floating_nodes"@);
    }
    1 + (match tree.get("nodes"@) {
        Some(Tree::Array(items)) => containers_in(items),
        _ => 0,
    }) + (match tree.get("floating_nodes"@) {
        Some(Tree::Array(items)) => containers_in(items),
        _ => 0,
    })
}

/// How many nodes there are in `nodes` and below them.
pub open spec fn size_of_all(nodes: Seq<Node>) -> nat
    decreases nodes,
{
    if nodes.len() == 0 {
        0
    } else {
        size_of_all(nodes.drop_last()) + nodes.last().size()
    }
}

impl Node {
    /// How many nodes there are in this tree.
    pub open spec fn size(self) -> nat
        decreases self,
    {
        1 + size_of_all(self.nodes@) + size_of_all(self.floating_nodes@)
    }
}

proof fn all_containers_are_kept(nodes: Seq<Node>, items: Seq<Tree>)
    requires
        nodes.len() == items.len(),
        forall|i: int| 0 <= i < nodes.len() ==> (#[trigger] nodes[i]).shows(items[i]),
    ensures
        size_of_all(nodes) == containers_in(items),
    decreases nodes,
{
    if nodes.len() > 0 {
        let shorter = nodes.drop_last();
        assert forall|i: int| 0 <= i < shorter.len() implies (#[trigger] shorter[i]).shows(
            items.drop_last()[i],
        ) by {
            assert(nodes[i].shows(items[i]));
        }
        all_containers_are_kept(shorter, items.drop_last());
        every_container_is_kept(nodes.last(), items.last());
    }
}

/// The layout tree includes every container: a node has as many nodes in it as there are containers
/// in the document that it shows.
pub proof fn every_container_is_kept(node: Node, tree: Tree)
    requires
        node.shows(tree),
    ensures
        node.size() == containers(tree),
    decreases node,
{
    let nodes = list_at(tree, "nodes"@)->Some_0;
    let floating_nodes = list_at(tree, "floating_nodes"@)->Some_0;
    all_containers_are_kept(node.nodes@, nodes);
    all_containers_are_kept(node.floating_nodes@, floating_nodes);
}

} // verus!
