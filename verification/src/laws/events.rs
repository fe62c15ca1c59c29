//! What the events say, of what i3 sent.

use vstd::prelude::*;

use crate::decode::Decode;
use crate::error::DecodeError;
use crate::event::{
    build_event, event_bit_is_stripped, event_number_of, node_described, node_read, read_event,
    BarConfigEventInfo, Binding, BindingChange, BindingEventInfo, Event, InputType, ModeEventInfo,
    OutputChange, OutputEventInfo, ShutdownChange, ShutdownEventInfo, WindowChange,
    WindowEventInfo, WorkspaceChange, WorkspaceEventInfo,
};
use crate::json::{parsed, Json, Tree};
use crate::laws::bars::{bar_config_members, has_bar_config, is_bar_config};
use crate::laws::documents::{
    found_is_member, has_integer, has_member, has_text, is_low_half, lacks, member_is_unambiguous,
};
use crate::laws::names::{
    input_type_names_differ, shutdown_change_names_differ, window_change_names_differ,
    workspace_change_names_differ,
};
use crate::laws::nodes::{described_is_complete, has_node, is_node, shown_is_node};
use crate::node::Node;

verus! {

/// The change of the event is the one that the member "change" names, by the documented names. A
/// name that is not documented is kept apart from all of these.
pub proof fn workspace_event_change_is_read(json: &Json, r: Option<WorkspaceEventInfo>)
    requires
        call_ensures(<WorkspaceEventInfo as Decode>::from_json, (json,), r),
        json@.is_unambiguous(),
    ensures
        r matches Some(info) ==> (has_member(json@, "change"@, Tree::String("focus"@))
            <==> info.change == WorkspaceChange::Focus),
        r matches Some(info) ==> (has_member(json@, "change"@, Tree::String("init"@))
            <==> info.change == WorkspaceChange::Init),
        r matches Some(info) ==> (has_member(json@, "change"@, Tree::String("empty"@))
            <==> info.change == WorkspaceChange::Empty),
        r matches Some(info) ==> (has_member(json@, "change"@, Tree::String("urgent"@))
            <==> info.change == WorkspaceChange::Urgent),
        r matches Some(info) ==> (has_member(json@, "change"@, Tree::String("rename"@))
            <==> info.change == WorkspaceChange::Rename),
        r matches Some(info) ==> (has_member(json@, "change"@, Tree::String("reload"@))
            <==> info.change == WorkspaceChange::Reload),
        r matches Some(info) ==> (has_member(json@, "change"@, Tree::String("restored"@))
            <==> info.change == WorkspaceChange::Restored),
        r matches Some(info) ==> (has_member(json@, "change"@, Tree::String("move"@))
            <==> info.change == WorkspaceChange::Move),
        r matches Some(info)
            ==> (info.change == WorkspaceChange::Unknown
            <==> !has_member(json@, "change"@, Tree::String("focus"@))
            && !has_member(json@, "change"@, Tree::String("init"@))
            && !has_member(json@, "change"@, Tree::String("empty"@))
            && !has_member(json@, "change"@, Tree::String("urgent"@))
            && !has_member(json@, "change"@, Tree::String("rename"@))
            && !has_member(json@, "change"@, Tree::String("reload"@))
            && !has_member(json@, "change"@, Tree::String("restored"@))
            && !has_member(json@, "change"@, Tree::String("move"@))),
{
    found_is_member(json@, "change"@);
    workspace_change_names_differ();
}

/// The change of the event is the one that the member "change" names, by the documented names. A
/// name that is not documented is kept apart from all of these.
pub proof fn output_event_change_is_read(json: &Json, r: Option<OutputEventInfo>)
    requires
        call_ensures(<OutputEventInfo as Decode>::from_json, (json,), r),
        json@.is_unambiguous(),
    ensures
        r matches Some(info) ==> (has_member(json@, "change"@, Tree::String("unspecified"@))
            <==> info.change == OutputChange::Unspecified),
        r matches Some(info)
            ==> (info.change == OutputChange::Unknown
            <==> !has_member(json@, "change"@, Tree::String("unspecified"@))),
{
    found_is_member(json@, "change"@);
}

/// The change of the event is the one that the member "change" names, by the documented names. A
/// name that is not documented is kept apart from all of these.
pub proof fn window_event_change_is_read(json: &Json, r: Option<WindowEventInfo>)
    requires
        call_ensures(<WindowEventInfo as Decode>::from_json, (json,), r),
        json@.is_unambiguous(),
    ensures
        r matches Some(info) ==> (has_member(json@, "change"@, Tree::String("new"@))
            <==> info.change == WindowChange::New),
        r matches Some(info) ==> (has_member(json@, "change"@, Tree::String("close"@))
            <==> info.change == WindowChange::Close),
        r matches Some(info) ==> (has_member(json@, "change"@, Tree::String("focus"@))
            <==> info.change == WindowChange::Focus),
        r matches Some(info) ==> (has_member(json@, "change"@, Tree::String("title"@))
            <==> info.change == WindowChange::Title),
        r matches Some(info) ==> (has_member(json@, "change"@, Tree::String("fullscreen_mode"@))
            <==> info.change == WindowChange::FullscreenMode),
        r matches Some(info) ==> (has_member(json@, "change"@, Tree::String("move"@))
            <==> info.change == WindowChange::Move),
        r matches Some(info) ==> (has_member(json@, "change"@, Tree::String("floating"@))
            <==> info.change == WindowChange::Floating),
        r matches Some(info) ==> (has_member(json@, "change"@, Tree::String("urgent"@))
            <==> info.change == WindowChange::Urgent),
        r matches Some(info) ==> (has_member(json@, "change"@, Tree::String("mark"@))
            <==> info.change == WindowChange::Mark),
        r matches Some(info)
            ==> (info.change == WindowChange::Unknown
            <==> !has_member(json@, "change"@, Tree::String("new"@))
            && !has_member(json@, "change"@, Tree::String("close"@))
            && !has_member(json@, "change"@, Tree::String("focus"@))
            && !has_member(json@, "change"@, Tree::String("title"@))
            && !has_member(json@, "change"@, Tree::String("fullscreen_mode"@))
            && !has_member(json@, "change"@, Tree::String("move"@))
            && !has_member(json@, "change"@, Tree::String("floating"@))
            && !has_member(json@, "change"@, Tree::String("urgent"@))
            && !has_member(json@, "change"@, Tree::String("mark"@))),
{
    found_is_member(json@, "change"@);
    window_change_names_differ();
}

/// The change of the event is the one that the member "change" names, by the documented names. A
/// name that is not documented is kept apart from all of these.
pub proof fn binding_event_change_is_read(json: &Json, r: Option<BindingEventInfo>)
    requires
        call_ensures(<BindingEventInfo as Decode>::from_json, (json,), r),
        json@.is_unambiguous(),
    ensures
        r matches Some(info) ==> (has_member(json@, "change"@, Tree::String("run"@))
            <==> info.change == BindingChange::Run),
        r matches Some(info)
            ==> (info.change == BindingChange::Unknown
            <==> !has_member(json@, "change"@, Tree::String("run"@))),
{
    found_is_member(json@, "change"@);
}

/// The change of the event is the one that the member "change" names, by the documented names. A
/// name that is not documented is kept apart from all of these.
pub proof fn shutdown_event_change_is_read(json: &Json, r: Option<ShutdownEventInfo>)
    requires
        call_ensures(<ShutdownEventInfo as Decode>::from_json, (json,), r),
        json@.is_unambiguous(),
    ensures
        r matches Some(info) ==> (has_member(json@, "change"@, Tree::String("restart"@))
            <==> info.change == ShutdownChange::Restart),
        r matches Some(info) ==> (has_member(json@, "change"@, Tree::String("exit"@))
            <==> info.change == ShutdownChange::Exit),
        r matches Some(info)
            ==> (info.change == ShutdownChange::Unknown
            <==> !has_member(json@, "change"@, Tree::String("restart"@))
            && !has_member(json@, "change"@, Tree::String("exit"@))),
{
    found_is_member(json@, "change"@);
    shutdown_change_names_differ();
}

/// Whether the container of this name is complete, where there is one and it is not null.
pub open spec fn may_have_node(tree: Tree, name: Seq<char>) -> bool {
    forall|value: Tree| #[trigger] has_member(tree, name, value)
        ==> value is Null || has_node(value)
}

/// Whether `node` is the container of this name. It is none if there is no such container or it is
/// null.
pub open spec fn is_node_or_none(node: Option<Node>, tree: Tree, name: Seq<char>) -> bool {
    &&& lacks(tree, name) ==> node is None
    &&& has_member(tree, name, Tree::Null) ==> node is None
    &&& forall|value: Tree| #[trigger]
        has_member(tree, name, value) && !(value is Null) ==> node is Some && is_node(
            node->Some_0,
            value,
        )
}

/// Whether there is a list of this name that holds texts.
pub open spec fn has_list_of_texts(tree: Tree, name: Seq<char>) -> bool {
    exists|items: Seq<Tree>| #[trigger]
        has_member(tree, name, Tree::Array(items)) && forall|i: int|
            0 <= i < items.len() ==> (#[trigger] items[i]) is String
}

/// Whether `tree` is a binding with all that i3 promises of it.
pub open spec fn has_binding(tree: Tree) -> bool {
    &&& has_text(tree, "command"@)
    &&& has_list_of_texts(tree, "event_state_mask"@)
    &&& has_integer(tree, "input_code"@)
    &&& has_text(tree, "symbol"@) || has_member(tree, "symbol"@, Tree::Null)
    &&& has_text(tree, "input_type"@)
}

/// Whether `binding` is the binding `tree`.
pub open spec fn is_binding(binding: Binding, tree: Tree) -> bool {
    &&& forall|text: Seq<char>| #[trigger]
        has_member(tree, "command"@, Tree::String(text)) ==> binding.command@ == text
    &&& forall|items: Seq<Tree>| #[trigger]
        has_member(tree, "event_state_mask"@, Tree::Array(items))
            ==> binding.event_state_mask@.len()
            == items.len() && forall|i: int|
            0 <= i < items.len() ==> #[trigger] items[i] == Tree::String(
                binding.event_state_mask@[i]@,
            )
    &&& forall|n: i64, digits: Seq<char>| #[trigger]
        has_member(tree, "input_code"@, Tree::Number(Some(n), digits))
            ==> is_low_half(binding.input_code, n)
    &&& forall|text: Seq<char>| #[trigger]
        has_member(tree, "symbol"@, Tree::String(text))
            ==> binding.symbol is Some && binding.symbol->Some_0@ == text
    &&& has_member(tree, "symbol"@, Tree::Null) ==> binding.symbol is None
    &&& binding.input_type == InputType::Keyboard <==> has_member(
        tree,
        "input_type"@,
        Tree::String("keyboard"@),
    )
    &&& binding.input_type == InputType::Mouse <==> has_member(
        tree,
        "input_type"@,
        Tree::String("mouse"@),
    )
}

proof fn binding_members(tree: Tree)
    requires
        tree.is_unambiguous(),
    ensures
        Binding::readable(tree) <==> has_binding(tree),
        forall|binding: Binding| #[trigger] binding.reads(tree) ==> is_binding(binding, tree),
{
    found_is_member(tree, "command"@);
    found_is_member(tree, "event_state_mask"@);
    found_is_member(tree, "input_code"@);
    found_is_member(tree, "symbol"@);
    found_is_member(tree, "input_type"@);
    input_type_names_differ();
    if let Some(Tree::Array(items)) = tree.get("event_state_mask"@) {
        assert(has_member(tree, "event_state_mask"@, Tree::Array(items)));
        assert forall|i: int| 0 <= i < items.len() implies (String::readable(#[trigger] items[i])
            <==> items[i] is String) by {}
        assert forall|binding: Binding| #[trigger] binding.reads(tree) implies is_binding(
            binding,
            tree,
        ) by {
            assert forall|i: int| 0 <= i < items.len() implies #[trigger] items[i]
                == Tree::String(binding.event_state_mask@[i]@) by {
                assert(binding.event_state_mask@[i].reads(items[i]));
            }
        }
    }
}

/// A binding is read if its members are there, each of its kind. Each field is the member of the
/// same name.
pub proof fn binding_is_read(json: &Json, r: Option<Binding>)
    requires
        call_ensures(<Binding as Decode>::from_json, (json,), r),
        json@.is_unambiguous(),
    ensures
        r is Some <==> has_binding(json@),
        r matches Some(binding) ==> is_binding(binding, json@),
        r matches Some(binding) ==> forall|text: Seq<char>| #[trigger]
            has_member(json@, "command"@, Tree::String(text)) ==> binding.command@ == text,
        r matches Some(binding) ==> forall|n: i64, digits: Seq<char>| #[trigger]
            has_member(json@, "input_code"@, Tree::Number(Some(n), digits))
                ==> is_low_half(binding.input_code, n),
        r matches Some(binding) ==> forall|text: Seq<char>| #[trigger]
            has_member(json@, "symbol"@, Tree::String(text))
                ==> binding.symbol is Some && binding.symbol->Some_0@ == text,
        r matches Some(binding) ==> (has_member(json@, "symbol"@, Tree::Null)
            ==> binding.symbol is None),
        r matches Some(binding) ==> (has_member(json@, "input_type"@, Tree::String("keyboard"@))
            <==> binding.input_type == InputType::Keyboard),
        r matches Some(binding) ==> (has_member(json@, "input_type"@, Tree::String("mouse"@))
            <==> binding.input_type == InputType::Mouse),
{
    binding_members(json@);
}

proof fn optional_node_is_found(tree: Tree, name: Seq<char>)
    requires
        tree.is_unambiguous(),
    ensures
        node_described(tree, name) <==> may_have_node(tree, name),
        forall|node: Option<Node>| #[trigger]
            node_read(node, tree, name) ==> is_node_or_none(node, tree, name),
{
    found_is_member(tree, name);
    if let Some(value) = tree.get(name) {
        assert(has_member(tree, name, value));
        member_is_unambiguous(tree, name, value);
        described_is_complete(value);
        assert forall|node: Option<Node>| #[trigger] node_read(node, tree, name) implies
            is_node_or_none(node, tree, name) by {
            if !(value is Null) {
                shown_is_node(node->Some_0, value);
            }
        }
    }
}

/// Whether `tree` is an event of a workspace with all that i3 promises of it.
pub open spec fn has_workspace_event(tree: Tree) -> bool {
    &&& has_text(tree, "change"@)
    &&& may_have_node(tree, "current"@)
    &&& may_have_node(tree, "old"@)
}

/// Whether `info` is what the event `tree` says.
pub open spec fn is_workspace_event(info: WorkspaceEventInfo, tree: Tree) -> bool {
    &&& info.change == WorkspaceChange::Focus
        <==> has_member(tree, "change"@, Tree::String("focus"@))
    &&& info.change == WorkspaceChange::Init <==> has_member(tree, "change"@, Tree::String("init"@))
    &&& info.change == WorkspaceChange::Empty
        <==> has_member(tree, "change"@, Tree::String("empty"@))
    &&& info.change == WorkspaceChange::Urgent
        <==> has_member(tree, "change"@, Tree::String("urgent"@))
    &&& info.change == WorkspaceChange::Rename
        <==> has_member(tree, "change"@, Tree::String("rename"@))
    &&& info.change == WorkspaceChange::Reload
        <==> has_member(tree, "change"@, Tree::String("reload"@))
    &&& info.change == WorkspaceChange::Restored
        <==> has_member(tree, "change"@, Tree::String("restored"@))
    &&& info.change == WorkspaceChange::Move <==> has_member(tree, "change"@, Tree::String("move"@))
    &&& is_node_or_none(info.current, tree, "current"@)
    &&& is_node_or_none(info.old, tree, "old"@)
}

/// What reading `tree` as this event comes to.
pub proof fn workspace_event_members(tree: Tree)
    requires
        tree.is_unambiguous(),
    ensures
        WorkspaceEventInfo::readable(tree) <==> has_workspace_event(tree),
        forall|info: WorkspaceEventInfo| #[trigger] info.reads(tree)
            ==> is_workspace_event(info, tree),
{
    found_is_member(tree, "change"@);
    workspace_change_names_differ();
    optional_node_is_found(tree, "current"@);
    optional_node_is_found(tree, "old"@);
}

/// An event is read if its members are there, each of its kind. Each field is the member of the
/// same name.
pub proof fn workspace_event_is_read(json: &Json, r: Option<WorkspaceEventInfo>)
    requires
        call_ensures(<WorkspaceEventInfo as Decode>::from_json, (json,), r),
        json@.is_unambiguous(),
    ensures
        r is Some <==> has_workspace_event(json@),
        r matches Some(info) ==> is_workspace_event(info, json@),
{
    workspace_event_members(json@);
}

/// A payload that is an event is read as that event. One that is JSON but not such an event is
/// unexpected, and one that is no JSON gives the error that parsing it gives.
pub proof fn workspace_event_is_read_from_text(
    text: &str,
    tree: Tree,
    r: Result<WorkspaceEventInfo, DecodeError>,
)
    requires
        call_ensures(WorkspaceEventInfo::from_str, (text,), r),
        tree.is_unambiguous(),
    ensures
        parsed(text@) matches Err(e) ==> r == Err::<WorkspaceEventInfo, DecodeError>(
            DecodeError::JsonCouldntParse(e),
        ),
        parsed(text@) == Ok::<Tree, serde_json::Error>(tree) && has_workspace_event(tree)
            ==> r is Ok
            && is_workspace_event(r->Ok_0, tree),
        parsed(text@) == Ok::<Tree, serde_json::Error>(tree) && !has_workspace_event(tree) ==> r
            == Err::<WorkspaceEventInfo, DecodeError>(DecodeError::Unexpected),
{
    workspace_event_members(tree);
}

/// Whether `tree` is an event of an output with all that i3 promises of it.
pub open spec fn has_output_event(tree: Tree) -> bool {
    has_text(tree, "change"@)
}

/// Whether `info` is what the event `tree` says.
pub open spec fn is_output_event(info: OutputEventInfo, tree: Tree) -> bool {
    &&& info.change == OutputChange::Unspecified
        <==> has_member(tree, "change"@, Tree::String("unspecified"@))
}

/// What reading `tree` as this event comes to.
pub proof fn output_event_members(tree: Tree)
    requires
        tree.is_unambiguous(),
    ensures
        OutputEventInfo::readable(tree) <==> has_output_event(tree),
        forall|info: OutputEventInfo| #[trigger] info.reads(tree) ==> is_output_event(info, tree),
{
    found_is_member(tree, "change"@);
}

/// An event is read if its members are there, each of its kind. Each field is the member of the
/// same name.
pub proof fn output_event_is_read(json: &Json, r: Option<OutputEventInfo>)
    requires
        call_ensures(<OutputEventInfo as Decode>::from_json, (json,), r),
        json@.is_unambiguous(),
    ensures
        r is Some <==> has_output_event(json@),
        r matches Some(info) ==> is_output_event(info, json@),
{
    output_event_members(json@);
}

/// A payload that is an event is read as that event. One that is JSON but not such an event is
/// unexpected, and one that is no JSON gives the error that parsing it gives.
pub proof fn output_event_is_read_from_text(
    text: &str,
    tree: Tree,
    r: Result<OutputEventInfo, DecodeError>,
)
    requires
        call_ensures(OutputEventInfo::from_str, (text,), r),
        tree.is_unambiguous(),
    ensures
        parsed(text@) matches Err(e) ==> r == Err::<OutputEventInfo, DecodeError>(
            DecodeError::JsonCouldntParse(e),
        ),
        parsed(text@) == Ok::<Tree, serde_json::Error>(tree) && has_output_event(tree) ==> r is Ok
            && is_output_event(r->Ok_0, tree),
        parsed(text@) == Ok::<Tree, serde_json::Error>(tree) && !has_output_event(tree) ==> r
            == Err::<OutputEventInfo, DecodeError>(DecodeError::Unexpected),
{
    output_event_members(tree);
}

/// Whether `tree` is an event of a mode with all that i3 promises of it.
pub open spec fn has_mode_event(tree: Tree) -> bool {
    has_text(tree, "change"@)
}

/// Whether `info` is what the event `tree` says.
pub open spec fn is_mode_event(info: ModeEventInfo, tree: Tree) -> bool {
    &&& forall|text: Seq<char>| #[trigger]
        has_member(tree, "change"@, Tree::String(text)) ==> info.change@ == text
}

/// What reading `tree` as this event comes to.
pub proof fn mode_event_members(tree: Tree)
    requires
        tree.is_unambiguous(),
    ensures
        ModeEventInfo::readable(tree) <==> has_mode_event(tree),
        forall|info: ModeEventInfo| #[trigger] info.reads(tree) ==> is_mode_event(info, tree),
{
    found_is_member(tree, "change"@);
}

/// An event is read if its members are there, each of its kind. Each field is the member of the
/// same name.
pub proof fn mode_event_is_read(json: &Json, r: Option<ModeEventInfo>)
    requires
        call_ensures(<ModeEventInfo as Decode>::from_json, (json,), r),
        json@.is_unambiguous(),
    ensures
        r is Some <==> has_mode_event(json@),
        r matches Some(info) ==> is_mode_event(info, json@),
{
    mode_event_members(json@);
}

/// A payload that is an event is read as that event. One that is JSON but not such an event is
/// unexpected, and one that is no JSON gives the error that parsing it gives.
pub proof fn mode_event_is_read_from_text(
    text: &str,
    tree: Tree,
    r: Result<ModeEventInfo, DecodeError>,
)
    requires
        call_ensures(ModeEventInfo::from_str, (text,), r),
        tree.is_unambiguous(),
    ensures
        parsed(text@) matches Err(e) ==> r == Err::<ModeEventInfo, DecodeError>(
            DecodeError::JsonCouldntParse(e),
        ),
        parsed(text@) == Ok::<Tree, serde_json::Error>(tree) && has_mode_event(tree) ==> r is Ok
            && is_mode_event(r->Ok_0, tree),
        parsed(text@) == Ok::<Tree, serde_json::Error>(tree) && !has_mode_event(tree) ==> r
            == Err::<ModeEventInfo, DecodeError>(DecodeError::Unexpected),
{
    mode_event_members(tree);
}

/// Whether `tree` is an event of a window with all that i3 promises of it.
pub open spec fn has_window_event(tree: Tree) -> bool {
    &&& has_text(tree, "change"@)
    &&& exists|value: Tree| #[trigger] has_member(tree, "container"@, value) && has_node(value)
}

/// Whether `info` is what the event `tree` says.
pub open spec fn is_window_event(info: WindowEventInfo, tree: Tree) -> bool {
    &&& info.change == WindowChange::New <==> has_member(tree, "change"@, Tree::String("new"@))
    &&& info.change == WindowChange::Close <==> has_member(tree, "change"@, Tree::String("close"@))
    &&& info.change == WindowChange::Focus <==> has_member(tree, "change"@, Tree::String("focus"@))
    &&& info.change == WindowChange::Title <==> has_member(tree, "change"@, Tree::String("title"@))
    &&& info.change == WindowChange::FullscreenMode
        <==> has_member(tree, "change"@, Tree::String("fullscreen_mode"@))
    &&& info.change == WindowChange::Move <==> has_member(tree, "change"@, Tree::String("move"@))
    &&& info.change == WindowChange::Floating
        <==> has_member(tree, "change"@, Tree::String("floating"@))
    &&& info.change == WindowChange::Urgent
        <==> has_member(tree, "change"@, Tree::String("urgent"@))
    &&& info.change == WindowChange::Mark <==> has_member(tree, "change"@, Tree::String("mark"@))
    &&& forall|value: Tree| #[trigger]
        has_member(tree, "container"@, value) ==> is_node(info.container, value)
}

/// What reading `tree` as this event comes to.
pub proof fn window_event_members(tree: Tree)
    requires
        tree.is_unambiguous(),
    ensures
        WindowEventInfo::readable(tree) <==> has_window_event(tree),
        forall|info: WindowEventInfo| #[trigger] info.reads(tree) ==> is_window_event(info, tree),
{
    found_is_member(tree, "change"@);
    window_change_names_differ();
    found_is_member(tree, "container"@);
    if let Some(value) = tree.get("container"@) {
        assert(has_member(tree, "container"@, value));
        member_is_unambiguous(tree, "container"@, value);
        described_is_complete(value);
        assert forall|info: WindowEventInfo| #[trigger] info.reads(tree) implies is_window_event(
            info,
            tree,
        ) by {
            shown_is_node(info.container, value);
        }
    }
}

/// An event is read if its members are there, each of its kind. Each field is the member of the
/// same name.
pub proof fn window_event_is_read(json: &Json, r: Option<WindowEventInfo>)
    requires
        call_ensures(<WindowEventInfo as Decode>::from_json, (json,), r),
        json@.is_unambiguous(),
    ensures
        r is Some <==> has_window_event(json@),
        r matches Some(info) ==> is_window_event(info, json@),
{
    window_event_members(json@);
}

/// A payload that is an event is read as that event. One that is JSON but not such an event is
/// unexpected, and one that is no JSON gives the error that parsing it gives.
pub proof fn window_event_is_read_from_text(
    text: &str,
    tree: Tree,
    r: Result<WindowEventInfo, DecodeError>,
)
    requires
        call_ensures(WindowEventInfo::from_str, (text,), r),
        tree.is_unambiguous(),
    ensures
        parsed(text@) matches Err(e) ==> r == Err::<WindowEventInfo, DecodeError>(
            DecodeError::JsonCouldntParse(e),
        ),
        parsed(text@) == Ok::<Tree, serde_json::Error>(tree) && has_window_event(tree) ==> r is Ok
            && is_window_event(r->Ok_0, tree),
        parsed(text@) == Ok::<Tree, serde_json::Error>(tree) && !has_window_event(tree) ==> r
            == Err::<WindowEventInfo, DecodeError>(DecodeError::Unexpected),
{
    window_event_members(tree);
}

/// Whether `tree` is an event of a binding with all that i3 promises of it.
pub open spec fn has_binding_event(tree: Tree) -> bool {
    &&& has_text(tree, "change"@)
    &&& exists|value: Tree| #[trigger] has_member(tree, "binding"@, value) && has_binding(value)
}

/// Whether `info` is what the event `tree` says.
pub open spec fn is_binding_event(info: BindingEventInfo, tree: Tree) -> bool {
    &&& info.change == BindingChange::Run <==> has_member(tree, "change"@, Tree::String("run"@))
    &&& forall|value: Tree| #[trigger]
        has_member(tree, "binding"@, value) ==> is_binding(info.binding, value)
}

/// What reading `tree` as this event comes to.
pub proof fn binding_event_members(tree: Tree)
    requires
        tree.is_unambiguous(),
    ensures
        BindingEventInfo::readable(tree) <==> has_binding_event(tree),
        forall|info: BindingEventInfo| #[trigger] info.reads(tree) ==> is_binding_event(info, tree),
{
    found_is_member(tree, "change"@);
    found_is_member(tree, "binding"@);
    if let Some(value) = tree.get("binding"@) {
        assert(has_member(tree, "binding"@, value));
        member_is_unambiguous(tree, "binding"@, value);
        binding_members(value);
    }
}

/// An event is read if its members are there, each of its kind. Each field is the member of the
/// same name.
pub proof fn binding_event_is_read(json: &Json, r: Option<BindingEventInfo>)
    requires
        call_ensures(<BindingEventInfo as Decode>::from_json, (json,), r),
        json@.is_unambiguous(),
    ensures
        r is Some <==> has_binding_event(json@),
        r matches Some(info) ==> is_binding_event(info, json@),
{
    binding_event_members(json@);
}

/// A payload that is an event is read as that event. One that is JSON but not such an event is
/// unexpected, and one that is no JSON gives the error that parsing it gives.
pub proof fn binding_event_is_read_from_text(
    text: &str,
    tree: Tree,
    r: Result<BindingEventInfo, DecodeError>,
)
    requires
        call_ensures(BindingEventInfo::from_str, (text,), r),
        tree.is_unambiguous(),
    ensures
        parsed(text@) matches Err(e) ==> r == Err::<BindingEventInfo, DecodeError>(
            DecodeError::JsonCouldntParse(e),
        ),
        parsed(text@) == Ok::<Tree, serde_json::Error>(tree) && has_binding_event(tree) ==> r is Ok
            && is_binding_event(r->Ok_0, tree),
        parsed(text@) == Ok::<Tree, serde_json::Error>(tree) && !has_binding_event(tree) ==> r
            == Err::<BindingEventInfo, DecodeError>(DecodeError::Unexpected),
{
    binding_event_members(tree);
}

/// Whether `tree` is a shutdown with all that i3 promises of it.
pub open spec fn has_shutdown_event(tree: Tree) -> bool {
    has_text(tree, "change"@)
}

/// Whether `info` is what the event `tree` says.
pub open spec fn is_shutdown_event(info: ShutdownEventInfo, tree: Tree) -> bool {
    &&& info.change == ShutdownChange::Restart
        <==> has_member(tree, "change"@, Tree::String("restart"@))
    &&& info.change == ShutdownChange::Exit <==> has_member(tree, "change"@, Tree::String("exit"@))
}

/// What reading `tree` as this event comes to.
pub proof fn shutdown_event_members(tree: Tree)
    requires
        tree.is_unambiguous(),
    ensures
        ShutdownEventInfo::readable(tree) <==> has_shutdown_event(tree),
        forall|info: ShutdownEventInfo| #[trigger] info.reads(tree)
            ==> is_shutdown_event(info, tree),
{
    found_is_member(tree, "change"@);
    shutdown_change_names_differ();
}

/// An event is read if its members are there, each of its kind. Each field is the member of the
/// same name.
pub proof fn shutdown_event_is_read(json: &Json, r: Option<ShutdownEventInfo>)
    requires
        call_ensures(<ShutdownEventInfo as Decode>::from_json, (json,), r),
        json@.is_unambiguous(),
    ensures
        r is Some <==> has_shutdown_event(json@),
        r matches Some(info) ==> is_shutdown_event(info, json@),
{
    shutdown_event_members(json@);
}

/// A payload that is an event is read as that event. One that is JSON but not such an event is
/// unexpected, and one that is no JSON gives the error that parsing it gives.
pub proof fn shutdown_event_is_read_from_text(
    text: &str,
    tree: Tree,
    r: Result<ShutdownEventInfo, DecodeError>,
)
    requires
        call_ensures(ShutdownEventInfo::from_str, (text,), r),
        tree.is_unambiguous(),
    ensures
        parsed(text@) matches Err(e) ==> r == Err::<ShutdownEventInfo, DecodeError>(
            DecodeError::JsonCouldntParse(e),
        ),
        parsed(text@) == Ok::<Tree, serde_json::Error>(tree) && has_shutdown_event(tree) ==> r is Ok
            && is_shutdown_event(r->Ok_0, tree),
        parsed(text@) == Ok::<Tree, serde_json::Error>(tree) && !has_shutdown_event(tree) ==> r
            == Err::<ShutdownEventInfo, DecodeError>(DecodeError::Unexpected),
{
    shutdown_event_members(tree);
}

/// The event of a bar is its new configuration, and nothing else.
pub proof fn bar_config_event_is_read(json: &Json, r: Option<BarConfigEventInfo>)
    requires
        call_ensures(<BarConfigEventInfo as Decode>::from_json, (json,), r),
        json@.is_unambiguous(),
    ensures
        r is Some <==> has_bar_config(json@),
        r matches Some(info) ==> is_bar_config(info.bar_config, json@),
{
    bar_config_members(json@);
}

/// A payload that is the configuration of a bar is read as that. One that is JSON but not such a
/// configuration is unexpected, and one that is no JSON gives the error that parsing it gives.
pub proof fn bar_config_event_is_read_from_text(
    text: &str,
    tree: Tree,
    r: Result<BarConfigEventInfo, DecodeError>,
)
    requires
        call_ensures(BarConfigEventInfo::from_str, (text,), r),
        tree.is_unambiguous(),
    ensures
        parsed(text@) matches Err(e) ==> r == Err::<BarConfigEventInfo, DecodeError>(
            DecodeError::JsonCouldntParse(e),
        ),
        parsed(text@) == Ok::<Tree, serde_json::Error>(tree) && has_bar_config(tree) ==> r is Ok
            && is_bar_config(r->Ok_0.bar_config, tree),
        parsed(text@) == Ok::<Tree, serde_json::Error>(tree) && !has_bar_config(tree) ==> r
            == Err::<BarConfigEventInfo, DecodeError>(DecodeError::Unexpected),
{
    bar_config_members(tree);
}

/// The number of an event is the type of its message without the highest bit: a number that has not
/// that bit is its own, and setting the bit changes nothing.
pub proof fn event_number_ignores_highest_bit(number: u32, plain: u32, marked: u32)
    requires
        call_ensures(event_number_of, (number,), plain),
        call_ensures(event_number_of, (number | 0x8000_0000,), marked),
        number < 0x8000_0000,
    ensures
        plain == number,
        marked == number,
{
    event_bit_is_stripped(number);
}

/// Workspace, output, mode, window, bar, binding and shutdown events have the numbers zero to six,
/// in this order, and each is read from a document that has what i3 promises of it. Any other
/// number is that of no event.
pub proof fn event_is_read(number: u32, document: Result<Json, serde_json::Error>, tree: Tree,
    r: Result<Event, DecodeError>)
    requires
        call_ensures(read_event, (number, document), r),
        tree.is_unambiguous(),
    ensures
        number > 6 ==> r == Err::<Event, DecodeError>(DecodeError::UnknownEvent(number)),
        number <= 6 ==> (document matches Err(e) ==> r == Err::<Event, DecodeError>(
            DecodeError::JsonCouldntParse(e),
        )),
        document is Ok && document->Ok_0@ == tree && number == 0 && has_workspace_event(tree)
            ==> (r matches Ok(
            Event::WorkspaceEvent(info),
        ) && is_workspace_event(info, tree)),
        document is Ok && document->Ok_0@ == tree && number == 0 && !has_workspace_event(tree)
            ==> r == Err::<Event, DecodeError>(
            DecodeError::Unexpected,
        ),
        document is Ok && document->Ok_0@ == tree && number == 1 && has_output_event(tree)
            ==> (r matches Ok(
            Event::OutputEvent(info),
        ) && is_output_event(info, tree)),
        document is Ok && document->Ok_0@ == tree && number == 1 && !has_output_event(tree)
            ==> r == Err::<Event, DecodeError>(
            DecodeError::Unexpected,
        ),
        document is Ok && document->Ok_0@ == tree && number == 2 && has_mode_event(tree)
            ==> (r matches Ok(
            Event::ModeEvent(info),
        ) && is_mode_event(info, tree)),
        document is Ok && document->Ok_0@ == tree && number == 2 && !has_mode_event(tree)
            ==> r == Err::<Event, DecodeError>(
            DecodeError::Unexpected,
        ),
        document is Ok && document->Ok_0@ == tree && number == 3 && has_window_event(tree)
            ==> (r matches Ok(
            Event::WindowEvent(info),
        ) && is_window_event(info, tree)),
        document is Ok && document->Ok_0@ == tree && number == 3 && !has_window_event(tree)
            ==> r == Err::<Event, DecodeError>(
            DecodeError::Unexpected,
        ),
        document is Ok && document->Ok_0@ == tree && number == 5 && has_binding_event(tree)
            ==> (r matches Ok(
            Event::BindingEvent(info),
        ) && is_binding_event(info, tree)),
        document is Ok && document->Ok_0@ == tree && number == 5 && !has_binding_event(tree)
            ==> r == Err::<Event, DecodeError>(
            DecodeError::Unexpected,
        ),
        document is Ok && document->Ok_0@ == tree && number == 6 && has_shutdown_event(tree)
            ==> (r matches Ok(
            Event::ShutdownEvent(info),
        ) && is_shutdown_event(info, tree)),
        document is Ok && document->Ok_0@ == tree && number == 6 && !has_shutdown_event(tree)
            ==> r == Err::<Event, DecodeError>(
            DecodeError::Unexpected,
        ),
        document is Ok && document->Ok_0@ == tree && number == 4 && has_bar_config(tree)
            ==> (r matches Ok(
            Event::BarConfigEvent(info),
        ) && is_bar_config(info.bar_config, tree)),
        document is Ok && document->Ok_0@ == tree && number == 4 && !has_bar_config(tree)
            ==> r == Err::<Event, DecodeError>(
            DecodeError::Unexpected,
        ),
{
    workspace_event_members(tree);
    output_event_members(tree);
    mode_event_members(tree);
    window_event_members(tree);
    bar_config_members(tree);
    binding_event_members(tree);
    shutdown_event_members(tree);
}

/// The same holds of an event whose payload has yet to be parsed.
pub proof fn event_is_built(number: u32, payload: &str, tree: Tree, r: Result<Event, DecodeError>)
    requires
        call_ensures(build_event, (number, payload), r),
        tree.is_unambiguous(),
    ensures
        number > 6 ==> r == Err::<Event, DecodeError>(DecodeError::UnknownEvent(number)),
        number <= 6 ==> (parsed(payload@) matches Err(e) ==> r == Err::<Event, DecodeError>(
            DecodeError::JsonCouldntParse(e),
        )),
        parsed(payload@) == Ok::<Tree, serde_json::Error>(tree) && number == 0
            && has_workspace_event(tree) ==> (r matches Ok(
            Event::WorkspaceEvent(info),
        ) && is_workspace_event(info, tree)),
        parsed(payload@) == Ok::<Tree, serde_json::Error>(tree) && number == 0
            && !has_workspace_event(tree) ==> r == Err::<Event, DecodeError>(
            DecodeError::Unexpected,
        ),
        parsed(payload@) == Ok::<Tree, serde_json::Error>(tree) && number == 1
            && has_output_event(tree) ==> (r matches Ok(
            Event::OutputEvent(info),
        ) && is_output_event(info, tree)),
        parsed(payload@) == Ok::<Tree, serde_json::Error>(tree) && number == 1
            && !has_output_event(tree) ==> r == Err::<Event, DecodeError>(
            DecodeError::Unexpected,
        ),
        parsed(payload@) == Ok::<Tree, serde_json::Error>(tree) && number == 2
            && has_mode_event(tree) ==> (r matches Ok(
            Event::ModeEvent(info),
        ) && is_mode_event(info, tree)),
        parsed(payload@) == Ok::<Tree, serde_json::Error>(tree) && number == 2
            && !has_mode_event(tree) ==> r == Err::<Event, DecodeError>(
            DecodeError::Unexpected,
        ),
        parsed(payload@) == Ok::<Tree, serde_json::Error>(tree) && number == 3
            && has_window_event(tree) ==> (r matches Ok(
            Event::WindowEvent(info),
        ) && is_window_event(info, tree)),
        parsed(payload@) == Ok::<Tree, serde_json::Error>(tree) && number == 3
            && !has_window_event(tree) ==> r == Err::<Event, DecodeError>(
            DecodeError::Unexpected,
        ),
        parsed(payload@) == Ok::<Tree, serde_json::Error>(tree) && number == 5
            && has_binding_event(tree) ==> (r matches Ok(
            Event::BindingEvent(info),
        ) && is_binding_event(info, tree)),
        parsed(payload@) == Ok::<Tree, serde_json::Error>(tree) && number == 5
            && !has_binding_event(tree) ==> r == Err::<Event, DecodeError>(
            DecodeError::Unexpected,
        ),
        parsed(payload@) == Ok::<Tree, serde_json::Error>(tree) && number == 6
            && has_shutdown_event(tree) ==> (r matches Ok(
            Event::ShutdownEvent(info),
        ) && is_shutdown_event(info, tree)),
        parsed(payload@) == Ok::<Tree, serde_json::Error>(tree) && number == 6
            && !has_shutdown_event(tree) ==> r == Err::<Event, DecodeError>(
            DecodeError::Unexpected,
        ),
        parsed(payload@) == Ok::<Tree, serde_json::Error>(tree) && number == 4
            && has_bar_config(tree) ==> (r matches Ok(
            Event::BarConfigEvent(info),
        ) && is_bar_config(info.bar_config, tree)),
        parsed(payload@) == Ok::<Tree, serde_json::Error>(tree) && number == 4
            && !has_bar_config(tree) ==> r == Err::<Event, DecodeError>(
            DecodeError::Unexpected,
        ),
{
    workspace_event_members(tree);
    output_event_members(tree);
    mode_event_members(tree);
    window_event_members(tree);
    bar_config_members(tree);
    binding_event_members(tree);
    shutdown_event_members(tree);
}

} // verus!
