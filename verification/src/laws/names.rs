//! The names that i3 gives to things: which value each of them stands for.

use vstd::prelude::*;

use crate::bar::ColorableBarPart;
use crate::event::{
    BindingChange, InputType, OutputChange, ShutdownChange, WindowChange, WorkspaceChange,
};
use crate::node::{NodeBorder, NodeLayout, NodeType, WindowProperty};

verus! {

/// The documented names differ.
pub proof fn node_type_names_differ()
    ensures
        "root"@ != "output"@,
        "root"@ != "con"@,
        "root"@ != "floating_con"@,
        "root"@ != "workspace"@,
        "root"@ != "dockarea"@,
        "output"@ != "con"@,
        "output"@ != "floating_con"@,
        "output"@ != "workspace"@,
        "output"@ != "dockarea"@,
        "con"@ != "floating_con"@,
        "con"@ != "workspace"@,
        "con"@ != "dockarea"@,
        "floating_con"@ != "workspace"@,
        "floating_con"@ != "dockarea"@,
        "workspace"@ != "dockarea"@,
{
    reveal_strlit("root");
    reveal_strlit("output");
    reveal_strlit("con");
    reveal_strlit("floating_con");
    reveal_strlit("workspace");
    reveal_strlit("dockarea");
    assert("root"@.len() == 4);
    assert("output"@.len() == 6);
    assert("con"@.len() == 3);
    assert("floating_con"@.len() == 12);
    assert("workspace"@.len() == 9);
    assert("dockarea"@.len() == 8);
}

/// Each documented name of a kind of container stands for the one of that name, and
/// nothing else does; any other name stands for one that is not documented.
pub proof fn node_type_is_what_it_is_called(name: &str, r: NodeType)
    requires
        call_ensures(NodeType::from_name, (name,), r),
    ensures
        name@ == "root"@ <==> r == NodeType::Root,
        name@ == "output"@ <==> r == NodeType::Output,
        name@ == "con"@ <==> r == NodeType::Con,
        name@ == "floating_con"@ <==> r == NodeType::FloatingCon,
        name@ == "workspace"@ <==> r == NodeType::Workspace,
        name@ == "dockarea"@ <==> r == NodeType::DockArea,
        name@ != "root"@
            && name@ != "output"@
            && name@ != "con"@
            && name@ != "floating_con"@
            && name@ != "workspace"@
            && name@ != "dockarea"@ <==> r == NodeType::Unknown,
{
    node_type_names_differ();
}

/// Two different documented names never stand for the same kind of container.
pub proof fn node_type_tells_names_apart(a: &str, ra: NodeType, b: &str, rb: NodeType)
    requires
        call_ensures(NodeType::from_name, (a,), ra),
        call_ensures(NodeType::from_name, (b,), rb),
        a@ != b@,
    ensures
        ra == rb ==> ra == NodeType::Unknown,
{
}

/// The documented names differ.
pub proof fn node_border_names_differ()
    ensures
        "normal"@ != "none"@,
        "normal"@ != "pixel"@,
        "none"@ != "pixel"@,
{
    reveal_strlit("normal");
    reveal_strlit("none");
    reveal_strlit("pixel");
    assert("normal"@.len() == 6);
    assert("none"@.len() == 4);
    assert("pixel"@.len() == 5);
}

/// Each documented name of a border stands for the one of that name, and
/// nothing else does; any other name stands for one that is not documented.
pub proof fn node_border_is_what_it_is_called(name: &str, r: NodeBorder)
    requires
        call_ensures(NodeBorder::from_name, (name,), r),
    ensures
        name@ == "normal"@ <==> r == NodeBorder::Normal,
        name@ == "none"@ <==> r == NodeBorder::Absent,
        name@ == "pixel"@ <==> r == NodeBorder::Pixel,
        name@ != "normal"@
            && name@ != "none"@
            && name@ != "pixel"@ <==> r == NodeBorder::Unknown,
{
    node_border_names_differ();
}

/// Two different documented names never stand for the same border.
pub proof fn node_border_tells_names_apart(a: &str, ra: NodeBorder, b: &str, rb: NodeBorder)
    requires
        call_ensures(NodeBorder::from_name, (a,), ra),
        call_ensures(NodeBorder::from_name, (b,), rb),
        a@ != b@,
    ensures
        ra == rb ==> ra == NodeBorder::Unknown,
{
}

/// The documented names differ.
pub proof fn node_layout_names_differ()
    ensures
        "splith"@ != "splitv"@,
        "splith"@ != "stacked"@,
        "splith"@ != "tabbed"@,
        "splith"@ != "dockarea"@,
        "splith"@ != "output"@,
        "splitv"@ != "stacked"@,
        "splitv"@ != "tabbed"@,
        "splitv"@ != "dockarea"@,
        "splitv"@ != "output"@,
        "stacked"@ != "tabbed"@,
        "stacked"@ != "dockarea"@,
        "stacked"@ != "output"@,
        "tabbed"@ != "dockarea"@,
        "tabbed"@ != "output"@,
        "dockarea"@ != "output"@,
{
    reveal_strlit("splith");
    reveal_strlit("splitv");
    reveal_strlit("stacked");
    reveal_strlit("tabbed");
    reveal_strlit("dockarea");
    reveal_strlit("output");
    assert("splith"@.len() == 6);
    assert("splitv"@.len() == 6);
    assert("stacked"@.len() == 7);
    assert("tabbed"@.len() == 6);
    assert("dockarea"@.len() == 8);
    assert("output"@.len() == 6);
    assert("splith"@[0] == 's');
    assert("splith"@[5] == 'h');
    assert("splitv"@[0] == 's');
    assert("splitv"@[5] == 'v');
    assert("tabbed"@[0] == 't');
    assert("output"@[0] == 'o');
}

/// Each documented name of a layout stands for the one of that name, and
/// nothing else does; any other name stands for one that is not documented.
pub proof fn node_layout_is_what_it_is_called(name: &str, r: NodeLayout)
    requires
        call_ensures(NodeLayout::from_name, (name,), r),
    ensures
        name@ == "splith"@ <==> r == NodeLayout::SplitH,
        name@ == "splitv"@ <==> r == NodeLayout::SplitV,
        name@ == "stacked"@ <==> r == NodeLayout::Stacked,
        name@ == "tabbed"@ <==> r == NodeLayout::Tabbed,
        name@ == "dockarea"@ <==> r == NodeLayout::DockArea,
        name@ == "output"@ <==> r == NodeLayout::Output,
        name@ != "splith"@
            && name@ != "splitv"@
            && name@ != "stacked"@
            && name@ != "tabbed"@
            && name@ != "dockarea"@
            && name@ != "output"@ <==> r == NodeLayout::Unknown,
{
    node_layout_names_differ();
}

/// Two different documented names never stand for the same layout.
pub proof fn node_layout_tells_names_apart(a: &str, ra: NodeLayout, b: &str, rb: NodeLayout)
    requires
        call_ensures(NodeLayout::from_name, (a,), ra),
        call_ensures(NodeLayout::from_name, (b,), rb),
        a@ != b@,
    ensures
        ra == rb ==> ra == NodeLayout::Unknown,
{
}

/// The documented names differ.
pub proof fn window_property_names_differ()
    ensures
        "title"@ != "instance"@,
        "title"@ != "class"@,
        "title"@ != "window_role"@,
        "title"@ != "transient_for"@,
        "instance"@ != "class"@,
        "instance"@ != "window_role"@,
        "instance"@ != "transient_for"@,
        "class"@ != "window_role"@,
        "class"@ != "transient_for"@,
        "window_role"@ != "transient_for"@,
{
    reveal_strlit("title");
    reveal_strlit("instance");
    reveal_strlit("class");
    reveal_strlit("window_role");
    reveal_strlit("transient_for");
    assert("title"@.len() == 5);
    assert("instance"@.len() == 8);
    assert("class"@.len() == 5);
    assert("window_role"@.len() == 11);
    assert("transient_for"@.len() == 13);
    assert("title"@[0] == 't');
    assert("class"@[0] == 'c');
}

/// Each documented name of a property of a window stands for the one of that name, and
/// nothing else does; any other name stands for none.
pub proof fn window_property_is_what_it_is_called(name: &str, r: Option<WindowProperty>)
    requires
        call_ensures(WindowProperty::from_name, (name,), r),
    ensures
        name@ == "title"@ <==> r == Some(WindowProperty::Title),
        name@ == "instance"@ <==> r == Some(WindowProperty::Instance),
        name@ == "class"@ <==> r == Some(WindowProperty::Class),
        name@ == "window_role"@ <==> r == Some(WindowProperty::WindowRole),
        name@ == "transient_for"@ <==> r == Some(WindowProperty::TransientFor),
        name@ != "title"@
            && name@ != "instance"@
            && name@ != "class"@
            && name@ != "window_role"@
            && name@ != "transient_for"@ <==> r is None,
{
    window_property_names_differ();
}

/// Two different documented names never stand for the same property of a window.
pub proof fn window_property_tells_names_apart(a: &str, ra: Option<WindowProperty>, b: &str,
    rb: Option<WindowProperty>)
    requires
        call_ensures(WindowProperty::from_name, (a,), ra),
        call_ensures(WindowProperty::from_name, (b,), rb),
        a@ != b@,
    ensures
        ra == rb ==> ra is None,
{
}

/// The documented names differ.
pub proof fn bar_part_names_differ()
    ensures
        "background"@ != "statusline"@,
        "background"@ != "separator"@,
        "background"@ != "focused_background"@,
        "background"@ != "focused_statusline"@,
        "background"@ != "focused_separator"@,
        "background"@ != "focused_workspace_text"@,
        "background"@ != "focused_workspace_bg"@,
        "background"@ != "focused_workspace_border"@,
        "background"@ != "active_workspace_text"@,
        "background"@ != "active_workspace_bg"@,
        "background"@ != "active_workspace_border"@,
        "background"@ != "inactive_workspace_text"@,
        "background"@ != "inactive_workspace_bg"@,
        "background"@ != "inactive_workspace_border"@,
        "background"@ != "urgent_workspace_text"@,
        "background"@ != "urgent_workspace_bg"@,
        "background"@ != "urgent_workspace_border"@,
        "background"@ != "binding_mode_text"@,
        "background"@ != "binding_mode_bg"@,
        "background"@ != "binding_mode_border"@,
        "statusline"@ != "separator"@,
        "statusline"@ != "focused_background"@,
        "statusline"@ != "focused_statusline"@,
        "statusline"@ != "focused_separator"@,
        "statusline"@ != "focused_workspace_text"@,
        "statusline"@ != "focused_workspace_bg"@,
        "statusline"@ != "focused_workspace_border"@,
        "statusline"@ != "active_workspace_text"@,
        "statusline"@ != "active_workspace_bg"@,
        "statusline"@ != "active_workspace_border"@,
        "statusline"@ != "inactive_workspace_text"@,
        "statusline"@ != "inactive_workspace_bg"@,
        "statusline"@ != "inactive_workspace_border"@,
        "statusline"@ != "urgent_workspace_text"@,
        "statusline"@ != "urgent_workspace_bg"@,
        "statusline"@ != "urgent_workspace_border"@,
        "statusline"@ != "binding_mode_text"@,
        "statusline"@ != "binding_mode_bg"@,
        "statusline"@ != "binding_mode_border"@,
        "separator"@ != "focused_background"@,
        "separator"@ != "focused_statusline"@,
        "separator"@ != "focused_separator"@,
        "separator"@ != "focused_workspace_text"@,
        "separator"@ != "focused_workspace_bg"@,
        "separator"@ != "focused_workspace_border"@,
        "separator"@ != "active_workspace_text"@,
        "separator"@ != "active_workspace_bg"@,
        "separator"@ != "active_workspace_border"@,
        "separator"@ != "inactive_workspace_text"@,
        "separator"@ != "inactive_workspace_bg"@,
        "separator"@ != "inactive_workspace_border"@,
        "separator"@ != "urgent_workspace_text"@,
        "separator"@ != "urgent_workspace_bg"@,
        "separator"@ != "urgent_workspace_border"@,
        "separator"@ != "binding_mode_text"@,
        "separator"@ != "binding_mode_bg"@,
        "separator"@ != "binding_mode_border"@,
        "focused_background"@ != "focused_statusline"@,
        "focused_background"@ != "focused_separator"@,
        "focused_background"@ != "focused_workspace_text"@,
        "focused_background"@ != "focused_workspace_bg"@,
        "focused_background"@ != "focused_workspace_border"@,
        "focused_background"@ != "active_workspace_text"@,
        "focused_background"@ != "active_workspace_bg"@,
        "focused_background"@ != "active_workspace_border"@,
        "focused_background"@ != "inactive_workspace_text"@,
        "focused_background"@ != "inactive_workspace_bg"@,
        "focused_background"@ != "inactive_workspace_border"@,
        "focused_background"@ != "urgent_workspace_text"@,
        "focused_background"@ != "urgent_workspace_bg"@,
        "focused_background"@ != "urgent_workspace_border"@,
        "focused_background"@ != "binding_mode_text"@,
        "focused_background"@ != "binding_mode_bg"@,
        "focused_background"@ != "binding_mode_border"@,
        "focused_statusline"@ != "focused_separator"@,
        "focused_statusline"@ != "focused_workspace_text"@,
        "focused_statusline"@ != "focused_workspace_bg"@,
        "focused_statusline"@ != "focused_workspace_border"@,
        "focused_statusline"@ != "active_workspace_text"@,
        "focused_statusline"@ != "active_workspace_bg"@,
        "focused_statusline"@ != "active_workspace_border"@,
        "focused_statusline"@ != "inactive_workspace_text"@,
        "focused_statusline"@ != "inactive_workspace_bg"@,
        "focused_statusline"@ != "inactive_workspace_border"@,
        "focused_statusline"@ != "urgent_workspace_text"@,
        "focused_statusline"@ != "urgent_workspace_bg"@,
        "focused_statusline"@ != "urgent_workspace_border"@,
        "focused_statusline"@ != "binding_mode_text"@,
        "focused_statusline"@ != "binding_mode_bg"@,
        "focused_statusline"@ != "binding_mode_border"@,
        "focused_separator"@ != "focused_workspace_text"@,
        "focused_separator"@ != "focused_workspace_bg"@,
        "focused_separator"@ != "focused_workspace_border"@,
        "focused_separator"@ != "active_workspace_text"@,
        "focused_separator"@ != "active_workspace_bg"@,
        "focused_separator"@ != "active_workspace_border"@,
        "focused_separator"@ != "inactive_workspace_text"@,
        "focused_separator"@ != "inactive_workspace_bg"@,
        "focused_separator"@ != "inactive_workspace_border"@,
        "focused_separator"@ != "urgent_workspace_text"@,
        "focused_separator"@ != "urgent_workspace_bg"@,
        "focused_separator"@ != "urgent_workspace_border"@,
        "focused_separator"@ != "binding_mode_text"@,
        "focused_separator"@ != "binding_mode_bg"@,
        "focused_separator"@ != "binding_mode_border"@,
        "focused_workspace_text"@ != "focused_workspace_bg"@,
        "focused_workspace_text"@ != "focused_workspace_border"@,
        "focused_workspace_text"@ != "active_workspace_text"@,
        "focused_workspace_text"@ != "active_workspace_bg"@,
        "focused_workspace_text"@ != "active_workspace_border"@,
        "focused_workspace_text"@ != "inactive_workspace_text"@,
        "focused_workspace_text"@ != "inactive_workspace_bg"@,
        "focused_workspace_text"@ != "inactive_workspace_border"@,
        "focused_workspace_text"@ != "urgent_workspace_text"@,
        "focused_workspace_text"@ != "urgent_workspace_bg"@,
        "focused_workspace_text"@ != "urgent_workspace_border"@,
        "focused_workspace_text"@ != "binding_mode_text"@,
        "focused_workspace_text"@ != "binding_mode_bg"@,
        "focused_workspace_text"@ != "binding_mode_border"@,
        "focused_workspace_bg"@ != "focused_workspace_border"@,
        "focused_workspace_bg"@ != "active_workspace_text"@,
        "focused_workspace_bg"@ != "active_workspace_bg"@,
        "focused_workspace_bg"@ != "active_workspace_border"@,
        "focused_workspace_bg"@ != "inactive_workspace_text"@,
        "focused_workspace_bg"@ != "inactive_workspace_bg"@,
        "focused_workspace_bg"@ != "inactive_workspace_border"@,
        "focused_workspace_bg"@ != "urgent_workspace_text"@,
        "focused_workspace_bg"@ != "urgent_workspace_bg"@,
        "focused_workspace_bg"@ != "urgent_workspace_border"@,
        "focused_workspace_bg"@ != "binding_mode_text"@,
        "focused_workspace_bg"@ != "binding_mode_bg"@,
        "focused_workspace_bg"@ != "binding_mode_border"@,
        "focused_workspace_border"@ != "active_workspace_text"@,
        "focused_workspace_border"@ != "active_workspace_bg"@,
        "focused_workspace_border"@ != "active_workspace_border"@,
        "focused_workspace_border"@ != "inactive_workspace_text"@,
        "focused_workspace_border"@ != "inactive_workspace_bg"@,
        "focused_workspace_border"@ != "inactive_workspace_border"@,
        "focused_workspace_border"@ != "urgent_workspace_text"@,
        "focused_workspace_border"@ != "urgent_workspace_bg"@,
        "focused_workspace_border"@ != "urgent_workspace_border"@,
        "focused_workspace_border"@ != "binding_mode_text"@,
        "focused_workspace_border"@ != "binding_mode_bg"@,
        "focused_workspace_border"@ != "binding_mode_border"@,
        "active_workspace_text"@ != "active_workspace_bg"@,
        "active_workspace_text"@ != "active_workspace_border"@,
        "active_workspace_text"@ != "inactive_workspace_text"@,
        "active_workspace_text"@ != "inactive_workspace_bg"@,
        "active_workspace_text"@ != "inactive_workspace_border"@,
        "active_workspace_text"@ != "urgent_workspace_text"@,
        "active_workspace_text"@ != "urgent_workspace_bg"@,
        "active_workspace_text"@ != "urgent_workspace_border"@,
        "active_workspace_text"@ != "binding_mode_text"@,
        "active_workspace_text"@ != "binding_mode_bg"@,
        "active_workspace_text"@ != "binding_mode_border"@,
        "active_workspace_bg"@ != "active_workspace_border"@,
        "active_workspace_bg"@ != "inactive_workspace_text"@,
        "active_workspace_bg"@ != "inactive_workspace_bg"@,
        "active_workspace_bg"@ != "inactive_workspace_border"@,
        "active_workspace_bg"@ != "urgent_workspace_text"@,
        "active_workspace_bg"@ != "urgent_workspace_bg"@,
        "active_workspace_bg"@ != "urgent_workspace_border"@,
        "active_workspace_bg"@ != "binding_mode_text"@,
        "active_workspace_bg"@ != "binding_mode_bg"@,
        "active_workspace_bg"@ != "binding_mode_border"@,
        "active_workspace_border"@ != "inactive_workspace_text"@,
        "active_workspace_border"@ != "inactive_workspace_bg"@,
        "active_workspace_border"@ != "inactive_workspace_border"@,
        "active_workspace_border"@ != "urgent_workspace_text"@,
        "active_workspace_border"@ != "urgent_workspace_bg"@,
        "active_workspace_border"@ != "urgent_workspace_border"@,
        "active_workspace_border"@ != "binding_mode_text"@,
        "active_workspace_border"@ != "binding_mode_bg"@,
        "active_workspace_border"@ != "binding_mode_border"@,
        "inactive_workspace_text"@ != "inactive_workspace_bg"@,
        "inactive_workspace_text"@ != "inactive_workspace_border"@,
        "inactive_workspace_text"@ != "urgent_workspace_text"@,
        "inactive_workspace_text"@ != "urgent_workspace_bg"@,
        "inactive_workspace_text"@ != "urgent_workspace_border"@,
        "inactive_workspace_text"@ != "binding_mode_text"@,
        "inactive_workspace_text"@ != "binding_mode_bg"@,
        "inactive_workspace_text"@ != "binding_mode_border"@,
        "inactive_workspace_bg"@ != "inactive_workspace_border"@,
        "inactive_workspace_bg"@ != "urgent_workspace_text"@,
        "inactive_workspace_bg"@ != "urgent_workspace_bg"@,
        "inactive_workspace_bg"@ != "urgent_workspace_border"@,
        "inactive_workspace_bg"@ != "binding_mode_text"@,
        "inactive_workspace_bg"@ != "binding_mode_bg"@,
        "inactive_workspace_bg"@ != "binding_mode_border"@,
        "inactive_workspace_border"@ != "urgent_workspace_text"@,
        "inactive_workspace_border"@ != "urgent_workspace_bg"@,
        "inactive_workspace_border"@ != "urgent_workspace_border"@,
        "inactive_workspace_border"@ != "binding_mode_text"@,
        "inactive_workspace_border"@ != "binding_mode_bg"@,
        "inactive_workspace_border"@ != "binding_mode_border"@,
        "urgent_workspace_text"@ != "urgent_workspace_bg"@,
        "urgent_workspace_text"@ != "urgent_workspace_border"@,
        "urgent_workspace_text"@ != "binding_mode_text"@,
        "urgent_workspace_text"@ != "binding_mode_bg"@,
        "urgent_workspace_text"@ != "binding_mode_border"@,
        "urgent_workspace_bg"@ != "urgent_workspace_border"@,
        "urgent_workspace_bg"@ != "binding_mode_text"@,
        "urgent_workspace_bg"@ != "binding_mode_bg"@,
        "urgent_workspace_bg"@ != "binding_mode_border"@,
        "urgent_workspace_border"@ != "binding_mode_text"@,
        "urgent_workspace_border"@ != "binding_mode_bg"@,
        "urgent_workspace_border"@ != "binding_mode_border"@,
        "binding_mode_text"@ != "binding_mode_bg"@,
        "binding_mode_text"@ != "binding_mode_border"@,
        "binding_mode_bg"@ != "binding_mode_border"@,
{
    reveal_strlit("background");
    reveal_strlit("statusline");
    reveal_strlit("separator");
    reveal_strlit("focused_background");
    reveal_strlit("focused_statusline");
    reveal_strlit("focused_separator");
    reveal_strlit("focused_workspace_text");
    reveal_strlit("focused_workspace_bg");
    reveal_strlit("focused_workspace_border");
    reveal_strlit("active_workspace_text");
    reveal_strlit("active_workspace_bg");
    reveal_strlit("active_workspace_border");
    reveal_strlit("inactive_workspace_text");
    reveal_strlit("inactive_workspace_bg");
    reveal_strlit("inactive_workspace_border");
    reveal_strlit("urgent_workspace_text");
    reveal_strlit("urgent_workspace_bg");
    reveal_strlit("urgent_workspace_border");
    reveal_strlit("binding_mode_text");
    reveal_strlit("binding_mode_bg");
    reveal_strlit("binding_mode_border");
    assert("background"@.len() == 10);
    assert("statusline"@.len() == 10);
    assert("separator"@.len() == 9);
    assert("focused_background"@.len() == 18);
    assert("focused_statusline"@.len() == 18);
    assert("focused_separator"@.len() == 17);
    assert("focused_workspace_text"@.len() == 22);
    assert("focused_workspace_bg"@.len() == 20);
    assert("focused_workspace_border"@.len() == 24);
    assert("active_workspace_text"@.len() == 21);
    assert("active_workspace_bg"@.len() == 19);
    assert("active_workspace_border"@.len() == 23);
    assert("inactive_workspace_text"@.len() == 23);
    assert("inactive_workspace_bg"@.len() == 21);
    assert("inactive_workspace_border"@.len() == 25);
    assert("urgent_workspace_text"@.len() == 21);
    assert("urgent_workspace_bg"@.len() == 19);
    assert("urgent_workspace_border"@.len() == 23);
    assert("binding_mode_text"@.len() == 17);
    assert("binding_mode_bg"@.len() == 15);
    assert("binding_mode_border"@.len() == 19);
    assert("background"@[0] == 'b');
    assert("statusline"@[0] == 's');
    assert("focused_background"@[8] == 'b');
    assert("focused_statusline"@[8] == 's');
    assert("focused_separator"@[0] == 'f');
    assert("active_workspace_text"@[0] == 'a');
    assert("active_workspace_bg"@[0] == 'a');
    assert("active_workspace_border"@[0] == 'a');
    assert("inactive_workspace_text"@[0] == 'i');
    assert("inactive_workspace_bg"@[0] == 'i');
    assert("urgent_workspace_text"@[0] == 'u');
    assert("urgent_workspace_bg"@[0] == 'u');
    assert("urgent_workspace_border"@[0] == 'u');
    assert("binding_mode_text"@[0] == 'b');
    assert("binding_mode_border"@[0] == 'b');
}

/// Each documented name of a part of a bar stands for the one of that name, and
/// nothing else does; any other name stands for one that is not documented.
pub proof fn bar_part_is_what_it_is_called(name: &str, r: ColorableBarPart)
    requires
        call_ensures(ColorableBarPart::from_name, (name,), r),
    ensures
        name@ == "background"@ <==> r == ColorableBarPart::Background,
        name@ == "statusline"@ <==> r == ColorableBarPart::Statusline,
        name@ == "separator"@ <==> r == ColorableBarPart::Separator,
        name@ == "focused_background"@ <==> r == ColorableBarPart::FocusedBackground,
        name@ == "focused_statusline"@ <==> r == ColorableBarPart::FocusedStatusline,
        name@ == "focused_separator"@ <==> r == ColorableBarPart::FocusedSeparator,
        name@ == "focused_workspace_text"@ <==> r == ColorableBarPart::FocusedWorkspaceText,
        name@ == "focused_workspace_bg"@ <==> r == ColorableBarPart::FocusedWorkspaceBg,
        name@ == "focused_workspace_border"@ <==> r == ColorableBarPart::FocusedWorkspaceBorder,
        name@ == "active_workspace_text"@ <==> r == ColorableBarPart::ActiveWorkspaceText,
        name@ == "active_workspace_bg"@ <==> r == ColorableBarPart::ActiveWorkspaceBg,
        name@ == "active_workspace_border"@ <==> r == ColorableBarPart::ActiveWorkspaceBorder,
        name@ == "inactive_workspace_text"@ <==> r == ColorableBarPart::InactiveWorkspaceText,
        name@ == "inactive_workspace_bg"@ <==> r == ColorableBarPart::InactiveWorkspaceBg,
        name@ == "inactive_workspace_border"@ <==> r == ColorableBarPart::InactiveWorkspaceBorder,
        name@ == "urgent_workspace_text"@ <==> r == ColorableBarPart::UrgentWorkspaceText,
        name@ == "urgent_workspace_bg"@ <==> r == ColorableBarPart::UrgentWorkspaceBg,
        name@ == "urgent_workspace_border"@ <==> r == ColorableBarPart::UrgentWorkspaceBorder,
        name@ == "binding_mode_text"@ <==> r == ColorableBarPart::BindingModeText,
        name@ == "binding_mode_bg"@ <==> r == ColorableBarPart::BindingModeBg,
        name@ == "binding_mode_border"@ <==> r == ColorableBarPart::BindingModeBorder,
        name@ != "background"@
            && name@ != "statusline"@
            && name@ != "separator"@
            && name@ != "focused_background"@
            && name@ != "focused_statusline"@
            && name@ != "focused_separator"@
            && name@ != "focused_workspace_text"@
            && name@ != "focused_workspace_bg"@
            && name@ != "focused_workspace_border"@
            && name@ != "active_workspace_text"@
            && name@ != "active_workspace_bg"@
            && name@ != "active_workspace_border"@
            && name@ != "inactive_workspace_text"@
            && name@ != "inactive_workspace_bg"@
            && name@ != "inactive_workspace_border"@
            && name@ != "urgent_workspace_text"@
            && name@ != "urgent_workspace_bg"@
            && name@ != "urgent_workspace_border"@
            && name@ != "binding_mode_text"@
            && name@ != "binding_mode_bg"@
            && name@ != "binding_mode_border"@ <==> r == ColorableBarPart::Undocumented,
{
    bar_part_names_differ();
}

/// Two different documented names never stand for the same part of a bar.
pub proof fn bar_part_tells_names_apart(a: &str, ra: ColorableBarPart, b: &str,
    rb: ColorableBarPart)
    requires
        call_ensures(ColorableBarPart::from_name, (a,), ra),
        call_ensures(ColorableBarPart::from_name, (b,), rb),
        a@ != b@,
    ensures
        ra == rb ==> ra == ColorableBarPart::Undocumented,
{
}

/// The documented names differ.
pub proof fn workspace_change_names_differ()
    ensures
        "focus"@ != "init"@,
        "focus"@ != "empty"@,
        "focus"@ != "urgent"@,
        "focus"@ != "rename"@,
        "focus"@ != "reload"@,
        "focus"@ != "restored"@,
        "focus"@ != "move"@,
        "init"@ != "empty"@,
        "init"@ != "urgent"@,
        "init"@ != "rename"@,
        "init"@ != "reload"@,
        "init"@ != "restored"@,
        "init"@ != "move"@,
        "empty"@ != "urgent"@,
        "empty"@ != "rename"@,
        "empty"@ != "reload"@,
        "empty"@ != "restored"@,
        "empty"@ != "move"@,
        "urgent"@ != "rename"@,
        "urgent"@ != "reload"@,
        "urgent"@ != "restored"@,
        "urgent"@ != "move"@,
        "rename"@ != "reload"@,
        "rename"@ != "restored"@,
        "rename"@ != "move"@,
        "reload"@ != "restored"@,
        "reload"@ != "move"@,
        "restored"@ != "move"@,
{
    reveal_strlit("focus");
    reveal_strlit("init");
    reveal_strlit("empty");
    reveal_strlit("urgent");
    reveal_strlit("rename");
    reveal_strlit("reload");
    reveal_strlit("restored");
    reveal_strlit("move");
    assert("focus"@.len() == 5);
    assert("init"@.len() == 4);
    assert("empty"@.len() == 5);
    assert("urgent"@.len() == 6);
    assert("rename"@.len() == 6);
    assert("reload"@.len() == 6);
    assert("restored"@.len() == 8);
    assert("move"@.len() == 4);
    assert("focus"@[0] == 'f');
    assert("init"@[0] == 'i');
    assert("empty"@[0] == 'e');
    assert("urgent"@[0] == 'u');
    assert("rename"@[0] == 'r');
    assert("rename"@[2] == 'n');
    assert("reload"@[0] == 'r');
    assert("reload"@[2] == 'l');
    assert("move"@[0] == 'm');
}

/// Each documented name of a change of a workspace stands for the one of that name, and
/// nothing else does; any other name stands for one that is not documented.
pub proof fn workspace_change_is_what_it_is_called(name: &str, r: WorkspaceChange)
    requires
        call_ensures(WorkspaceChange::from_name, (name,), r),
    ensures
        name@ == "focus"@ <==> r == WorkspaceChange::Focus,
        name@ == "init"@ <==> r == WorkspaceChange::Init,
        name@ == "empty"@ <==> r == WorkspaceChange::Empty,
        name@ == "urgent"@ <==> r == WorkspaceChange::Urgent,
        name@ == "rename"@ <==> r == WorkspaceChange::Rename,
        name@ == "reload"@ <==> r == WorkspaceChange::Reload,
        name@ == "restored"@ <==> r == WorkspaceChange::Restored,
        name@ == "move"@ <==> r == WorkspaceChange::Move,
        name@ != "focus"@
            && name@ != "init"@
            && name@ != "empty"@
            && name@ != "urgent"@
            && name@ != "rename"@
            && name@ != "reload"@
            && name@ != "restored"@
            && name@ != "move"@ <==> r == WorkspaceChange::Unknown,
{
    workspace_change_names_differ();
}

/// Two different documented names never stand for the same change of a workspace.
pub proof fn workspace_change_tells_names_apart(a: &str, ra: WorkspaceChange, b: &str,
    rb: WorkspaceChange)
    requires
        call_ensures(WorkspaceChange::from_name, (a,), ra),
        call_ensures(WorkspaceChange::from_name, (b,), rb),
        a@ != b@,
    ensures
        ra == rb ==> ra == WorkspaceChange::Unknown,
{
}

/// Each documented name of a change of an output stands for the one of that name, and
/// nothing else does; any other name stands for one that is not documented.
pub proof fn output_change_is_what_it_is_called(name: &str, r: OutputChange)
    requires
        call_ensures(OutputChange::from_name, (name,), r),
    ensures
        name@ == "unspecified"@ <==> r == OutputChange::Unspecified,
        name@ != "unspecified"@ <==> r == OutputChange::Unknown,
{
}

/// The documented names differ.
pub proof fn window_change_names_differ()
    ensures
        "new"@ != "close"@,
        "new"@ != "focus"@,
        "new"@ != "title"@,
        "new"@ != "fullscreen_mode"@,
        "new"@ != "move"@,
        "new"@ != "floating"@,
        "new"@ != "urgent"@,
        "new"@ != "mark"@,
        "close"@ != "focus"@,
        "close"@ != "title"@,
        "close"@ != "fullscreen_mode"@,
        "close"@ != "move"@,
        "close"@ != "floating"@,
        "close"@ != "urgent"@,
        "close"@ != "mark"@,
        "focus"@ != "title"@,
        "focus"@ != "fullscreen_mode"@,
        "focus"@ != "move"@,
        "focus"@ != "floating"@,
        "focus"@ != "urgent"@,
        "focus"@ != "mark"@,
        "title"@ != "fullscreen_mode"@,
        "title"@ != "move"@,
        "title"@ != "floating"@,
        "title"@ != "urgent"@,
        "title"@ != "mark"@,
        "fullscreen_mode"@ != "move"@,
        "fullscreen_mode"@ != "floating"@,
        "fullscreen_mode"@ != "urgent"@,
        "fullscreen_mode"@ != "mark"@,
        "move"@ != "floating"@,
        "move"@ != "urgent"@,
        "move"@ != "mark"@,
        "floating"@ != "urgent"@,
        "floating"@ != "mark"@,
        "urgent"@ != "mark"@,
{
    reveal_strlit("new");
    reveal_strlit("close");
    reveal_strlit("focus");
    reveal_strlit("title");
    reveal_strlit("fullscreen_mode");
    reveal_strlit("move");
    reveal_strlit("floating");
    reveal_strlit("urgent");
    reveal_strlit("mark");
    assert("new"@.len() == 3);
    assert("close"@.len() == 5);
    assert("focus"@.len() == 5);
    assert("title"@.len() == 5);
    assert("fullscreen_mode"@.len() == 15);
    assert("move"@.len() == 4);
    assert("floating"@.len() == 8);
    assert("urgent"@.len() == 6);
    assert("mark"@.len() == 4);
    assert("close"@[0] == 'c');
    assert("focus"@[0] == 'f');
    assert("title"@[0] == 't');
    assert("move"@[1] == 'o');
    assert("mark"@[1] == 'a');
}

/// Each documented name of a change of a window stands for the one of that name, and
/// nothing else does; any other name stands for one that is not documented.
pub proof fn window_change_is_what_it_is_called(name: &str, r: WindowChange)
    requires
        call_ensures(WindowChange::from_name, (name,), r),
    ensures
        name@ == "new"@ <==> r == WindowChange::New,
        name@ == "close"@ <==> r == WindowChange::Close,
        name@ == "focus"@ <==> r == WindowChange::Focus,
        name@ == "title"@ <==> r == WindowChange::Title,
        name@ == "fullscreen_mode"@ <==> r == WindowChange::FullscreenMode,
        name@ == "move"@ <==> r == WindowChange::Move,
        name@ == "floating"@ <==> r == WindowChange::Floating,
        name@ == "urgent"@ <==> r == WindowChange::Urgent,
        name@ == "mark"@ <==> r == WindowChange::Mark,
        name@ != "new"@
            && name@ != "close"@
            && name@ != "focus"@
            && name@ != "title"@
            && name@ != "fullscreen_mode"@
            && name@ != "move"@
            && name@ != "floating"@
            && name@ != "urgent"@
            && name@ != "mark"@ <==> r == WindowChange::Unknown,
{
    window_change_names_differ();
}

/// Two different documented names never stand for the same change of a window.
pub proof fn window_change_tells_names_apart(a: &str, ra: WindowChange, b: &str, rb: WindowChange)
    requires
        call_ensures(WindowChange::from_name, (a,), ra),
        call_ensures(WindowChange::from_name, (b,), rb),
        a@ != b@,
    ensures
        ra == rb ==> ra == WindowChange::Unknown,
{
}

/// Each documented name of a change of a binding stands for the one of that name, and
/// nothing else does; any other name stands for one that is not documented.
pub proof fn binding_change_is_what_it_is_called(name: &str, r: BindingChange)
    requires
        call_ensures(BindingChange::from_name, (name,), r),
    ensures
        name@ == "run"@ <==> r == BindingChange::Run,
        name@ != "run"@ <==> r == BindingChange::Unknown,
{
}

/// The documented names differ.
pub proof fn input_type_names_differ()
    ensures
        "keyboard"@ != "mouse"@,
{
    reveal_strlit("keyboard");
    reveal_strlit("mouse");
    assert("keyboard"@.len() == 8);
    assert("mouse"@.len() == 5);
}

/// Each documented name of an input device stands for the one of that name, and
/// nothing else does; any other name stands for one that is not documented.
pub proof fn input_type_is_what_it_is_called(name: &str, r: InputType)
    requires
        call_ensures(InputType::from_name, (name,), r),
    ensures
        name@ == "keyboard"@ <==> r == InputType::Keyboard,
        name@ == "mouse"@ <==> r == InputType::Mouse,
        name@ != "keyboard"@
            && name@ != "mouse"@ <==> r == InputType::Unknown,
{
    input_type_names_differ();
}

/// Two different documented names never stand for the same input device.
pub proof fn input_type_tells_names_apart(a: &str, ra: InputType, b: &str, rb: InputType)
    requires
        call_ensures(InputType::from_name, (a,), ra),
        call_ensures(InputType::from_name, (b,), rb),
        a@ != b@,
    ensures
        ra == rb ==> ra == InputType::Unknown,
{
}

/// The documented names differ.
pub proof fn shutdown_change_names_differ()
    ensures
        "restart"@ != "exit"@,
{
    reveal_strlit("restart");
    reveal_strlit("exit");
    assert("restart"@.len() == 7);
    assert("exit"@.len() == 4);
}

/// Each documented name of a reason to shut down stands for the one of that name, and
/// nothing else does; any other name stands for one that is not documented.
pub proof fn shutdown_change_is_what_it_is_called(name: &str, r: ShutdownChange)
    requires
        call_ensures(ShutdownChange::from_name, (name,), r),
    ensures
        name@ == "restart"@ <==> r == ShutdownChange::Restart,
        name@ == "exit"@ <==> r == ShutdownChange::Exit,
        name@ != "restart"@
            && name@ != "exit"@ <==> r == ShutdownChange::Unknown,
{
    shutdown_change_names_differ();
}

/// Two different documented names never stand for the same reason to shut down.
pub proof fn shutdown_change_tells_names_apart(a: &str, ra: ShutdownChange, b: &str,
    rb: ShutdownChange)
    requires
        call_ensures(ShutdownChange::from_name, (a,), ra),
        call_ensures(ShutdownChange::from_name, (b,), rb),
        a@ != b@,
    ensures
        ra == rb ==> ra == ShutdownChange::Unknown,
{
}

} // verus!
