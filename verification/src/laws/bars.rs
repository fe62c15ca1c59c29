//! What the configuration of a bar says, of what i3 replied.

use vstd::prelude::*;

use crate::bar::{BarConfig, ColorableBarPart};
use crate::decode::Decode;
use crate::json::{Json, Tree};
use crate::laws::documents::{found_is_member, has_bool, has_member, has_text};
use crate::laws::names::bar_part_names_differ;

verus! {

/// Whether there is an object of this name that holds texts.
pub open spec fn has_texts(tree: Tree, name: Seq<char>) -> bool {
    exists|entries: Seq<(Seq<char>, Tree)>| #[trigger]
        has_member(tree, name, Tree::Object(entries)) && forall|i: int|
            0 <= i < entries.len() ==> (#[trigger] entries[i]).1 is String
}

/// Whether `part` is the one that is called `name`. One that is not documented is called by none of
/// the documented names.
pub open spec fn is_called(part: ColorableBarPart, name: Seq<char>) -> bool {
    &&& part == ColorableBarPart::Background <==> name == "background"@
    &&& part == ColorableBarPart::Statusline <==> name == "statusline"@
    &&& part == ColorableBarPart::Separator <==> name == "separator"@
    &&& part == ColorableBarPart::FocusedBackground <==> name == "focused_background"@
    &&& part == ColorableBarPart::FocusedStatusline <==> name == "focused_statusline"@
    &&& part == ColorableBarPart::FocusedSeparator <==> name == "focused_separator"@
    &&& part == ColorableBarPart::FocusedWorkspaceText <==> name == "focused_workspace_text"@
    &&& part == ColorableBarPart::FocusedWorkspaceBg <==> name == "focused_workspace_bg"@
    &&& part == ColorableBarPart::FocusedWorkspaceBorder <==> name == "focused_workspace_border"@
    &&& part == ColorableBarPart::ActiveWorkspaceText <==> name == "active_workspace_text"@
    &&& part == ColorableBarPart::ActiveWorkspaceBg <==> name == "active_workspace_bg"@
    &&& part == ColorableBarPart::ActiveWorkspaceBorder <==> name == "active_workspace_border"@
    &&& part == ColorableBarPart::InactiveWorkspaceText <==> name == "inactive_workspace_text"@
    &&& part == ColorableBarPart::InactiveWorkspaceBg <==> name == "inactive_workspace_bg"@
    &&& part == ColorableBarPart::InactiveWorkspaceBorder <==> name == "inactive_workspace_border"@
    &&& part == ColorableBarPart::UrgentWorkspaceText <==> name == "urgent_workspace_text"@
    &&& part == ColorableBarPart::UrgentWorkspaceBg <==> name == "urgent_workspace_bg"@
    &&& part == ColorableBarPart::UrgentWorkspaceBorder <==> name == "urgent_workspace_border"@
    &&& part == ColorableBarPart::BindingModeText <==> name == "binding_mode_text"@
    &&& part == ColorableBarPart::BindingModeBg <==> name == "binding_mode_bg"@
    &&& part == ColorableBarPart::BindingModeBorder <==> name == "binding_mode_border"@
}

/// Whether `tree` is the configuration of a bar with all that i3 promises of it.
pub open spec fn has_bar_config(tree: Tree) -> bool {
    &&& has_text(tree, "id"@)
    &&& has_text(tree, "mode"@)
    &&& has_text(tree, "position"@)
    &&& has_text(tree, "status_command"@)
    &&& has_text(tree, "font"@)
    &&& has_bool(tree, "workspace_buttons"@)
    &&& has_bool(tree, "binding_mode_indicator"@)
    &&& has_bool(tree, "verbose"@)
    &&& has_texts(tree, "colors"@)
}

/// Whether `bar` is the configuration `tree`. It has as many colours as there are members of
/// "colors": colour `i` is the text of member `i`, for the part that this member names.
pub open spec fn is_bar_config(bar: BarConfig, tree: Tree) -> bool {
    &&& forall|text: Seq<char>| #[trigger]
        has_member(tree, "id"@, Tree::String(text)) ==> bar.id@ == text
    &&& forall|text: Seq<char>| #[trigger]
        has_member(tree, "mode"@, Tree::String(text)) ==> bar.mode@ == text
    &&& forall|text: Seq<char>| #[trigger]
        has_member(tree, "position"@, Tree::String(text)) ==> bar.position@ == text
    &&& forall|text: Seq<char>| #[trigger]
        has_member(tree, "status_command"@, Tree::String(text)) ==> bar.status_command@ == text
    &&& forall|text: Seq<char>| #[trigger]
        has_member(tree, "font"@, Tree::String(text)) ==> bar.font@ == text
    &&& forall|b: bool| #[trigger]
        has_member(tree, "workspace_buttons"@, Tree::Bool(b)) ==> bar.workspace_buttons == b
    &&& forall|b: bool| #[trigger]
        has_member(tree, "binding_mode_indicator"@, Tree::Bool(b))
            ==> bar.binding_mode_indicator == b
    &&& forall|b: bool| #[trigger]
        has_member(tree, "verbose"@, Tree::Bool(b)) ==> bar.verbose == b
    &&& forall|entries: Seq<(Seq<char>, Tree)>| #[trigger]
        has_member(tree, "colors"@, Tree::Object(entries)) ==> bar.colors@.len() == entries.len()
            && forall|i: int|
            0 <= i < entries.len() ==> (#[trigger] entries[i]).1 == Tree::String(bar.colors@[i].1@)
                && is_called(bar.colors@[i].0, entries[i].0)
}

/// What reading `tree` as the configuration of a bar comes to.
pub proof fn bar_config_members(tree: Tree)
    requires
        tree.is_unambiguous(),
    ensures
        BarConfig::readable(tree) <==> has_bar_config(tree),
        forall|bar: BarConfig| #[trigger] bar.reads(tree) ==> is_bar_config(bar, tree),
{
    found_is_member(tree, "id"@);
    found_is_member(tree, "mode"@);
    found_is_member(tree, "position"@);
    found_is_member(tree, "status_command"@);
    found_is_member(tree, "font"@);
    found_is_member(tree, "workspace_buttons"@);
    found_is_member(tree, "binding_mode_indicator"@);
    found_is_member(tree, "verbose"@);
    found_is_member(tree, "colors"@);
    bar_part_names_differ();
    if let Some(Tree::Object(entries)) = tree.get("colors"@) {
        assert(has_member(tree, "colors"@, Tree::Object(entries)));
        assert forall|bar: BarConfig| #[trigger] bar.reads(tree) implies is_bar_config(
            bar,
            tree,
        ) by {
            assert forall|i: int| 0 <= i < entries.len() implies (#[trigger] entries[i]).1
                == Tree::String(bar.colors@[i].1@) && is_called(
                bar.colors@[i].0,
                entries[i].0,
            ) by {
                assert(bar.colors@[i].0 == ColorableBarPart::named(entries[i].0));
            }
        }
    }
}

/// A configuration of a bar is read if its members are there, each of its kind. Each field is the
/// member of the same name.
pub proof fn bar_config_is_read(json: &Json, r: Option<BarConfig>)
    requires
        call_ensures(<BarConfig as Decode>::from_json, (json,), r),
        json@.is_unambiguous(),
    ensures
        r is Some <==> has_bar_config(json@),
        r matches Some(bar) ==> is_bar_config(bar, json@),
        r matches Some(bar) ==> forall|text: Seq<char>| #[trigger]
            has_member(json@, "id"@, Tree::String(text)) ==> bar.id@ == text,
        r matches Some(bar) ==> forall|text: Seq<char>| #[trigger]
            has_member(json@, "mode"@, Tree::String(text)) ==> bar.mode@ == text,
        r matches Some(bar) ==> forall|text: Seq<char>| #[trigger]
            has_member(json@, "position"@, Tree::String(text)) ==> bar.position@ == text,
        r matches Some(bar) ==> forall|text: Seq<char>| #[trigger]
            has_member(json@, "status_command"@, Tree::String(text))
                ==> bar.status_command@ == text,
        r matches Some(bar) ==> forall|text: Seq<char>| #[trigger]
            has_member(json@, "font"@, Tree::String(text)) ==> bar.font@ == text,
        r matches Some(bar) ==> forall|b: bool| #[trigger]
            has_member(json@, "workspace_buttons"@, Tree::Bool(b)) ==> bar.workspace_buttons == b,
        r matches Some(bar) ==> forall|b: bool| #[trigger]
            has_member(json@, "binding_mode_indicator"@, Tree::Bool(b))
                ==> bar.binding_mode_indicator == b,
        r matches Some(bar) ==> forall|b: bool| #[trigger]
            has_member(json@, "verbose"@, Tree::Bool(b)) ==> bar.verbose == b,
{
    bar_config_members(json@);
}

} // verus!
