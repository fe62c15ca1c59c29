//! The configuration of a workspace bar.

use vstd::prelude::*;

use crate::decode::Decode;
use crate::json::{named_trees, Json, Tree};
use crate::text::str_eq;

verus! {

/// A part of a bar that has a colour.
#[derive(Debug, Clone, Copy, PartialEq, Eq, Structural)]
pub enum ColorableBarPart {
    Background,
    Statusline,
    Separator,
    FocusedBackground,
    FocusedStatusline,
    FocusedSeparator,
    FocusedWorkspaceText,
    FocusedWorkspaceBg,
    FocusedWorkspaceBorder,
    ActiveWorkspaceText,
    ActiveWorkspaceBg,
    ActiveWorkspaceBorder,
    InactiveWorkspaceText,
    InactiveWorkspaceBg,
    InactiveWorkspaceBorder,
    UrgentWorkspaceText,
    UrgentWorkspaceBg,
    UrgentWorkspaceBorder,
    BindingModeText,
    BindingModeBg,
    BindingModeBorder,
    /// A part that is not documented.
    Undocumented,
}

impl ColorableBarPart {
    /// The part that i3 calls `name`.
    pub open spec fn named(name: Seq<char>) -> ColorableBarPart {
        if name == "background"@ {
            ColorableBarPart::Background
        } else if name == "statusline"@ {
            ColorableBarPart::Statusline
        } else if name == "separator"@ {
            ColorableBarPart::Separator
        } else if name == "focused_background"@ {
            ColorableBarPart::FocusedBackground
        } else if name == "focused_statusline"@ {
            ColorableBarPart::FocusedStatusline
        } else if name == "focused_separator"@ {
            ColorableBarPart::FocusedSeparator
        } else if name == "focused_workspace_text"@ {
            ColorableBarPart::FocusedWorkspaceText
        } else if name == "focused_workspace_bg"@ {
            ColorableBarPart::FocusedWorkspaceBg
        } else if name == "focused_workspace_border"@ {
            ColorableBarPart::FocusedWorkspaceBorder
        } else if name == "active_workspace_text"@ {
            ColorableBarPart::ActiveWorkspaceText
        } else if name == "active_workspace_bg"@ {
            ColorableBarPart::ActiveWorkspaceBg
        } else if name == "active_workspace_border"@ {
            ColorableBarPart::ActiveWorkspaceBorder
        } else if name == "inactive_workspace_text"@ {
            ColorableBarPart::InactiveWorkspaceText
        } else if name == "inactive_workspace_bg"@ {
            ColorableBarPart::InactiveWorkspaceBg
        } else if name == "inactive_workspace_border"@ {
            ColorableBarPart::InactiveWorkspaceBorder
        } else if name == "urgent_workspace_text"@ {
            ColorableBarPart::UrgentWorkspaceText
        } else if name == "urgent_workspace_bg"@ {
            ColorableBarPart::UrgentWorkspaceBg
        } else if name == "urgent_workspace_border"@ {
            ColorableBarPart::UrgentWorkspaceBorder
        } else if name == "binding_mode_text"@ {
            ColorableBarPart::BindingModeText
        } else if name == "binding_mode_bg"@ {
            ColorableBarPart::BindingModeBg
        } else if name == "binding_mode_border"@ {
            ColorableBarPart::BindingModeBorder
        } else {
            ColorableBarPart::Undocumented
        }
    }

    /// The part that i3 calls `name`.
    pub fn from_name(name: &str) -> (r: ColorableBarPart)
        ensures
            r == ColorableBarPart::named(name@),
    {
        if str_eq(name, "background") {
            ColorableBarPart::Background
        } else if str_eq(name, "statusline") {
            ColorableBarPart::Statusline
        } else if str_eq(name, "separator") {
            ColorableBarPart::Separator
        } else if str_eq(name, "focused_background") {
            ColorableBarPart::FocusedBackground
        } else if str_eq(name, "focused_statusline") {
            ColorableBarPart::FocusedStatusline
        } else if str_eq(name, "focused_separator") {
            ColorableBarPart::FocusedSeparator
        } else if str_eq(name, "focused_workspace_text") {
            ColorableBarPart::FocusedWorkspaceText
        } else if str_eq(name, "focused_workspace_bg") {
            ColorableBarPart::FocusedWorkspaceBg
        } else if str_eq(name, "focused_workspace_border") {
            ColorableBarPart::FocusedWorkspaceBorder
        } else if str_eq(name, "active_workspace_text") {
            ColorableBarPart::ActiveWorkspaceText
        } else if str_eq(name, "active_workspace_bg") {
            ColorableBarPart::ActiveWorkspaceBg
        } else if str_eq(name, "active_workspace_border") {
            ColorableBarPart::ActiveWorkspaceBorder
        } else if str_eq(name, "inactive_workspace_text") {
            ColorableBarPart::InactiveWorkspaceText
        } else if str_eq(name, "inactive_workspace_bg") {
            ColorableBarPart::InactiveWorkspaceBg
        } else if str_eq(name, "inactive_workspace_border") {
            ColorableBarPart::InactiveWorkspaceBorder
        } else if str_eq(name, "urgent_workspace_text") {
            ColorableBarPart::UrgentWorkspaceText
        } else if str_eq(name, "urgent_workspace_bg") {
            ColorableBarPart::UrgentWorkspaceBg
        } else if str_eq(name, "urgent_workspace_border") {
            ColorableBarPart::UrgentWorkspaceBorder
        } else if str_eq(name, "binding_mode_text") {
            ColorableBarPart::BindingModeText
        } else if str_eq(name, "binding_mode_bg") {
            ColorableBarPart::BindingModeBg
        } else if str_eq(name, "binding_mode_border") {
            ColorableBarPart::BindingModeBorder
        } else {
            ColorableBarPart::Undocumented
        }
    }
}

/// Whether the member "colors" gives a colour to each of its parts.
pub open spec fn colors_described(tree: Tree) -> bool {
    tree.get("colors"@) matches Some(Tree::Object(entries)) && forall|i: int|
        0 <= i < entries.len() ==> (#[trigger] entries[i]).1.as_str() is Some
}

/// Whether `colors` are the parts in the member "colors", each with its colour.
pub open spec fn colors_read(colors: Seq<(ColorableBarPart, String)>, tree: Tree) -> bool {
    tree.get("colors"@) matches Some(Tree::Object(entries)) && {
        &&& colors.len() == entries.len()
        &&& forall|i: int|
            0 <= i < colors.len() ==> (#[trigger] colors[i]).0 == ColorableBarPart::named(
                entries[i].0,
            ) && entries[i].1.as_str() == Some(colors[i].1@)
    }
}

/// The parts in the member "colors", each with its colour.
fn colors_of(json: &Json) -> (r: Option<Vec<(ColorableBarPart, String)>>)
    ensures
        r is Some <==> colors_described(json@),
        r matches Some(colors) ==> colors_read(colors@, json@),
{
    let entries = json.get("colors")?.as_object()?;
    let mut colors: Vec<(ColorableBarPart, String)> = Vec::new();
    let mut i: usize = 0;
    while i < entries.len()
        invariant
            i <= entries@.len(),
            json@.get("colors"@) == Some(Tree::Object(named_trees(entries@))),
            colors@.len() == i,
            forall|k: int|
                0 <= k < i ==> (#[trigger] colors@[k]).0 == ColorableBarPart::named(
                    named_trees(entries@)[k].0,
                ) && named_trees(entries@)[k].1.as_str() == Some(colors@[k].1@),
            forall|k: int| 0 <= k < i ==> (#[trigger] named_trees(entries@)[k]).1.as_str() is Some,
        decreases entries@.len() - i,
    {
        assert(named_trees(entries@)[i as int] == (entries@[i as int].0@, entries@[i as int].1@));
        let part = ColorableBarPart::from_name(entries[i].0.as_str());
        colors.push((part, entries[i].1.as_str()?.to_owned()));
        i += 1;
    }
    Some(colors)
}

/// The reply to `get_bar_config`.
#[derive(Debug)]
pub struct BarConfig {
    /// The id of this bar.
    pub id: String,
    /// Either "dock" (the bar sets the dock window type) or "hide" (it does not show unless a
    /// key is pressed).
    pub mode: String,
    /// Either "bottom" or "top".
    pub position: String,
    /// The command that is run to generate the status line.
    pub status_command: String,
    /// The font for text on the bar.
    pub font: String,
    /// Whether workspace buttons are displayed.
    pub workspace_buttons: bool,
    /// Whether the mode indicator is displayed.
    pub binding_mode_indicator: bool,
    /// Whether the bar is verbose, for debugging.
    pub verbose: bool,
    /// The colours, each with the part that has it.
    pub colors: Vec<(ColorableBarPart, String)>,
}

impl Decode for BarConfig {
    open spec fn readable(tree: Tree) -> bool {
        &&& tree.str_at("id"@) is Some
        &&& tree.str_at("mode"@) is Some
        &&& tree.str_at("position"@) is Some
        &&& tree.str_at("status_command"@) is Some
        &&& tree.str_at("font"@) is Some
        &&& tree.bool_at("workspace_buttons"@) is Some
        &&& tree.bool_at("binding_mode_indicator"@) is Some
        &&& tree.bool_at("verbose"@) is Some
        &&& colors_described(tree)
    }

    open spec fn reads(self, tree: Tree) -> bool {
        &&& tree.str_at("id"@) == Some(self.id@)
        &&& tree.str_at("mode"@) == Some(self.mode@)
        &&& tree.str_at("position"@) == Some(self.position@)
        &&& tree.str_at("status_command"@) == Some(self.status_command@)
        &&& tree.str_at("font"@) == Some(self.font@)
        &&& tree.bool_at("workspace_buttons"@) == Some(self.workspace_buttons)
        &&& tree.bool_at("binding_mode_indicator"@) == Some(self.binding_mode_indicator)
        &&& tree.bool_at("verbose"@) == Some(self.verbose)
        &&& colors_read(self.colors@, tree)
    }

    fn from_json(json: &Json) -> (r: Option<Self>) {
        Some(
            BarConfig {
                id: json.string_at("id")?,
                mode: json.string_at("mode")?,
                position: json.string_at("position")?,
                status_command: json.string_at("status_command")?,
                font: json.string_at("font")?,
                workspace_buttons: json.bool_at("workspace_buttons")?,
                binding_mode_indicator: json.bool_at("binding_mode_indicator")?,
                verbose: json.bool_at("verbose")?,
                colors: colors_of(json)?,
            },
        )
    }
}

} // verus!
