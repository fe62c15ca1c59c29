//! What i3 replies to requests.

use vstd::prelude::*;

pub use crate::bar::{BarConfig, ColorableBarPart};
pub use crate::node::{Node, NodeBorder, NodeLayout, NodeType, WindowProperty};
pub use crate::rect::Rect;

use crate::decode::{
    all_read, all_readable, decode_all, decode_strings, strings_decoded, Decode, Reply,
};
use crate::error::DecodeError;
use crate::json::{text_of, texts, Json, Tree};
use crate::rect::{readable_rect_at, reads_rect_at, rect_at};

verus! {

/// The outcome of a single command.
#[derive(Debug)]
pub struct CommandOutcome {
    /// Whether the command was successful.
    pub success: bool,
    /// A human-readable error message, if there is one.
    pub error: Option<String>,
}

impl Decode for CommandOutcome {
    open spec fn readable(tree: Tree) -> bool {
        &&& tree.bool_at("success"@) is Some
        &&& tree.get("error"@) is Some ==> tree.str_at("error"@) is Some
    }

    open spec fn reads(self, tree: Tree) -> bool {
        &&& tree.bool_at("success"@) == Some(self.success)
        &&& tree.str_at("error"@) == text_of(self.error)
    }

    fn from_json(json: &Json) -> (r: Option<Self>) {
        let success = json.bool_at("success")?;
        let error = match json.get("error") {
            Some(_) => Some(json.string_at("error")?),
            None => None,
        };
        Some(CommandOutcome { success, error })
    }
}

/// The reply to `run_command`: an outcome for each of the commands that were run, in their order.
#[derive(Debug)]
pub struct Command {
    pub outcomes: Vec<CommandOutcome>,
}

impl Decode for Command {
    open spec fn readable(tree: Tree) -> bool {
        tree matches Tree::Array(items) && all_readable::<CommandOutcome>(items)
    }

    open spec fn reads(self, tree: Tree) -> bool {
        tree matches Tree::Array(items) && all_read(self.outcomes@, items)
    }

    fn from_json(json: &Json) -> (r: Option<Self>) {
        Some(Command { outcomes: decode_all(json.as_array()?)? })
    }
}

/// A workspace.
#[derive(Debug)]
pub struct Workspace {
    /// The logical number of the workspace, or -1 for a named workspace.
    pub num: i32,
    /// The name of the workspace.
    pub name: String,
    /// Whether this workspace is visible on an output.
    pub visible: bool,
    /// Whether this workspace has the focus. There is one such workspace at a time.
    pub focused: bool,
    /// Whether a window on this workspace has the urgent flag set.
    pub urgent: bool,
    /// Where this workspace is, which is where its output is.
    pub rect: Rect,
    /// The video output this workspace is on.
    pub output: String,
}

impl Decode for Workspace {
    open spec fn readable(tree: Tree) -> bool {
        &&& tree.i32_at("num"@) is Some
        &&& tree.str_at("name"@) is Some
        &&& tree.bool_at("visible"@) is Some
        &&& tree.bool_at("focused"@) is Some
        &&& tree.bool_at("urgent"@) is Some
        &&& readable_rect_at(tree, "rect"@)
        &&& tree.str_at("output"@) is Some
    }

    open spec fn reads(self, tree: Tree) -> bool {
        &&& tree.i32_at("num"@) == Some(self.num)
        &&& tree.str_at("name"@) == Some(self.name@)
        &&& tree.bool_at("visible"@) == Some(self.visible)
        &&& tree.bool_at("focused"@) == Some(self.focused)
        &&& tree.bool_at("urgent"@) == Some(self.urgent)
        &&& reads_rect_at(self.rect, tree, "rect"@)
        &&& tree.str_at("output"@) == Some(self.output@)
    }

    fn from_json(json: &Json) -> (r: Option<Self>) {
        Some(
            Workspace {
                num: json.i32_at("num")?,
                name: json.string_at("name")?,
                visible: json.bool_at("visible")?,
                focused: json.bool_at("focused")?,
                urgent: json.bool_at("urgent")?,
                rect: rect_at(json, "rect")?,
                output: json.string_at("output")?,
            },
        )
    }
}

/// The reply to `get_workspaces`: the workspaces, in the order i3 lists them.
#[derive(Debug)]
pub struct Workspaces {
    pub workspaces: Vec<Workspace>,
}

impl Decode for Workspaces {
    open spec fn readable(tree: Tree) -> bool {
        tree matches Tree::Array(items) && all_readable::<Workspace>(items)
    }

    open spec fn reads(self, tree: Tree) -> bool {
        tree matches Tree::Array(items) && all_read(self.workspaces@, items)
    }

    fn from_json(json: &Json) -> (r: Option<Self>) {
        Some(Workspaces { workspaces: decode_all(json.as_array()?)? })
    }
}

/// The reply to `subscribe`.
#[derive(Debug)]
pub struct Subscribe {
    /// Whether the subscription was successful.
    pub success: bool,
}

impl Decode for Subscribe {
    open spec fn readable(tree: Tree) -> bool {
        tree.bool_at("success"@) is Some
    }

    open spec fn reads(self, tree: Tree) -> bool {
        tree.bool_at("success"@) == Some(self.success)
    }

    fn from_json(json: &Json) -> (r: Option<Self>) {
        Some(Subscribe { success: json.bool_at("success")? })
    }
}

/// A video output.
#[derive(Debug)]
pub struct Output {
    /// The name of this output, as `xrandr` shows it.
    pub name: String,
    /// Whether this output has a valid mode.
    pub active: bool,
    /// Whether this is the primary output.
    pub primary: bool,
    /// The name of the workspace that is visible on this output, if the output is active.
    pub current_workspace: Option<String>,
    /// Where this output is.
    pub rect: Rect,
}

impl Decode for Output {
    open spec fn readable(tree: Tree) -> bool {
        &&& tree.str_at("name"@) is Some
        &&& tree.bool_at("active"@) is Some
        &&& tree.bool_at("primary"@) is Some
        &&& tree.get("current_workspace"@) matches Some(workspace) && (workspace is String
            || workspace is Null)
        &&& readable_rect_at(tree, "rect"@)
    }

    open spec fn reads(self, tree: Tree) -> bool {
        &&& tree.str_at("name"@) == Some(self.name@)
        &&& tree.bool_at("active"@) == Some(self.active)
        &&& tree.bool_at("primary"@) == Some(self.primary)
        &&& tree.str_at("current_workspace"@) == text_of(self.current_workspace)
        &&& reads_rect_at(self.rect, tree, "rect"@)
    }

    fn from_json(json: &Json) -> (r: Option<Self>) {
        let current_workspace = match json.get("current_workspace")? {
            Json::String(name) => Some(name.clone()),
            Json::Null => None,
            _ => {
                return None;
            },
        };
        Some(
            Output {
                name: json.string_at("name")?,
                active: json.bool_at("active")?,
                primary: json.bool_at("primary")?,
                current_workspace,
                rect: rect_at(json, "rect")?,
            },
        )
    }
}

/// The reply to `get_outputs`: the outputs, in the order i3 lists them.
#[derive(Debug)]
pub struct Outputs {
    pub outputs: Vec<Output>,
}

impl Decode for Outputs {
    open spec fn readable(tree: Tree) -> bool {
        tree matches Tree::Array(items) && all_readable::<Output>(items)
    }

    open spec fn reads(self, tree: Tree) -> bool {
        tree matches Tree::Array(items) && all_read(self.outputs@, items)
    }

    fn from_json(json: &Json) -> (r: Option<Self>) {
        Some(Outputs { outputs: decode_all(json.as_array()?)? })
    }
}

/// The reply to `get_marks`: identifiers of containers, to easily jump to them later.
#[derive(Debug)]
pub struct Marks {
    pub marks: Vec<String>,
}

impl Reply for Marks {
    open spec fn answers(text: Seq<char>, r: Result<Marks, DecodeError>) -> bool {
        strings_decoded(
            text,
            match r {
                Ok(reply) => Ok(texts(reply.marks@)),
                Err(e) => Err(e),
            },
        )
    }

    fn from_payload(text: &str) -> (r: Result<Marks, DecodeError>) {
        match decode_strings(text) {
            Ok(marks) => Ok(Marks { marks }),
            Err(e) => Err(e),
        }
    }
}

/// The reply to `get_bar_ids`: the ids of all configured bars.
#[derive(Debug)]
pub struct BarIds {
    pub ids: Vec<String>,
}

impl Reply for BarIds {
    open spec fn answers(text: Seq<char>, r: Result<BarIds, DecodeError>) -> bool {
        strings_decoded(
            text,
            match r {
                Ok(reply) => Ok(texts(reply.ids@)),
                Err(e) => Err(e),
            },
        )
    }

    fn from_payload(text: &str) -> (r: Result<BarIds, DecodeError>) {
        match decode_strings(text) {
            Ok(ids) => Ok(BarIds { ids }),
            Err(e) => Err(e),
        }
    }
}

/// The reply to `get_version`.
#[derive(Debug)]
pub struct Version {
    /// The major version of i3.
    pub major: i32,
    /// The minor version of i3.
    pub minor: i32,
    /// The patch version of i3.
    pub patch: i32,
    /// The version in a form for humans, with a commit and a branch where there are such.
    pub human_readable: String,
    /// The path of the configuration file that i3 loaded.
    pub loaded_config_file_name: String,
}

impl Decode for Version {
    open spec fn readable(tree: Tree) -> bool {
        &&& tree.i32_at("major"@) is Some
        &&& tree.i32_at("minor"@) is Some
        &&& tree.i32_at("patch"@) is Some
        &&& tree.str_at("human_readable"@) is Some
        &&& tree.str_at("loaded_config_file_name"@) is Some
    }

    open spec fn reads(self, tree: Tree) -> bool {
        &&& tree.i32_at("major"@) == Some(self.major)
        &&& tree.i32_at("minor"@) == Some(self.minor)
        &&& tree.i32_at("patch"@) == Some(self.patch)
        &&& tree.str_at("human_readable"@) == Some(self.human_readable@)
        &&& tree.str_at("loaded_config_file_name"@) == Some(self.loaded_config_file_name@)
    }

    fn from_json(json: &Json) -> (r: Option<Self>) {
        Some(
            Version {
                major: json.i32_at("major")?,
                minor: json.i32_at("minor")?,
                patch: json.i32_at("patch")?,
                human_readable: json.string_at("human_readable")?,
                loaded_config_file_name: json.string_at("loaded_config_file_name")?,
            },
        )
    }
}

/// The reply to `get_binding_modes`: the names of all configured binding modes.
#[derive(Debug)]
pub struct BindingModes {
    pub modes: Vec<String>,
}

impl Reply for BindingModes {
    open spec fn answers(text: Seq<char>, r: Result<BindingModes, DecodeError>) -> bool {
        strings_decoded(
            text,
            match r {
                Ok(reply) => Ok(texts(reply.modes@)),
                Err(e) => Err(e),
            },
        )
    }

    fn from_payload(text: &str) -> (r: Result<BindingModes, DecodeError>) {
        match decode_strings(text) {
            Ok(modes) => Ok(BindingModes { modes }),
            Err(e) => Err(e),
        }
    }
}

/// The reply to `get_config`.
#[derive(Debug)]
pub struct Config {
    /// The text of the configuration that was loaded last.
    pub config: String,
}

impl Decode for Config {
    open spec fn readable(tree: Tree) -> bool {
        tree.str_at("config"@) is Some
    }

    open spec fn reads(self, tree: Tree) -> bool {
        tree.str_at("config"@) == Some(self.config@)
    }

    fn from_json(json: &Json) -> (r: Option<Self>) {
        Some(Config { config: json.string_at("config")? })
    }
}

} // verus!
