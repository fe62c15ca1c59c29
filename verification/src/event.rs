//! Events that i3 sends to those who subscribed to them.

use vstd::prelude::*;

use crate::bar::BarConfig;
use crate::decode::{
    all_read, all_readable, decode, decode_all, decoded, read_document, Decode,
};
use crate::error::DecodeError;
use crate::json::{parsed, text_of, Json, Tree};
use crate::node::Node;
use crate::text::str_eq;

verus! {

/// Whether the member `key` describes a node, is null or is missing.
pub open spec fn node_described(tree: Tree, key: Seq<char>) -> bool {
    match tree.get(key) {
        Some(value) => value is Null || Node::described(value),
        None => true,
    }
}

/// Whether `node` is the one that the member `key` describes, or none if it is null or missing.
pub open spec fn node_read(node: Option<Node>, tree: Tree, key: Seq<char>) -> bool {
    match tree.get(key) {
        Some(value) => if value is Null {
            node is None
        } else {
            node is Some && node->Some_0.shows(value)
        },
        None => node is None,
    }
}

/// The node that the member `key` describes, or none if it is null or missing.
fn node_at(json: &Json, key: &str) -> (r: Option<Option<Node>>)
    ensures
        r is Some <==> node_described(json@, key@),
        r matches Some(node) ==> node_read(node, json@, key@),
{
    match json.get(key) {
        None => Some(None),
        Some(Json::Null) => Some(None),
        Some(value) => Some(Some(Node::build_tree(value)?)),
    }
}

/// What happened to a workspace.
#[derive(Debug, Clone, Copy, PartialEq, Eq, Structural)]
pub enum WorkspaceChange {
    Focus,
    Init,
    Empty,
    Urgent,
    Rename,
    Reload,
    Restored,
    Move,
    /// A change that is not documented.
    Unknown,
}

impl WorkspaceChange {
    /// The change that i3 calls `name`.
    pub open spec fn named(name: Seq<char>) -> WorkspaceChange {
        if name == "focus"@ {
            WorkspaceChange::Focus
        } else if name == "init"@ {
            WorkspaceChange::Init
        } else if name == "empty"@ {
            WorkspaceChange::Empty
        } else if name == "urgent"@ {
            WorkspaceChange::Urgent
        } else if name == "rename"@ {
            WorkspaceChange::Rename
        } else if name == "reload"@ {
            WorkspaceChange::Reload
        } else if name == "restored"@ {
            WorkspaceChange::Restored
        } else if name == "move"@ {
            WorkspaceChange::Move
        } else {
            WorkspaceChange::Unknown
        }
    }

    /// The change that i3 calls `name`.
    pub fn from_name(name: &str) -> (r: WorkspaceChange)
        ensures
            r == WorkspaceChange::named(name@),
    {
        if str_eq(name, "focus") {
            WorkspaceChange::Focus
        } else if str_eq(name, "init") {
            WorkspaceChange::Init
        } else if str_eq(name, "empty") {
            WorkspaceChange::Empty
        } else if str_eq(name, "urgent") {
            WorkspaceChange::Urgent
        } else if str_eq(name, "rename") {
            WorkspaceChange::Rename
        } else if str_eq(name, "reload") {
            WorkspaceChange::Reload
        } else if str_eq(name, "restored") {
            WorkspaceChange::Restored
        } else if str_eq(name, "move") {
            WorkspaceChange::Move
        } else {
            WorkspaceChange::Unknown
        }
    }
}

/// A workspace changed.
#[derive(Debug)]
pub struct WorkspaceEventInfo {
    /// What happened.
    pub change: WorkspaceChange,
    /// The workspace, where the change affects one.
    pub current: Option<Node>,
    /// The workspace that had the focus before, where the change is one of focus.
    pub old: Option<Node>,
}

impl Decode for WorkspaceEventInfo {
    open spec fn readable(tree: Tree) -> bool {
        &&& tree.str_at("change"@) is Some
        &&& node_described(tree, "current"@)
        &&& node_described(tree, "old"@)
    }

    open spec fn reads(self, tree: Tree) -> bool {
        &&& tree.str_at("change"@) matches Some(name) && self.change == WorkspaceChange::named(name)
        &&& node_read(self.current, tree, "current"@)
        &&& node_read(self.old, tree, "old"@)
    }

    fn from_json(json: &Json) -> (r: Option<Self>) {
        Some(
            WorkspaceEventInfo {
                change: WorkspaceChange::from_name(json.get("change")?.as_str()?),
                current: node_at(json, "current")?,
                old: node_at(json, "old")?,
            },
        )
    }
}

impl WorkspaceEventInfo {
    /// What the payload `text` says.
    pub fn from_str(text: &str) -> (r: Result<WorkspaceEventInfo, DecodeError>)
        ensures
            decoded(parsed(text@), r),
    {
        decode(text)
    }
}

/// What happened to an output.
#[derive(Debug, Clone, Copy, PartialEq, Eq, Structural)]
pub enum OutputChange {
    Unspecified,
    /// A change that is not documented.
    Unknown,
}

impl OutputChange {
    /// The change that i3 calls `name`.
    pub open spec fn named(name: Seq<char>) -> OutputChange {
        if name == "unspecified"@ {
            OutputChange::Unspecified
        } else {
            OutputChange::Unknown
        }
    }

    /// The change that i3 calls `name`.
    pub fn from_name(name: &str) -> (r: OutputChange)
        ensures
            r == OutputChange::named(name@),
    {
        if str_eq(name, "unspecified") {
            OutputChange::Unspecified
        } else {
            OutputChange::Unknown
        }
    }
}

/// An output changed.
#[derive(Debug)]
pub struct OutputEventInfo {
    /// What happened.
    pub change: OutputChange,
}

impl Decode for OutputEventInfo {
    open spec fn readable(tree: Tree) -> bool {
        tree.str_at("change"@) is Some
    }

    open spec fn reads(self, tree: Tree) -> bool {
        tree.str_at("change"@) matches Some(name) && self.change == OutputChange::named(name)
    }

    fn from_json(json: &Json) -> (r: Option<Self>) {
        Some(OutputEventInfo { change: OutputChange::from_name(json.get("change")?.as_str()?) })
    }
}

impl OutputEventInfo {
    /// What the payload `text` says.
    pub fn from_str(text: &str) -> (r: Result<OutputEventInfo, DecodeError>)
        ensures
            decoded(parsed(text@), r),
    {
        decode(text)
    }
}

/// i3 changed its binding mode.
#[derive(Debug)]
pub struct ModeEventInfo {
    /// The name of the current mode: the one in the configuration, or "default".
    pub change: String,
}

impl Decode for ModeEventInfo {
    open spec fn readable(tree: Tree) -> bool {
        tree.str_at("change"@) is Some
    }

    open spec fn reads(self, tree: Tree) -> bool {
        tree.str_at("change"@) == Some(self.change@)
    }

    fn from_json(json: &Json) -> (r: Option<Self>) {
        Some(ModeEventInfo { change: json.string_at("change")? })
    }
}

impl ModeEventInfo {
    /// What the payload `text` says.
    pub fn from_str(text: &str) -> (r: Result<ModeEventInfo, DecodeError>)
        ensures
            decoded(parsed(text@), r),
    {
        decode(text)
    }
}

/// What happened to a window.
#[derive(Debug, Clone, Copy, PartialEq, Eq, Structural)]
pub enum WindowChange {
    New,
    Close,
    Focus,
    Title,
    FullscreenMode,
    Move,
    Floating,
    Urgent,
    Mark,
    /// A change that is not documented.
    Unknown,
}

impl WindowChange {
    /// The change that i3 calls `name`.
    pub open spec fn named(name: Seq<char>) -> WindowChange {
        if name == "new"@ {
            WindowChange::New
        } else if name == "close"@ {
            WindowChange::Close
        } else if name == "focus"@ {
            WindowChange::Focus
        } else if name == "title"@ {
            WindowChange::Title
        } else if name == "fullscreen_mode"@ {
            WindowChange::FullscreenMode
        } else if name == "move"@ {
            WindowChange::Move
        } else if name == "floating"@ {
            WindowChange::Floating
        } else if name == "urgent"@ {
            WindowChange::Urgent
        } else if name == "mark"@ {
            WindowChange::Mark
        } else {
            WindowChange::Unknown
        }
    }

    /// The change that i3 calls `name`.
    pub fn from_name(name: &str) -> (r: WindowChange)
        ensures
            r == WindowChange::named(name@),
    {
        if str_eq(name, "new") {
            WindowChange::New
        } else if str_eq(name, "close") {
            WindowChange::Close
        } else if str_eq(name, "focus") {
            WindowChange::Focus
        } else if str_eq(name, "title") {
            WindowChange::Title
        } else if str_eq(name, "fullscreen_mode") {
            WindowChange::FullscreenMode
        } else if str_eq(name, "move") {
            WindowChange::Move
        } else if str_eq(name, "floating") {
            WindowChange::Floating
        } else if str_eq(name, "urgent") {
            WindowChange::Urgent
        } else if str_eq(name, "mark") {
            WindowChange::Mark
        } else {
            WindowChange::Unknown
        }
    }
}

/// A window changed.
#[derive(Debug)]
pub struct WindowEventInfo {
    /// What happened.
    pub change: WindowChange,
    /// The parent container of the window.
    pub container: Node,
}

impl Decode for WindowEventInfo {
    open spec fn readable(tree: Tree) -> bool {
        &&& tree.str_at("change"@) is Some
        &&& tree.get("container"@) matches Some(container) && Node::described(container)
    }

    open spec fn reads(self, tree: Tree) -> bool {
        &&& tree.str_at("change"@) matches Some(name) && self.change == WindowChange::named(name)
        &&& tree.get("container"@) matches Some(container) && self.container.shows(container)
    }

    fn from_json(json: &Json) -> (r: Option<Self>) {
        Some(
            WindowEventInfo {
                change: WindowChange::from_name(json.get("change")?.as_str()?),
                container: Node::build_tree(json.get("container")?)?,
            },
        )
    }
}

impl WindowEventInfo {
    /// What the payload `text` says.
    pub fn from_str(text: &str) -> (r: Result<WindowEventInfo, DecodeError>)
        ensures
            decoded(parsed(text@), r),
    {
        decode(text)
    }
}

/// The configuration of a bar changed.
#[derive(Debug)]
pub struct BarConfigEventInfo {
    /// The new configuration.
    pub bar_config: BarConfig,
}

impl Decode for BarConfigEventInfo {
    open spec fn readable(tree: Tree) -> bool {
        BarConfig::readable(tree)
    }

    open spec fn reads(self, tree: Tree) -> bool {
        self.bar_config.reads(tree)
    }

    fn from_json(json: &Json) -> (r: Option<Self>) {
        Some(BarConfigEventInfo { bar_config: BarConfig::from_json(json)? })
    }
}

impl BarConfigEventInfo {
    /// What the payload `text` says.
    pub fn from_str(text: &str) -> (r: Result<BarConfigEventInfo, DecodeError>)
        ensures
            decoded(parsed(text@), r),
    {
        decode(text)
    }
}

/// What happened to a binding.
#[derive(Debug, Clone, Copy, PartialEq, Eq, Structural)]
pub enum BindingChange {
    Run,
    /// A change that is not documented.
    Unknown,
}

impl BindingChange {
    /// The change that i3 calls `name`.
    pub open spec fn named(name: Seq<char>) -> BindingChange {
        if name == "run"@ {
            BindingChange::Run
        } else {
            BindingChange::Unknown
        }
    }

    /// The change that i3 calls `name`.
    pub fn from_name(name: &str) -> (r: BindingChange)
        ensures
            r == BindingChange::named(name@),
    {
        if str_eq(name, "run") {
            BindingChange::Run
        } else {
            BindingChange::Unknown
        }
    }
}

/// What a binding is bound to.
#[derive(Debug, Clone, Copy, PartialEq, Eq, Structural)]
pub enum InputType {
    Keyboard,
    Mouse,
    /// A device that is not documented.
    Unknown,
}

impl InputType {
    /// The device that i3 calls `name`.
    pub open spec fn named(name: Seq<char>) -> InputType {
        if name == "keyboard"@ {
            InputType::Keyboard
        } else if name == "mouse"@ {
            InputType::Mouse
        } else {
            InputType::Unknown
        }
    }

    /// The device that i3 calls `name`.
    pub fn from_name(name: &str) -> (r: InputType)
        ensures
            r == InputType::named(name@),
    {
        if str_eq(name, "keyboard") {
            InputType::Keyboard
        } else if str_eq(name, "mouse") {
            InputType::Mouse
        } else {
            InputType::Unknown
        }
    }
}

/// A binding of a key or a button to a command.
#[derive(Debug)]
pub struct Binding {
    /// The command that the binding runs.
    pub command: String,
    /// The modifiers that have to be pressed.
    pub event_state_mask: Vec<String>,
    /// The key code, or the number of the mouse button. Zero for a binding by symbol.
    pub input_code: i32,
    /// The key symbol, for a binding by symbol.
    pub symbol: Option<String>,
    /// Whether a key or a button is bound.
    pub input_type: InputType,
}

impl Decode for Binding {
    open spec fn readable(tree: Tree) -> bool {
        &&& tree.str_at("command"@) is Some
        &&& tree.get("event_state_mask"@) matches Some(Tree::Array(items)) && all_readable::<
            String,
        >(items)
        &&& tree.i32_at("input_code"@) is Some
        &&& tree.get("symbol"@) matches Some(symbol) && (symbol is String || symbol is Null)
        &&& tree.str_at("input_type"@) is Some
    }

    open spec fn reads(self, tree: Tree) -> bool {
        &&& tree.str_at("command"@) == Some(self.command@)
        &&& tree.get("event_state_mask"@) matches Some(Tree::Array(items)) && all_read(
            self.event_state_mask@,
            items,
        )
        &&& tree.i32_at("input_code"@) == Some(self.input_code)
        &&& tree.str_at("symbol"@) == text_of(self.symbol)
        &&& tree.str_at("input_type"@) matches Some(name) && self.input_type == InputType::named(
            name,
        )
    }

    fn from_json(json: &Json) -> (r: Option<Self>) {
        let symbol = match json.get("symbol")? {
            Json::String(symbol) => Some(symbol.clone()),
            Json::Null => None,
            _ => {
                return None;
            },
        };
        Some(
            Binding {
                command: json.string_at("command")?,
                event_state_mask: decode_all(json.get("event_state_mask")?.as_array()?)?,
                input_code: json.i32_at("input_code")?,
                symbol,
                input_type: InputType::from_name(json.get("input_type")?.as_str()?),
            },
        )
    }
}

/// A binding was triggered to run its command.
#[derive(Debug)]
pub struct BindingEventInfo {
    /// What happened.
    pub change: BindingChange,
    /// The binding.
    pub binding: Binding,
}

impl Decode for BindingEventInfo {
    open spec fn readable(tree: Tree) -> bool {
        &&& tree.str_at("change"@) is Some
        &&& tree.get("binding"@) matches Some(binding) && Binding::readable(binding)
    }

    open spec fn reads(self, tree: Tree) -> bool {
        &&& tree.str_at("change"@) matches Some(name) && self.change == BindingChange::named(name)
        &&& tree.get("binding"@) matches Some(binding) && self.binding.reads(binding)
    }

    fn from_json(json: &Json) -> (r: Option<Self>) {
        Some(
            BindingEventInfo {
                change: BindingChange::from_name(json.get("change")?.as_str()?),
                binding: Binding::from_json(json.get("binding")?)?,
            },
        )
    }
}

impl BindingEventInfo {
    /// What the payload `text` says.
    pub fn from_str(text: &str) -> (r: Result<BindingEventInfo, DecodeError>)
        ensures
            decoded(parsed(text@), r),
    {
        decode(text)
    }
}

/// Why i3 shuts down.
#[derive(Debug, Clone, Copy, PartialEq, Eq, Structural)]
pub enum ShutdownChange {
    Restart,
    Exit,
    /// A reason that is not documented.
    Unknown,
}

impl ShutdownChange {
    /// The reason that i3 calls `name`.
    pub open spec fn named(name: Seq<char>) -> ShutdownChange {
        if name == "restart"@ {
            ShutdownChange::Restart
        } else if name == "exit"@ {
            ShutdownChange::Exit
        } else {
            ShutdownChange::Unknown
        }
    }

    /// The reason that i3 calls `name`.
    pub fn from_name(name: &str) -> (r: ShutdownChange)
        ensures
            r == ShutdownChange::named(name@),
    {
        if str_eq(name, "restart") {
            ShutdownChange::Restart
        } else if str_eq(name, "exit") {
            ShutdownChange::Exit
        } else {
            ShutdownChange::Unknown
        }
    }
}

/// i3 is about to shut down.
#[derive(Debug)]
pub struct ShutdownEventInfo {
    /// Why.
    pub change: ShutdownChange,
}

impl Decode for ShutdownEventInfo {
    open spec fn readable(tree: Tree) -> bool {
        tree.str_at("change"@) is Some
    }

    open spec fn reads(self, tree: Tree) -> bool {
        tree.str_at("change"@) matches Some(name) && self.change == ShutdownChange::named(name)
    }

    fn from_json(json: &Json) -> (r: Option<Self>) {
        Some(ShutdownEventInfo { change: ShutdownChange::from_name(json.get("change")?.as_str()?) })
    }
}

impl ShutdownEventInfo {
    /// What the payload `text` says.
    pub fn from_str(text: &str) -> (r: Result<ShutdownEventInfo, DecodeError>)
        ensures
            decoded(parsed(text@), r),
    {
        decode(text)
    }
}

/// An event from i3.
#[derive(Debug)]
pub enum Event {
    /// The user switched to a different workspace, or a workspace was initialized, emptied or
    /// changed.
    WorkspaceEvent(WorkspaceEventInfo),
    /// RandR issued a change notification.
    OutputEvent(OutputEventInfo),
    /// i3 changed its binding mode.
    ModeEvent(ModeEventInfo),
    /// A client's window was reparented, or has changed.
    WindowEvent(WindowEventInfo),
    /// The configuration of a bar was updated.
    BarConfigEvent(BarConfigEventInfo),
    /// A binding was triggered with the keyboard or the mouse.
    BindingEvent(BindingEventInfo),
    /// i3 shuts down because of a restart or an exit.
    ShutdownEvent(ShutdownEventInfo),
}

/// The number of the event that a message of type `message_type` carries: its type without the
/// highest bit, which marks events.
pub open spec fn event_number(message_type: u32) -> u32 {
    message_type % 0x8000_0000
}

/// The number of the event that a message of type `message_type` carries.
pub fn event_number_of(message_type: u32) -> (r: u32)
    ensures
        r == event_number(message_type),
{
    assert((message_type << 1u32) >> 1u32 == message_type % 0x8000_0000) by (bit_vector);
    (message_type << 1) >> 1
}

/// Whether the highest bit of `message_type` is set or not makes no difference to the number of
/// the event, and a number below that bit is its own.
pub proof fn event_bit_is_stripped(number: u32)
    requires
        number < 0x8000_0000,
    ensures
        event_number(number) == number,
        event_number(number | 0x8000_0000) == number,
{
    assert((number | 0x8000_0000) % 0x8000_0000 == number) by (bit_vector)
        requires
            number < 0x8000_0000,
    ;
}

/// Whether there is an event with this number.
pub open spec fn is_event(number: u32) -> bool {
    number <= 6
}

/// Whether `tree` describes the event with this number.
pub open spec fn event_described(number: u32, tree: Tree) -> bool {
    match number {
        0 => WorkspaceEventInfo::readable(tree),
        1 => OutputEventInfo::readable(tree),
        2 => ModeEventInfo::readable(tree),
        3 => WindowEventInfo::readable(tree),
        4 => BarConfigEventInfo::readable(tree),
        5 => BindingEventInfo::readable(tree),
        6 => ShutdownEventInfo::readable(tree),
        _ => false,
    }
}

impl Event {
    /// The number of this event.
    pub open spec fn number(self) -> u32 {
        match self {
            Event::WorkspaceEvent(_) => 0,
            Event::OutputEvent(_) => 1,
            Event::ModeEvent(_) => 2,
            Event::WindowEvent(_) => 3,
            Event::BarConfigEvent(_) => 4,
            Event::BindingEvent(_) => 5,
            Event::ShutdownEvent(_) => 6,
        }
    }

    /// Whether this event is the one that `tree` describes.
    pub open spec fn shows(self, tree: Tree) -> bool {
        match self {
            Event::WorkspaceEvent(info) => info.reads(tree),
            Event::OutputEvent(info) => info.reads(tree),
            Event::ModeEvent(info) => info.reads(tree),
            Event::WindowEvent(info) => info.reads(tree),
            Event::BarConfigEvent(info) => info.reads(tree),
            Event::BindingEvent(info) => info.reads(tree),
            Event::ShutdownEvent(info) => info.reads(tree),
        }
    }
}

/// Whether `r` is the event with this number whose payload parses to `document`.
pub open spec fn event_built(
    number: u32,
    document: Result<Tree, serde_json::Error>,
    r: Result<Event, DecodeError>,
) -> bool {
    if !is_event(number) {
        r == Err::<Event, DecodeError>(DecodeError::UnknownEvent(number))
    } else {
        match document {
            Err(e) => r == Err::<Event, DecodeError>(DecodeError::JsonCouldntParse(e)),
            Ok(tree) => if event_described(number, tree) {
                r is Ok && r->Ok_0.number() == number && r->Ok_0.shows(tree)
            } else {
                r == Err::<Event, DecodeError>(DecodeError::Unexpected)
            },
        }
    }
}

/// The event with this number, from its payload once that has been parsed.
pub fn read_event(number: u32, document: Result<Json, serde_json::Error>) -> (r: Result<
    Event,
    DecodeError,
>)
    ensures
        event_built(
            number,
            match document {
                Ok(json) => Ok(json@),
                Err(e) => Err(e),
            },
            r,
        ),
{
    match number {
        0 => match read_document(document) {
            Ok(info) => Ok(Event::WorkspaceEvent(info)),
            Err(e) => Err(e),
        },
        1 => match read_document(document) {
            Ok(info) => Ok(Event::OutputEvent(info)),
            Err(e) => Err(e),
        },
        2 => match read_document(document) {
            Ok(info) => Ok(Event::ModeEvent(info)),
            Err(e) => Err(e),
        },
        3 => match read_document(document) {
            Ok(info) => Ok(Event::WindowEvent(info)),
            Err(e) => Err(e),
        },
        4 => match read_document(document) {
            Ok(info) => Ok(Event::BarConfigEvent(info)),
            Err(e) => Err(e),
        },
        5 => match read_document(document) {
            Ok(info) => Ok(Event::BindingEvent(info)),
            Err(e) => Err(e),
        },
        6 => match read_document(document) {
            Ok(info) => Ok(Event::ShutdownEvent(info)),
            Err(e) => Err(e),
        },
        _ => Err(DecodeError::UnknownEvent(number)),
    }
}

/// The event with this number and this payload.
pub fn build_event(number: u32, payload: &str) -> (r: Result<Event, DecodeError>)
    ensures
        event_built(number, parsed(payload@), r),
{
    read_event(number, Json::parse(payload))
}

} // verus!
