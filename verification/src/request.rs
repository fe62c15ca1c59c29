//! The requests that i3 answers.

use std::marker::PhantomData;
use vstd::prelude::*;

use crate::bar::BarConfig;
use crate::node::Node;
use crate::reply::{
    BarIds, BindingModes, Command, Config, Marks, Outputs, Subscribe, Version, Workspaces,
};

verus! {

/// An event to subscribe to.
#[derive(Debug)]
pub enum Subscription {
    Workspace,
    Output,
    Mode,
    Window,
    BarConfig,
    Binding,
    Shutdown,
}

impl Subscription {
    /// The name of the event, in quotes.
    pub open spec fn quoted(self) -> Seq<char> {
        match self {
            Subscription::Workspace => "\"workspace\""@,
            Subscription::Output => "\"output\""@,
            Subscription::Mode => "\"mode\""@,
            Subscription::Window => "\"window\""@,
            Subscription::BarConfig => "\"barconfig_update\""@,
            Subscription::Binding => "\"binding\""@,
            Subscription::Shutdown => "\"shutdown\""@,
        }
    }

    /// The name of the event, in quotes.
    pub fn quoted_name(&self) -> (r: &'static str)
        ensures
            r@ == self.quoted(),
    {
        match *self {
            Subscription::Workspace => "\"workspace\"",
            Subscription::Output => "\"output\"",
            Subscription::Mode => "\"mode\"",
            Subscription::Window => "\"window\"",
            Subscription::BarConfig => "\"barconfig_update\"",
            Subscription::Binding => "\"binding\"",
            Subscription::Shutdown => "\"shutdown\"",
        }
    }
}

/// Two events of the same name are the same event.
pub proof fn event_names_differ(a: Subscription, b: Subscription)
    requires
        a.quoted() == b.quoted(),
    ensures
        a == b,
{
    reveal_strlit("\"workspace\"");
    reveal_strlit("\"output\"");
    reveal_strlit("\"mode\"");
    reveal_strlit("\"window\"");
    reveal_strlit("\"barconfig_update\"");
    reveal_strlit("\"binding\"");
    reveal_strlit("\"shutdown\"");
    assert("\"workspace\""@.len() == 11);
    assert("\"output\""@.len() == 8 && "\"output\""@[1] == 'o');
    assert("\"mode\""@.len() == 6);
    assert("\"window\""@.len() == 8 && "\"window\""@[1] == 'w');
    assert("\"barconfig_update\""@.len() == 18);
    assert("\"binding\""@.len() == 9);
    assert("\"shutdown\""@.len() == 10);
}

/// The quoted names of `events`, with a comma and a space between each two.
pub open spec fn listed(events: Seq<Subscription>) -> Seq<char>
    decreases events.len(),
{
    if events.len() == 0 {
        Seq::empty()
    } else if events.len() == 1 {
        events[0].quoted()
    } else {
        listed(events.drop_last()) + ", "@ + events.last().quoted()
    }
}

/// The JSON array of the names of `events`.
pub open spec fn subscription_list(events: Seq<Subscription>) -> Seq<char> {
    "[ "@ + listed(events) + " ]"@
}

/// A request that i3 answers with a `T`: the type and the payload of its message.
#[derive(Debug)]
pub struct Request<T> {
    pub message_type: u32,
    pub payload: String,
    pub answer: PhantomData<T>,
}

impl<T> Request<T> {
    /// Whether this is the request of type `message_type` with this payload.
    pub open spec fn asks(self, message_type: u32, payload: Seq<char>) -> bool {
        self.message_type == message_type && self.payload@ == payload
    }

    fn new(message_type: u32, payload: String) -> (r: Request<T>)
        ensures
            r.asks(message_type, payload@),
    {
        Request { message_type, payload, answer: PhantomData }
    }
}

impl Request<Command> {
    /// Has i3 run `string`: commands like those that can be bound to keys in the configuration
    /// file. They are run directly after i3 has received them.
    pub fn run_command(string: &str) -> (r: Request<Command>)
        ensures
            r.asks(0, string@),
    {
        Request::new(0, string.to_owned())
    }

    /// The former name of `run_command`.
    pub fn command(string: &str) -> (r: Request<Command>)
        ensures
            r.asks(0, string@),
    {
        Request::run_command(string)
    }
}

impl Request<Workspaces> {
    /// Asks for the workspaces.
    pub fn get_workspaces() -> (r: Request<Workspaces>)
        ensures
            r.asks(1, Seq::empty()),
    {
        Request::new(1, String::new())
    }
}

impl Request<Subscribe> {
    /// Subscribes to `events`.
    pub fn subscribe(events: &[Subscription]) -> (r: Request<Subscribe>)
        ensures
            r.asks(2, subscription_list(events@)),
    {
        let mut payload: String = "[ ".to_owned();
        let ghost open = "[ "@;
        let mut i: usize = 0;
        assert(payload@ =~= open + listed(events@.take(0)));
        while i < events.len()
            invariant
                i <= events@.len(),
                payload@ == open + listed(events@.take(i as int)),
            decreases events@.len() - i,
        {
            let ghost so_far = events@.take(i as int);
            proof {
                assert(events@.take(i + 1).drop_last() =~= so_far);
            }
            if i > 0 {
                payload.append(", ");
            }
            payload.append(events[i].quoted_name());
            assert(payload@ =~= open + listed(events@.take(i + 1)));
            i += 1;
        }
        assert(events@.take(i as int) =~= events@);
        payload.append(" ]");
        Request::new(2, payload)
    }
}

impl Request<Outputs> {
    /// Asks for the outputs.
    pub fn get_outputs() -> (r: Request<Outputs>)
        ensures
            r.asks(3, Seq::empty()),
    {
        Request::new(3, String::new())
    }
}

impl Request<Node> {
    /// Asks for the layout tree, which includes every container.
    pub fn get_tree() -> (r: Request<Node>)
        ensures
            r.asks(4, Seq::empty()),
    {
        Request::new(4, String::new())
    }
}

impl Request<Marks> {
    /// Asks for the marks.
    pub fn get_marks() -> (r: Request<Marks>)
        ensures
            r.asks(5, Seq::empty()),
    {
        Request::new(5, String::new())
    }
}

impl Request<BarIds> {
    /// Asks for the ids of all configured bars.
    pub fn get_bar_ids() -> (r: Request<BarIds>)
        ensures
            r.asks(6, Seq::empty()),
    {
        Request::new(6, String::new())
    }
}

impl Request<BarConfig> {
    /// Asks for the configuration of the bar with the given id.
    pub fn get_bar_config(id: &str) -> (r: Request<BarConfig>)
        ensures
            r.asks(6, id@),
    {
        Request::new(6, id.to_owned())
    }
}

impl Request<Version> {
    /// Asks for the version of i3.
    pub fn get_version() -> (r: Request<Version>)
        ensures
            r.asks(7, Seq::empty()),
    {
        Request::new(7, String::new())
    }
}

impl Request<BindingModes> {
    /// Asks for the names of the configured binding modes.
    pub fn get_binding_modes() -> (r: Request<BindingModes>)
        ensures
            r.asks(8, Seq::empty()),
    {
        Request::new(8, String::new())
    }
}

impl Request<Config> {
    /// Asks for the configuration that was loaded last.
    pub fn get_config() -> (r: Request<Config>)
        ensures
            r.asks(9, Seq::empty()),
    {
        Request::new(9, String::new())
    }
}

} // verus!
