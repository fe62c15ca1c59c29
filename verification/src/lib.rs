//! The IPC protocol of the i3 window manager, without the socket.
//!
//! A caller that owns a socket asks this library what to do with it. `connect::Connector` finds
//! the path of the socket. `exchange::Exchange` sends a `request::Request` and receives its reply,
//! one of the types of the module `reply`. `listener::Listener` receives events, which are
//! described in the module `event`. Each of the three is told what came of the last task and
//! answers with the next one, until there is a result.
//!
//! The types in the modules `event` and `reply` follow the JSON used to talk to i3. The meaning of
//! each JSON object and field is documented on [i3's site](https://i3wm.org/docs/ipc.html).

pub mod bar;
pub mod connect;
pub mod decode;
pub mod error;
pub mod event;
pub mod exchange;
pub mod frame;
pub mod json;
pub mod laws;
pub mod listener;
pub mod node;
pub mod rect;
pub mod reply;
pub mod request;
pub mod text;

pub use crate::error::{EstablishError, MessageError};
pub use crate::request::Subscription;
