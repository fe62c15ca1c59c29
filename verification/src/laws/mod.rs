//! What holds of the library as a whole, said of the documents, the bytes and the texts that go in
//! and of what comes out.

pub mod bars;
pub mod connection;
pub mod conversation;
pub mod documents;
pub mod errors;
pub mod events;
pub mod names;
pub mod nodes;
pub mod replies;
pub mod requests;
