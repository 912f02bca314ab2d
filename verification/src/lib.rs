//! The core of a phone directory that is asked over datagrams: a client
//! sends an email, and the number filed under it comes back.
//!
//! Three tasks serve the directory. The listener turns each datagram into a
//! request, the handler asks the store and keeps the cache of known emails,
//! and the sender turns each reply into a datagram. None of them touches a
//! socket, a channel or the store here: each is a step function that is told
//! what has happened and says what to do next, so that whoever runs it only
//! has to do as it says.
//!
//! - `types`: emails, entries and requests, the set of known emails, and text
//!   to and from the bytes of a datagram.
//! - `phonehandler`: the handler's step.
//! - `server`: the listener's and the sender's steps.
//! - `supervisor`: the life of the server, from starting to stopped.
//! - `pipeline`: the three tasks put together over a model of the store,
//!   and what holds of them.
//! - `client`: the emails that the test client asks for.

pub mod client;
pub mod phonehandler;
pub mod pipeline;
pub mod server;
pub mod supervisor;
pub mod types;
