//! The operations of the server, one function for each request and for each
//! event of a connection.

use vstd::prelude::*;

pub mod room;
pub mod user;
pub mod websocket;

verus! {

/// How a request ended, as the caller is told.
#[derive(Clone, Copy, Debug, PartialEq, Eq, Structural)]
pub enum Status {
    Success,
    Unauthorized,
}

} // verus!
