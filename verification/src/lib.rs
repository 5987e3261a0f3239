//! The shared state of a chat server and the rules that change it: who is
//! logged in, which rooms exist and who is in them, how a connection is bound
//! to a user, and to whom a message is delivered.

pub mod handler;
pub mod helper;
pub mod json;
pub mod laws;
pub mod model;
pub mod table;
pub mod token;
