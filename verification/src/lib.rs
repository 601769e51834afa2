//! Verified core of a small to-do service.
//!
//! The crate holds everything the service decides: what a request must look
//! like, which statement it asks of the table of to-dos, what that statement
//! does to the table, and which reply the client gets. Listening on a socket
//! and talking to a database are left to the program built around it.

pub mod command;
pub mod http;
pub mod laws;
pub mod path_id;
pub mod service;
pub mod store;
pub mod todo;
