//! Lifecycle supervision of a local backend server process, and the request
//! layer through which a host application calls into it.
//!
//! Every effect (binding sockets, spawning processes, HTTP, sleeping) is left
//! to the caller. This crate holds the decisions: which port to try next, what
//! to launch, when the backend counts as ready, how shutdown proceeds, what a
//! request looks like and what a response means.

pub mod commands;
pub mod error;
pub mod json;
pub mod launch;
pub mod port;
pub mod probe;
pub mod proxy;
pub mod startup;
pub mod status;
pub mod supervisor;
pub mod text;
