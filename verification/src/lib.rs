//! An actor that passes the requests of other actors on to an MCP server, and its responses back.
//!
//! The handlers in [`actor`] decide what is to be done in a turn; the host does it and resumes
//! the turn with its reply. The laws in [`laws`] say what holds of turns as a whole.

pub mod actor;
pub mod handler_laws;
pub mod json;
pub mod laws;
pub mod message;
pub mod message_laws;
pub mod process;
pub mod reading;
pub mod state;
pub mod text;
pub mod turn;
