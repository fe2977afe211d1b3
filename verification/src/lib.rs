//! Core logic of a terminal mail reader for a thread-structured mail index:
//! the message model, the thread parser, body and attachment extraction,
//! the index flattener, and the selection and scrolling state machines.

pub mod app;
pub mod body;
pub mod browser;
pub mod command;
pub mod error;
pub mod index;
pub mod keys;
pub mod message;
pub mod reader;
pub mod selection;
pub mod text;
pub mod thread;
