//! A client library for an HTTP message broker: the message-disposition
//! protocol (lock, complete, abandon, dead-letter, receive-and-delete) and
//! the batch operations built on it — peek, concurrent purge, dead-letter
//! resend and removal of one dead-lettered message — as state machines that
//! a caller drives over HTTP, together with the management feed parsing,
//! authorization tokens and display helpers around them.

pub mod error;
pub mod models;
pub mod text;

pub mod locate;
pub mod peek;
pub mod purge;
pub mod resend;

pub mod atom;
pub mod auth;
pub mod protocol;

pub mod config;
pub mod discovery;
pub mod display;
pub mod forms;
pub mod sanitize;
pub mod tree;
pub mod ui_state;
