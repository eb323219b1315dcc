//! Interactive composition of rich chat messages ("embeds").
//!
//! The library holds the decisions of a chat bot that builds an embed from user
//! input: a form that collects a title and a description, a paged colour picker
//! driven one interaction at a time, the slash command that takes every field
//! as an option, and the reports shown when something goes wrong. Sending and
//! receiving messages is left to the caller.

pub mod text;
pub mod catalog;
pub mod components;
pub mod artifact;
pub mod form;
pub mod wizard;
pub mod command;
pub mod report;
