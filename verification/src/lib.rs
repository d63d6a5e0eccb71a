//! Decisions of a Windows account and appearance tool: command lines,
//! registry edits and the parsing of what the system reports back.
pub mod command;
pub mod error;
pub mod text;
pub mod user;
pub mod wide;
pub mod winutils;
pub mod registry;
pub mod picture;
pub mod misc;
pub mod job;
pub mod cache;
pub mod defines;
pub mod interact;
pub mod args;
pub mod cli;
pub mod gui;
