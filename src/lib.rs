//! Core of an interactive conventional-commit wizard: the commit draft and
//! its serialization, the step and route state machines, the parsers for the
//! version-control tool's output, and the message-driven runtime that ties
//! the components together.

pub mod builder;
pub mod cli;
pub mod commit;
pub mod config;
pub mod textarea;
pub mod git;
pub mod help;
pub mod locale;
pub mod message;
pub mod parse;
pub mod state;
pub mod steps;
pub mod text;
pub mod wizard;
