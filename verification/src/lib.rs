//! Builds the command lines that run a media transcoding tool: the command as
//! a value, the command line it stands for, what the tool's reports say, and
//! the rules that decide which command a request leads to.

pub mod command;
pub mod error;
pub mod media;
pub mod menu;
pub mod number;
pub mod string_utils;
pub mod text;
pub mod user_input;
