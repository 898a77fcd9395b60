//! The verified core of a Twitch chat bot that collects chat messages and
//! forwards them to an Azuqua flo.

pub mod error;
pub mod utils;
pub mod json_tree;
pub mod twitch;
pub mod init;
pub mod azuqua;
