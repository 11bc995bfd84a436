//! Drafting and committing version-control messages: the decisions of the
//! commit workflow, apart from the terminal, the network and the subprocesses
//! that carry them out.

pub mod cli;
pub mod commands;
pub mod config;
pub mod git;
pub mod openai;
pub mod text;
pub mod utils;
