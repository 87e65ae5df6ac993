pub mod command_handler;
pub mod construct_handler;
pub mod git_command;
