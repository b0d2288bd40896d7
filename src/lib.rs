//! Decision logic of an interactive front-end for terminal-multiplexer
//! sessions: session-name rules, the menu, the name and path prompts as
//! state machines, and the command lines handed to the multiplexer.
pub mod names;
pub mod input;
pub mod paths;
pub mod resolver;
pub mod path_prompt;
pub mod menu;
pub mod commands;
pub mod cli;
