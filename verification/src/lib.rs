//! Decision logic of a chat bot that answers a weather command.
//!
//! The bot echoes chat messages and answers one slash command with the
//! weather of a city. This library holds what the bot decides and computes;
//! sending, receiving and waiting are left to its caller.
//!
//! - [`responder`]: the two-phase reply to a slash command, step by step.
//! - [`trace`]: runs of that protocol, and what holds of every run.
//! - [`command`]: the command, its option, and where an invocation goes.
//! - [`weather`]: the request to the weather service and the reading of its
//!   answer.
//! - [`reply`]: the text that is sent back.
//! - [`echo`]: the echo of chat messages.
//! - [`config`]: the settings and their fallbacks.
//! - [`decimal`]: decimal notation of integers.

pub mod command;
pub mod config;
pub mod decimal;
pub mod echo;
pub mod reply;
pub mod responder;
pub mod trace;
pub mod weather;
