//! Engine session core: the state machines, parsers and rules that drive
//! chess engines over the Universal Chess Interface.
//!
//! The library does no input or output. Its caller starts the engines, writes
//! the commands that the library gives it, hands it the lines that the engines
//! write and the time, and sends on the payloads that it gets back.
//!
//! - `message` and `command` read the engine's lines and write the commands;
//! - `board`, `replay` and `info` turn moves and scores into positions and lines;
//! - `session` and `scheduler` hold a session's state and pace what it sends;
//! - `pipeline` and `eval` run the analysis of a whole game;
//! - `startup` brings an engine up and reads what it says of itself.

pub mod board;
pub mod command;
pub mod error;
pub mod eval;
pub mod files;
pub mod info;
pub mod message;
pub mod packages;
pub mod pipeline;
pub mod progress;
pub mod puzzle;
pub mod replay;
pub mod scheduler;
pub mod session;
pub mod startup;
pub mod telemetry;
pub mod text;
pub mod types;
