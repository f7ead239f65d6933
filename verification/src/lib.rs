//! The logic of `ytplay`, a terminal player for the audio of YouTube videos.
//!
//! Everything that is decided or computed stands here, as functions from plain
//! values to plain values with proved contracts. Processes, sockets, the clock and
//! the terminal belong to the program around this library.
pub mod cli;
pub mod error;
pub mod json;
pub mod player;
pub mod recommendations;
pub mod session;
pub mod stream;
pub mod text;
pub mod tools;
pub mod ui;
pub mod up_next;
pub mod url;
