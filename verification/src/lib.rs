//! The screen engine of a terminal emulator: the character grid with its two
//! buffers, the dispatch of terminal events onto it, the rows that wait for a
//! display sync, the cell size and its zoom bounds, mouse selection, and the
//! mapping of keys and mouse activity to the bytes sent to the child process.
//!
//! The engine never touches a window, and it does not run the parser of the
//! child's output. Every drawing step it decides on is queued as an
//! [`event::Command`], in the order in which it has to happen, and the
//! program around the engine carries the queue out. The same program feeds
//! the parser and hands the engine the events that the parser reports.

pub mod block_handler;
pub mod color;
pub mod config;
pub mod console;
pub mod dirty;
pub mod event;
pub mod grid;
pub mod input;
pub mod model;
pub mod region;
pub mod selection;
pub mod surface;
pub mod vt;
