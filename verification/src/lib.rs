//! The engine of a terminal typing-speed trainer.
//!
//! The crate holds the rules of a typing session: how the words of a session
//! are selected, how each keystroke moves the session forward, how speed and
//! accuracy are computed, when a session is over, and where every line of a
//! screen is placed. All of it works on plain values, so that a front end
//! only has to read keys, read the clock and write the frames it is handed.

pub mod config;
pub mod data_loader;
pub mod frame;
pub mod game;
pub mod header;
pub mod line;
pub mod metrics;
pub mod render;
pub mod session;
pub mod text;
pub mod words;
