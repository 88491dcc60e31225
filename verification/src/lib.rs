//! The interactive engine of a terminal version-control client: the state
//! machines of its log and diff screens, and the parser that turns unified
//! diff text into the markup that the diff screen displays.

pub mod backend;
pub mod mode;
pub mod platform;
pub mod text;
pub mod ui;
