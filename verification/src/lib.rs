//! Verified building blocks for terminal user interfaces: text input editing,
//! search and login key handling, text fitting, and the small pieces of state
//! that a terminal client keeps between runs.

pub mod strings;
pub mod input;
pub mod shortcuts;
pub mod ui;
pub mod storage;
