//! A bordered block that turns red while it is being edited, and the terminal
//! session around it, as verified state machines.
//!
//! The library decides; the program around it performs. [`app`] holds the
//! application state and the rules by which keys change it, [`view`] says what
//! is drawn for a state, and [`session`] sequences the terminal operations of
//! a whole run, from acquiring the terminal to giving it back. [`simulate`]
//! plays a session against a model terminal and proves what holds of every
//! run. [`styled`] encodes a line of styled output.

pub mod app;
pub mod session;
pub mod simulate;
pub mod styled;
pub mod view;
