//! Console-input support and decision logic for a fuel-limited lunar descent
//! simulation.
//!
//! `parse` splits a line of user input into comma-separated fields with a
//! quoting convention; `input` and its relatives drive a prompt/re-prompt
//! cycle over an abstract text channel; `mission` holds the pure decision
//! rules of the descent loop, kept apart from the floating-point integration
//! that a front end performs.

pub mod input;
pub mod mission;
pub mod parse;

pub use input::input;
pub use input::input2;
pub use input::input3;
pub use input::input4;
