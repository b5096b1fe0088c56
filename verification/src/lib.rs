//! Core of an interactive commit-message helper.
//!
//! The library holds everything about composing and validating a one-line
//! commit message that can be stated and checked as pure logic: the ordered,
//! cyclic registry of commit types, the keystroke-driven state machines of
//! the type selector and the message composer, the seven-rule style engine,
//! the batch validator over historical messages, the exact shape of the
//! output line, and the classification of the output path handed over by
//! the version-control tool. Terminal rendering, raw-mode handling, process
//! spawning and file writing live outside the library and feed it plain
//! values.

pub mod batch;
pub mod composer;
pub mod keys;
pub mod line;
pub mod paths;
pub mod registry;
pub mod rules;
pub mod selector;
pub mod text;
