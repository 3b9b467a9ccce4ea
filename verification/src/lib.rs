//! A minimal interactive terminal: a scrollback buffer, an editable input
//! line, key-event translation with a shift table, command tokenization and
//! dispatch, and the bookkeeping for the GPU shader program that draws it.
//!
//! The console itself is a pure state machine: key events mutate the input
//! line or submit a command, submission yields a request that the embedding
//! program runs as a subprocess, and the captured output is appended to the
//! scrollback line by line. Window handling, GL calls and process launching
//! live in the embedding program; everything here is verified.

pub mod console;
pub mod keys;
pub mod shader;
pub mod text;
