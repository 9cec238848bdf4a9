//! The core of an interactive inspector for media files.
//!
//! A probing tool reports on a file in text. `extract` turns such a report
//! into a `MediaRecord`, `filter` derives the view that a set of predicates
//! leaves of a catalogue of records, and `session` holds the state of one
//! interactive session and says what each key does to it. `text`, `decimal`
//! and `megabits` are what the extraction rules are written in; `buffer` is
//! the text-entry buffer of the crate tui_input.
//!
//! The library does no input or output and reads no clock: reports, key
//! presses and times are handed to it.

use vstd::prelude::*;

pub mod buffer;
pub mod decimal;
pub mod error;
pub mod extract;
pub mod filter;
pub mod megabits;
pub mod notification;
pub mod record;
pub mod session;
pub mod text;
