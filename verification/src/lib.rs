//! Keeps a typed in-memory value and a text file consistent with each other.
//!
//! Edits of the file flow into the value and changes of the value flow out to
//! the file, by way of four background activities: a watcher and a saver on
//! the file's side, a deserializer and a serializer on the value's side. Two
//! one-shot signals keep each direction from answering its own echo.
//!
//! The library holds the state of the engine and decides what each activity
//! does on its turn. Waiting, reading and writing the file, parsing and
//! serializing are the caller's part.
//!
//! - `config_file`: the typed result, and the deserializer's and the
//!   serializer's decisions.
//! - `file_handler`: the raw text, and the watcher's and the saver's
//!   decisions.
//! - `event`: the kinds of filesystem notification.
//! - `suppression`: the two signals.
//! - `engine`: the engine with its file and its notifications as a model.
//! - `convergence`, `schedules`: what is proved of that model.

pub mod config_file;
pub mod convergence;
pub mod engine;
pub mod event;
pub mod file_handler;
pub mod schedules;
pub mod suppression;
