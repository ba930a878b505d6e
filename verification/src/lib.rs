//! Core engine of a terminal chat client: the state that a single-threaded
//! dispatch loop and one background inference worker keep consistent while
//! assistant replies stream in.
//!
//! The crate holds the conversation directory, the chat transcript with its
//! scroll arithmetic, the prompt and popup editors, the focus state machine,
//! the bounded request queue that gives the system backpressure, the
//! streaming-generation state machine of the worker, and the dispatch rules
//! that turn key and worker events into state changes and persistence
//! commands. Terminal I/O, the database connection and the network client
//! live outside; they hand plain values in and take plain values back.

pub mod app;
pub mod assistant;
pub mod chat;
pub mod cli;
pub mod config;
pub mod conversations;
pub mod editor;
pub mod event;
pub mod focus;
pub mod models;
pub mod ollama;
pub mod prompt;
pub mod queue;
pub mod store;
pub mod ui;
