//! A client of the KiCAD IPC API.
//!
//! KiCAD answers commands over a socket. This crate says which commands an operation sends, in
//! which order, and what their answers amount to; it neither reads nor sends anything itself.
//! Each operation is a function of the replies so far (see `talk`), so that whoever holds the
//! socket and the files leads the conversation.
//!
//! - `client` and `transport`: where KiCAD listens, and how one command is sent.
//! - `talk`: commands, requests and replies, and how operations are made of them.
//! - `documents`, `commits`, `items`, `board`, `footprints`: the operations.
//! - `splice`, `sexp`, `library`: putting clauses into a board by way of its file.
//! - `selftest`: a probe of the operations that depend most on KiCAD's version.
//! - `builders`, `types`, `wire`, `status`, `text`: what the operations are made with.
//! - `replay` and `laws`: what holds of all of this.
pub mod board;
pub mod builders;
pub mod client;
pub mod commits;
pub mod documents;
pub mod footprints;
pub mod items;
pub mod laws;
pub mod library;
pub mod replay;
pub mod selftest;
pub mod sexp;
pub mod splice;
pub mod status;
pub mod talk;
pub mod text;
pub mod transport;
pub mod types;
pub mod wire;
