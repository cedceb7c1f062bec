//! A personal book collection.
//!
//! - `book`: one book, borrowing and returning it, editing it, describing it.
//! - `store`: the ordered collection, with search and statistics.
//! - `session`: the conversation with the user as a state machine that
//!   takes one entered line at a time.
//! - `persist`: what to make of the file that the collection is kept in.
//! - `text`: substring search, trimming and decimal numbers on characters.
//!
//! The library does no input or output. The program around it reads the
//! lines, prints the replies and keeps the file.

pub mod book;
pub mod persist;
pub mod session;
pub mod store;
pub mod text;
