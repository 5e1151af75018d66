//! The view-model of a dictionary browser for the terminal.
//!
//! A dictionary is a table of words and definitions in an SQLite file. The
//! browser shows the words of one dictionary as a list, keeps one of them
//! selected and shows its definition. The user types a query to jump to the
//! first word that begins with it, moves the selection with the keys, the
//! wheel or a click, and switches between the dictionaries on offer.
//!
//! - [`app`] holds the state and its operations,
//! - [`nav`] describes the state as a mathematical value and states the laws
//!   that its steps obey,
//! - [`input`] maps what the terminal reports to those operations,
//! - [`store`] reads a dictionary,
//! - [`geometry`] maps the pointer to the rows of the word list,
//! - [`text`] holds the text helpers that the others share.
//!
//! Drawing, reading the terminal and the clipboard are left to the program
//! that uses the library.

pub mod app;
pub mod geometry;
pub mod input;
pub mod nav;
pub mod store;
pub mod text;
