//! The source-control section of a terminal file viewer: a commit graph under the file tree.
//!
//! `history` holds the rows of the graph and the reading of `git log --graph` output,
//! `presenter` the draw model of the section, `controller` its session state and intents.
//! `text` holds the string functions that they share. `laws` states what holds across the intents,
//! `laws_of_reading` and `laws_of_section` what each function does, told of its calls.
pub mod controller;
pub mod history;
pub mod laws;
pub mod laws_of_reading;
pub mod laws_of_section;
pub mod presenter;
pub mod text;
