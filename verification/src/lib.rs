//! Core of a terminal reader that watches feeds and web pages for new content.
//!
//! The crate holds the rules of the reader: how a selection moves through a
//! filtered list, how incoming events are folded into the list of updates, how
//! a parsed feed or a fetched page becomes events, and how the record of page
//! hashes is kept. Fetching, parsing feeds, drawing and the event loop live
//! with the program that uses it.

pub mod app;
pub mod cache;
pub mod event;
pub mod feed;
pub mod nav;
pub mod row;
pub mod store;
pub mod text;
