//! Tracking of MangaDex titles on behalf of Discord channels.
//!
//! The library holds the decisions of the tracker: how a user's reference to a
//! title resolves to a MangaDex id, how a scan decides that a title has a new
//! chapter, which notifications an update fans out to, what a track request
//! does to the tracking store, and how the MangaDex API's answers and errors
//! turn into values and text.

pub mod command;
pub mod db;
pub mod mangadex;
pub mod reference;
pub mod scan;
pub mod text;
pub mod track;
