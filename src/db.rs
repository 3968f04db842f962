//! The tracking records kept in the store, one per tracked manga.

use vstd::prelude::*;

verus! {

/// A Discord channel, by its numeric id.
pub type ChannelId = u64;

/// A tracked manga as it is kept in the store.
pub struct Manga {
    /// The MangaDex id of the manga; the record's key.
    pub id: String,
    /// The English (or equivalent) title of the manga.
    pub title: String,
    /// The id of the latest chapter that the channels have been told about.
    pub latest_chapter_id: Option<String>,
    /// The channels that track this manga.
    pub channels: Vec<ChannelId>,
}

/// The mathematical value of a tracking record.
pub struct TrackedItem {
    pub id: Seq<char>,
    pub title: Seq<char>,
    pub last_seen: Option<Seq<char>>,
    pub subscribers: Seq<ChannelId>,
}

impl View for Manga {
    type V = TrackedItem;

    open spec fn view(&self) -> TrackedItem {
        TrackedItem {
            id: self.id@,
            title: self.title@,
            last_seen: crate::text::opt_text(self.latest_chapter_id),
            subscribers: self.channels@,
        }
    }
}

impl TrackedItem {
    /// A stored record has at least one subscriber, and none twice.
    pub open spec fn wf(self) -> bool {
        &&& self.subscribers.len() > 0
        &&& self.subscribers.no_duplicates()
    }
}

/// Why a store operation failed.
#[derive(Debug, Clone, Copy, PartialEq, Eq)]
pub enum StoreError {
    /// The store could not be reached, or failed the operation.
    Unavailable,
    /// A record with the same id already exists.
    Conflict,
}

} // verus!
