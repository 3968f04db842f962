//! The track request: a channel asks to be told about new chapters of a manga.
//!
//! A request is a small machine. Each call of [TrackRequest::step] takes the
//! outcome of the last step that the caller performed (a store read or write,
//! an API fetch) and names the next one, until the step is a reply.

use crate::db::{ChannelId, Manga, StoreError, TrackedItem};
use crate::mangadex::{error_text, Chapter};
use vstd::prelude::*;

verus! {

/// The reply to an argument that names no manga.
pub const INVALID_REFERENCE: &'static str = "Please specify a valid manga id or url.";

/// The reply to a channel that already tracks the manga.
pub const ALREADY_TRACKED: &'static str = "This manga is already tracked by this channel.";

/// The reply where the store failed.
pub const FAILURE: &'static str = "Something went wrong while tracking this manga, please try again later.";

/// The reply once the channel tracks the manga.
pub open spec fn now_tracking(title: Seq<char>) -> Seq<char> {
    "Now tracking "@ + title + "."@
}

/// Where a track request stands.
pub enum TrackState {
    /// The record of the manga is being read.
    Looking,
    /// The channel is being added to an existing record.
    Subscribing { title: String },
    /// The title of a manga without a record is being fetched.
    AwaitingTitle,
    /// The latest chapter of a manga without a record is being fetched.
    AwaitingChapter { title: String },
    /// The record of the manga is being created.
    Creating { title: String },
    /// The request has been answered.
    Finished,
}

/// The outcome of the step that the caller performed.
pub enum TrackEvent {
    /// The record of the manga, if the store holds one.
    Record(Result<Option<Manga>, StoreError>),
    /// The manga's preferred title, if it has one.
    Title(crate::mangadex::Result<Option<String>>),
    /// The manga's latest chapter, if it has one.
    LatestChapter(crate::mangadex::Result<Option<Chapter>>),
    /// A store write (adding the channel, or creating the record) finished.
    Written(Result<(), StoreError>),
}

/// What the caller does next.
pub enum TrackStep {
    /// Read the record keyed by the request's manga id.
    ReadRecord,
    /// Add the request's channel to the subscribers of the record keyed by the
    /// request's manga id; adding a channel that is there already changes nothing.
    AddSubscriber,
    /// Fetch the manga's preferred title.
    FetchTitle,
    /// Fetch the manga's latest chapter.
    FetchLatestChapter,
    /// Create this record; it fails with a conflict where one with its id exists.
    CreateRecord(Manga),
    /// Answer the request with this text; the request is over.
    Reply(String),
}

/// A track request in progress.
pub struct TrackRequest {
    pub manga_id: String,
    pub channel: ChannelId,
    pub state: TrackState,
    /// Whether the request already fell back from a conflicting create.
    pub retried: bool,
}

pub enum TrackStateView {
    Looking,
    Subscribing { title: Seq<char> },
    AwaitingTitle,
    AwaitingChapter { title: Seq<char> },
    Creating { title: Seq<char> },
    Finished,
}

pub enum TrackEventView {
    Record(Result<Option<TrackedItem>, StoreError>),
    Title(Result<Option<Seq<char>>, Seq<char>>),
    LatestChapter(Result<Option<Seq<char>>, Seq<char>>),
    Written(Result<(), StoreError>),
}

pub enum TrackStepView {
    ReadRecord,
    AddSubscriber,
    FetchTitle,
    FetchLatestChapter,
    CreateRecord(TrackedItem),
    Reply(Seq<char>),
}

pub struct TrackRequestView {
    pub manga_id: Seq<char>,
    pub channel: ChannelId,
    pub state: TrackStateView,
    pub retried: bool,
}

impl View for TrackState {
    type V = TrackStateView;

    open spec fn view(&self) -> TrackStateView {
        match self {
            TrackState::Looking => TrackStateView::Looking,
            TrackState::Subscribing { title } => TrackStateView::Subscribing { title: title@ },
            TrackState::AwaitingTitle => TrackStateView::AwaitingTitle,
            TrackState::AwaitingChapter { title } => TrackStateView::AwaitingChapter { title: title@ },
            TrackState::Creating { title } => TrackStateView::Creating { title: title@ },
            TrackState::Finished => TrackStateView::Finished,
        }
    }
}

impl View for TrackEvent {
    type V = TrackEventView;

    open spec fn view(&self) -> TrackEventView {
        match self {
            TrackEvent::Record(r) => TrackEventView::Record(
                match r {
                    Ok(Some(m)) => Ok(Some(m@)),
                    Ok(None) => Ok(None),
                    Err(e) => Err(*e),
                },
            ),
            TrackEvent::Title(r) => TrackEventView::Title(
                match r {
                    Ok(t) => Ok(crate::text::opt_text(*t)),
                    Err(e) => Err(error_text(*e)),
                },
            ),
            TrackEvent::LatestChapter(r) => TrackEventView::LatestChapter(
                match r {
                    Ok(Some(c)) => Ok(Some(c.id@)),
                    Ok(None) => Ok(None),
                    Err(e) => Err(error_text(*e)),
                },
            ),
            TrackEvent::Written(r) => TrackEventView::Written(*r),
        }
    }
}

impl View for TrackStep {
    type V = TrackStepView;

    open spec fn view(&self) -> TrackStepView {
        match self {
            TrackStep::ReadRecord => TrackStepView::ReadRecord,
            TrackStep::AddSubscriber => TrackStepView::AddSubscriber,
            TrackStep::FetchTitle => TrackStepView::FetchTitle,
            TrackStep::FetchLatestChapter => TrackStepView::FetchLatestChapter,
            TrackStep::CreateRecord(m) => TrackStepView::CreateRecord(m@),
            TrackStep::Reply(t) => TrackStepView::Reply(t@),
        }
    }
}

impl View for TrackRequest {
    type V = TrackRequestView;

    open spec fn view(&self) -> TrackRequestView {
        TrackRequestView {
            manga_id: self.manga_id@,
            channel: self.channel,
            state: self.state@,
            retried: self.retried,
        }
    }
}

/// The record that a request creates for a manga that had none: the chapter
/// that was latest at that time is its baseline, and the requesting channel its
/// only subscriber.
pub open spec fn new_item(
    manga_id: Seq<char>,
    title: Seq<char>,
    baseline: Option<Seq<char>>,
    channel: ChannelId,
) -> TrackedItem {
    TrackedItem { id: manga_id, title, last_seen: baseline, subscribers: seq![channel] }
}

/// The request in a new state.
pub open spec fn moved(req: TrackRequestView, state: TrackStateView) -> TrackRequestView {
    TrackRequestView { state, ..req }
}

/// The request answered with `text`.
pub open spec fn answered(req: TrackRequestView, text: Seq<char>) -> (TrackRequestView, TrackStepView) {
    (moved(req, TrackStateView::Finished), TrackStepView::Reply(text))
}

/// How a request moves on the outcome of its last step, and what it asks for next.
pub open spec fn track_transition(req: TrackRequestView, event: TrackEventView) -> (TrackRequestView, TrackStepView) {
    match (req.state, event) {
        (TrackStateView::Looking, TrackEventView::Record(Ok(Some(item)))) => {
            if item.subscribers.contains(req.channel) {
                answered(req, ALREADY_TRACKED@)
            } else {
                (moved(req, TrackStateView::Subscribing { title: item.title }), TrackStepView::AddSubscriber)
            }
        },
        (TrackStateView::Looking, TrackEventView::Record(Ok(None))) => {
            if req.retried {
                answered(req, FAILURE@)
            } else {
                (moved(req, TrackStateView::AwaitingTitle), TrackStepView::FetchTitle)
            }
        },
        (TrackStateView::AwaitingTitle, TrackEventView::Title(Ok(t))) => {
            let title = match t {
                Some(t) => t,
                None => req.manga_id,
            };
            (moved(req, TrackStateView::AwaitingChapter { title }), TrackStepView::FetchLatestChapter)
        },
        (TrackStateView::AwaitingTitle, TrackEventView::Title(Err(e))) => answered(req, e),
        (TrackStateView::AwaitingChapter { title }, TrackEventView::LatestChapter(Ok(c))) => (
            moved(req, TrackStateView::Creating { title }),
            TrackStepView::CreateRecord(new_item(req.manga_id, title, c, req.channel)),
        ),
        (TrackStateView::AwaitingChapter { .. }, TrackEventView::LatestChapter(Err(e))) => answered(req, e),
        (TrackStateView::Creating { title }, TrackEventView::Written(Ok(()))) => answered(req, now_tracking(title)),
        (TrackStateView::Creating { .. }, TrackEventView::Written(Err(StoreError::Conflict))) => {
            if req.retried {
                answered(req, FAILURE@)
            } else {
                (
                    TrackRequestView { state: TrackStateView::Looking, retried: true, ..req },
                    TrackStepView::ReadRecord,
                )
            }
        },
        (TrackStateView::Subscribing { title }, TrackEventView::Written(Ok(()))) => answered(req, now_tracking(title)),
        _ => answered(req, FAILURE@),
    }
}

impl TrackRequest {
    /// Starts a request from its argument (a manga id or URL) and the channel it
    /// came from. Where the argument names a manga, the first step is to read its
    /// record; otherwise the request is answered at once.
    pub fn start(url_or_id: &str, channel: ChannelId) -> (r: (TrackRequest, TrackStep))
        ensures
            match crate::reference::referenced_manga_id(url_or_id@) {
                Some(id) => {
                    &&& r.0@ == TrackRequestView {
                        manga_id: id,
                        channel,
                        state: TrackStateView::Looking,
                        retried: false,
                    }
                    &&& r.1@ == TrackStepView::ReadRecord
                },
                None => r.0@.state == TrackStateView::Finished && r.1@ == TrackStepView::Reply(INVALID_REFERENCE@),
            },
    {
        match crate::reference::manga_id_from_option(url_or_id) {
            Some(manga_id) => (
                TrackRequest { manga_id, channel, state: TrackState::Looking, retried: false },
                TrackStep::ReadRecord,
            ),
            None => (
                TrackRequest { manga_id: String::new(), channel, state: TrackState::Finished, retried: false },
                TrackStep::Reply(INVALID_REFERENCE.to_owned()),
            ),
        }
    }

    fn answer(&mut self, text: String) -> (r: TrackStep)
        ensures
            (final(self)@, r@) == answered(old(self)@, text@),
    {
        self.state = TrackState::Finished;
        TrackStep::Reply(text)
    }

    /// Takes the outcome of the last step and returns the next one.
    pub fn step(&mut self, event: TrackEvent) -> (r: TrackStep)
        ensures
            (final(self)@, r@) == track_transition(old(self)@, event@),
    {
        match (&self.state, event) {
            (TrackState::Looking, TrackEvent::Record(Ok(Some(record)))) => {
                let mut known = false;
                let mut i: usize = 0;
                while i < record.channels.len()
                    invariant
                        i <= record.channels@.len(),
                        known <==> exists|j: int| 0 <= j < i && record.channels@[j] == self.channel,
                    decreases record.channels@.len() - i,
                {
                    if record.channels[i] == self.channel {
                        known = true;
                    }
                    i = i + 1;
                }
                if known {
                    self.answer(ALREADY_TRACKED.to_owned())
                } else {
                    self.state = TrackState::Subscribing { title: record.title };
                    TrackStep::AddSubscriber
                }
            },
            (TrackState::Looking, TrackEvent::Record(Ok(None))) => {
                if self.retried {
                    self.answer(FAILURE.to_owned())
                } else {
                    self.state = TrackState::AwaitingTitle;
                    TrackStep::FetchTitle
                }
            },
            (TrackState::AwaitingTitle, TrackEvent::Title(Ok(t))) => {
                let title = match t {
                    Some(t) => t,
                    None => self.manga_id.clone(),
                };
                self.state = TrackState::AwaitingChapter { title };
                TrackStep::FetchLatestChapter
            },
            (TrackState::AwaitingTitle, TrackEvent::Title(Err(e))) => self.answer(e.message()),
            (TrackState::AwaitingChapter { title }, TrackEvent::LatestChapter(Ok(c))) => {
                let title = title.clone();
                let latest_chapter_id = match c {
                    Some(c) => Some(c.id),
                    None => None,
                };
                let record = Manga {
                    id: self.manga_id.clone(),
                    title: title.clone(),
                    latest_chapter_id,
                    channels: vec![self.channel],
                };
                assert(record.channels@ =~= seq![self.channel]);
                self.state = TrackState::Creating { title };
                TrackStep::CreateRecord(record)
            },
            (TrackState::AwaitingChapter { .. }, TrackEvent::LatestChapter(Err(e))) => self.answer(e.message()),
            (TrackState::Creating { title }, TrackEvent::Written(Ok(()))) => {
                let text = reply_now_tracking(title.as_str());
                self.answer(text)
            },
            (TrackState::Creating { .. }, TrackEvent::Written(Err(StoreError::Conflict))) => {
                if self.retried {
                    self.answer(FAILURE.to_owned())
                } else {
                    self.state = TrackState::Looking;
                    self.retried = true;
                    TrackStep::ReadRecord
                }
            },
            (TrackState::Subscribing { title }, TrackEvent::Written(Ok(()))) => {
                let text = reply_now_tracking(title.as_str());
                self.answer(text)
            },
            _ => self.answer(FAILURE.to_owned()),
        }
    }
}

/// The reply once the channel tracks the manga with this title.
pub fn reply_now_tracking(title: &str) -> (r: String)
    ensures
        r@ == now_tracking(title@),
{
    let mut r = crate::text::joined("Now tracking ", title);
    r.append(".");
    r
}


/// What the store's add-subscriber operation makes of a record: the channel
/// joins the subscribers unless it is among them already.
pub open spec fn with_subscriber(item: TrackedItem, channel: ChannelId) -> TrackedItem {
    if item.subscribers.contains(channel) {
        item
    } else {
        TrackedItem { subscribers: item.subscribers.push(channel), ..item }
    }
}

/// The record that the store holds after a request that found `record`, where
/// the fetches gave `title` and `chapter` and every store operation succeeded.
pub open spec fn record_after_request(
    req: TrackRequestView,
    record: Option<TrackedItem>,
    title: Option<Seq<char>>,
    chapter: Option<Seq<char>>,
) -> TrackedItem {
    let (looked, first) = track_transition(req, TrackEventView::Record(Ok(record)));
    match first {
        TrackStepView::AddSubscriber => with_subscriber(record->0, req.channel),
        TrackStepView::FetchTitle => {
            let (titled, _) = track_transition(looked, TrackEventView::Title(Ok(title)));
            match track_transition(titled, TrackEventView::LatestChapter(Ok(chapter))).1 {
                TrackStepView::CreateRecord(item) => item,
                _ => record->0,
            }
        },
        _ => record->0,
    }
}

/// Tracking a manga twice from the same channel: after the first request the
/// record lists the channel exactly once, and the second request answers that
/// the manga is already tracked, and writes nothing.
pub proof fn lemma_track_twice(
    req: TrackRequestView,
    record: Option<TrackedItem>,
    title: Option<Seq<char>>,
    chapter: Option<Seq<char>>,
)
    requires
        req.state == TrackStateView::Looking,
        !req.retried,
        record matches Some(item) ==> item.wf(),
    ensures
        ({
            let after = record_after_request(req, record, title, chapter);
            &&& after.subscribers.to_multiset().count(req.channel) == 1
            &&& track_transition(req, TrackEventView::Record(Ok(Some(after))))
                == answered(req, ALREADY_TRACKED@)
        }),
{
    broadcast use vstd::seq_lib::group_to_multiset_ensures;
    let after = record_after_request(req, record, title, chapter);
    match record {
        Some(item) => {
            if item.subscribers.contains(req.channel) {
                item.subscribers.lemma_multiset_has_no_duplicates();
            } else {
                assert(item.subscribers.to_multiset().count(req.channel) == 0);
                assert(after.subscribers == item.subscribers.push(req.channel));
                assert(after.subscribers[item.subscribers.len() as int] == req.channel);
            }
        },
        None => {
            assert(after.subscribers == seq![req.channel]);
            assert(seq![req.channel] =~= Seq::<ChannelId>::empty().push(req.channel));
            assert(after.subscribers[0] == req.channel);
        },
    }
}

/// A record created by a track request takes the chapter that was latest at
/// that time as its baseline, so a scan that observes that same chapter
/// reports no update.
pub proof fn lemma_baseline_not_reported(req: TrackRequestView, chapter: Option<Seq<char>>)
    requires
        req.state is AwaitingChapter,
    ensures
        match track_transition(req, TrackEventView::LatestChapter(Ok(chapter))).1 {
            TrackStepView::CreateRecord(item) => item.last_seen == chapter
                && !crate::scan::update_due(item.last_seen, chapter),
            _ => false,
        },
{
}

} // verus!
