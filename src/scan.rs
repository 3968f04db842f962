//! Detection of new chapters during a scan, and the notifications that an
//! update fans out to.

use crate::db::{ChannelId, Manga, TrackedItem};
use crate::mangadex::{Chapter, ChapterAttributes};
use vstd::prelude::*;

verus! {

/// A new chapter of a tracked manga, on its way to the channels that track it.
pub struct UpdateEvent {
    pub manga_id: String,
    pub manga_title: String,
    pub chapter: Chapter,
    /// The channels that tracked the manga when the scan saw the chapter.
    pub channels: Vec<ChannelId>,
}

/// Whether a scan that observed `observed` as the latest chapter id reports an
/// update to a record whose last seen chapter id is `last_seen`.
pub open spec fn update_due(last_seen: Option<Seq<char>>, observed: Option<Seq<char>>) -> bool {
    observed is Some && observed != last_seen
}

/// The last seen chapter id after a scan that observed `observed`.
pub open spec fn next_last_seen(last_seen: Option<Seq<char>>, observed: Option<Seq<char>>) -> Option<Seq<char>> {
    if update_due(last_seen, observed) {
        observed
    } else {
        last_seen
    }
}

/// Checks one tracked manga against the result of fetching its latest chapter.
///
/// Where the fetch found a chapter other than the last one seen, the record
/// takes its id and the update is returned for the channels that track the
/// manga. A failed fetch, no chapter at all, or the chapter already seen leave
/// the record as it was.
pub fn check_for_updates(manga: &mut Manga, latest: crate::mangadex::Result<Option<Chapter>>) -> (r: Option<UpdateEvent>)
    ensures
        ({
            let observed = crate::mangadex::observed_chapter_id(latest);
            &&& final(manga)@ == TrackedItem {
                last_seen: next_last_seen(old(manga)@.last_seen, observed),
                ..old(manga)@
            }
            &&& (r is Some <==> update_due(old(manga)@.last_seen, observed))
            &&& r matches Some(e) ==> {
                &&& latest == crate::mangadex::Result::<Option<Chapter>>::Ok(Some(e.chapter))
                &&& e.manga_id@ == old(manga)@.id
                &&& e.manga_title@ == old(manga)@.title
                &&& e.channels@ == old(manga)@.subscribers
            }
        }),
{
    let updated = match &manga.latest_chapter_id {
        Some(id) => crate::mangadex::updated_chapter(latest, Some(id.as_str())),
        None => crate::mangadex::updated_chapter(latest, None),
    };
    match updated {
        Ok(Some(chapter)) => {
            manga.latest_chapter_id = Some(chapter.id.clone());
            let channels = manga.channels.clone();
            assert(channels@ =~= manga.channels@);
            Some(UpdateEvent {
                manga_id: manga.id.clone(),
                manga_title: manga.title.clone(),
                chapter,
                channels,
            })
        },
        _ => None,
    }
}

/// The headline of a notification, most specific where the chapter's number
/// and title are known.
pub open spec fn headline(manga_title: Seq<char>, chapter: Option<Seq<char>>, title: Option<Seq<char>>) -> Seq<char> {
    match (chapter, title) {
        (Some(ch), Some(t)) => "New chapter!\n"@ + manga_title + " ch. "@ + ch + ": "@ + t,
        (Some(ch), None) => "New chapter!\n"@ + manga_title + " ch. "@ + ch,
        _ => "New chapter for "@ + manga_title + "!"@,
    }
}

/// A notification's text: the headline, then the link on a line of its own
/// where there is one.
pub open spec fn notification_text(
    manga_title: Seq<char>,
    attributes: ChapterAttributes,
    link: Option<Seq<char>>,
) -> Seq<char> {
    let h = headline(
        manga_title,
        crate::text::opt_text(attributes.chapter),
        crate::text::opt_text(attributes.title),
    );
    match link {
        Some(l) => h + "\n"@ + l,
        None => h,
    }
}

/// Renders the message about a new chapter.
pub fn update_message(manga_title: &str, attributes: &ChapterAttributes, link: Option<&str>) -> (r: String)
    ensures
        r@ == notification_text(manga_title@, *attributes, crate::text::opt_str(link)),
{
    let mut r = match (&attributes.chapter, &attributes.title) {
        (Some(ch), Some(title)) => {
            let mut m = crate::text::joined("New chapter!\n", manga_title);
            m.append(" ch. ");
            m.append(ch.as_str());
            m.append(": ");
            m.append(title.as_str());
            m
        },
        (Some(ch), None) => {
            let mut m = crate::text::joined("New chapter!\n", manga_title);
            m.append(" ch. ");
            m.append(ch.as_str());
            m
        },
        _ => {
            let mut m = crate::text::joined("New chapter for ", manga_title);
            m.append("!");
            m
        },
    };
    if let Some(l) = link {
        r.append("\n");
        r.append(l);
    }
    r
}

/// A message to send to one channel.
pub struct Notification {
    pub channel: ChannelId,
    pub text: String,
}

/// The text that every channel is sent about an update.
pub open spec fn event_text(event: UpdateEvent) -> Seq<char> {
    notification_text(
        event.manga_title@,
        event.chapter.attributes,
        crate::mangadex::joined_url(crate::mangadex::CHAPTER_PAGE@, event.chapter.id@),
    )
}

/// Whether `plan` holds one notification for each channel of the event's
/// snapshot, in order, each with the event's text.
pub open spec fn is_fanout_of(plan: Seq<Notification>, event: UpdateEvent) -> bool {
    &&& plan.len() == event.channels@.len()
    &&& forall|i: int| #![trigger plan[i]] 0 <= i < plan.len() ==> plan[i].channel == event.channels@[i]
        && plan[i].text@ == event_text(event)
}

/// The channels that a plan addresses, in order.
pub open spec fn addressed(plan: Seq<Notification>) -> Seq<ChannelId> {
    plan.map_values(|n: Notification| n.channel)
}

/// The notifications that an update fans out to: one for each channel of its
/// snapshot, in order, each with the same text. Every one of them is to be
/// sent, whatever became of the others.
pub fn notifications(event: &UpdateEvent) -> (r: Vec<Notification>)
    ensures
        is_fanout_of(r@, *event),
{
    let link = event.chapter.url();
    let link_str = match &link {
        Some(l) => Some(l.as_str()),
        None => None,
    };
    let text = update_message(event.manga_title.as_str(), &event.chapter.attributes, link_str);
    let mut r: Vec<Notification> = Vec::new();
    let mut i: usize = 0;
    while i < event.channels.len()
        invariant
            i <= event.channels@.len(),
            r@.len() == i,
            text@ == event_text(*event),
            forall|j: int| 0 <= j < i ==> {
                &&& #[trigger] r@[j].channel == event.channels@[j]
                &&& r@[j].text@ == event_text(*event)
            },
        decreases event.channels@.len() - i,
    {
        r.push(Notification { channel: event.channels[i], text: text.clone() });
        i = i + 1;
    }
    assert forall|j: int| #![trigger r@[j]] 0 <= j < r@.len() implies r@[j].channel == event.channels@[j]
        && r@[j].text@ == event_text(*event) by {
        assert(r@[j].channel == event.channels@[j]);
    }
    r
}

/// An update fans out to exactly one notification for each channel of its
/// snapshot, and to none for any other channel.
pub proof fn lemma_fanout_once_per_channel(event: UpdateEvent, plan: Seq<Notification>)
    requires
        is_fanout_of(plan, event),
        event.channels@.no_duplicates(),
    ensures
        forall|c: ChannelId| #[trigger] addressed(plan).to_multiset().count(c)
            == if event.channels@.contains(c) { 1nat } else { 0nat },
{
    broadcast use vstd::seq_lib::group_to_multiset_ensures;
    assert(addressed(plan) =~= event.channels@);
    event.channels@.lemma_multiset_has_no_duplicates();
    assert forall|c: ChannelId| #[trigger] addressed(plan).to_multiset().count(c)
        == if event.channels@.contains(c) { 1nat } else { 0nat } by {
        if event.channels@.contains(c) {
            assert(event.channels@.to_multiset().contains(c));
        }
    }
}

/// The last seen chapter id of a record after a run of scans, each of which
/// observed the given latest chapter id (`None` where it found no chapter or
/// failed).
pub open spec fn last_seen_after(initial: Option<Seq<char>>, observations: Seq<Option<Seq<char>>>) -> Option<Seq<char>>
    decreases observations.len(),
{
    if observations.len() == 0 {
        initial
    } else {
        next_last_seen(last_seen_after(initial, observations.drop_last()), observations.last())
    }
}

/// The index of the last scan in a run that observed a chapter, or -1.
pub open spec fn last_observing_scan(observations: Seq<Option<Seq<char>>>) -> int
    decreases observations.len(),
{
    if observations.len() == 0 {
        -1
    } else if observations.last() is Some {
        observations.len() - 1
    } else {
        last_observing_scan(observations.drop_last())
    }
}

/// The last seen chapter id only moves forward along the scans: after any run
/// of scans it is the id that the latest observing scan saw (the initial
/// value where none saw one), the scan it comes from never moves back, and
/// once set it is never cleared.
pub proof fn lemma_last_seen_moves_forward(
    initial: Option<Seq<char>>,
    observations: Seq<Option<Seq<char>>>,
    i: int,
    k: int,
)
    requires
        0 <= i <= k <= observations.len(),
    ensures
        last_observing_scan(observations.take(i)) <= last_observing_scan(observations.take(k)),
        last_seen_after(initial, observations.take(k)) == if last_observing_scan(observations.take(k)) < 0 {
            initial
        } else {
            observations[last_observing_scan(observations.take(k))]
        },
        last_seen_after(initial, observations.take(i)) is Some
            ==> last_seen_after(initial, observations.take(k)) is Some,
    decreases k,
{
    lemma_last_seen_is_latest_observed(initial, observations.take(k));
    lemma_last_observing_scan_in_range(observations.take(k));
    if i < k {
        let prev = observations.take(k - 1);
        assert(observations.take(k).drop_last() =~= prev);
        assert(prev =~= observations.take(k).take(k - 1));
        lemma_last_seen_moves_forward(initial, observations, i, k - 1);
        lemma_last_observing_scan_in_range(prev);
        lemma_last_seen_is_latest_observed(initial, prev);
        let lp = last_observing_scan(prev);
        if lp >= 0 {
            assert(prev[lp] == observations[lp]);
        }
        let lk = last_observing_scan(observations.take(k));
        if lk >= 0 {
            assert(observations.take(k)[lk] == observations[lk]);
        }
    } else {
        let lk = last_observing_scan(observations.take(k));
        if lk >= 0 {
            assert(observations.take(k)[lk] == observations[lk]);
        }
    }
}

proof fn lemma_last_observing_scan_in_range(observations: Seq<Option<Seq<char>>>)
    ensures
        -1 <= last_observing_scan(observations) < observations.len(),
        last_observing_scan(observations) >= 0 ==> observations[last_observing_scan(observations)] is Some,
    decreases observations.len(),
{
    if observations.len() > 0 {
        lemma_last_observing_scan_in_range(observations.drop_last());
    }
}

proof fn lemma_last_seen_is_latest_observed(initial: Option<Seq<char>>, observations: Seq<Option<Seq<char>>>)
    ensures
        last_seen_after(initial, observations) == if last_observing_scan(observations) < 0 {
            initial
        } else {
            observations[last_observing_scan(observations)]
        },
    decreases observations.len(),
{
    if observations.len() > 0 {
        let prev = observations.drop_last();
        lemma_last_seen_is_latest_observed(initial, prev);
        lemma_last_observing_scan_in_range(prev);
    }
}

} // verus!
