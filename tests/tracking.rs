use mangadex_bot::db::{Manga, StoreError};
use mangadex_bot::mangadex::{ApiError, Chapter, ChapterAttributes, Error};
use mangadex_bot::scan::check_for_updates;
use mangadex_bot::track::{
    reply_now_tracking, TrackEvent, TrackRequest, TrackState, TrackStep, ALREADY_TRACKED, FAILURE,
    INVALID_REFERENCE,
};

const X: &str = "a96676e5-8ae2-425e-b549-7f15dd34a6d8";

fn chapter(id: &str) -> Chapter {
    Chapter {
        id: id.to_string(),
        attributes: ChapterAttributes {
            title: None,
            volume: None,
            chapter: Some("1".to_string()),
            pages: 10,
            translated_language: None,
            created_at: None,
            updated_at: None,
            published_at: None,
            readable_at: None,
        },
    }
}

fn record(last: Option<&str>, channels: Vec<u64>) -> Manga {
    Manga {
        id: X.to_string(),
        title: "Title".to_string(),
        latest_chapter_id: last.map(|s| s.to_string()),
        channels,
    }
}

fn copy(m: &Manga) -> Manga {
    Manga {
        id: m.id.clone(),
        title: m.title.clone(),
        latest_chapter_id: m.latest_chapter_id.clone(),
        channels: m.channels.clone(),
    }
}

fn reply(step: TrackStep) -> String {
    match step {
        TrackStep::Reply(text) => text,
        _ => panic!("expected a reply"),
    }
}

/// Runs a request whose manga has no record: the fetches give `title` and
/// `latest`, and the create succeeds. Returns the created record and the reply.
fn track_new(channel: u64, title: Option<&str>, latest: Option<Chapter>) -> (Manga, String) {
    let (mut req, step) = TrackRequest::start(X, channel);
    assert!(matches!(step, TrackStep::ReadRecord));
    assert!(matches!(req.step(TrackEvent::Record(Ok(None))), TrackStep::FetchTitle));
    let step = req.step(TrackEvent::Title(Ok(title.map(|t| t.to_string()))));
    assert!(matches!(step, TrackStep::FetchLatestChapter));
    let created = match req.step(TrackEvent::LatestChapter(Ok(latest))) {
        TrackStep::CreateRecord(m) => m,
        _ => panic!("expected a create"),
    };
    let text = reply(req.step(TrackEvent::Written(Ok(()))));
    (created, text)
}

#[test]
fn scan_reports_new_chapter_and_records_it() {
    let mut m = record(Some("c1"), vec![1, 2]);
    let event = check_for_updates(&mut m, Ok(Some(chapter("c2")))).expect("an update");
    assert_eq!(event.chapter.id, "c2");
    assert_eq!(event.manga_id, X);
    assert_eq!(event.manga_title, "Title");
    assert_eq!(event.channels, vec![1, 2]);
    assert_eq!(m.latest_chapter_id.as_deref(), Some("c2"));
}

#[test]
fn scan_of_seen_chapter_reports_nothing() {
    let mut m = record(Some("c1"), vec![1]);
    assert!(check_for_updates(&mut m, Ok(Some(chapter("c1")))).is_none());
    assert_eq!(m.latest_chapter_id.as_deref(), Some("c1"));
}

#[test]
fn failed_or_empty_scan_changes_nothing() {
    let mut m = record(Some("c1"), vec![1]);
    assert!(check_for_updates(&mut m, Err(Error::NetworkError)).is_none());
    assert!(check_for_updates(&mut m, Ok(None)).is_none());
    assert_eq!(m.latest_chapter_id.as_deref(), Some("c1"));
}

#[test]
fn last_seen_only_moves_to_observed_chapters() {
    let mut m = record(None, vec![1]);
    let observations: Vec<Result<Option<Chapter>, Error>> = vec![
        Ok(Some(chapter("c1"))),
        Err(Error::NetworkError),
        Ok(None),
        Ok(Some(chapter("c2"))),
        Ok(Some(chapter("c2"))),
    ];
    let mut seen = Vec::new();
    for o in observations {
        check_for_updates(&mut m, o);
        seen.push(m.latest_chapter_id.clone());
    }
    let expected: Vec<Option<String>> = vec![
        Some("c1".to_string()),
        Some("c1".to_string()),
        Some("c1".to_string()),
        Some("c2".to_string()),
        Some("c2".to_string()),
    ];
    assert_eq!(seen, expected);
}

#[test]
fn baseline_of_new_record_is_not_reported() {
    let (mut created, text) = track_new(5, Some("Title"), Some(chapter("b1")));
    assert_eq!(text, "Now tracking Title.");
    assert_eq!(created.latest_chapter_id.as_deref(), Some("b1"));
    assert_eq!(created.channels, vec![5]);
    assert!(check_for_updates(&mut created, Ok(Some(chapter("b1")))).is_none());
}

#[test]
fn tracking_twice_keeps_one_entry_and_reports_already_tracked() {
    let existing = record(Some("c1"), vec![7]);
    let (mut first, step) = TrackRequest::start(X, 9);
    assert!(matches!(step, TrackStep::ReadRecord));
    let step = first.step(TrackEvent::Record(Ok(Some(copy(&existing)))));
    assert!(matches!(step, TrackStep::AddSubscriber));
    assert_eq!(reply(first.step(TrackEvent::Written(Ok(())))), "Now tracking Title.");

    let after = record(Some("c1"), vec![7, 9]);
    let (mut second, _) = TrackRequest::start(X, 9);
    assert_eq!(reply(second.step(TrackEvent::Record(Ok(Some(after))))), ALREADY_TRACKED);
    assert!(matches!(second.state, TrackState::Finished));
}

#[test]
fn tracking_new_manga_twice_reports_already_tracked() {
    let (created, _) = track_new(3, Some("Title"), None);
    assert_eq!(created.channels, vec![3]);
    let (mut again, _) = TrackRequest::start(X, 3);
    assert_eq!(reply(again.step(TrackEvent::Record(Ok(Some(created))))), ALREADY_TRACKED);
}

#[test]
fn end_to_end_track_scan_and_second_subscriber() {
    // Track an id with no chapters yet.
    let (mut m, text) = track_new(1, None, None);
    assert_eq!(text, format!("Now tracking {X}."));
    assert_eq!(m.title, X);
    assert_eq!(m.latest_chapter_id, None);
    assert_eq!(m.channels, vec![1]);

    // A later scan finds the first chapter.
    let event = check_for_updates(&mut m, Ok(Some(chapter("C1")))).expect("an update");
    assert_eq!(event.manga_id, X);
    assert_eq!(event.chapter.id, "C1");
    assert_eq!(m.latest_chapter_id.as_deref(), Some("C1"));

    // A second channel tracks it before any new chapter.
    let (mut req, _) = TrackRequest::start(&format!("https://mangadex.org/title/{X}/slug"), 2);
    assert!(matches!(req.step(TrackEvent::Record(Ok(Some(copy(&m))))), TrackStep::AddSubscriber));
    assert_eq!(reply(req.step(TrackEvent::Written(Ok(())))), format!("Now tracking {X}."));
    m.channels.push(2);

    // The next scan sees the same chapter and emits nothing.
    assert!(check_for_updates(&mut m, Ok(Some(chapter("C1")))).is_none());
}

#[test]
fn invalid_reference_is_answered_at_once() {
    let (req, step) = TrackRequest::start("https://example.com/title/x", 1);
    assert_eq!(reply(step), INVALID_REFERENCE);
    assert!(matches!(req.state, TrackState::Finished));
}

#[test]
fn failed_title_fetch_is_reported() {
    let (mut req, _) = TrackRequest::start(X, 1);
    req.step(TrackEvent::Record(Ok(None)));
    let err = Error::Api(vec![ApiError {
        id: "e".to_string(),
        status: 404,
        title: "t".to_string(),
        detail: "Not found".to_string(),
    }]);
    assert_eq!(
        reply(req.step(TrackEvent::Title(Err(err)))),
        "An error was returned by the MangaDex API: Not found"
    );
}

#[test]
fn failed_chapter_fetch_is_reported() {
    let (mut req, _) = TrackRequest::start(X, 1);
    req.step(TrackEvent::Record(Ok(None)));
    req.step(TrackEvent::Title(Ok(None)));
    assert_eq!(
        reply(req.step(TrackEvent::LatestChapter(Err(Error::NetworkError)))),
        "An error occurred while communicating with the MangaDex."
    );
}

#[test]
fn store_failure_is_reported() {
    let (mut req, _) = TrackRequest::start(X, 1);
    assert_eq!(reply(req.step(TrackEvent::Record(Err(StoreError::Unavailable)))), FAILURE);
}

#[test]
fn conflicting_create_falls_back_to_subscribing() {
    let (mut req, _) = TrackRequest::start(X, 4);
    req.step(TrackEvent::Record(Ok(None)));
    req.step(TrackEvent::Title(Ok(Some("Title".to_string()))));
    req.step(TrackEvent::LatestChapter(Ok(None)));
    let step = req.step(TrackEvent::Written(Err(StoreError::Conflict)));
    assert!(matches!(step, TrackStep::ReadRecord));
    let step = req.step(TrackEvent::Record(Ok(Some(record(None, vec![8])))));
    assert!(matches!(step, TrackStep::AddSubscriber));
    assert_eq!(reply(req.step(TrackEvent::Written(Ok(())))), "Now tracking Title.");
}

#[test]
fn second_conflict_gives_up() {
    let (mut req, _) = TrackRequest::start(X, 4);
    req.step(TrackEvent::Record(Ok(None)));
    req.step(TrackEvent::Title(Ok(None)));
    req.step(TrackEvent::LatestChapter(Ok(None)));
    req.step(TrackEvent::Written(Err(StoreError::Conflict)));
    assert_eq!(reply(req.step(TrackEvent::Record(Ok(None)))), FAILURE);
}

#[test]
fn unexpected_event_ends_the_request() {
    let (mut req, _) = TrackRequest::start(X, 4);
    assert_eq!(reply(req.step(TrackEvent::Written(Ok(())))), FAILURE);
    assert!(matches!(req.state, TrackState::Finished));
}

#[test]
fn now_tracking_reply() {
    assert_eq!(reply_now_tracking("Berserk"), "Now tracking Berserk.");
}
