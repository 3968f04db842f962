//! Resolution of the argument of a track request (a manga id, or the URL of
//! the manga's MangaDex page) to the manga's id.

use vstd::prelude::*;

verus! {

/// The parts of a parsed URL that the resolution reads.
pub struct UrlParts {
    /// The host, as the URL serializes it, if the URL has one.
    pub host: Option<String>,
    /// The segments of the path between `/` characters, unless the URL
    /// cannot be a base.
    pub path_segments: Option<Vec<String>>,
}

/// The characters of each segment.
pub open spec fn segments_text(segments: Seq<String>) -> Seq<Seq<char>> {
    segments.map_values(|s: String| s@)
}

impl View for UrlParts {
    type V = (Option<Seq<char>>, Option<Seq<Seq<char>>>);

    open spec fn view(&self) -> (Option<Seq<char>>, Option<Seq<Seq<char>>>) {
        (
            crate::text::opt_text(self.host),
            match self.path_segments {
                Some(s) => Some(segments_text(s@)),
                None => None,
            },
        )
    }
}

/// The host and path segments of the URL that `input` parses to, or `None`
/// where it is no URL.
pub uninterp spec fn url_parts(input: Seq<char>) -> Option<(Option<Seq<char>>, Option<Seq<Seq<char>>>)>;

/// The hyphenated lower-case form of the UUID that `input` spells, or `None`
/// where it spells none.
pub uninterp spec fn uuid_text(input: Seq<char>) -> Option<Seq<char>>;

/// Relies on `url::Url::parse`, and on its `host_str` and `path_segments` for
/// the parts of the result.
#[verifier::external_body]
fn parse_url(input: &str) -> (r: Option<UrlParts>)
    ensures
        match r {
            Some(p) => url_parts(input@) == Some(p@),
            None => url_parts(input@) is None,
        },
{
    url::Url::parse(input).ok().map(|u| UrlParts {
        host: u.host_str().map(|h| h.to_string()),
        path_segments: u.path_segments().map(|s| s.map(|x| x.to_string()).collect()),
    })
}

/// Relies on `bson::Uuid::parse_str`, and on the `Display` of `bson::Uuid` to
/// write the result.
#[verifier::external_body]
fn parse_uuid(input: &str) -> (r: Option<String>)
    ensures
        crate::text::opt_text(r) == uuid_text(input@),
{
    bson::Uuid::parse_str(input).ok().map(|u| u.to_string())
}

/// The host of MangaDex's site.
pub const SITE_HOST: &'static str = "mangadex.org";

/// The path segment before a manga's id in the URL of its page.
pub const TITLE_SEGMENT: &'static str = "title";

/// The manga id that a URL's parts name: the host is MangaDex's, the first
/// path segment is `title`, and the second spells a UUID.
pub open spec fn manga_id_in_url(parts: (Option<Seq<char>>, Option<Seq<Seq<char>>>)) -> Option<Seq<char>> {
    if parts.0 == Some(SITE_HOST@) && parts.1 is Some && parts.1->0.len() >= 2
        && parts.1->0[0] == TITLE_SEGMENT@ {
        uuid_text(parts.1->0[1])
    } else {
        None
    }
}

/// The manga id that a track request's argument names: the argument spells
/// a UUID itself, or it is the URL of a manga's page.
pub open spec fn referenced_manga_id(input: Seq<char>) -> Option<Seq<char>> {
    match uuid_text(input) {
        Some(id) => Some(id),
        None => match url_parts(input) {
            Some(parts) => manga_id_in_url(parts),
            None => None,
        },
    }
}

/// Parses a MangaDex URL to a specific manga, extracting the manga id.
pub fn manga_id_from_url(url: &UrlParts) -> (r: Option<String>)
    ensures
        crate::text::opt_text(r) == manga_id_in_url(url@),
{
    let on_site = match &url.host {
        Some(h) => crate::text::same_text(h.as_str(), SITE_HOST),
        None => false,
    };
    if !on_site {
        return None;
    }
    let segments = match &url.path_segments {
        Some(s) => s,
        None => return None,
    };
    if segments.len() < 2 {
        return None;
    }
    if !crate::text::same_text(segments[0].as_str(), TITLE_SEGMENT) {
        return None;
    }
    parse_uuid(segments[1].as_str())
}

/// Extracts the manga id from a track request's argument, which is either an
/// id or a URL.
pub fn manga_id_from_option(url_or_id: &str) -> (r: Option<String>)
    ensures
        crate::text::opt_text(r) == referenced_manga_id(url_or_id@),
{
    if let Some(id) = parse_uuid(url_or_id) {
        Some(id)
    } else if let Some(url) = parse_url(url_or_id) {
        manga_id_from_url(&url)
    } else {
        None
    }
}


/// How an argument that spells no UUID itself resolves: the URL of a manga's
/// page on MangaDex (`https://mangadex.org/title/{id}/...`) resolves to the
/// id; a URL on another host, one whose path does not start with `title`,
/// one whose id is malformed, and text that is no URL resolve to nothing.
pub proof fn lemma_url_resolution(input: Seq<char>)
    requires
        uuid_text(input) is None,
    ensures
        url_parts(input) matches Some(parts) ==> {
            &&& (parts.0 == Some(SITE_HOST@) && (parts.1 matches Some(segments) && segments.len() >= 2
                && segments[0] == TITLE_SEGMENT@))
                ==> referenced_manga_id(input) == uuid_text(parts.1->0[1])
            &&& parts.0 != Some(SITE_HOST@) ==> referenced_manga_id(input) is None
            &&& (parts.1 matches Some(segments) && segments.len() >= 1 && segments[0] != TITLE_SEGMENT@)
                ==> referenced_manga_id(input) is None
            &&& (parts.1 matches Some(segments) && segments.len() >= 2 && uuid_text(segments[1]) is None)
                ==> referenced_manga_id(input) is None
        },
        url_parts(input) is None ==> referenced_manga_id(input) is None,
{
}

} // verus!
