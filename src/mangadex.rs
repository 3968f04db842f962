//! Types and functions for the [MangaDex API](https://api.mangadex.org/docs/).

use vstd::hash_map::StringHashMap;
use vstd::prelude::*;

verus! {

/// An error returned by the MangaDex API.
#[derive(Debug, Clone)]
pub struct ApiError {
    pub id: String,
    pub status: i32,
    pub title: String,
    pub detail: String,
}

/// Errors returned by MangaDex operations.
#[derive(Debug, Clone)]
pub enum Error {
    NetworkError,
    Api(Vec<ApiError>),
}

/// Result type returned by MangaDex operations.
pub type Result<T> = core::result::Result<T, Error>;

/// The text that describes an error to a user.
pub open spec fn error_text(e: Error) -> Seq<char> {
    match e {
        Error::NetworkError => "An error occurred while communicating with the MangaDex."@,
        Error::Api(errors) => if errors@.len() == 0 {
            "An error was returned by the MangaDex API."@
        } else if errors@.len() == 1 {
            "An error was returned by the MangaDex API: "@ + errors@[0].detail@
        } else {
            "Many errors were returned by the MangaDex API, see logs for more information."@
        },
    }
}

impl Error {
    /// Describes this error to a user.
    pub fn message(&self) -> (r: String)
        ensures
            r@ == error_text(*self),
    {
        match self {
            Error::NetworkError => "An error occurred while communicating with the MangaDex.".to_owned(),
            Error::Api(errors) => if errors.len() == 0 {
                "An error was returned by the MangaDex API.".to_owned()
            } else if errors.len() == 1 {
                crate::text::joined("An error was returned by the MangaDex API: ", errors[0].detail.as_str())
            } else {
                "Many errors were returned by the MangaDex API, see logs for more information.".to_owned()
            },
        }
    }
}

/// A response from the MangaDex API that holds a single entity.
pub enum EntityResponse<T> {
    Success { data: T },
    Failure { errors: Vec<ApiError> },
}

impl<T> EntityResponse<T> {
    /// Converts this response into a [Result].
    pub fn into_result(self) -> (r: Result<T>)
        ensures
            match self {
                EntityResponse::Success { data } => r == Result::<T>::Ok(data),
                EntityResponse::Failure { errors } => r == Result::<T>::Err(Error::Api(errors)),
            },
    {
        match self {
            EntityResponse::Success { data } => Ok(data),
            EntityResponse::Failure { errors } => Err(Error::Api(errors)),
        }
    }
}

/// A response from the MangaDex API that holds a list of entities.
pub enum CollectionResponse<T> {
    Success { data: Vec<T> },
    Failure { errors: Vec<ApiError> },
}

impl<T> CollectionResponse<T> {
    /// Converts this response into a [Result].
    pub fn into_result(self) -> (r: Result<Vec<T>>)
        ensures
            match self {
                CollectionResponse::Success { data } => r == Result::<Vec<T>>::Ok(data),
                CollectionResponse::Failure { errors } => r == Result::<Vec<T>>::Err(Error::Api(errors)),
            },
    {
        match self {
            CollectionResponse::Success { data } => Ok(data),
            CollectionResponse::Failure { errors } => Err(Error::Api(errors)),
        }
    }
}


/// The API's page of a manga; its id is appended.
pub const MANGA_ENDPOINT: &'static str = "https://api.mangadex.org/manga/";

/// The API's list of chapters.
pub const CHAPTER_ENDPOINT: &'static str = "https://api.mangadex.org/chapter";

/// The site's page of a chapter; its id is appended.
pub const CHAPTER_PAGE: &'static str = "https://mangadex.org/chapter/";

/// The serialization of the URL that `reference` denotes relative to `base`,
/// or `None` where either does not parse.
pub uninterp spec fn joined_url(base: Seq<char>, reference: Seq<char>) -> Option<Seq<char>>;

/// The `application/x-www-form-urlencoded` serialization of the UTF-8 bytes of `s`.
pub uninterp spec fn form_encoded(s: Seq<char>) -> Seq<char>;

/// Relies on `url::Url::parse` and `url::Url::join`: `reference` resolved against
/// `base`, serialized.
#[verifier::external_body]
fn join_url(base: &str, reference: &str) -> (r: Option<String>)
    ensures
        crate::text::opt_text(r) == joined_url(base@, reference@),
{
    url::Url::parse(base).and_then(|b| b.join(reference)).ok().map(|u| u.to_string())
}

/// Relies on `url::form_urlencoded::byte_serialize`: the form-urlencoded text of `s`.
#[verifier::external_body]
fn form_encode(s: &str) -> (r: String)
    ensures
        r@ == form_encoded(s@),
{
    url::form_urlencoded::byte_serialize(s.as_bytes()).collect()
}

/// The titles of a manga, keyed by language code.
pub struct MangaAttributes {
    pub title: StringHashMap<String>,
}

/// The title a user is shown: English, else romanized Japanese, else romanized Chinese.
pub open spec fn preferred_title(titles: Map<Seq<char>, String>) -> Option<Seq<char>> {
    if titles.contains_key("en"@) {
        Some(titles["en"@]@)
    } else if titles.contains_key("ja-ro"@) {
        Some(titles["ja-ro"@]@)
    } else if titles.contains_key("zh-ro"@) {
        Some(titles["zh-ro"@]@)
    } else {
        None
    }
}

impl MangaAttributes {
    /// Attributes with no title.
    pub fn new() -> (r: MangaAttributes)
        ensures
            r.title@ == Map::<Seq<char>, String>::empty(),
    {
        MangaAttributes { title: StringHashMap::new() }
    }

    /// Sets the title in one language.
    pub fn insert_title(&mut self, language: String, title: String)
        ensures
            final(self).title@ == old(self).title@.insert(language@, title),
    {
        self.title.insert(language, title);
    }

    /// Gets the English title of this manga if it exists.
    ///
    /// If the manga has no English title, the romanized Japanese or Chinese
    /// title is returned instead.
    pub fn english_title(&self) -> (r: Option<&str>)
        ensures
            crate::text::opt_str(r) == preferred_title(self.title@),
    {
        if let Some(t) = self.title.get("en") {
            Some(t.as_str())
        } else if let Some(t) = self.title.get("ja-ro") {
            Some(t.as_str())
        } else if let Some(t) = self.title.get("zh-ro") {
            Some(t.as_str())
        } else {
            None
        }
    }
}

/// A manga as the API describes it.
pub struct Manga {
    pub id: String,
    pub attributes: MangaAttributes,
}

/// A chapter as the API describes it.
#[derive(Debug, Clone)]
pub struct Chapter {
    pub id: String,
    pub attributes: ChapterAttributes,
}

/// The attributes of a chapter.
#[derive(Debug, Clone)]
pub struct ChapterAttributes {
    pub title: Option<String>,
    pub volume: Option<String>,
    pub chapter: Option<String>,
    pub pages: i32,
    pub translated_language: Option<String>,
    pub created_at: Option<String>,
    pub updated_at: Option<String>,
    pub published_at: Option<String>,
    pub readable_at: Option<String>,
}

impl Chapter {
    /// The link to this chapter on the MangaDex site.
    pub fn url(&self) -> (r: Option<String>)
        ensures
            crate::text::opt_text(r) == joined_url(CHAPTER_PAGE@, self.id@),
    {
        join_url(CHAPTER_PAGE, self.id.as_str())
    }
}

/// The API URL that describes the manga with a given id.
pub fn manga_url(manga_id: &str) -> (r: Option<String>)
    ensures
        crate::text::opt_text(r) == joined_url(MANGA_ENDPOINT@, manga_id@),
{
    join_url(MANGA_ENDPOINT, manga_id)
}

/// Reads the preferred title out of the API's answer about a manga.
pub fn english_title(response: EntityResponse<Manga>) -> (r: Result<Option<String>>)
    ensures
        match response {
            EntityResponse::Success { data } => r matches Ok(t)
                && crate::text::opt_text(t) == preferred_title(data.attributes.title@),
            EntityResponse::Failure { errors } => r == Result::<Option<String>>::Err(Error::Api(errors)),
        },
{
    let manga = response.into_result()?;
    match manga.attributes.english_title() {
        Some(t) => Ok(Some(t.to_owned())),
        None => Ok(None),
    }
}

/// Reads the latest chapter out of the API's answer to the query of
/// [latest_chapter_url]: the last chapter listed, if any.
pub fn latest_chapter(response: CollectionResponse<Chapter>) -> (r: Result<Option<Chapter>>)
    ensures
        match response {
            CollectionResponse::Success { data } => r == Result::<Option<Chapter>>::Ok(
                if data@.len() > 0 { Some(data@.last()) } else { None },
            ),
            CollectionResponse::Failure { errors } => r == Result::<Option<Chapter>>::Err(Error::Api(errors)),
        },
{
    let mut chapters = response.into_result()?;
    Ok(chapters.pop())
}

/// The id of the chapter that a fetch of the latest chapter observed, if any.
pub open spec fn observed_chapter_id(latest: Result<Option<Chapter>>) -> Option<Seq<char>> {
    match latest {
        Ok(Some(c)) => Some(c.id@),
        _ => None,
    }
}

/// Keeps the latest chapter only where its id differs from a previous latest
/// chapter id.
pub fn updated_chapter(latest: Result<Option<Chapter>>, latest_chapter_id: Option<&str>) -> (r: Result<Option<Chapter>>)
    ensures
        match latest {
            Ok(Some(c)) => if Some(c.id@) != crate::text::opt_str(latest_chapter_id) {
                r == Result::<Option<Chapter>>::Ok(Some(c))
            } else {
                r == Result::<Option<Chapter>>::Ok(None)
            },
            _ => r == latest,
        },
{
    match latest {
        Ok(Some(c)) => {
            let unchanged = match latest_chapter_id {
                Some(previous) => crate::text::same_text(c.id.as_str(), previous),
                None => false,
            };
            if unchanged {
                Ok(None)
            } else {
                Ok(Some(c))
            }
        },
        other => other,
    }
}

/// One `name=value` pair of a query string, both encoded.
pub open spec fn encoded_pair(pair: (Seq<char>, Seq<char>)) -> Seq<char> {
    form_encoded(pair.0) + "="@ + form_encoded(pair.1)
}

/// A form-urlencoded query string: the encoded pairs, separated by `&`.
pub open spec fn query_text(pairs: Seq<(Seq<char>, Seq<char>)>) -> Seq<char>
    decreases pairs.len(),
{
    if pairs.len() == 0 {
        Seq::empty()
    } else if pairs.len() == 1 {
        encoded_pair(pairs[0])
    } else {
        query_text(pairs.drop_last()) + "&"@ + encoded_pair(pairs.last())
    }
}

/// The characters of each name and value.
pub open spec fn pairs_text(pairs: Seq<(&str, &str)>) -> Seq<(Seq<char>, Seq<char>)> {
    pairs.map_values(|p: (&str, &str)| (p.0@, p.1@))
}

/// Serializes name and value pairs as a form-urlencoded query string.
pub fn form_query(pairs: &[(&str, &str)]) -> (r: String)
    ensures
        r@ == query_text(pairs_text(pairs@)),
{
    let mut r = String::new();
    let mut i: usize = 0;
    while i < pairs.len()
        invariant
            i <= pairs@.len(),
            r@ == query_text(pairs_text(pairs@.take(i as int))),
        decreases pairs@.len() - i,
    {
        let (name, value) = pairs[i];
        if i > 0 {
            r.append("&");
        }
        let n = form_encode(name);
        let v = form_encode(value);
        r.append(n.as_str());
        r.append("=");
        r.append(v.as_str());
        proof {
            let next = pairs_text(pairs@.take(i + 1));
            assert(next.drop_last() =~= pairs_text(pairs@.take(i as int)));
            assert(next.last() == (name@, value@));
        }
        i = i + 1;
    }
    assert(pairs@.take(pairs@.len() as int) =~= pairs@);
    r
}

/// The query that asks for the latest English chapter of a manga.
pub open spec fn chapter_query(manga_id: Seq<char>) -> Seq<(Seq<char>, Seq<char>)> {
    seq![
        ("manga"@, manga_id),
        ("limit"@, "1"@),
        ("translatedLanguage[]"@, "en"@),
        ("contentRating[]"@, "safe"@),
        ("contentRating[]"@, "suggestive"@),
        ("order[chapter]"@, "desc"@),
    ]
}

/// Constructs the API URL that fetches the latest chapter for a given manga.
pub fn latest_chapter_url(manga_id: &str) -> (r: String)
    ensures
        r@ == CHAPTER_ENDPOINT@ + "?"@ + query_text(chapter_query(manga_id@)),
{
    let pairs = [
        ("manga", manga_id),
        ("limit", "1"),
        ("translatedLanguage[]", "en"),
        ("contentRating[]", "safe"),
        ("contentRating[]", "suggestive"),
        ("order[chapter]", "desc"),
    ];
    let query = form_query(&pairs);
    assert(pairs_text(pairs@) =~= chapter_query(manga_id@));
    let mut r = crate::text::joined(CHAPTER_ENDPOINT, "?");
    r.append(query.as_str());
    r
}

} // verus!
