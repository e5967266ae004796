use crate::addon::catalog::{
    CatalogMeta, CatalogResponse, CatalogType, DefaultVideoID, MetaView, Trailer, TrailerView,
};
use crate::error::CatalogError;
use crate::json::{member_text, read_text, values, Json, JsonValue};
use crate::text::{decimal, decimal_string, opt_text, opt_texts};
use crate::trakt::api::{item_of, media_of, opt_count, Item, Media, TraktItem};
use vstd::prelude::*;

pub mod api;
pub mod descriptor;
pub mod page;
pub mod request;

pub use crate::trakt::descriptor::{TraktCatalog, TraktPagination};
pub use crate::trakt::request::{FetchPlan, TraktRequest};

verus! {

/// Whether the two characters `v=` stand at position `k` of `s`.
pub open spec fn marker_at(s: Seq<char>, k: int) -> bool {
    0 <= k && k + 1 < s.len() && s[k] == 'v' && s[k + 1] == '='
}

/// The first position at or after `from` where `v=` stands, or -1.
pub open spec fn first_marker(s: Seq<char>, from: int) -> int
    decreases s.len() - from,
{
    if from < 0 || from + 1 >= s.len() {
        -1
    } else if marker_at(s, from) {
        from
    } else {
        first_marker(s, from + 1)
    }
}

/// The video code in a trailer address: the 11 characters that follow the
/// first `v=`, where that many follow it.
pub open spec fn video_id(url: Seq<char>) -> Option<Seq<char>> {
    let k = first_marker(url, 0);
    if k >= 0 && k + 13 <= url.len() {
        Some(url.subrange(k + 2, k + 13))
    } else {
        None
    }
}

/// `first_marker` finds a position where `v=` stands, and `v=` stands at
/// none between `from` and it; where it finds none, there is none.
pub proof fn lemma_first_marker(s: Seq<char>, from: int)
    requires
        0 <= from,
    ensures
        first_marker(s, from) == -1 || (from <= first_marker(s, from) && marker_at(
            s,
            first_marker(s, from),
        )),
        forall|j: int|
            from <= j && (first_marker(s, from) == -1 || j < first_marker(s, from))
                ==> !marker_at(s, j),
    decreases s.len() - from,
{
    if from + 1 < s.len() && !marker_at(s, from) {
        lemma_first_marker(s, from + 1);
    }
}

/// A video code has exactly 11 characters and follows a `v=` in the
/// address; an address without `v=` has no video code.
pub proof fn lemma_video_id(url: Seq<char>)
    ensures
        (forall|k: int| !marker_at(url, k)) ==> video_id(url) is None,
        video_id(url) matches Some(code) ==> code.len() == 11 && exists|k: int|
            #[trigger] marker_at(url, k) && k + 13 <= url.len() && code == url.subrange(
                k + 2,
                k + 13,
            ),
{
    lemma_first_marker(url, 0);
    let first = first_marker(url, 0);
    if first >= 0 {
        assert(marker_at(url, first));
    }
}

/// Takes the video code out of a trailer address.
pub fn extract_video_id(url: &str) -> (code: Option<&str>)
    ensures
        match code {
            Some(c) => video_id(url@) == Some(c@),
            None => video_id(url@) is None,
        },
{
    let n = url.unicode_len();
    let mut i: usize = 0;
    while i < n && n - i >= 2
        invariant
            i <= n,
            n == url@.len(),
            first_marker(url@, 0) == first_marker(url@, i as int),
        decreases n - i,
    {
        if url.get_char(i) == 'v' && url.get_char(i + 1) == '=' {
            if n - i >= 13 {
                return Some(url.substring_char(i + 2, i + 13));
            } else {
                return None;
            }
        }
        i = i + 1;
    }
    None
}

/// The catalog entry that a provider entry becomes.
pub open spec fn meta_of(item: Item) -> MetaView {
    let media = item.media;
    MetaView {
        catalog_type: item.kind,
        id: media.imdb,
        name: media.title,
        poster: Some("https://images.metahub.space/poster/medium/"@ + media.imdb + "/img"@),
        background: Some(
            "https://images.metahub.space/background/medium/"@ + media.imdb + "/img"@,
        ),
        genres: media.genres,
        release_info: match media.year {
            Some(year) => Some(decimal(year as nat)),
            None => None,
        },
        description: media.overview,
        default_video_id: Some(media.imdb),
        trailer: match media.trailer {
            Some(url) => match video_id(url) {
                Some(code) => Some(TrailerView { source: code, trailer_type: "Trailer"@ }),
                None => None,
            },
            None => None,
        },
        logo: Some("https://images.metahub.space/logo/medium/"@ + media.imdb + "/img"@),
        runtime: match media.runtime {
            Some(minutes) => Some(decimal(minutes as nat) + " mins"@),
            None => None,
        },
    }
}

/// The address of an image of the kind `prefix` names, for the title `id`.
fn image_url(prefix: &str, id: &str) -> (url: String)
    ensures
        url@ == prefix@ + id@ + "/img"@,
{
    prefix.to_owned().concat(id).concat("/img")
}

impl CatalogMeta {
    /// The catalog entry for a title: what the provider says of it, and the
    /// addresses of its images, which follow from its id.
    pub fn from_media(
        catalog_type: CatalogType,
        title: &String,
        year: Option<u32>,
        imdb: &String,
        genres: &Option<Vec<String>>,
        overview: &Option<String>,
        runtime: Option<u32>,
        trailer: &Option<String>,
    ) -> (meta: CatalogMeta)
        ensures
            meta@ == meta_of(
                Item {
                    kind: catalog_type,
                    media: Media {
                        title: title@,
                        year: opt_count(year),
                        imdb: imdb@,
                        genres: opt_texts(*genres),
                        overview: opt_text(*overview),
                        runtime: opt_count(runtime),
                        trailer: opt_text(*trailer),
                    },
                },
            ),
    {
        let id = imdb.as_str();
        let trailer = match trailer {
            Some(url) => match extract_video_id(url.as_str()) {
                Some(code) => Some(
                    Trailer { source: code.to_owned(), trailer_type: "Trailer".to_owned() },
                ),
                None => None,
            },
            None => None,
        };
        CatalogMeta {
            catalog_type,
            id: imdb.clone(),
            name: title.clone(),
            poster: Some(image_url("https://images.metahub.space/poster/medium/", id)),
            background: Some(image_url("https://images.metahub.space/background/medium/", id)),
            genres: genres.clone(),
            release_info: match year {
                Some(year) => Some(decimal_string(year as u64)),
                None => None,
            },
            description: overview.clone(),
            behavior_hints: Some(DefaultVideoID { default_video_id: imdb.clone() }),
            trailer,
            logo: Some(image_url("https://images.metahub.space/logo/medium/", id)),
            runtime: match runtime {
                Some(minutes) => Some(decimal_string(minutes as u64).concat(" mins")),
                None => None,
            },
        }
    }

    /// The catalog entry that a provider entry becomes.
    pub fn from_item(item: &TraktItem) -> (meta: CatalogMeta)
        ensures
            meta@ == meta_of(item@),
    {
        match item {
            TraktItem::Movie { movie } => CatalogMeta::from_media(
                CatalogType::Movie,
                &movie.title,
                movie.year,
                &movie.ids.imdb,
                &movie.genres,
                &movie.overview,
                movie.runtime,
                &movie.trailer,
            ),
            TraktItem::Show { show } => CatalogMeta::from_media(
                CatalogType::Series,
                &show.title,
                show.year,
                &show.ids.imdb,
                &show.genres,
                &show.overview,
                show.runtime,
                &show.trailer,
            ),
        }
    }
}

/// The catalog page that a provider list becomes: one entry for each item,
/// in the provider's order. A document that is no array, or that holds an
/// item that cannot be read, gives no page at all.
pub open spec fn page_of(data: JsonValue) -> Result<Seq<MetaView>, CatalogError> {
    match data {
        JsonValue::Array(items) => if forall|i: int|
            0 <= i < items.len() ==> item_of(#[trigger] items[i]) is Some {
            Ok(Seq::new(items.len(), |i: int| meta_of(item_of(items[i])->0)))
        } else {
            Err(CatalogError::Parse)
        },
        _ => Err(CatalogError::Parse),
    }
}

/// An empty list is an empty page, and no error.
pub proof fn lemma_empty_list_is_empty_page()
    ensures
        page_of(JsonValue::Array(Seq::empty())) == Ok::<Seq<MetaView>, CatalogError>(Seq::empty()),
{
    assert(Seq::new(0, |i: int| meta_of(item_of(Seq::<JsonValue>::empty()[i])->0))
        =~= Seq::<MetaView>::empty());
}

/// A page has one entry for each item of the list, in the same order, and
/// the entry of a show is of the kind series, that of a movie of the kind
/// movie.
pub proof fn lemma_page_follows_list(items: Seq<JsonValue>, i: int)
    requires
        0 <= i < items.len(),
        page_of(JsonValue::Array(items)) is Ok,
    ensures
        page_of(JsonValue::Array(items))->Ok_0.len() == items.len(),
        item_of(items[i]) is Some,
        page_of(JsonValue::Array(items))->Ok_0[i] == meta_of(item_of(items[i])->0),
        member_text(items[i], "type"@) == Some("show"@) ==> page_of(
            JsonValue::Array(items),
        )->Ok_0[i].catalog_type == CatalogType::Series,
        member_text(items[i], "type"@) == Some("movie"@) ==> page_of(
            JsonValue::Array(items),
        )->Ok_0[i].catalog_type == CatalogType::Movie,
{
    reveal_strlit("show");
    reveal_strlit("movie");
    assert("show"@.len() != "movie"@.len());
}

/// One item that names no title, or no IMDb id, fails the whole page.
pub proof fn lemma_item_without_id_fails_page(items: Seq<JsonValue>, i: int)
    requires
        0 <= i < items.len(),
        item_of(items[i]) is None,
    ensures
        page_of(JsonValue::Array(items)) == Err::<Seq<MetaView>, CatalogError>(
            CatalogError::Parse,
        ),
{
}

/// A movie or show without an IMDb id, or without a title, cannot be read,
/// and neither can the list entry that holds it.
pub proof fn lemma_item_needs_id_and_title(entry: JsonValue, described: JsonValue)
    requires
        (member_text(entry, "type"@) == Some("movie"@) && entry.member("movie"@) == Some(
            described,
        )) || (member_text(entry, "type"@) == Some("show"@) && entry.member("show"@) == Some(
            described,
        )),
        member_text(described, "title"@) is None || described.member("ids"@) is None
            || member_text(described.member("ids"@)->0, "imdb"@) is None,
    ensures
        media_of(described) is None,
        item_of(entry) is None,
{
    reveal_strlit("show");
    reveal_strlit("movie");
    assert("show"@.len() != "movie"@.len());
}

impl CatalogResponse {
    /// Turns a provider list into a catalog page.
    #[verifier::loop_isolation(false)]
    pub fn from_json(data: &Json) -> (page: Result<CatalogResponse, CatalogError>)
        ensures
            match page {
                Ok(p) => page_of(data@) == Ok::<Seq<MetaView>, CatalogError>(p@),
                Err(e) => page_of(data@) == Err::<Seq<MetaView>, CatalogError>(e),
            },
    {
        let items = match data.as_items() {
            Some(items) => items,
            None => {
                return Err(CatalogError::Parse);
            },
        };
        let mut page = CatalogResponse::new_empty();
        let mut i: usize = 0;
        while i < items.len()
            invariant
                i <= items.len(),
                page.metas.len() == i,
                forall|k: int|
                    0 <= k < i ==> item_of(#[trigger] values(items@)[k]) is Some && page.metas[k]@
                        == meta_of(item_of(values(items@)[k])->0),
            decreases items.len() - i,
        {
            match TraktItem::from_json(&items[i]) {
                Ok(item) => {
                    page.metas.push(CatalogMeta::from_item(&item));
                },
                Err(e) => {
                    assert(item_of(values(items@)[i as int]) is None);
                    return Err(e);
                },
            }
            i = i + 1;
        }
        assert(page@ =~= page_of(data@)->Ok_0);
        Ok(page)
    }
}

/// The queries that the provider answers.
#[derive(Debug, Clone, Copy, PartialEq, Eq, Structural)]
pub enum TraktEndpoint {
    /// What is being watched most right now.
    Trending,
    /// The items of one list.
    List,
    /// The genres that the provider knows.
    Genres,
}

/// A genre as the provider names it.
#[derive(Debug, Clone, PartialEq, Eq)]
pub struct TraktGenre {
    pub name: String,
    pub slug: String,
}

/// The mathematical value of a [`TraktGenre`].
pub struct GenreView {
    pub name: Seq<char>,
    pub slug: Seq<char>,
}

impl View for TraktGenre {
    type V = GenreView;

    open spec fn view(&self) -> GenreView {
        GenreView { name: self.name@, slug: self.slug@ }
    }
}

/// What a query came to.
#[derive(Debug, Clone, PartialEq, Eq)]
pub enum TraktResponse {
    CatalogResponse(CatalogResponse),
    Genres(Vec<TraktGenre>),
}

/// The mathematical value of a [`TraktResponse`].
pub enum ResponseView {
    Catalog(Seq<MetaView>),
    Genres(Seq<GenreView>),
}

impl View for TraktResponse {
    type V = ResponseView;

    open spec fn view(&self) -> ResponseView {
        match self {
            TraktResponse::CatalogResponse(page) => ResponseView::Catalog(page@),
            TraktResponse::Genres(genres) => ResponseView::Genres(
                genres@.map_values(|g: TraktGenre| g@),
            ),
        }
    }
}

/// The genre that a document describes: it names a `name` and a `slug`.
pub open spec fn genre_of(v: JsonValue) -> Option<GenreView> {
    match (member_text(v, "name"@), member_text(v, "slug"@)) {
        (Some(name), Some(slug)) => Some(GenreView { name, slug }),
        _ => None,
    }
}

/// The genres that a provider document lists, in its order.
pub open spec fn genres_of(data: JsonValue) -> Result<Seq<GenreView>, CatalogError> {
    match data {
        JsonValue::Array(items) => if forall|i: int|
            0 <= i < items.len() ==> genre_of(#[trigger] items[i]) is Some {
            Ok(Seq::new(items.len(), |i: int| genre_of(items[i])->0))
        } else {
            Err(CatalogError::Parse)
        },
        _ => Err(CatalogError::Parse),
    }
}

/// What the answer to a query of the kind `endpoint` comes to. A list gives
/// a catalog page and the genre query a list of genres; for trending titles
/// the page is left empty.
pub open spec fn output_of(endpoint: TraktEndpoint, data: JsonValue) -> Result<
    ResponseView,
    CatalogError,
> {
    match endpoint {
        TraktEndpoint::Trending => Ok(ResponseView::Catalog(Seq::empty())),
        TraktEndpoint::List => match page_of(data) {
            Ok(page) => Ok(ResponseView::Catalog(page)),
            Err(e) => Err(e),
        },
        TraktEndpoint::Genres => match genres_of(data) {
            Ok(genres) => Ok(ResponseView::Genres(genres)),
            Err(e) => Err(e),
        },
    }
}

/// Reads the genres that a provider document lists.
#[verifier::loop_isolation(false)]
pub fn read_genres(data: &Json) -> (genres: Result<Vec<TraktGenre>, CatalogError>)
    ensures
        match genres {
            Ok(g) => genres_of(data@) == Ok::<Seq<GenreView>, CatalogError>(
                g@.map_values(|g: TraktGenre| g@),
            ),
            Err(e) => genres_of(data@) == Err::<Seq<GenreView>, CatalogError>(e),
        },
{
    let items = match data.as_items() {
        Some(items) => items,
        None => {
            return Err(CatalogError::Parse);
        },
    };
    let mut genres: Vec<TraktGenre> = Vec::new();
    let mut i: usize = 0;
    while i < items.len()
        invariant
            i <= items.len(),
            genres.len() == i,
            forall|k: int|
                0 <= k < i ==> genre_of(#[trigger] values(items@)[k]) == Some(genres[k]@),
        decreases items.len() - i,
    {
        let name = read_text(&items[i], "name");
        let slug = read_text(&items[i], "slug");
        match (name, slug) {
            (Some(name), Some(slug)) => {
                genres.push(TraktGenre { name, slug });
            },
            _ => {
                assert(genre_of(values(items@)[i as int]) is None);
                return Err(CatalogError::Parse);
            },
        }
        i = i + 1;
    }
    assert(genres@.map_values(|g: TraktGenre| g@) =~= genres_of(data@)->Ok_0);
    Ok(genres)
}

impl TraktEndpoint {
    /// Turns the provider's answer to a query of this kind into a response.
    /// The genre that the request asked for takes no part in it: filtering
    /// by genre is left to whoever reads the page.
    pub fn parse_output(&self, data: &Json, genre: &Option<String>) -> (output: Result<
        TraktResponse,
        CatalogError,
    >)
        ensures
            match output {
                Ok(response) => output_of(*self, data@) == Ok::<ResponseView, CatalogError>(
                    response@,
                ),
                Err(e) => output_of(*self, data@) == Err::<ResponseView, CatalogError>(e),
            },
    {
        match self {
            TraktEndpoint::Trending => Ok(
                TraktResponse::CatalogResponse(CatalogResponse::new_empty()),
            ),
            TraktEndpoint::List => match CatalogResponse::from_json(data) {
                Ok(page) => Ok(TraktResponse::CatalogResponse(page)),
                Err(e) => Err(e),
            },
            TraktEndpoint::Genres => match read_genres(data) {
                Ok(genres) => Ok(TraktResponse::Genres(genres)),
                Err(e) => Err(e),
            },
        }
    }
}

} // verus!
