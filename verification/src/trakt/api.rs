use crate::addon::catalog::CatalogType;
use crate::error::CatalogError;
use crate::json::{member_text, read_text, read_text_list, text_list, Json, JsonValue};
use crate::text::{opt_text, opt_texts, same_text};
use vstd::prelude::*;

verus! {

/// The identifiers of a title. The IMDb id is the one that the catalog
/// hands on.
#[derive(Debug, Clone, PartialEq, Eq)]
pub struct Ids {
    pub imdb: String,
}

/// A movie as the provider describes it.
#[derive(Debug, Clone, PartialEq, Eq)]
pub struct TraktMovie {
    pub title: String,
    pub year: Option<u32>,
    pub ids: Ids,
    pub genres: Option<Vec<String>>,
    pub overview: Option<String>,
    pub runtime: Option<u32>,
    pub trailer: Option<String>,
}

/// A show as the provider describes it.
#[derive(Debug, Clone, PartialEq, Eq)]
pub struct TraktShow {
    pub title: String,
    pub year: Option<u32>,
    pub ids: Ids,
    pub genres: Option<Vec<String>>,
    pub overview: Option<String>,
    pub runtime: Option<u32>,
    pub trailer: Option<String>,
}

/// One entry of a provider list, told apart by its `type` member.
#[derive(Debug, Clone, PartialEq, Eq)]
pub enum TraktItem {
    Movie { movie: TraktMovie },
    Show { show: TraktShow },
}

/// What a movie or a show holds, as mathematical values.
pub struct Media {
    pub title: Seq<char>,
    pub year: Option<int>,
    pub imdb: Seq<char>,
    pub genres: Option<Seq<Seq<char>>>,
    pub overview: Option<Seq<char>>,
    pub runtime: Option<int>,
    pub trailer: Option<Seq<char>>,
}

/// The mathematical value of a [`TraktItem`].
pub struct Item {
    pub kind: CatalogType,
    pub media: Media,
}

/// The number that an optional count holds.
pub open spec fn opt_count(o: Option<u32>) -> Option<int> {
    match o {
        Some(n) => Some(n as int),
        None => None,
    }
}

impl View for TraktMovie {
    type V = Media;

    open spec fn view(&self) -> Media {
        Media {
            title: self.title@,
            year: opt_count(self.year),
            imdb: self.ids.imdb@,
            genres: opt_texts(self.genres),
            overview: opt_text(self.overview),
            runtime: opt_count(self.runtime),
            trailer: opt_text(self.trailer),
        }
    }
}

impl View for TraktShow {
    type V = Media;

    open spec fn view(&self) -> Media {
        Media {
            title: self.title@,
            year: opt_count(self.year),
            imdb: self.ids.imdb@,
            genres: opt_texts(self.genres),
            overview: opt_text(self.overview),
            runtime: opt_count(self.runtime),
            trailer: opt_text(self.trailer),
        }
    }
}

impl View for TraktItem {
    type V = Item;

    open spec fn view(&self) -> Item {
        match self {
            TraktItem::Movie { movie } => Item { kind: CatalogType::Movie, media: movie@ },
            TraktItem::Show { show } => Item { kind: CatalogType::Series, media: show@ },
        }
    }
}

/// The number of the member `name`, where there is such a member and it is
/// an integer from 0 to `u32::MAX`.
pub open spec fn member_count(v: JsonValue, name: Seq<char>) -> Option<int> {
    match v.member(name) {
        Some(JsonValue::Int(i)) => if 0 <= i <= u32::MAX {
            Some(i)
        } else {
            None
        },
        _ => None,
    }
}

/// The texts of the member `name`, where there is such a member and it is
/// an array of strings.
pub open spec fn member_texts(v: JsonValue, name: Seq<char>) -> Option<Seq<Seq<char>>> {
    match v.member(name) {
        Some(m) => text_list(m),
        None => None,
    }
}

/// The movie or show that a document describes. It must name a title and,
/// under `ids`, an IMDb id; every other member is taken where it has the
/// expected form and left out where it has not.
pub open spec fn media_of(v: JsonValue) -> Option<Media> {
    match (member_text(v, "title"@), v.member("ids"@)) {
        (Some(title), Some(ids)) => match member_text(ids, "imdb"@) {
            Some(imdb) => Some(
                Media {
                    title,
                    year: member_count(v, "year"@),
                    imdb,
                    genres: member_texts(v, "genres"@),
                    overview: member_text(v, "overview"@),
                    runtime: member_count(v, "runtime"@),
                    trailer: member_text(v, "trailer"@),
                },
            ),
            None => None,
        },
        _ => None,
    }
}

/// The list entry that a document describes: its `type` member is `movie`
/// or `show`, and the member of that name describes the title.
pub open spec fn item_of(v: JsonValue) -> Option<Item> {
    match member_text(v, "type"@) {
        Some(tag) => if tag == "movie"@ {
            match v.member("movie"@) {
                Some(m) => match media_of(m) {
                    Some(media) => Some(Item { kind: CatalogType::Movie, media }),
                    None => None,
                },
                None => None,
            }
        } else if tag == "show"@ {
            match v.member("show"@) {
                Some(m) => match media_of(m) {
                    Some(media) => Some(Item { kind: CatalogType::Series, media }),
                    None => None,
                },
                None => None,
            }
        } else {
            None
        },
        None => None,
    }
}

/// Reads the count that a member holds.
pub fn read_count(j: &Json, name: &str) -> (count: Option<u32>)
    ensures
        opt_count(count) == member_count(j@, name@),
{
    match j.get(name) {
        Some(m) => match m.as_int() {
            Some(i) => if 0 <= i && i <= 4294967295 {
                Some(i as u32)
            } else {
                None
            },
            None => None,
        },
        None => None,
    }
}

/// Reads the list of texts that a member holds.
pub fn read_texts(j: &Json, name: &str) -> (list: Option<Vec<String>>)
    ensures
        opt_texts(list) == member_texts(j@, name@),
{
    match j.get(name) {
        Some(m) => read_text_list(m),
        None => None,
    }
}

impl TraktMovie {
    /// Reads a movie from the document that describes it.
    pub fn from_json(j: &Json) -> (movie: Option<TraktMovie>)
        ensures
            match movie {
                Some(m) => media_of(j@) == Some(m@),
                None => media_of(j@) is None,
            },
    {
        let title = match read_text(j, "title") {
            Some(title) => title,
            None => {
                return None;
            },
        };
        let imdb = match j.get("ids") {
            Some(ids) => match read_text(ids, "imdb") {
                Some(imdb) => imdb,
                None => {
                    return None;
                },
            },
            None => {
                return None;
            },
        };
        Some(
            TraktMovie {
                title,
                year: read_count(j, "year"),
                ids: Ids { imdb },
                genres: read_texts(j, "genres"),
                overview: read_text(j, "overview"),
                runtime: read_count(j, "runtime"),
                trailer: read_text(j, "trailer"),
            },
        )
    }
}

impl TraktShow {
    /// Reads a show from the document that describes it.
    pub fn from_json(j: &Json) -> (show: Option<TraktShow>)
        ensures
            match show {
                Some(s) => media_of(j@) == Some(s@),
                None => media_of(j@) is None,
            },
    {
        match TraktMovie::from_json(j) {
            Some(m) => Some(
                TraktShow {
                    title: m.title,
                    year: m.year,
                    ids: m.ids,
                    genres: m.genres,
                    overview: m.overview,
                    runtime: m.runtime,
                    trailer: m.trailer,
                },
            ),
            None => None,
        }
    }
}

impl TraktItem {
    /// Reads one entry of a provider list.
    pub fn from_json(j: &Json) -> (item: Result<TraktItem, CatalogError>)
        ensures
            match item {
                Ok(it) => item_of(j@) == Some(it@),
                Err(e) => e == CatalogError::Parse && item_of(j@) is None,
            },
    {
        let tag = match read_text(j, "type") {
            Some(tag) => tag,
            None => {
                return Err(CatalogError::Parse);
            },
        };
        if same_text(tag.as_str(), "movie") {
            match j.get("movie") {
                Some(m) => match TraktMovie::from_json(m) {
                    Some(movie) => Ok(TraktItem::Movie { movie }),
                    None => Err(CatalogError::Parse),
                },
                None => Err(CatalogError::Parse),
            }
        } else if same_text(tag.as_str(), "show") {
            match j.get("show") {
                Some(m) => match TraktShow::from_json(m) {
                    Some(show) => Ok(TraktItem::Show { show }),
                    None => Err(CatalogError::Parse),
                },
                None => Err(CatalogError::Parse),
            }
        } else {
            Err(CatalogError::Parse)
        }
    }
}

} // verus!
