use crate::addon::catalog::{
    content_name, content_of_name, content_text, CatalogRequest, CatalogRequestParams, CatalogType,
};
use crate::codec::{base64_bytes, base64_text, from_base64, text_of_bytes, to_base64};
use crate::error::CatalogError;
use crate::json::{
    json_text, json_value, lemma_plain_deeper, optional_text_document, optional_text_json, Json,
    JsonValue,
};
use crate::text::{
    opt_text, same_text, signed_decimal, signed_decimal_string, strip_suffix, without_suffix,
};
use crate::trakt::TraktEndpoint;
use vstd::prelude::*;
use vstd::utf8::{
    decode_utf8, encode_utf8, encode_utf8_decode_utf8, encode_utf8_valid_utf8, valid_utf8,
};

verus! {

/// The page that a query asks the provider for, and how many items it may
/// hold.
#[derive(Debug, Clone, Copy, PartialEq, Eq, Structural)]
pub struct TraktPagination {
    pub current_page: i32,
    pub items_per_page: i32,
}

impl TraktPagination {
    /// The paging of that page and that many items.
    pub fn new(current_page: i32, items_per_page: i32) -> (pagination: Self)
        ensures
            pagination == (TraktPagination { current_page, items_per_page }),
    {
        Self { current_page, items_per_page }
    }

    /// The paging as the query part of an address.
    pub fn to_query_string(&self) -> (query: String)
        ensures
            query@ == "?page="@ + signed_decimal(self.current_page as int) + "&limit="@
                + signed_decimal(self.items_per_page as int),
    {
        let page = signed_decimal_string(self.current_page as i64);
        let limit = signed_decimal_string(self.items_per_page as i64);
        "?page=".to_owned().concat(page.as_str()).concat("&limit=").concat(limit.as_str())
    }
}

/// A catalog query: what to ask the provider for. Its token is the public
/// id of the catalog.
#[derive(Debug, Clone, PartialEq, Eq)]
pub struct TraktCatalog {
    pub endpoint: TraktEndpoint,
    pub pagination: Option<TraktPagination>,
    pub extended_info: bool,
    pub list_id: Option<String>,
    pub catalog_type: CatalogType,
    pub genre: Option<String>,
}

/// The mathematical value of a [`TraktCatalog`].
pub struct Descriptor {
    pub endpoint: TraktEndpoint,
    pub pagination: Option<TraktPagination>,
    pub extended_info: bool,
    pub list_id: Option<Seq<char>>,
    pub catalog_type: CatalogType,
    pub genre: Option<Seq<char>>,
}

impl View for TraktCatalog {
    type V = Descriptor;

    open spec fn view(&self) -> Descriptor {
        Descriptor {
            endpoint: self.endpoint,
            pagination: self.pagination,
            extended_info: self.extended_info,
            list_id: opt_text(self.list_id),
            catalog_type: self.catalog_type,
            genre: opt_text(self.genre),
        }
    }
}

/// The name that a kind of query has in a descriptor.
pub open spec fn endpoint_name(endpoint: TraktEndpoint) -> Seq<char> {
    match endpoint {
        TraktEndpoint::Trending => "Trending"@,
        TraktEndpoint::List => "List"@,
        TraktEndpoint::Genres => "Genres"@,
    }
}

/// The kind of query that a name stands for.
pub open spec fn endpoint_of_name(name: Seq<char>) -> Option<TraktEndpoint> {
    if name == "Trending"@ {
        Some(TraktEndpoint::Trending)
    } else if name == "List"@ {
        Some(TraktEndpoint::List)
    } else if name == "Genres"@ {
        Some(TraktEndpoint::Genres)
    } else {
        None
    }
}

/// A paging that may be absent, as a document: an object of two numbers, or
/// `null`.
pub open spec fn pagination_json(pagination: Option<TraktPagination>) -> JsonValue {
    match pagination {
        Some(p) => JsonValue::Object(
            Map::<Seq<char>, JsonValue>::empty().insert(
                "current_page"@,
                JsonValue::Int(p.current_page as int),
            ).insert("items_per_page"@, JsonValue::Int(p.items_per_page as int)),
        ),
        None => JsonValue::Null,
    }
}

/// A descriptor as a document: an object with one member for each field.
pub open spec fn descriptor_json(d: Descriptor) -> JsonValue {
    JsonValue::Object(
        Map::<Seq<char>, JsonValue>::empty().insert(
            "endpoint"@,
            JsonValue::Str(endpoint_name(d.endpoint)),
        ).insert("pagination"@, pagination_json(d.pagination)).insert(
            "extended_info"@,
            JsonValue::Bool(d.extended_info),
        ).insert("list_id"@, optional_text_json(d.list_id)).insert(
            "catalog_type"@,
            JsonValue::Str(content_name(d.catalog_type)),
        ).insert("genre"@, optional_text_json(d.genre)),
    )
}

/// The text of a member that may be absent or `null`; `None` where the
/// member is there and is neither a string nor `null`.
pub open spec fn optional_text_of(v: JsonValue, name: Seq<char>) -> Option<Option<Seq<char>>> {
    match v.member(name) {
        None => Some(None),
        Some(JsonValue::Null) => Some(None),
        Some(JsonValue::Str(t)) => Some(Some(t)),
        Some(_) => None,
    }
}

/// The number of a member, where it is an integer in the range of `i32`.
pub open spec fn member_i32(v: JsonValue, name: Seq<char>) -> Option<i32> {
    match v.member(name) {
        Some(JsonValue::Int(i)) => if i32::MIN <= i <= i32::MAX {
            Some(i as i32)
        } else {
            None
        },
        _ => None,
    }
}

/// The paging in a member that may be absent or `null`; `None` where the
/// member is there and is neither `null` nor an object with the two numbers.
pub open spec fn pagination_of(v: JsonValue, name: Seq<char>) -> Option<Option<TraktPagination>> {
    match v.member(name) {
        None => Some(None),
        Some(JsonValue::Null) => Some(None),
        Some(p) => match (member_i32(p, "current_page"@), member_i32(p, "items_per_page"@)) {
            (Some(current_page), Some(items_per_page)) => Some(
                Some(TraktPagination { current_page, items_per_page }),
            ),
            _ => None,
        },
    }
}

/// The kind of query that the member `endpoint` names.
pub open spec fn endpoint_of(v: JsonValue) -> Option<TraktEndpoint> {
    match v.member("endpoint"@) {
        Some(JsonValue::Str(name)) => endpoint_of_name(name),
        _ => None,
    }
}

/// The kind of content that the member `catalog_type` names.
pub open spec fn catalog_type_of(v: JsonValue) -> Option<CatalogType> {
    match v.member("catalog_type"@) {
        Some(JsonValue::Str(name)) => content_of_name(name),
        _ => None,
    }
}

/// The flag that the member `extended_info` holds.
pub open spec fn extended_info_of(v: JsonValue) -> Option<bool> {
    match v.member("extended_info"@) {
        Some(JsonValue::Bool(b)) => Some(b),
        _ => None,
    }
}

/// The descriptor that a document states. The members `endpoint`,
/// `extended_info` and `catalog_type` must be there; `pagination`, `list_id`
/// and `genre` may be absent or `null`. Other members are passed over.
pub open spec fn descriptor_of(v: JsonValue) -> Result<Descriptor, CatalogError> {
    match (
        endpoint_of(v),
        pagination_of(v, "pagination"@),
        extended_info_of(v),
        optional_text_of(v, "list_id"@),
        catalog_type_of(v),
        optional_text_of(v, "genre"@),
    ) {
        (
            Some(endpoint),
            Some(pagination),
            Some(extended_info),
            Some(list_id),
            Some(catalog_type),
            Some(genre),
        ) => Ok(Descriptor { endpoint, pagination, extended_info, list_id, catalog_type, genre }),
        _ => Err(CatalogError::Parse),
    }
}

/// The names of the members of a descriptor differ from one another.
proof fn lemma_member_names()
    ensures
        "endpoint"@.len() == 8,
        "pagination"@.len() == 10,
        "extended_info"@.len() == 13,
        "list_id"@.len() == 7,
        "catalog_type"@.len() == 12,
        "genre"@.len() == 5,
        "current_page"@.len() == 12,
        "items_per_page"@.len() == 14,
{
    reveal_strlit("endpoint");
    reveal_strlit("pagination");
    reveal_strlit("extended_info");
    reveal_strlit("list_id");
    reveal_strlit("catalog_type");
    reveal_strlit("genre");
    reveal_strlit("current_page");
    reveal_strlit("items_per_page");
}

/// The names of the kinds of query and of content differ from one another.
proof fn lemma_value_names()
    ensures
        "Trending"@.len() == 8,
        "List"@.len() == 4,
        "Genres"@.len() == 6,
        "movie"@.len() == 5,
        "series"@.len() == 6,
{
    reveal_strlit("Trending");
    reveal_strlit("List");
    reveal_strlit("Genres");
    reveal_strlit("movie");
    reveal_strlit("series");
}

/// Reading the document of a descriptor gives the descriptor back, and the
/// document holds integers only and is nested two deep at most.
pub proof fn lemma_descriptor_json_round_trip(d: Descriptor)
    ensures
        descriptor_of(descriptor_json(d)) == Ok::<Descriptor, CatalogError>(d),
        descriptor_json(d).plain(2),
{
    lemma_member_names();
    lemma_value_names();
    let v = descriptor_json(d);
    let members = v->Object_0;
    assert(endpoint_of(v) == Some(d.endpoint));
    assert(catalog_type_of(v) == Some(d.catalog_type));
    assert(extended_info_of(v) == Some(d.extended_info));
    assert(optional_text_of(v, "list_id"@) == Some(d.list_id));
    assert(optional_text_of(v, "genre"@) == Some(d.genre));
    assert(pagination_of(v, "pagination"@) == Some(d.pagination)) by {
        let p = pagination_json(d.pagination);
        assert(v.member("pagination"@) == Some(p));
        if let Some(pagination) = d.pagination {
            assert(member_i32(p, "current_page"@) == Some(pagination.current_page));
            assert(member_i32(p, "items_per_page"@) == Some(pagination.items_per_page));
        }
    }
    assert(pagination_json(d.pagination).plain(1)) by {
        if let Some(pagination) = d.pagination {
            let inner = pagination_json(d.pagination)->Object_0;
            assert forall|name: Seq<char>| inner.contains_key(name) implies (#[trigger] inner[name]).plain(
                0,
            ) by {}
        }
    }
    assert forall|name: Seq<char>| members.contains_key(name) implies (#[trigger] members[name]).plain(
        1,
    ) by {}
}

/// The descriptor that the base id of a token holds: the base id is base64,
/// the bytes are UTF-8 text, and the text is the document of a descriptor.
pub open spec fn descriptor_of_id(id: Seq<char>) -> Result<Descriptor, CatalogError> {
    match base64_bytes(id) {
        None => Err(CatalogError::Decode),
        Some(bytes) => if !valid_utf8(bytes) {
            Err(CatalogError::Encoding)
        } else {
            match json_value(decode_utf8(bytes)) {
                None => Err(CatalogError::Decode),
                Some(v) => descriptor_of(v),
            }
        },
    }
}

/// The descriptor that a token holds: the token is a base id, followed by
/// the provider's tag.
pub open spec fn descriptor_of_token(token: Seq<char>) -> Result<Descriptor, CatalogError> {
    match without_suffix(token, "-trakt"@) {
        None => Err(CatalogError::Format),
        Some(id) => descriptor_of_id(id),
    }
}

/// The base id of the token of a descriptor: its document, written as text
/// and that text as base64.
pub open spec fn id_of_descriptor(d: Descriptor) -> Seq<char> {
    base64_text(encode_utf8(json_text(descriptor_json(d))))
}

/// The token of a descriptor.
pub open spec fn token_of_descriptor(d: Descriptor) -> Seq<char> {
    id_of_descriptor(d) + "-trakt"@
}

/// The descriptor that answers a request: the stored descriptor with the
/// paging, and the genre if there is one, that the request asks for. A list
/// cannot be sorted by the provider, so where a genre is asked of a list the
/// page holds 500 items, whatever size the request names.
pub open spec fn resolved(d: Descriptor, request: CatalogRequest) -> Descriptor {
    Descriptor {
        endpoint: d.endpoint,
        pagination: Some(
            TraktPagination {
                current_page: request.pagination.page,
                items_per_page: if genre_filtered(d, request) {
                    500
                } else {
                    request.pagination.page_size
                },
            },
        ),
        extended_info: d.extended_info,
        list_id: d.list_id,
        catalog_type: d.catalog_type,
        genre: if request.genre is Some {
            request.genre
        } else {
            d.genre
        },
    }
}

/// Whether a request makes the query one whose page is fetched oversized, to
/// be filtered by genre by whoever reads it.
pub open spec fn genre_filtered(d: Descriptor, request: CatalogRequest) -> bool {
    d.endpoint == TraktEndpoint::List && request.genre is Some
}

/// Where a genre is asked of a list, the resolved descriptor asks for the
/// page of the request with 500 items on it, whatever size the request and
/// the stored descriptor name, and for the genre of the request.
pub proof fn lemma_genre_on_list_asks_500(d: Descriptor, request: CatalogRequest)
    requires
        d.endpoint == TraktEndpoint::List,
        request.genre is Some,
    ensures
        genre_filtered(d, request),
        resolved(d, request).pagination == Some(
            TraktPagination { current_page: request.pagination.page, items_per_page: 500 },
        ),
        resolved(d, request).genre == request.genre,
{
}

/// Where no genre is asked, or the query is no list, the resolved
/// descriptor takes the paging of the request as it is.
pub proof fn lemma_paging_taken_verbatim(d: Descriptor, request: CatalogRequest)
    requires
        d.endpoint != TraktEndpoint::List || request.genre is None,
    ensures
        !genre_filtered(d, request),
        resolved(d, request).pagination == Some(
            TraktPagination {
                current_page: request.pagination.page,
                items_per_page: request.pagination.page_size,
            },
        ),
        request.genre is None ==> resolved(d, request).genre == d.genre,
{
}

fn endpoint_text(endpoint: TraktEndpoint) -> (name: &'static str)
    ensures
        name@ == endpoint_name(endpoint),
{
    match endpoint {
        TraktEndpoint::Trending => "Trending",
        TraktEndpoint::List => "List",
        TraktEndpoint::Genres => "Genres",
    }
}

fn read_optional_text(j: &Json, name: &str) -> (text: Result<Option<String>, CatalogError>)
    ensures
        match text {
            Ok(t) => optional_text_of(j@, name@) == Some(opt_text(t)),
            Err(e) => e == CatalogError::Parse && optional_text_of(j@, name@) is None,
        },
{
    match j.get(name) {
        None => Ok(None),
        Some(Json::Null) => Ok(None),
        Some(Json::Str(t)) => Ok(Some(t.clone())),
        Some(_) => Err(CatalogError::Parse),
    }
}

fn read_i32(j: &Json, name: &str) -> (number: Option<i32>)
    ensures
        number == member_i32(j@, name@),
{
    match j.get(name) {
        Some(Json::Int(i)) => if -2147483648 <= *i && *i <= 2147483647 {
            Some(*i as i32)
        } else {
            None
        },
        _ => None,
    }
}

fn read_pagination(j: &Json, name: &str) -> (pagination: Result<
    Option<TraktPagination>,
    CatalogError,
>)
    ensures
        match pagination {
            Ok(p) => pagination_of(j@, name@) == Some(p),
            Err(e) => e == CatalogError::Parse && pagination_of(j@, name@) is None,
        },
{
    match j.get(name) {
        None => Ok(None),
        Some(Json::Null) => Ok(None),
        Some(p) => match (read_i32(p, "current_page"), read_i32(p, "items_per_page")) {
            (Some(current_page), Some(items_per_page)) => Ok(
                Some(TraktPagination::new(current_page, items_per_page)),
            ),
            _ => Err(CatalogError::Parse),
        },
    }
}

fn read_endpoint(j: &Json) -> (endpoint: Option<TraktEndpoint>)
    ensures
        endpoint == endpoint_of(j@),
{
    match j.get("endpoint") {
        Some(Json::Str(name)) => if same_text(name.as_str(), "Trending") {
            Some(TraktEndpoint::Trending)
        } else if same_text(name.as_str(), "List") {
            Some(TraktEndpoint::List)
        } else if same_text(name.as_str(), "Genres") {
            Some(TraktEndpoint::Genres)
        } else {
            None
        },
        _ => None,
    }
}

fn read_catalog_type(j: &Json) -> (catalog_type: Option<CatalogType>)
    ensures
        catalog_type == catalog_type_of(j@),
{
    match j.get("catalog_type") {
        Some(Json::Str(name)) => CatalogType::from_text(name.as_str()),
        _ => None,
    }
}

fn read_extended_info(j: &Json) -> (flag: Option<bool>)
    ensures
        flag == extended_info_of(j@),
{
    match j.get("extended_info") {
        Some(Json::Bool(b)) => Some(*b),
        _ => None,
    }
}

impl TraktCatalog {
    /// The descriptor as a document.
    pub fn to_json(&self) -> (document: Json)
        ensures
            document@ == descriptor_json(self@),
    {
        let pagination = match self.pagination {
            Some(p) => Json::object().with("current_page", Json::Int(p.current_page as i64)).with(
                "items_per_page",
                Json::Int(p.items_per_page as i64),
            ),
            None => Json::Null,
        };
        Json::object().with(
            "endpoint",
            Json::Str(endpoint_text(self.endpoint).to_owned()),
        ).with("pagination", pagination).with("extended_info", Json::Bool(self.extended_info)).with(
            "list_id",
            optional_text_document(&self.list_id),
        ).with("catalog_type", Json::Str(content_text(self.catalog_type).to_owned())).with(
            "genre",
            optional_text_document(&self.genre),
        )
    }

    /// Reads a descriptor from its document.
    pub fn from_json(document: &Json) -> (descriptor: Result<TraktCatalog, CatalogError>)
        ensures
            match descriptor {
                Ok(d) => descriptor_of(document@) == Ok::<Descriptor, CatalogError>(d@),
                Err(e) => descriptor_of(document@) == Err::<Descriptor, CatalogError>(e),
            },
    {
        let endpoint = match read_endpoint(document) {
            Some(endpoint) => endpoint,
            None => {
                return Err(CatalogError::Parse);
            },
        };
        let pagination = match read_pagination(document, "pagination") {
            Ok(pagination) => pagination,
            Err(e) => {
                return Err(e);
            },
        };
        let extended_info = match read_extended_info(document) {
            Some(flag) => flag,
            None => {
                return Err(CatalogError::Parse);
            },
        };
        let list_id = match read_optional_text(document, "list_id") {
            Ok(list_id) => list_id,
            Err(e) => {
                return Err(e);
            },
        };
        let catalog_type = match read_catalog_type(document) {
            Some(catalog_type) => catalog_type,
            None => {
                return Err(CatalogError::Parse);
            },
        };
        let genre = match read_optional_text(document, "genre") {
            Ok(genre) => genre,
            Err(e) => {
                return Err(e);
            },
        };
        Ok(TraktCatalog { endpoint, pagination, extended_info, list_id, catalog_type, genre })
    }

    /// The token of the descriptor: its document as JSON text, that text as
    /// base64, and the provider's tag behind it. Decoding the token gives
    /// the descriptor back.
    pub fn encode(&self) -> (token: String)
        ensures
            token@ == token_of_descriptor(self@),
            descriptor_of_token(token@) == Ok::<Descriptor, CatalogError>(self@),
    {
        let document = self.to_json();
        proof {
            lemma_descriptor_json_round_trip(self@);
            lemma_plain_deeper(descriptor_json(self@), 2, 100);
        }
        let text = document.to_text();
        let id = to_base64(text.as_str().as_bytes());
        let ghost id_text = id@;
        let token = id.concat("-trakt");
        proof {
            encode_utf8_valid_utf8(text@);
            encode_utf8_decode_utf8(text@);
            assert(token@.skip(token@.len() - "-trakt"@.len()) =~= "-trakt"@);
            assert(token@.take(token@.len() - "-trakt"@.len()) =~= id_text);
            assert(descriptor_of_id(id_text) == Ok::<Descriptor, CatalogError>(self@));
        }
        token
    }

    /// Reads the descriptor that the base id of a token holds.
    pub fn from_base_id(id: &str) -> (descriptor: Result<TraktCatalog, CatalogError>)
        ensures
            match descriptor {
                Ok(d) => descriptor_of_id(id@) == Ok::<Descriptor, CatalogError>(d@),
                Err(e) => descriptor_of_id(id@) == Err::<Descriptor, CatalogError>(e),
            },
    {
        let bytes = match from_base64(id) {
            Some(bytes) => bytes,
            None => {
                return Err(CatalogError::Decode);
            },
        };
        let text = match text_of_bytes(bytes) {
            Some(text) => text,
            None => {
                return Err(CatalogError::Encoding);
            },
        };
        let document = match Json::parse(text.as_str()) {
            Some(document) => document,
            None => {
                return Err(CatalogError::Decode);
            },
        };
        TraktCatalog::from_json(&document)
    }

    /// Reads the descriptor that a token holds.
    pub fn decode(token: &str) -> (descriptor: Result<TraktCatalog, CatalogError>)
        ensures
            match descriptor {
                Ok(d) => descriptor_of_token(token@) == Ok::<Descriptor, CatalogError>(d@),
                Err(e) => descriptor_of_token(token@) == Err::<Descriptor, CatalogError>(e),
            },
    {
        match strip_suffix(token, "-trakt") {
            Some(id) => TraktCatalog::from_base_id(id),
            None => Err(CatalogError::Format),
        }
    }

    /// Sets the page to ask the provider for and the number of items on it.
    pub fn pagination(&mut self, current_page: i32, items_per_page: i32) -> (this: &mut Self)
        ensures
            *this == (TraktCatalog {
                pagination: Some(TraktPagination { current_page, items_per_page }),
                ..*old(self)
            }),
            *final(self) == *final(this),
    {
        let pagination_details = TraktPagination::new(current_page, items_per_page);
        self.pagination = Some(pagination_details);
        self
    }

    /// Resolves the descriptor for a request in place: it takes the paging
    /// that the request asks for, with 500 items a page where a genre is
    /// asked of a list, and the genre of the request where there is one.
    pub fn handle_pagination_based_on_genre(
        &mut self,
        catalog_path_options: &CatalogRequestParams,
    ) -> (this: &mut Self)
        ensures
            this@ == resolved(old(self)@, catalog_path_options@),
            *final(self) == *final(this),
    {
        let page_size = match self.endpoint {
            TraktEndpoint::List => if catalog_path_options.genre.is_some() {
                500
            } else {
                catalog_path_options.pagination.page_size
            },
            _ => catalog_path_options.pagination.page_size,
        };
        if let Some(genre) = &catalog_path_options.genre {
            self.genre = Some(genre.clone());
        }
        self.pagination(catalog_path_options.pagination.page, page_size)
    }

    /// The descriptor that answers a request, and whether its page is
    /// fetched oversized for filtering by genre. The stored descriptor stays
    /// as it is.
    pub fn resolve(&self, request: &CatalogRequestParams) -> (answer: (TraktCatalog, bool))
        ensures
            answer.0@ == resolved(self@, request@),
            answer.1 == genre_filtered(self@, request@),
            genre_filtered(self@, request@) ==> answer.0.pagination == Some(
                TraktPagination {
                    current_page: request.pagination.page,
                    items_per_page: 500,
                },
            ),
    {
        let filtered = match self.endpoint {
            TraktEndpoint::List => request.genre.is_some(),
            _ => false,
        };
        let items_per_page = if filtered {
            500
        } else {
            request.pagination.page_size
        };
        let genre = match &request.genre {
            Some(genre) => Some(genre.clone()),
            None => self.genre.clone(),
        };
        let answer = TraktCatalog {
            endpoint: self.endpoint,
            pagination: Some(TraktPagination::new(request.pagination.page, items_per_page)),
            extended_info: self.extended_info,
            list_id: self.list_id.clone(),
            catalog_type: self.catalog_type,
            genre,
        };
        (answer, filtered)
    }

    /// Reads the descriptor that the request's catalog id holds and resolves
    /// it for the request.
    pub fn from_catalog_params(request: &CatalogRequestParams) -> (descriptor: Result<
        TraktCatalog,
        CatalogError,
    >)
        ensures
            match descriptor {
                Ok(d) => descriptor_of_id(request.catalog_id@) matches Ok(stored) && d@
                    == resolved(stored, request@),
                Err(e) => descriptor_of_id(request.catalog_id@) == Err::<Descriptor, CatalogError>(
                    e,
                ),
            },
    {
        match TraktCatalog::from_base_id(request.catalog_id.as_str()) {
            Ok(stored) => Ok(stored.resolve(request).0),
            Err(e) => Err(e),
        }
    }
}

} // verus!
