use crate::codec::{base64_bytes, from_base64, text_of_bytes};
use crate::error::CatalogError;
use crate::json::{
    json_text, json_value, lemma_plain_deeper, member_text, optional_text_document, optional_text_json,
    optional_texts_document, optional_texts_json, read_text, read_text_list, text_list, values, Json,
    JsonValue,
};
use crate::text::{
    lemma_split_nonempty, numeral_up_to, opt_text, opt_texts, parse_digits, same_text, split,
    split_text, strip_suffix, texts, without_suffix,
};
use vstd::prelude::*;
use vstd::utf8::{decode_utf8, valid_utf8};

verus! {

/// The providers that a catalog can come from.
#[derive(Debug, Clone, Copy, PartialEq, Eq, Structural)]
pub enum CatalogSource {
    Trakt,
}

/// The kinds of content that a catalog lists.
#[derive(Debug, PartialEq, Eq, Hash, Copy, Clone, Structural)]
pub enum CatalogType {
    Movie,
    Series,
}

/// The name that a kind of content has in documents.
pub open spec fn content_name(catalog_type: CatalogType) -> Seq<char> {
    match catalog_type {
        CatalogType::Movie => "movie"@,
        CatalogType::Series => "series"@,
    }
}

/// The kind of content that a name stands for.
pub open spec fn content_of_name(name: Seq<char>) -> Option<CatalogType> {
    if name == "movie"@ {
        Some(CatalogType::Movie)
    } else if name == "series"@ {
        Some(CatalogType::Series)
    } else {
        None
    }
}

/// The name that a kind of content has in documents.
pub fn content_text(catalog_type: CatalogType) -> (name: &'static str)
    ensures
        name@ == content_name(catalog_type),
{
    match catalog_type {
        CatalogType::Movie => "movie",
        CatalogType::Series => "series",
    }
}

impl CatalogType {
    /// The kind of content that a name stands for.
    pub fn from_text(name: &str) -> (catalog_type: Option<CatalogType>)
        ensures
            catalog_type == content_of_name(name@),
    {
        if same_text(name, "movie") {
            Some(CatalogType::Movie)
        } else if same_text(name, "series") {
            Some(CatalogType::Series)
        } else {
            None
        }
    }
}

/// Number of items on one page of the addon's own paging.
pub const PAGE_SIZE: i32 = 100;

/// A 1-based page and the number of items on it.
#[derive(Debug, Clone, Copy, PartialEq, Eq, Structural)]
pub struct PaginationDetails {
    pub page: i32,
    pub page_size: i32,
}

/// The page that holds the item at offset `skip`; the first page where no
/// offset is given.
pub open spec fn page_of_skip(skip: Option<int>) -> int {
    match skip {
        Some(offset) => offset / 100 + 1,
        None => 1,
    }
}

/// An item offset lies on page `skip / 100 + 1`: the offsets of page `p` are
/// those from `100 * (p - 1)` to `100 * p - 1`. So offsets 0 to 99 lie on page
/// 1 and offsets 100 to 199 on page 2.
pub proof fn lemma_page_of_skip(skip: int, page: int)
    requires
        skip >= 0,
    ensures
        page_of_skip(Some(skip)) == skip / 100 + 1,
        page_of_skip(Some(skip)) >= 1,
        page_of_skip(Some(skip)) == page <==> 100 * (page - 1) <= skip < 100 * page,
        0 <= skip <= 99 ==> page_of_skip(Some(skip)) == 1,
        100 <= skip <= 199 ==> page_of_skip(Some(skip)) == 2,
{
}

impl PaginationDetails {
    /// Whether the page is at least 1 and holds at least one item.
    pub open spec fn valid(self) -> bool {
        self.page >= 1 && self.page_size > 0
    }

    /// The paging that an item offset asks for.
    pub fn from_skip(skip: Option<i32>) -> (pagination: PaginationDetails)
        requires
            skip matches Some(offset) ==> offset >= 0,
        ensures
            pagination.page_size == 100,
            pagination.page == page_of_skip(opt_int(skip)),
            skip matches Some(offset) ==> pagination.page == offset / 100 + 1,
            skip is None ==> pagination.page == 1,
            pagination.valid(),
    {
        let page = match skip {
            Some(offset) => offset / PAGE_SIZE + 1,
            None => 1,
        };
        PaginationDetails { page, page_size: PAGE_SIZE }
    }
}

/// The number that an optional machine integer holds.
pub open spec fn opt_int(o: Option<i32>) -> Option<int> {
    match o {
        Some(i) => Some(i as int),
        None => None,
    }
}

/// The item offset that the value of a `skip` parameter writes: an optional
/// sign and decimal digits, worth a number from 0 to `i32::MAX`.
pub open spec fn skip_of(s: Seq<char>) -> Option<int> {
    if s.len() > 0 && s[0] == '-' {
        match numeral_up_to(s.skip(1), 0) {
            Some(_) => Some(0),
            None => None,
        }
    } else if s.len() > 0 && s[0] == '+' {
        match numeral_up_to(s.skip(1), i32::MAX as nat) {
            Some(v) => Some(v as int),
            None => None,
        }
    } else {
        match numeral_up_to(s, i32::MAX as nat) {
            Some(v) => Some(v as int),
            None => None,
        }
    }
}

/// Reads the value of a `skip` parameter.
pub fn parse_skip(s: &str) -> (skip: Option<i32>)
    ensures
        opt_int(skip) == skip_of(s@),
        skip matches Some(offset) ==> offset >= 0,
{
    let n = s.unicode_len();
    assert(s@.skip(0) =~= s@);
    if n == 0 {
        return None;
    }
    let first = s.get_char(0);
    if first == '-' {
        match parse_digits(s, 1, 0) {
            Some(_) => Some(0),
            None => None,
        }
    } else if first == '+' {
        match parse_digits(s, 1, 2147483647) {
            Some(v) => Some(v as i32),
            None => None,
        }
    } else {
        match parse_digits(s, 0, 2147483647) {
            Some(v) => Some(v as i32),
            None => None,
        }
    }
}

/// What the parameters of a request path ask for.
pub struct RequestOptions {
    pub skip: Option<int>,
    pub genre: Option<Seq<char>>,
}

/// The options after one more parameter is read, or `None` where that
/// parameter is a `skip` whose value is no item offset. A parameter that is
/// not one name and one value, or whose name is unknown, changes nothing.
pub open spec fn read_param(options: RequestOptions, param: Seq<char>) -> Option<RequestOptions> {
    let pair = split(param, '=');
    if pair.len() != 2 {
        Some(options)
    } else if pair[0] == "skip"@ {
        match skip_of(pair[1]) {
            Some(offset) => Some(RequestOptions { skip: Some(offset), genre: options.genre }),
            None => None,
        }
    } else if pair[0] == "genre"@ {
        Some(RequestOptions { skip: options.skip, genre: Some(pair[1]) })
    } else {
        Some(options)
    }
}

/// The options that a list of parameters asks for, read from first to last,
/// so that a later parameter overrides an earlier one of the same name.
pub open spec fn read_params(params: Seq<Seq<char>>) -> Option<RequestOptions>
    decreases params.len(),
{
    if params.len() == 0 {
        Some(RequestOptions { skip: None, genre: None })
    } else {
        match read_params(params.drop_last()) {
            Some(options) => read_param(options, params.last()),
            None => None,
        }
    }
}

/// A catalog request as its path states it.
#[derive(Debug, Clone, PartialEq, Eq)]
pub struct CatalogRequestParams {
    pub catalog_id: String,
    pub pagination: PaginationDetails,
    pub genre: Option<String>,
    pub source: CatalogSource,
}

/// The mathematical value of a [`CatalogRequestParams`].
pub struct CatalogRequest {
    pub catalog_id: Seq<char>,
    pub pagination: PaginationDetails,
    pub genre: Option<Seq<char>>,
    pub source: CatalogSource,
}

impl View for CatalogRequestParams {
    type V = CatalogRequest;

    open spec fn view(&self) -> CatalogRequest {
        CatalogRequest {
            catalog_id: self.catalog_id@,
            pagination: self.pagination,
            genre: opt_text(self.genre),
            source: self.source,
        }
    }
}

/// The request that a path states.
///
/// The path ends in `.json`. What stands before that is cut at every `/`.
/// The first piece is the token: a base id and a source tag with one `-`
/// between them. A second piece, if there is one, is a list of parameters
/// joined by `&`. More pieces are an error.
pub open spec fn request_of_path(path: Seq<char>) -> Result<CatalogRequest, CatalogError> {
    match without_suffix(path, ".json"@) {
        None => Err(CatalogError::Format),
        Some(stem) => {
            let segments = split(stem, '/');
            let token = split(segments[0], '-');
            if token.len() != 2 {
                Err(CatalogError::Format)
            } else if token[1] != "trakt"@ {
                Err(CatalogError::UnsupportedSource)
            } else if segments.len() == 1 {
                Ok(
                    CatalogRequest {
                        catalog_id: token[0],
                        pagination: PaginationDetails { page: 1, page_size: 100 },
                        genre: None,
                        source: CatalogSource::Trakt,
                    },
                )
            } else if segments.len() == 2 {
                match read_params(split(segments[1], '&')) {
                    None => Err(CatalogError::Format),
                    Some(options) => Ok(
                        CatalogRequest {
                            catalog_id: token[0],
                            pagination: PaginationDetails {
                                page: page_of_skip(options.skip) as i32,
                                page_size: 100,
                            },
                            genre: options.genre,
                            source: CatalogSource::Trakt,
                        },
                    ),
                }
            } else {
                Err(CatalogError::Format)
            }
        },
    }
}

impl CatalogRequestParams {
    /// Reads a request path: `<token>.json` or `<token>/<params>.json`.
    #[verifier::loop_isolation(false)]
    pub fn from_path(catalog_path: &str) -> (parsed: Result<Self, CatalogError>)
        ensures
            match parsed {
                Ok(request) => request_of_path(catalog_path@) == Ok::<CatalogRequest, CatalogError>(
                    request@,
                ),
                Err(e) => request_of_path(catalog_path@) == Err::<CatalogRequest, CatalogError>(e),
            },
            parsed matches Ok(request) ==> request.pagination.valid(),
    {
        let stem = match strip_suffix(catalog_path, ".json") {
            Some(stem) => stem,
            None => {
                return Err(CatalogError::Format);
            },
        };
        let segments = split_text(stem, '/');
        proof {
            lemma_split_nonempty(stem@, '/');
        }
        let token = split_text(segments[0].as_str(), '-');
        if token.len() != 2 {
            return Err(CatalogError::Format);
        }
        if !same_text(token[1].as_str(), "trakt") {
            return Err(CatalogError::UnsupportedSource);
        }
        let catalog_id = token[0].clone();
        if segments.len() == 1 {
            Ok(
                CatalogRequestParams {
                    catalog_id,
                    pagination: PaginationDetails::from_skip(None),
                    genre: None,
                    source: CatalogSource::Trakt,
                },
            )
        } else if segments.len() == 2 {
            let params = split_text(segments[1].as_str(), '&');
            let mut skip: Option<i32> = None;
            let mut genre: Option<String> = None;
            let mut i: usize = 0;
            assert(texts(params@).take(0) =~= Seq::<Seq<char>>::empty());
            while i < params.len()
                invariant
                    i <= params.len(),
                    skip matches Some(offset) ==> offset >= 0,
                    read_params(texts(params@).take(i as int)) == Some(
                        RequestOptions { skip: opt_int(skip), genre: opt_text(genre) },
                    ),
                decreases params.len() - i,
            {
                assert(texts(params@).take(i + 1).drop_last() =~= texts(params@).take(i as int));
                assert(texts(params@).take(i + 1).last() == params[i as int]@);
                let pair = split_text(params[i].as_str(), '=');
                if pair.len() == 2 {
                    if same_text(pair[0].as_str(), "skip") {
                        match parse_skip(pair[1].as_str()) {
                            Some(offset) => {
                                skip = Some(offset);
                            },
                            None => {
                                proof {
                                    lemma_read_params_fails(texts(params@), i + 1);
                                }
                                return Err(CatalogError::Format);
                            },
                        }
                    } else if same_text(pair[0].as_str(), "genre") {
                        genre = Some(pair[1].clone());
                    }
                }
                i = i + 1;
            }
            assert(texts(params@).take(params.len() as int) =~= texts(params@));
            Ok(
                CatalogRequestParams {
                    catalog_id,
                    pagination: PaginationDetails::from_skip(skip),
                    genre,
                    source: CatalogSource::Trakt,
                },
            )
        } else {
            Err(CatalogError::Format)
        }
    }
}

/// Once a beginning of the parameters cannot be read, the whole list cannot.
pub proof fn lemma_read_params_fails(params: Seq<Seq<char>>, k: int)
    requires
        0 <= k <= params.len(),
        read_params(params.take(k)) is None,
    ensures
        read_params(params) is None,
    decreases params.len() - k,
{
    if k == params.len() {
        assert(params.take(k) =~= params);
    } else {
        assert(params.take(k + 1).drop_last() =~= params.take(k));
        lemma_read_params_fails(params, k + 1);
    }
}

/// The hint that tells a player which video to open first.
#[derive(Debug, Clone, PartialEq, Eq)]
pub struct DefaultVideoID {
    pub default_video_id: String,
}

/// A reference to a trailer: the video's code and the kind of video.
#[derive(Debug, Clone, PartialEq, Eq)]
pub struct Trailer {
    pub source: String,
    pub trailer_type: String,
}

/// The mathematical value of a [`Trailer`].
pub struct TrailerView {
    pub source: Seq<char>,
    pub trailer_type: Seq<char>,
}

impl View for Trailer {
    type V = TrailerView;

    open spec fn view(&self) -> TrailerView {
        TrailerView { source: self.source@, trailer_type: self.trailer_type@ }
    }
}

/// One entry of a catalog page, in the form that is the same for every
/// provider.
#[derive(Debug, Clone, PartialEq, Eq)]
pub struct CatalogMeta {
    pub catalog_type: CatalogType,
    pub id: String,
    pub name: String,
    pub poster: Option<String>,
    pub background: Option<String>,
    pub genres: Option<Vec<String>>,
    pub release_info: Option<String>,
    pub description: Option<String>,
    pub behavior_hints: Option<DefaultVideoID>,
    pub trailer: Option<Trailer>,
    pub logo: Option<String>,
    pub runtime: Option<String>,
}

/// The mathematical value of a [`CatalogMeta`].
pub struct MetaView {
    pub catalog_type: CatalogType,
    pub id: Seq<char>,
    pub name: Seq<char>,
    pub poster: Option<Seq<char>>,
    pub background: Option<Seq<char>>,
    pub genres: Option<Seq<Seq<char>>>,
    pub release_info: Option<Seq<char>>,
    pub description: Option<Seq<char>>,
    pub default_video_id: Option<Seq<char>>,
    pub trailer: Option<TrailerView>,
    pub logo: Option<Seq<char>>,
    pub runtime: Option<Seq<char>>,
}

impl View for CatalogMeta {
    type V = MetaView;

    open spec fn view(&self) -> MetaView {
        MetaView {
            catalog_type: self.catalog_type,
            id: self.id@,
            name: self.name@,
            poster: opt_text(self.poster),
            background: opt_text(self.background),
            genres: opt_texts(self.genres),
            release_info: opt_text(self.release_info),
            description: opt_text(self.description),
            default_video_id: match self.behavior_hints {
                Some(hint) => Some(hint.default_video_id@),
                None => None,
            },
            trailer: match self.trailer {
                Some(trailer) => Some(trailer@),
                None => None,
            },
            logo: opt_text(self.logo),
            runtime: opt_text(self.runtime),
        }
    }
}

/// The hint for the player as a document: an object that names the video,
/// or `null`.
pub open spec fn hint_json(default_video_id: Option<Seq<char>>) -> JsonValue {
    match default_video_id {
        Some(id) => JsonValue::Object(
            Map::<Seq<char>, JsonValue>::empty().insert("defaultVideoId"@, JsonValue::Str(id)),
        ),
        None => JsonValue::Null,
    }
}

/// A trailer as a document: an object of its source and its type, or `null`.
pub open spec fn trailer_json(trailer: Option<TrailerView>) -> JsonValue {
    match trailer {
        Some(t) => JsonValue::Object(
            Map::<Seq<char>, JsonValue>::empty().insert("source"@, JsonValue::Str(t.source)).insert(
                "type"@,
                JsonValue::Str(t.trailer_type),
            ),
        ),
        None => JsonValue::Null,
    }
}

/// A catalog entry as a document: an object with one member for each
/// field, `null` where the field is absent.
pub open spec fn meta_json(meta: MetaView) -> JsonValue {
    JsonValue::Object(
        Map::<Seq<char>, JsonValue>::empty().insert(
            "type"@,
            JsonValue::Str(content_name(meta.catalog_type)),
        ).insert("id"@, JsonValue::Str(meta.id)).insert("name"@, JsonValue::Str(meta.name)).insert(
            "poster"@,
            optional_text_json(meta.poster),
        ).insert("background"@, optional_text_json(meta.background)).insert(
            "genres"@,
            optional_texts_json(meta.genres),
        ).insert("releaseInfo"@, optional_text_json(meta.release_info)).insert(
            "description"@,
            optional_text_json(meta.description),
        ).insert("behaviorHints"@, hint_json(meta.default_video_id)).insert(
            "trailer"@,
            trailer_json(meta.trailer),
        ).insert("logo"@, optional_text_json(meta.logo)).insert(
            "runtime"@,
            optional_text_json(meta.runtime),
        ),
    )
}

/// A catalog page as a document: an object whose member `metas` lists the
/// entries in order.
pub open spec fn page_json(page: Seq<MetaView>) -> JsonValue {
    JsonValue::Object(
        Map::<Seq<char>, JsonValue>::empty().insert(
            "metas"@,
            JsonValue::Array(Seq::new(page.len(), |i: int| meta_json(page[i]))),
        ),
    )
}

/// The document of a catalog entry holds no number and is nested three deep
/// at most.
pub proof fn lemma_meta_json_plain(meta: MetaView)
    ensures
        meta_json(meta).plain(3),
{
    let members = meta_json(meta)->Object_0;
    assert(optional_texts_json(meta.genres).plain(2)) by {
        if let Some(list) = meta.genres {
            let items = optional_texts_json(meta.genres)->Array_0;
            assert forall|i: int| 0 <= i < items.len() implies (#[trigger] items[i]).plain(1) by {}
        }
    }
    assert(hint_json(meta.default_video_id).plain(2)) by {
        if let Some(id) = meta.default_video_id {
            let inner = hint_json(meta.default_video_id)->Object_0;
            assert forall|name: Seq<char>| inner.contains_key(name) implies (#[trigger] inner[name]).plain(
                1,
            ) by {}
        }
    }
    assert(trailer_json(meta.trailer).plain(2)) by {
        if let Some(t) = meta.trailer {
            let inner = trailer_json(meta.trailer)->Object_0;
            assert forall|name: Seq<char>| inner.contains_key(name) implies (#[trigger] inner[name]).plain(
                1,
            ) by {}
        }
    }
    assert forall|name: Seq<char>| members.contains_key(name) implies (#[trigger] members[name]).plain(
        2,
    ) by {}
}

/// The document of a catalog page holds no number and is nested five deep
/// at most.
pub proof fn lemma_page_json_plain(page: Seq<MetaView>)
    ensures
        page_json(page).plain(5),
{
    let members = page_json(page)->Object_0;
    let metas = Seq::new(page.len(), |i: int| meta_json(page[i]));
    assert forall|i: int| 0 <= i < metas.len() implies (#[trigger] metas[i]).plain(3) by {
        lemma_meta_json_plain(page[i]);
    }
    assert(JsonValue::Array(metas).plain(4));
    assert forall|name: Seq<char>| members.contains_key(name) implies (#[trigger] members[name]).plain(
        4,
    ) by {}
}

impl CatalogMeta {
    /// The entry as a document.
    pub fn to_json(&self) -> (document: Json)
        ensures
            document@ == meta_json(self@),
    {
        let hint = match &self.behavior_hints {
            Some(hint) => Json::object().with(
                "defaultVideoId",
                Json::Str(hint.default_video_id.clone()),
            ),
            None => Json::Null,
        };
        let trailer = match &self.trailer {
            Some(t) => Json::object().with("source", Json::Str(t.source.clone())).with(
                "type",
                Json::Str(t.trailer_type.clone()),
            ),
            None => Json::Null,
        };
        Json::object().with("type", Json::Str(content_text(self.catalog_type).to_owned())).with(
            "id",
            Json::Str(self.id.clone()),
        ).with("name", Json::Str(self.name.clone())).with(
            "poster",
            optional_text_document(&self.poster),
        ).with("background", optional_text_document(&self.background)).with(
            "genres",
            optional_texts_document(&self.genres),
        ).with("releaseInfo", optional_text_document(&self.release_info)).with(
            "description",
            optional_text_document(&self.description),
        ).with("behaviorHints", hint).with("trailer", trailer).with(
            "logo",
            optional_text_document(&self.logo),
        ).with("runtime", optional_text_document(&self.runtime))
    }
}

/// A catalog page: its entries in the provider's order.
#[derive(Debug, Clone, PartialEq, Eq)]
pub struct CatalogResponse {
    pub metas: Vec<CatalogMeta>,
}

impl View for CatalogResponse {
    type V = Seq<MetaView>;

    open spec fn view(&self) -> Seq<MetaView> {
        self.metas@.map_values(|meta: CatalogMeta| meta@)
    }
}

impl CatalogResponse {
    /// The page as a document.
    pub fn to_json(&self) -> (document: Json)
        ensures
            document@ == page_json(self@),
    {
        let mut metas: Vec<Json> = Vec::new();
        let mut i: usize = 0;
        while i < self.metas.len()
            invariant
                i <= self.metas.len(),
                metas.len() == i,
                forall|k: int| 0 <= k < i ==> (#[trigger] metas[k])@ == meta_json(self.metas[k]@),
            decreases self.metas.len() - i,
        {
            metas.push(self.metas[i].to_json());
            i = i + 1;
        }
        let list = Json::Array(metas);
        assert(list@->Array_0 =~= Seq::new(self@.len(), |i: int| meta_json(self@[i])));
        Json::object().with("metas", list)
    }

    /// The page as JSON text, which reads back as the document of the page.
    pub fn to_text(&self) -> (text: String)
        ensures
            text@ == json_text(page_json(self@)),
            json_value(text@) == Some(page_json(self@)),
    {
        let document = self.to_json();
        proof {
            lemma_page_json_plain(self@);
            lemma_plain_deeper(page_json(self@), 5, 100);
        }
        document.to_text()
    }

    /// The page without entries.
    pub fn new_empty() -> (page: Self)
        ensures
            page@ == Seq::<MetaView>::empty(),
            page.metas@.len() == 0,
    {
        let page = Self { metas: Vec::new() };
        assert(page@ =~= Seq::<MetaView>::empty());
        page
    }
}

/// A parameter that a catalog takes on request, such as `skip`.
#[derive(Debug, Clone, PartialEq, Eq)]
pub struct Extra {
    pub name: String,
    pub options: Option<Vec<String>>,
    pub is_required: bool,
}

/// The mathematical value of an [`Extra`].
pub struct ExtraView {
    pub name: Seq<char>,
    pub options: Option<Seq<Seq<char>>>,
    pub is_required: bool,
}

impl View for Extra {
    type V = ExtraView;

    open spec fn view(&self) -> ExtraView {
        ExtraView {
            name: self.name@,
            options: opt_texts(self.options),
            is_required: self.is_required,
        }
    }
}

impl Extra {
    /// The parameter of that name, with those options.
    pub fn new(name: &str, options: Option<Vec<String>>, is_required: bool) -> (extra: Self)
        ensures
            extra@ == (ExtraView { name: name@, options: opt_texts(options), is_required }),
    {
        Self { name: name.to_owned(), options, is_required }
    }
}

/// A catalog as the manifest lists it. Its id is the token of its query.
#[derive(Debug, Clone, PartialEq, Eq)]
pub struct Catalog {
    pub id: String,
    pub catalog_type: CatalogType,
    pub name: String,
    pub extra: Vec<Extra>,
}

/// The mathematical value of a [`Catalog`].
pub struct CatalogView {
    pub id: Seq<char>,
    pub catalog_type: CatalogType,
    pub name: Seq<char>,
    pub extra: Seq<ExtraView>,
}

impl View for Catalog {
    type V = CatalogView;

    open spec fn view(&self) -> CatalogView {
        CatalogView {
            id: self.id@,
            catalog_type: self.catalog_type,
            name: self.name@,
            extra: self.extra@.map_values(|e: Extra| e@),
        }
    }
}

/// The catalog of that name, id and kind whose one parameter is an optional
/// `skip`.
pub open spec fn sample(name: Seq<char>, id: Seq<char>, catalog_type: CatalogType) -> CatalogView {
    CatalogView {
        id,
        catalog_type,
        name,
        extra: seq![ExtraView { name: "skip"@, options: None, is_required: false }],
    }
}

/// The mathematical values of a list of catalogs, in order.
pub open spec fn catalog_views(catalogs: Seq<Catalog>) -> Seq<CatalogView> {
    catalogs.map_values(|c: Catalog| c@)
}

/// The options of a parameter: a member that may be absent or `null`, and
/// is an array of strings where it is there. `None` where it is anything
/// else.
pub open spec fn options_of(v: JsonValue) -> Option<Option<Seq<Seq<char>>>> {
    match v.member("options"@) {
        None => Some(None),
        Some(JsonValue::Null) => Some(None),
        Some(options) => match text_list(options) {
            Some(list) => Some(Some(list)),
            None => None,
        },
    }
}

/// The parameter that a document states: it names a `name` and says
/// whether it `isRequired`.
pub open spec fn extra_of(v: JsonValue) -> Option<ExtraView> {
    match (member_text(v, "name"@), options_of(v), v.member("isRequired"@)) {
        (Some(name), Some(options), Some(JsonValue::Bool(is_required))) => Some(
            ExtraView { name, options, is_required },
        ),
        _ => None,
    }
}

/// The parameters that an array of documents states.
pub open spec fn extras_of(v: JsonValue) -> Option<Seq<ExtraView>> {
    match v {
        JsonValue::Array(items) => if forall|i: int|
            0 <= i < items.len() ==> extra_of(#[trigger] items[i]) is Some {
            Some(Seq::new(items.len(), |i: int| extra_of(items[i])->0))
        } else {
            None
        },
        _ => None,
    }
}

/// The kind of content that the member `type` names.
pub open spec fn content_of(v: JsonValue) -> Option<CatalogType> {
    match member_text(v, "type"@) {
        Some(name) => content_of_name(name),
        None => None,
    }
}

/// The catalog that a document states: it names an `id`, a `type`, a `name`
/// and its parameters under `extra`.
pub open spec fn catalog_of(v: JsonValue) -> Option<CatalogView> {
    match (member_text(v, "id"@), content_of(v), member_text(v, "name"@), v.member("extra"@)) {
        (Some(id), Some(catalog_type), Some(name), Some(extra)) => match extras_of(extra) {
            Some(extra) => Some(CatalogView { id, catalog_type, name, extra }),
            None => None,
        },
        _ => None,
    }
}

/// The catalogs that an array of documents states.
pub open spec fn catalogs_of(v: JsonValue) -> Result<Seq<CatalogView>, CatalogError> {
    match v {
        JsonValue::Array(items) => if forall|i: int|
            0 <= i < items.len() ==> catalog_of(#[trigger] items[i]) is Some {
            Ok(Seq::new(items.len(), |i: int| catalog_of(items[i])->0))
        } else {
            Err(CatalogError::Parse)
        },
        _ => Err(CatalogError::Parse),
    }
}

/// The catalogs that a configuration holds: the configuration is base64,
/// the bytes are UTF-8 text, and the text is an array of catalog documents.
pub open spec fn catalogs_of_config(config: Seq<char>) -> Result<Seq<CatalogView>, CatalogError> {
    match base64_bytes(config) {
        None => Err(CatalogError::Decode),
        Some(bytes) => if !valid_utf8(bytes) {
            Err(CatalogError::Encoding)
        } else {
            match json_value(decode_utf8(bytes)) {
                None => Err(CatalogError::Decode),
                Some(v) => catalogs_of(v),
            }
        },
    }
}

fn read_options(j: &Json) -> (options: Option<Option<Vec<String>>>)
    ensures
        match options {
            Some(o) => options_of(j@) == Some(opt_texts(o)),
            None => options_of(j@) is None,
        },
{
    match j.get("options") {
        None => Some(None),
        Some(Json::Null) => Some(None),
        Some(options) => match read_text_list(options) {
            Some(list) => Some(Some(list)),
            None => None,
        },
    }
}

impl Extra {
    /// Reads a parameter from its document.
    pub fn from_json(j: &Json) -> (extra: Option<Extra>)
        ensures
            match extra {
                Some(e) => extra_of(j@) == Some(e@),
                None => extra_of(j@) is None,
            },
    {
        let name = match read_text(j, "name") {
            Some(name) => name,
            None => {
                return None;
            },
        };
        let options = match read_options(j) {
            Some(options) => options,
            None => {
                return None;
            },
        };
        match j.get("isRequired") {
            Some(Json::Bool(is_required)) => Some(
                Extra { name, options, is_required: *is_required },
            ),
            _ => None,
        }
    }
}

#[verifier::loop_isolation(false)]
fn read_extras(j: &Json) -> (extras: Option<Vec<Extra>>)
    ensures
        match extras {
            Some(e) => extras_of(j@) == Some(e@.map_values(|e: Extra| e@)),
            None => extras_of(j@) is None,
        },
{
    let items = match j.as_items() {
        Some(items) => items,
        None => {
            return None;
        },
    };
    let mut extras: Vec<Extra> = Vec::new();
    let mut i: usize = 0;
    while i < items.len()
        invariant
            i <= items.len(),
            extras.len() == i,
            forall|k: int| 0 <= k < i ==> extra_of(#[trigger] values(items@)[k]) == Some(extras[k]@),
        decreases items.len() - i,
    {
        match Extra::from_json(&items[i]) {
            Some(extra) => {
                extras.push(extra);
            },
            None => {
                assert(extra_of(values(items@)[i as int]) is None);
                return None;
            },
        }
        i = i + 1;
    }
    assert(extras@.map_values(|e: Extra| e@) =~= extras_of(j@)->0);
    Some(extras)
}

impl Catalog {
    /// Reads a catalog from its document.
    pub fn from_json(j: &Json) -> (catalog: Option<Catalog>)
        ensures
            match catalog {
                Some(c) => catalog_of(j@) == Some(c@),
                None => catalog_of(j@) is None,
            },
    {
        let id = match read_text(j, "id") {
            Some(id) => id,
            None => {
                return None;
            },
        };
        let catalog_type = match read_text(j, "type") {
            Some(name) => match CatalogType::from_text(name.as_str()) {
                Some(catalog_type) => catalog_type,
                None => {
                    return None;
                },
            },
            None => {
                return None;
            },
        };
        let name = match read_text(j, "name") {
            Some(name) => name,
            None => {
                return None;
            },
        };
        let extra = match j.get("extra") {
            Some(extra) => match read_extras(extra) {
                Some(extra) => extra,
                None => {
                    return None;
                },
            },
            None => {
                return None;
            },
        };
        Some(Catalog { id, catalog_type, name, extra })
    }

    /// Reads the list of catalogs from its document.
    #[verifier::loop_isolation(false)]
    pub fn list_from_json(j: &Json) -> (catalogs: Result<Vec<Catalog>, CatalogError>)
        ensures
            match catalogs {
                Ok(c) => catalogs_of(j@) == Ok::<Seq<CatalogView>, CatalogError>(
                    catalog_views(c@),
                ),
                Err(e) => catalogs_of(j@) == Err::<Seq<CatalogView>, CatalogError>(e),
            },
    {
        let items = match j.as_items() {
            Some(items) => items,
            None => {
                return Err(CatalogError::Parse);
            },
        };
        let mut catalogs: Vec<Catalog> = Vec::new();
        let mut i: usize = 0;
        while i < items.len()
            invariant
                i <= items.len(),
                catalogs.len() == i,
                forall|k: int|
                    0 <= k < i ==> catalog_of(#[trigger] values(items@)[k]) == Some(catalogs[k]@),
            decreases items.len() - i,
        {
            match Catalog::from_json(&items[i]) {
                Some(catalog) => {
                    catalogs.push(catalog);
                },
                None => {
                    assert(catalog_of(values(items@)[i as int]) is None);
                    return Err(CatalogError::Parse);
                },
            }
            i = i + 1;
        }
        assert(catalog_views(catalogs@) =~= catalogs_of(j@)->Ok_0);
        Ok(catalogs)
    }

    /// The catalogs that are offered where no configuration names any: two
    /// lists, and one whose id is broken on purpose.
    pub fn export() -> (samples: Vec<Catalog>)
        ensures
            samples@.len() == 3,
            samples[0]@ == sample(
                "Netflix Movies"@,
                "eyJlbmRwb2ludCI6Ikxpc3QiLCJwYWdpbmF0aW9uIjpudWxsLCJleHRlbmRlZF9pbmZvIjp0cnVlLCJsaXN0X2lkIjoiMjA3NjQ3NzAiLCJjYXRhbG9nX3R5cGUiOiJtb3ZpZSJ9-trakt"@,
                CatalogType::Movie,
            ),
            samples[1]@ == sample(
                "Netflix TV Shows"@,
                "eyJlbmRwb2ludCI6Ikxpc3QiLCJwYWdpbmF0aW9uIjpudWxsLCJleHRlbmRlZF9pbmZvIjp0cnVlLCJsaXN0X2lkIjoiMjA3NjQ0NzEiLCJjYXRhbG9nX3R5cGUiOiJzZXJpZXMifQ==-trakt"@,
                CatalogType::Series,
            ),
            samples[2]@ == sample(
                "Broken Catalog YAY"@,
                "elkajsdfyJlbmRwb2ludCI6Ikxpc3QiLCJwYWdpbmF0aW9uIjpudWxsLCJleHRlbmRlZF9pbmZvIjp0cnVlLCJsaXN0X2lkIjoiMjA3NjQ0NzEiLCJjYXRhbG9nX3R5cGUiOiJzZXJpZXMifQ==-trakt"@,
                CatalogType::Series,
            ),
    {
        let mut samples: Vec<Catalog> = Vec::new();
        samples.push(
            Catalog::with_skip(
                "Netflix Movies",
                "eyJlbmRwb2ludCI6Ikxpc3QiLCJwYWdpbmF0aW9uIjpudWxsLCJleHRlbmRlZF9pbmZvIjp0cnVlLCJsaXN0X2lkIjoiMjA3NjQ3NzAiLCJjYXRhbG9nX3R5cGUiOiJtb3ZpZSJ9-trakt",
                CatalogType::Movie,
            ),
        );
        samples.push(
            Catalog::with_skip(
                "Netflix TV Shows",
                "eyJlbmRwb2ludCI6Ikxpc3QiLCJwYWdpbmF0aW9uIjpudWxsLCJleHRlbmRlZF9pbmZvIjp0cnVlLCJsaXN0X2lkIjoiMjA3NjQ0NzEiLCJjYXRhbG9nX3R5cGUiOiJzZXJpZXMifQ==-trakt",
                CatalogType::Series,
            ),
        );
        samples.push(
            Catalog::with_skip(
                "Broken Catalog YAY",
                "elkajsdfyJlbmRwb2ludCI6Ikxpc3QiLCJwYWdpbmF0aW9uIjpudWxsLCJleHRlbmRlZF9pbmZvIjp0cnVlLCJsaXN0X2lkIjoiMjA3NjQ0NzEiLCJjYXRhbG9nX3R5cGUiOiJzZXJpZXMifQ==-trakt",
                CatalogType::Series,
            ),
        );
        samples
    }

    /// A catalog whose one parameter is an optional `skip`.
    pub fn with_skip(name: &str, id: &str, catalog_type: CatalogType) -> (catalog: Catalog)
        ensures
            catalog@ == sample(name@, id@, catalog_type),
    {
        let mut extra: Vec<Extra> = Vec::new();
        extra.push(Extra::new("skip", None, false));
        let catalog = Catalog { id: id.to_owned(), catalog_type, name: name.to_owned(), extra };
        assert(catalog@.extra =~= sample(name@, id@, catalog_type).extra);
        catalog
    }

    /// Reads the catalogs that a configuration holds.
    pub fn from_config(config: &str) -> (catalogs: Result<Vec<Catalog>, CatalogError>)
        ensures
            match catalogs {
                Ok(c) => catalogs_of_config(config@) == Ok::<Seq<CatalogView>, CatalogError>(
                    catalog_views(c@),
                ),
                Err(e) => catalogs_of_config(config@) == Err::<Seq<CatalogView>, CatalogError>(e),
            },
    {
        let bytes = match from_base64(config) {
            Some(bytes) => bytes,
            None => {
                return Err(CatalogError::Decode);
            },
        };
        let text = match text_of_bytes(bytes) {
            Some(text) => text,
            None => {
                return Err(CatalogError::Encoding);
            },
        };
        match Json::parse(text.as_str()) {
            Some(document) => Catalog::list_from_json(&document),
            None => Err(CatalogError::Decode),
        }
    }
}

} // verus!
