use crate::addon::catalog::{CatalogResponse, CatalogType};
use crate::error::CatalogError;
use crate::json::{json_value, Json};
use crate::text::{opt_text, signed_decimal, signed_decimal_string, texts};
use crate::trakt::descriptor::{Descriptor, TraktCatalog};
use crate::trakt::{output_of, ResponseView, TraktEndpoint, TraktResponse};
use vstd::prelude::*;

verus! {

/// The texts that a sequence of pairs of strings holds, in order.
pub open spec fn pair_texts(v: Seq<(String, String)>) -> Seq<(Seq<char>, Seq<char>)> {
    v.map_values(|pair: (String, String)| (pair.0@, pair.1@))
}

/// One GET request to the provider: its address, and the parts that the
/// address is made of, which are the segments of the path below the
/// provider's own address and the parameters of the query; and the headers.
#[derive(Debug, Clone, PartialEq, Eq)]
pub struct TraktRequest {
    pub url: String,
    pub path_segments: Vec<String>,
    pub query: Vec<(String, String)>,
    pub headers: Vec<(String, String)>,
}

/// The mathematical value of a [`TraktRequest`].
pub struct RequestView {
    pub url: Seq<char>,
    pub path_segments: Seq<Seq<char>>,
    pub query: Seq<(Seq<char>, Seq<char>)>,
    pub headers: Seq<(Seq<char>, Seq<char>)>,
}

impl View for TraktRequest {
    type V = RequestView;

    open spec fn view(&self) -> RequestView {
        RequestView {
            url: self.url@,
            path_segments: texts(self.path_segments@),
            query: pair_texts(self.query@),
            headers: pair_texts(self.headers@),
        }
    }
}

/// The address that the `url` crate writes where the segments are appended
/// to the path of the address `base` and the pairs to its query, or `None`
/// where `base` is no address that a path can be appended to.
pub uninterp spec fn url_text(
    base: Seq<char>,
    segments: Seq<Seq<char>>,
    pairs: Seq<(Seq<char>, Seq<char>)>,
) -> Option<Seq<char>>;

/// The address of the provider.
pub open spec fn api_base() -> Seq<char> {
    "https://api.trakt.tv"@
}

/// Whether the parts of an address are few and short enough to be written
/// as one address: at most 16 segments and 16 pairs, and no text of more
/// than 100000 characters.
pub open spec fn address_fits(
    base: Seq<char>,
    segments: Seq<Seq<char>>,
    pairs: Seq<(Seq<char>, Seq<char>)>,
) -> bool {
    &&& base.len() <= 100_000
    &&& segments.len() <= 16
    &&& pairs.len() <= 16
    &&& forall|i: int| 0 <= i < segments.len() ==> (#[trigger] segments[i]).len() <= 100_000
    &&& forall|i: int|
        0 <= i < pairs.len() ==> (#[trigger] pairs[i]).0.len() <= 100_000 && pairs[i].1.len()
            <= 100_000
}

/// `Url::parse` on `base`, then `PathSegmentsMut::extend` with the segments
/// and `Serializer::append_pair` with each pair, of the `url` crate; the
/// result is the address as text. The contract only gives the result its
/// name: the same parts always give the same address, or always none. The
/// crate keeps positions in the address as 32-bit numbers and panics where
/// one does not fit, so the parts must be few and short.
#[verifier::external_body]
fn render_url(base: &str, segments: &Vec<String>, pairs: &Vec<(String, String)>) -> (address:
    Option<String>)
    requires
        address_fits(base@, texts(segments@), pair_texts(pairs@)),
    ensures
        match address {
            Some(a) => url_text(base@, texts(segments@), pair_texts(pairs@)) == Some(a@),
            None => url_text(base@, texts(segments@), pair_texts(pairs@)) is None,
        },
{
    let mut url = url::Url::parse(base).ok()?;
    url.path_segments_mut().ok()?.extend(segments);
    for (name, value) in pairs {
        url.query_pairs_mut().append_pair(name, value);
    }
    Some(url.into())
}

/// Whether the parts of an address are few and short enough to be written
/// as one address.
fn fits(base: &str, segments: &Vec<String>, pairs: &Vec<(String, String)>) -> (ok: bool)
    ensures
        ok == address_fits(base@, texts(segments@), pair_texts(pairs@)),
{
    if base.unicode_len() > 100_000 || segments.len() > 16 || pairs.len() > 16 {
        return false;
    }
    let mut i: usize = 0;
    while i < segments.len()
        invariant
            i <= segments.len(),
            forall|k: int| 0 <= k < i ==> (#[trigger] texts(segments@)[k]).len() <= 100_000,
        decreases segments.len() - i,
    {
        if segments[i].as_str().unicode_len() > 100_000 {
            assert(texts(segments@)[i as int].len() > 100_000);
            return false;
        }
        i = i + 1;
    }
    let mut j: usize = 0;
    while j < pairs.len()
        invariant
            j <= pairs.len(),
            forall|k: int| 0 <= k < segments.len() ==> (#[trigger] texts(segments@)[k]).len()
                <= 100_000,
            forall|k: int|
                0 <= k < j ==> (#[trigger] pair_texts(pairs@)[k]).0.len() <= 100_000
                    && pair_texts(pairs@)[k].1.len() <= 100_000,
        decreases pairs.len() - j,
    {
        if pairs[j].0.as_str().unicode_len() > 100_000 || pairs[j].1.as_str().unicode_len()
            > 100_000 {
            assert(pair_texts(pairs@)[j as int].0.len() > 100_000 || pair_texts(
                pairs@,
            )[j as int].1.len() > 100_000);
            return false;
        }
        j = j + 1;
    }
    true
}

/// The address of a request with these parts below `base`, or `None` where
/// the parts are too many or too long, or `base` is no address that a path
/// can be appended to.
pub open spec fn address_of(
    base: Seq<char>,
    segments: Seq<Seq<char>>,
    pairs: Seq<(Seq<char>, Seq<char>)>,
) -> Option<Seq<char>> {
    if address_fits(base, segments, pairs) {
        url_text(base, segments, pairs)
    } else {
        None
    }
}

/// Writes the address of a request with these parts below `base`.
pub fn write_address(base: &str, segments: &Vec<String>, pairs: &Vec<(String, String)>) -> (address:
    Option<String>)
    ensures
        opt_text(address) == address_of(base@, texts(segments@), pair_texts(pairs@)),
{
    if fits(base, segments, pairs) {
        render_url(base, segments, pairs)
    } else {
        None
    }
}

impl TraktRequest {
    /// The request with this address and these parts; an error of form
    /// where there is no address.
    pub fn assemble(
        address: Option<String>,
        path_segments: Vec<String>,
        query: Vec<(String, String)>,
        headers: Vec<(String, String)>,
    ) -> (request: Result<TraktRequest, CatalogError>)
        ensures
            match address {
                Some(url) => request == Ok::<TraktRequest, CatalogError>(
                    TraktRequest { url, path_segments, query, headers },
                ),
                None => request == Err::<TraktRequest, CatalogError>(CatalogError::Format),
            },
    {
        match address {
            Some(url) => Ok(TraktRequest { url, path_segments, query, headers }),
            None => Err(CatalogError::Format),
        }
    }
}

/// What is done to answer a query: a response that is known without asking
/// the provider, or a request to send to it.
#[derive(Debug, Clone, PartialEq, Eq)]
pub enum FetchPlan {
    Respond(TraktResponse),
    Fetch(TraktRequest),
}

/// The mathematical value of a [`FetchPlan`].
pub enum PlanView {
    Respond(ResponseView),
    Fetch(RequestView),
}

impl View for FetchPlan {
    type V = PlanView;

    open spec fn view(&self) -> PlanView {
        match self {
            FetchPlan::Respond(response) => PlanView::Respond(response@),
            FetchPlan::Fetch(request) => PlanView::Fetch(request@),
        }
    }
}

/// The name that the provider has for a kind of content.
pub open spec fn provider_content_name(catalog_type: CatalogType) -> Seq<char> {
    match catalog_type {
        CatalogType::Movie => "movies"@,
        CatalogType::Series => "shows"@,
    }
}

/// The path of a query, in segments. The items of a list are asked for by
/// the list's id, so a list without an id, or with an empty one, has no path.
pub open spec fn segments_of(d: Descriptor) -> Result<Seq<Seq<char>>, CatalogError> {
    let content = provider_content_name(d.catalog_type);
    match d.endpoint {
        TraktEndpoint::Trending => Ok(seq![content, "trending"@]),
        TraktEndpoint::List => match d.list_id {
            Some(id) => if id.len() > 0 {
                Ok(seq!["lists"@, id, "items"@, content])
            } else {
                Err(CatalogError::MissingListId)
            },
            None => Err(CatalogError::MissingListId),
        },
        TraktEndpoint::Genres => Ok(seq!["genres"@, content]),
    }
}

/// The parameters of a query: page and limit where the descriptor has a
/// paging, and `extended=full` where it asks for extended information.
pub open spec fn query_of(d: Descriptor) -> Seq<(Seq<char>, Seq<char>)> {
    let paging = match d.pagination {
        Some(p) => seq![
            ("page"@, signed_decimal(p.current_page as int)),
            ("limit"@, signed_decimal(p.items_per_page as int)),
        ],
        None => Seq::empty(),
    };
    if d.extended_info {
        paging.push(("extended"@, "full"@))
    } else {
        paging
    }
}

/// The headers that the provider asks for on every request.
pub open spec fn headers_of(client_id: Seq<char>) -> Seq<(Seq<char>, Seq<char>)> {
    seq![
        ("Content-Type"@, "application/json"@),
        ("trakt-api-key"@, client_id),
        ("trakt-api-version"@, "2"@),
    ]
}

/// Whether the query is answered with an empty page without asking the
/// provider: a list with a genre was fetched oversized on its first page, so
/// every later page is empty.
pub open spec fn serves_empty_page(d: Descriptor) -> bool {
    &&& d.endpoint == TraktEndpoint::List
    &&& d.genre is Some
    &&& d.pagination matches Some(p)
    &&& p.current_page > 1
}

/// What is done to answer a query. A list without an id is an error before
/// anything else is looked at. A request whose address cannot be written is
/// an error of form.
pub open spec fn plan_of(d: Descriptor, client_id: Seq<char>) -> Result<PlanView, CatalogError> {
    match segments_of(d) {
        Err(e) => Err(e),
        Ok(path_segments) => if serves_empty_page(d) {
            Ok(PlanView::Respond(ResponseView::Catalog(Seq::empty())))
        } else {
            match address_of(api_base(), path_segments, query_of(d)) {
                Some(url) => Ok(
                    PlanView::Fetch(
                        RequestView {
                            url,
                            path_segments,
                            query: query_of(d),
                            headers: headers_of(client_id),
                        },
                    ),
                ),
                None => Err(CatalogError::Format),
            }
        },
    }
}

/// What the provider's reply to a query comes to: an error of the provider
/// where the status is not one of success, an error of form where the body
/// is not JSON, else what the document in the body comes to.
pub open spec fn reply_of(endpoint: TraktEndpoint, status: int, body: Seq<char>) -> Result<
    ResponseView,
    CatalogError,
> {
    if !(200 <= status < 300) {
        Err(CatalogError::Upstream)
    } else {
        match json_value(body) {
            None => Err(CatalogError::Parse),
            Some(data) => output_of(endpoint, data),
        }
    }
}

fn provider_content_text(catalog_type: CatalogType) -> (name: &'static str)
    ensures
        name@ == provider_content_name(catalog_type),
{
    match catalog_type {
        CatalogType::Movie => "movies",
        CatalogType::Series => "shows",
    }
}

fn pair(name: &str, value: String) -> (p: (String, String))
    ensures
        p.0@ == name@,
        p.1@ == value@,
{
    (name.to_owned(), value)
}

impl TraktCatalog {
    /// The segments of the path of the query.
    pub fn path_segments(&self) -> (segments: Result<Vec<String>, CatalogError>)
        ensures
            match segments {
                Ok(s) => segments_of(self@) == Ok::<Seq<Seq<char>>, CatalogError>(texts(s@)),
                Err(e) => segments_of(self@) == Err::<Seq<Seq<char>>, CatalogError>(e),
            },
    {
        let content = provider_content_text(self.catalog_type).to_owned();
        let mut segments: Vec<String> = Vec::new();
        match self.endpoint {
            TraktEndpoint::Trending => {
                segments.push(content);
                segments.push("trending".to_owned());
            },
            TraktEndpoint::List => {
                match &self.list_id {
                    Some(id) => {
                        if id.as_str().unicode_len() == 0 {
                            return Err(CatalogError::MissingListId);
                        }
                        segments.push("lists".to_owned());
                        segments.push(id.clone());
                        segments.push("items".to_owned());
                        segments.push(content);
                    },
                    None => {
                        return Err(CatalogError::MissingListId);
                    },
                }
            },
            TraktEndpoint::Genres => {
                segments.push("genres".to_owned());
                segments.push(content);
            },
        }
        assert(texts(segments@) =~= segments_of(self@)->Ok_0);
        Ok(segments)
    }

    /// The parameters of the query.
    pub fn query(&self) -> (query: Vec<(String, String)>)
        ensures
            pair_texts(query@) == query_of(self@),
    {
        let mut query: Vec<(String, String)> = Vec::new();
        if let Some(p) = self.pagination {
            query.push(pair("page", signed_decimal_string(p.current_page as i64)));
            query.push(pair("limit", signed_decimal_string(p.items_per_page as i64)));
        }
        if self.extended_info {
            query.push(pair("extended", "full".to_owned()));
        }
        assert(pair_texts(query@) =~= query_of(self@));
        query
    }

    /// Whether the query is answered with an empty page without asking the
    /// provider.
    pub fn serves_empty_page(&self) -> (empty: bool)
        ensures
            empty == serves_empty_page(self@),
    {
        match (self.endpoint, &self.genre, self.pagination) {
            (TraktEndpoint::List, Some(_), Some(p)) => p.current_page > 1,
            _ => false,
        }
    }

    /// Decides how the query is answered: with an error, with a response
    /// that is known already, or by a request to the provider, which is then
    /// given in full. `client_id` is the key that the provider knows the
    /// addon by.
    pub fn build(&self, client_id: &str) -> (plan: Result<FetchPlan, CatalogError>)
        ensures
            match plan {
                Ok(p) => plan_of(self@, client_id@) == Ok::<PlanView, CatalogError>(p@),
                Err(e) => plan_of(self@, client_id@) == Err::<PlanView, CatalogError>(e),
            },
    {
        let path_segments = match self.path_segments() {
            Ok(segments) => segments,
            Err(e) => {
                return Err(e);
            },
        };
        if self.serves_empty_page() {
            return Ok(
                FetchPlan::Respond(TraktResponse::CatalogResponse(CatalogResponse::new_empty())),
            );
        }
        let mut headers: Vec<(String, String)> = Vec::new();
        headers.push(pair("Content-Type", "application/json".to_owned()));
        headers.push(pair("trakt-api-key", client_id.to_owned()));
        headers.push(pair("trakt-api-version", "2".to_owned()));
        assert(pair_texts(headers@) =~= headers_of(client_id@));
        let query = self.query();
        let address = write_address("https://api.trakt.tv", &path_segments, &query);
        match TraktRequest::assemble(address, path_segments, query, headers) {
            Ok(request) => Ok(FetchPlan::Fetch(request)),
            Err(e) => Err(e),
        }
    }

    /// Turns the provider's reply to the query into a response.
    pub fn read_reply(&self, status: u16, body: &str) -> (response: Result<
        TraktResponse,
        CatalogError,
    >)
        ensures
            match response {
                Ok(r) => reply_of(self.endpoint, status as int, body@) == Ok::<
                    ResponseView,
                    CatalogError,
                >(r@),
                Err(e) => reply_of(self.endpoint, status as int, body@) == Err::<
                    ResponseView,
                    CatalogError,
                >(e),
            },
    {
        if status < 200 || status >= 300 {
            return Err(CatalogError::Upstream);
        }
        match Json::parse(body) {
            Some(data) => self.endpoint.parse_output(&data, &self.genre),
            None => Err(CatalogError::Parse),
        }
    }
}

} // verus!
