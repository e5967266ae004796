use dynamic_catalogs::addon::catalog::{CatalogResponse, CatalogType};
use dynamic_catalogs::error::CatalogError;
use dynamic_catalogs::trakt::page::{list_id_from, list_id_in_page};
use dynamic_catalogs::trakt::request::write_address;
use dynamic_catalogs::trakt::{
    FetchPlan, TraktCatalog, TraktEndpoint, TraktGenre, TraktPagination, TraktRequest,
    TraktResponse,
};

fn catalog(endpoint: TraktEndpoint, catalog_type: CatalogType) -> TraktCatalog {
    TraktCatalog {
        endpoint,
        pagination: Some(TraktPagination { current_page: 2, items_per_page: 100 }),
        extended_info: true,
        list_id: Some("20764770".to_string()),
        catalog_type,
        genre: None,
    }
}

fn strings(items: &[&str]) -> Vec<String> {
    items.iter().map(|s| s.to_string()).collect()
}

fn pairs(items: &[(&str, &str)]) -> Vec<(String, String)> {
    items.iter().map(|(a, b)| (a.to_string(), b.to_string())).collect()
}

#[test]
fn path_follows_the_endpoint() {
    assert_eq!(
        catalog(TraktEndpoint::Trending, CatalogType::Movie).path_segments(),
        Ok(strings(&["movies", "trending"]))
    );
    assert_eq!(
        catalog(TraktEndpoint::Trending, CatalogType::Series).path_segments(),
        Ok(strings(&["shows", "trending"]))
    );
    assert_eq!(
        catalog(TraktEndpoint::List, CatalogType::Movie).path_segments(),
        Ok(strings(&["lists", "20764770", "items", "movies"]))
    );
    assert_eq!(
        catalog(TraktEndpoint::List, CatalogType::Series).path_segments(),
        Ok(strings(&["lists", "20764770", "items", "shows"]))
    );
    assert_eq!(
        catalog(TraktEndpoint::Genres, CatalogType::Movie).path_segments(),
        Ok(strings(&["genres", "movies"]))
    );
    assert_eq!(
        catalog(TraktEndpoint::Genres, CatalogType::Series).path_segments(),
        Ok(strings(&["genres", "shows"]))
    );
}

#[test]
fn list_without_an_id_is_an_error() {
    let mut list = catalog(TraktEndpoint::List, CatalogType::Movie);
    list.list_id = None;
    assert_eq!(list.path_segments(), Err(CatalogError::MissingListId));
    assert_eq!(list.build("key"), Err(CatalogError::MissingListId));
    list.list_id = Some(String::new());
    assert_eq!(list.path_segments(), Err(CatalogError::MissingListId));
    assert_eq!(list.build("key"), Err(CatalogError::MissingListId));
    list.genre = Some("Action".to_string());
    assert_eq!(list.build("key"), Err(CatalogError::MissingListId));
}

#[test]
fn other_endpoints_need_no_list_id() {
    for endpoint in [TraktEndpoint::Trending, TraktEndpoint::Genres] {
        let mut query = catalog(endpoint, CatalogType::Movie);
        query.list_id = None;
        assert!(query.path_segments().is_ok());
        assert!(query.build("key").is_ok());
    }
}

#[test]
fn query_names_page_limit_and_extended() {
    let mut query = catalog(TraktEndpoint::List, CatalogType::Movie);
    assert_eq!(query.query(), pairs(&[("page", "2"), ("limit", "100"), ("extended", "full")]));
    query.extended_info = false;
    assert_eq!(query.query(), pairs(&[("page", "2"), ("limit", "100")]));
    query.pagination = None;
    assert_eq!(query.query(), pairs(&[]));
    query.extended_info = true;
    assert_eq!(query.query(), pairs(&[("extended", "full")]));
    query.pagination = Some(TraktPagination { current_page: 1, items_per_page: 500 });
    assert_eq!(query.query(), pairs(&[("page", "1"), ("limit", "500"), ("extended", "full")]));
}

#[test]
fn request_is_given_in_full() {
    let query = catalog(TraktEndpoint::List, CatalogType::Series);
    assert_eq!(
        query.build("my-client-id"),
        Ok(FetchPlan::Fetch(TraktRequest {
            url: "https://api.trakt.tv/lists/20764770/items/shows?page=2&limit=100&extended=full"
                .to_string(),
            path_segments: strings(&["lists", "20764770", "items", "shows"]),
            query: pairs(&[("page", "2"), ("limit", "100"), ("extended", "full")]),
            headers: pairs(&[
                ("Content-Type", "application/json"),
                ("trakt-api-key", "my-client-id"),
                ("trakt-api-version", "2"),
            ]),
        }))
    );
}

#[test]
fn list_with_a_genre_is_empty_after_its_first_page() {
    let mut list = catalog(TraktEndpoint::List, CatalogType::Movie);
    list.genre = Some("Action".to_string());
    assert!(list.serves_empty_page());
    assert_eq!(
        list.build("key"),
        Ok(FetchPlan::Respond(TraktResponse::CatalogResponse(CatalogResponse::new_empty())))
    );
    list.pagination = Some(TraktPagination { current_page: i32::MAX, items_per_page: 500 });
    assert!(list.serves_empty_page());
}

#[test]
fn list_with_a_genre_is_fetched_on_its_first_page() {
    let mut list = catalog(TraktEndpoint::List, CatalogType::Movie);
    list.genre = Some("Action".to_string());
    for page in [1, 0, -1] {
        list.pagination = Some(TraktPagination { current_page: page, items_per_page: 500 });
        assert!(!list.serves_empty_page());
        assert!(matches!(list.build("key"), Ok(FetchPlan::Fetch(_))));
    }
    list.pagination = None;
    assert!(!list.serves_empty_page());
}

#[test]
fn without_a_genre_or_on_another_endpoint_every_page_is_fetched() {
    let list = catalog(TraktEndpoint::List, CatalogType::Movie);
    assert!(!list.serves_empty_page());
    for endpoint in [TraktEndpoint::Trending, TraktEndpoint::Genres] {
        let mut query = catalog(endpoint, CatalogType::Movie);
        query.genre = Some("Action".to_string());
        assert!(!query.serves_empty_page());
        assert!(matches!(query.build("key"), Ok(FetchPlan::Fetch(_))));
    }
}

#[test]
fn reply_with_a_status_of_failure_is_an_upstream_error() {
    let list = catalog(TraktEndpoint::List, CatalogType::Movie);
    for status in [0, 100, 199, 300, 301, 404, 429, 500, 503, u16::MAX] {
        assert_eq!(list.read_reply(status, "[]"), Err(CatalogError::Upstream), "{}", status);
    }
    assert_eq!(list.read_reply(500, "not json"), Err(CatalogError::Upstream));
}

#[test]
fn reply_with_a_status_of_success_is_read() {
    let list = catalog(TraktEndpoint::List, CatalogType::Movie);
    for status in [200, 201, 204, 299] {
        assert_eq!(
            list.read_reply(status, "[]"),
            Ok(TraktResponse::CatalogResponse(CatalogResponse::new_empty())),
            "{}",
            status
        );
    }
    let body = r#"[{"type":"show","show":{"title":"Dark","ids":{"imdb":"tt5753856"}}}]"#;
    match list.read_reply(200, body) {
        Ok(TraktResponse::CatalogResponse(page)) => {
            assert_eq!(page.metas.len(), 1);
            assert_eq!(page.metas[0].id, "tt5753856");
        }
        other => panic!("{:?}", other),
    }
}

#[test]
fn reply_whose_body_is_no_document_or_off_schema_is_a_parse_error() {
    let list = catalog(TraktEndpoint::List, CatalogType::Movie);
    assert_eq!(list.read_reply(200, "<html>"), Err(CatalogError::Parse));
    assert_eq!(list.read_reply(200, ""), Err(CatalogError::Parse));
    assert_eq!(list.read_reply(200, "{}"), Err(CatalogError::Parse));
    assert_eq!(list.read_reply(200, r#"[{"type":"movie"}]"#), Err(CatalogError::Parse));
}

#[test]
fn reply_is_read_by_the_kind_of_the_query() {
    let genres = catalog(TraktEndpoint::Genres, CatalogType::Movie);
    assert_eq!(
        genres.read_reply(200, r#"[{"name":"Action","slug":"action"}]"#),
        Ok(TraktResponse::Genres(vec![TraktGenre {
            name: "Action".to_string(),
            slug: "action".to_string()
        }]))
    );
    let trending = catalog(TraktEndpoint::Trending, CatalogType::Movie);
    assert_eq!(
        trending.read_reply(200, r#"[{"watchers":5}]"#),
        Ok(TraktResponse::CatalogResponse(CatalogResponse::new_empty()))
    );
    assert_eq!(trending.read_reply(200, "oops"), Err(CatalogError::Parse));
}

fn address_of(query: &TraktCatalog) -> String {
    match query.build("key") {
        Ok(FetchPlan::Fetch(request)) => request.url,
        other => panic!("{:?}", other),
    }
}

#[test]
fn address_follows_endpoint_paging_and_extended_flag() {
    let mut query = catalog(TraktEndpoint::Trending, CatalogType::Movie);
    assert_eq!(
        address_of(&query),
        "https://api.trakt.tv/movies/trending?page=2&limit=100&extended=full"
    );
    query.extended_info = false;
    assert_eq!(address_of(&query), "https://api.trakt.tv/movies/trending?page=2&limit=100");
    query.pagination = None;
    assert_eq!(address_of(&query), "https://api.trakt.tv/movies/trending");
    let genres = catalog(TraktEndpoint::Genres, CatalogType::Series);
    assert_eq!(
        address_of(&genres),
        "https://api.trakt.tv/genres/shows?page=2&limit=100&extended=full"
    );
}

#[test]
fn list_id_is_escaped_in_the_address() {
    let mut list = catalog(TraktEndpoint::List, CatalogType::Movie);
    list.pagination = None;
    list.extended_info = false;
    list.list_id = Some("my list/100%".to_string());
    assert_eq!(address_of(&list), "https://api.trakt.tv/lists/my%20list%2F100%25/items/movies");
}

#[test]
fn address_is_written_from_its_parts() {
    assert_eq!(
        write_address("https://example.org", &strings(&["a", "b c"]), &pairs(&[("k", "v w"), ("x", "&=")])),
        Some("https://example.org/a/b%20c?k=v+w&x=%26%3D".to_string())
    );
    assert_eq!(
        write_address("https://example.org/base/", &strings(&[]), &pairs(&[])),
        Some("https://example.org/base/".to_string())
    );
    assert_eq!(write_address("not an address", &strings(&["a"]), &pairs(&[])), None);
    assert_eq!(write_address("mailto:someone@example.org", &strings(&["a"]), &pairs(&[])), None);
}

#[test]
fn address_with_too_many_or_too_long_parts_is_not_written() {
    let long = "a".repeat(100_001);
    assert_eq!(write_address("https://example.org", &strings(&[&long]), &pairs(&[])), None);
    assert_eq!(write_address("https://example.org", &strings(&[]), &pairs(&[("k", &long)])), None);
    assert_eq!(write_address("https://example.org", &strings(&[]), &pairs(&[(&long, "v")])), None);
    let longest = "a".repeat(100_000);
    assert!(write_address("https://example.org", &strings(&[&longest]), &pairs(&[])).is_some());
    let many = vec!["a"; 17];
    assert_eq!(write_address("https://example.org", &strings(&many), &pairs(&[])), None);
    let sixteen = vec!["a"; 16];
    assert!(write_address("https://example.org", &strings(&sixteen), &pairs(&[])).is_some());
}

#[test]
fn list_id_that_is_too_long_for_an_address_is_malformed() {
    let mut list = catalog(TraktEndpoint::List, CatalogType::Movie);
    list.list_id = Some("9".repeat(100_001));
    assert_eq!(list.build("key"), Err(CatalogError::Format));
}

#[test]
fn list_id_is_read_from_the_page() {
    let page = r#"<html><body><form><input type="hidden" id="list-id" value="20764770">
        <input id="other" value="1"></form></body></html>"#;
    assert_eq!(list_id_in_page(page), Ok("20764770".to_string()));
    let two = r#"<input id="list-id" value="first"><input id="list-id" value="second">"#;
    assert_eq!(list_id_in_page(two), Ok("first".to_string()));
    assert_eq!(list_id_from(Some("7".to_string())), Ok("7".to_string()));
    assert_eq!(list_id_from(Some(String::new())), Err(CatalogError::Parse));
    assert_eq!(list_id_from(None), Err(CatalogError::Parse));
}

#[test]
fn page_without_a_list_id_shows_no_list() {
    for page in [
        "",
        "<html></html>",
        r#"<input id="list" value="1">"#,
        r#"<input id="list-id">"#,
        r#"<input id="list-id" value="">"#,
        r#"<div id="list-id" value="1"></div>"#,
        "20764770",
    ] {
        assert_eq!(list_id_in_page(page), Err(CatalogError::Parse), "{}", page);
    }
}
