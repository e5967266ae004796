use dynamic_catalogs::addon::catalog::{
    parse_skip, CatalogRequestParams, CatalogSource, PaginationDetails,
};
use dynamic_catalogs::error::CatalogError;

fn page_of(path: &str) -> i32 {
    CatalogRequestParams::from_path(path).unwrap().pagination.page
}

#[test]
fn plain_token_gives_first_page() {
    let request = CatalogRequestParams::from_path("abc-trakt.json").unwrap();
    assert_eq!(request.catalog_id, "abc");
    assert_eq!(request.source, CatalogSource::Trakt);
    assert_eq!(request.pagination, PaginationDetails { page: 1, page_size: 100 });
    assert_eq!(request.genre, None);
}

#[test]
fn skip_250_is_page_three() {
    let request = CatalogRequestParams::from_path("abc-trakt/skip=250.json").unwrap();
    assert_eq!(request.pagination.page, 3);
    assert_eq!(request.pagination.page_size, 100);
    assert_eq!(request.catalog_id, "abc");
}

#[test]
fn skip_and_genre_together() {
    let request = CatalogRequestParams::from_path("abc-trakt/skip=50&genre=Action.json").unwrap();
    assert_eq!(request.pagination.page, 1);
    assert_eq!(request.genre, Some("Action".to_string()));
}

#[test]
fn genre_alone_keeps_first_page() {
    let request = CatalogRequestParams::from_path("abc-trakt/genre=Adventure.json").unwrap();
    assert_eq!(request.pagination, PaginationDetails { page: 1, page_size: 100 });
    assert_eq!(request.genre, Some("Adventure".to_string()));
}

#[test]
fn unknown_source_is_refused() {
    assert_eq!(
        CatalogRequestParams::from_path("abc-unknown.json"),
        Err(CatalogError::UnsupportedSource)
    );
}

#[test]
fn path_without_json_suffix_is_malformed() {
    assert_eq!(CatalogRequestParams::from_path("abc-trakt"), Err(CatalogError::Format));
    assert_eq!(CatalogRequestParams::from_path("abc-trakt/skip=1"), Err(CatalogError::Format));
    assert_eq!(CatalogRequestParams::from_path("abc-trakt.jso"), Err(CatalogError::Format));
    assert_eq!(CatalogRequestParams::from_path(""), Err(CatalogError::Format));
}

#[test]
fn page_follows_skip_by_hundreds() {
    assert_eq!(page_of("abc-trakt/skip=0.json"), 1);
    assert_eq!(page_of("abc-trakt/skip=99.json"), 1);
    assert_eq!(page_of("abc-trakt/skip=100.json"), 2);
    assert_eq!(page_of("abc-trakt/skip=199.json"), 2);
    assert_eq!(page_of("abc-trakt/skip=200.json"), 3);
    assert_eq!(page_of("abc-trakt/skip=2147483647.json"), 21474837);
}

#[test]
fn every_skip_up_to_a_thousand_follows_the_formula() {
    let mut skip = 0;
    while skip <= 1000 {
        let path = format!("abc-trakt/skip={}.json", skip);
        assert_eq!(page_of(&path), skip / 100 + 1);
        skip += 1;
    }
}

#[test]
fn from_skip_follows_the_formula() {
    assert_eq!(PaginationDetails::from_skip(None), PaginationDetails { page: 1, page_size: 100 });
    assert_eq!(
        PaginationDetails::from_skip(Some(0)),
        PaginationDetails { page: 1, page_size: 100 }
    );
    assert_eq!(
        PaginationDetails::from_skip(Some(250)),
        PaginationDetails { page: 3, page_size: 100 }
    );
    assert_eq!(PaginationDetails::from_skip(Some(i32::MAX)).page, 21474837);
}

#[test]
fn skip_that_is_no_number_is_malformed() {
    for path in [
        "abc-trakt/skip=abc.json",
        "abc-trakt/skip=.json",
        "abc-trakt/skip=12x.json",
        "abc-trakt/skip=1.5.json",
        "abc-trakt/skip= 5.json",
        "abc-trakt/skip=+.json",
        "abc-trakt/skip=-.json",
    ] {
        assert_eq!(CatalogRequestParams::from_path(path), Err(CatalogError::Format), "{}", path);
    }
}

#[test]
fn negative_skip_is_malformed() {
    assert_eq!(
        CatalogRequestParams::from_path("abc-trakt/skip=-5.json"),
        Err(CatalogError::Format)
    );
    assert_eq!(
        CatalogRequestParams::from_path("abc-trakt/skip=-100.json"),
        Err(CatalogError::Format)
    );
}

#[test]
fn skip_beyond_the_machine_integer_is_malformed() {
    assert_eq!(
        CatalogRequestParams::from_path("abc-trakt/skip=2147483648.json"),
        Err(CatalogError::Format)
    );
    assert_eq!(
        CatalogRequestParams::from_path("abc-trakt/skip=99999999999999999999999.json"),
        Err(CatalogError::Format)
    );
}

#[test]
fn signs_and_leading_zeros_in_skip() {
    assert_eq!(parse_skip("+7"), Some(7));
    assert_eq!(parse_skip("-0"), Some(0));
    assert_eq!(parse_skip("-000"), Some(0));
    assert_eq!(parse_skip("007"), Some(7));
    assert_eq!(parse_skip("0000000000000000000250"), Some(250));
    assert_eq!(parse_skip("2147483647"), Some(2147483647));
    assert_eq!(parse_skip("-1"), None);
    assert_eq!(parse_skip(""), None);
    assert_eq!(parse_skip("++1"), None);
    assert_eq!(parse_skip("١٢"), None);
    assert_eq!(page_of("abc-trakt/skip=+300.json"), 4);
}

#[test]
fn more_than_one_segment_after_the_token_is_malformed() {
    assert_eq!(
        CatalogRequestParams::from_path("abc-trakt/skip=1/genre=Action.json"),
        Err(CatalogError::Format)
    );
    assert_eq!(CatalogRequestParams::from_path("abc-trakt//.json"), Err(CatalogError::Format));
}

#[test]
fn token_needs_exactly_one_dash() {
    assert_eq!(CatalogRequestParams::from_path("abctrakt.json"), Err(CatalogError::Format));
    assert_eq!(CatalogRequestParams::from_path(".json"), Err(CatalogError::Format));
    assert_eq!(CatalogRequestParams::from_path("a-b-trakt.json"), Err(CatalogError::Format));
    assert_eq!(CatalogRequestParams::from_path("abc-trakt-.json"), Err(CatalogError::Format));
}

#[test]
fn source_is_checked_before_the_parameters() {
    assert_eq!(
        CatalogRequestParams::from_path("abc-imdb/skip=abc.json"),
        Err(CatalogError::UnsupportedSource)
    );
    assert_eq!(
        CatalogRequestParams::from_path("abc-imdb/a/b.json"),
        Err(CatalogError::UnsupportedSource)
    );
    assert_eq!(
        CatalogRequestParams::from_path("abc-Trakt.json"),
        Err(CatalogError::UnsupportedSource)
    );
    assert_eq!(
        CatalogRequestParams::from_path("abc-.json"),
        Err(CatalogError::UnsupportedSource)
    );
}

#[test]
fn empty_base_id_is_passed_on() {
    let request = CatalogRequestParams::from_path("-trakt.json").unwrap();
    assert_eq!(request.catalog_id, "");
}

#[test]
fn unknown_and_incomplete_parameters_are_passed_over() {
    let request =
        CatalogRequestParams::from_path("abc-trakt/search=x&skip&skip=300&a=b=c&.json").unwrap();
    assert_eq!(request.pagination.page, 4);
    assert_eq!(request.genre, None);
    let request = CatalogRequestParams::from_path("abc-trakt/.json").unwrap();
    assert_eq!(request.pagination.page, 1);
    assert_eq!(request.genre, None);
    let request = CatalogRequestParams::from_path("abc-trakt/genre=a=b.json").unwrap();
    assert_eq!(request.genre, None);
}

#[test]
fn later_parameter_overrides_earlier() {
    let request =
        CatalogRequestParams::from_path("abc-trakt/skip=100&genre=A&skip=500&genre=B.json")
            .unwrap();
    assert_eq!(request.pagination.page, 6);
    assert_eq!(request.genre, Some("B".to_string()));
}

#[test]
fn bad_skip_fails_even_when_a_good_one_follows() {
    assert_eq!(
        CatalogRequestParams::from_path("abc-trakt/skip=x&skip=100.json"),
        Err(CatalogError::Format)
    );
}

#[test]
fn genre_is_passed_through_verbatim() {
    let request = CatalogRequestParams::from_path("abc-trakt/genre=Sci%20Fi é.json").unwrap();
    assert_eq!(request.genre, Some("Sci%20Fi é".to_string()));
    let request = CatalogRequestParams::from_path("abc-trakt/genre=.json").unwrap();
    assert_eq!(request.genre, Some(String::new()));
}

#[test]
fn padded_token_keeps_its_padding() {
    let request = CatalogRequestParams::from_path("eyJhIjoxfQ==-trakt/skip=100.json").unwrap();
    assert_eq!(request.catalog_id, "eyJhIjoxfQ==");
    assert_eq!(request.pagination.page, 2);
}
