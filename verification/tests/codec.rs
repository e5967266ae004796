use dynamic_catalogs::addon::catalog::{CatalogRequestParams, CatalogType};
use dynamic_catalogs::codec::{from_base64, text_of_bytes, to_base64};
use dynamic_catalogs::error::CatalogError;
use dynamic_catalogs::json::Json;
use dynamic_catalogs::trakt::{TraktCatalog, TraktEndpoint, TraktPagination};

fn list(id: &str, catalog_type: CatalogType) -> TraktCatalog {
    TraktCatalog {
        endpoint: TraktEndpoint::List,
        pagination: None,
        extended_info: true,
        list_id: Some(id.to_string()),
        catalog_type,
        genre: None,
    }
}

fn samples() -> Vec<TraktCatalog> {
    let mut all = Vec::new();
    for endpoint in [TraktEndpoint::Trending, TraktEndpoint::List, TraktEndpoint::Genres] {
        for catalog_type in [CatalogType::Movie, CatalogType::Series] {
            for extended_info in [false, true] {
                for pagination in [
                    None,
                    Some(TraktPagination { current_page: 1, items_per_page: 100 }),
                    Some(TraktPagination { current_page: i32::MAX, items_per_page: i32::MIN }),
                    Some(TraktPagination { current_page: -3, items_per_page: 0 }),
                ] {
                    for list_id in [None, Some(""), Some("20764770"), Some("a \"quoted\" \\ id\n")] {
                        for genre in [None, Some("Action"), Some("Komödie 🎬"), Some("null")] {
                            all.push(TraktCatalog {
                                endpoint,
                                pagination,
                                extended_info,
                                list_id: list_id.map(|s| s.to_string()),
                                catalog_type,
                                genre: genre.map(|s| s.to_string()),
                            });
                        }
                    }
                }
            }
        }
    }
    all
}

#[test]
fn decode_gives_back_what_encode_was_given() {
    for descriptor in samples() {
        let token = descriptor.encode();
        assert_eq!(TraktCatalog::decode(&token), Ok(descriptor));
    }
}

#[test]
fn document_gives_back_the_descriptor() {
    for descriptor in samples() {
        let document = descriptor.to_json();
        assert_eq!(TraktCatalog::from_json(&document), Ok(descriptor));
    }
}

#[test]
fn token_is_padded_base64_of_the_document_with_the_tag() {
    assert_eq!(
        list("20764770", CatalogType::Movie).encode(),
        "eyJjYXRhbG9nX3R5cGUiOiJtb3ZpZSIsImVuZHBvaW50IjoiTGlzdCIsImV4dGVuZGVkX2luZm8iOnRydWUsImdlbnJlIjpudWxsLCJsaXN0X2lkIjoiMjA3NjQ3NzAiLCJwYWdpbmF0aW9uIjpudWxsfQ==-trakt"
    );
    let trending = TraktCatalog {
        endpoint: TraktEndpoint::Trending,
        pagination: Some(TraktPagination { current_page: 2, items_per_page: 50 }),
        extended_info: false,
        list_id: None,
        catalog_type: CatalogType::Series,
        genre: Some("Drama".to_string()),
    };
    assert_eq!(
        trending.encode(),
        "eyJjYXRhbG9nX3R5cGUiOiJzZXJpZXMiLCJlbmRwb2ludCI6IlRyZW5kaW5nIiwiZXh0ZW5kZWRfaW5mbyI6ZmFsc2UsImdlbnJlIjoiRHJhbWEiLCJsaXN0X2lkIjpudWxsLCJwYWdpbmF0aW9uIjp7ImN1cnJlbnRfcGFnZSI6MiwiaXRlbXNfcGVyX3BhZ2UiOjUwfX0=-trakt"
    );
}

#[test]
fn token_ends_with_the_provider_tag() {
    for descriptor in samples() {
        assert!(descriptor.encode().ends_with("-trakt"));
    }
}

#[test]
fn tokens_written_with_members_in_another_order_are_read() {
    let movies = "eyJlbmRwb2ludCI6Ikxpc3QiLCJwYWdpbmF0aW9uIjpudWxsLCJleHRlbmRlZF9pbmZvIjp0cnVlLCJsaXN0X2lkIjoiMjA3NjQ3NzAiLCJjYXRhbG9nX3R5cGUiOiJtb3ZpZSJ9-trakt";
    assert_eq!(TraktCatalog::decode(movies), Ok(list("20764770", CatalogType::Movie)));
    let shows = "eyJlbmRwb2ludCI6Ikxpc3QiLCJwYWdpbmF0aW9uIjpudWxsLCJleHRlbmRlZF9pbmZvIjp0cnVlLCJsaXN0X2lkIjoiMjA3NjQ0NzEiLCJjYXRhbG9nX3R5cGUiOiJzZXJpZXMifQ==-trakt";
    assert_eq!(TraktCatalog::decode(shows), Ok(list("20764471", CatalogType::Series)));
}

#[test]
fn token_without_the_tag_is_malformed() {
    assert_eq!(TraktCatalog::decode("eyJlbmRwb2ludCI6Ikxpc3QifQ=="), Err(CatalogError::Format));
    assert_eq!(TraktCatalog::decode(""), Err(CatalogError::Format));
    assert_eq!(TraktCatalog::decode("abc-imdb"), Err(CatalogError::Format));
}

#[test]
fn token_that_is_not_base64_does_not_decode() {
    let broken = "elkajsdfyJlbmRwb2ludCI6Ikxpc3QiLCJwYWdpbmF0aW9uIjpudWxsLCJleHRlbmRlZF9pbmZvIjp0cnVlLCJsaXN0X2lkIjoiMjA3NjQ0NzEiLCJjYXRhbG9nX3R5cGUiOiJzZXJpZXMifQ==-trakt";
    assert_eq!(TraktCatalog::decode(broken), Err(CatalogError::Decode));
    assert_eq!(TraktCatalog::decode("abc-trakt"), Err(CatalogError::Decode));
    assert_eq!(TraktCatalog::decode("!!!!-trakt"), Err(CatalogError::Decode));
    assert_eq!(TraktCatalog::from_base_id("eyJlbmRwb2ludCI6Ikxpc3QifQ"), Err(CatalogError::Decode));
}

#[test]
fn token_whose_bytes_are_no_text_is_an_encoding_error() {
    assert_eq!(TraktCatalog::decode("//4=-trakt"), Err(CatalogError::Encoding));
}

#[test]
fn token_whose_text_is_no_document_does_not_decode() {
    assert_eq!(TraktCatalog::decode("bm90IGpzb24=-trakt"), Err(CatalogError::Decode));
    assert_eq!(TraktCatalog::decode("-trakt"), Err(CatalogError::Decode));
}

#[test]
fn document_that_is_no_descriptor_is_a_parse_error() {
    assert_eq!(TraktCatalog::decode("eyJlbmRwb2ludCI6Ikxpc3QifQ==-trakt"), Err(CatalogError::Parse));
    assert_eq!(TraktCatalog::decode("W10=-trakt"), Err(CatalogError::Parse));
}

fn descriptor_of_text(text: &str) -> Result<TraktCatalog, CatalogError> {
    TraktCatalog::from_json(&Json::parse(text).unwrap())
}

#[test]
fn optional_members_may_be_absent_or_null() {
    let expected = TraktCatalog {
        endpoint: TraktEndpoint::Genres,
        pagination: None,
        extended_info: false,
        list_id: None,
        catalog_type: CatalogType::Series,
        genre: None,
    };
    assert_eq!(
        descriptor_of_text(r#"{"endpoint":"Genres","extended_info":false,"catalog_type":"series"}"#),
        Ok(expected.clone())
    );
    assert_eq!(
        descriptor_of_text(
            r#"{"endpoint":"Genres","extended_info":false,"catalog_type":"series","genre":null,"list_id":null,"pagination":null,"more":[1,2.5]}"#
        ),
        Ok(expected)
    );
}

#[test]
fn members_of_the_wrong_form_are_a_parse_error() {
    for text in [
        r#"{"endpoint":"Lists","extended_info":false,"catalog_type":"series"}"#,
        r#"{"endpoint":"list","extended_info":false,"catalog_type":"series"}"#,
        r#"{"endpoint":1,"extended_info":false,"catalog_type":"series"}"#,
        r#"{"extended_info":false,"catalog_type":"series"}"#,
        r#"{"endpoint":"List","catalog_type":"series"}"#,
        r#"{"endpoint":"List","extended_info":"yes","catalog_type":"series"}"#,
        r#"{"endpoint":"List","extended_info":null,"catalog_type":"series"}"#,
        r#"{"endpoint":"List","extended_info":false}"#,
        r#"{"endpoint":"List","extended_info":false,"catalog_type":"show"}"#,
        r#"{"endpoint":"List","extended_info":false,"catalog_type":"movie","list_id":20764770}"#,
        r#"{"endpoint":"List","extended_info":false,"catalog_type":"movie","genre":["a"]}"#,
        r#"{"endpoint":"List","extended_info":false,"catalog_type":"movie","pagination":5}"#,
        r#"{"endpoint":"List","extended_info":false,"catalog_type":"movie","pagination":{}}"#,
        r#"{"endpoint":"List","extended_info":false,"catalog_type":"movie","pagination":{"current_page":1}}"#,
        r#"{"endpoint":"List","extended_info":false,"catalog_type":"movie","pagination":{"current_page":1.5,"items_per_page":3}}"#,
        r#"{"endpoint":"List","extended_info":false,"catalog_type":"movie","pagination":{"current_page":2147483648,"items_per_page":3}}"#,
        r#"{"endpoint":"List","extended_info":false,"catalog_type":"movie","pagination":{"current_page":1,"items_per_page":-2147483649}}"#,
        r#""List""#,
        r#"null"#,
        r#"[]"#,
    ] {
        assert_eq!(descriptor_of_text(text), Err(CatalogError::Parse), "{}", text);
    }
}

#[test]
fn a_repeated_member_counts_once_with_its_last_value() {
    let read = descriptor_of_text(
        r#"{"endpoint":"Genres","endpoint":"List","extended_info":false,"catalog_type":"movie"}"#,
    )
    .unwrap();
    assert_eq!(read.endpoint, TraktEndpoint::List);
}

#[test]
fn request_with_a_stored_descriptor_is_resolved() {
    let stored = list("20764770", CatalogType::Movie);
    let path = format!("{}/skip=200&genre=Action.json", stored.encode());
    let request = CatalogRequestParams::from_path(&path).unwrap();
    let resolved = TraktCatalog::from_catalog_params(&request).unwrap();
    assert_eq!(
        resolved,
        TraktCatalog {
            pagination: Some(TraktPagination { current_page: 3, items_per_page: 500 }),
            genre: Some("Action".to_string()),
            ..stored
        }
    );
}

#[test]
fn request_with_a_broken_id_fails_as_decode_does() {
    let request = CatalogRequestParams::from_path("abc-trakt.json").unwrap();
    assert_eq!(TraktCatalog::from_catalog_params(&request), Err(CatalogError::Decode));
    let request = CatalogRequestParams::from_path("W10=-trakt.json").unwrap();
    assert_eq!(TraktCatalog::from_catalog_params(&request), Err(CatalogError::Parse));
}

#[test]
fn base64_is_standard_and_padded() {
    assert_eq!(to_base64(b""), "");
    assert_eq!(to_base64(b"f"), "Zg==");
    assert_eq!(to_base64(b"fo"), "Zm8=");
    assert_eq!(to_base64(b"foo"), "Zm9v");
    assert_eq!(to_base64(b"hello"), "aGVsbG8=");
    assert_eq!(to_base64(&[0xfb, 0xff, 0xfe]), "+//+");
}

#[test]
fn base64_is_read_strictly() {
    assert_eq!(from_base64(""), Some(vec![]));
    assert_eq!(from_base64("Zg=="), Some(b"f".to_vec()));
    assert_eq!(from_base64("aGVsbG8="), Some(b"hello".to_vec()));
    assert_eq!(from_base64("+//+"), Some(vec![0xfb, 0xff, 0xfe]));
    assert_eq!(from_base64("Zg"), None);
    assert_eq!(from_base64("Zg="), None);
    assert_eq!(from_base64("Zh=="), None);
    assert_eq!(from_base64("-__-"), None);
    assert_eq!(from_base64("Zg==\n"), None);
    assert_eq!(from_base64("aGVsbG8"), None);
}

#[test]
fn base64_reads_back_what_it_wrote() {
    let mut bytes = Vec::new();
    for n in 0..300u32 {
        assert_eq!(from_base64(&to_base64(&bytes)), Some(bytes.clone()));
        bytes.push((n * 7 % 256) as u8);
    }
}

#[test]
fn bytes_are_read_as_utf8() {
    assert_eq!(text_of_bytes(b"hello".to_vec()), Some("hello".to_string()));
    assert_eq!(text_of_bytes(vec![]), Some(String::new()));
    assert_eq!(text_of_bytes(vec![0xc3, 0xa9]), Some("é".to_string()));
    assert_eq!(text_of_bytes(vec![0xff, 0xfe]), None);
    assert_eq!(text_of_bytes(vec![0xc3]), None);
    assert_eq!(text_of_bytes(vec![0xed, 0xa0, 0x80]), None);
}

#[test]
fn list_id_with_letters_beyond_ascii_survives_the_token() {
    let token = "eyJlbmRwb2ludCI6Ikxpc3QiLCJleHRlbmRlZF9pbmZvIjp0cnVlLCJjYXRhbG9nX3R5cGUiOiJtb3ZpZSIsImxpc3RfaWQiOiJjYWbDqSJ9-trakt";
    assert_eq!(TraktCatalog::decode(token).unwrap().list_id, Some("café".to_string()));
}
