use brave_rs::query_params::{WebSearchQueryParams, WebSearchQueryParamsBuilder};
use brave_rs::web_search_query_builder;

#[test]
fn builds_single_field_query() {
    let params = WebSearchQueryParamsBuilder::default().q("rust").build();
    let query = web_search_query_builder(&params);
    assert_eq!(query.unwrap(), "/web/search?q=rust");
}

#[test]
fn empty_params_give_no_query() {
    let params = WebSearchQueryParams::default();
    assert!(web_search_query_builder(&params).is_none());
}

#[test]
fn fields_appear_in_fixed_order() {
    let params = WebSearchQueryParamsBuilder::default()
        .source("web")
        .country("us")
        .freshness("pd")
        .safesearch("strict")
        .search_lang("en")
        .offset(2)
        .count(7)
        .q("rust")
        .build();
    let query = web_search_query_builder(&params).unwrap();
    assert_eq!(
        query,
        "/web/search?q=rust&count=7&offset=2&search_lang=en&safesearch=strict&freshness=pd&country=us&source=web"
    );
}

#[test]
fn string_values_are_percent_encoded() {
    let params = WebSearchQueryParamsBuilder::default().q("rust lang&x=1").build();
    let query = web_search_query_builder(&params).unwrap();
    assert_eq!(query, "/web/search?q=rust%20lang%26x%3D1");
}

#[test]
fn unicode_is_percent_encoded() {
    let params = WebSearchQueryParamsBuilder::default().q("caf\u{e9}").build();
    let query = web_search_query_builder(&params).unwrap();
    assert_eq!(query, "/web/search?q=caf%C3%A9");
}

#[test]
fn numeric_values_are_decimal() {
    let params = WebSearchQueryParamsBuilder::default().count(4294967295).offset(0).build();
    let query = web_search_query_builder(&params).unwrap();
    assert_eq!(query, "/web/search?count=4294967295&offset=0");
}

#[test]
fn round_trip_recovers_field_values() {
    let params = WebSearchQueryParamsBuilder::default()
        .q("rust")
        .count(7)
        .offset(2)
        .search_lang("en")
        .safesearch("strict")
        .freshness("pd")
        .country("us")
        .source("web")
        .build();
    let query = web_search_query_builder(&params).unwrap();
    let tail = query.strip_prefix("/web/search?").unwrap();
    let pairs: Vec<(&str, &str)> = tail.split('&').map(|p| p.split_once('=').unwrap()).collect();
    assert_eq!(
        pairs,
        vec![
            ("q", "rust"),
            ("count", "7"),
            ("offset", "2"),
            ("search_lang", "en"),
            ("safesearch", "strict"),
            ("freshness", "pd"),
            ("country", "us"),
            ("source", "web"),
        ]
    );
}

#[test]
fn empty_string_value_still_counts_as_set() {
    let params = WebSearchQueryParamsBuilder::default().q("").build();
    let query = web_search_query_builder(&params);
    assert_eq!(query.unwrap(), "/web/search?q=");
}

#[test]
fn builder_keeps_unset_fields_absent() {
    let params = WebSearchQueryParamsBuilder::default().count(3).build();
    assert!(params.q.is_none());
    assert_eq!(params.count, Some(3));
    assert!(params.offset.is_none());
    assert!(params.search_lang.is_none());
    assert!(params.safesearch.is_none());
    assert!(params.freshness.is_none());
    assert!(params.country.is_none());
    assert!(params.source.is_none());
}
