use brave_rs::errors::BraveClientError;
use brave_rs::response::{parse_response, MixedMain};

fn query_echo(original: &str) -> String {
    let mut s = String::new();
    s.push_str(r#"{ "original": ""#);
    s.push_str(original);
    s.push_str(
        r#"", "show_strict_warning": false, "is_navigational": false,
        "is_news_breaking": false, "spellcheck_off": false, "country": "us",
        "bad_results": false, "should_fallback": false, "postal_code": "",
        "city": "", "header_country": "", "more_results_available": false,
        "state": "" }"#,
    );
    s
}

#[test]
fn web_payload_with_empty_results_parses() {
    let body = format!(
        r#"{{ "type": "web", "query": {}, "web": {{ "type": "web", "results": [] }} }}"#,
        query_echo("rust")
    );
    let resp = parse_response(&body).unwrap();
    assert_eq!(resp.result_type, "web");
    assert_eq!(resp.query.original, "rust");
    assert_eq!(resp.query.country, "us");
    let web = resp.web.unwrap();
    assert_eq!(web.result_type, "web");
    assert!(web.results.is_empty());
    assert!(resp.discussions.is_none());
    assert!(resp.faq.is_none());
    assert!(resp.infobox.is_none());
    assert!(resp.locations.is_none());
    assert!(resp.news.is_none());
    assert!(resp.videos.is_none());
    assert!(resp.mixed.is_none());
}

#[test]
fn videos_with_empty_list_and_with_null_list_differ() {
    let with_empty = format!(
        r#"{{ "type": "videos", "query": {}, "videos":
            {{ "type": "videos", "results": [], "mutated_by_goggles": false }} }}"#,
        query_echo("v")
    );
    let resp = parse_response(&with_empty).unwrap();
    let videos = resp.videos.unwrap();
    assert!(videos.results.is_some());
    assert!(videos.results.unwrap().is_empty());

    let with_null = format!(
        r#"{{ "type": "videos", "query": {}, "videos":
            {{ "type": "videos", "results": null, "mutated_by_goggles": true }} }}"#,
        query_echo("v")
    );
    let resp = parse_response(&with_null).unwrap();
    let videos = resp.videos.unwrap();
    assert!(videos.results.is_none());
    assert!(videos.mutated_by_goggles);
}

#[test]
fn unknown_fields_are_ignored() {
    let body = format!(
        r#"{{ "type": "web", "query": {}, "next_year_feature": {{ "deep": [1, 2] }} }}"#,
        query_echo("q")
    );
    let resp = parse_response(&body).unwrap();
    assert_eq!(resp.result_type, "web");
}

#[test]
fn search_result_fields_carry_over() {
    let body = format!(
        r#"{{ "type": "web", "query": {}, "web": {{ "type": "web", "results": [
            {{ "type": "search_result", "url": "https://example.com",
               "title": "Example", "description": "An example page.",
               "language": "en", "family_friendly": true,
               "locations": ["Berlin", "Paris"],
               "profile": {{ "name": "Example", "url": "https://example.com",
                             "long_name": "Example Site", "img": null }},
               "subpages": [
                   {{ "url": "https://example.com/a", "title": "A" }},
                   {{ "url": "https://example.com/b", "title": "B" }}
               ] }}
        ] }} }}"#,
        query_echo("example")
    );
    let resp = parse_response(&body).unwrap();
    let web = resp.web.unwrap();
    assert_eq!(web.results.len(), 1);
    let r = &web.results[0];
    assert_eq!(r.result_type, "search_result");
    assert_eq!(r.url, "https://example.com");
    assert_eq!(r.title, "Example");
    assert_eq!(r.description, "An example page.");
    assert_eq!(r.language.as_deref(), Some("en"));
    assert_eq!(r.family_friendly, Some(true));
    assert_eq!(r.locations.as_ref().unwrap().len(), 2);
    assert_eq!(r.locations.as_ref().unwrap()[1], "Paris");
    let profile = r.profile.as_ref().unwrap();
    assert_eq!(profile.long_name.as_deref(), Some("Example Site"));
    assert!(profile.img.is_none());
    let subpages = r.subpages.as_ref().unwrap();
    assert_eq!(subpages.len(), 2);
    assert_eq!(subpages[1].title, "B");
    assert!(r.age.is_none());
    assert!(r.page_age.is_none());
}

#[test]
fn news_faq_and_infobox_sections_parse() {
    let body = format!(
        r#"{{ "type": "search", "query": {},
            "news": {{ "type": "news", "results": [
                {{ "url": "https://news.example", "title": "N",
                   "description": "d", "age": "2 hours ago", "breaking": true }}
            ] }},
            "faq": {{ "type": "faq", "results": [
                {{ "type": "faq", "question": "Why?", "answer": "Because.",
                   "title": "t", "url": "https://faq.example" }}
            ] }},
            "infobox": {{ "type": "infobox", "position": 1, "label": "L",
                "category": "C", "long_desc": "D",
                "attributes": [ {{ "label": "a", "value": "b" }} ] }} }}"#,
        query_echo("q")
    );
    let resp = parse_response(&body).unwrap();
    let news = resp.news.unwrap();
    assert_eq!(news.results[0].age, "2 hours ago");
    assert_eq!(news.results[0].breaking, Some(true));
    let faq = resp.faq.unwrap();
    assert_eq!(faq.results[0].question, "Why?");
    assert_eq!(faq.results[0].answer, "Because.");
    let infobox = resp.infobox.unwrap();
    assert_eq!(infobox.position, 1);
    assert_eq!(infobox.attributes.unwrap()[0].value, "b");
}

#[test]
fn locations_section_parses() {
    let body = format!(
        r#"{{ "type": "locations", "query": {},
            "locations": {{ "type": "locations", "results": [
                {{ "type": "location_result", "url": "https://place.example",
                   "title": "Place", "description": "A place.",
                   "postal_address": {{ "country": "DE", "region": "BE",
                       "locality": "Berlin", "street_address": "Unter den Linden 1",
                       "postal_code": "10117" }},
                   "contact": {{ "email": "hi@place.example" }} }}
            ] }} }}"#,
        query_echo("place")
    );
    let resp = parse_response(&body).unwrap();
    let locations = resp.locations.unwrap();
    let place = &locations.results[0];
    assert_eq!(place.postal_address.as_ref().unwrap().postal_code, "10117");
    assert_eq!(place.contact.as_ref().unwrap().email.as_deref(), Some("hi@place.example"));
    assert!(place.contact.as_ref().unwrap().telephone.is_none());
}

#[test]
fn missing_required_field_is_an_error() {
    let body = r#"{ "type": "web" }"#;
    match parse_response(body) {
        Err(BraveClientError::ResponseDeserializationError(_)) => {},
        _ => panic!("expected a deserialization error for a missing query"),
    }
}

#[test]
fn wrong_shape_in_section_is_an_error() {
    let body = format!(r#"{{ "type": "web", "query": {}, "web": 5 }}"#, query_echo("q"));
    assert!(parse_response(&body).is_err());
}

#[test]
fn oversized_position_is_an_error() {
    let body = format!(
        r#"{{ "type": "web", "query": {}, "infobox": {{ "type": "infobox",
            "position": 4294967296, "label": "L", "category": "C", "long_desc": "D" }} }}"#,
        query_echo("q")
    );
    assert!(parse_response(&body).is_err());
}

#[test]
fn invalid_json_is_an_error() {
    match parse_response("this is not json") {
        Err(e @ BraveClientError::ResponseDeserializationError(_)) => {
            assert_eq!(e.message(), "Unable to deserialize response");
        },
        _ => panic!("expected a deserialization error for invalid JSON"),
    }
}

#[test]
fn written_entry_reads_back_with_wire_key() {
    let entry = MixedMain { result_type: "main".to_string(), index: 7, all: false };
    let doc = entry.to_json();
    let back = MixedMain::from_json(&doc).unwrap();
    assert_eq!(back.result_type, "main");
    assert_eq!(back.index, 7);
    assert!(!back.all);
}
