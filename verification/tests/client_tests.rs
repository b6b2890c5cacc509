use brave_rs::errors::BraveClientError;
use brave_rs::query_params::WebSearchQueryParamsBuilder;
use brave_rs::response::parse_response;
use brave_rs::web_search_query_builder;

#[test]
fn test_web_search_by_query() {
    let params = WebSearchQueryParamsBuilder::default().q("rust").build();
    let query = web_search_query_builder(&params).unwrap();
    assert_eq!(query, "/web/search?q=rust");

    let body = r#"{
        "type": "web",
        "query": { "original": "rust", "show_strict_warning": false, "is_navigational": false,
            "is_news_breaking": false, "spellcheck_off": false, "country": "us",
            "bad_results": false, "should_fallback": false, "postal_code": "", "city": "",
            "header_country": "", "more_results_available": false, "state": "" },
        "web": { "type": "web", "results": [] }
    }"#;
    let result = parse_response(body);
    assert!(result.is_ok());
    let response = result.unwrap();
    assert_eq!(response.result_type, "web");
}

#[test]
fn test_web_search_returns_brave_client_error_on_http_error() {
    let result: Result<(), BraveClientError> =
        Err(BraveClientError::from_status(401, r#"{"error": "Unauthorized"}"#));
    assert!(result.is_err());
    if let Err(BraveClientError::HttpError(msg)) = result {
        assert!(msg.contains("401"));
    } else {
        panic!("Expected BraveClientError::HttpError");
    }
}

#[test]
fn test_web_search_video_result() {
    let body = r#"{
        "type": "videos",
        "query": {
            "original": "rust video",
            "show_strict_warning": false,
            "is_navigational": false,
            "is_news_breaking": false,
            "spellcheck_off": false,
            "country": "us",
            "bad_results": false,
            "should_fallback": false,
            "postal_code": "",
            "city": "",
            "header_country": "",
            "more_results_available": false,
            "state": ""
        },
        "videos": {
            "type": "videos",
            "results": [
                {
                    "type": "video_result",
                    "url": "https://www.youtube.com/watch?v=5C_HPTJg5ek&pp=0gcJCfwAo7VqN5tD",
                    "title": "Rust in 100 Seconds",
                    "description": "Enjoy the videos and music you love, upload original content, and share it all with friends, family, and the world on YouTube.",
                    "fetched_content_timestamp": 1755933539,
                    "video": {},
                    "meta_url": {
                        "scheme": "https",
                        "netloc": "youtube.com",
                        "hostname": "www.youtube.com",
                        "favicon": "https://imgs.search.brave.com/favicon",
                        "path": "watch"
                    },
                    "thumbnail": {
                        "src": "https://imgs.search.brave.com/thumb",
                        "original": "https://i.ytimg.com/vi/5C_HPTJg5ek/hqdefault.jpg"
                    }
                }
            ],
            "mutated_by_goggles": false
        }
    }"#;
    let result = parse_response(body);
    assert!(result.is_ok());
    let response = result.unwrap();
    assert_eq!(response.result_type, "videos");
    let videos = response.videos.unwrap();
    let video_result = videos.results.unwrap();

    assert_eq!(videos.result_type, "videos");
    assert_eq!(video_result.len(), 1);
    let video_result = &video_result[0];
    assert_eq!(video_result.title, "Rust in 100 Seconds");
    assert_eq!(
        video_result.url,
        "https://www.youtube.com/watch?v=5C_HPTJg5ek&pp=0gcJCfwAo7VqN5tD"
    );
    assert_eq!(video_result.fetched_content_timestamp, Some(1755933539));
    let meta_url = video_result.meta_url.as_ref().unwrap();
    assert_eq!(meta_url.scheme, "https");
    assert_eq!(meta_url.hostname, "www.youtube.com");
}

#[test]
fn test_web_search_with_mixed_field() {
    let body = r#"{
        "type": "web",
        "query": {
            "original": "mixed",
            "show_strict_warning": false,
            "is_navigational": false,
            "is_news_breaking": false,
            "spellcheck_off": false,
            "country": "us",
            "bad_results": false,
            "should_fallback": false,
            "postal_code": "",
            "city": "",
            "header_country": "",
            "more_results_available": false,
            "state": ""
        },
        "mixed": {
            "type": "mixed",
            "main": [
                {
                    "type": "reference",
                    "main": [
                        {"type": "main", "index": 1, "all": true}
                    ]
                }
            ],
            "top": null,
            "side": null
        }
    }"#;
    let result = parse_response(body);
    assert!(result.is_ok());
    let response = result.unwrap();
    assert!(response.mixed.is_some());
    let mixed = response.mixed.as_ref().unwrap();
    assert_eq!(mixed.result_type, "mixed");
    assert!(mixed.main.is_some());
    let main = mixed.main.as_ref().unwrap();
    assert_eq!(main.len(), 1);
    let ref_result = &main[0];
    assert_eq!(ref_result.result_type, "reference");
    assert!(ref_result.main.is_some());
    let mixed_main = ref_result.main.as_ref().unwrap();
    assert_eq!(mixed_main.len(), 1);
    assert_eq!(mixed_main[0].result_type, "main");
    assert_eq!(mixed_main[0].index, 1);
    assert!(mixed_main[0].all);
    assert!(mixed.top.is_none());
    assert!(mixed.side.is_none());
}

#[test]
fn transport_outcomes_are_classified() {
    let with_status = BraveClientError::classify_transport(Some(503), "service unavailable");
    match with_status {
        BraveClientError::HttpError(msg) => {
            assert!(msg.contains("503"));
            assert!(msg.contains("service unavailable"));
        },
        _ => panic!("expected an HTTP status error"),
    }

    let without_status = BraveClientError::classify_transport(None, "connection refused");
    match without_status {
        BraveClientError::ClientError(msg) => assert_eq!(msg, "connection refused"),
        _ => panic!("expected a connection-level error"),
    }
}

#[test]
fn error_messages_follow_the_taxonomy() {
    let client = BraveClientError::ClientError("boom".to_string());
    assert_eq!(client.message(), "Client error: boom");
    let http = BraveClientError::from_status(404, "not found");
    assert_eq!(http.message(), "Http error: HTTP error 404: not found");
    let deser = BraveClientError::ResponseDeserializationError("detail".to_string());
    assert_eq!(deser.message(), "Unable to deserialize response");
}
