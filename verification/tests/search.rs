use web_search_plugin::codec::parse_json;
use web_search_plugin::http::{Call, HttpRequest};
use web_search_plugin::json::Json;
use web_search_plugin::providers::{choose_provider, Provider};
use web_search_plugin::search::{
    result_count, search_anysearch, search_exa, search_line, search_searxng, search_tavily,
    SearchArgs,
};

fn args(query: &str, num_results: Option<u32>) -> SearchArgs {
    SearchArgs {
        query: query.to_string(),
        provider: None,
        num_results,
    }
}

fn pair(name: &str, value: &str) -> (String, String) {
    (name.to_string(), value.to_string())
}

fn call(line: &str, request: HttpRequest) -> Call {
    Call {
        line: line.to_string(),
        request,
    }
}

fn key() -> Option<String> {
    Some("k1".to_string())
}

#[test]
fn result_count_is_clamped() {
    assert_eq!(result_count(None), 5);
    assert_eq!(result_count(Some(0)), 1);
    assert_eq!(result_count(Some(1)), 1);
    assert_eq!(result_count(Some(7)), 7);
    assert_eq!(result_count(Some(20)), 20);
    assert_eq!(result_count(Some(21)), 20);
    assert_eq!(result_count(Some(u32::MAX)), 20);
}

#[test]
fn exa_is_asked_with_its_key() {
    assert_eq!(
        search_exa(&args("rust \"2021\"", Some(3)), key()),
        Ok(call("exa search: q=\"rust \\\"2021\\\"\" n=3", HttpRequest::Post {
            url: "https://api.exa.ai/search".to_string(),
            headers: vec![
                pair("Content-Type", "application/json"),
                pair("x-api-key", "k1"),
            ],
            body: "{\"contents\":{\"highlights\":{\"numSentences\":2}},\"numResults\":3,\
                   \"query\":\"rust \\\"2021\\\"\",\"type\":\"auto\"}"
                .to_string(),
        }))
    );
}

#[test]
fn tavily_is_asked_with_its_key() {
    assert_eq!(
        search_tavily(&args("q", Some(50)), key()),
        Ok(call("tavily search: q=\"q\" n=20", HttpRequest::Post {
            url: "https://api.tavily.com/search".to_string(),
            headers: vec![
                pair("Content-Type", "application/json"),
                pair("Authorization", "Bearer k1"),
            ],
            body: "{\"max_results\":20,\"query\":\"q\",\"search_depth\":\"basic\"}".to_string(),
        }))
    );
}

#[test]
fn searxng_is_asked_at_its_address() {
    let expected = Ok(call(
        "searxng search: q=\"a b&c\" n=2",
        HttpRequest::Get {
            url: "http://my-host:8080/search?q=a%20b%26c&format=json&categories=general"
                .to_string(),
            headers: vec![pair("User-Agent", "grain-web-search-plugin/0.1")],
        },
    ));
    let query = args("a b&c", Some(2));
    for base in ["http://my-host:8080", "http://my-host:8080/", "http://my-host:8080//"] {
        assert_eq!(search_searxng(&query, Some(base.to_string())), expected);
    }
}

#[test]
fn searxng_address_of_slashes_alone_is_emptied() {
    let call = search_searxng(&args("q", None), Some("/".to_string()));
    assert_eq!(
        call.map(|call| call.request),
        Ok(HttpRequest::Get {
            url: "/search?q=q&format=json&categories=general".to_string(),
            headers: vec![pair("User-Agent", "grain-web-search-plugin/0.1")],
        })
    );
}

#[test]
fn anysearch_is_asked_with_or_without_a_key() {
    let body = "{\"num_results\":5,\"query\":\"q\"}".to_string();
    let url = "https://api.anysearch.com/search".to_string();
    assert_eq!(
        search_anysearch(&args("q", None), key()).request,
        HttpRequest::Post {
            url: url.clone(),
            headers: vec![
                pair("Content-Type", "application/json"),
                pair("x-api-key", "k1"),
            ],
            body: body.clone(),
        }
    );
    for anonymous in [None, Some(String::new())] {
        assert_eq!(
            search_anysearch(&args("q", None), anonymous).request,
            HttpRequest::Post {
                url: url.clone(),
                headers: vec![pair("Content-Type", "application/json")],
                body: body.clone(),
            }
        );
    }
}

#[test]
fn missing_settings_are_reported() {
    for absent in [None, Some(String::new())] {
        assert_eq!(
            search_exa(&args("q", None), absent.clone()),
            Err("EXA_API_KEY not set in host environment".to_string())
        );
        assert_eq!(
            search_tavily(&args("q", None), absent.clone()),
            Err("TAVILY_API_KEY not set in host environment".to_string())
        );
        assert_eq!(
            search_searxng(&args("q", None), absent),
            Err("SEARXNG_BASE_URL not set in host environment".to_string())
        );
    }
}

#[test]
fn request_bodies_read_back() {
    let query = "control \u{2} and \\ and 😀";
    match search_exa(&args(query, None), key()).map(|call| call.request) {
        Ok(HttpRequest::Post { body, .. }) => {
            let read = parse_json(&body).unwrap();
            assert_eq!(read.text_at("query"), Some(query));
            assert_eq!(read.text_at("type"), Some("auto"));
            assert_eq!(read.get("numResults"), Some(&Json::Number("5".to_string())));
        }
        other => panic!("{other:?}"),
    }
}

#[test]
fn providers_are_chosen_by_name() {
    assert_eq!(choose_provider(&None), Ok(Provider::Exa));
    for provider in [
        Provider::Exa,
        Provider::Tavily,
        Provider::Searxng,
        Provider::Anysearch,
    ] {
        assert_eq!(choose_provider(&Some(provider.name())), Ok(provider));
    }
    assert_eq!(
        choose_provider(&Some("Bing".to_string())),
        Err("unknown provider 'Bing'. Supported: exa, tavily, searxng, anysearch".to_string())
    );
    assert_eq!(
        choose_provider(&Some(String::new())),
        Err("unknown provider ''. Supported: exa, tavily, searxng, anysearch".to_string())
    );
}

#[test]
fn providers_name_their_variables() {
    assert_eq!(Provider::Exa.variable(), "EXA_API_KEY");
    assert_eq!(Provider::Tavily.variable(), "TAVILY_API_KEY");
    assert_eq!(Provider::Searxng.variable(), "SEARXNG_BASE_URL");
    assert_eq!(Provider::Anysearch.variable(), "ANYSEARCH_API_KEY");
}

#[test]
fn searches_are_announced() {
    let line = search_line(Provider::Anysearch, &args("tab\t é \\", Some(0)));
    assert_eq!(line, "anysearch search: q=\"tab\\t é \\\\\" n=1");
    assert_eq!(search_anysearch(&args("tab\t é \\", Some(0)), key()).line, line);
    assert_eq!(
        search_line(Provider::Exa, &args("", None)),
        "exa search: q=\"\" n=5"
    );
}

#[test]
fn the_key_reaches_one_header_only() {
    let with = |key: &str| {
        let query = args("q", None);
        let key = Some(key.to_string());
        vec![
            search_exa(&query, key.clone()).unwrap(),
            search_tavily(&query, key.clone()).unwrap(),
            search_anysearch(&query, key),
        ]
    };
    for (a, b) in with("k1").into_iter().zip(with("k2")) {
        assert_eq!(a.line, b.line);
        assert!(!a.line.contains("k1"));
        match (a.request, b.request) {
            (
                HttpRequest::Post { url, headers, body },
                HttpRequest::Post {
                    url: other_url,
                    headers: other_headers,
                    body: other_body,
                },
            ) => {
                assert_eq!(url, other_url);
                assert_eq!(body, other_body);
                assert_eq!(headers[0], other_headers[0]);
                assert_eq!(headers[1].0, other_headers[1].0);
                assert_eq!(headers[1].1.replace("k1", "k2"), other_headers[1].1);
                assert_eq!(headers.len(), 2);
            }
            other => panic!("{other:?}"),
        }
    }
}
