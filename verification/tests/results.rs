use web_search_plugin::codec::parse_json;
use web_search_plugin::http::HttpResponse;
use web_search_plugin::providers::Provider;
use web_search_plugin::results::{
    read_item, read_items, read_reply, read_results, SearchOutput, SearchResultItem,
};
use web_search_plugin::search::SearchArgs;

fn args(num_results: Option<u32>) -> SearchArgs {
    SearchArgs {
        query: "q".to_string(),
        provider: None,
        num_results,
    }
}

fn reply(status: u16, body: &str) -> Result<HttpResponse, String> {
    Ok(HttpResponse {
        status,
        body: body.to_string(),
    })
}

fn item(provider: Provider, json: &str) -> Option<SearchResultItem> {
    read_item(provider, &parse_json(json).unwrap())
}

fn snippet(provider: Provider, members: &str) -> Option<String> {
    let json = format!("{{\"title\":\"t\",\"url\":\"u\"{members}}}");
    item(provider, &json).unwrap().snippet
}

const ALL: [Provider; 4] = [
    Provider::Exa,
    Provider::Tavily,
    Provider::Searxng,
    Provider::Anysearch,
];

#[test]
fn exa_hit_is_read_in_full() {
    assert_eq!(
        item(
            Provider::Exa,
            "{\"title\":\"T\",\"url\":\"U\",\"publishedDate\":\"2024-01-01\",\"author\":\"A\",\
             \"highlights\":[\"H\",\"H2\"],\"text\":\"X\"}",
        ),
        Some(SearchResultItem {
            title: "T".to_string(),
            url: "U".to_string(),
            published_date: Some("2024-01-01".to_string()),
            author: Some("A".to_string()),
            snippet: Some("H".to_string()),
        })
    );
}

#[test]
fn other_hits_have_no_date_and_author() {
    for provider in [Provider::Tavily, Provider::Searxng, Provider::Anysearch] {
        let found = item(
            provider,
            "{\"title\":\"T\",\"url\":\"U\",\"publishedDate\":\"d\",\"author\":\"A\",\
             \"content\":\"C\"}",
        )
        .unwrap();
        assert_eq!(found.published_date, None);
        assert_eq!(found.author, None);
        assert_eq!(found.snippet, Some("C".to_string()));
    }
}

#[test]
fn hits_need_a_title_and_a_url() {
    for provider in ALL {
        assert_eq!(item(provider, "{\"title\":\"T\"}"), None);
        assert_eq!(item(provider, "{\"url\":\"U\"}"), None);
        assert_eq!(item(provider, "{\"title\":null,\"url\":\"U\"}"), None);
        assert_eq!(item(provider, "{\"title\":\"T\",\"url\":7}"), None);
        assert_eq!(item(provider, "[]"), None);
    }
}

#[test]
fn exa_snippet_falls_back_to_the_text() {
    let long = "x".repeat(300);
    let cut = format!("{}…", "x".repeat(280));
    let p = Provider::Exa;
    assert_eq!(snippet(p, ""), None);
    assert_eq!(snippet(p, &format!(",\"text\":\"{long}\"")), Some(cut.clone()));
    for highlights in ["[]", "[1]", "\"h\"", "null"] {
        let members = format!(",\"highlights\":{highlights},\"text\":\"{long}\"");
        assert_eq!(snippet(p, &members), Some(cut.clone()));
    }
    assert_eq!(
        snippet(p, &format!(",\"highlights\":[\"{long}\"]")),
        Some(long)
    );
}

#[test]
fn tavily_snippet_is_its_content() {
    assert_eq!(snippet(Provider::Tavily, ",\"content\":\"c\""), Some("c".to_string()));
    assert_eq!(snippet(Provider::Tavily, ",\"snippet\":\"s\""), None);
    assert_eq!(snippet(Provider::Tavily, ",\"content\":3"), None);
}

#[test]
fn searxng_snippet_falls_back_from_the_content() {
    let p = Provider::Searxng;
    assert_eq!(snippet(p, ",\"content\":\"c\",\"snippet\":\"s\""), Some("c".to_string()));
    assert_eq!(snippet(p, ",\"content\":null,\"snippet\":\"s\""), Some("s".to_string()));
    assert_eq!(snippet(p, ",\"snippet\":\"s\""), Some("s".to_string()));
    assert_eq!(snippet(p, ""), None);
}

#[test]
fn anysearch_snippet_hides_the_content() {
    let p = Provider::Anysearch;
    assert_eq!(snippet(p, ",\"content\":\"c\",\"snippet\":\"s\""), Some("s".to_string()));
    assert_eq!(snippet(p, ",\"content\":\"c\""), Some("c".to_string()));
    assert_eq!(snippet(p, ",\"content\":\"c\",\"snippet\":null"), None);
}

const FIVE: &str = "[{\"title\":\"1\",\"url\":\"a\"},{\"title\":\"2\"},{\"title\":\"3\",\
                    \"url\":\"c\"},7,{\"title\":\"5\",\"url\":\"e\"}]";

fn titles(provider: Provider, n: u32) -> Vec<String> {
    let list = parse_json(FIVE).unwrap();
    read_items(provider, list.as_array().unwrap(), n)
        .into_iter()
        .map(|item| item.title)
        .collect()
}

#[test]
fn hits_keep_their_order_and_unreadable_elements_drop_out() {
    for provider in ALL {
        assert_eq!(titles(provider, 20), ["1", "3", "5"]);
    }
}

#[test]
fn elements_beyond_the_limit_are_not_looked_at() {
    for provider in ALL {
        assert_eq!(titles(provider, 1), ["1"]);
        assert_eq!(titles(provider, 2), ["1"]);
        assert_eq!(titles(provider, 3), ["1", "3"]);
        assert_eq!(titles(provider, 5), ["1", "3", "5"]);
    }
}

#[test]
fn successful_reply_becomes_an_output() {
    for provider in ALL {
        let body = "{\"results\":[{\"title\":\"T\",\"url\":\"U\"}],\"more\":1}";
        for status in [200, 204, 299] {
            assert_eq!(
                read_reply(provider, &args(None), reply(status, body)),
                Ok(SearchOutput {
                    query: "q".to_string(),
                    results: vec![SearchResultItem {
                        title: "T".to_string(),
                        url: "U".to_string(),
                        published_date: None,
                        author: None,
                        snippet: None,
                    }],
                    provider: provider.name(),
                })
            );
        }
    }
}

#[test]
fn transport_errors_are_reported() {
    assert_eq!(
        read_reply(Provider::Exa, &args(None), Err("timeout".to_string())),
        Err("exa http: timeout".to_string())
    );
}

#[test]
fn failed_statuses_are_reported_with_the_body() {
    let body = "{\"results\":[]}";
    assert_eq!(
        read_reply(Provider::Tavily, &args(None), reply(199, body)),
        Err(format!("tavily HTTP 199 — body: {body}"))
    );
    assert_eq!(
        read_reply(Provider::Searxng, &args(None), reply(300, &"x".repeat(1000))),
        Err(format!("searxng HTTP 300 — body: {}…", "x".repeat(256)))
    );
}

#[test]
fn unreadable_bodies_are_reported() {
    assert_eq!(
        read_reply(Provider::Anysearch, &args(None), reply(200, "<html>")),
        Err("anysearch json parse: expected value at line 1 column 1".to_string())
    );
    assert_eq!(
        read_results(Provider::Exa, &args(None), Err("why".to_string())),
        Err("exa json parse: why".to_string())
    );
}

#[test]
fn missing_results_are_reported() {
    for body in ["{}", "[]", "{\"results\":{}}", "{\"results\":null}"] {
        assert_eq!(
            read_reply(Provider::Exa, &args(None), reply(200, body)),
            Err("exa response missing `results` array".to_string())
        );
    }
}
