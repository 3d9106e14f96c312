use web_search_plugin::codec::parse_json;
use web_search_plugin::fetch::{do_fetch, read_page, FetchArgs, FetchOutput};
use web_search_plugin::http::{HttpRequest, HttpResponse};
use web_search_plugin::json::Json;
use web_search_plugin::plugin::{
    call_tool, do_search, err_result, fetch_answered, fetch_args_read, ok_result,
    search_answered, search_args_read, variable_read, Ending, Search, Step, ToolResult,
};
use web_search_plugin::providers::{choose_provider, Provider};
use web_search_plugin::results::SearchOutput;
use web_search_plugin::search::SearchArgs;
use web_search_plugin::tools::{init, list_tools, Introduction, PluginInfo};

fn args(provider: Option<&str>) -> SearchArgs {
    SearchArgs {
        query: "q".to_string(),
        provider: provider.map(|name| name.to_string()),
        num_results: None,
    }
}

fn page(url: &str) -> FetchArgs {
    FetchArgs {
        url: url.to_string(),
    }
}

fn fail(message: &str) -> Step {
    Step::Fail {
        message: message.to_string(),
    }
}

fn ending(content_json: &str, error_line: Option<&str>) -> Ending {
    Ending {
        result: ToolResult {
            content_json: content_json.to_string(),
            is_error: error_line.is_some(),
        },
        error_line: error_line.map(|line| line.to_string()),
    }
}

#[test]
fn failures_report_and_log_their_message() {
    assert_eq!(
        err_result("no \"luck\"".to_string()),
        ending("{\"error\":\"no \\\"luck\\\"\"}", Some("no \"luck\""))
    );
}

#[test]
fn encoded_outcomes_are_returned() {
    assert_eq!(
        ok_result(Ok("{\"a\":1}".to_string())),
        ending("{\"a\":1}", None)
    );
    assert_eq!(
        ok_result(Err("bad key".to_string())),
        ending(
            "{\"error\":\"serialize result: bad key\"}",
            Some("serialize result: bad key")
        )
    );
}

#[test]
fn errors_are_told_by_the_content() {
    let outcome = "{\"query\":\"q\",\"results\":[],\"provider\":\"exa\"}";
    for end in [
        ok_result(Ok(outcome.to_string())),
        ok_result(Err("why".to_string())),
        err_result("line\nbreak — 😀".to_string()),
        err_result(String::new()),
    ] {
        let document = parse_json(&end.result.content_json).unwrap();
        assert_eq!(document.get("error").is_some(), end.result.is_error);
        assert_eq!(document.text_at("error"), end.error_line.as_deref());
        if let Some(line) = end.error_line {
            let alone = vec![("error".to_string(), Json::Str(line))];
            assert_eq!(document, Json::Object(alone));
        }
    }
}

#[test]
fn tools_are_called_by_name() {
    assert_eq!(
        call_tool("web_search", "{}".to_string()),
        Step::ParseSearchArgs {
            args_json: "{}".to_string()
        }
    );
    assert_eq!(
        call_tool("web_fetch", "[".to_string()),
        Step::ParseFetchArgs {
            args_json: "[".to_string()
        }
    );
    assert_eq!(
        call_tool("shell", "{}".to_string()),
        fail("unknown tool: shell")
    );
}

#[test]
fn listed_tools_can_be_called() {
    let names: Vec<String> = list_tools().into_iter().map(|tool| tool.name).collect();
    assert_eq!(names, ["web_search", "web_fetch"]);
    for name in names {
        assert!(!matches!(
            call_tool(&name, String::new()),
            Step::Fail { .. }
        ));
    }
}

#[test]
fn undecodable_arguments_are_reported() {
    assert_eq!(
        search_args_read(Err("missing field `query`".to_string())),
        fail("web_search args: missing field `query`")
    );
    assert_eq!(
        fetch_args_read(Err("missing field `url`".to_string())),
        fail("web_fetch args: missing field `url`")
    );
}

#[test]
fn search_starts_with_the_variable_of_its_provider() {
    assert_eq!(
        do_search(args(None)),
        Step::ReadVariable {
            search: Search {
                provider: Provider::Exa,
                args: args(None),
            }
        }
    );
    assert_eq!(
        search_args_read(Ok(args(Some("searxng")))),
        Step::ReadVariable {
            search: Search {
                provider: Provider::Searxng,
                args: args(Some("searxng")),
            }
        }
    );
    assert_eq!(
        search_args_read(Ok(args(Some("bing")))),
        fail("unknown provider 'bing'. Supported: exa, tavily, searxng, anysearch")
    );
}

#[test]
fn nothing_is_sent_without_a_setting() {
    for provider in [Provider::Exa, Provider::Tavily, Provider::Searxng] {
        let search = Search {
            provider,
            args: args(None),
        };
        let message = format!("{} not set in host environment", provider.variable());
        assert_eq!(variable_read(search, None), fail(&message));
    }
}

#[test]
fn every_provider_is_asked_at_its_own_address() {
    for (provider, address) in [
        (Provider::Exa, "https://api.exa.ai/search"),
        (Provider::Tavily, "https://api.tavily.com/search"),
        (
            Provider::Searxng,
            "http://h/search?q=q&format=json&categories=general",
        ),
        (Provider::Anysearch, "https://api.anysearch.com/search"),
    ] {
        let search = Search {
            provider,
            args: args(None),
        };
        match variable_read(search, Some("http://h".to_string())) {
            Step::SendSearch {
                search,
                line,
                request,
            } => {
                assert_eq!(search.provider, provider);
                assert_eq!(line, format!("{} search: q=\"q\" n=5", provider.name()));
                match request {
                    HttpRequest::Get { url, .. } => assert_eq!(url, address),
                    HttpRequest::Post { url, .. } => assert_eq!(url, address),
                }
            }
            other => panic!("{other:?}"),
        }
    }
}

#[test]
fn a_search_runs_to_its_end() {
    let search = match do_search(args(Some("anysearch"))) {
        Step::ReadVariable { search } => search,
        other => panic!("{other:?}"),
    };
    let search = match variable_read(search, None) {
        Step::SendSearch { search, .. } => search,
        other => panic!("{other:?}"),
    };
    let reply = HttpResponse {
        status: 200,
        body: "{\"results\":[]}".to_string(),
    };
    assert_eq!(
        search_answered(search, Ok(reply)),
        Step::EncodeSearch {
            found: SearchOutput {
                query: "q".to_string(),
                results: Vec::new(),
                provider: "anysearch".to_string(),
            }
        }
    );
}

#[test]
fn the_default_provider_lists_no_more_than_wanted() {
    let mut wanted = args(None);
    wanted.num_results = Some(1);
    let search = match do_search(wanted) {
        Step::ReadVariable { search } => search,
        other => panic!("{other:?}"),
    };
    let search = match variable_read(search, Some("key".to_string())) {
        Step::SendSearch { search, .. } => search,
        other => panic!("{other:?}"),
    };
    let body = "{\"results\":[{\"title\":\"1\",\"url\":\"a\"},\
                {\"title\":\"2\",\"url\":\"b\"}]}";
    let reply = HttpResponse {
        status: 200,
        body: body.to_string(),
    };
    match search_answered(search, Ok(reply)) {
        Step::EncodeSearch { found } => {
            assert_eq!(found.provider, "exa");
            assert_eq!(found.results.len(), 1);
            assert_eq!(found.results[0].title, "1");
        }
        other => panic!("{other:?}"),
    }
}

#[test]
fn a_failed_search_ends_with_its_message() {
    let search = Search {
        provider: Provider::Exa,
        args: args(None),
    };
    assert_eq!(
        search_answered(search, Err("refused".to_string())),
        fail("exa http: refused")
    );
}

#[test]
fn only_web_addresses_are_fetched() {
    for url in ["http://a", "https://a/b?c", "http://"] {
        assert_eq!(
            fetch_args_read(Ok(page(url))),
            Step::SendFetch {
                args: page(url),
                line: format!("fetch: {url}"),
                request: HttpRequest::Get {
                    url: url.to_string(),
                    headers: vec![(
                        "User-Agent".to_string(),
                        "grain-web-search-plugin/0.1".to_string()
                    )],
                },
            }
        );
    }
    for url in ["", "ftp://a", "HTTP://a", " http://a", "file:///etc", "http:/a"] {
        assert_eq!(
            do_fetch(&page(url)),
            Err("url must start with http:// or https://".to_string())
        );
    }
}

#[test]
fn short_pages_are_returned_whole() {
    let reply = HttpResponse {
        status: 404,
        body: "a".repeat(16384),
    };
    assert_eq!(
        fetch_answered(page("http://a"), Ok(reply)),
        Step::EncodeFetch {
            page: FetchOutput {
                url: "http://a".to_string(),
                status: 404,
                body: "a".repeat(16384),
                truncated: false,
            }
        }
    );
}

#[test]
fn long_pages_are_cut_without_a_mark() {
    let reply = HttpResponse {
        status: 200,
        body: "a".repeat(16385),
    };
    assert_eq!(
        read_page(page("http://a"), Ok(reply)),
        Ok(FetchOutput {
            url: "http://a".to_string(),
            status: 200,
            body: "a".repeat(16384),
            truncated: true,
        })
    );
}

#[test]
fn long_pages_are_cut_between_characters() {
    let reply = HttpResponse {
        status: 200,
        body: "日".repeat(6000),
    };
    let output = read_page(page("http://a"), Ok(reply)).unwrap();
    assert_eq!(output.body, "日".repeat(5461));
    assert_eq!(output.body.len(), 16383);
    assert!(output.truncated);
}

#[test]
fn failed_fetches_are_reported() {
    assert_eq!(
        fetch_answered(page("http://a"), Err("dns".to_string())),
        fail("fetch http: dns")
    );
}

#[test]
fn the_plugin_introduces_itself() {
    assert_eq!(
        init(),
        Ok(Introduction {
            line: "web-search plugin loaded".to_string(),
            info: PluginInfo {
                name: "web-search".to_string(),
                version: "0.0.1-beta1".to_string(),
            },
        })
    );
}

#[test]
fn tools_are_described() {
    let tools = list_tools();
    assert_eq!(tools[0].label, "Web Search");
    assert!(tools[0]
        .description
        .starts_with("Search the live web via Exa / Tavily / SearXNG / AnySearch. Returns title"));
    assert!(tools[0]
        .description
        .ends_with("Defaults to 'exa' when provider is omitted."));
    assert_eq!(tools[1].label, "Fetch URL");
    assert_eq!(
        tools[1].description,
        "HTTP GET an arbitrary URL and return its body (truncated to 16 KiB for safety). \
         Useful for following links returned by `web_search`."
    );
}

#[test]
fn schemas_are_json_and_list_the_providers() {
    let tools = list_tools();
    let search = parse_json(&tools[0].parameters_json).unwrap();
    let properties = search.get("properties").unwrap();
    let provider = properties.get("provider").unwrap();
    let names = provider.elements_at("enum").unwrap();
    assert_eq!(names.len(), 4);
    for name in names {
        let name = name.as_str().unwrap().to_string();
        assert!(choose_provider(&Some(name)).is_ok());
    }
    assert_eq!(provider.text_at("default"), Some("exa"));
    assert_eq!(search.elements_at("required").unwrap()[0].as_str(), Some("query"));
    let fetch = parse_json(&tools[1].parameters_json).unwrap();
    assert_eq!(fetch.elements_at("required").unwrap()[0].as_str(), Some("url"));
}
