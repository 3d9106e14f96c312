//! The requests that the search providers are sent, and the lines that announce them.

use crate::codec::{
    fields, json_text, number_value, object_value, parsed_json, plain, reads_as, text_value,
    value_pairs, value_text,
};
use crate::http::{
    agent_headers, announced, call_view, get_request, headers_view, Call, CallView, HttpRequest,
    RequestView,
};
use crate::json::JsonView;
use crate::providers::Provider;
use crate::text::{
    debug_quoted, debug_text, decimal, decimal_text, opt_view, trim_trailing_slashes,
    without_trailing_slashes,
};
use crate::text_laws::{law_encoded_text_reads_back, law_trailing_slashes_alone_are_removed};
use crate::urls::{percent_decoded, url_encoded, urlencoding};
use vstd::prelude::*;
use vstd::string::*;
use vstd::utf8::*;

verus! {

/// What a search is asked for.
#[derive(Debug, PartialEq, Eq)]
pub struct SearchArgs {
    pub query: String,
    pub provider: Option<String>,
    pub num_results: Option<u32>,
}

/// How many results are asked for where the caller does not say.
pub const DEFAULT_RESULTS: u32 = 5;

/// The fewest results that can be asked for.
pub const MIN_RESULTS: u32 = 1;

/// The most results that can be asked for.
pub const MAX_RESULTS: u32 = 20;

/// How many results to ask for.
pub open spec fn count_view(num_results: Option<u32>) -> u32 {
    let wanted = match num_results {
        Some(n) => n,
        None => DEFAULT_RESULTS,
    };
    if wanted < MIN_RESULTS {
        MIN_RESULTS
    } else if wanted > MAX_RESULTS {
        MAX_RESULTS
    } else {
        wanted
    }
}

/// How many results to ask for: what the caller wants, brought between one and twenty.
pub fn result_count(num_results: Option<u32>) -> (n: u32)
    ensures
        n == count_view(num_results),
        MIN_RESULTS <= n <= MAX_RESULTS,
        num_results is None ==> n == 5,
        num_results matches Some(k) ==> {
            &&& k == 0 ==> n == 1
            &&& 1 <= k <= 20 ==> n == k
            &&& k > 20 ==> n == 20
        },
{
    let wanted: u32 = match num_results {
        Some(n) => n,
        None => DEFAULT_RESULTS,
    };
    if wanted < MIN_RESULTS {
        MIN_RESULTS
    } else if wanted > MAX_RESULTS {
        MAX_RESULTS
    } else {
        wanted
    }
}

/// The line that is logged before a provider is asked.
pub open spec fn search_line_view(
    provider: Provider,
    query: Seq<char>,
    num_results: Option<u32>,
) -> Seq<char> {
    provider.name_view() + " search: q="@ + debug_text(query) + " n="@ + decimal(
        count_view(num_results) as nat,
    )
}

/// Words the line that is logged before a provider is asked.
pub fn search_line(provider: Provider, args: &SearchArgs) -> (line: String)
    ensures
        line@ == search_line_view(provider, args.query@, args.num_results),
{
    provider.name().concat(" search: q=").concat(
        debug_quoted(args.query.as_str()).as_str(),
    ).concat(" n=").concat(decimal_text(result_count(args.num_results)).as_str())
}

/// A setting counts only where it is not empty.
pub open spec fn given(setting: Option<Seq<char>>) -> Option<Seq<char>> {
    match setting {
        Some(text) => if text.len() == 0 {
            None
        } else {
            Some(text)
        },
        None => None,
    }
}

/// Takes an empty setting for an absent one.
fn nonempty(setting: Option<String>) -> (kept: Option<String>)
    ensures
        opt_view(kept) == given(opt_view(setting)),
{
    match setting {
        Some(text) => if text.as_str().is_empty() {
            None
        } else {
            Some(text)
        },
        None => None,
    }
}

/// The body of a request to Exa.
pub open spec fn exa_payload(query: Seq<char>, n: u32) -> JsonView {
    JsonView::Object(
        map![
            "query"@ => JsonView::Str(query),
            "numResults"@ => JsonView::Number(decimal(n as nat)),
            "type"@ => JsonView::Str("auto"@),
            "contents"@ => JsonView::Object(
                map![
                    "highlights"@ => JsonView::Object(
                        map!["numSentences"@ => JsonView::Number(decimal(2))],
                    ),
                ],
            ),
        ],
    )
}

/// The request to Exa, or why there is none.
pub open spec fn exa_request(
    query: Seq<char>,
    num_results: Option<u32>,
    api_key: Option<Seq<char>>,
) -> Result<RequestView, Seq<char>> {
    match given(api_key) {
        Some(key) => Ok(
            RequestView::Post {
                url: "https://api.exa.ai/search"@,
                headers: seq![("Content-Type"@, "application/json"@), ("x-api-key"@, key)],
                body: json_text(exa_payload(query, count_view(num_results))),
            },
        ),
        None => Err("EXA_API_KEY not set in host environment"@),
    }
}

/// Asks Exa, which needs a key.
pub fn search_exa(args: &SearchArgs, api_key: Option<String>) -> (call: Result<Call, String>)
    ensures
        call_view(call) == announced(
            search_line_view(Provider::Exa, args.query@, args.num_results),
            exa_request(args.query@, args.num_results, opt_view(api_key)),
        ),
        call is Ok <==> (api_key matches Some(key) && key@.len() > 0),
        call matches Ok(call) ==> (call.request matches HttpRequest::Post { headers, .. }
            && headers@.len() == 2 && headers@[1].1@ == api_key->0@),
        call matches Ok(call) ==> reads_as(
            call.request@->body,
            exa_payload(args.query@, count_view(args.num_results)),
        ),
        call matches Ok(call) ==> (parsed_json(call.request@->body) matches Ok(
            JsonView::Object(members),
        ) && {
            &&& members.contains_key("query"@)
            &&& members["query"@] == JsonView::Str(args.query@)
            &&& members.contains_key("numResults"@)
            &&& args.num_results is None ==> members["numResults"@] == JsonView::Number(decimal(5))
            &&& args.num_results matches Some(k) ==> members["numResults"@] == JsonView::Number(
                decimal(
                    if k < 1 {
                        1
                    } else if k > 20 {
                        20
                    } else {
                        k as nat
                    },
                ),
            )
        }),
{
    let key = match nonempty(api_key) {
        Some(key) => key,
        None => return Err("EXA_API_KEY not set in host environment".to_string()),
    };
    let n: u32 = result_count(args.num_results);
    let sentences = vec![("numSentences".to_string(), number_value(2))];
    let highlights = vec![("highlights".to_string(), object_value(sentences))];
    let contents = object_value(highlights);
    let members = vec![
        ("query".to_string(), text_value(args.query.as_str())),
        ("numResults".to_string(), number_value(n)),
        ("type".to_string(), text_value("auto")),
        ("contents".to_string(), contents),
    ];
    proof {
        reveal_with_fuel(fields, 5);
        reveal_with_fuel(plain, 3);
        reveal_strlit("query");
        reveal_strlit("numResults");
        reveal_strlit("type");
        reveal_strlit("contents");
        let pairs = value_pairs(members@);
        assert(pairs[0].0.len() == 5 && pairs[1].0.len() == 10);
        assert(pairs[2].0.len() == 4 && pairs[3].0.len() == 8);
        let s = map!["numSentences"@ => JsonView::Number(decimal(2))];
        assert(fields(value_pairs(sentences@)) =~= s);
        let h = map!["highlights"@ => JsonView::Object(s)];
        assert(fields(value_pairs(highlights@)) =~= h);
        assert(JsonView::Object(fields(value_pairs(members@))) == exa_payload(args.query@, n)) by {
            assert(fields(value_pairs(members@)) =~= exa_payload(args.query@, n)->Object_0);
        }
        assert(decimal(2) == decimal(2u32 as nat));
        assert(plain(JsonView::Object(s), 6));
        assert(plain(JsonView::Object(h), 7));
    }
    let payload = object_value(members);
    let headers = vec![
        ("Content-Type".to_string(), "application/json".to_string()),
        ("x-api-key".to_string(), key),
    ];
    assert(headers_view(headers@) =~= seq![
        ("Content-Type"@, "application/json"@),
        ("x-api-key"@, key@),
    ]);
    let request = HttpRequest::Post {
        url: "https://api.exa.ai/search".to_string(),
        headers,
        body: value_text(&payload),
    };
    Ok(Call { line: search_line(Provider::Exa, args), request })
}

/// The body of a request to Tavily.
pub open spec fn tavily_payload(query: Seq<char>, n: u32) -> JsonView {
    JsonView::Object(
        map![
            "query"@ => JsonView::Str(query),
            "search_depth"@ => JsonView::Str("basic"@),
            "max_results"@ => JsonView::Number(decimal(n as nat)),
        ],
    )
}

/// The request to Tavily, or why there is none.
pub open spec fn tavily_request(
    query: Seq<char>,
    num_results: Option<u32>,
    api_key: Option<Seq<char>>,
) -> Result<RequestView, Seq<char>> {
    match given(api_key) {
        Some(key) => Ok(
            RequestView::Post {
                url: "https://api.tavily.com/search"@,
                headers: seq![
                    ("Content-Type"@, "application/json"@),
                    ("Authorization"@, "Bearer "@ + key),
                ],
                body: json_text(tavily_payload(query, count_view(num_results))),
            },
        ),
        None => Err("TAVILY_API_KEY not set in host environment"@),
    }
}

/// Asks Tavily, which needs a key.
pub fn search_tavily(args: &SearchArgs, api_key: Option<String>) -> (call: Result<Call, String>)
    ensures
        call_view(call) == announced(
            search_line_view(Provider::Tavily, args.query@, args.num_results),
            tavily_request(args.query@, args.num_results, opt_view(api_key)),
        ),
        call is Ok <==> (api_key matches Some(key) && key@.len() > 0),
        call matches Ok(call) ==> (call.request matches HttpRequest::Post { headers, .. }
            && headers@.len() == 2 && headers@[1].1@ == "Bearer "@ + api_key->0@),
        call matches Ok(call) ==> reads_as(
            call.request@->body,
            tavily_payload(args.query@, count_view(args.num_results)),
        ),
        call matches Ok(call) ==> (parsed_json(call.request@->body) matches Ok(
            JsonView::Object(members),
        ) && {
            &&& members.contains_key("query"@)
            &&& members["query"@] == JsonView::Str(args.query@)
            &&& members.contains_key("max_results"@)
            &&& args.num_results is None ==> members["max_results"@] == JsonView::Number(decimal(5))
            &&& args.num_results matches Some(k) ==> members["max_results"@] == JsonView::Number(
                decimal(
                    if k < 1 {
                        1
                    } else if k > 20 {
                        20
                    } else {
                        k as nat
                    },
                ),
            )
        }),
{
    let key = match nonempty(api_key) {
        Some(key) => key,
        None => return Err("TAVILY_API_KEY not set in host environment".to_string()),
    };
    let n: u32 = result_count(args.num_results);
    let members = vec![
        ("query".to_string(), text_value(args.query.as_str())),
        ("search_depth".to_string(), text_value("basic")),
        ("max_results".to_string(), number_value(n)),
    ];
    proof {
        reveal_with_fuel(fields, 4);
        reveal_with_fuel(plain, 2);
        reveal_strlit("query");
        reveal_strlit("search_depth");
        reveal_strlit("max_results");
        let pairs = value_pairs(members@);
        assert(pairs[0].0.len() == 5 && pairs[1].0.len() == 12 && pairs[2].0.len() == 11);
        assert(fields(pairs) =~= tavily_payload(args.query@, n)->Object_0);
    }
    let payload = object_value(members);
    let headers = vec![
        ("Content-Type".to_string(), "application/json".to_string()),
        ("Authorization".to_string(), "Bearer ".to_string().concat(key.as_str())),
    ];
    assert(headers_view(headers@) =~= seq![
        ("Content-Type"@, "application/json"@),
        ("Authorization"@, "Bearer "@ + key@),
    ]);
    let request = HttpRequest::Post {
        url: "https://api.tavily.com/search".to_string(),
        headers,
        body: value_text(&payload),
    };
    Ok(Call { line: search_line(Provider::Tavily, args), request })
}

/// The request to a SearXNG server, or why there is none.
pub open spec fn searxng_request(query: Seq<char>, base_url: Option<Seq<char>>) -> Result<
    RequestView,
    Seq<char>,
> {
    match given(base_url) {
        Some(base) => Ok(
            RequestView::Get {
                url: without_trailing_slashes(base) + "/search?q="@ + url_encoded(query)
                    + "&format=json&categories=general"@,
                headers: agent_headers(),
            },
        ),
        None => Err("SEARXNG_BASE_URL not set in host environment"@),
    }
}

/// Asks a SearXNG server, whose address has to be known.
///
/// The request does not say how many results are wanted.
pub fn search_searxng(args: &SearchArgs, base_url: Option<String>) -> (call: Result<Call, String>)
    ensures
        call_view(call) == announced(
            search_line_view(Provider::Searxng, args.query@, args.num_results),
            searxng_request(args.query@, opt_view(base_url)),
        ),
        call is Ok <==> (base_url matches Some(base) && base@.len() > 0),
        call matches Ok(call) ==> (call.request matches HttpRequest::Get { url, .. } && exists|
            before: Seq<char>,
            encoded: Seq<char>,
        |
            {
                &&& url@ == #[trigger] (before + "/search?q="@ + encoded
                    + "&format=json&categories=general"@)
                &&& before.is_prefix_of(base_url->0@)
                &&& percent_decoded(encoded) == encode_utf8(args.query@)
            }),
{
    let base = match nonempty(base_url) {
        Some(base) => base,
        None => return Err("SEARXNG_BASE_URL not set in host environment".to_string()),
    };
    let url = trim_trailing_slashes(base.as_str()).concat("/search?q=").concat(
        urlencoding(args.query.as_str()).as_str(),
    ).concat("&format=json&categories=general");
    proof {
        law_trailing_slashes_alone_are_removed(base@);
        law_encoded_text_reads_back(args.query@);
        assert(url@ == without_trailing_slashes(base@) + "/search?q="@ + url_encoded(args.query@)
            + "&format=json&categories=general"@);
    }
    Ok(Call { line: search_line(Provider::Searxng, args), request: get_request(url) })
}

/// The body of a request to AnySearch.
pub open spec fn anysearch_payload(query: Seq<char>, n: u32) -> JsonView {
    JsonView::Object(
        map![
            "query"@ => JsonView::Str(query),
            "num_results"@ => JsonView::Number(decimal(n as nat)),
        ],
    )
}

/// The request to AnySearch.
pub open spec fn anysearch_request(
    query: Seq<char>,
    num_results: Option<u32>,
    api_key: Option<Seq<char>>,
) -> RequestView {
    let content_type = ("Content-Type"@, "application/json"@);
    RequestView::Post {
        url: "https://api.anysearch.com/search"@,
        headers: match given(api_key) {
            Some(key) => seq![content_type, ("x-api-key"@, key)],
            None => seq![content_type],
        },
        body: json_text(anysearch_payload(query, count_view(num_results))),
    }
}

/// Asks AnySearch, with a key for higher rate limits or anonymously without one.
pub fn search_anysearch(args: &SearchArgs, api_key: Option<String>) -> (call: Call)
    ensures
        call@ == (CallView {
            line: search_line_view(Provider::Anysearch, args.query@, args.num_results),
            request: anysearch_request(args.query@, args.num_results, opt_view(api_key)),
        }),
        reads_as(
            call.request@->body,
            anysearch_payload(args.query@, count_view(args.num_results)),
        ),
        parsed_json(call.request@->body) matches Ok(JsonView::Object(members)) && {
            &&& members.contains_key("query"@)
            &&& members["query"@] == JsonView::Str(args.query@)
            &&& members.contains_key("num_results"@)
            &&& args.num_results is None ==> members["num_results"@] == JsonView::Number(decimal(5))
            &&& args.num_results matches Some(k) ==> members["num_results"@] == JsonView::Number(
                decimal(
                    if k < 1 {
                        1
                    } else if k > 20 {
                        20
                    } else {
                        k as nat
                    },
                ),
            )
        },
{
    let n: u32 = result_count(args.num_results);
    let members = vec![
        ("query".to_string(), text_value(args.query.as_str())),
        ("num_results".to_string(), number_value(n)),
    ];
    proof {
        reveal_with_fuel(fields, 3);
        reveal_with_fuel(plain, 2);
        reveal_strlit("query");
        reveal_strlit("num_results");
        let pairs = value_pairs(members@);
        assert(pairs[0].0.len() == 5 && pairs[1].0.len() == 11);
        assert(fields(pairs) =~= anysearch_payload(args.query@, n)->Object_0);
    }
    let payload = object_value(members);
    let mut headers = vec![("Content-Type".to_string(), "application/json".to_string())];
    if let Some(key) = nonempty(api_key) {
        headers.push(("x-api-key".to_string(), key));
    }
    assert(headers_view(headers@) =~= anysearch_request(
        args.query@,
        args.num_results,
        opt_view(api_key),
    )->Post_headers);
    let request = HttpRequest::Post {
        url: "https://api.anysearch.com/search".to_string(),
        headers,
        body: value_text(&payload),
    };
    Call { line: search_line(Provider::Anysearch, args), request }
}

} // verus!
