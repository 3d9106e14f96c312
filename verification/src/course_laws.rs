//! What holds of the course of a tool call, from its name to its end.

use crate::codec::{error_document, json_text, parsed_json};
use crate::fetch::{fetch_document, fetch_outcome, fetch_request, FetchView};
use crate::http::{RequestView, ResponseView};
use crate::json::JsonView;
use crate::plugin::{
    encoded_ending, failure, fetch_reply_step, fetch_step, first_step, holds_no_error, search_step,
    tells_errors, EndingView, SearchView, StepView,
};
use crate::providers::{chosen, Provider};
use crate::text::decimal;
use crate::text_laws::law_head;
use crate::tools::{tools, ToolView};
use vstd::prelude::*;
use vstd::utf8::*;

verus! {

/// The names of the tools differ.
proof fn lemma_tool_names()
    ensures
        "web_search"@ != "web_fetch"@,
{
    reveal_strlit("web_search");
    reveal_strlit("web_fetch");
    assert("web_search"@.len() == 10 && "web_fetch"@.len() == 9);
}

/// A call of one of the two tools begins with the arguments as they were given; a call of
/// anything else fails with a message that ends with the name.
pub proof fn law_calls_begin_by_name(name: Seq<char>, args_json: Seq<char>)
    ensures
        first_step("web_search"@, args_json) == (StepView::ParseSearchArgs { args_json }),
        first_step("web_fetch"@, args_json) == (StepView::ParseFetchArgs { args_json }),
        name != "web_search"@ && name != "web_fetch"@ ==> first_step(name, args_json) == (
        StepView::Fail { message: "unknown tool: "@ + name }),
{
    lemma_tool_names();
}

/// The names of the providers differ.
proof fn lemma_provider_names()
    ensures
        "exa"@ != "tavily"@,
        "exa"@ != "searxng"@,
        "exa"@ != "anysearch"@,
        "tavily"@ != "searxng"@,
        "tavily"@ != "anysearch"@,
        "searxng"@ != "anysearch"@,
{
    reveal_strlit("exa");
    reveal_strlit("tavily");
    reveal_strlit("searxng");
    reveal_strlit("anysearch");
    assert("exa"@.len() == 3 && "tavily"@.len() == 6);
    assert("searxng"@.len() == 7 && "anysearch"@.len() == 9);
}

/// Each of the four names means its provider, no name means Exa, and any other name is refused
/// with a message that quotes it.
pub proof fn law_names_mean_providers(name: Seq<char>)
    ensures
        chosen(None) == Ok::<Provider, Seq<char>>(Provider::Exa),
        chosen(Some("exa"@)) == Ok::<Provider, Seq<char>>(Provider::Exa),
        chosen(Some("tavily"@)) == Ok::<Provider, Seq<char>>(Provider::Tavily),
        chosen(Some("searxng"@)) == Ok::<Provider, Seq<char>>(Provider::Searxng),
        chosen(Some("anysearch"@)) == Ok::<Provider, Seq<char>>(Provider::Anysearch),
        name != "exa"@ && name != "tavily"@ && name != "searxng"@ && name != "anysearch"@
            ==> chosen(Some(name)) == Err::<Provider, Seq<char>>(
            "unknown provider '"@ + name + "'. Supported: exa, tavily, searxng, anysearch"@,
        ),
{
    lemma_provider_names();
}

/// Each provider has its name and reads its setting from its own variable.
pub proof fn law_providers_have_their_names(provider: Provider)
    ensures
        provider is Exa ==> provider.name_view() == "exa"@ && provider.variable_view()
            == "EXA_API_KEY"@,
        provider is Tavily ==> provider.name_view() == "tavily"@ && provider.variable_view()
            == "TAVILY_API_KEY"@,
        provider is Searxng ==> provider.name_view() == "searxng"@ && provider.variable_view()
            == "SEARXNG_BASE_URL"@,
        provider is Anysearch ==> provider.name_view() == "anysearch"@ && provider.variable_view()
            == "ANYSEARCH_API_KEY"@,
{
}

/// A search goes on with the provider that was chosen and with the arguments as they were given,
/// or fails with the message of the refusal.
pub proof fn law_searches_keep_their_arguments(
    query: Seq<char>,
    provider: Option<Seq<char>>,
    num_results: Option<u32>,
)
    ensures
        chosen(provider) matches Ok(choice) ==> search_step(query, provider, num_results) == (
        StepView::ReadVariable {
            search: SearchView { provider: choice, query, requested: provider, num_results },
        }),
        chosen(provider) matches Err(message) ==> search_step(query, provider, num_results) == (
        StepView::Fail { message }),
{
}

/// An address that begins with `http://` or `https://` is asked for as it stands, by a GET that
/// names the plugin, after a line that ends with it. Any other address is refused.
pub proof fn law_web_addresses_are_asked_for(url: Seq<char>)
    ensures
        "http://"@.is_prefix_of(url) || "https://"@.is_prefix_of(url) ==> {
            let request = RequestView::Get {
                url,
                headers: seq![("User-Agent"@, "grain-web-search-plugin/0.1"@)],
            };
            &&& fetch_request(url) == Ok::<RequestView, Seq<char>>(request)
            &&& fetch_step(url) == (StepView::SendFetch { url, line: "fetch: "@ + url, request })
        },
        !"http://"@.is_prefix_of(url) && !"https://"@.is_prefix_of(url) ==> {
            &&& fetch_request(url) == Err::<RequestView, Seq<char>>(
                "url must start with http:// or https://"@,
            )
            &&& fetch_step(url) == (StepView::Fail {
                message: "url must start with http:// or https://"@,
            })
        },
{
}

/// A fetch hands on the address and the status as they are. A body of at most 16384 bytes is
/// handed on whole; of a longer one the longest prefix is handed on that takes no more, and it
/// is marked as truncated. A body that was not cut is not marked.
pub proof fn law_pages_are_handed_on(url: Seq<char>, response: ResponseView)
    ensures
        fetch_outcome(url, Ok(response)) matches Ok(page) && {
            &&& page.url == url
            &&& page.status == response.status
            &&& page.truncated <==> encode_utf8(response.body).len() > 16384
            &&& encode_utf8(response.body).len() <= 16384 ==> page.body == response.body
            &&& page.body.is_prefix_of(response.body)
            &&& encode_utf8(page.body).len() <= 16384
            &&& forall|k: int|
                page.body.len() < k <= response.body.len() ==> encode_utf8(
                    #[trigger] response.body.take(k),
                ).len() > 16384
        },
{
    law_head(response.body, 16384);
}

/// The document of a fetched page holds its address, its status, its body and whether it was cut.
pub proof fn law_page_document(page: FetchView)
    ensures
        fetch_document(page) matches JsonView::Object(members) && {
            &&& members.dom() == set!["url"@, "status"@, "body"@, "truncated"@]
            &&& members["url"@] == JsonView::Str(page.url)
            &&& members["status"@] == JsonView::Number(decimal(page.status as nat))
            &&& members["body"@] == JsonView::Str(page.body)
            &&& members["truncated"@] == JsonView::Bool(page.truncated)
        },
{
    reveal_strlit("url");
    reveal_strlit("status");
    reveal_strlit("body");
    reveal_strlit("truncated");
    assert("url"@.len() == 3 && "status"@.len() == 6 && "body"@.len() == 4);
    assert("truncated"@.len() == 9);
    let members = fetch_document(page)->Object_0;
    assert(members.dom() =~= set!["url"@, "status"@, "body"@, "truncated"@]);
}

/// What a fetch comes to is encoded. Without a response it fails with a message that ends with
/// the reason.
pub proof fn law_pages_are_encoded(url: Seq<char>, reply: Result<ResponseView, Seq<char>>)
    ensures
        reply is Ok ==> fetch_reply_step(url, reply) == (StepView::EncodeFetch {
            page: fetch_outcome(url, reply)->Ok_0,
        }),
        reply matches Err(reason) ==> {
            &&& fetch_outcome(url, reply) == Err::<FetchView, Seq<char>>("fetch http: "@ + reason)
            &&& fetch_reply_step(url, reply) == (StepView::Fail {
                message: "fetch http: "@ + reason,
            })
        },
{
}

/// A call that failed returns the text of an object whose one member, `error`, is the message,
/// marked as an error, and the message is logged.
pub proof fn law_failures_carry_their_message(message: Seq<char>)
    ensures
        failure(message).error_line == Some(message),
        failure(message).result.is_error,
        exists|members: Map<Seq<char>, JsonView>|
            failure(message).result.content_json == #[trigger] json_text(JsonView::Object(members))
                && members.dom() == set!["error"@] && members["error"@] == JsonView::Str(message),
        error_document(message) is Object,
        error_document(message)->Object_0.dom() == set!["error"@],
        error_document(message)->Object_0["error"@] == JsonView::Str(message),
{
    let members = error_document(message)->Object_0;
    assert(members.dom() =~= set!["error"@]);
    assert(failure(message).result.content_json == json_text(JsonView::Object(members)));
}

/// An encoded outcome is returned as it stands, is no error and logs nothing; where it could not
/// be encoded the call fails with a message that ends with the reason.
pub proof fn law_outcomes_are_returned(text: Seq<char>)
    ensures
        encoded_ending(Ok(text)).result.content_json == text,
        !encoded_ending(Ok(text)).result.is_error,
        encoded_ending(Ok(text)).error_line is None,
        encoded_ending(Err(text)) == failure("serialize result: "@ + text),
{
}

/// A text holds no error exactly where it is read as an object without a member `error`.
pub proof fn law_no_error_is_held(text: Seq<char>)
    ensures
        holds_no_error(text) <==> (parsed_json(text) matches Ok(document) && document matches
            JsonView::Object(members) && !members.contains_key("error"@)),
{
}

/// Where errors are told, the content is an object. It has a member `error` exactly where the
/// call is marked as an error and a line is logged; the member is then the only one, and holds
/// that line.
pub proof fn law_errors_are_told(ending: EndingView)
    requires
        tells_errors(ending),
    ensures
        parsed_json(ending.result.content_json) matches Ok(document) && document matches
            JsonView::Object(members) && {
            &&& ending.result.is_error <==> members.contains_key("error"@)
            &&& ending.result.is_error <==> ending.error_line is Some
            &&& ending.error_line matches Some(line) ==> members.dom() == set!["error"@]
                && members["error"@] == JsonView::Str(line)
        },
{
    if let Some(line) = ending.error_line {
        law_failures_carry_their_message(line);
    }
}

/// The two tools are listed, the search first. The schema of its arguments gives the names of the
/// providers, the limits of the count and what holds where they are left out.
pub proof fn law_two_tools_are_listed()
    ensures
        tools() == seq![
            ToolView {
                name: "web_search"@,
                label: "Web Search"@,
                description: "Search the live web via Exa / Tavily / SearXNG / AnySearch. Returns title / url / snippet for each hit. Set provider to 'exa' (needs EXA_API_KEY), 'tavily' (needs TAVILY_API_KEY), or 'searxng' (self-hosted, needs SEARXNG_BASE_URL), or 'anysearch' (cloud, optional ANYSEARCH_API_KEY). Defaults to 'exa' when provider is omitted."@,
                parameters_json: r#"{
  "type": "object",
  "properties": {
    "query": {
      "type": "string",
      "description": "Natural-language search query."
    },
    "provider": {
      "type": "string",
      "enum": ["exa", "tavily", "searxng", "anysearch"],
      "default": "exa",
      "description": "Search provider: exa (cloud, needs EXA_API_KEY), tavily (cloud, needs TAVILY_API_KEY), searxng (self-hosted, needs SEARXNG_BASE_URL), anysearch (cloud, optional ANYSEARCH_API_KEY)."
    },
    "num_results": {
      "type": "integer",
      "minimum": 1,
      "maximum": 20,
      "default": 5,
      "description": "How many results to return (1-20)."
    }
  },
  "required": ["query"]
}"#@,
            },
            ToolView {
                name: "web_fetch"@,
                label: "Fetch URL"@,
                description: "HTTP GET an arbitrary URL and return its body (truncated to 16 KiB for safety). Useful for following links returned by `web_search`."@,
                parameters_json: r#"{
  "type": "object",
  "properties": {
    "url": {
      "type": "string",
      "description": "Absolute HTTP(S) URL to fetch."
    }
  },
  "required": ["url"]
}"#@,
            },
        ],
{
}

} // verus!
