//! What holds of the requests that the search providers are sent.

use crate::codec::{json_text, reads_as};
use crate::http::RequestView;
use crate::json::JsonView;
use crate::plugin::{variable_step, SearchView, StepView};
use crate::providers::Provider;
use crate::search::{
    anysearch_payload, anysearch_request, count_view, exa_payload, exa_request, given,
    searxng_request, tavily_payload, tavily_request,
};
use crate::text::{debug_text, decimal};
use crate::text_laws::{
    law_decimal_is_injective, law_encoded_text_reads_back, law_trailing_slashes_alone_are_removed,
};
use crate::urls::{law_encoding_is_injective, percent_decoded, percent_encoded, url_encoded};
use vstd::prelude::*;
use vstd::utf8::*;

verus! {

/// As many results are asked for as are wanted: five where the caller does not say, one where
/// none is wanted, and twenty where more are.
pub proof fn law_wanted_count(num_results: Option<u32>)
    ensures
        num_results is None ==> count_view(num_results) == 5,
        num_results matches Some(k) ==> {
            &&& k == 0 ==> count_view(num_results) == 1
            &&& 1 <= k <= 20 ==> count_view(num_results) == k
            &&& k > 20 ==> count_view(num_results) == 20
        },
{
}

/// An empty setting is none.
pub proof fn law_empty_setting_is_none(setting: Option<Seq<char>>)
    ensures
        given(setting) is Some <==> setting is Some && setting->0.len() > 0,
        given(setting) is Some ==> given(setting) == setting,
{
}

/// The names of members differ.
proof fn lemma_member_names()
    ensures
        "query"@ != "numResults"@,
        "query"@ != "type"@,
        "query"@ != "contents"@,
        "numResults"@ != "type"@,
        "numResults"@ != "contents"@,
        "type"@ != "contents"@,
        "query"@ != "search_depth"@,
        "query"@ != "max_results"@,
        "search_depth"@ != "max_results"@,
        "query"@ != "num_results"@,
{
    reveal_strlit("query");
    reveal_strlit("numResults");
    reveal_strlit("type");
    reveal_strlit("contents");
    reveal_strlit("search_depth");
    reveal_strlit("max_results");
    reveal_strlit("num_results");
    assert("query"@.len() == 5 && "numResults"@.len() == 10 && "type"@.len() == 4);
    assert("contents"@.len() == 8 && "search_depth"@.len() == 12);
    assert("max_results"@.len() == 11 && "num_results"@.len() == 11);
}

/// Exa is sent an object by POST that holds the whole query under `query`, the wanted count in
/// decimal digits under `numResults`, `auto` under `type`, and under `contents` that two
/// sentences are to be highlighted. It has no other member. The key stands in `x-api-key`.
pub proof fn law_exa_is_sent(
    query: Seq<char>,
    num_results: Option<u32>,
    key: Seq<char>,
    wanted: nat,
)
    requires
        key.len() > 0,
        num_results is None ==> wanted == 5,
        num_results matches Some(k) ==> wanted == (if k < 1 {
            1
        } else if k > 20 {
            20
        } else {
            k as int
        }),
    ensures
        exa_request(query, num_results, Some(key)) matches Ok(request) && request matches
            RequestView::Post { url, headers, body } && {
            &&& url == "https://api.exa.ai/search"@
            &&& headers == seq![("Content-Type"@, "application/json"@), ("x-api-key"@, key)]
            &&& exists|members: Map<Seq<char>, JsonView>| body == #[trigger] json_text(
                JsonView::Object(members),
            ) && {
                &&& members.dom() == set!["query"@, "numResults"@, "type"@, "contents"@]
                &&& members["query"@] == JsonView::Str(query)
                &&& members["numResults"@] == JsonView::Number(decimal(wanted))
                &&& members["type"@] == JsonView::Str("auto"@)
                &&& members["contents"@] matches JsonView::Object(contents) && {
                    &&& contents.dom() == set!["highlights"@]
                    &&& contents["highlights"@] matches JsonView::Object(highlights) && {
                        &&& highlights.dom() == set!["numSentences"@]
                        &&& highlights["numSentences"@] == JsonView::Number(decimal(2))
                    }
                }
            }
        },
{
    lemma_member_names();
    let payload = exa_payload(query, count_view(num_results));
    let members = payload->Object_0;
    assert(members.dom() =~= set!["query"@, "numResults"@, "type"@, "contents"@]);
    let contents = members["contents"@]->Object_0;
    assert(contents.dom() =~= set!["highlights"@]);
    let highlights = contents["highlights"@]->Object_0;
    assert(highlights.dom() =~= set!["numSentences"@]);
    assert(JsonView::Object(members) == payload);
    assert(exa_request(query, num_results, Some(key))->Ok_0->body == json_text(
        JsonView::Object(members),
    ));
}

/// Tavily is sent an object by POST that holds the whole query under `query`, `basic` under
/// `search_depth` and the wanted count in decimal digits under `max_results`. It has no other
/// member. The key stands behind `Bearer ` in `Authorization`.
pub proof fn law_tavily_is_sent(
    query: Seq<char>,
    num_results: Option<u32>,
    key: Seq<char>,
    wanted: nat,
)
    requires
        key.len() > 0,
        num_results is None ==> wanted == 5,
        num_results matches Some(k) ==> wanted == (if k < 1 {
            1
        } else if k > 20 {
            20
        } else {
            k as int
        }),
    ensures
        tavily_request(query, num_results, Some(key)) matches Ok(request) && request matches
            RequestView::Post { url, headers, body } && {
            &&& url == "https://api.tavily.com/search"@
            &&& headers == seq![
                ("Content-Type"@, "application/json"@),
                ("Authorization"@, "Bearer "@ + key),
            ]
            &&& exists|members: Map<Seq<char>, JsonView>| body == #[trigger] json_text(
                JsonView::Object(members),
            ) && {
                &&& members.dom() == set!["query"@, "search_depth"@, "max_results"@]
                &&& members["query"@] == JsonView::Str(query)
                &&& members["search_depth"@] == JsonView::Str("basic"@)
                &&& members["max_results"@] == JsonView::Number(decimal(wanted))
            }
        },
{
    lemma_member_names();
    let members = tavily_payload(query, count_view(num_results))->Object_0;
    assert(members.dom() =~= set!["query"@, "search_depth"@, "max_results"@]);
    assert(tavily_request(query, num_results, Some(key))->Ok_0->body == json_text(
        JsonView::Object(members),
    ));
}

/// AnySearch is sent an object by POST that holds the whole query under `query` and the wanted
/// count in decimal digits under `num_results`. It has no other member. A key stands in
/// `x-api-key`; without one there is no such header.
pub proof fn law_anysearch_is_sent(
    query: Seq<char>,
    num_results: Option<u32>,
    setting: Option<Seq<char>>,
    wanted: nat,
)
    requires
        num_results is None ==> wanted == 5,
        num_results matches Some(k) ==> wanted == (if k < 1 {
            1
        } else if k > 20 {
            20
        } else {
            k as int
        }),
    ensures
        anysearch_request(query, num_results, setting) matches RequestView::Post {
            url,
            headers,
            body,
        } && {
            &&& url == "https://api.anysearch.com/search"@
            &&& setting is None || setting->0.len() == 0 ==> headers == seq![
                ("Content-Type"@, "application/json"@),
            ]
            &&& setting is Some && setting->0.len() > 0 ==> headers == seq![
                ("Content-Type"@, "application/json"@),
                ("x-api-key"@, setting->0),
            ]
            &&& exists|members: Map<Seq<char>, JsonView>| body == #[trigger] json_text(
                JsonView::Object(members),
            ) && {
                &&& members.dom() == set!["query"@, "num_results"@]
                &&& members["query"@] == JsonView::Str(query)
                &&& members["num_results"@] == JsonView::Number(decimal(wanted))
            }
        },
{
    lemma_member_names();
    let members = anysearch_payload(query, count_view(num_results))->Object_0;
    assert(members.dom() =~= set!["query"@, "num_results"@]);
    assert(anysearch_request(query, num_results, setting)->body == json_text(
        JsonView::Object(members),
    ));
}

/// A SearXNG server is sent a GET whose URL is its address without the slashes at the end, a
/// fixed text, the encoded query and a fixed text. The whole query can be read back from what
/// stands for it.
pub proof fn law_searxng_is_sent(query: Seq<char>, base: Seq<char>)
    requires
        base.len() > 0,
    ensures
        searxng_request(query, Some(base)) matches Ok(request) && request matches
            RequestView::Get { url, headers } && {
            &&& headers == seq![("User-Agent"@, "grain-web-search-plugin/0.1"@)]
            &&& exists|address: Seq<char>, slashes: Seq<char>, encoded: Seq<char>|
                {
                    &&& url == #[trigger] (address + "/search?q="@ + encoded
                        + "&format=json&categories=general"@)
                    &&& base == #[trigger] (address + slashes)
                    &&& address.len() > 0 ==> address.last() != '/'
                    &&& forall|i: int| 0 <= i < slashes.len() ==> #[trigger] slashes[i] == '/'
                    &&& encoded == percent_encoded(encode_utf8(query))
                    &&& percent_decoded(encoded) == encode_utf8(query)
                    &&& decode_utf8(percent_decoded(encoded)) == query
                }
        },
{
    law_trailing_slashes_alone_are_removed(base);
    law_encoded_text_reads_back(query);
    let address = crate::text::without_trailing_slashes(base);
    let slashes = base.skip(address.len() as int);
    let encoded = url_encoded(query);
    assert(base =~= address + slashes);
    let url = searxng_request(query, Some(base))->Ok_0->Get_url;
    assert(url == address + "/search?q="@ + encoded + "&format=json&categories=general"@);
}

/// With one address, the requests to a SearXNG server for two queries differ.
pub proof fn law_searxng_tells_queries_apart(a: Seq<char>, b: Seq<char>, base: Seq<char>)
    requires
        base.len() > 0,
        a != b,
    ensures
        searxng_request(a, Some(base)) != searxng_request(b, Some(base)),
{
    if searxng_request(a, Some(base)) == searxng_request(b, Some(base)) {
        let before = crate::text::without_trailing_slashes(base) + "/search?q="@;
        let after = "&format=json&categories=general"@;
        let url_a = before + url_encoded(a) + after;
        let url_b = before + url_encoded(b) + after;
        assert(url_a == searxng_request(a, Some(base))->Ok_0->Get_url);
        assert(url_b == searxng_request(b, Some(base))->Ok_0->Get_url);
        let from = before.len() as int;
        assert(url_a.len() == url_b.len());
        assert(url_encoded(a) =~= url_a.subrange(from, url_a.len() - after.len()));
        assert(url_encoded(b) =~= url_b.subrange(from, url_b.len() - after.len()));
        law_encoding_is_injective(a, b);
    }
}

/// A text that is read as the body for one query and count, and as the body for another, is
/// the body for one and the same query and count: the bodies of two requests that want
/// different things differ.
pub proof fn law_bodies_tell_wishes_apart(
    body: Seq<char>,
    query_a: Seq<char>,
    a: u32,
    query_b: Seq<char>,
    b: u32,
)
    requires
        (reads_as(body, exa_payload(query_a, a)) && reads_as(body, exa_payload(query_b, b))) || (
        reads_as(body, tavily_payload(query_a, a)) && reads_as(body, tavily_payload(query_b, b)))
            || (reads_as(body, anysearch_payload(query_a, a)) && reads_as(
            body,
            anysearch_payload(query_b, b),
        )),
    ensures
        query_a == query_b,
        a == b,
{
    lemma_member_names();
    let document = crate::codec::parsed_json(body)->Ok_0;
    let members = document->Object_0;
    if document == exa_payload(query_a, a) && document == exa_payload(query_b, b) {
        assert(members["query"@] == JsonView::Str(query_a));
        assert(members["query"@] == JsonView::Str(query_b));
        assert(members["numResults"@] == JsonView::Number(decimal(a as nat)));
        assert(members["numResults"@] == JsonView::Number(decimal(b as nat)));
    } else if document == tavily_payload(query_a, a) && document == tavily_payload(query_b, b) {
        assert(members["query"@] == JsonView::Str(query_a));
        assert(members["query"@] == JsonView::Str(query_b));
        assert(members["max_results"@] == JsonView::Number(decimal(a as nat)));
        assert(members["max_results"@] == JsonView::Number(decimal(b as nat)));
    } else {
        assert(members["query"@] == JsonView::Str(query_a));
        assert(members["query"@] == JsonView::Str(query_b));
        assert(members["num_results"@] == JsonView::Number(decimal(a as nat)));
        assert(members["num_results"@] == JsonView::Number(decimal(b as nat)));
    }
    law_decimal_is_injective(a as nat, b as nat);
}

/// The bodies of requests that want different counts between one and twenty differ, whatever the
/// provider that takes a count.
pub proof fn law_bodies_tell_counts_apart(
    query: Seq<char>,
    a: u32,
    b: u32,
    body_a: Seq<char>,
    body_b: Seq<char>,
)
    requires
        1 <= a <= 20,
        1 <= b <= 20,
        a != b,
        (reads_as(body_a, exa_payload(query, count_view(Some(a)))) && reads_as(
            body_b,
            exa_payload(query, count_view(Some(b))),
        )) || (reads_as(body_a, tavily_payload(query, count_view(Some(a)))) && reads_as(
            body_b,
            tavily_payload(query, count_view(Some(b))),
        )) || (reads_as(body_a, anysearch_payload(query, count_view(Some(a)))) && reads_as(
            body_b,
            anysearch_payload(query, count_view(Some(b))),
        )),
    ensures
        body_a != body_b,
{
    if body_a == body_b {
        law_bodies_tell_wishes_apart(body_a, query, count_view(Some(a)), query, count_view(Some(b)));
    }
}

/// Without its setting a provider is not asked, and the message names the variable; only
/// AnySearch can do without.
pub proof fn law_missing_setting(search: SearchView, setting: Option<Seq<char>>)
    requires
        setting is None || setting->0.len() == 0,
    ensures
        search.provider is Exa ==> variable_step(search, setting) == (StepView::Fail {
            message: "EXA_API_KEY not set in host environment"@,
        }),
        search.provider is Tavily ==> variable_step(search, setting) == (StepView::Fail {
            message: "TAVILY_API_KEY not set in host environment"@,
        }),
        search.provider is Searxng ==> variable_step(search, setting) == (StepView::Fail {
            message: "SEARXNG_BASE_URL not set in host environment"@,
        }),
        search.provider is Anysearch ==> variable_step(search, setting) is SendSearch,
{
}

/// With its setting a provider is sent its own request for the search as it was given. The line
/// that announces it names the provider, the quoted query and the wanted count.
pub proof fn law_setting_leads_to_the_request(
    search: SearchView,
    setting: Option<Seq<char>>,
    wanted: nat,
)
    requires
        search.provider is Anysearch || (setting is Some && setting->0.len() > 0),
        search.num_results is None ==> wanted == 5,
        search.num_results matches Some(k) ==> wanted == (if k < 1 {
            1
        } else if k > 20 {
            20
        } else {
            k as int
        }),
    ensures
        variable_step(search, setting) matches StepView::SendSearch {
            search: kept,
            line,
            request,
        } && {
            &&& kept == search
            &&& line == (match search.provider {
                Provider::Exa => "exa"@,
                Provider::Tavily => "tavily"@,
                Provider::Searxng => "searxng"@,
                Provider::Anysearch => "anysearch"@,
            }) + " search: q="@ + debug_text(search.query) + " n="@ + decimal(wanted)
            &&& search.provider is Exa ==> exa_request(search.query, search.num_results, setting)
                == Ok::<RequestView, Seq<char>>(request)
            &&& search.provider is Tavily ==> tavily_request(
                search.query,
                search.num_results,
                setting,
            ) == Ok::<RequestView, Seq<char>>(request)
            &&& search.provider is Searxng ==> searxng_request(search.query, setting) == Ok::<
                RequestView,
                Seq<char>,
            >(request)
            &&& search.provider is Anysearch ==> anysearch_request(
                search.query,
                search.num_results,
                setting,
            ) == request
        },
{
}

} // verus!
