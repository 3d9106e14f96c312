//! What holds of the library as a whole.

use crate::codec::{parsed_json, reads_as};
use crate::fetch::{
    fetch_document, fetch_outcome, fetch_request, is_web_url, FetchView, FETCH_BODY_MAX_BYTES,
};
use crate::http::{RequestView, ResponseView};
use crate::json::JsonView;
use crate::plugin::{
    encoded_ending, fetch_reply_step, fetch_step, first_step, holds_no_error, search_reply_step,
    search_request, search_step, tells_errors, variable_step, SearchView, StepView,
};
use crate::providers::{chosen, Provider};
use crate::results::{
    considered, hit, hits, is_success, reply_outcome, results_outcome, search_document, OutputView,
    ERROR_BODY_MAX_BYTES,
};
use crate::search::{
    count_view, given, search_line_view, searxng_request, MAX_RESULTS, MIN_RESULTS,
};
use crate::text::{
    decimal, fitting, head_view, last_stop, snippet, truncated, utf8_len, without_trailing_slashes,
    SNIPPET_MAX_BYTES, SNIPPET_MIN_BYTES,
};
use crate::tools::tools;
use vstd::prelude::*;
use vstd::utf8::*;

verus! {

/// Texts put together take as many bytes as they take on their own.
pub proof fn law_utf8_len_adds(a: Seq<char>, b: Seq<char>)
    ensures
        utf8_len(a + b) == utf8_len(a) + utf8_len(b),
    decreases a.len(),
{
    if a.len() == 0 {
        assert(a + b =~= b);
    } else {
        law_utf8_len_adds(a.drop_first(), b);
        assert((a + b).drop_first() =~= a.drop_first() + b);
        assert((a + b)[0] == a[0]);
    }
}

/// The kept head of a text is the longest of its prefixes that fits.
pub proof fn law_head_is_longest_fit(text: Seq<char>, max: nat)
    ensures
        head_view(text, max).is_prefix_of(text),
        head_view(text, max).len() == fitting(text, max),
        utf8_len(head_view(text, max)) <= max,
        forall|k: int|
            fitting(text, max) < k <= text.len() ==> utf8_len(#[trigger] text.take(k)) > max,
    decreases text.len(),
{
    let kept = head_view(text, max);
    if text.len() == 0 {
        assert(kept =~= Seq::empty());
    } else {
        let rest = text.drop_first();
        let width = encode_scalar(text[0] as u32).len();
        if width > max {
            assert(kept =~= Seq::empty());
            assert forall|k: int| 0 < k <= text.len() implies utf8_len(#[trigger] text.take(k))
                > max by {
                assert(text.take(k)[0] == text[0]);
            }
        } else {
            let rest_max = (max - width) as nat;
            law_head_is_longest_fit(rest, rest_max);
            assert(kept.drop_first() =~= head_view(rest, rest_max));
            assert(kept[0] == text[0]);
            assert forall|k: int| fitting(text, max) < k <= text.len() implies utf8_len(
                #[trigger] text.take(k),
            ) > max by {
                assert(text.take(k)[0] == text[0]);
                assert(text.take(k).drop_first() =~= rest.take(k - 1));
            }
        }
    }
}

/// The ellipsis takes three bytes.
proof fn lemma_ellipsis()
    ensures
        "…"@.len() == 1,
        utf8_len("…"@) == 3,
{
    reveal_strlit("…");
    reveal_with_fuel(encode_utf8, 2);
    assert("…"@[0] as u32 == 0x2026);
    assert("…"@.drop_first() =~= Seq::empty());
}

/// Truncating leaves a text alone where it fits, and else keeps its longest fitting prefix: the
/// result never takes more bytes than allowed and the ellipsis.
pub proof fn law_truncation_is_bounded(text: Seq<char>, max: nat)
    ensures
        utf8_len(truncated(text, max)) <= max + 3,
        utf8_len(text) <= max ==> truncated(text, max) == text,
        utf8_len(text) > max ==> {
            &&& truncated(text, max) == head_view(text, max) + "…"@
            &&& head_view(text, max).is_prefix_of(text)
            &&& head_view(text, max).len() < text.len()
        },
{
    law_head_is_longest_fit(text, max);
    lemma_ellipsis();
    law_utf8_len_adds(head_view(text, max), "…"@);
    if utf8_len(text) > max && head_view(text, max).len() == text.len() {
        assert(head_view(text, max) =~= text);
    }
}

/// The place of the last full stop is one, and no other stands behind it.
proof fn lemma_last_stop(text: Seq<char>)
    ensures
        match last_stop(text) {
            Some(stop) => {
                &&& 0 <= stop < text.len() - 1
                &&& text[stop] == '.'
                &&& text[stop + 1] == ' '
                &&& forall|i: int|
                    stop < i < text.len() - 1 ==> !(#[trigger] text[i] == '.' && text[i + 1] == ' ')
            },
            None => forall|i: int|
                0 <= i < text.len() - 1 ==> !(#[trigger] text[i] == '.' && text[i + 1] == ' '),
        },
    decreases text.len(),
{
    if text.len() >= 2 {
        let shorter = text.drop_last();
        lemma_last_stop(shorter);
        if !(text[text.len() - 2] == '.' && text[text.len() - 1] == ' ') {
            assert forall|i: int|
                (last_stop(text) matches Some(stop) ==> stop < i) && 0 <= i < text.len()
                    - 1 implies !(#[trigger] text[i] == '.' && text[i + 1] == ' ') by {
                if i < shorter.len() - 1 {
                    assert(shorter[i] == text[i] && shorter[i + 1] == text[i + 1]);
                }
            }
        }
    }
}

/// A snippet is the truncated text, or what stands before the space behind its last full stop
/// where that is more than a few words. It never takes more bytes than a preview may.
pub proof fn law_snippet_is_a_preview_or_sentence(text: Seq<char>)
    ensures
        snippet(text).is_prefix_of(truncated(text, SNIPPET_MAX_BYTES as nat)),
        utf8_len(snippet(text)) <= SNIPPET_MAX_BYTES + 3,
        snippet(text) != truncated(text, SNIPPET_MAX_BYTES as nat) ==> {
            &&& snippet(text).last() == '.'
            &&& utf8_len(snippet(text)) > SNIPPET_MIN_BYTES + 1
        },
{
    let preview = truncated(text, SNIPPET_MAX_BYTES as nat);
    law_truncation_is_bounded(text, SNIPPET_MAX_BYTES as nat);
    lemma_last_stop(preview);
    if let Some(stop) = last_stop(preview) {
        let sentence = preview.take(stop + 1);
        law_utf8_len_adds(sentence, preview.skip(stop + 1));
        assert(sentence + preview.skip(stop + 1) =~= preview);
        let dot = seq!['.'];
        assert(sentence =~= preview.take(stop) + dot);
        law_utf8_len_adds(preview.take(stop), dot);
        reveal_with_fuel(encode_utf8, 2);
        assert(dot.drop_first() =~= Seq::empty());
        assert(utf8_len(dot) == 1);
    }
}

/// A fetched body is a prefix of what the server sent, of at most 16 KiB, and is marked as
/// truncated exactly where something is missing.
pub proof fn law_fetched_body_is_bounded(url: Seq<char>, response: ResponseView)
    ensures
        fetch_outcome(url, Ok(response)) matches Ok(output) && {
            &&& output.url == url
            &&& output.status == response.status
            &&& output.body.is_prefix_of(response.body)
            &&& utf8_len(output.body) <= FETCH_BODY_MAX_BYTES
            &&& output.truncated <==> output.body != response.body
        },
{
    law_head_is_longest_fit(response.body, FETCH_BODY_MAX_BYTES as nat);
}

/// Between one and twenty results are asked for, and as many as wanted where that is in range.
pub proof fn law_count_is_clamped(num_results: Option<u32>)
    ensures
        MIN_RESULTS <= count_view(num_results) <= MAX_RESULTS,
        num_results matches Some(n) ==> MIN_RESULTS <= n <= MAX_RESULTS ==> count_view(
            num_results,
        ) == n,
        num_results is None ==> count_view(num_results) == 5,
{
}

/// The hits of two lists put together are the hits of the first and then those of the second:
/// each element is read on its own, and the order is kept.
pub proof fn law_hits_keep_order(provider: Provider, a: Seq<JsonView>, b: Seq<JsonView>)
    ensures
        hits(provider, a + b) == hits(provider, a) + hits(provider, b),
    decreases b.len(),
{
    if b.len() == 0 {
        assert(a + b =~= a);
        assert(hits(provider, a) + hits(provider, b) =~= hits(provider, a));
    } else {
        law_hits_keep_order(provider, a, b.drop_last());
        assert((a + b).drop_last() =~= a + b.drop_last());
        assert((a + b).last() == b.last());
        assert(hits(provider, a + b) =~= hits(provider, a) + hits(provider, b));
    }
}

/// There are never more hits than elements.
proof fn lemma_hits_len(provider: Provider, items: Seq<JsonView>)
    ensures
        hits(provider, items).len() <= items.len(),
    decreases items.len(),
{
    if items.len() > 0 {
        lemma_hits_len(provider, items.drop_last());
    }
}

/// Every hit stands for an element of the array, which has that title and that URL.
pub proof fn law_hits_come_from_elements(provider: Provider, items: Seq<JsonView>, i: int)
    requires
        0 <= i < hits(provider, items).len(),
    ensures
        exists|j: int|
            0 <= j < items.len() && #[trigger] hit(provider, items[j]) == Some(
                hits(provider, items)[i],
            ) && items[j].text_at("title"@) == Some(hits(provider, items)[i].title)
                && items[j].text_at("url"@) == Some(hits(provider, items)[i].url),
    decreases items.len(),
{
    let before = hits(provider, items.drop_last());
    if i < before.len() {
        law_hits_come_from_elements(provider, items.drop_last(), i);
        let j = choose|j: int|
            0 <= j < items.drop_last().len() && #[trigger] hit(provider, items.drop_last()[j])
                == Some(before[i]);
        assert(hit(provider, items[j]) == Some(hits(provider, items)[i]));
    } else {
        assert(hit(provider, items[items.len() - 1]) == Some(hits(provider, items)[i]));
    }
}

/// A search that succeeds repeats the query and the name of its provider, and lists no more hits
/// than the answer has elements and no more than are wanted, so never more than twenty.
pub proof fn law_results_are_limited(
    provider: Provider,
    query: Seq<char>,
    num_results: Option<u32>,
    document: JsonView,
)
    requires
        document.elements_at("results"@) is Some,
    ensures
        results_outcome(provider, query, num_results, Ok(document)) matches Ok(output) && {
            &&& output.query == query
            &&& output.provider == provider.name_view()
            &&& output.results.len() <= document.elements_at("results"@)->0.len()
            &&& output.results.len() <= count_view(num_results) <= MAX_RESULTS
        },
{
    let items = document.elements_at("results"@)->0;
    lemma_hits_len(provider, considered(items, count_view(num_results)));
}

/// Only Exa reports when something was published and by whom.
pub proof fn law_only_exa_has_dates_and_authors(provider: Provider, item: JsonView)
    ensures
        !(provider is Exa) ==> (hit(provider, item) matches Some(found) ==> found.published_date
            is None && found.author is None),
{
}

/// A status other than success fails a search, whatever the body says; the message names the
/// status and quotes no more of the body than allowed and the ellipsis.
pub proof fn law_failed_status_fails_the_search(
    provider: Provider,
    query: Seq<char>,
    num_results: Option<u32>,
    response: ResponseView,
)
    requires
        !is_success(response.status),
    ensures
        ({
            let quoted = truncated(response.body, ERROR_BODY_MAX_BYTES as nat);
            &&& utf8_len(quoted) <= ERROR_BODY_MAX_BYTES + 3
            &&& reply_outcome(provider, query, num_results, Ok(response)) matches Err(message)
                && message == provider.name_view() + " HTTP "@ + decimal(response.status as nat)
                + " — body: "@ + quoted
        }),
{
    law_truncation_is_bounded(response.body, ERROR_BODY_MAX_BYTES as nat);
}

/// The four names are four names.
proof fn lemma_names_differ()
    ensures
        "exa"@ != "tavily"@,
        "exa"@ != "searxng"@,
        "exa"@ != "anysearch"@,
        "tavily"@ != "searxng"@,
        "tavily"@ != "anysearch"@,
        "searxng"@ != "anysearch"@,
{
    reveal_strlit("exa");
    reveal_strlit("tavily");
    reveal_strlit("searxng");
    reveal_strlit("anysearch");
    assert("exa"@.len() == 3 && "tavily"@.len() == 6);
    assert("searxng"@.len() == 7 && "anysearch"@.len() == 9);
}

/// Every provider is chosen by its name, and no other name chooses one.
pub proof fn law_providers_are_chosen_by_name(name: Seq<char>, provider: Provider)
    ensures
        (chosen(Some(name)) matches Ok(choice) && choice == provider) <==> name
            == provider.name_view(),
{
    lemma_names_differ();
}

/// Without a name the choice is Exa.
pub proof fn law_exa_is_the_default()
    ensures
        chosen(None) matches Ok(Provider::Exa),
        chosen(None) == chosen(Some("exa"@)),
{
}

/// Exa, Tavily and SearXNG are not asked without their setting: the call fails with a message
/// that names the missing variable, and nothing is sent.
pub proof fn law_nothing_is_sent_without_setting(search: SearchView, setting: Option<Seq<char>>)
    requires
        !(search.provider is Anysearch),
        given(setting) is None,
    ensures
        variable_step(search, setting) == (StepView::Fail {
            message: search.provider.variable_view() + " not set in host environment"@,
        }),
{
    reveal_strlit(" not set in host environment");
    reveal_strlit("EXA_API_KEY");
    reveal_strlit("EXA_API_KEY not set in host environment");
    reveal_strlit("TAVILY_API_KEY");
    reveal_strlit("TAVILY_API_KEY not set in host environment");
    reveal_strlit("SEARXNG_BASE_URL");
    reveal_strlit("SEARXNG_BASE_URL not set in host environment");
    assert("EXA_API_KEY"@ + " not set in host environment"@
        =~= "EXA_API_KEY not set in host environment"@);
    assert("TAVILY_API_KEY"@ + " not set in host environment"@
        =~= "TAVILY_API_KEY not set in host environment"@);
    assert("SEARXNG_BASE_URL"@ + " not set in host environment"@
        =~= "SEARXNG_BASE_URL not set in host environment"@);
}

/// With a setting every provider is asked; AnySearch is asked without one too.
pub proof fn law_request_is_sent(search: SearchView, setting: Option<Seq<char>>)
    requires
        given(setting) is Some || search.provider is Anysearch,
    ensures
        search_request(search, setting) is Ok,
        variable_step(search, setting) == (StepView::SendSearch {
            search,
            line: search_line_view(search.provider, search.query, search.num_results),
            request: search_request(search, setting)->Ok_0,
        }),
{
}

/// Whether two requests are the same but for the value of their last header.
pub open spec fn same_but_for_last_header(a: RequestView, b: RequestView) -> bool {
    match (a, b) {
        (
            RequestView::Post { url: url_a, headers: headers_a, body: body_a },
            RequestView::Post { url: url_b, headers: headers_b, body: body_b },
        ) => {
            &&& url_a == url_b
            &&& body_a == body_b
            &&& headers_a.len() > 0
            &&& headers_a.len() == headers_b.len()
            &&& headers_a.drop_last() == headers_b.drop_last()
            &&& headers_a.last().0 == headers_b.last().0
        },
        _ => false,
    }
}

/// The key of Exa, Tavily or AnySearch reaches nothing but one header of the request: with two
/// keys the requests are the same but for that header's value, the same line is logged, and the
/// same reply leads to the same step, with its outcome or its error line.
pub proof fn law_key_reaches_one_header_only(
    search: SearchView,
    key_a: Seq<char>,
    key_b: Seq<char>,
    reply: Result<ResponseView, Seq<char>>,
)
    requires
        !(search.provider is Searxng),
        key_a.len() > 0,
        key_b.len() > 0,
    ensures
        match (variable_step(search, Some(key_a)), variable_step(search, Some(key_b))) {
            (
                StepView::SendSearch { search: search_a, line: line_a, request: request_a },
                StepView::SendSearch { search: search_b, line: line_b, request: request_b },
            ) => {
                &&& line_a == line_b
                &&& same_but_for_last_header(request_a, request_b)
                &&& search_reply_step(search_a, reply) == search_reply_step(search_b, reply)
            },
            _ => false,
        },
{
    let request_a = search_request(search, Some(key_a))->Ok_0;
    let request_b = search_request(search, Some(key_b))->Ok_0;
    assert(request_a->Post_headers.drop_last() =~= request_b->Post_headers.drop_last());
}

/// Slashes at the end of a SearXNG address make no difference.
pub proof fn law_trailing_slash_makes_no_difference(query: Seq<char>, base: Seq<char>)
    requires
        base.len() > 0,
    ensures
        searxng_request(query, Some(base.push('/'))) == searxng_request(query, Some(base)),
        !(without_trailing_slashes(base).len() > 0 && without_trailing_slashes(base).last()
            == '/'),
{
    assert(base.push('/').drop_last() =~= base);
    lemma_no_slash_at_end(base);
}

/// What is left of an address has no slash at its end.
proof fn lemma_no_slash_at_end(base: Seq<char>)
    ensures
        !(without_trailing_slashes(base).len() > 0 && without_trailing_slashes(base).last()
            == '/'),
        without_trailing_slashes(base).is_prefix_of(base),
    decreases base.len(),
{
    if base.len() > 0 && base.last() == '/' {
        lemma_no_slash_at_end(base.drop_last());
    }
}

/// A page is asked for exactly where its URL is a web address, and then under that very URL.
pub proof fn law_only_web_urls_are_fetched(url: Seq<char>)
    ensures
        fetch_step(url) is SendFetch <==> is_web_url(url),
        fetch_step(url) matches StepView::SendFetch { url: asked, request, .. } ==> asked == url && (
        request matches RequestView::Get { url: sent, .. } && sent == url),
        !is_web_url(url) ==> fetch_step(url) == (StepView::Fail {
            message: "url must start with http:// or https://"@,
        }),
{
}

/// The tools that can be called are the tools that are listed.
pub proof fn law_listed_tools_are_callable(name: Seq<char>, args_json: Seq<char>)
    ensures
        !(first_step(name, args_json) is Fail) <==> exists|i: int|
            0 <= i < tools().len() && #[trigger] tools()[i].name == name,
{
    assert(tools()[0].name == "web_search"@);
    assert(tools()[1].name == "web_fetch"@);
}

/// A result is an error, and a line is logged, exactly where the outcome could not be encoded.
pub proof fn law_encoded_outcomes_are_no_errors(encoded: Result<Seq<char>, Seq<char>>)
    ensures
        encoded_ending(encoded).result.is_error <==> encoded is Err,
        encoded_ending(encoded).error_line is Some <==> encoded is Err,
{
}

/// Outcomes hold no `error`: what is encoded as the document of a search or of a fetch cannot be
/// taken for a failure.
pub proof fn law_outcomes_hold_no_error(text: Seq<char>, found: OutputView, page: FetchView)
    requires
        reads_as(text, search_document(found)) || reads_as(text, fetch_document(page)),
    ensures
        holds_no_error(text),
        tells_errors(encoded_ending(Ok(text))),
{
    reveal_strlit("error");
    reveal_strlit("query");
    reveal_strlit("results");
    reveal_strlit("provider");
    reveal_strlit("url");
    reveal_strlit("status");
    reveal_strlit("body");
    reveal_strlit("truncated");
    assert("error"@.len() == 5 && "error"@[0] == 'e');
    assert("query"@[0] == 'q' && "results"@.len() == 7 && "provider"@.len() == 8);
    assert("url"@.len() == 3 && "status"@.len() == 6);
    assert("body"@.len() == 4 && "truncated"@.len() == 9);
}

/// How far a call has come.
pub open spec fn phase(step: StepView) -> int {
    match step {
        StepView::ParseSearchArgs { .. } | StepView::ParseFetchArgs { .. } => 0,
        StepView::ReadVariable { .. } => 1,
        StepView::SendSearch { .. } | StepView::SendFetch { .. } => 2,
        _ => 3,
    }
}

/// Every step leads further: a call looks up at most one variable, sends at most one request
/// and always comes to an end.
pub proof fn law_steps_advance(
    name: Seq<char>,
    args_json: Seq<char>,
    query: Seq<char>,
    provider: Option<Seq<char>>,
    num_results: Option<u32>,
    search: SearchView,
    setting: Option<Seq<char>>,
    url: Seq<char>,
    reply: Result<ResponseView, Seq<char>>,
)
    ensures
        phase(first_step(name, args_json)) == 0 || first_step(name, args_json) is Fail,
        phase(search_step(query, provider, num_results)) == 1 || search_step(
            query,
            provider,
            num_results,
        ) is Fail,
        phase(variable_step(search, setting)) == 2 || variable_step(search, setting) is Fail,
        phase(search_reply_step(search, reply)) == 3,
        phase(fetch_step(url)) == 2 || fetch_step(url) is Fail,
        phase(fetch_reply_step(url, reply)) == 3,
{
}

/// What a search comes to, given the setting of its provider and the reply to its request.
pub open spec fn search_outcome(
    query: Seq<char>,
    provider: Option<Seq<char>>,
    num_results: Option<u32>,
    setting: Option<Seq<char>>,
    reply: Result<ResponseView, Seq<char>>,
) -> Result<OutputView, Seq<char>> {
    match chosen(provider) {
        Ok(choice) => match search_request(
            SearchView { provider: choice, query, requested: provider, num_results },
            setting,
        ) {
            Ok(_) => reply_outcome(choice, query, num_results, reply),
            Err(message) => Err(message),
        },
        Err(message) => Err(message),
    }
}

/// A search that is led through its steps comes to its outcome.
pub proof fn law_search_comes_to_its_outcome(
    query: Seq<char>,
    provider: Option<Seq<char>>,
    num_results: Option<u32>,
    setting: Option<Seq<char>>,
    reply: Result<ResponseView, Seq<char>>,
)
    ensures
        ({
            let begun = search_step(query, provider, num_results);
            let asked = match begun {
                StepView::ReadVariable { search } => variable_step(search, setting),
                other => other,
            };
            let answered = match asked {
                StepView::SendSearch { search, .. } => search_reply_step(search, reply),
                other => other,
            };
            match search_outcome(query, provider, num_results, setting, reply) {
                Ok(output) => answered == (StepView::EncodeSearch { found: output }),
                Err(message) => answered == (StepView::Fail { message }),
            }
        }),
{
}

/// Whichever provider is asked and whatever it answers, a search lists no more hits than are
/// wanted.
pub proof fn law_search_lists_no_more_than_wanted(
    query: Seq<char>,
    provider: Option<Seq<char>>,
    num_results: Option<u32>,
    setting: Option<Seq<char>>,
    reply: Result<ResponseView, Seq<char>>,
)
    ensures
        search_outcome(query, provider, num_results, setting, reply) matches Ok(output)
            ==> output.results.len() <= count_view(num_results) <= MAX_RESULTS,
{
    if let (Ok(choice), Ok(response)) = (chosen(provider), reply) {
        if let Ok(document) = parsed_json(response.body) {
            if document.elements_at("results"@) is Some {
                law_results_are_limited(choice, query, num_results, document);
            }
        }
    }
}

/// A fetch that is led through its steps fails where its URL is refused, and else comes to its
/// outcome.
pub proof fn law_fetch_comes_to_its_outcome(
    url: Seq<char>,
    reply: Result<ResponseView, Seq<char>>,
)
    ensures
        ({
            let answered = match fetch_step(url) {
                StepView::SendFetch { url, .. } => fetch_reply_step(url, reply),
                other => other,
            };
            match (fetch_request(url), fetch_outcome(url, reply)) {
                (Ok(_), Ok(page)) => answered == (StepView::EncodeFetch { page }),
                (Ok(_), Err(message)) => answered == (StepView::Fail { message }),
                (Err(message), _) => answered == (StepView::Fail { message }),
            }
        }),
{
}

} // verus!
