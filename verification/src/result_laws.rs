//! What holds of the hits that are made of a provider's answer.

use crate::codec::parsed_json;
use crate::http::ResponseView;
use crate::json::JsonView;
use crate::laws::law_hits_keep_order;
use crate::plugin::{search_reply_step, SearchView, StepView};
use crate::providers::Provider;
use crate::results::{
    considered, hit, hits, item_document, reply_outcome, results_outcome, search_document, ItemView,
    OutputView,
};
use crate::search::count_view;
use crate::text::{decimal, snippet, truncated};
use vstd::prelude::*;

verus! {

/// An element of a `results` array is a hit exactly where it is an object whose `title` and
/// `url` are strings. The hit has these as its title and its URL.
pub proof fn law_titled_elements_are_hits(provider: Provider, item: JsonView)
    ensures
        hit(provider, item) is Some <==> (item matches JsonView::Object(members) && {
            &&& members.contains_key("title"@)
            &&& members["title"@] is Str
            &&& members.contains_key("url"@)
            &&& members["url"@] is Str
        }),
        hit(provider, item) matches Some(found) ==> {
            &&& JsonView::Str(found.title) == item->Object_0["title"@]
            &&& JsonView::Str(found.url) == item->Object_0["url"@]
        },
{
}

/// The date and the author of an Exa hit are its `publishedDate` and `author` where these are
/// strings; a hit of another provider has neither.
pub proof fn law_dates_and_authors(provider: Provider, item: JsonView, found: ItemView)
    requires
        hit(provider, item) == Some(found),
    ensures
        item matches JsonView::Object(members) && {
            &&& found.published_date is Some <==> provider is Exa && members.contains_key(
                "publishedDate"@,
            ) && members["publishedDate"@] is Str
            &&& found.published_date matches Some(date) ==> members["publishedDate"@]
                == JsonView::Str(date)
            &&& found.author is Some <==> provider is Exa && members.contains_key("author"@)
                && members["author"@] is Str
            &&& found.author matches Some(author) ==> members["author"@] == JsonView::Str(author)
        },
{
}

/// The snippet of an Exa hit is the first of its `highlights` as it stands, where that is a
/// string; otherwise the snippet of its `text`, where that is a string; otherwise there is none.
pub proof fn law_exa_snippet(members: Map<Seq<char>, JsonView>, found: ItemView)
    requires
        hit(Provider::Exa, JsonView::Object(members)) == Some(found),
    ensures
        ({
            let highlighted = members.contains_key("highlights"@) && members["highlights"@] is Array
                && members["highlights"@]->Array_0.len() > 0
                && members["highlights"@]->Array_0[0] is Str;
            let described = members.contains_key("text"@) && members["text"@] is Str;
            &&& highlighted ==> found.snippet == Some(members["highlights"@]->Array_0[0]->Str_0)
            &&& !highlighted && described ==> found.snippet == Some(
                snippet(members["text"@]->Str_0),
            )
            &&& !highlighted && !described ==> found.snippet is None
        }),
{
}

/// The snippet of a Tavily hit is that of its `content`, where this is a string.
pub proof fn law_tavily_snippet(members: Map<Seq<char>, JsonView>, found: ItemView)
    requires
        hit(Provider::Tavily, JsonView::Object(members)) == Some(found),
    ensures
        ({
            let described = members.contains_key("content"@) && members["content"@] is Str;
            &&& described ==> found.snippet == Some(snippet(members["content"@]->Str_0))
            &&& !described ==> found.snippet is None
        }),
{
}

/// The snippet of a SearXNG hit is that of its `content`, where this is a string; otherwise that
/// of its `snippet`, where this is a string.
pub proof fn law_searxng_snippet(members: Map<Seq<char>, JsonView>, found: ItemView)
    requires
        hit(Provider::Searxng, JsonView::Object(members)) == Some(found),
    ensures
        ({
            let described = members.contains_key("content"@) && members["content"@] is Str;
            let cut = members.contains_key("snippet"@) && members["snippet"@] is Str;
            &&& described ==> found.snippet == Some(snippet(members["content"@]->Str_0))
            &&& !described && cut ==> found.snippet == Some(snippet(members["snippet"@]->Str_0))
            &&& !described && !cut ==> found.snippet is None
        }),
{
}

/// The snippet of an AnySearch hit is that of its `snippet`; where it has no such member, that
/// of its `content`. Where the one that counts is no string there is none.
pub proof fn law_anysearch_snippet(members: Map<Seq<char>, JsonView>, found: ItemView)
    requires
        hit(Provider::Anysearch, JsonView::Object(members)) == Some(found),
    ensures
        members.contains_key("snippet"@) && members["snippet"@] is Str ==> found.snippet == Some(
            snippet(members["snippet"@]->Str_0),
        ),
        members.contains_key("snippet"@) && members["snippet"@] !is Str ==> found.snippet is None,
        !members.contains_key("snippet"@) && members.contains_key("content"@)
            && members["content"@] is Str ==> found.snippet == Some(
            snippet(members["content"@]->Str_0),
        ),
        !members.contains_key("snippet"@) && !(members.contains_key("content"@)
            && members["content"@] is Str) ==> found.snippet is None,
{
}

/// Elements are read one by one: a list of one element gives its hit or nothing, and what two
/// lists give in turn is what they give as one.
pub proof fn law_elements_are_read_one_by_one(
    provider: Provider,
    item: JsonView,
    a: Seq<JsonView>,
    b: Seq<JsonView>,
)
    ensures
        hits(provider, Seq::empty()) == Seq::<ItemView>::empty(),
        hit(provider, item) matches Some(found) ==> hits(provider, seq![item]) == seq![found],
        hit(provider, item) is None ==> hits(provider, seq![item]) == Seq::<ItemView>::empty(),
        hits(provider, a + b) == hits(provider, a) + hits(provider, b),
{
    reveal_with_fuel(hits, 2);
    assert(seq![item].drop_last() =~= Seq::empty());
    if let Some(found) = hit(provider, item) {
        assert(hits(provider, seq![item]) =~= seq![found]);
    }
    law_hits_keep_order(provider, a, b);
}

/// Of a list of elements as many count as are wanted, from the first, or all where these are
/// fewer.
pub proof fn law_first_elements_count(items: Seq<JsonView>, n: u32)
    ensures
        considered(items, n).is_prefix_of(items),
        considered(items, n).len() == if items.len() <= n {
            items.len() as int
        } else {
            n as int
        },
{
}

/// The document of a hit holds its title and its URL, and of its date, author and snippet what
/// is known.
pub proof fn law_hit_document(item: ItemView)
    ensures
        item_document(item) matches JsonView::Object(members) && {
            &&& members.contains_key("title"@) && members["title"@] == JsonView::Str(item.title)
            &&& members.contains_key("url"@) && members["url"@] == JsonView::Str(item.url)
            &&& members.contains_key("published_date"@) <==> item.published_date is Some
            &&& item.published_date matches Some(date) ==> members["published_date"@]
                == JsonView::Str(date)
            &&& members.contains_key("author"@) <==> item.author is Some
            &&& item.author matches Some(author) ==> members["author"@] == JsonView::Str(author)
            &&& members.contains_key("snippet"@) <==> item.snippet is Some
            &&& item.snippet matches Some(text) ==> members["snippet"@] == JsonView::Str(text)
            &&& forall|key: Seq<char>| #[trigger]
                members.contains_key(key) ==> key == "title"@ || key == "url"@ || key
                    == "published_date"@ || key == "author"@ || key == "snippet"@
        },
{
    reveal_strlit("title");
    reveal_strlit("url");
    reveal_strlit("published_date");
    reveal_strlit("author");
    reveal_strlit("snippet");
    assert("title"@.len() == 5 && "url"@.len() == 3 && "published_date"@.len() == 14);
    assert("author"@.len() == 6 && "snippet"@.len() == 7);
}

/// The document of a search's outcome holds the query, the name of the provider and the
/// documents of the hits in their order.
pub proof fn law_outcome_document(output: OutputView)
    ensures
        search_document(output) matches JsonView::Object(members) && {
            &&& members.dom() == set!["query"@, "results"@, "provider"@]
            &&& members["query"@] == JsonView::Str(output.query)
            &&& members["provider"@] == JsonView::Str(output.provider)
            &&& members["results"@] is Array
            &&& members["results"@]->Array_0.len() == output.results.len()
            &&& forall|i: int|
                0 <= i < output.results.len() ==> #[trigger] members["results"@]->Array_0[i]
                    == item_document(output.results[i])
        },
{
    reveal_strlit("query");
    reveal_strlit("results");
    reveal_strlit("provider");
    assert("query"@.len() == 5 && "results"@.len() == 7 && "provider"@.len() == 8);
    let members = search_document(output)->Object_0;
    assert(members.dom() =~= set!["query"@, "results"@, "provider"@]);
}

/// Where the hits of a list of elements come from: the places of those that are hits, in their
/// order.
proof fn lemma_places(provider: Provider, items: Seq<JsonView>) -> (places: Seq<int>)
    ensures
        places.len() == hits(provider, items).len(),
        forall|i: int|
            #![trigger places[i]]
            0 <= i < places.len() ==> 0 <= places[i] < items.len() && hit(
                provider,
                items[places[i]],
            ) == Some(hits(provider, items)[i]),
        forall|i: int, j: int| 0 <= i < j < places.len() ==> places[i] < places[j],
        forall|k: int|
            0 <= k < items.len() && hit(provider, #[trigger] items[k]) is Some ==> exists|i: int|
                0 <= i < places.len() && #[trigger] places[i] == k,
    decreases items.len(),
{
    if items.len() == 0 {
        Seq::empty()
    } else {
        let shorter = items.drop_last();
        let before = lemma_places(provider, shorter);
        let last = items.len() - 1;
        let places = if hit(provider, items.last()) is Some {
            before.push(last)
        } else {
            before
        };
        assert forall|i: int| #![trigger places[i]] 0 <= i < places.len() implies 0 <= places[i]
            < items.len() && hit(provider, items[places[i]]) == Some(
            hits(provider, items)[i],
        ) by {
            if i < before.len() {
                assert(places[i] == before[i]);
                assert(items[places[i]] == shorter[before[i]]);
            }
        }
        assert forall|k: int|
            0 <= k < items.len() && hit(provider, #[trigger] items[k]) is Some implies exists|
            i: int,
        | 0 <= i < places.len() && #[trigger] places[i] == k by {
            if k < last {
                assert(items[k] == shorter[k]);
                let i = choose|i: int| 0 <= i < before.len() && #[trigger] before[i] == k;
                assert(places[i] == k);
            } else {
                assert(places[before.len() as int] == k);
            }
        }
        places
    }
}

/// The results of a search are the elements of the `results` array that have a string as their
/// `title` and one as their `url`, in the order of the array: all of those among the first
/// elements, of which as many count as are wanted, and no others.
pub proof fn law_results_are_the_first_hits(
    provider: Provider,
    query: Seq<char>,
    num_results: Option<u32>,
    members: Map<Seq<char>, JsonView>,
    items: Seq<JsonView>,
    wanted: int,
)
    requires
        members.contains_key("results"@),
        members["results"@] == JsonView::Array(items),
        num_results is None ==> wanted == 5,
        num_results matches Some(k) ==> wanted == (if k < 1 {
            1
        } else if k > 20 {
            20
        } else {
            k as int
        }),
    ensures
        results_outcome(provider, query, num_results, Ok(JsonView::Object(members))) matches Ok(
            output,
        ) && {
            &&& output.query == query
            &&& output.provider == (match provider {
                Provider::Exa => "exa"@,
                Provider::Tavily => "tavily"@,
                Provider::Searxng => "searxng"@,
                Provider::Anysearch => "anysearch"@,
            })
            &&& exists|places: Seq<int>|
                {
                    &&& #[trigger] places.len() == output.results.len()
                    &&& forall|i: int|
                        #![trigger places[i]]
                        0 <= i < places.len() ==> {
                            &&& 0 <= places[i] < items.len()
                            &&& places[i] < wanted
                            &&& hit(provider, items[places[i]]) == Some(output.results[i])
                            &&& items[places[i]] is Object
                            &&& items[places[i]]->Object_0["title"@] == JsonView::Str(
                                output.results[i].title,
                            )
                            &&& items[places[i]]->Object_0["url"@] == JsonView::Str(
                                output.results[i].url,
                            )
                        }
                    &&& forall|i: int, j: int| 0 <= i < j < places.len() ==> places[i] < places[j]
                    &&& forall|k: int|
                        0 <= k < items.len() && k < wanted && (#[trigger] items[k] matches
                            JsonView::Object(element) && element.contains_key("title"@)
                            && element["title"@] is Str && element.contains_key("url"@)
                            && element["url"@] is Str) ==> exists|i: int|
                            0 <= i < places.len() && #[trigger] places[i] == k
                }
        },
{
    let looked_at = considered(items, count_view(num_results));
    let n = if items.len() <= wanted { items.len() as int } else { wanted };
    assert(looked_at =~= items.take(n));
    let places = lemma_places(provider, looked_at);
    let output = results_outcome(
        provider,
        query,
        num_results,
        Ok(JsonView::Object(members)),
    )->Ok_0;
    assert(output.results == hits(provider, looked_at));
    assert(places.len() == output.results.len());
    assert forall|i: int| #![trigger places[i]] 0 <= i < places.len() implies {
        &&& 0 <= places[i] < items.len()
        &&& places[i] < wanted
        &&& hit(provider, items[places[i]]) == Some(output.results[i])
        &&& items[places[i]] is Object
        &&& items[places[i]]->Object_0["title"@] == JsonView::Str(output.results[i].title)
        &&& items[places[i]]->Object_0["url"@] == JsonView::Str(output.results[i].url)
    } by {
        assert(items[places[i]] == looked_at[places[i]]);
        law_titled_elements_are_hits(provider, items[places[i]]);
    }
    assert forall|k: int|
        0 <= k < items.len() && k < wanted && (#[trigger] items[k] matches JsonView::Object(
            element,
        ) && element.contains_key("title"@) && element["title"@] is Str && element.contains_key(
            "url"@,
        ) && element["url"@] is Str) implies exists|i: int|
        0 <= i < places.len() && #[trigger] places[i] == k by {
        assert(items[k] == looked_at[k]);
        law_titled_elements_are_hits(provider, items[k]);
    }
}

/// No element that counts and has a title and a URL is left out of the results.
pub proof fn law_no_hit_is_left_out(
    provider: Provider,
    query: Seq<char>,
    num_results: Option<u32>,
    members: Map<Seq<char>, JsonView>,
    items: Seq<JsonView>,
    k: int,
)
    requires
        members.contains_key("results"@),
        members["results"@] == JsonView::Array(items),
        0 <= k < items.len(),
        num_results is None ==> k < 5,
        num_results matches Some(n) ==> k < 1 || (k < n && k < 20),
        items[k] matches JsonView::Object(element) && element.contains_key("title"@)
            && element["title"@] is Str && element.contains_key("url"@) && element["url"@] is Str,
    ensures
        results_outcome(provider, query, num_results, Ok(JsonView::Object(members))) matches Ok(
            output,
        ) && exists|i: int|
            0 <= i < output.results.len() && JsonView::Str((#[trigger] output.results[i]).title)
                == items[k]->Object_0["title"@] && JsonView::Str(output.results[i].url)
                == items[k]->Object_0["url"@],
{
    let looked_at = considered(items, count_view(num_results));
    assert(looked_at[k] == items[k]);
    let places = lemma_places(provider, looked_at);
    law_titled_elements_are_hits(provider, items[k]);
    let i = choose|i: int| 0 <= i < places.len() && #[trigger] places[i] == k;
    let output = results_outcome(
        provider,
        query,
        num_results,
        Ok(JsonView::Object(members)),
    )->Ok_0;
    assert(hit(provider, looked_at[places[i]]) == Some(output.results[i]));
}

/// Where every element of a list is a hit, there are as many hits as elements.
proof fn lemma_all_hits(provider: Provider, items: Seq<JsonView>)
    requires
        forall|k: int| 0 <= k < items.len() ==> hit(provider, #[trigger] items[k]) is Some,
    ensures
        hits(provider, items).len() == items.len(),
        forall|k: int|
            0 <= k < items.len() ==> hit(provider, items[k]) == Some(
                #[trigger] hits(provider, items)[k],
            ),
    decreases items.len(),
{
    if items.len() > 0 {
        let shorter = items.drop_last();
        assert forall|k: int| 0 <= k < shorter.len() implies hit(
            provider,
            #[trigger] shorter[k],
        ) is Some by {
            assert(shorter[k] == items[k]);
        }
        lemma_all_hits(provider, shorter);
        assert(hit(provider, items[items.len() - 1]) is Some);
        assert forall|k: int| 0 <= k < items.len() implies hit(provider, items[k]) == Some(
            #[trigger] hits(provider, items)[k],
        ) by {
            if k < shorter.len() {
                assert(shorter[k] == items[k]);
                assert(hits(provider, shorter)[k] == hits(provider, items)[k]);
            }
        }
    }
}

/// Where all of the elements that count have a title and a URL, each is listed in its place: as
/// many results come out as are wanted, or as there are elements where these are fewer.
pub proof fn law_complete_answers_are_listed(
    provider: Provider,
    query: Seq<char>,
    num_results: Option<u32>,
    members: Map<Seq<char>, JsonView>,
    items: Seq<JsonView>,
    wanted: int,
)
    requires
        members.contains_key("results"@),
        members["results"@] == JsonView::Array(items),
        num_results is None ==> wanted == 5,
        num_results matches Some(k) ==> wanted == (if k < 1 {
            1
        } else if k > 20 {
            20
        } else {
            k as int
        }),
        forall|k: int|
            0 <= k < items.len() && k < wanted ==> (#[trigger] items[k] matches JsonView::Object(
                element,
            ) && element.contains_key("title"@) && element["title"@] is Str
                && element.contains_key("url"@) && element["url"@] is Str),
    ensures
        results_outcome(provider, query, num_results, Ok(JsonView::Object(members))) matches Ok(
            output,
        ) && {
            &&& output.results.len() == if items.len() <= wanted {
                items.len() as int
            } else {
                wanted
            }
            &&& forall|j: int|
                #![trigger output.results[j]]
                0 <= j < output.results.len() ==> {
                    &&& items[j]->Object_0["title"@] == JsonView::Str(output.results[j].title)
                    &&& items[j]->Object_0["url"@] == JsonView::Str(output.results[j].url)
                    &&& hit(provider, items[j]) == Some(output.results[j])
                }
        },
{
    let looked_at = considered(items, count_view(num_results));
    let n = if items.len() <= wanted { items.len() as int } else { wanted };
    assert(looked_at =~= items.take(n));
    assert forall|k: int| 0 <= k < looked_at.len() implies hit(
        provider,
        #[trigger] looked_at[k],
    ) is Some by {
        assert(looked_at[k] == items[k]);
        law_titled_elements_are_hits(provider, items[k]);
    }
    lemma_all_hits(provider, looked_at);
    let output = results_outcome(
        provider,
        query,
        num_results,
        Ok(JsonView::Object(members)),
    )->Ok_0;
    assert(output.results == hits(provider, looked_at));
    assert forall|j: int| #![trigger output.results[j]] 0 <= j < output.results.len() implies {
        &&& items[j]->Object_0["title"@] == JsonView::Str(output.results[j].title)
        &&& items[j]->Object_0["url"@] == JsonView::Str(output.results[j].url)
        &&& hit(provider, items[j]) == Some(output.results[j])
    } by {
        assert(looked_at[j] == items[j]);
        assert(hit(provider, looked_at[j]) == Some(hits(provider, looked_at)[j]));
        law_titled_elements_are_hits(provider, items[j]);
    }
}

/// An answer that is no object with an array under `results` fails the search, and so does one
/// that cannot be read. The message names the provider and what is wrong.
pub proof fn law_unusable_answers_fail(
    provider: Provider,
    query: Seq<char>,
    num_results: Option<u32>,
    document: JsonView,
    refusal: Seq<char>,
)
    ensures
        !(document matches JsonView::Object(members) && members.contains_key("results"@)
            && members["results"@] is Array) ==> results_outcome(
            provider,
            query,
            num_results,
            Ok(document),
        ) == Err::<OutputView, Seq<char>>(
            (match provider {
                Provider::Exa => "exa"@,
                Provider::Tavily => "tavily"@,
                Provider::Searxng => "searxng"@,
                Provider::Anysearch => "anysearch"@,
            }) + " response missing `results` array"@,
        ),
        results_outcome(provider, query, num_results, Err(refusal)) == Err::<
            OutputView,
            Seq<char>,
        >(
            (match provider {
                Provider::Exa => "exa"@,
                Provider::Tavily => "tavily"@,
                Provider::Searxng => "searxng"@,
                Provider::Anysearch => "anysearch"@,
            }) + " json parse: "@ + refusal,
        ),
{
}

/// The body of a response whose status lies from 200 to 299 is read as JSON, and what it is read
/// as decides. Any other status fails the search with a message that gives the provider, the
/// status and the body truncated to 256 bytes. Without a response the message gives the provider
/// and the reason.
pub proof fn law_replies_are_read_by_status(
    search: SearchView,
    reply: Result<ResponseView, Seq<char>>,
)
    ensures
        reply matches Ok(response) ==> {
            &&& 200 <= response.status < 300 ==> search_reply_step(search, reply) == (
            match results_outcome(
                search.provider,
                search.query,
                search.num_results,
                parsed_json(response.body),
            ) {
                Ok(found) => StepView::EncodeSearch { found },
                Err(message) => StepView::Fail { message },
            })
            &&& !(200 <= response.status < 300) ==> search_reply_step(search, reply) == (
            StepView::Fail {
                message: (match search.provider {
                    Provider::Exa => "exa"@,
                    Provider::Tavily => "tavily"@,
                    Provider::Searxng => "searxng"@,
                    Provider::Anysearch => "anysearch"@,
                }) + " HTTP "@ + decimal(response.status as nat) + " — body: "@ + truncated(
                    response.body,
                    256,
                ),
            })
        },
        reply matches Err(reason) ==> search_reply_step(search, reply) == (StepView::Fail {
            message: (match search.provider {
                Provider::Exa => "exa"@,
                Provider::Tavily => "tavily"@,
                Provider::Searxng => "searxng"@,
                Provider::Anysearch => "anysearch"@,
            }) + " http: "@ + reason,
        }),
        search_reply_step(search, reply) == (match reply_outcome(
            search.provider,
            search.query,
            search.num_results,
            reply,
        ) {
            Ok(found) => StepView::EncodeSearch { found },
            Err(message) => StepView::Fail { message },
        }),
{
}

} // verus!
