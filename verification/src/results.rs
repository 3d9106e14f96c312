//! What the search providers answer.

use crate::codec::{parse_json, parsed_json};
use crate::http::{reply_view, HttpResponse, ResponseView};
use crate::json::{elements_view, lemma_elements_view, Json, JsonView};
use crate::laws::law_results_are_limited;
use crate::providers::Provider;
use crate::result_laws::law_no_hit_is_left_out;
use crate::search::{count_view, result_count, SearchArgs};
use crate::text::{
    decimal, decimal_text, extract_snippet, opt_view, snippet, truncate, truncated,
};
use vstd::prelude::*;
use vstd::string::*;

verus! {

/// One hit of a search.
#[derive(Debug, PartialEq, Eq)]
pub struct SearchResultItem {
    pub title: String,
    pub url: String,
    pub published_date: Option<String>,
    pub author: Option<String>,
    pub snippet: Option<String>,
}

/// What a hit holds.
pub struct ItemView {
    pub title: Seq<char>,
    pub url: Seq<char>,
    pub published_date: Option<Seq<char>>,
    pub author: Option<Seq<char>>,
    pub snippet: Option<Seq<char>>,
}

impl View for SearchResultItem {
    type V = ItemView;

    open spec fn view(&self) -> ItemView {
        ItemView {
            title: self.title@,
            url: self.url@,
            published_date: opt_view(self.published_date),
            author: opt_view(self.author),
            snippet: opt_view(self.snippet),
        }
    }
}

/// What a search found.
#[derive(Debug, PartialEq, Eq)]
pub struct SearchOutput {
    pub query: String,
    pub results: Vec<SearchResultItem>,
    pub provider: String,
}

/// What the outcome of a search holds.
pub struct OutputView {
    pub query: Seq<char>,
    pub results: Seq<ItemView>,
    pub provider: Seq<char>,
}

/// What a list of hits holds.
pub open spec fn items_view(items: Seq<SearchResultItem>) -> Seq<ItemView> {
    items.map_values(|item: SearchResultItem| item@)
}

impl View for SearchOutput {
    type V = OutputView;

    open spec fn view(&self) -> OutputView {
        OutputView {
            query: self.query@,
            results: items_view(self.results@),
            provider: self.provider@,
        }
    }
}

/// What the outcome of a search, or the message that says why there is none, holds.
pub open spec fn output_view(output: Result<SearchOutput, String>) -> Result<OutputView, Seq<char>> {
    match output {
        Ok(output) => Ok(output@),
        Err(message) => Err(message@),
    }
}

/// The members of an object, with one more where there is a text for it.
pub open spec fn with_text(
    members: Map<Seq<char>, JsonView>,
    key: Seq<char>,
    text: Option<Seq<char>>,
) -> Map<Seq<char>, JsonView> {
    match text {
        Some(text) => members.insert(key, JsonView::Str(text)),
        None => members,
    }
}

/// The document of a hit; what is not known of it is left out.
pub open spec fn item_document(item: ItemView) -> JsonView {
    let members = map![
        "title"@ => JsonView::Str(item.title),
        "url"@ => JsonView::Str(item.url),
    ];
    let members = with_text(members, "published_date"@, item.published_date);
    let members = with_text(members, "author"@, item.author);
    JsonView::Object(with_text(members, "snippet"@, item.snippet))
}

/// The document of what a search found.
pub open spec fn search_document(output: OutputView) -> JsonView {
    JsonView::Object(
        map![
            "query"@ => JsonView::Str(output.query),
            "results"@ => JsonView::Array(
                output.results.map_values(|item: ItemView| item_document(item)),
            ),
            "provider"@ => JsonView::Str(output.provider),
        ],
    )
}

/// The snippet of a text, where there is one.
pub open spec fn opt_snippet(text: Option<Seq<char>>) -> Option<Seq<char>> {
    match text {
        Some(text) => Some(snippet(text)),
        None => None,
    }
}

/// The first highlight of an Exa hit, where it is a string.
pub open spec fn first_highlight(item: JsonView) -> Option<Seq<char>> {
    match item.elements_at("highlights"@) {
        Some(highlights) => if highlights.len() > 0 {
            highlights[0].as_str()
        } else {
            None
        },
        None => None,
    }
}

/// The snippet of a hit.
///
/// - Exa: its first highlight as it stands, else the snippet of its `text`.
/// - Tavily: the snippet of its `content`.
/// - SearXNG: the snippet of its `content` where that is a string, else of its `snippet`.
/// - AnySearch: the snippet of its `snippet`, or of its `content` where it has no `snippet` at
///   all; a `snippet` that is no string hides the `content`.
pub open spec fn item_snippet(provider: Provider, item: JsonView) -> Option<Seq<char>> {
    match provider {
        Provider::Exa => match first_highlight(item) {
            Some(highlight) => Some(highlight),
            None => opt_snippet(item.text_at("text"@)),
        },
        Provider::Tavily => opt_snippet(item.text_at("content"@)),
        Provider::Searxng => match item.text_at("content"@) {
            Some(content) => Some(snippet(content)),
            None => opt_snippet(item.text_at("snippet"@)),
        },
        Provider::Anysearch => match item.get("snippet"@) {
            Some(member) => opt_snippet(member.as_str()),
            None => opt_snippet(item.text_at("content"@)),
        },
    }
}

/// The hit that an element of a `results` array stands for; none without a title or a URL.
pub open spec fn hit(provider: Provider, item: JsonView) -> Option<ItemView> {
    match (item.text_at("title"@), item.text_at("url"@)) {
        (Some(title), Some(url)) => Some(
            ItemView {
                title,
                url,
                published_date: if provider is Exa {
                    item.text_at("publishedDate"@)
                } else {
                    None
                },
                author: if provider is Exa {
                    item.text_at("author"@)
                } else {
                    None
                },
                snippet: item_snippet(provider, item),
            },
        ),
        _ => None,
    }
}

/// The hits among the elements of a `results` array, in their order.
pub open spec fn hits(provider: Provider, items: Seq<JsonView>) -> Seq<ItemView>
    decreases items.len(),
{
    if items.len() == 0 {
        Seq::empty()
    } else {
        let before = hits(provider, items.drop_last());
        match hit(provider, items.last()) {
            Some(item) => before.push(item),
            None => before,
        }
    }
}

/// The elements of a `results` array that are looked at: as many as are wanted, from the first.
pub open spec fn considered(items: Seq<JsonView>, n: u32) -> Seq<JsonView> {
    if items.len() <= n {
        items
    } else {
        items.take(n as int)
    }
}

/// What a search comes to once the body of the answer has been read as JSON.
pub open spec fn results_outcome(
    provider: Provider,
    query: Seq<char>,
    num_results: Option<u32>,
    parsed: Result<JsonView, Seq<char>>,
) -> Result<OutputView, Seq<char>> {
    match parsed {
        Ok(document) => match document.elements_at("results"@) {
            Some(items) => Ok(
                OutputView {
                    query,
                    results: hits(provider, considered(items, count_view(num_results))),
                    provider: provider.name_view(),
                },
            ),
            None => Err(provider.name_view() + " response missing `results` array"@),
        },
        Err(message) => Err(provider.name_view() + " json parse: "@ + message),
    }
}

/// How many bytes of the body of a failed response are reported.
pub const ERROR_BODY_MAX_BYTES: usize = 256;

/// Whether a status reports success.
pub open spec fn is_success(status: u16) -> bool {
    200 <= status < 300
}

/// What a search comes to with a given reply.
pub open spec fn reply_outcome(
    provider: Provider,
    query: Seq<char>,
    num_results: Option<u32>,
    reply: Result<ResponseView, Seq<char>>,
) -> Result<OutputView, Seq<char>> {
    match reply {
        Ok(response) => if is_success(response.status) {
            results_outcome(provider, query, num_results, parsed_json(response.body))
        } else {
            Err(
                provider.name_view() + " HTTP "@ + decimal(response.status as nat) + " — body: "@
                    + truncated(response.body, ERROR_BODY_MAX_BYTES as nat),
            )
        },
        Err(reason) => Err(provider.name_view() + " http: "@ + reason),
    }
}

/// Copies an optional text.
fn owned(text: Option<&str>) -> (copy: Option<String>)
    ensures
        match text {
            Some(text) => opt_view(copy) == Some(text@),
            None => copy is None,
        },
{
    match text {
        Some(text) => Some(text.to_string()),
        None => None,
    }
}

/// Takes the snippet of an optional text.
fn snippet_of(text: Option<&str>) -> (cut: Option<String>)
    ensures
        match text {
            Some(text) => opt_view(cut) == Some(snippet(text@)),
            None => cut is None,
        },
{
    match text {
        Some(text) => Some(extract_snippet(text)),
        None => None,
    }
}

/// The snippet of an Exa hit.
fn exa_snippet(item: &Json) -> (cut: Option<String>)
    ensures
        opt_view(cut) == item_snippet(Provider::Exa, item@),
{
    if let Some(highlights) = item.elements_at("highlights") {
        proof {
            lemma_elements_view(highlights@);
        }
        if highlights.len() > 0 {
            if let Some(highlight) = highlights[0].as_str() {
                return Some(highlight.to_string());
            }
        }
    }
    snippet_of(item.text_at("text"))
}

/// The snippet of a SearXNG hit.
fn searxng_snippet(item: &Json) -> (cut: Option<String>)
    ensures
        opt_view(cut) == item_snippet(Provider::Searxng, item@),
{
    match item.text_at("content") {
        Some(content) => Some(extract_snippet(content)),
        None => snippet_of(item.text_at("snippet")),
    }
}

/// The snippet of an AnySearch hit.
fn anysearch_snippet(item: &Json) -> (cut: Option<String>)
    ensures
        opt_view(cut) == item_snippet(Provider::Anysearch, item@),
{
    match item.get("snippet") {
        Some(member) => snippet_of(member.as_str()),
        None => snippet_of(item.text_at("content")),
    }
}

/// Reads one element of a `results` array.
pub fn read_item(provider: Provider, item: &Json) -> (found: Option<SearchResultItem>)
    ensures
        match found {
            Some(found) => hit(provider, item@) == Some(found@),
            None => hit(provider, item@) is None,
        },
        found is Some <==> (item@ matches JsonView::Object(members) && members.contains_key(
            "title"@,
        ) && members["title"@] is Str && members.contains_key("url"@) && members["url"@] is Str),
        found matches Some(found) ==> {
            &&& JsonView::Str(found.title@) == item@->Object_0["title"@]
            &&& JsonView::Str(found.url@) == item@->Object_0["url"@]
        },
{
    let title = match item.text_at("title") {
        Some(title) => title.to_string(),
        None => return None,
    };
    let url = match item.text_at("url") {
        Some(url) => url.to_string(),
        None => return None,
    };
    let (published_date, author) = match provider {
        Provider::Exa => (owned(item.text_at("publishedDate")), owned(item.text_at("author"))),
        _ => (None, None),
    };
    let snippet = match provider {
        Provider::Exa => exa_snippet(item),
        Provider::Tavily => snippet_of(item.text_at("content")),
        Provider::Searxng => searxng_snippet(item),
        Provider::Anysearch => anysearch_snippet(item),
    };
    Some(SearchResultItem { title, url, published_date, author, snippet })
}

/// Reads the elements of a `results` array, of which no more than `n` are looked at.
pub fn read_items(provider: Provider, items: &Vec<Json>, n: u32) -> (found: Vec<SearchResultItem>)
    ensures
        items_view(found@) == hits(provider, considered(elements_view(items@), n)),
{
    let ghost all = elements_view(items@);
    proof {
        lemma_elements_view(items@);
    }
    let limit: usize = if items.len() <= n as usize {
        items.len()
    } else {
        n as usize
    };
    let mut found: Vec<SearchResultItem> = Vec::new();
    let mut i: usize = 0;
    assert(items_view(found@) =~= hits(provider, all.take(0)));
    while i < limit
        invariant
            i <= limit <= items.len(),
            all == elements_view(items@),
            all.len() == items.len(),
            forall|k: int| 0 <= k < items.len() ==> #[trigger] all[k] == items[k]@,
            items_view(found@) == hits(provider, all.take(i as int)),
        decreases limit - i,
    {
        let ghost before = found@;
        assert(all.take(i + 1).drop_last() =~= all.take(i as int));
        assert(all.take(i + 1).last() == items[i as int]@);
        if let Some(item) = read_item(provider, &items[i]) {
            found.push(item);
            assert(items_view(found@) =~= items_view(before).push(item@));
        }
        i += 1;
    }
    assert(considered(all, n) =~= all.take(limit as int));
    found
}

/// What an answer with a `results` array comes to lists each element that counts.
proof fn lemma_listed(
    provider: Provider,
    query: Seq<char>,
    num_results: Option<u32>,
    document: JsonView,
)
    ensures
        document matches JsonView::Object(members) ==> (members.contains_key("results"@)
            && members["results"@] is Array ==> (results_outcome(
            provider,
            query,
            num_results,
            Ok(document),
        ) matches Ok(output) && {
            let items = members["results"@]->Array_0;
            &&& output.results.len() <= items.len()
            &&& output.results.len() <= 20
            &&& forall|k: int|
                0 <= k < items.len() && (num_results is None ==> k < 5) && (num_results matches Some(
                    n,
                ) ==> k < 1 || (k < n && k < 20)) && (#[trigger] items[k] matches
                    JsonView::Object(element) && element.contains_key("title"@)
                    && element["title"@] is Str && element.contains_key("url"@)
                    && element["url"@] is Str) ==> exists|i: int|
                    0 <= i < output.results.len() && JsonView::Str(
                        (#[trigger] output.results[i]).title,
                    ) == items[k]->Object_0["title"@] && JsonView::Str(output.results[i].url)
                        == items[k]->Object_0["url"@]
        })),
{
    if let JsonView::Object(members) = document {
        if members.contains_key("results"@) && members["results"@] is Array {
            let items = members["results"@]->Array_0;
            let output = results_outcome(provider, query, num_results, Ok(document))->Ok_0;
            law_results_are_limited(provider, query, num_results, document);
            assert forall|k: int|
                0 <= k < items.len() && (num_results is None ==> k < 5) && (num_results matches Some(
                    n,
                ) ==> k < 1 || (k < n && k < 20)) && (#[trigger] items[k] matches
                    JsonView::Object(element) && element.contains_key("title"@)
                    && element["title"@] is Str && element.contains_key("url"@)
                    && element["url"@] is Str) implies exists|i: int|
                0 <= i < output.results.len() && JsonView::Str(
                    (#[trigger] output.results[i]).title,
                ) == items[k]->Object_0["title"@] && JsonView::Str(output.results[i].url)
                    == items[k]->Object_0["url"@] by {
                law_no_hit_is_left_out(provider, query, num_results, members, items, k);
            }
        }
    }
}

/// Makes the outcome of a search of what its answer was read as.
pub fn read_results(
    provider: Provider,
    args: &SearchArgs,
    parsed: Result<Json, String>,
) -> (output: Result<SearchOutput, String>)
    ensures
        output_view(output) == results_outcome(
            provider,
            args.query@,
            args.num_results,
            match parsed {
                Ok(json) => Ok(json@),
                Err(message) => Err(message@),
            },
        ),
        parsed matches Ok(json) ==> (json@ matches JsonView::Object(members) ==> (
        members.contains_key("results"@) && members["results"@] is Array ==> (output matches Ok(
            found,
        ) && {
            let items = members["results"@]->Array_0;
            &&& found.query@ == args.query@
            &&& found.results@.len() <= items.len()
            &&& found.results@.len() <= 20
            &&& forall|k: int|
                0 <= k < items.len() && (args.num_results is None ==> k < 5) && (
                args.num_results matches Some(n) ==> k < 1 || (k < n && k < 20)) && (
                #[trigger] items[k] matches JsonView::Object(element) && element.contains_key(
                    "title"@,
                ) && element["title"@] is Str && element.contains_key("url"@)
                    && element["url"@] is Str) ==> exists|i: int|
                    0 <= i < found.results@.len() && JsonView::Str(
                        (#[trigger] found.results@[i]).title@,
                    ) == items[k]->Object_0["title"@] && JsonView::Str(found.results@[i].url@)
                        == items[k]->Object_0["url"@]
        }))),
{
    proof {
        if parsed is Ok {
            lemma_listed(provider, args.query@, args.num_results, parsed->Ok_0@);
        }
    }
    match parsed {
        Ok(json) => match json.elements_at("results") {
            Some(items) => Ok(
                SearchOutput {
                    query: args.query.clone(),
                    results: read_items(provider, items, result_count(args.num_results)),
                    provider: provider.name(),
                },
            ),
            None => Err(provider.name().concat(" response missing `results` array")),
        },
        Err(message) => Err(provider.name().concat(" json parse: ").concat(message.as_str())),
    }
}

/// Makes the outcome of a search of what came back for its request.
pub fn read_reply(
    provider: Provider,
    args: &SearchArgs,
    reply: Result<HttpResponse, String>,
) -> (output: Result<SearchOutput, String>)
    ensures
        output_view(output) == reply_outcome(
            provider,
            args.query@,
            args.num_results,
            reply_view(reply),
        ),
        output matches Ok(found) ==> (found.query@ == args.query@ && found.results@.len() <= 20
            && (reply matches Ok(response) && 200 <= response.status < 300)),
{
    match reply {
        Ok(response) => if 200 <= response.status && response.status < 300 {
            read_results(provider, args, parse_json(response.body.as_str()))
        } else {
            Err(
                provider.name().concat(" HTTP ").concat(
                    decimal_text(response.status as u32).as_str(),
                ).concat(" — body: ").concat(
                    truncate(response.body.as_str(), ERROR_BODY_MAX_BYTES).as_str(),
                ),
            )
        },
        Err(reason) => Err(provider.name().concat(" http: ").concat(reason.as_str())),
    }
}

} // verus!
