//! The course of a tool call.
//!
//! A call goes from step to step. Each step says what the host has to do next; what came of it is
//! handed to the function that leads to the next step. A call ends when its outcome has been
//! encoded or when it failed.

use crate::codec::{error_document, error_text, json_text, parsed_json};
use crate::course_laws::{law_calls_begin_by_name, law_failures_carry_their_message};
use crate::fetch::{
    do_fetch, fetch_line_view, fetch_outcome, fetch_request, read_page, FetchArgs, FetchOutput,
    FetchView,
};
use crate::http::{reply_view, Call, HttpRequest, HttpResponse, RequestView, ResponseView};
use crate::json::JsonView;
use crate::providers::{choose_provider, chosen, Provider};
use crate::results::{read_reply, reply_outcome, OutputView, SearchOutput};
use crate::search::{
    anysearch_request, exa_request, search_anysearch, search_exa, search_line_view, search_searxng,
    search_tavily, searxng_request, tavily_request, SearchArgs,
};
use crate::text::{opt_view, same_text};
use vstd::prelude::*;
use vstd::string::*;
use vstd::utf8::*;

verus! {

/// What a tool call returns.
#[derive(Debug, PartialEq, Eq)]
pub struct ToolResult {
    pub content_json: String,
    pub is_error: bool,
}

/// What the result of a tool call holds.
pub struct ToolResultView {
    pub content_json: Seq<char>,
    pub is_error: bool,
}

impl View for ToolResult {
    type V = ToolResultView;

    open spec fn view(&self) -> ToolResultView {
        ToolResultView { content_json: self.content_json@, is_error: self.is_error }
    }
}

/// How a tool call ends: what it returns, and the line that is logged as an error, if any.
#[derive(Debug, PartialEq, Eq)]
pub struct Ending {
    pub result: ToolResult,
    pub error_line: Option<String>,
}

/// What the end of a tool call holds.
pub struct EndingView {
    pub result: ToolResultView,
    pub error_line: Option<Seq<char>>,
}

impl View for Ending {
    type V = EndingView;

    open spec fn view(&self) -> EndingView {
        EndingView { result: self.result@, error_line: opt_view(self.error_line) }
    }
}

/// The end of a call that failed.
pub open spec fn failure(message: Seq<char>) -> EndingView {
    EndingView {
        result: ToolResultView {
            content_json: json_text(error_document(message)),
            is_error: true,
        },
        error_line: Some(message),
    }
}

/// Whether a text is read as an object without an `error`.
pub open spec fn holds_no_error(text: Seq<char>) -> bool {
    parsed_json(text) matches Ok(document) && document is Object && document.get("error"@) is None
}

/// Whether errors can be told by what a call returns: the content is an object, which has an
/// `error` exactly where the call failed. A line is then logged, and the object holds that line
/// under `error` and nothing else.
pub open spec fn tells_errors(ending: EndingView) -> bool {
    parsed_json(ending.result.content_json) matches Ok(document) && {
        &&& document is Object
        &&& ending.result.is_error <==> document.get("error"@) is Some
        &&& ending.result.is_error <==> ending.error_line is Some
        &&& ending.error_line matches Some(line) ==> document == error_document(line)
    }
}

/// Ends a call that failed: it returns a JSON object whose `error` is the message, and the
/// message is logged.
pub fn err_result(message: String) -> (ending: Ending)
    ensures
        ending@ == failure(message@),
        tells_errors(ending@),
        ending.result.is_error,
        ending.error_line matches Some(line) && line@ == message@,
        parsed_json(ending.result.content_json@) matches Ok(JsonView::Object(members))
            && members.dom() == set!["error"@] && members["error"@] == JsonView::Str(message@),
{
    let content_json = error_text(message.as_str());
    proof {
        law_failures_carry_their_message(message@);
    }
    Ending { result: ToolResult { content_json, is_error: true }, error_line: Some(message) }
}

/// The end of a call whose outcome has been encoded, or could not be.
pub open spec fn encoded_ending(encoded: Result<Seq<char>, Seq<char>>) -> EndingView {
    match encoded {
        Ok(content_json) => EndingView {
            result: ToolResultView { content_json, is_error: false },
            error_line: None,
        },
        Err(message) => failure("serialize result: "@ + message),
    }
}

/// Ends a call that came to an outcome, given what its encoding came to.
pub fn ok_result(encoded: Result<String, String>) -> (ending: Ending)
    ensures
        ending@ == encoded_ending(
            match encoded {
                Ok(content_json) => Ok(content_json@),
                Err(message) => Err(message@),
            },
        ),
        (encoded matches Ok(content_json) ==> holds_no_error(content_json@)) ==> tells_errors(
            ending@,
        ),
        encoded matches Ok(content_json) ==> ending.result.content_json@ == content_json@
            && !ending.result.is_error && ending.error_line is None,
        encoded matches Err(message) ==> (ending.error_line matches Some(line) && line@
            == "serialize result: "@ + message@ && ending.result.is_error),
{
    match encoded {
        Ok(content_json) => Ending {
            result: ToolResult { content_json, is_error: false },
            error_line: None,
        },
        Err(message) => err_result("serialize result: ".to_string().concat(message.as_str())),
    }
}

/// A search whose provider has been chosen.
#[derive(Debug, PartialEq, Eq)]
pub struct Search {
    pub provider: Provider,
    pub args: SearchArgs,
}

/// What a search holds.
pub struct SearchView {
    pub provider: Provider,
    pub query: Seq<char>,
    pub requested: Option<Seq<char>>,
    pub num_results: Option<u32>,
}

impl View for Search {
    type V = SearchView;

    open spec fn view(&self) -> SearchView {
        SearchView {
            provider: self.provider,
            query: self.args.query@,
            requested: opt_view(self.args.provider),
            num_results: self.args.num_results,
        }
    }
}

/// What the host has to do next in a tool call.
#[derive(Debug, PartialEq, Eq)]
pub enum Step {
    /// Decode the arguments of `web_search`; then `search_args_read`.
    ParseSearchArgs { args_json: String },
    /// Decode the arguments of `web_fetch`; then `fetch_args_read`.
    ParseFetchArgs { args_json: String },
    /// Look up the variable of the search's provider; then `variable_read`.
    ReadVariable { search: Search },
    /// Log the line for information and send the request; then `search_answered`.
    SendSearch { search: Search, line: String, request: HttpRequest },
    /// Log the line for information and send the request; then `fetch_answered`.
    SendFetch { args: FetchArgs, line: String, request: HttpRequest },
    /// Encode the outcome; then `ok_result`.
    EncodeSearch { found: SearchOutput },
    /// Encode the outcome; then `ok_result`.
    EncodeFetch { page: FetchOutput },
    /// Report the message with `err_result`.
    Fail { message: String },
}

/// What a step holds.
pub enum StepView {
    ParseSearchArgs { args_json: Seq<char> },
    ParseFetchArgs { args_json: Seq<char> },
    ReadVariable { search: SearchView },
    SendSearch { search: SearchView, line: Seq<char>, request: RequestView },
    SendFetch { url: Seq<char>, line: Seq<char>, request: RequestView },
    EncodeSearch { found: OutputView },
    EncodeFetch { page: FetchView },
    Fail { message: Seq<char> },
}

impl View for Step {
    type V = StepView;

    open spec fn view(&self) -> StepView {
        match self {
            Step::ParseSearchArgs { args_json } => StepView::ParseSearchArgs {
                args_json: args_json@,
            },
            Step::ParseFetchArgs { args_json } => StepView::ParseFetchArgs {
                args_json: args_json@,
            },
            Step::ReadVariable { search } => StepView::ReadVariable { search: search@ },
            Step::SendSearch { search, line, request } => StepView::SendSearch {
                search: search@,
                line: line@,
                request: request@,
            },
            Step::SendFetch { args, line, request } => StepView::SendFetch {
                url: args.url@,
                line: line@,
                request: request@,
            },
            Step::EncodeSearch { found } => StepView::EncodeSearch { found: found@ },
            Step::EncodeFetch { page } => StepView::EncodeFetch { page: page@ },
            Step::Fail { message } => StepView::Fail { message: message@ },
        }
    }
}

/// The first step of a call of the tool `name`.
pub open spec fn first_step(name: Seq<char>, args_json: Seq<char>) -> StepView {
    if name == "web_search"@ {
        StepView::ParseSearchArgs { args_json }
    } else if name == "web_fetch"@ {
        StepView::ParseFetchArgs { args_json }
    } else {
        StepView::Fail { message: "unknown tool: "@ + name }
    }
}

/// Starts a tool call.
pub fn call_tool(name: &str, args_json: String) -> (step: Step)
    ensures
        step@ == first_step(name@, args_json@),
        name@ == "web_search"@ ==> (step matches Step::ParseSearchArgs { args_json: kept }
            && kept@ == args_json@),
        name@ == "web_fetch"@ ==> (step matches Step::ParseFetchArgs { args_json: kept } && kept@
            == args_json@),
        name@ != "web_search"@ && name@ != "web_fetch"@ ==> (step matches Step::Fail { message }
            && message@ == "unknown tool: "@ + name@),
{
    proof {
        law_calls_begin_by_name(name@, args_json@);
    }
    if same_text(name, "web_search") {
        Step::ParseSearchArgs { args_json }
    } else if same_text(name, "web_fetch") {
        Step::ParseFetchArgs { args_json }
    } else {
        Step::Fail { message: "unknown tool: ".to_string().concat(name) }
    }
}

/// The step with which a search begins.
pub open spec fn search_step(
    query: Seq<char>,
    provider: Option<Seq<char>>,
    num_results: Option<u32>,
) -> StepView {
    match chosen(provider) {
        Ok(choice) => StepView::ReadVariable {
            search: SearchView { provider: choice, query, requested: provider, num_results },
        },
        Err(message) => StepView::Fail { message },
    }
}

/// Begins a search with the provider that its arguments name.
pub fn do_search(args: SearchArgs) -> (step: Step)
    ensures
        step@ == search_step(args.query@, opt_view(args.provider), args.num_results),
        step matches Step::ReadVariable { search } ==> search.args == args,
        args.provider is None ==> (step matches Step::ReadVariable { search }
            && search.provider is Exa),
        args.provider matches Some(name) ==> (step matches Step::ReadVariable { search } ==> name@
            == search.provider.name_view()),
{
    match choose_provider(&args.provider) {
        Ok(provider) => Step::ReadVariable { search: Search { provider, args } },
        Err(message) => Step::Fail { message },
    }
}

/// Goes on once the arguments of `web_search` have been decoded, or could not be.
pub fn search_args_read(parsed: Result<SearchArgs, String>) -> (step: Step)
    ensures
        step@ == match parsed {
            Ok(args) => search_step(args.query@, opt_view(args.provider), args.num_results),
            Err(message) => StepView::Fail { message: "web_search args: "@ + message@ },
        },
        parsed matches Ok(args) ==> (step matches Step::ReadVariable { search } ==> search.args
            == args),
        parsed matches Err(reason) ==> (step matches Step::Fail { message } && message@
            == "web_search args: "@ + reason@),
{
    match parsed {
        Ok(args) => do_search(args),
        Err(message) => Step::Fail {
            message: "web_search args: ".to_string().concat(message.as_str()),
        },
    }
}

/// The request of a search, given the setting of its provider, or why there is none.
pub open spec fn search_request(search: SearchView, setting: Option<Seq<char>>) -> Result<
    RequestView,
    Seq<char>,
> {
    match search.provider {
        Provider::Exa => exa_request(search.query, search.num_results, setting),
        Provider::Tavily => tavily_request(search.query, search.num_results, setting),
        Provider::Searxng => searxng_request(search.query, setting),
        Provider::Anysearch => Ok(anysearch_request(search.query, search.num_results, setting)),
    }
}

/// The step that follows once the setting of a search's provider is known.
pub open spec fn variable_step(search: SearchView, setting: Option<Seq<char>>) -> StepView {
    match search_request(search, setting) {
        Ok(request) => StepView::SendSearch {
            search,
            line: search_line_view(search.provider, search.query, search.num_results),
            request,
        },
        Err(message) => StepView::Fail { message },
    }
}

/// Goes on once the variable of a search's provider has been looked up.
pub fn variable_read(search: Search, setting: Option<String>) -> (step: Step)
    ensures
        step@ == variable_step(search@, opt_view(setting)),
        step matches Step::SendSearch { search: kept, .. } ==> kept == search,
        step is SendSearch <==> search.provider is Anysearch || (setting matches Some(text)
            && text@.len() > 0),
{
    let call = match search.provider {
        Provider::Exa => search_exa(&search.args, setting),
        Provider::Tavily => search_tavily(&search.args, setting),
        Provider::Searxng => search_searxng(&search.args, setting),
        Provider::Anysearch => Ok(search_anysearch(&search.args, setting)),
    };
    match call {
        Ok(Call { line, request }) => Step::SendSearch { search, line, request },
        Err(message) => Step::Fail { message },
    }
}

/// The step that follows the reply to a search.
pub open spec fn search_reply_step(
    search: SearchView,
    reply: Result<ResponseView, Seq<char>>,
) -> StepView {
    match reply_outcome(search.provider, search.query, search.num_results, reply) {
        Ok(found) => StepView::EncodeSearch { found },
        Err(message) => StepView::Fail { message },
    }
}

/// Goes on once the request of a search has been answered, or could not be sent.
pub fn search_answered(search: Search, reply: Result<HttpResponse, String>) -> (step: Step)
    ensures
        step@ == search_reply_step(search@, reply_view(reply)),
        step matches Step::EncodeSearch { found } ==> found.query@ == search.args.query@
            && found.results@.len() <= 20 && (reply matches Ok(response) && 200 <= response.status
            < 300),
{
    match read_reply(search.provider, &search.args, reply) {
        Ok(found) => Step::EncodeSearch { found },
        Err(message) => Step::Fail { message },
    }
}

/// The step with which a fetch begins.
pub open spec fn fetch_step(url: Seq<char>) -> StepView {
    match fetch_request(url) {
        Ok(request) => StepView::SendFetch { url, line: fetch_line_view(url), request },
        Err(message) => StepView::Fail { message },
    }
}

/// Goes on once the arguments of `web_fetch` have been decoded, or could not be.
pub fn fetch_args_read(parsed: Result<FetchArgs, String>) -> (step: Step)
    ensures
        step@ == match parsed {
            Ok(args) => fetch_step(args.url@),
            Err(message) => StepView::Fail { message: "web_fetch args: "@ + message@ },
        },
        parsed matches Ok(args) ==> (step matches Step::SendFetch { args: kept, .. } ==> kept
            == args),
        parsed matches Err(reason) ==> (step matches Step::Fail { message } && message@
            == "web_fetch args: "@ + reason@),
{
    match parsed {
        Ok(args) => match do_fetch(&args) {
            Ok(Call { line, request }) => Step::SendFetch { args, line, request },
            Err(message) => Step::Fail { message },
        },
        Err(message) => Step::Fail {
            message: "web_fetch args: ".to_string().concat(message.as_str()),
        },
    }
}

/// The step that follows the reply to a fetch.
pub open spec fn fetch_reply_step(
    url: Seq<char>,
    reply: Result<ResponseView, Seq<char>>,
) -> StepView {
    match fetch_outcome(url, reply) {
        Ok(page) => StepView::EncodeFetch { page },
        Err(message) => StepView::Fail { message },
    }
}

/// Goes on once the request of a fetch has been answered, or could not be sent.
pub fn fetch_answered(args: FetchArgs, reply: Result<HttpResponse, String>) -> (step: Step)
    ensures
        step@ == fetch_reply_step(args.url@, reply_view(reply)),
        step is EncodeFetch <==> reply is Ok,
        step matches Step::EncodeFetch { page } ==> {
            &&& page.url@ == args.url@
            &&& page.status == reply->Ok_0.status
            &&& encode_utf8(reply->Ok_0.body@).len() <= 16384 ==> page.body@ == reply->Ok_0.body@
                && !page.truncated
        },
{
    match read_page(args, reply) {
        Ok(page) => Step::EncodeFetch { page },
        Err(message) => Step::Fail { message },
    }
}

} // verus!
