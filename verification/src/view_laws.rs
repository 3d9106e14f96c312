//! What the views of the library's values show of them: all that they hold.

use crate::codec::{parsed_json, reads_as};
use crate::fetch::{fetched_view, FetchOutput};
use crate::http::{
    announced, call_view, headers_view, reply_view, Call, CallView, HttpRequest, HttpResponse,
    RequestView, ResponseView,
};
use crate::json::{elements_view, lemma_elements_view, members_view, Json, JsonView};
use crate::plugin::{Ending, Search, Step, StepView, ToolResult};
use crate::results::{items_view, output_view, SearchOutput, SearchResultItem};
use crate::text::opt_view;
use crate::tools::ToolDef;
use vstd::prelude::*;

verus! {

/// The view of a list of headers shows each name and value, in their order.
pub proof fn law_headers_view(headers: Seq<(String, String)>)
    ensures
        headers_view(headers).len() == headers.len(),
        forall|i: int|
            0 <= i < headers.len() ==> #[trigger] headers_view(headers)[i] == (
                headers[i].0@,
                headers[i].1@,
            ),
{
}

/// The view of a request shows its kind, its address, its headers and its body.
pub proof fn law_request_view(request: HttpRequest)
    ensures
        request matches HttpRequest::Get { url, headers } ==> request@ == (RequestView::Get {
            url: url@,
            headers: headers_view(headers@),
        }),
        request matches HttpRequest::Post { url, headers, body } ==> request@ == (
        RequestView::Post { url: url@, headers: headers_view(headers@), body: body@ }),
{
}

/// The view of a reply shows the status and the body, or the reason.
pub proof fn law_reply_view(reply: Result<HttpResponse, String>)
    ensures
        reply matches Ok(response) ==> reply_view(reply) == Ok::<ResponseView, Seq<char>>(
            ResponseView { status: response.status, body: response.body@ },
        ),
        reply matches Err(reason) ==> reply_view(reply) == Err::<ResponseView, Seq<char>>(reason@),
{
}

/// The view of a call shows its line and its request, or the message.
pub proof fn law_call_view(call: Result<Call, String>)
    ensures
        call matches Ok(call) ==> call@ == (CallView {
            line: call.line@,
            request: call.request@,
        }),
        call matches Ok(made) ==> call_view(call) == Ok::<CallView, Seq<char>>(made@),
        call matches Err(message) ==> call_view(call) == Err::<CallView, Seq<char>>(message@),
{
}

/// A line announces the request that there is; where there is none the message stays.
pub proof fn law_announced(line: Seq<char>, request: Result<RequestView, Seq<char>>)
    ensures
        request matches Ok(request) ==> announced(line, Ok(request)) == Ok::<CallView, Seq<char>>(
            CallView { line, request },
        ),
        request matches Err(message) ==> announced(line, request) == Err::<CallView, Seq<char>>(
            message,
        ),
{
}

/// The view of a hit shows all that is known of it.
pub proof fn law_item_view(item: SearchResultItem)
    ensures
        item@.title == item.title@,
        item@.url == item.url@,
        item@.published_date == opt_view(item.published_date),
        item@.author == opt_view(item.author),
        item@.snippet == opt_view(item.snippet),
{
}

/// The view of the outcome of a search shows the query, the provider and each hit in its place.
pub proof fn law_output_view(output: Result<SearchOutput, String>)
    ensures
        output matches Ok(found) ==> {
            &&& output_view(output) is Ok
            &&& output_view(output)->Ok_0 == found@
            &&& found@.query == found.query@
            &&& found@.provider == found.provider@
            &&& found@.results == items_view(found.results@)
            &&& found@.results.len() == found.results@.len()
            &&& forall|i: int|
                0 <= i < found.results@.len() ==> #[trigger] found@.results[i]
                    == found.results@[i]@
        },
        output matches Err(message) ==> output_view(output) is Err && output_view(output)->Err_0
            == message@,
{
}

/// The view of the outcome of a fetch shows the address, the status, the body and whether it was
/// cut.
pub proof fn law_fetched_view(output: Result<FetchOutput, String>)
    ensures
        output matches Ok(page) ==> {
            &&& fetched_view(output) is Ok
            &&& fetched_view(output)->Ok_0 == page@
            &&& page@.url == page.url@
            &&& page@.status == page.status
            &&& page@.body == page.body@
            &&& page@.truncated == page.truncated
        },
        output matches Err(message) ==> fetched_view(output) is Err && fetched_view(output)->Err_0
            == message@,
{
}

/// The view of the end of a call shows what is returned and what is logged.
pub proof fn law_ending_view(result: ToolResult, ending: Ending)
    ensures
        result@.content_json == result.content_json@,
        result@.is_error == result.is_error,
        ending@.result == ending.result@,
        ending@.error_line == opt_view(ending.error_line),
{
}

/// The view of a search shows its provider and its arguments.
pub proof fn law_search_view(search: Search)
    ensures
        search@.provider == search.provider,
        search@.query == search.args.query@,
        search@.requested == opt_view(search.args.provider),
        search@.num_results == search.args.num_results,
{
}

/// The view of a step shows which step it is and what it carries.
pub proof fn law_step_view(step: Step)
    ensures
        step matches Step::ParseSearchArgs { args_json } ==> step@ == (StepView::ParseSearchArgs {
            args_json: args_json@,
        }),
        step matches Step::ParseFetchArgs { args_json } ==> step@ == (StepView::ParseFetchArgs {
            args_json: args_json@,
        }),
        step matches Step::ReadVariable { search } ==> step@ == (StepView::ReadVariable {
            search: search@,
        }),
        step matches Step::SendSearch { search, line, request } ==> step@ == (
        StepView::SendSearch { search: search@, line: line@, request: request@ }),
        step matches Step::SendFetch { args, line, request } ==> step@ == (StepView::SendFetch {
            url: args.url@,
            line: line@,
            request: request@,
        }),
        step matches Step::EncodeSearch { found } ==> step@ == (StepView::EncodeSearch {
            found: found@,
        }),
        step matches Step::EncodeFetch { page } ==> step@ == (StepView::EncodeFetch {
            page: page@,
        }),
        step matches Step::Fail { message } ==> step@ == (StepView::Fail { message: message@ }),
{
}

/// The view of a tool's offer shows its name, its label, its description and its schema.
pub proof fn law_tool_view(tool: ToolDef)
    ensures
        tool@.name == tool.name@,
        tool@.label == tool.label@,
        tool@.description == tool.description@,
        tool@.parameters_json == tool.parameters_json@,
{
}

/// The members of an object are found under their keys; of two with the same key the later one
/// counts. No other key is found.
pub proof fn law_members_view(members: Seq<(String, Json)>, key: Seq<char>)
    ensures
        members_view(members).contains_key(key) <==> exists|i: int|
            0 <= i < members.len() && #[trigger] members[i].0@ == key,
        forall|i: int|
            0 <= i < members.len() && #[trigger] members[i].0@ == key && (forall|j: int|
                i < j < members.len() ==> #[trigger] members[j].0@ != key)
                ==> members_view(members)[key] == members[i].1.view(),
    decreases members.len(),
{
    if members.len() > 0 {
        let shorter = members.drop_last();
        let last = members.len() - 1;
        law_members_view(shorter, key);
        if members[last].0@ != key {
            if exists|i: int| 0 <= i < members.len() && #[trigger] members[i].0@ == key {
                let i = choose|i: int| 0 <= i < members.len() && #[trigger] members[i].0@ == key;
                assert(shorter[i].0@ == key);
            }
            if exists|i: int| 0 <= i < shorter.len() && #[trigger] shorter[i].0@ == key {
                let i = choose|i: int| 0 <= i < shorter.len() && #[trigger] shorter[i].0@ == key;
                assert(members[i].0@ == key);
            }
        }
        assert forall|i: int|
            0 <= i < members.len() && #[trigger] members[i].0@ == key && (forall|j: int|
                i < j < members.len() ==> #[trigger] members[j].0@ != key) implies members_view(
            members,
        )[key] == members[i].1.view() by {
            if i < last {
                assert(members[last].0@ != key);
                assert(shorter[i].0@ == key);
                assert forall|j: int| i < j < shorter.len() implies #[trigger] shorter[j].0@
                    != key by {
                    assert(members[j].0@ != key);
                }
            }
        }
    }
}

/// The view of a document shows its kind and what it holds.
pub proof fn law_document_view(json: Json)
    ensures
        json is Null ==> json@ == JsonView::Null,
        json matches Json::Bool(b) ==> json@ == JsonView::Bool(b),
        json matches Json::Number(text) ==> json@ == JsonView::Number(text@),
        json matches Json::Str(text) ==> json@ == JsonView::Str(text@),
        json matches Json::Array(elements) ==> {
            &&& json@ == JsonView::Array(elements_view(elements@))
            &&& elements_view(elements@).len() == elements@.len()
            &&& forall|i: int|
                0 <= i < elements@.len() ==> #[trigger] elements_view(elements@)[i]
                    == elements@[i].view()
        },
        json matches Json::Object(members) ==> json@ == JsonView::Object(members_view(members@)),
{
    if let Json::Array(elements) = json {
        lemma_elements_view(elements@);
    }
}

/// A text is read as the document that it parses to and as no other.
pub proof fn law_reading(text: Seq<char>, document: JsonView)
    ensures
        reads_as(text, document) <==> parsed_json(text) == Ok::<JsonView, Seq<char>>(document),
{
}

/// A member is found in an object that has it and in nothing else.
pub proof fn law_lookup(document: JsonView, key: Seq<char>)
    ensures
        document.get(key) is Some <==> document is Object && document->Object_0.contains_key(key),
        document.get(key) matches Some(member) ==> member == document->Object_0[key],
        document.as_str() is Some <==> document is Str,
        document.as_str() matches Some(text) ==> document == JsonView::Str(text),
        document.as_array() is Some <==> document is Array,
        document.as_array() matches Some(elements) ==> document == JsonView::Array(elements),
        document.text_at(key) is Some <==> document is Object && document->Object_0.contains_key(
            key,
        ) && document->Object_0[key] is Str,
        document.text_at(key) matches Some(text) ==> document->Object_0[key] == JsonView::Str(text),
        document.elements_at(key) is Some <==> document is Object
            && document->Object_0.contains_key(key) && document->Object_0[key] is Array,
        document.elements_at(key) matches Some(elements) ==> document->Object_0[key]
            == JsonView::Array(elements),
{
}

} // verus!
