//! Fetching a page.

use crate::http::{
    agent_headers, announced, call_view, get_request, reply_view, Call, HttpRequest, HttpResponse,
    RequestView, ResponseView,
};
use crate::json::JsonView;
use crate::text::{decimal, has_prefix, head, head_view, utf8_len};
use vstd::prelude::*;
use vstd::string::*;
use vstd::utf8::*;

verus! {

/// What a fetch is asked for.
#[derive(Debug, PartialEq, Eq)]
pub struct FetchArgs {
    pub url: String,
}

/// What a fetch brought.
#[derive(Debug, PartialEq, Eq)]
pub struct FetchOutput {
    pub url: String,
    pub status: u16,
    pub body: String,
    pub truncated: bool,
}

/// What the outcome of a fetch holds.
pub struct FetchView {
    pub url: Seq<char>,
    pub status: u16,
    pub body: Seq<char>,
    pub truncated: bool,
}

impl View for FetchOutput {
    type V = FetchView;

    open spec fn view(&self) -> FetchView {
        FetchView {
            url: self.url@,
            status: self.status,
            body: self.body@,
            truncated: self.truncated,
        }
    }
}

/// What the outcome of a fetch, or the message that says why there is none, holds.
pub open spec fn fetched_view(output: Result<FetchOutput, String>) -> Result<FetchView, Seq<char>> {
    match output {
        Ok(output) => Ok(output@),
        Err(message) => Err(message@),
    }
}

/// The document of what a fetch brought.
pub open spec fn fetch_document(output: FetchView) -> JsonView {
    JsonView::Object(
        map![
            "url"@ => JsonView::Str(output.url),
            "status"@ => JsonView::Number(decimal(output.status as nat)),
            "body"@ => JsonView::Str(output.body),
            "truncated"@ => JsonView::Bool(output.truncated),
        ],
    )
}

/// The most bytes of a body that are handed on.
pub const FETCH_BODY_MAX_BYTES: usize = 16 * 1024;

/// Whether a URL is one that may be fetched.
pub open spec fn is_web_url(url: Seq<char>) -> bool {
    "http://"@.is_prefix_of(url) || "https://"@.is_prefix_of(url)
}

/// The request that fetches a page, or why there is none.
pub open spec fn fetch_request(url: Seq<char>) -> Result<RequestView, Seq<char>> {
    if is_web_url(url) {
        Ok(RequestView::Get { url, headers: agent_headers() })
    } else {
        Err("url must start with http:// or https://"@)
    }
}

/// The line that is logged before a page is asked for.
pub open spec fn fetch_line_view(url: Seq<char>) -> Seq<char> {
    "fetch: "@ + url
}

/// What a fetch comes to with a given reply.
pub open spec fn fetch_outcome(url: Seq<char>, reply: Result<ResponseView, Seq<char>>) -> Result<
    FetchView,
    Seq<char>,
> {
    match reply {
        Ok(response) => {
            let too_long = utf8_len(response.body) > FETCH_BODY_MAX_BYTES;
            Ok(
                FetchView {
                    url,
                    status: response.status,
                    body: if too_long {
                        head_view(response.body, FETCH_BODY_MAX_BYTES as nat)
                    } else {
                        response.body
                    },
                    truncated: too_long,
                },
            )
        },
        Err(reason) => Err("fetch http: "@ + reason),
    }
}

/// Asks for a page; only a web address is accepted.
pub fn do_fetch(args: &FetchArgs) -> (call: Result<Call, String>)
    ensures
        call_view(call) == announced(fetch_line_view(args.url@), fetch_request(args.url@)),
        call is Ok <==> "http://"@.is_prefix_of(args.url@) || "https://"@.is_prefix_of(args.url@),
        call matches Ok(call) ==> {
            &&& call.line@ == "fetch: "@ + args.url@
            &&& call.request matches HttpRequest::Get { url, .. } && url@ == args.url@
        },
{
    if !has_prefix(args.url.as_str(), "http://") && !has_prefix(args.url.as_str(), "https://") {
        return Err("url must start with http:// or https://".to_string());
    }
    let line = "fetch: ".to_string().concat(args.url.as_str());
    Ok(Call { line, request: get_request(args.url.clone()) })
}

/// Makes the outcome of a fetch of what came back for its request.
///
/// A body that is too long is cut between two characters. The status does not matter.
pub fn read_page(args: FetchArgs, reply: Result<HttpResponse, String>) -> (output: Result<
    FetchOutput,
    String,
>)
    ensures
        fetched_view(output) == fetch_outcome(args.url@, reply_view(reply)),
        reply matches Ok(response) ==> (output matches Ok(page) && {
            &&& page.url@ == args.url@
            &&& page.status == response.status
            &&& page.truncated <==> encode_utf8(response.body@).len() > 16384
            &&& encode_utf8(response.body@).len() <= 16384 ==> page.body@ == response.body@
            &&& page.body@.is_prefix_of(response.body@)
            &&& encode_utf8(page.body@).len() <= 16384
            &&& forall|k: int|
                page.body@.len() < k <= response.body@.len() ==> encode_utf8(
                    #[trigger] response.body@.take(k),
                ).len() > 16384
        }),
        reply matches Err(reason) ==> (output matches Err(message) && message@ == "fetch http: "@
            + reason@),
{
    match reply {
        Ok(response) => {
            let status: u16 = response.status;
            let (body, truncated) = if response.body.as_str().as_bytes().len()
                > FETCH_BODY_MAX_BYTES {
                (head(response.body.as_str(), FETCH_BODY_MAX_BYTES).to_string(), true)
            } else {
                (response.body, false)
            };
            Ok(FetchOutput { url: args.url, status, body, truncated })
        },
        Err(reason) => Err("fetch http: ".to_string().concat(reason.as_str())),
    }
}

} // verus!
