//! The HTTP exchanges that the host performs.

use vstd::prelude::*;

verus! {

/// What a list of headers holds.
pub open spec fn headers_view(headers: Seq<(String, String)>) -> Seq<(Seq<char>, Seq<char>)> {
    headers.map_values(|header: (String, String)| (header.0@, header.1@))
}

/// A request that the host is asked to send.
#[derive(Debug, PartialEq, Eq)]
pub enum HttpRequest {
    Get { url: String, headers: Vec<(String, String)> },
    Post { url: String, headers: Vec<(String, String)>, body: String },
}

/// What a request holds.
pub enum RequestView {
    Get { url: Seq<char>, headers: Seq<(Seq<char>, Seq<char>)> },
    Post { url: Seq<char>, headers: Seq<(Seq<char>, Seq<char>)>, body: Seq<char> },
}

impl View for HttpRequest {
    type V = RequestView;

    open spec fn view(&self) -> RequestView {
        match self {
            HttpRequest::Get { url, headers } => RequestView::Get {
                url: url@,
                headers: headers_view(headers@),
            },
            HttpRequest::Post { url, headers, body } => RequestView::Post {
                url: url@,
                headers: headers_view(headers@),
                body: body@,
            },
        }
    }
}

/// What a server answered.
#[derive(Debug, PartialEq, Eq)]
pub struct HttpResponse {
    pub status: u16,
    pub body: String,
}

/// What a response holds.
pub struct ResponseView {
    pub status: u16,
    pub body: Seq<char>,
}

impl View for HttpResponse {
    type V = ResponseView;

    open spec fn view(&self) -> ResponseView {
        ResponseView { status: self.status, body: self.body@ }
    }
}

/// What came back for a request: a response, or the host's reason why there is none.
pub open spec fn reply_view(reply: Result<HttpResponse, String>) -> Result<
    ResponseView,
    Seq<char>,
> {
    match reply {
        Ok(response) => Ok(response@),
        Err(reason) => Err(reason@),
    }
}

/// A request, and the line that is logged for information before it is sent.
#[derive(Debug, PartialEq, Eq)]
pub struct Call {
    pub line: String,
    pub request: HttpRequest,
}

/// What a call holds.
pub struct CallView {
    pub line: Seq<char>,
    pub request: RequestView,
}

impl View for Call {
    type V = CallView;

    open spec fn view(&self) -> CallView {
        CallView { line: self.line@, request: self.request@ }
    }
}

/// What a call, or the message that says why there is none, holds.
pub open spec fn call_view(call: Result<Call, String>) -> Result<CallView, Seq<char>> {
    match call {
        Ok(call) => Ok(call@),
        Err(message) => Err(message@),
    }
}

/// The call that makes a request after logging a line; nothing is logged without a request.
pub open spec fn announced(line: Seq<char>, request: Result<RequestView, Seq<char>>) -> Result<
    CallView,
    Seq<char>,
> {
    match request {
        Ok(request) => Ok(CallView { line, request }),
        Err(message) => Err(message),
    }
}

/// The headers of a request without a body.
pub open spec fn agent_headers() -> Seq<(Seq<char>, Seq<char>)> {
    seq![("User-Agent"@, "grain-web-search-plugin/0.1"@)]
}

/// A GET request for `url` that names the plugin.
pub fn get_request(url: String) -> (request: HttpRequest)
    ensures
        request@ == (RequestView::Get { url: url@, headers: agent_headers() }),
{
    let headers = vec![("User-Agent".to_string(), "grain-web-search-plugin/0.1".to_string())];
    assert(headers_view(headers@) =~= agent_headers());
    HttpRequest::Get { url, headers }
}

} // verus!
