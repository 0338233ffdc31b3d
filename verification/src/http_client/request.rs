//! `http/request` calls: checking the parameters, choosing the client, and forming the answer.

use crate::http_client::headers::{
    answers_contents, build_headers, built_contents, first_header_error, header_contents,
    header_listing, header_views, is_token, may_run_out_of_room, readable_entries,
    response_headers, too_many_headers,
};
use crate::http_client::url::{
    is_loopback_url, parse_url, parsed_url, same_origin, url_is_loopback, RequestUrl,
};
use crate::http_client::{internal_error, invalid_params, HttpHeader, JSONRPCErrorError, RpcErrorCode};
use crate::text::{join, joined, same_text, texts};
use reqwest::header::HeaderMap;
use vstd::prelude::*;
use vstd::string::*;

verus! {

/// What to do with a redirect answer.
#[derive(Clone, Copy, Debug, PartialEq, Eq, Structural)]
pub enum HttpRedirectPolicy {
    /// Go where the answer points.
    Follow,
    /// Hand the redirect answer to the caller.
    Stop,
}

/// The parameters of an `http/request` call.
#[derive(Clone, Debug)]
pub struct HttpRequestParams {
    pub method: String,
    pub url: String,
    pub headers: Vec<HttpHeader>,
    pub body: Option<Vec<u8>>,
    pub timeout_ms: Option<u64>,
    pub redirect_policy: HttpRedirectPolicy,
    pub request_id: String,
    /// Whether the body follows in notifications instead of in the answer.
    pub stream_response: bool,
}

/// How an HTTP client is to be built.
#[derive(Clone, Copy, Debug, PartialEq, Eq, Structural)]
pub struct ClientOptions {
    /// The time that a request may take; without it there is no limit.
    pub timeout_ms: Option<u64>,
    /// Whether the client follows redirects.
    pub follow_redirects: bool,
    /// Whether the configured proxies are used.
    pub use_proxy: bool,
}

/// The HTTP client that sends requests with `reqwest` from this process.
#[derive(Clone, Default)]
pub struct ReqwestHttpClient;

/// Which of the two clients sends a request.
#[derive(Clone, Copy, Debug, PartialEq, Eq, Structural)]
pub enum ClientRoute {
    /// The client that uses the configured proxies.
    Configured,
    /// The client for this machine, which uses no proxy.
    Loopback,
}

/// The two clients of a call.
#[derive(Clone, Copy, Debug, PartialEq, Eq, Structural)]
pub struct ReqwestHttpRequestRunner {
    pub client: ClientOptions,
    pub loopback_client: ClientOptions,
}

/// The options of a client.
pub open spec fn client_options(
    timeout_ms: Option<u64>,
    redirect_policy: HttpRedirectPolicy,
    disable_proxy: bool,
) -> ClientOptions {
    ClientOptions {
        timeout_ms,
        follow_redirects: redirect_policy == HttpRedirectPolicy::Follow,
        use_proxy: !disable_proxy,
    }
}

impl ReqwestHttpClient {
    /// Decides how a client is built. Local capabilities can carry bearer credentials, so the
    /// client for them is built with `disable_proxy`.
    pub fn build_client(
        timeout_ms: Option<u64>,
        redirect_policy: HttpRedirectPolicy,
        disable_proxy: bool,
    ) -> (options: ClientOptions)
        ensures
            options == client_options(timeout_ms, redirect_policy, disable_proxy),
            options.timeout_ms == timeout_ms,
            options.follow_redirects <==> redirect_policy is Follow,
            options.use_proxy == !disable_proxy,
    {
        ClientOptions {
            timeout_ms,
            follow_redirects: match redirect_policy {
                HttpRedirectPolicy::Follow => true,
                HttpRedirectPolicy::Stop => false,
            },
            use_proxy: !disable_proxy,
        }
    }
}

/// A request whose parameters were acceptable.
pub struct PreparedRequest {
    pub method: String,
    pub url: String,
    /// The parts of `url`.
    pub target: RequestUrl,
    pub headers: HeaderMap,
    pub route: ClientRoute,
    pub body: Option<Vec<u8>>,
    pub request_id: String,
    pub stream_response: bool,
}

/// The schemes that a request may use.
pub open spec fn is_http_scheme(scheme: Seq<char>) -> bool {
    scheme == "http"@ || scheme == "https"@
}

/// What is wrong with the method or the URL of a call, where the URL parsed to `parsed`.
pub open spec fn target_error(
    params: HttpRequestParams,
    parsed: Result<(Seq<char>, Option<Seq<char>>, Option<u16>), Seq<char>>,
) -> Option<Seq<char>> {
    if !is_token(params.method@) {
        Some("http/request method is invalid: "@ + "invalid HTTP method"@)
    } else {
        match parsed {
            Err(reason) => Some("http/request url is invalid: "@ + reason),
            Ok(url) => if is_http_scheme(url.0) {
                None
            } else {
                Some("http/request only supports http and https URLs, got "@ + url.0)
            },
        }
    }
}

/// What is wrong with the parameters of a call: the method, then the URL, then the headers.
pub open spec fn params_error(
    params: HttpRequestParams,
    parsed: Result<(Seq<char>, Option<Seq<char>>, Option<u16>), Seq<char>>,
) -> Option<Seq<char>> {
    match target_error(params, parsed) {
        Some(message) => Some(message),
        None => first_header_error(header_views(params.headers@)),
    }
}

/// The client that a URL is sent with.
pub open spec fn route_of(url: (Seq<char>, Option<Seq<char>>, Option<u16>)) -> ClientRoute {
    if is_loopback_url(url) {
        ClientRoute::Loopback
    } else {
        ClientRoute::Configured
    }
}

/// `prepared` is the request that acceptable `params` ask for.
pub open spec fn prepares(
    prepared: PreparedRequest,
    params: HttpRequestParams,
    parsed: Result<(Seq<char>, Option<Seq<char>>, Option<u16>), Seq<char>>,
) -> bool {
    &&& prepared.method@ == params.method@
    &&& prepared.url@ == params.url@
    &&& parsed == Ok::<_, Seq<char>>(prepared.target@)
    &&& header_contents(prepared.headers) == built_contents(header_views(params.headers@))
    &&& prepared.route == route_of(prepared.target@)
    &&& prepared.body == params.body
    &&& prepared.request_id@ == params.request_id@
    &&& prepared.stream_response == params.stream_response
}

/// The outcome of preparing a call whose URL parsed to `parsed`. A call with very many different
/// header names can fail because the header map is full.
pub open spec fn prepare_outcome(
    outcome: Result<PreparedRequest, JSONRPCErrorError>,
    params: HttpRequestParams,
    parsed: Result<(Seq<char>, Option<Seq<char>>, Option<u16>), Seq<char>>,
) -> bool {
    match outcome {
        Ok(prepared) => {
            &&& params_error(params, parsed) is None
            &&& prepares(prepared, params, parsed)
        },
        Err(error) => {
            ||| error@.0 == RpcErrorCode::InvalidParams && params_error(params, parsed) == Some(
                error@.1,
            )
            ||| error@ == too_many_headers() && may_run_out_of_room(header_views(params.headers@))
                && target_error(params, parsed) is None
        },
    }
}

/// The outcome of `RequestUrl::parse`, as texts.
pub open spec fn parse_outcome(parsed: Result<RequestUrl, String>) -> Result<
    (Seq<char>, Option<Seq<char>>, Option<u16>),
    Seq<char>,
> {
    match parsed {
        Ok(url) => Ok(url@),
        Err(reason) => Err(reason@),
    }
}

/// Calls `reqwest::Method::from_bytes` and reads `as_str`, or the display text of the error. The
/// contract claims that the methods are the HTTP tokens, kept as they are written.
#[verifier::external_body]
fn parse_method(text: &str) -> (method: Result<String, String>)
    ensures
        match method {
            Ok(method) => is_token(text@) && method@ == text@,
            Err(message) => !is_token(text@) && message@ == "invalid HTTP method"@,
        },
{
    match reqwest::Method::from_bytes(text.as_bytes()) {
        Ok(method) => Ok(method.as_str().to_string()),
        Err(error) => Err(error.to_string()),
    }
}

fn with_reason(text: &str, reason: &str) -> (message: String)
    ensures
        message@ == text@ + reason@,
{
    let mut message = text.to_string();
    message.append(reason);
    message
}

/// Checks the parameters of a call whose URL was parsed to `parsed`, and forms the request.
pub fn prepare_parsed(
    params: HttpRequestParams,
    parsed: Result<RequestUrl, String>,
) -> (outcome: Result<PreparedRequest, JSONRPCErrorError>)
    ensures
        prepare_outcome(outcome, params, parse_outcome(parsed)),
{
    let method = match parse_method(params.method.as_str()) {
        Ok(method) => method,
        Err(reason) => {
            return Err(
                invalid_params(with_reason("http/request method is invalid: ", reason.as_str())),
            );
        },
    };
    let target = match parsed {
        Ok(url) => url,
        Err(reason) => {
            return Err(
                invalid_params(with_reason("http/request url is invalid: ", reason.as_str())),
            );
        },
    };
    if !same_text(target.scheme.as_str(), "http") && !same_text(target.scheme.as_str(), "https") {
        return Err(
            invalid_params(
                with_reason(
                    "http/request only supports http and https URLs, got ",
                    target.scheme.as_str(),
                ),
            ),
        );
    }
    let headers = match build_headers(params.headers) {
        Ok(headers) => headers,
        Err(error) => {
            return Err(error);
        },
    };
    let route = if url_is_loopback(&target) {
        ClientRoute::Loopback
    } else {
        ClientRoute::Configured
    };
    Ok(
        PreparedRequest {
            method,
            url: params.url,
            target,
            headers,
            route,
            body: params.body,
            request_id: params.request_id,
            stream_response: params.stream_response,
        },
    )
}

impl ReqwestHttpRequestRunner {
    /// The clients of a call: one with the configured proxies, one without any.
    pub fn new(timeout_ms: Option<u64>, redirect_policy: HttpRedirectPolicy) -> (runner: Self)
        ensures
            runner.client == client_options(timeout_ms, redirect_policy, false),
            runner.loopback_client == client_options(timeout_ms, redirect_policy, true),
            runner.client.timeout_ms == timeout_ms,
            runner.loopback_client.timeout_ms == timeout_ms,
            runner.client.follow_redirects <==> redirect_policy is Follow,
            runner.loopback_client.follow_redirects <==> redirect_policy is Follow,
            runner.client.use_proxy,
            !runner.loopback_client.use_proxy,
    {
        ReqwestHttpRequestRunner {
            client: ReqwestHttpClient::build_client(timeout_ms, redirect_policy, false),
            loopback_client: ReqwestHttpClient::build_client(timeout_ms, redirect_policy, true),
        }
    }

    /// The options of the client that `route` stands for.
    pub open spec fn options_of(self, route: ClientRoute) -> ClientOptions {
        match route {
            ClientRoute::Configured => self.client,
            ClientRoute::Loopback => self.loopback_client,
        }
    }

    /// The client that `route` stands for.
    pub fn client_for(&self, route: ClientRoute) -> (options: ClientOptions)
        ensures
            options == self.options_of(route),
    {
        match route {
            ClientRoute::Configured => self.client,
            ClientRoute::Loopback => self.loopback_client,
        }
    }

    /// Checks the parameters of a call and forms the request that is sent.
    pub fn prepare(params: HttpRequestParams) -> (outcome: Result<
        PreparedRequest,
        JSONRPCErrorError,
    >)
        ensures
            prepare_outcome(outcome, params, parsed_url(params.url@)),
    {
        let parsed = parse_url(params.url.as_str());
        prepare_parsed(params, parsed)
    }
}

/// The answer to an `http/request` call.
#[derive(Clone, Debug, PartialEq, Eq)]
pub struct HttpRequestResponse {
    pub status: u16,
    pub headers: Vec<HttpHeader>,
    pub body: Vec<u8>,
}

/// A response body that is still to be forwarded in notifications.
#[derive(Clone, Debug, PartialEq, Eq)]
pub struct PendingReqwestHttpBodyStream {
    pub request_id: String,
}

/// What happens once the head of a response is there.
pub enum ResponseStep {
    /// The call is answered without a body, which is then streamed.
    StreamBody(HttpRequestResponse, PendingReqwestHttpBodyStream),
    /// The body is read before the call is answered.
    ReadBody(HttpRequestResponse),
}

/// The answer of a call without its body.
pub open spec fn is_response_head(
    response: HttpRequestResponse,
    status: u16,
    headers: HeaderMap,
) -> bool {
    &&& response.status == status
    &&& header_views(response.headers@) == readable_entries(header_listing(headers))
    &&& answers_contents(response.headers@, header_contents(headers))
    &&& response.body@ == Seq::<u8>::empty()
}

impl ReqwestHttpRequestRunner {
    /// The error of a request that could not be sent.
    pub fn send_failed(reason: &str) -> (error: JSONRPCErrorError)
        ensures
            error@ == (RpcErrorCode::InternalError, "http/request failed: "@ + reason@),
    {
        internal_error(with_reason("http/request failed: ", reason))
    }

    /// Decides, from the head of a response, whether its body is read or streamed.
    pub fn answer(
        stream_response: bool,
        request_id: String,
        status: u16,
        headers: &HeaderMap,
    ) -> (step: ResponseStep)
        ensures
            match step {
                ResponseStep::StreamBody(response, pending) => {
                    &&& stream_response
                    &&& is_response_head(response, status, *headers)
                    &&& pending.request_id@ == request_id@
                },
                ResponseStep::ReadBody(response) => {
                    &&& !stream_response
                    &&& is_response_head(response, status, *headers)
                },
            },
    {
        let response = HttpRequestResponse {
            status,
            headers: response_headers(headers),
            body: Vec::new(),
        };
        if stream_response {
            ResponseStep::StreamBody(response, PendingReqwestHttpBodyStream { request_id })
        } else {
            ResponseStep::ReadBody(response)
        }
    }

    /// Completes an answer with the body that was read, or with the reason why it was not.
    pub fn with_body(head: HttpRequestResponse, body: Result<Vec<u8>, String>) -> (outcome: Result<
        HttpRequestResponse,
        JSONRPCErrorError,
    >)
        ensures
            match body {
                Ok(bytes) => outcome == Ok::<_, JSONRPCErrorError>(
                    (HttpRequestResponse { status: head.status, headers: head.headers, body: bytes }),
                ),
                Err(reason) => outcome matches Err(error) && error@ == (
                    RpcErrorCode::InternalError,
                    "failed to read http/request response body: "@ + reason@,
                ),
            },
    {
        match body {
            Ok(bytes) => Ok(
                HttpRequestResponse { status: head.status, headers: head.headers, body: bytes },
            ),
            Err(reason) => Err(
                internal_error(
                    with_reason("failed to read http/request response body: ", reason.as_str()),
                ),
            ),
        }
    }
}

/// The error of a client call.
#[derive(Clone, Debug, PartialEq, Eq)]
pub enum ExecServerError {
    /// The request failed, for the reason given.
    HttpRequest(String),
    /// The two sides of a call did not agree.
    Protocol(String),
}

impl View for ExecServerError {
    type V = (bool, Seq<char>);

    /// Whether the request failed, and the text.
    open spec fn view(&self) -> Self::V {
        match self {
            ExecServerError::HttpRequest(message) => (true, message@),
            ExecServerError::Protocol(message) => (false, message@),
        }
    }
}

/// The outcome of starting a client call, where building its clients ended with `built` and its
/// URL parsed to `parsed`. Without the clients the parameters are not looked at.
pub open spec fn start_outcome(
    outcome: Result<PreparedRequest, ExecServerError>,
    params: HttpRequestParams,
    built: Result<(), JSONRPCErrorError>,
    parsed: Result<(Seq<char>, Option<Seq<char>>, Option<u16>), Seq<char>>,
) -> bool {
    match built {
        Err(failure) => outcome == Err::<PreparedRequest, ExecServerError>(
            ExecServerError::HttpRequest(failure.message),
        ),
        Ok(_) => match outcome {
            Ok(prepared) => {
                &&& params_error(params, parsed) is None
                &&& prepares(prepared, params, parsed)
            },
            Err(error) => {
                ||| error@.0 && params_error(params, parsed) == Some(error@.1)
                ||| error@ == (true, too_many_headers().1) && may_run_out_of_room(
                    header_views(params.headers@),
                ) && target_error(params, parsed) is None
            },
        },
    }
}

/// `params` with the body streamed or not.
pub open spec fn with_streaming(
    params: HttpRequestParams,
    stream_response: bool,
) -> HttpRequestParams {
    HttpRequestParams { stream_response, ..params }
}

/// The end of a call whose body comes with the answer.
pub open spec fn request_done(
    result: Result<(HttpRequestResponse, Option<PendingReqwestHttpBodyStream>), JSONRPCErrorError>,
) -> Result<HttpRequestResponse, ExecServerError> {
    match result {
        Ok((response, _)) => Ok(response),
        Err(error) => Err(ExecServerError::HttpRequest(error.message)),
    }
}

/// What a call whose body comes with the answer gives, where it started with `started` and a
/// request that was started ended with `result`.
pub open spec fn call_outcome(
    started: Result<PreparedRequest, ExecServerError>,
    result: Result<(HttpRequestResponse, Option<PendingReqwestHttpBodyStream>), JSONRPCErrorError>,
) -> Result<HttpRequestResponse, (bool, Seq<char>)> {
    match started {
        Ok(_) => match request_done(result) {
            Ok(response) => Ok(response),
            Err(error) => Err(error@),
        },
        Err(error) => Err(error@),
    }
}

/// The two requests are sent alike and their answers are read alike.
pub open spec fn same_request(a: PreparedRequest, b: PreparedRequest) -> bool {
    &&& a.method@ == b.method@
    &&& a.url@ == b.url@
    &&& a.target@ == b.target@
    &&& header_contents(a.headers) == header_contents(b.headers)
    &&& a.route == b.route
    &&& a.body == b.body
    &&& a.request_id@ == b.request_id@
    &&& a.stream_response == b.stream_response
}

fn start(params: HttpRequestParams, built: Result<(), JSONRPCErrorError>) -> (outcome: Result<
    PreparedRequest,
    ExecServerError,
>)
    ensures
        start_outcome(outcome, params, built, parsed_url(params.url@)),
{
    match built {
        Ok(_) => match ReqwestHttpRequestRunner::prepare(params) {
            Ok(prepared) => Ok(prepared),
            Err(error) => Err(ExecServerError::HttpRequest(error.message)),
        },
        Err(error) => Err(ExecServerError::HttpRequest(error.message)),
    }
}

impl ReqwestHttpClient {
    /// Starts a call whose body comes with the answer, whatever `params` say of streaming.
    /// `built` tells how building the clients of `ReqwestHttpRequestRunner::new` ended.
    pub fn http_request(
        &self,
        params: HttpRequestParams,
        built: Result<(), JSONRPCErrorError>,
    ) -> (outcome: Result<PreparedRequest, ExecServerError>)
        ensures
            start_outcome(outcome, with_streaming(params, false), built, parsed_url(params.url@)),
    {
        start(HttpRequestParams { stream_response: false, ..params }, built)
    }

    /// Starts a call whose body is streamed, whatever `params` say of it. `built` tells how
    /// building the clients of `ReqwestHttpRequestRunner::new` ended.
    pub fn http_request_stream(
        &self,
        params: HttpRequestParams,
        built: Result<(), JSONRPCErrorError>,
    ) -> (outcome: Result<PreparedRequest, ExecServerError>)
        ensures
            start_outcome(outcome, with_streaming(params, true), built, parsed_url(params.url@)),
    {
        start(HttpRequestParams { stream_response: true, ..params }, built)
    }

    /// Ends a call whose body comes with the answer.
    pub fn http_request_done(
        result: Result<
            (HttpRequestResponse, Option<PendingReqwestHttpBodyStream>),
            JSONRPCErrorError,
        >,
    ) -> (outcome: Result<HttpRequestResponse, ExecServerError>)
        ensures
            outcome == request_done(result),
    {
        match result {
            Ok((response, _)) => Ok(response),
            Err(error) => Err(ExecServerError::HttpRequest(error.message)),
        }
    }

    /// Ends a call whose body is streamed; an answer without a body to stream is an error.
    pub fn http_request_stream_done(
        result: Result<
            (HttpRequestResponse, Option<PendingReqwestHttpBodyStream>),
            JSONRPCErrorError,
        >,
    ) -> (outcome: Result<(HttpRequestResponse, PendingReqwestHttpBodyStream), ExecServerError>)
        ensures
            match result {
                Ok((response, Some(pending))) => outcome == Ok::<_, ExecServerError>(
                    (response, pending),
                ),
                Ok((_, None)) => outcome matches Err(error) && error@ == (
                    false,
                    "http request stream did not return a response body stream"@,
                ),
                Err(error) => outcome == Err::<
                    (HttpRequestResponse, PendingReqwestHttpBodyStream),
                    _,
                >(ExecServerError::HttpRequest(error.message)),
            },
    {
        match result {
            Ok((response, Some(pending))) => Ok((response, pending)),
            Ok((_, None)) => Err(
                ExecServerError::Protocol(
                    "http request stream did not return a response body stream".to_string(),
                ),
            ),
            Err(error) => Err(ExecServerError::HttpRequest(error.message)),
        }
    }
}

/// The texts of the errors behind an error, outermost first, in one line; nothing where there
/// are none.
pub fn error_source_chain(sources: &Vec<String>) -> (chain: Option<String>)
    ensures
        match chain {
            Some(text) => sources@.len() > 0 && text@ == joined(texts(sources@), ": "@),
            None => sources@.len() == 0,
        },
{
    if sources.len() == 0 {
        None
    } else {
        Some(join(sources, ": "))
    }
}

/// A `GET` request with a bearer credential, as a local capability sends it.
pub fn request(url: String, redirect_policy: HttpRedirectPolicy) -> (params: HttpRequestParams)
    ensures
        params.method@ == "GET"@,
        params.url == url,
        header_views(params.headers@) == seq![("Authorization"@, "Bearer fixture-mcp-token"@)],
        params.body is None,
        params.timeout_ms == Some(2000u64),
        params.redirect_policy == redirect_policy,
        params.request_id@ == "loopback-regression"@,
        !params.stream_response,
{
    let header = HttpHeader {
        name: "Authorization".to_string(),
        value: "Bearer fixture-mcp-token".to_string(),
    };
    let mut headers: Vec<HttpHeader> = Vec::new();
    headers.push(header);
    assert(header_views(headers@) =~= seq![("Authorization"@, "Bearer fixture-mcp-token"@)]);
    HttpRequestParams {
        method: "GET".to_string(),
        url,
        headers,
        body: None,
        timeout_ms: Some(2000),
        redirect_policy,
        request_id: "loopback-regression".to_string(),
        stream_response: false,
    }
}

/// The call did not start because the header map had no room.
pub open spec fn ran_out_of_room(started: Result<PreparedRequest, ExecServerError>) -> bool {
    started matches Err(error) && error@ == (true, too_many_headers().1)
}

/// A call whose body comes with the answer does not depend on what its parameters say of
/// streaming. Where both calls start they send the same request, whose body is read; and where
/// the outside serves both alike, in room for the headers and in how the request ends, they give
/// the same outcome.
pub proof fn http_request_ignores_the_streaming_flag(
    params: HttpRequestParams,
    built: Result<(), JSONRPCErrorError>,
    streamed: Result<PreparedRequest, ExecServerError>,
    read: Result<PreparedRequest, ExecServerError>,
    result: Result<(HttpRequestResponse, Option<PendingReqwestHttpBodyStream>), JSONRPCErrorError>,
)
    requires
        start_outcome(
            streamed,
            with_streaming((HttpRequestParams { stream_response: true, ..params }), false),
            built,
            parsed_url(params.url@),
        ),
        start_outcome(
            read,
            with_streaming((HttpRequestParams { stream_response: false, ..params }), false),
            built,
            parsed_url(params.url@),
        ),
    ensures
        streamed is Ok && read is Ok ==> same_request(streamed->Ok_0, read->Ok_0)
            && !streamed->Ok_0.stream_response,
        ran_out_of_room(streamed) == ran_out_of_room(read) ==> {
            &&& streamed is Ok <==> read is Ok
            &&& call_outcome(streamed, result) == call_outcome(read, result)
        },
        call_outcome(streamed, result) != call_outcome(read, result) ==> may_run_out_of_room(
            header_views(params.headers@),
        ) && (ran_out_of_room(streamed) || ran_out_of_room(read)),
{
}

/// A request to this machine never goes through a proxy, and every other request goes through
/// the configured ones, whatever the timeout and the redirect policy.
pub proof fn only_loopback_requests_skip_the_proxy(
    runner: ReqwestHttpRequestRunner,
    timeout_ms: Option<u64>,
    redirect_policy: HttpRedirectPolicy,
    url: (Seq<char>, Option<Seq<char>>, Option<u16>),
)
    requires
        runner.client == client_options(timeout_ms, redirect_policy, false),
        runner.loopback_client == client_options(timeout_ms, redirect_policy, true),
    ensures
        runner.options_of(route_of(url)).use_proxy == !is_loopback_url(url),
{
}

/// A redirect that a loopback request may follow leads to the same origin, so the redirected
/// request is again one that uses no proxy.
pub proof fn allowed_redirects_stay_on_this_machine(
    start: (Seq<char>, Option<Seq<char>>, Option<u16>),
    next: (Seq<char>, Option<Seq<char>>, Option<u16>),
)
    requires
        is_loopback_url(start),
        same_origin(start, next),
    ensures
        route_of(next) == ClientRoute::Loopback,
        next.0 == start.0,
        next.1 == start.1,
        next.2 == start.2,
{
}

} // verus!
