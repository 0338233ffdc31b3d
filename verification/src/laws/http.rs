//! Checking, routing and answering of `http/request` calls.

use crate::http_client::headers::{
    built_contents, first_header_error, header_contents, header_listing, header_views, is_token,
    may_run_out_of_room, readable_entries,
};
use crate::http_client::request::{
    client_options, is_http_scheme, is_response_head, params_error, parse_outcome, prepare_outcome,
    request_done, start_outcome, target_error, with_streaming, ClientRoute, ExecServerError,
    HttpRedirectPolicy, HttpRequestParams, HttpRequestResponse, PendingReqwestHttpBodyStream,
    PreparedRequest, ReqwestHttpRequestRunner,
};
use crate::http_client::url::{is_loopback_url, RequestUrl};
use crate::http_client::{JSONRPCErrorError, RpcErrorCode};
use reqwest::header::HeaderMap;
use vstd::prelude::*;

verus! {

/// A client carries exactly the timeout that it was asked for, and none where none was asked for;
/// it follows redirects exactly where that was asked for, and uses the proxies exactly where they
/// were not disabled. None of the three depends on the others.
pub proof fn clients_are_built_as_asked(
    timeout_ms: Option<u64>,
    redirect_policy: HttpRedirectPolicy,
    disable_proxy: bool,
)
    ensures
        client_options(timeout_ms, redirect_policy, disable_proxy).timeout_ms == timeout_ms,
        client_options(timeout_ms, HttpRedirectPolicy::Follow, disable_proxy).follow_redirects,
        !client_options(timeout_ms, HttpRedirectPolicy::Stop, disable_proxy).follow_redirects,
        client_options(timeout_ms, redirect_policy, disable_proxy).use_proxy == !disable_proxy,
{
}

/// Both clients of a call carry the call's timeout and redirect policy; they differ in the proxies
/// alone. The loopback route takes the one without, the other route the one with.
pub proof fn both_clients_of_a_call_differ_in_the_proxy(
    runner: ReqwestHttpRequestRunner,
    timeout_ms: Option<u64>,
    redirect_policy: HttpRedirectPolicy,
    route: ClientRoute,
)
    requires
        runner.client == client_options(timeout_ms, redirect_policy, false),
        runner.loopback_client == client_options(timeout_ms, redirect_policy, true),
    ensures
        runner.client.timeout_ms == timeout_ms,
        runner.loopback_client.timeout_ms == timeout_ms,
        runner.client.follow_redirects == runner.loopback_client.follow_redirects,
        runner.client.use_proxy,
        !runner.loopback_client.use_proxy,
        runner.options_of(ClientRoute::Configured) == runner.client,
        runner.options_of(ClientRoute::Loopback) == runner.loopback_client,
        runner.options_of(route).use_proxy <==> route is Configured,
{
}

/// The target of a call is refused for its method, then for a URL that does not parse, then for a
/// scheme other than `http` and `https`. Otherwise its headers decide. Each has its message.
pub proof fn parameters_are_checked_in_order(
    params: HttpRequestParams,
    parsed: Result<(Seq<char>, Option<Seq<char>>, Option<u16>), Seq<char>>,
)
    ensures
        !is_token(params.method@) ==> params_error(params, parsed) == Some(
            "http/request method is invalid: "@ + "invalid HTTP method"@,
        ),
        is_token(params.method@) && parsed is Err ==> params_error(params, parsed) == Some(
            "http/request url is invalid: "@ + parsed->Err_0,
        ),
        is_token(params.method@) && parsed is Ok && parsed->Ok_0.0 != "http"@ && parsed->Ok_0.0
            != "https"@ ==> params_error(params, parsed) == Some(
            "http/request only supports http and https URLs, got "@ + parsed->Ok_0.0,
        ),
        is_token(params.method@) && parsed is Ok && (parsed->Ok_0.0 == "http"@ || parsed->Ok_0.0
            == "https"@) ==> params_error(params, parsed) == first_header_error(
            header_views(params.headers@),
        ),
        target_error(params, parsed) is None <==> is_token(params.method@) && parsed is Ok && (
        parsed->Ok_0.0 == "http"@ || parsed->Ok_0.0 == "https"@),
        parsed is Ok ==> (is_http_scheme(parsed->Ok_0.0) <==> parsed->Ok_0.0 == "http"@
            || parsed->Ok_0.0 == "https"@),
{
}

/// The checks look at the method, the URL and the headers alone: the body, the timeout, the
/// redirect policy, the number of the request and streaming never refuse a call.
pub proof fn other_parameters_refuse_no_call(
    first: HttpRequestParams,
    second: HttpRequestParams,
    parsed: Result<(Seq<char>, Option<Seq<char>>, Option<u16>), Seq<char>>,
)
    requires
        first.method@ == second.method@,
        header_views(first.headers@) == header_views(second.headers@),
    ensures
        params_error(first, parsed) == params_error(second, parsed),
        target_error(first, parsed) == target_error(second, parsed),
{
}

/// A call whose header map cannot run out of room is prepared exactly where nothing is wrong with
/// its parameters, and otherwise refused as a fault of the parameters with their message. What is
/// prepared is what was asked for: the method, the URL, the headers, the body, the number and
/// streaming, on the loopback route exactly where the URL stays on this machine.
pub proof fn calls_are_prepared_as_asked(
    outcome: Result<PreparedRequest, JSONRPCErrorError>,
    params: HttpRequestParams,
    parsed: Result<(Seq<char>, Option<Seq<char>>, Option<u16>), Seq<char>>,
)
    requires
        prepare_outcome(outcome, params, parsed),
    ensures
        outcome is Ok ==> params_error(params, parsed) is None,
        outcome matches Ok(prepared) ==> {
            &&& prepared.method@ == params.method@
            &&& prepared.url@ == params.url@
            &&& parsed is Ok
            &&& prepared.target@ == parsed->Ok_0
            &&& header_contents(prepared.headers) == built_contents(header_views(params.headers@))
            &&& prepared.route is Loopback <==> is_loopback_url(parsed->Ok_0)
            &&& prepared.body == params.body
            &&& prepared.request_id@ == params.request_id@
            &&& prepared.stream_response == params.stream_response
        },
        outcome is Err && !may_run_out_of_room(header_views(params.headers@)) ==> {
            &&& outcome->Err_0.code == RpcErrorCode::InvalidParams
            &&& params_error(params, parsed) == Some(outcome->Err_0.message@)
        },
        params_error(params, parsed) is Some && !may_run_out_of_room(header_views(params.headers@))
            ==> outcome is Err,
        outcome is Err && outcome->Err_0.code is InternalError ==> outcome->Err_0.message@
            == "http/request has too many headers"@ && target_error(params, parsed) is None,
{
}

/// A client call reports clients that were not built, whatever its parameters are, and then what a
/// prepared call reports; both as a failed request.
pub proof fn client_calls_report_the_clients_first(
    outcome: Result<PreparedRequest, ExecServerError>,
    params: HttpRequestParams,
    built: Result<(), JSONRPCErrorError>,
    parsed: Result<(Seq<char>, Option<Seq<char>>, Option<u16>), Seq<char>>,
)
    requires
        start_outcome(outcome, params, built, parsed),
    ensures
        built matches Err(failure) ==> outcome matches Err(ExecServerError::HttpRequest(message))
            && message@ == failure.message@,
        outcome is Err ==> outcome->Err_0 is HttpRequest,
        outcome is Ok ==> built is Ok && params_error(params, parsed) is None,
        outcome matches Ok(prepared) ==> {
            &&& prepared.method@ == params.method@
            &&& prepared.url@ == params.url@
            &&& parsed is Ok
            &&& prepared.target@ == parsed->Ok_0
            &&& header_contents(prepared.headers) == built_contents(header_views(params.headers@))
            &&& prepared.route is Loopback <==> is_loopback_url(parsed->Ok_0)
            &&& prepared.body == params.body
            &&& prepared.request_id@ == params.request_id@
            &&& prepared.stream_response == params.stream_response
        },
        built is Ok && outcome is Err && !may_run_out_of_room(header_views(params.headers@)) ==> {
            &&& outcome->Err_0 is HttpRequest
            &&& params_error(params, parsed) == Some(outcome->Err_0->HttpRequest_0@)
        },
{
}

/// Asking for a streamed or an unstreamed body changes that alone.
pub proof fn streaming_changes_nothing_else(params: HttpRequestParams, stream_response: bool)
    ensures
        with_streaming(params, stream_response).stream_response == stream_response,
        with_streaming(params, stream_response).method == params.method,
        with_streaming(params, stream_response).url == params.url,
        with_streaming(params, stream_response).headers == params.headers,
        with_streaming(params, stream_response).body == params.body,
        with_streaming(params, stream_response).timeout_ms == params.timeout_ms,
        with_streaming(params, stream_response).redirect_policy == params.redirect_policy,
        with_streaming(params, stream_response).request_id == params.request_id,
{
}

/// The head of an answer has the status and the readable headers of the response, in its order, and
/// no body.
pub proof fn response_heads_have_no_body(
    response: HttpRequestResponse,
    status: u16,
    headers: HeaderMap,
)
    requires
        is_response_head(response, status, headers),
    ensures
        response.status == status,
        response.body@.len() == 0,
        header_views(response.headers@) == readable_entries(header_listing(headers)),
{
}

/// A call ends with the response that was read, or with the failure of the request; an error shows
/// whether the request failed, and its text.
pub proof fn calls_end_with_the_response(
    response: HttpRequestResponse,
    pending: Option<PendingReqwestHttpBodyStream>,
    error: JSONRPCErrorError,
    message: String,
)
    ensures
        request_done(Ok((response, pending))) == Ok::<HttpRequestResponse, ExecServerError>(
            response,
        ),
        request_done(Err(error)) == Err::<HttpRequestResponse, ExecServerError>(
            ExecServerError::HttpRequest(error.message),
        ),
        ExecServerError::HttpRequest(message)@ == (true, message@),
        ExecServerError::Protocol(message)@ == (false, message@),
{
}

/// A parsed URL stands for its parts, and a URL that did not parse for its reason.
pub proof fn parse_outcomes_show_the_url(url: RequestUrl, reason: String)
    ensures
        parse_outcome(Ok(url)) == Ok::<
            (Seq<char>, Option<Seq<char>>, Option<u16>),
            Seq<char>,
        >(url@),
        parse_outcome(Err(reason)) == Err::<
            (Seq<char>, Option<Seq<char>>, Option<u16>),
            Seq<char>,
        >(reason@),
{
}

} // verus!
