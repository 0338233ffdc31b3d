//! `http/request` calls: parameters, headers, answers and streamed bodies.

use codex_lifecycle::http_client::body_stream::{
    BodyDeltaStream, HttpRequestBodyDeltaNotification,
};
use codex_lifecycle::http_client::headers::{build_headers, readable_headers, response_headers};
use codex_lifecycle::http_client::request::{
    error_source_chain, prepare_parsed, request, ExecServerError, HttpRedirectPolicy,
    HttpRequestParams, HttpRequestResponse, PendingReqwestHttpBodyStream, ReqwestHttpClient,
    ReqwestHttpRequestRunner, ResponseStep,
};
use codex_lifecycle::http_client::{HttpHeader, JSONRPCErrorError, RpcErrorCode};
use reqwest::header::{HeaderMap, HeaderValue};

fn header(name: &str, value: &str) -> HttpHeader {
    HttpHeader { name: name.to_string(), value: value.to_string() }
}

fn refused(params: HttpRequestParams) -> JSONRPCErrorError {
    match ReqwestHttpRequestRunner::prepare(params) {
        Err(error) => error,
        Ok(_) => panic!("the parameters are not acceptable"),
    }
}

fn call(url: &str) -> HttpRequestParams {
    request(url.to_string(), HttpRedirectPolicy::Follow)
}

#[test]
fn acceptable_calls_are_prepared_as_asked() {
    let mut params = call("https://example.com:8443/a?b");
    params.method = "PROPFIND".to_string();
    params.body = Some(vec![1, 2, 3]);
    params.stream_response = true;
    let prepared = match ReqwestHttpRequestRunner::prepare(params) {
        Ok(prepared) => prepared,
        Err(error) => panic!("{}", error.message),
    };
    assert_eq!(prepared.method, "PROPFIND");
    assert_eq!(prepared.url, "https://example.com:8443/a?b");
    assert_eq!(prepared.target.host, Some("example.com".to_string()));
    assert_eq!(prepared.target.port, Some(8443));
    assert_eq!(prepared.body, Some(vec![1, 2, 3]));
    assert_eq!(prepared.request_id, "loopback-regression");
    assert!(prepared.stream_response);
    assert_eq!(prepared.headers.len(), 1);
    assert_eq!(prepared.headers["authorization"], "Bearer fixture-mcp-token");
}

#[test]
fn each_unacceptable_parameter_has_its_message() {
    let mut bad_method = call("http://example.com/");
    bad_method.method = "GET IT".to_string();
    assert_eq!(
        refused(bad_method),
        JSONRPCErrorError {
            code: RpcErrorCode::InvalidParams,
            message: "http/request method is invalid: invalid HTTP method".to_string(),
        }
    );
    assert_eq!(
        refused(call("//example.com")).message,
        "http/request url is invalid: relative URL without a base"
    );
    assert_eq!(
        refused(call("ftp://example.com/")).message,
        "http/request only supports http and https URLs, got ftp"
    );
    let mut bad_name = call("http://example.com/");
    bad_name.headers = vec![header("a b", "c")];
    assert_eq!(
        refused(bad_name).message,
        "http/request header name is invalid: invalid HTTP header name"
    );
    let mut bad_value = call("http://example.com/");
    bad_value.headers = vec![header("X-Token", "a\nb")];
    let error = refused(bad_value);
    assert_eq!(error.code, RpcErrorCode::InvalidParams);
    assert_eq!(
        error.message,
        "http/request header value is invalid for X-Token: failed to parse header value"
    );
}

#[test]
fn methods_and_header_names_are_tokens() {
    let marks = "!#$%&'*+-.^_`|~";
    for code in 0..=255u8 {
        let c = char::from(code);
        let token = c.is_ascii_alphanumeric() || marks.contains(c);
        let mut params = call("http://example.com/");
        params.method = format!("A{c}");
        assert_eq!(ReqwestHttpRequestRunner::prepare(params).is_ok(), token, "method {code}");
        assert_eq!(build_headers(vec![header(&c.to_string(), "v")]).is_ok(), token, "name {code}");
        assert_eq!(
            build_headers(vec![header(&format!("{}{c}", "n".repeat(70)), "v")]).is_ok(),
            token,
            "long name {code}"
        );
    }
    assert!(build_headers(vec![header("", "v")]).is_err());
    assert!(build_headers(vec![header(&"n".repeat(65535), "v")]).is_ok());
    assert!(build_headers(vec![header(&"n".repeat(65536), "v")]).is_err());
}

#[test]
fn header_values_hold_tabs_and_no_other_control() {
    for code in 0..=255u8 {
        let c = char::from(code);
        let accepted = code == 9 || (code >= 32 && code != 127);
        assert_eq!(
            build_headers(vec![header("n", &format!("a{c}"))]).is_ok(),
            accepted,
            "value {code}"
        );
    }
    let map = build_headers(vec![header("n", "\u{e9}")]).expect("accepted");
    assert_eq!(map["n"].as_bytes(), "\u{e9}".as_bytes());
    assert!(response_headers(&map).is_empty());
}

#[test]
fn the_method_is_checked_before_the_url_and_the_url_before_the_headers() {
    let mut params = call("nowhere");
    params.headers = vec![header("a b", "c")];
    assert!(refused(params.clone()).message.starts_with("http/request url is invalid"));
    params.method = "".to_string();
    assert!(refused(params).message.starts_with("http/request method is invalid"));
}

#[test]
fn the_reason_of_a_url_is_passed_on() {
    let error = match prepare_parsed(call("http://example.com/"), Err("odd".to_string())) {
        Err(error) => error,
        Ok(_) => panic!("the URL did not parse"),
    };
    assert_eq!(error.message, "http/request url is invalid: odd");
}

#[test]
fn header_names_are_lowered_and_values_kept_in_order() {
    let map = match build_headers(vec![
        header("X-Two", "first"),
        header("Accept", "*/*"),
        header("x-two", "se\tcond"),
    ]) {
        Ok(map) => map,
        Err(error) => panic!("{}", error.message),
    };
    let values: Vec<&[u8]> = map.get_all("X-TWO").iter().map(|value| value.as_bytes()).collect();
    assert_eq!(values, vec![&b"first"[..], &b"se\tcond"[..]]);
    let listed = response_headers(&map);
    assert_eq!(listed.len(), 3);
    let two: Vec<&HttpHeader> = listed.iter().filter(|header| header.name == "x-two").collect();
    assert_eq!(two, vec![&header("x-two", "first"), &header("x-two", "se\tcond")]);
    assert!(listed.contains(&header("accept", "*/*")));
    let walked: Vec<(String, Vec<u8>)> = map
        .iter()
        .map(|(name, value)| (name.as_str().to_string(), value.as_bytes().to_vec()))
        .collect();
    let answered: Vec<(String, Vec<u8>)> = listed
        .iter()
        .map(|header| (header.name.clone(), header.value.as_bytes().to_vec()))
        .collect();
    assert_eq!(answered, walked);
}

#[test]
fn too_many_headers_are_an_internal_error() {
    let headers = (0..40_000).map(|i| header(&format!("x-{i}"), "v")).collect();
    match build_headers(headers) {
        Err(error) => {
            assert_eq!(error.code, RpcErrorCode::InternalError);
            assert_eq!(error.message, "http/request has too many headers");
        }
        Ok(_) => panic!("a header map holds fewer names"),
    }
}

#[test]
fn unreadable_response_headers_are_left_out() {
    let mut map = HeaderMap::new();
    map.append("x-binary", HeaderValue::from_bytes(&[0xff]).expect("opaque bytes"));
    map.append("x-binary", HeaderValue::from_static("text"));
    map.append("etag", HeaderValue::from_static("1"));
    let listed = response_headers(&map);
    assert_eq!(listed.len(), 2);
    assert!(listed.contains(&header("x-binary", "text")));
    assert!(listed.contains(&header("etag", "1")));
    assert_eq!(
        readable_headers(vec![
            ("a".to_string(), Some("1".to_string())),
            ("b".to_string(), None),
            ("a".to_string(), Some("2".to_string())),
        ]),
        vec![header("a", "1"), header("a", "2")]
    );
}

#[test]
fn calls_stream_or_not_whatever_they_ask_for() {
    for asked in [true, false] {
        let mut params = call("http://localhost/");
        params.stream_response = asked;
        match ReqwestHttpClient.http_request(params.clone(), Ok(())) {
            Ok(prepared) => assert!(!prepared.stream_response),
            Err(_) => panic!("the call is acceptable"),
        }
        match ReqwestHttpClient.http_request_stream(params.clone(), Ok(())) {
            Ok(prepared) => assert!(prepared.stream_response),
            Err(_) => panic!("the call is acceptable"),
        }
        params.url = "file:///tmp".to_string();
        match ReqwestHttpClient.http_request(params, Ok(())) {
            Err(error) => assert_eq!(
                error,
                ExecServerError::HttpRequest(
                    "http/request only supports http and https URLs, got file".to_string()
                )
            ),
            Ok(_) => panic!("only HTTP is sent"),
        }
    }
}

#[test]
fn clients_that_cannot_be_built_are_reported_before_bad_parameters() {
    let failure = || JSONRPCErrorError {
        code: RpcErrorCode::InternalError,
        message: "no certificates".to_string(),
    };
    for url in ["http://localhost/", "file:///tmp"] {
        for outcome in [
            ReqwestHttpClient.http_request(call(url), Err(failure())),
            ReqwestHttpClient.http_request_stream(call(url), Err(failure())),
        ] {
            match outcome {
                Err(error) => assert_eq!(
                    error,
                    ExecServerError::HttpRequest("no certificates".to_string())
                ),
                Ok(_) => panic!("there is no client"),
            }
        }
    }
}

#[test]
fn many_values_of_one_name_find_room() {
    let headers = (0..40_000).map(|i| header("X-Many", &format!("{i}"))).collect();
    match build_headers(headers) {
        Ok(map) => {
            assert_eq!(map.keys_len(), 1);
            assert_eq!(map.get_all("x-many").iter().count(), 40_000);
        }
        Err(error) => panic!("{}", error.message),
    }
}

#[test]
fn answers_are_read_or_streamed() {
    let mut map = HeaderMap::new();
    map.append("etag", HeaderValue::from_static("1"));
    let head = match ReqwestHttpRequestRunner::answer(false, "id".to_string(), 404, &map) {
        ResponseStep::ReadBody(head) => head,
        ResponseStep::StreamBody(_, _) => panic!("the body is read"),
    };
    assert_eq!(head.status, 404);
    assert_eq!(head.headers, vec![header("etag", "1")]);
    assert!(head.body.is_empty());
    match ReqwestHttpRequestRunner::with_body(head.clone(), Ok(b"done".to_vec())) {
        Ok(response) => assert_eq!(
            response,
            HttpRequestResponse { status: 404, headers: head.headers.clone(), body: b"done".to_vec() }
        ),
        Err(error) => panic!("{}", error.message),
    }
    let error = ReqwestHttpRequestRunner::with_body(head.clone(), Err("cut off".to_string()))
        .expect_err("the body broke off");
    assert_eq!(error.code, RpcErrorCode::InternalError);
    assert_eq!(error.message, "failed to read http/request response body: cut off");
    match ReqwestHttpRequestRunner::answer(true, "id".to_string(), 200, &map) {
        ResponseStep::StreamBody(response, pending) => {
            assert_eq!(response.status, 200);
            assert!(response.body.is_empty());
            assert_eq!(pending.request_id, "id");
        }
        ResponseStep::ReadBody(_) => panic!("the body is streamed"),
    }
    let error = ReqwestHttpRequestRunner::send_failed("refused");
    assert_eq!(error.code, RpcErrorCode::InternalError);
    assert_eq!(error.message, "http/request failed: refused");
}

#[test]
fn calls_end_with_their_answer_or_an_error() {
    let response = HttpRequestResponse { status: 200, headers: vec![], body: vec![1] };
    let pending = PendingReqwestHttpBodyStream { request_id: "id".to_string() };
    let failure = || JSONRPCErrorError {
        code: RpcErrorCode::InternalError,
        message: "http/request failed: refused".to_string(),
    };
    let failed = || ExecServerError::HttpRequest("http/request failed: refused".to_string());
    assert_eq!(
        ReqwestHttpClient::http_request_done(Ok((response.clone(), None))),
        Ok(response.clone())
    );
    assert_eq!(ReqwestHttpClient::http_request_done(Err(failure())), Err(failed()));
    assert_eq!(
        ReqwestHttpClient::http_request_stream_done(Ok((response.clone(), Some(pending.clone())))),
        Ok((response.clone(), pending))
    );
    assert_eq!(ReqwestHttpClient::http_request_stream_done(Err(failure())), Err(failed()));
    assert_eq!(
        ReqwestHttpClient::http_request_stream_done(Ok((response, None))),
        Err(ExecServerError::Protocol(
            "http request stream did not return a response body stream".to_string()
        ))
    );
}

#[test]
fn error_sources_are_joined_outermost_first() {
    assert_eq!(error_source_chain(&vec![]), None);
    assert_eq!(error_source_chain(&vec!["a".to_string()]), Some("a".to_string()));
    assert_eq!(
        error_source_chain(&vec!["a".to_string(), "b".to_string(), "c".to_string()]),
        Some("a: b: c".to_string())
    );
}

fn pieces(
    stream: &mut BodyDeltaStream,
    bytes: &[u8],
    accepted: bool,
) -> Vec<HttpRequestBodyDeltaNotification> {
    let mut sent = Vec::new();
    stream.chunk(bytes.to_vec());
    while let Some(notification) = stream.next_delta() {
        sent.push(notification);
        stream.sent(accepted);
    }
    sent
}

fn stream_of(max_delta_bytes: usize) -> BodyDeltaStream {
    let pending = PendingReqwestHttpBodyStream { request_id: "id".to_string() };
    BodyDeltaStream::new(pending, max_delta_bytes)
}

#[test]
fn streamed_bodies_arrive_in_numbered_pieces() {
    let mut stream = stream_of(2);
    assert_eq!(stream.seq(), 1);
    let mut sent = pieces(&mut stream, &[1, 2, 3, 4, 5], true);
    sent.extend(pieces(&mut stream, &[], true));
    sent.extend(pieces(&mut stream, &[6], true));
    assert_eq!(stream.seq(), 5);
    sent.extend(stream.finish(None));
    let deltas: Vec<(u64, Vec<u8>, bool)> =
        sent.iter().map(|delta| (delta.seq, delta.delta.clone(), delta.done)).collect();
    assert_eq!(
        deltas,
        vec![
            (1, vec![1, 2], false),
            (2, vec![3, 4], false),
            (3, vec![5], false),
            (4, vec![6], false),
            (5, vec![], true),
        ]
    );
    assert!(sent.iter().all(|delta| delta.request_id == "id" && delta.error.is_none()));
}

#[test]
fn a_refused_notification_ends_the_stream() {
    let mut stream = stream_of(2);
    assert_eq!(pieces(&mut stream, &[1, 2], true).len(), 1);
    let sent = pieces(&mut stream, &[3, 4, 5, 6], false);
    assert_eq!(sent.len(), 1);
    assert_eq!(sent[0].delta, vec![3, 4]);
    assert!(pieces(&mut stream, &[7], true).is_empty());
    assert_eq!(stream.finish(None), None);
}

#[test]
fn broken_bodies_end_with_the_error() {
    let mut stream = stream_of(64);
    assert_eq!(pieces(&mut stream, &[7], true).len(), 1);
    let last = match stream.finish(Some("reset".to_string())) {
        Some(last) => last,
        None => panic!("nothing was refused"),
    };
    assert_eq!(last.seq, 2);
    assert!(last.done);
    assert!(last.delta.is_empty());
    assert_eq!(last.error, Some("reset".to_string()));
}
