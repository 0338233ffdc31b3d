//! Which requests stay on this machine.

use codex_lifecycle::http_client::request::{
    request, ClientRoute, HttpRedirectPolicy, ReqwestHttpRequestRunner,
};
use codex_lifecycle::http_client::url::{
    host_is_loopback, loopback_redirect_allowed, url_is_loopback, RequestUrl,
};

fn parse(text: &str) -> RequestUrl {
    RequestUrl::parse(text).expect("valid test URL")
}

#[test]
fn reqwest_http_client_loopback_urls_are_selected_for_direct_proxy_bypass() {
    for value in [
        "http://127.0.0.1:4321/mcp",
        "http://127.9.8.7/mcp",
        "http://[::1]:4321/mcp",
        "https://localhost/mcp",
    ] {
        assert!(url_is_loopback(&RequestUrl::parse(value).expect("valid test URL")));
    }
    for value in [
        "https://example.com/mcp",
        "http://192.168.1.5/mcp",
        "http://localhost.example/mcp",
    ] {
        assert!(!url_is_loopback(&RequestUrl::parse(value).expect("valid test URL")));
    }
}

#[test]
fn route_aware_http_client_tests_loopback_urls_are_selected_for_direct_proxy_bypass() {
    for value in [
        "http://127.0.0.1:4321/mcp",
        "http://127.9.8.7/mcp",
        "http://[::1]:4321/mcp",
        "https://localhost/mcp",
    ] {
        assert!(url_is_loopback(&RequestUrl::parse(value).expect("valid test URL")));
    }
    for value in [
        "https://example.com/mcp",
        "http://192.168.1.5/mcp",
        "http://localhost.example/mcp",
    ] {
        assert!(!url_is_loopback(&RequestUrl::parse(value).expect("valid test URL")));
    }
}

#[test]
fn parsed_urls_are_normalised() {
    assert_eq!(
        parse("HTTP://LocalHost/mcp"),
        RequestUrl {
            scheme: "http".to_string(),
            host: Some("localhost".to_string()),
            port: Some(80),
        }
    );
    assert_eq!(parse("http://[0:0:0:0:0:0:0:1]:9/").host, Some("[::1]".to_string()));
    assert_eq!(parse("http://0x7f.1/").host, Some("127.0.0.1".to_string()));
    assert_eq!(parse("mailto:someone").host, None);
    assert!(!url_is_loopback(&parse("mailto:someone")));
    assert!(!url_is_loopback(&parse("http://[::ffff:127.0.0.1]/")));
    assert_eq!(RequestUrl::parse("mcp"), Err("relative URL without a base".to_string()));
}

#[test]
fn loopback_hosts_are_told_by_name_and_address() {
    for host in ["localhost", "LOCALHOST", "127.0.0.1", "127.255.255.255", "::1", "[::1]"] {
        assert!(host_is_loopback(host), "{host}");
    }
    for host in [
        "", "localhost.", "127.0.0", "127.0.0.256", "127.0.0.01", "128.0.0.1", "::2", "[localhost",
        "0.0.0.0", "127.0.0.1.1",
    ] {
        assert!(!host_is_loopback(host), "{host}");
    }
}

#[test]
fn loopback_requests_are_sent_past_the_proxy() {
    for policy in [HttpRedirectPolicy::Follow, HttpRedirectPolicy::Stop] {
        let runner = ReqwestHttpRequestRunner::new(Some(2_000), policy);
        for (url, route) in [
            ("http://127.0.0.1:4321/mcp", ClientRoute::Loopback),
            ("http://mcp.example.test/resource", ClientRoute::Configured),
        ] {
            let prepared = match ReqwestHttpRequestRunner::prepare(request(url.to_string(), policy))
            {
                Ok(prepared) => prepared,
                Err(error) => panic!("{}", error.message),
            };
            assert_eq!(prepared.route, route);
            let options = runner.client_for(prepared.route);
            assert_eq!(options.use_proxy, route == ClientRoute::Configured);
            assert_eq!(options.timeout_ms, Some(2_000));
            assert_eq!(options.follow_redirects, policy == HttpRedirectPolicy::Follow);
        }
    }
}

#[test]
fn loopback_redirects_stay_at_their_origin() {
    let start = parse("http://127.0.0.1:4321/start");
    assert!(loopback_redirect_allowed(&start, &parse("http://127.0.0.1:4321/done")));
    assert!(!loopback_redirect_allowed(&start, &parse("http://127.0.0.1:4322/must-not-be-reached")));
    assert!(!loopback_redirect_allowed(&start, &parse("https://127.0.0.1:4321/start")));
    assert!(!loopback_redirect_allowed(&start, &parse("http://localhost:4321/start")));
    assert!(loopback_redirect_allowed(
        &parse("http://localhost/"),
        &parse("http://localhost:80/next")
    ));
}
