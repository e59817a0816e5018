use host_proxy::config::Config;
use host_proxy::hosts::{Host, HostTable};
use host_proxy::dispatch::{
    conclude, dispatch, effective_host, request_target, transport_for, upstream_origin,
    upstream_uri, DispatchError, Forward, RequestHead, Transport,
};
use host_proxy::text::port_to_string;

fn config_with(name: &str, protocol: &str) -> Config {
    let mut hosts = HostTable::new();
    hosts.insert(
        name,
        Host { ip: "127.0.0.1".to_string(), port: 9001, protocol: protocol.to_string(), tls: None },
    );
    Config { hosts, ..Config::default() }
}

fn request(host_header: Option<&str>, uri_host: Option<&str>, path: &str, upgrade: bool) -> RequestHead {
    RequestHead {
        host_header: host_header.map(|h| h.to_string()),
        uri_host: uri_host.map(|h| h.to_string()),
        path_and_query: Some(path.to_string()),
        path: "/".to_string(),
        has_upgrade: upgrade,
    }
}

#[test]
fn ports_are_written_in_decimal() {
    assert_eq!(port_to_string(0), "0");
    assert_eq!(port_to_string(7), "7");
    assert_eq!(port_to_string(10), "10");
    assert_eq!(port_to_string(80), "80");
    assert_eq!(port_to_string(443), "443");
    assert_eq!(port_to_string(9001), "9001");
    assert_eq!(port_to_string(65535), "65535");
    for p in [1u16, 9, 99, 100, 101, 1000, 12345, 60000] {
        assert_eq!(port_to_string(p), p.to_string());
    }
}

#[test]
fn upstream_uri_is_origin_and_path() {
    let h = Host { ip: "::1".to_string(), port: 8080, protocol: "https".to_string(), tls: None };
    assert_eq!(upstream_origin(&h), "https://::1:8080");
    assert_eq!(upstream_uri(&h, "/a/b?c=d"), "https://::1:8080/a/b?c=d");
    assert_eq!(upstream_uri(&h, ""), "https://::1:8080");
}

#[test]
fn path_alone_stands_in_for_a_missing_path_and_query() {
    let mut r = request(Some("a.local"), None, "/p?q=1", false);
    r.path = "/p".to_string();
    assert_eq!(request_target(&r), "/p?q=1");
    r.path_and_query = None;
    assert_eq!(request_target(&r), "/p");
    let c = config_with("a.local", "http");
    assert_eq!(dispatch(&c, &r, false).unwrap().upstream_uri, "http://127.0.0.1:9001/p");
}

#[test]
fn host_header_goes_before_uri_host() {
    assert_eq!(
        effective_host(&request(Some("a.local"), Some("b.local"), "/", false)),
        Some(&"a.local".to_string())
    );
    assert_eq!(
        effective_host(&request(None, Some("b.local"), "/", false)),
        Some(&"b.local".to_string())
    );
    assert_eq!(effective_host(&request(None, None, "/", false)), None);
}

#[test]
fn no_host_anywhere_is_424_with_message() {
    let c = config_with("a.local", "http");
    let e = dispatch(&c, &request(None, None, "/", false), false).unwrap_err();
    assert_eq!(e, DispatchError::MissingHost);
    assert_eq!(e.status(), 424);
    assert_eq!(e.message(), "The `Host` does not exist in the headers");
}

#[test]
fn unknown_host_is_424_with_message() {
    let c = config_with("a.local", "http");
    let e = dispatch(&c, &request(Some("z.local"), None, "/", false), true).unwrap_err();
    assert_eq!(e, DispatchError::UnknownHost);
    assert_eq!(e.status(), 424);
    assert_eq!(e.message(), "Unknown `Host` in the headers");
}

#[test]
fn host_lookup_is_case_sensitive() {
    let c = config_with("A.Local", "http");
    assert!(dispatch(&c, &request(Some("a.local"), None, "/", false), false).is_ok());
    assert_eq!(
        dispatch(&c, &request(Some("A.Local"), None, "/", false), false),
        Err(DispatchError::UnknownHost)
    );
}

#[test]
fn unknown_header_host_does_not_fall_back_to_uri_host() {
    let c = config_with("a.local", "http");
    assert_eq!(
        dispatch(&c, &request(Some("z.local"), Some("a.local"), "/", false), false),
        Err(DispatchError::UnknownHost)
    );
}

#[test]
fn default_config_refuses_every_request() {
    let c = Config::default();
    for r in [
        request(Some("a.local"), None, "/", false),
        request(None, Some("a.local"), "/x", true),
        request(None, None, "/", false),
        request(Some(""), None, "", false),
    ] {
        assert_eq!(dispatch(&c, &r, false).unwrap_err().status(), 424);
        assert_eq!(dispatch(&c, &r, true).unwrap_err().status(), 424);
    }
}

#[test]
fn plain_http_forward() {
    let c = config_with("a.local", "http");
    assert_eq!(
        dispatch(&c, &request(Some("a.local"), None, "/", false), false),
        Ok(Forward {
            transport: Transport::Http,
            upstream_uri: "http://127.0.0.1:9001/".to_string(),
            http11: false,
            websocket_uri: None,
        })
    );
}

#[test]
fn https_to_https_forward_is_http11() {
    let c = config_with("a.local", "https");
    assert_eq!(
        dispatch(&c, &request(None, Some("a.local"), "/", false), true),
        Ok(Forward {
            transport: Transport::Https,
            upstream_uri: "https://127.0.0.1:9001/".to_string(),
            http11: true,
            websocket_uri: None,
        })
    );
}

#[test]
fn https_upstream_ignores_upgrade() {
    let c = config_with("a.local", "https");
    let f = dispatch(&c, &request(Some("a.local"), None, "/ws", true), false).unwrap();
    assert_eq!(f.transport, Transport::Https);
    assert_eq!(f.websocket_uri, None);
}

#[test]
fn upgrade_on_http_host_goes_over_the_bridge() {
    let c = config_with("a.local", "http");
    assert_eq!(
        dispatch(&c, &request(Some("a.local"), None, "/ws?x=1", true), false),
        Ok(Forward {
            transport: Transport::WebSocket,
            upstream_uri: "http://127.0.0.1:9001/ws?x=1".to_string(),
            http11: false,
            websocket_uri: Some("ws://127.0.0.1:9001/ws?x=1".to_string()),
        })
    );
}

#[test]
fn ws_and_wss_hosts_use_the_plain_client() {
    for protocol in ["ws", "wss"] {
        for upgrade in [false, true] {
            assert_eq!(transport_for(protocol, upgrade), Transport::Http);
            let c = config_with("a.local", protocol);
            let f = dispatch(&c, &request(Some("a.local"), None, "/", upgrade), false).unwrap();
            assert_eq!(f.transport, Transport::Http);
            assert_eq!(f.upstream_uri, format!("{}://127.0.0.1:9001/", protocol));
            assert_eq!(f.websocket_uri, None);
        }
    }
}

#[test]
fn transport_by_protocol() {
    assert_eq!(transport_for("https", false), Transport::Https);
    assert_eq!(transport_for("https", true), Transport::Https);
    assert_eq!(transport_for("http", false), Transport::Http);
    assert_eq!(transport_for("http", true), Transport::WebSocket);
    assert_eq!(transport_for("gopher", true), Transport::Http);
}

#[test]
fn upstream_response_is_handed_on_unmodified() {
    let ok: Result<(u16, &str), ()> = Ok((200, "body"));
    assert_eq!(conclude(ok), Ok((200, "body")));
    let not_found: Result<(u16, &str), ()> = Ok((404, "nope"));
    assert_eq!(conclude(not_found), Ok((404, "nope")));
}

#[test]
fn upstream_failure_is_a_failure_result() {
    let failed: Result<u16, &str> = Err("connection refused");
    let e = conclude(failed).unwrap_err();
    assert_eq!(e, DispatchError::UpstreamFailed);
    assert_eq!(e.status(), 502);
    assert_eq!(e.message(), "The upstream did not answer");
}
