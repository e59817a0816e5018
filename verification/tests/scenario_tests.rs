use host_proxy::assoc::find_last;
use host_proxy::cell::ConfigCell;
use host_proxy::config::{Config, TlsReloadSignal};
use host_proxy::dispatch::{conclude, dispatch, DispatchError, RequestHead, Transport};
use host_proxy::hosts::{clone_opt_text, Host, HostTable, HostTls};
use host_proxy::supervisor::{Supervisor, SupervisorAction};
use host_proxy::tls::HostCertResolver;
use host_proxy::watch::{ArtifactWatch, ConfigWatch, Mtime};
use host_proxy::websocket::{
    bridge_step, handshake_response, handshake_response_with, BridgeAction, BridgeEvent, Frame,
    Side,
};

fn upstream(protocol: &str) -> Host {
    Host { ip: "127.0.0.1".to_string(), port: 9001, protocol: protocol.to_string(), tls: None }
}

fn with_tls(name: &str) -> Host {
    Host {
        ip: "127.0.0.1".to_string(),
        port: 9001,
        protocol: "https".to_string(),
        tls: Some(HostTls {
            cert_file: Some(format!("{}.crt", name)),
            key_file: Some(format!("{}.key", name)),
        }),
    }
}

fn config_of(hosts: Vec<(&str, Host)>, ssl: bool) -> Config {
    let mut table = HostTable::new();
    for (name, host) in hosts {
        table.insert(name, host);
    }
    Config { ssl: Some(ssl), hosts: table, ..Config::default() }
}

fn get(host: &str, path: &str, upgrade: bool) -> RequestHead {
    RequestHead {
        host_header: Some(host.to_string()),
        uri_host: None,
        path_and_query: Some(path.to_string()),
        path: path.to_string(),
        has_upgrade: upgrade,
    }
}

fn at(secs: u64) -> Option<Mtime> {
    Some(Mtime { before_epoch: false, secs, nanos: 0 })
}

#[test]
fn scenario_plain_http_forward() {
    let config = config_of(vec![("a.local", upstream("http"))], false);
    assert_eq!(config.resolved_http_port(), 80);
    let forward = dispatch(&config, &get("a.local", "/", false), false).unwrap();
    assert_eq!(forward.transport, Transport::Http);
    assert_eq!(forward.upstream_uri, "http://127.0.0.1:9001/");
    assert!(!forward.http11);
    let upstream_answer: Result<(u16, Vec<u8>), DispatchError> = Ok((200, b"hello".to_vec()));
    assert_eq!(conclude(upstream_answer), Ok((200, b"hello".to_vec())));
}

#[test]
fn scenario_https_to_https_forward() {
    let config = config_of(vec![("a.local", upstream("https"))], true);
    assert!(config.ssl_enabled());
    let forward = dispatch(&config, &get("a.local", "/", false), true).unwrap();
    assert_eq!(forward.transport, Transport::Https);
    assert_eq!(forward.upstream_uri, "https://127.0.0.1:9001/");
    assert!(forward.http11);
}

#[test]
fn scenario_websocket_upgrade() {
    let config = config_of(vec![("a.local", upstream("http"))], false);
    let forward = dispatch(&config, &get("a.local", "/ws", true), false).unwrap();
    assert_eq!(forward.transport, Transport::WebSocket);
    assert_eq!(forward.websocket_uri, Some("ws://127.0.0.1:9001/ws".to_string()));

    let answer = handshake_response("dGhlIHNhbXBsZSBub25jZQ==");
    assert_eq!(answer.status, 101);
    assert!(answer
        .headers
        .contains(&("sec-websocket-accept".to_string(), "s3pPLMBiTxaQ9kYGzzhZRbK+xOo=".to_string())));
    assert_eq!(answer, handshake_response_with("s3pPLMBiTxaQ9kYGzzhZRbK+xOo=".to_string()));

    let sent = ["one", "two", "three"];
    let mut at_upstream = Vec::new();
    let mut at_client = Vec::new();
    for text in sent {
        for from in [Side::Client, Side::Upstream] {
            let event = BridgeEvent::Received { from, frame: Frame::Text(text.to_string()) };
            match bridge_step(event) {
                BridgeAction::Forward { to: Side::Upstream, frame } => at_upstream.push(frame),
                BridgeAction::Forward { to: Side::Client, frame } => at_client.push(frame),
                BridgeAction::Terminate => panic!("the bridge ended"),
            }
        }
    }
    let expected: Vec<Frame> = sent.iter().map(|t| Frame::Text(t.to_string())).collect();
    assert_eq!(at_upstream, expected);
    assert_eq!(at_client, expected);
}

#[test]
fn scenario_binary_frames_keep_their_order() {
    let payloads: Vec<Vec<u8>> = vec![vec![], vec![0], vec![1, 2, 3], vec![255; 70]];
    let mut delivered = Vec::new();
    for p in &payloads {
        let event = BridgeEvent::Received { from: Side::Client, frame: Frame::Binary(p.clone()) };
        if let BridgeAction::Forward { to, frame } = bridge_step(event) {
            assert_eq!(to, Side::Upstream);
            delivered.push(frame);
        }
    }
    let expected: Vec<Frame> = payloads.into_iter().map(Frame::Binary).collect();
    assert_eq!(delivered, expected);
    assert_eq!(Side::Client.opposite(), Side::Upstream);
    assert_eq!(Side::Upstream.opposite(), Side::Client);
}

#[test]
fn scenario_config_hot_reload() {
    let first = config_of(vec![("a.local", upstream("http"))], false);
    let mut cell = ConfigCell::new(first).unwrap();
    let mut watcher = ConfigWatch::new(at(100));
    assert_eq!(
        dispatch(cell.snapshot(), &get("b.local", "/", false), false),
        Err(DispatchError::UnknownHost)
    );

    assert!(!watcher.tick(at(100)));
    assert!(watcher.tick(at(101)));
    let edited = config_of(vec![("a.local", upstream("http")), ("b.local", upstream("https"))], false);
    assert_eq!(cell.reload(Some(edited)), Ok(TlsReloadSignal::ConfigChanged));
    let forward = dispatch(cell.snapshot(), &get("b.local", "/", false), false).unwrap();
    assert_eq!(forward.upstream_uri, "https://127.0.0.1:9001/");
    assert!(dispatch(cell.snapshot(), &get("a.local", "/", false), false).is_ok());

    assert!(watcher.tick(at(102)));
    let broken = config_of(vec![("c.local", upstream("carrier-pigeon"))], false);
    assert!(cell.reload(Some(broken)).is_err());
    assert!(dispatch(cell.snapshot(), &get("b.local", "/", false), false).is_ok());
    assert!(!watcher.tick(at(102)));
}

#[test]
fn scenario_tls_artifact_rotation() {
    let config = config_of(vec![("a.local", upstream("https"))], true);
    let mut watcher = ArtifactWatch::new();
    let mut supervisor = Supervisor::new();
    assert_eq!(
        supervisor.on_signal(TlsReloadSignal::ConfigChanged, config.ssl_enabled(), config.tls_signature()),
        SupervisorAction::Spawn
    );
    let first_child = supervisor.child();

    let look = |cert_time: u64| -> Vec<(String, Option<Mtime>)> {
        config
            .collect_tls_file_paths()
            .into_iter()
            .map(|p| {
                let time = if p == "./ssl/certificate.crt" { at(cert_time) } else { at(1) };
                (p, time)
            })
            .collect()
    };
    assert!(!watcher.tick(look(1)));
    assert!(!watcher.tick(look(1)));
    assert!(watcher.tick(look(2)));
    assert_eq!(
        supervisor.on_signal(
            TlsReloadSignal::TlsArtifactChanged,
            config.ssl_enabled(),
            config.tls_signature()
        ),
        SupervisorAction::Restart
    );
    assert_ne!(supervisor.child(), first_child);
    assert!(!watcher.tick(look(2)));
    assert_eq!(
        supervisor.on_signal(TlsReloadSignal::ConfigChanged, config.ssl_enabled(), config.tls_signature()),
        SupervisorAction::Keep
    );
}

#[test]
fn scenario_sni_dispatch() {
    let config = config_of(vec![("a.local", with_tls("a")), ("b.local", with_tls("b"))], true);
    let hosts: Vec<(String, Option<String>)> = config
        .host_tls_entries()
        .into_iter()
        .map(|(name, cert, _)| (name, Some(cert)))
        .collect();
    let default_cert: Result<String, DispatchError> = Ok(config.resolved_ssl_cert_path());
    let resolver = HostCertResolver::build(default_cert, hosts).unwrap();
    assert_eq!(resolver.resolve(Some("b.local")), "b.crt");
    assert_eq!(resolver.resolve(Some("a.local")), "a.crt");
    assert_eq!(resolver.resolve(Some("c.local")), "./ssl/certificate.crt");
}

#[test]
fn last_of_a_repeated_name_is_found() {
    let list = vec![
        ("a".to_string(), 1u8),
        ("b".to_string(), 2u8),
        ("a".to_string(), 3u8),
    ];
    assert_eq!(find_last(&list, "a"), Some(2));
    assert_eq!(find_last(&list, "b"), Some(1));
    assert_eq!(find_last(&list, "c"), None);
    assert_eq!(find_last(&list, "A"), None);
    let empty: Vec<(String, u8)> = Vec::new();
    assert_eq!(find_last(&empty, "a"), None);
}

#[test]
fn optional_texts_are_copied() {
    assert_eq!(clone_opt_text(&None), None);
    assert_eq!(clone_opt_text(&Some("x".to_string())), Some("x".to_string()));
}
