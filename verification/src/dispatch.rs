//! The request dispatcher: from the head of a request and the current
//! snapshot to the upstream the request goes to, or to the refusal.

use crate::config::{default_view, Config, ConfigView};
use crate::hosts::{has_host, lookup, opt_text, Host, HostView};
use crate::text::{decimal, port_to_string};
use crate::websocket::{websocket_uri, websocket_uri_of};
use vstd::prelude::*;

verus! {

/// What the dispatcher reads of a request.
#[derive(Debug, PartialEq, Eq)]
pub struct RequestHead {
    /// The value of the `Host` header, if the request has a readable one.
    pub host_header: Option<String>,
    /// The host of the request URI's authority, if it has one.
    pub uri_host: Option<String>,
    /// Path and query of the request URI, if it has them.
    pub path_and_query: Option<String>,
    /// The path of the request URI alone.
    pub path: String,
    /// Whether the request carries an `Upgrade` header.
    pub has_upgrade: bool,
}

/// The mathematical content of a [`RequestHead`].
pub struct RequestHeadView {
    pub host_header: Option<Seq<char>>,
    pub uri_host: Option<Seq<char>>,
    pub path_and_query: Option<Seq<char>>,
    pub path: Seq<char>,
    pub has_upgrade: bool,
}

impl View for RequestHead {
    type V = RequestHeadView;

    open spec fn view(&self) -> RequestHeadView {
        RequestHeadView {
            host_header: opt_text(self.host_header),
            uri_host: opt_text(self.uri_host),
            path_and_query: opt_text(self.path_and_query),
            path: self.path@,
            has_upgrade: self.has_upgrade,
        }
    }
}

/// The way a request travels to its upstream.
#[derive(Clone, Copy, Debug, PartialEq, Eq, Structural)]
pub enum Transport {
    /// Through the pool of plain HTTP clients.
    Http,
    /// Through the pool of HTTPS clients.
    Https,
    /// Over the WebSocket bridge.
    WebSocket,
}

/// Why a request gets no upstream response.
#[derive(Clone, Copy, Debug, PartialEq, Eq, Structural)]
pub enum DispatchError {
    /// The request names no host, neither in a header nor in its URI.
    MissingHost,
    /// The request names a host that is not configured.
    UnknownHost,
    /// The upstream could not be reached or did not answer.
    UpstreamFailed,
}

/// The status of a refusal for want of a known host: `424 Failed Dependency`.
pub const FAILED_DEPENDENCY: u16 = 424;

/// The status sent when the upstream fails: `502 Bad Gateway`.
pub const BAD_GATEWAY: u16 = 502;

impl DispatchError {
    /// The HTTP status sent for this error.
    pub open spec fn spec_status(self) -> u16 {
        match self {
            DispatchError::MissingHost => FAILED_DEPENDENCY,
            DispatchError::UnknownHost => FAILED_DEPENDENCY,
            DispatchError::UpstreamFailed => BAD_GATEWAY,
        }
    }

    /// The text sent for this error.
    pub open spec fn spec_message(self) -> Seq<char> {
        match self {
            DispatchError::MissingHost => "The `Host` does not exist in the headers"@,
            DispatchError::UnknownHost => "Unknown `Host` in the headers"@,
            DispatchError::UpstreamFailed => "The upstream did not answer"@,
        }
    }

    /// The HTTP status sent for this error.
    #[verifier::when_used_as_spec(spec_status)]
    pub fn status(self) -> (r: u16)
        ensures
            r == self.spec_status(),
    {
        match self {
            DispatchError::MissingHost => FAILED_DEPENDENCY,
            DispatchError::UnknownHost => FAILED_DEPENDENCY,
            DispatchError::UpstreamFailed => BAD_GATEWAY,
        }
    }

    /// The text sent for this error.
    pub fn message(self) -> (r: String)
        ensures
            r@ == self.spec_message(),
    {
        match self {
            DispatchError::MissingHost => String::from_str(
                "The `Host` does not exist in the headers",
            ),
            DispatchError::UnknownHost => String::from_str("Unknown `Host` in the headers"),
            DispatchError::UpstreamFailed => String::from_str("The upstream did not answer"),
        }
    }
}

/// The host a request is for: that of the `Host` header, else that of the
/// URI.
pub open spec fn effective_host_of(request: RequestHeadView) -> Option<Seq<char>> {
    match request.host_header {
        Some(h) => Some(h),
        None => request.uri_host,
    }
}

/// What of a request's URI goes to the upstream: path and query, or the
/// path alone where the URI has no path and query.
pub open spec fn target_of(request: RequestHeadView) -> Seq<char> {
    match request.path_and_query {
        Some(pq) => pq,
        None => request.path,
    }
}

/// The origin of an upstream: `{protocol}://{ip}:{port}`, with the IP or
/// name as it is configured and the port in decimal.
pub open spec fn origin_of(host: HostView) -> Seq<char> {
    host.protocol + "://"@ + host.ip + ":"@ + decimal(host.port as nat)
}

/// The address of a request at its upstream:
/// `{protocol}://{ip}:{port}{path_and_query}`.
pub open spec fn upstream_uri_of(host: HostView, path_and_query: Seq<char>) -> Seq<char> {
    origin_of(host) + path_and_query
}

/// The way to an upstream of the given protocol: `https` goes through the
/// HTTPS clients; `http` over the WebSocket bridge if the request asks for
/// an upgrade, else through the plain clients; any other protocol goes
/// through the plain clients.
pub open spec fn transport_of(protocol: Seq<char>, has_upgrade: bool) -> Transport {
    if protocol == "https"@ {
        Transport::Https
    } else if protocol == "http"@ && has_upgrade {
        Transport::WebSocket
    } else {
        Transport::Http
    }
}

/// Where a request is sent, and how.
#[derive(Debug, PartialEq, Eq)]
pub struct Forward {
    /// The way to the upstream.
    pub transport: Transport,
    /// The address that takes the place of the request's URI.
    pub upstream_uri: String,
    /// Whether the request's version is set to HTTP/1.1.
    pub http11: bool,
    /// The address of the outbound WebSocket connection, where the request
    /// goes over the bridge.
    pub websocket_uri: Option<String>,
}

/// The mathematical content of a [`Forward`].
pub struct ForwardView {
    pub transport: Transport,
    pub upstream_uri: Seq<char>,
    pub http11: bool,
    pub websocket_uri: Option<Seq<char>>,
}

impl View for Forward {
    type V = ForwardView;

    open spec fn view(&self) -> ForwardView {
        ForwardView {
            transport: self.transport,
            upstream_uri: self.upstream_uri@,
            http11: self.http11,
            websocket_uri: opt_text(self.websocket_uri),
        }
    }
}

/// How a request that is for `host` is sent on.
pub open spec fn forward_to(host: HostView, request: RequestHeadView, over_tls: bool) -> ForwardView {
    let uri = upstream_uri_of(host, target_of(request));
    let transport = transport_of(host.protocol, request.has_upgrade);
    ForwardView {
        transport,
        upstream_uri: uri,
        http11: over_tls,
        websocket_uri: if transport == Transport::WebSocket {
            Some(websocket_uri_of(uri))
        } else {
            None
        },
    }
}

/// The dispatcher's rule. A request without a host is refused, and so is
/// one for a host that is not configured under exactly that name; any
/// other is sent to the upstream of its host.
pub open spec fn dispatch_of(config: ConfigView, request: RequestHeadView, over_tls: bool) -> Result<
    ForwardView,
    DispatchError,
> {
    match effective_host_of(request) {
        None => Err(DispatchError::MissingHost),
        Some(name) => match lookup(config.hosts, name) {
            None => Err(DispatchError::UnknownHost),
            Some(host) => Ok(forward_to(host, request, over_tls)),
        },
    }
}

/// The view of a dispatch result.
pub open spec fn forward_result(r: Result<Forward, DispatchError>) -> Result<
    ForwardView,
    DispatchError,
> {
    match r {
        Ok(f) => Ok(f@),
        Err(e) => Err(e),
    }
}

/// The host a request is for.
pub fn effective_host(request: &RequestHead) -> (r: Option<&String>)
    ensures
        match r {
            Some(h) => effective_host_of(request@) == Some(h@),
            None => effective_host_of(request@) is None,
        },
{
    match &request.host_header {
        Some(h) => Some(h),
        None => match &request.uri_host {
            Some(h) => Some(h),
            None => None,
        },
    }
}

/// What of a request's URI goes to the upstream.
pub fn request_target(request: &RequestHead) -> (r: &str)
    ensures
        r@ == target_of(request@),
{
    match &request.path_and_query {
        Some(pq) => pq.as_str(),
        None => request.path.as_str(),
    }
}

/// Writes the origin of an upstream.
pub fn upstream_origin(host: &Host) -> (r: String)
    ensures
        r@ == origin_of(host@),
{
    let mut origin = host.protocol.clone();
    origin.append("://");
    origin.append(host.ip.as_str());
    origin.append(":");
    origin.append(port_to_string(host.port).as_str());
    origin
}

/// Writes the address of a request at its upstream.
pub fn upstream_uri(host: &Host, path_and_query: &str) -> (r: String)
    ensures
        r@ == upstream_uri_of(host@, path_and_query@),
{
    let mut uri = upstream_origin(host);
    uri.append(path_and_query);
    uri
}

/// Chooses the way to an upstream of the given protocol.
pub fn transport_for(protocol: &str, has_upgrade: bool) -> (r: Transport)
    ensures
        r == transport_of(protocol@, has_upgrade),
{
    if *protocol == *"https" {
        Transport::Https
    } else if *protocol == *"http" && has_upgrade {
        Transport::WebSocket
    } else {
        Transport::Http
    }
}

/// Decides where a request goes. `over_tls` says that the request came in
/// through the HTTPS listener: such a request is sent on as HTTP/1.1.
pub fn dispatch(config: &Config, request: &RequestHead, over_tls: bool) -> (r: Result<
    Forward,
    DispatchError,
>)
    ensures
        forward_result(r) == dispatch_of(config@, request@, over_tls),
{
    let name = match effective_host(request) {
        Some(name) => name,
        None => {
            return Err(DispatchError::MissingHost);
        },
    };
    let host = match config.hosts.get(name.as_str()) {
        Some(host) => host,
        None => {
            return Err(DispatchError::UnknownHost);
        },
    };
    let uri = upstream_uri(host, request_target(request));
    let transport = transport_for(host.protocol.as_str(), request.has_upgrade);
    let websocket_uri = match transport {
        Transport::WebSocket => Some(websocket_uri(uri.as_str())),
        _ => None,
    };
    Ok(Forward { transport, upstream_uri: uri, http11: over_tls, websocket_uri })
}

/// Turns what the upstream client gave back into the dispatcher's answer:
/// a response is handed on as it is, whatever its status; a failure of the
/// transport becomes `UpstreamFailed`.
pub fn conclude<R, E>(outcome: Result<R, E>) -> (r: Result<R, DispatchError>)
    ensures
        match outcome {
            Ok(response) => r == Ok::<R, DispatchError>(response),
            Err(_) => r == Err::<R, DispatchError>(DispatchError::UpstreamFailed),
        },
{
    match outcome {
        Ok(response) => Ok(response),
        Err(_) => Err(DispatchError::UpstreamFailed),
    }
}

/// A request for a configured host is never refused: it is sent on to the
/// upstream of that host.
pub proof fn lemma_known_host_is_forwarded(
    config: ConfigView,
    request: RequestHeadView,
    over_tls: bool,
)
    requires
        effective_host_of(request) matches Some(name) && has_host(config.hosts, name),
    ensures
        dispatch_of(config, request, over_tls) == Ok::<ForwardView, DispatchError>(
            forward_to(lookup(config.hosts, effective_host_of(request)->0)->0, request, over_tls),
        ),
{
}

/// A request without a `Host` header and without a host in its URI is
/// refused with status 424 and the text that says the host does not exist.
pub proof fn lemma_missing_host(config: ConfigView, request: RequestHeadView, over_tls: bool)
    requires
        request.host_header is None,
        request.uri_host is None,
    ensures
        dispatch_of(config, request, over_tls) == Err::<ForwardView, DispatchError>(
            DispatchError::MissingHost,
        ),
        DispatchError::MissingHost.spec_status() == 424,
        DispatchError::MissingHost.spec_message() == "The `Host` does not exist in the headers"@,
{
}

/// A request whose `Host` header names no configured host is refused with
/// status 424 and the text that says the host is unknown.
pub proof fn lemma_unknown_host(
    config: ConfigView,
    request: RequestHeadView,
    over_tls: bool,
    name: Seq<char>,
)
    requires
        request.host_header == Some(name),
        !has_host(config.hosts, name),
    ensures
        dispatch_of(config, request, over_tls) == Err::<ForwardView, DispatchError>(
            DispatchError::UnknownHost,
        ),
        DispatchError::UnknownHost.spec_status() == 424,
        DispatchError::UnknownHost.spec_message() == "Unknown `Host` in the headers"@,
{
}

/// Under the default snapshot every request is refused with status 424.
pub proof fn lemma_defaults_refuse_all(request: RequestHeadView, over_tls: bool)
    ensures
        dispatch_of(default_view(), request, over_tls) matches Err(e) && e.spec_status() == 424,
{
}

/// A host configured with `ws` or `wss` is reached through the plain HTTP
/// clients, whether or not the request asks for an upgrade.
pub proof fn lemma_ws_protocols_use_plain_client(protocol: Seq<char>, has_upgrade: bool)
    requires
        protocol == "ws"@ || protocol == "wss"@,
    ensures
        transport_of(protocol, has_upgrade) == Transport::Http,
{
    reveal_strlit("ws");
    reveal_strlit("wss");
    reveal_strlit("http");
    reveal_strlit("https");
    assert("ws"@.len() == 2 && "wss"@.len() == 3 && "http"@.len() == 4 && "https"@.len() == 5);
}

} // verus!
