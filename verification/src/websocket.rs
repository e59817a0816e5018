//! The WebSocket side of the proxy: the opening handshake and the relay of
//! frames between the client and the upstream.

use sha1::{Digest, Sha1};
use base64::engine::general_purpose::STANDARD;
use base64::Engine;
use vstd::prelude::*;
use vstd::string::StringSliceAdditionalSpecFns;
use vstd::utf8::{encode_utf8, is_ascii_chars, is_ascii_chars_encode_utf8};

verus! {

/// The fixed text that the WebSocket protocol appends to the client's key.
pub const HANDSHAKE_GUID: &'static str = "258EAFA5-E914-47DA-95CA-C5AB0DC85B11";

/// SHA-1 takes fewer than 2^61 bytes: its length field counts bits in 64 bits.
pub const SHA1_INPUT_LIMIT: u64 = 0x2000_0000_0000_0000;

/// The longest key, in bytes, for which the accept value is computed.
pub const MAX_KEY_BYTES: u64 = 0x1000_0000_0000_0000;

/// The SHA-1 digest of `data`, as the `sha1` crate computes it.
pub uninterp spec fn sha1_digest(data: Seq<u8>) -> Seq<u8>;

/// The base64 text of `data` in the standard alphabet with padding, as the
/// `base64` crate's `STANDARD` engine writes it.
pub uninterp spec fn base64_standard(data: Seq<u8>) -> Seq<char>;

/// `Sha1::digest` of the `sha1` crate: the 20-byte SHA-1 digest of `data`.
/// The result is taken to be a function of the bytes alone; inputs at which
/// the crate's bit count would overflow are left out.
#[verifier::external_body]
fn sha1(data: &[u8]) -> (r: [u8; 20])
    requires
        data@.len() < SHA1_INPUT_LIMIT,
    ensures
        r@ == sha1_digest(data@),
{
    Sha1::digest(data).into()
}

/// `Engine::encode` of the `base64` crate on its `STANDARD` engine: the
/// padded base64 text of `data`. The result is taken to be a function of the
/// bytes alone; inputs whose encoded length does not fit in `usize` are left
/// out.
#[verifier::external_body]
fn base64_encode(data: &[u8]) -> (r: String)
    requires
        data@.len() / 3 * 4 + 4 <= usize::MAX,
    ensures
        r@ == base64_standard(data@),
{
    STANDARD.encode(data)
}

/// The bytes of a concatenation are the bytes of its parts, one after the other.
pub proof fn lemma_encode_utf8_concat(a: Seq<char>, b: Seq<char>)
    ensures
        encode_utf8(a + b) == encode_utf8(a) + encode_utf8(b),
    decreases a.len(),
{
    if a.len() > 0 {
        lemma_encode_utf8_concat(a.drop_first(), b);
        assert((a + b).drop_first() =~= a.drop_first() + b);
    }
}

/// What is hashed for a key: the bytes of the key followed by the fixed text.
pub open spec fn accept_input(key: Seq<char>) -> Seq<u8> {
    encode_utf8(key + HANDSHAKE_GUID@)
}

/// The `Sec-WebSocket-Accept` value for a key: the base64 text of the SHA-1
/// digest of the key followed by the fixed text.
pub open spec fn accept_value(key: Seq<char>) -> Seq<char> {
    base64_standard(sha1_digest(accept_input(key)))
}

/// Computes the `Sec-WebSocket-Accept` value that answers `key`.
pub fn generate_sec_websocket_accept(key: &str) -> (r: String)
    requires
        key.spec_bytes().len() < MAX_KEY_BYTES,
    ensures
        r@ == accept_value(key@),
{
    let mut combined = String::from_str(key);
    combined.append(HANDSHAKE_GUID);
    let bytes = combined.as_str().as_bytes();
    proof {
        reveal_strlit("258EAFA5-E914-47DA-95CA-C5AB0DC85B11");
        is_ascii_chars_encode_utf8(HANDSHAKE_GUID@);
        lemma_encode_utf8_concat(key@, HANDSHAKE_GUID@);
    }
    let digest = sha1(bytes);
    base64_encode(digest.as_slice())
}

/// `s` with every leading repetition of `pat` taken away.
pub open spec fn trim_start(s: Seq<char>, pat: Seq<char>) -> Seq<char>
    decreases s.len(),
{
    if pat.len() > 0 && pat.is_prefix_of(s) {
        trim_start(s.skip(pat.len() as int), pat)
    } else {
        s
    }
}

/// The WebSocket address of an upstream address: `ws` in front of what
/// stays when every leading `http` is taken away.
pub open spec fn websocket_uri_of(uri: Seq<char>) -> Seq<char> {
    "ws"@ + trim_start(uri, "http"@)
}

/// An address that starts with `http://` turns into the same address with `ws://`.
pub proof fn lemma_websocket_uri_of_http(rest: Seq<char>)
    ensures
        websocket_uri_of("http://"@ + rest) == "ws://"@ + rest,
{
    reveal_strlit("http");
    reveal_strlit("http://");
    reveal_strlit("ws");
    reveal_strlit("ws://");
    let uri = "http://"@ + rest;
    let pat = "http"@;
    assert(pat.is_prefix_of(uri));
    let tail = uri.skip(4);
    assert(!pat.is_prefix_of(tail)) by {
        if pat.is_prefix_of(tail) {
            assert(tail.subrange(0, 4)[0] == pat[0]);
        }
    }
    assert(trim_start(tail, pat) == tail);
}

fn starts_with_http_at(uri: &str, from: usize) -> (r: bool)
    requires
        from <= uri@.len(),
    ensures
        r == "http"@.is_prefix_of(uri@.skip(from as int)),
{
    proof {
        reveal_strlit("http");
    }
    let ghost rest = uri@.skip(from as int);
    let n = uri.unicode_len();
    if n - from < 4 {
        return false;
    }
    let r = uri.get_char(from) == 'h' && uri.get_char(from + 1) == 't' && uri.get_char(from + 2)
        == 't' && uri.get_char(from + 3) == 'p';
    proof {
        if !r && "http"@.is_prefix_of(rest) {
            let head = rest.subrange(0, 4);
            assert(head[0] == 'h' && head[1] == 't' && head[2] == 't' && head[3] == 'p');
        }
    }
    r
}

/// Derives the address of the outbound WebSocket connection from the
/// upstream address of the request.
pub fn websocket_uri(uri: &str) -> (r: String)
    ensures
        r@ == websocket_uri_of(uri@),
{
    let n = uri.unicode_len();
    let mut from: usize = 0;
    assert(uri@.skip(0) =~= uri@);
    while starts_with_http_at(uri, from)
        invariant
            from <= n,
            n == uri@.len(),
            trim_start(uri@, "http"@) == trim_start(uri@.skip(from as int), "http"@),
        decreases n - from,
    {
        proof {
            reveal_strlit("http");
            assert(uri@.skip(from as int).skip(4) =~= uri@.skip(from as int + 4));
        }
        from += 4;
    }
    proof {
        reveal_strlit("http");
    }
    let mut r = String::from_str("ws");
    r.append(uri.substring_char(from, n));
    r
}

/// The answer to an upgrade request, for the listener to send.
#[derive(Debug, PartialEq, Eq)]
pub struct HandshakeResponse {
    pub status: u16,
    pub headers: Vec<(String, String)>,
}

/// The views of a list of header lines.
pub open spec fn headers_of(v: Seq<(String, String)>) -> Seq<(Seq<char>, Seq<char>)> {
    Seq::new(v.len(), |i: int| (v[i].0@, v[i].1@))
}

/// The header lines of a handshake answer that carries `accept`.
pub open spec fn handshake_headers(accept: Seq<char>) -> Seq<(Seq<char>, Seq<char>)> {
    seq![
        ("Upgrade"@, "websocket"@),
        ("Connection"@, "Upgrade"@),
        ("sec-websocket-accept"@, accept),
    ]
}

/// The `101 Switching Protocols` answer that carries the given accept value.
pub fn handshake_response_with(accept: String) -> (r: HandshakeResponse)
    ensures
        r.status == 101,
        headers_of(r.headers@) == handshake_headers(accept@),
{
    let mut headers: Vec<(String, String)> = Vec::new();
    headers.push((String::from_str("Upgrade"), String::from_str("websocket")));
    headers.push((String::from_str("Connection"), String::from_str("Upgrade")));
    headers.push((String::from_str("sec-websocket-accept"), accept));
    HandshakeResponse { status: 101, headers }
}

/// The answer to an upgrade request that carries `key`.
pub fn handshake_response(key: &str) -> (r: HandshakeResponse)
    requires
        key.spec_bytes().len() < MAX_KEY_BYTES,
    ensures
        r.status == 101,
        headers_of(r.headers@) == handshake_headers(accept_value(key@)),
{
    handshake_response_with(generate_sec_websocket_accept(key))
}

/// Why a peer closes: the close code and the reason text.
#[derive(Debug, PartialEq, Eq)]
pub struct CloseFrame {
    pub code: u16,
    pub reason: String,
}

/// One WebSocket message, as either side of the bridge sees it.
#[derive(Debug, PartialEq, Eq)]
pub enum Frame {
    Text(String),
    Binary(Vec<u8>),
    Ping(Vec<u8>),
    Pong(Vec<u8>),
    Close(Option<CloseFrame>),
}

/// The mathematical content of a [`Frame`].
pub enum FrameView {
    Text(Seq<char>),
    Binary(Seq<u8>),
    Ping(Seq<u8>),
    Pong(Seq<u8>),
    Close(Option<(u16, Seq<char>)>),
}

impl View for Frame {
    type V = FrameView;

    open spec fn view(&self) -> FrameView {
        match self {
            Frame::Text(t) => FrameView::Text(t@),
            Frame::Binary(b) => FrameView::Binary(b@),
            Frame::Ping(b) => FrameView::Ping(b@),
            Frame::Pong(b) => FrameView::Pong(b@),
            Frame::Close(Some(c)) => FrameView::Close(Some((c.code, c.reason@))),
            Frame::Close(None) => FrameView::Close(None),
        }
    }
}

/// The two ends of a bridge.
#[derive(Clone, Copy, Debug, PartialEq, Eq, Structural)]
pub enum Side {
    Client,
    Upstream,
}

impl Side {
    /// The other end.
    pub open spec fn spec_opposite(self) -> Side {
        match self {
            Side::Client => Side::Upstream,
            Side::Upstream => Side::Client,
        }
    }

    /// The other end.
    #[verifier::when_used_as_spec(spec_opposite)]
    pub fn opposite(self) -> (r: Side)
        ensures
            r == self.spec_opposite(),
    {
        match self {
            Side::Client => Side::Upstream,
            Side::Upstream => Side::Client,
        }
    }
}

/// What happened on one end of a bridge.
#[derive(Debug, PartialEq, Eq)]
pub enum BridgeEvent {
    /// A frame arrived from `from`.
    Received { from: Side, frame: Frame },
    /// The stream of `side` came to its end.
    Ended { side: Side },
    /// Reading from `side`, or writing to it, failed.
    Failed { side: Side },
}

/// What the bridge does about an event.
#[derive(Debug, PartialEq, Eq)]
pub enum BridgeAction {
    /// Send the frame to `to`.
    Forward { to: Side, frame: Frame },
    /// Stop relaying and drop both connections.
    Terminate,
}

/// The mathematical content of a [`BridgeEvent`].
pub enum BridgeEventView {
    Received { from: Side, frame: FrameView },
    Ended { side: Side },
    Failed { side: Side },
}

/// The mathematical content of a [`BridgeAction`].
pub enum BridgeActionView {
    Forward { to: Side, frame: FrameView },
    Terminate,
}

impl View for BridgeEvent {
    type V = BridgeEventView;

    open spec fn view(&self) -> BridgeEventView {
        match self {
            BridgeEvent::Received { from, frame } => BridgeEventView::Received {
                from: *from,
                frame: frame@,
            },
            BridgeEvent::Ended { side } => BridgeEventView::Ended { side: *side },
            BridgeEvent::Failed { side } => BridgeEventView::Failed { side: *side },
        }
    }
}

impl View for BridgeAction {
    type V = BridgeActionView;

    open spec fn view(&self) -> BridgeActionView {
        match self {
            BridgeAction::Forward { to, frame } => BridgeActionView::Forward {
                to: *to,
                frame: frame@,
            },
            BridgeAction::Terminate => BridgeActionView::Terminate,
        }
    }
}

/// The bridge's rule: a frame goes to the other end as it came, with its
/// kind, its payload, and for a close frame its code and reason; the end of
/// a stream or a failure ends the bridge.
pub open spec fn relay(event: BridgeEventView) -> BridgeActionView {
    match event {
        BridgeEventView::Received { from, frame } => BridgeActionView::Forward {
            to: from.spec_opposite(),
            frame,
        },
        BridgeEventView::Ended { .. } => BridgeActionView::Terminate,
        BridgeEventView::Failed { .. } => BridgeActionView::Terminate,
    }
}

/// Decides what to do about one event of a bridge.
pub fn bridge_step(event: BridgeEvent) -> (r: BridgeAction)
    ensures
        r@ == relay(event@),
{
    match event {
        BridgeEvent::Received { from, frame } => BridgeAction::Forward {
            to: from.opposite(),
            frame,
        },
        BridgeEvent::Ended { .. } => BridgeAction::Terminate,
        BridgeEvent::Failed { .. } => BridgeAction::Terminate,
    }
}

/// The actions of a bridge that sees `events` in this order: one action for
/// each event up to the first that ends the bridge, and none after it.
pub open spec fn run(events: Seq<BridgeEventView>) -> Seq<BridgeActionView>
    decreases events.len(),
{
    if events.len() == 0 {
        Seq::empty()
    } else if relay(events[0]) is Terminate {
        seq![BridgeActionView::Terminate]
    } else {
        seq![relay(events[0])] + run(events.drop_first())
    }
}

/// The frames that `from` sent, in order, up to the event that ends the bridge.
pub open spec fn sent(events: Seq<BridgeEventView>, from: Side) -> Seq<FrameView>
    decreases events.len(),
{
    if events.len() == 0 {
        Seq::empty()
    } else {
        match events[0] {
            BridgeEventView::Received { from: f, frame } => if f == from {
                seq![frame] + sent(events.drop_first(), from)
            } else {
                sent(events.drop_first(), from)
            },
            _ => Seq::empty(),
        }
    }
}

/// The frames that the actions hand to `to`, in order.
pub open spec fn delivered(actions: Seq<BridgeActionView>, to: Side) -> Seq<FrameView>
    decreases actions.len(),
{
    if actions.len() == 0 {
        Seq::empty()
    } else {
        match actions[0] {
            BridgeActionView::Forward { to: t, frame } => if t == to {
                seq![frame] + delivered(actions.drop_first(), to)
            } else {
                delivered(actions.drop_first(), to)
            },
            BridgeActionView::Terminate => delivered(actions.drop_first(), to),
        }
    }
}

/// Whatever the two ends send and however their frames interleave, each end
/// receives exactly the frames that the other end sent, in the order in
/// which it sent them.
pub proof fn lemma_bridge_preserves_order(events: Seq<BridgeEventView>, from: Side)
    ensures
        delivered(run(events), from.spec_opposite()) == sent(events, from),
    decreases events.len(),
{
    let to = from.spec_opposite();
    if events.len() > 0 {
        let rest = events.drop_first();
        lemma_bridge_preserves_order(rest, from);
        match events[0] {
            BridgeEventView::Received { .. } => {
                // The first action forwards the first event's frame; the
                // others are those of the events that follow.
                assert(run(events).drop_first() =~= run(rest));
            },
            _ => {
                // The bridge ends here: nothing is delivered.
                assert(run(events).drop_first() =~= Seq::<BridgeActionView>::empty());
                assert(delivered(run(events).drop_first(), to) =~= Seq::<FrameView>::empty());
            },
        }
    }
}

} // verus!
