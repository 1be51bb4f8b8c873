//! Peer-connection state, data-channel messages, and the dual transport
//! (WebSocket baseline plus WebRTC data channel) bookkeeping.

use crate::errors::WebRtcError;
use vstd::prelude::*;

verus! {

/// State of a peer connection.
#[derive(Debug, Clone, Copy, PartialEq, Eq, Structural)]
pub enum PeerConnectionState {
    /// Initial state
    New,
    /// Connecting (ICE gathering in progress)
    Connecting,
    /// Connected (DataChannel open)
    Connected,
    /// Failed (timeout or error)
    Failed,
    /// Disconnected (graceful close)
    Disconnected,
}

/// The states the WebRTC stack reports for a peer connection.
#[derive(Debug, Clone, Copy, PartialEq, Eq, Structural)]
pub enum RtcPeerState {
    Unspecified,
    New,
    Connecting,
    Connected,
    Disconnected,
    Failed,
    Closed,
}

/// How a WebRTC-stack state maps to ours: closed counts as disconnected,
/// an unspecified state as failed.
pub open spec fn state_of(s: RtcPeerState) -> PeerConnectionState {
    match s {
        RtcPeerState::New => PeerConnectionState::New,
        RtcPeerState::Connecting => PeerConnectionState::Connecting,
        RtcPeerState::Connected => PeerConnectionState::Connected,
        RtcPeerState::Disconnected => PeerConnectionState::Disconnected,
        RtcPeerState::Failed => PeerConnectionState::Failed,
        RtcPeerState::Closed => PeerConnectionState::Disconnected,
        RtcPeerState::Unspecified => PeerConnectionState::Failed,
    }
}

impl PeerConnectionState {
    /// Our state for a state the WebRTC stack reports.
    pub fn from_rtc(s: RtcPeerState) -> (r: Self)
        ensures
            r == state_of(s),
    {
        match s {
            RtcPeerState::New => PeerConnectionState::New,
            RtcPeerState::Connecting => PeerConnectionState::Connecting,
            RtcPeerState::Connected => PeerConnectionState::Connected,
            RtcPeerState::Disconnected => PeerConnectionState::Disconnected,
            RtcPeerState::Failed => PeerConnectionState::Failed,
            RtcPeerState::Closed => PeerConnectionState::Disconnected,
            RtcPeerState::Unspecified => PeerConnectionState::Failed,
        }
    }
}

/// A message received on the data channel.
#[derive(Debug, Clone)]
pub struct DataChannelMessage {
    /// Raw message data
    pub data: Vec<u8>,
    /// Whether the message is binary (vs text)
    pub is_binary: bool,
}

impl DataChannelMessage {
    /// The message of a data-channel frame; a text frame is not binary.
    pub fn from_frame(data: Vec<u8>, is_string: bool) -> (m: Self)
        ensures
            m.data == data,
            m.is_binary == !is_string,
    {
        DataChannelMessage { data, is_binary: !is_string }
    }
}

/// Whether data can be sent on a peer connection: only once its data
/// channel exists; otherwise sending fails with `DataChannelClosed`.
pub fn send_check(has_data_channel: bool) -> (r: Result<(), WebRtcError>)
    ensures
        has_data_channel <==> r is Ok,
        r matches Err(e) ==> e == WebRtcError::DataChannelClosed,
{
    if has_data_channel {
        Ok(())
    } else {
        Err(WebRtcError::DataChannelClosed)
    }
}

// ---------------------------------------------------------------------------
// Dual transport
// ---------------------------------------------------------------------------

/// Transport type.
#[derive(Debug, Clone, Copy, PartialEq, Eq, Structural)]
pub enum TransportType {
    /// WebSocket (baseline, always available)
    WebSocket,
    /// WebRTC DataChannel (P2P optimized)
    WebRtc,
}

/// Transport statistics.
#[derive(Debug, Clone, Copy, PartialEq, Eq, Structural)]
pub struct TransportStats {
    pub websocket_bytes_sent: u64,
    pub webrtc_bytes_sent: u64,
    pub webrtc_connected: bool,
    pub preferred_transport: TransportType,
}

/// Whether a WebRTC peer (if any, with its state) is connected.
pub open spec fn peer_connected(peer: Option<PeerConnectionState>) -> bool {
    peer == Some(PeerConnectionState::Connected)
}

/// Whether a WebRTC peer is connected.
pub fn is_webrtc_connected(peer: Option<PeerConnectionState>) -> (b: bool)
    ensures
        b == peer_connected(peer),
{
    match peer {
        Some(PeerConnectionState::Connected) => true,
        _ => false,
    }
}

/// The transport a "preferred" send goes through: WebRTC only when it is
/// preferred and its peer is connected, else WebSocket.
pub open spec fn route(preferred: TransportType, peer: Option<PeerConnectionState>) -> TransportType {
    if preferred == TransportType::WebRtc && peer_connected(peer) {
        TransportType::WebRtc
    } else {
        TransportType::WebSocket
    }
}

/// The transport a "preferred" send goes through.
pub fn preferred_route(preferred: TransportType, peer: Option<PeerConnectionState>) -> (t:
    TransportType)
    ensures
        t == route(preferred, peer),
{
    if preferred == TransportType::WebRtc && is_webrtc_connected(peer) {
        TransportType::WebRtc
    } else {
        TransportType::WebSocket
    }
}

/// What the dual transport has sent and which transport it prefers.
pub struct TransportLedger {
    preferred: TransportType,
    websocket_bytes_sent: u64,
    webrtc_bytes_sent: u64,
}

impl TransportLedger {
    /// The preferred transport.
    pub closed spec fn preferred(&self) -> TransportType {
        self.preferred
    }

    /// Bytes sent over the WebSocket.
    pub closed spec fn websocket_bytes(&self) -> u64 {
        self.websocket_bytes_sent
    }

    /// Bytes sent over the WebRTC data channel.
    pub closed spec fn webrtc_bytes(&self) -> u64 {
        self.webrtc_bytes_sent
    }

    /// WebSocket preferred, nothing sent.
    pub fn new() -> (l: Self)
        ensures
            l.preferred() == TransportType::WebSocket,
            l.websocket_bytes() == 0,
            l.webrtc_bytes() == 0,
    {
        TransportLedger { preferred: TransportType::WebSocket, websocket_bytes_sent: 0, webrtc_bytes_sent: 0 }
    }

    /// A WebRTC peer was negotiated: prefer WebRTC.
    pub fn set_webrtc_peer(&mut self)
        ensures
            final(self).preferred() == TransportType::WebRtc,
            final(self).websocket_bytes() == old(self).websocket_bytes(),
            final(self).webrtc_bytes() == old(self).webrtc_bytes(),
    {
        self.preferred = TransportType::WebRtc;
    }

    /// Fall back to WebSocket only (e.g. WebRTC timed out).
    pub fn failover_to_websocket(&mut self)
        ensures
            final(self).preferred() == TransportType::WebSocket,
            final(self).websocket_bytes() == old(self).websocket_bytes(),
            final(self).webrtc_bytes() == old(self).webrtc_bytes(),
    {
        self.preferred = TransportType::WebSocket;
    }

    /// Count bytes sent over the WebSocket.
    pub fn record_websocket(&mut self, n: u64)
        requires
            old(self).websocket_bytes() + n <= u64::MAX,
        ensures
            final(self).websocket_bytes() == old(self).websocket_bytes() + n,
            final(self).webrtc_bytes() == old(self).webrtc_bytes(),
            final(self).preferred() == old(self).preferred(),
    {
        self.websocket_bytes_sent = self.websocket_bytes_sent + n;
    }

    /// Count bytes sent over the WebRTC data channel.
    pub fn record_webrtc(&mut self, n: u64)
        requires
            old(self).webrtc_bytes() + n <= u64::MAX,
        ensures
            final(self).webrtc_bytes() == old(self).webrtc_bytes() + n,
            final(self).websocket_bytes() == old(self).websocket_bytes(),
            final(self).preferred() == old(self).preferred(),
    {
        self.webrtc_bytes_sent = self.webrtc_bytes_sent + n;
    }

    /// Whether the counters have room for `n` more bytes on the WebSocket.
    pub fn websocket_room(&self, n: u64) -> (b: bool)
        ensures
            b == (self.websocket_bytes() + n <= u64::MAX),
    {
        n <= u64::MAX - self.websocket_bytes_sent
    }

    /// Whether the counters have room for `n` more bytes on WebRTC.
    pub fn webrtc_room(&self, n: u64) -> (b: bool)
        ensures
            b == (self.webrtc_bytes() + n <= u64::MAX),
    {
        n <= u64::MAX - self.webrtc_bytes_sent
    }

    /// The statistics, given whether the WebRTC peer is connected.
    pub fn stats(&self, webrtc_connected: bool) -> (s: TransportStats)
        ensures
            s == (TransportStats {
                websocket_bytes_sent: self.websocket_bytes(),
                webrtc_bytes_sent: self.webrtc_bytes(),
                webrtc_connected,
                preferred_transport: self.preferred(),
            }),
    {
        TransportStats {
            websocket_bytes_sent: self.websocket_bytes_sent,
            webrtc_bytes_sent: self.webrtc_bytes_sent,
            webrtc_connected,
            preferred_transport: self.preferred,
        }
    }
}

/// A send goes over WebRTC only through a connected peer: whatever is
/// preferred, a peer that is absent or not connected routes to WebSocket;
/// and after a failover every preferred send goes over WebSocket.
pub proof fn lemma_webrtc_route_needs_connected_peer(
    preferred: TransportType,
    peer: Option<PeerConnectionState>,
)
    ensures
        route(preferred, peer) == TransportType::WebRtc ==> peer_connected(peer),
        route(TransportType::WebSocket, peer) == TransportType::WebSocket,
{
}

} // verus!
