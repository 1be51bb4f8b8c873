//! Error types of the server, the session layer and the WebRTC layer, with
//! their human-readable messages.

use crate::ids::{uuid_text, uuid_to_string};
use crate::text::{push_decimal, push_signed_decimal, string_of, decimal, signed_decimal};
use vstd::prelude::*;

verus! {

/// Server errors. Errors that came from I/O, TLS, WebSocket or protobuf
/// libraries carry those libraries' error text.
#[derive(Debug, Clone, PartialEq, Eq)]
pub enum ServerError {
    Io(String),
    TlsHandshake(String),
    WebSocketUpgrade(String),
    WebSocket(String),
    ProtocolDecode(String),
    ProtocolEncode(String),
    InvalidMessage(String),
    AuthFailed(String),
    SessionNotFound(String),
    PermissionDenied,
    RateLimitExceeded,
    Internal(String),
}

/// The message of a server error.
pub open spec fn server_error_text(e: ServerError) -> Seq<char> {
    match e {
        ServerError::Io(s) => "IO error: "@ + s@,
        ServerError::TlsHandshake(s) => "TLS handshake failed: "@ + s@,
        ServerError::WebSocketUpgrade(s) => "WebSocket upgrade failed: "@ + s@,
        ServerError::WebSocket(s) => "WebSocket error: "@ + s@,
        ServerError::ProtocolDecode(s) => "Protocol decode error: "@ + s@,
        ServerError::ProtocolEncode(s) => "Protocol encode error: "@ + s@,
        ServerError::InvalidMessage(s) => "Invalid message: "@ + s@,
        ServerError::AuthFailed(s) => "Authentication failed: "@ + s@,
        ServerError::SessionNotFound(s) => "Session not found: "@ + s@,
        ServerError::PermissionDenied => "Permission denied"@,
        ServerError::RateLimitExceeded => "Rate limit exceeded"@,
        ServerError::Internal(s) => "Internal error: "@ + s@,
    }
}

/// `prefix` followed by `s`.
pub fn prefixed(prefix: &str, s: &String) -> (r: String)
    ensures
        r@ == prefix@ + s@,
{
    let mut r = string_of(prefix);
    r.append(s.as_str());
    r
}

impl ServerError {
    /// Human-readable message.
    pub fn message(&self) -> (m: String)
        ensures
            m@ == server_error_text(*self),
    {
        match self {
            ServerError::Io(s) => prefixed("IO error: ", s),
            ServerError::TlsHandshake(s) => prefixed("TLS handshake failed: ", s),
            ServerError::WebSocketUpgrade(s) => prefixed("WebSocket upgrade failed: ", s),
            ServerError::WebSocket(s) => prefixed("WebSocket error: ", s),
            ServerError::ProtocolDecode(s) => prefixed("Protocol decode error: ", s),
            ServerError::ProtocolEncode(s) => prefixed("Protocol encode error: ", s),
            ServerError::InvalidMessage(s) => prefixed("Invalid message: ", s),
            ServerError::AuthFailed(s) => prefixed("Authentication failed: ", s),
            ServerError::SessionNotFound(s) => prefixed("Session not found: ", s),
            ServerError::PermissionDenied => string_of("Permission denied"),
            ServerError::RateLimitExceeded => string_of("Rate limit exceeded"),
            ServerError::Internal(s) => prefixed("Internal error: ", s),
        }
    }
}

/// Session-management errors (session ids are 128-bit UUID values).
#[derive(Debug, Clone, PartialEq, Eq)]
pub enum SessionError {
    NotFound(u128),
    PtyCreateFailed(String),
    AuthFailed(String),
    InvalidDimensions(u16, u16),
    PtyError(String),
    IoError(String),
    PermissionDenied(String),
    LayoutError(String),
}

/// The message of a session error.
pub open spec fn session_error_text(e: SessionError) -> Seq<char> {
    match e {
        SessionError::NotFound(id) => "Session not found: "@ + uuid_text(id),
        SessionError::PtyCreateFailed(s) => "PTY creation failed: "@ + s@,
        SessionError::AuthFailed(s) => "Authentication failed: "@ + s@,
        SessionError::InvalidDimensions(r, c) => "Invalid dimensions: rows="@ + decimal(r as nat)
            + ", cols="@ + decimal(c as nat),
        SessionError::PtyError(s) => "PTY error: "@ + s@,
        SessionError::IoError(s) => "I/O error: "@ + s@,
        SessionError::PermissionDenied(s) => "Permission denied: "@ + s@,
        SessionError::LayoutError(s) => "Layout error: "@ + s@,
    }
}

impl SessionError {
    /// Human-readable message.
    pub fn message(&self) -> (m: String)
        ensures
            m@ == session_error_text(*self),
    {
        match self {
            SessionError::NotFound(id) => {
                let t = uuid_to_string(*id);
                prefixed("Session not found: ", &t)
            },
            SessionError::PtyCreateFailed(s) => prefixed("PTY creation failed: ", s),
            SessionError::AuthFailed(s) => prefixed("Authentication failed: ", s),
            SessionError::InvalidDimensions(r, c) => {
                let mut m = string_of("Invalid dimensions: rows=");
                push_decimal(&mut m, *r as u64);
                m.append(", cols=");
                push_decimal(&mut m, *c as u64);
                m
            },
            SessionError::PtyError(s) => prefixed("PTY error: ", s),
            SessionError::IoError(s) => prefixed("I/O error: ", s),
            SessionError::PermissionDenied(s) => prefixed("Permission denied: ", s),
            SessionError::LayoutError(s) => prefixed("Layout error: ", s),
        }
    }
}

/// WebRTC-layer errors.
#[derive(Debug, Clone, PartialEq, Eq)]
pub enum WebRtcError {
    InitializationFailed(String),
    IceGatheringFailed(String),
    IceGatheringTimeout(u64),
    PeerConnectionFailed(String),
    DataChannelCreationFailed(String),
    DataChannelClosed,
    SdpNegotiationFailed(String),
    StunServerUnreachable(String),
    TurnServerUnreachable(String),
    HandshakeVerificationFailed(String),
    InvalidSignature,
    ChallengeExpired(i64),
    ProtocolVersionMismatch { got: u32, expected: u32 },
    PlatformNotSupported,
    Timeout(String),
    Internal(String),
    Serialization(String),
    Io(String),
}

/// The message of a WebRTC error.
pub open spec fn webrtc_error_text(e: WebRtcError) -> Seq<char> {
    match e {
        WebRtcError::InitializationFailed(s) => "WebRTC initialization failed: "@ + s@,
        WebRtcError::IceGatheringFailed(s) => "ICE candidate gathering failed: "@ + s@,
        WebRtcError::IceGatheringTimeout(n) => "ICE candidate gathering timeout after "@ + decimal(
            n as nat,
        ) + "s"@,
        WebRtcError::PeerConnectionFailed(s) => "Peer connection failed: "@ + s@,
        WebRtcError::DataChannelCreationFailed(s) => "Data channel creation failed: "@ + s@,
        WebRtcError::DataChannelClosed => "Data channel closed"@,
        WebRtcError::SdpNegotiationFailed(s) => "SDP offer/answer failed: "@ + s@,
        WebRtcError::StunServerUnreachable(s) => "STUN server unreachable: "@ + s@,
        WebRtcError::TurnServerUnreachable(s) => "TURN server unreachable: "@ + s@,
        WebRtcError::HandshakeVerificationFailed(s) => "PeerHandshake verification failed: "@
            + s@,
        WebRtcError::InvalidSignature => "Ed25519 signature invalid"@,
        WebRtcError::ChallengeExpired(d) => "Challenge expired (timestamp delta: "@
            + signed_decimal(d as int) + "ms)"@,
        WebRtcError::ProtocolVersionMismatch { got, expected } => "Protocol version mismatch: got "@
            + decimal(got as nat) + ", expected "@ + decimal(expected as nat),
        WebRtcError::PlatformNotSupported => "WebRTC not supported on this platform"@,
        WebRtcError::Timeout(s) => "Timeout: "@ + s@,
        WebRtcError::Internal(s) => "Internal error: "@ + s@,
        WebRtcError::Serialization(s) => "Serialization error: "@ + s@,
        WebRtcError::Io(s) => "IO error: "@ + s@,
    }
}

impl WebRtcError {
    /// Human-readable message.
    pub fn message(&self) -> (m: String)
        ensures
            m@ == webrtc_error_text(*self),
    {
        match self {
            WebRtcError::InitializationFailed(s) => prefixed("WebRTC initialization failed: ", s),
            WebRtcError::IceGatheringFailed(s) => prefixed("ICE candidate gathering failed: ", s),
            WebRtcError::IceGatheringTimeout(n) => {
                let mut m = string_of("ICE candidate gathering timeout after ");
                push_decimal(&mut m, *n);
                m.append("s");
                m
            },
            WebRtcError::PeerConnectionFailed(s) => prefixed("Peer connection failed: ", s),
            WebRtcError::DataChannelCreationFailed(s) => prefixed(
                "Data channel creation failed: ",
                s,
            ),
            WebRtcError::DataChannelClosed => string_of("Data channel closed"),
            WebRtcError::SdpNegotiationFailed(s) => prefixed("SDP offer/answer failed: ", s),
            WebRtcError::StunServerUnreachable(s) => prefixed("STUN server unreachable: ", s),
            WebRtcError::TurnServerUnreachable(s) => prefixed("TURN server unreachable: ", s),
            WebRtcError::HandshakeVerificationFailed(s) => prefixed(
                "PeerHandshake verification failed: ",
                s,
            ),
            WebRtcError::InvalidSignature => string_of("Ed25519 signature invalid"),
            WebRtcError::ChallengeExpired(d) => {
                let mut m = string_of("Challenge expired (timestamp delta: ");
                push_signed_decimal(&mut m, *d);
                m.append("ms)");
                m
            },
            WebRtcError::ProtocolVersionMismatch { got, expected } => {
                let mut m = string_of("Protocol version mismatch: got ");
                push_decimal(&mut m, *got as u64);
                m.append(", expected ");
                push_decimal(&mut m, *expected as u64);
                m
            },
            WebRtcError::PlatformNotSupported => string_of("WebRTC not supported on this platform"),
            WebRtcError::Timeout(s) => prefixed("Timeout: ", s),
            WebRtcError::Internal(s) => prefixed("Internal error: ", s),
            WebRtcError::Serialization(s) => prefixed("Serialization error: ", s),
            WebRtcError::Io(s) => prefixed("IO error: ", s),
        }
    }
}

} // verus!
