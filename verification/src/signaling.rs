//! The daemon's side of the signaling relay: the relay's JSON messages and
//! the decisions taken on each of them while a P2P connection is
//! negotiated.

use crate::handshake::PeerHandshake;
use crate::ice::IceCandidate;
use crate::peer::PeerConnectionState;
use crate::text::{push_decimal, string_of};
use vstd::prelude::*;

verus! {

/// Seconds between keepalive pings.
pub const PING_INTERVAL_SECS: u64 = 15;

/// Seconds of silence after which the relay connection counts as dead.
pub const STALE_TIMEOUT_SECS: u64 = 45;

/// Messages exchanged with the signaling relay (one JSON object per text
/// frame, tagged by `type`).
#[derive(Debug, Clone)]
pub enum RelayMessage {
    Register { peer_id: String, handshake: PeerHandshake },
    Registered,
    Connect { peer_id: String },
    Connected,
    PeerConnectRequest,
    Offer { sdp: String },
    Answer { sdp: String },
    IceCandidate { candidate: String, sdp_mid: Option<String>, sdp_mline_index: Option<u16> },
    PeerDisconnected,
    Error { message: String },
}

impl RelayMessage {
    /// The relay message announcing one of our ICE candidates (its username
    /// fragment is not sent).
    pub fn from_candidate(c: IceCandidate) -> (m: Self)
        ensures
            m == (RelayMessage::IceCandidate {
                candidate: c.candidate,
                sdp_mid: c.sdp_mid,
                sdp_mline_index: c.sdp_mline_index,
            }),
    {
        RelayMessage::IceCandidate {
            candidate: c.candidate,
            sdp_mid: c.sdp_mid,
            sdp_mline_index: c.sdp_mline_index,
        }
    }

    /// The registration sent right after connecting to the relay.
    pub fn register(peer_id: &str, handshake: PeerHandshake) -> (m: Self)
        ensures
            m matches RelayMessage::Register { peer_id: p, handshake: h } && p@ == peer_id@ && h
                == handshake,
    {
        RelayMessage::Register { peer_id: string_of(peer_id), handshake }
    }

    /// The answer to a browser's offer.
    pub fn answer(sdp: String) -> (m: Self)
        ensures
            m == (RelayMessage::Answer { sdp }),
    {
        RelayMessage::Answer { sdp }
    }
}

/// A WebSocket frame received from the relay.
#[derive(Debug, Clone)]
pub enum RelayFrame {
    Text(String),
    Binary,
    Ping(Vec<u8>),
    Pong,
    Close,
}

/// What to do with a frame from the relay.
#[derive(Debug, Clone)]
pub enum FrameAction {
    /// The relay closed the connection: end this session normally.
    Stop,
    /// Answer a ping with a pong carrying the same payload.
    Pong(Vec<u8>),
    /// Nothing to do (the relay only speaks JSON text).
    Ignore,
    /// Parse this JSON text as a relay message.
    Parse(String),
}

/// What to do with a frame from the relay.
pub fn relay_frame_action(frame: RelayFrame) -> (a: FrameAction)
    ensures
        match frame {
            RelayFrame::Text(t) => a == FrameAction::Parse(t),
            RelayFrame::Close => a == FrameAction::Stop,
            RelayFrame::Ping(p) => a == FrameAction::Pong(p),
            _ => a == FrameAction::Ignore,
        },
{
    match frame {
        RelayFrame::Text(t) => FrameAction::Parse(t),
        RelayFrame::Close => FrameAction::Stop,
        RelayFrame::Ping(p) => FrameAction::Pong(p),
        RelayFrame::Binary => FrameAction::Ignore,
        RelayFrame::Pong => FrameAction::Ignore,
    }
}

/// What a relay message calls for.
#[derive(Debug, Clone)]
pub enum RelayAction {
    /// Log it and go on.
    Ignore,
    /// Fetch TURN credentials (falling back to STUN only) and start a new
    /// answering negotiation, replacing any pending one.
    StartNegotiation,
    /// Apply the browser's offer to the pending negotiation and send back
    /// the answer.
    AnswerOffer(String),
    /// Add the browser's ICE candidate to the pending negotiation.
    AddCandidate(IceCandidate),
    /// Drop (and close) the pending negotiation, if any.
    CloseNegotiation,
}

/// What a relay message calls for, given whether a negotiation is pending
/// and whether its peer connection is connected. Offers and candidates
/// without a negotiation are ignored; the browser leaving after the data
/// channel opened does not tear the connection down.
pub fn relay_action(msg: RelayMessage, negotiating: bool, connected: bool) -> (a: RelayAction)
    ensures
        match msg {
            RelayMessage::PeerConnectRequest => a is StartNegotiation,
            RelayMessage::Offer { sdp } => if negotiating {
                a == RelayAction::AnswerOffer(sdp)
            } else {
                a is Ignore
            },
            RelayMessage::IceCandidate { candidate, sdp_mid, sdp_mline_index } => if negotiating {
                a == RelayAction::AddCandidate(
                    IceCandidate { candidate, sdp_mid, sdp_mline_index, username_fragment: None },
                )
            } else {
                a is Ignore
            },
            RelayMessage::PeerDisconnected => if negotiating && connected {
                a is Ignore
            } else {
                a is CloseNegotiation
            },
            _ => a is Ignore,
        },
{
    match msg {
        RelayMessage::PeerConnectRequest => RelayAction::StartNegotiation,
        RelayMessage::Offer { sdp } => {
            if negotiating {
                RelayAction::AnswerOffer(sdp)
            } else {
                RelayAction::Ignore
            }
        },
        RelayMessage::IceCandidate { candidate, sdp_mid, sdp_mline_index } => {
            if negotiating {
                RelayAction::AddCandidate(
                    IceCandidate { candidate, sdp_mid, sdp_mline_index, username_fragment: None },
                )
            } else {
                RelayAction::Ignore
            }
        },
        RelayMessage::PeerDisconnected => {
            if negotiating && connected {
                RelayAction::Ignore
            } else {
                RelayAction::CloseNegotiation
            }
        },
        _ => RelayAction::Ignore,
    }
}

/// Whether a connection silent for `secs` seconds and `nanos` nanoseconds
/// is stale: strictly more than 45 s.
pub open spec fn is_stale(secs: u64, nanos: u32) -> bool {
    secs > STALE_TIMEOUT_SECS || (secs == STALE_TIMEOUT_SECS && nanos > 0)
}

/// On each keepalive tick: give up on a relay connection that has been
/// silent for more than 45 s (the error says for how many whole seconds),
/// else send a ping.
pub fn keepalive_check(silent_secs: u64, silent_nanos: u32) -> (r: Result<(), String>)
    ensures
        r is Ok <==> !is_stale(silent_secs, silent_nanos),
        r matches Err(m) ==> m@ == "relay connection stale — no activity in "@
            + crate::text::decimal(silent_secs as nat) + "s, reconnecting"@,
{
    if silent_secs > STALE_TIMEOUT_SECS || (silent_secs == STALE_TIMEOUT_SECS && silent_nanos > 0) {
        let mut m = string_of("relay connection stale — no activity in ");
        push_decimal(&mut m, silent_secs);
        m.append("s, reconnecting");
        Err(m)
    } else {
        Ok(())
    }
}

/// Whether to hand the negotiated connection to a terminal session: once
/// its peer connection is connected and its message stream was not handed
/// over yet.
pub fn should_hand_off(has_messages: bool, state: PeerConnectionState) -> (b: bool)
    ensures
        b == (has_messages && state == PeerConnectionState::Connected),
{
    has_messages && state == PeerConnectionState::Connected
}

} // verus!
