//! WebRTC configuration: STUN and TURN servers, timeouts, buffer sizes.

use crate::text::string_of;
use crate::clock::{duration_of_secs, secs_duration};
use std::time::Duration;
use vstd::prelude::*;

verus! {

/// The text of each string of a list.
pub open spec fn texts(v: Seq<String>) -> Seq<Seq<char>> {
    v.map_values(|s: String| s@)
}

/// STUN server configuration.
#[derive(Debug, Clone)]
pub struct StunServerConfig {
    /// STUN server URLs (e.g. "stun:stun.l.google.com:19302")
    pub urls: Vec<String>,
}

impl Default for StunServerConfig {
    /// Google's two public STUN servers.
    fn default() -> (c: Self)
        ensures
            texts(c.urls@) == seq!["stun:stun.l.google.com:19302"@, "stun:stun1.l.google.com:19302"@],
    {
        let mut urls: Vec<String> = Vec::new();
        urls.push(string_of("stun:stun.l.google.com:19302"));
        urls.push(string_of("stun:stun1.l.google.com:19302"));
        let c = StunServerConfig { urls };
        proof {
            assert(texts(c.urls@) =~= seq![
                "stun:stun.l.google.com:19302"@,
                "stun:stun1.l.google.com:19302"@,
            ]);
        }
        c
    }
}

/// TURN server configuration (time-limited credentials from the relay).
#[derive(Debug, Clone)]
pub struct TurnServerConfig {
    /// TURN server URLs (e.g. "turn:turn.monoterminal.io:3478")
    pub urls: Vec<String>,
    /// TURN username (time-limited, "timestamp:peer_id")
    pub username: String,
    /// TURN credential (HMAC-SHA256)
    pub credential: String,
    /// Credential expiry, milliseconds since the UNIX epoch
    pub expires_at_ms: u64,
}

/// WebRTC configuration.
#[derive(Debug, Clone)]
pub struct WebRtcConfig {
    /// STUN servers for NAT traversal
    pub stun_servers: StunServerConfig,
    /// TURN servers, when the relay handed out credentials
    pub turn_servers: Option<TurnServerConfig>,
    /// ICE gathering timeout
    pub ice_gathering_timeout: Duration,
    /// Total negotiation timeout
    pub negotiation_timeout: Duration,
    /// Data channel buffer size (bytes)
    pub data_channel_buffer_size: usize,
    /// Send ICE candidates as they are discovered
    pub trickle_ice: bool,
}

impl Default for WebRtcConfig {
    /// Google STUN, no TURN, 10 s ICE gathering, 15 s negotiation, 256 KiB
    /// data-channel buffer, trickle ICE.
    fn default() -> (c: Self)
        ensures
            texts(c.stun_servers.urls@) == seq![
                "stun:stun.l.google.com:19302"@,
                "stun:stun1.l.google.com:19302"@,
            ],
            c.turn_servers is None,
            c.ice_gathering_timeout == duration_of_secs(10),
            c.negotiation_timeout == duration_of_secs(15),
            c.data_channel_buffer_size == 256 * 1024,
            c.trickle_ice,
    {
        WebRtcConfig {
            stun_servers: StunServerConfig::default(),
            turn_servers: None,
            ice_gathering_timeout: secs_duration(10),
            negotiation_timeout: secs_duration(15),
            data_channel_buffer_size: 256 * 1024,
            trickle_ice: true,
        }
    }
}

impl WebRtcConfig {
    /// The default configuration with the given TURN servers.
    pub fn with_turn(turn_servers: Option<TurnServerConfig>) -> (c: Self)
        ensures
            c.turn_servers == turn_servers,
            texts(c.stun_servers.urls@) == seq![
                "stun:stun.l.google.com:19302"@,
                "stun:stun1.l.google.com:19302"@,
            ],
            c.ice_gathering_timeout == duration_of_secs(10),
            c.negotiation_timeout == duration_of_secs(15),
            c.data_channel_buffer_size == 256 * 1024,
            c.trickle_ice,
    {
        let mut c = WebRtcConfig::default();
        c.turn_servers = turn_servers;
        c
    }

    /// Configuration for tests: one STUN server, no TURN, 5 s ICE
    /// gathering, 10 s negotiation, 64 KiB buffer, trickle ICE.
    pub fn test_config() -> (c: Self)
        ensures
            texts(c.stun_servers.urls@) == seq!["stun:stun.l.google.com:19302"@],
            c.turn_servers is None,
            c.ice_gathering_timeout == duration_of_secs(5),
            c.negotiation_timeout == duration_of_secs(10),
            c.data_channel_buffer_size == 64 * 1024,
            c.trickle_ice,
    {
        let mut urls: Vec<String> = Vec::new();
        urls.push(string_of("stun:stun.l.google.com:19302"));
        let c = WebRtcConfig {
            stun_servers: StunServerConfig { urls },
            turn_servers: None,
            ice_gathering_timeout: secs_duration(5),
            negotiation_timeout: secs_duration(10),
            data_channel_buffer_size: 64 * 1024,
            trickle_ice: true,
        };
        proof {
            assert(texts(c.stun_servers.urls@) =~= seq!["stun:stun.l.google.com:19302"@]);
        }
        c
    }
}

} // verus!
