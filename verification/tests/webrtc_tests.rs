use ed25519_dalek::SigningKey;
use monoterminal_master::errors::WebRtcError;
use monoterminal_master::handshake::{
    HandshakeVerifier, PeerHandshake, PeerHandshakeResponse, PROTOCOL_VERSION,
};
use monoterminal_master::ice::{
    gathering_result, parse_port, parse_stun_url, split_str, IceCandidate, IceCandidateGatherer,
};
use monoterminal_master::pairing::{
    pairing_codes_url, pairing_response_error, relay_url_to_http, turn_config_from,
    turn_credentials_url, turn_response_error, CacheLookup, PairingCode, PairingCodeCache,
    TurnCredentials,
};
use monoterminal_master::peer::{
    preferred_route, send_check, DataChannelMessage, PeerConnectionState, RtcPeerState,
    TransportLedger, TransportType,
};
use monoterminal_master::signaling::{
    keepalive_check, relay_action, relay_frame_action, should_hand_off, FrameAction, RelayAction,
    RelayFrame, RelayMessage,
};
use monoterminal_master::webrtc_config::{StunServerConfig, WebRtcConfig};
use rand::rngs::OsRng;
use rand::RngCore;
use std::sync::Arc;
use std::time::Duration;

fn fresh_key() -> SigningKey {
    let mut secret_bytes = [0u8; 32];
    OsRng.fill_bytes(&mut secret_bytes);
    SigningKey::from_bytes(&secret_bytes)
}

#[test]
fn test_handshake_create_and_verify() {
    let signing_key = fresh_key();
    let handshake = PeerHandshake::new(&signing_key).unwrap();
    assert!(handshake.verify().is_ok());
    assert_eq!(handshake.protocol_version, PROTOCOL_VERSION);
}

#[test]
fn test_handshake_wrong_protocol_version() {
    let signing_key = fresh_key();
    let mut handshake = PeerHandshake::new(&signing_key).unwrap();
    handshake.protocol_version = 1;
    assert!(matches!(handshake.verify(), Err(WebRtcError::ProtocolVersionMismatch { .. })));
}

#[test]
fn test_handshake_expired_timestamp() {
    let signing_key = fresh_key();
    let mut handshake = PeerHandshake::new(&signing_key).unwrap();
    handshake.timestamp_ms -= 60_000;
    assert!(matches!(handshake.verify(), Err(WebRtcError::ChallengeExpired(_))));
}

#[test]
fn test_handshake_invalid_signature() {
    let signing_key = fresh_key();
    let mut handshake = PeerHandshake::new(&signing_key).unwrap();
    handshake.signature[0] ^= 0xFF;
    assert!(matches!(handshake.verify(), Err(WebRtcError::InvalidSignature)));
}

#[test]
fn test_handshake_verifier() {
    let signing_key = fresh_key();
    let handshake = PeerHandshake::new(&signing_key).unwrap();
    let peer_id = handshake.peer_id.clone();

    let mut verifier = HandshakeVerifier::new();

    let response = verifier.verify(&handshake).unwrap();
    assert!(response.accepted);
    assert!(!response.nonce.is_empty());

    assert!(verifier.is_verified(&peer_id));

    verifier.remove_peer(&peer_id);
    assert!(!verifier.is_verified(&peer_id));
}

#[test]
fn test_webrtc_handshake_round_trip() {
    let signing_key = fresh_key();
    let handshake = PeerHandshake::new(&signing_key).unwrap();
    let mut verifier = HandshakeVerifier::new();
    let response = verifier.verify(&handshake).unwrap();
    assert!(response.accepted);
    assert!(!response.nonce.is_empty());
    assert!(verifier.is_verified(&handshake.peer_id));
}

#[test]
fn handshake_checks_at_a_given_time() {
    let secret = [7u8; 32];
    let h = PeerHandshake::from_secret(&secret, 1_000_000);
    assert_eq!(h.peer_id.len(), 64);
    assert!(h.verify_at(1_030_000).is_ok());
    assert_eq!(h.verify_at(1_030_001), Err(WebRtcError::ChallengeExpired(30_001)));
    let mut bad = h.clone();
    bad.peer_id = "zz".to_string();
    match bad.verify_at(1_000_000) {
        Err(WebRtcError::HandshakeVerificationFailed(m)) => assert!(m.starts_with("Invalid peer_id hex: ")),
        other => panic!("unexpected {:?}", other),
    }
    let mut short = h.clone();
    short.peer_id = "abcd".to_string();
    assert_eq!(
        short.verify_at(1_000_000),
        Err(WebRtcError::HandshakeVerificationFailed("Invalid key length".to_string()))
    );
    let mut trimmed = h.clone();
    trimmed.signature.pop();
    assert_eq!(
        trimmed.verify_at(1_000_000),
        Err(WebRtcError::HandshakeVerificationFailed("Invalid signature length".to_string()))
    );
}

#[test]
fn test_handshake_response_accept() {
    let response = PeerHandshakeResponse::accept().unwrap();
    assert!(response.accepted);
    assert!(response.error_message.is_none());
    assert_eq!(response.nonce.len(), 64); // 32 bytes hex = 64 chars
}

#[test]
fn test_handshake_response_reject() {
    let response = PeerHandshakeResponse::reject("Test error".to_string()).unwrap();
    assert!(!response.accepted);
    assert_eq!(response.error_message, Some("Test error".to_string()));
}

#[test]
fn test_relay_url_to_http_ws() {
    assert_eq!(relay_url_to_http("ws://relay.example.com:9000"), "http://relay.example.com:9000");
}

#[test]
fn test_relay_url_to_http_wss() {
    assert_eq!(relay_url_to_http("wss://relay.example.com:9000"), "https://relay.example.com:9000");
}

#[test]
fn test_relay_url_to_http_with_path() {
    assert_eq!(
        relay_url_to_http("ws://relay.example.com:9000/signal"),
        "http://relay.example.com:9000/signal"
    );
}

#[test]
fn relay_urls_for_rest_calls() {
    assert_eq!(relay_url_to_http("https://x"), "https://x");
    assert_eq!(pairing_codes_url("wss://r.io"), "https://r.io/api/pairing-codes");
    assert_eq!(
        turn_credentials_url("ws://r.io:1", "abc"),
        "http://r.io:1/api/turn-credentials?peer_id=abc"
    );
}

#[test]
fn relay_responses_are_checked() {
    assert_eq!(
        pairing_response_error(429, "slow"),
        Some(WebRtcError::Internal("rate limited, try again shortly".to_string()))
    );
    assert_eq!(
        pairing_response_error(404, "nope"),
        Some(WebRtcError::Internal("Pairing code request failed: HTTP 404 Not Found nope".to_string()))
    );
    assert_eq!(pairing_response_error(200, ""), None);
    assert_eq!(
        turn_response_error(500, "x"),
        Some(WebRtcError::Internal(
            "TURN credentials request failed: HTTP 500 Internal Server Error x".to_string()
        ))
    );
    let turn = turn_config_from(TurnCredentials {
        urls: vec!["turn:t:3478".to_string()],
        username: "u".to_string(),
        credential: "c".to_string(),
        expires_at: 1_700,
    });
    assert_eq!(turn.expires_at_ms, 1_700_000);
}

#[test]
fn test_peer_id_available_with_no_relay() {
    let cache = PairingCodeCache::new(None, "abc123".to_string());
    assert_eq!(cache.peer_id(), "abc123");
}

#[test]
fn test_get_or_refresh_errors_without_network_call_when_no_relay() {
    let cache = PairingCodeCache::new(None, "abc123".to_string());
    assert!(matches!(cache.lookup_now(), CacheLookup::NotEnabled(_)));
}

#[test]
fn pairing_cache_serves_until_expiry() {
    let mut cache = PairingCodeCache::new(Some("ws://r".to_string()), "p".to_string());
    assert!(matches!(cache.lookup(100), CacheLookup::Fetch(ref u) if u == "ws://r"));
    cache.store(PairingCode { code: "ABCD".to_string(), expires_at: 200 });
    assert!(matches!(cache.lookup(199), CacheLookup::Cached(ref c) if c.code == "ABCD"));
    assert!(matches!(cache.lookup(200), CacheLookup::Fetch(_)));
}

#[test]
fn test_build_ice_servers() {
    let config = Arc::new(WebRtcConfig::test_config());
    let (gatherer, _rx) = IceCandidateGatherer::new(config);

    let ice_servers = gatherer.build_ice_servers();

    assert!(!ice_servers.is_empty());
    assert!(!ice_servers[0].urls.is_empty());
    assert!(ice_servers[0].urls[0].starts_with("stun:"));
}

#[test]
fn test_ice_candidate_gathering_config() {
    let config = Arc::new(WebRtcConfig::test_config());
    let (gatherer, _rx) = IceCandidateGatherer::new(config);
    let ice_servers = gatherer.build_ice_servers();
    assert!(!ice_servers.is_empty());
}

#[test]
fn test_ice_candidate_gatherer_creation() {
    let config = Arc::new(WebRtcConfig::test_config());
    let (_gatherer, _rx) = IceCandidateGatherer::new(config.clone());
}

#[test]
fn webrtc_config_defaults() {
    let c = WebRtcConfig::default();
    assert_eq!(c.ice_gathering_timeout, Duration::from_secs(10));
    assert_eq!(c.negotiation_timeout, Duration::from_secs(15));
    assert_eq!(c.data_channel_buffer_size, 256 * 1024);
    assert!(c.trickle_ice && c.turn_servers.is_none());
    assert_eq!(StunServerConfig::default().urls.len(), 2);
    let t = WebRtcConfig::test_config();
    assert_eq!(t.ice_gathering_timeout, Duration::from_secs(5));
    assert_eq!(t.data_channel_buffer_size, 64 * 1024);
}

#[test]
fn test_probe_stun_server_invalid_url() {
    assert!(parse_stun_url("invalid").is_err());
}

#[test]
fn stun_urls_are_parsed() {
    assert_eq!(
        parse_stun_url("stun:stun.l.google.com:19302").unwrap(),
        ("stun.l.google.com".to_string(), 19302)
    );
    assert_eq!(
        parse_stun_url("turn:x:1"),
        Err(WebRtcError::StunServerUnreachable("Invalid STUN URL: turn:x:1".to_string()))
    );
    assert_eq!(
        parse_stun_url("stun:x:70000"),
        Err(WebRtcError::StunServerUnreachable("Invalid port".to_string()))
    );
    assert_eq!(parse_port("+80"), Some(80));
    assert_eq!(parse_port("65535"), Some(65535));
    assert_eq!(parse_port("65536"), None);
    assert_eq!(parse_port(""), None);
    assert_eq!(parse_port("+"), None);
    assert_eq!(split_str("a::b", ':'), vec!["a", "", "b"]);
}

#[test]
fn gathering_times_out_without_candidates() {
    assert!(matches!(gathering_result(vec![], true, 10), Err(WebRtcError::IceGatheringTimeout(10))));
    let c = IceCandidate {
        candidate: "candidate:1".to_string(),
        sdp_mid: None,
        sdp_mline_index: Some(0),
        username_fragment: None,
    };
    assert_eq!(gathering_result(vec![c], true, 10).unwrap().len(), 1);
    assert!(gathering_result(vec![], false, 3).unwrap().is_empty());
}

#[test]
fn test_connection_state_mapping() {
    assert_eq!(PeerConnectionState::from_rtc(RtcPeerState::New), PeerConnectionState::New);
    assert_eq!(
        PeerConnectionState::from_rtc(RtcPeerState::Connecting),
        PeerConnectionState::Connecting
    );
    assert_eq!(
        PeerConnectionState::from_rtc(RtcPeerState::Connected),
        PeerConnectionState::Connected
    );
    assert_eq!(PeerConnectionState::from_rtc(RtcPeerState::Failed), PeerConnectionState::Failed);
    assert_eq!(
        PeerConnectionState::from_rtc(RtcPeerState::Closed),
        PeerConnectionState::Disconnected
    );
}

#[test]
fn data_channel_messages_and_sends() {
    let m = DataChannelMessage::from_frame(vec![1, 2], true);
    assert!(!m.is_binary);
    assert_eq!(send_check(false), Err(WebRtcError::DataChannelClosed));
    assert_eq!(send_check(true), Ok(()));
}

#[test]
fn test_dual_transport_creation() {
    let ledger = TransportLedger::new();
    let stats = ledger.stats(false);
    assert_eq!(stats.preferred_transport, TransportType::WebSocket);
    assert_eq!(stats.websocket_bytes_sent, 0);
    assert_eq!(stats.webrtc_bytes_sent, 0);
}

#[test]
fn test_failover_to_websocket() {
    let mut ledger = TransportLedger::new();
    ledger.set_webrtc_peer();
    assert_eq!(ledger.stats(true).preferred_transport, TransportType::WebRtc);
    ledger.failover_to_websocket();
    assert_eq!(ledger.stats(true).preferred_transport, TransportType::WebSocket);
    ledger.record_websocket(12);
    assert_eq!(ledger.stats(false).websocket_bytes_sent, 12);
    assert_eq!(
        preferred_route(TransportType::WebRtc, Some(PeerConnectionState::Connecting)),
        TransportType::WebSocket
    );
    assert_eq!(
        preferred_route(TransportType::WebRtc, Some(PeerConnectionState::Connected)),
        TransportType::WebRtc
    );
}

#[test]
fn relay_decisions() {
    assert!(matches!(relay_action(RelayMessage::PeerConnectRequest, false, false), RelayAction::StartNegotiation));
    assert!(matches!(
        relay_action(RelayMessage::Offer { sdp: "o".to_string() }, false, false),
        RelayAction::Ignore
    ));
    assert!(matches!(
        relay_action(RelayMessage::Offer { sdp: "o".to_string() }, true, false),
        RelayAction::AnswerOffer(ref s) if s == "o"
    ));
    assert!(matches!(relay_action(RelayMessage::PeerDisconnected, true, true), RelayAction::Ignore));
    assert!(matches!(
        relay_action(RelayMessage::PeerDisconnected, true, false),
        RelayAction::CloseNegotiation
    ));
    assert!(matches!(relay_frame_action(RelayFrame::Close), FrameAction::Stop));
    assert_eq!(keepalive_check(45, 0), Ok(()));
    assert_eq!(
        keepalive_check(46, 0),
        Err("relay connection stale — no activity in 46s, reconnecting".to_string())
    );
    assert!(should_hand_off(true, PeerConnectionState::Connected));
    assert!(!should_hand_off(false, PeerConnectionState::Connected));
}

fn wall_clock_ms() -> u64 {
    std::time::SystemTime::now().duration_since(std::time::UNIX_EPOCH).unwrap().as_millis() as u64
}

#[test]
fn handshake_messages_carry_the_clock_reading() {
    let before = wall_clock_ms();
    let accepted = PeerHandshakeResponse::accept().unwrap();
    let rejected = PeerHandshakeResponse::reject("no".to_string()).unwrap();
    let mut secret = [0u8; 32];
    OsRng.fill_bytes(&mut secret);
    let hs = PeerHandshake::new(&SigningKey::from_bytes(&secret)).unwrap();
    let after = wall_clock_ms();
    for ts in [accepted.timestamp_ms, rejected.timestamp_ms, hs.timestamp_ms] {
        assert!(before <= ts && ts <= after);
    }
    assert_eq!(accepted.nonce.len(), 64);
    assert!(hs.verify().is_ok());
}
