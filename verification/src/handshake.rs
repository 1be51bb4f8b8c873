//! Peer handshake with Ed25519 challenge-response.
//!
//! A peer proves it holds the Ed25519 key behind its peer id (the hex of its
//! public key) by signing `MONOTERMINAL-P2P-HANDSHAKE:{version}:{peer_id}:{timestamp}`.
//! The verifier checks the protocol version, a ±30 s clock-skew window, the
//! key and the signature.

use crate::clock::{is_epoch_millis, reading_millis, unix_time_ms};
use std::time::SystemTime;
use crate::errors::WebRtcError;
use crate::text::{
    decimal, hex_decode, hex_decode_str, hex_encode, hex_encode_bytes, hex_error_text,
    lemma_hex_roundtrip, push_decimal, string_of, str_eq,
};
use ed25519_dalek::Signer;
use ed25519_dalek::Verifier;
use rand::Rng;
use vstd::prelude::*;
use vstd::utf8::encode_utf8;

verus! {

/// Protocol version of the handshake.
pub const PROTOCOL_VERSION: u32 = 2;

/// Largest accepted distance between the peer's timestamp and ours (ms).
pub const MAX_CLOCK_SKEW_MS: i64 = 30_000;

// ---------------------------------------------------------------------------
// Ed25519 (ed25519-dalek)
// ---------------------------------------------------------------------------

/// An Ed25519 signing key (ed25519-dalek).
#[verifier::external_type_specification]
#[verifier::external_body]
pub struct ExSigningKey(ed25519_dalek::SigningKey);

/// The public key ed25519-dalek derives from a 32-byte secret key.
pub uninterp spec fn ed25519_public_key(secret: Seq<u8>) -> Seq<u8>;

/// The signature ed25519-dalek makes of `msg` with a 32-byte secret key.
pub uninterp spec fn ed25519_signature(secret: Seq<u8>, msg: Seq<u8>) -> Seq<u8>;

/// Whether ed25519-dalek accepts 32 bytes as a public key.
pub uninterp spec fn ed25519_key_accepted(public: Seq<u8>) -> bool;

/// Whether ed25519-dalek accepts `sig` as `public`'s signature of `msg`.
pub uninterp spec fn ed25519_signature_valid(public: Seq<u8>, msg: Seq<u8>, sig: Seq<u8>) -> bool;

/// The 32 secret bytes of an ed25519-dalek signing key.
pub uninterp spec fn signing_key_bytes(key: ed25519_dalek::SigningKey) -> Seq<u8>;

/// `SigningKey::to_bytes`: the key's 32 secret bytes.
#[verifier::external_body]
fn signing_key_secret(key: &ed25519_dalek::SigningKey) -> (secret: Vec<u8>)
    ensures
        secret@ == signing_key_bytes(*key),
        secret@.len() == 32,
{
    key.to_bytes().to_vec()
}

/// `SigningKey::verifying_key`: the public key of a secret key. Such a key
/// is always accepted by `VerifyingKey::from_bytes` (it is a valid point).
#[verifier::external_body]
fn public_key_of(secret: &[u8]) -> (public: Vec<u8>)
    requires
        secret@.len() == 32,
    ensures
        public@ == ed25519_public_key(secret@),
        public@.len() == 32,
        ed25519_key_accepted(public@),
{
    let bytes: &[u8; 32] = secret.try_into().unwrap();
    ed25519_dalek::SigningKey::from_bytes(bytes).verifying_key().to_bytes().to_vec()
}

/// `Signer::sign` of a `SigningKey`: 64 signature bytes, which the matching
/// public key accepts for the same message.
#[verifier::external_body]
fn sign(secret: &[u8], msg: &[u8]) -> (sig: Vec<u8>)
    requires
        secret@.len() == 32,
    ensures
        sig@ == ed25519_signature(secret@, msg@),
        sig@.len() == 64,
        ed25519_signature_valid(ed25519_public_key(secret@), msg@, sig@),
{
    let bytes: &[u8; 32] = secret.try_into().unwrap();
    ed25519_dalek::SigningKey::from_bytes(bytes).sign(msg).to_bytes().to_vec()
}

/// `VerifyingKey::from_bytes`: whether 32 bytes are a public key; the error
/// text on failure.
#[verifier::external_body]
fn check_public_key(public: &[u8]) -> (r: Result<(), String>)
    requires
        public@.len() == 32,
    ensures
        r is Ok <==> ed25519_key_accepted(public@),
{
    let bytes: &[u8; 32] = public.try_into().unwrap();
    match ed25519_dalek::VerifyingKey::from_bytes(bytes) {
        Ok(_) => Ok(()),
        Err(e) => Err(format!("{}", e)),
    }
}

/// `Verifier::verify` of a `VerifyingKey` on a 64-byte signature.
#[verifier::external_body]
fn signature_valid(public: &[u8], msg: &[u8], sig: &[u8]) -> (ok: bool)
    requires
        public@.len() == 32,
        sig@.len() == 64,
        ed25519_key_accepted(public@),
    ensures
        ok == ed25519_signature_valid(public@, msg@, sig@),
{
    let key_bytes: &[u8; 32] = public.try_into().unwrap();
    let sig_bytes: &[u8; 64] = sig.try_into().unwrap();
    let key = ed25519_dalek::VerifyingKey::from_bytes(key_bytes).unwrap();
    key.verify(msg, &ed25519_dalek::Signature::from_bytes(sig_bytes)).is_ok()
}

// ---------------------------------------------------------------------------
// Clock and randomness
// ---------------------------------------------------------------------------

/// 32 random bytes from `rand::thread_rng`.
#[verifier::external_body]
fn random_32_bytes() -> (b: Vec<u8>)
    ensures
        b@.len() == 32,
{
    let bytes: [u8; 32] = rand::thread_rng().gen();
    bytes.to_vec()
}

// ---------------------------------------------------------------------------
// Handshake
// ---------------------------------------------------------------------------

/// The text a peer signs.
pub open spec fn handshake_payload(version: u32, peer_id: Seq<char>, timestamp_ms: u64) -> Seq<char> {
    "MONOTERMINAL-P2P-HANDSHAKE:"@ + decimal(version as nat) + ":"@ + peer_id + ":"@ + decimal(
        timestamp_ms as nat,
    )
}

/// Distance between two millisecond timestamps, each read as a signed
/// 64-bit number.
pub open spec fn timestamp_delta(now_ms: u64, timestamp_ms: u64) -> int {
    let d = (now_ms as i64) as int - (timestamp_ms as i64) as int;
    if d < 0 { -d } else { d }
}

/// A distance reported in an error (at most `i64::MAX`).
pub open spec fn reported_delta(d: int) -> i64 {
    if d > i64::MAX { i64::MAX } else { d as i64 }
}

/// Why a handshake is rejected, checked in this order.
#[derive(Debug, Clone, Copy, PartialEq, Eq, Structural)]
pub enum HandshakeFailure {
    VersionMismatch,
    Expired,
    BadPeerIdHex,
    BadKeyLength,
    BadKey,
    BadSignatureLength,
    BadSignature,
}

/// The first check a handshake fails at time `now_ms`, if any.
pub open spec fn handshake_failure(
    version: u32,
    peer_id: Seq<char>,
    timestamp_ms: u64,
    signature: Seq<u8>,
    now_ms: u64,
) -> Option<HandshakeFailure> {
    if version != PROTOCOL_VERSION {
        Some(HandshakeFailure::VersionMismatch)
    } else if timestamp_delta(now_ms, timestamp_ms) > MAX_CLOCK_SKEW_MS {
        Some(HandshakeFailure::Expired)
    } else {
        match hex_decode(peer_id) {
            None => Some(HandshakeFailure::BadPeerIdHex),
            Some(key) => if key.len() != 32 {
                Some(HandshakeFailure::BadKeyLength)
            } else if !ed25519_key_accepted(key) {
                Some(HandshakeFailure::BadKey)
            } else if signature.len() != 64 {
                Some(HandshakeFailure::BadSignatureLength)
            } else if !ed25519_signature_valid(
                key,
                encode_utf8(handshake_payload(version, peer_id, timestamp_ms)),
                signature,
            ) {
                Some(HandshakeFailure::BadSignature)
            } else {
                None
            },
        }
    }
}

/// The error a handshake verification reports for a failure (`text` is
/// the library's error text where the message carries one).
pub open spec fn failure_error(
    f: HandshakeFailure,
    version: u32,
    delta: int,
    e: WebRtcError,
) -> bool {
    match f {
        HandshakeFailure::VersionMismatch => e == WebRtcError::ProtocolVersionMismatch {
            got: version,
            expected: PROTOCOL_VERSION,
        },
        HandshakeFailure::Expired => e == WebRtcError::ChallengeExpired(reported_delta(delta)),
        HandshakeFailure::BadPeerIdHex => e matches WebRtcError::HandshakeVerificationFailed(m)
            && m@.len() >= 21 && m@.subrange(0, 21) == "Invalid peer_id hex: "@,
        HandshakeFailure::BadKeyLength => e matches WebRtcError::HandshakeVerificationFailed(m)
            && m@ == "Invalid key length"@,
        HandshakeFailure::BadKey => e matches WebRtcError::HandshakeVerificationFailed(m)
            && m@.len() >= 20 && m@.subrange(0, 20) == "Invalid public key: "@,
        HandshakeFailure::BadSignatureLength => e matches WebRtcError::HandshakeVerificationFailed(
            m,
        ) && m@ == "Invalid signature length"@,
        HandshakeFailure::BadSignature => e == WebRtcError::InvalidSignature,
    }
}

/// Handshake message: client to master, to open a P2P connection.
#[derive(Debug, Clone)]
pub struct PeerHandshake {
    /// Protocol version (2)
    pub protocol_version: u32,
    /// Ed25519 public key, hex-encoded
    pub peer_id: String,
    /// Milliseconds since the UNIX epoch
    pub timestamp_ms: u64,
    /// Ed25519 signature of the handshake payload
    pub signature: Vec<u8>,
}

fn payload_text(version: u32, peer_id: &str, timestamp_ms: u64) -> (s: String)
    ensures
        s@ == handshake_payload(version, peer_id@, timestamp_ms),
{
    let mut s = string_of("MONOTERMINAL-P2P-HANDSHAKE:");
    push_decimal(&mut s, version as u64);
    s.append(":");
    s.append(peer_id);
    s.append(":");
    push_decimal(&mut s, timestamp_ms);
    s
}

fn verification_failed(prefix: &str, detail: String) -> (e: WebRtcError)
    ensures
        e matches WebRtcError::HandshakeVerificationFailed(m) && m@ == prefix@ + detail@,
{
    let mut m = string_of(prefix);
    m.append(detail.as_str());
    WebRtcError::HandshakeVerificationFailed(m)
}

/// `h` is a handshake of protocol version 2 made by the holder of the
/// 32-byte secret key `secret`: its peer id is the hex of the public key and
/// its signature is that key's signature of the payload.
pub open spec fn signed_by(h: PeerHandshake, secret: Seq<u8>) -> bool {
    let public = ed25519_public_key(secret);
    let msg = encode_utf8(handshake_payload(PROTOCOL_VERSION, h.peer_id@, h.timestamp_ms));
    &&& secret.len() == 32
    &&& h.protocol_version == PROTOCOL_VERSION
    &&& h.peer_id@ == hex_encode(public)
    &&& h.signature@ == ed25519_signature(secret, msg)
    &&& public.len() == 32
    &&& ed25519_key_accepted(public)
    &&& h.signature@.len() == 64
    &&& ed25519_signature_valid(public, msg, h.signature@)
}

/// The error reported when the system clock cannot be read.
pub open spec fn is_time_error(e: WebRtcError) -> bool {
    e matches WebRtcError::Internal(m) && m@.len() >= 19 && m@.subrange(0, 19)
        == "System time error: "@
}

/// The error for an unreadable clock, carrying the clock's message.
pub open spec fn is_time_error_with(e: WebRtcError, detail: Seq<char>) -> bool {
    e matches WebRtcError::Internal(m) && m@ == "System time error: "@ + detail
}

/// Whether `r` is the answer of checking the handshake `h` at time
/// `now_ms`: success exactly when it fails no check, else the error of the
/// first check it fails.
pub open spec fn checked_at(h: PeerHandshake, now_ms: u64, r: Result<(), WebRtcError>) -> bool {
    let f = handshake_failure(h.protocol_version, h.peer_id@, h.timestamp_ms, h.signature@, now_ms);
    &&& (r is Ok <==> f is None)
    &&& (r matches Err(e) ==> failure_error(
        f->0,
        h.protocol_version,
        timestamp_delta(now_ms, h.timestamp_ms),
        e,
    ))
}

/// Whether `r` is the answer of checking the handshake `h` at the time the
/// system-clock reading `t` gives: an internal error when it is before the
/// UNIX epoch, else as at its milliseconds.
pub open spec fn checked_at_reading(h: PeerHandshake, t: SystemTime, r: Result<(), WebRtcError>) -> bool {
    match reading_millis(t) {
        Ok(ms) => checked_at(h, ms, r),
        Err(m) => r matches Err(e) && is_time_error_with(e, m),
    }
}

fn time_error(detail: String) -> (e: WebRtcError)
    ensures
        is_time_error(e),
        is_time_error_with(e, detail@),
{
    let mut m = string_of("System time error: ");
    m.append(detail.as_str());
    proof {
        reveal_strlit("System time error: ");
        assert(m@.subrange(0, 19) =~= "System time error: "@);
    }
    WebRtcError::Internal(m)
}

impl PeerHandshake {
    /// The handshake a key holder with secret key `secret` sends at time
    /// `now_ms`.
    pub fn from_secret(secret: &[u8], now_ms: u64) -> (h: Self)
        requires
            secret@.len() == 32,
        ensures
            signed_by(h, secret@),
            h.timestamp_ms == now_ms,
    {
        let public = public_key_of(secret);
        let peer_id = hex_encode_bytes(public.as_slice());
        let payload = payload_text(PROTOCOL_VERSION, peer_id.as_str(), now_ms);
        let signature = sign(secret, payload.as_str().as_bytes());
        PeerHandshake { protocol_version: PROTOCOL_VERSION, peer_id, timestamp_ms: now_ms, signature }
    }

    /// A handshake signed with `signing_key`, stamped with the current time;
    /// fails only when the system clock is before the UNIX epoch.
    pub fn new(signing_key: &ed25519_dalek::SigningKey) -> (r: Result<Self, WebRtcError>)
        ensures
            r matches Ok(h) ==> signed_by(h, signing_key_bytes(*signing_key)),
            r matches Err(e) ==> is_time_error(e),
            exists|t: SystemTime|
                #![trigger call_ensures(SystemTime::now, (), t)]
                call_ensures(SystemTime::now, (), t) && match reading_millis(t) {
                    Ok(ms) => r matches Ok(h) && h.timestamp_ms == ms,
                    Err(m) => r matches Err(e) && is_time_error_with(e, m),
                },
    {
        let secret = signing_key_secret(signing_key);
        let clock = unix_time_ms();
        let ghost t = choose|t: SystemTime|
            call_ensures(SystemTime::now, (), t) && is_epoch_millis(clock, t);
        let now = match clock {
            Ok(ms) => ms,
            Err(e) => {
                let r: Result<Self, WebRtcError> = Err(time_error(e));
                proof {
                    assert(call_ensures(SystemTime::now, (), t));
                }
                return r;
            },
        };
        let h = PeerHandshake::from_secret(secret.as_slice(), now);
        let r: Result<Self, WebRtcError> = Ok(h);
        proof {
            assert(signed_by(r->Ok_0, secret@));
            assert(call_ensures(SystemTime::now, (), t));
        }
        r
    }

    /// Check the handshake at time `now_ms`: protocol version, clock skew of
    /// at most 30 s, a hex peer id decoding to a 32-byte Ed25519 public key,
    /// and a 64-byte signature of the payload by that key.
    pub fn verify_at(&self, now_ms: u64) -> (r: Result<(), WebRtcError>)
        ensures
            checked_at(*self, now_ms, r),
            r is Ok <==> handshake_failure(
                self.protocol_version,
                self.peer_id@,
                self.timestamp_ms,
                self.signature@,
                now_ms,
            ) is None,
            r matches Err(e) ==> failure_error(
                handshake_failure(
                    self.protocol_version,
                    self.peer_id@,
                    self.timestamp_ms,
                    self.signature@,
                    now_ms,
                )->0,
                self.protocol_version,
                timestamp_delta(now_ms, self.timestamp_ms),
                e,
            ),
    {
        if self.protocol_version != PROTOCOL_VERSION {
            return Err(
                WebRtcError::ProtocolVersionMismatch {
                    got: self.protocol_version,
                    expected: PROTOCOL_VERSION,
                },
            );
        }
        let now = now_ms as i64;
        let ts = self.timestamp_ms as i64;
        let diff: i128 = now as i128 - ts as i128;
        let delta: i128 = if diff < 0 { -diff } else { diff };
        if delta > MAX_CLOCK_SKEW_MS as i128 {
            let reported: i64 = if delta > i64::MAX as i128 { i64::MAX } else { delta as i64 };
            return Err(WebRtcError::ChallengeExpired(reported));
        }
        let key = match hex_decode_str(self.peer_id.as_str()) {
            Ok(k) => k,
            Err(e) => {
                let err = verification_failed("Invalid peer_id hex: ", hex_error_text(&e));
                proof {
                    reveal_strlit("Invalid peer_id hex: ");
                    let m = err->HandshakeVerificationFailed_0;
                    assert(m@.subrange(0, 21) =~= "Invalid peer_id hex: "@);
                }
                return Err(err);
            },
        };
        if key.len() != 32 {
            return Err(WebRtcError::HandshakeVerificationFailed(string_of("Invalid key length")));
        }
        match check_public_key(key.as_slice()) {
            Ok(()) => {},
            Err(text) => {
                let err = verification_failed("Invalid public key: ", text);
                proof {
                    reveal_strlit("Invalid public key: ");
                    let m = err->HandshakeVerificationFailed_0;
                    assert(m@.subrange(0, 20) =~= "Invalid public key: "@);
                }
                return Err(err);
            },
        }
        if self.signature.len() != 64 {
            return Err(
                WebRtcError::HandshakeVerificationFailed(string_of("Invalid signature length")),
            );
        }
        let payload = payload_text(self.protocol_version, self.peer_id.as_str(), self.timestamp_ms);
        if !signature_valid(key.as_slice(), payload.as_str().as_bytes(), self.signature.as_slice()) {
            return Err(WebRtcError::InvalidSignature);
        }
        Ok(())
    }

    /// Check the handshake against the current time (see `verify_at`): a
    /// wrong protocol version is refused before the clock is read; otherwise
    /// the handshake is checked at the system clock's reading, and an
    /// unreadable clock is an internal error.
    pub fn verify(&self) -> (r: Result<(), WebRtcError>)
        ensures
            self.protocol_version != PROTOCOL_VERSION ==> r == Err::<(), WebRtcError>(
                WebRtcError::ProtocolVersionMismatch {
                    got: self.protocol_version,
                    expected: PROTOCOL_VERSION,
                },
            ),
            self.protocol_version == PROTOCOL_VERSION ==> exists|t: SystemTime|
                #![trigger call_ensures(SystemTime::now, (), t)]
                call_ensures(SystemTime::now, (), t) && checked_at_reading(*self, t, r),
            r is Ok ==> exists|now: u64|
                handshake_failure(
                    self.protocol_version,
                    self.peer_id@,
                    self.timestamp_ms,
                    self.signature@,
                    now,
                ) is None,
            r matches Err(e) ==> is_time_error(e) || exists|now: u64|
                failure_error(
                    handshake_failure(
                        self.protocol_version,
                        self.peer_id@,
                        self.timestamp_ms,
                        self.signature@,
                        now,
                    )->0,
                    self.protocol_version,
                    timestamp_delta(now, self.timestamp_ms),
                    e,
                ),
    {
        if self.protocol_version != PROTOCOL_VERSION {
            return self.verify_at(0);
        }
        let clock = unix_time_ms();
        let ghost t = choose|t: SystemTime|
            call_ensures(SystemTime::now, (), t) && is_epoch_millis(clock, t);
        let now = match clock {
            Ok(ms) => ms,
            Err(e) => {
                let err = time_error(e);
                let r: Result<(), WebRtcError> = Err(err);
                proof {
                    assert(checked_at_reading(*self, t, r));
                }
                return r;
            },
        };
        let r = self.verify_at(now);
        proof {
            assert(checked_at_reading(*self, t, r));
        }
        r
    }
}

/// The clock skew a handshake is held to does not depend on which of the two
/// timestamps is later: it is their absolute difference (for timestamps
/// below 2^63 ms, as distances between plain numbers).
pub proof fn lemma_skew_is_absolute(a: u64, b: u64)
    ensures
        timestamp_delta(a, b) == timestamp_delta(b, a),
        timestamp_delta(a, b) >= 0,
        a < 0x8000_0000_0000_0000 && b < 0x8000_0000_0000_0000 ==> timestamp_delta(a, b) == (if a
            >= b {
            a - b
        } else {
            b - a
        }),
{
    if a < 0x8000_0000_0000_0000 {
        assert((a as i64) as int == a as int);
    }
    if b < 0x8000_0000_0000_0000 {
        assert((b as i64) as int == b as int);
    }
}

/// A handshake of the right version whose timestamp lies more than 30 s
/// before or after the time it is checked at is refused as expired, with
/// that distance (timestamps below 2^63 ms).
pub proof fn lemma_expired_either_way(h: PeerHandshake, now_ms: u64, r: Result<(), WebRtcError>)
    requires
        checked_at(h, now_ms, r),
        h.protocol_version == PROTOCOL_VERSION,
        now_ms < 0x8000_0000_0000_0000,
        h.timestamp_ms < 0x8000_0000_0000_0000,
        now_ms - h.timestamp_ms > MAX_CLOCK_SKEW_MS || h.timestamp_ms - now_ms > MAX_CLOCK_SKEW_MS,
    ensures
        r == Err::<(), WebRtcError>(
            WebRtcError::ChallengeExpired(
                (if now_ms >= h.timestamp_ms {
                    now_ms - h.timestamp_ms
                } else {
                    h.timestamp_ms - now_ms
                }) as i64,
            ),
        ),
{
    lemma_skew_is_absolute(now_ms, h.timestamp_ms);
}

/// A handshake made from a secret key verifies, at any time within 30 s of
/// its timestamp (timestamps below 2^63 ms).
pub proof fn lemma_signed_handshake_verifies(h: PeerHandshake, secret: Seq<u8>, now_ms: u64)
    requires
        signed_by(h, secret),
        now_ms < 0x8000_0000_0000_0000,
        h.timestamp_ms < 0x8000_0000_0000_0000,
        -MAX_CLOCK_SKEW_MS <= now_ms - h.timestamp_ms <= MAX_CLOCK_SKEW_MS,
    ensures
        handshake_failure(h.protocol_version, h.peer_id@, h.timestamp_ms, h.signature@, now_ms) is None,
{
    lemma_hex_roundtrip(ed25519_public_key(secret));
    assert((now_ms as i64) as int == now_ms as int);
    assert((h.timestamp_ms as i64) as int == h.timestamp_ms as int);
}

// ---------------------------------------------------------------------------
// Response
// ---------------------------------------------------------------------------

/// Handshake response: master to client.
#[derive(Debug, Clone)]
pub struct PeerHandshakeResponse {
    /// Random challenge nonce (32 bytes, hex-encoded)
    pub nonce: String,
    /// Milliseconds since the UNIX epoch
    pub timestamp_ms: u64,
    pub accepted: bool,
    /// Why the handshake was rejected
    pub error_message: Option<String>,
}

impl PeerHandshakeResponse {
    /// An acceptance carrying the hex of `nonce_bytes` as its nonce.
    pub fn accept_with(nonce_bytes: &[u8], now_ms: u64) -> (r: Self)
        ensures
            r.nonce@ == hex_encode(nonce_bytes@),
            r.timestamp_ms == now_ms,
            r.accepted,
            r.error_message is None,
    {
        PeerHandshakeResponse {
            nonce: hex_encode_bytes(nonce_bytes),
            timestamp_ms: now_ms,
            accepted: true,
            error_message: None,
        }
    }

    /// An acceptance with a fresh random 32-byte nonce (64 hex digits),
    /// stamped with the current time.
    pub fn accept() -> (r: Result<Self, WebRtcError>)
        ensures
            r matches Ok(resp) ==> resp.accepted && resp.error_message is None && exists|b: Seq<u8>|
                b.len() == 32 && resp.nonce@ == hex_encode(b),
            r matches Err(e) ==> is_time_error(e),
            exists|t: SystemTime|
                #![trigger call_ensures(SystemTime::now, (), t)]
                call_ensures(SystemTime::now, (), t) && match reading_millis(t) {
                    Ok(ms) => r matches Ok(resp) && resp.timestamp_ms == ms,
                    Err(m) => r matches Err(e) && is_time_error_with(e, m),
                },
    {
        let bytes = random_32_bytes();
        let clock = unix_time_ms();
        let ghost t = choose|t: SystemTime|
            call_ensures(SystemTime::now, (), t) && is_epoch_millis(clock, t);
        let now = match clock {
            Ok(ms) => ms,
            Err(e) => {
                let r: Result<Self, WebRtcError> = Err(time_error(e));
                proof {
                    assert(call_ensures(SystemTime::now, (), t));
                }
                return r;
            },
        };
        let r: Result<Self, WebRtcError> = Ok(PeerHandshakeResponse::accept_with(bytes.as_slice(), now));
        proof {
            assert(call_ensures(SystemTime::now, (), t));
        }
        r
    }

    /// A rejection giving `reason`, stamped at `now_ms`.
    pub fn reject_at(reason: String, now_ms: u64) -> (r: Self)
        ensures
            r.nonce@ == Seq::<char>::empty(),
            r.timestamp_ms == now_ms,
            !r.accepted,
            r.error_message == Some(reason),
    {
        PeerHandshakeResponse {
            nonce: String::new(),
            timestamp_ms: now_ms,
            accepted: false,
            error_message: Some(reason),
        }
    }

    /// A rejection giving `reason`, stamped with the current time.
    pub fn reject(reason: String) -> (r: Result<Self, WebRtcError>)
        ensures
            r matches Ok(resp) ==> resp.nonce@ == Seq::<char>::empty() && !resp.accepted
                && resp.error_message == Some(reason),
            r matches Err(e) ==> is_time_error(e),
            exists|t: SystemTime|
                #![trigger call_ensures(SystemTime::now, (), t)]
                call_ensures(SystemTime::now, (), t) && match reading_millis(t) {
                    Ok(ms) => r matches Ok(resp) && resp.timestamp_ms == ms,
                    Err(m) => r matches Err(e) && is_time_error_with(e, m),
                },
    {
        let clock = unix_time_ms();
        let ghost t = choose|t: SystemTime|
            call_ensures(SystemTime::now, (), t) && is_epoch_millis(clock, t);
        let now = match clock {
            Ok(ms) => ms,
            Err(e) => {
                let r: Result<Self, WebRtcError> = Err(time_error(e));
                proof {
                    assert(call_ensures(SystemTime::now, (), t));
                }
                return r;
            },
        };
        let r: Result<Self, WebRtcError> = Ok(PeerHandshakeResponse::reject_at(reason, now));
        proof {
            assert(call_ensures(SystemTime::now, (), t));
        }
        r
    }
}

// ---------------------------------------------------------------------------
// Verifier
// ---------------------------------------------------------------------------

/// Remembers which peers have completed the handshake.
pub struct HandshakeVerifier {
    verified_peers: Vec<String>,
}

impl View for HandshakeVerifier {
    type V = Set<Seq<char>>;

    closed spec fn view(&self) -> Set<Seq<char>> {
        peer_names(self.verified_peers@)
    }
}

impl HandshakeVerifier {
    /// No peer verified yet.
    pub fn new() -> (v: Self)
        ensures
            v@ == Set::<Seq<char>>::empty(),
    {
        let v = HandshakeVerifier { verified_peers: Vec::new() };
        proof {
            assert(v@ =~= Set::<Seq<char>>::empty());
        }
        v
    }

    fn position(&self, peer_id: &str) -> (r: Option<usize>)
        ensures
            match r {
                Some(i) => i < self.verified_peers@.len() && self@.contains(peer_id@),
                None => !self@.contains(peer_id@),
            },
    {
        let n = self.verified_peers.len();
        let mut i: usize = 0;
        while i < n
            invariant
                n == self.verified_peers@.len(),
                i <= n,
                forall|j: int| 0 <= j < i ==> self.verified_peers@[j]@ != peer_id@,
            decreases n - i,
        {
            if str_eq(self.verified_peers[i].as_str(), peer_id) {
                proof {
                    assert(self.verified_peers@.map_values(|s: String| s@)[i as int] == peer_id@);
                }
                return Some(i);
            }
            i = i + 1;
        }
        proof {
            if self@.contains(peer_id@) {
                let s = self.verified_peers@.map_values(|s: String| s@);
                let k = choose|k: int| 0 <= k < s.len() && s[k] == peer_id@;
                assert(self.verified_peers@[k]@ == peer_id@);
            }
        }
        None
    }

    /// Record a verified peer.
    pub fn record(&mut self, peer_id: &str)
        ensures
            final(self)@ == old(self)@.insert(peer_id@),
    {
        match self.position(peer_id) {
            Some(_) => {
                proof {
                    assert(old(self)@.contains(peer_id@));
                    assert(old(self)@.insert(peer_id@) =~= old(self)@);
                }
            },
            None => {
                let ghost prev = self.verified_peers@;
                let name = string_of(peer_id);
                let ghost g = name;
                self.verified_peers.push(name);
                proof {
                    lemma_peer_names_push(prev, g);
                }
            },
        }
    }

    /// Verify a handshake against the current time (`PeerHandshake::verify`):
    /// its error is the answer; on success record the peer and answer with
    /// what `PeerHandshakeResponse::accept` gives, an acceptance carrying a
    /// fresh nonce. A peer whose handshake verified stays recorded even if
    /// making the response then fails (clock unreadable).
    pub fn verify(&mut self, handshake: &PeerHandshake) -> (r: Result<PeerHandshakeResponse, WebRtcError>)
        ensures
            r is Ok ==> final(self)@ == old(self)@.insert(handshake.peer_id@),
            r matches Ok(resp) ==> resp.accepted && resp.error_message is None,
            final(self)@ == old(self)@ || final(self)@ == old(self)@.insert(handshake.peer_id@),
            final(self)@ != old(self)@ ==> exists|now: u64|
                handshake_failure(
                    handshake.protocol_version,
                    handshake.peer_id@,
                    handshake.timestamp_ms,
                    handshake.signature@,
                    now,
                ) is None,
            exists|checked: Result<(), WebRtcError>|
                #![trigger call_ensures(PeerHandshake::verify, (handshake,), checked)]
                call_ensures(PeerHandshake::verify, (handshake,), checked) && match checked {
                    Err(e) => r == Err::<PeerHandshakeResponse, WebRtcError>(e) && final(self)@
                        == old(self)@,
                    Ok(()) => final(self)@ == old(self)@.insert(handshake.peer_id@) && call_ensures(
                        PeerHandshakeResponse::accept,
                        (),
                        r,
                    ),
                },
    {
        let checked = handshake.verify();
        proof {
            assert(call_ensures(PeerHandshake::verify, (handshake,), checked));
        }
        match checked {
            Ok(()) => {},
            Err(e) => {
                return Err(e);
            },
        }
        self.record(handshake.peer_id.as_str());
        let r = PeerHandshakeResponse::accept();
        proof {
            assert(call_ensures(PeerHandshakeResponse::accept, (), r));
        }
        r
    }

    /// Whether a peer has been verified.
    pub fn is_verified(&self, peer_id: &str) -> (b: bool)
        ensures
            b == self@.contains(peer_id@),
    {
        self.position(peer_id).is_some()
    }

    /// Forget a peer (e.g. on disconnect).
    pub fn remove_peer(&mut self, peer_id: &str)
        ensures
            final(self)@ == old(self)@.remove(peer_id@),
    {
        let ghost old_peers = self.verified_peers@;
        let mut kept: Vec<String> = Vec::new();
        let n = self.verified_peers.len();
        let mut i: usize = 0;
        while i < n
            invariant
                n == old_peers.len(),
                self.verified_peers@ == old_peers,
                i <= n,
                peer_names(kept@) == peer_names(old_peers.take(i as int)).remove(peer_id@),
            decreases n - i,
        {
            let ghost prev = kept@;
            let ghost x = old_peers[i as int];
            proof {
                assert(old_peers.take(i + 1) =~= old_peers.take(i as int).push(x));
                lemma_peer_names_push(old_peers.take(i as int), x);
            }
            if !str_eq(self.verified_peers[i].as_str(), peer_id) {
                kept.push(self.verified_peers[i].clone());
                proof {
                    lemma_peer_names_push(prev, x);
                    assert(peer_names(kept@) =~= peer_names(old_peers.take(i + 1)).remove(
                        peer_id@,
                    ));
                }
            } else {
                proof {
                    assert(peer_names(kept@) =~= peer_names(old_peers.take(i + 1)).remove(
                        peer_id@,
                    ));
                }
            }
            i = i + 1;
        }
        self.verified_peers = kept;
        proof {
            assert(old_peers.take(n as int) =~= old_peers);
        }
    }
}

/// The names held by a list of peer ids.
spec fn peer_names(v: Seq<String>) -> Set<Seq<char>> {
    v.map_values(|s: String| s@).to_set()
}

proof fn lemma_peer_names_push(v: Seq<String>, x: String)
    ensures
        peer_names(v.push(x)) == peer_names(v).insert(x@),
{
    let m = v.map_values(|s: String| s@);
    assert(v.push(x).map_values(|s: String| s@) =~= m.push(x@));
    m.lemma_push_to_set_commute(x@);
}

/// A recorded peer is verified; a removed peer is not; removing one peer
/// leaves every other peer as it was.
pub proof fn lemma_record_and_remove(verified: Set<Seq<char>>, peer: Seq<char>, other: Seq<char>)
    requires
        other != peer,
    ensures
        verified.insert(peer).contains(peer),
        !verified.remove(peer).contains(peer),
        verified.remove(peer).contains(other) == verified.contains(other),
        verified.insert(peer).contains(other) == verified.contains(other),
{
}

impl Default for HandshakeVerifier {
    fn default() -> (v: Self)
        ensures
            v@ == Set::<Seq<char>>::empty(),
    {
        HandshakeVerifier::new()
    }
}

} // verus!
