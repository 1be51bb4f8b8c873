//! Device pairing and TURN credentials from the signaling relay's REST API:
//! URL construction, response checks, and the pairing-code cache.

use crate::clock::unix_time_secs;
use crate::errors::WebRtcError;
use crate::text::{after_prefix, concat, decimal, has_prefix, push_decimal, starts_with, string_of};
use crate::webrtc_config::TurnServerConfig;
use vstd::prelude::*;

verus! {

/// A pairing code issued by the signaling relay for this daemon's peer id.
#[derive(Debug, Clone)]
pub struct PairingCode {
    pub code: String,
    /// Expiry, seconds since the UNIX epoch
    pub expires_at: i64,
}

/// The http(s) base URL of a relay URL: `wss://` becomes `https://`,
/// `ws://` becomes `http://`; host, port and path are kept; any other URL
/// is returned unchanged.
pub open spec fn http_base(url: Seq<char>) -> Seq<char> {
    if has_prefix(url, "wss://"@) {
        "https://"@ + url.subrange(6, url.len() as int)
    } else if has_prefix(url, "ws://"@) {
        "http://"@ + url.subrange(5, url.len() as int)
    } else {
        url
    }
}

/// Converts a signaling relay URL (`ws://` or `wss://`) to the matching
/// `http://` or `https://` base URL for REST calls.
pub fn relay_url_to_http(relay_url: &str) -> (r: String)
    ensures
        r@ == http_base(relay_url@),
{
    proof {
        reveal_strlit("wss://");
        reveal_strlit("ws://");
    }
    if starts_with(relay_url, "wss://") {
        let rest = after_prefix(relay_url, 6);
        concat("https://", rest.as_str())
    } else if starts_with(relay_url, "ws://") {
        let rest = after_prefix(relay_url, 5);
        concat("http://", rest.as_str())
    } else {
        string_of(relay_url)
    }
}

/// Converting a relay URL to http(s) twice changes nothing more: an
/// http(s) URL is left as it is.
pub proof fn lemma_http_base_idempotent(url: Seq<char>)
    ensures
        http_base(http_base(url)) == http_base(url),
{
    reveal_strlit("wss://");
    reveal_strlit("ws://");
    reveal_strlit("https://");
    reveal_strlit("http://");
    let h = http_base(url);
    if has_prefix(url, "wss://"@) {
        assert(h[0] == 'h');
    } else if has_prefix(url, "ws://"@) {
        assert(h[0] == 'h');
    }
    if has_prefix(h, "wss://"@) {
        assert(h.subrange(0, 6)[0] == h[0]);
    }
    if has_prefix(h, "ws://"@) {
        assert(h.subrange(0, 5)[0] == h[0]);
    }
}

/// The endpoint that issues pairing codes.
pub fn pairing_codes_url(relay_url: &str) -> (r: String)
    ensures
        r@ == http_base(relay_url@) + "/api/pairing-codes"@,
{
    let base = relay_url_to_http(relay_url);
    concat(base.as_str(), "/api/pairing-codes")
}

/// The endpoint that issues TURN credentials for a peer.
pub fn turn_credentials_url(relay_url: &str, peer_id: &str) -> (r: String)
    ensures
        r@ == http_base(relay_url@) + "/api/turn-credentials?peer_id="@ + peer_id@,
{
    let base = relay_url_to_http(relay_url);
    let with_path = concat(base.as_str(), "/api/turn-credentials?peer_id=");
    concat(with_path.as_str(), peer_id)
}

/// How an HTTP status is displayed: its number, a space and its reason
/// phrase (`http::StatusCode` as `Display`).
pub uninterp spec fn http_status_display(code: u16) -> Seq<char>;

/// `StatusCode::from_u16(code)` displayed with `to_string`.
#[verifier::external_body]
fn status_text(code: u16) -> (s: String)
    requires
        100 <= code < 1000,
    ensures
        s@ == http_status_display(code),
        has_prefix(s@, decimal(code as nat) + " "@),
{
    reqwest::StatusCode::from_u16(code).map(|c| c.to_string()).unwrap_or_default()
}

/// Whether a status is a success (2xx).
pub open spec fn is_success(code: u16) -> bool {
    200 <= code < 300
}

/// The error a pairing-code response with this status and body is
/// turned into: 429 means rate limited, any other non-2xx status is a
/// failed request; a 2xx response is no error.
pub fn pairing_response_error(status: u16, body: &str) -> (r: Option<WebRtcError>)
    requires
        100 <= status < 1000,
    ensures
        status == 429 ==> (r matches Some(WebRtcError::Internal(m)) && m@
            == "rate limited, try again shortly"@),
        status != 429 && !is_success(status) ==> (r matches Some(WebRtcError::Internal(m))
            && m@ == "Pairing code request failed: HTTP "@ + http_status_display(status) + " "@
            + body@),
        is_success(status) ==> r is None,
{
    if status == 429 {
        return Some(WebRtcError::Internal(string_of("rate limited, try again shortly")));
    }
    if !(200 <= status && status < 300) {
        let mut m = string_of("Pairing code request failed: HTTP ");
        let st = status_text(status);
        m.append(st.as_str());
        m.append(" ");
        m.append(body);
        return Some(WebRtcError::Internal(m));
    }
    None
}

/// The error a TURN-credentials response with this status and body is
/// turned into: any non-2xx status is a failed request.
pub fn turn_response_error(status: u16, body: &str) -> (r: Option<WebRtcError>)
    requires
        100 <= status < 1000,
    ensures
        !is_success(status) ==> (r matches Some(WebRtcError::Internal(m)) && m@
            == "TURN credentials request failed: HTTP "@ + http_status_display(status) + " "@
            + body@),
        is_success(status) ==> r is None,
{
    if !(200 <= status && status < 300) {
        let mut m = string_of("TURN credentials request failed: HTTP ");
        let st = status_text(status);
        m.append(st.as_str());
        m.append(" ");
        m.append(body);
        return Some(WebRtcError::Internal(m));
    }
    None
}

/// The relay's answer to a TURN-credentials request.
#[derive(Debug, Clone)]
pub struct TurnCredentials {
    pub urls: Vec<String>,
    pub username: String,
    pub credential: String,
    /// Expiry, seconds since the UNIX epoch
    pub expires_at: u64,
}

/// The TURN configuration of the relay's answer (expiry in milliseconds).
pub fn turn_config_from(resp: TurnCredentials) -> (c: TurnServerConfig)
    requires
        resp.expires_at * 1000 <= u64::MAX,
    ensures
        c.urls == resp.urls,
        c.username == resp.username,
        c.credential == resp.credential,
        c.expires_at_ms == resp.expires_at * 1000,
{
    TurnServerConfig {
        urls: resp.urls,
        username: resp.username,
        credential: resp.credential,
        expires_at_ms: resp.expires_at * 1000,
    }
}

/// What getting the pairing code calls for.
#[derive(Debug, Clone)]
pub enum CacheLookup {
    /// No relay is configured: pairing is not available.
    NotEnabled(WebRtcError),
    /// The cached code is still valid.
    Cached(PairingCode),
    /// A fresh code must be fetched from this relay and then stored.
    Fetch(String),
}

/// Holds this daemon's identity and its current pairing code, which is only
/// fetched again once it expired.
pub struct PairingCodeCache {
    relay_url: Option<String>,
    peer_id: String,
    current: Option<PairingCode>,
}

impl PairingCodeCache {
    /// The relay, if one is configured.
    pub closed spec fn relay(&self) -> Option<Seq<char>> {
        match self.relay_url {
            Some(u) => Some(u@),
            None => None,
        }
    }

    /// The daemon's peer id.
    pub closed spec fn peer(&self) -> Seq<char> {
        self.peer_id@
    }

    /// The cached code.
    pub closed spec fn cached(&self) -> Option<PairingCode> {
        self.current
    }

    /// A cache with no code yet.
    pub fn new(relay_url: Option<String>, peer_id: String) -> (c: Self)
        ensures
            c.relay() == (match relay_url {
                Some(u) => Some(u@),
                None => None::<Seq<char>>,
            }),
            c.peer() == peer_id@,
            c.cached() is None,
    {
        PairingCodeCache { relay_url, peer_id, current: None }
    }

    /// This daemon's peer id (Ed25519 public key, hex).
    pub fn peer_id(&self) -> (s: &str)
        ensures
            s@ == self.peer(),
    {
        self.peer_id.as_str()
    }

    /// What getting the pairing code at time `now` (seconds) calls for: an
    /// error without a relay, the cached code while it has not expired
    /// (`expires_at > now`), else a fetch.
    pub fn lookup(&self, now: i64) -> (r: CacheLookup)
        ensures
            self.relay() is None ==> (r matches CacheLookup::NotEnabled(WebRtcError::Internal(m))
                && m@ == "P2P is not enabled on this daemon (no --relay-url configured)"@),
            serves_cached(*self, now) ==> (
            r matches CacheLookup::Cached(c) && c.code@ == self.cached()->0.code@ && c.expires_at
                == self.cached()->0.expires_at),
            self.relay() is Some && !serves_cached(*self, now) ==> (
            r matches CacheLookup::Fetch(u) && u@ == self.relay()->0),
    {
        match &self.relay_url {
            None => CacheLookup::NotEnabled(
                WebRtcError::Internal(
                    string_of("P2P is not enabled on this daemon (no --relay-url configured)"),
                ),
            ),
            Some(url) => {
                match &self.current {
                    Some(code) => {
                        if code.expires_at > now {
                            return CacheLookup::Cached(
                                PairingCode { code: code.code.clone(), expires_at: code.expires_at },
                            );
                        }
                    },
                    None => {},
                }
                CacheLookup::Fetch(url.clone())
            },
        }
    }

    /// `lookup` at the current time.
    pub fn lookup_now(&self) -> (r: CacheLookup)
        ensures
            self.relay() is None ==> r is NotEnabled,
            self.relay() is Some ==> (r is Cached || (r matches CacheLookup::Fetch(u) && u@
                == self.relay()->0)),
    {
        self.lookup(unix_time_secs())
    }

    /// Remember a freshly fetched code.
    pub fn store(&mut self, code: PairingCode)
        ensures
            final(self).cached() == Some(code),
            final(self).relay() == old(self).relay(),
            final(self).peer() == old(self).peer(),
    {
        self.current = Some(code);
    }
}

/// Whether `lookup` at time `now` serves the cached code (no fetch).
pub open spec fn serves_cached(c: PairingCodeCache, now: i64) -> bool {
    c.relay() is Some && (c.cached() matches Some(code) && code.expires_at > now)
}

/// A freshly stored code is served from the cache, without another fetch,
/// at every time before it expires; once it expired, a fetch is due.
pub proof fn lemma_stored_code_served_until_expiry(
    before: PairingCodeCache,
    after: PairingCodeCache,
    code: PairingCode,
    now: i64,
)
    requires
        after.cached() == Some(code),
        after.relay() == before.relay(),
        before.relay() is Some,
    ensures
        serves_cached(after, now) <==> code.expires_at > now,
{
}

} // verus!
