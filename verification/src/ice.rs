//! ICE candidates, ICE server lists and STUN URL parsing.

use crate::errors::WebRtcError;
use crate::text::{concat, string_of};
use crate::webrtc_config::{texts, WebRtcConfig};
use std::sync::Arc;
use vstd::prelude::*;
use vstd::string::StrSliceExecFns;

verus! {

/// Sending half of a tokio bounded channel.
#[verifier::external_type_specification]
#[verifier::external_body]
#[verifier::reject_recursive_types(T)]
pub struct ExSender<T>(tokio::sync::mpsc::Sender<T>);

/// Receiving half of a tokio bounded channel.
#[verifier::external_type_specification]
#[verifier::external_body]
#[verifier::reject_recursive_types(T)]
pub struct ExReceiver<T>(tokio::sync::mpsc::Receiver<T>);

/// `tokio::sync::mpsc::channel`: a bounded channel of `capacity` messages
/// (it panics on 0, and on more permits than its semaphore holds,
/// `usize::MAX >> 3`, that is `usize::MAX / 8`).
#[verifier::external_body]
pub(crate) fn channel<T>(capacity: usize) -> (tokio::sync::mpsc::Sender<T>, tokio::sync::mpsc::Receiver<T>)
    requires
        capacity > 0,
        capacity <= usize::MAX / 8,
{
    tokio::sync::mpsc::channel(capacity)
}

/// An ICE candidate (trickle ICE), sent as it is discovered.
#[derive(Debug, Clone)]
pub struct IceCandidate {
    /// Candidate string (SDP format)
    pub candidate: String,
    /// SDP media id
    pub sdp_mid: Option<String>,
    /// SDP media line index
    pub sdp_mline_index: Option<u16>,
    /// Username fragment (for candidate authentication)
    pub username_fragment: Option<String>,
}

/// One ICE server entry handed to the WebRTC stack.
#[derive(Debug, Clone)]
pub struct IceServer {
    pub urls: Vec<String>,
    pub username: String,
    pub credential: String,
}

/// Discovers ICE candidates for a configuration.
pub struct IceCandidateGatherer {
    config: Arc<WebRtcConfig>,
    candidates_tx: tokio::sync::mpsc::Sender<IceCandidate>,
}

impl IceCandidateGatherer {
    /// The configuration the gatherer works with.
    pub closed spec fn config(&self) -> WebRtcConfig {
        *self.config
    }

    /// A gatherer for `config`, with the receiving end of its candidate
    /// channel (32 candidates).
    pub fn new(config: Arc<WebRtcConfig>) -> (r: (Self, tokio::sync::mpsc::Receiver<IceCandidate>))
        ensures
            r.0.config() == *config,
    {
        let (candidates_tx, candidates_rx) = channel(32);
        (IceCandidateGatherer { config, candidates_tx }, candidates_rx)
    }

    /// The ICE servers of the configuration: the STUN servers first
    /// (without credentials), then the TURN servers when configured.
    pub fn build_ice_servers(&self) -> (v: Vec<IceServer>)
        ensures
            v@.len() == (if self.config().turn_servers is Some { 2int } else { 1int }),
            texts(v@[0].urls@) == texts(self.config().stun_servers.urls@),
            v@[0].username@ == Seq::<char>::empty(),
            v@[0].credential@ == Seq::<char>::empty(),
            self.config().turn_servers matches Some(t) ==> (texts(v@[1].urls@) == texts(t.urls@)
                && v@[1].username@ == t.username@ && v@[1].credential@ == t.credential@),
    {
        let mut servers: Vec<IceServer> = Vec::new();
        servers.push(
            IceServer {
                urls: clone_strings(&self.config.stun_servers.urls),
                username: String::new(),
                credential: String::new(),
            },
        );
        match &self.config.turn_servers {
            Some(turn) => {
                servers.push(
                    IceServer {
                        urls: clone_strings(&turn.urls),
                        username: turn.username.clone(),
                        credential: turn.credential.clone(),
                    },
                );
            },
            None => {},
        }
        servers
    }
}

/// A copy of a list of strings.
pub fn clone_strings(v: &Vec<String>) -> (r: Vec<String>)
    ensures
        texts(r@) == texts(v@),
{
    let mut r: Vec<String> = Vec::new();
    let mut i: usize = 0;
    while i < v.len()
        invariant
            i <= v@.len(),
            texts(r@) == texts(v@.take(i as int)),
        decreases v@.len() - i,
    {
        r.push(v[i].clone());
        proof {
            assert(texts(v@.take(i + 1)) =~= texts(v@.take(i as int)).push(v@[i as int]@));
            assert(texts(r@) =~= texts(v@.take(i as int)).push(v@[i as int]@));
        }
        i = i + 1;
    }
    proof {
        assert(v@.take(v@.len() as int) =~= v@);
    }
    r
}

/// What gathering ends with: when the timeout struck before any candidate
/// was found, a timeout error carrying the elapsed seconds; otherwise the
/// candidates found.
pub fn gathering_result(candidates: Vec<IceCandidate>, timed_out: bool, elapsed_secs: u64) -> (r:
    Result<Vec<IceCandidate>, WebRtcError>)
    ensures
        timed_out && candidates@.len() == 0 ==> r == Err::<Vec<IceCandidate>, WebRtcError>(
            WebRtcError::IceGatheringTimeout(elapsed_secs),
        ),
        !(timed_out && candidates@.len() == 0) ==> r == Ok::<Vec<IceCandidate>, WebRtcError>(
            candidates,
        ),
{
    if timed_out && candidates.len() == 0 {
        Err(WebRtcError::IceGatheringTimeout(elapsed_secs))
    } else {
        Ok(candidates)
    }
}

// ---------------------------------------------------------------------------
// STUN URLs
// ---------------------------------------------------------------------------

/// The pieces of `s` between the separators `sep` (`str::split`).
pub open spec fn split_on(s: Seq<char>, sep: char) -> Seq<Seq<char>>
    decreases s.len(),
{
    if s.len() == 0 {
        seq![Seq::<char>::empty()]
    } else {
        let rest = split_on(s.drop_last(), sep);
        if s.last() == sep {
            rest.push(Seq::<char>::empty())
        } else {
            rest.update(rest.len() - 1, rest.last().push(s.last()))
        }
    }
}

/// The value of a decimal digit string.
pub open spec fn digits_value(s: Seq<char>) -> nat
    decreases s.len(),
{
    if s.len() == 0 {
        0
    } else {
        digits_value(s.drop_last()) * 10 + ((s.last() as nat) - 48) as nat
    }
}

/// Whether every character is an ASCII digit.
pub open spec fn all_digits(s: Seq<char>) -> bool {
    forall|i: int| 0 <= i < s.len() ==> '0' <= #[trigger] s[i] <= '9'
}

/// `u16::from_str`: an optional `+`, then one or more digits whose value
/// fits in 16 bits.
pub open spec fn parse_u16(s: Seq<char>) -> Option<u16> {
    let d = if s.len() > 0 && s[0] == '+' { s.drop_first() } else { s };
    if d.len() > 0 && all_digits(d) && digits_value(d) < 65536 {
        Some(digits_value(d) as u16)
    } else {
        None
    }
}

proof fn lemma_digits_value_grows(s: Seq<char>, c: char)
    requires
        '0' <= c <= '9',
    ensures
        digits_value(s.push(c)) == digits_value(s) * 10 + (c as nat - 48),
        digits_value(s.push(c)) >= digits_value(s),
{
    assert(s.push(c).drop_last() =~= s);
}

/// Parse a port number as `u16::from_str` does.
pub fn parse_port(s: &str) -> (r: Option<u16>)
    ensures
        r == parse_u16(s@),
{
    let n = s.unicode_len();
    let mut start: usize = 0;
    if n > 0 && s.get_char(0) == '+' {
        start = 1;
    }
    let ghost d = if s@.len() > 0 && s@[0] == '+' { s@.drop_first() } else { s@ };
    proof {
        assert(d =~= s@.subrange(start as int, n as int));
    }
    if start >= n {
        return None;
    }
    let mut value: u32 = 0;
    let mut i: usize = start;
    while i < n
        invariant
            n == s@.len(),
            start <= i <= n,
            d == s@.subrange(start as int, n as int),
            d == (if s@.len() > 0 && s@[0] == '+' { s@.drop_first() } else { s@ }),
            start < n,
            all_digits(s@.subrange(start as int, i as int)),
            value == digits_value(s@.subrange(start as int, i as int)),
            value < 65536,
        decreases n - i,
    {
        let c = s.get_char(i);
        if !('0' <= c && c <= '9') {
            proof {
                assert(d[i - start] == c);
                assert(!all_digits(d));
            }
            return None;
        }
        let digit: u32 = (c as u32) - 48;
        proof {
            assert(s@.subrange(start as int, i + 1) =~= s@.subrange(start as int, i as int).push(c));
            lemma_digits_value_grows(s@.subrange(start as int, i as int), c);
        }
        value = value * 10 + digit;
        if value >= 65536 {
            proof {
                if all_digits(d) {
                    lemma_digits_value_prefix_bound(d, (i + 1 - start) as int);
                    assert(d.take((i + 1 - start) as int) =~= s@.subrange(start as int, i + 1));
                }
            }
            return None;
        }
        i = i + 1;
    }
    proof {
        assert(s@.subrange(start as int, n as int) =~= d);
    }
    Some(value as u16)
}

/// A digit string is worth at least any of its prefixes.
proof fn lemma_digits_value_prefix_bound(s: Seq<char>, k: int)
    requires
        0 <= k <= s.len(),
        all_digits(s),
    ensures
        digits_value(s) >= digits_value(s.take(k)),
    decreases s.len() - k,
{
    if k < s.len() {
        let t = s.take(k + 1);
        assert(t.drop_last() =~= s.take(k));
        assert('0' <= t.last() <= '9');
        lemma_digits_value_prefix_bound(s, k + 1);
    } else {
        assert(s.take(k) =~= s);
    }
}

/// The host and port of a STUN URL `stun:host:port`.
pub open spec fn stun_target(url: Seq<char>) -> Option<(Seq<char>, u16)> {
    let parts = split_on(url, ':');
    if parts.len() == 3 && parts[0] == "stun"@ {
        match parse_u16(parts[2]) {
            Some(p) => Some((parts[1], p)),
            None => None,
        }
    } else {
        None
    }
}

/// Split `s` at every `sep`.
pub fn split_str(s: &str, sep: char) -> (parts: Vec<String>)
    ensures
        texts(parts@) == split_on(s@, sep),
{
    let n = s.unicode_len();
    let mut parts: Vec<String> = Vec::new();
    parts.push(String::new());
    let mut i: usize = 0;
    proof {
        assert(s@.take(0) =~= Seq::<char>::empty());
        assert(texts(parts@) =~= seq![Seq::<char>::empty()]);
    }
    while i < n
        invariant
            n == s@.len(),
            i <= n,
            parts@.len() >= 1,
            texts(parts@) == split_on(s@.take(i as int), sep),
        decreases n - i,
    {
        let c = s.get_char(i);
        proof {
            assert(s@.take(i + 1).drop_last() =~= s@.take(i as int));
            assert(s@.take(i + 1).last() == c);
        }
        if c == sep {
            parts.push(String::new());
            proof {
                assert(texts(parts@) =~= split_on(s@.take(i as int), sep).push(Seq::<char>::empty()));
            }
        } else {
            let last = parts.len() - 1;
            let mut piece = parts.remove(last);
            let ghost before = parts@;
            crate::text::push_char(&mut piece, c);
            parts.push(piece);
            proof {
                let prev = split_on(s@.take(i as int), sep);
                assert(texts(parts@) =~= prev.update(prev.len() - 1, prev.last().push(c)));
            }
        }
        i = i + 1;
    }
    proof {
        assert(s@.take(n as int) =~= s@);
    }
    parts
}

/// The host and port a STUN URL `stun:host:port` names; anything else is
/// an unreachable-server error ("Invalid STUN URL: ..." or "Invalid port").
pub fn parse_stun_url(url: &str) -> (r: Result<(String, u16), WebRtcError>)
    ensures
        match r {
            Ok((host, port)) => stun_target(url@) == Some((host@, port)),
            Err(e) => stun_target(url@) is None && (e matches WebRtcError::StunServerUnreachable(m)
                && (m@ == "Invalid STUN URL: "@ + url@ || m@ == "Invalid port"@)),
        },
        stun_target(url@) is None ==> r is Err,
        (split_on(url@, ':').len() != 3 || split_on(url@, ':')[0] != "stun"@) ==> (r matches Err(
            WebRtcError::StunServerUnreachable(m),
        ) && m@ == "Invalid STUN URL: "@ + url@),
{
    let parts = split_str(url, ':');
    proof {
        reveal_strlit("stun");
    }
    if parts.len() != 3 || !crate::text::str_eq(parts[0].as_str(), "stun") {
        return Err(WebRtcError::StunServerUnreachable(concat("Invalid STUN URL: ", url)));
    }
    match parse_port(parts[2].as_str()) {
        None => Err(WebRtcError::StunServerUnreachable(string_of("Invalid port"))),
        Some(port) => Ok((parts[1].clone(), port)),
    }
}

} // verus!
