//! Per-client WebSocket connection: a bounded output queue and lagging
//! detection (a client whose queue stays full for over 30 s is dropped).

use crate::clock::{duration_as_nanos, duration_secs, duration_subsec_nanos};
use crate::ice::channel;
use crate::manager::SendOutcome;
use std::time::{Duration, Instant};
use vstd::prelude::*;

verus! {

/// Messages a client's output queue holds (about 1 MB at 4 KB each).
pub const OUTPUT_QUEUE: usize = 256;

/// Seconds a client may lag before it is disconnected.
pub const MAX_LAG_SECS: u64 = 30;

/// `Sender::try_send`: how a non-blocking send went. It depends on the
/// receiver: nothing is promised of it.
#[verifier::external_body]
fn try_send(tx: &tokio::sync::mpsc::Sender<Vec<u8>>, data: Vec<u8>) -> SendOutcome {
    match tx.try_send(data) {
        Ok(()) => SendOutcome::Sent,
        Err(tokio::sync::mpsc::error::TrySendError::Full(_)) => SendOutcome::Full,
        Err(tokio::sync::mpsc::error::TrySendError::Closed(_)) => SendOutcome::Closed,
    }
}

/// Whether a client lagging for `secs` seconds and `nanos` nanoseconds
/// lagged too long: strictly more than 30 s.
pub open spec fn lagged_too_long(secs: u64, nanos: u32) -> bool {
    secs > MAX_LAG_SECS || (secs == MAX_LAG_SECS && nanos > 0)
}

/// Whether a client lagging for `lag` lagged too long: strictly more than
/// 30 s.
pub open spec fn lag_exceeded(lag: Duration) -> bool {
    duration_as_nanos(lag) > MAX_LAG_SECS * 1_000_000_000
}

/// Whether `outcome` is how a non-blocking send of `data` on `tx` went.
pub closed spec fn send_went(
    tx: tokio::sync::mpsc::Sender<Vec<u8>>,
    data: Vec<u8>,
    outcome: SendOutcome,
) -> bool {
    call_ensures(try_send, (&tx, data), outcome)
}

/// What recording a send's outcome does to a connection (`now` is when a
/// full queue starts lagging) and what it answers.
pub open spec fn send_effect(
    before: Connection,
    after: Connection,
    outcome: SendOutcome,
    now: Instant,
    r: Result<(), ()>,
) -> bool {
    &&& (r is Ok <==> outcome == SendOutcome::Sent)
    &&& after.lagging_since == match outcome {
        SendOutcome::Sent => None::<Instant>,
        SendOutcome::Full => match before.lagging_since {
            Some(t) => Some(t),
            None => Some(now),
        },
        SendOutcome::Closed => before.lagging_since,
    }
    &&& after.client_id == before.client_id
    &&& after.supports_compression == before.supports_compression
    &&& after.output_tx == before.output_tx
    &&& after.connected_at == before.connected_at
}

/// Per-client connection state.
pub struct Connection {
    /// Client identifier
    pub client_id: String,
    /// Output queue (bounded)
    pub output_tx: tokio::sync::mpsc::Sender<Vec<u8>>,
    /// When the client connected
    pub connected_at: Instant,
    /// Whether the client accepts compressed output
    pub supports_compression: bool,
    /// Since when the client's queue has been full
    pub lagging_since: Option<Instant>,
}

impl Connection {
    /// A connection with an empty 256-message queue, not lagging; with the
    /// receiving end of the queue.
    pub fn new(client_id: String, supports_compression: bool) -> (r: (
        Self,
        tokio::sync::mpsc::Receiver<Vec<u8>>,
    ))
        ensures
            r.0.client_id == client_id,
            r.0.supports_compression == supports_compression,
            r.0.lagging_since is None,
    {
        let (output_tx, output_rx) = channel(OUTPUT_QUEUE);
        (
            Connection {
                client_id,
                output_tx,
                connected_at: Instant::now(),
                supports_compression,
                lagging_since: None,
            },
            output_rx,
        )
    }

    /// Record how a send went: a delivered send ends any lagging; a full
    /// queue starts lagging (keeping an earlier start); a closed queue
    /// changes nothing. Only a delivered send is a success.
    pub fn on_send_outcome(&mut self, outcome: SendOutcome, now: Instant) -> (r: Result<(), ()>)
        ensures
            r is Ok <==> outcome == SendOutcome::Sent,
            outcome == SendOutcome::Sent ==> final(self).lagging_since is None,
            outcome == SendOutcome::Full ==> final(self).lagging_since == (match old(
                self,
            ).lagging_since {
                Some(t) => Some(t),
                None => Some(now),
            }),
            outcome == SendOutcome::Closed ==> final(self).lagging_since == old(self).lagging_since,
            final(self).client_id == old(self).client_id,
            final(self).supports_compression == old(self).supports_compression,
            send_effect(*old(self), *final(self), outcome, now, r),
    {
        match outcome {
            SendOutcome::Sent => {
                self.lagging_since = None;
                Ok(())
            },
            SendOutcome::Full => {
                if self.lagging_since.is_none() {
                    self.lagging_since = Some(now);
                }
                Err(())
            },
            SendOutcome::Closed => Err(()),
        }
    }

    /// Send output to the client without waiting; fails when its queue is
    /// full (it lags) or closed. The connection changes as `send_effect`
    /// says for how the send went.
    pub fn send(&mut self, data: Vec<u8>) -> (r: Result<(), ()>)
        ensures
            r is Ok ==> final(self).lagging_since is None,
            r is Err ==> (final(self).lagging_since == old(self).lagging_since || (old(
                self,
            ).lagging_since is None && final(self).lagging_since is Some)),
            final(self).client_id == old(self).client_id,
            final(self).supports_compression == old(self).supports_compression,
            exists|outcome: SendOutcome, now: Instant|
                #![trigger send_went(old(self).output_tx, data, outcome), call_ensures(Instant::now, (), now)]
                send_went(old(self).output_tx, data, outcome) && call_ensures(Instant::now, (), now)
                    && send_effect(*old(self), *final(self), outcome, now, r),
    {
        let ghost sent = data;
        let outcome = try_send(&self.output_tx, data);
        let now = Instant::now();
        proof {
            assert(send_went(self.output_tx, sent, outcome));
            assert(call_ensures(Instant::now, (), now));
        }
        self.on_send_outcome(outcome, now)
    }

    /// Whether the client is lagging.
    pub fn is_lagging(&self) -> (b: bool)
        ensures
            b == self.lagging_since is Some,
    {
        self.lagging_since.is_some()
    }

    /// Whether the client should be dropped after lagging for `secs`
    /// seconds and `nanos` nanoseconds: only a lagging client, after more
    /// than 30 s.
    pub fn should_disconnect_after(&self, secs: u64, nanos: u32) -> (b: bool)
        ensures
            b == (self.lagging_since is Some && lagged_too_long(secs, nanos)),
    {
        self.lagging_since.is_some() && (secs > MAX_LAG_SECS || (secs == MAX_LAG_SECS && nanos > 0))
    }

    /// Whether the client lagged for more than 30 s: never when it is not
    /// lagging; otherwise by the time elapsed since it started lagging, as
    /// the clock reads it.
    pub fn should_disconnect(&self) -> (b: bool)
        ensures
            b ==> self.lagging_since is Some,
            self.lagging_since matches Some(t) ==> exists|lag: Duration|
                #![trigger call_ensures(Instant::elapsed, (&t,), lag)]
                call_ensures(Instant::elapsed, (&t,), lag) && b == lag_exceeded(lag),
    {
        match &self.lagging_since {
            Some(since) => {
                let lag = since.elapsed();
                let secs = duration_secs(&lag);
                let nanos = duration_subsec_nanos(&lag);
                let b = self.should_disconnect_after(secs, nanos);
                proof {
                    assert(call_ensures(Instant::elapsed, (since,), lag));
                    let n = duration_as_nanos(lag);
                    assert(lagged_too_long(secs, nanos) == (n > 30_000_000_000)) by (nonlinear_arith)
                        requires
                            secs == n / 1_000_000_000,
                            nanos == n % 1_000_000_000,
                            MAX_LAG_SECS == 30,
                    ;
                }
                b
            },
            None => false,
        }
    }
}

/// Whether a renderer's queue is backed up: more than 80% of its capacity
/// holds unread output.
pub fn backpressure(pending: usize, capacity: usize) -> (b: bool)
    requires
        capacity * 80 <= usize::MAX,
    ensures
        b == (pending > capacity * 80 / 100),
{
    pending > capacity * 80 / 100
}

} // verus!
