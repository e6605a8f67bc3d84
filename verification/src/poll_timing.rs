use vstd::prelude::*;

use crate::client::ClientError;

verus! {

// The timers of a client that is polled, rather than waited on: the server is taken as
// unresponsive when it sends nothing for too long, and the client pings the server when it
// sends nothing for too long. Instants are milliseconds of a monotonic clock.

/// The settings of a polled client: how long the server may stay silent before it is taken
/// as unresponsive, and how long the client may stay silent before it pings
#[derive(Debug, PartialEq, Eq, Clone, Copy, Structural)]
pub struct Settings {
    pub receive_timeout_millis: u64,
    pub ping_interval_millis: u64,
}

impl Default for Settings {
    /// A receive timeout of 10 seconds, and a ping every 2 seconds
    fn default() -> (r: Self)
        ensures
            r == (Settings { receive_timeout_millis: 10_000, ping_interval_millis: 2_000 }),
    {
        Settings { receive_timeout_millis: 10_000, ping_interval_millis: 2_000 }
    }
}

/// The time elapsed from `start` to `now`, none when `now` comes first
pub open spec fn elapsed(start: u64, now: u64) -> int {
    if now >= start {
        now - start
    } else {
        0
    }
}

/// The timers of a polled client; each is off until it is started
#[derive(Debug, PartialEq, Eq, Clone, Copy, Structural)]
pub struct PollTimers {
    /// When the receive timeout was last reset: a packet was received, or the connection
    /// started
    pub receive_timeout_start: Option<u64>,
    /// When the ping interval was last reset: a packet was sent
    pub ping_interval_start: Option<u64>,
    /// When the Connect packet was sent
    pub connection_start: Option<u64>,
}

impl PollTimers {
    /// All timers off
    pub fn new() -> (r: Self)
        ensures
            r == (PollTimers { receive_timeout_start: None, ping_interval_start: None, connection_start: None }),
    {
        PollTimers { receive_timeout_start: None, ping_interval_start: None, connection_start: None }
    }

    /// The Connect packet was sent at `now`: the connection starts, and a reply is awaited
    /// from then on; pings wait for the connection to be acknowledged
    pub fn connect_sent(&mut self, now: u64)
        ensures
            *final(self) == (PollTimers {
                receive_timeout_start: Some(now),
                ping_interval_start: old(self).ping_interval_start,
                connection_start: Some(now),
            }),
    {
        self.connection_start = Some(now);
        self.receive_timeout_start = Some(now);
    }

    /// The connection was acknowledged: pings start, counted from when the Connect packet
    /// was sent, the last packet sent
    pub fn connected(&mut self)
        ensures
            *final(self) == (PollTimers { ping_interval_start: old(self).connection_start, ..*old(self) }),
    {
        self.ping_interval_start = self.connection_start;
    }

    /// Whether a ping is to be sent at `now`: pings have started, and more than the ping
    /// interval has elapsed since the last packet sent. The client sends the ping and
    /// reports this result: true exactly when a ping was sent.
    pub fn ping_if_needed(&self, now: u64, settings: &Settings) -> (r: bool)
        ensures
            r == (self.ping_interval_start matches Some(start) && elapsed(start, now) > settings.ping_interval_millis),
    {
        match self.ping_interval_start {
            Some(start) => now >= start && now - start > settings.ping_interval_millis,
            None => false,
        }
    }

    /// A packet was sent at `now`: the ping interval starts again
    pub fn ping_sent(&mut self, now: u64)
        ensures
            *final(self) == (PollTimers { ping_interval_start: Some(now), ..*old(self) }),
    {
        self.ping_interval_start = Some(now);
    }

    /// A packet was received at `now`: the receive timeout starts again
    pub fn packet_received(&mut self, now: u64)
        ensures
            *final(self) == (PollTimers { receive_timeout_start: Some(now), ..*old(self) }),
    {
        self.receive_timeout_start = Some(now);
    }

    /// Check at `now` that the server is responsive: when a reply is awaited and more than
    /// the receive timeout has elapsed since the last packet received (or the connection
    /// started), [ClientError::ReceiveTimeoutServerUnresponsive]
    pub fn check_receive_timeout<E>(&self, now: u64, settings: &Settings) -> (r: Result<(), ClientError<E>>)
        ensures
            (self.receive_timeout_start matches Some(start) && elapsed(start, now) > settings.receive_timeout_millis)
                ==> r matches Err(ClientError::ReceiveTimeoutServerUnresponsive),
            !(self.receive_timeout_start matches Some(start) && elapsed(start, now) > settings.receive_timeout_millis)
                ==> r is Ok,
    {
        match self.receive_timeout_start {
            Some(start) => if now >= start && now - start > settings.receive_timeout_millis {
                Err(ClientError::ReceiveTimeoutServerUnresponsive)
            } else {
                Ok(())
            },
            None => Ok(()),
        }
    }
}

/// The law of timers: right after a packet is sent no ping is due, and right after a packet
/// is received the server is not taken as unresponsive, whatever the settings.
pub proof fn lemma_timers_reset(t: PollTimers, now: u64, settings: Settings)
    ensures
        ({
            let sent = PollTimers { ping_interval_start: Some(now), ..t };
            !(sent.ping_interval_start matches Some(start) && elapsed(start, now) > settings.ping_interval_millis)
        }),
        ({
            let received = PollTimers { receive_timeout_start: Some(now), ..t };
            !(received.receive_timeout_start matches Some(start) && elapsed(start, now) > settings.receive_timeout_millis)
        }),
{
}

} // verus!
