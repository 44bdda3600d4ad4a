//! The echo session scheduler: the decision core of the timer- and
//! signal-driven send/receive loop.
//!
//! The loop itself runs outside this crate, where the socket, the
//! interval timer and the signal flags live.  Each iteration the driver
//! reports the polled flags; this module decides whether the session
//! stops, transmits the next request, or awaits a reply, and keeps the
//! transmitted and received counts that the final statistics are
//! computed from.

use vstd::prelude::*;
use crate::packet::{
    build_echo_request, parse_reply, echo_packet_bytes, reply_accepted, total_len_of,
    ReplyInfo, ICMP_ECHO_REQUEST,
};
use crate::wire::be16_at;

verus! {

/// What one loop iteration does next.
pub enum PingStep {
    /// The session is over: the interrupt flag was set, the reply-count
    /// limit was reached, or the deadline elapsed.
    Stop,
    /// The interval elapsed: send this echo request, then await a reply.
    Transmit(Vec<u8>),
    /// Nothing to send this iteration: await a reply.
    AwaitReply,
}

/// The final statistics of a session.
#[derive(Clone, Copy, Debug, PartialEq, Eq, Structural)]
pub struct PingStats {
    /// Requests sent.
    pub transmitted: u16,
    /// Replies accepted.
    pub received: u16,
    /// Requests not answered, clamped at zero against stray replies.
    pub loss: u16,
    /// Lost requests per hundred transmitted; zero when nothing was
    /// transmitted.
    pub loss_percent: u16,
}

/// One echo session: its configuration as resolved by the caller, and
/// the running state the scheduler mutates.
pub struct PingContext {
    /// The number of replies to receive before stopping; `None` means
    /// no limit.
    pub count: Option<u16>,
    /// The interval between echo requests, in milliseconds.
    pub interval_ms: u64,
    /// The overall deadline after which the session stops regardless of
    /// counts; `None` means no deadline.
    pub deadline_ms: Option<u64>,
    /// The time to wait for each reply, in milliseconds.
    pub timeout_ms: u64,
    /// The payload size of each request, in bytes.
    pub packet_size: usize,
    /// Time to live of each request.
    pub ttl: u8,
    /// The resolved destination address.
    pub dest: [u8; 4],
    /// Requests sent so far; maintained by the scheduler.
    pub transmitted: u16,
    /// Replies accepted so far; maintained by the scheduler.
    pub received: u16,
    /// Whether the session has reached its terminal state.
    pub stopped: bool,
}

impl PingContext {
    /// Whether the configured reply-count limit has been reached.
    pub open spec fn limit_reached(&self) -> bool {
        match self.count {
            Some(c) => self.received >= c,
            None => false,
        }
    }

    /// The configuration must leave the total packet length
    /// representable in the sixteen-bit IPv4 length field.
    pub open spec fn wf(&self) -> bool {
        28 + self.packet_size <= 0xffff
    }

    /// Creates a session from resolved parameters: counts start at
    /// zero and the session is running.
    pub fn new(
        dest: [u8; 4],
        count: Option<u16>,
        interval_ms: u64,
        deadline_ms: Option<u64>,
        timeout_ms: u64,
        packet_size: usize,
        ttl: u8,
    ) -> (r: Self)
        requires
            28 + packet_size <= 0xffff,
        ensures
            r.dest == dest,
            r.count == count,
            r.interval_ms == interval_ms,
            r.deadline_ms == deadline_ms,
            r.timeout_ms == timeout_ms,
            r.packet_size == packet_size,
            r.ttl == ttl,
            r.transmitted == 0,
            r.received == 0,
            !r.stopped,
            r.wf(),
    {
        PingContext {
            count,
            interval_ms,
            deadline_ms,
            timeout_ms,
            packet_size,
            ttl,
            dest,
            transmitted: 0,
            received: 0,
            stopped: false,
        }
    }

    /// Decides one loop iteration from the polled flags.
    ///
    /// The session stops when the interrupt flag is set, the reply
    /// limit has been reached, or the deadline has elapsed.  Otherwise
    /// an elapsed interval builds the next request, whose sequence
    /// number is the current transmitted count, and counts it sent; the
    /// driver treats the session start as the first elapsed interval.
    /// The counts never decrease, and a stopped session transmits
    /// nothing further.
    pub fn poll(&mut self, interrupt: bool, alarm: bool, deadline_elapsed: bool) -> (r: PingStep)
        requires
            !old(self).stopped,
            old(self).wf(),
            alarm ==> old(self).transmitted < 0xffff,
        ensures
            final(self).count == old(self).count,
            final(self).interval_ms == old(self).interval_ms,
            final(self).deadline_ms == old(self).deadline_ms,
            final(self).timeout_ms == old(self).timeout_ms,
            final(self).packet_size == old(self).packet_size,
            final(self).ttl == old(self).ttl,
            final(self).dest == old(self).dest,
            final(self).received == old(self).received,
            final(self).transmitted >= old(self).transmitted,
            if interrupt || old(self).limit_reached() || deadline_elapsed {
                &&& r is Stop
                &&& final(self).stopped
                &&& final(self).transmitted == old(self).transmitted
            } else if alarm {
                &&& !final(self).stopped
                &&& final(self).transmitted == old(self).transmitted + 1
                &&& r matches PingStep::Transmit(p) && p@ == echo_packet_bytes(
                    ICMP_ECHO_REQUEST,
                    old(self).dest@,
                    old(self).transmitted,
                    old(self).ttl,
                    old(self).packet_size as nat,
                )
            } else {
                &&& !final(self).stopped
                &&& final(self).transmitted == old(self).transmitted
                &&& r is AwaitReply
            },
    {
        let limit = match self.count {
            Some(c) => self.received >= c,
            None => false,
        };
        if interrupt || limit || deadline_elapsed {
            self.stopped = true;
            return PingStep::Stop;
        }
        if alarm {
            let packet = build_echo_request(self.dest, self.transmitted, self.ttl, self.packet_size);
            self.transmitted = self.transmitted + 1;
            return PingStep::Transmit(packet);
        }
        PingStep::AwaitReply
    }

    /// Consumes one received datagram.
    ///
    /// An accepted echo reply counts as received and is reported; a
    /// rejected buffer is expected background noise, discarded without
    /// touching the session.
    pub fn handle_reply(&mut self, datagram: &[u8]) -> (r: Option<ReplyInfo>)
        requires
            old(self).received < 0xffff,
        ensures
            final(self).count == old(self).count,
            final(self).interval_ms == old(self).interval_ms,
            final(self).deadline_ms == old(self).deadline_ms,
            final(self).timeout_ms == old(self).timeout_ms,
            final(self).packet_size == old(self).packet_size,
            final(self).ttl == old(self).ttl,
            final(self).dest == old(self).dest,
            final(self).transmitted == old(self).transmitted,
            final(self).stopped == old(self).stopped,
            r is Some <==> reply_accepted(datagram@),
            r is Some ==> final(self).received == old(self).received + 1,
            r is None ==> final(self).received == old(self).received,
            r matches Some(info) ==> {
                &&& info.size == total_len_of(datagram@)
                &&& info.payload_size == total_len_of(datagram@) - 28
                &&& info.src_addr@ == datagram@.subrange(12, 16)
                &&& info.seq == be16_at(datagram@, 26)
                &&& info.ttl == datagram@[8]
            },
    {
        match parse_reply(datagram) {
            Some(info) => {
                self.received = self.received + 1;
                Some(info)
            }
            None => None,
        }
    }

    /// Computes the final statistics: the loss is the transmitted count
    /// less the received count, clamped at zero against stray or
    /// duplicate replies, and the percentage is computed only when
    /// something was transmitted, so a session that sent nothing
    /// reports zero loss.
    pub fn stats(&self) -> (s: PingStats)
        ensures
            s.transmitted == self.transmitted,
            s.received == self.received,
            s.loss == if self.transmitted >= self.received {
                self.transmitted - self.received
            } else {
                0
            },
            s.loss_percent == if self.transmitted == 0 {
                0
            } else {
                s.loss * 100 / self.transmitted as int
            },
            s.loss_percent <= 100,
    {
        let loss: u16 = if self.transmitted >= self.received {
            self.transmitted - self.received
        } else {
            0
        };
        let loss_percent: u16 = if self.transmitted == 0 {
            0
        } else {
            let p = (loss as u32 * 100) / (self.transmitted as u32);
            proof {
                assert(loss <= self.transmitted);
                assert(loss as int * 100 / (self.transmitted as int) <= 100) by (nonlinear_arith)
                    requires
                        0 <= loss as int <= self.transmitted as int,
                        0 < self.transmitted as int,
                ;
            }
            p as u16
        };
        PingStats { transmitted: self.transmitted, received: self.received, loss, loss_percent }
    }
}

} // verus!
