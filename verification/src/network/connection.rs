//! The byte-level life of one connection: what arrived, what waits to be
//! written, and when it is closed. The transport's reads and writes happen
//! outside; their outcomes are handed in here.
use vstd::prelude::*;

use super::buffer::Buffer;
use super::packet::{frame_packet, spec_frame, RawPacket};

verus! {

broadcast use vstd::seq::group_seq_axioms, vstd::seq_lib::group_seq_properties;

/// Connections are numbered in the order they were accepted.
pub type ConnectionId = u64;

/// Where a connection is in its life.
#[derive(Debug, Clone, Copy, PartialEq, Eq, Structural)]
pub enum ConnState {
    Connected,
    /// Closed by the server, still writing what was queued.
    Closing,
    Closed,
}

/// Totals over the network's lifetime.
#[derive(Debug, Clone, Copy)]
pub struct NetworkMetrics {
    pub accepted: u64,
    pub disconnected: u64,
    pub bytes_read: u64,
    pub bytes_written: u64,
}

impl Default for NetworkMetrics {
    fn default() -> (r: Self)
        ensures
            r.accepted == 0 && r.disconnected == 0 && r.bytes_read == 0 && r.bytes_written == 0,
    {
        NetworkMetrics { accepted: 0, disconnected: 0, bytes_read: 0, bytes_written: 0 }
    }
}

/// What one non-blocking read from the transport gave.
pub enum ReadOutcome {
    /// The peer closed its side.
    Eof,
    Data(Vec<u8>),
    /// Nothing to read right now.
    Pending,
    Failed,
}

/// What one non-blocking write to the transport gave.
pub enum WriteOutcome {
    /// This many bytes of the outbox went out.
    Wrote(usize),
    /// Nothing could be written right now.
    Pending,
    Failed,
}

/// A connection's queues and counters.
pub struct ConnectionCore {
    state: ConnState,
    inbox: Buffer,
    outbox: Vec<u8>,
    bytes_read: u64,
    bytes_written: u64,
}

impl ConnectionCore {
    pub closed spec fn spec_state(&self) -> ConnState {
        self.state
    }

    /// Bytes received and not yet taken.
    pub closed spec fn spec_inbox(&self) -> Seq<u8> {
        self.inbox@
    }

    /// Bytes queued and not yet written.
    pub closed spec fn spec_outbox(&self) -> Seq<u8> {
        self.outbox@
    }

    pub closed spec fn spec_bytes_read(&self) -> u64 {
        self.bytes_read
    }

    pub closed spec fn spec_bytes_written(&self) -> u64 {
        self.bytes_written
    }

    /// A fresh, connected connection with nothing queued.
    #[must_use]
    pub fn new() -> (r: Self)
        ensures
            r.spec_state() == ConnState::Connected,
            r.spec_inbox() == Seq::<u8>::empty(),
            r.spec_outbox() == Seq::<u8>::empty(),
            r.spec_bytes_read() == 0,
            r.spec_bytes_written() == 0,
    {
        ConnectionCore { state: ConnState::Connected, inbox: Buffer::new(), outbox: Vec::new(), bytes_read: 0, bytes_written: 0 }
    }

    #[must_use]
    pub fn state(&self) -> (r: ConnState)
        ensures
            r == self.spec_state(),
    {
        self.state
    }

    #[must_use]
    pub fn is_closed(&self) -> (r: bool)
        ensures
            r == (self.spec_state() == ConnState::Closed),
    {
        self.state == ConnState::Closed
    }

    #[must_use]
    pub fn bytes_read(&self) -> (r: u64)
        ensures
            r == self.spec_bytes_read(),
    {
        self.bytes_read
    }

    #[must_use]
    pub fn bytes_written(&self) -> (r: u64)
        ensures
            r == self.spec_bytes_written(),
    {
        self.bytes_written
    }

    /// The bytes waiting to be written.
    #[must_use]
    pub fn outbox(&self) -> (r: &[u8])
        ensures
            r@ == self.spec_outbox(),
    {
        self.outbox.as_slice()
    }

    /// Queues bytes for writing; refused (`false`) once the connection is
    /// closing or closed.
    pub fn queue(&mut self, data: &[u8]) -> (r: bool)
        ensures
            r == (old(self).spec_state() == ConnState::Connected),
            r ==> final(self).spec_outbox() == old(self).spec_outbox() + data@,
            !r ==> final(self).spec_outbox() == old(self).spec_outbox(),
            final(self).spec_state() == old(self).spec_state(),
            final(self).spec_inbox() == old(self).spec_inbox(),
            final(self).spec_bytes_read() == old(self).spec_bytes_read(),
            final(self).spec_bytes_written() == old(self).spec_bytes_written(),
    {
        if self.state != ConnState::Connected {
            return false;
        }
        let mut i: usize = 0;
        while i < data.len()
            invariant
                i <= data@.len(),
                self.outbox@ == old(self).outbox@ + data@.take(i as int),
                self.state == old(self).state,
                self.inbox == old(self).inbox,
                self.bytes_read == old(self).bytes_read,
                self.bytes_written == old(self).bytes_written,
            decreases data.len() - i,
        {
            self.outbox.push(data[i]);
            i = i + 1;
            assert(self.outbox@ =~= old(self).outbox@ + data@.take(i as int));
        }
        assert(data@.take(i as int) =~= data@);
        true
    }

    /// Closes the connection: at once when nothing is queued, otherwise
    /// after the queue is written. Closing twice changes nothing.
    pub fn close(&mut self)
        ensures
            final(self).spec_state() == (if old(self).spec_state() == ConnState::Connected {
                if old(self).spec_outbox().len() == 0 { ConnState::Closed } else { ConnState::Closing }
            } else {
                old(self).spec_state()
            }),
            final(self).spec_outbox() == old(self).spec_outbox(),
            final(self).spec_inbox() == old(self).spec_inbox(),
            final(self).spec_bytes_read() == old(self).spec_bytes_read(),
            final(self).spec_bytes_written() == old(self).spec_bytes_written(),
    {
        if self.state == ConnState::Connected {
            self.state = if self.outbox.len() == 0 { ConnState::Closed } else { ConnState::Closing };
        }
    }

    /// Takes in what a read gave: data joins the inbox and the count, end of
    /// stream or a failure closes the connection.
    pub fn on_read(&mut self, outcome: ReadOutcome)
        ensures
            final(self).spec_outbox() == old(self).spec_outbox(),
            final(self).spec_bytes_written() == old(self).spec_bytes_written(),
            match outcome {
                ReadOutcome::Data(d) => final(self).spec_inbox() == old(self).spec_inbox() + d@
                    && final(self).spec_bytes_read() == old(self).spec_bytes_read().wrapping_add(d@.len() as u64)
                    && final(self).spec_state() == old(self).spec_state(),
                ReadOutcome::Pending => final(self).spec_inbox() == old(self).spec_inbox()
                    && final(self).spec_bytes_read() == old(self).spec_bytes_read()
                    && final(self).spec_state() == old(self).spec_state(),
                _ => final(self).spec_inbox() == old(self).spec_inbox()
                    && final(self).spec_bytes_read() == old(self).spec_bytes_read()
                    && final(self).spec_state() == ConnState::Closed,
            },
    {
        match outcome {
            ReadOutcome::Data(d) => {
                self.inbox.extend(d.as_slice());
                self.bytes_read = self.bytes_read.wrapping_add(d.len() as u64);
            },
            ReadOutcome::Pending => {},
            _ => {
                self.state = ConnState::Closed;
            },
        }
    }

    /// Takes in what a write of the outbox gave; whether to keep writing.
    /// Written bytes leave the outbox; a failure closes the connection.
    pub fn on_written(&mut self, outcome: WriteOutcome) -> (r: bool)
        requires
            outcome matches WriteOutcome::Wrote(n) ==> n <= old(self).spec_outbox().len(),
        ensures
            final(self).spec_inbox() == old(self).spec_inbox(),
            final(self).spec_bytes_read() == old(self).spec_bytes_read(),
            match outcome {
                WriteOutcome::Wrote(n) => {
                    &&& final(self).spec_outbox() == old(self).spec_outbox().skip(n as int)
                    &&& final(self).spec_bytes_written() == old(self).spec_bytes_written().wrapping_add(n as u64)
                    &&& final(self).spec_state() == old(self).spec_state()
                    &&& r == (n > 0 && final(self).spec_outbox().len() > 0)
                },
                WriteOutcome::Pending => final(self).spec_outbox() == old(self).spec_outbox()
                    && final(self).spec_bytes_written() == old(self).spec_bytes_written()
                    && final(self).spec_state() == old(self).spec_state() && !r,
                WriteOutcome::Failed => final(self).spec_outbox() == old(self).spec_outbox()
                    && final(self).spec_bytes_written() == old(self).spec_bytes_written()
                    && final(self).spec_state() == ConnState::Closed && !r,
            },
    {
        match outcome {
            WriteOutcome::Wrote(n) => {
                if n == 0 {
                    assert(self.outbox@.skip(0) =~= self.outbox@);
                    return false;
                }
                let mut rest: Vec<u8> = Vec::new();
                let mut i: usize = n;
                while i < self.outbox.len()
                    invariant
                        n <= i <= self.outbox@.len(),
                        self.outbox@ == old(self).outbox@,
                        rest@ == self.outbox@.subrange(n as int, i as int),
                    decreases self.outbox.len() - i,
                {
                    rest.push(self.outbox[i]);
                    i = i + 1;
                    assert(rest@ =~= self.outbox@.subrange(n as int, i as int));
                }
                assert(rest@ =~= old(self).outbox@.skip(n as int));
                self.outbox = rest;
                self.bytes_written = self.bytes_written.wrapping_add(n as u64);
                self.outbox.len() > 0
            },
            WriteOutcome::Pending => false,
            WriteOutcome::Failed => {
                self.state = ConnState::Closed;
                false
            },
        }
    }

    /// After the transport's flush: a failed flush closes the connection.
    pub fn on_flushed(&mut self, ok: bool)
        ensures
            final(self).spec_state() == (if ok { old(self).spec_state() } else { ConnState::Closed }),
            final(self).spec_outbox() == old(self).spec_outbox(),
            final(self).spec_inbox() == old(self).spec_inbox(),
            final(self).spec_bytes_read() == old(self).spec_bytes_read(),
            final(self).spec_bytes_written() == old(self).spec_bytes_written(),
    {
        if !ok {
            self.state = ConnState::Closed;
        }
    }

    /// End of a poll: a closing connection whose queue has drained is closed.
    pub fn finish_poll(&mut self)
        ensures
            final(self).spec_state() == (if old(self).spec_state() == ConnState::Closing && old(self).spec_outbox().len() == 0 {
                ConnState::Closed
            } else {
                old(self).spec_state()
            }),
            final(self).spec_outbox() == old(self).spec_outbox(),
            final(self).spec_inbox() == old(self).spec_inbox(),
            final(self).spec_bytes_read() == old(self).spec_bytes_read(),
            final(self).spec_bytes_written() == old(self).spec_bytes_written(),
    {
        if self.state == ConnState::Closing && self.outbox.len() == 0 {
            self.state = ConnState::Closed;
        }
    }

    /// Everything received so far, removed from the inbox.
    pub fn drain_available(&mut self) -> (r: Vec<u8>)
        ensures
            r@ == old(self).spec_inbox(),
            final(self).spec_inbox() == Seq::<u8>::empty(),
            final(self).spec_state() == old(self).spec_state(),
            final(self).spec_outbox() == old(self).spec_outbox(),
            final(self).spec_bytes_read() == old(self).spec_bytes_read(),
            final(self).spec_bytes_written() == old(self).spec_bytes_written(),
    {
        let len = self.inbox.len();
        match self.inbox.take(len) {
            Some(bytes) => bytes,
            None => Vec::new(),
        }
    }

    /// The next length-prefixed packet in the inbox, if whole.
    pub fn next_packet(&mut self) -> (r: Option<RawPacket>)
        ensures
            final(self).spec_state() == old(self).spec_state(),
            final(self).spec_outbox() == old(self).spec_outbox(),
            final(self).spec_bytes_read() == old(self).spec_bytes_read(),
            final(self).spec_bytes_written() == old(self).spec_bytes_written(),
            match spec_frame(old(self).spec_inbox()) {
                None => r is None && final(self).spec_inbox() == old(self).spec_inbox(),
                Some((payload, used)) => (r matches Some(p) && p.0@ == payload)
                    && final(self).spec_inbox() == old(self).spec_inbox().skip(used as int),
            },
    {
        frame_packet(&mut self.inbox)
    }
}

} // verus!
