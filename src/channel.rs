//! The byte device a session talks to, and an in-memory loopback device.
use vstd::prelude::*;
use std::collections::VecDeque;

verus! {

/// Why a device operation failed.
pub enum ChannelError {
    /// The device is gone; the session keeps running without it.
    NotFound,
    /// Any other failure, with its message; it ends the session.
    Io(String),
}

impl ChannelError {
    pub fn is_not_found(&self) -> (r: bool)
        ensures
            r == (*self is NotFound),
    {
        matches!(self, ChannelError::NotFound)
    }
}

/// A bidirectional byte device. Nothing is assumed of what an
/// implementation returns; `Channel` records what it reported.
pub trait ByteChannel {
    /// How many received bytes can be read now.
    fn bytes_to_read(&mut self) -> Result<usize, ChannelError>;

    /// Reads exactly `n` received bytes.
    fn read_exact(&mut self, n: usize) -> Result<Vec<u8>, ChannelError>;

    /// Writes all of `bytes`.
    fn write_all(&mut self, bytes: &[u8]) -> Result<(), ChannelError>;

    /// The current baud rate.
    fn baud_rate(&self) -> Result<u32, ChannelError>;

    /// Changes the baud rate.
    fn set_baud_rate(&mut self, rate: u32) -> Result<(), ChannelError>;

    /// The device's name, where it has one.
    fn name(&self) -> Option<String>;
}

/// A device together with a record of what went through it: the bytes
/// handed to it to write, those of them it took in successful writes, the
/// bytes it gave in successful reads, and the baud rate it last accepted.
pub struct Channel<C: ByteChannel> {
    device: C,
    tried: Ghost<Seq<u8>>,
    sent: Ghost<Seq<u8>>,
    got: Ghost<Seq<u8>>,
    baud: Ghost<Option<u32>>,
    faults: Ghost<nat>,
}

impl<C: ByteChannel> Channel<C> {
    /// The device itself.
    pub closed spec fn inner(&self) -> C {
        self.device
    }

    /// Every byte handed to the device to write, whether or not the write
    /// succeeded, oldest first.
    pub closed spec fn attempted(&self) -> Seq<u8> {
        self.tried@
    }

    /// Every byte of a successful write, oldest first.
    pub closed spec fn written(&self) -> Seq<u8> {
        self.sent@
    }

    /// Every byte of a successful read, oldest first.
    pub closed spec fn read(&self) -> Seq<u8> {
        self.got@
    }

    /// How many device calls have failed.
    pub closed spec fn failures(&self) -> nat {
        self.faults@
    }

    /// The baud rate last set successfully, if any.
    pub closed spec fn rate_set(&self) -> Option<u32> {
        self.baud@
    }

    pub fn new(device: C) -> (r: Self)
        ensures
            r.inner() == device,
            r.attempted() == Seq::<u8>::empty(),
            r.written() == Seq::<u8>::empty(),
            r.read() == Seq::<u8>::empty(),
            r.rate_set() is None,
            r.failures() == 0,
    {
        Channel {
            device,
            tried: Ghost(Seq::empty()),
            sent: Ghost(Seq::empty()),
            got: Ghost(Seq::empty()),
            baud: Ghost(None),
            faults: Ghost(0),
        }
    }

    pub fn device(&self) -> (r: &C)
        ensures
            *r == self.inner(),
    {
        &self.device
    }

    pub fn bytes_to_read(&mut self) -> (r: Result<usize, ChannelError>)
        ensures
            r is Ok ==> final(self).failures() == old(self).failures(),
            r is Err ==> final(self).failures() == old(self).failures() + 1,
            final(self).attempted() == old(self).attempted(),
            final(self).written() == old(self).written(),
            final(self).read() == old(self).read(),
            final(self).rate_set() == old(self).rate_set(),
    {
        let r = self.device.bytes_to_read();
        self.count(r.is_err());
        r
    }

    /// Counts a failed call.
    fn count(&mut self, failed: bool)
        ensures
            final(self).failures() == old(self).failures() + if failed {
                1nat
            } else {
                0nat
            },
            final(self).device == old(self).device,
            final(self).tried == old(self).tried,
            final(self).sent == old(self).sent,
            final(self).got == old(self).got,
            final(self).baud == old(self).baud,
    {
        if failed {
            self.faults = Ghost(self.faults@ + 1);
        }
    }

    pub fn read_exact(&mut self, n: usize) -> (r: Result<Vec<u8>, ChannelError>)
        ensures
            r is Ok ==> final(self).failures() == old(self).failures(),
            r is Err ==> final(self).failures() == old(self).failures() + 1,
            final(self).attempted() == old(self).attempted(),
            final(self).written() == old(self).written(),
            final(self).rate_set() == old(self).rate_set(),
            r matches Ok(v) ==> final(self).read() == old(self).read() + v@,
            r is Err ==> final(self).read() == old(self).read(),
    {
        let r = self.device.read_exact(n);
        if let Ok(v) = &r {
            self.got = Ghost(self.got@ + v@);
        }
        self.count(r.is_err());
        r
    }

    pub fn write_all(&mut self, bytes: &[u8]) -> (r: Result<(), ChannelError>)
        ensures
            r is Ok ==> final(self).failures() == old(self).failures(),
            r is Err ==> final(self).failures() == old(self).failures() + 1,
            final(self).attempted() == old(self).attempted() + bytes@,
            final(self).read() == old(self).read(),
            final(self).rate_set() == old(self).rate_set(),
            r is Ok ==> final(self).written() == old(self).written() + bytes@,
            r is Err ==> final(self).written() == old(self).written(),
    {
        let r = self.device.write_all(bytes);
        self.tried = Ghost(self.tried@ + bytes@);
        if r.is_ok() {
            self.sent = Ghost(self.sent@ + bytes@);
        }
        self.count(r.is_err());
        r
    }

    pub fn baud_rate(&self) -> Result<u32, ChannelError> {
        self.device.baud_rate()
    }

    pub fn set_baud_rate(&mut self, rate: u32) -> (r: Result<(), ChannelError>)
        ensures
            r is Ok ==> final(self).failures() == old(self).failures(),
            r is Err ==> final(self).failures() == old(self).failures() + 1,
            final(self).attempted() == old(self).attempted(),
            final(self).written() == old(self).written(),
            final(self).read() == old(self).read(),
            r is Ok ==> final(self).rate_set() == Some(rate),
            r is Err ==> final(self).rate_set() == old(self).rate_set(),
    {
        let r = self.device.set_baud_rate(rate);
        if r.is_ok() {
            self.baud = Ghost(Some(rate));
        }
        self.count(r.is_err());
        r
    }

    pub fn name(&self) -> Option<String> {
        self.device.name()
    }
}

/// A loopback device: what is written is what is read back.
pub struct DummySerial {
    buffer: VecDeque<u8>,
    baud_rate: u32,
}

impl DummySerial {
    /// The bytes waiting to be read.
    pub closed spec fn queued(&self) -> Seq<u8> {
        self.buffer@
    }

    pub closed spec fn rate(&self) -> u32 {
        self.baud_rate
    }

    pub fn new(baud_rate: u32) -> (r: Self)
        ensures
            r.queued() == Seq::<u8>::empty(),
            r.rate() == baud_rate,
    {
        DummySerial { buffer: VecDeque::new(), baud_rate }
    }

    /// Queues bytes to be read, as if the far end had sent them.
    pub fn feed(&mut self, bytes: &[u8])
        ensures
            final(self).queued() == old(self).queued() + bytes@,
            final(self).rate() == old(self).rate(),
    {
        let mut i: usize = 0;
        while i < bytes.len()
            invariant
                i <= bytes@.len(),
                self.buffer@ == old(self).buffer@ + bytes@.take(i as int),
                self.baud_rate == old(self).baud_rate,
            decreases bytes@.len() - i,
        {
            self.buffer.push_back(bytes[i]);
            assert(self.buffer@ =~= old(self).buffer@ + bytes@.take(i + 1));
            i += 1;
        }
        assert(bytes@.take(i as int) =~= bytes@);
    }

    /// Takes up to `n` queued bytes, oldest first.
    pub fn take(&mut self, n: usize) -> (r: Vec<u8>)
        ensures
            n <= old(self).queued().len() ==> r@ == old(self).queued().take(n as int),
            n > old(self).queued().len() ==> r@ == old(self).queued(),
            final(self).queued() == old(self).queued().skip(r@.len() as int),
            final(self).rate() == old(self).rate(),
    {
        let mut out: Vec<u8> = Vec::new();
        while out.len() < n && self.buffer.len() > 0
            invariant
                out@.len() <= n,
                out@ + self.buffer@ == old(self).buffer@,
                self.baud_rate == old(self).baud_rate,
            decreases n - out@.len(),
        {
            if let Some(b) = self.buffer.pop_front() {
                out.push(b);
            }
            assert(out@ + self.buffer@ =~= old(self).buffer@);
        }
        assert(old(self).buffer@.take(out@.len() as int) =~= out@);
        assert(old(self).buffer@.skip(out@.len() as int) =~= self.buffer@);
        out
    }
}

impl ByteChannel for DummySerial {
    fn bytes_to_read(&mut self) -> Result<usize, ChannelError> {
        Ok(self.buffer.len())
    }

    fn read_exact(&mut self, n: usize) -> Result<Vec<u8>, ChannelError> {
        if n > self.buffer.len() {
            Err(ChannelError::Io(String::from_str("failed to fill whole buffer")))
        } else {
            Ok(self.take(n))
        }
    }

    fn write_all(&mut self, bytes: &[u8]) -> Result<(), ChannelError> {
        self.feed(bytes);
        Ok(())
    }

    fn baud_rate(&self) -> Result<u32, ChannelError> {
        Ok(self.baud_rate)
    }

    fn set_baud_rate(&mut self, rate: u32) -> Result<(), ChannelError> {
        self.baud_rate = rate;
        Ok(())
    }

    fn name(&self) -> Option<String> {
        Some(String::from_str("dummy"))
    }
}

} // verus!
