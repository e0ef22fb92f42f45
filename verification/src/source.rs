//! The decoder source: a finite, non-restartable sequence of
//! interleaved PCM samples produced packet by packet.
//!
//! Opening the stream, probing the container and decoding packets are
//! blocking I/O and live outside the library; a source is built from
//! the first decoded packet (which fixes the signal spec) and is then
//! advanced sample by sample. When the current buffer is exhausted the
//! owner is asked for the next decoded packet; a failed decode is
//! reported as `None` and ends the sequence, it is not an error.

use vstd::prelude::*;

verus! {

/// The mathematical state of a decoder source.
pub struct SourceModel {
    /// Identifies the decode session the samples come from.
    pub session: u64,
    /// The samples of the packet decoded most recently.
    pub buffer: Seq<i16>,
    /// How many samples of `buffer` were already handed out.
    pub offset: int,
    /// Channel count, fixed by the first decoded packet.
    pub channels: u16,
    /// Sample rate in Hz, fixed by the first decoded packet.
    pub sample_rate: u32,
    /// True once the underlying stream ended or a packet failed to
    /// decode; no further samples will appear.
    pub ended: bool,
    /// Every sample handed out so far, in order.
    pub emitted: Seq<i16>,
}

impl SourceModel {
    pub open spec fn wf(self) -> bool {
        0 <= self.offset <= self.buffer.len()
    }

    /// The source can make no progress without a fresh packet.
    pub open spec fn needs_packet(self) -> bool {
        self.offset == self.buffer.len() && !self.ended
    }

    /// Nothing is buffered and nothing more will come.
    pub open spec fn drained(self) -> bool {
        self.offset == self.buffer.len() && self.ended
    }
}

/// Per-session decoder state: the samples of the packet decoded last,
/// the position within them, and the signal spec learnt from the first
/// packet.
pub struct DecoderSource {
    session: u64,
    buffer: Vec<i16>,
    offset: usize,
    channels: u16,
    sample_rate: u32,
    ended: bool,
    emitted: Ghost<Seq<i16>>,
}

impl View for DecoderSource {
    type V = SourceModel;

    closed spec fn view(&self) -> SourceModel {
        SourceModel {
            session: self.session,
            buffer: self.buffer@,
            offset: self.offset as int,
            channels: self.channels,
            sample_rate: self.sample_rate,
            ended: self.ended,
            emitted: self.emitted@,
        }
    }
}

impl DecoderSource {
    /// Builds a session from its first decoded packet, which also
    /// carries the signal spec the stream was probed with.
    pub fn new(session: u64, first_packet: Vec<i16>, channels: u16, sample_rate: u32) -> (r:
        DecoderSource)
        ensures
            r@ == (SourceModel {
                session,
                buffer: first_packet@,
                offset: 0,
                channels,
                sample_rate,
                ended: false,
                emitted: Seq::<i16>::empty(),
            }),
            r@.wf(),
    {
        DecoderSource {
            session,
            buffer: first_packet,
            offset: 0,
            channels,
            sample_rate,
            ended: false,
            emitted: Ghost(Seq::empty()),
        }
    }

    pub fn session(&self) -> (r: u64)
        ensures
            r == self@.session,
    {
        self.session
    }

    pub fn channels(&self) -> (r: u16)
        ensures
            r == self@.channels,
    {
        self.channels
    }

    pub fn sample_rate(&self) -> (r: u32)
        ensures
            r == self@.sample_rate,
    {
        self.sample_rate
    }

    pub fn needs_packet(&self) -> (r: bool)
        ensures
            r == self@.needs_packet(),
    {
        self.offset == self.buffer.len() && !self.ended
    }

    pub fn is_ended(&self) -> (r: bool)
        ensures
            r == self@.ended,
    {
        self.ended
    }

    /// Hands out the next buffered sample, or `None` when the buffer
    /// is exhausted and a packet (or the end of the stream) is due.
    pub fn next_buffered(&mut self) -> (r: Option<i16>)
        requires
            old(self)@.wf(),
        ensures
            final(self)@.wf(),
            old(self)@.offset < old(self)@.buffer.len() ==> {
                &&& r == Some(old(self)@.buffer[old(self)@.offset])
                &&& final(self)@ == (SourceModel {
                    offset: old(self)@.offset + 1,
                    emitted: old(self)@.emitted.push(old(self)@.buffer[old(self)@.offset]),
                    ..old(self)@
                })
            },
            old(self)@.offset == old(self)@.buffer.len() ==> r is None && final(self)@ == old(
                self,
            )@,
    {
        if self.offset < self.buffer.len() {
            let s = self.buffer[self.offset];
            self.offset = self.offset + 1;
            proof {
                self.emitted@ = self.emitted@.push(s);
            }
            Some(s)
        } else {
            None
        }
    }

    /// Resumes the sequence with the next decoded packet, or ends it:
    /// `None` stands for the end of the stream or a decode failure,
    /// which by design is treated the same way.
    pub fn refill(&mut self, packet: Option<Vec<i16>>)
        requires
            old(self)@.needs_packet(),
        ensures
            final(self)@.wf(),
            packet matches Some(buf) ==> final(self)@ == (SourceModel {
                buffer: buf@,
                offset: 0,
                ..old(self)@
            }),
            packet is None ==> final(self)@ == (SourceModel { ended: true, ..old(self)@ }),
    {
        match packet {
            Some(buf) => {
                self.buffer = buf;
                self.offset = 0;
            },
            None => {
                self.ended = true;
            },
        }
    }
}

} // verus!
