//! Cooperative cancellation: a single shared stop flag, polled by the
//! sample-pulling path at a fixed interval.
//!
//! A stop request is single-shot: the wrapper that observes the raised
//! flag clears it and terminates exactly one session, as if the stream
//! had ended. The interval is counted in pulled samples so that the
//! bounded-latency behaviour is deterministic; the worst-case latency
//! of a stop is one full check interval.

use crate::source::{DecoderSource, SourceModel};
use vstd::prelude::*;

verus! {

/// The control surface shared between the command side (which raises
/// the flag) and the pulling side (which polls and clears it).
pub struct Controls {
    stop: bool,
}

impl Controls {
    pub closed spec fn stop_requested(&self) -> bool {
        self.stop
    }

    pub fn new() -> (r: Controls)
        ensures
            !r.stop_requested(),
    {
        Controls { stop: false }
    }

    /// Raised by `stop`; observed and cleared by the wrapper.
    pub fn request_stop(&mut self)
        ensures
            final(self).stop_requested(),
    {
        self.stop = true;
    }

    pub fn clear(&mut self)
        ensures
            !final(self).stop_requested(),
    {
        self.stop = false;
    }

    pub fn is_stop_requested(&self) -> (r: bool)
        ensures
            r == self.stop_requested(),
    {
        self.stop
    }
}

/// The mathematical state of a cancelable source.
pub struct CancelModel {
    pub source: SourceModel,
    /// Pulls between two checks of the stop flag.
    pub period: u32,
    /// Pulls since the last check.
    pub since_check: u32,
    /// True once a stop request was observed; the sequence is over.
    pub stopped: bool,
}

impl CancelModel {
    pub open spec fn wf(self) -> bool {
        &&& self.source.wf()
        &&& self.period >= 1
        &&& self.since_check < self.period
    }
}

/// What one pull of a cancelable source yields.
pub enum StepResult {
    /// The next sample of the sequence.
    Sample(i16),
    /// The buffer is exhausted; the session with this identifier must
    /// be asked for its next decoded packet.
    NeedPacket(u64),
    /// The sequence is over: the stream ended, a packet failed to
    /// decode, or a stop request was observed.
    Ended,
}

/// How one pull transforms a cancelable source and the stop flag.
///
/// The flag is polled once every `period` pulls; when it is observed
/// raised it is cleared (single-shot) and the source is terminated.
/// Otherwise the pull hands out the next buffered sample, or asks for
/// a packet, or reports the end.
pub open spec fn step_model(c: CancelModel, stop: bool) -> (CancelModel, bool, StepResult) {
    if c.stopped {
        (c, stop, StepResult::Ended)
    } else {
        let due = c.since_check + 1 >= c.period;
        let observed = due && stop;
        let stop2 = if observed {
            false
        } else {
            stop
        };
        let c2 = CancelModel {
            since_check: if due {
                0
            } else {
                (c.since_check + 1) as u32
            },
            stopped: observed,
            ..c
        };
        if observed {
            (c2, stop2, StepResult::Ended)
        } else if c2.source.offset < c2.source.buffer.len() {
            let s = c2.source.buffer[c2.source.offset];
            let c3 = CancelModel {
                source: SourceModel {
                    offset: c2.source.offset + 1,
                    emitted: c2.source.emitted.push(s),
                    ..c2.source
                },
                ..c2
            };
            (c3, stop2, StepResult::Sample(s))
        } else if !c2.source.ended {
            (c2, stop2, StepResult::NeedPacket(c2.source.session))
        } else {
            (c2, stop2, StepResult::Ended)
        }
    }
}

/// A decoder source wrapped with the periodic stop-flag check.
pub struct Cancelable {
    source: DecoderSource,
    period: u32,
    since_check: u32,
    stopped: bool,
}

impl View for Cancelable {
    type V = CancelModel;

    closed spec fn view(&self) -> CancelModel {
        CancelModel {
            source: self.source@,
            period: self.period,
            since_check: self.since_check,
            stopped: self.stopped,
        }
    }
}

impl Cancelable {
    /// Wraps a source; `period` is the check interval in pulls.
    pub fn new(source: DecoderSource, period: u32) -> (r: Cancelable)
        requires
            period >= 1,
            source@.wf(),
        ensures
            r@ == (CancelModel { source: source@, period, since_check: 0, stopped: false }),
            r@.wf(),
    {
        Cancelable { source, period, since_check: 0, stopped: false }
    }

    /// One pull: polls the stop flag when a check is due, then either
    /// hands out a sample, asks for a packet, or ends the sequence.
    pub fn step(&mut self, controls: &mut Controls) -> (r: StepResult)
        requires
            old(self)@.wf(),
        ensures
            final(self)@.wf(),
            final(self)@.period == old(self)@.period,
            (final(self)@, final(controls).stop_requested(), r) == step_model(
                old(self)@,
                old(controls).stop_requested(),
            ),
    {
        if self.stopped {
            return StepResult::Ended;
        }
        self.since_check = self.since_check + 1;
        if self.since_check >= self.period {
            self.since_check = 0;
            if controls.is_stop_requested() {
                controls.clear();
                self.stopped = true;
                return StepResult::Ended;
            }
        }
        match self.source.next_buffered() {
            Some(s) => StepResult::Sample(s),
            None => {
                if !self.source.is_ended() {
                    StepResult::NeedPacket(self.source.session())
                } else {
                    StepResult::Ended
                }
            },
        }
    }

    /// Whether the wrapped source is waiting for its next packet.
    pub fn needs_packet(&self) -> (r: bool)
        ensures
            r == (!self@.stopped && self@.source.needs_packet()),
    {
        !self.stopped && self.source.needs_packet()
    }

    /// Forwards the next decoded packet (or the end of the stream) to
    /// the wrapped source.
    pub fn refill(&mut self, packet: Option<Vec<i16>>)
        requires
            old(self)@.wf(),
            !old(self)@.stopped,
            old(self)@.source.needs_packet(),
        ensures
            final(self)@.wf(),
            packet matches Some(buf) ==> final(self)@ == (CancelModel {
                source: SourceModel { buffer: buf@, offset: 0, ..old(self)@.source },
                ..old(self)@
            }),
            packet is None ==> final(self)@ == (CancelModel {
                source: SourceModel { ended: true, ..old(self)@.source },
                ..old(self)@
            }),
    {
        self.source.refill(packet);
    }
}

} // verus!
