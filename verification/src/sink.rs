//! The output sink: one continuously draining queue of sources.
//!
//! Sources appended while something is playing are played after it, in
//! append order. Pause state and volume are properties of the sink,
//! not of any one source, and survive a device switch: a switch rebinds
//! the same logical sink to another physical stream and must not touch
//! the queue. The pulling side advances the head source one sample at a
//! time; when the head asks for a packet the owner decodes one and
//! hands it back, and when the head ends it is removed and the next
//! source plays.

use crate::cancel::{CancelModel, Cancelable, Controls, StepResult};
use crate::source::SourceModel;
use vstd::prelude::*;

verus! {

/// Volume is a percentage; every input is clamped into [0, 100].
pub open spec fn clamp_volume(v: int) -> int {
    if v < 0 {
        0
    } else if v > 100 {
        100
    } else {
        v
    }
}

/// The mathematical state of the sink.
pub struct SinkModel {
    /// The queued sources, head first.
    pub queue: Seq<CancelModel>,
    pub paused: bool,
    /// Volume percentage, kept in [0, 100].
    pub volume: int,
    /// Every sample the sink delivered so far, in order.
    pub played: Seq<i16>,
}

impl SinkModel {
    pub open spec fn wf(self) -> bool {
        &&& 0 <= self.volume <= 100
        &&& forall|i: int| 0 <= i < self.queue.len() ==> (#[trigger] self.queue[i]).wf()
    }
}

/// What one pull of the sink yields.
pub enum PullEvent {
    /// The next sample delivered to the output stream.
    Sample(i16),
    /// The head source is out of buffered samples; the session with
    /// this identifier must be asked for its next decoded packet.
    NeedPacket(u64),
    /// The head source is over and was removed from the queue.
    SourceEnded,
    /// The sink is paused or the queue is empty; nothing to do.
    Idle,
}

/// How one pull transforms the sink and the stop flag: a paused or
/// empty sink idles; otherwise the head source takes one step, and a
/// source that ends is removed from the queue.
pub open spec fn pull_model(s: SinkModel, stop: bool) -> (SinkModel, bool, PullEvent) {
    if s.paused || s.queue.len() == 0 {
        (s, stop, PullEvent::Idle)
    } else {
        let (head, stop2, r) = crate::cancel::step_model(s.queue[0], stop);
        match r {
            StepResult::Sample(x) => (
                SinkModel { queue: s.queue.update(0, head), played: s.played.push(x), ..s },
                stop2,
                PullEvent::Sample(x),
            ),
            StepResult::NeedPacket(id) => (
                SinkModel { queue: s.queue.update(0, head), ..s },
                stop2,
                PullEvent::NeedPacket(id),
            ),
            StepResult::Ended => (
                SinkModel { queue: s.queue.drop_first(), ..s },
                stop2,
                PullEvent::SourceEnded,
            ),
        }
    }
}

/// The spec-level shape of a decoded packet handed to `refill`.
pub open spec fn packet_model(packet: Option<Vec<i16>>) -> Option<Seq<i16>> {
    match packet {
        Some(b) => Some(b@),
        None => None,
    }
}

/// How handing a packet to the sink transforms it: a head source that
/// waits for one resumes with it (or ends, when the stream is over);
/// otherwise the packet is dropped and nothing changes.
pub open spec fn refill_model(s: SinkModel, packet: Option<Seq<i16>>) -> SinkModel {
    if s.queue.len() > 0 && !s.queue[0].stopped && s.queue[0].source.needs_packet() {
        match packet {
            Some(b) => SinkModel {
                queue: s.queue.update(
                    0,
                    CancelModel {
                        source: SourceModel { buffer: b, offset: 0, ..s.queue[0].source },
                        ..s.queue[0]
                    },
                ),
                ..s
            },
            None => SinkModel {
                queue: s.queue.update(
                    0,
                    CancelModel {
                        source: SourceModel { ended: true, ..s.queue[0].source },
                        ..s.queue[0]
                    },
                ),
                ..s
            },
        }
    } else {
        s
    }
}

/// The single continuously draining playback queue.
pub struct Sink {
    queue: Vec<Cancelable>,
    paused: bool,
    volume: i8,
    played: Ghost<Seq<i16>>,
}

impl View for Sink {
    type V = SinkModel;

    closed spec fn view(&self) -> SinkModel {
        SinkModel {
            queue: self.queue@.map_values(|c: Cancelable| c@),
            paused: self.paused,
            volume: self.volume as int,
            played: self.played@,
        }
    }
}

impl Sink {
    /// A sink with nothing queued, unpaused, at full volume, bound to
    /// no output yet.
    pub fn new_idle() -> (r: Sink)
        ensures
            r@ == (SinkModel {
                queue: Seq::<CancelModel>::empty(),
                paused: false,
                volume: 100int,
                played: Seq::<i16>::empty(),
            }),
            r@.wf(),
    {
        let s = Sink { queue: Vec::new(), paused: false, volume: 100, played: Ghost(Seq::empty()) };
        assert(s@.queue =~= Seq::<CancelModel>::empty());
        s
    }

    /// Queue depth: how many sources are queued or playing.
    pub fn len(&self) -> (r: usize)
        ensures
            r == self@.queue.len(),
    {
        self.queue.len()
    }

    /// Appends a source; it plays after everything queued before it.
    pub fn append(&mut self, source: Cancelable)
        requires
            old(self)@.wf(),
            source@.wf(),
        ensures
            final(self)@ == (SinkModel { queue: old(self)@.queue.push(source@), ..old(self)@ }),
            final(self)@.wf(),
    {
        self.queue.push(source);
        assert(self@.queue =~= old(self)@.queue.push(source@));
    }

    pub fn pause(&mut self)
        ensures
            final(self)@ == (SinkModel { paused: true, ..old(self)@ }),
    {
        self.paused = true;
    }

    pub fn resume(&mut self)
        ensures
            final(self)@ == (SinkModel { paused: false, ..old(self)@ }),
    {
        self.paused = false;
    }

    pub fn is_paused(&self) -> (r: bool)
        ensures
            r == self@.paused,
    {
        self.paused
    }

    /// Current volume percentage, in [0, 100].
    pub fn volume(&self) -> (r: i8)
        requires
            self@.wf(),
        ensures
            r as int == self@.volume,
            0 <= r <= 100,
    {
        self.volume
    }

    /// Sets the volume percentage; the input is clamped into [0, 100].
    pub fn set_volume(&mut self, volume: i8)
        ensures
            final(self)@ == (SinkModel { volume: clamp_volume(volume as int), ..old(self)@ }),
    {
        let v: i8 = if volume < 0 {
            0
        } else if volume > 100 {
            100
        } else {
            volume
        };
        self.volume = v;
    }

    /// One pull by the draining path, as `pull_model` says.
    pub fn pull(&mut self, controls: &mut Controls) -> (r: PullEvent)
        requires
            old(self)@.wf(),
        ensures
            final(self)@.wf(),
            (final(self)@, final(controls).stop_requested(), r) == pull_model(
                old(self)@,
                old(controls).stop_requested(),
            ),
    {
        if self.paused || self.queue.len() == 0 {
            return PullEvent::Idle;
        }
        let mut head = self.queue.remove(0);
        assert(head@ == old(self)@.queue[0]);
        assert(head@.wf());
        let step = head.step(controls);
        match step {
            StepResult::Sample(x) => {
                proof {
                    self.played@ = self.played@.push(x);
                }
                self.queue.insert(0, head);
                assert(self@.queue =~= old(self)@.queue.update(0, head@));
                PullEvent::Sample(x)
            },
            StepResult::NeedPacket(id) => {
                self.queue.insert(0, head);
                assert(self@.queue =~= old(self)@.queue.update(0, head@));
                PullEvent::NeedPacket(id)
            },
            StepResult::Ended => {
                assert(self@.queue =~= old(self)@.queue.drop_first());
                PullEvent::SourceEnded
            },
        }
    }

    /// Whether the head source is waiting for its next packet.
    pub fn head_needs_packet(&self) -> (r: bool)
        ensures
            r == (self@.queue.len() > 0 && !self@.queue[0].stopped
                && self@.queue[0].source.needs_packet()),
    {
        if self.queue.len() == 0 {
            return false;
        }
        self.queue[0].needs_packet()
    }

    /// Hands the next decoded packet (or the end of the stream) to the
    /// head source, as `refill_model` says. Without a head waiting for
    /// one, the packet is dropped and nothing changes.
    pub fn refill(&mut self, packet: Option<Vec<i16>>)
        requires
            old(self)@.wf(),
        ensures
            final(self)@.wf(),
            final(self)@ == refill_model(old(self)@, packet_model(packet)),
    {
        if self.queue.len() == 0 {
            return ;
        }
        let mut head = self.queue.remove(0);
        assert(head@ == old(self)@.queue[0]);
        assert(head@.wf());
        if head.needs_packet() {
            head.refill(packet);
        }
        self.queue.insert(0, head);
        assert(self@.queue =~= old(self)@.queue.update(0, head@));
        proof {
            if !(old(self)@.queue.len() > 0 && !old(self)@.queue[0].stopped && old(
                self,
            )@.queue[0].source.needs_packet()) {
                assert(self@.queue =~= old(self)@.queue);
            }
        }
    }

    /// The drain step of `play`: with the stop flag raised, the pulling
    /// path observes it at its next check and ends the head source.
    /// Called in a loop this realizes "request stop and block until the
    /// queue reports empty" without the waiting.
    pub fn end_current(&mut self, controls: &mut Controls)
        requires
            old(self)@.wf(),
            old(self)@.queue.len() > 0,
            old(controls).stop_requested(),
        ensures
            final(self)@.wf(),
            final(self)@ == (SinkModel { queue: old(self)@.queue.drop_first(), ..old(self)@ }),
            !final(controls).stop_requested(),
    {
        controls.clear();
        self.queue.remove(0);
        assert(self@.queue =~= old(self)@.queue.drop_first());
    }
}

} // verus!
