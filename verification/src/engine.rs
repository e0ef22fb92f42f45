//! The production playback engine: the sink, the stop flag and the
//! device binding, driven against a host audio interface.
//!
//! The host is a port: it enumerates output device names, reports the
//! default one, opens output streams, and opens decoder sessions from
//! stream URLs. Everything the host answers is taken as an opaque
//! outcome; the engine's own behaviour is pinned down for every such
//! outcome.

use crate::cancel::{CancelModel, Cancelable, Controls};
use crate::player::{ActiveOutput, Device, Player, PlayerError, StreamHandle};
use crate::sink::{packet_model, pull_model, refill_model, PullEvent, Sink, SinkModel};
use crate::source::DecoderSource;
use vstd::prelude::*;

verus! {

/// The host environment the engine runs against: device enumeration,
/// stream opening and decoder-session opening. The production
/// implementation performs real I/O and lives outside the library; a
/// simulated one lives in `sim` and backs the tests.
pub trait Host: Sized {
    /// Names of the host's output devices, in enumeration order.
    fn output_device_names(&self) -> (r: Result<Vec<String>, PlayerError>);

    /// The identifier of the host's default output device, if any.
    fn default_device_name(&self) -> (r: Option<String>);

    /// Opens an output stream on the named device.
    fn open_output(&mut self, name: &str) -> (r: Result<StreamHandle, PlayerError>);

    /// Opens a decoder session: connects to the URL, probes the
    /// format, decodes the first packet. A fresh session has emitted
    /// nothing and starts at the head of its first buffer.
    fn open_source(&mut self, url: &str) -> (r: Result<DecoderSource, PlayerError>)
        ensures
            r matches Ok(s) ==> s@.wf() && s@.offset == 0 && !s@.ended && s@.emitted
                == Seq::<i16>::empty(),
    ;
}

/// Builds the device list of one enumeration: every name paired with
/// whether it is the engine's bound device and whether it is the
/// host's default, both decided by identifier equality.
pub fn snapshot_devices(
    names: &Vec<String>,
    default_name: &Option<String>,
    active_name: &Option<String>,
) -> (r: Vec<Device>)
    ensures
        r@.len() == names@.len(),
        forall|i: int|
            0 <= i < r@.len() ==> {
                &&& (#[trigger] r@[i]).id_spec() == names@[i]@
                &&& (r@[i].is_active_spec() <==> (active_name matches Some(a) && a@ == names@[i]@))
                &&& (r@[i].is_default_spec() <==> (default_name matches Some(d) && d@
                    == names@[i]@))
            },
{
    let mut result: Vec<Device> = Vec::new();
    let mut i: usize = 0;
    while i < names.len()
        invariant
            i <= names@.len(),
            result@.len() == i,
            forall|j: int|
                0 <= j < i ==> {
                    &&& (#[trigger] result@[j]).id_spec() == names@[j]@
                    &&& (result@[j].is_active_spec() <==> (active_name matches Some(a) && a@
                        == names@[j]@))
                    &&& (result@[j].is_default_spec() <==> (default_name matches Some(d) && d@
                        == names@[j]@))
                },
        decreases names@.len() - i,
    {
        let name = &names[i];
        let is_active = match active_name {
            Some(a) => a.eq(name),
            None => false,
        };
        let is_default = match default_name {
            Some(d) => d.eq(name),
            None => false,
        };
        result.push(Device::new(name.clone(), is_active, is_default));
        i = i + 1;
    }
    result
}

/// Finds the first device name equal to the wanted identifier.
pub fn find_device_index(names: &Vec<String>, id: &String) -> (r: Option<usize>)
    ensures
        r matches Some(i) ==> i < names@.len() && names@[i as int]@ == id@,
        r is None ==> forall|j: int| 0 <= j < names@.len() ==> names@[j]@ != id@,
{
    let mut i: usize = 0;
    while i < names.len()
        invariant
            i <= names@.len(),
            forall|j: int| 0 <= j < i ==> names@[j]@ != id@,
        decreases names@.len() - i,
    {
        if names[i].eq(id) {
            return Some(i);
        }
        i = i + 1;
    }
    None
}

/// The engine: one continuously draining sink, one shared stop flag,
/// one device binding, all serialized behind `&mut self`.
pub struct Engine<H: Host> {
    host: H,
    sink: Sink,
    controls: Controls,
    active: Option<ActiveOutput>,
    period: u32,
}

impl<H: Host> Engine<H> {
    /// The check interval, in pulls, of every source this engine
    /// wraps.
    pub closed spec fn period_spec(&self) -> u32 {
        self.period
    }

    /// Builds an engine with an empty queue, full volume, no stop
    /// pending and no output bound yet. `check_period` is the
    /// cancellation-check interval in pulled samples.
    pub fn new_idle(host: H, check_period: u32) -> (r: Engine<H>)
        requires
            check_period >= 1,
        ensures
            r.inv(),
            r.sink_spec() == (SinkModel {
                queue: Seq::<CancelModel>::empty(),
                paused: false,
                volume: 100int,
                played: Seq::<i16>::empty(),
            }),
            r.active_output_spec() is None,
            !r.stop_pending_spec(),
            r.period_spec() == check_period,
    {
        Engine {
            host,
            sink: Sink::new_idle(),
            controls: Controls::new(),
            active: None,
            period: check_period,
        }
    }

    /// Drains whatever is queued, then appends the given source as the
    /// only one. The drain raises the stop flag once per queued source
    /// and lets the pulling side end it at its next check, exactly as
    /// a stop request would; the new source is appended only once the
    /// queue reports empty, so the old and the new station are never
    /// queued together.
    pub fn play_source(&mut self, source: DecoderSource)
        requires
            old(self).inv(),
            source@.wf(),
        ensures
            final(self).inv(),
            final(self).sink_spec() == (SinkModel {
                queue: seq![
                    (CancelModel {
                        source: source@,
                        period: old(self).period_spec(),
                        since_check: 0,
                        stopped: false,
                    }),
                ],
                ..old(self).sink_spec()
            }),
            final(self).active_output_spec() == old(self).active_output_spec(),
            !final(self).stop_pending_spec(),
            final(self).period_spec() == old(self).period_spec(),
    {
        while self.sink.len() > 0
            invariant
                self.sink@.wf(),
                self.sink@.paused == old(self).sink_spec().paused,
                self.sink@.volume == old(self).sink_spec().volume,
                self.sink@.played == old(self).sink_spec().played,
                self.active == old(self).active,
                self.period == old(self).period,
            decreases self.sink@.queue.len(),
        {
            self.controls.request_stop();
            self.sink.end_current(&mut self.controls);
        }
        self.controls.clear();
        let wrapped = Cancelable::new(source, self.period);
        self.sink.append(wrapped);
        proof {
            assert(self.sink_spec().queue =~= seq![
                (CancelModel {
                    source: source@,
                    period: old(self).period_spec(),
                    since_check: 0,
                    stopped: false,
                }),
            ]);
        }
    }

    /// One pull by the draining path: delivers the next sample, asks
    /// for a packet, retires an ended source, or idles.
    pub fn pull(&mut self) -> (r: PullEvent)
        requires
            old(self).inv(),
        ensures
            final(self).inv(),
            (final(self).sink_spec(), final(self).stop_pending_spec(), r) == pull_model(
                old(self).sink_spec(),
                old(self).stop_pending_spec(),
            ),
            final(self).active_output_spec() == old(self).active_output_spec(),
            final(self).period_spec() == old(self).period_spec(),
    {
        self.sink.pull(&mut self.controls)
    }

    /// Whether the head source is waiting for its next decoded packet.
    pub fn head_needs_packet(&self) -> (r: bool)
        ensures
            r == (self.sink_spec().queue.len() > 0 && !self.sink_spec().queue[0].stopped
                && self.sink_spec().queue[0].source.needs_packet()),
    {
        self.sink.head_needs_packet()
    }

    /// Hands the next decoded packet (or the end of the stream) to the
    /// waiting head source.
    pub fn refill(&mut self, packet: Option<Vec<i16>>)
        requires
            old(self).inv(),
        ensures
            final(self).inv(),
            final(self).sink_spec() == refill_model(old(self).sink_spec(), packet_model(packet)),
            final(self).stop_pending_spec() == old(self).stop_pending_spec(),
            final(self).active_output_spec() == old(self).active_output_spec(),
            final(self).period_spec() == old(self).period_spec(),
    {
        self.sink.refill(packet)
    }

    /// Queue depth: how many sources are queued or playing.
    pub fn queue_len(&self) -> (r: usize)
        ensures
            r == self.sink_spec().queue.len(),
    {
        self.sink.len()
    }

    /// The stream token of the current binding, if one exists. An
    /// unchanged token across a call means the same stream instance
    /// was kept.
    pub fn active_stream_id(&self) -> (r: Option<u64>)
        ensures
            r is Some <==> self.active_output_spec() is Some,
            r matches Some(id) ==> (self.active_output_spec() matches Some(a) && a.stream.id
                == id),
    {
        match &self.active {
            Some(a) => Some(a.stream.id),
            None => None,
        }
    }

    /// Binds the default output device, as reported by the host. The
    /// engine starts idle; this is the usual first binding.
    pub fn use_default_device(&mut self) -> (r: Result<(), PlayerError>)
        requires
            old(self).inv(),
        ensures
            final(self).inv(),
            final(self).sink_spec() == old(self).sink_spec(),
            final(self).stop_pending_spec() == old(self).stop_pending_spec(),
            r is Err ==> final(self).active_output_spec() == old(self).active_output_spec(),
            r is Ok ==> final(self).active_output_spec() is Some,
    {
        let ds = match Player::devices(self) {
            Ok(ds) => ds,
            Err(e) => {
                return Err(e);
            },
        };
        let mut i: usize = 0;
        while i < ds.len()
            invariant
                self == old(self),
                self.inv(),
                i <= ds@.len(),
            decreases ds@.len() - i,
        {
            if ds[i].is_default() {
                return Player::use_device(self, &ds[i]);
            }
            i = i + 1;
        }
        Err(PlayerError::DeviceNotFound)
    }
}

impl<H: Host> Player for Engine<H> {
    closed spec fn sink_spec(&self) -> SinkModel {
        self.sink@
    }

    closed spec fn active_output_spec(&self) -> Option<ActiveOutput> {
        self.active
    }

    closed spec fn stop_pending_spec(&self) -> bool {
        self.controls.stop_requested()
    }

    closed spec fn inv(&self) -> bool {
        self.sink@.wf() && self.period >= 1
    }

    fn play(&mut self, stream_url: &str) -> (r: Result<(), PlayerError>) {
        let source = match self.host.open_source(stream_url) {
            Ok(s) => s,
            Err(_) => {
                return Err(PlayerError::SourceUnavailable);
            },
        };
        self.play_source(source);
        Ok(())
    }

    fn stop(&mut self) {
        self.controls.request_stop();
    }

    fn pause(&mut self) {
        self.sink.pause();
    }

    fn resume(&mut self) {
        self.sink.resume();
    }

    fn is_paused(&self) -> (r: bool) {
        self.sink.is_paused()
    }

    fn volume(&self) -> (r: i8) {
        self.sink.volume()
    }

    fn set_volume(&mut self, volume: i8) {
        self.sink.set_volume(volume);
    }

    fn devices(&self) -> (r: Result<Vec<Device>, PlayerError>) {
        let names = match self.host.output_device_names() {
            Ok(n) => n,
            Err(_) => {
                return Err(PlayerError::OutputFailed);
            },
        };
        let default_name = self.host.default_device_name();
        let active_name: Option<String> = match &self.active {
            Some(a) => Some(String::from_str(a.device.id())),
            None => None,
        };
        Ok(snapshot_devices(&names, &default_name, &active_name))
    }

    fn use_device(&mut self, device: &Device) -> (r: Result<(), PlayerError>) {
        match &self.active {
            Some(a) => {
                if a.device == *device {
                    return Ok(());
                }
            },
            None => {},
        }
        let names = match self.host.output_device_names() {
            Ok(n) => n,
            Err(_) => {
                return Err(PlayerError::OutputFailed);
            },
        };
        let wanted = String::from_str(device.id());
        let index = match find_device_index(&names, &wanted) {
            Some(i) => i,
            None => {
                return Err(PlayerError::DeviceNotFound);
            },
        };
        let stream = match self.host.open_output(names[index].as_str()) {
            Ok(s) => s,
            Err(_) => {
                return Err(PlayerError::OutputFailed);
            },
        };
        self.active = Some(ActiveOutput { device: device.clone(), stream });
        Ok(())
    }

    fn active_device(&self) -> (r: Option<Device>) {
        match &self.active {
            Some(a) => Some(a.device.clone()),
            None => None,
        }
    }
}

} // verus!
