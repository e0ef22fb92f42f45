//! The player abstraction: output devices, the engine's error
//! taxonomy, and the polymorphic command surface the application
//! talks to.

use crate::sink::{clamp_volume, SinkModel};
use vstd::prelude::*;

verus! {

/// A host audio output endpoint, identified by name. Equality is
/// identifier-based, as a fresh enumeration produces new snapshots of
/// the same physical device.
pub struct Device {
    id: String,
    is_active: bool,
    is_default: bool,
}

impl Device {
    /// Spec view of the identifier.
    pub closed spec fn id_spec(&self) -> Seq<char> {
        self.id@
    }

    /// Spec view of the active flag.
    pub closed spec fn is_active_spec(&self) -> bool {
        self.is_active
    }

    /// Spec view of the default flag.
    pub closed spec fn is_default_spec(&self) -> bool {
        self.is_default
    }

    /// Builds one enumeration entry.
    pub fn new(id: String, is_active: bool, is_default: bool) -> (r: Device)
        ensures
            r.id_spec() == id@,
            r.is_active_spec() == is_active,
            r.is_default_spec() == is_default,
    {
        Device { id, is_active, is_default }
    }

    pub fn id(&self) -> (r: &str)
        ensures
            r@ == self.id_spec(),
    {
        self.id.as_str()
    }

    pub fn is_active(&self) -> (r: bool)
        ensures
            r == self.is_active_spec(),
    {
        self.is_active
    }

    pub fn is_default(&self) -> (r: bool)
        ensures
            r == self.is_default_spec(),
    {
        self.is_default
    }
}

impl Clone for Device {
    fn clone(&self) -> (r: Self)
        ensures
            r == *self,
    {
        Device { id: self.id.clone(), is_active: self.is_active, is_default: self.is_default }
    }
}

impl PartialEq for Device {
    /// Devices compare by identifier alone.
    fn eq(&self, other: &Self) -> (r: bool) {
        self.id == other.id
    }
}

impl vstd::std_specs::cmp::PartialEqSpecImpl for Device {
    open spec fn obeys_eq_spec() -> bool {
        true
    }

    open spec fn eq_spec(&self, other: &Self) -> bool {
        self.id_spec() == other.id_spec()
    }
}

/// What can go wrong in the engine. Every failure is synchronous and
/// recoverable at the call site; mid-stream decode failures are not
/// errors but a natural end of the sample sequence.
#[derive(Debug)]
pub enum PlayerError {
    /// The stream could not be opened or no decodable track was found.
    SourceUnavailable,
    /// The requested output device is not among the host's devices.
    DeviceNotFound,
    /// The host audio interface failed to enumerate devices or to open
    /// an output stream.
    OutputFailed,
}

impl PlayerError {
    /// A short description, suitable for the status line.
    pub fn message(&self) -> (r: String)
        ensures
            self is SourceUnavailable ==> r@ == "source unavailable"@,
            self is DeviceNotFound ==> r@ == "device not found"@,
            self is OutputFailed ==> r@ == "output failed"@,
    {
        match self {
            PlayerError::SourceUnavailable => String::from_str("source unavailable"),
            PlayerError::DeviceNotFound => String::from_str("device not found"),
            PlayerError::OutputFailed => String::from_str("output failed"),
        }
    }
}

/// A token standing for one open output stream. A fresh handle means a
/// freshly opened stream; an unchanged handle means the same stream
/// instance was kept.
#[derive(Clone, Copy, PartialEq, Eq, Structural)]
pub struct StreamHandle {
    pub id: u64,
}

/// The engine's current binding: the bound device together with the
/// open output stream on it. Replaced as a whole on every successful
/// device switch; never mutated in place.
pub struct ActiveOutput {
    pub device: Device,
    pub stream: StreamHandle,
}

/// The command surface of the playback engine.
///
/// Every operation is synchronous: the blocking work (network reads,
/// decoding, the audio callback) happens on the pulling side, which
/// talks to the player state only through the polled stop flag, the
/// sink and the active-output binding.
pub trait Player: Sized {
    /// The sink: queue, pause state, volume, delivered samples.
    spec fn sink_spec(&self) -> SinkModel;

    /// The current device binding, if any.
    spec fn active_output_spec(&self) -> Option<ActiveOutput>;

    /// Whether a stop request is raised and not yet observed.
    spec fn stop_pending_spec(&self) -> bool;

    /// Well-formedness, established by construction and preserved by
    /// every operation.
    spec fn inv(&self) -> bool;

    /// Starts playing the given stream. Any prior queued or playing
    /// audio is drained first, so at most one logical station is ever
    /// audible: on success the queue holds exactly the new source.
    /// On failure (the stream is unreachable or carries no decodable
    /// track) the player is left as it was.
    fn play(&mut self, stream_url: &str) -> (r: Result<(), PlayerError>)
        requires
            old(self).inv(),
        ensures
            final(self).inv(),
            final(self).sink_spec().volume == old(self).sink_spec().volume,
            final(self).sink_spec().paused == old(self).sink_spec().paused,
            final(self).sink_spec().played == old(self).sink_spec().played,
            final(self).active_output_spec() == old(self).active_output_spec(),
            r is Ok ==> final(self).sink_spec().queue.len() == 1 && !final(self).stop_pending_spec(),
            r is Err ==> final(self).sink_spec() == old(self).sink_spec() && final(self).stop_pending_spec() == old(self).stop_pending_spec(),
    ;

    /// Requests a stop. The pulling side observes the flag at its next
    /// periodic check and ends the current source; nothing else of the
    /// player changes here.
    fn stop(&mut self)
        requires
            old(self).inv(),
        ensures
            final(self).inv(),
            final(self).sink_spec() == old(self).sink_spec(),
            final(self).active_output_spec() == old(self).active_output_spec(),
            final(self).stop_pending_spec(),
    ;

    /// Pauses the sink. No effect if already paused.
    fn pause(&mut self)
        requires
            old(self).inv(),
        ensures
            final(self).inv(),
            final(self).sink_spec() == (SinkModel { paused: true, ..old(self).sink_spec() }),
            final(self).active_output_spec() == old(self).active_output_spec(),
            final(self).stop_pending_spec() == old(self).stop_pending_spec(),
    ;

    /// Resumes a paused sink. No effect if not paused.
    fn resume(&mut self)
        requires
            old(self).inv(),
        ensures
            final(self).inv(),
            final(self).sink_spec() == (SinkModel { paused: false, ..old(self).sink_spec() }),
            final(self).active_output_spec() == old(self).active_output_spec(),
            final(self).stop_pending_spec() == old(self).stop_pending_spec(),
    ;

    fn is_paused(&self) -> (r: bool)
        requires
            self.inv(),
        ensures
            r == self.sink_spec().paused,
    ;

    /// Current volume percentage, in [0, 100].
    fn volume(&self) -> (r: i8)
        requires
            self.inv(),
        ensures
            r as int == self.sink_spec().volume,
            0 <= r <= 100,
    ;

    /// Sets the volume percentage; the input is clamped into [0, 100].
    fn set_volume(&mut self, volume: i8)
        requires
            old(self).inv(),
        ensures
            final(self).inv(),
            final(self).sink_spec() == (SinkModel {
                volume: clamp_volume(volume as int),
                ..old(self).sink_spec()
            }),
            final(self).active_output_spec() == old(self).active_output_spec(),
            final(self).stop_pending_spec() == old(self).stop_pending_spec(),
    ;

    /// Enumerates the host's output devices. Each entry carries the
    /// identifier, whether it is the engine's currently bound device,
    /// and whether the host reports it as the default. Enumeration
    /// mutates no engine state.
    fn devices(&self) -> (r: Result<Vec<Device>, PlayerError>)
        requires
            self.inv(),
        ensures
            r matches Ok(ds) ==> forall|i: int|
                0 <= i < ds@.len() ==> ((#[trigger] ds@[i]).is_active_spec() <==> (
                self.active_output_spec() matches Some(a)
                    && a.device.id_spec() == ds@[i].id_spec())),
    ;

    /// Binds playback to the given output device.
    ///
    /// Binding the already-active device is a no-op that succeeds and
    /// keeps the very same stream instance. An identifier the host
    /// does not report fails with `DeviceNotFound`; a stream that
    /// cannot be opened fails with `OutputFailed`; either failure
    /// leaves the prior binding untouched. The sink — queue, sources,
    /// pause state, volume, delivered samples — is never touched, so a
    /// switch mid-playback continues the same logical sequence of
    /// samples on the new stream.
    fn use_device(&mut self, device: &Device) -> (r: Result<(), PlayerError>)
        requires
            old(self).inv(),
        ensures
            final(self).inv(),
            final(self).sink_spec() == old(self).sink_spec(),
            final(self).stop_pending_spec() == old(self).stop_pending_spec(),
            (old(self).active_output_spec() matches Some(a) && a.device.id_spec()
                == device.id_spec()) ==> r is Ok && final(self).active_output_spec() == old(self).active_output_spec(),
            r is Err ==> final(self).active_output_spec() == old(self).active_output_spec(),
            r is Ok ==> (final(self).active_output_spec() matches Some(a) && a.device.id_spec()
                == device.id_spec()),
    ;

    /// The currently bound device, if a binding exists.
    fn active_device(&self) -> (r: Option<Device>)
        requires
            self.inv(),
        ensures
            r is Some <==> self.active_output_spec() is Some,
            r matches Some(d) ==> (self.active_output_spec() matches Some(a) && d == a.device),
    ;
}

} // verus!
