//! The application facade: the command surface the interactive layer
//! drives, over any player, together with what is currently playing.

use crate::models::Station;
use crate::player::{Device, Player, PlayerError};
use crate::sink::{clamp_volume, SinkModel};
use vstd::prelude::*;

verus! {

/// The application state around the player: which device the
/// application saw as active when it started, and which station it
/// asked to play.
pub struct App<P: Player> {
    pub player: P,
    pub active_device: Option<Device>,
    pub playing_station: Option<Station>,
}

impl<P: Player> App<P> {
    /// Wraps a player, remembering which enumerated device is active.
    pub fn new(player: P) -> (r: Result<App<P>, PlayerError>)
        requires
            player.inv(),
        ensures
            r matches Ok(app) ==> {
                &&& app.player == player
                &&& app.playing_station is None
                &&& (app.active_device matches Some(d) ==> d.is_active_spec())
            },
    {
        let ds = match self::find_active(&player) {
            Ok(d) => d,
            Err(e) => {
                return Err(e);
            },
        };
        Ok(App { player, active_device: ds, playing_station: None })
    }

    /// Starts playing a station and remembers it; on failure the
    /// previously remembered station is kept.
    pub fn play(&mut self, station: Station) -> (r: Result<(), PlayerError>)
        requires
            old(self).player.inv(),
        ensures
            final(self).player.inv(),
            final(self).active_device == old(self).active_device,
            final(self).player.sink_spec().volume == old(self).player.sink_spec().volume,
            final(self).player.sink_spec().paused == old(self).player.sink_spec().paused,
            final(self).player.active_output_spec() == old(self).player.active_output_spec(),
            r is Ok ==> final(self).playing_station == Some(station) && final(self).player.sink_spec().queue.len() == 1,
            r is Err ==> final(self).playing_station == old(self).playing_station,
    {
        match self.player.play(station.url.as_str()) {
            Ok(_) => {
                self.playing_station = Some(station);
                Ok(())
            },
            Err(e) => Err(e),
        }
    }

    /// The station asked to play, if any.
    pub fn playing(&self) -> (r: Option<&Station>)
        ensures
            r is Some <==> self.playing_station is Some,
            r matches Some(s) ==> (self.playing_station matches Some(t) && *s == t),
    {
        self.playing_station.as_ref()
    }

    pub fn is_paused(&self) -> (r: bool)
        requires
            self.player.inv(),
        ensures
            r == self.player.sink_spec().paused,
    {
        self.player.is_paused()
    }

    pub fn pause(&mut self)
        requires
            old(self).player.inv(),
        ensures
            final(self).player.inv(),
            final(self).player.sink_spec() == (SinkModel {
                paused: true,
                ..old(self).player.sink_spec()
            }),
            final(self).active_device == old(self).active_device,
            final(self).playing_station == old(self).playing_station,
    {
        self.player.pause();
    }

    pub fn resume(&mut self)
        requires
            old(self).player.inv(),
        ensures
            final(self).player.inv(),
            final(self).player.sink_spec() == (SinkModel {
                paused: false,
                ..old(self).player.sink_spec()
            }),
            final(self).active_device == old(self).active_device,
            final(self).playing_station == old(self).playing_station,
    {
        self.player.resume();
    }

    /// Requests a stop and forgets the playing station.
    pub fn stop(&mut self)
        requires
            old(self).player.inv(),
        ensures
            final(self).player.inv(),
            final(self).player.sink_spec() == old(self).player.sink_spec(),
            final(self).player.stop_pending_spec(),
            final(self).playing_station is None,
            final(self).active_device == old(self).active_device,
    {
        self.player.stop();
        self.playing_station = None;
    }

    /// Current volume percentage, in [0, 100].
    pub fn volume(&self) -> (r: i8)
        requires
            self.player.inv(),
        ensures
            r as int == self.player.sink_spec().volume,
            0 <= r <= 100,
    {
        self.player.volume()
    }

    /// Raises the volume by five points, saturating at 100.
    pub fn volume_up(&mut self)
        requires
            old(self).player.inv(),
        ensures
            final(self).player.inv(),
            final(self).player.sink_spec() == (SinkModel {
                volume: clamp_volume(old(self).player.sink_spec().volume + 5),
                ..old(self).player.sink_spec()
            }),
            final(self).playing_station == old(self).playing_station,
            final(self).active_device == old(self).active_device,
    {
        let v = self.player.volume();
        self.player.set_volume(v + 5);
    }

    /// Lowers the volume by five points, saturating at 0.
    pub fn volume_down(&mut self)
        requires
            old(self).player.inv(),
        ensures
            final(self).player.inv(),
            final(self).player.sink_spec() == (SinkModel {
                volume: clamp_volume(old(self).player.sink_spec().volume - 5),
                ..old(self).player.sink_spec()
            }),
            final(self).playing_station == old(self).playing_station,
            final(self).active_device == old(self).active_device,
    {
        let v = self.player.volume();
        self.player.set_volume(v - 5);
    }

    /// The name of the device the application saw as active, or
    /// "NONE".
    pub fn current_device_name(&self) -> (r: String)
        ensures
            self.active_device matches Some(d) ==> r@ == d.id_spec(),
            self.active_device is None ==> r@ == "NONE"@,
    {
        match &self.active_device {
            Some(d) => String::from_str(d.id()),
            None => String::from_str("NONE"),
        }
    }

    /// Enumerates the host's output devices through the player.
    pub fn devices(&self) -> (r: Result<Vec<Device>, PlayerError>)
        requires
            self.player.inv(),
        ensures
            r matches Ok(ds) ==> forall|i: int|
                0 <= i < ds@.len() ==> ((#[trigger] ds@[i]).is_active_spec() <==> (
                self.player.active_output_spec() matches Some(a) && a.device.id_spec()
                    == ds@[i].id_spec())),
    {
        self.player.devices()
    }

    /// Switches the player's output to the given device. A failure
    /// leaves the prior binding untouched; the sink is never touched.
    pub fn use_device(&mut self, device: &Device) -> (r: Result<(), PlayerError>)
        requires
            old(self).player.inv(),
        ensures
            final(self).player.inv(),
            final(self).player.sink_spec() == old(self).player.sink_spec(),
            final(self).playing_station == old(self).playing_station,
            final(self).active_device == old(self).active_device,
            (old(self).player.active_output_spec() matches Some(a) && a.device.id_spec()
                == device.id_spec()) ==> r is Ok && final(self).player.active_output_spec() == old(self).player.active_output_spec(),
            r is Err ==> final(self).player.active_output_spec() == old(self).player.active_output_spec(),
            r is Ok ==> (final(self).player.active_output_spec() matches Some(a)
                && a.device.id_spec() == device.id_spec()),
    {
        self.player.use_device(device)
    }
}

/// Finds the active device among the player's enumeration, as the
/// application remembers it at startup.
fn find_active<P: Player>(player: &P) -> (r: Result<Option<Device>, PlayerError>)
    requires
        player.inv(),
    ensures
        r matches Ok(d) ==> (d matches Some(d) ==> d.is_active_spec()),
{
    let ds = match player.devices() {
        Ok(ds) => ds,
        Err(e) => {
            return Err(e);
        },
    };
    let mut i: usize = 0;
    while i < ds.len()
        invariant
            i <= ds@.len(),
            forall|j: int|
                0 <= j < ds@.len() ==> ((#[trigger] ds@[j]).is_active_spec() <==> (
                player.active_output_spec() matches Some(a) && a.device.id_spec()
                    == ds@[j].id_spec())),
        decreases ds@.len() - i,
    {
        if ds[i].is_active() {
            return Ok(Some(ds[i].clone()));
        }
        i = i + 1;
    }
    Ok(None)
}

} // verus!
