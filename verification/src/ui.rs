//! What the interactive surface shows of the player: the playbar's
//! state and title line, which layout is active, and the datasources
//! the library browses. Rendering and input handling live outside the
//! library.

use crate::catalog::Client;
use crate::models::{ServiceError, Station, StationsFilter};
use crate::player::Player;
use crate::storage::Storage;
use crate::text::{dec_spec, trim_spec};
use vstd::prelude::*;

verus! {

/// Which pane the interactive surface shows.
#[derive(PartialEq, Eq, Structural)]
pub enum ActiveLayout {
    Library,
    Devices,
}

/// One of the places stations can be browsed from.
pub enum Datasource<S: Storage, C: Client> {
    Storage(S),
    Client(C),
}

impl<S: Storage, C: Client> Datasource<S, C> {
    /// The datasource's display name: the stored library, or the
    /// catalog client under its own name.
    pub fn name(&self) -> (r: String)
        ensures
            self matches Datasource::Storage(_) ==> r@ == "📁 storage"@,
    {
        match self {
            Datasource::Storage(_) => String::from_str("📁 storage"),
            Datasource::Client(c) => {
                let mut r = String::from_str("🌐 ");
                r.append(c.name().as_str());
                r
            },
        }
    }

    /// Searches the datasource.
    pub fn search(&self, filter: &StationsFilter) -> (r: Result<Vec<Station>, ServiceError>) {
        match self {
            Datasource::Storage(v) => v.search(filter),
            Datasource::Client(v) => v.search(filter),
        }
    }
}

/// The playbar's title line: the play state padded to a fixed width,
/// then the device and the volume, the volume right-aligned to two
/// columns.
pub open spec fn title_spec(
    paused: bool,
    has_station: bool,
    device: Seq<char>,
    volume: int,
) -> Seq<char> {
    (if paused || !has_station {
        "Paused "@
    } else {
        "Playing"@
    }) + " ("@ + device + " | Volume: "@ + (if volume < 10 {
        " "@ + dec_spec(volume)
    } else {
        dec_spec(volume)
    }) + "%)"@
}

/// What the playbar shows: the player's settings as last read, and
/// the station asked to play.
pub struct Playbar {
    is_paused: bool,
    volume: i8,
    device: String,
    station: Option<String>,
}

impl Playbar {
    pub closed spec fn paused_spec(&self) -> bool {
        self.is_paused
    }

    pub closed spec fn volume_spec(&self) -> int {
        self.volume as int
    }

    pub closed spec fn device_spec(&self) -> Seq<char> {
        self.device@
    }

    /// The shown station name, if one is playing.
    pub closed spec fn station_spec(&self) -> Option<Seq<char>> {
        match self.station {
            Some(s) => Some(s@),
            None => None,
        }
    }

    pub open spec fn wf(&self) -> bool {
        0 <= self.volume_spec() <= 100
    }

    /// The name of the player's bound device, or "NONE".
    pub fn device_name<P: Player>(player: &P) -> (r: String)
        requires
            player.inv(),
        ensures
            player.active_output_spec() matches Some(a) ==> r@ == a.device.id_spec(),
            player.active_output_spec() is None ==> r@ == "NONE"@,
    {
        match player.active_device() {
            Some(d) => String::from_str(d.id()),
            None => String::from_str("NONE"),
        }
    }

    /// Reads the player's settings into a fresh playbar with no
    /// station shown.
    pub fn new<P: Player>(player: &P) -> (r: Playbar)
        requires
            player.inv(),
        ensures
            r.wf(),
            r.paused_spec() == player.sink_spec().paused,
            r.volume_spec() == player.sink_spec().volume,
            player.active_output_spec() matches Some(a) ==> r.device_spec() == a.device.id_spec(),
            player.active_output_spec() is None ==> r.device_spec() == "NONE"@,
            r.station_spec() is None,
    {
        Playbar {
            is_paused: player.is_paused(),
            volume: player.volume(),
            device: Self::device_name(player),
            station: None,
        }
    }

    /// Reads the player's settings again; the shown station stays.
    pub fn set_player_settings<P: Player>(&mut self, player: &P)
        requires
            player.inv(),
        ensures
            final(self).wf(),
            final(self).paused_spec() == player.sink_spec().paused,
            final(self).volume_spec() == player.sink_spec().volume,
            player.active_output_spec() matches Some(a) ==> final(self).device_spec()
                == a.device.id_spec(),
            player.active_output_spec() is None ==> final(self).device_spec() == "NONE"@,
            final(self).station_spec() == old(self).station_spec(),
    {
        self.is_paused = player.is_paused();
        self.volume = player.volume();
        self.device = Self::device_name(player);
    }

    /// Shows a station's name, trimmed, or clears it.
    pub fn set_station(&mut self, station: Option<&Station>)
        ensures
            station matches Some(s) ==> final(self).station_spec() == Some(trim_spec(s.name@)),
            station is None ==> final(self).station_spec() is None,
            final(self).paused_spec() == old(self).paused_spec(),
            final(self).volume_spec() == old(self).volume_spec(),
            final(self).device_spec() == old(self).device_spec(),
            final(self).wf() == old(self).wf(),
    {
        self.station = match station {
            Some(s) => Some(crate::text::trim_str(s.name.as_str())),
            None => None,
        };
    }

    /// The shown station name, as set by `set_station`.
    pub fn station_name(&self) -> (r: &Option<String>)
        ensures
            *r is Some <==> self.station_spec() is Some,
            *r matches Some(s) ==> self.station_spec() == Some(s@),
    {
        &self.station
    }

    /// The playbar's title line.
    pub fn get_title(&self) -> (r: String)
        requires
            self.wf(),
        ensures
            r@ == title_spec(
                self.paused_spec(),
                self.station_spec() is Some,
                self.device_spec(),
                self.volume_spec(),
            ),
    {
        let mut r = if self.is_paused || self.station.is_none() {
            String::from_str("Paused ")
        } else {
            String::from_str("Playing")
        };
        r.append(" (");
        r.append(self.device.as_str());
        r.append(" | Volume: ");
        if self.volume < 10 {
            r.append(" ");
        }
        r.append(crate::text::u32_to_string(self.volume as u32).as_str());
        r.append("%)");
        proof {
            assert(r@ =~= title_spec(
                self.paused_spec(),
                self.station_spec() is Some,
                self.device_spec(),
                self.volume_spec(),
            ));
        }
        r
    }
}

} // verus!
