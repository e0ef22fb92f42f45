//! The engine's cross-cutting guarantees, stated and proved once.
//!
//! Each law here speaks over the same models the executable contracts
//! use, so what a law gives is exactly what the functions promise.

use crate::engine::{Engine, Host};
use crate::player::{Device, Player};
use crate::sink::{clamp_volume, pull_model, SinkModel};
use vstd::prelude::*;

verus! {

/// The sink and stop flag after `n` pulls by the draining path, with
/// no packet handed in between.
pub open spec fn pulls(s: SinkModel, stop: bool, n: nat) -> (SinkModel, bool)
    decreases n,
{
    if n == 0 {
        (s, stop)
    } else {
        let (s2, stop2, _e) = pull_model(s, stop);
        pulls(s2, stop2, (n - 1) as nat)
    }
}

/// Law: for every volume input, setting the volume and reading it
/// back yields the input clamped into [0, 100]. `set_volume` leaves
/// the sink in exactly the model below, and `volume` returns that
/// model's `volume` field.
pub proof fn lemma_set_volume_then_volume(s: SinkModel, volume: i8)
    ensures
        (SinkModel { volume: clamp_volume(volume as int), ..s }).volume == clamp_volume(
            volume as int,
        ),
        0 <= clamp_volume(volume as int) <= 100,
{
}

/// A sink with an empty queue idles: pulling changes nothing.
pub proof fn lemma_empty_queue_idles(s: SinkModel, stop: bool, n: nat)
    requires
        s.queue.len() == 0,
    ensures
        pulls(s, stop, n).0 == s,
    decreases n,
{
    if n > 0 {
        lemma_empty_queue_idles(s, stop, (n - 1) as nat);
    }
}

/// Law: once a stop is requested, an unpaused sink with one queued
/// source reaches queue depth zero within one cancellation-check
/// interval: at most `period` further pulls, counted from the last
/// check — whether the source is mid-buffer, waiting for a packet, or
/// already over. (A paused sink pulls nothing and is exempt.)
pub proof fn lemma_stop_drains(s: SinkModel, n: nat)
    requires
        s.wf(),
        !s.paused,
        s.queue.len() == 1,
        n >= s.queue[0].period - s.queue[0].since_check,
    ensures
        pulls(s, true, n).0.queue.len() == 0,
    decreases n,
{
    let c = s.queue[0];
    let (s2, stop2, e) = pull_model(s, true);
    if s2.queue.len() == 0 {
        lemma_empty_queue_idles(s2, stop2, (n - 1) as nat);
    } else {
        assert(!c.stopped && !(c.since_check + 1 >= c.period));
        assert(s2.queue.len() == 1);
        assert(s2.queue[0].since_check == c.since_check + 1);
        assert(s2.queue[0].period == c.period);
        assert(stop2);
        assert(s2.wf());
        assert(!s2.paused);
        lemma_stop_drains(s2, (n - 1) as nat);
    }
}

/// The delivered history only grows, and in place: whatever `n` pulls
/// do, the samples already delivered stay an unchanged prefix.
pub proof fn lemma_played_continues(s: SinkModel, stop: bool, n: nat)
    ensures
        pulls(s, stop, n).0.played.len() >= s.played.len(),
        pulls(s, stop, n).0.played.subrange(0, s.played.len() as int) == s.played,
    decreases n,
{
    if n > 0 {
        let (s2, stop2, _e) = pull_model(s, stop);
        lemma_played_continues(s2, stop2, (n - 1) as nat);
        let t = pulls(s2, stop2, (n - 1) as nat).0;
        assert forall|i: int| 0 <= i < s.played.len() implies t.played[i] == s.played[i] by {
            assert(t.played.subrange(0, s2.played.len() as int)[i] == t.played[i]);
            assert(s2.played[i] == s.played[i]);
        }
        assert(t.played.subrange(0, s.played.len() as int) =~= s.played);
    }
}

/// Law: a device switch issued mid-playback does not terminate or
/// restart the playing source. `use_device` keeps the sink and the
/// stop flag whatever it returns (its contract); two engine states
/// that agree on those — the engine before and after a switch — see
/// identical results from every later pull, and the samples already
/// delivered stay in place, so the stream continues where the
/// outgoing device left off.
pub proof fn lemma_switch_mid_playback<H: Host>(before: Engine<H>, after: Engine<H>, n: nat)
    requires
        after.sink_spec() == before.sink_spec(),
        after.stop_pending_spec() == before.stop_pending_spec(),
    ensures
        pulls(after.sink_spec(), after.stop_pending_spec(), n) == pulls(
            before.sink_spec(),
            before.stop_pending_spec(),
            n,
        ),
        pulls(after.sink_spec(), after.stop_pending_spec(), n).0.played.subrange(
            0,
            before.sink_spec().played.len() as int,
        ) == before.sink_spec().played,
{
    lemma_played_continues(after.sink_spec(), after.stop_pending_spec(), n);
}

/// How many devices of a list carry a given flag.
pub open spec fn count_flagged(ds: Seq<Device>, flagged: spec_fn(Device) -> bool) -> int
    decreases ds.len(),
{
    if ds.len() == 0 {
        0
    } else {
        count_flagged(ds.drop_last(), flagged) + if flagged(ds.last()) {
            1int
        } else {
            0int
        }
    }
}

proof fn lemma_count_flagged_none(ds: Seq<Device>, flagged: spec_fn(Device) -> bool)
    requires
        forall|j: int| 0 <= j < ds.len() ==> !flagged(#[trigger] ds[j]),
    ensures
        count_flagged(ds, flagged) == 0,
    decreases ds.len(),
{
    if ds.len() > 0 {
        lemma_count_flagged_none(ds.drop_last(), flagged);
    }
}

proof fn lemma_count_flagged_unique(ds: Seq<Device>, flagged: spec_fn(Device) -> bool, k: int)
    requires
        0 <= k < ds.len(),
        flagged(ds[k]),
        forall|j: int| 0 <= j < ds.len() && j != k ==> !flagged(#[trigger] ds[j]),
    ensures
        count_flagged(ds, flagged) == 1,
    decreases ds.len(),
{
    if k == ds.len() - 1 {
        lemma_count_flagged_none(ds.drop_last(), flagged);
    } else {
        lemma_count_flagged_unique(ds.drop_last(), flagged, k);
    }
}

/// Law: an enumeration marks exactly one entry as the default
/// whenever the host reports a default device whose name occurs
/// exactly once among the enumerated names. The first hypothesis is
/// what `snapshot_devices` (and so `devices`) ensures of every entry.
/// (When the reported default is duplicated or missing among the
/// names, the host itself is ambiguous and no such count exists.)
pub proof fn lemma_one_default(
    ds: Seq<Device>,
    names: Seq<Seq<char>>,
    dflt: Seq<char>,
    k: int,
)
    requires
        ds.len() == names.len(),
        forall|i: int|
            0 <= i < ds.len() ==> ((#[trigger] ds[i]).is_default_spec() <==> names[i] == dflt),
        0 <= k < names.len(),
        names[k] == dflt,
        forall|j: int| 0 <= j < names.len() && j != k ==> #[trigger] names[j] != dflt,
    ensures
        count_flagged(ds, |d: Device| d.is_default_spec()) == 1,
{
    lemma_count_flagged_unique(ds, |d: Device| d.is_default_spec(), k);
}

/// Law: once a `use_device` succeeded, an enumeration marks exactly
/// one entry as active, provided the bound device's name still occurs
/// exactly once among the enumerated names. The first hypothesis is
/// what `devices` ensures of every entry after a successful bind.
/// (A bound device that was unplugged since appears in no entry.)
pub proof fn lemma_one_active(
    ds: Seq<Device>,
    names: Seq<Seq<char>>,
    bound: Seq<char>,
    k: int,
)
    requires
        ds.len() == names.len(),
        forall|i: int|
            0 <= i < ds.len() ==> ((#[trigger] ds[i]).is_active_spec() <==> names[i] == bound),
        0 <= k < names.len(),
        names[k] == bound,
        forall|j: int| 0 <= j < names.len() && j != k ==> #[trigger] names[j] != bound,
    ensures
        count_flagged(ds, |d: Device| d.is_active_spec()) == 1,
{
    lemma_count_flagged_unique(ds, |d: Device| d.is_active_spec(), k);
}

} // verus!
