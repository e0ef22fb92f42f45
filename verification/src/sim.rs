//! A simulated host: a fixed device list, scripted failures, and
//! decoder sessions that start from a configured first packet.
//!
//! It gives the engine a host that touches no hardware, so that the
//! engine's behaviour can be exercised deterministically; the
//! production host, which performs the real I/O, lives outside the
//! library and answers the same interface.

use crate::engine::Host;
use crate::player::{PlayerError, StreamHandle};
use crate::source::DecoderSource;
use vstd::prelude::*;

verus! {

/// Copies a list of device names.
fn clone_names(names: &Vec<String>) -> (r: Vec<String>)
    ensures
        r@.len() == names@.len(),
        forall|i: int| 0 <= i < r@.len() ==> (#[trigger] r@[i])@ == names@[i]@,
{
    let mut result: Vec<String> = Vec::new();
    let mut i: usize = 0;
    while i < names.len()
        invariant
            i <= names@.len(),
            result@.len() == i,
            forall|j: int| 0 <= j < i ==> (#[trigger] result@[j])@ == names@[j]@,
        decreases names@.len() - i,
    {
        result.push(names[i].clone());
        i = i + 1;
    }
    result
}

/// Copies a sample buffer.
fn clone_samples(samples: &Vec<i16>) -> (r: Vec<i16>)
    ensures
        r@ == samples@,
{
    let mut result: Vec<i16> = Vec::new();
    let mut i: usize = 0;
    while i < samples.len()
        invariant
            i <= samples@.len(),
            result@ == samples@.subrange(0, i as int),
        decreases samples@.len() - i,
    {
        result.push(samples[i]);
        i = i + 1;
    }
    proof {
        assert(result@ =~= samples@);
    }
    result
}

/// The simulated host. Fields are plain so a test can script any
/// machine: which devices exist, which is the default, what the first
/// decoded packet of every opened session holds, and whether opening
/// a source or a stream fails.
pub struct SimHost {
    /// The output devices the host reports, in order.
    pub device_names: Vec<String>,
    /// The default device the host reports, if any.
    pub default_name: Option<String>,
    /// The first decoded packet of every session this host opens.
    pub first_packet: Vec<i16>,
    /// Identifier handed to the next opened session.
    pub next_session: u64,
    /// Identifier handed to the next opened stream.
    pub next_stream: u64,
    /// When set, opening a source fails, as an unreachable station
    /// would.
    pub fail_source: bool,
    /// When set, opening an output stream fails.
    pub fail_output: bool,
}

impl SimHost {
    /// A host with the given devices and default, two-channel
    /// CD-quality sessions and no scripted failures.
    pub fn new(device_names: Vec<String>, default_name: Option<String>, first_packet: Vec<i16>) -> (r:
        SimHost)
        ensures
            r.device_names == device_names,
            r.default_name == default_name,
            r.first_packet == first_packet,
            !r.fail_source,
            !r.fail_output,
    {
        SimHost {
            device_names,
            default_name,
            first_packet,
            next_session: 1,
            next_stream: 1,
            fail_source: false,
            fail_output: false,
        }
    }
}

impl Host for SimHost {
    fn output_device_names(&self) -> (r: Result<Vec<String>, PlayerError>) {
        Ok(clone_names(&self.device_names))
    }

    fn default_device_name(&self) -> (r: Option<String>) {
        match &self.default_name {
            Some(d) => Some(d.clone()),
            None => None,
        }
    }

    fn open_output(&mut self, _name: &str) -> (r: Result<StreamHandle, PlayerError>) {
        if self.fail_output {
            return Err(PlayerError::OutputFailed);
        }
        let handle = StreamHandle { id: self.next_stream };
        self.next_stream = if self.next_stream == u64::MAX {
            0
        } else {
            self.next_stream + 1
        };
        Ok(handle)
    }

    fn open_source(&mut self, _url: &str) -> (r: Result<DecoderSource, PlayerError>) {
        if self.fail_source {
            return Err(PlayerError::SourceUnavailable);
        }
        let session = self.next_session;
        self.next_session = if self.next_session == u64::MAX {
            0
        } else {
            self.next_session + 1
        };
        Ok(DecoderSource::new(session, clone_samples(&self.first_packet), 2, 44100))
    }
}

} // verus!
