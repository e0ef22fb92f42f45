//! A terminal radio-station browser and player.
//!
//! The heart of the crate is the streaming playback engine: a decoder
//! source that turns decoded packets into a lazy sample sequence, a
//! cooperative-cancellation wrapper around it, a continuously draining
//! output sink with pause/resume/volume control, and a device manager
//! that binds the sink to a host output device. Around it sit the
//! station model, the catalog query builder, and the command facade
//! that the interactive surface talks to.

pub mod cancel;
pub mod catalog;
pub mod engine;
pub mod facade;
pub mod laws;
pub mod models;
pub mod player;
pub mod sim;
pub mod sink;
pub mod source;
pub mod storage;
pub mod text;
pub mod ui;
