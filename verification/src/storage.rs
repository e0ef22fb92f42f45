//! The persistent station library boundary: create, search, update
//! and delete over an embedded relational store keyed by an integer
//! id. The production store performs the I/O outside the library;
//! station records cross this boundary as plain values, their tag
//! lists in the denormalized comma-joined form the model round-trips.

use crate::models::{ServiceError, Station, StationsFilter};
use vstd::prelude::*;

verus! {

/// The persistent station library.
pub trait Storage: Sized {
    /// Stores a new station and returns its id.
    fn create(&mut self, station: &Station) -> (r: Result<i64, ServiceError>);

    /// Searches the stored stations by filter.
    fn search(&self, filter: &StationsFilter) -> (r: Result<Vec<Station>, ServiceError>);

    /// Updates a stored station in place, keyed by its id.
    fn update(&mut self, station: &Station) -> (r: Result<(), ServiceError>);

    /// Removes a station by id.
    fn delete(&mut self, station_id: i64) -> (r: Result<(), ServiceError>);
}

} // verus!
