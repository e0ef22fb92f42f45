//! The station model: a catalog or library entry describing a
//! playable stream endpoint, with its denormalized tag field.

use crate::text::{join_spec, split_spec, trim_spec};
use vstd::prelude::*;

verus! {

/// The tag list of a station. It round-trips with the persistent
/// store's denormalized form: a comma-joined string one way, a split
/// at the commas with each part trimmed the other way.
#[derive(Clone, Debug)]
pub struct Tags(Vec<String>);

impl View for Tags {
    type V = Seq<Seq<char>>;

    closed spec fn view(&self) -> Seq<Seq<char>> {
        Seq::new(self.0@.len(), |i: int| self.0@[i]@)
    }
}

impl Tags {
    /// How many tags there are.
    pub fn len(&self) -> (r: usize)
        ensures
            r == self@.len(),
    {
        self.0.len()
    }

    /// The tag at an index.
    pub fn tag(&self, i: usize) -> (r: &String)
        requires
            i < self@.len(),
        ensures
            r@ == self@[i as int],
    {
        &self.0[i]
    }

    /// The denormalized form: the tags joined with commas.
    pub fn to_string(&self) -> (r: String)
        ensures
            r@ == join_spec(self@),
    {
        let r = crate::text::join_commas(&self.0);
        proof {
            assert(Seq::new(self.0@.len(), |i: int| self.0@[i]@) =~= self@);
        }
        r
    }

    /// Splits the denormalized form at its commas and trims each
    /// part. This is the specified face of `From<String>`.
    pub fn from_csv(value: &str) -> (r: Tags)
        ensures
            r@ == split_spec(value@).map_values(|p: Seq<char>| trim_spec(p)),
    {
        let parts = crate::text::split_commas(value);
        let mut out: Vec<String> = Vec::new();
        let mut i: usize = 0;
        while i < parts.len()
            invariant
                i <= parts@.len(),
                out@.len() == i,
                parts@.len() == split_spec(value@).len(),
                forall|j: int| 0 <= j < parts@.len() ==> (#[trigger] parts@[j])@ == split_spec(
                    value@,
                )[j],
                forall|j: int| 0 <= j < i ==> (#[trigger] out@[j])@ == trim_spec(
                    split_spec(value@)[j],
                ),
            decreases parts@.len() - i,
        {
            out.push(crate::text::trim_str(parts[i].as_str()));
            i = i + 1;
        }
        let r = Tags(out);
        proof {
            assert(r@ =~= split_spec(value@).map_values(|p: Seq<char>| trim_spec(p)));
        }
        r
    }
}

impl From<String> for Tags {
    /// Splits the denormalized form at its commas and trims each part.
    fn from(value: String) -> (r: Tags) {
        Tags::from_csv(value.as_str())
    }
}

impl vstd::std_specs::convert::FromSpecImpl<String> for Tags {
    /// No spec-level function can name the `Vec<String>` built here,
    /// so the conversion is specified on `Tags::from_csv` instead.
    open spec fn obeys_from_spec() -> bool {
        false
    }

    closed spec fn from_spec(value: String) -> Tags {
        choose|t: Tags| t@ == split_spec(value@).map_values(|p: Seq<char>| trim_spec(p))
    }
}

impl From<&str> for Tags {
    /// Splits the denormalized form at its commas and trims each part.
    fn from(value: &str) -> (r: Tags) {
        Tags::from_csv(value)
    }
}

impl vstd::std_specs::convert::FromSpecImpl<&str> for Tags {
    /// As with `From<String>`: specified on `Tags::from_csv`.
    open spec fn obeys_from_spec() -> bool {
        false
    }

    closed spec fn from_spec(value: &str) -> Tags {
        choose|t: Tags| t@ == split_spec(value@).map_values(|p: Seq<char>| trim_spec(p))
    }
}

impl From<Vec<String>> for Tags {
    fn from(value: Vec<String>) -> (r: Tags) {
        Tags(value)
    }
}

impl vstd::std_specs::convert::FromSpecImpl<Vec<String>> for Tags {
    open spec fn obeys_from_spec() -> bool {
        true
    }

    closed spec fn from_spec(value: Vec<String>) -> Tags {
        Tags(value)
    }
}

impl PartialEq for Tags {
    /// Tag lists compare by their tags.
    fn eq(&self, other: &Self) -> (r: bool) {
        if self.0.len() != other.0.len() {
            proof {
                assert(self@.len() != other@.len());
            }
            return false;
        }
        let mut i: usize = 0;
        while i < self.0.len()
            invariant
                i <= self.0@.len(),
                self.0@.len() == other.0@.len(),
                forall|j: int| 0 <= j < i ==> (#[trigger] self.0@[j])@ == other.0@[j]@,
            decreases self.0@.len() - i,
        {
            if !self.0[i].eq(&other.0[i]) {
                proof {
                    assert(self@[i as int] != other@[i as int]);
                }
                return false;
            }
            i = i + 1;
        }
        proof {
            assert(self@ =~= other@);
        }
        true
    }
}

impl vstd::std_specs::cmp::PartialEqSpecImpl for Tags {
    open spec fn obeys_eq_spec() -> bool {
        true
    }

    open spec fn eq_spec(&self, other: &Self) -> bool {
        self@ == other@
    }
}

impl PartialEq for Station {
    /// Stations compare by all their fields.
    fn eq(&self, other: &Self) -> (r: bool) {
        self.id == other.id && self.provider.eq(&other.provider) && self.provider_id.eq(
            &other.provider_id,
        ) && self.name.eq(&other.name) && self.url.eq(&other.url) && self.codec.eq(&other.codec)
            && self.bitrate == other.bitrate && self.tags.eq(&other.tags) && self.country.eq(
            &other.country,
        )
    }
}

impl vstd::std_specs::cmp::PartialEqSpecImpl for Station {
    open spec fn obeys_eq_spec() -> bool {
        true
    }

    open spec fn eq_spec(&self, other: &Self) -> bool {
        &&& self.id == other.id
        &&& self.provider@ == other.provider@
        &&& self.provider_id@ == other.provider_id@
        &&& self.name@ == other.name@
        &&& self.url@ == other.url@
        &&& self.codec@ == other.codec@
        &&& self.bitrate == other.bitrate
        &&& self.tags@ == other.tags@
        &&& self.country@ == other.country@
    }
}

/// Law: a tag list survives the persistent store's denormalized form:
/// joining the tags with commas, then splitting at the commas and
/// trimming each part, restores the tags — for any non-empty list of
/// comma-free, already-trimmed tags. (A tag holding a comma cannot
/// survive the joined form, surrounding whitespace is stripped on the
/// way back, and an empty list joins to the empty string, which
/// splits as one empty tag.)
pub proof fn lemma_tags_round_trip(tags: Seq<Seq<char>>)
    requires
        tags.len() >= 1,
        forall|i: int, j: int|
            0 <= i < tags.len() && 0 <= j < tags[i].len() ==> #[trigger] tags[i][j] != ',',
        forall|i: int| 0 <= i < tags.len() ==> trim_spec(#[trigger] tags[i]) == tags[i],
    ensures
        split_spec(join_spec(tags)).map_values(|p: Seq<char>| trim_spec(p)) == tags,
{
    crate::text::lemma_split_join_round_trip(tags);
    assert(split_spec(join_spec(tags)).map_values(|p: Seq<char>| trim_spec(p)) =~= tags);
}

/// A station of the library or of a catalog.
#[derive(Clone, Debug)]
pub struct Station {
    /// The persistent store's key; zero until stored.
    pub id: i64,
    /// Which catalog the station came from.
    pub provider: String,
    /// The station's identity within its provider.
    pub provider_id: String,
    pub name: String,
    pub url: String,
    pub codec: String,
    pub bitrate: u32,
    pub tags: Tags,
    pub country: String,
}

/// How a station list may be ordered.
pub enum OrderBy {
    CreatedAt,
}

/// What a station search asks for.
pub struct StationsFilter {
    pub order_by: Option<OrderBy>,
    pub limit: Option<u32>,
    pub offset: Option<u32>,
}

impl Default for StationsFilter {
    /// No ordering, no limit, no offset.
    fn default() -> (r: Self)
        ensures
            r.order_by is None,
            r.limit is None,
            r.offset is None,
    {
        StationsFilter { order_by: None, limit: None, offset: None }
    }
}

/// A failure reported by a boundary collaborator: the catalog client
/// or the persistent store.
#[derive(Debug)]
pub struct ServiceError {
    pub message: String,
}

} // verus!
