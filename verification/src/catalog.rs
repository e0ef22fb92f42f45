//! The station catalog boundary: the client interface, the query a
//! search sends, and the filtering of catalog answers down to codecs
//! the decoder source covers.

use crate::models::{OrderBy, ServiceError, Station, StationsFilter, Tags};
use crate::text::{dec_spec, split_spec, trim_spec};
use vstd::prelude::*;

verus! {

/// The provider name of the radio-browser catalog.
pub fn provider_name() -> (r: &'static str)
    ensures
        r@ == "radio-browser"@,
{
    "radio-browser"
}

/// A station catalog: a remote service searched over HTTPS and
/// answered in JSON. The production client performs that I/O outside
/// the library and hands stations back as plain values.
pub trait Client: Sized {
    /// The provider's name.
    fn name(&self) -> (r: String);

    /// Searches the catalog.
    fn search(&self, filter: &StationsFilter) -> (r: Result<Vec<Station>, ServiceError>);
}

/// What an order parameter says on the wire.
pub open spec fn order_param_spec(order_by: OrderBy) -> Seq<char> {
    match order_by {
        OrderBy::CreatedAt => Seq::empty(),
    }
}

pub fn order_param(order_by: &OrderBy) -> (r: &'static str)
    ensures
        r@ == order_param_spec(*order_by),
{
    proof {
        reveal_strlit("");
        assert(""@ =~= Seq::<char>::empty());
    }
    match order_by {
        OrderBy::CreatedAt => "",
    }
}

/// The query string of a catalog search: broken stations are always
/// hidden, then the filter's limit, offset and ordering, in that
/// order.
pub open spec fn search_query_spec(
    limit: Option<u32>,
    offset: Option<u32>,
    order_by: Option<OrderBy>,
) -> Seq<char> {
    "hidebroken=true"@ + (match limit {
        Some(l) => "&limit="@ + dec_spec(l as int),
        None => Seq::empty(),
    }) + (match offset {
        Some(o) => "&offset="@ + dec_spec(o as int),
        None => Seq::empty(),
    }) + (match order_by {
        Some(o) => "&order="@ + order_param_spec(o),
        None => Seq::empty(),
    })
}

/// Builds the query string a search sends.
pub fn search_query(filter: &StationsFilter) -> (r: String)
    ensures
        r@ == search_query_spec(filter.limit, filter.offset, filter.order_by),
{
    let mut r = String::from_str("hidebroken=true");
    match filter.limit {
        Some(l) => {
            r.append("&limit=");
            r.append(crate::text::u32_to_string(l).as_str());
        },
        None => {},
    }
    match filter.offset {
        Some(o) => {
            r.append("&offset=");
            r.append(crate::text::u32_to_string(o).as_str());
        },
        None => {},
    }
    match &filter.order_by {
        Some(o) => {
            r.append("&order=");
            r.append(order_param(o));
        },
        None => {},
    }
    proof {
        assert(r@ =~= search_query_spec(filter.limit, filter.offset, filter.order_by));
    }
    r
}

/// Whether the decoder source covers a codec label.
pub open spec fn codec_supported_spec(codec: Seq<char>) -> bool {
    codec == "MP3"@ || codec == "FLAC"@
}

pub fn codec_supported(codec: &String) -> (r: bool)
    ensures
        r == codec_supported_spec(codec@),
{
    let mp3 = String::from_str("MP3");
    let flac = String::from_str("FLAC");
    codec.eq(&mp3) || codec.eq(&flac)
}

/// The stations whose codec the decoder source covers, in order.
pub open spec fn supported_filter(stations: Seq<Station>) -> Seq<Station> {
    stations.filter(|s: Station| codec_supported_spec(s.codec@))
}

/// Keeps the stations the engine can actually play.
pub fn filter_supported(stations: Vec<Station>) -> (r: Vec<Station>)
    ensures
        r@ == supported_filter(stations@),
{
    let ghost orig = stations@;
    let mut stations = stations;
    let mut out: Vec<Station> = Vec::new();
    let ghost mut k: int = 0;
    proof {
        reveal(Seq::filter);
        assert(supported_filter(orig.take(0)) =~= Seq::<Station>::empty());
    }
    while stations.len() > 0
        invariant
            0 <= k <= orig.len(),
            stations@ =~= orig.skip(k),
            out@ == supported_filter(orig.take(k)),
        decreases stations@.len(),
    {
        let s = stations.remove(0);
        proof {
            assert(s == orig[k]);
        }
        let keep = codec_supported(&s.codec);
        proof {
            reveal(Seq::filter);
            assert(orig.take(k + 1).drop_last() =~= orig.take(k));
            assert(orig.take(k + 1).last() == orig[k]);
        }
        if keep {
            out.push(s);
        }
        proof {
            k = k + 1;
            assert(stations@ =~= orig.skip(k));
        }
    }
    proof {
        assert(orig.take(orig.len() as int) =~= orig);
    }
    out
}

/// Builds a library station from the plain fields of one catalog
/// answer: unsaved (id zero), provided by the radio-browser catalog,
/// its denormalized tag field split and trimmed.
pub fn station_from_catalog(
    uuid: String,
    name: String,
    url: String,
    codec: String,
    bitrate: u32,
    tags: String,
    country: String,
) -> (r: Station)
    ensures
        r.id == 0,
        r.provider@ == "radio-browser"@,
        r.provider_id == uuid,
        r.name == name,
        r.url == url,
        r.codec == codec,
        r.bitrate == bitrate,
        r.tags@ == split_spec(tags@).map_values(|p: Seq<char>| trim_spec(p)),
        r.country == country,
{
    Station {
        id: 0,
        provider: String::from_str(provider_name()),
        provider_id: uuid,
        name,
        url,
        codec,
        bitrate,
        tags: Tags::from_csv(tags.as_str()),
        country,
    }
}

} // verus!
