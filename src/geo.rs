use vstd::prelude::*;

use crate::forecast::Coordinates;

verus! {

/// The IP-geolocation lookup, asking for coordinates and place names only.
pub const IP_LOCATION_URL: &'static str = "http://ip-api.com/json?fields=lat,lon,city,regionName";

/// Where the coordinates of a refresh come from.
#[derive(Clone, Debug, PartialEq, Eq)]
pub enum LocationSource {
    /// The configured coordinates, used without any lookup.
    Configured(Coordinates),
    /// A lookup of the caller's public address, made afresh on every refresh.
    IpLookup,
}

/// What an IP-geolocation lookup reported: coordinates, and the city and
/// region names where the service gave them.
#[derive(Clone, Debug, PartialEq, Eq)]
pub struct IpLocation {
    pub coordinates: Coordinates,
    pub city: Option<String>,
    pub region: Option<String>,
}

/// The source of coordinates for a refresh.
pub open spec fn source_of(use_ip_location: bool, configured: Coordinates) -> LocationSource {
    if use_ip_location {
        LocationSource::IpLookup
    } else {
        LocationSource::Configured(configured)
    }
}

/// Decides where a refresh takes its coordinates from: an IP lookup when
/// `use_ip_location` is set, else `configured` as it is.
pub fn resolve(use_ip_location: bool, configured: Coordinates) -> (r: LocationSource)
    ensures
        r == source_of(use_ip_location, configured),
{
    if use_ip_location {
        LocationSource::IpLookup
    } else {
        LocationSource::Configured(configured)
    }
}

} // verus!
