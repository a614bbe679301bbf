//! Geographic positions and named locations, in millionths of a degree.

use vstd::prelude::*;
use vstd::string::*;

verus! {

/// A point on the globe. Immutable value; both angles in millionths of a degree.
#[derive(Clone, Copy, Debug, PartialEq, Eq, Structural)]
pub struct GeoPosition {
    pub longitude: i64,
    pub latitude: i64,
}

impl GeoPosition {
    pub open spec fn spec_new(longitude: i64, latitude: i64) -> GeoPosition {
        GeoPosition { longitude, latitude }
    }

    /// A position from its longitude and latitude, in that order.
    #[verifier::when_used_as_spec(spec_new)]
    pub fn new(longitude: i64, latitude: i64) -> (p: GeoPosition)
        ensures
            p == Self::spec_new(longitude, latitude),
    {
        GeoPosition { longitude, latitude }
    }

    pub open spec fn spec_x(&self) -> i64 {
        self.longitude
    }

    /// The horizontal coordinate: the longitude.
    #[verifier::when_used_as_spec(spec_x)]
    pub fn x(&self) -> (x: i64)
        ensures
            x == self.longitude,
    {
        self.longitude
    }

    pub open spec fn spec_y(&self) -> i64 {
        self.latitude
    }

    /// The vertical coordinate: the latitude.
    #[verifier::when_used_as_spec(spec_y)]
    pub fn y(&self) -> (y: i64)
        ensures
            y == self.latitude,
    {
        self.latitude
    }
}

/// The origin of the radar: a position with an optional display name.
#[derive(Clone, Debug, PartialEq, Eq)]
pub struct Location {
    pub lat: i64,
    pub lon: i64,
    pub name: Option<String>,
}

impl Location {
    /// An unnamed location.
    pub fn new(lat: i64, lon: i64) -> (l: Location)
        ensures
            l.lat == lat,
            l.lon == lon,
            l.name is None,
    {
        Location { lat, lon, name: None }
    }

    /// A named location.
    pub fn with_name(lat: i64, lon: i64, name: String) -> (l: Location)
        ensures
            l.lat == lat,
            l.lon == lon,
            l.name == Some(name),
    {
        Location { lat, lon, name: Some(name) }
    }

    pub open spec fn spec_to_point(&self) -> GeoPosition {
        GeoPosition { longitude: self.lon, latitude: self.lat }
    }

    /// The position of this location.
    #[verifier::when_used_as_spec(spec_to_point)]
    pub fn to_point(&self) -> (p: GeoPosition)
        ensures
            p == self.spec_to_point(),
    {
        GeoPosition::new(self.lon, self.lat)
    }

    /// The unnamed location at `point`.
    pub fn from_point(point: GeoPosition) -> (l: Location)
        ensures
            l.lat == point.latitude,
            l.lon == point.longitude,
            l.name is None,
    {
        Location::new(point.y(), point.x())
    }

    /// The name to show for this location: its own, or `"Your Location"`.
    pub open spec fn spec_label(&self) -> Seq<char> {
        match self.name {
            Some(name) => name@,
            None => "Your Location"@,
        }
    }

    /// The name to show for this location: its own, or `"Your Location"`.
    pub fn label(&self) -> (text: String)
        ensures
            text@ == self.spec_label(),
    {
        match &self.name {
            Some(name) => name.clone(),
            None => String::from_str("Your Location"),
        }
    }

    /// San Francisco.
    pub fn san_francisco() -> (l: Location)
        ensures
            l.lat == 37_774_900,
            l.lon == -122_419_400,
            l.name is Some && l.name->0@ == "San Francisco"@,
    {
        Location::with_name(37_774_900, -122_419_400, String::from_str("San Francisco"))
    }

    /// New York.
    pub fn new_york() -> (l: Location)
        ensures
            l.lat == 40_712_800,
            l.lon == -74_006_000,
            l.name is Some && l.name->0@ == "New York"@,
    {
        Location::with_name(40_712_800, -74_006_000, String::from_str("New York"))
    }

    /// London.
    pub fn london() -> (l: Location)
        ensures
            l.lat == 51_507_400,
            l.lon == -127_800,
            l.name is Some && l.name->0@ == "London"@,
    {
        Location::with_name(51_507_400, -127_800, String::from_str("London"))
    }

    /// Tokyo.
    pub fn tokyo() -> (l: Location)
        ensures
            l.lat == 35_676_200,
            l.lon == 139_650_300,
            l.name is Some && l.name->0@ == "Tokyo"@,
    {
        Location::with_name(35_676_200, 139_650_300, String::from_str("Tokyo"))
    }

    /// Sydney.
    pub fn sydney() -> (l: Location)
        ensures
            l.lat == -33_868_800,
            l.lon == 151_209_300,
            l.name is Some && l.name->0@ == "Sydney"@,
    {
        Location::with_name(-33_868_800, 151_209_300, String::from_str("Sydney"))
    }
}

} // verus!
