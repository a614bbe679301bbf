//! Telemetry as the network delivers it, and a stand-in source for running
//! without a network.

use crate::aircraft::{spec_texts, Aircraft, AircraftModel};
use crate::clock::{checked_timestamp, datetime_from_timestamp, unix_now};
use crate::geo::Location;
use vstd::prelude::*;
use vstd::string::*;

verus! {

/// One state vector as the telemetry service reports it. The service has
/// no way to leave a field out: an empty text, an instant that is not
/// positive and a measurement of zero each stand for "not reported".
/// Angles of position are in millionths of a degree, the other measurements
/// in thousandths of their unit, instants in seconds since the Unix epoch.
#[derive(Clone, Debug, PartialEq, Eq)]
pub struct StateData {
    pub icao24: String,
    pub callsign: String,
    pub origin_country: String,
    pub time_position: i64,
    pub time_velocity: i64,
    pub longitude: i64,
    pub latitude: i64,
    pub altitude: i64,
    pub velocity: i64,
    pub true_track: i64,
    pub vertical_rate: i64,
    pub sensors: Vec<String>,
    pub geo_altitude: i64,
    pub squawk: String,
    pub spi: bool,
    pub position_source: i32,
    pub category: i32,
}

/// A reported text: missing if empty.
pub open spec fn spec_reported_text(text: Seq<char>) -> Option<Seq<char>> {
    if text.len() == 0 {
        None
    } else {
        Some(text)
    }
}

/// A reported measurement: missing if zero.
pub open spec fn spec_reported_measure(value: i64) -> Option<i64> {
    if value != 0 {
        Some(value)
    } else {
        None
    }
}

/// A reported instant, given what the calendar makes of it: missing if not
/// positive; the instant `now` stands in for one that the calendar rejects.
pub open spec fn spec_resolved_instant(secs: i64, checked: Option<i64>, now: i64) -> Option<i64> {
    if secs > 0 {
        match checked {
            Some(instant) => Some(instant),
            None => Some(now),
        }
    } else {
        None
    }
}

/// A reported instant: missing if not positive; the instant `now` stands in
/// for one that lies outside the calendar.
pub open spec fn spec_reported_instant(secs: i64, now: i64) -> Option<i64> {
    spec_resolved_instant(secs, datetime_from_timestamp(secs), now)
}

/// The aircraft that a state vector describes, read at the instant `now`.
pub open spec fn spec_from_state(state: StateData, now: i64) -> AircraftModel {
    AircraftModel {
        icao24: state.icao24@,
        callsign: spec_reported_text(state.callsign@),
        origin_country: spec_reported_text(state.origin_country@),
        time_position: spec_reported_instant(state.time_position, now),
        time_velocity: spec_reported_instant(state.time_velocity, now),
        longitude: spec_reported_measure(state.longitude),
        latitude: spec_reported_measure(state.latitude),
        altitude: spec_reported_measure(state.altitude),
        velocity: spec_reported_measure(state.velocity),
        true_track: spec_reported_measure(state.true_track),
        vertical_rate: spec_reported_measure(state.vertical_rate),
        sensors: if state.sensors@.len() == 0 {
            None
        } else {
            Some(spec_texts(state.sensors@))
        },
        geo_altitude: spec_reported_measure(state.geo_altitude),
        squawk: spec_reported_text(state.squawk@),
        spi: Some(state.spi),
        position_source: Some(state.position_source),
        category: Some(state.category),
    }
}

/// A reported text: missing if empty.
fn reported_text(text: String) -> (reported: Option<String>)
    ensures
        crate::aircraft::spec_text(reported) == spec_reported_text(text@),
{
    if text.as_str().is_empty() {
        None
    } else {
        Some(text)
    }
}

/// A reported measurement: missing if zero.
#[verifier::when_used_as_spec(spec_reported_measure)]
pub fn reported_measure(value: i64) -> (reported: Option<i64>)
    ensures
        reported == spec_reported_measure(value),
{
    if value != 0 {
        Some(value)
    } else {
        None
    }
}

/// A reported instant, given what the calendar makes of it.
#[verifier::when_used_as_spec(spec_resolved_instant)]
pub fn resolved_instant(secs: i64, checked: Option<i64>, now: i64) -> (reported: Option<i64>)
    ensures
        reported == spec_resolved_instant(secs, checked, now),
{
    if secs > 0 {
        match checked {
            Some(instant) => Some(instant),
            None => Some(now),
        }
    } else {
        None
    }
}

/// A reported instant: missing if not positive; `now` stands in for one
/// that lies outside the calendar.
pub fn reported_instant(secs: i64, now: i64) -> (reported: Option<i64>)
    ensures
        reported == spec_reported_instant(secs, now),
        secs > 0 ==> reported == Some(secs) || reported == Some(now),
        secs <= 0 ==> reported is None,
{
    resolved_instant(secs, checked_timestamp(secs), now)
}

impl Aircraft {
    /// The aircraft that a state vector describes, read at the instant `now`.
    pub fn from_state_at(state: StateData, now: i64) -> (aircraft: Aircraft)
        ensures
            aircraft@ == spec_from_state(state, now),
    {
        let sensors = if state.sensors.is_empty() {
            None
        } else {
            Some(state.sensors)
        };
        Aircraft {
            icao24: state.icao24,
            callsign: reported_text(state.callsign),
            origin_country: reported_text(state.origin_country),
            time_position: reported_instant(state.time_position, now),
            time_velocity: reported_instant(state.time_velocity, now),
            longitude: reported_measure(state.longitude),
            latitude: reported_measure(state.latitude),
            altitude: reported_measure(state.altitude),
            velocity: reported_measure(state.velocity),
            true_track: reported_measure(state.true_track),
            vertical_rate: reported_measure(state.vertical_rate),
            sensors,
            geo_altitude: reported_measure(state.geo_altitude),
            squawk: reported_text(state.squawk),
            spi: Some(state.spi),
            position_source: Some(state.position_source),
            category: Some(state.category),
        }
    }

    /// The aircraft that a state vector describes, read by the system clock.
    pub fn from_state(state: StateData) -> (aircraft: Aircraft)
        ensures
            exists|now: i64| aircraft@ == spec_from_state(state, now),
    {
        let now = unix_now();
        Aircraft::from_state_at(state, now)
    }
}

/// The first of the aircraft that the service answered with, if any.
pub fn first_aircraft(states: Vec<StateData>, now: i64) -> (aircraft: Option<Aircraft>)
    ensures
        states@.len() == 0 ==> aircraft is None,
        states@.len() > 0 ==> aircraft is Some && aircraft->0@ == spec_from_state(states@[0], now),
{
    let mut states = states;
    if states.len() > 0 {
        let first = states.swap_remove(0);
        Some(Aircraft::from_state_at(first, now))
    } else {
        None
    }
}

/// A telemetry source that needs no network: it always reports the same two
/// aircraft over San Francisco, as of the instant it is asked.
#[derive(Clone, Copy, Debug, PartialEq, Eq, Structural)]
pub struct MockApi;

/// The first of the two aircraft that the stand-in source reports.
pub open spec fn spec_mock_first(now: i64) -> AircraftModel {
    AircraftModel {
        icao24: "a12345"@,
        callsign: Some("TEST123"@),
        origin_country: Some("United States"@),
        time_position: Some(now),
        time_velocity: Some(now),
        longitude: Some(-122_419_400i64),
        latitude: Some(37_774_900i64),
        altitude: Some(35_000_000i64),
        velocity: Some(450_000i64),
        true_track: Some(90_000i64),
        vertical_rate: Some(0i64),
        sensors: Some(seq!["ADSB"@]),
        geo_altitude: Some(35_000_000i64),
        squawk: Some("1234"@),
        spi: Some(false),
        position_source: Some(0i32),
        category: Some(0i32),
    }
}

/// The second of the two aircraft that the stand-in source reports.
pub open spec fn spec_mock_second(now: i64) -> AircraftModel {
    AircraftModel {
        icao24: "b67890"@,
        callsign: Some("DEMO456"@),
        origin_country: Some("Canada"@),
        time_position: Some(now),
        time_velocity: Some(now),
        longitude: Some(-122_400_000i64),
        latitude: Some(37_780_000i64),
        altitude: Some(28_000_000i64),
        velocity: Some(380_000i64),
        true_track: Some(180_000i64),
        vertical_rate: Some(-500_000i64),
        sensors: Some(seq!["ADSB"@]),
        geo_altitude: Some(28_000_000i64),
        squawk: Some("5678"@),
        spi: Some(false),
        position_source: Some(0i32),
        category: Some(0i32),
    }
}

/// What the stand-in source reports at the instant `now`.
pub open spec fn spec_mock_aircraft(now: i64) -> Seq<AircraftModel> {
    seq![spec_mock_first(now), spec_mock_second(now)]
}

/// The receivers of a stand-in aircraft.
fn mock_sensors() -> (sensors: Option<Vec<String>>)
    ensures
        sensors is Some,
        spec_texts(sensors->0@) == seq!["ADSB"@],
{
    let mut list: Vec<String> = Vec::new();
    list.push(String::from_str("ADSB"));
    assert(spec_texts(list@) =~= seq!["ADSB"@]);
    Some(list)
}

impl MockApi {
    /// The stand-in source.
    pub fn new() -> (api: MockApi)
        ensures
            api == MockApi,
    {
        MockApi
    }

    /// The two stand-in aircraft, as of the instant `now`.
    pub fn mock_aircraft_at(&self, now: i64) -> (aircraft: Vec<Aircraft>)
        ensures
            aircraft@.map_values(|a: Aircraft| a@) == spec_mock_aircraft(now),
    {
        let first = Aircraft {
            icao24: String::from_str("a12345"),
            callsign: Some(String::from_str("TEST123")),
            origin_country: Some(String::from_str("United States")),
            time_position: Some(now),
            time_velocity: Some(now),
            longitude: Some(-122_419_400),
            latitude: Some(37_774_900),
            altitude: Some(35_000_000),
            velocity: Some(450_000),
            true_track: Some(90_000),
            vertical_rate: Some(0),
            sensors: mock_sensors(),
            geo_altitude: Some(35_000_000),
            squawk: Some(String::from_str("1234")),
            spi: Some(false),
            position_source: Some(0),
            category: Some(0),
        };
        let second = Aircraft {
            icao24: String::from_str("b67890"),
            callsign: Some(String::from_str("DEMO456")),
            origin_country: Some(String::from_str("Canada")),
            time_position: Some(now),
            time_velocity: Some(now),
            longitude: Some(-122_400_000),
            latitude: Some(37_780_000),
            altitude: Some(28_000_000),
            velocity: Some(380_000),
            true_track: Some(180_000),
            vertical_rate: Some(-500_000),
            sensors: mock_sensors(),
            geo_altitude: Some(28_000_000),
            squawk: Some(String::from_str("5678")),
            spi: Some(false),
            position_source: Some(0),
            category: Some(0),
        };
        assert(first@ == spec_mock_first(now));
        assert(second@ == spec_mock_second(now));
        let mut aircraft: Vec<Aircraft> = Vec::new();
        aircraft.push(first);
        aircraft.push(second);
        assert(aircraft@.map_values(|a: Aircraft| a@) =~= spec_mock_aircraft(now));
        aircraft
    }

    /// The two stand-in aircraft, as of the system clock, wherever the radar
    /// stands and however far it looks.
    pub fn get_aircraft_in_radius(&self, _location: &Location, _radius_km: u32) -> (aircraft: Vec<
        Aircraft,
    >)
        ensures
            exists|now: i64| aircraft@.map_values(|a: Aircraft| a@) == spec_mock_aircraft(now),
    {
        let now = unix_now();
        self.mock_aircraft_at(now)
    }
}

} // verus!
