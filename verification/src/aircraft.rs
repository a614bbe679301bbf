//! Aircraft records, altitude bands and the bounded trail of one aircraft.

use crate::canvas::Color;
use crate::clock::unix_now;
use crate::geo::GeoPosition;
use crate::text::{
    is_blank, leading_whitespace, lemma_blank_is_trimmed_away, lemma_trimmed_is_the_core,
    spec_is_whitespace, trailing_whitespace, trim, trimmed,
};
use vstd::prelude::*;
use vstd::string::*;

verus! {

/// Seconds after which a position report counts as stale.
pub const STALE_AFTER_SECONDS: i64 = 300;

/// Altitude from which an aircraft counts as `Medium`, in thousandths of a foot.
pub const MEDIUM_FROM: i64 = 1_000_000;

/// Altitude from which an aircraft counts as `High`, in thousandths of a foot.
pub const HIGH_FROM: i64 = 10_000_000;

/// Altitude from which an aircraft counts as `VeryHigh`, in thousandths of a foot.
pub const VERY_HIGH_FROM: i64 = 25_000_000;

/// One aircraft as last reported. Angles of position are in millionths of a
/// degree, the other measurements in thousandths of their unit, instants in
/// seconds since the Unix epoch.
#[derive(Clone, Debug, PartialEq, Eq)]
pub struct Aircraft {
    pub icao24: String,
    pub callsign: Option<String>,
    pub origin_country: Option<String>,
    pub time_position: Option<i64>,
    pub time_velocity: Option<i64>,
    pub longitude: Option<i64>,
    pub latitude: Option<i64>,
    pub altitude: Option<i64>,
    pub velocity: Option<i64>,
    pub true_track: Option<i64>,
    pub vertical_rate: Option<i64>,
    pub sensors: Option<Vec<String>>,
    pub geo_altitude: Option<i64>,
    pub squawk: Option<String>,
    pub spi: Option<bool>,
    pub position_source: Option<i32>,
    pub category: Option<i32>,
}

/// The mathematical content of an [`Aircraft`].
pub struct AircraftModel {
    pub icao24: Seq<char>,
    pub callsign: Option<Seq<char>>,
    pub origin_country: Option<Seq<char>>,
    pub time_position: Option<i64>,
    pub time_velocity: Option<i64>,
    pub longitude: Option<i64>,
    pub latitude: Option<i64>,
    pub altitude: Option<i64>,
    pub velocity: Option<i64>,
    pub true_track: Option<i64>,
    pub vertical_rate: Option<i64>,
    pub sensors: Option<Seq<Seq<char>>>,
    pub geo_altitude: Option<i64>,
    pub squawk: Option<Seq<char>>,
    pub spi: Option<bool>,
    pub position_source: Option<i32>,
    pub category: Option<i32>,
}

/// The text of an optional string.
pub open spec fn spec_text(s: Option<String>) -> Option<Seq<char>> {
    match s {
        Some(s) => Some(s@),
        None => None,
    }
}

/// The texts of a list of strings.
pub open spec fn spec_texts(list: Seq<String>) -> Seq<Seq<char>> {
    list.map_values(|s: String| s@)
}

impl View for Aircraft {
    type V = AircraftModel;

    open spec fn view(&self) -> AircraftModel {
        AircraftModel {
            icao24: self.icao24@,
            callsign: spec_text(self.callsign),
            origin_country: spec_text(self.origin_country),
            time_position: self.time_position,
            time_velocity: self.time_velocity,
            longitude: self.longitude,
            latitude: self.latitude,
            altitude: self.altitude,
            velocity: self.velocity,
            true_track: self.true_track,
            vertical_rate: self.vertical_rate,
            sensors: match self.sensors {
                Some(list) => Some(spec_texts(list@)),
                None => None,
            },
            geo_altitude: self.geo_altitude,
            squawk: spec_text(self.squawk),
            spi: self.spi,
            position_source: self.position_source,
            category: self.category,
        }
    }
}

impl Aircraft {
    /// An aircraft of which only the transponder id is known.
    pub fn new(icao24: String) -> (a: Aircraft)
        ensures
            a.icao24 == icao24,
            a.callsign is None,
            a.origin_country is None,
            a.time_position is None,
            a.time_velocity is None,
            a.longitude is None,
            a.latitude is None,
            a.altitude is None,
            a.velocity is None,
            a.true_track is None,
            a.vertical_rate is None,
            a.sensors is None,
            a.geo_altitude is None,
            a.squawk is None,
            a.spi is None,
            a.position_source is None,
            a.category is None,
    {
        Aircraft {
            icao24,
            callsign: None,
            origin_country: None,
            time_position: None,
            time_velocity: None,
            longitude: None,
            latitude: None,
            altitude: None,
            velocity: None,
            true_track: None,
            vertical_rate: None,
            sensors: None,
            geo_altitude: None,
            squawk: None,
            spi: None,
            position_source: None,
            category: None,
        }
    }

    pub open spec fn spec_has_position(&self) -> bool {
        self.longitude is Some && self.latitude is Some
    }

    /// Whether both coordinates are known.
    #[verifier::when_used_as_spec(spec_has_position)]
    pub fn has_position(&self) -> (known: bool)
        ensures
            known == self.spec_has_position(),
    {
        self.longitude.is_some() && self.latitude.is_some()
    }

    pub open spec fn spec_position(&self) -> Option<GeoPosition> {
        if self.longitude is Some && self.latitude is Some {
            Some(GeoPosition { longitude: self.longitude->0, latitude: self.latitude->0 })
        } else {
            None
        }
    }

    /// The position, if both coordinates are known.
    #[verifier::when_used_as_spec(spec_position)]
    pub fn position(&self) -> (p: Option<GeoPosition>)
        ensures
            p == self.spec_position(),
    {
        match (self.longitude, self.latitude) {
            (Some(lon), Some(lat)) => Some(GeoPosition::new(lon, lat)),
            _ => None,
        }
    }

    pub open spec fn spec_altitude_band(&self) -> AltitudeBand {
        AltitudeBand::spec_classify(self.altitude)
    }

    /// The band of this aircraft's altitude.
    #[verifier::when_used_as_spec(spec_altitude_band)]
    pub fn altitude_band(&self) -> (band: AltitudeBand)
        ensures
            band == self.spec_altitude_band(),
    {
        AltitudeBand::classify(self.altitude)
    }

    /// The label of this aircraft: its callsign without surrounding
    /// whitespace, or its transponder id where that leaves nothing.
    pub open spec fn spec_display_name(&self) -> Seq<char> {
        match self.callsign {
            Some(callsign) => if trimmed(callsign@).len() > 0 {
                trimmed(callsign@)
            } else {
                self.icao24@
            },
            None => self.icao24@,
        }
    }

    /// The label of this aircraft: its callsign without surrounding
    /// whitespace, or its transponder id where that leaves nothing.
    pub fn display_name(&self) -> (name: String)
        ensures
            name@ == self.spec_display_name(),
    {
        match &self.callsign {
            Some(callsign) => {
                let text = trim(callsign.as_str());
                if text.unicode_len() > 0 {
                    String::from_str(text)
                } else {
                    self.icao24.clone()
                }
            },
            None => self.icao24.clone(),
        }
    }

    /// Whether the last position report is less than
    /// [`STALE_AFTER_SECONDS`] older than `now`. An aircraft without a
    /// position report is never active.
    pub open spec fn spec_is_active_at(&self, now: i64) -> bool {
        match self.time_position {
            Some(reported) => now - reported < STALE_AFTER_SECONDS,
            None => false,
        }
    }

    /// Whether this aircraft reported its position less than
    /// [`STALE_AFTER_SECONDS`] before `now`.
    #[verifier::when_used_as_spec(spec_is_active_at)]
    pub fn is_active_at(&self, now: i64) -> (active: bool)
        ensures
            active == self.spec_is_active_at(now),
    {
        match self.time_position {
            Some(reported) => (now as i128) - (reported as i128) < (STALE_AFTER_SECONDS as i128),
            None => false,
        }
    }

    /// Whether this aircraft reported its position less than
    /// [`STALE_AFTER_SECONDS`] ago by the system clock.
    pub fn is_active(&self) -> (active: bool)
        ensures
            exists|now: i64| active == self.spec_is_active_at(now),
            self.time_position is None ==> !active,
    {
        let now = unix_now();
        self.is_active_at(now)
    }
}

/// An aircraft without a callsign, or with one of nothing but whitespace,
/// is shown under its transponder id.
pub proof fn lemma_blank_callsign_shows_id(aircraft: Aircraft)
    requires
        aircraft.callsign is Some ==> is_blank(aircraft.callsign->0@),
    ensures
        aircraft.spec_display_name() == aircraft.icao24@,
{
    if aircraft.callsign is Some {
        lemma_blank_is_trimmed_away(aircraft.callsign->0@);
    }
}

/// An aircraft whose callsign has a character that is not whitespace is
/// shown under the callsign without the whitespace around it.
pub proof fn lemma_callsign_is_shown_trimmed(aircraft: Aircraft)
    requires
        aircraft.callsign is Some,
        !is_blank(aircraft.callsign->0@),
    ensures
        aircraft.spec_display_name() == trimmed(aircraft.callsign->0@),
        aircraft.spec_display_name().len() > 0,
        !spec_is_whitespace(aircraft.spec_display_name().first()),
        !spec_is_whitespace(aircraft.spec_display_name().last()),
{
    let s = aircraft.callsign->0@;
    lemma_trimmed_is_the_core(s);
    let start = leading_whitespace(s) as int;
    let end = s.len() - trailing_whitespace(s.skip(start));
    if start == end {
        assert forall|i: int| 0 <= i < s.len() implies spec_is_whitespace(#[trigger] s[i]) by {
            if i < start {
                assert(s[i] == s.take(start)[i]);
            } else {
                assert(s[i] == s.skip(end)[i - end]);
            }
        }
    }
}

/// The band of an altitude.
#[derive(Clone, Copy, Debug, PartialEq, Eq, Structural)]
pub enum AltitudeBand {
    /// Below 1000 ft.
    Low,
    /// From 1000 ft, below 10000 ft.
    Medium,
    /// From 10000 ft, below 25000 ft.
    High,
    /// From 25000 ft.
    VeryHigh,
    /// No altitude reported.
    Unknown,
}

impl AltitudeBand {
    /// The band of an altitude in thousandths of a foot.
    pub open spec fn spec_classify(altitude: Option<i64>) -> AltitudeBand {
        match altitude {
            None => AltitudeBand::Unknown,
            Some(feet) => if feet < MEDIUM_FROM {
                AltitudeBand::Low
            } else if feet < HIGH_FROM {
                AltitudeBand::Medium
            } else if feet < VERY_HIGH_FROM {
                AltitudeBand::High
            } else {
                AltitudeBand::VeryHigh
            },
        }
    }

    /// The band of an altitude in thousandths of a foot.
    #[verifier::when_used_as_spec(spec_classify)]
    pub fn classify(altitude: Option<i64>) -> (band: AltitudeBand)
        ensures
            band == Self::spec_classify(altitude),
    {
        match altitude {
            None => AltitudeBand::Unknown,
            Some(feet) => if feet < MEDIUM_FROM {
                AltitudeBand::Low
            } else if feet < HIGH_FROM {
                AltitudeBand::Medium
            } else if feet < VERY_HIGH_FROM {
                AltitudeBand::High
            } else {
                AltitudeBand::VeryHigh
            },
        }
    }

    pub open spec fn spec_color(&self) -> Color {
        match self {
            AltitudeBand::Low => Color::spec_from_rgb(255, 255, 0),
            AltitudeBand::Medium => Color::spec_from_rgb(0, 255, 0),
            AltitudeBand::High => Color::spec_from_rgb(0, 255, 255),
            AltitudeBand::VeryHigh => Color::spec_from_rgb(255, 0, 255),
            AltitudeBand::Unknown => Color::spec_from_rgb(128, 128, 128),
        }
    }

    /// The colour in which aircraft of this band are drawn: yellow, green,
    /// cyan, magenta, and grey for an unknown altitude.
    #[verifier::when_used_as_spec(spec_color)]
    pub fn color(&self) -> (c: Color)
        ensures
            c == self.spec_color(),
    {
        match self {
            AltitudeBand::Low => Color::from_rgb(255, 255, 0),
            AltitudeBand::Medium => Color::from_rgb(0, 255, 0),
            AltitudeBand::High => Color::from_rgb(0, 255, 255),
            AltitudeBand::VeryHigh => Color::from_rgb(255, 0, 255),
            AltitudeBand::Unknown => Color::from_rgb(128, 128, 128),
        }
    }
}

/// The five bands split the altitudes without gap or overlap: a missing
/// altitude is `Unknown`, and each reported altitude lies in the one band
/// whose half-open interval holds it.
pub proof fn lemma_bands_partition(altitude: Option<i64>)
    ensures
        AltitudeBand::spec_classify(altitude) == AltitudeBand::Unknown <==> altitude is None,
        AltitudeBand::spec_classify(altitude) == AltitudeBand::Low <==> altitude is Some
            && altitude->0 < MEDIUM_FROM,
        AltitudeBand::spec_classify(altitude) == AltitudeBand::Medium <==> altitude is Some
            && MEDIUM_FROM <= altitude->0 < HIGH_FROM,
        AltitudeBand::spec_classify(altitude) == AltitudeBand::High <==> altitude is Some
            && HIGH_FROM <= altitude->0 < VERY_HIGH_FROM,
        AltitudeBand::spec_classify(altitude) == AltitudeBand::VeryHigh <==> altitude is Some
            && VERY_HIGH_FROM <= altitude->0,
{
}

/// One entry of a trail: where the aircraft was, and when.
pub type TrailPoint = (GeoPosition, i64);

/// `trail` after one more entry arrives: the entry is appended, and if that
/// makes the trail longer than `max_points`, its oldest entry leaves.
pub open spec fn spec_appended(trail: Seq<TrailPoint>, entry: TrailPoint, max_points: nat) -> Seq<
    TrailPoint,
> {
    let longer = trail.push(entry);
    if longer.len() > max_points {
        longer.skip(1)
    } else {
        longer
    }
}

/// `trail` after the `entries` arrive one by one, oldest first.
pub open spec fn spec_appended_all(
    trail: Seq<TrailPoint>,
    entries: Seq<TrailPoint>,
    max_points: nat,
) -> Seq<TrailPoint> {
    entries.fold_left(
        trail,
        |held: Seq<TrailPoint>, entry: TrailPoint| spec_appended(held, entry, max_points),
    )
}

/// The last `count` entries of `entries`, or all of them if there are fewer.
pub open spec fn spec_most_recent(entries: Seq<TrailPoint>, count: nat) -> Seq<TrailPoint> {
    if entries.len() <= count {
        entries
    } else {
        entries.skip(entries.len() - count)
    }
}

/// The recent history of one aircraft: at most `max_points` positions,
/// oldest first.
#[derive(Clone, Debug, PartialEq, Eq)]
pub struct AircraftTrail {
    pub icao24: String,
    pub positions: Vec<TrailPoint>,
    pub max_points: usize,
}

/// The mathematical content of an [`AircraftTrail`].
pub struct TrailModel {
    pub id: Seq<char>,
    pub points: Seq<TrailPoint>,
    pub max_points: nat,
}

impl View for AircraftTrail {
    type V = TrailModel;

    open spec fn view(&self) -> TrailModel {
        TrailModel {
            id: self.icao24@,
            points: self.positions@,
            max_points: self.max_points as nat,
        }
    }
}

impl AircraftTrail {
    /// Whether the trail is within its bound.
    pub open spec fn wf(&self) -> bool {
        self.positions@.len() <= self.max_points
    }

    /// An empty trail for one aircraft.
    pub fn new(icao24: String, max_points: usize) -> (trail: AircraftTrail)
        ensures
            trail.icao24 == icao24,
            trail.positions@ == Seq::<TrailPoint>::empty(),
            trail.max_points == max_points,
            trail.wf(),
    {
        AircraftTrail { icao24, positions: Vec::new(), max_points }
    }

    /// Append a position; if the trail is then longer than `max_points`, its
    /// oldest position is dropped.
    pub fn add_position(&mut self, position: GeoPosition, timestamp: i64)
        ensures
            final(self).positions@ == spec_appended(
                old(self).positions@,
                (position, timestamp),
                old(self).max_points as nat,
            ),
            final(self).icao24 == old(self).icao24,
            final(self).max_points == old(self).max_points,
            old(self).wf() ==> final(self).wf(),
    {
        self.positions.push((position, timestamp));
        if self.positions.len() > self.max_points {
            self.positions.remove(0);
            assert(self.positions@ =~= old(self).positions@.push((position, timestamp)).skip(1));
        }
    }

    /// Forget every position.
    pub fn clear(&mut self)
        ensures
            final(self).positions@ == Seq::<TrailPoint>::empty(),
            final(self).icao24 == old(self).icao24,
            final(self).max_points == old(self).max_points,
            final(self).wf(),
    {
        self.positions.clear();
    }
}

/// Taking one more entry into the most recent `max_points` of a history
/// leaves the most recent `max_points` of the longer history.
pub proof fn lemma_append_to_most_recent(
    history: Seq<TrailPoint>,
    entry: TrailPoint,
    max_points: nat,
)
    ensures
        spec_appended(spec_most_recent(history, max_points), entry, max_points)
            == spec_most_recent(history.push(entry), max_points),
{
    assert(spec_appended(spec_most_recent(history, max_points), entry, max_points)
        =~= spec_most_recent(history.push(entry), max_points));
}

/// A trail within its bound that takes in any run of entries holds the most
/// recent `max_points` of everything it has seen, in the order of arrival.
pub proof fn lemma_trail_keeps_most_recent(
    trail: Seq<TrailPoint>,
    entries: Seq<TrailPoint>,
    max_points: nat,
)
    requires
        trail.len() <= max_points,
    ensures
        spec_appended_all(trail, entries, max_points) == spec_most_recent(
            trail + entries,
            max_points,
        ),
        spec_appended_all(trail, entries, max_points).len() <= max_points,
    decreases entries.len(),
{
    if entries.len() == 0 {
        assert(trail + entries =~= trail);
    } else {
        let earlier = entries.drop_last();
        lemma_trail_keeps_most_recent(trail, earlier, max_points);
        assert(trail + entries =~= (trail + earlier).push(entries.last()));
        lemma_append_to_most_recent(trail + earlier, entries.last(), max_points);
    }
}

/// After more appends than its bound, a trail that started empty holds
/// exactly `max_points` entries: the most recent ones, in their order.
pub proof fn lemma_overfull_trail(entries: Seq<TrailPoint>, max_points: nat)
    requires
        max_points < entries.len(),
    ensures
        spec_appended_all(Seq::empty(), entries, max_points).len() == max_points,
        spec_appended_all(Seq::empty(), entries, max_points) == entries.skip(
            entries.len() - max_points,
        ),
{
    lemma_trail_keeps_most_recent(Seq::empty(), entries, max_points);
    assert(Seq::<TrailPoint>::empty() + entries =~= entries);
}

} // verus!
