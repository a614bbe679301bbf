//! The radar display: its geometry, its trails, and the frame it draws.
//!
//! A frame is a fixed stack of layers. From the bottom: the background, the
//! range rings with their labels, the compass rose, the trails, the aircraft
//! icons with their labels, and the centre marker. Anything out of range is
//! left out of its layer.

use crate::aircraft::{Aircraft, TrailModel, TrailPoint};
use crate::canvas::{scene, DrawCommand};
use crate::clock::unix_now;
use crate::config::AppConfig;
use crate::geo::Location;
use crate::projection::{
    clamped_scale, spec_clamped_scale, Polar, RadarFrame, Rect, MAX_SCALE, MIN_SCALE,
};
use crate::renderer::{draw_frame, spec_frame_scene, Contact};
use crate::trail_store::{spec_updated, TrailStore};
use crate::units::spec_clamp;
use vstd::prelude::*;

verus! {

/// The trail entry that an aircraft contributes to a refresh at `now`: its
/// position with the instant it was reported, or `now` if no instant came
/// with it. An aircraft without a position contributes nothing.
pub open spec fn spec_trail_entry(aircraft: Aircraft, now: i64) -> Option<TrailPoint> {
    match aircraft.spec_position() {
        Some(position) => Some(
            (
                position,
                match aircraft.time_position {
                    Some(reported) => reported,
                    None => now,
                },
            ),
        ),
        None => None,
    }
}

/// The trails after one aircraft of a snapshot has been taken in: an
/// aircraft with a position extends its own trail, any other changes nothing.
pub open spec fn spec_trails_with(
    trails: Seq<TrailModel>,
    aircraft: Aircraft,
    max_points: nat,
    now: i64,
) -> Seq<TrailModel> {
    match spec_trail_entry(aircraft, now) {
        Some(entry) => spec_updated(trails, aircraft.icao24@, entry, max_points),
        None => trails,
    }
}

/// The trails after a snapshot of aircraft has been taken in, one aircraft
/// after the other.
pub open spec fn spec_trails_after(
    trails: Seq<TrailModel>,
    snapshot: Seq<Aircraft>,
    max_points: nat,
    now: i64,
) -> Seq<TrailModel> {
    snapshot.fold_left(
        trails,
        |held: Seq<TrailModel>, aircraft: Aircraft|
            spec_trails_with(held, aircraft, max_points, now),
    )
}

/// The radar display on one panel of the screen.
#[derive(Debug)]
pub struct RadarView {
    panel: Rect,
    scale: u32,
    aircraft_trails: TrailStore,
}

impl RadarView {
    /// The panel that the radar is drawn on.
    pub closed spec fn spec_panel(&self) -> Rect {
        self.panel
    }

    /// The zoom factor, in thousandths, as last set.
    pub closed spec fn spec_scale(&self) -> u32 {
        self.scale
    }

    /// The trails, in the order in which they were created.
    pub closed spec fn spec_trails(&self) -> Seq<TrailModel> {
        self.aircraft_trails@
    }

    /// The geometry of a frame drawn now for a maximum range of
    /// `max_range` metres.
    pub open spec fn spec_frame(&self, max_range: u32) -> RadarFrame {
        RadarFrame::spec_new(self.spec_panel(), max_range, self.spec_scale())
    }

    /// A radar on `panel`, at zoom 1:1 and without trails.
    pub fn new(panel: Rect) -> (view: RadarView)
        ensures
            view.spec_panel() == panel,
            view.spec_scale() == 1000,
            view.spec_trails() == Seq::<TrailModel>::empty(),
    {
        RadarView { panel, scale: 1000, aircraft_trails: TrailStore::new() }
    }

    /// The panel that the radar is drawn on.
    #[verifier::when_used_as_spec(spec_panel)]
    pub fn panel(&self) -> (panel: Rect)
        ensures
            panel == self.spec_panel(),
    {
        self.panel
    }

    /// The zoom factor, in thousandths, as last set.
    #[verifier::when_used_as_spec(spec_scale)]
    pub fn scale(&self) -> (scale: u32)
        ensures
            scale == self.spec_scale(),
    {
        self.scale
    }

    /// The trails, for reading.
    pub fn trails(&self) -> (store: &TrailStore)
        ensures
            store@ == self.spec_trails(),
    {
        &self.aircraft_trails
    }

    /// Move the radar onto another panel, keeping its zoom and its trails.
    pub fn resize(&mut self, panel: Rect)
        ensures
            final(self).spec_panel() == panel,
            final(self).spec_scale() == old(self).spec_scale(),
            final(self).spec_trails() == old(self).spec_trails(),
    {
        self.panel = panel;
    }

    /// The geometry of a frame drawn now for a maximum range of
    /// `max_range` metres.
    #[verifier::when_used_as_spec(spec_frame)]
    pub fn frame(&self, max_range: u32) -> (frame: RadarFrame)
        ensures
            frame == self.spec_frame(max_range),
    {
        RadarFrame::new(self.panel, max_range, self.scale)
    }

    /// Take a snapshot of aircraft into the trails, as of the instant `now`:
    /// every aircraft with a position extends its trail, creating it with
    /// room for `config.trail_length` positions if it has none; an aircraft
    /// without a position changes nothing.
    pub fn update_trails_at(&mut self, aircraft: &[Aircraft], config: &AppConfig, now: i64)
        ensures
            final(self).spec_trails() == spec_trails_after(
                old(self).spec_trails(),
                aircraft@,
                config.trail_length as nat,
                now,
            ),
            final(self).spec_panel() == old(self).spec_panel(),
            final(self).spec_scale() == old(self).spec_scale(),
    {
        let mut i: usize = 0;
        assert(aircraft@.take(0) =~= Seq::<Aircraft>::empty());
        while i < aircraft.len()
            invariant
                i <= aircraft@.len(),
                self.spec_trails() == spec_trails_after(
                    old(self).spec_trails(),
                    aircraft@.take(i as int),
                    config.trail_length as nat,
                    now,
                ),
                self.spec_panel() == old(self).spec_panel(),
                self.spec_scale() == old(self).spec_scale(),
            decreases aircraft@.len() - i,
        {
            let seen = &aircraft[i];
            assert(aircraft@.take(i as int + 1).drop_last() =~= aircraft@.take(i as int));
            assert(aircraft@.take(i as int + 1).last() == aircraft@[i as int]);
            match seen.position() {
                Some(position) => {
                    let timestamp = match seen.time_position {
                        Some(reported) => reported,
                        None => now,
                    };
                    self.aircraft_trails.update(
                        &seen.icao24,
                        position,
                        timestamp,
                        config.trail_length,
                    );
                },
                None => {},
            }
            i = i + 1;
        }
        assert(aircraft@.take(aircraft@.len() as int) =~= aircraft@);
    }

    /// Take a snapshot of aircraft into the trails, as of the system clock.
    pub fn update_trails(&mut self, aircraft: &[Aircraft], config: &AppConfig)
        ensures
            exists|now: i64|
                final(self).spec_trails() == spec_trails_after(
                    old(self).spec_trails(),
                    aircraft@,
                    config.trail_length as nat,
                    now,
                ),
            final(self).spec_panel() == old(self).spec_panel(),
            final(self).spec_scale() == old(self).spec_scale(),
    {
        let now = unix_now();
        self.update_trails_at(aircraft, config, now);
    }

    /// Draw one frame: the contacts and the tracks as seen from
    /// `user_location`, on this radar's panel at its zoom, for the maximum
    /// range, the trail switch and the theme that `config` holds.
    pub fn draw(
        &self,
        contacts: &[Contact],
        tracks: &[Vec<Polar>],
        config: &AppConfig,
        user_location: &Location,
    ) -> (commands: Vec<DrawCommand>)
        ensures
            scene(commands@) == spec_frame_scene(
                self.spec_frame(config.radar_radius_km),
                contacts@,
                tracks@,
                config.show_trails,
                config.theme.spec_is_dark(),
                *user_location,
            ),
    {
        let frame = self.frame(config.radar_radius_km);
        draw_frame(
            &frame,
            contacts,
            tracks,
            config.show_trails,
            config.theme.is_dark(),
            user_location,
        )
    }

    /// Set the zoom factor, clamped into `[MIN_SCALE, MAX_SCALE]`.
    pub fn set_scale(&mut self, scale: u32)
        ensures
            final(self).spec_scale() == spec_clamped_scale(scale),
            final(self).spec_panel() == old(self).spec_panel(),
            final(self).spec_trails() == old(self).spec_trails(),
    {
        self.scale = clamped_scale(scale);
    }

    /// Zoom in by a fifth, up to `MAX_SCALE`.
    pub fn zoom_in(&mut self)
        ensures
            final(self).spec_scale() == spec_clamp(
                old(self).spec_scale() * 6 / 5,
                MIN_SCALE as int,
                MAX_SCALE as int,
            ),
            final(self).spec_panel() == old(self).spec_panel(),
            final(self).spec_trails() == old(self).spec_trails(),
    {
        let wanted: u64 = self.scale as u64 * 6 / 5;
        self.scale = if wanted > MAX_SCALE as u64 {
            MAX_SCALE
        } else {
            clamped_scale(wanted as u32)
        };
    }

    /// Zoom out by a sixth, down to `MIN_SCALE`.
    pub fn zoom_out(&mut self)
        ensures
            final(self).spec_scale() == spec_clamp(
                old(self).spec_scale() * 5 / 6,
                MIN_SCALE as int,
                MAX_SCALE as int,
            ),
            final(self).spec_panel() == old(self).spec_panel(),
            final(self).spec_trails() == old(self).spec_trails(),
    {
        let wanted: u64 = self.scale as u64 * 5 / 6;
        self.scale = if wanted > MAX_SCALE as u64 {
            MAX_SCALE
        } else {
            clamped_scale(wanted as u32)
        };
    }

    /// Forget every trail.
    pub fn clear_trails(&mut self)
        ensures
            final(self).spec_trails() == Seq::<TrailModel>::empty(),
            final(self).spec_panel() == old(self).spec_panel(),
            final(self).spec_scale() == old(self).spec_scale(),
    {
        self.aircraft_trails.clear_all();
    }
}

} // verus!
