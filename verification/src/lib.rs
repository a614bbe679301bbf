//! Radar projection and trail tracking for live aircraft displays.
//!
//! The crate turns a snapshot of aircraft into the draw commands of one
//! frame of a circular, north-up radar plot around a reference location:
//!
//! * [`aircraft`] holds the aircraft records, their altitude bands and the
//!   bounded trail of one aircraft;
//! * [`trail_store`] keeps one trail per aircraft;
//! * [`projection`] places a point, given by its distance and bearing from
//!   the reference location, on the screen, or culls it;
//! * [`renderer`] composes the layers of a frame, and [`canvas`] defines
//!   the draw commands that a frame is made of;
//! * [`radar_view`] ties geometry, zoom and trails together;
//! * [`config`], [`theme`], [`refresh`] and [`api`] hold the settings, the
//!   palettes, the refresh decisions and the telemetry records.
//!
//! Everything is computed in integer fixed-point arithmetic: scalar
//! measurements are held in thousandths of their unit, geographic angles in
//! millionths of a degree. See [`units`] for the conventions. Great-circle
//! distances and bearings are inputs: callers compute them with whatever
//! trigonometry they have and hand them over as [`projection::Polar`]
//! values.

pub mod units;
pub mod text;
pub mod clock;
pub mod geo;
pub mod canvas;
pub mod projection;
pub mod aircraft;
pub mod trail_store;
pub mod config;
pub mod theme;
pub mod renderer;
pub mod radar_view;
pub mod api;
pub mod refresh;
