//! Colour palettes for the dark and the light theme.

use crate::aircraft::AltitudeBand;
use crate::canvas::{Color, Stroke};
use vstd::prelude::*;

verus! {

/// Width of the outlines of widgets.
pub const WIDGET_STROKE: i64 = 1_000;

/// The colours of the user interface around the radar.
#[derive(Clone, Copy, Debug, PartialEq, Eq, Structural)]
pub struct Visuals {
    pub dark_mode: bool,
    pub panel_fill: Color,
    pub window_fill: Color,
    pub faint_bg_color: Color,
    pub noninteractive_bg_fill: Color,
    pub noninteractive_bg_stroke: Stroke,
    pub inactive_bg_fill: Color,
    pub inactive_bg_stroke: Stroke,
    pub hovered_bg_fill: Color,
    pub hovered_bg_stroke: Stroke,
    pub active_bg_fill: Color,
    pub active_bg_stroke: Stroke,
    pub selection_bg_fill: Color,
    pub selection_stroke: Stroke,
    pub hyperlink_color: Color,
    pub code_bg_color: Color,
}

/// A widget outline in an opaque colour.
pub open spec fn spec_outline(r: u8, g: u8, b: u8) -> Stroke {
    Stroke { width: WIDGET_STROKE, color: Color::spec_from_rgb(r, g, b) }
}

/// A widget outline in an opaque colour.
#[verifier::when_used_as_spec(spec_outline)]
pub fn outline(r: u8, g: u8, b: u8) -> (s: Stroke)
    ensures
        s == spec_outline(r, g, b),
{
    Stroke { width: WIDGET_STROKE, color: Color::from_rgb(r, g, b) }
}

/// The dark theme.
pub open spec fn spec_dark_visuals() -> Visuals {
    Visuals {
        dark_mode: true,
        panel_fill: Color::spec_from_rgb(30, 30, 40),
        window_fill: Color::spec_from_rgb(25, 25, 35),
        faint_bg_color: Color::spec_from_rgb(40, 40, 50),
        noninteractive_bg_fill: Color::spec_from_rgb(45, 45, 55),
        noninteractive_bg_stroke: spec_outline(60, 60, 70),
        inactive_bg_fill: Color::spec_from_rgb(50, 50, 60),
        inactive_bg_stroke: spec_outline(70, 70, 80),
        hovered_bg_fill: Color::spec_from_rgb(60, 60, 70),
        hovered_bg_stroke: spec_outline(80, 80, 90),
        active_bg_fill: Color::spec_from_rgb(70, 70, 80),
        active_bg_stroke: spec_outline(90, 90, 100),
        selection_bg_fill: Color::spec_from_rgb(100, 100, 200),
        selection_stroke: spec_outline(120, 120, 220),
        hyperlink_color: Color::spec_from_rgb(100, 150, 255),
        code_bg_color: Color::spec_from_rgb(20, 20, 30),
    }
}

/// The light theme.
pub open spec fn spec_light_visuals() -> Visuals {
    Visuals {
        dark_mode: false,
        panel_fill: Color::spec_from_rgb(240, 240, 250),
        window_fill: Color::spec_from_rgb(250, 250, 255),
        faint_bg_color: Color::spec_from_rgb(230, 230, 240),
        noninteractive_bg_fill: Color::spec_from_rgb(220, 220, 230),
        noninteractive_bg_stroke: spec_outline(200, 200, 210),
        inactive_bg_fill: Color::spec_from_rgb(210, 210, 220),
        inactive_bg_stroke: spec_outline(190, 190, 200),
        hovered_bg_fill: Color::spec_from_rgb(200, 200, 210),
        hovered_bg_stroke: spec_outline(180, 180, 190),
        active_bg_fill: Color::spec_from_rgb(190, 190, 200),
        active_bg_stroke: spec_outline(170, 170, 180),
        selection_bg_fill: Color::spec_from_rgb(150, 150, 255),
        selection_stroke: spec_outline(130, 130, 235),
        hyperlink_color: Color::spec_from_rgb(50, 100, 200),
        code_bg_color: Color::spec_from_rgb(245, 245, 250),
    }
}

/// Set every colour of `visuals` to that of the dark or of the light theme.
pub fn apply_theme(visuals: &mut Visuals, is_dark: bool)
    ensures
        *final(visuals) == if is_dark {
            spec_dark_visuals()
        } else {
            spec_light_visuals()
        },
{
    if is_dark {
        apply_dark_theme(visuals);
    } else {
        apply_light_theme(visuals);
    }
}

fn apply_dark_theme(visuals: &mut Visuals)
    ensures
        *final(visuals) == spec_dark_visuals(),
{
    visuals.dark_mode = true;
    visuals.panel_fill = Color::from_rgb(30, 30, 40);
    visuals.window_fill = Color::from_rgb(25, 25, 35);
    visuals.faint_bg_color = Color::from_rgb(40, 40, 50);
    visuals.noninteractive_bg_fill = Color::from_rgb(45, 45, 55);
    visuals.noninteractive_bg_stroke = outline(60, 60, 70);
    visuals.inactive_bg_fill = Color::from_rgb(50, 50, 60);
    visuals.inactive_bg_stroke = outline(70, 70, 80);
    visuals.hovered_bg_fill = Color::from_rgb(60, 60, 70);
    visuals.hovered_bg_stroke = outline(80, 80, 90);
    visuals.active_bg_fill = Color::from_rgb(70, 70, 80);
    visuals.active_bg_stroke = outline(90, 90, 100);
    visuals.selection_bg_fill = Color::from_rgb(100, 100, 200);
    visuals.selection_stroke = outline(120, 120, 220);
    visuals.hyperlink_color = Color::from_rgb(100, 150, 255);
    visuals.code_bg_color = Color::from_rgb(20, 20, 30);
}

fn apply_light_theme(visuals: &mut Visuals)
    ensures
        *final(visuals) == spec_light_visuals(),
{
    visuals.dark_mode = false;
    visuals.panel_fill = Color::from_rgb(240, 240, 250);
    visuals.window_fill = Color::from_rgb(250, 250, 255);
    visuals.faint_bg_color = Color::from_rgb(230, 230, 240);
    visuals.noninteractive_bg_fill = Color::from_rgb(220, 220, 230);
    visuals.noninteractive_bg_stroke = outline(200, 200, 210);
    visuals.inactive_bg_fill = Color::from_rgb(210, 210, 220);
    visuals.inactive_bg_stroke = outline(190, 190, 200);
    visuals.hovered_bg_fill = Color::from_rgb(200, 200, 210);
    visuals.hovered_bg_stroke = outline(180, 180, 190);
    visuals.active_bg_fill = Color::from_rgb(190, 190, 200);
    visuals.active_bg_stroke = outline(170, 170, 180);
    visuals.selection_bg_fill = Color::from_rgb(150, 150, 255);
    visuals.selection_stroke = outline(130, 130, 235);
    visuals.hyperlink_color = Color::from_rgb(50, 100, 200);
    visuals.code_bg_color = Color::from_rgb(245, 245, 250);
}

/// The colours in which aircraft are drawn.
#[derive(Clone, Copy, Debug, PartialEq, Eq, Structural)]
pub struct AircraftColors {
    pub low_altitude: Color,
    pub medium_altitude: Color,
    pub high_altitude: Color,
    pub very_high_altitude: Color,
    pub unknown_altitude: Color,
    pub trail: Color,
    pub selected: Color,
}

impl AircraftColors {
    pub open spec fn spec_new(is_dark: bool) -> AircraftColors {
        if is_dark {
            AircraftColors {
                low_altitude: Color::spec_from_rgb(255, 255, 0),
                medium_altitude: Color::spec_from_rgb(0, 255, 0),
                high_altitude: Color::spec_from_rgb(0, 255, 255),
                very_high_altitude: Color::spec_from_rgb(255, 0, 255),
                unknown_altitude: Color::spec_from_rgb(128, 128, 128),
                trail: Color::spec_from_rgba_premultiplied(100, 100, 255, 100),
                selected: Color::spec_from_rgb(255, 255, 0),
            }
        } else {
            AircraftColors {
                low_altitude: Color::spec_from_rgb(200, 200, 0),
                medium_altitude: Color::spec_from_rgb(0, 150, 0),
                high_altitude: Color::spec_from_rgb(0, 150, 150),
                very_high_altitude: Color::spec_from_rgb(150, 0, 150),
                unknown_altitude: Color::spec_from_rgb(100, 100, 100),
                trail: Color::spec_from_rgba_premultiplied(50, 50, 200, 150),
                selected: Color::spec_from_rgb(200, 200, 0),
            }
        }
    }

    /// The palette for the dark theme, or the darker one for the light theme.
    #[verifier::when_used_as_spec(spec_new)]
    pub fn new(is_dark: bool) -> (colors: AircraftColors)
        ensures
            colors == Self::spec_new(is_dark),
    {
        if is_dark {
            AircraftColors {
                low_altitude: Color::from_rgb(255, 255, 0),
                medium_altitude: Color::from_rgb(0, 255, 0),
                high_altitude: Color::from_rgb(0, 255, 255),
                very_high_altitude: Color::from_rgb(255, 0, 255),
                unknown_altitude: Color::from_rgb(128, 128, 128),
                trail: Color::from_rgba_premultiplied(100, 100, 255, 100),
                selected: Color::from_rgb(255, 255, 0),
            }
        } else {
            AircraftColors {
                low_altitude: Color::from_rgb(200, 200, 0),
                medium_altitude: Color::from_rgb(0, 150, 0),
                high_altitude: Color::from_rgb(0, 150, 150),
                very_high_altitude: Color::from_rgb(150, 0, 150),
                unknown_altitude: Color::from_rgb(100, 100, 100),
                trail: Color::from_rgba_premultiplied(50, 50, 200, 150),
                selected: Color::from_rgb(200, 200, 0),
            }
        }
    }

    pub open spec fn spec_for_band(&self, band: AltitudeBand) -> Color {
        match band {
            AltitudeBand::Low => self.low_altitude,
            AltitudeBand::Medium => self.medium_altitude,
            AltitudeBand::High => self.high_altitude,
            AltitudeBand::VeryHigh => self.very_high_altitude,
            AltitudeBand::Unknown => self.unknown_altitude,
        }
    }

    /// The colour of this palette for an altitude band.
    #[verifier::when_used_as_spec(spec_for_band)]
    pub fn for_band(&self, band: AltitudeBand) -> (c: Color)
        ensures
            c == self.spec_for_band(band),
    {
        match band {
            AltitudeBand::Low => self.low_altitude,
            AltitudeBand::Medium => self.medium_altitude,
            AltitudeBand::High => self.high_altitude,
            AltitudeBand::VeryHigh => self.very_high_altitude,
            AltitudeBand::Unknown => self.unknown_altitude,
        }
    }
}

/// In the dark palette every band has the colour that the band itself names.
pub proof fn lemma_dark_palette_matches_bands(band: AltitudeBand)
    ensures
        AircraftColors::spec_new(true).spec_for_band(band) == band.spec_color(),
{
}

/// The colours in which the radar itself is drawn.
#[derive(Clone, Copy, Debug, PartialEq, Eq, Structural)]
pub struct RadarColors {
    pub background: Color,
    pub range_rings: Color,
    pub compass_rose: Color,
    pub center_marker: Color,
    pub grid_lines: Color,
}

impl RadarColors {
    pub open spec fn spec_new(is_dark: bool) -> RadarColors {
        if is_dark {
            RadarColors {
                background: Color::spec_from_rgb(20, 20, 30),
                range_rings: Color::spec_from_rgb(60, 60, 80),
                compass_rose: Color::spec_from_rgb(200, 200, 200),
                center_marker: Color::spec_from_rgb(255, 255, 255),
                grid_lines: Color::spec_from_rgb(40, 40, 50),
            }
        } else {
            RadarColors {
                background: Color::spec_from_rgb(240, 240, 250),
                range_rings: Color::spec_from_rgb(200, 200, 220),
                compass_rose: Color::spec_from_rgb(50, 50, 50),
                center_marker: Color::spec_from_rgb(30, 30, 30),
                grid_lines: Color::spec_from_rgb(220, 220, 230),
            }
        }
    }

    /// The palette for the dark or for the light theme.
    #[verifier::when_used_as_spec(spec_new)]
    pub fn new(is_dark: bool) -> (colors: RadarColors)
        ensures
            colors == Self::spec_new(is_dark),
    {
        if is_dark {
            RadarColors {
                background: Color::from_rgb(20, 20, 30),
                range_rings: Color::from_rgb(60, 60, 80),
                compass_rose: Color::from_rgb(200, 200, 200),
                center_marker: Color::from_rgb(255, 255, 255),
                grid_lines: Color::from_rgb(40, 40, 50),
            }
        } else {
            RadarColors {
                background: Color::from_rgb(240, 240, 250),
                range_rings: Color::from_rgb(200, 200, 220),
                compass_rose: Color::from_rgb(50, 50, 50),
                center_marker: Color::from_rgb(30, 30, 30),
                grid_lines: Color::from_rgb(220, 220, 230),
            }
        }
    }
}

} // verus!
