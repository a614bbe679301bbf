//! The layers of a frame, from the bottom up, and the frame as a whole.
//!
//! Every function here appends the draw commands of one layer to the frame
//! under construction. What a layer holds is stated by a specification
//! function of the same name with the prefix `spec_`.

use crate::aircraft::Aircraft;
use crate::canvas::{scene, Align2, Color, DrawCommand, Primitive, Stroke};
use crate::geo::Location;
use crate::projection::{
    lemma_rounded_square, lemma_square_of_product, scaled, spec_div_towards_zero, Direction,
    Polar, RadarFrame, ScreenPoint, UNIT,
};
use crate::text::{decimal, push_decimal};
use crate::theme::{AircraftColors, RadarColors};
use vstd::prelude::*;
use vstd::string::*;

verus! {

/// Number of range rings.
pub const RING_COUNT: u32 = 5;

/// Width of a range ring's line.
pub const RING_WIDTH: i64 = 1_000;

/// Font size of the range ring labels.
pub const RING_FONT: i64 = 12_000;

/// Distance of the compass letters from the edge of the disc.
pub const COMPASS_MARGIN: i64 = 20_000;

/// Font size of the compass letters.
pub const COMPASS_FONT: i64 = 14_000;

/// Half the length of each bar of the centre cross.
pub const CROSS_SIZE: i64 = 10_000;

/// Width of the bars of the centre cross.
pub const CROSS_WIDTH: i64 = 2_000;

/// Distance of the location label below the centre.
pub const LOCATION_LABEL_OFFSET: i64 = 25_000;

/// Font size of the location label.
pub const LOCATION_FONT: i64 = 12_000;

/// The colour of the disc.
pub open spec fn spec_background_color(dark: bool) -> Color {
    RadarColors::spec_new(dark).background
}

/// The colour of the range rings and their labels.
pub open spec fn spec_ring_color(dark: bool) -> Color {
    RadarColors::spec_new(dark).range_rings
}

/// The background: a square around the disc whose corners are rounded by
/// the disc's radius, which makes it the disc.
pub open spec fn spec_radar_background(frame: RadarFrame, dark: bool) -> Seq<Primitive> {
    seq![
        Primitive::RectFilled {
            center: frame.spec_center(),
            side: 2 * frame.spec_pixel_radius(),
            rounding: frame.spec_pixel_radius() as int,
            color: spec_background_color(dark),
        },
    ]
}

/// Radius on the screen of the `i`-th of the evenly spaced range rings.
pub open spec fn spec_ring_radius(frame: RadarFrame, i: int) -> int {
    frame.spec_pixel_radius() * i / (RING_COUNT as int)
}

/// Ground distance in metres that the `i`-th range ring stands for at the
/// frame's zoom: the distance of a point that is projected onto the ring.
pub open spec fn spec_ring_distance(frame: RadarFrame, i: int) -> int {
    frame.spec_max_range() * i * 1000 / (RING_COUNT * frame.spec_scale())
}

/// A distance in metres as kilometres with one decimal place, rounded down,
/// such as `1.6 km`.
pub open spec fn spec_distance_label(metres: int) -> Seq<char> {
    decimal((metres / 1000) as nat) + "."@ + decimal((metres % 1000 / 100) as nat) + " km"@
}

/// The `i`-th range ring and its label. The label sits on the ring, up and
/// to the right of the centre.
pub open spec fn spec_range_ring(frame: RadarFrame, dark: bool, i: int) -> Seq<Primitive> {
    let radius = spec_ring_radius(frame, i);
    seq![
        Primitive::CircleStroke {
            center: frame.spec_center(),
            radius,
            stroke: Stroke { width: RING_WIDTH, color: spec_ring_color(dark) },
        },
        Primitive::Text {
            pos: ScreenPoint {
                x: (frame.spec_center().x + radius * 7 / 10) as i64,
                y: (frame.spec_center().y - radius * 7 / 10) as i64,
            },
            anchor: Align2::spec_center_center(),
            text: spec_distance_label(spec_ring_distance(frame, i)),
            font_size: RING_FONT as int,
            color: spec_ring_color(dark),
        },
    ]
}

/// The first `count` range rings with their labels, each as a layer of its
/// own, from the innermost outwards.
pub open spec fn spec_ring_layers(frame: RadarFrame, dark: bool, count: nat) -> Seq<
    Seq<Primitive>,
> {
    Seq::new(count, |k: int| spec_range_ring(frame, dark, k + 1))
}

/// The range rings with their labels, from the innermost outwards.
pub open spec fn spec_range_rings(frame: RadarFrame, dark: bool) -> Seq<Primitive> {
    spec_ring_layers(frame, dark, RING_COUNT as nat).flatten()
}

/// One letter of the compass rose.
pub open spec fn spec_compass_letter(letter: Seq<char>, x: int, y: int) -> Primitive {
    Primitive::Text {
        pos: ScreenPoint { x: x as i64, y: y as i64 },
        anchor: Align2::spec_center_center(),
        text: letter,
        font_size: COMPASS_FONT as int,
        color: Color::spec_white(),
    }
}

/// The compass rose: N, E, S and W just outside the disc, north at the top.
pub open spec fn spec_compass_rose(frame: RadarFrame) -> Seq<Primitive> {
    let c = frame.spec_center();
    let reach = frame.spec_pixel_radius() + COMPASS_MARGIN;
    seq![
        spec_compass_letter("N"@, c.x as int, c.y - reach),
        spec_compass_letter("E"@, c.x + reach, c.y as int),
        spec_compass_letter("S"@, c.x as int, c.y + reach),
        spec_compass_letter("W"@, c.x - reach, c.y as int),
    ]
}

/// The centre marker: a cross on the reference location, and the location's
/// name below it.
pub open spec fn spec_center_marker(frame: RadarFrame, location: Location) -> Seq<Primitive> {
    let c = frame.spec_center();
    let stroke = Stroke { width: CROSS_WIDTH, color: Color::spec_white() };
    seq![
        Primitive::LineSegment {
            from: ScreenPoint { x: (c.x - CROSS_SIZE) as i64, y: c.y },
            to: ScreenPoint { x: (c.x + CROSS_SIZE) as i64, y: c.y },
            stroke,
        },
        Primitive::LineSegment {
            from: ScreenPoint { x: c.x, y: (c.y - CROSS_SIZE) as i64 },
            to: ScreenPoint { x: c.x, y: (c.y + CROSS_SIZE) as i64 },
            stroke,
        },
        Primitive::Text {
            pos: ScreenPoint { x: c.x, y: (c.y + LOCATION_LABEL_OFFSET) as i64 },
            anchor: Align2::spec_center_center(),
            text: location.spec_label(),
            font_size: LOCATION_FONT as int,
            color: Color::spec_white(),
        },
    ]
}

/// The colour of the disc.
#[verifier::when_used_as_spec(spec_background_color)]
pub fn background_color(dark: bool) -> (c: Color)
    ensures
        c == spec_background_color(dark),
{
    RadarColors::new(dark).background
}

/// The colour of the range rings and their labels.
#[verifier::when_used_as_spec(spec_ring_color)]
pub fn ring_color(dark: bool) -> (c: Color)
    ensures
        c == spec_ring_color(dark),
{
    RadarColors::new(dark).range_rings
}

/// Append one command to the frame.
fn emit(out: &mut Vec<DrawCommand>, command: DrawCommand)
    ensures
        final(out)@ == old(out)@.push(command),
        scene(final(out)@) == scene(old(out)@).push(command@),
{
    out.push(command);
    assert(scene(out@) =~= scene(old(out)@).push(command@));
}

/// A distance in metres as kilometres with one decimal place.
pub fn distance_label(metres: u64) -> (label: String)
    ensures
        label@ == spec_distance_label(metres as int),
{
    let mut label = String::new();
    push_decimal(&mut label, metres / 1000);
    label.append(".");
    push_decimal(&mut label, metres % 1000 / 100);
    label.append(" km");
    assert(label@ =~= spec_distance_label(metres as int));
    label
}

/// Paint the disc.
pub fn draw_radar_background(out: &mut Vec<DrawCommand>, frame: &RadarFrame, dark: bool)
    ensures
        scene(final(out)@) == scene(old(out)@) + spec_radar_background(*frame, dark),
{
    let radius = frame.pixel_radius() as i64;
    emit(
        out,
        DrawCommand::RectFilled {
            center: frame.center(),
            side: 2 * radius,
            rounding: radius,
            color: background_color(dark),
        },
    );
    assert(scene(out@) =~= scene(old(out)@) + spec_radar_background(*frame, dark));
}

/// Paint the range rings and label each with the distance it stands for.
pub fn draw_range_rings(out: &mut Vec<DrawCommand>, frame: &RadarFrame, dark: bool)
    ensures
        scene(final(out)@) == scene(old(out)@) + spec_range_rings(*frame, dark),
{
    let center = frame.center();
    let color = ring_color(dark);
    let mut i: u32 = 1;
    assert(scene(out@) =~= scene(old(out)@) + spec_ring_layers(*frame, dark, 0).flatten());
    while i <= RING_COUNT
        invariant
            1 <= i <= RING_COUNT + 1,
            center == frame.spec_center(),
            i32::MIN <= center.x <= i32::MAX,
            i32::MIN <= center.y <= i32::MAX,
            color == spec_ring_color(dark),
            scene(out@) == scene(old(out)@) + spec_ring_layers(
                *frame,
                dark,
                (i - 1) as nat,
            ).flatten(),
        decreases RING_COUNT + 1 - i,
    {
        let ghost before = scene(out@);
        let full = frame.pixel_radius();
        let range = frame.max_range();
        let scale = frame.scale();
        assert(0 <= full * i <= 5 * u32::MAX && 0 <= range * i <= 5 * u32::MAX) by (nonlinear_arith)
            requires
                1 <= i <= 5,
                0 <= full <= u32::MAX,
                0 <= range <= u32::MAX,
        ;
        assert(RING_COUNT * scale > 0) by (nonlinear_arith)
            requires
                scale >= 100,
        ;
        let radius: i64 = (full as u64 * i as u64 / RING_COUNT as u64) as i64;
        let metres: u64 = range as u64 * i as u64 * 1000 / (RING_COUNT as u64 * scale as u64);
        emit(
            out,
            DrawCommand::CircleStroke {
                center,
                radius,
                stroke: Stroke { width: RING_WIDTH, color },
            },
        );
        emit(
            out,
            DrawCommand::Text {
                pos: ScreenPoint { x: center.x + radius * 7 / 10, y: center.y - radius * 7 / 10 },
                anchor: Align2::center_center(),
                text: distance_label(metres),
                font_size: RING_FONT,
                color,
            },
        );
        proof {
            let ring = spec_range_ring(*frame, dark, i as int);
            let inner = spec_ring_layers(*frame, dark, (i - 1) as nat);
            assert(scene(out@) =~= before + ring);
            assert(spec_ring_layers(*frame, dark, i as nat) =~= inner.push(ring));
            inner.lemma_flatten_push(ring);
        }
        i = i + 1;
    }
}

/// One letter of the compass rose.
fn compass_letter(letter: &str, x: i64, y: i64) -> (command: DrawCommand)
    ensures
        command@ == spec_compass_letter(letter@, x as int, y as int),
{
    DrawCommand::Text {
        pos: ScreenPoint { x, y },
        anchor: Align2::center_center(),
        text: String::from_str(letter),
        font_size: COMPASS_FONT,
        color: Color::white(),
    }
}

/// Paint the compass rose.
pub fn draw_compass_rose(out: &mut Vec<DrawCommand>, frame: &RadarFrame)
    ensures
        scene(final(out)@) == scene(old(out)@) + spec_compass_rose(*frame),
{
    let c = frame.center();
    let reach: i64 = frame.pixel_radius() as i64 + COMPASS_MARGIN;
    emit(out, compass_letter("N", c.x, c.y - reach));
    emit(out, compass_letter("E", c.x + reach, c.y));
    emit(out, compass_letter("S", c.x, c.y + reach));
    emit(out, compass_letter("W", c.x - reach, c.y));
    assert(scene(out@) =~= scene(old(out)@) + spec_compass_rose(*frame));
}

/// Paint the centre cross and the name of the reference location.
pub fn draw_center_marker(out: &mut Vec<DrawCommand>, frame: &RadarFrame, location: &Location)
    ensures
        scene(final(out)@) == scene(old(out)@) + spec_center_marker(*frame, *location),
{
    let c = frame.center();
    let stroke = Stroke { width: CROSS_WIDTH, color: Color::white() };
    emit(
        out,
        DrawCommand::LineSegment {
            from: ScreenPoint { x: c.x - CROSS_SIZE, y: c.y },
            to: ScreenPoint { x: c.x + CROSS_SIZE, y: c.y },
            stroke,
        },
    );
    emit(
        out,
        DrawCommand::LineSegment {
            from: ScreenPoint { x: c.x, y: c.y - CROSS_SIZE },
            to: ScreenPoint { x: c.x, y: c.y + CROSS_SIZE },
            stroke,
        },
    );
    emit(
        out,
        DrawCommand::Text {
            pos: ScreenPoint { x: c.x, y: c.y + LOCATION_LABEL_OFFSET },
            anchor: Align2::center_center(),
            text: location.label(),
            font_size: LOCATION_FONT,
            color: Color::white(),
        },
    );
    assert(scene(out@) =~= scene(old(out)@) + spec_center_marker(*frame, *location));
}

/// Length of an aircraft icon from its centre to its nose; also the radius
/// of the circle drawn for an aircraft without a heading.
pub const ICON_SIZE: i64 = 8_000;

/// Width of the outline of an aircraft icon.
pub const ICON_OUTLINE: i64 = 1_000;

/// Sine of the angle of 2.5 radians by which the two rear corners of an
/// aircraft icon are turned away from its nose, in millionths.
pub const REAR_SIN: i64 = 598_472;

/// Cosine of the angle of 2.5 radians, in millionths.
pub const REAR_COS: i64 = -801_143;

/// Distance of an aircraft's label above its icon.
pub const LABEL_OFFSET: i64 = 15_000;

/// Font size of an aircraft's label.
pub const LABEL_FONT: i64 = 10_000;

/// Width of a trail's line.
pub const TRAIL_WIDTH: i64 = 2_000;

/// Farthest that a projected point lies from the centre along either axis.
pub const MAX_OFFSET: i64 = 5 * 0xFFFF_FFFF;

/// One aircraft as the radar sees it in one frame: the record as reported,
/// where the aircraft lies as seen from the reference location, and the
/// direction of its heading.
#[derive(Clone, Debug, PartialEq, Eq)]
pub struct Contact {
    pub aircraft: Aircraft,
    pub fix: Option<Polar>,
    pub heading: Option<Direction>,
}

/// The line in which trails are drawn: in the trail colour of the dark palette.
pub open spec fn spec_trail_stroke() -> Stroke {
    Stroke { width: TRAIL_WIDTH, color: AircraftColors::spec_new(true).trail }
}

/// A point at the distance that a range ring is labelled with is drawn on
/// the ring or, by what rounding takes away, just inside it.
pub proof fn lemma_ring_label_is_true_distance(frame: RadarFrame, i: int)
    requires
        frame.inv(),
        1 <= i <= RING_COUNT,
    ensures
        0 <= frame.spec_radial(spec_ring_distance(frame, i)) <= spec_ring_radius(frame, i),
{
    frame.lemma_inv_bounds();
    let range = frame.spec_max_range() as int;
    let scale = frame.spec_scale() as int;
    let full = frame.spec_pixel_radius() as int;
    let distance = spec_ring_distance(frame, i);
    if range != 0 {
        lemma_floor_product(range * i * 1000, RING_COUNT * scale);
        assert(range * i * 1000 >= 0 && RING_COUNT * scale > 0) by (nonlinear_arith)
            requires
                range > 0,
                i >= 1,
                scale >= 100,
        ;
        lemma_scaled_quotients(distance, full, scale, range, i);
    }
}

/// A quotient rounded down, times the divisor, is at most the number divided.
proof fn lemma_floor_product(n: int, d: int)
    by (nonlinear_arith)
    requires
        n >= 0,
        d > 0,
    ensures
        0 <= n / d,
        (n / d) * d <= n,
{
}

/// If `distance` is at most the share `i / 5` of `range` shrunk by the
/// zoom, then its share of the zoomed radius is at most `i / 5` of `full`.
proof fn lemma_scaled_quotients(distance: int, full: int, scale: int, range: int, i: int)
    by (nonlinear_arith)
    requires
        0 <= distance,
        0 <= full,
        0 < scale,
        0 < range,
        0 <= i,
        distance * (5 * scale) <= range * i * 1000,
    ensures
        0 <= (distance * full * scale) / (range * 1000) <= full * i / 5,
{
    let q = (distance * full * scale) / (range * 1000);
    assert(q * (range * 1000) <= distance * full * scale);
    assert(distance * full * scale * 5 <= range * 1000 * (full * i));
    assert(5 * q * (range * 1000) <= (full * i) * (range * 1000));
    assert(5 * q <= full * i);
}

/// The points of `track` that are in range, projected, in their order.
pub open spec fn spec_visible_points(frame: RadarFrame, track: Seq<Polar>) -> Seq<ScreenPoint> {
    track.filter_map(|point: Polar| frame.spec_project(&point))
}

/// The trail of one aircraft: a line through the points that are in range,
/// if there are at least two of them.
pub open spec fn spec_trail(frame: RadarFrame, track: Seq<Polar>) -> Seq<Primitive> {
    let points = spec_visible_points(frame, track);
    if points.len() >= 2 {
        seq![Primitive::Line { points, stroke: spec_trail_stroke() }]
    } else {
        Seq::empty()
    }
}

/// The trail of each aircraft as a layer of its own, in the order of `tracks`.
pub open spec fn spec_trail_layers(frame: RadarFrame, tracks: Seq<Vec<Polar>>) -> Seq<
    Seq<Primitive>,
> {
    tracks.map_values(|track: Vec<Polar>| spec_trail(frame, track@))
}

/// The trails of all aircraft, in the order of `tracks`.
pub open spec fn spec_aircraft_trails(frame: RadarFrame, tracks: Seq<Vec<Polar>>) -> Seq<
    Primitive,
> {
    spec_trail_layers(frame, tracks).flatten()
}

/// Where a contact is drawn: nowhere if its aircraft reports no position,
/// if it has no fix, or if the fix is out of range.
pub open spec fn spec_contact_position(frame: RadarFrame, contact: Contact) -> Option<ScreenPoint> {
    if contact.aircraft.spec_has_position() {
        match contact.fix {
            Some(fix) => frame.spec_project(&fix),
            None => None,
        }
    } else {
        None
    }
}

/// A corner of an aircraft icon: `length` away from `at`, along the bearing
/// whose sine and cosine are given. Bearings are laid out as the projector
/// lays them out: north is up the screen, east to the right.
pub open spec fn spec_icon_corner(at: ScreenPoint, length: int, sin: int, cos: int) -> ScreenPoint {
    ScreenPoint {
        x: (at.x + spec_div_towards_zero(length * sin, UNIT as int)) as i64,
        y: (at.y - spec_div_towards_zero(length * cos, UNIT as int)) as i64,
    }
}

/// The three corners of the icon of an aircraft on `heading`: the nose at
/// the full size along the heading, then two rear corners at half the size,
/// the first along the heading turned clockwise by 2.5 radians, the second
/// along the heading turned anticlockwise by as much.
pub open spec fn spec_icon_corners(at: ScreenPoint, heading: Direction) -> Seq<ScreenPoint> {
    let starboard = Direction::spec_turned_pair(
        heading.spec_sin() as int,
        heading.spec_cos() as int,
        REAR_SIN as int,
        REAR_COS as int,
    );
    let port = Direction::spec_turned_pair(
        heading.spec_sin() as int,
        heading.spec_cos() as int,
        -REAR_SIN,
        REAR_COS as int,
    );
    seq![
        spec_icon_corner(
            at,
            ICON_SIZE as int,
            heading.spec_sin() as int,
            heading.spec_cos() as int,
        ),
        spec_icon_corner(at, ICON_SIZE / 2, starboard.0, starboard.1),
        spec_icon_corner(at, ICON_SIZE / 2, port.0, port.1),
    ]
}

/// The nose of an icon points where its aircraft is heading on the
/// north-up plot: straight up for a heading of north, straight to the right
/// for east, straight down for south and straight to the left for west,
/// each time at the full size of the icon.
pub proof fn lemma_icon_points_along_heading(at: ScreenPoint, heading: Direction)
    requires
        near_screen(at),
    ensures
        heading.spec_sin() == 0 && heading.spec_cos() == UNIT ==> spec_icon_corners(at, heading)[0]
            == (ScreenPoint { x: at.x, y: (at.y - ICON_SIZE) as i64 }),
        heading.spec_sin() == UNIT && heading.spec_cos() == 0 ==> spec_icon_corners(at, heading)[0]
            == (ScreenPoint { x: (at.x + ICON_SIZE) as i64, y: at.y }),
        heading.spec_sin() == 0 && heading.spec_cos() == -UNIT ==> spec_icon_corners(
            at,
            heading,
        )[0] == (ScreenPoint { x: at.x, y: (at.y + ICON_SIZE) as i64 }),
        heading.spec_sin() == -UNIT && heading.spec_cos() == 0 ==> spec_icon_corners(
            at,
            heading,
        )[0] == (ScreenPoint { x: (at.x - ICON_SIZE) as i64, y: at.y }),
{
}

/// The nose of an icon lies from its position on the side to which the
/// heading points, east or west and north or south, and no farther from it
/// than the size of the icon.
pub proof fn lemma_nose_follows_heading(at: ScreenPoint, heading: Direction)
    requires
        near_screen(at),
        heading.inv(),
    ensures
        ({
            let nose = spec_icon_corners(at, heading)[0];
            let dx = nose.x - at.x;
            let dy = nose.y - at.y;
            &&& heading.spec_sin() >= 0 ==> dx >= 0
            &&& heading.spec_sin() <= 0 ==> dx <= 0
            &&& heading.spec_cos() >= 0 ==> dy <= 0
            &&& heading.spec_cos() <= 0 ==> dy >= 0
            &&& dx * dx + dy * dy <= ICON_SIZE * ICON_SIZE
        }),
{
    heading.lemma_inv_fits();
    let sin = heading.spec_sin() as int;
    let cos = heading.spec_cos() as int;
    lemma_offset_within_length(ICON_SIZE as int, sin, cos);
    let east = spec_div_towards_zero(ICON_SIZE * sin, UNIT as int);
    let north = spec_div_towards_zero(ICON_SIZE * cos, UNIT as int);
    let nose = spec_icon_corners(at, heading)[0];
    let dx = nose.x - at.x;
    let dy = nose.y - at.y;
    assert(dx == east && dy == -north);
    assert(dx * dx + dy * dy <= ICON_SIZE * ICON_SIZE) by (nonlinear_arith)
        requires
            dx == east,
            dy == -north,
            east * east + north * north <= ICON_SIZE * ICON_SIZE,
    ;
}

/// The offsets of a corner along a direction no longer than one: each lies
/// on the side of its component, and together they are no longer than
/// `length`.
proof fn lemma_offset_within_length(length: int, sin: int, cos: int)
    requires
        0 <= length,
        Direction::fits(sin, cos),
    ensures
        ({
            let dx = spec_div_towards_zero(length * sin, UNIT as int);
            let dy = spec_div_towards_zero(length * cos, UNIT as int);
            &&& -length <= dx <= length
            &&& -length <= dy <= length
            &&& sin >= 0 ==> dx >= 0
            &&& sin <= 0 ==> dx <= 0
            &&& cos >= 0 ==> dy >= 0
            &&& cos <= 0 ==> dy <= 0
            &&& dx * dx + dy * dy <= length * length
        }),
{
    let dx = spec_div_towards_zero(length * sin, UNIT as int);
    let dy = spec_div_towards_zero(length * cos, UNIT as int);
    let u2 = UNIT * UNIT;
    lemma_bounded_offset(length, sin, cos);
    lemma_bounded_offset(length, cos, sin);
    lemma_rounded_square(length * sin, UNIT as int);
    lemma_rounded_square(length * cos, UNIT as int);
    lemma_square_of_product(length, sin);
    lemma_square_of_product(length, cos);
    assert(dx * dx + dy * dy <= length * length) by (nonlinear_arith)
        requires
            dx * dx * u2 <= (length * length) * (sin * sin),
            dy * dy * u2 <= (length * length) * (cos * cos),
            sin * sin + cos * cos <= u2,
            u2 > 0,
    ;
}

/// One offset of a corner lies on the side of its component and is no
/// longer than `length`.
proof fn lemma_bounded_offset(length: int, component: int, other: int)
    requires
        0 <= length,
        Direction::fits(component, other),
    ensures
        -length <= spec_div_towards_zero(length * component, UNIT as int) <= length,
        component >= 0 ==> spec_div_towards_zero(length * component, UNIT as int) >= 0,
        component <= 0 ==> spec_div_towards_zero(length * component, UNIT as int) <= 0,
{
    assert(-UNIT <= component <= UNIT) by (nonlinear_arith)
        requires
            component * component + other * other <= UNIT * UNIT,
    ;
    assert(-length * UNIT <= length * component <= length * UNIT) by (nonlinear_arith)
        requires
            0 <= length,
            -UNIT <= component <= UNIT,
    ;
    assert(component >= 0 ==> length * component >= 0) by (nonlinear_arith)
        requires
            0 <= length,
    ;
    assert(component <= 0 ==> length * component <= 0) by (nonlinear_arith)
        requires
            0 <= length,
    ;
}

/// The shape of a contact drawn at `at`, in the colour of its altitude
/// band: a triangle pointing along its heading, or a circle if the aircraft
/// reports no heading or the contact has no direction for it.
pub open spec fn spec_icon_shape(contact: Contact, at: ScreenPoint) -> Primitive {
    let color = contact.aircraft.spec_altitude_band().spec_color();
    if contact.aircraft.true_track is Some && contact.heading is Some {
        Primitive::ConvexPolygon {
            points: spec_icon_corners(at, contact.heading->0),
            fill: color,
            stroke: Stroke { width: ICON_OUTLINE, color: Color::spec_black() },
        }
    } else {
        Primitive::CircleFilled { center: at, radius: ICON_SIZE as int, color }
    }
}

/// The label of a contact drawn at `at`: its display name above the icon,
/// or nothing if the name is empty.
pub open spec fn spec_aircraft_label(contact: Contact, at: ScreenPoint) -> Seq<Primitive> {
    let name = contact.aircraft.spec_display_name();
    if name.len() > 0 {
        seq![
            Primitive::Text {
                pos: ScreenPoint { x: at.x, y: (at.y - LABEL_OFFSET) as i64 },
                anchor: Align2::spec_center_center(),
                text: name,
                font_size: LABEL_FONT as int,
                color: Color::spec_white(),
            },
        ]
    } else {
        Seq::empty()
    }
}

/// The icon of a contact drawn at `at`: its shape, and over it its label.
pub open spec fn spec_aircraft_icon(contact: Contact, at: ScreenPoint) -> Seq<Primitive> {
    seq![spec_icon_shape(contact, at)] + spec_aircraft_label(contact, at)
}

/// What is drawn of one contact: its icon where it is shown, and nothing
/// if it is not.
pub open spec fn spec_contact(frame: RadarFrame, contact: Contact) -> Seq<Primitive> {
    match spec_contact_position(frame, contact) {
        Some(at) => spec_aircraft_icon(contact, at),
        None => Seq::empty(),
    }
}

/// What is drawn of each contact, as a layer of its own, in the order of
/// `contacts`.
pub open spec fn spec_contact_layers(frame: RadarFrame, contacts: Seq<Contact>) -> Seq<
    Seq<Primitive>,
> {
    contacts.map_values(|contact: Contact| spec_contact(frame, contact))
}

/// The aircraft that are shown, in the order of `contacts`: each with its
/// shape and, over it, its label.
pub open spec fn spec_aircraft(frame: RadarFrame, contacts: Seq<Contact>) -> Seq<Primitive> {
    spec_contact_layers(frame, contacts).flatten()
}

/// A whole frame, bottom layer first: background, range rings, compass
/// rose, trails if they are shown, aircraft icons with their labels, centre
/// marker.
pub open spec fn spec_frame_scene(
    frame: RadarFrame,
    contacts: Seq<Contact>,
    tracks: Seq<Vec<Polar>>,
    show_trails: bool,
    dark: bool,
    location: Location,
) -> Seq<Primitive> {
    spec_radar_background(frame, dark) + spec_range_rings(frame, dark) + spec_compass_rose(frame)
        + (if show_trails {
        spec_aircraft_trails(frame, tracks)
    } else {
        Seq::empty()
    }) + spec_aircraft(frame, contacts) + spec_center_marker(frame, location)
}

/// The line in which trails are drawn.
#[verifier::when_used_as_spec(spec_trail_stroke)]
pub fn trail_stroke() -> (s: Stroke)
    ensures
        s == spec_trail_stroke(),
{
    Stroke { width: TRAIL_WIDTH, color: AircraftColors::new(true).trail }
}

/// Project the points of one track, dropping those out of range.
pub fn visible_points(frame: &RadarFrame, track: &Vec<Polar>) -> (points: Vec<ScreenPoint>)
    ensures
        points@ == spec_visible_points(*frame, track@),
{
    let mut points: Vec<ScreenPoint> = Vec::new();
    let mut i: usize = 0;
    assert(track@.take(0) =~= Seq::<Polar>::empty());
    while i < track.len()
        invariant
            i <= track@.len(),
            points@ == spec_visible_points(*frame, track@.take(i as int)),
        decreases track@.len() - i,
    {
        assert(track@.take(i as int + 1).drop_last() =~= track@.take(i as int));
        assert(track@.take(i as int + 1).last() == track@[i as int]);
        match frame.project(&track[i]) {
            Some(point) => {
                points.push(point);
            },
            None => {},
        }
        i = i + 1;
    }
    assert(track@.take(track@.len() as int) =~= track@);
    points
}

/// Paint the trail of each aircraft as a line through its points in range.
pub fn draw_aircraft_trails(out: &mut Vec<DrawCommand>, frame: &RadarFrame, tracks: &[Vec<Polar>])
    ensures
        scene(final(out)@) == scene(old(out)@) + spec_aircraft_trails(*frame, tracks@),
{
    let mut i: usize = 0;
    assert(scene(out@) =~= scene(old(out)@) + spec_aircraft_trails(*frame, tracks@.take(0)));
    while i < tracks.len()
        invariant
            i <= tracks@.len(),
            scene(out@) == scene(old(out)@) + spec_aircraft_trails(*frame, tracks@.take(i as int)),
        decreases tracks@.len() - i,
    {
        let ghost before = scene(out@);
        let points = visible_points(frame, &tracks[i]);
        if points.len() >= 2 {
            emit(out, DrawCommand::Line { points, stroke: trail_stroke() });
        }
        proof {
            let trail = spec_trail(*frame, tracks@[i as int]@);
            let earlier = spec_trail_layers(*frame, tracks@.take(i as int));
            assert(scene(out@) =~= before + trail);
            assert(spec_trail_layers(*frame, tracks@.take(i as int + 1)) =~= earlier.push(trail));
            earlier.lemma_flatten_push(trail);
        }
        i = i + 1;
    }
    assert(tracks@.take(tracks@.len() as int) =~= tracks@);
}

/// Where a contact is drawn, if it is.
pub fn contact_position(frame: &RadarFrame, contact: &Contact) -> (at: Option<ScreenPoint>)
    ensures
        at == spec_contact_position(*frame, *contact),
        at is Some ==> -MAX_OFFSET <= at->0.x - frame.spec_center().x <= MAX_OFFSET,
        at is Some ==> -MAX_OFFSET <= at->0.y - frame.spec_center().y <= MAX_OFFSET,
{
    if contact.aircraft.has_position() {
        match &contact.fix {
            Some(fix) => frame.project(fix),
            None => None,
        }
    } else {
        None
    }
}

/// Whether a point is close enough to the screen for icon arithmetic.
pub open spec fn near_screen(at: ScreenPoint) -> bool {
    &&& -MAX_OFFSET + i32::MIN <= at.x <= MAX_OFFSET + i32::MAX
    &&& -MAX_OFFSET + i32::MIN <= at.y <= MAX_OFFSET + i32::MAX
}

/// A corner of an aircraft icon, `length` away from `at` along a bearing.
fn icon_corner(at: ScreenPoint, length: i64, sin: i64, cos: i64) -> (corner: ScreenPoint)
    requires
        near_screen(at),
        0 <= length <= ICON_SIZE,
        -UNIT <= sin <= UNIT,
        -UNIT <= cos <= UNIT,
    ensures
        corner == spec_icon_corner(at, length as int, sin as int, cos as int),
{
    ScreenPoint { x: at.x + scaled(length, sin), y: at.y - scaled(length, cos) }
}

/// The direction of 2.5 radians, clockwise or anticlockwise.
fn rear_turn(clockwise: bool) -> (turn: Direction)
    ensures
        turn.spec_sin() == if clockwise {
            REAR_SIN as int
        } else {
            -REAR_SIN
        },
        turn.spec_cos() == REAR_COS,
{
    let sin: i64 = if clockwise {
        REAR_SIN
    } else {
        -REAR_SIN
    };
    assert(Direction::fits(sin as int, REAR_COS as int)) by (nonlinear_arith)
        requires
            sin == REAR_SIN || sin == -REAR_SIN,
    ;
    match Direction::new(sin, REAR_COS) {
        Some(turn) => turn,
        None => Direction::north(),
    }
}

/// Paint the icon of one contact at `at`: its shape, then its label.
fn draw_aircraft_icon(out: &mut Vec<DrawCommand>, contact: &Contact, at: ScreenPoint)
    requires
        near_screen(at),
    ensures
        scene(final(out)@) == scene(old(out)@) + spec_aircraft_icon(*contact, at),
{
    let color = contact.aircraft.altitude_band().color();

    // A triangle that points along the heading
    match (contact.aircraft.true_track, &contact.heading) {
        (Some(_), Some(heading)) => {
            let starboard = heading.turned(&rear_turn(true));
            let port = heading.turned(&rear_turn(false));
            let mut points: Vec<ScreenPoint> = Vec::new();
            points.push(icon_corner(at, ICON_SIZE, heading.sin(), heading.cos()));
            points.push(icon_corner(at, ICON_SIZE / 2, starboard.sin(), starboard.cos()));
            points.push(icon_corner(at, ICON_SIZE / 2, port.sin(), port.cos()));
            assert(points@ =~= spec_icon_corners(at, *heading));
            emit(
                out,
                DrawCommand::ConvexPolygon {
                    points,
                    fill: color,
                    stroke: Stroke { width: ICON_OUTLINE, color: Color::black() },
                },
            );
        },
        _ => {
            // A circle if no heading is available
            emit(out, DrawCommand::CircleFilled { center: at, radius: ICON_SIZE, color });
        },
    }

    // The label
    let name = contact.aircraft.display_name();
    if name.as_str().unicode_len() > 0 {
        emit(
            out,
            DrawCommand::Text {
                pos: ScreenPoint { x: at.x, y: at.y - LABEL_OFFSET },
                anchor: Align2::center_center(),
                text: name,
                font_size: LABEL_FONT,
                color: Color::white(),
            },
        );
    }
    assert(scene(out@) =~= scene(old(out)@) + spec_aircraft_icon(*contact, at));
}

/// Paint the aircraft that are in range, each with its label.
pub fn draw_aircraft(out: &mut Vec<DrawCommand>, frame: &RadarFrame, contacts: &[Contact])
    ensures
        scene(final(out)@) == scene(old(out)@) + spec_aircraft(*frame, contacts@),
{
    let center = frame.center();
    let mut i: usize = 0;
    assert(scene(out@) =~= scene(old(out)@) + spec_aircraft(*frame, contacts@.take(0)));
    while i < contacts.len()
        invariant
            i <= contacts@.len(),
            center == frame.spec_center(),
            i32::MIN <= center.x <= i32::MAX,
            i32::MIN <= center.y <= i32::MAX,
            scene(out@) == scene(old(out)@) + spec_aircraft(*frame, contacts@.take(i as int)),
        decreases contacts@.len() - i,
    {
        let ghost before = scene(out@);
        match contact_position(frame, &contacts[i]) {
            Some(at) => {
                draw_aircraft_icon(out, &contacts[i], at);
            },
            None => {},
        }
        proof {
            let drawn = spec_contact(*frame, contacts@[i as int]);
            let earlier = spec_contact_layers(*frame, contacts@.take(i as int));
            assert(scene(out@) =~= before + drawn);
            assert(spec_contact_layers(*frame, contacts@.take(i as int + 1)) =~= earlier.push(
                drawn,
            ));
            earlier.lemma_flatten_push(drawn);
        }
        i = i + 1;
    }
    assert(contacts@.take(contacts@.len() as int) =~= contacts@);
}

/// Compose a whole frame.
pub fn draw_frame(
    frame: &RadarFrame,
    contacts: &[Contact],
    tracks: &[Vec<Polar>],
    show_trails: bool,
    dark: bool,
    location: &Location,
) -> (commands: Vec<DrawCommand>)
    ensures
        scene(commands@) == spec_frame_scene(
            *frame,
            contacts@,
            tracks@,
            show_trails,
            dark,
            *location,
        ),
{
    let mut out: Vec<DrawCommand> = Vec::new();
    assert(scene(out@) =~= Seq::<Primitive>::empty());
    draw_radar_background(&mut out, frame, dark);
    draw_range_rings(&mut out, frame, dark);
    draw_compass_rose(&mut out, frame);
    if show_trails {
        draw_aircraft_trails(&mut out, frame, tracks);
    }
    draw_aircraft(&mut out, frame, contacts);
    draw_center_marker(&mut out, frame, location);
    assert(scene(out@) =~= spec_frame_scene(
        *frame,
        contacts@,
        tracks@,
        show_trails,
        dark,
        *location,
    ));
    out
}

} // verus!
