use skyradar::aircraft::Aircraft;
use skyradar::canvas::{Align, Align2, Color, DrawCommand, Stroke};
use skyradar::config::{AppConfig, Theme};
use skyradar::geo::Location;
use skyradar::projection::{Direction, Polar, RadarFrame, Rect, ScreenPoint, UNIT};
use skyradar::radar_view::RadarView;
use skyradar::renderer::{
    contact_position, distance_label, draw_aircraft, draw_aircraft_trails, draw_center_marker,
    draw_compass_rose, draw_frame, draw_radar_background, draw_range_rings, visible_points,
    Contact,
};

const WHITE: Color = Color { r: 255, g: 255, b: 255, a: 255 };
const BLACK: Color = Color { r: 0, g: 0, b: 0, a: 255 };
const TRAIL: Stroke = Stroke { width: 2_000, color: Color { r: 100, g: 100, b: 255, a: 100 } };

fn panel() -> Rect {
    Rect { left: 0, top: 0, right: 1_000_000, bottom: 800_000 }
}

fn frame() -> RadarFrame {
    RadarFrame::new(panel(), 8_000, 1000)
}

fn pt(x: i64, y: i64) -> ScreenPoint {
    ScreenPoint { x, y }
}

fn polar(distance: u32, sin: i64, cos: i64) -> Polar {
    Polar { distance, bearing: Direction::new(sin, cos).unwrap() }
}

fn text(x: i64, y: i64, s: &str, font_size: i64, color: Color) -> DrawCommand {
    DrawCommand::Text {
        pos: pt(x, y),
        anchor: Align2 { horizontal: Align::Center, vertical: Align::Center },
        text: s.to_string(),
        font_size,
        color,
    }
}

fn contact(
    id: &str,
    callsign: Option<&str>,
    altitude: Option<i64>,
    track: Option<i64>,
    fix: Option<Polar>,
    heading: Option<Direction>,
) -> Contact {
    let mut aircraft = Aircraft::new(id.to_string());
    aircraft.callsign = callsign.map(|c| c.to_string());
    aircraft.altitude = altitude;
    aircraft.true_track = track;
    if fix.is_some() {
        aircraft.longitude = Some(1);
        aircraft.latitude = Some(1);
    }
    Contact { aircraft, fix, heading }
}

fn background(dark: bool) -> Vec<DrawCommand> {
    let color = if dark {
        Color { r: 20, g: 20, b: 30, a: 255 }
    } else {
        Color { r: 240, g: 240, b: 250, a: 255 }
    };
    vec![DrawCommand::RectFilled { center: pt(500_000, 400_000), side: 640_000, rounding: 320_000, color }]
}

fn rings(dark: bool) -> Vec<DrawCommand> {
    let color = if dark {
        Color { r: 60, g: 60, b: 80, a: 255 }
    } else {
        Color { r: 200, g: 200, b: 220, a: 255 }
    };
    let labels = ["1.6 km", "3.2 km", "4.8 km", "6.4 km", "8.0 km"];
    let mut out = Vec::new();
    for i in 1..=5i64 {
        out.push(DrawCommand::CircleStroke {
            center: pt(500_000, 400_000),
            radius: 64_000 * i,
            stroke: Stroke { width: 1_000, color },
        });
        out.push(text(500_000 + 44_800 * i, 400_000 - 44_800 * i, labels[i as usize - 1], 12_000, color));
    }
    out
}

fn compass() -> Vec<DrawCommand> {
    vec![
        text(500_000, 60_000, "N", 14_000, WHITE),
        text(840_000, 400_000, "E", 14_000, WHITE),
        text(500_000, 740_000, "S", 14_000, WHITE),
        text(160_000, 400_000, "W", 14_000, WHITE),
    ]
}

fn marker(name: &str) -> Vec<DrawCommand> {
    let stroke = Stroke { width: 2_000, color: WHITE };
    vec![
        DrawCommand::LineSegment { from: pt(490_000, 400_000), to: pt(510_000, 400_000), stroke },
        DrawCommand::LineSegment { from: pt(500_000, 390_000), to: pt(500_000, 410_000), stroke },
        text(500_000, 425_000, name, 12_000, WHITE),
    ]
}

#[test]
fn background_is_the_disc() {
    let mut out = Vec::new();
    draw_radar_background(&mut out, &frame(), true);
    assert_eq!(out, background(true));
    let mut light = vec![text(0, 0, "kept", 1, BLACK)];
    draw_radar_background(&mut light, &frame(), false);
    assert_eq!(light[0], text(0, 0, "kept", 1, BLACK));
    assert_eq!(light[1..], background(false)[..]);
}

#[test]
fn rings_are_evenly_spaced_and_labelled() {
    let mut out = Vec::new();
    draw_range_rings(&mut out, &frame(), true);
    assert_eq!(out, rings(true));
    let mut light = Vec::new();
    draw_range_rings(&mut light, &frame(), false);
    assert_eq!(light, rings(false));
}

#[test]
fn ring_labels_follow_range_and_zoom() {
    let labels = |max_range: u32, scale: u32| -> Vec<String> {
        let mut out = Vec::new();
        draw_range_rings(&mut out, &RadarFrame::new(panel(), max_range, scale), true);
        out.iter()
            .filter_map(|c| match c {
                DrawCommand::Text { text, .. } => Some(text.clone()),
                _ => None,
            })
            .collect()
    };
    assert_eq!(labels(50_000, 1000), vec!["10.0 km", "20.0 km", "30.0 km", "40.0 km", "50.0 km"]);
    assert_eq!(labels(50_000, 2000), vec!["5.0 km", "10.0 km", "15.0 km", "20.0 km", "25.0 km"]);
    assert_eq!(labels(1_000, 5000), vec!["0.0 km", "0.0 km", "0.1 km", "0.1 km", "0.2 km"]);
    assert_eq!(labels(0, 1000), vec!["0.0 km", "0.0 km", "0.0 km", "0.0 km", "0.0 km"]);
    assert_eq!(
        labels(u32::MAX, 100),
        vec!["8589934.5 km", "17179869.1 km", "25769803.7 km", "34359738.3 km", "42949672.9 km"]
    );
}

#[test]
fn ring_labels_are_true_distances() {
    for max_range in [1u32, 999, 8_000, 50_000, 123_457, u32::MAX] {
        for scale in [100u32, 333, 1000, 2500, 5000] {
            let f = RadarFrame::new(panel(), max_range, scale);
            for i in 1..=5u64 {
                let metres = max_range as u64 * i * 1000 / (5 * scale as u64);
                let ring = 64_000 * i as i64;
                if metres > max_range as u64 {
                    continue;
                }
                // a point at the labelled distance is drawn on the ring, or just inside it
                let at = f.project(&polar(metres as u32, UNIT, 0)).unwrap();
                assert!(at.x - 500_000 <= ring);
                // and a point one label step farther out is drawn outside it
                if metres + 100 <= max_range as u64 {
                    let beyond = f.project(&polar(metres as u32 + 100, UNIT, 0)).unwrap();
                    assert!(beyond.x - 500_000 >= ring);
                }
            }
        }
    }
}

#[test]
fn distance_labels() {
    assert_eq!(distance_label(0), "0.0 km");
    assert_eq!(distance_label(99), "0.0 km");
    assert_eq!(distance_label(100), "0.1 km");
    assert_eq!(distance_label(1_600), "1.6 km");
    assert_eq!(distance_label(12_345), "12.3 km");
    assert_eq!(distance_label(999_999), "999.9 km");
    assert_eq!(distance_label(u64::MAX), "18446744073709551.6 km");
}

#[test]
fn compass_has_north_up() {
    let mut out = Vec::new();
    draw_compass_rose(&mut out, &frame());
    assert_eq!(out, compass());
}

#[test]
fn marker_names_the_location() {
    let mut out = Vec::new();
    draw_center_marker(&mut out, &frame(), &Location::san_francisco());
    assert_eq!(out, marker("San Francisco"));
    let mut unnamed = Vec::new();
    draw_center_marker(&mut unnamed, &frame(), &Location::new(0, 0));
    assert_eq!(unnamed, marker("Your Location"));
}

#[test]
fn trail_is_its_in_range_part() {
    let track = vec![
        polar(9_000, UNIT, 0),
        polar(8_000, UNIT, 0),
        polar(4_000, 0, UNIT),
        polar(8_001, 0, UNIT),
        polar(2_000, -UNIT, 0),
    ];
    assert_eq!(
        visible_points(&frame(), &track),
        vec![pt(820_000, 400_000), pt(500_000, 240_000), pt(420_000, 400_000)]
    );
    let mut out = Vec::new();
    draw_aircraft_trails(&mut out, &frame(), &[track]);
    assert_eq!(
        out,
        vec![DrawCommand::Line {
            points: vec![pt(820_000, 400_000), pt(500_000, 240_000), pt(420_000, 400_000)],
            stroke: TRAIL,
        }]
    );
}

#[test]
fn short_trails_are_not_drawn() {
    let mut out = Vec::new();
    draw_aircraft_trails(
        &mut out,
        &frame(),
        &[
            vec![],
            vec![polar(1_000, UNIT, 0)],
            vec![polar(1_000, UNIT, 0), polar(9_000, UNIT, 0), polar(10_000, UNIT, 0)],
            vec![polar(9_000, UNIT, 0), polar(10_000, UNIT, 0)],
        ],
    );
    assert_eq!(out, vec![]);
    draw_aircraft_trails(
        &mut out,
        &frame(),
        &[
            vec![polar(4_000, UNIT, 0)],
            vec![polar(4_000, UNIT, 0), polar(9_000, UNIT, 0), polar(4_000, 0, -UNIT)],
            vec![polar(0, UNIT, 0), polar(0, UNIT, 0)],
        ],
    );
    assert_eq!(
        out,
        vec![
            DrawCommand::Line { points: vec![pt(660_000, 400_000), pt(500_000, 560_000)], stroke: TRAIL },
            DrawCommand::Line { points: vec![pt(500_000, 400_000), pt(500_000, 400_000)], stroke: TRAIL },
        ]
    );
}

#[test]
fn aircraft_with_heading_is_a_triangle() {
    let c = contact(
        "abc123",
        Some("UAL123"),
        Some(35_000_000),
        Some(0),
        Some(polar(4_000, UNIT, 0)),
        Some(Direction::north()),
    );
    let mut out = Vec::new();
    draw_aircraft(&mut out, &frame(), &[c]);
    assert_eq!(
        out,
        vec![
            DrawCommand::ConvexPolygon {
                points: vec![pt(660_000, 392_000), pt(662_393, 403_204), pt(657_607, 403_204)],
                fill: Color { r: 255, g: 0, b: 255, a: 255 },
                stroke: Stroke { width: 1_000, color: BLACK },
            },
            text(660_000, 385_000, "UAL123", 10_000, WHITE),
        ]
    );
}

#[test]
fn triangle_turns_with_the_heading() {
    let corners = |heading: Direction| -> Vec<ScreenPoint> {
        let c = contact("a", None, None, Some(1), Some(Polar::origin()), Some(heading));
        let mut out = Vec::new();
        draw_aircraft(&mut out, &frame(), &[c]);
        match &out[0] {
            DrawCommand::ConvexPolygon { points, .. } => points.clone(),
            other => panic!("not a triangle: {:?}", other),
        }
    };
    // the nose points along the heading on the north-up plot
    assert_eq!(
        corners(Direction::north()),
        vec![pt(500_000, 392_000), pt(502_393, 403_204), pt(497_607, 403_204)]
    );
    assert_eq!(
        corners(Direction::east()),
        vec![pt(508_000, 400_000), pt(496_796, 402_393), pt(496_796, 397_607)]
    );
    assert_eq!(
        corners(Direction::south()),
        vec![pt(500_000, 408_000), pt(497_607, 396_796), pt(502_393, 396_796)]
    );
    assert_eq!(
        corners(Direction::west()),
        vec![pt(492_000, 400_000), pt(503_204, 397_607), pt(503_204, 402_393)]
    );
    assert_eq!(
        corners(Direction::new(600_000, 800_000).unwrap()),
        vec![pt(504_800, 393_600), pt(499_993, 403_999), pt(496_163, 401_127)]
    );
}

#[test]
fn icon_points_where_the_aircraft_moves() {
    // an aircraft at (100, 100) px, as a contact at the centre of a panel around it
    let f = RadarFrame::new(Rect { left: 0, top: 0, right: 200_000, bottom: 200_000 }, 8_000, 1000);
    let nose = |heading: Direction| -> ScreenPoint {
        let c = contact("a", None, None, Some(1), Some(Polar::origin()), Some(heading));
        let mut out = Vec::new();
        draw_aircraft(&mut out, &f, &[c]);
        match &out[0] {
            DrawCommand::ConvexPolygon { points, .. } => points[0],
            other => panic!("not a triangle: {:?}", other),
        }
    };
    assert_eq!(nose(Direction::north()), pt(100_000, 92_000));
    assert_eq!(nose(Direction::east()), pt(108_000, 100_000));
    assert_eq!(nose(Direction::south()), pt(100_000, 108_000));
    assert_eq!(nose(Direction::west()), pt(92_000, 100_000));
    // the nose lies where a point at the same bearing is projected: up and to the right
    let north_east = Direction::new(707_106, 707_106).unwrap();
    let ahead = f.project(&Polar { distance: 4_000, bearing: north_east }).unwrap();
    let tip = nose(north_east);
    assert_eq!(tip, pt(105_656, 94_344));
    assert!(ahead.x > 100_000 && ahead.y < 100_000);
    assert!(tip.x > 100_000 && tip.y < 100_000);
    // the nose is the corner farthest from the position
    for heading in [Direction::north(), Direction::east(), north_east] {
        let c = contact("a", None, None, Some(1), Some(Polar::origin()), Some(heading));
        let mut out = Vec::new();
        draw_aircraft(&mut out, &f, &[c]);
        if let DrawCommand::ConvexPolygon { points, .. } = &out[0] {
            let far = |p: &ScreenPoint| (p.x - 100_000).pow(2) + (p.y - 100_000).pow(2);
            assert!(far(&points[0]) > far(&points[1]));
            assert!(far(&points[0]) > far(&points[2]));
        }
    }
}

#[test]
fn aircraft_without_heading_is_a_circle() {
    let unknown = Color { r: 128, g: 128, b: 128, a: 255 };
    let low = Color { r: 255, g: 255, b: 0, a: 255 };
    let circle = |center: ScreenPoint, color: Color| DrawCommand::CircleFilled { center, radius: 8_000, color };
    let mut out = Vec::new();
    draw_aircraft(
        &mut out,
        &frame(),
        &[
            contact("a", None, None, None, Some(polar(4_000, UNIT, 0)), None),
            // a heading that was reported but could not be resolved
            contact("b", None, Some(500_000), Some(90_000), Some(polar(4_000, 0, UNIT)), None),
            // a direction without a reported heading
            contact("c", None, Some(0), None, Some(polar(4_000, 0, -UNIT)), Some(Direction::east())),
        ],
    );
    assert_eq!(
        out,
        vec![
            circle(pt(660_000, 400_000), unknown),
            text(660_000, 385_000, "a", 10_000, WHITE),
            circle(pt(500_000, 240_000), low),
            text(500_000, 225_000, "b", 10_000, WHITE),
            circle(pt(500_000, 560_000), low),
            text(500_000, 545_000, "c", 10_000, WHITE),
        ]
    );
}

#[test]
fn aircraft_out_of_range_or_without_position_are_left_out() {
    let mut no_position = contact("a", None, None, None, None, None);
    no_position.fix = Some(polar(1_000, UNIT, 0));
    let unresolved = {
        let mut c = contact("b", None, None, None, Some(polar(1_000, UNIT, 0)), None);
        c.fix = None;
        c
    };
    let far = contact("c", None, None, None, Some(polar(8_001, UNIT, 0)), None);
    assert_eq!(contact_position(&frame(), &no_position), None);
    assert_eq!(contact_position(&frame(), &unresolved), None);
    assert_eq!(contact_position(&frame(), &far), None);
    let edge = contact("d", None, None, None, Some(polar(8_000, UNIT, 0)), None);
    assert_eq!(contact_position(&frame(), &edge), Some(pt(820_000, 400_000)));
    let mut out = Vec::new();
    draw_aircraft(&mut out, &frame(), &[no_position, unresolved, far]);
    assert_eq!(out, vec![]);
}

#[test]
fn empty_label_is_left_out() {
    let c = contact("", Some("   "), None, None, Some(Polar::origin()), None);
    let mut out = Vec::new();
    draw_aircraft(&mut out, &frame(), &[c]);
    assert_eq!(out.len(), 1);
    assert!(matches!(out[0], DrawCommand::CircleFilled { .. }));
}

#[test]
fn label_is_the_trimmed_callsign_or_the_id() {
    let mut out = Vec::new();
    draw_aircraft(
        &mut out,
        &frame(),
        &[
            contact("abc123", Some(" KLM12 "), None, None, Some(Polar::origin()), None),
            contact("def456", Some(" "), None, None, Some(Polar::origin()), None),
        ],
    );
    assert_eq!(out.len(), 4);
    assert_eq!(out[1], text(500_000, 385_000, "KLM12", 10_000, WHITE));
    assert_eq!(out[3], text(500_000, 385_000, "def456", 10_000, WHITE));
}

#[test]
fn frame_layers_are_in_order() {
    let contacts = vec![
        contact("abc123", Some("UAL123"), Some(5_000_000), None, Some(polar(4_000, UNIT, 0)), None),
        contact("far", None, None, None, Some(polar(9_000, UNIT, 0)), None),
        contact("def456", None, None, None, Some(polar(2_000, 0, UNIT)), None),
    ];
    let tracks = vec![vec![polar(4_000, UNIT, 0), polar(2_000, UNIT, 0)]];
    let out = draw_frame(&frame(), &contacts, &tracks, true, true, &Location::london());
    let mut expected = background(true);
    expected.extend(rings(true));
    expected.extend(compass());
    expected.push(DrawCommand::Line { points: vec![pt(660_000, 400_000), pt(580_000, 400_000)], stroke: TRAIL });
    expected.push(DrawCommand::CircleFilled {
        center: pt(660_000, 400_000),
        radius: 8_000,
        color: Color { r: 0, g: 255, b: 0, a: 255 },
    });
    expected.push(text(660_000, 385_000, "UAL123", 10_000, WHITE));
    expected.push(DrawCommand::CircleFilled {
        center: pt(500_000, 320_000),
        radius: 8_000,
        color: Color { r: 128, g: 128, b: 128, a: 255 },
    });
    expected.push(text(500_000, 305_000, "def456", 10_000, WHITE));
    expected.extend(marker("London"));
    assert_eq!(out, expected);
}

#[test]
fn trails_can_be_switched_off() {
    let tracks = vec![vec![polar(4_000, UNIT, 0), polar(2_000, UNIT, 0)]];
    let out = draw_frame(&frame(), &[], &tracks, false, false, &Location::new(0, 0));
    let mut expected = background(false);
    expected.extend(rings(false));
    expected.extend(compass());
    expected.extend(marker("Your Location"));
    assert_eq!(out, expected);
}

#[test]
fn drawing_is_deterministic() {
    let contacts = vec![contact("a", None, None, Some(1), Some(polar(4_000, 600_000, 800_000)), Some(Direction::west()))];
    let tracks = vec![vec![polar(4_000, UNIT, 0), polar(2_000, UNIT, 0)]];
    let a = draw_frame(&frame(), &contacts, &tracks, true, true, &Location::tokyo());
    let b = draw_frame(&frame(), &contacts, &tracks, true, true, &Location::tokyo());
    assert_eq!(a, b);
}

#[test]
fn view_draws_with_its_geometry_and_the_configuration() {
    let mut view = RadarView::new(panel());
    let mut config = AppConfig::default();
    let contacts = vec![contact("a", None, None, None, Some(polar(4_000, UNIT, 0)), None)];
    let tracks = vec![vec![polar(4_000, UNIT, 0), polar(2_000, UNIT, 0)]];
    let out = view.draw(&contacts, &tracks, &config, &config.location);
    assert_eq!(out, draw_frame(&frame(), &contacts, &tracks, true, true, &Location::san_francisco()));

    config.set_theme(Theme::Light);
    config.toggle_trails();
    config.set_radar_radius(16_000);
    view.set_scale(2000);
    let out = view.draw(&contacts, &tracks, &config, &Location::sydney());
    let wide = RadarFrame::new(panel(), 16_000, 2000);
    assert_eq!(out, draw_frame(&wide, &contacts, &tracks, false, false, &Location::sydney()));
    // twice the range at twice the zoom puts the aircraft where it was
    assert_eq!(out[15], DrawCommand::CircleFilled {
        center: pt(660_000, 400_000),
        radius: 8_000,
        color: Color { r: 128, g: 128, b: 128, a: 255 },
    });
}
