use skyradar::aircraft::Aircraft;
use skyradar::api::{first_aircraft, reported_instant, reported_measure, resolved_instant, MockApi, StateData};
use skyradar::canvas::{Color, Stroke};
use skyradar::config::{ApiCredentials, AppConfig, Theme, WindowSize};
use skyradar::geo::Location;
use skyradar::refresh::{on_request, on_tick, seconds_until_refresh, telemetry_source, RefreshAction, TelemetrySource};
use skyradar::theme::{apply_theme, AircraftColors, RadarColors, Visuals};
use skyradar::aircraft::AltitudeBand;

fn state() -> StateData {
    StateData {
        icao24: "abc123".to_string(),
        callsign: "UAL123  ".to_string(),
        origin_country: "United States".to_string(),
        time_position: 1_700_000_000,
        time_velocity: 1_700_000_001,
        longitude: -122_419_400,
        latitude: 37_774_900,
        altitude: 35_000_000,
        velocity: 450_000,
        true_track: 90_000,
        vertical_rate: -500_000,
        sensors: vec!["ADSB".to_string()],
        geo_altitude: 35_100_000,
        squawk: "1234".to_string(),
        spi: true,
        position_source: 2,
        category: 3,
    }
}

fn blank() -> StateData {
    StateData {
        icao24: "abc123".to_string(),
        callsign: String::new(),
        origin_country: String::new(),
        time_position: 0,
        time_velocity: -5,
        longitude: 0,
        latitude: 0,
        altitude: 0,
        velocity: 0,
        true_track: 0,
        vertical_rate: 0,
        sensors: vec![],
        geo_altitude: 0,
        squawk: String::new(),
        spi: false,
        position_source: 0,
        category: 0,
    }
}

#[test]
fn full_state_vector() {
    let a = Aircraft::from_state_at(state(), 7);
    let mut expected = Aircraft::new("abc123".to_string());
    expected.callsign = Some("UAL123  ".to_string());
    expected.origin_country = Some("United States".to_string());
    expected.time_position = Some(1_700_000_000);
    expected.time_velocity = Some(1_700_000_001);
    expected.longitude = Some(-122_419_400);
    expected.latitude = Some(37_774_900);
    expected.altitude = Some(35_000_000);
    expected.velocity = Some(450_000);
    expected.true_track = Some(90_000);
    expected.vertical_rate = Some(-500_000);
    expected.sensors = Some(vec!["ADSB".to_string()]);
    expected.geo_altitude = Some(35_100_000);
    expected.squawk = Some("1234".to_string());
    expected.spi = Some(true);
    expected.position_source = Some(2);
    expected.category = Some(3);
    assert_eq!(a, expected);
    assert_eq!(a.display_name(), "UAL123");
}

#[test]
fn blank_state_vector() {
    let a = Aircraft::from_state_at(blank(), 7);
    let mut expected = Aircraft::new("abc123".to_string());
    expected.spi = Some(false);
    expected.position_source = Some(0);
    expected.category = Some(0);
    assert_eq!(a, expected);
}

#[test]
fn state_vector_by_the_clock() {
    let mut s = state();
    s.time_position = i64::MAX;
    let before = chrono::Utc::now().timestamp();
    let a = Aircraft::from_state(s);
    let after = chrono::Utc::now().timestamp();
    let t = a.time_position.unwrap();
    assert!(before <= t && t <= after);
    assert_eq!(a.time_velocity, Some(1_700_000_001));
}

#[test]
fn instants_outside_the_calendar_become_now() {
    assert_eq!(reported_instant(1_700_000_000, 7), Some(1_700_000_000));
    assert_eq!(reported_instant(1, 7), Some(1));
    assert_eq!(reported_instant(0, 7), None);
    assert_eq!(reported_instant(-1, 7), None);
    assert_eq!(reported_instant(i64::MIN, 7), None);
    assert_eq!(reported_instant(i64::MAX, 7), Some(7));
    assert_eq!(reported_instant(i64::MAX / 2, 7), Some(7));
    // chrono's calendar ends with the year 262142
    assert_eq!(reported_instant(8_210_266_876_799, 7), Some(8_210_266_876_799));
    assert_eq!(reported_instant(8_210_266_876_800, 7), Some(7));
}

#[test]
fn resolved_instants() {
    assert_eq!(resolved_instant(5, Some(5), 7), Some(5));
    assert_eq!(resolved_instant(5, None, 7), Some(7));
    assert_eq!(resolved_instant(0, Some(0), 7), None);
    assert_eq!(resolved_instant(-3, None, 7), None);
}

#[test]
fn measures_of_zero_are_missing() {
    assert_eq!(reported_measure(0), None);
    assert_eq!(reported_measure(1), Some(1));
    assert_eq!(reported_measure(-1), Some(-1));
    assert_eq!(reported_measure(i64::MIN), Some(i64::MIN));
}

#[test]
fn first_of_the_answer() {
    assert_eq!(first_aircraft(vec![], 7), None);
    let mut second = state();
    second.icao24 = "zzz999".to_string();
    let a = first_aircraft(vec![state(), second], 7).unwrap();
    assert_eq!(a, Aircraft::from_state_at(state(), 7));
}

#[test]
fn mock_reports_two_aircraft() {
    let api = MockApi::new();
    let list = api.mock_aircraft_at(1234);
    assert_eq!(list.len(), 2);
    let a = &list[0];
    assert_eq!(a.icao24, "a12345");
    assert_eq!(a.callsign.as_deref(), Some("TEST123"));
    assert_eq!(a.origin_country.as_deref(), Some("United States"));
    assert_eq!((a.time_position, a.time_velocity), (Some(1234), Some(1234)));
    assert_eq!((a.longitude, a.latitude), (Some(-122_419_400), Some(37_774_900)));
    assert_eq!((a.altitude, a.geo_altitude), (Some(35_000_000), Some(35_000_000)));
    assert_eq!((a.velocity, a.true_track, a.vertical_rate), (Some(450_000), Some(90_000), Some(0)));
    assert_eq!(a.sensors, Some(vec!["ADSB".to_string()]));
    assert_eq!(a.squawk.as_deref(), Some("1234"));
    assert_eq!((a.spi, a.position_source, a.category), (Some(false), Some(0), Some(0)));
    let b = &list[1];
    assert_eq!(b.icao24, "b67890");
    assert_eq!(b.callsign.as_deref(), Some("DEMO456"));
    assert_eq!(b.origin_country.as_deref(), Some("Canada"));
    assert_eq!((b.time_position, b.time_velocity), (Some(1234), Some(1234)));
    assert_eq!((b.longitude, b.latitude), (Some(-122_400_000), Some(37_780_000)));
    assert_eq!((b.altitude, b.geo_altitude), (Some(28_000_000), Some(28_000_000)));
    assert_eq!((b.velocity, b.true_track, b.vertical_rate), (Some(380_000), Some(180_000), Some(-500_000)));
    assert_eq!(b.sensors, Some(vec!["ADSB".to_string()]));
    assert_eq!(b.squawk.as_deref(), Some("5678"));
    assert_eq!((b.spi, b.position_source, b.category), (Some(false), Some(0), Some(0)));
}

#[test]
fn mock_by_the_clock() {
    let before = chrono::Utc::now().timestamp();
    let list = MockApi::new().get_aircraft_in_radius(&Location::tokyo(), 1);
    let after = chrono::Utc::now().timestamp();
    assert_eq!(list.len(), 2);
    let t = list[0].time_position.unwrap();
    assert!(before <= t && t <= after);
    assert!(list[0].is_active());
    assert_eq!(list[1].time_position, Some(t));
    let mut expected = MockApi::new().mock_aircraft_at(t);
    assert_eq!(list, expected);
    expected.clear();
}

#[test]
fn stored_configuration_is_made_sensible() {
    let mut c = AppConfig::default();
    c.refresh_interval_seconds = 9;
    c.radar_radius_km = 999;
    c.trail_length = 51;
    c.show_trails = false;
    c.theme = Theme::Light;
    let s = c.clone().sanitized();
    assert_eq!(s.refresh_interval_seconds, 30);
    assert_eq!(s.radar_radius_km, 8_000);
    assert_eq!(s.trail_length, 10);
    let mut expected = c.clone();
    expected.refresh_interval_seconds = 30;
    expected.radar_radius_km = 8_000;
    expected.trail_length = 10;
    assert_eq!(s, expected);

    c.refresh_interval_seconds = 10;
    c.radar_radius_km = 1_000;
    c.trail_length = 50;
    assert_eq!(c.clone().sanitized(), c);
    c.radar_radius_km = 100_000;
    c.trail_length = 1;
    c.refresh_interval_seconds = u64::MAX;
    assert_eq!(c.clone().sanitized(), c);
    c.radar_radius_km = 100_001;
    assert_eq!(c.clone().sanitized().radar_radius_km, 8_000);
    c.trail_length = 0;
    assert_eq!(c.clone().sanitized().trail_length, 10);
    c.trail_length = usize::MAX;
    assert_eq!(c.clone().sanitized().trail_length, 10);
}

#[test]
fn setters_change_one_field() {
    let base = AppConfig::default();
    let mut c = base.clone();
    c.set_location(Location::london());
    assert_eq!(c, AppConfig { location: Location::london(), ..base.clone() });
    let mut c = base.clone();
    c.set_refresh_interval(60);
    assert_eq!(c, AppConfig { refresh_interval_seconds: 60, ..base.clone() });
    c.set_refresh_interval(10);
    assert_eq!(c.refresh_interval_seconds, 10);
    c.set_refresh_interval(9);
    assert_eq!(c.refresh_interval_seconds, 10);
    let mut c = base.clone();
    c.set_radar_radius(50_000);
    assert_eq!(c, AppConfig { radar_radius_km: 50_000, ..base.clone() });
    let mut c = base.clone();
    c.set_theme(Theme::Auto);
    assert_eq!(c, AppConfig { theme: Theme::Auto, ..base.clone() });
    let mut c = base.clone();
    c.set_api_credentials("user".to_string(), "secret".to_string());
    let credentials = ApiCredentials { username: "user".to_string(), password: "secret".to_string() };
    assert_eq!(c, AppConfig { api_credentials: Some(credentials), ..base.clone() });
    c.clear_api_credentials();
    assert_eq!(c, base);
    let mut c = base.clone();
    c.set_window_size(1_200_000, 800_000);
    assert_eq!(c, AppConfig { window_size: Some(WindowSize { width: 1_200_000, height: 800_000 }), ..base.clone() });
    let mut c = base.clone();
    c.toggle_trails();
    assert_eq!(c, AppConfig { show_trails: false, ..base.clone() });
    c.toggle_trails();
    assert_eq!(c, base);
    let mut c = base.clone();
    c.toggle_auto_refresh();
    assert_eq!(c, AppConfig { auto_refresh: false, ..base.clone() });
}

#[test]
fn default_configuration() {
    let c = AppConfig::default();
    assert_eq!(c.location, Location::san_francisco());
    assert_eq!(c.api_credentials, None);
    assert_eq!(c.window_size, None);
    assert!(c.auto_refresh);
}

#[test]
fn theme_names() {
    assert_eq!(Theme::Dark.name(), "Dark");
    assert_eq!(Theme::Light.name(), "Light");
    assert_eq!(Theme::Auto.name(), "Auto");
}

#[test]
fn refresh_when_due_and_idle() {
    let mut c = AppConfig::default();
    assert_eq!(on_tick(&c, 29, false), RefreshAction::Wait);
    assert_eq!(on_tick(&c, 30, false), RefreshAction::Fetch);
    assert_eq!(on_tick(&c, 31, false), RefreshAction::Fetch);
    assert_eq!(on_tick(&c, 31, true), RefreshAction::Wait);
    assert_eq!(on_tick(&c, u64::MAX, false), RefreshAction::Fetch);
    c.toggle_auto_refresh();
    assert_eq!(on_tick(&c, 31, false), RefreshAction::Wait);
    assert_eq!(on_request(false), RefreshAction::Fetch);
    assert_eq!(on_request(true), RefreshAction::Wait);
}

#[test]
fn countdown_to_refresh() {
    let c = AppConfig::default();
    assert_eq!(seconds_until_refresh(&c, 0), 30);
    assert_eq!(seconds_until_refresh(&c, 12), 18);
    assert_eq!(seconds_until_refresh(&c, 30), 0);
    assert_eq!(seconds_until_refresh(&c, 31), 0);
    assert_eq!(seconds_until_refresh(&c, u64::MAX), 0);
}

#[test]
fn source_follows_credentials() {
    let mut c = AppConfig::default();
    assert_eq!(telemetry_source(&c), TelemetrySource::Mock);
    c.set_api_credentials("user".to_string(), "secret".to_string());
    assert_eq!(
        telemetry_source(&c),
        TelemetrySource::Live(ApiCredentials { username: "user".to_string(), password: "secret".to_string() })
    );
}

fn rgb(r: u8, g: u8, b: u8) -> Color {
    Color { r, g, b, a: 255 }
}

fn line(r: u8, g: u8, b: u8) -> Stroke {
    Stroke { width: 1_000, color: rgb(r, g, b) }
}

#[test]
fn themes() {
    let mut v = Visuals {
        dark_mode: false,
        panel_fill: rgb(1, 2, 3),
        window_fill: rgb(1, 2, 3),
        faint_bg_color: rgb(1, 2, 3),
        noninteractive_bg_fill: rgb(1, 2, 3),
        noninteractive_bg_stroke: line(1, 2, 3),
        inactive_bg_fill: rgb(1, 2, 3),
        inactive_bg_stroke: line(1, 2, 3),
        hovered_bg_fill: rgb(1, 2, 3),
        hovered_bg_stroke: line(1, 2, 3),
        active_bg_fill: rgb(1, 2, 3),
        active_bg_stroke: line(1, 2, 3),
        selection_bg_fill: rgb(1, 2, 3),
        selection_stroke: line(1, 2, 3),
        hyperlink_color: rgb(1, 2, 3),
        code_bg_color: rgb(1, 2, 3),
    };
    apply_theme(&mut v, true);
    assert_eq!(
        v,
        Visuals {
            dark_mode: true,
            panel_fill: rgb(30, 30, 40),
            window_fill: rgb(25, 25, 35),
            faint_bg_color: rgb(40, 40, 50),
            noninteractive_bg_fill: rgb(45, 45, 55),
            noninteractive_bg_stroke: line(60, 60, 70),
            inactive_bg_fill: rgb(50, 50, 60),
            inactive_bg_stroke: line(70, 70, 80),
            hovered_bg_fill: rgb(60, 60, 70),
            hovered_bg_stroke: line(80, 80, 90),
            active_bg_fill: rgb(70, 70, 80),
            active_bg_stroke: line(90, 90, 100),
            selection_bg_fill: rgb(100, 100, 200),
            selection_stroke: line(120, 120, 220),
            hyperlink_color: rgb(100, 150, 255),
            code_bg_color: rgb(20, 20, 30),
        }
    );
    apply_theme(&mut v, false);
    assert_eq!(
        v,
        Visuals {
            dark_mode: false,
            panel_fill: rgb(240, 240, 250),
            window_fill: rgb(250, 250, 255),
            faint_bg_color: rgb(230, 230, 240),
            noninteractive_bg_fill: rgb(220, 220, 230),
            noninteractive_bg_stroke: line(200, 200, 210),
            inactive_bg_fill: rgb(210, 210, 220),
            inactive_bg_stroke: line(190, 190, 200),
            hovered_bg_fill: rgb(200, 200, 210),
            hovered_bg_stroke: line(180, 180, 190),
            active_bg_fill: rgb(190, 190, 200),
            active_bg_stroke: line(170, 170, 180),
            selection_bg_fill: rgb(150, 150, 255),
            selection_stroke: line(130, 130, 235),
            hyperlink_color: rgb(50, 100, 200),
            code_bg_color: rgb(245, 245, 250),
        }
    );
}

#[test]
fn palettes() {
    let dark = AircraftColors::new(true);
    for band in [AltitudeBand::Low, AltitudeBand::Medium, AltitudeBand::High, AltitudeBand::VeryHigh, AltitudeBand::Unknown] {
        assert_eq!(dark.for_band(band), band.color());
    }
    assert_eq!(dark.trail, Color { r: 100, g: 100, b: 255, a: 100 });
    assert_eq!(dark.selected, rgb(255, 255, 0));
    let light = AircraftColors::new(false);
    assert_eq!(light.for_band(AltitudeBand::Low), rgb(200, 200, 0));
    assert_eq!(light.for_band(AltitudeBand::Medium), rgb(0, 150, 0));
    assert_eq!(light.for_band(AltitudeBand::High), rgb(0, 150, 150));
    assert_eq!(light.for_band(AltitudeBand::VeryHigh), rgb(150, 0, 150));
    assert_eq!(light.for_band(AltitudeBand::Unknown), rgb(100, 100, 100));
    assert_eq!(light.trail, Color { r: 50, g: 50, b: 200, a: 150 });
    assert_eq!(light.selected, rgb(200, 200, 0));
    assert_eq!(
        RadarColors::new(true),
        RadarColors {
            background: rgb(20, 20, 30),
            range_rings: rgb(60, 60, 80),
            compass_rose: rgb(200, 200, 200),
            center_marker: rgb(255, 255, 255),
            grid_lines: rgb(40, 40, 50),
        }
    );
    assert_eq!(
        RadarColors::new(false),
        RadarColors {
            background: rgb(240, 240, 250),
            range_rings: rgb(200, 200, 220),
            compass_rose: rgb(50, 50, 50),
            center_marker: rgb(30, 30, 30),
            grid_lines: rgb(220, 220, 230),
        }
    );
}

#[test]
fn colours() {
    assert_eq!(Color::from_rgb(1, 2, 3), Color { r: 1, g: 2, b: 3, a: 255 });
    assert_eq!(Color::from_rgba_premultiplied(1, 2, 3, 4), Color { r: 1, g: 2, b: 3, a: 4 });
    assert_eq!(Color::white(), rgb(255, 255, 255));
    assert_eq!(Color::black(), rgb(0, 0, 0));
}
