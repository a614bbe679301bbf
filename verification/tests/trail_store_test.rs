use skyradar::aircraft::Aircraft;
use skyradar::config::AppConfig;
use skyradar::geo::GeoPosition;
use skyradar::projection::Rect;
use skyradar::radar_view::RadarView;
use skyradar::trail_store::TrailStore;

fn id(s: &str) -> String {
    s.to_string()
}

fn at(n: i64) -> GeoPosition {
    GeoPosition::new(1000 + n, 2000 + n)
}

fn seen(icao24: &str, n: Option<i64>, time: Option<i64>) -> Aircraft {
    let mut a = Aircraft::new(icao24.to_string());
    if let Some(n) = n {
        a.longitude = Some(1000 + n);
        a.latitude = Some(2000 + n);
    }
    a.time_position = time;
    a
}

fn view() -> RadarView {
    RadarView::new(Rect { left: 0, top: 0, right: 1_000_000, bottom: 800_000 })
}

fn config(trail_length: usize) -> AppConfig {
    let mut c = AppConfig::default();
    c.trail_length = trail_length;
    c
}

#[test]
fn store_starts_empty() {
    let store = TrailStore::new();
    assert_eq!(store.len(), 0);
    assert!(store.trails().is_empty());
    assert!(store.get(&id("abc")).is_empty());
}

#[test]
fn first_report_creates_the_trail() {
    let mut store = TrailStore::new();
    store.update(&id("abc"), at(1), 11, 3);
    assert_eq!(store.len(), 1);
    assert_eq!(store.get(&id("abc")), vec![(at(1), 11)]);
    assert_eq!(store.trails()[0].icao24, "abc");
    assert_eq!(store.trails()[0].max_points, 3);
    assert!(store.get(&id("abd")).is_empty());
}

#[test]
fn store_keeps_the_last_three_of_four() {
    let mut store = TrailStore::new();
    for n in 1..=4 {
        store.update(&id("abc"), at(n), 10 + n, 3);
    }
    assert_eq!(store.get(&id("abc")), vec![(at(2), 12), (at(3), 13), (at(4), 14)]);
    assert_eq!(store.len(), 1);
}

#[test]
fn trails_are_kept_apart() {
    let mut store = TrailStore::new();
    store.update(&id("abc"), at(1), 1, 2);
    store.update(&id("xyz"), at(2), 2, 2);
    store.update(&id("abc"), at(3), 3, 2);
    store.update(&id("xyz"), at(4), 4, 2);
    store.update(&id("abc"), at(5), 5, 2);
    assert_eq!(store.len(), 2);
    assert_eq!(store.get(&id("abc")), vec![(at(3), 3), (at(5), 5)]);
    assert_eq!(store.get(&id("xyz")), vec![(at(2), 2), (at(4), 4)]);
    let ids: Vec<&str> = store.trails().iter().map(|t| t.icao24.as_str()).collect();
    assert_eq!(ids, vec!["abc", "xyz"]);
}

#[test]
fn a_trail_keeps_the_bound_it_was_created_with() {
    let mut store = TrailStore::new();
    store.update(&id("abc"), at(1), 1, 2);
    store.update(&id("abc"), at(2), 2, 50);
    store.update(&id("abc"), at(3), 3, 50);
    assert_eq!(store.get(&id("abc")), vec![(at(2), 2), (at(3), 3)]);
    assert_eq!(store.trails()[0].max_points, 2);
}

#[test]
fn a_bound_of_zero_keeps_nothing() {
    let mut store = TrailStore::new();
    store.update(&id("abc"), at(1), 1, 0);
    assert_eq!(store.len(), 1);
    assert!(store.get(&id("abc")).is_empty());
}

#[test]
fn clear_removes_one_trail() {
    let mut store = TrailStore::new();
    store.update(&id("a"), at(1), 1, 2);
    store.update(&id("b"), at(2), 2, 2);
    store.update(&id("c"), at(3), 3, 2);
    store.clear(&id("b"));
    assert_eq!(store.len(), 2);
    assert!(store.get(&id("b")).is_empty());
    assert_eq!(store.get(&id("a")), vec![(at(1), 1)]);
    assert_eq!(store.get(&id("c")), vec![(at(3), 3)]);
    store.clear(&id("nobody"));
    assert_eq!(store.len(), 2);
    store.update(&id("b"), at(4), 4, 2);
    let ids: Vec<&str> = store.trails().iter().map(|t| t.icao24.as_str()).collect();
    assert_eq!(ids, vec!["a", "c", "b"]);
    assert_eq!(store.get(&id("b")), vec![(at(4), 4)]);
}

#[test]
fn clear_all_removes_every_trail() {
    let mut store = TrailStore::new();
    store.update(&id("a"), at(1), 1, 2);
    store.update(&id("b"), at(2), 2, 2);
    store.clear_all();
    assert_eq!(store.len(), 0);
    assert!(store.get(&id("a")).is_empty());
}

#[test]
fn vanished_aircraft_keep_their_trails() {
    let mut v = view();
    v.update_trails_at(&[seen("a", Some(1), Some(10)), seen("b", Some(2), Some(10))], &config(3), 99);
    v.update_trails_at(&[seen("b", Some(3), Some(20))], &config(3), 99);
    assert_eq!(v.trails().get(&id("a")), vec![(at(1), 10)]);
    assert_eq!(v.trails().get(&id("b")), vec![(at(2), 10), (at(3), 20)]);
}

#[test]
fn aircraft_without_position_are_skipped() {
    let mut v = view();
    let mut half = seen("half", None, Some(5));
    half.longitude = Some(1);
    v.update_trails_at(&[seen("none", None, Some(5)), half, seen("ok", Some(1), None)], &config(3), 77);
    assert_eq!(v.trails().len(), 1);
    assert!(v.trails().get(&id("none")).is_empty());
    assert!(v.trails().get(&id("half")).is_empty());
    // without a reported instant, the instant of the refresh is recorded
    assert_eq!(v.trails().get(&id("ok")), vec![(at(1), 77)]);
}

#[test]
fn snapshots_fill_trails_in_order() {
    let mut v = view();
    for n in 1..=4 {
        v.update_trails_at(&[seen("a", Some(n), Some(n))], &config(3), 0);
    }
    assert_eq!(v.trails().get(&id("a")), vec![(at(2), 2), (at(3), 3), (at(4), 4)]);
    // the same aircraft twice in one snapshot is two reports
    v.update_trails_at(&[seen("a", Some(5), Some(5)), seen("a", Some(6), Some(6))], &config(3), 0);
    assert_eq!(v.trails().get(&id("a")), vec![(at(4), 4), (at(5), 5), (at(6), 6)]);
}

#[test]
fn snapshots_by_the_clock() {
    let mut v = view();
    let before = chrono::Utc::now().timestamp();
    v.update_trails(&[seen("a", Some(1), None), seen("b", Some(2), Some(42))], &config(3));
    let after = chrono::Utc::now().timestamp();
    let a = v.trails().get(&id("a"));
    assert_eq!(a.len(), 1);
    assert_eq!(a[0].0, at(1));
    assert!(before <= a[0].1 && a[0].1 <= after);
    assert_eq!(v.trails().get(&id("b")), vec![(at(2), 42)]);
}

#[test]
fn view_zooms_within_bounds() {
    let mut v = view();
    assert_eq!(v.scale(), 1000);
    v.zoom_in();
    assert_eq!(v.scale(), 1200);
    v.zoom_out();
    assert_eq!(v.scale(), 1000);
    v.zoom_out();
    assert_eq!(v.scale(), 833);
    v.set_scale(4500);
    v.zoom_in();
    assert_eq!(v.scale(), 5000);
    v.zoom_in();
    assert_eq!(v.scale(), 5000);
    v.set_scale(110);
    v.zoom_out();
    assert_eq!(v.scale(), 100);
    v.zoom_out();
    assert_eq!(v.scale(), 100);
    v.set_scale(0);
    assert_eq!(v.scale(), 100);
    v.set_scale(u32::MAX);
    assert_eq!(v.scale(), 5000);
    v.set_scale(2500);
    assert_eq!(v.scale(), 2500);
}

#[test]
fn view_clears_trails() {
    let mut v = view();
    v.update_trails_at(&[seen("a", Some(1), Some(1))], &config(3), 0);
    v.set_scale(2000);
    v.clear_trails();
    assert_eq!(v.trails().len(), 0);
    assert_eq!(v.scale(), 2000);
    assert_eq!(v.panel(), Rect { left: 0, top: 0, right: 1_000_000, bottom: 800_000 });
}

#[test]
fn view_resize_keeps_zoom_and_trails() {
    let mut v = view();
    v.update_trails_at(&[seen("a", Some(1), Some(1))], &config(3), 0);
    v.set_scale(2000);
    v.resize(Rect { left: 0, top: 0, right: 400_000, bottom: 200_000 });
    assert_eq!(v.panel(), Rect { left: 0, top: 0, right: 400_000, bottom: 200_000 });
    assert_eq!(v.scale(), 2000);
    assert_eq!(v.trails().get(&id("a")), vec![(at(1), 1)]);
    let f = v.frame(8000);
    assert_eq!((f.center().x, f.center().y, f.pixel_radius()), (200_000, 100_000, 80_000));
}

#[test]
fn view_frame_follows_panel_and_zoom() {
    let mut v = view();
    v.set_scale(2000);
    let f = v.frame(8000);
    assert_eq!((f.center().x, f.center().y), (500_000, 400_000));
    assert_eq!(f.pixel_radius(), 320_000);
    assert_eq!(f.max_range(), 8000);
    assert_eq!(f.scale(), 2000);
}
