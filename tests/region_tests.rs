use ddos_radar::region::{region_bounds, region_label, region_labels, RegionSelector, LAST_REGION, REGION_COUNT};

fn selector_at(i: usize) -> RegionSelector {
    let mut s = RegionSelector::new();
    for _ in 0..i {
        s.navigate_next();
    }
    s
}

#[test]
fn selector_starts_at_world() {
    let s = RegionSelector::new();
    assert_eq!(s.index(), 0);
    assert_eq!(s.label(), "World");
    assert_eq!(s.bounds().lon_min, -180);
    assert_eq!(s.bounds().lat_max, 90);
}

#[test]
fn previous_then_next_returns_to_start() {
    for i in 1..REGION_COUNT {
        let mut s = selector_at(i);
        s.navigate_previous();
        assert_eq!(s.index(), i - 1);
        s.navigate_next();
        assert_eq!(s.index(), i);
    }
}

#[test]
fn next_then_previous_returns_to_start() {
    for i in 0..LAST_REGION {
        let mut s = selector_at(i);
        s.navigate_next();
        assert_eq!(s.index(), i + 1);
        s.navigate_previous();
        assert_eq!(s.index(), i);
    }
}

#[test]
fn previous_at_first_region_is_a_no_op() {
    let mut s = RegionSelector::new();
    s.navigate_previous();
    assert_eq!(s.index(), 0);
}

#[test]
fn next_at_last_region_is_a_no_op() {
    let mut s = selector_at(LAST_REGION);
    assert_eq!(s.index(), 6);
    s.navigate_next();
    assert_eq!(s.index(), 6);
    assert_eq!(s.label(), "Africa");
}

#[test]
fn catalog_bounds_and_labels() {
    let europe = region_bounds(1);
    assert_eq!((europe.lon_min, europe.lon_max, europe.lat_min, europe.lat_max), (-9, 66, 36, 71));
    let oceania = region_bounds(3);
    assert_eq!((oceania.lon_min, oceania.lon_max, oceania.lat_min, oceania.lat_max), (72, 168, -55, -9));
    let south_america = region_bounds(5);
    assert_eq!(
        (south_america.lon_min, south_america.lon_max, south_america.lat_min, south_america.lat_max),
        (-92, -28, -56, 12)
    );
    assert_eq!(region_label(4), "N. America");
    assert_eq!(
        region_labels(),
        vec!["World", "Europe", "Asia", "Oceania", "N. America", "S. America", "Africa"]
    );
}
