use ddos_radar::control::{AfterInput, App, InputEvent, IterationStart, LoopState};
use ddos_radar::feed::{AppSettings, CloudflareDDOSCompoent, DDOSAttack, FeedError};
use ddos_radar::layout::{compute, Area};
use ddos_radar::projection::project_lines;

fn attack(origin_code: &str, origin: &str, target_code: &str, target: &str) -> DDOSAttack {
    DDOSAttack::new(
        origin_code.to_string(),
        origin.to_string(),
        target_code.to_string(),
        target.to_string(),
    )
}

#[test]
fn empty_cache_fetches_once_then_renders() {
    let mut l = App::new(AppSettings::new());
    assert_eq!(l.state(), LoopState::NeedsData);
    assert_eq!(l.start_iteration(), IterationStart::Fetch);
    l.accept_feed(Ok(vec![attack("US", "United States", "CN", "China")]));
    assert_eq!(l.state(), LoopState::HasData);
    assert_eq!(l.start_iteration(), IterationStart::Render);
    assert_eq!(l.cache().len(), 1);
}

#[test]
fn failed_fetch_empties_the_cache_and_retries() {
    let feed = CloudflareDDOSCompoent::new();
    let mut l = App::new(AppSettings::new());
    let first = feed.request_url(1_431_648_000, l.lookback_minutes()).unwrap();
    let outcome = feed.interpret(false, vec![attack("US", "United States", "CN", "China")]);
    l.accept_feed(outcome);
    assert!(l.cache().is_empty());
    assert_eq!(l.start_iteration(), IterationStart::Fetch);
    let second = feed.request_url(1_431_648_060, l.lookback_minutes()).unwrap();
    assert_ne!(first, second);
    assert!(second.ends_with("dateStart=2015-05-14T18:01:00Z&dateEnd=2015-05-15T00:01:00Z"));
    let prefix = |u: &str| u.split('?').next().unwrap().to_string();
    assert_eq!(prefix(&first), prefix(&second));
}

#[test]
fn empty_answer_keeps_retrying() {
    let mut l = App::new(AppSettings::new());
    l.accept_feed(Ok(vec![]));
    assert_eq!(l.start_iteration(), IterationStart::Fetch);
}

#[test]
fn full_cache_is_not_refilled() {
    let mut l = App::new(AppSettings::new());
    l.accept_feed(Ok(vec![attack("US", "United States", "CN", "China")]));
    l.accept_feed(Ok(vec![attack("DE", "Germany", "FR", "France")]));
    assert_eq!(l.cache()[0].get_codes(), ("US", "CN"));
    l.accept_feed(Err(FeedError::Unavailable));
    assert_eq!(l.cache().len(), 1);
}

#[test]
fn input_moves_focus_and_quit_exits() {
    let mut l = App::new(AppSettings::new());
    assert_eq!(l.handle_input(InputEvent::NavigatePrevious), AfterInput::Continue);
    assert_eq!(l.selected_index(), 0);
    assert_eq!(l.handle_input(InputEvent::NavigateNext), AfterInput::Continue);
    assert_eq!(l.selected_index(), 1);
    assert_eq!(l.handle_input(InputEvent::Other), AfterInput::Continue);
    assert_eq!(l.selected_index(), 1);
    assert_eq!(l.handle_input(InputEvent::Quit), AfterInput::Exit);
}

#[test]
fn unknown_code_skips_only_its_line() {
    let mut l = App::new(AppSettings::new());
    l.accept_feed(Ok(vec![
        attack("US", "United States", "CN", "China"),
        attack("XX", "Nowhere", "DE", "Germany"),
    ]));
    let frame = l.frame(Area { x: 0, y: 0, width: 100, height: 50 });
    assert_eq!(frame.segments.len(), 1);
    assert_eq!(frame.segments[0].record, 0);
    assert_eq!(frame.segments[0].origin.iso_code, "US");
    assert_eq!(frame.segments[0].target.iso_code, "CN");
    assert_eq!(frame.segments[0].target.geo.latitude, nationify::by_iso_code("CN").unwrap().geo.latitude);
    assert_eq!(frame.log, vec!["Ping from: United States -> China", "Ping from: Nowhere -> Germany"]);
}

#[test]
fn segments_count_resolvable_records() {
    let attacks = vec![
        attack("FR", "France", "ZZ", "Unknown"),
        attack("JP", "Japan", "BR", "Brazil"),
        attack("QQ", "Unknown", "XY", "Unknown"),
        attack("IN", "India", "AU", "Australia"),
    ];
    let segments = project_lines(&attacks);
    assert_eq!(segments.len(), 2);
    assert_eq!(segments[0].record, 1);
    assert_eq!(segments[1].record, 3);
    assert!(project_lines(&vec![]).is_empty());
}

#[test]
fn segments_keep_world_coordinates() {
    let segments = project_lines(&vec![attack("US", "United States", "CN", "China")]);
    let us = nationify::by_iso_code("US").unwrap();
    assert_eq!(segments[0].origin.geo.longitude, us.geo.longitude);
    assert_eq!(segments[0].origin.geo.latitude, us.geo.latitude);
}

#[test]
fn frame_shows_focus_and_settings() {
    let mut l = App::new(AppSettings::new());
    l.handle_input(InputEvent::NavigateNext);
    l.handle_input(InputEvent::NavigateNext);
    let area = Area { x: 0, y: 0, width: 120, height: 40 };
    let frame = l.frame(area);
    assert_eq!(frame.selected, 2);
    assert_eq!(frame.labels[2], "Asia");
    assert_eq!((frame.bounds.lon_min, frame.bounds.lon_max), (26, 169));
    assert_eq!((frame.bounds.lat_min, frame.bounds.lat_max), (-11, 82));
    assert_eq!(frame.lookback_minutes, 360);
    assert_eq!(frame.layout, compute(area));
    assert!(frame.log.is_empty());
    assert!(frame.segments.is_empty());
}
