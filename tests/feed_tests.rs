use ddos_radar::feed::{
    authorization_header, authorization_value, UTC_WRITABLE_LIMIT, feed_url, log_line, log_lines, request_window, AppSettings,
    CloudflareDDOSCompoent, DDOSAttack, FeedError, FEED_ENDPOINT,
};

fn attack(origin_code: &str, origin: &str, target_code: &str, target: &str) -> DDOSAttack {
    DDOSAttack::new(
        origin_code.to_string(),
        origin.to_string(),
        target_code.to_string(),
        target.to_string(),
    )
}

#[test]
fn attack_accessors() {
    let a = attack("US", "United States", "CN", "China");
    assert_eq!(a.get_content(), ("United States", "China"));
    assert_eq!(a.get_codes(), ("US", "CN"));
}

#[test]
fn log_line_names_origin_and_target() {
    let a = attack("US", "United States", "CN", "China");
    assert_eq!(log_line(&a), "Ping from: United States -> China");
    let lines = log_lines(&vec![a.clone(), attack("DE", "Germany", "FR", "France")]);
    assert_eq!(lines, vec!["Ping from: United States -> China", "Ping from: Germany -> France"]);
    assert!(log_lines(&vec![]).is_empty());
}

#[test]
fn settings_default_to_six_hours() {
    assert_eq!(AppSettings::new().lookback_minutes, 360);
}

#[test]
fn window_ends_now_and_starts_a_lookback_earlier() {
    assert_eq!(request_window(1_431_648_000, 360), Some((1_431_626_400, 1_431_648_000)));
    assert_eq!(request_window(1_000, 0), None);
    assert_eq!(request_window(1_000, -5), None);
    assert_eq!(request_window(i64::MIN + 59, 1), None);
    assert_eq!(request_window(i64::MIN + 60, 1), Some((i64::MIN, i64::MIN + 60)));
    assert_eq!(request_window(0, i64::MAX), None);
}

#[test]
fn url_carries_both_timestamps() {
    let url = feed_url("2015-05-14T18:00:00Z", "2015-05-15T00:00:00Z");
    assert_eq!(
        url,
        format!("{}?dateStart=2015-05-14T18:00:00Z&dateEnd=2015-05-15T00:00:00Z", FEED_ENDPOINT)
    );
}

#[test]
fn request_url_formats_the_window_in_utc() {
    let feed = CloudflareDDOSCompoent::new();
    let url = feed.request_url(1_431_648_000, 360).unwrap();
    assert_eq!(
        url,
        "https://api.cloudflare.com/client/v4/radar/attacks/layer7/top/attacks?dateStart=2015-05-14T18:00:00Z&dateEnd=2015-05-15T00:00:00Z"
    );
    assert_eq!(feed.request_url(1_431_648_000, 0), None);
}

#[test]
fn authorization_needs_a_credential() {
    assert_eq!(authorization_value(None), Err(FeedError::Unavailable));
    assert_eq!(authorization_value(Some("abc")), Ok("Bearer abc".to_string()));
}

#[test]
fn unsuccessful_answer_is_a_feed_error() {
    let feed = CloudflareDDOSCompoent::new();
    let r = feed.interpret(false, vec![attack("US", "United States", "CN", "China")]);
    assert!(matches!(r, Err(FeedError::Unavailable)));
}

#[test]
fn successful_answer_keeps_the_feed_order() {
    let feed = CloudflareDDOSCompoent::new();
    let r = feed
        .interpret(
            true,
            vec![attack("US", "United States", "CN", "China"), attack("DE", "Germany", "BR", "Brazil")],
        )
        .unwrap();
    assert_eq!(r.len(), 2);
    assert_eq!(r[0].get_codes(), ("US", "CN"));
    assert_eq!(r[1].get_codes(), ("DE", "BR"));
}

#[test]
fn authorization_header_carries_the_bearer_token() {
    let h = authorization_header(Some("abc")).unwrap();
    assert_eq!(h.to_str().unwrap(), "Bearer abc");
    assert!(matches!(authorization_header(None), Err(FeedError::Unavailable)));
    assert!(matches!(authorization_header(Some("a\nb")), Err(FeedError::Unavailable)));
    assert!(matches!(authorization_header(Some("a\u{7f}b")), Err(FeedError::Unavailable)));
    assert!(authorization_header(Some("tab\tand caf\u{e9}")).is_ok());
}

#[test]
fn request_url_exists_across_the_writable_range() {
    let feed = CloudflareDDOSCompoent::new();
    let far = feed.request_url(UTC_WRITABLE_LIMIT, 1).unwrap();
    assert!(far.contains("dateStart="));
    assert!(feed.request_url(-UTC_WRITABLE_LIMIT + 60, 1).is_some());
    assert!(feed.request_url(0, 1).unwrap().ends_with("dateStart=1969-12-31T23:59:00Z&dateEnd=1970-01-01T00:00:00Z"));
}

#[test]
fn requests_at_two_times_differ_only_in_timestamps() {
    let feed = CloudflareDDOSCompoent::new();
    let a = feed.request_url(1_431_648_000, 360).unwrap();
    let b = feed.request_url(1_431_651_600, 360).unwrap();
    let prefix = format!("{}?dateStart=", FEED_ENDPOINT);
    assert!(a.starts_with(&prefix) && b.starts_with(&prefix));
    assert!(b.ends_with("2015-05-14T19:00:00Z&dateEnd=2015-05-15T01:00:00Z"));
    assert_ne!(a, b);
}
