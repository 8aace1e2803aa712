//! Attack records, the feed's request and the interpretation of its answer.

use vstd::prelude::*;
use vstd::string::StringExecFns;
use reqwest::header::{HeaderValue, InvalidHeaderValue};

verus! {

/// One attack from the feed: where it came from and what it hit.
#[derive(Clone, Debug)]
pub struct DDOSAttack {
    origin_country_alpha2: String,
    origin_country_name: String,
    target_country_alpha2: String,
    target_country_name: String,
}

/// What a record holds, as character sequences.
pub struct AttackView {
    pub origin_code: Seq<char>,
    pub origin_name: Seq<char>,
    pub target_code: Seq<char>,
    pub target_name: Seq<char>,
}

impl DDOSAttack {
    pub closed spec fn view(&self) -> AttackView {
        AttackView {
            origin_code: self.origin_country_alpha2@,
            origin_name: self.origin_country_name@,
            target_code: self.target_country_alpha2@,
            target_name: self.target_country_name@,
        }
    }

    pub fn new(
        origin_country_alpha2: String,
        origin_country_name: String,
        target_country_alpha2: String,
        target_country_name: String,
    ) -> (r: Self)
        ensures
            r@.origin_code == origin_country_alpha2@,
            r@.origin_name == origin_country_name@,
            r@.target_code == target_country_alpha2@,
            r@.target_name == target_country_name@,
    {
        DDOSAttack {
            origin_country_alpha2,
            origin_country_name,
            target_country_alpha2,
            target_country_name,
        }
    }

    /// The origin and target country names.
    pub fn get_content(&self) -> (r: (&str, &str))
        ensures
            r.0@ == self@.origin_name,
            r.1@ == self@.target_name,
    {
        (self.origin_country_name.as_str(), self.target_country_name.as_str())
    }

    /// The origin and target ISO alpha-2 codes.
    pub fn get_codes(&self) -> (r: (&str, &str))
        ensures
            r.0@ == self@.origin_code,
            r.1@ == self@.target_code,
    {
        (self.origin_country_alpha2.as_str(), self.target_country_alpha2.as_str())
    }
}

/// The text of a request-log line for an attack.
pub open spec fn log_line_text(a: AttackView) -> Seq<char> {
    "Ping from: "@ + a.origin_name + " -> "@ + a.target_name
}

/// The request-log line of one attack.
pub fn log_line(a: &DDOSAttack) -> (r: String)
    ensures
        r@ == log_line_text(a@),
{
    let (origin, target) = a.get_content();
    let r = String::from_str("Ping from: ");
    let r = r.concat(origin);
    let r = r.concat(" -> ");
    r.concat(target)
}

/// One request-log line per cached attack, in cache order.
pub fn log_lines(attacks: &Vec<DDOSAttack>) -> (r: Vec<String>)
    ensures
        r@.len() == attacks@.len(),
        forall|i: int| 0 <= i < attacks@.len() ==> (#[trigger] r@[i])@ == log_line_text(attacks@[i]@),
{
    let mut r: Vec<String> = Vec::new();
    let mut i: usize = 0;
    while i < attacks.len()
        invariant
            i <= attacks@.len(),
            r@.len() == i,
            forall|k: int| 0 <= k < i ==> (#[trigger] r@[k])@ == log_line_text(attacks@[k]@),
        decreases attacks@.len() - i,
    {
        r.push(log_line(&attacks[i]));
        i = i + 1;
    }
    r
}

/// The only way a fetch fails: transport, status, payload and credential
/// problems all collapse into it.
#[derive(Clone, Copy, Debug, PartialEq, Eq, Structural)]
pub enum FeedError {
    Unavailable,
}

/// The configured look-back window.
#[derive(Clone, Copy, Debug)]
pub struct AppSettings {
    pub lookback_minutes: i64,
}

impl AppSettings {
    /// Six hours of look-back.
    pub fn new() -> (r: Self)
        ensures
            r.lookback_minutes == 360,
    {
        AppSettings { lookback_minutes: 360 }
    }
}

/// The address of the feed's top-attacks endpoint.
pub const FEED_ENDPOINT: &'static str = "https://api.cloudflare.com/client/v4/radar/attacks/layer7/top/attacks";

/// The request window `[now - lookback, now]` in Unix seconds, for a positive
/// look-back whose length in seconds and whose start are representable.
pub open spec fn window_of(now_secs: int, lookback_minutes: int) -> Option<(int, int)> {
    if 0 < lookback_minutes && lookback_minutes * 60 <= i64::MAX && now_secs - lookback_minutes * 60
        >= i64::MIN {
        Some((now_secs - lookback_minutes * 60, now_secs))
    } else {
        None
    }
}

/// The request window ending at `now_secs`.
pub fn request_window(now_secs: i64, lookback_minutes: i64) -> (r: Option<(i64, i64)>)
    ensures
        r is Some <==> window_of(now_secs as int, lookback_minutes as int) is Some,
        r is Some ==> ((r->0).0 as int, (r->0).1 as int) == window_of(now_secs as int, lookback_minutes as int)->0,
{
    if lookback_minutes <= 0 || lookback_minutes > i64::MAX / 60 {
        return None;
    }
    let span: i64 = lookback_minutes * 60;
    if now_secs < i64::MIN + span {
        None
    } else {
        Some((now_secs - span, now_secs))
    }
}

/// The ISO-8601 UTC text (`YYYY-MM-DDTHH:MM:SSZ`) of a Unix time in seconds.
pub uninterp spec fn utc_text(secs: int) -> Seq<char>;

/// Bound on the Unix seconds that chrono's calendar surely covers (its
/// years run from -262143 to 262142, beyond this bound either way).
pub const UTC_WRITABLE_LIMIT: i64 = 8_000_000_000_000;

/// Whether chrono's calendar surely covers a Unix time in seconds.
pub open spec fn utc_writable(secs: int) -> bool {
    -UTC_WRITABLE_LIMIT <= secs <= UTC_WRITABLE_LIMIT
}

/// Relies on chrono's `DateTime::<Utc>::from_timestamp` (absent only for
/// seconds outside its calendar) and its `format` with the pattern below:
/// the text depends on the seconds alone.
#[verifier::external_body]
fn utc_timestamp(secs: i64) -> (r: Option<String>)
    ensures
        utc_writable(secs as int) ==> r is Some,
        r is Some ==> r->0@ == utc_text(secs as int),
{
    match chrono::DateTime::<chrono::Utc>::from_timestamp(secs, 0) {
        Some(t) => Some(t.format("%Y-%m-%dT%H:%M:%SZ").to_string()),
        None => None,
    }
}

/// The request URL for a window given by its two timestamps.
pub open spec fn feed_url_text(start: Seq<char>, end: Seq<char>) -> Seq<char> {
    FEED_ENDPOINT@ + "?dateStart="@ + start + "&dateEnd="@ + end
}

/// The request URL for a window given by its two timestamps.
pub fn feed_url(start: &str, end: &str) -> (r: String)
    ensures
        r@ == feed_url_text(start@, end@),
{
    let r = String::from_str(FEED_ENDPOINT);
    let r = r.concat("?dateStart=");
    let r = r.concat(start);
    let r = r.concat("&dateEnd=");
    r.concat(end)
}

/// The authorization header's value for a credential; without one, every
/// fetch fails.
pub fn authorization_value(token: Option<&str>) -> (r: Result<String, FeedError>)
    ensures
        token is None ==> r == Err::<String, FeedError>(FeedError::Unavailable),
        token is Some ==> r is Ok && r->Ok_0@ == "Bearer "@ + token->0@,
{
    match token {
        Some(t) => Ok(String::from_str("Bearer ").concat(t)),
        None => Err(FeedError::Unavailable),
    }
}

#[verifier::external_type_specification]
#[verifier::external_body]
pub struct ExHeaderValue(HeaderValue);

#[verifier::external_type_specification]
#[verifier::external_body]
pub struct ExInvalidHeaderValue(InvalidHeaderValue);

/// Whether a character may stand in a header value: a tab, or anything from
/// the space on but the delete character (the bytes of a character beyond
/// ASCII are all allowed).
pub open spec fn header_char_allowed(c: char) -> bool {
    c == '\t' || (c as u32 >= 32 && c as u32 != 127)
}

/// Whether a text may be a header value.
pub open spec fn header_text_allowed(s: Seq<char>) -> bool {
    forall|i: int| 0 <= i < s.len() ==> header_char_allowed(#[trigger] s[i])
}

/// Relies on `HeaderValue::from_str` (the http crate's, as reqwest exports
/// it): it refuses a text exactly when one of its bytes is below the space
/// and not a tab, or is the delete byte.
#[verifier::external_body]
fn header_value(text: &str) -> (r: Result<HeaderValue, InvalidHeaderValue>)
    ensures
        r is Ok <==> header_text_allowed(text@),
{
    HeaderValue::from_str(text)
}

/// The authorization header for a credential: a feed error without one, or
/// where the credential holds a character that a header cannot carry.
pub fn authorization_header(token: Option<&str>) -> (r: Result<HeaderValue, FeedError>)
    ensures
        r is Ok <==> token is Some && header_text_allowed("Bearer "@ + token->0@),
        r is Err ==> r == Err::<HeaderValue, FeedError>(FeedError::Unavailable),
{
    let text = authorization_value(token)?;
    match header_value(text.as_str()) {
        Ok(v) => Ok(v),
        Err(_) => Err(FeedError::Unavailable),
    }
}

/// The attack feed of the threat-intelligence service.
#[derive(Clone, Copy, Debug)]
pub struct CloudflareDDOSCompoent {}

impl CloudflareDDOSCompoent {
    pub fn new() -> (r: Self)
        ensures
            r == (CloudflareDDOSCompoent {}),
    {
        CloudflareDDOSCompoent {}
    }

    /// The URL that asks for the attacks of the `lookback_minutes` ending at
    /// `now_secs`: present for a valid window whose two ends chrono can write,
    /// absent where the window is not valid.
    pub fn request_url(&self, now_secs: i64, lookback_minutes: i64) -> (r: Option<String>)
        ensures
            window_of(now_secs as int, lookback_minutes as int) is None ==> r is None,
            ({
                let w = window_of(now_secs as int, lookback_minutes as int);
                w is Some && utc_writable((w->0).0) && utc_writable((w->0).1) ==> r is Some
            }),
            r is Some ==> ({
                let w = window_of(now_secs as int, lookback_minutes as int)->0;
                &&& window_of(now_secs as int, lookback_minutes as int) is Some
                &&& r->0@ == feed_url_text(utc_text(w.0), utc_text(w.1))
            }),
    {
        match request_window(now_secs, lookback_minutes) {
            None => None,
            Some((start, end)) => match (utc_timestamp(start), utc_timestamp(end)) {
                (Some(s), Some(e)) => Some(feed_url(s.as_str(), e.as_str())),
                _ => None,
            },
        }
    }

    /// What a fetch yields from the answer's success flag and its ranked
    /// records: the records as they came, or the feed error.
    pub fn interpret(&self, success: bool, records: Vec<DDOSAttack>) -> (r: Result<
        Vec<DDOSAttack>,
        FeedError,
    >)
        ensures
            success <==> r is Ok,
            success ==> r->Ok_0@ == records@,
            !success ==> r == Err::<Vec<DDOSAttack>, FeedError>(FeedError::Unavailable),
    {
        if success {
            Ok(records)
        } else {
            Err(FeedError::Unavailable)
        }
    }
}

} // verus!
